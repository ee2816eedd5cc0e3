use vstd::prelude::*;
use vstd::utf8::{
    decode_utf8, encode_scalar, encode_utf8, has_width_1_encoding, is_scalar, valid_utf8,
};
use crate::framing::{
    file_header, find_separator, has_separator, header_fits, is_first_separator,
    lemma_first_separator_unique, recv_suffix, separator_index, SERVER_MSG_SEPARATOR,
};
use crate::models::{Mechanism, Protocol};
use crate::text::decode_text;

verus! {

/// Where a UDP receiving session stands.
#[derive(Copy, Clone, PartialEq, Eq, Debug, Structural)]
pub enum ServerState {
    /// No message has been handled yet; the next one names the file.
    WaitForFile,
    /// The file is open; each message is appended to it.
    Transferring,
    /// An empty message ended the transfer; each message only reports totals.
    Done,
}

/// Messages and bytes received in a session.
#[derive(Copy, Clone, PartialEq, Eq, Debug, Structural)]
pub struct SessionStats {
    pub count: u8,
    pub bytes: u64,
}

impl SessionStats {
    /// A session that has received nothing.
    pub fn new() -> (s: SessionStats)
        ensures
            s.count == 0,
            s.bytes == 0,
    {
        SessionStats { count: 0, bytes: 0 }
    }

    /// One more message of `size` bytes can be counted without overflow.
    pub open spec fn can_record(self, size: int) -> bool {
        &&& self.count < u8::MAX
        &&& 0 <= size
        &&& self.bytes + size <= u64::MAX
    }

    /// The totals after one more message of `size` bytes.
    pub open spec fn recorded(self, size: int) -> SessionStats {
        SessionStats { count: (self.count + 1) as u8, bytes: (self.bytes + size) as u64 }
    }

    /// Counts one more message of `size` bytes.
    pub fn record(&mut self, size: usize)
        requires
            old(self).can_record(size as int),
        ensures
            *final(self) == old(self).recorded(size as int),
    {
        self.count = self.count + 1;
        self.bytes = self.bytes + size as u64;
    }
}

/// Why a server session stops.
#[derive(Copy, Clone, PartialEq, Eq, Debug, Structural)]
pub enum ServerError {
    /// The file name in the first message is not valid UTF-8.
    InvalidFilePath,
    /// No separator ends the file name anywhere in the receive buffer, so the
    /// name would run through the whole buffer; no file is created.
    MissingSeparator,
}

/// How a server starts serving.
#[derive(Debug)]
pub enum StartStep {
    /// Run the UDP receiving loop.
    ServeUdp,
    /// Serving is over, with this result.
    Finished(Result<(), ServerError>),
}

/// What the server must do with a message it received.
#[derive(Debug)]
pub enum ServerAction {
    /// Start the transfer timer, create the file `path`, and write the bytes
    /// `payload_start..payload_end` of the receive buffer into it.
    BeginFile { path: String, payload_start: usize, payload_end: usize },
    /// Append the bytes `0..len` of the receive buffer to the file.
    Append { len: usize },
    /// Print the elapsed time, the sender, and these totals.
    Report { messages: u8, bytes: u64 },
}

/// The mathematical form of a [`ServerAction`].
pub enum ActionModel {
    BeginFile { path: Seq<char>, payload_start: int, payload_end: int },
    Append { len: int },
    Report { messages: int, bytes: int },
}

impl View for ServerAction {
    type V = ActionModel;

    open spec fn view(&self) -> ActionModel {
        match self {
            ServerAction::BeginFile { path, payload_start, payload_end } => ActionModel::BeginFile {
                path: path@,
                payload_start: *payload_start as int,
                payload_end: *payload_end as int,
            },
            ServerAction::Append { len } => ActionModel::Append { len: *len as int },
            ServerAction::Report { messages, bytes } => ActionModel::Report {
                messages: *messages as int,
                bytes: *bytes as int,
            },
        }
    }
}

/// The server's answer to one message: whether to acknowledge it (which
/// happens even when the message cannot be used), and what to do with it or
/// why the session stops.
#[derive(Debug)]
pub struct StepOutcome {
    pub send_ack: bool,
    pub action: Result<ServerAction, ServerError>,
}

/// The state a UDP receiving session keeps between messages.
#[derive(Copy, Clone, Debug)]
pub struct UdpSession {
    pub state: ServerState,
    pub stats: SessionStats,
}

/// The state in which a message of `size` bytes is handled: an empty message ends the transfer.
pub open spec fn handled_in(state: ServerState, size: int) -> ServerState {
    if size == 0 {
        ServerState::Done
    } else {
        state
    }
}

/// The file name that a first message carries: the bytes of the receive buffer
/// before its first separator, or the whole buffer when it holds none.
pub open spec fn file_name_bytes(buf: Seq<u8>) -> Seq<u8> {
    if has_separator(buf) {
        buf.take(separator_index(buf))
    } else {
        buf
    }
}

/// The new state and the action for a message of `size` bytes read into `buf`,
/// or why the session stops: the file name is not valid UTF-8, or no separator
/// ends it. `counted` are the totals including this message.
pub open spec fn datagram_model(
    state: ServerState,
    counted: SessionStats,
    buf: Seq<u8>,
    size: int,
) -> Result<(ServerState, ActionModel), ServerError> {
    match handled_in(state, size) {
        ServerState::WaitForFile => {
            let name = file_name_bytes(buf);
            if !valid_utf8(name) {
                Err(ServerError::InvalidFilePath)
            } else if !has_separator(buf) {
                Err(ServerError::MissingSeparator)
            } else {
                Ok(
                    (
                        ServerState::Transferring,
                        ActionModel::BeginFile {
                            path: decode_utf8(name),
                            payload_start: separator_index(buf) + 1,
                            payload_end: size,
                        },
                    ),
                )
            }
        },
        ServerState::Transferring => Ok((ServerState::Transferring, ActionModel::Append { len: size })),
        ServerState::Done => Ok(
            (
                ServerState::Done,
                ActionModel::Report { messages: counted.count as int, bytes: counted.bytes as int },
            ),
        ),
    }
}

/// A message of `size` bytes read into `buf` can be handled: it fits the
/// buffer and the totals do not overflow; and a message that must name the
/// file is not empty (an empty first message ends the transfer before any
/// timer was started), nor does it carry a valid file name whose separator
/// lies beyond its `size` bytes (the payload length would be negative).
pub open spec fn datagram_allowed(
    state: ServerState,
    stats: SessionStats,
    buf: Seq<u8>,
    size: int,
) -> bool {
    &&& size <= buf.len()
    &&& stats.can_record(size)
    &&& state == ServerState::WaitForFile ==> {
        &&& size > 0
        &&& (has_separator(buf) && valid_utf8(file_name_bytes(buf))) ==> separator_index(buf) < size
    }
}

impl UdpSession {
    /// A session waiting for the message that names the file.
    pub fn new() -> (s: UdpSession)
        ensures
            s.state == ServerState::WaitForFile,
            s.stats.count == 0,
            s.stats.bytes == 0,
    {
        UdpSession { state: ServerState::WaitForFile, stats: SessionStats::new() }
    }

    /// Whether a message of `size` bytes read into `buffer` can be handled now.
    pub fn accepts(&self, buffer: &[u8], size: usize) -> (r: bool)
        ensures
            r == datagram_allowed(self.state, self.stats, buffer@, size as int),
    {
        if size > buffer.len() {
            return false;
        }
        if self.stats.count == 255 {
            return false;
        }
        if self.stats.bytes > u64::MAX - size as u64 {
            return false;
        }
        match self.state {
            ServerState::WaitForFile => {
                if size == 0 {
                    return false;
                }
                match find_separator(buffer) {
                    None => true,
                    Some(end) => {
                        proof {
                            lemma_first_separator_unique(buffer@, end as int);
                            assert(buffer@[end as int] == SERVER_MSG_SEPARATOR);
                        }
                        if end < size {
                            true
                        } else {
                            match decode_text(buffer, end) {
                                Some(_) => false,
                                None => true,
                            }
                        }
                    },
                }
            },
            _ => true,
        }
    }
}

/// A file-receiving server.
#[derive(Debug)]
pub struct Server {
    pub protocol: Protocol,
    pub mechanism: Mechanism,
    pub message_length: u16,
    /// The address to listen on, such as "127.0.0.1:8080".
    pub addr: String,
}

impl Server {
    /// A server for `protocol` and `mechanism`, with messages of `size` bytes, listening on `addr`.
    pub fn new(protocol: Protocol, mechanism: Mechanism, size: u16, addr: String) -> (s: Server)
        ensures
            s.protocol == protocol,
            s.mechanism == mechanism,
            s.message_length == size,
            s.addr@ == addr@,
    {
        Server { protocol, mechanism, message_length: size, addr }
    }

    /// How serving starts: over UDP the receiving loop runs; over TCP serving
    /// does nothing yet and succeeds.
    pub fn start(&self) -> (r: StartStep)
        ensures
            r == (match self.protocol {
                Protocol::UDP => StartStep::ServeUdp,
                Protocol::TCP => StartStep::Finished(Ok(())),
            }),
    {
        match self.protocol {
            Protocol::TCP => StartStep::Finished(self.start_tcp()),
            Protocol::UDP => StartStep::ServeUdp,
        }
    }

    /// Serving over TCP does nothing yet and succeeds.
    pub fn start_tcp(&self) -> (r: Result<(), ServerError>)
        ensures
            r == Ok::<(), ServerError>(()),
    {
        Ok(())
    }

    /// Handles one UDP message of `size` bytes read into `buffer`: counts it,
    /// acknowledges it under the synchronous mechanism, and tells the caller
    /// what to do with it.
    pub fn handle_datagram(&self, session: &mut UdpSession, buffer: &[u8], size: usize) -> (r:
        StepOutcome)
        requires
            datagram_allowed(old(session).state, old(session).stats, buffer@, size as int),
        ensures
            r.send_ack == (self.mechanism == Mechanism::Sync),
            final(session).stats == old(session).stats.recorded(size as int),
            match r.action {
                Ok(a) => datagram_model(
                    old(session).state,
                    final(session).stats,
                    buffer@,
                    size as int,
                ) == Ok::<(ServerState, ActionModel), ServerError>((final(session).state, a@)),
                Err(e) => {
                    &&& datagram_model(
                        old(session).state,
                        final(session).stats,
                        buffer@,
                        size as int,
                    ) == Err::<(ServerState, ActionModel), ServerError>(e)
                    &&& final(session).state == old(session).state
                },
            },
    {
        if size == 0 {
            session.state = ServerState::Done;
        }
        let send_ack = match self.mechanism {
            Mechanism::Sync => true,
            Mechanism::Stream => false,
        };
        session.stats.record(size);
        let action = match session.state {
            ServerState::WaitForFile => match find_separator(buffer) {
                Some(end) => {
                    proof {
                        lemma_first_separator_unique(buffer@, end as int);
                        assert(buffer@[end as int] == SERVER_MSG_SEPARATOR);
                    }
                    match decode_text(buffer, end) {
                        Some(path) => {
                            session.state = ServerState::Transferring;
                            Ok(
                                ServerAction::BeginFile {
                                    path,
                                    payload_start: end + 1,
                                    payload_end: size,
                                },
                            )
                        },
                        None => Err(ServerError::InvalidFilePath),
                    }
                },
                None => {
                    assert(buffer@.take(buffer@.len() as int) =~= buffer@);
                    match decode_text(buffer, buffer.len()) {
                        Some(_) => Err(ServerError::MissingSeparator),
                        None => Err(ServerError::InvalidFilePath),
                    }
                },
            },
            ServerState::Transferring => Ok(ServerAction::Append { len: size }),
            ServerState::Done => Ok(
                ServerAction::Report { messages: session.stats.count, bytes: session.stats.bytes },
            ),
        };
        StepOutcome { send_ack, action }
    }
}

} // verus!

verus! {

/// The characters of ".recv".
pub open spec fn recv_suffix_chars() -> Seq<char> {
    seq!['.', 'r', 'e', 'c', 'v']
}

/// A one-byte character is encoded as its own value.
proof fn lemma_ascii_scalar_byte(v: u32)
    requires
        v <= 0x7f,
    ensures
        (v & 0x7f) as u8 == v,
{
    assert((v & 0x7f) as u8 == v) by (bit_vector)
        requires
            v <= 0x7f,
    ;
}

/// The UTF-8 encoding of a concatenation is the concatenation of the encodings.
proof fn lemma_encode_utf8_concat(a: Seq<char>, b: Seq<char>)
    ensures
        encode_utf8(a + b) == encode_utf8(a) + encode_utf8(b),
    decreases a.len(),
{
    if a.len() == 0 {
        assert(a + b =~= b);
    } else {
        assert((a + b).drop_first() =~= a.drop_first() + b);
        lemma_encode_utf8_concat(a.drop_first(), b);
        assert(encode_utf8(a + b) =~= encode_utf8(a) + encode_utf8(b));
    }
}

/// ".recv" is encoded as the bytes that clients append.
proof fn lemma_recv_suffix_encoding()
    ensures
        encode_utf8(recv_suffix_chars()) == recv_suffix(),
{
    let c = recv_suffix_chars();
    lemma_ascii_scalar_byte('.' as u32);
    lemma_ascii_scalar_byte('r' as u32);
    lemma_ascii_scalar_byte('e' as u32);
    lemma_ascii_scalar_byte('c' as u32);
    lemma_ascii_scalar_byte('v' as u32);
    reveal_with_fuel(encode_utf8, 6);
    assert(c.drop_first() =~= seq!['r', 'e', 'c', 'v']);
    assert(c.drop_first().drop_first() =~= seq!['e', 'c', 'v']);
    assert(c.drop_first().drop_first().drop_first() =~= seq!['c', 'v']);
    assert(c.drop_first().drop_first().drop_first().drop_first() =~= seq!['v']);
    assert(c.drop_first().drop_first().drop_first().drop_first().drop_first() =~= Seq::<char>::empty());
    assert(encode_utf8(c) =~= recv_suffix());
}

/// No byte in the UTF-8 encoding of a character other than the unit separator
/// is the separator byte.
proof fn lemma_scalar_avoids_separator(v: u32)
    requires
        is_scalar(v),
        v != 0x1f,
    ensures
        !encode_scalar(v).contains(SERVER_MSG_SEPARATOR),
{
    let e = encode_scalar(v);
    if has_width_1_encoding(v) {
        lemma_ascii_scalar_byte(v);
        assert(e[0] != SERVER_MSG_SEPARATOR);
    } else {
        assert((0xC0u8 | ((v >> 6u32) & 0x1Fu32) as u8) != 0x1fu8) by (bit_vector);
        assert((0xE0u8 | ((v >> 12u32) & 0x0Fu32) as u8) != 0x1fu8) by (bit_vector);
        assert((0xF0u8 | ((v >> 18u32) & 0x7u32) as u8) != 0x1fu8) by (bit_vector);
        assert((0x80u8 | (v & 0x3Fu32) as u8) != 0x1fu8) by (bit_vector);
        assert((0x80u8 | ((v >> 6u32) & 0x3Fu32) as u8) != 0x1fu8) by (bit_vector);
        assert((0x80u8 | ((v >> 12u32) & 0x3Fu32) as u8) != 0x1fu8) by (bit_vector);
    }
    assert forall|j: int| 0 <= j < e.len() implies e[j] != SERVER_MSG_SEPARATOR by {}
}

/// A text without the unit separator character encodes to bytes without the separator byte.
proof fn lemma_encoding_avoids_separator(path: Seq<char>)
    requires
        !path.contains('\u{1f}'),
    ensures
        !encode_utf8(path).contains(SERVER_MSG_SEPARATOR),
    decreases path.len(),
{
    if path.len() > 0 {
        let c = path[0];
        let rest = path.drop_first();
        vstd::utf8::char_is_scalar(c);
        assert(c != '\u{1f}') by {
            assert(path.contains(path[0]));
        }
        if c as u32 == 0x1f {
            vstd::utf8::char_u32_cast(c, 0x1f);
        }
        lemma_scalar_avoids_separator(c as u32);
        assert(!rest.contains('\u{1f}')) by {
            if rest.contains('\u{1f}') {
                let k = choose|k: int| 0 <= k < rest.len() && rest[k] == '\u{1f}';
                assert(path[k + 1] == '\u{1f}');
            }
        }
        lemma_encoding_avoids_separator(rest);
        let head = encode_scalar(c as u32);
        let tail = encode_utf8(rest);
        assert(encode_utf8(path) == head + tail);
        assert forall|j: int| 0 <= j < (head + tail).len() implies (head + tail)[j]
            != SERVER_MSG_SEPARATOR by {
            if j < head.len() {
                assert(head.contains(head[j]));
            } else {
                assert(tail.contains(tail[j - head.len()]));
            }
        }
    }
}

/// What a client announces is what the server opens: when a message holds a
/// client's first message (the UTF-8 file name, holding no unit separator,
/// ".recv" and the separator) followed by `payload`, a server waiting for the
/// file name creates the file named with ".recv" appended and writes exactly
/// `payload` into it.
pub proof fn file_header_round_trip(
    path: Seq<char>,
    payload: Seq<u8>,
    buf: Seq<u8>,
    size: int,
    counted: SessionStats,
)
    requires
        !path.contains('\u{1f}'),
        size == file_header(path).len() + payload.len(),
        size <= buf.len(),
        buf.take(size) == file_header(path) + payload,
    ensures
        header_fits(buf, size),
        datagram_model(ServerState::WaitForFile, counted, buf, size) == Ok::<
            (ServerState, ActionModel),
            ServerError,
        >(
            (
                ServerState::Transferring,
                ActionModel::BeginFile {
                    path: path + recv_suffix_chars(),
                    payload_start: file_header(path).len() as int,
                    payload_end: size,
                },
            ),
        ),
        buf.subrange(file_header(path).len() as int, size) == payload,
{
    lemma_encoding_avoids_separator(path);
    let e = encode_utf8(path);
    let n = e.len() as int;
    let hdr = file_header(path);
    assert(hdr.len() == n + 6);
    assert forall|j: int| 0 <= j < n + 6 implies buf[j] == hdr[j] by {
        assert(buf.take(size)[j] == buf[j]);
    }
    assert forall|j: int| 0 <= j < n implies buf[j] != SERVER_MSG_SEPARATOR by {
        assert(hdr[j] == e[j]);
        if e[j] == SERVER_MSG_SEPARATOR {
            assert(e.contains(SERVER_MSG_SEPARATOR));
        }
    }
    assert(is_first_separator(buf, n + 5));
    lemma_first_separator_unique(buf, n + 5);
    assert(header_fits(buf, size));
    assert(has_separator(buf)) by {
        assert(buf[n + 5] == SERVER_MSG_SEPARATOR);
    }
    let name = buf.take(n + 5);
    assert(name =~= e + recv_suffix());
    lemma_recv_suffix_encoding();
    lemma_encode_utf8_concat(path, recv_suffix_chars());
    let full = path + recv_suffix_chars();
    assert(name == encode_utf8(full));
    vstd::utf8::encode_utf8_valid_utf8(full);
    vstd::utf8::encode_utf8_decode_utf8(full);
    assert forall|j: int| 0 <= j < payload.len() implies buf.subrange(n + 6, size)[j] == payload[j] by {
        assert(buf.take(size)[n + 6 + j] == (hdr + payload)[n + 6 + j]);
    }
    assert(buf.subrange(n + 6, size) =~= payload);
}

/// A first message whose receive buffer holds no separator at all is answered
/// with an error, not refused: the server can handle it, and it stops the
/// session without naming a file to create.
pub proof fn unterminated_file_name_is_an_error(
    buf: Seq<u8>,
    size: int,
    stats: SessionStats,
    counted: SessionStats,
)
    requires
        !has_separator(buf),
        0 < size <= buf.len(),
        stats.can_record(size),
    ensures
        datagram_allowed(ServerState::WaitForFile, stats, buf, size),
        datagram_model(ServerState::WaitForFile, counted, buf, size) is Err,
{
}

/// Position of a state in the order in which a session passes through them.
pub open spec fn state_rank(s: ServerState) -> int {
    match s {
        ServerState::WaitForFile => 0,
        ServerState::Transferring => 1,
        ServerState::Done => 2,
    }
}

/// A session only moves forward: it never returns to an earlier state, an
/// empty message always ends the transfer, and once ended it stays ended.
pub proof fn session_moves_forward(
    state: ServerState,
    counted: SessionStats,
    buf: Seq<u8>,
    size: int,
)
    requires
        datagram_model(state, counted, buf, size) is Ok,
    ensures
        ({
            let next = datagram_model(state, counted, buf, size).unwrap().0;
            &&& state_rank(next) >= state_rank(state)
            &&& size == 0 ==> next == ServerState::Done
            &&& state == ServerState::Done ==> next == ServerState::Done
            &&& next != ServerState::WaitForFile
        }),
{
}

/// Totals after counting messages of the given sizes, one after another.
pub open spec fn counted_all(stats: SessionStats, sizes: Seq<int>) -> SessionStats
    decreases sizes.len(),
{
    if sizes.len() == 0 {
        stats
    } else {
        counted_all(stats, sizes.drop_last()).recorded(sizes.last())
    }
}

/// The sum of the given sizes.
pub open spec fn total_size(sizes: Seq<int>) -> int
    decreases sizes.len(),
{
    if sizes.len() == 0 {
        0
    } else {
        total_size(sizes.drop_last()) + sizes.last()
    }
}

/// Starting from a fresh session, the totals count every message once and
/// every byte it carried, as long as they fit their counters.
pub proof fn stats_count_every_message(sizes: Seq<int>)
    requires
        sizes.len() <= u8::MAX,
        forall|i: int| 0 <= i < sizes.len() ==> 0 <= #[trigger] sizes[i],
        total_size(sizes) <= u64::MAX,
    ensures
        counted_all(SessionStats { count: 0, bytes: 0 }, sizes).count == sizes.len(),
        counted_all(SessionStats { count: 0, bytes: 0 }, sizes).bytes == total_size(sizes),
    decreases sizes.len(),
{
    if sizes.len() > 0 {
        let rest = sizes.drop_last();
        assert forall|i: int| 0 <= i < rest.len() implies 0 <= #[trigger] rest[i] by {
            assert(rest[i] == sizes[i]);
        }
        assert(sizes.last() >= 0) by {
            assert(sizes[sizes.len() - 1] >= 0);
        }
        stats_count_every_message(rest);
    }
}

} // verus!

verus! {

/// Once the file is open, every non-empty message is appended to it in full
/// and the session stays open; only an empty message ends the transfer, and
/// from then on each message reports the totals including itself.
pub proof fn transfer_appends_until_empty(counted: SessionStats, buf: Seq<u8>, size: int)
    ensures
        size != 0 ==> datagram_model(ServerState::Transferring, counted, buf, size) == Ok::<
            (ServerState, ActionModel),
            ServerError,
        >((ServerState::Transferring, ActionModel::Append { len: size })),
        datagram_model(ServerState::Transferring, counted, buf, 0) == Ok::<
            (ServerState, ActionModel),
            ServerError,
        >(
            (
                ServerState::Done,
                ActionModel::Report { messages: counted.count as int, bytes: counted.bytes as int },
            ),
        ),
        datagram_model(ServerState::Done, counted, buf, size) == Ok::<
            (ServerState, ActionModel),
            ServerError,
        >(
            (
                ServerState::Done,
                ActionModel::Report { messages: counted.count as int, bytes: counted.bytes as int },
            ),
        ),
{
}

/// While the file is open and after the transfer has ended, a message can be
/// handled exactly when it fits the receive buffer and counting it overflows
/// neither the message counter nor the byte counter.
pub proof fn later_messages_are_always_handled(
    state: ServerState,
    stats: SessionStats,
    buf: Seq<u8>,
    size: int,
)
    requires
        state == ServerState::Transferring || state == ServerState::Done,
        0 <= size,
    ensures
        datagram_allowed(state, stats, buf, size) <==> (size <= buf.len() && stats.count < 255
            && stats.bytes + size <= 0xffff_ffff_ffff_ffff),
{
}

} // verus!
