use vstd::prelude::*;
use crate::text::same_text;

verus! {

/// A read or receive of `size` bytes marks the end of a transfer exactly when it is empty.
pub fn is_end_of_transfer(size: usize) -> (r: bool)
    ensures
        r == (size == 0),
{
    size == 0
}

/// Messages and bytes moved so far by a sending or receiving loop.
#[derive(Copy, Clone, PartialEq, Eq, Debug, Structural)]
pub struct TransferTally {
    pub messages: i32,
    pub bytes: usize,
}

impl TransferTally {
    /// Nothing moved yet.
    pub fn new() -> (t: TransferTally)
        ensures
            t.messages == 0,
            t.bytes == 0,
    {
        TransferTally { messages: 0, bytes: 0 }
    }

    /// A chunk of `n` bytes can be counted without overflow.
    pub open spec fn can_count(self, n: int) -> bool {
        n == 0 || (self.messages < i32::MAX && self.bytes + n <= usize::MAX)
    }

    /// Whether a chunk of `n` bytes can be counted without overflow.
    pub fn fits(&self, n: usize) -> (r: bool)
        ensures
            r == self.can_count(n as int),
    {
        n == 0 || (self.messages < i32::MAX && self.bytes <= usize::MAX - n)
    }

    /// Counts a chunk of `n` bytes; an empty chunk ends the loop and is not
    /// counted. Returns whether the loop goes on.
    pub fn count_chunk(&mut self, n: usize) -> (more: bool)
        requires
            old(self).can_count(n as int),
        ensures
            more == (n != 0),
            more ==> final(self).messages == old(self).messages + 1 && final(self).bytes
                == old(self).bytes + n,
            !more ==> *final(self) == *old(self),
    {
        if is_end_of_transfer(n) {
            return false;
        }
        self.messages = self.messages + 1;
        self.bytes = self.bytes + n;
        true
    }
}

/// What a synchronous client does after reading from its file.
#[derive(Copy, Clone, PartialEq, Eq, Debug, Structural)]
pub enum ClientStep {
    /// The file is exhausted: the transfer is over.
    Finish,
    /// Send the first `len` bytes read, then wait for an acknowledgement byte
    /// and for a go-ahead byte before reading on.
    SendAndAwait { len: usize },
}

/// A client that sends a file in chunks and waits for the server after each one.
#[derive(Debug)]
pub struct FileTransferClient {
    pub file_path: String,
    pub chunk_size: usize,
    pub use_udp: bool,
}

impl FileTransferClient {
    /// A client for the file at `file_path`, sending chunks of `chunk_size`
    /// bytes over UDP when `use_udp` holds, else over TCP.
    pub fn new(file_path: String, chunk_size: usize, use_udp: bool) -> (c: FileTransferClient)
        ensures
            c.file_path@ == file_path@,
            c.chunk_size == chunk_size,
            c.use_udp == use_udp,
    {
        FileTransferClient { file_path, chunk_size, use_udp }
    }

    /// Decides what to do after reading `bytes_read` bytes of the file into
    /// the chunk buffer.
    pub fn next_step(&self, bytes_read: usize) -> (r: ClientStep)
        requires
            bytes_read <= self.chunk_size,
        ensures
            r == (if bytes_read == 0 {
                ClientStep::Finish
            } else {
                ClientStep::SendAndAwait { len: bytes_read }
            }),
    {
        if is_end_of_transfer(bytes_read) {
            ClientStep::Finish
        } else {
            ClientStep::SendAndAwait { len: bytes_read }
        }
    }
}

/// Size of the buffer through which the asynchronous benchmark reads and sends its data.
pub const TRANSFER_BUFFER_SIZE: usize = 1024;

/// Size of the chunks in which the UDP throughput test sends its data.
pub const UDP_TEST_CHUNK_SIZE: usize = 1024;

/// Network conditions that the throughput benchmark simulates.
#[derive(Copy, Clone, PartialEq, Eq, Debug, Structural)]
pub enum Condition {
    LocalNetwork,
    HighLatencyNetwork,
    LowBandwidthNetwork,
}

impl Condition {
    /// The name under which the condition is listed and reported.
    pub open spec fn label(self) -> Seq<char> {
        match self {
            Condition::LocalNetwork => seq!['L', 'o', 'c', 'a', 'l', ' ', 'n', 'e', 't', 'w', 'o', 'r', 'k'],
            Condition::HighLatencyNetwork => seq![
                'H', 'i', 'g', 'h', ' ', 'l', 'a', 't', 'e', 'n', 'c', 'y', ' ', 'n', 'e', 't', 'w', 'o', 'r', 'k'
            ],
            Condition::LowBandwidthNetwork => seq![
                'L', 'o', 'w', ' ', 'b', 'a', 'n', 'd', 'w', 'i', 'd', 't', 'h', ' ', 'n', 'e', 't', 'w', 'o', 'r', 'k'
            ],
        }
    }

    /// The name of the condition.
    pub fn as_str(&self) -> (r: &'static str)
        ensures
            r@ == self.label(),
    {
        match self {
            Condition::LocalNetwork => {
                proof {
                    reveal_strlit("Local network");
                }
                assert("Local network"@ =~= Condition::LocalNetwork.label());
                "Local network"
            },
            Condition::HighLatencyNetwork => {
                proof {
                    reveal_strlit("High latency network");
                }
                assert("High latency network"@ =~= Condition::HighLatencyNetwork.label());
                "High latency network"
            },
            Condition::LowBandwidthNetwork => {
                proof {
                    reveal_strlit("Low bandwidth network");
                }
                assert("Low bandwidth network"@ =~= Condition::LowBandwidthNetwork.label());
                "Low bandwidth network"
            },
        }
    }

    /// The condition named `name`, if any.
    pub fn from_name(name: &str) -> (r: Option<Condition>)
        ensures
            r matches Some(c) ==> c.label() == name@,
            r is None ==> forall|c: Condition| c.label() != name@,
    {
        if same_text(name, Condition::LocalNetwork.as_str()) {
            Some(Condition::LocalNetwork)
        } else if same_text(name, Condition::HighLatencyNetwork.as_str()) {
            Some(Condition::HighLatencyNetwork)
        } else if same_text(name, Condition::LowBandwidthNetwork.as_str()) {
            Some(Condition::LowBandwidthNetwork)
        } else {
            proof {
                assert forall|c: Condition| c.label() != name@ by {
                    match c {
                        Condition::LocalNetwork => {},
                        Condition::HighLatencyNetwork => {},
                        Condition::LowBandwidthNetwork => {},
                    }
                }
            }
            None
        }
    }
}

/// The data sizes, in bytes, that the throughput benchmark transfers, in order.
pub open spec fn benchmark_size_list() -> Seq<usize> {
    seq![524288000usize, 1073741824usize, 1500000usize, 4096000usize, 10000usize, 1073741824usize]
}

/// The data sizes that the throughput benchmark transfers, in order.
pub fn benchmark_sizes() -> (r: Vec<usize>)
    ensures
        r@ == benchmark_size_list(),
{
    let v = vec![
        500 * 1024 * 1024,
        1024 * 1024 * 1024,
        1500000,
        4000 * 1024,
        10000,
        1024 * 1024 * 1024,
    ];
    assert(v@ =~= benchmark_size_list());
    v
}

/// The network conditions that the throughput benchmark simulates, in order.
pub fn benchmark_conditions() -> (r: Vec<Condition>)
    ensures
        r@ == seq![
            Condition::LocalNetwork,
            Condition::HighLatencyNetwork,
            Condition::LowBandwidthNetwork,
        ],
{
    let v = vec![
        Condition::LocalNetwork,
        Condition::HighLatencyNetwork,
        Condition::LowBandwidthNetwork,
    ];
    assert(v@ =~= seq![
        Condition::LocalNetwork,
        Condition::HighLatencyNetwork,
        Condition::LowBandwidthNetwork,
    ]);
    v
}

} // verus!

verus! {

/// A chunk can be counted exactly when it is empty or when neither counter
/// overflows; in particular a fresh tally can count a chunk of any size.
pub proof fn tally_counts_any_chunk_that_fits(t: TransferTally, n: int)
    requires
        0 <= n,
    ensures
        t.can_count(n) <==> (n == 0 || (t.messages < 0x7fff_ffff && t.bytes + n
            <= usize::MAX)),
        n <= usize::MAX ==> (TransferTally { messages: 0, bytes: 0 }).can_count(n),
{
}

} // verus!
