use vstd::prelude::*;
use vstd::slice::slice_to_vec;
use vstd::utf8::encode_utf8;

verus! {

/// The byte that ends the file name in the first message of a transfer
/// (ASCII Unit Separator).
pub const SERVER_MSG_SEPARATOR: u8 = 0x1f;

/// The bytes of ".recv", the suffix a client appends to the file name it announces.
pub open spec fn recv_suffix() -> Seq<u8> {
    seq![0x2eu8, 0x72u8, 0x65u8, 0x63u8, 0x76u8]
}

/// The bytes of "ACK", the reply a synchronous server sends for each message.
pub open spec fn ack_bytes() -> Seq<u8> {
    seq![0x41u8, 0x43u8, 0x4bu8]
}

/// The first message of a transfer: the UTF-8 file name, ".recv", and the separator.
pub open spec fn file_header(path: Seq<char>) -> Seq<u8> {
    encode_utf8(path) + recv_suffix() + seq![SERVER_MSG_SEPARATOR]
}

/// `i` is the position of the first separator byte in `buf`.
pub open spec fn is_first_separator(buf: Seq<u8>, i: int) -> bool {
    &&& 0 <= i < buf.len()
    &&& buf[i] == SERVER_MSG_SEPARATOR
    &&& forall|j: int| 0 <= j < i ==> buf[j] != SERVER_MSG_SEPARATOR
}

/// `buf` holds a separator byte somewhere.
pub open spec fn has_separator(buf: Seq<u8>) -> bool {
    exists|i: int| 0 <= i < buf.len() && buf[i] == SERVER_MSG_SEPARATOR
}

/// The position of the first separator byte in `buf` (meaningful when there is one).
pub open spec fn separator_index(buf: Seq<u8>) -> int {
    choose|i: int| is_first_separator(buf, i)
}

/// The first separator of `buf` lies among its first `size` bytes, so that the
/// file name and the separator fit in a message of `size` bytes.
pub open spec fn header_fits(buf: Seq<u8>, size: int) -> bool {
    exists|i: int| is_first_separator(buf, i) && i < size
}

/// There is at most one first separator, and `separator_index` names it.
pub proof fn lemma_first_separator_unique(buf: Seq<u8>, i: int)
    requires
        is_first_separator(buf, i),
    ensures
        separator_index(buf) == i,
        forall|k: int| is_first_separator(buf, k) ==> k == i,
{
    assert forall|k: int| is_first_separator(buf, k) implies k == i by {
        if k < i {
            assert(buf[k] != SERVER_MSG_SEPARATOR);
        } else if i < k {
            assert(buf[i] != SERVER_MSG_SEPARATOR);
        }
    }
    let c = separator_index(buf);
    assert(is_first_separator(buf, c));
}

/// Finds the first separator byte of `buf`.
pub fn find_separator(buf: &[u8]) -> (r: Option<usize>)
    ensures
        r matches Some(i) ==> is_first_separator(buf@, i as int),
        r is None <==> !has_separator(buf@),
{
    let n = buf.len();
    let mut i: usize = 0;
    while i < n
        invariant
            n == buf@.len(),
            i <= n,
            forall|j: int| 0 <= j < i ==> buf@[j] != SERVER_MSG_SEPARATOR,
        decreases n - i,
    {
        if buf[i] == SERVER_MSG_SEPARATOR {
            return Some(i);
        }
        i = i + 1;
    }
    None
}

/// Whether the first `size` bytes of `buf` hold a separator, which is what a
/// server needs of the first message of a transfer.
pub fn header_fits_in(buf: &[u8], size: usize) -> (r: bool)
    ensures
        r == header_fits(buf@, size as int),
{
    match find_separator(buf) {
        Some(i) => {
            proof {
                lemma_first_separator_unique(buf@, i as int);
            }
            i < size
        },
        None => {
            proof {
                if header_fits(buf@, size as int) {
                    let k = choose|k: int| is_first_separator(buf@, k) && k < size;
                    assert(buf@[k] == SERVER_MSG_SEPARATOR);
                }
            }
            false
        },
    }
}

/// Builds the first message a client sends: the file name, ".recv", and the separator.
pub fn build_file_header(path: &str) -> (r: Vec<u8>)
    ensures
        r@ == file_header(path@),
{
    let mut message = slice_to_vec(path.as_bytes());
    message.push(0x2eu8);
    message.push(0x72u8);
    message.push(0x65u8);
    message.push(0x63u8);
    message.push(0x76u8);
    message.push(SERVER_MSG_SEPARATOR);
    assert(message@ =~= file_header(path@));
    message
}

/// The reply a synchronous server sends for each message: "ACK".
pub fn ack_payload() -> (r: Vec<u8>)
    ensures
        r@ == ack_bytes(),
{
    let v = vec![0x41u8, 0x43u8, 0x4bu8];
    assert(v@ =~= ack_bytes());
    v
}

/// Number of chunks of `chunk_size` bytes needed to send `file_size` bytes
/// (the last chunk may be partial).
pub fn chunk_count(file_size: u64, chunk_size: u64) -> (r: u64)
    requires
        chunk_size > 0,
        file_size + chunk_size <= u64::MAX,
    ensures
        r == (file_size + chunk_size - 1) / (chunk_size as int),
        r * chunk_size >= file_size,
        r * chunk_size < file_size + chunk_size,
{
    let r = (file_size + chunk_size - 1) / chunk_size;
    proof {
        let n = file_size + chunk_size - 1;
        assert(r * chunk_size <= n < r * chunk_size + chunk_size) by (nonlinear_arith)
            requires
                r == n / (chunk_size as int),
                chunk_size > 0,
                n >= 0,
        ;
    }
    r
}

/// How many whole chunks of `chunk_size` bytes fit in `size` bytes, and how
/// many bytes those chunks carry.
pub fn whole_chunks(size: usize, chunk_size: usize) -> (r: (usize, usize))
    requires
        chunk_size > 0,
    ensures
        r.0 == size / chunk_size,
        r.1 == r.0 * chunk_size,
        r.1 <= size < r.1 + chunk_size,
{
    let count = size / chunk_size;
    proof {
        assert(count * chunk_size <= size < count * chunk_size + chunk_size) by (nonlinear_arith)
            requires
                count == size / chunk_size,
                chunk_size > 0,
        ;
    }
    (count, count * chunk_size)
}

} // verus!
