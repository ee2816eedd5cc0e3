use vstd::prelude::*;
use vstd::utf8::{decode_utf8, valid_utf8};

verus! {

/// Whether `s` spells exactly the characters of `word`.
pub fn same_text(s: &str, word: &str) -> (r: bool)
    ensures
        r == (s@ == word@),
{
    let n = s.unicode_len();
    if n != word.unicode_len() {
        return false;
    }
    let mut i: usize = 0;
    while i < n
        invariant
            n == s@.len(),
            n == word@.len(),
            i <= n,
            forall|j: int| 0 <= j < i ==> s@[j] == word@[j],
        decreases n - i,
    {
        if s.get_char(i) != word.get_char(i) {
            return false;
        }
        i = i + 1;
    }
    assert(s@ =~= word@);
    true
}

/// `std::str::from_utf8`: succeeds exactly on valid UTF-8 input, and the
/// resulting string slice holds the characters that those bytes encode.
#[verifier::external_body]
fn utf8_str(bytes: &[u8]) -> (r: Option<&str>)
    ensures
        r is Some <==> valid_utf8(bytes@),
        r matches Some(s) ==> s@ == decode_utf8(bytes@),
{
    std::str::from_utf8(bytes).ok()
}

/// Decodes the first `len` bytes of `buffer` as UTF-8 text.
pub fn decode_text(buffer: &[u8], len: usize) -> (r: Option<String>)
    requires
        len <= buffer@.len(),
    ensures
        r is Some <==> valid_utf8(buffer@.take(len as int)),
        r matches Some(s) ==> s@ == decode_utf8(buffer@.take(len as int)),
{
    let prefix = &buffer[0..len];
    match utf8_str(prefix) {
        Some(s) => Some(s.to_owned()),
        None => None,
    }
}

} // verus!
