//! Small helpers on strings and bytes that several modules share.

use vstd::prelude::*;
use vstd::utf8::encode_utf8;

verus! {

/// `String::push` appends one character, as its documentation says.
pub assume_specification[ String::push ](text: &mut String, ch: char)
    ensures
        final(text)@ == old(text)@.push(ch),
;

/// The characters of a string.
pub fn chars_of(text: &str) -> (r: Vec<char>)
    ensures
        r@ == text@,
{
    let mut out: Vec<char> = Vec::new();
    for c in it: text.chars()
        invariant
            out@ == it.seq().take(it.index() as int),
            it.seq() == text@,
    {
        out.push(c);
    }
    out
}

/// Appends `bytes` to `body`.
pub fn put(body: &mut Vec<u8>, bytes: &[u8])
    ensures
        final(body)@ == old(body)@ + bytes@,
{
    body.extend_from_slice(bytes);
    assert(body@ =~= old(body)@ + bytes@);
}

/// Appends the UTF-8 encoding of `text` to `body`.
pub fn put_text(body: &mut Vec<u8>, text: &str)
    ensures
        final(body)@ == old(body)@ + encode_utf8(text@),
{
    put(body, text.as_bytes());
}

} // verus!
