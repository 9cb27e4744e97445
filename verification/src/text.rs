use vstd::prelude::*;

verus! {

/// Compares two string slices by content.
///
/// Trusted: calls `<str as PartialEq>::eq`, which compares the UTF-8 bytes;
/// since UTF-8 encodes each character sequence in exactly one way, that is
/// the same as comparing the character sequences.
#[verifier::external_body]
pub(crate) fn str_equal(a: &str, b: &str) -> (r: bool)
    ensures
        r == (a@ == b@),
{
    a == b
}

/// Builds an owned string from a string slice and another slice.
pub fn join2(a: &str, b: &str) -> (r: String)
    ensures
        r@ == a@ + b@,
{
    let mut s = String::from_str(a);
    s.append(b);
    s
}

/// The character of an ASCII byte.
pub open spec fn ascii_char(b: u8) -> char {
    (b as u32) as char
}

/// Builds a string from ASCII bytes, one character per byte.
///
/// Trusted: calls `String::from_utf8`; bytes below 128 are each a complete
/// UTF-8 character, so the conversion succeeds and yields one character per
/// byte with the same code point.
#[verifier::external_body]
pub(crate) fn string_from_ascii(bytes: Vec<u8>) -> (r: String)
    requires
        forall|i: int| 0 <= i < bytes@.len() ==> bytes@[i] < 128,
    ensures
        r@ == bytes@.map_values(|b: u8| ascii_char(b)),
{
    String::from_utf8(bytes).unwrap_or_default()
}

/// Whether a list of texts holds a text.
pub fn contains_text(list: &Vec<String>, s: &str) -> (r: bool)
    ensures
        r == list.deep_view().contains(s@),
{
    let mut i: usize = 0;
    while i < list.len()
        invariant
            i <= list@.len(),
            forall|j: int| 0 <= j < i ==> list.deep_view()[j] != s@,
        decreases list@.len() - i,
    {
        if str_equal(list[i].as_str(), s) {
            assert(list.deep_view()[i as int] == s@);
            return true;
        }
        i = i + 1;
    }
    false
}

} // verus!
