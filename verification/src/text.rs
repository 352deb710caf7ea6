//! Characters and strings: ASCII case handling, the byte length of a
//! string, and the `String` operations that the game logic uses.
use vstd::prelude::*;

verus! {

/// `c` is an ASCII letter, upper or lower case.
pub open spec fn is_ascii_letter(c: char) -> bool {
    ('a' <= c && c <= 'z') || ('A' <= c && c <= 'Z')
}

/// `c` is an ASCII lower-case letter.
pub open spec fn is_lower_letter(c: char) -> bool {
    'a' <= c && c <= 'z'
}

/// ASCII lower-casing: `A`..=`Z` map to `a`..=`z`, every other char is kept.
pub open spec fn ascii_lower(c: char) -> char {
    if 'A' <= c && c <= 'Z' {
        ((c as u32) + 32) as char
    } else {
        c
    }
}

/// Every char of `s` is an ASCII lower-case letter.
pub open spec fn all_lower_letters(s: Seq<char>) -> bool {
    forall|i: int| 0 <= i < s.len() ==> is_lower_letter(#[trigger] s[i])
}

/// The number of bytes of the UTF-8 encoding of `s`: what `str::len` and
/// `String::len` return.
pub open spec fn byte_len(s: Seq<char>) -> nat {
    vstd::utf8::encode_utf8(s).len()
}

/// The ASCII lower case of `c`, as `char::to_ascii_lowercase` computes it.
pub fn to_ascii_lower(c: char) -> (r: char)
    ensures
        r == ascii_lower(c),
{
    if 'A' <= c && c <= 'Z' {
        let b: u8 = c as u8;
        (b + 32) as char
    } else {
        c
    }
}

/// Whether `c` is an ASCII letter, as `char::is_ascii_alphabetic` decides it.
pub fn is_letter(c: char) -> (r: bool)
    ensures
        r == is_ascii_letter(c),
{
    ('a' <= c && c <= 'z') || ('A' <= c && c <= 'Z')
}

/// Lower-casing turns every ASCII letter into a lower-case letter and keeps
/// every other char as it is; so it keeps whether a char is a letter.
pub proof fn lemma_ascii_lower(c: char)
    ensures
        is_ascii_letter(ascii_lower(c)) == is_ascii_letter(c),
        is_ascii_letter(c) ==> is_lower_letter(ascii_lower(c)),
        !is_ascii_letter(c) ==> ascii_lower(c) == c,
        is_lower_letter(c) ==> ascii_lower(c) == c,
{
}

/// A string of ASCII lower-case letters takes one byte per char.
pub proof fn lemma_lower_letters_byte_len(s: Seq<char>)
    requires
        all_lower_letters(s),
    ensures
        byte_len(s) == s.len(),
{
    assert(vstd::utf8::is_ascii_chars(s));
    vstd::utf8::is_ascii_chars_encode_utf8(s);
}

/// `String::push` appends the char to the end of the string.
pub assume_specification[ String::push ](string: &mut String, ch: char)
    ensures
        final(string)@ == old(string)@.push(ch),
;

/// `String::pop` removes the last char and returns it, or returns `None`
/// and leaves the string as it is when the string is empty.
pub assume_specification[ String::pop ](string: &mut String) -> (last: Option<char>)
    ensures
        old(string)@.len() == 0 ==> last is None && final(string)@ == old(string)@,
        old(string)@.len() > 0 ==> last == Some(old(string)@.last()) && final(string)@
            == old(string)@.drop_last(),
;

/// `String::len` is the length of the string in bytes.
pub assume_specification[ String::len ](string: &String) -> (n: usize)
    ensures
        n == byte_len(string@),
;

/// `String::clear` leaves the string empty.
pub assume_specification[ String::clear ](string: &mut String)
    ensures
        final(string)@ == Seq::<char>::empty(),
;

} // verus!
