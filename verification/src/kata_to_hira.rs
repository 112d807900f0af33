//! Katakana to hiragana, character by character.

use vstd::prelude::*;
use vstd::string::*;

verus! {

/// `String::push` of std: appends the character to the end of the string.
pub assume_specification[ String::push ](s: &mut String, c: char)
    ensures
        final(s)@ == old(s)@.push(c),
;

/// `char::from_u32` of std: the character with the given code, where the
/// code is a Unicode scalar value (not above 0x10FFFF and no surrogate), and
/// nothing otherwise.
pub assume_specification[ char::from_u32 ](i: u32) -> (c: Option<char>)
    ensures
        (i <= 0xD7FF || 0xE000 <= i <= 0x10FFFF) ==> c == Some(i as char),
        !(i <= 0xD7FF || 0xE000 <= i <= 0x10FFFF) ==> c is None,
;

/// Whether a character is one of the katakana that have a hiragana
/// counterpart: the code points 0x30A1 to 0x30F6.
pub open spec fn is_katakana_char(c: char) -> bool {
    0x30A1 <= c as u32 <= 0x30F6
}

/// The hiragana counterpart of a katakana, which stands 0x60 code points
/// below it; any other character itself.
pub open spec fn hira_of(c: char) -> char {
    if is_katakana_char(c) {
        (c as u32 - 0x60) as char
    } else {
        c
    }
}

/// Whether `c` is a katakana that has a hiragana counterpart.
pub fn is_katakana(c: char) -> (r: bool)
    ensures
        r == is_katakana_char(c),
{
    let cp = c as u32;
    0x30A1 <= cp && cp <= 0x30F6
}

/// The hiragana counterpart of `c` where it is such a katakana, and `c`
/// itself where it is not.
pub fn katakana_char_to_hira(c: char) -> (h: char)
    ensures
        h == hira_of(c),
{
    if is_katakana(c) {
        match char::from_u32(c as u32 - 0x60) {
            Some(h) => h,
            None => c,
        }
    } else {
        c
    }
}

/// Whether the string holds a katakana.
fn has_katakana(text: &str) -> (found: bool)
    ensures
        found == exists|i: int| 0 <= i < text@.len() && is_katakana_char(text@[i]),
{
    let mut found = false;
    for c in it: text.chars()
        invariant
            it.seq() == text@,
            found == exists|i: int| 0 <= i < it.index() && is_katakana_char(text@[i]),
    {
        if is_katakana(c) {
            found = true;
        }
    }
    found
}

/// Converts all katakana characters contained in the input string `kata`
/// into their hiragana counterparts. All other characters are kept as they
/// are.
pub fn kata_to_hira(kata: &str) -> (hira: String)
    ensures
        hira@.len() == kata@.len(),
        forall|i: int| 0 <= i < kata@.len() ==> hira@[i] == hira_of(kata@[i]),
{
    // Quick check if conversion is needed
    if !has_katakana(kata) {
        return kata.to_owned();
    }
    let mut result = String::new();
    for c in it: kata.chars()
        invariant
            it.seq() == kata@,
            result@.len() == it.index(),
            forall|i: int| 0 <= i < it.index() ==> result@[i] == hira_of(kata@[i]),
    {
        result.push(katakana_char_to_hira(c));
    }
    result
}

} // verus!
