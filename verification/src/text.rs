//! Text helpers: header names compared, header bytes read as text, numbers
//! written in decimal.

use vstd::prelude::*;

verus! {

/// The lower-case form of an ASCII letter; every other character is itself.
pub open spec fn ascii_lower(c: char) -> char {
    if 'A' <= c && c <= 'Z' {
        ((c as u8) + 32) as char
    } else {
        c
    }
}

/// Whether two texts are equal once their ASCII letters are lower-cased.
pub open spec fn same_ignoring_ascii_case(a: Seq<char>, b: Seq<char>) -> bool {
    &&& a.len() == b.len()
    &&& forall|i: int| 0 <= i < a.len() ==> ascii_lower(#[trigger] a[i]) == ascii_lower(b[i])
}

/// Whether a byte is visible ASCII or a tab.
pub open spec fn is_visible_ascii(b: u8) -> bool {
    (32 <= b && b < 127) || b == 9
}

/// Whether every byte is visible ASCII or a tab.
pub open spec fn all_visible_ascii(bytes: Seq<u8>) -> bool {
    forall|i: int| 0 <= i < bytes.len() ==> is_visible_ascii(#[trigger] bytes[i])
}

/// The text whose characters are the given ASCII bytes.
pub open spec fn ascii_text(bytes: Seq<u8>) -> Seq<char> {
    Seq::new(bytes.len(), |i: int| bytes[i] as char)
}

/// `str::eq_ignore_ascii_case`: an ASCII case-insensitive match, the same as
/// comparing the two texts after lower-casing their ASCII letters.
#[verifier::external_body]
pub(crate) fn text_eq_ignore_ascii_case(a: &str, b: &str) -> (r: bool)
    ensures
        r == same_ignoring_ascii_case(a@, b@),
{
    a.eq_ignore_ascii_case(b)
}

/// `String::push`: appends one character to the end of the string.
#[verifier::external_body]
pub(crate) fn push_char(s: &mut String, c: char)
    ensures
        final(s)@ == old(s)@.push(c),
{
    s.push(c)
}

/// Reads header bytes as text. The bytes are text when each of them is
/// visible ASCII or a tab; the text then has one character for each byte.
pub fn visible_ascii_text(bytes: &[u8]) -> (r: Option<String>)
    ensures
        match r {
            Some(s) => all_visible_ascii(bytes@) && s@ == ascii_text(bytes@),
            None => !all_visible_ascii(bytes@),
        },
{
    let mut text = String::new();
    let mut i: usize = 0;
    while i < bytes.len()
        invariant
            i <= bytes@.len(),
            forall|k: int| 0 <= k < i ==> is_visible_ascii(#[trigger] bytes@[k]),
            text@ == ascii_text(bytes@.take(i as int)),
        decreases bytes@.len() - i,
    {
        let b: u8 = bytes[i];
        if !((32 <= b && b < 127) || b == 9) {
            return None;
        }
        push_char(&mut text, b as char);
        proof {
            assert(bytes@.take(i + 1) == bytes@.take(i as int).push(b));
            assert(ascii_text(bytes@.take(i as int).push(b)) == ascii_text(
                bytes@.take(i as int),
            ).push(b as char));
        }
        i = i + 1;
    }
    proof {
        assert(bytes@.take(i as int) == bytes@);
    }
    Some(text)
}

/// The character for one decimal digit.
pub open spec fn digit_char(d: nat) -> char
    recommends
        d < 10,
{
    (48 + d) as u8 as char
}

/// The decimal notation of a number, without leading zeros.
pub open spec fn decimal(n: nat) -> Seq<char>
    decreases n,
{
    if n < 10 {
        seq![digit_char(n)]
    } else {
        decimal(n / 10).push(digit_char(n % 10))
    }
}

/// Writes a number in decimal notation.
pub fn decimal_text(n: u16) -> (r: String)
    ensures
        r@ == decimal(n as nat),
    decreases n,
{
    if n < 10 {
        let mut text = String::new();
        push_char(&mut text, (48 + n) as u8 as char);
        assert(text@ == seq![digit_char(n as nat)]);
        text
    } else {
        let mut text = decimal_text(n / 10);
        push_char(&mut text, (48 + n % 10) as u8 as char);
        text
    }
}

} // verus!
