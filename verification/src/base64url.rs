//! URL-safe base64 without padding, the form in which a certificate signing
//! request travels.

use vstd::prelude::*;

verus! {

/// Whether a character belongs to the URL-safe base64 alphabet, which has
/// `-` and `_` beside the letters and digits and no padding character.
pub open spec fn is_base64_url_char(c: char) -> bool {
    ||| ('A' <= c && c <= 'Z')
    ||| ('a' <= c && c <= 'z')
    ||| ('0' <= c && c <= '9')
    ||| c == '-'
    ||| c == '_'
}

/// Whether a text is drawn from the URL-safe base64 alphabet alone.
pub open spec fn is_base64_url_text(text: Seq<char>) -> bool {
    forall|i: int| 0 <= i < text.len() ==> is_base64_url_char(#[trigger] text[i])
}

/// How many characters encode `n` bytes when nothing is padded: four for
/// every three bytes, and two or three for one or two bytes left over.
pub open spec fn base64_len(n: nat) -> nat {
    (n / 3) * 4 + if n % 3 == 0 {
        0nat
    } else {
        n % 3 + 1
    }
}

/// The URL-safe, unpadded base64 text of `bytes`.
pub uninterp spec fn base64_url(bytes: Seq<u8>) -> Seq<char>;

/// Calls `base64::encode_config` with `URL_SAFE_NO_PAD`. The text depends on
/// the bytes alone, has the length that `base64::encoded_size` computes for
/// an unpadded encoding, and is drawn from the URL-safe table. The call
/// panics where that length does not fit in `usize`.
#[verifier::external_body]
pub(crate) fn base64_encode_url_no_pad(bytes: &[u8]) -> (r: String)
    requires
        base64_len(bytes@.len()) <= usize::MAX,
    ensures
        r@ == base64_url(bytes@),
        r@.len() == base64_len(bytes@.len()),
        is_base64_url_text(r@),
{
    base64::encode_config(bytes, base64::URL_SAFE_NO_PAD)
}

} // verus!
