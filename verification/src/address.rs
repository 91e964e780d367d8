//! The target address: from the caller's bytes to owned text.
//!
//! The bytes are meant to be UTF-8. Where they are, the address is the text
//! they encode. Where they are not, the address is still produced: every
//! malformed stretch is replaced by [`REPLACEMENT_CHARACTER`], so that a bad
//! buffer shows up as a bad address and never as a failure.

use vstd::prelude::*;
use vstd::utf8::*;

verus! {

/// U+FFFD, the character that stands in for bytes that are not UTF-8.
pub const REPLACEMENT_CHARACTER: char = '\u{FFFD}';

/// The text that lossy decoding makes of `bytes` when they are not valid
/// UTF-8. It depends on the bytes alone; [`decode_address`] says what is known
/// of it.
pub uninterp spec fn repaired_text(bytes: Seq<u8>) -> Seq<char>;

/// The address that a buffer holding `bytes` stands for.
pub open spec fn address_text(bytes: Seq<u8>) -> Seq<char> {
    if valid_utf8(bytes) {
        decode_utf8(bytes)
    } else {
        repaired_text(bytes)
    }
}

/// `String::from_utf8_lossy`, with the borrowed-or-owned result made owned.
///
/// Trusted, as std documents it: valid UTF-8 comes back as the text it
/// encodes; anything else comes back with each invalid sequence replaced by
/// U+FFFD, so the result holds at least one U+FFFD, and it is a function of
/// the bytes alone.
#[verifier::external_body]
fn from_utf8_lossy(bytes: &[u8]) -> (text: String)
    ensures
        valid_utf8(bytes@) ==> text@ == decode_utf8(bytes@),
        !valid_utf8(bytes@) ==> text@ == repaired_text(bytes@),
        !valid_utf8(bytes@) ==> text@.contains(REPLACEMENT_CHARACTER),
{
    String::from_utf8_lossy(bytes).into_owned()
}

/// Decodes the caller's buffer into the address to navigate to.
///
/// Never fails. Valid UTF-8 is decoded as it stands, so encoding the address
/// again gives the buffer back; any other buffer yields a text that contains
/// the replacement character.
pub fn decode_address(bytes: &[u8]) -> (address: String)
    ensures
        address@ == address_text(bytes@),
        valid_utf8(bytes@) ==> encode_utf8(address@) == bytes@,
        !valid_utf8(bytes@) ==> address@.contains(REPLACEMENT_CHARACTER),
{
    proof {
        if valid_utf8(bytes@) {
            decode_utf8_encode_utf8(bytes@);
        }
    }
    from_utf8_lossy(bytes)
}

/// Decoding undoes encoding: the bytes that encode a text decode to that text.
pub proof fn lemma_decode_of_encoded(text: Seq<char>)
    ensures
        address_text(encode_utf8(text)) == text,
{
    encode_utf8_valid_utf8(text);
    encode_utf8_decode_utf8(text);
}

/// Encoding undoes decoding on valid buffers: a valid UTF-8 buffer, decoded
/// and encoded again, is unchanged.
pub proof fn lemma_encode_of_decoded(bytes: Seq<u8>)
    requires
        valid_utf8(bytes),
    ensures
        encode_utf8(address_text(bytes)) == bytes,
{
    decode_utf8_encode_utf8(bytes);
}

} // verus!
