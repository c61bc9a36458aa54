//! HMAC-SHA1 and base64, both computed by outside crates.

use base64::Engine;
use vstd::prelude::*;

verus! {

/// The HMAC-SHA1 tag (RFC 2104) of a message under a key.
pub uninterp spec fn hmac_sha1(key: Seq<u8>, message: Seq<u8>) -> Seq<u8>;

/// The character that stands for a value below 64 in the standard
/// alphabet: `A` to `Z`, `a` to `z`, `0` to `9`, `+` and `/`.
pub open spec fn base64_char(n: int) -> char {
    if n < 26 {
        (0x41 + n) as char
    } else if n < 52 {
        (0x61 + n - 26) as char
    } else if n < 62 {
        (0x30 + n - 52) as char
    } else if n == 62 {
        '+'
    } else {
        '/'
    }
}

/// The base64 text of a byte string (RFC 4648, standard alphabet, padded):
/// three bytes give four characters of six bits each, and one or two
/// bytes at the end give two or three characters, filled up with `=`.
pub open spec fn base64(bytes: Seq<u8>) -> Seq<char>
    decreases bytes.len(),
{
    if bytes.len() == 0 {
        Seq::empty()
    } else if bytes.len() == 1 {
        seq![base64_char(bytes[0] as int / 4), base64_char(bytes[0] as int % 4 * 16), '=', '=']
    } else if bytes.len() == 2 {
        seq![
            base64_char(bytes[0] as int / 4),
            base64_char(bytes[0] as int % 4 * 16 + bytes[1] as int / 16),
            base64_char(bytes[1] as int % 16 * 4),
            '=',
        ]
    } else {
        seq![
            base64_char(bytes[0] as int / 4),
            base64_char(bytes[0] as int % 4 * 16 + bytes[1] as int / 16),
            base64_char(bytes[1] as int % 16 * 4 + bytes[2] as int / 64),
            base64_char(bytes[2] as int % 64),
        ] + base64(bytes.skip(3))
    }
}

/// SHA-1 counts its input in bits, in 64 bits: it digests fewer than
/// 2^61 bytes. HMAC feeds it one block of 64 bytes before the message, and
/// a key longer than a block is digested first.
pub open spec fn hmac_accepts(key: Seq<u8>, message: Seq<u8>) -> bool {
    &&& key.len() < 0x2000_0000_0000_0000
    &&& message.len() + 64 < 0x2000_0000_0000_0000
}

/// `ring::hmac::sign` under a key made by `ring::hmac::Key::new` for
/// `HMAC_SHA1_FOR_LEGACY_USE_ONLY`. Both panic on input too long for SHA-1,
/// which the precondition leaves out. The tag depends on key and message
/// alone, and a SHA-1 tag has 20 bytes.
#[verifier::external_body]
pub(crate) fn hmac_sha1_tag(key: &[u8], message: &[u8]) -> (res: Vec<u8>)
    requires
        hmac_accepts(key@, message@),
    ensures
        res@ == hmac_sha1(key@, message@),
        res@.len() == 20,
{
    let key = ring::hmac::Key::new(ring::hmac::HMAC_SHA1_FOR_LEGACY_USE_ONLY, key);
    ring::hmac::sign(&key, message).as_ref().to_vec()
}

/// `encode` of `base64::engine::general_purpose::STANDARD`, the engine of
/// the standard alphabet with padding. It panics where the length of the
/// text does not fit in `usize`, which the precondition leaves out.
#[verifier::external_body]
pub(crate) fn base64_text(bytes: &[u8]) -> (res: String)
    requires
        bytes@.len() / 3 * 4 + 4 <= usize::MAX,
    ensures
        res@ == base64(bytes@),
{
    base64::engine::general_purpose::STANDARD.encode(bytes)
}

} // verus!
