//! Hex text, as the library reads message hashes and writes keys and signatures.
use vstd::prelude::*;
use crate::bindings::hex_decode_text;
use crate::error::FrostError;

verus! {

/// The value of one hex digit, either case; `None` for any other character.
pub open spec fn hex_digit_value(c: char) -> Option<u8> {
    let n = c as u32;
    if 48 <= n <= 57 {
        Some((n - 48) as u8)
    } else if 97 <= n <= 102 {
        Some((n - 87) as u8)
    } else if 65 <= n <= 70 {
        Some((n - 55) as u8)
    } else {
        None
    }
}

/// The lowercase hex digit for a value below sixteen.
pub open spec fn lower_hex_digit(v: u8) -> char {
    if v < 10 {
        (48 + v) as char
    } else {
        (87 + v) as char
    }
}

/// Each byte as two lowercase hex digits, high half first.
pub open spec fn hex_encode(bytes: Seq<u8>) -> Seq<char> {
    Seq::new(
        2 * bytes.len(),
        |i: int|
            if i % 2 == 0 {
                lower_hex_digit(bytes[i / 2] / 16)
            } else {
                lower_hex_digit(bytes[i / 2] % 16)
            },
    )
}

/// An even number of characters, each a hex digit of either case.
pub open spec fn is_hex_text(s: Seq<char>) -> bool {
    &&& s.len() % 2 == 0
    &&& forall|i: int| 0 <= i < s.len() ==> (#[trigger] hex_digit_value(s[i])) is Some
}

/// The byte that the two digits at `2 * k` and `2 * k + 1` stand for.
pub open spec fn hex_pair_value(s: Seq<char>, k: int) -> u8 {
    (hex_digit_value(s[2 * k])->Some_0 * 16 + hex_digit_value(s[2 * k + 1])->Some_0) as u8
}

/// The bytes that hex text stands for; `None` where the text is not hex.
pub open spec fn hex_decode(s: Seq<char>) -> Option<Seq<u8>> {
    if is_hex_text(s) {
        Some(Seq::new(s.len() / 2, |k: int| hex_pair_value(s, k)))
    } else {
        None
    }
}

/// Text that is the hex encoding of some `n` bytes.
pub open spec fn is_hex_of_len(s: Seq<char>, n: nat) -> bool {
    exists|b: Seq<u8>| b.len() == n && s == #[trigger] hex_encode(b)
}

/// The length in bytes of a message hash.
pub const MESSAGE_HASH_LEN: usize = 32;

/// Hex text of exactly one message hash.
pub open spec fn is_message_hash_hex(s: Seq<char>) -> bool {
    &&& hex_decode(s) is Some
    &&& hex_decode(s)->Some_0.len() == MESSAGE_HASH_LEN
}

proof fn lemma_digit_round_trip(v: u8)
    requires
        v < 16,
    ensures
        hex_digit_value(lower_hex_digit(v)) == Some(v),
        (lower_hex_digit(v) as u32) < 128,
{
}

/// Decoding what encoding wrote gives the bytes back: every hex string the
/// library writes can be read back to the bytes it was made from.
pub proof fn lemma_hex_round_trip(bytes: Seq<u8>)
    ensures
        is_hex_text(hex_encode(bytes)),
        hex_decode(hex_encode(bytes)) == Some(bytes),
        hex_encode(bytes).len() == 2 * bytes.len(),
{
    let s = hex_encode(bytes);
    assert forall|i: int| 0 <= i < s.len() implies (#[trigger] hex_digit_value(s[i])) is Some by {
        let b = bytes[i / 2];
        assert(b / 16 < 16 && b % 16 < 16) by (nonlinear_arith);
        lemma_digit_round_trip(b / 16);
        lemma_digit_round_trip(b % 16);
    }
    assert(s.len() / 2 == bytes.len());
    let d = Seq::new(s.len() / 2, |k: int| hex_pair_value(s, k));
    assert forall|k: int| 0 <= k < bytes.len() implies d[k] == bytes[k] by {
        let b = bytes[k];
        assert((2 * k) / 2 == k && (2 * k + 1) / 2 == k && (2 * k) % 2 == 0 && (2 * k + 1) % 2 == 1);
        assert(b / 16 < 16 && b % 16 < 16 && (b / 16) * 16 + b % 16 == b) by (nonlinear_arith);
        lemma_digit_round_trip(b / 16);
        lemma_digit_round_trip(b % 16);
    }
    assert(d =~= bytes);
}

/// Encoding writes only lowercase hex digits.
pub proof fn lemma_hex_encode_lowercase(bytes: Seq<u8>, i: int)
    requires
        0 <= i < hex_encode(bytes).len(),
    ensures
        ({
            let n = hex_encode(bytes)[i] as u32;
            (48 <= n <= 57) || (97 <= n <= 102)
        }),
{
    let b = bytes[i / 2];
    assert(b / 16 < 16 && b % 16 < 16) by (nonlinear_arith);
}

/// Text that is the hex encoding of `n` bytes decodes to `n` bytes.
pub proof fn lemma_hex_of_len_decodes(s: Seq<char>, n: nat)
    requires
        is_hex_of_len(s, n),
    ensures
        hex_decode(s) is Some,
        hex_decode(s)->Some_0.len() == n,
        s.len() == 2 * n,
{
    let b = choose|b: Seq<u8>| b.len() == n && s == #[trigger] hex_encode(b);
    lemma_hex_round_trip(b);
}

/// Reads a message hash given as hex: exactly 32 bytes, digits of either case.
/// Anything else gives `InvalidParameter`.
pub fn decode_message_hash(message_hash_hex: &str) -> (r: Result<Vec<u8>, FrostError>)
    ensures
        (r is Ok) == is_message_hash_hex(message_hash_hex@),
        r matches Ok(b) ==> hex_decode(message_hash_hex@) == Some(b@) && b@.len()
            == MESSAGE_HASH_LEN,
        r matches Err(e) ==> e == FrostError::InvalidParameter,
{
    let bytes = match hex_decode_text(message_hash_hex) {
        Ok(bytes) => bytes,
        Err(_) => return Err(FrostError::InvalidParameter),
    };
    if bytes.len() != MESSAGE_HASH_LEN {
        return Err(FrostError::InvalidParameter);
    }
    Ok(bytes)
}

} // verus!
