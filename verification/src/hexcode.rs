//! Lowercase hexadecimal text of a tag identifier.
//!
//! An identifier is first laid into a fixed-width buffer, front-aligned and
//! zero-padded, and the whole buffer is encoded; only the characters that
//! belong to the identifier's own bytes are kept.

use vstd::prelude::*;

use crate::tag::TagIdentifier;

verus! {

/// Width of the padded identifier buffer: the longest identifier.
pub const PADDED_LEN: usize = 10;

/// Width of the encoded buffer: two characters per padded byte.
pub const ENCODED_LEN: usize = 20;

/// The lowercase ASCII digit of a value below sixteen.
pub open spec fn hex_digit(nibble: u8) -> u8 {
    if nibble < 10 {
        (48 + nibble) as u8
    } else {
        (87 + nibble) as u8
    }
}

/// Character `j` of the encoding of `bytes`: the high digit of a byte at
/// even positions, its low digit at odd ones.
pub open spec fn hex_char(bytes: Seq<u8>, j: int) -> u8 {
    if j % 2 == 0 {
        hex_digit(bytes[j / 2] / 16)
    } else {
        hex_digit(bytes[j / 2] % 16)
    }
}

/// The lowercase hexadecimal encoding of `bytes`, two characters per byte.
pub open spec fn hex_string(bytes: Seq<u8>) -> Seq<u8> {
    Seq::new(2 * bytes.len(), |j: int| hex_char(bytes, j))
}

/// `bytes` at the front of a buffer of `width` bytes, zeros behind.
pub open spec fn padded(bytes: Seq<u8>, width: nat) -> Seq<u8> {
    Seq::new(
        width,
        |i: int|
            if i < bytes.len() {
                bytes[i]
            } else {
                0u8
            },
    )
}

/// Whether `c` is one of `0`-`9`, `a`-`f`.
pub open spec fn is_lower_hex(c: u8) -> bool {
    48 <= c <= 57 || 97 <= c <= 102
}

/// `hex::FromHexError`, the error of the `hex` crate. Nothing is read from
/// it here.
#[verifier::external_type_specification]
#[verifier::external_body]
pub struct ExFromHexError(hex::FromHexError);

/// `hex::encode_to_slice` on a buffer of `PADDED_LEN` bytes and an output of
/// twice that length. The outside function refuses only an output whose
/// length is not twice the input's, which these types rule out; otherwise it
/// writes, for each input byte in turn, the lowercase digit of its high half
/// and then that of its low half.
#[verifier::external_body]
fn encode_to_slice(input: &[u8; PADDED_LEN], output: &mut [u8; ENCODED_LEN]) -> (r: Result<
    (),
    hex::FromHexError,
>)
    ensures
        r is Ok,
        final(output)@ == hex_string(input@),
{
    hex::encode_to_slice(input, output)
}

/// Lays the identifier into the padded buffer.
pub fn pad_identifier(id: &TagIdentifier) -> (buffer: [u8; PADDED_LEN])
    ensures
        buffer@ == padded(id@, PADDED_LEN as nat),
{
    let bytes = id.as_bytes();
    let mut buffer: [u8; PADDED_LEN] = [0u8; PADDED_LEN];
    let mut i: usize = 0;
    while i < bytes.len()
        invariant
            i <= bytes@.len() <= PADDED_LEN,
            forall|k: int| 0 <= k < i ==> buffer@[k] == bytes@[k],
            forall|k: int| i <= k < PADDED_LEN ==> buffer@[k] == 0,
        decreases bytes@.len() - i,
    {
        buffer[i] = bytes[i];
        i += 1;
    }
    assert(buffer@ =~= padded(id@, PADDED_LEN as nat));
    buffer
}

/// The identifier as lowercase hexadecimal text: two characters per byte of
/// the identifier, none for the padding.
pub fn identifier_hex(id: &TagIdentifier) -> (text: Vec<u8>)
    ensures
        text@ == hex_string(id@),
{
    let buffer = pad_identifier(id);
    let mut encoded: [u8; ENCODED_LEN] = [0u8; ENCODED_LEN];
    // The two widths fit, so the encoder has nothing to refuse.
    let outcome = encode_to_slice(&buffer, &mut encoded);
    assert(outcome is Ok);
    let used: usize = id.len() * 2;
    proof {
        lemma_padding_ignored(id@, PADDED_LEN as nat);
    }
    let mut text: Vec<u8> = Vec::new();
    let mut j: usize = 0;
    while j < used
        invariant
            j <= used == 2 * id@.len(),
            used <= ENCODED_LEN,
            encoded@.take(used as int) == hex_string(id@),
            text@ == encoded@.take(j as int),
        decreases used - j,
    {
        text.push(encoded[j]);
        assert(encoded@.take(j + 1) =~= encoded@.take(j as int).push(encoded@[j as int]));
        j += 1;
    }
    text
}

/// Padding does not show in the text: whatever the width of the buffer, the
/// first two characters per byte of the encoded buffer are the encoding of
/// the bytes themselves.
pub proof fn lemma_padding_ignored(bytes: Seq<u8>, width: nat)
    requires
        bytes.len() <= width,
    ensures
        hex_string(padded(bytes, width)).take(2 * bytes.len() as int) == hex_string(bytes),
{
    let whole = hex_string(padded(bytes, width));
    assert forall|k: int| 0 <= k < 2 * bytes.len() implies whole[k] == hex_char(bytes, k) by {
        assert(0 <= k / 2 < bytes.len());
        assert(padded(bytes, width)[k / 2] == bytes[k / 2]);
    }
    assert(whole.take(2 * bytes.len() as int) =~= hex_string(bytes));
}

/// An encoding has two characters per byte, and each is a decimal digit or a
/// lowercase letter from `a` to `f`.
pub proof fn lemma_hex_is_lowercase(bytes: Seq<u8>)
    ensures
        hex_string(bytes).len() == 2 * bytes.len(),
        forall|j: int| 0 <= j < 2 * bytes.len() ==> is_lower_hex(#[trigger] hex_string(bytes)[j]),
{
    assert forall|j: int| 0 <= j < 2 * bytes.len() implies is_lower_hex(
        #[trigger] hex_string(bytes)[j],
    ) by {
        let b = bytes[j / 2];
        assert(0 <= j / 2 < bytes.len());
        assert(b / 16 < 16 && b % 16 < 16);
    }
}

} // verus!
