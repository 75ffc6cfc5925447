use sha2::Digest;
use vstd::prelude::*;
use vstd::utf8::encode_utf8;

verus! {

/// The SHA-256 digest of a byte string, as the `sha2` crate computes it.
pub uninterp spec fn sha256(data: Seq<u8>) -> Seq<u8>;

/// Calls `sha2::Sha256::digest` (the one-shot form of `Digest` for `Sha256`).
/// Trusted: the bytes returned are the SHA-256 digest of `data`, which is a
/// function of `data` alone, and there are 32 of them (the output size of
/// `Sha256` is `U32`).
#[verifier::external_body]
fn sha256_digest(data: &[u8]) -> (out: Vec<u8>)
    ensures
        out@ == sha256(data@),
        out@.len() == 32,
{
    sha2::Sha256::digest(data).to_vec()
}

/// The lower-case hexadecimal digit of a value below 16.
pub open spec fn hex_char(nibble: int) -> char
    recommends
        0 <= nibble < 16,
{
    "0123456789abcdef"@[nibble]
}

/// Lower-case hexadecimal text of a byte string: two digits per byte, the
/// high half first.
pub open spec fn hex(bytes: Seq<u8>) -> Seq<char> {
    Seq::new(
        2 * bytes.len(),
        |i: int|
            if i % 2 == 0 {
                hex_char(bytes[i / 2] as int / 16)
            } else {
                hex_char(bytes[i / 2] as int % 16)
            },
    )
}

/// The digest text of a byte string: its SHA-256 digest in hexadecimal.
pub open spec fn hash_hex(data: Seq<u8>) -> Seq<char> {
    hex(sha256(data))
}

fn push_hex_pair(text: &mut String, byte: u8)
    ensures
        final(text)@ == old(text)@ + seq![hex_char(byte as int / 16), hex_char(byte as int % 16)],
{
    let alphabet = "0123456789abcdef";
    proof {
        reveal_strlit("0123456789abcdef");
    }
    let high: usize = (byte / 16) as usize;
    let low: usize = (byte % 16) as usize;
    let first = alphabet.substring_ascii(high, high + 1);
    let second = alphabet.substring_ascii(low, low + 1);
    text.append(first);
    text.append(second);
    assert(first@ =~= seq![hex_char(byte as int / 16)]);
    assert(second@ =~= seq![hex_char(byte as int % 16)]);
    assert(text@ =~= old(text)@ + seq![
        hex_char(byte as int / 16),
        hex_char(byte as int % 16),
    ]);
}

/// Writes a byte string as lower-case hexadecimal text.
pub fn to_hex(bytes: &[u8]) -> (text: String)
    ensures
        text@ == hex(bytes@),
{
    let mut text = String::new();
    let mut i: usize = 0;
    assert(text@ =~= hex(bytes@.take(0)));
    while i < bytes.len()
        invariant
            i <= bytes.len(),
            text@ == hex(bytes@.take(i as int)),
        decreases bytes.len() - i,
    {
        push_hex_pair(&mut text, bytes[i]);
        assert(text@ =~= hex(bytes@.take(i + 1)));
        i += 1;
    }
    assert(bytes@.take(i as int) =~= bytes@);
    text
}

/// Digest text of a byte string.
pub fn hash_from_u8(data: Vec<u8>) -> (text: String)
    ensures
        text@ == hash_hex(data@),
        text@.len() == 64,
{
    let raw = sha256_digest(data.as_slice());
    to_hex(raw.as_slice())
}

/// Digest text of a string, taken over its UTF-8 bytes.
pub fn hash_from_string(s: String) -> (text: String)
    ensures
        text@ == hash_hex(encode_utf8(s@)),
        text@.len() == 64,
{
    let raw = sha256_digest(s.as_str().as_bytes());
    to_hex(raw.as_slice())
}

} // verus!
