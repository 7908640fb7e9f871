use sha2::Digest;
use vstd::prelude::*;

verus! {

/// The SHA-256 digest of a byte sequence.
pub uninterp spec fn sha256(data: Seq<u8>) -> Seq<u8>;

/// Computes the SHA-256 digest of `data` with `sha2::Sha256::digest`.
///
/// Trusted: the returned array is the 32-byte SHA-256 digest of exactly the bytes of `data`,
/// so equal inputs give equal digests.
#[verifier::external_body]
pub(crate) fn sha256_digest(data: &[u8]) -> (digest: [u8; 32])
    ensures
        digest@ == sha256(data@),
{
    sha2::Sha256::digest(data).into()
}

/// `String::push` appends one character.
pub assume_specification[ String::push ](string: &mut String, ch: char)
    ensures
        final(string)@ == old(string)@.push(ch),
;

/// `String::push_str` appends every character of `s`.
pub assume_specification[ String::push_str ](string: &mut String, s: &str)
    ensures
        final(string)@ == old(string)@ + s@,
;

/// Lowercase hexadecimal digit for a value below 16.
pub open spec fn hex_digit(nibble: u8) -> char {
    if nibble < 10 {
        (nibble + 48) as char
    } else {
        (nibble + 87) as char
    }
}

/// Lowercase hexadecimal text of a byte sequence, two digits per byte, high nibble first.
pub open spec fn hex_lower(bytes: Seq<u8>) -> Seq<char>
    decreases bytes.len(),
{
    if bytes.len() == 0 {
        seq![]
    } else {
        hex_lower(bytes.drop_last()) + seq![
            hex_digit(bytes.last() >> 4),
            hex_digit(bytes.last() & 0x0f),
        ]
    }
}

/// Text form of a digest: `sha256:` followed by the lowercase hexadecimal digest.
pub open spec fn fingerprint_text(digest: Seq<u8>) -> Seq<char> {
    "sha256:"@ + hex_lower(digest)
}

/// The eight big-endian bytes of a `u64`.
pub open spec fn be_bytes(n: u64) -> Seq<u8> {
    seq![
        (n >> 56) as u8,
        (n >> 48) as u8,
        (n >> 40) as u8,
        (n >> 32) as u8,
        (n >> 24) as u8,
        (n >> 16) as u8,
        (n >> 8) as u8,
        n as u8,
    ]
}

fn hex_digit_char(nibble: u8) -> (c: char)
    requires
        nibble < 16,
    ensures
        c == hex_digit(nibble),
{
    if nibble < 10 {
        (nibble + 48) as char
    } else {
        (nibble + 87) as char
    }
}

/// Formats a digest as `sha256:` followed by 64 lowercase hexadecimal digits.
pub(crate) fn format_fingerprint(digest: [u8; 32]) -> (text: String)
    ensures
        text@ == fingerprint_text(digest@),
{
    let mut text = "sha256:".to_owned();
    let mut i: usize = 0;
    while i < 32
        invariant
            i <= 32,
            digest@.len() == 32,
            text@ == "sha256:"@ + hex_lower(digest@.take(i as int)),
        decreases 32 - i,
    {
        let byte = digest[i];
        assert(byte >> 4 < 16 && byte & 0x0f < 16) by (bit_vector);
        text.push(hex_digit_char(byte >> 4));
        text.push(hex_digit_char(byte & 0x0f));
        assert(digest@.take(i + 1).drop_last() =~= digest@.take(i as int));
        i = i + 1;
    }
    assert(digest@.take(32) =~= digest@);
    text
}

/// Appends the big-endian bytes of `n`.
pub(crate) fn push_be_bytes(buffer: &mut Vec<u8>, n: u64)
    ensures
        final(buffer)@ == old(buffer)@ + be_bytes(n),
{
    buffer.push((n >> 56) as u8);
    buffer.push((n >> 48) as u8);
    buffer.push((n >> 40) as u8);
    buffer.push((n >> 32) as u8);
    buffer.push((n >> 24) as u8);
    buffer.push((n >> 16) as u8);
    buffer.push((n >> 8) as u8);
    buffer.push(n as u8);
    assert(buffer@ =~= old(buffer)@ + be_bytes(n));
}

/// Appends every byte of `bytes`.
pub(crate) fn push_bytes(buffer: &mut Vec<u8>, bytes: &[u8])
    ensures
        final(buffer)@ == old(buffer)@ + bytes@,
{
    let ghost start = buffer@;
    let mut i: usize = 0;
    while i < bytes.len()
        invariant
            i <= bytes@.len(),
            buffer@ == start + bytes@.take(i as int),
        decreases bytes@.len() - i,
    {
        buffer.push(bytes[i]);
        assert(bytes@.take(i + 1) =~= bytes@.take(i as int).push(bytes@[i as int]));
        i = i + 1;
    }
    assert(bytes@.take(bytes@.len() as int) =~= bytes@);
}

/// Converts a length or position to `u64`; every `usize` fits.
pub(crate) fn to_u64(value: usize) -> (converted: u64)
    ensures
        converted == value,
{
    value as u64
}

} // verus!
