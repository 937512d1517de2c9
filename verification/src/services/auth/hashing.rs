use vstd::prelude::*;

use sha2::Digest;

verus! {

/// The lowercase hexadecimal digit of a value below sixteen.
pub open spec fn hex_digit(n: int) -> char {
    if n < 10 {
        (48 + n) as char
    } else {
        (87 + n) as char
    }
}

/// Lowercase hexadecimal encoding: two digits per byte, high nibble first.
pub open spec fn hex_encoding(bytes: Seq<u8>) -> Seq<char>
    decreases bytes.len(),
{
    if bytes.len() == 0 {
        seq![]
    } else {
        seq![hex_digit((bytes[0] / 16) as int), hex_digit((bytes[0] % 16) as int)] + hex_encoding(bytes.drop_first())
    }
}

/// Whether a character is a lowercase hexadecimal digit.
pub open spec fn is_lower_hex_digit(c: char) -> bool {
    ('0' <= c && c <= '9') || ('a' <= c && c <= 'f')
}

/// The hex encoding has two characters per byte, each a lowercase hex digit.
pub proof fn lemma_hex_encoding_shape(bytes: Seq<u8>)
    ensures
        hex_encoding(bytes).len() == 2 * bytes.len(),
        forall|i: int|
            0 <= i < hex_encoding(bytes).len() ==> is_lower_hex_digit(#[trigger] hex_encoding(bytes)[i]),
    decreases bytes.len(),
{
    if bytes.len() > 0 {
        lemma_hex_encoding_shape(bytes.drop_first());
        let head = seq![hex_digit((bytes[0] / 16) as int), hex_digit((bytes[0] % 16) as int)];
        let rest = hex_encoding(bytes.drop_first());
        assert forall|i: int| 0 <= i < hex_encoding(bytes).len() implies is_lower_hex_digit(
            #[trigger] hex_encoding(bytes)[i],
        ) by {
            if i < 2 {
                assert(hex_encoding(bytes)[i] == head[i]);
            } else {
                assert(hex_encoding(bytes)[i] == rest[i - 2]);
            }
        }
    }
}

/// What the SHA-512 digest of a byte sequence is.
pub uninterp spec fn sha512(data: Seq<u8>) -> Seq<u8>;

/// Calls `sha2::Sha512::digest` on the bytes. The digest is named `sha512` of
/// the input; the crate's `Sha512` has a 64-byte output, which the second
/// clause states.
#[verifier::external_body]
fn sha512_digest(data: &[u8]) -> (digest: Vec<u8>)
    ensures
        digest@ == sha512(data@),
        digest@.len() == 64,
{
    sha2::Sha512::digest(data).to_vec()
}

/// Calls `hex::encode`, which maps each byte to two lowercase hex digits,
/// high nibble first (the crate's `HEX_CHARS_LOWER` table).
#[verifier::external_body]
fn hex_encode(bytes: &[u8]) -> (text: String)
    ensures
        text@ == hex_encoding(bytes@),
{
    hex::encode(bytes)
}

/// The stored form of a secret value: the lowercase hex SHA-512 digest of the
/// UTF-8 bytes of the value followed by those of the server secret.
pub open spec fn hash_spec(value: Seq<char>, secret: Seq<char>) -> Seq<char> {
    hex_encoding(sha512(vstd::utf8::encode_utf8(value) + vstd::utf8::encode_utf8(secret)))
}

/// The stored digest is the hex SHA-512 of the whole UTF-8 encoding of the
/// value followed by the whole UTF-8 encoding of the secret: no byte of either
/// is dropped.
pub proof fn lemma_hash_covers_whole_value_and_secret(value: Seq<char>, secret: Seq<char>)
    ensures
        hash_spec(value, secret) == hex_encoding(
            sha512(vstd::utf8::encode_utf8(value) + vstd::utf8::encode_utf8(secret)),
        ),
{
}

/// Different values hashed with the same secret, and the same value hashed with
/// different secrets, give different inputs to SHA-512: every character of the
/// value and of the secret reaches the digest.
pub proof fn lemma_hash_inputs_distinguish(value1: Seq<char>, value2: Seq<char>, secret1: Seq<char>, secret2: Seq<char>)
    ensures
        value1 != value2 ==> vstd::utf8::encode_utf8(value1) + vstd::utf8::encode_utf8(secret1)
            != vstd::utf8::encode_utf8(value2) + vstd::utf8::encode_utf8(secret1),
        secret1 != secret2 ==> vstd::utf8::encode_utf8(value1) + vstd::utf8::encode_utf8(secret1)
            != vstd::utf8::encode_utf8(value1) + vstd::utf8::encode_utf8(secret2),
{
    let e1 = vstd::utf8::encode_utf8(value1);
    let e2 = vstd::utf8::encode_utf8(value2);
    let k1 = vstd::utf8::encode_utf8(secret1);
    let k2 = vstd::utf8::encode_utf8(secret2);
    if value1 != value2 && e1 + k1 == e2 + k1 {
        assert((e1 + k1).len() == (e2 + k1).len());
        assert(e1 =~= (e1 + k1).subrange(0, e1.len() as int));
        assert(e2 =~= (e2 + k1).subrange(0, e2.len() as int));
        vstd::utf8::encode_utf8_decode_utf8(value1);
        vstd::utf8::encode_utf8_decode_utf8(value2);
        assert(false);
    }
    if secret1 != secret2 && e1 + k1 == e1 + k2 {
        assert(k1 =~= (e1 + k1).subrange(e1.len() as int, (e1 + k1).len() as int));
        assert(k2 =~= (e1 + k2).subrange(e1.len() as int, (e1 + k2).len() as int));
        vstd::utf8::encode_utf8_decode_utf8(secret1);
        vstd::utf8::encode_utf8_decode_utf8(secret2);
        assert(false);
    }
}

/// Hashes a value (a password or a refresh token) with the server secret.
pub fn hash(value: &str, secret: &str) -> (digest: String)
    ensures
        digest@ == hash_spec(value@, secret@),
        digest@ == hex_encoding(
            sha512(vstd::utf8::encode_utf8(value@) + vstd::utf8::encode_utf8(secret@)),
        ),
        digest@.len() == 128,
        forall|i: int| 0 <= i < digest@.len() ==> is_lower_hex_digit(#[trigger] digest@[i]),
{
    let value_bytes = value.as_bytes();
    let secret_bytes = secret.as_bytes();
    let mut data: Vec<u8> = Vec::new();
    let mut i: usize = 0;
    while i < value_bytes.len()
        invariant
            i <= value_bytes@.len(),
            data@ =~= value_bytes@.subrange(0, i as int),
        decreases value_bytes@.len() - i,
    {
        data.push(value_bytes[i]);
        i = i + 1;
    }
    let mut j: usize = 0;
    while j < secret_bytes.len()
        invariant
            j <= secret_bytes@.len(),
            data@ =~= value_bytes@ + secret_bytes@.subrange(0, j as int),
        decreases secret_bytes@.len() - j,
    {
        data.push(secret_bytes[j]);
        j = j + 1;
    }
    assert(data@ =~= vstd::utf8::encode_utf8(value@) + vstd::utf8::encode_utf8(secret@));
    let digest_bytes = sha512_digest(data.as_slice());
    proof {
        lemma_hex_encoding_shape(digest_bytes@);
    }
    hex_encode(digest_bytes.as_slice())
}

} // verus!
