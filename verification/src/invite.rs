use vstd::prelude::*;
use vstd::string::*;

verus! {

/// The SHA-256 digest of `data`.
pub uninterp spec fn sha256_digest(data: Seq<u8>) -> Seq<u8>;

/// Calls `sha2::Sha256::digest` (the `Digest` trait of sha2), which hashes all of
/// `data` at once as `new`, `update` and `finalize` do in turn.
/// Trusted: the result is the SHA-256 digest of `data`, named `sha256_digest`, and
/// has 32 bytes, as the output type `GenericArray<u8, U32>` of `Sha256` shows.
#[verifier::external_body]
fn sha256(data: &[u8]) -> (digest: Vec<u8>)
    ensures
        digest@ == sha256_digest(data@),
        digest@.len() == 32,
{
    <sha2::Sha256 as sha2::Digest>::digest(data).to_vec()
}

/// The lower-case hexadecimal digit for `v < 16`.
pub open spec fn hex_digit(v: int) -> char {
    if v < 10 {
        crate::text::digit_char(v as nat)
    } else if v == 10 {
        'a'
    } else if v == 11 {
        'b'
    } else if v == 12 {
        'c'
    } else if v == 13 {
        'd'
    } else if v == 14 {
        'e'
    } else {
        'f'
    }
}

/// Lower-case hexadecimal writing of `bytes`: two digits per byte, high half first.
pub open spec fn hex_lower(bytes: Seq<u8>) -> Seq<char>
    decreases bytes.len(),
{
    if bytes.len() == 0 {
        Seq::empty()
    } else {
        hex_lower(bytes.drop_last()) + seq![
            hex_digit(bytes.last() as int / 16),
            hex_digit(bytes.last() as int % 16),
        ]
    }
}

pub proof fn lemma_hex_lower_len(bytes: Seq<u8>)
    ensures
        hex_lower(bytes).len() == 2 * bytes.len(),
    decreases bytes.len(),
{
    if bytes.len() > 0 {
        lemma_hex_lower_len(bytes.drop_last());
    }
}

/// Calls `hex::encode`, which maps each byte to two characters of
/// `"0123456789abcdef"`, the high four bits first (`BytesToHexChars` in hex's source).
/// Trusted: the result is `hex_lower(data)`.
#[verifier::external_body]
fn hex_encode(data: &[u8]) -> (text: String)
    ensures
        text@ == hex_lower(data@),
{
    hex::encode(data)
}

/// `c` is a lower-case hexadecimal digit: `0` to `9` or `a` to `f`.
pub open spec fn is_lower_hex_digit(c: char) -> bool {
    ('0' <= c && c <= '9') || ('a' <= c && c <= 'f')
}

pub proof fn lemma_hex_lower_digits(bytes: Seq<u8>)
    ensures
        forall|i: int| 0 <= i < hex_lower(bytes).len() ==> is_lower_hex_digit(#[trigger] hex_lower(bytes)[i]),
    decreases bytes.len(),
{
    if bytes.len() > 0 {
        let rest = hex_lower(bytes.drop_last());
        let hi = hex_digit(bytes.last() as int / 16);
        let lo = hex_digit(bytes.last() as int % 16);
        lemma_hex_lower_digits(bytes.drop_last());
        lemma_hex_digit(bytes.last() as int / 16);
        lemma_hex_digit(bytes.last() as int % 16);
        assert forall|i: int| 0 <= i < hex_lower(bytes).len() implies is_lower_hex_digit(
            #[trigger] hex_lower(bytes)[i],
        ) by {
            if i < rest.len() {
                assert(hex_lower(bytes)[i] == rest[i]);
            } else if i == rest.len() {
                assert(hex_lower(bytes)[i] == hi);
            } else {
                assert(hex_lower(bytes)[i] == lo);
            }
        }
    }
}

proof fn lemma_hex_digit(v: int)
    ensures
        is_lower_hex_digit(hex_digit(v)),
{
}

/// The UTF-8 bytes of a text.
pub open spec fn utf8_bytes(s: Seq<char>) -> Seq<u8> {
    vstd::utf8::encode_utf8(s)
}

/// The hex writing of the SHA-256 digest of the hex writing of the SHA-256 digest of the
/// id's bytes: the text whose tail is the invite code.
pub open spec fn id_digest_hex(id: Seq<char>) -> Seq<char> {
    hex_lower(sha256_digest(utf8_bytes(hex_lower(sha256_digest(utf8_bytes(id))))))
}

/// The invite code of an account id: the last six characters of the hex writing of
/// the SHA-256 digest of the hex writing of the SHA-256 digest of the id's bytes.
pub open spec fn invite_code(id: Seq<char>) -> Seq<char> {
    let inner = hex_lower(sha256_digest(utf8_bytes(id)));
    let outer = hex_lower(sha256_digest(utf8_bytes(inner)));
    outer.subrange(outer.len() - 6, outer.len() as int)
}

/// Derives the referral (invite) code of the account with id `id`.
pub fn generate_invite_code(id: String) -> (code: String)
    ensures
        code@ == invite_code(id@),
        code@.len() == 6,
        id_digest_hex(id@).len() == 64,
        code@ == id_digest_hex(id@).subrange(58, 64),
        forall|i: int| 0 <= i < 6 ==> is_lower_hex_digit(#[trigger] code@[i]),
{
    let first = sha256(id.as_str().as_bytes());
    let hash_hex = hex_encode(first.as_slice());
    let second = sha256(hash_hex.as_str().as_bytes());
    let hash_hex = hex_encode(second.as_slice());
    proof {
        lemma_hex_lower_len(second@);
        lemma_hex_lower_digits(second@);
        assert(hash_hex@ == id_digest_hex(id@));
    }
    let n = hash_hex.as_str().unicode_len();
    String::from_str(hash_hex.as_str().substring_char(n - 6, n))
}

} // verus!
