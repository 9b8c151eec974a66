use sha2::Digest;
use crate::model::is_lower_hex;
use vstd::prelude::*;

verus! {

/// The SHA-256 digest of a byte sequence.
pub uninterp spec fn sha256_of(b: Seq<u8>) -> Seq<u8>;

/// The lowercase hexadecimal digit for a value below sixteen.
pub open spec fn hex_digit(n: u8) -> char {
    seq!['0', '1', '2', '3', '4', '5', '6', '7', '8', '9', 'a', 'b', 'c', 'd', 'e', 'f'][n as int]
}

/// Lowercase hex encoding: two digits per byte, high nibble first.
pub open spec fn hex_of(b: Seq<u8>) -> Seq<char> {
    Seq::new(
        2 * b.len(),
        |i: int|
            if i % 2 == 0 {
                hex_digit(b[i / 2] / 16)
            } else {
                hex_digit(b[i / 2] % 16)
            },
    )
}

/// The hex digest of a byte sequence.
pub open spec fn sha256_hex(b: Seq<u8>) -> Seq<char> {
    hex_of(sha256_of(b))
}

/// Relies on sha2::Sha256::digest: the 32-byte SHA-256 digest of the input.
#[verifier::external_body]
fn sha256_digest(b: &[u8]) -> (r: Vec<u8>)
    ensures
        r@ == sha256_of(b@),
        r@.len() == 32,
{
    sha2::Sha256::digest(b).to_vec()
}

/// Relies on hex::encode: two lowercase hex digits for each byte, in order.
#[verifier::external_body]
fn hex_encode(b: &[u8]) -> (r: String)
    ensures
        r@ == hex_of(b@),
{
    hex::encode(b)
}

/// The SHA-256 digest of `bytes` as 64 lowercase hex digits.
pub fn compute_sha256(bytes: &[u8]) -> (r: String)
    ensures
        r@ == sha256_hex(bytes@),
        r@.len() == 64,
        forall|i: int| 0 <= i < r@.len() ==> is_lower_hex(#[trigger] r@[i]),
{
    let digest = sha256_digest(bytes);
    proof {
        lemma_hex_digits(digest@);
    }
    hex_encode(digest.as_slice())
}

proof fn lemma_hex_digit_is_lower_hex(n: u8)
    requires
        n < 16,
    ensures
        is_lower_hex(hex_digit(n)),
{
}

/// Every character of a hex encoding is a lowercase hex digit.
proof fn lemma_hex_digits(b: Seq<u8>)
    ensures
        forall|i: int| 0 <= i < hex_of(b).len() ==> is_lower_hex(#[trigger] hex_of(b)[i]),
{
    assert forall|i: int| 0 <= i < hex_of(b).len() implies is_lower_hex(#[trigger] hex_of(b)[i]) by {
        lemma_hex_digit_is_lower_hex(b[i / 2] / 16);
        lemma_hex_digit_is_lower_hex(b[i / 2] % 16);
    }
}

proof fn lemma_hex_digit_injective(a: u8, b: u8)
    requires
        a < 16,
        b < 16,
        hex_digit(a) == hex_digit(b),
    ensures
        a == b,
{
}

/// Hex encoding loses nothing: distinct byte sequences have distinct encodings.
pub proof fn lemma_hex_injective(a: Seq<u8>, b: Seq<u8>)
    requires
        hex_of(a) == hex_of(b),
    ensures
        a == b,
{
    assert(hex_of(a).len() == 2 * a.len());
    assert(hex_of(b).len() == 2 * b.len());
    assert(a.len() == b.len());
    assert forall|i: int| 0 <= i < a.len() implies a[i] == b[i] by {
        assert((2 * i) / 2 == i);
        assert((2 * i + 1) / 2 == i);
        assert((2 * i) % 2 == 0);
        assert((2 * i + 1) % 2 == 1);
        assert(hex_of(a)[2 * i] == hex_digit(a[i] / 16));
        assert(hex_of(b)[2 * i] == hex_digit(b[i] / 16));
        assert(hex_of(a)[2 * i + 1] == hex_digit(a[i] % 16));
        assert(hex_of(b)[2 * i + 1] == hex_digit(b[i] % 16));
        lemma_hex_digit_injective(a[i] / 16, b[i] / 16);
        lemma_hex_digit_injective(a[i] % 16, b[i] % 16);
        let x = a[i];
        let y = b[i];
        assert(x == 16 * (x / 16) + x % 16);
        assert(y == 16 * (y / 16) + y % 16);
    }
    assert(a =~= b);
}

/// The hash is a function of the bytes alone: equal inputs give equal digests,
/// and inputs whose SHA-256 digests differ give different hex strings.
pub proof fn lemma_hash_deterministic(a: Seq<u8>, b: Seq<u8>)
    ensures
        a == b ==> sha256_hex(a) == sha256_hex(b),
        sha256_of(a) != sha256_of(b) ==> sha256_hex(a) != sha256_hex(b),
{
    if sha256_hex(a) == sha256_hex(b) {
        lemma_hex_injective(sha256_of(a), sha256_of(b));
    }
}

} // verus!
