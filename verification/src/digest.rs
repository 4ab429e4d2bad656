//! Content identifiers.
//!
//! A stored object is identified by the SHA-256 digest of its bytes, written
//! as 64 lowercase hexadecimal characters. The digest itself is computed by
//! the `sha2` crate; the hexadecimal rendering is verified here.

use sha2::Digest;
use vstd::prelude::*;
use vstd::string::*;

verus! {

/// The sixteen hexadecimal digits, in order of their value.
pub const HEX_ALPHABET: &'static str = "0123456789abcdef";

/// Number of bytes in a SHA-256 digest.
pub const DIGEST_LEN: usize = 32;

/// Number of characters in a content identifier.
pub const ID_LEN: usize = 64;

/// The SHA-256 digest of `data`, as computed by the `sha2` crate.
pub uninterp spec fn sha256_digest(data: Seq<u8>) -> Seq<u8>;

/// The hexadecimal digit whose value is `n`, for `0 <= n < 16`.
pub open spec fn hex_digit(n: int) -> char {
    HEX_ALPHABET@[n]
}

/// Lowercase hexadecimal rendering of `bytes`: two digits per byte, the high
/// half of each byte first, bytes in order.
pub open spec fn hex_lower(bytes: Seq<u8>) -> Seq<char> {
    Seq::new(
        2 * bytes.len(),
        |i: int|
            hex_digit(
                if i % 2 == 0 {
                    bytes[i / 2] as int / 16
                } else {
                    bytes[i / 2] as int % 16
                },
            ),
    )
}

/// `c` is one of `0`-`9` or `a`-`f`.
pub open spec fn is_lower_hex(c: char) -> bool {
    ('0' <= c && c <= '9') || ('a' <= c && c <= 'f')
}

/// `id` has the shape of a content identifier: exactly 64 lowercase
/// hexadecimal characters.
pub open spec fn is_content_id(id: Seq<char>) -> bool {
    &&& id.len() == ID_LEN
    &&& forall|i: int| 0 <= i < id.len() ==> is_lower_hex(#[trigger] id[i])
}

/// The identifier under which `data` is stored.
pub open spec fn content_id(data: Seq<u8>) -> Seq<char> {
    hex_lower(sha256_digest(data))
}

/// Every character of a hexadecimal rendering is a lowercase hexadecimal digit.
pub proof fn lemma_hex_lower_chars(bytes: Seq<u8>)
    ensures
        hex_lower(bytes).len() == 2 * bytes.len(),
        forall|i: int| 0 <= i < hex_lower(bytes).len() ==> is_lower_hex(#[trigger] hex_lower(bytes)[i]),
{
    reveal_strlit("0123456789abcdef");
    assert forall|i: int| 0 <= i < hex_lower(bytes).len() implies is_lower_hex(
        #[trigger] hex_lower(bytes)[i],
    ) by {
        let b = bytes[i / 2] as int;
        let n = if i % 2 == 0 {
            b / 16
        } else {
            b % 16
        };
        assert(0 <= n < 16);
        assert(hex_lower(bytes)[i] == hex_digit(n));
    }
}

/// The rendering of a 32-byte digest has the shape of a content identifier.
pub proof fn lemma_digest_rendering_is_content_id(digest: Seq<u8>)
    requires
        digest.len() == DIGEST_LEN,
    ensures
        is_content_id(hex_lower(digest)),
{
    lemma_hex_lower_chars(digest);
}

/// Hexadecimal rendering loses nothing: equal renderings come from equal bytes.
pub proof fn lemma_hex_lower_injective(a: Seq<u8>, b: Seq<u8>)
    requires
        hex_lower(a) == hex_lower(b),
    ensures
        a == b,
{
    reveal_strlit("0123456789abcdef");
    assert(a.len() == b.len()) by {
        assert(hex_lower(a).len() == 2 * a.len());
        assert(hex_lower(b).len() == 2 * b.len());
    }
    assert forall|k: int| 0 <= k < a.len() implies a[k] == b[k] by {
        let x = a[k] as int;
        let y = b[k] as int;
        assert(hex_lower(a)[2 * k] == hex_digit(x / 16));
        assert(hex_lower(b)[2 * k] == hex_digit(y / 16));
        assert(hex_lower(a)[2 * k + 1] == hex_digit(x % 16));
        assert(hex_lower(b)[2 * k + 1] == hex_digit(y % 16));
        assert(x / 16 == y / 16);
        assert(x % 16 == y % 16);
    }
    assert(a =~= b);
}

/// Calls `sha2::Sha256::digest`. Trusted: the result is the SHA-256 digest of
/// `data`, a function of the bytes alone, and is 32 bytes long.
#[verifier::external_body]
fn sha256(data: &[u8]) -> (digest: Vec<u8>)
    ensures
        digest@ == sha256_digest(data@),
        digest@.len() == DIGEST_LEN,
{
    sha2::Sha256::digest(data).to_vec()
}

/// The one-character string holding the hexadecimal digit of value `n`.
fn hex_digit_str(n: u8) -> (digit: &'static str)
    requires
        n < 16,
    ensures
        digit@ == seq![hex_digit(n as int)],
{
    proof {
        reveal_strlit("0123456789abcdef");
    }
    let digit = HEX_ALPHABET.substring_ascii(n as usize, n as usize + 1);
    assert(digit@ =~= seq![hex_digit(n as int)]);
    digit
}

/// Renders `bytes` as lowercase hexadecimal.
pub fn hex_encode(bytes: &[u8]) -> (text: String)
    ensures
        text@ == hex_lower(bytes@),
{
    let mut text = String::new();
    let mut i: usize = 0;
    while i < bytes.len()
        invariant
            i <= bytes.len(),
            text@ == hex_lower(bytes@.take(i as int)),
        decreases bytes.len() - i,
    {
        let b: u8 = bytes[i];
        let ghost before = text@;
        text.append(hex_digit_str(b / 16));
        text.append(hex_digit_str(b % 16));
        proof {
            let shorter = bytes@.take(i as int);
            let longer = bytes@.take(i as int + 1);
            assert(text@ == before + seq![hex_digit(b as int / 16)] + seq![
                hex_digit(b as int % 16),
            ]);
            assert forall|j: int| 0 <= j < 2 * (i + 1) implies text@[j] == hex_lower(longer)[j] by {
                if j < 2 * i {
                    assert(text@[j] == hex_lower(shorter)[j]);
                    assert(shorter[j / 2] == longer[j / 2]);
                } else {
                    assert(longer[j / 2] == b);
                }
            }
            assert(text@ =~= hex_lower(longer));
        }
        i += 1;
    }
    assert(bytes@.take(i as int) =~= bytes@);
    text
}

/// Computes the identifier under which `data` is stored: its SHA-256 digest
/// in lowercase hexadecimal.
pub fn content_hash(data: &[u8]) -> (id: String)
    ensures
        id@ == content_id(data@),
        is_content_id(id@),
{
    let digest = sha256(data);
    proof {
        lemma_digest_rendering_is_content_id(digest@);
    }
    hex_encode(digest.as_slice())
}

} // verus!
