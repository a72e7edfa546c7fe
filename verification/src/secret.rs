//! The application secret and the identifiers: a random alphanumeric
//! token, the salt derived from it by hashing, and fresh worker
//! identifiers. The random and cryptographic work is done by outside
//! crates behind narrow trusted wrappers; everything said about their
//! results is checked here.

use vstd::prelude::*;
use vstd::string::StringSliceAdditionalSpecFns;
use blake2::Blake2b512;
use blake2::Digest;
use rand::RngExt;

verus! {

// ---------------------------------------------------------------------------
// Identifiers
// ---------------------------------------------------------------------------

/// `c` is a lowercase hexadecimal digit.
pub open spec fn is_hex_lower(c: char) -> bool {
    (0x30 <= (c as u32) <= 0x39) || (0x61 <= (c as u32) <= 0x66)
}

/// `s` is a hyphenated lowercase identifier: 36 characters with hyphens at
/// the four documented positions and hexadecimal digits everywhere else.
pub open spec fn is_uuid_text(s: Seq<char>) -> bool {
    &&& s.len() == 36
    &&& forall|i: int|
        0 <= i < 36 ==> if i == 8 || i == 13 || i == 18 || i == 23 {
            s[i] == '-'
        } else {
            is_hex_lower(#[trigger] s[i])
        }
}

/// Relies on `uuid::Uuid::new_v4` and the `Display` of `uuid::Uuid`: a
/// random version-4 identifier rendered in the hyphenated lowercase form,
/// 36 characters with hyphens after the 8th, 12th, 16th and 20th digit.
/// Nothing relates two calls: each yields a fresh random value.
#[verifier::external_body]
pub fn fresh_uuid_string() -> (r: String)
    ensures
        is_uuid_text(r@),
{
    uuid::Uuid::new_v4().to_string()
}

// ---------------------------------------------------------------------------
// The application secret
// ---------------------------------------------------------------------------

/// `c` is an ASCII letter or digit.
pub open spec fn is_alnum(c: char) -> bool {
    (0x30 <= (c as u32) <= 0x39) || (0x41 <= (c as u32) <= 0x5a) || (0x61 <= (c as u32) <= 0x7a)
}

/// A well-formed application secret: 256 letters and digits.
pub open spec fn spec_appsecret_ok(s: Seq<char>) -> bool {
    s.len() == 256 && (forall|i: int| 0 <= i < s.len() ==> is_alnum(#[trigger] s[i]))
}

impl crate::config::Config {
    /// Relies on rand's thread-local generator sampling the `Alphanumeric`
    /// distribution: 256 random letters and digits. Nothing relates two
    /// calls: each yields a fresh random token.
    #[verifier::external_body]
    pub fn generate_appsecret() -> (r: String)
        ensures
            spec_appsecret_ok(r@),
    {
        rand::rng().sample_iter(rand::distr::Alphanumeric).take(256).map(char::from).collect()
    }
}

/// Whether a token is a well-formed application secret.
pub fn appsecret_ok(s: &str) -> (r: bool)
    ensures
        r == spec_appsecret_ok(s@),
{
    let cs = crate::text::str_to_chars(s);
    if cs.len() != 256 {
        return false;
    }
    let mut i: usize = 0;
    while i < cs.len()
        invariant
            cs@ == s@,
            cs@.len() == 256,
            i <= 256,
            forall|k: int| 0 <= k < i ==> is_alnum(#[trigger] s@[k]),
        decreases 256 - i,
    {
        let code = cs[i] as u32;
        let ok = (0x30 <= code && code <= 0x39) || (0x41 <= code && code <= 0x5a) || (0x61 <= code
            && code <= 0x7a);
        if !ok {
            proof {
                assert(!is_alnum(s@[i as int]));
            }
            return false;
        }
        i += 1;
    }
    true
}

// ---------------------------------------------------------------------------
// The salt
// ---------------------------------------------------------------------------

/// What the hash of the secret is. Named only: the digest depends on the
/// input bytes alone, and nothing else is assumed of it.
pub uninterp spec fn blake2b_digest(data: Seq<u8>) -> Seq<u8>;

/// Relies on `blake2::Blake2b512` through the `Digest` trait: a 64-byte
/// digest that depends on the input bytes alone.
#[verifier::external_body]
fn blake2b512(data: &[u8]) -> (r: Vec<u8>)
    ensures
        r@ == blake2b_digest(data@),
        r@.len() == 64,
{
    Blake2b512::digest(data).to_vec()
}

/// The lowercase hexadecimal text of a byte string, two digits per byte.
pub open spec fn hex_of_bytes(b: Seq<u8>) -> Seq<char>
    decreases b.len(),
{
    if b.len() == 0 {
        Seq::<char>::empty()
    } else {
        seq![
            crate::escape::spec_hex_char((b[0] / 16) as nat),
            crate::escape::spec_hex_char((b[0] % 16) as nat),
        ] + hex_of_bytes(b.skip(1))
    }
}

/// Hexadecimal text is twice as long as its bytes.
pub proof fn lemma_hex_of_bytes_len(b: Seq<u8>)
    ensures
        hex_of_bytes(b).len() == 2 * b.len(),
    decreases b.len(),
{
    if b.len() > 0 {
        lemma_hex_of_bytes_len(b.skip(1));
    }
}

/// Relies on `hex::encode`: the lowercase hexadecimal rendering of the
/// bytes, two digits per byte, in order.
#[verifier::external_body]
fn hex_encode(b: &[u8]) -> (r: String)
    ensures
        r@ == hex_of_bytes(b@),
{
    hex::encode(b)
}

/// The salt derived from an application secret: the lowercase hexadecimal
/// text of the secret's 64-byte hash, 128 characters.
pub fn salt_from_secret(secret: &str) -> (r: String)
    ensures
        r@ == hex_of_bytes(blake2b_digest(secret.spec_bytes())),
        r@.len() == 128,
{
    let digest = blake2b512(secret.as_bytes());
    let r = hex_encode(digest.as_slice());
    proof {
        lemma_hex_of_bytes_len(digest@);
    }
    r
}

} // verus!
