//! Hashing, random material and encodings.
//!
//! The salted password hash is SHA-256 of `password + salt`, rendered in
//! lowercase hex. Salts are 16 random alphanumeric characters; single-use
//! codes are random 10-digit numbers; second-factor secrets are 20 random
//! bytes in base32.

use vstd::prelude::*;

use rand::Rng;
use sha2::Digest;

use crate::text::{dec_str_of, is_alnum_char};

verus! {

pub const MIN_CODE: u64 = 1000000000;

pub const MAX_CODE: u64 = 9999999999;

pub const SALT_LEN: usize = 16;

pub const TFA_SECRET_BYTES: usize = 20;

/// The SHA-256 digest of the UTF-8 bytes of `s`: named after sha2's
/// `Sha256::digest`, a function of its input alone.
pub uninterp spec fn sha256_of(s: Seq<char>) -> Seq<u8>;

/// The RFC 4648 base32 encoding (with padding) of `bytes`: named after
/// data-encoding's `BASE32.encode`, a function of its input alone.
pub uninterp spec fn base32_of(bytes: Seq<u8>) -> Seq<char>;

/// The lowercase hex digit for `d % 16`.
pub open spec fn hex_digit(d: nat) -> char {
    if d % 16 < 10 {
        ((48 + (d % 16)) as u8) as char
    } else {
        ((87 + (d % 16)) as u8) as char
    }
}

/// Lowercase hex rendering: two digits per byte, high digit first.
pub open spec fn hex_of(bytes: Seq<u8>) -> Seq<char> {
    Seq::new(
        bytes.len() * 2,
        |i: int|
            if i % 2 == 0 {
                hex_digit((bytes[i / 2] / 16) as nat)
            } else {
                hex_digit((bytes[i / 2] % 16) as nat)
            },
    )
}

/// The salted hash stored for a password: lowercase hex of SHA-256 over
/// the password followed by the salt.
pub open spec fn salted_hash(password: Seq<char>, salt: Seq<char>) -> Seq<char> {
    hex_of(sha256_of(password + salt))
}

/// A character of the RFC 4648 base32 alphabet: `A`..`Z` or `2`..`7`.
pub open spec fn is_base32_char(c: char) -> bool {
    (65 <= c as u32 && c as u32 <= 90) || (50 <= c as u32 && c as u32 <= 55)
}

/// Relies on sha2's `Sha256::digest`: a 32-byte digest that depends on
/// the input bytes alone.
#[verifier::external_body]
fn sha256_digest(value: &str) -> (r: Vec<u8>)
    ensures
        r@ == sha256_of(value@),
        r@.len() == 32,
{
    let mut hasher = sha2::Sha256::new();
    hasher.update(value.as_bytes());
    hasher.finalize().to_vec()
}

/// Relies on hex's `encode`: two lowercase hex digits per input byte,
/// high digit first. The bound keeps the doubled length representable.
#[verifier::external_body]
fn hex_encode(bytes: &Vec<u8>) -> (r: String)
    requires
        bytes@.len() * 2 <= usize::MAX,
    ensures
        r@ == hex_of(bytes@),
{
    hex::encode(bytes)
}

/// Relies on rand's `Alphanumeric` distribution: every sampled character
/// is an ASCII letter or digit; nothing else is assumed of the result.
#[verifier::external_body]
fn random_alphanumeric(len: usize) -> (r: String)
    ensures
        r@.len() == len,
        forall|i: int| 0 <= i < r@.len() ==> is_alnum_char(#[trigger] r@[i]),
{
    rand::thread_rng().sample_iter(&rand::distributions::Alphanumeric).take(len).map(
        char::from,
    ).collect()
}

/// Relies on rand's `Rng::gen_range`: the result lies in the given
/// inclusive range; nothing else is assumed of it.
#[verifier::external_body]
fn random_code() -> (r: u64)
    ensures
        MIN_CODE <= r <= MAX_CODE,
{
    rand::thread_rng().gen_range(MIN_CODE..=MAX_CODE)
}

/// Relies on rand's `Rng::fill`: the buffer keeps its length; nothing
/// else is assumed of its contents.
#[verifier::external_body]
fn random_bytes_20() -> (r: Vec<u8>)
    ensures
        r@.len() == TFA_SECRET_BYTES,
{
    let mut bytes = [0u8; 20];
    rand::thread_rng().fill(&mut bytes);
    bytes.to_vec()
}

/// Relies on data-encoding's `BASE32.encode` (RFC 4648 with padding):
/// eight output characters per five-byte block, each from the base32
/// alphabet or the pad; padding appears only after a final partial
/// block, so a whole-block input is pad-free. The bound is the
/// encoder's own input limit, below which it never panics.
#[verifier::external_body]
fn base32_encode(bytes: &Vec<u8>) -> (r: String)
    requires
        bytes@.len() <= usize::MAX / 512,
    ensures
        r@ == base32_of(bytes@),
        r@.len() == ((bytes@.len() + 4) / 5) * 8,
        forall|i: int| 0 <= i < r@.len() ==> is_base32_char(#[trigger] r@[i]) || r@[i] == '=',
        bytes@.len() % 5 == 0 ==> forall|i: int|
            0 <= i < r@.len() ==> is_base32_char(#[trigger] r@[i]),
{
    data_encoding::BASE32.encode(bytes)
}

pub struct HasherService;

impl HasherService {
    /// The lowercase-hex SHA-256 of `value`.
    pub fn sha256(value: String) -> (r: String)
        ensures
            r@ == hex_of(sha256_of(value@)),
            r@.len() == 64,
    {
        let digest = sha256_digest(value.as_str());
        hex_encode(&digest)
    }

    /// A fresh password salt: 16 alphanumeric characters.
    pub fn generate_salt() -> (r: String)
        ensures
            r@.len() == SALT_LEN,
            forall|i: int| 0 <= i < r@.len() ==> is_alnum_char(#[trigger] r@[i]),
    {
        random_alphanumeric(SALT_LEN)
    }

    /// A fresh single-use code: a 10-digit number.
    pub fn generate_code() -> (r: u64)
        ensures
            MIN_CODE <= r <= MAX_CODE,
    {
        random_code()
    }

    /// A fresh single-use code rendered in decimal: always 10 digits.
    pub fn generate_code_string() -> (r: String)
        ensures
            exists|n: u64|
                MIN_CODE <= n <= MAX_CODE && r@ == #[trigger] dec_str_of(n as nat),
    {
        let code = random_code();
        let r = crate::text::decimal_string(code);
        proof {
            assert(MIN_CODE <= code <= MAX_CODE && r@ == dec_str_of(code as nat));
        }
        r
    }

    /// A fresh second-factor secret: 20 random bytes, base32-encoded as
    /// 32 characters of the bare alphabet — a whole number of blocks,
    /// so no pad character appears.
    pub fn generate_2fa_secret() -> (r: String)
        ensures
            r@.len() == 32,
            forall|i: int| 0 <= i < r@.len() ==> is_base32_char(#[trigger] r@[i]),
    {
        let bytes = random_bytes_20();
        base32_encode(&bytes)
    }
}

} // verus!
