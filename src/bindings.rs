//! Contracts for the items of std and of outside crates that the library calls and
//! that vstd does not specify. Each is believed as written; its doc comment names
//! what it relies on.

use vstd::prelude::*;
use argon2::password_hash::rand_core::OsRng;
use argon2::password_hash::{PasswordHash, PasswordHasher, PasswordVerifier, Salt, SaltString};
use argon2::Argon2;
use pkcs8::EncodePrivateKey;
use vstd::utf8::encode_utf8;

verus! {

/// Relies on `String::push`: the character is appended at the end.
pub assume_specification[ String::push ](s: &mut String, ch: char)
    ensures
        final(s)@ == old(s)@.push(ch),
;

/// A hyphenated lower-case UUID: 36 characters, each a hex digit or a dash.
pub open spec fn is_uuid_text(s: Seq<char>) -> bool {
    s.len() == 36 && forall|i: int|
        0 <= i < 36 ==> ('0' <= #[trigger] s[i] && s[i] <= '9') || ('a' <= s[i] && s[i] <= 'f')
            || s[i] == '-'
}

/// Relies on uuid's `Uuid::new_v4` for a random identifier, and on its `Display`,
/// which writes the hyphenated lower-case form. It panics only where the operating
/// system's random source fails.
#[verifier::external_body]
pub(crate) fn new_uuid() -> (r: String)
    ensures
        is_uuid_text(r@),
{
    uuid::Uuid::new_v4().to_string()
}

/// Relies on chrono's `Utc::now` and `DateTime::to_rfc3339`: the current time as
/// RFC 3339 text. Nothing is assumed of the value. It panics only where the system
/// clock reads before the Unix epoch.
#[verifier::external_body]
pub(crate) fn rfc3339_now() -> (r: String) {
    chrono::Utc::now().to_rfc3339()
}

/// sysinfo's `System`: the machine's metrics as last read. Opaque here.
#[verifier::external_type_specification]
#[verifier::external_body]
pub struct ExSystem(sysinfo::System);

/// Relies on sysinfo's `System::new_all`: reads every metric once. Nothing is
/// assumed of the values read.
pub assume_specification[ sysinfo::System::new_all ]() -> sysinfo::System;

/// Relies on sysinfo's `System::refresh_all`: reads every metric again. Nothing is
/// assumed of the values read.
pub assume_specification[ sysinfo::System::refresh_all ](sys: &mut sysinfo::System);

/// Relies on chrono's `Utc::now` and `DateTime::timestamp`: the current time in
/// whole seconds since the Unix epoch. Nothing is assumed of the value. It panics
/// only where the system clock reads before the Unix epoch.
#[verifier::external_body]
pub(crate) fn unix_now() -> (r: i64) {
    chrono::Utc::now().timestamp()
}

/// The B64 digest that Argon2 with its default parameters computes for a password
/// and a B64 salt.
pub uninterp spec fn argon2_digest(password: Seq<char>, salt: Seq<char>) -> Seq<char>;

/// The head of every PHC string that `Argon2::default()` writes: the algorithm, the
/// version, and the default memory, time and parallelism costs.
pub open spec fn argon2_default_head() -> Seq<char> {
    "$argon2id$v=19$m=19456,t=2,p=1"@
}

/// The PHC string that Argon2 with its default parameters gives for a password and
/// a B64 salt: the head, the salt, then the digest, each after a `$`.
pub open spec fn argon2_phc(password: Seq<char>, salt: Seq<char>) -> Seq<char> {
    argon2_default_head() + seq!['$'] + salt + seq!['$'] + argon2_digest(password, salt)
}

/// Whether a password matches a stored PHC string under Argon2.
pub uninterp spec fn argon2_accepts(password: Seq<char>, phc: Seq<char>) -> bool;

/// A character of the standard Base64 alphabet.
pub open spec fn is_b64_char(c: char) -> bool {
    ('A' <= c && c <= 'Z') || ('a' <= c && c <= 'z') || ('0' <= c && c <= '9') || c == '+'
        || c == '/'
}

/// A salt as `SaltString::generate` writes it: 16 bytes in unpadded standard Base64,
/// that is 22 characters, the last of which carries two bits and four zero bits.
pub open spec fn is_generated_salt(s: Seq<char>) -> bool {
    &&& s.len() == 22
    &&& forall|i: int| 0 <= i < 21 ==> is_b64_char(#[trigger] s[i])
    &&& (s[21] == 'A' || s[21] == 'Q' || s[21] == 'g' || s[21] == 'w')
}

/// A password that Argon2 takes: at most `u32::MAX` bytes of UTF-8.
pub open spec fn fits_argon2(password: Seq<char>) -> bool {
    encode_utf8(password).len() <= 0xFFFF_FFFF
}

/// A stored string that Argon2 made, for some password and generated salt.
pub open spec fn is_argon2_hash(phc: Seq<char>) -> bool {
    exists|p: Seq<char>, s: Seq<char>|
        is_generated_salt(s) && fits_argon2(p) && #[trigger] argon2_phc(p, s) == phc
}

/// password-hash's error type. Opaque here.
#[verifier::external_type_specification]
#[verifier::external_body]
pub struct ExPasswordHashError(argon2::password_hash::Error);

/// Relies on password-hash's `SaltString::generate` over the operating system's
/// random source (`OsRng`): 16 random bytes, written in unpadded B64. It panics only
/// where the operating system's random source fails.
#[verifier::external_body]
pub(crate) fn random_salt() -> (r: String)
    ensures
        is_generated_salt(r@),
{
    SaltString::generate(&mut OsRng).as_str().to_string()
}

/// Relies on argon2's `PasswordHasher::hash_password` for `Argon2::default()`, with
/// the salt read by `Salt::from_b64`: the PHC string of the hash, which depends on
/// the password and the salt alone, written by `PasswordHash`'s `Display` as
/// `$argon2id$v=19$m=19456,t=2,p=1$<salt>$<digest>`. It fails only on a salt that
/// does not read or decode, or on a password of more than `u32::MAX` bytes.
#[verifier::external_body]
pub(crate) fn argon2_hash(password: &str, salt: &str) -> (r: Result<
    String,
    argon2::password_hash::Error,
>)
    ensures
        r is Ok ==> r->Ok_0@ == argon2_default_head() + seq!['$'] + salt@ + seq!['$']
            + argon2_digest(password@, salt@),
        r is Ok ==> fits_argon2(password@),
        is_generated_salt(salt@) && fits_argon2(password@) ==> r is Ok,
{
    let salt = Salt::from_b64(salt)?;
    Argon2::default().hash_password(password.as_bytes(), salt).map(|h| h.to_string())
}

/// Relies on argon2's `PasswordVerifier::verify_password` for `Argon2::default()`,
/// with the stored string read by `PasswordHash::new`: whether the password hashes
/// to the stored hash under the salt and parameters read from it, which depends on
/// the two alone. A stored string that does not parse is an error; one that Argon2
/// made parses, and the password it was made from matches it.
#[verifier::external_body]
pub(crate) fn argon2_verify(password: &str, phc: &str) -> (r: Result<
    bool,
    argon2::password_hash::Error,
>)
    ensures
        r is Ok ==> r->Ok_0 == argon2_accepts(password@, phc@),
        is_argon2_hash(phc@) ==> r is Ok,
        forall|s: Seq<char>|
            is_generated_salt(s) && fits_argon2(password@) && #[trigger] argon2_phc(password@, s)
                == phc@ ==> r is Ok && r->Ok_0,
{
    let parsed = PasswordHash::new(phc)?;
    Ok(Argon2::default().verify_password(password.as_bytes(), &parsed).is_ok())
}

/// The compressed public point of the Ed25519 key pair of a 32-byte seed.
pub uninterp spec fn ed25519_public_key(seed: Seq<u8>) -> Seq<u8>;

/// The PKCS#8 DER document of the Ed25519 key pair of a 32-byte seed, where it can
/// be written.
pub uninterp spec fn ed25519_pkcs8_der(seed: Seq<u8>) -> Option<Seq<u8>>;

/// pkcs8's error type. Opaque here.
#[verifier::external_type_specification]
#[verifier::external_body]
pub struct ExPkcs8Error(pkcs8::Error);

/// Relies on ed25519-dalek's `VerifyingKey::as_bytes` of the public half of
/// `SigningKey::from_bytes(seed)`: 32 bytes, which depend on the seed alone.
#[verifier::external_body]
pub(crate) fn seed_public_key(seed: &[u8; 32]) -> (r: Vec<u8>)
    ensures
        r@ == ed25519_public_key(seed@),
        r@.len() == 32,
{
    ed25519_dalek::SigningKey::from_bytes(seed).verifying_key().as_bytes().to_vec()
}

/// Relies on ed25519-dalek's `EncodePrivateKey::to_pkcs8_der` for
/// `SigningKey::from_bytes(seed)`: the key pair as a PKCS#8 DER document, copied out
/// as bytes. Whether it succeeds, and what it writes, depend on the seed alone.
#[verifier::external_body]
pub(crate) fn seed_pkcs8_der(seed: &[u8; 32]) -> (r: Result<Vec<u8>, pkcs8::Error>)
    ensures
        r is Ok <==> ed25519_pkcs8_der(seed@) is Some,
        r is Ok ==> r->Ok_0@ == ed25519_pkcs8_der(seed@)->0,
{
    ed25519_dalek::SigningKey::from_bytes(seed).to_pkcs8_der().map(|doc| doc.as_bytes().to_vec())
}

/// jsonwebtoken's `EncodingKey`. Opaque here.
#[verifier::external_type_specification]
#[verifier::external_body]
pub struct ExEncodingKey(jsonwebtoken::EncodingKey);

/// jsonwebtoken's `DecodingKey`. Opaque here.
#[verifier::external_type_specification]
#[verifier::external_body]
pub struct ExDecodingKey(jsonwebtoken::DecodingKey);

/// Relies on jsonwebtoken's `EncodingKey::from_ed_der`: keeps the bytes as an EdDSA
/// signing key. It does not fail.
pub assume_specification[ jsonwebtoken::EncodingKey::from_ed_der ](
    der: &[u8],
) -> jsonwebtoken::EncodingKey;

/// Relies on jsonwebtoken's `DecodingKey::from_ed_der`: keeps the bytes as an EdDSA
/// verifying key. It does not fail.
pub assume_specification[ jsonwebtoken::DecodingKey::from_ed_der ](
    der: &[u8],
) -> jsonwebtoken::DecodingKey;

} // verus!
