//! The few calls into outside crates that the stores rely on: fresh id
//! strings, the current time, Unicode whitespace classification, and
//! password hashing and verification. Each call stands behind one
//! function whose contract states only what the outside crate's own
//! source and documentation show.

use vstd::prelude::*;
use argon2::Argon2;
use argon2::password_hash::{PasswordHash, PasswordHasher, PasswordVerifier, SaltString};
use rand::rngs::OsRng;

verus! {

/// The error type of the `password-hash` crate, carried through
/// unchanged so that callers can map it to [`crate::error::StoreError`].
#[verifier::external_type_specification]
#[verifier::external_body]
pub struct ExPasswordHashError(argon2::password_hash::Error);

/// Whether `argon2`'s verifier accepts `password` against `digest`.
///
/// Verification is deterministic: the salt and parameters are embedded
/// in the digest string, so the outcome is a function of the two
/// arguments alone. No clause anywhere states this function's value on
/// given inputs; it only ties `hash_password` and `verify_password`
/// together.
pub uninterp spec fn digest_matches(password: Seq<char>, digest: Seq<char>) -> bool;

/// Whether verification against `digest` can run to completion: the
/// string parses as a PHC hash whose algorithm, version, parameters,
/// salt and output argon2 accepts. A function of the string alone;
/// every digest `hash_password` produces satisfies it, since hashing
/// renders exactly the values it was just run with.
pub uninterp spec fn digest_wf(digest: Seq<char>) -> bool;

/// The one bound argon2 puts on the password itself: its UTF-8
/// encoding must stay under `MAX_PWD_LEN` (4 GiB) bytes. Within it,
/// hashing a password cannot fail, and verifying it against a
/// well-formed digest cannot fail either.
pub open spec fn within_hash_limit(password: Seq<char>) -> bool {
    vstd::utf8::encode_utf8(password).len() <= 0xFFFFFFFF
}

/// The Unicode White_Space set, the property `char::is_whitespace`
/// goes by: the ASCII controls tab through carriage return, the
/// space, next line, no-break space, the Ogham space mark, the en
/// quad through hair space range, the two line and paragraph
/// separators, the narrow and medium no-break spaces, and the
/// ideographic space.
pub open spec fn space_char(c: char) -> bool {
    ||| 0x09 <= c as u32 <= 0x0D
    ||| c as u32 == 0x20
    ||| c as u32 == 0x85
    ||| c as u32 == 0xA0
    ||| c as u32 == 0x1680
    ||| 0x2000 <= c as u32 <= 0x200A
    ||| c as u32 == 0x2028
    ||| c as u32 == 0x2029
    ||| c as u32 == 0x202F
    ||| c as u32 == 0x205F
    ||| c as u32 == 0x3000
}

/// Relies on `uuid::Uuid::new_v4` and its simple display form: a fresh
/// random identifier rendered as a hexadecimal string. Nothing is
/// promised of the value; uniqueness is enforced by the stores, which
/// refuse an identifier already present.
#[verifier::external_body]
pub fn generate_id() -> String {
    uuid::Uuid::new_v4().simple().to_string()
}

/// Relies on `chrono::Utc::now` and `DateTime::timestamp_millis`: the
/// current time as milliseconds since the Unix epoch. Nothing is
/// promised of the value; the stores keep their stamps monotonic
/// whatever the clock reports.
#[verifier::external_body]
pub(crate) fn now_millis() -> i64 {
    chrono::Utc::now().timestamp_millis()
}

/// Relies on `char::is_whitespace`: true exactly on the White_Space
/// set written out in [`space_char`].
#[verifier::external_body]
pub(crate) fn is_whitespace_char(c: char) -> (r: bool)
    ensures
        r == space_char(c),
{
    c.is_whitespace()
}

/// Relies on `Argon2::hash_password` and `SaltString::generate` (with
/// the operating system's randomness source): on success the returned
/// PHC string is a digest of `password`, which `Argon2::verify_password`
/// accepts for the same password — the round trip the `password-hash`
/// crate documents. The string renders the algorithm, version,
/// parameters, salt and output that were just used, so verification
/// against it completes; and with default parameters and a fresh salt
/// the only input-dependent failure in the source is a password over
/// argon2's length limit.
#[verifier::external_body]
pub fn hash_password(password: &str) -> (r: Result<String, argon2::password_hash::Error>)
    ensures
        r matches Ok(digest) ==> digest_matches(password@, digest@),
        r matches Ok(digest) ==> digest_wf(digest@),
        within_hash_limit(password@) ==> r is Ok,
{
    let salt = SaltString::generate(&mut OsRng);
    match Argon2::default().hash_password(password.as_bytes(), &salt) {
        Ok(h) => Ok(h.to_string()),
        Err(e) => Err(e),
    }
}

/// Relies on `PasswordHash::new` and `Argon2::verify_password`:
/// `Ok(true)` when the password matches the digest, `Ok(false)` on the
/// verifier's password-mismatch outcome, `Err` when the digest cannot
/// be parsed or the backend refuses it. In the source every error is
/// determined by the digest's form — parsing, algorithm, version,
/// parameters, salt and output bounds — except the one bound on the
/// password's own length, so on a well-formed digest and a password
/// within that bound the call completes.
#[verifier::external_body]
pub fn verify_password(password: &str, password_hash: &str) -> (r: Result<
    bool,
    argon2::password_hash::Error,
>)
    ensures
        r matches Ok(b) ==> b == digest_matches(password@, password_hash@),
        digest_wf(password_hash@) && within_hash_limit(password@) ==> r is Ok,
{
    let parsed_hash = match PasswordHash::new(password_hash) {
        Ok(p) => p,
        Err(e) => return Err(e),
    };
    match Argon2::default().verify_password(password.as_bytes(), &parsed_hash) {
        Ok(()) => Ok(true),
        Err(argon2::password_hash::Error::Password) => Ok(false),
        Err(e) => Err(e),
    }
}

} // verus!
