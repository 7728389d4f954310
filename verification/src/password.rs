//! Hashing a password into a stored credential, and checking a password
//! against one.
//!
//! A stored credential is the text that Argon2 makes of a password and a
//! salt: it names the algorithm and its cost, and holds the salt and the
//! digest.

use rand::Rng;
use vstd::prelude::*;

verus! {

/// The length of a salt in bytes.
pub const SALT_LENGTH: usize = 32;

/// The longest password, in bytes, that can be hashed.
pub const MAX_PASSWORD_BYTES: usize = 0xFFFF_FFFF;

#[verifier::external_type_specification]
#[verifier::external_body]
pub struct ExArgon2Error(argon2::Error);

/// The credential that `argon2::hash_encoded` makes of a password and a
/// salt under `argon2::Config::default()`; `None` where it fails.
pub uninterp spec fn argon2_encoded(password: Seq<u8>, salt: Seq<u8>) -> Option<Seq<char>>;

/// What `argon2::verify_encoded` says of a stored credential and a
/// password: whether they match, or `None` where it fails, as it does on a
/// credential that it cannot read.
pub uninterp spec fn argon2_verdict(encoded: Seq<char>, password: Seq<u8>) -> Option<bool>;

/// A salt of `SALT_LENGTH` bytes from `rand::thread_rng`.
///
/// Trusted: the length. Nothing is claimed of the bytes.
#[verifier::external_body]
fn random_salt() -> (salt: Vec<u8>)
    ensures
        salt@.len() == SALT_LENGTH,
{
    rand::thread_rng().gen::<[u8; SALT_LENGTH]>().to_vec()
}

/// Hashes with `argon2::hash_encoded` under `argon2::Config::default()`.
///
/// Trusted:
/// - the result is `argon2_encoded` of the arguments;
/// - it is there exactly when the password has at most 2^32 - 1 bytes and
///   the salt between 8 and 2^32 - 1;
/// - the credential is not empty: it starts with the name of the algorithm;
/// - `argon2::verify_encoded` finds that the credential matches the
///   password it was made of;
/// - the credential holds its salt, so no other salt gives the same
///   credential, whatever the password.
#[verifier::external_body]
fn argon2_hash(password: &[u8], salt: &[u8]) -> (r: Result<String, argon2::Error>)
    ensures
        match r {
            Ok(encoded) => {
                &&& password@.len() <= 0xFFFF_FFFF && 8 <= salt@.len() <= 0xFFFF_FFFF
                &&& argon2_encoded(password@, salt@) == Some(encoded@)
                &&& encoded@.len() > 0
                &&& argon2_verdict(encoded@, password@) == Some(true)
                &&& forall|other_password: Seq<u8>, other_salt: Seq<u8>|
                    other_salt != salt@ ==> #[trigger] argon2_encoded(other_password, other_salt)
                        != Some(encoded@)
            },
            Err(_) => {
                &&& !(password@.len() <= 0xFFFF_FFFF && 8 <= salt@.len() <= 0xFFFF_FFFF)
                &&& argon2_encoded(password@, salt@).is_none()
            },
        },
{
    argon2::hash_encoded(password, salt, &argon2::Config::default())
}

/// Checks with `argon2::verify_encoded`.
///
/// Trusted: the result is `argon2_verdict` of the arguments. The call takes
/// the memory and the time that the credential itself names as its cost, so
/// a credential must come from the store, never from a client.
#[verifier::external_body]
fn argon2_verify(encoded: &str, password: &[u8]) -> (r: Result<bool, argon2::Error>)
    ensures
        match r {
            Ok(matches) => argon2_verdict(encoded@, password@) == Some(matches),
            Err(_) => argon2_verdict(encoded@, password@).is_none(),
        },
{
    argon2::verify_encoded(encoded, password)
}

/// A stored credential for `password` under `salt`.
pub open spec fn spec_hash(password: Seq<u8>, salt: Seq<u8>) -> Option<Seq<char>> {
    argon2_encoded(password, salt)
}

/// Whether `password` is the one that `stored` was made of. A credential
/// that cannot be read matches nothing.
pub open spec fn spec_verify(stored: Seq<char>, password: Seq<u8>) -> bool {
    argon2_verdict(stored, password) == Some(true)
}

/// `stored` is what hashing `password` under `salt` gives. It is there
/// exactly when the password has at most `MAX_PASSWORD_BYTES` bytes and the
/// salt between 8 and as many. The credential is not empty, verifies the
/// password, and comes of no other salt.
pub open spec fn hashed_with(stored: Option<String>, password: Seq<u8>, salt: Seq<u8>) -> bool {
    let fits = password.len() <= MAX_PASSWORD_BYTES && 8 <= salt.len() <= MAX_PASSWORD_BYTES;
    match stored {
        Some(encoded) => {
            &&& fits
            &&& spec_hash(password, salt) == Some(encoded@)
            &&& encoded@.len() > 0
            &&& spec_verify(encoded@, password)
            &&& forall|other_password: Seq<u8>, other_salt: Seq<u8>|
                other_salt != salt ==> #[trigger] spec_hash(other_password, other_salt) != Some(
                    encoded@,
                )
        },
        None => !fits && spec_hash(password, salt).is_none(),
    }
}

/// `stored` is what hashing `password` under some salt of `SALT_LENGTH`
/// bytes gives: a credential that verifies `password`, or nothing where
/// `password` has more than `MAX_PASSWORD_BYTES` bytes.
pub open spec fn hashes(stored: Option<String>, password: Seq<u8>) -> bool {
    exists|salt: Seq<u8>| salt.len() == SALT_LENGTH && #[trigger] hashed_with(stored, password, salt)
}

/// Hashes `password` under `salt`.
///
/// Succeeds exactly when the password has at most `MAX_PASSWORD_BYTES`
/// bytes and the salt between 8 and as many. The credential that comes back
/// verifies the password.
pub fn hash_with_salt(password: &[u8], salt: &[u8]) -> (stored: Option<String>)
    ensures
        hashed_with(stored, password@, salt@),
{
    match argon2_hash(password, salt) {
        Ok(encoded) => Some(encoded),
        Err(_) => None,
    }
}

/// Hashes `password` under a fresh random salt of `SALT_LENGTH` bytes.
///
/// Succeeds exactly when the password has at most `MAX_PASSWORD_BYTES`
/// bytes. The credential that comes back verifies the password.
pub fn hash(password: &[u8]) -> (stored: Option<String>)
    ensures
        hashes(stored, password@),
        stored.is_some() <==> password@.len() <= MAX_PASSWORD_BYTES,
{
    let salt = random_salt();
    let stored = hash_with_salt(password, salt.as_slice());
    assert(hashed_with(stored, password@, salt@));
    stored
}

/// Whether `password` is the one that `stored` was made of.
pub fn verify(stored: &str, password: &[u8]) -> (matches: bool)
    ensures
        matches == spec_verify(stored@, password@),
{
    match argon2_verify(stored, password) {
        Ok(matches) => matches,
        Err(_) => false,
    }
}

/// A password of at most `MAX_PASSWORD_BYTES` bytes is hashed, and the
/// credential made of it is not empty and verifies it.
///
/// `stored` is what `hash` gave for `password`, `matches` what `verify` gave
/// for the credential and `password`.
pub proof fn lemma_hash_then_verify(stored: Option<String>, matches: bool, password: Seq<u8>)
    requires
        password.len() <= MAX_PASSWORD_BYTES,
        hashes(stored, password),
        stored matches Some(encoded) ==> matches == spec_verify(encoded@, password),
    ensures
        stored matches Some(encoded) && encoded@.len() > 0,
        matches,
{
}

/// Two salts give two credentials, whatever the passwords.
///
/// `first` and `second` are what `hash_with_salt` gave under the two salts,
/// and likewise what `hash` gave where it drew them.
pub proof fn lemma_salts_give_credentials(
    first: Option<String>,
    second: Option<String>,
    first_password: Seq<u8>,
    second_password: Seq<u8>,
    first_salt: Seq<u8>,
    second_salt: Seq<u8>,
)
    requires
        hashed_with(first, first_password, first_salt),
        hashed_with(second, second_password, second_salt),
        first_salt != second_salt,
    ensures
        first matches Some(a) ==> (second matches Some(b) ==> a@ != b@),
{
    if first.is_some() && second.is_some() {
        assert(spec_hash(second_password, second_salt) == Some(second.unwrap()@));
    }
}

} // verus!
