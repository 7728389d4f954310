//! User records, and the decisions taken when one is created or logs in.

use crate::clock::utc_now;
use crate::errors::UserError;
use crate::password;
use chrono::NaiveDateTime;
use vstd::prelude::*;
use vstd::utf8::encode_utf8;

verus! {

/// A user as the store holds it. `password` is the stored credential, never
/// the password itself.
pub struct User {
    /// A UUID as a 128-bit number.
    pub id: u128,
    pub email: String,
    pub name: String,
    pub password: String,
    pub created_at: NaiveDateTime,
}

/// What a client sends to sign up.
#[derive(Debug)]
pub struct NewUser {
    pub email: String,
    pub name: String,
    pub password: String,
}

/// What a client sends to log in.
pub struct LoginData {
    pub email: String,
    pub password: String,
}

/// Why the store could not do what it was asked.
#[derive(Debug, Clone, Copy, PartialEq, Eq)]
pub enum StoreError {
    /// No record matches.
    NotFound,
    /// A record with the same email is there already.
    UniqueViolation,
    /// Anything else.
    Other,
}

/// A fresh random id: `uuid::Uuid::new_v4`, as a number by `as_u128`.
///
/// Nothing is claimed of the value. The call panics where the system's
/// source of random bytes fails.
#[verifier::external_body]
fn random_user_id() -> u128 {
    uuid::Uuid::new_v4().as_u128()
}

impl User {
    /// Whether `password` logs this user in: the stored credential is not
    /// empty and was made of `password`.
    pub open spec fn spec_accepts(&self, password: Seq<char>) -> bool {
        self.password@.len() > 0 && password::spec_verify(self.password@, encode_utf8(password))
    }

    /// A new record for `user`, with a fresh id and the current time. The
    /// password is still the one the client sent: `hash_password` replaces it.
    pub fn from(user: NewUser) -> (record: User)
        ensures
            record.email == user.email,
            record.name == user.name,
            record.password == user.password,
    {
        User {
            id: random_user_id(),
            email: user.email,
            name: user.name,
            password: user.password,
            created_at: utc_now().0,
        }
    }

    /// Replaces the password by a credential made of it under a fresh salt.
    ///
    /// Fails with `InternalError`, and changes nothing, exactly when the
    /// password has more than `MAX_PASSWORD_BYTES` bytes. After success the
    /// credential verifies the password it replaced.
    pub fn hash_password(&mut self) -> (r: Result<(), UserError>)
        ensures
            final(self).id == old(self).id,
            final(self).email == old(self).email,
            final(self).name == old(self).name,
            final(self).created_at == old(self).created_at,
            match r {
                Ok(_) => {
                    &&& encode_utf8(old(self).password@).len() <= password::MAX_PASSWORD_BYTES
                    &&& password::hashes(
                        Some(final(self).password),
                        encode_utf8(old(self).password@),
                    )
                    &&& final(self).spec_accepts(old(self).password@)
                },
                Err(e) => {
                    &&& e == UserError::InternalError
                    &&& encode_utf8(old(self).password@).len() > password::MAX_PASSWORD_BYTES
                    &&& final(self).password == old(self).password
                },
            },
    {
        match password::hash(self.password.as_str().as_bytes()) {
            Some(stored) => {
                self.password = stored;
                Ok(())
            },
            None => Err(UserError::InternalError),
        }
    }

    /// Whether `password` is the one this user's credential was made of.
    /// A credential that cannot be read matches nothing.
    pub fn verify_password(&self, password: &[u8]) -> (matches: bool)
        ensures
            matches == password::spec_verify(self.password@, password@),
    {
        password::verify(self.password.as_str(), password)
    }

    /// Decides a login, given the record that the store found under the
    /// email of `login_data`, if it found one.
    ///
    /// The user comes back exactly when there is one, its credential is not
    /// empty and matches the password. Everything else is
    /// `InvalidCredentials`, whether the user is unknown or the password
    /// wrong.
    pub fn login(found: Option<User>, login_data: LoginData) -> (r: Result<User, UserError>)
        ensures
            match r {
                Ok(user) => found == Some(user) && user.spec_accepts(login_data.password@),
                Err(e) => {
                    &&& e == UserError::InvalidCredentials
                    &&& found matches Some(user) ==> !user.spec_accepts(login_data.password@)
                },
            },
    {
        match found {
            Some(user) => {
                if user.password.as_str().is_empty() {
                    return Err(UserError::InvalidCredentials);
                }
                if user.verify_password(login_data.password.as_str().as_bytes()) {
                    Ok(user)
                } else {
                    Err(UserError::InvalidCredentials)
                }
            },
            None => Err(UserError::InvalidCredentials),
        }
    }

    /// Prepares the record to store for a new user: a fresh id, the current
    /// time, and the password replaced by a credential made of it.
    ///
    /// Fails with `InternalError` exactly when the password has more than
    /// `MAX_PASSWORD_BYTES` bytes.
    pub fn create(user_data: NewUser) -> (r: Result<User, UserError>)
        ensures
            match r {
                Ok(user) => {
                    &&& user.email == user_data.email
                    &&& user.name == user_data.name
                    &&& password::hashes(Some(user.password), encode_utf8(user_data.password@))
                    &&& user.spec_accepts(user_data.password@)
                    &&& encode_utf8(user_data.password@).len() <= password::MAX_PASSWORD_BYTES
                },
                Err(e) => {
                    &&& e == UserError::InternalError
                    &&& encode_utf8(user_data.password@).len() > password::MAX_PASSWORD_BYTES
                },
            },
    {
        let mut user = User::from(user_data);
        match user.hash_password() {
            Ok(_) => Ok(user),
            Err(e) => Err(e),
        }
    }

    /// What the caller is told after the store was asked to insert `email`'s
    /// record: a duplicate is `EmailAlreadyExistsError`, any other failure
    /// `InternalError`.
    pub fn inserted(outcome: Result<User, StoreError>, email: String) -> (r: Result<
        User,
        UserError,
    >)
        ensures
            r == (match outcome {
                Ok(user) => Ok::<User, UserError>(user),
                Err(StoreError::UniqueViolation) => Err(
                    UserError::EmailAlreadyExistsError { email },
                ),
                Err(_) => Err(UserError::InternalError),
            }),
    {
        match outcome {
            Ok(user) => Ok(user),
            Err(StoreError::UniqueViolation) => Err(UserError::EmailAlreadyExistsError { email }),
            Err(_) => Err(UserError::InternalError),
        }
    }

    /// What the caller is told after the store was asked for one user: a
    /// missing record is `UserNotFoundError`, any other failure
    /// `InternalError`.
    pub fn get(outcome: Result<User, StoreError>) -> (r: Result<User, UserError>)
        ensures
            r == (match outcome {
                Ok(user) => Ok::<User, UserError>(user),
                Err(StoreError::NotFound) => Err(UserError::UserNotFoundError),
                Err(_) => Err(UserError::InternalError),
            }),
    {
        match outcome {
            Ok(user) => Ok(user),
            Err(StoreError::NotFound) => Err(UserError::UserNotFoundError),
            Err(_) => Err(UserError::InternalError),
        }
    }

    /// What the caller is told after the store was asked for all users: any
    /// failure is `InternalError`.
    pub fn get_all(outcome: Result<Vec<User>, StoreError>) -> (r: Result<Vec<User>, UserError>)
        ensures
            r == (match outcome {
                Ok(users) => Ok::<Vec<User>, UserError>(users),
                Err(_) => Err(UserError::InternalError),
            }),
    {
        match outcome {
            Ok(users) => Ok(users),
            Err(_) => Err(UserError::InternalError),
        }
    }
}

} // verus!
