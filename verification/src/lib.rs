//! Authentication core of a user-management API: bearer-token issuance and
//! verification, extraction of the token from an `Authorization` header,
//! password hashing, and the decision a request middleware takes.

pub mod errors;
pub mod bearer;
pub mod clock;
pub mod jwt;
pub mod password;
pub mod user;
pub mod auth;
pub mod middleware;
pub mod session;
