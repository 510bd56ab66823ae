//! The outcome of checking a user's credentials, as the request handlers see
//! it.

use vstd::prelude::*;

verus! {

/// Why a credentials check did not succeed, with the text of the underlying
/// cause.
#[derive(Debug)]
pub enum AuthError {
    /// The username is unknown or the password is wrong.
    InvalidCredentials(String),
    /// The check itself could not be carried out.
    UnexpectedError(String),
}

} // verus!
