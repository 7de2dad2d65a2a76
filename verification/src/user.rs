//! Registration of an account: the fields as they are submitted, and the
//! decisions of the handler that takes them.

use crate::error::NewUserError;
use vstd::prelude::*;

verus! {

/// Status of the answer to a registration that was stored.
pub const STATUS_OK: u16 = 200;

/// What a visitor submits to register an account.
#[derive(Debug, Clone, PartialEq, Eq)]
pub struct NewUserForm {
    pub username: String,
    pub email: String,
    pub password: String,
    pub password_ver: String,
}

/// What the validation of the fields means for the registration: what was
/// validated goes on, and a refusal is a parse error.
pub open spec fn fields_outcome<T, E>(validated: Result<T, E>) -> Result<T, NewUserError> {
    match validated {
        Ok(user) => Ok(user),
        Err(_) => Err(NewUserError::ParseError),
    }
}

/// Takes the answer of the validation of the submitted fields.
pub fn accept_fields<T, E>(validated: Result<T, E>) -> (r: Result<T, NewUserError>)
    ensures
        r == fields_outcome(validated),
{
    match validated {
        Ok(user) => Ok(user),
        Err(_) => Err(NewUserError::ParseError),
    }
}

/// What the store's answer means for the registration: the status of
/// success once the account is stored, a query error where it could not be.
pub open spec fn registration_outcome<E>(stored: Result<(), E>) -> Result<u16, NewUserError> {
    match stored {
        Ok(_) => Ok(STATUS_OK),
        Err(_) => Err(NewUserError::QueryError),
    }
}

/// Concludes a registration from the store's answer.
pub fn conclude_registration<E>(stored: Result<(), E>) -> (r: Result<u16, NewUserError>)
    ensures
        r == registration_outcome(stored),
{
    match stored {
        Ok(_) => Ok(STATUS_OK),
        Err(_) => Err(NewUserError::QueryError),
    }
}

} // verus!
