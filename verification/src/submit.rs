//! The decisions of the handler that takes a submitted post: who may submit,
//! and what is answered once the post is stored.

use crate::error::NewPostError;
use vstd::prelude::*;
use vstd::string::*;

verus! {

/// Status of the redirect to the login page.
pub const STATUS_SEE_OTHER: u16 = 303;

/// Status of the redirect after a post was stored.
pub const STATUS_FOUND: u16 = 302;

/// What the session says of the caller, before anything of the request is
/// read.
#[derive(Debug, Clone, PartialEq, Eq)]
pub enum Admission<U> {
    /// The caller is known: the request is taken in on their behalf.
    Proceed(U),
    /// Nobody is logged in: the caller is sent to the login page, and nothing
    /// of the request is read or stored.
    RedirectToLogin,
}

/// A redirect: its status and where it leads.
#[derive(Debug, Clone, PartialEq, Eq)]
pub struct Redirect {
    pub status: u16,
    pub location: String,
}

/// A redirect over texts.
pub struct RedirectView {
    pub status: u16,
    pub location: Seq<char>,
}

impl View for Redirect {
    type V = RedirectView;

    open spec fn view(&self) -> RedirectView {
        RedirectView { status: self.status, location: self.location@ }
    }
}

/// Where a caller who is not logged in is sent.
pub open spec fn login_redirect() -> RedirectView {
    RedirectView { status: STATUS_SEE_OTHER, location: "/login"@ }
}

/// Where the caller is sent once the post is stored.
pub open spec fn index_redirect() -> RedirectView {
    RedirectView { status: STATUS_FOUND, location: "/"@ }
}

/// What the session's answer means for the request.
pub open spec fn admission_of<U, E>(identity: Result<Option<U>, E>) -> Result<
    Admission<U>,
    NewPostError,
> {
    match identity {
        Ok(Some(user)) => Ok(Admission::Proceed(user)),
        Ok(None) => Ok(Admission::RedirectToLogin),
        Err(_) => Err(NewPostError::PermissionDenied),
    }
}

/// Decides from the session's answer whether the request is taken in. A
/// session that cannot be read denies permission; one without a user sends
/// the caller to the login page.
pub fn decide_admission<U, E>(identity: Result<Option<U>, E>) -> (r: Result<Admission<U>, NewPostError>)
    ensures
        r == admission_of(identity),
{
    match identity {
        Ok(Some(user)) => Ok(Admission::Proceed(user)),
        Ok(None) => Ok(Admission::RedirectToLogin),
        Err(_) => Err(NewPostError::PermissionDenied),
    }
}

/// The redirect to the login page.
pub fn redirect_to_login() -> (r: Redirect)
    ensures
        r@ == login_redirect(),
{
    Redirect { status: STATUS_SEE_OTHER, location: String::from_str("/login") }
}

/// What the store's answer means for the request.
pub open spec fn conclusion_of<E>(stored: Result<(), E>) -> Result<RedirectView, NewPostError> {
    match stored {
        Ok(_) => Ok(index_redirect()),
        Err(_) => Err(NewPostError::QueryError),
    }
}

/// Concludes the request from the store's answer: a redirect to the index
/// once the post is stored, a query error where it could not be.
pub fn conclude<E>(stored: Result<(), E>) -> (r: Result<Redirect, NewPostError>)
    ensures
        match conclusion_of(stored) {
            Ok(view) => r matches Ok(redirect) && redirect@ == view,
            Err(error) => r matches Err(e) && e == error,
        },
{
    match stored {
        Ok(_) => Ok(Redirect { status: STATUS_FOUND, location: String::from_str("/") }),
        Err(_) => Err(NewPostError::QueryError),
    }
}

} // verus!
