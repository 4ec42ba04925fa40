//! The failures that an operation of the client can report.

use vstd::prelude::*;
use vstd::string::*;
use crate::text::{decimal, push_digits};

verus! {

/// A failure that the service, or the lack of a token, causes. The text in
/// the first two variants names the operation that failed.
#[derive(Debug, Clone, PartialEq, Eq)]
pub enum AuthError {
    /// The server turned the sign-in down.
    InvalidCredentials(String),
    /// No token is held, or the server turned an authenticated request down.
    NotAuthorized(String),
    /// The server was reached and answered with this failing status code.
    ServerError(u16),
}

/// The mathematical content of an [`AuthError`].
pub enum AuthErrorView {
    InvalidCredentials(Seq<char>),
    NotAuthorized(Seq<char>),
    ServerError(u16),
}

impl View for AuthError {
    type V = AuthErrorView;

    open spec fn view(&self) -> AuthErrorView {
        match self {
            AuthError::InvalidCredentials(context) => AuthErrorView::InvalidCredentials(context@),
            AuthError::NotAuthorized(context) => AuthErrorView::NotAuthorized(context@),
            AuthError::ServerError(code) => AuthErrorView::ServerError(*code),
        }
    }
}

/// Why an operation did not yield its result.
#[derive(Debug, Clone, PartialEq, Eq)]
pub enum ClientError {
    /// One of the classified failures.
    Auth(AuthError),
    /// The server answered with success, but its body could not be decoded
    /// into the shape that the operation expects.
    Decode,
}

/// The mathematical content of a [`ClientError`].
pub enum ClientErrorView {
    Auth(AuthErrorView),
    Decode,
}

impl View for ClientError {
    type V = ClientErrorView;

    open spec fn view(&self) -> ClientErrorView {
        match self {
            ClientError::Auth(e) => ClientErrorView::Auth(e@),
            ClientError::Decode => ClientErrorView::Decode,
        }
    }
}

/// The text that describes an error to the user.
pub open spec fn spec_message(e: AuthErrorView) -> Seq<char> {
    match e {
        AuthErrorView::InvalidCredentials(_) => "invalid credentials"@,
        AuthErrorView::NotAuthorized(_) => "not authorized"@,
        AuthErrorView::ServerError(code) => "server error: "@ + decimal(code as int),
    }
}

/// An outcome with its error, if any, replaced by the error's content.
pub open spec fn outcome<T>(r: Result<T, ClientError>) -> Result<T, ClientErrorView> {
    match r {
        Ok(value) => Ok(value),
        Err(e) => Err(e@),
    }
}

/// The failure of the operation named `context` for want of authorization.
pub open spec fn not_authorized_view(context: Seq<char>) -> ClientErrorView {
    ClientErrorView::Auth(AuthErrorView::NotAuthorized(context))
}

impl AuthError {
    /// The text that describes this error to the user.
    pub fn message(&self) -> (text: String)
        ensures
            text@ == spec_message(self@),
    {
        match self {
            AuthError::InvalidCredentials(_) => String::from_str("invalid credentials"),
            AuthError::NotAuthorized(_) => String::from_str("not authorized"),
            AuthError::ServerError(code) => {
                let mut text: String = String::from_str("server error: ");
                push_digits(&mut text, *code as u32);
                text
            },
        }
    }

    /// The failure of the operation named `context` for want of authorization.
    pub fn not_authorized(context: &str) -> (e: AuthError)
        ensures
            e@ == AuthErrorView::NotAuthorized(context@),
    {
        AuthError::NotAuthorized(String::from_str(context))
    }
}

} // verus!
