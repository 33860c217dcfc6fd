//! The login form.
use vstd::prelude::*;

verus! {

/// The JSON request for login.
#[derive(Debug)]
pub struct LoginRequest {
    pub email: String,
    pub password: String,
}

impl LoginRequest {
    pub fn new(email: String, password: String) -> (r: Self)
        ensures
            r.email@ == email@,
            r.password@ == password@,
    {
        Self { email, password }
    }
}

/// What the login form does after submitting.
#[derive(Debug, Clone, Copy, PartialEq, Eq, Structural)]
pub enum LoginOutcome {
    /// Logged in: the body holds the access token to keep.
    ReadToken,
    /// The body could not be read.
    BadBody,
    /// The email or the password is wrong.
    WrongCredentials,
    /// The server answered something else.
    ServerError,
    /// The server could not be reached.
    Unreachable,
}

impl LoginOutcome {
    /// The outcome of a submission, from the status the server answered with
    /// (`None` when it could not be reached) and, for a created session,
    /// whether its body could be read.
    pub fn from_status(status: Option<u16>, body_read: bool) -> (r: Self)
        ensures
            r == match status {
                Some(201) => if body_read {
                    LoginOutcome::ReadToken
                } else {
                    LoginOutcome::BadBody
                },
                Some(401) => LoginOutcome::WrongCredentials,
                Some(_) => LoginOutcome::ServerError,
                None => LoginOutcome::Unreachable,
            },
    {
        match status {
            Some(201) => if body_read {
                LoginOutcome::ReadToken
            } else {
                LoginOutcome::BadBody
            },
            Some(401) => LoginOutcome::WrongCredentials,
            Some(_) => LoginOutcome::ServerError,
            None => LoginOutcome::Unreachable,
        }
    }

    pub open spec fn spec_error_message(self) -> Option<Seq<char>> {
        match self {
            LoginOutcome::ReadToken => None,
            LoginOutcome::BadBody => Some("Unexpected data format from server."@),
            LoginOutcome::WrongCredentials => Some("Incorrect email or password."@),
            LoginOutcome::ServerError => Some("A server error occurred. Please try again."@),
            LoginOutcome::Unreachable => Some("Failed to connect to the server."@),
        }
    }

    /// The error message the form shows for this outcome, if any.
    pub fn error_message(&self) -> (m: Option<String>)
        ensures
            match (m, self.spec_error_message()) {
                (Some(a), Some(b)) => a@ == b,
                (None, None) => true,
                _ => false,
            },
    {
        match self {
            LoginOutcome::ReadToken => None,
            LoginOutcome::BadBody => Some(String::from_str("Unexpected data format from server.")),
            LoginOutcome::WrongCredentials => Some(String::from_str("Incorrect email or password.")),
            LoginOutcome::ServerError => Some(
                String::from_str("A server error occurred. Please try again."),
            ),
            LoginOutcome::Unreachable => Some(String::from_str("Failed to connect to the server.")),
        }
    }
}

} // verus!
