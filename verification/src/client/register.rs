//! The registration form.
use crate::domain::user::{
    email_address_is_valid, email_is_valid, email_outcome, has_digit, has_lower, has_special, has_upper, PASSWORD_MAX_LENGTH,
    PASSWORD_MIN_LENGTH, USERNAME_MAX_LENGTH, USERNAME_MIN_LENGTH, password_outcome,
    username_outcome, UserValidationError,
};
use crate::text::{concat, decimal, decimal_string, trim_and_count, trimmed};
use vstd::prelude::*;

verus! {

/// `"{head}{n}{tail}"`.
pub open spec fn with_number(head: Seq<char>, n: nat, tail: Seq<char>) -> Seq<char> {
    head + decimal(n) + tail
}

fn number_message(head: &str, n: usize, tail: &str) -> (s: String)
    ensures
        s@ == with_number(head@, n as nat, tail@),
{
    let s = String::from_str(head);
    let s = concat(s, decimal_string(n).as_str());
    concat(s, tail)
}

/// What the form makes of a username: the trimmed text, or the message
/// shown for it.
pub open spec fn username_check(raw: Seq<char>) -> Result<Seq<char>, Seq<char>> {
    let t = trimmed(raw);
    if t.len() < USERNAME_MIN_LENGTH {
        Err(
            with_number(
                "Username length must be more than "@,
                USERNAME_MIN_LENGTH as nat,
                " characters long."@,
            ),
        )
    } else if t.len() > USERNAME_MAX_LENGTH {
        Err(
            with_number(
                "Username length must be less than "@,
                USERNAME_MAX_LENGTH as nat,
                " characters long."@,
            ),
        )
    } else {
        Ok(t)
    }
}

/// What the form makes of an email address.
pub open spec fn email_check(raw: Seq<char>) -> Result<Seq<char>, Seq<char>> {
    let t = trimmed(raw);
    if email_address_is_valid(t) {
        Ok(t)
    } else {
        Err("Invalid email address."@)
    }
}

/// What the form makes of a password: the first rule it breaks, in the order
/// length, upper case, lower case, special character, digit.
pub open spec fn password_check(raw: Seq<char>) -> Result<Seq<char>, Seq<char>> {
    let t = trimmed(raw);
    if t.len() < PASSWORD_MIN_LENGTH {
        Err(
            with_number(
                "Password length must be more than "@,
                PASSWORD_MIN_LENGTH as nat,
                " characters long."@,
            ),
        )
    } else if t.len() > PASSWORD_MAX_LENGTH {
        Err(
            with_number(
                "Password length must be less than "@,
                PASSWORD_MAX_LENGTH as nat,
                " characters long."@,
            ),
        )
    } else if !has_upper(t) {
        Err("Password must have at least one uppercase character."@)
    } else if !has_lower(t) {
        Err("Password must have at least one lowercase character."@)
    } else if !has_special(t) {
        Err("Password must have at least one special character."@)
    } else if !has_digit(t) {
        Err("Password must have at least one digit."@)
    } else {
        Ok(t)
    }
}

/// `r` is the string outcome `s`.
pub open spec fn same_text_outcome(r: Result<String, String>, s: Result<Seq<char>, Seq<char>>) -> bool {
    match (r, s) {
        (Ok(a), Ok(b)) => a@ == b,
        (Err(a), Err(b)) => a@ == b,
        _ => false,
    }
}

/// The JSON request for registering.
#[derive(Debug)]
pub struct RegisterRequest {
    pub username: String,
    pub email: String,
    pub password: String,
}

impl RegisterRequest {
    pub fn parse_username(username: String) -> (r: Result<String, String>)
        ensures
            same_text_outcome(r, username_check(username@)),
    {
        let (username, count) = trim_and_count(username.as_str());
        if count < USERNAME_MIN_LENGTH {
            Err(
                number_message(
                    "Username length must be more than ",
                    USERNAME_MIN_LENGTH,
                    " characters long.",
                ),
            )
        } else if count > USERNAME_MAX_LENGTH {
            Err(
                number_message(
                    "Username length must be less than ",
                    USERNAME_MAX_LENGTH,
                    " characters long.",
                ),
            )
        } else {
            Ok(username)
        }
    }

    pub fn parse_email(email: String) -> (r: Result<String, String>)
        ensures
            same_text_outcome(r, email_check(email@)),
    {
        let (email, _) = trim_and_count(email.as_str());
        if email_is_valid(email.as_str()) {
            Ok(email)
        } else {
            Err(String::from_str("Invalid email address."))
        }
    }

    pub fn parse_password(password: String) -> (r: Result<String, String>)
        ensures
            same_text_outcome(r, password_check(password@)),
    {
        let (password, count) = trim_and_count(password.as_str());
        if count < PASSWORD_MIN_LENGTH {
            return Err(
                number_message(
                    "Password length must be more than ",
                    PASSWORD_MIN_LENGTH,
                    " characters long.",
                ),
            );
        } else if count > PASSWORD_MAX_LENGTH {
            return Err(
                number_message(
                    "Password length must be less than ",
                    PASSWORD_MAX_LENGTH,
                    " characters long.",
                ),
            );
        }
        let (upper, lower, special, digit) = crate::domain::user::character_classes(
            password.as_str(),
        );
        if !upper {
            return Err(String::from_str("Password must have at least one uppercase character."));
        }
        if !lower {
            return Err(String::from_str("Password must have at least one lowercase character."));
        }
        if !special {
            return Err(String::from_str("Password must have at least one special character."));
        }
        if !digit {
            return Err(String::from_str("Password must have at least one digit."));
        }
        Ok(password)
    }

    /// The request to send, or the message of the first field that is
    /// refused, in the order username, email, password.
    pub fn parse(username: String, email: String, password: String) -> (r: Result<Self, String>)
        ensures
            match (username_check(username@), email_check(email@), password_check(password@)) {
                (Err(m), _, _) => r matches Err(s) && s@ == m,
                (Ok(_), Err(m), _) => r matches Err(s) && s@ == m,
                (Ok(_), Ok(_), Err(m)) => r matches Err(s) && s@ == m,
                (Ok(u), Ok(e), Ok(p)) => r matches Ok(q) && q.username@ == u && q.email@ == e
                    && q.password@ == p,
            },
    {
        let username = match Self::parse_username(username) {
            Ok(u) => u,
            Err(m) => return Err(m),
        };
        let email = match Self::parse_email(email) {
            Ok(e) => e,
            Err(m) => return Err(m),
        };
        let password = match Self::parse_password(password) {
            Ok(p) => p,
            Err(m) => return Err(m),
        };
        Ok(Self { username, email, password })
    }
}

/// What the registration form shows after submitting.
#[derive(Debug, Clone, Copy, PartialEq, Eq, Structural)]
pub enum RegisterOutcome {
    /// The account was created: the form is cleared and success is shown.
    Created,
    /// The email is taken.
    EmailInUse,
    /// The server answered something else.
    ServerError,
    /// The server could not be reached.
    Unreachable,
}

impl RegisterOutcome {
    /// The outcome of a submission, from the status the server answered
    /// with (`None` when it could not be reached).
    pub fn from_status(status: Option<u16>) -> (r: Self)
        ensures
            r == match status {
                Some(201) => RegisterOutcome::Created,
                Some(409) => RegisterOutcome::EmailInUse,
                Some(_) => RegisterOutcome::ServerError,
                None => RegisterOutcome::Unreachable,
            },
    {
        match status {
            Some(201) => RegisterOutcome::Created,
            Some(409) => RegisterOutcome::EmailInUse,
            Some(_) => RegisterOutcome::ServerError,
            None => RegisterOutcome::Unreachable,
        }
    }

    pub open spec fn spec_error_message(self) -> Option<Seq<char>> {
        match self {
            RegisterOutcome::Created => None,
            RegisterOutcome::EmailInUse => Some("Email is already in use."@),
            RegisterOutcome::ServerError => Some("A server error occurred. Please try again."@),
            RegisterOutcome::Unreachable => Some("Failed to connect to the server."@),
        }
    }

    /// The error message the form shows for this outcome, if any.
    pub fn error_message(&self) -> (m: Option<String>)
        ensures
            match (m, self.spec_error_message()) {
                (Some(a), Some(b)) => a@ == b,
                (None, None) => true,
                _ => false,
            },
    {
        match self {
            RegisterOutcome::Created => None,
            RegisterOutcome::EmailInUse => Some(String::from_str("Email is already in use.")),
            RegisterOutcome::ServerError => Some(
                String::from_str("A server error occurred. Please try again."),
            ),
            RegisterOutcome::Unreachable => Some(String::from_str("Failed to connect to the server.")),
        }
    }
}

/// The registration form checks each field as the server does: a field the
/// form accepts, the server accepts with the same text, and a field the
/// form refuses, the server refuses.
pub proof fn register_form_agrees_with_server(
    name: Seq<char>,
    email: Seq<char>,
    password: Seq<char>,
)
    ensures
        username_check(name) is Ok <==> username_outcome(name) is Ok,
        username_check(name) matches Ok(t) ==> username_outcome(name) == Ok::<
            Seq<char>,
            UserValidationError,
        >(t),
        email_check(email) is Ok <==> email_outcome(email) is Ok,
        email_check(email) matches Ok(t) ==> email_outcome(email) == Ok::<
            Seq<char>,
            UserValidationError,
        >(t),
        password_check(password) is Ok <==> password_outcome(password) is Ok,
        password_check(password) matches Ok(t) ==> password_outcome(password) == Ok::<
            Seq<char>,
            UserValidationError,
        >(t),
{
}

/// The registration form accepts an email address exactly when, trimmed, it
/// is one that `email_address` holds valid, and sends it trimmed.
pub proof fn register_form_email_accepted_exactly_when_valid(raw: Seq<char>)
    ensures
        email_check(raw) is Ok <==> email_address_is_valid(trimmed(raw)),
        email_check(raw) matches Ok(t) ==> t == trimmed(raw),
{
}

} // verus!
