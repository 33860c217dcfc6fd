//! Users, their credentials and their session tokens.
use crate::clock::Timestamp;
use crate::ids::Uuid;
use crate::text::{
    bool_string, bool_text, bounds_message, bounds_string, concat,
    chars_of, char_is_lowercase, char_is_uppercase, is_ascii_digit, is_ascii_punctuation,
    is_digit, is_lowercase, is_punctuation, is_uppercase, str_equals, trim, trimmed,
};
use vstd::prelude::*;

verus! {

#[verifier::external_type_specification]
#[verifier::external_body]
pub struct ExAnyhowError(anyhow::Error);

/// Possible errors from user validation.
#[derive(Debug, Clone, Copy, PartialEq, Eq, Structural)]
pub enum UserValidationError {
    InvalidEmailAddress,
    InvalidUsernameLength { min: usize, max: usize, actual: usize },
    InvalidPasswordLength { min: usize, max: usize, actual: usize },
    MissingCharacter { upper: bool, lower: bool, special: bool, digit: bool },
}

/// User related errors.
#[derive(Debug)]
pub enum UserError {
    InvalidRegisterRequest(Vec<UserValidationError>),
    EmailAlreadyExists(String),
    UserNotFoundByEmail(String),
    WrongCredentials,
    InvalidToken,
    InvalidTokenType,
    TokenNotFoundById(Uuid),
    Unknown(anyhow::Error),
}

/// `r` and `s` agree: both succeed, `r` with a value whose view is what `s`
/// holds, or both fail with the same error.
pub open spec fn same_outcome<T: View, E>(r: Result<T, E>, s: Result<T::V, E>) -> bool {
    match (r, s) {
        (Ok(a), Ok(b)) => a@ == b,
        (Err(a), Err(b)) => a == b,
        _ => false,
    }
}

/// The errors of a result, as a sequence of none or one.
pub open spec fn error_of<T, E>(r: Result<T, E>) -> Seq<E> {
    match r {
        Ok(_) => Seq::empty(),
        Err(e) => seq![e],
    }
}

pub const USERNAME_MIN_LENGTH: usize = 8;
pub const USERNAME_MAX_LENGTH: usize = 128;
pub const PASSWORD_MIN_LENGTH: usize = 8;
pub const PASSWORD_MAX_LENGTH: usize = 24;

/// What parsing `raw` as a username gives: the trimmed text, when its length
/// in characters lies within the bounds.
pub open spec fn username_outcome(raw: Seq<char>) -> Result<Seq<char>, UserValidationError> {
    let t = trimmed(raw);
    if t.len() < USERNAME_MIN_LENGTH || t.len() > USERNAME_MAX_LENGTH {
        Err(
            UserValidationError::InvalidUsernameLength {
                min: USERNAME_MIN_LENGTH,
                max: USERNAME_MAX_LENGTH,
                actual: t.len() as usize,
            },
        )
    } else {
        Ok(t)
    }
}

/// Whether `address` is a valid email address, as
/// `email_address::EmailAddress::is_valid` decides.
pub uninterp spec fn email_address_is_valid(address: Seq<char>) -> bool;

/// Calls `email_address::EmailAddress::is_valid`; the answer is the named one.
#[verifier::external_body]
pub(crate) fn email_is_valid(address: &str) -> (b: bool)
    ensures
        b == email_address_is_valid(address@),
{
    email_address::EmailAddress::is_valid(address)
}

/// What parsing `raw` as an email address gives: the trimmed text, when it
/// is a valid address.
pub open spec fn email_outcome(raw: Seq<char>) -> Result<Seq<char>, UserValidationError> {
    let t = trimmed(raw);
    if email_address_is_valid(t) {
        Ok(t)
    } else {
        Err(UserValidationError::InvalidEmailAddress)
    }
}

pub open spec fn has_upper(s: Seq<char>) -> bool {
    exists|i: int| 0 <= i < s.len() && #[trigger] char_is_uppercase(s[i])
}

pub open spec fn has_lower(s: Seq<char>) -> bool {
    exists|i: int| 0 <= i < s.len() && #[trigger] char_is_lowercase(s[i])
}

pub open spec fn has_special(s: Seq<char>) -> bool {
    exists|i: int| 0 <= i < s.len() && #[trigger] is_ascii_punctuation(s[i])
}

pub open spec fn has_digit(s: Seq<char>) -> bool {
    exists|i: int| 0 <= i < s.len() && #[trigger] is_ascii_digit(s[i])
}

/// What parsing `raw` as a password gives: the trimmed text, when its length
/// lies within the bounds and it holds an upper-case and a lower-case letter,
/// an ASCII punctuation character and an ASCII digit.
pub open spec fn password_outcome(raw: Seq<char>) -> Result<Seq<char>, UserValidationError> {
    let t = trimmed(raw);
    if t.len() < PASSWORD_MIN_LENGTH || t.len() > PASSWORD_MAX_LENGTH {
        Err(
            UserValidationError::InvalidPasswordLength {
                min: PASSWORD_MIN_LENGTH,
                max: PASSWORD_MAX_LENGTH,
                actual: t.len() as usize,
            },
        )
    } else if !has_upper(t) || !has_lower(t) || !has_special(t) || !has_digit(t) {
        Err(
            UserValidationError::MissingCharacter {
                upper: has_upper(t),
                lower: has_lower(t),
                special: has_special(t),
                digit: has_digit(t),
            },
        )
    } else {
        Ok(t)
    }
}

/// Valid username.
#[derive(Debug)]
pub struct Username {
    name: String,
}

impl View for Username {
    type V = Seq<char>;

    closed spec fn view(&self) -> Seq<char> {
        self.name@
    }
}

impl Username {
    pub fn parse(name: String) -> (r: Result<Self, UserValidationError>)
        ensures
            same_outcome(r, username_outcome(name@)),
    {
        let name = trim(name.as_str());
        let len = chars_of(name.as_str()).len();
        if len < USERNAME_MIN_LENGTH || len > USERNAME_MAX_LENGTH {
            return Err(
                UserValidationError::InvalidUsernameLength {
                    min: USERNAME_MIN_LENGTH,
                    max: USERNAME_MAX_LENGTH,
                    actual: len,
                },
            );
        }
        Ok(Self { name })
    }

    pub fn as_ref(&self) -> (s: &str)
        ensures
            s@ == self@,
    {
        self.name.as_str()
    }

    /// The name, given back as a `String`.
    pub fn into_string(self) -> (s: String)
        ensures
            s@ == self@,
    {
        self.name
    }
}

/// Valid user email.
#[derive(Debug)]
pub struct UserEmail {
    email: String,
}

impl View for UserEmail {
    type V = Seq<char>;

    closed spec fn view(&self) -> Seq<char> {
        self.email@
    }
}

impl UserEmail {
    pub fn parse(email: String) -> (r: Result<Self, UserValidationError>)
        ensures
            same_outcome(r, email_outcome(email@)),
    {
        let email = trim(email.as_str());
        if email_is_valid(email.as_str()) {
            return Ok(Self { email });
        }
        Err(UserValidationError::InvalidEmailAddress)
    }

    pub fn as_ref(&self) -> (s: &str)
        ensures
            s@ == self@,
    {
        self.email.as_str()
    }

    /// The address, given back as a `String`.
    pub fn into_string(self) -> (s: String)
        ensures
            s@ == self@,
    {
        self.email
    }
}

/// The four character classes a password must hold, as found in `s`:
/// (upper, lower, special, digit).
pub fn character_classes(s: &str) -> (r: (bool, bool, bool, bool))
    ensures
        r == (has_upper(s@), has_lower(s@), has_special(s@), has_digit(s@)),
{
    let v = chars_of(s);
    let mut upper = false;
    let mut lower = false;
    let mut special = false;
    let mut digit = false;
    let mut k: usize = 0;
    while k < v.len()
        invariant
            k <= v@.len(),
            v@ == s@,
            upper == exists|i: int| 0 <= i < k && #[trigger] char_is_uppercase(v@[i]),
            lower == exists|i: int| 0 <= i < k && #[trigger] char_is_lowercase(v@[i]),
            special == exists|i: int| 0 <= i < k && #[trigger] is_ascii_punctuation(v@[i]),
            digit == exists|i: int| 0 <= i < k && #[trigger] is_ascii_digit(v@[i]),
        decreases v.len() - k,
    {
        let c = v[k];
        if is_uppercase(c) {
            upper = true;
        }
        if is_lowercase(c) {
            lower = true;
        }
        if is_punctuation(c) {
            special = true;
        }
        if is_digit(c) {
            digit = true;
        }
        k = k + 1;
    }
    (upper, lower, special, digit)
}

/// Valid not hashed user password.
#[derive(Debug)]
pub struct UserPassword {
    password: String,
}

impl View for UserPassword {
    type V = Seq<char>;

    closed spec fn view(&self) -> Seq<char> {
        self.password@
    }
}

impl UserPassword {
    pub fn parse(password: String) -> (r: Result<Self, UserValidationError>)
        ensures
            same_outcome(r, password_outcome(password@)),
    {
        let password = trim(password.as_str());
        let len = chars_of(password.as_str()).len();
        if len < PASSWORD_MIN_LENGTH || len > PASSWORD_MAX_LENGTH {
            return Err(
                UserValidationError::InvalidPasswordLength {
                    min: PASSWORD_MIN_LENGTH,
                    max: PASSWORD_MAX_LENGTH,
                    actual: len,
                },
            );
        }
        let (upper, lower, special, digit) = character_classes(password.as_str());
        if !upper || !lower || !special || !digit {
            return Err(UserValidationError::MissingCharacter { upper, lower, special, digit });
        }
        Ok(Self { password })
    }

    pub fn as_ref(&self) -> (s: &str)
        ensures
            s@ == self@,
    {
        self.password.as_str()
    }
}

/// Valid user with hashed password.
#[derive(Debug)]
pub struct User {
    pub id: Uuid,
    pub name: Username,
    pub email: UserEmail,
    pub password: String,
}

impl User {
    pub fn new(id: Uuid, name: Username, email: UserEmail, password: String) -> (u: Self)
        ensures
            u == (User { id, name, email, password }),
            u.id == id,
            u.name@ == name@,
            u.email@ == email@,
            u.password@ == password@,
    {
        Self { id, name, email, password }
    }

    pub fn parse(id: Uuid, name: String, email: String, password: String) -> (r: Result<
        Self,
        UserError,
    >)
        ensures
            ({
                let errs = error_of(username_outcome(name@)) + error_of(email_outcome(email@));
                if errs.len() == 0 {
                    &&& r matches Ok(u)
                    &&& u.id == id
                    &&& u.name@ == trimmed(name@)
                    &&& u.email@ == trimmed(email@)
                    &&& u.password@ == password@
                } else {
                    r matches Err(UserError::InvalidRegisterRequest(v)) && v@ == errs
                }
            }),
    {
        let mut errs: Vec<UserValidationError> = Vec::new();
        let name = match Username::parse(name) {
            Ok(n) => Some(n),
            Err(e) => {
                errs.push(e);
                None
            },
        };
        let email = match UserEmail::parse(email) {
            Ok(m) => Some(m),
            Err(e) => {
                errs.push(e);
                None
            },
        };
        if errs.len() != 0 {
            return Err(UserError::InvalidRegisterRequest(errs));
        }
        match (name, email) {
            (Some(name), Some(email)) => Ok(Self { id, name, email, password }),
            _ => Err(UserError::InvalidRegisterRequest(errs)),
        }
    }
}

/// The validation errors of a registration with these three inputs, in the
/// order name, email, password.
pub open spec fn register_errors(name: Seq<char>, email: Seq<char>, password: Seq<char>) -> Seq<
    UserValidationError,
> {
    error_of(username_outcome(name)) + error_of(email_outcome(email)) + error_of(
        password_outcome(password),
    )
}

/// Request used to register a user.
#[derive(Debug)]
pub struct RegisterRequest {
    pub name: Username,
    pub email: UserEmail,
    pub password: UserPassword,
}

impl RegisterRequest {
    pub fn parse(name: String, email: String, password: String) -> (r: Result<Self, UserError>)
        ensures
            ({
                let errs = register_errors(name@, email@, password@);
                if errs.len() == 0 {
                    &&& r matches Ok(q)
                    &&& q.name@ == trimmed(name@)
                    &&& q.email@ == trimmed(email@)
                    &&& q.password@ == trimmed(password@)
                } else {
                    r matches Err(UserError::InvalidRegisterRequest(v)) && v@ == errs
                }
            }),
    {
        let mut errs: Vec<UserValidationError> = Vec::new();
        let name = match Username::parse(name) {
            Ok(n) => Some(n),
            Err(e) => {
                errs.push(e);
                None
            },
        };
        let email = match UserEmail::parse(email) {
            Ok(m) => Some(m),
            Err(e) => {
                errs.push(e);
                None
            },
        };
        let password = match UserPassword::parse(password) {
            Ok(p) => Some(p),
            Err(e) => {
                errs.push(e);
                None
            },
        };
        if errs.len() != 0 {
            return Err(UserError::InvalidRegisterRequest(errs));
        }
        match (name, email, password) {
            (Some(name), Some(email), Some(password)) => Ok(Self { name, email, password }),
            _ => Err(UserError::InvalidRegisterRequest(errs)),
        }
    }
}

/// Enum representing token types.
#[derive(Debug, Clone, Copy, PartialEq, Eq, Structural)]
pub enum TokenKind {
    Access,
    Refresh,
}

/// The name a token kind is written by.
pub open spec fn token_kind_text(kind: TokenKind) -> Seq<char> {
    match kind {
        TokenKind::Access => "access"@,
        TokenKind::Refresh => "refresh"@,
    }
}

/// What reading `value` as a token kind gives.
pub open spec fn token_kind_outcome(value: Seq<char>) -> Option<TokenKind> {
    if value == "access"@ {
        Some(TokenKind::Access)
    } else if value == "refresh"@ {
        Some(TokenKind::Refresh)
    } else {
        None
    }
}

impl TokenKind {
    pub fn as_ref(&self) -> (s: &'static str)
        ensures
            s@ == token_kind_text(*self),
    {
        match self {
            TokenKind::Access => "access",
            TokenKind::Refresh => "refresh",
        }
    }

    pub fn try_from(value: &str) -> (r: Result<Self, UserError>)
        ensures
            match token_kind_outcome(value@) {
                Some(k) => r matches Ok(j) && j == k,
                None => r matches Err(UserError::InvalidTokenType),
            },
    {
        if str_equals(value, "access") {
            Ok(TokenKind::Access)
        } else if str_equals(value, "refresh") {
            Ok(TokenKind::Refresh)
        } else {
            Err(UserError::InvalidTokenType)
        }
    }
}

/// Valid user token.
#[derive(Debug, Clone, Copy, PartialEq, Eq, Structural)]
pub struct Token {
    pub id: Uuid,
    pub kind: TokenKind,
    pub expiry: Timestamp,
    pub user_id: Uuid,
}

impl Token {
    pub fn new(id: Uuid, kind: TokenKind, expiry: Timestamp, user_id: Uuid) -> (t: Self)
        ensures
            t == (Token { id, kind, expiry, user_id }),
    {
        Self { id, kind, expiry, user_id }
    }
}

/// Request used to log in.
#[derive(Debug)]
pub struct LoginRequest {
    pub email: String,
    pub password: String,
}

impl LoginRequest {
    pub fn new(email: String, password: String) -> (r: Self)
        ensures
            r.email@ == email@,
            r.password@ == password@,
    {
        Self { email, password }
    }
}

/// Struct holding refresh and access token.
#[derive(Debug)]
pub struct Tokens {
    pub access_token: String,
    pub refresh_token: String,
}

impl Tokens {
    pub fn new(access_token: String, refresh_token: String) -> (t: Self)
        ensures
            t == (Tokens { access_token, refresh_token }),
            t.access_token@ == access_token@,
            t.refresh_token@ == refresh_token@,
    {
        Self { access_token, refresh_token }
    }
}

impl UserValidationError {
    /// The text the error is written as.
    pub open spec fn spec_message(self) -> Seq<char> {
        match self {
            UserValidationError::InvalidEmailAddress => "Invalid email address"@,
            UserValidationError::InvalidUsernameLength { min, max, actual } => bounds_message(
                "Invalid username length "@,
                min as nat,
                max as nat,
                actual as nat,
            ),
            UserValidationError::InvalidPasswordLength { min, max, actual } => bounds_message(
                "Invalid password length "@,
                min as nat,
                max as nat,
                actual as nat,
            ),
            UserValidationError::MissingCharacter { upper, lower, special, digit } =>
                "Password missing requirements (Upper: "@ + bool_text(upper) + ", Lower: "@
                + bool_text(lower) + ", Special: "@ + bool_text(special) + ", Digit: "@
                + bool_text(digit) + ")"@,
        }
    }

    /// The text the error is written as (its `Display`).
    pub fn message(&self) -> (s: String)
        ensures
            s@ == self.spec_message(),
    {
        match self {
            UserValidationError::InvalidEmailAddress => String::from_str("Invalid email address"),
            UserValidationError::InvalidUsernameLength { min, max, actual } => bounds_string(
                "Invalid username length ",
                *min,
                *max,
                *actual,
            ),
            UserValidationError::InvalidPasswordLength { min, max, actual } => bounds_string(
                "Invalid password length ",
                *min,
                *max,
                *actual,
            ),
            UserValidationError::MissingCharacter { upper, lower, special, digit } => {
                let s = String::from_str("Password missing requirements (Upper: ");
                let s = concat(s, bool_string(*upper).as_str());
                let s = concat(s, ", Lower: ");
                let s = concat(s, bool_string(*lower).as_str());
                let s = concat(s, ", Special: ");
                let s = concat(s, bool_string(*special).as_str());
                let s = concat(s, ", Digit: ");
                let s = concat(s, bool_string(*digit).as_str());
                concat(s, ")")
            },
        }
    }
}

/// A username that was accepted is accepted again, unchanged, when parsed
/// a second time; it has no white space at either end and 8 to 128
/// characters.
pub proof fn username_parse_is_stable(raw: Seq<char>)
    ensures
        username_outcome(raw) matches Ok(t) ==> {
            &&& username_outcome(t) == Ok::<Seq<char>, UserValidationError>(t)
            &&& trimmed(t) == t
            &&& USERNAME_MIN_LENGTH <= t.len() <= USERNAME_MAX_LENGTH
        },
{
    crate::text::lemma_trimmed_idempotent(raw);
}

/// An email address that was accepted is accepted again, unchanged.
pub proof fn email_parse_is_stable(raw: Seq<char>)
    ensures
        email_outcome(raw) matches Ok(t) ==> email_outcome(t) == Ok::<
            Seq<char>,
            UserValidationError,
        >(t) && trimmed(t) == t,
{
    crate::text::lemma_trimmed_idempotent(raw);
}

/// A password that was accepted is accepted again, unchanged; it has 8 to
/// 24 characters and holds an upper-case letter, a lower-case letter, an
/// ASCII punctuation character and an ASCII digit.
pub proof fn password_parse_is_stable(raw: Seq<char>)
    ensures
        password_outcome(raw) matches Ok(t) ==> {
            &&& password_outcome(t) == Ok::<Seq<char>, UserValidationError>(t)
            &&& trimmed(t) == t
            &&& PASSWORD_MIN_LENGTH <= t.len() <= PASSWORD_MAX_LENGTH
            &&& has_upper(t) && has_lower(t) && has_special(t) && has_digit(t)
        },
{
    crate::text::lemma_trimmed_idempotent(raw);
}

/// A registration is refused exactly when one of its fields is, and then
/// with one error per refused field: at most three.
pub proof fn register_errors_name_each_refused_field(
    name: Seq<char>,
    email: Seq<char>,
    password: Seq<char>,
)
    ensures
        register_errors(name, email, password).len() == 0 <==> (username_outcome(name) is Ok
            && email_outcome(email) is Ok && password_outcome(password) is Ok),
        register_errors(name, email, password).len() == (if username_outcome(name) is Ok {
            0int
        } else {
            1int
        }) + (if email_outcome(email) is Ok {
            0int
        } else {
            1int
        }) + (if password_outcome(password) is Ok {
            0int
        } else {
            1int
        }),
{
}

/// The name a token kind is written by reads back as that kind.
pub proof fn token_kind_text_round_trip(kind: TokenKind)
    ensures
        token_kind_outcome(token_kind_text(kind)) == Some(kind),
{
    reveal_strlit("access");
    reveal_strlit("refresh");
    assert("access"@.len() != "refresh"@.len());
}

/// An email address is accepted exactly when, trimmed, it is one that
/// `email_address` holds valid, and it is kept trimmed; any other is refused
/// as an invalid email address.
pub proof fn email_accepted_exactly_when_valid(raw: Seq<char>)
    ensures
        email_outcome(raw) is Ok <==> email_address_is_valid(trimmed(raw)),
        email_outcome(raw) matches Ok(t) ==> t == trimmed(raw),
        !email_address_is_valid(trimmed(raw)) ==> email_outcome(raw) == Err::<
            Seq<char>,
            UserValidationError,
        >(UserValidationError::InvalidEmailAddress),
{
}

} // verus!
