//! The claims a session token is encoded with, and the token read back
//! from them.
use crate::clock::{NANOS_PER_SECOND, now_utc, unix_timestamp_in_range, unix_timestamp_representable, Timestamp};
use crate::domain::user::{token_kind_outcome, token_kind_text, Token, TokenKind, UserError};
use crate::ids::Uuid;
use vstd::prelude::*;

verus! {

/// JWT claims of a token.
#[derive(Debug)]
pub struct Claims {
    pub id: Uuid,
    pub kind: String,
    pub exp: i64,
    pub iat: i64,
    pub iss: String,
    pub aud: String,
    pub user_id: Uuid,
}

impl Claims {
    /// The claims of `token`, issued by `iss` for `aud` at `now`.
    pub fn issued_at(token: &Token, iss: &str, aud: &str, now: Timestamp) -> (c: Self)
        requires
            token.expiry.seconds_fit_i64(),
            now.seconds_fit_i64(),
        ensures
            c.id == token.id,
            c.kind@ == token_kind_text(token.kind),
            c.exp == token.expiry.spec_unix_seconds(),
            c.iat == now.spec_unix_seconds(),
            c.iss@ == iss@,
            c.aud@ == aud@,
            c.user_id == token.user_id,
    {
        Self {
            id: token.id,
            kind: String::from_str(token.kind.as_ref()),
            exp: token.expiry.unix_seconds(),
            iat: now.unix_seconds(),
            iss: String::from_str(iss),
            aud: String::from_str(aud),
            user_id: token.user_id,
        }
    }

    /// The claims of `token`, issued now by `iss` for `aud`.
    pub fn new(token: &Token, iss: &str, aud: &str) -> (c: Self)
        requires
            token.expiry.seconds_fit_i64(),
        ensures
            c.id == token.id,
            c.kind@ == token_kind_text(token.kind),
            c.exp == token.expiry.spec_unix_seconds(),
            c.iss@ == iss@,
            c.aud@ == aud@,
            c.user_id == token.user_id,
    {
        let now = now_utc();
        Self::issued_at(token, iss, aud, now)
    }

    /// The token these claims describe. An unknown kind is refused as an
    /// invalid token type, an expiry out of the representable dates as an
    /// invalid token.
    pub fn into_token(self) -> (r: Result<Token, UserError>)
        ensures
            match token_kind_outcome(self.kind@) {
                None => r matches Err(UserError::InvalidTokenType),
                Some(kind) => if unix_timestamp_in_range(self.exp) {
                    r matches Ok(t) && t == (Token {
                        id: self.id,
                        kind,
                        expiry: Timestamp::spec_from_unix_seconds(self.exp),
                        user_id: self.user_id,
                    })
                } else {
                    r matches Err(UserError::InvalidToken)
                },
            },
    {
        let kind = match TokenKind::try_from(self.kind.as_str()) {
            Ok(k) => k,
            Err(e) => return Err(e),
        };
        if !unix_timestamp_representable(self.exp) {
            return Err(UserError::InvalidToken);
        }
        let expiry = Timestamp::from_unix_seconds(self.exp);
        Ok(Token::new(self.id, kind, expiry, self.user_id))
    }
}

/// Writing a token's claims and reading them back gives the token again,
/// when its expiry is a whole second that the date type can represent:
/// the kind's name reads back as the kind, and the expiry's whole seconds
/// back as the expiry.
pub proof fn claims_round_trip(token: Token)
    requires
        token.expiry.unix_nanos % NANOS_PER_SECOND == 0,
        token.expiry.seconds_fit_i64(),
    ensures
        token_kind_outcome(token_kind_text(token.kind)) == Some(token.kind),
        Timestamp::spec_from_unix_seconds(token.expiry.spec_unix_seconds() as i64) == token.expiry,
{
    crate::domain::user::token_kind_text_round_trip(token.kind);
    let n = token.expiry.unix_nanos as int;
    let s = token.expiry.spec_unix_seconds();
    assert(n == s * 1_000_000_000) by (nonlinear_arith)
        requires
            s == n / 1_000_000_000,
            n % 1_000_000_000 == 0,
    ;
}

} // verus!
