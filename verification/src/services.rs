//! The decisions of the user, order and window services. Each service call
//! that waits on storage is a protocol: from its state and what the last
//! action brought back, the next state and the next action to perform.
use crate::clock::{now_utc, Span, Timestamp};
use crate::domain::order::{Order, OrderError, OrderRequest};
use crate::domain::user::{
    LoginRequest, RegisterRequest, Token, TokenKind, Tokens, User, UserEmail, UserError,
    UserPassword, Username,
};
use crate::domain::window::WindowError;
use crate::ids::{is_random_v4, new_v4, Uuid};
use vstd::prelude::*;

verus! {

/// What a service step takes from outside: a fresh random id and the
/// current instant.
#[derive(Debug, Clone, Copy, PartialEq, Eq, Structural)]
pub struct Fresh {
    pub id: Uuid,
    pub now: Timestamp,
}

/// The largest span `time::Duration` holds, in nanoseconds.
pub const MAX_SPAN_NANOS: i128 = 9_223_372_036_854_775_807_999_999_999;

impl Fresh {
    /// An instant as `time::OffsetDateTime::now_utc` gives one.
    pub open spec fn wf(self) -> bool {
        self.now.seconds_fit_i64()
    }

    /// A fresh random id and the current instant.
    pub fn sample() -> (f: Fresh)
        ensures
            f.wf(),
            is_random_v4(f.id.value),
    {
        let id = new_v4();
        let now = now_utc();
        Fresh { id, now }
    }
}

/// How long refresh and access tokens live.
#[derive(Debug, Clone, Copy, PartialEq, Eq, Structural)]
pub struct TokenLifetimes {
    pub refresh: Span,
    pub access: Span,
}

impl TokenLifetimes {
    /// Whether both spans are ones `time::Duration` holds.
    pub fn is_wf(&self) -> (b: bool)
        ensures
            b == self.wf(),
    {
        -MAX_SPAN_NANOS <= self.refresh.nanos && self.refresh.nanos <= MAX_SPAN_NANOS
            && -MAX_SPAN_NANOS <= self.access.nanos && self.access.nanos <= MAX_SPAN_NANOS
    }

    /// Both spans are ones `time::Duration` holds.
    pub open spec fn wf(self) -> bool {
        &&& -MAX_SPAN_NANOS <= self.refresh.nanos <= MAX_SPAN_NANOS
        &&& -MAX_SPAN_NANOS <= self.access.nanos <= MAX_SPAN_NANOS
    }
}

/// A token of `kind` for `user_id`, with the fresh id, expiring `span`
/// after the fresh instant.
pub open spec fn fresh_token(fresh: Fresh, kind: TokenKind, span: Span, user_id: Uuid) -> Token {
    Token { id: fresh.id, kind, expiry: fresh.now.spec_after(span), user_id }
}

fn issue_token(fresh: Fresh, kind: TokenKind, span: Span, user_id: Uuid) -> (t: Token)
    requires
        fresh.now.can_add_within_dates(span),
    ensures
        t == fresh_token(fresh, kind, span, user_id),
{
    Token::new(fresh.id, kind, fresh.now.after(span), user_id)
}

// ---------------------------------------------------------------------------
// Registration
/// Where a registration stands.
#[derive(Debug)]
pub enum RegisterState {
    /// The password is being hashed.
    Hashing { name: Username, email: UserEmail },
    /// The new user is being saved.
    Saving,
    Finished,
}

/// What the last registration action brought back.
#[derive(Debug)]
pub enum RegisterEvent {
    Hashed(Result<String, UserError>),
    Saved(Result<(), UserError>),
}

/// What to do next for a registration.
#[derive(Debug)]
pub enum RegisterAction {
    HashPassword(UserPassword),
    SaveUser(User),
    Finish(Result<(), UserError>),
}

/// The next state and action of a registration.
pub open spec fn register_next(state: RegisterState, event: RegisterEvent, fresh: Fresh) -> (
    RegisterState,
    RegisterAction,
) {
    match (state, event) {
        (RegisterState::Hashing { name, email }, RegisterEvent::Hashed(Ok(hash))) => (
            RegisterState::Saving,
            RegisterAction::SaveUser(User { id: fresh.id, name, email, password: hash }),
        ),
        (_, RegisterEvent::Hashed(Err(e))) => (
            RegisterState::Finished,
            RegisterAction::Finish(Err(e)),
        ),
        (_, RegisterEvent::Saved(r)) => (RegisterState::Finished, RegisterAction::Finish(r)),
        (s, RegisterEvent::Hashed(Ok(_))) => (s, RegisterAction::Finish(Ok(()))),
    }
}

impl RegisterState {
    /// Whether `event` answers the action this state waits on.
    pub open spec fn expects(&self, event: &RegisterEvent) -> bool {
        match (self, event) {
            (RegisterState::Hashing { .. }, RegisterEvent::Hashed(_)) => true,
            (RegisterState::Saving, RegisterEvent::Saved(_)) => true,
            _ => false,
        }
    }

    /// Whether `event` answers the action this state waits on.
    pub fn accepts(&self, event: &RegisterEvent) -> (b: bool)
        ensures
            b == self.expects(event),
    {
        match (self, event) {
            (RegisterState::Hashing { .. }, RegisterEvent::Hashed(_)) => true,
            (RegisterState::Saving, RegisterEvent::Saved(_)) => true,
            _ => false,
        }
    }

    /// A registration begins by hashing the password.
    pub fn start(request: RegisterRequest) -> (r: (RegisterState, RegisterAction))
        ensures
            r == (RegisterState::Hashing { name: request.name, email: request.email },
            RegisterAction::HashPassword(request.password)),
    {
        (
            RegisterState::Hashing { name: request.name, email: request.email },
            RegisterAction::HashPassword(request.password),
        )
    }

    /// A failed hash ends the registration with its error; a hash is saved
    /// as the password of a new user with the fresh id; the outcome of the
    /// save is the outcome of the registration.
    pub fn step(self, event: RegisterEvent, fresh: Fresh) -> (r: (RegisterState, RegisterAction))
        requires
            self.expects(&event),
        ensures
            r == register_next(self, event, fresh),
    {
        match (self, event) {
            (RegisterState::Hashing { name, email }, RegisterEvent::Hashed(Ok(hash))) => (
                RegisterState::Saving,
                RegisterAction::SaveUser(User::new(fresh.id, name, email, hash)),
            ),
            (_, RegisterEvent::Hashed(Err(e))) => (
                RegisterState::Finished,
                RegisterAction::Finish(Err(e)),
            ),
            (_, RegisterEvent::Saved(r)) => (RegisterState::Finished, RegisterAction::Finish(r)),
            (s, RegisterEvent::Hashed(Ok(_))) => (s, RegisterAction::Finish(Ok(()))),
        }
    }
}

// ---------------------------------------------------------------------------
// Login and session refresh
/// Where a login or a session refresh stands.
#[derive(Debug)]
pub enum SessionState {
    /// Login: the user of the email is being looked up.
    AwaitingUser { password: String },
    /// Login: the password is being checked against the stored hash.
    AwaitingVerification { user_id: Uuid },
    /// Refresh: the presented refresh token is being deleted.
    AwaitingDeletion { user_id: Uuid },
    /// The new refresh token is being saved.
    AwaitingSave { refresh: Token },
    /// The access token is being encoded.
    AwaitingAccessCode { refresh: Token },
    /// The refresh token is being encoded.
    AwaitingRefreshCode { access_code: String },
    Finished,
}

/// What the last session action brought back.
#[derive(Debug)]
pub enum SessionEvent {
    UserFetched(Result<User, UserError>),
    PasswordChecked(Result<bool, UserError>),
    TokenDeleted(Result<(), UserError>),
    TokenSaved(Result<(), UserError>),
    TokenEncoded(Result<String, UserError>),
}

/// What to do next for a login or a session refresh.
#[derive(Debug)]
pub enum SessionAction {
    FetchUser { email: String },
    VerifyPassword { password: String, hash: String },
    DeleteToken { id: Uuid },
    SaveToken { token: Token },
    EncodeToken { token: Token },
    Finish(Result<Tokens, UserError>),
}

/// A fresh refresh token for `user_id` is to be saved.
pub open spec fn save_refresh(user_id: Uuid, fresh: Fresh, lifetimes: TokenLifetimes) -> (
    SessionState,
    SessionAction,
) {
    let refresh = fresh_token(fresh, TokenKind::Refresh, lifetimes.refresh, user_id);
    (SessionState::AwaitingSave { refresh }, SessionAction::SaveToken { token: refresh })
}

/// The session ends with `e`.
pub open spec fn fail(e: UserError) -> (SessionState, SessionAction) {
    (SessionState::Finished, SessionAction::Finish(Err(e)))
}

/// The next state and action of a login or session refresh.
pub open spec fn session_next(
    state: SessionState,
    event: SessionEvent,
    fresh: Fresh,
    lifetimes: TokenLifetimes,
) -> (SessionState, SessionAction) {
    match (state, event) {
        (SessionState::AwaitingUser { password }, SessionEvent::UserFetched(r)) => match r {
            Ok(user) => (
                SessionState::AwaitingVerification { user_id: user.id },
                SessionAction::VerifyPassword { password, hash: user.password },
            ),
            Err(UserError::UserNotFoundByEmail(_)) => fail(UserError::WrongCredentials),
            Err(e) => fail(e),
        },
        (SessionState::AwaitingVerification { user_id }, SessionEvent::PasswordChecked(r)) =>
            match r {
            Ok(true) => save_refresh(user_id, fresh, lifetimes),
            Ok(false) => fail(UserError::WrongCredentials),
            Err(e) => fail(e),
        },
        (SessionState::AwaitingDeletion { user_id }, SessionEvent::TokenDeleted(r)) => match r {
            Ok(()) => save_refresh(user_id, fresh, lifetimes),
            Err(UserError::TokenNotFoundById(_)) => fail(UserError::InvalidToken),
            Err(e) => fail(e),
        },
        (SessionState::AwaitingSave { refresh }, SessionEvent::TokenSaved(r)) => match r {
            Ok(()) => (
                SessionState::AwaitingAccessCode { refresh },
                SessionAction::EncodeToken {
                    token: fresh_token(fresh, TokenKind::Access, lifetimes.access, refresh.user_id),
                },
            ),
            Err(e) => fail(e),
        },
        (SessionState::AwaitingAccessCode { refresh }, SessionEvent::TokenEncoded(r)) => match r {
            Ok(access_code) => (
                SessionState::AwaitingRefreshCode { access_code },
                SessionAction::EncodeToken { token: refresh },
            ),
            Err(e) => fail(e),
        },
        (SessionState::AwaitingRefreshCode { access_code }, SessionEvent::TokenEncoded(r)) =>
            match r {
            Ok(refresh_code) => (
                SessionState::Finished,
                SessionAction::Finish(
                    Ok(Tokens { access_token: access_code, refresh_token: refresh_code }),
                ),
            ),
            Err(e) => fail(e),
        },
        _ => fail(UserError::InvalidToken),
    }
}

impl SessionState {
    /// Whether `event` answers the action this state waits on.
    pub open spec fn expects(&self, event: &SessionEvent) -> bool {
        match (self, event) {
            (SessionState::AwaitingUser { .. }, SessionEvent::UserFetched(_)) => true,
            (SessionState::AwaitingVerification { .. }, SessionEvent::PasswordChecked(_)) => true,
            (SessionState::AwaitingDeletion { .. }, SessionEvent::TokenDeleted(_)) => true,
            (SessionState::AwaitingSave { .. }, SessionEvent::TokenSaved(_)) => true,
            (SessionState::AwaitingAccessCode { .. }, SessionEvent::TokenEncoded(_)) => true,
            (SessionState::AwaitingRefreshCode { .. }, SessionEvent::TokenEncoded(_)) => true,
            _ => false,
        }
    }

    /// Whether `event` answers the action this state waits on.
    pub fn accepts(&self, event: &SessionEvent) -> (b: bool)
        ensures
            b == self.expects(event),
    {
        match (self, event) {
            (SessionState::AwaitingUser { .. }, SessionEvent::UserFetched(_)) => true,
            (SessionState::AwaitingVerification { .. }, SessionEvent::PasswordChecked(_)) => true,
            (SessionState::AwaitingDeletion { .. }, SessionEvent::TokenDeleted(_)) => true,
            (SessionState::AwaitingSave { .. }, SessionEvent::TokenSaved(_)) => true,
            (SessionState::AwaitingAccessCode { .. }, SessionEvent::TokenEncoded(_)) => true,
            (SessionState::AwaitingRefreshCode { .. }, SessionEvent::TokenEncoded(_)) => true,
            _ => false,
        }
    }

    /// A login begins by looking up the user of the email.
    pub fn start_login(request: LoginRequest) -> (r: (SessionState, SessionAction))
        ensures
            r == (SessionState::AwaitingUser { password: request.password },
            SessionAction::FetchUser { email: request.email }),
    {
        (
            SessionState::AwaitingUser { password: request.password },
            SessionAction::FetchUser { email: request.email },
        )
    }

    /// A session refresh takes a refresh token only; it begins by deleting
    /// that token, so that it is used once.
    pub fn start_refresh(token: &Token) -> (r: (SessionState, SessionAction))
        ensures
            match token.kind {
                TokenKind::Access => r == fail(UserError::InvalidTokenType),
                TokenKind::Refresh => r == (SessionState::AwaitingDeletion {
                    user_id: token.user_id,
                }, SessionAction::DeleteToken { id: token.id }),
            },
    {
        match token.kind {
            TokenKind::Access => (
                SessionState::Finished,
                SessionAction::Finish(Err(UserError::InvalidTokenType)),
            ),
            TokenKind::Refresh => (
                SessionState::AwaitingDeletion { user_id: token.user_id },
                SessionAction::DeleteToken { id: token.id },
            ),
        }
    }

    /// Whether the token that `event` leads this state to issue, if any,
    /// expires at an instant `time::OffsetDateTime` holds: a refresh token
    /// after the password is confirmed or the old refresh token deleted, an
    /// access token after the refresh token is saved.
    pub open spec fn issues_within_dates(
        &self,
        event: &SessionEvent,
        fresh: Fresh,
        lifetimes: TokenLifetimes,
    ) -> bool {
        match (self, event) {
            (SessionState::AwaitingVerification { .. }, SessionEvent::PasswordChecked(Ok(true))) =>
                fresh.now.can_add_within_dates(lifetimes.refresh),
            (SessionState::AwaitingDeletion { .. }, SessionEvent::TokenDeleted(Ok(()))) =>
                fresh.now.can_add_within_dates(lifetimes.refresh),
            (SessionState::AwaitingSave { .. }, SessionEvent::TokenSaved(Ok(()))) =>
                fresh.now.can_add_within_dates(lifetimes.access),
            _ => true,
        }
    }

    /// Whether the token that `event` leads this state to issue, if any,
    /// expires at an instant `time::OffsetDateTime` holds.
    pub fn issues_in_date_range(
        &self,
        event: &SessionEvent,
        fresh: Fresh,
        lifetimes: TokenLifetimes,
    ) -> (b: bool)
        ensures
            b == self.issues_within_dates(event, fresh, lifetimes),
    {
        match (self, event) {
            (SessionState::AwaitingVerification { .. }, SessionEvent::PasswordChecked(Ok(true))) =>
                fresh.now.adds_within_dates(lifetimes.refresh),
            (SessionState::AwaitingDeletion { .. }, SessionEvent::TokenDeleted(Ok(()))) =>
                fresh.now.adds_within_dates(lifetimes.refresh),
            (SessionState::AwaitingSave { .. }, SessionEvent::TokenSaved(Ok(()))) =>
                fresh.now.adds_within_dates(lifetimes.access),
            _ => true,
        }
    }

    /// The next state and action, given what the last action brought back.
    /// The token it issues, if any, must expire within the dates
    /// `time::OffsetDateTime` holds: there adding the lifetime panics.
    pub fn step(self, event: SessionEvent, fresh: Fresh, lifetimes: TokenLifetimes) -> (r: (
        SessionState,
        SessionAction,
    ))
        requires
            self.expects(&event),
            fresh.wf(),
            lifetimes.wf(),
            self.issues_within_dates(&event, fresh, lifetimes),
        ensures
            r == session_next(self, event, fresh, lifetimes),
    {
        match (self, event) {
            (SessionState::AwaitingUser { password }, SessionEvent::UserFetched(r)) => match r {
                Ok(user) => (
                    SessionState::AwaitingVerification { user_id: user.id },
                    SessionAction::VerifyPassword { password, hash: user.password },
                ),
                Err(UserError::UserNotFoundByEmail(_)) => (
                    SessionState::Finished,
                    SessionAction::Finish(Err(UserError::WrongCredentials)),
                ),
                Err(e) => (SessionState::Finished, SessionAction::Finish(Err(e))),
            },
            (SessionState::AwaitingVerification { user_id }, SessionEvent::PasswordChecked(r)) =>
                match r {
                Ok(true) => {
                    let refresh = issue_token(fresh, TokenKind::Refresh, lifetimes.refresh, user_id);
                    (SessionState::AwaitingSave { refresh }, SessionAction::SaveToken { token: refresh })
                },
                Ok(false) => (
                    SessionState::Finished,
                    SessionAction::Finish(Err(UserError::WrongCredentials)),
                ),
                Err(e) => (SessionState::Finished, SessionAction::Finish(Err(e))),
            },
            (SessionState::AwaitingDeletion { user_id }, SessionEvent::TokenDeleted(r)) => match r {
                Ok(()) => {
                    let refresh = issue_token(fresh, TokenKind::Refresh, lifetimes.refresh, user_id);
                    (SessionState::AwaitingSave { refresh }, SessionAction::SaveToken { token: refresh })
                },
                Err(UserError::TokenNotFoundById(_)) => (
                    SessionState::Finished,
                    SessionAction::Finish(Err(UserError::InvalidToken)),
                ),
                Err(e) => (SessionState::Finished, SessionAction::Finish(Err(e))),
            },
            (SessionState::AwaitingSave { refresh }, SessionEvent::TokenSaved(r)) => match r {
                Ok(()) => {
                    let access = issue_token(
                        fresh,
                        TokenKind::Access,
                        lifetimes.access,
                        refresh.user_id,
                    );
                    (SessionState::AwaitingAccessCode { refresh }, SessionAction::EncodeToken { token: access })
                },
                Err(e) => (SessionState::Finished, SessionAction::Finish(Err(e))),
            },
            (SessionState::AwaitingAccessCode { refresh }, SessionEvent::TokenEncoded(r)) =>
                match r {
                Ok(access_code) => (
                    SessionState::AwaitingRefreshCode { access_code },
                    SessionAction::EncodeToken { token: refresh },
                ),
                Err(e) => (SessionState::Finished, SessionAction::Finish(Err(e))),
            },
            (SessionState::AwaitingRefreshCode { access_code }, SessionEvent::TokenEncoded(r)) =>
                match r {
                Ok(refresh_code) => (
                    SessionState::Finished,
                    SessionAction::Finish(Ok(Tokens::new(access_code, refresh_code))),
                ),
                Err(e) => (SessionState::Finished, SessionAction::Finish(Err(e))),
            },
            _ => (SessionState::Finished, SessionAction::Finish(Err(UserError::InvalidToken))),
        }
    }
}

// ---------------------------------------------------------------------------
// Orders
/// The order a request places for the holder of `token`: refused for a
/// refresh token; otherwise a new order with the fresh id, created at the
/// fresh instant, not delivered, for the token's user. The order is then to
/// be saved.
pub fn place_order(request: OrderRequest, token: &Token, fresh: Fresh) -> (r: Result<
    Order,
    OrderError,
>)
    ensures
        match token.kind {
            TokenKind::Refresh => r matches Err(OrderError::InvalidToken),
            TokenKind::Access => r matches Ok(o) && o == (Order {
                id: fresh.id,
                postal_code: request.postal_code,
                city: request.city,
                neighborhood: request.neighborhood,
                street: request.street,
                floor_level: request.floor_level,
                created_at: fresh.now,
                delivered_at: None,
                user_id: token.user_id,
            }),
        },
{
    if token.kind == TokenKind::Refresh {
        return Err(OrderError::InvalidToken);
    }
    Ok(
        Order {
            id: fresh.id,
            postal_code: request.postal_code,
            city: request.city,
            neighborhood: request.neighborhood,
            street: request.street,
            floor_level: request.floor_level,
            created_at: fresh.now,
            delivered_at: None,
            user_id: token.user_id,
        },
    )
}

/// A placed order once saving it is done: the order, or the save's error.
pub fn order_saved(order: Order, saved: Result<(), OrderError>) -> (r: Result<Order, OrderError>)
    ensures
        match saved {
            Ok(()) => r == Ok::<Order, OrderError>(order),
            Err(e) => r == Err::<Order, OrderError>(e),
        },
{
    match saved {
        Ok(()) => Ok(order),
        Err(e) => Err(e),
    }
}

/// The user whose orders a request with `token` may read: refused for a
/// refresh token.
pub fn orders_owner(token: &Token) -> (r: Result<Uuid, OrderError>)
    ensures
        match token.kind {
            TokenKind::Refresh => r matches Err(OrderError::InvalidToken),
            TokenKind::Access => r == Ok::<Uuid, OrderError>(token.user_id),
        },
{
    if token.kind == TokenKind::Refresh {
        return Err(OrderError::InvalidToken);
    }
    Ok(token.user_id)
}

// ---------------------------------------------------------------------------
// Windows
/// The user whose windows a request with `token` may read: refused for a
/// refresh token.
pub fn windows_owner(token: &Token) -> (r: Result<Uuid, WindowError>)
    ensures
        match token.kind {
            TokenKind::Refresh => r matches Err(WindowError::InvalidToken),
            TokenKind::Access => r == Ok::<Uuid, WindowError>(token.user_id),
        },
{
    if token.kind == TokenKind::Refresh {
        return Err(WindowError::InvalidToken);
    }
    Ok(token.user_id)
}

/// The actions a session takes from `state` when the actions are answered
/// by `events` in turn, each step taking the matching entry of `freshes`.
pub open spec fn session_run(
    state: SessionState,
    events: Seq<SessionEvent>,
    freshes: Seq<Fresh>,
    lifetimes: TokenLifetimes,
) -> Seq<SessionAction>
    decreases events.len(),
{
    if events.len() == 0 {
        Seq::empty()
    } else {
        let (next, action) = session_next(state, events[0], freshes[0], lifetimes);
        seq![action] + session_run(next, events.drop_first(), freshes.drop_first(), lifetimes)
    }
}

/// A login with the right password, whose storage and encoding succeed,
/// checks the password against the stored hash, saves a new refresh token
/// for the user, encodes an access token for the user and then that very
/// refresh token, and answers with the two codes.
pub proof fn login_with_right_password_issues_tokens(
    request: LoginRequest,
    user: User,
    access_code: String,
    refresh_code: String,
    freshes: Seq<Fresh>,
    lifetimes: TokenLifetimes,
)
    requires
        freshes.len() == 5,
    ensures
        ({
            let refresh = fresh_token(freshes[1], TokenKind::Refresh, lifetimes.refresh, user.id);
            let access = fresh_token(freshes[2], TokenKind::Access, lifetimes.access, user.id);
            session_run(
                SessionState::AwaitingUser { password: request.password },
                seq![
                    SessionEvent::UserFetched(Ok(user)),
                    SessionEvent::PasswordChecked(Ok(true)),
                    SessionEvent::TokenSaved(Ok(())),
                    SessionEvent::TokenEncoded(Ok(access_code)),
                    SessionEvent::TokenEncoded(Ok(refresh_code)),
                ],
                freshes,
                lifetimes,
            ) == seq![
                SessionAction::VerifyPassword { password: request.password, hash: user.password },
                SessionAction::SaveToken { token: refresh },
                SessionAction::EncodeToken { token: access },
                SessionAction::EncodeToken { token: refresh },
                SessionAction::Finish(
                    Ok(Tokens { access_token: access_code, refresh_token: refresh_code }),
                ),
            ]
        }),
{
    reveal_with_fuel(session_run, 6);
    let events = seq![
        SessionEvent::UserFetched(Ok(user)),
        SessionEvent::PasswordChecked(Ok(true)),
        SessionEvent::TokenSaved(Ok(())),
        SessionEvent::TokenEncoded(Ok(access_code)),
        SessionEvent::TokenEncoded(Ok(refresh_code)),
    ];
    assert(events.drop_first().drop_first().drop_first().drop_first().drop_first().len() == 0);
    assert(events.drop_first()[0] == events[1]);
    assert(events.drop_first().drop_first()[0] == events[2]);
    assert(events.drop_first().drop_first().drop_first()[0] == events[3]);
    assert(events.drop_first().drop_first().drop_first().drop_first()[0] == events[4]);
    assert(freshes.drop_first()[0] == freshes[1]);
    assert(freshes.drop_first().drop_first()[0] == freshes[2]);
}

/// A login with a wrong password, or for an email no user has, is answered
/// with wrong credentials, and no token is saved.
pub proof fn login_with_wrong_credentials_is_refused(
    request: LoginRequest,
    user: User,
    email: String,
    freshes: Seq<Fresh>,
    lifetimes: TokenLifetimes,
)
    requires
        freshes.len() == 2,
    ensures
        session_run(
            SessionState::AwaitingUser { password: request.password },
            seq![SessionEvent::UserFetched(Ok(user)), SessionEvent::PasswordChecked(Ok(false))],
            freshes,
            lifetimes,
        ) == seq![
            SessionAction::VerifyPassword { password: request.password, hash: user.password },
            SessionAction::Finish(Err(UserError::WrongCredentials)),
        ],
        session_run(
            SessionState::AwaitingUser { password: request.password },
            seq![SessionEvent::UserFetched(Err(UserError::UserNotFoundByEmail(email)))],
            freshes.take(1),
            lifetimes,
        ) == seq![SessionAction::Finish(Err(UserError::WrongCredentials))],
{
    reveal_with_fuel(session_run, 3);
    let events = seq![
        SessionEvent::UserFetched(Ok(user)),
        SessionEvent::PasswordChecked(Ok(false)),
    ];
    assert(events.drop_first()[0] == events[1]);
    assert(events.drop_first().drop_first().len() == 0);
    let one = seq![SessionEvent::UserFetched(Err(UserError::UserNotFoundByEmail(email)))];
    assert(one.drop_first().len() == 0);
}

/// A refresh of a stored refresh token deletes it, saves a new refresh
/// token for the same user, encodes an access token for that user and then
/// the new refresh token, and answers with the two codes.
pub proof fn refresh_rotates_the_refresh_token(
    token: Token,
    access_code: String,
    refresh_code: String,
    freshes: Seq<Fresh>,
    lifetimes: TokenLifetimes,
)
    requires
        token.kind == TokenKind::Refresh,
        freshes.len() == 4,
    ensures
        ({
            let refresh = fresh_token(freshes[0], TokenKind::Refresh, lifetimes.refresh, token.user_id);
            let access = fresh_token(freshes[1], TokenKind::Access, lifetimes.access, token.user_id);
            session_run(
                SessionState::AwaitingDeletion { user_id: token.user_id },
                seq![
                    SessionEvent::TokenDeleted(Ok(())),
                    SessionEvent::TokenSaved(Ok(())),
                    SessionEvent::TokenEncoded(Ok(access_code)),
                    SessionEvent::TokenEncoded(Ok(refresh_code)),
                ],
                freshes,
                lifetimes,
            ) == seq![
                SessionAction::SaveToken { token: refresh },
                SessionAction::EncodeToken { token: access },
                SessionAction::EncodeToken { token: refresh },
                SessionAction::Finish(
                    Ok(Tokens { access_token: access_code, refresh_token: refresh_code }),
                ),
            ]
        }),
{
    reveal_with_fuel(session_run, 5);
    let events = seq![
        SessionEvent::TokenDeleted(Ok(())),
        SessionEvent::TokenSaved(Ok(())),
        SessionEvent::TokenEncoded(Ok(access_code)),
        SessionEvent::TokenEncoded(Ok(refresh_code)),
    ];
    assert(events.drop_first().drop_first().drop_first().drop_first().len() == 0);
    assert(events.drop_first()[0] == events[1]);
    assert(events.drop_first().drop_first()[0] == events[2]);
    assert(events.drop_first().drop_first().drop_first()[0] == events[3]);
    assert(freshes.drop_first()[0] == freshes[1]);
}

/// A refresh token that is no longer stored cannot be used again: the
/// refresh is answered as an invalid token, and nothing is issued.
pub proof fn refresh_of_unknown_token_is_refused(
    user_id: Uuid,
    id: Uuid,
    fresh: Fresh,
    lifetimes: TokenLifetimes,
)
    ensures
        session_next(
            SessionState::AwaitingDeletion { user_id },
            SessionEvent::TokenDeleted(Err(UserError::TokenNotFoundById(id))),
            fresh,
            lifetimes,
        ) == fail(UserError::InvalidToken),
{
}

/// A registration whose password was hashed saves the new user under the
/// fresh id with the hash as password, and then finishes with exactly what
/// saving brought back: success when the user was saved, the save's error
/// otherwise; a failed hash finishes with its error.
pub proof fn registration_finishes_with_the_save_outcome(
    name: Username,
    email: UserEmail,
    hash: String,
    fresh: Fresh,
    saved: Result<(), UserError>,
    hash_error: UserError,
)
    ensures
        register_next(
            RegisterState::Hashing { name, email },
            RegisterEvent::Hashed(Ok(hash)),
            fresh,
        ).1 matches RegisterAction::SaveUser(u) && u.id == fresh.id && u.name == name && u.email
            == email && u.password == hash,
        register_next(RegisterState::Hashing { name, email }, RegisterEvent::Hashed(Ok(hash)), fresh).0 is Saving,
        register_next(RegisterState::Saving, RegisterEvent::Saved(Ok(())), fresh).1 matches RegisterAction::Finish(Ok(())),
        saved matches Err(e) ==> register_next(
            RegisterState::Saving,
            RegisterEvent::Saved(saved),
            fresh,
        ).1 matches RegisterAction::Finish(Err(f)) && f == e,
        register_next(RegisterState::Saving, RegisterEvent::Saved(saved), fresh).0 is Finished,
        register_next(
            RegisterState::Hashing { name, email },
            RegisterEvent::Hashed(Err(hash_error)),
            fresh,
        ).1 matches RegisterAction::Finish(Err(f)) && f == hash_error,
{
}

} // verus!
