//! How the client keeps its session: refreshing it, and retrying a request
//! once with a refreshed token.
use vstd::prelude::*;

verus! {

/// What to do with the answer to a session refresh.
#[derive(Debug, Clone, Copy, PartialEq, Eq, Structural)]
pub enum RefreshOutcome {
    /// The session was refreshed: read the new access token from the body.
    ReadBody,
    /// The session has expired.
    ExpiredSession,
    /// Any other status.
    UnexpectedStatusCode(u16),
}

impl RefreshOutcome {
    pub fn from_status(status: u16) -> (r: Self)
        ensures
            r == match status {
                201 => RefreshOutcome::ReadBody,
                401 => RefreshOutcome::ExpiredSession,
                s => RefreshOutcome::UnexpectedStatusCode(s),
            },
    {
        match status {
            201 => RefreshOutcome::ReadBody,
            401 => RefreshOutcome::ExpiredSession,
            s => RefreshOutcome::UnexpectedStatusCode(s),
        }
    }
}

/// Whether an authenticated request answered with `status` is to be sent
/// again after refreshing the session: only when it was refused as
/// unauthorized.
pub fn needs_refresh(status: u16) -> (b: bool)
    ensures
        b == (status == 401),
{
    status == 401
}

/// The `Authorization` header value that carries `token`.
pub open spec fn bearer_header(token: Seq<char>) -> Seq<char> {
    "Bearer "@ + token
}

pub fn bearer(token: &str) -> (s: String)
    ensures
        s@ == bearer_header(token@),
{
    crate::text::concat(String::from_str("Bearer "), token)
}

/// Where an authenticated request stands.
#[derive(Debug)]
pub enum AuthRequestState {
    /// The request has been sent with the current access token.
    Sending,
    /// It was refused as unauthorized; the session is being refreshed.
    Refreshing,
    /// It has been sent once more with the refreshed access token.
    Retrying { access_token: String },
    Finished,
}

/// What the last action brought back.
#[derive(Debug)]
pub enum AuthRequestEvent {
    /// The server answered the request with `status`.
    Answered { status: u16 },
    /// The session was refreshed and gave this access token.
    Refreshed { access_token: String },
}

/// What to do next for an authenticated request.
#[derive(Debug)]
pub enum AuthRequestAction {
    /// Send the request with this `Authorization` header; with its body only
    /// when `with_body` (the retry is sent without one).
    Send { authorization: String, with_body: bool },
    /// Refresh the session.
    RefreshSession,
    /// Hand back the last answer, with the refreshed access token if the
    /// session was refreshed.
    Finish { access_token: Option<String> },
}

impl AuthRequestState {
    /// Whether `event` answers the action this state waits on.
    pub open spec fn expects(&self, event: &AuthRequestEvent) -> bool {
        match (self, event) {
            (AuthRequestState::Sending, AuthRequestEvent::Answered { .. }) => true,
            (AuthRequestState::Refreshing, AuthRequestEvent::Refreshed { .. }) => true,
            (AuthRequestState::Retrying { .. }, AuthRequestEvent::Answered { .. }) => true,
            _ => false,
        }
    }

    /// Whether `event` answers the action this state waits on.
    pub fn accepts(&self, event: &AuthRequestEvent) -> (b: bool)
        ensures
            b == self.expects(event),
    {
        match (self, event) {
            (AuthRequestState::Sending, AuthRequestEvent::Answered { .. }) => true,
            (AuthRequestState::Refreshing, AuthRequestEvent::Refreshed { .. }) => true,
            (AuthRequestState::Retrying { .. }, AuthRequestEvent::Answered { .. }) => true,
            _ => false,
        }
    }

    /// An authenticated request begins by being sent, with its body, under
    /// the current access token.
    pub fn start(token: &str) -> (r: (AuthRequestState, AuthRequestAction))
        ensures
            r.0 is Sending,
            r.1 matches AuthRequestAction::Send { authorization, with_body } && authorization@
                == bearer_header(token@) && with_body,
    {
        (AuthRequestState::Sending, AuthRequestAction::Send { authorization: bearer(token), with_body: true })
    }

    /// The next state and action. An answer other than unauthorized is handed
    /// back as it is; an unauthorized one refreshes the session and sends the
    /// request once more, without its body, under the new access token, and
    /// whatever that second answer is, it is handed back with that token.
    pub fn step(self, event: AuthRequestEvent) -> (r: (AuthRequestState, AuthRequestAction))
        requires
            self.expects(&event),
        ensures
            match (self, event) {
                (AuthRequestState::Sending, AuthRequestEvent::Answered { status }) => if status
                    == 401 {
                    r.0 is Refreshing && r.1 is RefreshSession
                } else {
                    r.0 is Finished && r.1 matches AuthRequestAction::Finish { access_token: None }
                },
                (AuthRequestState::Refreshing, AuthRequestEvent::Refreshed { access_token }) => {
                    &&& r.0 matches AuthRequestState::Retrying { access_token: t } && t@
                        == access_token@
                    &&& r.1 matches AuthRequestAction::Send { authorization, with_body }
                        && authorization@ == bearer_header(access_token@) && !with_body
                },
                (AuthRequestState::Retrying { access_token }, AuthRequestEvent::Answered { .. }) => {
                    &&& r.0 is Finished
                    &&& r.1 matches AuthRequestAction::Finish { access_token: Some(t) } && t@
                        == access_token@
                },
                _ => false,
            },
    {
        match (self, event) {
            (AuthRequestState::Sending, AuthRequestEvent::Answered { status }) => if needs_refresh(
                status,
            ) {
                (AuthRequestState::Refreshing, AuthRequestAction::RefreshSession)
            } else {
                (AuthRequestState::Finished, AuthRequestAction::Finish { access_token: None })
            },
            (AuthRequestState::Refreshing, AuthRequestEvent::Refreshed { access_token }) => {
                let authorization = bearer(access_token.as_str());
                (
                    AuthRequestState::Retrying { access_token },
                    AuthRequestAction::Send { authorization, with_body: false },
                )
            },
            (AuthRequestState::Retrying { access_token }, AuthRequestEvent::Answered { .. }) => (
                AuthRequestState::Finished,
                AuthRequestAction::Finish { access_token: Some(access_token) },
            ),
            _ => (AuthRequestState::Finished, AuthRequestAction::Finish { access_token: None }),
        }
    }
}

} // verus!
