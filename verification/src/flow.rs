//! A login from start to finish: the steps in their order, and what sends
//! a login back to its start.

use vstd::prelude::*;
use crate::authorize::AuthorizationRequest;
use crate::http::HttpReply;
use crate::profile::{get_user, user_of_reply, DiscordUser, ProfileFetchError};
use crate::text::str_eq;
use crate::token::{exchange_result, get_token, AccessToken, ExchangeOutcome, TokenExchangeError};

verus! {

/// Where a login stands.
#[derive(Clone, PartialEq, Eq)]
pub enum LoginState {
    /// Nothing has happened yet, or the last attempt failed.
    Unauthenticated,
    /// The user was sent to the provider with the anti-forgery token
    /// `state`.
    AwaitingCallback { state: String },
    /// The provider called back with `code`, and the token it returned was
    /// the one issued.
    CodeReceived { code: String },
    /// The code was exchanged for `token`.
    TokenObtained { token: AccessToken },
    /// The profile was fetched. The login is complete.
    ProfileFetched { user: DiscordUser },
}

/// What happened to a login.
#[derive(Clone, PartialEq, Eq)]
pub enum LoginEvent {
    /// The user was redirected with this request.
    Redirected(AuthorizationRequest),
    /// The provider called back.
    Callback { code: String, state: String },
    /// The exchange of the code ended.
    Exchanged(ExchangeOutcome),
    /// The profile request ended.
    Replied(HttpReply),
}

/// Why a login went back to its start.
#[derive(Clone, Debug, PartialEq, Eq)]
pub enum LoginFailure {
    /// The event is not the one that the login was waiting for.
    Unexpected,
    /// The callback did not return the anti-forgery token that was issued.
    StateMismatch,
    Exchange(TokenExchangeError),
    Profile(ProfileFetchError),
}

/// The state after an event, with the reason where the login failed.
#[derive(Clone, PartialEq, Eq)]
pub struct Step {
    pub state: LoginState,
    pub failure: Option<LoginFailure>,
}

impl LoginState {
    /// The number of steps that lie behind the login.
    pub open spec fn rank(self) -> nat {
        match self {
            LoginState::Unauthenticated => 0,
            LoginState::AwaitingCallback { .. } => 1,
            LoginState::CodeReceived { .. } => 2,
            LoginState::TokenObtained { .. } => 3,
            LoginState::ProfileFetched { .. } => 4,
        }
    }
}

/// Whether `event` is the one that a login in state `current` waits for.
pub open spec fn expects(current: LoginState, event: LoginEvent) -> bool {
    match (current, event) {
        (LoginState::Unauthenticated, LoginEvent::Redirected(_)) => true,
        (LoginState::AwaitingCallback { .. }, LoginEvent::Callback { .. }) => true,
        (LoginState::CodeReceived { .. }, LoginEvent::Exchanged(_)) => true,
        (LoginState::TokenObtained { .. }, LoginEvent::Replied(_)) => true,
        _ => false,
    }
}

/// The failure that `event` is for a login in state `current`, if it is
/// one.
pub open spec fn failure_of(current: LoginState, event: LoginEvent) -> Option<LoginFailure> {
    match (current, event) {
        (LoginState::Unauthenticated, LoginEvent::Redirected(_)) => None,
        (LoginState::AwaitingCallback { state: issued }, LoginEvent::Callback { state, .. }) => {
            if issued@ == state@ {
                None
            } else {
                Some(LoginFailure::StateMismatch)
            }
        },
        (LoginState::CodeReceived { .. }, LoginEvent::Exchanged(outcome)) => {
            match exchange_result(outcome) {
                Ok(_) => None,
                Err(error) => Some(LoginFailure::Exchange(error)),
            }
        },
        (LoginState::TokenObtained { .. }, LoginEvent::Replied(reply)) => {
            match user_of_reply(reply) {
                Ok(_) => None,
                Err(error) => Some(LoginFailure::Profile(error)),
            }
        },
        _ => Some(LoginFailure::Unexpected),
    }
}

/// Whether `next` is the state that a login in state `current` reaches by
/// `event`, given that the event is no failure.
pub open spec fn follows(current: LoginState, event: LoginEvent, next: LoginState) -> bool {
    match (current, event) {
        (LoginState::Unauthenticated, LoginEvent::Redirected(request)) => {
            next == (LoginState::AwaitingCallback { state: request.state })
        },
        (LoginState::AwaitingCallback { .. }, LoginEvent::Callback { code, .. }) => {
            next == (LoginState::CodeReceived { code })
        },
        (LoginState::CodeReceived { .. }, LoginEvent::Exchanged(outcome)) => {
            exchange_result(outcome) matches Ok(token) && next == (LoginState::TokenObtained {
                token,
            })
        },
        (LoginState::TokenObtained { .. }, LoginEvent::Replied(reply)) => {
            user_of_reply(reply) matches Ok(profile) && next matches LoginState::ProfileFetched {
                user,
            } && user@ == profile
        },
        _ => false,
    }
}

/// Takes a login one step on. The event that the login waits for moves it
/// to the next state, unless it reports a failure; a failure, and any
/// other event, moves it back to `Unauthenticated`.
pub fn advance(current: LoginState, event: LoginEvent) -> (step: Step)
    ensures
        step.failure == failure_of(current, event),
        match step.failure {
            Some(_) => step.state == LoginState::Unauthenticated,
            None => follows(current, event, step.state) && step.state.rank() == current.rank()
                + 1,
        },
{
    match (current, event) {
        (LoginState::Unauthenticated, LoginEvent::Redirected(request)) => {
            Step { state: LoginState::AwaitingCallback { state: request.state }, failure: None }
        },
        (LoginState::AwaitingCallback { state: issued }, LoginEvent::Callback { code, state }) => {
            if str_eq(issued.as_str(), state.as_str()) {
                Step { state: LoginState::CodeReceived { code }, failure: None }
            } else {
                Step {
                    state: LoginState::Unauthenticated,
                    failure: Some(LoginFailure::StateMismatch),
                }
            }
        },
        (LoginState::CodeReceived { .. }, LoginEvent::Exchanged(outcome)) => {
            match get_token(outcome) {
                Ok(token) => Step { state: LoginState::TokenObtained { token }, failure: None },
                Err(error) => Step {
                    state: LoginState::Unauthenticated,
                    failure: Some(LoginFailure::Exchange(error)),
                },
            }
        },
        (LoginState::TokenObtained { .. }, LoginEvent::Replied(reply)) => {
            match get_user(reply) {
                Ok(user) => Step { state: LoginState::ProfileFetched { user }, failure: None },
                Err(error) => Step {
                    state: LoginState::Unauthenticated,
                    failure: Some(LoginFailure::Profile(error)),
                },
            }
        },
        _ => Step { state: LoginState::Unauthenticated, failure: Some(LoginFailure::Unexpected) },
    }
}

} // verus!
