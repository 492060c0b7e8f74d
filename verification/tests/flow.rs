use discord_auth::authorize::AuthorizationRequest;
use discord_auth::flow::{advance, LoginEvent, LoginFailure, LoginState};
use discord_auth::http::HttpReply;
use discord_auth::profile::{DiscordUser, ProfileFetchError, ProfileField, ShapeFault};
use discord_auth::token::{AccessToken, ExchangeOutcome, TokenExchangeError, TokenType};

fn request(state: &str) -> AuthorizationRequest {
    AuthorizationRequest {
        url: format!("https://provider.example/authorize?state={}", state),
        state: state.to_string(),
    }
}

fn token() -> AccessToken {
    AccessToken {
        secret: "tok".to_string(),
        token_type: TokenType::Bearer,
        expires_in: Some(3600),
        refresh_token: None,
        scopes: None,
    }
}

fn callback(code: &str, state: &str) -> LoginEvent {
    LoginEvent::Callback { code: code.to_string(), state: state.to_string() }
}

fn profile_reply() -> HttpReply {
    HttpReply::Response {
        status: 200,
        body: br#"{"id":"1","username":"n","discriminator":"0","avatar":null}"#.to_vec(),
    }
}

#[test]
fn login_runs_through_every_state_in_order() {
    let step = advance(LoginState::Unauthenticated, LoginEvent::Redirected(request("s1")));
    assert!(step.failure.is_none());
    assert!(step.state == LoginState::AwaitingCallback { state: "s1".to_string() });

    let step = advance(step.state, callback("c0de", "s1"));
    assert!(step.failure.is_none());
    assert!(step.state == LoginState::CodeReceived { code: "c0de".to_string() });

    let step = advance(step.state, LoginEvent::Exchanged(ExchangeOutcome::Granted(token())));
    assert!(step.failure.is_none());
    assert!(step.state == LoginState::TokenObtained { token: token() });

    let step = advance(step.state, LoginEvent::Replied(profile_reply()));
    assert!(step.failure.is_none());
    let user = DiscordUser::new("1".to_string(), "n".to_string(), "0".to_string(), None);
    assert!(step.state == LoginState::ProfileFetched { user });
}

#[test]
fn callback_with_another_state_restarts_the_login() {
    let waiting = LoginState::AwaitingCallback { state: "issued".to_string() };
    let step = advance(waiting, callback("c0de", "forged"));
    assert_eq!(step.failure, Some(LoginFailure::StateMismatch));
    assert!(step.state == LoginState::Unauthenticated);

    let waiting = LoginState::AwaitingCallback { state: "issued".to_string() };
    let step = advance(waiting, callback("c0de", ""));
    assert_eq!(step.failure, Some(LoginFailure::StateMismatch));
    assert!(step.state == LoginState::Unauthenticated);
}

#[test]
fn failed_exchange_restarts_the_login() {
    let received = LoginState::CodeReceived { code: "c0de".to_string() };
    let outcome = ExchangeOutcome::Refused {
        error: "invalid_grant".to_string(),
        description: None,
        uri: None,
    };
    let step = advance(received, LoginEvent::Exchanged(outcome));
    assert_eq!(
        step.failure,
        Some(LoginFailure::Exchange(TokenExchangeError::InvalidGrant { description: None }))
    );
    assert!(step.state == LoginState::Unauthenticated);
}

#[test]
fn failed_profile_request_restarts_the_login() {
    let obtained = LoginState::TokenObtained { token: token() };
    let reply = HttpReply::Response { status: 401, body: Vec::new() };
    let step = advance(obtained, LoginEvent::Replied(reply));
    assert_eq!(step.failure, Some(LoginFailure::Profile(ProfileFetchError::Unauthorized)));
    assert!(step.state == LoginState::Unauthenticated);

    let obtained = LoginState::TokenObtained { token: token() };
    let reply = HttpReply::Response { status: 200, body: b"{}".to_vec() };
    let step = advance(obtained, LoginEvent::Replied(reply));
    assert_eq!(
        step.failure,
        Some(LoginFailure::Profile(ProfileFetchError::Malformed(ShapeFault::Missing(
            ProfileField::Id
        ))))
    );
    assert!(step.state == LoginState::Unauthenticated);

    let obtained = LoginState::TokenObtained { token: token() };
    let step = advance(obtained, LoginEvent::Replied(HttpReply::Failed("timeout".to_string())));
    assert_eq!(
        step.failure,
        Some(LoginFailure::Profile(ProfileFetchError::Transport("timeout".to_string())))
    );
    assert!(step.state == LoginState::Unauthenticated);
}

#[test]
fn event_out_of_order_restarts_the_login() {
    let states = || {
        vec![
            LoginState::Unauthenticated,
            LoginState::AwaitingCallback { state: "s1".to_string() },
            LoginState::CodeReceived { code: "c0de".to_string() },
            LoginState::TokenObtained { token: token() },
            LoginState::ProfileFetched {
                user: DiscordUser::new("1".to_string(), "n".to_string(), "0".to_string(), None),
            },
        ]
    };
    let events = || {
        vec![
            LoginEvent::Redirected(request("s1")),
            callback("c0de", "s1"),
            LoginEvent::Exchanged(ExchangeOutcome::Granted(token())),
            LoginEvent::Replied(profile_reply()),
        ]
    };
    for (i, state) in states().into_iter().enumerate() {
        for (j, event) in events().into_iter().enumerate() {
            let step = advance(state.clone(), event);
            if i == j {
                assert!(step.failure.is_none());
                assert!(step.state == states()[i + 1]);
            } else {
                assert_eq!(step.failure, Some(LoginFailure::Unexpected));
                assert!(step.state == LoginState::Unauthenticated);
            }
        }
    }
}

#[test]
fn restart_after_a_failure_takes_a_new_request() {
    let waiting = LoginState::AwaitingCallback { state: "first".to_string() };
    let step = advance(waiting, callback("c0de", "forged"));
    assert!(step.state == LoginState::Unauthenticated);
    let step = advance(step.state, LoginEvent::Redirected(request("second")));
    assert!(step.failure.is_none());
    assert!(step.state == LoginState::AwaitingCallback { state: "second".to_string() });
    let step = advance(step.state, callback("c0de", "first"));
    assert_eq!(step.failure, Some(LoginFailure::StateMismatch));
}
