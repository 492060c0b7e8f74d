use discord_auth::token::{get_token, AccessToken, ExchangeOutcome, TokenExchangeError, TokenType};

fn stub_token() -> AccessToken {
    AccessToken {
        secret: "6qrZcUqja7812RVdnEKjpzOL4CvHBFG".to_string(),
        token_type: TokenType::Bearer,
        expires_in: Some(604800),
        refresh_token: Some("D43f5y0ahjqew82jZ4NViEr2YafMKhue".to_string()),
        scopes: Some(vec!["identify".to_string(), "email".to_string()]),
    }
}

#[test]
fn granted_token_matches_the_stub() {
    let token = get_token(ExchangeOutcome::Granted(stub_token())).ok().unwrap();
    assert_eq!(token.secret, "6qrZcUqja7812RVdnEKjpzOL4CvHBFG");
    assert_eq!(token.token_type, TokenType::Bearer);
    assert_eq!(token.expires_in, Some(604800));
    assert_eq!(token.refresh_token, Some("D43f5y0ahjqew82jZ4NViEr2YafMKhue".to_string()));
    assert_eq!(token.scopes, Some(vec!["identify".to_string(), "email".to_string()]));
}

#[test]
fn granted_token_without_metadata_stays_without() {
    let bare = AccessToken {
        secret: "t".to_string(),
        token_type: TokenType::Extension("dpop".to_string()),
        expires_in: None,
        refresh_token: None,
        scopes: None,
    };
    let token = get_token(ExchangeOutcome::Granted(bare.clone())).ok().unwrap();
    assert!(token == bare);
}

#[test]
fn invalid_code_is_a_token_exchange_error() {
    let outcome = ExchangeOutcome::Refused {
        error: "invalid_grant".to_string(),
        description: Some("Invalid \"code\" in request.".to_string()),
        uri: None,
    };
    assert_eq!(
        get_token(outcome).err(),
        Some(TokenExchangeError::InvalidGrant {
            description: Some("Invalid \"code\" in request.".to_string())
        })
    );
}

#[test]
fn other_error_responses_keep_their_code() {
    let outcome = ExchangeOutcome::Refused {
        error: "invalid_client".to_string(),
        description: None,
        uri: Some("https://provider.example/errors/client".to_string()),
    };
    assert_eq!(
        get_token(outcome).err(),
        Some(TokenExchangeError::Provider {
            error: "invalid_client".to_string(),
            description: None,
            uri: Some("https://provider.example/errors/client".to_string()),
        })
    );
    let outcome = ExchangeOutcome::Refused {
        error: "INVALID_GRANT".to_string(),
        description: None,
        uri: None,
    };
    assert_eq!(
        get_token(outcome).err(),
        Some(TokenExchangeError::Provider {
            error: "INVALID_GRANT".to_string(),
            description: None,
            uri: None
        })
    );
}

#[test]
fn network_failure_keeps_its_detail() {
    let outcome = ExchangeOutcome::Transport("connection refused".to_string());
    assert_eq!(
        get_token(outcome).err(),
        Some(TokenExchangeError::Network("connection refused".to_string()))
    );
}

#[test]
fn unreadable_response_keeps_its_detail() {
    let outcome = ExchangeOutcome::Unparseable("missing field `access_token`".to_string());
    assert_eq!(
        get_token(outcome).err(),
        Some(TokenExchangeError::MalformedResponse("missing field `access_token`".to_string()))
    );
}

#[test]
fn other_failure_keeps_its_detail() {
    let outcome = ExchangeOutcome::Other("Server returned empty error response".to_string());
    assert_eq!(
        get_token(outcome).err(),
        Some(TokenExchangeError::Other("Server returned empty error response".to_string()))
    );
}
