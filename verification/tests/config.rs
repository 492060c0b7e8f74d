use discord_auth::config::{
    get_client, AdapterConfig, ConfigField, ConfigurationError, Scope, UrlFault,
    AUTHORIZATION_ENDPOINT, TOKEN_ENDPOINT,
};

fn text(s: &str) -> Option<String> {
    Some(s.to_string())
}

fn with_urls(auth: &str, token: &str, redirect: &str, scopes: Vec<Scope>) -> Result<AdapterConfig, ConfigurationError> {
    AdapterConfig::new(
        "abc".to_string(),
        "s3cret".to_string(),
        auth.to_string(),
        token.to_string(),
        redirect.to_string(),
        scopes,
    )
}

#[test]
fn load_without_client_id_fails() {
    let loaded = get_client(None, text("s3cret"), text("https://app.test/cb"));
    assert_eq!(loaded.err(), Some(ConfigurationError::Missing(ConfigField::ClientId)));
}

#[test]
fn load_without_client_secret_fails() {
    let loaded = get_client(text("abc"), None, text("https://app.test/cb"));
    assert_eq!(loaded.err(), Some(ConfigurationError::Missing(ConfigField::ClientSecret)));
}

#[test]
fn load_without_redirect_uri_fails() {
    let loaded = get_client(text("abc"), text("s3cret"), None);
    assert_eq!(loaded.err(), Some(ConfigurationError::Missing(ConfigField::RedirectUri)));
}

#[test]
fn load_reports_the_first_missing_field() {
    let loaded = get_client(None, None, None);
    assert_eq!(loaded.err(), Some(ConfigurationError::Missing(ConfigField::ClientId)));
    let loaded = get_client(text("abc"), None, None);
    assert_eq!(loaded.err(), Some(ConfigurationError::Missing(ConfigField::ClientSecret)));
}

#[test]
fn load_with_every_field_keeps_them() {
    let config = get_client(text("abc"), text("s3cret"), text("https://app.test/cb")).unwrap();
    assert_eq!(config.client_id(), "abc");
    assert_eq!(config.client_secret(), "s3cret");
    assert_eq!(config.redirect_uri(), "https://app.test/cb");
    assert_eq!(config.auth_url(), "https://discord.com/api/oauth2/authorize");
    assert_eq!(config.token_url(), "https://discord.com/api/oauth2/token");
    assert_eq!(config.auth_url(), AUTHORIZATION_ENDPOINT);
    assert_eq!(config.token_url(), TOKEN_ENDPOINT);
    assert_eq!(config.scopes(), &vec![Scope::Identify, Scope::Email]);
}

#[test]
fn load_accepts_empty_identifier_and_secret() {
    let config = get_client(text(""), text(""), text("https://app.test/cb")).unwrap();
    assert_eq!(config.client_id(), "");
    assert_eq!(config.client_secret(), "");
}

#[test]
fn load_with_relative_redirect_uri_fails() {
    let loaded = get_client(text("abc"), text("s3cret"), text("/cb"));
    assert_eq!(
        loaded.err(),
        Some(ConfigurationError::InvalidUrl(ConfigField::RedirectUri, UrlFault::RelativeUrlWithoutBase))
    );
}

#[test]
fn load_with_empty_redirect_uri_fails() {
    let loaded = get_client(text("abc"), text("s3cret"), text(""));
    assert_eq!(
        loaded.err(),
        Some(ConfigurationError::InvalidUrl(ConfigField::RedirectUri, UrlFault::RelativeUrlWithoutBase))
    );
}

#[test]
fn url_faults_are_told_apart() {
    let made = with_urls("https://", "https://p.example/token", "https://app.test/cb", vec![]);
    assert_eq!(
        made.err(),
        Some(ConfigurationError::InvalidUrl(ConfigField::AuthorizationEndpoint, UrlFault::EmptyHost))
    );
    let made = with_urls("https://p.example/a", "https://p.example:99999/", "https://app.test/cb", vec![]);
    assert_eq!(
        made.err(),
        Some(ConfigurationError::InvalidUrl(ConfigField::TokenEndpoint, UrlFault::InvalidPort))
    );
    let made = with_urls("https://p.example/a", "https://p.example/t", "https://[::1", vec![]);
    assert_eq!(
        made.err(),
        Some(ConfigurationError::InvalidUrl(ConfigField::RedirectUri, UrlFault::InvalidIpv6Address))
    );
}

#[test]
fn faults_are_reported_in_field_order() {
    let made = with_urls("nope", "also nope", "/cb", vec![Scope::Email, Scope::Email]);
    assert_eq!(
        made.err(),
        Some(ConfigurationError::InvalidUrl(
            ConfigField::AuthorizationEndpoint,
            UrlFault::RelativeUrlWithoutBase
        ))
    );
    let made = with_urls("https://p.example/a", "also nope", "/cb", vec![Scope::Email, Scope::Email]);
    assert_eq!(
        made.err(),
        Some(ConfigurationError::InvalidUrl(ConfigField::TokenEndpoint, UrlFault::RelativeUrlWithoutBase))
    );
    let made = with_urls("https://p.example/a", "https://p.example/t", "/cb", vec![Scope::Email, Scope::Email]);
    assert_eq!(
        made.err(),
        Some(ConfigurationError::InvalidUrl(ConfigField::RedirectUri, UrlFault::RelativeUrlWithoutBase))
    );
    let made = with_urls(
        "https://p.example/a",
        "https://p.example/t",
        "https://app.test/cb",
        vec![Scope::Email, Scope::Email],
    );
    assert_eq!(made.err(), Some(ConfigurationError::DuplicateScope(Scope::Email)));
}

#[test]
fn endpoints_are_kept_as_the_parser_spells_them() {
    let config = with_urls(
        " HTTPS://P.Example:443/a/../b c\t",
        "https://p.example",
        " HTTPS://App.Test/cb ",
        vec![],
    )
    .unwrap();
    assert_eq!(config.auth_url(), "https://p.example/b%20c");
    assert_eq!(config.token_url(), "https://p.example/");
    assert_eq!(config.redirect_uri(), " HTTPS://App.Test/cb ");
    let expected: String = url::Url::parse(" HTTPS://P.Example:443/a/../b c\t").unwrap().into();
    assert_eq!(config.auth_url(), expected);
}

#[test]
fn urls_with_query_and_fragment_are_accepted() {
    let config = with_urls(
        "https://p.example/a?tenant=7#top",
        "https://p.example/t#",
        "https://app.test/cb?next=home#x",
        vec![],
    )
    .unwrap();
    assert_eq!(config.auth_url(), "https://p.example/a?tenant=7#top");
    assert_eq!(config.token_url(), "https://p.example/t#");
    assert_eq!(config.redirect_uri(), "https://app.test/cb?next=home#x");
}

#[test]
fn repeated_scope_is_refused() {
    let made = with_urls(
        "https://p.example/a",
        "https://p.example/t",
        "https://app.test/cb",
        vec![Scope::Email, Scope::Identify, Scope::Email],
    );
    assert_eq!(made.err(), Some(ConfigurationError::DuplicateScope(Scope::Email)));
    let made = with_urls(
        "https://p.example/a",
        "https://p.example/t",
        "https://app.test/cb",
        vec![Scope::Identify, Scope::Identify, Scope::Email, Scope::Email],
    );
    assert_eq!(made.err(), Some(ConfigurationError::DuplicateScope(Scope::Identify)));
}

#[test]
fn scopes_keep_their_order() {
    let config = with_urls(
        "https://p.example/a",
        "https://p.example/t",
        "https://app.test/cb",
        vec![Scope::Email, Scope::Identify],
    )
    .unwrap();
    assert_eq!(config.scopes(), &vec![Scope::Email, Scope::Identify]);
    assert_eq!(Scope::Identify.as_str(), "identify");
    assert_eq!(Scope::Email.as_str(), "email");
}

#[test]
fn clone_keeps_every_field() {
    let config = get_client(text("abc"), text("s3cret"), text("https://app.test/cb")).unwrap();
    let copy = config.clone();
    assert_eq!(copy.client_id(), config.client_id());
    assert_eq!(copy.client_secret(), config.client_secret());
    assert_eq!(copy.auth_url(), config.auth_url());
    assert_eq!(copy.token_url(), config.token_url());
    assert_eq!(copy.redirect_uri(), config.redirect_uri());
    assert_eq!(copy.scopes(), config.scopes());
}
