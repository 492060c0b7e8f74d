//! The adapter's configuration: what it holds, and the checks that a value
//! passes before it exists.

use vstd::prelude::*;
use vstd::string::*;
use url::ParseError;

verus! {

/// Where the provider takes the user for authorization.
pub const AUTHORIZATION_ENDPOINT: &'static str = "https://discord.com/api/oauth2/authorize";

/// Where an authorization code is exchanged for an access token.
pub const TOKEN_ENDPOINT: &'static str = "https://discord.com/api/oauth2/token";

/// A permission that the adapter can ask the provider for.
#[derive(Clone, Copy, Debug, PartialEq, Eq, Structural)]
pub enum Scope {
    /// Read the user's basic profile.
    Identify,
    /// Read the user's verified email address.
    Email,
}

impl Scope {
    /// The scope as the provider spells it.
    pub open spec fn name(self) -> Seq<char> {
        match self {
            Scope::Identify => "identify"@,
            Scope::Email => "email"@,
        }
    }

    /// The scope as the provider spells it.
    pub fn as_str(&self) -> (name: &'static str)
        ensures
            name@ == self.name(),
    {
        match self {
            Scope::Identify => "identify",
            Scope::Email => "email",
        }
    }
}

/// A field of the configuration.
#[derive(Clone, Copy, Debug, PartialEq, Eq, Structural)]
pub enum ConfigField {
    ClientId,
    ClientSecret,
    AuthorizationEndpoint,
    TokenEndpoint,
    RedirectUri,
}

/// Why a text is no absolute URL.
#[derive(Clone, Copy, Debug, PartialEq, Eq, Structural)]
pub enum UrlFault {
    EmptyHost,
    IdnaError,
    InvalidPort,
    InvalidIpv4Address,
    InvalidIpv6Address,
    InvalidDomainCharacter,
    RelativeUrlWithoutBase,
    RelativeUrlWithCannotBeABaseBase,
    SetHostOnCannotBeABaseUrl,
    Overflow,
    /// A reason that the URL parser added after this list was written.
    Other,
}

/// Why a configuration was refused.
#[derive(Clone, Copy, Debug, PartialEq, Eq, Structural)]
pub enum ConfigurationError {
    /// A required field was not supplied.
    Missing(ConfigField),
    /// The field is no absolute URL.
    InvalidUrl(ConfigField, UrlFault),
    /// The scope is requested more than once.
    DuplicateScope(Scope),
}

/// What the URL parser makes of `text`: the URL in the parser's own
/// spelling, or its objection where `text` is no absolute URL.
pub uninterp spec fn parsed_url(text: Seq<char>) -> Result<Seq<char>, UrlFault>;

/// Runs the URL parser over `text`.
///
/// Trusted: calls `url::Url::parse` and hands back the URL as the parser
/// serializes it, or its error, variant for variant. The parser reads
/// nothing but its argument, so what it returns is a function of the text:
/// `parsed_url`.
#[verifier::external_body]
fn parse_url(text: &str) -> (parsed: Result<String, UrlFault>)
    ensures
        match parsed_url(text@) {
            Ok(spelling) => parsed matches Ok(url) && url@ == spelling,
            Err(fault) => parsed == Err::<String, UrlFault>(fault),
        },
{
    Err(match url::Url::parse(text) {
        Ok(url) => return Ok(url.into()),
        Err(ParseError::EmptyHost) => UrlFault::EmptyHost,
        Err(ParseError::IdnaError) => UrlFault::IdnaError,
        Err(ParseError::InvalidPort) => UrlFault::InvalidPort,
        Err(ParseError::InvalidIpv4Address) => UrlFault::InvalidIpv4Address,
        Err(ParseError::InvalidIpv6Address) => UrlFault::InvalidIpv6Address,
        Err(ParseError::InvalidDomainCharacter) => UrlFault::InvalidDomainCharacter,
        Err(ParseError::RelativeUrlWithoutBase) => UrlFault::RelativeUrlWithoutBase,
        Err(ParseError::RelativeUrlWithCannotBeABaseBase) => UrlFault::RelativeUrlWithCannotBeABaseBase,
        Err(ParseError::SetHostOnCannotBeABaseUrl) => UrlFault::SetHostOnCannotBeABaseUrl,
        Err(ParseError::Overflow) => UrlFault::Overflow,
        Err(_) => UrlFault::Other,
    })
}

/// Whether `text` is a URL as the parser spells one.
pub open spec fn is_url_spelling(text: Seq<char>) -> bool {
    exists|raw: Seq<char>| parsed_url(raw) == Ok::<Seq<char>, UrlFault>(text)
}

/// What is wrong with `text` as the URL of `field`, if anything.
pub open spec fn url_field_fault(field: ConfigField, text: Seq<char>) -> Option<
    ConfigurationError,
> {
    match parsed_url(text) {
        Ok(_) => None,
        Err(fault) => Some(ConfigurationError::InvalidUrl(field, fault)),
    }
}

/// The first scope, in order, that an earlier position already holds.
pub open spec fn first_repeat(scopes: Seq<Scope>) -> Option<Scope>
    decreases scopes.len(),
{
    if scopes.len() == 0 {
        None
    } else {
        match first_repeat(scopes.drop_last()) {
            Some(scope) => Some(scope),
            None => if scopes.drop_last().contains(scopes.last()) {
                Some(scopes.last())
            } else {
                None
            },
        }
    }
}

/// No scope occurs at two positions.
pub open spec fn distinct(scopes: Seq<Scope>) -> bool {
    forall|i: int, j: int| 0 <= i < j < scopes.len() ==> scopes[i] != scopes[j]
}

/// The first thing wrong with the parts of a configuration, in the order
/// authorization endpoint, token endpoint, redirect URI, scopes.
pub open spec fn config_fault(
    auth_url: Seq<char>,
    token_url: Seq<char>,
    redirect_uri: Seq<char>,
    scopes: Seq<Scope>,
) -> Option<ConfigurationError> {
    if url_field_fault(ConfigField::AuthorizationEndpoint, auth_url) is Some {
        url_field_fault(ConfigField::AuthorizationEndpoint, auth_url)
    } else if url_field_fault(ConfigField::TokenEndpoint, token_url) is Some {
        url_field_fault(ConfigField::TokenEndpoint, token_url)
    } else if url_field_fault(ConfigField::RedirectUri, redirect_uri) is Some {
        url_field_fault(ConfigField::RedirectUri, redirect_uri)
    } else {
        match first_repeat(scopes) {
            Some(scope) => Some(ConfigurationError::DuplicateScope(scope)),
            None => None,
        }
    }
}

/// A list of scopes has a repeat exactly when it is not `distinct`.
pub proof fn lemma_first_repeat_none_iff_distinct(scopes: Seq<Scope>)
    ensures
        first_repeat(scopes) is None <==> distinct(scopes),
    decreases scopes.len(),
{
    if scopes.len() > 0 {
        let front = scopes.drop_last();
        lemma_first_repeat_none_iff_distinct(front);
        if first_repeat(scopes) is None {
            assert forall|i: int, j: int| 0 <= i < j < scopes.len() implies scopes[i]
                != scopes[j] by {
                if j < front.len() {
                    assert(front[i] != front[j]);
                } else {
                    assert(front[i] == scopes[i]);
                }
            }
        }
        if distinct(scopes) {
            assert forall|i: int, j: int| 0 <= i < j < front.len() implies front[i]
                != front[j] by {
                assert(scopes[i] != scopes[j]);
            }
            if front.contains(scopes.last()) {
                let i = choose|i: int| 0 <= i < front.len() && front[i] == scopes.last();
                assert(scopes[i] != scopes[scopes.len() - 1]);
            }
        }
    }
}

fn parse_url_field(field: ConfigField, text: &str) -> (parsed: Result<String, ConfigurationError>)
    ensures
        match parsed_url(text@) {
            Ok(spelling) => parsed matches Ok(url) && url@ == spelling,
            Err(fault) => parsed == Err::<String, ConfigurationError>(
                ConfigurationError::InvalidUrl(field, fault),
            ),
        },
{
    match parse_url(text) {
        Ok(url) => Ok(url),
        Err(fault) => Err(ConfigurationError::InvalidUrl(field, fault)),
    }
}

fn find_repeat(scopes: &Vec<Scope>) -> (repeat: Option<Scope>)
    ensures
        repeat == first_repeat(scopes@),
{
    let mut i: usize = 0;
    while i < scopes.len()
        invariant
            i <= scopes.len(),
            first_repeat(scopes@.take(i as int)) is None,
        decreases scopes.len() - i,
    {
        let scope = scopes[i];
        let mut j: usize = 0;
        let mut seen = false;
        while j < i
            invariant
                j <= i < scopes.len(),
                scope == scopes@[i as int],
                seen <==> exists|k: int| 0 <= k < j && scopes@[k] == scope,
            decreases i - j,
        {
            if scopes[j] == scope {
                seen = true;
            }
            j = j + 1;
        }
        proof {
            let upto = scopes@.take(i + 1);
            assert(upto.drop_last() =~= scopes@.take(i as int));
            assert(upto.last() == scope);
            if seen {
                let k = choose|k: int| 0 <= k < i && scopes@[k] == scope;
                assert(upto.drop_last()[k] == scope);
                lemma_first_repeat_extends(scopes@, i + 1);
            }
        }
        if seen {
            return Some(scope);
        }
        i = i + 1;
    }
    proof {
        assert(scopes@.take(scopes@.len() as int) =~= scopes@);
    }
    None
}

/// A repeat within the first `n` scopes is the first repeat of the whole
/// list.
proof fn lemma_first_repeat_extends(scopes: Seq<Scope>, n: int)
    requires
        0 <= n <= scopes.len(),
        first_repeat(scopes.take(n)) is Some,
    ensures
        first_repeat(scopes) == first_repeat(scopes.take(n)),
    decreases scopes.len() - n,
{
    if n < scopes.len() {
        assert(scopes.take(n + 1).drop_last() =~= scopes.take(n));
        lemma_first_repeat_extends(scopes, n + 1);
    } else {
        assert(scopes.take(n) =~= scopes);
    }
}

/// What a configuration holds.
pub struct AdapterConfigView {
    pub client_id: Seq<char>,
    pub client_secret: Seq<char>,
    pub auth_url: Seq<char>,
    pub token_url: Seq<char>,
    pub redirect_uri: Seq<char>,
    pub scopes: Seq<Scope>,
}

/// The adapter's configuration. Its endpoints are URLs in the parser's
/// spelling, its redirect URI is one that the parser accepts, and no scope
/// occurs twice. Nothing changes a value once it exists.
pub struct AdapterConfig {
    client_id: String,
    client_secret: String,
    auth_url: String,
    token_url: String,
    redirect_uri: String,
    scopes: Vec<Scope>,
}

impl View for AdapterConfig {
    type V = AdapterConfigView;

    closed spec fn view(&self) -> AdapterConfigView {
        AdapterConfigView {
            client_id: self.client_id@,
            client_secret: self.client_secret@,
            auth_url: self.auth_url@,
            token_url: self.token_url@,
            redirect_uri: self.redirect_uri@,
            scopes: self.scopes@,
        }
    }
}

impl Clone for AdapterConfig {
    fn clone(&self) -> (copy: Self)
        ensures
            copy@ == self@,
    {
        proof {
            use_type_invariant(self);
        }
        AdapterConfig {
            client_id: self.client_id.clone(),
            client_secret: self.client_secret.clone(),
            auth_url: self.auth_url.clone(),
            token_url: self.token_url.clone(),
            redirect_uri: self.redirect_uri.clone(),
            scopes: self.scopes.clone(),
        }
    }
}

/// The scopes that the adapter asks for unless told otherwise.
pub open spec fn default_scopes() -> Seq<Scope> {
    seq![Scope::Identify, Scope::Email]
}

/// The first required field, in the order client id, client secret, redirect
/// URI, that was not supplied.
pub open spec fn missing_field(
    client_id: Option<String>,
    client_secret: Option<String>,
    redirect_uri: Option<String>,
) -> Option<ConfigField> {
    if client_id is None {
        Some(ConfigField::ClientId)
    } else if client_secret is None {
        Some(ConfigField::ClientSecret)
    } else if redirect_uri is None {
        Some(ConfigField::RedirectUri)
    } else {
        None
    }
}

impl AdapterConfig {
    #[verifier::type_invariant]
    spec fn checked(&self) -> bool {
        &&& is_url_spelling(self.auth_url@)
        &&& is_url_spelling(self.token_url@)
        &&& parsed_url(self.redirect_uri@) is Ok
        &&& first_repeat(self.scopes@) is None
    }

    /// Builds a configuration from its parts, or says what is wrong with
    /// the first part that fails a check. The two endpoints are kept as the
    /// URL parser spells them, the redirect URI as it was given.
    pub fn new(
        client_id: String,
        client_secret: String,
        auth_url: String,
        token_url: String,
        redirect_uri: String,
        scopes: Vec<Scope>,
    ) -> (made: Result<AdapterConfig, ConfigurationError>)
        ensures
            match config_fault(auth_url@, token_url@, redirect_uri@, scopes@) {
                Some(fault) => made == Err::<AdapterConfig, ConfigurationError>(fault),
                None => made matches Ok(config) && config@ == (AdapterConfigView {
                    client_id: client_id@,
                    client_secret: client_secret@,
                    auth_url: parsed_url(auth_url@)->Ok_0,
                    token_url: parsed_url(token_url@)->Ok_0,
                    redirect_uri: redirect_uri@,
                    scopes: scopes@,
                }),
            },
    {
        let ghost given_auth_url = auth_url@;
        let ghost given_token_url = token_url@;
        let auth_url = match parse_url_field(ConfigField::AuthorizationEndpoint, auth_url.as_str()) {
            Ok(url) => url,
            Err(fault) => return Err(fault),
        };
        let token_url = match parse_url_field(ConfigField::TokenEndpoint, token_url.as_str()) {
            Ok(url) => url,
            Err(fault) => return Err(fault),
        };
        if let Err(fault) = parse_url_field(ConfigField::RedirectUri, redirect_uri.as_str()) {
            return Err(fault);
        }
        if let Some(scope) = find_repeat(&scopes) {
            return Err(ConfigurationError::DuplicateScope(scope));
        }
        assert(parsed_url(given_auth_url) == Ok::<Seq<char>, UrlFault>(auth_url@));
        assert(parsed_url(given_token_url) == Ok::<Seq<char>, UrlFault>(token_url@));
        Ok(AdapterConfig { client_id, client_secret, auth_url, token_url, redirect_uri, scopes })
    }

    /// The client identifier.
    pub fn client_id(&self) -> (text: &str)
        ensures
            text@ == self@.client_id,
    {
        self.client_id.as_str()
    }

    /// The client secret.
    pub fn client_secret(&self) -> (text: &str)
        ensures
            text@ == self@.client_secret,
    {
        self.client_secret.as_str()
    }

    /// The authorization endpoint: a URL as the parser spells it.
    pub fn auth_url(&self) -> (text: &str)
        ensures
            text@ == self@.auth_url,
            is_url_spelling(text@),
    {
        proof {
            use_type_invariant(self);
        }
        self.auth_url.as_str()
    }

    /// The token endpoint: a URL as the parser spells it.
    pub fn token_url(&self) -> (text: &str)
        ensures
            text@ == self@.token_url,
            is_url_spelling(text@),
    {
        proof {
            use_type_invariant(self);
        }
        self.token_url.as_str()
    }

    /// The redirect URI: a text that the URL parser accepts.
    pub fn redirect_uri(&self) -> (text: &str)
        ensures
            text@ == self@.redirect_uri,
            parsed_url(text@) is Ok,
    {
        proof {
            use_type_invariant(self);
        }
        self.redirect_uri.as_str()
    }

    /// The requested scopes, in order and without repeats.
    pub fn scopes(&self) -> (list: &Vec<Scope>)
        ensures
            list@ == self@.scopes,
            distinct(list@),
    {
        proof {
            use_type_invariant(self);
            lemma_first_repeat_none_iff_distinct(self.scopes@);
        }
        &self.scopes
    }
}

/// Loads the configuration for the provider's own endpoints and the default
/// scopes from the three values that a deployment supplies. A value that is
/// absent is an error; nothing is filled in for it.
pub fn get_client(
    client_id: Option<String>,
    client_secret: Option<String>,
    redirect_uri: Option<String>,
) -> (loaded: Result<AdapterConfig, ConfigurationError>)
    ensures
        match missing_field(client_id, client_secret, redirect_uri) {
            Some(field) => loaded == Err::<AdapterConfig, ConfigurationError>(
                ConfigurationError::Missing(field),
            ),
            None => match config_fault(
                AUTHORIZATION_ENDPOINT@,
                TOKEN_ENDPOINT@,
                redirect_uri->0@,
                default_scopes(),
            ) {
                Some(fault) => loaded == Err::<AdapterConfig, ConfigurationError>(fault),
                None => loaded matches Ok(config) && config@ == (AdapterConfigView {
                    client_id: client_id->0@,
                    client_secret: client_secret->0@,
                    auth_url: parsed_url(AUTHORIZATION_ENDPOINT@)->Ok_0,
                    token_url: parsed_url(TOKEN_ENDPOINT@)->Ok_0,
                    redirect_uri: redirect_uri->0@,
                    scopes: default_scopes(),
                }),
            },
        },
{
    let client_id = match client_id {
        Some(text) => text,
        None => return Err(ConfigurationError::Missing(ConfigField::ClientId)),
    };
    let client_secret = match client_secret {
        Some(text) => text,
        None => return Err(ConfigurationError::Missing(ConfigField::ClientSecret)),
    };
    let redirect_uri = match redirect_uri {
        Some(text) => text,
        None => return Err(ConfigurationError::Missing(ConfigField::RedirectUri)),
    };
    let scopes = vec![Scope::Identify, Scope::Email];
    assert(scopes@ =~= default_scopes());
    AdapterConfig::new(
        client_id,
        client_secret,
        String::from_str(AUTHORIZATION_ENDPOINT),
        String::from_str(TOKEN_ENDPOINT),
        redirect_uri,
        scopes,
    )
}

} // verus!
