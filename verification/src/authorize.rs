//! The authorization redirect: the URL that sends the user to the provider,
//! and the anti-forgery token that goes with it.

use vstd::prelude::*;
use vstd::string::*;
use oauth2::CsrfToken;
use crate::config::{is_url_spelling, AdapterConfig, AdapterConfigView, Scope};
use crate::encoding::{form_encode, form_encoded, is_form_char};
use crate::text::{push_char, str_eq};

verus! {

/// The names of the scopes, in order, with one space between neighbours.
pub open spec fn scope_text(scopes: Seq<Scope>) -> Seq<char>
    decreases scopes.len(),
{
    if scopes.len() == 0 {
        Seq::empty()
    } else if scopes.len() == 1 {
        scopes[0].name()
    } else {
        scope_text(scopes.drop_last()) + " "@ + scopes.last().name()
    }
}

/// The `scope` parameter: left out where no scope is requested.
pub open spec fn scope_parameter(scopes: Seq<Scope>) -> Seq<char> {
    if scopes.len() == 0 {
        Seq::empty()
    } else {
        "&scope="@ + form_encoded(scope_text(scopes))
    }
}

/// The parameters of an authorization request, in form encoding: client
/// id, redirect URI, response type, anti-forgery token and scopes.
pub open spec fn authorization_query(
    client_id: Seq<char>,
    redirect_uri: Seq<char>,
    state: Seq<char>,
    scopes: Seq<Scope>,
) -> Seq<char> {
    "client_id="@ + form_encoded(client_id) + "&redirect_uri="@ + form_encoded(redirect_uri)
        + "&response_type=code&state="@ + form_encoded(state) + scope_parameter(scopes)
}

/// What stands between `head`, a URL up to its fragment, and the
/// parameters added to it: `?` where `head` has no query yet, nothing where
/// its query is empty, `&` where it already carries parameters.
pub open spec fn query_separator(head: Seq<char>) -> Seq<char> {
    if !head.contains('?') {
        "?"@
    } else if exists|i: int| 0 <= i < head.len() - 1 && head[i] == '?' {
        "&"@
    } else {
        ""@
    }
}

/// Whether the fragment of `url` starts at `at`: that is where the first
/// `#` stands, or the end of `url` where it has none.
pub open spec fn is_fragment_start(url: Seq<char>, at: int) -> bool {
    0 <= at <= url.len() && !url.take(at).contains('#') && (at < url.len() ==> url[at] == '#')
}

/// Where the fragment of `url` starts.
pub open spec fn fragment_start(url: Seq<char>) -> int {
    choose|at: int| is_fragment_start(url, at)
}

/// `url` with `query` added to its parameters: after what comes before the
/// fragment, and before the fragment itself.
pub open spec fn with_parameters(url: Seq<char>, query: Seq<char>) -> Seq<char> {
    let head = url.take(fragment_start(url));
    head + query_separator(head) + query + url.skip(fragment_start(url))
}

/// The authorization URL for a configuration and an anti-forgery token.
pub open spec fn authorization_url_text(config: AdapterConfigView, state: Seq<char>) -> Seq<
    char,
> {
    with_parameters(
        config.auth_url,
        authorization_query(config.client_id, config.redirect_uri, state, config.scopes),
    )
}

/// A URL's fragment starts at one place only.
pub proof fn lemma_fragment_start_is_unique(url: Seq<char>, at: int)
    requires
        is_fragment_start(url, at),
    ensures
        fragment_start(url) == at,
{
    let other = fragment_start(url);
    assert(is_fragment_start(url, other));
    if other < at {
        assert(url.take(at)[other] == '#');
    }
    if at < other {
        assert(url.take(other)[at] == '#');
    }
}

/// Characters that can occur in the parameters that the adapter writes:
/// those of encoded text, `&` between parameters and `=` after a name.
pub open spec fn is_query_char(c: char) -> bool {
    is_form_char(c) || c == '&' || c == '='
}

/// Every character of `text` is one that the adapter writes into a query.
pub open spec fn is_query_text(text: Seq<char>) -> bool {
    forall|i: int| 0 <= i < text.len() ==> is_query_char(#[trigger] text[i])
}

fn separator_for(head: &str) -> (separator: &'static str)
    ensures
        separator@ == query_separator(head@),
{
    let mut seen = false;
    let mut followed = false;
    for c in it: head.chars()
        invariant
            it.seq() == head@,
            seen <==> exists|i: int| 0 <= i < it.index() && head@[i] == '?',
            followed <==> exists|i: int| 0 <= i < it.index() - 1 && head@[i] == '?',
    {
        if seen {
            followed = true;
        }
        if c == '?' {
            seen = true;
        }
    }
    if !seen {
        "?"
    } else if followed {
        "&"
    } else {
        ""
    }
}

fn join_scopes(scopes: &Vec<Scope>) -> (text: String)
    ensures
        text@ == scope_text(scopes@),
{
    let mut text = String::new();
    let mut i: usize = 0;
    while i < scopes.len()
        invariant
            i <= scopes.len(),
            text@ == scope_text(scopes@.take(i as int)),
        decreases scopes.len() - i,
    {
        proof {
            assert(scopes@.take(i + 1).drop_last() =~= scopes@.take(i as int));
        }
        if i > 0 {
            text.append(" ");
        }
        text.append(scopes[i].as_str());
        i = i + 1;
    }
    proof {
        assert(scopes@.take(scopes@.len() as int) =~= scopes@);
    }
    text
}

/// The two parts of a URL: what comes before the fragment, and the
/// fragment with its `#`.
fn split_at_fragment(url: &str) -> (parts: (String, String))
    ensures
        parts.0@ == url@.take(fragment_start(url@)),
        parts.1@ == url@.skip(fragment_start(url@)),
{
    let mut head = String::new();
    let mut tail = String::new();
    let mut in_fragment = false;
    let ghost at: int = 0;
    for c in it: url.chars()
        invariant
            it.seq() == url@,
            0 <= at <= it.index(),
            in_fragment <==> at < it.index(),
            in_fragment ==> url@[at] == '#',
            !url@.take(at).contains('#'),
            head@ == url@.take(at),
            tail@ == url@.subrange(at, it.index() as int),
    {
        let ghost i = it.index() as int;
        if in_fragment || c == '#' {
            in_fragment = true;
            push_char(&mut tail, c);
            assert(tail@ =~= url@.subrange(at, i + 1));
        } else {
            push_char(&mut head, c);
            proof {
                assert(head@ =~= url@.take(i + 1));
                let upto = url@.take(i + 1);
                assert forall|j: int| 0 <= j < upto.len() implies upto[j] != '#' by {
                    if j < i {
                        assert(url@.take(at)[j] == upto[j]);
                    }
                }
                at = i + 1;
            }
        }
    }
    proof {
        assert(is_fragment_start(url@, at));
        lemma_fragment_start_is_unique(url@, at);
        assert(url@.subrange(at, url@.len() as int) =~= url@.skip(at));
    }
    (head, tail)
}

/// Builds the authorization URL for `config` with `state` as the
/// anti-forgery token.
pub fn authorization_url(config: &AdapterConfig, state: &str) -> (url: String)
    ensures
        url@ == authorization_url_text(config@, state@),
        is_url_spelling(config@.auth_url),
{
    let (head, tail) = split_at_fragment(config.auth_url());
    let separator = separator_for(head.as_str());
    let mut url = head;
    url.append(separator);
    url.append("client_id=");
    url.append(form_encode(config.client_id()).as_str());
    url.append("&redirect_uri=");
    url.append(form_encode(config.redirect_uri()).as_str());
    url.append("&response_type=code&state=");
    url.append(form_encode(state).as_str());
    let scopes = config.scopes();
    if scopes.len() > 0 {
        url.append("&scope=");
        url.append(form_encode(join_scopes(scopes).as_str()).as_str());
    }
    url.append(tail.as_str());
    assert(url@ =~= authorization_url_text(config@, state@));
    url
}

/// A character of the URL-safe base64 alphabet.
pub open spec fn is_state_char(c: char) -> bool {
    ('A' <= c <= 'Z') || ('a' <= c <= 'z') || ('0' <= c <= '9') || c == '-' || c == '_'
}

/// The shape of a token as this adapter issues it: 128 bits in URL-safe
/// base64 without padding, which is 22 characters.
pub open spec fn is_issued_state(state: Seq<char>) -> bool {
    state.len() == 22 && forall|i: int| 0 <= i < state.len() ==> is_state_char(#[trigger] state[i])
}

/// Draws a new anti-forgery token.
///
/// Trusted: calls `oauth2::CsrfToken::new_random`, which takes 16 bytes
/// from the thread's cryptographically secure generator and encodes them
/// as URL-safe base64 without padding. Only the shape of the result is
/// stated: two calls are not known to agree or to differ. The generator
/// stops the thread where the operating system cannot seed it.
#[verifier::external_body]
fn fresh_state() -> (state: String)
    ensures
        is_issued_state(state@),
{
    CsrfToken::new_random().secret().clone()
}

/// What the caller needs to send the user to the provider.
#[derive(Clone, Debug, PartialEq, Eq)]
pub struct AuthorizationRequest {
    /// Where to redirect the user.
    pub url: String,
    /// The anti-forgery token in `url`. The caller keeps it for the length
    /// of the login and compares it with the one that comes back.
    pub state: String,
}

impl AuthorizationRequest {
    /// Whether `returned`, the token that came back with the provider's
    /// redirect, is the one that this request went out with. A callback
    /// for which this is false does not belong to the login.
    pub fn state_matches(&self, returned: &str) -> (same: bool)
        ensures
            same == (self.state@ == returned@),
    {
        str_eq(self.state.as_str(), returned)
    }
}

/// Starts a login: draws a new anti-forgery token and builds the
/// authorization URL that carries it.
pub fn get_url(config: &AdapterConfig) -> (request: AuthorizationRequest)
    ensures
        is_issued_state(request.state@),
        request.url@ == authorization_url_text(config@, request.state@),
        is_url_spelling(config@.auth_url),
{
    let state = fresh_state();
    let url = authorization_url(config, state.as_str());
    AuthorizationRequest { url, state }
}

} // verus!
