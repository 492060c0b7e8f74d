//! What holds of every authorization URL that the adapter builds.

use vstd::prelude::*;
use vstd::utf8::encode_utf8;
use crate::authorize::{
    authorization_query, authorization_url_text, fragment_start, is_fragment_start,
    is_issued_state, is_query_char, is_query_text, is_state_char, lemma_fragment_start_is_unique,
    query_separator, scope_parameter, scope_text,
};
use crate::config::{AdapterConfigView, Scope};
use crate::encoding::{
    form_encoded, is_plain_char, lemma_encoded_chars, lemma_form_encoding_is_injective,
    lemma_plain_text_unchanged,
};

verus! {

proof fn lemma_query_text_concat(front: Seq<char>, back: Seq<char>)
    requires
        is_query_text(front),
        is_query_text(back),
    ensures
        is_query_text(front + back),
{
    assert forall|i: int| 0 <= i < (front + back).len() implies is_query_char(
        #[trigger] (front + back)[i],
    ) by {
        if i < front.len() {
            assert((front + back)[i] == front[i]);
        } else {
            assert((front + back)[i] == back[i - front.len()]);
        }
    }
}

proof fn lemma_encoded_is_query_text(text: Seq<char>)
    ensures
        is_query_text(form_encoded(text)),
{
    lemma_encoded_chars(encode_utf8(text));
}

/// The parameters of an authorization request hold no character that would
/// end the query or start a fragment, whatever the values are.
pub proof fn lemma_authorization_query_is_query_text(
    client_id: Seq<char>,
    redirect_uri: Seq<char>,
    state: Seq<char>,
    scopes: Seq<Scope>,
)
    ensures
        is_query_text(authorization_query(client_id, redirect_uri, state, scopes)),
{
    reveal_strlit("client_id=");
    reveal_strlit("&redirect_uri=");
    reveal_strlit("&response_type=code&state=");
    reveal_strlit("&scope=");
    assert(is_query_text("client_id="@));
    assert(is_query_text("&redirect_uri="@));
    assert(is_query_text("&response_type=code&state="@));
    assert(is_query_text("&scope="@));
    lemma_encoded_is_query_text(client_id);
    lemma_encoded_is_query_text(redirect_uri);
    lemma_encoded_is_query_text(state);
    lemma_encoded_is_query_text(scope_text(scopes));
    let a = "client_id="@ + form_encoded(client_id);
    lemma_query_text_concat("client_id="@, form_encoded(client_id));
    let b = a + "&redirect_uri="@;
    lemma_query_text_concat(a, "&redirect_uri="@);
    let c = b + form_encoded(redirect_uri);
    lemma_query_text_concat(b, form_encoded(redirect_uri));
    let d = c + "&response_type=code&state="@;
    lemma_query_text_concat(c, "&response_type=code&state="@);
    let e = d + form_encoded(state);
    lemma_query_text_concat(d, form_encoded(state));
    if scopes.len() > 0 {
        lemma_query_text_concat("&scope="@, form_encoded(scope_text(scopes)));
    }
    lemma_query_text_concat(e, scope_parameter(scopes));
}

/// The parameters go where a URL's query is: whatever the values are, the
/// fragment of the result starts after them, and is that of the endpoint.
pub proof fn lemma_parameters_precede_the_fragment(config: AdapterConfigView, state: Seq<char>)
    ensures
        ({
            let url = authorization_url_text(config, state);
            let endpoint = config.auth_url;
            let added = url.len() - endpoint.len();
            &&& fragment_start(url) == fragment_start(endpoint) + added
            &&& url.skip(fragment_start(url)) == endpoint.skip(fragment_start(endpoint))
        }),
{
    let query = authorization_query(
        config.client_id,
        config.redirect_uri,
        state,
        config.scopes,
    );
    let endpoint = config.auth_url;
    let url = authorization_url_text(config, state);
    let at = fragment_start(endpoint);
    assert(is_fragment_start(endpoint, at)) by {
        lemma_fragment_start_exists(endpoint);
    }
    let head = endpoint.take(at);
    let tail = endpoint.skip(at);
    let separator = query_separator(head);
    let front = head + separator + query;
    lemma_authorization_query_is_query_text(
        config.client_id,
        config.redirect_uri,
        state,
        config.scopes,
    );
    reveal_strlit("?");
    reveal_strlit("&");
    reveal_strlit("");
    assert forall|i: int| 0 <= i < front.len() implies front[i] != '#' by {
        if i < head.len() {
            assert(front[i] == head[i]);
        } else if i < head.len() + separator.len() {
            assert(front[i] == separator[i - head.len()]);
        } else {
            assert(front[i] == query[i - head.len() - separator.len()]);
            assert(is_query_char(query[i - head.len() - separator.len()]));
        }
    }
    assert(url =~= front + tail);
    assert(url.take(front.len() as int) =~= front);
    assert(url.skip(front.len() as int) =~= tail);
    if front.len() < url.len() {
        assert(url[front.len() as int] == tail[0]);
        assert(tail[0] == endpoint[at]);
    }
    assert(is_fragment_start(url, front.len() as int));
    lemma_fragment_start_is_unique(url, front.len() as int);
}

/// Every URL has a place where its fragment starts.
pub proof fn lemma_fragment_start_exists(url: Seq<char>)
    ensures
        is_fragment_start(url, fragment_start(url)),
    decreases url.len(),
{
    if url.len() == 0 {
        assert(is_fragment_start(url, 0));
    } else {
        let front = url.drop_last();
        lemma_fragment_start_exists(front);
        let at = fragment_start(front);
        if at < front.len() {
            assert(url.take(at) =~= front.take(at));
            assert(is_fragment_start(url, at));
        } else if url.last() == '#' {
            assert(url.take(at) =~= front.take(at));
            assert(is_fragment_start(url, at));
        } else {
            assert(front.take(at) =~= front);
            assert(url.take(url.len() as int) =~= url);
            assert forall|i: int| 0 <= i < url.len() implies url[i] != '#' by {
                if i < front.len() {
                    assert(front[i] == url[i]);
                }
            }
            assert(is_fragment_start(url, url.len() as int));
        }
    }
}

/// An issued anti-forgery token stands in the URL as it is: its encoding
/// changes nothing.
pub proof fn lemma_issued_state_is_its_own_encoding(state: Seq<char>)
    requires
        is_issued_state(state),
    ensures
        form_encoded(state) == state,
{
    assert forall|i: int| 0 <= i < state.len() implies is_plain_char(#[trigger] state[i]) by {
        assert(is_state_char(state[i]));
    }
    lemma_plain_text_unchanged(state);
}

/// No character of `text` is `&`.
pub open spec fn has_no_ampersand(text: Seq<char>) -> bool {
    forall|i: int| 0 <= i < text.len() ==> #[trigger] text[i] != '&'
}

/// `text` is empty or starts with `&`.
pub open spec fn starts_parameter(text: Seq<char>) -> bool {
    text.len() > 0 ==> text[0] == '&'
}

proof fn lemma_encoded_has_no_ampersand(text: Seq<char>)
    ensures
        has_no_ampersand(form_encoded(text)),
{
    lemma_encoded_chars(encode_utf8(text));
}

/// A text is cut in one way only into a part without `&` and a rest that
/// is empty or starts with `&`.
proof fn lemma_split_at_ampersand(a1: Seq<char>, x1: Seq<char>, a2: Seq<char>, x2: Seq<char>)
    requires
        a1 + x1 == a2 + x2,
        has_no_ampersand(a1),
        has_no_ampersand(a2),
        starts_parameter(x1),
        starts_parameter(x2),
    ensures
        a1 == a2,
        x1 == x2,
{
    let whole = a1 + x1;
    assert(whole.len() == a1.len() + x1.len());
    assert(whole.len() == a2.len() + x2.len());
    if a1.len() < a2.len() {
        assert(whole[a1.len() as int] == x1[0]);
        assert((a2 + x2)[a1.len() as int] == a2[a1.len() as int]);
    }
    if a2.len() < a1.len() {
        assert((a2 + x2)[a2.len() as int] == x2[0]);
        assert(whole[a2.len() as int] == a1[a2.len() as int]);
    }
    assert(a1 =~= whole.take(a1.len() as int));
    assert(a2 =~= (a2 + x2).take(a2.len() as int));
    assert(x1 =~= whole.skip(a1.len() as int));
    assert(x2 =~= (a2 + x2).skip(a2.len() as int));
}

proof fn lemma_strip_prefix(prefix: Seq<char>, a: Seq<char>, b: Seq<char>)
    requires
        prefix + a == prefix + b,
    ensures
        a == b,
{
    assert(a =~= (prefix + a).skip(prefix.len() as int));
    assert(b =~= (prefix + b).skip(prefix.len() as int));
}

proof fn lemma_strip_suffix(a: Seq<char>, b: Seq<char>, suffix: Seq<char>)
    requires
        a + suffix == b + suffix,
    ensures
        a == b,
{
    assert((a + suffix).len() == a.len() + suffix.len());
    assert((b + suffix).len() == b.len() + suffix.len());
    assert(a =~= (a + suffix).take(a.len() as int));
    assert(b =~= (b + suffix).take(b.len() as int));
}

/// What stands before the last name in the text of a list of scopes.
spec fn scope_text_front(scopes: Seq<Scope>) -> Seq<char> {
    if scopes.len() <= 1 {
        Seq::empty()
    } else {
        scope_text(scopes.drop_last()) + " "@
    }
}

proof fn lemma_scope_text_ends_with_name(scopes: Seq<Scope>)
    requires
        scopes.len() > 0,
    ensures
        scope_text(scopes) == scope_text_front(scopes) + scopes.last().name(),
        scope_text(scopes).len() > 0,
        scope_text(scopes).last() == scopes.last().name().last(),
        scopes.len() > 1 ==> scope_text_front(scopes).len() > 0,
{
    reveal_strlit("identify");
    reveal_strlit("email");
    reveal_strlit(" ");
    let name = scopes.last().name();
    assert(name.len() > 0);
    if scopes.len() == 1 {
        assert(scope_text(scopes) =~= scope_text_front(scopes) + name);
    } else {
        assert(scope_text(scopes) =~= scope_text_front(scopes) + name);
    }
}

/// The text of a list of scopes names the list: two lists with the same
/// text are the same list.
pub proof fn lemma_scope_text_is_injective(left: Seq<Scope>, right: Seq<Scope>)
    requires
        scope_text(left) == scope_text(right),
    ensures
        left == right,
    decreases left.len(),
{
    if left.len() == 0 || right.len() == 0 {
        if left.len() > 0 {
            lemma_scope_text_ends_with_name(left);
        }
        if right.len() > 0 {
            lemma_scope_text_ends_with_name(right);
        }
        assert(left =~= right);
    } else {
        lemma_scope_text_ends_with_name(left);
        lemma_scope_text_ends_with_name(right);
        reveal_strlit("identify");
        reveal_strlit("email");
        reveal_strlit(" ");
        assert(left.last() == right.last());
        lemma_strip_suffix(
            scope_text_front(left),
            scope_text_front(right),
            left.last().name(),
        );
        if left.len() == 1 || right.len() == 1 {
            assert(left.len() == 1 && right.len() == 1);
            assert(left =~= right);
        } else {
            lemma_strip_suffix(
                scope_text(left.drop_last()),
                scope_text(right.drop_last()),
                " "@,
            );
            lemma_scope_text_is_injective(left.drop_last(), right.drop_last());
            assert(left =~= left.drop_last().push(left.last()));
            assert(right =~= right.drop_last().push(right.last()));
        }
    }
}

/// The parameters from the anti-forgery token on.
spec fn from_state(state: Seq<char>, scopes: Seq<Scope>) -> Seq<char> {
    form_encoded(state) + scope_parameter(scopes)
}

/// The parameters from the redirect URI on, without its name.
spec fn from_redirect_uri(redirect_uri: Seq<char>, state: Seq<char>, scopes: Seq<Scope>) -> Seq<
    char,
> {
    form_encoded(redirect_uri) + ("&response_type=code&state="@ + from_state(state, scopes))
}

/// The parameters from the client id on, without its name.
spec fn from_client_id(
    client_id: Seq<char>,
    redirect_uri: Seq<char>,
    state: Seq<char>,
    scopes: Seq<Scope>,
) -> Seq<char> {
    form_encoded(client_id) + ("&redirect_uri="@ + from_redirect_uri(redirect_uri, state, scopes))
}

proof fn lemma_query_layers(
    client_id: Seq<char>,
    redirect_uri: Seq<char>,
    state: Seq<char>,
    scopes: Seq<Scope>,
)
    ensures
        authorization_query(client_id, redirect_uri, state, scopes) == "client_id="@
            + from_client_id(client_id, redirect_uri, state, scopes),
{
    assert(authorization_query(client_id, redirect_uri, state, scopes) =~= "client_id="@
        + from_client_id(client_id, redirect_uri, state, scopes));
}

proof fn lemma_name_starts_parameter(name: Seq<char>, rest: Seq<char>)
    requires
        name == "&redirect_uri="@ || name == "&response_type=code&state="@ || name == "&scope="@,
    ensures
        starts_parameter(name + rest),
        name.len() > 0,
{
    reveal_strlit("&redirect_uri=");
    reveal_strlit("&response_type=code&state=");
    reveal_strlit("&scope=");
    assert(name.len() > 0);
    assert((name + rest)[0] == name[0]);
}

proof fn lemma_peel_value(
    value: Seq<char>,
    name: Seq<char>,
    rest: Seq<char>,
    other_value: Seq<char>,
    other_rest: Seq<char>,
)
    requires
        name == "&redirect_uri="@ || name == "&response_type=code&state="@ || name == "&scope="@,
        form_encoded(value) + (name + rest) == form_encoded(other_value) + (name + other_rest),
    ensures
        value == other_value,
        rest == other_rest,
{
    lemma_encoded_has_no_ampersand(value);
    lemma_encoded_has_no_ampersand(other_value);
    lemma_name_starts_parameter(name, rest);
    lemma_name_starts_parameter(name, other_rest);
    lemma_split_at_ampersand(
        form_encoded(value),
        name + rest,
        form_encoded(other_value),
        name + other_rest,
    );
    lemma_form_encoding_is_injective(value, other_value);
    lemma_strip_prefix(name, rest, other_rest);
}

proof fn lemma_peel_state(
    state: Seq<char>,
    scopes: Seq<Scope>,
    other_state: Seq<char>,
    other_scopes: Seq<Scope>,
)
    requires
        from_state(state, scopes) == from_state(other_state, other_scopes),
    ensures
        state == other_state,
        scopes == other_scopes,
{
    let parameter = scope_parameter(scopes);
    let other_parameter = scope_parameter(other_scopes);
    lemma_encoded_has_no_ampersand(state);
    lemma_encoded_has_no_ampersand(other_state);
    if scopes.len() > 0 {
        lemma_name_starts_parameter("&scope="@, form_encoded(scope_text(scopes)));
    }
    if other_scopes.len() > 0 {
        lemma_name_starts_parameter("&scope="@, form_encoded(scope_text(other_scopes)));
    }
    lemma_split_at_ampersand(
        form_encoded(state),
        parameter,
        form_encoded(other_state),
        other_parameter,
    );
    lemma_form_encoding_is_injective(state, other_state);
    if scopes.len() == 0 || other_scopes.len() == 0 {
        assert(parameter.len() == 0 || other_parameter.len() == 0);
        assert(scopes =~= other_scopes);
    } else {
        lemma_strip_prefix(
            "&scope="@,
            form_encoded(scope_text(scopes)),
            form_encoded(scope_text(other_scopes)),
        );
        lemma_form_encoding_is_injective(scope_text(scopes), scope_text(other_scopes));
        lemma_scope_text_is_injective(scopes, other_scopes);
    }
}

/// The parameters name their values: two authorization requests with the
/// same parameters have the same client id, redirect URI, anti-forgery
/// token and scopes. So a URL holds the configured values and no others.
pub proof fn lemma_authorization_query_names_its_values(
    client_id: Seq<char>,
    redirect_uri: Seq<char>,
    state: Seq<char>,
    scopes: Seq<Scope>,
    other_client_id: Seq<char>,
    other_redirect_uri: Seq<char>,
    other_state: Seq<char>,
    other_scopes: Seq<Scope>,
)
    requires
        authorization_query(client_id, redirect_uri, state, scopes) == authorization_query(
            other_client_id,
            other_redirect_uri,
            other_state,
            other_scopes,
        ),
    ensures
        client_id == other_client_id,
        redirect_uri == other_redirect_uri,
        state == other_state,
        scopes == other_scopes,
{
    lemma_query_layers(client_id, redirect_uri, state, scopes);
    lemma_query_layers(other_client_id, other_redirect_uri, other_state, other_scopes);
    lemma_strip_prefix(
        "client_id="@,
        from_client_id(client_id, redirect_uri, state, scopes),
        from_client_id(other_client_id, other_redirect_uri, other_state, other_scopes),
    );
    lemma_peel_value(
        client_id,
        "&redirect_uri="@,
        from_redirect_uri(redirect_uri, state, scopes),
        other_client_id,
        from_redirect_uri(other_redirect_uri, other_state, other_scopes),
    );
    lemma_peel_value(
        redirect_uri,
        "&response_type=code&state="@,
        from_state(state, scopes),
        other_redirect_uri,
        from_state(other_state, other_scopes),
    );
    lemma_peel_state(state, scopes, other_state, other_scopes);
}

/// An authorization URL holds the configured values and no others: two
/// URLs for one endpoint are the same only where client id, redirect URI,
/// anti-forgery token and scopes are.
pub proof fn lemma_authorization_url_names_its_values(
    config: AdapterConfigView,
    state: Seq<char>,
    other: AdapterConfigView,
    other_state: Seq<char>,
)
    requires
        config.auth_url == other.auth_url,
        authorization_url_text(config, state) == authorization_url_text(other, other_state),
    ensures
        config.client_id == other.client_id,
        config.redirect_uri == other.redirect_uri,
        state == other_state,
        config.scopes == other.scopes,
{
    let endpoint = config.auth_url;
    let head = endpoint.take(fragment_start(endpoint));
    let tail = endpoint.skip(fragment_start(endpoint));
    let front = head + query_separator(head);
    let query = authorization_query(
        config.client_id,
        config.redirect_uri,
        state,
        config.scopes,
    );
    let other_query = authorization_query(
        other.client_id,
        other.redirect_uri,
        other_state,
        other.scopes,
    );
    assert(authorization_url_text(config, state) =~= (front + query) + tail);
    assert(authorization_url_text(other, other_state) =~= (front + other_query) + tail);
    lemma_strip_suffix(front + query, front + other_query, tail);
    lemma_strip_prefix(front, query, other_query);
    lemma_authorization_query_names_its_values(
        config.client_id,
        config.redirect_uri,
        state,
        config.scopes,
        other.client_id,
        other.redirect_uri,
        other_state,
        other.scopes,
    );
}

} // verus!
