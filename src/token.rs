use vstd::prelude::*;
use crate::error::{HandshakeError, ProtocolFault};
use crate::lookup::{find_last, keys_of, last_index_of};

verus! {

/// What `str::trim` leaves of a string.
pub uninterp spec fn trimmed(s: Seq<char>) -> Seq<char>;

/// The decoded query pairs of a URL, in order, or `None` where the text does
/// not parse as an absolute URL.
pub uninterp spec fn url_query_pairs(s: Seq<char>) -> Option<Seq<(Seq<char>, Seq<char>)>>;

/// Relies on `str::trim`: the string without leading and trailing whitespace,
/// a function of its characters alone.
#[verifier::external_body]
fn trim(s: &str) -> (r: String)
    ensures
        r@ == trimmed(s@),
{
    s.trim().to_string()
}

/// Relies on `reqwest::Url::parse` (the `url` crate's parser), and on
/// `Url::query_pairs`, which percent-decodes the query component into
/// key/value pairs in order. Both depend on the text alone.
#[verifier::external_body]
fn parse_query_pairs(s: &str) -> (r: Option<Vec<(String, String)>>)
    ensures
        match url_query_pairs(s@) {
            Some(q) => r matches Some(v) && pairs_view(v@) == q,
            None => r is None,
        },
{
    match reqwest::Url::parse(s) {
        Ok(u) => Some(u.query_pairs().map(|(k, v)| (k.into_owned(), v.into_owned())).collect()),
        Err(_) => None,
    }
}

/// A list of string pairs as pairs of character sequences.
pub open spec fn pairs_view(v: Seq<(String, String)>) -> Seq<(Seq<char>, Seq<char>)> {
    v.map_values(|p: (String, String)| (p.0@, p.1@))
}

/// The value that a list of pairs gives to `key`: that of its last pair with
/// this key.
pub open spec fn value_of(q: Seq<(Seq<char>, Seq<char>)>, key: Seq<char>) -> Option<Seq<char>> {
    match last_index_of(q.map_values(|p: (Seq<char>, Seq<char>)| p.0), key) {
        Some(i) => Some(q[i].1),
        None => None,
    }
}

/// The login URL that a broker's login response carries, trimmed.
pub open spec fn login_url_of(response: Seq<(Seq<char>, Seq<char>)>) -> Option<Seq<char>> {
    match value_of(response, "URL"@) {
        Some(u) => Some(trimmed(u)),
        None => None,
    }
}

/// The correlation token of a login URL: its decoded `state` query
/// parameter, or the fault that prevents reading it.
pub open spec fn token_of(url: Seq<char>) -> Result<Seq<char>, ProtocolFault> {
    match url_query_pairs(url) {
        None => Err(ProtocolFault::InvalidUrl),
        Some(q) => match value_of(q, "state"@) {
            Some(t) => Ok(t),
            None => Err(ProtocolFault::MissingState),
        },
    }
}

/// What the login response yields: the URL to open and the correlation
/// token, or the fault.
pub open spec fn initiation_of(response: Seq<(Seq<char>, Seq<char>)>) -> Result<
    (Seq<char>, Seq<char>),
    ProtocolFault,
> {
    match login_url_of(response) {
        None => Err(ProtocolFault::MissingUrl),
        Some(u) => match token_of(u) {
            Ok(t) => Ok((u, t)),
            Err(f) => Err(f),
        },
    }
}

/// Extraction returns the token that was encoded: for a login URL whose
/// decoded query ends with a `state` pair, whatever pairs come before it, the
/// correlation token read back is exactly that pair's value.
pub proof fn lemma_token_round_trip(url: Seq<char>, before: Seq<(Seq<char>, Seq<char>)>, t: Seq<char>)
    requires
        url_query_pairs(url) == Some(before.push(("state"@, t))),
    ensures
        token_of(url) == Ok::<Seq<char>, ProtocolFault>(t),
{
    let q = before.push(("state"@, t));
    let keys = q.map_values(|p: (Seq<char>, Seq<char>)| p.0);
    assert(keys.last() == "state"@);
}

/// The value of the last pair whose key is `key`.
pub fn pair_value(pairs: &Vec<(String, String)>, key: &String) -> (r: Option<String>)
    ensures
        match value_of(pairs_view(pairs@), key@) {
            Some(t) => r matches Some(s) && s@ == t,
            None => r is None,
        },
{
    assert(keys_of(pairs@) =~= pairs_view(pairs@).map_values(|p: (Seq<char>, Seq<char>)| p.0));
    match find_last(pairs, key) {
        Some(i) => Some(pairs[i].1.clone()),
        None => None,
    }
}

/// The `state` parameter of a list of decoded query pairs.
pub fn state_from_pairs(pairs: &Vec<(String, String)>) -> (r: Result<String, HandshakeError>)
    ensures
        match value_of(pairs_view(pairs@), "state"@) {
            Some(t) => r matches Ok(s) && s@ == t,
            None => r == Err::<String, HandshakeError>(
                HandshakeError::Protocol(ProtocolFault::MissingState),
            ),
        },
{
    match pair_value(pairs, &"state".to_owned()) {
        Some(s) => Ok(s),
        None => Err(HandshakeError::Protocol(ProtocolFault::MissingState)),
    }
}

/// The correlation token of a login URL.
pub fn correlation_token(login_url: &str) -> (r: Result<String, HandshakeError>)
    ensures
        match token_of(login_url@) {
            Ok(t) => r matches Ok(s) && s@ == t,
            Err(f) => r == Err::<String, HandshakeError>(HandshakeError::Protocol(f)),
        },
{
    match parse_query_pairs(login_url) {
        Some(pairs) => state_from_pairs(&pairs),
        None => Err(HandshakeError::Protocol(ProtocolFault::InvalidUrl)),
    }
}

/// The login URL of a broker's login response: the value of its `URL` key,
/// trimmed.
pub fn login_url(response: &Vec<(String, String)>) -> (r: Result<String, HandshakeError>)
    ensures
        match login_url_of(pairs_view(response@)) {
            Some(u) => r matches Ok(s) && s@ == u,
            None => r == Err::<String, HandshakeError>(
                HandshakeError::Protocol(ProtocolFault::MissingUrl),
            ),
        },
{
    match pair_value(response, &"URL".to_owned()) {
        Some(u) => Ok(trim(u.as_str())),
        None => Err(HandshakeError::Protocol(ProtocolFault::MissingUrl)),
    }
}

/// Checks a broker's login response and returns the URL to hand to the
/// browser together with the correlation token it carries.
pub fn initiate(response: &Vec<(String, String)>) -> (r: Result<(String, String), HandshakeError>)
    ensures
        match initiation_of(pairs_view(response@)) {
            Ok((u, t)) => r matches Ok((s, k)) && s@ == u && k@ == t,
            Err(f) => r == Err::<(String, String), HandshakeError>(HandshakeError::Protocol(f)),
        },
{
    let url = match login_url(response) {
        Ok(u) => u,
        Err(e) => return Err(e),
    };
    match correlation_token(url.as_str()) {
        Ok(t) => Ok((url, t)),
        Err(e) => Err(e),
    }
}

} // verus!
