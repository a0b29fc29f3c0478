//! The OAuth2 PKCE login flow as an explicit state machine. The library
//! decides every step — the authorization URL, whether a callback carries
//! the code, the token-request body, and what the token response means —
//! while the caller performs the I/O between steps: it opens the browser,
//! listens for the redirect, and posts the exchange request.

use vstd::prelude::*;
use vstd::string::StringExecFns;
use crate::error::MalError;
use crate::text::pairs_view;

verus! {

// ---------- trusted wrappers around pkce, url and serde_json ----------

/// What deriving a code challenge returns: the SHA-256 digest of the
/// verifier's bytes, base64url-encoded without padding — a function of the
/// verifier alone.
pub uninterp spec fn challenge_of(verifier: Seq<char>) -> Seq<char>;

/// Whether a character may occur in a code verifier: the unreserved
/// alphabet (ASCII letters, digits, `-`, `.`, `~`, `_`).
pub open spec fn is_verifier_char(c: char) -> bool {
    (65 <= c as int <= 90) || (97 <= c as int <= 122) || (48 <= c as int <= 57) || c == '-' || c
        == '.' || c == '~' || c == '_'
}

/// Relies on `pkce::code_verifier`: `length` bytes drawn at random from
/// the unreserved alphabet. It panics outside 43..=128, which the
/// precondition excludes; nothing more than length and alphabet can be
/// promised of a random string.
#[verifier::external_body]
fn pkce_code_verifier(length: usize) -> (r: String)
    requires
        43 <= length <= 128,
    ensures
        r@.len() == length,
        forall|i: int| 0 <= i < r@.len() ==> is_verifier_char(r@[i]),
{
    String::from_utf8(pkce::code_verifier(length)).unwrap_or_default()
}

/// Relies on `pkce::code_challenge`: it hashes and encodes the verifier
/// bytes and reads nothing else.
#[verifier::external_body]
fn pkce_code_challenge(verifier: &str) -> (r: String)
    ensures
        r@ == challenge_of(verifier@),
{
    pkce::code_challenge(verifier.as_bytes())
}

/// What parsing a URL's query string returns: the decoded key/value pairs
/// in order — a function of the URL string alone; nothing when the string
/// does not parse as a URL.
pub uninterp spec fn query_pairs_of(s: Seq<char>) -> Option<Seq<(Seq<char>, Seq<char>)>>;

/// Relies on `url::Url::parse` and `url::Url::query_pairs`: both consume
/// their input alone. An absent query parses as the empty pair list.
#[verifier::external_body]
fn url_query_pairs(url: &str) -> (r: Option<Vec<(String, String)>>)
    ensures
        r is Some <==> query_pairs_of(url@) is Some,
        r matches Some(v) ==> Some(pairs_view(v@)) == query_pairs_of(url@),
{
    match url::Url::parse(url) {
        Ok(parsed) => Some(
            parsed.query_pairs().map(|(k, v)| (k.to_string(), v.to_string())).collect(),
        ),
        Err(_) => None,
    }
}

/// What reading the `access_token` field of a JSON body returns: the
/// field's string value — a function of the body alone; nothing when the
/// body is not JSON or the field is absent or not a string.
pub uninterp spec fn access_token_of(body: Seq<char>) -> Option<Seq<char>>;

/// Relies on `serde_json::from_str`, `serde_json::Value::get` and
/// `serde_json::Value::as_str`: all read their input alone.
#[verifier::external_body]
fn json_access_token(body: &str) -> (r: Option<String>)
    ensures
        r is Some <==> access_token_of(body@) is Some,
        r matches Some(t) ==> access_token_of(body@) == Some(t@),
{
    match serde_json::from_str::<serde_json::Value>(body) {
        Ok(v) => match v.get("access_token") {
            Some(t) => t.as_str().map(|s| s.to_string()),
            None => None,
        },
        Err(_) => None,
    }
}

// ---------- the state machine ----------

/// The login flow's state. It moves forward only: awaiting the browser
/// redirect, exchanging the received code, and the terminal states.
pub enum LoginFlow {
    /// The authorization URL is out; the local listener waits for a
    /// request whose query carries `code`.
    AwaitingRedirect { client_id: String, verifier: String, challenge: String },
    /// A code arrived; the token request is out.
    Exchanging { client_id: String, verifier: String, code: String },
    /// The token endpoint answered with an access token.
    Succeeded { token: String },
    /// The token endpoint answered without one; the raw body is the error
    /// detail.
    Failed { detail: String },
    /// The caller's deadline expired before a code arrived.
    TimedOut,
}

/// The authorization URL: the fixed endpoint with the client identifier
/// and the code challenge embedded.
pub open spec fn auth_url_of(client_id: Seq<char>, challenge: Seq<char>) -> Seq<char> {
    "https://myanimelist.net/v1/oauth2/authorize?response_type=code&client_id="@ + client_id
        + "&code_challenge="@ + challenge
}

/// The form body of the token exchange: client identifier, received code,
/// the original verifier, and the authorization-code grant type.
pub open spec fn token_request_body_of(
    client_id: Seq<char>,
    code: Seq<char>,
    verifier: Seq<char>,
) -> Seq<char> {
    "client_id="@ + client_id + "&code="@ + code + "&code_verifier="@ + verifier
        + "&grant_type=authorization_code"@
}

/// The token endpoint the exchange posts to.
pub fn token_endpoint_url() -> (r: String)
    ensures
        r@ == "https://myanimelist.net/v1/oauth2/token"@,
{
    String::from_str("https://myanimelist.net/v1/oauth2/token")
}

/// The value of the first `code` query parameter, if any.
pub open spec fn find_code_from(pairs: Seq<(Seq<char>, Seq<char>)>, i: int) -> Option<Seq<char>>
    decreases pairs.len() - i,
{
    if i < 0 || i >= pairs.len() {
        None
    } else if pairs[i].0 == "code"@ {
        Some(pairs[i].1)
    } else {
        find_code_from(pairs, i + 1)
    }
}

/// The value of the first `code` query parameter, if any.
pub open spec fn find_code(pairs: Seq<(Seq<char>, Seq<char>)>) -> Option<Seq<char>> {
    find_code_from(pairs, 0)
}

fn find_code_value(pairs: &Vec<(String, String)>) -> (r: Option<String>)
    ensures
        r is Some <==> find_code(pairs_view(pairs@)) is Some,
        r matches Some(c) ==> find_code(pairs_view(pairs@)) == Some(c@),
{
    let key: String = "code".to_owned();
    let n: usize = pairs.len();
    let mut i: usize = 0;
    while i < n
        invariant
            n == pairs@.len(),
            0 <= i <= n,
            key@ == "code"@,
            find_code(pairs_view(pairs@)) == find_code_from(pairs_view(pairs@), i as int),
        decreases n - i,
    {
        proof {
            assert(pairs_view(pairs@)[i as int] == (pairs@[i as int].0@, pairs@[i as int].1@));
        }
        if pairs[i].0 == key {
            proof {
                assert(find_code_from(pairs_view(pairs@), i as int) == Some(
                    pairs@[i as int].1@,
                ));
            }
            return Some(pairs[i].1.clone());
        }
        proof {
            assert(find_code_from(pairs_view(pairs@), i as int) == find_code_from(
                pairs_view(pairs@),
                i + 1 as int,
            ));
        }
        i = i + 1;
    }
    None
}

fn build_token_body(client_id: &str, code: &str, verifier: &str) -> (r: String)
    ensures
        r@ == token_request_body_of(client_id@, code@, verifier@),
{
    let mut body = String::from_str("client_id=");
    body.append(client_id);
    body.append("&code=");
    body.append(code);
    body.append("&code_verifier=");
    body.append(verifier);
    body.append("&grant_type=authorization_code");
    proof {
        assert(body@ =~= token_request_body_of(client_id@, code@, verifier@));
    }
    body
}

/// Starts the flow: generates a fresh PKCE verifier, derives its
/// challenge, and returns the waiting state together with the
/// authorization URL to put before the user.
pub fn login_start(client_id: &str) -> (r: (LoginFlow, String))
    ensures
        r.0 matches LoginFlow::AwaitingRedirect { client_id: cid, verifier, challenge } && cid@
            == client_id@ && verifier@.len() == 50 && (forall|i: int|
            0 <= i < verifier@.len() ==> is_verifier_char(verifier@[i])) && challenge@
            == challenge_of(verifier@) && r.1@ == auth_url_of(client_id@, challenge_of(verifier@)),
{
    let verifier = pkce_code_verifier(50);
    let challenge = pkce_code_challenge(verifier.as_str());
    let mut auth_url = String::from_str(
        "https://myanimelist.net/v1/oauth2/authorize?response_type=code&client_id=",
    );
    auth_url.append(client_id);
    auth_url.append("&code_challenge=");
    auth_url.append(challenge.as_str());
    proof {
        assert(auth_url@ =~= auth_url_of(client_id@, challenge_of(verifier@)));
    }
    let flow = LoginFlow::AwaitingRedirect {
        client_id: client_id.to_owned(),
        verifier,
        challenge,
    };
    (flow, auth_url)
}

/// Feeds one incoming request of the local listener into the flow. A
/// request whose query carries `code` moves the flow to the exchanging
/// state and hands back the exact token-request body to post; any other
/// request leaves the flow waiting. A request line that does not parse as
/// a URL is a distinct failure.
#[allow(unused_variables)]
pub fn on_callback(flow: LoginFlow, request_path: &str) -> (r: Result<
    (LoginFlow, Option<String>),
    MalError,
>)
    requires
        flow matches LoginFlow::AwaitingRedirect { .. },
    ensures
        query_pairs_of("http://localhost"@ + request_path@) is None ==> r == Err::<
            (LoginFlow, Option<String>),
            MalError,
        >(MalError::UrlNotParsable),
        flow matches LoginFlow::AwaitingRedirect { client_id, verifier, challenge }
            ==> (query_pairs_of("http://localhost"@ + request_path@) matches Some(pairs)
            ==> match find_code(pairs) {
            Some(code) => {
                &&& r is Ok
                &&& (r->Ok_0).0 matches LoginFlow::Exchanging {
                    client_id: cid2,
                    verifier: v2,
                    code: c2,
                }
                &&& cid2@ == client_id@
                &&& v2@ == verifier@
                &&& c2@ == code
                &&& (r->Ok_0).1 matches Some(body)
                &&& body@ == token_request_body_of(client_id@, code, verifier@)
            },
            None => r is Ok && (r->Ok_0).0 == flow && (r->Ok_0).1 is None,
        }),
{
    let mut full = String::from_str("http://localhost");
    full.append(request_path);
    match url_query_pairs(full.as_str()) {
        None => Err(MalError::UrlNotParsable),
        Some(pairs) => {
            let code_opt = find_code_value(&pairs);
            match (flow, code_opt) {
                (
                    LoginFlow::AwaitingRedirect { client_id, verifier, challenge },
                    Some(code),
                ) => {
                    let body = build_token_body(
                        client_id.as_str(),
                        code.as_str(),
                        verifier.as_str(),
                    );
                    Ok((LoginFlow::Exchanging { client_id, verifier, code }, Some(body)))
                },
                (f, _) => Ok((f, None)),
            }
        },
    }
}

/// Ends the wait when the caller's deadline expires before any request
/// carried a code: the flow moves to the distinct timed-out terminal
/// state, and the matching failure value is handed back for the caller to
/// surface. The wait itself is the caller's; the library only names its
/// expiry.
#[allow(unused_variables)]
pub fn on_timeout(flow: LoginFlow) -> (r: (LoginFlow, MalError))
    requires
        flow matches LoginFlow::AwaitingRedirect { .. },
    ensures
        r.0 == LoginFlow::TimedOut,
        r.1 == MalError::AuthorizationTimedOut,
{
    (LoginFlow::TimedOut, MalError::AuthorizationTimedOut)
}

/// Feeds the token endpoint's response body into the flow: a body whose
/// JSON carries an `access_token` string ends the flow in success with
/// that token; any other body ends it in failure carrying the raw body as
/// the error detail.
#[allow(unused_variables)]
pub fn on_token_response(flow: LoginFlow, body: &str) -> (r: LoginFlow)
    requires
        flow matches LoginFlow::Exchanging { .. },
    ensures
        access_token_of(body@) matches Some(t) ==> (r matches LoginFlow::Succeeded { token }
            && token@ == t),
        access_token_of(body@) is None ==> (r matches LoginFlow::Failed { detail } && detail@
            == body@),
{
    match json_access_token(body) {
        Some(token) => LoginFlow::Succeeded { token },
        None => LoginFlow::Failed { detail: body.to_owned() },
    }
}

} // verus!
