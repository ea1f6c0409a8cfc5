//! The authorization flow: the callback decision made by the local
//! redirect listener, the orchestrator's state machine around it, and
//! the authorization URL and token-exchange request it sends out.

use vstd::prelude::*;
use vstd::string::StringSliceAdditionalSpecFns;
use crate::encode::{json_escaped, pct_encoded};
use crate::query::qs_lookup;
use crate::env::Env;

verus! {

pub open spec fn code_key() -> Seq<u8> {
    "code".spec_bytes()
}

pub open spec fn error_key() -> Seq<u8> {
    "error".spec_bytes()
}

pub open spec fn state_key() -> Seq<u8> {
    "state".spec_bytes()
}

/// What one inbound callback request resolves to.  A mismatched or
/// missing `state`, or a missing `code`, invalidates the whole attempt.
pub enum AuthorizationOutcome {
    Code(Vec<u8>),
    Error(Vec<u8>),
    StateMismatch,
    MissingCode,
}

/// The decoded value of `key` in the callback query, when the key is
/// present: the redirect arrives form-urlencoded, so the raw value is
/// decoded before anything reads it.
pub open spec fn param_value(q: Seq<u8>, key: Seq<u8>) -> Option<Seq<u8>> {
    match qs_lookup(q, key) {
        Some(v) => Some(crate::query::form_decoded(v)),
        None => None,
    }
}

/// The decision the redirect listener owes for a callback carrying the
/// raw query `q`, when the session's state token is `expected`: an
/// `error` parameter wins over everything, then the state check, then
/// the presence of `code`.  Parameter values are the form-decoded ones.
pub open spec fn callback_decision(expected: Seq<u8>, q: Seq<u8>, o: AuthorizationOutcome) -> bool {
    if param_value(q, error_key()) is Some {
        match o {
            AuthorizationOutcome::Error(m) => Some(m@) == param_value(q, error_key()),
            _ => false,
        }
    } else if param_value(q, state_key()) != Some(expected) {
        o is StateMismatch
    } else if param_value(q, code_key()) is None {
        o is MissingCode
    } else {
        match o {
            AuthorizationOutcome::Code(c) => Some(c@) == param_value(q, code_key()),
            _ => false,
        }
    }
}

/// State shared with the redirect listener: the state token the session
/// expects, and whether the single outcome has already been delivered.
pub struct WebData {
    pub state: Vec<u8>,
    pub delivered: bool,
}

/// Handle one inbound callback request.  The first call delivers
/// exactly one outcome per `callback_decision`; every later call
/// delivers nothing and answers with a generic page.  The returned
/// status is 200 for a captured code or a repeat request, 400 for a
/// rejected one, 500 when the provider reported an error.
pub fn authorization(data: &mut WebData, raw_query: &Vec<u8>) -> (r: (
    u16,
    Option<AuthorizationOutcome>,
))
    ensures
        final(data).state == old(data).state,
        final(data).delivered,
        old(data).delivered ==> r.1 is None && r.0 == 200,
        !old(data).delivered ==> match r.1 {
            Some(o) => callback_decision(old(data).state@, raw_query@, o) && (r.0 == 200 <==> o
                is Code) && (r.0 == 500 <==> o is Error) && ((o is StateMismatch || o
                is MissingCode) ==> r.0 == 400),
            None => false,
        },
{
    if data.delivered {
        return (200, None);
    }
    data.delivered = true;
    let error_k = "error".as_bytes_vec();
    match crate::query::qs_get(raw_query, &error_k) {
        Some(e) => {
            return (500, Some(AuthorizationOutcome::Error(crate::query::form_decode(&e))));
        },
        None => {},
    }
    let state_k = "state".as_bytes_vec();
    let state_ok = match crate::query::qs_get(raw_query, &state_k) {
        Some(st) => {
            let decoded = crate::query::form_decode(&st);
            crate::bytes::bytes_eq(&decoded, &data.state)
        },
        None => false,
    };
    if !state_ok {
        return (400, Some(AuthorizationOutcome::StateMismatch));
    }
    let code_k = "code".as_bytes_vec();
    match crate::query::qs_get(raw_query, &code_k) {
        Some(c) => (200, Some(AuthorizationOutcome::Code(crate::query::form_decode(&c)))),
        None => (400, Some(AuthorizationOutcome::MissingCode)),
    }
}

/// The orchestrator's states: one happy path `Init` to `Complete`, and
/// one terminal failure state per way the attempt can die.
pub enum AuthFlowState {
    Init,
    AwaitingCallback,
    Exchanging(Vec<u8>),
    Complete(String),
    CallbackError(Vec<u8>),
    StateMismatch,
    ExchangeFailed,
}

/// Advance the flow on the delivered callback outcome.  Only a captured
/// code reaches `Exchanging`; everything else lands in a terminal
/// failure state.
pub fn on_callback(o: AuthorizationOutcome) -> (s: AuthFlowState)
    ensures
        match o {
            AuthorizationOutcome::Code(c) => s matches AuthFlowState::Exchanging(x) && x == c,
            AuthorizationOutcome::Error(m) => s matches AuthFlowState::CallbackError(x) && x == m,
            AuthorizationOutcome::StateMismatch => s is StateMismatch,
            AuthorizationOutcome::MissingCode => s matches AuthFlowState::CallbackError(x) && x@
                == "the callback carried no code".spec_bytes(),
        },
{
    match o {
        AuthorizationOutcome::Code(c) => AuthFlowState::Exchanging(c),
        AuthorizationOutcome::Error(m) => AuthFlowState::CallbackError(m),
        AuthorizationOutcome::StateMismatch => AuthFlowState::StateMismatch,
        AuthorizationOutcome::MissingCode => AuthFlowState::CallbackError(
            "the callback carried no code".as_bytes_vec(),
        ),
    }
}

/// A callback whose `state` does not match the session's always
/// resolves to `StateMismatch` — in particular it never carries a code
/// forward, so the flow never reaches `Exchanging` from it.
pub proof fn lemma_state_mismatch_is_terminal(
    expected: Seq<u8>,
    q: Seq<u8>,
    o: AuthorizationOutcome,
)
    requires
        callback_decision(expected, q, o),
        param_value(q, error_key()) is None,
        param_value(q, state_key()) != Some(expected),
    ensures
        o is StateMismatch,
        !(o is Code),
{
}

/// A callback with an `error` parameter always resolves to `Error`,
/// even when a `code` parameter is present as well.
pub proof fn lemma_error_beats_code(expected: Seq<u8>, q: Seq<u8>, o: AuthorizationOutcome)
    requires
        callback_decision(expected, q, o),
        param_value(q, error_key()) is Some,
    ensures
        o is Error,
        !(o is Code),
{
}

/// Successful token exchange completes the flow; any failure of the
/// exchange call is terminal.
pub fn on_exchange(r: Option<ExchangeAccessTokenResponse>) -> (s: AuthFlowState)
    ensures
        match r {
            Some(resp) => s matches AuthFlowState::Complete(t) && t == resp.access_token,
            None => s is ExchangeFailed,
        },
{
    match r {
        Some(resp) => AuthFlowState::Complete(resp.access_token),
        None => AuthFlowState::ExchangeFailed,
    }
}

/// The token endpoint's successful answer, reduced to the one field the
/// flow consumes.
pub struct ExchangeAccessTokenResponse {
    pub access_token: String,
}

pub open spec fn scope_value() -> Seq<u8> {
    "https://www.googleapis.com/auth/youtube".spec_bytes()
}

/// The provider authorization URL for one session: fixed endpoint and
/// fixed response type, scope and challenge method, with the caller's
/// values percent-encoded into the query.
pub open spec fn auth_uri_spec(
    client_id: Seq<u8>,
    redirect_uri: Seq<u8>,
    challenge: Seq<u8>,
    state_token: Seq<u8>,
) -> Seq<u8> {
    "https://accounts.google.com/o/oauth2/v2/auth?client_id=".spec_bytes() + pct_encoded(client_id)
        + "&redirect_uri=".spec_bytes() + pct_encoded(redirect_uri)
        + "&response_type=code&scope=".spec_bytes() + pct_encoded(scope_value())
        + "&code_challenge=".spec_bytes() + pct_encoded(challenge)
        + "&code_challenge_method=S256&state=".spec_bytes() + pct_encoded(state_token)
}

/// Build the authorization URL presented to the user.
pub fn create_authentication_uri(
    env: &Env,
    code_challenge: &Vec<u8>,
    state_token: &Vec<u8>,
    redirect_uri: &Vec<u8>,
) -> (r: Vec<u8>)
    ensures
        r@ == auth_uri_spec(
            vstd::utf8::encode_utf8(env.google_client_id@),
            redirect_uri@,
            code_challenge@,
            state_token@,
        ),
{
    let mut out = "https://accounts.google.com/o/oauth2/v2/auth?client_id=".as_bytes_vec();
    let cid = env.google_client_id.as_str().as_bytes_vec();
    crate::encode::pct_encode_onto(&mut out, &cid);
    let mid1 = "&redirect_uri=".as_bytes_vec();
    crate::bytes::push_all(&mut out, &mid1);
    crate::encode::pct_encode_onto(&mut out, redirect_uri);
    let mid2 = "&response_type=code&scope=".as_bytes_vec();
    crate::bytes::push_all(&mut out, &mid2);
    let scope = "https://www.googleapis.com/auth/youtube".as_bytes_vec();
    crate::encode::pct_encode_onto(&mut out, &scope);
    let mid3 = "&code_challenge=".as_bytes_vec();
    crate::bytes::push_all(&mut out, &mid3);
    crate::encode::pct_encode_onto(&mut out, code_challenge);
    let mid4 = "&code_challenge_method=S256&state=".as_bytes_vec();
    crate::bytes::push_all(&mut out, &mid4);
    crate::encode::pct_encode_onto(&mut out, state_token);
    out
}

/// The redirect target for a session bound to `port`.
pub open spec fn redirect_uri_spec(port: int) -> Seq<u8> {
    "http://localhost:".spec_bytes() + crate::encode::dec_render(port)
}

/// Build the redirect URI for `port`.
pub fn redirect_uri_for(port: u16) -> (r: Vec<u8>)
    ensures
        r@ == redirect_uri_spec(port as int),
{
    let mut out = "http://localhost:".as_bytes_vec();
    crate::encode::dec_onto(&mut out, port);
    out
}

/// The JSON body of the token-exchange request: the credentials, the
/// received code and the session's verifier, with the fixed
/// authorization-code grant type.
pub open spec fn exchange_body_spec(
    client_id: Seq<u8>,
    client_secret: Seq<u8>,
    code: Seq<u8>,
    code_verifier: Seq<u8>,
    redirect_uri: Seq<u8>,
) -> Seq<u8> {
    "{\"client_id\":\"".spec_bytes() + json_escaped(client_id) + "\",\"client_secret\":\"".spec_bytes()
        + json_escaped(client_secret) + "\",\"code\":\"".spec_bytes() + json_escaped(code)
        + "\",\"code_verifier\":\"".spec_bytes() + json_escaped(code_verifier)
        + "\",\"grant_type\":\"authorization_code\",\"redirect_uri\":\"".spec_bytes()
        + json_escaped(redirect_uri) + "\"}".spec_bytes()
}

/// Build the token-exchange request body for the received code.  The
/// call itself, and the parsing of its answer, happen outside the
/// library; `on_exchange` consumes whatever came back.
pub fn exchange_access_token(
    env: &Env,
    code: &Vec<u8>,
    code_verifier: &Vec<u8>,
    redirect_uri: &Vec<u8>,
) -> (r: Vec<u8>)
    ensures
        r@ == exchange_body_spec(
            vstd::utf8::encode_utf8(env.google_client_id@),
            vstd::utf8::encode_utf8(env.google_client_secret@),
            code@,
            code_verifier@,
            redirect_uri@,
        ),
{
    let mut out = "{\"client_id\":\"".as_bytes_vec();
    let cid = env.google_client_id.as_str().as_bytes_vec();
    crate::encode::json_escape_onto(&mut out, &cid);
    let mid1 = "\",\"client_secret\":\"".as_bytes_vec();
    crate::bytes::push_all(&mut out, &mid1);
    let cs = env.google_client_secret.as_str().as_bytes_vec();
    crate::encode::json_escape_onto(&mut out, &cs);
    let mid2 = "\",\"code\":\"".as_bytes_vec();
    crate::bytes::push_all(&mut out, &mid2);
    crate::encode::json_escape_onto(&mut out, code);
    let mid3 = "\",\"code_verifier\":\"".as_bytes_vec();
    crate::bytes::push_all(&mut out, &mid3);
    crate::encode::json_escape_onto(&mut out, code_verifier);
    let mid4 = "\",\"grant_type\":\"authorization_code\",\"redirect_uri\":\"".as_bytes_vec();
    crate::bytes::push_all(&mut out, &mid4);
    crate::encode::json_escape_onto(&mut out, redirect_uri);
    let tail = "\"}".as_bytes_vec();
    crate::bytes::push_all(&mut out, &tail);
    out
}

/// Relies on rand's `gen_range`: a port candidate in `4000..8000`.
#[verifier::external_body]
pub fn random_port_candidate() -> (r: u16)
    ensures
        4000 <= r < 8000,
{
    rand::Rng::gen_range(&mut rand::thread_rng(), 4000u16..8000u16)
}

} // verus!
