use sp2ytm::auth::{
    authorization, create_authentication_uri, exchange_access_token, on_callback, on_exchange,
    redirect_uri_for, AuthFlowState, AuthorizationOutcome, ExchangeAccessTokenResponse, WebData,
};
use sp2ytm::env::Env;
use sp2ytm::query::qs_get;

fn env() -> Env {
    Env {
        google_client_id: "gid".to_string(),
        google_client_secret: "gsec".to_string(),
        spotify_client_id: "sid".to_string(),
        spotify_client_secret: "ssec".to_string(),
    }
}

fn fresh_data() -> WebData {
    WebData { state: b"expected-state-token".to_vec(), delivered: false }
}

#[test]
fn mismatched_state_yields_state_mismatch() {
    let mut data = fresh_data();
    let q = b"code=abc&state=wrong-state".to_vec();
    let (status, outcome) = authorization(&mut data, &q);
    assert_eq!(status, 400);
    assert!(matches!(outcome, Some(AuthorizationOutcome::StateMismatch)));
    // and the state machine never reaches the exchange from it
    let s = on_callback(outcome.unwrap());
    assert!(matches!(s, AuthFlowState::StateMismatch));
}

#[test]
fn error_parameter_wins_even_with_a_code() {
    let mut data = fresh_data();
    let q = b"code=abc&error=access_denied&state=expected-state-token".to_vec();
    let (status, outcome) = authorization(&mut data, &q);
    assert_eq!(status, 500);
    match outcome {
        Some(AuthorizationOutcome::Error(m)) => assert_eq!(m, b"access_denied".to_vec()),
        other => panic!("expected the error outcome, got {:?}", other.is_some()),
    }
}

#[test]
fn matching_state_forwards_the_code() {
    let mut data = fresh_data();
    let q = b"state=expected-state-token&code=4/one-time-code".to_vec();
    let (status, outcome) = authorization(&mut data, &q);
    assert_eq!(status, 200);
    let code = match outcome {
        Some(AuthorizationOutcome::Code(c)) => c,
        _ => panic!("expected a captured code"),
    };
    assert_eq!(code, b"4/one-time-code".to_vec());
    match on_callback(AuthorizationOutcome::Code(code)) {
        AuthFlowState::Exchanging(c) => assert_eq!(c, b"4/one-time-code".to_vec()),
        _ => panic!("captured code must reach the exchange"),
    }
}

#[test]
fn parameter_values_are_form_decoded() {
    // an authorization code arrives percent-encoded; the state check and
    // the forwarded code see the decoded bytes
    let mut data = fresh_data();
    let q = b"state=expected%2Dstate%2Dtoken&code=4%2Fone-time-code".to_vec();
    let (status, outcome) = authorization(&mut data, &q);
    assert_eq!(status, 200);
    match outcome {
        Some(AuthorizationOutcome::Code(c)) => assert_eq!(c, b"4/one-time-code".to_vec()),
        _ => panic!("expected the decoded code"),
    }

    let mut data = fresh_data();
    let q = b"error=access+denied&state=expected-state-token".to_vec();
    let (_, outcome) = authorization(&mut data, &q);
    match outcome {
        Some(AuthorizationOutcome::Error(m)) => assert_eq!(m, b"access denied".to_vec()),
        _ => panic!("expected the decoded error"),
    }
}

#[test]
fn missing_code_reaches_a_described_callback_error() {
    match on_callback(AuthorizationOutcome::MissingCode) {
        AuthFlowState::CallbackError(m) => {
            assert_eq!(m, b"the callback carried no code".to_vec());
        }
        _ => panic!("a missing code must be a terminal callback error"),
    }
}

#[test]
fn missing_code_is_rejected() {
    let mut data = fresh_data();
    let q = b"state=expected-state-token".to_vec();
    let (status, outcome) = authorization(&mut data, &q);
    assert_eq!(status, 400);
    assert!(matches!(outcome, Some(AuthorizationOutcome::MissingCode)));
}

#[test]
fn only_one_outcome_is_ever_delivered() {
    let mut data = fresh_data();
    let q = b"state=expected-state-token&code=abc".to_vec();
    let (_, first) = authorization(&mut data, &q);
    assert!(first.is_some());
    let (status, second) = authorization(&mut data, &q);
    assert_eq!(status, 200);
    assert!(second.is_none());
    let (_, third) = authorization(&mut data, &b"state=other&code=zzz".to_vec());
    assert!(third.is_none());
}

#[test]
fn exchange_outcome_drives_the_terminal_states() {
    let ok = on_exchange(Some(ExchangeAccessTokenResponse { access_token: "tok".to_string() }));
    match ok {
        AuthFlowState::Complete(t) => assert_eq!(t, "tok"),
        _ => panic!("successful exchange must complete the flow"),
    }
    assert!(matches!(on_exchange(None), AuthFlowState::ExchangeFailed));
}

#[test]
fn query_lookup_takes_the_first_matching_pair() {
    let q = b"a=1&code=first&code=second&empty=&x".to_vec();
    assert_eq!(qs_get(&q, &b"code".to_vec()), Some(b"first".to_vec()));
    assert_eq!(qs_get(&q, &b"empty".to_vec()), Some(b"".to_vec()));
    assert_eq!(qs_get(&q, &b"x".to_vec()), None);
    assert_eq!(qs_get(&q, &b"missing".to_vec()), None);
    assert_eq!(qs_get(&b"".to_vec(), &b"code".to_vec()), None);
}

#[test]
fn query_lookup_matches_whole_keys_only() {
    let q = b"statex=1&state=2&sta=3".to_vec();
    assert_eq!(qs_get(&q, &b"state".to_vec()), Some(b"2".to_vec()));
    assert_eq!(qs_get(&q, &b"sta".to_vec()), Some(b"3".to_vec()));
}

#[test]
fn empty_state_value_is_a_mismatch() {
    let mut data = fresh_data();
    let q = b"code=abc&state=".to_vec();
    let (status, outcome) = authorization(&mut data, &q);
    assert_eq!(status, 400);
    assert!(matches!(outcome, Some(AuthorizationOutcome::StateMismatch)));
}

#[test]
fn authentication_uri_is_exactly_as_specified() {
    let uri = create_authentication_uri(
        &env(),
        &b"CH".to_vec(),
        &b"ST".to_vec(),
        &b"http://localhost:4567".to_vec(),
    );
    let mut expected = String::new();
    expected.push_str("https://accounts.google.com/o/oauth2/v2/auth?client_id=gid");
    expected.push_str("&redirect_uri=http%3A%2F%2Flocalhost%3A4567");
    expected.push_str("&response_type=code&scope=https%3A%2F%2Fwww.googleapis.com%2Fauth%2Fyoutube");
    expected.push_str("&code_challenge=CH");
    expected.push_str("&code_challenge_method=S256&state=ST");
    assert_eq!(String::from_utf8(uri).unwrap(), expected);
}

#[test]
fn port_candidates_stay_in_the_probed_range() {
    for _ in 0..32 {
        let p = sp2ytm::auth::random_port_candidate();
        assert!((4000..8000).contains(&p));
    }
}

#[test]
fn redirect_uri_renders_the_port() {
    assert_eq!(String::from_utf8(redirect_uri_for(4567)).unwrap(), "http://localhost:4567");
    assert_eq!(String::from_utf8(redirect_uri_for(0)).unwrap(), "http://localhost:0");
}

#[test]
fn exchange_body_is_exact_json() {
    let body = exchange_access_token(
        &env(),
        &b"the-code".to_vec(),
        &b"the-verifier".to_vec(),
        &b"http://localhost:4567".to_vec(),
    );
    let mut expected = String::new();
    expected.push_str("{\"client_id\":\"gid\",\"client_secret\":\"gsec\",");
    expected.push_str("\"code\":\"the-code\",\"code_verifier\":\"the-verifier\",");
    expected.push_str("\"grant_type\":\"authorization_code\",");
    expected.push_str("\"redirect_uri\":\"http://localhost:4567\"}");
    assert_eq!(String::from_utf8(body.clone()).unwrap(), expected);
    // and it parses as the JSON object the token endpoint expects
    let v: serde_json::Value = serde_json::from_slice(&body).unwrap();
    assert_eq!(v.get("grant_type").and_then(|g| g.as_str()), Some("authorization_code"));
    assert_eq!(v.get("code").and_then(|c| c.as_str()), Some("the-code"));
}
