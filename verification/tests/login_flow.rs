use mal_query::error::MalError;
use mal_query::login::{
    login_start, on_callback, on_timeout, on_token_response, token_endpoint_url, LoginFlow,
};

#[test]
fn start_builds_authorization_url_from_fresh_verifier() {
    let (flow, auth_url) = login_start("my_client");
    match flow {
        LoginFlow::AwaitingRedirect { client_id, verifier, challenge } => {
            assert_eq!(client_id, "my_client");
            assert_eq!(verifier.len(), 50);
            assert!(verifier.chars().all(|c| {
                c.is_ascii_alphanumeric() || c == '-' || c == '.' || c == '~' || c == '_'
            }));
            // the challenge is a base64url SHA-256 digest: 43 characters,
            // none of them the verifier itself
            assert_eq!(challenge.len(), 43);
            assert_ne!(challenge, verifier);
            assert_eq!(
                auth_url,
                format!(
                    "https://myanimelist.net/v1/oauth2/authorize?\
response_type=code&client_id=my_client&code_challenge={challenge}"
                )
            );
        }
        _ => panic!("expected the waiting state"),
    }
}

#[test]
fn two_starts_draw_different_verifiers() {
    let (f1, _) = login_start("c");
    let (f2, _) = login_start("c");
    match (f1, f2) {
        (
            LoginFlow::AwaitingRedirect { verifier: v1, .. },
            LoginFlow::AwaitingRedirect { verifier: v2, .. },
        ) => assert_ne!(v1, v2),
        _ => panic!("expected two waiting states"),
    }
}

#[test]
fn callback_with_code_moves_to_exchanging() {
    let flow = LoginFlow::AwaitingRedirect {
        client_id: "cid".to_string(),
        verifier: "ver".to_string(),
        challenge: "cha".to_string(),
    };
    let (next, body) = on_callback(flow, "/auth?code=abc123").unwrap();
    match next {
        LoginFlow::Exchanging { client_id, verifier, code } => {
            assert_eq!(client_id, "cid");
            assert_eq!(verifier, "ver");
            assert_eq!(code, "abc123");
        }
        _ => panic!("expected the exchanging state"),
    }
    assert_eq!(
        body.unwrap(),
        "client_id=cid&code=abc123&code_verifier=ver&grant_type=authorization_code"
    );
}

#[test]
fn callback_decodes_percent_escapes_in_the_code() {
    let flow = LoginFlow::AwaitingRedirect {
        client_id: "cid".to_string(),
        verifier: "ver".to_string(),
        challenge: "cha".to_string(),
    };
    let (next, _) = on_callback(flow, "/auth?code=a%2Bb").unwrap();
    match next {
        LoginFlow::Exchanging { code, .. } => assert_eq!(code, "a+b"),
        _ => panic!("expected the exchanging state"),
    }
}

#[test]
fn callback_without_code_keeps_waiting() {
    let flow = LoginFlow::AwaitingRedirect {
        client_id: "cid".to_string(),
        verifier: "ver".to_string(),
        challenge: "cha".to_string(),
    };
    let (next, body) = on_callback(flow, "/favicon.ico?foo=bar").unwrap();
    assert!(matches!(next, LoginFlow::AwaitingRedirect { .. }));
    assert!(body.is_none());
}

#[test]
fn callback_that_is_no_url_is_a_distinct_failure() {
    let flow = LoginFlow::AwaitingRedirect {
        client_id: "cid".to_string(),
        verifier: "ver".to_string(),
        challenge: "cha".to_string(),
    };
    // an impossible port number never parses as part of a URL
    assert!(matches!(
        on_callback(flow, ":99999999999999999999/auth"),
        Err(MalError::UrlNotParsable)
    ));
}

#[test]
fn token_response_with_access_token_succeeds() {
    let flow = LoginFlow::Exchanging {
        client_id: "cid".to_string(),
        verifier: "ver".to_string(),
        code: "c".to_string(),
    };
    let next = on_token_response(flow, "{\"token_type\":\"Bearer\",\"access_token\":\"tok99\"}");
    match next {
        LoginFlow::Succeeded { token } => assert_eq!(token, "tok99"),
        _ => panic!("expected success"),
    }
}

#[test]
fn token_response_without_access_token_fails_with_the_body() {
    let flow = LoginFlow::Exchanging {
        client_id: "cid".to_string(),
        verifier: "ver".to_string(),
        code: "c".to_string(),
    };
    let next = on_token_response(flow, "{\"error\":\"invalid_grant\"}");
    match next {
        LoginFlow::Failed { detail } => assert_eq!(detail, "{\"error\":\"invalid_grant\"}"),
        _ => panic!("expected failure"),
    }
}

#[test]
fn token_response_that_is_not_json_fails() {
    let flow = LoginFlow::Exchanging {
        client_id: "cid".to_string(),
        verifier: "ver".to_string(),
        code: "c".to_string(),
    };
    assert!(matches!(
        on_token_response(flow, "not json"),
        LoginFlow::Failed { .. }
    ));
}

#[test]
fn expired_deadline_ends_the_wait_in_the_timed_out_state() {
    let flow = LoginFlow::AwaitingRedirect {
        client_id: "cid".to_string(),
        verifier: "ver".to_string(),
        challenge: "cha".to_string(),
    };
    let (next, e) = on_timeout(flow);
    assert!(matches!(next, LoginFlow::TimedOut));
    assert_eq!(e, MalError::AuthorizationTimedOut);
    assert_eq!(e.message(), "Authorization timed out");
}

#[test]
fn token_endpoint_is_fixed() {
    assert_eq!(
        token_endpoint_url().as_str(),
        "https://myanimelist.net/v1/oauth2/token"
    );
}
