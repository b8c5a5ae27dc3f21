use spotify_bridge::token::{deliver_token, fetch_result, token_for_callback, AccessToken, FetchError};

fn sample() -> AccessToken {
    AccessToken::new(
        "abc".to_string(),
        vec!["streaming".to_string(), "user-read-email".to_string()],
        3600,
    )
}

#[test]
fn token_accessors() {
    let t = sample();
    assert_eq!(t.token(), "abc");
    assert_eq!(t.scope(), &vec!["streaming".to_string(), "user-read-email".to_string()]);
    assert_eq!(t.expires_in(), 3600);
}

#[test]
fn success_calls_back_once_with_token() {
    let mut calls = 0;
    let mut got: Option<AccessToken> = None;
    deliver_token(Some(Ok(sample())), |t| {
        calls += 1;
        got = t;
    });
    assert_eq!(calls, 1);
    let t = got.unwrap();
    assert_eq!(t.token, "abc");
    assert_eq!(t.scope.len(), 2);
    assert_eq!(t.expires_in, 3600);
}

#[test]
fn failure_calls_back_once_with_none() {
    let mut calls = 0;
    let mut got_some = true;
    deliver_token(Some(Err(FetchError::Failed)), |t| {
        calls += 1;
        got_some = t.is_some();
    });
    assert_eq!(calls, 1);
    assert!(!got_some);
}

#[test]
fn broken_handoff_calls_back_once_with_none() {
    let mut calls = 0;
    let mut got_some = true;
    deliver_token(None, |t| {
        calls += 1;
        got_some = t.is_some();
    });
    assert_eq!(calls, 1);
    assert!(!got_some);
}

#[test]
fn fetch_result_maps_receipts() {
    assert!(matches!(fetch_result(None), Err(FetchError::ChannelBroken)));
    assert!(matches!(fetch_result(Some(Err(FetchError::Failed))), Err(FetchError::Failed)));
    assert!(fetch_result(Some(Ok(sample()))).is_ok());
    assert!(token_for_callback(Err(FetchError::Failed)).is_none());
    assert_eq!(token_for_callback(Ok(sample())).unwrap().expires_in, 3600);
}
