use transdirect::account::AuthenticateWith;
use transdirect::session::{from_transport, transport_auth, AuthState, TransportAuth, API_KEY_HEADER};
use transdirect::Error;

#[test]
fn new_client_state_is_unauthenticated() {
    assert_eq!(AuthState::new(), AuthState::Unauthenticated);
    assert_eq!(AuthState::default(), AuthState::Unauthenticated);
    assert!(!AuthState::new().is_authenticated());
}

#[test]
fn accepted_probe_authenticates() {
    let mut st = AuthState::new();
    assert_eq!(st.record_probe(Ok(())), Ok(()));
    assert!(st.is_authenticated());
}

#[test]
fn rejected_api_key_leaves_client_unauthenticated() {
    let mut st = AuthState::new();
    let r = st.record_probe(Err("HTTP status error: 401".to_string()));
    assert_eq!(r, Err(Error::HTTPError("HTTP status error: 401".to_string())));
    assert!(!st.is_authenticated());
}

#[test]
fn authenticated_state_is_terminal() {
    let mut st = AuthState::Authenticated;
    let r = st.record_probe(Err("timed out".to_string()));
    assert_eq!(r, Err(Error::HTTPError("timed out".to_string())));
    assert!(st.is_authenticated());
}

#[test]
fn credentials_choose_transport_auth() {
    assert_eq!(transport_auth(&AuthenticateWith::Basic("user", "secret")), TransportAuth::Basic("user", "secret"));
    assert_eq!(transport_auth(&AuthenticateWith::APIKey("abc123")), TransportAuth::Header("Api-key", "abc123"));
    assert_eq!(API_KEY_HEADER, "Api-key");
}

#[test]
fn transport_failures_become_http_errors() {
    assert_eq!(from_transport::<u32>(Ok(623630)), Ok(623630));
    assert_eq!(from_transport::<u32>(Err("not found".to_string())), Err(Error::HTTPError("not found".to_string())));
}

#[test]
fn unreadable_response_is_distinct() {
    assert_ne!(Error::UnreadableResponse, Error::UnknownStatus);
    assert_ne!(Error::UnreadableResponse, Error::HTTPError(String::new()));
}

#[test]
fn transport_errors_convert_with_their_description() {
    assert_eq!(Error::from(restson::Error::TimeoutError), Error::HTTPError("Request has timed out".to_string()));
    assert_eq!(Error::from(restson::Error::UrlError), Error::HTTPError("Failed to parse final URL".to_string()));
    match Error::from(restson::Error::HttpError(404, "missing".to_string())) {
        Error::HTTPError(d) => assert!(d.starts_with("Server returned non-success status")),
        other => panic!("expected an HTTP error, got {:?}", other),
    }
}
