use echokit::activation::{
    convert_ws_to_http, strip_trailing_slashes, ActivationConfig, ActivationError,
    ActivationResponse, ActivationSession, VerifyBody,
};

#[test]
fn test_code_digits() {
    let mut session = ActivationSession::new(
        "aabbccddeeff".to_string(),
        "http://localhost:8081".to_string(),
        "1.0.0".to_string(),
    );
    session.code = "123456".to_string();

    let digits = session.get_code_digits();
    assert_eq!(digits, vec!['1', '2', '3', '4', '5', '6']);
}

#[test]
fn activation_test_convert_ws_to_http() {
    // ws:// with path
    assert_eq!(
        convert_ws_to_http("ws://192.168.0.103:10086/ws"),
        "http://192.168.0.103:10086"
    );

    // wss:// with path
    assert_eq!(
        convert_ws_to_http("wss://proxy.echokit.dev/ws"),
        "https://proxy.echokit.dev"
    );

    // ws:// without path
    assert_eq!(
        convert_ws_to_http("ws://localhost:8081"),
        "http://localhost:8081"
    );

    // http:// unchanged
    assert_eq!(
        convert_ws_to_http("http://localhost:3000"),
        "http://localhost:3000"
    );

    // https:// unchanged
    assert_eq!(
        convert_ws_to_http("https://api.echokit.dev"),
        "https://api.echokit.dev"
    );
}

#[test]
fn convert_trims_white_space_and_keeps_other_schemes() {
    assert_eq!(convert_ws_to_http("  ws://host:1/a/b \n"), "http://host:1");
    assert_eq!(convert_ws_to_http("\twss://host\u{3000}"), "https://host");
    assert_eq!(convert_ws_to_http(" ftp://host/x "), "ftp://host/x");
    assert_eq!(convert_ws_to_http(""), "");
    assert_eq!(convert_ws_to_http("ws://"), "http://");
    assert_eq!(convert_ws_to_http("ws:///path"), "http://");
    assert_eq!(convert_ws_to_http("wss://h\u{e9}te/ws"), "https://h\u{e9}te");
}

#[test]
fn new_session_converts_the_address() {
    let session = ActivationSession::new(
        "aabbccddeeff".to_string(),
        "wss://proxy.echokit.dev/ws".to_string(),
        "1.0.0".to_string(),
    );
    assert_eq!(session.proxy_url, "https://proxy.echokit.dev");
    assert_eq!(session.device_id, "aabbccddeeff");
    assert_eq!(session.firmware_version, "1.0.0");
    assert_eq!(session.timeout_ms, 300_000);
    assert_eq!(session.get_code(), "");
    assert!(session.get_code_digits().is_empty());
}

#[test]
fn request_and_verify_addresses() {
    let session = ActivationSession::new(
        "aabbccddeeff".to_string(),
        "http://localhost:8081///".to_string(),
        "1.0.0".to_string(),
    );
    assert_eq!(
        session.request_url(),
        "http://localhost:8081/api/activation?device_id=aabbccddeeff"
    );
    assert_eq!(session.verify_url(), "http://localhost:8081/api/activation/verify");
    assert_eq!(strip_trailing_slashes("a/b//"), "a/b");
    assert_eq!(strip_trailing_slashes("///"), "");
    assert_eq!(strip_trailing_slashes("ab"), "ab");
}

#[test]
fn accept_code_stores_code_and_lifetime() {
    let mut session = ActivationSession::new(
        "aabbccddeeff".to_string(),
        "ws://localhost:8081/ws".to_string(),
        "1.0.0".to_string(),
    );
    session.accept_code(ActivationResponse {
        code: "654321".to_string(),
        challenge: "c0ffee".to_string(),
        expires_in: 120,
    });
    assert_eq!(session.get_code(), "654321");
    assert_eq!(session.challenge, "c0ffee");
    assert_eq!(session.timeout_ms, 120_000);
    assert_eq!(session.get_code_digits(), vec!['6', '5', '4', '3', '2', '1']);

    session.accept_code(ActivationResponse {
        code: "1".to_string(),
        challenge: "2".to_string(),
        expires_in: u64::MAX / 1000 + 1,
    });
    assert_eq!(session.timeout_ms, u64::MAX);
}

#[test]
fn request_status_is_judged() {
    assert_eq!(ActivationSession::check_request_status(200, "ok".to_string()), Ok(()));
    assert_eq!(
        ActivationSession::check_request_status(500, "boom".to_string()),
        Err(ActivationError::ServerError(500, "boom".to_string()))
    );
}

#[test]
fn verify_status_is_judged() {
    assert_eq!(
        ActivationSession::check_verify_status(200, String::new()),
        Ok(VerifyBody::Bound)
    );
    assert_eq!(
        ActivationSession::check_verify_status(202, String::new()),
        Ok(VerifyBody::Pending)
    );
    assert_eq!(
        ActivationSession::check_verify_status(401, "x".to_string()),
        Err(ActivationError::InvalidChallenge)
    );
    assert_eq!(
        ActivationSession::check_verify_status(404, "x".to_string()),
        Err(ActivationError::Expired)
    );
    assert_eq!(
        ActivationSession::check_verify_status(410, "x".to_string()),
        Err(ActivationError::Expired)
    );
    assert_eq!(
        ActivationSession::check_verify_status(503, "down".to_string()),
        Err(ActivationError::ServerError(503, "down".to_string()))
    );
}

#[test]
fn default_config_polls_for_five_minutes() {
    let config = ActivationConfig::default();
    assert_eq!(config.poll_interval_ms, 5000);
    assert_eq!(config.max_poll_count, 60);
    assert!(config.may_poll(0));
    assert!(config.may_poll(59));
    assert!(!config.may_poll(60));
}
