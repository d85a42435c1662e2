use reqwestx::error::go_error::{
    GoError, CODE_CLIENT_NOT_INITIALIZED, CODE_INVALID_REQUEST_METHOD, CODE_INVALID_TLS_EXTENSION,
};
use reqwestx::error::ErrorType;
use reqwestx::ffi::{GoResultFfi, GoResultHttpResponseFfi, HttpHeaderFfi, HttpResponseFfi};

fn reply() -> HttpResponseFfi {
    HttpResponseFfi {
        code: 204,
        proto_major: 1,
        proto_minor: 1,
        headers: vec![HttpHeaderFfi { k: "server".to_string(), v: vec!["x".to_string()] }],
        data: vec![1, 2, 3],
    }
}

#[test]
fn the_codes_of_the_table() {
    assert_eq!(CODE_CLIENT_NOT_INITIALIZED, -1000000);
    assert_eq!(CODE_INVALID_REQUEST_METHOD, -1000010);
    assert_eq!(CODE_INVALID_TLS_EXTENSION, -1001001);
}

#[test]
fn not_initialized_code_maps_to_client_not_initialized() {
    let e = GoError::from((-1_000_000, "whatever the engine says".to_string()));
    assert_eq!(e, GoError::ClientNotInitialized);
    let e = GoError::from((-1_000_000, String::new()));
    assert_eq!(e, GoError::ClientNotInitialized);
}

#[test]
fn invalid_method_code_maps_to_invalid_request_method() {
    let e = GoError::from((-1_000_010, "PURGE".to_string()));
    assert_eq!(e, GoError::InvalidRequestMethod);
}

#[test]
fn invalid_extension_code_keeps_the_message() {
    let e = GoError::from((-1_001_001, "unknown extension type 99999".to_string()));
    assert_eq!(e, GoError::InvalidTlsExtension("unknown extension type 99999".to_string()));
}

#[test]
fn any_other_code_is_unknown_and_keeps_the_message() {
    for code in [1, -1, 7, -1_000_001, -1_000_009, -1_001_000, i32::MIN, i32::MAX] {
        let e = GoError::from((code, "dial tcp: timeout".to_string()));
        assert_eq!(e, GoError::Unknown("dial tcp: timeout".to_string()));
    }
}

#[test]
fn a_go_error_becomes_an_error_of_the_library() {
    let e = ErrorType::from(GoError::InvalidRequestMethod);
    assert_eq!(e, ErrorType::GoError(GoError::InvalidRequestMethod));
}

#[test]
fn zero_code_is_success() {
    let r = GoResultFfi { code: 0, message: "ignored".to_string() }.into_result();
    assert_eq!(r, Ok(()));
}

#[test]
fn nonzero_code_is_an_engine_error() {
    let r = GoResultFfi { code: 7, message: "boom".to_string() }.into_result();
    assert_eq!(r, Err(ErrorType::GoError(GoError::Unknown("boom".to_string()))));
    let r = GoResultFfi { code: -1_000_000, message: "x".to_string() }.into_result();
    assert_eq!(r, Err(ErrorType::GoError(GoError::ClientNotInitialized)));
}

#[test]
fn a_successful_send_hands_the_reply_over() {
    let r = GoResultHttpResponseFfi { code: 0, message: String::new(), data: reply() }
        .into_result();
    assert_eq!(r, Ok(reply()));
}

#[test]
fn a_failed_send_drops_the_reply() {
    let r = GoResultHttpResponseFfi {
        code: -1_001_001,
        message: "unknown extension type 99999".to_string(),
        data: reply(),
    }
    .into_result();
    assert_eq!(
        r,
        Err(ErrorType::GoError(GoError::InvalidTlsExtension(
            "unknown extension type 99999".to_string()
        )))
    );
}
