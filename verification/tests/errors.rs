use regl::attesters::cca::{check_nonce, CcaError};
use base64::Engine;
use regl::attesters::ratsd::{chares_request, chares_response, RatsdError};
use regl::tsm::TsmError;

// --- nonce validation (the check every CCA attester makes first) ---

#[test]
fn tsm_attester_rejects_short_nonce() {
    // CCA requires exactly 64 bytes; anything shorter must be rejected.
    let result = check_nonce(b"too-short");
    assert!(matches!(result.unwrap_err(), CcaError::InvalidNonce(_)));
}

#[test]
fn tsm_attester_rejects_long_nonce() {
    // Nonces longer than 64 bytes must also be rejected.
    let long = vec![0u8; 65];
    let result = check_nonce(&long);
    assert!(matches!(result.unwrap_err(), CcaError::InvalidNonce(_)));
}

#[test]
fn cca_ratsd_attester_rejects_invalid_nonce() {
    // The nonce is checked before any HTTP call is made.
    let result = check_nonce(b"short");
    assert!(matches!(result.unwrap_err(), CcaError::InvalidNonce(_)));
}

#[test]
fn nonce_of_exactly_64_bytes_is_accepted_and_others_named() {
    assert!(check_nonce(&[0u8; 64]).is_ok());
    let err = check_nonce(&[]).unwrap_err();
    assert_eq!(err.to_string(), "invalid nonce: expected 64 bytes, got 0");
    let err = check_nonce(&[1u8; 63]).unwrap_err();
    assert_eq!(err.to_string(), "invalid nonce: expected 64 bytes, got 63");
}

// --- error propagation ---

#[test]
fn tsm_error_propagates_as_cca_tsm_variant() {
    // From<TsmError> for CcaError must produce CcaError::Tsm, not any
    // other variant, so callers can match on it specifically.
    let cca: CcaError = TsmError::Unsupported.into();
    assert!(matches!(cca, CcaError::Tsm(_)));
}

#[test]
fn generic_ratsd_error_propagates_as_cca_ratsd_variant() {
    // From<RatsdError> for CcaError must produce CcaError::Ratsd,
    // so callers get a single CcaError type regardless of the error source.
    let generic = RatsdError::ResponseParse("test".into());
    let cca: CcaError = generic.into();
    assert!(matches!(cca, CcaError::Ratsd(_)));
}

#[test]
fn cca_error_custom_wraps_message() {
    let err = CcaError::custom("something went wrong");
    let msg = err.to_string();
    assert!(msg.contains("something went wrong"));
}

#[test]
fn error_texts_match_their_variants() {
    assert_eq!(CcaError::Tsm(TsmError::Unsupported).to_string(), "TSM error");
    assert_eq!(
        CcaError::Ratsd(RatsdError::Custom("boom".into())).to_string(),
        "RATSD error: boom"
    );
    assert_eq!(
        RatsdError::HttpError { status: 500, body: "internal".into() }.to_string(),
        "RATSD returned HTTP 500: internal"
    );
    assert_eq!(
        RatsdError::ResponseParse("x".into()).to_string(),
        "failed to parse RATSD response: x"
    );
}

#[test]
fn chares_response_accepts_only_success_statuses() {
    assert_eq!(chares_response(200, "{}".to_string()).unwrap(), "{}");
    assert_eq!(chares_response(299, "b".to_string()).unwrap(), "b");
    match chares_response(500, "internal server error".to_string()) {
        Err(RatsdError::HttpError { status, body }) => {
            assert_eq!(status, 500);
            assert_eq!(body, "internal server error");
        }
        other => panic!("unexpected {other:?}"),
    }
    assert!(matches!(
        chares_response(199, String::new()),
        Err(RatsdError::HttpError { status: 199, .. })
    ));
    assert!(matches!(
        chares_response(300, String::new()),
        Err(RatsdError::HttpError { status: 300, .. })
    ));
}

// --- the challenge-response request ---

#[test]
fn chares_request_resolves_the_endpoint_and_encodes_the_nonce() {
    let req = chares_request("http://localhost:8895", &[0u8; 64]).ok().unwrap();
    assert_eq!(req.url, "http://localhost:8895/ratsd/chares");
    assert_eq!(
        req.nonce,
        base64::engine::general_purpose::URL_SAFE_NO_PAD.encode([0u8; 64])
    );
    let back = base64::engine::general_purpose::URL_SAFE_NO_PAD.decode(&req.nonce).unwrap();
    assert_eq!(back, vec![0u8; 64]);

    // The endpoint path is absolute: it replaces any path of the base URL.
    let req = chares_request("http://127.0.0.1:9000/api/v1/", b"abc").ok().unwrap();
    assert_eq!(req.url, "http://127.0.0.1:9000/ratsd/chares");
    assert_eq!(req.nonce, "YWJj");
}

#[test]
fn chares_request_refuses_an_invalid_url() {
    let err = chares_request("not a url", &[0u8; 64]).err().unwrap();
    assert!(matches!(err, RatsdError::ResponseParse(ref m) if m.starts_with("invalid RATSD URL: ")));
}

#[test]
fn a_failed_request_names_the_transport() {
    let err = reqwest::blocking::get("::not a url::").unwrap_err();
    let text = RatsdError::RequestFailed(err).to_string();
    assert!(text.starts_with("RATSD request failed: "), "text was: {text}");
    assert!(text.len() > "RATSD request failed: ".len());
}
