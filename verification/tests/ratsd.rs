use base64::engine::general_purpose;
use base64::Engine;
use regl::attesters::cca::ratsd::{
    cca_evidence_from_response, extract_cca_token, find_cca_outblob, is_cca_report_item,
    parse_cmw_items, CmwMonad,
};
use regl::attesters::ratsd::RatsdError;

const TSM_TYPE: &str = "application/vnd.veraison.configfs-tsm+json";

fn tsm_report_json(provider: &str, outblob: &[u8]) -> String {
    format!(
        r#"{{"provider": "{provider}", "outblob": "{}"}}"#,
        general_purpose::URL_SAFE_NO_PAD.encode(outblob)
    )
}

fn envelope_for(cmw_json: &str) -> String {
    let cmw_b64 = general_purpose::STANDARD.encode(cmw_json.as_bytes());
    format!(r#"{{"cmw": "{cmw_b64}"}}"#)
}

fn monad(typ: &str, value: &str) -> CmwMonad {
    CmwMonad { typ: typ.to_string(), value: value.as_bytes().to_vec() }
}

// ---------------------------------------------------------------------------
// extract_cca_token — success case
// ---------------------------------------------------------------------------

#[test]
fn extract_cca_token_returns_outblob_for_valid_cca_cmw_envelope() {
    // A well-formed CMW envelope containing a CCA provider item must
    // yield the decoded outblob bytes.
    let outblob = b"fake-cca-token-bytes";
    let tsm_report = tsm_report_json("arm_cca_guest", outblob);
    let evidence_b64 = general_purpose::URL_SAFE_NO_PAD.encode(tsm_report.as_bytes());

    let cmw_json = format!(
        r#"{{"__cmwc_t": "tag:github.com,2025:veraison/ratsd/cmw", "mock-cca": ["{TSM_TYPE}", "{evidence_b64}"]}}"#
    );
    let envelope = envelope_for(&cmw_json);

    let result = extract_cca_token(&envelope).unwrap();
    assert_eq!(result, outblob);
}

// ---------------------------------------------------------------------------
// extract_cca_token — error cases
// ---------------------------------------------------------------------------

#[test]
fn extract_cca_token_returns_error_on_invalid_json() {
    // Completely malformed input must not panic.
    let err = extract_cca_token("not-json-at-all").unwrap_err();
    assert!(matches!(err, RatsdError::ResponseParse(ref m) if m.starts_with("invalid JSON: ")));
}

#[test]
fn extract_cca_token_returns_error_when_cmw_field_missing() {
    // A valid JSON object that lacks "cmw" must be rejected.
    let json = r#"{"other_field": "somevalue"}"#;
    let err = extract_cca_token(json).unwrap_err();
    assert!(matches!(err, RatsdError::ResponseParse(ref m) if m == "missing cmw field"));
}

#[test]
fn extract_cca_token_returns_error_when_no_cca_provider_in_cmw() {
    // A well-formed envelope whose CMW contains only non-CCA items must
    // return a custom error, not a panic or a spurious success.
    let cmw_json =
        r#"{"__cmwc_t":"tag:example.com,2024:test","item1":["application/vnd.not-cca","YQ"]}"#;
    let envelope = envelope_for(cmw_json);
    let err = extract_cca_token(&envelope).unwrap_err();
    assert!(matches!(err, RatsdError::Custom(_)), "expected Custom error, got {err:?}");
    assert_eq!(err.to_string(), "CCA evidence not found in RATSD response");
}

#[test]
fn extract_cca_token_returns_error_on_invalid_cmw_base64() {
    // An envelope with a "cmw" value that is not valid base64 must be rejected.
    let envelope = r#"{"cmw": "!!!not-base64!!!"}"#;
    let err = extract_cca_token(envelope).unwrap_err();
    assert!(matches!(err, RatsdError::ResponseParse(ref m) if m.starts_with("cmw base64 decode: ")));
}

#[test]
fn extract_cca_token_reports_a_broken_cmw_collection() {
    let envelope = envelope_for("[1, 2, 3]");
    let err = extract_cca_token(&envelope).unwrap_err();
    assert!(matches!(err, RatsdError::ResponseParse(ref m) if m.starts_with("CMW collection: ")));
}

#[test]
fn extract_cca_token_reports_a_broken_outblob() {
    let report = r#"{"provider": "arm_cca_guest", "outblob": "!!"}"#;
    let evidence_b64 = general_purpose::URL_SAFE_NO_PAD.encode(report.as_bytes());
    let cmw_json = format!(
        r#"{{"__cmwc_t": "tag:example.com,2024:test", "cca": ["{TSM_TYPE}", "{evidence_b64}"]}}"#
    );
    let err = extract_cca_token(&envelope_for(&cmw_json)).unwrap_err();
    assert!(matches!(err, RatsdError::ResponseParse(ref m) if m.starts_with("outblob decode: ")));
}

#[test]
fn cca_evidence_from_response_needs_utf8() {
    let err = cca_evidence_from_response(&[0xff, 0xfe, b'{']).unwrap_err();
    assert!(matches!(err, RatsdError::ResponseParse(ref m) if m.starts_with("invalid UTF-8: ")));

    let outblob = b"token";
    let evidence_b64 =
        general_purpose::URL_SAFE_NO_PAD.encode(tsm_report_json("arm_cca_guest", outblob).as_bytes());
    let cmw_json = format!(
        r#"{{"__cmwc_t": "tag:example.com,2024:test", "x": ["{TSM_TYPE}", "{evidence_b64}"]}}"#
    );
    let body = envelope_for(&cmw_json);
    assert_eq!(cca_evidence_from_response(body.as_bytes()).unwrap(), outblob);
}

// ---------------------------------------------------------------------------
// The steps: the records of a collection, and the search among them
// ---------------------------------------------------------------------------

#[test]
fn parse_cmw_items_leaves_out_the_collection_type() {
    let cmw_json = format!(
        r#"{{"__cmwc_t": "tag:example.com,2024:test", "b": ["text/plain", "Yg"], "a": ["{TSM_TYPE}", "YQ"]}}"#
    );
    let items = parse_cmw_items(cmw_json.as_bytes()).unwrap();
    assert_eq!(items.len(), 2);
    let values: Vec<Vec<u8>> = items.iter().map(|m| m.value.clone()).collect();
    assert_eq!(values, vec![b"a".to_vec(), b"b".to_vec()]);
    assert_eq!(items[1].typ, "text/plain");
}

#[test]
fn a_cca_report_needs_the_tsm_type_and_the_cca_provider() {
    let report = tsm_report_json("arm_cca_guest", b"x");
    assert!(is_cca_report_item(&monad(TSM_TYPE, &report)));
    assert!(is_cca_report_item(&monad(TSM_TYPE, &tsm_report_json("  arm_cca_guest\\n", b"x"))));
    assert!(!is_cca_report_item(&monad("application/json", &report)));
    assert!(!is_cca_report_item(&monad(TSM_TYPE, &tsm_report_json("tdx_guest", b"x"))));
    assert!(!is_cca_report_item(&monad(TSM_TYPE, "not json")));
    assert!(!is_cca_report_item(&monad(TSM_TYPE, r#"{"outblob": "eA"}"#)));
}

#[test]
fn the_first_cca_report_decides() {
    let items = vec![
        monad(TSM_TYPE, &tsm_report_json("tdx_guest", b"other")),
        monad(TSM_TYPE, &tsm_report_json("arm_cca_guest", b"first")),
        monad(TSM_TYPE, &tsm_report_json("arm_cca_guest", b"second")),
    ];
    assert_eq!(find_cca_outblob(&items).unwrap(), b"first");

    let items = vec![
        monad(TSM_TYPE, r#"{"provider": "arm_cca_guest"}"#),
        monad(TSM_TYPE, &tsm_report_json("arm_cca_guest", b"second")),
    ];
    let err = find_cca_outblob(&items).unwrap_err();
    assert!(matches!(err, RatsdError::Custom(_)));

    let err = find_cca_outblob(&vec![]).unwrap_err();
    assert!(matches!(err, RatsdError::Custom(_)));
}

#[test]
fn among_several_cca_reports_the_first_key_in_order_wins() {
    let later = general_purpose::URL_SAFE_NO_PAD
        .encode(tsm_report_json("arm_cca_guest", b"from-zz").as_bytes());
    let earlier = general_purpose::URL_SAFE_NO_PAD
        .encode(tsm_report_json("arm_cca_guest", b"from-aa").as_bytes());
    let cmw_json = format!(
        r#"{{"__cmwc_t": "tag:example.com,2024:test", "zz": ["{TSM_TYPE}", "{later}"], "aa": ["{TSM_TYPE}", "{earlier}"]}}"#
    );
    assert_eq!(extract_cca_token(&envelope_for(&cmw_json)).unwrap(), b"from-aa");
}
