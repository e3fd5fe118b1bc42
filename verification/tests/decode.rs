use prism::base64::decode_base64_str;
use prism::decode::{
    build_raw_xdr_report, effective_output_format, fetch_message, RawDecodeError, TxHashError,
};
use prism::report::Severity;

#[test]
fn raw_xdr_input_builds_a_local_report() {
    let report = build_raw_xdr_report("AAAA").expect("raw XDR should decode");

    assert_eq!(report.error_category, "raw-xdr");
    assert_eq!(report.error_name, "RawXdr");
    assert_eq!(report.summary, "Decoded raw XDR input from --raw");
    assert!(report.detailed_explanation.contains("3 bytes"));
}

#[test]
fn raw_report_fields() {
    let report = build_raw_xdr_report("AAAAAQ==").unwrap();
    assert_eq!(report.error_code, 0);
    assert_eq!(report.severity, Severity::Info);
    assert!(report.detailed_explanation.contains("decodes to 4 bytes"));
    assert!(report.suggested_fixes.is_empty());
}

#[test]
fn raw_report_refuses_invalid_base64() {
    assert_eq!(build_raw_xdr_report("AAA").err(), Some(RawDecodeError::InvalidBase64));
    assert_eq!(build_raw_xdr_report("AA!A").err(), Some(RawDecodeError::InvalidBase64));
    assert_eq!(build_raw_xdr_report("AB==").err(), Some(RawDecodeError::InvalidBase64));
}

#[test]
fn base64_decoding() {
    assert_eq!(decode_base64_str(""), Some(vec![]));
    assert_eq!(decode_base64_str("AAAA"), Some(vec![0, 0, 0]));
    assert_eq!(decode_base64_str("TWFu"), Some(b"Man".to_vec()));
    assert_eq!(decode_base64_str("TWE="), Some(b"Ma".to_vec()));
    assert_eq!(decode_base64_str("TQ=="), Some(b"M".to_vec()));
    assert_eq!(decode_base64_str("+/+/"), Some(vec![0xfb, 0xff, 0xbf]));
    assert_eq!(decode_base64_str("TQ==TWFu"), None);
    assert_eq!(decode_base64_str("TWF"), None);
    assert_eq!(decode_base64_str("TWE"), None);
    assert_eq!(decode_base64_str("TR=="), None);
    assert_eq!(decode_base64_str("T==="), None);
}

#[test]
fn fetch_message_shows_the_first_eight_bytes() {
    assert_eq!(fetch_message("abcdef0123456789").unwrap(), "Fetching transaction abcdef01...");
    assert_eq!(fetch_message("abc").unwrap(), "Fetching transaction abc...");
    assert_eq!(fetch_message("ééééé").unwrap(), "Fetching transaction éééé...");
    assert_eq!(fetch_message("aéééé").err(), Some(TxHashError::SplitCharacter));
    assert_eq!(fetch_message("aééé").unwrap(), "Fetching transaction aééé...");
}

#[test]
fn short_switch_overrides_output_format() {
    assert_eq!(effective_output_format(true, "json"), "short");
    assert_eq!(effective_output_format(false, "json"), "json");
}
