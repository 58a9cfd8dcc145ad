use lambda_ecr_rewrite::{HTML_ERROR_RESPONSE, JSON_ERROR_RESPONSE};
use serde_json::Value;

#[test]
fn test_valid_error_json() {
    let _: Value = serde_json::from_str(JSON_ERROR_RESPONSE).unwrap();
}

#[test]
fn test_valid_error_html() {
    assert!(html_parser::Dom::parse(HTML_ERROR_RESPONSE).is_ok());
}
