use lambda_ecr_rewrite::config::{cache_max_age_from, parse_usize};
use lambda_ecr_rewrite::headers::HeaderMap;
use lambda_ecr_rewrite::query::{join_pairs, QueryMap};
use lambda_ecr_rewrite::requests::{ApiGatewayRequestType, V1Request, V2Request};
use lambda_ecr_rewrite::responses::{ApiGatewayGenericResponse, ApiGatewayResponseType, Body};
use lambda_ecr_rewrite::text::{decimal_string, eq_ignore_ascii_case, str_contains};
use lambda_ecr_rewrite::throttle::{LogThrottle, MIN_LOG_INTERVAL_MILLIS};
use lambda_ecr_rewrite::{
    create_error_response, create_rewrite_response, respond, should_return_json, LogStatus,
    CACHE_MAX_AGE_DEFAULT, HTML_ERROR_RESPONSE, JSON_ERROR_RESPONSE,
};

#[test]
fn test_log_infrequently() {
    let mut throttle = LogThrottle::new();
    assert_eq!(LogStatus::Emitted, throttle.try_emit(1_000));
    assert_eq!(LogStatus::Ignored, throttle.try_emit(2_000));
}

#[test]
fn throttle_emits_again_after_the_interval() {
    let mut throttle = LogThrottle::new();
    assert_eq!(LogStatus::Emitted, throttle.try_emit(0));
    assert_eq!(LogStatus::Ignored, throttle.try_emit(MIN_LOG_INTERVAL_MILLIS - 1));
    assert_eq!(LogStatus::Emitted, throttle.try_emit(MIN_LOG_INTERVAL_MILLIS));
    assert_eq!(Some(MIN_LOG_INTERVAL_MILLIS), throttle.last_emitted);
    // a clock reading before the last emission counts as no time elapsed
    assert_eq!(LogStatus::Ignored, throttle.try_emit(5));
}

#[test]
fn cache_max_age_reads_configured_value() {
    assert_eq!(60, cache_max_age_from(None));
    assert_eq!(CACHE_MAX_AGE_DEFAULT, cache_max_age_from(None));
    assert_eq!(12345, cache_max_age_from(Some("12345")));
    assert_eq!(7, cache_max_age_from(Some("+7")));
    assert_eq!(0, cache_max_age_from(Some("0")));
    assert_eq!(60, cache_max_age_from(Some("")));
    assert_eq!(60, cache_max_age_from(Some("+")));
    assert_eq!(60, cache_max_age_from(Some("-5")));
    assert_eq!(60, cache_max_age_from(Some("12a")));
    assert_eq!(60, cache_max_age_from(Some(" 12")));
    assert_eq!(60, cache_max_age_from(Some("99999999999999999999999")));
}

#[test]
fn parse_usize_matches_std() {
    for s in ["0", "42", "+42", "", "+", "-1", "1_000", "18446744073709551615", "18446744073709551616", "007"] {
        assert_eq!(s.parse::<usize>().ok(), parse_usize(s), "input {s:?}");
    }
}

#[test]
fn decimal_string_writes_digits() {
    assert_eq!("0", decimal_string(0));
    assert_eq!("9", decimal_string(9));
    assert_eq!("10", decimal_string(10));
    assert_eq!("12345", decimal_string(12345));
    assert_eq!(usize::MAX.to_string(), decimal_string(usize::MAX));
}

#[test]
fn header_names_ignore_ascii_case() {
    assert!(eq_ignore_ascii_case("Content-Type", "content-TYPE"));
    assert!(!eq_ignore_ascii_case("Accept", "Accepts"));
    assert!(!eq_ignore_ascii_case("Accept", "Bccept"));
    let mut headers = HeaderMap::new();
    headers.append("ACCEPT", "one");
    headers.append("accept", "two");
    assert_eq!("one", headers.get("Accept").unwrap().as_str());
    headers.insert("Accept", "three");
    assert_eq!(1, headers.entries.len());
    assert_eq!("three", headers.get("accept").unwrap().as_str());
    headers.remove("aCCEPT");
    assert!(!headers.contains_key("Accept"));
    assert!(headers.get("Accept").is_none());
}

#[test]
fn insert_keeps_other_headers_in_order() {
    let mut headers = HeaderMap::new();
    headers.append("A", "1");
    headers.append("B", "2");
    headers.append("a", "3");
    headers.append("C", "4");
    headers.insert("A", "5");
    let names: Vec<&str> = headers.entries.iter().map(|(n, _)| n.as_str()).collect();
    let values: Vec<&str> = headers.entries.iter().map(|(_, v)| v.as_str()).collect();
    assert_eq!(vec!["B", "C", "A"], names);
    assert_eq!(vec!["2", "4", "5"], values);
}

#[test]
fn substring_search() {
    assert!(str_contains("text/html; charset=utf-8", "html"));
    assert!(str_contains("html", "html"));
    assert!(!str_contains("htm", "html"));
    assert!(!str_contains("application/json", "html"));
    assert!(str_contains("anything", ""));
    assert!(str_contains("", ""));
}

#[test]
fn query_string_is_form_encoded() {
    let mut qs = QueryMap::new();
    assert!(qs.is_empty());
    assert_eq!("", qs.to_query_string());
    qs.insert("a b", "c&d=e");
    qs.insert("x", "?/é");
    assert!(!qs.is_empty());
    assert_eq!("a+b=c%26d%3De&x=%3F%2F%C3%A9", qs.to_query_string());
}

#[test]
fn query_keeps_repeated_names_in_order() {
    let mut qs = QueryMap::new();
    qs.insert("k", "1");
    qs.insert("j", "2");
    qs.insert("k", "3");
    assert_eq!("k=1&j=2&k=3", qs.to_query_string());
}

#[test]
fn join_pairs_writes_pairs_as_given() {
    let empty: Vec<(String, String)> = Vec::new();
    assert_eq!("", join_pairs(&empty));
    let pairs = vec![
        ("a".to_string(), "b".to_string()),
        ("%20".to_string(), "".to_string()),
        ("".to_string(), "z".to_string()),
    ];
    assert_eq!("a=b&%20=&=z", join_pairs(&pairs));
}

#[test]
fn redirect_with_query_has_one_question_mark() {
    let mut req = ApiGatewayRequestType::V2(V2Request::default());
    req.set_path("twenty");
    req.query_mut().insert("a", "b");
    req.query_mut().insert("c", "22");
    let resp = create_rewrite_response(&req, "ecr.myhost.com", 120);
    let location = resp.headers().get("Location").unwrap().as_str();
    assert_eq!("https://ecr.myhost.com/twenty?a=b&c=22", location);
    assert_eq!(1, location.matches('?').count());
    assert_eq!("max-age=120", resp.headers().get("Cache-Control").unwrap().as_str());
    assert!(resp.body().is_none());
    assert!(!resp.is_base64_encoded());
    assert!(resp.is_v2());
}

#[test]
fn redirect_keeps_request_cookies() {
    let req = ApiGatewayRequestType::V2(V2Request {
        cookies: Some(vec!["a=1".to_string(), "b=2".to_string()]),
        ..Default::default()
    });
    let resp = create_rewrite_response(&req, "h", 1);
    assert_eq!(Some(&vec!["a=1".to_string(), "b=2".to_string()]), resp.cookies());
    let v1 = create_rewrite_response(&ApiGatewayRequestType::V1(V1Request::default()), "h", 1);
    assert!(v1.cookies().is_none());
}

#[test]
fn v2_response_without_request_cookies_has_none() {
    let req = ApiGatewayRequestType::V2(V2Request::default());
    let resp: ApiGatewayResponseType = ApiGatewayGenericResponse::builder()
        .req(&req)
        .status_code(204)
        .is_base64_encoded(true)
        .body(Body::Binary(vec![1, 2]))
        .build()
        .into();
    assert_eq!(Some(&Vec::<String>::new()), resp.cookies());
    assert_eq!(204, resp.status_code());
    assert!(resp.is_base64_encoded());
    assert!(matches!(resp.body(), Some(Body::Binary(b)) if b == &vec![1u8, 2]));
}

#[test]
fn response_setters_change_one_field() {
    let req = ApiGatewayRequestType::V1(V1Request::default());
    let mut resp = create_rewrite_response(&req, "h", 1);
    resp.set_status_code(308);
    resp.set_is_base64_encoded(true);
    resp.headers_mut().insert("X-Extra", "1");
    assert_eq!(308, resp.status_code());
    assert!(resp.is_base64_encoded());
    assert!(resp.headers().contains_key("x-extra"));
    assert!(resp.headers().contains_key("Location"));
    assert!(resp.cookies_mut().is_none());
    assert!(resp.body_mut().is_none());
}

#[test]
fn accept_html_falls_through_to_content_type() {
    let mut req = ApiGatewayRequestType::V1(V1Request::default());
    req.headers_mut().insert("Accept", "text/html");
    req.headers_mut().insert("Content-Type", "application/json");
    assert!(should_return_json(&req));
    req.headers_mut().insert("content-type", "text/HTML");
    assert!(should_return_json(&req));
    req.headers_mut().insert("content-type", "TEXT/html");
    assert!(!should_return_json(&req));
}

#[test]
fn empty_or_unreadable_header_asks_for_json() {
    let mut req = ApiGatewayRequestType::V2(V2Request::default());
    req.headers_mut().insert("Accept", "");
    assert!(should_return_json(&req));
    req.headers_mut().insert("Accept", "text/html\u{7f}");
    assert!(should_return_json(&req));
    req.headers_mut().insert("Accept", "text/html; é");
    assert!(should_return_json(&req));
    req.headers_mut().insert("Accept", "text/html;\tq=1");
    assert!(!should_return_json(&req));
}

#[test]
fn error_response_content_type_and_dialect() {
    let mut req = ApiGatewayRequestType::V2(V2Request::default());
    req.headers_mut().insert("Accept", "application/json");
    let json = create_error_response(&req);
    assert!(json.is_v2());
    assert_eq!(500, json.status_code());
    assert_eq!("application/json", json.headers().get("Content-Type").unwrap().as_str());
    req.headers_mut().remove("Accept");
    let html = create_error_response(&req);
    assert_eq!(
        "text/html; charset=utf-8",
        html.headers().get("Content-Type").unwrap().as_str()
    );
    match html.body() {
        Some(Body::Text(body)) => assert_eq!(HTML_ERROR_RESPONSE, body),
        _ => panic!("returned non-text body"),
    }
}

#[test]
fn respond_picks_redirect_or_error() {
    let mut req = ApiGatewayRequestType::V1(V1Request::default());
    req.headers_mut().insert("Accept", "application/json");
    let redirect = respond(&req, Some("ecr.myhost.com"), 60);
    assert_eq!(307, redirect.status_code());
    assert!(redirect.is_v1());
    let error = respond(&req, None, 60);
    assert_eq!(500, error.status_code());
    assert!(error.is_v1());
    match error.body() {
        Some(Body::Text(body)) => assert_eq!(JSON_ERROR_RESPONSE, body),
        _ => panic!("returned non-text body"),
    }
}
