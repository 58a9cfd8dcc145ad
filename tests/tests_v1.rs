use lambda_ecr_rewrite::requests::{ApiGatewayRequestType, V1Request};
use lambda_ecr_rewrite::query::QueryMap;
use lambda_ecr_rewrite::responses::Body;
use lambda_ecr_rewrite::{
    create_error_response, create_rewrite_response, should_return_json, CACHE_MAX_AGE_DEFAULT,
    HTML_ERROR_RESPONSE, JSON_ERROR_RESPONSE,
};

#[test]
fn test_v1_should_return_json() {
    let mut req = ApiGatewayRequestType::V1(V1Request::default());

    // test accept json header
    req.headers_mut().insert("Accept", "application/json");

    assert!(should_return_json(&req));

    req.headers_mut().remove("Accept");

    // test content type json header
    req.headers_mut().insert("Content-Type", "application/json");

    assert!(should_return_json(&req));

    req.headers_mut().remove("Content-Type");

    // test empty
    assert!(!should_return_json(&req));

    // test accept html
    req.headers_mut().insert("Content-Type", "text/html");

    assert!(!should_return_json(&req));

    req.headers_mut().remove("Content-Type");

    // test content type html
    req.headers_mut().insert("Content-Type", "text/html");

    assert!(!should_return_json(&req));
}

#[test]
fn test_v1_create_rewrite_response_cache() {
    let mut req = ApiGatewayRequestType::V1(V1Request::default());
    req.set_path("a/b/c");

    let resp = create_rewrite_response(&req, "ecr.registry.com", 12345);

    assert!(resp.headers().contains_key("Cache-Control"));
    assert_eq!(
        "max-age=12345",
        resp.headers().get("Cache-Control").unwrap()
    );
}

#[test]
fn test_v1_create_rewrite_response_path() {
    let mut req = ApiGatewayRequestType::V1(V1Request::default());
    req.set_path("a/b/c");

    let resp = create_rewrite_response(&req, "ecr.registry.com", CACHE_MAX_AGE_DEFAULT);

    assert_eq!(307, resp.status_code());

    assert!(resp.headers().contains_key("Location"));
    assert_eq!(
        "https://ecr.registry.com/a/b/c",
        resp.headers().get("Location").unwrap().as_str()
    );

    assert_eq!(
        "max-age=60",
        resp.headers()
            .get("Cache-Control")
            .map(|v| v.as_str())
            .unwrap_or("")
    );
}

#[test]
fn test_v1_create_rewrite_response_no_path() {
    let req = ApiGatewayRequestType::V1(V1Request::default());
    let resp = create_rewrite_response(&req, "ecr.myhost.com", 100);

    assert!(resp.headers().contains_key("Location"));
    assert_eq!(
        "https://ecr.myhost.com/",
        resp.headers().get("Location").unwrap()
    );
}

#[test]
fn test_v1_create_rewrite_response_qs() {
    let mut qs = QueryMap::new();
    qs.insert("size", "lorge");

    let mut req = ApiGatewayRequestType::V1(V1Request::default());
    *req.query_mut() = qs;

    let resp = create_rewrite_response(&req, "ecr.myhost.com", 60);

    assert!(resp.headers().contains_key("Location"));
    assert_eq!(
        "https://ecr.myhost.com/?size=lorge",
        resp.headers().get("Location").unwrap()
    )
}

#[test]
fn test_v1_create_rewrite_response_qs_extra() {
    let mut qs = QueryMap::new();
    qs.insert("a", "b");
    qs.insert("c", "22");

    let mut req = ApiGatewayRequestType::V1(V1Request::default());
    req.set_path("/twenty");
    *req.query_mut() = qs;

    let resp = create_rewrite_response(&req, "ecr.myhost.com", 120);

    assert!(resp.headers().contains_key("Location"));

    let location = resp.headers().get("Location").unwrap().as_str();

    assert!(location.contains("?"));
    assert!(location.contains("a=b"));
    assert!(location.contains("c=22"));
}

#[test]
fn test_v1_create_error_response() {
    let mut req = ApiGatewayRequestType::V1(V1Request::default());
    req.headers_mut().insert("Accept", "application/json");
    req.set_path("/a/b/c");

    let resp = create_error_response(&req);

    // test json body
    match resp.body() {
        Some(Body::Text(body)) => assert_eq!(JSON_ERROR_RESPONSE, body),
        _ => panic!("returned non-text body"),
    }

    // test html body
    req.headers_mut().remove("Accept");

    let resp = create_error_response(&req);

    match resp.body() {
        Some(Body::Text(body)) => assert_eq!(HTML_ERROR_RESPONSE, body),
        _ => panic!("returned non-text body"),
    }
}
