//! Turns an API Gateway proxy event, in either of its two wire dialects, into a redirect to a
//! fixed downstream host, or into an error response when no host is configured. The response
//! always takes the dialect of the request.
pub mod config;
pub mod headers;
pub mod query;
pub mod requests;
pub mod responses;
pub mod text;
pub mod throttle;

use crate::headers::HeaderMap;
use crate::query::query_string;
use crate::requests::{ApiGatewayRequestType, V1Request, V2Request};
use crate::responses::{ApiGatewayGenericResponse, ApiGatewayResponseType, Body, V1Response};
use crate::text::{contains_seq, decimal, decimal_string, starts_with_seq, str_contains};
pub use crate::throttle::LogStatus;
use vstd::prelude::*;

verus! {

/// The name of the environment variable holding the FQDN of the registry host.
pub const ECR_REGISTRY_ENV_VAR: &'static str = "ECR_REGISTRY_HOST";

/// The name of the environment variable holding the `max-age`, in seconds, of responses.
pub const CACHE_MAX_AGE_ENV_VAR: &'static str = "CACHE_MAX_AGE";

/// The `max-age`, in seconds, used when none is configured or the configured one is unusable.
pub const CACHE_MAX_AGE_DEFAULT: usize = 60;

/// The body of the error page served as HTML.
pub const HTML_ERROR_RESPONSE: &'static str = r#"<!doctype html>
<html lang="en-us">
  <head>
    <title>Error: 500 (Internal Server Error)</title>
  </head>
  <body>
    <h1>Error: 500 (Internal Server Error)</h1>
    <p>Destination host name not set.</p>
  </body>
</html>"#;

/// The body of the error document served as JSON.
pub const JSON_ERROR_RESPONSE: &'static str = r#"{
  "status": {
    "code": 500,
    "msg": "Internal Server Error"
  },
  "errors": ["Destination host name not set."]
}"#;

/// The body of the answer to an event that fits neither dialect.
pub const INVALID_EVENT_BODY: &'static str = "Invalid event received";

/// A character that a header value may hold and still be read as text.
pub open spec fn is_header_text(c: char) -> bool {
    c == '\t' || (' ' <= c && c <= '~')
}

/// A header value read as text: the value itself, or nothing where it holds a character that
/// is not visible ASCII.
pub open spec fn header_text(v: Seq<char>) -> Seq<char> {
    if forall|i: int| 0 <= i < v.len() ==> is_header_text(#[trigger] v[i]) {
        v
    } else {
        Seq::empty()
    }
}

/// A present header whose text does not mention `html` asks for JSON.
pub open spec fn asks_for_json(v: Option<Seq<char>>) -> bool {
    match v {
        Some(t) => !contains_seq(header_text(t), seq!['h', 't', 'm', 'l']),
        None => false,
    }
}

/// JSON is served when `Accept`, or failing that `Content-Type`, asks for it; HTML otherwise.
pub open spec fn wants_json(headers: HeaderMap) -> bool {
    asks_for_json(headers.spec_get("Accept"@)) || asks_for_json(headers.spec_get("Content-Type"@))
}

/// The path of the redirect: the request's path with a leading `/`, or `/` where it has none.
pub open spec fn effective_path(path: Option<Seq<char>>) -> Seq<char> {
    match path {
        Some(p) => if starts_with_seq(p, seq!['/']) {
            p
        } else {
            seq!['/'] + p
        },
        None => seq!['/'],
    }
}

/// `https://` + host + path, then `?` and the query string where there is one.
pub open spec fn redirect_location(
    host: Seq<char>,
    path: Option<Seq<char>>,
    query: Seq<(String, String)>,
) -> Seq<char> {
    let qs = query_string(query);
    "https://"@ + host + effective_path(path) + if qs.len() == 0 {
        Seq::empty()
    } else {
        seq!['?'] + qs
    }
}

/// The `Cache-Control` value for a lifetime of `max_age` seconds.
pub open spec fn cache_control(max_age: nat) -> Seq<char> {
    "max-age="@ + decimal(max_age)
}

/// The text of a body, where it is text.
pub open spec fn body_text(b: Option<Body>) -> Option<Seq<char>> {
    match b {
        Some(Body::Text(t)) => Some(t@),
        _ => None,
    }
}

/// The headers hold exactly the given entries, in order.
pub open spec fn has_entries(h: HeaderMap, entries: Seq<(Seq<char>, Seq<char>)>) -> bool {
    &&& h.entries@.len() == entries.len()
    &&& forall|i: int|
        0 <= i < entries.len() ==> (#[trigger] h.entries@[i]).0@ == entries[i].0
            && h.entries@[i].1@ == entries[i].1
}

/// The text of each header entry, in order.
pub open spec fn header_view(h: HeaderMap) -> Seq<(Seq<char>, Seq<char>)> {
    h.entries@.map_values(|e: (String, String)| (e.0@, e.1@))
}

/// The cookie list a response to `req` carries: the request's own in the second dialect, none
/// in the first.
pub open spec fn inherited_cookies(req: ApiGatewayRequestType) -> Option<Seq<String>> {
    if req.spec_is_v1() {
        None
    } else {
        Some(req.spec_cookies())
    }
}

/// `r` is the redirect for `req`: the request's dialect, status 307, exactly the
/// `Cache-Control` and `Location` headers, no body, and the request's cookies.
pub open spec fn is_redirect_for(
    r: ApiGatewayResponseType,
    req: ApiGatewayRequestType,
    host: Seq<char>,
    max_age: nat,
) -> bool {
    &&& r.spec_is_v1() == req.spec_is_v1()
    &&& r.spec_status_code() == 307
    &&& has_entries(
        r.spec_headers(),
        seq![
            ("Cache-Control"@, cache_control(max_age)),
            ("Location"@, redirect_location(host, req.spec_path(), req.spec_query())),
        ],
    )
    &&& r.spec_body() is None
    &&& !r.spec_is_base64_encoded()
    &&& r.spec_cookies() == inherited_cookies(req)
}

/// `r` is the error response for `req`: the request's dialect, status 500, the content type
/// and fixed body that content negotiation picks, and the request's cookies.
pub open spec fn is_error_for(r: ApiGatewayResponseType, req: ApiGatewayRequestType) -> bool {
    &&& r.spec_is_v1() == req.spec_is_v1()
    &&& r.spec_status_code() == 500
    &&& has_entries(
        r.spec_headers(),
        seq![
            (
                "Content-Type"@,
                if wants_json(req.spec_headers()) {
                    "application/json"@
                } else {
                    "text/html; charset=utf-8"@
                },
            ),
        ],
    )
    &&& body_text(r.spec_body()) == Some(
        if wants_json(req.spec_headers()) {
            JSON_ERROR_RESPONSE@
        } else {
            HTML_ERROR_RESPONSE@
        },
    )
    &&& !r.spec_is_base64_encoded()
    &&& r.spec_cookies() == inherited_cookies(req)
}

/// `r` is the answer to an event that fits neither dialect: first dialect, status 500, no
/// headers, the fixed text body, not base64.
pub open spec fn is_invalid_event_answer(r: ApiGatewayResponseType) -> bool {
    &&& r.spec_is_v1()
    &&& r.spec_status_code() == 500
    &&& r.spec_headers().entries@.len() == 0
    &&& body_text(r.spec_body()) == Some(INVALID_EVENT_BODY@)
    &&& !r.spec_is_base64_encoded()
    &&& r.spec_cookies() is None
}

/// The host as text, where one is configured.
pub open spec fn host_view(host: Option<&str>) -> Option<Seq<char>> {
    match host {
        Some(h) => Some(h@),
        None => None,
    }
}

/// `r` answers `req`: the redirect where a host is configured, else the error response.
pub open spec fn answers_request(
    r: ApiGatewayResponseType,
    req: ApiGatewayRequestType,
    host: Option<Seq<char>>,
    max_age: nat,
) -> bool {
    match host {
        Some(h) => is_redirect_for(r, req, h, max_age),
        None => is_error_for(r, req),
    }
}

/// `r` answers a normalized event.
pub open spec fn answers_event(
    r: ApiGatewayResponseType,
    event: Result<ApiGatewayRequestType, MalformedEventError>,
    host: Option<Seq<char>>,
    max_age: nat,
) -> bool {
    match event {
        Ok(req) => answers_request(r, req, host, max_age),
        Err(_) => is_invalid_event_answer(r),
    }
}

/// Everything a caller can observe of a response: dialect, status, header texts, whether there
/// is a body and its text, the base64 flag and the cookie list.
pub open spec fn observed(r: ApiGatewayResponseType) -> (
    bool,
    i64,
    Seq<(Seq<char>, Seq<char>)>,
    bool,
    Option<Seq<char>>,
    bool,
    Option<Seq<String>>,
) {
    (
        r.spec_is_v1(),
        r.spec_status_code(),
        header_view(r.spec_headers()),
        r.spec_body() is Some,
        body_text(r.spec_body()),
        r.spec_is_base64_encoded(),
        r.spec_cookies(),
    )
}

proof fn lemma_has_entries_view(h: HeaderMap, entries: Seq<(Seq<char>, Seq<char>)>)
    requires
        has_entries(h, entries),
    ensures
        header_view(h) == entries,
{
    assert(header_view(h) =~= entries);
}

/// An event has one answer: two responses that both answer the same event, under the same
/// configuration, agree in every field a caller can observe.
pub proof fn answer_is_determined(
    event: Result<ApiGatewayRequestType, MalformedEventError>,
    host: Option<Seq<char>>,
    max_age: nat,
    r1: ApiGatewayResponseType,
    r2: ApiGatewayResponseType,
)
    requires
        answers_event(r1, event, host, max_age),
        answers_event(r2, event, host, max_age),
    ensures
        observed(r1) == observed(r2),
{
    match event {
        Ok(req) => match host {
            Some(h) => {
                let e = seq![
                    ("Cache-Control"@, cache_control(max_age)),
                    ("Location"@, redirect_location(h, req.spec_path(), req.spec_query())),
                ];
                lemma_has_entries_view(r1.spec_headers(), e);
                lemma_has_entries_view(r2.spec_headers(), e);
            },
            None => {
                let e = seq![
                    (
                        "Content-Type"@,
                        if wants_json(req.spec_headers()) {
                            "application/json"@
                        } else {
                            "text/html; charset=utf-8"@
                        },
                    ),
                ];
                lemma_has_entries_view(r1.spec_headers(), e);
                lemma_has_entries_view(r2.spec_headers(), e);
            },
        },
        Err(_) => {
            lemma_has_entries_view(r1.spec_headers(), Seq::empty());
            lemma_has_entries_view(r2.spec_headers(), Seq::empty());
        },
    }
}

/// Whether the header value `v` asks for JSON.
fn value_asks_for_json(v: &str) -> (r: bool)
    ensures
        r == asks_for_json(Some(v@)),
{
    let n = v.unicode_len();
    let mut i: usize = 0;
    while i < n
        invariant
            n == v@.len(),
            0 <= i <= n,
            forall|j: int| 0 <= j < i ==> is_header_text(#[trigger] v@[j]),
        decreases n - i,
    {
        let c = v.get_char(i);
        if !(c == '\t' || (' ' <= c && c <= '~')) {
            proof {
                assert(header_text(v@) == Seq::<char>::empty());
                assert(!contains_seq(Seq::<char>::empty(), seq!['h', 't', 'm', 'l']));
            }
            return true;
        }
        i = i + 1;
    }
    proof {
        reveal_strlit("html");
    }
    let found = str_contains(v, "html");
    assert("html"@ =~= seq!['h', 't', 'm', 'l']);
    !found
}

/// Whether to serve JSON rather than HTML. `Accept` is read first, then `Content-Type`: the
/// first present one whose text does not mention `html` decides for JSON. HTML is the default.
pub fn should_return_json(req: &ApiGatewayRequestType) -> (r: bool)
    ensures
        r == wants_json(req.spec_headers()),
{
    let headers = req.headers();
    match headers.get("Accept") {
        Some(v) => {
            if value_asks_for_json(v.as_str()) {
                return true;
            }
        },
        None => {},
    }
    match headers.get("Content-Type") {
        Some(v) => value_asks_for_json(v.as_str()),
        None => false,
    }
}

/// A 500 response, in the dialect of `req`, for when no downstream host is configured. Its body
/// is the JSON document where `should_return_json` says so, else the HTML page.
pub fn create_error_response(req: &ApiGatewayRequestType) -> (r: ApiGatewayResponseType)
    ensures
        is_error_for(r, *req),
{
    let mut headers = HeaderMap::new();
    let body;
    if should_return_json(req) {
        headers.append("Content-Type", "application/json");
        body = String::from_str(JSON_ERROR_RESPONSE);
    } else {
        headers.append("Content-Type", "text/html; charset=utf-8");
        body = String::from_str(HTML_ERROR_RESPONSE);
    }
    let generic = ApiGatewayGenericResponse::builder().req(req).status_code(500).headers(
        headers,
    ).body(Body::Text(body)).build();
    generic.into_response()
}

/// A 307 redirect to `https://<host><path>?<query>`, in the dialect of `req`, with a
/// `Cache-Control` lifetime of `max_age` seconds.
pub fn create_rewrite_response(req: &ApiGatewayRequestType, host: &str, max_age: usize) -> (r:
    ApiGatewayResponseType)
    ensures
        is_redirect_for(r, *req, host@, max_age as nat),
{
    let mut path = String::new();
    match req.path() {
        Some(p) => {
            if p.as_str().unicode_len() > 0 && p.as_str().get_char(0) == '/' {
                path.append(p.as_str());
                proof {
                    assert(p@.subrange(0, 1) =~= seq!['/']);
                }
            } else {
                path.append("/");
                path.append(p.as_str());
                proof {
                    reveal_strlit("/");
                    if p@.len() > 0 {
                        assert(p@.subrange(0, 1)[0] == p@[0]);
                    }
                }
            }
        },
        None => {
            path.append("/");
            proof {
                reveal_strlit("/");
            }
        },
    }
    assert(path@ == effective_path(req.spec_path()));
    let qs = req.query().to_query_string();
    let mut location = String::from_str("https://");
    location.append(host);
    location.append(path.as_str());
    if qs.as_str().unicode_len() > 0 {
        location.append("?");
        location.append(qs.as_str());
        proof {
            reveal_strlit("?");
        }
    }
    assert(location@ =~= redirect_location(host@, req.spec_path(), req.spec_query()));
    let mut cache = String::from_str("max-age=");
    cache.append(decimal_string(max_age).as_str());
    let mut headers = HeaderMap::new();
    headers.append("Cache-Control", cache.as_str());
    headers.append("Location", location.as_str());
    let generic = ApiGatewayGenericResponse::builder().req(req).status_code(307).headers(
        headers,
    ).build();
    generic.into_response()
}

/// Why an event could be read in neither dialect: what each attempt reported.
pub struct MalformedEventError {
    pub v2_error: String,
    pub v1_error: String,
}

/// The request an event is taken as, given its reading in each dialect: the HTTP API dialect
/// wherever the event reads as one, else the REST API proxy dialect, else neither.
pub open spec fn normalized(
    as_v2: Result<V2Request, String>,
    as_v1: Result<V1Request, String>,
) -> Result<ApiGatewayRequestType, MalformedEventError> {
    match as_v2 {
        Ok(r) => Ok(ApiGatewayRequestType::V2(r)),
        Err(v2_error) => match as_v1 {
            Ok(r) => Ok(ApiGatewayRequestType::V1(r)),
            Err(v1_error) => Err(MalformedEventError { v2_error, v1_error }),
        },
    }
}

/// Chooses the dialect of an event from its readings as each dialect. The HTTP API dialect is
/// tried first: it is the more specific, and a REST API reading would also accept many of its
/// events.
pub fn normalize(as_v2: Result<V2Request, String>, as_v1: Result<V1Request, String>) -> (r:
    Result<ApiGatewayRequestType, MalformedEventError>)
    ensures
        r == normalized(as_v2, as_v1),
{
    match as_v2 {
        Ok(req) => Ok(ApiGatewayRequestType::V2(req)),
        Err(v2_error) => match as_v1 {
            Ok(req) => Ok(ApiGatewayRequestType::V1(req)),
            Err(v1_error) => Err(MalformedEventError { v2_error, v1_error }),
        },
    }
}

/// The normalizer depends on nothing but the two readings of the event: the same readings give
/// the same request, field for field.
pub proof fn normalize_is_repeatable(
    a2: Result<V2Request, String>,
    a1: Result<V1Request, String>,
    b2: Result<V2Request, String>,
    b1: Result<V1Request, String>,
)
    requires
        a2 == b2,
        a1 == b1,
    ensures
        normalized(a2, a1) == normalized(b2, b1),
{
}

/// The answer to an event that reads as neither dialect: a 500 in the first dialect, since the
/// caller's own cannot be known.
pub fn invalid_event_response() -> (r: ApiGatewayResponseType)
    ensures
        is_invalid_event_answer(r),
{
    ApiGatewayResponseType::V1(
        V1Response {
            status_code: 500,
            headers: HeaderMap::new(),
            body: Some(Body::Text(String::from_str(INVALID_EVENT_BODY))),
            is_base64_encoded: false,
        },
    )
}

/// The answer to a request: the redirect where a downstream host is configured, else the error
/// response.
pub fn respond(req: &ApiGatewayRequestType, host: Option<&str>, max_age: usize) -> (r:
    ApiGatewayResponseType)
    ensures
        answers_request(r, *req, host_view(host), max_age as nat),
{
    match host {
        Some(h) => create_rewrite_response(req, h, max_age),
        None => create_error_response(req),
    }
}

/// The answer to an event once it has been normalized. A request is answered in its own
/// dialect; an event that fits neither gets `invalid_event_response`.
pub fn respond_to_event(
    event: &Result<ApiGatewayRequestType, MalformedEventError>,
    host: Option<&str>,
    max_age: usize,
) -> (r: ApiGatewayResponseType)
    ensures
        answers_event(r, *event, host_view(host), max_age as nat),
{
    match event {
        Ok(req) => respond(req, host, max_age),
        Err(_) => invalid_event_response(),
    }
}

} // verus!
