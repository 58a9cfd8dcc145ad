//! The outbound envelope, which always takes the dialect of the request it answers.
use crate::headers::HeaderMap;
use crate::requests::ApiGatewayRequestType;
use vstd::prelude::*;

verus! {

/// The body of a response.
pub enum Body {
    Empty,
    Text(String),
    Binary(Vec<u8>),
}

/// A response in the REST API proxy dialect ("1.0"), which has no cookie list.
pub struct V1Response {
    pub status_code: i64,
    pub headers: HeaderMap,
    pub body: Option<Body>,
    pub is_base64_encoded: bool,
}

/// A response in the HTTP API dialect ("2.0").
pub struct V2Response {
    pub status_code: i64,
    pub headers: HeaderMap,
    pub body: Option<Body>,
    pub is_base64_encoded: bool,
    pub cookies: Vec<String>,
}

/// A response in one of the two dialects.
pub enum ApiGatewayResponseType {
    V1(V1Response),
    V2(V2Response),
}

impl ApiGatewayResponseType {
    pub open spec fn spec_is_v1(&self) -> bool {
        self is V1
    }

    pub open spec fn spec_status_code(&self) -> i64 {
        match self {
            ApiGatewayResponseType::V1(r) => r.status_code,
            ApiGatewayResponseType::V2(r) => r.status_code,
        }
    }

    pub open spec fn spec_headers(&self) -> HeaderMap {
        match self {
            ApiGatewayResponseType::V1(r) => r.headers,
            ApiGatewayResponseType::V2(r) => r.headers,
        }
    }

    pub open spec fn spec_body(&self) -> Option<Body> {
        match self {
            ApiGatewayResponseType::V1(r) => r.body,
            ApiGatewayResponseType::V2(r) => r.body,
        }
    }

    pub open spec fn spec_is_base64_encoded(&self) -> bool {
        match self {
            ApiGatewayResponseType::V1(r) => r.is_base64_encoded,
            ApiGatewayResponseType::V2(r) => r.is_base64_encoded,
        }
    }

    /// The cookie list; none in the first dialect.
    pub open spec fn spec_cookies(&self) -> Option<Seq<String>> {
        match self {
            ApiGatewayResponseType::V1(_) => None,
            ApiGatewayResponseType::V2(r) => Some(r.cookies@),
        }
    }

    pub fn is_v1(&self) -> (r: bool)
        ensures
            r == self.spec_is_v1(),
    {
        match self {
            ApiGatewayResponseType::V1(_) => true,
            ApiGatewayResponseType::V2(_) => false,
        }
    }

    pub fn is_v2(&self) -> (r: bool)
        ensures
            r == !self.spec_is_v1(),
    {
        match self {
            ApiGatewayResponseType::V1(_) => false,
            ApiGatewayResponseType::V2(_) => true,
        }
    }

    pub fn body(&self) -> (r: Option<&Body>)
        ensures
            match r {
                Some(b) => self.spec_body() == Some(*b),
                None => self.spec_body() is None,
            },
    {
        match self {
            ApiGatewayResponseType::V1(resp) => resp.body.as_ref(),
            ApiGatewayResponseType::V2(resp) => resp.body.as_ref(),
        }
    }

    pub fn body_mut(&mut self) -> (r: Option<&mut Body>)
        ensures
            match r {
                Some(b) => old(self).spec_body() == Some(*b) && final(self).spec_body() == Some(
                    *final(b),
                ),
                None => old(self).spec_body() is None && final(self).spec_body() is None,
            },
            final(self).spec_is_v1() == old(self).spec_is_v1(),
            final(self).spec_status_code() == old(self).spec_status_code(),
            final(self).spec_headers() == old(self).spec_headers(),
            final(self).spec_is_base64_encoded() == old(self).spec_is_base64_encoded(),
            final(self).spec_cookies() == old(self).spec_cookies(),
    {
        match self {
            ApiGatewayResponseType::V1(resp) => resp.body.as_mut(),
            ApiGatewayResponseType::V2(resp) => resp.body.as_mut(),
        }
    }

    pub fn is_base64_encoded(&self) -> (r: bool)
        ensures
            r == self.spec_is_base64_encoded(),
    {
        match self {
            ApiGatewayResponseType::V1(resp) => resp.is_base64_encoded,
            ApiGatewayResponseType::V2(resp) => resp.is_base64_encoded,
        }
    }

    pub fn set_is_base64_encoded(&mut self, is_base64_encoded: bool)
        ensures
            final(self).spec_is_base64_encoded() == is_base64_encoded,
            final(self).spec_is_v1() == old(self).spec_is_v1(),
            final(self).spec_status_code() == old(self).spec_status_code(),
            final(self).spec_headers() == old(self).spec_headers(),
            final(self).spec_body() == old(self).spec_body(),
            final(self).spec_cookies() == old(self).spec_cookies(),
    {
        match self {
            ApiGatewayResponseType::V1(resp) => resp.is_base64_encoded = is_base64_encoded,
            ApiGatewayResponseType::V2(resp) => resp.is_base64_encoded = is_base64_encoded,
        }
    }

    pub fn headers(&self) -> (r: &HeaderMap)
        ensures
            *r == self.spec_headers(),
    {
        match self {
            ApiGatewayResponseType::V1(resp) => &resp.headers,
            ApiGatewayResponseType::V2(resp) => &resp.headers,
        }
    }

    pub fn headers_mut(&mut self) -> (r: &mut HeaderMap)
        ensures
            *r == old(self).spec_headers(),
            final(self).spec_headers() == *final(r),
            final(self).spec_is_v1() == old(self).spec_is_v1(),
            final(self).spec_status_code() == old(self).spec_status_code(),
            final(self).spec_body() == old(self).spec_body(),
            final(self).spec_is_base64_encoded() == old(self).spec_is_base64_encoded(),
            final(self).spec_cookies() == old(self).spec_cookies(),
    {
        match self {
            ApiGatewayResponseType::V1(resp) => &mut resp.headers,
            ApiGatewayResponseType::V2(resp) => &mut resp.headers,
        }
    }

    pub fn status_code(&self) -> (r: i64)
        ensures
            r == self.spec_status_code(),
    {
        match self {
            ApiGatewayResponseType::V1(resp) => resp.status_code,
            ApiGatewayResponseType::V2(resp) => resp.status_code,
        }
    }

    pub fn set_status_code(&mut self, code: i64)
        ensures
            final(self).spec_status_code() == code,
            final(self).spec_is_v1() == old(self).spec_is_v1(),
            final(self).spec_headers() == old(self).spec_headers(),
            final(self).spec_body() == old(self).spec_body(),
            final(self).spec_is_base64_encoded() == old(self).spec_is_base64_encoded(),
            final(self).spec_cookies() == old(self).spec_cookies(),
    {
        match self {
            ApiGatewayResponseType::V1(resp) => resp.status_code = code,
            ApiGatewayResponseType::V2(resp) => resp.status_code = code,
        }
    }

    pub fn cookies(&self) -> (r: Option<&Vec<String>>)
        ensures
            match r {
                Some(c) => self.spec_cookies() == Some(c@),
                None => self.spec_cookies() is None,
            },
    {
        match self {
            ApiGatewayResponseType::V1(_) => None,
            ApiGatewayResponseType::V2(resp) => Some(&resp.cookies),
        }
    }

    pub fn cookies_mut(&mut self) -> (r: Option<&mut Vec<String>>)
        ensures
            match r {
                Some(c) => old(self).spec_cookies() == Some(c@) && final(self).spec_cookies() == Some(
                    final(c)@,
                ),
                None => old(self).spec_cookies() is None && final(self).spec_cookies() is None,
            },
            final(self).spec_is_v1() == old(self).spec_is_v1(),
            final(self).spec_status_code() == old(self).spec_status_code(),
            final(self).spec_headers() == old(self).spec_headers(),
            final(self).spec_body() == old(self).spec_body(),
            final(self).spec_is_base64_encoded() == old(self).spec_is_base64_encoded(),
    {
        match self {
            ApiGatewayResponseType::V1(_) => None,
            ApiGatewayResponseType::V2(resp) => Some(&mut resp.cookies),
        }
    }
}

/// A copy of a list of strings.
pub fn copy_strings(v: &Vec<String>) -> (r: Vec<String>)
    ensures
        r@ == v@,
{
    let mut out: Vec<String> = Vec::new();
    let mut i: usize = 0;
    while i < v.len()
        invariant
            0 <= i <= v@.len(),
            out@ == v@.subrange(0, i as int),
        decreases v@.len() - i,
    {
        out.push(v[i].clone());
        assert(out@ =~= v@.subrange(0, i + 1));
        i = i + 1;
    }
    assert(v@.subrange(0, v@.len() as int) =~= v@);
    out
}

/// The fields of a response before its dialect is chosen, together with the request it answers.
pub struct ApiGatewayGenericResponse<'a> {
    pub req: &'a ApiGatewayRequestType,
    pub body: Option<Body>,
    pub is_base64_encoded: bool,
    pub headers: HeaderMap,
    pub status_code: i64,
    pub cookies: Option<Vec<String>>,
}

/// The cookie list a response in the second dialect carries: the explicit list where one was
/// given, else the request's own.
pub open spec fn response_cookies(
    req: ApiGatewayRequestType,
    cookies: Option<Vec<String>>,
) -> Seq<String> {
    match cookies {
        Some(c) => c@,
        None => req.spec_cookies(),
    }
}

impl<'a> ApiGatewayGenericResponse<'a> {
    /// What the finished response holds: the request's dialect, the given fields, and in the
    /// second dialect the cookie list of `response_cookies`.
    pub open spec fn built_by(&self, r: ApiGatewayResponseType) -> bool {
        &&& r.spec_is_v1() == self.req.spec_is_v1()
        &&& r.spec_status_code() == self.status_code
        &&& r.spec_headers() == self.headers
        &&& r.spec_body() == self.body
        &&& r.spec_is_base64_encoded() == self.is_base64_encoded
        &&& r.spec_cookies() == if self.req.spec_is_v1() {
            None
        } else {
            Some(response_cookies(*self.req, self.cookies))
        }
    }

    /// A builder with nothing set yet.
    pub fn builder() -> (r: ApiGatewayGenericResponseBuilder<'a>)
        ensures
            r.req is None,
            r.status_code is None,
            r.body is None,
            !r.is_base64_encoded,
            r.headers.entries@.len() == 0,
            r.cookies is None,
    {
        ApiGatewayGenericResponseBuilder {
            req: None,
            body: None,
            is_base64_encoded: false,
            headers: HeaderMap::new(),
            status_code: None,
            cookies: None,
        }
    }

    /// Makes the response in the dialect of the request.
    pub fn into_response(self) -> (r: ApiGatewayResponseType)
        ensures
            self.built_by(r),
    {
        match self.req {
            ApiGatewayRequestType::V1(_) => ApiGatewayResponseType::V1(
                V1Response {
                    status_code: self.status_code,
                    headers: self.headers,
                    body: self.body,
                    is_base64_encoded: self.is_base64_encoded,
                },
            ),
            ApiGatewayRequestType::V2(_) => {
                let cookies = match self.cookies {
                    Some(c) => c,
                    None => match self.req.cookies() {
                        Some(c) => copy_strings(c),
                        None => Vec::new(),
                    },
                };
                ApiGatewayResponseType::V2(
                    V2Response {
                        status_code: self.status_code,
                        headers: self.headers,
                        body: self.body,
                        is_base64_encoded: self.is_base64_encoded,
                        cookies,
                    },
                )
            },
        }
    }
}

/// Collects the fields of an `ApiGatewayGenericResponse`. The request and the status code must
/// be set before `build`.
pub struct ApiGatewayGenericResponseBuilder<'a> {
    pub req: Option<&'a ApiGatewayRequestType>,
    pub body: Option<Body>,
    pub is_base64_encoded: bool,
    pub headers: HeaderMap,
    pub status_code: Option<i64>,
    pub cookies: Option<Vec<String>>,
}

impl<'a> ApiGatewayGenericResponseBuilder<'a> {
    pub fn req(self, req: &'a ApiGatewayRequestType) -> (r: Self)
        ensures
            r == (Self { req: Some(req), ..self }),
    {
        Self { req: Some(req), ..self }
    }

    pub fn body(self, body: Body) -> (r: Self)
        ensures
            r == (Self { body: Some(body), ..self }),
    {
        Self { body: Some(body), ..self }
    }

    pub fn maybe_body(self, body: Option<Body>) -> (r: Self)
        ensures
            r == (Self { body, ..self }),
    {
        Self { body, ..self }
    }

    pub fn is_base64_encoded(self, is_base64_encoded: bool) -> (r: Self)
        ensures
            r == (Self { is_base64_encoded, ..self }),
    {
        Self { is_base64_encoded, ..self }
    }

    pub fn headers(self, headers: HeaderMap) -> (r: Self)
        ensures
            r == (Self { headers, ..self }),
    {
        Self { headers, ..self }
    }

    pub fn status_code(self, status_code: i64) -> (r: Self)
        ensures
            r == (Self { status_code: Some(status_code), ..self }),
    {
        Self { status_code: Some(status_code), ..self }
    }

    pub fn cookies(self, cookies: Vec<String>) -> (r: Self)
        ensures
            r == (Self { cookies: Some(cookies), ..self }),
    {
        Self { cookies: Some(cookies), ..self }
    }

    pub fn maybe_cookies(self, cookies: Option<Vec<String>>) -> (r: Self)
        ensures
            r == (Self { cookies, ..self }),
    {
        Self { cookies, ..self }
    }

    pub fn build(self) -> (r: ApiGatewayGenericResponse<'a>)
        requires
            self.req is Some,
            self.status_code is Some,
        ensures
            r.req == self.req.unwrap(),
            r.status_code == self.status_code.unwrap(),
            r.body == self.body,
            r.is_base64_encoded == self.is_base64_encoded,
            r.headers == self.headers,
            r.cookies == self.cookies,
    {
        ApiGatewayGenericResponse {
            req: self.req.unwrap(),
            body: self.body,
            is_base64_encoded: self.is_base64_encoded,
            headers: self.headers,
            status_code: self.status_code.unwrap(),
            cookies: self.cookies,
        }
    }
}

impl<'a> From<ApiGatewayGenericResponse<'a>> for ApiGatewayResponseType {
    fn from(value: ApiGatewayGenericResponse<'a>) -> (r: ApiGatewayResponseType)
        ensures
            value.built_by(r),
    {
        value.into_response()
    }
}

impl<'a> vstd::std_specs::convert::FromSpecImpl<ApiGatewayGenericResponse<'a>> for ApiGatewayResponseType {
    /// The conversion copies the request's cookie list, so its result equals no single spec
    /// value; what it makes is stated by `built_by` on `from` itself.
    open spec fn obeys_from_spec() -> bool {
        false
    }

    open spec fn from_spec(v: ApiGatewayGenericResponse<'a>) -> ApiGatewayResponseType {
        vstd::pervasive::arbitrary()
    }
}

} // verus!
