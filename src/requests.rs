//! The inbound envelope in its two wire dialects.
use crate::headers::HeaderMap;
use crate::query::QueryMap;
use vstd::prelude::*;

verus! {

/// A request in the REST API proxy dialect ("1.0"). It carries `path` and multi-value headers and
/// has no cookie list of its own.
pub struct V1Request {
    pub path: Option<String>,
    pub headers: HeaderMap,
    pub query_string_parameters: QueryMap,
}

/// A request in the HTTP API dialect ("2.0"). It carries `rawPath`, flat headers and a
/// first-class cookie list.
pub struct V2Request {
    pub raw_path: Option<String>,
    pub headers: HeaderMap,
    pub query_string_parameters: QueryMap,
    pub cookies: Option<Vec<String>>,
}

impl V1Request {
    /// A request with no path, headers or query.
    pub fn new() -> (r: V1Request)
        ensures
            r.path is None,
            r.headers.entries@.len() == 0,
            r.query_string_parameters.pairs@.len() == 0,
    {
        V1Request { path: None, headers: HeaderMap::new(), query_string_parameters: QueryMap::new() }
    }
}

impl V2Request {
    /// A request with no path, headers, query or cookies.
    pub fn new() -> (r: V2Request)
        ensures
            r.raw_path is None,
            r.headers.entries@.len() == 0,
            r.query_string_parameters.pairs@.len() == 0,
            r.cookies is None,
    {
        V2Request {
            raw_path: None,
            headers: HeaderMap::new(),
            query_string_parameters: QueryMap::new(),
            cookies: None,
        }
    }
}

impl Default for V1Request {
    fn default() -> (r: V1Request)
        ensures
            r.path is None,
            r.headers.entries@.len() == 0,
            r.query_string_parameters.pairs@.len() == 0,
    {
        V1Request::new()
    }
}

impl Default for V2Request {
    fn default() -> (r: V2Request)
        ensures
            r.raw_path is None,
            r.headers.entries@.len() == 0,
            r.query_string_parameters.pairs@.len() == 0,
            r.cookies is None,
    {
        V2Request::new()
    }
}

/// An inbound request in whichever dialect it arrived in. The dialect never changes once the
/// value is made. The HTTP API dialect is listed first: it is the more specific of the two.
pub enum ApiGatewayRequestType {
    V2(V2Request),
    V1(V1Request),
}

/// The request envelope, named as the proxy event it is decoded from.
pub type ApiGatewayProxyEventType = ApiGatewayRequestType;

impl ApiGatewayRequestType {
    pub open spec fn spec_is_v1(&self) -> bool {
        self is V1
    }

    /// The path, from `path` in the first dialect and `rawPath` in the second.
    pub open spec fn spec_path(&self) -> Option<Seq<char>> {
        match self {
            ApiGatewayRequestType::V1(r) => match r.path {
                Some(p) => Some(p@),
                None => None,
            },
            ApiGatewayRequestType::V2(r) => match r.raw_path {
                Some(p) => Some(p@),
                None => None,
            },
        }
    }

    pub open spec fn spec_headers(&self) -> HeaderMap {
        match self {
            ApiGatewayRequestType::V1(r) => r.headers,
            ApiGatewayRequestType::V2(r) => r.headers,
        }
    }

    pub open spec fn spec_query(&self) -> Seq<(String, String)> {
        match self {
            ApiGatewayRequestType::V1(r) => r.query_string_parameters.pairs@,
            ApiGatewayRequestType::V2(r) => r.query_string_parameters.pairs@,
        }
    }

    /// The cookie list: empty in the first dialect, and where the second carries none.
    pub open spec fn spec_cookies(&self) -> Seq<String> {
        match self {
            ApiGatewayRequestType::V1(_) => Seq::empty(),
            ApiGatewayRequestType::V2(r) => match r.cookies {
                Some(c) => c@,
                None => Seq::empty(),
            },
        }
    }

    pub fn path(&self) -> (r: Option<&String>)
        ensures
            match r {
                Some(p) => self.spec_path() == Some(p@),
                None => self.spec_path() is None,
            },
    {
        match self {
            ApiGatewayRequestType::V1(req) => req.path.as_ref(),
            ApiGatewayRequestType::V2(req) => req.raw_path.as_ref(),
        }
    }

    pub fn set_path(&mut self, path: &str)
        ensures
            final(self).spec_path() == Some(path@),
            final(self).spec_is_v1() == old(self).spec_is_v1(),
            final(self).spec_headers() == old(self).spec_headers(),
            final(self).spec_query() == old(self).spec_query(),
            final(self).spec_cookies() == old(self).spec_cookies(),
    {
        match self {
            ApiGatewayRequestType::V1(req) => req.path = Some(String::from_str(path)),
            ApiGatewayRequestType::V2(req) => req.raw_path = Some(String::from_str(path)),
        }
    }

    pub fn query(&self) -> (r: &QueryMap)
        ensures
            r.pairs@ == self.spec_query(),
    {
        match self {
            ApiGatewayRequestType::V1(req) => &req.query_string_parameters,
            ApiGatewayRequestType::V2(req) => &req.query_string_parameters,
        }
    }

    pub fn query_mut(&mut self) -> (r: &mut QueryMap)
        ensures
            r.pairs@ == old(self).spec_query(),
            final(self).spec_query() == final(r).pairs@,
            final(self).spec_is_v1() == old(self).spec_is_v1(),
            final(self).spec_path() == old(self).spec_path(),
            final(self).spec_headers() == old(self).spec_headers(),
            final(self).spec_cookies() == old(self).spec_cookies(),
    {
        match self {
            ApiGatewayRequestType::V1(req) => &mut req.query_string_parameters,
            ApiGatewayRequestType::V2(req) => &mut req.query_string_parameters,
        }
    }

    pub fn headers(&self) -> (r: &HeaderMap)
        ensures
            *r == self.spec_headers(),
    {
        match self {
            ApiGatewayRequestType::V1(req) => &req.headers,
            ApiGatewayRequestType::V2(req) => &req.headers,
        }
    }

    pub fn headers_mut(&mut self) -> (r: &mut HeaderMap)
        ensures
            *r == old(self).spec_headers(),
            final(self).spec_headers() == *final(r),
            final(self).spec_is_v1() == old(self).spec_is_v1(),
            final(self).spec_path() == old(self).spec_path(),
            final(self).spec_query() == old(self).spec_query(),
            final(self).spec_cookies() == old(self).spec_cookies(),
    {
        match self {
            ApiGatewayRequestType::V1(req) => &mut req.headers,
            ApiGatewayRequestType::V2(req) => &mut req.headers,
        }
    }

    /// The cookie list of a request in the second dialect; none in the first.
    pub fn cookies(&self) -> (r: Option<&Vec<String>>)
        ensures
            match self {
                ApiGatewayRequestType::V1(_) => r is None,
                ApiGatewayRequestType::V2(q) => match q.cookies {
                    Some(c) => r is Some && *r.unwrap() == c,
                    None => r is None,
                },
            },
    {
        match self {
            ApiGatewayRequestType::V1(_) => None,
            ApiGatewayRequestType::V2(req) => req.cookies.as_ref(),
        }
    }
}

} // verus!
