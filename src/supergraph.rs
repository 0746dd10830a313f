use vstd::prelude::*;

use serde_json_bytes::Value;

use crate::context::Context;
use crate::graphql;
use crate::graphql::{empty_object, json_keys, JsonMap, Path};
use crate::http_ext::{
    check_status_code, first_header_error, header_map, header_pairs, headers_ok, is_uri,
    multimap_pairs, multimap_pairs_in, normalized_headers, parse_uri, uri_of, ConstructionError,
    HeaderMultiMap, Method,
};

verus! {

/// The HTTP side of an inbound request, carrying the GraphQL operation as body.
#[derive(Debug)]
pub struct HttpRequest {
    pub method: Method,
    pub uri: http::Uri,
    /// (name, value) pairs in order; a name may repeat.
    pub headers: Vec<(String, String)>,
    pub body: graphql::Request,
}

/// The router stage's request: the inbound HTTP request and the request's
/// context.
#[derive(Debug)]
pub struct Request {
    pub originating_request: HttpRequest,
    pub context: Context,
}

/// The header name that fake requests fill in when the caller gave none.
pub open spec fn content_type_name() -> Seq<char> {
    seq!['c', 'o', 'n', 't', 'e', 'n', 't', '-', 't', 'y', 'p', 'e']
}

pub open spec fn json_media_type() -> Seq<char> {
    seq!['a', 'p', 'p', 'l', 'i', 'c', 'a', 't', 'i', 'o', 'n', '/', 'j', 's', 'o', 'n']
}

/// The placeholder URI of fake requests.
pub open spec fn default_uri() -> Seq<char> {
    seq!['h', 't', 't', 'p', ':', '/', '/', 'd', 'e', 'f', 'a', 'u', 'l', 't']
}

/// `h`, with a JSON content type added at the end where no header is named
/// `content-type`.
pub open spec fn with_content_type(h: Seq<(Seq<char>, Seq<char>)>) -> Seq<(Seq<char>, Seq<char>)> {
    if exists|i: int| 0 <= i < h.len() && (#[trigger] h[i]).0 == content_type_name() {
        h
    } else {
        h.push((content_type_name(), json_media_type()))
    }
}

fn add_content_type(headers: &mut Vec<(String, String)>)
    ensures
        header_pairs(final(headers)@) == with_content_type(header_pairs(old(headers)@)),
{
    let ghost h = header_pairs(headers@);
    let name = "content-type".to_owned();
    proof {
        reveal_strlit("content-type");
        reveal_strlit("application/json");
    }
    assert(name@ =~= content_type_name());
    let mut i: usize = 0;
    while i < headers.len()
        invariant
            h == header_pairs(headers@),
            name@ == content_type_name(),
            i <= headers@.len(),
            forall|j: int| 0 <= j < i ==> (#[trigger] h[j]).0 != content_type_name(),
        decreases headers@.len() - i,
    {
        assert(h[i as int] == (headers@[i as int].0@, headers@[i as int].1@));
        if headers[i].0.eq(&name) {
            return;
        }
        i = i + 1;
    }
    let value = "application/json".to_owned();
    assert(value@ =~= json_media_type());
    headers.push((name, value));
    assert(header_pairs(headers@) =~= h.push((content_type_name(), json_media_type())));
}

impl Request {
    /// Wraps an HTTP request, with a fresh context.
    pub fn from_originating_request(originating_request: HttpRequest) -> (r: Request)
        ensures
            r.originating_request == originating_request,
            r.context.entries() == Map::<Seq<char>, Value>::empty(),
    {
        Request { originating_request, context: Context::new() }
    }

    /// Builds a request. Fails, on the first refused header, if and only if a
    /// header name or value is refused; nothing is built then.
    pub fn new(
        query: Option<String>,
        operation_name: Option<String>,
        variables: JsonMap,
        extensions: JsonMap,
        context: Context,
        headers: HeaderMultiMap,
        uri: http::Uri,
        method: Method,
    ) -> (r: Result<Request, ConstructionError>)
        ensures
            exists|h: Seq<(Seq<char>, Seq<char>)>| #[trigger] multimap_pairs_in(headers, h) && {
                &&& r is Ok <==> headers_ok(h)
                &&& r matches Ok(req) ==> {
                    &&& req.originating_request.method == method
                    &&& req.originating_request.uri == uri
                    &&& header_pairs(req.originating_request.headers@) == normalized_headers(h)
                    &&& req.originating_request.body == (graphql::Request { query, operation_name, variables, extensions })
                    &&& req.context == context
                }
                &&& r matches Err(e) ==> first_header_error(h, e)
            },
    {
        let ghost given = headers;
        let pairs = multimap_pairs(headers);
        assert(multimap_pairs_in(given, header_pairs(pairs@)));
        Self::from_pairs(query, operation_name, variables, extensions, context, pairs, uri, method)
    }

    fn from_pairs(
        query: Option<String>,
        operation_name: Option<String>,
        variables: JsonMap,
        extensions: JsonMap,
        context: Context,
        headers: Vec<(String, String)>,
        uri: http::Uri,
        method: Method,
    ) -> (r: Result<Request, ConstructionError>)
        ensures
            r is Ok <==> headers_ok(header_pairs(headers@)),
            r matches Ok(req) ==> {
                &&& req.originating_request.method == method
                &&& req.originating_request.uri == uri
                &&& header_pairs(req.originating_request.headers@) == normalized_headers(header_pairs(headers@))
                &&& req.originating_request.body == (graphql::Request { query, operation_name, variables, extensions })
                &&& req.context == context
            },
            r matches Err(e) ==> first_header_error(header_pairs(headers@), e),
    {
        let headers = match header_map(&headers) {
            Ok(h) => h,
            Err(e) => {
                return Err(e);
            },
        };
        let body = graphql::Request { query, operation_name, variables, extensions };
        Ok(Request { originating_request: HttpRequest { method, uri, headers, body }, context })
    }

    /// Builds a request for tests: the method defaults to GET, the context to
    /// an empty one, the URI is a placeholder, and a JSON content type is added
    /// where no `content-type` header is given.
    pub fn fake_new(
        query: Option<String>,
        operation_name: Option<String>,
        variables: JsonMap,
        extensions: JsonMap,
        context: Option<Context>,
        headers: HeaderMultiMap,
        method: Option<Method>,
    ) -> (r: Result<Request, ConstructionError>)
        ensures
            exists|h: Seq<(Seq<char>, Seq<char>)>| #[trigger] multimap_pairs_in(headers, h) && {
                &&& r is Ok <==> is_uri(default_uri()) && headers_ok(with_content_type(h))
                &&& r matches Ok(req) ==> {
                    &&& req.originating_request.method == (match method {
                        Some(m) => m,
                        None => Method::Get,
                    })
                    &&& req.originating_request.uri == uri_of(default_uri())
                    &&& header_pairs(req.originating_request.headers@) == normalized_headers(with_content_type(h))
                    &&& req.originating_request.body == (graphql::Request { query, operation_name, variables, extensions })
                    &&& (match context {
                        Some(c) => req.context == c,
                        None => req.context.entries() == Map::<Seq<char>, Value>::empty(),
                    })
                }
                &&& r matches Err(e) ==> if is_uri(default_uri()) {
                    first_header_error(with_content_type(h), e)
                } else {
                    e matches ConstructionError::InvalidUri { uri } && uri@ == default_uri()
                }
            },
    {
        let ghost given = headers;
        let mut headers = multimap_pairs(headers);
        let ghost h = header_pairs(headers@);
        assert(multimap_pairs_in(given, h));
        add_content_type(&mut headers);
        let uri_text = "http://default";
        proof {
            reveal_strlit("http://default");
        }
        assert(uri_text@ =~= default_uri());
        let uri = match parse_uri(uri_text) {
            Ok(u) => u,
            Err(_) => {
                return Err(ConstructionError::InvalidUri { uri: uri_text.to_owned() });
            },
        };
        let context = match context {
            Some(c) => c,
            None => Context::new(),
        };
        let method = match method {
            Some(m) => m,
            None => Method::Get,
        };
        Request::from_pairs(query, operation_name, variables, extensions, context, headers, uri, method)
    }
}

/// A source of response payloads, pulled one at a time. `None` means the
/// source is exhausted.
pub trait PayloadStream {
    /// One pull from this state may yield `r` and leave the source in state
    /// `after`. A source that states nothing of itself admits every outcome.
    open spec fn pulled(&self, r: Option<graphql::Response>, after: &Self) -> bool {
        true
    }

    fn next_payload(&mut self) -> (r: Option<graphql::Response>)
        ensures
            old(self).pulled(r, &*final(self)),
    ;
}

/// A change applied to each payload as it is pulled.
pub trait PayloadTransform {
    /// Applying the transform to `payload` in this state may give `r` and leave
    /// the transform in state `after`. A transform that states nothing of
    /// itself admits every outcome.
    open spec fn applied(&self, payload: graphql::Response, r: graphql::Response, after: &Self) -> bool {
        true
    }

    fn apply(&mut self, payload: graphql::Response) -> (r: graphql::Response)
        ensures
            old(self).applied(payload, r, &*final(self)),
    ;
}

/// A source that yields one payload, then nothing.
#[derive(Debug)]
pub struct Once {
    item: Option<graphql::Response>,
}

impl Once {
    /// What the next pull yields.
    pub closed spec fn pending(&self) -> Option<graphql::Response> {
        self.item
    }

    pub fn new(payload: graphql::Response) -> (r: Once)
        ensures
            r.pending() == Some(payload),
    {
        Once { item: Some(payload) }
    }

    /// Yields the payload the first time, `None` from then on.
    pub fn take_payload(&mut self) -> (r: Option<graphql::Response>)
        ensures
            r == old(self).pending(),
            final(self).pending() is None,
    {
        self.item.take()
    }
}

impl PayloadStream for Once {
    /// The pending payload, once; nothing from then on.
    open spec fn pulled(&self, r: Option<graphql::Response>, after: &Self) -> bool {
        r == self.pending() && after.pending() is None
    }

    fn next_payload(&mut self) -> (r: Option<graphql::Response>) {
        self.take_payload()
    }
}

/// A source whose payloads pass through a transform when, and only when,
/// they are pulled.
#[derive(Debug)]
pub struct Mapped<S, F> {
    pub source: S,
    pub transform: F,
}

impl<S: PayloadStream, F: PayloadTransform> PayloadStream for Mapped<S, F> {
    /// One pull of the source; a payload it yields passes through the
    /// transform, and exhaustion leaves the transform untouched.
    open spec fn pulled(&self, r: Option<graphql::Response>, after: &Self) -> bool {
        match r {
            None => self.source.pulled(None, &after.source) && after.transform == self.transform,
            Some(q) => exists|p: graphql::Response|
                #[trigger] self.source.pulled(Some(p), &after.source) && self.transform.applied(p, q, &after.transform),
        }
    }

    fn next_payload(&mut self) -> (r: Option<graphql::Response>) {
        match self.source.next_payload() {
            Some(p) => {
                let ghost pulled = p;
                let q = self.transform.apply(p);
                assert(old(self).source.pulled(Some(pulled), &self.source));
                Some(q)
            },
            None => None,
        }
    }
}

/// The HTTP side of a response; its body is a source of payloads.
#[derive(Debug)]
pub struct HttpResponse<S> {
    pub status: u16,
    /// (name, value) pairs in order; a name may repeat.
    pub headers: Vec<(String, String)>,
    pub body: S,
}

/// The router stage's response: a lazily produced sequence of payloads with
/// its status, headers and the request's context.
#[derive(Debug)]
pub struct Response<S> {
    pub response: HttpResponse<S>,
    pub context: Context,
}

/// The status a response gets where none is given.
pub open spec fn status_or_ok(status_code: Option<u16>) -> u16 {
    match status_code {
        Some(c) => c,
        None => 200,
    }
}

pub open spec fn status_ok(status_code: Option<u16>) -> bool {
    100 <= status_or_ok(status_code) < 1000
}

/// `r` is what building a one-payload response from the header pairs `h` and
/// the status code gives: it fails if and only if the status is outside 100 to
/// 999 (validated first) or a header is refused, and otherwise holds the
/// status (200 where none is given), the headers as `http` stores them, and
/// `payload` as its one pending payload.
pub open spec fn response_built(
    r: Result<Response<Once>, ConstructionError>,
    h: Seq<(Seq<char>, Seq<char>)>,
    status_code: Option<u16>,
    payload: graphql::Response,
) -> bool {
    &&& r is Ok <==> status_ok(status_code) && headers_ok(h)
    &&& r matches Ok(resp) ==> {
        &&& resp.response.status == status_or_ok(status_code)
        &&& header_pairs(resp.response.headers@) == normalized_headers(h)
        &&& resp.response.body.pending() == Some(payload)
    }
    &&& r matches Err(e) ==> if status_ok(status_code) {
        first_header_error(h, e)
    } else {
        e == ConstructionError::InvalidStatusCode { code: status_or_ok(status_code) }
    }
}

impl Response<Once> {
    fn from_pairs(
        data: Option<Value>,
        path: Option<Path>,
        errors: Vec<graphql::Error>,
        extensions: JsonMap,
        status_code: Option<u16>,
        headers: Vec<(String, String)>,
        context: Context,
    ) -> (r: Result<Response<Once>, ConstructionError>)
        ensures
            response_built(r, header_pairs(headers@), status_code, graphql::Response { data, path, errors, extensions }),
            r matches Ok(resp) ==> resp.context == context,
    {
        let status: u16 = match status_code {
            Some(c) => c,
            None => 200,
        };
        if !check_status_code(status) {
            return Err(ConstructionError::InvalidStatusCode { code: status });
        }
        let headers = match header_map(&headers) {
            Ok(h) => h,
            Err(e) => {
                return Err(e);
            },
        };
        let payload = graphql::Response { data, path, errors, extensions };
        Ok(Response { response: HttpResponse { status, headers, body: Once::new(payload) }, context })
    }

    /// Builds a response of one payload. Fails if and only if the status code
    /// is outside 100 to 999 or a header is refused (the status is validated
    /// first); nothing is built then.
    pub fn new(
        data: Option<Value>,
        path: Option<Path>,
        errors: Vec<graphql::Error>,
        extensions: JsonMap,
        status_code: Option<u16>,
        headers: HeaderMultiMap,
        context: Context,
    ) -> (r: Result<Response<Once>, ConstructionError>)
        ensures
            exists|h: Seq<(Seq<char>, Seq<char>)>| #[trigger] multimap_pairs_in(headers, h)
                && response_built(r, h, status_code, graphql::Response { data, path, errors, extensions }),
            r matches Ok(resp) ==> resp.context == context,
    {
        let ghost given = headers;
        let pairs = multimap_pairs(headers);
        assert(multimap_pairs_in(given, header_pairs(pairs@)));
        Response::from_pairs(data, path, errors, extensions, status_code, pairs, context)
    }

    /// Builds a response of one payload for tests; the context defaults to an
    /// empty one.
    pub fn fake_new(
        data: Option<Value>,
        path: Option<Path>,
        errors: Vec<graphql::Error>,
        extensions: JsonMap,
        status_code: Option<u16>,
        headers: HeaderMultiMap,
        context: Option<Context>,
    ) -> (r: Result<Response<Once>, ConstructionError>)
        ensures
            exists|h: Seq<(Seq<char>, Seq<char>)>| #[trigger] multimap_pairs_in(headers, h)
                && response_built(r, h, status_code, graphql::Response { data, path, errors, extensions }),
            r matches Ok(resp) ==> match context {
                Some(c) => resp.context == c,
                None => resp.context.entries() == Map::<Seq<char>, Value>::empty(),
            },
    {
        let ghost given = headers;
        let pairs = multimap_pairs(headers);
        assert(multimap_pairs_in(given, header_pairs(pairs@)));
        let context = match context {
            Some(c) => c,
            None => Context::new(),
        };
        Response::from_pairs(data, path, errors, extensions, status_code, pairs, context)
    }

    /// Builds the response to a request that failed as a whole (an
    /// authentication failure, say): one payload with the errors, no data, no
    /// path and no extensions.
    pub fn error_new(
        errors: Vec<graphql::Error>,
        status_code: Option<u16>,
        headers: HeaderMultiMap,
        context: Context,
    ) -> (r: Result<Response<Once>, ConstructionError>)
        ensures
            exists|h: Seq<(Seq<char>, Seq<char>)>, extensions: JsonMap|
                #![trigger multimap_pairs_in(headers, h), json_keys(extensions)]
                multimap_pairs_in(headers, h) && json_keys(extensions) == Set::<Seq<u8>>::empty()
                && response_built(r, h, status_code, graphql::Response { data: None, path: None, errors, extensions }),
            r matches Ok(resp) ==> resp.context == context,
    {
        let ghost given = headers;
        let pairs = multimap_pairs(headers);
        assert(multimap_pairs_in(given, header_pairs(pairs@)));
        Response::from_pairs(None, None, errors, empty_object(), status_code, pairs, context)
    }

    /// Wraps one payload as a response with status 200 and no headers.
    pub fn new_from_graphql_response(response: graphql::Response, context: Context) -> (r: Response<Once>)
        ensures
            r.response.status == 200,
            r.response.headers@.len() == 0,
            r.response.body.pending() == Some(response),
            r.context == context,
    {
        Response { response: HttpResponse { status: 200, headers: Vec::new(), body: Once::new(response) }, context }
    }
}

impl<S: PayloadStream> Response<S> {
    /// Pulls the next payload; `None` once the body is exhausted. Status,
    /// headers and context stay as they are.
    pub fn next_response(&mut self) -> (r: Option<graphql::Response>)
        ensures
            old(self).response.body.pulled(r, &final(self).response.body),
            final(self).response.status == old(self).response.status,
            final(self).response.headers == old(self).response.headers,
            final(self).context == old(self).context,
    {
        self.response.body.next_payload()
    }

    /// Wraps an HTTP response whose body is already a source of payloads.
    pub fn new_from_response(response: HttpResponse<S>, context: Context) -> (r: Response<S>)
        ensures
            r.response == response,
            r.context == context,
    {
        Response { response, context }
    }

    /// Replaces the body by what `f` makes of it.
    pub fn map<T, F: FnOnce(S) -> T>(self, f: F) -> (r: Response<T>)
        requires
            f.requires((self.response.body,)),
        ensures
            f.ensures((self.response.body,), r.response.body),
            r.response.status == self.response.status,
            r.response.headers == self.response.headers,
            r.context == self.context,
    {
        let Response { response: HttpResponse { status, headers, body }, context } = self;
        Response { response: HttpResponse { status, headers, body: f(body) }, context }
    }

    /// Applies `transform` to each payload as it is pulled. Nothing is pulled
    /// and nothing is transformed here: the new body holds the untouched
    /// source and the transform, which runs only when a payload is requested.
    pub fn map_stream<F: PayloadTransform>(self, transform: F) -> (r: Response<Mapped<S, F>>)
        ensures
            r.response.body == (Mapped { source: self.response.body, transform }),
            r.response.status == self.response.status,
            r.response.headers == self.response.headers,
            r.context == self.context,
    {
        let Response { response: HttpResponse { status, headers, body }, context } = self;
        Response { response: HttpResponse { status, headers, body: Mapped { source: body, transform } }, context }
    }
}

} // verus!
