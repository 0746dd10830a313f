use std::cell::Cell;
use std::rc::Rc;

use http::Uri;
use router_core::context::Context;
use router_core::graphql;
use router_core::graphql::{empty_object, JsonMap};
use router_core::http_ext::{header_map, multimap_pairs, ConstructionError, Method};
use router_core::supergraph::{HttpResponse, Once, PayloadStream, PayloadTransform, Request, Response};
use multimap::MultiMap;
use serde_json_bytes::Value;

fn empty_json() -> Value {
    Value::Object(JsonMap::new())
}

fn object_with(key: &str) -> JsonMap {
    let mut m = JsonMap::new();
    m.insert(key, empty_json());
    m
}

fn pairs(h: &[(&str, &str)]) -> Vec<(String, String)> {
    h.iter().map(|(n, v)| (n.to_string(), v.to_string())).collect()
}

fn multi(h: &[(&str, &str)]) -> MultiMap<String, String> {
    let mut m = MultiMap::new();
    for (n, v) in h {
        m.insert(n.to_string(), v.to_string());
    }
    m
}

fn values_of(headers: &[(String, String)], name: &str) -> Vec<String> {
    headers.iter().filter(|(n, _)| n == name).map(|(_, v)| v.clone()).collect()
}

fn payload(n: usize) -> graphql::Response {
    let mut extensions = JsonMap::new();
    extensions.insert("n", Value::from(n as u64));
    graphql::Response { data: None, path: None, errors: Vec::new(), extensions }
}

#[test]
fn supergraph_request_builder() {
    let request = Request::new(
        Some("query { topProducts }".to_string()),
        Some("Default".to_string()),
        object_with("bar"),
        object_with("foo"),
        Context::new(),
        multi(&[("a", "b"), ("a", "c")]),
        Uri::from_static("http://example.com"),
        Method::Post,
    )
    .ok()
    .unwrap();
    assert_eq!(
        values_of(&request.originating_request.headers, "a"),
        vec!["b".to_string(), "c".to_string()]
    );
    assert_eq!(request.originating_request.uri, Uri::from_static("http://example.com"));
    assert_eq!(request.originating_request.body.extensions.get("foo"), Some(&empty_json()));
    assert_eq!(request.originating_request.body.variables.get("bar"), Some(&empty_json()));
    assert_eq!(request.originating_request.method, Method::Post);

    let extensions = object_with("foo");
    let variables = object_with("bar");
    assert_eq!(
        request.originating_request.body,
        graphql::Request {
            variables,
            extensions,
            operation_name: Some("Default".to_string()),
            query: Some("query { topProducts }".to_string()),
        }
    );
}

#[test]
fn supergraph_response_builder() {
    let mut response = Response::new(
        Some(empty_json()),
        None,
        Vec::new(),
        object_with("foo"),
        None,
        multi(&[("a", "b"), ("a", "c")]),
        Context::new(),
    )
    .ok()
    .unwrap();

    assert_eq!(values_of(&response.response.headers, "a"), vec!["b".to_string(), "c".to_string()]);
    let extensions = object_with("foo");
    assert_eq!(
        response.next_response().unwrap(),
        graphql::Response { extensions, data: Some(empty_json()), path: None, errors: Vec::new() }
    );
}

#[test]
fn single_payload_response_defaults_to_ok_and_then_ends() {
    let mut response = Response::new(Some(empty_json()), None, Vec::new(), JsonMap::new(), None, MultiMap::new(), Context::new())
        .ok()
        .unwrap();
    assert_eq!(response.response.status, 200);
    let first = response.next_response().unwrap();
    assert_eq!(first.data, Some(empty_json()));
    assert!(first.errors.is_empty());
    assert!(response.next_response().is_none());
    assert!(response.next_response().is_none());
}

#[test]
fn header_names_are_lower_cased() {
    let h = header_map(&pairs(&[("X-Trace", "1"), ("x-trace", "2")])).ok().unwrap();
    assert_eq!(h, pairs(&[("x-trace", "1"), ("x-trace", "2")]));
}

#[test]
fn invalid_header_name_is_refused() {
    let r = Request::new(None, None, JsonMap::new(), JsonMap::new(), Context::new(), multi(&[("ok", "1"), ("bad name", "v")]), Uri::from_static("/"), Method::Get);
    assert_eq!(r.err(), Some(ConstructionError::InvalidHeaderName { name: "bad name".to_string() }));
}

#[test]
fn empty_header_name_is_refused() {
    let r = header_map(&pairs(&[("", "v")]));
    assert_eq!(r, Err(ConstructionError::InvalidHeaderName { name: "".to_string() }));
}

#[test]
fn invalid_header_value_is_refused() {
    let r = Response::new(None, None, Vec::new(), JsonMap::new(), None, multi(&[("a", "line\nbreak")]), Context::new());
    assert_eq!(r.err(), Some(ConstructionError::InvalidHeaderValue { value: "line\nbreak".to_string() }));
}

#[test]
fn tab_and_non_ascii_header_values_are_accepted() {
    let h = header_map(&pairs(&[("a", "x\ty"), ("b", "caf\u{e9}")])).ok().unwrap();
    assert_eq!(h[1].1, "caf\u{e9}");
}

#[test]
fn status_code_bounds() {
    let ok = Response::new(None, None, Vec::new(), JsonMap::new(), Some(999), MultiMap::new(), Context::new());
    assert_eq!(ok.ok().unwrap().response.status, 999);
    let low = Response::new(None, None, Vec::new(), JsonMap::new(), Some(99), multi(&[("bad name", "v")]), Context::new());
    assert_eq!(low.err(), Some(ConstructionError::InvalidStatusCode { code: 99 }));
    let high = Response::new(None, None, Vec::new(), JsonMap::new(), Some(1000), MultiMap::new(), Context::new());
    assert_eq!(high.err(), Some(ConstructionError::InvalidStatusCode { code: 1000 }));
}

#[test]
fn error_response_has_no_data_and_no_path() {
    let error = || graphql::Error { message: "unauthenticated".to_string(), path: None, extensions: JsonMap::new() };
    let errors = vec![error()];
    let mut response = Response::error_new(vec![error()], Some(401), multi(&[("www-authenticate", "Bearer")]), Context::new())
        .ok()
        .unwrap();
    assert_eq!(response.response.status, 401);
    assert_eq!(values_of(&response.response.headers, "www-authenticate"), vec!["Bearer".to_string()]);
    let p = response.next_response().unwrap();
    assert_eq!(p.data, None);
    assert_eq!(p.path, None);
    assert_eq!(p.errors, errors);
    assert!(p.extensions.is_empty());
}

#[test]
fn empty_object_holds_no_key() {
    assert!(empty_object().is_empty());
    assert_eq!(empty_object(), JsonMap::new());
}

#[test]
fn fake_request_fills_defaults() {
    let request = Request::fake_new(Some("{ a }".to_string()), None, JsonMap::new(), JsonMap::new(), None, multi(&[("a", "b")]), None)
        .ok()
        .unwrap();
    assert_eq!(request.originating_request.method, Method::Get);
    assert_eq!(request.originating_request.uri, Uri::from_static("http://default"));
    assert_eq!(
        request.originating_request.headers,
        pairs(&[("a", "b"), ("content-type", "application/json")])
    );
}

#[test]
fn fake_request_keeps_a_given_content_type() {
    let request = Request::fake_new(None, None, JsonMap::new(), JsonMap::new(), Some(Context::new()), multi(&[("content-type", "text/plain")]), Some(Method::Post))
        .ok()
        .unwrap();
    assert_eq!(request.originating_request.method, Method::Post);
    assert_eq!(request.originating_request.headers, pairs(&[("content-type", "text/plain")]));
}

#[test]
fn fake_response_defaults_context() {
    let response = Response::fake_new(None, None, Vec::new(), JsonMap::new(), None, MultiMap::new(), None).ok().unwrap();
    assert_eq!(response.response.status, 200);
}

#[test]
fn request_from_http_request() {
    let request = Request::new(None, None, JsonMap::new(), JsonMap::new(), Context::new(), MultiMap::new(), Uri::from_static("/graphql"), Method::Get)
        .ok()
        .unwrap();
    let wrapped = Request::from_originating_request(request.originating_request);
    assert_eq!(wrapped.originating_request.uri, Uri::from_static("/graphql"));
}

struct Source {
    next: usize,
    end: usize,
    pulled: Rc<Cell<usize>>,
}

impl PayloadStream for Source {
    fn next_payload(&mut self) -> Option<graphql::Response> {
        if self.next == self.end {
            return None;
        }
        self.pulled.set(self.pulled.get() + 1);
        self.next += 1;
        Some(payload(self.next - 1))
    }
}

struct Tag {
    applied: Rc<Cell<usize>>,
}

impl PayloadTransform for Tag {
    fn apply(&mut self, mut payload: graphql::Response) -> graphql::Response {
        self.applied.set(self.applied.get() + 1);
        payload.data = Some(Value::from("tagged"));
        payload
    }
}

#[test]
fn map_stream_is_lazy_and_keeps_order() {
    let pulled = Rc::new(Cell::new(0));
    let applied = Rc::new(Cell::new(0));
    let body = Source { next: 0, end: 3, pulled: pulled.clone() };
    let response = Response::new_from_response(HttpResponse { status: 200, headers: Vec::new(), body }, Context::new());
    let mut mapped = response.map_stream(Tag { applied: applied.clone() });
    assert_eq!(pulled.get(), 0);
    assert_eq!(applied.get(), 0);

    let first = mapped.next_response().unwrap();
    assert_eq!(first.extensions.get("n"), Some(&Value::from(0u64)));
    assert_eq!(first.data, Some(Value::from("tagged")));
    assert_eq!(pulled.get(), 1);
    assert_eq!(applied.get(), 1);

    assert_eq!(mapped.next_response().unwrap().extensions.get("n"), Some(&Value::from(1u64)));
    assert_eq!(mapped.next_response().unwrap().extensions.get("n"), Some(&Value::from(2u64)));
    assert!(mapped.next_response().is_none());
    assert_eq!(applied.get(), 3);
}

#[test]
fn map_replaces_the_body() {
    let response = Response::new_from_graphql_response(payload(7), Context::new());
    let mut mapped = response.map(|_old: Once| Once::new(payload(8)));
    assert_eq!(mapped.response.status, 200);
    assert!(mapped.response.headers.is_empty());
    assert_eq!(mapped.next_response().unwrap().extensions.get("n"), Some(&Value::from(8u64)));
    assert!(mapped.next_response().is_none());
}

#[test]
fn multimap_pairs_keep_each_names_order() {
    let p = multimap_pairs(multi(&[("a", "1"), ("b", "x"), ("a", "2"), ("a", "3")]));
    assert_eq!(p.len(), 4);
    assert_eq!(values_of(&p, "a"), vec!["1".to_string(), "2".to_string(), "3".to_string()]);
    assert_eq!(values_of(&p, "b"), vec!["x".to_string()]);
}

#[test]
fn response_headers_keep_each_names_order() {
    let response = Response::new(None, None, Vec::new(), JsonMap::new(), None, multi(&[("a", "1"), ("B", "x"), ("a", "2")]), Context::new())
        .ok()
        .unwrap();
    assert_eq!(values_of(&response.response.headers, "a"), vec!["1".to_string(), "2".to_string()]);
    assert_eq!(values_of(&response.response.headers, "b"), vec!["x".to_string()]);
}
