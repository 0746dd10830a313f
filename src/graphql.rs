use vstd::prelude::*;

use serde_json_bytes::{ByteString, Value};

verus! {

#[verifier::external_type_specification]
#[verifier::external_body]
pub struct ExValue(serde_json_bytes::Value);

#[verifier::external_type_specification]
#[verifier::external_body]
pub struct ExByteString(serde_json_bytes::ByteString);

#[verifier::external_type_specification]
#[verifier::external_body]
#[verifier::reject_recursive_types(K)]
#[verifier::reject_recursive_types(V)]
pub struct ExJsonMap<K, V>(serde_json_bytes::Map<K, V>);

/// A JSON object: string keys to JSON values.
pub type JsonMap = serde_json_bytes::Map<ByteString, Value>;

/// The keys that a JSON object holds, as bytes.
pub uninterp spec fn json_keys(m: JsonMap) -> Set<Seq<u8>>;

/// Relies on `serde_json_bytes::Map::new`: the new object holds no key.
#[verifier::external_body]
pub fn empty_object() -> (r: JsonMap)
    ensures
        json_keys(r) == Set::<Seq<u8>>::empty(),
{
    serde_json_bytes::Map::new()
}

/// One step of a path into a response.
#[derive(Clone, Debug, PartialEq, Eq)]
pub enum PathElement {
    Key(String),
    Index(usize),
    Flatten,
}

/// A path into the data of a response, for partial and incremental results.
#[derive(Clone, Debug, PartialEq, Eq)]
pub struct Path {
    pub elements: Vec<PathElement>,
}

/// A structured GraphQL error.
#[derive(Debug, PartialEq)]
pub struct Error {
    pub message: String,
    pub path: Option<Path>,
    pub extensions: JsonMap,
}

/// A GraphQL operation as sent by a client.
#[derive(Debug, PartialEq)]
pub struct Request {
    pub query: Option<String>,
    pub operation_name: Option<String>,
    pub variables: JsonMap,
    pub extensions: JsonMap,
}

/// One GraphQL response payload.
#[derive(Debug, PartialEq)]
pub struct Response {
    pub data: Option<Value>,
    pub path: Option<Path>,
    pub errors: Vec<Error>,
    pub extensions: JsonMap,
}

} // verus!
