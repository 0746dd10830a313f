use router_core::context::Context;
use serde_json_bytes::Value;

#[test]
fn new_context_is_empty() {
    let c = Context::new();
    assert!(c.get(&"anything".to_string()).is_none());
    let d = Context::default();
    assert!(d.get(&"anything".to_string()).is_none());
}

#[test]
fn inserted_values_are_read_back_and_overwritten() {
    let mut c = Context::new();
    c.insert("a".to_string(), Value::from(1u64));
    c.insert("b".to_string(), Value::from("two"));
    c.insert("a".to_string(), Value::from(3u64));
    assert_eq!(c.get(&"a".to_string()), Some(&Value::from(3u64)));
    assert_eq!(c.get(&"b".to_string()), Some(&Value::from("two")));
    assert!(c.get(&"c".to_string()).is_none());
}
