use router_core::registry::{Configuration, HttpServiceRegistry, RegistryError, SubgraphConfig};

fn config(entries: &[(&str, &str)]) -> Configuration {
    Configuration {
        subgraphs: entries
            .iter()
            .map(|(n, u)| (n.to_string(), SubgraphConfig { routing_url: u.to_string() }))
            .collect(),
    }
}

fn supergraph_config() -> Configuration {
    config(&[
        ("accounts", "http://localhost:4001/graphql"),
        ("products", "http://localhost:4003/graphql"),
        ("shipping", "http://localhost:4002/graphql"),
        ("inventory", "http://localhost:4004/graphql"),
    ])
}

#[test]
fn test_from_string() {
    let registry = HttpServiceRegistry::new(supergraph_config()).ok().unwrap();
    assert!(registry.get("products".into()).is_some())
}

#[test]
fn lookup_gives_the_named_fetcher() {
    let registry = HttpServiceRegistry::new(supergraph_config()).ok().unwrap();
    let fetcher = registry.get("shipping".into()).unwrap();
    assert_eq!(fetcher.service, "shipping");
    assert_eq!(fetcher.routing_url, "http://localhost:4002/graphql");
    assert_eq!(fetcher.uri, http::Uri::from_static("http://localhost:4002/graphql"));
}

#[test]
fn unknown_name_is_absent() {
    let registry = HttpServiceRegistry::new(supergraph_config()).ok().unwrap();
    assert!(registry.get("unknown".into()).is_none());
    assert!(registry.get("Products".into()).is_none());
}

#[test]
fn empty_configuration_gives_empty_registry() {
    let registry = HttpServiceRegistry::new(config(&[])).ok().unwrap();
    assert!(registry.get("products".into()).is_none());
}

#[test]
fn later_entry_for_a_name_wins() {
    let registry = HttpServiceRegistry::new(config(&[
        ("products", "http://old/graphql"),
        ("products", "http://new/graphql"),
    ]))
    .ok()
    .unwrap();
    assert_eq!(registry.get("products".into()).unwrap().routing_url, "http://new/graphql");
}

#[test]
fn malformed_routing_url_fails_construction() {
    let result = HttpServiceRegistry::new(config(&[
        ("accounts", "http://localhost:4001/graphql"),
        ("products", "http://bad host/"),
        ("shipping", ""),
    ]));
    match result {
        Err(RegistryError::InvalidRoutingUrl { service, routing_url }) => {
            assert_eq!(service, "products");
            assert_eq!(routing_url, "http://bad host/");
        }
        Ok(_) => panic!("a malformed URL was accepted"),
    }
}

#[test]
fn empty_routing_url_fails_construction() {
    assert!(HttpServiceRegistry::new(config(&[("shipping", "")])).is_err());
}
