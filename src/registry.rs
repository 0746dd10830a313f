use vstd::prelude::*;

use crate::http_ext::{is_uri, parse_uri, uri_of};

verus! {

/// How to reach one subgraph.
#[derive(Debug)]
pub struct SubgraphConfig {
    pub routing_url: String,
}

/// The subgraphs of a supergraph, by name. Where a name occurs twice the later
/// entry counts.
#[derive(Debug)]
pub struct Configuration {
    pub subgraphs: Vec<(String, SubgraphConfig)>,
}

/// Name and routing URL of each entry, in order.
pub open spec fn route_pairs(subgraphs: Seq<(String, SubgraphConfig)>) -> Seq<(Seq<char>, Seq<char>)> {
    subgraphs.map_values(|e: (String, SubgraphConfig)| (e.0@, e.1.routing_url@))
}

/// The routing table described by a list of (name, URL) pairs: the last pair
/// with a name gives its URL.
pub open spec fn routes_of(pairs: Seq<(Seq<char>, Seq<char>)>) -> Map<Seq<char>, Seq<char>>
    decreases pairs.len(),
{
    if pairs.len() == 0 {
        Map::empty()
    } else {
        routes_of(pairs.drop_last()).insert(pairs.last().0, pairs.last().1)
    }
}

impl Configuration {
    /// Subgraph name to routing URL.
    pub open spec fn routes(&self) -> Map<Seq<char>, Seq<char>> {
        routes_of(route_pairs(self.subgraphs@))
    }

    /// Every routing URL parses.
    pub open spec fn urls_valid(&self) -> bool {
        forall|i: int| 0 <= i < self.subgraphs@.len() ==> is_uri(#[trigger] self.subgraphs@[i].1.routing_url@)
    }
}

/// A fetcher that reaches one subgraph over HTTP.
#[derive(Debug)]
pub struct HttpSubgraphFetcher {
    pub service: String,
    pub routing_url: String,
    pub uri: http::Uri,
}

/// Why a registry could not be built.
#[derive(Debug)]
pub enum RegistryError {
    /// The routing URL of this subgraph is not a URI.
    InvalidRoutingUrl { service: String, routing_url: String },
}

/// The registry described by (name, fetcher) entries in order: the last entry
/// with a name gives its fetcher.
pub open spec fn fetchers_of(s: Seq<(Seq<char>, HttpSubgraphFetcher)>) -> Map<Seq<char>, HttpSubgraphFetcher>
    decreases s.len(),
{
    if s.len() == 0 {
        Map::empty()
    } else {
        fetchers_of(s.drop_last()).insert(s.last().0, s.last().1)
    }
}

proof fn lemma_fetchers_prefix(s: Seq<(Seq<char>, HttpSubgraphFetcher)>, name: Seq<char>, i: int)
    requires
        0 <= i <= s.len(),
        forall|j: int| i <= j < s.len() ==> (#[trigger] s[j]).0 != name,
    ensures
        fetchers_of(s).contains_key(name) == fetchers_of(s.subrange(0, i)).contains_key(name),
        fetchers_of(s)[name] == fetchers_of(s.subrange(0, i))[name],
    decreases s.len(),
{
    if s.len() > i {
        lemma_fetchers_prefix(s.drop_last(), name, i);
        assert(s.drop_last().subrange(0, i) =~= s.subrange(0, i));
    } else {
        assert(s.subrange(0, i) =~= s);
    }
}

/// Entries built one for one from route pairs give a registry with the same
/// names, each fetcher serving its name at its route.
proof fn lemma_fetchers_match(a: Seq<(Seq<char>, HttpSubgraphFetcher)>, b: Seq<(Seq<char>, Seq<char>)>)
    requires
        a.len() == b.len(),
        forall|i: int|
            0 <= i < a.len() ==> {
                &&& (#[trigger] a[i]).0 == b[i].0
                &&& a[i].1.service@ == b[i].0
                &&& a[i].1.routing_url@ == b[i].1
                &&& a[i].1.uri == uri_of(b[i].1)
            },
    ensures
        fetchers_of(a).dom() == routes_of(b).dom(),
        forall|n: Seq<char>|
            #[trigger] fetchers_of(a).contains_key(n) ==> {
                &&& fetchers_of(a)[n].service@ == n
                &&& fetchers_of(a)[n].routing_url@ == routes_of(b)[n]
                &&& fetchers_of(a)[n].uri == uri_of(routes_of(b)[n])
            },
    decreases a.len(),
{
    if a.len() > 0 {
        lemma_fetchers_match(a.drop_last(), b.drop_last());
        assert(a.last() == a[a.len() - 1]);
    }
    assert(fetchers_of(a).dom() =~= routes_of(b).dom());
}

/// Service registry that uses HTTP to reach subgraphs. Immutable once built.
#[derive(Debug)]
pub struct HttpServiceRegistry {
    services: Vec<(String, HttpSubgraphFetcher)>,
}

impl HttpServiceRegistry {
    spec fn entries(&self) -> Seq<(Seq<char>, HttpSubgraphFetcher)> {
        self.services@.map_values(|e: (String, HttpSubgraphFetcher)| (e.0@, e.1))
    }

    /// Subgraph name to the fetcher registered for it.
    pub closed spec fn fetchers(&self) -> Map<Seq<char>, HttpSubgraphFetcher> {
        fetchers_of(self.entries())
    }

    /// Builds a registry from a configuration. Fails, naming the first
    /// offending subgraph, if and only if a routing URL does not parse.
    pub fn new(configuration: Configuration) -> (r: Result<HttpServiceRegistry, RegistryError>)
        ensures
            r is Ok <==> configuration.urls_valid(),
            r matches Ok(reg) ==> {
                &&& reg.fetchers().dom() == configuration.routes().dom()
                &&& forall|n: Seq<char>|
                    #[trigger] reg.fetchers().contains_key(n) ==> {
                        &&& reg.fetchers()[n].service@ == n
                        &&& reg.fetchers()[n].routing_url@ == configuration.routes()[n]
                        &&& reg.fetchers()[n].uri == uri_of(configuration.routes()[n])
                    }
            },
            r matches Err(RegistryError::InvalidRoutingUrl { service, routing_url }) ==> exists|i: int|
                0 <= i < configuration.subgraphs@.len()
                && !is_uri(#[trigger] configuration.subgraphs@[i].1.routing_url@)
                && (forall|j: int| 0 <= j < i ==> is_uri(#[trigger] configuration.subgraphs@[j].1.routing_url@))
                && service@ == configuration.subgraphs@[i].0@
                && routing_url@ == configuration.subgraphs@[i].1.routing_url@,
    {
        let subgraphs = &configuration.subgraphs;
        let mut services: Vec<(String, HttpSubgraphFetcher)> = Vec::new();
        let mut i: usize = 0;
        while i < subgraphs.len()
            invariant
                i <= subgraphs@.len(),
                subgraphs == &configuration.subgraphs,
                services@.len() == i,
                forall|j: int| 0 <= j < i ==> is_uri(#[trigger] subgraphs@[j].1.routing_url@),
                forall|j: int| 0 <= j < i ==> {
                    &&& (#[trigger] services@[j]).0@ == subgraphs@[j].0@
                    &&& services@[j].1.service@ == subgraphs@[j].0@
                    &&& services@[j].1.routing_url@ == subgraphs@[j].1.routing_url@
                    &&& services@[j].1.uri == uri_of(subgraphs@[j].1.routing_url@)
                },
            decreases subgraphs@.len() - i,
        {
            let name = &subgraphs[i].0;
            let url = &subgraphs[i].1.routing_url;
            match parse_uri(url.as_str()) {
                Ok(uri) => {
                    let fetcher = HttpSubgraphFetcher { service: name.clone(), routing_url: url.clone(), uri };
                    services.push((name.clone(), fetcher));
                },
                Err(_) => {
                    return Err(RegistryError::InvalidRoutingUrl { service: name.clone(), routing_url: url.clone() });
                },
            }
            i = i + 1;
        }
        let reg = HttpServiceRegistry { services };
        proof {
            let a = reg.entries();
            let b = route_pairs(configuration.subgraphs@);
            assert forall|j: int| 0 <= j < a.len() implies {
                &&& (#[trigger] a[j]).0 == b[j].0
                &&& a[j].1.service@ == b[j].0
                &&& a[j].1.routing_url@ == b[j].1
                &&& a[j].1.uri == uri_of(b[j].1)
            } by {
                assert(a[j] == (reg.services@[j].0@, reg.services@[j].1));
                assert(b[j] == (subgraphs@[j].0@, subgraphs@[j].1.routing_url@));
            }
            lemma_fetchers_match(a, b);
        }
        Ok(reg)
    }

    /// Looks a subgraph up by name: the fetcher last registered under it, or
    /// `None` for an unknown name.
    pub fn get(&self, service: String) -> (r: Option<&HttpSubgraphFetcher>)
        ensures
            r is Some <==> self.fetchers().contains_key(service@),
            r matches Some(f) ==> *f == self.fetchers()[service@],
    {
        let mut i: usize = self.services.len();
        while i > 0
            invariant
                i <= self.services@.len(),
                forall|j: int| i <= j < self.services@.len() ==> (#[trigger] self.entries()[j]).0 != service@,
            decreases i,
        {
            i = i - 1;
            if self.services[i].0.eq(&service) {
                proof {
                    lemma_fetchers_prefix(self.entries(), service@, i + 1);
                    assert(self.entries().subrange(0, i + 1).drop_last() =~= self.entries().subrange(0, i as int));
                    assert(self.entries()[i as int] == (self.services@[i as int].0@, self.services@[i as int].1));
                    assert(self.entries().subrange(0, i + 1).last() == self.entries()[i as int]);
                }
                return Some(&self.services[i].1);
            }
        }
        proof {
            lemma_fetchers_prefix(self.entries(), service@, 0);
        }
        None
    }
}

} // verus!
