//! The request-pipeline backbone of a federated GraphQL router: a memoizing
//! query-planner decorator, a registry of subgraph fetchers, and the streaming
//! request/response envelope handed between pipeline stages.
pub mod caching;
pub mod plan;
pub mod http_ext;
pub mod registry;
pub mod context;
pub mod graphql;
pub mod supergraph;
