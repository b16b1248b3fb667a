//! A greeting service laid out in layers: a repository capability, a query
//! that delegates to it, a container that wires the two, and an HTTP router.
pub mod di;
pub mod http_api;
pub mod query;
