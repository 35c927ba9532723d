//! Schema metadata of a relational database: the entities read from its
//! catalog, a local cache of the last extraction per connection, and the
//! policy that chooses between a live extraction and the cached copy.

pub mod cache;
pub mod config;
pub mod coordinator;
pub mod schema;
