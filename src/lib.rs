//! Content resolution for the club's public API: typed entities decoded from
//! store rows, the built-in sample catalog, the per-resource fallback policy,
//! and the cache-aside decisions for aggregate statistics.

pub mod model;
pub mod entity;
pub mod codec;
pub mod rows;
pub mod catalog;
pub mod service;
pub mod resolve;
pub mod mock;
pub mod laws;
