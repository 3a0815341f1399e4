//! Catalog synchronization and query engine for a mirrored retail catalog.
//!
//! The library covers the pure core of the mirror: derived-metric
//! calculation, reconciliation of fetched product and availability data,
//! canonical link construction, schema and insert statement generation,
//! and compilation of filter requests into bounded, ordered queries.
//! Network and store I/O live outside the library and hand it plain values.

pub mod arithmetic;
pub mod errors;
pub mod persist;
pub mod product;
pub mod query;
pub mod reconcile;
pub mod schema;
pub mod site;
pub mod text;
