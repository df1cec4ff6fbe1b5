//! A read-only, in-memory catalog of EVM-compatible chain metadata.
//!
//! Each chain is described by one JSON document named `eip155-<id>.json`.
//! The library decodes such documents into [`Chain`] records, parses and
//! forms the file names, and builds an immutable catalog keyed by chain id.

pub mod catalog;
pub mod chain;
pub mod error;
pub mod filename;
pub mod json;

pub use catalog::{BuildError, Catalog, ChainFile};
pub use chain::{Chain, Ens, Explorer, NativeCurrency};
pub use error::Error;
