//! An authenticated document-store client core: a strict bidirectional codec
//! between the store's dynamically typed wire values and in-memory tagged
//! values, a schema-driven record mapper, a credential cache whose refreshes
//! are deduplicated, a transport configuration whose credential injection is
//! a single pure step, and a client layer that classifies failures into a
//! closed taxonomy and retries an authentication rejection exactly once.

pub mod client;
pub mod credential;
pub mod error;
pub mod fields;
pub mod record;
pub mod transport;
pub mod value;
