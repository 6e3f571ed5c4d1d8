//! Single-node front end of a versioned metadata store.
//!
//! The store applies writes under a strictly increasing version counter and
//! records one change-log row per write; clients long-poll for the rows that
//! matter to them instead of re-reading the whole state. The modules here
//! hold the verified core of that protocol: the versioned store and its
//! change log, the "is a response due" view over it, the watch session's
//! decision steps, and the codec for watch requests and responses.

pub mod bus;
pub mod changelog;
pub mod codec;
pub mod router;
pub mod store;
pub mod watch;
