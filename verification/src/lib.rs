//! Dynamic borrow tracking for memory regions owned by a host runtime.
//!
//! While native code holds the host's access-scope token, every shared or
//! exclusive view onto a host-owned memory region must be registered in a
//! per-scope ledger, keyed by the region's identity address. The ledger
//! enforces the shared-XOR-exclusive discipline at runtime that a compiler
//! cannot check across handles arbitrated by a foreign runtime.

pub mod borrow;
pub mod context;
pub mod error;
pub mod ledger;
pub mod text;
