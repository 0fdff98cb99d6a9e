//! A safety-oriented facade over a native HTTP server's module extension
//! interface.
//!
//! Extension modules implement request-processing logic and hierarchical
//! configuration without touching raw server-internal structures. The core
//! is the configuration lifecycle (three-tier create/merge of configuration
//! records, arena-scoped allocation) and the trampoline that bridges the
//! host's native calling convention to handler code; everything else is a
//! curated set of accessors over the host's request object.

pub mod arena;
pub mod conf;
pub mod request;
pub mod status;
