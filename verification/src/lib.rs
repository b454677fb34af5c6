//! Exports completed trace spans to the Windows event-tracing subsystem (ETW).
//!
//! The library encodes a finished span, together with the cached resource
//! attributes of the process, into the fixed three-part event schema
//! (Part A: identity, Part B: operation, Part C: free-form attributes),
//! and hands the flattened event to a named native provider.  A reentrancy
//! guard makes sure that an export which itself produces spans can never
//! deadlock or recurse: such spans are deliberately dropped.

pub mod converters;
pub mod errors;
pub mod event;
pub mod exporter;
pub mod hex;
pub mod kv;
pub mod processor;
pub mod registry;
pub mod span;
pub mod text;
pub mod time;
