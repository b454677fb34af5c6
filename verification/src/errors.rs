//! The error taxonomy of the export pipeline.

use vstd::prelude::*;

verus! {

/// An error surfaced by the export pipeline.
///
/// Telemetry loss under these conditions is expected and acceptable: the
/// instrumented application must never depend on a successful export.
#[derive(Clone, Copy, Debug, PartialEq, Eq, Structural)]
pub enum ExportError {
    /// The native subsystem rejected a registration or a release request;
    /// carries the raw native status code.
    Registration { status: u32 },
    /// The native write was rejected; carries the raw native status code.
    Write { status: u32 },
    /// The operation was attempted after shutdown.
    Closed,
    /// The lock that serializes access to the sink could not be acquired;
    /// non-fatal, treated as skip-and-continue.
    LockContention,
}

} // verus!
