//! The reentrant span processor: bridges per-span completion callbacks to
//! the exporter while guaranteeing that at most one export per processor is
//! ever in flight.  A completion that arrives while an export is in flight
//! is deliberately dropped, never queued and never allowed to recurse into
//! the sink; the guard is released on every path out of an export.
//!
//! The embedding layer serializes cross-thread access to the processor;
//! the guard here is the per-instance idle/exporting flag that detects
//! reentry, checked before anything else is done.

use vstd::prelude::*;
use crate::errors::ExportError;
use crate::exporter::EtwTraceExporter;
use crate::span::{ResourceAttributes, SpanRecord};

verus! {

/// The two states of the reentrancy guard.
#[derive(Clone, Copy, Debug, PartialEq, Eq, Structural)]
pub enum GuardState {
    Idle,
    Exporting,
}

/// The abstract processor state the contracts speak of: the guard, the
/// count of underlying export invocations, and the count of dropped spans.
pub ghost struct ProcessorModel {
    pub guard: GuardState,
    pub exports: u64,
    pub dropped: u64,
}

/// Counter increment that sticks at the maximum instead of wrapping.
pub open spec fn sat_inc(n: u64) -> u64 {
    if n < u64::MAX {
        (n + 1) as u64
    } else {
        n
    }
}

/// One completion delivered to the processor: a processor whose guard is
/// free performs exactly one export; one already exporting drops the span.
pub open spec fn step_on_end(s: ProcessorModel) -> ProcessorModel {
    if s.guard is Exporting {
        ProcessorModel { dropped: sat_inc(s.dropped), ..s }
    } else {
        ProcessorModel { exports: sat_inc(s.exports), ..s }
    }
}

/// `n` completions delivered one after another.
pub open spec fn steps_on_end(s: ProcessorModel, n: nat) -> ProcessorModel
    decreases n,
{
    if n == 0 {
        s
    } else {
        steps_on_end(step_on_end(s), (n - 1) as nat)
    }
}

/// A completion that finds an export in flight is dropped: the drop count
/// grows, no export happens, and the guard is left for the in-flight
/// export to release.
pub proof fn lemma_reentrant_drop(s: ProcessorModel)
    requires
        s.guard is Exporting,
    ensures
        step_on_end(s).guard == s.guard,
        step_on_end(s).dropped == sat_inc(s.dropped),
        step_on_end(s).exports == s.exports,
{
}

/// A completion that finds the processor idle leaves it idle again and
/// performs exactly one export.
pub proof fn lemma_on_end_from_idle(s: ProcessorModel)
    requires
        s.guard is Idle,
    ensures
        step_on_end(s).guard is Idle,
        step_on_end(s).exports == sat_inc(s.exports),
        step_on_end(s).dropped == s.dropped,
{
}

/// Every completion causes at most one underlying export.
pub proof fn lemma_export_per_call(s: ProcessorModel)
    ensures
        s.exports <= step_on_end(s).exports <= sat_inc(s.exports),
{
}

/// `n` completions cause between zero and `n` exports, and at least one
/// when the processor starts idle: each delivery either wins the guard or
/// is dropped.
pub proof fn lemma_export_bound(s: ProcessorModel, n: nat)
    requires
        s.exports + n <= u64::MAX,
    ensures
        s.exports <= steps_on_end(s, n).exports <= s.exports + n,
        n >= 1 && s.guard is Idle ==> steps_on_end(s, n).exports >= s.exports + 1,
    decreases n,
{
    if n > 0 {
        lemma_export_bound(step_on_end(s), (n - 1) as nat);
    }
}

fn sat_inc_counter(n: u64) -> (r: u64)
    ensures
        r == sat_inc(n),
{
    if n < u64::MAX {
        n + 1
    } else {
        n
    }
}

/// The processor: the reentrancy guard, the exporter it protects, and its
/// diagnostic counters.  Export failures are recorded here and swallowed:
/// they never propagate to the instrumented application.
pub struct ReentrantSpanProcessor {
    guard: GuardState,
    exporter: EtwTraceExporter,
    exports: u64,
    dropped: u64,
    failures: u64,
}

impl ReentrantSpanProcessor {
    pub closed spec fn model(&self) -> ProcessorModel {
        ProcessorModel { guard: self.guard, exports: self.exports, dropped: self.dropped }
    }

    pub closed spec fn spec_exporter(&self) -> EtwTraceExporter {
        self.exporter
    }

    /// How many export invocations have failed; diagnostics only.
    pub closed spec fn spec_failures(&self) -> u64 {
        self.failures
    }

    pub open spec fn is_exporting(&self) -> bool {
        self.model().guard is Exporting
    }

    /// Wraps an exporter; the processor starts idle with clear counters.
    pub fn new(exporter: EtwTraceExporter) -> (r: ReentrantSpanProcessor)
        ensures
            r.model() == (ProcessorModel { guard: GuardState::Idle, exports: 0, dropped: 0 }),
            r.spec_failures() == 0,
            r.spec_exporter() == exporter,
    {
        ReentrantSpanProcessor { guard: GuardState::Idle, exporter, exports: 0, dropped: 0, failures: 0 }
    }

    /// The atomic idle-to-exporting transition: succeeds exactly when the
    /// processor was idle.  The embedding layer performs this step through
    /// its lock-free flag; it is exposed so the reentrant interleaving can
    /// be driven explicitly.
    pub fn try_begin_export(&mut self) -> (r: bool)
        ensures
            r == (old(self).model().guard is Idle),
            r ==> final(self).model() == (ProcessorModel {
                guard: GuardState::Exporting,
                ..old(self).model()
            }),
            !r ==> *final(self) == *old(self),
            final(self).spec_exporter() == old(self).spec_exporter(),
            final(self).spec_failures() == old(self).spec_failures(),
    {
        match self.guard {
            GuardState::Idle => {
                self.guard = GuardState::Exporting;
                true
            },
            GuardState::Exporting => false,
        }
    }

    /// The unconditional release back to idle that every export path ends
    /// with; not skippable by an error path.
    pub fn end_export(&mut self)
        ensures
            final(self).model() == (ProcessorModel { guard: GuardState::Idle, ..old(self).model() }),
            final(self).spec_exporter() == old(self).spec_exporter(),
            final(self).spec_failures() == old(self).spec_failures(),
    {
        self.guard = GuardState::Idle;
    }

    /// A span completed.  If the processor is idle the span is exported —
    /// under the guard, which is released again whatever the export
    /// returned.  If an export is already in flight the span is dropped and
    /// only counted; the call returns at once, so the export path can never
    /// deadlock or recurse, and a failure never reaches the caller.
    pub fn on_end(&mut self, span: SpanRecord)
        ensures
            final(self).model() == step_on_end(old(self).model()),
            final(self).spec_exporter() == old(self).spec_exporter(),
            old(self).model().guard is Exporting
                ==> final(self).spec_failures() == old(self).spec_failures(),
            final(self).spec_failures() == old(self).spec_failures()
                || final(self).spec_failures() == sat_inc(old(self).spec_failures()),
    {
        match self.guard {
            GuardState::Exporting => {
                self.dropped = sat_inc_counter(self.dropped);
            },
            GuardState::Idle => {
                self.guard = GuardState::Exporting;
                let result = self.exporter.export(vec![span]);
                self.exports = sat_inc_counter(self.exports);
                if result.is_err() {
                    self.failures = sat_inc_counter(self.failures);
                }
                self.guard = GuardState::Idle;
            },
        }
    }

    /// The embedding layer dropped a completion before it reached this
    /// processor: the serializing lock could not be acquired, or its
    /// lock-free flag found an export already in flight.  The span is
    /// counted as dropped, exactly as if the provider were disabled;
    /// nothing else changes.
    pub fn on_lock_contention(&mut self)
        ensures
            final(self).model() == (ProcessorModel {
                dropped: sat_inc(old(self).model().dropped),
                ..old(self).model()
            }),
            final(self).spec_exporter() == old(self).spec_exporter(),
            final(self).spec_failures() == old(self).spec_failures(),
    {
        self.dropped = sat_inc_counter(self.dropped);
    }

    /// Forwards the flush unless an export is in flight, in which case it
    /// short-circuits to success rather than blocking on the sink.  Either
    /// way a flush succeeds and changes nothing.
    pub fn force_flush(&self) -> (r: Result<(), ExportError>)
        ensures
            r == Result::<(), ExportError>::Ok(()),
    {
        match self.guard {
            GuardState::Exporting => Ok(()),
            GuardState::Idle => self.exporter.force_flush(),
        }
    }

    /// Forwards the shutdown unless an export is in flight, in which case
    /// it short-circuits to success to avoid blocking on the sink's own
    /// serialization.
    pub fn shutdown(&mut self) -> (r: Result<(), ExportError>)
        ensures
            final(self).model() == old(self).model(),
            final(self).spec_failures() == old(self).spec_failures(),
            old(self).is_exporting() ==> r == Result::<(), ExportError>::Ok(()) && *final(self)
                == *old(self),
            !old(self).is_exporting() && !old(self).spec_exporter().is_open()
                ==> r == Result::<(), ExportError>::Err(ExportError::Closed)
                    && *final(self) == *old(self),
            !old(self).is_exporting() && old(self).spec_exporter().is_open()
                ==> !final(self).spec_exporter().is_open() && (r is Ok || (exists|status: u32|
                    r == Result::<(), ExportError>::Err(ExportError::Registration { status }))),
    {
        match self.guard {
            GuardState::Exporting => Ok(()),
            GuardState::Idle => self.exporter.shutdown(),
        }
    }

    /// Replaces the resource snapshot the exporter encodes against.
    pub fn set_resource(&mut self, resource: ResourceAttributes)
        ensures
            final(self).model() == old(self).model(),
            final(self).spec_failures() == old(self).spec_failures(),
            final(self).spec_exporter().spec_resource() == resource,
            final(self).spec_exporter().is_open() == old(self).spec_exporter().is_open(),
    {
        self.exporter.set_resource(resource);
    }

    /// How many underlying export invocations have run.
    pub fn export_count(&self) -> (r: u64)
        ensures
            r == self.model().exports,
    {
        self.exports
    }

    /// How many spans were dropped on reentry or lock contention.
    pub fn dropped_count(&self) -> (r: u64)
        ensures
            r == self.model().dropped,
    {
        self.dropped
    }

    /// How many export invocations failed; failures are only counted,
    /// never propagated.
    pub fn failure_count(&self) -> (r: u64)
        ensures
            r == self.spec_failures(),
    {
        self.failures
    }

    /// Whether the processor is idle.
    pub fn is_idle(&self) -> (r: bool)
        ensures
            r == (self.model().guard is Idle),
    {
        match self.guard {
            GuardState::Idle => true,
            GuardState::Exporting => false,
        }
    }
}

} // verus!
