//! The export sink: resolves the cached resource attributes, encodes each
//! span, and hands the flattened event to the native provider.  One failing
//! span does not abort a batch; the first error is reported.  Shutdown
//! releases the native registration, and later exports fail closed.

use vstd::prelude::*;
use crate::converters::level_for_status;
use crate::errors::ExportError;
use crate::event::{encode, event_fields};
use crate::registry::ProviderHandle;
use crate::span::{AttrValue, ResourceAttributes, SpanRecord};

verus! {

/// Records a native write status into the batch outcome: the first
/// non-zero status becomes the error that the batch reports, later ones
/// are only counted by the caller's diagnostics.
fn note_write_status(status: u32, first: &mut Option<ExportError>)
    ensures
        status == 0 ==> *final(first) == *old(first),
        status != 0 && (*old(first)) is None ==> *final(first) == Some(
            ExportError::Write { status },
        ),
        status != 0 && (*old(first)) is Some ==> *final(first) == *old(first),
{
    if status != 0 && first.is_none() {
        *first = Some(ExportError::Write { status });
    }
}

/// The exporter: owns the provider handle and the resource snapshot.
pub struct EtwTraceExporter {
    handle: Option<ProviderHandle>,
    resource: ResourceAttributes,
}

impl EtwTraceExporter {
    /// Whether the exporter still holds its native registration.
    pub closed spec fn is_open(&self) -> bool {
        self.handle is Some
    }

    /// The cached resource snapshot that events are encoded against.
    pub closed spec fn spec_resource(&self) -> ResourceAttributes {
        self.resource
    }

    pub closed spec fn spec_test_mode(&self) -> bool {
        self.handle is Some && self.handle->0.spec_test_mode()
    }

    /// Wraps a provider handle into an exporter with an empty resource
    /// snapshot.
    pub fn new(handle: ProviderHandle) -> (r: EtwTraceExporter)
        ensures
            r.is_open(),
            r.spec_test_mode() == handle.spec_test_mode(),
            r.spec_resource().spec_service_name() is None,
            r.spec_resource().spec_service_namespace() is None,
            r.spec_resource().spec_service_instance_id() is None,
            r.spec_resource().spec_service_version() is None,
            r.spec_resource().spec_attributes() == Seq::<(Seq<char>, AttrValue)>::empty(),
            r.spec_resource().wf(),
    {
        EtwTraceExporter { handle: Some(handle), resource: ResourceAttributes::empty() }
    }

    /// Replaces the cached resource snapshot.
    pub fn set_resource(&mut self, resource: ResourceAttributes)
        ensures
            final(self).spec_resource() == resource,
            final(self).is_open() == old(self).is_open(),
            final(self).spec_test_mode() == old(self).spec_test_mode(),
    {
        self.resource = resource;
    }

    /// Exports a batch.  Every span is attempted: a span is skipped
    /// silently when the native filter is off, and a failing write does
    /// not stop the rest of the batch.  The first write error is what the
    /// batch reports; a batch in which nothing had to be written succeeds.
    pub fn export(&self, spans: Vec<SpanRecord>) -> (r: Result<(), ExportError>)
        ensures
            !self.is_open() ==> r == Result::<(), ExportError>::Err(ExportError::Closed),
            self.is_open() ==> (r is Ok || (exists|status: u32|
                r == Result::<(), ExportError>::Err(ExportError::Write { status }))),
            self.is_open() && spans@.len() == 0 ==> r == Result::<(), ExportError>::Ok(()),
    {
        let handle = match &self.handle {
            Some(h) => h,
            None => {
                return Err(ExportError::Closed);
            },
        };
        let mut first: Option<ExportError> = None;
        let mut i: usize = 0;
        while i < spans.len()
            invariant
                match first {
                    None => true,
                    Some(e) => e is Write,
                },
                spans@.len() == 0 ==> first is None,
            decreases spans@.len() - i,
        {
            let span = &spans[i];
            let level = level_for_status(&span.status);
            if handle.is_enabled(level, crate::registry::SPAN_KEYWORD) {
                let event = encode(span, &self.resource);
                let fields = event_fields(&event);
                proof {
                    reveal_strlit("Span");
                    assert forall|j: int| 0 <= j < "Span"@.len() implies "Span"@[j] != '\0' by {}
                    assert(!crate::text::has_nul("Span"@));
                }
                let status = handle.write_fields("Span", level, &fields);
                note_write_status(status, &mut first);
            }
            i = i + 1;
        }
        match first {
            None => Ok(()),
            Some(e) => {
                proof {
                    let status = e->Write_status;
                    assert(Result::<(), ExportError>::Err(e) == Result::<(), ExportError>::Err(
                        ExportError::Write { status },
                    ));
                }
                Err(e)
            },
        }
    }

    /// Releases the native registration.  A second shutdown finds the
    /// exporter already closed and reports exactly that; the handle was
    /// consumed the first time, so it can never be released twice.
    pub fn shutdown(&mut self) -> (r: Result<(), ExportError>)
        ensures
            !old(self).is_open() ==> r == Result::<(), ExportError>::Err(ExportError::Closed)
                && *final(self) == *old(self),
            old(self).is_open() ==> !final(self).is_open() && (r is Ok || (exists|status: u32|
                r == Result::<(), ExportError>::Err(ExportError::Registration { status }))),
            final(self).spec_resource() == old(self).spec_resource(),
    {
        match self.handle.take() {
            None => Err(ExportError::Closed),
            Some(h) => {
                let status = h.release();
                if status == 0 {
                    Ok(())
                } else {
                    Err(ExportError::Registration { status })
                }
            },
        }
    }

    /// Nothing is buffered: the transport is synchronous, so a flush has
    /// nothing to do and always succeeds.
    pub fn force_flush(&self) -> (r: Result<(), ExportError>)
        ensures
            r == Result::<(), ExportError>::Ok(()),
    {
        Ok(())
    }
}

} // verus!
