//! The provider registry: ownership of the native provider and the calls
//! into the native event-tracing subsystem.
//!
//! The handle is a single owned resource: release consumes it, so a released
//! handle can never be written to again and a double release cannot be
//! expressed.  The one native call that Rust marks unsafe, activating the
//! registration, is left to the embedding layer, which obtains the provider
//! through [`ProviderHandle::native`].

use vstd::prelude::*;
use vstd::string::StringSliceAdditionalSpecFns;
use crate::errors::ExportError;
use crate::kv::kv_text_view;
use crate::text::{has_nul, str_contains_nul};

verus! {

/// The one fixed filtering keyword bit used for all span events.
pub const SPAN_KEYWORD: u64 = 1;

/// The status reported when a provider name is rejected before any native
/// call is made: the native code for an invalid parameter.
pub const STATUS_INVALID_NAME: u32 = 87;

#[verifier::external_type_specification]
#[verifier::external_body]
pub struct ExProvider(tracelogging_dynamic::Provider);

#[verifier::external_type_specification]
#[verifier::external_body]
pub struct ExEventBuilder(tracelogging_dynamic::EventBuilder);

/// Relies on `tracelogging_dynamic::Provider::new` and `Provider::options`:
/// creates a named, not yet registered provider.  The callee asserts that
/// the name is shorter than 32768 bytes and free of NUL characters; the
/// precondition keeps those inputs out.
#[verifier::external_body]
fn provider_new(name: &str) -> (r: Box<tracelogging_dynamic::Provider>)
    requires
        name.spec_bytes().len() < 32768,
        !has_nul(name@),
{
    Box::new(tracelogging_dynamic::Provider::new(name, &tracelogging_dynamic::Provider::options()))
}

/// Relies on `tracelogging_dynamic::Provider::enabled`: asks the native
/// subsystem whether any session listens for this level and keyword.  The
/// answer depends on live sessions, so nothing is promised of it.
#[verifier::external_body]
fn provider_enabled(p: &tracelogging_dynamic::Provider, level: u8, keyword: u64) -> (r: bool) {
    p.enabled(tracelogging_dynamic::Level::from_int(level), keyword)
}

/// Relies on `tracelogging_dynamic::Provider::unregister`: releases the
/// native registration; a no-op returning zero when not registered.  The
/// status is the raw native code.
#[verifier::external_body]
fn provider_unregister(p: &tracelogging_dynamic::Provider) -> (r: u32) {
    p.unregister()
}

/// Relies on `tracelogging_dynamic::EventBuilder::new`: a fresh, empty
/// event builder.
#[verifier::external_body]
fn builder_new() -> (r: tracelogging_dynamic::EventBuilder) {
    tracelogging_dynamic::EventBuilder::new()
}

/// Relies on `tracelogging_dynamic::EventBuilder::reset`: clears the
/// builder and sets the event name, severity level and keyword.  The callee
/// asserts that the name holds no NUL character; the precondition keeps
/// such names out.
#[verifier::external_body]
fn builder_reset(b: &mut tracelogging_dynamic::EventBuilder, name: &str, level: u8, keyword: u64)
    requires
        !has_nul(name@),
{
    b.reset(name, tracelogging_dynamic::Level::from_int(level), keyword, 0);
}

/// Relies on `tracelogging_dynamic::EventBuilder::add_str8`: appends one
/// named UTF-8 text field to the event under construction.  The callee
/// asserts that the field name holds no NUL character; the precondition
/// keeps such keys out.
#[verifier::external_body]
fn builder_add_str(b: &mut tracelogging_dynamic::EventBuilder, key: &str, value: &str)
    requires
        !has_nul(key@),
{
    b.add_str8(key, value, tracelogging_dynamic::OutType::Utf8, 0);
}

/// Relies on `tracelogging_dynamic::EventBuilder::write`: hands the event
/// to the native subsystem and returns its raw status, zero for success.
#[verifier::external_body]
fn builder_write(b: &mut tracelogging_dynamic::EventBuilder, p: &tracelogging_dynamic::Provider) -> (r: u32) {
    b.write(p, None, None)
}

/// The fields whose keys the native metadata can carry: those free of NUL
/// characters, kept in order.
pub open spec fn writable_fields_of(
    s: Seq<(Seq<char>, Seq<char>)>,
) -> Seq<(Seq<char>, Seq<char>)>
    decreases s.len(),
{
    if s.len() == 0 {
        Seq::empty()
    } else if has_nul(s.last().0) {
        writable_fields_of(s.drop_last())
    } else {
        writable_fields_of(s.drop_last()).push(s.last())
    }
}

/// Keeps the fields whose key is free of NUL characters, in order.  What
/// [`ProviderHandle::write_fields`] hands to the native builder is exactly
/// this list.
pub fn writable_fields(fields: &Vec<(String, String)>) -> (r: Vec<(String, String)>)
    ensures
        kv_text_view(r@) == writable_fields_of(kv_text_view(fields@)),
        forall|i: int| 0 <= i < r@.len() ==> !has_nul(#[trigger] r@[i].0@),
{
    let mut r: Vec<(String, String)> = Vec::new();
    let mut i: usize = 0;
    proof {
        assert(kv_text_view(r@) =~= writable_fields_of(kv_text_view(fields@.take(0))));
    }
    while i < fields.len()
        invariant
            i <= fields@.len(),
            kv_text_view(r@) == writable_fields_of(kv_text_view(fields@.take(i as int))),
            forall|j: int| 0 <= j < r@.len() ==> !has_nul(#[trigger] r@[j].0@),
        decreases fields@.len() - i,
    {
        let ghost r0 = r@;
        if !str_contains_nul(fields[i].0.as_str()) {
            r.push((fields[i].0.clone(), fields[i].1.clone()));
            proof {
                assert(kv_text_view(r@) =~= kv_text_view(r0).push((
                    fields@[i as int].0@,
                    fields@[i as int].1@,
                )));
            }
        }
        proof {
            assert(fields@.take(i as int + 1).drop_last() =~= fields@.take(i as int));
            assert(kv_text_view(fields@.take(i as int + 1)).drop_last() =~= kv_text_view(
                fields@.take(i as int),
            ));
            assert(kv_text_view(fields@.take(i as int + 1)).last() == (
                fields@[i as int].0@,
                fields@[i as int].1@,
            ));
        }
        i = i + 1;
    }
    proof {
        assert(fields@.take(fields@.len() as int) =~= fields@);
    }
    r
}

/// The owned native registration handle: one per provider name, created
/// once, released exactly once by [`ProviderHandle::release`], which
/// consumes it.
pub struct ProviderHandle {
    provider: Box<tracelogging_dynamic::Provider>,
    test_mode: bool,
}

impl ProviderHandle {
    /// Whether the handle short-circuits the native filter check, so that
    /// tests observe deterministic behaviour with no session attached.
    pub closed spec fn spec_test_mode(&self) -> bool {
        self.test_mode
    }

    /// Creates the named provider, rejecting a name the native subsystem
    /// cannot take: one of 32768 bytes or more, or one holding a NUL
    /// character.  The native activation is performed by the embedding
    /// layer through [`ProviderHandle::native`]; until then writes are
    /// native no-ops.
    pub fn create(name: &str, test_mode: bool) -> (r: Result<ProviderHandle, ExportError>)
        ensures
            match r {
                Ok(h) => h.spec_test_mode() == test_mode && name.spec_bytes().len() < 32768
                    && !has_nul(name@),
                Err(e) => e == (ExportError::Registration { status: STATUS_INVALID_NAME })
                    && (name.spec_bytes().len() >= 32768 || has_nul(name@)),
            },
    {
        if name.as_bytes().len() >= 32768 || str_contains_nul(name) {
            return Err(ExportError::Registration { status: STATUS_INVALID_NAME });
        }
        Ok(ProviderHandle { provider: provider_new(name), test_mode })
    }

    /// The native provider, for the embedding layer to activate.  The
    /// provider value lives on the heap and is never moved out, so a
    /// pinned reference to it stays valid for the life of the handle.
    pub fn native(&self) -> &tracelogging_dynamic::Provider {
        &*self.provider
    }

    /// The non-blocking filter check.  In test mode the answer is always
    /// `true`; otherwise it is whatever the native subsystem says.
    pub fn is_enabled(&self, level: u8, keyword: u64) -> (r: bool)
        ensures
            self.spec_test_mode() ==> r == true,
    {
        if self.test_mode {
            true
        } else {
            provider_enabled(&*self.provider, level, keyword)
        }
    }

    /// Builds one event from its flattened fields and writes it.  The
    /// fields handed to the native builder are exactly
    /// [`writable_fields`] of the list given: a key the native metadata
    /// cannot carry — one with a NUL character — is left out.  Returns the
    /// raw native status, zero for success.
    pub fn write_fields(&self, event_name: &str, level: u8, fields: &Vec<(String, String)>) -> u32
        requires
            !has_nul(event_name@),
    {
        let to_write = writable_fields(fields);
        let mut b = builder_new();
        builder_reset(&mut b, event_name, level, SPAN_KEYWORD);
        let mut i: usize = 0;
        while i < to_write.len()
            invariant
                forall|j: int| 0 <= j < to_write@.len() ==> !has_nul(#[trigger] to_write@[j].0@),
            decreases to_write@.len() - i,
        {
            builder_add_str(&mut b, to_write[i].0.as_str(), to_write[i].1.as_str());
            i = i + 1;
        }
        builder_write(&mut b, &*self.provider)
    }

    /// Releases the native registration.  Consumes the handle: after this
    /// call no handle exists, so no write can ever follow a release.
    pub fn release(self) -> u32 {
        provider_unregister(&*self.provider)
    }
}

/// Interprets the status the native registration returned: zero is
/// success, anything else a registration error carrying the raw status.
pub fn confirm_registration(status: u32) -> (r: Result<(), ExportError>)
    ensures
        status == 0 ==> r == Result::<(), ExportError>::Ok(()),
        status != 0 ==> r == Result::<(), ExportError>::Err(
            ExportError::Registration { status },
        ),
{
    if status == 0 {
        Ok(())
    } else {
        Err(ExportError::Registration { status })
    }
}

} // verus!
