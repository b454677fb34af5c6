//! The three-part event schema and the encoder.  Encoding is total and
//! deterministic: every field of the event is a function of the span and of
//! the captured resource attributes, and nothing else.

use vstd::prelude::*;
use crate::converters::{
    attributes_to_hashmap, extract_trace_span_ids, flatten_attrs, kind_str, span_kind_to_string,
    status_message, status_str, status_to_string,
};
use crate::hex::{bytes_to_hex, hex_of};
use crate::kv::{kv_text_view, kv_view, unique_keys};
use crate::span::{AttrValue, ResourceAttributes, SpanRecord};
use crate::text::{dec_of, push_dec_u64};
use crate::time::{format_timestamp, iso8601_of};

verus! {

/// The fixed schema version string every event carries.
pub open spec fn spec_schema_version() -> Seq<char> {
    "4.0"@
}

/// Part A: the identity envelope of the event.
pub struct PartA {
    /// Schema version.
    pub ver: String,
    /// Event timestamp: the span's end, ISO-8601.
    pub time: String,
    /// Service name from the resource attributes.
    pub name: String,
    /// Service version from the resource attributes; empty when absent.
    pub sv: String,
    /// Trace id: 32 lowercase hex characters.
    pub trace_id: String,
    /// Span id: 16 lowercase hex characters.
    pub span_id: String,
    /// Parent span id, when the span has a parent.
    pub parent_id: Option<String>,
}

pub ghost struct PartAModel {
    pub ver: Seq<char>,
    pub time: Seq<char>,
    pub name: Seq<char>,
    pub sv: Seq<char>,
    pub trace_id: Seq<char>,
    pub span_id: Seq<char>,
    pub parent_id: Option<Seq<char>>,
}

impl View for PartA {
    type V = PartAModel;

    open spec fn view(&self) -> PartAModel {
        PartAModel {
            ver: self.ver@,
            time: self.time@,
            name: self.name@,
            sv: self.sv@,
            trace_id: self.trace_id@,
            span_id: self.span_id@,
            parent_id: match self.parent_id {
                Some(p) => Some(p@),
                None => None,
            },
        }
    }
}

/// What Part A must hold for a span and a resource snapshot.
pub open spec fn part_a_model(span: SpanRecord, resource: ResourceAttributes) -> PartAModel {
    PartAModel {
        ver: spec_schema_version(),
        time: iso8601_of(span.end_time_ns),
        name: resource.spec_service_name_or_default(),
        sv: resource.spec_service_version_or_empty(),
        trace_id: hex_of(span.trace_id@),
        span_id: hex_of(span.span_id@),
        parent_id: match span.parent_span_id {
            Some(p) => Some(hex_of(p@)),
            None => None,
        },
    }
}

impl PartA {
    /// Builds Part A from the span identity and the resource snapshot.
    pub fn new(span: &SpanRecord, resource: &ResourceAttributes) -> (r: PartA)
        ensures
            r@ == part_a_model(*span, *resource),
    {
        let ids = extract_trace_span_ids(&span.trace_id, &span.span_id);
        PartA {
            ver: String::from_str("4.0"),
            time: format_timestamp(span.end_time_ns),
            name: String::from_str(resource.service_name()),
            sv: String::from_str(resource.service_version_or_empty()),
            trace_id: ids.0,
            span_id: ids.1,
            parent_id: match &span.parent_span_id {
                Some(p) => Some(bytes_to_hex(p.as_slice())),
                None => None,
            },
        }
    }
}

/// Part B: the operation semantics of the span.
pub struct PartB {
    /// Span name.
    pub name: String,
    /// Span kind, one of five fixed strings.
    pub kind: String,
    /// Span status: `unset`, `ok` or `error`.
    pub status: String,
    /// Status message; present exactly when the status is an error.
    pub status_message: Option<String>,
    /// Span start, ISO-8601.
    pub start_time: String,
    /// Span end, ISO-8601.
    pub end_time: String,
    /// Span duration in nanoseconds, clamped to zero under clock skew.
    pub duration_ns: u64,
}

pub ghost struct PartBModel {
    pub name: Seq<char>,
    pub kind: Seq<char>,
    pub status: Seq<char>,
    pub status_message: Option<Seq<char>>,
    pub start_time: Seq<char>,
    pub end_time: Seq<char>,
    pub duration_ns: u64,
}

impl View for PartB {
    type V = PartBModel;

    open spec fn view(&self) -> PartBModel {
        PartBModel {
            name: self.name@,
            kind: self.kind@,
            status: self.status@,
            status_message: match self.status_message {
                Some(m) => Some(m@),
                None => None,
            },
            start_time: self.start_time@,
            end_time: self.end_time@,
            duration_ns: self.duration_ns,
        }
    }
}

/// The span duration: never negative, clamped to zero when the clock
/// went backwards.
pub open spec fn spec_duration_ns(start: u64, end: u64) -> u64 {
    if end >= start {
        (end - start) as u64
    } else {
        0
    }
}

/// The duration is non-negative for every start/end pair, and equals
/// `end - start` whenever the end does not precede the start.
pub proof fn lemma_duration_invariant(start: u64, end: u64)
    ensures
        spec_duration_ns(start, end) >= 0,
        end >= start ==> spec_duration_ns(start, end) == end - start,
        end < start ==> spec_duration_ns(start, end) == 0,
{
}

/// What Part B must hold for a span.
pub open spec fn part_b_model(span: SpanRecord) -> PartBModel {
    PartBModel {
        name: span.name@,
        kind: kind_str(span.kind),
        status: status_str(span.status),
        status_message: status_message(span.status),
        start_time: iso8601_of(span.start_time_ns),
        end_time: iso8601_of(span.end_time_ns),
        duration_ns: spec_duration_ns(span.start_time_ns, span.end_time_ns),
    }
}

impl PartB {
    /// Builds Part B from the span's operation data.
    pub fn new(span: &SpanRecord) -> (r: PartB)
        ensures
            r@ == part_b_model(*span),
    {
        let duration_ns = if span.end_time_ns >= span.start_time_ns {
            span.end_time_ns - span.start_time_ns
        } else {
            0
        };
        PartB {
            name: span.name.clone(),
            kind: String::from_str(span_kind_to_string(span.kind)),
            status: String::from_str(status_to_string(&span.status)),
            status_message: match &span.status {
                crate::span::SpanStatus::Error(m) => Some(m.clone()),
                _ => None,
            },
            start_time: format_timestamp(span.start_time_ns),
            end_time: format_timestamp(span.end_time_ns),
            duration_ns,
        }
    }
}

/// Part C: the flattened span attributes, keys unique.
pub struct PartC {
    pub attributes: Vec<(String, String)>,
}

impl View for PartC {
    type V = Seq<(Seq<char>, Seq<char>)>;

    open spec fn view(&self) -> Seq<(Seq<char>, Seq<char>)> {
        kv_text_view(self.attributes@)
    }
}

/// What Part C must hold for a span's attribute list.
pub open spec fn part_c_model(span: SpanRecord) -> Seq<(Seq<char>, Seq<char>)> {
    flatten_attrs(kv_view(span.attributes@))
}

impl PartC {
    /// Builds Part C by flattening the span attributes.
    pub fn new(attributes: &Vec<(String, AttrValue)>) -> (r: PartC)
        ensures
            r@ == flatten_attrs(kv_view(attributes@)),
            unique_keys(r@),
    {
        PartC { attributes: attributes_to_hashmap(attributes) }
    }
}

/// A fully encoded event: the three schema parts together.
pub struct EtwEvent {
    pub part_a: PartA,
    pub part_b: PartB,
    pub part_c: PartC,
}

pub ghost struct EtwEventModel {
    pub part_a: PartAModel,
    pub part_b: PartBModel,
    pub part_c: Seq<(Seq<char>, Seq<char>)>,
}

impl View for EtwEvent {
    type V = EtwEventModel;

    open spec fn view(&self) -> EtwEventModel {
        EtwEventModel { part_a: self.part_a@, part_b: self.part_b@, part_c: self.part_c@ }
    }
}

/// What the whole event must hold: each part a function of the span and
/// of the resource snapshot alone.
pub open spec fn encode_model(span: SpanRecord, resource: ResourceAttributes) -> EtwEventModel {
    EtwEventModel {
        part_a: part_a_model(span, resource),
        part_b: part_b_model(span),
        part_c: part_c_model(span),
    }
}

/// Encodes a span against the captured resource attributes.  Total: every
/// span and every snapshot encode; nothing fails.
pub fn encode(span: &SpanRecord, resource: &ResourceAttributes) -> (e: EtwEvent)
    ensures
        e@ == encode_model(*span, *resource),
{
    EtwEvent {
        part_a: PartA::new(span, resource),
        part_b: PartB::new(span),
        part_c: PartC::new(&span.attributes),
    }
}

/// Encoding is deterministic: identical inputs yield identical events,
/// byte for byte.
pub proof fn lemma_encode_deterministic(
    s1: SpanRecord,
    r1: ResourceAttributes,
    s2: SpanRecord,
    r2: ResourceAttributes,
)
    requires
        s1 == s2,
        r1 == r2,
    ensures
        encode_model(s1, r1) == encode_model(s2, r2),
{
}

/// The flat field list an event serializes to: Part A, then Part B, then
/// the Part C map, optional fields present only when set.
pub open spec fn spec_event_fields(e: EtwEventModel) -> Seq<(Seq<char>, Seq<char>)> {
    let a = seq![
        ("PartA.ver"@, e.part_a.ver),
        ("PartA.time"@, e.part_a.time),
        ("PartA.name"@, e.part_a.name),
        ("PartA.sv"@, e.part_a.sv),
        ("PartA.trace_id"@, e.part_a.trace_id),
        ("PartA.span_id"@, e.part_a.span_id),
    ];
    let a2 = match e.part_a.parent_id {
        Some(p) => a + seq![("PartA.parent_id"@, p)],
        None => a,
    };
    let b = a2 + seq![
        ("PartB.name"@, e.part_b.name),
        ("PartB.kind"@, e.part_b.kind),
        ("PartB.status"@, e.part_b.status),
    ];
    let b2 = match e.part_b.status_message {
        Some(m) => b + seq![("PartB.status_message"@, m)],
        None => b,
    };
    let b3 = b2 + seq![
        ("PartB.start_time"@, e.part_b.start_time),
        ("PartB.end_time"@, e.part_b.end_time),
        ("PartB.duration_ns"@, dec_of(e.part_b.duration_ns as int)),
    ];
    b3 + e.part_c
}

/// Flattens an event into the field list its serialization writes.
pub fn event_fields(e: &EtwEvent) -> (r: Vec<(String, String)>)
    ensures
        kv_text_view(r@) == spec_event_fields(e@),
{
    let mut out: Vec<(String, String)> = Vec::new();
    out.push((String::from_str("PartA.ver"), e.part_a.ver.clone()));
    out.push((String::from_str("PartA.time"), e.part_a.time.clone()));
    out.push((String::from_str("PartA.name"), e.part_a.name.clone()));
    out.push((String::from_str("PartA.sv"), e.part_a.sv.clone()));
    out.push((String::from_str("PartA.trace_id"), e.part_a.trace_id.clone()));
    out.push((String::from_str("PartA.span_id"), e.part_a.span_id.clone()));
    if let Some(p) = &e.part_a.parent_id {
        out.push((String::from_str("PartA.parent_id"), p.clone()));
    }
    out.push((String::from_str("PartB.name"), e.part_b.name.clone()));
    out.push((String::from_str("PartB.kind"), e.part_b.kind.clone()));
    out.push((String::from_str("PartB.status"), e.part_b.status.clone()));
    if let Some(m) = &e.part_b.status_message {
        out.push((String::from_str("PartB.status_message"), m.clone()));
    }
    out.push((String::from_str("PartB.start_time"), e.part_b.start_time.clone()));
    out.push((String::from_str("PartB.end_time"), e.part_b.end_time.clone()));
    let mut duration = String::new();
    push_dec_u64(&mut duration, e.part_b.duration_ns);
    out.push((String::from_str("PartB.duration_ns"), duration));
    let ghost head = kv_text_view(out@);
    let mut i: usize = 0;
    proof {
        assert(e.part_c@.take(0) =~= Seq::<(Seq<char>, Seq<char>)>::empty());
        assert(kv_text_view(out@) =~= head + e.part_c@.take(0));
    }
    while i < e.part_c.attributes.len()
        invariant
            i <= e.part_c.attributes@.len(),
            kv_text_view(out@) =~= head + e.part_c@.take(i as int),
        decreases e.part_c.attributes@.len() - i,
    {
        let k = e.part_c.attributes[i].0.clone();
        let v = e.part_c.attributes[i].1.clone();
        let ghost out0 = out@;
        out.push((k, v));
        proof {
            assert(kv_text_view(out@) =~= kv_text_view(out0).push((k@, v@)));
            assert(e.part_c@[i as int] == (k@, v@));
            assert(e.part_c@.take(i as int + 1) =~= e.part_c@.take(i as int).push(e.part_c@[i as int]));
            assert(kv_text_view(out@) =~= head + e.part_c@.take(i as int + 1));
        }
        i = i + 1;
    }
    proof {
        assert(e.part_c@.take(e.part_c@.len() as int) =~= e.part_c@);
        assert(kv_text_view(out@) =~= spec_event_fields(e@));
    }
    out
}

} // verus!
