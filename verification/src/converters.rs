//! Conversions from span data to the textual forms the event schema uses.

use vstd::prelude::*;
use crate::hex::{bytes_to_hex, hex_of};
use crate::kv::{
    kv_view, kv_text_view, kv_upsert_text, upsert, unique_keys, lookup, last_value,
    lemma_upsert_unique, lemma_upsert_lookup,
};
use crate::span::{AttrValue, SpanKind, SpanStatus};
use crate::text::{dec_of_int, push_dec_i64, string_push};

verus! {

/// The native severity used for spans that completed without error.
pub const LEVEL_INFORMATIONAL: u8 = 4;

/// The native severity used for spans that completed with an error.
pub const LEVEL_ERROR: u8 = 2;

/// The difference between the native event-tracing epoch (1601-01-01) and
/// the Unix epoch (1970-01-01), in 100-nanosecond intervals.
pub const FILETIME_EPOCH_OFFSET_100NS: u64 = 116444736000000000;

pub open spec fn kind_str(k: SpanKind) -> Seq<char> {
    match k {
        SpanKind::Internal => "internal"@,
        SpanKind::Server => "server"@,
        SpanKind::Client => "client"@,
        SpanKind::Producer => "producer"@,
        SpanKind::Consumer => "consumer"@,
    }
}

/// The fixed string for a span kind.
pub fn span_kind_to_string(kind: SpanKind) -> (r: &'static str)
    ensures
        r@ == kind_str(kind),
{
    match kind {
        SpanKind::Internal => "internal",
        SpanKind::Server => "server",
        SpanKind::Client => "client",
        SpanKind::Producer => "producer",
        SpanKind::Consumer => "consumer",
    }
}

pub open spec fn status_str(s: SpanStatus) -> Seq<char> {
    match s {
        SpanStatus::Unset => "unset"@,
        SpanStatus::Okay => "ok"@,
        SpanStatus::Error(_) => "error"@,
    }
}

/// The message of a status: present exactly when the status is an error.
pub open spec fn status_message(s: SpanStatus) -> Option<Seq<char>> {
    match s {
        SpanStatus::Error(m) => Some(m@),
        _ => None,
    }
}

/// The fixed string for a span status.
pub fn status_to_string(status: &SpanStatus) -> (r: &'static str)
    ensures
        r@ == status_str(*status),
{
    match status {
        SpanStatus::Unset => "unset",
        SpanStatus::Okay => "ok",
        SpanStatus::Error(_) => "error",
    }
}

pub open spec fn spec_level_for(s: SpanStatus) -> u8 {
    if s is Error {
        LEVEL_ERROR
    } else {
        LEVEL_INFORMATIONAL
    }
}

/// The native severity level for a span: error spans are more severe.
pub fn level_for_status(status: &SpanStatus) -> (r: u8)
    ensures
        r == spec_level_for(*status),
{
    match status {
        SpanStatus::Error(_) => LEVEL_ERROR,
        _ => LEVEL_INFORMATIONAL,
    }
}

/// The canonical text of an attribute value: text as it is, integers in
/// decimal, booleans as `true`/`false`.
pub open spec fn canon_value(v: AttrValue) -> Seq<char> {
    match v {
        AttrValue::Text(s) => s@,
        AttrValue::Int(i) => dec_of_int(i as int),
        AttrValue::Boolean(b) => if b {
            "true"@
        } else {
            "false"@
        },
    }
}

/// Renders an attribute value canonically.
pub fn attr_value_string(v: &AttrValue) -> (r: String)
    ensures
        r@ == canon_value(*v),
{
    match v {
        AttrValue::Text(s) => s.clone(),
        AttrValue::Int(i) => {
            let mut out = String::new();
            push_dec_i64(&mut out, *i);
            out
        },
        AttrValue::Boolean(b) => {
            if *b {
                String::from_str("true")
            } else {
                String::from_str("false")
            }
        },
    }
}

/// The flattened attribute map: every value rendered canonically, keys
/// unique, the last write to a key winning.
pub open spec fn flatten_attrs(s: Seq<(Seq<char>, AttrValue)>) -> Seq<(Seq<char>, Seq<char>)>
    decreases s.len(),
{
    if s.len() == 0 {
        Seq::empty()
    } else {
        upsert(flatten_attrs(s.drop_last()), s.last().0, canon_value(s.last().1))
    }
}

pub proof fn lemma_flatten_attrs_unique(s: Seq<(Seq<char>, AttrValue)>)
    ensures
        unique_keys(flatten_attrs(s)),
    decreases s.len(),
{
    if s.len() > 0 {
        lemma_flatten_attrs_unique(s.drop_last());
        lemma_upsert_unique(flatten_attrs(s.drop_last()), s.last().0, canon_value(s.last().1));
    }
}

/// In the flattened map every key carries the canonical text of the last
/// value written to it, and no other keys appear.
pub proof fn lemma_flatten_last_wins(s: Seq<(Seq<char>, AttrValue)>, k: Seq<char>)
    ensures
        lookup(flatten_attrs(s), k) == match last_value(s, k) {
            Some(v) => Some(canon_value(v)),
            None => None,
        },
    decreases s.len(),
{
    if s.len() > 0 {
        lemma_flatten_last_wins(s.drop_last(), k);
        lemma_upsert_lookup(
            flatten_attrs(s.drop_last()),
            s.last().0,
            canon_value(s.last().1),
            k,
        );
    }
}

/// Flattens span attributes into the unique-key textual map of Part C.
pub fn attributes_to_hashmap(attributes: &Vec<(String, AttrValue)>) -> (r: Vec<(String, String)>)
    ensures
        kv_text_view(r@) == flatten_attrs(kv_view(attributes@)),
        unique_keys(kv_text_view(r@)),
{
    let mut result: Vec<(String, String)> = Vec::new();
    let mut i: usize = 0;
    proof {
        assert(kv_view(attributes@.take(0)) =~= Seq::<(Seq<char>, AttrValue)>::empty());
        assert(kv_text_view(result@) =~= Seq::<(Seq<char>, Seq<char>)>::empty());
    }
    while i < attributes.len()
        invariant
            i <= attributes@.len(),
            kv_text_view(result@) == flatten_attrs(kv_view(attributes@.take(i as int))),
        decreases attributes@.len() - i,
    {
        let key = attributes[i].0.clone();
        let sval = attr_value_string(&attributes[i].1);
        kv_upsert_text(&mut result, key, sval);
        proof {
            assert(attributes@.take(i as int + 1).drop_last() =~= attributes@.take(i as int));
            assert(kv_view(attributes@.take(i as int + 1)).drop_last() =~= kv_view(
                attributes@.take(i as int),
            ));
            assert(kv_view(attributes@.take(i as int + 1)).last() == (
                attributes@[i as int].0@,
                attributes@[i as int].1,
            ));
        }
        i = i + 1;
    }
    proof {
        assert(attributes@.take(attributes@.len() as int) =~= attributes@);
        lemma_flatten_attrs_unique(kv_view(attributes@));
    }
    result
}

/// Renders the trace and span identifiers as fixed-width lowercase hex.
pub fn extract_trace_span_ids(trace_id: &[u8; 16], span_id: &[u8; 8]) -> (r: (String, String))
    ensures
        r.0@ == hex_of(trace_id@),
        r.1@ == hex_of(span_id@),
        r.0@.len() == 32,
        r.1@.len() == 16,
{
    (bytes_to_hex(trace_id.as_slice()), bytes_to_hex(span_id.as_slice()))
}

/// A timestamp in nanoseconds since the Unix epoch, as the native
/// 100-nanosecond intervals since 1601-01-01.
pub fn timestamp_to_etw_format(ns: u64) -> (r: u64)
    ensures
        r == ns / 100 + FILETIME_EPOCH_OFFSET_100NS,
{
    proof {
        assert(ns / 100 <= u64::MAX / 100) by (nonlinear_arith)
            requires
                ns <= u64::MAX,
        ;
    }
    ns / 100 + FILETIME_EPOCH_OFFSET_100NS
}

} // verus!
