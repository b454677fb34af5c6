//! The data model: completed spans, attribute values, and the resource
//! attributes captured once from the host pipeline's resource snapshot.

use vstd::prelude::*;
use crate::kv::{
    kv_view, kv_upsert, kv_find, upsert, unique_keys, lookup, last_value, lemma_upsert_unique,
    lemma_upsert_lookup,
};
use crate::text::str_eq;

verus! {

/// The value of a span or resource attribute.
///
/// Floating-point values are carried in their canonical textual rendering,
/// produced at the boundary that accepts them.
#[derive(Clone, Debug, PartialEq)]
pub enum AttrValue {
    Text(String),
    Int(i64),
    Boolean(bool),
}

/// The kind of a span.
#[derive(Clone, Copy, Debug, PartialEq, Eq, Structural)]
pub enum SpanKind {
    Internal,
    Server,
    Client,
    Producer,
    Consumer,
}

/// The status a span completed with.
#[derive(Clone, Debug, PartialEq)]
pub enum SpanStatus {
    Unset,
    Okay,
    Error(String),
}

/// A completed span, immutable during export.
pub struct SpanRecord {
    pub trace_id: [u8; 16],
    pub span_id: [u8; 8],
    pub parent_span_id: Option<[u8; 8]>,
    pub name: String,
    pub kind: SpanKind,
    pub status: SpanStatus,
    pub start_time_ns: u64,
    pub end_time_ns: u64,
    pub attributes: Vec<(String, AttrValue)>,
}

pub open spec fn is_service_key(k: Seq<char>) -> bool {
    ||| k == "service.name"@
    ||| k == "service.namespace"@
    ||| k == "service.instance.id"@
    ||| k == "service.version"@
}

/// The last text value a key takes in `pairs`, if any: later occurrences
/// overwrite earlier ones, and only text values count.
pub open spec fn extract_field(
    pairs: Seq<(Seq<char>, AttrValue)>,
    key: Seq<char>,
) -> Option<Seq<char>>
    decreases pairs.len(),
{
    if pairs.len() == 0 {
        None
    } else {
        let last = pairs.last();
        if last.0 == key && last.1 is Text {
            Some(last.1->Text_0@)
        } else {
            extract_field(pairs.drop_last(), key)
        }
    }
}

/// The non-service pairs of `pairs`, folded into a unique-key list where the
/// last write wins.
pub open spec fn extract_extras(pairs: Seq<(Seq<char>, AttrValue)>) -> Seq<(Seq<char>, AttrValue)>
    decreases pairs.len(),
{
    if pairs.len() == 0 {
        Seq::empty()
    } else {
        let last = pairs.last();
        if is_service_key(last.0) {
            extract_extras(pairs.drop_last())
        } else {
            upsert(extract_extras(pairs.drop_last()), last.0, last.1)
        }
    }
}

pub proof fn lemma_extract_extras_unique(pairs: Seq<(Seq<char>, AttrValue)>)
    ensures
        unique_keys(extract_extras(pairs)),
    decreases pairs.len(),
{
    if pairs.len() == 0 {
    } else {
        lemma_extract_extras_unique(pairs.drop_last());
        let last = pairs.last();
        if !is_service_key(last.0) {
            lemma_upsert_unique(extract_extras(pairs.drop_last()), last.0, last.1);
        }
    }
}

/// The open attribute list of the snapshot keeps, for every non-service
/// key, the last value written to it, and holds no service key.
pub proof fn lemma_extras_last_wins(pairs: Seq<(Seq<char>, AttrValue)>, k: Seq<char>)
    ensures
        is_service_key(k) ==> lookup(extract_extras(pairs), k) is None,
        !is_service_key(k) ==> lookup(extract_extras(pairs), k) == last_value(pairs, k),
    decreases pairs.len(),
{
    if pairs.len() == 0 {
    } else {
        lemma_extras_last_wins(pairs.drop_last(), k);
        let last = pairs.last();
        if !is_service_key(last.0) {
            lemma_upsert_lookup(extract_extras(pairs.drop_last()), last.0, last.1, k);
        }
    }
}

/// Resource attributes of the process, captured once from the host
/// pipeline's resource snapshot at configuration time.
#[derive(Clone, Debug)]
pub struct ResourceAttributes {
    service_name: Option<String>,
    service_namespace: Option<String>,
    service_instance_id: Option<String>,
    service_version: Option<String>,
    attributes: Vec<(String, AttrValue)>,
}

impl ResourceAttributes {
    pub closed spec fn spec_service_name(&self) -> Option<Seq<char>> {
        match self.service_name {
            Some(s) => Some(s@),
            None => None,
        }
    }

    pub closed spec fn spec_service_namespace(&self) -> Option<Seq<char>> {
        match self.service_namespace {
            Some(s) => Some(s@),
            None => None,
        }
    }

    pub closed spec fn spec_service_instance_id(&self) -> Option<Seq<char>> {
        match self.service_instance_id {
            Some(s) => Some(s@),
            None => None,
        }
    }

    pub closed spec fn spec_service_version(&self) -> Option<Seq<char>> {
        match self.service_version {
            Some(s) => Some(s@),
            None => None,
        }
    }

    pub closed spec fn spec_attributes(&self) -> Seq<(Seq<char>, AttrValue)> {
        kv_view(self.attributes@)
    }

    /// The service name as rendered into events: a default stands in only
    /// when the name is entirely absent.
    pub open spec fn spec_service_name_or_default(&self) -> Seq<char> {
        match self.spec_service_name() {
            Some(s) => s,
            None => "unknown_service"@,
        }
    }

    /// The service version as rendered into events: empty when absent.
    pub open spec fn spec_service_version_or_empty(&self) -> Seq<char> {
        match self.spec_service_version() {
            Some(s) => s,
            None => Seq::empty(),
        }
    }

    pub open spec fn wf(&self) -> bool {
        unique_keys(self.spec_attributes())
    }

    /// A snapshot with nothing captured yet.
    pub fn empty() -> (r: ResourceAttributes)
        ensures
            r.spec_service_name() is None,
            r.spec_service_namespace() is None,
            r.spec_service_instance_id() is None,
            r.spec_service_version() is None,
            r.spec_attributes() == Seq::<(Seq<char>, AttrValue)>::empty(),
            r.wf(),
    {
        let r = ResourceAttributes {
            service_name: None,
            service_namespace: None,
            service_instance_id: None,
            service_version: None,
            attributes: Vec::new(),
        };
        proof {
            assert(r.spec_attributes() =~= Seq::<(Seq<char>, AttrValue)>::empty());
        }
        r
    }

    /// Builds the snapshot from the key/value pairs of the host resource.
    ///
    /// The four `service.*` keys are pulled into their own fields when their
    /// value is text; every other pair lands in the open attribute list,
    /// where the last write to a key wins.
    pub fn from_resource(pairs: Vec<(String, AttrValue)>) -> (r: ResourceAttributes)
        ensures
            r.spec_service_name() == extract_field(kv_view(pairs@), "service.name"@),
            r.spec_service_namespace() == extract_field(kv_view(pairs@), "service.namespace"@),
            r.spec_service_instance_id() == extract_field(kv_view(pairs@), "service.instance.id"@),
            r.spec_service_version() == extract_field(kv_view(pairs@), "service.version"@),
            r.spec_attributes() == extract_extras(kv_view(pairs@)),
            r.wf(),
    {
        let mut pairs = pairs;
        let ghost orig = pairs@;
        let mut result = ResourceAttributes::empty();
        let mut i: usize = 0;
        let n = pairs.len();
        proof {
            assert(orig.len() == n);
            assert(kv_view(orig.take(0)) =~= Seq::<(Seq<char>, AttrValue)>::empty());
            assert(pairs@ =~= orig.skip(0));
        }
        while pairs.len() > 0
            invariant
                i <= orig.len(),
                orig.len() <= usize::MAX,
                pairs@ =~= orig.skip(i as int),
                result.spec_service_name() == extract_field(kv_view(orig.take(i as int)), "service.name"@),
                result.spec_service_namespace() == extract_field(kv_view(orig.take(i as int)), "service.namespace"@),
                result.spec_service_instance_id() == extract_field(kv_view(orig.take(i as int)), "service.instance.id"@),
                result.spec_service_version() == extract_field(kv_view(orig.take(i as int)), "service.version"@),
                result.spec_attributes() == extract_extras(kv_view(orig.take(i as int))),
            decreases pairs@.len(),
        {
            proof {
                reveal_strlit("service.name");
                reveal_strlit("service.namespace");
                reveal_strlit("service.instance.id");
                reveal_strlit("service.version");
                assert("service.name"@.len() == 12);
                assert("service.namespace"@.len() == 17);
                assert("service.instance.id"@.len() == 19);
                assert("service.version"@.len() == 15);
                assert(orig.skip(i as int).len() == orig.len() - i);
                assert(i < orig.len());
            }
            let (key, value) = pairs.remove(0);
            proof {
                assert(orig.skip(i as int)[0] == orig[i as int]);
                assert(pairs@ =~= orig.skip(i as int + 1));
                assert(orig.take(i as int + 1).drop_last() =~= orig.take(i as int));
                assert(orig.take(i as int + 1).last() == orig[i as int]);
                assert(kv_view(orig.take(i as int + 1)).drop_last() =~= kv_view(
                    orig.take(i as int),
                ));
                assert(kv_view(orig.take(i as int + 1)).last() == (orig[i as int].0@, orig[i as int].1));
            }
            if str_eq(key.as_str(), "service.name") {
                if let AttrValue::Text(s) = value {
                    result.service_name = Some(s);
                }
            } else if str_eq(key.as_str(), "service.namespace") {
                if let AttrValue::Text(s) = value {
                    result.service_namespace = Some(s);
                }
            } else if str_eq(key.as_str(), "service.instance.id") {
                if let AttrValue::Text(s) = value {
                    result.service_instance_id = Some(s);
                }
            } else if str_eq(key.as_str(), "service.version") {
                if let AttrValue::Text(s) = value {
                    result.service_version = Some(s);
                }
            } else {
                kv_upsert(&mut result.attributes, key, value);
            }
            i = i + 1;
        }
        proof {
            assert(i == orig.len());
            assert(orig.take(orig.len() as int) =~= orig);
            lemma_extract_extras_unique(kv_view(orig));
        }
        result
    }

    /// The service name, or its default when none was captured.
    pub fn service_name(&self) -> (r: &str)
        ensures
            r@ == self.spec_service_name_or_default(),
    {
        match &self.service_name {
            Some(s) => s.as_str(),
            None => "unknown_service",
        }
    }

    /// The service version rendered into events: empty when absent.
    pub fn service_version_or_empty(&self) -> (r: &str)
        ensures
            r@ == self.spec_service_version_or_empty(),
    {
        proof {
            reveal_strlit("");
        }
        match &self.service_version {
            Some(s) => s.as_str(),
            None => "",
        }
    }

    pub fn service_namespace(&self) -> (r: Option<&str>)
        ensures
            match r {
                Some(s) => self.spec_service_namespace() == Some(s@),
                None => self.spec_service_namespace() is None,
            },
    {
        match &self.service_namespace {
            Some(s) => Some(s.as_str()),
            None => None,
        }
    }

    pub fn service_instance_id(&self) -> (r: Option<&str>)
        ensures
            match r {
                Some(s) => self.spec_service_instance_id() == Some(s@),
                None => self.spec_service_instance_id() is None,
            },
    {
        match &self.service_instance_id {
            Some(s) => Some(s.as_str()),
            None => None,
        }
    }

    pub fn service_version(&self) -> (r: Option<&str>)
        ensures
            match r {
                Some(s) => self.spec_service_version() == Some(s@),
                None => self.spec_service_version() is None,
            },
    {
        match &self.service_version {
            Some(s) => Some(s.as_str()),
            None => None,
        }
    }

    /// All additional resource attributes.
    pub fn attributes(&self) -> (r: &Vec<(String, AttrValue)>)
        ensures
            kv_view(r@) == self.spec_attributes(),
    {
        &self.attributes
    }

    /// Looks one additional attribute up by key.
    pub fn attribute(&self, key: &str) -> (r: Option<&AttrValue>)
        ensures
            match r {
                Some(v) => lookup(self.spec_attributes(), key@) == Some(*v),
                None => lookup(self.spec_attributes(), key@) is None,
            },
    {
        match kv_find(&self.attributes, key) {
            Some(i) => Some(&self.attributes[i].1),
            None => None,
        }
    }
}

} // verus!
