use etw_trace::converters::{
    attr_value_string, attributes_to_hashmap, extract_trace_span_ids, level_for_status,
    span_kind_to_string, status_to_string, timestamp_to_etw_format,
};
use etw_trace::event::encode;
use etw_trace::exporter::EtwTraceExporter;
use etw_trace::hex::hex_to_bytes;
use etw_trace::registry::ProviderHandle;
use etw_trace::span::{AttrValue, ResourceAttributes, SpanKind, SpanRecord, SpanStatus};
use etw_trace::time::format_timestamp;

fn sample_span() -> SpanRecord {
    SpanRecord {
        trace_id: [0, 1, 2, 3, 4, 5, 6, 7, 8, 9, 10, 11, 12, 13, 14, 15],
        span_id: [0xde, 0xad, 0xbe, 0xef, 0x01, 0x02, 0x03, 0x04],
        parent_span_id: None,
        name: "GET /orders".to_string(),
        kind: SpanKind::Server,
        status: SpanStatus::Okay,
        start_time_ns: 1_700_000_000_000_000_000,
        end_time_ns: 1_700_000_000_001_000_000,
        attributes: vec![(
            "http.method".to_string(),
            AttrValue::Text("GET".to_string()),
        )],
    }
}

#[test]
fn test_create_etw_exporter() {
    let result = ProviderHandle::create("OTelETWTraceTest", false);
    assert!(result.is_ok());
    let exporter = EtwTraceExporter::new(result.unwrap());
    assert!(exporter.force_flush().is_ok());
}

#[test]
fn test_encode_server_span_example() {
    let span = sample_span();
    let resource = ResourceAttributes::from_resource(vec![(
        "service.name".to_string(),
        AttrValue::Text("orders".to_string()),
    )]);
    let event = encode(&span, &resource);

    assert_eq!(event.part_b.duration_ns, 1_000_000);
    assert_eq!(event.part_b.kind, "server");
    assert_eq!(event.part_b.status, "ok");
    assert_eq!(event.part_b.status_message, None);
    assert_eq!(
        event.part_c.attributes,
        vec![("http.method".to_string(), "GET".to_string())]
    );
    assert_eq!(event.part_a.name, "orders");
    assert_eq!(event.part_a.sv, "");
    assert_eq!(event.part_a.ver, "4.0");
    assert_eq!(event.part_a.trace_id, "000102030405060708090a0b0c0d0e0f");
    assert_eq!(event.part_a.span_id, "deadbeef01020304");
    assert_eq!(event.part_a.parent_id, None);
    assert_eq!(event.part_b.start_time, "2023-11-14T22:13:20.000000000Z");
    assert_eq!(event.part_b.end_time, "2023-11-14T22:13:20.001000000Z");
    assert_eq!(event.part_a.time, "2023-11-14T22:13:20.001000000Z");
}

#[test]
fn test_encode_is_deterministic() {
    let span = sample_span();
    let resource = ResourceAttributes::from_resource(vec![(
        "service.name".to_string(),
        AttrValue::Text("orders".to_string()),
    )]);
    let one = encode(&span, &resource);
    let two = encode(&span, &resource);
    assert_eq!(one.part_a.time, two.part_a.time);
    assert_eq!(one.part_a.trace_id, two.part_a.trace_id);
    assert_eq!(one.part_b.duration_ns, two.part_b.duration_ns);
    assert_eq!(one.part_c.attributes, two.part_c.attributes);
}

#[test]
fn test_hex_round_trip() {
    let span = sample_span();
    let (trace_hex, span_hex) = extract_trace_span_ids(&span.trace_id, &span.span_id);
    assert_eq!(trace_hex.len(), 32);
    assert_eq!(span_hex.len(), 16);
    assert_eq!(
        hex_to_bytes(&trace_hex).unwrap(),
        span.trace_id.to_vec()
    );
    assert_eq!(hex_to_bytes(&span_hex).unwrap(), span.span_id.to_vec());
    assert!(hex_to_bytes("0g").is_none());
    assert!(hex_to_bytes("abc").is_none());
}

#[test]
fn test_duration_clamped_to_zero() {
    let mut span = sample_span();
    span.start_time_ns = 2_000;
    span.end_time_ns = 1_000;
    let resource = ResourceAttributes::from_resource(Vec::new());
    let event = encode(&span, &resource);
    assert_eq!(event.part_b.duration_ns, 0);
}

#[test]
fn test_parent_id_present_when_parent_set() {
    let mut span = sample_span();
    span.parent_span_id = Some([0xff, 0, 0, 0, 0, 0, 0, 0x01]);
    let resource = ResourceAttributes::from_resource(Vec::new());
    let event = encode(&span, &resource);
    assert_eq!(event.part_a.parent_id, Some("ff00000000000001".to_string()));
}

#[test]
fn test_kind_strings() {
    assert_eq!(span_kind_to_string(SpanKind::Internal), "internal");
    assert_eq!(span_kind_to_string(SpanKind::Server), "server");
    assert_eq!(span_kind_to_string(SpanKind::Client), "client");
    assert_eq!(span_kind_to_string(SpanKind::Producer), "producer");
    assert_eq!(span_kind_to_string(SpanKind::Consumer), "consumer");
}

#[test]
fn test_status_strings_and_message() {
    assert_eq!(status_to_string(&SpanStatus::Unset), "unset");
    assert_eq!(status_to_string(&SpanStatus::Okay), "ok");
    assert_eq!(
        status_to_string(&SpanStatus::Error("boom".to_string())),
        "error"
    );

    let mut span = sample_span();
    span.status = SpanStatus::Error("boom".to_string());
    let resource = ResourceAttributes::from_resource(Vec::new());
    let event = encode(&span, &resource);
    assert_eq!(event.part_b.status, "error");
    assert_eq!(event.part_b.status_message, Some("boom".to_string()));
}

#[test]
fn test_severity_levels() {
    assert_eq!(level_for_status(&SpanStatus::Unset), 4);
    assert_eq!(level_for_status(&SpanStatus::Okay), 4);
    assert_eq!(level_for_status(&SpanStatus::Error("x".to_string())), 2);
}

#[test]
fn test_attribute_value_rendering() {
    assert_eq!(attr_value_string(&AttrValue::Text("x".to_string())), "x");
    assert_eq!(attr_value_string(&AttrValue::Int(0)), "0");
    assert_eq!(attr_value_string(&AttrValue::Int(-42)), "-42");
    assert_eq!(attr_value_string(&AttrValue::Int(i64::MIN)), "-9223372036854775808");
    assert_eq!(attr_value_string(&AttrValue::Boolean(true)), "true");
    assert_eq!(attr_value_string(&AttrValue::Boolean(false)), "false");
}

#[test]
fn test_attributes_flattened_last_write_wins() {
    let attrs = vec![
        ("k1".to_string(), AttrValue::Int(1)),
        ("k2".to_string(), AttrValue::Boolean(true)),
        ("k1".to_string(), AttrValue::Int(2)),
    ];
    let flat = attributes_to_hashmap(&attrs);
    assert_eq!(
        flat,
        vec![
            ("k1".to_string(), "2".to_string()),
            ("k2".to_string(), "true".to_string()),
        ]
    );
}

#[test]
fn test_iso8601_rendering() {
    assert_eq!(format_timestamp(0), "1970-01-01T00:00:00.000000000Z");
    assert_eq!(format_timestamp(1), "1970-01-01T00:00:00.000000001Z");
    assert_eq!(
        format_timestamp(86_400_000_000_000),
        "1970-01-02T00:00:00.000000000Z"
    );
    assert_eq!(
        format_timestamp(1_700_000_000_123_456_789),
        "2023-11-14T22:13:20.123456789Z"
    );
    // 2024 is a leap year: day 59 of 2024 is February 29.
    let leap_day_ns = (19_723u64 + 59) * 86_400_000_000_000;
    assert_eq!(format_timestamp(leap_day_ns), "2024-02-29T00:00:00.000000000Z");
}

#[test]
fn test_event_fields_layout() {
    let mut span = sample_span();
    span.status = SpanStatus::Error("boom".to_string());
    let resource = ResourceAttributes::from_resource(vec![(
        "service.name".to_string(),
        AttrValue::Text("orders".to_string()),
    )]);
    let event = encode(&span, &resource);
    let fields = etw_trace::event::event_fields(&event);
    let keys: Vec<&str> = fields.iter().map(|p| p.0.as_str()).collect();
    assert_eq!(
        keys,
        vec![
            "PartA.ver",
            "PartA.time",
            "PartA.name",
            "PartA.sv",
            "PartA.trace_id",
            "PartA.span_id",
            "PartB.name",
            "PartB.kind",
            "PartB.status",
            "PartB.status_message",
            "PartB.start_time",
            "PartB.end_time",
            "PartB.duration_ns",
            "http.method",
        ]
    );
    let duration = fields.iter().find(|p| p.0 == "PartB.duration_ns").unwrap();
    assert_eq!(duration.1, "1000000");
    let message = fields.iter().find(|p| p.0 == "PartB.status_message").unwrap();
    assert_eq!(message.1, "boom");
}

#[test]
fn test_timestamp_to_etw_format() {
    assert_eq!(timestamp_to_etw_format(0), 116_444_736_000_000_000);
    assert_eq!(timestamp_to_etw_format(250), 116_444_736_000_000_002);
}
