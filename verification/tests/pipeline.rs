use etw_trace::errors::ExportError;
use etw_trace::exporter::EtwTraceExporter;
use etw_trace::processor::ReentrantSpanProcessor;
use etw_trace::registry::{confirm_registration, ProviderHandle};
use etw_trace::span::{AttrValue, SpanKind, SpanRecord, SpanStatus};

fn span(name: &str) -> SpanRecord {
    SpanRecord {
        trace_id: [1; 16],
        span_id: [2; 8],
        parent_span_id: None,
        name: name.to_string(),
        kind: SpanKind::Internal,
        status: SpanStatus::Unset,
        start_time_ns: 10,
        end_time_ns: 20,
        attributes: vec![("k".to_string(), AttrValue::Int(1))],
    }
}

fn test_exporter(name: &str) -> EtwTraceExporter {
    EtwTraceExporter::new(ProviderHandle::create(name, true).unwrap())
}

#[test]
fn test_export_after_shutdown_fails_closed() {
    let mut exporter = test_exporter("EtwTraceTest.Closed");
    assert!(exporter.export(vec![span("a")]).is_ok());
    assert_eq!(exporter.shutdown(), Ok(()));
    assert_eq!(exporter.export(vec![span("b")]), Err(ExportError::Closed));
}

#[test]
fn test_double_shutdown_reports_closed() {
    let mut exporter = test_exporter("EtwTraceTest.Double");
    assert_eq!(exporter.shutdown(), Ok(()));
    assert_eq!(exporter.shutdown(), Err(ExportError::Closed));
}

#[test]
fn test_force_flush_always_succeeds() {
    let mut exporter = test_exporter("EtwTraceTest.Flush");
    assert_eq!(exporter.force_flush(), Ok(()));
    assert_eq!(exporter.shutdown(), Ok(()));
    assert_eq!(exporter.force_flush(), Ok(()));
}

#[test]
fn test_invalid_provider_name_rejected() {
    let with_nul = ProviderHandle::create("bad\0name", false);
    assert_eq!(
        with_nul.err(),
        Some(ExportError::Registration { status: 87 })
    );
    let too_long = "x".repeat(40_000);
    let result = ProviderHandle::create(&too_long, false);
    assert_eq!(
        result.err(),
        Some(ExportError::Registration { status: 87 })
    );
}

#[test]
fn test_registration_status_mapping() {
    assert_eq!(confirm_registration(0), Ok(()));
    assert_eq!(
        confirm_registration(5),
        Err(ExportError::Registration { status: 5 })
    );
}

#[test]
fn test_reentrant_on_end_drops_span() {
    let mut processor = ReentrantSpanProcessor::new(test_exporter("EtwTraceTest.Reentry"));

    // An export is in flight; a completion arriving now must be dropped
    // without touching the sink, and without resetting the outer guard.
    assert!(processor.try_begin_export());
    processor.on_end(span("inner"));
    assert_eq!(processor.dropped_count(), 1);
    assert_eq!(processor.export_count(), 0);
    assert!(!processor.is_idle());

    // The outer export finishes and releases the guard unconditionally.
    processor.end_export();
    assert!(processor.is_idle());

    processor.on_end(span("outer"));
    assert_eq!(processor.export_count(), 1);
    assert!(processor.is_idle());
}

#[test]
fn test_sequential_exports_bounded_by_calls() {
    let mut processor = ReentrantSpanProcessor::new(test_exporter("EtwTraceTest.Bound"));
    let n = 3;
    for i in 0..n {
        processor.on_end(span(&format!("s{}", i)));
    }
    let exports = processor.export_count();
    assert!(exports >= 1 && exports <= n);
    assert_eq!(exports + processor.dropped_count(), n);
}

#[test]
fn test_shutdown_short_circuits_while_exporting() {
    let mut processor = ReentrantSpanProcessor::new(test_exporter("EtwTraceTest.Short"));
    assert!(processor.try_begin_export());
    assert_eq!(processor.shutdown(), Ok(()));
    assert_eq!(processor.force_flush(), Ok(()));
    processor.end_export();
    assert_eq!(processor.shutdown(), Ok(()));
    assert_eq!(processor.shutdown(), Err(ExportError::Closed));
}

#[test]
fn test_lock_contention_drops_and_continues() {
    let mut processor = ReentrantSpanProcessor::new(test_exporter("EtwTraceTest.Lock"));
    processor.on_lock_contention();
    assert_eq!(processor.dropped_count(), 1);
    assert_eq!(processor.export_count(), 0);
    assert!(processor.is_idle());
    assert_eq!(ExportError::LockContention, ExportError::LockContention);
}

#[test]
fn test_failures_are_swallowed() {
    let mut processor = ReentrantSpanProcessor::new(test_exporter("EtwTraceTest.Swallow"));
    // Shut the sink down, then deliver a completion: the export fails
    // closed, but on_end itself returns nothing and only counts.
    assert_eq!(processor.shutdown(), Ok(()));
    processor.on_end(span("late"));
    assert_eq!(processor.export_count(), 1);
    assert_eq!(processor.failure_count(), 1);
    assert!(processor.is_idle());
}
