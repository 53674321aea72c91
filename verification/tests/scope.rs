use telemetry_pipeline::context::TraceContext;
use telemetry_pipeline::event::{AttrValue, Attribute};
use telemetry_pipeline::level::Level;
use telemetry_pipeline::scope::TaskScope;

fn ctx(trace: u128, span: u64) -> TraceContext {
    TraceContext::new(trace, span, None, true).unwrap()
}

#[test]
fn a_new_scope_has_no_ambient_context() {
    let scope = TaskScope::new();
    assert_eq!(scope.current(), None);
    assert_eq!(scope.depth(), 0);
    assert_eq!(scope.snapshot(), None);
}

#[test]
fn with_makes_the_context_ambient_and_restores() {
    let mut scope = TaskScope::new();
    let c = ctx(5, 6);
    let seen = scope.with(c, |inner: &TaskScope| (inner.current(), inner.depth()));
    assert_eq!(seen, (Some(c), 1));
    assert_eq!(scope.current(), None);
    assert_eq!(scope.depth(), 0);
}

#[test]
fn with_restores_the_outer_context() {
    let mut scope = TaskScope::new();
    let outer = ctx(1, 1);
    let inner = ctx(2, 2);
    scope.enter(outer);
    let seen = scope.with(inner, |s: &TaskScope| s.current());
    assert_eq!(seen, Some(inner));
    assert_eq!(scope.current(), Some(outer));
    assert_eq!(scope.depth(), 1);
}

#[test]
fn with_restores_when_the_body_reports_an_error() {
    let mut scope = TaskScope::new();
    let r: Result<u8, String> = scope.with(ctx(1, 1), |_s: &TaskScope| Err("failed".to_string()));
    assert_eq!(r, Err("failed".to_string()));
    assert_eq!(scope.current(), None);
}

#[test]
fn a_root_span_starts_a_sampled_trace() {
    let mut scope = TaskScope::new();
    let span = scope
        .open_span("root".to_string(), "app".to_string(), Level::Info, 10, 0xaaaa, 0xbb)
        .unwrap();
    let c = span.context();
    assert_eq!(c.trace_id(), 0xaaaa);
    assert_eq!(c.span_id(), 0xbb);
    assert_eq!(c.parent_span_id(), None);
    assert!(c.sampled());
    assert_eq!(span.name(), "root");
    assert_eq!(span.start(), 10);
    assert!(!span.is_closed());
    assert_eq!(scope.current(), Some(c));
}

#[test]
fn a_child_span_inherits_the_ambient_trace() {
    let mut scope = TaskScope::new();
    let remote = TraceContext::new(0x77, 0x1, None, false).unwrap();
    scope.enter(remote);
    let span = scope
        .open_span("child".to_string(), "app".to_string(), Level::Debug, 0, 0xdead, 0x2)
        .unwrap();
    let c = span.context();
    assert_eq!(c.trace_id(), 0x77);
    assert_eq!(c.span_id(), 0x2);
    assert_eq!(c.parent_span_id(), Some(0x1));
    assert!(!c.sampled());
    let grandchild = scope
        .open_span("grandchild".to_string(), "app".to_string(), Level::Debug, 0, 0, 0x3)
        .unwrap();
    assert_eq!(grandchild.context().trace_id(), 0x77);
    assert_eq!(grandchild.context().parent_span_id(), Some(0x2));
}

#[test]
fn no_span_for_a_zero_span_identifier() {
    let mut scope = TaskScope::new();
    assert!(scope
        .open_span("root".to_string(), "app".to_string(), Level::Info, 0, 5, 0)
        .is_none());
    assert_eq!(scope.depth(), 0);
    scope.enter(ctx(7, 1));
    assert!(scope
        .open_span("child".to_string(), "app".to_string(), Level::Info, 0, 5, 0)
        .is_none());
    assert_eq!(scope.depth(), 1);
    assert_eq!(scope.current(), Some(ctx(7, 1)));
}

#[test]
fn no_root_span_for_a_zero_trace_identifier() {
    let mut scope = TaskScope::new();
    assert!(scope
        .open_span("root".to_string(), "app".to_string(), Level::Info, 0, 0, 5)
        .is_none());
    assert_eq!(scope.depth(), 0);
    assert_eq!(scope.current(), None);
}

#[test]
fn release_drops_the_entry_and_what_is_inside_it() {
    let mut scope = TaskScope::new();
    let a = ctx(1, 1);
    let b = ctx(1, 2);
    let c = ctx(1, 3);
    scope.enter(a);
    scope.enter(b);
    scope.enter(c);
    scope.release(&b);
    assert_eq!(scope.depth(), 1);
    assert_eq!(scope.current(), Some(a));
    scope.release(&c);
    assert_eq!(scope.depth(), 1);
    scope.release(&a);
    assert_eq!(scope.depth(), 0);
    scope.release(&a);
    assert_eq!(scope.depth(), 0);
}

#[test]
fn release_takes_the_innermost_of_equal_entries() {
    let mut scope = TaskScope::new();
    let a = ctx(1, 1);
    scope.enter(a);
    scope.enter(ctx(1, 2));
    scope.enter(a);
    scope.release(&a);
    assert_eq!(scope.depth(), 2);
    assert_eq!(scope.current(), Some(ctx(1, 2)));
}

#[test]
fn snapshot_lists_open_spans_oldest_first() {
    let mut scope = TaskScope::new();
    scope.enter(ctx(0x99, 1));
    let _a = scope.open_span("request".to_string(), "app".to_string(), Level::Info, 0, 0, 2);
    let _b = scope.open_span("query".to_string(), "app".to_string(), Level::Info, 0, 0, 3);
    let _c = scope.open_span("parse".to_string(), "app".to_string(), Level::Info, 0, 0, 4);
    let snap = scope.snapshot().unwrap();
    assert_eq!(snap.trace_id, 0x99);
    assert_eq!(snap.span_names, vec!["request", "query", "parse"]);
}

#[test]
fn snapshot_without_open_spans_has_no_names() {
    let mut scope = TaskScope::new();
    scope.enter(ctx(0x99, 1));
    let snap = scope.snapshot().unwrap();
    assert_eq!(snap.trace_id, 0x99);
    assert!(snap.span_names.is_empty());
}

#[test]
fn record_carries_the_ambient_context() {
    let mut scope = TaskScope::new();
    let fields = vec![Attribute { key: "n".to_string(), value: AttrValue::Int(1) }];
    let r = scope.record(Level::Info, "app".to_string(), "m".to_string(), fields);
    assert_eq!(r.context(), None);
    scope.enter(ctx(4, 5));
    let r = scope.record(Level::Info, "app".to_string(), "m".to_string(), Vec::new());
    assert_eq!(r.context(), Some(ctx(4, 5)));
    assert_eq!(r.error_context(), &None);
}

#[test]
fn start_span_draws_its_identifiers() {
    let mut scope = TaskScope::new();
    let mut opened = 0;
    let mut ids = Vec::new();
    for _ in 0..16 {
        let mut fresh = TaskScope::new();
        if let Some(span) = fresh.start_span("s".to_string(), "app".to_string(), Level::Info, 0) {
            assert_ne!(span.context().trace_id(), 0);
            assert_eq!(span.context().parent_span_id(), None);
            ids.push(span.context().trace_id());
            opened += 1;
        }
    }
    assert!(opened >= 15);
    ids.sort();
    ids.dedup();
    assert!(ids.len() >= 15);
    scope.enter(ctx(0x42, 1));
    let child = scope.start_span("c".to_string(), "app".to_string(), Level::Info, 0).unwrap();
    assert_eq!(child.context().trace_id(), 0x42);
    assert_eq!(child.context().parent_span_id(), Some(1));
}
