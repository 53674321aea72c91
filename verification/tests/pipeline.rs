use telemetry_pipeline::context::TraceContext;
use telemetry_pipeline::error::{ConfigError, InitError};
use telemetry_pipeline::event::{LogRecord, Span};
use telemetry_pipeline::exporter::{
    BatchExporter, DeliveryOutcome, DeliveryStep, ExportBatch, ExporterSettings, RetryPolicy,
};
use telemetry_pipeline::filter::FilterRule;
use telemetry_pipeline::handler::make_error;
use telemetry_pipeline::level::{Level, Threshold};
use telemetry_pipeline::pipeline::{
    format_record, format_span, Capability, Config, Layer, LayerKind, OutputStream, Pipeline,
    Reaction, DEFAULT_CAPACITY,
};
use telemetry_pipeline::registry::{
    configure_opentelemetry_layer, default_config, init_logger, Registry,
};
use telemetry_pipeline::scope::TaskScope;

const T: u128 = 0x0af7651916cd43dd8448eb211c80319c;
const T_HEX: &str = "0af7651916cd43dd8448eb211c80319c";

fn config(severity: &str) -> Config {
    Config {
        severity_filter: severity.to_string(),
        scope: None,
        endpoint: "http://localhost:4317".to_string(),
        service_identity: "svc".to_string(),
        max_batch_size: 2,
        max_batch_delay: 50,
        output_stream: OutputStream::Stderr,
    }
}

fn pipeline(severity: &str) -> Pipeline {
    Registry::new().init(config(severity)).unwrap()
}

fn exporter(max_batch_size: usize, retries: u32) -> BatchExporter {
    BatchExporter::with_checked_endpoint(
        ExporterSettings {
            endpoint: "http://collector:4317".to_string(),
            service: "svc".to_string(),
            max_batch_size,
            max_batch_delay: 50,
            capacity: 1000,
            retry: RetryPolicy { max_retries: retries, base_delay: 10 },
        },
        true,
    )
    .unwrap()
}

fn record(level: Level, target: &str, message: &str) -> LogRecord {
    LogRecord::new(level, target.to_string(), message.to_string(), Vec::new(), None)
}

fn span(level: Level, target: &str, name: &str, id: u64) -> Span {
    let c = TraceContext::new(T, id, None, true).unwrap();
    Span::new(name.to_string(), target.to_string(), level, c, 0)
}

fn names(batches: &[ExportBatch]) -> Vec<Vec<String>> {
    batches.iter().map(|b| b.spans().iter().map(|s| s.name().clone()).collect()).collect()
}

#[test]
fn init_hands_out_an_active_pipeline() {
    let mut registry = Registry::new();
    assert!(!registry.is_initialized());
    let p = registry.init(config("warn")).unwrap();
    assert!(registry.is_initialized());
    assert!(p.is_active());
    assert_eq!(p.output_stream(), OutputStream::Stderr);
    assert_eq!(p.layer_count(), 4);
    assert_eq!(p.exporter().endpoint(), "http://localhost:4317");
    assert_eq!(p.exporter().buffered_spans(), 0);
}

#[test]
fn init_fails_when_called_twice() {
    let mut registry = Registry::new();
    assert!(registry.init(config("warn")).is_ok());
    assert_eq!(registry.init(config("warn")).err(), Some(InitError::AlreadyInitialized));
    assert_eq!(registry.init(config("bogus")).err(), Some(InitError::AlreadyInitialized));
    assert!(registry.is_initialized());
}

#[test]
fn init_rejects_an_invalid_severity_filter() {
    for bad in ["loud", "warning", "6", "warn,info", "app=debug", " warn"] {
        let mut registry = Registry::new();
        assert_eq!(
            registry.init(config(bad)).err(),
            Some(InitError::Config(ConfigError::InvalidSeverityFilter)),
            "{}",
            bad
        );
        assert!(!registry.is_initialized());
    }
}

#[test]
fn init_rejects_a_malformed_endpoint() {
    let mut registry = Registry::new();
    let mut c = config("warn");
    c.endpoint = "http://local host".to_string();
    assert_eq!(
        registry.init(c).err(),
        Some(InitError::Config(ConfigError::MalformedEndpoint))
    );
    assert!(!registry.is_initialized());
}

#[test]
fn init_rejects_an_empty_batch_size() {
    let mut registry = Registry::new();
    let mut c = config("warn");
    c.max_batch_size = 0;
    assert_eq!(
        registry.init(c).err(),
        Some(InitError::Config(ConfigError::InvalidBatchSize))
    );
}

#[test]
fn the_severity_filter_is_looked_at_first() {
    let mut c = config("bogus");
    c.endpoint = String::new();
    c.max_batch_size = 0;
    assert_eq!(
        Registry::new().init(c).err(),
        Some(InitError::Config(ConfigError::InvalidSeverityFilter))
    );
}

#[test]
fn a_rejected_configuration_leaves_the_registry_free() {
    let mut registry = Registry::new();
    assert!(registry.init(config("bogus")).is_err());
    assert!(registry.init(config("info")).is_ok());
    assert!(registry.is_initialized());
}

#[test]
fn init_checked_goes_by_what_it_is_told() {
    let mut registry = Registry::new();
    assert_eq!(
        registry.init_checked(config("warn"), None, true).err(),
        Some(InitError::Config(ConfigError::InvalidSeverityFilter))
    );
    assert_eq!(
        registry.init_checked(config("warn"), Some(Threshold::Off), false).err(),
        Some(InitError::Config(ConfigError::MalformedEndpoint))
    );
    let mut p = registry
        .init_checked(config("warn"), Some(Threshold::AtLeast(Level::Error)), true)
        .unwrap();
    let scope = TaskScope::new();
    assert!(p.on_log_record(&scope, record(Level::Warn, "app", "w")).is_none());
    assert!(p.on_log_record(&scope, record(Level::Error, "app", "e")).is_some());
}

fn admitted_levels(severity: &str) -> Vec<Level> {
    let mut p = pipeline(severity);
    let scope = TaskScope::new();
    let mut out = Vec::new();
    for level in [Level::Trace, Level::Debug, Level::Info, Level::Warn, Level::Error] {
        if p.on_log_record(&scope, record(level, "app", "m")).is_some() {
            out.push(level);
        }
    }
    out
}

#[test]
fn the_severity_filter_names_the_least_level() {
    let all = vec![Level::Trace, Level::Debug, Level::Info, Level::Warn, Level::Error];
    assert_eq!(admitted_levels("trace"), all);
    assert_eq!(admitted_levels("debug"), all[1..].to_vec());
    assert_eq!(admitted_levels("info"), all[2..].to_vec());
    assert_eq!(admitted_levels("warn"), all[3..].to_vec());
    assert_eq!(admitted_levels("error"), all[4..].to_vec());
    assert_eq!(admitted_levels("off"), Vec::new());
    assert_eq!(admitted_levels("WARN"), all[3..].to_vec());
    assert_eq!(admitted_levels("Info"), all[2..].to_vec());
    assert_eq!(admitted_levels("2"), all[3..].to_vec());
    assert_eq!(admitted_levels("0"), Vec::new());
}

#[test]
fn console_lines_name_level_message_and_context() {
    let plain = record(Level::Info, "app", "hello");
    assert_eq!(format_record(&plain, None), "INFO hello");
    let c = TraceContext::new(T, 0xb7ad6b7169203331, None, true).unwrap();
    assert_eq!(
        format_record(&plain, Some(c)),
        format!("INFO hello trace_id={} span_id=b7ad6b7169203331", T_HEX)
    );
    let mut s = Span::new("work".to_string(), "app".to_string(), Level::Debug, c, 0);
    s.close(1);
    assert_eq!(
        format_span(&s),
        format!("DEBUG span work trace_id={} span_id=b7ad6b7169203331", T_HEX)
    );
}

#[test]
fn an_error_record_is_printed_and_annotated() {
    let mut p = pipeline("warn");
    let mut scope = TaskScope::new();
    scope.enter(TraceContext::new(T, 1, None, true).unwrap());
    let outer = scope.open_span("request".to_string(), "app".to_string(), Level::Info, 0, 0, 2);
    let inner = scope.open_span("query".to_string(), "app".to_string(), Level::Info, 0, 0, 3);
    assert!(outer.is_some() && inner.is_some());
    let rec = scope.record(Level::Error, "app".to_string(), "boom".to_string(), Vec::new());
    let out = p.on_log_record(&scope, rec).unwrap();
    let lines = p.drain_console();
    assert_eq!(lines.len(), 1);
    assert!(lines[0].contains("boom"));
    assert!(lines[0].contains(T_HEX));
    assert_eq!(
        lines[0],
        format!("ERROR boom trace_id={} span_id=0000000000000003", T_HEX)
    );
    let snap = out.error_context().clone().unwrap();
    assert_eq!(snap.trace_id, T);
    assert_eq!(snap.span_names, vec!["request", "query"]);
    assert_eq!(out.message(), "boom");
    assert_eq!(out.context().map(|c| c.trace_id()), Some(T));
}

#[test]
fn only_error_records_are_annotated() {
    let mut p = pipeline("trace");
    let mut scope = TaskScope::new();
    scope.enter(TraceContext::new(T, 1, None, true).unwrap());
    let out = p.on_log_record(&scope, record(Level::Warn, "app", "careful")).unwrap();
    assert_eq!(out.error_context(), &None);
    let out = p.on_log_record(&scope, record(Level::Error, "app", "bad")).unwrap();
    assert!(out.error_context().is_some());
}

#[test]
fn an_error_without_ambient_context_gets_no_snapshot() {
    let mut p = pipeline("trace");
    let scope = TaskScope::new();
    let out = p.on_log_record(&scope, record(Level::Error, "app", "bad")).unwrap();
    assert_eq!(out.error_context(), &None);
    assert_eq!(p.drain_console(), vec!["ERROR bad".to_string()]);
}

#[test]
fn a_chain_without_error_context_layer_annotates_nothing() {
    let mut p = Pipeline::new(vec![Layer::Console], OutputStream::Stdout, exporter(2, 0));
    let mut scope = TaskScope::new();
    scope.enter(TraceContext::new(T, 1, None, true).unwrap());
    let out = p.on_log_record(&scope, record(Level::Error, "app", "bad")).unwrap();
    assert_eq!(out.error_context(), &None);
    assert_eq!(p.output_stream(), OutputStream::Stdout);
}

#[test]
fn a_vetoed_record_reaches_nothing() {
    let mut p = pipeline("warn");
    let mut scope = TaskScope::new();
    scope.enter(TraceContext::new(T, 1, None, true).unwrap());
    assert!(p.on_log_record(&scope, record(Level::Info, "app", "quiet")).is_none());
    assert!(p.drain_console().is_empty());
    assert_eq!(p.exporter().buffered_spans(), 0);
}

#[test]
fn a_vetoed_span_reaches_neither_console_nor_exporter() {
    let mut p = pipeline("warn");
    let mut scope = TaskScope::new();
    let s = span(Level::Info, "app", "quiet", 1);
    p.on_span_start(&s);
    p.on_span_end(&mut scope, s, 5);
    assert!(p.drain_console().is_empty());
    assert_eq!(p.exporter().buffered_spans(), 0);
    assert_eq!(p.offered_events(), 2);
    assert_eq!(p.vetoed_events(), 2);
    assert!(p.shutdown().is_empty());
}

#[test]
fn offered_and_vetoed_events_are_counted() {
    let mut p = pipeline("warn");
    let mut scope = TaskScope::new();
    assert_eq!((p.offered_events(), p.vetoed_events()), (0, 0));
    let s = span(Level::Error, "app", "loud", 1);
    p.on_span_start(&s);
    assert_eq!((p.offered_events(), p.vetoed_events()), (1, 0));
    p.on_log_record(&scope, record(Level::Debug, "app", "d"));
    assert_eq!((p.offered_events(), p.vetoed_events()), (2, 1));
    p.on_span_end(&mut scope, s, 1);
    assert_eq!((p.offered_events(), p.vetoed_events()), (3, 1));
    p.shutdown();
    p.on_log_record(&scope, record(Level::Error, "app", "late"));
    assert_eq!((p.offered_events(), p.vetoed_events()), (3, 1));
}

#[test]
fn an_admitted_span_is_printed_and_enqueued_closed() {
    let mut p = pipeline("info");
    let mut scope = TaskScope::new();
    let s = scope
        .open_span("work".to_string(), "app".to_string(), Level::Warn, 10, T, 0x22)
        .unwrap();
    p.on_span_start(&s);
    assert!(p.drain_console().is_empty());
    assert_eq!(scope.depth(), 1);
    p.on_span_end(&mut scope, s, 30);
    assert_eq!(scope.depth(), 0);
    assert_eq!(
        p.drain_console(),
        vec![format!("WARN span work trace_id={} span_id=0000000000000022", T_HEX)]
    );
    assert_eq!(p.exporter().buffered_spans(), 1);
    let batches = p.shutdown();
    assert_eq!(batches.len(), 1);
    assert_eq!(batches[0].service(), "svc");
    let got = &batches[0].spans()[0];
    assert_eq!(got.name(), "work");
    assert_eq!(got.start(), 10);
    assert_eq!(got.end(), Some(30));
    assert!(got.is_closed());
}

#[test]
fn the_veto_holds_wherever_the_filter_stands() {
    let orders: Vec<Vec<LayerKind>> = vec![
        vec![LayerKind::Filter, LayerKind::Console, LayerKind::Export],
        vec![LayerKind::Console, LayerKind::Filter, LayerKind::Export],
        vec![LayerKind::Console, LayerKind::Export, LayerKind::ErrorContext, LayerKind::Filter],
    ];
    for order in orders {
        let layers: Vec<Layer> = order
            .iter()
            .map(|k| match k {
                LayerKind::Filter => Layer::Filter(FilterRule {
                    threshold: Threshold::AtLeast(Level::Warn),
                    scope: None,
                }),
                LayerKind::Console => Layer::Console,
                LayerKind::ErrorContext => Layer::ErrorContext,
                LayerKind::Export => Layer::Export,
            })
            .collect();
        let mut p = Pipeline::new(layers, OutputStream::Stderr, exporter(4, 0));
        let mut scope = TaskScope::new();
        p.on_span_end(&mut scope, span(Level::Debug, "app", "low", 1), 1);
        assert!(p.on_log_record(&scope, record(Level::Info, "app", "low")).is_none());
        assert!(p.drain_console().is_empty());
        assert_eq!(p.exporter().buffered_spans(), 0);
        p.on_span_end(&mut scope, span(Level::Error, "app", "high", 2), 1);
        assert!(p.on_log_record(&scope, record(Level::Warn, "app", "high")).is_some());
        assert_eq!(p.drain_console().len(), 2);
        assert_eq!(p.exporter().buffered_spans(), 1);
    }
}

#[test]
fn one_filter_of_several_is_a_veto() {
    let layers = vec![
        Layer::Filter(FilterRule { threshold: Threshold::AtLeast(Level::Trace), scope: None }),
        Layer::Console,
        Layer::Filter(FilterRule { threshold: Threshold::AtLeast(Level::Error), scope: None }),
    ];
    let mut p = Pipeline::new(layers, OutputStream::Stderr, exporter(4, 0));
    let scope = TaskScope::new();
    assert!(p.on_log_record(&scope, record(Level::Warn, "app", "w")).is_none());
    assert!(p.on_log_record(&scope, record(Level::Error, "app", "e")).is_some());
    assert_eq!(p.drain_console(), vec!["ERROR e".to_string()]);
}

#[test]
fn the_scope_of_a_filter_is_a_prefix_of_the_target() {
    let mut c = config("info");
    c.scope = Some("app::db".to_string());
    let mut p = Registry::new().init(c).unwrap();
    let mut scope = TaskScope::new();
    assert!(p.on_log_record(&scope, record(Level::Error, "app::web", "no")).is_none());
    assert!(p.on_log_record(&scope, record(Level::Error, "app", "no")).is_none());
    assert!(p.on_log_record(&scope, record(Level::Debug, "app::db", "no")).is_none());
    assert!(p.on_log_record(&scope, record(Level::Info, "app::db", "yes")).is_some());
    assert!(p.on_log_record(&scope, record(Level::Info, "app::db::pool", "yes")).is_some());
    p.on_span_end(&mut scope, span(Level::Error, "other", "no", 1), 1);
    p.on_span_end(&mut scope, span(Level::Error, "app::db", "yes", 2), 1);
    assert_eq!(p.drain_console().len(), 3);
    assert_eq!(names(&p.shutdown()), vec![vec!["yes".to_string()]]);
}

#[test]
fn a_chain_without_filter_admits_everything() {
    let mut p = Pipeline::new(
        vec![Layer::Export, Layer::Console],
        OutputStream::Stderr,
        exporter(4, 0),
    );
    let mut scope = TaskScope::new();
    assert!(p.on_log_record(&scope, record(Level::Trace, "", "t")).is_some());
    p.on_span_end(&mut scope, span(Level::Trace, "", "s", 1), 1);
    assert_eq!(p.drain_console().len(), 2);
    assert_eq!(p.exporter().buffered_spans(), 1);
}

#[test]
fn an_empty_chain_observes_and_does_nothing() {
    let mut p = Pipeline::new(Vec::new(), OutputStream::Stderr, exporter(4, 0));
    let mut scope = TaskScope::new();
    let out = p.on_log_record(&scope, record(Level::Error, "app", "e"));
    assert_eq!(out.map(|r| r.message().clone()), Some("e".to_string()));
    p.on_span_end(&mut scope, span(Level::Error, "app", "s", 1), 1);
    assert!(p.drain_console().is_empty());
    assert_eq!(p.exporter().buffered_spans(), 0);
}

#[test]
fn every_console_layer_writes_and_the_span_is_enqueued_once() {
    let mut p = Pipeline::new(
        vec![Layer::Console, Layer::Export, Layer::Console, Layer::Export],
        OutputStream::Stderr,
        exporter(4, 0),
    );
    let mut scope = TaskScope::new();
    p.on_span_end(&mut scope, span(Level::Info, "app", "s", 1), 1);
    assert_eq!(p.drain_console().len(), 2);
    assert_eq!(p.exporter().buffered_spans(), 1);
    p.on_log_record(&scope, record(Level::Info, "app", "m"));
    assert_eq!(p.drain_console(), vec!["INFO m".to_string(), "INFO m".to_string()]);
}

#[test]
fn console_lines_keep_the_order_of_emission() {
    let mut p = pipeline("info");
    let mut scope = TaskScope::new();
    let mut expected = Vec::new();
    for n in 0..50u64 {
        if n % 3 == 0 {
            p.on_span_end(&mut scope, span(Level::Info, "app", &format!("s{}", n), n + 1), n);
            expected.push(format!(
                "INFO span s{} trace_id={} span_id={:016x}",
                n,
                T_HEX,
                n + 1
            ));
        } else {
            let level = if n % 2 == 0 { Level::Debug } else { Level::Warn };
            p.on_log_record(&scope, record(level, "app", &format!("m{}", n)));
            if n % 2 != 0 {
                expected.push(format!("WARN m{}", n));
            }
        }
    }
    assert_eq!(p.drain_console(), expected);
    assert!(p.drain_console().is_empty());
}

#[test]
fn exported_spans_keep_the_order_of_emission() {
    let mut p = pipeline("info");
    let mut scope = TaskScope::new();
    for n in 1..=5u64 {
        p.on_span_end(&mut scope, span(Level::Info, "app", &format!("s{}", n), n), n);
    }
    let ready = p.take_ready(5);
    assert_eq!(
        names(&ready),
        vec![vec!["s1".to_string(), "s2".to_string()], vec!["s3".to_string(), "s4".to_string()]]
    );
    assert!(p.take_ready(54).is_empty());
    assert_eq!(names(&p.take_ready(55)), vec![vec!["s5".to_string()]]);
}

#[test]
fn shutdown_hands_out_every_buffered_batch_once() {
    let mut p = pipeline("info");
    let mut scope = TaskScope::new();
    for n in 1..=5u64 {
        p.on_span_end(&mut scope, span(Level::Info, "app", &format!("s{}", n), n), n);
    }
    let early = p.take_ready(5);
    assert_eq!(early.len(), 2);
    p.on_span_end(&mut scope, span(Level::Info, "app", "s6", 6), 6);
    p.on_span_end(&mut scope, span(Level::Info, "app", "s7", 7), 7);
    let last = p.shutdown();
    assert_eq!(
        names(&last),
        vec![vec!["s5".to_string(), "s6".to_string()], vec!["s7".to_string()]]
    );
    assert!(!p.is_active());
    assert!(p.shutdown().is_empty());
    assert!(p.take_ready(u64::MAX).is_empty());
    assert_eq!(p.exporter().buffered_spans(), 0);
}

#[test]
fn a_fake_collector_gets_every_surviving_batch_once() {
    let mut p = pipeline("info");
    let mut scope = TaskScope::new();
    let mut received: Vec<String> = Vec::new();
    let total = 2 * (DEFAULT_CAPACITY as u64 + 3) + 1;
    for n in 0..total {
        p.on_span_end(&mut scope, span(Level::Info, "app", &format!("s{}", n), n + 1), 0);
    }
    assert_eq!(p.exporter().dropped_batches(), 3);
    for batch in p.shutdown() {
        assert_eq!(p.on_outcome(0, DeliveryOutcome::Delivered), DeliveryStep::Done);
        received.extend(batch.spans().iter().map(|s| s.name().clone()));
    }
    let expected: Vec<String> = (6..total).map(|n| format!("s{}", n)).collect();
    assert_eq!(received, expected);
    assert_eq!(p.exporter().delivered_batches(), DEFAULT_CAPACITY as u64 + 1);
}

#[test]
fn events_after_shutdown_are_discarded() {
    let mut p = pipeline("trace");
    let mut scope = TaskScope::new();
    p.shutdown();
    let s = scope
        .open_span("late".to_string(), "app".to_string(), Level::Error, 0, T, 1)
        .unwrap();
    p.on_span_start(&s);
    p.on_span_end(&mut scope, s, 1);
    assert_eq!(scope.depth(), 0);
    assert!(p.on_log_record(&scope, record(Level::Error, "app", "late")).is_none());
    assert!(p.drain_console().is_empty());
    assert_eq!(p.exporter().buffered_spans(), 0);
    assert!(p.shutdown().is_empty());
}

#[test]
fn lines_written_before_shutdown_can_still_be_fetched() {
    let mut p = pipeline("trace");
    let scope = TaskScope::new();
    p.on_log_record(&scope, record(Level::Info, "app", "early"));
    p.shutdown();
    assert_eq!(p.drain_console(), vec!["INFO early".to_string()]);
}

#[test]
fn many_tasks_with_an_unreachable_collector_all_finish() {
    let tasks = 64u64;
    let mut p = Pipeline::new(
        vec![
            Layer::Filter(FilterRule { threshold: Threshold::AtLeast(Level::Info), scope: None }),
            Layer::Export,
            Layer::ErrorContext,
            Layer::Console,
        ],
        OutputStream::Stderr,
        exporter(1, 2),
    );
    let mut scopes: Vec<TaskScope> = (0..tasks).map(|_| TaskScope::new()).collect();
    let mut spans: Vec<Option<Span>> = Vec::new();
    for (n, scope) in scopes.iter_mut().enumerate() {
        let s = scope
            .open_span(format!("task{}", n), "app".to_string(), Level::Info, 0, T + n as u128, 1)
            .unwrap();
        p.on_span_start(&s);
        spans.push(Some(s));
    }
    for (n, scope) in scopes.iter().enumerate() {
        let rec =
            scope.record(Level::Error, "app".to_string(), format!("failed{}", n), Vec::new());
        let out = p.on_log_record(scope, rec).unwrap();
        let snap = out.error_context().clone().unwrap();
        assert_eq!(snap.trace_id, T + n as u128);
        assert_eq!(snap.span_names, vec![format!("task{}", n)]);
    }
    for n in (0..tasks as usize).rev() {
        let s = spans[n].take().unwrap();
        p.on_span_end(&mut scopes[n], s, 1);
        assert_eq!(scopes[n].depth(), 0);
    }
    let mut batches = p.take_ready(1);
    batches.extend(p.shutdown());
    assert_eq!(batches.len() as u64, tasks);
    let mut waited = 0u64;
    for _batch in &batches {
        let mut attempt = 0u32;
        loop {
            match p.on_outcome(attempt, DeliveryOutcome::Failed) {
                DeliveryStep::RetryAfter(delay) => {
                    waited += delay;
                    attempt += 1;
                }
                DeliveryStep::Discard => break,
                DeliveryStep::Done => unreachable!(),
            }
        }
        assert_eq!(attempt, 2);
    }
    assert_eq!(waited, tasks * (10 + 20));
    assert_eq!(p.exporter().discarded_batches(), tasks);
    assert_eq!(p.exporter().failed_attempts(), 3 * tasks);
    assert_eq!(p.exporter().delivered_batches(), 0);
    assert_eq!(p.exporter().dropped_batches(), 0);
    assert_eq!(p.drain_console().len() as u64, 2 * tasks);
}

#[test]
fn delivery_failures_never_become_events() {
    let mut p = pipeline("trace");
    p.on_outcome(0, DeliveryOutcome::Failed);
    p.on_outcome(3, DeliveryOutcome::Failed);
    assert!(p.drain_console().is_empty());
    assert_eq!(p.exporter().buffered_spans(), 0);
    assert_eq!(p.exporter().failed_attempts(), 2);
    assert_eq!(p.exporter().discarded_batches(), 1);
}

#[test]
fn init_logger_uses_the_usual_configuration() {
    let mut registry = Registry::new();
    let mut p = init_logger(&mut registry, None).unwrap();
    assert!(registry.is_initialized());
    assert_eq!(p.exporter().endpoint(), "http://localhost:4317");
    assert_eq!(p.output_stream(), OutputStream::Stderr);
    let scope = TaskScope::new();
    assert!(p.on_log_record(&scope, record(Level::Info, "app", "i")).is_none());
    assert!(p.on_log_record(&scope, record(Level::Warn, "app", "w")).is_some());
    assert_eq!(init_logger(&mut registry, None).err(), Some(InitError::AlreadyInitialized));
}

#[test]
fn init_logger_takes_the_severity_it_is_given() {
    let mut registry = Registry::new();
    assert_eq!(
        init_logger(&mut registry, Some("nonsense".to_string())).err(),
        Some(InitError::Config(ConfigError::InvalidSeverityFilter))
    );
    let mut p = init_logger(&mut registry, Some("debug".to_string())).unwrap();
    let scope = TaskScope::new();
    assert!(p.on_log_record(&scope, record(Level::Debug, "app", "d")).is_some());
    assert!(p.on_log_record(&scope, record(Level::Trace, "app", "t")).is_none());
}

#[test]
fn the_usual_configuration_is_as_documented() {
    let c = default_config(None);
    assert_eq!(c.severity_filter, "warn");
    assert_eq!(c.scope, None);
    assert_eq!(c.endpoint, "http://localhost:4317");
    assert_eq!(c.service_identity, "test");
    assert_eq!(c.max_batch_size, 512);
    assert_eq!(c.max_batch_delay, 5000);
    assert_eq!(c.output_stream, OutputStream::Stderr);
    assert_eq!(default_config(Some("info".to_string())).severity_filter, "info");
}

#[test]
fn the_export_side_is_set_up_for_its_endpoint() {
    let mut e = configure_opentelemetry_layer("http://localhost:4317").unwrap();
    assert_eq!(e.endpoint(), "http://localhost:4317");
    let c = TraceContext::new(1, 1, None, true).unwrap();
    let mut s = Span::new("s".to_string(), "app".to_string(), Level::Info, c, 0);
    s.close(1);
    e.enqueue(s, 0);
    let all = e.flush_now();
    assert_eq!(all.len(), 1);
    assert_eq!(all[0].service(), "test");
    assert_eq!(
        configure_opentelemetry_layer("not an address").err(),
        Some(ConfigError::MalformedEndpoint)
    );
}

#[test]
fn the_handler_logs_and_answers_with_a_server_error() {
    let mut p = pipeline("warn");
    let mut scope = TaskScope::new();
    scope.enter(TraceContext::new(T, 5, None, true).unwrap());
    assert_eq!(make_error(&mut p, &scope), Err(500));
    assert_eq!(
        p.drain_console(),
        vec![format!("ERROR Some error trace! trace_id={} span_id=0000000000000005", T_HEX)]
    );
}

#[test]
fn the_handler_answers_the_same_when_the_log_is_off() {
    let mut p = pipeline("off");
    let scope = TaskScope::new();
    assert_eq!(make_error(&mut p, &scope), Err(500));
    assert!(p.drain_console().is_empty());
}

#[test]
fn each_layer_asks_for_its_own_effect() {
    let all = [Capability::SpanStart, Capability::SpanEnd, Capability::LogRecord];
    for capability in all {
        for level in [Level::Trace, Level::Debug, Level::Info, Level::Warn, Level::Error] {
            let console = if capability == Capability::SpanStart {
                Reaction::Pass
            } else {
                Reaction::WriteLine
            };
            assert_eq!(Layer::Console.react(capability, level, "app"), console);
            let export =
                if capability == Capability::SpanEnd { Reaction::Enqueue } else { Reaction::Pass };
            assert_eq!(Layer::Export.react(capability, level, "app"), export);
            let annotate = if capability == Capability::LogRecord && level == Level::Error {
                Reaction::Annotate
            } else {
                Reaction::Pass
            };
            assert_eq!(Layer::ErrorContext.react(capability, level, "app"), annotate);
            let filter = Layer::Filter(FilterRule {
                threshold: Threshold::AtLeast(Level::Info),
                scope: Some("app".to_string()),
            });
            let verdict = if level.rank() >= 2 { Reaction::Pass } else { Reaction::Veto };
            assert_eq!(filter.react(capability, level, "app::db"), verdict);
            assert_eq!(filter.react(capability, level, "other"), Reaction::Veto);
        }
    }
}

#[test]
fn layers_are_told_of_spans_and_records() {
    let filter =
        Layer::Filter(FilterRule { threshold: Threshold::AtLeast(Level::Warn), scope: None });
    let mut quiet = span(Level::Info, "app", "quiet", 1);
    assert_eq!(filter.on_span_start(&quiet), Reaction::Veto);
    assert_eq!(Layer::Console.on_span_start(&quiet), Reaction::Pass);
    quiet.close(1);
    assert_eq!(filter.on_span_end(&quiet), Reaction::Veto);
    assert_eq!(Layer::Export.on_span_end(&quiet), Reaction::Enqueue);
    assert_eq!(Layer::Console.on_span_end(&quiet), Reaction::WriteLine);
    assert_eq!(Layer::ErrorContext.on_span_end(&quiet), Reaction::Pass);
    let bad = record(Level::Error, "app", "bad");
    assert_eq!(filter.on_log_record(&bad), Reaction::Pass);
    assert_eq!(Layer::ErrorContext.on_log_record(&bad), Reaction::Annotate);
    assert_eq!(Layer::Console.on_log_record(&bad), Reaction::WriteLine);
    assert_eq!(Layer::Export.on_log_record(&bad), Reaction::Pass);
    assert_eq!(Layer::ErrorContext.on_log_record(&record(Level::Warn, "app", "w")), Reaction::Pass);
    assert_eq!(filter.kind(), LayerKind::Filter);
    assert_eq!(Layer::Export.kind(), LayerKind::Export);
}

#[test]
fn a_console_layer_behind_the_export_layer_still_writes() {
    let mut p = Pipeline::new(
        vec![Layer::Export, Layer::Console],
        OutputStream::Stderr,
        exporter(4, 0),
    );
    let mut scope = TaskScope::new();
    p.on_span_end(&mut scope, span(Level::Info, "app", "s", 1), 1);
    assert_eq!(p.drain_console().len(), 1);
    assert_eq!(p.exporter().buffered_spans(), 1);
}
