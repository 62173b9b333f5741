use std::collections::BTreeMap;
use std::sync::Mutex;

use opentelemetry::KeyValue;
use opentelemetry::metrics::MeterProvider;
use opentelemetry_sdk::metrics::InMemoryMetricExporter;
use opentelemetry_sdk::metrics::SdkMeterProvider;
use opentelemetry_sdk::metrics::data::AggregatedMetrics;
use opentelemetry_sdk::metrics::data::Metric;
use opentelemetry_sdk::metrics::data::MetricData;
use opentelemetry_sdk::metrics::data::ResourceMetrics;
use thread_queue::metrics::CounterIncrement;
use thread_queue::metrics::OnceSlot;
use thread_queue::metrics::ProcessStart;
use thread_queue::metrics::ProcessStartLabels;
use thread_queue::metrics::global;
use thread_queue::metrics::global_statsig_settings;
use thread_queue::metrics::install_global;
use thread_queue::metrics::install_global_statsig_settings;
use thread_queue::metrics::record_process_start_once;
use thread_queue::sqlite_metrics;

const PROCESS_START_METRIC: &str = "process.start";
const ORIGINATOR_TAG: &str = "originator";

fn labels() -> ProcessStartLabels {
    ProcessStartLabels {
        metric: PROCESS_START_METRIC.to_string(),
        originator_tag: ORIGINATOR_TAG.to_string(),
    }
}

fn bounded(originator: &str) -> String {
    match originator {
        "codex_cli_rs" | "codex_vscode" => originator.to_string(),
        _ => "other".to_string(),
    }
}

fn find_metric<'a>(resource_metrics: &'a ResourceMetrics, name: &str) -> &'a Metric {
    for scope_metrics in resource_metrics.scope_metrics() {
        for metric in scope_metrics.metrics() {
            if metric.name() == name {
                return metric;
            }
        }
    }
    panic!("metric {name} missing");
}

fn counter_point(
    resource_metrics: &ResourceMetrics,
    name: &str,
) -> (BTreeMap<String, String>, u64) {
    let metric = find_metric(resource_metrics, name);
    match metric.data() {
        AggregatedMetrics::U64(MetricData::Sum(sum)) => {
            let points = sum.data_points().collect::<Vec<_>>();
            assert_eq!(points.len(), 1);
            let point = points[0];
            let attributes = point
                .attributes()
                .map(|kv| (kv.key.as_str().to_string(), kv.value.as_str().to_string()))
                .collect();
            (attributes, point.value())
        }
        _ => panic!("unexpected counter metric data"),
    }
}

#[test]
fn record_process_start_once_records_single_bounded_counter() {
    let exporter = InMemoryMetricExporter::default();
    let provider = SdkMeterProvider::builder()
        .with_periodic_exporter(exporter.clone())
        .build();
    let meter = provider.meter("codex-test");
    let count = |increment: CounterIncrement| -> Result<(), String> {
        let tags: Vec<KeyValue> = increment
            .tags
            .iter()
            .map(|(name, value)| KeyValue::new(name.clone(), value.clone()))
            .collect();
        let inc = u64::try_from(increment.inc).map_err(|err| err.to_string())?;
        meter.u64_counter(increment.metric).build().add(inc, &tags);
        Ok(())
    };
    let mut start = ProcessStart::new();

    assert_eq!(
        record_process_start_once(&mut start, &labels(), bounded, &count, "codex_cli_rs")
            .expect("recorded"),
        true
    );
    assert_eq!(
        record_process_start_once(&mut start, &labels(), bounded, &count, "codex_vscode")
            .expect("skipped"),
        false
    );

    provider.force_flush().expect("snapshot");
    let snapshot = exporter.get_finished_metrics().expect("snapshot");
    let (attributes, value) = counter_point(&snapshot[0], PROCESS_START_METRIC);

    assert_eq!(value, 1);
    assert_eq!(
        attributes,
        BTreeMap::from([(ORIGINATOR_TAG.to_string(), "codex_cli_rs".to_string())])
    );
}

#[test]
fn the_counter_gets_one_start_with_the_bounded_originator() {
    let mut start = ProcessStart::new();
    let mut seen = Vec::new();
    let recorded = record_process_start_once(
        &mut start,
        &labels(),
        bounded,
        |increment| -> Result<(), String> {
            seen.push(increment);
            Ok(())
        },
        "someone else",
    );
    assert_eq!(recorded, Ok(true));
    assert_eq!(
        seen,
        vec![CounterIncrement {
            metric: "process.start".to_string(),
            inc: 1,
            tags: vec![("originator".to_string(), "other".to_string())],
        }]
    );
}

#[test]
fn a_counter_that_fails_is_not_tried_again() {
    let mut start = ProcessStart::new();
    let first = record_process_start_once(
        &mut start,
        &labels(),
        bounded,
        |_| Err("no exporter".to_string()),
        "codex_cli_rs",
    );
    assert_eq!(first, Err("no exporter".to_string()));
    let second = record_process_start_once(
        &mut start,
        &labels(),
        |_| panic!("the originator is not looked at"),
        |_| -> Result<(), String> { panic!("the counter is not called") },
        "codex_cli_rs",
    );
    assert_eq!(second, Ok(false));
}

#[test]
fn a_shared_start_is_claimed_before_it_is_recorded() {
    let shared = Mutex::new(ProcessStart::new());
    let record = |counter: &dyn Fn() -> Result<(), String>| {
        let mut start = shared.lock().expect("not held").take();
        record_process_start_once(&mut start, &labels(), bounded, |_| counter(), "codex_cli_rs")
    };
    let first = record(&|| {
        let again = record(&|| panic!("the counter is not called"));
        assert_eq!(again, Ok(false));
        Ok(())
    });
    assert_eq!(first, Ok(true));
    assert_eq!(record(&|| panic!("the counter is not called")), Ok(false));
}

#[test]
fn the_first_client_and_the_first_settings_stay() {
    let mut metrics: OnceSlot<String> = OnceSlot::new();
    assert_eq!(global(&metrics), None);
    install_global(&mut metrics, "first".to_string());
    install_global(&mut metrics, "second".to_string());
    assert_eq!(global(&metrics), Some("first".to_string()));

    let mut settings: OnceSlot<u8> = OnceSlot::new();
    assert_eq!(global_statsig_settings(&settings), None);
    install_global_statsig_settings(&mut settings, 1);
    install_global_statsig_settings(&mut settings, 2);
    assert_eq!(global_statsig_settings(&settings), Some(1));
    assert_eq!(settings.set(3), Err(3));
    assert_eq!(settings.get(), Some(&1));
}

#[test]
fn the_database_records_through_the_client_of_the_process() {
    let mut metrics: OnceSlot<String> = OnceSlot::new();
    assert!(sqlite_metrics::global(&metrics).is_none());
    let without = sqlite_metrics::record_fallback(&metrics, "list", "missing", |metrics, caller, reason| {
        (metrics.is_some(), caller.to_string(), reason.to_string())
    });
    assert_eq!(without, (false, "list".to_string(), "missing".to_string()));

    install_global(&mut metrics, "client".to_string());
    let with = sqlite_metrics::record_fallback(&metrics, "list", "missing", |metrics, _, _| {
        metrics.map(|metrics| metrics.client.clone())
    });
    assert_eq!(with, Some("client".to_string()));
}

#[test]
fn what_goes_wrong_while_recording_is_dropped() {
    let mut metrics: OnceSlot<String> = OnceSlot::new();
    install_global(&mut metrics, "client".to_string());
    let recorder = sqlite_metrics::global(&metrics).expect("a client");
    let mut counted = Vec::new();
    recorder.counter("db.open", 2, &[("db", "state")], |client, name, inc, tags| {
        counted.push((client.clone(), name.to_string(), inc, tags.len()));
        Err("closed")
    });
    assert_eq!(
        counted,
        vec![("client".to_string(), "db.open".to_string(), 2, 1)]
    );
    let mut recorded = Vec::new();
    recorder.record_duration(
        "db.time",
        std::time::Duration::from_millis(7),
        &[],
        |_, name, duration, _| {
            recorded.push((name.to_string(), duration.as_millis()));
            Err("closed")
        },
    );
    assert_eq!(recorded, vec![("db.time".to_string(), 7)]);
}
