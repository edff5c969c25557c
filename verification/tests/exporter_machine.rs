use geneva_exporter::column::{Column, NamedColumn, Table};
use geneva_exporter::config::{AuthConfig, Config};
use geneva_exporter::exporter::{
    Action, EncodedBatch, Event, GenevaExporter, Metrics, NackReason, Payload, Phase, SignalKind,
};
use geneva_exporter::record::{materialize, DecodeError};
use geneva_exporter::retry::RetryPolicy;

const MS: u64 = 1_000_000;

fn config() -> Config {
    Config {
        endpoint: "https://ingest.example".to_string(),
        environment: "test".to_string(),
        account: "account".to_string(),
        namespace: "namespace".to_string(),
        region: "region".to_string(),
        config_major_version: 2,
        tenant: "tenant".to_string(),
        role_name: "role".to_string(),
        role_instance: "instance".to_string(),
        auth: AuthConfig::WorkloadIdentity { msi_resource: "resource".to_string() },
        max_concurrent_uploads: 4,
        max_buffer_size: 1000,
    }
}

fn policy(max_retries: u32) -> RetryPolicy {
    RetryPolicy {
        max_retries,
        initial_interval: 100 * MS,
        max_interval: 5000 * MS,
        multiplier_milli: 2000,
        enabled: true,
    }
}

fn exporter(max_retries: u32) -> GenevaExporter {
    GenevaExporter::from_config(config(), policy(max_retries))
}

fn primary(rows: usize) -> Table {
    Table {
        row_count: rows,
        columns: vec![NamedColumn {
            name: "flags".to_string(),
            column: Column::UInt32((0..rows).map(|r| Some(r as u32)).collect()),
        }],
    }
}

fn logs(rows: usize) -> Event {
    Event::Data {
        kind: SignalKind::Logs,
        payload: Payload::Columnar {
            primary: Some(primary(rows)),
            log_attrs: None,
            resource_attrs: None,
        },
    }
}

fn batch(name: &str, size: usize) -> EncodedBatch {
    EncodedBatch { event_name: name.to_string(), data: vec![7; size] }
}

fn counters(consumed: u64, exported: u64, failed: u64) -> Metrics {
    Metrics { consumed, exported, failed }
}

/// What the host did for one signal.
struct Trace {
    uploads: Vec<usize>,
    waits: Vec<u64>,
    outcome: Option<Action>,
    last: Action,
}

/// Hands `first` to the exporter and carries out what it asks for until it
/// asks for the next message or stops. `upload` is given the batch's position
/// and the number of the call.
fn run(
    exporter: GenevaExporter,
    first: Event,
    encoded: Result<Vec<EncodedBatch>, String>,
    mut upload: impl FnMut(usize, usize) -> Result<(), String>,
) -> (GenevaExporter, Trace) {
    let mut encoded = Some(encoded);
    let mut trace =
        Trace { uploads: Vec::new(), waits: Vec::new(), outcome: None, last: Action::Continue };
    let (mut exporter, mut action) = exporter.step(first);
    loop {
        let event = match &action {
            Action::Encode(_) => Event::Encoded(encoded.take().expect("one encoding per signal")),
            Action::Upload { batch } => {
                trace.uploads.push(*batch);
                Event::Uploaded(upload(*batch, trace.uploads.len()))
            }
            Action::Wait { nanos } => {
                assert!(*nanos > 0);
                trace.waits.push(*nanos);
                Event::Waited
            }
            Action::Ack | Action::Nack(_) => Event::Delivered,
            Action::Receive | Action::Stop { .. } | Action::Report(_) | Action::Continue => {
                trace.last = action;
                return (exporter, trace);
            }
        };
        if matches!(action, Action::Ack | Action::Nack(_)) {
            assert!(trace.outcome.is_none(), "one outcome per signal");
            trace.outcome = Some(action);
        }
        let (next, answer) = exporter.step(event);
        exporter = next;
        action = answer;
    }
}

#[test]
fn new_exporter_runs_idle_with_zero_counters() {
    let exporter = exporter(3);
    assert_eq!(exporter.phase(), Phase::Running);
    assert_eq!(exporter.metrics(), counters(0, 0, 0));
    assert!(!exporter.in_flight());
    assert_eq!(exporter.policy(), policy(3));
    assert_eq!(exporter.config(), &config());
    assert_eq!(exporter.client_settings(), config().client_settings());
}

#[test]
fn signal_kinds_supported() {
    assert!(SignalKind::Logs.is_supported());
    assert!(SignalKind::Traces.is_supported());
    assert!(!SignalKind::Metrics.is_supported());
}

#[test]
fn logs_are_decoded_and_handed_to_the_encoder() {
    let table = primary(3);
    let expected = materialize(Some(&table), None, None).unwrap();
    let (exporter, action) = exporter(3).step(logs(3));
    assert_eq!(action, Action::Encode(expected));
    assert!(exporter.in_flight());
    assert_eq!(exporter.metrics(), counters(1, 0, 0));
}

#[test]
fn signal_with_all_batches_uploaded_is_acknowledged() {
    let batches = vec![batch("Log", 10), batch("Log", 20)];
    let (exporter, trace) = run(exporter(3), logs(2), Ok(batches), |_, _| Ok(()));
    assert_eq!(trace.uploads, vec![0, 1]);
    assert_eq!(trace.waits, Vec::new());
    assert_eq!(trace.outcome, Some(Action::Ack));
    assert_eq!(trace.last, Action::Receive);
    assert_eq!(exporter.metrics(), counters(1, 2, 0));
    assert_eq!(exporter.phase(), Phase::Running);
    assert!(!exporter.in_flight());
}

#[test]
fn empty_batches_are_never_uploaded() {
    let batches = vec![
        batch("a", 0),
        batch("b", 5),
        batch("c", 0),
        batch("d", 0),
        batch("e", 1),
        batch("f", 0),
    ];
    let (exporter, trace) = run(exporter(3), logs(1), Ok(batches), |_, _| Ok(()));
    assert_eq!(trace.uploads, vec![1, 4]);
    assert_eq!(trace.outcome, Some(Action::Ack));
    assert_eq!(exporter.metrics(), counters(1, 2, 0));
}

#[test]
fn empty_batches_are_skipped_after_a_failure_too() {
    let batches = vec![batch("a", 3), batch("b", 0), batch("c", 3)];
    let (_, trace) = run(exporter(1), logs(1), Ok(batches), |position, _| {
        if position == 0 {
            Err("refused".to_string())
        } else {
            Ok(())
        }
    });
    assert_eq!(trace.uploads, vec![0, 2]);
}

#[test]
fn signal_with_only_empty_batches_is_acknowledged() {
    let batches = vec![batch("a", 0), batch("b", 0)];
    let (exporter, trace) = run(exporter(3), logs(1), Ok(batches), |_, _| {
        panic!("no upload is due")
    });
    assert_eq!(trace.uploads, Vec::new());
    assert_eq!(trace.outcome, Some(Action::Ack));
    assert_eq!(exporter.metrics(), counters(1, 0, 0));
}

#[test]
fn signal_with_no_batches_is_acknowledged() {
    let (exporter, trace) = run(exporter(3), logs(0), Ok(Vec::new()), |_, _| {
        panic!("no upload is due")
    });
    assert_eq!(trace.outcome, Some(Action::Ack));
    assert_eq!(trace.last, Action::Receive);
    assert_eq!(exporter.metrics(), counters(1, 0, 0));
}

#[test]
fn failed_batch_does_not_stop_the_batches_after_it() {
    let batches = vec![batch("one", 1), batch("two", 2), batch("three", 3)];
    let (exporter, trace) = run(exporter(3), logs(1), Ok(batches), |position, call| {
        if position == 1 {
            Err(format!("refused at call {}", call))
        } else {
            Ok(())
        }
    });
    assert_eq!(trace.uploads, vec![0, 1, 1, 1, 2]);
    assert_eq!(trace.waits, vec![100 * MS, 200 * MS]);
    assert_eq!(
        trace.outcome,
        Some(Action::Nack(NackReason::Upload {
            batch: 1,
            error: "refused at call 4".to_string()
        }))
    );
    assert_eq!(trace.last, Action::Receive);
    assert_eq!(exporter.metrics(), counters(1, 2, 1));
    assert_eq!(exporter.phase(), Phase::Running);
}

#[test]
fn first_of_two_failures_is_cited() {
    let batches = vec![batch("one", 1), batch("two", 2), batch("three", 3)];
    let (exporter, trace) = run(exporter(1), logs(1), Ok(batches), |position, _| {
        if position == 0 {
            Ok(())
        } else {
            Err(format!("batch {} refused", position))
        }
    });
    assert_eq!(trace.uploads, vec![0, 1, 2]);
    assert_eq!(
        trace.outcome,
        Some(Action::Nack(NackReason::Upload { batch: 1, error: "batch 1 refused".to_string() }))
    );
    assert_eq!(exporter.metrics(), counters(1, 1, 2));
}

#[test]
fn upload_that_succeeds_on_the_fourth_attempt_waits_three_times() {
    let batches = vec![batch("Log", 9)];
    let (exporter, trace) = run(exporter(4), logs(1), Ok(batches), |_, call| {
        if call < 4 {
            Err("busy".to_string())
        } else {
            Ok(())
        }
    });
    assert_eq!(trace.uploads, vec![0, 0, 0, 0]);
    assert_eq!(trace.waits, vec![100 * MS, 200 * MS, 400 * MS]);
    assert_eq!(trace.outcome, Some(Action::Ack));
    assert_eq!(exporter.metrics(), counters(1, 1, 0));
}

#[test]
fn three_attempts_are_made_under_the_default_policy() {
    let batches = vec![batch("Log", 9)];
    let exporter = GenevaExporter::from_config(config(), RetryPolicy::default());
    let (exporter, trace) = run(exporter, logs(1), Ok(batches), |_, _| Err("down".to_string()));
    assert_eq!(trace.uploads, vec![0, 0, 0]);
    assert_eq!(trace.waits, vec![100 * MS, 200 * MS]);
    assert_eq!(
        trace.outcome,
        Some(Action::Nack(NackReason::Upload { batch: 0, error: "down".to_string() }))
    );
    assert_eq!(exporter.metrics(), counters(1, 0, 1));
}

#[test]
fn disabled_retries_make_one_attempt() {
    let batches = vec![batch("Log", 9)];
    let disabled = RetryPolicy { enabled: false, ..policy(3) };
    let exporter = GenevaExporter::from_config(config(), disabled);
    let (exporter, trace) = run(exporter, logs(1), Ok(batches), |_, _| Err("down".to_string()));
    assert_eq!(trace.uploads, vec![0]);
    assert_eq!(trace.waits, Vec::new());
    assert_eq!(
        trace.outcome,
        Some(Action::Nack(NackReason::Upload { batch: 0, error: "down".to_string() }))
    );
    assert_eq!(exporter.metrics(), counters(1, 0, 1));
}

#[test]
fn each_batch_starts_with_a_first_attempt() {
    let batches = vec![batch("one", 1), batch("two", 2)];
    let (_, trace) = run(exporter(2), logs(1), Ok(batches), |_, _| Err("down".to_string()));
    assert_eq!(trace.uploads, vec![0, 0, 1, 1]);
    assert_eq!(trace.waits, vec![100 * MS, 100 * MS]);
}

#[test]
fn zero_interval_retries_without_waiting() {
    let batches = vec![batch("Log", 9)];
    let immediate = RetryPolicy { initial_interval: 0, ..policy(3) };
    let exporter = GenevaExporter::from_config(config(), immediate);
    let (exporter, action) = exporter.step(logs(1));
    assert!(matches!(action, Action::Encode(_)));
    let (exporter, action) = exporter.step(Event::Encoded(Ok(batches)));
    assert_eq!(action, Action::Upload { batch: 0 });
    let (exporter, action) = exporter.step(Event::Uploaded(Err("down".to_string())));
    assert_eq!(action, Action::Upload { batch: 0 });
    let (exporter, action) = exporter.step(Event::Uploaded(Err("down".to_string())));
    assert_eq!(action, Action::Upload { batch: 0 });
    let (_, action) = exporter.step(Event::Uploaded(Err("still down".to_string())));
    assert_eq!(
        action,
        Action::Nack(NackReason::Upload { batch: 0, error: "still down".to_string() })
    );
}

#[test]
fn metrics_signal_is_refused_at_once() {
    let event = Event::Data {
        kind: SignalKind::Metrics,
        payload: Payload::Columnar {
            primary: Some(primary(1)),
            log_attrs: None,
            resource_attrs: None,
        },
    };
    let (exporter, action) = exporter(3).step(event);
    assert_eq!(action, Action::Nack(NackReason::UnsupportedSignal(SignalKind::Metrics)));
    assert_eq!(exporter.metrics(), counters(0, 0, 1));
    assert_eq!(exporter.phase(), Phase::Running);
    let (exporter, action) = exporter.step(Event::Delivered);
    assert_eq!(action, Action::Receive);
    assert!(!exporter.in_flight());
    assert_eq!(exporter.phase(), Phase::Running);
}

#[test]
fn payload_that_is_not_columnar_is_refused() {
    let event = Event::Data { kind: SignalKind::Logs, payload: Payload::Other };
    let (exporter, action) = exporter(3).step(event);
    assert_eq!(action, Action::Nack(NackReason::UnsupportedPayload));
    assert_eq!(exporter.metrics(), counters(1, 0, 1));
}

#[test]
fn signal_without_primary_table_is_refused() {
    let event = Event::Data {
        kind: SignalKind::Logs,
        payload: Payload::Columnar {
            primary: None,
            log_attrs: Some(primary(1)),
            resource_attrs: None,
        },
    };
    let (exporter, trace) = run(exporter(3), event, Ok(Vec::new()), |_, _| Ok(()));
    assert_eq!(
        trace.outcome,
        Some(Action::Nack(NackReason::Decode(DecodeError::NoPrimaryData)))
    );
    assert_eq!(trace.last, Action::Receive);
    assert_eq!(exporter.metrics(), counters(1, 0, 1));
    assert_eq!(exporter.phase(), Phase::Running);
}

#[test]
fn traces_without_log_table_are_refused_for_decoding() {
    let event = Event::Data {
        kind: SignalKind::Traces,
        payload: Payload::Columnar { primary: None, log_attrs: None, resource_attrs: None },
    };
    let (_, action) = exporter(3).step(event);
    assert_eq!(action, Action::Nack(NackReason::Decode(DecodeError::NoPrimaryData)));
}

#[test]
fn encoder_failure_refuses_the_signal() {
    let (exporter, trace) =
        run(exporter(3), logs(2), Err("schema mismatch".to_string()), |_, _| Ok(()));
    assert_eq!(trace.uploads, Vec::new());
    assert_eq!(
        trace.outcome,
        Some(Action::Nack(NackReason::Encode("schema mismatch".to_string())))
    );
    assert_eq!(trace.last, Action::Receive);
    assert_eq!(exporter.metrics(), counters(1, 0, 1));
    assert_eq!(exporter.phase(), Phase::Running);
}

#[test]
fn exporter_keeps_running_after_a_refused_signal() {
    let (exporter, _) = run(exporter(1), logs(1), Ok(vec![batch("Log", 1)]), |_, _| {
        Err("down".to_string())
    });
    let (exporter, trace) = run(exporter, logs(1), Ok(vec![batch("Log", 1)]), |_, _| Ok(()));
    assert_eq!(trace.outcome, Some(Action::Ack));
    assert_eq!(exporter.metrics(), counters(2, 1, 1));
}

#[test]
fn telemetry_is_reported_without_changing_anything() {
    let (exporter, _) = run(exporter(3), logs(1), Ok(vec![batch("Log", 1)]), |_, _| Ok(()));
    let (exporter, action) = exporter.step(Event::CollectTelemetry);
    assert_eq!(action, Action::Report(counters(1, 1, 0)));
    assert_eq!(exporter.metrics(), counters(1, 1, 0));
    assert_eq!(exporter.phase(), Phase::Running);
    assert!(!exporter.in_flight());
}

#[test]
fn telemetry_is_reported_while_a_signal_is_in_flight() {
    let (exporter, _) = exporter(3).step(logs(1));
    let (exporter, action) = exporter.step(Event::CollectTelemetry);
    assert_eq!(action, Action::Report(counters(1, 0, 0)));
    assert!(exporter.in_flight());
    let (_, action) = exporter.step(Event::Encoded(Ok(vec![batch("Log", 1)])));
    assert_eq!(action, Action::Upload { batch: 0 });
}

#[test]
fn shutdown_of_an_idle_exporter_stops_it() {
    let (exporter, _) = run(exporter(3), logs(1), Ok(vec![batch("Log", 1)]), |_, _| Ok(()));
    let (exporter, action) = exporter.step(Event::Shutdown { deadline: 77 });
    assert_eq!(action, Action::Stop { deadline: 77, metrics: counters(1, 1, 0) });
    assert_eq!(exporter.phase(), Phase::Stopped);
}

#[test]
fn stopped_exporter_answers_everything_with_stop() {
    let (exporter, _) = exporter(3).step(Event::Shutdown { deadline: 5 });
    let stop = Action::Stop { deadline: 5, metrics: counters(0, 0, 0) };
    let (exporter, action) = exporter.step(logs(1));
    assert_eq!(action, stop);
    let (exporter, action) = exporter.step(Event::CollectTelemetry);
    assert_eq!(action, stop);
    let (exporter, action) = exporter.step(Event::Shutdown { deadline: 9 });
    assert_eq!(action, stop);
    let (exporter, action) = exporter.step(Event::Delivered);
    assert_eq!(action, stop);
    assert_eq!(exporter.phase(), Phase::Stopped);
    assert_eq!(exporter.metrics(), counters(0, 0, 0));
}

#[test]
fn shutdown_during_retries_waits_for_the_outcome() {
    let (exporter, action) = exporter(3).step(logs(1));
    assert!(matches!(action, Action::Encode(_)));
    let (exporter, action) = exporter.step(Event::Encoded(Ok(vec![batch("Log", 4)])));
    assert_eq!(action, Action::Upload { batch: 0 });
    let (exporter, action) = exporter.step(Event::Uploaded(Err("busy".to_string())));
    assert_eq!(action, Action::Wait { nanos: 100 * MS });

    let (exporter, action) = exporter.step(Event::Shutdown { deadline: 42 });
    assert_eq!(action, Action::Continue);
    assert_eq!(exporter.phase(), Phase::Draining);
    assert!(exporter.in_flight());

    let (exporter, action) = exporter.step(Event::Waited);
    assert_eq!(action, Action::Upload { batch: 0 });
    let (exporter, action) = exporter.step(Event::Uploaded(Err("busy".to_string())));
    assert_eq!(action, Action::Wait { nanos: 200 * MS });
    let (exporter, action) = exporter.step(Event::Waited);
    assert_eq!(action, Action::Upload { batch: 0 });
    assert_eq!(exporter.phase(), Phase::Draining);
    let (exporter, action) = exporter.step(Event::Uploaded(Ok(())));
    assert_eq!(action, Action::Ack);
    assert_eq!(exporter.phase(), Phase::Draining);

    let (exporter, action) = exporter.step(Event::Delivered);
    assert_eq!(action, Action::Stop { deadline: 42, metrics: counters(1, 1, 0) });
    assert_eq!(exporter.phase(), Phase::Stopped);
    assert!(!exporter.in_flight());
}

#[test]
fn shutdown_during_a_failing_signal_stops_after_the_refusal() {
    let (exporter, _) = exporter(1).step(logs(1));
    let (exporter, _) = exporter.step(Event::Encoded(Ok(vec![batch("Log", 4)])));
    let (exporter, action) = exporter.step(Event::Shutdown { deadline: 1 });
    assert_eq!(action, Action::Continue);
    let (exporter, action) = exporter.step(Event::Uploaded(Err("down".to_string())));
    assert_eq!(
        action,
        Action::Nack(NackReason::Upload { batch: 0, error: "down".to_string() })
    );
    assert_eq!(exporter.phase(), Phase::Draining);
    let (exporter, action) = exporter.step(Event::Delivered);
    assert_eq!(action, Action::Stop { deadline: 1, metrics: counters(1, 0, 1) });
    assert_eq!(exporter.phase(), Phase::Stopped);
}

#[test]
fn second_shutdown_keeps_the_first_deadline() {
    let (exporter, _) = exporter(3).step(logs(1));
    let (exporter, _) = exporter.step(Event::Shutdown { deadline: 10 });
    let (exporter, action) = exporter.step(Event::Shutdown { deadline: 20 });
    assert_eq!(action, Action::Continue);
    let (exporter, action) = exporter.step(Event::Encoded(Ok(Vec::new())));
    assert_eq!(action, Action::Ack);
    let (_, action) = exporter.step(Event::Delivered);
    assert_eq!(action, Action::Stop { deadline: 10, metrics: counters(1, 0, 0) });
}

#[test]
fn other_messages_are_ignored() {
    let (exporter, action) = exporter(3).step(Event::Other);
    assert_eq!(action, Action::Receive);
    assert_eq!(exporter.metrics(), counters(0, 0, 0));
    let (exporter, _) = exporter.step(logs(1));
    let (exporter, action) = exporter.step(Event::Other);
    assert_eq!(action, Action::Continue);
    assert!(exporter.in_flight());
    assert_eq!(exporter.metrics(), counters(1, 0, 0));
}

#[test]
fn events_out_of_turn_change_nothing() {
    let (exporter, action) = exporter(3).step(Event::Uploaded(Ok(())));
    assert_eq!(action, Action::Receive);
    let (exporter, action) = exporter.step(Event::Encoded(Ok(vec![batch("Log", 1)])));
    assert_eq!(action, Action::Receive);
    let (exporter, action) = exporter.step(Event::Waited);
    assert_eq!(action, Action::Receive);
    let (exporter, action) = exporter.step(Event::Delivered);
    assert_eq!(action, Action::Receive);
    assert_eq!(exporter.metrics(), counters(0, 0, 0));
    assert!(!exporter.in_flight());

    let (exporter, _) = exporter.step(logs(1));
    let (exporter, action) = exporter.step(logs(5));
    assert_eq!(action, Action::Continue);
    assert_eq!(exporter.metrics(), counters(1, 0, 0));
    let (exporter, action) = exporter.step(Event::Uploaded(Ok(())));
    assert_eq!(action, Action::Continue);
    let (exporter, action) = exporter.step(Event::Waited);
    assert_eq!(action, Action::Continue);
    let (exporter, action) = exporter.step(Event::Delivered);
    assert_eq!(action, Action::Continue);
    let (_, action) = exporter.step(Event::Encoded(Ok(vec![batch("Log", 1)])));
    assert_eq!(action, Action::Upload { batch: 0 });
}

#[test]
fn upload_result_during_a_wait_is_ignored() {
    let (exporter, _) = exporter(3).step(logs(1));
    let (exporter, _) = exporter.step(Event::Encoded(Ok(vec![batch("Log", 1)])));
    let (exporter, action) = exporter.step(Event::Uploaded(Err("busy".to_string())));
    assert_eq!(action, Action::Wait { nanos: 100 * MS });
    let (exporter, action) = exporter.step(Event::Uploaded(Ok(())));
    assert_eq!(action, Action::Continue);
    assert_eq!(exporter.metrics(), counters(1, 0, 0));
    let (_, action) = exporter.step(Event::Waited);
    assert_eq!(action, Action::Upload { batch: 0 });
}
