//! The exporter's state machine.
//!
//! The exporter decides and the host acts. The host hands each thing that
//! happens to [`GenevaExporter::step`] as an [`Event`] and carries out the
//! [`Action`] it gets back: it receives messages, runs the encoder, uploads
//! batches, waits, and emits acknowledgements.

use vstd::prelude::*;
use crate::column::Table;
use crate::config::{ClientSettings, Config};
use crate::record::{materialize, owned, record_at, DecodeError, LogRecord, LogRecordView};
use crate::retry::{RetryDecision, RetryPolicy, UploadAttempt};

verus! {

/// The kind of a signal.
#[derive(Debug, Clone, Copy, PartialEq, Eq, Structural)]
pub enum SignalKind {
    /// Log records.
    Logs,
    /// Spans.
    Traces,
    /// Metric points.
    Metrics,
}

/// One transmissible unit, as the encoder produced it.
#[derive(Debug, Clone, PartialEq, Eq)]
pub struct EncodedBatch {
    /// Name of the event that the batch belongs to.
    pub event_name: String,
    /// The payload.
    pub data: Vec<u8>,
}

/// The exporter's counters.
#[derive(Debug, Clone, Copy, PartialEq, Eq, Structural)]
pub struct Metrics {
    /// Signals taken in.
    pub consumed: u64,
    /// Batches uploaded.
    pub exported: u64,
    /// Signals refused or not decoded or encoded, and batches not uploaded.
    pub failed: u64,
}

/// Where the exporter stands in its life.
#[derive(Debug, Clone, Copy, PartialEq, Eq, Structural)]
pub enum Phase {
    /// Signals are taken in.
    Running,
    /// Shutdown was requested while a signal was in flight.
    Draining,
    /// The exporter has stopped for good.
    Stopped,
}

/// What a data message carries.
#[derive(Debug, PartialEq, Eq)]
pub enum Payload {
    /// Columnar tables.
    Columnar {
        /// The table of log records.
        primary: Option<Table>,
        /// The attributes of the log records.
        log_attrs: Option<Table>,
        /// The attributes of the resources.
        resource_attrs: Option<Table>,
    },
    /// Data in any other form.
    Other,
}

/// Something that happened, told to the exporter by its host.
#[derive(Debug, PartialEq, Eq)]
pub enum Event {
    /// A signal arrived.
    Data { kind: SignalKind, payload: Payload },
    /// The encoder finished.
    Encoded(Result<Vec<EncodedBatch>, String>),
    /// An upload finished.
    Uploaded(Result<(), String>),
    /// A wait is over.
    Waited,
    /// The acknowledgement, positive or negative, was emitted.
    Delivered,
    /// The counters were asked for.
    CollectTelemetry,
    /// Shutdown was requested.
    Shutdown { deadline: u64 },
    /// Any other message.
    Other,
}

/// Why a signal is refused.
#[derive(Debug, Clone, PartialEq, Eq)]
pub enum NackReason {
    /// The exporter does not handle signals of this kind.
    UnsupportedSignal(SignalKind),
    /// The signal's data is not columnar.
    UnsupportedPayload,
    /// The tables could not be decoded.
    Decode(DecodeError),
    /// The encoder failed, with this message.
    Encode(String),
    /// The batch at position `batch` of the encoder's output could not be
    /// uploaded; `error` is what its last attempt failed with.
    Upload { batch: usize, error: String },
}

/// What the host is to do next.
#[derive(Debug, PartialEq, Eq)]
pub enum Action {
    /// Receive the next message.
    Receive,
    /// Encode these records and report the result.
    Encode(Vec<LogRecord>),
    /// Upload the batch at position `batch` of the encoder's output and report
    /// the result.
    Upload { batch: usize },
    /// Wait `nanos` nanoseconds and report that the wait is over.
    Wait { nanos: u64 },
    /// Acknowledge the signal and report that this was done.
    Ack,
    /// Refuse the signal and report that this was done.
    Nack(NackReason),
    /// Report these counters, then carry on.
    Report(Metrics),
    /// Stop, and return the deadline and the counters.
    Stop { deadline: u64, metrics: Metrics },
    /// Carry on with what is in progress.
    Continue,
}

/// An action, with the records of `Encode` as a sequence of what they hold.
pub enum ActionView {
    Receive,
    Encode(Seq<LogRecordView>),
    Upload { batch: usize },
    Wait { nanos: u64 },
    Ack,
    Nack(NackReason),
    Report(Metrics),
    Stop { deadline: u64, metrics: Metrics },
    Continue,
}

impl View for Action {
    type V = ActionView;

    open spec fn view(&self) -> ActionView {
        match *self {
            Action::Receive => ActionView::Receive,
            Action::Encode(records) => ActionView::Encode(
                Seq::new(records@.len(), |i: int| records@[i]@),
            ),
            Action::Upload { batch } => ActionView::Upload { batch },
            Action::Wait { nanos } => ActionView::Wait { nanos },
            Action::Ack => ActionView::Ack,
            Action::Nack(reason) => ActionView::Nack(reason),
            Action::Report(metrics) => ActionView::Report(metrics),
            Action::Stop { deadline, metrics } => ActionView::Stop { deadline, metrics },
            Action::Continue => ActionView::Continue,
        }
    }
}

/// A batch that could not be uploaded.
#[derive(Debug, PartialEq, Eq)]
pub struct Failure {
    /// Position of the batch in the encoder's output.
    pub batch: usize,
    /// What the batch's last attempt failed with.
    pub error: String,
}

/// The upload of one signal's batches, one after the other.
#[derive(Debug, PartialEq, Eq)]
pub struct Delivery {
    /// The encoder's output.
    pub batches: Vec<EncodedBatch>,
    /// Position of the batch that is being uploaded.
    pub current: usize,
    /// The attempt that is being made.
    pub attempt: UploadAttempt,
    /// The first batch that could not be uploaded, if there is one.
    pub first_failure: Option<Failure>,
}

/// What the exporter is waiting for.
#[derive(Debug, PartialEq, Eq)]
pub enum Stage {
    /// A message.
    Idle,
    /// The encoder's result.
    Encoding,
    /// The result of an upload.
    Uploading(Delivery),
    /// The end of a wait.
    Waiting(Delivery),
    /// The emission of an acknowledgement.
    Emitting,
}

/// Everything the exporter's decisions depend on.
#[derive(Debug, PartialEq, Eq)]
pub struct ExporterState {
    /// The retry policy of each batch.
    pub policy: RetryPolicy,
    /// Where the exporter stands in its life.
    pub phase: Phase,
    /// The deadline that the shutdown request gave; zero before any.
    pub deadline: u64,
    /// What the exporter is waiting for.
    pub stage: Stage,
    /// The counters.
    pub metrics: Metrics,
}

/// `count` plus one, at most `u64::MAX`.
pub open spec fn bump(count: u64) -> u64 {
    if count < u64::MAX {
        (count + 1) as u64
    } else {
        count
    }
}

/// Position of the first batch at or after `from` whose payload is not empty;
/// the number of batches where there is none.
pub open spec fn next_nonempty(batches: Seq<EncodedBatch>, from: int) -> int
    decreases batches.len() - from,
{
    if from < 0 || from >= batches.len() {
        batches.len() as int
    } else if batches[from].data@.len() > 0 {
        from
    } else {
        next_nonempty(batches, from + 1)
    }
}

impl SignalKind {
    /// Whether the exporter handles signals of this kind: logs and traces.
    pub open spec fn spec_is_supported(self) -> bool {
        self != SignalKind::Metrics
    }

    /// Returns whether the exporter handles signals of this kind.
    pub fn is_supported(self) -> (supported: bool)
        ensures
            supported == self.spec_is_supported(),
    {
        match self {
            SignalKind::Logs => true,
            SignalKind::Traces => true,
            SignalKind::Metrics => false,
        }
    }
}

impl Metrics {
    /// These counters after one more signal was taken in.
    pub open spec fn spec_consumed_one(self) -> Metrics {
        Metrics { consumed: bump(self.consumed), ..self }
    }

    /// These counters after one more batch was uploaded.
    pub open spec fn spec_exported_one(self) -> Metrics {
        Metrics { exported: bump(self.exported), ..self }
    }

    /// These counters after one more failure.
    pub open spec fn spec_failed_one(self) -> Metrics {
        Metrics { failed: bump(self.failed), ..self }
    }

    fn consumed_one(self) -> (metrics: Metrics)
        ensures
            metrics == self.spec_consumed_one(),
    {
        Metrics { consumed: increment(self.consumed), ..self }
    }

    fn exported_one(self) -> (metrics: Metrics)
        ensures
            metrics == self.spec_exported_one(),
    {
        Metrics { exported: increment(self.exported), ..self }
    }

    fn failed_one(self) -> (metrics: Metrics)
        ensures
            metrics == self.spec_failed_one(),
    {
        Metrics { failed: increment(self.failed), ..self }
    }
}

fn increment(count: u64) -> (next: u64)
    ensures
        next == bump(count),
{
    if count < u64::MAX {
        count + 1
    } else {
        count
    }
}

/// Returns the position of the first batch at or after `from` whose payload is
/// not empty.
fn find_nonempty(batches: &Vec<EncodedBatch>, from: usize) -> (position: usize)
    requires
        from <= batches.len(),
    ensures
        position == next_nonempty(batches@, from as int),
        from <= position <= batches.len(),
        position < batches.len() ==> batches[position as int].data@.len() > 0,
{
    let mut i: usize = from;
    while i < batches.len()
        invariant
            from <= i <= batches.len(),
            next_nonempty(batches@, from as int) == next_nonempty(batches@, i as int),
        decreases batches.len() - i,
    {
        if batches[i].data.len() > 0 {
            return i;
        }
        i += 1;
    }
    i
}

/// How a signal ends: refused for its first failure, acknowledged where there
/// is none.
pub open spec fn outcome(first_failure: Option<Failure>) -> ActionView {
    match first_failure {
        Some(failure) => ActionView::Nack(
            NackReason::Upload { batch: failure.batch, error: failure.error },
        ),
        None => ActionView::Ack,
    }
}

impl Delivery {
    /// The batch in hand exists and is not empty, the attempt in hand is one
    /// that `policy` leads to, and the first failure lies behind.
    pub open spec fn wf(self, policy: RetryPolicy) -> bool {
        &&& self.current < self.batches@.len()
        &&& self.batches@[self.current as int].data@.len() > 0
        &&& 1 <= self.attempt.number <= policy.spec_max_attempts()
        &&& self.attempt == policy.attempt(self.attempt.number)
        &&& match self.first_failure {
            Some(failure) => failure.batch < self.current,
            None => true,
        }
    }

    /// How the signal ends if no further batch fails.
    pub open spec fn outcome(self) -> ActionView {
        outcome(self.first_failure)
    }
}

impl ExporterState {
    /// A delivery in hand is well formed, a stopped exporter is idle, and a
    /// draining one is not.
    pub open spec fn wf(self) -> bool {
        &&& match self.stage {
            Stage::Uploading(delivery) => delivery.wf(self.policy),
            Stage::Waiting(delivery) => delivery.wf(self.policy),
            _ => true,
        }
        &&& self.phase is Stopped ==> self.stage is Idle
        &&& self.phase is Draining ==> !(self.stage is Idle)
    }

    /// Whether a signal is in flight: taken in, its outcome not yet delivered.
    pub open spec fn in_flight(self) -> bool {
        !(self.stage is Idle)
    }

    /// This state, draining towards `deadline`.
    pub open spec fn drain(self, deadline: u64) -> ExporterState {
        ExporterState { phase: Phase::Draining, deadline, ..self }
    }

    /// The answer to an event that changes nothing.
    pub open spec fn ignore(self) -> (ExporterState, ActionView) {
        if self.stage is Idle {
            (self, ActionView::Receive)
        } else {
            (self, ActionView::Continue)
        }
    }

    /// A signal ends with `outcome`.
    pub open spec fn emit(self, outcome: ActionView) -> (ExporterState, ActionView) {
        (ExporterState { stage: Stage::Emitting, ..self }, outcome)
    }

    /// A signal ends in a failure for `reason`.
    pub open spec fn refuse(self, reason: NackReason) -> (ExporterState, ActionView) {
        ExporterState { metrics: self.metrics.spec_failed_one(), ..self }.emit(
            ActionView::Nack(reason),
        )
    }

    /// A signal arrives. It is taken in only by an idle exporter. One of a
    /// kind that the exporter does not handle is refused at once. Any other is
    /// counted and decoded, and its records go to the encoder.
    pub open spec fn on_data(self, kind: SignalKind, payload: Payload) -> (
        ExporterState,
        ActionView,
    ) {
        if !(self.stage is Idle) {
            self.ignore()
        } else if !kind.spec_is_supported() {
            self.refuse(NackReason::UnsupportedSignal(kind))
        } else {
            let counted = ExporterState { metrics: self.metrics.spec_consumed_one(), ..self };
            match payload {
                Payload::Other => counted.refuse(NackReason::UnsupportedPayload),
                Payload::Columnar { primary: None, .. } => counted.refuse(
                    NackReason::Decode(DecodeError::NoPrimaryData),
                ),
                Payload::Columnar { primary: Some(table), log_attrs, resource_attrs } => (
                    ExporterState { stage: Stage::Encoding, ..counted },
                    ActionView::Encode(
                        Seq::new(
                            table.row_count as nat,
                            |row: int| record_at(table, log_attrs, resource_attrs, row),
                        ),
                    ),
                ),
            }
        }
    }

    /// The upload moves on to the first batch at or after `from` that is not
    /// empty, with a first attempt. Where none is left the signal ends.
    pub open spec fn upload_from(self, delivery: Delivery, from: int) -> (
        ExporterState,
        ActionView,
    ) {
        let position = next_nonempty(delivery.batches@, from);
        if position < delivery.batches@.len() {
            (
                ExporterState {
                    stage: Stage::Uploading(
                        Delivery {
                            current: position as usize,
                            attempt: self.policy.attempt(1),
                            ..delivery
                        },
                    ),
                    ..self
                },
                ActionView::Upload { batch: position as usize },
            )
        } else {
            self.emit(delivery.outcome())
        }
    }

    /// The encoder finished. A failure refuses the signal. A success starts
    /// the upload with the first batch that is not empty.
    pub open spec fn on_encoded(self, result: Result<Vec<EncodedBatch>, String>) -> (
        ExporterState,
        ActionView,
    ) {
        if !(self.stage is Encoding) {
            self.ignore()
        } else {
            match result {
                Err(message) => self.refuse(NackReason::Encode(message)),
                Ok(batches) => self.upload_from(
                    Delivery {
                        batches,
                        current: 0,
                        attempt: self.policy.attempt(1),
                        first_failure: None,
                    },
                    0,
                ),
            }
        }
    }

    /// An upload finished. A success is counted and the upload moves on. A
    /// failure is retried as the policy decides, after a wait where that is
    /// not zero. A final failure is counted and kept if it is the signal's
    /// first, and the upload moves on all the same.
    pub open spec fn on_uploaded(self, result: Result<(), String>) -> (ExporterState, ActionView) {
        match self.stage {
            Stage::Uploading(delivery) => match result {
                Ok(_) => ExporterState {
                    metrics: self.metrics.spec_exported_one(),
                    ..self
                }.upload_from(delivery, delivery.current + 1),
                Err(error) => match self.policy.spec_after_failure(delivery.attempt) {
                    RetryDecision::Retry { wait, next } => if wait == 0 {
                        (
                            ExporterState {
                                stage: Stage::Uploading(Delivery { attempt: next, ..delivery }),
                                ..self
                            },
                            ActionView::Upload { batch: delivery.current },
                        )
                    } else {
                        (
                            ExporterState {
                                stage: Stage::Waiting(Delivery { attempt: next, ..delivery }),
                                ..self
                            },
                            ActionView::Wait { nanos: wait },
                        )
                    },
                    RetryDecision::GiveUp => ExporterState {
                        metrics: self.metrics.spec_failed_one(),
                        ..self
                    }.upload_from(
                        Delivery {
                            first_failure: match delivery.first_failure {
                                Some(failure) => Some(failure),
                                None => Some(Failure { batch: delivery.current, error }),
                            },
                            ..delivery
                        },
                        delivery.current + 1,
                    ),
                },
            },
            _ => self.ignore(),
        }
    }

    /// A wait is over: the batch in hand is uploaded again.
    pub open spec fn on_waited(self) -> (ExporterState, ActionView) {
        match self.stage {
            Stage::Waiting(delivery) => (
                ExporterState { stage: Stage::Uploading(delivery), ..self },
                ActionView::Upload { batch: delivery.current },
            ),
            _ => self.ignore(),
        }
    }

    /// The outcome was emitted: a draining exporter stops, a running one
    /// receives the next message.
    pub open spec fn on_delivered(self) -> (ExporterState, ActionView) {
        if !(self.stage is Emitting) {
            self.ignore()
        } else if self.phase is Draining {
            (
                ExporterState { phase: Phase::Stopped, stage: Stage::Idle, ..self },
                ActionView::Stop { deadline: self.deadline, metrics: self.metrics },
            )
        } else {
            (ExporterState { stage: Stage::Idle, ..self }, ActionView::Receive)
        }
    }

    /// Shutdown is requested: an idle exporter stops at once, one with a
    /// signal in flight keeps the deadline and drains.
    pub open spec fn on_shutdown(self, deadline: u64) -> (ExporterState, ActionView) {
        if !(self.phase is Running) {
            self.ignore()
        } else if self.stage is Idle {
            (
                ExporterState { phase: Phase::Stopped, deadline, ..self },
                ActionView::Stop { deadline, metrics: self.metrics },
            )
        } else {
            (self.drain(deadline), ActionView::Continue)
        }
    }

    /// The state that follows `event`, and the action that answers it.
    pub open spec fn spec_step(self, event: Event) -> (ExporterState, ActionView) {
        if self.phase is Stopped {
            (self, ActionView::Stop { deadline: self.deadline, metrics: self.metrics })
        } else {
            match event {
                Event::Data { kind, payload } => self.on_data(kind, payload),
                Event::Encoded(result) => self.on_encoded(result),
                Event::Uploaded(result) => self.on_uploaded(result),
                Event::Waited => self.on_waited(),
                Event::Delivered => self.on_delivered(),
                Event::CollectTelemetry => (self, ActionView::Report(self.metrics)),
                Event::Shutdown { deadline } => self.on_shutdown(deadline),
                Event::Other => self.ignore(),
            }
        }
    }

    fn ignored(self) -> (reaction: (ExporterState, Action))
        ensures
            reaction.0 == self.ignore().0,
            reaction.1@ == self.ignore().1,
    {
        let action = match self.stage {
            Stage::Idle => Action::Receive,
            _ => Action::Continue,
        };
        (self, action)
    }

    fn refused(self, reason: NackReason) -> (reaction: (ExporterState, Action))
        ensures
            reaction.0 == self.refuse(reason).0,
            reaction.1@ == self.refuse(reason).1,
    {
        (
            ExporterState {
                policy: self.policy,
                phase: self.phase,
                deadline: self.deadline,
                stage: Stage::Emitting,
                metrics: self.metrics.failed_one(),
            },
            Action::Nack(reason),
        )
    }

    fn data(self, kind: SignalKind, payload: Payload) -> (reaction: (ExporterState, Action))
        ensures
            reaction.0 == self.on_data(kind, payload).0,
            reaction.1@ == self.on_data(kind, payload).1,
    {
        match self.stage {
            Stage::Idle => {},
            _ => { return self.ignored(); },
        }
        if !kind.is_supported() {
            return self.refused(NackReason::UnsupportedSignal(kind));
        }
        let counted = ExporterState {
            policy: self.policy,
            phase: self.phase,
            deadline: self.deadline,
            stage: self.stage,
            metrics: self.metrics.consumed_one(),
        };
        match payload {
            Payload::Other => counted.refused(NackReason::UnsupportedPayload),
            Payload::Columnar { primary, log_attrs, resource_attrs } => {
                let logs = log_attrs.as_ref();
                let resources = resource_attrs.as_ref();
                match materialize(primary.as_ref(), logs, resources) {
                    Ok(records) => {
                        proof {
                            assert(owned(logs) == log_attrs);
                            assert(owned(resources) == resource_attrs);
                            let table = primary->Some_0;
                            assert(Seq::new(records@.len(), |i: int| records@[i]@) =~= Seq::new(
                                table.row_count as nat,
                                |row: int| record_at(table, log_attrs, resource_attrs, row),
                            ));
                        }
                        (
                            ExporterState {
                                policy: counted.policy,
                                phase: counted.phase,
                                deadline: counted.deadline,
                                stage: Stage::Encoding,
                                metrics: counted.metrics,
                            },
                            Action::Encode(records),
                        )
                    },
                    Err(error) => counted.refused(NackReason::Decode(error)),
                }
            },
        }
    }

    fn uploading_from(self, delivery: Delivery, from: usize) -> (reaction: (ExporterState, Action))
        requires
            from <= delivery.batches@.len(),
        ensures
            reaction.0 == self.upload_from(delivery, from as int).0,
            reaction.1@ == self.upload_from(delivery, from as int).1,
    {
        let position = find_nonempty(&delivery.batches, from);
        if position < delivery.batches.len() {
            (
                ExporterState {
                    policy: self.policy,
                    phase: self.phase,
                    deadline: self.deadline,
                    stage: Stage::Uploading(
                        Delivery {
                            batches: delivery.batches,
                            current: position,
                            attempt: self.policy.first_attempt(),
                            first_failure: delivery.first_failure,
                        },
                    ),
                    metrics: self.metrics,
                },
                Action::Upload { batch: position },
            )
        } else {
            let outcome = match delivery.first_failure {
                Some(failure) => Action::Nack(
                    NackReason::Upload { batch: failure.batch, error: failure.error },
                ),
                None => Action::Ack,
            };
            (
                ExporterState {
                    policy: self.policy,
                    phase: self.phase,
                    deadline: self.deadline,
                    stage: Stage::Emitting,
                    metrics: self.metrics,
                },
                outcome,
            )
        }
    }

    fn encoded(self, result: Result<Vec<EncodedBatch>, String>) -> (reaction: (
        ExporterState,
        Action,
    ))
        ensures
            reaction.0 == self.on_encoded(result).0,
            reaction.1@ == self.on_encoded(result).1,
    {
        match self.stage {
            Stage::Encoding => {},
            _ => { return self.ignored(); },
        }
        match result {
            Err(message) => self.refused(NackReason::Encode(message)),
            Ok(batches) => {
                let attempt = self.policy.first_attempt();
                self.uploading_from(
                    Delivery { batches, current: 0, attempt, first_failure: None },
                    0,
                )
            },
        }
    }

    fn uploaded(self, result: Result<(), String>) -> (reaction: (ExporterState, Action))
        requires
            self.wf(),
        ensures
            reaction.0 == self.on_uploaded(result).0,
            reaction.1@ == self.on_uploaded(result).1,
    {
        let ExporterState { policy, phase, deadline, stage, metrics } = self;
        let delivery = match stage {
            Stage::Uploading(delivery) => delivery,
            other => {
                return (ExporterState { policy, phase, deadline, stage: other, metrics }).ignored();
            },
        };
        assert(delivery.wf(policy));
        assert(delivery.current < delivery.batches.len());
        match result {
            Ok(_) => {
                let from = delivery.current + 1;
                (ExporterState {
                    policy,
                    phase,
                    deadline,
                    stage: Stage::Idle,
                    metrics: metrics.exported_one(),
                }).uploading_from(delivery, from)
            },
            Err(error) => match policy.after_failure(delivery.attempt) {
                RetryDecision::Retry { wait, next } => {
                    let batch = delivery.current;
                    let retried = Delivery {
                        batches: delivery.batches,
                        current: delivery.current,
                        attempt: next,
                        first_failure: delivery.first_failure,
                    };
                    if wait == 0 {
                        (
                            ExporterState {
                                policy,
                                phase,
                                deadline,
                                stage: Stage::Uploading(retried),
                                metrics,
                            },
                            Action::Upload { batch },
                        )
                    } else {
                        (
                            ExporterState {
                                policy,
                                phase,
                                deadline,
                                stage: Stage::Waiting(retried),
                                metrics,
                            },
                            Action::Wait { nanos: wait },
                        )
                    }
                },
                RetryDecision::GiveUp => {
                    let from = delivery.current + 1;
                    let first_failure = match delivery.first_failure {
                        Some(failure) => Some(failure),
                        None => Some(Failure { batch: delivery.current, error }),
                    };
                    (ExporterState {
                        policy,
                        phase,
                        deadline,
                        stage: Stage::Idle,
                        metrics: metrics.failed_one(),
                    }).uploading_from(
                        Delivery {
                            batches: delivery.batches,
                            current: delivery.current,
                            attempt: delivery.attempt,
                            first_failure,
                        },
                        from,
                    )
                },
            },
        }
    }

    fn waited(self) -> (reaction: (ExporterState, Action))
        ensures
            reaction.0 == self.on_waited().0,
            reaction.1@ == self.on_waited().1,
    {
        let ExporterState { policy, phase, deadline, stage, metrics } = self;
        match stage {
            Stage::Waiting(delivery) => {
                let batch = delivery.current;
                (
                    ExporterState {
                        policy,
                        phase,
                        deadline,
                        stage: Stage::Uploading(delivery),
                        metrics,
                    },
                    Action::Upload { batch },
                )
            },
            other => (ExporterState { policy, phase, deadline, stage: other, metrics }).ignored(),
        }
    }

    fn delivered(self) -> (reaction: (ExporterState, Action))
        ensures
            reaction.0 == self.on_delivered().0,
            reaction.1@ == self.on_delivered().1,
    {
        match self.stage {
            Stage::Emitting => {},
            _ => { return self.ignored(); },
        }
        match self.phase {
            Phase::Draining => (
                ExporterState {
                    policy: self.policy,
                    phase: Phase::Stopped,
                    deadline: self.deadline,
                    stage: Stage::Idle,
                    metrics: self.metrics,
                },
                Action::Stop { deadline: self.deadline, metrics: self.metrics },
            ),
            _ => (
                ExporterState {
                    policy: self.policy,
                    phase: self.phase,
                    deadline: self.deadline,
                    stage: Stage::Idle,
                    metrics: self.metrics,
                },
                Action::Receive,
            ),
        }
    }

    fn shutdown(self, deadline: u64) -> (reaction: (ExporterState, Action))
        ensures
            reaction.0 == self.on_shutdown(deadline).0,
            reaction.1@ == self.on_shutdown(deadline).1,
    {
        match self.phase {
            Phase::Running => {},
            _ => { return self.ignored(); },
        }
        let metrics = self.metrics;
        match self.stage {
            Stage::Idle => (
                ExporterState {
                    policy: self.policy,
                    phase: Phase::Stopped,
                    deadline,
                    stage: Stage::Idle,
                    metrics,
                },
                Action::Stop { deadline, metrics },
            ),
            stage => (
                ExporterState {
                    policy: self.policy,
                    phase: Phase::Draining,
                    deadline,
                    stage,
                    metrics,
                },
                Action::Continue,
            ),
        }
    }

    /// Returns the state that follows `event`, and the action that answers it.
    fn step(self, event: Event) -> (reaction: (ExporterState, Action))
        requires
            self.wf(),
        ensures
            reaction.0 == self.spec_step(event).0,
            reaction.1@ == self.spec_step(event).1,
    {
        match self.phase {
            Phase::Stopped => {
                let action = Action::Stop { deadline: self.deadline, metrics: self.metrics };
                return (self, action);
            },
            _ => {},
        }
        match event {
            Event::Data { kind, payload } => self.data(kind, payload),
            Event::Encoded(result) => self.encoded(result),
            Event::Uploaded(result) => self.uploaded(result),
            Event::Waited => self.waited(),
            Event::Delivered => self.delivered(),
            Event::CollectTelemetry => {
                let action = Action::Report(self.metrics);
                (self, action)
            },
            Event::Shutdown { deadline } => self.shutdown(deadline),
            Event::Other => self.ignored(),
        }
    }
    /// The state of an exporter that has handled nothing yet.
    pub open spec fn initial(policy: RetryPolicy) -> ExporterState {
        ExporterState {
            policy,
            phase: Phase::Running,
            deadline: 0,
            stage: Stage::Idle,
            metrics: Metrics { consumed: 0, exported: 0, failed: 0 },
        }
    }
}

/// An exporter node: its configuration and the state of its decisions.
#[derive(Debug, PartialEq, Eq)]
pub struct GenevaExporter {
    config: Config,
    state: ExporterState,
}

impl GenevaExporter {
    #[verifier::type_invariant]
    spec fn well_formed(self) -> bool {
        self.state.wf()
    }

    /// The configuration that the exporter was made from.
    pub closed spec fn spec_config(self) -> Config {
        self.config
    }

    /// The state of the exporter's decisions.
    pub closed spec fn state(self) -> ExporterState {
        self.state
    }

    /// Creates a running, idle exporter with all counters at zero.
    pub fn from_config(config: Config, policy: RetryPolicy) -> (exporter: GenevaExporter)
        ensures
            exporter.spec_config() == config,
            exporter.state() == ExporterState::initial(policy),
    {
        GenevaExporter {
            config,
            state: ExporterState {
                policy,
                phase: Phase::Running,
                deadline: 0,
                stage: Stage::Idle,
                metrics: Metrics { consumed: 0, exported: 0, failed: 0 },
            },
        }
    }

    /// Handles `event`: returns the exporter in the state that follows, and
    /// the action that the host is to carry out next.
    pub fn step(self, event: Event) -> (reaction: (GenevaExporter, Action))
        ensures
            reaction.0.spec_config() == self.spec_config(),
            reaction.0.state() == self.state().spec_step(event).0,
            reaction.1@ == self.state().spec_step(event).1,
            self.state().wf(),
            reaction.0.state().wf(),
    {
        proof {
            use_type_invariant(&self);
            lemma_step_keeps_well_formed(self.state, event);
        }
        let GenevaExporter { config, state } = self;
        let (state, action) = state.step(event);
        (GenevaExporter { config, state }, action)
    }

    /// Returns the configuration that the exporter was made from.
    pub fn config(&self) -> (config: &Config)
        ensures
            *config == self.spec_config(),
    {
        &self.config
    }

    /// Returns the settings of the client that serves this exporter.
    pub fn client_settings(&self) -> (settings: ClientSettings)
        ensures
            settings == self.spec_config().spec_client_settings(),
    {
        self.config.client_settings()
    }

    /// Returns the retry policy of each batch.
    pub fn policy(&self) -> (policy: RetryPolicy)
        ensures
            policy == self.state().policy,
    {
        self.state.policy
    }

    /// Returns where the exporter stands in its life.
    pub fn phase(&self) -> (phase: Phase)
        ensures
            phase == self.state().phase,
    {
        self.state.phase
    }

    /// Returns the counters.
    pub fn metrics(&self) -> (metrics: Metrics)
        ensures
            metrics == self.state().metrics,
    {
        self.state.metrics
    }

    /// Returns whether a signal is in flight.
    pub fn in_flight(&self) -> (busy: bool)
        ensures
            busy == self.state().in_flight(),
    {
        match self.state.stage {
            Stage::Idle => false,
            _ => true,
        }
    }
}

/// The position that `next_nonempty` finds lies at or after `from`, holds a
/// batch that is not empty unless it is past the last one, and passes over
/// empty batches only.
pub proof fn lemma_next_nonempty(batches: Seq<EncodedBatch>, from: int)
    requires
        0 <= from <= batches.len(),
    ensures
        from <= next_nonempty(batches, from) <= batches.len(),
        next_nonempty(batches, from) < batches.len() ==> batches[next_nonempty(
            batches,
            from,
        )].data@.len() > 0,
        forall|i: int|
            from <= i < next_nonempty(batches, from) ==> (#[trigger] batches[i]).data@.len() == 0,
    decreases batches.len() - from,
{
    if from < batches.len() && batches[from].data@.len() == 0 {
        lemma_next_nonempty(batches, from + 1);
    }
}

/// Every step leads from a well-formed state to a well-formed state.
pub proof fn lemma_step_keeps_well_formed(state: ExporterState, event: Event)
    requires
        state.wf(),
    ensures
        state.spec_step(event).0.wf(),
{
    if !(state.phase is Stopped) {
        match event {
            Event::Encoded(Ok(batches)) => {
                assert(batches.len() == batches@.len());
                lemma_next_nonempty(batches@, 0);
            },
            Event::Uploaded(result) => {
                match state.stage {
                    Stage::Uploading(delivery) => {
                        assert(delivery.batches.len() == delivery.batches@.len());
                        lemma_next_nonempty(delivery.batches@, delivery.current + 1);
                        crate::retry::lemma_attempts_follow_backoff(
                            state.policy,
                            delivery.attempt.number,
                        );
                    },
                    _ => {},
                }
            },
            _ => {},
        }
    }
}

/// The exporter never asks for the upload of an empty batch: the batch that
/// an `Upload` names is the one in hand, it is among the encoder's output, and
/// its payload is not empty.
pub proof fn lemma_uploads_are_not_empty(state: ExporterState, event: Event)
    requires
        state.wf(),
    ensures
        match state.spec_step(event) {
            (next, ActionView::Upload { batch }) => match next.stage {
                Stage::Uploading(delivery) => {
                    &&& delivery.current == batch
                    &&& batch < delivery.batches@.len()
                    &&& delivery.batches@[batch as int].data@.len() > 0
                },
                _ => false,
            },
            _ => true,
        },
{
    lemma_step_keeps_well_formed(state, event);
}

/// A shutdown request that arrives while a signal is in flight stops nothing:
/// the exporter keeps the deadline, drains, and carries on with the signal
/// where it stood.
pub proof fn lemma_shutdown_waits_for_outcome(state: ExporterState, deadline: u64)
    requires
        state.wf(),
        state.phase is Running,
        state.in_flight(),
    ensures
        state.spec_step(Event::Shutdown { deadline }).0 == state.drain(deadline),
        state.spec_step(Event::Shutdown { deadline }).1 == ActionView::Continue,
{
}

/// A draining exporter handles what happens to the signal in flight as a
/// running one does.
pub proof fn lemma_draining_carries_on(state: ExporterState, deadline: u64, event: Event)
    requires
        state.wf(),
        state.phase is Running,
        state.in_flight(),
        !(event is Shutdown),
        !(event is Delivered),
    ensures
        state.drain(deadline).spec_step(event).0 == state.spec_step(event).0.drain(deadline),
        state.drain(deadline).spec_step(event).1 == state.spec_step(event).1,
{
}

/// An exporter stops only when it is idle and shutdown is requested, or when
/// it is draining and the outcome of the signal in flight was emitted.
pub proof fn lemma_stop_follows_outcome(state: ExporterState, event: Event)
    requires
        state.wf(),
        !(state.phase is Stopped),
        (state.spec_step(event).1 is Stop),
    ensures
        (!state.in_flight() && (event is Shutdown)) || ((state.phase is Draining)
            && (state.stage is Emitting) && (event is Delivered)),
        (state.spec_step(event).0.phase is Stopped),
        state.spec_step(event).1 == (ActionView::Stop {
            deadline: state.spec_step(event).0.deadline,
            metrics: state.metrics,
        }),
{
}

/// A signal's outcome is emitted once: the step that answers with `Ack` or
/// `Nack` leaves the exporter waiting for the emission, and an exporter that
/// waits for it answers with neither.
pub proof fn lemma_outcome_is_emitted_once(state: ExporterState, event: Event)
    requires
        state.wf(),
    ensures
        state.spec_step(event).1 is Ack || state.spec_step(event).1 is Nack ==> !(state.stage
            is Emitting) && state.spec_step(event).0.stage is Emitting,
{
}

/// One signal is handled at a time: an exporter with a signal in flight takes
/// no other in, and the host is asked for the next message only by an
/// exporter that is idle.
pub proof fn lemma_one_signal_at_a_time(state: ExporterState, event: Event)
    requires
        state.wf(),
    ensures
        state.in_flight() && (event is Data) ==> state.spec_step(event).0 == state,
        (state.spec_step(event).1 is Receive) ==> !state.spec_step(event).0.in_flight(),
{
}

/// A batch's final failure does not end the upload. The failure is counted,
/// the first failure of the signal is kept, and the next batch that is not
/// empty is uploaded; after the last one the signal is refused for its first
/// failure.
pub proof fn lemma_failure_moves_on(state: ExporterState, error: String)
    requires
        state.wf(),
        state.stage is Uploading,
        state.policy.spec_after_failure(state.stage->Uploading_0.attempt) is GiveUp,
    ensures
        ({
            let delivery = state.stage->Uploading_0;
            let (next, action) = state.spec_step(Event::Uploaded(Err(error)));
            let position = next_nonempty(delivery.batches@, delivery.current + 1);
            let first = match delivery.first_failure {
                Some(failure) => failure,
                None => Failure { batch: delivery.current, error },
            };
            &&& next.metrics == state.metrics.spec_failed_one()
            &&& position < delivery.batches@.len() ==> {
                &&& action == ActionView::Upload { batch: position as usize }
                &&& next.stage is Uploading
                &&& next.stage->Uploading_0.first_failure == Some(first)
                &&& next.stage->Uploading_0.batches == delivery.batches
            }
            &&& position >= delivery.batches@.len() ==> {
                &&& action == ActionView::Nack(
                    NackReason::Upload { batch: first.batch, error: first.error },
                )
                &&& next.stage is Emitting
            }
        }),
{
}

/// A signal whose batches were all uploaded, the empty ones left out, is
/// acknowledged; one with a failure is refused.
pub proof fn lemma_last_success_ends_signal(state: ExporterState)
    requires
        state.wf(),
        state.stage is Uploading,
        next_nonempty(
            state.stage->Uploading_0.batches@,
            state.stage->Uploading_0.current + 1,
        ) >= state.stage->Uploading_0.batches@.len(),
    ensures
        state.spec_step(Event::Uploaded(Ok(()))).1 == state.stage->Uploading_0.outcome(),
        state.stage->Uploading_0.first_failure is None ==> state.spec_step(
            Event::Uploaded(Ok(())),
        ).1 == ActionView::Ack,
{
}

/// No counter ever falls.
pub proof fn lemma_counters_never_fall(state: ExporterState, event: Event)
    ensures
        state.metrics.consumed <= state.spec_step(event).0.metrics.consumed,
        state.metrics.exported <= state.spec_step(event).0.metrics.exported,
        state.metrics.failed <= state.spec_step(event).0.metrics.failed,
{
}

} // verus!
