//! The delivery of one signal's batches, seen whole.
//!
//! [`plan`] says directly which uploads and waits a signal's batches call for
//! and how the signal ends, given what the uploader answers to each attempt.
//! [`answers`] is what the exporter answers step by step when its host reports
//! each upload as the uploader answers it. The two agree.

use vstd::prelude::*;
use crate::exporter::{
    lemma_draining_carries_on, lemma_next_nonempty, lemma_step_keeps_well_formed, next_nonempty,
    outcome, ActionView, EncodedBatch, Event, ExporterState, Failure, Stage,
};
use crate::retry::{lemma_attempts_follow_backoff, RetryPolicy};

verus! {

/// Batches that the delivery in hand has not finished.
pub open spec fn batches_left(state: ExporterState) -> int {
    match state.stage {
        Stage::Uploading(delivery) => delivery.batches@.len() - delivery.current,
        Stage::Waiting(delivery) => delivery.batches@.len() - delivery.current,
        _ => 0,
    }
}

/// Attempts that the batch in hand has left after the one in hand.
pub open spec fn attempts_left(state: ExporterState) -> int {
    match state.stage {
        Stage::Uploading(delivery) => state.policy.spec_max_attempts() - delivery.attempt.number,
        Stage::Waiting(delivery) => state.policy.spec_max_attempts() - delivery.attempt.number,
        _ => 0,
    }
}

/// One while the exporter waits before an attempt, zero otherwise.
pub open spec fn waits_left(state: ExporterState) -> int {
    if state.stage is Waiting {
        1
    } else {
        0
    }
}

/// What the host reports next to an exporter that uploads or waits: the
/// uploader's answer to the attempt in hand, or the end of the wait.
pub open spec fn report(
    state: ExporterState,
    uploader: spec_fn(usize, u32) -> Result<(), String>,
) -> Event {
    match state.stage {
        Stage::Uploading(delivery) => Event::Uploaded(
            uploader(delivery.current, delivery.attempt.number),
        ),
        _ => Event::Waited,
    }
}

/// The actions that the exporter answers with from `state` on, up to the
/// outcome of the signal in hand, while its host reports each upload as
/// `uploader` answers it, by batch position and attempt number.
pub open spec fn answers(
    state: ExporterState,
    uploader: spec_fn(usize, u32) -> Result<(), String>,
) -> Seq<ActionView>
    decreases batches_left(state), attempts_left(state), waits_left(state),
    when state.wf()
    via answers_end
{
    if state.stage is Uploading || state.stage is Waiting {
        let (next, action) = state.spec_step(report(state, uploader));
        seq![action] + answers(next, uploader)
    } else {
        Seq::empty()
    }
}

/// Every report brings the delivery nearer to its end.
pub proof fn lemma_delivery_advances(
    state: ExporterState,
    uploader: spec_fn(usize, u32) -> Result<(), String>,
)
    requires
        state.wf(),
        state.stage is Uploading || state.stage is Waiting,
    ensures
        ({
            let next = state.spec_step(report(state, uploader)).0;
            &&& next.wf()
            &&& batches_left(next) >= 0
            &&& attempts_left(next) >= 0 || batches_left(next) < batches_left(state)
            &&& batches_left(next) < batches_left(state) || (batches_left(next) == batches_left(
                state,
            ) && (attempts_left(next) < attempts_left(state) || (attempts_left(next)
                == attempts_left(state) && waits_left(next) < waits_left(state))))
        }),
{
    lemma_step_keeps_well_formed(state, report(state, uploader));
    match state.stage {
        Stage::Uploading(delivery) => {
            assert(delivery.batches.len() == delivery.batches@.len());
            lemma_next_nonempty(delivery.batches@, delivery.current + 1);
        },
        _ => {},
    }
}

#[via_fn]
proof fn answers_end(state: ExporterState, uploader: spec_fn(usize, u32) -> Result<(), String>) {
    if state.stage is Uploading || state.stage is Waiting {
        lemma_delivery_advances(state, uploader);
    }
}

/// What follows the upload of the batch at `batch` in its attempt `number`.
///
/// After a success the next batch has its turn. After a failure that leaves
/// an attempt, the wait of the policy follows, unless it is zero, and then
/// the next attempt. After a failure that leaves none, the next batch has its
/// turn, and the failure is kept if it is the signal's first.
pub open spec fn plan_after(
    policy: RetryPolicy,
    uploader: spec_fn(usize, u32) -> Result<(), String>,
    batches: Seq<EncodedBatch>,
    batch: int,
    number: u32,
    first: Option<Failure>,
) -> Seq<ActionView>
    decreases batches.len() - batch, policy.spec_max_attempts() - number,
{
    if batch < 0 || batch >= batches.len() {
        Seq::empty()
    } else {
        match uploader(batch as usize, number) {
            Ok(_) => plan(policy, uploader, batches, batch + 1, first),
            Err(error) => if number >= policy.spec_max_attempts() {
                plan(
                    policy,
                    uploader,
                    batches,
                    batch + 1,
                    match first {
                        Some(failure) => Some(failure),
                        None => Some(Failure { batch: batch as usize, error }),
                    },
                )
            } else {
                let again = seq![ActionView::Upload { batch: batch as usize }] + plan_after(
                    policy,
                    uploader,
                    batches,
                    batch,
                    (number + 1) as u32,
                    first,
                );
                if policy.backoff(number as nat) == 0 {
                    again
                } else {
                    seq![ActionView::Wait { nanos: policy.backoff(number as nat) }] + again
                }
            },
        }
    }
}

/// The uploads and waits that the batches from `from` on call for, one batch
/// after the other, and the outcome of the signal at their end.
///
/// An empty batch is passed over. Every other batch is uploaded, in a first
/// attempt, and what follows is as `plan_after` says.
pub open spec fn plan(
    policy: RetryPolicy,
    uploader: spec_fn(usize, u32) -> Result<(), String>,
    batches: Seq<EncodedBatch>,
    from: int,
    first: Option<Failure>,
) -> Seq<ActionView>
    decreases batches.len() - from, policy.spec_max_attempts() + 1,
{
    if from < 0 || from >= batches.len() {
        seq![outcome(first)]
    } else if batches[from].data@.len() == 0 {
        plan(policy, uploader, batches, from + 1, first)
    } else {
        seq![ActionView::Upload { batch: from as usize }] + plan_after(
            policy,
            uploader,
            batches,
            from,
            1,
            first,
        )
    }
}

/// The plan from `from` on is the plan from the next batch on that is not
/// empty.
pub proof fn lemma_plan_passes_over_empty_batches(
    policy: RetryPolicy,
    uploader: spec_fn(usize, u32) -> Result<(), String>,
    batches: Seq<EncodedBatch>,
    from: int,
    first: Option<Failure>,
)
    requires
        0 <= from <= batches.len(),
    ensures
        plan(policy, uploader, batches, from, first) == plan(
            policy,
            uploader,
            batches,
            next_nonempty(batches, from),
            first,
        ),
    decreases batches.len() - from,
{
    if from < batches.len() && batches[from].data@.len() == 0 {
        lemma_plan_passes_over_empty_batches(policy, uploader, batches, from + 1, first);
    }
}

/// An exporter that uploads answers as the plan says, from the result of the
/// attempt in hand up to the outcome of the signal. An exporter that waits
/// answers with the upload that it waits for, and then as the plan says.
pub proof fn lemma_exporter_follows_plan(
    state: ExporterState,
    uploader: spec_fn(usize, u32) -> Result<(), String>,
)
    requires
        state.wf(),
        state.stage is Uploading || state.stage is Waiting,
    ensures
        match state.stage {
            Stage::Uploading(delivery) => answers(state, uploader) == plan_after(
                state.policy,
                uploader,
                delivery.batches@,
                delivery.current as int,
                delivery.attempt.number,
                delivery.first_failure,
            ),
            Stage::Waiting(delivery) => answers(state, uploader) == seq![
                ActionView::Upload { batch: delivery.current },
            ] + plan_after(
                state.policy,
                uploader,
                delivery.batches@,
                delivery.current as int,
                delivery.attempt.number,
                delivery.first_failure,
            ),
            _ => true,
        },
    decreases batches_left(state), attempts_left(state), waits_left(state),
{
    let (next, action) = state.spec_step(report(state, uploader));
    lemma_delivery_advances(state, uploader);
    assert(answers(state, uploader) == seq![action] + answers(next, uploader));
    if next.stage is Uploading || next.stage is Waiting {
        lemma_exporter_follows_plan(next, uploader);
    } else {
        assert(answers(next, uploader) == Seq::<ActionView>::empty());
    }
    match state.stage {
        Stage::Uploading(delivery) => {
            let batches = delivery.batches@;
            let current = delivery.current as int;
            lemma_next_nonempty(batches, current + 1);
            lemma_attempts_follow_backoff(state.policy, delivery.attempt.number);
            match uploader(delivery.current, delivery.attempt.number) {
                Ok(_) => {
                    lemma_plan_passes_over_empty_batches(
                        state.policy,
                        uploader,
                        batches,
                        current + 1,
                        delivery.first_failure,
                    );
                },
                Err(error) => {
                    if delivery.attempt.number >= state.policy.spec_max_attempts() {
                        lemma_plan_passes_over_empty_batches(
                            state.policy,
                            uploader,
                            batches,
                            current + 1,
                            match delivery.first_failure {
                                Some(failure) => Some(failure),
                                None => Some(Failure { batch: delivery.current, error }),
                            },
                        );
                    }
                },
            }
        },
        _ => {},
    }
}

/// The delivery of a signal follows the plan from its first batch on: the
/// answer to the encoder's batches, and the answers that follow it up to the
/// outcome of the signal, are the plan of these batches.
pub proof fn lemma_delivery_follows_plan(
    state: ExporterState,
    batches: Vec<EncodedBatch>,
    uploader: spec_fn(usize, u32) -> Result<(), String>,
)
    requires
        state.wf(),
        state.stage is Encoding,
    ensures
        ({
            let (next, action) = state.spec_step(Event::Encoded(Ok(batches)));
            seq![action] + answers(next, uploader) == plan(
                state.policy,
                uploader,
                batches@,
                0,
                None,
            )
        }),
{
    let (next, action) = state.spec_step(Event::Encoded(Ok(batches)));
    lemma_step_keeps_well_formed(state, Event::Encoded(Ok(batches)));
    lemma_next_nonempty(batches@, 0);
    lemma_plan_passes_over_empty_batches(state.policy, uploader, batches@, 0, None);
    if next.stage is Uploading {
        lemma_exporter_follows_plan(next, uploader);
    } else {
        assert(answers(next, uploader) == Seq::<ActionView>::empty());
    }
}

/// Whether `action` is no upload, or the upload of a batch at or after `from`
/// that is not empty.
pub open spec fn uploads_full_batch(action: ActionView, batches: Seq<EncodedBatch>, from: int) -> bool {
    match action {
        ActionView::Upload { batch } => from <= batch < batches.len() && batches[batch as int].data@.len()
            > 0,
        _ => true,
    }
}

/// What follows an upload of a batch that is not empty holds no upload of an
/// empty batch.
pub proof fn lemma_plan_after_uploads_no_empty_batch(
    policy: RetryPolicy,
    uploader: spec_fn(usize, u32) -> Result<(), String>,
    batches: Seq<EncodedBatch>,
    batch: int,
    number: u32,
    first: Option<Failure>,
)
    requires
        0 <= batch < batches.len() <= usize::MAX,
        batches[batch].data@.len() > 0,
    ensures
        forall|i: int|
            0 <= i < plan_after(policy, uploader, batches, batch, number, first).len()
                ==> uploads_full_batch(
                #[trigger] plan_after(policy, uploader, batches, batch, number, first)[i],
                batches,
                batch,
            ),
    decreases batches.len() - batch, policy.spec_max_attempts() - number,
{
    let actions = plan_after(policy, uploader, batches, batch, number, first);
    match uploader(batch as usize, number) {
        Ok(_) => {
            let later = plan(policy, uploader, batches, batch + 1, first);
            lemma_plan_uploads_no_empty_batch(policy, uploader, batches, batch + 1, first);
            assert(actions == later);
            assert forall|i: int| 0 <= i < actions.len() implies uploads_full_batch(
                #[trigger] actions[i],
                batches,
                batch,
            ) by {
                assert(uploads_full_batch(later[i], batches, batch + 1));
            }
        },
        Err(error) => {
            if number >= policy.spec_max_attempts() {
                let kept = match first {
                    Some(failure) => Some(failure),
                    None => Some(Failure { batch: batch as usize, error }),
                };
                let later = plan(policy, uploader, batches, batch + 1, kept);
                lemma_plan_uploads_no_empty_batch(policy, uploader, batches, batch + 1, kept);
                assert(actions == later);
                assert forall|i: int| 0 <= i < actions.len() implies uploads_full_batch(
                    #[trigger] actions[i],
                    batches,
                    batch,
                ) by {
                    assert(uploads_full_batch(later[i], batches, batch + 1));
                }
            } else {
                let later = plan_after(
                    policy,
                    uploader,
                    batches,
                    batch,
                    (number + 1) as u32,
                    first,
                );
                lemma_plan_after_uploads_no_empty_batch(
                    policy,
                    uploader,
                    batches,
                    batch,
                    (number + 1) as u32,
                    first,
                );
                let again = seq![ActionView::Upload { batch: batch as usize }] + later;
                assert forall|i: int| 0 <= i < again.len() implies uploads_full_batch(
                    #[trigger] again[i],
                    batches,
                    batch,
                ) by {
                    if i > 0 {
                        assert(again[i] == later[i - 1]);
                    }
                }
                if policy.backoff(number as nat) != 0 {
                    assert forall|i: int| 0 <= i < actions.len() implies uploads_full_batch(
                        #[trigger] actions[i],
                        batches,
                        batch,
                    ) by {
                        if i > 0 {
                            assert(actions[i] == again[i - 1]);
                        }
                    }
                }
            }
        },
    }
}

/// No plan holds the upload of an empty batch: every upload in it names a
/// batch of the encoder's output whose payload is not empty.
pub proof fn lemma_plan_uploads_no_empty_batch(
    policy: RetryPolicy,
    uploader: spec_fn(usize, u32) -> Result<(), String>,
    batches: Seq<EncodedBatch>,
    from: int,
    first: Option<Failure>,
)
    requires
        0 <= from,
        batches.len() <= usize::MAX,
    ensures
        forall|i: int|
            0 <= i < plan(policy, uploader, batches, from, first).len() ==> uploads_full_batch(
                #[trigger] plan(policy, uploader, batches, from, first)[i],
                batches,
                from,
            ),
    decreases batches.len() - from, policy.spec_max_attempts() + 1,
{
    let actions = plan(policy, uploader, batches, from, first);
    if from < batches.len() {
        if batches[from].data@.len() == 0 {
            let later = plan(policy, uploader, batches, from + 1, first);
            lemma_plan_uploads_no_empty_batch(policy, uploader, batches, from + 1, first);
            assert(actions == later);
            assert forall|i: int| 0 <= i < actions.len() implies uploads_full_batch(
                #[trigger] actions[i],
                batches,
                from,
            ) by {
                assert(uploads_full_batch(later[i], batches, from + 1));
            }
        } else {
            let later = plan_after(policy, uploader, batches, from, 1, first);
            lemma_plan_after_uploads_no_empty_batch(policy, uploader, batches, from, 1, first);
            assert forall|i: int| 0 <= i < actions.len() implies uploads_full_batch(
                #[trigger] actions[i],
                batches,
                from,
            ) by {
                if i > 0 {
                    assert(actions[i] == later[i - 1]);
                }
            }
        }
    }
}

/// What follows an upload holds an upload of every later batch that is not
/// empty, whatever the uploader answers.
pub proof fn lemma_plan_after_uploads_every_later_batch(
    policy: RetryPolicy,
    uploader: spec_fn(usize, u32) -> Result<(), String>,
    batches: Seq<EncodedBatch>,
    batch: int,
    number: u32,
    first: Option<Failure>,
    target: int,
)
    requires
        0 <= batch < target < batches.len() <= usize::MAX,
        batches[target].data@.len() > 0,
    ensures
        plan_after(policy, uploader, batches, batch, number, first).contains(
            ActionView::Upload { batch: target as usize },
        ),
    decreases batches.len() - batch, policy.spec_max_attempts() - number,
{
    let wanted = ActionView::Upload { batch: target as usize };
    match uploader(batch as usize, number) {
        Ok(_) => {
            lemma_plan_uploads_every_batch(policy, uploader, batches, batch + 1, first, target);
        },
        Err(error) => {
            if number >= policy.spec_max_attempts() {
                let kept = match first {
                    Some(failure) => Some(failure),
                    None => Some(Failure { batch: batch as usize, error }),
                };
                lemma_plan_uploads_every_batch(policy, uploader, batches, batch + 1, kept, target);
            } else {
                let later = plan_after(
                    policy,
                    uploader,
                    batches,
                    batch,
                    (number + 1) as u32,
                    first,
                );
                lemma_plan_after_uploads_every_later_batch(
                    policy,
                    uploader,
                    batches,
                    batch,
                    (number + 1) as u32,
                    first,
                    target,
                );
                let at = choose|i: int| 0 <= i < later.len() && later[i] == wanted;
                let again = seq![ActionView::Upload { batch: batch as usize }] + later;
                assert(again[at + 1] == wanted);
                if policy.backoff(number as nat) != 0 {
                    let waited = seq![ActionView::Wait { nanos: policy.backoff(number as nat) }]
                        + again;
                    assert(waited[at + 2] == wanted);
                }
            }
        },
    }
}

/// Every batch at or after `from` that is not empty is uploaded, whatever
/// becomes of the batches before it.
pub proof fn lemma_plan_uploads_every_batch(
    policy: RetryPolicy,
    uploader: spec_fn(usize, u32) -> Result<(), String>,
    batches: Seq<EncodedBatch>,
    from: int,
    first: Option<Failure>,
    target: int,
)
    requires
        0 <= from <= target < batches.len() <= usize::MAX,
        batches[target].data@.len() > 0,
    ensures
        plan(policy, uploader, batches, from, first).contains(
            ActionView::Upload { batch: target as usize },
        ),
    decreases batches.len() - from, policy.spec_max_attempts() + 1,
{
    let wanted = ActionView::Upload { batch: target as usize };
    if batches[from].data@.len() == 0 {
        lemma_plan_uploads_every_batch(policy, uploader, batches, from + 1, first, target);
    } else {
        let later = plan_after(policy, uploader, batches, from, 1, first);
        let whole = seq![ActionView::Upload { batch: from as usize }] + later;
        if from == target {
            assert(whole[0] == wanted);
        } else {
            lemma_plan_after_uploads_every_later_batch(
                policy,
                uploader,
                batches,
                from,
                1,
                first,
                target,
            );
            let at = choose|i: int| 0 <= i < later.len() && later[i] == wanted;
            assert(whole[at + 1] == wanted);
        }
    }
}

/// How the upload of the batch at `batch` ends, counted from its attempt
/// `number`: with the first success, or with the failure of the last attempt.
pub open spec fn batch_result(
    policy: RetryPolicy,
    uploader: spec_fn(usize, u32) -> Result<(), String>,
    batch: int,
    number: u32,
) -> Result<(), String>
    decreases policy.spec_max_attempts() - number,
{
    match uploader(batch as usize, number) {
        Ok(_) => Ok(()),
        Err(error) => if number >= policy.spec_max_attempts() {
            Err(error)
        } else {
            batch_result(policy, uploader, batch, (number + 1) as u32)
        },
    }
}

/// The first batch at or after `from` that is not empty and whose upload ends
/// in a failure, with that failure.
pub open spec fn first_failure(
    policy: RetryPolicy,
    uploader: spec_fn(usize, u32) -> Result<(), String>,
    batches: Seq<EncodedBatch>,
    from: int,
) -> Option<Failure>
    decreases batches.len() - from,
{
    if from < 0 || from >= batches.len() {
        None
    } else if batches[from].data@.len() == 0 {
        first_failure(policy, uploader, batches, from + 1)
    } else {
        match batch_result(policy, uploader, from, 1) {
            Ok(_) => first_failure(policy, uploader, batches, from + 1),
            Err(error) => Some(Failure { batch: from as usize, error }),
        }
    }
}

/// Whether `action` is the outcome of a signal.
pub open spec fn is_outcome(action: ActionView) -> bool {
    action is Ack || action is Nack
}

/// What follows an upload ends with the outcome of the signal and holds no
/// other. The signal is refused for the failure that was kept; where none was,
/// for the failure of the batch in hand; where that is uploaded, for the first
/// failure among the batches after it; and it is acknowledged where there is
/// none at all.
pub proof fn lemma_plan_after_ends_in_outcome(
    policy: RetryPolicy,
    uploader: spec_fn(usize, u32) -> Result<(), String>,
    batches: Seq<EncodedBatch>,
    batch: int,
    number: u32,
    first: Option<Failure>,
)
    requires
        0 <= batch < batches.len(),
    ensures
        ({
            let actions = plan_after(policy, uploader, batches, batch, number, first);
            &&& actions.len() > 0
            &&& forall|i: int| 0 <= i < actions.len() - 1 ==> !is_outcome(#[trigger] actions[i])
            &&& actions.last() == outcome(
                match first {
                    Some(failure) => Some(failure),
                    None => match batch_result(policy, uploader, batch, number) {
                        Ok(_) => first_failure(policy, uploader, batches, batch + 1),
                        Err(error) => Some(Failure { batch: batch as usize, error }),
                    },
                },
            )
        }),
    decreases batches.len() - batch, policy.spec_max_attempts() - number,
{
    match uploader(batch as usize, number) {
        Ok(_) => {
            lemma_plan_ends_in_outcome(policy, uploader, batches, batch + 1, first);
        },
        Err(error) => {
            if number >= policy.spec_max_attempts() {
                let kept = match first {
                    Some(failure) => Some(failure),
                    None => Some(Failure { batch: batch as usize, error }),
                };
                lemma_plan_ends_in_outcome(policy, uploader, batches, batch + 1, kept);
            } else {
                lemma_plan_after_ends_in_outcome(
                    policy,
                    uploader,
                    batches,
                    batch,
                    (number + 1) as u32,
                    first,
                );
            }
        },
    }
}

/// Every plan ends with the outcome of the signal and holds no other: the
/// signal is refused once, or acknowledged once, and never both. It is refused
/// for the failure that was kept; where none was, for the first batch that is
/// not empty and whose attempts all fail, with the error of its last attempt;
/// and it is acknowledged where there is no such batch.
pub proof fn lemma_plan_ends_in_outcome(
    policy: RetryPolicy,
    uploader: spec_fn(usize, u32) -> Result<(), String>,
    batches: Seq<EncodedBatch>,
    from: int,
    first: Option<Failure>,
)
    requires
        0 <= from,
    ensures
        ({
            let actions = plan(policy, uploader, batches, from, first);
            &&& actions.len() > 0
            &&& forall|i: int| 0 <= i < actions.len() - 1 ==> !is_outcome(#[trigger] actions[i])
            &&& actions.last() == outcome(
                match first {
                    Some(failure) => Some(failure),
                    None => first_failure(policy, uploader, batches, from),
                },
            )
        }),
    decreases batches.len() - from, policy.spec_max_attempts() + 1,
{
    if from < batches.len() {
        if batches[from].data@.len() == 0 {
            lemma_plan_ends_in_outcome(policy, uploader, batches, from + 1, first);
        } else {
            lemma_plan_after_ends_in_outcome(policy, uploader, batches, from, 1, first);
        }
    }
}

/// The waits and uploads of `count` further attempts at the batch at `batch`,
/// the first of them after the failure of attempt `number`: before each
/// attempt the wait of the policy, unless it is zero.
pub open spec fn retries(policy: RetryPolicy, batch: usize, number: u32, count: nat) -> Seq<
    ActionView,
>
    decreases count,
{
    if count == 0 {
        Seq::empty()
    } else {
        let upload = seq![ActionView::Upload { batch }] + retries(
            policy,
            batch,
            (number + 1) as u32,
            (count - 1) as nat,
        );
        if policy.backoff(number as nat) == 0 {
            upload
        } else {
            seq![ActionView::Wait { nanos: policy.backoff(number as nat) }] + upload
        }
    }
}

/// Where `count` attempts in a row fail and leave an attempt each, each of
/// them is followed by the wait of the policy and the next attempt: after the
/// first failure by `initial_interval`, after each further one by the wait
/// before it times the multiplier, capped at `max_interval`.
pub proof fn lemma_failed_attempts_are_retried(
    policy: RetryPolicy,
    uploader: spec_fn(usize, u32) -> Result<(), String>,
    batches: Seq<EncodedBatch>,
    batch: int,
    number: u32,
    first: Option<Failure>,
    count: nat,
)
    requires
        0 <= batch < batches.len() <= usize::MAX,
        number + count <= policy.spec_max_attempts(),
        forall|n: u32| number <= n < number + count ==> (#[trigger] uploader(batch as usize, n)) is Err,
    ensures
        plan_after(policy, uploader, batches, batch, number, first) == retries(
            policy,
            batch as usize,
            number,
            count,
        ) + plan_after(policy, uploader, batches, batch, (number + count) as u32, first),
    decreases count,
{
    let whole = plan_after(policy, uploader, batches, batch, number, first);
    if count == 0 {
        assert(whole =~= Seq::<ActionView>::empty() + whole);
    } else {
        assert(uploader(batch as usize, number) is Err);
        lemma_failed_attempts_are_retried(
            policy,
            uploader,
            batches,
            batch,
            (number + 1) as u32,
            first,
            (count - 1) as nat,
        );
        let later = plan_after(policy, uploader, batches, batch, (number + 1) as u32, first);
        let tail = plan_after(policy, uploader, batches, batch, (number + count) as u32, first);
        let rest = retries(policy, batch as usize, (number + 1) as u32, (count - 1) as nat);
        let upload = seq![ActionView::Upload { batch: batch as usize }];
        assert(later == rest + tail);
        assert(upload + (rest + tail) =~= (upload + rest) + tail);
        if policy.backoff(number as nat) != 0 {
            let wait = seq![ActionView::Wait { nanos: policy.backoff(number as nat) }];
            assert(wait + (upload + later) =~= (wait + (upload + rest)) + tail);
        }
    }
}

/// The delivery of a signal, whole. From the answer to the encoder's batches
/// up to the outcome, the exporter asks for no upload of an empty batch, asks
/// for the upload of every batch that is not empty, whatever becomes of the
/// others, and ends with one outcome and no other before it: it refuses the
/// signal for the first batch whose attempts all fail, with the error of its
/// last attempt, and acknowledges it where there is no such batch.
pub proof fn lemma_delivery_of_a_signal(
    state: ExporterState,
    batches: Vec<EncodedBatch>,
    uploader: spec_fn(usize, u32) -> Result<(), String>,
)
    requires
        state.wf(),
        state.stage is Encoding,
    ensures
        ({
            let (next, action) = state.spec_step(Event::Encoded(Ok(batches)));
            let actions = seq![action] + answers(next, uploader);
            &&& forall|i: int|
                0 <= i < actions.len() ==> uploads_full_batch(#[trigger] actions[i], batches@, 0)
            &&& forall|target: int|
                0 <= target < batches@.len() && (#[trigger] batches@[target]).data@.len() > 0
                    ==> actions.contains(ActionView::Upload { batch: target as usize })
            &&& actions.len() > 0
            &&& forall|i: int| 0 <= i < actions.len() - 1 ==> !is_outcome(#[trigger] actions[i])
            &&& actions.last() == outcome(first_failure(state.policy, uploader, batches@, 0))
        }),
{
    let (next, action) = state.spec_step(Event::Encoded(Ok(batches)));
    let actions = seq![action] + answers(next, uploader);
    assert(batches.len() == batches@.len());
    lemma_delivery_follows_plan(state, batches, uploader);
    lemma_plan_uploads_no_empty_batch(state.policy, uploader, batches@, 0, None);
    lemma_plan_ends_in_outcome(state.policy, uploader, batches@, 0, None);
    assert forall|target: int|
        0 <= target < batches@.len() && (#[trigger] batches@[target]).data@.len()
            > 0 implies actions.contains(ActionView::Upload { batch: target as usize }) by {
        lemma_plan_uploads_every_batch(state.policy, uploader, batches@, 0, None, target);
    }
}

/// A shutdown request changes nothing about the delivery in hand: a draining
/// exporter answers, up to the outcome of the signal, as it would have
/// answered had the request not come.
pub proof fn lemma_shutdown_leaves_delivery_unchanged(
    state: ExporterState,
    deadline: u64,
    uploader: spec_fn(usize, u32) -> Result<(), String>,
)
    requires
        state.wf(),
        state.phase is Running,
        state.stage is Uploading || state.stage is Waiting,
    ensures
        answers(state.drain(deadline), uploader) == answers(state, uploader),
    decreases batches_left(state), attempts_left(state), waits_left(state),
{
    let event = report(state, uploader);
    let (next, action) = state.spec_step(event);
    let drained = state.drain(deadline);
    lemma_delivery_advances(state, uploader);
    lemma_draining_carries_on(state, deadline, event);
    assert(report(drained, uploader) == event);
    assert(drained.wf());
    assert(next.drain(deadline).wf());
    assert(answers(state, uploader) == seq![action] + answers(next, uploader));
    assert(answers(drained, uploader) == seq![action] + answers(next.drain(deadline), uploader));
    if next.stage is Uploading || next.stage is Waiting {
        lemma_shutdown_leaves_delivery_unchanged(next, deadline, uploader);
    } else {
        assert(answers(next, uploader) == Seq::<ActionView>::empty());
        assert(answers(next.drain(deadline), uploader) == Seq::<ActionView>::empty());
    }
}

} // verus!
