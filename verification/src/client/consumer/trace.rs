//! Runs of the worker machine, and what holds of every run.

use vstd::prelude::*;

use crate::client::consumer::worker::{expects, next, Ending, Phase, Signal, Step};
use crate::client::consumer::ConsumerStatus;
use crate::config::queue::config::QueueConfigView;
use crate::config::queue::{Ask, RetryMode};

verus! {

/// Whether `signal` is an answer to `ask`.
pub open spec fn fits(ask: Ask, signal: Signal) -> bool {
    match ask {
        Ask::IsEnabled { .. } | Ask::IsChanged { .. } => signal is Flag,
        Ask::GetCommand { .. } => signal is Command,
        Ask::GetCommandTimeout { .. } | Ask::GetQueueWait { .. } => signal is Millis,
        Ask::GetRetryType { .. } => signal is Retry,
        Ask::SetQueueWait { .. } => signal is Stored,
    }
}

/// How many more questions a worker may put to the registry before it turns
/// to the broker, the command or a timer again.
pub open spec fn asks_ahead(phase: Phase) -> nat {
    match phase {
        Phase::ReadingWait => 4,
        Phase::CheckingCount { .. } | Phase::DrainCheck { .. } => 3,
        Phase::CheckingEnabled { .. } | Phase::DrainRead { .. } => 2,
        Phase::FetchingCommand { .. } | Phase::DrainReset { .. } => 1,
        _ => 0,
    }
}

/// Phase and steps of a worker that started in `phase` and was fed `signals`
/// one after the other.
pub open spec fn run(config: QueueConfigView, index: i32, phase: Phase, signals: Seq<Signal>) -> (
    Phase,
    Seq<Step>,
)
    decreases signals.len(),
{
    if signals.len() == 0 {
        (phase, Seq::empty())
    } else {
        let (reached, steps) = run(config, index, phase, signals.drop_last());
        let (after, step) = next(config, index, reached, signals.last());
        (after, steps.push(step))
    }
}

/// Whether the worker waited for each of the `signals` when it came.
pub open spec fn awaited(config: QueueConfigView, index: i32, phase: Phase, signals: Seq<Signal>)
    -> bool
    decreases signals.len(),
{
    signals.len() == 0 || (awaited(config, index, phase, signals.drop_last()) && expects(
        run(config, index, phase, signals.drop_last()).0,
        signals.last(),
    ))
}

/// Whether the step answers a delivery: an acknowledgement or a rejection.
pub open spec fn settles(step: Step) -> bool {
    step is Ack || step is Reject
}

/// Number of steps that `counted` holds of.
pub open spec fn count(steps: Seq<Step>, counted: spec_fn(Step) -> bool) -> nat
    decreases steps.len(),
{
    if steps.len() == 0 {
        0
    } else {
        count(steps.drop_last(), counted) + if counted(steps.last()) {
            1nat
        } else {
            0nat
        }
    }
}

/// Whether the worker holds a delivery that it took on and has not answered.
pub open spec fn owes_answer(phase: Phase) -> bool {
    phase is FetchingCommand || phase is FetchingTimeout || phase is Running || phase
        is FetchingRetryType
}

/// Whether the worker takes the delivery in hand on: the queue is enabled and
/// its worker count is what it was.
pub open spec fn takes_on(phase: Phase, signal: Signal) -> bool {
    phase matches Phase::CheckingEnabled { changed, .. } && !changed && signal == Signal::Flag(
        true,
    )
}

/// Number of deliveries that the worker took on during the run.
pub open spec fn taken_on(config: QueueConfigView, index: i32, phase: Phase, signals: Seq<Signal>)
    -> nat
    decreases signals.len(),
{
    if signals.len() == 0 {
        0
    } else {
        taken_on(config, index, phase, signals.drop_last()) + if takes_on(
            run(config, index, phase, signals.drop_last()).0,
            signals.last(),
        ) {
            1nat
        } else {
            0nat
        }
    }
}

/// A question follows only where its answer is awaited next, the registry can
/// serve it, and the chain of questions gets shorter.
pub proof fn asks_are_awaited(config: QueueConfigView, index: i32, phase: Phase, signal: Signal)
    requires
        config.valid(),
        expects(phase, signal),
    ensures
        next(config, index, phase, signal).1 matches Step::Ask(ask) ==> {
            &&& ask.admissible()
            &&& forall|answer: Signal|
                fits(ask, answer) <==> expects(next(config, index, phase, signal).0, answer)
            &&& (signal is Flag || signal is Command || signal is Millis || signal is Retry
                || signal is Stored) ==> asks_ahead(
                next(config, index, phase, signal).0,
            ) < asks_ahead(phase)
        },
{
}

/// One step of the machine settles a delivery exactly when the worker owes the
/// answer and the command's race is decided; the worker then owes nothing. The
/// settlement names the delivery in hand and is the one the verdict stands
/// for.
pub proof fn settlement_is_owed(config: QueueConfigView, index: i32, phase: Phase, signal: Signal)
    requires
        expects(phase, signal),
    ensures
        ({
            let (after, step) = next(config, index, phase, signal);
            &&& settles(step) ==> owes_answer(phase) && !owes_answer(after) && after is Settling
            &&& !settles(step) ==> (owes_answer(after) <==> owes_answer(phase) || takes_on(
                phase,
                signal,
            ))
            &&& takes_on(phase, signal) ==> !owes_answer(phase)
            &&& step matches Step::Ack(tag) ==> (phase matches Phase::FetchingRetryType {
                tag: held,
                ..
            } && held == tag)
            &&& step matches Step::Reject(tag, _) ==> (phase matches Phase::FetchingRetryType {
                tag: held,
                ..
            } && held == tag) || (phase matches Phase::Running { tag: held } && held == tag)
        }),
{
}

/// Every delivery that a worker takes on is answered exactly once: at any
/// point of any run, the acknowledgements and rejections issued so far are as
/// many as the deliveries taken on, less the one that is still in hand.
pub proof fn settles_each_delivery_once(
    config: QueueConfigView,
    index: i32,
    signals: Seq<Signal>,
)
    requires
        awaited(config, index, Phase::Created, signals),
    ensures
        ({
            let (reached, steps) = run(config, index, Phase::Created, signals);
            count(steps, |step: Step| settles(step)) + if owes_answer(reached) {
                1nat
            } else {
                0nat
            } == taken_on(config, index, Phase::Created, signals)
        }),
    decreases signals.len(),
{
    if signals.len() > 0 {
        let earlier = signals.drop_last();
        settles_each_delivery_once(config, index, earlier);
        let (reached, steps) = run(config, index, Phase::Created, earlier);
        settlement_is_owed(config, index, reached, signals.last());
        let (after, step) = next(config, index, reached, signals.last());
        assert(steps.push(step).drop_last() =~= steps);
    }
}

/// A worker that learns on a delivery that its queue is disabled, with the
/// worker count unchanged, cancels its subscription exactly once, asks for
/// recovery at most once and settles nothing on the way; if it returns, it
/// has asked for recovery, and it returns `ConsumerChanged` where the broker
/// recovered and `GenericOk` where it did not.
pub proof fn disabled_worker_cancels_once(
    config: QueueConfigView,
    index: i32,
    tag: u64,
    signals: Seq<Signal>,
)
    requires
        awaited(
            config,
            index,
            Phase::CheckingEnabled { tag, changed: false },
            seq![Signal::Flag(false)] + signals,
        ),
    ensures
        ({
            let (reached, steps) = run(
                config,
                index,
                Phase::CheckingEnabled { tag, changed: false },
                seq![Signal::Flag(false)] + signals,
            );
            &&& count(steps, |step: Step| step is Cancel) == 1
            &&& count(steps, |step: Step| step is Recover) <= 1
            &&& count(steps, |step: Step| settles(step)) == 0
            &&& reached is Closed ==> {
                &&& count(steps, |step: Step| step is Recover) == 1
                &&& steps.last() == Step::Return(Ending::Status(ConsumerStatus::ConsumerChanged))
                    || steps.last() == Step::Return(Ending::Status(ConsumerStatus::GenericOk))
                &&& steps.last() == Step::Return(Ending::Status(ConsumerStatus::ConsumerChanged))
                    <==> (seq![Signal::Flag(false)] + signals).last() == Signal::BrokerOk
            }
        }),
    decreases signals.len(),
{
    let start = Phase::CheckingEnabled { tag, changed: false };
    let all = seq![Signal::Flag(false)] + signals;
    let (reached, steps) = run(config, index, start, all);
    if signals.len() == 0 {
        assert(all.drop_last() =~= Seq::<Signal>::empty());
        assert(run(config, index, start, all.drop_last()) == (start, Seq::<Step>::empty()));
        assert(steps =~= seq![Step::Cancel]);
        counts_of_one(Step::Cancel);
    } else {
        let earlier = seq![Signal::Flag(false)] + signals.drop_last();
        assert(all.drop_last() =~= earlier);
        disabled_worker_cancels_once(config, index, tag, signals.drop_last());
        let (before, taken) = run(config, index, start, earlier);
        assert(before is Cancelling || before is CancelPause || before is Recovering || before
            is Closed) by {
            disabled_worker_stays_on_path(config, index, tag, signals.drop_last());
        }
        disabled_worker_stays_on_path(config, index, tag, signals);
        assert(steps.drop_last() =~= taken);
    }
}

/// A worker that learns on a delivery that its queue is disabled and that the
/// worker count changed as well leaves the subscription alone: it asks for
/// recovery at once, cancels and settles nothing, and returns on the broker's
/// answer.
pub proof fn disabled_and_changed_worker_only_recovers(
    config: QueueConfigView,
    index: i32,
    tag: u64,
    answer: Signal,
)
    requires
        answer == Signal::BrokerOk || answer == Signal::BrokerFailed,
    ensures
        next(config, index, Phase::CheckingEnabled { tag, changed: true }, Signal::Flag(false))
            == (Phase::Recovering, Step::Recover),
        next(config, index, Phase::Recovering, answer) == (
            Phase::Closed,
            Step::Return(
                Ending::Status(
                    if answer == Signal::BrokerOk {
                        ConsumerStatus::ConsumerChanged
                    } else {
                        ConsumerStatus::GenericOk
                    },
                ),
            ),
        ),
        forall|signal: Signal| !expects(Phase::Closed, signal),
{
}

/// After the cancellation the worker only pauses, asks for recovery and
/// returns; it has asked for recovery exactly when it waits for the broker's
/// answer to that or has returned.
proof fn disabled_worker_stays_on_path(
    config: QueueConfigView,
    index: i32,
    tag: u64,
    signals: Seq<Signal>,
)
    requires
        awaited(
            config,
            index,
            Phase::CheckingEnabled { tag, changed: false },
            seq![Signal::Flag(false)] + signals,
        ),
    ensures
        ({
            let (reached, steps) = run(
                config,
                index,
                Phase::CheckingEnabled { tag, changed: false },
                seq![Signal::Flag(false)] + signals,
            );
            &&& reached is Cancelling || reached is CancelPause || reached is Recovering || reached
                is Closed
            &&& count(steps, |step: Step| step is Recover) == if reached is Recovering || reached
                is Closed {
                1nat
            } else {
                0nat
            }
        }),
    decreases signals.len(),
{
    let start = Phase::CheckingEnabled { tag, changed: false };
    let all = seq![Signal::Flag(false)] + signals;
    let (reached, steps) = run(config, index, start, all);
    if signals.len() == 0 {
        assert(all.drop_last() =~= Seq::<Signal>::empty());
        assert(run(config, index, start, all.drop_last()) == (start, Seq::<Step>::empty()));
        assert(steps =~= seq![Step::Cancel]);
        counts_of_one(Step::Cancel);
    } else {
        let earlier = seq![Signal::Flag(false)] + signals.drop_last();
        assert(all.drop_last() =~= earlier);
        disabled_worker_stays_on_path(config, index, tag, signals.drop_last());
        let (before, taken) = run(config, index, start, earlier);
        assert(steps.drop_last() =~= taken);
    }
}

/// What the counts of a single step are.
proof fn counts_of_one(step: Step)
    ensures
        count(seq![step], |step: Step| step is Cancel) == if step is Cancel {
            1nat
        } else {
            0nat
        },
        count(seq![step], |step: Step| step is Recover) == if step is Recover {
            1nat
        } else {
            0nat
        },
        count(seq![step], |step: Step| settles(step)) == if settles(step) {
            1nat
        } else {
            0nat
        },
{
    assert(seq![step].drop_last() =~= Seq::<Step>::empty());
    reveal_with_fuel(count, 2);
}

} // verus!
