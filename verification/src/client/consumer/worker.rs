//! The life of one worker as a state machine.
//!
//! A worker alternates between waiting (for the broker, a timer, the command
//! or the registry) and deciding. The machine holds the decisions: it is fed
//! what happened and answers with what to do next. [`next`] is its transition
//! table over plain values; [`Worker`] runs the table and carries the texts.

use vstd::prelude::*;

use vstd::string::StringExecFns;

use crate::client::consumer::message::{
    command_words, human_command, rendered, settlement_of, verdict_of, CommandResult, Message,
    MessageCommand, MessageError, Settlement, Verdict,
};
use crate::client::consumer::{ConsumerError, ConsumerStatus, CONSUMER_WAIT, DEFAULT_WAIT_PART};
use crate::config::queue::config::{QueueConfig, QueueConfigView};
use crate::client::consumer::trace::{asks_ahead, asks_are_awaited, awaited, run};
use crate::config::queue::model::QueueModel;
use crate::config::queue::{Answer, Ask, Queue, RetryMode, RetryType};
use crate::text::{decimal, push_decimal};

verus! {

/// What happened, reduced to what the worker's decisions read.
#[derive(Clone, Copy, Debug, PartialEq, Eq, Structural)]
pub enum Signal {
    /// The worker was started.
    Started,
    /// The sleep that was asked for is over.
    Slept,
    /// The broker accepted the last request.
    BrokerOk,
    /// The broker refused the last request.
    BrokerFailed,
    /// A delivery with the given tag arrived.
    Delivered(u64),
    /// The stream of deliveries ended.
    StreamEnded,
    /// The stream of deliveries broke.
    StreamFailed,
    /// The race between command and timer is over.
    Raced(CommandResult),
    /// The registry answered yes or no.
    Flag(bool),
    /// The registry answered with the queue's command line.
    Command,
    /// The registry answered with milliseconds.
    Millis(u64),
    /// The registry answered with the queue's retry type.
    Retry(RetryType),
    /// The registry stored a wait.
    Stored,
}

/// How a worker ends.
#[derive(Clone, Copy, Debug, PartialEq, Eq, Structural)]
pub enum Ending {
    /// With a status.
    Status(ConsumerStatus),
    /// With the broker's error from a subscription or a delivery.
    BrokerError,
    /// With the broker's error from an acknowledgement or a rejection.
    MessageError,
    /// With an error that no worker raises.
    OtherError,
}

/// What to do next, reduced to what the laws of the machine speak of.
#[derive(Clone, Copy, Debug, PartialEq, Eq, Structural)]
pub enum Step {
    /// Sleep for the given milliseconds.
    Sleep(u64),
    /// `basic_consume` under the worker's consumer tag, default options, empty
    /// table.
    Subscribe,
    /// Wait for the next delivery.
    Receive,
    /// Start the prepared command and a timer of the given milliseconds.
    Execute(u64),
    /// `basic_ack` of the delivery with the given tag, not of earlier ones.
    Ack(u64),
    /// `basic_reject` of the delivery with the given tag, with the given
    /// `requeue`.
    Reject(u64, bool),
    /// `basic_cancel` of the worker's consumer tag, waiting for the answer.
    Cancel,
    /// `basic_recover` with `requeue` set.
    Recover,
    /// Put the question to the registry.
    Ask(Ask),
    /// Stop.
    Return(Ending),
}

/// Where a worker stands: what it asked for last.
#[derive(Clone, Copy, Debug, PartialEq, Eq, Structural)]
pub enum Phase {
    /// Not started.
    Created,
    /// Asked whether the queue is enabled, before subscribing.
    Gate,
    /// Sleeping because the queue was not enabled.
    GatePause,
    /// Asked the broker for the subscription.
    Subscribing,
    /// Waiting for a delivery.
    Listening,
    /// Holding a delivery; asked whether the worker count changed.
    CheckingCount { tag: u64 },
    /// Holding a delivery; asked whether the queue is enabled.
    CheckingEnabled { tag: u64, changed: bool },
    /// Dispatching; asked for the command line.
    FetchingCommand { tag: u64 },
    /// Dispatching; asked for the command timeout.
    FetchingTimeout { tag: u64 },
    /// Dispatching; the command races its timer.
    Running { tag: u64 },
    /// Dispatching; the command is over; asked for the retry type.
    FetchingRetryType { tag: u64, result: CommandResult },
    /// Asked the broker to settle the delivery.
    Settling { verdict: Verdict },
    /// Asked the registry to reset the wait after a success.
    ResettingWait,
    /// Asked the registry for the wait that the countdown starts from.
    ReadingWait,
    /// Counting down; asked whether the queue is still enabled.
    DrainCheck { ms: u64 },
    /// Counting down; asked for the wait that is left.
    DrainRead { ms: u64 },
    /// Countdown over; asked the registry to reset the wait.
    DrainReset { ms: u64 },
    /// Counting down; asked the registry to store what is left.
    DrainStore { ms: u64 },
    /// Counting down; sleeping one round.
    DrainPause { ms: u64 },
    /// Asked the registry to account for the retry.
    StoringRetry,
    /// Asked the broker to cancel the subscription.
    Cancelling,
    /// Pausing after the cancellation.
    CancelPause,
    /// Asked the broker to recover the unsettled messages.
    Recovering,
    /// Returned.
    Closed,
}

/// The request that settles the delivery `tag` according to `verdict`.
pub open spec fn settle_step(tag: u64, verdict: Verdict) -> Step {
    match settlement_of(verdict) {
        Settlement::Ack => Step::Ack(tag),
        Settlement::RejectRequeue => Step::Reject(tag, true),
        Settlement::RejectDrop => Step::Reject(tag, false),
    }
}

/// Whether a worker in `phase` waits for `signal`.
pub open spec fn expects(phase: Phase, signal: Signal) -> bool {
    match phase {
        Phase::Created => signal is Started,
        Phase::Gate | Phase::CheckingCount { .. } | Phase::CheckingEnabled { .. }
        | Phase::DrainCheck { .. } => signal is Flag,
        Phase::GatePause | Phase::DrainPause { .. } | Phase::CancelPause => signal is Slept,
        Phase::Subscribing | Phase::Settling { .. } | Phase::Cancelling | Phase::Recovering
        => signal is BrokerOk || signal is BrokerFailed,
        Phase::Listening => signal is Delivered || signal is StreamEnded || signal
            is StreamFailed,
        Phase::FetchingCommand { .. } => signal is Command,
        Phase::FetchingTimeout { .. } | Phase::ReadingWait | Phase::DrainRead { .. } => signal
            is Millis,
        Phase::Running { .. } => signal is Raced,
        Phase::FetchingRetryType { .. } => signal is Retry,
        Phase::ResettingWait | Phase::DrainReset { .. } | Phase::DrainStore { .. }
        | Phase::StoringRetry => signal is Stored,
        Phase::Closed => false,
    }
}

/// The transition table of worker `index` of the queue `config`: the phase
/// that follows `phase` on `signal`, and what the worker does on the way.
/// Signals that the phase does not wait for change nothing and make the
/// worker wait on.
pub open spec fn next(config: QueueConfigView, index: i32, phase: Phase, signal: Signal) -> (
    Phase,
    Step,
) {
    let id = config.id;
    let enabled = Step::Ask(Ask::IsEnabled { id });
    match (phase, signal) {
        (Phase::Created, Signal::Started) => (Phase::Gate, enabled),
        (Phase::Gate, Signal::Flag(true)) => (Phase::Subscribing, Step::Subscribe),
        (Phase::Gate, Signal::Flag(false)) => (Phase::GatePause, Step::Sleep(CONSUMER_WAIT)),
        (Phase::GatePause, Signal::Slept) => (Phase::Gate, enabled),
        (Phase::Subscribing, Signal::BrokerOk) => (Phase::Listening, Step::Receive),
        (Phase::Subscribing, Signal::BrokerFailed) => (
            Phase::Closed,
            Step::Return(Ending::BrokerError),
        ),
        (Phase::Listening, Signal::Delivered(tag)) => (
            Phase::CheckingCount { tag },
            Step::Ask(Ask::IsChanged { id, count: config.count }),
        ),
        (Phase::Listening, Signal::StreamEnded) => (
            Phase::Closed,
            Step::Return(Ending::Status(ConsumerStatus::GenericOk)),
        ),
        (Phase::Listening, Signal::StreamFailed) => (
            Phase::Closed,
            Step::Return(Ending::BrokerError),
        ),
        (Phase::CheckingCount { tag }, Signal::Flag(changed)) => (
            Phase::CheckingEnabled { tag, changed },
            enabled,
        ),
        (Phase::CheckingEnabled { tag, changed }, Signal::Flag(is_enabled)) => {
            if !changed && is_enabled {
                (Phase::FetchingCommand { tag }, Step::Ask(Ask::GetCommand { id }))
            } else if !is_enabled && !changed {
                (Phase::Cancelling, Step::Cancel)
            } else if !is_enabled {
                (Phase::Recovering, Step::Recover)
            } else {
                (Phase::Closed, Step::Return(Ending::Status(ConsumerStatus::CountChanged)))
            }
        },
        (Phase::FetchingCommand { tag }, Signal::Command) => (
            Phase::FetchingTimeout { tag },
            Step::Ask(Ask::GetCommandTimeout { id }),
        ),
        (Phase::FetchingTimeout { tag }, Signal::Millis(timeout)) => (
            Phase::Running { tag },
            Step::Execute(timeout),
        ),
        (Phase::Running { tag }, Signal::Raced(result)) => match result {
            CommandResult::Timeout => (
                Phase::Settling { verdict: Verdict::TimedOut },
                settle_step(tag, Verdict::TimedOut),
            ),
            _ => (Phase::FetchingRetryType { tag, result }, Step::Ask(Ask::GetRetryType { id })),
        },
        (Phase::FetchingRetryType { tag, result }, Signal::Retry(retry_type)) => {
            let verdict = verdict_of(retry_type, config.nack_code, result);
            (Phase::Settling { verdict }, settle_step(tag, verdict))
        },
        (Phase::Settling { verdict }, Signal::BrokerFailed) => (
            Phase::Closed,
            Step::Return(Ending::MessageError),
        ),
        (Phase::Settling { verdict }, Signal::BrokerOk) => match verdict {
            Verdict::Succeeded => (
                Phase::ResettingWait,
                Step::Ask(
                    Ask::SetQueueWait {
                        id,
                        waiting: config.retry_wait,
                        index,
                        mode: RetryMode::Normal,
                    },
                ),
            ),
            Verdict::Retry => (Phase::ReadingWait, Step::Ask(Ask::GetQueueWait { id, index })),
            _ => (Phase::Listening, Step::Receive),
        },
        (Phase::ResettingWait, Signal::Stored) => (Phase::Listening, Step::Receive),
        (Phase::ReadingWait, Signal::Millis(ms)) => (Phase::DrainCheck { ms }, enabled),
        (Phase::DrainCheck { ms }, Signal::Flag(true)) => (
            Phase::DrainRead { ms },
            Step::Ask(Ask::GetQueueWait { id, index }),
        ),
        (Phase::DrainCheck { ms }, Signal::Flag(false)) => (
            Phase::StoringRetry,
            Step::Ask(Ask::SetQueueWait { id, waiting: ms, index, mode: RetryMode::Retry }),
        ),
        (Phase::DrainRead { ms }, Signal::Millis(left)) => {
            if left <= DEFAULT_WAIT_PART {
                (
                    Phase::DrainReset { ms },
                    Step::Ask(
                        Ask::SetQueueWait {
                            id,
                            waiting: config.retry_wait,
                            index,
                            mode: RetryMode::Normal,
                        },
                    ),
                )
            } else {
                (
                    Phase::DrainStore { ms },
                    Step::Ask(
                        Ask::SetQueueWait {
                            id,
                            waiting: (left - DEFAULT_WAIT_PART) as u64,
                            index,
                            mode: RetryMode::Forced,
                        },
                    ),
                )
            }
        },
        (Phase::DrainReset { ms }, Signal::Stored) => (
            Phase::StoringRetry,
            Step::Ask(Ask::SetQueueWait { id, waiting: ms, index, mode: RetryMode::Retry }),
        ),
        (Phase::DrainStore { ms }, Signal::Stored) => (
            Phase::DrainPause { ms },
            Step::Sleep(DEFAULT_WAIT_PART),
        ),
        (Phase::DrainPause { ms }, Signal::Slept) => (Phase::DrainCheck { ms }, enabled),
        (Phase::StoringRetry, Signal::Stored) => (Phase::Listening, Step::Receive),
        (Phase::Cancelling, Signal::BrokerOk) => (
            Phase::CancelPause,
            Step::Sleep(DEFAULT_WAIT_PART),
        ),
        (Phase::Cancelling, Signal::BrokerFailed) => (Phase::Recovering, Step::Recover),
        (Phase::CancelPause, Signal::Slept) => (Phase::Recovering, Step::Recover),
        (Phase::Recovering, Signal::BrokerOk) => (
            Phase::Closed,
            Step::Return(Ending::Status(ConsumerStatus::ConsumerChanged)),
        ),
        (Phase::Recovering, Signal::BrokerFailed) => (
            Phase::Closed,
            Step::Return(Ending::Status(ConsumerStatus::GenericOk)),
        ),
        _ => (phase, Step::Receive),
    }
}

/// Consumer tag of worker `index`: the queue's consumer name, `_consumer_`
/// and the index in decimal.
pub open spec fn consumer_tag(consumer_name: Seq<char>, index: i32) -> Seq<char> {
    consumer_name + "_consumer_"@ + decimal(index as int)
}

/// One message as the broker delivered it.
#[derive(Debug)]
pub struct Delivery {
    /// The tag under which the broker expects the answer.
    pub delivery_tag: u64,
    /// The body.
    pub data: Vec<u8>,
}

/// What happened since the worker's last action.
#[derive(Debug)]
pub enum Event {
    /// The worker was started.
    Started,
    /// The sleep that was asked for is over.
    Slept,
    /// The broker answered the last request.
    Broker(Result<(), lapin::Error>),
    /// The stream of deliveries gave its next item, or ended.
    Delivery(Option<Result<Delivery, lapin::Error>>),
    /// The race between command and timer is over.
    Raced(CommandResult),
    /// The registry answered.
    Answer(Answer),
}

impl Event {
    /// The event as the transition table reads it.
    pub open spec fn signal(&self) -> Signal {
        match self {
            Event::Started => Signal::Started,
            Event::Slept => Signal::Slept,
            Event::Broker(Ok(_)) => Signal::BrokerOk,
            Event::Broker(Err(_)) => Signal::BrokerFailed,
            Event::Delivery(Some(Ok(delivery))) => Signal::Delivered(delivery.delivery_tag),
            Event::Delivery(Some(Err(_))) => Signal::StreamFailed,
            Event::Delivery(None) => Signal::StreamEnded,
            Event::Raced(result) => Signal::Raced(*result),
            Event::Answer(Answer::Flag(flag)) => Signal::Flag(*flag),
            Event::Answer(Answer::Command(_)) => Signal::Command,
            Event::Answer(Answer::Millis(ms)) => Signal::Millis(*ms),
            Event::Answer(Answer::Retry(retry_type)) => Signal::Retry(*retry_type),
            Event::Answer(Answer::Stored) => Signal::Stored,
        }
    }

    /// The broker's error that the event reports, if it reports one.
    pub open spec fn broker_error(&self) -> Option<lapin::Error> {
        match self {
            Event::Broker(Err(error)) => Some(*error),
            Event::Delivery(Some(Err(error))) => Some(*error),
            _ => None,
        }
    }
}

/// What the worker wants done before it is fed the next event.
#[derive(Debug)]
pub enum Action {
    /// Sleep for the given milliseconds.
    Sleep(u64),
    /// `basic_consume` under the given consumer tag.
    Subscribe(String),
    /// Wait for the next delivery.
    Receive,
    /// Start the command and a timer of the given milliseconds.
    Execute(MessageCommand, u64),
    /// `basic_ack` of the delivery with the given tag.
    Ack(u64),
    /// `basic_reject` of the delivery with the given tag and `requeue`.
    Reject(u64, bool),
    /// `basic_cancel` of the given consumer tag.
    Cancel(String),
    /// `basic_recover` with `requeue` set.
    Recover,
    /// Put the question to the registry.
    Ask(Ask),
    /// Stop with the given result.
    Return(Result<ConsumerStatus, ConsumerError>),
}

/// A worker's result as the transition table names it.
pub open spec fn ending_of(result: Result<ConsumerStatus, ConsumerError>) -> Ending {
    match result {
        Ok(status) => Ending::Status(status),
        Err(ConsumerError::LapinError(_)) => Ending::BrokerError,
        Err(ConsumerError::MessageError(_)) => Ending::MessageError,
        Err(_) => Ending::OtherError,
    }
}

impl Action {
    /// The action as the transition table names it.
    pub open spec fn step(&self) -> Step {
        match self {
            Action::Sleep(ms) => Step::Sleep(*ms),
            Action::Subscribe(_) => Step::Subscribe,
            Action::Receive => Step::Receive,
            Action::Execute(_, timeout) => Step::Execute(*timeout),
            Action::Ack(tag) => Step::Ack(*tag),
            Action::Reject(tag, requeue) => Step::Reject(*tag, *requeue),
            Action::Cancel(_) => Step::Cancel,
            Action::Recover => Step::Recover,
            Action::Ask(ask) => Step::Ask(*ask),
            Action::Return(result) => Step::Return(ending_of(*result)),
        }
    }

    /// The broker's error inside the action, if it returns one.
    pub open spec fn broker_error(&self) -> Option<lapin::Error> {
        match self {
            Action::Return(Err(ConsumerError::LapinError(error))) => Some(*error),
            Action::Return(Err(ConsumerError::MessageError(MessageError::LapinError(error))))
            => Some(*error),
            _ => None,
        }
    }

    /// What the action carries along: a consumer tag, or program, arguments
    /// and log line of a command.
    pub open spec fn texts(&self) -> Seq<Seq<char>> {
        match self {
            Action::Subscribe(tag) | Action::Cancel(tag) => seq![tag@],
            Action::Execute(command, _) => seq![command.human@] + command.words(),
            _ => Seq::empty(),
        }
    }
}

/// The request that settles the delivery `tag` according to `verdict`.
fn settle(tag: u64, verdict: Verdict) -> (action: Action)
    ensures
        action.step() == settle_step(tag, verdict),
        action.broker_error() is None,
        action.texts() == Seq::<Seq<char>>::empty(),
{
    match verdict.settlement() {
        Settlement::Ack => Action::Ack(tag),
        Settlement::RejectRequeue => Action::Reject(tag, true),
        Settlement::RejectDrop => Action::Reject(tag, false),
    }
}

/// One worker of one queue.
pub struct Worker {
    index: i32,
    queue_config: QueueConfig,
    phase: Phase,
    data: Vec<u8>,
    command: String,
}

impl Worker {
    #[verifier::type_invariant]
    spec fn valid_config(self) -> bool {
        self.queue_config@.valid()
    }

    /// Where the worker stands.
    pub closed spec fn phase(&self) -> Phase {
        self.phase
    }

    /// The definition the worker was started with.
    pub closed spec fn config(&self) -> QueueConfigView {
        self.queue_config@
    }

    /// The worker's index among the workers of its queue.
    pub closed spec fn index(&self) -> i32 {
        self.index
    }

    /// Body of the latest delivery.
    pub closed spec fn body(&self) -> Seq<u8> {
        self.data@
    }

    /// Command line that the registry gave for the delivery in hand.
    pub closed spec fn command_line(&self) -> Seq<char> {
        self.command@
    }

    /// The texts that a step carries along when this worker takes it.
    pub open spec fn texts_of(&self, step: Step) -> Seq<Seq<char>> {
        match step {
            Step::Subscribe | Step::Cancel => seq![
                consumer_tag(self.config().consumer_name, self.index()),
            ],
            Step::Execute(_) => {
                let payload = rendered(self.body(), self.config().base64);
                seq![human_command(self.command_line(), payload, self.config().base64)]
                    + command_words(self.command_line(), payload, self.config().base64)
            },
            _ => Seq::empty(),
        }
    }

    /// A worker that has not started yet.
    pub fn new(index: i32, queue_config: QueueConfig) -> (worker: Worker)
        requires
            queue_config@.valid(),
        ensures
            worker.phase() == Phase::Created,
            worker.config() == queue_config@,
            worker.index() == index,
    {
        Worker {
            index,
            queue_config,
            phase: Phase::Created,
            data: Vec::new(),
            command: String::new(),
        }
    }

    /// The worker's consumer tag.
    pub fn consumer_name(&self) -> (tag: String)
        ensures
            tag@ == consumer_tag(self.config().consumer_name, self.index()),
    {
        let mut tag = self.queue_config.consumer_name.clone();
        tag.append("_consumer_");
        push_decimal(&mut tag, self.index);
        tag
    }

    /// Whether the worker waits for `event`.
    pub fn expects(&self, event: &Event) -> (expected: bool)
        ensures
            expected == expects(self.phase(), event.signal()),
    {
        match self.phase {
            Phase::Created => matches!(event, Event::Started),
            Phase::Gate | Phase::CheckingCount { .. } | Phase::CheckingEnabled { .. }
            | Phase::DrainCheck { .. } => matches!(event, Event::Answer(Answer::Flag(_))),
            Phase::GatePause | Phase::DrainPause { .. } | Phase::CancelPause => matches!(
                event,
                Event::Slept
            ),
            Phase::Subscribing | Phase::Settling { .. } | Phase::Cancelling
            | Phase::Recovering => matches!(event, Event::Broker(_)),
            Phase::Listening => matches!(event, Event::Delivery(_)),
            Phase::FetchingCommand { .. } => matches!(event, Event::Answer(Answer::Command(_))),
            Phase::FetchingTimeout { .. } | Phase::ReadingWait | Phase::DrainRead { .. }
            => matches!(event, Event::Answer(Answer::Millis(_))),
            Phase::Running { .. } => matches!(event, Event::Raced(_)),
            Phase::FetchingRetryType { .. } => matches!(event, Event::Answer(Answer::Retry(_))),
            Phase::ResettingWait | Phase::DrainReset { .. } | Phase::DrainStore { .. }
            | Phase::StoringRetry => matches!(event, Event::Answer(Answer::Stored)),
            Phase::Closed => false,
        }
    }

    /// Feeds the worker what happened and returns what to do next, as the
    /// transition table [`next`] has it. A delivery's body and the registry's
    /// command line are kept for the command that is built from them; an error
    /// that the worker returns is the one the event reported.
    pub fn advance(&mut self, event: Event) -> (action: Action)
        requires
            expects(old(self).phase(), event.signal()),
        ensures
            (final(self).phase(), action.step()) == next(
                old(self).config(),
                old(self).index(),
                old(self).phase(),
                event.signal(),
            ),
            final(self).config() == old(self).config(),
            final(self).index() == old(self).index(),
            final(self).body() == match event {
                Event::Delivery(Some(Ok(delivery))) => delivery.data@,
                _ => old(self).body(),
            },
            final(self).command_line() == match event {
                Event::Answer(Answer::Command(command)) => command@,
                _ => old(self).command_line(),
            },
            action.texts() == old(self).texts_of(action.step()),
            action.broker_error() matches Some(error) ==> event.broker_error() == Some(error),
    {
        proof {
            use_type_invariant(&*self);
        }
        let id = self.queue_config.id;
        let index = self.index;
        match event {
            Event::Started => {
                self.phase = Phase::Gate;
                Action::Ask(Ask::IsEnabled { id })
            },
            Event::Slept => match self.phase {
                Phase::GatePause => {
                    self.phase = Phase::Gate;
                    Action::Ask(Ask::IsEnabled { id })
                },
                Phase::DrainPause { ms } => {
                    self.phase = Phase::DrainCheck { ms };
                    Action::Ask(Ask::IsEnabled { id })
                },
                _ => {
                    self.phase = Phase::Recovering;
                    Action::Recover
                },
            },
            Event::Broker(outcome) => self.consume_answer(outcome),
            Event::Delivery(item) => match item {
                Some(Ok(delivery)) => {
                    self.data = delivery.data;
                    self.phase = Phase::CheckingCount { tag: delivery.delivery_tag };
                    Action::Ask(Ask::IsChanged { id, count: self.queue_config.count })
                },
                Some(Err(error)) => {
                    self.phase = Phase::Closed;
                    Action::Return(Err(ConsumerError::LapinError(error)))
                },
                None => {
                    self.phase = Phase::Closed;
                    Action::Return(Ok(ConsumerStatus::GenericOk))
                },
            },
            Event::Raced(result) => match self.phase {
                Phase::Running { tag } => self.process_message(tag, result),
                _ => vstd::pervasive::unreached(),
            },
            Event::Answer(answer) => match answer {
                Answer::Flag(flag) => self.consume_flag(flag),
                Answer::Command(command) => match self.phase {
                    Phase::FetchingCommand { tag } => {
                        self.command = command;
                        self.phase = Phase::FetchingTimeout { tag };
                        Action::Ask(Ask::GetCommandTimeout { id })
                    },
                    _ => vstd::pervasive::unreached(),
                },
                Answer::Millis(ms) => match self.phase {
                    Phase::FetchingTimeout { tag } => {
                        let command = Message::handle_message(
                            self.command.as_str(),
                            self.queue_config.base64,
                            self.data.as_slice(),
                        );
                        self.phase = Phase::Running { tag };
                        Action::Execute(command, ms)
                    },
                    Phase::ReadingWait => {
                        self.phase = Phase::DrainCheck { ms };
                        Action::Ask(Ask::IsEnabled { id })
                    },
                    Phase::DrainRead { ms: first } => self.wait_db(first, ms),
                    _ => vstd::pervasive::unreached(),
                },
                Answer::Retry(retry_type) => match self.phase {
                    Phase::FetchingRetryType { tag, result } => {
                        let verdict = Verdict::new(retry_type, self.queue_config.nack_code, result);
                        self.phase = Phase::Settling { verdict };
                        settle(tag, verdict)
                    },
                    _ => vstd::pervasive::unreached(),
                },
                Answer::Stored => match self.phase {
                    Phase::DrainReset { ms } => {
                        self.phase = Phase::StoringRetry;
                        Action::Ask(
                            Ask::SetQueueWait { id, waiting: ms, index, mode: RetryMode::Retry },
                        )
                    },
                    Phase::DrainStore { ms } => {
                        self.phase = Phase::DrainPause { ms };
                        Action::Sleep(DEFAULT_WAIT_PART)
                    },
                    _ => {
                        self.phase = Phase::Listening;
                        Action::Receive
                    },
                },
            },
        }
    }

    /// Feeds the worker what happened, puts the questions that follow to the
    /// registry and feeds the worker the answers, until the worker turns to
    /// the broker, the command or a timer again. What comes back is the last
    /// step of that run of the machine; every step before it was a question
    /// that the registry answered.
    #[verifier::loop_isolation(false)]
    pub fn step<M: QueueModel + ?Sized>(&mut self, queue: &mut Queue<M>, event: Event) -> (action:
        Action)
        requires
            expects(old(self).phase(), event.signal()),
        ensures
            !(action.step() is Ask),
            final(self).config() == old(self).config(),
            final(self).index() == old(self).index(),
            final(self).body() == match event {
                Event::Delivery(Some(Ok(delivery))) => delivery.data@,
                _ => old(self).body(),
            },
            action.texts() == final(self).texts_of(action.step()),
            action.broker_error() matches Some(error) ==> event.broker_error() == Some(error),
            exists|signals: Seq<Signal>|
                {
                    let (reached, steps) = #[trigger] run(
                        old(self).config(),
                        old(self).index(),
                        old(self).phase(),
                        signals,
                    );
                    &&& signals.len() >= 1
                    &&& signals[0] == event.signal()
                    &&& awaited(old(self).config(), old(self).index(), old(self).phase(), signals)
                    &&& reached == final(self).phase()
                    &&& steps.len() == signals.len()
                    &&& steps.last() == action.step()
                    &&& forall|i: int| 0 <= i < steps.len() - 1 ==> (#[trigger] steps[i]) is Ask
                },
    {
        proof {
            use_type_invariant(&*self);
        }
        let ghost config = self.config();
        let ghost index = self.index();
        let ghost start = self.phase();
        let ghost mut fed: Seq<Signal> = seq![event.signal()];
        let ghost mut before = self.phase();
        let ghost mut last = event.signal();
        let ghost broker_error = event.broker_error();
        let ghost first = event.signal();
        let mut action = self.advance(event);
        let ghost body = self.body();
        proof {
            assert(fed.drop_last() =~= Seq::<Signal>::empty());
            assert(run(config, index, start, fed.drop_last()) == (start, Seq::<Step>::empty()));
            assert(run(config, index, start, fed).1 =~= seq![action.step()]);
            assert(awaited(config, index, start, fed.drop_last()));
            assert(awaited(config, index, start, fed));
        }
        loop
            invariant
                self.config() == config,
                self.index() == index,
                config.valid(),
                self.body() == body,
                fed.len() >= 1,
                fed[0] == first,
                awaited(config, index, start, fed),
                run(config, index, start, fed).0 == self.phase(),
                run(config, index, start, fed).1.len() == fed.len(),
                run(config, index, start, fed).1.last() == action.step(),
                forall|i: int|
                    0 <= i < fed.len() - 1 ==> (#[trigger] run(config, index, start, fed).1[i])
                        is Ask,
                expects(before, last),
                next(config, index, before, last) == (self.phase(), action.step()),
                fed.len() > 1 ==> (last is Flag || last is Command || last is Millis || last
                    is Retry || last is Stored),
                action.texts() == self.texts_of(action.step()),
                action.broker_error() matches Some(error) ==> broker_error == Some(error),
            decreases asks_ahead(self.phase()), if action.step() is Ask { 1nat } else { 0nat },
        {
            match action {
                Action::Ask(ask) => {
                    proof {
                        asks_are_awaited(config, index, before, last);
                    }
                    let answer = queue.answer(ask);
                    let event = Event::Answer(answer);
                    proof {
                        before = self.phase();
                        last = event.signal();
                        let longer = fed.push(last);
                        assert(longer.drop_last() =~= fed);
                        asks_are_awaited(config, index, before, last);
                        fed = longer;
                    }
                    action = self.advance(event);
                    proof {
                        let taken = run(config, index, start, fed.drop_last()).1;
                        assert(run(config, index, start, fed).1 == taken.push(action.step()));
                    }
                },
                other => {
                    return other;
                },
            }
        }
    }

    /// The worker's move once the race between command and timer is over: a
    /// timeout is settled at once, everything else after a look at the
    /// queue's retry type.
    fn process_message(&mut self, tag: u64, result: CommandResult) -> (action: Action)
        requires
            old(self).phase() == (Phase::Running { tag }),
        ensures
            (final(self).phase(), action.step()) == next(
                old(self).config(),
                old(self).index(),
                old(self).phase(),
                Signal::Raced(result),
            ),
            final(self).config() == old(self).config(),
            final(self).index() == old(self).index(),
            final(self).body() == old(self).body(),
            final(self).command_line() == old(self).command_line(),
            action.texts() == Seq::<Seq<char>>::empty(),
            action.broker_error() is None,
    {
        proof {
            use_type_invariant(&*self);
        }
        match result {
            CommandResult::Timeout => {
                self.phase = Phase::Settling { verdict: Verdict::TimedOut };
                settle(tag, Verdict::TimedOut)
            },
            _ => {
                self.phase = Phase::FetchingRetryType { tag, result };
                Action::Ask(Ask::GetRetryType { id: self.queue_config.id })
            },
        }
    }

    /// One round of the countdown that follows a requeue: with `left`
    /// milliseconds on the clock, either store what is left after this round
    /// and sleep, or, where nothing would be left, reset the wait.
    fn wait_db(&mut self, ms: u64, left: u64) -> (action: Action)
        requires
            old(self).phase() == (Phase::DrainRead { ms }),
        ensures
            (final(self).phase(), action.step()) == next(
                old(self).config(),
                old(self).index(),
                old(self).phase(),
                Signal::Millis(left),
            ),
            final(self).config() == old(self).config(),
            final(self).index() == old(self).index(),
            final(self).body() == old(self).body(),
            final(self).command_line() == old(self).command_line(),
            action.texts() == Seq::<Seq<char>>::empty(),
            action.broker_error() is None,
    {
        proof {
            use_type_invariant(&*self);
        }
        let id = self.queue_config.id;
        let index = self.index;
        if left <= DEFAULT_WAIT_PART {
            self.phase = Phase::DrainReset { ms };
            Action::Ask(
                Ask::SetQueueWait {
                    id,
                    waiting: self.queue_config.retry_wait,
                    index,
                    mode: RetryMode::Normal,
                },
            )
        } else {
            self.phase = Phase::DrainStore { ms };
            Action::Ask(
                Ask::SetQueueWait {
                    id,
                    waiting: left - DEFAULT_WAIT_PART,
                    index,
                    mode: RetryMode::Forced,
                },
            )
        }
    }

    /// The worker's move on a yes or no of the registry: on to the
    /// subscription or back to sleep, on with the delivery in hand or out, on
    /// with the countdown or out of it.
    fn consume_flag(&mut self, flag: bool) -> (action: Action)
        requires
            expects(old(self).phase(), Signal::Flag(flag)),
        ensures
            (final(self).phase(), action.step()) == next(
                old(self).config(),
                old(self).index(),
                old(self).phase(),
                Signal::Flag(flag),
            ),
            final(self).config() == old(self).config(),
            final(self).index() == old(self).index(),
            final(self).body() == old(self).body(),
            final(self).command_line() == old(self).command_line(),
            action.texts() == old(self).texts_of(action.step()),
            action.broker_error() is None,
    {
        proof {
            use_type_invariant(&*self);
        }
        let id = self.queue_config.id;
        let index = self.index;
        match self.phase {
            Phase::Gate => {
                if flag {
                    self.phase = Phase::Subscribing;
                    Action::Subscribe(self.consumer_name())
                } else {
                    self.phase = Phase::GatePause;
                    Action::Sleep(CONSUMER_WAIT)
                }
            },
            Phase::CheckingCount { tag } => {
                self.phase = Phase::CheckingEnabled { tag, changed: flag };
                Action::Ask(Ask::IsEnabled { id })
            },
            Phase::CheckingEnabled { tag, changed } => {
                if !changed && flag {
                    self.phase = Phase::FetchingCommand { tag };
                    Action::Ask(Ask::GetCommand { id })
                } else if !flag && !changed {
                    self.phase = Phase::Cancelling;
                    Action::Cancel(self.consumer_name())
                } else if !flag {
                    self.phase = Phase::Recovering;
                    Action::Recover
                } else {
                    self.phase = Phase::Closed;
                    Action::Return(Ok(ConsumerStatus::CountChanged))
                }
            },
            Phase::DrainCheck { ms } => {
                if flag {
                    self.phase = Phase::DrainRead { ms };
                    Action::Ask(Ask::GetQueueWait { id, index })
                } else {
                    self.phase = Phase::StoringRetry;
                    Action::Ask(
                        Ask::SetQueueWait { id, waiting: ms, index, mode: RetryMode::Retry },
                    )
                }
            },
            _ => vstd::pervasive::unreached(),
        }
    }

    /// The worker's move on an answer of the broker: to a subscription, a
    /// settlement, a cancellation or a recovery.
    fn consume_answer(&mut self, outcome: Result<(), lapin::Error>) -> (action: Action)
        requires
            expects(old(self).phase(), Event::Broker(outcome).signal()),
        ensures
            (final(self).phase(), action.step()) == next(
                old(self).config(),
                old(self).index(),
                old(self).phase(),
                Event::Broker(outcome).signal(),
            ),
            final(self).config() == old(self).config(),
            final(self).index() == old(self).index(),
            final(self).body() == old(self).body(),
            final(self).command_line() == old(self).command_line(),
            action.texts() == Seq::<Seq<char>>::empty(),
            action.broker_error() matches Some(error) ==> outcome == Err::<(), lapin::Error>(
                error,
            ),
    {
        proof {
            use_type_invariant(&*self);
        }
        let id = self.queue_config.id;
        let index = self.index;
        match self.phase {
            Phase::Subscribing => match outcome {
                Ok(_) => {
                    self.phase = Phase::Listening;
                    Action::Receive
                },
                Err(error) => {
                    self.phase = Phase::Closed;
                    Action::Return(Err(ConsumerError::LapinError(error)))
                },
            },
            Phase::Settling { verdict } => match outcome {
                Ok(_) => match verdict {
                    Verdict::Succeeded => {
                        self.phase = Phase::ResettingWait;
                        Action::Ask(
                            Ask::SetQueueWait {
                                id,
                                waiting: self.queue_config.retry_wait,
                                index,
                                mode: RetryMode::Normal,
                            },
                        )
                    },
                    Verdict::Retry => {
                        self.phase = Phase::ReadingWait;
                        Action::Ask(Ask::GetQueueWait { id, index })
                    },
                    _ => {
                        self.phase = Phase::Listening;
                        Action::Receive
                    },
                },
                Err(error) => {
                    self.phase = Phase::Closed;
                    Action::Return(Err(ConsumerError::MessageError(MessageError::LapinError(error))))
                },
            },
            Phase::Cancelling => match outcome {
                Ok(_) => {
                    self.phase = Phase::CancelPause;
                    Action::Sleep(DEFAULT_WAIT_PART)
                },
                Err(_) => {
                    self.phase = Phase::Recovering;
                    Action::Recover
                },
            },
            Phase::Recovering => match outcome {
                Ok(_) => {
                    self.phase = Phase::Closed;
                    Action::Return(Ok(ConsumerStatus::ConsumerChanged))
                },
                Err(_) => {
                    self.phase = Phase::Closed;
                    Action::Return(Ok(ConsumerStatus::GenericOk))
                },
            },
            _ => vstd::pervasive::unreached(),
        }
    }
}

} // verus!
