//! The queue registry and the retry waits of its workers.

pub mod clock;
pub mod config;
pub mod model;

use std::collections::HashMap;
use vstd::prelude::*;

use crate::config::queue::clock::TimeOfDay;
use crate::config::queue::config::{
    all_valid, lookup, QueueConfig, QueueConfigView, DEFAULT_WAIT, TIME_MS_MULTIPLIER,
};
use crate::config::queue::model::{changed_of, command_of, enabled_of, timeout_ms_of, QueueModel};

verus! {

/// How the wait between two retries of a queue develops.
#[derive(Clone, Copy, Debug, PartialEq, Eq, Structural)]
pub enum RetryType {
    /// The wait stays what it is.
    Static,
    /// The wait doubles with every retry.
    Incremental,
    /// The command's exit status is ignored; nothing is retried.
    Ignored,
}

/// What a write to the retry wait means.
#[derive(Clone, Copy, Debug, PartialEq, Eq, Structural)]
pub enum RetryMode {
    /// Start over from a wait given in seconds.
    Normal,
    /// Account for one more retry after a wait given in milliseconds.
    Retry,
    /// Store the given milliseconds as they are.
    Forced,
}

/// A question to the registry, or a write to its waits.
#[derive(Clone, Copy, Debug, PartialEq, Eq, Structural)]
pub enum Ask {
    IsEnabled { id: i32 },
    IsChanged { id: i32, count: i32 },
    GetCommand { id: i32 },
    GetCommandTimeout { id: i32 },
    GetRetryType { id: i32 },
    GetQueueWait { id: i32, index: i32 },
    SetQueueWait { id: i32, waiting: u64, index: i32, mode: RetryMode },
}

/// What the registry answers.
#[derive(Debug)]
pub enum Answer {
    Flag(bool),
    Command(String),
    Millis(u64),
    Retry(RetryType),
    Stored,
}

impl Ask {
    /// A request the registry can serve: a wait given in seconds has to fit
    /// 64 bits in milliseconds.
    pub open spec fn admissible(self) -> bool {
        self matches Ask::SetQueueWait { waiting, mode, .. } ==> (mode == RetryMode::Normal
            ==> waiting * TIME_MS_MULTIPLIER <= u64::MAX)
    }

    /// Whether the request leaves the stored waits alone.
    pub open spec fn reads_definitions(self) -> bool {
        !(self is GetQueueWait) && !(self is SetQueueWait)
    }
}

/// Retry type that a definition names: `incremental`, `ignored`, and `static`
/// for every other text.
pub open spec fn retry_type_named(mode: Seq<char>) -> RetryType {
    if mode == "incremental"@ {
        RetryType::Incremental
    } else if mode == "ignored"@ {
        RetryType::Ignored
    } else {
        RetryType::Static
    }
}

/// Retry type of the definition found; static for an unknown queue.
pub open spec fn retry_type_of(found: Option<QueueConfigView>) -> RetryType {
    match found {
        Some(queue) => retry_type_named(queue.retry_mode),
        None => RetryType::Static,
    }
}

/// Wait in milliseconds that a worker starts from: the definition's retry
/// wait, or the default for an unknown queue.
pub open spec fn initial_wait_of(found: Option<QueueConfigView>) -> int {
    match found {
        Some(queue) => queue.retry_wait_ms(),
        None => DEFAULT_WAIT * TIME_MS_MULTIPLIER,
    }
}

/// Milliseconds that a write of `waiting` stores.
pub open spec fn stored_wait(mode: RetryMode, retry_type: RetryType, waiting: u64) -> int {
    match mode {
        RetryMode::Normal => waiting * TIME_MS_MULTIPLIER,
        RetryMode::Retry => if retry_type == RetryType::Incremental && waiting < u64::MAX / 2 {
            waiting * 2
        } else {
            waiting as int
        },
        RetryMode::Forced => waiting as int,
    }
}

/// Retry type that a definition names.
pub fn retry_type_from_name(mode: &String) -> (retry_type: RetryType)
    ensures
        retry_type == retry_type_named(mode@),
{
    let incremental = "incremental".to_owned();
    let ignored = "ignored".to_owned();
    if *mode == incremental {
        RetryType::Incremental
    } else if *mode == ignored {
        RetryType::Ignored
    } else {
        RetryType::Static
    }
}

/// Retry type of the definition found.
pub fn found_retry_type(found: &Option<QueueConfig>) -> (retry_type: RetryType)
    ensures
        retry_type == retry_type_of(found.deep_view()),
{
    match found {
        Some(queue) => retry_type_from_name(&queue.retry_mode),
        None => RetryType::Static,
    }
}

/// Wait in milliseconds that a worker starts from.
pub fn found_initial_wait(found: &Option<QueueConfig>) -> (wait: u64)
    requires
        found matches Some(queue) ==> queue@.valid(),
    ensures
        wait == initial_wait_of(found.deep_view()),
{
    match found {
        Some(queue) => queue.retry_wait * TIME_MS_MULTIPLIER,
        None => DEFAULT_WAIT * TIME_MS_MULTIPLIER,
    }
}

/// Milliseconds that a write of `waiting` stores. A wait given in seconds has
/// to fit 64 bits in milliseconds.
pub fn wait_to_store(mode: RetryMode, retry_type: RetryType, waiting: u64) -> (stored: u64)
    requires
        mode == RetryMode::Normal ==> waiting * TIME_MS_MULTIPLIER <= u64::MAX,
    ensures
        stored == stored_wait(mode, retry_type, waiting),
{
    match mode {
        RetryMode::Normal => waiting * TIME_MS_MULTIPLIER,
        RetryMode::Retry => match retry_type {
            RetryType::Incremental => {
                if waiting >= u64::MAX / 2 {
                    waiting
                } else {
                    waiting * 2
                }
            },
            _ => waiting,
        },
        RetryMode::Forced => waiting,
    }
}

/// Incremental doubling saturates: whatever is written in retry mode, the
/// stored wait is a 64-bit value, and it is the written value itself from half
/// the range on.
pub proof fn retry_wait_saturates(retry_type: RetryType, waiting: u64)
    ensures
        stored_wait(RetryMode::Retry, retry_type, waiting) <= u64::MAX,
        waiting >= u64::MAX / 2 ==> stored_wait(RetryMode::Retry, retry_type, waiting) == waiting,
        retry_type != RetryType::Incremental ==> stored_wait(RetryMode::Retry, retry_type, waiting)
            == waiting,
{
}

/// A wait that was written is the wait that is read: after a write for a
/// worker, the worker's entry holds what the write stores, which is the
/// seconds in milliseconds in normal mode, the value itself in forced mode and
/// in retry mode on a queue that does not increment, and the value itself on
/// any queue from half the range on. Other workers' entries stay as they were.
pub proof fn written_wait_is_read(
    waits: Map<(i32, i32), u64>,
    worker: (i32, i32),
    other: (i32, i32),
    mode: RetryMode,
    retry_type: RetryType,
    waiting: u64,
)
    requires
        mode == RetryMode::Normal ==> waiting * TIME_MS_MULTIPLIER <= u64::MAX,
    ensures
        ({
            let after = waits.insert(worker, stored_wait(mode, retry_type, waiting) as u64);
            &&& after.contains_key(worker)
            &&& after[worker] == stored_wait(mode, retry_type, waiting)
            &&& mode == RetryMode::Normal ==> after[worker] == waiting * 1000
            &&& mode == RetryMode::Forced ==> after[worker] == waiting
            &&& mode == RetryMode::Retry && retry_type != RetryType::Incremental ==> after[worker]
                == waiting
            &&& mode == RetryMode::Retry && retry_type == RetryType::Incremental && waiting
                < u64::MAX / 2 ==> after[worker] == waiting * 2
            &&& mode == RetryMode::Retry && waiting >= u64::MAX / 2 ==> after[worker] == waiting
            &&& other != worker ==> after.contains_key(other) == waits.contains_key(other)
                && after[other] == waits[other]
        }),
{
}

/// Key under which the wait of worker `index` of queue `id` is stored.
pub open spec fn wait_key(id: i32, index: i32) -> u64 {
    ((id + 2_147_483_648) * 4_294_967_296 + (index + 2_147_483_648)) as u64
}

/// Two workers never share a key.
pub proof fn wait_key_is_injective(id: i32, index: i32, other_id: i32, other_index: i32)
    ensures
        wait_key(id, index) == wait_key(other_id, other_index) ==> id == other_id && index
            == other_index,
{
}

fn key_of(id: i32, index: i32) -> (key: u64)
    ensures
        key == wait_key(id, index),
{
    let high = (id as i64 + 2_147_483_648) as u64;
    let low = (index as i64 + 2_147_483_648) as u64;
    high * 4_294_967_296 + low
}

/// The queue registry: a source of definitions and, per worker, the
/// milliseconds to wait before the next retry.
pub struct Queue<M: QueueModel + ?Sized> {
    inner: Box<M>,
    waits: HashMap<u64, u64>,
}

impl<M: QueueModel + ?Sized> Queue<M> {
    /// The definitions behind the registry's latest answer.
    pub closed spec fn listed(&self) -> Seq<QueueConfigView> {
        self.inner.listed()
    }

    /// The stored waits in milliseconds, by queue id and worker index.
    pub closed spec fn waits(&self) -> Map<(i32, i32), u64> {
        Map::new(
            |worker: (i32, i32)| self.waits@.contains_key(wait_key(worker.0, worker.1)),
            |worker: (i32, i32)| self.waits@[wait_key(worker.0, worker.1)],
        )
    }

    pub fn new(model: Box<M>) -> (queue: Queue<M>)
        ensures
            queue.listed() == model.listed(),
            queue.waits() == Map::<(i32, i32), u64>::empty(),
    {
        let queue = Queue { inner: model, waits: HashMap::new() };
        assert(queue.waits() =~= Map::<(i32, i32), u64>::empty());
        queue
    }

    pub fn get_queues(&mut self) -> (queues: Vec<QueueConfig>)
        ensures
            queues.deep_view() == final(self).listed(),
            all_valid(final(self).listed()),
            final(self).waits() == old(self).waits(),
    {
        self.inner.get_queues()
    }

    pub fn get_command(&mut self, id: i32) -> (command: String)
        ensures
            command@ == command_of(lookup(final(self).listed(), id)),
            final(self).waits() == old(self).waits(),
    {
        self.inner.get_command(id)
    }

    pub fn get_command_timeout(&mut self, id: i32) -> (timeout: u64)
        ensures
            timeout == timeout_ms_of(lookup(final(self).listed(), id)),
            final(self).waits() == old(self).waits(),
    {
        self.inner.get_command_timeout(id)
    }

    /// Whether the queue is enabled now. The local clock is read once, so the
    /// answer is that of [`QueueConfigView::enabled_at`] for some valid time.
    pub fn is_enabled(&mut self, id: i32) -> (enabled: bool)
        ensures
            exists|now: TimeOfDay|
                now.valid() && enabled == #[trigger] enabled_of(
                    lookup(final(self).listed(), id),
                    now,
                ),
            final(self).waits() == old(self).waits(),
    {
        self.inner.is_enabled(id)
    }

    pub fn is_changed(&mut self, id: i32, current_count: i32) -> (changed: bool)
        ensures
            changed == changed_of(lookup(final(self).listed(), id), current_count),
            final(self).waits() == old(self).waits(),
    {
        self.inner.is_changed(id, current_count)
    }

    pub fn get_retry_type(&mut self, id: i32) -> (retry_type: RetryType)
        ensures
            retry_type == retry_type_of(lookup(final(self).listed(), id)),
            final(self).waits() == old(self).waits(),
    {
        let found = self.inner.get_queue(id);
        found_retry_type(&found)
    }

    /// Milliseconds that worker `consumer_index` of queue `id` waits before a
    /// retry. The first read of a worker stores the queue's initial wait;
    /// later reads leave the registry as it is.
    pub fn get_queue_wait(&mut self, id: i32, consumer_index: i32) -> (wait: u64)
        ensures
            final(self).waits().contains_key((id, consumer_index)),
            final(self).waits()[(id, consumer_index)] == wait,
            old(self).waits().contains_key((id, consumer_index)) ==> {
                &&& wait == old(self).waits()[(id, consumer_index)]
                &&& final(self).waits() == old(self).waits()
                &&& final(self).listed() == old(self).listed()
            },
            !old(self).waits().contains_key((id, consumer_index)) ==> {
                &&& wait == initial_wait_of(lookup(final(self).listed(), id))
                &&& final(self).waits() == old(self).waits().insert((id, consumer_index), wait)
            },
    {
        let key = key_of(id, consumer_index);
        let stored = match self.waits.get(&key) {
            Some(wait) => Some(*wait),
            None => None,
        };
        match stored {
            Some(wait) => wait,
            None => {
                let found = self.inner.get_queue(id);
                proof {
                    crate::config::queue::config::lookup_finds_first(self.inner.listed(), id);
                }
                let wait = found_initial_wait(&found);
                self.waits.insert(key, wait);
                proof {
                    assert forall|worker: (i32, i32)|
                        wait_key(worker.0, worker.1) == key implies worker == (
                        id,
                        consumer_index,
                    ) by {
                        wait_key_is_injective(worker.0, worker.1, id, consumer_index);
                    }
                    assert(self.waits() =~= old(self).waits().insert((id, consumer_index), wait));
                }
                wait
            },
        }
    }

    /// Writes the wait of worker `consumer_index` of queue `id`: `waiting`
    /// seconds in normal mode, `waiting` milliseconds doubled or kept in retry
    /// mode, and kept in forced mode.
    pub fn set_queue_wait(
        &mut self,
        id: i32,
        waiting: u64,
        consumer_index: i32,
        retry_mode: RetryMode,
    )
        requires
            retry_mode == RetryMode::Normal ==> waiting * TIME_MS_MULTIPLIER <= u64::MAX,
        ensures
            final(self).waits() == old(self).waits().insert(
                (id, consumer_index),
                stored_wait(
                    retry_mode,
                    retry_type_of(lookup(final(self).listed(), id)),
                    waiting,
                ) as u64,
            ),
    {
        let retry_type = self.get_retry_type(id);
        let key = key_of(id, consumer_index);
        let stored = wait_to_store(retry_mode, retry_type, waiting);
        self.waits.insert(key, stored);
        proof {
            assert forall|worker: (i32, i32)| wait_key(worker.0, worker.1) == key implies worker
                == (id, consumer_index) by {
                wait_key_is_injective(worker.0, worker.1, id, consumer_index);
            }
            assert(self.waits() =~= old(self).waits().insert((id, consumer_index), stored));
        }
    }

    /// Serves one request: the answer of the method that the request names,
    /// with that method's effect on the registry.
    pub fn answer(&mut self, ask: Ask) -> (answer: Answer)
        requires
            ask.admissible(),
        ensures
            ask.reads_definitions() ==> final(self).waits() == old(self).waits(),
            ask matches Ask::IsEnabled { id } ==> answer matches Answer::Flag(enabled)
                && exists|now: TimeOfDay|
                now.valid() && enabled == #[trigger] enabled_of(
                    lookup(final(self).listed(), id),
                    now,
                ),
            ask matches Ask::IsChanged { id, count } ==> answer matches Answer::Flag(changed)
                && changed == changed_of(lookup(final(self).listed(), id), count),
            ask matches Ask::GetCommand { id } ==> answer matches Answer::Command(command)
                && command@ == command_of(lookup(final(self).listed(), id)),
            ask matches Ask::GetCommandTimeout { id } ==> answer matches Answer::Millis(timeout)
                && timeout == timeout_ms_of(lookup(final(self).listed(), id)),
            ask matches Ask::GetRetryType { id } ==> answer matches Answer::Retry(retry_type)
                && retry_type == retry_type_of(lookup(final(self).listed(), id)),
            ask matches Ask::GetQueueWait { id, index } ==> answer matches Answer::Millis(wait) && {
                &&& final(self).waits().contains_key((id, index))
                &&& final(self).waits()[(id, index)] == wait
                &&& old(self).waits().contains_key((id, index)) ==> {
                    &&& wait == old(self).waits()[(id, index)]
                    &&& final(self).waits() == old(self).waits()
                    &&& final(self).listed() == old(self).listed()
                }
                &&& !old(self).waits().contains_key((id, index)) ==> {
                    &&& wait == initial_wait_of(lookup(final(self).listed(), id))
                    &&& final(self).waits() == old(self).waits().insert((id, index), wait)
                }
            },
            ask matches Ask::SetQueueWait { id, waiting, index, mode } ==> answer is Stored
                && final(self).waits() == old(self).waits().insert(
                (id, index),
                stored_wait(mode, retry_type_of(lookup(final(self).listed(), id)), waiting) as u64,
            ),
    {
        match ask {
            Ask::IsEnabled { id } => Answer::Flag(self.is_enabled(id)),
            Ask::IsChanged { id, count } => Answer::Flag(self.is_changed(id, count)),
            Ask::GetCommand { id } => Answer::Command(self.get_command(id)),
            Ask::GetCommandTimeout { id } => Answer::Millis(self.get_command_timeout(id)),
            Ask::GetRetryType { id } => Answer::Retry(self.get_retry_type(id)),
            Ask::GetQueueWait { id, index } => Answer::Millis(self.get_queue_wait(id, index)),
            Ask::SetQueueWait { id, waiting, index, mode } => {
                self.set_queue_wait(id, waiting, index, mode);
                Answer::Stored
            },
        }
    }
}

} // verus!
