//! One queue definition and its mathematical view.

use vstd::prelude::*;

use crate::config::queue::clock::TimeOfDay;

verus! {

/// Milliseconds in a second.
pub const TIME_MS_MULTIPLIER: u64 = 1000;

/// Factor between the configured command timeout and seconds.
pub const TIME_S_MULTIPLIER: u64 = 60;

/// Retry wait, in seconds, of a queue that the registry does not know.
pub const DEFAULT_WAIT: u64 = 120;

/// Command timeout of a queue that configures none.
pub const DEFAULT_TIMEOUT: u64 = 30;

/// Prefetch count of a queue that configures none.
pub const DEFAULT_PREFETCH: u16 = 1;

/// Definition of one queue: what to consume, what to run and how to retry.
#[derive(Debug)]
pub struct QueueConfig {
    pub id: i32,
    pub queue_name: String,
    pub consumer_name: String,
    pub command: String,
    pub command_timeout: Option<u64>,
    pub base64: bool,
    pub start_hour: Option<TimeOfDay>,
    pub end_hour: Option<TimeOfDay>,
    pub count: i32,
    pub nack_code: Option<i32>,
    pub prefetch_count: Option<u16>,
    pub retry_wait: u64,
    pub retry_mode: String,
    pub enabled: bool,
}

/// A queue definition with its texts as sequences of characters.
pub struct QueueConfigView {
    pub id: i32,
    pub queue_name: Seq<char>,
    pub consumer_name: Seq<char>,
    pub command: Seq<char>,
    pub command_timeout: Option<u64>,
    pub base64: bool,
    pub start_hour: Option<TimeOfDay>,
    pub end_hour: Option<TimeOfDay>,
    pub count: i32,
    pub nack_code: Option<i32>,
    pub prefetch_count: Option<u16>,
    pub retry_wait: u64,
    pub retry_mode: Seq<char>,
    pub enabled: bool,
}

impl QueueConfigView {
    /// Configured command timeout, or the default.
    pub open spec fn timeout(self) -> int {
        match self.command_timeout {
            Some(timeout) => timeout as int,
            None => DEFAULT_TIMEOUT as int,
        }
    }

    /// Command timeout in milliseconds.
    pub open spec fn timeout_ms(self) -> int {
        self.timeout() * TIME_S_MULTIPLIER * TIME_MS_MULTIPLIER
    }

    /// Initial retry wait in milliseconds.
    pub open spec fn retry_wait_ms(self) -> int {
        self.retry_wait * TIME_MS_MULTIPLIER
    }

    /// A definition the registry accepts: the worker count is not negative and
    /// both durations still fit 64 bits once converted to milliseconds.
    pub open spec fn valid(self) -> bool {
        &&& self.count >= 0
        &&& self.timeout_ms() <= u64::MAX
        &&& self.retry_wait_ms() <= u64::MAX
    }

    /// Whether the definition is switched on and, where it has a window of
    /// hours, `now` lies inside the window, ends included.
    pub open spec fn enabled_at(self, now: TimeOfDay) -> bool {
        self.enabled && match (self.start_hour, self.end_hour) {
            (Some(start), Some(end)) => start.not_after(now) && now.not_after(end),
            _ => true,
        }
    }
}

impl View for QueueConfig {
    type V = QueueConfigView;

    open spec fn view(&self) -> QueueConfigView {
        QueueConfigView {
            id: self.id,
            queue_name: self.queue_name@,
            consumer_name: self.consumer_name@,
            command: self.command@,
            command_timeout: self.command_timeout,
            base64: self.base64,
            start_hour: self.start_hour,
            end_hour: self.end_hour,
            count: self.count,
            nack_code: self.nack_code,
            prefetch_count: self.prefetch_count,
            retry_wait: self.retry_wait,
            retry_mode: self.retry_mode@,
            enabled: self.enabled,
        }
    }
}

impl DeepView for QueueConfig {
    type V = QueueConfigView;

    open spec fn deep_view(&self) -> QueueConfigView {
        self@
    }
}

impl Clone for QueueConfig {
    fn clone(&self) -> (copy: QueueConfig)
        ensures
            copy == *self,
    {
        QueueConfig {
            id: self.id,
            queue_name: self.queue_name.clone(),
            consumer_name: self.consumer_name.clone(),
            command: self.command.clone(),
            command_timeout: self.command_timeout,
            base64: self.base64,
            start_hour: self.start_hour,
            end_hour: self.end_hour,
            count: self.count,
            nack_code: self.nack_code,
            prefetch_count: self.prefetch_count,
            retry_wait: self.retry_wait,
            retry_mode: self.retry_mode.clone(),
            enabled: self.enabled,
        }
    }
}

impl QueueConfig {
    /// Whether the definition meets [`QueueConfigView::valid`].
    pub fn is_valid(&self) -> (valid: bool)
        ensures
            valid == self@.valid(),
    {
        let timeout = match self.command_timeout {
            Some(timeout) => timeout,
            None => DEFAULT_TIMEOUT,
        };
        proof {
            assert(self@.timeout_ms() == timeout * 60_000);
            assert(self@.retry_wait_ms() == self.retry_wait * 1000);
        }
        self.count >= 0 && timeout <= 307_445_734_561_825 && self.retry_wait
            <= 18_446_744_073_709_551
    }

    /// Whether the queue is enabled when the clock shows `now`.
    pub fn is_enabled_at(&self, now: &TimeOfDay) -> (enabled: bool)
        ensures
            enabled == self@.enabled_at(*now),
    {
        self.enabled && match (&self.start_hour, &self.end_hour) {
            (Some(start), Some(end)) => start.le(now) && now.le(end),
            _ => true,
        }
    }
}

/// First definition with the given id, in listing order.
pub open spec fn lookup(queues: Seq<QueueConfigView>, id: i32) -> Option<QueueConfigView>
    decreases queues.len(),
{
    if queues.len() == 0 {
        None
    } else if queues[0].id == id {
        Some(queues[0])
    } else {
        lookup(queues.drop_first(), id)
    }
}

/// Every listed definition is valid.
pub open spec fn all_valid(queues: Seq<QueueConfigView>) -> bool {
    forall|i: int| 0 <= i < queues.len() ==> (#[trigger] queues[i]).valid()
}

/// What `lookup` finds is listed, carries the id asked for and is the first
/// to do so; where it finds nothing, no listed definition carries the id.
pub proof fn lookup_finds_first(queues: Seq<QueueConfigView>, id: i32)
    ensures
        match lookup(queues, id) {
            Some(found) => exists|i: int|
                0 <= i < queues.len() && queues[i] == found && found.id == id && forall|j: int|
                    0 <= j < i ==> (#[trigger] queues[j]).id != id,
            None => forall|j: int| 0 <= j < queues.len() ==> (#[trigger] queues[j]).id != id,
        },
    decreases queues.len(),
{
    if queues.len() == 0 {
    } else if queues[0].id == id {
        assert(queues[0] == lookup(queues, id).unwrap());
    } else {
        let rest = queues.drop_first();
        lookup_finds_first(rest, id);
        match lookup(rest, id) {
            Some(found) => {
                let i = choose|i: int|
                    0 <= i < rest.len() && rest[i] == found && found.id == id && forall|j: int|
                        0 <= j < i ==> (#[trigger] rest[j]).id != id;
                assert(queues[i + 1] == found);
                assert forall|j: int| 0 <= j < i + 1 implies (#[trigger] queues[j]).id != id by {
                    if j > 0 {
                        assert(rest[j - 1] == queues[j]);
                    }
                }
            },
            None => {
                assert forall|j: int| 0 <= j < queues.len() implies (#[trigger] queues[j]).id
                    != id by {
                    if j > 0 {
                        assert(rest[j - 1] == queues[j]);
                    }
                }
            },
        }
    }
}

} // verus!
