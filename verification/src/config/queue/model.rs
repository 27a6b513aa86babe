//! The source of queue definitions behind the registry.

use vstd::prelude::*;

use crate::config::queue::clock::{local_time, TimeOfDay};
use crate::config::queue::config::{
    all_valid, lookup, QueueConfig, QueueConfigView, DEFAULT_TIMEOUT, TIME_MS_MULTIPLIER,
    TIME_S_MULTIPLIER,
};

verus! {

/// Command of the definition found, or the empty text.
pub open spec fn command_of(found: Option<QueueConfigView>) -> Seq<char> {
    match found {
        Some(queue) => queue.command,
        None => Seq::empty(),
    }
}

/// Command timeout in milliseconds of the definition found, or of the default
/// timeout where none was found.
pub open spec fn timeout_ms_of(found: Option<QueueConfigView>) -> int {
    match found {
        Some(queue) => queue.timeout_ms(),
        None => DEFAULT_TIMEOUT * TIME_S_MULTIPLIER * TIME_MS_MULTIPLIER,
    }
}

/// Whether the definition found is enabled at `now`; an unknown queue never is.
pub open spec fn enabled_of(found: Option<QueueConfigView>, now: TimeOfDay) -> bool {
    match found {
        Some(queue) => queue.enabled_at(now),
        None => false,
    }
}

/// Whether the definition found asks for another number of workers than
/// `current_count`; an unknown queue never does.
pub open spec fn changed_of(found: Option<QueueConfigView>, current_count: i32) -> bool {
    match found {
        Some(queue) => queue.count != current_count,
        None => false,
    }
}

/// Command of the definition found, or the empty text.
pub fn found_command(found: Option<QueueConfig>) -> (command: String)
    ensures
        command@ == command_of(found.deep_view()),
{
    match found {
        Some(queue) => queue.command,
        None => String::new(),
    }
}

/// Command timeout in milliseconds of the definition found.
pub fn found_command_timeout(found: &Option<QueueConfig>) -> (timeout: u64)
    requires
        found matches Some(queue) ==> queue@.valid(),
    ensures
        timeout == timeout_ms_of(found.deep_view()),
{
    let seconds = match found {
        Some(queue) => match queue.command_timeout {
            Some(timeout) => timeout,
            None => DEFAULT_TIMEOUT,
        },
        None => DEFAULT_TIMEOUT,
    };
    assert(seconds * 60_000 == timeout_ms_of(found.deep_view()));
    (seconds * TIME_S_MULTIPLIER) * TIME_MS_MULTIPLIER
}

/// Whether the definition found is enabled when the clock shows `now`.
pub fn found_enabled(found: &Option<QueueConfig>, now: &TimeOfDay) -> (enabled: bool)
    ensures
        enabled == enabled_of(found.deep_view(), *now),
{
    match found {
        Some(queue) => queue.is_enabled_at(now),
        None => false,
    }
}

/// Whether the definition found asks for another number of workers.
pub fn found_changed(found: &Option<QueueConfig>, current_count: i32) -> (changed: bool)
    ensures
        changed == changed_of(found.deep_view(), current_count),
{
    match found {
        Some(queue) => queue.count != current_count,
        None => false,
    }
}

/// A source of queue definitions: a fixed list, or a table that may change
/// between two reads.
///
/// `listed` is the list as the source held it when it last answered. Every
/// answer is taken from that list, and the list holds valid definitions only:
/// a source drops or refuses what [`QueueConfigView::valid`] rejects.
pub trait QueueModel {
    /// The definitions behind the latest answer, in listing order.
    spec fn listed(&self) -> Seq<QueueConfigView>;

    /// All definitions.
    fn get_queues(&mut self) -> (queues: Vec<QueueConfig>)
        ensures
            queues.deep_view() == final(self).listed(),
            all_valid(final(self).listed()),
    ;

    /// The first definition with the given id.
    fn get_queue(&mut self, id: i32) -> (queue: Option<QueueConfig>)
        ensures
            queue.deep_view() == lookup(final(self).listed(), id),
            all_valid(final(self).listed()),
    ;

    /// Command line of the queue; empty for an unknown queue.
    fn get_command(&mut self, id: i32) -> (command: String)
        ensures
            command@ == command_of(lookup(final(self).listed(), id)),
            all_valid(final(self).listed()),
    {
        found_command(self.get_queue(id))
    }

    /// Command timeout of the queue in milliseconds.
    fn get_command_timeout(&mut self, id: i32) -> (timeout: u64)
        ensures
            timeout == timeout_ms_of(lookup(final(self).listed(), id)),
            all_valid(final(self).listed()),
    {
        let found = self.get_queue(id);
        proof {
            crate::config::queue::config::lookup_finds_first(self.listed(), id);
        }
        found_command_timeout(&found)
    }

    /// Whether the queue is enabled at the time the local clock shows. The
    /// clock is read once per call, so the answer is that of
    /// [`QueueConfigView::enabled_at`] for some valid time of day.
    fn is_enabled(&mut self, id: i32) -> (enabled: bool)
        ensures
            exists|now: TimeOfDay|
                now.valid() && enabled == #[trigger] enabled_of(
                    lookup(final(self).listed(), id),
                    now,
                ),
            all_valid(final(self).listed()),
    {
        let found = self.get_queue(id);
        let now = local_time();
        found_enabled(&found, &now)
    }

    /// Whether the queue now asks for another number of workers.
    fn is_changed(&mut self, id: i32, current_count: i32) -> (changed: bool)
        ensures
            changed == changed_of(lookup(final(self).listed(), id), current_count),
            all_valid(final(self).listed()),
    {
        let found = self.get_queue(id);
        found_changed(&found, current_count)
    }
}

} // verus!
