//! Bounded reconnection policy: exponential wait on errors, reset on connect.

use vstd::prelude::*;

use crate::client::executor::events::Events;

verus! {

/// Wait, in milliseconds, that a fresh or freshly connected waiter starts from.
pub const LOOP_WAIT: u64 = 500;

/// Largest wait the policy ever asks for.
pub const MAX_WAIT: u64 = u64::MAX / 2;

/// Wait that follows `wait` after one more failure: doubled, but never above
/// [`MAX_WAIT`].
pub open spec fn wait_after_error(wait: int) -> int {
    if wait * 2 <= MAX_WAIT as int {
        wait * 2
    } else {
        MAX_WAIT as int
    }
}

/// Failure count that follows `attempts` after one more failure. With a
/// positive budget the count grows by one until it reaches the budget; without
/// a budget nothing is counted.
pub open spec fn attempts_after_error(max_reconnects: int, attempts: int) -> int {
    if max_reconnects > 0 && attempts < max_reconnects {
        attempts + 1
    } else {
        attempts
    }
}

/// Whether a policy with budget `max_reconnects` gives up after `attempts`
/// consecutive failures.
pub open spec fn gives_up(max_reconnects: int, attempts: int) -> bool {
    max_reconnects > 0 && attempts >= max_reconnects
}

/// The wait after an error is a 64-bit value that never falls and never
/// passes [`MAX_WAIT`]; below half of `MAX_WAIT` it is exactly the double. The
/// failure count never passes a positive budget.
pub proof fn error_step_is_bounded(max_reconnects: i32, attempts: i32, wait: u64)
    ensures
        wait <= MAX_WAIT ==> wait <= wait_after_error(wait as int) <= MAX_WAIT,
        wait * 2 <= MAX_WAIT ==> wait_after_error(wait as int) == wait * 2,
        wait_after_error(wait as int) <= u64::MAX,
        max_reconnects > 0 && 0 <= attempts <= max_reconnects ==> attempts <= attempts_after_error(
            max_reconnects as int,
            attempts as int,
        ) <= max_reconnects,
        max_reconnects > 0 && 0 <= attempts < max_reconnects ==> attempts_after_error(
            max_reconnects as int,
            attempts as int,
        ) == attempts + 1,
{
}

/// Reconnection state of the outer client.
pub struct Waiter {
    connections: i32,
    waiting: u64,
    waiting_times: i32,
}

impl Waiter {
    /// Number of consecutive failures after which the client gives up; zero or
    /// less means it never does.
    pub closed spec fn max_reconnects(&self) -> int {
        self.connections as int
    }

    /// Consecutive failures counted since the last successful connection.
    pub closed spec fn failed_attempts(&self) -> int {
        self.waiting_times as int
    }

    /// Milliseconds to sleep before the next attempt.
    pub closed spec fn current_wait(&self) -> int {
        self.waiting as int
    }

    /// The failure count never leaves the range the budget allows.
    pub closed spec fn wf(&self) -> bool {
        if self.connections > 0 {
            0 <= self.waiting_times <= self.connections
        } else {
            self.waiting_times == 0
        }
    }

    pub fn new(connections: i32) -> (waiter: Waiter)
        ensures
            waiter.wf(),
            waiter.max_reconnects() == connections,
            waiter.failed_attempts() == 0,
            waiter.current_wait() == LOOP_WAIT,
    {
        Waiter { connections, waiting: LOOP_WAIT, waiting_times: 0 }
    }

    pub fn is_to_close(&self) -> (close: bool)
        ensures
            close == gives_up(self.max_reconnects(), self.failed_attempts()),
    {
        self.connections > 0 && self.waiting_times >= self.connections
    }

    /// Milliseconds to sleep before the next attempt.
    pub fn waiting(&self) -> (wait: u64)
        ensures
            wait == self.current_wait(),
    {
        self.waiting
    }
}

impl Events for Waiter {
    fn on_connect(&mut self, _host: &str, _port: u16)
        ensures
            final(self).current_wait() == LOOP_WAIT,
            final(self).failed_attempts() == 0,
            final(self).max_reconnects() == old(self).max_reconnects(),
            final(self).wf(),
    {
        self.waiting = LOOP_WAIT;
        self.waiting_times = 0;
    }

    fn on_error(&mut self, _error: &str)
        ensures
            final(self).current_wait() == wait_after_error(old(self).current_wait()),
            final(self).failed_attempts() == attempts_after_error(
                old(self).max_reconnects(),
                old(self).failed_attempts(),
            ),
            final(self).max_reconnects() == old(self).max_reconnects(),
            old(self).wf() ==> final(self).wf(),
    {
        if self.connections > 0 && self.waiting_times < self.connections {
            self.waiting_times = self.waiting_times + 1;
        }
        if self.waiting <= MAX_WAIT / 2 {
            self.waiting = self.waiting * 2;
        } else {
            self.waiting = MAX_WAIT;
        }
    }
}

} // verus!
