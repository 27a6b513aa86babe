//! One supervised run of the consumers, and what follows from how it ended.

pub mod events;
pub mod waiter;

use vstd::prelude::*;

use crate::client::consumer::{ConsumerError, ConsumerStatus};
use crate::client::executor::events::Events;
use crate::client::executor::waiter::{attempts_after_error, gives_up, wait_after_error, Waiter, LOOP_WAIT};
use crate::config::Config;

verus! {

/// How a run ended, as the outer client reads it.
#[derive(Clone, Copy, Debug, PartialEq, Eq, Structural)]
pub enum ExecutorStatus {
    /// The queues changed: run again at once.
    Restart,
    /// Nothing is left to do.
    Exit,
    /// A termination signal arrived.
    Killed,
}

/// A failed run, as the outer client reads it.
#[derive(Debug)]
pub enum ExecutorError {
    /// The reconnection budget is spent.
    Error(ConsumerError),
    /// Wait the given milliseconds, then run again.
    Wait(ConsumerError, u64),
}

/// What a worker's or a run's status asks of the outer client: changed queues
/// ask for a restart, a quiet end for an exit.
pub open spec fn status_of(status: ConsumerStatus) -> ExecutorStatus {
    match status {
        ConsumerStatus::CountChanged | ConsumerStatus::ConsumerChanged => ExecutorStatus::Restart,
        ConsumerStatus::GenericOk => ExecutorStatus::Exit,
        ConsumerStatus::Killed => ExecutorStatus::Killed,
    }
}

/// Writes the error as its `Debug` form, which includes the `Debug` form of
/// the broker client's or the standard library's error inside it. The text is
/// for people to read; the contract claims nothing of it.
#[verifier::external_body]
fn describe(error: &ConsumerError) -> (text: String) {
    format!("{:?}", error)
}

/// Judge of the runs: it keeps the reconnection policy and says what each
/// run's end means.
pub struct Executor {
    waiter: Waiter,
}

impl Executor {
    /// The reconnection policy and its state.
    pub closed spec fn waiter(&self) -> Waiter {
        self.waiter
    }

    /// An executor with the reconnection budget of `config`, none where the
    /// configuration names none.
    pub fn new(config: &Config) -> (executor: Executor)
        ensures
            executor.waiter().wf(),
            executor.waiter().max_reconnects() == match config.rabbit.reconnections {
                Some(reconnections) => reconnections as int,
                None => 0,
            },
            executor.waiter().failed_attempts() == 0,
            executor.waiter().current_wait() == LOOP_WAIT,
    {
        let reconnections = match config.rabbit.reconnections {
            Some(reconnections) => reconnections,
            None => 0,
        };
        Executor { waiter: Waiter::new(reconnections) }
    }

    /// Judges the end of a run. A status is passed on as [`status_of`] reads
    /// it and leaves the policy alone. An error counts as one more failure:
    /// the policy doubles its wait and counts the attempt, and the error comes
    /// back for good where the budget is spent, and with the wait otherwise.
    pub fn execute(&mut self, run: Result<ConsumerStatus, ConsumerError>) -> (result: Result<
        ExecutorStatus,
        ExecutorError,
    >)
        ensures
            final(self).waiter().max_reconnects() == old(self).waiter().max_reconnects(),
            old(self).waiter().wf() ==> final(self).waiter().wf(),
            match run {
                Ok(status) => result == Ok::<ExecutorStatus, ExecutorError>(status_of(status))
                    && final(self).waiter() == old(self).waiter(),
                Err(error) => {
                    &&& final(self).waiter().current_wait() == wait_after_error(
                        old(self).waiter().current_wait(),
                    )
                    &&& final(self).waiter().failed_attempts() == attempts_after_error(
                        old(self).waiter().max_reconnects(),
                        old(self).waiter().failed_attempts(),
                    )
                    &&& if gives_up(
                        final(self).waiter().max_reconnects(),
                        final(self).waiter().failed_attempts(),
                    ) {
                        result matches Err(ExecutorError::Error(reported)) && reported == error
                    } else {
                        result matches Err(ExecutorError::Wait(reported, waiting)) && reported
                            == error && waiting == final(self).waiter().current_wait()
                    }
                },
            },
    {
        match run {
            Ok(ConsumerStatus::CountChanged) => Ok(ExecutorStatus::Restart),
            Ok(ConsumerStatus::ConsumerChanged) => Ok(ExecutorStatus::Restart),
            Ok(ConsumerStatus::GenericOk) => Ok(ExecutorStatus::Exit),
            Ok(ConsumerStatus::Killed) => Ok(ExecutorStatus::Killed),
            Err(error) => {
                let text = describe(&error);
                self.waiter.on_error(text.as_str());
                if self.waiter.is_to_close() {
                    Err(ExecutorError::Error(error))
                } else {
                    Err(ExecutorError::Wait(error, self.waiter.waiting()))
                }
            },
        }
    }
}

impl Events for Executor {
    /// A connection resets the reconnection policy.
    fn on_connect(&mut self, host: &str, port: u16)
        ensures
            final(self).waiter().current_wait() == LOOP_WAIT,
            final(self).waiter().failed_attempts() == 0,
            final(self).waiter().max_reconnects() == old(self).waiter().max_reconnects(),
            final(self).waiter().wf(),
    {
        self.waiter.on_connect(host, port);
    }

    /// An error counts as one more failure of the reconnection policy.
    fn on_error(&mut self, error: &str)
        ensures
            final(self).waiter().current_wait() == wait_after_error(
                old(self).waiter().current_wait(),
            ),
            final(self).waiter().failed_attempts() == attempts_after_error(
                old(self).waiter().max_reconnects(),
                old(self).waiter().failed_attempts(),
            ),
            final(self).waiter().max_reconnects() == old(self).waiter().max_reconnects(),
            old(self).waiter().wf() ==> final(self).waiter().wf(),
    {
        self.waiter.on_error(error);
    }
}

} // verus!
