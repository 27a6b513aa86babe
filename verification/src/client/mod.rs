//! The outer client: the supervisor's run loop and the reconnection policy.

pub mod consumer;
pub mod executor;

use vstd::prelude::*;

use crate::client::consumer::{ConsumerError, ConsumerStatus};
use crate::client::executor::waiter::{attempts_after_error, gives_up, wait_after_error};
use crate::client::executor::{status_of, Executor, ExecutorError, ExecutorStatus};
use crate::config::Config;

verus! {

/// What the outer client does after a run.
#[derive(Debug)]
pub enum ClientStep {
    /// Run again at once.
    Restart,
    /// Sleep the given milliseconds, then run again; the error is the one
    /// that ended the last run.
    Wait(ConsumerError, u64),
    /// Stop with the given result.
    Exit(Result<(), ConsumerError>),
}

/// The outer client: it runs the consumers again and again until they end for
/// good.
pub struct Client {
    executor: Executor,
}

impl Client {
    /// The judge of the client's runs.
    pub closed spec fn executor(&self) -> Executor {
        self.executor
    }

    pub fn new(config: &Config) -> (client: Client)
        ensures
            client.executor().waiter().wf(),
            client.executor().waiter().max_reconnects() == match config.rabbit.reconnections {
                Some(reconnections) => reconnections as int,
                None => 0,
            },
            client.executor().waiter().failed_attempts() == 0,
    {
        Client { executor: Executor::new(config) }
    }

    /// The client's judge, to tell it of a connection.
    pub fn executor_mut(&mut self) -> (executor: &mut Executor)
        ensures
            *executor == old(self).executor(),
            final(self).executor() == *final(executor),
    {
        &mut self.executor
    }

    /// Decides what follows a run. Changed queues restart the consumers; a
    /// quiet end or a termination signal stops the client without an error; a
    /// failed run stops it with the error once the reconnection budget is
    /// spent, and otherwise makes it sleep for the policy's wait.
    pub fn run(&mut self, finished: Result<ConsumerStatus, ConsumerError>) -> (step: ClientStep)
        ensures
            final(self).executor().waiter().max_reconnects() == old(self).executor().waiter().max_reconnects(),
            old(self).executor().waiter().wf() ==> final(self).executor().waiter().wf(),
            match finished {
                Ok(status) => final(self).executor().waiter() == old(self).executor().waiter() && match status_of(
                    status,
                ) {
                    ExecutorStatus::Restart => step is Restart,
                    _ => step matches ClientStep::Exit(Ok(_)),
                },
                Err(error) => {
                    &&& final(self).executor().waiter().current_wait() == wait_after_error(
                        old(self).executor().waiter().current_wait(),
                    )
                    &&& final(self).executor().waiter().failed_attempts() == attempts_after_error(
                        old(self).executor().waiter().max_reconnects(),
                        old(self).executor().waiter().failed_attempts(),
                    )
                    &&& if gives_up(
                        final(self).executor().waiter().max_reconnects(),
                        final(self).executor().waiter().failed_attempts(),
                    ) {
                        step matches ClientStep::Exit(Err(reported)) && reported == error
                    } else {
                        step matches ClientStep::Wait(reported, waiting) && reported == error
                            && waiting == final(self).executor().waiter().current_wait()
                    }
                },
            },
    {
        match self.executor.execute(finished) {
            Ok(ExecutorStatus::Restart) => ClientStep::Restart,
            Ok(ExecutorStatus::Exit) => ClientStep::Exit(Ok(())),
            Ok(ExecutorStatus::Killed) => ClientStep::Exit(Ok(())),
            Err(ExecutorError::Wait(error, waiting)) => ClientStep::Wait(error, waiting),
            Err(ExecutorError::Error(error)) => ClientStep::Exit(Err(error)),
        }
    }
}

} // verus!
