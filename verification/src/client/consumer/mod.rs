//! The consumers of one connection and what each of them does per delivery.

pub mod channel;
pub mod connection;
pub mod message;
pub mod trace;
pub mod worker;

use vstd::prelude::*;

use crate::client::consumer::connection::{BrokerConnection, ConnectionError};
use crate::client::consumer::message::MessageError;
use crate::client::consumer::worker::Worker;
use crate::config::queue::config::{all_valid, QueueConfig, QueueConfigView};
use crate::config::queue::model::QueueModel;
use crate::config::queue::Queue;
use crate::config::Config;

verus! {

/// Milliseconds between two looks at a queue that is not enabled.
pub const CONSUMER_WAIT: u64 = 60000;

/// Milliseconds of one round of the countdown that follows a requeue, and of
/// the pause that follows a cancelled subscription.
pub const DEFAULT_WAIT_PART: u64 = 1000;

/// How a worker, or the run of all workers, ended without an error.
#[derive(Clone, Copy, Debug, PartialEq, Eq, Structural)]
pub enum ConsumerStatus {
    /// The queue was disabled; the subscription is cancelled and its
    /// unsettled messages are back with the broker.
    ConsumerChanged,
    /// The queue asks for another number of workers.
    CountChanged,
    /// Nothing is left to do.
    GenericOk,
    /// A termination signal arrived.
    Killed,
}

/// The standard library's I/O error, as signal registration reports it. The
/// library carries such values and never looks inside.
#[verifier::external_type_specification]
#[verifier::external_body]
pub struct ExIoError(std::io::Error);

/// Why a worker, or the run of all workers, failed.
#[derive(Debug)]
pub enum ConsumerError {
    /// The broker refused a channel, a declaration, a subscription or a
    /// delivery.
    LapinError(lapin::Error),
    /// A signal receiver could not be registered.
    IoError(std::io::Error),
    /// No connection to the broker could be had.
    ConnectionError(ConnectionError),
    /// A delivery could not be settled.
    MessageError(MessageError),
}

/// The workers that a list of definitions asks for: for each definition in
/// listing order, the indices from zero up to its count.
pub open spec fn seats(queues: Seq<QueueConfigView>) -> Seq<(QueueConfigView, i32)>
    decreases queues.len(),
{
    if queues.len() == 0 {
        Seq::empty()
    } else {
        seats(queues.drop_last()) + Seq::new(
            queues.last().count as nat,
            |index: int| (queues.last(), index as i32),
        )
    }
}

/// The place of one worker: its queue's definition and its index among the
/// workers of that queue.
#[derive(Debug)]
pub struct Seat {
    pub queue_config: QueueConfig,
    pub index: i32,
}

/// Definition and index of each seat of a list.
pub open spec fn seats_taken(taken: Seq<Seat>) -> Seq<(QueueConfigView, i32)> {
    Seq::new(taken.len(), |i: int| (taken[i].queue_config@, taken[i].index))
}

/// The supervisor of the workers of one connection.
pub struct Consumer {
    connection: BrokerConnection,
    config: Config,
}

impl Consumer {
    /// The supervisor's connection.
    pub closed spec fn connection(&self) -> BrokerConnection {
        self.connection
    }

    /// The configuration the supervisor was made with.
    pub closed spec fn config(&self) -> Config {
        self.config
    }

    pub fn new(config: Config) -> (consumer: Consumer)
        ensures
            consumer.config() == config,
            consumer.connection().handle() is None,
            consumer.connection().target().of_config(&config.rabbit),
    {
        Consumer { connection: BrokerConnection::new(&config.rabbit), config }
    }

    /// The supervisor's connection, to ask it for a handle.
    pub fn connection_mut(&mut self) -> (connection: &mut BrokerConnection)
        ensures
            *connection == old(self).connection(),
            final(self).connection() == *final(connection),
            final(self).config() == old(self).config(),
    {
        &mut self.connection
    }

    /// Host and port of the broker, as the connection hooks hear them.
    pub fn address(&self) -> (address: (&str, u16))
        ensures
            address.0@ == self.config().rabbit.host@,
            address.1 == self.config().rabbit.port,
    {
        (self.config.rabbit.host.as_str(), self.config.rabbit.port)
    }

    /// Prefix of the names under which the queues are declared.
    pub fn queue_prefix(&self) -> (prefix: &str)
        ensures
            prefix@ == self.config().rabbit.queue_prefix@,
    {
        self.config.rabbit.queue_prefix.as_str()
    }

    /// The seats of a run: the registry is asked for its definitions, and
    /// every definition gets as many workers as its count says. Without any
    /// definition there is nothing to run.
    pub fn run<M: QueueModel + ?Sized>(&self, queue: &mut Queue<M>) -> (taken: Option<Vec<Seat>>)
        ensures
            final(queue).waits() == old(queue).waits(),
            taken is None <==> final(queue).listed().len() == 0,
            taken matches Some(taken) ==> seats_taken(taken@) == seats(final(queue).listed()),
            taken matches Some(taken) ==> forall|i: int|
                0 <= i < taken.len() ==> (#[trigger] taken[i]).queue_config@.valid(),
    {
        let queues = queue.get_queues();
        if queues.is_empty() {
            return None;
        }
        let ghost listed = queues.deep_view();
        let mut taken: Vec<Seat> = Vec::new();
        let mut q: usize = 0;
        assert(listed.take(0) =~= Seq::<QueueConfigView>::empty());
        assert(seats_taken(taken@) =~= seats(listed.take(0)));
        while q < queues.len()
            invariant
                q <= queues.len(),
                listed == queues.deep_view(),
                all_valid(listed),
                seats_taken(taken@) == seats(listed.take(q as int)),
                forall|i: int| 0 <= i < taken.len() ==> (#[trigger] taken[i]).queue_config@.valid(),
            decreases queues.len() - q,
        {
            let ghost done = seats(listed.take(q as int));
            let count = queues[q].count;
            assert(listed[q as int].valid());
            let mut index: i32 = 0;
            assert(seats_taken(taken@) =~= done + Seq::new(
                0,
                |index: int| (listed[q as int], index as i32),
            ));
            while index < count
                invariant
                    0 <= index <= count,
                    q < queues.len(),
                    count == queues[q as int].count,
                    listed == queues.deep_view(),
                    listed[q as int].valid(),
                    seats_taken(taken@) == done + Seq::new(
                        index as nat,
                        |index: int| (listed[q as int], index as i32),
                    ),
                    forall|i: int|
                        0 <= i < taken.len() ==> (#[trigger] taken[i]).queue_config@.valid(),
                decreases count - index,
            {
                let ghost before = taken@;
                taken.push(Seat { queue_config: queues[q].clone(), index });
                assert(seats_taken(taken@) =~= seats_taken(before).push(
                    (listed[q as int], index),
                ));
                assert(seats_taken(taken@) =~= done + Seq::new(
                    (index + 1) as nat,
                    |index: int| (listed[q as int], index as i32),
                ));
                assert forall|i: int| 0 <= i < taken.len() implies (#[trigger] taken[i]).queue_config@.valid() by {
                    if i < before.len() {
                        assert(taken[i] == before[i]);
                    }
                }
                index = index + 1;
            }
            assert(listed.take(q + 1).drop_last() =~= listed.take(q as int));
            assert(listed.take(q + 1).last() == listed[q as int]);
            q = q + 1;
        }
        assert(listed.take(queues.len() as int) =~= listed);
        Some(taken)
    }

    /// The worker `index` of a queue, once its channel and queue are open; a
    /// channel that could not be opened is the worker's error.
    pub fn consume(index: i32, queue_config: QueueConfig, opened: Result<(), lapin::Error>) -> (worker:
        Result<Worker, ConsumerError>)
        requires
            queue_config@.valid(),
        ensures
            match opened {
                Ok(_) => worker matches Ok(worker) && worker.phase()
                    == crate::client::consumer::worker::Phase::Created && worker.config()
                    == queue_config@ && worker.index() == index,
                Err(error) => worker matches Err(ConsumerError::LapinError(reported)) && reported
                    == error,
            },
    {
        match opened {
            Ok(_) => Ok(Worker::new(index, queue_config)),
            Err(error) => Err(ConsumerError::LapinError(error)),
        }
    }
}

} // verus!
