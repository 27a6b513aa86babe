//! What a worker's channel is set up with.

use vstd::prelude::*;
use vstd::string::StringExecFns;

use crate::config::queue::config::{QueueConfig, QueueConfigView, DEFAULT_PREFETCH};

verus! {

/// Quality of service and queue declaration of one channel.
#[derive(Debug)]
pub struct ChannelSetup {
    /// `prefetch_count` of `basic_qos`; the other options keep their defaults.
    pub prefetch_count: u16,
    /// Name under which the queue is declared.
    pub queue_name: String,
    /// `durable` of `queue_declare`.
    pub durable: bool,
    /// `auto_delete` of `queue_declare`; the other options keep their
    /// defaults and the argument table is empty.
    pub auto_delete: bool,
}

/// Prefetch count of a definition: the configured one, or one message.
pub open spec fn prefetch_of(queue: QueueConfigView) -> u16 {
    match queue.prefetch_count {
        Some(count) => count,
        None => DEFAULT_PREFETCH,
    }
}

/// Factory of channels.
pub struct Channel {}

impl Channel {
    /// The setup of the channel of a worker of `queue`: the queue is declared
    /// durable and kept when unused, under its name behind `prefix`.
    pub fn get_queue(queue: &QueueConfig, prefix: &str) -> (setup: ChannelSetup)
        ensures
            setup.prefetch_count == prefetch_of(queue@),
            setup.queue_name@ == prefix@ + queue@.queue_name,
            setup.durable,
            !setup.auto_delete,
    {
        let prefetch_count = match queue.prefetch_count {
            Some(count) => count,
            None => DEFAULT_PREFETCH,
        };
        let mut queue_name = String::from_str(prefix);
        queue_name.append(queue.queue_name.as_str());
        ChannelSetup { prefetch_count, queue_name, durable: true, auto_delete: false }
    }
}

} // verus!
