//! A supervised fleet of AMQP consumers that run a shell command per delivery.
//!
//! This crate holds the rules of the fleet: the queue registry and its retry
//! waits, how a delivery becomes a command line, how an exit status becomes a
//! broker acknowledgement, the worker and supervisor state machines and the
//! reconnection policy. Everything that sleeps, awaits or touches the network
//! lives with the caller, which feeds these functions the events it observed
//! and performs the actions they return.

pub mod client;
pub mod text;
pub mod utils;
pub mod config;
