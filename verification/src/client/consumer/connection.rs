//! The connection to the broker: opened on demand, kept while it is healthy.

use std::sync::Arc;
use vstd::prelude::*;

use crate::config::RabbitConfig;

verus! {

/// The broker client's connection. The library keeps the handle and asks it
/// one thing: whether it has failed.
#[verifier::external_type_specification]
#[verifier::external_body]
pub struct ExLapinConnection(lapin::Connection);

/// Why no connection is at hand.
#[derive(Debug)]
pub enum ConnectionError {
    /// None was opened yet, or the last one failed.
    NotConnected,
    /// The broker, or the way to it, refused.
    LapinError(lapin::Error),
}

/// Reads `lapin::Connection::status().errored()`: whether the connection is
/// in its error state right now. The answer depends on what happened on the
/// wire, so the contract claims nothing of it.
#[verifier::external_body]
fn connection_errored(connection: &Arc<lapin::Connection>) -> (errored: bool) {
    connection.status().errored()
}

/// `Arc::clone`: one more handle to the same connection.
#[verifier::external_body]
fn share(connection: &Arc<lapin::Connection>) -> (shared: Arc<lapin::Connection>)
    ensures
        shared == *connection,
{
    Arc::clone(connection)
}

/// What to connect to.
#[derive(Debug)]
pub struct ConnectionTarget {
    pub host: String,
    pub port: u16,
    pub username: String,
    pub password: String,
    pub vhost: String,
}

impl ConnectionTarget {
    /// Whether the target is the broker and account of `config`.
    pub open spec fn of_config(&self, config: &RabbitConfig) -> bool {
        &&& self.host@ == config.host@
        &&& self.port == config.port
        &&& self.username@ == config.username@
        &&& self.password@ == config.password@
        &&& self.vhost@ == config.vhost@
    }

    fn copy(&self) -> (copy: ConnectionTarget)
        ensures
            copy == *self,
    {
        ConnectionTarget {
            host: self.host.clone(),
            port: self.port,
            username: self.username.clone(),
            password: self.password.clone(),
            vhost: self.vhost.clone(),
        }
    }
}

/// What a request for the connection leads to.
pub enum ConnectionStep {
    /// A healthy connection is at hand.
    Ready(Arc<lapin::Connection>),
    /// None is at hand: connect to the target, with the default scheme, no
    /// query and default connection properties, and report the outcome.
    Connect(ConnectionTarget),
}

/// Lazily opened connection to the broker.
pub struct BrokerConnection {
    target: ConnectionTarget,
    lapin: Option<Arc<lapin::Connection>>,
}

impl BrokerConnection {
    /// The handle at hand, if any.
    pub closed spec fn handle(&self) -> Option<Arc<lapin::Connection>> {
        self.lapin
    }

    /// The broker and account to connect to.
    pub closed spec fn target(&self) -> ConnectionTarget {
        self.target
    }

    pub fn new(config: &RabbitConfig) -> (connection: BrokerConnection)
        ensures
            connection.handle() is None,
            connection.target().of_config(config),
    {
        BrokerConnection {
            target: ConnectionTarget {
                host: config.host.clone(),
                port: config.port,
                username: config.username.clone(),
                password: config.password.clone(),
                vhost: config.vhost.clone(),
            },
            lapin: None,
        }
    }

    /// Asks for the connection, given whether the handle at hand, if there is
    /// one, reports an error. A handle without an error is handed out and
    /// kept. A handle with an error is dropped, and without a handle the
    /// caller is told to connect.
    pub fn get_connection_checked(&mut self, errored: bool) -> (step: ConnectionStep)
        ensures
            final(self).target() == old(self).target(),
            match old(self).handle() {
                Some(connection) if !errored => step == ConnectionStep::Ready(connection)
                    && final(self).handle() == old(self).handle(),
                _ => step matches ConnectionStep::Connect(target) && target == old(self).target()
                    && final(self).handle() is None,
            },
    {
        if errored {
            self.lapin = None;
        }
        match &self.lapin {
            Some(connection) => ConnectionStep::Ready(share(connection)),
            None => ConnectionStep::Connect(self.target.copy()),
        }
    }

    /// Asks for the connection. The handle at hand is asked whether it has
    /// failed; whatever it says, the step is the one that
    /// [`BrokerConnection::get_connection_checked`] takes on that answer, and
    /// without a handle the caller is told to connect.
    pub fn get_connection(&mut self) -> (step: ConnectionStep)
        ensures
            final(self).target() == old(self).target(),
            match step {
                ConnectionStep::Ready(connection) => old(self).handle() == Some(connection)
                    && final(self).handle() == Some(connection),
                ConnectionStep::Connect(target) => final(self).handle() is None && target == old(
                    self,
                ).target(),
            },
            old(self).handle() is None ==> step is Connect,
    {
        let errored = match &self.lapin {
            Some(connection) => connection_errored(connection),
            None => false,
        };
        self.get_connection_checked(errored)
    }

    /// Takes the outcome of a connection attempt: a new connection is kept
    /// and handed out, a failure leaves the state without a handle.
    pub fn connected(&mut self, outcome: Result<lapin::Connection, lapin::Error>) -> (result:
        Result<Arc<lapin::Connection>, ConnectionError>)
        ensures
            final(self).target() == old(self).target(),
            match outcome {
                Ok(connection) => result matches Ok(shared) && *shared == connection
                    && final(self).handle() == Some(shared),
                Err(error) => result matches Err(ConnectionError::LapinError(reported))
                    && reported == error && final(self).handle() is None,
            },
    {
        match outcome {
            Ok(connection) => {
                let connection = Arc::new(connection);
                let shared = share(&connection);
                self.lapin = Some(connection);
                Ok(shared)
            },
            Err(error) => {
                self.lapin = None;
                Err(ConnectionError::LapinError(error))
            },
        }
    }
}

} // verus!
