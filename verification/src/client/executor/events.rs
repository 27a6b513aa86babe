//! Hooks that observe the life of the broker connection.

use vstd::prelude::*;

verus! {

/// Observer of connection events. Implementors keep whatever state they like;
/// the supervisor promises only to call `on_connect` after every successful
/// connection and `on_error` after every failed run.
pub trait Events {
    /// The broker at `host:port` accepted the connection.
    fn on_connect(&mut self, host: &str, port: u16);

    /// A supervised run ended with the error described by `error`.
    fn on_error(&mut self, error: &str);
}

} // verus!
