//! The shared record of the current session to the local service.

use vstd::prelude::*;

verus! {

/// The two states of the connection lifecycle.
#[derive(Clone, Copy, Debug, PartialEq, Eq, Structural)]
pub enum ConnectionState {
    Disconnected,
    Connected,
}

/// The single mutable record of the current session: the session handle, the
/// push-channel handle, and the connected flag.
///
/// The handle types are parameters: the library never performs the discovery,
/// authentication or transport itself, so it treats both capabilities as
/// opaque values owned by this record. The caller is expected to guard a
/// `Data` value by exclusive access (one actor at a time); within the library
/// that exclusivity is the exclusivity of `&mut`.
pub struct Data<S, P> {
    pub lcu_client: Option<S>,
    pub ws_client: Option<P>,
    pub connected: bool,
}

impl<S, P> Data<S, P> {
    /// The record's invariant: the flag and the two handles change together.
    /// `Connected` means both handles are present; `Disconnected` means both
    /// are absent; a mixed state never occurs.
    pub open spec fn wf(self) -> bool {
        &&& self.connected ==> self.lcu_client is Some && self.ws_client is Some
        &&& !self.connected ==> self.lcu_client is None && self.ws_client is None
    }

    /// A fresh record: disconnected, with no handles.
    pub fn new() -> (d: Self)
        ensures
            d.wf(),
            !d.connected,
            d.lcu_client is None,
            d.ws_client is None,
    {
        Data { lcu_client: None, ws_client: None, connected: false }
    }

    /// The current connection state, read without side effects.
    pub fn is_connected(&self) -> (r: bool)
        ensures
            r == self.connected,
    {
        self.connected
    }

    /// The current connection state as the two-valued enum.
    pub fn state(&self) -> (r: ConnectionState)
        ensures
            (r is Connected) == self.connected,
    {
        if self.connected {
            ConnectionState::Connected
        } else {
            ConnectionState::Disconnected
        }
    }

    /// Borrow the session handle for the duration of one proxied call.
    ///
    /// Only a connected record has a handle to lend, so callers must hold the
    /// connected state; a disconnected request never reaches this point (it is
    /// rejected first, see [`crate::proxy`]).
    pub fn session(&self) -> (r: &S)
        requires
            self.wf(),
            self.connected,
        ensures
            self.lcu_client == Some(*r),
    {
        match &self.lcu_client {
            Some(client) => client,
            None => unreached(),
        }
    }

    /// Borrow the push-channel handle.
    pub fn push_channel(&self) -> (r: &P)
        requires
            self.wf(),
            self.connected,
        ensures
            self.ws_client == Some(*r),
    {
        match &self.ws_client {
            Some(channel) => channel,
            None => unreached(),
        }
    }
}

/// The human-readable form of a connection state, for the status display.
pub fn display_status(connected: bool) -> (r: String)
    ensures
        connected ==> r@ == "connected"@,
        !connected ==> r@ == "disconnected"@,
{
    if connected {
        String::from_str("connected")
    } else {
        String::from_str("disconnected")
    }
}

} // verus!
