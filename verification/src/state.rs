//! The state of a client's connection, and why there is none.

use vstd::prelude::*;
use vstd::string::*;

verus! {

/// Why a client has no connection.
#[derive(Clone, Copy, Debug, PartialEq, Eq, Structural)]
pub enum DisconnectionReason {
    RemoteClosed,
    LocalClosed,
    NeverOpened,
    Reconnecting,
}

impl DisconnectionReason {
    /// The reason as it reads in a message.
    pub open spec fn spec_name(self) -> Seq<char> {
        match self {
            DisconnectionReason::RemoteClosed => "RemoteClosed"@,
            DisconnectionReason::LocalClosed => "LocalClosed"@,
            DisconnectionReason::NeverOpened => "NeverOpened"@,
            DisconnectionReason::Reconnecting => "Reconnecting"@,
        }
    }

    /// The reason as it reads in a message.
    pub fn name(&self) -> (name: &'static str)
        ensures
            name@ == self.spec_name(),
    {
        match self {
            DisconnectionReason::RemoteClosed => "RemoteClosed",
            DisconnectionReason::LocalClosed => "LocalClosed",
            DisconnectionReason::NeverOpened => "NeverOpened",
            DisconnectionReason::Reconnecting => "Reconnecting",
        }
    }
}

/// The state that all clones of a client share. `C` is the handle of an open
/// connection.
pub enum ConnectionState<C> {
    NotConnected(DisconnectionReason),
    Connected(C),
}

impl<C: Clone> Clone for ConnectionState<C> {
    fn clone(&self) -> (copy: Self)
        ensures
            match *self {
                ConnectionState::NotConnected(reason) => copy == ConnectionState::<
                    C,
                >::NotConnected(reason),
                ConnectionState::Connected(connection) => copy is Connected && cloned(
                    connection,
                    copy->Connected_0,
                ),
            },
    {
        match self {
            ConnectionState::NotConnected(reason) => ConnectionState::NotConnected(*reason),
            ConnectionState::Connected(connection) => ConnectionState::Connected(
                connection.clone(),
            ),
        }
    }
}

/// What a request to send is answered while there is no connection.
pub open spec fn send_refusal(reason: DisconnectionReason) -> Seq<char> {
    "Client is not connected, cannot send: "@ + reason.spec_name()
}

impl<C> ConnectionState<C> {
    /// Whether the user closed the connection.
    pub open spec fn locally_closed(self) -> bool {
        self == ConnectionState::<C>::NotConnected(DisconnectionReason::LocalClosed)
    }

    /// The state after one of the clients that share it, one of `other_refs` + 1,
    /// disconnects: only the last one closes the connection.
    pub open spec fn after_disconnect(self, other_refs: nat) -> Self {
        if other_refs == 0 && self is Connected {
            ConnectionState::NotConnected(DisconnectionReason::LocalClosed)
        } else {
            self
        }
    }

    /// The state after the first dial.
    pub open spec fn after_connect(self, dialed: Result<C, String>) -> Self {
        match dialed {
            Ok(connection) => ConnectionState::Connected(connection),
            Err(_) => self,
        }
    }

    /// The state of a client that has not connected yet.
    pub fn never_opened() -> (state: Self)
        ensures
            state == ConnectionState::<C>::NotConnected(DisconnectionReason::NeverOpened),
    {
        ConnectionState::NotConnected(DisconnectionReason::NeverOpened)
    }

    /// Whether there is an open connection.
    pub fn is_connected(&self) -> (connected: bool)
        ensures
            connected == (*self is Connected),
    {
        match self {
            ConnectionState::Connected(_) => true,
            ConnectionState::NotConnected(_) => false,
        }
    }

    /// Whether the user closed the connection.
    pub fn is_locally_closed(&self) -> (closed: bool)
        ensures
            closed == self.locally_closed(),
    {
        match self {
            ConnectionState::NotConnected(DisconnectionReason::LocalClosed) => true,
            _ => false,
        }
    }

    /// The connection to send on, or what the request to send is answered.
    pub fn connection(&self) -> (connection: Result<&C, String>)
        ensures
            match *self {
                ConnectionState::Connected(open) => connection matches Ok(c) && *c == open,
                ConnectionState::NotConnected(reason) => connection matches Err(message)
                    && message@ == send_refusal(reason),
            },
    {
        match self {
            ConnectionState::Connected(open) => Ok(open),
            ConnectionState::NotConnected(reason) => {
                let mut message = String::from_str("Client is not connected, cannot send: ");
                message.append(reason.name());
                Err(message)
            },
        }
    }

    /// Takes over the outcome of the first dial: the connection opens, or the
    /// failure is handed on and the state stays as it was.
    pub fn connect_internal(&mut self, dialed: Result<C, String>) -> (outcome: Result<(), String>)
        ensures
            match dialed {
                Ok(connection) => outcome is Ok && *final(self) == ConnectionState::Connected(
                    connection,
                ),
                Err(message) => outcome == Err::<(), String>(message) && *final(self) == *old(self),
            },
            *final(self) == old(self).after_connect(dialed),
    {
        match dialed {
            Ok(connection) => {
                *self = ConnectionState::Connected(connection);
                Ok(())
            },
            Err(message) => Err(message),
        }
    }

    /// Closes the connection for the user, unless `other_refs` other clients
    /// still use it. Tells whether it closed one.
    pub fn disconnect(&mut self, other_refs: usize) -> (closed: bool)
        ensures
            *final(self) == old(self).after_disconnect(other_refs as nat),
            closed == (other_refs == 0 && *old(self) is Connected),
    {
        if other_refs > 0 {
            return false;
        }
        if self.is_connected() {
            *self = ConnectionState::NotConnected(DisconnectionReason::LocalClosed);
            true
        } else {
            false
        }
    }
}

/// A connection that other clients still use stays open.
pub proof fn shared_connection_stays_open<C>(state: ConnectionState<C>, other_refs: nat)
    requires
        other_refs > 0,
    ensures
        state.after_disconnect(other_refs) == state,
{
}

/// Disconnecting a second time changes nothing.
pub proof fn disconnect_is_idempotent<C>(state: ConnectionState<C>, other_refs: nat)
    ensures
        state.after_disconnect(0).after_disconnect(other_refs) == state.after_disconnect(0),
        !(state.after_disconnect(0) is Connected),
{
}

/// Of the reasons to have no connection, one alone is the user's doing.
pub proof fn only_local_closing_is_local<C>(
    state: ConnectionState<C>,
    connected: bool,
    closed: bool,
)
    requires
        call_ensures(ConnectionState::<C>::is_connected, (&state,), connected),
        call_ensures(ConnectionState::<C>::is_locally_closed, (&state,), closed),
    ensures
        match state {
            ConnectionState::Connected(_) => connected && !closed,
            ConnectionState::NotConnected(reason) => !connected && closed == (reason
                == DisconnectionReason::LocalClosed),
        },
        closed == state.locally_closed(),
{
}

/// A client sends on the connection that is open, and is told why there is none
/// otherwise.
pub proof fn sending_needs_the_open_connection<C>(
    state: ConnectionState<C>,
    connection: Result<&C, String>,
)
    requires
        call_ensures(ConnectionState::<C>::connection, (&state,), connection),
    ensures
        match state {
            ConnectionState::Connected(open) => connection matches Ok(c) && *c == open,
            ConnectionState::NotConnected(reason) => connection matches Err(message) && message@
                == "Client is not connected, cannot send: "@ + match reason {
                DisconnectionReason::RemoteClosed => "RemoteClosed"@,
                DisconnectionReason::LocalClosed => "LocalClosed"@,
                DisconnectionReason::NeverOpened => "NeverOpened"@,
                DisconnectionReason::Reconnecting => "Reconnecting"@,
            },
        },
{
}

/// The last client that disconnects closes an open connection, for the user;
/// where there is none, the reason stays.
pub proof fn last_client_closes_for_the_user<C>(state: ConnectionState<C>)
    ensures
        state is Connected ==> state.after_disconnect(0) == ConnectionState::<C>::NotConnected(
            DisconnectionReason::LocalClosed,
        ),
        !(state is Connected) ==> state.after_disconnect(0) == state,
{
}

/// A first dial that succeeds opens its connection, whatever the state was; one
/// that fails leaves the state alone.
pub proof fn first_dial_opens_the_connection<C>(
    state: ConnectionState<C>,
    connection: C,
    reason: String,
)
    ensures
        state.after_connect(Ok(connection)) == ConnectionState::Connected(connection),
        state.after_connect(Err(reason)) == state,
{
}

} // verus!
