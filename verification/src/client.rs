//! The client and what it hands to those who act for it. `M` is the lock around
//! the `ConnectionState`, which all clones of a client share; `W` a handle of it
//! that does not keep it alive; `A` the storage of the actions that hub messages
//! lead to; `P` the reconnection settings; `H` the user's handler of dropped
//! connections.
//!
//! What a lock guards changes while the lock stays the same, so an equation
//! between locks in a contract says that they are one lock. How many handles of
//! it there are is not part of its value, and no contract speaks of that.

use std::sync::Arc;
use vstd::prelude::*;

use crate::dial::DialPhase;
use crate::dropped::{DropHandling, DroppedPhase};
use crate::endpoint::{Endpoint, InvalidEndpoint};
use crate::http_client::ConnectionData;
use crate::protocol::HubProtocolKind;
use crate::reconnect::{ReconnectPhase, RetryPhase};
use crate::state::{ConnectionState, DisconnectionReason};

verus! {

/// An open connection: `K` is its sending side, `R` the task that receives.
pub struct CommunicationConnection<K, R> {
    pub sink: K,
    pub receiver: Option<R>,
}

impl<K, R> CommunicationConnection<K, R> {
    /// A connection that does not receive yet.
    pub fn new(sink: K) -> (connection: Self)
        ensures
            connection == (CommunicationConnection { sink, receiver: None::<R> }),
    {
        CommunicationConnection { sink, receiver: None }
    }

    /// Keeps the task that receives.
    pub fn start_receiving(&mut self, receiver: R)
        ensures
            *final(self) == (CommunicationConnection {
                sink: old(self).sink,
                receiver: Some(receiver),
            }),
    {
        self.receiver = Some(receiver);
    }

    /// Hands out the task that receives, for it to be aborted. There is none
    /// from then on, so it is aborted once.
    pub fn stop_receiving(&mut self) -> (receiver: Option<R>)
        ensures
            receiver == old(self).receiver,
            *final(self) == (CommunicationConnection {
                sink: old(self).sink,
                receiver: None::<R>,
            }),
    {
        self.receiver.take()
    }
}

/// What a user needs to reconnect by hand.
pub struct ReconnectionContext<W, A, P> {
    pub state: W,
    pub endpoint: Endpoint,
    pub actions: A,
    pub reconnection_config: P,
    pub protocol_kind: HubProtocolKind,
}

impl<W: Clone, A: Clone, P: Clone> Clone for ReconnectionContext<W, A, P> {
    fn clone(&self) -> (copy: Self)
        ensures
            cloned(self.state, copy.state),
            copy.endpoint == self.endpoint,
            cloned(self.actions, copy.actions),
            cloned(self.reconnection_config, copy.reconnection_config),
            copy.protocol_kind == self.protocol_kind,
    {
        ReconnectionContext {
            state: self.state.clone(),
            endpoint: self.endpoint.clone(),
            actions: self.actions.clone(),
            reconnection_config: self.reconnection_config.clone(),
            protocol_kind: self.protocol_kind,
        }
    }
}

impl<W, A, P> ReconnectionContext<W, A, P> {
    /// The address of the hub, which reads as the URI does that the client was
    /// created with.
    pub fn endpoint(&self) -> (endpoint: &Endpoint)
        ensures
            *endpoint == self.endpoint,
    {
        &self.endpoint
    }

    /// Whether there is a connection: not where the client no longer exists.
    pub fn is_connected<C>(&self, state: Option<&ConnectionState<C>>) -> (connected: bool)
        ensures
            connected == (state matches Some(shared) && *shared is Connected),
    {
        match state {
            Some(shared) => shared.is_connected(),
            None => false,
        }
    }

    /// Begins one attempt to reconnect.
    pub fn reconnect<C>(&self) -> (phase: ReconnectPhase<C>)
        ensures
            phase is FindClient,
    {
        ReconnectPhase::FindClient
    }

    /// Begins a run of attempts under the retry policy.
    pub fn reconnect_with_policy(&self) -> (phase: RetryPhase)
        ensures
            phase == (RetryPhase::AskPolicy { retries: 0 }),
    {
        RetryPhase::start()
    }

    /// Begins the dial of an attempt: of the client's hub, for its protocol.
    pub fn dial(&self) -> (phase: DialPhase)
        ensures
            phase == DialPhase::first(self.endpoint.is_secure(), self.protocol_kind),
    {
        DialPhase::start(&self.endpoint, self.protocol_kind)
    }
}

impl<W: Clone, A: Clone, P: Clone> ReconnectionContext<W, A, P> {
    /// Who handles the drop of the connection that an attempt opens: it is left
    /// to the user, who reconnects by hand and sees no automatic reconnection.
    pub fn disconnection_handler<H>(&self) -> (handler: ClientDisconnectionHandler<W, A, P, H>)
        ensures
            cloned(self.state, handler.state),
            handler.endpoint == self.endpoint,
            cloned(self.actions, handler.actions),
            cloned(self.reconnection_config, handler.reconnection_config),
            handler.mode is LeftToUser,
            handler.protocol_kind == self.protocol_kind,
    {
        ClientDisconnectionHandler {
            state: self.state.clone(),
            endpoint: self.endpoint.clone(),
            actions: self.actions.clone(),
            reconnection_config: self.reconnection_config.clone(),
            mode: DropMode::LeftToUser,
            protocol_kind: self.protocol_kind,
        }
    }
}

/// Who deals with the drop of a connection.
pub enum DropMode<H> {
    /// The user has full control over reconnection: this handler is called.
    User(H),
    /// Reconnection is automatic.
    Automatic,
    /// The user opened the connection by hand, and may do so again.
    LeftToUser,
}

impl<H> DropMode<H> {
    /// How a drop is handled.
    pub open spec fn spec_handling(self) -> DropHandling {
        match self {
            DropMode::User(_) => DropHandling::User,
            DropMode::Automatic => DropHandling::Automatic,
            DropMode::LeftToUser => DropHandling::LeftToUser,
        }
    }

    /// How a drop is handled.
    pub fn handling(&self) -> (handling: DropHandling)
        ensures
            handling == self.spec_handling(),
    {
        match self {
            DropMode::User(_) => DropHandling::User,
            DropMode::Automatic => DropHandling::Automatic,
            DropMode::LeftToUser => DropHandling::LeftToUser,
        }
    }
}

/// Who handles the drop of a connection.
pub struct ClientDisconnectionHandler<W, A, P, H> {
    pub state: W,
    pub endpoint: Endpoint,
    pub actions: A,
    pub reconnection_config: P,
    pub mode: DropMode<H>,
    pub protocol_kind: HubProtocolKind,
}

impl<W, A, P, H> ClientDisconnectionHandler<W, A, P, H> {
    /// Begins to handle a drop, in the handler's mode.
    pub fn on_connection_dropped<C>(&self) -> (phase: DroppedPhase<C>)
        ensures
            phase == (DroppedPhase::<C>::CheckClosed { handling: self.mode.spec_handling() }),
    {
        DroppedPhase::start(self.mode.handling())
    }

    /// Begins a dial of automatic reconnection: of the client's hub, for its
    /// protocol.
    pub fn dial(&self) -> (phase: DialPhase)
        ensures
            phase == DialPhase::first(self.endpoint.is_secure(), self.protocol_kind),
    {
        DialPhase::start(&self.endpoint, self.protocol_kind)
    }
}

impl<W: Clone, A: Clone, P: Clone, H> ClientDisconnectionHandler<W, A, P, H> {
    /// What the user's handler is called with.
    pub fn context(&self) -> (context: ReconnectionContext<W, A, P>)
        ensures
            cloned(self.state, context.state),
            context.endpoint == self.endpoint,
            cloned(self.actions, context.actions),
            cloned(self.reconnection_config, context.reconnection_config),
            context.protocol_kind == self.protocol_kind,
    {
        ReconnectionContext {
            state: self.state.clone(),
            endpoint: self.endpoint.clone(),
            actions: self.actions.clone(),
            reconnection_config: self.reconnection_config.clone(),
            protocol_kind: self.protocol_kind,
        }
    }

    /// Who handles the drop of the connection that automatic reconnection
    /// opens: it stays automatic.
    pub fn after_reconnection(&self) -> (handler: Self)
        ensures
            cloned(self.state, handler.state),
            handler.endpoint == self.endpoint,
            cloned(self.actions, handler.actions),
            cloned(self.reconnection_config, handler.reconnection_config),
            handler.mode is Automatic,
            handler.protocol_kind == self.protocol_kind,
    {
        ClientDisconnectionHandler {
            state: self.state.clone(),
            endpoint: self.endpoint.clone(),
            actions: self.actions.clone(),
            reconnection_config: self.reconnection_config.clone(),
            mode: DropMode::Automatic,
            protocol_kind: self.protocol_kind,
        }
    }
}

/// A client of a hub.
pub struct CommunicationClient<M, A, P, H> {
    pub state: Arc<M>,
    pub endpoint: Endpoint,
    pub actions: A,
    pub reconnection_config: P,
    pub disconnection_handler: Option<H>,
    pub protocol_kind: HubProtocolKind,
}

/// The state of a client that has not connected yet.
pub open spec fn unopened<C>() -> ConnectionState<C> {
    ConnectionState::NotConnected(DisconnectionReason::NeverOpened)
}

impl<M, A, P, H> CommunicationClient<M, A, P, H> {
    /// Whether a client is a clone of another one: both share one state, and
    /// the clone has its own copy of everything else.
    pub open spec fn is_clone_of(self, source: Self) -> bool where A: Clone, P: Clone, H: Clone {
        &&& self.state == source.state
        &&& self.endpoint == source.endpoint
        &&& cloned(source.actions, self.actions)
        &&& cloned(source.reconnection_config, self.reconnection_config)
        &&& match source.disconnection_handler {
            Some(handler) => self.disconnection_handler matches Some(other) && cloned(
                handler,
                other,
            ),
            None => self.disconnection_handler is None,
        }
        &&& self.protocol_kind == source.protocol_kind
    }

    /// The client with other reconnection settings.
    pub open spec fn with_reconnection_config(self, config: P) -> Self {
        CommunicationClient { reconnection_config: config, ..self }
    }

    /// The client with another handler of dropped connections.
    pub open spec fn with_disconnection_handler(self, handler: H) -> Self {
        CommunicationClient { disconnection_handler: Some(handler), ..self }
    }

    /// Whether a client is what is created for a negotiated connection: it has
    /// never been opened, and has no handler of dropped connections yet.
    pub open spec fn is_created_for<C, F: FnOnce(ConnectionState<C>) -> M>(
        self,
        configuration: ConnectionData,
        lock: F,
        actions: A,
        reconnection_config: P,
    ) -> bool {
        &&& call_ensures(lock, (unopened::<C>(),), *self.state)
        &&& self.endpoint.is_parsed_from(configuration.spec_endpoint())
        &&& self.actions == actions
        &&& self.reconnection_config == reconnection_config
        &&& self.disconnection_handler is None
        &&& self.protocol_kind == configuration.spec_protocol_kind()
    }
}

impl<M, A: Clone, P: Clone, H: Clone> Clone for CommunicationClient<M, A, P, H> {
    /// Another client on the same state: the handle is copied, not the state
    /// behind it.
    fn clone(&self) -> (copy: Self)
        ensures
            copy.is_clone_of(*self),
    {
        CommunicationClient {
            state: self.state.clone(),
            endpoint: self.endpoint.clone(),
            actions: self.actions.clone(),
            reconnection_config: self.reconnection_config.clone(),
            disconnection_handler: match &self.disconnection_handler {
                Some(handler) => Some(handler.clone()),
                None => None,
            },
            protocol_kind: self.protocol_kind,
        }
    }
}

impl<M, A, P, H> CommunicationClient<M, A, P, H> {
    /// A client for a negotiated connection whose address is a URI. `lock` puts
    /// the client's state behind a lock.
    pub fn create<C, F: FnOnce(ConnectionState<C>) -> M>(
        configuration: &ConnectionData,
        lock: F,
        actions: A,
        reconnection_config: P,
    ) -> (client: Self)
        requires
            crate::endpoint::uri_scheme(configuration.spec_endpoint()) is Some,
            call_requires(lock, (unopened::<C>(),)),
        ensures
            client.is_created_for(*configuration, lock, actions, reconnection_config),
    {
        let text = configuration.get_endpoint();
        let endpoint = match Endpoint::parse(text.as_str()) {
            Ok(endpoint) => endpoint,
            Err(_) => vstd::pervasive::unreached(),
        };
        CommunicationClient {
            state: Arc::new(lock(ConnectionState::never_opened())),
            endpoint,
            actions,
            reconnection_config,
            disconnection_handler: None,
            protocol_kind: configuration.get_protocol_kind(),
        }
    }

    /// A client for a negotiated connection, if its address is a URI.
    pub fn try_create<C, F: FnOnce(ConnectionState<C>) -> M>(
        configuration: &ConnectionData,
        lock: F,
        actions: A,
        reconnection_config: P,
    ) -> (client: Result<Self, InvalidEndpoint>)
        requires
            call_requires(lock, (unopened::<C>(),)),
        ensures
            match client {
                Ok(created) => crate::endpoint::uri_scheme(configuration.spec_endpoint()) is Some
                    && created.is_created_for(*configuration, lock, actions, reconnection_config),
                Err(rejected) => crate::endpoint::uri_scheme(configuration.spec_endpoint()) is None
                    && rejected.text@ == configuration.spec_endpoint(),
            },
    {
        let text = configuration.get_endpoint();
        match Endpoint::parse(text.as_str()) {
            Ok(_) => Ok(
                CommunicationClient::create(configuration, lock, actions, reconnection_config),
            ),
            Err(rejected) => Err(rejected),
        }
    }

    /// Sets how the client reconnects.
    pub fn set_reconnection_config(&mut self, config: P)
        ensures
            *final(self) == old(self).with_reconnection_config(config),
    {
        self.reconnection_config = config;
    }

    /// Sets the user's handler of dropped connections.
    pub fn set_disconnection_handler(&mut self, handler: H)
        ensures
            *final(self) == old(self).with_disconnection_handler(handler),
    {
        self.disconnection_handler = Some(handler);
    }

    /// Begins the first dial: of the client's hub, for its protocol.
    pub fn dial(&self) -> (phase: DialPhase)
        ensures
            phase == DialPhase::first(self.endpoint.is_secure(), self.protocol_kind),
    {
        DialPhase::start(&self.endpoint, self.protocol_kind)
    }

    /// The protocol that the client speaks.
    pub fn get_protocol_kind(&self) -> (protocol_kind: HubProtocolKind)
        ensures
            protocol_kind == self.protocol_kind,
    {
        self.protocol_kind
    }

    /// How many other clients use a connection that `strong_count` clients use
    /// in all, this one included.
    pub fn other_references(strong_count: usize) -> (other_refs: usize)
        requires
            strong_count > 0,
        ensures
            other_refs == strong_count - 1,
    {
        strong_count - 1
    }
}

impl<M, A: Clone, P, H> CommunicationClient<M, A, P, H> {
    /// The storage of the client's actions.
    pub fn get_storage(&self) -> (storage: Result<A, String>)
        ensures
            storage matches Ok(actions) && cloned(self.actions, actions),
    {
        Ok(self.actions.clone())
    }
}

impl<M, A: Clone, P: Clone, H: Clone> CommunicationClient<M, A, P, H> {
    /// Who handles the drop of the connection that the client opens first: the
    /// user, where the client has a handler. `downgrade` makes a handle of the
    /// client's state that does not keep it alive.
    pub fn first_handler<W, F: FnOnce(&Arc<M>) -> W>(&self, downgrade: F) -> (handler:
        ClientDisconnectionHandler<W, A, P, H>)
        requires
            call_requires(downgrade, (&self.state,)),
        ensures
            call_ensures(downgrade, (&self.state,), handler.state),
            handler.endpoint == self.endpoint,
            cloned(self.actions, handler.actions),
            cloned(self.reconnection_config, handler.reconnection_config),
            match self.disconnection_handler {
                Some(user) => handler.mode matches DropMode::User(other) && cloned(user, other),
                None => handler.mode is Automatic,
            },
            handler.protocol_kind == self.protocol_kind,
    {
        ClientDisconnectionHandler {
            state: downgrade(&self.state),
            endpoint: self.endpoint.clone(),
            actions: self.actions.clone(),
            reconnection_config: self.reconnection_config.clone(),
            mode: match &self.disconnection_handler {
                Some(handler) => DropMode::User(handler.clone()),
                None => DropMode::Automatic,
            },
            protocol_kind: self.protocol_kind,
        }
    }
}

/// When the last client disconnects, that is final: the drop of the connection
/// is left alone, whoever deals with drops, and an attempt to reconnect is
/// refused, whether or not the hub could be reached.
pub proof fn disconnect_is_final<C>(
    state: ConnectionState<C>,
    handling: DropHandling,
    dialed: Result<C, String>,
)
    requires
        state is Connected,
    ensures
        ({
            let closed = state.after_disconnect(0);
            &&& closed.locally_closed()
            &&& (DroppedPhase::CheckClosed { handling }).after_lock(closed) == (
                DroppedPhase::<C>::Finished(crate::dropped::DroppedOutcome::LocallyClosed),
                closed,
            )
            &&& crate::reconnect::undisturbed_attempt(closed, dialed) == (
                ReconnectPhase::<C>::Done(
                    crate::reconnect::ReconnectOutcome::LocallyDisconnected,
                ),
                closed,
            )
        }),
{
}

/// Clones share one state for good: whatever is set on one of them later, it
/// works on the state of the other one, and so does whoever handles its drops.
/// What is set is its own; the other one's settings are in no way touched.
pub proof fn clones_share_one_state<M, A: Clone, P: Clone, H: Clone, W, F: FnOnce(&Arc<M>) -> W>(
    client: CommunicationClient<M, A, P, H>,
    copy: CommunicationClient<M, A, P, H>,
    config: P,
    handler: H,
    downgrade: F,
    handle: W,
)
    requires
        copy.is_clone_of(client),
    ensures
        ({
            let changed = copy.with_reconnection_config(config).with_disconnection_handler(handler);
            &&& changed.state == client.state
            &&& call_ensures(downgrade, (&changed.state,), handle) == call_ensures(
                downgrade,
                (&client.state,),
                handle,
            )
            &&& changed.endpoint == client.endpoint
            &&& changed.protocol_kind == client.protocol_kind
            &&& cloned(client.actions, changed.actions)
            &&& changed.reconnection_config == config
            &&& changed.disconnection_handler == Some(handler)
        }),
{
}

/// A user who reconnects by hand stays in control: the drop of the connection
/// so opened starts no automatic reconnection, but leaves the client closed by
/// the remote side until the user reconnects again.
pub proof fn manual_reconnection_stays_manual<W, A, P, H, C>(
    handler: ClientDisconnectionHandler<W, A, P, H>,
    state: ConnectionState<C>,
)
    requires
        handler.mode is LeftToUser,
        !state.locally_closed(),
    ensures
        (DroppedPhase::CheckClosed { handling: handler.mode.spec_handling() }).after_lock(state)
            == (
            DroppedPhase::<C>::Finished(crate::dropped::DroppedOutcome::LeftToUser),
            ConnectionState::<C>::NotConnected(DisconnectionReason::RemoteClosed),
        ),
{
}

/// A drop is handled as the handler's mode says: by the user's handler where
/// there is one, automatically, or not at all.
pub proof fn drops_are_handled_in_the_mode<W, A, P, H, C>(
    handler: ClientDisconnectionHandler<W, A, P, H>,
    phase: DroppedPhase<C>,
)
    requires
        call_ensures(
            ClientDisconnectionHandler::<W, A, P, H>::on_connection_dropped::<C>,
            (&handler,),
            phase,
        ),
    ensures
        match handler.mode {
            DropMode::User(_) => phase == (DroppedPhase::<C>::CheckClosed {
                handling: DropHandling::User,
            }),
            DropMode::Automatic => phase == (DroppedPhase::<C>::CheckClosed {
                handling: DropHandling::Automatic,
            }),
            DropMode::LeftToUser => phase == (DroppedPhase::<C>::CheckClosed {
                handling: DropHandling::LeftToUser,
            }),
        },
{
}

/// What is set on a client is set, and nothing else about it changes.
pub proof fn settings_are_set_one_by_one<M, A, P, H>(
    client: CommunicationClient<M, A, P, H>,
    config: P,
    handler: H,
)
    ensures
        client.with_reconnection_config(config) == (CommunicationClient {
            state: client.state,
            endpoint: client.endpoint,
            actions: client.actions,
            reconnection_config: config,
            disconnection_handler: client.disconnection_handler,
            protocol_kind: client.protocol_kind,
        }),
        client.with_disconnection_handler(handler) == (CommunicationClient {
            state: client.state,
            endpoint: client.endpoint,
            actions: client.actions,
            reconnection_config: client.reconnection_config,
            disconnection_handler: Some(handler),
            protocol_kind: client.protocol_kind,
        }),
{
}

/// A clone has the state and the address of the client, its protocol, and
/// copies of its actions, its settings and its handler, where it has one.
pub proof fn clones_are_like_the_client<M, A: Clone, P: Clone, H: Clone>(
    client: CommunicationClient<M, A, P, H>,
    copy: CommunicationClient<M, A, P, H>,
)
    requires
        copy.is_clone_of(client),
    ensures
        copy.state == client.state,
        copy.endpoint == client.endpoint,
        copy.protocol_kind == client.protocol_kind,
        cloned(client.actions, copy.actions),
        cloned(client.reconnection_config, copy.reconnection_config),
        copy.disconnection_handler is Some <==> client.disconnection_handler is Some,
        client.disconnection_handler is Some ==> cloned(
            client.disconnection_handler->Some_0,
            copy.disconnection_handler->Some_0,
        ),
{
}

/// A client that is created has never been opened. It has the negotiated
/// address and protocol, the actions and the settings that it was given, and
/// no handler, so that its drops are handled automatically.
pub proof fn created_clients_start_afresh<M, A, P, H, C, F: FnOnce(ConnectionState<C>) -> M>(
    configuration: ConnectionData,
    lock: F,
    actions: A,
    reconnection_config: P,
    client: CommunicationClient<M, A, P, H>,
    source: &str,
)
    requires
        call_ensures(
            CommunicationClient::<M, A, P, H>::try_create::<C, F>,
            (&configuration, lock, actions, reconnection_config),
            Ok::<CommunicationClient<M, A, P, H>, InvalidEndpoint>(client),
        ),
        call_ensures(Endpoint::source, (&client.endpoint,), source),
    ensures
        call_ensures(
            lock,
            (ConnectionState::<C>::NotConnected(DisconnectionReason::NeverOpened),),
            *client.state,
        ),
        source@ == configuration.spec_endpoint(),
        client.protocol_kind == configuration.spec_protocol_kind(),
        client.actions == actions,
        client.reconnection_config == reconnection_config,
        client.disconnection_handler is None,
{
}

/// Whoever dials for a client dials its hub, for its protocol: the client
/// itself, whoever handles its drops, and the user who reconnects by hand.
pub proof fn everyone_dials_the_same_hub<M, W, A, P, H>(
    client: CommunicationClient<M, A, P, H>,
    handler: ClientDisconnectionHandler<W, A, P, H>,
    context: ReconnectionContext<W, A, P>,
    first: DialPhase,
    automatic: DialPhase,
    manual: DialPhase,
    started: DialPhase,
)
    requires
        handler.endpoint == client.endpoint,
        handler.protocol_kind == client.protocol_kind,
        context.endpoint == client.endpoint,
        context.protocol_kind == client.protocol_kind,
        call_ensures(CommunicationClient::<M, A, P, H>::dial, (&client,), first),
        call_ensures(ClientDisconnectionHandler::<W, A, P, H>::dial, (&handler,), automatic),
        call_ensures(ReconnectionContext::<W, A, P>::dial, (&context,), manual),
        call_ensures(DialPhase::start, (&client.endpoint, client.protocol_kind), started),
    ensures
        first == started,
        automatic == started,
        manual == started,
{
}

/// The user's handler is called for the connection that the client opened
/// itself, and for no later one: what automatic reconnection opens is
/// reconnected automatically again, and what the user opened by hand is left to
/// the user. A client without a handler reconnects automatically from the
/// start.
pub proof fn handlers_take_turns<
    M,
    W: Clone,
    A: Clone,
    P: Clone,
    H: Clone,
    F: FnOnce(&Arc<M>) -> W,
>(
    client: CommunicationClient<M, A, P, H>,
    downgrade: F,
    first: ClientDisconnectionHandler<W, A, P, H>,
    again: ClientDisconnectionHandler<W, A, P, H>,
    context: ReconnectionContext<W, A, P>,
    by_hand: ClientDisconnectionHandler<W, A, P, H>,
)
    requires
        call_ensures(
            CommunicationClient::<M, A, P, H>::first_handler::<W, F>,
            (&client, downgrade),
            first,
        ),
        call_ensures(
            ClientDisconnectionHandler::<W, A, P, H>::after_reconnection,
            (&first,),
            again,
        ),
        call_ensures(ClientDisconnectionHandler::<W, A, P, H>::context, (&first,), context),
        call_ensures(
            ReconnectionContext::<W, A, P>::disconnection_handler::<H>,
            (&context,),
            by_hand,
        ),
    ensures
        first.mode is User <==> client.disconnection_handler is Some,
        first.mode is Automatic <==> client.disconnection_handler is None,
        again.mode is Automatic,
        by_hand.mode is LeftToUser,
        first.endpoint == client.endpoint,
        again.endpoint == client.endpoint,
        context.endpoint == client.endpoint,
        by_hand.endpoint == client.endpoint,
        first.protocol_kind == client.protocol_kind,
        again.protocol_kind == client.protocol_kind,
        context.protocol_kind == client.protocol_kind,
        by_hand.protocol_kind == client.protocol_kind,
        call_ensures(downgrade, (&client.state,), first.state),
        cloned(first.state, again.state),
        cloned(first.state, context.state),
        cloned(context.state, by_hand.state),
{
}

/// A context tells of a connection exactly where the client exists and has one,
/// and both its ways to reconnect begin afresh.
pub proof fn contexts_begin_afresh<W, A, P, C>(
    context: ReconnectionContext<W, A, P>,
    state: Option<&ConnectionState<C>>,
    connected: bool,
    attempt: ReconnectPhase<C>,
    run: RetryPhase,
)
    requires
        call_ensures(
            ReconnectionContext::<W, A, P>::is_connected::<C>,
            (&context, state),
            connected,
        ),
        call_ensures(ReconnectionContext::<W, A, P>::reconnect::<C>, (&context,), attempt),
        call_ensures(ReconnectionContext::<W, A, P>::reconnect_with_policy, (&context,), run),
    ensures
        connected <==> (state matches Some(shared) && *shared is Connected),
        attempt is FindClient,
        run == (RetryPhase::AskPolicy { retries: 0 }),
{
}

} // verus!
