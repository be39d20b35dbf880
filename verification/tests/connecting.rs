use signalr_communication::client::{
    ClientDisconnectionHandler, CommunicationClient, CommunicationConnection, DropMode,
};
use signalr_communication::dial::{handshake, DialFailure, DialPhase, HandshakeRequest};
use signalr_communication::dropped::{DropHandling, DroppedOutcome, DroppedPhase};
use signalr_communication::endpoint::Endpoint;
use signalr_communication::http_client::{
    Authentication, AvailableTransport, ConnectionData, HttpClient, NegotiateResponse,
};
use signalr_communication::protocol::HubProtocolKind;
use signalr_communication::receive::SocketMessage;
use signalr_communication::reconnect::{ReconnectPhase, RetryPhase};
use signalr_communication::state::{ConnectionState, DisconnectionReason};
use std::sync::{Arc, Mutex, Weak};

type State = ConnectionState<&'static str>;
type Client = CommunicationClient<Mutex<State>, u8, u16, &'static str>;
type Handler = ClientDisconnectionHandler<Weak<Mutex<State>>, u8, u16, &'static str>;

fn endpoint(text: &str) -> Endpoint {
    Endpoint::parse(text).ok().unwrap()
}

fn data(address: &str) -> ConnectionData {
    HttpClient::create_configuration(
        address.to_string(),
        NegotiateResponse {
            connection_id: "id".to_string(),
            endpoint_query: String::new(),
            available_transports: vec![AvailableTransport {
                transport: "WebSockets".to_string(),
                transfer_formats: vec!["Binary".to_string()],
            }],
        },
        HubProtocolKind::MessagePack,
        &Authentication::Anonymous,
    )
    .unwrap()
}

fn client(address: &str) -> Client {
    Client::try_create(&data(address), Mutex::new, 1, 2).ok().unwrap()
}

fn failure(phase: DialPhase) -> String {
    match phase {
        DialPhase::Failed(failure) => failure.message(),
        _ => panic!("not failed"),
    }
}

#[test]
fn endpoints_are_uris() {
    assert_eq!(endpoint("ws://host/hub?id=1").as_str(), "ws://host/hub?id=1");
    assert_eq!(endpoint("ws://host/hub").clone().as_str(), "ws://host/hub");
    let rejected = Endpoint::parse("not a uri").err().unwrap();
    assert_eq!(rejected.text, "not a uri");
    assert!(Endpoint::parse("").is_err());
    assert!(Endpoint::parse("wss://").is_err());
}

#[test]
fn endpoints_read_as_their_uri() {
    for (source, text) in [
        ("ws://h#f", "ws://h/"),
        ("ws://h/a#f", "ws://h/a"),
        ("ws://h?id=1", "ws://h/?id=1"),
        ("wss://h/a?id=1#f?g", "wss://h/a?id=1"),
        ("HTTP://h", "http://h/"),
        ("Ws://H/A", "Ws://H/A"),
        ("host:80", "host:80"),
        ("/a#f", "/a"),
        ("*", "*"),
    ] {
        let address = endpoint(source);
        assert_eq!(address.as_str(), text);
        assert_eq!(address.clone().as_str(), text);
        assert_eq!(address.source(), source);
    }
    let context = client("ws://h#f").first_handler(Arc::downgrade).context();
    assert_eq!(context.endpoint().as_str(), "ws://h/");
}

#[test]
fn secure_endpoints() {
    assert!(endpoint("wss://host/hub").secure());
    assert!(endpoint("wss://host").clone().secure());
    assert!(!endpoint("ws://host/hub").secure());
    assert!(!endpoint("WSS://host/hub").secure());
    assert!(!endpoint("https://host/hub").secure());
    assert!(!endpoint("/wss://host").secure());
    assert!(!endpoint("host").secure());
}

#[test]
fn plain_dial() {
    let phase = DialPhase::start(&endpoint("ws://host"), HubProtocolKind::Json);
    assert!(matches!(
        phase,
        DialPhase::Connect { secure: false, protocol_kind: HubProtocolKind::Json }
    ));
    let phase = phase.connected(Ok(()));
    assert!(matches!(
        phase,
        DialPhase::SendHandshake { protocol_kind: HubProtocolKind::Json }
    ));
    let phase = phase.handshake_sent(Ok(()));
    assert!(matches!(phase, DialPhase::AwaitAnswer));
    assert!(matches!(phase.answered(Some(Ok(()))), DialPhase::Ready));
}

#[test]
fn secure_dial() {
    let phase = DialPhase::start(&endpoint("wss://host"), HubProtocolKind::MessagePack);
    assert!(matches!(
        phase,
        DialPhase::BuildConnector { protocol_kind: HubProtocolKind::MessagePack }
    ));
    let phase = phase.connector_built(Ok(()));
    assert!(matches!(
        phase,
        DialPhase::Connect { secure: true, protocol_kind: HubProtocolKind::MessagePack }
    ));
    assert!(matches!(
        phase.connected(Ok(())),
        DialPhase::SendHandshake { protocol_kind: HubProtocolKind::MessagePack }
    ));
}

#[test]
fn everyone_dials_the_hub_of_the_client() {
    for (address, over_tls) in [("ws://host/hub", false), ("wss://host/hub", true)] {
        let client = client(address);
        let handler = client.first_handler(Arc::downgrade);
        let context = handler.context();
        for phase in [client.dial(), handler.dial(), context.dial()] {
            match phase {
                DialPhase::BuildConnector { protocol_kind } => {
                    assert!(over_tls);
                    assert_eq!(protocol_kind, HubProtocolKind::MessagePack);
                }
                DialPhase::Connect { secure, protocol_kind } => {
                    assert!(!over_tls && !secure);
                    assert_eq!(protocol_kind, HubProtocolKind::MessagePack);
                }
                _ => panic!("not the first phase"),
            }
        }
    }
}

#[test]
fn handshakes_name_the_protocol() {
    assert_eq!(HandshakeRequest::for_protocol(HubProtocolKind::Json).protocol, "json");
    assert_eq!(
        HandshakeRequest::for_protocol(HubProtocolKind::MessagePack).protocol,
        "messagepack"
    );
    assert_eq!(HandshakeRequest::new("other".to_string()).protocol, "other");
}

#[test]
fn handshakes_are_text_for_every_protocol() {
    for protocol_kind in [HubProtocolKind::Json, HubProtocolKind::MessagePack] {
        let request = HandshakeRequest::for_protocol(protocol_kind);
        let encoded = format!("{{\"protocol\":\"{}\"}}\u{1e}", request.protocol);
        match handshake(encoded.clone()) {
            SocketMessage::Text(sent) => assert_eq!(sent, encoded),
            _ => panic!("not a text"),
        }
    }
}

#[test]
fn dial_failures() {
    let protocol_kind = HubProtocolKind::Json;
    assert_eq!(
        failure(
            DialPhase::BuildConnector { protocol_kind }.connector_built(Err("no tls".to_string()))
        ),
        "Cannot create TLS connector: no tls"
    );
    assert_eq!(
        failure(
            DialPhase::Connect { secure: false, protocol_kind }
                .connected(Err("refused".to_string()))
        ),
        "refused"
    );
    assert_eq!(
        failure(
            DialPhase::SendHandshake { protocol_kind }.handshake_sent(Err("broken".to_string()))
        ),
        "broken"
    );
    assert_eq!(failure(DialPhase::AwaitAnswer.answered(Some(Err("reset".to_string())))), "reset");
    assert_eq!(failure(DialPhase::AwaitAnswer.answered(None)), "Handshake error");
}

#[test]
fn finished_dials_take_in_nothing() {
    let phase = DialPhase::Failed(DialFailure::NoAnswer).connected(Ok(())).handshake_sent(Ok(()));
    assert_eq!(failure(phase.answered(Some(Ok(())))), "Handshake error");
}

#[test]
fn sending_needs_a_connection() {
    let message = |reason: DisconnectionReason| {
        State::NotConnected(reason).connection().err().unwrap()
    };
    assert_eq!(
        message(DisconnectionReason::NeverOpened),
        "Client is not connected, cannot send: NeverOpened"
    );
    for reason in [
        DisconnectionReason::RemoteClosed,
        DisconnectionReason::LocalClosed,
        DisconnectionReason::NeverOpened,
        DisconnectionReason::Reconnecting,
    ] {
        assert_eq!(
            message(reason),
            format!("Client is not connected, cannot send: {:?}", reason)
        );
    }
    assert_eq!(State::Connected("c").connection(), Ok(&"c"));
}

#[test]
fn first_connection() {
    let mut state = State::never_opened();
    assert!(!state.is_connected());
    assert_eq!(state.connect_internal(Err("refused".to_string())), Err("refused".to_string()));
    assert!(matches!(state, State::NotConnected(DisconnectionReason::NeverOpened)));
    assert_eq!(state.connect_internal(Ok("c")), Ok(()));
    assert!(state.is_connected());
    assert_eq!(state.clone().connection(), Ok(&"c"));
}

#[test]
fn only_the_last_client_disconnects() {
    let mut state = State::Connected("c");
    assert!(!state.disconnect(Client::other_references(2)));
    assert!(state.is_connected());
    assert!(state.disconnect(Client::other_references(1)));
    assert!(state.is_locally_closed());
    assert!(!state.disconnect(0));
    assert!(state.clone().is_locally_closed());
}

#[test]
fn disconnecting_without_a_connection_keeps_the_reason() {
    let mut state = State::NotConnected(DisconnectionReason::RemoteClosed);
    assert!(!state.disconnect(0));
    assert!(matches!(state, State::NotConnected(DisconnectionReason::RemoteClosed)));
}

#[test]
fn creating_a_client() {
    let mut client = client("ws://host/hub");
    assert_eq!(client.endpoint.as_str(), "ws://host/hub");
    assert_eq!(client.get_protocol_kind(), HubProtocolKind::MessagePack);
    assert_eq!(client.get_storage(), Ok(1));
    assert_eq!(client.reconnection_config, 2);
    assert!(client.disconnection_handler.is_none());
    client.set_reconnection_config(3);
    client.set_disconnection_handler("mine");
    let copy = client.clone();
    assert_eq!(copy.reconnection_config, 3);
    assert_eq!(copy.disconnection_handler, Some("mine"));
    let other = Client::create(&data("ws://host/x"), Mutex::new, 1, 2);
    assert_eq!(other.endpoint.as_str(), "ws://host/x");
    assert!(matches!(
        *other.state.lock().unwrap(),
        State::NotConnected(DisconnectionReason::NeverOpened)
    ));
}

#[test]
fn clones_work_on_one_state() {
    let mut original = client("ws://host/hub");
    original.set_disconnection_handler("mine");
    let mut copy = original.clone();
    assert!(Arc::ptr_eq(&original.state, &copy.state));
    copy.set_reconnection_config(7);
    copy.set_disconnection_handler("yours");
    assert_eq!(original.reconnection_config, 2);
    assert_eq!(original.disconnection_handler, Some("mine"));
    assert_eq!(copy.endpoint.as_str(), "ws://host/hub");
    assert_eq!(copy.get_protocol_kind(), original.get_protocol_kind());

    assert_eq!(copy.state.lock().unwrap().connect_internal(Ok("c")), Ok(()));
    assert!(original.state.lock().unwrap().is_connected());
    let references = Client::other_references(Arc::strong_count(&original.state));
    assert_eq!(references, 1);
    assert!(!original.state.lock().unwrap().disconnect(references));
    drop(copy);
    let references = Client::other_references(Arc::strong_count(&original.state));
    assert!(original.state.lock().unwrap().disconnect(references));
}

#[test]
fn handlers_work_on_the_state_of_the_client() {
    let client = client("ws://host/hub");
    let handler = client.first_handler(Arc::downgrade);
    let context = handler.context();
    let next: Handler = context.clone().disconnection_handler();
    for state in [&handler.state, &context.state, &next.state, &handler.after_reconnection().state]
    {
        assert!(Arc::ptr_eq(&state.upgrade().unwrap(), &client.state));
    }
    assert_eq!(Arc::strong_count(&client.state), 1);
    drop(client);
    assert!(handler.state.upgrade().is_none());
}

#[test]
fn a_client_needs_a_uri() {
    let rejected = Client::try_create(&data("no uri"), Mutex::new, 1, 2).err().unwrap();
    assert_eq!(rejected.text, "no uri");
}

#[test]
fn handlers_follow_the_client() {
    let mut client = client("ws://host/hub");
    let automatic = client.first_handler(Arc::downgrade);
    assert!(matches!(automatic.mode, DropMode::Automatic));
    let phase: DroppedPhase<u8> = automatic.on_connection_dropped();
    assert!(matches!(phase, DroppedPhase::CheckClosed { handling: DropHandling::Automatic }));
    client.set_disconnection_handler("mine");
    let manual = client.first_handler(Arc::downgrade);
    let phase: DroppedPhase<u8> = manual.on_connection_dropped();
    assert!(matches!(phase, DroppedPhase::CheckClosed { handling: DropHandling::User }));
    assert!(matches!(manual.mode, DropMode::User("mine")));
}

#[test]
fn the_user_handler_does_not_survive_a_reconnection() {
    let mut client = client("ws://host/hub");
    client.set_disconnection_handler("mine");
    let handler = client.first_handler(Arc::downgrade);
    assert!(matches!(handler.after_reconnection().mode, DropMode::Automatic));
    let next: Handler = handler.context().disconnection_handler();
    assert!(matches!(next.mode, DropMode::LeftToUser));
    assert_eq!(next.endpoint.as_str(), "ws://host/hub");
    assert_eq!(next.actions, 1);
    assert_eq!(next.reconnection_config, 2);
    assert_eq!(next.protocol_kind, HubProtocolKind::MessagePack);
}

#[test]
fn a_manual_reconnection_starts_no_automatic_one() {
    let mut client = client("ws://host/hub");
    client.set_disconnection_handler("mine");
    let handler = client.first_handler(Arc::downgrade);
    let next: Handler = handler.context().disconnection_handler();
    *client.state.lock().unwrap() = State::Connected("by hand");
    let phase = next.on_connection_dropped().locked(&mut client.state.lock().unwrap());
    assert!(matches!(phase, DroppedPhase::Finished(DroppedOutcome::LeftToUser)));
    assert!(matches!(
        *client.state.lock().unwrap(),
        State::NotConnected(DisconnectionReason::RemoteClosed)
    ));
}

#[test]
fn contexts() {
    let client = client("ws://host/hub");
    let context = client.first_handler(Arc::downgrade).context().clone();
    assert_eq!(context.endpoint().as_str(), "ws://host/hub");
    assert!(context.is_connected(Some(&State::Connected("c"))));
    assert!(!context.is_connected(Some(&State::never_opened())));
    assert!(!context.is_connected::<u8>(None));
    assert!(matches!(context.reconnect::<u8>(), ReconnectPhase::FindClient));
    assert!(matches!(context.reconnect_with_policy(), RetryPhase::AskPolicy { retries: 0 }));
}

#[test]
fn receivers_stop_once() {
    let mut connection: CommunicationConnection<u8, &str> = CommunicationConnection::new(1);
    assert_eq!(connection.stop_receiving(), None);
    connection.start_receiving("task");
    assert_eq!(connection.stop_receiving(), Some("task"));
    assert_eq!(connection.stop_receiving(), None);
    assert_eq!(connection.sink, 1);
}
