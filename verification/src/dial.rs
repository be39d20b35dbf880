//! Dialing a hub: the WebSocket connection and the handshake on it.

use vstd::prelude::*;
use vstd::string::*;

use crate::endpoint::Endpoint;
use crate::protocol::HubProtocolKind;
use crate::receive::{text_message, SocketMessage};

verus! {

/// What opens the conversation with a hub: the name of the protocol in which
/// hub messages are encoded from then on.
pub struct HandshakeRequest {
    pub protocol: String,
}

impl HandshakeRequest {
    /// A request for the protocol of a name.
    pub fn new(protocol: String) -> (request: Self)
        ensures
            request.protocol == protocol,
    {
        HandshakeRequest { protocol }
    }

    /// The request for a protocol.
    pub fn for_protocol(protocol_kind: HubProtocolKind) -> (request: Self)
        ensures
            request.protocol@ == protocol_kind.spec_protocol_name(),
    {
        HandshakeRequest::new(String::from_str(protocol_kind.protocol_name()))
    }
}

/// The message that carries a handshake request, once it is encoded as JSON: a
/// text whatever the protocol asked for, MessagePack too.
pub fn handshake(encoded: String) -> (message: SocketMessage)
    ensures
        message == SocketMessage::Text(encoded),
{
    text_message(encoded)
}

/// Why a hub could not be reached.
pub enum DialFailure {
    /// There is no TLS connector, for the reason given.
    Connector(String),
    /// The connection could not be opened, or broke, for the reason given.
    Transport(String),
    /// The hub closed the connection without an answer to the handshake.
    NoAnswer,
}

impl DialFailure {
    /// The failure as a message.
    pub open spec fn spec_message(self) -> Seq<char> {
        match self {
            DialFailure::Connector(reason) => "Cannot create TLS connector: "@ + reason@,
            DialFailure::Transport(reason) => reason@,
            DialFailure::NoAnswer => "Handshake error"@,
        }
    }

    /// The failure as a message.
    pub fn message(self) -> (message: String)
        ensures
            message@ == self.spec_message(),
    {
        match self {
            DialFailure::Connector(reason) => {
                let mut message = String::from_str("Cannot create TLS connector: ");
                message.append(reason.as_str());
                message
            },
            DialFailure::Transport(reason) => reason,
            DialFailure::NoAnswer => String::from_str("Handshake error"),
        }
    }
}

/// What dialing a hub waits for.
pub enum DialPhase {
    /// A TLS connector.
    BuildConnector { protocol_kind: HubProtocolKind },
    /// The WebSocket connection, over TLS where `secure`.
    Connect { secure: bool, protocol_kind: HubProtocolKind },
    /// The handshake request for the protocol to go out, as one text message.
    SendHandshake { protocol_kind: HubProtocolKind },
    /// The first message that comes back.
    AwaitAnswer,
    /// Nothing: the connection is ready for use.
    Ready,
    /// Nothing: the hub could not be reached.
    Failed(DialFailure),
}

impl DialPhase {
    /// The first phase for a hub.
    pub open spec fn first(secure: bool, protocol_kind: HubProtocolKind) -> Self {
        if secure {
            DialPhase::BuildConnector { protocol_kind }
        } else {
            DialPhase::Connect { secure: false, protocol_kind }
        }
    }

    /// The phase after the TLS connector was asked for.
    pub open spec fn after_connector(self, built: Result<(), String>) -> Self {
        match self {
            DialPhase::BuildConnector { protocol_kind } => match built {
                Ok(_) => DialPhase::Connect { secure: true, protocol_kind },
                Err(reason) => DialPhase::Failed(DialFailure::Connector(reason)),
            },
            _ => self,
        }
    }

    /// The phase after the connection was asked for.
    pub open spec fn after_connect(self, opened: Result<(), String>) -> Self {
        match self {
            DialPhase::Connect { protocol_kind, .. } => match opened {
                Ok(_) => DialPhase::SendHandshake { protocol_kind },
                Err(reason) => DialPhase::Failed(DialFailure::Transport(reason)),
            },
            _ => self,
        }
    }

    /// The phase after the handshake request was sent.
    pub open spec fn after_request(self, sent: Result<(), String>) -> Self {
        match self {
            DialPhase::SendHandshake { .. } => match sent {
                Ok(_) => DialPhase::AwaitAnswer,
                Err(reason) => DialPhase::Failed(DialFailure::Transport(reason)),
            },
            _ => self,
        }
    }

    /// The phase after the first message came, or none did.
    pub open spec fn after_answer(self, answer: Option<Result<(), String>>) -> Self {
        match self {
            DialPhase::AwaitAnswer => match answer {
                Some(Ok(_)) => DialPhase::Ready,
                Some(Err(reason)) => DialPhase::Failed(DialFailure::Transport(reason)),
                None => DialPhase::Failed(DialFailure::NoAnswer),
            },
            _ => self,
        }
    }

    /// Begins to dial a hub, for a protocol: over TLS exactly where the address
    /// of the hub says so.
    pub fn start(endpoint: &Endpoint, protocol_kind: HubProtocolKind) -> (phase: Self)
        ensures
            phase == DialPhase::first(endpoint.is_secure(), protocol_kind),
    {
        if endpoint.secure() {
            DialPhase::BuildConnector { protocol_kind }
        } else {
            DialPhase::Connect { secure: false, protocol_kind }
        }
    }

    /// Takes in whether there is a TLS connector.
    pub fn connector_built(self, built: Result<(), String>) -> (next: Self)
        ensures
            next == self.after_connector(built),
    {
        match self {
            DialPhase::BuildConnector { protocol_kind } => match built {
                Ok(_) => DialPhase::Connect { secure: true, protocol_kind },
                Err(reason) => DialPhase::Failed(DialFailure::Connector(reason)),
            },
            other => other,
        }
    }

    /// Takes in whether the connection opened.
    pub fn connected(self, opened: Result<(), String>) -> (next: Self)
        ensures
            next == self.after_connect(opened),
    {
        match self {
            DialPhase::Connect { protocol_kind, .. } => match opened {
                Ok(_) => DialPhase::SendHandshake { protocol_kind },
                Err(reason) => DialPhase::Failed(DialFailure::Transport(reason)),
            },
            other => other,
        }
    }

    /// Takes in whether the handshake request went out.
    pub fn handshake_sent(self, sent: Result<(), String>) -> (next: Self)
        ensures
            next == self.after_request(sent),
    {
        match self {
            DialPhase::SendHandshake { .. } => match sent {
                Ok(_) => DialPhase::AwaitAnswer,
                Err(reason) => DialPhase::Failed(DialFailure::Transport(reason)),
            },
            other => other,
        }
    }

    /// Takes in the first message, or that none came. Whatever a message says,
    /// it completes the handshake.
    pub fn answered(self, answer: Option<Result<(), String>>) -> (next: Self)
        ensures
            next == self.after_answer(answer),
    {
        match self {
            DialPhase::AwaitAnswer => match answer {
                Some(Ok(_)) => DialPhase::Ready,
                Some(Err(reason)) => DialPhase::Failed(DialFailure::Transport(reason)),
                None => DialPhase::Failed(DialFailure::NoAnswer),
            },
            other => other,
        }
    }
}

/// The phases of a dial, given what comes back at each phase that it reaches.
pub open spec fn phases(
    secure: bool,
    protocol_kind: HubProtocolKind,
    built: Result<(), String>,
    opened: Result<(), String>,
    sent: Result<(), String>,
    answer: Option<Result<(), String>>,
) -> Seq<DialPhase> {
    let first = DialPhase::first(secure, protocol_kind);
    let connecting = first.after_connector(built);
    let sending = connecting.after_connect(opened);
    let waiting = sending.after_request(sent);
    seq![first, connecting, sending, waiting, waiting.after_answer(answer)]
}

/// How a dial ends, given what comes back at each phase that it reaches.
pub open spec fn dial(
    secure: bool,
    protocol_kind: HubProtocolKind,
    built: Result<(), String>,
    opened: Result<(), String>,
    sent: Result<(), String>,
    answer: Option<Result<(), String>>,
) -> DialPhase {
    phases(secure, protocol_kind, built, opened, sent, answer).last()
}

/// The handshake goes out once and asks for the protocol that was dialed for,
/// exactly when the connection opened, and nothing is read before it is out.
pub proof fn handshake_goes_out_first(
    secure: bool,
    protocol_kind: HubProtocolKind,
    built: Result<(), String>,
    opened: Result<(), String>,
    sent: Result<(), String>,
    answer: Option<Result<(), String>>,
)
    ensures
        ({
            let passed = phases(secure, protocol_kind, built, opened, sent, answer);
            &&& forall|i: int|
                0 <= i < passed.len() && (#[trigger] passed[i]) is SendHandshake ==> i == 2
                    && passed[i] == (DialPhase::SendHandshake { protocol_kind })
            &&& passed[2] is SendHandshake <==> (secure ==> built is Ok) && opened is Ok
            &&& forall|i: int|
                0 <= i < passed.len() && ((#[trigger] passed[i]) is AwaitAnswer
                    || passed[i] is Ready) ==> i > 2 && passed[2] is SendHandshake && sent is Ok
        }),
{
}

/// A dial always ends, and the connection is ready exactly when everything
/// that was needed came about: the connector where the hub is reached over
/// TLS, the connection, the handshake request, and a message in return.
pub proof fn dial_is_ready_when_all_succeeds(
    secure: bool,
    protocol_kind: HubProtocolKind,
    built: Result<(), String>,
    opened: Result<(), String>,
    sent: Result<(), String>,
    answer: Option<Result<(), String>>,
)
    ensures
        ({
            let end = dial(secure, protocol_kind, built, opened, sent, answer);
            &&& end is Ready || end is Failed
            &&& end is Ready <==> (secure ==> built is Ok) && opened is Ok && sent is Ok
                && answer matches Some(Ok(_))
        }),
{
}

/// A dial that fails reports the first thing that went wrong.
pub proof fn dial_reports_the_first_failure(
    secure: bool,
    protocol_kind: HubProtocolKind,
    built: Result<(), String>,
    opened: Result<(), String>,
    sent: Result<(), String>,
    answer: Option<Result<(), String>>,
    failure: DialFailure,
)
    requires
        dial(secure, protocol_kind, built, opened, sent, answer) == DialPhase::Failed(failure),
    ensures
        failure.spec_message() == if secure && built is Err {
            "Cannot create TLS connector: "@ + built->Err_0@
        } else if opened is Err {
            opened->Err_0@
        } else if sent is Err {
            sent->Err_0@
        } else if answer is Some {
            answer->Some_0->Err_0@
        } else {
            "Handshake error"@
        },
{
}

/// A dial begins with a TLS connector exactly where the hub is reached over
/// TLS, and opens a plain connection otherwise.
pub proof fn dials_begin_as_the_address_says(
    endpoint: Endpoint,
    protocol_kind: HubProtocolKind,
    phase: DialPhase,
    secure: bool,
)
    requires
        call_ensures(DialPhase::start, (&endpoint, protocol_kind), phase),
        call_ensures(Endpoint::secure, (&endpoint,), secure),
    ensures
        secure ==> phase == (DialPhase::BuildConnector { protocol_kind }),
        !secure ==> phase == (DialPhase::Connect { secure: false, protocol_kind }),
        phase == DialPhase::first(secure, protocol_kind),
{
}

/// A TLS connector leads to a connection over TLS, and the lack of one ends the
/// dial.
pub proof fn connector_leads_to_tls(
    protocol_kind: HubProtocolKind,
    built: Result<(), String>,
    next: DialPhase,
)
    requires
        call_ensures(
            DialPhase::connector_built,
            (DialPhase::BuildConnector { protocol_kind }, built),
            next,
        ),
    ensures
        match built {
            Ok(_) => next == (DialPhase::Connect { secure: true, protocol_kind }),
            Err(reason) => next == DialPhase::Failed(DialFailure::Connector(reason)),
        },
{
}

/// An open connection, plain or over TLS, leads to the handshake for the
/// protocol; one that does not open ends the dial.
pub proof fn connection_leads_to_handshake(
    secure: bool,
    protocol_kind: HubProtocolKind,
    opened: Result<(), String>,
    next: DialPhase,
)
    requires
        call_ensures(
            DialPhase::connected,
            (DialPhase::Connect { secure, protocol_kind }, opened),
            next,
        ),
    ensures
        match opened {
            Ok(_) => next == (DialPhase::SendHandshake { protocol_kind }),
            Err(reason) => next == DialPhase::Failed(DialFailure::Transport(reason)),
        },
{
}

/// A handshake that is out waits for an answer; one that does not go out ends
/// the dial.
pub proof fn handshake_waits_for_an_answer(
    protocol_kind: HubProtocolKind,
    sent: Result<(), String>,
    next: DialPhase,
)
    requires
        call_ensures(
            DialPhase::handshake_sent,
            (DialPhase::SendHandshake { protocol_kind }, sent),
            next,
        ),
    ensures
        match sent {
            Ok(_) => next is AwaitAnswer,
            Err(reason) => next == DialPhase::Failed(DialFailure::Transport(reason)),
        },
{
}

/// Any message that comes back completes the handshake. An error in its place
/// ends the dial, and so does the end of the connection.
pub proof fn any_answer_completes_the_handshake(
    answer: Option<Result<(), String>>,
    next: DialPhase,
)
    requires
        call_ensures(DialPhase::answered, (DialPhase::AwaitAnswer, answer), next),
    ensures
        match answer {
            Some(Ok(_)) => next is Ready,
            Some(Err(reason)) => next == DialPhase::Failed(DialFailure::Transport(reason)),
            None => next == DialPhase::Failed(DialFailure::NoAnswer),
        },
{
}

/// A failed dial says what went wrong: a lack of TLS as such, what the
/// transport says as it stands, and an answer that never came.
pub proof fn dial_failures_say_why(failure: DialFailure, message: String)
    requires
        call_ensures(DialFailure::message, (failure,), message),
    ensures
        match failure {
            DialFailure::Connector(reason) => message@ == "Cannot create TLS connector: "@
                + reason@,
            DialFailure::Transport(reason) => message@ == reason@,
            DialFailure::NoAnswer => message@ == "Handshake error"@,
        },
{
}

/// A dial takes in only what it waits for; anything else leaves it where it is.
pub proof fn dials_take_in_what_they_wait_for(
    phase: DialPhase,
    result: Result<(), String>,
    answer: Option<Result<(), String>>,
)
    ensures
        !(phase is BuildConnector) ==> phase.after_connector(result) == phase,
        !(phase is Connect) ==> phase.after_connect(result) == phase,
        !(phase is SendHandshake) ==> phase.after_request(result) == phase,
        !(phase is AwaitAnswer) ==> phase.after_answer(answer) == phase,
{
}

/// The handshake is one text with the encoded request, and the request has the
/// name of the protocol: JSON and MessagePack ask for different ones.
pub proof fn handshakes_ask_for_the_protocol(
    protocol_kind: HubProtocolKind,
    request: HandshakeRequest,
    encoded: String,
    message: SocketMessage,
)
    requires
        call_ensures(HandshakeRequest::for_protocol, (protocol_kind,), request),
        call_ensures(handshake, (encoded,), message),
    ensures
        protocol_kind is Json ==> request.protocol@ == "json"@,
        protocol_kind is MessagePack ==> request.protocol@ == "messagepack"@,
        message matches SocketMessage::Text(text) && text@ == encoded@,
{
}

} // verus!
