//! The hub protocols and the names that they go by on the wire.

use vstd::prelude::*;

verus! {

/// The protocol in which hub messages are encoded.
#[derive(Clone, Copy, Debug, PartialEq, Eq, Structural)]
pub enum HubProtocolKind {
    Json,
    MessagePack,
}

impl HubProtocolKind {
    /// The transfer format that a transport must offer to carry the protocol.
    pub open spec fn spec_transfer_format(self) -> Seq<char> {
        match self {
            HubProtocolKind::Json => "Text"@,
            HubProtocolKind::MessagePack => "Binary"@,
        }
    }

    /// The name by which the handshake asks for the protocol.
    pub open spec fn spec_protocol_name(self) -> Seq<char> {
        match self {
            HubProtocolKind::Json => "json"@,
            HubProtocolKind::MessagePack => "messagepack"@,
        }
    }

    /// The transfer format that a transport must offer to carry the protocol.
    pub fn transfer_format(&self) -> (format: &'static str)
        ensures
            format@ == self.spec_transfer_format(),
    {
        match self {
            HubProtocolKind::Json => "Text",
            HubProtocolKind::MessagePack => "Binary",
        }
    }

    /// The name by which the handshake asks for the protocol.
    pub fn protocol_name(&self) -> (name: &'static str)
        ensures
            name@ == self.spec_protocol_name(),
    {
        match self {
            HubProtocolKind::Json => "json",
            HubProtocolKind::MessagePack => "messagepack",
        }
    }
}

/// JSON travels as text, MessagePack as bytes, and each is asked for by its own
/// name.
pub proof fn protocols_go_by_their_names(
    protocol_kind: HubProtocolKind,
    format: &'static str,
    name: &'static str,
)
    requires
        call_ensures(HubProtocolKind::transfer_format, (&protocol_kind,), format),
        call_ensures(HubProtocolKind::protocol_name, (&protocol_kind,), name),
    ensures
        protocol_kind is Json ==> format@ == "Text"@ && name@ == "json"@,
        protocol_kind is MessagePack ==> format@ == "Binary"@ && name@ == "messagepack"@,
{
}

} // verus!
