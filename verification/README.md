# signalr_communication

The communication layer of a SignalR client: negotiating a connection over
HTTP, connecting over a WebSocket, framing hub messages, and reconnecting.

`src/` is the library. It decides and never touches the network; it is verified
with [Verus](https://github.com/verus-lang/verus), but for the calls into other
crates that are named below. Where the
work alternates with the network, it is a state machine whose phases say what
they wait for:

| module | what it decides |
| --- | --- |
| `http_client` | negotiation requests, their outcome, the address of a connection, authorization |
| `endpoint`, `dial` | whether a hub is reached over TLS, the steps of a dial, the handshake |
| `framing`, `receive` | the messages of a WebSocket, and the hub messages in what it brings |
| `state` | whether a client may send, and who closes a connection |
| `reconnect` | attempts to reconnect on request, once or under a retry policy |
| `dropped` | what happens when a connection is dropped: the user's handler, automatic reconnection, or neither |
| `client` | the client and what it hands to those who act for it |
| `protocol`, `text`, `encoding` | names on the wire, text search, base64 |

Two crates are called from the library, `base64` and `http`; what is taken for
granted of them is stated on `encoding::encode_base64` and
`endpoint::parse_uri`. Of the standard library, `text` states what
`String::push` does.

`app/` drives the library over the network with `tokio`, `tokio-websockets` and
`reqwest`. It leaves the encoding of values, the storage of actions and the
retry policy to the layers around it (`app/layers.rs`).
