//! The messages of a connection, and its receiving side.

use vstd::prelude::*;

use crate::framing::split_text;
use crate::protocol::HubProtocolKind;

verus! {

/// A message of a WebSocket.
pub enum SocketMessage {
    Text(String),
    Binary(Vec<u8>),
    /// A ping, a pong or a close.
    Control,
}

/// The message that carries a value, once it is encoded as JSON.
pub fn text_message(json: String) -> (message: SocketMessage)
    ensures
        message == SocketMessage::Text(json),
{
    SocketMessage::Text(json)
}

/// The message that carries bytes.
pub fn binary_message(data: Vec<u8>) -> (message: SocketMessage)
    ensures
        message == SocketMessage::Binary(data),
{
    SocketMessage::Binary(data)
}

/// A hub message as it came over the wire.
pub enum MessagePayload {
    Text(String),
    Binary(Vec<u8>),
}

/// What a hub message holds.
pub enum PayloadView {
    Text(Seq<char>),
    Binary(Seq<u8>),
}

impl View for MessagePayload {
    type V = PayloadView;

    open spec fn view(&self) -> PayloadView {
        match self {
            MessagePayload::Text(text) => PayloadView::Text(text@),
            MessagePayload::Binary(bytes) => PayloadView::Binary(bytes@),
        }
    }
}

/// What a stream of WebSocket messages yields.
pub enum StreamItem {
    /// A message.
    Message(SocketMessage),
    /// An error in place of a message.
    Failed,
    /// The end of the stream.
    Ended,
}

/// What is to be done about an item of the stream.
pub enum ReceiverStep {
    /// Each hub message is to be processed, in order.
    Deliver(Vec<MessagePayload>),
    /// The connection is gone: whoever handles that is to be told, and nothing
    /// more is received.
    ConnectionDropped,
}

/// What is to be done, with the hub messages as what they hold.
pub enum StepView {
    Deliver(Seq<PayloadView>),
    ConnectionDropped,
}

impl View for ReceiverStep {
    type V = StepView;

    open spec fn view(&self) -> StepView {
        match self {
            ReceiverStep::Deliver(messages) => StepView::Deliver(
                messages@.map_values(|payload: MessagePayload| payload@),
            ),
            ReceiverStep::ConnectionDropped => StepView::ConnectionDropped,
        }
    }
}

/// The frames in the payload of a binary message, as a splitter sees them;
/// none where it fails.
pub open spec fn frames(split: Result<Vec<Vec<u8>>, String>) -> Seq<Seq<u8>> {
    match split {
        Ok(parts) => parts@.map_values(|part: Vec<u8>| part@),
        Err(_) => Seq::empty(),
    }
}

/// The hub messages that a WebSocket message brings. Each protocol has its own
/// type of message, and any other brings none.
pub open spec fn payloads(
    protocol_kind: HubProtocolKind,
    message: SocketMessage,
    split: Result<Vec<Vec<u8>>, String>,
) -> Seq<PayloadView> {
    match (protocol_kind, message) {
        (
            HubProtocolKind::Json,
            SocketMessage::Text(text),
        ) => crate::framing::text_messages(text@).map_values(
            |part: Seq<char>| PayloadView::Text(part),
        ),
        (HubProtocolKind::MessagePack, SocketMessage::Binary(_)) => frames(split).map_values(
            |part: Seq<u8>| PayloadView::Binary(part),
        ),
        _ => Seq::empty(),
    }
}

/// The hub messages that an item of the stream brings. An error in place of a
/// message is passed over.
pub open spec fn brought(
    protocol_kind: HubProtocolKind,
    item: StreamItem,
    split: Result<Vec<Vec<u8>>, String>,
) -> Seq<PayloadView> {
    match item {
        StreamItem::Message(message) => payloads(protocol_kind, message, split),
        _ => Seq::empty(),
    }
}

/// What is to be done about an item of the stream: what it brings is delivered,
/// and the end of the stream is the drop of the connection.
pub open spec fn step(
    protocol_kind: HubProtocolKind,
    item: StreamItem,
    split: Result<Vec<Vec<u8>>, String>,
) -> StepView {
    if item is Ended {
        StepView::ConnectionDropped
    } else {
        StepView::Deliver(brought(protocol_kind, item, split))
    }
}

/// The hub messages in a text message; any other message has none.
pub fn get_text_messages(message: &SocketMessage) -> (messages: Vec<String>)
    ensures
        messages.deep_view() == match *message {
            SocketMessage::Text(text) => crate::framing::text_messages(text@),
            _ => Seq::empty(),
        },
{
    match message {
        SocketMessage::Text(text) => split_text(text.as_str()),
        _ => {
            let none: Vec<String> = Vec::new();
            assert(none.deep_view() =~= Seq::<Seq<char>>::empty());
            none
        },
    }
}

/// The frames in a binary message, given how its payload splits; any other
/// message has none, and neither has one that does not split.
pub fn get_binary_messages(message: &SocketMessage, split: Result<Vec<Vec<u8>>, String>) -> (parts:
    Vec<Vec<u8>>)
    ensures
        parts@.map_values(|part: Vec<u8>| part@) == if *message is Binary {
            frames(split)
        } else {
            Seq::empty()
        },
{
    match (message, split) {
        (SocketMessage::Binary(_), Ok(parts)) => parts,
        _ => {
            let none: Vec<Vec<u8>> = Vec::new();
            assert(none@.map_values(|part: Vec<u8>| part@) =~= Seq::<Seq<u8>>::empty());
            none
        },
    }
}

/// Hub messages that came as text.
fn text_payloads(texts: Vec<String>) -> (delivered: Vec<MessagePayload>)
    ensures
        delivered@.map_values(|payload: MessagePayload| payload@) == texts.deep_view().map_values(
            |part: Seq<char>| PayloadView::Text(part),
        ),
{
    let mut delivered: Vec<MessagePayload> = Vec::new();
    let ghost all = texts@;
    for text in it: texts
        invariant
            it.seq() == all,
            delivered@.len() == it.index(),
            forall|i: int|
                0 <= i < delivered@.len() ==> (#[trigger] delivered@[i])@ == PayloadView::Text(
                    all[i]@,
                ),
    {
        delivered.push(MessagePayload::Text(text));
    }
    assert(delivered@.map_values(|payload: MessagePayload| payload@)
        =~= texts.deep_view().map_values(|part: Seq<char>| PayloadView::Text(part)));
    delivered
}

/// Hub messages that came as bytes.
fn binary_payloads(parts: Vec<Vec<u8>>) -> (delivered: Vec<MessagePayload>)
    ensures
        delivered@.map_values(|payload: MessagePayload| payload@) == parts@.map_values(
            |part: Vec<u8>| part@,
        ).map_values(|part: Seq<u8>| PayloadView::Binary(part)),
{
    let mut delivered: Vec<MessagePayload> = Vec::new();
    let ghost all = parts@;
    for part in it: parts
        invariant
            it.seq() == all,
            delivered@.len() == it.index(),
            forall|i: int|
                0 <= i < delivered@.len() ==> (#[trigger] delivered@[i])@ == PayloadView::Binary(
                    all[i]@,
                ),
    {
        delivered.push(MessagePayload::Binary(part));
    }
    assert(delivered@.map_values(|payload: MessagePayload| payload@) =~= parts@.map_values(
        |part: Vec<u8>| part@,
    ).map_values(|part: Seq<u8>| PayloadView::Binary(part)));
    delivered
}

/// What is to be done about an item of the stream. `split` is how the payload
/// of a binary message splits into frames. An error in place of a message is
/// passed over.
pub fn receive(
    protocol_kind: HubProtocolKind,
    item: StreamItem,
    split: Result<Vec<Vec<u8>>, String>,
) -> (step: ReceiverStep)
    ensures
        step@ == self::step(protocol_kind, item, split),
{
    match item {
        StreamItem::Ended => ReceiverStep::ConnectionDropped,
        StreamItem::Failed => {
            let none: Vec<MessagePayload> = Vec::new();
            assert(none@.map_values(|payload: MessagePayload| payload@) =~= Seq::<
                PayloadView,
            >::empty());
            ReceiverStep::Deliver(none)
        },
        StreamItem::Message(message) => {
            let delivered = match protocol_kind {
                HubProtocolKind::Json => text_payloads(get_text_messages(&message)),
                HubProtocolKind::MessagePack => binary_payloads(
                    get_binary_messages(&message, split),
                ),
            };
            assert(delivered@.map_values(|payload: MessagePayload| payload@) =~= payloads(
                protocol_kind,
                message,
                split,
            ));
            ReceiverStep::Deliver(delivered)
        },
    }
}

/// What is processed of a hub message, given its type: a message whose type
/// cannot be read is passed over.
pub fn to_process<T>(payload: MessagePayload, message_type: Result<T, String>) -> (message: Option<
    (MessagePayload, T),
>)
    ensures
        message == match message_type {
            Ok(kind) => Some((payload, kind)),
            Err(_) => None,
        },
{
    match message_type {
        Ok(kind) => Some((payload, kind)),
        Err(_) => None,
    }
}

/// What a hub sends arrives: hub messages that were framed into one text are
/// delivered by a connection that speaks JSON, all of them and in order.
pub proof fn framed_messages_are_delivered(
    messages: Seq<Seq<char>>,
    text: String,
    split: Result<Vec<Vec<u8>>, String>,
)
    requires
        forall|i: int|
            0 <= i < messages.len() ==> crate::framing::is_message(#[trigger] messages[i]),
        text@ == crate::framing::framed(messages),
    ensures
        payloads(HubProtocolKind::Json, SocketMessage::Text(text), split) == messages.map_values(
            |part: Seq<char>| PayloadView::Text(part),
        ),
{
    crate::framing::framed_messages_come_back(messages);
}

/// Messages of the other protocol's type and control messages deliver nothing.
pub proof fn foreign_messages_deliver_nothing(
    protocol_kind: HubProtocolKind,
    message: SocketMessage,
    split: Result<Vec<Vec<u8>>, String>,
)
    requires
        protocol_kind is Json ==> !(message is Text),
        protocol_kind is MessagePack ==> !(message is Binary),
    ensures
        payloads(protocol_kind, message, split).len() == 0,
{
}

/// What happens in the course of a stream.
pub enum ReceiverEvent {
    /// A hub message is processed.
    Delivered(PayloadView),
    /// Whoever handles the drop of the connection is told.
    DropTold,
}

/// The deliveries of hub messages.
pub open spec fn deliveries(messages: Seq<PayloadView>) -> Seq<ReceiverEvent> {
    messages.map_values(|message: PayloadView| ReceiverEvent::Delivered(message))
}

/// What happens in the course of a stream, whose items come with how their
/// payloads split: each item is dealt with as it arrives, until the connection
/// is gone.
pub open spec fn events(
    protocol_kind: HubProtocolKind,
    stream: Seq<(StreamItem, Result<Vec<Vec<u8>>, String>)>,
) -> Seq<ReceiverEvent>
    decreases stream.len(),
{
    if stream.len() == 0 {
        Seq::empty()
    } else {
        match step(protocol_kind, stream.first().0, stream.first().1) {
            StepView::Deliver(messages) => deliveries(messages) + events(
                protocol_kind,
                stream.drop_first(),
            ),
            StepView::ConnectionDropped => seq![ReceiverEvent::DropTold],
        }
    }
}

/// The hub messages that the items of a stream bring, one item after the other.
pub open spec fn all_brought(
    protocol_kind: HubProtocolKind,
    stream: Seq<(StreamItem, Result<Vec<Vec<u8>>, String>)>,
) -> Seq<PayloadView> {
    stream.map_values(
        |arrival: (StreamItem, Result<Vec<Vec<u8>>, String>)|
            brought(protocol_kind, arrival.0, arrival.1),
    ).flatten()
}

/// As long as a stream goes on, what happens is the delivery of every hub
/// message that its items bring, in the order of their arrival. Errors in
/// between cost none, and the drop is not told.
pub proof fn stream_is_delivered_in_order(
    protocol_kind: HubProtocolKind,
    stream: Seq<(StreamItem, Result<Vec<Vec<u8>>, String>)>,
)
    requires
        forall|i: int| 0 <= i < stream.len() ==> !((#[trigger] stream[i]).0 is Ended),
    ensures
        events(protocol_kind, stream) == deliveries(all_brought(protocol_kind, stream)),
    decreases stream.len(),
{
    lemma_first_brought(protocol_kind, stream);
    if stream.len() > 0 {
        assert(!(stream[0].0 is Ended));
        stream_is_delivered_in_order(protocol_kind, stream.drop_first());
        assert(deliveries(all_brought(protocol_kind, stream)) =~= deliveries(
            brought(protocol_kind, stream.first().0, stream.first().1),
        ) + deliveries(all_brought(protocol_kind, stream.drop_first())));
    }
}

/// The drop of the connection is told once, when the stream ends and everything
/// before was delivered. Nothing happens after that, whatever else would come.
pub proof fn drop_is_told_once_at_the_end(
    protocol_kind: HubProtocolKind,
    before: Seq<(StreamItem, Result<Vec<Vec<u8>>, String>)>,
    split: Result<Vec<Vec<u8>>, String>,
    after: Seq<(StreamItem, Result<Vec<Vec<u8>>, String>)>,
)
    requires
        forall|i: int| 0 <= i < before.len() ==> !((#[trigger] before[i]).0 is Ended),
    ensures
        events(protocol_kind, before.push((StreamItem::Ended, split)) + after) == deliveries(
            all_brought(protocol_kind, before),
        ).push(ReceiverEvent::DropTold),
    decreases before.len(),
{
    let stream = before.push((StreamItem::Ended, split)) + after;
    lemma_first_brought(protocol_kind, before);
    if before.len() > 0 {
        assert(!(before[0].0 is Ended));
        drop_is_told_once_at_the_end(protocol_kind, before.drop_first(), split, after);
        assert(stream.drop_first() =~= before.drop_first().push((StreamItem::Ended, split))
            + after);
        assert(stream.first() == before.first());
        assert(events(protocol_kind, stream) =~= deliveries(
            all_brought(protocol_kind, before),
        ).push(ReceiverEvent::DropTold));
    } else {
        assert(stream.first() == (StreamItem::Ended, split));
        assert(deliveries(all_brought(protocol_kind, before)).push(ReceiverEvent::DropTold)
            =~= seq![ReceiverEvent::DropTold]);
    }
}

/// What a stream brings is what its first item brings, then what the others do.
proof fn lemma_first_brought(
    protocol_kind: HubProtocolKind,
    stream: Seq<(StreamItem, Result<Vec<Vec<u8>>, String>)>,
)
    ensures
        all_brought(protocol_kind, stream) == if stream.len() == 0 {
            Seq::empty()
        } else {
            brought(protocol_kind, stream.first().0, stream.first().1) + all_brought(
                protocol_kind,
                stream.drop_first(),
            )
        },
{
    let each = |arrival: (StreamItem, Result<Vec<Vec<u8>>, String>)|
        brought(protocol_kind, arrival.0, arrival.1);
    if stream.len() > 0 {
        assert(stream.map_values(each).drop_first() =~= stream.drop_first().map_values(each));
    }
}

/// Where a connection speaks MessagePack, every frame in the payload of a
/// binary message is delivered, in order, and nothing else is. A payload that
/// does not split brings nothing.
pub proof fn messagepack_delivers_every_frame(
    data: Vec<u8>,
    split: Result<Vec<Vec<u8>>, String>,
    step: ReceiverStep,
)
    requires
        call_ensures(
            receive,
            (
                HubProtocolKind::MessagePack,
                StreamItem::Message(SocketMessage::Binary(data)),
                split,
            ),
            step,
        ),
    ensures
        step matches ReceiverStep::Deliver(messages) && match split {
            Ok(parts) => messages@.len() == parts@.len() && forall|i: int|
                0 <= i < parts@.len() ==> (#[trigger] messages@[i] matches MessagePayload::Binary(
                    frame,
                ) && frame@ == parts@[i]@),
            Err(_) => messages@.len() == 0,
        },
{
    if let ReceiverStep::Deliver(messages) = step {
        let seen = messages@.map_values(|payload: MessagePayload| payload@);
        assert(seen.len() == messages@.len());
        assert forall|i: int| 0 <= i < messages@.len() implies (
        #[trigger] messages@[i])@ == seen[i] by {}
        if let Ok(parts) = split {
            assert forall|i: int| 0 <= i < parts@.len() implies (
            #[trigger] messages@[i] matches MessagePayload::Binary(frame) && frame@
                == parts@[i]@) by {
                assert(seen[i] == PayloadView::Binary(parts@[i]@));
            }
        }
    }
}

/// Where a connection speaks JSON, every hub message in a text message is
/// delivered, in order, and nothing else is. How the payload of a binary
/// message would split has no say in it.
pub proof fn json_delivers_every_message(
    text: String,
    read: &str,
    split: Result<Vec<Vec<u8>>, String>,
    texts: Vec<String>,
    step: ReceiverStep,
)
    requires
        read@ == text@,
        call_ensures(split_text, (read,), texts),
        call_ensures(
            receive,
            (HubProtocolKind::Json, StreamItem::Message(SocketMessage::Text(text)), split),
            step,
        ),
    ensures
        step matches ReceiverStep::Deliver(messages) && messages@.len() == texts@.len() && forall|
            i: int,
        |
            0 <= i < texts@.len() ==> (#[trigger] messages@[i] matches MessagePayload::Text(content)
                && content@ == texts@[i]@),
{
    if let ReceiverStep::Deliver(messages) = step {
        let seen = messages@.map_values(|payload: MessagePayload| payload@);
        assert(seen.len() == messages@.len());
        assert(texts.deep_view().len() == texts@.len());
        assert forall|i: int| 0 <= i < texts@.len() implies (
        #[trigger] messages@[i] matches MessagePayload::Text(content) && content@
            == texts@[i]@) by {
            assert(seen[i] == messages@[i]@);
            assert(seen[i] == PayloadView::Text(texts.deep_view()[i]));
            assert(texts.deep_view()[i] == texts@[i]@);
        }
    }
}

/// The hub messages of a text message are those of its text, and no other
/// message has any.
pub proof fn texts_are_taken_as_they_split(
    message: SocketMessage,
    read: &str,
    texts: Vec<String>,
    messages: Vec<String>,
)
    requires
        message matches SocketMessage::Text(text) ==> read@ == text@,
        call_ensures(split_text, (read,), texts),
        call_ensures(get_text_messages, (&message,), messages),
    ensures
        message is Text ==> messages.deep_view() == texts.deep_view(),
        !(message is Text) ==> messages@.len() == 0,
{
    assert(messages.deep_view().len() == messages@.len());
}

/// Nothing but the end of a stream drops the connection: an error in place of a
/// message, a control message and a message of the other protocol's type
/// deliver nothing, and receiving goes on.
pub proof fn only_the_end_drops_the_connection(
    protocol_kind: HubProtocolKind,
    item: StreamItem,
    split: Result<Vec<Vec<u8>>, String>,
    step: ReceiverStep,
)
    requires
        call_ensures(receive, (protocol_kind, item, split), step),
    ensures
        step is ConnectionDropped <==> item is Ended,
        match item {
            StreamItem::Ended => true,
            StreamItem::Failed => step matches ReceiverStep::Deliver(messages) && messages@.len()
                == 0,
            StreamItem::Message(message) => (message is Control || (message is Binary
                && protocol_kind is Json) || (message is Text && protocol_kind is MessagePack))
                ==> (step matches ReceiverStep::Deliver(messages) && messages@.len() == 0),
        },
{
    if let ReceiverStep::Deliver(messages) = step {
        assert(messages@.map_values(|payload: MessagePayload| payload@).len() == messages@.len());
    }
}

/// The frames of a binary message are those that its payload splits into, and
/// no other message has any.
pub proof fn frames_are_taken_as_they_split(
    message: SocketMessage,
    split: Result<Vec<Vec<u8>>, String>,
    parts: Vec<Vec<u8>>,
)
    requires
        call_ensures(get_binary_messages, (&message, split), parts),
    ensures
        match (message, split) {
            (SocketMessage::Binary(_), Ok(all)) => parts@.len() == all@.len() && forall|i: int|
                0 <= i < all@.len() ==> (#[trigger] parts@[i])@ == all@[i]@,
            _ => parts@.len() == 0,
        },
{
    let seen = parts@.map_values(|part: Vec<u8>| part@);
    assert(seen.len() == parts@.len());
    if let (SocketMessage::Binary(_), Ok(all)) = (message, split) {
        assert(seen == all@.map_values(|part: Vec<u8>| part@));
        assert forall|i: int| 0 <= i < all@.len() implies (#[trigger] parts@[i])@ == all@[i]@ by {
            assert(seen[i] == parts@[i]@);
        }
    }
}

/// A hub message whose type can be read is processed as that type and as it
/// came; one whose type cannot be read is not processed.
pub proof fn typed_messages_are_processed<T>(
    payload: MessagePayload,
    message_type: Result<T, String>,
    message: Option<(MessagePayload, T)>,
)
    requires
        call_ensures(to_process::<T>, (payload, message_type), message),
    ensures
        message_type is Ok <==> message is Some,
        message matches Some((processed, kind)) ==> processed == payload && Ok::<T, String>(kind)
            == message_type,
{
}

/// What is sent as JSON goes out as a text, what is sent as bytes as a binary
/// message, each whole and unchanged.
pub proof fn sent_messages_are_unchanged(
    json: String,
    data: Vec<u8>,
    text: SocketMessage,
    binary: SocketMessage,
)
    requires
        call_ensures(text_message, (json,), text),
        call_ensures(binary_message, (data,), binary),
    ensures
        text matches SocketMessage::Text(content) && content@ == json@,
        binary matches SocketMessage::Binary(content) && content@ == data@,
{
}

} // verus!
