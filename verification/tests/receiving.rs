use signalr_communication::framing::{split_text, RECORD_SEPARATOR};
use signalr_communication::protocol::HubProtocolKind;
use signalr_communication::receive::{
    binary_message, get_binary_messages, get_text_messages, receive, text_message, to_process,
    MessagePayload, ReceiverStep, SocketMessage, StreamItem,
};
use signalr_communication::text::{chars_of, find_char, has_text, same_text};

fn text(content: &str) -> SocketMessage {
    SocketMessage::Text(content.to_string())
}

fn no_split() -> Result<Vec<Vec<u8>>, String> {
    Ok(Vec::new())
}

fn delivered(step: ReceiverStep) -> Vec<MessagePayload> {
    match step {
        ReceiverStep::Deliver(messages) => messages,
        ReceiverStep::ConnectionDropped => panic!("dropped"),
    }
}

#[test]
fn text_splits_at_separators() {
    assert_eq!(RECORD_SEPARATOR, '\u{1e}');
    assert_eq!(split_text("{\"type\":6}\u{1e}"), vec!["{\"type\":6}"]);
    assert_eq!(split_text("a\u{1e}b\u{1e}"), vec!["a", "b"]);
    assert_eq!(split_text("a\u{1e}b"), vec!["a", "b"]);
}

#[test]
fn empty_stretches_are_no_messages() {
    assert!(split_text("").is_empty());
    assert!(split_text("\u{1e}\u{1e}").is_empty());
    assert_eq!(split_text("\u{1e}a\u{1e}\u{1e}b\u{1e}"), vec!["a", "b"]);
}

#[test]
fn messages_keep_their_characters() {
    assert_eq!(split_text(" \u{e9}\u{1f600} \u{1e}"), vec![" \u{e9}\u{1f600} "]);
}

#[test]
fn framed_messages_come_out_again() {
    let messages = vec!["{}", "{\"type\":1}", "x"];
    let mut framed = String::new();
    for message in &messages {
        framed.push_str(message);
        framed.push(RECORD_SEPARATOR);
    }
    assert_eq!(split_text(&framed), messages);
}

#[test]
fn only_text_messages_hold_text() {
    assert_eq!(get_text_messages(&text("a\u{1e}")), vec!["a"]);
    assert!(get_text_messages(&SocketMessage::Binary(b"a\x1e".to_vec())).is_empty());
    assert!(get_text_messages(&SocketMessage::Control).is_empty());
}

#[test]
fn only_binary_messages_hold_frames() {
    let split = || Ok(vec![vec![1u8, 2], vec![3]]);
    let binary = SocketMessage::Binary(vec![2, 1, 2, 1, 3]);
    assert_eq!(get_binary_messages(&binary, split()), vec![vec![1u8, 2], vec![3]]);
    assert!(get_binary_messages(&binary, Err("truncated".to_string())).is_empty());
    assert!(get_binary_messages(&text("a"), split()).is_empty());
    assert!(get_binary_messages(&SocketMessage::Control, split()).is_empty());
}

#[test]
fn json_delivers_text() {
    let item = StreamItem::Message(text("a\u{1e}b\u{1e}"));
    let messages = delivered(receive(HubProtocolKind::Json, item, no_split()));
    assert_eq!(messages.len(), 2);
    assert!(matches!(&messages[0], MessagePayload::Text(t) if t == "a"));
    assert!(matches!(&messages[1], MessagePayload::Text(t) if t == "b"));
}

#[test]
fn messagepack_delivers_frames() {
    let item = StreamItem::Message(SocketMessage::Binary(vec![1, 9]));
    let messages = delivered(receive(HubProtocolKind::MessagePack, item, Ok(vec![vec![9]])));
    assert_eq!(messages.len(), 1);
    assert!(matches!(&messages[0], MessagePayload::Binary(b) if *b == vec![9u8]));
}

#[test]
fn foreign_messages_are_passed_over() {
    let binary = StreamItem::Message(SocketMessage::Binary(vec![1, 9]));
    assert!(delivered(receive(HubProtocolKind::Json, binary, Ok(vec![vec![9]]))).is_empty());
    let item = StreamItem::Message(text("a\u{1e}"));
    assert!(delivered(receive(HubProtocolKind::MessagePack, item, no_split())).is_empty());
    let control = StreamItem::Message(SocketMessage::Control);
    assert!(delivered(receive(HubProtocolKind::Json, control, no_split())).is_empty());
}

#[test]
fn errors_are_passed_over_and_the_end_is_not() {
    assert!(delivered(receive(HubProtocolKind::Json, StreamItem::Failed, no_split())).is_empty());
    let end = receive(HubProtocolKind::Json, StreamItem::Ended, no_split());
    assert!(matches!(end, ReceiverStep::ConnectionDropped));
}

#[test]
fn streams_are_delivered_in_order_until_they_end() {
    let stream = vec![
        StreamItem::Message(text("a\u{1e}b\u{1e}")),
        StreamItem::Failed,
        StreamItem::Message(SocketMessage::Control),
        StreamItem::Message(text("c\u{1e}")),
        StreamItem::Ended,
        StreamItem::Message(text("d\u{1e}")),
        StreamItem::Ended,
    ];
    let mut log: Vec<String> = Vec::new();
    for item in stream {
        match receive(HubProtocolKind::Json, item, no_split()) {
            ReceiverStep::Deliver(messages) => {
                for message in messages {
                    match message {
                        MessagePayload::Text(content) => log.push(content),
                        MessagePayload::Binary(_) => panic!("binary"),
                    }
                }
            }
            ReceiverStep::ConnectionDropped => {
                log.push("dropped".to_string());
                break;
            }
        }
    }
    assert_eq!(log, vec!["a", "b", "c", "dropped"]);
}

#[test]
fn messages_that_are_sent() {
    assert!(matches!(text_message("{}".to_string()), SocketMessage::Text(t) if t == "{}"));
    assert!(matches!(binary_message(vec![1, 2]), SocketMessage::Binary(b) if b == vec![1u8, 2]));
}

#[test]
fn messages_of_unknown_type_are_not_processed() {
    let known = to_process(MessagePayload::Text("a".to_string()), Ok(6u8));
    assert!(matches!(known, Some((MessagePayload::Text(t), 6)) if t == "a"));
    let unknown: Option<(MessagePayload, u8)> =
        to_process(MessagePayload::Text("a".to_string()), Err("no type".to_string()));
    assert!(unknown.is_none());
}

#[test]
fn character_search() {
    assert_eq!(chars_of("a\u{e9}"), vec!['a', '\u{e9}']);
    assert_eq!(find_char("\u{e9}?a?", '?'), Some(1));
    assert_eq!(find_char("a", '?'), None);
    assert!(same_text("wss", "wss"));
    assert!(!same_text("wss", "ws"));
    assert!(!same_text("wss", "WSS"));
}

#[test]
fn text_search() {
    assert!(has_text("Client was locally disconnected", "locally disconnected"));
    assert!(has_text("abc", ""));
    assert!(has_text("", ""));
    assert!(has_text("aab", "ab"));
    assert!(!has_text("ab", "abc"));
    assert!(!has_text("locally  disconnected", "locally disconnected"));
}
