use birdy_bot::events::{classify, IncomingEvent};

#[test]
fn frame_without_type_field_is_malformed() {
    let ev = classify(&br#"{"channel":"c1","content":"hi"}"#.to_vec());
    assert!(matches!(ev, IncomingEvent::Malformed));
}

#[test]
fn unparsable_frame_is_malformed() {
    let ev = classify(&b"{not json".to_vec());
    assert!(matches!(ev, IncomingEvent::Malformed));
}

#[test]
fn unknown_type_is_malformed() {
    let ev = classify(&br#"{"type":"Surprise"}"#.to_vec());
    assert!(matches!(ev, IncomingEvent::Malformed));
}

#[test]
fn non_string_type_is_malformed() {
    let ev = classify(&br#"{"type":7}"#.to_vec());
    assert!(matches!(ev, IncomingEvent::Malformed));
}

#[test]
fn pong_frame_is_a_liveness_reply() {
    let ev = classify(&br#"{"type":"Pong"}"#.to_vec());
    assert!(matches!(ev, IncomingEvent::LivenessPong));
}

#[test]
fn authenticated_frame_is_recognized() {
    let ev = classify(&br#"{"type":"Authenticated"}"#.to_vec());
    assert!(matches!(ev, IncomingEvent::Authenticated));
}

#[test]
fn message_frame_carries_its_fields() {
    let ev = classify(
        &br#"{"type":"Message","channel":"c1","content":"!help","_id":"m9","author":"u7"}"#
            .to_vec(),
    );
    match ev {
        IncomingEvent::MessageCreated { id, channel, author, content } => {
            assert_eq!(id.as_slice(), b"m9");
            assert_eq!(channel.as_slice(), b"c1");
            assert_eq!(author.as_slice(), b"u7");
            assert_eq!(content.as_slice(), b"!help");
        }
        _ => panic!("expected a message event"),
    }
}

#[test]
fn message_without_channel_is_malformed() {
    let ev = classify(&br#"{"type":"Message","content":"hi"}"#.to_vec());
    assert!(matches!(ev, IncomingEvent::Malformed));
}

#[test]
fn message_optional_fields_default_to_empty() {
    let ev = classify(&br#"{"type":"Message","channel":"c1"}"#.to_vec());
    match ev {
        IncomingEvent::MessageCreated { id, channel, author, content } => {
            assert_eq!(channel.as_slice(), b"c1");
            assert!(id.is_empty());
            assert!(author.is_empty());
            assert!(content.is_empty());
        }
        _ => panic!("expected a message event"),
    }
}
