//! Decoding of raw gateway frames into typed events. A frame that does not
//! parse, lacks its type field, or lacks a required field of its type is
//! classified malformed and never stops the loop.

use vstd::prelude::*;
use crate::json::{json_str_field, json_field};
use crate::text::{frame_pong, frame_message, frame_authenticated, frame_pong_vec,
    frame_message_vec, frame_authenticated_vec};
use crate::bytes::eq_bytes;

verus! {

/// A typed inbound event.
pub enum IncomingEvent {
    /// The gateway acknowledged the credential.
    Authenticated,
    /// The gateway answered the liveness probe.
    LivenessPong,
    /// A chat message was created.
    MessageCreated { id: Vec<u8>, channel: Vec<u8>, author: Vec<u8>, content: Vec<u8> },
    /// Anything unreadable or unrecognized.
    Malformed,
}

/// The field value, or empty when absent: how the optional fields of a
/// message frame default.
pub open spec fn or_empty(o: Option<Seq<u8>>) -> Seq<u8> {
    match o {
        Some(s) => s,
        None => Seq::empty(),
    }
}

/// What kind of frame some bytes are, at the specification level.
pub enum FrameClass {
    FAuthenticated,
    FPong,
    FMessage { channel: Seq<u8>, content: Seq<u8> },
    FMalformed,
}

/// The class of a frame: read its type field; a missing or non-string type,
/// an unknown type, or a message without a channel is malformed, and a
/// message's content defaults to empty.
pub open spec fn frame_class(frame: Seq<u8>) -> FrameClass {
    match json_str_field(frame, "type"@) {
        None => FrameClass::FMalformed,
        Some(t) => if t == frame_pong() {
            FrameClass::FPong
        } else if t == frame_authenticated() {
            FrameClass::FAuthenticated
        } else if t == frame_message() {
            match json_str_field(frame, "channel"@) {
                None => FrameClass::FMalformed,
                Some(ch) => FrameClass::FMessage {
                    channel: ch,
                    content: or_empty(json_str_field(frame, "content"@)),
                },
            }
        } else {
            FrameClass::FMalformed
        },
    }
}

/// Whether `ev` is the event the frame denotes: the typed form of
/// [`frame_class`], with a message's id and author also read, defaulting to
/// empty.
pub open spec fn classify_ok(frame: Seq<u8>, ev: IncomingEvent) -> bool {
    match frame_class(frame) {
        FrameClass::FMalformed => ev is Malformed,
        FrameClass::FPong => ev is LivenessPong,
        FrameClass::FAuthenticated => ev is Authenticated,
        FrameClass::FMessage { channel: ch, content: ct } => ev matches
            IncomingEvent::MessageCreated {
            id,
            channel,
            author,
            content,
        } && channel@ == ch && content@ == ct && id@ == or_empty(json_str_field(frame, "_id"@))
            && author@ == or_empty(json_str_field(frame, "author"@)),
    }
}

/// Classifies one raw frame.
pub fn classify(frame: &Vec<u8>) -> (ev: IncomingEvent)
    ensures
        classify_ok(frame@, ev),
{
    match json_field(frame, "type") {
        None => IncomingEvent::Malformed,
        Some(t) => {
            if eq_bytes(&t, &frame_pong_vec()) {
                IncomingEvent::LivenessPong
            } else if eq_bytes(&t, &frame_authenticated_vec()) {
                IncomingEvent::Authenticated
            } else if eq_bytes(&t, &frame_message_vec()) {
                match json_field(frame, "channel") {
                    None => IncomingEvent::Malformed,
                    Some(channel) => {
                        let content = match json_field(frame, "content") {
                            Some(c) => c,
                            None => Vec::new(),
                        };
                        let id = match json_field(frame, "_id") {
                            Some(v) => v,
                            None => Vec::new(),
                        };
                        let author = match json_field(frame, "author") {
                            Some(a) => a,
                            None => Vec::new(),
                        };
                        IncomingEvent::MessageCreated { id, channel, author, content }
                    },
                }
            } else {
                IncomingEvent::Malformed
            }
        },
    }
}

} // verus!
