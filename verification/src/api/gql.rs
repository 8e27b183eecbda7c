//! The stream of state changes, message by message.
use vstd::prelude::*;
use vstd::string::*;
use crate::api::indexes::IndexStatusUpdateBody;
use crate::error::{Error, ErrorKind};
use crate::fsm::frame_texts;
use crate::text::{parse_decimal, read_i32, refusal_of};

verus! {

/// What a message with too few frames is refused with.
pub open spec fn too_few_frames() -> Seq<char> {
    "Just one item in a multipart message. That is plain wrong!"@
}

/// The key that the frame `frame` writes, if it writes one.
pub open spec fn key_of_frame(frame: Seq<char>) -> Option<int> {
    match parse_decimal(frame) {
        Some(v) => if i32::MIN <= v <= i32::MAX {
            Some(v)
        } else {
            None
        },
        None => None,
    }
}

/// Why the frame `frame` writes no key, in words, if it writes none.
pub open spec fn cause_of(frame: Seq<char>) -> Option<Seq<char>> {
    match refusal_of(frame, true, i32::MIN as int, i32::MAX as int) {
        Some(cause) => Some(cause.words()),
        None => None,
    }
}

/// Whether a message of these frames can be passed on as a state change:
/// it has the frame of the key, that frame writes a key, and the frame of
/// the status is there too.
pub open spec fn is_notification(frames: Seq<Seq<char>>) -> bool {
    frames.len() >= 3 && key_of_frame(frames[1]) is Some
}

/// The kind of error that a message which is no notification is refused
/// with: a message without the frame of the key is plain wrong; so is one
/// whose key is in order but whose status is missing; a key that is no
/// number is an integer error, whose cause says why it is none.
pub open spec fn refusal(frames: Seq<Seq<char>>) -> ErrorKind {
    if frames.len() < 2 {
        ErrorKind::Misc
    } else if key_of_frame(frames[1]) is None {
        ErrorKind::ParseInt
    } else {
        ErrorKind::Misc
    }
}

/// Reads a message of the bus as a state change of an index.
///
/// The message is made of the topic, the index's key in decimal and the
/// status. The status is passed on as it came, whether or not it is the
/// JSON of a state.
pub fn notification(frames: &Vec<String>) -> (r: Result<IndexStatusUpdateBody, Error>)
    ensures
        match r {
            Ok(body) => {
                &&& is_notification(frame_texts(frames@))
                &&& Some(body.id as int) == key_of_frame(frames@[1]@)
                &&& body.status@ == frames@[2]@
            },
            Err(e) => {
                &&& !is_notification(frame_texts(frames@))
                &&& e@.kind == refusal(frame_texts(frames@))
                &&& e@.kind == ErrorKind::Misc ==> e@.details == too_few_frames()
                &&& e@.kind == ErrorKind::ParseInt ==> e@.details == "Could not get id"@
                    && Some(e@.source) == cause_of(frames@[1]@)
            },
        },
{
    if frames.len() < 2 {
        return Err(
            Error::MiscError {
                details: String::from_str(
                    "Just one item in a multipart message. That is plain wrong!",
                ),
            },
        );
    }
    let id = match read_i32(frames[1].as_str()) {
        Ok(id) => id,
        Err(cause) => {
            return Err(
                Error::ParseIntError {
                    details: String::from_str("Could not get id"),
                    source: String::from_str(cause.message()),
                },
            );
        },
    };
    if frames.len() < 3 {
        return Err(
            Error::MiscError {
                details: String::from_str(
                    "Just one item in a multipart message. That is plain wrong!",
                ),
            },
        );
    }
    Ok(IndexStatusUpdateBody { id, status: frames[2].clone() })
}

} // verus!
