//! The text frames exchanged with a client.
//!
//! A client sends one JSON object per navigation request,
//! `{"presentation_id": 7, "question_index": 0, "direction": "Forward"}`,
//! and every viewer is sent `{"new_question_index": 1}` in return. Members
//! the protocol does not know are ignored. `presentation_id` may be left out
//! on a connection that is bound to one presentation.
//!
//! The JSON itself is read and written by the functions of [`crate::json`];
//! this module decides what the members of a document mean.

use crate::json::{decimal_digits, json_members, number_text, read_members, Member};
use crate::navigation::{Direction, NavigateEventRequest, NavigateEventResponse};
use vstd::prelude::*;
use vstd::string::*;

verus! {

/// Why a request was not answered. Each is reported to the client that sent
/// the request and to nobody else; none of them ends the connection.
#[derive(Clone, Copy, Debug, PartialEq, Eq, Structural)]
pub enum ProtocolError {
    /// The frame is not a JSON document.
    Malformed,
    /// `presentation_id` is not an integer that fits 32 bits, or is missing
    /// on a connection that is bound to no presentation.
    PresentationId,
    /// `question_index` is missing or not an unsigned integer that fits the
    /// machine's index type.
    QuestionIndex,
    /// `direction` is missing or neither `"Forward"` nor `"Backward"`.
    Direction,
    /// The presentation named by the request does not exist.
    PresentationNotFound,
    /// The questions of the presentation could not be read.
    StorageUnavailable,
}

/// The presentation a request addresses: the one its frame names, else the
/// one its connection is bound to.
pub open spec fn presentation_of(named: Member<i64>, scope: Option<i32>) -> Option<i32> {
    match named {
        Some(Some(id)) => if i32::MIN <= id <= i32::MAX {
            Some(id as i32)
        } else {
            None
        },
        Some(None) => None,
        None => scope,
    }
}

/// The question index a frame claims.
pub open spec fn question_index_of(claimed: Member<u64>) -> Option<usize> {
    match claimed {
        Some(Some(index)) => if index <= usize::MAX {
            Some(index as usize)
        } else {
            None
        },
        _ => None,
    }
}

/// The direction a frame asks for.
pub open spec fn direction_of(word: Member<Seq<char>>) -> Option<Direction> {
    match word {
        Some(Some(text)) => if text == "Forward"@ {
            Some(Direction::Forward)
        } else if text == "Backward"@ {
            Some(Direction::Backward)
        } else {
            None
        },
        _ => None,
    }
}

/// The request made of the three members of a frame, or the first of them
/// that is wrong, in the order presentation, index, direction.
pub open spec fn request_of(
    named: Member<i64>,
    scope: Option<i32>,
    claimed: Member<u64>,
    word: Member<Seq<char>>,
) -> Result<NavigateEventRequest, ProtocolError> {
    match presentation_of(named, scope) {
        None => Err(ProtocolError::PresentationId),
        Some(presentation_id) => match question_index_of(claimed) {
            None => Err(ProtocolError::QuestionIndex),
            Some(question_index) => match direction_of(word) {
                None => Err(ProtocolError::Direction),
                Some(direction) => Ok(
                    NavigateEventRequest { presentation_id, question_index, direction },
                ),
            },
        },
    }
}

/// The request a text frame holds.
pub open spec fn decoded_request(text: Seq<char>, scope: Option<i32>) -> Result<
    NavigateEventRequest,
    ProtocolError,
> {
    match json_members(text, "presentation_id"@, "question_index"@, "direction"@) {
        None => Err(ProtocolError::Malformed),
        Some(members) => request_of(members.0, scope, members.1, members.2),
    }
}

impl ProtocolError {
    /// What the client is told of the error, in words.
    pub open spec fn message_of(self) -> Seq<char> {
        match self {
            ProtocolError::Malformed => "the frame is not valid JSON"@,
            ProtocolError::PresentationId => "presentation_id is missing or not a 32-bit integer"@,
            ProtocolError::QuestionIndex => "question_index is missing or not an unsigned integer"@,
            ProtocolError::Direction => "direction is missing or neither Forward nor Backward"@,
            ProtocolError::PresentationNotFound => "there is no such presentation"@,
            ProtocolError::StorageUnavailable => "the questions could not be read"@,
        }
    }

    /// The text of the frame that reports the error to the client.
    pub open spec fn encoded(self) -> Seq<char> {
        "{\"error\":\""@ + self.message_of() + "\"}"@
    }

    /// What the client is told of the error, in words.
    pub fn message(&self) -> (text: &'static str)
        ensures
            text@ == self.message_of(),
    {
        match self {
            ProtocolError::Malformed => "the frame is not valid JSON",
            ProtocolError::PresentationId => "presentation_id is missing or not a 32-bit integer",
            ProtocolError::QuestionIndex => "question_index is missing or not an unsigned integer",
            ProtocolError::Direction => "direction is missing or neither Forward nor Backward",
            ProtocolError::PresentationNotFound => "there is no such presentation",
            ProtocolError::StorageUnavailable => "the questions could not be read",
        }
    }

    /// Encodes the error as the text of an outbound frame: a JSON object
    /// with the one member `error`.
    pub fn to_json(&self) -> (text: String)
        ensures
            text@ == self.encoded(),
    {
        let mut text = "{\"error\":\"".to_owned();
        text.append(self.message());
        text.append("\"}");
        text
    }
}

/// The text of the frame that carries `response`.
pub open spec fn encoded_response(response: NavigateEventResponse) -> Seq<char> {
    "{\"new_question_index\":"@ + decimal_digits(response.new_question_index as nat) + "}"@
}

/// Whether two strings hold the same characters.
fn same_text(left: &str, right: &str) -> (same: bool)
    ensures
        same == (left@ == right@),
{
    let a = left.to_owned();
    let b = right.to_owned();
    a == b
}

/// Builds a request from the members of a frame once they have been read.
pub fn request_from_members(
    named: Member<i64>,
    scope: Option<i32>,
    claimed: Member<u64>,
    word: Member<&str>,
) -> (r: Result<NavigateEventRequest, ProtocolError>)
    ensures
        r == request_of(
            named,
            scope,
            claimed,
            match word {
                Some(Some(text)) => Some(Some(text@)),
                Some(None) => Some(None),
                None => None,
            },
        ),
{
    let presentation_id: i32 = match named {
        Some(Some(id)) => {
            if id < i32::MIN as i64 || id > i32::MAX as i64 {
                return Err(ProtocolError::PresentationId);
            }
            id as i32
        },
        Some(None) => {
            return Err(ProtocolError::PresentationId);
        },
        None => match scope {
            Some(id) => id,
            None => {
                return Err(ProtocolError::PresentationId);
            },
        },
    };
    let question_index: usize = match claimed {
        Some(Some(index)) => {
            if index > usize::MAX as u64 {
                return Err(ProtocolError::QuestionIndex);
            }
            index as usize
        },
        _ => {
            return Err(ProtocolError::QuestionIndex);
        },
    };
    let direction = match word {
        Some(Some(text)) => {
            if same_text(text, "Forward") {
                Direction::Forward
            } else if same_text(text, "Backward") {
                Direction::Backward
            } else {
                return Err(ProtocolError::Direction);
            }
        },
        _ => {
            return Err(ProtocolError::Direction);
        },
    };
    Ok(NavigateEventRequest { presentation_id, question_index, direction })
}

impl NavigateEventRequest {
    /// Decodes the text frame `data`. `scope` is the presentation the
    /// connection is bound to, if any; it stands in where the frame names
    /// none.
    pub fn parse_request(data: &str, scope: Option<i32>) -> (r: Result<Self, ProtocolError>)
        ensures
            r == decoded_request(data@, scope),
    {
        match read_members(data, "presentation_id", "question_index", "direction") {
            Some(members) => {
                let word: Member<&str> = match &members.2 {
                    Some(Some(held)) => Some(Some(held.as_str())),
                    Some(None) => Some(None),
                    None => None,
                };
                request_from_members(members.0, scope, members.1, word)
            },
            None => Err(ProtocolError::Malformed),
        }
    }
}

impl NavigateEventResponse {
    /// Encodes the response as the text of an outbound frame.
    pub fn to_json(&self) -> (text: String)
        ensures
            text@ == encoded_response(*self),
    {
        let mut text = "{\"new_question_index\":".to_owned();
        let digits = number_text(self.new_question_index as u64);
        text.append(digits.as_str());
        text.append("}");
        text
    }
}

} // verus!
