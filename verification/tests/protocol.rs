use questionnaire_rs::navigation::{Direction, NavigateEventRequest, NavigateEventResponse};
use questionnaire_rs::protocol::{request_from_members, ProtocolError};

fn decode(text: &str) -> Result<NavigateEventRequest, ProtocolError> {
    NavigateEventRequest::parse_request(text, None)
}

#[test]
fn decodes_a_full_request() {
    let text = r#"{"presentation_id": 7, "question_index": 2, "direction": "Backward"}"#;
    assert_eq!(
        decode(text),
        Ok(NavigateEventRequest { presentation_id: 7, question_index: 2, direction: Direction::Backward })
    );
}

#[test]
fn decodes_forward() {
    let text = r#"{"presentation_id":-3,"question_index":0,"direction":"Forward"}"#;
    assert_eq!(
        decode(text),
        Ok(NavigateEventRequest { presentation_id: -3, question_index: 0, direction: Direction::Forward })
    );
}

#[test]
fn unknown_members_are_ignored() {
    let text = r#"{"event":"Navigate","presentation_id":1,"question_index":4,"direction":"Forward","x":[1,2]}"#;
    assert_eq!(
        decode(text),
        Ok(NavigateEventRequest { presentation_id: 1, question_index: 4, direction: Direction::Forward })
    );
}

#[test]
fn scope_stands_in_for_a_missing_presentation() {
    let text = r#"{"question_index":0,"direction":"Forward"}"#;
    assert_eq!(
        NavigateEventRequest::parse_request(text, Some(12)),
        Ok(NavigateEventRequest { presentation_id: 12, question_index: 0, direction: Direction::Forward })
    );
    assert_eq!(decode(text), Err(ProtocolError::PresentationId));
}

#[test]
fn named_presentation_wins_over_scope() {
    let text = r#"{"presentation_id":5,"question_index":0,"direction":"Forward"}"#;
    assert_eq!(
        NavigateEventRequest::parse_request(text, Some(12)).map(|request| request.presentation_id),
        Ok(5)
    );
}

#[test]
fn malformed_text_is_rejected() {
    assert_eq!(decode(""), Err(ProtocolError::Malformed));
    assert_eq!(decode("not json"), Err(ProtocolError::Malformed));
    assert_eq!(decode(r#"{"presentation_id":1"#), Err(ProtocolError::Malformed));
    assert_eq!(decode(r#"{"presentation_id":1} trailing"#), Err(ProtocolError::Malformed));
}

#[test]
fn bad_presentation_id_is_rejected() {
    assert_eq!(
        decode(r#"{"presentation_id":"7","question_index":0,"direction":"Forward"}"#),
        Err(ProtocolError::PresentationId)
    );
    assert_eq!(
        decode(r#"{"presentation_id":2147483648,"question_index":0,"direction":"Forward"}"#),
        Err(ProtocolError::PresentationId)
    );
    assert_eq!(
        decode(r#"{"presentation_id":1.5,"question_index":0,"direction":"Forward"}"#),
        Err(ProtocolError::PresentationId)
    );
    assert_eq!(
        NavigateEventRequest::parse_request(
            r#"{"presentation_id":null,"question_index":0,"direction":"Forward"}"#,
            Some(3)
        ),
        Err(ProtocolError::PresentationId)
    );
}

#[test]
fn presentation_id_limits_are_accepted() {
    assert_eq!(
        decode(r#"{"presentation_id":2147483647,"question_index":0,"direction":"Forward"}"#)
            .map(|request| request.presentation_id),
        Ok(i32::MAX)
    );
    assert_eq!(
        decode(r#"{"presentation_id":-2147483648,"question_index":0,"direction":"Forward"}"#)
            .map(|request| request.presentation_id),
        Ok(i32::MIN)
    );
}

#[test]
fn bad_question_index_is_rejected() {
    assert_eq!(
        decode(r#"{"presentation_id":1,"direction":"Forward"}"#),
        Err(ProtocolError::QuestionIndex)
    );
    assert_eq!(
        decode(r#"{"presentation_id":1,"question_index":-1,"direction":"Forward"}"#),
        Err(ProtocolError::QuestionIndex)
    );
    assert_eq!(
        decode(r#"{"presentation_id":1,"question_index":"0","direction":"Forward"}"#),
        Err(ProtocolError::QuestionIndex)
    );
}

#[test]
fn bad_direction_is_rejected() {
    assert_eq!(
        decode(r#"{"presentation_id":1,"question_index":0}"#),
        Err(ProtocolError::Direction)
    );
    assert_eq!(
        decode(r#"{"presentation_id":1,"question_index":0,"direction":"forward"}"#),
        Err(ProtocolError::Direction)
    );
    assert_eq!(
        decode(r#"{"presentation_id":1,"question_index":0,"direction":1}"#),
        Err(ProtocolError::Direction)
    );
}

#[test]
fn first_wrong_member_is_reported() {
    assert_eq!(decode(r#"{}"#), Err(ProtocolError::PresentationId));
    assert_eq!(decode(r#"[1, 0, "Forward"]"#), Err(ProtocolError::PresentationId));
    assert_eq!(decode(r#"{"presentation_id":1}"#), Err(ProtocolError::QuestionIndex));
}

#[test]
fn members_decide_the_request() {
    assert_eq!(
        request_from_members(Some(Some(9)), None, Some(Some(3)), Some(Some("Backward"))),
        Ok(NavigateEventRequest { presentation_id: 9, question_index: 3, direction: Direction::Backward })
    );
    assert_eq!(
        request_from_members(Some(None), Some(1), Some(Some(3)), Some(Some("Backward"))),
        Err(ProtocolError::PresentationId)
    );
    assert_eq!(
        request_from_members(Some(Some(1 << 40)), Some(1), Some(Some(3)), Some(Some("Backward"))),
        Err(ProtocolError::PresentationId)
    );
    assert_eq!(
        request_from_members(None, Some(1), None, Some(Some("Backward"))),
        Err(ProtocolError::QuestionIndex)
    );
    assert_eq!(
        request_from_members(None, Some(1), Some(None), Some(Some("Backward"))),
        Err(ProtocolError::QuestionIndex)
    );
    assert_eq!(
        request_from_members(None, Some(1), Some(Some(0)), None),
        Err(ProtocolError::Direction)
    );
    assert_eq!(
        request_from_members(None, Some(1), Some(Some(0)), Some(None)),
        Err(ProtocolError::Direction)
    );
    assert_eq!(
        request_from_members(None, Some(1), Some(Some(0)), Some(Some("Forward "))),
        Err(ProtocolError::Direction)
    );
    assert_eq!(
        request_from_members(None, Some(1), Some(Some(0)), Some(Some("Forward"))),
        Ok(NavigateEventRequest { presentation_id: 1, question_index: 0, direction: Direction::Forward })
    );
}

#[test]
fn encodes_the_response() {
    assert_eq!(NavigateEventResponse { new_question_index: 0 }.to_json(), r#"{"new_question_index":0}"#);
    assert_eq!(NavigateEventResponse { new_question_index: 1 }.to_json(), r#"{"new_question_index":1}"#);
    assert_eq!(NavigateEventResponse { new_question_index: 10 }.to_json(), r#"{"new_question_index":10}"#);
    assert_eq!(
        NavigateEventResponse { new_question_index: 4294967295 }.to_json(),
        r#"{"new_question_index":4294967295}"#
    );
}

#[test]
fn encoded_response_reads_back() {
    let text = NavigateEventResponse { new_question_index: 907 }.to_json();
    let document: serde_json::Value = serde_json::from_str(&text).unwrap();
    assert_eq!(document.get("new_question_index").and_then(|value| value.as_u64()), Some(907));
    assert_eq!(document.as_object().map(|members| members.len()), Some(1));
}

#[test]
fn error_frames_are_json_objects() {
    let errors = [
        ProtocolError::Malformed,
        ProtocolError::PresentationId,
        ProtocolError::QuestionIndex,
        ProtocolError::Direction,
        ProtocolError::PresentationNotFound,
        ProtocolError::StorageUnavailable,
    ];
    for error in errors {
        let text = error.to_json();
        let document: serde_json::Value = serde_json::from_str(&text).unwrap();
        assert_eq!(document.get("error").and_then(|value| value.as_str()), Some(error.message()));
        assert_eq!(document.as_object().map(|members| members.len()), Some(1));
    }
    assert_eq!(ProtocolError::Malformed.to_json(), r#"{"error":"the frame is not valid JSON"}"#);
    assert_eq!(
        ProtocolError::PresentationNotFound.to_json(),
        r#"{"error":"there is no such presentation"}"#
    );
}
