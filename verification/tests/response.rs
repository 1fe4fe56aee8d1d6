use chatwork_post::error::{map_response, post_message_result, PostMessageError};
use chatwork_post::message::{MessageId, PostMessageRequest, PostMessageResponse};

fn transport_failure() -> reqwest::Error {
    match reqwest::Proxy::http("no url") {
        Err(e) => e,
        Ok(_) => panic!("a proxy without a scheme was taken"),
    }
}

#[test]
fn response_with_a_message_id_is_a_success() {
    let response = PostMessageResponse::MessageId { message_id: "abc123".to_string() };
    let id = map_response(response).unwrap();
    assert_eq!(id, MessageId { message_id: "abc123".to_string() });
    assert_eq!(id.message_id, "abc123");
}

#[test]
fn response_with_errors_is_an_api_error() {
    let response =
        PostMessageResponse::Error { errors: vec!["e1".to_string(), "e2".to_string()] };
    match map_response(response) {
        Err(PostMessageError::API(errors)) => {
            assert_eq!(errors, vec!["e1".to_string(), "e2".to_string()])
        },
        other => panic!("{:?}", other),
    }
}

#[test]
fn response_with_no_errors_listed_is_still_an_api_error() {
    let response = PostMessageResponse::Error { errors: Vec::new() };
    match map_response(response) {
        Err(PostMessageError::API(errors)) => assert!(errors.is_empty()),
        other => panic!("{:?}", other),
    }
}

#[test]
fn response_with_an_empty_message_id_is_a_success() {
    let response = PostMessageResponse::MessageId { message_id: String::new() };
    assert_eq!(map_response(response).unwrap().message_id, "");
}

#[test]
fn outcome_with_an_answer_is_read_as_the_answer() {
    let posted = post_message_result(Ok(PostMessageResponse::MessageId {
        message_id: "999".to_string(),
    }));
    assert_eq!(posted.unwrap().message_id, "999");
    let refused = post_message_result(Ok(PostMessageResponse::Error {
        errors: vec!["invalid token".to_string()],
    }));
    match refused {
        Err(PostMessageError::API(errors)) => assert_eq!(errors, vec!["invalid token".to_string()]),
        other => panic!("{:?}", other),
    }
}

#[test]
fn outcome_with_a_failed_exchange_hands_the_failure_on() {
    let failure = transport_failure();
    let detail = failure.to_string();
    match post_message_result(Err(failure)) {
        Err(PostMessageError::Reqwest(e)) => assert_eq!(e.to_string(), detail),
        other => panic!("{:?}", other),
    }
}

#[test]
fn errors_convert_from_their_sources() {
    match PostMessageError::from(url::ParseError::EmptyHost) {
        PostMessageError::UrlParse(e) => assert_eq!(e, url::ParseError::EmptyHost),
        other => panic!("{:?}", other),
    }
    match PostMessageError::from(url::ParseError::RelativeUrlWithoutBase) {
        PostMessageError::UrlParse(e) => assert_eq!(e, url::ParseError::RelativeUrlWithoutBase),
        other => panic!("{:?}", other),
    }
    assert!(matches!(PostMessageError::from(transport_failure()), PostMessageError::Reqwest(_)));
}

#[test]
fn request_form_holds_the_body_unchanged() {
    assert_eq!(PostMessageRequest::new("hello").body, "hello");
    assert_eq!(PostMessageRequest::new("").body, "");
    assert_eq!(PostMessageRequest::new(" a=b&c \n").body, " a=b&c \n");
}
