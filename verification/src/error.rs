//! The ways in which posting a message fails.

use crate::message::{MessageId, PostMessageResponse};
use url::ParseError;
use vstd::prelude::*;
use vstd::std_specs::convert::FromSpecImpl;

verus! {

#[verifier::external_type_specification]
#[verifier::external_body]
pub struct ExReqwestError(reqwest::Error);

/// Why a message was not posted.
#[derive(Debug)]
pub enum PostMessageError {
    /// The request could not be sent or failed on its way, or the answer
    /// could not be read.
    Reqwest(reqwest::Error),
    /// The address of the room is no URL.
    UrlParse(ParseError),
    /// The service refused the message, for the reasons it lists.
    API(Vec<String>),
}

impl From<reqwest::Error> for PostMessageError {
    fn from(e: reqwest::Error) -> (r: PostMessageError) {
        PostMessageError::Reqwest(e)
    }
}

impl FromSpecImpl<reqwest::Error> for PostMessageError {
    open spec fn obeys_from_spec() -> bool {
        true
    }

    open spec fn from_spec(e: reqwest::Error) -> PostMessageError {
        PostMessageError::Reqwest(e)
    }
}

impl From<ParseError> for PostMessageError {
    fn from(e: ParseError) -> (r: PostMessageError) {
        PostMessageError::UrlParse(e)
    }
}

impl FromSpecImpl<ParseError> for PostMessageError {
    open spec fn obeys_from_spec() -> bool {
        true
    }

    open spec fn from_spec(e: ParseError) -> PostMessageError {
        PostMessageError::UrlParse(e)
    }
}

/// What an answer of the service means: the identifier of the posted message,
/// or the service's list of errors.
pub open spec fn response_result(response: PostMessageResponse) -> Result<
    MessageId,
    PostMessageError,
> {
    match response {
        PostMessageResponse::Error { errors } => Err(PostMessageError::API(errors)),
        PostMessageResponse::MessageId { message_id } => Ok(MessageId { message_id }),
    }
}

/// What the outcome of the exchange with the service means: a failure of the
/// exchange itself is handed on, an answer is read by `response_result`.
pub open spec fn exchange_result(outcome: Result<PostMessageResponse, reqwest::Error>) -> Result<
    MessageId,
    PostMessageError,
> {
    match outcome {
        Ok(response) => response_result(response),
        Err(e) => Err(PostMessageError::Reqwest(e)),
    }
}

/// Reads the service's answer.
pub fn map_response(response: PostMessageResponse) -> (r: Result<MessageId, PostMessageError>)
    ensures
        r == response_result(response),
{
    match response {
        PostMessageResponse::Error { errors } => Err(PostMessageError::API(errors)),
        PostMessageResponse::MessageId { message_id } => Ok(MessageId { message_id }),
    }
}

/// Reads the outcome of the exchange with the service.
pub fn post_message_result(outcome: Result<PostMessageResponse, reqwest::Error>) -> (r: Result<
    MessageId,
    PostMessageError,
>)
    ensures
        r == exchange_result(outcome),
{
    match outcome {
        Ok(response) => map_response(response),
        Err(e) => Err(PostMessageError::from(e)),
    }
}

} // verus!
