//! What is sent to the service and what it answers.

use vstd::prelude::*;
use vstd::string::*;

verus! {

/// The form that is posted: the text of the message, sent as it is.
#[derive(Debug, PartialEq, Eq)]
pub struct PostMessageRequest {
    pub body: String,
}

/// The service's answer. It has one of two shapes, and is told apart by the
/// field that it holds: a list of errors, or the identifier of the message
/// that was posted.
#[derive(Debug, PartialEq, Eq)]
pub enum PostMessageResponse {
    Error { errors: Vec<String> },
    MessageId { message_id: String },
}

/// The identifier that the service gave the posted message.
#[derive(Debug, PartialEq, Eq)]
pub struct MessageId {
    pub message_id: String,
}

impl PostMessageRequest {
    /// The form for a message that reads `body`.
    pub fn new(body: &str) -> (request: PostMessageRequest)
        ensures
            request.body@ == body@,
    {
        PostMessageRequest { body: body.to_owned() }
    }
}

} // verus!
