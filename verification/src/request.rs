//! The request that posts a message.

use crate::endpoint::{parsed_url, post_message_url, room_messages_url};
use crate::error::PostMessageError;
use crate::headers::{chatwork_api_headers, header_entries, token_headers};
use crate::message::PostMessageRequest;
use hyper::HeaderMap;
use url::{ParseError, Url};
use vstd::prelude::*;
use vstd::string::*;

verus! {

/// All that one request to the service is made of. Sending it posts a new
/// message each time: the service keeps no record by which it could tell a
/// repeated request from a new one.
#[derive(Debug)]
pub struct PostMessageCall {
    /// Where the form is posted.
    pub url: Url,
    /// The headers of the request.
    pub headers: HeaderMap<String>,
    /// The form.
    pub body: PostMessageRequest,
}

/// Whether `call` posts the text `body` to `url` in the name of `token`.
pub open spec fn is_call_for(call: PostMessageCall, url: Url, token: Seq<char>, body: Seq<char>) -> bool {
    &&& call.url == url
    &&& header_entries(call.headers) == token_headers(token)
    &&& call.body.body@ == body
}

/// Whether `r` is what a request for `body` in the name of `token` comes to,
/// given what became of the room's address: an address that is no URL is
/// reported, and nothing else stands in the way of the request.
pub open spec fn is_request_outcome(
    url: Result<Url, ParseError>,
    token: Seq<char>,
    body: Seq<char>,
    r: Result<PostMessageCall, PostMessageError>,
) -> bool {
    match url {
        Err(e) => r == Err::<PostMessageCall, PostMessageError>(PostMessageError::UrlParse(e)),
        Ok(u) => r matches Ok(call) && is_call_for(call, u, token, body),
    }
}

/// The request that posts `body` in the name of `token`, given what became of
/// the room's address.
pub fn request_for_url(url: Result<Url, ParseError>, token: &str, body: &str) -> (r: Result<
    PostMessageCall,
    PostMessageError,
>)
    ensures
        is_request_outcome(url, token@, body@, r),
{
    let body = PostMessageRequest::new(body);
    let url = match url {
        Ok(url) => url,
        Err(e) => {
            return Err(PostMessageError::from(e));
        },
    };
    let headers = chatwork_api_headers(token);
    Ok(PostMessageCall { url, headers, body })
}

/// The request that posts `body` to the room `room_id` in the name of `token`.
pub fn post_message_request(token: &str, room_id: u32, body: &str) -> (r: Result<
    PostMessageCall,
    PostMessageError,
>)
    ensures
        is_request_outcome(parsed_url(room_messages_url(room_id)), token@, body@, r),
{
    request_for_url(post_message_url(room_id), token, body)
}

} // verus!
