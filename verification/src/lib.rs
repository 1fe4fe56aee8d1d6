//! Posting one text message to a ChatWork room: the arguments, the request
//! and the reading of the answer, without the network.
//!
//! A caller reads the command line with [`parse_args`] and the token with
//! [`env_chatwork_token`], builds the request with [`post_message_request`],
//! sends it, and hands what came back to [`post_message_result`].

pub mod args;
pub mod decimal;
pub mod endpoint;
pub mod error;
pub mod headers;
pub mod message;
pub mod request;

pub use args::{env_chatwork_token, parse_args};
pub use endpoint::{post_message_url, post_message_url_text};
pub use error::{map_response, post_message_result, PostMessageError};
pub use headers::chatwork_api_headers;
pub use message::{MessageId, PostMessageRequest, PostMessageResponse};
pub use request::{post_message_request, request_for_url, PostMessageCall};
