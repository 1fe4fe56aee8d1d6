//! The address that a message is posted to.

use crate::decimal::{all_digits, decimal, lemma_decimal_denotes, lemma_parse_decimal, parse_u32_spec, u32_to_decimal};
use url::{ParseError, Url};
use vstd::prelude::*;
use vstd::string::*;

verus! {

#[verifier::external_type_specification]
#[verifier::external_body]
pub struct ExUrl(url::Url);

#[verifier::external_type_specification]
#[verifier::external_body]
pub struct ExParseError(url::ParseError);

/// What the `url` crate's parser makes of a text: the URL record, or the
/// reason for which the text is no absolute URL.
pub uninterp spec fn parsed_url(text: Seq<char>) -> Result<Url, ParseError>;

/// `url::Url::parse` reads an absolute URL from a text. What it returns
/// depends on the text alone; nothing more is claimed of it here.
pub assume_specification[ url::Url::parse ](input: &str) -> (r: Result<Url, ParseError>)
    ensures
        r == parsed_url(input@),
;

/// The scheme of the service's address.
pub const API_SCHEME: &'static str = "https";

/// The host of the service.
pub const API_HOST: &'static str = "api.chatwork.com";

/// The path under which the messages of the room `room_id` are posted.
pub open spec fn room_messages_path(room_id: u32) -> Seq<char> {
    "/v2/rooms/"@ + decimal(room_id as nat) + "/messages"@
}

/// The address, as text, to which the messages of the room `room_id` are
/// posted.
pub open spec fn room_messages_url(room_id: u32) -> Seq<char> {
    API_SCHEME@ + "://"@ + API_HOST@ + room_messages_path(room_id)
}

/// The address of a room is the fixed scheme and host followed by the path
/// `/v2/rooms/`, the room's number in decimal notation, and `/messages`; the
/// number is written in digits alone and can be read back from them.
pub proof fn lemma_room_messages_url(room_id: u32)
    ensures
        room_messages_url(room_id) == "https"@ + "://"@ + "api.chatwork.com"@ + room_messages_path(
            room_id,
        ),
        room_messages_url(room_id) == "https://api.chatwork.com/v2/rooms/"@ + decimal(
            room_id as nat,
        ) + "/messages"@,
        room_messages_path(room_id) == "/v2/rooms/"@ + decimal(room_id as nat) + "/messages"@,
        all_digits(decimal(room_id as nat)),
        parse_u32_spec(decimal(room_id as nat)) == Some(room_id),
{
    reveal_strlit("https");
    reveal_strlit("://");
    reveal_strlit("api.chatwork.com");
    reveal_strlit("https://api.chatwork.com/v2/rooms/");
    reveal_strlit("/v2/rooms/");
    reveal_strlit("/messages");
    lemma_decimal_denotes(room_id as nat);
    lemma_parse_decimal(room_id);
    assert(room_messages_url(room_id) =~= "https://api.chatwork.com/v2/rooms/"@ + decimal(
        room_id as nat,
    ) + "/messages"@);
}

/// Two rooms have the same address only if they are the same room.
pub proof fn lemma_room_messages_url_injective(a: u32, b: u32)
    requires
        room_messages_url(a) == room_messages_url(b),
    ensures
        a == b,
{
    reveal_strlit("https");
    reveal_strlit("://");
    reveal_strlit("api.chatwork.com");
    reveal_strlit("/v2/rooms/");
    reveal_strlit("/messages");
    lemma_parse_decimal(a);
    lemma_parse_decimal(b);
    let da = decimal(a as nat);
    let db = decimal(b as nat);
    let ua = room_messages_url(a);
    let ub = room_messages_url(b);
    assert(ua.len() == 43 + da.len());
    assert(ub.len() == 43 + db.len());
    assert(da =~= ua.subrange(34, 34 + da.len() as int));
    assert(db =~= ub.subrange(34, 34 + db.len() as int));
}

/// Writes the address to which the messages of the room `room_id` are posted.
pub fn post_message_url_text(room_id: u32) -> (text: String)
    ensures
        text@ == room_messages_url(room_id),
{
    let mut text = String::from_str(API_SCHEME);
    text.append("://");
    text.append(API_HOST);
    text.append("/v2/rooms/");
    let number = u32_to_decimal(room_id);
    text.append(number.as_str());
    text.append("/messages");
    assert(text@ =~= room_messages_url(room_id));
    text
}

/// The address to which the messages of the room `room_id` are posted, as the
/// `url` crate's parser reads it from `room_messages_url(room_id)`.
pub fn post_message_url(room_id: u32) -> (r: Result<Url, ParseError>)
    ensures
        r == parsed_url(room_messages_url(room_id)),
{
    let text = post_message_url_text(room_id);
    Url::parse(text.as_str())
}

} // verus!
