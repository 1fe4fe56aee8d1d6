//! The command line and the environment.

use crate::decimal::{parse_u32, parse_u32_spec};
use vstd::prelude::*;
use vstd::string::*;

verus! {

/// The message for a command line without a room.
pub const ROOM_ID_MISSING: &'static str = "room_id argument missing.";

/// The message for a room that is no number.
pub const ROOM_ID_NOT_A_NUMBER: &'static str = "room_id argument is not a valid number.";

/// The message for a command line without a text.
pub const BODY_MISSING: &'static str = "body argument missing.";

/// The environment variable that holds the API token.
pub const TOKEN_VARIABLE: &'static str = "CHATWORK_API_TOKEN";

/// What follows the variable's name in the message for a missing token.
pub const NOT_PRESENT: &'static str = " environment variable not present.";

/// The arguments, each as its characters.
pub open spec fn args_view(args: Seq<String>) -> Seq<Seq<char>> {
    Seq::new(args.len(), |i: int| args[i]@)
}

/// What a command line asks for. The program's name comes first and is passed
/// over; then the room, an unsigned decimal number; then the text, which is
/// taken as it is; what follows is passed over too. The room is looked at
/// before the text.
pub open spec fn parse_args_spec(args: Seq<Seq<char>>) -> Result<(u32, Seq<char>), Seq<char>> {
    if args.len() < 2 {
        Err(ROOM_ID_MISSING@)
    } else {
        match parse_u32_spec(args[1]) {
            None => Err(ROOM_ID_NOT_A_NUMBER@),
            Some(room_id) => if args.len() < 3 {
                Err(BODY_MISSING@)
            } else {
                Ok((room_id, args[2]))
            },
        }
    }
}

/// The room and the text, or the message, each as its characters.
pub open spec fn parsed_args_view(r: Result<(u32, String), String>) -> Result<
    (u32, Seq<char>),
    Seq<char>,
> {
    match r {
        Ok((room_id, body)) => Ok((room_id, body@)),
        Err(message) => Err(message@),
    }
}

/// The message for a missing token: it names the variable.
pub open spec fn token_missing() -> Seq<char> {
    TOKEN_VARIABLE@ + NOT_PRESENT@
}

/// A command line is taken just when it holds, after the program's name, a
/// room that is a number and a text.
pub proof fn lemma_parse_args_taken(args: Seq<Seq<char>>)
    ensures
        parse_args_spec(args) is Ok <==> args.len() >= 3 && parse_u32_spec(args[1]) is Some,
        parse_args_spec(args) == Err::<(u32, Seq<char>), Seq<char>>(ROOM_ID_MISSING@)
            <==> args.len() < 2,
        parse_args_spec(args) == Err::<(u32, Seq<char>), Seq<char>>(ROOM_ID_NOT_A_NUMBER@)
            <==> args.len() >= 2 && parse_u32_spec(args[1]) is None,
        parse_args_spec(args) == Err::<(u32, Seq<char>), Seq<char>>(BODY_MISSING@)
            <==> args.len() == 2 && parse_u32_spec(args[1]) is Some,
{
    reveal_strlit("room_id argument missing.");
    reveal_strlit("room_id argument is not a valid number.");
    reveal_strlit("body argument missing.");
    assert(ROOM_ID_MISSING@.len() != ROOM_ID_NOT_A_NUMBER@.len());
    assert(ROOM_ID_MISSING@.len() != BODY_MISSING@.len());
    assert(BODY_MISSING@.len() != ROOM_ID_NOT_A_NUMBER@.len());
}

/// What follows the text on the command line changes nothing.
pub proof fn lemma_parse_args_rest(args: Seq<Seq<char>>)
    requires
        args.len() >= 3,
    ensures
        parse_args_spec(args) == parse_args_spec(args.subrange(0, 3)),
{
}

/// The program's name changes nothing.
pub proof fn lemma_parse_args_program_name(args: Seq<Seq<char>>, name: Seq<char>)
    requires
        args.len() >= 1,
    ensures
        parse_args_spec(args.update(0, name)) == parse_args_spec(args),
{
}

/// Reads the room and the text from the command line, the program's name
/// included.
pub fn parse_args(args: &Vec<String>) -> (r: Result<(u32, String), String>)
    ensures
        parsed_args_view(r) == parse_args_spec(args_view(args@)),
{
    if args.len() < 2 {
        return Err(ROOM_ID_MISSING.to_owned());
    }
    let room_id: u32 = match parse_u32(args[1].as_str()) {
        Some(room_id) => room_id,
        None => {
            return Err(ROOM_ID_NOT_A_NUMBER.to_owned());
        },
    };
    if args.len() < 3 {
        return Err(BODY_MISSING.to_owned());
    }
    Ok((room_id, args[2].clone()))
}

/// The API token, given what the environment holds under `TOKEN_VARIABLE`. A
/// token is taken as it is.
pub fn env_chatwork_token(value: Option<String>) -> (r: Result<String, String>)
    ensures
        value matches Some(token) ==> r == Ok::<String, String>(token),
        value is None ==> (r matches Err(message) && message@ == token_missing()),
{
    match value {
        Some(token) => Ok(token),
        None => Err(String::from_str(TOKEN_VARIABLE).concat(NOT_PRESENT)),
    }
}

} // verus!
