//! The header that carries the API token.

use hyper::HeaderMap;
use vstd::prelude::*;
use vstd::string::*;

verus! {

#[verifier::external_type_specification]
#[verifier::external_body]
#[verifier::reject_recursive_types(T)]
pub struct ExHeaderMap<T>(hyper::HeaderMap<T>);

/// What a header map holds: for each header name, in lower case, the values
/// under that name, oldest first.
pub uninterp spec fn header_entries(map: HeaderMap<String>) -> Map<Seq<char>, Seq<Seq<char>>>;

/// Whether `c` is an ASCII letter, a digit or a hyphen.
pub open spec fn is_name_char(c: char) -> bool {
    ('a' <= c <= 'z') || ('A' <= c <= 'Z') || ('0' <= c <= '9') || c == '-'
}

/// Whether `name` is a header name made of ASCII letters, digits and hyphens
/// alone, of at most 63 characters.
pub open spec fn is_plain_header_name(name: Seq<char>) -> bool {
    &&& 0 < name.len() < 64
    &&& forall|i: int| 0 <= i < name.len() ==> is_name_char(#[trigger] name[i])
}

/// `c`, in lower case where it is an ASCII capital.
pub open spec fn ascii_lowercase(c: char) -> char {
    if 'A' <= c <= 'Z' {
        (c as u32 + 32) as u8 as char
    } else {
        c
    }
}

/// `s` with its ASCII capitals in lower case.
pub open spec fn lowercase(s: Seq<char>) -> Seq<char> {
    Seq::new(s.len(), |i: int| ascii_lowercase(s[i]))
}

/// The contents of a header map that holds nothing.
pub open spec fn no_headers() -> Map<Seq<char>, Seq<Seq<char>>> {
    Map::empty()
}

/// `HeaderMap::with_capacity` of the `http` crate, which `hyper` hands on,
/// asked for no room at all: a map that holds nothing.
#[verifier::external_body]
fn new_header_map() -> (headers: HeaderMap<String>)
    ensures
        header_entries(headers) == no_headers(),
{
    HeaderMap::with_capacity(0)
}

/// `HeaderMap::insert` of the `http` crate, on a map that holds nothing yet,
/// with a name of letters, digits and hyphens: the map then holds the one
/// value, as it was given, under the name in lower case.
#[verifier::external_body]
fn insert_header(map: &mut HeaderMap<String>, name: &'static str, value: String)
    requires
        header_entries(*old(map)) == no_headers(),
        is_plain_header_name(name@),
    ensures
        header_entries(*final(map)) == no_headers().insert(lowercase(name@), seq![value@]),
{
    map.insert(name, value);
}

/// The name of the header that carries the API token.
pub const TOKEN_HEADER: &'static str = "X-ChatWorkToken";

/// The headers of a request made with `token`: the token header alone, with
/// the token as its value.
pub open spec fn token_headers(token: Seq<char>) -> Map<Seq<char>, Seq<Seq<char>>> {
    no_headers().insert(lowercase(TOKEN_HEADER@), seq![token])
}

/// The token header's name is a plain header name, and in lower case it reads
/// `x-chatworktoken`.
pub proof fn lemma_token_header_name()
    ensures
        is_plain_header_name(TOKEN_HEADER@),
        lowercase(TOKEN_HEADER@) == "x-chatworktoken"@,
{
    reveal_strlit("X-ChatWorkToken");
    reveal_strlit("x-chatworktoken");
    assert(lowercase(TOKEN_HEADER@) =~= "x-chatworktoken"@);
}

/// The headers of a request hold one name, the token header's, and under it
/// one value, the token.
pub proof fn lemma_token_headers(token: Seq<char>)
    ensures
        token_headers(token).dom() == set!["x-chatworktoken"@],
        token_headers(token)["x-chatworktoken"@] == seq![token],
{
    lemma_token_header_name();
    assert(token_headers(token).dom() =~= set!["x-chatworktoken"@]);
}

/// The headers of a request made with `token`: one header, the token header,
/// whose one value is the token as it is, whatever it holds.
pub fn chatwork_api_headers(token: &str) -> (headers: HeaderMap<String>)
    ensures
        header_entries(headers) == token_headers(token@),
        header_entries(headers).dom() == set!["x-chatworktoken"@],
        header_entries(headers)["x-chatworktoken"@] == seq![token@],
{
    proof {
        lemma_token_header_name();
        lemma_token_headers(token@);
    }
    let mut headers = new_header_map();
    insert_header(&mut headers, TOKEN_HEADER, token.to_owned());
    headers
}

} // verus!
