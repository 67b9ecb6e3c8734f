//! Who may ask the agent for something.

use crate::boundary::first_header_text;
use crate::boundary::header_contents;
use crate::boundary::header_text;
use crate::boundary::read_header;
use crate::text::after_prefix;
use crate::text::same_text;
use crate::text::strip_prefix;
use crate::text_laws::law_prefix_and_rest_make_the_text;
use axum::http::HeaderMap;
use vstd::prelude::*;

verus! {

/// Whether an authorization header that says `auth` carries the token `expected`.
pub open spec fn carries_token(auth: Option<Seq<char>>, expected: Seq<char>) -> bool {
    match auth {
        Some(auth) => after_prefix(auth, "Bearer "@) == Some(expected),
        None => false,
    }
}

/// Whether an authorization header that says `auth` carries the token `expected`.
pub fn token_matches(auth: &Option<String>, expected: &str) -> (matches: bool)
    ensures
        matches == carries_token(auth.deep_view(), expected@),
{
    match auth {
        Some(auth) => match strip_prefix(auth.as_str(), "Bearer ") {
            Some(token) => same_text(token.as_str(), expected),
            None => false,
        },
        None => false,
    }
}

/// Whether a request with headers of these contents carries the token `expected`: it has an
/// authorization header, the first one is text, and says `Bearer ` and the token.
pub open spec fn is_authorized(
    contents: Map<Seq<char>, Seq<Seq<u8>>>,
    expected: Seq<char>,
) -> bool {
    carries_token(first_header_text(contents, "authorization"@), expected)
}

/// Whether a request with these headers carries the token `expected`.
pub fn check_auth(headers: &HeaderMap, expected: &str) -> (authorized: bool)
    ensures
        authorized == is_authorized(header_contents(headers), expected@),
{
    proof {
        reveal_strlit("authorization");
    }
    let auth = read_header(headers, "authorization");
    token_matches(&auth, expected)
}

/// A request is let in exactly if its first authorization header is text and is the word
/// `Bearer`, a space, and the token.
pub proof fn law_only_the_token_lets_in(headers: &HeaderMap, expected: &str, authorized: bool)
    requires
        call_ensures(check_auth, (headers, expected), authorized),
    ensures
        ({
            let contents = header_contents(headers);
            authorized <==> {
                &&& contents.contains_key("authorization"@)
                &&& contents["authorization"@].len() > 0
                &&& header_text(contents["authorization"@][0]) == Some("Bearer "@ + expected@)
            }
        }),
        authorized == is_authorized(header_contents(headers), expected@),
{
    let contents = header_contents(headers);
    if contents.contains_key("authorization"@) && contents["authorization"@].len() > 0 {
        if let Some(text) = header_text(contents["authorization"@][0]) {
            law_prefix_and_rest_make_the_text(text, "Bearer "@, expected@);
        }
    }
}

/// The same, of the text of a header.
pub proof fn law_token_stands_behind_the_scheme(
    auth: Option<String>,
    expected: &str,
    matches: bool,
)
    requires
        call_ensures(token_matches, (&auth, expected), matches),
    ensures
        matches <==> auth is Some && auth->0@ == "Bearer "@ + expected@,
{
    if let Some(text) = auth {
        assert(auth.deep_view() == Some(text@));
        law_prefix_and_rest_make_the_text(text@, "Bearer "@, expected@);
    }
}

} // verus!
