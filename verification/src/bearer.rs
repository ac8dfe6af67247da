//! The `Authorization` header: `Bearer <token>`.

use vstd::prelude::*;
use crate::text::{
    fields, is_solid, lemma_fields_split, lemma_word_is_field, text_equal, whitespace_fields,
};

verus! {

/// The token that a header value presents: the value has exactly two fields
/// and the first is literally `Bearer`. Any other shape presents none.
pub open spec fn bearer_token_of(header: Seq<char>) -> Option<Seq<char>> {
    let parts = fields(header);
    if parts.len() == 2 && parts[0] == "Bearer"@ {
        Some(parts[1])
    } else {
        None
    }
}

/// Reads the token out of the value of an `Authorization` header.
pub fn bearer_token(header: &str) -> (token: Option<String>)
    ensures
        match token {
            Some(t) => bearer_token_of(header@) == Some(t@),
            None => bearer_token_of(header@) is None,
        },
{
    let mut parts = whitespace_fields(header);
    if parts.len() == 2 && text_equal(parts[0].as_str(), "Bearer") {
        parts.pop()
    } else {
        None
    }
}

/// A header made of `Bearer`, one space and a token presents that token,
/// for every token that is not empty and holds no white space.
pub proof fn lemma_bearer_header_presents_token(token: Seq<char>)
    requires
        token.len() > 0,
        is_solid(token),
    ensures
        bearer_token_of("Bearer "@ + token) == Some(token),
{
    reveal_strlit("Bearer ");
    reveal_strlit("Bearer");
    assert("Bearer "@ =~= "Bearer"@.push(' '));
    assert("Bearer "@ + token =~= "Bearer"@.push(' ') + token);
    lemma_fields_split("Bearer"@, ' ', token);
    lemma_word_is_field("Bearer"@);
    lemma_word_is_field(token);
    assert(fields("Bearer"@) + fields(token) =~= seq!["Bearer"@, token]);
}

} // verus!
