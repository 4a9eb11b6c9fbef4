//! Bearer tokens in request headers.

use crate::outside;
use crate::text;
use vstd::prelude::*;

verus! {

/// The credential in the value of an `Authorization` header: what follows the
/// first space, without surrounding whitespace, when the scheme before that space
/// is `Bearer` in any ASCII case and something is left.
pub open spec fn bearer_credential(value: Seq<char>) -> Option<Seq<char>> {
    let space = text::position(value, ' ');
    if space < value.len() && text::same_ignoring_ascii_case(value.take(space), "bearer"@) && text::trim(
        value.skip(space + 1),
    ).len() > 0 {
        Some(text::trim(value.skip(space + 1)))
    } else {
        None
    }
}

/// The text of the first `Authorization` header, when there is one and it is
/// visible ASCII.
pub open spec fn authorization_text(headers: http::HeaderMap) -> Option<Seq<char>> {
    let values = outside::header_values(headers);
    if values.contains_key("authorization"@) && outside::all_visible_ascii(
        values["authorization"@][0],
    ) {
        Some(outside::ascii_text(values["authorization"@][0]))
    } else {
        None
    }
}

/// The bearer credential in the headers of a request.
pub open spec fn bearer_in(headers: http::HeaderMap) -> Option<Seq<char>> {
    match authorization_text(headers) {
        Some(value) => bearer_credential(value),
        None => None,
    }
}

/// The credential in the value of an `Authorization` header.
pub fn parse_bearer(value: &str) -> (r: Option<&str>)
    ensures
        match r {
            Some(token) => bearer_credential(value@) == Some(token@),
            None => bearer_credential(value@) is None,
        },
{
    let space: usize = text::position_of(value, ' ');
    proof {
        text::lemma_position(value@, ' ');
    }
    let len: usize = value.unicode_len();
    if space >= len {
        return None;
    }
    let scheme = value.substring_char(0, space);
    assert(scheme@ =~= value@.take(space as int));
    if !text::same_text_ignoring_ascii_case(scheme, "bearer") {
        return None;
    }
    let rest = value.substring_char(space + 1, len);
    assert(rest@ =~= value@.skip(space + 1));
    let token = text::trim_str(rest);
    if token.is_empty() {
        None
    } else {
        Some(token)
    }
}

/// Extract a bearer token from an `Authorization` header.
///
/// Returns the token with the `Bearer ` prefix stripped and surrounding
/// whitespace trimmed, or `None` if the header is absent, not a `Bearer` scheme,
/// or the token is empty after trimming. The scheme match is
/// ASCII-case-insensitive per RFC 7235.
pub fn bearer_token(headers: &http::HeaderMap) -> (r: Option<&str>)
    ensures
        match r {
            Some(token) => bearer_in(*headers) == Some(token@),
            None => bearer_in(*headers) is None,
        },
{
    match outside::authorization_header(headers) {
        Some(value) => match value.to_str() {
            Ok(text) => parse_bearer(text),
            Err(_) => None,
        },
        None => None,
    }
}

} // verus!
