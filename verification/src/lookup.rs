//! What a lookup request comes to before and after the store is asked: from
//! the authorization header to the pattern to scan for, and from the scan's
//! result to the message of the reply.

use vstd::prelude::*;

use crate::decode::{decode, decoding};
use crate::errors::{Disposition, Error, ErrorKind};
use crate::jwt::{derive_pattern, lookup_pattern};
use crate::text::same_text;

verus! {

/// The word and the blank that precede a token in an authorization header.
pub open spec fn bearer_prefix() -> Seq<char> {
    "Bearer "@
}

/// The value of an authorization header without the prefix `Bearer `, or the
/// whole value where it has no such prefix.
pub open spec fn without_bearer(value: Seq<char>) -> Seq<char> {
    if bearer_prefix().is_prefix_of(value) {
        value.skip(bearer_prefix().len() as int)
    } else {
        value
    }
}

/// The pattern that a token is looked up by, or the kind of error that the
/// token is rejected with: that of its decoding, or of its claims.
pub open spec fn token_pattern(token: Seq<char>) -> Result<Seq<char>, ErrorKind> {
    match decoding(token) {
        Err(kind) => Err(kind),
        Ok((_, claims)) => lookup_pattern(claims),
    }
}

/// Takes the token out of the value of an authorization header.
pub fn bearer_token<'a>(value: &'a str) -> (token: &'a str)
    ensures
        token@ == without_bearer(value@),
{
    proof {
        reveal_strlit("Bearer ");
    }
    let n: usize = value.unicode_len();
    if n < 7 {
        return value;
    }
    let start = value.substring_char(0, 7);
    if same_text(start, "Bearer ") {
        assert(value@.subrange(0, 7) =~= "Bearer "@);
        assert(value@.skip(7) =~= value@.subrange(7, n as int));
        value.substring_char(7, n)
    } else {
        value
    }
}

/// Decodes a token and derives the pattern that its session is looked up by.
pub fn pattern_for_token(token: &str) -> (r: Result<String, Error>)
    ensures
        match r {
            Ok(pattern) => token_pattern(token@) == Ok::<Seq<char>, ErrorKind>(pattern@),
            Err(e) => token_pattern(token@) == Err::<Seq<char>, ErrorKind>(*e.kind()),
        },
{
    let data = decode(token)?;
    derive_pattern(&data.claims)
}

/// The message that answers a lookup: `true` where a key matched, else `false`.
pub fn reply_message(found: bool) -> (message: String)
    ensures
        message@ == if found {
            "true"@
        } else {
            "false"@
        },
{
    if found {
        String::from_str("true")
    } else {
        String::from_str("false")
    }
}

/// Whatever is wrong with a token, the caller is told no more than that it is
/// not authorized: no token is rejected with a failure of the store.
pub proof fn rejected_token_is_unauthorized(token: Seq<char>)
    ensures
        token_pattern(token) matches Err(kind) ==> kind.spec_disposition()
            == Disposition::Unauthorized,
{
}

} // verus!
