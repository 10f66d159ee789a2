//! Taking a token apart: its three segments, its header and its claims.

use vstd::prelude::*;

use crate::algorithms::names_are_distinct;
use crate::errors::{new_error, Error, ErrorKind};
use crate::header::{header_members, header_of, segment_header, Header, HeaderView};
use crate::jwt::{claims_of, ClaimsView, JwtClaims};
use crate::serialize::{
    from_jwt_part_claims, lookup, optional_text, segment_claims, segment_object,
};
use crate::text::{split_on, split_on_joined, split_on_whole};

verus! {

/// The return type of a successful call to [decode](fn.decode.html).
#[derive(Debug)]
pub struct TokenData<T> {
    /// The decoded JWT header
    pub header: Header,
    /// The decoded JWT claims
    pub claims: T,
}

/// What decoding makes of a token: the header and the claims, or the kind of
/// error that stops it. The token must consist of exactly three segments; the
/// header is decoded before the claims; the third segment is not looked at.
pub open spec fn decoding(token: Seq<char>) -> Result<(HeaderView, ClaimsView), ErrorKind> {
    let segments = split_on(token, '.');
    if segments.len() != 3 {
        Err(ErrorKind::InvalidTokenShape)
    } else {
        match segment_header(segments[0]) {
            Err(kind) => Err(kind),
            Ok(header) => match segment_claims(segments[1]) {
                Err(kind) => Err(kind),
                Ok(claims) => Ok((header, claims)),
            },
        }
    }
}

/// Splits a token into its header, claims and signature segments. Nothing is
/// asked of the segments themselves.
pub fn split<'a>(token: &'a str) -> (r: Result<(&'a str, &'a str, &'a str), Error>)
    ensures
        match r {
            Ok((header, claims, signature)) => split_on(token@, '.') == seq![
                header@,
                claims@,
                signature@,
            ],
            Err(e) => split_on(token@, '.').len() != 3 && *e.kind() == ErrorKind::InvalidTokenShape,
        },
{
    broadcast use vstd::string::axiom_spec_iter;

    let n: usize = token.unicode_len();
    let mut first: usize = 0;
    let mut second: usize = 0;
    let mut dots: u8 = 0;
    let mut i: usize = 0;
    assert(split_on(token@.take(0), '.') =~~= seq![token@.take(0)]);
    for c in it: token.chars()
        invariant
            it.seq() == token@,
            n == token@.len(),
            i == it.index(),
            dots <= 3,
            dots == 0 ==> split_on(token@.take(i as int), '.') == seq![token@.take(i as int)],
            dots == 1 ==> first < i && split_on(token@.take(i as int), '.') == seq![
                token@.take(first as int),
                token@.subrange(first + 1, i as int),
            ],
            dots == 2 ==> first < second < i && split_on(token@.take(i as int), '.') == seq![
                token@.take(first as int),
                token@.subrange(first + 1, second as int),
                token@.subrange(second + 1, i as int),
            ],
            dots == 3 ==> split_on(token@.take(i as int), '.').len() > 3,
    {
        proof {
            let before = token@.take(i as int);
            let after = token@.take(i + 1);
            assert(after.drop_last() =~= before);
            assert(after.last() == c);
            let parts = split_on(before, '.');
            if c == '.' {
                assert(split_on(after, '.') == parts.push(Seq::<char>::empty()));
                if dots == 0 {
                    assert(split_on(after, '.') =~~= seq![
                        token@.take(i as int),
                        token@.subrange(i + 1, i + 1),
                    ]);
                } else if dots == 1 {
                    assert(split_on(after, '.') =~~= seq![
                        token@.take(first as int),
                        token@.subrange(first + 1, i as int),
                        token@.subrange(i + 1, i + 1),
                    ]);
                }
            } else {
                assert(split_on(after, '.') == parts.update(
                    parts.len() - 1,
                    parts.last().push(c),
                ));
                if dots == 0 {
                    assert(token@.take(i as int).push(c) =~= token@.take(i + 1));
                    assert(split_on(after, '.') =~~= seq![token@.take(i + 1)]);
                } else if dots == 1 {
                    assert(token@.subrange(first + 1, i as int).push(c) =~= token@.subrange(
                        first + 1,
                        i + 1,
                    ));
                    assert(split_on(after, '.') =~~= seq![
                        token@.take(first as int),
                        token@.subrange(first + 1, i + 1),
                    ]);
                } else if dots == 2 {
                    assert(token@.subrange(second + 1, i as int).push(c) =~= token@.subrange(
                        second + 1,
                        i + 1,
                    ));
                    assert(split_on(after, '.') =~~= seq![
                        token@.take(first as int),
                        token@.subrange(first + 1, second as int),
                        token@.subrange(second + 1, i + 1),
                    ]);
                }
            }
        }
        if c == '.' {
            if dots == 0 {
                first = i;
                dots = 1;
            } else if dots == 1 {
                second = i;
                dots = 2;
            } else {
                dots = 3;
            }
        }
        i += 1;
    }
    assert(token@.take(i as int) =~= token@);
    if dots != 2 {
        return Err(new_error(ErrorKind::InvalidTokenShape));
    }
    let header = token.substring_char(0, first);
    let claims = token.substring_char(first + 1, second);
    let signature = token.substring_char(second + 1, n);
    assert(token@.take(first as int) =~= token@.subrange(0, first as int));
    Ok((header, claims, signature))
}

/// Decode a JWT without any signature verification/validations.
pub fn decode(token: &str) -> (r: Result<TokenData<JwtClaims>, Error>)
    ensures
        match r {
            Ok(data) => decoding(token@) == Ok::<(HeaderView, ClaimsView), ErrorKind>(
                (data.header@, data.claims@),
            ),
            Err(e) => decoding(token@) == Err::<(HeaderView, ClaimsView), ErrorKind>(*e.kind()),
        },
        split_on(token@, '.').len() != 3 ==> r is Err && *r->Err_0.kind()
            == ErrorKind::InvalidTokenShape,
{
    let (header, claims, _) = split(token)?;
    let header = Header::from_encoded(header)?;
    let decoded_claims = from_jwt_part_claims(claims)?;
    Ok(TokenData { header, claims: decoded_claims })
}

/// A token that does not consist of three segments is rejected for its shape,
/// whatever its segments hold.
pub proof fn misshapen_token_is_rejected(token: Seq<char>)
    requires
        split_on(token, '.').len() != 3,
    ensures
        decoding(token) == Err::<(HeaderView, ClaimsView), ErrorKind>(ErrorKind::InvalidTokenShape),
{
}

/// A token of three segments decodes where its first two segments carry JSON
/// objects of which the first makes a header and the second makes claims. The
/// header then has the algorithm that its `alg` member names, and the claims
/// hold the members of the second object.
pub proof fn well_formed_token_decodes(token: Seq<char>)
    requires
        split_on(token, '.').len() == 3,
        segment_object(split_on(token, '.')[0]) is Ok,
        segment_object(split_on(token, '.')[1]) is Ok,
        header_of(header_members(segment_object(split_on(token, '.')[0])->Ok_0)) is Ok,
        claims_of(segment_object(split_on(token, '.')[1])->Ok_0) is Ok,
    ensures
        decoding(token) is Ok,
        decoding(token)->Ok_0.0.alg.spec_name() == optional_text(
            lookup(segment_object(split_on(token, '.')[0])->Ok_0, "alg"@),
        )->0,
        decoding(token)->Ok_0.1.members == segment_object(split_on(token, '.')[1])->Ok_0,
{
    names_are_distinct();
}

/// The segments of a token that is put together from three texts without a dot.
pub proof fn segments_of_joined(header: Seq<char>, claims: Seq<char>, signature: Seq<char>)
    requires
        !header.contains('.'),
        !claims.contains('.'),
        !signature.contains('.'),
    ensures
        split_on(header + seq!['.'] + claims + seq!['.'] + signature, '.') == seq![
            header,
            claims,
            signature,
        ],
{
    let tail = claims + seq!['.'] + signature;
    split_on_whole(header, '.');
    split_on_whole(claims, '.');
    split_on_whole(signature, '.');
    split_on_joined(claims, signature, '.');
    split_on_joined(header, tail, '.');
    assert(header + seq!['.'] + claims + seq!['.'] + signature =~= header + seq!['.'] + tail);
    assert(split_on(header, '.') + split_on(tail, '.') =~= seq![header, claims, signature]);
}

/// The signature is carried and never looked at: two tokens that differ in
/// nothing but their signature segments decode alike.
pub proof fn signature_is_not_looked_at(
    header: Seq<char>,
    claims: Seq<char>,
    signature: Seq<char>,
    other: Seq<char>,
)
    requires
        !header.contains('.'),
        !claims.contains('.'),
        !signature.contains('.'),
        !other.contains('.'),
    ensures
        decoding(header + seq!['.'] + claims + seq!['.'] + signature) == decoding(
            header + seq!['.'] + claims + seq!['.'] + other,
        ),
{
    segments_of_joined(header, claims, signature);
    segments_of_joined(header, claims, other);
}

} // verus!
