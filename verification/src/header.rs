//! The header of a token.

use vstd::prelude::*;

use crate::algorithms::{name_round_trip, Algorithm};
use crate::errors::{new_error, Error, ErrorKind};
use crate::serialize::{
    b64_decode, from_utf8, get_member, is_optional_text, json_from_str, json_members, lookup,
    optional_text, read_optional, segment_object, JsonObject, Member, MemberView, Members,
};

verus! {

/// A basic JWT header, the alg defaults to HS256 and typ is
/// automatically set to `JWT`. All the other fields are optional.
#[derive(Debug, Clone, PartialEq, Eq, Hash)]
pub struct Header {
    /// The type tag, `JWT` by convention.
    pub typ: Option<String>,
    /// The algorithm the token claims to be signed with.
    pub alg: Algorithm,
    /// The content type.
    pub cty: Option<String>,
    /// The URL of the key set.
    pub jku: Option<String>,
    /// The key id.
    pub kid: Option<String>,
    /// The URL of the certificate.
    pub x5u: Option<String>,
    /// The thumbprint of the certificate.
    pub x5t: Option<String>,
}

/// A header as a mathematical value.
pub struct HeaderView {
    pub typ: Option<Seq<char>>,
    pub alg: Algorithm,
    pub cty: Option<Seq<char>>,
    pub jku: Option<Seq<char>>,
    pub kid: Option<Seq<char>>,
    pub x5u: Option<Seq<char>>,
    pub x5t: Option<Seq<char>>,
}

impl View for Header {
    type V = HeaderView;

    open spec fn view(&self) -> HeaderView {
        HeaderView {
            typ: self.typ.deep_view(),
            alg: self.alg,
            cty: self.cty.deep_view(),
            jku: self.jku.deep_view(),
            kid: self.kid.deep_view(),
            x5u: self.x5u.deep_view(),
            x5t: self.x5t.deep_view(),
        }
    }
}

/// The members of a header object that this library reads.
pub struct HeaderMembers {
    pub alg: Option<MemberView>,
    pub typ: Option<MemberView>,
    pub cty: Option<MemberView>,
    pub jku: Option<MemberView>,
    pub kid: Option<MemberView>,
    pub x5u: Option<MemberView>,
    pub x5t: Option<MemberView>,
}

/// The members that a JSON object offers for a header.
pub open spec fn header_members(members: Members) -> HeaderMembers {
    HeaderMembers {
        alg: lookup(members, "alg"@),
        typ: lookup(members, "typ"@),
        cty: lookup(members, "cty"@),
        jku: lookup(members, "jku"@),
        kid: lookup(members, "kid"@),
        x5u: lookup(members, "x5u"@),
        x5t: lookup(members, "x5t"@),
    }
}

/// The header that the members make, or the kind of error they lead to.
///
/// `alg` must be a string, and the string must name a supported algorithm.
/// Every other member may be absent or `null`; where present it must be a
/// string.
pub open spec fn header_of(m: HeaderMembers) -> Result<HeaderView, ErrorKind> {
    if !(m.alg matches Some(MemberView::Text(_))) {
        Err(ErrorKind::FormatError)
    } else if Algorithm::spec_from_name(optional_text(m.alg).unwrap()) is None {
        Err(ErrorKind::InvalidAlgorithmName)
    } else if !(is_optional_text(m.typ) && is_optional_text(m.cty) && is_optional_text(m.jku)
        && is_optional_text(m.kid) && is_optional_text(m.x5u) && is_optional_text(m.x5t)) {
        Err(ErrorKind::FormatError)
    } else {
        Ok(
            HeaderView {
                typ: optional_text(m.typ),
                alg: Algorithm::spec_from_name(optional_text(m.alg).unwrap()).unwrap(),
                cty: optional_text(m.cty),
                jku: optional_text(m.jku),
                kid: optional_text(m.kid),
                x5u: optional_text(m.x5u),
                x5t: optional_text(m.x5t),
            },
        )
    }
}

/// The header that a token segment carries, or the kind of error that stops
/// its decoding.
pub open spec fn segment_header(segment: Seq<char>) -> Result<HeaderView, ErrorKind> {
    match segment_object(segment) {
        Err(kind) => Err(kind),
        Ok(members) => header_of(header_members(members)),
    }
}

impl Header {
    /// Returns a JWT header with the algorithm given
    pub fn new(algorithm: Algorithm) -> (header: Self)
        ensures
            header@ == (HeaderView {
                typ: Some("JWT"@),
                alg: algorithm,
                cty: None,
                jku: None,
                kid: None,
                x5u: None,
                x5t: None,
            }),
    {
        Header {
            typ: Some(String::from_str("JWT")),
            alg: algorithm,
            cty: None,
            jku: None,
            kid: None,
            x5u: None,
            x5t: None,
        }
    }

    /// Maps the members of a header object onto a header.
    pub fn from_members(
        alg: Option<Member>,
        typ: Option<Member>,
        cty: Option<Member>,
        jku: Option<Member>,
        kid: Option<Member>,
        x5u: Option<Member>,
        x5t: Option<Member>,
    ) -> (r: Result<Self, Error>)
        ensures
            ({
                let offered = HeaderMembers {
                    alg: alg.deep_view(),
                    typ: typ.deep_view(),
                    cty: cty.deep_view(),
                    jku: jku.deep_view(),
                    kid: kid.deep_view(),
                    x5u: x5u.deep_view(),
                    x5t: x5t.deep_view(),
                };
                match r {
                    Ok(header) => header_of(offered) == Ok::<HeaderView, ErrorKind>(header@),
                    Err(e) => header_of(offered) == Err::<HeaderView, ErrorKind>(*e.kind()),
                }
            }),
    {
        let name = match alg {
            Some(Member::Text(name)) => name,
            _ => {
                return Err(new_error(ErrorKind::FormatError));
            },
        };
        let alg = match Algorithm::from_name(name.as_str()) {
            Some(alg) => alg,
            None => {
                return Err(new_error(ErrorKind::InvalidAlgorithmName));
            },
        };
        let typ = read_optional(typ)?;
        let cty = read_optional(cty)?;
        let jku = read_optional(jku)?;
        let kid = read_optional(kid)?;
        let x5u = read_optional(x5u)?;
        let x5t = read_optional(x5t)?;
        Ok(Header { typ, alg, cty, jku, kid, x5u, x5t })
    }

    /// Reads a header from a JSON object.
    pub fn from_object(object: &JsonObject) -> (r: Result<Self, Error>)
        ensures
            match r {
                Ok(header) => header_of(header_members(json_members(*object))) == Ok::<
                    HeaderView,
                    ErrorKind,
                >(header@),
                Err(e) => header_of(header_members(json_members(*object))) == Err::<
                    HeaderView,
                    ErrorKind,
                >(*e.kind()),
            },
    {
        Header::from_members(
            get_member(object, "alg"),
            get_member(object, "typ"),
            get_member(object, "cty"),
            get_member(object, "jku"),
            get_member(object, "kid"),
            get_member(object, "x5u"),
            get_member(object, "x5t"),
        )
    }

    /// Converts an encoded part into the Header struct if possible
    pub fn from_encoded(encoded_part: &str) -> (r: Result<Self, Error>)
        ensures
            match r {
                Ok(header) => segment_header(encoded_part@) == Ok::<HeaderView, ErrorKind>(header@),
                Err(e) => segment_header(encoded_part@) == Err::<HeaderView, ErrorKind>(*e.kind()),
            },
    {
        let decoded = b64_decode(encoded_part)?;
        let s = from_utf8(decoded)?;
        let object = json_from_str(s.as_str())?;
        Header::from_object(&object)
    }
}

impl Default for Header {
    /// Returns a JWT header using the default Algorithm, HS256
    fn default() -> (header: Self)
        ensures
            header@ == (HeaderView {
                typ: Some("JWT"@),
                alg: Algorithm::HS256,
                cty: None,
                jku: None,
                kid: None,
                x5u: None,
                x5t: None,
            }),
    {
        Header::new(Algorithm::default())
    }
}

/// The member that spells an optional text out: a string where there is one,
/// no member where there is none.
pub open spec fn text_member(text: Option<Seq<char>>) -> Option<MemberView> {
    match text {
        Some(words) => Some(MemberView::Text(words)),
        None => None,
    }
}

/// The members that spell a header out: the algorithm by its name, and a
/// string for each of the other fields that is set.
pub open spec fn members_of(header: HeaderView) -> HeaderMembers {
    HeaderMembers {
        alg: Some(MemberView::Text(header.alg.spec_name())),
        typ: text_member(header.typ),
        cty: text_member(header.cty),
        jku: text_member(header.jku),
        kid: text_member(header.kid),
        x5u: text_member(header.x5u),
        x5t: text_member(header.x5t),
    }
}

/// A header that is spelled out in members is read back from them as it was,
/// field for field.
pub proof fn header_survives_members(header: HeaderView)
    ensures
        header_of(members_of(header)) == Ok::<HeaderView, ErrorKind>(header),
{
    name_round_trip(header.alg);
    let read = header_of(members_of(header));
    assert(read is Ok);
    assert(read->Ok_0.typ == header.typ);
    assert(read->Ok_0.cty == header.cty);
    assert(read->Ok_0.jku == header.jku);
    assert(read->Ok_0.kid == header.kid);
    assert(read->Ok_0.x5u == header.x5u);
    assert(read->Ok_0.x5t == header.x5t);
}

} // verus!
