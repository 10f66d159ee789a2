//! The codec: from a token segment to bytes, to text, to a JSON object.
//!
//! Base64 and JSON are read by the `base64` and `serde_json` crates. What
//! they return is not restated here: each result has a name, and the
//! contracts of this module say how the results are put together.

use vstd::prelude::*;
use vstd::utf8::{decode_utf8, valid_utf8};

use crate::errors::{new_error, Error, ErrorKind};
use crate::jwt::{claims_of, ClaimsView, JwtClaims};

verus! {

/// `base64::DecodeError`, of which only its words for the failure are used.
#[verifier::external_type_specification]
#[verifier::external_body]
pub struct ExDecodeError(base64::DecodeError);

/// `std::string::FromUtf8Error`, of which only its words for the failure are used.
#[verifier::external_type_specification]
#[verifier::external_body]
pub struct ExFromUtf8Error(std::string::FromUtf8Error);

/// `serde_json::Value`, which is carried along and never looked into.
#[verifier::external_type_specification]
#[verifier::external_body]
pub struct ExJsonValue(serde_json::Value);

/// `serde_json::Map`, whose members are read through `get_member` alone.
#[verifier::external_type_specification]
#[verifier::external_body]
#[verifier::reject_recursive_types(K)]
#[verifier::reject_recursive_types(V)]
pub struct ExJsonMap<K, V>(serde_json::Map<K, V>);

/// A JSON object as `serde_json` holds it.
pub type JsonObject = serde_json::Map<String, serde_json::Value>;

/// What a JSON object holds under one member name, as far as this library
/// reads it: headers and claims are flat, and only their text members count.
#[derive(Debug, Clone, PartialEq, Eq)]
pub enum Member {
    /// The JSON value `null`.
    Null,
    /// A JSON string.
    Text(String),
    /// A number, a boolean, an array or an object.
    Other,
}

/// The mathematical counterpart of `Member`.
pub enum MemberView {
    Null,
    Text(Seq<char>),
    Other,
}

impl View for Member {
    type V = MemberView;

    open spec fn view(&self) -> MemberView {
        match self {
            Member::Null => MemberView::Null,
            Member::Text(text) => MemberView::Text(text@),
            Member::Other => MemberView::Other,
        }
    }
}

impl DeepView for Member {
    type V = MemberView;

    open spec fn deep_view(&self) -> MemberView {
        self@
    }
}

/// The members of a JSON object, by name.
pub type Members = Map<Seq<char>, MemberView>;

/// The bytes that `base64::decode_config` yields for `input` under
/// `base64::URL_SAFE_NO_PAD`, or `None` where it reports an error.
pub uninterp spec fn base64_url_decoding(input: Seq<char>) -> Option<Seq<u8>>;

/// The members of the JSON object that `serde_json::from_str` reads from
/// `text`, or `None` where it reports an error.
pub uninterp spec fn json_object(text: Seq<char>) -> Option<Members>;

/// The members that a `serde_json::Map` holds.
pub uninterp spec fn json_members(object: JsonObject) -> Members;

/// The member that `members` holds under `name`, if any.
pub open spec fn lookup(members: Members, name: Seq<char>) -> Option<MemberView> {
    if members.contains_key(name) {
        Some(members[name])
    } else {
        None
    }
}

/// The bytes of a token segment: those of its base64 decoding, unless the
/// segment holds a padding character, which no segment may.
pub open spec fn segment_bytes(input: Seq<char>) -> Option<Seq<u8>> {
    if input.contains('=') {
        None
    } else {
        base64_url_decoding(input)
    }
}

/// The JSON object that a token segment carries, or the kind of error that
/// stops its decoding: first base64, then UTF-8, then JSON.
pub open spec fn segment_object(input: Seq<char>) -> Result<Members, ErrorKind> {
    match segment_bytes(input) {
        None => Err(ErrorKind::EncodingError),
        Some(bytes) => if !valid_utf8(bytes) {
            Err(ErrorKind::EncodingError)
        } else {
            match json_object(decode_utf8(bytes)) {
                None => Err(ErrorKind::FormatError),
                Some(members) => Ok(members),
            }
        },
    }
}

/// Calls `base64::decode_config` with `base64::URL_SAFE_NO_PAD`. The crate
/// decodes the URL-safe alphabet and, in this version, also accepts trailing
/// padding; the contract only gives the outcome its name.
#[verifier::external_body]
fn decode_url_safe(input: &str) -> (r: Result<Vec<u8>, base64::DecodeError>)
    ensures
        match r {
            Ok(bytes) => base64_url_decoding(input@) == Some(bytes@),
            Err(_) => base64_url_decoding(input@) is None,
        },
{
    base64::decode_config(input, base64::URL_SAFE_NO_PAD)
}

/// `String::from_utf8` succeeds on exactly the byte sequences that are valid
/// UTF-8 and then holds the characters they encode.
pub assume_specification[ std::string::String::from_utf8 ](bytes: Vec<u8>) -> (r: Result<
    String,
    std::string::FromUtf8Error,
>)
    ensures
        r is Ok <==> valid_utf8(bytes@),
        r matches Ok(text) ==> text@ == decode_utf8(bytes@),
;

/// Calls `serde_json::from_str` for a `serde_json::Map`. The contract names
/// what the object holds; an error comes back as the words `serde_json` has
/// for it.
#[verifier::external_body]
fn parse_object(text: &str) -> (r: Result<JsonObject, String>)
    ensures
        match r {
            Ok(object) => json_object(text@) == Some(json_members(object)),
            Err(_) => json_object(text@) is None,
        },
{
    serde_json::from_str(text).map_err(|e: serde_json::Error| e.to_string())
}

/// Calls `serde_json::Map::get` and tells the variants of the value apart: a
/// string is handed out as text, `null` as such, any other value as `Other`.
#[verifier::external_body]
pub(crate) fn get_member(object: &JsonObject, name: &str) -> (m: Option<Member>)
    ensures
        m.deep_view() == lookup(json_members(*object), name@),
{
    match object.get(name) {
        None => None,
        Some(serde_json::Value::Null) => Some(Member::Null),
        Some(serde_json::Value::String(text)) => Some(Member::Text(text.clone())),
        Some(_) => Some(Member::Other),
    }
}

/// Whether the text holds the padding character `=`.
fn has_padding(input: &str) -> (found: bool)
    ensures
        found == input@.contains('='),
{
    broadcast use vstd::string::axiom_spec_iter;

    let mut found = false;
    for c in it: input.chars()
        invariant
            it.seq() == input@,
            found == exists|i: int| 0 <= i < it.index() && input@[i] == '=',
    {
        if c == '=' {
            found = true;
        }
    }
    found
}

/// Decodes a token segment: base64 in the URL-safe alphabet, without padding.
pub fn b64_decode(input: &str) -> (r: Result<Vec<u8>, Error>)
    ensures
        match r {
            Ok(bytes) => segment_bytes(input@) == Some(bytes@),
            Err(e) => segment_bytes(input@) is None && *e.kind() == ErrorKind::EncodingError,
        },
{
    if has_padding(input) {
        return Err(new_error(ErrorKind::EncodingError));
    }
    match decode_url_safe(input) {
        Ok(bytes) => Ok(bytes),
        Err(cause) => Err(Error::with_detail(ErrorKind::EncodingError, cause.to_string())),
    }
}

/// Reads bytes as UTF-8 text.
pub fn from_utf8(input: Vec<u8>) -> (r: Result<String, Error>)
    ensures
        match r {
            Ok(text) => valid_utf8(input@) && text@ == decode_utf8(input@),
            Err(e) => !valid_utf8(input@) && *e.kind() == ErrorKind::EncodingError,
        },
{
    match String::from_utf8(input) {
        Ok(text) => Ok(text),
        Err(cause) => Err(Error::with_detail(ErrorKind::EncodingError, cause.to_string())),
    }
}

/// Parses text as a JSON object.
pub fn json_from_str(utf8: &str) -> (r: Result<JsonObject, Error>)
    ensures
        match r {
            Ok(object) => json_object(utf8@) == Some(json_members(object)),
            Err(e) => json_object(utf8@) is None && *e.kind() == ErrorKind::FormatError,
        },
{
    match parse_object(utf8) {
        Ok(object) => Ok(object),
        Err(words) => Err(Error::with_detail(ErrorKind::FormatError, words)),
    }
}

/// Whether a member may stand for an optional text: it is absent, `null` or a string.
pub open spec fn is_optional_text(m: Option<MemberView>) -> bool {
    !(m matches Some(MemberView::Other))
}

/// The text of an optional member: that of a string, none for an absent or `null` one.
pub open spec fn optional_text(m: Option<MemberView>) -> Option<Seq<char>> {
    match m {
        Some(MemberView::Text(text)) => Some(text),
        _ => None,
    }
}

/// Reads a member that may be left out. A value that is neither a string nor
/// `null` does not fit.
pub fn read_optional(m: Option<Member>) -> (r: Result<Option<String>, Error>)
    ensures
        match r {
            Ok(text) => is_optional_text(m.deep_view()) && text.deep_view() == optional_text(
                m.deep_view(),
            ),
            Err(e) => !is_optional_text(m.deep_view()) && *e.kind() == ErrorKind::FormatError,
        },
{
    match m {
        None => Ok(None),
        Some(Member::Null) => Ok(None),
        Some(Member::Text(text)) => Ok(Some(text)),
        Some(Member::Other) => Err(new_error(ErrorKind::FormatError)),
    }
}

/// The claims that a token segment carries, or the kind of error that stops
/// its decoding.
pub open spec fn segment_claims(segment: Seq<char>) -> Result<ClaimsView, ErrorKind> {
    match segment_object(segment) {
        Err(kind) => Err(kind),
        Ok(members) => claims_of(members),
    }
}

/// Decodes from base64 and deserializes from JSON to a struct.
pub fn from_jwt_part_claims(encoded: &str) -> (r: Result<JwtClaims, Error>)
    ensures
        match r {
            Ok(claims) => segment_claims(encoded@) == Ok::<ClaimsView, ErrorKind>(claims@),
            Err(e) => segment_claims(encoded@) == Err::<ClaimsView, ErrorKind>(*e.kind()),
        },
{
    let decoded = b64_decode(encoded)?;
    let s = from_utf8(decoded)?;
    let object = json_from_str(s.as_str())?;
    JwtClaims::from_object(object)
}

} // verus!
