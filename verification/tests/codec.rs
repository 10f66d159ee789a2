use jwt_lookup::algorithms::Algorithm;
use jwt_lookup::errors::ErrorKind;
use jwt_lookup::header::Header;
use jwt_lookup::serialize::{
    b64_decode, from_jwt_part_claims, from_utf8, json_from_str, read_optional, Member,
};

#[test]
fn b64_decode_reads_unpadded_url_safe_text() {
    assert_eq!(b64_decode("aGk").unwrap(), b"hi".to_vec());
    assert_eq!(b64_decode("").unwrap(), Vec::<u8>::new());
    assert_eq!(b64_decode("ABCD").unwrap(), vec![0x00, 0x10, 0x83]);
}

#[test]
fn b64_decode_uses_the_url_safe_alphabet() {
    assert_eq!(b64_decode("-_--").unwrap(), vec![0xfb, 0xff, 0xbe]);
    let standard = b64_decode("+/++").unwrap_err();
    assert_eq!(*standard.kind(), ErrorKind::EncodingError);
}

#[test]
fn b64_decode_rejects_padding() {
    let e = b64_decode("aGk=").unwrap_err();
    assert_eq!(*e.kind(), ErrorKind::EncodingError);
    assert_eq!(*b64_decode("QQ==").unwrap_err().kind(), ErrorKind::EncodingError);
    assert_eq!(*b64_decode("=").unwrap_err().kind(), ErrorKind::EncodingError);
}

#[test]
fn b64_decode_rejects_characters_outside_the_alphabet() {
    assert_eq!(*b64_decode("a.b").unwrap_err().kind(), ErrorKind::EncodingError);
    assert_eq!(*b64_decode("aG k").unwrap_err().kind(), ErrorKind::EncodingError);
    assert_eq!(*b64_decode("aGk\u{e9}").unwrap_err().kind(), ErrorKind::EncodingError);
}

#[test]
fn b64_decode_rejects_impossible_lengths_and_trailing_bits() {
    // One character cannot hold a byte.
    assert_eq!(*b64_decode("a").unwrap_err().kind(), ErrorKind::EncodingError);
    assert_eq!(*b64_decode("aGkxa").unwrap_err().kind(), ErrorKind::EncodingError);
    // "aGl" would leave set bits behind the last whole byte.
    assert_eq!(*b64_decode("aGl").unwrap_err().kind(), ErrorKind::EncodingError);
}

#[test]
fn b64_decode_error_carries_the_cause() {
    let e = b64_decode("a.b").unwrap_err();
    assert_eq!(e.detail(), Some("Invalid byte 46, offset 1."));
    assert_eq!(e.to_string(), "Encoding error: Invalid byte 46, offset 1.");
}

#[test]
fn from_utf8_reads_valid_text() {
    assert_eq!(from_utf8(b"hello".to_vec()).unwrap(), "hello");
    assert_eq!(from_utf8(vec![0xc3, 0xa9]).unwrap(), "\u{e9}");
    assert_eq!(from_utf8(Vec::new()).unwrap(), "");
}

#[test]
fn from_utf8_rejects_invalid_bytes() {
    assert_eq!(*from_utf8(vec![0xff, 0xfe]).unwrap_err().kind(), ErrorKind::EncodingError);
    assert_eq!(*from_utf8(vec![0xc3]).unwrap_err().kind(), ErrorKind::EncodingError);
}

#[test]
fn json_from_str_reads_an_object() {
    let object = json_from_str("{\"alg\":\"HS256\",\"n\":1}").unwrap();
    assert_eq!(object.len(), 2);
    assert_eq!(object.get("alg").and_then(|v| v.as_str()), Some("HS256"));
    assert_eq!(object.get("n").and_then(|v| v.as_u64()), Some(1));
}

#[test]
fn json_from_str_rejects_what_is_no_object() {
    assert_eq!(*json_from_str("not json").unwrap_err().kind(), ErrorKind::FormatError);
    assert_eq!(*json_from_str("[1,2]").unwrap_err().kind(), ErrorKind::FormatError);
    assert_eq!(*json_from_str("\"text\"").unwrap_err().kind(), ErrorKind::FormatError);
    assert_eq!(*json_from_str("{\"a\":").unwrap_err().kind(), ErrorKind::FormatError);
    assert_eq!(*json_from_str("").unwrap_err().kind(), ErrorKind::FormatError);
    assert_eq!(*json_from_str("null").unwrap_err().kind(), ErrorKind::FormatError);
    assert_eq!(*json_from_str("7").unwrap_err().kind(), ErrorKind::FormatError);
    assert_eq!(*json_from_str("{} {}").unwrap_err().kind(), ErrorKind::FormatError);
}

#[test]
fn json_from_str_keeps_the_last_of_repeated_members() {
    let object = json_from_str("{\"a\":\"first\",\"a\":\"second\"}").unwrap();
    assert_eq!(object.len(), 1);
    assert_eq!(object.get("a").and_then(|v| v.as_str()), Some("second"));
}

#[test]
fn json_from_str_error_carries_the_cause() {
    let e = json_from_str("[1,2]").unwrap_err();
    assert_eq!(e.detail(), Some("invalid type: sequence, expected a map at line 1 column 0"));
    assert_eq!(
        e.to_string(),
        "Format error: invalid type: sequence, expected a map at line 1 column 0"
    );
}

#[test]
fn read_optional_takes_text_null_and_absence() {
    assert_eq!(read_optional(None).unwrap(), None);
    assert_eq!(read_optional(Some(Member::Null)).unwrap(), None);
    assert_eq!(
        read_optional(Some(Member::Text(String::from("JWT")))).unwrap(),
        Some(String::from("JWT"))
    );
    assert_eq!(*read_optional(Some(Member::Other)).unwrap_err().kind(),
        ErrorKind::FormatError
    );
}

#[test]
fn header_new_sets_type_and_algorithm() {
    let header = Header::new(Algorithm::RS256);
    assert_eq!(header.typ, Some(String::from("JWT")));
    assert_eq!(header.alg, Algorithm::RS256);
    assert_eq!(header.cty, None);
    assert_eq!(header.jku, None);
    assert_eq!(header.kid, None);
    assert_eq!(header.x5u, None);
    assert_eq!(header.x5t, None);
}

#[test]
fn header_default_is_hs256() {
    assert_eq!(Header::default(), Header::new(Algorithm::HS256));
    assert_eq!(Algorithm::default(), Algorithm::HS256);
}

#[test]
fn header_from_members_maps_every_member() {
    let text = |s: &str| Some(Member::Text(String::from(s)));
    let header = Header::from_members(
        text("PS512"),
        text("JWT"),
        text("c"),
        text("j"),
        text("k"),
        text("u"),
        text("t"),
    )
    .unwrap();
    assert_eq!(header.alg, Algorithm::PS512);
    assert_eq!(header.typ.as_deref(), Some("JWT"));
    assert_eq!(header.cty.as_deref(), Some("c"));
    assert_eq!(header.jku.as_deref(), Some("j"));
    assert_eq!(header.kid.as_deref(), Some("k"));
    assert_eq!(header.x5u.as_deref(), Some("u"));
    assert_eq!(header.x5t.as_deref(), Some("t"));
}

#[test]
fn header_from_members_needs_a_text_algorithm() {
    let e = Header::from_members(None, None, None, None, None, None, None).unwrap_err();
    assert_eq!(*e.kind(), ErrorKind::FormatError);
    let e = Header::from_members(Some(Member::Null), None, None, None, None, None, None)
        .unwrap_err();
    assert_eq!(*e.kind(), ErrorKind::FormatError);
    let e = Header::from_members(Some(Member::Other), None, None, None, None, None, None)
        .unwrap_err();
    assert_eq!(*e.kind(), ErrorKind::FormatError);
}

#[test]
fn header_from_members_rejects_unknown_algorithm_before_other_members() {
    let e = Header::from_members(
        Some(Member::Text(String::from("HS1"))),
        Some(Member::Other),
        None,
        None,
        None,
        None,
        None,
    )
    .unwrap_err();
    assert_eq!(*e.kind(), ErrorKind::InvalidAlgorithmName);
}

#[test]
fn header_from_members_rejects_a_member_of_the_wrong_type() {
    let alg = || Some(Member::Text(String::from("HS256")));
    for slot in 0..6 {
        let mut members = vec![None, None, None, None, None, None];
        members[slot] = Some(Member::Other);
        let x5t = members.pop().unwrap();
        let x5u = members.pop().unwrap();
        let kid = members.pop().unwrap();
        let jku = members.pop().unwrap();
        let cty = members.pop().unwrap();
        let typ = members.pop().unwrap();
        let e = Header::from_members(alg(), typ, cty, jku, kid, x5u, x5t).unwrap_err();
        assert_eq!(*e.kind(), ErrorKind::FormatError);
    }
}

#[test]
fn header_from_object_reads_the_members_by_name() {
    let object = json_from_str(
        "{\"typ\":\"JWT\",\"alg\":\"RS384\",\"cty\":\"c\",\"jku\":\"j\",\"kid\":\"k\",\"x5u\":\"u\",\"x5t\":\"t\",\"more\":[1]}",
    )
    .unwrap();
    let header = Header::from_object(&object).unwrap();
    assert_eq!(
        header,
        Header {
            typ: Some(String::from("JWT")),
            alg: Algorithm::RS384,
            cty: Some(String::from("c")),
            jku: Some(String::from("j")),
            kid: Some(String::from("k")),
            x5u: Some(String::from("u")),
            x5t: Some(String::from("t")),
        }
    );
}

#[test]
fn header_from_encoded_reads_a_segment() {
    let header = Header::from_encoded("eyJhbGciOiJIUzI1NiIsInR5cCI6IkpXVCJ9").unwrap();
    assert_eq!(header, Header::new(Algorithm::HS256));
    let full = Header::from_encoded(
        "eyJ0eXAiOiJKV1QiLCJhbGciOiJSUzM4NCIsImN0eSI6ImMiLCJqa3UiOiJqIiwia2lkIjoiayIsIng1dSI6InUiLCJ4NXQiOiJ0In0",
    )
    .unwrap();
    assert_eq!(full.alg, Algorithm::RS384);
    assert_eq!(full.kid.as_deref(), Some("k"));
}

#[test]
fn header_from_encoded_treats_null_as_absent() {
    let header = Header::from_encoded("eyJhbGciOiJIUzI1NiIsInR5cCI6bnVsbH0").unwrap();
    assert_eq!(header.typ, None);
    assert_eq!(header.alg, Algorithm::HS256);
}

#[test]
fn header_with_unknown_algorithm_is_rejected_by_name() {
    // {"alg":"HS1","typ":"JWT"}
    let e = Header::from_encoded("eyJhbGciOiJIUzEiLCJ0eXAiOiJKV1QifQ").unwrap_err();
    assert_eq!(*e.kind(), ErrorKind::InvalidAlgorithmName);
}

#[test]
fn header_from_encoded_reports_each_stage() {
    // Not base64.
    assert_eq!(*Header::from_encoded("a.b").unwrap_err().kind(), ErrorKind::EncodingError);
    // Padded.
    assert_eq!(*Header::from_encoded("eyJhbGciOiJIUzI1NiIsInR5cCI6IkpXVCJ9==").unwrap_err().kind(),
        ErrorKind::EncodingError
    );
    // Bytes that are not UTF-8.
    assert_eq!(*Header::from_encoded("__4").unwrap_err().kind(), ErrorKind::EncodingError);
    // Text that is not JSON.
    assert_eq!(*Header::from_encoded("bm90IGpzb24").unwrap_err().kind(), ErrorKind::FormatError);
    // JSON that is no object.
    assert_eq!(*Header::from_encoded("WzEsMl0").unwrap_err().kind(), ErrorKind::FormatError);
    // No algorithm.
    assert_eq!(*Header::from_encoded("eyJ0eXAiOiJKV1QifQ").unwrap_err().kind(), ErrorKind::FormatError);
    // An algorithm that is a number.
    assert_eq!(*Header::from_encoded("eyJhbGciOjI1Nn0").unwrap_err().kind(), ErrorKind::FormatError);
    // A type tag that is a number.
    assert_eq!(*Header::from_encoded("eyJhbGciOiJIUzI1NiIsInR5cCI6N30").unwrap_err().kind(),
        ErrorKind::FormatError
    );
}

#[test]
fn claims_segment_yields_both_identifiers_and_the_object() {
    let claims = from_jwt_part_claims(
        "eyJ1dWlkIjoiZWNmMGZiMzgtMWZlOS0xMWU4LWEyOTYtMDI0MmFjMTEwMDAyIiwianRpIjoiNjM1NDc3MTgtNjNlNy00M2NiLTgxNDMtZWM4MGM4ZTY4ZGY3Iiwicm9sZXMiOlsiY29udGVudC5jbGllbnQiLCJ0aGVyYXB5U2Vzc2lvbi5jbGllbnQiLCJ2aWRlb0NoYXQuY2xpZW50Il0sInBsYXRmb3JtIjoid2ViIn0",
    )
    .unwrap();
    assert_eq!(claims.uuid.as_deref(), Some("ecf0fb38-1fe9-11e8-a296-0242ac110002"));
    assert_eq!(claims.jti.as_deref(), Some("63547718-63e7-43cb-8143-ec80c8e68df7"));
    assert_eq!(claims.object.get("platform").and_then(|v| v.as_str()), Some("web"));
    assert_eq!(
        claims.object.get("roles").and_then(|v| v.as_array()).map(|a| a.len()),
        Some(3)
    );
}

#[test]
fn claims_segment_may_lack_the_identifiers() {
    let claims = from_jwt_part_claims("e30").unwrap();
    assert_eq!(claims.uuid, None);
    assert_eq!(claims.jti, None);
    assert!(claims.object.is_empty());
}

#[test]
fn claims_segment_with_an_identifier_of_the_wrong_type_is_rejected() {
    // {"uuid":5,"jti":"x"}
    let e = from_jwt_part_claims("eyJ1dWlkIjo1LCJqdGkiOiJ4In0").unwrap_err();
    assert_eq!(*e.kind(), ErrorKind::FormatError);
}

#[test]
fn claims_segment_reports_each_stage() {
    assert_eq!(*from_jwt_part_claims("e30=").unwrap_err().kind(), ErrorKind::EncodingError);
    assert_eq!(*from_jwt_part_claims("*").unwrap_err().kind(), ErrorKind::EncodingError);
    assert_eq!(*from_jwt_part_claims("__4").unwrap_err().kind(), ErrorKind::EncodingError);
    assert_eq!(*from_jwt_part_claims("bm90IGpzb24").unwrap_err().kind(), ErrorKind::FormatError);
    assert_eq!(*from_jwt_part_claims("WzEsMl0").unwrap_err().kind(), ErrorKind::FormatError);
}

#[test]
fn algorithm_names_round_trip() {
    let all = [
        (Algorithm::HS256, "HS256"),
        (Algorithm::HS384, "HS384"),
        (Algorithm::HS512, "HS512"),
        (Algorithm::ES256, "ES256"),
        (Algorithm::ES384, "ES384"),
        (Algorithm::RS256, "RS256"),
        (Algorithm::RS384, "RS384"),
        (Algorithm::RS512, "RS512"),
        (Algorithm::PS256, "PS256"),
        (Algorithm::PS384, "PS384"),
        (Algorithm::PS512, "PS512"),
    ];
    for (algorithm, name) in all {
        assert_eq!(algorithm.name(), name);
        assert_eq!(Algorithm::from_name(name), Some(algorithm));
    }
}

#[test]
fn algorithm_from_name_rejects_other_names() {
    assert_eq!(Algorithm::from_name("HS1"), None);
    assert_eq!(Algorithm::from_name("hs256"), None);
    assert_eq!(Algorithm::from_name("ES512"), None);
    assert_eq!(Algorithm::from_name(""), None);
    assert_eq!(Algorithm::from_name("HS2566"), None);
    assert_eq!(Algorithm::from_name("none"), None);
}
