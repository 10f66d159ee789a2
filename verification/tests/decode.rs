use jwt_lookup::algorithms::Algorithm;
use jwt_lookup::decode::{decode, split, TokenData};
use jwt_lookup::errors::ErrorKind;
use jwt_lookup::header::Header;
use jwt_lookup::jwt::{derive_pattern, JwtClaims};

const HEADER: &str = "eyJhbGciOiJIUzI1NiIsInR5cCI6IkpXVCJ9";
const CLAIMS: &str = "eyJ1dWlkIjoiZWNmMGZiMzgtMWZlOS0xMWU4LWEyOTYtMDI0MmFjMTEwMDAyIiwianRpIjoiNjM1NDc3MTgtNjNlNy00M2NiLTgxNDMtZWM4MGM4ZTY4ZGY3Iiwicm9sZXMiOlsiY29udGVudC5jbGllbnQiLCJ0aGVyYXB5U2Vzc2lvbi5jbGllbnQiLCJ2aWRlb0NoYXQuY2xpZW50Il0sInBsYXRmb3JtIjoid2ViIn0";

fn segment(json: &str) -> String {
    base64::encode_config(json, base64::URL_SAFE_NO_PAD)
}

fn token(header: &str, claims: &str) -> String {
    format!("{}.{}.signature", segment(header), segment(claims))
}

#[test]
fn split_yields_the_three_segments() {
    assert_eq!(split("a.b.c").unwrap(), ("a", "b", "c"));
    assert_eq!(split("header.claims.signature").unwrap(), ("header", "claims", "signature"));
}

#[test]
fn split_allows_empty_segments() {
    assert_eq!(split("..").unwrap(), ("", "", ""));
    assert_eq!(split("a..").unwrap(), ("a", "", ""));
    assert_eq!(split(".b.").unwrap(), ("", "b", ""));
    assert_eq!(split("..c").unwrap(), ("", "", "c"));
}

#[test]
fn split_counts_characters_not_bytes() {
    assert_eq!(split("\u{e9}\u{e9}.\u{4e2d}.\u{1f600}x").unwrap(), ("\u{e9}\u{e9}", "\u{4e2d}", "\u{1f600}x"));
}

#[test]
fn split_rejects_any_other_number_of_segments() {
    for token in ["", "a", "a.b", ".", "a.b.c.d", "...", "a.b.c.", "....."] {
        let e = split(token).unwrap_err();
        assert_eq!(*e.kind(), ErrorKind::InvalidTokenShape);
    }
}

#[test]
fn decode_rejects_any_other_number_of_segments() {
    let one = HEADER.to_string();
    let two = format!("{}.{}", HEADER, CLAIMS);
    let four = format!("{}.{}.sig.more", HEADER, CLAIMS);
    for token in [String::new(), one, two, four] {
        let e = decode(&token).unwrap_err();
        assert_eq!(*e.kind(), ErrorKind::InvalidTokenShape);
    }
}

#[test]
fn decode_yields_header_and_claims() {
    let data: TokenData<JwtClaims> = decode(&format!("{}.{}.c2ln", HEADER, CLAIMS)).unwrap();
    assert_eq!(data.header, Header::new(Algorithm::HS256));
    assert_eq!(data.claims.uuid.as_deref(), Some("ecf0fb38-1fe9-11e8-a296-0242ac110002"));
    assert_eq!(data.claims.jti.as_deref(), Some("63547718-63e7-43cb-8143-ec80c8e68df7"));
}

#[test]
fn decode_does_not_look_at_the_signature() {
    for signature in ["", "c2ln", "not base64 at all !!", "===="] {
        let data = decode(&format!("{}.{}.{}", HEADER, CLAIMS, signature)).unwrap();
        assert_eq!(data.header.alg, Algorithm::HS256);
    }
}

#[test]
fn decode_accepts_each_supported_algorithm() {
    for name in [
        "HS256", "HS384", "HS512", "ES256", "ES384", "RS256", "RS384", "RS512", "PS256",
        "PS384", "PS512",
    ] {
        let header = format!("{{\"alg\":\"{}\"}}", name);
        let data = decode(&token(&header, "{}")).unwrap();
        assert_eq!(data.header.alg.name(), name);
        assert_eq!(data.header.typ, None);
    }
}

#[test]
fn decode_rejects_unknown_algorithm_by_name() {
    let e = decode(&token("{\"alg\":\"HS1\",\"typ\":\"JWT\"}", "{\"uuid\":\"u\",\"jti\":\"j\"}"))
        .unwrap_err();
    assert_eq!(*e.kind(), ErrorKind::InvalidAlgorithmName);
    assert_eq!(e.to_string(), "InvalidAlgorithmName");
}

#[test]
fn decode_reports_the_header_before_the_claims() {
    let e = decode(&token("{\"alg\":\"HS1\"}", "not json")).unwrap_err();
    assert_eq!(*e.kind(), ErrorKind::InvalidAlgorithmName);
    let e = decode(&token("{\"alg\":\"HS256\"}", "not json")).unwrap_err();
    assert_eq!(*e.kind(), ErrorKind::FormatError);
}

#[test]
fn decode_reports_encoding_errors() {
    let e = decode(&format!("{}=.{}.sig", HEADER, CLAIMS)).unwrap_err();
    assert_eq!(*e.kind(), ErrorKind::EncodingError);
    let e = decode(&format!("{}.{}!.sig", HEADER, CLAIMS)).unwrap_err();
    assert_eq!(*e.kind(), ErrorKind::EncodingError);
    let e = decode(&format!("{}.__4.sig", HEADER)).unwrap_err();
    assert_eq!(*e.kind(), ErrorKind::EncodingError);
}

#[test]
fn decode_reports_format_errors() {
    let e = decode(&token("[]", "{}")).unwrap_err();
    assert_eq!(*e.kind(), ErrorKind::FormatError);
    let e = decode(&token("{\"alg\":\"HS256\"}", "{\"uuid\":[\"u\"]}")).unwrap_err();
    assert_eq!(*e.kind(), ErrorKind::FormatError);
    let e = decode(&token("{\"alg\":\"HS256\"}", "{\"jti\":true}")).unwrap_err();
    assert_eq!(*e.kind(), ErrorKind::FormatError);
}

#[test]
fn encoded_claims_come_back_field_for_field() {
    let cases = [
        ("u-1", "j-1", "web"),
        ("ecf0fb38-1fe9-11e8-a296-0242ac110002", "63547718-63e7-43cb-8143-ec80c8e68df7", "ios"),
        ("\u{e9}t\u{e9}", "with \"quotes\" and \\ slash", ""),
        ("a:b", "*", "x"),
    ];
    for (uuid, jti, platform) in cases {
        let mut object = serde_json::Map::new();
        object.insert(String::from("uuid"), serde_json::Value::String(String::from(uuid)));
        object.insert(String::from("jti"), serde_json::Value::String(String::from(jti)));
        object.insert(
            String::from("platform"),
            serde_json::Value::String(String::from(platform)),
        );
        let json = serde_json::to_string(&object).unwrap();
        let data = decode(&token("{\"alg\":\"ES256\"}", &json)).unwrap();
        assert_eq!(data.claims.uuid.as_deref(), Some(uuid));
        assert_eq!(data.claims.jti.as_deref(), Some(jti));
        assert_eq!(data.claims.object, object);
    }
}

#[test]
fn encoded_header_comes_back_field_for_field() {
    let mut object = serde_json::Map::new();
    object.insert(String::from("alg"), serde_json::Value::String(String::from("PS384")));
    object.insert(String::from("typ"), serde_json::Value::String(String::from("JWT")));
    object.insert(String::from("kid"), serde_json::Value::String(String::from("key-7")));
    let json = serde_json::to_string(&object).unwrap();
    let data = decode(&token(&json, "{}")).unwrap();
    assert_eq!(
        data.header,
        Header {
            typ: Some(String::from("JWT")),
            alg: Algorithm::PS384,
            cty: None,
            jku: None,
            kid: Some(String::from("key-7")),
            x5u: None,
            x5t: None,
        }
    );
}

#[test]
fn decoded_token_leads_to_its_lookup_pattern() {
    let data = decode(&format!("{}.{}.c2ln", HEADER, CLAIMS)).unwrap();
    assert_eq!(
        derive_pattern(&data.claims).unwrap(),
        "*:*:*:ecf0fb38-1fe9-11e8-a296-0242ac110002:63547718-63e7-43cb-8143-ec80c8e68df7:*"
    );
}
