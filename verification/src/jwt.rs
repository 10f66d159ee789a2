//! Claims, the cache keys written for them and the pattern they are looked up by.

use vstd::prelude::*;

use crate::errors::{new_error, Error, ErrorKind};
use crate::text::{
    glob_matches, glob_matches_itself, glob_matches_joined, glob_star_matches_all, split_on,
    split_on_joined, split_on_whole,
};
use crate::serialize::{
    get_member, is_optional_text, json_members, lookup, optional_text, read_optional, JsonObject,
    MemberView, Members,
};

verus! {

/// The claims under which a session is entered into the cache.
#[derive(Debug, Clone, PartialEq, Eq)]
pub struct JwtPayload {
    pub roles: [String; 3],
    pub uuid: String,
    pub jti: String,
    pub platform: String,
}

/// A payload as a mathematical value.
pub struct PayloadView {
    pub roles: Seq<Seq<char>>,
    pub uuid: Seq<char>,
    pub jti: Seq<char>,
    pub platform: Seq<char>,
}

impl View for JwtPayload {
    type V = PayloadView;

    open spec fn view(&self) -> PayloadView {
        PayloadView {
            roles: seq![self.roles[0]@, self.roles[1]@, self.roles[2]@],
            uuid: self.uuid@,
            jti: self.jti@,
            platform: self.platform@,
        }
    }
}

/// The claims of a decoded token. Only the two identifiers that the lookup
/// key is derived from are read; the object they came in is carried along
/// for the caller.
#[derive(Debug, PartialEq)]
pub struct JwtClaims {
    /// The session identifier.
    pub uuid: Option<String>,
    /// The token identifier.
    pub jti: Option<String>,
    /// The claims object as it was presented.
    pub object: JsonObject,
}

/// Claims as a mathematical value.
pub struct ClaimsView {
    pub uuid: Option<Seq<char>>,
    pub jti: Option<Seq<char>>,
    pub members: Members,
}

impl View for JwtClaims {
    type V = ClaimsView;

    open spec fn view(&self) -> ClaimsView {
        ClaimsView {
            uuid: self.uuid.deep_view(),
            jti: self.jti.deep_view(),
            members: json_members(self.object),
        }
    }
}

/// The claims that a JSON object makes, or the kind of error it leads to.
/// Each identifier may be absent or `null`; where present it must be a string.
pub open spec fn claims_of(members: Members) -> Result<ClaimsView, ErrorKind> {
    let uuid = lookup(members, "uuid"@);
    let jti = lookup(members, "jti"@);
    if is_optional_text(uuid) && is_optional_text(jti) {
        Ok(ClaimsView { uuid: optional_text(uuid), jti: optional_text(jti), members })
    } else {
        Err(ErrorKind::FormatError)
    }
}

/// The cache key of a payload:
/// `users:development:<role>;<role>;<role>:<uuid>:<jti>:<platform>`.
pub open spec fn cache_key(payload: PayloadView) -> Seq<char> {
    "users:development:"@ + payload.roles[0] + ";"@ + payload.roles[1] + ";"@ + payload.roles[2]
        + ":"@ + payload.uuid + ":"@ + payload.jti + ":"@ + payload.platform
}

/// The lookup pattern for a session and a token identifier:
/// `*:*:*:<uuid>:<jti>:*`.
pub open spec fn pattern_of(uuid: Seq<char>, jti: Seq<char>) -> Seq<char> {
    "*:*:*:"@ + uuid + ":"@ + jti + ":*"@
}

/// The lookup pattern of claims, which both identifiers must be present and
/// not empty for.
pub open spec fn lookup_pattern(claims: ClaimsView) -> Result<Seq<char>, ErrorKind> {
    match (claims.uuid, claims.jti) {
        (Some(uuid), Some(jti)) => if uuid.len() > 0 && jti.len() > 0 {
            Ok(pattern_of(uuid, jti))
        } else {
            Err(ErrorKind::MissingField)
        },
        _ => Err(ErrorKind::MissingField),
    }
}

impl JwtClaims {
    /// Reads claims from a JSON object, which is kept.
    pub fn from_object(object: JsonObject) -> (r: Result<Self, Error>)
        ensures
            match r {
                Ok(claims) => claims_of(json_members(object)) == Ok::<ClaimsView, ErrorKind>(
                    claims@,
                ) && claims.object == object,
                Err(e) => claims_of(json_members(object)) == Err::<ClaimsView, ErrorKind>(
                    *e.kind(),
                ),
            },
    {
        let uuid = read_optional(get_member(&object, "uuid"))?;
        let jti = read_optional(get_member(&object, "jti"))?;
        Ok(JwtClaims { uuid, jti, object })
    }
}

/// Derives the pattern under which the claims' session is looked up.
pub fn derive_pattern(claims: &JwtClaims) -> (r: Result<String, Error>)
    ensures
        match r {
            Ok(pattern) => lookup_pattern(claims@) == Ok::<Seq<char>, ErrorKind>(pattern@),
            Err(e) => lookup_pattern(claims@) == Err::<Seq<char>, ErrorKind>(*e.kind()),
        },
{
    match (&claims.uuid, &claims.jti) {
        (Some(uuid), Some(jti)) => {
            if uuid.as_str().is_empty() || jti.as_str().is_empty() {
                return Err(new_error(ErrorKind::MissingField));
            }
            let mut pattern = String::from_str("*:*:*:");
            pattern.append(uuid.as_str());
            pattern.append(":");
            pattern.append(jti.as_str());
            pattern.append(":*");
            Ok(pattern)
        },
        _ => Err(new_error(ErrorKind::MissingField)),
    }
}

/// Writes the cache key of a payload.
pub fn stringify_jwt(jwt: &JwtPayload) -> (key: String)
    ensures
        key@ == cache_key(jwt@),
{
    let mut key = String::from_str("users:development:");
    key.append(jwt.roles[0].as_str());
    key.append(";");
    key.append(jwt.roles[1].as_str());
    key.append(";");
    key.append(jwt.roles[2].as_str());
    key.append(":");
    key.append(jwt.uuid.as_str());
    key.append(":");
    key.append(jwt.jti.as_str());
    key.append(":");
    key.append(jwt.platform.as_str());
    key
}

/// The roles that both fixture sessions have.
pub open spec fn fixture_roles() -> Seq<Seq<char>> {
    seq!["content.client"@, "therapySession.client"@, "videoChat.client"@]
}

/// The session that the fixtures enter for lookups that are to succeed.
pub open spec fn first_fixture() -> PayloadView {
    PayloadView {
        roles: fixture_roles(),
        uuid: "ecf0fb38-1fe9-11e8-a296-0242ac110002"@,
        jti: "63547718-63e7-43cb-8143-ec80c8e68df7"@,
        platform: "web"@,
    }
}

/// The second session that the fixtures enter.
pub open spec fn second_fixture() -> PayloadView {
    PayloadView {
        roles: fixture_roles(),
        uuid: "ddb1a8af-90d2-45be-9459-da410606553e"@,
        jti: "42d14c82-739b-4c60-bdaa-94ba5b7de00a"@,
        platform: "web"@,
    }
}

/// The cache keys that local development starts with.
pub fn get_jwt_fixtures() -> (keys: Vec<String>)
    ensures
        keys.len() == 2,
        keys[0]@ == cache_key(first_fixture()),
        keys[1]@ == cache_key(second_fixture()),
{
    let valid_token = JwtPayload {
        roles: [
            String::from_str("content.client"),
            String::from_str("therapySession.client"),
            String::from_str("videoChat.client"),
        ],
        uuid: String::from_str("ecf0fb38-1fe9-11e8-a296-0242ac110002"),
        jti: String::from_str("63547718-63e7-43cb-8143-ec80c8e68df7"),
        platform: String::from_str("web"),
    };
    let invalid_token = JwtPayload {
        roles: [
            String::from_str("content.client"),
            String::from_str("therapySession.client"),
            String::from_str("videoChat.client"),
        ],
        uuid: String::from_str("ddb1a8af-90d2-45be-9459-da410606553e"),
        jti: String::from_str("42d14c82-739b-4c60-bdaa-94ba5b7de00a"),
        platform: String::from_str("web"),
    };
    assert(valid_token@.roles =~= fixture_roles());
    assert(invalid_token@.roles =~= fixture_roles());
    let mut keys: Vec<String> = Vec::new();
    keys.push(stringify_jwt(&valid_token));
    keys.push(stringify_jwt(&invalid_token));
    keys
}

/// The pattern is made of the two identifiers alone: claims that agree on
/// them are looked up by the same pattern, or fail alike.
pub proof fn pattern_depends_on_identifiers(a: ClaimsView, b: ClaimsView)
    requires
        a.uuid == b.uuid,
        a.jti == b.jti,
    ensures
        lookup_pattern(a) == lookup_pattern(b),
{
}

/// A pattern has six fields between colons: three `*`, the session
/// identifier, the token identifier and a last `*`. This holds where neither
/// identifier holds a colon of its own.
pub proof fn pattern_has_six_fields(uuid: Seq<char>, jti: Seq<char>)
    requires
        !uuid.contains(':'),
        !jti.contains(':'),
    ensures
        split_on(pattern_of(uuid, jti), ':') == seq![
            seq!['*'],
            seq!['*'],
            seq!['*'],
            uuid,
            jti,
            seq!['*'],
        ],
{
    reveal_strlit("*:*:*:");
    reveal_strlit(":");
    reveal_strlit(":*");
    let star = seq!['*'];
    let colon = seq![':'];
    assert(!star.contains(':'));
    let from_token = jti + colon + star;
    let from_session = uuid + colon + from_token;
    let from_roles = star + colon + from_session;
    let from_tag = star + colon + from_roles;
    let whole = star + colon + from_tag;
    assert(pattern_of(uuid, jti) =~= whole);
    split_on_whole(star, ':');
    split_on_whole(uuid, ':');
    split_on_whole(jti, ':');
    split_on_joined(jti, star, ':');
    split_on_joined(uuid, from_token, ':');
    split_on_joined(star, from_session, ':');
    split_on_joined(star, from_roles, ':');
    split_on_joined(star, from_tag, ':');
    assert(split_on(whole, ':') =~= seq![star, star, star, uuid, jti, star]);
}

/// The pattern derived from a session's identifiers matches the cache key
/// written for that session, whatever its roles and platform are.
pub proof fn pattern_matches_cache_key(payload: PayloadView)
    ensures
        glob_matches(pattern_of(payload.uuid, payload.jti), cache_key(payload)),
{
    reveal_strlit("*:*:*:");
    reveal_strlit(":");
    reveal_strlit(":*");
    reveal_strlit(";");
    reveal_strlit("users:development:");
    let star = seq!['*'];
    let colon = seq![':'];
    let namespace = seq!['u', 's', 'e', 'r', 's'];
    let tag = seq!['d', 'e', 'v', 'e', 'l', 'o', 'p', 'm', 'e', 'n', 't'];
    let roles = payload.roles[0] + seq![';'] + payload.roles[1] + seq![';'] + payload.roles[2];
    glob_star_matches_all(namespace);
    glob_star_matches_all(tag);
    glob_star_matches_all(roles);
    glob_star_matches_all(payload.platform);
    glob_matches_itself(colon);
    glob_matches_itself(payload.uuid);
    glob_matches_itself(payload.jti);
    // Field by field, from the last to the first.
    let platform_pattern = colon + star;
    let platform_key = colon + payload.platform;
    glob_matches_joined(colon, colon, star, payload.platform);
    let token_pattern = payload.jti + platform_pattern;
    let token_key = payload.jti + platform_key;
    glob_matches_joined(payload.jti, payload.jti, platform_pattern, platform_key);
    let session_pattern = payload.uuid + (colon + token_pattern);
    let session_key = payload.uuid + (colon + token_key);
    glob_matches_joined(colon, colon, token_pattern, token_key);
    glob_matches_joined(payload.uuid, payload.uuid, colon + token_pattern, colon + token_key);
    let roles_pattern = star + (colon + session_pattern);
    let roles_key = roles + (colon + session_key);
    glob_matches_joined(colon, colon, session_pattern, session_key);
    glob_matches_joined(star, roles, colon + session_pattern, colon + session_key);
    let tag_pattern = star + (colon + roles_pattern);
    let tag_key = tag + (colon + roles_key);
    glob_matches_joined(colon, colon, roles_pattern, roles_key);
    glob_matches_joined(star, tag, colon + roles_pattern, colon + roles_key);
    let whole_pattern = star + (colon + tag_pattern);
    let whole_key = namespace + (colon + tag_key);
    glob_matches_joined(colon, colon, tag_pattern, tag_key);
    glob_matches_joined(star, namespace, colon + tag_pattern, colon + tag_key);
    assert(pattern_of(payload.uuid, payload.jti) =~= whole_pattern);
    assert(cache_key(payload) =~= whole_key);
}

/// Claims whose object holds both identifiers as strings are read with
/// exactly those identifiers, and with every member of the object.
pub proof fn claims_keep_identifiers(members: Members, uuid: Seq<char>, jti: Seq<char>)
    requires
        lookup(members, "uuid"@) == Some(MemberView::Text(uuid)),
        lookup(members, "jti"@) == Some(MemberView::Text(jti)),
    ensures
        claims_of(members) == Ok::<ClaimsView, ErrorKind>(
            ClaimsView { uuid: Some(uuid), jti: Some(jti), members },
        ),
{
}

/// A cache key has six fields between colons: the namespace `users`, the
/// environment tag, the roles joined by semicolons, the session identifier,
/// the token identifier and the platform. This holds where none of the
/// payload's texts holds a colon of its own.
pub proof fn cache_key_has_six_fields(payload: PayloadView)
    requires
        !payload.roles[0].contains(':'),
        !payload.roles[1].contains(':'),
        !payload.roles[2].contains(':'),
        !payload.uuid.contains(':'),
        !payload.jti.contains(':'),
        !payload.platform.contains(':'),
    ensures
        split_on(cache_key(payload), ':') == seq![
            seq!['u', 's', 'e', 'r', 's'],
            seq!['d', 'e', 'v', 'e', 'l', 'o', 'p', 'm', 'e', 'n', 't'],
            payload.roles[0] + seq![';'] + payload.roles[1] + seq![';'] + payload.roles[2],
            payload.uuid,
            payload.jti,
            payload.platform,
        ],
{
    reveal_strlit(":");
    reveal_strlit(";");
    reveal_strlit("users:development:");
    let colon = seq![':'];
    let namespace = seq!['u', 's', 'e', 'r', 's'];
    let tag = seq!['d', 'e', 'v', 'e', 'l', 'o', 'p', 'm', 'e', 'n', 't'];
    let roles = payload.roles[0] + seq![';'] + payload.roles[1] + seq![';'] + payload.roles[2];
    assert(!namespace.contains(':'));
    assert(!tag.contains(':'));
    assert(!roles.contains(':')) by {
        if roles.contains(':') {
            let k: int = choose|k: int| 0 <= k < roles.len() && roles[k] == ':';
            let a: nat = payload.roles[0].len();
            let b: nat = payload.roles[1].len();
            if k < a {
                assert(payload.roles[0][k] == ':');
            } else if k == a {
            } else if k < a + 1 + b {
                assert(payload.roles[1][k - a - 1] == ':');
            } else if k == a + 1 + b {
            } else {
                assert(payload.roles[2][k - a - b - 2] == ':');
            }
        }
    }
    let from_token = payload.jti + colon + payload.platform;
    let from_session = payload.uuid + colon + from_token;
    let from_roles = roles + colon + from_session;
    let from_tag = tag + colon + from_roles;
    let whole = namespace + colon + from_tag;
    assert(cache_key(payload) =~= whole);
    split_on_whole(namespace, ':');
    split_on_whole(tag, ':');
    split_on_whole(roles, ':');
    split_on_whole(payload.uuid, ':');
    split_on_whole(payload.jti, ':');
    split_on_whole(payload.platform, ':');
    split_on_joined(payload.jti, payload.platform, ':');
    split_on_joined(payload.uuid, from_token, ':');
    split_on_joined(roles, from_session, ':');
    split_on_joined(tag, from_roles, ':');
    split_on_joined(namespace, from_tag, ':');
    assert(split_on(whole, ':') =~= seq![
        namespace,
        tag,
        roles,
        payload.uuid,
        payload.jti,
        payload.platform,
    ]);
}

} // verus!
