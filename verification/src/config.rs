//! The settings of the service. Each is read from the environment by the
//! program; what was found there is handed in, and a missing or empty value
//! gives way to the default.

use vstd::prelude::*;

use crate::text::same_text;

verus! {

/// The value that a setting takes: the configured one unless it is missing or empty.
pub open spec fn setting(configured: Option<Seq<char>>, default: Seq<char>) -> Seq<char> {
    match configured {
        Some(value) => if value.len() > 0 {
            value
        } else {
            default
        },
        None => default,
    }
}

fn or_default(configured: Option<String>, default: &str) -> (value: String)
    ensures
        value@ == setting(configured.deep_view(), default@),
{
    match configured {
        Some(value) => {
            if value.as_str().is_empty() {
                String::from_str(default)
            } else {
                value
            }
        },
        None => String::from_str(default),
    }
}

/// The address the service binds to, `127.0.0.1:3000` by default.
pub fn api_uri(configured: Option<String>) -> (uri: String)
    ensures
        uri@ == setting(configured.deep_view(), "127.0.0.1:3000"@),
{
    or_default(configured, "127.0.0.1:3000")
}

/// The URI of the store, `redis://127.0.0.1:6379` by default.
pub fn redis_uri(configured: Option<String>) -> (uri: String)
    ensures
        uri@ == setting(configured.deep_view(), "redis://127.0.0.1:6379"@),
{
    or_default(configured, "redis://127.0.0.1:6379")
}

/// The environment tag, `development` by default.
pub fn environment(configured: Option<String>) -> (tag: String)
    ensures
        tag@ == setting(configured.deep_view(), "development"@),
{
    or_default(configured, "development")
}

/// Whether the fixtures are entered into the store at startup: only in development.
pub fn seeds_fixtures(environment: &str) -> (seeds: bool)
    ensures
        seeds == (environment@ == "development"@),
{
    same_text(environment, "development")
}

} // verus!
