use vstd::prelude::*;
use vstd::string::*;

verus! {

/// What the `config` parameter of a showcase request's query string maps
/// to, as serde_qs reads it: a function of the query string and the key
/// alone.
pub uninterp spec fn qs_param(query: Seq<char>, key: Seq<char>) -> Option<Seq<char>>;

/// Whether the WHATWG URL parser accepts `s`: a function of the text alone.
pub uninterp spec fn url_parses(s: Seq<char>) -> bool;

/// Relies on `serde_qs::from_str` to read the query string as a string map;
/// the value under `key`, if any, is `qs_param(query, key)`.
#[verifier::external_body]
fn query_param(query: &str, key: &str) -> (r: Option<String>)
    ensures
        (r is Some <==> qs_param(query@, key@) is Some),
        r matches Some(v) ==> Some(v@) == qs_param(query@, key@),
{
    match serde_qs::from_str::<std::collections::HashMap<String, String>>(query) {
        Ok(m) => m.get(key).cloned(),
        Err(_) => None,
    }
}

/// Relies on `url::Url::parse`: whether the text is a parseable absolute
/// URL is a function of the text alone.
#[verifier::external_body]
fn is_parseable_url(s: &str) -> (r: bool)
    ensures
        r == url_parses(s@),
{
    match url::Url::parse(s) {
        Ok(_) => true,
        Err(_) => false,
    }
}

/// Where a showcase request's configuration comes from.
pub enum ConfigSource {
    /// The query string carries no `config` parameter.
    Missing,
    /// The parameter is present but is not a parseable URL while reading
    /// from the file system is disabled; the offending text is kept.
    Invalid(String),
    /// The location to load the configuration from.
    Load(String),
}

/// Decide the configuration source of one showcase request from its query
/// string: the `config` parameter must be present, and must be a parseable
/// URL unless file-system sources are enabled.
pub fn resolve_config_source(query: Option<&str>, enable_fs: bool) -> (r: ConfigSource)
    ensures
        query is None ==> r is Missing,
        query matches Some(q) ==> match qs_param(q@, "config"@) {
            None => r is Missing,
            Some(u) => {
                &&& !enable_fs && !url_parses(u) ==> (r matches ConfigSource::Invalid(s)
                    && s@ == u)
                &&& (enable_fs || url_parses(u)) ==> (r matches ConfigSource::Load(s)
                    && s@ == u)
            },
        },
{
    match query {
        None => ConfigSource::Missing,
        Some(q) => match query_param(q, "config") {
            None => ConfigSource::Missing,
            Some(u) => {
                if !enable_fs && !is_parseable_url(u.as_str()) {
                    ConfigSource::Invalid(u)
                } else {
                    ConfigSource::Load(u)
                }
            },
        },
    }
}

/// The request-level error message a rejected configuration source is
/// reported with; a loadable source carries none.
pub fn config_error_message(source: &ConfigSource) -> (r: Option<String>)
    ensures
        *source is Missing ==> (r matches Some(m) && m@ == "No Config URL specified"@),
        *source is Invalid ==> (r matches Some(m) && m@ == "Invalid Config URL specified"@),
        *source is Load ==> r is None,
{
    match source {
        ConfigSource::Missing => Some("No Config URL specified".to_owned()),
        ConfigSource::Invalid(_) => Some("Invalid Config URL specified".to_owned()),
        ConfigSource::Load(_) => None,
    }
}

/// The message reported when the configuration could not be read from its
/// source: the reader's own description, behind a fixed prefix.
pub fn read_failure_message(detail: &str) -> (r: String)
    ensures
        r@ == "Failed to read config: "@ + detail@,
{
    let mut msg = "Failed to read config: ".to_owned();
    msg.append(detail);
    msg
}

} // verus!
