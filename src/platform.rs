use vstd::prelude::*;

verus! {

/// The RFC 3339 text that chrono writes for an instant given in milliseconds
/// since the Unix epoch, in UTC.
pub uninterp spec fn rfc3339_text(millis: i64) -> Seq<char>;

/// Whether the regular expression `pattern` matches somewhere in `haystack`.
pub uninterp spec fn regex_matches(pattern: Seq<char>, haystack: Seq<char>) -> bool;

/// Relies on chrono's `Utc::now` and `DateTime::timestamp_millis`: the current
/// time in milliseconds since the Unix epoch. Nothing is promised of its value.
#[verifier::external_body]
pub fn clock_millis() -> (r: i64) {
    chrono::Utc::now().timestamp_millis()
}

/// Relies on chrono's `DateTime::from_timestamp_millis` and
/// `DateTime::to_rfc3339`: the RFC 3339 text of an instant, or `None` where
/// the instant lies outside chrono's range.
#[verifier::external_body]
pub fn rfc3339_of_millis(millis: i64) -> (r: Option<String>)
    ensures
        r matches Some(t) ==> t@ == rfc3339_text(millis),
{
    match chrono::DateTime::from_timestamp_millis(millis) {
        Some(d) => Some(d.to_rfc3339()),
        None => None,
    }
}

/// Relies on uuid's `Uuid::new_v4` and its `Display`: a random version 4 UUID
/// in hyphenated form, which is 36 characters long.
#[verifier::external_body]
pub fn fresh_secret() -> (r: String)
    ensures
        r@.len() == 36,
{
    uuid::Uuid::new_v4().to_string()
}

/// Relies on regex's `Regex::new` and `Regex::is_match`: `None` when `pattern`
/// does not compile, else whether it matches somewhere in `haystack`.
#[verifier::external_body]
pub fn pattern_matches(pattern: &str, haystack: &str) -> (r: Option<bool>)
    ensures
        r matches Some(b) ==> b == regex_matches(pattern@, haystack@),
{
    match regex::Regex::new(pattern) {
        Ok(re) => Some(re.is_match(haystack)),
        Err(_) => None,
    }
}

} // verus!
