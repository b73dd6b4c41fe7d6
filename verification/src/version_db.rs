//! Bookkeeping of published releases of the node software: what is stored of
//! a release, and which stored release is offered as an update.
use vstd::prelude::*;
use crate::text::push_str;

verus! {

#[verifier::external_type_specification]
#[verifier::external_body]
pub struct ExChronoParseError(chrono::ParseError);

#[verifier::external_type_specification]
#[verifier::external_body]
pub struct ExUpdateError(self_update::errors::Error);

/// A date and time without a time zone, as seconds since 1970-01-01 00:00:00
/// and the nanoseconds past that second.
#[derive(Debug, Clone, Copy, PartialEq, Eq, Structural)]
pub struct NaiveTimestamp {
    pub secs: i64,
    pub nanos: u32,
}

/// How release dates are written by the release sources.
pub open spec fn release_date_format() -> Seq<char> {
    "%Y-%m-%d %H:%M:%S"@
}

/// What `chrono::NaiveDateTime::parse_from_str(text, format)` gives, as
/// seconds and nanoseconds past 1970-01-01 00:00:00; `None` where it fails.
pub uninterp spec fn naive_datetime_parse(text: Seq<char>, format: Seq<char>) -> Option<(i64, u32)>;

/// Calls `chrono::NaiveDateTime::parse_from_str`; its result is a function of
/// the text and the format, named `naive_datetime_parse`.
#[verifier::external_body]
fn parse_naive_datetime(text: &str, format: &str) -> (r: Result<NaiveTimestamp, chrono::ParseError>)
    ensures
        match r {
            Ok(t) => naive_datetime_parse(text@, format@) == Some((t.secs, t.nanos)),
            Err(_) => naive_datetime_parse(text@, format@) is None,
        },
{
    match chrono::NaiveDateTime::parse_from_str(text, format) {
        Ok(d) => Ok(NaiveTimestamp { secs: d.and_utc().timestamp(), nanos: d.and_utc().timestamp_subsec_nanos() }),
        Err(e) => Err(e),
    }
}

/// What `self_update::version::bump_is_greater(current, other)` gives: whether
/// `other` is a greater semantic version than `current`; `None` where either
/// does not parse as a semantic version.
pub uninterp spec fn version_bump_is_greater(current: Seq<char>, other: Seq<char>) -> Option<bool>;

/// Calls `self_update::version::bump_is_greater`; its result is a function of
/// the two version texts, named `version_bump_is_greater`.
#[verifier::external_body]
fn bump_is_greater(current: &str, other: &str) -> (r: Result<bool, self_update::errors::Error>)
    ensures
        match r {
            Ok(b) => version_bump_is_greater(current@, other@) == Some(b),
            Err(_) => version_bump_is_greater(current@, other@) is None,
        },
{
    self_update::version::bump_is_greater(current, other)
}

/// What `chrono::DateTime::from_timestamp(secs, nanos)` gives, taken as a
/// naive date-time (`naive_utc`) and written out by its `Display`
/// (`%Y-%m-%d %H:%M:%S` and the fraction of a second when it is not zero);
/// `None` where `from_timestamp` gives no date-time.
pub uninterp spec fn naive_datetime_text(secs: i64, nanos: u32) -> Option<Seq<char>>;

/// Calls `chrono::DateTime::from_timestamp` and writes the naive date-time
/// out; its result is a function of the two numbers, named
/// `naive_datetime_text`.
#[verifier::external_body]
fn format_naive_datetime(secs: i64, nanos: u32) -> (r: Option<String>)
    ensures
        match r {
            Some(t) => naive_datetime_text(secs, nanos) == Some(t@),
            None => naive_datetime_text(secs, nanos) is None,
        },
{
    match chrono::DateTime::from_timestamp(secs, nanos) {
        Some(d) => Some(d.naive_utc().to_string()),
        None => None,
    }
}

/// A release as the node stores it.
#[derive(Debug)]
pub struct Release {
    pub version: String,
    pub name: String,
    /// Whether the user was already told about the release.
    pub seen: bool,
    pub release_ts: NaiveTimestamp,
    pub insertion_ts: Option<NaiveTimestamp>,
    pub update_ts: Option<NaiveTimestamp>,
}

/// The text of a release: `{version} {name} released {date}`.
pub open spec fn release_text(version: Seq<char>, name: Seq<char>, date: Seq<char>) -> Seq<char> {
    version + " "@ + name + " released "@ + date
}

impl Release {
    /// The release as text: `{version} {name} released {date}`, or `None`
    /// when its timestamp is no date-time.
    pub fn text(&self) -> (r: Option<String>)
        ensures
            match naive_datetime_text(self.release_ts.secs, self.release_ts.nanos) {
                Some(date) => r matches Some(t) && t@ == release_text(self.version@, self.name@, date),
                None => r is None,
            },
    {
        match format_naive_datetime(self.release_ts.secs, self.release_ts.nanos) {
            Some(date) => {
                let mut t = self.version.clone();
                push_str(&mut t, " ");
                push_str(&mut t, self.name.as_str());
                push_str(&mut t, " released ");
                push_str(&mut t, date.as_str());
                Some(t)
            },
            None => None,
        }
    }
}

/// Why a published release could not be stored.
#[derive(Debug)]
pub enum ReleaseError {
    /// Its date is not written as `release_date_format` says.
    Date(chrono::ParseError),
}

/// The stored form of a release just published: not seen yet, dated by its
/// publication date, with the timestamps of the storage itself left to the
/// database.
pub open spec fn published_release(version: String, name: String, release_ts: NaiveTimestamp) -> Release {
    Release { version, name, seen: false, release_ts, insertion_ts: None, update_ts: None }
}

/// The stored form of a newly published release, whose date is text in
/// `release_date_format`.
pub fn release_from_published(version: String, name: String, date: &str) -> (r: Result<Release, ReleaseError>)
    ensures
        match naive_datetime_parse(date@, release_date_format()) {
            Some((secs, nanos)) => r == Ok::<Release, ReleaseError>(
                published_release(version, name, NaiveTimestamp { secs, nanos })),
            None => r is Err,
        },
{
    match parse_naive_datetime(date, "%Y-%m-%d %H:%M:%S") {
        Ok(release_ts) => Ok(Release { version, name, seen: false, release_ts, insertion_ts: None, update_ts: None }),
        Err(e) => Err(ReleaseError::Date(e)),
    }
}

/// Whether a stored release is offered as an update to a node running
/// `current_version`: only when its version is a greater semantic version.
/// A version that does not parse counts as no update.
pub open spec fn is_pending(current_version: Seq<char>, release_version: Seq<char>) -> bool {
    version_bump_is_greater(current_version, release_version) == Some(true)
}

/// Of the newest unseen stored release, if any, what is offered as an update
/// to a node running `current_version`.
pub fn pending_release(current_version: &str, newest_unseen: Option<Release>) -> (r: Option<Release>)
    ensures
        match newest_unseen {
            Some(rel) => r == (if is_pending(current_version@, rel.version@) { Some(rel) } else { None::<Release> }),
            None => r is None,
        },
{
    match newest_unseen {
        Some(rel) => {
            let newer = match bump_is_greater(current_version, rel.version.as_str()) {
                Ok(b) => b,
                Err(_) => false,
            };
            if newer {
                Some(rel)
            } else {
                None
            }
        },
        None => None,
    }
}

} // verus!
