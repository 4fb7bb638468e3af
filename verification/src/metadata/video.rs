//! Video metadata extraction: the format-level tag dictionary obtained by
//! probing the container, with filesystem-timestamp fallback.

use vstd::prelude::*;
use crate::metadata::{fallback_info, opt_view, sanitize_model, sanitized_model, FileInfo};
use crate::timestamp::Timestamp;

use chrono::{Datelike, Timelike};

verus! {

/// The fields the pipeline reads out of a probed tag dictionary, as plain
/// values: the device-model tags in their fallback order, where each is
/// present with a textual value, and the raw creation-time text.
pub struct VideoProbe {
    pub model: Option<String>,
    pub apple_model: Option<String>,
    pub android_model: Option<String>,
    pub make: Option<String>,
    pub creation_time: Option<String>,
}

/// The ordered fallback chain over the model tags: the first present tag
/// wins.
pub open spec fn model_tag(p: VideoProbe) -> Option<Seq<char>> {
    match p.model {
        Some(s) => Some(s@),
        None => match p.apple_model {
            Some(s) => Some(s@),
            None => match p.android_model {
                Some(s) => Some(s@),
                None => match p.make {
                    Some(s) => Some(s@),
                    None => None,
                },
            },
        },
    }
}

fn first_tag(p: &VideoProbe) -> (r: Option<&str>)
    ensures
        opt_view(r) == model_tag(*p),
{
    match &p.model {
        Some(s) => Some(s.as_str()),
        None => match &p.apple_model {
            Some(s) => Some(s.as_str()),
            None => match &p.android_model {
                Some(s) => Some(s.as_str()),
                None => match &p.make {
                    Some(s) => Some(s.as_str()),
                    None => None,
                },
            },
        },
    }
}

/// What parsing a creation-time text as RFC 3339 and converting it to
/// naive UTC yields; it depends on the text alone.
pub uninterp spec fn rfc3339_utc_of(s: Seq<char>) -> Option<Timestamp>;

/// Relies on chrono::DateTime::parse_from_rfc3339 and the naive-UTC
/// accessors: the parse depends on the text alone, and chrono represents
/// only valid calendar timestamps.
#[verifier::external_body]
fn parse_rfc3339_utc(s: &str) -> (r: Option<Timestamp>)
    ensures
        r == rfc3339_utc_of(s@),
        r matches Some(t) ==> t.wf(),
{
    match chrono::DateTime::parse_from_rfc3339(s) {
        Ok(dt) => {
            let n = dt.naive_utc();
            let (year, month, day) = (n.year() as u16, n.month() as u8, n.day() as u8);
            let (hour, minute, second) = (n.hour() as u8, n.minute() as u8, n.second() as u8);
            Some(Timestamp { year, month, day, hour, minute, second })
        },
        Err(_) => None,
    }
}

/// The capture timestamp a probed dictionary yields: its creation-time
/// text parsed as RFC 3339, taken to naive UTC; unset when the text is
/// absent or does not parse.
pub open spec fn video_date(p: VideoProbe) -> Option<Timestamp> {
    match p.creation_time {
        Some(s) => rfc3339_utc_of(s@),
        None => None,
    }
}

/// Extracts capture metadata from a probed tag dictionary: the first
/// present model tag wins and is sanitized, and the creation time is
/// parsed as RFC 3339. A failed probe falls back to the supplied
/// filesystem creation timestamp and the sentinel model. Never fails.
pub fn extract(probe: Option<&VideoProbe>, created: Option<Timestamp>) -> (r: FileInfo)
    requires
        created matches Some(t) ==> t.wf(),
    ensures
        probe matches Some(p) ==> r.date == video_date(*p) && r.model@ == sanitized_model(
            model_tag(*p),
        ),
        probe is None ==> r.date == created && r.model@ == "UnknownModel"@,
        r.wf(),
{
    match probe {
        Some(p) => {
            let model = sanitize_model(first_tag(p));
            let date = match &p.creation_time {
                Some(s) => parse_rfc3339_utc(s.as_str()),
                None => None,
            };
            FileInfo { date, model }
        },
        None => fallback_info(created),
    }
}

} // verus!
