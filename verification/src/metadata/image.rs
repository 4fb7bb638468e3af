//! Image metadata extraction: embedded structured tags from the image
//! container, with filesystem-timestamp fallback.

use vstd::prelude::*;
use crate::metadata::{fallback_info, opt_view, sanitize_model, sanitized_model, FileInfo};
use crate::timestamp::{parse_datetime, parse_datetime_spec, Timestamp};

verus! {

/// The date-tag and model-tag texts of a parsed buffer, as plain values.
pub type TagTexts = (Option<String>, Option<String>);

/// The view of the optional pair of tag texts.
pub open spec fn tags_view(r: Option<TagTexts>) -> Option<(Option<Seq<char>>, Option<Seq<char>>)> {
    match r {
        Some(p) => Some(
            (
                match p.0 {
                    Some(s) => Some(s@),
                    None => None,
                },
                match p.1 {
                    Some(s) => Some(s@),
                    None => None,
                },
            ),
        ),
        None => None,
    }
}

/// What parsing the embedded tag container of an image buffer yields:
/// nothing when the container does not parse, else the display texts of
/// the original capture date/time tag and the camera model tag of the
/// primary image, each where present. It depends on the buffer alone.
pub uninterp spec fn exif_tags_of(bytes: Seq<u8>) -> Option<(Option<Seq<char>>, Option<Seq<char>>)>;

/// Relies on exif::Reader::read_from_container, exif::Exif::get_field and
/// exif::Field::display_value: parsing an in-memory buffer and reading
/// the two tag display texts is a pure function of the buffer.
#[verifier::external_body]
fn read_exif_tags(bytes: &[u8]) -> (r: Option<TagTexts>)
    ensures
        tags_view(r) == exif_tags_of(bytes@),
{
    let parsed = exif::Reader::new().read_from_container(&mut std::io::Cursor::new(bytes)).ok()?;
    let date = parsed.get_field(exif::Tag::DateTimeOriginal, exif::In::PRIMARY).map(
        |f| f.display_value().to_string(),
    );
    let model = parsed.get_field(exif::Tag::Model, exif::In::PRIMARY).map(
        |f| f.display_value().to_string(),
    );
    Some((date, model))
}

/// The capture timestamp an image buffer yields: the date tag's text when
/// the container parses (unset if the tag is absent or does not spell a
/// valid timestamp), else the filesystem creation timestamp.
pub open spec fn image_date(
    tags: Option<(Option<Seq<char>>, Option<Seq<char>>)>,
    created: Option<Timestamp>,
) -> Option<Timestamp> {
    match tags {
        Some(p) => match p.0 {
            Some(s) => parse_datetime_spec(s),
            None => None,
        },
        None => created,
    }
}

/// The device model an image buffer yields: the model tag's text,
/// sanitized, when the container parses, else the sentinel.
pub open spec fn image_model(tags: Option<(Option<Seq<char>>, Option<Seq<char>>)>) -> Seq<char> {
    match tags {
        Some(p) => sanitized_model(p.1),
        None => "UnknownModel"@,
    }
}

/// Builds the record from the two raw tag texts: the date tag must spell
/// a valid `YYYY-MM-DD HH:MM:SS` timestamp or the timestamp stays unset,
/// and the model text is sanitized, with the sentinel as default.
pub fn from_tags(date_text: Option<&str>, model_text: Option<&str>) -> (r: FileInfo)
    ensures
        r.date == (match date_text {
            Some(s) => parse_datetime_spec(s@),
            None => None::<Timestamp>,
        }),
        r.model@ == sanitized_model(opt_view(model_text)),
        r.wf(),
{
    let date = match date_text {
        Some(s) => parse_datetime(s),
        None => None,
    };
    let model = sanitize_model(model_text);
    FileInfo { date, model }
}

/// Extracts capture metadata from an image buffer: the embedded tags when
/// the container parses, else the supplied filesystem creation timestamp
/// and the sentinel model. Never fails; the flag reports whether the
/// embedded container parsed, so the caller can log the fallback.
pub fn extract(bytes: &[u8], created: Option<Timestamp>) -> (r: (FileInfo, bool))
    requires
        created matches Some(t) ==> t.wf(),
    ensures
        r.0.date == image_date(exif_tags_of(bytes@), created),
        r.0.model@ == image_model(exif_tags_of(bytes@)),
        r.0.wf(),
        r.1 == (exif_tags_of(bytes@) is Some),
{
    match read_exif_tags(bytes) {
        Some(pair) => {
            let date_text = match &pair.0 {
                Some(s) => Some(s.as_str()),
                None => None,
            };
            let model_text = match &pair.1 {
                Some(s) => Some(s.as_str()),
                None => None,
            };
            (from_tags(date_text, model_text), true)
        },
        None => (fallback_info(created), false),
    }
}

} // verus!
