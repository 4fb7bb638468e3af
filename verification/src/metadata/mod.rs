//! The metadata-to-path pipeline: extension classification, the metadata
//! record, and the derivation of the canonical filename and the
//! date-partitioned output path.

pub mod image;
pub mod video;

use vstd::prelude::*;
use vstd::string::{StrSliceExecFns, StringExecFns};
use crate::hashing::{content_hash, hex8_of, xxh3_64_of};
use crate::text::{dec_pad, eq_lower, lower_seq, push_char, push_padded};
use crate::text::lemma_lower_seq_idempotent;
use crate::timestamp::{push_stamp, stamp_seq, Timestamp};

verus! {

/// Which extraction strategy a file extension selects.
#[derive(Clone, Copy, PartialEq, Eq, Structural, Debug)]
pub enum MediaKind {
    Image,
    Video,
    Unsupported,
}

/// The fixed allow-list of raster and raw photo extensions, lower case.
pub open spec fn is_image_ext(s: Seq<char>) -> bool {
    ||| s == "jpg"@
    ||| s == "jpeg"@
    ||| s == "png"@
    ||| s == "webp"@
    ||| s == "heic"@
    ||| s == "heif"@
    ||| s == "avif"@
    ||| s == "tiff"@
    ||| s == "tif"@
    ||| s == "bmp"@
    ||| s == "cr2"@
    ||| s == "nef"@
    ||| s == "arw"@
    ||| s == "dng"@
    ||| s == "orf"@
    ||| s == "srw"@
}

/// The fixed allow-list of video container extensions, lower case.
pub open spec fn is_video_ext(s: Seq<char>) -> bool {
    ||| s == "mp4"@
    ||| s == "m4v"@
    ||| s == "mov"@
    ||| s == "qt"@
    ||| s == "mkv"@
    ||| s == "avi"@
    ||| s == "wmv"@
    ||| s == "flv"@
    ||| s == "webm"@
    ||| s == "mts"@
    ||| s == "m2ts"@
    ||| s == "mxf"@
    ||| s == "ogv"@
    ||| s == "3gp"@
}

/// What classification yields: the extension is lowercased, then matched
/// against the two fixed allow-lists; anything else is unsupported.
pub open spec fn classify_spec(s: Seq<char>) -> MediaKind {
    if is_image_ext(lower_seq(s)) {
        MediaKind::Image
    } else if is_video_ext(lower_seq(s)) {
        MediaKind::Video
    } else {
        MediaKind::Unsupported
    }
}

/// Maps a file extension to its extraction strategy, case-insensitively.
pub fn classify(extension: &str) -> (k: MediaKind)
    ensures
        k == classify_spec(extension@),
{
    if eq_lower(extension, "jpg") || eq_lower(extension, "jpeg") || eq_lower(extension, "png")
        || eq_lower(extension, "webp") || eq_lower(extension, "heic") || eq_lower(
        extension,
        "heif",
    ) || eq_lower(extension, "avif") || eq_lower(extension, "tiff") || eq_lower(extension, "tif")
        || eq_lower(extension, "bmp") || eq_lower(extension, "cr2") || eq_lower(extension, "nef")
        || eq_lower(extension, "arw") || eq_lower(extension, "dng") || eq_lower(extension, "orf")
        || eq_lower(extension, "srw") {
        MediaKind::Image
    } else if eq_lower(extension, "mp4") || eq_lower(extension, "m4v") || eq_lower(
        extension,
        "mov",
    ) || eq_lower(extension, "qt") || eq_lower(extension, "mkv") || eq_lower(extension, "avi")
        || eq_lower(extension, "wmv") || eq_lower(extension, "flv") || eq_lower(extension, "webm")
        || eq_lower(extension, "mts") || eq_lower(extension, "m2ts") || eq_lower(extension, "mxf")
        || eq_lower(extension, "ogv") || eq_lower(extension, "3gp") {
        MediaKind::Video
    } else {
        MediaKind::Unsupported
    }
}

/// Classification is case-insensitive: lowercasing the extension first
/// changes nothing.
pub proof fn lemma_classify_case_insensitive(s: Seq<char>)
    ensures
        classify_spec(lower_seq(s)) == classify_spec(s),
{
    lemma_lower_seq_idempotent(s);
}

/// The two allow-lists are disjoint: no extension is both an image and a
/// video extension.
pub proof fn lemma_allow_lists_disjoint(s: Seq<char>)
    ensures
        !(is_image_ext(s) && is_video_ext(s)),
{
    if is_image_ext(s) && is_video_ext(s) {
        reveal_strlit("jpg");
        reveal_strlit("jpeg");
        reveal_strlit("png");
        reveal_strlit("webp");
        reveal_strlit("heic");
        reveal_strlit("heif");
        reveal_strlit("avif");
        reveal_strlit("tiff");
        reveal_strlit("tif");
        reveal_strlit("bmp");
        reveal_strlit("cr2");
        reveal_strlit("nef");
        reveal_strlit("arw");
        reveal_strlit("dng");
        reveal_strlit("orf");
        reveal_strlit("srw");
        reveal_strlit("mp4");
        reveal_strlit("m4v");
        reveal_strlit("mov");
        reveal_strlit("qt");
        reveal_strlit("mkv");
        reveal_strlit("avi");
        reveal_strlit("wmv");
        reveal_strlit("flv");
        reveal_strlit("webm");
        reveal_strlit("mts");
        reveal_strlit("m2ts");
        reveal_strlit("mxf");
        reveal_strlit("ogv");
        reveal_strlit("3gp");
        assert("jpg"@ =~= seq!['j', 'p', 'g']);
        assert("jpeg"@ =~= seq!['j', 'p', 'e', 'g']);
        assert("png"@ =~= seq!['p', 'n', 'g']);
        assert("webp"@ =~= seq!['w', 'e', 'b', 'p']);
        assert("heic"@ =~= seq!['h', 'e', 'i', 'c']);
        assert("heif"@ =~= seq!['h', 'e', 'i', 'f']);
        assert("avif"@ =~= seq!['a', 'v', 'i', 'f']);
        assert("tiff"@ =~= seq!['t', 'i', 'f', 'f']);
        assert("tif"@ =~= seq!['t', 'i', 'f']);
        assert("bmp"@ =~= seq!['b', 'm', 'p']);
        assert("cr2"@ =~= seq!['c', 'r', '2']);
        assert("nef"@ =~= seq!['n', 'e', 'f']);
        assert("arw"@ =~= seq!['a', 'r', 'w']);
        assert("dng"@ =~= seq!['d', 'n', 'g']);
        assert("orf"@ =~= seq!['o', 'r', 'f']);
        assert("srw"@ =~= seq!['s', 'r', 'w']);
        assert("mp4"@ =~= seq!['m', 'p', '4']);
        assert("m4v"@ =~= seq!['m', '4', 'v']);
        assert("mov"@ =~= seq!['m', 'o', 'v']);
        assert("qt"@ =~= seq!['q', 't']);
        assert("mkv"@ =~= seq!['m', 'k', 'v']);
        assert("avi"@ =~= seq!['a', 'v', 'i']);
        assert("wmv"@ =~= seq!['w', 'm', 'v']);
        assert("flv"@ =~= seq!['f', 'l', 'v']);
        assert("webm"@ =~= seq!['w', 'e', 'b', 'm']);
        assert("mts"@ =~= seq!['m', 't', 's']);
        assert("m2ts"@ =~= seq!['m', '2', 't', 's']);
        assert("mxf"@ =~= seq!['m', 'x', 'f']);
        assert("ogv"@ =~= seq!['o', 'g', 'v']);
        assert("3gp"@ =~= seq!['3', 'g', 'p']);
        assert(false);
    }
}

/// Classification partitions the inputs: the image allow-list maps to
/// `Image`, the video allow-list to `Video`, everything else to
/// `Unsupported`.
pub proof fn lemma_classify_partition(s: Seq<char>)
    ensures
        classify_spec(s) is Image <==> is_image_ext(lower_seq(s)),
        classify_spec(s) is Video <==> is_video_ext(lower_seq(s)),
        classify_spec(s) is Unsupported <==> (!is_image_ext(lower_seq(s)) && !is_video_ext(
            lower_seq(s),
        )),
{
    lemma_allow_lists_disjoint(lower_seq(s));
}

/// The metadata record derived for one file: the best-known capture
/// timestamp, and a non-empty, quote-free device model.
pub struct FileInfo {
    pub date: Option<Timestamp>,
    pub model: String,
}

impl FileInfo {
    /// The record's invariant: the model is non-empty and holds no double
    /// quote, and the timestamp, when present, is a valid calendar
    /// timestamp.
    pub open spec fn wf(self) -> bool {
        &&& self.model@.len() > 0
        &&& forall|i: int| 0 <= i < self.model@.len() ==> self.model@[i] != '"'
        &&& self.date matches Some(t) ==> t.wf()
    }
}

/// `s` with every double-quote character removed.
pub open spec fn strip_quotes(s: Seq<char>) -> Seq<char>
    decreases s.len(),
{
    if s.len() == 0 {
        Seq::empty()
    } else if s[0] == '"' {
        strip_quotes(s.drop_first())
    } else {
        seq![s[0]] + strip_quotes(s.drop_first())
    }
}

/// Stripping quotes leaves no quote behind.
pub proof fn lemma_strip_quotes_quote_free(s: Seq<char>)
    ensures
        forall|i: int| 0 <= i < strip_quotes(s).len() ==> strip_quotes(s)[i] != '"',
    decreases s.len(),
{
    if s.len() == 0 {
        assert(strip_quotes(s).len() == 0);
    } else {
        lemma_strip_quotes_quote_free(s.drop_first());
        if s[0] == '"' {
            assert(strip_quotes(s) == strip_quotes(s.drop_first()));
            assert forall|i: int| 0 <= i < strip_quotes(s).len() implies strip_quotes(s)[i]
                != '"' by {
                assert(strip_quotes(s.drop_first())[i] != '"');
            }
        } else {
            assert forall|i: int| 0 <= i < strip_quotes(s).len() implies strip_quotes(s)[i]
                != '"' by {
                if i == 0 {
                    assert(strip_quotes(s)[0] == s[0]);
                } else {
                    assert(strip_quotes(s)[i] == strip_quotes(s.drop_first())[i - 1]);
                }
            }
        }
    }
}

/// The device model stored in a record: the tag text with quotes stripped,
/// or the sentinel when the tag is absent or nothing is left.
pub open spec fn sanitized_model(tag: Option<Seq<char>>) -> Seq<char> {
    match tag {
        Some(s) => if strip_quotes(s).len() == 0 {
            "UnknownModel"@
        } else {
            strip_quotes(s)
        },
        None => "UnknownModel"@,
    }
}

/// The view of an optional borrowed string.
pub open spec fn opt_view(tag: Option<&str>) -> Option<Seq<char>> {
    match tag {
        Some(s) => Some(s@),
        None => None,
    }
}

/// Builds the stored device model from an optional raw tag text: strips
/// embedded double quotes and falls back to the sentinel.
pub fn sanitize_model(tag: Option<&str>) -> (r: String)
    ensures
        r@ == sanitized_model(opt_view(tag)),
        r@.len() > 0,
        forall|i: int| 0 <= i < r@.len() ==> r@[i] != '"',
{
    proof {
        reveal_strlit("UnknownModel");
    }
    match tag {
        None => String::from_str("UnknownModel"),
        Some(s) => {
            let n = s.unicode_len();
            let mut out = String::new();
            let mut i: usize = 0;
            assert(s@.skip(0) =~= s@);
            while i < n
                invariant
                    n == s@.len(),
                    i <= n,
                    strip_quotes(s@) =~= out@ + strip_quotes(s@.skip(i as int)),
                decreases n - i,
            {
                let c = s.get_char(i);
                proof {
                    assert(s@.skip(i as int).drop_first() =~= s@.skip(i + 1));
                }
                if c != '"' {
                    push_char(&mut out, c);
                }
                assert(strip_quotes(s@) =~= out@ + strip_quotes(s@.skip(i + 1)));
                i += 1;
            }
            assert(out@ =~= strip_quotes(s@));
            proof {
                lemma_strip_quotes_quote_free(s@);
            }
            if out.as_str().unicode_len() == 0 {
                String::from_str("UnknownModel")
            } else {
                out
            }
        },
    }
}

/// Routes one file through the classifier to the matching extractor.
/// `probe` carries the video tag dictionary where the caller obtained one,
/// and `created` the file's recorded creation timestamp, for the fallback.
/// Unsupported extensions yield no record and are to be skipped. The flag
/// beside the record reports whether embedded metadata was used (the image
/// container parsed, or a probed dictionary was supplied), so the caller
/// can log the fallback.
pub fn extract(
    extension: &str,
    bytes: &[u8],
    probe: Option<&video::VideoProbe>,
    created: Option<Timestamp>,
) -> (r: Option<(FileInfo, bool)>)
    requires
        created matches Some(t) ==> t.wf(),
    ensures
        r is Some <==> classify_spec(extension@) != MediaKind::Unsupported,
        r matches Some(pair) ==> pair.0.wf(),
        classify_spec(extension@) is Image ==> (r matches Some(pair) ==> {
            &&& pair.0.date == image::image_date(image::exif_tags_of(bytes@), created)
            &&& pair.0.model@ == image::image_model(image::exif_tags_of(bytes@))
            &&& pair.1 == (image::exif_tags_of(bytes@) is Some)
        }),
        classify_spec(extension@) is Video ==> (r matches Some(pair) ==> {
            &&& (probe matches Some(p) ==> pair.0.date == video::video_date(*p) && pair.0.model@
                == sanitized_model(video::model_tag(*p)))
            &&& (probe is None ==> pair.0.date == created && pair.0.model@ == "UnknownModel"@)
            &&& pair.1 == (probe is Some)
        }),
{
    match classify(extension) {
        MediaKind::Image => Some(image::extract(bytes, created)),
        MediaKind::Video => Some((video::extract(probe, created), probe.is_some())),
        MediaKind::Unsupported => None,
    }
}

/// The record used when no embedded metadata could be read: the file's
/// recorded creation timestamp (when available) and the sentinel model.
pub fn fallback_info(created: Option<Timestamp>) -> (r: FileInfo)
    requires
        created matches Some(t) ==> t.wf(),
    ensures
        r.date == created,
        r.model@ == "UnknownModel"@,
        r.wf(),
{
    proof {
        reveal_strlit("UnknownModel");
    }
    FileInfo { date: created, model: String::from_str("UnknownModel") }
}

/// The `YYYYMMDD_HHMMSS` part of a filename, or the sentinel when no
/// capture timestamp is known.
pub open spec fn stamp_or_unknown(date: Option<Timestamp>) -> Seq<char> {
    match date {
        Some(t) => stamp_seq(t),
        None => "UnknownDate"@,
    }
}

/// The canonical filename stem: timestamp part, device model and content
/// hash, joined with underscores.
pub open spec fn filename_stem(info: FileInfo, bytes: Seq<u8>) -> Seq<char> {
    stamp_or_unknown(info.date) + seq!['_'] + info.model@ + seq!['_'] + hex8_of(xxh3_64_of(bytes))
}

/// Synthesizes the filename stem for a record and the file's bytes.
/// The caller appends the extension separately.
pub fn generate_filename(info: &FileInfo, file_bytes: &[u8]) -> (r: String)
    ensures
        r@ == filename_stem(*info, file_bytes@),
{
    let mut out = String::new();
    match &info.date {
        Some(t) => push_stamp(&mut out, t),
        None => out.append("UnknownDate"),
    }
    push_char(&mut out, '_');
    out.append(info.model.as_str());
    push_char(&mut out, '_');
    let h = content_hash(file_bytes);
    out.append(h.as_str());
    assert(out@ =~= filename_stem(*info, file_bytes@));
    out
}

/// The date-partitioned directory under the output root: `YYYY/MM/DD`,
/// or the sentinel directory when no timestamp is known.
pub open spec fn date_dir(date: Option<Timestamp>) -> Seq<char> {
    match date {
        Some(t) => dec_pad(t.year as nat, 4) + seq!['/'] + dec_pad(t.month as nat, 2) + seq!['/']
            + dec_pad(t.day as nat, 2),
        None => "UnknownDate"@,
    }
}

/// The full destination path for a derived filename.
pub open spec fn output_path(root: Seq<char>, info: FileInfo, filename: Seq<char>) -> Seq<char> {
    root + seq!['/'] + date_dir(info.date) + seq!['/'] + filename
}

/// Places the derived filename in its date-partitioned directory under
/// the output root.
pub fn build_output_path(output_root: &str, info: &FileInfo, filename: &str) -> (r: String)
    ensures
        r@ == output_path(output_root@, *info, filename@),
{
    let mut out = String::new();
    out.append(output_root);
    push_char(&mut out, '/');
    match &info.date {
        Some(t) => {
            push_padded(&mut out, t.year as u32, 4);
            push_char(&mut out, '/');
            push_padded(&mut out, t.month as u32, 2);
            push_char(&mut out, '/');
            push_padded(&mut out, t.day as u32, 2);
        },
        None => out.append("UnknownDate"),
    }
    push_char(&mut out, '/');
    out.append(filename);
    assert(out@ =~= output_path(output_root@, *info, filename@));
    out
}

/// Deriving a destination is pure determinism: two derivations from the
/// same root, record, bytes and extension agree — there is no hidden
/// time-of-call state.
pub proof fn lemma_derivation_deterministic(
    root: Seq<char>,
    info: FileInfo,
    bytes: Seq<u8>,
    ext: Seq<char>,
    p1: Seq<char>,
    p2: Seq<char>,
)
    requires
        p1 == output_path(root, info, filename_stem(info, bytes) + ext),
        p2 == output_path(root, info, filename_stem(info, bytes) + ext),
    ensures
        p1 == p2,
{
}

} // verus!
