use mediasort::hashing::content_hash;
use mediasort::metadata::image;
use mediasort::metadata::video;
use mediasort::metadata::video::VideoProbe;
use mediasort::metadata::{build_output_path, classify, extract, generate_filename, MediaKind};
use mediasort::timestamp::{parse_datetime, Timestamp};
use mediasort::utils::{move_file, plan_relocation, RelocateAction, RenameOutcome, TransferStep};

fn ts(year: u16, month: u8, day: u8, hour: u8, minute: u8, second: u8) -> Timestamp {
    Timestamp { year, month, day, hour, minute, second }
}

fn probe(
    model: Option<&str>,
    apple_model: Option<&str>,
    android_model: Option<&str>,
    make: Option<&str>,
    creation_time: Option<&str>,
) -> VideoProbe {
    VideoProbe {
        model: model.map(|s| s.to_string()),
        apple_model: apple_model.map(|s| s.to_string()),
        android_model: android_model.map(|s| s.to_string()),
        make: make.map(|s| s.to_string()),
        creation_time: creation_time.map(|s| s.to_string()),
    }
}

#[test]
fn hash_is_eight_lowercase_hex() {
    for bytes in [&b""[..], &b"hello world"[..], &[0u8, 255, 17, 3][..]] {
        let h = content_hash(bytes);
        assert_eq!(h.len(), 8);
        assert!(h.chars().all(|c| c.is_ascii_hexdigit() && !c.is_ascii_uppercase()));
    }
}

#[test]
fn hash_is_deterministic() {
    let bytes = b"the same bytes";
    assert_eq!(content_hash(bytes), content_hash(bytes));
}

#[test]
fn hash_matches_the_reference_digest() {
    for bytes in [&b""[..], &b"some media content"[..]] {
        let full = format!("{:016x}", twox_hash::XxHash3_64::oneshot(bytes));
        assert_eq!(content_hash(bytes), full[..8]);
    }
}

#[test]
fn classify_is_case_insensitive() {
    assert_eq!(classify("JPG"), classify("jpg"));
    assert_eq!(classify("Jpeg"), classify("jpeg"));
    assert_eq!(classify("MP4"), classify("mp4"));
    assert_eq!(classify("WeBm"), classify("webm"));
    assert_eq!(classify("TXT"), classify("txt"));
}

#[test]
fn classify_accepts_the_image_allow_list() {
    for ext in [
        "jpg", "jpeg", "png", "webp", "heic", "heif", "avif", "tiff", "tif", "bmp", "cr2", "nef",
        "arw", "dng", "orf", "srw",
    ] {
        assert_eq!(classify(ext), MediaKind::Image);
    }
}

#[test]
fn classify_accepts_the_video_allow_list() {
    for ext in [
        "mp4", "m4v", "mov", "qt", "mkv", "avi", "wmv", "flv", "webm", "mts", "m2ts", "mxf", "ogv",
        "3gp",
    ] {
        assert_eq!(classify(ext), MediaKind::Video);
    }
}

#[test]
fn classify_rejects_everything_else() {
    for ext in ["", "txt", "jpg2", "mp", "exe", "gif"] {
        assert_eq!(classify(ext), MediaKind::Unsupported);
    }
}

#[test]
fn model_quotes_are_stripped() {
    let info = image::from_tags(None, Some("\"Pixel 7\""));
    assert_eq!(info.model, "Pixel 7");
    let inner = image::from_tags(None, Some("a\"b\"c"));
    assert_eq!(inner.model, "abc");
}

#[test]
fn model_defaults_to_the_sentinel() {
    let absent = image::from_tags(None, None);
    assert_eq!(absent.model, "UnknownModel");
    let only_quotes = image::from_tags(None, Some("\"\""));
    assert_eq!(only_quotes.model, "UnknownModel");
}

#[test]
fn datetime_parses_the_fixed_pattern() {
    assert_eq!(parse_datetime("2023-05-14 10:22:05"), Some(ts(2023, 5, 14, 10, 22, 5)));
    assert_eq!(parse_datetime("2024-02-29 00:00:00"), Some(ts(2024, 2, 29, 0, 0, 0)));
}

#[test]
fn datetime_rejects_invalid_calendar_values() {
    assert_eq!(parse_datetime("2023-02-29 10:00:00"), None);
    assert_eq!(parse_datetime("2023-04-31 10:00:00"), None);
    assert_eq!(parse_datetime("2023-00-14 10:22:05"), None);
    assert_eq!(parse_datetime("2023-13-14 10:22:05"), None);
    assert_eq!(parse_datetime("2023-05-14 24:22:05"), None);
    assert_eq!(parse_datetime("2023-05-14 10:60:05"), None);
    assert_eq!(parse_datetime("2023-05-14 10:22:60"), None);
}

#[test]
fn datetime_rejects_a_broken_shape() {
    assert_eq!(parse_datetime(""), None);
    assert_eq!(parse_datetime("2023-5-14 10:22:05"), None);
    assert_eq!(parse_datetime("2023-05-14T10:22:05"), None);
    assert_eq!(parse_datetime("2023-05-14 10:22:0x"), None);
    assert_eq!(parse_datetime("2023-05-14 10:22:055"), None);
}

#[test]
fn image_scenario_builds_the_dated_destination() {
    let info = image::from_tags(Some("2023-05-14 10:22:05"), Some("\"Pixel 7\""));
    assert_eq!(info.date, Some(ts(2023, 5, 14, 10, 22, 5)));
    let bytes = b"image scenario bytes";
    let stem = generate_filename(&info, bytes);
    let hash = content_hash(bytes);
    assert_eq!(stem, format!("20230514_102205_Pixel 7_{}", hash));
    let filename = format!("{}.jpg", stem);
    let path = build_output_path("archive", &info, &filename);
    assert_eq!(path, format!("archive/2023/05/14/20230514_102205_Pixel 7_{}.jpg", hash));
}

#[test]
fn video_scenario_without_creation_time_goes_to_unknown_date() {
    let p = probe(Some("GoPro HERO11"), None, None, None, None);
    let info = video::extract(Some(&p), None);
    assert_eq!(info.model, "GoPro HERO11");
    assert_eq!(info.date, None);
    let bytes = b"video scenario bytes";
    let stem = generate_filename(&info, bytes);
    let hash = content_hash(bytes);
    assert_eq!(stem, format!("UnknownDate_GoPro HERO11_{}", hash));
    let filename = format!("{}.mp4", stem);
    let path = build_output_path("archive", &info, &filename);
    assert_eq!(path, format!("archive/UnknownDate/UnknownDate_GoPro HERO11_{}.mp4", hash));
}

#[test]
fn video_creation_time_is_taken_to_naive_utc() {
    let zulu = probe(Some("GoPro HERO11"), None, None, None, Some("2023-05-14T10:22:05Z"));
    assert_eq!(video::extract(Some(&zulu), None).date, Some(ts(2023, 5, 14, 10, 22, 5)));
    let offset = probe(None, None, None, None, Some("2023-05-14T10:22:05+02:00"));
    assert_eq!(video::extract(Some(&offset), None).date, Some(ts(2023, 5, 14, 8, 22, 5)));
    let rollover = probe(None, None, None, None, Some("2023-01-01T01:30:00+05:00"));
    assert_eq!(video::extract(Some(&rollover), None).date, Some(ts(2022, 12, 31, 20, 30, 0)));
    let unparsable = probe(None, None, None, None, Some("2023-05-14 10:22:05"));
    assert_eq!(video::extract(Some(&unparsable), None).date, None);
}

#[test]
fn video_model_tags_fall_back_in_order() {
    let second = probe(None, Some("Apple iPhone 14"), None, Some("Acme"), None);
    assert_eq!(video::extract(Some(&second), None).model, "Apple iPhone 14");
    let last = probe(None, None, None, Some("Acme"), None);
    assert_eq!(video::extract(Some(&last), None).model, "Acme");
    let none = probe(None, None, None, None, None);
    assert_eq!(video::extract(Some(&none), None).model, "UnknownModel");
    let quoted = probe(Some("\"GoPro\""), None, None, None, None);
    assert_eq!(video::extract(Some(&quoted), None).model, "GoPro");
}

#[test]
fn extractors_fall_back_on_malformed_containers() {
    let created = Some(ts(2021, 1, 2, 3, 4, 5));
    let garbage = [0u8, 1, 2, 3, 4, 5, 6, 7];
    let (image_info, embedded) = image::extract(&garbage, created);
    assert!(!embedded);
    assert_eq!(image_info.model, "UnknownModel");
    assert_eq!(image_info.date, created);
    let (image_no_created, _) = image::extract(&garbage, None);
    assert_eq!(image_no_created.date, None);
    let video_info = video::extract(None, created);
    assert_eq!(video_info.model, "UnknownModel");
    assert_eq!(video_info.date, created);
}

#[test]
fn extract_routes_by_extension() {
    let garbage = [9u8, 9, 9];
    let image_route = extract("JPG", &garbage, None, None);
    assert!(image_route.is_some());
    let (image_info, image_embedded) = image_route.unwrap();
    assert_eq!(image_info.model, "UnknownModel");
    assert!(!image_embedded);
    let p = probe(Some("GoPro HERO11"), None, None, None, None);
    let video_route = extract("mp4", &garbage, Some(&p), None);
    let (video_info, video_embedded) = video_route.unwrap();
    assert_eq!(video_info.model, "GoPro HERO11");
    assert!(video_embedded);
    assert!(extract("mkv", &garbage, None, None).unwrap().1 == false);
    assert!(extract("txt", &garbage, None, None).is_none());
    assert!(extract("", &garbage, None, None).is_none());
}

#[test]
fn relocation_never_overwrites_an_existing_destination() {
    assert_eq!(plan_relocation(true, false), RelocateAction::Skip);
    assert_eq!(plan_relocation(true, true), RelocateAction::Skip);
    assert_eq!(plan_relocation(false, true), RelocateAction::Copy);
    assert_eq!(plan_relocation(false, false), RelocateAction::Move);
}

#[test]
fn cross_device_rename_falls_back_to_copy_then_remove() {
    assert_eq!(move_file(RenameOutcome::Renamed), TransferStep::Done);
    assert_eq!(move_file(RenameOutcome::CrossDevice), TransferStep::CopyThenRemove);
    assert_eq!(move_file(RenameOutcome::Failed), TransferStep::Fail);
}

#[test]
fn derivation_is_deterministic() {
    let info = image::from_tags(Some("2023-05-14 10:22:05"), Some("Pixel 7"));
    let bytes = b"round trip bytes";
    let stem_a = generate_filename(&info, bytes);
    let stem_b = generate_filename(&info, bytes);
    assert_eq!(stem_a, stem_b);
    let name = format!("{}.jpg", stem_a);
    let path_a = build_output_path("archive", &info, &name);
    let path_b = build_output_path("archive", &info, &name);
    assert_eq!(path_a, path_b);
}
