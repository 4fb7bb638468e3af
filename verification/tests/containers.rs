use mediasort::metadata::image;
use mediasort::timestamp::Timestamp;

fn push_u16(v: &mut Vec<u8>, x: u16) {
    v.extend_from_slice(&x.to_le_bytes());
}

fn push_u32(v: &mut Vec<u8>, x: u32) {
    v.extend_from_slice(&x.to_le_bytes());
}

fn entry(v: &mut Vec<u8>, tag: u16, typ: u16, count: u32, value: u32) {
    push_u16(v, tag);
    push_u16(v, typ);
    push_u32(v, count);
    push_u32(v, value);
}

/// A minimal little-endian TIFF whose primary image carries
/// `Model = "Pixel 7"` and `DateTimeOriginal = 2023:05:14 10:22:05`.
fn sample_tiff() -> Vec<u8> {
    let mut v = Vec::new();
    v.extend_from_slice(b"II");
    push_u16(&mut v, 42);
    push_u32(&mut v, 8);
    // IFD0 at offset 8: Model, and the pointer to the Exif IFD.
    push_u16(&mut v, 2);
    entry(&mut v, 0x0110, 2, 8, 56);
    entry(&mut v, 0x8769, 4, 1, 38);
    push_u32(&mut v, 0);
    // Exif IFD at offset 38: DateTimeOriginal.
    push_u16(&mut v, 1);
    entry(&mut v, 0x9003, 2, 20, 64);
    push_u32(&mut v, 0);
    // String values: Model at 56, DateTimeOriginal at 64.
    v.extend_from_slice(b"Pixel 7\0");
    v.extend_from_slice(b"2023:05:14 10:22:05\0");
    v
}

#[test]
fn embedded_image_tags_win_over_the_fallback() {
    let bytes = sample_tiff();
    let created = Some(Timestamp { year: 2000, month: 1, day: 1, hour: 0, minute: 0, second: 0 });
    let (info, embedded) = image::extract(&bytes, created);
    assert!(embedded);
    assert_eq!(info.model, "Pixel 7");
    assert_eq!(
        info.date,
        Some(Timestamp { year: 2023, month: 5, day: 14, hour: 10, minute: 22, second: 5 })
    );
}

#[test]
fn an_image_without_a_date_tag_leaves_the_timestamp_unset() {
    // Same container, but with the Exif IFD pointer dropped: the date tag
    // is gone while the container still parses, so no fallback applies.
    let mut v = Vec::new();
    v.extend_from_slice(b"II");
    push_u16(&mut v, 42);
    push_u32(&mut v, 8);
    push_u16(&mut v, 1);
    entry(&mut v, 0x0110, 2, 8, 26);
    push_u32(&mut v, 0);
    v.extend_from_slice(b"Pixel 7\0");
    let created = Some(Timestamp { year: 2000, month: 1, day: 1, hour: 0, minute: 0, second: 0 });
    let (info, embedded) = image::extract(&v, created);
    assert!(embedded);
    assert_eq!(info.model, "Pixel 7");
    assert_eq!(info.date, None);
}
