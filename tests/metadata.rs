use exif::experimental::Writer;
use exif::{Field, In, Tag, Value};
use image_metadata::{
    image_metadata, json_fields, merge, normalize, parse_capture_time, process_file, tag_text,
    CameraMetadata, CombinedMetadata, FileMetadata, ImageError, Instant, JsonField, JsonValue,
    NaiveTimestamp, RawTags, TagText, MAX_SECS, MIN_SECS,
};

/// A TIFF image whose primary IFD holds the given fields.
fn tiff_with(fields: &[Field]) -> Vec<u8> {
    let mut writer = Writer::new();
    for f in fields {
        writer.push_field(f);
    }
    let mut buf = std::io::Cursor::new(Vec::new());
    writer.write(&mut buf, false).unwrap();
    buf.into_inner()
}

fn ascii_field(tag: Tag, text: &[u8]) -> Field {
    Field { tag, ifd_num: In::PRIMARY, value: Value::Ascii(vec![text.to_vec()]) }
}

fn orientation_field(code: u16) -> Field {
    Field { tag: Tag::Orientation, ifd_num: In::PRIMARY, value: Value::Short(vec![code]) }
}

/// The tags of the camera that took the sample picture.
fn sample_image() -> Vec<u8> {
    tiff_with(&[
        orientation_field(1),
        ascii_field(Tag::DateTimeOriginal, b"2019:07:26 13:25:33"),
        ascii_field(Tag::Model, b"Canon EOS 5D Mark IV"),
        ascii_field(Tag::BodySerialNumber, b"025021000537"),
    ])
}

fn naive(year: i32, month: u32, day: u32, hour: u32, minute: u32, second: u32) -> NaiveTimestamp {
    NaiveTimestamp { year, month, day, hour, minute, second, nano: 0 }
}

fn keys_and_values(fields: &[JsonField]) -> Vec<(String, String)> {
    fields
        .iter()
        .map(|f| {
            let v = match &f.value {
                JsonValue::Number(n) => n.to_string(),
                JsonValue::Text(s) => format!("{:?}", s),
            };
            (f.key.clone(), v)
        })
        .collect()
}

fn size_of(fields: &[JsonField]) -> Option<u64> {
    fields.iter().find(|f| f.key == "size").and_then(|f| match f.value {
        JsonValue::Number(n) => Some(n),
        _ => None,
    })
}

fn ascii_tag(s: &str) -> Option<TagText> {
    Some(TagText::Ascii(vec![s.as_bytes().to_vec()]))
}

#[test]
fn test_image_metadata() {
    let metadata = image_metadata(&sample_image()).unwrap();
    assert_eq!(metadata.orientation, Some(1));
    assert_eq!(metadata.capture_time, Some(naive(2019, 7, 26, 13, 25, 33)));
    assert_eq!(metadata.camera_model, Some("Canon EOS 5D Mark IV".to_string()));
    assert_eq!(metadata.camera_serial, Some("025021000537".to_string()));
}

#[test]
fn test_write_metadata_to_file() {
    let file_metadata = FileMetadata {
        filename: "test.jpg".to_string(),
        size: 123456,
        created_time: Some(Instant { secs: 514971000, nanos: 0 }),
        modified_time: None,
    };
    let image_metadata = CameraMetadata {
        orientation: Some(1),
        capture_time: Some(naive(1986, 4, 27, 7, 30, 0)),
        camera_model: None,
        camera_serial: Some("baz".to_string()),
    };
    let metadata = CombinedMetadata { file_metadata, image_metadata };
    let fields = json_fields(&metadata);
    let expected: Vec<(String, String)> = vec![
        ("filename".to_string(), "\"test.jpg\"".to_string()),
        ("size".to_string(), "123456".to_string()),
        ("created_time".to_string(), "\"1986-04-27T07:30:00Z\"".to_string()),
        ("orientation".to_string(), "1".to_string()),
        ("capture_time".to_string(), "\"1986-04-27T07:30:00\"".to_string()),
        ("camera_serial".to_string(), "\"baz\"".to_string()),
    ];
    assert_eq!(keys_and_values(&fields), expected);
}

#[test]
fn test_process_file() {
    let file = FileMetadata {
        filename: "JAM19896.jpg".to_string(),
        size: 953458,
        created_time: None,
        modified_time: None,
    };
    let fields = process_file(file, &sample_image()).unwrap();
    assert_eq!(size_of(&fields), Some(953458));
}

#[test]
fn capture_time_pattern_is_read() {
    assert_eq!(parse_capture_time("2019:07:26 13:25:33"), Some(naive(2019, 7, 26, 13, 25, 33)));
}

#[test]
fn capture_time_in_another_shape_is_absent() {
    assert_eq!(parse_capture_time("2019-07-26 13:25:33"), None);
    assert_eq!(parse_capture_time("2019:07:26"), None);
    assert_eq!(parse_capture_time(""), None);
}

#[test]
fn capture_time_of_impossible_date_is_absent() {
    assert_eq!(parse_capture_time("2019:02:30 13:25:33"), None);
    assert_eq!(parse_capture_time("2019:07:26 25:25:33"), None);
}

#[test]
fn normalizer_reads_capture_time_from_raw_bytes() {
    let tags = RawTags {
        orientation: None,
        capture_time: ascii_tag("2019:07:26 13:25:33"),
        camera_model: None,
        camera_serial: None,
    };
    let m = normalize(&tags);
    assert_eq!(m.capture_time, Some(naive(2019, 7, 26, 13, 25, 33)));
    assert_eq!(m.orientation, None);
    assert_eq!(m.camera_model, None);
}

#[test]
fn normalizer_keeps_ascii_text_unchanged() {
    let tags = RawTags {
        orientation: Some(1),
        capture_time: None,
        camera_model: ascii_tag("Canon EOS 5D Mark IV"),
        camera_serial: ascii_tag("025021000537"),
    };
    let m = normalize(&tags);
    assert_eq!(m.orientation, Some(1));
    assert_eq!(m.camera_model, Some("Canon EOS 5D Mark IV".to_string()));
    assert_eq!(m.camera_serial, Some("025021000537".to_string()));
    assert_eq!(m.capture_time, None);
}

#[test]
fn orientation_is_not_range_checked() {
    let tags = RawTags { orientation: Some(4000), capture_time: None, camera_model: None, camera_serial: None };
    assert_eq!(normalize(&tags).orientation, Some(4000));
}

#[test]
fn missing_capture_time_tag_does_not_fail() {
    let bytes = tiff_with(&[orientation_field(6), ascii_field(Tag::Model, b"X100V")]);
    let m = image_metadata(&bytes).unwrap();
    assert_eq!(m.capture_time, None);
    assert_eq!(m.orientation, Some(6));
    assert_eq!(m.camera_model, Some("X100V".to_string()));
    assert_eq!(m.camera_serial, None);
}

#[test]
fn malformed_capture_time_tag_is_absent() {
    let bytes = tiff_with(&[ascii_field(Tag::DateTimeOriginal, b"sometime in July")]);
    let m = image_metadata(&bytes).unwrap();
    assert_eq!(m.capture_time, None);
}

#[test]
fn text_tag_bytes_are_joined_and_decoded_lossily() {
    let t = TagText::Ascii(vec![b"ab".to_vec(), b"c".to_vec(), vec![0xff], b"d".to_vec()]);
    assert_eq!(tag_text(&t), "abc\u{fffd}d");
}

#[test]
fn rendered_text_tag_is_kept() {
    let t = TagText::Rendered("1/200".to_string());
    assert_eq!(tag_text(&t), "1/200");
}

#[test]
fn non_ascii_text_field_is_rendered() {
    let model = Field { tag: Tag::Model, ifd_num: In::PRIMARY, value: Value::Short(vec![7]) };
    let m = image_metadata(&tiff_with(&[model])).unwrap();
    assert_eq!(m.camera_model, Some("7".to_string()));
}

#[test]
fn bytes_without_container_are_an_exif_error() {
    let r = image_metadata(b"definitely not an image");
    assert!(matches!(r, Err(ImageError::ExifError(_))));
    let file = FileMetadata { filename: "a.txt".to_string(), size: 3, created_time: None, modified_time: None };
    assert!(matches!(process_file(file, b"abc"), Err(ImageError::ExifError(_))));
}

#[test]
fn io_error_converts_into_image_error() {
    let e = std::io::Error::new(std::io::ErrorKind::NotFound, "missing");
    assert!(matches!(ImageError::from(e), ImageError::IoError(_)));
}

#[test]
fn record_with_every_field_keeps_declared_order() {
    let metadata = CombinedMetadata {
        file_metadata: FileMetadata {
            filename: "a.jpg".to_string(),
            size: 0,
            created_time: Some(Instant { secs: 0, nanos: 0 }),
            modified_time: Some(Instant { secs: 1_577_836_800, nanos: 500_000_000 }),
        },
        image_metadata: CameraMetadata {
            orientation: Some(8),
            capture_time: Some(naive(2020, 1, 1, 0, 0, 0)),
            camera_model: Some("m".to_string()),
            camera_serial: Some("s".to_string()),
        },
    };
    let keys: Vec<String> = json_fields(&metadata).iter().map(|f| f.key.clone()).collect();
    assert_eq!(
        keys,
        vec![
            "filename", "size", "created_time", "modified_time", "orientation", "capture_time",
            "camera_model", "camera_serial"
        ]
    );
    let fields = json_fields(&metadata);
    assert!(matches!(&fields[2].value, JsonValue::Text(s) if s == "1970-01-01T00:00:00Z"));
    assert!(matches!(&fields[3].value, JsonValue::Text(s) if s == "2020-01-01T00:00:00.500Z"));
}

#[test]
fn record_without_optional_fields_has_name_and_size_only() {
    let metadata = CombinedMetadata {
        file_metadata: FileMetadata { filename: "b.png".to_string(), size: 42, created_time: None, modified_time: None },
        image_metadata: CameraMetadata { orientation: None, capture_time: None, camera_model: None, camera_serial: None },
    };
    let fields = json_fields(&metadata);
    assert_eq!(
        keys_and_values(&fields),
        vec![("filename".to_string(), "\"b.png\"".to_string()), ("size".to_string(), "42".to_string())]
    );
}

#[test]
fn timestamps_render_as_json_strings() {
    assert_eq!(Instant { secs: 514971000, nanos: 0 }.to_text(), Some("1986-04-27T07:30:00Z".to_string()));
    assert_eq!(naive(2019, 7, 26, 13, 25, 33).to_text(), Some("2019-07-26T13:25:33".to_string()));
    assert_eq!(naive(2019, 2, 30, 0, 0, 0).to_text(), None);
}

#[test]
fn instant_beyond_chrono_range_is_not_valid() {
    let far = Instant { secs: i64::MAX, nanos: 0 };
    assert!(!far.is_valid());
    assert_eq!(far.to_text(), None);
    assert!(!Instant { secs: MAX_SECS + 1, nanos: 0 }.is_valid());
    assert!(!Instant { secs: MIN_SECS - 1, nanos: 0 }.is_valid());
    assert!(!Instant { secs: 0, nanos: 1_000_000_000 }.is_valid());
    let file = FileMetadata {
        filename: "c.tif".to_string(),
        size: 7,
        created_time: Some(far),
        modified_time: Some(Instant { secs: 514971000, nanos: 0 }),
    };
    assert!(!file.is_valid());
}

#[test]
fn instants_at_the_range_ends_have_texts() {
    let first = Instant { secs: MIN_SECS, nanos: 0 };
    let last = Instant { secs: MAX_SECS, nanos: 999_999_999 };
    assert!(first.is_valid() && last.is_valid());
    assert_eq!(first.to_text(), Some("-262143-01-01T00:00:00Z".to_string()));
    assert_eq!(last.to_text(), Some("+262142-12-31T23:59:59.999999999Z".to_string()));
}

#[test]
fn process_file_reports_every_present_time() {
    let file = FileMetadata {
        filename: "e.tif".to_string(),
        size: 11,
        created_time: Some(Instant { secs: 514971000, nanos: 0 }),
        modified_time: Some(Instant { secs: 0, nanos: 0 }),
    };
    assert!(file.is_valid());
    let fields = process_file(file, &sample_image()).unwrap();
    let keys: Vec<String> = fields.iter().map(|f| f.key.clone()).collect();
    assert_eq!(
        keys,
        vec![
            "filename", "size", "created_time", "modified_time", "orientation", "capture_time",
            "camera_model", "camera_serial"
        ]
    );
    assert!(matches!(&fields[5].value, JsonValue::Text(s) if s == "2019-07-26T13:25:33"));
    assert!(matches!(&fields[6].value, JsonValue::Text(s) if s == "Canon EOS 5D Mark IV"));
}

#[test]
fn merge_keeps_both_parts() {
    let file = FileMetadata { filename: "d.jpg".to_string(), size: 9, created_time: None, modified_time: None };
    let camera = CameraMetadata { orientation: Some(3), capture_time: None, camera_model: None, camera_serial: None };
    let rec = merge(file, camera);
    assert_eq!(rec.file_metadata.size, 9);
    assert_eq!(rec.file_metadata.filename, "d.jpg");
    assert_eq!(rec.image_metadata.orientation, Some(3));
}
