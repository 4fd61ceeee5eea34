use crate::normalize::{CameraMetadata, CameraView};
use crate::timestamp::{naive_text, renders, utc_text, Instant, NaiveTimestamp};
use vstd::prelude::*;

verus! {

/// What the filesystem tells about a file.
#[derive(Clone, Debug)]
pub struct FileMetadata {
    /// The last component of the file's path.
    pub filename: String,
    /// The length of the file in bytes.
    pub size: u64,
    /// Absent where the platform or filesystem records no creation time.
    pub created_time: Option<Instant>,
    /// Absent where the platform or filesystem records no modification time.
    pub modified_time: Option<Instant>,
}

impl FileMetadata {
    /// The times that are present lie in the range that chrono holds.
    pub open spec fn wf(&self) -> bool {
        &&& self.created_time is Some ==> self.created_time->Some_0.wf()
        &&& self.modified_time is Some ==> self.modified_time->Some_0.wf()
    }

    /// Whether the times that are present lie in the range that chrono holds.
    pub fn is_valid(&self) -> (r: bool)
        ensures
            r == self.wf(),
    {
        let created = match &self.created_time {
            Some(t) => t.is_valid(),
            None => true,
        };
        let modified = match &self.modified_time {
            Some(t) => t.is_valid(),
            None => true,
        };
        created && modified
    }
}

/// All that is known of one image: its file attributes and its camera
/// metadata, flattened into one JSON object.
#[derive(Clone, Debug)]
pub struct CombinedMetadata {
    pub file_metadata: FileMetadata,
    pub image_metadata: CameraMetadata,
}

impl CombinedMetadata {
    /// Every time that is present has a text.
    pub open spec fn wf(&self) -> bool {
        self.file_metadata.wf() && self.image_metadata.wf()
    }
}

/// The record of an image with these file attributes and this camera metadata.
pub open spec fn combined(f: FileMetadata, c: CameraMetadata) -> CombinedMetadata {
    CombinedMetadata { file_metadata: f, image_metadata: c }
}

/// Joins file attributes and camera metadata into one record.
pub fn merge(file: FileMetadata, camera: CameraMetadata) -> (r: CombinedMetadata)
    ensures
        r == combined(file, camera),
{
    CombinedMetadata { file_metadata: file, image_metadata: camera }
}

/// A JSON scalar of the output record.
#[derive(Clone, Debug)]
pub enum JsonValue {
    Number(u64),
    Text(String),
}

/// One key and its value in the output record.
#[derive(Clone, Debug)]
pub struct JsonField {
    pub key: String,
    pub value: JsonValue,
}

/// A JSON scalar as a mathematical value.
pub enum JsonScalar {
    Number(u64),
    Text(Seq<char>),
}

impl View for JsonValue {
    type V = JsonScalar;

    open spec fn view(&self) -> JsonScalar {
        match self {
            JsonValue::Number(n) => JsonScalar::Number(*n),
            JsonValue::Text(s) => JsonScalar::Text(s@),
        }
    }
}

impl View for JsonField {
    type V = (Seq<char>, JsonScalar);

    open spec fn view(&self) -> (Seq<char>, JsonScalar) {
        (self.key@, self.value@)
    }
}

/// The fields of an output record, in order.
pub open spec fn fields_view(v: Seq<JsonField>) -> Seq<(Seq<char>, JsonScalar)> {
    v.map_values(|f: JsonField| f@)
}

/// One text field, or none where the text is absent.
pub open spec fn text_field(key: Seq<char>, text: Option<Seq<char>>) -> Seq<(Seq<char>, JsonScalar)> {
    match text {
        Some(s) => seq![(key, JsonScalar::Text(s))],
        None => seq![],
    }
}

/// The field of an absolute time: absent with the time, or where chrono
/// cannot represent it.
pub open spec fn instant_field(key: Seq<char>, t: Option<Instant>) -> Seq<(Seq<char>, JsonScalar)> {
    match t {
        Some(i) => text_field(key, utc_text(i.secs, i.nanos)),
        None => seq![],
    }
}

/// The field of a capture time: absent with the time, or where chrono
/// cannot represent it.
pub open spec fn naive_field(key: Seq<char>, t: Option<NaiveTimestamp>) -> Seq<(Seq<char>, JsonScalar)> {
    match t {
        Some(t) => text_field(key, naive_text(t.year, t.month, t.day, t.hour, t.minute, t.second, t.nano)),
        None => seq![],
    }
}

/// The field of an optional number.
pub open spec fn number_field(key: Seq<char>, n: Option<u32>) -> Seq<(Seq<char>, JsonScalar)> {
    match n {
        Some(n) => seq![(key, JsonScalar::Number(n as u64))],
        None => seq![],
    }
}

/// The output record of an image: `filename`, `size`, `created_time`,
/// `modified_time`, `orientation`, `capture_time`, `camera_model`,
/// `camera_serial`, in this order, each optional one only where its value is
/// present.
pub open spec fn fields_of(f: FileMetadata, c: CameraView) -> Seq<(Seq<char>, JsonScalar)> {
    seq![
        ("filename"@, JsonScalar::Text(f.filename@)),
        ("size"@, JsonScalar::Number(f.size)),
    ] + instant_field("created_time"@, f.created_time) + instant_field(
        "modified_time"@,
        f.modified_time,
    ) + number_field("orientation"@, c.orientation) + naive_field("capture_time"@, c.capture_time)
        + text_field("camera_model"@, c.camera_model) + text_field("camera_serial"@, c.camera_serial)
}

/// Every time that is present has a text, so that it has its field.
pub open spec fn times_render(f: FileMetadata, c: CameraView) -> bool {
    &&& f.created_time is Some ==> utc_text(f.created_time->Some_0.secs, f.created_time->Some_0.nanos) is Some
    &&& f.modified_time is Some ==> utc_text(f.modified_time->Some_0.secs, f.modified_time->Some_0.nanos) is Some
    &&& c.capture_time is Some ==> renders(c.capture_time->Some_0)
}

/// The output record of a merged record.
pub open spec fn record_fields(rec: CombinedMetadata) -> Seq<(Seq<char>, JsonScalar)> {
    fields_of(rec.file_metadata, rec.image_metadata@)
}

/// Appends one field.
fn push_field(out: &mut Vec<JsonField>, key: &str, value: JsonValue)
    ensures
        fields_view(final(out)@) == fields_view(old(out)@).push((key@, value@)),
{
    let ghost before = out@;
    out.push(JsonField { key: key.to_owned(), value });
    proof {
        assert(fields_view(out@) =~= fields_view(before).push((key@, value@)));
    }
}

/// Appends the field of an optional text.
fn push_text(out: &mut Vec<JsonField>, key: &str, text: Option<String>)
    ensures
        fields_view(final(out)@) == fields_view(old(out)@) + text_field(key@, crate::timestamp::opt_text(text)),
{
    match text {
        Some(s) => push_field(out, key, JsonValue::Text(s)),
        None => {
            assert(fields_view(out@) =~= fields_view(out@) + seq![]);
        },
    }
}

/// Appends the field of an absolute time.
fn push_instant(out: &mut Vec<JsonField>, key: &str, t: Option<Instant>)
    ensures
        fields_view(final(out)@) == fields_view(old(out)@) + instant_field(key@, t),
        t is Some && t->Some_0.wf() ==> utc_text(t->Some_0.secs, t->Some_0.nanos) is Some,
{
    match t {
        Some(i) => push_text(out, key, i.to_text()),
        None => {
            assert(fields_view(out@) =~= fields_view(out@) + seq![]);
        },
    }
}

/// The fields of the output record, in order; absent values have no field,
/// and every present value has one.
pub fn json_fields(rec: &CombinedMetadata) -> (r: Vec<JsonField>)
    requires
        rec.wf(),
    ensures
        fields_view(r@) == record_fields(*rec),
        times_render(rec.file_metadata, rec.image_metadata@),
{
    let f = &rec.file_metadata;
    let c = &rec.image_metadata;
    let mut out: Vec<JsonField> = Vec::new();
    push_field(&mut out, "filename", JsonValue::Text(f.filename.clone()));
    push_field(&mut out, "size", JsonValue::Number(f.size));
    let ghost head = fields_view(out@);
    push_instant(&mut out, "created_time", f.created_time);
    push_instant(&mut out, "modified_time", f.modified_time);
    let ghost times = fields_view(out@);
    match c.orientation {
        Some(o) => push_field(&mut out, "orientation", JsonValue::Number(o as u64)),
        None => {},
    }
    assert(fields_view(out@) =~= times + number_field("orientation"@, c.orientation));
    let ghost numbers = fields_view(out@);
    match c.capture_time {
        Some(t) => push_text(&mut out, "capture_time", t.to_text()),
        None => {},
    }
    assert(fields_view(out@) =~= numbers + naive_field("capture_time"@, c.capture_time));
    push_text(&mut out, "camera_model", c.camera_model.clone());
    push_text(&mut out, "camera_serial", c.camera_serial.clone());
    proof {
        assert(head =~= seq![
            ("filename"@, JsonScalar::Text(f.filename@)),
            ("size"@, JsonScalar::Number(f.size)),
        ]);
        assert(fields_view(out@) =~= record_fields(*rec));
    }
    out
}

} // verus!
