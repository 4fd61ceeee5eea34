use crate::error::ImageError;
use crate::tags::{
    ascii_chars, container_decodes, decode_tags, decoded_text, exif_uint, flatten, is_ascii_field,
    lemma_matching_text, tag_text, text_of, CameraTag, RawTags, TagText,
};
use crate::timestamp::{
    opt_text, parse_capture_time, parsed_naive, renders, timestamp_of, NaiveTimestamp,
    CAPTURE_TIME_FORMAT,
};
use vstd::prelude::*;

verus! {

/// The metadata that the camera embedded in the image; each field is absent
/// on its own where its tag is missing or unreadable.
#[derive(Clone, Debug)]
pub struct CameraMetadata {
    /// The EXIF orientation code, as stored (no range check).
    pub orientation: Option<u32>,
    /// The wall-clock time at which the picture was taken.
    pub capture_time: Option<NaiveTimestamp>,
    pub camera_model: Option<String>,
    pub camera_serial: Option<String>,
}

/// Camera metadata as mathematical values.
pub struct CameraView {
    pub orientation: Option<u32>,
    pub capture_time: Option<NaiveTimestamp>,
    pub camera_model: Option<Seq<char>>,
    pub camera_serial: Option<Seq<char>>,
}

impl View for CameraMetadata {
    type V = CameraView;

    open spec fn view(&self) -> CameraView {
        CameraView {
            orientation: self.orientation,
            capture_time: self.capture_time,
            camera_model: opt_text(self.camera_model),
            camera_serial: opt_text(self.camera_serial),
        }
    }
}

impl CameraMetadata {
    /// A capture time that is present names a date and time that has a text.
    pub open spec fn wf(&self) -> bool {
        self.capture_time is Some ==> renders(self.capture_time->Some_0)
    }
}

/// The capture time that a capture-time text gives: the text read with the
/// pattern `YYYY:MM:DD HH:MM:SS`; absent where there is no text or it does
/// not match.
pub open spec fn capture_time_from(text: Option<Seq<char>>) -> Option<NaiveTimestamp> {
    match text {
        Some(s) => timestamp_of(parsed_naive(s, CAPTURE_TIME_FORMAT@)),
        None => None,
    }
}

/// The text of an optional text tag.
pub open spec fn opt_tag_text(t: Option<TagText>) -> Option<Seq<char>> {
    match t {
        Some(t) => Some(text_of(t)),
        None => None,
    }
}

/// The camera metadata that the raw tags `tags` give.
pub open spec fn normalized(tags: RawTags) -> CameraView {
    CameraView {
        orientation: tags.orientation,
        capture_time: capture_time_from(opt_tag_text(tags.capture_time)),
        camera_model: opt_tag_text(tags.camera_model),
        camera_serial: opt_tag_text(tags.camera_serial),
    }
}

/// The camera metadata of the image in `bytes`: the orientation tag's
/// unsigned value, the capture time read from the text of the original
/// capture-time tag, and the texts of the model and body serial number tags.
pub open spec fn decoded_camera(bytes: Seq<u8>) -> CameraView {
    CameraView {
        orientation: exif_uint(bytes, CameraTag::Orientation),
        capture_time: capture_time_from(decoded_text(bytes, CameraTag::DateTimeOriginal)),
        camera_model: decoded_text(bytes, CameraTag::Model),
        camera_serial: decoded_text(bytes, CameraTag::BodySerialNumber),
    }
}

/// An optional text tag that is an ASCII field with ASCII bytes only.
pub open spec fn plain_ascii(t: Option<TagText>) -> bool {
    t is Some && is_ascii_field(t->Some_0)
}

/// The bytes of an optional ASCII field, as characters.
pub open spec fn ascii_text(t: Option<TagText>) -> Seq<char> {
    ascii_chars(flatten(t->Some_0->Ascii_0.deep_view()))
}

/// The text of an optional text tag.
fn optional_text(t: &Option<TagText>) -> (r: Option<String>)
    ensures
        opt_text(r) == opt_tag_text(*t),
        plain_ascii(*t) ==> r is Some && r->Some_0@ == ascii_text(*t),
{
    match t {
        Some(t) => Some(tag_text(t)),
        None => None,
    }
}

/// Turns raw tag values into camera metadata. A missing or malformed tag
/// leaves only its own field absent; text made of ASCII bytes is read
/// unchanged.
pub fn normalize(tags: &RawTags) -> (r: CameraMetadata)
    ensures
        r@ == normalized(*tags),
        r.wf(),
        plain_ascii(tags.capture_time) ==> r.capture_time == timestamp_of(
            parsed_naive(ascii_text(tags.capture_time), CAPTURE_TIME_FORMAT@),
        ),
        plain_ascii(tags.camera_model) ==> r.camera_model is Some && r.camera_model->Some_0@
            == ascii_text(tags.camera_model),
        plain_ascii(tags.camera_serial) ==> r.camera_serial is Some && r.camera_serial->Some_0@
            == ascii_text(tags.camera_serial),
{
    let capture_time = match &tags.capture_time {
        Some(t) => {
            let s = tag_text(t);
            parse_capture_time(s.as_str())
        },
        None => None,
    };
    CameraMetadata {
        orientation: tags.orientation,
        capture_time,
        camera_model: optional_text(&tags.camera_model),
        camera_serial: optional_text(&tags.camera_serial),
    }
}

/// Reads the camera metadata of an image from its bytes. Fails, with the
/// decoder's error, exactly where the bytes hold no well-formed tag
/// container; missing tags never make it fail.
pub fn image_metadata(bytes: &[u8]) -> (r: Result<CameraMetadata, ImageError>)
    ensures
        r is Ok <==> container_decodes(bytes@),
        r is Err ==> r->Err_0 is ExifError,
        r is Ok ==> r->Ok_0@ == decoded_camera(bytes@) && r->Ok_0.wf(),
{
    match decode_tags(bytes) {
        Ok(tags) => {
            let m = normalize(&tags);
            proof {
                lemma_matching_text(tags.capture_time, bytes@, CameraTag::DateTimeOriginal);
                lemma_matching_text(tags.camera_model, bytes@, CameraTag::Model);
                lemma_matching_text(tags.camera_serial, bytes@, CameraTag::BodySerialNumber);
            }
            Ok(m)
        },
        Err(e) => Err(ImageError::ExifError(e)),
    }
}

} // verus!
