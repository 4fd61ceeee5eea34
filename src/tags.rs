use crate::timestamp::opt_text;
use vstd::prelude::*;

verus! {

#[verifier::external_type_specification]
#[verifier::external_body]
pub struct ExExif(exif::Exif);


/// The tags of the primary image that the camera metadata is read from.
#[derive(Clone, Copy, Debug, PartialEq, Eq, Structural)]
pub enum CameraTag {
    Orientation,
    DateTimeOriginal,
    Model,
    BodySerialNumber,
}

/// Whether exif's `Reader::read_from_container` finds a well-formed tag
/// container in these bytes.
pub uninterp spec fn container_decodes(bytes: Seq<u8>) -> bool;

/// What `String::from_utf8_lossy` makes of these bytes.
pub uninterp spec fn lossy_text(bytes: Seq<u8>) -> Seq<char>;

/// A decoded tag container, with the bytes that it was decoded from.
pub struct Container {
    exif: exif::Exif,
    bytes: Ghost<Seq<u8>>,
}

impl Container {
    /// The bytes that the container was decoded from.
    pub closed spec fn source(&self) -> Seq<u8> {
        self.bytes@
    }
}

/// The first unsigned integer (BYTE, SHORT or LONG) of the primary image's
/// field with this tag, in the container of these bytes; `None` where there is
/// no such field or it holds no unsigned integer.
pub uninterp spec fn exif_uint(bytes: Seq<u8>, tag: CameraTag) -> Option<u32>;

/// The raw byte strings of the primary image's field with this tag, where it
/// is an ASCII field; `None` where there is no such field or it has another type.
pub uninterp spec fn exif_ascii(bytes: Seq<u8>, tag: CameraTag) -> Option<Seq<Seq<u8>>>;

/// The display text that exif gives the primary image's field with this tag;
/// `None` where there is no such field.
pub uninterp spec fn exif_display(bytes: Seq<u8>, tag: CameraTag) -> Option<Seq<char>>;

/// Relies on exif's `Reader::read_from_container`: it decodes the tag
/// container of a TIFF, JPEG, HEIF, PNG or WebP image held in memory, and
/// whether it succeeds depends on the bytes alone.
#[verifier::external_body]
fn read_container(bytes: &[u8]) -> (r: Result<Container, exif::Error>)
    ensures
        r is Ok <==> container_decodes(bytes@),
        r is Ok ==> r->Ok_0.source() == bytes@,
{
    match exif::Reader::new().read_from_container(&mut std::io::Cursor::new(bytes)) {
        Ok(exif) => Ok(Container { exif, bytes: Ghost(bytes@) }),
        Err(e) => Err(e),
    }
}

/// Relies on exif's `Exif::get_field` on the primary image and
/// `Value::get_uint(0)`.
#[verifier::external_body]
fn primary_uint(c: &Container, tag: CameraTag) -> (r: Option<u32>)
    ensures
        r == exif_uint(c.source(), tag),
{
    let tag = match tag {
        CameraTag::Orientation => exif::Tag::Orientation,
        CameraTag::DateTimeOriginal => exif::Tag::DateTimeOriginal,
        CameraTag::Model => exif::Tag::Model,
        CameraTag::BodySerialNumber => exif::Tag::BodySerialNumber,
    };
    match c.exif.get_field(tag, exif::In::PRIMARY) {
        Some(f) => f.value.get_uint(0),
        None => None,
    }
}

/// Relies on exif's `Exif::get_field` on the primary image, and reads the
/// raw byte strings of its `Value::Ascii` variant.
#[verifier::external_body]
fn primary_ascii(c: &Container, tag: CameraTag) -> (r: Option<Vec<Vec<u8>>>)
    ensures
        opt_parts(r) == exif_ascii(c.source(), tag),
{
    let tag = match tag {
        CameraTag::Orientation => exif::Tag::Orientation,
        CameraTag::DateTimeOriginal => exif::Tag::DateTimeOriginal,
        CameraTag::Model => exif::Tag::Model,
        CameraTag::BodySerialNumber => exif::Tag::BodySerialNumber,
    };
    match c.exif.get_field(tag, exif::In::PRIMARY).map(|f| &f.value) {
        Some(exif::Value::Ascii(raw)) => Some(raw.clone()),
        _ => None,
    }
}

/// Relies on exif's `Exif::get_field` on the primary image and
/// `Field::display_value`.
#[verifier::external_body]
fn primary_display(c: &Container, tag: CameraTag) -> (r: Option<String>)
    ensures
        opt_text(r) == exif_display(c.source(), tag),
{
    let tag = match tag {
        CameraTag::Orientation => exif::Tag::Orientation,
        CameraTag::DateTimeOriginal => exif::Tag::DateTimeOriginal,
        CameraTag::Model => exif::Tag::Model,
        CameraTag::BodySerialNumber => exif::Tag::BodySerialNumber,
    };
    match c.exif.get_field(tag, exif::In::PRIMARY) {
        Some(f) => Some(f.display_value().to_string()),
        None => None,
    }
}

/// The byte strings of an optional ASCII field.
pub open spec fn opt_parts(r: Option<Vec<Vec<u8>>>) -> Option<Seq<Seq<u8>>> {
    match r {
        Some(v) => Some(v.deep_view()),
        None => None,
    }
}

/// Relies on `String::from_utf8_lossy`: bytes that are valid UTF-8 are kept
/// as they are (so ASCII bytes become the same characters), and each invalid
/// sequence becomes U+FFFD.
#[verifier::external_body]
fn utf8_lossy(bytes: &[u8]) -> (r: String)
    ensures
        r@ == lossy_text(bytes@),
        all_ascii(bytes@) ==> r@ == ascii_chars(bytes@),
{
    String::from_utf8_lossy(bytes).to_string()
}

/// Bytes below 128 read as the characters with those codes.
pub open spec fn ascii_chars(bytes: Seq<u8>) -> Seq<char> {
    bytes.map_values(|b: u8| b as char)
}

/// The byte strings of an ASCII field, one after the other.
pub open spec fn flatten(parts: Seq<Seq<u8>>) -> Seq<u8>
    decreases parts.len(),
{
    if parts.len() == 0 {
        seq![]
    } else {
        flatten(parts.drop_last()) + parts.last()
    }
}

/// Every byte is below 128.
pub open spec fn all_ascii(bytes: Seq<u8>) -> bool {
    forall|i: int| 0 <= i < bytes.len() ==> bytes[i] < 128u8
}

/// An ASCII field whose bytes are all ASCII.
pub open spec fn is_ascii_field(t: TagText) -> bool {
    t is Ascii && all_ascii(flatten(t->Ascii_0.deep_view()))
}

/// A text tag as the container holds it.
#[derive(Clone, Debug)]
pub enum TagText {
    /// The raw byte strings of an ASCII field.
    Ascii(Vec<Vec<u8>>),
    /// A field of another type, as the decoder renders it for display.
    Rendered(String),
}

/// The text that a text tag carries: the raw bytes of an ASCII field decoded
/// as lossy UTF-8, or the decoder's rendering of any other field.
pub open spec fn text_of(t: TagText) -> Seq<char> {
    match t {
        TagText::Ascii(raw) => lossy_text(flatten(raw.deep_view())),
        TagText::Rendered(s) => s@,
    }
}

/// The raw values of the tags that the camera metadata is made from; `None`
/// where the container lacks the tag (or, for the orientation, holds no
/// unsigned integer in it).
#[derive(Clone, Debug)]
pub struct RawTags {
    pub orientation: Option<u32>,
    pub capture_time: Option<TagText>,
    pub camera_model: Option<TagText>,
    pub camera_serial: Option<TagText>,
}

/// Joins the byte strings of an ASCII field.
pub fn concat_bytes(parts: &Vec<Vec<u8>>) -> (r: Vec<u8>)
    ensures
        r@ == flatten(parts.deep_view()),
{
    let mut out: Vec<u8> = Vec::new();
    let mut i: usize = 0;
    while i < parts.len()
        invariant
            i <= parts.len(),
            out@ == flatten(parts.deep_view().take(i as int)),
        decreases parts.len() - i,
    {
        let part = &parts[i];
        let mut j: usize = 0;
        while j < part.len()
            invariant
                i < parts.len(),
                part == &parts@[i as int],
                j <= part.len(),
                out@ == flatten(parts.deep_view().take(i as int)) + part@.take(j as int),
            decreases part.len() - j,
        {
            out.push(part[j]);
            proof {
                assert(part@.take(j as int + 1) =~= part@.take(j as int).push(part@[j as int]));
            }
            j += 1;
        }
        proof {
            let dv = parts.deep_view();
            assert(dv.take(i as int + 1).drop_last() =~= dv.take(i as int));
            assert(part@.take(j as int) =~= dv[i as int]);
        }
        i += 1;
    }
    proof {
        assert(parts.deep_view().take(parts.len() as int) =~= parts.deep_view());
    }
    out
}

/// The text of a text tag: raw ASCII bytes are decoded as lossy UTF-8 rather
/// than through the decoder's display form, which would quote or escape them.
pub fn tag_text(t: &TagText) -> (r: String)
    ensures
        r@ == text_of(*t),
        is_ascii_field(*t) ==> r@ == ascii_chars(flatten(t->Ascii_0.deep_view())),
{
    match t {
        TagText::Ascii(raw) => {
            let bytes = concat_bytes(raw);
            utf8_lossy(bytes.as_slice())
        },
        TagText::Rendered(s) => s.clone(),
    }
}

/// `t` is the text tag that the container of `bytes` holds under `tag`: the
/// raw byte strings of an ASCII field, exif's display text of a field of
/// another type, or nothing where there is no such field.
pub open spec fn tag_matches(t: Option<TagText>, bytes: Seq<u8>, tag: CameraTag) -> bool {
    match exif_ascii(bytes, tag) {
        Some(raw) => t is Some && t->Some_0 is Ascii && t->Some_0->Ascii_0.deep_view() == raw,
        None => match exif_display(bytes, tag) {
            Some(s) => t is Some && t->Some_0 is Rendered && t->Some_0->Rendered_0@ == s,
            None => t is None,
        },
    }
}

/// `tags` are the raw camera tags of the container of `bytes`.
pub open spec fn tags_of(bytes: Seq<u8>, tags: RawTags) -> bool {
    &&& tags.orientation == exif_uint(bytes, CameraTag::Orientation)
    &&& tag_matches(tags.capture_time, bytes, CameraTag::DateTimeOriginal)
    &&& tag_matches(tags.camera_model, bytes, CameraTag::Model)
    &&& tag_matches(tags.camera_serial, bytes, CameraTag::BodySerialNumber)
}

/// The text that the container of `bytes` gives for `tag`: the raw bytes of
/// an ASCII field decoded as lossy UTF-8, else exif's display text.
pub open spec fn decoded_text(bytes: Seq<u8>, tag: CameraTag) -> Option<Seq<char>> {
    match exif_ascii(bytes, tag) {
        Some(raw) => Some(lossy_text(flatten(raw))),
        None => exif_display(bytes, tag),
    }
}

/// The text tag of a tag of the primary image: its raw bytes where it is an
/// ASCII field, else its display text.
fn text_tag(c: &Container, tag: CameraTag) -> (r: Option<TagText>)
    ensures
        tag_matches(r, c.source(), tag),
{
    match primary_ascii(c, tag) {
        Some(raw) => Some(TagText::Ascii(raw)),
        None => match primary_display(c, tag) {
            Some(s) => Some(TagText::Rendered(s)),
            None => None,
        },
    }
}

/// The raw camera tags of a decoded container.
fn read_tags(c: &Container) -> (r: RawTags)
    ensures
        tags_of(c.source(), r),
{
    RawTags {
        orientation: primary_uint(c, CameraTag::Orientation),
        capture_time: text_tag(c, CameraTag::DateTimeOriginal),
        camera_model: text_tag(c, CameraTag::Model),
        camera_serial: text_tag(c, CameraTag::BodySerialNumber),
    }
}

/// Decodes the tag container of an image and reads its camera tags; fails
/// exactly where the bytes hold no well-formed container.
pub fn decode_tags(bytes: &[u8]) -> (r: Result<RawTags, exif::Error>)
    ensures
        r is Ok <==> container_decodes(bytes@),
        r is Ok ==> tags_of(bytes@, r->Ok_0),
{
    match read_container(bytes) {
        Ok(c) => Ok(read_tags(&c)),
        Err(err) => Err(err),
    }
}

/// The text of a text tag that the container of `bytes` holds under `tag` is
/// the text that the container gives for it.
pub proof fn lemma_matching_text(t: Option<TagText>, bytes: Seq<u8>, tag: CameraTag)
    requires
        tag_matches(t, bytes, tag),
    ensures
        match t {
            Some(t) => Some(text_of(t)),
            None => None::<Seq<char>>,
        } == decoded_text(bytes, tag),
{
}

} // verus!
