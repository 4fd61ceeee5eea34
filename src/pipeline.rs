use crate::error::ImageError;
use crate::normalize::{decoded_camera, image_metadata, CameraView};
use crate::record::{
    fields_of, fields_view, instant_field, json_fields, merge, naive_field, number_field,
    text_field, times_render, FileMetadata, JsonField, JsonScalar,
};
use crate::tags::{container_decodes, decoded_text, exif_ascii, exif_display, exif_uint, CameraTag};
use vstd::prelude::*;

verus! {

/// Processes one image: reads the camera metadata from the image's bytes,
/// merges it with the file's attributes, and gives the fields of the sidecar
/// JSON object in order. Fails exactly where the bytes hold no well-formed tag
/// container; a missing or malformed tag only leaves its field out. The
/// second field is always `size`, with the file's length.
pub fn process_file(file: FileMetadata, contents: &[u8]) -> (r: Result<Vec<JsonField>, ImageError>)
    requires
        file.wf(),
    ensures
        r is Ok <==> container_decodes(contents@),
        r is Err ==> r->Err_0 is ExifError,
        r is Ok ==> fields_view(r->Ok_0@) == fields_of(file, decoded_camera(contents@)),
        r is Ok ==> times_render(file, decoded_camera(contents@)),
        r is Ok ==> r->Ok_0@.len() >= 2 && r->Ok_0@[1]@ == ("size"@, JsonScalar::Number(file.size)),
{
    match image_metadata(contents) {
        Ok(c) => {
            let ghost f = file;
            let rec = merge(file, c);
            let fields = json_fields(&rec);
            proof {
                lemma_size_is_reported(f, decoded_camera(contents@));
                assert(fields_view(fields@)[1] == fields@[1]@);
            }
            Ok(fields)
        },
        Err(e) => Err(e),
    }
}

/// The second field of every record is `size`, with the file's length in bytes.
pub proof fn lemma_size_is_reported(f: FileMetadata, c: CameraView)
    ensures
        fields_of(f, c).len() >= 2,
        fields_of(f, c)[1] == ("size"@, JsonScalar::Number(f.size)),
{
}

/// An image without a capture-time tag has no capture time, and its other
/// camera fields are read as ever; whether processing succeeds depends on the
/// container alone (see `process_file`).
pub proof fn lemma_missing_capture_time(bytes: Seq<u8>)
    requires
        exif_ascii(bytes, CameraTag::DateTimeOriginal) is None,
        exif_display(bytes, CameraTag::DateTimeOriginal) is None,
    ensures
        decoded_camera(bytes).capture_time is None,
        decoded_camera(bytes).orientation == exif_uint(bytes, CameraTag::Orientation),
        decoded_camera(bytes).camera_model == decoded_text(bytes, CameraTag::Model),
        decoded_camera(bytes).camera_serial == decoded_text(bytes, CameraTag::BodySerialNumber),
{
}

/// In a record whose present times have texts, each optional value that is
/// present has its field, and each that is absent has none.
pub proof fn lemma_present_values_have_fields(f: FileMetadata, c: CameraView)
    requires
        times_render(f, c),
    ensures
        instant_field("created_time"@, f.created_time).len() == if f.created_time is Some { 1int } else { 0 },
        instant_field("modified_time"@, f.modified_time).len() == if f.modified_time is Some { 1int } else { 0 },
        number_field("orientation"@, c.orientation).len() == if c.orientation is Some { 1int } else { 0 },
        naive_field("capture_time"@, c.capture_time).len() == if c.capture_time is Some { 1int } else { 0 },
        text_field("camera_model"@, c.camera_model).len() == if c.camera_model is Some { 1int } else { 0 },
        text_field("camera_serial"@, c.camera_serial).len() == if c.camera_serial is Some { 1int } else { 0 },
{
}

/// The place of a key in the declared order of the output record; 8 for a
/// key that is not declared.
pub open spec fn key_rank(k: Seq<char>) -> int {
    if k == "filename"@ {
        0
    } else if k == "size"@ {
        1
    } else if k == "created_time"@ {
        2
    } else if k == "modified_time"@ {
        3
    } else if k == "orientation"@ {
        4
    } else if k == "capture_time"@ {
        5
    } else if k == "camera_model"@ {
        6
    } else if k == "camera_serial"@ {
        7
    } else {
        8
    }
}

/// Each key comes later in the declared order than the keys before it.
pub open spec fn ranks_increase(s: Seq<(Seq<char>, JsonScalar)>) -> bool {
    forall|i: int, j: int| 0 <= i < j < s.len() ==> key_rank(#[trigger] s[i].0) < key_rank(#[trigger] s[j].0)
}

/// Every key comes before place `r` in the declared order.
pub open spec fn ranks_below(s: Seq<(Seq<char>, JsonScalar)>, r: int) -> bool {
    forall|i: int| 0 <= i < s.len() ==> key_rank(#[trigger] s[i].0) < r
}

/// Every key of `t` is at place `r` of the declared order.
pub open spec fn ranks_at(t: Seq<(Seq<char>, JsonScalar)>, r: int) -> bool {
    forall|i: int| 0 <= i < t.len() ==> key_rank(#[trigger] t[i].0) == r
}

proof fn lemma_append_piece(s: Seq<(Seq<char>, JsonScalar)>, t: Seq<(Seq<char>, JsonScalar)>, r: int)
    requires
        ranks_increase(s),
        ranks_below(s, r),
        t.len() <= 1,
        ranks_at(t, r),
    ensures
        ranks_increase(s + t),
        ranks_below(s + t, r + 1),
{
    let u = s + t;
    assert forall|i: int, j: int| 0 <= i < j < u.len() implies key_rank(#[trigger] u[i].0) < key_rank(#[trigger] u[j].0) by {
        if j < s.len() {
            assert(u[i] == s[i] && u[j] == s[j]);
        } else {
            assert(u[j] == t[j - s.len()]);
            assert(u[i] == s[i]);
        }
    }
    assert forall|i: int| 0 <= i < u.len() implies key_rank(#[trigger] u[i].0) < r + 1 by {
        if i < s.len() {
            assert(u[i] == s[i]);
        } else {
            assert(u[i] == t[i - s.len()]);
        }
    }
}

proof fn lemma_key_ranks()
    ensures
        key_rank("filename"@) == 0,
        key_rank("size"@) == 1,
        key_rank("created_time"@) == 2,
        key_rank("modified_time"@) == 3,
        key_rank("orientation"@) == 4,
        key_rank("capture_time"@) == 5,
        key_rank("camera_model"@) == 6,
        key_rank("camera_serial"@) == 7,
{
    reveal_strlit("filename");
    reveal_strlit("size");
    reveal_strlit("created_time");
    reveal_strlit("modified_time");
    reveal_strlit("orientation");
    reveal_strlit("capture_time");
    reveal_strlit("camera_model");
    reveal_strlit("camera_serial");
    assert("filename"@.len() == 8 && "size"@.len() == 4 && "orientation"@.len() == 11);
    assert("created_time"@.len() == 12 && "modified_time"@.len() == 13);
    assert("capture_time"@.len() == 12 && "camera_model"@.len() == 12 && "camera_serial"@.len() == 13);
    assert("created_time"@[1] != "capture_time"@[1]);
    assert("created_time"@[1] != "camera_model"@[1]);
    assert("capture_time"@[2] != "camera_model"@[2]);
    assert("capture_time"@[0] != "filename"@[0]);
    assert("camera_model"@[0] != "filename"@[0]);
    assert("camera_serial"@[0] != "modified_time"@[0]);
}

/// The keys of every record come in the declared order (`filename`, `size`,
/// `created_time`, `modified_time`, `orientation`, `capture_time`,
/// `camera_model`, `camera_serial`), so that no key appears twice.
pub proof fn lemma_keys_in_declared_order(f: FileMetadata, c: CameraView)
    ensures
        ranks_increase(fields_of(f, c)),
        ranks_below(fields_of(f, c), 8),
{
    lemma_key_ranks();
    let s0: Seq<(Seq<char>, JsonScalar)> = seq![];
    let p0 = seq![("filename"@, JsonScalar::Text(f.filename@))];
    let p1 = seq![("size"@, JsonScalar::Number(f.size))];
    let p2 = instant_field("created_time"@, f.created_time);
    let p3 = instant_field("modified_time"@, f.modified_time);
    let p4 = number_field("orientation"@, c.orientation);
    let p5 = naive_field("capture_time"@, c.capture_time);
    let p6 = text_field("camera_model"@, c.camera_model);
    let p7 = text_field("camera_serial"@, c.camera_serial);
    lemma_append_piece(s0, p0, 0);
    assert(s0 + p0 =~= p0);
    lemma_append_piece(p0, p1, 1);
    assert(p0 + p1 =~= seq![("filename"@, JsonScalar::Text(f.filename@)), ("size"@, JsonScalar::Number(f.size))]);
    lemma_append_piece(p0 + p1, p2, 2);
    lemma_append_piece(p0 + p1 + p2, p3, 3);
    lemma_append_piece(p0 + p1 + p2 + p3, p4, 4);
    lemma_append_piece(p0 + p1 + p2 + p3 + p4, p5, 5);
    lemma_append_piece(p0 + p1 + p2 + p3 + p4 + p5, p6, 6);
    lemma_append_piece(p0 + p1 + p2 + p3 + p4 + p5 + p6, p7, 7);
}

} // verus!
