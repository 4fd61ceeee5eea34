//! Extraction of file and camera metadata from an image, normalized into one
//! record whose JSON fields have a fixed order.

pub mod error;
pub mod normalize;
pub mod pipeline;
pub mod record;
pub mod tags;
pub mod timestamp;

pub use error::ImageError;
pub use normalize::{image_metadata, normalize, CameraMetadata};
pub use pipeline::process_file;
pub use record::{json_fields, merge, CombinedMetadata, FileMetadata, JsonField, JsonValue};
pub use tags::{concat_bytes, decode_tags, tag_text, CameraTag, RawTags, TagText};
pub use timestamp::{
    parse_capture_time, Instant, NaiveTimestamp, CAPTURE_TIME_FORMAT, MAX_SECS, MIN_SECS,
};
