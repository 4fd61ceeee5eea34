use vstd::prelude::*;

verus! {

#[verifier::external_type_specification]
#[verifier::external_body]
pub struct ExIoError(std::io::Error);

#[verifier::external_type_specification]
#[verifier::external_body]
pub struct ExExifError(exif::Error);

/// Everything that can stop the processing of one image.
#[derive(Debug)]
pub enum ImageError {
    /// The file could not be stat-ed, read or written.
    IoError(std::io::Error),
    /// The image holds no tag container, or a truncated or malformed one.
    ExifError(exif::Error),
}

impl From<std::io::Error> for ImageError {
    fn from(err: std::io::Error) -> (r: Self)
        ensures
            r == ImageError::IoError(err),
    {
        ImageError::IoError(err)
    }
}

impl vstd::std_specs::convert::FromSpecImpl<std::io::Error> for ImageError {
    open spec fn obeys_from_spec() -> bool {
        true
    }

    open spec fn from_spec(v: std::io::Error) -> ImageError {
        ImageError::IoError(v)
    }
}

impl From<exif::Error> for ImageError {
    fn from(err: exif::Error) -> (r: Self)
        ensures
            r == ImageError::ExifError(err),
    {
        ImageError::ExifError(err)
    }
}

impl vstd::std_specs::convert::FromSpecImpl<exif::Error> for ImageError {
    open spec fn obeys_from_spec() -> bool {
        true
    }

    open spec fn from_spec(v: exif::Error) -> ImageError {
        ImageError::ExifError(v)
    }
}

} // verus!
