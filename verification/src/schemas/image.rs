//! Image size variants served by the remote data source.
use vstd::prelude::*;

verus! {

#[derive(Debug, Copy, Clone, PartialEq, Eq, Structural)]
pub enum ImageType {
    Unknown,
    Thumbnail,
    HD,
    Artwork,
}

pub open spec fn spec_image_type_from_code(code: i32) -> Option<ImageType> {
    if code == 0 {
        Some(ImageType::Unknown)
    } else if code == 1 {
        Some(ImageType::Thumbnail)
    } else if code == 2 {
        Some(ImageType::HD)
    } else if code == 3 {
        Some(ImageType::Artwork)
    } else {
        None
    }
}

/// Decodes the wire representation of an image type.
pub fn image_type_from_code(code: i32) -> (r: Option<ImageType>)
    ensures
        r == spec_image_type_from_code(code),
{
    if code == 0 {
        Some(ImageType::Unknown)
    } else if code == 1 {
        Some(ImageType::Thumbnail)
    } else if code == 2 {
        Some(ImageType::HD)
    } else if code == 3 {
        Some(ImageType::Artwork)
    } else {
        None
    }
}

impl ImageType {
    /// The numeric wire code of this image type.
    pub open spec fn spec_code(self) -> i32 {
        match self {
            ImageType::Unknown => 0,
            ImageType::Thumbnail => 1,
            ImageType::HD => 2,
            ImageType::Artwork => 3,
        }
    }

    pub fn code(&self) -> (r: i32)
        ensures
            r == self.spec_code(),
    {
        match self {
            ImageType::Unknown => 0,
            ImageType::Thumbnail => 1,
            ImageType::HD => 2,
            ImageType::Artwork => 3,
        }
    }
}

} // verus!
