//! The enum bridge: bidirectional mapping between boundary-stable integer
//! tags and the closed sets of encodings and resampling kernels, plus the
//! trusted step onto the collaborator's own enums.

use vstd::prelude::*;

verus! {

/// The collaborator's format selector, opaque to the verified core.
#[verifier::external_type_specification]
#[verifier::external_body]
pub struct ExImageFormat(image::ImageFormat);

/// The collaborator's resampling-kernel selector, opaque to the verified core.
#[verifier::external_type_specification]
#[verifier::external_body]
pub struct ExFilterType(image::imageops::FilterType);

/// Boundary-visible image format. A closed set: the boundary deliberately
/// exposes fewer formats than the collaborator supports.
#[derive(Clone, Copy, Debug, PartialEq, Eq, Structural)]
pub enum ImageFormatEnum {
    Png,
    Jpeg,
    Gif,
    WebP,
    Bmp,
    Ico,
    Tiff,
}

impl ImageFormatEnum {
    /// The stable integer tag of this format on the wire.
    pub open spec fn spec_tag(self) -> u32 {
        match self {
            ImageFormatEnum::Png => 0,
            ImageFormatEnum::Jpeg => 1,
            ImageFormatEnum::Gif => 2,
            ImageFormatEnum::WebP => 3,
            ImageFormatEnum::Bmp => 4,
            ImageFormatEnum::Ico => 5,
            ImageFormatEnum::Tiff => 6,
        }
    }

    /// The format a wire tag stands for, if any.
    pub open spec fn spec_from_tag(t: u32) -> Option<ImageFormatEnum> {
        if t == 0 {
            Option::Some(ImageFormatEnum::Png)
        } else if t == 1 {
            Option::Some(ImageFormatEnum::Jpeg)
        } else if t == 2 {
            Option::Some(ImageFormatEnum::Gif)
        } else if t == 3 {
            Option::Some(ImageFormatEnum::WebP)
        } else if t == 4 {
            Option::Some(ImageFormatEnum::Bmp)
        } else if t == 5 {
            Option::Some(ImageFormatEnum::Ico)
        } else if t == 6 {
            Option::Some(ImageFormatEnum::Tiff)
        } else {
            Option::None
        }
    }

    /// The stable integer tag of this format on the wire.
    pub fn tag(&self) -> (t: u32)
        ensures
            t == self.spec_tag(),
    {
        match self {
            ImageFormatEnum::Png => 0,
            ImageFormatEnum::Jpeg => 1,
            ImageFormatEnum::Gif => 2,
            ImageFormatEnum::WebP => 3,
            ImageFormatEnum::Bmp => 4,
            ImageFormatEnum::Ico => 5,
            ImageFormatEnum::Tiff => 6,
        }
    }

    /// Recover a format from its wire tag; unknown tags are rejected.
    pub fn from_tag(t: u32) -> (r: Option<ImageFormatEnum>)
        ensures
            r == Self::spec_from_tag(t),
    {
        if t == 0 {
            Option::Some(ImageFormatEnum::Png)
        } else if t == 1 {
            Option::Some(ImageFormatEnum::Jpeg)
        } else if t == 2 {
            Option::Some(ImageFormatEnum::Gif)
        } else if t == 3 {
            Option::Some(ImageFormatEnum::WebP)
        } else if t == 4 {
            Option::Some(ImageFormatEnum::Bmp)
        } else if t == 5 {
            Option::Some(ImageFormatEnum::Ico)
        } else if t == 6 {
            Option::Some(ImageFormatEnum::Tiff)
        } else {
            Option::None
        }
    }

    /// Relies on `image::ImageFormat`: each boundary format names exactly one
    /// of the collaborator's format variants, `Png` through `Tiff`.
    #[verifier::external_body]
    pub fn to_image_format(&self) -> image::ImageFormat {
        match self {
            ImageFormatEnum::Png => image::ImageFormat::Png,
            ImageFormatEnum::Jpeg => image::ImageFormat::Jpeg,
            ImageFormatEnum::Gif => image::ImageFormat::Gif,
            ImageFormatEnum::WebP => image::ImageFormat::WebP,
            ImageFormatEnum::Bmp => image::ImageFormat::Bmp,
            ImageFormatEnum::Ico => image::ImageFormat::Ico,
            ImageFormatEnum::Tiff => image::ImageFormat::Tiff,
        }
    }

    /// Relies on `image::ImageFormat`: the seven variants the boundary
    /// exposes map back to it, and every other collaborator format (for
    /// example `Pnm` or `Qoi`) is reported as unrecognized.
    #[verifier::external_body]
    pub fn from_image_format(format: image::ImageFormat) -> Option<ImageFormatEnum> {
        match format {
            image::ImageFormat::Png => Option::Some(ImageFormatEnum::Png),
            image::ImageFormat::Jpeg => Option::Some(ImageFormatEnum::Jpeg),
            image::ImageFormat::Gif => Option::Some(ImageFormatEnum::Gif),
            image::ImageFormat::WebP => Option::Some(ImageFormatEnum::WebP),
            image::ImageFormat::Bmp => Option::Some(ImageFormatEnum::Bmp),
            image::ImageFormat::Ico => Option::Some(ImageFormatEnum::Ico),
            image::ImageFormat::Tiff => Option::Some(ImageFormatEnum::Tiff),
            _ => Option::None,
        }
    }
}

/// Boundary-visible resampling kernel for the resize operations. A closed
/// set, total over the collaborator's kernels.
#[derive(Clone, Copy, Debug, PartialEq, Eq, Structural)]
pub enum FilterTypeEnum {
    Nearest,
    Triangle,
    CatmullRom,
    Gaussian,
    Lanczos3,
}

impl FilterTypeEnum {
    /// The stable integer tag of this kernel on the wire.
    pub open spec fn spec_tag(self) -> u32 {
        match self {
            FilterTypeEnum::Nearest => 0,
            FilterTypeEnum::Triangle => 1,
            FilterTypeEnum::CatmullRom => 2,
            FilterTypeEnum::Gaussian => 3,
            FilterTypeEnum::Lanczos3 => 4,
        }
    }

    /// The kernel a wire tag stands for, if any.
    pub open spec fn spec_from_tag(t: u32) -> Option<FilterTypeEnum> {
        if t == 0 {
            Option::Some(FilterTypeEnum::Nearest)
        } else if t == 1 {
            Option::Some(FilterTypeEnum::Triangle)
        } else if t == 2 {
            Option::Some(FilterTypeEnum::CatmullRom)
        } else if t == 3 {
            Option::Some(FilterTypeEnum::Gaussian)
        } else if t == 4 {
            Option::Some(FilterTypeEnum::Lanczos3)
        } else {
            Option::None
        }
    }

    /// The stable integer tag of this kernel on the wire.
    pub fn tag(&self) -> (t: u32)
        ensures
            t == self.spec_tag(),
    {
        match self {
            FilterTypeEnum::Nearest => 0,
            FilterTypeEnum::Triangle => 1,
            FilterTypeEnum::CatmullRom => 2,
            FilterTypeEnum::Gaussian => 3,
            FilterTypeEnum::Lanczos3 => 4,
        }
    }

    /// Recover a kernel from its wire tag; unknown tags are rejected.
    pub fn from_tag(t: u32) -> (r: Option<FilterTypeEnum>)
        ensures
            r == Self::spec_from_tag(t),
    {
        if t == 0 {
            Option::Some(FilterTypeEnum::Nearest)
        } else if t == 1 {
            Option::Some(FilterTypeEnum::Triangle)
        } else if t == 2 {
            Option::Some(FilterTypeEnum::CatmullRom)
        } else if t == 3 {
            Option::Some(FilterTypeEnum::Gaussian)
        } else if t == 4 {
            Option::Some(FilterTypeEnum::Lanczos3)
        } else {
            Option::None
        }
    }

    /// Relies on `image::imageops::FilterType`: each boundary kernel names
    /// exactly one of the collaborator's kernel variants.
    #[verifier::external_body]
    pub fn to_filter_type(&self) -> image::imageops::FilterType {
        match self {
            FilterTypeEnum::Nearest => image::imageops::FilterType::Nearest,
            FilterTypeEnum::Triangle => image::imageops::FilterType::Triangle,
            FilterTypeEnum::CatmullRom => image::imageops::FilterType::CatmullRom,
            FilterTypeEnum::Gaussian => image::imageops::FilterType::Gaussian,
            FilterTypeEnum::Lanczos3 => image::imageops::FilterType::Lanczos3,
        }
    }
}

/// The format half of the enum bridge is total over its tag range and has no
/// fallthrough: every tag `0..=6` names exactly one format, tag and format
/// determine each other, and no two formats share a tag.
pub proof fn lemma_format_bridge_total()
    ensures
        forall|t: u32| t <= 6 ==> #[trigger] ImageFormatEnum::spec_from_tag(t) is Some,
        forall|t: u32| t > 6 ==> #[trigger] ImageFormatEnum::spec_from_tag(t) is None,
        forall|t: u32|
            t <= 6 ==> (#[trigger] ImageFormatEnum::spec_from_tag(t)).unwrap().spec_tag() == t,
        forall|f: ImageFormatEnum|
            ImageFormatEnum::spec_from_tag(#[trigger] f.spec_tag()) == Option::Some(f),
        forall|f1: ImageFormatEnum, f2: ImageFormatEnum|
            #[trigger] f1.spec_tag() == #[trigger] f2.spec_tag() ==> f1 == f2,
{
}

/// The filter half of the enum bridge is total over its tag range and has no
/// fallthrough, in the same sense as the format half.
pub proof fn lemma_filter_bridge_total()
    ensures
        forall|t: u32| t <= 4 ==> #[trigger] FilterTypeEnum::spec_from_tag(t) is Some,
        forall|t: u32| t > 4 ==> #[trigger] FilterTypeEnum::spec_from_tag(t) is None,
        forall|t: u32|
            t <= 4 ==> (#[trigger] FilterTypeEnum::spec_from_tag(t)).unwrap().spec_tag() == t,
        forall|f: FilterTypeEnum|
            FilterTypeEnum::spec_from_tag(#[trigger] f.spec_tag()) == Option::Some(f),
        forall|f1: FilterTypeEnum, f2: FilterTypeEnum|
            #[trigger] f1.spec_tag() == #[trigger] f2.spec_tag() ==> f1 == f2,
{
}

} // verus!
