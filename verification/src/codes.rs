//! The closed set of boundary-visible status codes, and the total mapping
//! from internal failure categories onto it.

use vstd::prelude::*;

verus! {

/// Status code returned across the boundary. A closed enumeration: every
/// operation that reports status returns exactly one of these values.
#[derive(Clone, Copy, Debug, PartialEq, Eq, Structural)]
pub enum ImageErrorCode {
    Success,
    InvalidPath,
    UnsupportedFormat,
    DecodingError,
    EncodingError,
    IoError,
    InvalidDimensions,
    InvalidPointer,
    Unknown,
}

impl ImageErrorCode {
    /// The stable integer value of this code on the wire.
    pub open spec fn spec_code(self) -> u32 {
        match self {
            ImageErrorCode::Success => 0,
            ImageErrorCode::InvalidPath => 1,
            ImageErrorCode::UnsupportedFormat => 2,
            ImageErrorCode::DecodingError => 3,
            ImageErrorCode::EncodingError => 4,
            ImageErrorCode::IoError => 5,
            ImageErrorCode::InvalidDimensions => 6,
            ImageErrorCode::InvalidPointer => 7,
            ImageErrorCode::Unknown => 99,
        }
    }

    /// The stable integer value of this code on the wire.
    pub fn code(&self) -> (c: u32)
        ensures
            c == self.spec_code(),
    {
        match self {
            ImageErrorCode::Success => 0,
            ImageErrorCode::InvalidPath => 1,
            ImageErrorCode::UnsupportedFormat => 2,
            ImageErrorCode::DecodingError => 3,
            ImageErrorCode::EncodingError => 4,
            ImageErrorCode::IoError => 5,
            ImageErrorCode::InvalidDimensions => 6,
            ImageErrorCode::InvalidPointer => 7,
            ImageErrorCode::Unknown => 99,
        }
    }
}

/// Internal failure category: the classification of a collaborator failure
/// before it is turned into a boundary status code. `Other` is the catch-all
/// for categories the taxonomy does not claim to distinguish.
#[derive(Clone, Copy, Debug, PartialEq, Eq, Structural)]
pub enum FailureKind {
    Decoding,
    Encoding,
    Io,
    Limits,
    Unsupported,
    Other,
}

/// The boundary status code for each internal failure category.
pub open spec fn spec_code_of_failure(k: FailureKind) -> ImageErrorCode {
    match k {
        FailureKind::Decoding => ImageErrorCode::DecodingError,
        FailureKind::Encoding => ImageErrorCode::EncodingError,
        FailureKind::Io => ImageErrorCode::IoError,
        FailureKind::Limits => ImageErrorCode::InvalidDimensions,
        FailureKind::Unsupported => ImageErrorCode::UnsupportedFormat,
        FailureKind::Other => ImageErrorCode::Unknown,
    }
}

/// Turn an internal failure category into its boundary status code.
pub fn code_of_failure(k: FailureKind) -> (c: ImageErrorCode)
    ensures
        c == spec_code_of_failure(k),
{
    match k {
        FailureKind::Decoding => ImageErrorCode::DecodingError,
        FailureKind::Encoding => ImageErrorCode::EncodingError,
        FailureKind::Io => ImageErrorCode::IoError,
        FailureKind::Limits => ImageErrorCode::InvalidDimensions,
        FailureKind::Unsupported => ImageErrorCode::UnsupportedFormat,
        FailureKind::Other => ImageErrorCode::Unknown,
    }
}

/// The taxonomy is total and honest: every category it claims to support maps
/// to a dedicated non-`Unknown`, non-`Success` code; everything unclassified
/// maps to `Unknown`; and no two categories share a code.
pub proof fn lemma_failure_taxonomy_total()
    ensures
        forall|k: FailureKind| #[trigger] spec_code_of_failure(k) != ImageErrorCode::Success,
        forall|k: FailureKind|
            k != FailureKind::Other ==> #[trigger] spec_code_of_failure(k)
                != ImageErrorCode::Unknown,
        spec_code_of_failure(FailureKind::Other) == ImageErrorCode::Unknown,
        forall|k1: FailureKind, k2: FailureKind|
            #[trigger] spec_code_of_failure(k1) == #[trigger] spec_code_of_failure(k2) ==> k1
                == k2,
{
}

/// The wire values of the status codes are pairwise distinct, so a caller can
/// recover the code from the integer it received.
pub proof fn lemma_codes_distinct()
    ensures
        forall|a: ImageErrorCode, b: ImageErrorCode|
            #[trigger] a.spec_code() == #[trigger] b.spec_code() ==> a == b,
{
}

} // verus!
