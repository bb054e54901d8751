//! Boundary operations that span more than one component: encoding a
//! handle's image into a transferred buffer, and format detection with a
//! status code plus out-parameter shape.

use vstd::prelude::*;

use crate::bridge::ImageFormatEnum;
use crate::buffers::BufferStore;
use crate::codes::{code_of_failure, ImageErrorCode};
use crate::handles::{HandleStore, ImageHandle};
use crate::image_ops::{encode_image, guess_image_format, has_png_signature, spec_detect};

verus! {

/// What an encode call hands back: a buffer token standing for the encoded
/// bytes, the byte count, and the status code. On failure the token and the
/// length are zero and nothing was transferred.
#[derive(Clone, Copy, Debug, PartialEq, Eq, Structural)]
pub struct ImageDataResult {
    pub data: usize,
    pub len: usize,
    pub error_code: ImageErrorCode,
}

/// Encode a live handle's image in the given format and transfer the bytes
/// to the caller.
///
/// The status is `InvalidPointer` exactly when the handle is not live,
/// checked before the collaborator is consulted (a collaborator failure
/// keeps its own taxonomy code). A successful encode hands out a fresh live
/// buffer token whose recorded length equals the reported, nonzero length —
/// exactly what `BufferStore::release` will later demand back. On any
/// failure the buffer store is left untouched.
pub fn encode(
    images: &HandleStore,
    buffers: &mut BufferStore,
    h: ImageHandle,
    format: ImageFormatEnum,
) -> (r: ImageDataResult)
    ensures
        r.error_code == ImageErrorCode::InvalidPointer <==> !images.spec_live(h),
        r.error_code != ImageErrorCode::Success ==> r.data == 0 && r.len == 0 && *final(buffers)
            == *old(buffers),
        r.error_code == ImageErrorCode::Success ==> {
            &&& images.spec_live(h)
            &&& r.len > 0
            &&& r.data == old(buffers).spec_len() + 1
            &&& final(buffers).spec_len() == old(buffers).spec_len() + 1
            &&& final(buffers).spec_live(r.data)
            &&& final(buffers).spec_contents(r.data).len() == r.len
            &&& final(buffers).spec_release_ok(r.data, r.len)
            &&& forall|i: int|
                0 <= i < old(buffers).spec_len() ==> final(buffers).spec_slot(i) == old(
                    buffers,
                ).spec_slot(i)
        },
{
    let img = match images.get(h) {
        Option::Some(img) => img,
        Option::None => {
            return ImageDataResult {
                data: 0,
                len: 0,
                error_code: ImageErrorCode::InvalidPointer,
            };
        },
    };
    match encode_image(img, format.to_image_format()) {
        Result::Ok(bytes) => {
            let (token, len) = buffers.transfer(bytes);
            ImageDataResult { data: token, len, error_code: ImageErrorCode::Success }
        },
        Result::Err(kind) => ImageDataResult {
            data: 0,
            len: 0,
            error_code: code_of_failure(kind),
        },
    }
}

/// Guess the boundary format of a byte buffer, reporting a status code and,
/// on success, the format's wire tag.
///
/// The status is `InvalidPointer` exactly for the empty buffer, which is
/// rejected before the collaborator is consulted; otherwise the call
/// succeeds exactly when detection hits the boundary's closed set, writing
/// the detected format's tag, and reports `UnsupportedFormat` otherwise —
/// so equal byte values always get equal answers. A tag is written exactly
/// when the status is `Success`.
pub fn guess_format(data: &[u8]) -> (r: (ImageErrorCode, Option<u32>))
    ensures
        r.0 == ImageErrorCode::InvalidPointer <==> data@.len() == 0,
        r.0 == ImageErrorCode::Success <==> data@.len() > 0 && spec_detect(data@) is Some,
        data@.len() > 0 && spec_detect(data@) is Some ==> r.1 == Option::Some(
            spec_detect(data@).unwrap().spec_tag(),
        ),
        data@.len() > 0 && spec_detect(data@) is None ==> r.0
            == ImageErrorCode::UnsupportedFormat,
        has_png_signature(data@) ==> r.0 == ImageErrorCode::Success && r.1 == Option::Some(
            ImageFormatEnum::Png.spec_tag(),
        ),
        r.0 == ImageErrorCode::Success <==> r.1 is Some,
{
    if data.len() == 0 {
        return (ImageErrorCode::InvalidPointer, Option::None);
    }
    match guess_image_format(data) {
        Result::Ok(f) => (ImageErrorCode::Success, Option::Some(f.tag())),
        Result::Err(kind) => (code_of_failure(kind), Option::None),
    }
}

} // verus!
