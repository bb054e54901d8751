//! The opaque handle model.
//!
//! An image value, once produced, crosses the boundary only as an opaque
//! pointer-sized token. The store behind the tokens is an arena of slots:
//! a handle is one more than the index of its slot, zero is the null
//! sentinel, and a freed slot is tombstoned rather than reused, so a stale
//! handle is detectable and never dangles.

use vstd::prelude::*;

use crate::bridge::{FilterTypeEnum, ImageFormatEnum};
use crate::codes::ImageErrorCode;
use crate::image_ops::{
    adjust_brightness, crop_image, flip_horizontal, flip_vertical, get_metadata, grayscale,
    load_image_from_memory, load_image_from_memory_with_format, resize_exact, resize_image,
    resize_to_fit, rotate_180, rotate_270, rotate_90, spec_color_tag, spec_crop_extent,
    spec_decoded, spec_decoded_as, spec_fill_in_range, spec_fit_dims, ColorKind, Image, ImageMeta,
    ImageMetadata,
};

verus! {

/// Opaque, boundary-stable token identifying one in-memory image value.
/// The foreign side can store and return it but never inspect it.
#[derive(Clone, Copy, Debug, PartialEq, Eq, Structural)]
pub struct ImageHandle {
    raw: usize,
}

impl ImageHandle {
    /// The pointer-sized value that crosses the boundary.
    pub closed spec fn spec_raw(self) -> usize {
        self.raw
    }

    /// Whether this is the null sentinel, meaning "no image".
    pub open spec fn spec_is_null(self) -> bool {
        self.spec_raw() == 0
    }

    /// The null sentinel.
    pub fn null() -> (h: ImageHandle)
        ensures
            h.spec_is_null(),
    {
        ImageHandle { raw: 0 }
    }

    /// Whether this is the null sentinel.
    pub fn is_null(&self) -> (b: bool)
        ensures
            b == self.spec_is_null(),
    {
        self.raw == 0
    }

    /// The pointer-sized value that crosses the boundary.
    pub fn raw(&self) -> (r: usize)
        ensures
            r == self.spec_raw(),
    {
        self.raw
    }

    /// Reconstruct the token a foreign caller handed back.
    pub fn from_raw(raw: usize) -> (h: ImageHandle)
        ensures
            h.spec_raw() == raw,
    {
        ImageHandle { raw }
    }
}

/// The null sentinel is never a live handle, in any store.
pub proof fn lemma_null_handle_never_live(s: &HandleStore, h: ImageHandle)
    requires
        h.spec_is_null(),
    ensures
        !s.spec_live(h),
{
}

/// The arena that owns every image value currently on loan to the caller.
pub struct HandleStore {
    slots: Vec<Option<Image>>,
}

/// `post` is `pre` with one fresh image added under the fresh non-null
/// handle `out`; every slot `pre` already had is untouched.
pub open spec fn spec_pushed(pre: HandleStore, post: HandleStore, out: ImageHandle) -> bool {
    &&& !out.spec_is_null()
    &&& out.spec_raw() == pre.spec_len() + 1
    &&& post.spec_len() == pre.spec_len() + 1
    &&& post.spec_live(out)
    &&& forall|i: int| 0 <= i < pre.spec_len() ==> post.spec_slot(i) == pre.spec_slot(i)
}

/// `spec_pushed`, and the fresh image's metadata is exactly `m`.
pub open spec fn spec_extended(
    pre: HandleStore,
    post: HandleStore,
    out: ImageHandle,
    m: ImageMeta,
) -> bool {
    &&& spec_pushed(pre, post, out)
    &&& post.spec_meta(out) == m
}

impl HandleStore {
    /// Number of slots ever created (freed slots are tombstoned, not reused).
    pub closed spec fn spec_len(self) -> nat {
        self.slots@.len()
    }

    /// The metadata in slot `i`, or `None` for a tombstone.
    pub closed spec fn spec_slot(self, i: int) -> Option<ImageMeta> {
        match self.slots@[i] {
            Option::Some(img) => Option::Some(img@),
            Option::None => Option::None,
        }
    }

    /// Whether `h` is live: non-null, within the arena, and not yet freed.
    pub open spec fn spec_live(self, h: ImageHandle) -> bool {
        &&& 1 <= h.spec_raw() <= self.spec_len()
        &&& self.spec_slot(h.spec_raw() - 1) is Some
    }

    /// The metadata of the image a live handle stands for.
    pub open spec fn spec_meta(self, h: ImageHandle) -> ImageMeta {
        self.spec_slot(h.spec_raw() - 1).unwrap()
    }

    /// An empty store: no handle is live.
    pub fn new() -> (s: HandleStore)
        ensures
            s.spec_len() == 0,
            forall|h: ImageHandle| !s.spec_live(h),
    {
        HandleStore { slots: Vec::new() }
    }

    /// Move an image into the arena and hand out a fresh, non-null handle.
    /// Every already-issued handle keeps its slot untouched.
    pub fn create(&mut self, img: Image) -> (h: ImageHandle)
        ensures
            !h.spec_is_null(),
            h.spec_raw() == old(self).spec_len() + 1,
            final(self).spec_len() == old(self).spec_len() + 1,
            final(self).spec_live(h),
            final(self).spec_meta(h) == img@,
            forall|i: int|
                0 <= i < old(self).spec_len() ==> final(self).spec_slot(i) == old(self).spec_slot(
                    i,
                ),
    {
        self.slots.push(Option::Some(img));
        ImageHandle { raw: self.slots.len() }
    }

    /// Whether a handle is currently live.
    pub fn live(&self, h: ImageHandle) -> (b: bool)
        ensures
            b == self.spec_live(h),
    {
        let r = h.raw();
        if r == 0 || r > self.slots.len() {
            false
        } else {
            self.slots[r - 1].is_some()
        }
    }

    /// Borrow the image a handle stands for, read-only. `None` exactly for
    /// the null sentinel and for handles already freed.
    pub fn get(&self, h: ImageHandle) -> (r: Option<&Image>)
        ensures
            r is Some <==> self.spec_live(h),
            r is Some ==> r.unwrap()@ == self.spec_meta(h),
    {
        let raw = h.raw();
        if raw == 0 || raw > self.slots.len() {
            Option::None
        } else {
            match &self.slots[raw - 1] {
                Option::Some(img) => Option::Some(img),
                Option::None => Option::None,
            }
        }
    }

    /// Release a handle. Freeing the null sentinel is a no-op; freeing a
    /// handle that is not live (already freed, or never issued) changes
    /// nothing, so a double free is inert; freeing a live handle tombstones
    /// exactly its slot, and the handle is never live again.
    pub fn free(&mut self, h: ImageHandle)
        ensures
            !old(self).spec_live(h) ==> *final(self) == *old(self),
            final(self).spec_len() == old(self).spec_len(),
            !final(self).spec_live(h),
            forall|i: int|
                0 <= i < old(self).spec_len() && i != h.spec_raw() - 1 ==> final(self).spec_slot(i)
                    == old(self).spec_slot(i),
    {
        let raw = h.raw();
        if raw == 0 || raw > self.slots.len() {
            return ;
        }
        if self.slots[raw - 1].is_some() {
            let slot = &mut self.slots[raw - 1];
            *slot = Option::None;
        }
    }

    /// Register the outcome of a load: a decoded image becomes a fresh
    /// handle, a failed decode becomes the null sentinel and leaves the
    /// store untouched.
    pub fn register_loaded(&mut self, loaded: Option<Image>) -> (h: ImageHandle)
        ensures
            loaded is None ==> h.spec_is_null() && *final(self) == *old(self),
            loaded is Some ==> {
                &&& !h.spec_is_null()
                &&& h.spec_raw() == old(self).spec_len() + 1
                &&& final(self).spec_len() == old(self).spec_len() + 1
                &&& final(self).spec_live(h)
                &&& final(self).spec_meta(h) == loaded.unwrap()@
                &&& forall|i: int|
                    0 <= i < old(self).spec_len() ==> final(self).spec_slot(i) == old(
                        self,
                    ).spec_slot(i)
            },
    {
        match loaded {
            Option::Some(img) => self.create(img),
            Option::None => ImageHandle::null(),
        }
    }

    /// Decode an image from a memory buffer and wrap it in a fresh handle.
    /// The handle is null exactly when the byte value does not decode (an
    /// empty buffer never does), and the store is then untouched; otherwise
    /// the fresh slot carries exactly the decoded metadata.
    pub fn load_from_memory(&mut self, data: &[u8]) -> (h: ImageHandle)
        ensures
            h.spec_is_null() <==> spec_decoded(data@) is None,
            data@.len() == 0 ==> h.spec_is_null(),
            h.spec_is_null() ==> *final(self) == *old(self),
            !h.spec_is_null() ==> spec_extended(
                *old(self),
                *final(self),
                h,
                spec_decoded(data@).unwrap(),
            ),
    {
        match load_image_from_memory(data) {
            Result::Ok(img) => self.create(img),
            Result::Err(_) => ImageHandle::null(),
        }
    }

    /// Decode an image from a memory buffer strictly as a given boundary
    /// format and wrap it in a fresh handle. The handle is null exactly
    /// when the byte value does not decode as that format, and the store is
    /// then untouched; otherwise the fresh slot carries exactly the decoded
    /// metadata.
    pub fn load_from_memory_with_format(&mut self, data: &[u8], format: ImageFormatEnum) -> (
        h: ImageHandle)
        ensures
            h.spec_is_null() <==> spec_decoded_as(data@, format) is None,
            data@.len() == 0 ==> h.spec_is_null(),
            h.spec_is_null() ==> *final(self) == *old(self),
            !h.spec_is_null() ==> spec_extended(
                *old(self),
                *final(self),
                h,
                spec_decoded_as(data@, format).unwrap(),
            ),
    {
        match load_image_from_memory_with_format(data, format) {
            Result::Ok(img) => self.create(img),
            Result::Err(_) => ImageHandle::null(),
        }
    }

    /// Copy a live handle's metadata into caller storage. A handle that is
    /// not live is reported as `InvalidPointer` and no record is written.
    pub fn metadata(&self, h: ImageHandle) -> (r: (ImageErrorCode, Option<ImageMetadata>))
        ensures
            !self.spec_live(h) ==> r.0 == ImageErrorCode::InvalidPointer && r.1 is None,
            self.spec_live(h) ==> r.0 == ImageErrorCode::Success && r.1 == Option::Some(
                (ImageMetadata {
                    width: self.spec_meta(h).width,
                    height: self.spec_meta(h).height,
                    color_type: spec_color_tag(self.spec_meta(h).color),
                }),
            ),
    {
        match self.get(h) {
            Option::Some(img) => (ImageErrorCode::Success, Option::Some(get_metadata(img))),
            Option::None => (ImageErrorCode::InvalidPointer, Option::None),
        }
    }

    /// Invert the colors of a live image in place. The handle stays valid
    /// and its metadata is unchanged; a handle that is not live is reported
    /// as `InvalidPointer` and nothing is touched.
    pub fn invert(&mut self, h: ImageHandle) -> (c: ImageErrorCode)
        ensures
            !old(self).spec_live(h) ==> c == ImageErrorCode::InvalidPointer && *final(self) == *old(
                self,
            ),
            old(self).spec_live(h) ==> c == ImageErrorCode::Success,
            final(self).spec_len() == old(self).spec_len(),
            forall|i: int|
                0 <= i < old(self).spec_len() ==> final(self).spec_slot(i) == old(self).spec_slot(
                    i,
                ),
    {
        let raw = h.raw();
        if raw == 0 || raw > self.slots.len() {
            return ImageErrorCode::InvalidPointer;
        }
        if !self.slots[raw - 1].is_some() {
            return ImageErrorCode::InvalidPointer;
        }
        let slot = &mut self.slots[raw - 1];
        match slot {
            Option::Some(img) => {
                crate::image_ops::invert(img);
                ImageErrorCode::Success
            },
            Option::None => ImageErrorCode::InvalidPointer,
        }
    }

    /// Resize within the given bounds, keeping the aspect ratio. A fresh
    /// handle to the result is returned; the input handle and its image are
    /// untouched. A handle that is not live yields the null sentinel and
    /// changes nothing.
    pub fn resize(&mut self, h: ImageHandle, width: u32, height: u32, filter: FilterTypeEnum) -> (
        out: ImageHandle)
        ensures
            !old(self).spec_live(h) ==> out.spec_is_null() && *final(self) == *old(self),
            old(self).spec_live(h) ==> {
                &&& spec_pushed(*old(self), *final(self), out)
                &&& final(self).spec_meta(out).color == old(self).spec_meta(h).color
                &&& (old(self).spec_meta(h).width == width && old(self).spec_meta(h).height
                    == height) ==> (final(self).spec_meta(out).width == width
                    && final(self).spec_meta(out).height == height)
                &&& !(old(self).spec_meta(h).width == width && old(self).spec_meta(h).height
                    == height) ==> (final(self).spec_meta(out).width == spec_fit_dims(
                    old(self).spec_meta(h).width,
                    old(self).spec_meta(h).height,
                    width,
                    height,
                ).0 && final(self).spec_meta(out).height == spec_fit_dims(
                    old(self).spec_meta(h).width,
                    old(self).spec_meta(h).height,
                    width,
                    height,
                ).1)
                &&& (old(self).spec_meta(h).width >= 1 && old(self).spec_meta(h).height >= 1
                    && width >= 1 && height >= 1) ==> (1 <= final(self).spec_meta(out).width
                    <= width && 1 <= final(self).spec_meta(out).height <= height)
                &&& final(self).spec_live(h)
                &&& final(self).spec_meta(h) == old(self).spec_meta(h)
            },
    {
        let new_img = match self.get(h) {
            Option::Some(img) => resize_image(img, width, height, filter.to_filter_type()),
            Option::None => { return ImageHandle::null() },
        };
        self.create(new_img)
    }

    /// Resize to exactly the given dimensions. A fresh handle to the result
    /// is returned; the input handle and its image are untouched. A handle
    /// that is not live yields the null sentinel and changes nothing.
    pub fn resize_exact(
        &mut self,
        h: ImageHandle,
        width: u32,
        height: u32,
        filter: FilterTypeEnum,
    ) -> (out: ImageHandle)
        ensures
            !old(self).spec_live(h) ==> out.spec_is_null() && *final(self) == *old(self),
            old(self).spec_live(h) ==> {
                &&& spec_extended(
                    *old(self),
                    *final(self),
                    out,
                    (ImageMeta { width, height, color: old(self).spec_meta(h).color }),
                )
                &&& final(self).spec_live(h)
                &&& final(self).spec_meta(h) == old(self).spec_meta(h)
            },
    {
        let new_img = match self.get(h) {
            Option::Some(img) => resize_exact(img, width, height, filter.to_filter_type()),
            Option::None => { return ImageHandle::null() },
        };
        self.create(new_img)
    }

    /// Resize to cover the given bounds, keeping the aspect ratio and
    /// cropping the overhang; whenever the scaled size stays clear of the
    /// collaborator's dimension cap the result is exactly the bounds.
    /// Degenerate requests are rejected with the null sentinel: a zero-sized
    /// source image would underflow the collaborator's arithmetic, and a
    /// zero bound could only yield an empty image.
    pub fn resize_to_fit(
        &mut self,
        h: ImageHandle,
        width: u32,
        height: u32,
        filter: FilterTypeEnum,
    ) -> (out: ImageHandle)
        ensures
            !old(self).spec_live(h) ==> out.spec_is_null() && *final(self) == *old(self),
            old(self).spec_live(h) && (width == 0 || height == 0 || old(self).spec_meta(h).width
                == 0 || old(self).spec_meta(h).height == 0) ==> out.spec_is_null() && *final(self)
                == *old(self),
            old(self).spec_live(h) && width >= 1 && height >= 1 && old(self).spec_meta(h).width
                >= 1 && old(self).spec_meta(h).height >= 1 ==> {
                &&& spec_pushed(*old(self), *final(self), out)
                &&& final(self).spec_meta(out).color == old(self).spec_meta(h).color
                &&& final(self).spec_meta(out).width <= width
                &&& final(self).spec_meta(out).height <= height
                &&& spec_fill_in_range(
                    old(self).spec_meta(h).width as int,
                    old(self).spec_meta(h).height as int,
                    width as int,
                    height as int,
                ) ==> (final(self).spec_meta(out).width == width && final(self).spec_meta(
                    out,
                ).height == height)
                &&& final(self).spec_live(h)
                &&& final(self).spec_meta(h) == old(self).spec_meta(h)
            },
    {
        if width == 0 || height == 0 {
            return ImageHandle::null();
        }
        let new_img = match self.get(h) {
            Option::Some(img) => {
                if img.width() == 0 || img.height() == 0 {
                    return ImageHandle::null();
                }
                resize_to_fit(img, width, height, filter.to_filter_type())
            },
            Option::None => { return ImageHandle::null() },
        };
        self.create(new_img)
    }

    /// Cut out the given rectangle, clamped to the image's bounds. A fresh
    /// handle to the cut-out is returned; the input handle and its image are
    /// untouched.
    pub fn crop(&mut self, h: ImageHandle, x: u32, y: u32, width: u32, height: u32) -> (
        out: ImageHandle)
        ensures
            !old(self).spec_live(h) ==> out.spec_is_null() && *final(self) == *old(self),
            old(self).spec_live(h) ==> {
                &&& spec_pushed(*old(self), *final(self), out)
                &&& final(self).spec_meta(out).color == old(self).spec_meta(h).color
                &&& final(self).spec_meta(out).width == spec_crop_extent(
                    old(self).spec_meta(h).width as int,
                    x as int,
                    width as int,
                )
                &&& final(self).spec_meta(out).height == spec_crop_extent(
                    old(self).spec_meta(h).height as int,
                    y as int,
                    height as int,
                )
                &&& final(self).spec_live(h)
                &&& final(self).spec_meta(h) == old(self).spec_meta(h)
            },
    {
        let new_img = match self.get(h) {
            Option::Some(img) => crop_image(img, x, y, width, height),
            Option::None => { return ImageHandle::null() },
        };
        self.create(new_img)
    }

    /// Rotate a quarter turn clockwise: the result's axes are swapped.
    pub fn rotate_90(&mut self, h: ImageHandle) -> (out: ImageHandle)
        ensures
            !old(self).spec_live(h) ==> out.spec_is_null() && *final(self) == *old(self),
            old(self).spec_live(h) ==> {
                &&& spec_extended(
                    *old(self),
                    *final(self),
                    out,
                    (ImageMeta {
                        width: old(self).spec_meta(h).height,
                        height: old(self).spec_meta(h).width,
                        color: old(self).spec_meta(h).color,
                    }),
                )
                &&& final(self).spec_live(h)
                &&& final(self).spec_meta(h) == old(self).spec_meta(h)
            },
    {
        let new_img = match self.get(h) {
            Option::Some(img) => rotate_90(img),
            Option::None => { return ImageHandle::null() },
        };
        self.create(new_img)
    }

    /// Rotate a half turn: the result's metadata equals the input's.
    pub fn rotate_180(&mut self, h: ImageHandle) -> (out: ImageHandle)
        ensures
            !old(self).spec_live(h) ==> out.spec_is_null() && *final(self) == *old(self),
            old(self).spec_live(h) ==> {
                &&& spec_extended(*old(self), *final(self), out, old(self).spec_meta(h))
                &&& final(self).spec_live(h)
                &&& final(self).spec_meta(h) == old(self).spec_meta(h)
            },
    {
        let new_img = match self.get(h) {
            Option::Some(img) => rotate_180(img),
            Option::None => { return ImageHandle::null() },
        };
        self.create(new_img)
    }

    /// Rotate a quarter turn counterclockwise: the result's axes are swapped.
    pub fn rotate_270(&mut self, h: ImageHandle) -> (out: ImageHandle)
        ensures
            !old(self).spec_live(h) ==> out.spec_is_null() && *final(self) == *old(self),
            old(self).spec_live(h) ==> {
                &&& spec_extended(
                    *old(self),
                    *final(self),
                    out,
                    (ImageMeta {
                        width: old(self).spec_meta(h).height,
                        height: old(self).spec_meta(h).width,
                        color: old(self).spec_meta(h).color,
                    }),
                )
                &&& final(self).spec_live(h)
                &&& final(self).spec_meta(h) == old(self).spec_meta(h)
            },
    {
        let new_img = match self.get(h) {
            Option::Some(img) => rotate_270(img),
            Option::None => { return ImageHandle::null() },
        };
        self.create(new_img)
    }

    /// Mirror left-to-right: the result's metadata equals the input's.
    pub fn flip_horizontal(&mut self, h: ImageHandle) -> (out: ImageHandle)
        ensures
            !old(self).spec_live(h) ==> out.spec_is_null() && *final(self) == *old(self),
            old(self).spec_live(h) ==> {
                &&& spec_extended(*old(self), *final(self), out, old(self).spec_meta(h))
                &&& final(self).spec_live(h)
                &&& final(self).spec_meta(h) == old(self).spec_meta(h)
            },
    {
        let new_img = match self.get(h) {
            Option::Some(img) => flip_horizontal(img),
            Option::None => { return ImageHandle::null() },
        };
        self.create(new_img)
    }

    /// Mirror top-to-bottom: the result's metadata equals the input's.
    pub fn flip_vertical(&mut self, h: ImageHandle) -> (out: ImageHandle)
        ensures
            !old(self).spec_live(h) ==> out.spec_is_null() && *final(self) == *old(self),
            old(self).spec_live(h) ==> {
                &&& spec_extended(*old(self), *final(self), out, old(self).spec_meta(h))
                &&& final(self).spec_live(h)
                &&& final(self).spec_meta(h) == old(self).spec_meta(h)
            },
    {
        let new_img = match self.get(h) {
            Option::Some(img) => flip_vertical(img),
            Option::None => { return ImageHandle::null() },
        };
        self.create(new_img)
    }

    /// Adjust brightness by a signed offset: the result's metadata equals
    /// the input's.
    pub fn brightness(&mut self, h: ImageHandle, value: i32) -> (out: ImageHandle)
        ensures
            !old(self).spec_live(h) ==> out.spec_is_null() && *final(self) == *old(self),
            old(self).spec_live(h) ==> {
                &&& spec_extended(*old(self), *final(self), out, old(self).spec_meta(h))
                &&& final(self).spec_live(h)
                &&& final(self).spec_meta(h) == old(self).spec_meta(h)
            },
    {
        let new_img = match self.get(h) {
            Option::Some(img) => adjust_brightness(img, value),
            Option::None => { return ImageHandle::null() },
        };
        self.create(new_img)
    }

    /// Convert to eight-bit grayscale: the result keeps the dimensions and
    /// carries the grayscale color model.
    pub fn grayscale(&mut self, h: ImageHandle) -> (out: ImageHandle)
        ensures
            !old(self).spec_live(h) ==> out.spec_is_null() && *final(self) == *old(self),
            old(self).spec_live(h) ==> {
                &&& spec_extended(
                    *old(self),
                    *final(self),
                    out,
                    (ImageMeta {
                        width: old(self).spec_meta(h).width,
                        height: old(self).spec_meta(h).height,
                        color: ColorKind::L,
                    }),
                )
                &&& final(self).spec_live(h)
                &&& final(self).spec_meta(h) == old(self).spec_meta(h)
            },
    {
        let new_img = match self.get(h) {
            Option::Some(img) => grayscale(img),
            Option::None => { return ImageHandle::null() },
        };
        self.create(new_img)
    }
}

} // verus!
