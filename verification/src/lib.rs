//! Safe transport of opaque image values, encoded byte buffers and status
//! codes across a foreign-caller boundary.
//!
//! Pixel-level work (decoding, encoding, geometric transforms, filters) is
//! delegated to the `image` crate; this library owns the protocol around it:
//! the handle table that stands behind every opaque image token, the
//! single-transfer discipline for encoded buffers, the bridge between
//! boundary-stable integer tags and the collaborator's enums, and the closed
//! taxonomy of status codes.

pub mod bridge;
pub mod codes;
pub mod dispatch;
pub mod buffers;
pub mod handles;
pub mod image_ops;
