//! The buffer transfer protocol.
//!
//! An encoded byte sequence is handed to the caller exactly once, as a
//! pointer-sized token plus a length, and comes back exactly once through
//! `release`, which demands the very token and length that were handed out.
//! The arena behind the tokens mirrors the handle arena: slot index plus
//! one, zero as the null sentinel, tombstones instead of reuse, so a
//! double release is detected instead of undefined.

use vstd::prelude::*;

use crate::codes::ImageErrorCode;

verus! {

/// The arena that owns every encoded buffer currently on loan to the caller.
pub struct BufferStore {
    slots: Vec<Option<Vec<u8>>>,
}

impl BufferStore {
    /// Number of buffer slots ever created (tombstones included).
    pub closed spec fn spec_len(self) -> nat {
        self.slots@.len()
    }

    /// The bytes in slot `i`, or `None` for a tombstone.
    pub closed spec fn spec_slot(self, i: int) -> Option<Seq<u8>> {
        match self.slots@[i] {
            Option::Some(bytes) => Option::Some(bytes@),
            Option::None => Option::None,
        }
    }

    /// Whether token `t` is live: non-null, within the arena, not released.
    pub open spec fn spec_live(self, t: usize) -> bool {
        &&& 1 <= t <= self.spec_len()
        &&& self.spec_slot(t - 1) is Some
    }

    /// The bytes a live token stands for.
    pub open spec fn spec_contents(self, t: usize) -> Seq<u8> {
        self.spec_slot(t - 1).unwrap()
    }

    /// Whether `release(t, len)` is owed success: exactly a live token
    /// together with the length that was handed out beside it.
    pub open spec fn spec_release_ok(self, t: usize, len: usize) -> bool {
        self.spec_live(t) && self.spec_contents(t).len() == len
    }

    /// An empty store: no token is live.
    pub fn new() -> (s: BufferStore)
        ensures
            s.spec_len() == 0,
            forall|t: usize| !s.spec_live(t),
    {
        BufferStore { slots: Vec::new() }
    }

    /// Move a byte buffer into the arena and hand out a fresh non-null
    /// token together with the buffer's length. From this point the caller
    /// owns the bytes; the core keeps them only to honor `release`.
    pub fn transfer(&mut self, bytes: Vec<u8>) -> (r: (usize, usize))
        ensures
            r.0 == old(self).spec_len() + 1,
            r.0 != 0,
            r.1 == bytes@.len(),
            final(self).spec_len() == old(self).spec_len() + 1,
            final(self).spec_live(r.0),
            final(self).spec_contents(r.0) == bytes@,
            final(self).spec_release_ok(r.0, r.1),
            forall|i: int|
                0 <= i < old(self).spec_len() ==> final(self).spec_slot(i) == old(self).spec_slot(
                    i,
                ),
    {
        let len = bytes.len();
        self.slots.push(Option::Some(bytes));
        (self.slots.len(), len)
    }

    /// Whether a token is currently live.
    pub fn live(&self, t: usize) -> (b: bool)
        ensures
            b == self.spec_live(t),
    {
        if t == 0 || t > self.slots.len() {
            false
        } else {
            self.slots[t - 1].is_some()
        }
    }

    /// Give a buffer back. The null token is a no-op reported as `Success`;
    /// a token that is not live (already released, or never handed out) or a
    /// length other than the one handed out is reported as `InvalidPointer`
    /// and changes nothing; the exact token-and-length pair frees exactly
    /// its slot, after which the token is never live again.
    pub fn release(&mut self, t: usize, len: usize) -> (c: ImageErrorCode)
        ensures
            t == 0 ==> c == ImageErrorCode::Success && *final(self) == *old(self),
            t != 0 && !old(self).spec_release_ok(t, len) ==> c == ImageErrorCode::InvalidPointer
                && *final(self) == *old(self),
            old(self).spec_release_ok(t, len) ==> c == ImageErrorCode::Success
                && !final(self).spec_live(t),
            final(self).spec_len() == old(self).spec_len(),
            forall|i: int|
                0 <= i < old(self).spec_len() && i != t - 1 ==> final(self).spec_slot(i) == old(
                    self,
                ).spec_slot(i),
    {
        if t == 0 {
            return ImageErrorCode::Success;
        }
        if t > self.slots.len() {
            return ImageErrorCode::InvalidPointer;
        }
        let matches_len = match &self.slots[t - 1] {
            Option::Some(bytes) => bytes.len() == len,
            Option::None => { return ImageErrorCode::InvalidPointer },
        };
        if !matches_len {
            return ImageErrorCode::InvalidPointer;
        }
        let slot = &mut self.slots[t - 1];
        *slot = Option::None;
        ImageErrorCode::Success
    }
}

/// Single-release discipline: once a token has been released, no length
/// whatsoever makes a second `release` of it succeed again.
pub proof fn lemma_release_is_final(post: BufferStore, t: usize)
    requires
        !post.spec_live(t),
    ensures
        forall|len: usize| !post.spec_release_ok(t, len),
{
}

} // verus!
