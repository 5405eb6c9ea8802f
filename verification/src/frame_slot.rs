//! The hand-off between the capture callback, which stores frames at its
//! own pace, and the render loop, which loads the latest one. The slot holds
//! at most one frame: a new frame replaces the one before it.

use vstd::prelude::*;
use vstd::rwlock::RwLock;
use vstd::rwlock::RwLockPredicate;
use std::sync::Arc;

verus! {

/// Room for the most recent frame, or for none yet.
pub struct FrameSlot {
    latest: Option<Vec<u8>>,
}

impl FrameSlot {
    /// The frame held, if any.
    pub closed spec fn view(&self) -> Option<Seq<u8>> {
        match self.latest {
            Some(frame) => Some(frame@),
            None => None,
        }
    }

    /// An empty slot.
    pub fn new() -> (slot: Self)
        ensures
            slot@ is None,
    {
        FrameSlot { latest: None }
    }

    /// Puts `frame` in the slot in place of whatever it held.
    pub fn store(&mut self, frame: Vec<u8>)
        ensures
            final(self)@ == Some(frame@),
    {
        self.latest = Some(frame);
    }

    /// A copy of the frame held, or `None` where nothing was stored yet.
    pub fn load(&self) -> (frame: Option<Vec<u8>>)
        ensures
            match frame {
                Some(bytes) => self@ == Some(bytes@),
                None => self@ is None,
            },
    {
        match &self.latest {
            Some(bytes) => {
                let copy = bytes.clone();
                assert(copy@ =~= bytes@);
                Some(copy)
            },
            None => None,
        }
    }
}

/// What a shared slot admits: only frames of exactly `len` bytes.
pub struct FrameLength {
    pub len: usize,
}

impl RwLockPredicate<FrameSlot> for FrameLength {
    open spec fn inv(self, slot: FrameSlot) -> bool {
        slot@ matches Some(frame) ==> frame.len() == self.len
    }
}

/// A frame slot that the capture callback and the render loop share. Each
/// access holds the lock only while a frame is moved in or copied out, so a
/// reader sees a whole frame of the slot's size or none, never part of one.
pub struct SharedFrameSlot {
    lock: Arc<RwLock<FrameSlot, FrameLength>>,
    frame_len: usize,
}

impl SharedFrameSlot {
    #[verifier::type_invariant]
    spec fn admits_frame_len(self) -> bool {
        self.lock.pred() == (FrameLength { len: self.frame_len })
    }

    /// Byte length of every frame that the slot can hold.
    pub closed spec fn frame_len(&self) -> usize {
        self.frame_len
    }

    /// An empty slot for frames of `frame_len` bytes.
    pub fn new(frame_len: usize) -> (slot: Self)
        ensures
            slot.frame_len() == frame_len,
    {
        let lock = RwLock::new(FrameSlot::new(), Ghost(FrameLength { len: frame_len }));
        SharedFrameSlot { lock: Arc::new(lock), frame_len }
    }

    /// Byte length of every frame that the slot can hold.
    pub fn frame_bytes(&self) -> (len: usize)
        ensures
            len == self.frame_len(),
    {
        self.frame_len
    }

    /// Another handle to the same slot.
    pub fn share(&self) -> (other: Self)
        ensures
            other == *self,
    {
        proof {
            use_type_invariant(self);
        }
        SharedFrameSlot { lock: self.lock.clone(), frame_len: self.frame_len }
    }

    /// Replaces the frame held by `frame`, which is dropped instead where
    /// its length is not the slot's. Tells whether the frame was stored.
    pub fn store(&self, frame: Vec<u8>) -> (stored: bool)
        ensures
            stored == (frame@.len() == self.frame_len()),
    {
        proof {
            use_type_invariant(self);
        }
        if frame.len() != self.frame_len {
            return false;
        }
        let (mut slot, handle) = self.lock.acquire_write();
        slot.store(frame);
        handle.release_write(slot);
        true
    }

    /// A copy of the latest frame, or `None` where none was stored yet.
    /// Whatever other handles do meanwhile, a frame that comes back is a
    /// whole frame of the slot's size.
    pub fn load(&self) -> (frame: Option<Vec<u8>>)
        ensures
            frame matches Some(bytes) ==> bytes@.len() == self.frame_len(),
    {
        proof {
            use_type_invariant(self);
        }
        let handle = self.lock.acquire_read();
        let frame = handle.borrow().load();
        handle.release_read();
        frame
    }
}

} // verus!
