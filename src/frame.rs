//! The shared frame block that the companion process republishes each frame.
//!
//! Layout, little-endian, at fixed offsets: `index: u32` at 0, `width: u32`
//! at 4, `height: u32` at 8, `handle_a: u64` at 16, `handle_b: u64` at 24,
//! `alive: bool` at 32. The block carries no lock: a reader copies it once and
//! validates every field of the copy before use.
use vstd::prelude::*;
use crate::bytes::{from_le, read_u32_le, read_u64_le};

verus! {

/// Offset of the active buffer index.
pub const INDEX_OFFSET: usize = 0;
/// Offset of the texture width.
pub const WIDTH_OFFSET: usize = 4;
/// Offset of the texture height.
pub const HEIGHT_OFFSET: usize = 8;
/// Offset of the first shared texture handle.
pub const HANDLE_A_OFFSET: usize = 16;
/// Offset of the second shared texture handle.
pub const HANDLE_B_OFFSET: usize = 24;
/// Offset of the liveness flag.
pub const ALIVE_OFFSET: usize = 32;
/// Size of the block, trailing padding included.
pub const BLOCK_SIZE: usize = 40;

/// A transient copy of the shared frame block.
#[derive(Clone, Copy, Debug, PartialEq, Eq, Structural)]
pub struct FrameDescriptor {
    /// Which of the two textures holds the latest frame (0 or 1).
    pub active_index: u32,
    pub width: u32,
    pub height: u32,
    pub handle_a: u64,
    pub handle_b: u64,
    pub alive: bool,
}

impl FrameDescriptor {
    /// Every field passes: both dimensions and both handles non-zero, the
    /// companion alive, and the index naming one of the two textures.
    pub open spec fn valid(self) -> bool {
        &&& self.alive
        &&& self.width != 0
        &&& self.height != 0
        &&& self.handle_a != 0
        &&& self.handle_b != 0
        &&& self.active_index < 2
    }

    /// The descriptor that the block `b` holds.
    pub open spec fn decoded(b: Seq<u8>) -> FrameDescriptor {
        FrameDescriptor {
            active_index: from_le(b.subrange(0, 4)) as u32,
            width: from_le(b.subrange(4, 8)) as u32,
            height: from_le(b.subrange(8, 12)) as u32,
            handle_a: from_le(b.subrange(16, 24)) as u64,
            handle_b: from_le(b.subrange(24, 32)) as u64,
            alive: b[32] != 0,
        }
    }

    /// Reads a descriptor out of a copy of the shared block; `None` when the
    /// copy is too short to hold one.
    pub fn read(block: &[u8]) -> (r: Option<FrameDescriptor>)
        ensures
            block@.len() < BLOCK_SIZE ==> r is None,
            block@.len() >= BLOCK_SIZE ==> r == Some(Self::decoded(block@)),
    {
        if block.len() < BLOCK_SIZE {
            return None;
        }
        Some(
            FrameDescriptor {
                active_index: read_u32_le(block, INDEX_OFFSET),
                width: read_u32_le(block, WIDTH_OFFSET),
                height: read_u32_le(block, HEIGHT_OFFSET),
                handle_a: read_u64_le(block, HANDLE_A_OFFSET),
                handle_b: read_u64_le(block, HANDLE_B_OFFSET),
                alive: block[ALIVE_OFFSET] != 0,
            },
        )
    }

    /// Whether the descriptor may be used to composite a frame.
    pub fn is_valid(&self) -> (r: bool)
        ensures
            r == self.valid(),
    {
        self.alive && self.width != 0 && self.height != 0 && self.handle_a != 0
            && self.handle_b != 0 && self.active_index < 2
    }
}

} // verus!
