//! The host-side state the capability bindings work on: the frame
//! buffer the guest draws into, the randomness collaborator's slot,
//! and the bundle handed to the guest sandbox.
use vstd::prelude::*;

use crate::input_context::InputContext;

verus! {

/// The fixed facts about a loaded cartridge the core needs: the frame
/// buffer geometry and the logical frame rate.
#[derive(Clone, Copy, PartialEq, Eq, Structural, Debug)]
pub struct Rom {
    pub frame_width: u16,
    pub frame_height: u16,
    pub frame_rate: u32,
}

impl Rom {
    /// Bytes in one frame buffer: one byte per pixel.
    pub open spec fn spec_frame_buffer_len(self) -> int {
        self.frame_width * self.frame_height
    }
}

/// The byte buffer the guest's `draw` writes and `blit` copies out,
/// one byte per pixel, row-major.
#[derive(Clone, Debug)]
pub struct GraphicsContext {
    pub frame_buffer: Vec<u8>,
}

impl GraphicsContext {
    /// A zeroed frame buffer of the cartridge's geometry.
    pub fn new(rom: &Rom) -> (r: GraphicsContext)
        ensures
            r.frame_buffer@.len() == rom.spec_frame_buffer_len(),
            forall|i: int| 0 <= i < r.frame_buffer@.len() ==> r.frame_buffer@[i] == 0u8,
    {
        proof {
            assert(rom.frame_width * rom.frame_height <= 0xffffu16 * 0xffffu16)
                by (nonlinear_arith)
                requires
                    rom.frame_width <= 0xffffu16,
                    rom.frame_height <= 0xffffu16,
            ;
        }
        let len: usize = (rom.frame_width as usize) * (rom.frame_height as usize);
        let mut frame_buffer: Vec<u8> = Vec::new();
        let mut i: usize = 0;
        while i < len
            invariant
                i <= len,
                frame_buffer@.len() == i,
                forall|j: int| 0 <= j < i ==> frame_buffer@[j] == 0u8,
            decreases len - i,
        {
            frame_buffer.push(0);
            i = i + 1;
        }
        GraphicsContext { frame_buffer }
    }
}

/// The randomness collaborator's slot. Random numbers are an outside
/// concern; the core holds no state for them.
#[derive(Clone, Copy, PartialEq, Eq, Structural, Debug)]
pub struct RandomContext {}

/// Everything the capability bindings can reach while the guest runs.
#[derive(Clone, Debug)]
pub struct Contexts {
    pub graphics_context: GraphicsContext,
    pub input_context: InputContext,
    pub random_context: RandomContext,
}

} // verus!
