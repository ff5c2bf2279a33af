//! Configuration values the engine consumes: the settings-file version, the
//! off-screen resolution, and the swap-chain and video-capture parameters.

use vstd::prelude::*;

verus! {

/// Version of the settings layout, written as `major.minor`.
#[derive(Clone, Copy, PartialEq, Eq, Structural, Debug)]
pub struct Version {
    pub major: u32,
    pub minor: u32,
}

impl Version {
    /// The two components in order, as the settings file stores them.
    pub fn parts(&self) -> (r: [u32; 2])
        ensures
            r@ == seq![self.major, self.minor],
    {
        let r = [self.major, self.minor];
        proof {
            assert(r@ =~= seq![self.major, self.minor]);
        }
        r
    }
}

/// Size in pixels of the off-screen target the shader draws into.
#[derive(Clone, Copy, PartialEq, Eq, Structural, Debug)]
pub struct Resolution {
    pub width: u32,
    pub height: u32,
}

impl Resolution {
    /// A resolution is usable when neither side is zero.
    pub open spec fn wf(self) -> bool {
        self.width > 0 && self.height > 0
    }

    /// Bytes of one tightly packed RGBA frame at this resolution.
    pub open spec fn spec_byte_len(self) -> int {
        self.width * self.height * 4
    }
}

/// Swap-chain parameters: how many presentation buffers rotate, and how many
/// frames may be queued ahead of the display.
#[derive(Clone, Copy, PartialEq, Eq, Structural, Debug)]
pub struct SwapChain {
    pub buffer_count: u32,
    pub max_frame_latency: u32,
}

/// Video-capture parameters: the capture rate and an optional frame at which
/// a session ends on its own (zero meaning no limit).
#[derive(Clone, Copy, PartialEq, Eq, Structural, Debug)]
pub struct Video {
    pub frame_rate: u32,
    pub end_frame: u64,
}

} // verus!
