//! The resource-state contract.
//!
//! Every GPU resource the engine touches is, at any moment, in one usage
//! state: idle (`Common`), a render target, a pixel-shader source, a copy
//! source or a copy destination. A use must be bracketed by a transition
//! barrier into the matching state and one back out. On the graphics queue
//! those states persist across submissions; on the copy queue a resource
//! decays back to idle after every submission, so each copy recording tracks
//! its states from idle afresh.
//!
//! Upload- and read-back-heap buffers keep one fixed state for their whole
//! life and are never transitioned.

use vstd::prelude::*;

verus! {

/// Which full-screen plane a draw uses: the unit plane, or the one rescaled
/// to letterbox the resolution into a maximized window.
#[derive(Clone, Copy, PartialEq, Eq, Structural, Debug)]
pub enum PlaneKind {
    Filling,
    Adjusted,
}

/// Names one GPU resource of the engine.
#[derive(Clone, Copy, PartialEq, Eq, Structural, Debug)]
pub enum ResourceId {
    /// Off-screen texture the shader draws into, one per buffer index.
    OffScreen(usize),
    /// Swap-chain back buffer, one per buffer index.
    BackBuffer(usize),
    /// Overlay texture the 2D UI draws into, one per buffer index.
    UiBuffer(usize),
    /// CPU-readable staging buffer, named by its pool slot.
    ReadBack(usize),
    /// Vertex and index buffer of a full-screen plane.
    PlaneBuffer(PlaneKind),
    /// A transient upload buffer, named by creation order.
    Upload(usize),
}

impl ResourceId {
    /// Upload and read-back buffers live on CPU-visible heaps and keep one
    /// fixed state; everything else must be transitioned before and after a
    /// use.
    pub open spec fn needs_transition(self) -> bool {
        match self {
            ResourceId::ReadBack(_) => false,
            ResourceId::Upload(_) => false,
            _ => true,
        }
    }
}

/// The usage state a resource is in.
#[derive(Clone, Copy, PartialEq, Eq, Structural, Debug)]
pub enum Usage {
    /// Idle between uses.
    Common,
    /// Being drawn into.
    Target,
    /// Being read by a pixel shader.
    PixelShader,
    /// Being read by a copy.
    CopySrc,
    /// Being written by a copy.
    CopyDst,
}

/// One declared state transition of one resource.
#[derive(Clone, Copy, PartialEq, Eq, Structural, Debug)]
pub struct TransitionBarrier {
    pub resource: ResourceId,
    pub state_before: Usage,
    pub state_after: Usage,
}

/// Every resource idle: the state between frames, and the state a copy
/// recording starts from.
pub open spec fn all_common() -> Map<ResourceId, Usage> {
    Map::total(|r: ResourceId| Usage::Common)
}

/// An enter barrier: idle into a use.
pub open spec fn enters(t: TransitionBarrier, u: Usage) -> bool {
    t.state_before == Usage::Common && t.state_after == u
}

/// A leave barrier: a use back to idle.
pub open spec fn leaves(t: TransitionBarrier, u: Usage) -> bool {
    t.state_before == u && t.state_after == Usage::Common
}

/// View over one off-screen or back-buffer texture for drawing into it.
#[derive(Clone, Copy, PartialEq, Eq, Structural, Debug)]
pub struct RenderTarget {
    pub resource: ResourceId,
    pub width: u32,
    pub height: u32,
}

impl RenderTarget {
    /// Into the render-target state.
    pub fn enter(&self) -> (t: TransitionBarrier)
        ensures
            t.resource == self.resource,
            enters(t, Usage::Target),
    {
        TransitionBarrier {
            resource: self.resource,
            state_before: Usage::Common,
            state_after: Usage::Target,
        }
    }

    /// Back to idle.
    pub fn leave(&self) -> (t: TransitionBarrier)
        ensures
            t.resource == self.resource,
            leaves(t, Usage::Target),
    {
        TransitionBarrier {
            resource: self.resource,
            state_before: Usage::Target,
            state_after: Usage::Common,
        }
    }
}

/// View over a texture for reading it from a pixel shader.
#[derive(Clone, Copy, PartialEq, Eq, Structural, Debug)]
pub struct PixelShaderResource {
    pub resource: ResourceId,
}

impl PixelShaderResource {
    /// Into the pixel-shader-source state.
    pub fn enter(&self) -> (t: TransitionBarrier)
        ensures
            t.resource == self.resource,
            enters(t, Usage::PixelShader),
    {
        TransitionBarrier {
            resource: self.resource,
            state_before: Usage::Common,
            state_after: Usage::PixelShader,
        }
    }

    /// Back to idle.
    pub fn leave(&self) -> (t: TransitionBarrier)
        ensures
            t.resource == self.resource,
            leaves(t, Usage::PixelShader),
    {
        TransitionBarrier {
            resource: self.resource,
            state_before: Usage::PixelShader,
            state_after: Usage::Common,
        }
    }
}

/// View over a texture for copying out of it.
#[derive(Clone, Copy, PartialEq, Eq, Structural, Debug)]
pub struct CopyResource {
    pub resource: ResourceId,
}

impl CopyResource {
    /// Into the copy-source state.
    pub fn enter(&self) -> (t: TransitionBarrier)
        ensures
            t.resource == self.resource,
            enters(t, Usage::CopySrc),
    {
        TransitionBarrier {
            resource: self.resource,
            state_before: Usage::Common,
            state_after: Usage::CopySrc,
        }
    }

    /// Back to idle.
    pub fn leave(&self) -> (t: TransitionBarrier)
        ensures
            t.resource == self.resource,
            leaves(t, Usage::CopySrc),
    {
        TransitionBarrier {
            resource: self.resource,
            state_before: Usage::CopySrc,
            state_after: Usage::Common,
        }
    }
}

/// The color a target is cleared to, as 8-bit channels.
#[derive(Clone, Copy, PartialEq, Eq, Structural, Debug)]
pub struct Color {
    pub r: u8,
    pub g: u8,
    pub b: u8,
    pub a: u8,
}

} // verus!
