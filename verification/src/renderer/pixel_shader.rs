//! Pipelines compiled from user-supplied pixel shaders.
//!
//! Compiling shader source and building the GPU pipeline-state object are the
//! driver's work; the engine only names each pipeline it has handed out, so
//! that recorded draw operations say which shader they run.

use vstd::prelude::*;

verus! {

/// A compiled full-screen pixel-shader pipeline, named by creation order.
#[derive(Clone, Copy, PartialEq, Eq, Structural, Debug)]
pub struct Pipeline {
    pub id: usize,
}

/// Factory for [`Pipeline`] names; the shared root signature and vertex
/// shader behind them live with the driver.
pub struct PixelShader {
    next_id: usize,
}

impl PixelShader {
    /// How many pipelines have been created.
    pub closed spec fn spec_created(self) -> int {
        self.next_id as int
    }

    pub fn new() -> (r: PixelShader)
        ensures
            r.spec_created() == 0,
    {
        PixelShader { next_id: 0 }
    }

    /// Names a new pipeline. Each call returns a fresh name.
    pub fn create_pipeline(&mut self) -> (p: Pipeline)
        requires
            old(self).spec_created() < usize::MAX,
        ensures
            p.id == old(self).spec_created(),
            final(self).spec_created() == old(self).spec_created() + 1,
    {
        let p = Pipeline { id: self.next_id };
        self.next_id = self.next_id + 1;
        p
    }
}

} // verus!
