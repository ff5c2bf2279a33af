//! Typed recording of graphics and copy command lists.
//!
//! A recording session builds a sequence of operations — transitions, clears,
//! draws, composites, copies — against one command allocator, then closes the
//! list. The resource-state contract is checked during recording: an
//! operation that uses a resource is only accepted while the resource stands
//! in the matching usage state.
//!
//! Graphics-queue states persist across submissions and are threaded through
//! [`DirectCommand`] by the caller; copy-queue states decay to idle after
//! every submission, so a [`CopyCommand`] starts each session from idle.

use vstd::prelude::*;

use super::pixel_shader::Pipeline;
use super::resource::{
    all_common, Color, CopyResource, PixelShaderResource, PlaneKind, RenderTarget, ResourceId,
    TransitionBarrier, Usage,
};

verus! {

/// Which hardware queue a list kind runs on.
#[derive(Clone, Copy, PartialEq, Eq, Structural, Debug)]
pub enum ListKind {
    Direct,
    Copy,
}

/// One recorded operation.
#[derive(Clone, Copy, PartialEq, Eq, Structural, Debug)]
pub enum Op {
    /// A declared resource-state transition.
    Transition(TransitionBarrier),
    /// Fill a render target with a color.
    Clear(ResourceId, Color),
    /// Run a pixel-shader pipeline over a full-screen plane into a target.
    Draw(usize, ResourceId, PlaneKind),
    /// Composite a shader-readable source onto a target over a full-screen
    /// plane, with the fixed layer shader.
    Layer(ResourceId, ResourceId, PlaneKind),
    /// Copy a texture into a read-back buffer.
    CopyTexture(ResourceId, ResourceId),
    /// Copy a whole buffer into another.
    CopyBuffer(ResourceId, ResourceId),
}

/// An element-wise copy of a recorded operation sequence.
fn copy_ops(ops: &Vec<Op>) -> (r: Vec<Op>)
    ensures
        r@ == ops@,
{
    let mut r: Vec<Op> = Vec::new();
    let mut i: usize = 0;
    while i < ops.len()
        invariant
            i <= ops@.len(),
            r@ == ops@.take(i as int),
        decreases ops@.len() - i,
    {
        r.push(ops[i]);
        proof {
            assert(ops@.take(i + 1 as int) =~= ops@.take(i as int).push(ops@[i as int]));
        }
        i = i + 1;
    }
    proof {
        assert(ops@.take(ops@.len() as int) =~= ops@);
    }
    r
}

/// A recorded command list that one of the two queue kinds can submit.
pub trait CommandList {
    /// Which queue kind this list runs on.
    spec fn spec_kind(&self) -> ListKind;

    /// The operations recorded into the list.
    spec fn recorded(&self) -> Seq<Op>;

    /// The submittable form of the list: its recorded operations.
    fn handle(&self) -> (ops: Vec<Op>)
        ensures
            ops@ == self.recorded(),
    ;
}

/// A graphics recording session: operations emitted against the persistent
/// graphics-queue resource states, which the session carries.
pub struct DirectCommand {
    ops: Vec<Op>,
    states: Ghost<Map<ResourceId, Usage>>,
}

impl DirectCommand {
    /// The operations emitted so far.
    pub closed spec fn spec_ops(self) -> Seq<Op> {
        self.ops@
    }

    /// The resource states after the operations emitted so far.
    pub closed spec fn spec_states(self) -> Map<ResourceId, Usage> {
        self.states@
    }

    /// Opens a session against the given resource states.
    pub fn new(Ghost(states): Ghost<Map<ResourceId, Usage>>) -> (r: DirectCommand)
        ensures
            r.spec_ops() == Seq::<Op>::empty(),
            r.spec_states() == states,
    {
        DirectCommand { ops: Vec::new(), states: Ghost(states) }
    }

    /// Declares one state transition. The transition must name the state
    /// its resource currently stands in, and the resource must be one whose
    /// state is tracked at all.
    pub fn barrier(&mut self, t: TransitionBarrier)
        requires
            t.resource.needs_transition(),
            old(self).spec_states()[t.resource] == t.state_before,
        ensures
            final(self).spec_ops() == old(self).spec_ops().push(Op::Transition(t)),
            final(self).spec_states() == old(self).spec_states().insert(
                t.resource,
                t.state_after,
            ),
    {
        self.ops.push(Op::Transition(t));
        self.states = Ghost(self.states@.insert(t.resource, t.state_after));
    }

    /// Fills a target with a color. The target must stand in the
    /// render-target state.
    pub fn clear(&mut self, target: &RenderTarget, clear_color: Color)
        requires
            old(self).spec_states()[target.resource] == Usage::Target,
        ensures
            final(self).spec_ops() == old(self).spec_ops().push(
                Op::Clear(target.resource, clear_color),
            ),
            final(self).spec_states() == old(self).spec_states(),
    {
        self.ops.push(Op::Clear(target.resource, clear_color));
    }

    /// Runs a pixel-shader pipeline over a plane into a target. The target
    /// must stand in the render-target state.
    pub fn draw(&mut self, shader: &Pipeline, target: &RenderTarget, plane: PlaneKind)
        requires
            old(self).spec_states()[target.resource] == Usage::Target,
        ensures
            final(self).spec_ops() == old(self).spec_ops().push(
                Op::Draw(shader.id, target.resource, plane),
            ),
            final(self).spec_states() == old(self).spec_states(),
    {
        self.ops.push(Op::Draw(shader.id, target.resource, plane));
    }

    /// Composites a source texture onto a target. The source must stand in
    /// the pixel-shader state and the target in the render-target state.
    pub fn layer(&mut self, src: &PixelShaderResource, dest: &RenderTarget, plane: PlaneKind)
        requires
            old(self).spec_states()[src.resource] == Usage::PixelShader,
            old(self).spec_states()[dest.resource] == Usage::Target,
        ensures
            final(self).spec_ops() == old(self).spec_ops().push(
                Op::Layer(src.resource, dest.resource, plane),
            ),
            final(self).spec_states() == old(self).spec_states(),
    {
        self.ops.push(Op::Layer(src.resource, dest.resource, plane));
    }
}

/// A graphics command list: holds the operations of its last recording.
pub struct DirectCommandList {
    ops: Vec<Op>,
}

impl DirectCommandList {
    /// A fresh list, closed and empty.
    pub fn new() -> (r: DirectCommandList)
        ensures
            r.recorded() == Seq::<Op>::empty(),
    {
        DirectCommandList { ops: Vec::new() }
    }

    /// One recording cycle: resets the given allocator, replaces the list's
    /// contents with the session's operations, and closes the list. The
    /// allocator must not still be in use by an in-flight submission; the
    /// engine guarantees that by waiting on the frame slot's stored signal
    /// before re-recording.
    pub fn record(&mut self, _allocator: usize, cmd: DirectCommand)
        ensures
            final(self).recorded() == cmd.spec_ops(),
    {
        self.ops = cmd.into_ops();
    }
}

impl DirectCommand {
    /// Closes the session, yielding its operations.
    pub fn into_ops(self) -> (ops: Vec<Op>)
        ensures
            ops@ == self.spec_ops(),
    {
        let DirectCommand { ops, states: _ } = self;
        ops
    }
}

impl CommandList for DirectCommandList {
    open spec fn spec_kind(&self) -> ListKind {
        ListKind::Direct
    }

    closed spec fn recorded(&self) -> Seq<Op> {
        self.ops@
    }

    fn handle(&self) -> (ops: Vec<Op>) {
        copy_ops(&self.ops)
    }
}

/// A copy recording session. Copy-queue resource states decay to idle after
/// every submission, so the session starts from idle.
pub struct CopyCommand {
    ops: Vec<Op>,
    states: Ghost<Map<ResourceId, Usage>>,
}

impl CopyCommand {
    /// The operations emitted so far.
    pub closed spec fn spec_ops(self) -> Seq<Op> {
        self.ops@
    }

    /// The session's resource states after the operations emitted so far.
    pub closed spec fn spec_states(self) -> Map<ResourceId, Usage> {
        self.states@
    }

    /// Opens a copy session; every resource starts idle.
    pub fn new() -> (r: CopyCommand)
        ensures
            r.spec_ops() == Seq::<Op>::empty(),
            r.spec_states() == all_common(),
    {
        CopyCommand { ops: Vec::new(), states: Ghost(all_common()) }
    }

    /// Declares one state transition, as [`DirectCommand::barrier`] does.
    pub fn barrier(&mut self, t: TransitionBarrier)
        requires
            t.resource.needs_transition(),
            old(self).spec_states()[t.resource] == t.state_before,
        ensures
            final(self).spec_ops() == old(self).spec_ops().push(Op::Transition(t)),
            final(self).spec_states() == old(self).spec_states().insert(
                t.resource,
                t.state_after,
            ),
    {
        self.ops.push(Op::Transition(t));
        self.states = Ghost(self.states@.insert(t.resource, t.state_after));
    }

    /// Copies a texture into a read-back buffer. The source must stand in
    /// the copy-source state; the read-back buffer's state is fixed.
    pub fn copy(&mut self, src: &CopyResource, dest_slot: usize)
        requires
            old(self).spec_states()[src.resource] == Usage::CopySrc,
        ensures
            final(self).spec_ops() == old(self).spec_ops().push(
                Op::CopyTexture(src.resource, ResourceId::ReadBack(dest_slot)),
            ),
            final(self).spec_states() == old(self).spec_states(),
    {
        self.ops.push(Op::CopyTexture(src.resource, ResourceId::ReadBack(dest_slot)));
    }

    /// Copies an upload buffer into a default-heap buffer. The destination
    /// must stand in the copy-destination state; the upload buffer's state is
    /// fixed.
    pub fn copy_buffer(&mut self, src: ResourceId, dest: ResourceId)
        requires
            !src.needs_transition(),
            old(self).spec_states()[dest] == Usage::CopyDst,
        ensures
            final(self).spec_ops() == old(self).spec_ops().push(Op::CopyBuffer(src, dest)),
            final(self).spec_states() == old(self).spec_states(),
    {
        self.ops.push(Op::CopyBuffer(src, dest));
    }

    /// Closes the session, yielding its operations.
    pub fn into_ops(self) -> (ops: Vec<Op>)
        ensures
            ops@ == self.spec_ops(),
    {
        let CopyCommand { ops, states: _ } = self;
        ops
    }
}

/// A copy command list: holds the operations of its last recording.
pub struct CopyCommandList {
    ops: Vec<Op>,
}

impl CopyCommandList {
    /// A fresh list, closed and empty.
    pub fn new() -> (r: CopyCommandList)
        ensures
            r.recorded() == Seq::<Op>::empty(),
    {
        CopyCommandList { ops: Vec::new() }
    }

    /// One recording cycle, as [`DirectCommandList::record`].
    pub fn record(&mut self, _allocator: usize, cmd: CopyCommand)
        ensures
            final(self).recorded() == cmd.spec_ops(),
    {
        self.ops = cmd.into_ops();
    }
}

impl CommandList for CopyCommandList {
    open spec fn spec_kind(&self) -> ListKind {
        ListKind::Copy
    }

    closed spec fn recorded(&self) -> Seq<Op> {
        self.ops@
    }

    fn handle(&self) -> (ops: Vec<Op>) {
        copy_ops(&self.ops)
    }
}

} // verus!
