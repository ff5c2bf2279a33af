//! The engine itself: queues, signals, command-list recording, swap chain,
//! render-target buffers, the capture pipeline, and the per-frame
//! orchestration that ties them together.

pub mod buffers;
pub mod command_list;
pub mod command_queue;
pub mod pixel_shader;
pub mod resource;
pub mod swap_chain;
pub mod ui;
pub mod video;

pub use buffers::{CapturedImage, ReadBackBuffer, RenderTargetBuffers};
pub use command_queue::{CommandQueue, Fences, Signal, Signals};
pub use pixel_shader::Pipeline;
pub use resource::{Color, CopyResource, PixelShaderResource, RenderTarget};
pub use swap_chain::{PresentableQueue, SwapChain};
pub use ui::Ui;
pub use video::Video;

use vstd::prelude::*;

use crate::error::Error;
use crate::pool::{acquire_rel, Pool};
use crate::settings::Resolution;
use buffers::{img_dims, img_raw};
use command_list::{CommandList, CopyCommand, CopyCommandList, DirectCommand, DirectCommandList, Op};
use command_queue::{fences_advance, signals_clear, signals_wf};
use resource::{all_common, PlaneKind, ResourceId, TransitionBarrier, Usage};
use video::{video_wf, StepAction};

verus! {

/// Graphics command allocators per frame slot: one for the shader-and-
/// composite pass, one for the overlay pass.
pub const ALLOCATORS_PER_FRAME: usize = 2;

/// Copy-command allocators the capture paths rotate through.
pub const COPY_ALLOCATOR_COUNT: usize = 3;

/// Staging buffers the capture paths rotate through.
pub const READ_BACK_BUFFER_COUNT: usize = 3;

/// A pooled copy-command allocator and the signal of the last submission
/// that used it; the allocator may only be reset once that signal completes.
pub struct CopyAllocator {
    pub id: usize,
    pub last_signal: Option<Signal>,
}

/// An allocator is ready for reuse when its last submission has completed.
pub open spec fn allocator_ready(a: CopyAllocator, fences: Seq<u64>) -> bool {
    match a.last_signal {
        None => true,
        Some(s) => s.spec_is_completed(fences),
    }
}

/// The scale of the full-screen plane that letterboxes the off-screen
/// resolution into the window, as exact rationals per axis.
#[derive(Clone, Copy, PartialEq, Eq, Structural, Debug)]
pub struct PlaneScale {
    pub num_x: u64,
    pub den_x: u64,
    pub num_y: u64,
    pub den_y: u64,
}

impl PlaneScale {
    /// The unscaled plane.
    pub open spec fn spec_unit() -> PlaneScale {
        PlaneScale { num_x: 1u64, den_x: 1u64, num_y: 1u64, den_y: 1u64 }
    }

    /// The unscaled plane.
    pub fn unit() -> (r: PlaneScale)
        ensures
            r == PlaneScale::spec_unit(),
    {
        PlaneScale { num_x: 1, den_x: 1, num_y: 1, den_y: 1 }
    }
}

/// A transition operation, for writing recorded sequences down.
pub open spec fn trans_op(r: ResourceId, from: Usage, to: Usage) -> Op {
    Op::Transition(TransitionBarrier { resource: r, state_before: from, state_after: to })
}

/// The operations of the shader pass: draw the bound pixel shader into the
/// off-screen target, bracketed by enter and leave.
pub open spec fn shader_pass_ops(pipeline: usize, index: usize) -> Seq<Op> {
    seq![
        trans_op(ResourceId::OffScreen(index), Usage::Common, Usage::Target),
        Op::Clear(ResourceId::OffScreen(index), Color { r: 0, g: 0, b: 0, a: 0 }),
        Op::Draw(pipeline, ResourceId::OffScreen(index), PlaneKind::Filling),
        trans_op(ResourceId::OffScreen(index), Usage::Target, Usage::Common),
    ]
}

/// The operations that composite the off-screen result onto the back
/// buffer: both entered, the back buffer cleared, the result layered over
/// the adjusted plane. Both stay entered for the overlay pass.
pub open spec fn composite_ops(index: usize, clear_color: Color) -> Seq<Op> {
    seq![
        trans_op(ResourceId::OffScreen(index), Usage::Common, Usage::PixelShader),
        trans_op(ResourceId::BackBuffer(index), Usage::Common, Usage::Target),
        Op::Clear(ResourceId::BackBuffer(index), clear_color),
        Op::Layer(ResourceId::OffScreen(index), ResourceId::BackBuffer(index), PlaneKind::Adjusted),
    ]
}

/// The first pass recorded each frame: the shader pass when a pipeline is
/// bound, then the composite.
pub open spec fn pass_a_ops(ps: Option<Pipeline>, index: usize, clear_color: Color) -> Seq<Op> {
    match ps {
        Some(p) => shader_pass_ops(p.id, index) + composite_ops(index, clear_color),
        None => composite_ops(index, clear_color),
    }
}

/// The second pass recorded each frame: the overlay texture composited onto
/// the back buffer, then everything left back to idle.
pub open spec fn pass_b_ops(index: usize) -> Seq<Op> {
    seq![
        trans_op(ResourceId::UiBuffer(index), Usage::Common, Usage::PixelShader),
        Op::Layer(ResourceId::UiBuffer(index), ResourceId::BackBuffer(index), PlaneKind::Filling),
        trans_op(ResourceId::OffScreen(index), Usage::PixelShader, Usage::Common),
        trans_op(ResourceId::BackBuffer(index), Usage::Target, Usage::Common),
        trans_op(ResourceId::UiBuffer(index), Usage::PixelShader, Usage::Common),
    ]
}

/// The copy-queue operations of one capture: the off-screen texture copied
/// into a staging slot, bracketed by enter and leave.
pub open spec fn capture_ops(index: usize, slot: usize) -> Seq<Op> {
    seq![
        trans_op(ResourceId::OffScreen(index), Usage::Common, Usage::CopySrc),
        Op::CopyTexture(ResourceId::OffScreen(index), ResourceId::ReadBack(slot)),
        trans_op(ResourceId::OffScreen(index), Usage::CopySrc, Usage::Common),
    ]
}

/// The copy-queue operations of one plane upload: the plane's vertex and
/// index buffer filled from a transient upload buffer.
pub open spec fn plane_upload_ops(kind: PlaneKind, upload: usize) -> Seq<Op> {
    seq![
        trans_op(ResourceId::PlaneBuffer(kind), Usage::Common, Usage::CopyDst),
        Op::CopyBuffer(ResourceId::Upload(upload), ResourceId::PlaneBuffer(kind)),
        trans_op(ResourceId::PlaneBuffer(kind), Usage::CopyDst, Usage::Common),
    ]
}

/// What one frame produced: where it was rendered, the signals raised along
/// the way, and whether it was presented or captured.
pub struct FrameReport {
    /// The buffer index the frame was rendered into.
    pub index: usize,
    /// The signal after the first pass; the capture copy waits on it.
    pub main_signal: Signal,
    /// The overlay pass's signal; the second pass waits on it.
    pub ui_signal: Signal,
    /// The capture copy's signal, when a capture was issued this frame.
    pub copy_signal: Option<Signal>,
    /// The staging slot the capture copy targets, when one was issued.
    pub captured_slot: Option<usize>,
    /// Whether the frame-latency gate allowed presenting.
    pub presented: bool,
    /// The signal stored for this buffer index: the present's, or the
    /// second pass's when presentation was skipped.
    pub frame_signal: Signal,
}

/// The engine: everything a frame needs, and the model of the GPU's
/// progress that the driver reports into.
pub struct Renderer {
    /// GPU progress per fence; the driver reports completions here.
    pub fences: Fences,
    /// The rotating presentation buffers and the frame-latency gate.
    pub swap_chain: SwapChain,
    /// The off-screen textures the shader draws into.
    pub render_target: RenderTargetBuffers,
    /// Names the pixel-shader pipelines handed out.
    pub pixel_shader: pixel_shader::PixelShader,
    /// The pool of copy-command allocators for capture copies.
    pub copy_allocators: Pool<CopyAllocator>,
    /// The graphics command list both passes are recorded into.
    pub cmd_list: DirectCommandList,
    /// The per-buffer-index signals of submitted frames.
    pub signals: Signals,
    /// The 2D overlay layer with its own queue and signals.
    pub ui: Ui,
    /// The copy queue that runs captures and uploads.
    pub copy_queue: CommandQueue<CopyCommandList>,
    /// The graphics queue that submits and presents frames.
    pub main_queue: PresentableQueue,
    /// The pool of staging buffers captures copy into.
    pub read_back_buffers: Pool<ReadBackBuffer>,
    /// The video capture pipeline.
    pub video: Video,
    /// The configured frame-rate cap; the driver paces the loop by it.
    pub max_frame_rate: Option<u32>,
    /// The letterbox scale of the composite plane.
    pub adjusted_plane: PlaneScale,
    /// How many transient upload buffers have been created.
    pub upload_count: usize,
    /// The graphics-queue resource states, idle between frames.
    pub states: Ghost<Map<ResourceId, Usage>>,
}

impl Renderer {
    /// The capture channel's requests own their staging slots: each sits in
    /// a distinct, checked-out slot of the staging pool, with a buffer of
    /// the engine's resolution.
    pub open spec fn capture_requests_wf(self) -> bool {
        self.video.worker matches Some(w) ==> {
            &&& forall|i: int|
                0 <= i < w.pending@.len() ==> (#[trigger] w.pending@[i]).slot
                    < self.read_back_buffers@.len() && self.read_back_buffers@[w.pending@[i].slot as int] is None
                    && w.pending@[i].buffer.spec_size() == self.render_target.spec_size()
            &&& forall|i: int, j: int|
                0 <= i < j < w.pending@.len() ==> (#[trigger] w.pending@[i]).slot != (
                #[trigger] w.pending@[j]).slot
        }
    }

    /// The engine's invariant: consistent sizes and counts, every stored
    /// signal on a registered fence, sound pools and capture channel, and
    /// every graphics-queue resource idle between frames.
    pub open spec fn wf(self) -> bool {
        &&& self.swap_chain.wf()
        &&& self.render_target.spec_len() == self.swap_chain.spec_count()
        &&& self.render_target.spec_size().wf()
        &&& self.render_target.spec_size().spec_byte_len() + 15 <= u64::MAX
        &&& self.render_target.spec_size().spec_byte_len() + 15 <= usize::MAX
        &&& self.ui.spec_len() == self.swap_chain.spec_count()
        &&& self.ui.spec_signals().len() == self.ui.spec_len()
        &&& signals_wf(self.ui.spec_signals(), self.fences@)
        &&& self.signals@.len() == self.swap_chain.spec_count() * ALLOCATORS_PER_FRAME
        &&& self.swap_chain.spec_count() * ALLOCATORS_PER_FRAME <= usize::MAX
        &&& forall|i: int|
            self.swap_chain.spec_count() <= i < self.signals@.len() ==> (
            #[trigger] self.signals@[i]) is None
        &&& signals_wf(self.signals@, self.fences@)
        &&& self.main_queue.spec_fence() < self.fences@.len()
        &&& self.ui.spec_queue().spec_fence() < self.fences@.len()
        &&& self.copy_queue.spec_fence() < self.fences@.len()
        &&& 1 <= self.main_queue.spec_value()
        &&& 1 <= self.ui.spec_queue().spec_value()
        &&& 1 <= self.copy_queue.spec_value()
        &&& video_wf(self.video, self.fences@)
        &&& self.capture_requests_wf()
        &&& self.copy_allocators@.len() == COPY_ALLOCATOR_COUNT
        &&& forall|i: int|
            0 <= i < self.copy_allocators@.len() ==> (#[trigger] self.copy_allocators@[i]) is Some
        &&& self.read_back_buffers@.len() == READ_BACK_BUFFER_COUNT
        &&& forall|i: int|
            0 <= i < self.read_back_buffers@.len() ==> ((
            #[trigger] self.read_back_buffers@[i]) matches Some(b) ==> b.wf() && b.spec_size()
                == self.render_target.spec_size())
        &&& forall|i: int|
            0 <= i < self.copy_allocators@.len() ==> ((
            #[trigger] self.copy_allocators@[i]) matches Some(a) ==> (a.last_signal matches Some(
            s) ==> s.fence < self.fences@.len()))
        &&& self.states@ == all_common()
    }

    /// Builds the engine for a window: the swap chain and its presenting
    /// queue, the copy queue, the off-screen targets at the configured
    /// resolution, the overlay layer, the allocator and staging pools, and
    /// the two full-screen planes uploaded through the copy queue.
    pub fn new(
        resolution: Resolution,
        window_width: u32,
        window_height: u32,
        dpi: u32,
        max_frame_rate: Option<u32>,
        setting: &crate::settings::SwapChain,
    ) -> (r: Renderer)
        requires
            resolution.wf(),
            resolution.spec_byte_len() + 15 <= u64::MAX,
            resolution.spec_byte_len() + 15 <= usize::MAX,
            1 <= setting.buffer_count,
            setting.buffer_count * 2 <= usize::MAX,
        ensures
            r.wf(),
            r.swap_chain.spec_count() == setting.buffer_count,
            r.swap_chain.spec_width() == window_width,
            r.swap_chain.spec_height() == window_height,
            r.swap_chain.spec_current() == 0,
            r.swap_chain.spec_max_frame_latency() == setting.max_frame_latency,
            r.render_target.spec_size() == resolution,
            signals_clear(r.signals@),
            signals_clear(r.ui.spec_signals()),
            r.video.worker is None,
            r.video.timer is None,
            r.max_frame_rate == max_frame_rate,
            r.adjusted_plane == PlaneScale::spec_unit(),
            r.main_queue.spec_value() == 1,
            r.main_queue.spec_log().len() == 0,
            r.ui.spec_queue().spec_value() == 1,
            r.copy_queue.spec_value() == 3,
            r.copy_queue.spec_log().len() == 2,
            r.copy_queue.spec_log()[0].ops@ == plane_upload_ops(PlaneKind::Filling, 0),
            r.copy_queue.spec_log()[1].ops@ == plane_upload_ops(PlaneKind::Adjusted, 1),
            forall|i: int|
                0 <= i < r.copy_allocators@.len() ==> ((#[trigger] r.copy_allocators@[i])
                    matches Some(a) && a.last_signal is None),
            forall|i: int|
                0 <= i < r.read_back_buffers@.len() ==> ((#[trigger] r.read_back_buffers@[i])
                    matches Some(b) && b.spec_size() == resolution),
    {
        let mut fences = Fences::new();
        let count = setting.buffer_count as usize;
        let (swap_chain, main_queue) = SwapChain::new(
            count,
            window_width,
            window_height,
            setting.max_frame_latency,
            &mut fences,
        );
        let mut copy_queue = CommandQueue::<CopyCommandList>::new(&mut fences);
        let render_target = RenderTargetBuffers::new(resolution, count);
        let pixel_shader = pixel_shader::PixelShader::new();
        let ui = Ui::new(count, window_width, window_height, dpi, &mut fences);
        let mut upload_count: usize = 0;
        upload_plane(PlaneKind::Filling, &mut upload_count, &mut copy_queue, &mut fences);
        upload_plane(PlaneKind::Adjusted, &mut upload_count, &mut copy_queue, &mut fences);
        let cmd_list = DirectCommandList::new();
        let signals = Signals::new(count * ALLOCATORS_PER_FRAME);
        let mut allocators: Vec<CopyAllocator> = Vec::new();
        let mut i: usize = 0;
        while i < COPY_ALLOCATOR_COUNT
            invariant
                i <= COPY_ALLOCATOR_COUNT,
                allocators@.len() == i,
                forall|j: int|
                    0 <= j < i ==> (#[trigger] allocators@[j]) == (CopyAllocator {
                        id: j as usize,
                        last_signal: None,
                    }),
            decreases COPY_ALLOCATOR_COUNT - i,
        {
            allocators.push(CopyAllocator { id: i, last_signal: None });
            i = i + 1;
        }
        let copy_allocators = Pool::new(allocators);
        let mut staging: Vec<ReadBackBuffer> = Vec::new();
        let mut i: usize = 0;
        while i < READ_BACK_BUFFER_COUNT
            invariant
                i <= READ_BACK_BUFFER_COUNT,
                staging@.len() == i,
                resolution.wf(),
                resolution.spec_byte_len() + 15 <= u64::MAX,
                resolution.spec_byte_len() + 15 <= usize::MAX,
                forall|j: int|
                    0 <= j < i ==> (#[trigger] staging@[j]).wf() && staging@[j].spec_size()
                        == resolution,
            decreases READ_BACK_BUFFER_COUNT - i,
        {
            staging.push(ReadBackBuffer::new(resolution));
            i = i + 1;
        }
        let read_back_buffers = Pool::new(staging);
        let video = Video::new();
        Renderer {
            fences,
            swap_chain,
            render_target,
            pixel_shader,
            copy_allocators,
            cmd_list,
            signals,
            ui,
            copy_queue,
            main_queue,
            read_back_buffers,
            video,
            max_frame_rate,
            adjusted_plane: PlaneScale::unit(),
            upload_count,
            states: Ghost(all_common()),
        }
    }
}

/// The pipeline a frame draws, as a value.
pub open spec fn deref_ps(ps: Option<&Pipeline>) -> Option<Pipeline> {
    match ps {
        Some(p) => Some(*p),
        None => None,
    }
}

impl Renderer {
    /// A capture is due this frame: a video session is writing and the
    /// pacing timer has elapsed.
    pub open spec fn spec_capture_fired(self, now_micros: u64) -> bool {
        self.video.spec_is_writing() && (self.video.timer matches Some(t) && now_micros - t.last
            >= t.per_frame)
    }

    /// One frame, following the per-frame algorithm.
    ///
    /// The frame slot's previous signal is waited on before anything is
    /// recorded into the slot, so a buffer is never reused while its last
    /// frame is still on the GPU. The first pass draws the bound shader into
    /// the off-screen target and composites it onto the back buffer; if a
    /// capture is due, exactly one copy of the off-screen target is
    /// submitted on the copy queue — ordered after the first pass by its
    /// signal — into a pooled staging buffer handed to the video worker.
    /// Allocator acquisition suspends until a pooled allocator's last copy
    /// has completed; a free staging buffer is the caller's precondition,
    /// met by draining the worker, which is the suspension point of the
    /// original's buffer acquisition. The second pass composites the
    /// overlay — ordered after the overlay pass's own signal — and is
    /// presented only when the frame-latency gate allows it. The frame's
    /// last signal is stored for the slot's next reuse.
    ///
    /// Pacing by `max_frame_rate`, and the overlay drawing itself, are the
    /// driver's work before this call; `now_micros` is the driver's
    /// monotonic clock.
    pub fn render(
        &mut self,
        interval: u32,
        clear_color: Color,
        ps: Option<&Pipeline>,
        now_micros: u64,
    ) -> (r: Result<FrameReport, Error>)
        requires
            old(self).wf(),
            old(self).main_queue.spec_value() + 3 <= u64::MAX,
            old(self).ui.spec_queue().spec_value() < u64::MAX,
            old(self).copy_queue.spec_value() < u64::MAX,
            old(self).video.timer matches Some(t) ==> t.last <= now_micros,
            old(self).spec_capture_fired(now_micros) ==> exists|i: int|
                0 <= i < old(self).read_back_buffers@.len() && (
                #[trigger] old(self).read_back_buffers@[i]) is Some,
        ensures
            r is Ok,
            final(self).wf(),
            ({
                let report = r.unwrap();
                let main0 = old(self).main_queue;
                let n = main0.spec_log().len() as int;
                &&& report.index == old(self).swap_chain.spec_current()
                &&& match old(self).signals@[report.index as int] {
                    Some(s) => s.spec_is_completed(final(self).fences@),
                    None => true,
                }
                &&& final(self).signals@ == old(self).signals@.update(
                    report.index as int,
                    Some(report.frame_signal),
                )
                &&& fences_advance(old(self).fences@, final(self).fences@)
                &&& final(self).main_queue.spec_log().len() == n + 1 + 1
                &&& final(self).main_queue.spec_log()[n].ops@ == pass_a_ops(
                    deref_ps(ps),
                    report.index,
                    clear_color,
                )
                &&& final(self).main_queue.spec_log()[n].waits@ == main0.spec_waits()
                &&& final(self).main_queue.spec_log()[n].value == report.main_signal.value
                &&& final(self).main_queue.spec_log()[n + 1].ops@ == pass_b_ops(report.index)
                &&& final(self).main_queue.spec_log()[n + 1].waits@ == seq![report.ui_signal]
                &&& report.main_signal == (Signal {
                    fence: main0.spec_fence(),
                    value: main0.spec_value(),
                })
                &&& report.ui_signal == (Signal {
                    fence: old(self).ui.spec_queue().spec_fence(),
                    value: old(self).ui.spec_queue().spec_value(),
                })
                &&& final(self).ui.spec_signals() == old(self).ui.spec_signals().update(
                    report.index as int,
                    Some(report.ui_signal),
                )
                &&& report.presented == old(self).swap_chain.spec_signaled()
                &&& report.frame_signal == (Signal {
                    fence: main0.spec_fence(),
                    value: (main0.spec_value() + if report.presented {
                        2int
                    } else {
                        1int
                    }) as u64,
                })
                &&& final(self).main_queue.spec_value() == main0.spec_value() + if report.presented {
                    3int
                } else {
                    2int
                }
                &&& final(self).ui.spec_queue().spec_value() == old(
                self).ui.spec_queue().spec_value() + 1
                &&& final(self).copy_queue.spec_value() == old(self).copy_queue.spec_value()
                    + if report.copy_signal is Some {
                    1int
                } else {
                    0int
                }
                &&& final(self).swap_chain.spec_current() == if report.presented {
                    (old(self).swap_chain.spec_current() + 1) % (
                    old(self).swap_chain.spec_count() as int)
                } else {
                    old(self).swap_chain.spec_current() as int
                }
                &&& final(self).swap_chain.spec_count() == old(self).swap_chain.spec_count()
                &&& final(self).swap_chain.spec_width() == old(self).swap_chain.spec_width()
                &&& final(self).swap_chain.spec_height() == old(self).swap_chain.spec_height()
                &&& (report.copy_signal is Some) == (report.captured_slot is Some)
                &&& (report.copy_signal is Some <==> old(self).spec_capture_fired(now_micros))
                &&& match report.copy_signal {
                    Some(cs) => {
                        let slot = report.captured_slot.unwrap();
                        &&& cs == (Signal {
                            fence: old(self).copy_queue.spec_fence(),
                            value: old(self).copy_queue.spec_value(),
                        })
                        &&& final(self).copy_queue.spec_log().len() == old(
                        self).copy_queue.spec_log().len() + 1
                        &&& final(self).copy_queue.spec_log().last().ops@ == capture_ops(
                            report.index,
                            slot,
                        )
                        &&& final(self).copy_queue.spec_log().last().waits@ == old(
                        self).copy_queue.spec_waits().push(report.main_signal)
                        &&& final(self).read_back_buffers@ == old(
                        self).read_back_buffers@.update(slot as int, None::<ReadBackBuffer>)
                        &&& (final(self).video.worker.unwrap().pending@.len() > 0
                            && final(self).video.worker.unwrap().pending@.last().slot == slot
                            && final(self).video.worker.unwrap().pending@.last().signal == cs)
                        &&& final(self).main_queue.spec_waits() == seq![cs]
                    },
                    None => {
                        &&& final(self).copy_queue.spec_log() == old(self).copy_queue.spec_log()
                        &&& final(self).read_back_buffers@ == old(self).read_back_buffers@
                        &&& final(self).copy_allocators@ == old(self).copy_allocators@
                        &&& final(self).video.worker == old(self).video.worker
                        &&& final(self).main_queue.spec_waits() == Seq::<Signal>::empty()
                    },
                }
                &&& final(self).render_target == old(self).render_target
                &&& final(self).adjusted_plane == old(self).adjusted_plane
                &&& final(self).max_frame_rate == old(self).max_frame_rate
                &&& final(self).pixel_shader == old(self).pixel_shader
            }),
    {
        let index = self.swap_chain.current_buffer();
        proof {
            assert(index < self.signals@.len());
        }
        self.signals.wait(index, &mut self.fences);
        let ps_result = self.render_target.source(index);
        let back_buffer = self.swap_chain.target(index);
        let ui_buffer = self.ui.source(index);
        let mut cmd = DirectCommand::new(Ghost(self.states@));
        match ps {
            Some(p) => {
                let target = self.render_target.target(index);
                cmd.barrier(target.enter());
                cmd.clear(&target, Color { r: 0, g: 0, b: 0, a: 0 });
                cmd.draw(p, &target, PlaneKind::Filling);
                cmd.barrier(target.leave());
            },
            None => {},
        }
        cmd.barrier(ps_result.enter());
        cmd.barrier(back_buffer.enter());
        cmd.clear(&back_buffer, clear_color);
        cmd.layer(&ps_result, &back_buffer, PlaneKind::Adjusted);
        proof {
            assert(cmd.spec_ops() =~= pass_a_ops(deref_ps(ps), index, clear_color));
        }
        let ghost mid_states = cmd.spec_states();
        self.cmd_list.record(index * ALLOCATORS_PER_FRAME, cmd);
        self.states = Ghost(mid_states);
        let main_signal = self.main_queue.execute(&self.cmd_list);
        let ghost log_a = self.main_queue.spec_log();
        let mut copy_signal: Option<Signal> = None;
        let mut captured_slot: Option<usize> = None;
        let fired = self.video.signal(now_micros);
        if fired {
            let (aslot, a) = acquire_allocator(&mut self.copy_allocators, &mut self.fences);
            let buf = self.read_back_buffers.pop();
            match buf {
                Some((slot, buffer)) => {
                    let mut ccmd = CopyCommand::new();
                    let src = self.render_target.copy_resource(index);
                    ccmd.barrier(src.enter());
                    ccmd.copy(&src, slot);
                    ccmd.barrier(src.leave());
                    proof {
                        assert(ccmd.spec_ops() =~= capture_ops(index, slot));
                    }
                    let mut copy_list = CopyCommandList::new();
                    copy_list.record(a.id, ccmd);
                    self.copy_queue.wait(&main_signal);
                    let signal = self.copy_queue.execute(&copy_list);
                    copy_signal = Some(signal);
                    captured_slot = Some(slot);
                    let rejected = self.video.write(slot, buffer, signal);
                    match rejected {
                        Some(buffer) => {
                            self.read_back_buffers.release(slot, buffer);
                        },
                        None => {},
                    }
                    self.copy_allocators.release(
                        aslot,
                        CopyAllocator { id: a.id, last_signal: Some(signal) },
                    );
                },
                None => {
                    proof {
                        assert(false);
                    }
                    self.copy_allocators.release(aslot, a);
                },
            }
        }
        let mut cmd = DirectCommand::new(Ghost(self.states@));
        cmd.barrier(ui_buffer.enter());
        cmd.layer(&ui_buffer, &back_buffer, PlaneKind::Filling);
        cmd.barrier(ps_result.leave());
        cmd.barrier(back_buffer.leave());
        cmd.barrier(ui_buffer.leave());
        proof {
            assert(cmd.spec_ops() =~= pass_b_ops(index));
            assert(cmd.spec_states() =~= all_common());
        }
        let ghost end_states = cmd.spec_states();
        self.cmd_list.record(index * ALLOCATORS_PER_FRAME + 1, cmd);
        self.states = Ghost(end_states);
        let ui_signal = self.ui.render(index);
        self.main_queue.wait(&ui_signal);
        let presented = self.swap_chain.is_signaled();
        let frame_signal = if presented {
            let _pass_b_signal = self.main_queue.execute(&self.cmd_list);
            self.main_queue.present(&mut self.swap_chain, interval)
        } else {
            self.main_queue.execute(&self.cmd_list)
        };
        proof {
            let n = old(self).main_queue.spec_log().len() as int;
            let log_b = self.main_queue.spec_log();
            assert(log_b.take(log_a.len() as int) == log_a);
            assert(log_b[n] == log_a[n]);
            assert(log_a[n] == log_a.last());
            assert(log_b[n + 1] == log_b.last());
        }
        match &copy_signal {
            Some(cs) => {
                self.main_queue.wait(cs);
            },
            None => {},
        }
        self.signals.set(index, frame_signal);
        Ok(FrameReport {
            index,
            main_signal,
            ui_signal,
            copy_signal,
            captured_slot,
            presented,
            frame_signal,
        })
    }
}

/// What one video worker pass produced, after the engine has returned the
/// staging buffer to its pool.
pub enum StepReport {
    /// Nothing to do.
    Idle,
    /// One frame was converted and encoded; `finished` says the session
    /// reached its end frame and finalized with this sample.
    Encoded { image: CapturedImage, sample: video::Sample, finished: bool },
    /// The channel was closed and drained; the encoder finalized.
    Finalized,
    /// A request left over after the session finalized was discarded; its
    /// staging buffer is back in the pool.
    Discarded,
}

impl Renderer {
    /// Drains and waits on every stored frame signal: the hard barrier
    /// before resources may be destroyed or replaced. On return nothing is
    /// in flight.
    pub fn wait_all_signals(&mut self)
        requires
            old(self).wf(),
        ensures
            final(self).wf(),
            signals_clear(final(self).signals@),
            final(self).signals@.len() == old(self).signals@.len(),
            fences_advance(old(self).fences@, final(self).fences@),
            forall|i: int|
                0 <= i < old(self).signals@.len() ==> ((#[trigger] old(self).signals@[i])
                    matches Some(s) ==> s.spec_is_completed(final(self).fences@)),
            final(self).swap_chain == old(self).swap_chain,
            final(self).render_target == old(self).render_target,
            final(self).main_queue == old(self).main_queue,
            final(self).copy_queue == old(self).copy_queue,
            final(self).ui == old(self).ui,
            final(self).video.worker == old(self).video.worker,
            final(self).video.timer == old(self).video.timer,
            final(self).copy_allocators@ == old(self).copy_allocators@,
            final(self).read_back_buffers@ == old(self).read_back_buffers@,
            final(self).adjusted_plane == old(self).adjusted_plane,
            final(self).max_frame_rate == old(self).max_frame_rate,
            final(self).pixel_shader == old(self).pixel_shader,
            final(self).upload_count == old(self).upload_count,
    {
        self.signals.wait_all(&mut self.fences);
    }

    /// Reads the most recently finished frame back as a CPU image, without
    /// disturbing the render cadence: the copy queue is ordered after that
    /// frame's stored signal, the copy runs into a pooled staging buffer,
    /// and the call blocks until the copy completes. Allocator acquisition
    /// suspends until a pooled allocator's last copy has completed; a free
    /// staging buffer is the caller's precondition, met by draining the
    /// worker.
    ///
    /// `None` exactly when no frame has been rendered and stored yet.
    pub fn screen_shot(&mut self) -> (r: Result<Option<CapturedImage>, Error>)
        requires
            old(self).wf(),
            old(self).copy_queue.spec_value() < u64::MAX,
            !signals_clear(old(self).signals@) ==> exists|i: int|
                0 <= i < old(self).read_back_buffers@.len() && (
                #[trigger] old(self).read_back_buffers@[i]) is Some,
        ensures
            r is Ok,
            final(self).wf(),
            fences_advance(old(self).fences@, final(self).fences@),
            final(self).signals@ == old(self).signals@,
            final(self).main_queue == old(self).main_queue,
            final(self).swap_chain == old(self).swap_chain,
            final(self).render_target == old(self).render_target,
            final(self).video.worker == old(self).video.worker,
            ({
                let img_opt = r.unwrap();
                &&& (img_opt is Some <==> !signals_clear(old(self).signals@))
                &&& match img_opt {
                    Some(img) => {
                        &&& img_dims(img) == (
                            old(self).render_target.spec_size().width,
                            old(self).render_target.spec_size().height,
                        )
                        &&& final(self).copy_queue.spec_log().len() == old(
                        self).copy_queue.spec_log().len() + 1
                        &&& (exists|i: usize, s: Signal, slot: usize|
                            #[trigger] command_queue::last_frame_rel(
                                old(self).signals@,
                                Some((i, s)),
                            ) && final(self).copy_queue.spec_log().last().waits@ == old(
                            self).copy_queue.spec_waits().push(s)
                                && final(self).copy_queue.spec_log().last().ops@
                                == #[trigger] capture_ops(i, slot) && slot < old(
                            self).read_back_buffers@.len() && (old(
                            self).read_back_buffers@[slot as int] matches Some(b) && img_raw(img)
                                == b.spec_data().take(b.spec_size().spec_byte_len() as int)))
                        &&& (Signal {
                            fence: old(self).copy_queue.spec_fence(),
                            value: old(self).copy_queue.spec_value(),
                        }).spec_is_completed(final(self).fences@)
                        &&& final(self).copy_queue.spec_value() == old(
                        self).copy_queue.spec_value() + 1
                        &&& final(self).read_back_buffers@ == old(self).read_back_buffers@
                    },
                    None => {
                        &&& final(self).copy_queue == old(self).copy_queue
                        &&& final(self).fences@ == old(self).fences@
                        &&& final(self).read_back_buffers@ == old(self).read_back_buffers@
                        &&& final(self).copy_allocators@ == old(self).copy_allocators@
                    },
                }
            }),
    {
        let frame = self.signals.last_frame();
        match frame {
            None => Ok(None),
            Some((index, frame_signal)) => {
                proof {
                    assert(self.signals@[index as int] is Some);
                    assert(index < self.swap_chain.spec_count());
                }
                let (aslot, a) = acquire_allocator(&mut self.copy_allocators, &mut self.fences);
                let buf = self.read_back_buffers.pop();
                match buf {
                    None => {
                        proof {
                            assert(false);
                        }
                        self.copy_allocators.release(aslot, a);
                        Ok(None)
                    },
                    Some((slot, buffer)) => {
                        let mut ccmd = CopyCommand::new();
                        let src = self.render_target.copy_resource(index);
                        ccmd.barrier(src.enter());
                        ccmd.copy(&src, slot);
                        ccmd.barrier(src.leave());
                        proof {
                            assert(ccmd.spec_ops() =~= capture_ops(index, slot));
                        }
                        let mut copy_list = CopyCommandList::new();
                        copy_list.record(a.id, ccmd);
                        self.copy_queue.wait(&frame_signal);
                        let signal = self.copy_queue.execute(&copy_list);
                        signal.wait(&mut self.fences);
                        let img = buffer.to_image();
                        self.read_back_buffers.release(slot, buffer);
                        self.copy_allocators.release(
                            aslot,
                            CopyAllocator { id: a.id, last_signal: Some(signal) },
                        );
                        proof {
                            assert(self.read_back_buffers@ =~= old(self).read_back_buffers@);
                        }
                        Ok(Some(img))
                    },
                }
            },
        }
    }
}

impl Renderer {
    /// Resizes the swap chain and the overlay layer to a new window size.
    /// Every in-flight signal is drained first, so no buffer is destroyed
    /// while the GPU might still touch it; presentation restarts at index 0.
    pub fn resize(&mut self, width: u32, height: u32) -> (r: Result<(), Error>)
        requires
            old(self).wf(),
        ensures
            r is Ok,
            final(self).wf(),
            signals_clear(final(self).signals@),
            signals_clear(final(self).ui.spec_signals()),
            forall|i: int|
                0 <= i < old(self).signals@.len() ==> ((#[trigger] old(self).signals@[i])
                    matches Some(s) ==> s.spec_is_completed(final(self).fences@)),
            forall|i: int|
                0 <= i < old(self).ui.spec_signals().len() ==> ((
                #[trigger] old(self).ui.spec_signals()[i]) matches Some(s)
                    ==> s.spec_is_completed(final(self).fences@)),
            final(self).swap_chain.spec_width() == width,
            final(self).swap_chain.spec_height() == height,
            final(self).swap_chain.spec_count() == old(self).swap_chain.spec_count(),
            final(self).swap_chain.spec_current() == 0,
            final(self).ui.spec_width() == width,
            final(self).ui.spec_height() == height,
            final(self).render_target == old(self).render_target,
            final(self).adjusted_plane == old(self).adjusted_plane,
            fences_advance(old(self).fences@, final(self).fences@),
    {
        self.wait_all_signals();
        self.swap_chain.resize(&self.signals, None, width, height);
        self.ui.resize(width, height, &mut self.fences);
        Ok(())
    }

    /// `resize`, and the composite plane back to its unscaled form — the
    /// window shows the resolution edge to edge again.
    pub fn restore(&mut self, width: u32, height: u32) -> (r: Result<(), Error>)
        requires
            old(self).wf(),
            old(self).copy_queue.spec_value() < u64::MAX,
            old(self).upload_count < usize::MAX,
        ensures
            r is Ok,
            final(self).wf(),
            signals_clear(final(self).signals@),
            forall|i: int|
                0 <= i < old(self).signals@.len() ==> ((#[trigger] old(self).signals@[i])
                    matches Some(s) ==> s.spec_is_completed(final(self).fences@)),
            final(self).swap_chain.spec_width() == width,
            final(self).swap_chain.spec_height() == height,
            final(self).swap_chain.spec_current() == 0,
            final(self).adjusted_plane == PlaneScale::spec_unit(),
            final(self).copy_queue.spec_log().len() == old(self).copy_queue.spec_log().len() + 1,
            final(self).copy_queue.spec_log().last().ops@ == plane_upload_ops(
                PlaneKind::Adjusted,
                old(self).upload_count,
            ),
    {
        self.wait_all_signals();
        self.swap_chain.resize(&self.signals, None, width, height);
        self.ui.resize(width, height, &mut self.fences);
        upload_plane(
            PlaneKind::Adjusted,
            &mut self.upload_count,
            &mut self.copy_queue,
            &mut self.fences,
        );
        self.adjusted_plane = PlaneScale::unit();
        Ok(())
    }

    /// `resize` for a maximized window, with the composite plane rescaled
    /// to letterbox the off-screen resolution into the window: whichever
    /// aspect ratio is narrower is scaled down by the exact ratio of the
    /// two aspect ratios.
    pub fn maximize(&mut self, width: u32, height: u32) -> (r: Result<(), Error>)
        requires
            old(self).wf(),
            old(self).copy_queue.spec_value() < u64::MAX,
            old(self).upload_count < usize::MAX,
            width >= 1,
            height >= 1,
        ensures
            r is Ok,
            final(self).wf(),
            signals_clear(final(self).signals@),
            forall|i: int|
                0 <= i < old(self).signals@.len() ==> ((#[trigger] old(self).signals@[i])
                    matches Some(s) ==> s.spec_is_completed(final(self).fences@)),
            final(self).swap_chain.spec_width() == width,
            final(self).swap_chain.spec_height() == height,
            final(self).swap_chain.spec_current() == 0,
            ({
                let rw = old(self).render_target.spec_size().width;
                let rh = old(self).render_target.spec_size().height;
                if rw * height > width * rh {
                    final(self).adjusted_plane == (PlaneScale {
                        num_x: 1u64,
                        den_x: 1u64,
                        num_y: (width * rh) as u64,
                        den_y: (rw * height) as u64,
                    })
                } else {
                    final(self).adjusted_plane == (PlaneScale {
                        num_x: (rw * height) as u64,
                        den_x: (width * rh) as u64,
                        num_y: 1u64,
                        den_y: 1u64,
                    })
                }
            }),
            final(self).copy_queue.spec_log().len() == old(self).copy_queue.spec_log().len() + 1,
            final(self).copy_queue.spec_log().last().ops@ == plane_upload_ops(
                PlaneKind::Adjusted,
                old(self).upload_count,
            ),
    {
        self.wait_all_signals();
        self.swap_chain.resize(&self.signals, None, width, height);
        let rw = self.render_target.size().width;
        let rh = self.render_target.size().height;
        proof {
            assert((rw as int) * (height as int) <= 0xffff_fffe_0000_0001) by (nonlinear_arith)
                requires
                    rw <= 0xffff_ffffu32,
                    height <= 0xffff_ffffu32,
            ;
            assert((width as int) * (rh as int) <= 0xffff_fffe_0000_0001) by (nonlinear_arith)
                requires
                    width <= 0xffff_ffffu32,
                    rh <= 0xffff_ffffu32,
            ;
        }
        let cross_resolution: u64 = (rw as u64) * (height as u64);
        let cross_window: u64 = (width as u64) * (rh as u64);
        let scale = if cross_resolution > cross_window {
            PlaneScale { num_x: 1, den_x: 1, num_y: cross_window, den_y: cross_resolution }
        } else {
            PlaneScale { num_x: cross_resolution, den_x: cross_window, num_y: 1, den_y: 1 }
        };
        upload_plane(
            PlaneKind::Adjusted,
            &mut self.upload_count,
            &mut self.copy_queue,
            &mut self.fences,
        );
        self.adjusted_plane = scale;
        self.ui.resize(width, height, &mut self.fences);
        Ok(())
    }

    /// Changes the DPI the overlay drawing context renders at.
    pub fn change_dpi(&mut self, dpi: u32) -> (r: Result<(), Error>)
        requires
            old(self).wf(),
        ensures
            r is Ok,
            final(self).wf(),
            final(self).ui.spec_dpi() == dpi,
    {
        self.ui.change_dpi(dpi);
        Ok(())
    }

    /// Rebuilds the engine around a new off-screen resolution and
    /// swap-chain configuration: every in-flight signal is drained, the
    /// swap chain is resized to the resolution with the new buffer count,
    /// and the off-screen targets, frame signals, staging buffers, command
    /// list and pipeline names are replaced. Any capture requests must have
    /// been drained first: the staging buffers they hold are sized to the
    /// old resolution, and the driver drains the worker anyway before
    /// tearing the encoder's sources down. (The original lets in-flight
    /// requests keep the old pool alive instead.)
    pub fn recreate(
        &mut self,
        resolution: Resolution,
        max_frame_rate: Option<u32>,
        setting: &crate::settings::SwapChain,
    ) -> (r: Result<(), Error>)
        requires
            old(self).wf(),
            resolution.wf(),
            resolution.spec_byte_len() + 15 <= u64::MAX,
            resolution.spec_byte_len() + 15 <= usize::MAX,
            1 <= setting.buffer_count,
            setting.buffer_count * 2 <= usize::MAX,
            old(self).video.worker matches Some(w) ==> w.pending@.len() == 0,
        ensures
            r is Ok,
            final(self).wf(),
            signals_clear(final(self).signals@),
            forall|i: int|
                0 <= i < old(self).signals@.len() ==> ((#[trigger] old(self).signals@[i])
                    matches Some(s) ==> s.spec_is_completed(final(self).fences@)),
            final(self).swap_chain.spec_count() == setting.buffer_count,
            final(self).swap_chain.spec_width() == resolution.width,
            final(self).swap_chain.spec_height() == resolution.height,
            final(self).swap_chain.spec_max_frame_latency() == setting.max_frame_latency,
            final(self).render_target.spec_size() == resolution,
            final(self).render_target.spec_len() == setting.buffer_count,
            final(self).pixel_shader.spec_created() == 0,
            final(self).cmd_list.recorded() == Seq::<Op>::empty(),
            final(self).max_frame_rate == max_frame_rate,
            forall|i: int|
                0 <= i < final(self).read_back_buffers@.len() ==> ((
                #[trigger] final(self).read_back_buffers@[i]) matches Some(b) && b.spec_size()
                    == resolution),
    {
        self.wait_all_signals();
        let count = setting.buffer_count as usize;
        self.swap_chain.resize(
            &self.signals,
            Some(setting.buffer_count),
            resolution.width,
            resolution.height,
        );
        self.render_target = RenderTargetBuffers::new(resolution, count);
        self.pixel_shader = pixel_shader::PixelShader::new();
        self.cmd_list = DirectCommandList::new();
        self.signals = Signals::new(count * ALLOCATORS_PER_FRAME);
        self.ui.recreate(count, resolution.width, resolution.height, &mut self.fences);
        let mut staging: Vec<ReadBackBuffer> = Vec::new();
        let mut i: usize = 0;
        while i < READ_BACK_BUFFER_COUNT
            invariant
                i <= READ_BACK_BUFFER_COUNT,
                staging@.len() == i,
                resolution.wf(),
                resolution.spec_byte_len() + 15 <= u64::MAX,
                resolution.spec_byte_len() + 15 <= usize::MAX,
                forall|j: int|
                    0 <= j < i ==> (#[trigger] staging@[j]).wf() && staging@[j].spec_size()
                        == resolution,
            decreases READ_BACK_BUFFER_COUNT - i,
        {
            staging.push(ReadBackBuffer::new(resolution));
            i = i + 1;
        }
        self.read_back_buffers = Pool::new(staging);
        self.max_frame_rate = max_frame_rate;
        self.swap_chain.set_max_frame_latency(setting.max_frame_latency);
        Ok(())
    }

    /// Opens a video capture session at the given rate; the driver has
    /// created the encoder sink for the output path. With an end frame the
    /// session finalizes on its own after exactly that many samples. Any
    /// earlier session's capture requests must have been drained first, so
    /// the staging buffers they hold are back in their pool — the original's
    /// background worker drains them on its own before it exits.
    pub fn start_video(&mut self, frame_rate: u32, end_frame: Option<u64>, now_micros: u64) -> (r:
        Result<(), Error>)
        requires
            old(self).wf(),
            frame_rate >= 1,
            end_frame matches Some(e) ==> e >= 1,
            old(self).video.worker matches Some(w) ==> w.pending@.len() == 0,
        ensures
            r is Ok,
            final(self).wf(),
            final(self).video.spec_is_writing(),
            final(self).video.worker.unwrap().fps == frame_rate,
            final(self).video.worker.unwrap().end_frame == end_frame,
            final(self).video.worker.unwrap().frame == 0,
            final(self).video.worker.unwrap().samples@.len() == 0,
            final(self).video.worker.unwrap().pending@.len() == 0,
    {
        self.video.start(frame_rate, end_frame, now_micros);
        Ok(())
    }

    /// Whether a video session is accepting frames.
    pub fn is_writing_video(&self) -> (r: bool)
        ensures
            r == self.video.spec_is_writing(),
    {
        self.video.is_writing()
    }

    /// Closes the video session's channel; the worker drains what is
    /// pending and then finalizes.
    pub fn stop_video(&mut self)
        requires
            old(self).wf(),
        ensures
            final(self).wf(),
            !final(self).video.spec_is_writing(),
            match old(self).video.worker {
                Some(w) => final(self).video.worker == Some(
                    video::Worker { closed: true, ..w },
                ),
                None => final(self).video.worker is None,
            },
    {
        self.video.stop();
    }

    /// One pass of the video worker: encodes the next pending frame, or
    /// finalizes a drained, closed session. The staging buffer of an
    /// encoded or failed frame returns to its pool before the pass
    /// reports. `encode_ok` is the driver's report of its encoder call; a
    /// failure ends the session with [`Error::EncodeFailed`] and the driver
    /// deletes the partial output file.
    pub fn video_worker_step(&mut self, encode_ok: bool) -> (r: Result<StepReport, Error>)
        requires
            old(self).wf(),
            old(self).video.worker matches Some(w) ==> w.frame < 1_000_000_000,
        ensures
            final(self).wf(),
            fences_advance(old(self).fences@, final(self).fences@),
            final(self).signals@ == old(self).signals@,
            final(self).main_queue == old(self).main_queue,
            final(self).copy_queue == old(self).copy_queue,
            r is Err <==> (old(self).video.worker matches Some(w) && !w.done && !encode_ok && (
            w.pending@.len() > 0 || w.closed)),
            r matches Err(e) ==> e == Error::EncodeFailed,
            r matches Ok(rep) ==> match rep {
                StepReport::Idle => final(self).video.worker == old(self).video.worker,
                StepReport::Encoded { image, sample, finished } => {
                    let w = old(self).video.worker.unwrap();
                    &&& w.pending@.len() > 0
                    &&& final(self).video.worker.unwrap().frame == w.frame + 1
                    &&& final(self).video.worker.unwrap().samples@ == w.samples@.push(sample)
                    &&& sample == (video::Sample {
                        time: (w.frame * 10_000_000 / (w.fps as int)) as u64,
                        duration: (10_000_000 as int / (w.fps as int)) as u64,
                    })
                    &&& finished == (w.end_frame matches Some(e) && w.frame + 1 == e)
                    &&& finished == final(self).video.worker.unwrap().done
                    &&& img_dims(image) == (
                        w.pending@[0].buffer.spec_size().width,
                        w.pending@[0].buffer.spec_size().height,
                    )
                    &&& w.pending@[0].signal.spec_is_completed(final(self).fences@)
                },
                StepReport::Finalized => {
                    &&& old(self).video.worker matches Some(w) && w.closed && !w.done
                        && w.pending@.len() == 0
                    &&& final(self).video.worker.unwrap().done
                },
                StepReport::Discarded => {
                    &&& old(self).video.worker matches Some(w) && w.done && w.pending@.len() > 0
                    &&& final(self).video.worker.unwrap().pending@ == old(
                    self).video.worker.unwrap().pending@.skip(1)
                },
            },
    {
        let step = self.video.worker_step(&mut self.fences, encode_ok);
        match step {
            StepAction::Idle => Ok(StepReport::Idle),
            StepAction::Encoded { slot, buffer, image, sample, finished } => {
                self.read_back_buffers.release(slot, buffer);
                Ok(StepReport::Encoded { image, sample, finished })
            },
            StepAction::Finalized => Ok(StepReport::Finalized),
            StepAction::Drained { slot, buffer } => {
                self.read_back_buffers.release(slot, buffer);
                Ok(StepReport::Discarded)
            },
            StepAction::Failed { returned } => {
                match returned {
                    Some((slot, buffer)) => {
                        self.read_back_buffers.release(slot, buffer);
                    },
                    None => {},
                }
                Err(Error::EncodeFailed)
            },
        }
    }

    /// Names a new pixel-shader pipeline for a compiled shader the driver
    /// holds; recorded draws refer to it by this name.
    pub fn create_pixel_shader_pipeline(&mut self) -> (r: Result<Pipeline, Error>)
        requires
            old(self).wf(),
            old(self).pixel_shader.spec_created() < usize::MAX,
        ensures
            r is Ok,
            final(self).wf(),
            r.unwrap().id == old(self).pixel_shader.spec_created(),
            final(self).pixel_shader.spec_created() == old(self).pixel_shader.spec_created() + 1,
    {
        Ok(self.pixel_shader.create_pipeline())
    }
}

/// Takes a pooled allocator, suspending as the original's predicate-gated
/// acquisition does: an allocator whose last submission has completed is
/// preferred; when none is ready yet, the wait ends once one's last
/// submission completes, which the model resolves by waiting the first
/// allocator's signal out. Between public calls every allocator sits in its
/// slot, so acquisition always succeeds.
fn acquire_allocator(pool: &mut Pool<CopyAllocator>, fences: &mut Fences) -> (r: (
    usize,
    CopyAllocator,
))
    requires
        old(pool)@.len() > 0,
        forall|i: int| 0 <= i < old(pool)@.len() ==> (#[trigger] old(pool)@[i]) is Some,
        forall|i: int|
            0 <= i < old(pool)@.len() ==> ((#[trigger] old(pool)@[i]) matches Some(a) ==> (
            a.last_signal matches Some(s) ==> s.fence < old(fences)@.len())),
    ensures
        r.0 < old(pool)@.len(),
        old(pool)@[r.0 as int] == Some(r.1),
        final(pool)@ == old(pool)@.update(r.0 as int, None::<CopyAllocator>),
        allocator_ready(r.1, final(fences)@),
        fences_advance(old(fences)@, final(fences)@),
{
    let n = pool.len();
    let mut i: usize = 0;
    while i < n
        invariant
            i <= n,
            n == pool@.len(),
            pool@ == old(pool)@,
            fences@ == old(fences)@,
        decreases n - i,
    {
        let ready = match pool.slot(i) {
            Some(a) => match &a.last_signal {
                None => true,
                Some(s) => {
                    if s.fence < fences.len() {
                        s.is_completed(fences)
                    } else {
                        false
                    }
                },
            },
            None => false,
        };
        if ready {
            let a = pool.take_at(i);
            return (i, a);
        }
        i = i + 1;
    }
    let a = pool.take_at(0);
    match &a.last_signal {
        Some(s) => {
            s.wait(fences);
        },
        None => {},
    }
    (0, a)
}

/// Uploads one full-screen plane's vertex and index data: a transient
/// upload buffer is copied into the plane's buffer on the copy queue, and
/// the upload is waited on before the buffers are used.
fn upload_plane(
    kind: PlaneKind,
    upload_count: &mut usize,
    copy_queue: &mut CommandQueue<CopyCommandList>,
    fences: &mut Fences,
)
    requires
        *old(upload_count) < usize::MAX,
        old(copy_queue).spec_value() < u64::MAX,
        old(copy_queue).spec_fence() < old(fences)@.len(),
    ensures
        *final(upload_count) == *old(upload_count) + 1,
        final(copy_queue).spec_fence() == old(copy_queue).spec_fence(),
        final(copy_queue).spec_value() == old(copy_queue).spec_value() + 1,
        final(copy_queue).spec_waits() == Seq::<Signal>::empty(),
        final(copy_queue).spec_log().len() == old(copy_queue).spec_log().len() + 1,
        final(copy_queue).spec_log().take(old(copy_queue).spec_log().len() as int) == old(
        copy_queue).spec_log(),
        final(copy_queue).spec_log().last().ops@ == plane_upload_ops(kind, *old(upload_count)),
        final(copy_queue).spec_log().last().waits@ == old(copy_queue).spec_waits(),
        fences_advance(old(fences)@, final(fences)@),
{
    let plane = ResourceId::PlaneBuffer(kind);
    let mut cmd = CopyCommand::new();
    cmd.barrier(TransitionBarrier {
        resource: plane,
        state_before: Usage::Common,
        state_after: Usage::CopyDst,
    });
    cmd.copy_buffer(ResourceId::Upload(*upload_count), plane);
    cmd.barrier(TransitionBarrier {
        resource: plane,
        state_before: Usage::CopyDst,
        state_after: Usage::Common,
    });
    let mut list = CopyCommandList::new();
    list.record(0, cmd);
    let signal = copy_queue.execute(&list);
    signal.wait(fences);
    *upload_count = *upload_count + 1;
    proof {
        assert(copy_queue.spec_log().last().ops@ =~= plane_upload_ops(kind, *old(upload_count)));
    }
}

} // verus!
