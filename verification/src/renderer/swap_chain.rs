//! The swap chain — the rotating presentation buffers — and the presentable
//! queue that submits frames and presents them.
//!
//! The frame-latency gate (`is_signaled`) mirrors the waitable object the
//! presentation engine raises when it is ready to accept another queued
//! frame; the driver layer reports its state. Presenting rotates the current
//! back-buffer index and raises the presenting queue's next signal
//! atomically from the caller's point of view.

use vstd::prelude::*;

use super::command_list::{CommandList, DirectCommandList};
use super::command_queue::{
    execute_rel, signal_rel, signals_clear, CommandQueue, Fences, Signal, Signals,
};
use super::resource::{RenderTarget, ResourceId};

verus! {

/// The graphics queue that owns the swap chain: it submits frame work and
/// raises the signal paired with each present.
pub struct PresentableQueue {
    queue: CommandQueue<DirectCommandList>,
}

impl PresentableQueue {
    /// The wrapped queue, for stating contracts over its relations.
    pub closed spec fn spec_queue(self) -> CommandQueue<DirectCommandList> {
        self.queue
    }

    /// The underlying queue's fence id.
    pub closed spec fn spec_fence(self) -> usize {
        self.queue.spec_fence()
    }

    /// The next value the underlying queue will signal.
    pub closed spec fn spec_value(self) -> u64 {
        self.queue.spec_value()
    }

    /// The queue-side waits collected for the next submission.
    pub closed spec fn spec_waits(self) -> Seq<Signal> {
        self.queue.spec_waits()
    }

    /// The submissions made so far.
    pub closed spec fn spec_log(self) -> Seq<super::command_queue::Submission> {
        self.queue.spec_log()
    }

    /// The queue's counter is not exhausted.
    pub open spec fn wf(self) -> bool {
        1 <= self.spec_value() < u64::MAX
    }

    /// Wraps a graphics queue; the swap chain presents through it.
    pub fn new(queue: CommandQueue<DirectCommandList>) -> (r: PresentableQueue)
        ensures
            r.spec_fence() == queue.spec_fence(),
            r.spec_value() == queue.spec_value(),
            r.spec_waits() == queue.spec_waits(),
            r.spec_log() == queue.spec_log(),
    {
        PresentableQueue { queue }
    }

    /// Submits one recorded graphics list, deferred after the collected
    /// waits, and raises the next signal.
    pub fn execute(&mut self, cmd_list: &DirectCommandList) -> (r: Signal)
        requires
            old(self).spec_value() < u64::MAX,
        ensures
            execute_rel(old(self).spec_queue(), cmd_list.recorded(), r, final(self).spec_queue()),
            r.fence == old(self).spec_fence(),
            r.value == old(self).spec_value(),
            final(self).spec_fence() == old(self).spec_fence(),
            final(self).spec_value() == old(self).spec_value() + 1,
            final(self).spec_waits() == Seq::<Signal>::empty(),
            final(self).spec_log().len() == old(self).spec_log().len() + 1,
            final(self).spec_log().take(old(self).spec_log().len() as int) == old(self).spec_log(),
            final(self).spec_log().last().waits@ == old(self).spec_waits(),
            final(self).spec_log().last().ops@ == cmd_list.recorded(),
            final(self).spec_log().last().value == old(self).spec_value(),
    {
        self.queue.execute(cmd_list)
    }

    /// Defers subsequent submissions until `signal` is reached.
    pub fn wait(&mut self, signal: &Signal)
        ensures
            final(self).spec_waits() == old(self).spec_waits().push(*signal),
            final(self).spec_fence() == old(self).spec_fence(),
            final(self).spec_value() == old(self).spec_value(),
            final(self).spec_log() == old(self).spec_log(),
    {
        self.queue.wait(signal);
    }

    /// The submissions made so far, for the driver to perform.
    pub fn log(&self) -> (r: &Vec<super::command_queue::Submission>)
        ensures
            r@ == self.spec_log(),
    {
        self.queue.log()
    }

    /// Requests presentation with a vertical-sync interval (0 immediate,
    /// 1 and up multiples of the refresh), rotates the swap chain to the
    /// next back buffer, and raises the presenting queue's signal.
    pub fn present(&mut self, swap_chain: &mut SwapChain, _interval: u32) -> (r: Signal)
        requires
            old(self).spec_value() < u64::MAX,
            old(swap_chain).wf(),
        ensures
            signal_rel(old(self).spec_queue(), r, final(self).spec_queue()),
            r.fence == old(self).spec_fence(),
            r.value == old(self).spec_value(),
            final(self).spec_value() == old(self).spec_value() + 1,
            final(self).spec_fence() == old(self).spec_fence(),
            final(self).spec_waits() == old(self).spec_waits(),
            final(self).spec_log() == old(self).spec_log(),
            final(swap_chain).spec_current() == (old(swap_chain).spec_current() + 1) % (
            old(swap_chain).spec_count() as int),
            swap_chain_same_but_current(*old(swap_chain), *final(swap_chain)),
    {
        swap_chain.rotate();
        self.queue.signal()
    }
}

/// Everything of the swap chain but the current index is unchanged.
pub open spec fn swap_chain_same_but_current(pre: SwapChain, post: SwapChain) -> bool {
    &&& post.spec_count() == pre.spec_count()
    &&& post.spec_width() == pre.spec_width()
    &&& post.spec_height() == pre.spec_height()
    &&& post.spec_max_frame_latency() == pre.spec_max_frame_latency()
    &&& post.spec_signaled() == pre.spec_signaled()
}

/// The rotating presentation buffers and the frame-latency gate.
pub struct SwapChain {
    buffer_count: usize,
    width: u32,
    height: u32,
    current: usize,
    max_frame_latency: u32,
    latency_signaled: bool,
}

impl SwapChain {
    /// Number of back buffers.
    pub closed spec fn spec_count(self) -> usize {
        self.buffer_count
    }

    /// Window width the buffers are sized to.
    pub closed spec fn spec_width(self) -> u32 {
        self.width
    }

    /// Window height the buffers are sized to.
    pub closed spec fn spec_height(self) -> u32 {
        self.height
    }

    /// Index of the back buffer the presentation engine displays next.
    pub closed spec fn spec_current(self) -> usize {
        self.current
    }

    /// How many frames may be queued ahead of the display.
    pub closed spec fn spec_max_frame_latency(self) -> u32 {
        self.max_frame_latency
    }

    /// Whether the display is ready to accept another queued frame.
    pub closed spec fn spec_signaled(self) -> bool {
        self.latency_signaled
    }

    /// At least one buffer, and the current index within them.
    pub open spec fn wf(self) -> bool {
        &&& self.spec_count() >= 1
        &&& self.spec_current() < self.spec_count()
    }

    /// Creates the swap chain and its presenting queue for a window of the
    /// given size.
    pub fn new(count: usize, width: u32, height: u32, max_frame_latency: u32, fences: &mut Fences)
        -> (r: (SwapChain, PresentableQueue))
        requires
            count >= 1,
        ensures
            r.0.wf(),
            r.0.spec_count() == count,
            r.0.spec_width() == width,
            r.0.spec_height() == height,
            r.0.spec_current() == 0,
            r.0.spec_max_frame_latency() == max_frame_latency,
            r.1.spec_fence() == old(fences)@.len(),
            final(fences)@ == old(fences)@.push(0),
            r.1.spec_value() == 1,
            r.1.spec_waits() == Seq::<Signal>::empty(),
            r.1.spec_log() == Seq::<super::command_queue::Submission>::empty(),
    {
        let queue = CommandQueue::<DirectCommandList>::new(fences);
        let swap_chain = SwapChain {
            buffer_count: count,
            width,
            height,
            current: 0,
            max_frame_latency,
            latency_signaled: true,
        };
        (swap_chain, PresentableQueue::new(queue))
    }

    /// The index of the back buffer to render into this frame.
    pub fn current_buffer(&self) -> (r: usize)
        requires
            self.wf(),
        ensures
            r == self.spec_current(),
            r < self.spec_count(),
    {
        self.current
    }

    /// The frame-latency gate: whether the display will accept another
    /// queued frame now.
    pub fn is_signaled(&self) -> (r: bool)
        ensures
            r == self.spec_signaled(),
    {
        self.latency_signaled
    }

    /// The driver reports the state of the frame-latency waitable object.
    pub fn set_latency_signaled(&mut self, signaled: bool)
        ensures
            final(self).spec_signaled() == signaled,
            swap_chain_same_but_latency(*old(self), *final(self)),
    {
        self.latency_signaled = signaled;
    }

    /// Changes how many frames may be queued ahead.
    pub fn set_max_frame_latency(&mut self, v: u32)
        ensures
            final(self).spec_max_frame_latency() == v,
            final(self).spec_count() == old(self).spec_count(),
            final(self).spec_width() == old(self).spec_width(),
            final(self).spec_height() == old(self).spec_height(),
            final(self).spec_current() == old(self).spec_current(),
            final(self).spec_signaled() == old(self).spec_signaled(),
    {
        self.max_frame_latency = v;
    }

    /// Rotates to the next back buffer; presentation moved on by one.
    pub(super) fn rotate(&mut self)
        requires
            old(self).wf(),
        ensures
            final(self).spec_current() == (old(self).spec_current() + 1) % (
            old(self).spec_count() as int),
            swap_chain_same_but_current(*old(self), *final(self)),
    {
        self.current = (self.current + 1) % self.buffer_count;
    }

    /// Drops all back-buffer views, resizes, and recreates them. Every
    /// outstanding signal must have been drained first: no buffer may be
    /// destroyed while a signal referencing it is in flight. Presentation
    /// restarts at index 0.
    pub fn resize(&mut self, signals: &Signals, buffer_count: Option<u32>, width: u32, height: u32)
        requires
            old(self).wf(),
            signals_clear(signals@),
            buffer_count matches Some(c) ==> c >= 1,
        ensures
            final(self).wf(),
            final(self).spec_width() == width,
            final(self).spec_height() == height,
            final(self).spec_current() == 0,
            final(self).spec_count() == match buffer_count {
                Some(c) => c as usize,
                None => old(self).spec_count(),
            },
            final(self).spec_max_frame_latency() == old(self).spec_max_frame_latency(),
            final(self).spec_signaled() == old(self).spec_signaled(),
    {
        match buffer_count {
            Some(c) => {
                self.buffer_count = c as usize;
            },
            None => {},
        }
        self.width = width;
        self.height = height;
        self.current = 0;
    }

    /// Number of back buffers.
    pub fn len(&self) -> (r: usize)
        ensures
            r == self.spec_count(),
    {
        self.buffer_count
    }

    /// The render-target view over one back buffer.
    pub fn target(&self, index: usize) -> (r: RenderTarget)
        requires
            index < self.spec_count(),
        ensures
            r.resource == ResourceId::BackBuffer(index),
            r.width == self.spec_width(),
            r.height == self.spec_height(),
    {
        RenderTarget { resource: ResourceId::BackBuffer(index), width: self.width, height: self.height }
    }
}

/// Everything of the swap chain but the latency gate is unchanged.
pub open spec fn swap_chain_same_but_latency(pre: SwapChain, post: SwapChain) -> bool {
    &&& post.spec_count() == pre.spec_count()
    &&& post.spec_width() == pre.spec_width()
    &&& post.spec_height() == pre.spec_height()
    &&& post.spec_current() == pre.spec_current()
    &&& post.spec_max_frame_latency() == pre.spec_max_frame_latency()
}

} // verus!
