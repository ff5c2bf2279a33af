//! The 2D overlay layer: per-index textures the UI draws into, on a small
//! dedicated graphics queue with its own fence and signal table.
//!
//! The drawing itself — text, scroll bars — is the driver's work; the engine
//! sequences it: each overlay pass raises the UI queue's next signal, which
//! the main queue then waits on before compositing the overlay. The 2D
//! drawing-context factory the application builds its brushes and text
//! formats from belongs to the driver layer too, which is why the engine
//! offers no accessor for it.

use vstd::prelude::*;

use super::command_list::DirectCommandList;
use super::command_queue::{
    fences_advance, signal_rel, signals_clear, signals_wf, CommandQueue, Fences, Signal, Signals,
};
use super::resource::{PixelShaderResource, ResourceId};

verus! {

/// The overlay layer: one texture per buffer index, a dedicated queue, and
/// the signals of the last overlay pass per index.
pub struct Ui {
    cmd_queue: CommandQueue<DirectCommandList>,
    signals: Signals,
    count: usize,
    width: u32,
    height: u32,
    dpi: u32,
}

impl Ui {
    /// The dedicated queue, for stating contracts over its relations.
    pub closed spec fn spec_queue(self) -> CommandQueue<DirectCommandList> {
        self.cmd_queue
    }

    /// The per-index signals of the last overlay passes.
    pub closed spec fn spec_signals(self) -> Seq<Option<Signal>> {
        self.signals@
    }

    /// Number of overlay textures, one per buffer index.
    pub closed spec fn spec_len(self) -> usize {
        self.count
    }

    /// Window width the textures are sized to.
    pub closed spec fn spec_width(self) -> u32 {
        self.width
    }

    /// Window height the textures are sized to.
    pub closed spec fn spec_height(self) -> u32 {
        self.height
    }

    /// The DPI the drawing context renders at.
    pub closed spec fn spec_dpi(self) -> u32 {
        self.dpi
    }

    /// One signal slot per texture, all signals on the dedicated fence, and
    /// the queue's counter usable.
    pub open spec fn wf(self, fences: Seq<u64>) -> bool {
        &&& self.spec_signals().len() == self.spec_len()
        &&& self.spec_queue().wf(fences)
        &&& signals_wf(self.spec_signals(), fences)
    }

    /// Creates the overlay layer for `count` buffer indices on a window of
    /// the given size and DPI.
    pub fn new(count: usize, width: u32, height: u32, dpi: u32, fences: &mut Fences) -> (r: Ui)
        ensures
            r.wf(final(fences)@),
            final(fences)@ == old(fences)@.push(0),
            r.spec_len() == count,
            r.spec_width() == width,
            r.spec_height() == height,
            r.spec_dpi() == dpi,
            signals_clear(r.spec_signals()),
            r.spec_queue().spec_value() == 1,
            r.spec_queue().spec_fence() == old(fences)@.len(),
    {
        let cmd_queue = CommandQueue::<DirectCommandList>::new(fences);
        let signals = Signals::new(count);
        Ui { cmd_queue, signals, count, width, height, dpi }
    }

    /// One overlay pass for a buffer index: the driver draws the overlay
    /// into the index's texture, and the pass's signal is raised on the
    /// dedicated queue and remembered for that index.
    pub fn render(&mut self, index: usize) -> (r: Signal)
        requires
            index < old(self).spec_len(),
            old(self).spec_signals().len() == old(self).spec_len(),
            old(self).spec_queue().spec_value() < u64::MAX,
        ensures
            signal_rel(old(self).spec_queue(), r, final(self).spec_queue()),
            final(self).spec_signals() == old(self).spec_signals().update(index as int, Some(r)),
            final(self).spec_len() == old(self).spec_len(),
            final(self).spec_width() == old(self).spec_width(),
            final(self).spec_height() == old(self).spec_height(),
            final(self).spec_dpi() == old(self).spec_dpi(),
    {
        let signal = self.cmd_queue.signal();
        self.signals.set(index, signal);
        signal
    }

    /// The shader-readable view over one overlay texture.
    pub fn source(&self, index: usize) -> (r: PixelShaderResource)
        requires
            index < self.spec_len(),
        ensures
            r.resource == ResourceId::UiBuffer(index),
    {
        PixelShaderResource { resource: ResourceId::UiBuffer(index) }
    }

    /// Replaces the overlay textures for a new window size. Every overlay
    /// signal is drained first: no texture is destroyed while a signal
    /// referencing it is in flight.
    pub fn resize(&mut self, width: u32, height: u32, fences: &mut Fences)
        requires
            signals_wf(old(self).spec_signals(), old(fences)@),
        ensures
            final(self).spec_width() == width,
            final(self).spec_height() == height,
            final(self).spec_len() == old(self).spec_len(),
            final(self).spec_dpi() == old(self).spec_dpi(),
            final(self).spec_queue() == old(self).spec_queue(),
            final(self).spec_signals().len() == old(self).spec_signals().len(),
            signals_clear(final(self).spec_signals()),
            fences_advance(old(fences)@, final(fences)@),
            forall|i: int|
                0 <= i < old(self).spec_signals().len() ==> ((
                #[trigger] old(self).spec_signals()[i]) matches Some(s)
                    ==> s.spec_is_completed(final(fences)@)),
    {
        self.signals.wait_all(fences);
        self.width = width;
        self.height = height;
    }

    /// Replaces the overlay textures for a new buffer count and window
    /// size, draining every overlay signal first.
    pub fn recreate(&mut self, count: usize, width: u32, height: u32, fences: &mut Fences)
        requires
            signals_wf(old(self).spec_signals(), old(fences)@),
        ensures
            final(self).spec_len() == count,
            final(self).spec_width() == width,
            final(self).spec_height() == height,
            final(self).spec_dpi() == old(self).spec_dpi(),
            final(self).spec_queue() == old(self).spec_queue(),
            final(self).spec_signals().len() == count,
            signals_clear(final(self).spec_signals()),
            fences_advance(old(fences)@, final(fences)@),
            forall|i: int|
                0 <= i < old(self).spec_signals().len() ==> ((
                #[trigger] old(self).spec_signals()[i]) matches Some(s)
                    ==> s.spec_is_completed(final(fences)@)),
    {
        self.signals.wait_all(fences);
        self.signals = Signals::new(count);
        self.count = count;
        self.width = width;
        self.height = height;
    }

    /// Changes the DPI the drawing context renders at.
    pub fn change_dpi(&mut self, dpi: u32)
        ensures
            final(self).spec_dpi() == dpi,
            final(self).spec_len() == old(self).spec_len(),
            final(self).spec_width() == old(self).spec_width(),
            final(self).spec_height() == old(self).spec_height(),
            final(self).spec_queue() == old(self).spec_queue(),
            final(self).spec_signals() == old(self).spec_signals(),
    {
        self.dpi = dpi;
    }
}

} // verus!
