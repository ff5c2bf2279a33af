//! Fences, signals, and the command queues that raise them.
//!
//! A fence is a monotonically increasing GPU-side counter; a [`Signal`] is a
//! checkpoint on one fence. The GPU's progress — how far each fence has
//! counted — lives in the [`Fences`] table: the driver layer reports
//! completed values into it, and they only ever grow. A blocking wait, on
//! return, guarantees that the waited fence has reached the signal's value;
//! the model states exactly that.
//!
//! A [`CommandQueue`] owns one fence and a counter of the next value to
//! signal. Submitting work raises the next signal value; queue-side waits
//! order subsequently submitted work after another queue's signal. Every
//! submission is kept in a log the driver performs in order.

use vstd::prelude::*;

use super::command_list::{CommandList, Op};

verus! {

/// The GPU's progress: the completed value of every registered fence. Values
/// only ever grow.
pub struct Fences {
    completed: Vec<u64>,
}

/// `post` is a possible later GPU state than `pre`: same fences, each
/// completed value at least as far.
pub open spec fn fences_advance(pre: Seq<u64>, post: Seq<u64>) -> bool {
    &&& post.len() == pre.len()
    &&& forall|i: int| 0 <= i < pre.len() ==> pre[i] <= #[trigger] post[i]
}

impl View for Fences {
    type V = Seq<u64>;

    closed spec fn view(&self) -> Seq<u64> {
        self.completed@
    }
}

impl Fences {
    /// An empty table; queues register their fences into it.
    pub fn new() -> (r: Fences)
        ensures
            r@ == Seq::<u64>::empty(),
    {
        Fences { completed: Vec::new() }
    }

    /// Registers a new fence, completed up to nothing yet.
    pub fn register(&mut self) -> (id: usize)
        ensures
            id == old(self)@.len(),
            final(self)@ == old(self)@.push(0),
    {
        let id = self.completed.len();
        self.completed.push(0);
        id
    }

    /// How many fences are registered.
    pub fn len(&self) -> (r: usize)
        ensures
            r == self@.len(),
    {
        self.completed.len()
    }

    /// The completed value of one fence.
    pub fn completed(&self, fence: usize) -> (r: u64)
        requires
            fence < self@.len(),
        ensures
            r == self@[fence as int],
    {
        self.completed[fence]
    }

    /// The driver reports GPU progress on one fence; progress never goes
    /// backwards.
    pub fn complete(&mut self, fence: usize, value: u64)
        requires
            fence < old(self)@.len(),
            old(self)@[fence as int] <= value,
        ensures
            final(self)@ == old(self)@.update(fence as int, value),
    {
        self.completed[fence] = value;
    }

    /// A blocking wait for a signal: on return the signal's fence has
    /// reached the signal's value, and no other fence moved on its account.
    pub fn wait_for(&mut self, s: &Signal)
        requires
            s.fence < old(self)@.len(),
        ensures
            final(self)@ == old(self)@.update(
                s.fence as int,
                if old(self)@[s.fence as int] >= s.value {
                    old(self)@[s.fence as int]
                } else {
                    s.value
                },
            ),
            s.spec_is_completed(final(self)@),
            fences_advance(old(self)@, final(self)@),
    {
        if self.completed[s.fence] < s.value {
            self.completed[s.fence] = s.value;
        }
        proof {
            if old(self)@[s.fence as int] >= s.value {
                assert(final(self)@ =~= old(self)@.update(
                    s.fence as int,
                    old(self)@[s.fence as int],
                ));
            }
        }
    }
}

/// A checkpoint on one fence: completed once the fence has counted to
/// `value`. Immutable once created, cloned freely.
#[derive(Clone, Copy, PartialEq, Eq, Structural, Debug)]
pub struct Signal {
    pub fence: usize,
    pub value: u64,
}

impl Signal {
    /// Whether this checkpoint has been reached under the given fence table.
    pub open spec fn spec_is_completed(self, fences: Seq<u64>) -> bool {
        self.fence < fences.len() && self.value <= fences[self.fence as int]
    }

    /// Non-blocking completion test.
    pub fn is_completed(&self, fences: &Fences) -> (r: bool)
        requires
            self.fence < fences@.len(),
        ensures
            r == self.spec_is_completed(fences@),
    {
        fences.completed(self.fence) >= self.value
    }

    /// Blocking wait: on return the checkpoint has been reached.
    pub fn wait(&self, fences: &mut Fences)
        requires
            self.fence < old(fences)@.len(),
        ensures
            self.spec_is_completed(final(fences)@),
            fences_advance(old(fences)@, final(fences)@),
            final(fences)@ == old(fences)@.update(
                self.fence as int,
                if old(fences)@[self.fence as int] >= self.value {
                    old(fences)@[self.fence as int]
                } else {
                    self.value
                },
            ),
    {
        fences.wait_for(self);
    }
}

/// What `last_frame` finds: the first slot whose stored signal has the
/// table's highest value, or `None` when no slot holds a signal.
pub open spec fn last_frame_rel(signals: Seq<Option<Signal>>, r: Option<(usize, Signal)>) -> bool {
    match r {
        Some((i, s)) => {
            &&& i < signals.len()
            &&& signals[i as int] == Some(s)
            &&& forall|j: int|
                0 <= j < signals.len() ==> ((#[trigger] signals[j]) matches Some(t) ==> t.value
                    <= s.value)
            &&& forall|j: int|
                0 <= j < i ==> ((#[trigger] signals[j]) matches Some(t) ==> t.value < s.value)
        },
        None => signals_clear(signals),
    }
}

/// Completion is monotonic in GPU progress: once a signal reports completed,
/// it never reports incomplete again.
pub proof fn lemma_completed_monotonic(pre: Seq<u64>, post: Seq<u64>, s: Signal)
    requires
        fences_advance(pre, post),
        s.spec_is_completed(pre),
    ensures
        s.spec_is_completed(post),
{
}

/// The per-buffer-index signal table: for each frame slot, the signal raised
/// when the slot's last frame was submitted, if any.
pub struct Signals {
    signals: Vec<Option<Signal>>,
}

impl View for Signals {
    type V = Seq<Option<Signal>>;

    closed spec fn view(&self) -> Seq<Option<Signal>> {
        self.signals@
    }
}

/// Every signal stored in the table checks out against the fence table.
pub open spec fn signals_wf(signals: Seq<Option<Signal>>, fences: Seq<u64>) -> bool {
    forall|i: int|
        0 <= i < signals.len() ==> ((#[trigger] signals[i]) matches Some(s) ==> s.fence
            < fences.len())
}

/// No slot holds a signal: nothing is in flight.
pub open spec fn signals_clear(signals: Seq<Option<Signal>>) -> bool {
    forall|i: int| 0 <= i < signals.len() ==> (#[trigger] signals[i]) is None
}

impl Signals {
    /// A table of `n` empty slots.
    pub fn new(n: usize) -> (r: Signals)
        ensures
            r@.len() == n,
            signals_clear(r@),
    {
        let mut signals: Vec<Option<Signal>> = Vec::new();
        let mut i: usize = 0;
        while i < n
            invariant
                i <= n,
                signals@.len() == i,
                signals_clear(signals@),
            decreases n - i,
        {
            signals.push(None);
            i = i + 1;
        }
        Signals { signals }
    }

    /// Stores the slot's newest signal.
    pub fn set(&mut self, index: usize, signal: Signal)
        requires
            index < old(self)@.len(),
        ensures
            final(self)@ == old(self)@.update(index as int, Some(signal)),
    {
        self.signals[index] = Some(signal);
    }

    /// Takes and waits on the slot's stored signal, leaving the slot empty.
    /// Waiting on an already empty slot changes nothing: each stored signal
    /// is waited on at most once.
    pub fn wait(&mut self, index: usize, fences: &mut Fences)
        requires
            index < old(self)@.len(),
            signals_wf(old(self)@, old(fences)@),
        ensures
            wait_rel(old(self)@, old(fences)@, index, final(self)@, final(fences)@),
            final(self)@ == old(self)@.update(index as int, None::<Signal>),
            fences_advance(old(fences)@, final(fences)@),
            old(self)@[index as int] matches Some(s) ==> s.spec_is_completed(final(fences)@),
    {
        proof {
            assert(old(self)@[index as int] matches Some(t) ==> t.fence < old(fences)@.len());
        }
        let slot = self.signals[index].take();
        match slot {
            Some(s) => {
                s.wait(fences);
            },
            None => {},
        }
    }

    /// Drains and waits on every stored signal: on return nothing is in
    /// flight. This is the hard barrier before resources may be destroyed or
    /// replaced.
    pub fn wait_all(&mut self, fences: &mut Fences)
        requires
            signals_wf(old(self)@, old(fences)@),
        ensures
            final(self)@.len() == old(self)@.len(),
            signals_clear(final(self)@),
            fences_advance(old(fences)@, final(fences)@),
            forall|i: int|
                0 <= i < old(self)@.len() ==> ((#[trigger] old(self)@[i]) matches Some(s)
                    ==> s.spec_is_completed(final(fences)@)),
    {
        let ghost pre_signals = self@;
        let ghost pre_fences = fences@;
        let mut i: usize = 0;
        while i < self.signals.len()
            invariant
                i <= self.signals@.len(),
                self.signals@.len() == pre_signals.len(),
                forall|j: int| i <= j < pre_signals.len() ==> self.signals@[j] == pre_signals[j],
                forall|j: int| 0 <= j < i ==> (#[trigger] self.signals@[j]) is None,
                fences_advance(pre_fences, fences@),
                signals_wf(pre_signals, fences@),
                forall|j: int|
                    0 <= j < i ==> ((#[trigger] pre_signals[j]) matches Some(s)
                        ==> s.spec_is_completed(fences@)),
            decreases self.signals@.len() - i,
        {
            proof {
                assert(self.signals@[i as int] == pre_signals[i as int]);
                assert(pre_signals[i as int] matches Some(t) ==> t.fence < fences@.len());
            }
            let slot = self.signals[i].take();
            match slot {
                Some(s) => {
                    s.wait(fences);
                },
                None => {},
            }
            i = i + 1;
        }
    }

    /// The slot holding the most recent frame: the first slot whose signal
    /// value is the table's maximum. `None` when nothing is stored.
    pub fn last_frame(&self) -> (r: Option<(usize, Signal)>)
        ensures
            last_frame_rel(self@, r),
    {
        let mut best: Option<(usize, Signal)> = None;
        let mut i: usize = 0;
        while i < self.signals.len()
            invariant
                i <= self.signals@.len(),
                match best {
                    Some((bi, bs)) => {
                        &&& bi < i
                        &&& self.signals@[bi as int] == Some(bs)
                        &&& forall|j: int|
                            0 <= j < i ==> ((#[trigger] self.signals@[j]) matches Some(t)
                                ==> t.value <= bs.value)
                        &&& forall|j: int|
                            0 <= j < bi ==> ((#[trigger] self.signals@[j]) matches Some(t)
                                ==> t.value < bs.value)
                    },
                    None => forall|j: int| 0 <= j < i ==> (#[trigger] self.signals@[j]) is None,
                },
            decreases self.signals@.len() - i,
        {
            match &self.signals[i] {
                Some(s) => {
                    let replace = match &best {
                        Some((_, bs)) => s.value > bs.value,
                        None => true,
                    };
                    if replace {
                        best = Some((i, *s));
                    }
                },
                None => {},
            }
            i = i + 1;
        }
        best
    }
}

/// What one `Signals::wait` call does to the table and the fence state.
pub open spec fn wait_rel(
    pre_signals: Seq<Option<Signal>>,
    pre_fences: Seq<u64>,
    index: usize,
    post_signals: Seq<Option<Signal>>,
    post_fences: Seq<u64>,
) -> bool {
    &&& post_signals == pre_signals.update(index as int, None::<Signal>)
    &&& match pre_signals[index as int] {
        Some(s) => post_fences == pre_fences.update(
            s.fence as int,
            if pre_fences[s.fence as int] >= s.value {
                pre_fences[s.fence as int]
            } else {
                s.value
            },
        ),
        None => post_fences == pre_fences,
    }
}

/// Idempotent wait: waiting on a slot empties it, so waiting again before
/// anything new is stored changes neither the table nor the fences.
pub proof fn lemma_wait_idempotent(
    s0: Seq<Option<Signal>>,
    f0: Seq<u64>,
    index: usize,
    s1: Seq<Option<Signal>>,
    f1: Seq<u64>,
    s2: Seq<Option<Signal>>,
    f2: Seq<u64>,
)
    requires
        index < s0.len(),
        wait_rel(s0, f0, index, s1, f1),
        wait_rel(s1, f1, index, s2, f2),
    ensures
        s2 == s1,
        f2 == f1,
{
    assert(s1[index as int] is None);
    assert(s2 =~= s1);
}

/// One submission the driver performs: the queue first defers until every
/// signal in `waits` is reached, then runs `ops`, then raises `value` on the
/// queue's fence.
#[derive(Debug)]
pub struct Submission {
    pub waits: Vec<Signal>,
    pub ops: Vec<Op>,
    pub value: u64,
}

/// Owns one hardware queue and one fence counter. `value` is the next value
/// to signal; it starts at 1 and grows by one per signal, so successive
/// signals are strictly increasing. Queue-side waits collect until the next
/// submission, which they then order.
pub struct CommandQueue<T: CommandList> {
    fence: usize,
    value: u64,
    waits: Vec<Signal>,
    log: Vec<Submission>,
    _kind: core::marker::PhantomData<T>,
}

impl<T: CommandList> CommandQueue<T> {
    /// The queue's fence id.
    pub closed spec fn spec_fence(self) -> usize {
        self.fence
    }

    /// The next value this queue will signal.
    pub closed spec fn spec_value(self) -> u64 {
        self.value
    }

    /// The queue-side waits collected for the next submission.
    pub closed spec fn spec_waits(self) -> Seq<Signal> {
        self.waits@
    }

    /// The submissions made so far, in order.
    pub closed spec fn spec_log(self) -> Seq<Submission> {
        self.log@
    }

    /// The queue's fence is registered and its counter not yet exhausted.
    pub open spec fn wf(self, fences: Seq<u64>) -> bool {
        &&& self.spec_fence() < fences.len()
        &&& self.spec_value() < u64::MAX
        &&& self.spec_value() >= 1
    }

    /// Creates a queue with a fresh fence, counting from 1.
    pub fn new(fences: &mut Fences) -> (r: CommandQueue<T>)
        ensures
            r.spec_fence() == old(fences)@.len(),
            final(fences)@ == old(fences)@.push(0),
            r.spec_value() == 1,
            r.spec_waits() == Seq::<Signal>::empty(),
            r.spec_log() == Seq::<Submission>::empty(),
    {
        let fence = fences.register();
        CommandQueue {
            fence,
            value: 1,
            waits: Vec::new(),
            log: Vec::new(),
            _kind: core::marker::PhantomData,
        }
    }

    /// Raises the next signal value on the queue's fence, without submitting
    /// work. Successive signals return strictly increasing values.
    pub fn signal(&mut self) -> (r: Signal)
        requires
            old(self).spec_value() < u64::MAX,
        ensures
            signal_rel(*old(self), r, *final(self)),
    {
        let r = Signal { fence: self.fence, value: self.value };
        self.value = self.value + 1;
        r
    }

    /// Submits one recorded command list, deferred after the collected
    /// waits, then raises the next signal, atomically from the caller's
    /// point of view.
    pub fn execute(&mut self, cmd_list: &T) -> (r: Signal)
        requires
            old(self).spec_value() < u64::MAX,
        ensures
            execute_rel(*old(self), cmd_list.recorded(), r, *final(self)),
    {
        let ops = cmd_list.handle();
        let mut waits: Vec<Signal> = Vec::new();
        core::mem::swap(&mut waits, &mut self.waits);
        self.log.push(Submission { waits, ops, value: self.value });
        let r = self.signal();
        proof {
            assert(self.log@.take(old(self).log@.len() as int) =~= old(self).log@);
            assert(self.waits@ =~= Seq::<Signal>::empty());
        }
        r
    }

    /// Defers the queue's subsequent submissions until `signal` is reached —
    /// the cross-queue ordering primitive.
    pub fn wait(&mut self, signal: &Signal)
        ensures
            final(self).spec_waits() == old(self).spec_waits().push(*signal),
            final(self).spec_fence() == old(self).spec_fence(),
            final(self).spec_value() == old(self).spec_value(),
            final(self).spec_log() == old(self).spec_log(),
    {
        self.waits.push(*signal);
    }

    /// The model's handle to the underlying hardware queue: its fence id.
    pub fn handle(&self) -> (r: usize)
        ensures
            r == self.spec_fence(),
    {
        self.fence
    }

    /// The submissions made so far, for the driver to perform.
    pub fn log(&self) -> (r: &Vec<Submission>)
        ensures
            r@ == self.spec_log(),
    {
        &self.log
    }
}

/// What one `signal` call does: it returns the queue's current value on the
/// queue's fence and moves the counter up by one, leaving waits and log
/// alone.
pub open spec fn signal_rel<T: CommandList>(
    pre: CommandQueue<T>,
    r: Signal,
    post: CommandQueue<T>,
) -> bool {
    &&& r == (Signal { fence: pre.spec_fence(), value: pre.spec_value() })
    &&& post.spec_value() == pre.spec_value() + 1
    &&& post.spec_fence() == pre.spec_fence()
    &&& post.spec_waits() == pre.spec_waits()
    &&& post.spec_log() == pre.spec_log()
}

/// What one `execute` call does: it appends a submission holding the
/// collected waits and the list's operations, drains the waits, and raises
/// the submission's signal.
pub open spec fn execute_rel<T: CommandList>(
    pre: CommandQueue<T>,
    ops: Seq<Op>,
    r: Signal,
    post: CommandQueue<T>,
) -> bool {
    &&& r == (Signal { fence: pre.spec_fence(), value: pre.spec_value() })
    &&& post.spec_value() == pre.spec_value() + 1
    &&& post.spec_fence() == pre.spec_fence()
    &&& post.spec_waits() == Seq::<Signal>::empty()
    &&& post.spec_log().len() == pre.spec_log().len() + 1
    &&& post.spec_log().take(pre.spec_log().len() as int) == pre.spec_log()
    &&& post.spec_log().last().waits@ == pre.spec_waits()
    &&& post.spec_log().last().ops@ == ops
    &&& post.spec_log().last().value == pre.spec_value()
}

/// Fence monotonicity: two successive signals on one queue return strictly
/// increasing values on the same fence.
pub proof fn lemma_signal_monotonic<T: CommandList>(
    q0: CommandQueue<T>,
    s1: Signal,
    q1: CommandQueue<T>,
    s2: Signal,
    q2: CommandQueue<T>,
)
    requires
        signal_rel(q0, s1, q1),
        signal_rel(q1, s2, q2),
    ensures
        s1.fence == s2.fence,
        s1.value < s2.value,
{
}

} // verus!
