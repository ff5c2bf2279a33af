//! A fixed-capacity pool of reusable, expensive resources (copy-command
//! allocators, CPU-readable staging buffers).
//!
//! Each slot is either free (`Some`) or checked out (`None`). Acquisition
//! hands the element itself out of the slot, so an element can never be held
//! by two callers at once; releasing it puts it back and makes the slot
//! eligible again. A caller that receives `None` from an acquisition has to
//! wait for a release and try again — the asynchronous waiting lives in the
//! driver layer, which retries on its own notification.

use vstd::prelude::*;

verus! {

/// A fixed set of reusable elements; `Some` slots are free, `None` slots are
/// checked out.
pub struct Pool<T> {
    slots: Vec<Option<T>>,
}

impl<T> View for Pool<T> {
    type V = Seq<Option<T>>;

    closed spec fn view(&self) -> Seq<Option<T>> {
        self.slots@
    }
}

/// One acquisition step: `r` is the element taken out of `pre`, `post` is the
/// pool afterwards. The first free slot whose element satisfies `accept` is
/// taken; `None` means no free slot satisfied it and the pool is unchanged.
pub open spec fn acquire_rel<T>(
    pre: Seq<Option<T>>,
    post: Seq<Option<T>>,
    r: Option<(usize, T)>,
    accept: spec_fn(T) -> bool,
) -> bool {
    match r {
        Some((i, t)) => {
            &&& i < pre.len()
            &&& pre[i as int] == Some(t)
            &&& accept(t)
            &&& post == pre.update(i as int, None::<T>)
            &&& forall|j: int|
                0 <= j < i ==> ((#[trigger] pre[j]) matches Some(u) ==> !accept(u))
        },
        None => {
            &&& post == pre
            &&& forall|j: int|
                0 <= j < pre.len() ==> ((#[trigger] pre[j]) matches Some(u) ==> !accept(u))
        },
    }
}

impl<T> Pool<T> {
    /// Builds a pool whose slots hold the given elements, all free.
    pub fn new(items: Vec<T>) -> (r: Pool<T>)
        ensures
            r@.len() == items@.len(),
            forall|i: int| 0 <= i < items@.len() ==> r@[i] == Some(items@[i]),
    {
        let ghost orig = items@;
        let mut items = items;
        let mut slots: Vec<Option<T>> = Vec::new();
        while items.len() > 0
            invariant
                slots@.len() + items@.len() == orig.len(),
                forall|i: int| 0 <= i < slots@.len() ==> slots@[i] == Some(orig[i]),
                items@ == orig.subrange(slots@.len() as int, orig.len() as int),
            decreases items@.len(),
        {
            let t = items.remove(0);
            slots.push(Some(t));
        }
        Pool { slots }
    }

    /// Number of slots, free or not.
    pub fn len(&self) -> (r: usize)
        ensures
            r == self@.len(),
    {
        self.slots.len()
    }

    /// Takes the first free element out of the pool. `None` means every
    /// element is checked out.
    pub fn pop(&mut self) -> (r: Option<(usize, T)>)
        ensures
            acquire_rel(old(self)@, final(self)@, r, |t: T| true),
    {
        let mut i: usize = 0;
        while i < self.slots.len()
            invariant
                i <= self.slots@.len(),
                self.slots@ == old(self).slots@,
                forall|j: int| 0 <= j < i ==> (#[trigger] self.slots@[j]) is None,
            decreases self.slots@.len() - i,
        {
            if self.slots[i].is_some() {
                let t = self.slots[i].take().unwrap();
                return Some((i, t));
            }
            i = i + 1;
        }
        None
    }

    /// Whether any slot is free right now. A caller that needs an element
    /// when none is free waits for a release and asks again.
    pub fn any_free(&self) -> (r: bool)
        ensures
            r == exists|i: int| 0 <= i < self@.len() && (#[trigger] self@[i]) is Some,
    {
        let mut i: usize = 0;
        while i < self.slots.len()
            invariant
                i <= self.slots@.len(),
                forall|j: int| 0 <= j < i ==> (#[trigger] self.slots@[j]) is None,
            decreases self.slots@.len() - i,
        {
            if self.slots[i].is_some() {
                return true;
            }
            i = i + 1;
        }
        false
    }

    /// Looks at one slot without taking anything.
    pub fn slot(&self, index: usize) -> (r: &Option<T>)
        requires
            index < self@.len(),
        ensures
            *r == self@[index as int],
    {
        &self.slots[index]
    }

    /// Takes the element out of one free slot.
    pub fn take_at(&mut self, index: usize) -> (t: T)
        requires
            index < old(self)@.len(),
            old(self)@[index as int] is Some,
        ensures
            Some(t) == old(self)@[index as int],
            final(self)@ == old(self)@.update(index as int, None::<T>),
    {
        self.slots[index].take().unwrap()
    }

    /// Puts an element back into a checked-out slot, making it eligible for
    /// the next acquirer.
    pub fn release(&mut self, index: usize, item: T)
        requires
            index < old(self)@.len(),
            old(self)@[index as int] is None,
        ensures
            final(self)@ == old(self)@.update(index as int, Some(item)),
    {
        self.slots[index] = Some(item);
    }
}

/// Pool exclusivity: two acquisitions in a row, with no release in between,
/// never hand out the same slot.
pub proof fn lemma_acquire_exclusive<T>(
    s0: Seq<Option<T>>,
    s1: Seq<Option<T>>,
    s2: Seq<Option<T>>,
    i: usize,
    t: T,
    j: usize,
    u: T,
    accept1: spec_fn(T) -> bool,
    accept2: spec_fn(T) -> bool,
)
    requires
        acquire_rel(s0, s1, Some((i, t)), accept1),
        acquire_rel(s1, s2, Some((j, u)), accept2),
    ensures
        i != j,
{
    assert(s1[i as int] is None);
    assert(s1[j as int] == Some(u));
}

/// Releasing into an exhausted pool makes exactly the released slot the one
/// the next acquirer receives.
pub proof fn lemma_release_eligible<T>(
    s0: Seq<Option<T>>,
    s1: Seq<Option<T>>,
    s2: Seq<Option<T>>,
    i: usize,
    t: T,
    r: Option<(usize, T)>,
    accept: spec_fn(T) -> bool,
)
    requires
        forall|j: int| 0 <= j < s0.len() ==> (#[trigger] s0[j]) is None,
        i < s0.len(),
        s1 == s0.update(i as int, Some(t)),
        accept(t),
        acquire_rel(s1, s2, r, accept),
    ensures
        r == Some((i, t)),
{
    assert(s1[i as int] == Some(t));
    if r is None {
        assert((s1[i as int]) matches Some(u) ==> !accept(u));
        assert(false);
    }
    let (k, v) = r.unwrap();
    assert(s1[k as int] == Some(v));
    if k != i {
        assert(s0[k as int] is None);
        assert(s1[k as int] == s0[k as int]);
        assert(false);
    }
}

} // verus!
