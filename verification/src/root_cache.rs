use vstd::prelude::*;

verus! {

/// What `drain` hands back for a cache holding `cache`: nothing when the
/// cache is empty, otherwise the whole recorded sequence.
pub open spec fn drained_value(cache: Seq<usize>) -> Option<Seq<usize>> {
    if cache.len() == 0 {
        Option::None
    } else {
        Option::Some(cache)
    }
}

/// The cache contents left behind by a drain: always empty.
pub open spec fn drained_rest(cache: Seq<usize>) -> Seq<usize> {
    Seq::<usize>::empty()
}

/// Per-thread cache of root slot addresses discovered while a code unit is
/// being generated. The owning thread appends one slot per discovered
/// pointer-bearing location, then hands the whole sequence over in one
/// `drain` at registration time. Append-only between drains; empty right
/// after a drain.
pub struct RootSlotCache {
    slots: Vec<usize>,
}

impl View for RootSlotCache {
    type V = Seq<usize>;

    closed spec fn view(&self) -> Seq<usize> {
        self.slots@
    }
}

impl RootSlotCache {
    /// A fresh, empty cache.
    pub fn new() -> (cache: Self)
        ensures
            cache@ == Seq::<usize>::empty(),
    {
        RootSlotCache { slots: Vec::new() }
    }

    /// Append one root slot address. Infallible; order of recording is kept.
    pub fn record(&mut self, slot: usize)
        ensures
            final(self)@ == old(self)@.push(slot),
    {
        self.slots.push(slot);
    }

    /// How many slots are currently cached.
    pub fn len(&self) -> (n: usize)
        ensures
            n == self@.len(),
    {
        self.slots.len()
    }

    /// Take ownership of the entire current sequence, leaving the cache
    /// empty. Returns `None` when nothing was recorded, so that callers
    /// never register an empty slot list.
    pub fn drain(&mut self) -> (taken: Option<Vec<usize>>)
        ensures
            final(self)@ == drained_rest(old(self)@),
            (taken is None) == (drained_value(old(self)@) is None),
            taken matches Some(v) ==> drained_value(old(self)@) == Some(v@),
    {
        if self.slots.len() == 0 {
            return Option::None;
        }
        let mut out: Vec<usize> = Vec::new();
        core::mem::swap(&mut self.slots, &mut out);
        Option::Some(out)
    }
}

/// A drain leaves the cache empty, so a second drain with no intervening
/// `record` finds nothing to take.
pub proof fn lemma_drain_after_drain_is_empty(cache: Seq<usize>)
    ensures
        drained_value(drained_rest(cache)) is None,
{
}

} // verus!
