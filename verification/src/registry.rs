use vstd::prelude::*;
use crate::root_cache::drained_value;

verus! {

/// Errors the registry reports instead of silently corrupting its state.
#[derive(Clone, Copy, PartialEq, Eq, Structural, Debug)]
pub enum RegistryError {
    /// The code-unit handle is already registered and was not unregistered
    /// in between.
    DuplicateRegistration,
}

/// One registered code unit: its handle and the root slots found inside it.
pub struct RegistryEntry {
    pub handle: usize,
    pub slots: Vec<usize>,
}

/// Total number of root slots over all entries.
pub open spec fn total_slots(s: Seq<(usize, Seq<usize>)>) -> nat
    decreases s.len(),
{
    if s.len() == 0 {
        0
    } else {
        total_slots(s.drop_last()) + s.last().1.len()
    }
}

/// Whether some entry carries the handle `h`.
pub open spec fn contains_handle(s: Seq<(usize, Seq<usize>)>, h: usize) -> bool {
    exists|i: int| 0 <= i < s.len() && s[i].0 == h
}

/// Index of the first entry carrying `h`, or -1 when absent.
pub open spec fn handle_index(s: Seq<(usize, Seq<usize>)>, h: usize) -> int
    decreases s.len(),
{
    if s.len() == 0 {
        -1
    } else if s[0].0 == h {
        0
    } else {
        let rest = handle_index(s.drop_first(), h);
        if rest < 0 {
            -1
        } else {
            rest + 1
        }
    }
}

/// The slot sequence registered under `h`, or empty when absent.
pub open spec fn slots_of(s: Seq<(usize, Seq<usize>)>, h: usize) -> Seq<usize> {
    if handle_index(s, h) >= 0 {
        s[handle_index(s, h)].1
    } else {
        Seq::<usize>::empty()
    }
}

/// No two entries share a handle.
pub open spec fn distinct_handles(s: Seq<(usize, Seq<usize>)>) -> bool {
    forall|i: int, j: int| 0 <= i < j < s.len() ==> s[i].0 != s[j].0
}

/// Registry contents after a successful registration.
pub open spec fn registered(
    s: Seq<(usize, Seq<usize>)>,
    h: usize,
    slots: Seq<usize>,
) -> Seq<(usize, Seq<usize>)> {
    s.push((h, slots))
}

/// Registry contents after unregistering `h`: unchanged when absent.
pub open spec fn unregistered(s: Seq<(usize, Seq<usize>)>, h: usize) -> Seq<(usize, Seq<usize>)> {
    if handle_index(s, h) >= 0 {
        s.remove(handle_index(s, h))
    } else {
        s
    }
}

proof fn lemma_handle_index_spec(s: Seq<(usize, Seq<usize>)>, h: usize)
    ensures
        handle_index(s, h) >= 0 <==> contains_handle(s, h),
        handle_index(s, h) >= 0 ==> handle_index(s, h) < s.len() && s[handle_index(s, h)].0 == h,
        forall|j: int| 0 <= j < handle_index(s, h) ==> s[j].0 != h,
    decreases s.len(),
{
    if s.len() == 0 {
    } else if s[0].0 == h {
    } else {
        lemma_handle_index_spec(s.drop_first(), h);
        let rest = s.drop_first();
        if handle_index(rest, h) >= 0 {
            assert forall|j: int| 0 <= j < handle_index(s, h) implies s[j].0 != h by {
                if j > 0 {
                    assert(s[j] == rest[j - 1]);
                }
            }
        }
        if contains_handle(s, h) {
            let i = choose|i: int| 0 <= i < s.len() && s[i].0 == h;
            assert(rest[i - 1] == s[i]);
            assert(contains_handle(rest, h));
        }
        if contains_handle(rest, h) {
            let j = choose|j: int| 0 <= j < rest.len() && rest[j].0 == h;
            assert(s[j + 1] == rest[j]);
            assert(contains_handle(s, h));
        }
        if handle_index(rest, h) >= 0 {
            assert(s[handle_index(s, h)] == rest[handle_index(rest, h)]);
        }
    }
}

proof fn lemma_total_slots_remove(s: Seq<(usize, Seq<usize>)>, i: int)
    requires
        0 <= i < s.len(),
    ensures
        total_slots(s) == total_slots(s.remove(i)) + s[i].1.len(),
    decreases s.len(),
{
    if i == s.len() - 1 {
        assert(s.remove(i) =~= s.drop_last());
    } else {
        lemma_total_slots_remove(s.drop_last(), i);
        assert(s.remove(i).drop_last() =~= s.drop_last().remove(i));
        assert(s.remove(i).last() == s.last());
    }
}

proof fn lemma_handle_index_push_absent(s: Seq<(usize, Seq<usize>)>, h: usize, slots: Seq<usize>)
    requires
        !contains_handle(s, h),
    ensures
        handle_index(s.push((h, slots)), h) == s.len(),
    decreases s.len(),
{
    let p = s.push((h, slots));
    if s.len() == 0 {
        assert(p[0].0 == h);
    } else {
        assert(s[0].0 != h);
        assert(forall|i: int| 0 <= i < s.drop_first().len() ==> s.drop_first()[i] == s[i + 1]);
        assert(!contains_handle(s.drop_first(), h));
        lemma_handle_index_push_absent(s.drop_first(), h, slots);
        assert(p.drop_first() =~= s.drop_first().push((h, slots)));
        assert(p[0] == s[0]);
    }
}

/// The shared table of registered code units: each handle maps to the root
/// slots discovered inside that code unit, and `count` carries the running
/// total of slots over all entries. All mutation is serialized by the one
/// owner of this value (in a concurrent deployment, a single exclusive lock
/// around it).
pub struct RootRegistry {
    entries: Vec<RegistryEntry>,
    count: usize,
}

impl View for RootRegistry {
    type V = Seq<(usize, Seq<usize>)>;

    closed spec fn view(&self) -> Seq<(usize, Seq<usize>)> {
        self.entries@.map_values(|e: RegistryEntry| (e.handle, e.slots@))
    }
}

impl RootRegistry {
    /// Registry validity: handles are unique and the running count equals
    /// the sum of the slot-sequence lengths over all entries.
    pub closed spec fn inv(&self) -> bool {
        &&& distinct_handles(self@)
        &&& self.count == total_slots(self@)
    }

    /// A fresh, empty registry.
    pub fn new() -> (reg: Self)
        ensures
            reg.inv(),
            reg@ == Seq::<(usize, Seq<usize>)>::empty(),
    {
        let reg = RootRegistry { entries: Vec::new(), count: 0 };
        proof {
            assert(reg@ =~= Seq::<(usize, Seq<usize>)>::empty());
        }
        reg
    }

    /// Whether `handle` is currently registered.
    pub fn contains(&self, handle: usize) -> (present: bool)
        ensures
            present == contains_handle(self@, handle),
    {
        let mut i: usize = 0;
        while i < self.entries.len()
            invariant
                i <= self.entries.len(),
                forall|j: int| 0 <= j < i ==> self@[j].0 != handle,
                self@.len() == self.entries@.len(),
                forall|j: int| 0 <= j < self.entries@.len() ==> self@[j].0 == self.entries@[j].handle,
            decreases self.entries.len() - i,
        {
            if self.entries[i].handle == handle {
                proof {
                    assert(self@[i as int].0 == handle);
                }
                return true;
            }
            i += 1;
        }
        false
    }

    /// Insert `handle -> slots` and add `slots.len()` to the running count.
    /// Registering a handle that is still registered is refused, leaving the
    /// registry unchanged. The slot sequence must be non-empty: callers
    /// obtain it from a cache drain, which never yields an empty one.
    pub fn register(&mut self, handle: usize, slots: Vec<usize>) -> (r: Result<(), RegistryError>)
        requires
            old(self).inv(),
            slots@.len() > 0,
            total_slots(old(self)@) + slots@.len() <= usize::MAX,
        ensures
            final(self).inv(),
            contains_handle(old(self)@, handle) ==> {
                &&& r == Result::<(), RegistryError>::Err(RegistryError::DuplicateRegistration)
                &&& final(self)@ == old(self)@
            },
            !contains_handle(old(self)@, handle) ==> {
                &&& r is Ok
                &&& final(self)@ == registered(old(self)@, handle, slots@)
            },
    {
        if self.contains(handle) {
            return Result::Err(RegistryError::DuplicateRegistration);
        }
        proof {
            lemma_handle_index_push_absent(self@, handle, slots@);
        }
        let ghost old_view = self@;
        let n = slots.len();
        self.entries.push(RegistryEntry { handle, slots });
        proof {
            assert(self@ =~= registered(old_view, handle, slots@));
            assert(self@.drop_last() =~= old_view);
            assert forall|i: int, j: int| 0 <= i < j < self@.len() implies self@[i].0
                != self@[j].0 by {
                if j == self@.len() - 1 {
                    assert(!contains_handle(old_view, handle));
                    assert(old_view[i].0 == self@[i].0);
                }
            }
        }
        self.count = self.count + n;
        Result::Ok(())
    }

    /// Remove the entry for `handle`, if any, and subtract its slot count.
    /// Unregistering an absent handle is a no-op, by design idempotent.
    pub fn unregister(&mut self, handle: usize)
        requires
            old(self).inv(),
        ensures
            final(self).inv(),
            final(self)@ == unregistered(old(self)@, handle),
    {
        proof {
            lemma_handle_index_spec(self@, handle);
        }
        let mut i: usize = 0;
        while i < self.entries.len()
            invariant
                *self == *old(self),
                old(self).inv(),
                i <= self.entries.len(),
                forall|j: int| 0 <= j < i ==> self@[j].0 != handle,
                self@.len() == self.entries@.len(),
                forall|j: int| 0 <= j < self.entries@.len() ==> self@[j].0 == self.entries@[j].handle
                    && self@[j].1 == self.entries@[j].slots@,
            decreases self.entries.len() - i,
        {
            if self.entries[i].handle == handle {
                let ghost pre = self@;
                let ghost pre_entries = self.entries@;
                proof {
                    assert(pre[i as int].0 == handle);
                    assert(contains_handle(pre, handle));
                    lemma_handle_index_spec(pre, handle);
                    assert(handle_index(pre, handle) == i as int) by {
                        let k = handle_index(pre, handle);
                        if k < i as int {
                            assert(pre[k].0 != handle);
                        }
                    }
                    lemma_total_slots_remove(pre, i as int);
                }
                let removed = self.entries.remove(i);
                proof {
                    assert(removed.slots@ == pre[i as int].1);
                    assert forall|j: int| 0 <= j < self@.len() implies self@[j] == pre.remove(
                        i as int,
                    )[j] by {
                        if j < i as int {
                            assert(self.entries@[j] == pre_entries[j]);
                            assert(self@[j] == pre[j]);
                        } else {
                            assert(self.entries@[j] == pre_entries[j + 1]);
                            assert(self@[j] == pre[j + 1]);
                        }
                    }
                    assert(self@ =~= pre.remove(i as int));
                    assert(distinct_handles(pre));
                    assert forall|a: int, b: int| 0 <= a < b < self@.len() implies self@[a].0
                        != self@[b].0 by {
                        let a0 = if a < i as int { a } else { a + 1 };
                        let b0 = if b < i as int { b } else { b + 1 };
                        assert(pre.remove(i as int)[a] == pre[a0]);
                        assert(pre.remove(i as int)[b] == pre[b0]);
                        assert(pre[a0].0 != pre[b0].0);
                    }
                    assert(self.count == total_slots(pre));
                    assert(removed.slots.len() == pre[i as int].1.len());
                }
                self.count = self.count - removed.slots.len();
                proof {
                    assert(self.count == total_slots(self@));
                }
                return ;
            }
            i += 1;
        }
        proof {
            assert(!contains_handle(self@, handle));
        }
    }

    /// The running count of registered root slots; always equal to the sum
    /// of the slot-sequence lengths over all current entries.
    pub fn count(&self) -> (n: usize)
        requires
            self.inv(),
        ensures
            n == total_slots(self@),
    {
        self.count
    }

    /// The slot sequence registered under `handle`, when present.
    pub fn slots_for(&self, handle: usize) -> (found: Option<&Vec<usize>>)
        ensures
            found matches Some(v) ==> contains_handle(self@, handle) && v@ == slots_of(
                self@,
                handle,
            ),
            (found is None) == !contains_handle(self@, handle),
    {
        proof {
            lemma_handle_index_spec(self@, handle);
        }
        let mut i: usize = 0;
        while i < self.entries.len()
            invariant
                i <= self.entries.len(),
                forall|j: int| 0 <= j < i ==> self@[j].0 != handle,
                self@.len() == self.entries@.len(),
                forall|j: int| 0 <= j < self.entries@.len() ==> self@[j].0 == self.entries@[j].handle
                    && self@[j].1 == self.entries@[j].slots@,
            decreases self.entries.len() - i,
        {
            if self.entries[i].handle == handle {
                proof {
                    assert(self@[i as int].0 == handle);
                    assert(contains_handle(self@, handle));
                    lemma_handle_index_spec(self@, handle);
                    assert(handle_index(self@, handle) == i as int) by {
                        let k = handle_index(self@, handle);
                        if k < i as int {
                            assert(self@[k].0 != handle);
                        }
                    }
                }
                return Option::Some(&self.entries[i].slots);
            }
            i += 1;
        }
        Option::None
    }

    /// Number of registered code units.
    pub fn n_entries(&self) -> (n: usize)
        ensures
            n == self@.len(),
    {
        self.entries.len()
    }
}

/// Every root slot of every entry, in registration order: what a collection
/// cycle enumerates.
pub open spec fn flat_slots(s: Seq<(usize, Seq<usize>)>) -> Seq<usize>
    decreases s.len(),
{
    if s.len() == 0 {
        Seq::<usize>::empty()
    } else {
        flat_slots(s.drop_last()) + s.last().1
    }
}

/// The flattened slot sequence is exactly as long as the running count says.
pub proof fn lemma_flat_slots_len(s: Seq<(usize, Seq<usize>)>)
    ensures
        flat_slots(s).len() == total_slots(s),
    decreases s.len(),
{
    if s.len() > 0 {
        lemma_flat_slots_len(s.drop_last());
    }
}

impl RootRegistry {
    /// A copy of every slot of every currently registered code unit, for
    /// root enumeration during a collection cycle. Taken under the same
    /// exclusive access as every mutation, so it reflects one consistent
    /// registry state.
    pub fn snapshot_for_scan(&self) -> (all: Vec<usize>)
        ensures
            all@ == flat_slots(self@),
            all@.len() == total_slots(self@),
    {
        let mut all: Vec<usize> = Vec::new();
        let mut i: usize = 0;
        proof {
            assert(self@.take(0) =~= Seq::<(usize, Seq<usize>)>::empty());
        }
        while i < self.entries.len()
            invariant
                i <= self.entries.len(),
                self@.len() == self.entries@.len(),
                forall|j: int| 0 <= j < self.entries@.len() ==> #[trigger] self@[j] == (
                    self.entries@[j].handle,
                    self.entries@[j].slots@,
                ),
                all@ == flat_slots(self@.take(i as int)),
            decreases self.entries.len() - i,
        {
            let slots = &self.entries[i].slots;
            let mut j: usize = 0;
            while j < slots.len()
                invariant
                    j <= slots.len(),
                    slots@ == self.entries@[i as int].slots@,
                    i < self.entries@.len(),
                    self@.len() == self.entries@.len(),
                    forall|k: int| 0 <= k < self.entries@.len() ==> #[trigger] self@[k] == (
                        self.entries@[k].handle,
                        self.entries@[k].slots@,
                    ),
                    all@ == flat_slots(self@.take(i as int)) + slots@.take(j as int),
                decreases slots.len() - j,
            {
                all.push(slots[j]);
                proof {
                    assert(slots@.take(j + 1) =~= slots@.take(j as int).push(slots@[j as int]));
                    assert(all@ =~= flat_slots(self@.take(i as int)) + slots@.take(j + 1));
                }
                j += 1;
            }
            proof {
                assert(slots@.take(slots@.len() as int) =~= slots@);
                assert(self@.take(i + 1).drop_last() =~= self@.take(i as int));
                assert(self@.take(i + 1).last() == self@[i as int]);
                assert(all@ =~= flat_slots(self@.take(i + 1)));
            }
            i += 1;
        }
        proof {
            assert(self@.take(self@.len() as int) =~= self@);
            lemma_flat_slots_len(self@);
        }
        all
    }
}

/// Unregistering is idempotent: once `h` is gone, unregistering it again
/// changes nothing — neither the mapping nor, through the count invariant,
/// the running slot count.
pub proof fn lemma_unregister_idempotent(s: Seq<(usize, Seq<usize>)>, h: usize)
    requires
        distinct_handles(s),
    ensures
        unregistered(unregistered(s, h), h) == unregistered(s, h),
{
    lemma_handle_index_spec(s, h);
    if handle_index(s, h) >= 0 {
        let i = handle_index(s, h);
        let s2 = s.remove(i);
        assert forall|j: int| 0 <= j < s2.len() implies s2[j].0 != h by {
            let j0 = if j < i { j } else { j + 1 };
            assert(s2[j] == s[j0]);
            if j0 != i {
                assert(s[j0].0 != s[i].0);
            }
        }
        lemma_handle_index_spec(s2, h);
        assert(!contains_handle(s2, h));
    } else {
        assert(!contains_handle(s, h));
    }
}

/// Register-after-drain integration: recording `a` then `b` into an empty
/// cache and registering the drained sequence under a fresh handle `h`
/// yields an entry for `h` holding exactly `[a, b]` in insertion order, and
/// raises the total slot count by 2.
pub proof fn lemma_register_drain_integration(
    reg: Seq<(usize, Seq<usize>)>,
    h: usize,
    a: usize,
    b: usize,
)
    requires
        !contains_handle(reg, h),
    ensures
        drained_value(Seq::<usize>::empty().push(a).push(b)) == Some(seq![a, b]),
        contains_handle(registered(reg, h, seq![a, b]), h),
        slots_of(registered(reg, h, seq![a, b]), h) == seq![a, b],
        total_slots(registered(reg, h, seq![a, b])) == total_slots(reg) + 2,
{
    let cache = Seq::<usize>::empty().push(a).push(b);
    assert(cache =~= seq![a, b]);
    let reg2 = registered(reg, h, seq![a, b]);
    lemma_handle_index_push_absent(reg, h, seq![a, b]);
    assert(reg2[reg.len() as int].0 == h);
    assert(reg2.drop_last() =~= reg);
}

} // verus!
