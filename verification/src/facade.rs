use vstd::prelude::*;
use vstd::pervasive::VecAdditionalExecFns;
use crate::mutator::BarrierEvent;
use crate::mutator::MutatorContext;
use crate::mutator::PendingBarrier;
use crate::mutator::advance;
use crate::mutator::replay;
use crate::mutator::wf_mutator;
use crate::registry::RegistryError;
use crate::registry::RootRegistry;
use crate::registry::contains_handle;
use crate::registry::registered;
use crate::registry::total_slots;
use crate::registry::unregistered;
use crate::root_cache::RootSlotCache;
use crate::root_cache::drained_rest;

verus! {

/// First address of the managed space in this facade's heap model.
pub const HEAP_BASE: usize = 0x1000_0000;

/// Largest managed-space size the facade accepts when heap bounds are set.
pub const MAX_MANAGED_BYTES: usize = 0x4000_0000;

/// Managed-space size used when no heap bounds were configured.
pub const DEFAULT_HEAP_BYTES: usize = 0x0400_0000;

/// Bytes per pointer-sized element in a bulk array copy.
pub const BYTES_IN_ADDRESS: usize = 8;

/// Size from which an allocation is classified as a large object.
pub const MAX_NON_LOS_DEFAULT_ALLOC_BYTES: usize = 16384;

/// One-way lifecycle of the collector facade: options may only be set while
/// configuring; allocation and binding only after initialization.
#[derive(Clone, Copy, PartialEq, Eq, Structural, Debug)]
pub enum Phase {
    Configuring,
    Initialized,
}

/// Which collection plan the engine is asked to run.
#[derive(Clone, Copy, PartialEq, Eq, Structural, Debug)]
pub enum PlanKind {
    NoGC,
    SemiSpace,
    GenCopy,
    MarkSweep,
    MarkCompact,
}

/// Which write barrier the chosen plan requires of the compiled code.
#[derive(Clone, Copy, PartialEq, Eq, Structural, Debug)]
pub enum BarrierSelector {
    NoBarrier,
    ObjectBarrier,
}

/// Heap sizing policy: a fixed size when minimum and maximum agree,
/// otherwise a dynamically grown heap between the two.
#[derive(Clone, Copy, PartialEq, Eq, Structural, Debug)]
pub enum HeapGrowthPolicy {
    Fixed { bytes: usize },
    Dynamic { min: usize, max: usize },
}

/// Allocation-kind policy under which an allocation is classified.
#[derive(Clone, Copy, PartialEq, Eq, Structural, Debug)]
pub enum AllocationKind {
    Standard,
    LargeObject,
}

/// End-of-life handling a finalization candidate is registered for.
#[derive(Clone, Copy, PartialEq, Eq, Structural, Debug)]
pub enum RefKind {
    Finalizable,
    Weak,
    Soft,
    Phantom,
}

/// Errors the gateway reports instead of leaving undefined behaviour at the
/// boundary: calls before initialization, stale or foreign handles,
/// ill-paired barrier calls, and allocation beyond the managed space.
#[derive(Clone, Copy, PartialEq, Eq, Structural, Debug)]
pub enum GatewayError {
    NotInitialized,
    InvalidHandle,
    UnpairedBarrier,
    OutOfMemory,
}

/// The alignments the binding supports: powers of two from the minimum (8)
/// to the maximum (64) object alignment.
pub open spec fn is_supported_alignment(align: int) -> bool {
    align == 8 || align == 16 || align == 32 || align == 64
}

/// The write barrier each plan requires: only the generational plan needs
/// stores to be announced.
pub open spec fn barrier_for_plan(p: PlanKind) -> BarrierSelector {
    match p {
        PlanKind::GenCopy => BarrierSelector::ObjectBarrier,
        _ => BarrierSelector::NoBarrier,
    }
}

/// Whether the plan may move objects during collection.
pub open spec fn plan_moves_objects(p: PlanKind) -> bool {
    match p {
        PlanKind::NoGC => false,
        PlanKind::MarkSweep => false,
        _ => true,
    }
}

/// A stored heap policy is valid: positive sizes within the managed bound.
pub open spec fn policy_valid(p: HeapGrowthPolicy) -> bool {
    match p {
        HeapGrowthPolicy::Fixed { bytes } => 0 < bytes <= MAX_MANAGED_BYTES,
        HeapGrowthPolicy::Dynamic { min, max } => 0 < min <= max && max <= MAX_MANAGED_BYTES,
    }
}

/// The managed-space size initialization reserves under a policy: the fixed
/// size, the dynamic maximum, or the default when nothing was configured.
pub open spec fn configured_heap_bytes(policy: Option<HeapGrowthPolicy>) -> int {
    match policy {
        None => DEFAULT_HEAP_BYTES as int,
        Some(HeapGrowthPolicy::Fixed { bytes }) => bytes as int,
        Some(HeapGrowthPolicy::Dynamic { min, max }) => max as int,
    }
}

/// The smallest address at or past `cursor` whose sum with `offset` is a
/// multiple of `align`.
pub open spec fn aligned_up(cursor: int, align: int, offset: int) -> int {
    cursor + ((align - ((cursor + offset) % align)) % align)
}

/// The process-wide collector facade, modelled as an explicitly constructed
/// context: configuration, the managed-space allocation state, the bound
/// mutator contexts, the shared root registry and the finalization queues.
/// A deployment holds exactly one behind a lock.
pub struct CollectorFacade {
    phase: Phase,
    plan: PlanKind,
    policy: Option<HeapGrowthPolicy>,
    options: Vec<(String, String)>,
    raw_option_texts: Vec<String>,
    heap_base: usize,
    heap_total: usize,
    cursor: usize,
    mutators: Vec<MutatorContext>,
    registry: RootRegistry,
    finalizable: Vec<usize>,
    weak: Vec<usize>,
    soft: Vec<usize>,
    phantom: Vec<usize>,
}

impl CollectorFacade {
    /// Lifecycle phase.
    pub closed spec fn phase(&self) -> Phase {
        self.phase
    }

    /// Selected collection plan.
    pub closed spec fn plan(&self) -> PlanKind {
        self.plan
    }

    /// Configured heap sizing policy, if any.
    pub closed spec fn policy(&self) -> Option<HeapGrowthPolicy> {
        self.policy
    }

    /// Name/value options recorded for the engine, in call order.
    pub closed spec fn options_view(&self) -> Seq<(Seq<char>, Seq<char>)> {
        self.options@.map_values(|p: (String, String)| (p.0@, p.1@))
    }

    /// Raw bulk option texts recorded for the engine, in call order.
    pub closed spec fn raw_texts(&self) -> Seq<Seq<char>> {
        self.raw_option_texts@.map_values(|s: String| s@)
    }

    /// First address of the managed space (0 while configuring).
    pub closed spec fn heap_base(&self) -> usize {
        self.heap_base
    }

    /// Size of the managed space in bytes (0 while configuring).
    pub closed spec fn heap_total(&self) -> usize {
        self.heap_total
    }

    /// Next unallocated address of the managed space.
    pub closed spec fn cursor(&self) -> usize {
        self.cursor
    }

    /// All mutator contexts ever bound, live and destroyed alike; a handle
    /// `h` names the context at position `h - 1`.
    pub closed spec fn mutators_view(&self) -> Seq<MutatorContext> {
        self.mutators@
    }

    /// The context a mutator handle names.
    pub open spec fn mutator(&self, h: usize) -> MutatorContext {
        self.mutators_view()[h - 1]
    }

    /// Whether `h` names a bound, not yet destroyed mutator.
    pub open spec fn valid_mutator(&self, h: usize) -> bool {
        1 <= h <= self.mutators_view().len() && self.mutator(h).live
    }

    /// Contents of the global root registry.
    pub closed spec fn registry_view(&self) -> Seq<(usize, Seq<usize>)> {
        self.registry@
    }

    /// Queue of finalization candidates not yet handed back.
    pub closed spec fn finalizable_view(&self) -> Seq<usize> {
        self.finalizable@
    }

    /// Registered weak-reference candidates.
    pub closed spec fn weak_view(&self) -> Seq<usize> {
        self.weak@
    }

    /// Registered soft-reference candidates.
    pub closed spec fn soft_view(&self) -> Seq<usize> {
        self.soft@
    }

    /// Registered phantom-reference candidates.
    pub closed spec fn phantom_view(&self) -> Seq<usize> {
        self.phantom@
    }

    /// End of the managed space.
    pub open spec fn heap_end(&self) -> int {
        self.heap_base() + self.heap_total()
    }

    /// Facade validity: the registry invariant holds, the heap model is
    /// consistent with the phase, any stored policy is valid, every mutator
    /// context replays to its recorded barrier state, and no mutators exist
    /// before initialization.
    pub closed spec fn inv(&self) -> bool {
        &&& self.registry.inv()
        &&& self.policy matches Some(p) ==> policy_valid(p)
        &&& self.phase is Configuring ==> self.heap_base == 0 && self.heap_total == 0
            && self.cursor == 0 && self.mutators@.len() == 0
        &&& self.phase is Initialized ==> self.heap_base == HEAP_BASE && self.heap_total
            <= MAX_MANAGED_BYTES && self.heap_base <= self.cursor && self.cursor
            <= self.heap_base + self.heap_total
        &&& forall|j: int|
            0 <= j < self.mutators@.len() ==> wf_mutator(#[trigger] self.mutators@[j])
    }

    /// Configuration, heap policy and recorded options are untouched.
    pub open spec fn config_unchanged(&self, o: &Self) -> bool {
        &&& self.phase() == o.phase()
        &&& self.plan() == o.plan()
        &&& self.policy() == o.policy()
        &&& self.options_view() == o.options_view()
        &&& self.raw_texts() == o.raw_texts()
    }

    /// The heap model is untouched.
    pub open spec fn heap_unchanged(&self, o: &Self) -> bool {
        &&& self.heap_base() == o.heap_base()
        &&& self.heap_total() == o.heap_total()
        &&& self.cursor() == o.cursor()
    }

    /// All mutator contexts are untouched.
    pub open spec fn mutators_unchanged(&self, o: &Self) -> bool {
        self.mutators_view() == o.mutators_view()
    }

    /// All mutator contexts except the one `h` names are untouched, and none
    /// is created or dropped.
    pub open spec fn mutators_unchanged_except(&self, o: &Self, h: usize) -> bool {
        &&& self.mutators_view().len() == o.mutators_view().len()
        &&& forall|j: int|
            0 <= j < o.mutators_view().len() && j != h - 1 ==> #[trigger] self.mutators_view()[j]
                == o.mutators_view()[j]
    }

    /// The root registry is untouched.
    pub open spec fn registry_unchanged(&self, o: &Self) -> bool {
        self.registry_view() == o.registry_view()
    }

    /// The finalization and reference queues are untouched.
    pub open spec fn queues_unchanged(&self, o: &Self) -> bool {
        &&& self.finalizable_view() == o.finalizable_view()
        &&& self.weak_view() == o.weak_view()
        &&& self.soft_view() == o.soft_view()
        &&& self.phantom_view() == o.phantom_view()
    }

    /// Nothing at all changed.
    pub open spec fn unchanged(&self, o: &Self) -> bool {
        &&& self.config_unchanged(o)
        &&& self.heap_unchanged(o)
        &&& self.mutators_unchanged(o)
        &&& self.registry_unchanged(o)
        &&& self.queues_unchanged(o)
    }

    /// A fresh facade in its configuration phase: no plan forced beyond the
    /// non-collecting default, no options, no heap, nothing bound.
    pub fn new() -> (f: Self)
        ensures
            f.inv(),
            f.phase() == Phase::Configuring,
            f.plan() == PlanKind::NoGC,
            f.policy() is None,
            f.options_view() == Seq::<(Seq<char>, Seq<char>)>::empty(),
            f.raw_texts() == Seq::<Seq<char>>::empty(),
            f.mutators_view() == Seq::<MutatorContext>::empty(),
            f.registry_view() == Seq::<(usize, Seq<usize>)>::empty(),
            f.finalizable_view() == Seq::<usize>::empty(),
            f.weak_view() == Seq::<usize>::empty(),
            f.soft_view() == Seq::<usize>::empty(),
            f.phantom_view() == Seq::<usize>::empty(),
    {
        let f = CollectorFacade {
            phase: Phase::Configuring,
            plan: PlanKind::NoGC,
            policy: Option::None,
            options: Vec::new(),
            raw_option_texts: Vec::new(),
            heap_base: 0,
            heap_total: 0,
            cursor: 0,
            mutators: Vec::new(),
            registry: RootRegistry::new(),
            finalizable: Vec::new(),
            weak: Vec::new(),
            soft: Vec::new(),
            phantom: Vec::new(),
        };
        proof {
            assert(f.options_view() =~= Seq::<(Seq<char>, Seq<char>)>::empty());
            assert(f.raw_texts() =~= Seq::<Seq<char>>::empty());
        }
        f
    }

    /// Force a collection plan. Succeeds only while configuring; after
    /// initialization the request is refused and nothing changes.
    pub fn set_plan(&mut self, plan: PlanKind) -> (accepted: bool)
        requires
            old(self).inv(),
        ensures
            final(self).inv(),
            accepted == (old(self).phase() is Configuring),
            accepted ==> final(self).plan() == plan && final(self).phase() == old(self).phase()
                && final(self).policy() == old(self).policy() && final(self).options_view() == old(self).options_view() && final(self).raw_texts() == old(self).raw_texts(),
            !accepted ==> final(self).config_unchanged(old(self)),
            final(self).heap_unchanged(old(self)),
            final(self).mutators_unchanged(old(self)),
            final(self).registry_unchanged(old(self)),
            final(self).queues_unchanged(old(self)),
    {
        match self.phase {
            Phase::Configuring => {
                self.plan = plan;
                true
            },
            Phase::Initialized => false,
        }
    }

    /// Set the heap sizing bounds: a fixed heap when `min == max`, else a
    /// dynamic heap. Refused, leaving everything unchanged, once the
    /// collector is initialized or when the bounds are not positive, ordered
    /// and within the managed-space limit.
    pub fn set_heap_bounds(&mut self, min: usize, max: usize) -> (accepted: bool)
        requires
            old(self).inv(),
        ensures
            final(self).inv(),
            accepted == (old(self).phase() is Configuring && 0 < min && min <= max && max
                <= MAX_MANAGED_BYTES),
            accepted && min == max ==> final(self).policy() == Some(
                HeapGrowthPolicy::Fixed { bytes: max },
            ),
            accepted && min != max ==> final(self).policy() == Some(
                HeapGrowthPolicy::Dynamic { min, max },
            ),
            accepted ==> final(self).phase() == old(self).phase() && final(self).plan() == old(self).plan() && final(self).options_view() == old(self).options_view() && final(self).raw_texts() == old(self).raw_texts(),
            !accepted ==> final(self).config_unchanged(old(self)),
            final(self).heap_unchanged(old(self)),
            final(self).mutators_unchanged(old(self)),
            final(self).registry_unchanged(old(self)),
            final(self).queues_unchanged(old(self)),
    {
        match self.phase {
            Phase::Configuring => {
                if 0 < min && min <= max && max <= MAX_MANAGED_BYTES {
                    if min == max {
                        self.policy = Option::Some(HeapGrowthPolicy::Fixed { bytes: max });
                    } else {
                        self.policy = Option::Some(HeapGrowthPolicy::Dynamic { min, max });
                    }
                    true
                } else {
                    false
                }
            },
            Phase::Initialized => false,
        }
    }

    /// Record one name/value option for the engine. Refused with nothing
    /// recorded once the collector is initialized or when the name is empty.
    pub fn set_option(&mut self, name: String, value: String) -> (accepted: bool)
        requires
            old(self).inv(),
        ensures
            final(self).inv(),
            accepted == (old(self).phase() is Configuring && name@.len() > 0),
            accepted ==> final(self).options_view() == old(self).options_view().push(
                (name@, value@),
            ) && final(self).phase() == old(self).phase() && final(self).plan() == old(self).plan()
                && final(self).policy() == old(self).policy() && final(self).raw_texts() == old(self).raw_texts(),
            !accepted ==> final(self).config_unchanged(old(self)),
            final(self).heap_unchanged(old(self)),
            final(self).mutators_unchanged(old(self)),
            final(self).registry_unchanged(old(self)),
            final(self).queues_unchanged(old(self)),
    {
        match self.phase {
            Phase::Configuring => {
                if !name.as_str().is_empty() {
                    self.options.push((name, value));
                    proof {
                        assert(self.options_view() =~= old(self).options_view().push(
                            (self.options@.last().0@, self.options@.last().1@),
                        ));
                    }
                    true
                } else {
                    false
                }
            },
            Phase::Initialized => false,
        }
    }

    /// Record one serialized bulk option text for the engine. Refused with
    /// nothing recorded once the collector is initialized.
    pub fn set_options_bulk(&mut self, text: String) -> (accepted: bool)
        requires
            old(self).inv(),
        ensures
            final(self).inv(),
            accepted == (old(self).phase() is Configuring),
            accepted ==> final(self).raw_texts() == old(self).raw_texts().push(text@) && final(self).phase() == old(self).phase() && final(self).plan() == old(self).plan() && final(self).policy() == old(self).policy() && final(self).options_view() == old(self).options_view(),
            !accepted ==> final(self).config_unchanged(old(self)),
            final(self).heap_unchanged(old(self)),
            final(self).mutators_unchanged(old(self)),
            final(self).registry_unchanged(old(self)),
            final(self).queues_unchanged(old(self)),
    {
        match self.phase {
            Phase::Configuring => {
                self.raw_option_texts.push(text);
                proof {
                    assert(self.raw_texts() =~= old(self).raw_texts().push(
                        self.raw_option_texts@.last()@,
                    ));
                }
                true
            },
            Phase::Initialized => false,
        }
    }

    /// Initialize the collector: ends the configuration phase for good and
    /// reserves the managed space the configured policy asks for. Must not
    /// be called twice — the caller checks `is_initialized` first.
    pub fn initialize(&mut self)
        requires
            old(self).inv(),
            old(self).phase() is Configuring,
        ensures
            final(self).inv(),
            final(self).phase() == Phase::Initialized,
            final(self).heap_base() == HEAP_BASE,
            final(self).heap_total() == configured_heap_bytes(old(self).policy()),
            final(self).cursor() == HEAP_BASE,
            final(self).plan() == old(self).plan(),
            final(self).policy() == old(self).policy(),
            final(self).options_view() == old(self).options_view(),
            final(self).raw_texts() == old(self).raw_texts(),
            final(self).mutators_unchanged(old(self)),
            final(self).registry_unchanged(old(self)),
            final(self).queues_unchanged(old(self)),
    {
        let total: usize = match self.policy {
            Option::None => DEFAULT_HEAP_BYTES,
            Option::Some(HeapGrowthPolicy::Fixed { bytes }) => bytes,
            Option::Some(HeapGrowthPolicy::Dynamic { min: _, max }) => max,
        };
        self.phase = Phase::Initialized;
        self.heap_base = HEAP_BASE;
        self.heap_total = total;
        self.cursor = HEAP_BASE;
    }

    /// Whether the collector has been initialized.
    pub fn is_initialized(&self) -> (b: bool)
        ensures
            b == (self.phase() is Initialized),
    {
        match self.phase {
            Phase::Initialized => true,
            Phase::Configuring => false,
        }
    }

    /// Bytes already allocated from the managed space.
    pub fn used_bytes(&self) -> (n: usize)
        requires
            self.inv(),
        ensures
            n == self.cursor() - self.heap_base(),
    {
        self.cursor - self.heap_base
    }

    /// Bytes of the managed space still free.
    pub fn free_bytes(&self) -> (n: usize)
        requires
            self.inv(),
        ensures
            n == self.heap_end() - self.cursor(),
    {
        self.heap_base + self.heap_total - self.cursor
    }

    /// Size of the managed space.
    pub fn total_bytes(&self) -> (n: usize)
        ensures
            n == self.heap_total(),
    {
        self.heap_total
    }

    /// First address of the managed space.
    pub fn starting_heap_address(&self) -> (a: usize)
        ensures
            a == self.heap_base(),
    {
        self.heap_base
    }

    /// First address past the managed space.
    pub fn last_heap_address(&self) -> (a: usize)
        requires
            self.inv(),
        ensures
            a == self.heap_end(),
    {
        self.heap_base + self.heap_total
    }

    /// Which write barrier the selected plan requires.
    pub fn active_barrier(&self) -> (b: BarrierSelector)
        ensures
            b == barrier_for_plan(self.plan()),
    {
        match self.plan {
            PlanKind::GenCopy => BarrierSelector::ObjectBarrier,
            _ => BarrierSelector::NoBarrier,
        }
    }

    /// Whether an object is guaranteed never to be moved: under a
    /// non-moving plan, every object is.
    pub fn will_never_move(&self, _object: usize) -> (b: bool)
        ensures
            b == !plan_moves_objects(self.plan()),
    {
        match self.plan {
            PlanKind::NoGC => true,
            PlanKind::MarkSweep => true,
            _ => false,
        }
    }

    /// Whether the address lies in the managed space.
    pub fn is_in_managed_space(&self, object: usize) -> (b: bool)
        requires
            self.inv(),
        ensures
            b == (self.heap_base() <= object < self.heap_end() && self.phase() is Initialized),
    {
        match self.phase {
            Phase::Initialized => self.heap_base <= object && object
                < self.heap_base + self.heap_total,
            Phase::Configuring => false,
        }
    }

    /// Whether the address has been handed out by the allocator, and is
    /// therefore mapped in this heap model.
    pub fn is_mapped_address(&self, address: usize) -> (b: bool)
        requires
            self.inv(),
        ensures
            b == (self.heap_base() <= address < self.cursor() && self.phase() is Initialized),
    {
        match self.phase {
            Phase::Initialized => self.heap_base <= address && address < self.cursor,
            Phase::Configuring => false,
        }
    }

    /// Whether the object is considered live: in this model, every object
    /// allocated so far is, until a collection reclaims it.
    pub fn is_live_object(&self, object: usize) -> (b: bool)
        requires
            self.inv(),
        ensures
            b == (self.heap_base() <= object < self.cursor() && self.phase() is Initialized),
    {
        match self.phase {
            Phase::Initialized => self.heap_base <= object && object < self.cursor,
            Phase::Configuring => false,
        }
    }

    /// Largest size still served by the standard allocation path.
    pub fn max_non_los_default_alloc_bytes(&self) -> (n: usize)
        ensures
            n == MAX_NON_LOS_DEFAULT_ALLOC_BYTES,
    {
        MAX_NON_LOS_DEFAULT_ALLOC_BYTES
    }

    /// The allocation-kind policy: sizes at or above the large-object
    /// threshold go to the large-object space.
    pub fn classify_allocation(&self, size: usize) -> (k: AllocationKind)
        ensures
            (k == AllocationKind::LargeObject) == (size >= MAX_NON_LOS_DEFAULT_ALLOC_BYTES),
            (k == AllocationKind::Standard) == (size < MAX_NON_LOS_DEFAULT_ALLOC_BYTES),
    {
        if size >= MAX_NON_LOS_DEFAULT_ALLOC_BYTES {
            AllocationKind::LargeObject
        } else {
            AllocationKind::Standard
        }
    }

    /// Append one accepted event to a mutator's buffer and step its barrier
    /// state, leaving everything else alone.
    fn apply_event(&mut self, idx: usize, e: BarrierEvent)
        requires
            old(self).inv(),
            idx < old(self).mutators_view().len(),
            wf_mutator(old(self).mutators_view()[idx as int]),
            advance(old(self).mutators_view()[idx as int].pending, e) is Some,
        ensures
            final(self).inv(),
            final(self).mutators_view().len() == old(self).mutators_view().len(),
            forall|j: int|
                0 <= j < old(self).mutators_view().len() && j != idx
                    ==> #[trigger] final(self).mutators_view()[j] == old(self).mutators_view()[j],
            final(self).mutators_view()[idx as int].live == old(self).mutators_view()[
                idx as int
            ].live,
            final(self).mutators_view()[idx as int].pending == advance(
                old(self).mutators_view()[idx as int].pending,
                e,
            )->Some_0,
            final(self).mutators_view()[idx as int].buffer@ == old(self).mutators_view()[
                idx as int
            ].buffer@.push(e),
            wf_mutator(final(self).mutators_view()[idx as int]),
            final(self).config_unchanged(old(self)),
            final(self).heap_unchanged(old(self)),
            final(self).registry_unchanged(old(self)),
            final(self).queues_unchanged(old(self)),
    {
        let ghost before = self.mutators@;
        let mut tmp = MutatorContext::new();
        self.mutators.set_and_swap(idx, &mut tmp);
        let next = match (tmp.pending, e) {
            (PendingBarrier::Idle, BarrierEvent::WritePre { slot, .. }) => PendingBarrier::Slot {
                slot,
            },
            (
                PendingBarrier::Idle,
                BarrierEvent::RegionCopyPre { src_start, src_end, dst_start, dst_end },
            ) => PendingBarrier::Region { src_start, src_end, dst_start, dst_end },
            _ => PendingBarrier::Idle,
        };
        proof {
            assert(tmp == before[idx as int]);
            assert(next == advance(tmp.pending, e)->Some_0);
            crate::mutator::lemma_replay_push(tmp.buffer@, e);
        }
        tmp.pending = next;
        tmp.buffer.push(e);
        self.mutators.set_and_swap(idx, &mut tmp);
        proof {
            assert(self.mutators@ =~= before.update(idx as int, self.mutators@[idx as int]));
            assert forall|j: int|
                0 <= j < self.mutators@.len() implies wf_mutator(
                #[trigger] self.mutators@[j],
            ) by {
                if j != idx as int {
                    assert(self.mutators@[j] == before[j]);
                    assert(wf_mutator(before[j]));
                }
            }
        }
    }

    /// Whether `h` names a bound, live mutator; the runtime-checked guard
    /// behind every gateway call.
    fn check_mutator(&self, h: usize) -> (ok: bool)
        ensures
            ok == self.valid_mutator(h),
    {
        h >= 1 && h <= self.mutators.len() && self.mutators[h - 1].live
    }

    /// Bind a new mutator context for the calling thread and hand back its
    /// handle (never 0). Refused before the collector is initialized.
    pub fn bind_mutator(&mut self) -> (r: Result<usize, GatewayError>)
        requires
            old(self).inv(),
        ensures
            final(self).inv(),
            final(self).config_unchanged(old(self)),
            final(self).heap_unchanged(old(self)),
            final(self).registry_unchanged(old(self)),
            final(self).queues_unchanged(old(self)),
            (r is Ok) == (old(self).phase() is Initialized),
            r is Err ==> r == Err::<usize, GatewayError>(GatewayError::NotInitialized) && final(self).mutators_unchanged(old(self)),
            r matches Ok(h) ==> {
                &&& h == old(self).mutators_view().len() + 1
                &&& h >= 1
                &&& final(self).valid_mutator(h)
                &&& final(self).mutator(h).pending == PendingBarrier::Idle
                &&& final(self).mutator(h).buffer@ == Seq::<BarrierEvent>::empty()
                &&& final(self).mutators_view().len() == old(self).mutators_view().len() + 1
                &&& forall|j: int|
                    0 <= j < old(self).mutators_view().len()
                        ==> #[trigger] final(self).mutators_view()[j] == old(self).mutators_view()[j]
            },
    {
        match self.phase {
            Phase::Configuring => Result::Err(GatewayError::NotInitialized),
            Phase::Initialized => {
                self.mutators.push(MutatorContext::new());
                let h = self.mutators.len();
                Result::Ok(h)
            },
        }
    }

    /// Destroy a bound mutator context. Its handle is dead from here on;
    /// using it again is reported as `InvalidHandle` and, as with every
    /// gateway call, other mutators' state is untouched.
    pub fn destroy_mutator(&mut self, h: usize) -> (r: Result<(), GatewayError>)
        requires
            old(self).inv(),
        ensures
            final(self).inv(),
            final(self).config_unchanged(old(self)),
            final(self).heap_unchanged(old(self)),
            final(self).registry_unchanged(old(self)),
            final(self).queues_unchanged(old(self)),
            final(self).mutators_unchanged_except(old(self), h),
            (r is Ok) == old(self).valid_mutator(h),
            r is Err ==> r == Err::<(), GatewayError>(GatewayError::InvalidHandle) && final(self).mutators_unchanged(old(self)),
            r is Ok ==> !final(self).valid_mutator(h),
    {
        if !self.check_mutator(h) {
            return Result::Err(GatewayError::InvalidHandle);
        }
        let mut tmp = MutatorContext::new();
        tmp.live = false;
        self.mutators.set_and_swap(h - 1, &mut tmp);
        proof {
            assert(replay(Seq::<BarrierEvent>::empty()) == Some(PendingBarrier::Idle));
        }
        Result::Ok(())
    }

    /// Publish a mutator's buffered engine notifications: the buffer is
    /// handed back in order and left empty. Refused in the middle of a
    /// bracketed store, when the buffered state is not yet consistent.
    pub fn flush_mutator(&mut self, h: usize) -> (r: Result<Vec<BarrierEvent>, GatewayError>)
        requires
            old(self).inv(),
        ensures
            final(self).inv(),
            final(self).config_unchanged(old(self)),
            final(self).heap_unchanged(old(self)),
            final(self).registry_unchanged(old(self)),
            final(self).queues_unchanged(old(self)),
            final(self).mutators_unchanged_except(old(self), h),
            !old(self).valid_mutator(h) ==> r == Err::<Vec<BarrierEvent>, GatewayError>(
                GatewayError::InvalidHandle,
            ) && final(self).mutators_unchanged(old(self)),
            old(self).valid_mutator(h) && !(old(self).mutator(h).pending is Idle) ==> r == Err::<
                Vec<BarrierEvent>,
                GatewayError,
            >(GatewayError::UnpairedBarrier) && final(self).mutators_unchanged(old(self)),
            old(self).valid_mutator(h) && old(self).mutator(h).pending is Idle ==> {
                &&& r is Ok
                &&& (r matches Ok(v) ==> v@ == old(self).mutator(h).buffer@ && replay(v@) == Some(
                    PendingBarrier::Idle,
                ))
                &&& final(self).mutator(h).buffer@ == Seq::<BarrierEvent>::empty()
                &&& final(self).mutator(h).pending == PendingBarrier::Idle
                &&& final(self).mutator(h).live
            },
    {
        if !self.check_mutator(h) {
            return Result::Err(GatewayError::InvalidHandle);
        }
        let idx = h - 1;
        match self.mutators[idx].pending {
            PendingBarrier::Idle => {},
            _ => {
                return Result::Err(GatewayError::UnpairedBarrier);
            },
        }
        let ghost before = self.mutators@;
        let mut tmp = MutatorContext::new();
        self.mutators.set_and_swap(idx, &mut tmp);
        let mut drained: Vec<BarrierEvent> = Vec::new();
        core::mem::swap(&mut tmp.buffer, &mut drained);
        self.mutators.set_and_swap(idx, &mut tmp);
        proof {
            assert(self.mutators@ =~= before.update(idx as int, self.mutators@[idx as int]));
            assert(replay(Seq::<BarrierEvent>::empty()) == Some(PendingBarrier::Idle));
        }
        Result::Ok(drained)
    }

    /// Whether an allocation of `size` bytes at alignment `align` with
    /// offset correction `offset` still fits in the managed space.
    pub open spec fn alloc_fits(&self, size: usize, align: usize, offset: usize) -> bool {
        aligned_up(self.cursor() as int, align as int, offset as int) + size <= self.heap_end()
    }

    /// Allocate `size` bytes so that the returned address plus `offset` is a
    /// multiple of `align`; the kind records which space policy the request
    /// falls under and does not change the arithmetic of this model. The
    /// offset correction is only meaningful modulo the alignment, so it is
    /// taken below it. On success the address is non-null, the range
    /// `[address, address + size)` lies between the old and the new cursor,
    /// and the cursor never moves backwards — which is what keeps ranges
    /// handed to different callers disjoint. When the space is exhausted the
    /// request fails with `OutOfMemory` and nothing changes: a terminal
    /// condition for the caller.
    pub fn allocate(
        &mut self,
        h: usize,
        size: usize,
        align: usize,
        offset: usize,
        _kind: AllocationKind,
    ) -> (r: Result<usize, GatewayError>)
        requires
            old(self).inv(),
            is_supported_alignment(align as int),
            offset < align,
        ensures
            final(self).inv(),
            final(self).config_unchanged(old(self)),
            final(self).mutators_unchanged(old(self)),
            final(self).registry_unchanged(old(self)),
            final(self).queues_unchanged(old(self)),
            final(self).heap_base() == old(self).heap_base(),
            final(self).heap_total() == old(self).heap_total(),
            final(self).cursor() >= old(self).cursor(),
            !(old(self).phase() is Initialized) ==> r == Err::<usize, GatewayError>(
                GatewayError::NotInitialized,
            ) && final(self).cursor() == old(self).cursor(),
            old(self).phase() is Initialized && !old(self).valid_mutator(h) ==> r == Err::<
                usize,
                GatewayError,
            >(GatewayError::InvalidHandle) && final(self).cursor() == old(self).cursor(),
            old(self).phase() is Initialized && old(self).valid_mutator(h) && !old(self).alloc_fits(size, align, offset) ==> r == Err::<usize, GatewayError>(
                GatewayError::OutOfMemory,
            ) && final(self).cursor() == old(self).cursor(),
            old(self).phase() is Initialized && old(self).valid_mutator(h) && old(self).alloc_fits(
                size,
                align,
                offset,
            ) ==> {
                &&& r is Ok
                &&& r matches Ok(a) ==> {
                    &&& a == aligned_up(old(self).cursor() as int, align as int, offset as int)
                    &&& (a + offset) % (align as int) == 0
                    &&& a > 0
                    &&& old(self).cursor() <= a
                    &&& a + size == final(self).cursor()
                    &&& a + size <= old(self).heap_end()
                }
            },
    {
        match self.phase {
            Phase::Configuring => {
                return Result::Err(GatewayError::NotInitialized);
            },
            Phase::Initialized => {},
        }
        if !self.check_mutator(h) {
            return Result::Err(GatewayError::InvalidHandle);
        }
        let rem = (self.cursor + offset) % align;
        let pad = if rem == 0 {
            0
        } else {
            align - rem
        };
        let candidate = self.cursor + pad;
        proof {
            let c = self.cursor as int;
            let al = align as int;
            let off = offset as int;
            let x = c + off;
            assert(rem == x % al);
            if rem == 0 {
                assert((al - 0) % al == 0) by {
                    vstd::arithmetic::div_mod::lemma_mod_self_0(al);
                }
                assert(candidate == aligned_up(c, al, off));
                assert((candidate + off) % al == 0);
            } else {
                assert((al - x % al) % al == al - x % al) by {
                    vstd::arithmetic::div_mod::lemma_small_mod((al - x % al) as nat, al as nat);
                }
                assert(candidate == aligned_up(c, al, off));
                vstd::arithmetic::div_mod::lemma_fundamental_div_mod(x, al);
                let q = x / al;
                assert(candidate + off == al * q + (x % al) + (al - x % al));
                assert(candidate + off == al * (q + 1)) by (nonlinear_arith)
                    requires
                        candidate + off == al * q + al,
                ;
                assert((al * (q + 1)) % al == 0) by {
                    vstd::arithmetic::div_mod::lemma_mod_multiples_basic(q + 1, al);
                }
            }
        }
        let limit = self.heap_base + self.heap_total;
        if candidate <= limit && size <= limit - candidate {
            self.cursor = candidate + size;
            Result::Ok(candidate)
        } else {
            Result::Err(GatewayError::OutOfMemory)
        }
    }

    /// Notify the collector that the object just allocated is fully
    /// initialized and may be traced. Buffered like a barrier event; legal
    /// only between bracketed stores.
    pub fn post_alloc(
        &mut self,
        h: usize,
        object: usize,
        size: usize,
        _kind: AllocationKind,
    ) -> (r: Result<(), GatewayError>)
        requires
            old(self).inv(),
        ensures
            final(self).inv(),
            final(self).config_unchanged(old(self)),
            final(self).heap_unchanged(old(self)),
            final(self).registry_unchanged(old(self)),
            final(self).queues_unchanged(old(self)),
            final(self).mutators_unchanged_except(old(self), h),
            !old(self).valid_mutator(h) ==> r == Err::<(), GatewayError>(
                GatewayError::InvalidHandle,
            ) && final(self).mutators_unchanged(old(self)),
            old(self).valid_mutator(h) && !(old(self).mutator(h).pending is Idle) ==> r == Err::<
                (),
                GatewayError,
            >(GatewayError::UnpairedBarrier) && final(self).mutators_unchanged(old(self)),
            old(self).valid_mutator(h) && old(self).mutator(h).pending is Idle ==> {
                &&& r is Ok
                &&& final(self).mutator(h).pending == PendingBarrier::Idle
                &&& final(self).mutator(h).buffer@ == old(self).mutator(h).buffer@.push(
                    BarrierEvent::PostAlloc { object, size },
                )
                &&& final(self).mutator(h).live
            },
    {
        if !self.check_mutator(h) {
            return Result::Err(GatewayError::InvalidHandle);
        }
        let idx = h - 1;
        match self.mutators[idx].pending {
            PendingBarrier::Idle => {},
            _ => {
                return Result::Err(GatewayError::UnpairedBarrier);
            },
        }
        self.apply_event(idx, BarrierEvent::PostAlloc { object, size });
        Result::Ok(())
    }

    /// Pre barrier of a single pointer store: brackets the store until the
    /// matching post barrier of the same slot arrives. A second pre barrier,
    /// or any other gateway notification, before that post is refused.
    pub fn write_pre(&mut self, h: usize, src: usize, slot: usize, target: usize) -> (r: Result<
        (),
        GatewayError,
    >)
        requires
            old(self).inv(),
        ensures
            final(self).inv(),
            final(self).config_unchanged(old(self)),
            final(self).heap_unchanged(old(self)),
            final(self).registry_unchanged(old(self)),
            final(self).queues_unchanged(old(self)),
            final(self).mutators_unchanged_except(old(self), h),
            !old(self).valid_mutator(h) ==> r == Err::<(), GatewayError>(
                GatewayError::InvalidHandle,
            ) && final(self).mutators_unchanged(old(self)),
            old(self).valid_mutator(h) && !(old(self).mutator(h).pending is Idle) ==> r == Err::<
                (),
                GatewayError,
            >(GatewayError::UnpairedBarrier) && final(self).mutators_unchanged(old(self)),
            old(self).valid_mutator(h) && old(self).mutator(h).pending is Idle ==> {
                &&& r is Ok
                &&& final(self).mutator(h).pending == PendingBarrier::Slot { slot }
                &&& final(self).mutator(h).buffer@ == old(self).mutator(h).buffer@.push(
                    BarrierEvent::WritePre { src, slot, target },
                )
                &&& final(self).mutator(h).live
            },
    {
        if !self.check_mutator(h) {
            return Result::Err(GatewayError::InvalidHandle);
        }
        let idx = h - 1;
        match self.mutators[idx].pending {
            PendingBarrier::Idle => {},
            _ => {
                return Result::Err(GatewayError::UnpairedBarrier);
            },
        }
        self.apply_event(idx, BarrierEvent::WritePre { src, slot, target });
        Result::Ok(())
    }

    /// Post barrier of a single pointer store: legal exactly when a pre
    /// barrier of the same slot is pending, which it closes.
    pub fn write_post(&mut self, h: usize, src: usize, slot: usize, target: usize) -> (r: Result<
        (),
        GatewayError,
    >)
        requires
            old(self).inv(),
        ensures
            final(self).inv(),
            final(self).config_unchanged(old(self)),
            final(self).heap_unchanged(old(self)),
            final(self).registry_unchanged(old(self)),
            final(self).queues_unchanged(old(self)),
            final(self).mutators_unchanged_except(old(self), h),
            !old(self).valid_mutator(h) ==> r == Err::<(), GatewayError>(
                GatewayError::InvalidHandle,
            ) && final(self).mutators_unchanged(old(self)),
            old(self).valid_mutator(h) && old(self).mutator(h).pending != (
            PendingBarrier::Slot { slot }) ==> r == Err::<(), GatewayError>(
                GatewayError::UnpairedBarrier,
            ) && final(self).mutators_unchanged(old(self)),
            old(self).valid_mutator(h) && old(self).mutator(h).pending == (
            PendingBarrier::Slot { slot }) ==> {
                &&& r is Ok
                &&& final(self).mutator(h).pending == PendingBarrier::Idle
                &&& final(self).mutator(h).buffer@ == old(self).mutator(h).buffer@.push(
                    BarrierEvent::WritePost { src, slot, target },
                )
                &&& final(self).mutator(h).live
            },
    {
        if !self.check_mutator(h) {
            return Result::Err(GatewayError::InvalidHandle);
        }
        let idx = h - 1;
        let matched = match self.mutators[idx].pending {
            PendingBarrier::Slot { slot: pending } => pending == slot,
            _ => false,
        };
        if !matched {
            return Result::Err(GatewayError::UnpairedBarrier);
        }
        self.apply_event(idx, BarrierEvent::WritePost { src, slot, target });
        Result::Ok(())
    }

    /// Slow-path barrier of a single pointer store: stands for the whole
    /// pre/post pair, so it is legal only between stores and leaves no
    /// pending bracket behind.
    pub fn write_slow(&mut self, h: usize, src: usize, slot: usize, target: usize) -> (r: Result<
        (),
        GatewayError,
    >)
        requires
            old(self).inv(),
        ensures
            final(self).inv(),
            final(self).config_unchanged(old(self)),
            final(self).heap_unchanged(old(self)),
            final(self).registry_unchanged(old(self)),
            final(self).queues_unchanged(old(self)),
            final(self).mutators_unchanged_except(old(self), h),
            !old(self).valid_mutator(h) ==> r == Err::<(), GatewayError>(
                GatewayError::InvalidHandle,
            ) && final(self).mutators_unchanged(old(self)),
            old(self).valid_mutator(h) && !(old(self).mutator(h).pending is Idle) ==> r == Err::<
                (),
                GatewayError,
            >(GatewayError::UnpairedBarrier) && final(self).mutators_unchanged(old(self)),
            old(self).valid_mutator(h) && old(self).mutator(h).pending is Idle ==> {
                &&& r is Ok
                &&& final(self).mutator(h).pending == PendingBarrier::Idle
                &&& final(self).mutator(h).buffer@ == old(self).mutator(h).buffer@.push(
                    BarrierEvent::WriteSlow { src, slot, target },
                )
                &&& final(self).mutator(h).live
            },
    {
        if !self.check_mutator(h) {
            return Result::Err(GatewayError::InvalidHandle);
        }
        let idx = h - 1;
        match self.mutators[idx].pending {
            PendingBarrier::Idle => {},
            _ => {
                return Result::Err(GatewayError::UnpairedBarrier);
            },
        }
        self.apply_event(idx, BarrierEvent::WriteSlow { src, slot, target });
        Result::Ok(())
    }

    /// Probable-write hint: no pairing of its own, but never legal in the
    /// middle of a bracketed store.
    pub fn probable_write(&mut self, h: usize, obj: usize) -> (r: Result<(), GatewayError>)
        requires
            old(self).inv(),
        ensures
            final(self).inv(),
            final(self).config_unchanged(old(self)),
            final(self).heap_unchanged(old(self)),
            final(self).registry_unchanged(old(self)),
            final(self).queues_unchanged(old(self)),
            final(self).mutators_unchanged_except(old(self), h),
            !old(self).valid_mutator(h) ==> r == Err::<(), GatewayError>(
                GatewayError::InvalidHandle,
            ) && final(self).mutators_unchanged(old(self)),
            old(self).valid_mutator(h) && !(old(self).mutator(h).pending is Idle) ==> r == Err::<
                (),
                GatewayError,
            >(GatewayError::UnpairedBarrier) && final(self).mutators_unchanged(old(self)),
            old(self).valid_mutator(h) && old(self).mutator(h).pending is Idle ==> {
                &&& r is Ok
                &&& final(self).mutator(h).pending == PendingBarrier::Idle
                &&& final(self).mutator(h).buffer@ == old(self).mutator(h).buffer@.push(
                    BarrierEvent::ProbableWrite { obj },
                )
                &&& final(self).mutator(h).live
            },
    {
        if !self.check_mutator(h) {
            return Result::Err(GatewayError::InvalidHandle);
        }
        let idx = h - 1;
        match self.mutators[idx].pending {
            PendingBarrier::Idle => {},
            _ => {
                return Result::Err(GatewayError::UnpairedBarrier);
            },
        }
        self.apply_event(idx, BarrierEvent::ProbableWrite { obj });
        Result::Ok(())
    }

    /// Pre barrier of a bulk copy of `count` pointer-sized elements:
    /// brackets the copy of the whole source and destination byte ranges
    /// until the matching region post barrier.
    pub fn array_copy_pre(&mut self, h: usize, src: usize, dst: usize, count: usize) -> (r: Result<
        (),
        GatewayError,
    >)
        requires
            old(self).inv(),
            src + count * BYTES_IN_ADDRESS <= usize::MAX,
            dst + count * BYTES_IN_ADDRESS <= usize::MAX,
        ensures
            final(self).inv(),
            final(self).config_unchanged(old(self)),
            final(self).heap_unchanged(old(self)),
            final(self).registry_unchanged(old(self)),
            final(self).queues_unchanged(old(self)),
            final(self).mutators_unchanged_except(old(self), h),
            !old(self).valid_mutator(h) ==> r == Err::<(), GatewayError>(
                GatewayError::InvalidHandle,
            ) && final(self).mutators_unchanged(old(self)),
            old(self).valid_mutator(h) && !(old(self).mutator(h).pending is Idle) ==> r == Err::<
                (),
                GatewayError,
            >(GatewayError::UnpairedBarrier) && final(self).mutators_unchanged(old(self)),
            old(self).valid_mutator(h) && old(self).mutator(h).pending is Idle ==> {
                &&& r is Ok
                &&& final(self).mutator(h).pending == (PendingBarrier::Region {
                    src_start: src,
                    src_end: (src + count * BYTES_IN_ADDRESS) as usize,
                    dst_start: dst,
                    dst_end: (dst + count * BYTES_IN_ADDRESS) as usize,
                })
                &&& final(self).mutator(h).buffer@ == old(self).mutator(h).buffer@.push(
                    BarrierEvent::RegionCopyPre {
                        src_start: src,
                        src_end: (src + count * BYTES_IN_ADDRESS) as usize,
                        dst_start: dst,
                        dst_end: (dst + count * BYTES_IN_ADDRESS) as usize,
                    },
                )
                &&& final(self).mutator(h).live
            },
    {
        if !self.check_mutator(h) {
            return Result::Err(GatewayError::InvalidHandle);
        }
        let idx = h - 1;
        match self.mutators[idx].pending {
            PendingBarrier::Idle => {},
            _ => {
                return Result::Err(GatewayError::UnpairedBarrier);
            },
        }
        let bytes = count * BYTES_IN_ADDRESS;
        self.apply_event(
            idx,
            BarrierEvent::RegionCopyPre {
                src_start: src,
                src_end: src + bytes,
                dst_start: dst,
                dst_end: dst + bytes,
            },
        );
        Result::Ok(())
    }

    /// Post barrier of a bulk copy: legal exactly when the region pre
    /// barrier of the same source and destination ranges is pending.
    pub fn array_copy_post(&mut self, h: usize, src: usize, dst: usize, count: usize) -> (r:
        Result<(), GatewayError>)
        requires
            old(self).inv(),
            src + count * BYTES_IN_ADDRESS <= usize::MAX,
            dst + count * BYTES_IN_ADDRESS <= usize::MAX,
        ensures
            final(self).inv(),
            final(self).config_unchanged(old(self)),
            final(self).heap_unchanged(old(self)),
            final(self).registry_unchanged(old(self)),
            final(self).queues_unchanged(old(self)),
            final(self).mutators_unchanged_except(old(self), h),
            !old(self).valid_mutator(h) ==> r == Err::<(), GatewayError>(
                GatewayError::InvalidHandle,
            ) && final(self).mutators_unchanged(old(self)),
            old(self).valid_mutator(h) && old(self).mutator(h).pending != (
            PendingBarrier::Region {
                src_start: src,
                src_end: (src + count * BYTES_IN_ADDRESS) as usize,
                dst_start: dst,
                dst_end: (dst + count * BYTES_IN_ADDRESS) as usize,
            }) ==> r == Err::<(), GatewayError>(GatewayError::UnpairedBarrier) && final(self).mutators_unchanged(old(self)),
            old(self).valid_mutator(h) && old(self).mutator(h).pending == (
            PendingBarrier::Region {
                src_start: src,
                src_end: (src + count * BYTES_IN_ADDRESS) as usize,
                dst_start: dst,
                dst_end: (dst + count * BYTES_IN_ADDRESS) as usize,
            }) ==> {
                &&& r is Ok
                &&& final(self).mutator(h).pending == PendingBarrier::Idle
                &&& final(self).mutator(h).buffer@ == old(self).mutator(h).buffer@.push(
                    BarrierEvent::RegionCopyPost {
                        src_start: src,
                        src_end: (src + count * BYTES_IN_ADDRESS) as usize,
                        dst_start: dst,
                        dst_end: (dst + count * BYTES_IN_ADDRESS) as usize,
                    },
                )
                &&& final(self).mutator(h).live
            },
    {
        if !self.check_mutator(h) {
            return Result::Err(GatewayError::InvalidHandle);
        }
        let idx = h - 1;
        let bytes = count * BYTES_IN_ADDRESS;
        let matched = match self.mutators[idx].pending {
            PendingBarrier::Region { src_start, src_end, dst_start, dst_end } => src_start == src
                && src_end == src + bytes && dst_start == dst && dst_end == dst + bytes,
            _ => false,
        };
        if !matched {
            return Result::Err(GatewayError::UnpairedBarrier);
        }
        self.apply_event(
            idx,
            BarrierEvent::RegionCopyPost {
                src_start: src,
                src_end: src + bytes,
                dst_start: dst,
                dst_end: dst + bytes,
            },
        );
        Result::Ok(())
    }
}

impl CollectorFacade {
    /// Register a freshly generated code unit: the calling thread's cache
    /// is drained and its slots are merged into the global registry under
    /// `nm`, raising the root slot count by their number. An empty cache
    /// registers nothing and reports `Ok(false)`. A handle still registered
    /// is refused outright, cache and registry untouched.
    pub fn register_code_unit(&mut self, nm: usize, cache: &mut RootSlotCache) -> (r: Result<
        bool,
        RegistryError,
    >)
        requires
            old(self).inv(),
            total_slots(old(self).registry_view()) + old(cache)@.len() <= usize::MAX,
        ensures
            final(self).inv(),
            final(self).config_unchanged(old(self)),
            final(self).heap_unchanged(old(self)),
            final(self).mutators_unchanged(old(self)),
            final(self).queues_unchanged(old(self)),
            old(cache)@.len() == 0 ==> r == Ok::<bool, RegistryError>(false) && final(self).registry_unchanged(old(self)) && final(cache)@ == old(cache)@,
            old(cache)@.len() > 0 && contains_handle(old(self).registry_view(), nm) ==> r == Err::<
                bool,
                RegistryError,
            >(RegistryError::DuplicateRegistration) && final(self).registry_unchanged(old(self))
                && final(cache)@ == old(cache)@,
            old(cache)@.len() > 0 && !contains_handle(old(self).registry_view(), nm) ==> {
                &&& r == Ok::<bool, RegistryError>(true)
                &&& final(self).registry_view() == registered(
                    old(self).registry_view(),
                    nm,
                    old(cache)@,
                )
                &&& final(cache)@ == drained_rest(old(cache)@)
            },
    {
        if cache.len() == 0 {
            return Result::Ok(false);
        }
        if self.registry.contains(nm) {
            return Result::Err(RegistryError::DuplicateRegistration);
        }
        let slots = match cache.drain() {
            Option::Some(v) => v,
            Option::None => {
                proof {
                    assert(false);
                }
                return Result::Ok(false);
            },
        };
        match self.registry.register(nm, slots) {
            Result::Ok(()) => Result::Ok(true),
            Result::Err(e) => {
                proof {
                    assert(false);
                }
                Result::Err(e)
            },
        }
    }

    /// Unregister a code unit: its entry and all its slots leave the
    /// registry and the root slot count drops by their number, atomically
    /// under the registry's exclusive access. Unregistering an absent
    /// handle is an idempotent no-op.
    pub fn unregister_code_unit(&mut self, nm: usize)
        requires
            old(self).inv(),
        ensures
            final(self).inv(),
            final(self).config_unchanged(old(self)),
            final(self).heap_unchanged(old(self)),
            final(self).mutators_unchanged(old(self)),
            final(self).queues_unchanged(old(self)),
            final(self).registry_view() == unregistered(old(self).registry_view(), nm),
    {
        self.registry.unregister(nm);
    }

    /// The running total of registered root slots, equal to the sum of the
    /// slot counts of all registered code units.
    pub fn total_root_slots(&self) -> (n: usize)
        requires
            self.inv(),
        ensures
            n == total_slots(self.registry_view()),
    {
        self.registry.count()
    }

    /// Whether a code unit is currently registered.
    pub fn code_unit_registered(&self, nm: usize) -> (present: bool)
        ensures
            present == contains_handle(self.registry_view(), nm),
    {
        self.registry.contains(nm)
    }

    /// Number of currently registered code units.
    pub fn registered_code_units(&self) -> (n: usize)
        ensures
            n == self.registry_view().len(),
    {
        self.registry.n_entries()
    }

    /// Every registered root slot, copied out for root enumeration during a
    /// collection cycle.
    pub fn snapshot_for_scan(&self) -> (all: Vec<usize>)
        ensures
            all@ == crate::registry::flat_slots(self.registry_view()),
            all@.len() == total_slots(self.registry_view()),
    {
        self.registry.snapshot_for_scan()
    }

    /// Register an object for special end-of-life handling of the given
    /// kind. Registration is unconditional; readiness is decided later.
    pub fn add_finalization_candidate(&mut self, object: usize, kind: RefKind)
        requires
            old(self).inv(),
        ensures
            final(self).inv(),
            final(self).config_unchanged(old(self)),
            final(self).heap_unchanged(old(self)),
            final(self).mutators_unchanged(old(self)),
            final(self).registry_unchanged(old(self)),
            final(self).finalizable_view() == (if kind is Finalizable {
                old(self).finalizable_view().push(object)
            } else {
                old(self).finalizable_view()
            }),
            final(self).weak_view() == (if kind is Weak {
                old(self).weak_view().push(object)
            } else {
                old(self).weak_view()
            }),
            final(self).soft_view() == (if kind is Soft {
                old(self).soft_view().push(object)
            } else {
                old(self).soft_view()
            }),
            final(self).phantom_view() == (if kind is Phantom {
                old(self).phantom_view().push(object)
            } else {
                old(self).phantom_view()
            }),
    {
        match kind {
            RefKind::Finalizable => self.finalizable.push(object),
            RefKind::Weak => self.weak.push(object),
            RefKind::Soft => self.soft.push(object),
            RefKind::Phantom => self.phantom.push(object),
        }
    }

    /// Hand back the next object ready for finalization, oldest first, or
    /// nothing when the queue is empty. Each registered candidate is handed
    /// back at most once.
    pub fn poll_finalized_object(&mut self) -> (r: Option<usize>)
        requires
            old(self).inv(),
        ensures
            final(self).inv(),
            final(self).config_unchanged(old(self)),
            final(self).heap_unchanged(old(self)),
            final(self).mutators_unchanged(old(self)),
            final(self).registry_unchanged(old(self)),
            final(self).weak_view() == old(self).weak_view(),
            final(self).soft_view() == old(self).soft_view(),
            final(self).phantom_view() == old(self).phantom_view(),
            old(self).finalizable_view().len() == 0 ==> r is None && final(self).finalizable_view()
                == old(self).finalizable_view(),
            old(self).finalizable_view().len() > 0 ==> r == Some(old(self).finalizable_view()[0])
                && final(self).finalizable_view() == old(self).finalizable_view().drop_first(),
    {
        if self.finalizable.len() == 0 {
            return Option::None;
        }
        let object = self.finalizable.remove(0);
        proof {
            assert(self.finalizable@ =~= old(self).finalizable@.drop_first());
        }
        Option::Some(object)
    }
}

/// Whether the byte ranges `[a1, a1 + s1)` and `[a2, a2 + s2)` share at
/// least one address.
pub open spec fn ranges_overlap(a1: int, s1: int, a2: int, s2: int) -> bool {
    s1 > 0 && s2 > 0 && a1 < a2 + s2 && a2 < a1 + s1
}

/// Allocation non-overlap: `allocate` hands back a range that ends at the
/// new cursor and starts no earlier than the old one, and no gateway call
/// ever moves the cursor backwards. So for any allocation completed at
/// cursor `c` and any later one handed out at or past `c` — to the same or
/// to a different caller — the two byte ranges share no address.
pub proof fn lemma_allocation_ranges_disjoint(a1: int, s1: int, c: int, a2: int, s2: int)
    requires
        a1 + s1 <= c,
        c <= a2,
    ensures
        !ranges_overlap(a1, s1, a2, s2),
{
}

} // verus!
