use vstd::prelude::*;

verus! {

/// One buffered notification from a mutator to the collector engine: a
/// write-barrier call, a bulk-copy barrier call, a probable-write hint or a
/// post-allocation notice. Addresses are plain machine words.
#[derive(Clone, Copy, PartialEq, Eq, Structural, Debug)]
pub enum BarrierEvent {
    WritePre { src: usize, slot: usize, target: usize },
    WritePost { src: usize, slot: usize, target: usize },
    WriteSlow { src: usize, slot: usize, target: usize },
    ProbableWrite { obj: usize },
    RegionCopyPre { src_start: usize, src_end: usize, dst_start: usize, dst_end: usize },
    RegionCopyPost { src_start: usize, src_end: usize, dst_start: usize, dst_end: usize },
    PostAlloc { object: usize, size: usize },
}

/// The barrier state a mutator is in between gateway calls: no store in
/// flight, a single-slot store bracketed by a pre barrier, or a bulk region
/// copy bracketed by its pre barrier.
#[derive(Clone, Copy, PartialEq, Eq, Structural, Debug)]
pub enum PendingBarrier {
    Idle,
    Slot { slot: usize },
    Region { src_start: usize, src_end: usize, dst_start: usize, dst_end: usize },
}

/// The barrier state machine: which state follows `p` when event `e` is
/// accepted, or `None` when `e` is not legal in state `p`. A pre barrier is
/// matched only by the post barrier of the same slot or region; slow-path
/// writes, hints and allocation notices happen only between stores.
pub open spec fn advance(p: PendingBarrier, e: BarrierEvent) -> Option<PendingBarrier> {
    match (p, e) {
        (PendingBarrier::Idle, BarrierEvent::WritePre { slot, .. }) => Some(
            PendingBarrier::Slot { slot },
        ),
        (PendingBarrier::Slot { slot: pending }, BarrierEvent::WritePost { slot, .. }) => if pending
            == slot {
            Some(PendingBarrier::Idle)
        } else {
            None
        },
        (PendingBarrier::Idle, BarrierEvent::WriteSlow { .. }) => Some(PendingBarrier::Idle),
        (PendingBarrier::Idle, BarrierEvent::ProbableWrite { .. }) => Some(PendingBarrier::Idle),
        (
            PendingBarrier::Idle,
            BarrierEvent::RegionCopyPre { src_start, src_end, dst_start, dst_end },
        ) => Some(PendingBarrier::Region { src_start, src_end, dst_start, dst_end }),
        (
            PendingBarrier::Region { src_start: a, src_end: b, dst_start: c, dst_end: d },
            BarrierEvent::RegionCopyPost { src_start, src_end, dst_start, dst_end },
        ) => if a == src_start && b == src_end && c == dst_start && d == dst_end {
            Some(PendingBarrier::Idle)
        } else {
            None
        },
        (PendingBarrier::Idle, BarrierEvent::PostAlloc { .. }) => Some(PendingBarrier::Idle),
        _ => None,
    }
}

/// Replay a buffered event sequence through the barrier state machine from
/// the idle state; `None` when some event was illegal where it stands.
pub open spec fn replay(log: Seq<BarrierEvent>) -> Option<PendingBarrier>
    decreases log.len(),
{
    if log.len() == 0 {
        Some(PendingBarrier::Idle)
    } else {
        match replay(log.drop_last()) {
            None => None,
            Some(p) => advance(p, log.last()),
        }
    }
}

/// The slot a single-slot barrier event speaks of.
pub open spec fn written_slot(e: BarrierEvent) -> Option<usize> {
    match e {
        BarrierEvent::WritePre { slot, .. } => Some(slot),
        BarrierEvent::WritePost { slot, .. } => Some(slot),
        _ => None,
    }
}

/// Per-thread allocation and barrier state owned by the collector facade
/// between `bind_mutator` and `destroy_mutator`. Engine notifications are
/// buffered here until `flush_mutator` publishes them.
pub struct MutatorContext {
    pub live: bool,
    pub pending: PendingBarrier,
    pub buffer: Vec<BarrierEvent>,
}

/// A mutator context is well formed when its buffered events replay exactly
/// to its recorded barrier state.
pub open spec fn wf_mutator(m: MutatorContext) -> bool {
    replay(m.buffer@) == Some(m.pending)
}

impl MutatorContext {
    /// A freshly bound mutator: live, idle, empty buffer.
    pub fn new() -> (m: Self)
        ensures
            m.live,
            m.pending == PendingBarrier::Idle,
            m.buffer@ == Seq::<BarrierEvent>::empty(),
            wf_mutator(m),
    {
        MutatorContext { live: true, pending: PendingBarrier::Idle, buffer: Vec::new() }
    }
}

/// Appending an accepted event advances the replayed state by one step.
pub proof fn lemma_replay_push(log: Seq<BarrierEvent>, e: BarrierEvent)
    ensures
        replay(log.push(e)) == match replay(log) {
            None => None,
            Some(p) => advance(p, e),
        },
{
    assert(log.push(e).drop_last() =~= log);
    assert(log.push(e).last() == e);
}

proof fn lemma_write_pairs(log: Seq<BarrierEvent>)
    requires
        replay(log) is Some,
    ensures
        forall|i: int|
            0 <= i < log.len() - 1 && (#[trigger] log[i]) is WritePre ==> log[i + 1] is WritePost
                && written_slot(log[i + 1]) == written_slot(log[i]),
    decreases log.len(),
{
    if log.len() >= 2 {
        let prefix = log.drop_last();
        assert(replay(prefix) is Some);
        lemma_write_pairs(prefix);
        assert forall|i: int|
            0 <= i < log.len() - 1 && (#[trigger] log[i]) is WritePre implies log[i + 1]
            is WritePost && written_slot(log[i + 1]) == written_slot(log[i]) by {
            if i < log.len() - 2 {
                assert(prefix[i] == log[i]);
                assert(prefix[i + 1] == log[i + 1]);
            } else {
                let p = replay(prefix)->Some_0;
                assert(prefix.last() == log[i]);
                assert(replay(prefix) == match replay(prefix.drop_last()) {
                    None => None::<PendingBarrier>,
                    Some(q) => advance(q, prefix.last()),
                });
                assert(p is Slot);
                assert(advance(p, log.last()) is Some);
            }
        }
    }
}

/// Barrier pairing: in any buffered sequence that replays to the idle state,
/// every write-pre event is immediately followed by the write-post event of
/// the same slot — and by nothing else. A store taken through the slow path
/// emits no pre event, so it owes no post.
pub proof fn lemma_write_pre_matched(log: Seq<BarrierEvent>, i: int)
    requires
        replay(log) == Some(PendingBarrier::Idle),
        0 <= i < log.len(),
        log[i] is WritePre,
    ensures
        i + 1 < log.len(),
        log[i + 1] is WritePost,
        written_slot(log[i + 1]) == written_slot(log[i]),
{
    lemma_write_pairs(log);
    if i == log.len() - 1 {
        assert(advance(replay(log.drop_last())->Some_0, log.last()) is Some);
        assert(replay(log) matches Some(p) ==> p is Slot);
    }
}

} // verus!
