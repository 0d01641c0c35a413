use crate::lifecycle::{PeerState, Sessions};
use crate::registry::{alloc_step, Registry};
use std::sync::Arc;
use vstd::prelude::*;

verus! {

/// `ms[i + 1]` comes from `ms[i]` by an allocation that returned `hs[i]`,
/// for each `i`.
pub open spec fn alloc_run<T>(ms: Seq<Map<u32, Arc<T>>>, hs: Seq<u32>) -> bool {
    &&& ms.len() == hs.len() + 1
    &&& forall|i: int| 0 <= i < hs.len() ==> alloc_step(ms[i], #[trigger] hs[i], ms[i + 1])
}

proof fn lemma_alloc_run_keeps<T>(ms: Seq<Map<u32, Arc<T>>>, hs: Seq<u32>, j: int, k: int)
    requires
        alloc_run(ms, hs),
        0 <= j < k < ms.len(),
    ensures
        ms[k].contains_key(hs[j]),
    decreases k - j,
{
    if k == j + 1 {
        assert(alloc_step(ms[j], hs[j], ms[j + 1]));
    } else {
        lemma_alloc_run_keeps(ms, hs, j, k - 1);
        assert(alloc_step(ms[k - 1], hs[k - 1], ms[k]));
    }
}

/// Handles returned by successive allocations, with no removal between
/// them, are pairwise distinct.
pub proof fn lemma_allocated_handles_distinct<T>(ms: Seq<Map<u32, Arc<T>>>, hs: Seq<u32>)
    requires
        alloc_run(ms, hs),
    ensures
        forall|i: int, j: int| 0 <= i < j < hs.len() ==> hs[i] != hs[j],
{
    assert forall|i: int, j: int| 0 <= i < j < hs.len() implies hs[i] != hs[j] by {
        lemma_alloc_run_keeps(ms, hs, i, j);
        assert(alloc_step(ms[j], hs[j], ms[j + 1]));
    }
}

/// Removing the same handle twice leaves the registry as removing it once.
pub proof fn lemma_del_idempotent<T>(r0: Registry<T>, h: u32, r1: Registry<T>, r2: Registry<T>)
    requires
        Registry::del_step(r0, h, r1),
        Registry::del_step(r1, h, r2),
    ensures
        r2.model() == r1.model(),
        r2@ == r1@,
{
}

/// Once a handle is removed, it stays absent while the allocations that
/// follow return other handles.
pub proof fn lemma_removed_stays_absent<T>(
    r0: Registry<T>,
    h: u32,
    r1: Registry<T>,
    ms: Seq<Map<u32, Arc<T>>>,
    hs: Seq<u32>,
)
    requires
        Registry::del_step(r0, h, r1),
        alloc_run(ms, hs),
        ms[0] == r1@,
        forall|i: int| 0 <= i < hs.len() ==> hs[i] != h,
    ensures
        forall|k: int| 0 <= k < ms.len() ==> !(#[trigger] ms[k]).contains_key(h),
{
    assert forall|k: int| 0 <= k < ms.len() implies !(#[trigger] ms[k]).contains_key(h) by {
        lemma_absent_through_run(ms, hs, h, k);
    }
}

proof fn lemma_absent_through_run<T>(ms: Seq<Map<u32, Arc<T>>>, hs: Seq<u32>, h: u32, k: int)
    requires
        alloc_run(ms, hs),
        !ms[0].contains_key(h),
        forall|i: int| 0 <= i < hs.len() ==> hs[i] != h,
        0 <= k < ms.len(),
    ensures
        !ms[k].contains_key(h),
    decreases k,
{
    if k > 0 {
        lemma_absent_through_run(ms, hs, h, k - 1);
        assert(alloc_step(ms[k - 1], hs[k - 1], ms[k]));
    }
}

/// For a live registration in state `New` with no answer yet, the answer
/// and the abandonment timeout exclude each other: whichever comes first
/// takes effect and the other does nothing. When the timeout comes first,
/// the connection is removed once, and a later timeout removes nothing.
pub proof fn lemma_answer_or_reap<C>(
    s0: Sessions<C>,
    h: u32,
    t: u64,
    a1: Sessions<C>,
    applied_first: bool,
    a2: Sessions<C>,
    removed_after: bool,
    b1: Sessions<C>,
    removed_first: bool,
    b2: Sessions<C>,
    applied_after: bool,
    b3: Sessions<C>,
    removed_again: bool,
)
    requires
        s0.holds(h, t),
        !s0.answered_handles().contains(h),
        Sessions::answer_step(s0, h, a1, applied_first),
        Sessions::reap_step(a1, h, t, PeerState::New, a2, removed_after),
        Sessions::reap_step(s0, h, t, PeerState::New, b1, removed_first),
        Sessions::answer_step(b1, h, b2, applied_after),
        Sessions::reap_step(b2, h, t, PeerState::New, b3, removed_again),
    ensures
        applied_first && !removed_after && a2@.contains_key(h),
        removed_first && !applied_after && !removed_again && !b3@.contains_key(h),
{
}

/// A timeout or a state change scheduled for an earlier registration never
/// touches a connection registered later under the same handle: the later
/// registration's token differs from every token issued before it.
pub proof fn lemma_stale_token_spares_reuse<C>(
    s0: Sessions<C>,
    t_old: u64,
    s1: Sessions<C>,
    h: u32,
    t_new: u64,
    state: PeerState,
    s2: Sessions<C>,
    reaped: bool,
    s3: Sessions<C>,
    changed: bool,
)
    requires
        t_old < s0.next_token(),
        Sessions::reap_step(s1, h, t_old, state, s2, reaped),
        Sessions::change_step(s1, h, t_old, state, s3, changed),
        s1.holds(h, t_new),
        t_new >= s0.next_token(),
    ensures
        t_new != t_old,
        !reaped && s2@ == s1@,
        !changed && s3@ == s1@,
{
}

} // verus!
