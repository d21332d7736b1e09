//! Acyclicity of the cross-module call graph.
//!
//! A generated universe only lets a module call into modules already
//! finalized when it was built, so call edges always point backward in
//! generation order, and the graph formed by (module, called module) edges
//! is a rooted DAG. The lemmas here state that as a theorem over the
//! registry: under the registry invariant, with pairwise distinct module
//! identities, no call path returns to its starting module.

use vstd::prelude::*;

verus! {

use crate::builder::{entry_refs_earlier, module_refs, universe_wf, KnownModule};

/// Entry `i` calls into entry `j`: some non-self module handle of module
/// `i` resolves to the identity of entry `j`.
pub open spec fn calls_into(u: Seq<KnownModule>, i: int, j: int) -> bool {
    module_refs(u[i].module.inner, u[j].id@)
}

/// The registry keys are pairwise distinct, as befits a mapping.
pub open spec fn distinct_ids(u: Seq<KnownModule>) -> bool {
    forall|j1: int, j2: int| 0 <= j1 < j2 < u.len() ==> u[j1].id@ != u[j2].id@
}

/// A path through the call graph: every step follows a call edge.
pub open spec fn is_call_path(u: Seq<KnownModule>, p: Seq<int>) -> bool {
    &&& (forall|t: int| 0 <= t < p.len() ==> 0 <= #[trigger] p[t] < u.len())
    &&& (forall|t: int| 0 <= t < p.len() - 1 ==> #[trigger] calls_into(u, p[t], p[t + 1]))
}

/// In a well-formed universe with distinct identities, every call edge
/// points strictly backward in generation order.
pub proof fn lemma_calls_backward(u: Seq<KnownModule>, ts: usize, i: int, j: int)
    requires
        universe_wf(u, ts),
        distinct_ids(u),
        0 <= i < u.len(),
        0 <= j < u.len(),
        calls_into(u, i, j),
    ensures
        j < i,
{
    assert(entry_refs_earlier(u, i));
    let j2 = choose|j2: int| 0 <= j2 < i && u[j2].id@ == u[j].id@;
    if j2 < j {
        assert(u[j2].id@ != u[j].id@);
    }
    if j < j2 {
        assert(u[j].id@ != u[j2].id@);
    }
}

/// Along any call path, indices decrease by at least one per step.
pub proof fn lemma_path_descends(u: Seq<KnownModule>, ts: usize, p: Seq<int>)
    requires
        universe_wf(u, ts),
        distinct_ids(u),
        is_call_path(u, p),
        p.len() >= 1,
    ensures
        p.last() <= p[0] - (p.len() - 1),
    decreases p.len(),
{
    if p.len() >= 2 {
        assert(calls_into(u, p[0int], p[0int + 1]));
        lemma_calls_backward(u, ts, p[0], p[1]);
        let q = p.drop_first();
        assert forall|t: int| 0 <= t < q.len() implies 0 <= #[trigger] q[t] < u.len() by {
            assert(q[t] == p[t + 1]);
        }
        assert forall|t: int| 0 <= t < q.len() - 1 implies #[trigger] calls_into(
            u,
            q[t],
            q[t + 1],
        ) by {
            assert(q[t] == p[t + 1]);
            assert(q[t + 1] == p[t + 2]);
            assert(calls_into(u, p[t + 1], p[t + 2]));
        }
        lemma_path_descends(u, ts, q);
        assert(q.last() == p.last());
        assert(q[0] == p[1]);
    }
}

/// The call graph of a generated universe contains no cycle: any path of
/// at least one call edge ends strictly below its starting module in
/// generation order, so no path can return to its start.
pub proof fn lemma_universe_acyclic(u: Seq<KnownModule>, ts: usize, p: Seq<int>)
    requires
        universe_wf(u, ts),
        distinct_ids(u),
        is_call_path(u, p),
        p.len() >= 2,
    ensures
        p.last() < p[0],
{
    lemma_path_descends(u, ts, p);
}

} // verus!
