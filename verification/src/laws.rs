//! What holds of every derivation.

use vstd::prelude::*;
use crate::errors::Failure;
use crate::fido::CredentialView;
use crate::graph::{plan_edges, plan_len, planned_task, Task};
use crate::model::{
    delivered, lemma_plan_equation, FactorInput, Script,
};
use crate::tasks::hasher_value;

verus! {

/// Once the chain has lost its running block, it does not get one back.
pub proof fn lemma_chain_breaks(script: Script, i: int, m: int)
    requires
        0 <= i <= m,
        script.chain(i) is None,
    ensures
        script.chain(m) is None,
    decreases m - i,
{
    if i < m {
        lemma_chain_breaks(script, i, m - 1);
    }
}

/// Once the fold chain has lost its accumulator, it does not get one back.
pub proof fn lemma_fold_breaks(script: Script, j: int, m: int)
    requires
        0 <= j <= m,
        script.accumulator(j) is None,
    ensures
        script.accumulator(m) is None,
    decreases m - j,
{
    if j < m {
        lemma_fold_breaks(script, j, m - 1);
    }
}

/// Where a hash is derived, every edge of the graph has carried a block.
pub proof fn lemma_result_needs_all(script: Script, e: int)
    requires
        script.wf(),
        0 <= e < plan_edges(script.n()),
        script.result_hash() is Some,
    ensures
        script.edge_value(e) is Some,
{
    let n = script.n();
    if script.accumulator(0) is None {
        lemma_fold_breaks(script, 0, n);
    }
    assert(script.post() is Some && script.chain(n) is Some);
    if script.chain(0) is None {
        lemma_chain_breaks(script, 0, n);
    }
    if e < 6 {
    } else if e < 6 + 3 * n {
        let i = (e - 6) / 3;
        if (e - 6) % 3 == 2 {
            if script.chain(i + 1) is None {
                lemma_chain_breaks(script, i + 1, n);
            }
        } else {
            if script.chain(i) is None {
                lemma_chain_breaks(script, i, n);
            }
        }
    } else {
        let j = e - 6 - 3 * n;
        if script.accumulator(j) is None {
            lemma_fold_breaks(script, j, n);
        }
    }
}

/// An edge that the node at place `k` writes.
pub open spec fn an_output(task: Task) -> int {
    match task {
        Task::Nonce { nonce, .. } => nonce as int,
        Task::Copier { output1, .. } => output1 as int,
        Task::Hasher { res, .. } => res as int,
        Task::PasswordFactor { res, .. } => res as int,
        Task::FidoFactor { res, .. } => res as int,
    }
}

/// Every node writes an edge of the graph.
pub proof fn lemma_node_writes(script: Script, k: int)
    requires
        script.wf(),
        0 <= k < plan_len(script.n()),
    ensures
        planned_task(script.kinds(), k).writes(an_output(planned_task(script.kinds(), k))),
        0 <= an_output(planned_task(script.kinds(), k)) < plan_edges(script.n()),
{
}

/// Failure cascades: where any single node fails, no hash is derived, and
/// the derivation as a whole fails.
pub proof fn lemma_failure_cascades(script: Script, k: int)
    requires
        script.wf(),
        0 <= k < plan_len(script.n()),
        script.task_result(k) is Err,
    ensures
        script.result_hash() is None,
        script.verdict() is Err,
{
    let e = an_output(planned_task(script.kinds(), k));
    lemma_node_writes(script, k);
    lemma_plan_equation(script, k, e);
    if script.result_hash() is Some {
        lemma_result_needs_all(script, e);
    }
}

/// No failure is dropped: the derivation succeeds exactly where every node
/// does, and then no node reports anything.
pub proof fn lemma_verdict_counts_every_node(script: Script)
    requires
        script.wf(),
    ensures
        script.verdict() is Ok <==> forall|k: int|
            0 <= k < plan_len(script.n()) ==> (#[trigger] script.task_result(k)) is Ok,
        script.verdict() is Ok <==> script.result_hash() is Some,
{
    let n = script.n();
    if script.result_hash() is Some {
        lemma_result_needs_all(script, 4);
        lemma_result_needs_all(script, 5);
        assert forall|k: int| 0 <= k < plan_len(n) implies (#[trigger] script.task_result(
            k,
        )) is Ok by {
            if script.task_result(k) is Err {
                lemma_failure_cascades(script, k);
            }
        }
    } else {
        let last = plan_len(n) - 1;
        let e = an_output(planned_task(script.kinds(), last));
        lemma_node_writes(script, last);
        lemma_plan_equation(script, last, e);
        assert(e == 6 + 4 * n);
        assert(script.edge_value(e) == script.result_hash());
        assert(script.task_result(last) is Err);
    }
}

/// Determinism: scripts of the same cost, commitments, passwords and
/// exchanges end in the same verdict, and so in the same hash.
pub proof fn lemma_determinism(a: Script, b: Script)
    requires
        a.cost == b.cost,
        a.seeds =~= b.seeds,
        a.factors =~= b.factors,
    ensures
        a.verdict() == b.verdict(),
        a.result_hash() == b.result_hash(),
{
}

/// Without factors the hash is that of the second commitment under the
/// first, and the derivation succeeds wherever both commitments are there
/// and the KDF takes two blocks at its cost.
pub proof fn lemma_empty_chain(script: Script)
    requires
        script.wf(),
        script.n() == 0,
    ensures
        script.result_hash() == delivered(
            hasher_value(script.cost, script.seeds[1], script.seeds[0]),
        ),
        (script.seeds[0] matches Some(pre) && script.seeds[1] matches Some(post)
            && script.cost.accepts(post.len(), pre.len())) ==> script.verdict() is Ok,
{
    lemma_verdict_counts_every_node(script);
}

/// An exchange that failed, for low entropy or for any other reason, never
/// yields a key: where the chain reaches the factor, the factor's node
/// reports the failure of the exchange, and no hash is derived either way.
pub proof fn lemma_failed_exchange_yields_no_key(script: Script, i: int, failure: Failure)
    requires
        script.wf(),
        0 <= i < script.n(),
        script.factors[i] == FactorInput::Fido(Some(Err::<CredentialView, Failure>(failure))),
    ensures
        script.chain(i) is Some ==> script.task_result(5 + 2 * i) == Err::<Seq<u8>, Failure>(
            failure,
        ),
        script.result_hash() is None,
        script.verdict() is Err,
{
    let k = 5 + 2 * i;
    assert((k - 4) / 2 == i && (k - 4) % 2 == 1);
    assert(script.kinds()[i]);
    let e = an_output(planned_task(script.kinds(), k));
    lemma_node_writes(script, k);
    lemma_plan_equation(script, k, e);
    assert(e == 8 + 3 * i);
    assert((e - 6) / 3 == i && (e - 6) % 3 == 2);
    assert(script.edge_value(e) == script.chain(i + 1));
    assert(script.chain(i + 1) is None);
    assert(script.task_result(k) is Err);
    lemma_failure_cascades(script, k);
    if script.chain(i) is Some {
        let all = script.edge_values();
        assert(all[6 + 3 * i] == script.edge_value(6 + 3 * i));
        assert((6 + 3 * i - 6) / 3 == i && (6 + 3 * i - 6) % 3 == 0);
    }
}

} // verus!
