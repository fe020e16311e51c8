//! The derivation as mathematics: what goes into it, what each node owes,
//! and what comes out of the whole chain.

use vstd::prelude::*;
use crate::errors::Failure;
use crate::fido::CredentialView;
use crate::graph::{
    accumulator_edge, factor_edge, plan_edges, plan_len, planned_producer, planned_task,
    running_edge, tap_edge, Task,
};
use crate::kdf::Cost;
use crate::tasks::{copier_value, fido_value, hasher_value, nonce_value, password_value};

verus! {

/// What one factor brings into the derivation.
pub enum FactorInput {
    /// The bytes of a password.
    Password(Seq<u8>),
    /// What the exchange with an authenticator came to; `None` as long as
    /// the authenticator has not been asked.
    Fido(Option<Result<CredentialView, Failure>>),
}

/// What a derivation hands out, as contracts see it.
pub struct DerivationView {
    pub result_hash: Seq<u8>,
    pub pre_commitment: Seq<u8>,
    pub post_commitment: Seq<u8>,
}

/// Everything that a derivation depends on.
pub struct Script {
    /// Cost of every KDF call.
    pub cost: Cost,
    /// The two commitments; `None` where the draw failed.
    pub seeds: Seq<Option<Seq<u8>>>,
    /// The factors in order.
    pub factors: Seq<FactorInput>,
}

/// An exchange that never took place counts as one whose worker was lost.
pub open spec fn answer_or_abort(answer: Option<Result<CredentialView, Failure>>) -> Result<
    CredentialView,
    Failure,
> {
    match answer {
        Some(a) => a,
        None => Err(Failure::JoinError),
    }
}

/// The value of factor `input` on the chain block `prev`.
pub open spec fn factor_value(cost: Cost, input: FactorInput, prev: Option<Seq<u8>>) -> Result<
    Seq<u8>,
    Failure,
> {
    match input {
        FactorInput::Password(password) => password_value(cost, password, prev),
        FactorInput::Fido(answer) => fido_value(cost, prev, answer_or_abort(answer)),
    }
}

/// What a node owes, given the blocks on the edges it reads.
pub open spec fn expected(task: Task, script: Script, slots: Seq<Option<Seq<u8>>>) -> Result<
    Seq<u8>,
    Failure,
> {
    match task {
        Task::Nonce { seed, .. } => nonce_value(script.seeds[seed as int]),
        Task::Copier { input, .. } => copier_value(slots[input as int]),
        Task::Hasher { pwd, salt, .. } => hasher_value(
            script.cost,
            slots[pwd as int],
            slots[salt as int],
        ),
        Task::PasswordFactor { pwd, prev, .. } => factor_value(
            script.cost,
            script.factors[pwd as int],
            slots[prev as int],
        ),
        Task::FidoFactor { dev, prev, .. } => factor_value(
            script.cost,
            script.factors[dev as int],
            slots[prev as int],
        ),
    }
}

/// Whether a node has done what it owes: on success every edge that it
/// writes carries its value and it reports nothing; on failure it reports
/// the failure and writes no edge.
pub open spec fn holds(
    task: Task,
    script: Script,
    slots: Seq<Option<Seq<u8>>>,
    outcome: Option<Failure>,
) -> bool {
    match expected(task, script, slots) {
        Ok(value) => outcome is None && forall|e: int|
            0 <= e < slots.len() && #[trigger] task.writes(e) ==> slots[e] == Some(value),
        Err(failure) => outcome == Some(failure) && forall|e: int|
            0 <= e < slots.len() && #[trigger] task.writes(e) ==> slots[e] is None,
    }
}

/// What a node's result puts on its edges.
pub open spec fn delivered(r: Result<Seq<u8>, Failure>) -> Option<Seq<u8>> {
    match r {
        Ok(value) => Some(value),
        Err(_) => None,
    }
}

/// What a node's result has it report.
pub open spec fn reported(r: Result<Seq<u8>, Failure>) -> Option<Failure> {
    match r {
        Ok(_) => None,
        Err(failure) => Some(failure),
    }
}

impl Script {
    /// Number of factors.
    pub open spec fn n(self) -> int {
        self.factors.len() as int
    }

    /// For each factor, whether it is a hardware authenticator.
    pub open spec fn kinds(self) -> Seq<bool> {
        Seq::new(self.factors.len(), |i: int| self.factors[i] is Fido)
    }

    /// The first commitment, as it enters the chain.
    pub open spec fn pre(self) -> Option<Seq<u8>> {
        delivered(nonce_value(self.seeds[0]))
    }

    /// The second commitment, as it enters the fold chain.
    pub open spec fn post(self) -> Option<Seq<u8>> {
        delivered(nonce_value(self.seeds[1]))
    }

    /// The running block before factor `i`: the first commitment for
    /// `i == 0`, else the value of factor `i - 1` on the block before it.
    pub open spec fn chain(self, i: int) -> Option<Seq<u8>>
        decreases i,
    {
        if i <= 0 {
            self.pre()
        } else {
            delivered(factor_value(self.cost, self.factors[i - 1], self.chain(i - 1)))
        }
    }

    /// The accumulator of the fold chain after `j` steps. The seed hashes
    /// the second commitment under the last running block; step `j` hashes
    /// the running block before factor `n - j` under the accumulator.
    pub open spec fn accumulator(self, j: int) -> Option<Seq<u8>>
        decreases j,
    {
        if j <= 0 {
            delivered(hasher_value(self.cost, self.post(), self.chain(self.n())))
        } else {
            delivered(
                hasher_value(self.cost, self.chain(self.n() - j), self.accumulator(j - 1)),
            )
        }
    }

    /// The derived hash: the accumulator after every tap has been folded
    /// in. `None` where any node on the way failed.
    pub open spec fn result_hash(self) -> Option<Seq<u8>> {
        self.accumulator(self.n())
    }

    /// The block that edge `e` carries once its node has run.
    pub open spec fn edge_value(self, e: int) -> Option<Seq<u8>> {
        let n = self.n();
        if e == 0 || e == 2 || e == 4 {
            self.pre()
        } else if e == 1 || e == 3 || e == 5 {
            self.post()
        } else if e < 6 + 3 * n {
            let i = (e - 6) / 3;
            if (e - 6) % 3 == 2 {
                self.chain(i + 1)
            } else {
                self.chain(i)
            }
        } else {
            self.accumulator(e - 6 - 3 * n)
        }
    }

    /// All edges with the blocks they carry once every node has run.
    pub open spec fn edge_values(self) -> Seq<Option<Seq<u8>>> {
        Seq::new(plan_edges(self.n()) as nat, |e: int| self.edge_value(e))
    }

    /// What the node at place `k` owes once the nodes before it have run.
    pub open spec fn task_result(self, k: int) -> Result<Seq<u8>, Failure> {
        expected(planned_task(self.kinds(), k), self, self.edge_values())
    }

    /// Whether the script has two seeds and fits the machine.
    pub open spec fn wf(self) -> bool {
        self.seeds.len() == 2 && plan_edges(self.n()) <= usize::MAX
    }

    /// What every node reports once all have run.
    pub open spec fn failures(self) -> Seq<Option<Failure>> {
        Seq::new(plan_len(self.n()) as nat, |k: int| reported(self.task_result(k)))
    }

    /// How the derivation ends: with the derived hash and the two
    /// commitments, or with what every node reported.
    pub open spec fn verdict(self) -> Result<DerivationView, Seq<Option<Failure>>> {
        match (self.result_hash(), self.pre(), self.post()) {
            (Some(hash), Some(pre), Some(post)) => Ok(
                DerivationView { result_hash: hash, pre_commitment: pre, post_commitment: post },
            ),
            _ => Err(self.failures()),
        }
    }

    /// The first factor at or after `from` whose authenticator is asked:
    /// the first hardware factor there, if the chain reaches it.
    pub open spec fn next_prompt(self, from: int) -> Option<int>
        decreases self.n() - from,
    {
        if from < 0 || from >= self.n() || self.chain(from) is None {
            None
        } else if self.factors[from] is Fido {
            Some(from)
        } else {
            self.next_prompt(from + 1)
        }
    }

    /// The script once the exchange of factor `i` has come to `answer`.
    pub open spec fn answered(self, i: int, answer: Result<CredentialView, Failure>) -> Script {
        Script {
            cost: self.cost,
            seeds: self.seeds,
            factors: self.factors.update(i, FactorInput::Fido(Some(answer))),
        }
    }

    /// The script once every authenticator that the chain reaches from
    /// factor `from` on has been asked, each exchange coming to the next of
    /// `answers`; `None` where the answers run out before the prompts do.
    pub open spec fn replayed(
        self,
        from: int,
        answers: Seq<Result<CredentialView, Failure>>,
    ) -> Option<Script>
        decreases self.n() - from,
    {
        match self.next_prompt(from) {
            None => Some(self),
            Some(i) => if answers.len() == 0 || i < from || i >= self.n() {
                None
            } else {
                self.answered(i, answers[0]).replayed(i + 1, answers.drop_first())
            },
        }
    }

    /// Whether two scripts agree on everything but the factors from `i` on.
    pub open spec fn agrees_before(self, other: Script, i: int) -> bool {
        &&& self.cost == other.cost
        &&& self.seeds == other.seeds
        &&& self.factors.len() == other.factors.len()
        &&& self.kinds() == other.kinds()
        &&& forall|m: int| 0 <= m < i && m < self.n() ==> self.factors[m] == other.factors[m]
    }
}

/// A prompt lies at or after the factor from which it was looked for.
pub proof fn lemma_next_prompt_bounds(script: Script, from: int)
    ensures
        script.next_prompt(from) matches Some(i) ==> from <= i < script.n() && script.factors[i] is Fido
            && script.chain(i) is Some,
    decreases script.n() - from,
{
    if 0 <= from < script.n() && script.chain(from) is Some && !(script.factors[from] is Fido) {
        lemma_next_prompt_bounds(script, from + 1);
    }
}

/// What a node owes depends on the edges that it reads, and on no other.
pub proof fn lemma_expected_reads(
    task: Task,
    script: Script,
    a: Seq<Option<Seq<u8>>>,
    b: Seq<Option<Seq<u8>>>,
)
    requires
        forall|e: int| #[trigger] task.reads(e) ==> a[e] == b[e],
    ensures
        expected(task, script, a) == expected(task, script, b),
{
    match task {
        Task::Nonce { .. } => {},
        Task::Copier { input, .. } => {
            assert(task.reads(input as int));
        },
        Task::Hasher { pwd, salt, .. } => {
            assert(task.reads(pwd as int));
            assert(task.reads(salt as int));
        },
        Task::PasswordFactor { prev, .. } => {
            assert(task.reads(prev as int));
        },
        Task::FidoFactor { prev, .. } => {
            assert(task.reads(prev as int));
        },
    }
}

/// The equation of the two nonces and their copiers.
proof fn lemma_equation_head(script: Script, k: int, e: int)
    requires
        script.wf(),
        0 <= k < 4,
        0 <= e < plan_edges(script.n()),
        planned_task(script.kinds(), k).writes(e),
    ensures
        script.edge_value(e) == delivered(script.task_result(k)),
{
    let all = script.edge_values();
    assert(all[0] == script.edge_value(0));
    assert(all[1] == script.edge_value(1));
}

/// The equation of the copier before factor `i`.
proof fn lemma_equation_copier(script: Script, i: int, e: int)
    requires
        script.wf(),
        0 <= i < script.n(),
        e == factor_edge(i) || e == tap_edge(i),
    ensures
        script.edge_value(e) == delivered(script.task_result(4 + 2 * i)),
{
    let all = script.edge_values();
    let k = 4 + 2 * i;
    assert((k - 4) / 2 == i && (k - 4) % 2 == 0);
    let task = planned_task(script.kinds(), k);
    assert(task == Task::Copier {
        input: running_edge(i) as usize,
        output1: factor_edge(i) as usize,
        output2: tap_edge(i) as usize,
    });
    assert(all[running_edge(i)] == script.edge_value(running_edge(i)));
    if i == 0 {
        assert(script.edge_value(2) == script.chain(0));
    } else {
        assert((5 + 3 * i - 6) / 3 == i - 1 && (5 + 3 * i - 6) % 3 == 2);
        assert(script.edge_value(5 + 3 * i) == script.chain(i));
    }
    assert((factor_edge(i) - 6) / 3 == i && (factor_edge(i) - 6) % 3 == 0);
    assert((tap_edge(i) - 6) / 3 == i && (tap_edge(i) - 6) % 3 == 1);
    assert(script.edge_value(e) == script.chain(i));
}

/// The equation of the node of factor `i`.
proof fn lemma_equation_factor(script: Script, i: int)
    requires
        script.wf(),
        0 <= i < script.n(),
    ensures
        script.edge_value(running_edge(i + 1)) == delivered(script.task_result(5 + 2 * i)),
{
    let all = script.edge_values();
    let k = 5 + 2 * i;
    assert((k - 4) / 2 == i && (k - 4) % 2 == 1);
    let kinds = script.kinds();
    assert(kinds[i] == (script.factors[i] is Fido));
    let task = planned_task(kinds, k);
    assert(all[factor_edge(i)] == script.edge_value(factor_edge(i)));
    assert((factor_edge(i) - 6) / 3 == i && (factor_edge(i) - 6) % 3 == 0);
    assert(script.edge_value(factor_edge(i)) == script.chain(i));
    let e = running_edge(i + 1);
    assert(e == 8 + 3 * i);
    assert((e - 6) / 3 == i && (e - 6) % 3 == 2);
    assert(script.edge_value(e) == script.chain(i + 1));
    assert(script.task_result(k) == factor_value(script.cost, script.factors[i], script.chain(i)));
}

/// The equation of the hasher that seeds the fold chain.
proof fn lemma_equation_seed(script: Script)
    requires
        script.wf(),
    ensures
        script.edge_value(accumulator_edge(script.n(), 0)) == delivered(
            script.task_result(4 + 2 * script.n()),
        ),
{
    let n = script.n();
    let all = script.edge_values();
    assert(all[3] == script.edge_value(3));
    assert(all[running_edge(n)] == script.edge_value(running_edge(n)));
    if n == 0 {
        assert(script.edge_value(2) == script.chain(0));
    } else {
        assert((5 + 3 * n - 6) / 3 == n - 1 && (5 + 3 * n - 6) % 3 == 2);
        assert(script.edge_value(5 + 3 * n) == script.chain(n));
    }
    assert(script.edge_value(accumulator_edge(n, 0)) == script.accumulator(0));
}

/// The equation of step `j` of the fold chain.
proof fn lemma_equation_fold(script: Script, j: int)
    requires
        script.wf(),
        0 <= j < script.n(),
    ensures
        script.edge_value(accumulator_edge(script.n(), j + 1)) == delivered(
            script.task_result(5 + 2 * script.n() + j),
        ),
{
    let n = script.n();
    let all = script.edge_values();
    let i = n - 1 - j;
    let k = 5 + 2 * n + j;
    let task = planned_task(script.kinds(), k);
    assert(task == Task::Hasher {
        pwd: tap_edge(i) as usize,
        salt: accumulator_edge(n, j) as usize,
        res: accumulator_edge(n, j + 1) as usize,
    });
    assert(all[tap_edge(i)] == script.edge_value(tap_edge(i)));
    assert((tap_edge(i) - 6) / 3 == i && (tap_edge(i) - 6) % 3 == 1);
    assert(script.edge_value(tap_edge(i)) == script.chain(i));
    assert(all[accumulator_edge(n, j)] == script.edge_value(accumulator_edge(n, j)));
    assert(script.edge_value(accumulator_edge(n, j)) == script.accumulator(j));
    assert(script.edge_value(accumulator_edge(n, j + 1)) == script.accumulator(j + 1));
    assert(n - (j + 1) == i);
}

/// Every edge carries what the node that writes it owes.
pub proof fn lemma_plan_equation(script: Script, k: int, e: int)
    requires
        script.wf(),
        0 <= k < plan_len(script.n()),
        0 <= e < plan_edges(script.n()),
        planned_task(script.kinds(), k).writes(e),
    ensures
        script.edge_value(e) == delivered(script.task_result(k)),
{
    let n = script.n();
    if k < 4 {
        lemma_equation_head(script, k, e);
    } else if k < 4 + 2 * n {
        let i = (k - 4) / 2;
        if (k - 4) % 2 == 0 {
            assert(k == 4 + 2 * i);
            lemma_equation_copier(script, i, e);
        } else {
            assert(k == 5 + 2 * i);
            lemma_equation_factor(script, i);
        }
    } else if k == 4 + 2 * n {
        lemma_equation_seed(script);
    } else {
        let j = k - 5 - 2 * n;
        lemma_equation_fold(script, j);
    }
}

/// The running blocks before factor `i` and before depend on the factors
/// before `i` alone.
pub proof fn lemma_chain_prefix(a: Script, b: Script, i: int, m: int)
    requires
        a.agrees_before(b, i),
        0 <= m <= i,
        m <= a.n(),
    ensures
        a.chain(m) == b.chain(m),
    decreases m,
{
    if m > 0 {
        lemma_chain_prefix(a, b, i, m - 1);
    }
}

/// What the nodes before the node of factor `i` owe, and what the edges
/// they write carry, depends on the factors before `i` alone.
pub proof fn lemma_prefix(a: Script, b: Script, i: int)
    requires
        a.wf(),
        a.agrees_before(b, i),
        0 <= i < a.n(),
    ensures
        forall|e: int|
            0 <= e < plan_edges(a.n()) && planned_producer(a.n(), e) < 5 + 2 * i
                ==> #[trigger] a.edge_value(e) == b.edge_value(e),
        forall|k: int| 0 <= k < 5 + 2 * i ==> #[trigger] a.task_result(k) == b.task_result(k),
{
    let n = a.n();
    assert forall|e: int|
        0 <= e < plan_edges(n) && planned_producer(n, e) < 5 + 2 * i implies #[trigger] a.edge_value(
        e,
    ) == b.edge_value(e) by {
        if 6 <= e < 6 + 3 * n {
            let x = (e - 6) / 3;
            if (e - 6) % 3 == 2 {
                lemma_chain_prefix(a, b, i, x + 1);
            } else {
                lemma_chain_prefix(a, b, i, x);
            }
        }
    }
    assert forall|k: int| 0 <= k < 5 + 2 * i implies #[trigger] a.task_result(k) == b.task_result(
        k,
    ) by {
        let task = planned_task(a.kinds(), k);
        let va = a.edge_values();
        let vb = b.edge_values();
        assert forall|e: int| #[trigger] task.reads(e) implies va[e] == vb[e] by {
            assert(0 <= e < plan_edges(n));
            assert(planned_producer(n, e) < k);
            assert(a.edge_value(e) == b.edge_value(e));
        }
        lemma_expected_reads(task, a, va, vb);
        if 4 <= k < 4 + 2 * n && (k - 4) % 2 == 1 {
            let x = (k - 4) / 2;
            assert(a.factors[x] == b.factors[x]);
        }
        assert(expected(task, a, vb) == expected(task, b, vb));
    }
}

} // verus!
