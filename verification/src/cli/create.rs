//! Creating a chain: the executor that runs the derivation graph.
//!
//! The executor runs the nodes in order. Before a hardware factor it stops
//! and hands out what to ask of the authenticator; with the answer it goes
//! on. What it ends in is a function of the script alone: the cost, the two
//! commitments, the passwords, and what each exchange came to.

use vstd::prelude::*;
use vstd::utf8::encode_utf8;
use crate::block::{new_random_block, Block};
use crate::errors::{Failure, TaskError};
use crate::factor::{kinds_of, Factor};
use crate::fido::{
    answer_view, fido_request, spec_pin_prompt, spec_relying_party_id, Credential,
    CredentialView, FidoRequest,
};
use crate::graph::{
    factor_edge, lemma_plan_is_sound, plan_edges, plan_len, planned_producer, planned_task,
    running_edge, Graph, Task,
};
use crate::kdf::Cost;
use crate::model::{
    expected, lemma_expected_reads, lemma_next_prompt_bounds, lemma_plan_equation, lemma_prefix,
    reported, DerivationView, FactorInput, Script,
};
use crate::run::{given_view, report_view, run_task, views};
use crate::tasks::carried;

verus! {

/// What a derivation hands out.
pub struct DerivationResult {
    /// The derived hash: the key material.
    pub result_hash: Block,
    /// The first commitment; not secret, kept to derive again.
    pub pre_commitment: Block,
    /// The second commitment; not secret, kept to derive again.
    pub post_commitment: Block,
}

impl View for DerivationResult {
    type V = DerivationView;

    open spec fn view(&self) -> DerivationView {
        DerivationView {
            result_hash: self.result_hash@,
            pre_commitment: self.pre_commitment@,
            post_commitment: self.post_commitment@,
        }
    }
}

/// What the nodes reported, as contracts see it.
pub open spec fn reports_view(outcomes: Seq<Option<TaskError>>) -> Seq<Option<Failure>> {
    Seq::new(outcomes.len(), |k: int| report_view(outcomes[k]))
}

/// How a derivation ended, as contracts see it.
pub open spec fn verdict_view(r: Result<DerivationResult, Vec<Option<TaskError>>>) -> Result<
    DerivationView,
    Seq<Option<Failure>>,
> {
    match r {
        Ok(result) => Ok(result@),
        Err(outcomes) => Err(reports_view(outcomes@)),
    }
}

/// What the factors bring into a derivation before any authenticator has
/// been asked.
pub open spec fn opening_inputs(factors: Seq<Factor>) -> Seq<FactorInput> {
    Seq::new(
        factors.len(),
        |i: int|
            match factors[i] {
                Factor::Password(s) => FactorInput::Password(encode_utf8(s@)),
                Factor::Fido(_) => FactorInput::Fido(None),
            },
    )
}

/// The script of a derivation before any authenticator has been asked.
pub open spec fn opening(
    cost: Cost,
    factors: Seq<Factor>,
    pre: Option<Seq<u8>>,
    post: Option<Seq<u8>>,
) -> Script {
    Script { cost, seeds: seq![pre, post], factors: opening_inputs(factors) }
}

/// Number of factors that lie behind the executor once `done` nodes have
/// run.
pub open spec fn settled_after(done: int) -> int {
    if done < 4 {
        0
    } else {
        (done - 4) / 2
    }
}

/// Whether the parts of an executor belong together: the graph is the one
/// planned for the factors, the script tells of the factors, every edge
/// whose node has run carries what the script gives it, every other edge is
/// empty, and every node that has run reported what the script gives it.
pub closed spec fn consistent(
    cost: Cost,
    factors: Seq<Factor>,
    seeds: Seq<Option<Block>>,
    graph: Graph,
    slots: Seq<Option<Block>>,
    outcomes: Seq<Option<TaskError>>,
    script: Script,
) -> bool {
    let n = factors.len() as int;
    let done = outcomes.len() as int;
    &&& script.wf()
    &&& script.cost == cost
    &&& seeds.len() == 2
    &&& script.seeds == views(seeds)
    &&& script.factors.len() == n
    &&& forall|i: int|
        0 <= i < n ==> match #[trigger] factors[i] {
            Factor::Password(s) => script.factors[i] == FactorInput::Password(encode_utf8(s@)),
            Factor::Fido(_) => script.factors[i] is Fido,
        }
    &&& graph.follows_plan(script.kinds())
    &&& slots.len() == plan_edges(n)
    &&& done <= plan_len(n)
    &&& forall|e: int|
        0 <= e < slots.len() ==> #[trigger] carried(slots[e]) == if planned_producer(n, e)
            < done {
            script.edge_value(e)
        } else {
            None
        }
    &&& forall|k: int|
        0 <= k < done ==> #[trigger] report_view(outcomes[k]) == reported(script.task_result(k))
}

/// Whether no exchange is on record for a factor whose node has not run.
pub closed spec fn unasked(factors: Seq<Factor>, done: int, script: Script) -> bool {
    forall|i: int|
        0 <= i < factors.len() && 5 + 2 * i >= done && factors[i] is Fido
            ==> #[trigger] script.factors[i] == FactorInput::Fido(None)
}

/// Runs the next node and keeps the parts consistent.
fn step(
    cost: &Cost,
    factors: &Vec<Factor>,
    seeds: &Vec<Option<Block>>,
    graph: &Graph,
    slots: &mut Vec<Option<Block>>,
    outcomes: &mut Vec<Option<TaskError>>,
    answer: Option<Result<Credential, TaskError>>,
    Ghost(script): Ghost<Script>,
)
    requires
        consistent(*cost, factors@, seeds@, *graph, old(slots)@, old(outcomes)@, script),
        old(outcomes)@.len() < plan_len(factors@.len() as int),
        graph.tasks@[old(outcomes)@.len() as int] matches Task::FidoFactor { dev, .. }
            ==> script.factors[dev as int] == FactorInput::Fido(given_view(answer)),
    ensures
        consistent(*cost, factors@, seeds@, *graph, final(slots)@, final(outcomes)@, script),
        final(outcomes)@.len() == old(outcomes)@.len() + 1,
{
    let ghost n = factors@.len() as int;
    let ghost kinds = script.kinds();
    let done: usize = outcomes.len();
    let task = graph.tasks[done];
    let ghost before = slots@;
    proof {
        lemma_plan_is_sound(*graph, kinds);
        assert(kinds_of(factors@) =~= kinds);
        assert(task == planned_task(kinds, done as int));
        assert(task.fits(kinds));
        assert forall|e: int| #[trigger] task.writes(e) implies 0 <= e < slots@.len()
            && !task.reads(e) && slots@[e] is None by {
            assert(graph.producer@[e] == done);
            assert(carried(slots@[e]) is None);
        }
        match task {
            Task::PasswordFactor { pwd, .. } => {
                assert(kinds[pwd as int] == (script.factors[pwd as int] is Fido));
                assert(factors@[pwd as int] is Password);
            },
            _ => {},
        }
    }
    let outcome = run_task(task, cost, factors, seeds, answer, slots, Ghost(script));
    proof {
        let after = views(slots@);
        let all = script.edge_values();
        assert forall|e: int| #[trigger] task.reads(e) implies after[e] == all[e] by {
            assert(graph.producer@[e] < done);
            assert(!task.writes(e));
            assert(carried(before[e]) == script.edge_value(e));
        }
        lemma_expected_reads(task, script, after, all);
        assert(expected(task, script, after) == script.task_result(done as int));
        assert forall|e: int| 0 <= e < slots@.len() implies #[trigger] carried(slots@[e]) == if planned_producer(
            n,
            e,
        ) < done + 1 {
            script.edge_value(e)
        } else {
            None
        } by {
            if task.writes(e) {
                assert(graph.producer@[e] == done);
                lemma_plan_equation(script, done as int, e);
                assert(after[e] == carried(slots@[e]));
            } else {
                assert(slots@[e] == before[e]);
                assert(carried(before[e]) == if planned_producer(n, e) < done {
                    script.edge_value(e)
                } else {
                    None
                });
                if planned_producer(n, e) == done {
                    assert(graph.tasks@[graph.producer@[e] as int].writes(e));
                }
            }
        }
    }
    let ghost reports = outcomes@;
    outcomes.push(outcome);
    proof {
        assert forall|k: int| 0 <= k < done + 1 implies #[trigger] report_view(outcomes@[k])
            == reported(script.task_result(k)) by {
            if k < done {
                assert(outcomes@[k] == reports[k]);
                assert(report_view(reports[k]) == reported(script.task_result(k)));
            }
        }
    }
}

/// A derivation under way.
pub struct Executor {
    cost: Cost,
    factors: Vec<Factor>,
    seeds: Vec<Option<Block>>,
    graph: Graph,
    slots: Vec<Option<Block>>,
    outcomes: Vec<Option<TaskError>>,
    script: Ghost<Script>,
}

/// A derivation that waits for an authenticator's answer.
pub struct Pending {
    executor: Executor,
    factor: usize,
    request: FidoRequest,
}

/// Where a derivation stands after it has gone as far as it can.
pub enum Progress {
    /// A hardware factor is next: its authenticator has to be asked.
    Authenticate(Pending),
    /// Every node has run: the result, or what each node reported.
    Finished(Result<DerivationResult, Vec<Option<TaskError>>>),
}

impl Executor {
    #[verifier::type_invariant]
    spec fn inv(self) -> bool {
        &&& consistent(
            self.cost,
            self.factors@,
            self.seeds@,
            self.graph,
            self.slots@,
            self.outcomes@,
            self.script@,
        )
        &&& unasked(self.factors@, self.outcomes@.len() as int, self.script@)
    }

    /// Everything that the derivation depends on, as far as it is known.
    pub closed spec fn script(self) -> Script {
        self.script@
    }

    /// The factors in order.
    pub closed spec fn factors(self) -> Seq<Factor> {
        self.factors@
    }

    /// Number of factors that lie behind: each has run, or failed for want
    /// of its input.
    pub closed spec fn settled(self) -> int {
        settled_after(self.outcomes@.len() as int)
    }

    /// Number of nodes that have run.
    pub closed spec fn done(self) -> int {
        self.outcomes@.len() as int
    }

    /// Number of nodes in all.
    pub closed spec fn total(self) -> int {
        plan_len(self.factors@.len() as int)
    }

    /// How far the derivation has come: the nodes that have run, and the
    /// nodes in all.
    pub fn progress(&self) -> (p: (usize, usize))
        ensures
            p.0 == self.done(),
            p.1 == self.total(),
            p.0 <= p.1,
    {
        proof {
            use_type_invariant(self);
        }
        (self.outcomes.len(), self.graph.tasks.len())
    }

    /// An executor for `factors` under the given commitments. A commitment
    /// that is missing makes its nonce node fail.
    pub fn with_commitments(
        cost: Cost,
        factors: Vec<Factor>,
        pre: Option<Block>,
        post: Option<Block>,
    ) -> (executor: Executor)
        requires
            plan_edges(factors@.len() as int) <= usize::MAX,
        ensures
            executor.script() == opening(cost, factors@, carried(pre), carried(post)),
            executor.factors() == factors@,
            executor.settled() == 0,
            executor.done() == 0,
            executor.total() == plan_len(factors@.len() as int),
    {
        let graph = Graph::build(&factors);
        let mut seeds: Vec<Option<Block>> = Vec::new();
        seeds.push(pre);
        seeds.push(post);
        let mut slots: Vec<Option<Block>> = Vec::new();
        let edges: usize = graph.producer.len();
        let mut e: usize = 0;
        while e < edges
            invariant
                e <= edges,
                slots@.len() == e,
                forall|d: int| 0 <= d < e ==> slots@[d] is None,
            decreases edges - e,
        {
            slots.push(None);
            e += 1;
        }
        let ghost script = opening(cost, factors@, carried(pre), carried(post));
        proof {
            assert(script.seeds =~= views(seeds@));
            assert(script.kinds() =~= kinds_of(factors@));
        }
        Executor {
            cost,
            factors,
            seeds,
            graph,
            slots,
            outcomes: Vec::new(),
            script: Ghost(script),
        }
    }

    /// An executor for `factors` under two commitments drawn afresh from
    /// the system's random number generator.
    pub fn new(cost: Cost, factors: Vec<Factor>) -> (executor: Executor)
        requires
            plan_edges(factors@.len() as int) <= usize::MAX,
        ensures
            executor.script() == opening(
                cost,
                factors@,
                executor.script().seeds[0],
                executor.script().seeds[1],
            ),
            executor.factors() == factors@,
            executor.settled() == 0,
    {
        let pre = new_random_block();
        let post = new_random_block();
        Executor::with_commitments(cost, factors, pre, post)
    }

    /// Runs every node that can run without an authenticator.
    ///
    /// Stops before the first hardware factor that the chain reaches, with
    /// what to ask of its authenticator; where there is none, runs to the
    /// end, with the verdict of the script.
    pub fn advance(self) -> (progress: Progress)
        ensures
            match progress {
                Progress::Authenticate(pending) => {
                    let i = pending.spec_factor();
                    &&& self.script().next_prompt(self.settled()) == Some(i)
                    &&& pending.script() == self.script()
                    &&& pending.factors() == self.factors()
                    &&& pending.asks(self.script().chain(i)->Some_0)
                },
                Progress::Finished(r) => {
                    &&& self.script().next_prompt(self.settled()) is None
                    &&& verdict_view(r) == self.script().verdict()
                },
            },
    {
        proof {
            use_type_invariant(&self);
        }
        let ghost start = self.settled();
        let Executor { cost, factors, seeds, graph, mut slots, mut outcomes, script } = self;
        let ghost n = factors@.len() as int;
        let total: usize = graph.tasks.len();
        while outcomes.len() < total
            invariant
                consistent(cost, factors@, seeds@, graph, slots@, outcomes@, script@),
                unasked(factors@, outcomes@.len() as int, script@),
                total == plan_len(n),
                n == factors@.len(),
                script@ == self.script(),
                factors@ == self.factors(),
                start == self.settled(),
                script@.next_prompt(start) == script@.next_prompt(
                    settled_after(outcomes@.len() as int),
                ),
            decreases total - outcomes@.len(),
        {
            let done: usize = outcomes.len();
            let task = graph.tasks[done];
            let ghost kinds = script@.kinds();
            proof {
                lemma_plan_is_sound(graph, kinds);
                assert(task == planned_task(kinds, done as int));
                assert(task.fits(kinds));
            }
            match task {
                Task::FidoFactor { dev, prev, res } => {
                    proof {
                        assert(task.reads(prev as int));
                        assert(done == 5 + 2 * dev);
                        assert(prev == factor_edge(dev as int));
                        assert(settled_after(done as int) == dev);
                        assert(kinds[dev as int] == (script@.factors[dev as int] is Fido));
                        assert(carried(slots@[prev as int]) == script@.edge_value(prev as int));
                        assert(script@.edge_value(prev as int) == script@.chain(dev as int));
                    }
                    match slots[prev] {
                        Some(block) => {
                            match &factors[dev] {
                                Factor::Fido(item) => {
                                    let request = fido_request(&block, item.device_name.as_str());
                                    let executor = Executor {
                                        cost,
                                        factors,
                                        seeds,
                                        graph,
                                        slots,
                                        outcomes,
                                        script,
                                    };
                                    let pending = Pending { executor, factor: dev, request };
                                    return Progress::Authenticate(pending);
                                },
                                Factor::Password(_) => {},
                            }
                        },
                        None => {},
                    }
                    proof {
                        assert(factors@[dev as int] is Fido);
                        assert(script@.factors[dev as int] == FactorInput::Fido(None));
                        assert(script@.chain(dev as int) is None);
                        assert(script@.chain(dev as int + 1) is None);
                        assert(settled_after(done as int + 1) == dev + 1);
                    }
                },
                Task::PasswordFactor { pwd, prev, res } => {
                    proof {
                        assert(task.reads(prev as int));
                        assert(done == 5 + 2 * pwd);
                        assert(settled_after(done as int) == pwd);
                        assert(settled_after(done as int + 1) == pwd + 1);
                        assert(kinds[pwd as int] == (script@.factors[pwd as int] is Fido));
                    }
                },
                Task::Copier { .. } => {
                    proof {
                        if done >= 4 {
                            assert(done < 4 + 2 * n && (done - 4) % 2 == 0);
                        }
                        assert(settled_after(done as int + 1) == settled_after(done as int));
                    }
                },
                Task::Nonce { .. } => {
                    proof {
                        assert(done < 2);
                    }
                },
                Task::Hasher { .. } => {
                    proof {
                        assert(done >= 4 + 2 * n);
                        assert(settled_after(done as int) >= n);
                        assert(settled_after(done as int + 1) >= n);
                    }
                },
            }
            step(&cost, &factors, &seeds, &graph, &mut slots, &mut outcomes, None, Ghost(script@));
        }
        proof {
            assert(settled_after(total as int) >= n);
        }
        let verdict = match (slots[graph.result], slots[graph.pre], slots[graph.post]) {
            (Some(hash), Some(pre), Some(post)) => Ok(
                DerivationResult { result_hash: hash, pre_commitment: pre, post_commitment: post },
            ),
            _ => Err(outcomes),
        };
        proof {
            assert(carried(slots@[graph.result as int]) == script@.result_hash());
            assert(carried(slots@[graph.pre as int]) == script@.pre());
            assert(carried(slots@[graph.post as int]) == script@.post());
            if verdict is Err {
                assert(reports_view(outcomes@) =~= script@.failures());
            }
        }
        Progress::Finished(verdict)
    }
}

/// What a list of exchanges came to, as contracts see it.
pub open spec fn answer_views(answers: Seq<Result<Credential, TaskError>>) -> Seq<
    Result<CredentialView, Failure>,
> {
    Seq::new(answers.len(), |i: int| answer_view(answers[i]))
}

impl Executor {
    /// Runs the derivation to its end, taking for each authenticator that
    /// is asked the next of `answers`.
    ///
    /// Gives the verdict of the script that the answers complete; nothing
    /// where an authenticator is asked and no answer is left.
    pub fn compute(self, answers: Vec<Result<Credential, TaskError>>) -> (r: Option<
        Result<DerivationResult, Vec<Option<TaskError>>>,
    >)
        ensures
            match self.script().replayed(self.settled(), answer_views(answers@)) {
                Some(script) => r matches Some(verdict) && verdict_view(verdict)
                    == script.verdict(),
                None => r is None,
            },
    {
        proof {
            use_type_invariant(&self);
        }
        let ghost n = self.script().n();
        let mut executor = self;
        let mut rest = answers;
        loop
            invariant
                executor.script().n() == n,
                executor.script().replayed(executor.settled(), answer_views(rest@))
                    == self.script().replayed(self.settled(), answer_views(answers@)),
            decreases n - executor.settled(),
        {
            let ghost script = executor.script();
            let ghost from = executor.settled();
            proof {
                lemma_next_prompt_bounds(script, from);
            }
            match executor.advance() {
                Progress::Finished(verdict) => {
                    return Some(verdict);
                },
                Progress::Authenticate(pending) => {
                    if rest.len() == 0 {
                        return None;
                    }
                    let ghost all = answer_views(rest@);
                    let answer = rest.remove(0);
                    proof {
                        assert(all[0] == answer_view(answer));
                        assert(answer_views(rest@) =~= all.drop_first());
                    }
                    executor = pending.supply(answer);
                },
            }
        }
    }
}

impl Pending {
    #[verifier::type_invariant]
    spec fn inv(self) -> bool {
        let ex = self.executor;
        let i = self.factor as int;
        &&& consistent(ex.cost, ex.factors@, ex.seeds@, ex.graph, ex.slots@, ex.outcomes@, ex.script@)
        &&& unasked(ex.factors@, ex.outcomes@.len() as int, ex.script@)
        &&& i < ex.factors@.len()
        &&& ex.outcomes@.len() == 5 + 2 * i
        &&& ex.factors@[i] is Fido
    }

    /// Everything that the derivation depends on, as far as it is known.
    pub closed spec fn script(self) -> Script {
        self.executor.script@
    }

    /// The factors in order.
    pub closed spec fn factors(self) -> Seq<Factor> {
        self.executor.factors@
    }

    /// The place of the factor whose authenticator is to be asked.
    pub closed spec fn spec_factor(self) -> int {
        self.factor as int
    }

    /// What is to be asked of the authenticator.
    pub closed spec fn spec_request(self) -> FidoRequest {
        self.request
    }

    /// Whether the request is the one that the chain block `prev` and the
    /// device's name give.
    pub open spec fn asks(self, prev: Seq<u8>) -> bool {
        let i = self.spec_factor();
        &&& 0 <= i < self.factors().len()
        &&& self.factors()[i] matches Factor::Fido(item) && self.spec_request().prompt@
            == spec_pin_prompt(item.device_name@)
        &&& self.spec_request().rpid@ == spec_relying_party_id(prev.subrange(0, 16))
        &&& self.spec_request().hmac_req@ == prev.subrange(16, 48)
    }

    /// The place of the factor whose authenticator is to be asked.
    pub fn factor(&self) -> (i: usize)
        ensures
            i == self.spec_factor(),
    {
        self.factor
    }

    /// What is to be asked of the authenticator.
    pub fn request(&self) -> (request: &FidoRequest)
        ensures
            *request == self.spec_request(),
    {
        &self.request
    }

    /// Goes on with what the exchange with the authenticator came to.
    pub fn supply(self, answer: Result<Credential, TaskError>) -> (executor: Executor)
        ensures
            executor.script() == self.script().answered(self.spec_factor(), answer_view(answer)),
            executor.factors() == self.factors(),
            executor.settled() == self.spec_factor() + 1,
            executor.done() == 6 + 2 * self.spec_factor(),
    {
        proof {
            use_type_invariant(&self);
        }
        let Pending { executor, factor, request } = self;
        let Executor { cost, factors, seeds, graph, mut slots, mut outcomes, script } = executor;
        let ghost i = factor as int;
        let ghost before = script@;
        let ghost after = before.answered(i, answer_view(answer));
        proof {
            assert(before.agrees_before(after, i)) by {
                assert(before.kinds() =~= after.kinds());
            }
            lemma_prefix(before, after, i);
            assert(after.kinds() =~= before.kinds());
            assert(planned_task(after.kinds(), 5 + 2 * i) == Task::FidoFactor {
                dev: factor,
                prev: factor_edge(i) as usize,
                res: running_edge(i + 1) as usize,
            }) by {
                assert((5 + 2 * i - 4) / 2 == i && (5 + 2 * i - 4) % 2 == 1);
                assert(after.kinds()[i] == (after.factors[i] is Fido));
            }
            assert forall|e: int| 0 <= e < slots@.len() implies #[trigger] carried(slots@[e]) == if planned_producer(
                factors@.len() as int,
                e,
            ) < outcomes@.len() {
                after.edge_value(e)
            } else {
                None
            } by {
                assert(carried(slots@[e]) == if planned_producer(factors@.len() as int, e)
                    < outcomes@.len() {
                    before.edge_value(e)
                } else {
                    None
                });
                if planned_producer(factors@.len() as int, e) < outcomes@.len() {
                    assert(before.edge_value(e) == after.edge_value(e));
                }
            }
            assert forall|k: int| 0 <= k < outcomes@.len() implies #[trigger] report_view(
                outcomes@[k],
            ) == reported(after.task_result(k)) by {
                assert(report_view(outcomes@[k]) == reported(before.task_result(k)));
                assert(before.task_result(k) == after.task_result(k));
            }
            assert forall|m: int| 0 <= m < factors@.len() implies match #[trigger] factors@[m] {
                Factor::Password(s) => after.factors[m] == FactorInput::Password(
                    encode_utf8(s@),
                ),
                Factor::Fido(_) => after.factors[m] is Fido,
            } by {
                if m != i {
                    assert(after.factors[m] == before.factors[m]);
                }
            }
        }
        step(
            &cost,
            &factors,
            &seeds,
            &graph,
            &mut slots,
            &mut outcomes,
            Some(answer),
            Ghost(after),
        );
        proof {
            assert(settled_after(6 + 2 * i) == i + 1);
        }
        Executor { cost, factors, seeds, graph, slots, outcomes, script: Ghost(after) }
    }
}

} // verus!
