//! Running one node of the graph on the edges' slots.

use vstd::prelude::*;
use vstd::utf8::encode_utf8;
use crate::block::Block;
use crate::errors::{Failure, TaskError};
use crate::factor::{kinds_of, Factor};
use crate::fido::{answer_view, Credential, CredentialView};
use crate::graph::Task;
use crate::kdf::Cost;
use crate::model::{expected, holds, lemma_expected_reads, FactorInput, Script};
use crate::tasks::{
    carried, copier_task, delivery, fido_factor_task, hasher_task, nonce_task,
    password_factor_task,
};

verus! {

/// The slots of all edges, as contracts see them.
pub open spec fn views(slots: Seq<Option<Block>>) -> Seq<Option<Seq<u8>>> {
    Seq::new(slots.len(), |e: int| carried(slots[e]))
}

/// What a node reported, as contracts see it.
pub open spec fn report_view(outcome: Option<TaskError>) -> Option<Failure> {
    match outcome {
        Some(e) => Some(e@),
        None => None,
    }
}

/// What is known of an exchange, as contracts see it.
pub open spec fn given_view(answer: Option<Result<Credential, TaskError>>) -> Option<
    Result<CredentialView, Failure>,
> {
    match answer {
        Some(a) => Some(answer_view(a)),
        None => None,
    }
}

/// Whether a script tells of these factors, seeds and this cost what the
/// node `task` reads of them.
pub open spec fn tells(
    script: Script,
    task: Task,
    cost: Cost,
    factors: Seq<Factor>,
    seeds: Seq<Option<Block>>,
    answer: Option<Result<Credential, TaskError>>,
) -> bool {
    &&& script.cost == cost
    &&& script.seeds == views(seeds)
    &&& script.factors.len() == factors.len()
    &&& match task {
        Task::PasswordFactor { pwd, .. } => factors[pwd as int] matches Factor::Password(s)
            && script.factors[pwd as int] == FactorInput::Password(encode_utf8(s@)),
        Task::FidoFactor { dev, .. } => script.factors[dev as int] == FactorInput::Fido(
            given_view(answer),
        ),
        _ => true,
    }
}

/// Runs one node: reads the slots of its input edges, and on success fills
/// the slots of its output edges. Returns the failure, if it failed.
pub(crate) fn run_task(
    task: Task,
    cost: &Cost,
    factors: &Vec<Factor>,
    seeds: &Vec<Option<Block>>,
    answer: Option<Result<Credential, TaskError>>,
    slots: &mut Vec<Option<Block>>,
    Ghost(script): Ghost<Script>,
) -> (outcome: Option<TaskError>)
    requires
        forall|e: int| #[trigger] task.reads(e) ==> 0 <= e < old(slots)@.len(),
        forall|e: int| #[trigger] task.writes(e) ==> 0 <= e < old(slots)@.len() && !task.reads(e)
            && old(slots)@[e] is None,
        task.fits(kinds_of(factors@)),
        seeds@.len() == 2,
        tells(script, task, *cost, factors@, seeds@, answer),
    ensures
        final(slots)@.len() == old(slots)@.len(),
        forall|e: int|
            0 <= e < old(slots)@.len() && !task.writes(e) ==> final(slots)@[e] == old(slots)@[e],
        holds(task, script, views(final(slots)@), report_view(outcome)),
{
    let ghost before = views(slots@);
    let r: Result<Block, TaskError> = match task {
        Task::Nonce { seed, nonce } => {
            assert(task.writes(nonce as int));
            nonce_task(seeds[seed])
        },
        Task::Copier { input, output1, output2 } => {
            assert(task.reads(input as int));
            assert(task.writes(output1 as int));
            assert(task.writes(output2 as int));
            match copier_task(slots[input]) {
                Ok((first, second)) => Ok(first),
                Err(e) => Err(e),
            }
        },
        Task::Hasher { pwd, salt, res } => {
            assert(task.reads(pwd as int));
            assert(task.reads(salt as int));
            assert(task.writes(res as int));
            hasher_task(cost, slots[pwd], slots[salt])
        },
        Task::PasswordFactor { pwd, prev, res } => {
            assert(task.reads(prev as int));
            assert(task.writes(res as int));
            assert(kinds_of(factors@)[pwd as int] == (factors@[pwd as int] is Fido));
            match &factors[pwd] {
                Factor::Password(s) => password_factor_task(cost, s.as_str(), slots[prev]),
                Factor::Fido(_) => Err(TaskError::JoinError),
            }
        },
        Task::FidoFactor { dev, prev, res } => {
            assert(task.reads(prev as int));
            assert(task.writes(res as int));
            match answer {
                Some(a) => fido_factor_task(cost, slots[prev], a),
                None => fido_factor_task(cost, slots[prev], Err(TaskError::JoinError)),
            }
        },
    };
    assert(delivery(r) == expected(task, script, before));
    match r {
        Ok(block) => {
            match task {
                Task::Nonce { nonce, .. } => {
                    slots.set(nonce, Some(block));
                },
                Task::Copier { output1, output2, .. } => {
                    slots.set(output1, Some(block));
                    slots.set(output2, Some(block));
                },
                Task::Hasher { res, .. } => {
                    slots.set(res, Some(block));
                },
                Task::PasswordFactor { res, .. } => {
                    slots.set(res, Some(block));
                },
                Task::FidoFactor { res, .. } => {
                    slots.set(res, Some(block));
                },
            }
            proof {
                let after = views(slots@);
                assert forall|e: int| #[trigger] task.reads(e) implies before[e] == after[e] by {}
                lemma_expected_reads(task, script, before, after);
            }
            None
        },
        Err(e) => Some(e),
    }
}

} // verus!
