use passchain::block::Block;
use passchain::cli::create::{DerivationResult, Executor, Progress};
use passchain::errors::TaskError;
use passchain::factor::{Factor, FidoItem};
use passchain::fido::{examine, Assertion, Credential, Extension, FidoOutcome};
use passchain::kdf::Cost;

fn cost() -> Cost {
    Cost::new(8, 1, 1).unwrap()
}

fn block(seed: u8) -> Block {
    let mut b = [0u8; 128];
    for (i, x) in b.iter_mut().enumerate() {
        *x = (i as u8).wrapping_mul(31).wrapping_add(seed);
    }
    b
}

fn password(s: &str) -> Factor {
    Factor::Password(s.to_string())
}

fn fido(name: &str) -> Factor {
    Factor::Fido(FidoItem { device_name: name.to_string() })
}

fn secret(seed: u8) -> [u8; 32] {
    let mut s = [0u8; 32];
    for (i, x) in s.iter_mut().enumerate() {
        *x = (i as u8).wrapping_mul(7).wrapping_add(seed);
    }
    s
}

fn answer(id: &[u8], seed: u8) -> Result<Credential, TaskError> {
    examine(FidoOutcome::Asserted(vec![Assertion {
        credential_id: id.to_vec(),
        extensions: vec![Extension::HmacSecret(Some(secret(seed)))],
    }]))
}

fn hash(password: &[u8], salt: &[u8]) -> Block {
    cost().hash(password, salt).unwrap()
}

/// The fold over tapped blocks, written out: `chain[i]` is the running
/// block before factor `i`, `chain[n]` the one after the last.
fn fold(chain: &[Block], post: &Block) -> Block {
    let n = chain.len() - 1;
    let mut acc = hash(post, &chain[n]);
    for i in (0..n).rev() {
        acc = hash(&chain[i], &acc);
    }
    acc
}

fn finished(p: Progress) -> Result<DerivationResult, Vec<Option<TaskError>>> {
    match p {
        Progress::Finished(r) => r,
        Progress::Authenticate(_) => panic!("an authenticator was asked"),
    }
}

fn run_passwords(factors: Vec<Factor>, pre: Block, post: Block) -> DerivationResult {
    let ex = Executor::with_commitments(cost(), factors, Some(pre), Some(post));
    match finished(ex.advance()) {
        Ok(r) => r,
        Err(_) => panic!("the derivation failed"),
    }
}

#[test]
fn empty_chain_hashes_the_two_commitments() {
    let (pre, post) = (block(1), block(2));
    let r = run_passwords(vec![], pre, post);
    assert_eq!(r.result_hash, hash(&post, &pre));
    assert_eq!(r.pre_commitment, pre);
    assert_eq!(r.post_commitment, post);
}

#[test]
fn one_password_follows_the_formula() {
    let (pre, post) = (block(1), block(2));
    let r = run_passwords(vec![password("hunter2")], pre, post);
    let c1 = hash(b"hunter2", &pre);
    assert_eq!(r.result_hash, hash(&pre, &hash(&post, &c1)));
    assert_eq!(r.result_hash, fold(&[pre, c1], &post));
    assert_eq!((r.pre_commitment, r.post_commitment), (pre, post));
}

#[test]
fn three_passwords_follow_the_formula() {
    let (pre, post) = (block(3), block(4));
    let r = run_passwords(vec![password("a"), password("bb"), password("ccc")], pre, post);
    let c1 = hash(b"a", &pre);
    let c2 = hash(b"bb", &c1);
    let c3 = hash(b"ccc", &c2);
    assert_eq!(r.result_hash, fold(&[pre, c1, c2, c3], &post));
}

#[test]
fn password_bytes_are_utf8() {
    let (pre, post) = (block(3), block(4));
    let r = run_passwords(vec![password("pä$$wörd")], pre, post);
    let c1 = hash("pä$$wörd".as_bytes(), &pre);
    assert_eq!(r.result_hash, fold(&[pre, c1], &post));
}

#[test]
fn same_inputs_give_the_same_hash() {
    let factors = || vec![password("first"), password("second")];
    let a = run_passwords(factors(), block(5), block(6));
    let b = run_passwords(factors(), block(5), block(6));
    assert_eq!(a.result_hash, b.result_hash);
    let ex = Executor::with_commitments(cost(), factors(), Some(block(5)), Some(block(6)));
    let c = ex.compute(vec![]).unwrap().ok().unwrap();
    assert_eq!(a.result_hash, c.result_hash);
}

#[test]
fn same_answers_give_the_same_hash() {
    let run = || {
        let factors = vec![fido("key"), password("pw")];
        let ex = Executor::with_commitments(cost(), factors, Some(block(5)), Some(block(6)));
        ex.compute(vec![answer(b"cred", 9)]).unwrap().ok().unwrap().result_hash
    };
    assert_eq!(run(), run());
}

#[test]
fn swapping_two_factors_changes_the_hash() {
    let a = run_passwords(vec![password("first"), password("second")], block(5), block(6));
    let b = run_passwords(vec![password("second"), password("first")], block(5), block(6));
    assert_ne!(a.result_hash, b.result_hash);
}

#[test]
fn commitments_change_the_hash() {
    let a = run_passwords(vec![password("pw")], block(5), block(6));
    let b = run_passwords(vec![password("pw")], block(7), block(6));
    let c = run_passwords(vec![password("pw")], block(5), block(7));
    let d = run_passwords(vec![password("pw")], block(6), block(5));
    assert_ne!(a.result_hash, b.result_hash);
    assert_ne!(a.result_hash, c.result_hash);
    assert_ne!(a.result_hash, d.result_hash);
}

#[test]
fn fresh_commitments_are_handed_out() {
    let a = finished(Executor::new(cost(), vec![password("pw")]).advance()).ok().unwrap();
    let b = finished(Executor::new(cost(), vec![password("pw")]).advance()).ok().unwrap();
    assert_ne!(a.pre_commitment, a.post_commitment);
    assert_ne!(a.pre_commitment, b.pre_commitment);
    assert_ne!(a.result_hash, b.result_hash);
    let c1 = hash(b"pw", &a.pre_commitment);
    assert_eq!(a.result_hash, fold(&[a.pre_commitment, c1], &a.post_commitment));
    let again = run_passwords(vec![password("pw")], a.pre_commitment, a.post_commitment);
    assert_eq!(again.result_hash, a.result_hash);
}

#[test]
fn hardware_factor_is_asked_with_the_chain_block() {
    let (pre, post) = (block(1), block(2));
    let factors = vec![password("pw"), fido("Key | 1050:0407"), password("tail")];
    let ex = Executor::with_commitments(cost(), factors, Some(pre), Some(post));
    let pending = match ex.advance() {
        Progress::Authenticate(p) => p,
        Progress::Finished(_) => panic!("no authenticator was asked"),
    };
    let c1 = hash(b"pw", &pre);
    assert_eq!(pending.factor(), 1);
    assert_eq!(pending.request().prompt, "Enter FIDO PIN for \"Key | 1050:0407\":");
    assert_eq!(
        pending.request().rpid,
        format!("passchain-{}", passchain::utils::base_x::b64enc(&c1[..16]))
    );
    assert_eq!(pending.request().hmac_req.to_vec(), c1[16..48].to_vec());

    let r = finished(pending.supply(answer(b"cred", 9)).advance()).ok().unwrap();
    let mut material = b"cred".to_vec();
    material.extend_from_slice(&secret(9));
    let c2 = hash(&material, &c1[48..]);
    let c3 = hash(b"tail", &c2);
    assert_eq!(r.result_hash, fold(&[pre, c1, c2, c3], &post));
}

#[test]
fn two_hardware_factors_are_asked_in_order() {
    let (pre, post) = (block(1), block(2));
    let ex = Executor::with_commitments(cost(), vec![fido("a"), fido("b")], Some(pre), Some(post));
    let first = match ex.advance() {
        Progress::Authenticate(p) => p,
        Progress::Finished(_) => panic!("no authenticator was asked"),
    };
    assert_eq!(first.factor(), 0);
    assert_eq!(first.request().hmac_req.to_vec(), pre[16..48].to_vec());
    let second = match first.supply(answer(b"one", 1)).advance() {
        Progress::Authenticate(p) => p,
        Progress::Finished(_) => panic!("the second authenticator was not asked"),
    };
    assert_eq!(second.factor(), 1);
    let mut m1 = b"one".to_vec();
    m1.extend_from_slice(&secret(1));
    let c1 = hash(&m1, &pre[48..]);
    assert_eq!(second.request().hmac_req.to_vec(), c1[16..48].to_vec());
    let r = finished(second.supply(answer(b"two", 2)).advance()).ok().unwrap();
    let mut m2 = b"two".to_vec();
    m2.extend_from_slice(&secret(2));
    let c2 = hash(&m2, &c1[48..]);
    assert_eq!(r.result_hash, fold(&[pre, c1, c2], &post));

    let ex = Executor::with_commitments(cost(), vec![fido("a"), fido("b")], Some(pre), Some(post));
    let replay = ex.compute(vec![answer(b"one", 1), answer(b"two", 2)]).unwrap().ok().unwrap();
    assert_eq!(replay.result_hash, r.result_hash);
    let ex = Executor::with_commitments(cost(), vec![fido("a"), fido("b")], Some(pre), Some(post));
    let swapped = ex.compute(vec![answer(b"two", 2), answer(b"one", 1)]).unwrap().ok().unwrap();
    assert_ne!(swapped.result_hash, r.result_hash);
}

#[test]
fn compute_needs_an_answer_for_each_prompt() {
    let ex = Executor::with_commitments(
        cost(),
        vec![fido("a"), fido("b")],
        Some(block(1)),
        Some(block(2)),
    );
    assert!(ex.compute(vec![answer(b"one", 1)]).is_none());
    let ex = Executor::with_commitments(cost(), vec![password("a")], Some(block(1)), Some(block(2)));
    assert!(ex.compute(vec![answer(b"spare", 1)]).unwrap().is_ok());
}

fn failures(r: Result<DerivationResult, Vec<Option<TaskError>>>) -> Vec<Option<TaskError>> {
    match r {
        Ok(_) => panic!("a hash was derived"),
        Err(outcomes) => outcomes,
    }
}

#[test]
fn low_entropy_yields_no_key() {
    let zero = examine(FidoOutcome::Asserted(vec![Assertion {
        credential_id: b"cred".to_vec(),
        extensions: vec![Extension::HmacSecret(Some([0u8; 32]))],
    }]));
    let ex = Executor::with_commitments(
        cost(),
        vec![password("pw"), fido("key")],
        Some(block(1)),
        Some(block(2)),
    );
    let outcomes = failures(ex.compute(vec![zero]).unwrap());
    assert_eq!(outcomes.len(), 11);
    assert_eq!(outcomes[7], Some(TaskError::LowEntropy));
    assert_eq!(outcomes[8], Some(TaskError::SenderDropped));
    assert_eq!(outcomes[9], Some(TaskError::SenderDropped));
    assert_eq!(outcomes[10], Some(TaskError::SenderDropped));
    assert!(outcomes[..7].iter().all(|o| o.is_none()));
}

#[test]
fn a_failed_exchange_fails_the_derivation() {
    for (outcome, expected) in [
        (FidoOutcome::Asserted(vec![]), TaskError::NoAssertionFound),
        (FidoOutcome::RelayClosed, TaskError::ReceiverDropped),
        (FidoOutcome::Aborted, TaskError::JoinError),
        (FidoOutcome::Refused("no".to_string()), TaskError::FidoError("no".to_string())),
    ] {
        let ex = Executor::with_commitments(
            cost(),
            vec![fido("key"), password("pw"), fido("never asked")],
            Some(block(1)),
            Some(block(2)),
        );
        let outcomes = failures(ex.compute(vec![examine(outcome)]).unwrap());
        assert_eq!(outcomes.len(), 14);
        assert_eq!(outcomes[5], Some(expected));
        for k in 6..14 {
            assert_eq!(outcomes[k], Some(TaskError::SenderDropped));
        }
        assert!(outcomes[..5].iter().all(|o| o.is_none()));
    }
}

#[test]
fn a_missing_commitment_fails_the_derivation() {
    let ex = Executor::with_commitments(cost(), vec![password("pw")], None, Some(block(2)));
    let outcomes = failures(finished(ex.advance()));
    assert_eq!(
        outcomes,
        vec![
            Some(TaskError::JoinError),
            None,
            Some(TaskError::SenderDropped),
            None,
            Some(TaskError::SenderDropped),
            Some(TaskError::SenderDropped),
            Some(TaskError::SenderDropped),
            Some(TaskError::SenderDropped),
        ]
    );
    let ex = Executor::with_commitments(cost(), vec![], Some(block(1)), None);
    let outcomes = failures(finished(ex.advance()));
    assert_eq!(
        outcomes,
        vec![
            None,
            Some(TaskError::JoinError),
            None,
            Some(TaskError::SenderDropped),
            Some(TaskError::SenderDropped),
        ]
    );
}

#[test]
fn a_cost_that_the_kdf_refuses_fails_every_hash() {
    let bad = Cost::new(8, 0, 1).unwrap();
    let ex = Executor::with_commitments(bad, vec![password("pw")], Some(block(1)), Some(block(2)));
    let outcomes = failures(finished(ex.advance()));
    assert_eq!(outcomes.len(), 8);
    assert!(matches!(outcomes[5], Some(TaskError::HasherError(_))));
    assert_eq!(outcomes[6], Some(TaskError::SenderDropped));
    assert_eq!(outcomes[7], Some(TaskError::SenderDropped));
    let ex = Executor::with_commitments(bad, vec![], Some(block(1)), Some(block(2)));
    let outcomes = failures(finished(ex.advance()));
    assert!(matches!(outcomes[4], Some(TaskError::HasherError(_))));
}

#[test]
fn a_hardware_factor_behind_a_failure_is_not_asked() {
    let ex = Executor::with_commitments(cost(), vec![fido("key")], None, Some(block(2)));
    let outcomes = failures(finished(ex.advance()));
    assert_eq!(outcomes[5], Some(TaskError::SenderDropped));
}

#[test]
fn progress_counts_the_nodes_that_have_run() {
    let factors = vec![password("pw"), fido("key"), password("tail")];
    let ex = Executor::with_commitments(cost(), factors, Some(block(1)), Some(block(2)));
    assert_eq!(ex.progress(), (0, 14));
    let pending = match ex.advance() {
        Progress::Authenticate(p) => p,
        Progress::Finished(_) => panic!("no authenticator was asked"),
    };
    let ex = pending.supply(answer(b"cred", 9));
    assert_eq!(ex.progress(), (8, 14));
    let ex = Executor::with_commitments(cost(), vec![], Some(block(1)), Some(block(2)));
    assert_eq!(ex.progress(), (0, 5));
}
