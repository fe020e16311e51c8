//! What each kind of node computes, on the values that its edges carry.
//!
//! An edge that delivers nothing, because the node before it failed, shows
//! as `None`.

use vstd::prelude::*;
use vstd::utf8::encode_utf8;
use crate::block::{split_block, Block};
use crate::errors::{Failure, TaskError};
use crate::fido::{answer_view, Credential, CredentialView};
use crate::kdf::Cost;

verus! {

/// The bytes of a block that an edge carries, if it carries one.
pub open spec fn carried(slot: Option<Block>) -> Option<Seq<u8>> {
    match slot {
        Some(block) => Some(block@),
        None => None,
    }
}

/// What a node delivers, as contracts see it.
pub open spec fn delivery(r: Result<Block, TaskError>) -> Result<Seq<u8>, Failure> {
    match r {
        Ok(block) => Ok(block@),
        Err(e) => Err(e@),
    }
}

/// The value of a nonce node: the commitment drawn for it. A draw that
/// failed shows as the loss of the worker that made it.
pub open spec fn nonce_value(seed: Option<Seq<u8>>) -> Result<Seq<u8>, Failure> {
    match seed {
        Some(block) => Ok(block),
        None => Err(Failure::JoinError),
    }
}

/// The value on both outputs of a copier: its input.
pub open spec fn copier_value(input: Option<Seq<u8>>) -> Result<Seq<u8>, Failure> {
    match input {
        Some(block) => Ok(block),
        None => Err(Failure::SenderDropped),
    }
}

/// The value of a KDF call at a cost.
pub open spec fn kdf_value(cost: Cost, password: Seq<u8>, salt: Seq<u8>) -> Result<
    Seq<u8>,
    Failure,
> {
    if cost.accepts(password.len(), salt.len()) {
        Ok(cost.digest(password, salt))
    } else {
        Err(Failure::HasherError)
    }
}

/// The value of a hasher node.
pub open spec fn hasher_value(cost: Cost, pwd: Option<Seq<u8>>, salt: Option<Seq<u8>>) -> Result<
    Seq<u8>,
    Failure,
> {
    match (pwd, salt) {
        (Some(p), Some(s)) => kdf_value(cost, p, s),
        _ => Err(Failure::SenderDropped),
    }
}

/// The value of a password factor: the password hashed under the previous
/// chain block.
pub open spec fn password_value(cost: Cost, password: Seq<u8>, prev: Option<Seq<u8>>) -> Result<
    Seq<u8>,
    Failure,
> {
    match prev {
        Some(salt) => kdf_value(cost, password, salt),
        None => Err(Failure::SenderDropped),
    }
}

/// The value of a hardware factor: credential identifier and HMAC secret,
/// hashed under the last 80 bytes of the previous chain block. An exchange
/// that failed hands its failure on.
pub open spec fn fido_value(
    cost: Cost,
    prev: Option<Seq<u8>>,
    answer: Result<CredentialView, Failure>,
) -> Result<Seq<u8>, Failure> {
    match prev {
        None => Err(Failure::SenderDropped),
        Some(block) => match answer {
            Err(f) => Err(f),
            Ok(credential) => kdf_value(cost, credential.key_material(), block.subrange(48, 128)),
        },
    }
}

/// One KDF call, with its result as contracts see it.
pub fn kdf(cost: &Cost, password: &[u8], salt: &[u8]) -> (r: Result<Block, TaskError>)
    ensures
        delivery(r) == kdf_value(*cost, password@, salt@),
{
    cost.hash(password, salt)
}

/// Runs a nonce node on the commitment drawn for it.
pub fn nonce_task(seed: Option<Block>) -> (r: Result<Block, TaskError>)
    ensures
        delivery(r) == nonce_value(carried(seed)),
{
    match seed {
        Some(block) => Ok(block),
        None => Err(TaskError::JoinError),
    }
}

/// Runs a copier: both outputs are the input, byte for byte.
pub fn copier_task(input: Option<Block>) -> (r: Result<(Block, Block), TaskError>)
    ensures
        input is Some ==> r is Ok && r->Ok_0.0@ == input->Some_0@ && r->Ok_0.1@
            == input->Some_0@,
        input is None ==> r matches Err(TaskError::SenderDropped),
{
    match input {
        Some(block) => Ok((block, block)),
        None => Err(TaskError::SenderDropped),
    }
}

/// Runs a hasher node.
pub fn hasher_task(cost: &Cost, pwd: Option<Block>, salt: Option<Block>) -> (r: Result<
    Block,
    TaskError,
>)
    ensures
        delivery(r) == hasher_value(*cost, carried(pwd), carried(salt)),
{
    let pwd = match pwd {
        Some(x) => x,
        None => {
            return Err(TaskError::SenderDropped);
        },
    };
    let salt = match salt {
        Some(x) => x,
        None => {
            return Err(TaskError::SenderDropped);
        },
    };
    kdf(cost, pwd.as_slice(), salt.as_slice())
}

/// Runs a password factor.
pub fn password_factor_task(cost: &Cost, pwd: &str, prev: Option<Block>) -> (r: Result<
    Block,
    TaskError,
>)
    ensures
        delivery(r) == password_value(*cost, encode_utf8(pwd@), carried(prev)),
{
    let prev = match prev {
        Some(x) => x,
        None => {
            return Err(TaskError::SenderDropped);
        },
    };
    kdf(cost, pwd.as_bytes(), prev.as_slice())
}

/// Runs the last step of a hardware factor, on what the exchange with the
/// authenticator came to.
pub fn fido_factor_task(
    cost: &Cost,
    prev: Option<Block>,
    answer: Result<Credential, TaskError>,
) -> (r: Result<Block, TaskError>)
    ensures
        delivery(r) == fido_value(*cost, carried(prev), answer_view(answer)),
{
    let prev = match prev {
        Some(x) => x,
        None => {
            return Err(TaskError::SenderDropped);
        },
    };
    let credential = match answer {
        Ok(c) => c,
        Err(e) => {
            return Err(e);
        },
    };
    let parts = split_block(&prev);
    let pwd = credential.key_material();
    kdf(cost, pwd.as_slice(), parts.salt.as_slice())
}

} // verus!
