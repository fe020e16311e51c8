//! Argon2id at a fixed output length of one block.

use vstd::prelude::*;
use crate::block::Block;
use crate::errors::TaskError;

verus! {

/// Most lanes that the algorithm admits.
pub const MAX_LANES: u32 = 0xFF_FFFF;

/// Shortest salt that the algorithm admits, in bytes.
pub const MIN_SALT_LEN: usize = 8;

/// Longest password or salt that the algorithm admits, in bytes.
pub const MAX_INPUT_LEN: usize = 0xFFFF_FFFF;

/// Memory of the standard cost, in KiB.
pub const STANDARD_MEMORY_KIB: u32 = 1_000_000;

/// Passes of the standard cost.
pub const STANDARD_ITERATIONS: u32 = 15;

/// Lanes of the standard cost.
pub const STANDARD_LANES: u32 = 1;

/// The 128-byte Argon2id tag (version 0x13, no secret, no associated data)
/// of `password` under `salt` at the given memory, passes and lanes.
pub uninterp spec fn argon2id(
    memory_kib: u32,
    iterations: u32,
    lanes: u32,
    password: Seq<u8>,
    salt: Seq<u8>,
) -> Seq<u8>;

/// Whether Argon2id takes these parameters and input lengths.
pub open spec fn argon2id_accepts(
    memory_kib: u32,
    iterations: u32,
    lanes: u32,
    password_len: nat,
    salt_len: nat,
) -> bool {
    &&& 1 <= lanes <= MAX_LANES
    &&& 8 * lanes <= memory_kib
    &&& 1 <= iterations
    &&& password_len <= MAX_INPUT_LEN
    &&& MIN_SALT_LEN <= salt_len <= MAX_INPUT_LEN
}

/// Calls `argon2::Params::new`, `argon2::Argon2::new` and
/// `argon2::Argon2::hash_password_into` with a 128-byte output buffer.
///
/// Claimed of them: the call succeeds exactly on the parameters and lengths
/// that [`argon2id_accepts`] lists, which are the checks that the two
/// fallible calls make, and what it then writes is the Argon2id tag of the
/// inputs. More than `MAX_LANES` lanes are kept out, since the parameter
/// check multiplies the lanes by eight in 32 bits.
#[verifier::external_body]
fn argon2id_block(
    memory_kib: u32,
    iterations: u32,
    lanes: u32,
    password: &[u8],
    salt: &[u8],
) -> (r: Result<Block, argon2::Error>)
    requires
        lanes <= MAX_LANES,
    ensures
        r is Ok <==> argon2id_accepts(memory_kib, iterations, lanes, password@.len(), salt@.len()),
        r is Ok ==> r->Ok_0@ == argon2id(memory_kib, iterations, lanes, password@, salt@),
{
    let params = argon2::Params::new(memory_kib, iterations, lanes, Some(128))?;
    let hasher =
        argon2::Argon2::new(argon2::Algorithm::Argon2id, argon2::Version::V0x13, params);
    let mut out = [0u8; 128];
    hasher.hash_password_into(password, salt, &mut out)?;
    Ok(out)
}

/// How much work one KDF call does.
#[derive(Clone, Copy, Debug)]
pub struct Cost {
    memory_kib: u32,
    iterations: u32,
    lanes: u32,
}

impl Cost {
    #[verifier::type_invariant]
    spec fn lanes_bounded(self) -> bool {
        self.lanes <= MAX_LANES
    }

    /// Memory in KiB.
    pub closed spec fn spec_memory_kib(self) -> u32 {
        self.memory_kib
    }

    /// Number of passes over the memory.
    pub closed spec fn spec_iterations(self) -> u32 {
        self.iterations
    }

    /// Number of lanes.
    pub closed spec fn spec_lanes(self) -> u32 {
        self.lanes
    }

    /// Whether a call with inputs of these lengths succeeds.
    pub open spec fn accepts(self, password_len: nat, salt_len: nat) -> bool {
        argon2id_accepts(
            self.spec_memory_kib(),
            self.spec_iterations(),
            self.spec_lanes(),
            password_len,
            salt_len,
        )
    }

    /// The tag of `password` under `salt` at this cost.
    pub open spec fn digest(self, password: Seq<u8>, salt: Seq<u8>) -> Seq<u8> {
        argon2id(
            self.spec_memory_kib(),
            self.spec_iterations(),
            self.spec_lanes(),
            password,
            salt,
        )
    }

    /// A cost of the given memory, passes and lanes; none where the lanes
    /// exceed what the algorithm can count.
    pub fn new(memory_kib: u32, iterations: u32, lanes: u32) -> (c: Option<Cost>)
        ensures
            c is Some <==> lanes <= MAX_LANES,
            c is Some ==> {
                &&& c->Some_0.spec_memory_kib() == memory_kib
                &&& c->Some_0.spec_iterations() == iterations
                &&& c->Some_0.spec_lanes() == lanes
            },
    {
        if lanes <= MAX_LANES {
            Some(Cost { memory_kib, iterations, lanes })
        } else {
            None
        }
    }

    /// The cost that every production derivation uses.
    pub fn standard() -> (c: Cost)
        ensures
            c.spec_memory_kib() == STANDARD_MEMORY_KIB,
            c.spec_iterations() == STANDARD_ITERATIONS,
            c.spec_lanes() == STANDARD_LANES,
    {
        Cost {
            memory_kib: STANDARD_MEMORY_KIB,
            iterations: STANDARD_ITERATIONS,
            lanes: STANDARD_LANES,
        }
    }

    #[verifier::when_used_as_spec(spec_memory_kib)]
    pub fn memory_kib(self) -> (m: u32)
        ensures
            m == self.spec_memory_kib(),
    {
        self.memory_kib
    }

    #[verifier::when_used_as_spec(spec_iterations)]
    pub fn iterations(self) -> (t: u32)
        ensures
            t == self.spec_iterations(),
    {
        self.iterations
    }

    #[verifier::when_used_as_spec(spec_lanes)]
    pub fn lanes(self) -> (p: u32)
        ensures
            p == self.spec_lanes(),
    {
        self.lanes
    }

    /// Hashes `password` under `salt` into one block.
    ///
    /// Succeeds exactly where the algorithm accepts the cost and the two
    /// lengths; otherwise the algorithm's refusal is handed on.
    pub fn hash(&self, password: &[u8], salt: &[u8]) -> (r: Result<Block, TaskError>)
        ensures
            self.accepts(password@.len(), salt@.len()) ==> r is Ok && r->Ok_0@ == self.digest(
                password@,
                salt@,
            ),
            !self.accepts(password@.len(), salt@.len()) ==> r matches Err(
                TaskError::HasherError(_),
            ),
    {
        proof {
            use_type_invariant(self);
        }
        match argon2id_block(self.memory_kib, self.iterations, self.lanes, password, salt) {
            Ok(out) => Ok(out),
            Err(e) => Err(TaskError::HasherError(e)),
        }
    }
}

} // verus!
