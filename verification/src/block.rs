//! The 128-byte buffer that carries nonces, salts, password material and
//! digests through the derivation.

use vstd::prelude::*;

verus! {

/// Number of bytes in a [`Block`].
pub const BLOCK_SIZE: usize = 128;

/// Length of the relying-party discriminator at the head of a block.
pub const RP_SIZE: usize = 16;

/// Length of the HMAC-secret salt that follows the discriminator.
pub const HMAC_SIZE: usize = 32;

/// Length of the KDF salt that fills the rest of a block.
pub const SALT_SIZE: usize = 80;

/// A fixed 128-byte buffer. What it means depends on where it stands.
pub type Block = [u8; 128];

/// A block of zero bytes.
pub fn new_block() -> (b: Block)
    ensures
        forall|i: int| 0 <= i < 128 ==> b@[i] == 0u8,
{
    [0u8; 128]
}

/// Calls `ring::rand::SystemRandom::new` and `SecureRandom::fill` on a
/// 128-byte buffer. Nothing is claimed of the bytes; `None` where the
/// system's generator reported a failure.
#[verifier::external_body]
pub(crate) fn random_block() -> (b: Option<Block>) {
    let mut block = [0u8; 128];
    ring::rand::SecureRandom::fill(&ring::rand::SystemRandom::new(), &mut block).ok()?;
    Some(block)
}

/// A block fresh from the system's secure random number generator; `None`
/// where the generator failed.
pub fn new_random_block() -> (b: Option<Block>) {
    random_block()
}

/// The three parts of a chain block that a hardware factor reads.
pub struct BlockParts {
    /// Bytes 0 to 15: discriminator of the relying party.
    pub rpid: [u8; 16],
    /// Bytes 16 to 47: salt handed to the HMAC-secret extension.
    pub hmac_req: [u8; 32],
    /// Bytes 48 to 127: salt of the final KDF call.
    pub salt: [u8; 80],
}

/// Cuts a block into discriminator, HMAC salt and KDF salt.
pub fn split_block(prev: &Block) -> (parts: BlockParts)
    ensures
        parts.rpid@ == prev@.subrange(0, 16),
        parts.hmac_req@ == prev@.subrange(16, 48),
        parts.salt@ == prev@.subrange(48, 128),
{
    let mut rpid = [0u8; 16];
    let mut hmac_req = [0u8; 32];
    let mut salt = [0u8; 80];
    let mut i: usize = 0;
    while i < 128
        invariant
            i <= 128,
            forall|j: int| 0 <= j < 16 && j < i ==> rpid@[j] == prev@[j],
            forall|j: int| 16 <= j < 48 && j < i ==> hmac_req@[j - 16] == prev@[j],
            forall|j: int| 48 <= j < 128 && j < i ==> salt@[j - 48] == prev@[j],
        decreases 128 - i,
    {
        if i < 16 {
            rpid[i] = prev[i];
        } else if i < 48 {
            hmac_req[i - 16] = prev[i];
        } else {
            salt[i - 48] = prev[i];
        }
        i += 1;
    }
    assert(rpid@ =~= prev@.subrange(0, 16));
    assert(hmac_req@ =~= prev@.subrange(16, 48));
    assert(salt@ =~= prev@.subrange(48, 128));
    BlockParts { rpid, hmac_req, salt }
}

} // verus!
