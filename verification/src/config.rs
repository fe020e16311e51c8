//! What is kept between runs: the two commitments, as text. No secret is
//! among them.

use vstd::prelude::*;
use crate::block::{new_block, Block};
use crate::utils::base_x::{b64dec, b64enc, base64_url, base64_url_decoded};

verus! {

/// The persisted record.
pub struct Cfg {
    /// The first commitment, in URL-safe base64.
    pub pre: String,
    /// The second commitment, in URL-safe base64.
    pub post: String,
}

/// The block that a text stands for: the bytes it decodes to, if they are
/// as many as a block holds.
pub open spec fn block_of_text(text: Seq<char>) -> Option<Seq<u8>> {
    match base64_url_decoded(text) {
        Some(bytes) => if bytes.len() == 128 {
            Some(bytes)
        } else {
            None
        },
        None => None,
    }
}

/// Reads one commitment back from its text.
pub fn decode_block(text: &str) -> (block: Option<Block>)
    ensures
        match block_of_text(text@) {
            Some(bytes) => block is Some && block->Some_0@ == bytes,
            None => block is None,
        },
{
    match b64dec(text) {
        Ok(bytes) => {
            if bytes.len() != 128 {
                return None;
            }
            let mut block = new_block();
            let mut i: usize = 0;
            while i < 128
                invariant
                    i <= 128,
                    bytes@.len() == 128,
                    forall|j: int| 0 <= j < i ==> block@[j] == bytes@[j],
                decreases 128 - i,
            {
                block[i] = bytes[i];
                i += 1;
            }
            assert(block@ =~= bytes@);
            Some(block)
        },
        Err(_) => None,
    }
}

impl Cfg {
    /// The record of two commitments.
    pub fn from_commitments(pre: &Block, post: &Block) -> (cfg: Cfg)
        ensures
            cfg.pre@ == base64_url(pre@),
            cfg.post@ == base64_url(post@),
    {
        Cfg { pre: b64enc(pre.as_slice()), post: b64enc(post.as_slice()) }
    }

    /// The two commitments of the record; a text that does not stand for a
    /// block gives none.
    pub fn commitments(&self) -> (r: (Option<Block>, Option<Block>))
        ensures
            match block_of_text(self.pre@) {
                Some(bytes) => r.0 is Some && r.0->Some_0@ == bytes,
                None => r.0 is None,
            },
            match block_of_text(self.post@) {
                Some(bytes) => r.1 is Some && r.1->Some_0@ == bytes,
                None => r.1 is None,
            },
    {
        (decode_block(self.pre.as_str()), decode_block(self.post.as_str()))
    }
}

} // verus!
