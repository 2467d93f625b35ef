//! The consensus tag: the payload by which a block shows that a validator
//! running this engine built it.

use vstd::prelude::*;
use crate::block::{Block, BlockView};
use crate::bytes::bytes_equal;

verus! {

/// The bytes that open every consensus tag: the ASCII text `Devmode`.
pub open spec fn tag_prefix() -> Seq<u8> {
    seq![68u8, 101u8, 118u8, 109u8, 111u8, 100u8, 101u8]
}

/// The consensus tag of a block with the given summary: the prefix, then
/// the summary.
pub open spec fn consensus_of(summary: Seq<u8>) -> Seq<u8> {
    tag_prefix() + summary
}

/// Whether a block carries the consensus tag of its own summary.
pub open spec fn passes_consensus(block: BlockView) -> bool {
    block.payload == consensus_of(block.summary)
}

/// Builds the consensus tag for a block with the given summary.
pub fn create_consensus(summary: &[u8]) -> (consensus: Vec<u8>)
    ensures
        consensus@ == consensus_of(summary@),
{
    let mut consensus: Vec<u8> = Vec::new();
    consensus.push(68u8);
    consensus.push(101u8);
    consensus.push(118u8);
    consensus.push(109u8);
    consensus.push(111u8);
    consensus.push(100u8);
    consensus.push(101u8);
    let mut i: usize = 0;
    while i < summary.len()
        invariant
            i <= summary.len(),
            consensus@ == tag_prefix() + summary@.take(i as int),
        decreases summary.len() - i,
    {
        consensus.push(summary[i]);
        i += 1;
    }
    consensus
}

/// Checks a block's payload, byte for byte, against the tag of its summary.
pub fn check_consensus(block: &Block) -> (passed: bool)
    ensures
        passed == passes_consensus(block@),
{
    let expected = create_consensus(block.summary.as_slice());
    bytes_equal(block.payload.as_slice(), expected.as_slice())
}

/// A tag is seven bytes longer than the summary it was made from.
pub proof fn lemma_consensus_len(summary: Seq<u8>)
    ensures
        consensus_of(summary).len() == summary.len() + 7,
{
}

/// Different summaries have different tags.
pub proof fn lemma_consensus_injective(s1: Seq<u8>, s2: Seq<u8>)
    requires
        consensus_of(s1) == consensus_of(s2),
    ensures
        s1 == s2,
{
    lemma_consensus_len(s1);
    lemma_consensus_len(s2);
    assert forall|i: int| 0 <= i < s1.len() implies s1[i] == s2[i] by {
        assert(consensus_of(s1)[i + 7] == s1[i]);
        assert(consensus_of(s2)[i + 7] == s2[i]);
    }
    assert(s1 =~= s2);
}

/// A block that passes the check stops passing when one byte of its summary
/// is changed.
pub proof fn lemma_summary_mutation_fails(block: BlockView, i: int, byte: u8)
    requires
        passes_consensus(block),
        0 <= i < block.summary.len(),
        byte != block.summary[i],
    ensures
        !passes_consensus(BlockView { summary: block.summary.update(i, byte), ..block }),
{
    let changed = block.summary.update(i, byte);
    if consensus_of(changed) == consensus_of(block.summary) {
        lemma_consensus_injective(changed, block.summary);
    }
}

/// A block that passes the check stops passing when one byte of its payload
/// is changed.
pub proof fn lemma_payload_mutation_fails(block: BlockView, i: int, byte: u8)
    requires
        passes_consensus(block),
        0 <= i < block.payload.len(),
        byte != block.payload[i],
    ensures
        !passes_consensus(BlockView { payload: block.payload.update(i, byte), ..block }),
{
}

} // verus!
