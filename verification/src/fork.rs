//! Fork choice: what to do with a valid block that competes with the chain
//! head.
//!
//! Height decides first. At equal height the greater identifier wins. A
//! block below the head competes with the head's ancestor at its own
//! height, which the caller looks up one predecessor at a time.

use vstd::prelude::*;
use crate::block::{Block, BlockView};
use crate::bytes::{bytes_greater, copy_bytes, lex_less, lemma_lex_asymmetric, lemma_lex_total};

verus! {

/// The outcome of fork choice for a block.
#[derive(Clone, Copy, Debug, PartialEq, Eq, Structural)]
pub enum Verdict {
    /// The block extends or outranks the chain head: commit it.
    Commit,
    /// The block outranks the head's ancestor at its height: commit it,
    /// leaving the current chain for the block's fork.
    SwitchFork,
    /// The block loses: ignore it.
    Ignore,
}

impl Verdict {
    /// Whether the verdict has the block committed.
    pub open spec fn commits(self) -> bool {
        self != Verdict::Ignore
    }

    /// Whether the verdict has the block committed.
    pub fn is_commit(&self) -> (commit: bool)
        ensures
            commit == self.commits(),
    {
        match self {
            Verdict::Ignore => false,
            _ => true,
        }
    }
}

/// One step of fork choice: either the verdict, or the block to look up
/// before the choice can go on.
#[derive(Clone, Debug, PartialEq, Eq)]
pub enum Resolution {
    Decided(Verdict),
    /// Fetch the block with this identifier and compare the new block
    /// against it.
    Lookup(Vec<u8>),
}

/// The mathematical content of a [`Resolution`].
pub ghost enum ResolutionView {
    Decided(Verdict),
    Lookup(Seq<u8>),
}

impl View for Resolution {
    type V = ResolutionView;

    open spec fn view(&self) -> ResolutionView {
        match self {
            Resolution::Decided(verdict) => ResolutionView::Decided(*verdict),
            Resolution::Lookup(id) => ResolutionView::Lookup(id@),
        }
    }
}

/// Whether `a` outranks `b` as an identifier: `a` comes after `b` in
/// byte-lexicographic order.
pub open spec fn outranks(a: Seq<u8>, b: Seq<u8>) -> bool {
    lex_less(b, a)
}

/// Fork choice against the chain head.
pub open spec fn resolve_at_head(new_block: BlockView, chain_head: BlockView) -> ResolutionView {
    if new_block.block_num > chain_head.block_num || (new_block.block_num
        == chain_head.block_num && outranks(new_block.block_id, chain_head.block_id)) {
        ResolutionView::Decided(Verdict::Commit)
    } else if new_block.block_num < chain_head.block_num {
        ResolutionView::Lookup(chain_head.previous_id)
    } else {
        ResolutionView::Decided(Verdict::Ignore)
    }
}

/// Fork choice against a block met on the way back from the chain head.
/// The walk goes on until it meets a block at the new block's height.
pub open spec fn resolve_at_ancestor(new_block: BlockView, ancestor: BlockView) -> ResolutionView {
    if ancestor.block_num != new_block.block_num {
        ResolutionView::Lookup(ancestor.previous_id)
    } else if outranks(new_block.block_id, ancestor.block_id) {
        ResolutionView::Decided(Verdict::SwitchFork)
    } else {
        ResolutionView::Decided(Verdict::Ignore)
    }
}

/// Fork choice over a known ancestry: `ancestors[0]` is the head's
/// predecessor, `ancestors[1]` the one before it, and so on. `None` when
/// the ancestry ends before a block at the new block's height is met.
pub open spec fn resolve_along(
    new_block: BlockView,
    chain_head: BlockView,
    ancestors: Seq<BlockView>,
) -> Option<Verdict> {
    match resolve_at_head(new_block, chain_head) {
        ResolutionView::Decided(verdict) => Some(verdict),
        ResolutionView::Lookup(_) => walk_back(new_block, ancestors),
    }
}

/// The verdict that the walk back through `ancestors` reaches, if it
/// reaches one.
pub open spec fn walk_back(new_block: BlockView, ancestors: Seq<BlockView>) -> Option<Verdict>
    decreases ancestors.len(),
{
    if ancestors.len() == 0 {
        None
    } else {
        match resolve_at_ancestor(new_block, ancestors[0]) {
            ResolutionView::Decided(verdict) => Some(verdict),
            ResolutionView::Lookup(_) => walk_back(new_block, ancestors.drop_first()),
        }
    }
}

/// Decides between a newly valid block and the chain head, or names the
/// head's predecessor as the block to look up first.
pub fn resolve(new_block: &Block, chain_head: &Block) -> (step: Resolution)
    ensures
        step@ == resolve_at_head(new_block@, chain_head@),
{
    if new_block.block_num > chain_head.block_num || (new_block.block_num == chain_head.block_num
        && bytes_greater(new_block.block_id.as_slice(), chain_head.block_id.as_slice())) {
        Resolution::Decided(Verdict::Commit)
    } else if new_block.block_num < chain_head.block_num {
        Resolution::Lookup(copy_bytes(&chain_head.previous_id))
    } else {
        Resolution::Decided(Verdict::Ignore)
    }
}

/// Goes on with fork choice at a block that was looked up: decides, if it
/// stands at the new block's height, or names its predecessor as the next
/// block to look up.
pub fn resolve_ancestor(new_block: &Block, ancestor: &Block) -> (step: Resolution)
    ensures
        step@ == resolve_at_ancestor(new_block@, ancestor@),
{
    if ancestor.block_num != new_block.block_num {
        Resolution::Lookup(copy_bytes(&ancestor.previous_id))
    } else if bytes_greater(new_block.block_id.as_slice(), ancestor.block_id.as_slice()) {
        Resolution::Decided(Verdict::SwitchFork)
    } else {
        Resolution::Decided(Verdict::Ignore)
    }
}

/// A block above the chain head is committed, whatever the identifiers.
pub proof fn lemma_higher_block_commits(new_block: BlockView, chain_head: BlockView)
    requires
        new_block.block_num > chain_head.block_num,
    ensures
        resolve_at_head(new_block, chain_head) == ResolutionView::Decided(Verdict::Commit),
        forall|ancestors: Seq<BlockView>|
            resolve_along(new_block, chain_head, ancestors) == Some(Verdict::Commit),
{
}

/// At the head's height a block is committed exactly when its identifier
/// outranks the head's; otherwise it is ignored.
pub proof fn lemma_equal_height_by_identifier(new_block: BlockView, chain_head: BlockView)
    requires
        new_block.block_num == chain_head.block_num,
    ensures
        resolve_at_head(new_block, chain_head) == ResolutionView::Decided(Verdict::Commit)
            <==> outranks(new_block.block_id, chain_head.block_id),
        resolve_at_head(new_block, chain_head) == ResolutionView::Decided(Verdict::Ignore)
            <==> !outranks(new_block.block_id, chain_head.block_id),
{
}

/// Of two blocks at one height with different identifiers, exactly one is
/// committed over the other: swapping their roles flips the outcome.
pub proof fn lemma_equal_height_swap(b1: BlockView, b2: BlockView)
    requires
        b1.block_num == b2.block_num,
        b1.block_id != b2.block_id,
    ensures
        resolve_at_head(b1, b2) == ResolutionView::Decided(Verdict::Commit)
            <==> resolve_at_head(b2, b1) == ResolutionView::Decided(Verdict::Ignore),
        resolve_at_head(b1, b2) == ResolutionView::Decided(Verdict::Commit)
            <==> resolve_at_head(b2, b1) != ResolutionView::Decided(Verdict::Commit),
{
    lemma_lex_asymmetric(b1.block_id, b2.block_id);
    lemma_lex_total(b1.block_id, b2.block_id);
}

/// A block below the head is never committed without a look at the head's
/// ancestry, and once the walk meets the ancestor at the block's height,
/// the identifiers decide.
pub proof fn lemma_lower_block_by_ancestor(
    new_block: BlockView,
    chain_head: BlockView,
    ancestors: Seq<BlockView>,
    depth: int,
)
    requires
        new_block.block_num < chain_head.block_num,
        0 <= depth < ancestors.len(),
        ancestors[depth].block_num == new_block.block_num,
        forall|i: int| 0 <= i < depth ==> ancestors[i].block_num != new_block.block_num,
    ensures
        resolve_along(new_block, chain_head, ancestors) == Some(
            if outranks(new_block.block_id, ancestors[depth].block_id) {
                Verdict::SwitchFork
            } else {
                Verdict::Ignore
            },
        ),
{
    lemma_walk_back_to(new_block, ancestors, depth);
}

proof fn lemma_walk_back_to(new_block: BlockView, ancestors: Seq<BlockView>, depth: int)
    requires
        0 <= depth < ancestors.len(),
        ancestors[depth].block_num == new_block.block_num,
        forall|i: int| 0 <= i < depth ==> ancestors[i].block_num != new_block.block_num,
    ensures
        walk_back(new_block, ancestors) == Some(
            if outranks(new_block.block_id, ancestors[depth].block_id) {
                Verdict::SwitchFork
            } else {
                Verdict::Ignore
            },
        ),
    decreases depth,
{
    if depth > 0 {
        let rest = ancestors.drop_first();
        assert(rest[depth - 1] == ancestors[depth]);
        assert forall|i: int| 0 <= i < depth - 1 implies rest[i].block_num
            != new_block.block_num by {
            assert(rest[i] == ancestors[i + 1]);
        }
        lemma_walk_back_to(new_block, rest, depth - 1);
    }
}

} // verus!
