//! Blocks as the engine sees them.

use vstd::prelude::*;
use crate::bytes::{bytes_equal, hex_of, to_hex};
use crate::text::{decimal_of, to_decimal};

verus! {

/// What the engine reads of a block. The validator owns the block itself;
/// the engine refers to it by its identifier.
#[derive(Clone, Debug, PartialEq, Eq)]
pub struct Block {
    pub block_id: Vec<u8>,
    pub previous_id: Vec<u8>,
    pub signer_id: Vec<u8>,
    pub block_num: u64,
    pub payload: Vec<u8>,
    pub summary: Vec<u8>,
}

/// The mathematical content of a [`Block`].
pub ghost struct BlockView {
    pub block_id: Seq<u8>,
    pub previous_id: Seq<u8>,
    pub signer_id: Seq<u8>,
    pub block_num: u64,
    pub payload: Seq<u8>,
    pub summary: Seq<u8>,
}

impl View for Block {
    type V = BlockView;

    open spec fn view(&self) -> BlockView {
        BlockView {
            block_id: self.block_id@,
            previous_id: self.previous_id@,
            signer_id: self.signer_id@,
            block_num: self.block_num,
            payload: self.payload@,
            summary: self.summary@,
        }
    }
}

/// The identifier that a block names as its predecessor when it has none:
/// eight zero bytes.
pub open spec fn null_block_identifier() -> Seq<u8> {
    seq![0u8, 0u8, 0u8, 0u8, 0u8, 0u8, 0u8, 0u8]
}

/// Whether `id` is the null identifier.
pub fn is_null_identifier(id: &[u8]) -> (null: bool)
    ensures
        null == (id@ == null_block_identifier()),
{
    let zeros: [u8; 8] = [0, 0, 0, 0, 0, 0, 0, 0];
    bytes_equal(id, zeros.as_slice())
}

impl Block {
    /// Whether this block names no valid predecessor, as a genesis block does.
    pub fn is_genesis(&self) -> (genesis: bool)
        ensures
            genesis == (self@.previous_id == null_block_identifier()),
    {
        is_null_identifier(self.previous_id.as_slice())
    }
}

/// A block as a line of text: its height, its identifier and that of its
/// predecessor, the identifiers in hexadecimal.
pub struct DisplayBlock<'b>(pub &'b Block);

/// The line of text that describes a block.
pub open spec fn block_text(block: BlockView) -> Seq<char> {
    "Block("@ + decimal_of(block.block_num as nat) + ", id: "@ + hex_of(block.block_id)
        + ", prev: "@ + hex_of(block.previous_id) + ")"@
}

impl<'b> DisplayBlock<'b> {
    /// Writes the line of text that describes the block.
    pub fn to_string(&self) -> (text: String)
        ensures
            text@ == block_text(self.0@),
    {
        let mut text = String::from_str("Block(");
        text.append(to_decimal(self.0.block_num).as_str());
        text.append(", id: ");
        text.append(to_hex(self.0.block_id.as_slice()).as_str());
        text.append(", prev: ");
        text.append(to_hex(self.0.previous_id.as_slice()).as_str());
        text.append(")");
        text
    }
}

} // verus!
