//! What the validator tells the engine.

use vstd::prelude::*;
use crate::block::{Block, BlockView};

verus! {

/// A message from another engine, as far as this engine reads it.
#[derive(Clone, Debug, PartialEq, Eq)]
pub struct PeerMessage {
    /// The wire word for the kind of message.
    pub message_type: String,
    /// The identifier of the block that the message is about.
    pub content: Vec<u8>,
}

/// The mathematical content of a [`PeerMessage`].
pub ghost struct PeerMessageView {
    pub message_type: Seq<char>,
    pub content: Seq<u8>,
}

impl View for PeerMessage {
    type V = PeerMessageView;

    open spec fn view(&self) -> PeerMessageView {
        PeerMessageView { message_type: self.message_type@, content: self.content@ }
    }
}

/// An update from the validator.
#[derive(Clone, Debug, PartialEq, Eq)]
pub enum Update {
    /// A peer connected.
    PeerConnected(Vec<u8>),
    /// A peer disconnected.
    PeerDisconnected(Vec<u8>),
    /// A peer, named second, sent a message.
    PeerMessage(PeerMessage, Vec<u8>),
    /// A block arrived.
    BlockNew(Block),
    /// A block was found valid.
    BlockValid(Vec<u8>),
    /// A block was found invalid.
    BlockInvalid(Vec<u8>),
    /// A block was committed and is the new chain head.
    BlockCommit(Vec<u8>),
    /// The validator is shutting down.
    Shutdown,
}

/// The mathematical content of an [`Update`].
pub ghost enum UpdateView {
    PeerConnected(Seq<u8>),
    PeerDisconnected(Seq<u8>),
    PeerMessage(PeerMessageView, Seq<u8>),
    BlockNew(BlockView),
    BlockValid(Seq<u8>),
    BlockInvalid(Seq<u8>),
    BlockCommit(Seq<u8>),
    Shutdown,
}

impl View for Update {
    type V = UpdateView;

    open spec fn view(&self) -> UpdateView {
        match self {
            Update::PeerConnected(peer) => UpdateView::PeerConnected(peer@),
            Update::PeerDisconnected(peer) => UpdateView::PeerDisconnected(peer@),
            Update::PeerMessage(message, sender) => UpdateView::PeerMessage(message@, sender@),
            Update::BlockNew(block) => UpdateView::BlockNew(block@),
            Update::BlockValid(block_id) => UpdateView::BlockValid(block_id@),
            Update::BlockInvalid(block_id) => UpdateView::BlockInvalid(block_id@),
            Update::BlockCommit(block_id) => UpdateView::BlockCommit(block_id@),
            Update::Shutdown => UpdateView::Shutdown,
        }
    }
}

/// The name of each kind of update.
pub open spec fn update_name(update: UpdateView) -> Seq<char> {
    match update {
        UpdateView::PeerConnected(_) => "PeerConnected"@,
        UpdateView::PeerDisconnected(_) => "PeerDisconnected"@,
        UpdateView::PeerMessage(_, _) => "PeerMessage"@,
        UpdateView::BlockNew(_) => "BlockNew"@,
        UpdateView::BlockValid(_) => "BlockValid"@,
        UpdateView::BlockInvalid(_) => "BlockInvalid"@,
        UpdateView::BlockCommit(_) => "BlockCommit"@,
        UpdateView::Shutdown => "Shutdown"@,
    }
}

/// Names the kind of an update, for the record of what the engine received.
pub fn message_type(update: &Update) -> (name: &'static str)
    ensures
        name@ == update_name(update@),
{
    match update {
        Update::PeerConnected(_) => "PeerConnected",
        Update::PeerDisconnected(_) => "PeerDisconnected",
        Update::PeerMessage(_, _) => "PeerMessage",
        Update::BlockNew(_) => "BlockNew",
        Update::BlockValid(_) => "BlockValid",
        Update::BlockInvalid(_) => "BlockInvalid",
        Update::BlockCommit(_) => "BlockCommit",
        Update::Shutdown => "Shutdown",
    }
}

} // verus!
