//! The chain service as the engine uses it.
//!
//! The validator answers the requests below. The engine never talks to it:
//! it names the request to make, and whoever drives the engine makes it and
//! hands the reply back. [`DevmodeService`] builds the requests and says what
//! each reply means: which failures end the engine, which are harmless and
//! which are tried again after a pause.

use vstd::prelude::*;
use crate::block::{Block, BlockView};
use crate::bytes::copy_bytes;
use crate::consensus::{consensus_of, create_consensus};
use crate::message::DevmodeMessage;
use crate::wait::{
    calculate_wait_time, is_wait_time, max_wait_time_key, min_wait_time_key, range_of_read,
    setting_values, wait_time_keys,
};

verus! {

/// Seconds to pause before a block that was not ready is tried again.
pub const RETRY_INTERVAL_SECS: u64 = 1;

/// How a request to the chain service failed.
#[derive(Clone, Copy, Debug, PartialEq, Eq, Structural)]
pub enum ServiceError {
    EncodingError,
    SendError,
    ReceiveError,
    InvalidState,
    UnknownBlock,
    UnknownPeer,
    NoChainHead,
    BlockNotReady,
}

/// The things the engine asks of the chain service that must not fail.
#[derive(Clone, Copy, Debug, PartialEq, Eq, Structural)]
pub enum Operation {
    GetChainHead,
    GetBlock,
    InitializeBlock,
    SummarizeBlock,
    FinalizeBlock,
    CheckBlock,
    FailBlock,
    IgnoreBlock,
    CommitBlock,
    CancelBlock,
    BroadcastPublishedBlock,
    SendBlockReceived,
    SendBlockAck,
}

/// Why the engine cannot go on.
#[derive(Clone, Copy, Debug, PartialEq, Eq, Structural)]
pub enum Fault {
    /// The chain service failed a request that must not fail.
    Service { operation: Operation, error: ServiceError },
    /// The chain service answered a lookup without the block asked for.
    MissingBlock,
    /// A peer sent a message of a kind that the engine does not know.
    InvalidMessageType,
    /// What was handed to the engine does not answer what it asked for.
    Unexpected,
}

/// A request to the chain service.
#[derive(Clone, Debug, PartialEq, Eq)]
pub enum ServiceRequest {
    /// Send a message to one connected peer.
    SendTo { peer: Vec<u8>, message_type: DevmodeMessage, payload: Vec<u8> },
    /// Send a message to every connected peer.
    Broadcast { message_type: DevmodeMessage, payload: Vec<u8> },
    /// Start building a block on the current chain head.
    InitializeBlock,
    /// Stop adding to the block in progress and summarize it.
    SummarizeBlock,
    /// Put the consensus data into the block in progress and sign it.
    FinalizeBlock { data: Vec<u8> },
    /// Abandon the block in progress.
    CancelBlock,
    /// Have the block checked.
    CheckBlock { block_id: Vec<u8> },
    /// Have the block committed.
    CommitBlock { block_id: Vec<u8> },
    /// Drop the block without committing it.
    IgnoreBlock { block_id: Vec<u8> },
    /// Mark the block as invalid.
    FailBlock { block_id: Vec<u8> },
    /// Look up a block.
    GetBlock { block_id: Vec<u8> },
    /// Look up the chain head.
    GetChainHead,
    /// Read the settings with the given names as of the given block.
    GetSettings { block_id: Vec<u8>, keys: Vec<String> },
}

/// The mathematical content of a [`ServiceRequest`].
pub ghost enum ServiceRequestView {
    SendTo { peer: Seq<u8>, message_type: DevmodeMessage, payload: Seq<u8> },
    Broadcast { message_type: DevmodeMessage, payload: Seq<u8> },
    InitializeBlock,
    SummarizeBlock,
    FinalizeBlock { data: Seq<u8> },
    CancelBlock,
    CheckBlock { block_id: Seq<u8> },
    CommitBlock { block_id: Seq<u8> },
    IgnoreBlock { block_id: Seq<u8> },
    FailBlock { block_id: Seq<u8> },
    GetBlock { block_id: Seq<u8> },
    GetChainHead,
    GetSettings { block_id: Seq<u8>, keys: Seq<Seq<char>> },
}

impl View for ServiceRequest {
    type V = ServiceRequestView;

    open spec fn view(&self) -> ServiceRequestView {
        match self {
            ServiceRequest::SendTo { peer, message_type, payload } => ServiceRequestView::SendTo {
                peer: peer@,
                message_type: *message_type,
                payload: payload@,
            },
            ServiceRequest::Broadcast { message_type, payload } => ServiceRequestView::Broadcast {
                message_type: *message_type,
                payload: payload@,
            },
            ServiceRequest::InitializeBlock => ServiceRequestView::InitializeBlock,
            ServiceRequest::SummarizeBlock => ServiceRequestView::SummarizeBlock,
            ServiceRequest::FinalizeBlock { data } => ServiceRequestView::FinalizeBlock {
                data: data@,
            },
            ServiceRequest::CancelBlock => ServiceRequestView::CancelBlock,
            ServiceRequest::CheckBlock { block_id } => ServiceRequestView::CheckBlock {
                block_id: block_id@,
            },
            ServiceRequest::CommitBlock { block_id } => ServiceRequestView::CommitBlock {
                block_id: block_id@,
            },
            ServiceRequest::IgnoreBlock { block_id } => ServiceRequestView::IgnoreBlock {
                block_id: block_id@,
            },
            ServiceRequest::FailBlock { block_id } => ServiceRequestView::FailBlock {
                block_id: block_id@,
            },
            ServiceRequest::GetBlock { block_id } => ServiceRequestView::GetBlock {
                block_id: block_id@,
            },
            ServiceRequest::GetChainHead => ServiceRequestView::GetChainHead,
            ServiceRequest::GetSettings { block_id, keys } => ServiceRequestView::GetSettings {
                block_id: block_id@,
                keys: Seq::new(keys@.len(), |i: int| keys@[i]@),
            },
        }
    }
}

/// What the chain service answered.
#[derive(Clone, Debug, PartialEq, Eq)]
pub enum ServiceReply {
    /// The request succeeded and returned nothing.
    Done,
    /// The chain head.
    ChainHead(Block),
    /// The block that was looked up, or nothing where the answer lacks it.
    Block(Option<Block>),
    /// The summary of the block in progress.
    Summary(Vec<u8>),
    /// The identifier of the block that was finalized.
    BlockId(Vec<u8>),
    /// The values of the settings asked for, in the order asked; nothing
    /// for a setting that has no value.
    Settings(Vec<Option<String>>),
    /// The request failed.
    Failed(ServiceError),
}

/// The mathematical content of a [`ServiceReply`].
pub ghost enum ServiceReplyView {
    Done,
    ChainHead(BlockView),
    Block(Option<BlockView>),
    Summary(Seq<u8>),
    BlockId(Seq<u8>),
    Settings(Seq<Option<Seq<char>>>),
    Failed(ServiceError),
}

impl View for ServiceReply {
    type V = ServiceReplyView;

    open spec fn view(&self) -> ServiceReplyView {
        match self {
            ServiceReply::Done => ServiceReplyView::Done,
            ServiceReply::ChainHead(block) => ServiceReplyView::ChainHead(block@),
            ServiceReply::Block(found) => ServiceReplyView::Block(
                match found {
                    Some(block) => Some(block@),
                    None => None,
                },
            ),
            ServiceReply::Summary(summary) => ServiceReplyView::Summary(summary@),
            ServiceReply::BlockId(block_id) => ServiceReplyView::BlockId(block_id@),
            ServiceReply::Settings(values) => ServiceReplyView::Settings(setting_values(values@)),
            ServiceReply::Failed(error) => ServiceReplyView::Failed(*error),
        }
    }
}

/// Remembers which waits for a block have been announced, so that a block
/// that stays unready is announced once and not at every retry.
#[derive(Clone, Copy, Debug, PartialEq, Eq, Structural)]
pub struct LogGuard {
    pub not_ready_to_summarize: bool,
    pub not_ready_to_finalize: bool,
}

/// Where the finalizing of a block stands.
#[derive(Clone, Debug, PartialEq, Eq)]
pub enum FinalizeProgress {
    /// The request for the summary is under way.
    Summarizing,
    /// The block was not ready to be summarized; the pause is under way.
    SummarizeBackoff,
    /// The request to finalize with this consensus data is under way.
    Finalizing { consensus: Vec<u8> },
    /// The block was not ready to be finalized; the pause is under way.
    FinalizeBackoff { consensus: Vec<u8> },
}

/// The mathematical content of a [`FinalizeProgress`].
pub ghost enum FinalizeProgressView {
    Summarizing,
    SummarizeBackoff,
    Finalizing { consensus: Seq<u8> },
    FinalizeBackoff { consensus: Seq<u8> },
}

impl View for FinalizeProgress {
    type V = FinalizeProgressView;

    open spec fn view(&self) -> FinalizeProgressView {
        match self {
            FinalizeProgress::Summarizing => FinalizeProgressView::Summarizing,
            FinalizeProgress::SummarizeBackoff => FinalizeProgressView::SummarizeBackoff,
            FinalizeProgress::Finalizing { consensus } => FinalizeProgressView::Finalizing {
                consensus: consensus@,
            },
            FinalizeProgress::FinalizeBackoff { consensus } => FinalizeProgressView::FinalizeBackoff {
                consensus: consensus@,
            },
        }
    }
}

/// What finalizing a block needs next.
#[derive(Clone, Debug, PartialEq, Eq)]
pub enum FinalizeStep {
    /// Make the request and hand back the reply.
    Request(FinalizeProgress, ServiceRequest),
    /// Pause for [`RETRY_INTERVAL_SECS`], then retry. The flag says whether
    /// this is the first pause of its kind, the one worth announcing.
    Backoff(FinalizeProgress, bool),
    /// The block is finalized and has this identifier.
    Finished(Vec<u8>),
    /// Finalizing failed for good.
    Failed(Fault),
}

/// The mathematical content of a [`FinalizeStep`].
pub ghost enum FinalizeStepView {
    Request(FinalizeProgressView, ServiceRequestView),
    Backoff(FinalizeProgressView, bool),
    Finished(Seq<u8>),
    Failed(Fault),
}

impl View for FinalizeStep {
    type V = FinalizeStepView;

    open spec fn view(&self) -> FinalizeStepView {
        match self {
            FinalizeStep::Request(progress, request) => FinalizeStepView::Request(
                progress@,
                request@,
            ),
            FinalizeStep::Backoff(progress, announce) => FinalizeStepView::Backoff(
                progress@,
                *announce,
            ),
            FinalizeStep::Finished(block_id) => FinalizeStepView::Finished(block_id@),
            FinalizeStep::Failed(fault) => FinalizeStepView::Failed(*fault),
        }
    }
}

/// What a reply means for a request that returns nothing and must not fail.
pub open spec fn done_or_fault(operation: Operation, reply: ServiceReplyView) -> Result<(), Fault> {
    match reply {
        ServiceReplyView::Done => Ok(()),
        ServiceReplyView::Failed(error) => Err(Fault::Service { operation, error }),
        _ => Err(Fault::Unexpected),
    }
}

/// What a reply means for the request to abandon the block in progress:
/// that there was no block to abandon is no failure.
pub open spec fn canceled_or_fault(reply: ServiceReplyView) -> Result<(), Fault> {
    match reply {
        ServiceReplyView::Done => Ok(()),
        ServiceReplyView::Failed(ServiceError::InvalidState) => Ok(()),
        ServiceReplyView::Failed(error) => Err(
            Fault::Service { operation: Operation::CancelBlock, error },
        ),
        _ => Err(Fault::Unexpected),
    }
}

/// What a reply means for the lookup of the chain head.
pub open spec fn chain_head_or_fault(reply: ServiceReplyView) -> Result<BlockView, Fault> {
    match reply {
        ServiceReplyView::ChainHead(block) => Ok(block),
        ServiceReplyView::Failed(error) => Err(
            Fault::Service { operation: Operation::GetChainHead, error },
        ),
        _ => Err(Fault::Unexpected),
    }
}

/// What a reply means for the lookup of a block.
pub open spec fn block_or_fault(reply: ServiceReplyView) -> Result<BlockView, Fault> {
    match reply {
        ServiceReplyView::Block(Some(block)) => Ok(block),
        ServiceReplyView::Block(None) => Err(Fault::MissingBlock),
        ServiceReplyView::Failed(error) => Err(
            Fault::Service { operation: Operation::GetBlock, error },
        ),
        _ => Err(Fault::Unexpected),
    }
}

/// The values that a reply to the read of the settings holds: none where
/// the read failed.
pub open spec fn settings_read(reply: ServiceReplyView) -> Option<Seq<Option<Seq<char>>>> {
    match reply {
        ServiceReplyView::Settings(values) => Some(values),
        _ => None,
    }
}

/// What a reply means while a block is being finalized, and what it does
/// to the record of announced waits.
///
/// A block that is not ready is retried after a pause, first its summary
/// and then the finalizing itself, each time with the same consensus data.
/// The first pause of a kind is announced; the record is cleared when the
/// wait ends, however it ends.
pub open spec fn finalize_on_reply(
    guard: LogGuard,
    progress: FinalizeProgressView,
    reply: ServiceReplyView,
) -> (LogGuard, FinalizeStepView) {
    match progress {
        FinalizeProgressView::Summarizing => match reply {
            ServiceReplyView::Summary(summary) => (
                LogGuard { not_ready_to_summarize: false, ..guard },
                FinalizeStepView::Request(
                    FinalizeProgressView::Finalizing { consensus: consensus_of(summary) },
                    ServiceRequestView::FinalizeBlock { data: consensus_of(summary) },
                ),
            ),
            ServiceReplyView::Failed(ServiceError::BlockNotReady) => (
                LogGuard { not_ready_to_summarize: true, ..guard },
                FinalizeStepView::Backoff(
                    FinalizeProgressView::SummarizeBackoff,
                    !guard.not_ready_to_summarize,
                ),
            ),
            ServiceReplyView::Failed(error) => (
                LogGuard { not_ready_to_summarize: false, ..guard },
                FinalizeStepView::Failed(
                    Fault::Service { operation: Operation::SummarizeBlock, error },
                ),
            ),
            _ => (guard, FinalizeStepView::Failed(Fault::Unexpected)),
        },
        FinalizeProgressView::Finalizing { consensus } => match reply {
            ServiceReplyView::BlockId(block_id) => (
                LogGuard { not_ready_to_finalize: false, ..guard },
                FinalizeStepView::Finished(block_id),
            ),
            ServiceReplyView::Failed(ServiceError::BlockNotReady) => (
                LogGuard { not_ready_to_finalize: true, ..guard },
                FinalizeStepView::Backoff(
                    FinalizeProgressView::FinalizeBackoff { consensus },
                    !guard.not_ready_to_finalize,
                ),
            ),
            ServiceReplyView::Failed(error) => (
                LogGuard { not_ready_to_finalize: false, ..guard },
                FinalizeStepView::Failed(
                    Fault::Service { operation: Operation::FinalizeBlock, error },
                ),
            ),
            _ => (guard, FinalizeStepView::Failed(Fault::Unexpected)),
        },
        _ => (guard, FinalizeStepView::Failed(Fault::Unexpected)),
    }
}

/// What finalizing needs once a pause is over: the same request again.
pub open spec fn finalize_on_wake(progress: FinalizeProgressView) -> FinalizeStepView {
    match progress {
        FinalizeProgressView::SummarizeBackoff => FinalizeStepView::Request(
            FinalizeProgressView::Summarizing,
            ServiceRequestView::SummarizeBlock,
        ),
        FinalizeProgressView::FinalizeBackoff { consensus } => FinalizeStepView::Request(
            FinalizeProgressView::Finalizing { consensus },
            ServiceRequestView::FinalizeBlock { data: consensus },
        ),
        _ => FinalizeStepView::Failed(Fault::Unexpected),
    }
}

/// The engine's side of the chain service.
#[derive(Clone, Debug, PartialEq, Eq)]
pub struct DevmodeService {
    pub log_guard: LogGuard,
}

impl DevmodeService {
    /// A service side that has announced nothing yet.
    pub fn new() -> (service: Self)
        ensures
            service.log_guard == (LogGuard {
                not_ready_to_summarize: false,
                not_ready_to_finalize: false,
            }),
    {
        DevmodeService {
            log_guard: LogGuard { not_ready_to_summarize: false, not_ready_to_finalize: false },
        }
    }

    /// The request for the chain head.
    pub fn get_chain_head(&self) -> (request: ServiceRequest)
        ensures
            request@ == ServiceRequestView::GetChainHead,
    {
        ServiceRequest::GetChainHead
    }

    /// The request for the block with the given identifier.
    pub fn get_block(&self, block_id: &Vec<u8>) -> (request: ServiceRequest)
        ensures
            request@ == (ServiceRequestView::GetBlock { block_id: block_id@ }),
    {
        ServiceRequest::GetBlock { block_id: copy_bytes(block_id) }
    }

    /// The request to start a block on the current chain head.
    pub fn initialize_block(&self) -> (request: ServiceRequest)
        ensures
            request@ == ServiceRequestView::InitializeBlock,
    {
        ServiceRequest::InitializeBlock
    }

    /// The request to have a block checked.
    pub fn check_block(&self, block_id: Vec<u8>) -> (request: ServiceRequest)
        ensures
            request@ == (ServiceRequestView::CheckBlock { block_id: block_id@ }),
    {
        ServiceRequest::CheckBlock { block_id }
    }

    /// The request to mark a block as invalid.
    pub fn fail_block(&self, block_id: Vec<u8>) -> (request: ServiceRequest)
        ensures
            request@ == (ServiceRequestView::FailBlock { block_id: block_id@ }),
    {
        ServiceRequest::FailBlock { block_id }
    }

    /// The request to drop a block.
    pub fn ignore_block(&self, block_id: Vec<u8>) -> (request: ServiceRequest)
        ensures
            request@ == (ServiceRequestView::IgnoreBlock { block_id: block_id@ }),
    {
        ServiceRequest::IgnoreBlock { block_id }
    }

    /// The request to commit a block.
    pub fn commit_block(&self, block_id: Vec<u8>) -> (request: ServiceRequest)
        ensures
            request@ == (ServiceRequestView::CommitBlock { block_id: block_id@ }),
    {
        ServiceRequest::CommitBlock { block_id }
    }

    /// The request to abandon the block in progress.
    pub fn cancel_block(&self) -> (request: ServiceRequest)
        ensures
            request@ == ServiceRequestView::CancelBlock,
    {
        ServiceRequest::CancelBlock
    }

    /// The request that tells every peer of a block this engine published.
    pub fn broadcast_published_block(&self, block_id: Vec<u8>) -> (request: ServiceRequest)
        ensures
            request@ == (ServiceRequestView::Broadcast {
                message_type: DevmodeMessage::Published,
                payload: block_id@,
            }),
    {
        ServiceRequest::Broadcast { message_type: DevmodeMessage::Published, payload: block_id }
    }

    /// The request that tells a block's signer that the block arrived.
    pub fn send_block_received(&self, block: &Block) -> (request: ServiceRequest)
        ensures
            request@ == (ServiceRequestView::SendTo {
                peer: block@.signer_id,
                message_type: DevmodeMessage::Received,
                payload: block@.block_id,
            }),
    {
        ServiceRequest::SendTo {
            peer: copy_bytes(&block.signer_id),
            message_type: DevmodeMessage::Received,
            payload: copy_bytes(&block.block_id),
        }
    }

    /// The request that confirms to a peer that its notice of receipt
    /// arrived.
    pub fn send_block_ack(&self, sender_id: Vec<u8>, block_id: Vec<u8>) -> (request:
        ServiceRequest)
        ensures
            request@ == (ServiceRequestView::SendTo {
                peer: sender_id@,
                message_type: DevmodeMessage::Ack,
                payload: block_id@,
            }),
    {
        ServiceRequest::SendTo {
            peer: sender_id,
            message_type: DevmodeMessage::Ack,
            payload: block_id,
        }
    }

    /// The request for the two wait settings as of the given chain head:
    /// the minimum first, then the maximum.
    pub fn get_settings(&self, chain_head_id: Vec<u8>) -> (request: ServiceRequest)
        ensures
            request@ == (ServiceRequestView::GetSettings {
                block_id: chain_head_id@,
                keys: seq![min_wait_time_key(), max_wait_time_key()],
            }),
    {
        let keys = wait_time_keys();
        assert(Seq::new(keys@.len(), |i: int| keys@[i]@) =~= seq![
            min_wait_time_key(),
            max_wait_time_key(),
        ]);
        ServiceRequest::GetSettings { block_id: chain_head_id, keys }
    }

    /// Calculates the time to wait before publishing, in seconds, from the
    /// reply to the read of the wait settings. With a minimum below the
    /// maximum the wait is a random number of seconds from the minimum up
    /// to, and not including, the maximum. A failed read, a missing or
    /// malformed value, or a minimum that is not below the maximum give the
    /// default, which is no wait.
    pub fn calculate_wait_time(&self, reply: &ServiceReply) -> (seconds: u64)
        ensures
            is_wait_time(range_of_read(settings_read(reply@)), seconds),
    {
        match reply {
            ServiceReply::Settings(values) => calculate_wait_time(Some(values)),
            _ => calculate_wait_time(None),
        }
    }

    /// Reads the reply to a request that returns nothing and must succeed.
    pub fn expect_done(&self, operation: Operation, reply: ServiceReply) -> (outcome: Result<
        (),
        Fault,
    >)
        ensures
            outcome == done_or_fault(operation, reply@),
    {
        match reply {
            ServiceReply::Done => Ok(()),
            ServiceReply::Failed(error) => Err(Fault::Service { operation, error }),
            _ => Err(Fault::Unexpected),
        }
    }

    /// Reads the reply to the request to abandon the block in progress.
    /// That no block was in progress is fine; any other failure is a fault.
    pub fn expect_canceled(&self, reply: ServiceReply) -> (outcome: Result<(), Fault>)
        ensures
            outcome == canceled_or_fault(reply@),
    {
        match reply {
            ServiceReply::Done => Ok(()),
            ServiceReply::Failed(ServiceError::InvalidState) => Ok(()),
            ServiceReply::Failed(error) => Err(
                Fault::Service { operation: Operation::CancelBlock, error },
            ),
            _ => Err(Fault::Unexpected),
        }
    }

    /// Reads the reply to the lookup of the chain head.
    pub fn expect_chain_head(&self, reply: ServiceReply) -> (outcome: Result<Block, Fault>)
        ensures
            match chain_head_or_fault(reply@) {
                Ok(block) => outcome matches Ok(found) && found@ == block,
                Err(fault) => outcome matches Err(raised) && raised == fault,
            },
    {
        match reply {
            ServiceReply::ChainHead(block) => Ok(block),
            ServiceReply::Failed(error) => Err(
                Fault::Service { operation: Operation::GetChainHead, error },
            ),
            _ => Err(Fault::Unexpected),
        }
    }

    /// Reads the reply to the lookup of a block. An answer without the
    /// block is a fault.
    pub fn expect_block(&self, reply: ServiceReply) -> (outcome: Result<Block, Fault>)
        ensures
            match block_or_fault(reply@) {
                Ok(block) => outcome matches Ok(found) && found@ == block,
                Err(fault) => outcome matches Err(raised) && raised == fault,
            },
    {
        match reply {
            ServiceReply::Block(Some(block)) => Ok(block),
            ServiceReply::Block(None) => Err(Fault::MissingBlock),
            ServiceReply::Failed(error) => Err(
                Fault::Service { operation: Operation::GetBlock, error },
            ),
            _ => Err(Fault::Unexpected),
        }
    }

    /// Begins to finalize the block in progress: the first thing to ask for
    /// is its summary.
    pub fn finalize_block(&self) -> (step: FinalizeStep)
        ensures
            step@ == FinalizeStepView::Request(
                FinalizeProgressView::Summarizing,
                ServiceRequestView::SummarizeBlock,
            ),
    {
        FinalizeStep::Request(FinalizeProgress::Summarizing, ServiceRequest::SummarizeBlock)
    }

    /// Goes on with finalizing after a reply from the chain service.
    pub fn finalize_block_reply(&mut self, progress: FinalizeProgress, reply: ServiceReply) -> (step:
        FinalizeStep)
        ensures
            (final(self).log_guard, step@) == finalize_on_reply(
                old(self).log_guard,
                progress@,
                reply@,
            ),
    {
        match progress {
            FinalizeProgress::Summarizing => match reply {
                ServiceReply::Summary(summary) => {
                    self.log_guard.not_ready_to_summarize = false;
                    let consensus = create_consensus(summary.as_slice());
                    let data = copy_bytes(&consensus);
                    FinalizeStep::Request(
                        FinalizeProgress::Finalizing { consensus },
                        ServiceRequest::FinalizeBlock { data },
                    )
                },
                ServiceReply::Failed(ServiceError::BlockNotReady) => {
                    let announce = !self.log_guard.not_ready_to_summarize;
                    self.log_guard.not_ready_to_summarize = true;
                    FinalizeStep::Backoff(FinalizeProgress::SummarizeBackoff, announce)
                },
                ServiceReply::Failed(error) => {
                    self.log_guard.not_ready_to_summarize = false;
                    FinalizeStep::Failed(
                        Fault::Service { operation: Operation::SummarizeBlock, error },
                    )
                },
                _ => FinalizeStep::Failed(Fault::Unexpected),
            },
            FinalizeProgress::Finalizing { consensus } => match reply {
                ServiceReply::BlockId(block_id) => {
                    self.log_guard.not_ready_to_finalize = false;
                    FinalizeStep::Finished(block_id)
                },
                ServiceReply::Failed(ServiceError::BlockNotReady) => {
                    let announce = !self.log_guard.not_ready_to_finalize;
                    self.log_guard.not_ready_to_finalize = true;
                    FinalizeStep::Backoff(FinalizeProgress::FinalizeBackoff { consensus }, announce)
                },
                ServiceReply::Failed(error) => {
                    self.log_guard.not_ready_to_finalize = false;
                    FinalizeStep::Failed(
                        Fault::Service { operation: Operation::FinalizeBlock, error },
                    )
                },
                _ => FinalizeStep::Failed(Fault::Unexpected),
            },
            _ => FinalizeStep::Failed(Fault::Unexpected),
        }
    }

    /// Goes on with finalizing after a pause: asks again for what was not
    /// ready.
    pub fn finalize_block_retry(&self, progress: FinalizeProgress) -> (step: FinalizeStep)
        ensures
            step@ == finalize_on_wake(progress@),
    {
        match progress {
            FinalizeProgress::SummarizeBackoff => FinalizeStep::Request(
                FinalizeProgress::Summarizing,
                ServiceRequest::SummarizeBlock,
            ),
            FinalizeProgress::FinalizeBackoff { consensus } => {
                let data = copy_bytes(&consensus);
                FinalizeStep::Request(
                    FinalizeProgress::Finalizing { consensus },
                    ServiceRequest::FinalizeBlock { data },
                )
            },
            _ => FinalizeStep::Failed(Fault::Unexpected),
        }
    }
}

} // verus!
