//! What holds of the engine over more than one step.

use vstd::prelude::*;
use crate::block::{null_block_identifier, BlockView};
use crate::consensus::passes_consensus;
use crate::engine::{
    next, poll, settings_request, start_step, ActionView, EngineView, InputView, PhaseView,
};
use crate::fork::{outranks, resolve_along, resolve_at_ancestor, walk_back, ResolutionView, Verdict};
use crate::message::DevmodeMessage;
use crate::service::{
    canceled_or_fault, Fault, FinalizeProgressView, ServiceError, ServiceReplyView,
    ServiceRequestView, RETRY_INTERVAL_SECS,
};
use crate::update::UpdateView;

verus! {

/// A block whose predecessor is the null identifier is passed over: the
/// engine goes straight back to waiting for updates, whatever the block
/// holds, and asks the chain service for nothing.
pub proof fn lemma_genesis_block_passed_over(
    s: EngineView,
    block: BlockView,
    now: u128,
    wait_time: u64,
)
    requires
        s.phase is Polling,
        block.previous_id == null_block_identifier(),
    ensures
        next(s, InputView::Update(UpdateView::BlockNew(block)), now, wait_time) == poll(s),
        !(next(s, InputView::Update(UpdateView::BlockNew(block)), now, wait_time).1 is Request),
{
}

/// Any other block is sent on to be checked exactly when it carries the
/// consensus tag of its summary, and is marked as failed otherwise.
pub proof fn lemma_new_block_checked_by_tag(
    s: EngineView,
    block: BlockView,
    now: u128,
    wait_time: u64,
)
    requires
        s.phase is Polling,
        block.previous_id != null_block_identifier(),
    ensures
        next(s, InputView::Update(UpdateView::BlockNew(block)), now, wait_time).1 == (
        if passes_consensus(block) {
            ActionView::Request(ServiceRequestView::CheckBlock { block_id: block.block_id })
        } else {
            ActionView::Request(ServiceRequestView::FailBlock { block_id: block.block_id })
        }),
{
}

/// When the chain head changes while a block is in progress, the engine
/// abandons that block, reads the wait settings as of the new head, starts
/// the timer anew with no block published, and begins a new block. That
/// there was no block to abandon makes no difference.
pub proof fn lemma_commit_starts_new_cycle(
    s: EngineView,
    new_chain_head: Seq<u8>,
    cancel_reply: ServiceReplyView,
    settings_reply: ServiceReplyView,
    times: (u128, u128, u128),
    wait_time: u64,
)
    requires
        s.phase is Polling,
        canceled_or_fault(cancel_reply) is Ok,
    ensures
        ({
            let (s1, a1) = next(
                s,
                InputView::Update(UpdateView::BlockCommit(new_chain_head)),
                times.0,
                wait_time,
            );
            let (s2, a2) = next(s1, InputView::Reply(cancel_reply), times.1, wait_time);
            let (s3, a3) = next(s2, InputView::Reply(settings_reply), times.2, wait_time);
            &&& a1 == ActionView::Request(ServiceRequestView::CancelBlock)
            &&& a2 == ActionView::Request(settings_request(new_chain_head))
            &&& a3 == ActionView::Request(ServiceRequestView::InitializeBlock)
            &&& !s3.published_at_height
            &&& s3.timer_start == times.2
            &&& s3.wait_time == wait_time
        }),
{
}

/// The published flag agrees with what the engine is doing: a block is
/// started or finalized only while none is published on the current chain
/// head, and the peers are told of a block only once it is.
pub open spec fn publishes_once(s: EngineView) -> bool {
    &&& s.phase is Initializing ==> !s.published_at_height
    &&& s.phase is Finalizing ==> !s.published_at_height
    &&& s.phase is Broadcasting ==> s.published_at_height
}

/// The flag agrees with an engine that has not been started, and with one
/// that was just started.
pub proof fn lemma_publishes_once_at_start(s: EngineView, chain_head: BlockView)
    requires
        s.phase is Created,
    ensures
        publishes_once(s),
        publishes_once(start_step(s, chain_head).0),
{
}

/// No step breaks the agreement: the engine never comes to finalize a
/// second block on one chain head.
pub proof fn lemma_publishes_once_preserved(
    s: EngineView,
    input: InputView,
    now: u128,
    wait_time: u64,
)
    requires
        publishes_once(s),
    ensures
        publishes_once(next(s, input, now, wait_time).0),
{
}

/// A block comes to count as published in one way only: the chain service
/// reports the identifier of the block it finalized. The engine then tells
/// the peers of that block.
pub proof fn lemma_published_by_finalize_only(
    s: EngineView,
    input: InputView,
    now: u128,
    wait_time: u64,
)
    requires
        !s.published_at_height,
        next(s, input, now, wait_time).0.published_at_height,
    ensures
        s.phase matches PhaseView::Finalizing(FinalizeProgressView::Finalizing { .. }),
        input matches InputView::Reply(ServiceReplyView::BlockId(block_id)) && next(
            s,
            input,
            now,
            wait_time,
        ).1 == ActionView::Request(
            ServiceRequestView::Broadcast {
                message_type: DevmodeMessage::Published,
                payload: block_id,
            },
        ),
{
}

/// The wait and the start of the timer change in one way only: the engine
/// takes in the reply to a read of the wait settings. So does the fall of
/// the published flag. There is one deadline at a time, and it is replaced
/// as a whole.
pub proof fn lemma_deadline_set_by_settings_only(
    s: EngineView,
    input: InputView,
    now: u128,
    wait_time: u64,
)
    requires
        ({
            let after = next(s, input, now, wait_time).0;
            ||| after.wait_time != s.wait_time
            ||| after.timer_start != s.timer_start
            ||| s.published_at_height && !after.published_at_height
        }),
    ensures
        s.phase is ReadingSettings,
        input is Reply,
        next(s, input, now, wait_time).0.wait_time == wait_time,
        next(s, input, now, wait_time).0.timer_start == now,
        !next(s, input, now, wait_time).0.published_at_height,
{
}

/// Whether the engine holds that the validator has a block in progress for
/// it: one was started on the current chain head and has been neither
/// finalized nor abandoned.
pub open spec fn has_pending_block(s: EngineView) -> bool {
    &&& !s.published_at_height
    &&& !(s.phase is Created)
    &&& !(s.phase is ReadingSettings)
    &&& !(s.phase is Initializing)
    &&& !(s.phase is Broadcasting)
}

/// A block comes to be in progress when the validator confirms that it
/// started one, and at no other step.
pub proof fn lemma_pending_block_begins(
    s: EngineView,
    input: InputView,
    now: u128,
    wait_time: u64,
)
    requires
        publishes_once(s),
        !has_pending_block(s),
        has_pending_block(next(s, input, now, wait_time).0),
        !(next(s, input, now, wait_time).0.phase is Faulted),
        !(next(s, input, now, wait_time).0.phase is Stopped),
    ensures
        s.phase is Initializing,
        input == InputView::Reply(ServiceReplyView::Done),
{
}

/// A block stops being in progress when the validator reports it
/// finalized, or when the engine has had it abandoned and goes on to read
/// the settings for the new chain head, and at no other step.
pub proof fn lemma_pending_block_ends(
    s: EngineView,
    input: InputView,
    now: u128,
    wait_time: u64,
)
    requires
        has_pending_block(s),
        !has_pending_block(next(s, input, now, wait_time).0),
    ensures
        ({
            ||| {
                &&& s.phase matches PhaseView::Finalizing(FinalizeProgressView::Finalizing { .. })
                &&& input matches InputView::Reply(ServiceReplyView::BlockId(_))
            }
            ||| {
                &&& s.phase is Canceling
                &&& input is Reply
                &&& canceled_or_fault(input->Reply_0) is Ok
            }
        }),
{
}

/// Whatever the read of the wait settings gives, afterwards no block
/// counts as published and the timer starts at the time of the reply.
pub proof fn lemma_settings_reset_publishing(
    s: EngineView,
    reply: ServiceReplyView,
    now: u128,
    wait_time: u64,
)
    requires
        s.phase is ReadingSettings,
    ensures
        !next(s, InputView::Reply(reply), now, wait_time).0.published_at_height,
        next(s, InputView::Reply(reply), now, wait_time).0.timer_start == now,
        next(s, InputView::Reply(reply), now, wait_time).0.wait_time == wait_time,
        next(s, InputView::Reply(reply), now, wait_time).1 == ActionView::Request(
            ServiceRequestView::InitializeBlock,
        ),
{
}

/// A valid block above the chain head is committed under the identifier
/// it was reported with, whatever the identifiers are.
pub proof fn lemma_higher_block_committed(
    s: EngineView,
    chain_head: BlockView,
    now: u128,
    wait_time: u64,
)
    requires
        s.phase matches PhaseView::FetchingChainHead { block, .. } && block.block_num
            > chain_head.block_num,
    ensures
        next(s, InputView::Reply(ServiceReplyView::ChainHead(chain_head)), now, wait_time).1
            == ActionView::Request(
            ServiceRequestView::CommitBlock { block_id: s.phase->FetchingChainHead_block_id },
        ),
{
}

/// A valid block at the height of the chain head is committed exactly when
/// its identifier outranks the head's, and is ignored otherwise.
pub proof fn lemma_equal_block_by_identifier(
    s: EngineView,
    chain_head: BlockView,
    now: u128,
    wait_time: u64,
)
    requires
        s.phase matches PhaseView::FetchingChainHead { block, .. } && block.block_num
            == chain_head.block_num,
    ensures
        next(s, InputView::Reply(ServiceReplyView::ChainHead(chain_head)), now, wait_time).1 == (
        if outranks(s.phase->FetchingChainHead_block.block_id, chain_head.block_id) {
            ActionView::Request(
                ServiceRequestView::CommitBlock { block_id: s.phase->FetchingChainHead_block_id },
            )
        } else {
            ActionView::Request(
                ServiceRequestView::IgnoreBlock { block_id: s.phase->FetchingChainHead_block_id },
            )
        }),
{
}

/// The request that carries out a verdict on the block reported under
/// `block_id`.
pub open spec fn directive(verdict: Verdict, block_id: Seq<u8>) -> ActionView {
    if verdict.commits() {
        ActionView::Request(ServiceRequestView::CommitBlock { block_id })
    } else {
        ActionView::Request(ServiceRequestView::IgnoreBlock { block_id })
    }
}

/// Where the engine stands, and what it does next, after the chain service
/// has answered its lookups with `ancestors`, one block for each lookup, for
/// as long as the engine keeps walking back.
pub open spec fn after_lookups(
    s: EngineView,
    action: ActionView,
    ancestors: Seq<BlockView>,
    now: u128,
    wait_time: u64,
) -> (EngineView, ActionView)
    decreases ancestors.len(),
{
    if ancestors.len() == 0 || !(s.phase is WalkingBack) {
        (s, action)
    } else {
        let (s1, a1) = next(
            s,
            InputView::Reply(ServiceReplyView::Block(Some(ancestors[0]))),
            now,
            wait_time,
        );
        after_lookups(s1, a1, ancestors.drop_first(), now, wait_time)
    }
}

proof fn lemma_walk_reaches_verdict(
    s: EngineView,
    action: ActionView,
    ancestors: Seq<BlockView>,
    verdict: Verdict,
    now: u128,
    wait_time: u64,
)
    requires
        s.phase matches PhaseView::WalkingBack { block, .. } && walk_back(block, ancestors) == Some(
            verdict,
        ),
    ensures
        after_lookups(s, action, ancestors, now, wait_time).1 == directive(
            verdict,
            s.phase->WalkingBack_block_id,
        ),
    decreases ancestors.len(),
{
    let block = s.phase->WalkingBack_block;
    let (s1, a1) = next(
        s,
        InputView::Reply(ServiceReplyView::Block(Some(ancestors[0]))),
        now,
        wait_time,
    );
    if resolve_at_ancestor(block, ancestors[0]) is Lookup {
        lemma_walk_reaches_verdict(s1, a1, ancestors.drop_first(), verdict, now, wait_time);
    } else {
        assert(after_lookups(s1, a1, ancestors.drop_first(), now, wait_time) == (s1, a1));
    }
}

/// The engine carries out fork choice: holding a valid block against the
/// chain head, and then against the head's ancestors as the chain service
/// gives them, it commits or ignores the block as fork choice over that
/// ancestry says.
pub proof fn lemma_engine_follows_fork_choice(
    s: EngineView,
    chain_head: BlockView,
    ancestors: Seq<BlockView>,
    verdict: Verdict,
    now: u128,
    wait_time: u64,
)
    requires
        s.phase matches PhaseView::FetchingChainHead { block, .. } && resolve_along(
            block,
            chain_head,
            ancestors,
        ) == Some(verdict),
    ensures
        ({
            let (s1, a1) = next(
                s,
                InputView::Reply(ServiceReplyView::ChainHead(chain_head)),
                now,
                wait_time,
            );
            after_lookups(s1, a1, ancestors, now, wait_time).1 == directive(
                verdict,
                s.phase->FetchingChainHead_block_id,
            )
        }),
{
    let (s1, a1) = next(
        s,
        InputView::Reply(ServiceReplyView::ChainHead(chain_head)),
        now,
        wait_time,
    );
    if s1.phase is WalkingBack {
        lemma_walk_reaches_verdict(s1, a1, ancestors, verdict, now, wait_time);
    }
}

/// A block that is not ready to be finalized is tried again, after a pause,
/// with the consensus data it was first tried with.
pub proof fn lemma_retry_keeps_consensus(
    s: EngineView,
    consensus: Seq<u8>,
    times: (u128, u128),
    wait_time: u64,
)
    requires
        s.phase == PhaseView::Finalizing(FinalizeProgressView::Finalizing { consensus }),
    ensures
        ({
            let (s1, a1) = next(
                s,
                InputView::Reply(ServiceReplyView::Failed(ServiceError::BlockNotReady)),
                times.0,
                wait_time,
            );
            let (s2, a2) = next(s1, InputView::Woke, times.1, wait_time);
            &&& a1 matches ActionView::Sleep { seconds, .. } && seconds == RETRY_INTERVAL_SECS
            &&& a2 == ActionView::Request(ServiceRequestView::FinalizeBlock { data: consensus })
            &&& s2.phase == s.phase
        }),
{
}

/// A block that stays unready is announced at the first pause and at none
/// after it.
pub proof fn lemma_unready_block_announced_once(
    s: EngineView,
    times: (u128, u128, u128),
    wait_time: u64,
)
    requires
        s.phase == PhaseView::Finalizing(FinalizeProgressView::Summarizing),
        !s.log_guard.not_ready_to_summarize,
    ensures
        ({
            let not_ready = InputView::Reply(ServiceReplyView::Failed(ServiceError::BlockNotReady));
            let (s1, a1) = next(s, not_ready, times.0, wait_time);
            let (s2, a2) = next(s1, InputView::Woke, times.1, wait_time);
            let (s3, a3) = next(s2, not_ready, times.2, wait_time);
            &&& a1 == ActionView::Sleep { seconds: RETRY_INTERVAL_SECS, announce: true }
            &&& a2 == ActionView::Request(ServiceRequestView::SummarizeBlock)
            &&& a3 == ActionView::Sleep { seconds: RETRY_INTERVAL_SECS, announce: false }
        }),
{
}

/// A failure that is not a matter of waiting ends the engine: every later
/// step reports the same fault and changes nothing.
pub proof fn lemma_fault_is_final(
    s: EngineView,
    fault: Fault,
    input: InputView,
    now: u128,
    wait_time: u64,
)
    requires
        s.phase == PhaseView::Faulted(fault),
    ensures
        next(s, input, now, wait_time) == (s, ActionView::Fail(fault)),
{
}

} // verus!
