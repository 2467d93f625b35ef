//! The engine: one step at a time.
//!
//! The engine never waits and never talks to anyone. Each step takes what
//! just happened, together with the time on a clock that only moves
//! forward, and answers with the one thing to do next. Whoever drives the
//! engine does that thing and comes back with the result.

use vstd::prelude::*;
use crate::block::{null_block_identifier, Block, BlockView};
use crate::consensus::{check_consensus, passes_consensus};
use crate::fork::{
    resolve, resolve_ancestor, resolve_at_ancestor, resolve_at_head, Resolution, ResolutionView,
};
use crate::message::DevmodeMessage;
use crate::service::{
    block_or_fault, canceled_or_fault, chain_head_or_fault, done_or_fault, finalize_on_reply,
    finalize_on_wake, settings_read, DevmodeService, Fault, FinalizeProgress,
    FinalizeProgressView, FinalizeStep, FinalizeStepView, LogGuard, Operation, ServiceReply,
    ServiceReplyView, ServiceRequest, ServiceRequestView, RETRY_INTERVAL_SECS,
};
use crate::update::{PeerMessage, PeerMessageView, Update, UpdateView};
use crate::wait::{is_wait_time, max_wait_time_key, min_wait_time_key, range_of_read};

verus! {

/// Milliseconds to wait for an update before the publishing timer is
/// looked at again.
pub const POLL_INTERVAL_MILLIS: u64 = 10;

/// Nanoseconds in a second.
pub const NANOS_PER_SEC: u128 = 1_000_000_000;

/// What happened since the engine last said what to do.
#[derive(Clone, Debug, PartialEq, Eq)]
pub enum Input {
    /// The chain service answered the request.
    Reply(ServiceReply),
    /// The validator sent an update.
    Update(Update),
    /// No update came within the time allowed.
    Timeout,
    /// The validator is gone.
    Disconnected,
    /// The pause is over.
    Woke,
}

/// The mathematical content of an [`Input`].
pub ghost enum InputView {
    Reply(ServiceReplyView),
    Update(UpdateView),
    Timeout,
    Disconnected,
    Woke,
}

impl View for Input {
    type V = InputView;

    open spec fn view(&self) -> InputView {
        match self {
            Input::Reply(reply) => InputView::Reply(reply@),
            Input::Update(update) => InputView::Update(update@),
            Input::Timeout => InputView::Timeout,
            Input::Disconnected => InputView::Disconnected,
            Input::Woke => InputView::Woke,
        }
    }
}

/// The one thing to do next.
#[derive(Clone, Debug, PartialEq, Eq)]
pub enum Action {
    /// Make this request of the chain service and hand back its reply.
    Request(ServiceRequest),
    /// Wait for the next update, no longer than this, and hand it back, or
    /// say that none came or that the validator is gone.
    Receive { timeout_millis: u64 },
    /// Pause for this long, then say so. `announce` is set where the pause
    /// is the first for a block that is not ready.
    Sleep { seconds: u64, announce: bool },
    /// The engine has ended in good order.
    Stop,
    /// The engine has ended on a fault.
    Fail(Fault),
}

/// The mathematical content of an [`Action`].
pub ghost enum ActionView {
    Request(ServiceRequestView),
    Receive { timeout_millis: u64 },
    Sleep { seconds: u64, announce: bool },
    Stop,
    Fail(Fault),
}

impl View for Action {
    type V = ActionView;

    open spec fn view(&self) -> ActionView {
        match self {
            Action::Request(request) => ActionView::Request(request@),
            Action::Receive { timeout_millis } => ActionView::Receive {
                timeout_millis: *timeout_millis,
            },
            Action::Sleep { seconds, announce } => ActionView::Sleep {
                seconds: *seconds,
                announce: *announce,
            },
            Action::Stop => ActionView::Stop,
            Action::Fail(fault) => ActionView::Fail(*fault),
        }
    }
}

/// What the engine is waiting for.
#[derive(Clone, Debug, PartialEq, Eq)]
pub enum Phase {
    /// Nothing yet: the engine has not been started.
    Created,
    /// The wait settings. `startup` is set for the first read.
    ReadingSettings { startup: bool },
    /// The start of a new block. `startup` is set for the first block.
    Initializing { startup: bool },
    /// The next update.
    Polling,
    /// The reply to a request that returns nothing, made for an update.
    Directing { operation: Operation },
    /// The block that was reported valid.
    FetchingBlock { block_id: Vec<u8> },
    /// The reply to the notice that the valid block was received.
    Acknowledging { block_id: Vec<u8>, block: Block },
    /// The chain head to hold the valid block against.
    FetchingChainHead { block_id: Vec<u8>, block: Block },
    /// An ancestor of the chain head to hold the valid block against.
    WalkingBack { block_id: Vec<u8>, block: Block },
    /// The reply to abandoning the block in progress, on the way to the
    /// new chain head.
    Canceling { new_chain_head: Vec<u8> },
    /// A step in the finalizing of the block in progress.
    Finalizing(FinalizeProgress),
    /// The reply to the notice that a block was published.
    Broadcasting,
    /// Nothing any more: the engine ended in good order.
    Stopped,
    /// Nothing any more: the engine ended on this fault.
    Faulted(Fault),
}

/// The mathematical content of a [`Phase`].
pub ghost enum PhaseView {
    Created,
    ReadingSettings { startup: bool },
    Initializing { startup: bool },
    Polling,
    Directing { operation: Operation },
    FetchingBlock { block_id: Seq<u8> },
    Acknowledging { block_id: Seq<u8>, block: BlockView },
    FetchingChainHead { block_id: Seq<u8>, block: BlockView },
    WalkingBack { block_id: Seq<u8>, block: BlockView },
    Canceling { new_chain_head: Seq<u8> },
    Finalizing(FinalizeProgressView),
    Broadcasting,
    Stopped,
    Faulted(Fault),
}

impl View for Phase {
    type V = PhaseView;

    open spec fn view(&self) -> PhaseView {
        match self {
            Phase::Created => PhaseView::Created,
            Phase::ReadingSettings { startup } => PhaseView::ReadingSettings { startup: *startup },
            Phase::Initializing { startup } => PhaseView::Initializing { startup: *startup },
            Phase::Polling => PhaseView::Polling,
            Phase::Directing { operation } => PhaseView::Directing { operation: *operation },
            Phase::FetchingBlock { block_id } => PhaseView::FetchingBlock { block_id: block_id@ },
            Phase::Acknowledging { block_id, block } => PhaseView::Acknowledging {
                block_id: block_id@,
                block: block@,
            },
            Phase::FetchingChainHead { block_id, block } => PhaseView::FetchingChainHead {
                block_id: block_id@,
                block: block@,
            },
            Phase::WalkingBack { block_id, block } => PhaseView::WalkingBack {
                block_id: block_id@,
                block: block@,
            },
            Phase::Canceling { new_chain_head } => PhaseView::Canceling {
                new_chain_head: new_chain_head@,
            },
            Phase::Finalizing(progress) => PhaseView::Finalizing(progress@),
            Phase::Broadcasting => PhaseView::Broadcasting,
            Phase::Stopped => PhaseView::Stopped,
            Phase::Faulted(fault) => PhaseView::Faulted(*fault),
        }
    }
}

/// The engine's state between two steps.
#[derive(Clone, Debug, PartialEq, Eq)]
pub struct DevmodeEngine {
    /// What the engine is waiting for.
    pub phase: Phase,
    /// Seconds to wait, from the start of the timer, before publishing.
    pub wait_time: u64,
    /// Whether a block was published on the current chain head.
    pub published_at_height: bool,
    /// The clock, in nanoseconds, when the timer was last started.
    pub timer_start: u128,
    /// The engine's side of the chain service.
    pub service: DevmodeService,
}

/// The mathematical content of a [`DevmodeEngine`].
pub ghost struct EngineView {
    pub phase: PhaseView,
    pub wait_time: u64,
    pub published_at_height: bool,
    pub timer_start: u128,
    pub log_guard: LogGuard,
}

impl View for DevmodeEngine {
    type V = EngineView;

    open spec fn view(&self) -> EngineView {
        EngineView {
            phase: self.phase@,
            wait_time: self.wait_time,
            published_at_height: self.published_at_height,
            timer_start: self.timer_start,
            log_guard: self.service.log_guard,
        }
    }
}

/// Whether the wait is over: more than `wait_time` seconds have gone by
/// between `timer_start` and `now`.
pub open spec fn timer_expired(timer_start: u128, now: u128, wait_time: u64) -> bool {
    now - timer_start > wait_time * NANOS_PER_SEC
}

/// The engine goes back to waiting for an update.
pub open spec fn poll(s: EngineView) -> (EngineView, ActionView) {
    (
        EngineView { phase: PhaseView::Polling, ..s },
        ActionView::Receive { timeout_millis: POLL_INTERVAL_MILLIS },
    )
}

/// The engine ends on a fault.
pub open spec fn fail(s: EngineView, fault: Fault) -> (EngineView, ActionView) {
    (EngineView { phase: PhaseView::Faulted(fault), ..s }, ActionView::Fail(fault))
}

/// The engine makes a request and waits for the reply in the given phase.
pub open spec fn ask(s: EngineView, phase: PhaseView, request: ServiceRequestView) -> (
    EngineView,
    ActionView,
) {
    (EngineView { phase, ..s }, ActionView::Request(request))
}

/// The look at the timer that ends the handling of an update. Where no
/// block was published on this chain head yet and the wait is over, the
/// engine begins to finalize the block in progress. Otherwise it waits for
/// the next update.
pub open spec fn check_timer(s: EngineView, now: u128) -> (EngineView, ActionView) {
    if !s.published_at_height && timer_expired(s.timer_start, now, s.wait_time) {
        ask(
            s,
            PhaseView::Finalizing(FinalizeProgressView::Summarizing),
            ServiceRequestView::SummarizeBlock,
        )
    } else {
        poll(s)
    }
}

/// A block arrived. One whose predecessor is the null identifier is passed
/// over without a look at its consensus data, and without a look at the
/// timer. Any other block is sent on to be checked where it carries the
/// consensus tag of its summary, and marked as failed where it does not.
pub open spec fn on_block_new(s: EngineView, block: BlockView) -> (EngineView, ActionView) {
    if block.previous_id == null_block_identifier() {
        poll(s)
    } else if passes_consensus(block) {
        ask(
            s,
            PhaseView::Directing { operation: Operation::CheckBlock },
            ServiceRequestView::CheckBlock { block_id: block.block_id },
        )
    } else {
        ask(
            s,
            PhaseView::Directing { operation: Operation::FailBlock },
            ServiceRequestView::FailBlock { block_id: block.block_id },
        )
    }
}

/// A peer sent a message. A notice of receipt is confirmed to its sender;
/// the other kinds ask for nothing. A kind that the engine does not know
/// ends it.
pub open spec fn on_peer_message(
    s: EngineView,
    message: PeerMessageView,
    sender: Seq<u8>,
    now: u128,
) -> (EngineView, ActionView) {
    match DevmodeMessage::parse(message.message_type) {
        None => fail(s, Fault::InvalidMessageType),
        Some(DevmodeMessage::Received) => ask(
            s,
            PhaseView::Directing { operation: Operation::SendBlockAck },
            ServiceRequestView::SendTo {
                peer: sender,
                message_type: DevmodeMessage::Ack,
                payload: message.content,
            },
        ),
        Some(_) => check_timer(s, now),
    }
}

/// The validator sent an update while the engine was waiting for one.
pub open spec fn on_update(s: EngineView, update: UpdateView, now: u128) -> (
    EngineView,
    ActionView,
) {
    match update {
        UpdateView::Shutdown => (EngineView { phase: PhaseView::Stopped, ..s }, ActionView::Stop),
        UpdateView::BlockNew(block) => on_block_new(s, block),
        UpdateView::BlockValid(block_id) => ask(
            s,
            PhaseView::FetchingBlock { block_id },
            ServiceRequestView::GetBlock { block_id },
        ),
        UpdateView::BlockCommit(new_chain_head) => ask(
            s,
            PhaseView::Canceling { new_chain_head },
            ServiceRequestView::CancelBlock,
        ),
        UpdateView::PeerMessage(message, sender) => on_peer_message(s, message, sender, now),
        _ => check_timer(s, now),
    }
}

/// Fork choice has taken a step for the valid block `block`, reported under
/// `block_id`: the block is committed or ignored, or the walk back through
/// the head's ancestry goes on.
pub open spec fn on_resolution(
    s: EngineView,
    block_id: Seq<u8>,
    block: BlockView,
    resolution: ResolutionView,
) -> (EngineView, ActionView) {
    match resolution {
        ResolutionView::Decided(verdict) => if verdict.commits() {
            ask(
                s,
                PhaseView::Directing { operation: Operation::CommitBlock },
                ServiceRequestView::CommitBlock { block_id },
            )
        } else {
            ask(
                s,
                PhaseView::Directing { operation: Operation::IgnoreBlock },
                ServiceRequestView::IgnoreBlock { block_id },
            )
        },
        ResolutionView::Lookup(ancestor_id) => ask(
            s,
            PhaseView::WalkingBack { block_id, block },
            ServiceRequestView::GetBlock { block_id: ancestor_id },
        ),
    }
}

/// Finalizing has taken a step. When it is finished the block counts as
/// published and the peers are told.
pub open spec fn on_finalize_step(s: EngineView, guard: LogGuard, step: FinalizeStepView) -> (
    EngineView,
    ActionView,
) {
    let s = EngineView { log_guard: guard, ..s };
    match step {
        FinalizeStepView::Request(progress, request) => (
            EngineView { phase: PhaseView::Finalizing(progress), ..s },
            ActionView::Request(request),
        ),
        FinalizeStepView::Backoff(progress, announce) => (
            EngineView { phase: PhaseView::Finalizing(progress), ..s },
            ActionView::Sleep { seconds: RETRY_INTERVAL_SECS, announce },
        ),
        FinalizeStepView::Finished(block_id) => (
            EngineView { phase: PhaseView::Broadcasting, published_at_height: true, ..s },
            ActionView::Request(
                ServiceRequestView::Broadcast {
                    message_type: DevmodeMessage::Published,
                    payload: block_id,
                },
            ),
        ),
        FinalizeStepView::Failed(fault) => fail(s, fault),
    }
}

/// The request for the two wait settings as of a block.
pub open spec fn settings_request(block_id: Seq<u8>) -> ServiceRequestView {
    ServiceRequestView::GetSettings {
        block_id,
        keys: seq![min_wait_time_key(), max_wait_time_key()],
    }
}

/// The chain service answered. `wait_time` is the wait that the engine
/// picks where the reply is to a read of the wait settings.
pub open spec fn on_reply(s: EngineView, reply: ServiceReplyView, now: u128, wait_time: u64) -> (
    EngineView,
    ActionView,
) {
    match s.phase {
        PhaseView::ReadingSettings { startup } => (
            EngineView {
                phase: PhaseView::Initializing { startup },
                wait_time,
                published_at_height: false,
                timer_start: now,
                ..s
            },
            ActionView::Request(ServiceRequestView::InitializeBlock),
        ),
        PhaseView::Initializing { startup } => match done_or_fault(
            Operation::InitializeBlock,
            reply,
        ) {
            Ok(_) => if startup {
                poll(s)
            } else {
                check_timer(s, now)
            },
            Err(fault) => fail(s, fault),
        },
        PhaseView::Directing { operation } => match done_or_fault(operation, reply) {
            Ok(_) => check_timer(s, now),
            Err(fault) => fail(s, fault),
        },
        PhaseView::FetchingBlock { block_id } => match block_or_fault(reply) {
            Ok(block) => ask(
                s,
                PhaseView::Acknowledging { block_id, block },
                ServiceRequestView::SendTo {
                    peer: block.signer_id,
                    message_type: DevmodeMessage::Received,
                    payload: block.block_id,
                },
            ),
            Err(fault) => fail(s, fault),
        },
        PhaseView::Acknowledging { block_id, block } => match done_or_fault(
            Operation::SendBlockReceived,
            reply,
        ) {
            Ok(_) => ask(
                s,
                PhaseView::FetchingChainHead { block_id, block },
                ServiceRequestView::GetChainHead,
            ),
            Err(fault) => fail(s, fault),
        },
        PhaseView::FetchingChainHead { block_id, block } => match chain_head_or_fault(reply) {
            Ok(chain_head) => on_resolution(s, block_id, block, resolve_at_head(block, chain_head)),
            Err(fault) => fail(s, fault),
        },
        PhaseView::WalkingBack { block_id, block } => match block_or_fault(reply) {
            Ok(ancestor) => on_resolution(
                s,
                block_id,
                block,
                resolve_at_ancestor(block, ancestor),
            ),
            Err(fault) => fail(s, fault),
        },
        PhaseView::Canceling { new_chain_head } => match canceled_or_fault(reply) {
            Ok(_) => ask(
                s,
                PhaseView::ReadingSettings { startup: false },
                settings_request(new_chain_head),
            ),
            Err(fault) => fail(s, fault),
        },
        PhaseView::Finalizing(progress) => {
            let (guard, step) = finalize_on_reply(s.log_guard, progress, reply);
            on_finalize_step(s, guard, step)
        },
        PhaseView::Broadcasting => match done_or_fault(
            Operation::BroadcastPublishedBlock,
            reply,
        ) {
            Ok(_) => poll(s),
            Err(fault) => fail(s, fault),
        },
        _ => fail(s, Fault::Unexpected),
    }
}

/// The engine is started on a chain head: it asks for the wait settings as
/// of that block. An engine that was started before fails; one that has
/// ended stays as it is.
pub open spec fn start_step(s: EngineView, chain_head: BlockView) -> (EngineView, ActionView) {
    match s.phase {
        PhaseView::Created => ask(
            s,
            PhaseView::ReadingSettings { startup: true },
            settings_request(chain_head.block_id),
        ),
        PhaseView::Stopped => (s, ActionView::Stop),
        PhaseView::Faulted(fault) => (s, ActionView::Fail(fault)),
        _ => fail(s, Fault::Unexpected),
    }
}

/// One step of the engine: the state after `input` arrived at time `now`,
/// and the thing to do next. `wait_time` is the wait that the engine picks
/// where the step picks one.
///
/// An engine that has ended stays as it is. An input that does not answer
/// what the engine was waiting for ends it on a fault.
pub open spec fn next(s: EngineView, input: InputView, now: u128, wait_time: u64) -> (
    EngineView,
    ActionView,
) {
    match s.phase {
        PhaseView::Stopped => (s, ActionView::Stop),
        PhaseView::Faulted(fault) => (s, ActionView::Fail(fault)),
        _ => match input {
            InputView::Reply(reply) => on_reply(s, reply, now, wait_time),
            InputView::Update(update) => if s.phase is Polling {
                on_update(s, update, now)
            } else {
                fail(s, Fault::Unexpected)
            },
            InputView::Timeout => if s.phase is Polling {
                check_timer(s, now)
            } else {
                fail(s, Fault::Unexpected)
            },
            InputView::Disconnected => if s.phase is Polling {
                (EngineView { phase: PhaseView::Stopped, ..s }, ActionView::Stop)
            } else {
                fail(s, Fault::Unexpected)
            },
            InputView::Woke => match s.phase {
                PhaseView::Finalizing(progress) => on_finalize_step(
                    s,
                    s.log_guard,
                    finalize_on_wake(progress),
                ),
                _ => fail(s, Fault::Unexpected),
            },
        },
    }
}

/// Whether a step may pick `wait_time`: where the step answers a read of
/// the wait settings, the wait is one that the settings allow.
pub open spec fn wait_allowed(s: EngineView, input: InputView, wait_time: u64) -> bool {
    (s.phase is ReadingSettings && input is Reply) ==> is_wait_time(
        range_of_read(settings_read(input->Reply_0)),
        wait_time,
    )
}

impl DevmodeEngine {
    /// An engine that has not been started.
    pub fn new() -> (engine: Self)
        ensures
            engine@ == (EngineView {
                phase: PhaseView::Created,
                wait_time: 0,
                published_at_height: false,
                timer_start: 0,
                log_guard: LogGuard { not_ready_to_summarize: false, not_ready_to_finalize: false },
            }),
    {
        DevmodeEngine {
            phase: Phase::Created,
            wait_time: 0,
            published_at_height: false,
            timer_start: 0,
            service: DevmodeService::new(),
        }
    }

    /// The version of this engine.
    pub fn version(&self) -> (version: String)
        ensures
            version@ == "0.1"@,
    {
        String::from_str("0.1")
    }

    /// The name of this engine.
    pub fn name(&self) -> (name: String)
        ensures
            name@ == "Devmode"@,
    {
        String::from_str("Devmode")
    }

    /// The other protocols that this engine speaks, as pairs of name and
    /// version: none.
    pub fn additional_protocols(&self) -> (protocols: Vec<(String, String)>)
        ensures
            protocols@.len() == 0,
    {
        Vec::new()
    }

    /// Whether the wait is over at time `now`.
    pub fn timer_expired(&self, now: u128) -> (expired: bool)
        ensures
            expired == timer_expired(self.timer_start, now, self.wait_time),
    {
        now > self.timer_start && now - self.timer_start > (self.wait_time as u128)
            * NANOS_PER_SEC
    }

    fn poll(&mut self) -> (action: Action)
        ensures
            (final(self)@, action@) == poll(old(self)@),
    {
        self.phase = Phase::Polling;
        Action::Receive { timeout_millis: POLL_INTERVAL_MILLIS }
    }

    fn fail(&mut self, fault: Fault) -> (action: Action)
        ensures
            (final(self)@, action@) == fail(old(self)@, fault),
    {
        self.phase = Phase::Faulted(fault);
        Action::Fail(fault)
    }

    fn ask(&mut self, phase: Phase, request: ServiceRequest) -> (action: Action)
        ensures
            (final(self)@, action@) == ask(old(self)@, phase@, request@),
    {
        self.phase = phase;
        Action::Request(request)
    }

    fn check_timer(&mut self, now: u128) -> (action: Action)
        ensures
            (final(self)@, action@) == check_timer(old(self)@, now),
    {
        if !self.published_at_height && self.timer_expired(now) {
            match self.service.finalize_block() {
                FinalizeStep::Request(progress, request) => self.ask(
                    Phase::Finalizing(progress),
                    request,
                ),
                _ => self.fail(Fault::Unexpected),
            }
        } else {
            self.poll()
        }
    }

    fn on_block_new(&mut self, block: Block) -> (action: Action)
        ensures
            (final(self)@, action@) == on_block_new(old(self)@, block@),
    {
        if block.is_genesis() {
            self.poll()
        } else if check_consensus(&block) {
            let request = self.service.check_block(block.block_id);
            self.ask(Phase::Directing { operation: Operation::CheckBlock }, request)
        } else {
            let request = self.service.fail_block(block.block_id);
            self.ask(Phase::Directing { operation: Operation::FailBlock }, request)
        }
    }

    fn on_peer_message(&mut self, message: PeerMessage, sender: Vec<u8>, now: u128) -> (action:
        Action)
        ensures
            (final(self)@, action@) == on_peer_message(old(self)@, message@, sender@, now),
    {
        match DevmodeMessage::from_str(message.message_type.as_str()) {
            Err(_) => self.fail(Fault::InvalidMessageType),
            Ok(DevmodeMessage::Received) => {
                let request = self.service.send_block_ack(sender, message.content);
                self.ask(Phase::Directing { operation: Operation::SendBlockAck }, request)
            },
            Ok(_) => self.check_timer(now),
        }
    }

    fn on_update(&mut self, update: Update, now: u128) -> (action: Action)
        ensures
            (final(self)@, action@) == on_update(old(self)@, update@, now),
    {
        match update {
            Update::Shutdown => {
                self.phase = Phase::Stopped;
                Action::Stop
            },
            Update::BlockNew(block) => self.on_block_new(block),
            Update::BlockValid(block_id) => {
                let request = self.service.get_block(&block_id);
                self.ask(Phase::FetchingBlock { block_id }, request)
            },
            Update::BlockCommit(new_chain_head) => {
                let request = self.service.cancel_block();
                self.ask(Phase::Canceling { new_chain_head }, request)
            },
            Update::PeerMessage(message, sender) => self.on_peer_message(message, sender, now),
            _ => self.check_timer(now),
        }
    }

    fn on_resolution(&mut self, block_id: Vec<u8>, block: Block, resolution: Resolution) -> (action:
        Action)
        ensures
            (final(self)@, action@) == on_resolution(old(self)@, block_id@, block@, resolution@),
    {
        match resolution {
            Resolution::Decided(verdict) => if verdict.is_commit() {
                let request = self.service.commit_block(block_id);
                self.ask(Phase::Directing { operation: Operation::CommitBlock }, request)
            } else {
                let request = self.service.ignore_block(block_id);
                self.ask(Phase::Directing { operation: Operation::IgnoreBlock }, request)
            },
            Resolution::Lookup(ancestor_id) => {
                let request = self.service.get_block(&ancestor_id);
                self.ask(Phase::WalkingBack { block_id, block }, request)
            },
        }
    }

    fn on_finalize_step(&mut self, step: FinalizeStep) -> (action: Action)
        ensures
            (final(self)@, action@) == on_finalize_step(
                old(self)@,
                old(self)@.log_guard,
                step@,
            ),
    {
        match step {
            FinalizeStep::Request(progress, request) => self.ask(
                Phase::Finalizing(progress),
                request,
            ),
            FinalizeStep::Backoff(progress, announce) => {
                self.phase = Phase::Finalizing(progress);
                Action::Sleep { seconds: RETRY_INTERVAL_SECS, announce }
            },
            FinalizeStep::Finished(block_id) => {
                self.published_at_height = true;
                let request = self.service.broadcast_published_block(block_id);
                self.ask(Phase::Broadcasting, request)
            },
            FinalizeStep::Failed(fault) => self.fail(fault),
        }
    }

    fn on_reply(&mut self, phase: Phase, reply: ServiceReply, now: u128) -> (action: Action)
        ensures
            (final(self)@, action@) == on_reply(
                EngineView { phase: phase@, ..old(self)@ },
                reply@,
                now,
                final(self)@.wait_time,
            ),
            phase@ is ReadingSettings ==> is_wait_time(
                range_of_read(settings_read(reply@)),
                final(self)@.wait_time,
            ),
    {
        match phase {
            Phase::ReadingSettings { startup } => {
                self.wait_time = self.service.calculate_wait_time(&reply);
                self.published_at_height = false;
                self.timer_start = now;
                let request = self.service.initialize_block();
                self.ask(Phase::Initializing { startup }, request)
            },
            Phase::Initializing { startup } => match self.service.expect_done(
                Operation::InitializeBlock,
                reply,
            ) {
                Ok(_) => if startup {
                    self.poll()
                } else {
                    self.check_timer(now)
                },
                Err(fault) => self.fail(fault),
            },
            Phase::Directing { operation } => match self.service.expect_done(operation, reply) {
                Ok(_) => self.check_timer(now),
                Err(fault) => self.fail(fault),
            },
            Phase::FetchingBlock { block_id } => match self.service.expect_block(reply) {
                Ok(block) => {
                    let request = self.service.send_block_received(&block);
                    self.ask(Phase::Acknowledging { block_id, block }, request)
                },
                Err(fault) => self.fail(fault),
            },
            Phase::Acknowledging { block_id, block } => match self.service.expect_done(
                Operation::SendBlockReceived,
                reply,
            ) {
                Ok(_) => {
                    let request = self.service.get_chain_head();
                    self.ask(Phase::FetchingChainHead { block_id, block }, request)
                },
                Err(fault) => self.fail(fault),
            },
            Phase::FetchingChainHead { block_id, block } => match self.service.expect_chain_head(
                reply,
            ) {
                Ok(chain_head) => {
                    let resolution = resolve(&block, &chain_head);
                    self.on_resolution(block_id, block, resolution)
                },
                Err(fault) => self.fail(fault),
            },
            Phase::WalkingBack { block_id, block } => match self.service.expect_block(reply) {
                Ok(ancestor) => {
                    let resolution = resolve_ancestor(&block, &ancestor);
                    self.on_resolution(block_id, block, resolution)
                },
                Err(fault) => self.fail(fault),
            },
            Phase::Canceling { new_chain_head } => match self.service.expect_canceled(reply) {
                Ok(_) => {
                    let request = self.service.get_settings(new_chain_head);
                    self.ask(Phase::ReadingSettings { startup: false }, request)
                },
                Err(fault) => self.fail(fault),
            },
            Phase::Finalizing(progress) => {
                let step = self.service.finalize_block_reply(progress, reply);
                self.on_finalize_step(step)
            },
            Phase::Broadcasting => match self.service.expect_done(
                Operation::BroadcastPublishedBlock,
                reply,
            ) {
                Ok(_) => self.poll(),
                Err(fault) => self.fail(fault),
            },
            _ => self.fail(Fault::Unexpected),
        }
    }

    /// Starts the engine on the chain head that the validator reported at
    /// startup. The first thing the engine asks for is the wait settings
    /// as of that block.
    pub fn start(&mut self, chain_head: &Block) -> (action: Action)
        ensures
            (final(self)@, action@) == start_step(old(self)@, chain_head@),
    {
        let mut phase = Phase::Created;
        core::mem::swap(&mut self.phase, &mut phase);
        match phase {
            Phase::Created => {
                let chain_head_id = crate::bytes::copy_bytes(&chain_head.block_id);
                let request = self.service.get_settings(chain_head_id);
                self.ask(Phase::ReadingSettings { startup: true }, request)
            },
            Phase::Stopped => {
                self.phase = Phase::Stopped;
                Action::Stop
            },
            Phase::Faulted(fault) => {
                self.phase = Phase::Faulted(fault);
                Action::Fail(fault)
            },
            _ => self.fail(Fault::Unexpected),
        }
    }

    /// Takes one step: `input` is what happened since the last step, `now`
    /// the time in nanoseconds on a clock that never runs backwards. The
    /// result is the one thing to do next.
    ///
    /// Everything but the length of a new wait follows from the state and
    /// the input. The wait is picked at random within what the settings
    /// allow.
    pub fn handle(&mut self, input: Input, now: u128) -> (action: Action)
        ensures
            (final(self)@, action@) == next(old(self)@, input@, now, final(self)@.wait_time),
            wait_allowed(old(self)@, input@, final(self)@.wait_time),
    {
        let mut phase = Phase::Created;
        core::mem::swap(&mut self.phase, &mut phase);
        match phase {
            Phase::Stopped => {
                self.phase = Phase::Stopped;
                Action::Stop
            },
            Phase::Faulted(fault) => {
                self.phase = Phase::Faulted(fault);
                Action::Fail(fault)
            },
            phase => match input {
                Input::Reply(reply) => self.on_reply(phase, reply, now),
                Input::Update(update) => match phase {
                    Phase::Polling => self.on_update(update, now),
                    _ => self.fail(Fault::Unexpected),
                },
                Input::Timeout => match phase {
                    Phase::Polling => self.check_timer(now),
                    _ => self.fail(Fault::Unexpected),
                },
                Input::Disconnected => match phase {
                    Phase::Polling => {
                        self.phase = Phase::Stopped;
                        Action::Stop
                    },
                    _ => self.fail(Fault::Unexpected),
                },
                Input::Woke => match phase {
                    Phase::Finalizing(progress) => {
                        let step = self.service.finalize_block_retry(progress);
                        self.on_finalize_step(step)
                    },
                    _ => self.fail(Fault::Unexpected),
                },
            },
        }
    }
}

} // verus!
