use devmode_engine::block::Block;
use devmode_engine::engine::{
    Action, DevmodeEngine, Input, Phase, NANOS_PER_SEC, POLL_INTERVAL_MILLIS,
};
use devmode_engine::message::DevmodeMessage;
use devmode_engine::service::{
    Fault, FinalizeProgress, Operation, ServiceError, ServiceReply, ServiceRequest,
};
use devmode_engine::update::{PeerMessage, Update};

const SECOND: u128 = 1_000_000_000;

fn block(id: &[u8], previous: &[u8], num: u64) -> Block {
    Block {
        block_id: id.to_vec(),
        previous_id: previous.to_vec(),
        signer_id: vec![0x51],
        block_num: num,
        payload: b"Devmodedigest".to_vec(),
        summary: b"digest".to_vec(),
    }
}

fn keys() -> Vec<String> {
    vec![
        String::from("sawtooth.consensus.min_wait_time"),
        String::from("sawtooth.consensus.max_wait_time"),
    ]
}

fn settings(min: &str, max: &str) -> ServiceReply {
    ServiceReply::Settings(vec![Some(String::from(min)), Some(String::from(max))])
}

fn receive() -> Action {
    Action::Receive { timeout_millis: 10 }
}

fn reply(reply: ServiceReply) -> Input {
    Input::Reply(reply)
}

/// An engine that waits for updates, with the given wait in seconds and its
/// timer started at `started`.
fn running(wait: u64, started: u128) -> DevmodeEngine {
    let mut engine = DevmodeEngine::new();
    let head = block(&[0x05], &[0x04], 5);
    assert_eq!(
        engine.start(&head),
        Action::Request(ServiceRequest::GetSettings { block_id: vec![0x05], keys: keys() })
    );
    let next = wait.checked_add(1).unwrap();
    assert_eq!(
        engine.handle(reply(settings(&wait.to_string(), &next.to_string())), started),
        Action::Request(ServiceRequest::InitializeBlock)
    );
    assert_eq!(engine.handle(reply(ServiceReply::Done), started), receive());
    assert_eq!(engine.wait_time, wait);
    engine
}

#[test]
fn intervals_are_ten_milliseconds_and_a_billion_nanoseconds() {
    assert_eq!(POLL_INTERVAL_MILLIS, 10);
    assert_eq!(NANOS_PER_SEC, 1_000_000_000);
}

#[test]
fn engine_has_a_name_and_a_version() {
    let engine = DevmodeEngine::new();
    assert_eq!(engine.name(), "Devmode");
    assert_eq!(engine.version(), "0.1");
    assert_eq!(engine.additional_protocols(), Vec::<(String, String)>::new());
}

#[test]
fn new_engine_waits_to_be_started() {
    let engine = DevmodeEngine::new();
    assert_eq!(engine.phase, Phase::Created);
    assert!(!engine.published_at_height);
    assert_eq!(engine.wait_time, 0);
}

#[test]
fn start_reads_settings_then_initializes_a_block() {
    let mut engine = DevmodeEngine::new();
    let head = block(&[0x05], &[0x04], 5);
    assert_eq!(
        engine.start(&head),
        Action::Request(ServiceRequest::GetSettings { block_id: vec![0x05], keys: keys() })
    );
    assert_eq!(engine.phase, Phase::ReadingSettings { startup: true });
    assert_eq!(
        engine.handle(reply(settings("4", "5")), 77),
        Action::Request(ServiceRequest::InitializeBlock)
    );
    assert_eq!(engine.wait_time, 4);
    assert_eq!(engine.timer_start, 77);
    assert!(!engine.published_at_height);
    assert_eq!(engine.handle(reply(ServiceReply::Done), 78), receive());
    assert_eq!(engine.phase, Phase::Polling);
}

#[test]
fn startup_does_not_look_at_the_timer() {
    let mut engine = DevmodeEngine::new();
    engine.start(&block(&[0x05], &[0x04], 5));
    engine.handle(reply(settings("0", "0")), 0);
    assert_eq!(engine.wait_time, 0);
    assert_eq!(engine.handle(reply(ServiceReply::Done), 5 * SECOND), receive());
}

#[test]
fn failed_settings_read_means_no_wait() {
    let mut engine = DevmodeEngine::new();
    engine.start(&block(&[0x05], &[0x04], 5));
    assert_eq!(
        engine.handle(reply(ServiceReply::Failed(ServiceError::UnknownBlock)), 3),
        Action::Request(ServiceRequest::InitializeBlock)
    );
    assert_eq!(engine.wait_time, 0);
}

#[test]
fn failed_initialize_is_fatal() {
    let mut engine = DevmodeEngine::new();
    engine.start(&block(&[0x05], &[0x04], 5));
    engine.handle(reply(settings("1", "2")), 0);
    let fault =
        Fault::Service { operation: Operation::InitializeBlock, error: ServiceError::InvalidState };
    assert_eq!(
        engine.handle(reply(ServiceReply::Failed(ServiceError::InvalidState)), 0),
        Action::Fail(fault)
    );
    assert_eq!(engine.phase, Phase::Faulted(fault));
}

#[test]
fn starting_twice_is_unexpected() {
    let mut engine = running(1, 0);
    assert_eq!(engine.start(&block(&[0x05], &[0x04], 5)), Action::Fail(Fault::Unexpected));
}

#[test]
fn timeout_before_the_wait_is_over_polls_again() {
    let mut engine = running(2, 100);
    assert_eq!(engine.handle(Input::Timeout, 100), receive());
    assert_eq!(engine.handle(Input::Timeout, 100 + SECOND), receive());
    assert_eq!(engine.handle(Input::Timeout, 100 + 2 * SECOND), receive());
    assert_eq!(engine.handle(Input::Timeout, 50), receive());
}

#[test]
fn timeout_after_the_wait_finalizes_the_block() {
    let mut engine = running(2, 100);
    assert_eq!(
        engine.handle(Input::Timeout, 100 + 2 * SECOND + 1),
        Action::Request(ServiceRequest::SummarizeBlock)
    );
    assert_eq!(engine.phase, Phase::Finalizing(FinalizeProgress::Summarizing));
}

#[test]
fn timer_compares_nanoseconds_with_whole_seconds() {
    let engine = running(3, 10);
    assert!(!engine.timer_expired(10));
    assert!(!engine.timer_expired(10 + 3 * SECOND));
    assert!(engine.timer_expired(10 + 3 * SECOND + 1));
    assert!(!engine.timer_expired(0));
    assert!(engine.timer_expired(u128::MAX));
}

#[test]
fn published_block_is_broadcast_and_not_published_again() {
    let mut engine = running(0, 0);
    assert_eq!(engine.handle(Input::Timeout, 1), Action::Request(ServiceRequest::SummarizeBlock));
    assert_eq!(
        engine.handle(reply(ServiceReply::Summary(b"sum".to_vec())), 2),
        Action::Request(ServiceRequest::FinalizeBlock { data: b"Devmodesum".to_vec() })
    );
    assert!(!engine.published_at_height);
    assert_eq!(
        engine.handle(reply(ServiceReply::BlockId(vec![0x06])), 3),
        Action::Request(ServiceRequest::Broadcast {
            message_type: DevmodeMessage::Published,
            payload: vec![0x06],
        })
    );
    assert!(engine.published_at_height);
    assert_eq!(engine.handle(reply(ServiceReply::Done), 4), receive());
    assert_eq!(engine.handle(Input::Timeout, 10 * SECOND), receive());
    assert_eq!(engine.handle(Input::Update(Update::PeerConnected(vec![1])), 20 * SECOND), receive());
}

#[test]
fn unready_block_is_retried_after_a_second() {
    let mut engine = running(0, 0);
    engine.handle(Input::Timeout, 1);
    let not_ready = || reply(ServiceReply::Failed(ServiceError::BlockNotReady));
    assert_eq!(engine.handle(not_ready(), 2), Action::Sleep { seconds: 1, announce: true });
    assert_eq!(engine.handle(Input::Woke, 3), Action::Request(ServiceRequest::SummarizeBlock));
    assert_eq!(engine.handle(not_ready(), 4), Action::Sleep { seconds: 1, announce: false });
    assert_eq!(engine.handle(Input::Woke, 5), Action::Request(ServiceRequest::SummarizeBlock));
    let finalize = Action::Request(ServiceRequest::FinalizeBlock { data: b"Devmodes".to_vec() });
    assert_eq!(engine.handle(reply(ServiceReply::Summary(b"s".to_vec())), 6), finalize);
    assert_eq!(engine.handle(not_ready(), 7), Action::Sleep { seconds: 1, announce: true });
    assert_eq!(engine.handle(Input::Woke, 8), finalize);
    assert_eq!(engine.handle(not_ready(), 9), Action::Sleep { seconds: 1, announce: false });
    assert_eq!(engine.handle(Input::Woke, 10), finalize);
    assert!(!engine.published_at_height);
    assert!(matches!(
        engine.handle(reply(ServiceReply::BlockId(vec![1])), 11),
        Action::Request(ServiceRequest::Broadcast { .. })
    ));
    assert!(engine.published_at_height);
}

#[test]
fn failed_summary_is_fatal() {
    let mut engine = running(0, 0);
    engine.handle(Input::Timeout, 1);
    assert_eq!(
        engine.handle(reply(ServiceReply::Failed(ServiceError::ReceiveError)), 2),
        Action::Fail(Fault::Service {
            operation: Operation::SummarizeBlock,
            error: ServiceError::ReceiveError
        })
    );
}

#[test]
fn failed_broadcast_is_fatal() {
    let mut engine = running(0, 0);
    engine.handle(Input::Timeout, 1);
    engine.handle(reply(ServiceReply::Summary(vec![])), 2);
    engine.handle(reply(ServiceReply::BlockId(vec![1])), 3);
    assert_eq!(
        engine.handle(reply(ServiceReply::Failed(ServiceError::SendError)), 4),
        Action::Fail(Fault::Service {
            operation: Operation::BroadcastPublishedBlock,
            error: ServiceError::SendError
        })
    );
}

#[test]
fn shutdown_stops_the_engine() {
    let mut engine = running(0, 0);
    assert_eq!(engine.handle(Input::Update(Update::Shutdown), 5 * SECOND), Action::Stop);
    assert_eq!(engine.phase, Phase::Stopped);
    assert_eq!(engine.handle(Input::Timeout, 6 * SECOND), Action::Stop);
    assert_eq!(engine.start(&block(&[1], &[2], 3)), Action::Stop);
}

#[test]
fn lost_validator_stops_the_engine() {
    let mut engine = running(0, 0);
    assert_eq!(engine.handle(Input::Disconnected, 5 * SECOND), Action::Stop);
    assert_eq!(engine.phase, Phase::Stopped);
}

#[test]
fn genesis_block_is_passed_over() {
    let mut engine = running(0, 0);
    let genesis = block(&[0x01], &[0; 8], 0);
    assert_eq!(engine.handle(Input::Update(Update::BlockNew(genesis)), 5 * SECOND), receive());
    assert_eq!(engine.phase, Phase::Polling);
}

#[test]
fn genesis_block_with_a_wrong_tag_is_passed_over_too() {
    let mut engine = running(0, 0);
    let mut genesis = block(&[0x01], &[0; 8], 0);
    genesis.payload = b"forged".to_vec();
    assert_eq!(engine.handle(Input::Update(Update::BlockNew(genesis)), 5 * SECOND), receive());
}

#[test]
fn new_block_with_its_tag_is_checked() {
    let mut engine = running(9, 0);
    let new_block = block(&[0x06], &[0x05], 6);
    assert_eq!(
        engine.handle(Input::Update(Update::BlockNew(new_block)), 1),
        Action::Request(ServiceRequest::CheckBlock { block_id: vec![0x06] })
    );
    assert_eq!(engine.handle(reply(ServiceReply::Done), 2), receive());
}

#[test]
fn new_block_without_its_tag_is_failed() {
    let mut engine = running(9, 0);
    let mut new_block = block(&[0x06], &[0x05], 6);
    new_block.payload = b"Devmodedigesu".to_vec();
    assert_eq!(
        engine.handle(Input::Update(Update::BlockNew(new_block)), 1),
        Action::Request(ServiceRequest::FailBlock { block_id: vec![0x06] })
    );
    assert_eq!(
        engine.handle(reply(ServiceReply::Failed(ServiceError::UnknownBlock)), 2),
        Action::Fail(Fault::Service {
            operation: Operation::FailBlock,
            error: ServiceError::UnknownBlock
        })
    );
}

#[test]
fn timer_is_looked_at_after_an_update_is_handled() {
    let mut engine = running(1, 0);
    let new_block = block(&[0x06], &[0x05], 6);
    engine.handle(Input::Update(Update::BlockNew(new_block)), 1);
    assert_eq!(
        engine.handle(reply(ServiceReply::Done), SECOND + 1),
        Action::Request(ServiceRequest::SummarizeBlock)
    );
}

#[test]
fn valid_block_above_the_head_is_committed() {
    let mut engine = running(9, 0);
    let valid = block(&[0x00], &[0x05], 6);
    assert_eq!(
        engine.handle(Input::Update(Update::BlockValid(vec![0xf0])), 1),
        Action::Request(ServiceRequest::GetBlock { block_id: vec![0xf0] })
    );
    assert_eq!(
        engine.handle(reply(ServiceReply::Block(Some(valid))), 2),
        Action::Request(ServiceRequest::SendTo {
            peer: vec![0x51],
            message_type: DevmodeMessage::Received,
            payload: vec![0x00],
        })
    );
    assert_eq!(
        engine.handle(reply(ServiceReply::Done), 3),
        Action::Request(ServiceRequest::GetChainHead)
    );
    assert_eq!(
        engine.handle(reply(ServiceReply::ChainHead(block(&[0xff], &[0x04], 5))), 4),
        Action::Request(ServiceRequest::CommitBlock { block_id: vec![0xf0] })
    );
    assert_eq!(engine.handle(reply(ServiceReply::Done), 5), receive());
}

#[test]
fn head_at_five_new_block_at_five_with_smaller_id_is_ignored_by_the_engine() {
    let mut engine = running(9, 0);
    engine.handle(Input::Update(Update::BlockValid(vec![0xaa])), 1);
    engine.handle(reply(ServiceReply::Block(Some(block(&[0xaa], &[0x04], 5)))), 2);
    engine.handle(reply(ServiceReply::Done), 3);
    assert_eq!(
        engine.handle(reply(ServiceReply::ChainHead(block(&[0xbb], &[0x04], 5))), 4),
        Action::Request(ServiceRequest::IgnoreBlock { block_id: vec![0xaa] })
    );
    assert_eq!(engine.handle(reply(ServiceReply::Done), 5), receive());
}

#[test]
fn head_at_five_new_block_at_three_with_greater_id_switches_fork() {
    let mut engine = running(9, 0);
    engine.handle(Input::Update(Update::BlockValid(vec![0x99])), 1);
    engine.handle(reply(ServiceReply::Block(Some(block(&[0x99], &[0x20], 3)))), 2);
    engine.handle(reply(ServiceReply::Done), 3);
    assert_eq!(
        engine.handle(reply(ServiceReply::ChainHead(block(&[0x50], &[0x40], 5))), 4),
        Action::Request(ServiceRequest::GetBlock { block_id: vec![0x40] })
    );
    assert_eq!(
        engine.handle(reply(ServiceReply::Block(Some(block(&[0x40], &[0x30], 4)))), 5),
        Action::Request(ServiceRequest::GetBlock { block_id: vec![0x30] })
    );
    assert_eq!(
        engine.handle(reply(ServiceReply::Block(Some(block(&[0x30], &[0x20], 3)))), 6),
        Action::Request(ServiceRequest::CommitBlock { block_id: vec![0x99] })
    );
    assert_eq!(engine.handle(reply(ServiceReply::Done), 7), receive());
}

#[test]
fn head_at_five_new_block_at_three_with_smaller_id_is_ignored() {
    let mut engine = running(9, 0);
    engine.handle(Input::Update(Update::BlockValid(vec![0x10])), 1);
    engine.handle(reply(ServiceReply::Block(Some(block(&[0x10], &[0x20], 3)))), 2);
    engine.handle(reply(ServiceReply::Done), 3);
    engine.handle(reply(ServiceReply::ChainHead(block(&[0x50], &[0x40], 5))), 4);
    engine.handle(reply(ServiceReply::Block(Some(block(&[0x40], &[0x30], 4)))), 5);
    assert_eq!(
        engine.handle(reply(ServiceReply::Block(Some(block(&[0x30], &[0x20], 3)))), 6),
        Action::Request(ServiceRequest::IgnoreBlock { block_id: vec![0x10] })
    );
}

#[test]
fn walk_that_runs_out_of_blocks_is_fatal() {
    let mut engine = running(9, 0);
    engine.handle(Input::Update(Update::BlockValid(vec![0x10])), 1);
    engine.handle(reply(ServiceReply::Block(Some(block(&[0x10], &[0x20], 3)))), 2);
    engine.handle(reply(ServiceReply::Done), 3);
    engine.handle(reply(ServiceReply::ChainHead(block(&[0x50], &[0x40], 5))), 4);
    assert_eq!(
        engine.handle(reply(ServiceReply::Failed(ServiceError::UnknownBlock)), 5),
        Action::Fail(Fault::Service {
            operation: Operation::GetBlock,
            error: ServiceError::UnknownBlock
        })
    );
}

#[test]
fn valid_block_that_the_service_does_not_have_is_fatal() {
    let mut engine = running(9, 0);
    engine.handle(Input::Update(Update::BlockValid(vec![0x10])), 1);
    assert_eq!(
        engine.handle(reply(ServiceReply::Block(None)), 2),
        Action::Fail(Fault::MissingBlock)
    );
    assert_eq!(engine.handle(Input::Timeout, 3), Action::Fail(Fault::MissingBlock));
}

#[test]
fn commit_after_publishing_resets_the_published_flag() {
    let mut engine = running(0, 0);
    engine.handle(Input::Timeout, 1);
    engine.handle(reply(ServiceReply::Summary(vec![])), 2);
    engine.handle(reply(ServiceReply::BlockId(vec![0x06])), 3);
    engine.handle(reply(ServiceReply::Done), 4);
    assert!(engine.published_at_height);
    assert_eq!(
        engine.handle(Input::Update(Update::BlockCommit(vec![0x06])), 5),
        Action::Request(ServiceRequest::CancelBlock)
    );
    assert_eq!(
        engine.handle(reply(ServiceReply::Done), 6),
        Action::Request(ServiceRequest::GetSettings { block_id: vec![0x06], keys: keys() })
    );
    assert!(engine.published_at_height);
    assert_eq!(
        engine.handle(reply(settings("7", "8")), 7 * SECOND),
        Action::Request(ServiceRequest::InitializeBlock)
    );
    assert!(!engine.published_at_height);
    assert_eq!(engine.wait_time, 7);
    assert_eq!(engine.timer_start, 7 * SECOND);
    assert_eq!(engine.handle(reply(ServiceReply::Done), 7 * SECOND + 1), receive());
    assert_eq!(engine.handle(Input::Timeout, 14 * SECOND), receive());
    assert_eq!(
        engine.handle(Input::Timeout, 14 * SECOND + 1),
        Action::Request(ServiceRequest::SummarizeBlock)
    );
}

#[test]
fn commit_in_the_middle_of_a_build_cancels_and_starts_afresh() {
    let mut engine = running(5, 0);
    assert!(!engine.published_at_height);
    assert_eq!(
        engine.handle(Input::Update(Update::BlockCommit(vec![0x60])), SECOND),
        Action::Request(ServiceRequest::CancelBlock)
    );
    assert_eq!(engine.phase, Phase::Canceling { new_chain_head: vec![0x60] });
    assert_eq!(
        engine.handle(reply(ServiceReply::Done), SECOND + 1),
        Action::Request(ServiceRequest::GetSettings { block_id: vec![0x60], keys: keys() })
    );
    assert_eq!(
        engine.handle(reply(settings("2", "3")), SECOND + 2),
        Action::Request(ServiceRequest::InitializeBlock)
    );
    assert!(!engine.published_at_height);
    assert_eq!(engine.wait_time, 2);
    assert_eq!(engine.timer_start, SECOND + 2);
    assert_eq!(engine.handle(reply(ServiceReply::Done), SECOND + 3), receive());
    assert_eq!(engine.handle(Input::Timeout, 3 * SECOND + 2), receive());
    assert_eq!(
        engine.handle(Input::Timeout, 3 * SECOND + 3),
        Action::Request(ServiceRequest::SummarizeBlock)
    );
}

#[test]
fn commit_with_nothing_to_cancel_goes_on() {
    let mut engine = running(3, 0);
    engine.handle(Input::Update(Update::BlockCommit(vec![0x06])), 5);
    assert_eq!(
        engine.handle(reply(ServiceReply::Failed(ServiceError::InvalidState)), 6),
        Action::Request(ServiceRequest::GetSettings { block_id: vec![0x06], keys: keys() })
    );
}

#[test]
fn commit_with_a_failed_cancel_is_fatal() {
    let mut engine = running(3, 0);
    engine.handle(Input::Update(Update::BlockCommit(vec![0x06])), 5);
    assert_eq!(
        engine.handle(reply(ServiceReply::Failed(ServiceError::SendError)), 6),
        Action::Fail(Fault::Service {
            operation: Operation::CancelBlock,
            error: ServiceError::SendError
        })
    );
}

#[test]
fn timer_is_looked_at_after_the_new_block_is_started() {
    let mut engine = running(3, 0);
    engine.handle(Input::Update(Update::BlockCommit(vec![0x06])), 5);
    engine.handle(reply(ServiceReply::Done), 6);
    engine.handle(reply(settings("bad", "8")), 7);
    assert_eq!(engine.wait_time, 0);
    assert_eq!(
        engine.handle(reply(ServiceReply::Done), 8),
        Action::Request(ServiceRequest::SummarizeBlock)
    );
}

#[test]
fn received_message_is_acknowledged_to_its_sender() {
    let mut engine = running(9, 0);
    let message = PeerMessage { message_type: String::from("received"), content: vec![0xb1] };
    assert_eq!(
        engine.handle(Input::Update(Update::PeerMessage(message, vec![0x77])), 1),
        Action::Request(ServiceRequest::SendTo {
            peer: vec![0x77],
            message_type: DevmodeMessage::Ack,
            payload: vec![0xb1],
        })
    );
    assert_eq!(engine.phase, Phase::Directing { operation: Operation::SendBlockAck });
    assert_eq!(engine.handle(reply(ServiceReply::Done), 2), receive());
}

#[test]
fn published_and_ack_messages_ask_for_nothing() {
    let mut engine = running(9, 0);
    for word in ["published", "ack"] {
        let message = PeerMessage { message_type: String::from(word), content: vec![0xb1] };
        assert_eq!(
            engine.handle(Input::Update(Update::PeerMessage(message, vec![0x77])), 1),
            receive()
        );
    }
}

#[test]
fn unknown_message_type_is_fatal() {
    let mut engine = running(9, 0);
    let message = PeerMessage { message_type: String::from("hello"), content: vec![0xb1] };
    assert_eq!(
        engine.handle(Input::Update(Update::PeerMessage(message, vec![0x77])), 1),
        Action::Fail(Fault::InvalidMessageType)
    );
    assert_eq!(engine.phase, Phase::Faulted(Fault::InvalidMessageType));
}

#[test]
fn peer_and_invalid_block_updates_only_look_at_the_timer() {
    let mut engine = running(1, 0);
    assert_eq!(engine.handle(Input::Update(Update::PeerConnected(vec![1])), 1), receive());
    assert_eq!(engine.handle(Input::Update(Update::PeerDisconnected(vec![1])), 2), receive());
    assert_eq!(engine.handle(Input::Update(Update::BlockInvalid(vec![1])), 3), receive());
    assert_eq!(
        engine.handle(Input::Update(Update::BlockInvalid(vec![1])), 2 * SECOND),
        Action::Request(ServiceRequest::SummarizeBlock)
    );
}

#[test]
fn input_that_answers_nothing_is_unexpected() {
    let mut engine = running(9, 0);
    assert_eq!(engine.handle(reply(ServiceReply::Done), 1), Action::Fail(Fault::Unexpected));
    let mut engine = running(9, 0);
    assert_eq!(engine.handle(Input::Woke, 1), Action::Fail(Fault::Unexpected));
    let mut engine = running(9, 0);
    engine.handle(Input::Update(Update::BlockValid(vec![1])), 1);
    assert_eq!(engine.handle(Input::Timeout, 2), Action::Fail(Fault::Unexpected));
    let mut engine = DevmodeEngine::new();
    assert_eq!(engine.handle(Input::Timeout, 0), Action::Fail(Fault::Unexpected));
}
