use std::collections::{HashMap, VecDeque};

use devmode_engine::block::Block;
use devmode_engine::engine::{Action, DevmodeEngine, Input};
use devmode_engine::service::{Fault, Operation, ServiceError, ServiceReply, ServiceRequest};
use devmode_engine::update::{PeerMessage, Update};

/// A validator that keeps blocks and settings in memory and records every
/// request made of it.
struct Validator {
    blocks: HashMap<Vec<u8>, Block>,
    chain_head: Vec<u8>,
    settings: HashMap<String, String>,
    not_ready: VecDeque<bool>,
    pending: bool,
    requests: Vec<String>,
}

impl Validator {
    fn new(chain: Vec<Block>, settings: &[(&str, &str)]) -> Self {
        let chain_head = chain.last().unwrap().block_id.clone();
        Validator {
            blocks: chain.into_iter().map(|b| (b.block_id.clone(), b)).collect(),
            chain_head,
            settings: settings.iter().map(|(k, v)| (k.to_string(), v.to_string())).collect(),
            not_ready: VecDeque::new(),
            pending: false,
            requests: Vec::new(),
        }
    }

    fn perform(&mut self, request: ServiceRequest) -> ServiceReply {
        match request {
            ServiceRequest::SendTo { peer, message_type, payload } => {
                self.requests.push(format!("send {} to {:?}: {:?}", message_type.as_str(), peer, payload));
                ServiceReply::Done
            }
            ServiceRequest::Broadcast { message_type, payload } => {
                self.requests.push(format!("broadcast {}: {:?}", message_type.as_str(), payload));
                ServiceReply::Done
            }
            ServiceRequest::InitializeBlock => {
                self.requests.push(String::from("initialize"));
                if self.pending {
                    return ServiceReply::Failed(ServiceError::InvalidState);
                }
                self.pending = true;
                ServiceReply::Done
            }
            ServiceRequest::SummarizeBlock => {
                self.requests.push(String::from("summarize"));
                if self.not_ready.pop_front().unwrap_or(false) {
                    return ServiceReply::Failed(ServiceError::BlockNotReady);
                }
                ServiceReply::Summary(vec![0xaa])
            }
            ServiceRequest::FinalizeBlock { data } => {
                self.requests.push(format!("finalize {:?}", data));
                if self.not_ready.pop_front().unwrap_or(false) {
                    return ServiceReply::Failed(ServiceError::BlockNotReady);
                }
                self.pending = false;
                ServiceReply::BlockId(vec![0x77])
            }
            ServiceRequest::CancelBlock => {
                self.requests.push(String::from("cancel"));
                if !self.pending {
                    return ServiceReply::Failed(ServiceError::InvalidState);
                }
                self.pending = false;
                ServiceReply::Done
            }
            ServiceRequest::CheckBlock { block_id } => {
                self.requests.push(format!("check {:?}", block_id));
                ServiceReply::Done
            }
            ServiceRequest::CommitBlock { block_id } => {
                self.requests.push(format!("commit {:?}", block_id));
                ServiceReply::Done
            }
            ServiceRequest::IgnoreBlock { block_id } => {
                self.requests.push(format!("ignore {:?}", block_id));
                ServiceReply::Done
            }
            ServiceRequest::FailBlock { block_id } => {
                self.requests.push(format!("fail {:?}", block_id));
                ServiceReply::Done
            }
            ServiceRequest::GetBlock { block_id } => {
                self.requests.push(format!("get {:?}", block_id));
                ServiceReply::Block(self.blocks.get(&block_id).cloned())
            }
            ServiceRequest::GetChainHead => {
                self.requests.push(String::from("head"));
                ServiceReply::ChainHead(self.blocks[&self.chain_head].clone())
            }
            ServiceRequest::GetSettings { block_id, keys } => {
                self.requests.push(format!("settings {:?}", block_id));
                ServiceReply::Settings(keys.iter().map(|k| self.settings.get(k).cloned()).collect())
            }
        }
    }
}

/// Drives an engine against the validator until it ends, as a program that
/// hosts the engine would. `updates` holds what each wait for an update
/// gives: an update, or nothing where the wait times out; once it is used
/// up the validator is gone. The clock moves on by a millisecond a step.
fn drive(validator: &mut Validator, updates: Vec<Option<Update>>) -> Result<(), Fault> {
    let mut updates = VecDeque::from(updates);
    let mut engine = DevmodeEngine::new();
    let mut now: u128 = 0;
    let head = validator.blocks[&validator.chain_head].clone();
    let mut action = engine.start(&head);
    for _ in 0..10_000 {
        let input = match action {
            Action::Request(request) => Input::Reply(validator.perform(request)),
            Action::Receive { timeout_millis } => {
                assert_eq!(timeout_millis, 10);
                match updates.pop_front() {
                    Some(Some(update)) => Input::Update(update),
                    Some(None) => Input::Timeout,
                    None => Input::Disconnected,
                }
            }
            Action::Sleep { seconds, announce } => {
                validator.requests.push(format!("sleep {} {}", seconds, announce));
                Input::Woke
            }
            Action::Stop => return Ok(()),
            Action::Fail(fault) => return Err(fault),
        };
        now += 1_000_000;
        action = engine.handle(input, now);
    }
    panic!("the engine did not end");
}

fn block(id: u8, previous: u8, num: u64) -> Block {
    Block {
        block_id: vec![id],
        previous_id: vec![previous],
        signer_id: vec![0x51],
        block_num: num,
        payload: b"Devmode\x01".to_vec(),
        summary: vec![1],
    }
}

fn chain() -> Vec<Block> {
    vec![block(10, 0, 1), block(20, 10, 2), block(30, 20, 3), block(40, 30, 4), block(50, 40, 5)]
}

#[test]
fn engine_publishes_once_and_stops_on_shutdown() {
    let mut validator = Validator::new(chain(), &[]);
    let updates = vec![None, None, None, Some(Update::Shutdown)];
    assert_eq!(drive(&mut validator, updates), Ok(()));
    assert_eq!(
        validator.requests,
        vec![
            "settings [50]",
            "initialize",
            "summarize",
            "finalize [68, 101, 118, 109, 111, 100, 101, 170]",
            "broadcast published: [119]",
        ]
    );
}

#[test]
fn engine_waits_for_an_unready_block() {
    let mut validator = Validator::new(chain(), &[]);
    validator.not_ready = VecDeque::from(vec![true, true, false, true, false]);
    assert_eq!(drive(&mut validator, vec![None]), Ok(()));
    assert_eq!(
        validator.requests,
        vec![
            "settings [50]",
            "initialize",
            "summarize",
            "sleep 1 true",
            "summarize",
            "sleep 1 false",
            "summarize",
            "finalize [68, 101, 118, 109, 111, 100, 101, 170]",
            "sleep 1 true",
            "finalize [68, 101, 118, 109, 111, 100, 101, 170]",
            "broadcast published: [119]",
        ]
    );
}

#[test]
fn engine_does_not_publish_before_the_wait_is_over() {
    let settings = [
        ("sawtooth.consensus.min_wait_time", "3600"),
        ("sawtooth.consensus.max_wait_time", "7200"),
    ];
    let mut validator = Validator::new(chain(), &settings);
    let mut forged = block(62, 50, 6);
    forged.payload = vec![1];
    let genesis = Block { previous_id: vec![0; 8], payload: vec![], ..block(63, 0, 0) };
    let updates = vec![
        Some(Update::BlockNew(block(60, 50, 6))),
        None,
        Some(Update::BlockNew(block(61, 0, 0))),
        Some(Update::BlockNew(forged)),
        Some(Update::BlockNew(genesis)),
        Some(Update::Shutdown),
    ];
    assert_eq!(drive(&mut validator, updates), Ok(()));
    assert_eq!(
        validator.requests,
        vec!["settings [50]", "initialize", "check [60]", "check [61]", "fail [62]"]
    );
}

#[test]
fn engine_resolves_forks_against_the_chain() {
    let settings = [
        ("sawtooth.consensus.min_wait_time", "3600"),
        ("sawtooth.consensus.max_wait_time", "7200"),
    ];
    let mut validator = Validator::new(chain(), &settings);
    validator.blocks.insert(vec![99], block(99, 20, 3));
    validator.blocks.insert(vec![29], block(29, 20, 3));
    validator.blocks.insert(vec![49], block(49, 40, 5));
    validator.blocks.insert(vec![60], block(60, 50, 6));
    let mut updates: Vec<Option<Update>> =
        [99u8, 29, 49, 60].iter().map(|id| Some(Update::BlockValid(vec![*id]))).collect();
    updates.push(Some(Update::Shutdown));
    assert_eq!(drive(&mut validator, updates), Ok(()));
    assert_eq!(
        validator.requests,
        vec![
            "settings [50]",
            "initialize",
            "get [99]",
            "send received to [81]: [99]",
            "head",
            "get [40]",
            "get [30]",
            "commit [99]",
            "get [29]",
            "send received to [81]: [29]",
            "head",
            "get [40]",
            "get [30]",
            "ignore [29]",
            "get [49]",
            "send received to [81]: [49]",
            "head",
            "ignore [49]",
            "get [60]",
            "send received to [81]: [60]",
            "head",
            "commit [60]",
        ]
    );
}

#[test]
fn engine_starts_over_when_the_chain_head_changes() {
    let mut validator = Validator::new(chain(), &[]);
    let updates = vec![None, Some(Update::BlockCommit(vec![0x77])), None, Some(Update::Shutdown)];
    assert_eq!(drive(&mut validator, updates), Ok(()));
    assert_eq!(
        validator.requests,
        vec![
            "settings [50]",
            "initialize",
            "summarize",
            "finalize [68, 101, 118, 109, 111, 100, 101, 170]",
            "broadcast published: [119]",
            "cancel",
            "settings [119]",
            "initialize",
            "summarize",
            "finalize [68, 101, 118, 109, 111, 100, 101, 170]",
            "broadcast published: [119]",
        ]
    );
}

#[test]
fn engine_answers_peers_and_fails_on_an_unknown_message() {
    let settings = [
        ("sawtooth.consensus.min_wait_time", "3600"),
        ("sawtooth.consensus.max_wait_time", "7200"),
    ];
    let mut validator = Validator::new(chain(), &settings);
    let updates = ["published", "received", "ack", "gossip"]
        .iter()
        .map(|word| {
            let message = PeerMessage { message_type: String::from(*word), content: vec![5] };
            Some(Update::PeerMessage(message, vec![9]))
        })
        .collect();
    assert_eq!(drive(&mut validator, updates), Err(Fault::InvalidMessageType));
    assert_eq!(
        validator.requests,
        vec!["settings [50]", "initialize", "send ack to [9]: [5]"]
    );
}

#[test]
fn engine_fails_when_a_block_cannot_be_started() {
    let mut validator = Validator::new(chain(), &[]);
    validator.pending = true;
    assert_eq!(
        drive(&mut validator, vec![]),
        Err(Fault::Service {
            operation: Operation::InitializeBlock,
            error: ServiceError::InvalidState
        })
    );
}
