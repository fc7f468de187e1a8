use std::collections::VecDeque;

use paxos::client::Client;
use paxos::ledger::Ledger;
use paxos::message::Message;
use paxos::node::{Dest, Node, Role, Step};

/// A cluster whose messages are delivered one at a time, first in first out.
struct Cluster {
    nodes: Vec<Node>,
    ledger: Ledger,
    queue: VecDeque<(usize, Role, Message)>,
    client_inboxes: Vec<Vec<Message>>,
    delivered: Vec<Message>,
}

fn cluster(nodes: usize, clients: usize) -> Cluster {
    Cluster {
        nodes: (0..nodes).map(|i| Node::new(i as u64, 0)).collect(),
        ledger: Ledger::new(),
        queue: VecDeque::new(),
        client_inboxes: vec![Vec::new(); clients],
        delivered: Vec::new(),
    }
}

fn send(c: &mut Cluster, dest: Dest, msg: Message) {
    match dest {
        Dest::Node(id, role) => c.queue.push_back((id as usize, role, msg)),
        Dest::Nodes(role) => {
            for i in 0..c.nodes.len() {
                c.queue.push_back((i, role, msg.clone()));
            }
        }
        Dest::Clients => {
            for inbox in c.client_inboxes.iter_mut() {
                inbox.push(msg.clone());
            }
        }
    }
}

fn run(c: &mut Cluster) {
    while let Some((i, role, msg)) = c.queue.pop_front() {
        c.delivered.push(msg.clone());
        match c.nodes[i].handle(role, msg, &mut c.ledger) {
            Step::Continue(out) => {
                for o in out {
                    send(c, o.dest, o.msg);
                }
            }
            Step::Stop => {}
            Step::Fault => panic!("node {} faulted", i),
        }
    }
}

fn scenario_a() -> Cluster {
    let mut c = cluster(3, 2);
    let client = Client::new(0);
    send(&mut c, Dest::Node(0, Role::Proposer), client.consensus(None, "values".to_string()));
    run(&mut c);
    c
}

#[test]
fn test_propose_single_value() {
    let mut c = scenario_a();
    for i in 0..c.nodes.len() {
        c.queue.push_back((i, Role::Proposer, Message::Terminate));
    }
    run(&mut c);
    assert_eq!(c.ledger.len(), 1);
}

#[test]
fn full_ballot_learns_one_entry() {
    let c = scenario_a();
    assert_eq!(c.ledger.entries(), &vec![(0, "values".to_string())]);
    for node in c.nodes.iter() {
        assert_eq!(node.proposer().round_number(), 1);
        assert!(!node.acceptor().has_accepted());
        assert_eq!(node.acceptor().max_promised(), 1);
    }
}

#[test]
fn leader_announced_to_every_client_once() {
    let c = scenario_a();
    let mut clients = vec![Client::new(0), Client::new(1)];
    for (client, inbox) in clients.iter_mut().zip(c.client_inboxes.iter()) {
        assert_eq!(inbox, &vec![Message::LeaderID(0)]);
        assert!(client.handle(&inbox[0]));
        assert_eq!(client.leader_id(), Some(0));
    }
}

#[test]
fn stable_consensus_learns_next_round_without_phase_one() {
    let mut c = scenario_a();
    c.delivered.clear();
    let client = Client::new(0);
    send(&mut c, Dest::Node(0, Role::Proposer), client.send_to_stable_leader(Some(10), "wabbit".to_string()));
    run(&mut c);
    assert_eq!(c.ledger.entries(), &vec![(0, "values".to_string()), (1, "wabbit".to_string())]);
    assert!(c.delivered.iter().all(|m| !matches!(m, Message::Prepare(..) | Message::Promise(..))));
    assert!(c.delivered.contains(&Message::Propose(12, 0, 1, "wabbit".to_string())));
}

#[test]
fn repeated_learn_notification_changes_nothing() {
    let mut c = scenario_a();
    c.delivered.clear();
    c.queue.push_back((1, Role::Learner, Message::Accept(1, 0, 0, "values".to_string())));
    run(&mut c);
    assert_eq!(c.ledger.len(), 1);
    assert_eq!(c.delivered.len(), 1);
    assert_eq!(c.client_inboxes[0].len(), 1);
}

#[test]
fn misrouted_messages_fault() {
    let mut ledger = Ledger::new();
    let mut node = Node::new(0, 0);
    assert_eq!(node.handle(Role::Acceptor, Message::LeaderID(1), &mut ledger), Step::Fault);
    assert_eq!(node.handle(Role::Proposer, Message::Prepare(1, 0, 0, "v".to_string()), &mut ledger), Step::Fault);
    assert_eq!(node.handle(Role::Acceptor, Message::Consensus(0, "v".to_string()), &mut ledger), Step::Fault);
    assert_eq!(node.handle(Role::Learner, Message::Reset, &mut ledger), Step::Fault);
    assert_eq!(node.handle(Role::Acceptor, Message::Terminate, &mut ledger), Step::Stop);
    assert_eq!(ledger.len(), 0);
}

#[test]
fn overflowing_numbers_fault() {
    let mut ledger = Ledger::new();
    let mut node = Node::new(0, u64::MAX - 1);
    assert_eq!(node.handle(Role::Proposer, Message::Consensus(1, "v".to_string()), &mut ledger), Step::Fault);
    assert_eq!(node.handle(Role::Proposer, Message::StableConsensus(1, "v".to_string()), &mut ledger), Step::Fault);
    assert_eq!(node.proposer().proposal_number(), u64::MAX - 1);
    assert_eq!(node.handle(Role::Learner, Message::Accept(1, 0, u64::MAX, "v".to_string()), &mut ledger), Step::Fault);
    assert_eq!(ledger.len(), 0);
    match node.handle(Role::Proposer, Message::Consensus(0, "v".to_string()), &mut ledger) {
        Step::Continue(out) => assert_eq!(out[0].msg, Message::Prepare(u64::MAX, 0, 0, "v".to_string())),
        other => panic!("unexpected {:?}", other),
    }
}

#[test]
fn acceptor_replies_go_to_the_leader() {
    let mut ledger = Ledger::new();
    let mut node = Node::new(2, 0);
    let o = node.handle_prepare(3, 1, 0, "v".to_string());
    assert_eq!(o.dest, Dest::Node(1, Role::Proposer));
    assert_eq!(o.msg, Message::Promise(3, 1, 0, None, "v".to_string()));
    let o = node.handle_propose(2, 1, 0, "w".to_string());
    assert_eq!(o.dest, Dest::Node(1, Role::Proposer));
    assert_eq!(o.msg, Message::Fail("w".to_string()));
    assert_eq!(node.handle(Role::Proposer, Message::Fail("w".to_string()), &mut ledger), Step::Continue(Vec::new()));
    assert_eq!(node.id(), 2);
}

#[test]
fn learner_announces_round_and_leader() {
    let node = Node::new(1, 0);
    let mut ledger = Ledger::new();
    let out = node.record(5, 3, "v".to_string(), &mut ledger, 2);
    assert_eq!(out.len(), 2);
    assert_eq!(out[0].dest, Dest::Nodes(Role::Proposer));
    assert_eq!(out[0].msg, Message::RoundNumber(4));
    assert_eq!(out[1].dest, Dest::Clients);
    assert_eq!(out[1].msg, Message::LeaderID(2));
    assert!(node.record(5, 3, "v".to_string(), &mut ledger, 2).is_empty());
}
