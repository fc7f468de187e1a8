use paxos::acceptor::Acceptor;
use paxos::client::Client;
use paxos::ledger::Ledger;
use paxos::learner::Learner;
use paxos::message::Message;
use paxos::proposer::{Ballot, Proposer};
use paxos::quorum::{choose_value, count_value, quorum, Promised};

fn s(v: &str) -> String {
    v.to_string()
}

#[test]
fn prepare_rejects_ballot_not_above_promise() {
    let mut a = Acceptor::new(0, 4);
    assert_eq!(a.handle_prepare(4, 1, 0, s("x")), Message::Fail(s("x")));
    assert_eq!(a.handle_prepare(3, 1, 0, s("x")), Message::Fail(s("x")));
    assert_eq!(a.max_promised(), 4);
}

#[test]
fn prepare_promises_higher_ballot_echoing_candidate() {
    let mut a = Acceptor::new(0, 0);
    assert_eq!(a.handle_prepare(1, 2, 0, s("values")), Message::Promise(1, 2, 0, None, s("values")));
    assert_eq!(a.max_promised(), 1);
    assert!(!a.has_accepted());
}

#[test]
fn promise_reports_previously_accepted_value() {
    let mut a = Acceptor::new(0, 0);
    assert_eq!(a.handle_propose(5, 1, 0, s("v")), Message::Accept(5, 1, 0, s("v")));
    let reply = a.handle_prepare(9, 2, 0, s("new"));
    assert_eq!(reply, Message::Promise(9, 2, 0, Some(5), s("v")));
    assert_eq!(a.max_promised(), 9);
    assert_eq!(a.accepted_value(), Some(s("v")));
    assert_eq!(a.accepted_proposal(), Some(5));
}

#[test]
fn propose_accepts_tie_and_rejects_lower() {
    let mut a = Acceptor::new(0, 0);
    assert_eq!(a.handle_prepare(7, 1, 0, s("a")), Message::Promise(7, 1, 0, None, s("a")));
    assert_eq!(a.handle_propose(7, 1, 0, s("a")), Message::Accept(7, 1, 0, s("a")));
    assert_eq!(a.handle_propose(6, 1, 0, s("b")), Message::Fail(s("b")));
    assert_eq!(a.accepted_value(), Some(s("a")));
    assert_eq!(a.accepted_proposal(), Some(7));
}

#[test]
fn reset_clears_accepted_state_but_keeps_promise() {
    let mut a = Acceptor::new(3, 0);
    a.handle_prepare(8, 1, 0, s("a"));
    a.handle_propose(8, 1, 0, s("a"));
    a.reset();
    assert!(!a.has_accepted());
    assert_eq!(a.accepted_value(), None);
    assert_eq!(a.accepted_proposal(), None);
    assert_eq!(a.max_promised(), 8);
    assert_eq!(a.handle_prepare(8, 1, 1, s("replay")), Message::Fail(s("replay")));
    assert_eq!(a.handle_prepare(5, 1, 1, s("replay")), Message::Fail(s("replay")));
    assert_eq!(a.id(), 3);
}

#[test]
fn quorum_is_strict_majority() {
    assert_eq!(quorum(3), 2);
    assert_eq!(quorum(5), 3);
    assert_eq!(quorum(4), 3);
    assert_eq!(quorum(1), 1);
    assert_eq!(quorum(0), 1);
}

#[test]
fn choose_value_takes_highest_accepted_proposal() {
    let ps: Vec<Promised> = vec![(1, None, s("v1")), (2, Some(5), s("v2")), (3, Some(9), s("v3"))];
    assert_eq!(choose_value(&ps), s("v3"));
    let ps: Vec<Promised> = vec![(3, Some(9), s("v3")), (1, None, s("v1")), (2, Some(5), s("v2"))];
    assert_eq!(choose_value(&ps), s("v3"));
}

#[test]
fn choose_value_takes_first_when_nothing_accepted() {
    let ps: Vec<Promised> = vec![(1, None, s("first")), (1, None, s("second"))];
    assert_eq!(choose_value(&ps), s("first"));
}

#[test]
fn choose_value_takes_last_of_equal_highest() {
    let ps: Vec<Promised> = vec![(4, Some(2), s("a")), (4, None, s("b")), (4, Some(2), s("c")), (4, Some(1), s("d"))];
    assert_eq!(choose_value(&ps), s("c"));
}

#[test]
fn count_value_counts_equal_strings() {
    let vs = vec![s("a"), s("b"), s("a"), s("c")];
    assert_eq!(count_value(&vs, &s("a")), 2);
    assert_eq!(count_value(&vs, &s("c")), 1);
    assert_eq!(count_value(&vs, &s("z")), 0);
    assert_eq!(count_value(&Vec::new(), &s("a")), 0);
}

#[test]
fn consensus_derives_ballot_from_sender() {
    let mut p = Proposer::new(2, 0);
    assert_eq!(p.handle_consensus(Some(10), s("x")), Message::Prepare(11, 2, 0, s("x")));
    assert_eq!(p.proposal_number(), 11);
    assert_eq!(p.ballot(), Ballot::Preparing(11));
    assert_eq!(p.handle_consensus(None, s("y")), Message::Prepare(12, 2, 0, s("y")));
    assert_eq!(p.ballot(), Ballot::Preparing(12));
}

#[test]
fn stable_consensus_goes_to_phase_two() {
    let mut p = Proposer::new(0, 1);
    p.update_round_number(1);
    assert_eq!(p.handle_stable_consensus(Some(10), s("wabbit")), Message::Propose(12, 0, 1, s("wabbit")));
    assert_eq!(p.ballot(), Ballot::Proposing(12));
}

#[test]
fn promise_one_short_of_quorum_does_not_propose() {
    let mut p = Proposer::with_cluster_size(0, 0, 5);
    p.handle_consensus(None, s("v"));
    assert_eq!(p.handle_promise(1, 0, None, s("v")), None);
    assert_eq!(p.handle_promise(1, 0, None, s("v")), None);
    assert_eq!(p.ballot(), Ballot::Preparing(1));
    assert_eq!(p.promise_count(), 2);
    assert_eq!(p.handle_promise(1, 0, Some(0), s("old")), Some(Message::Propose(1, 0, 0, s("old"))));
    assert_eq!(p.ballot(), Ballot::Proposing(1));
    assert_eq!(p.promise_count(), 0);
    assert_eq!(p.handle_promise(1, 0, None, s("v")), None);
}

#[test]
fn promise_quorum_proposes_highest_accepted_value() {
    let mut p = Proposer::new(1, 0);
    assert_eq!(p.handle_consensus(Some(1), s("v1")), Message::Prepare(2, 1, 0, s("v1")));
    assert_eq!(p.handle_promise(2, 0, Some(5), s("v2")), None);
    assert_eq!(p.handle_promise(2, 0, Some(9), s("v3")), Some(Message::Propose(2, 1, 0, s("v3"))));
}

#[test]
fn promise_for_other_ballot_is_ignored() {
    let mut p = Proposer::new(0, 0);
    p.handle_consensus(None, s("v"));
    assert_eq!(p.handle_promise(7, 0, None, s("v")), None);
    assert_eq!(p.handle_promise(7, 0, None, s("v")), None);
    assert_eq!(p.promise_count(), 0);
}

#[test]
fn accept_quorum_per_value() {
    let mut p = Proposer::new(0, 0);
    p.handle_stable_consensus(None, s("a"));
    assert_eq!(p.handle_accept(1, 0, 0, s("a")), None);
    assert_eq!(p.handle_accept(1, 0, 0, s("b")), None);
    assert_eq!(p.ballot(), Ballot::Proposing(1));
    assert_eq!(p.handle_accept(1, 0, 0, s("a")), Some(Message::Accept(1, 0, 0, s("a"))));
    assert_eq!(p.ballot(), Ballot::Idle);
    assert_eq!(p.handle_accept(1, 0, 0, s("a")), None);
}

#[test]
fn update_round_number_asks_for_reset() {
    let mut p = Proposer::new(0, 0);
    assert_eq!(p.update_round_number(4), Message::Reset);
    assert_eq!(p.round_number(), 4);
    assert_eq!(p.reset_acceptors(), Message::Reset);
    assert_eq!(p.propose(3, 4, s("v")), Message::Propose(3, 0, 4, s("v")));
    assert_eq!(p.id(), 0);
}

#[test]
fn ledger_keeps_each_pair_once() {
    let mut l = Ledger::new();
    assert!(l.try_append(0, s("values")));
    assert!(!l.try_append(0, s("values")));
    assert!(l.try_append(1, s("values")));
    assert!(l.contains(0, &s("values")));
    assert!(!l.contains(2, &s("values")));
    assert_eq!(l.len(), 2);
    assert_eq!(l.entries(), &vec![(0, s("values")), (1, s("values"))]);
}

#[test]
fn learner_record_is_idempotent() {
    let learner = Learner::new(1);
    let mut l = Ledger::new();
    assert_eq!(learner.record(4, 0, s("v"), &mut l), Some(Message::RoundNumber(1)));
    assert_eq!(learner.record(4, 0, s("v"), &mut l), None);
    assert_eq!(l.entries(), &vec![(0, s("v"))]);
    assert_eq!(learner.id(), 1);
}

#[test]
fn client_builds_requests() {
    let c = Client::new(0);
    assert_eq!(c.consensus(None, s("values")), Message::Consensus(0, s("values")));
    assert_eq!(c.send_to_stable_leader(Some(10), s("wabbit")), Message::StableConsensus(10, s("wabbit")));
    assert_eq!(c.id(), 0);
    assert_eq!(c.leader_id(), None);
}

#[test]
fn client_records_leader_and_reports_other_messages() {
    let mut c = Client::new(1);
    assert!(!c.handle(&Message::Reset));
    assert_eq!(c.leader_id(), None);
    assert!(c.handle(&Message::LeaderID(2)));
    assert_eq!(c.leader_id(), Some(2));
}

#[test]
fn ledger_dedups_by_exact_pair_only() {
    let mut l = Ledger::new();
    assert!(l.try_append(1, s("a")));
    assert!(l.try_append(1, s("b")));
    assert!(!l.try_append(1, s("a")));
    assert_eq!(l.entries(), &vec![(1, s("a")), (1, s("b"))]);
}
