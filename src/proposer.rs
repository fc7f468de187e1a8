use vstd::prelude::*;

use crate::message::{Message, MessageView};
use crate::quorum::{
    choose_value, count_value, majority, promised_view, quorum, safe_value, tally, values_view,
    Promised, PromisedView,
};

verus! {

/// The cluster size a proposer assumes unless told otherwise.
pub const DEFAULT_CLUSTER_SIZE: u64 = 3;

/// Where the proposer's one in-flight ballot stands.
#[derive(Debug, Clone, Copy, PartialEq, Eq, Structural)]
pub enum Ballot {
    /// No ballot in flight.
    Idle,
    /// Collecting promises for this ballot.
    Preparing(u64),
    /// Collecting accepts for this ballot.
    Proposing(u64),
}

/// A proposer's state: identity, ballot counter, round, cluster size, and the
/// responses collected for the in-flight ballot.
pub struct ProposerView {
    pub id: u64,
    pub proposal_number: u64,
    pub round_number: u64,
    pub cluster_size: u64,
    pub ballot: Ballot,
    pub promises: Seq<PromisedView>,
    pub accepts: Seq<Seq<char>>,
}

/// The ballot a request from `sender` gets on top of `counter`.
pub open spec fn next_ballot(counter: u64, sender: Option<u64>) -> int {
    counter + 1 + match sender {
        Some(s) => s,
        None => 0,
    }
}

impl ProposerView {
    /// A proposer in round 0 with no ballot in flight.
    pub open spec fn initial(id: u64, proposal_number: u64, cluster_size: u64) -> ProposerView {
        ProposerView {
            id,
            proposal_number,
            round_number: 0,
            cluster_size,
            ballot: Ballot::Idle,
            promises: Seq::empty(),
            accepts: Seq::empty(),
        }
    }

    /// The same proposer with a fresh in-flight ballot and nothing collected.
    pub open spec fn start(self, ballot: Ballot, counter: u64) -> ProposerView {
        ProposerView {
            proposal_number: counter,
            ballot,
            promises: Seq::empty(),
            accepts: Seq::empty(),
            ..self
        }
    }

    /// State and broadcast after a `Consensus` request from `sender`: a fresh
    /// ballot goes to phase one.
    pub open spec fn consensus(self, sender: Option<u64>, v: Seq<char>) -> (ProposerView, MessageView)
        recommends
            next_ballot(self.proposal_number, sender) <= u64::MAX,
    {
        let b = next_ballot(self.proposal_number, sender) as u64;
        (self.start(Ballot::Preparing(b), b), MessageView::Prepare(b, self.id, self.round_number, v))
    }

    /// State and broadcast after a `StableConsensus` request from `sender`: a
    /// fresh ballot goes straight to phase two.
    pub open spec fn stable_consensus(self, sender: Option<u64>, v: Seq<char>) -> (ProposerView, MessageView)
        recommends
            next_ballot(self.proposal_number, sender) <= u64::MAX,
    {
        let b = next_ballot(self.proposal_number, sender) as u64;
        (self.start(Ballot::Proposing(b), b), MessageView::Propose(b, self.id, self.round_number, v))
    }

    /// State after a `Promise` for ballot `p` in round `r`, and the `Propose`
    /// to broadcast if it completes a quorum. Promises for any other ballot
    /// than the one being prepared change nothing.
    pub open spec fn promise(self, p: u64, r: u64, ap: Option<u64>, v: Seq<char>) -> (ProposerView, Option<MessageView>) {
        if self.ballot == Ballot::Preparing(p) {
            let ps = self.promises.push((p, ap, v));
            if ps.len() >= majority(self.cluster_size) {
                (
                    ProposerView { ballot: Ballot::Proposing(p), promises: Seq::empty(), ..self },
                    Some(MessageView::Propose(p, self.id, r, safe_value(ps))),
                )
            } else {
                (ProposerView { promises: ps, ..self }, None)
            }
        } else {
            (self, None)
        }
    }

    /// State after an `Accept` for ballot `p`, and the consolidated `Accept`
    /// for the learners if `v` now has a quorum. Accepts for any other ballot
    /// than the one being proposed change nothing.
    pub open spec fn accept(self, p: u64, l: u64, r: u64, v: Seq<char>) -> (ProposerView, Option<MessageView>) {
        if self.ballot == Ballot::Proposing(p) {
            let vs = self.accepts.push(v);
            if tally(vs, v) >= majority(self.cluster_size) {
                (
                    ProposerView { ballot: Ballot::Idle, promises: Seq::empty(), accepts: Seq::empty(), ..self },
                    Some(MessageView::Accept(p, l, r, v)),
                )
            } else {
                (ProposerView { accepts: vs, ..self }, None)
            }
        } else {
            (self, None)
        }
    }
}

/// The proposer role of a node.
pub struct Proposer {
    id: u64,
    proposal_number: u64,
    round_number: u64,
    cluster_size: u64,
    ballot: Ballot,
    promises: Vec<Promised>,
    accepts: Vec<String>,
}

impl View for Proposer {
    type V = ProposerView;

    closed spec fn view(&self) -> ProposerView {
        ProposerView {
            id: self.id,
            proposal_number: self.proposal_number,
            round_number: self.round_number,
            cluster_size: self.cluster_size,
            ballot: self.ballot,
            promises: promised_view(self.promises@),
            accepts: values_view(self.accepts@),
        }
    }
}

impl Proposer {
    /// A proposer for a cluster of the default size, in round 0, with its
    /// ballot counter at `proposal_number`.
    pub fn new(id: u64, proposal_number: u64) -> (p: Proposer)
        ensures
            p@ == ProposerView::initial(id, proposal_number, DEFAULT_CLUSTER_SIZE),
    {
        Proposer::with_cluster_size(id, proposal_number, DEFAULT_CLUSTER_SIZE)
    }

    /// A proposer for a cluster of `cluster_size` acceptors, in round 0, with
    /// its ballot counter at `proposal_number`.
    pub fn with_cluster_size(id: u64, proposal_number: u64, cluster_size: u64) -> (p: Proposer)
        ensures
            p@ == ProposerView::initial(id, proposal_number, cluster_size),
    {
        let p = Proposer {
            id,
            proposal_number,
            round_number: 0,
            cluster_size,
            ballot: Ballot::Idle,
            promises: Vec::new(),
            accepts: Vec::new(),
        };
        assert(p@.promises =~= Seq::<PromisedView>::empty());
        assert(p@.accepts =~= Seq::<Seq<char>>::empty());
        p
    }

    fn start(&mut self, ballot: Ballot, counter: u64)
        ensures
            final(self)@ == old(self)@.start(ballot, counter),
    {
        self.proposal_number = counter;
        self.ballot = ballot;
        self.promises.clear();
        self.accepts.clear();
        assert(self@.promises =~= Seq::<PromisedView>::empty());
        assert(self@.accepts =~= Seq::<Seq<char>>::empty());
    }

    /// Starts a full two-phase ballot for `value` on behalf of client `id`,
    /// returning the `Prepare` to broadcast to every acceptor.
    pub fn handle_consensus(&mut self, id: Option<u64>, value: String) -> (m: Message)
        requires
            next_ballot(old(self)@.proposal_number, id) <= u64::MAX,
        ensures
            (final(self)@, m@) == old(self)@.consensus(id, value@),
    {
        let b = self.proposal_number + 1 + match id {
            Some(s) => s,
            None => 0,
        };
        self.start(Ballot::Preparing(b), b);
        Message::Prepare(b, self.id, self.round_number, value)
    }

    /// Starts a phase-two-only ballot for `value` on behalf of client `id`,
    /// returning the `Propose` to broadcast to every acceptor.
    pub fn handle_stable_consensus(&mut self, id: Option<u64>, value: String) -> (m: Message)
        requires
            next_ballot(old(self)@.proposal_number, id) <= u64::MAX,
        ensures
            (final(self)@, m@) == old(self)@.stable_consensus(id, value@),
    {
        let b = self.proposal_number + 1 + match id {
            Some(s) => s,
            None => 0,
        };
        self.start(Ballot::Proposing(b), b);
        Message::Propose(b, self.id, self.round_number, value)
    }

    /// Moves to round `round_number`, returning the `Reset` to broadcast to
    /// every acceptor.
    pub fn update_round_number(&mut self, round_number: u64) -> (m: Message)
        ensures
            final(self)@ == (ProposerView { round_number, ..old(self)@ }),
            m@ == MessageView::Reset,
    {
        self.round_number = round_number;
        self.reset_acceptors()
    }

    /// The message that clears every acceptor's accepted state.
    pub fn reset_acceptors(&self) -> (m: Message)
        ensures
            m@ == MessageView::Reset,
    {
        Message::Reset
    }

    /// The phase-two request this proposer sends for `value`.
    pub fn propose(&self, proposal_number: u64, round_number: u64, value: String) -> (m: Message)
        ensures
            m@ == MessageView::Propose(proposal_number, self@.id, round_number, value@),
    {
        Message::Propose(proposal_number, self.id, round_number, value)
    }

    /// Collects a promise; once a quorum of promises for the ballot being
    /// prepared is in, returns the `Propose` to broadcast.
    pub fn handle_promise(
        &mut self,
        proposal_number: u64,
        round_number: u64,
        accepted_proposal: Option<u64>,
        value: String,
    ) -> (m: Option<Message>)
        ensures
            final(self)@ == old(self)@.promise(proposal_number, round_number, accepted_proposal, value@).0,
            match old(self)@.promise(proposal_number, round_number, accepted_proposal, value@).1 {
                Some(out) => m is Some && m->0@ == out,
                None => m is None,
            },
    {
        if self.ballot != Ballot::Preparing(proposal_number) {
            return None;
        }
        let ghost before = self@;
        self.promises.push((proposal_number, accepted_proposal, value));
        assert(self@.promises =~= before.promises.push((proposal_number, accepted_proposal, value@)));
        if self.promises.len() as u64 >= quorum(self.cluster_size) {
            let v = choose_value(&self.promises);
            self.promises.clear();
            self.ballot = Ballot::Proposing(proposal_number);
            assert(self@.promises =~= Seq::<PromisedView>::empty());
            Some(self.propose(proposal_number, round_number, v))
        } else {
            None
        }
    }

    /// Collects an accept; once `value` has a quorum of accepts for the
    /// ballot being proposed, returns the consolidated `Accept` for every
    /// learner and ends the ballot.
    pub fn handle_accept(&mut self, proposal_number: u64, leader_id: u64, round_number: u64, value: String) -> (m: Option<Message>)
        ensures
            final(self)@ == old(self)@.accept(proposal_number, leader_id, round_number, value@).0,
            match old(self)@.accept(proposal_number, leader_id, round_number, value@).1 {
                Some(out) => m is Some && m->0@ == out,
                None => m is None,
            },
    {
        if self.ballot != Ballot::Proposing(proposal_number) {
            return None;
        }
        let ghost before = self@;
        self.accepts.push(value.clone());
        assert(self@.accepts =~= before.accepts.push(value@));
        let c = count_value(&self.accepts, &value);
        if c as u64 >= quorum(self.cluster_size) {
            self.accepts.clear();
            self.promises.clear();
            self.ballot = Ballot::Idle;
            assert(self@.promises =~= Seq::<PromisedView>::empty());
            assert(self@.accepts =~= Seq::<Seq<char>>::empty());
            Some(Message::Accept(proposal_number, leader_id, round_number, value))
        } else {
            None
        }
    }

    /// The node this proposer belongs to.
    pub fn id(&self) -> (r: u64)
        ensures
            r == self@.id,
    {
        self.id
    }

    /// The round this proposer works on.
    pub fn round_number(&self) -> (r: u64)
        ensures
            r == self@.round_number,
    {
        self.round_number
    }

    /// The last ballot number this proposer handed out.
    pub fn proposal_number(&self) -> (r: u64)
        ensures
            r == self@.proposal_number,
    {
        self.proposal_number
    }

    /// The in-flight ballot.
    pub fn ballot(&self) -> (r: Ballot)
        ensures
            r == self@.ballot,
    {
        self.ballot
    }

    /// How many promises the in-flight ballot has collected.
    pub fn promise_count(&self) -> (r: usize)
        ensures
            r == self@.promises.len(),
    {
        self.promises.len()
    }
}

/// A response that leaves its count short of the quorum neither ends phase
/// one nor reaches the learners, and keeps the ballot where it was.
pub proof fn lemma_short_of_quorum(pv: ProposerView, p: u64, l: u64, r: u64, ap: Option<u64>, v: Seq<char>)
    ensures
        pv.promises.len() + 1 < majority(pv.cluster_size) ==> {
            &&& pv.promise(p, r, ap, v).1 is None
            &&& pv.promise(p, r, ap, v).0.ballot == pv.ballot
        },
        tally(pv.accepts.push(v), v) < majority(pv.cluster_size) ==> {
            &&& pv.accept(p, l, r, v).1 is None
            &&& pv.accept(p, l, r, v).0.ballot == pv.ballot
        },
{
}

} // verus!
