use vstd::prelude::*;

use crate::acceptor::{Acceptor, AcceptorView};
use crate::ledger::{appended, EntryView, Ledger};
use crate::learner::Learner;
use crate::message::{Message, MessageView};
use crate::proposer::{next_ballot, Proposer, ProposerView, DEFAULT_CLUSTER_SIZE};

verus! {

/// The role of a node that a message is addressed to.
#[derive(Debug, Clone, Copy, PartialEq, Eq, Structural)]
pub enum Role {
    Proposer,
    Acceptor,
    Learner,
}

/// Where an outgoing message goes.
#[derive(Debug, Clone, Copy, PartialEq, Eq, Structural)]
pub enum Dest {
    /// One role of the node with this id.
    Node(u64, Role),
    /// This role of every node, the sender included.
    Nodes(Role),
    /// Every client.
    Clients,
}

/// A message together with where it goes.
#[derive(Debug, Clone, PartialEq, Eq)]
pub struct Outgoing {
    pub dest: Dest,
    pub msg: Message,
}

pub struct OutgoingView {
    pub dest: Dest,
    pub msg: MessageView,
}

impl View for Outgoing {
    type V = OutgoingView;

    open spec fn view(&self) -> OutgoingView {
        OutgoingView { dest: self.dest, msg: self.msg@ }
    }
}

pub open spec fn outgoing(dest: Dest, msg: MessageView) -> OutgoingView {
    OutgoingView { dest, msg }
}

pub open spec fn outgoing_view(out: Seq<Outgoing>) -> Seq<OutgoingView> {
    out.map_values(|o: Outgoing| o@)
}

/// The message in `m`, if any, sent to `dest`.
pub open spec fn sent(dest: Dest, m: Option<MessageView>) -> Seq<OutgoingView> {
    match m {
        Some(x) => seq![outgoing(dest, x)],
        None => Seq::empty(),
    }
}

/// What a learner sends after recording `(r, v)` from the ballot led by `l`
/// into `ledger`: nothing for a pair already there; else the next round for
/// every node and the new leader for every client.
pub open spec fn learned(ledger: Seq<EntryView>, r: u64, v: Seq<char>, l: u64) -> Seq<OutgoingView> {
    if ledger.contains((r, v)) {
        Seq::empty()
    } else {
        seq![
            outgoing(Dest::Nodes(Role::Proposer), MessageView::RoundNumber((r + 1) as u64)),
            outgoing(Dest::Clients, MessageView::LeaderID(l)),
        ]
    }
}

/// What a node does with one message.
#[derive(Debug, PartialEq, Eq)]
pub enum Step {
    /// Send these and go on.
    Continue(Vec<Outgoing>),
    /// The node was told to terminate.
    Stop,
    /// The message does not belong to the role it was addressed to, or a
    /// ballot or round number would leave the range of `u64`: the protocol is
    /// out of step and the node must halt.
    Fault,
}

pub enum StepView {
    Continue(Seq<OutgoingView>),
    Stop,
    Fault,
}

impl View for Step {
    type V = StepView;

    open spec fn view(&self) -> StepView {
        match self {
            Step::Continue(out) => StepView::Continue(outgoing_view(out@)),
            Step::Stop => StepView::Stop,
            Step::Fault => StepView::Fault,
        }
    }
}

/// A node's state: its acceptor and proposer roles. Its learner holds
/// nothing but the node's id.
pub struct NodeView {
    pub id: u64,
    pub acceptor: AcceptorView,
    pub proposer: ProposerView,
}

impl NodeView {
    /// The node's next state, the ledger after the step, and what the node
    /// does, when `msg` reaches its `role`.
    pub open spec fn handle(self, role: Role, msg: MessageView, ledger: Seq<EntryView>) -> (NodeView, Seq<EntryView>, StepView) {
        let fault = (self, ledger, StepView::Fault);
        match msg {
            MessageView::Terminate => (self, ledger, StepView::Stop),
            MessageView::Consensus(s, v) => {
                if role == Role::Proposer && next_ballot(self.proposer.proposal_number, Some(s)) <= u64::MAX {
                    let step = self.proposer.consensus(Some(s), v);
                    (
                        NodeView { proposer: step.0, ..self },
                        ledger,
                        StepView::Continue(seq![outgoing(Dest::Nodes(Role::Acceptor), step.1)]),
                    )
                } else {
                    fault
                }
            },
            MessageView::StableConsensus(s, v) => {
                if role == Role::Proposer && next_ballot(self.proposer.proposal_number, Some(s)) <= u64::MAX {
                    let step = self.proposer.stable_consensus(Some(s), v);
                    (
                        NodeView { proposer: step.0, ..self },
                        ledger,
                        StepView::Continue(seq![outgoing(Dest::Nodes(Role::Acceptor), step.1)]),
                    )
                } else {
                    fault
                }
            },
            MessageView::Promise(p, _l, r, ap, v) => {
                if role == Role::Proposer {
                    let step = self.proposer.promise(p, r, ap, v);
                    (
                        NodeView { proposer: step.0, ..self },
                        ledger,
                        StepView::Continue(sent(Dest::Nodes(Role::Acceptor), step.1)),
                    )
                } else {
                    fault
                }
            },
            MessageView::Accept(p, l, r, v) => {
                if role == Role::Proposer {
                    let step = self.proposer.accept(p, l, r, v);
                    (
                        NodeView { proposer: step.0, ..self },
                        ledger,
                        StepView::Continue(sent(Dest::Nodes(Role::Learner), step.1)),
                    )
                } else if role == Role::Learner && r < u64::MAX {
                    (self, appended(ledger, (r, v)), StepView::Continue(learned(ledger, r, v, l)))
                } else {
                    fault
                }
            },
            MessageView::RoundNumber(r) => {
                if role == Role::Proposer {
                    (
                        NodeView { proposer: ProposerView { round_number: r, ..self.proposer }, ..self },
                        ledger,
                        StepView::Continue(seq![outgoing(Dest::Nodes(Role::Acceptor), MessageView::Reset)]),
                    )
                } else {
                    fault
                }
            },
            MessageView::Fail(_) => {
                if role == Role::Proposer {
                    (self, ledger, StepView::Continue(Seq::empty()))
                } else {
                    fault
                }
            },
            MessageView::Prepare(p, l, r, v) => {
                if role == Role::Acceptor {
                    let step = self.acceptor.prepare(p, l, r, v);
                    (
                        NodeView { acceptor: step.0, ..self },
                        ledger,
                        StepView::Continue(seq![outgoing(Dest::Node(l, Role::Proposer), step.1)]),
                    )
                } else {
                    fault
                }
            },
            MessageView::Propose(p, l, r, v) => {
                if role == Role::Acceptor {
                    let step = self.acceptor.propose(p, l, r, v);
                    (
                        NodeView { acceptor: step.0, ..self },
                        ledger,
                        StepView::Continue(seq![outgoing(Dest::Node(l, Role::Proposer), step.1)]),
                    )
                } else {
                    fault
                }
            },
            MessageView::Reset => {
                if role == Role::Acceptor {
                    (NodeView { acceptor: self.acceptor.reset(), ..self }, ledger, StepView::Continue(Seq::empty()))
                } else {
                    fault
                }
            },
            MessageView::LeaderID(_) => fault,
        }
    }
}

fn one(o: Outgoing) -> (out: Vec<Outgoing>)
    ensures
        outgoing_view(out@) == seq![o@],
{
    let out = vec![o];
    assert(outgoing_view(out@) =~= seq![out@[0]@]);
    out
}

fn nothing() -> (out: Vec<Outgoing>)
    ensures
        outgoing_view(out@) == Seq::<OutgoingView>::empty(),
{
    let out: Vec<Outgoing> = Vec::new();
    assert(outgoing_view(out@) =~= Seq::<OutgoingView>::empty());
    out
}

fn optional(dest: Dest, msg: Option<Message>) -> (out: Vec<Outgoing>)
    ensures
        outgoing_view(out@) == sent(dest, match msg {
            Some(m) => Some(m@),
            None => None,
        }),
{
    match msg {
        Some(m) => one(Outgoing { dest, msg: m }),
        None => nothing(),
    }
}

/// One node of the cluster, playing proposer, acceptor and learner.
pub struct Node {
    id: u64,
    acceptor: Acceptor,
    proposer: Proposer,
    learner: Learner,
}

impl View for Node {
    type V = NodeView;

    closed spec fn view(&self) -> NodeView {
        NodeView { id: self.id, acceptor: self.acceptor@, proposer: self.proposer@ }
    }
}

impl Node {
    /// A node in a cluster of the default size, with its ballot counter at
    /// `proposal_number`, nothing promised and nothing accepted.
    pub fn new(id: u64, proposal_number: u64) -> (n: Node)
        ensures
            n@ == (NodeView {
                id,
                acceptor: AcceptorView { id, max_promised: 0, accepted: None },
                proposer: ProposerView::initial(id, proposal_number, DEFAULT_CLUSTER_SIZE),
            }),
    {
        Node {
            id,
            acceptor: Acceptor::new(id, 0),
            proposer: Proposer::new(id, proposal_number),
            learner: Learner::new(id),
        }
    }

    /// A node in a cluster of `cluster_size` nodes, with its ballot counter at
    /// `proposal_number`, nothing promised and nothing accepted.
    pub fn with_cluster_size(id: u64, proposal_number: u64, cluster_size: u64) -> (n: Node)
        ensures
            n@ == (NodeView {
                id,
                acceptor: AcceptorView { id, max_promised: 0, accepted: None },
                proposer: ProposerView::initial(id, proposal_number, cluster_size),
            }),
    {
        Node {
            id,
            acceptor: Acceptor::new(id, 0),
            proposer: Proposer::with_cluster_size(id, proposal_number, cluster_size),
            learner: Learner::new(id),
        }
    }

    /// Starts a full ballot for a client's value: a `Prepare` for every acceptor.
    pub fn handle_consensus(&mut self, id: Option<u64>, value: String) -> (o: Outgoing)
        requires
            next_ballot(old(self)@.proposer.proposal_number, id) <= u64::MAX,
        ensures
            final(self)@ == (NodeView { proposer: old(self)@.proposer.consensus(id, value@).0, ..old(self)@ }),
            o@ == outgoing(Dest::Nodes(Role::Acceptor), old(self)@.proposer.consensus(id, value@).1),
    {
        let msg = self.proposer.handle_consensus(id, value);
        Outgoing { dest: Dest::Nodes(Role::Acceptor), msg }
    }

    /// Starts a phase-two-only ballot for a client's value: a `Propose` for
    /// every acceptor.
    pub fn handle_stable_consensus(&mut self, id: Option<u64>, value: String) -> (o: Outgoing)
        requires
            next_ballot(old(self)@.proposer.proposal_number, id) <= u64::MAX,
        ensures
            final(self)@ == (NodeView { proposer: old(self)@.proposer.stable_consensus(id, value@).0, ..old(self)@ }),
            o@ == outgoing(Dest::Nodes(Role::Acceptor), old(self)@.proposer.stable_consensus(id, value@).1),
    {
        let msg = self.proposer.handle_stable_consensus(id, value);
        Outgoing { dest: Dest::Nodes(Role::Acceptor), msg }
    }

    /// Moves to round `round_number`: a `Reset` for every acceptor.
    pub fn update_round_number(&mut self, round_number: u64) -> (o: Outgoing)
        ensures
            final(self)@ == (NodeView { proposer: ProposerView { round_number, ..old(self)@.proposer }, ..old(self)@ }),
            o@ == outgoing(Dest::Nodes(Role::Acceptor), MessageView::Reset),
    {
        let msg = self.proposer.update_round_number(round_number);
        Outgoing { dest: Dest::Nodes(Role::Acceptor), msg }
    }

    /// A `Reset` for every acceptor.
    pub fn reset_acceptors(&self) -> (o: Outgoing)
        ensures
            o@ == outgoing(Dest::Nodes(Role::Acceptor), MessageView::Reset),
    {
        Outgoing { dest: Dest::Nodes(Role::Acceptor), msg: self.proposer.reset_acceptors() }
    }

    /// A `Propose` for every acceptor, led by this node.
    pub fn propose(&self, proposal_number: u64, round_number: u64, value: String) -> (o: Outgoing)
        ensures
            o@ == outgoing(Dest::Nodes(Role::Acceptor), MessageView::Propose(proposal_number, self@.proposer.id, round_number, value@)),
    {
        Outgoing { dest: Dest::Nodes(Role::Acceptor), msg: self.proposer.propose(proposal_number, round_number, value) }
    }

    /// Collects a promise; on a quorum, a `Propose` for every acceptor.
    pub fn handle_promise(
        &mut self,
        proposal_number: u64,
        round_number: u64,
        accepted_proposal: Option<u64>,
        value: String,
    ) -> (out: Vec<Outgoing>)
        ensures
            final(self)@ == (NodeView {
                proposer: old(self)@.proposer.promise(proposal_number, round_number, accepted_proposal, value@).0,
                ..old(self)@
            }),
            outgoing_view(out@) == sent(
                Dest::Nodes(Role::Acceptor),
                old(self)@.proposer.promise(proposal_number, round_number, accepted_proposal, value@).1,
            ),
    {
        let m = self.proposer.handle_promise(proposal_number, round_number, accepted_proposal, value);
        optional(Dest::Nodes(Role::Acceptor), m)
    }

    /// Collects an accept; on a quorum for its value, the consolidated
    /// `Accept` for every learner.
    pub fn handle_accept(&mut self, proposal_number: u64, leader_id: u64, round_number: u64, value: String) -> (out: Vec<Outgoing>)
        ensures
            final(self)@ == (NodeView {
                proposer: old(self)@.proposer.accept(proposal_number, leader_id, round_number, value@).0,
                ..old(self)@
            }),
            outgoing_view(out@) == sent(
                Dest::Nodes(Role::Learner),
                old(self)@.proposer.accept(proposal_number, leader_id, round_number, value@).1,
            ),
    {
        let m = self.proposer.handle_accept(proposal_number, leader_id, round_number, value);
        optional(Dest::Nodes(Role::Learner), m)
    }

    /// Answers a phase-one request; the answer goes to the leader's proposer.
    pub fn handle_prepare(&mut self, proposal_number: u64, leader_id: u64, round_number: u64, value: String) -> (o: Outgoing)
        ensures
            final(self)@ == (NodeView {
                acceptor: old(self)@.acceptor.prepare(proposal_number, leader_id, round_number, value@).0,
                ..old(self)@
            }),
            o@ == outgoing(
                Dest::Node(leader_id, Role::Proposer),
                old(self)@.acceptor.prepare(proposal_number, leader_id, round_number, value@).1,
            ),
    {
        let msg = self.acceptor.handle_prepare(proposal_number, leader_id, round_number, value);
        Outgoing { dest: Dest::Node(leader_id, Role::Proposer), msg }
    }

    /// Clears the acceptor's accepted state.
    pub fn reset(&mut self)
        ensures
            final(self)@ == (NodeView { acceptor: old(self)@.acceptor.reset(), ..old(self)@ }),
    {
        self.acceptor.reset();
    }

    /// Answers a phase-two request; the answer goes to the leader's proposer.
    pub fn handle_propose(&mut self, proposal_number: u64, leader_id: u64, round_number: u64, value: String) -> (o: Outgoing)
        ensures
            final(self)@ == (NodeView {
                acceptor: old(self)@.acceptor.propose(proposal_number, leader_id, round_number, value@).0,
                ..old(self)@
            }),
            o@ == outgoing(
                Dest::Node(leader_id, Role::Proposer),
                old(self)@.acceptor.propose(proposal_number, leader_id, round_number, value@).1,
            ),
    {
        let msg = self.acceptor.handle_propose(proposal_number, leader_id, round_number, value);
        Outgoing { dest: Dest::Node(leader_id, Role::Proposer), msg }
    }

    /// Records a value learned for `round_number` in the ballot led by
    /// `leader_id`. A new pair moves every node to the next round and
    /// announces the leader to every client; a repeated one does nothing.
    pub fn record(
        &self,
        proposal_number: u64,
        round_number: u64,
        value: String,
        ledger: &mut Ledger,
        leader_id: u64,
    ) -> (out: Vec<Outgoing>)
        requires
            round_number < u64::MAX,
        ensures
            final(ledger)@ == appended(old(ledger)@, (round_number, value@)),
            outgoing_view(out@) == learned(old(ledger)@, round_number, value@, leader_id),
    {
        match self.learner.record(proposal_number, round_number, value, ledger) {
            Some(next_round) => {
                let out = vec![
                    Outgoing { dest: Dest::Nodes(Role::Proposer), msg: next_round },
                    self.send_stable_leader(leader_id),
                ];
                assert(outgoing_view(out@) =~= learned(old(ledger)@, round_number, value@, leader_id));
                out
            },
            None => {
                let out: Vec<Outgoing> = Vec::new();
                assert(outgoing_view(out@) =~= learned(old(ledger)@, round_number, value@, leader_id));
                out
            },
        }
    }

    fn send_stable_leader(&self, leader_id: u64) -> (o: Outgoing)
        ensures
            o@ == outgoing(Dest::Clients, MessageView::LeaderID(leader_id)),
    {
        Outgoing { dest: Dest::Clients, msg: Message::LeaderID(leader_id) }
    }

    /// Routes one message to the role it is addressed to and returns what the
    /// node does: the messages to send, a stop on `Terminate`, or a fault
    /// when the message has no business at that role.
    pub fn handle(&mut self, role: Role, msg: Message, ledger: &mut Ledger) -> (step: Step)
        ensures
            (final(self)@, final(ledger)@, step@) == old(self)@.handle(role, msg@, old(ledger)@),
    {
        match msg {
            Message::Terminate => Step::Stop,
            Message::Consensus(s, v) => {
                if role == Role::Proposer && self.ballot_fits(s) {
                    Step::Continue(one(self.handle_consensus(Some(s), v)))
                } else {
                    Step::Fault
                }
            },
            Message::StableConsensus(s, v) => {
                if role == Role::Proposer && self.ballot_fits(s) {
                    Step::Continue(one(self.handle_stable_consensus(Some(s), v)))
                } else {
                    Step::Fault
                }
            },
            Message::Promise(p, _l, r, ap, v) => {
                if role == Role::Proposer {
                    Step::Continue(self.handle_promise(p, r, ap, v))
                } else {
                    Step::Fault
                }
            },
            Message::Accept(p, l, r, v) => {
                if role == Role::Proposer {
                    Step::Continue(self.handle_accept(p, l, r, v))
                } else if role == Role::Learner && r < u64::MAX {
                    Step::Continue(self.record(p, r, v, ledger, l))
                } else {
                    Step::Fault
                }
            },
            Message::RoundNumber(r) => {
                if role == Role::Proposer {
                    Step::Continue(one(self.update_round_number(r)))
                } else {
                    Step::Fault
                }
            },
            Message::Fail(_) => {
                if role == Role::Proposer {
                    Step::Continue(nothing())
                } else {
                    Step::Fault
                }
            },
            Message::Prepare(p, l, r, v) => {
                if role == Role::Acceptor {
                    Step::Continue(one(self.handle_prepare(p, l, r, v)))
                } else {
                    Step::Fault
                }
            },
            Message::Propose(p, l, r, v) => {
                if role == Role::Acceptor {
                    Step::Continue(one(self.handle_propose(p, l, r, v)))
                } else {
                    Step::Fault
                }
            },
            Message::Reset => {
                if role == Role::Acceptor {
                    self.reset();
                    Step::Continue(nothing())
                } else {
                    Step::Fault
                }
            },
            Message::LeaderID(_) => Step::Fault,
        }
    }

    fn ballot_fits(&self, sender: u64) -> (r: bool)
        ensures
            r == (next_ballot(self@.proposer.proposal_number, Some(sender)) <= u64::MAX),
    {
        let counter = self.proposer.proposal_number();
        counter < u64::MAX && sender <= u64::MAX - 1 - counter
    }

    /// This node's id.
    pub fn id(&self) -> (r: u64)
        ensures
            r == self@.id,
    {
        self.id
    }

    /// The acceptor role.
    pub fn acceptor(&self) -> (r: &Acceptor)
        ensures
            r@ == self@.acceptor,
    {
        &self.acceptor
    }

    /// The proposer role.
    pub fn proposer(&self) -> (r: &Proposer)
        ensures
            r@ == self@.proposer,
    {
        &self.proposer
    }
}

/// Learning the same `(round, value)` twice: the second time leaves the ledger
/// as the first left it and sends nothing.
pub proof fn lemma_record_idempotent(ledger: Seq<EntryView>, r: u64, v: Seq<char>, l: u64)
    ensures
        appended(appended(ledger, (r, v)), (r, v)) == appended(ledger, (r, v)),
        learned(appended(ledger, (r, v)), r, v, l) == Seq::<OutgoingView>::empty(),
{
    let once = appended(ledger, (r, v));
    if !ledger.contains((r, v)) {
        assert(once[ledger.len() as int] == (r, v));
    }
    assert(once.contains((r, v)));
}

} // verus!
