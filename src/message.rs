use vstd::prelude::*;

verus! {

/// The messages that clients and nodes exchange.
///
/// Ballot-carrying variants hold, in order: the proposal number, the id of
/// the node that leads the ballot, and the round it belongs to.
#[derive(Debug, Clone, PartialEq, Eq)]
pub enum Message {
    /// A client asks a node to run a full two-phase ballot: sender id, value.
    Consensus(u64, String),
    /// A client asks a node it believes to be the stable leader to skip
    /// phase one: sender id, value.
    StableConsensus(u64, String),
    /// Phase-one request: proposal, leader, round, candidate value.
    Prepare(u64, u64, u64, String),
    /// Phase-one answer: proposal, leader, round, the proposal under which
    /// the acceptor accepted a value (if any), and a value.
    Promise(u64, u64, u64, Option<u64>, String),
    /// Phase-two request: proposal, leader, round, value.
    Propose(u64, u64, u64, String),
    /// Phase-two answer, and the learn notification once a quorum accepted:
    /// proposal, leader, round, value.
    Accept(u64, u64, u64, String),
    /// The next round to work on.
    RoundNumber(u64),
    /// Clears the accepted state of an acceptor.
    Reset,
    /// A stale ballot was rejected; carries the rejected value.
    Fail(String),
    /// The node that completed the last round.
    LeaderID(u64),
    /// Ends a node's message loop.
    Terminate,
}

/// What a [`Message`] carries, with each string seen as its characters.
pub enum MessageView {
    Consensus(u64, Seq<char>),
    StableConsensus(u64, Seq<char>),
    Prepare(u64, u64, u64, Seq<char>),
    Promise(u64, u64, u64, Option<u64>, Seq<char>),
    Propose(u64, u64, u64, Seq<char>),
    Accept(u64, u64, u64, Seq<char>),
    RoundNumber(u64),
    Reset,
    Fail(Seq<char>),
    LeaderID(u64),
    Terminate,
}

impl View for Message {
    type V = MessageView;

    open spec fn view(&self) -> MessageView {
        match self {
            Message::Consensus(id, v) => MessageView::Consensus(*id, v@),
            Message::StableConsensus(id, v) => MessageView::StableConsensus(*id, v@),
            Message::Prepare(p, l, r, v) => MessageView::Prepare(*p, *l, *r, v@),
            Message::Promise(p, l, r, a, v) => MessageView::Promise(*p, *l, *r, *a, v@),
            Message::Propose(p, l, r, v) => MessageView::Propose(*p, *l, *r, v@),
            Message::Accept(p, l, r, v) => MessageView::Accept(*p, *l, *r, v@),
            Message::RoundNumber(r) => MessageView::RoundNumber(*r),
            Message::Reset => MessageView::Reset,
            Message::Fail(v) => MessageView::Fail(v@),
            Message::LeaderID(id) => MessageView::LeaderID(*id),
            Message::Terminate => MessageView::Terminate,
        }
    }
}

} // verus!
