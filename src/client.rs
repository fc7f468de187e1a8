use vstd::prelude::*;

use crate::message::{Message, MessageView};

verus! {

/// A client's state: its id and the last leader it heard of.
pub struct ClientView {
    pub id: u64,
    pub leader_id: Option<u64>,
}

/// A client that asks the cluster to agree on values.
#[derive(Debug, Clone)]
pub struct Client {
    id: u64,
    leader_id: Option<u64>,
}

impl View for Client {
    type V = ClientView;

    closed spec fn view(&self) -> ClientView {
        ClientView { id: self.id, leader_id: self.leader_id }
    }
}

/// The id a request carries: the one given, or 0.
pub open spec fn sender_or_zero(id: Option<u64>) -> u64 {
    match id {
        Some(s) => s,
        None => 0,
    }
}

impl Client {
    /// A client that knows no leader yet.
    pub fn new(id: u64) -> (c: Client)
        ensures
            c@ == (ClientView { id, leader_id: None }),
    {
        Client { id, leader_id: None }
    }

    /// The request for a full two-phase ballot on `value`.
    pub fn consensus(&self, id: Option<u64>, value: String) -> (m: Message)
        ensures
            m@ == MessageView::Consensus(sender_or_zero(id), value@),
    {
        Message::Consensus(Self::sender(id), value)
    }

    /// The request, for a node believed to be the stable leader, to put
    /// `value` straight to phase two.
    pub fn send_to_stable_leader(&self, id: Option<u64>, value: String) -> (m: Message)
        ensures
            m@ == MessageView::StableConsensus(sender_or_zero(id), value@),
    {
        Message::StableConsensus(Self::sender(id), value)
    }

    fn sender(id: Option<u64>) -> (s: u64)
        ensures
            s == sender_or_zero(id),
    {
        match id {
            Some(s) => s,
            None => 0,
        }
    }

    /// Takes a message from the client's inbox. A leader announcement is
    /// remembered; anything else is a protocol violation, reported by
    /// returning `false` with the client unchanged.
    pub fn handle(&mut self, msg: &Message) -> (ok: bool)
        ensures
            match msg@ {
                MessageView::LeaderID(l) => ok && final(self)@ == (ClientView { leader_id: Some(l), ..old(self)@ }),
                _ => !ok && final(self)@ == old(self)@,
            },
    {
        match msg {
            Message::LeaderID(l) => {
                self.leader_id = Some(*l);
                true
            },
            _ => false,
        }
    }

    /// This client's id.
    pub fn id(&self) -> (r: u64)
        ensures
            r == self@.id,
    {
        self.id
    }

    /// The last leader announced to this client, if any.
    pub fn leader_id(&self) -> (r: Option<u64>)
        ensures
            r == self@.leader_id,
    {
        self.leader_id
    }
}

} // verus!
