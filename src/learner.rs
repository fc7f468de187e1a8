use vstd::prelude::*;

use crate::ledger::{appended, Ledger};
use crate::message::{Message, MessageView};

verus! {

/// The learner role of a node: it writes learned values into the shared
/// ledger and asks the cluster to move to the next round.
pub struct Learner {
    id: u64,
}

impl Learner {
    pub fn new(id: u64) -> (l: Learner)
        ensures
            l.node_id() == id,
    {
        Learner { id }
    }

    /// The node this learner belongs to.
    pub closed spec fn node_id(&self) -> u64 {
        self.id
    }

    /// The node this learner belongs to.
    pub fn id(&self) -> (r: u64)
        ensures
            r == self.node_id(),
    {
        self.id
    }

    /// Records that `value` was chosen for `round_number` under ballot
    /// `proposal_number`. When the pair is new, returns the message that
    /// moves every node to the next round; a repeated pair changes nothing.
    pub fn record(&self, proposal_number: u64, round_number: u64, value: String, ledger: &mut Ledger) -> (m: Option<Message>)
        requires
            round_number < u64::MAX,
        ensures
            final(ledger)@ == appended(old(ledger)@, (round_number, value@)),
            m is Some == !old(ledger)@.contains((round_number, value@)),
            m is Some ==> m->0@ == MessageView::RoundNumber((round_number + 1) as u64),
    {
        if ledger.try_append(round_number, value) {
            Some(self.update_round_number(round_number))
        } else {
            None
        }
    }

    fn update_round_number(&self, round_number: u64) -> (m: Message)
        requires
            round_number < u64::MAX,
        ensures
            m@ == MessageView::RoundNumber((round_number + 1) as u64),
    {
        Message::RoundNumber(round_number + 1)
    }
}

} // verus!
