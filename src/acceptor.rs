use vstd::prelude::*;

use crate::message::{Message, MessageView};

verus! {

/// An acceptor's state: the highest ballot it promised, and the value it
/// accepted last together with that value's ballot.
pub struct AcceptorView {
    pub id: u64,
    pub max_promised: u64,
    pub accepted: Option<(u64, Seq<char>)>,
}

impl AcceptorView {
    /// Answer to `Prepare(p, l, r, v)` and the state after it. A ballot not
    /// above the promised one fails; otherwise it is promised, reporting the
    /// accepted value if there is one and echoing the candidate if not.
    pub open spec fn prepare(self, p: u64, l: u64, r: u64, v: Seq<char>) -> (AcceptorView, MessageView) {
        if p <= self.max_promised {
            (self, MessageView::Fail(v))
        } else {
            let next = AcceptorView { max_promised: p, ..self };
            match self.accepted {
                Some((ap, av)) => (next, MessageView::Promise(p, l, r, Some(ap), av)),
                None => (next, MessageView::Promise(p, l, r, None, v)),
            }
        }
    }

    /// Answer to `Propose(p, l, r, v)` and the state after it. A ballot at
    /// least as high as the promised one is accepted, else it fails.
    pub open spec fn propose(self, p: u64, l: u64, r: u64, v: Seq<char>) -> (AcceptorView, MessageView) {
        if p >= self.max_promised {
            (AcceptorView { max_promised: p, accepted: Some((p, v)), ..self }, MessageView::Accept(p, l, r, v))
        } else {
            (self, MessageView::Fail(v))
        }
    }

    /// The state after a round reset: nothing accepted, promises kept.
    pub open spec fn reset(self) -> AcceptorView {
        AcceptorView { accepted: None, ..self }
    }
}

/// The acceptor role of a node.
pub struct Acceptor {
    id: u64,
    max_id: u64,
    proposal_accepted: bool,
    accepted_value: Option<String>,
    accepted_proposal_number: Option<u64>,
}

impl View for Acceptor {
    type V = AcceptorView;

    closed spec fn view(&self) -> AcceptorView {
        AcceptorView {
            id: self.id,
            max_promised: self.max_id,
            accepted: if self.proposal_accepted {
                Some((self.accepted_proposal_number->0, self.accepted_value->0@))
            } else {
                None
            },
        }
    }
}

impl Acceptor {
    #[verifier::type_invariant]
    spec fn inv(&self) -> bool {
        &&& self.proposal_accepted == self.accepted_value is Some
        &&& self.proposal_accepted == self.accepted_proposal_number is Some
    }

    /// An acceptor that has promised `max_id` and accepted nothing.
    pub fn new(id: u64, max_id: u64) -> (a: Acceptor)
        ensures
            a@ == (AcceptorView { id, max_promised: max_id, accepted: None }),
    {
        Acceptor {
            id,
            max_id,
            proposal_accepted: false,
            accepted_value: None,
            accepted_proposal_number: None,
        }
    }

    /// Answers a phase-one request.
    pub fn handle_prepare(&mut self, proposal_number: u64, leader_id: u64, round_number: u64, value: String) -> (reply: Message)
        ensures
            (final(self)@, reply@) == old(self)@.prepare(proposal_number, leader_id, round_number, value@),
    {
        proof { use_type_invariant(&*self); }
        if proposal_number <= self.max_id {
            Message::Fail(value)
        } else {
            self.max_id = proposal_number;
            match (&self.accepted_proposal_number, &self.accepted_value) {
                (Some(ap), Some(av)) => Message::Promise(proposal_number, leader_id, round_number, Some(*ap), av.clone()),
                _ => Message::Promise(proposal_number, leader_id, round_number, None, value),
            }
        }
    }

    /// Forgets the accepted value; the promised ballot stays.
    pub fn reset(&mut self)
        ensures
            final(self)@ == old(self)@.reset(),
    {
        *self = Acceptor {
            id: self.id,
            max_id: self.max_id,
            proposal_accepted: false,
            accepted_value: None,
            accepted_proposal_number: None,
        };
    }

    /// Answers a phase-two request.
    pub fn handle_propose(&mut self, proposal_number: u64, leader_id: u64, round_number: u64, value: String) -> (reply: Message)
        ensures
            (final(self)@, reply@) == old(self)@.propose(proposal_number, leader_id, round_number, value@),
    {
        if proposal_number >= self.max_id {
            *self = Acceptor {
                id: self.id,
                max_id: proposal_number,
                proposal_accepted: true,
                accepted_value: Some(value.clone()),
                accepted_proposal_number: Some(proposal_number),
            };
            Message::Accept(proposal_number, leader_id, round_number, value)
        } else {
            Message::Fail(value)
        }
    }

    /// The node this acceptor belongs to.
    pub fn id(&self) -> (r: u64)
        ensures
            r == self@.id,
    {
        self.id
    }

    /// The highest ballot promised so far.
    pub fn max_promised(&self) -> (r: u64)
        ensures
            r == self@.max_promised,
    {
        self.max_id
    }

    /// Whether a value is accepted in the current round.
    pub fn has_accepted(&self) -> (r: bool)
        ensures
            r == self@.accepted is Some,
    {
        proof { use_type_invariant(&*self); }
        self.proposal_accepted
    }

    /// The accepted value, if any.
    pub fn accepted_value(&self) -> (r: Option<String>)
        ensures
            match self@.accepted {
                Some((_, av)) => r is Some && r->0@ == av,
                None => r is None,
            },
    {
        proof { use_type_invariant(&*self); }
        self.accepted_value.clone()
    }

    /// The ballot under which the accepted value was accepted, if any.
    pub fn accepted_proposal(&self) -> (r: Option<u64>)
        ensures
            match self@.accepted {
                Some((ap, _)) => r == Some(ap),
                None => r is None,
            },
    {
        proof { use_type_invariant(&*self); }
        self.accepted_proposal_number
    }
}

/// A round reset forgets the accepted value but not the promised ballot, so a
/// replayed `Prepare` at or below that ballot is still rejected.
pub proof fn lemma_reset_keeps_promise(a: AcceptorView, p: u64, l: u64, r: u64, v: Seq<char>)
    requires
        p <= a.max_promised,
    ensures
        a.reset().accepted is None,
        a.reset().max_promised == a.max_promised,
        a.reset().prepare(p, l, r, v) == (a.reset(), MessageView::Fail(v)),
{
}

/// A higher ballot reaching an acceptor that has accepted `(ap, av)` is
/// promised with `(ap, av)`, never with the new candidate.
pub proof fn lemma_promise_reports_accepted(
    a: AcceptorView,
    p: u64,
    l: u64,
    r: u64,
    v: Seq<char>,
    ap: u64,
    av: Seq<char>,
)
    requires
        a.accepted == Some((ap, av)),
        p > a.max_promised,
    ensures
        a.prepare(p, l, r, v).1 == MessageView::Promise(p, l, r, Some(ap), av),
{
}

} // verus!
