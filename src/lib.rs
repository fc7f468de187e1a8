//! A single-process Paxos cluster: ballots, the two-phase prepare/promise and
//! propose/accept exchange, quorum detection, safe-value selection, round
//! advancement and a deduplicated ledger of learned values.
//!
//! Every role is a state machine that takes one message and returns the
//! messages it wants sent, so the transport around it stays outside.

pub mod message;
pub mod ledger;
pub mod acceptor;
pub mod quorum;
pub mod proposer;
pub mod learner;
pub mod node;
pub mod client;
