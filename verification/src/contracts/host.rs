//! What a contract sees of the ledger host, as plain values.
//!
//! The ledger is transactional: a call that fails leaves no trace. A contract
//! function therefore does not act on the host; it appends to [`Env::effects`],
//! in order, what the host has to do for the call to stand. Authorization is one
//! of these effects: the call is void unless the host confirms it.

use vstd::prelude::*;

verus! {

/// Thirty-two bytes, read as two big-endian words.
#[derive(Clone, Copy, PartialEq, Eq, Structural, Debug)]
pub struct Bytes32 {
    pub hi: u128,
    pub lo: u128,
}

/// An account or a contract on the ledger, by its key.
#[derive(Clone, Copy, PartialEq, Eq, Structural, Debug)]
pub enum Address {
    Account(Bytes32),
    Contract(Bytes32),
}

/// A short name, padded with zero bytes to thirty-two.
#[derive(Clone, Copy, PartialEq, Eq, Structural, Debug)]
pub struct Symbol {
    pub text: Bytes32,
}

/// A notice that a contract publishes.
#[derive(Clone, Copy, PartialEq, Eq, Structural, Debug)]
pub enum Event {
    EscrowLocked { escrow_id: Bytes32, buyer: Address, seller: Address, amount: i128 },
    EscrowReleased { escrow_id: Bytes32, caller: Address, seller: Address, amount: i128 },
    EscrowRefunded { escrow_id: Bytes32, caller: Address, buyer: Address, amount: i128 },
    EscrowDisputed { escrow_id: Bytes32, caller: Address, resolver: Address },
    EscrowVote { escrow_id: Bytes32, caller: Address, resolve_to_seller: bool },
    ReporterAdded { reporter: Address },
    ReporterRemoved { reporter: Address },
    SuccessRecorded { user: Address, score: u32 },
    DisputeRecorded { user: Address, score: u32 },
    AdminTransferred { new_admin: Address },
}

/// One thing that the host has to do for a call to stand.
#[derive(Clone, Copy, PartialEq, Eq, Structural, Debug)]
pub enum Effect {
    /// Confirm that this address authorized the call.
    RequireAuth(Address),
    /// Move tokens.
    Transfer { token: Address, from: Address, to: Address, amount: i128 },
    /// Publish a notice.
    Publish(Event),
    /// Prolong the life of the contract's own entry.
    ExtendInstanceTtl { threshold: u32, extend_to: u32 },
    /// Prolong the life of one user's record.
    ExtendRecordTtl { user: Address, threshold: u32, extend_to: u32 },
    /// Replace the contract's code.
    UpdateWasm(Bytes32),
}

/// The call's surroundings: where and when it runs, and what it asks of the host.
pub struct Env {
    /// The address of the running contract.
    pub contract: Address,
    /// The close time of the current ledger, in seconds.
    pub timestamp: u64,
    /// The number of the current ledger.
    pub sequence: u32,
    /// What the host has to do, in order.
    pub effects: Vec<Effect>,
}

/// The two topics under which an event is published.
pub open spec fn event_topics(event: Event) -> (Seq<char>, Seq<char>) {
    match event {
        Event::EscrowLocked { .. } => ("escrow"@, "locked"@),
        Event::EscrowReleased { .. } => ("escrow"@, "released"@),
        Event::EscrowRefunded { .. } => ("escrow"@, "refunded"@),
        Event::EscrowDisputed { .. } => ("escrow"@, "disputed"@),
        Event::EscrowVote { .. } => ("escrow"@, "vote"@),
        Event::ReporterAdded { .. } => ("rep"@, "rptr_add"@),
        Event::ReporterRemoved { .. } => ("rep"@, "rptr_rm"@),
        Event::SuccessRecorded { .. } => ("rep"@, "success"@),
        Event::DisputeRecorded { .. } => ("rep"@, "dispute"@),
        Event::AdminTransferred { .. } => ("rep"@, "adm_xfer"@),
    }
}

impl Event {
    /// The two topics under which the event is published.
    pub fn topics(&self) -> (t: (&'static str, &'static str))
        ensures
            (t.0@, t.1@) == event_topics(*self),
    {
        match self {
            Event::EscrowLocked { .. } => ("escrow", "locked"),
            Event::EscrowReleased { .. } => ("escrow", "released"),
            Event::EscrowRefunded { .. } => ("escrow", "refunded"),
            Event::EscrowDisputed { .. } => ("escrow", "disputed"),
            Event::EscrowVote { .. } => ("escrow", "vote"),
            Event::ReporterAdded { .. } => ("rep", "rptr_add"),
            Event::ReporterRemoved { .. } => ("rep", "rptr_rm"),
            Event::SuccessRecorded { .. } => ("rep", "success"),
            Event::DisputeRecorded { .. } => ("rep", "dispute"),
            Event::AdminTransferred { .. } => ("rep", "adm_xfer"),
        }
    }
}

impl Env {
    /// A call of `contract` at the given ledger that has asked for nothing yet.
    pub fn new(contract: Address, timestamp: u64, sequence: u32) -> (env: Env)
        ensures
            env.contract == contract,
            env.timestamp == timestamp,
            env.sequence == sequence,
            env.effects@ == Seq::<Effect>::empty(),
    {
        Env { contract, timestamp, sequence, effects: Vec::new() }
    }

    /// `self` is `before` after exactly the effects `added` were asked for.
    pub open spec fn asks(self, before: Env, added: Seq<Effect>) -> bool {
        &&& self.contract == before.contract
        &&& self.timestamp == before.timestamp
        &&& self.sequence == before.sequence
        &&& self.effects@ =~= before.effects@ + added
    }

    /// Asks the host for one more effect.
    pub fn ask(&mut self, effect: Effect)
        ensures
            final(self).asks(*old(self), seq![effect]),
    {
        self.effects.push(effect);
        assert(self.effects@ =~= old(self).effects@ + seq![effect]);
    }
}

} // verus!
