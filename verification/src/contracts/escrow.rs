//! An escrow: a buyer's tokens are held until they go to the seller or back.
//!
//! A locked escrow is released by the seller, refunded by the buyer (or by anybody
//! once it is a week old), or disputed by either. A disputed escrow is settled when
//! buyer and seller vote the same way.

use super::host::{Address, Bytes32, Effect, Env, Event};
use super::storage::Storage;
use vstd::prelude::*;

verus! {

/// The age in seconds from which on anybody may refund a locked escrow: a week.
pub const REFUND_TIMEOUT: u64 = 604_800;

/// Where an escrow stands.
#[derive(Clone, Copy, PartialEq, Eq, Structural, Debug)]
pub enum EscrowState {
    Locked,
    Released,
    Refunded,
    Disputed,
}

/// Why a call is refused.
#[derive(Clone, Copy, PartialEq, Eq, Structural, Debug)]
pub enum EscrowError {
    NotAuthorized,
    AlreadyLocked,
    NotLocked,
    AlreadyFinalized,
    InvalidAmount,
    InvalidState,
    InvalidArbitrator,
    TimeoutNotReached,
    NotDisputed,
    VoteAlreadyCast,
}

impl EscrowState {
    /// The number under which the state is stored on the ledger.
    pub open spec fn spec_code(self) -> u32 {
        match self {
            EscrowState::Locked => 1,
            EscrowState::Released => 2,
            EscrowState::Refunded => 3,
            EscrowState::Disputed => 4,
        }
    }

    /// The number under which the state is stored on the ledger.
    pub fn code(&self) -> (c: u32)
        ensures
            c == self.spec_code(),
    {
        match self {
            EscrowState::Locked => 1,
            EscrowState::Released => 2,
            EscrowState::Refunded => 3,
            EscrowState::Disputed => 4,
        }
    }
}

impl EscrowError {
    /// The number under which the error is reported on the ledger.
    pub open spec fn spec_code(self) -> u32 {
        match self {
            EscrowError::NotAuthorized => 1,
            EscrowError::AlreadyLocked => 2,
            EscrowError::NotLocked => 3,
            EscrowError::AlreadyFinalized => 4,
            EscrowError::InvalidAmount => 5,
            EscrowError::InvalidState => 6,
            EscrowError::InvalidArbitrator => 7,
            EscrowError::TimeoutNotReached => 8,
            EscrowError::NotDisputed => 9,
            EscrowError::VoteAlreadyCast => 10,
        }
    }

    /// The number under which the error is reported on the ledger.
    pub fn code(&self) -> (c: u32)
        ensures
            c == self.spec_code(),
    {
        match self {
            EscrowError::NotAuthorized => 1,
            EscrowError::AlreadyLocked => 2,
            EscrowError::NotLocked => 3,
            EscrowError::AlreadyFinalized => 4,
            EscrowError::InvalidAmount => 5,
            EscrowError::InvalidState => 6,
            EscrowError::InvalidArbitrator => 7,
            EscrowError::TimeoutNotReached => 8,
            EscrowError::NotDisputed => 9,
            EscrowError::VoteAlreadyCast => 10,
        }
    }
}

/// One escrow.
#[derive(Clone, Copy, Debug)]
pub struct Escrow {
    pub buyer: Address,
    pub seller: Address,
    pub arbitrator: Option<Address>,
    pub token: Address,
    pub amount: i128,
    pub state: EscrowState,
    pub memo: Bytes32,
    pub created_at: u64,
    pub timeout_ledger: u32,
    pub dispute_resolver: Option<Address>,
    pub buyer_vote: Option<bool>,
    pub seller_vote: Option<bool>,
}

/// The contract's ledger entries: all escrows, by their number.
pub struct EscrowContract {
    pub escrows: Storage<Bytes32, Escrow>,
}

/// The escrows, seen mathematically.
pub type EscrowModel = Map<Bytes32, Escrow>;

impl View for EscrowContract {
    type V = EscrowModel;

    open spec fn view(&self) -> EscrowModel {
        self.escrows@
    }
}

impl Escrow {
    /// Whether `a` is the arbitrator.
    pub open spec fn arbitrated_by(self, a: Address) -> bool {
        self.arbitrator == Some(a)
    }

    /// Whether `caller` may release the escrow.
    pub open spec fn releasable_by(self, caller: Address) -> bool {
        caller == self.seller || self.arbitrated_by(caller)
    }

    /// Whether `caller` may refund the escrow at time `now`.
    pub open spec fn refundable_by(self, caller: Address, now: u64) -> bool {
        ||| caller == self.buyer
        ||| self.arbitrated_by(caller)
        ||| now >= self.created_at + REFUND_TIMEOUT
    }

    /// The escrow in another state.
    pub open spec fn in_state(self, state: EscrowState) -> Escrow {
        Escrow { state, ..self }
    }

    /// The escrow under dispute before `resolver`.
    pub open spec fn disputed(self, resolver: Address) -> Escrow {
        Escrow { state: EscrowState::Disputed, dispute_resolver: Some(resolver), ..self }
    }

    /// The escrow with the vote of `caller` noted. The buyer's vote comes first where
    /// buyer and seller are the same.
    pub open spec fn with_vote(self, caller: Address, to_seller: bool) -> Escrow {
        if caller == self.buyer {
            Escrow { buyer_vote: Some(to_seller), ..self }
        } else {
            Escrow { seller_vote: Some(to_seller), ..self }
        }
    }

    /// Whether both parties voted, and the same way.
    pub open spec fn agreed(self) -> bool {
        self.buyer_vote is Some && self.buyer_vote == self.seller_vote
    }

    /// The escrow after `caller` voted: settled if that makes both votes agree.
    pub open spec fn after_vote(self, caller: Address, to_seller: bool) -> Escrow {
        let noted = self.with_vote(caller, to_seller);
        if !noted.agreed() {
            noted
        } else if to_seller {
            noted.in_state(EscrowState::Released)
        } else {
            noted.in_state(EscrowState::Refunded)
        }
    }

    /// Why a vote of `caller` is refused on a disputed escrow, if it is.
    pub open spec fn vote_refusal(self, caller: Address) -> Option<EscrowError> {
        if caller == self.buyer {
            if self.buyer_vote is Some {
                Some(EscrowError::VoteAlreadyCast)
            } else {
                None
            }
        } else if caller == self.seller {
            if self.seller_vote is Some {
                Some(EscrowError::VoteAlreadyCast)
            } else {
                None
            }
        } else {
            Some(EscrowError::NotAuthorized)
        }
    }

    /// Whether the contract holds the escrow's tokens.
    pub open spec fn is_open(self) -> bool {
        self.state == EscrowState::Locked || self.state == EscrowState::Disputed
    }

    /// The payment of the escrow's tokens by `contract` to `to`.
    pub open spec fn payout(self, contract: Address, to: Address) -> Effect {
        Effect::Transfer { token: self.token, from: contract, to, amount: self.amount }
    }

    /// What holds of every escrow that came about through the contract's operations.
    pub open spec fn inv(self) -> bool {
        &&& self.amount > 0
        &&& self.arbitrator is None
        &&& self.state == EscrowState::Locked ==> {
            &&& self.buyer_vote is None
            &&& self.seller_vote is None
            &&& self.dispute_resolver is None
        }
        &&& self.state == EscrowState::Disputed ==> self.dispute_resolver is Some && !self.agreed()
    }
}

/// What holds of every contract state that came about through its own operations.
pub open spec fn escrows_inv(m: EscrowModel) -> bool {
    forall|id: Bytes32| #[trigger] m.contains_key(id) ==> m[id].inv()
}

/// A freshly locked escrow.
pub open spec fn locked_escrow(
    buyer: Address,
    seller: Address,
    token: Address,
    amount: i128,
    timeout_ledger: u32,
    memo: Bytes32,
    created_at: u64,
) -> Escrow {
    Escrow {
        buyer,
        seller,
        arbitrator: None,
        token,
        amount,
        state: EscrowState::Locked,
        memo,
        created_at,
        timeout_ledger,
        dispute_resolver: None,
        buyer_vote: None,
        seller_vote: None,
    }
}

/// Whether tokens can be locked under a number, and why not.
pub open spec fn lock_outcome(m: EscrowModel, id: Bytes32, amount: i128) -> Result<(), EscrowError> {
    if amount <= 0 {
        Err(EscrowError::InvalidAmount)
    } else if m.contains_key(id) {
        Err(EscrowError::AlreadyLocked)
    } else {
        Ok(())
    }
}

/// Whether `caller` can release an escrow, and why not.
pub open spec fn release_outcome(m: EscrowModel, id: Bytes32, caller: Address) -> Result<
    (),
    EscrowError,
> {
    if !m.contains_key(id) {
        Err(EscrowError::NotLocked)
    } else if m[id].state != EscrowState::Locked {
        Err(EscrowError::InvalidState)
    } else if !m[id].releasable_by(caller) {
        Err(EscrowError::NotAuthorized)
    } else {
        Ok(())
    }
}

/// Whether `caller` can refund an escrow at time `now`, and why not.
pub open spec fn refund_outcome(m: EscrowModel, id: Bytes32, caller: Address, now: u64) -> Result<
    (),
    EscrowError,
> {
    if !m.contains_key(id) {
        Err(EscrowError::NotLocked)
    } else if m[id].state != EscrowState::Locked {
        Err(EscrowError::InvalidState)
    } else if !m[id].refundable_by(caller, now) {
        Err(EscrowError::NotAuthorized)
    } else {
        Ok(())
    }
}

/// Whether `caller` can dispute an escrow, and why not.
pub open spec fn dispute_outcome(m: EscrowModel, id: Bytes32, caller: Address) -> Result<
    (),
    EscrowError,
> {
    if !m.contains_key(id) {
        Err(EscrowError::NotLocked)
    } else if m[id].state != EscrowState::Locked {
        Err(EscrowError::InvalidState)
    } else if caller != m[id].buyer && caller != m[id].seller {
        Err(EscrowError::NotAuthorized)
    } else {
        Ok(())
    }
}

/// Whether `caller` can vote on an escrow, and why not.
pub open spec fn vote_outcome(m: EscrowModel, id: Bytes32, caller: Address) -> Result<
    (),
    EscrowError,
> {
    if !m.contains_key(id) {
        Err(EscrowError::NotLocked)
    } else if m[id].state != EscrowState::Disputed {
        Err(EscrowError::NotDisputed)
    } else {
        match m[id].vote_refusal(caller) {
            Some(e) => Err(e),
            None => Ok(()),
        }
    }
}

/// What locking `e` asks of the host.
pub open spec fn lock_effects(contract: Address, escrow_id: Bytes32, e: Escrow) -> Seq<Effect> {
    seq![
        Effect::RequireAuth(e.buyer),
        Effect::Transfer { token: e.token, from: e.buyer, to: contract, amount: e.amount },
        Effect::Publish(
            Event::EscrowLocked { escrow_id, buyer: e.buyer, seller: e.seller, amount: e.amount },
        ),
    ]
}

/// What releasing `e` asks of the host.
pub open spec fn release_effects(
    contract: Address,
    escrow_id: Bytes32,
    e: Escrow,
    caller: Address,
) -> Seq<Effect> {
    seq![
        Effect::RequireAuth(caller),
        e.payout(contract, e.seller),
        Effect::Publish(
            Event::EscrowReleased { escrow_id, caller, seller: e.seller, amount: e.amount },
        ),
    ]
}

/// What refunding `e` asks of the host.
pub open spec fn refund_effects(
    contract: Address,
    escrow_id: Bytes32,
    e: Escrow,
    caller: Address,
) -> Seq<Effect> {
    seq![
        Effect::RequireAuth(caller),
        e.payout(contract, e.buyer),
        Effect::Publish(
            Event::EscrowRefunded { escrow_id, caller, buyer: e.buyer, amount: e.amount },
        ),
    ]
}

/// What disputing an escrow asks of the host.
pub open spec fn dispute_effects(escrow_id: Bytes32, caller: Address, resolver: Address) -> Seq<
    Effect,
> {
    seq![
        Effect::RequireAuth(caller),
        Effect::Publish(Event::EscrowDisputed { escrow_id, caller, resolver }),
    ]
}

/// What a vote on `e` asks of the host: a payout too, if the vote settles the escrow.
pub open spec fn vote_effects(
    contract: Address,
    escrow_id: Bytes32,
    e: Escrow,
    caller: Address,
    resolve_to_seller: bool,
) -> Seq<Effect> {
    let notice = Effect::Publish(Event::EscrowVote { escrow_id, caller, resolve_to_seller });
    match e.after_vote(caller, resolve_to_seller).state {
        EscrowState::Released => seq![
            Effect::RequireAuth(caller),
            e.payout(contract, e.seller),
            notice,
        ],
        EscrowState::Refunded => seq![
            Effect::RequireAuth(caller),
            e.payout(contract, e.buyer),
            notice,
        ],
        _ => seq![Effect::RequireAuth(caller), notice],
    }
}

impl EscrowContract {
    /// A contract without escrows.
    pub fn new() -> (c: Self)
        ensures
            c@ == Map::<Bytes32, Escrow>::empty(),
            escrows_inv(c@),
    {
        EscrowContract { escrows: Storage::new() }
    }

    /// Locks the buyer's tokens under a new number.
    pub fn lock_funds(
        &mut self,
        env: &mut Env,
        escrow_id: Bytes32,
        buyer: Address,
        seller: Address,
        token: Address,
        amount: i128,
        timeout_ledger: u32,
        memo: Bytes32,
    ) -> (r: Result<(), EscrowError>)
        ensures
            r == lock_outcome(old(self)@, escrow_id, amount),
            r is Err ==> {
                &&& final(self)@ == old(self)@
                &&& final(env).asks(*old(env), seq![Effect::RequireAuth(buyer)])
            },
            r is Ok ==> {
                let e = locked_escrow(
                    buyer,
                    seller,
                    token,
                    amount,
                    timeout_ledger,
                    memo,
                    old(env).timestamp,
                );
                &&& final(self)@ == old(self)@.insert(escrow_id, e)
                &&& final(env).asks(*old(env), lock_effects(old(env).contract, escrow_id, e))
            },
            escrows_inv(old(self)@) ==> escrows_inv(final(self)@),
    {
        env.ask(Effect::RequireAuth(buyer));
        if amount <= 0 {
            return Err(EscrowError::InvalidAmount);
        }
        if self.escrows.has(escrow_id) {
            return Err(EscrowError::AlreadyLocked);
        }
        let contract = env.contract;
        env.ask(Effect::Transfer { token, from: buyer, to: contract, amount });
        let escrow = Escrow {
            buyer,
            seller,
            arbitrator: None,
            token,
            amount,
            state: EscrowState::Locked,
            memo,
            created_at: env.timestamp,
            timeout_ledger,
            dispute_resolver: None,
            buyer_vote: None,
            seller_vote: None,
        };
        self.escrows.set(escrow_id, escrow);
        env.ask(Effect::Publish(Event::EscrowLocked { escrow_id, buyer, seller, amount }));
        Ok(())
    }

    /// Pays a locked escrow out to the seller.
    pub fn release_funds(&mut self, env: &mut Env, escrow_id: Bytes32, caller: Address) -> (r: Result<
        (),
        EscrowError,
    >)
        ensures
            r == release_outcome(old(self)@, escrow_id, caller),
            r is Err ==> {
                &&& final(self)@ == old(self)@
                &&& final(env).asks(*old(env), seq![Effect::RequireAuth(caller)])
            },
            r is Ok ==> {
                let e = old(self)@[escrow_id];
                &&& final(self)@ == old(self)@.insert(escrow_id, e.in_state(EscrowState::Released))
                &&& final(env).asks(
                    *old(env),
                    release_effects(old(env).contract, escrow_id, e, caller),
                )
            },
            escrows_inv(old(self)@) ==> escrows_inv(final(self)@),
    {
        env.ask(Effect::RequireAuth(caller));
        let mut escrow = match self.escrows.get(escrow_id) {
            Some(e) => *e,
            None => {
                return Err(EscrowError::NotLocked);
            },
        };
        if escrow.state != EscrowState::Locked {
            return Err(EscrowError::InvalidState);
        }
        if caller != escrow.seller {
            match escrow.arbitrator {
                Some(arbitrator) => {
                    if caller != arbitrator {
                        return Err(EscrowError::NotAuthorized);
                    }
                },
                None => {
                    return Err(EscrowError::NotAuthorized);
                },
            }
        }
        let contract = env.contract;
        env.ask(
            Effect::Transfer {
                token: escrow.token,
                from: contract,
                to: escrow.seller,
                amount: escrow.amount,
            },
        );
        escrow.state = EscrowState::Released;
        self.escrows.set(escrow_id, escrow);
        env.ask(
            Effect::Publish(
                Event::EscrowReleased {
                    escrow_id,
                    caller,
                    seller: escrow.seller,
                    amount: escrow.amount,
                },
            ),
        );
        Ok(())
    }

    /// Pays a locked escrow back to the buyer.
    pub fn refund_funds(&mut self, env: &mut Env, escrow_id: Bytes32, caller: Address) -> (r: Result<
        (),
        EscrowError,
    >)
        requires
            old(self)@.contains_key(escrow_id) && old(self)@[escrow_id].state == EscrowState::Locked
                ==> old(self)@[escrow_id].created_at + REFUND_TIMEOUT <= u64::MAX,
        ensures
            r == refund_outcome(old(self)@, escrow_id, caller, old(env).timestamp),
            r is Err ==> {
                &&& final(self)@ == old(self)@
                &&& final(env).asks(*old(env), seq![Effect::RequireAuth(caller)])
            },
            r is Ok ==> {
                let e = old(self)@[escrow_id];
                &&& final(self)@ == old(self)@.insert(escrow_id, e.in_state(EscrowState::Refunded))
                &&& final(env).asks(
                    *old(env),
                    refund_effects(old(env).contract, escrow_id, e, caller),
                )
            },
            escrows_inv(old(self)@) ==> escrows_inv(final(self)@),
    {
        env.ask(Effect::RequireAuth(caller));
        let mut escrow = match self.escrows.get(escrow_id) {
            Some(e) => *e,
            None => {
                return Err(EscrowError::NotLocked);
            },
        };
        if escrow.state != EscrowState::Locked {
            return Err(EscrowError::InvalidState);
        }
        let is_timeout = env.timestamp >= escrow.created_at + REFUND_TIMEOUT;
        let is_arbitrator = match escrow.arbitrator {
            Some(arbitrator) => arbitrator == caller,
            None => false,
        };
        let is_authorized = caller == escrow.buyer || is_arbitrator;
        if !is_authorized && !is_timeout {
            return Err(EscrowError::NotAuthorized);
        }
        let contract = env.contract;
        env.ask(
            Effect::Transfer {
                token: escrow.token,
                from: contract,
                to: escrow.buyer,
                amount: escrow.amount,
            },
        );
        escrow.state = EscrowState::Refunded;
        self.escrows.set(escrow_id, escrow);
        env.ask(
            Effect::Publish(
                Event::EscrowRefunded {
                    escrow_id,
                    caller,
                    buyer: escrow.buyer,
                    amount: escrow.amount,
                },
            ),
        );
        Ok(())
    }

    /// The escrow under a number.
    pub fn get_escrow(&self, escrow_id: Bytes32) -> (r: Result<Escrow, EscrowError>)
        ensures
            r == (if self@.contains_key(escrow_id) {
                Ok::<Escrow, EscrowError>(self@[escrow_id])
            } else {
                Err(EscrowError::NotLocked)
            }),
    {
        match self.escrows.get(escrow_id) {
            Some(e) => Ok(*e),
            None => Err(EscrowError::NotLocked),
        }
    }

    /// Whether there is a locked escrow under a number.
    pub fn is_locked(&self, escrow_id: Bytes32) -> (b: bool)
        ensures
            b == (self@.contains_key(escrow_id) && self@[escrow_id].state == EscrowState::Locked),
    {
        match self.escrows.get(escrow_id) {
            Some(e) => e.state == EscrowState::Locked,
            None => false,
        }
    }

    /// Puts a locked escrow under dispute before `resolver`. Buyer or seller may.
    pub fn initiate_dispute(
        &mut self,
        env: &mut Env,
        escrow_id: Bytes32,
        caller: Address,
        resolver: Address,
    ) -> (r: Result<(), EscrowError>)
        ensures
            r == dispute_outcome(old(self)@, escrow_id, caller),
            r is Err ==> {
                &&& final(self)@ == old(self)@
                &&& final(env).asks(*old(env), seq![Effect::RequireAuth(caller)])
            },
            r is Ok ==> {
                &&& final(self)@ == old(self)@.insert(
                    escrow_id,
                    old(self)@[escrow_id].disputed(resolver),
                )
                &&& final(env).asks(*old(env), dispute_effects(escrow_id, caller, resolver))
            },
            escrows_inv(old(self)@) ==> escrows_inv(final(self)@),
    {
        env.ask(Effect::RequireAuth(caller));
        let mut escrow = match self.escrows.get(escrow_id) {
            Some(e) => *e,
            None => {
                return Err(EscrowError::NotLocked);
            },
        };
        if escrow.state != EscrowState::Locked {
            return Err(EscrowError::InvalidState);
        }
        if caller != escrow.buyer && caller != escrow.seller {
            return Err(EscrowError::NotAuthorized);
        }
        escrow.state = EscrowState::Disputed;
        escrow.dispute_resolver = Some(resolver);
        self.escrows.set(escrow_id, escrow);
        env.ask(Effect::Publish(Event::EscrowDisputed { escrow_id, caller, resolver }));
        Ok(())
    }

    /// Casts the vote of buyer or seller on a disputed escrow: `true` for paying the
    /// seller, `false` for paying the buyer back. The second vote settles the escrow
    /// if it agrees with the first.
    pub fn vote_resolution(
        &mut self,
        env: &mut Env,
        escrow_id: Bytes32,
        caller: Address,
        resolve_to_seller: bool,
    ) -> (r: Result<(), EscrowError>)
        ensures
            r == vote_outcome(old(self)@, escrow_id, caller),
            r is Err ==> {
                &&& final(self)@ == old(self)@
                &&& final(env).asks(*old(env), seq![Effect::RequireAuth(caller)])
            },
            r is Ok ==> {
                let e = old(self)@[escrow_id];
                &&& final(self)@ == old(self)@.insert(
                    escrow_id,
                    e.after_vote(caller, resolve_to_seller),
                )
                &&& final(env).asks(
                    *old(env),
                    vote_effects(old(env).contract, escrow_id, e, caller, resolve_to_seller),
                )
            },
            escrows_inv(old(self)@) ==> escrows_inv(final(self)@),
    {
        env.ask(Effect::RequireAuth(caller));
        let mut escrow = match self.escrows.get(escrow_id) {
            Some(e) => *e,
            None => {
                return Err(EscrowError::NotLocked);
            },
        };
        if escrow.state != EscrowState::Disputed {
            return Err(EscrowError::NotDisputed);
        }
        if caller == escrow.buyer {
            if escrow.buyer_vote.is_some() {
                return Err(EscrowError::VoteAlreadyCast);
            }
            escrow.buyer_vote = Some(resolve_to_seller);
        } else if caller == escrow.seller {
            if escrow.seller_vote.is_some() {
                return Err(EscrowError::VoteAlreadyCast);
            }
            escrow.seller_vote = Some(resolve_to_seller);
        } else {
            return Err(EscrowError::NotAuthorized);
        }
        if let (Some(buyer_vote), Some(seller_vote)) = (escrow.buyer_vote, escrow.seller_vote) {
            if buyer_vote == seller_vote {
                let contract = env.contract;
                if resolve_to_seller {
                    env.ask(
                        Effect::Transfer {
                            token: escrow.token,
                            from: contract,
                            to: escrow.seller,
                            amount: escrow.amount,
                        },
                    );
                    escrow.state = EscrowState::Released;
                } else {
                    env.ask(
                        Effect::Transfer {
                            token: escrow.token,
                            from: contract,
                            to: escrow.buyer,
                            amount: escrow.amount,
                        },
                    );
                    escrow.state = EscrowState::Refunded;
                }
            }
        }
        self.escrows.set(escrow_id, escrow);
        env.ask(Effect::Publish(Event::EscrowVote { escrow_id, caller, resolve_to_seller }));
        Ok(())
    }

    /// The state of the escrow under a number.
    pub fn get_state(&self, escrow_id: Bytes32) -> (r: Result<EscrowState, EscrowError>)
        ensures
            r == (if self@.contains_key(escrow_id) {
                Ok::<EscrowState, EscrowError>(self@[escrow_id].state)
            } else {
                Err(EscrowError::NotLocked)
            }),
    {
        match self.escrows.get(escrow_id) {
            Some(e) => Ok(e.state),
            None => Err(EscrowError::NotLocked),
        }
    }
}

/// The tokens of one kind that the contract holds for an escrow.
pub open spec fn share(e: Escrow, token: Address) -> int {
    if e.is_open() && e.token == token {
        e.amount as int
    } else {
        0
    }
}

/// The tokens of one kind that the contract holds for all escrows.
pub open spec fn held(m: EscrowModel, token: Address) -> int
    decreases m.dom().len(),
{
    if !m.dom().finite() || m.dom().len() == 0 {
        0
    } else {
        let id = m.dom().choose();
        share(m[id], token) + held(m.remove(id), token)
    }
}

/// What a list of effects adds to the contract's own balance of one token.
pub open spec fn inflow(effects: Seq<Effect>, contract: Address, token: Address) -> int
    decreases effects.len(),
{
    if effects.len() == 0 {
        0
    } else {
        inflow(effects.drop_last(), contract, token) + (match effects.last() {
            Effect::Transfer { token: t, from, to, amount } => {
                let gained = if t == token && to == contract {
                    amount as int
                } else {
                    0
                };
                let paid = if t == token && from == contract {
                    amount as int
                } else {
                    0
                };
                gained - paid
            },
            _ => 0,
        })
    }
}

proof fn lemma_held_without(m: EscrowModel, token: Address, id: Bytes32)
    requires
        m.dom().finite(),
        m.contains_key(id),
    ensures
        held(m, token) == share(m[id], token) + held(m.remove(id), token),
    decreases m.dom().len(),
{
    let c = m.dom().choose();
    assert(m.dom().contains(c));
    if c != id {
        lemma_held_without(m.remove(c), token, id);
        lemma_held_without(m.remove(id), token, c);
        assert(m.remove(c).remove(id) =~= m.remove(id).remove(c));
    }
}

proof fn lemma_held_insert(m: EscrowModel, token: Address, id: Bytes32, e: Escrow)
    requires
        m.dom().finite(),
    ensures
        held(m.insert(id, e), token) == held(m, token) + share(e, token) - (if m.contains_key(id) {
            share(m[id], token)
        } else {
            0
        }),
{
    let after = m.insert(id, e);
    lemma_held_without(after, token, id);
    if m.contains_key(id) {
        lemma_held_without(m, token, id);
        assert(after.remove(id) =~= m.remove(id));
    } else {
        assert(after.remove(id) =~= m);
    }
}

proof fn lemma_inflow_of_two(effects: Seq<Effect>, contract: Address, token: Address)
    requires
        effects.len() == 2,
        !(effects[0] is Transfer),
        !(effects[1] is Transfer),
    ensures
        inflow(effects, contract, token) == 0,
{
    reveal_with_fuel(inflow, 3);
}

proof fn lemma_inflow_of_three(
    effects: Seq<Effect>,
    contract: Address,
    token: Address,
    kind: Address,
    from: Address,
    to: Address,
    amount: i128,
)
    requires
        effects.len() == 3,
        !(effects[0] is Transfer),
        effects[1] == (Effect::Transfer { token: kind, from, to, amount }),
        !(effects[2] is Transfer),
    ensures
        inflow(effects, contract, token) == (if kind == token && to == contract {
            amount as int
        } else {
            0
        }) - (if kind == token && from == contract {
            amount as int
        } else {
            0
        }),
{
    reveal_with_fuel(inflow, 4);
    assert(effects.drop_last().last() == effects[1]);
    assert(effects.drop_last().drop_last().last() == effects[0]);
}

/// The contract's balance covers its open escrows exactly: locking, releasing,
/// refunding, disputing and voting change what is held for escrows by just what the
/// call moves into or out of the contract, as long as the contract itself is neither
/// buyer nor seller.
pub proof fn law_funds_are_conserved(
    m: EscrowModel,
    contract: Address,
    id: Bytes32,
    e: Escrow,
    caller: Address,
    other: Address,
    to_seller: bool,
    now: u64,
    token: Address,
)
    requires
        m.dom().finite(),
        e.buyer != contract,
        e.seller != contract,
    ensures
        lock_outcome(m, id, e.amount) is Ok && e.state == EscrowState::Locked ==> held(
            m.insert(id, e),
            token,
        ) == held(m, token) + inflow(lock_effects(contract, id, e), contract, token),
        release_outcome(m, id, caller) is Ok && m[id] == e ==> held(
            m.insert(id, e.in_state(EscrowState::Released)),
            token,
        ) == held(m, token) + inflow(release_effects(contract, id, e, caller), contract, token),
        refund_outcome(m, id, caller, now) is Ok && m[id] == e ==> held(
            m.insert(id, e.in_state(EscrowState::Refunded)),
            token,
        ) == held(m, token) + inflow(refund_effects(contract, id, e, caller), contract, token),
        dispute_outcome(m, id, caller) is Ok && m[id] == e ==> held(
            m.insert(id, e.disputed(other)),
            token,
        ) == held(m, token) + inflow(dispute_effects(id, caller, other), contract, token),
        vote_outcome(m, id, caller) is Ok && m[id] == e ==> held(
            m.insert(id, e.after_vote(caller, to_seller)),
            token,
        ) == held(m, token) + inflow(
            vote_effects(contract, id, e, caller, to_seller),
            contract,
            token,
        ),
{
    lemma_held_insert(m, token, id, e);
    lemma_held_insert(m, token, id, e.in_state(EscrowState::Released));
    lemma_held_insert(m, token, id, e.in_state(EscrowState::Refunded));
    lemma_held_insert(m, token, id, e.disputed(other));
    lemma_held_insert(m, token, id, e.after_vote(caller, to_seller));
    lemma_inflow_of_three(
        lock_effects(contract, id, e),
        contract,
        token,
        e.token,
        e.buyer,
        contract,
        e.amount,
    );
    lemma_inflow_of_three(
        release_effects(contract, id, e, caller),
        contract,
        token,
        e.token,
        contract,
        e.seller,
        e.amount,
    );
    lemma_inflow_of_three(
        refund_effects(contract, id, e, caller),
        contract,
        token,
        e.token,
        contract,
        e.buyer,
        e.amount,
    );
    lemma_inflow_of_two(dispute_effects(id, caller, other), contract, token);
    let vote = vote_effects(contract, id, e, caller, to_seller);
    let settled = e.after_vote(caller, to_seller).state;
    if settled == EscrowState::Released {
        lemma_inflow_of_three(vote, contract, token, e.token, contract, e.seller, e.amount);
    } else if settled == EscrowState::Refunded {
        lemma_inflow_of_three(vote, contract, token, e.token, contract, e.buyer, e.amount);
    } else {
        lemma_inflow_of_two(vote, contract, token);
    }
}

/// A call of the contract.
pub enum EscrowCall {
    Lock {
        escrow_id: Bytes32,
        buyer: Address,
        seller: Address,
        token: Address,
        amount: i128,
        timeout_ledger: u32,
        memo: Bytes32,
    },
    Release { escrow_id: Bytes32, caller: Address },
    Refund { escrow_id: Bytes32, caller: Address },
    Dispute { escrow_id: Bytes32, caller: Address, resolver: Address },
    Vote { escrow_id: Bytes32, caller: Address, resolve_to_seller: bool },
}

/// The escrows after a call at time `now`, and what the host did for it. A call that is
/// refused changes nothing.
pub open spec fn after_call(m: EscrowModel, contract: Address, now: u64, call: EscrowCall) -> (
    EscrowModel,
    Seq<Effect>,
) {
    match call {
        EscrowCall::Lock { escrow_id, buyer, seller, token, amount, timeout_ledger, memo } => {
            let e = locked_escrow(buyer, seller, token, amount, timeout_ledger, memo, now);
            if lock_outcome(m, escrow_id, amount) is Ok {
                (m.insert(escrow_id, e), lock_effects(contract, escrow_id, e))
            } else {
                (m, seq![])
            }
        },
        EscrowCall::Release { escrow_id, caller } => {
            let e = m[escrow_id];
            if release_outcome(m, escrow_id, caller) is Ok {
                (
                    m.insert(escrow_id, e.in_state(EscrowState::Released)),
                    release_effects(contract, escrow_id, e, caller),
                )
            } else {
                (m, seq![])
            }
        },
        EscrowCall::Refund { escrow_id, caller } => {
            let e = m[escrow_id];
            if refund_outcome(m, escrow_id, caller, now) is Ok {
                (
                    m.insert(escrow_id, e.in_state(EscrowState::Refunded)),
                    refund_effects(contract, escrow_id, e, caller),
                )
            } else {
                (m, seq![])
            }
        },
        EscrowCall::Dispute { escrow_id, caller, resolver } => {
            let e = m[escrow_id];
            if dispute_outcome(m, escrow_id, caller) is Ok {
                (
                    m.insert(escrow_id, e.disputed(resolver)),
                    dispute_effects(escrow_id, caller, resolver),
                )
            } else {
                (m, seq![])
            }
        },
        EscrowCall::Vote { escrow_id, caller, resolve_to_seller } => {
            let e = m[escrow_id];
            if vote_outcome(m, escrow_id, caller) is Ok {
                (
                    m.insert(escrow_id, e.after_vote(caller, resolve_to_seller)),
                    vote_effects(contract, escrow_id, e, caller, resolve_to_seller),
                )
            } else {
                (m, seq![])
            }
        },
    }
}

/// The escrows after a sequence of calls, each with its time, on a new contract.
pub open spec fn after_calls(contract: Address, calls: Seq<(u64, EscrowCall)>) -> EscrowModel
    decreases calls.len(),
{
    if calls.len() == 0 {
        Map::empty()
    } else {
        let (now, call) = calls.last();
        after_call(after_calls(contract, calls.drop_last()), contract, now, call).0
    }
}

/// What a sequence of calls leaves on the contract's own balance of one token.
pub open spec fn balance_after(
    contract: Address,
    calls: Seq<(u64, EscrowCall)>,
    token: Address,
) -> int
    decreases calls.len(),
{
    if calls.len() == 0 {
        0
    } else {
        let (now, call) = calls.last();
        let done = after_call(after_calls(contract, calls.drop_last()), contract, now, call).1;
        balance_after(contract, calls.drop_last(), token) + inflow(done, contract, token)
    }
}

/// The contract itself is neither buyer nor seller of what the call locks.
pub open spec fn between_others(call: EscrowCall, contract: Address) -> bool {
    call matches EscrowCall::Lock { buyer, seller, .. } ==> buyer != contract && seller != contract
}

/// The contract is neither buyer nor seller of any escrow.
spec fn all_between_others(m: EscrowModel, contract: Address) -> bool {
    forall|id: Bytes32| #[trigger]
        m.contains_key(id) ==> m[id].buyer != contract && m[id].seller != contract
}

proof fn lemma_call_keeps_balance(
    m: EscrowModel,
    contract: Address,
    now: u64,
    call: EscrowCall,
    token: Address,
)
    requires
        m.dom().finite(),
        escrows_inv(m),
        all_between_others(m, contract),
        between_others(call, contract),
    ensures
        ({
            let (after, done) = after_call(m, contract, now, call);
            &&& after.dom().finite()
            &&& escrows_inv(after)
            &&& all_between_others(after, contract)
            &&& held(after, token) == held(m, token) + inflow(done, contract, token)
        }),
{
    match call {
        EscrowCall::Lock { escrow_id, buyer, seller, token: t, amount, timeout_ledger, memo } => {
            let e = locked_escrow(buyer, seller, t, amount, timeout_ledger, memo, now);
            law_funds_are_conserved(m, contract, escrow_id, e, buyer, buyer, true, now, token);
        },
        EscrowCall::Release { escrow_id, caller } => {
            if m.contains_key(escrow_id) {
                let e = m[escrow_id];
                law_funds_are_conserved(m, contract, escrow_id, e, caller, caller, true, now, token);
            }
        },
        EscrowCall::Refund { escrow_id, caller } => {
            if m.contains_key(escrow_id) {
                let e = m[escrow_id];
                law_funds_are_conserved(m, contract, escrow_id, e, caller, caller, true, now, token);
            }
        },
        EscrowCall::Dispute { escrow_id, caller, resolver } => {
            if m.contains_key(escrow_id) {
                let e = m[escrow_id];
                law_funds_are_conserved(
                    m,
                    contract,
                    escrow_id,
                    e,
                    caller,
                    resolver,
                    true,
                    now,
                    token,
                );
            }
        },
        EscrowCall::Vote { escrow_id, caller, resolve_to_seller } => {
            if m.contains_key(escrow_id) {
                let e = m[escrow_id];
                law_funds_are_conserved(
                    m,
                    contract,
                    escrow_id,
                    e,
                    caller,
                    caller,
                    resolve_to_seller,
                    now,
                    token,
                );
            }
        },
    }
}

proof fn lemma_calls_keep_balance(
    contract: Address,
    calls: Seq<(u64, EscrowCall)>,
    token: Address,
)
    requires
        forall|i: int| 0 <= i < calls.len() ==> between_others((#[trigger] calls[i]).1, contract),
    ensures
        ({
            let m = after_calls(contract, calls);
            &&& m.dom().finite()
            &&& escrows_inv(m)
            &&& all_between_others(m, contract)
            &&& balance_after(contract, calls, token) == held(m, token)
        }),
    decreases calls.len(),
{
    if calls.len() > 0 {
        let init = calls.drop_last();
        assert forall|i: int| 0 <= i < init.len() implies between_others(
            (#[trigger] init[i]).1,
            contract,
        ) by {
            assert(init[i] == calls[i]);
        }
        lemma_calls_keep_balance(contract, init, token);
        let (now, call) = calls.last();
        assert(between_others(calls[calls.len() - 1].1, contract));
        lemma_call_keeps_balance(after_calls(contract, init), contract, now, call, token);
    }
}

/// After any calls on a new contract, the contract's own balance is exactly what its open
/// escrows are owed, as long as it is itself neither buyer nor seller.
pub proof fn law_balance_covers_the_open_escrows(
    contract: Address,
    calls: Seq<(u64, EscrowCall)>,
    token: Address,
)
    requires
        forall|i: int| 0 <= i < calls.len() ==> between_others((#[trigger] calls[i]).1, contract),
    ensures
        balance_after(contract, calls, token) == held(after_calls(contract, calls), token),
        escrows_inv(after_calls(contract, calls)),
{
    lemma_calls_keep_balance(contract, calls, token);
}

/// An escrow that was paid out stays as it is: nobody can lock it again, release,
/// refund or dispute it, or vote on it, at any time.
pub proof fn law_paid_escrow_is_final(
    m: EscrowModel,
    id: Bytes32,
    caller: Address,
    amount: i128,
    now: u64,
)
    requires
        m.contains_key(id),
        !m[id].is_open(),
    ensures
        lock_outcome(m, id, amount) is Err,
        release_outcome(m, id, caller) is Err,
        refund_outcome(m, id, caller, now) is Err,
        dispute_outcome(m, id, caller) is Err,
        vote_outcome(m, id, caller) is Err,
{
}

/// A dispute on which buyer and seller voted differently stays open for good.
pub proof fn law_split_vote_is_a_deadlock(
    m: EscrowModel,
    id: Bytes32,
    caller: Address,
    now: u64,
)
    requires
        m.contains_key(id),
        m[id].state == EscrowState::Disputed,
        m[id].buyer_vote is Some,
        m[id].seller_vote is Some,
        m[id].buyer_vote != m[id].seller_vote,
    ensures
        release_outcome(m, id, caller) is Err,
        refund_outcome(m, id, caller, now) is Err,
        dispute_outcome(m, id, caller) is Err,
        vote_outcome(m, id, caller) is Err,
{
}

/// A vote settles a disputed escrow exactly when it makes both votes agree, and then
/// pays the party that both named. No vote is ever replaced by another.
pub proof fn law_votes_settle_by_agreement(
    m: EscrowModel,
    id: Bytes32,
    caller: Address,
    to_seller: bool,
)
    requires
        vote_outcome(m, id, caller) is Ok,
    ensures
        ({
            let e = m[id];
            let voted = e.after_vote(caller, to_seller);
            &&& voted.state == EscrowState::Released <==> voted.buyer_vote == Some(true)
                && voted.seller_vote == Some(true)
            &&& voted.state == EscrowState::Refunded <==> voted.buyer_vote == Some(false)
                && voted.seller_vote == Some(false)
            &&& e.buyer_vote is Some ==> voted.buyer_vote == e.buyer_vote
            &&& e.seller_vote is Some ==> voted.seller_vote == e.seller_vote
        }),
{
}

/// A locked escrow can be released by its seller and by nobody else, refunded by its
/// buyer at any time, and by others only once it is a week old.
pub proof fn law_who_may_settle(m: EscrowModel, id: Bytes32, caller: Address, now: u64)
    requires
        escrows_inv(m),
        m.contains_key(id),
        m[id].state == EscrowState::Locked,
    ensures
        release_outcome(m, id, caller) is Ok <==> caller == m[id].seller,
        refund_outcome(m, id, m[id].buyer, now) is Ok,
        caller != m[id].buyer ==> (refund_outcome(m, id, caller, now) is Ok <==> now
            >= m[id].created_at + REFUND_TIMEOUT),
{
}

} // verus!
