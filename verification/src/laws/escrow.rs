//! What the escrow contract does with a buyer's tokens.

use crate::contracts::escrow::{Escrow, EscrowContract, EscrowError, EscrowState};
use crate::contracts::host::{Address, Bytes32, Effect, Env, Event};
use crate::laws::ledger::same_call;
use vstd::prelude::*;

verus! {

/// Locking takes exactly the amount, of the named token, from the buyer to the contract,
/// and notes everything as it was asked for, with the time of the call. It is refused only
/// for an amount that is not positive and for a number that is taken, and then nothing is
/// moved or noted.
pub proof fn law_lock(
    c: &mut EscrowContract,
    env: &mut Env,
    id: Bytes32,
    buyer: Address,
    seller: Address,
    token: Address,
    amount: i128,
    timeout_ledger: u32,
    memo: Bytes32,
    r: Result<(), EscrowError>,
)
    requires
        call_ensures(
            EscrowContract::lock_funds,
            (c, env, id, buyer, seller, token, amount, timeout_ledger, memo),
            r,
        ),
    ensures
        same_call(*old(env), *final(env)),
        r == Err::<(), EscrowError>(EscrowError::InvalidAmount) <==> amount <= 0,
        r == Err::<(), EscrowError>(EscrowError::AlreadyLocked) <==> amount > 0
            && old(c).escrows@.contains_key(id),
        r is Ok <==> amount > 0 && !old(c).escrows@.contains_key(id),
        r is Err ==> final(c).escrows@ == old(c).escrows@
            && final(env).effects@ == old(env).effects@.push(
            Effect::RequireAuth(buyer),
        ),
        r is Ok ==> {
            let e = final(c).escrows@[id];
            &&& final(c).escrows@.contains_key(id)
            &&& final(c).escrows@.remove(id) == old(c).escrows@
            &&& e.buyer == buyer
            &&& e.seller == seller
            &&& e.arbitrator is None
            &&& e.token == token
            &&& e.amount == amount
            &&& e.state == EscrowState::Locked
            &&& e.memo == memo
            &&& e.created_at == old(env).timestamp
            &&& e.timeout_ledger == timeout_ledger
            &&& e.dispute_resolver is None
            &&& e.buyer_vote is None
            &&& e.seller_vote is None
            &&& final(env).effects@ == old(env).effects@ + seq![
                Effect::RequireAuth(buyer),
                Effect::Transfer { token, from: buyer, to: old(env).contract, amount },
                Effect::Publish(Event::EscrowLocked { escrow_id: id, buyer, seller, amount }),
            ]
        },
{
    assert(old(c).escrows@.insert(id, final(c).escrows@[id]).remove(id)
        =~= old(c).escrows@.remove(id));
    if !old(c).escrows@.contains_key(id) {
        assert(old(c).escrows@.remove(id) =~= old(c).escrows@);
    }
    assert(old(env).effects@ + seq![Effect::RequireAuth(buyer)] =~= old(env).effects@.push(
        Effect::RequireAuth(buyer),
    ));
}

/// A release pays the whole amount, once, to the seller, and can be had by the seller (or
/// an arbitrator, where there is one) of a locked escrow and by nobody else.
pub proof fn law_release(
    c: &mut EscrowContract,
    env: &mut Env,
    id: Bytes32,
    caller: Address,
    r: Result<(), EscrowError>,
)
    requires
        call_ensures(EscrowContract::release_funds, (c, env, id, caller), r),
    ensures
        same_call(*old(env), *final(env)),
        r == Err::<(), EscrowError>(EscrowError::NotLocked) <==> !old(c).escrows@.contains_key(id),
        r == Err::<(), EscrowError>(EscrowError::InvalidState)
            <==> old(c).escrows@.contains_key(id)
            && old(c).escrows@[id].state != EscrowState::Locked,
        r is Ok <==> {
            let e = old(c).escrows@[id];
            &&& old(c).escrows@.contains_key(id)
            &&& e.state == EscrowState::Locked
            &&& caller == e.seller || e.arbitrator == Some(caller)
        },
        r is Ok || r == Err::<(), EscrowError>(EscrowError::NotLocked) || r == Err::<
            (),
            EscrowError,
        >(EscrowError::InvalidState) || r == Err::<(), EscrowError>(EscrowError::NotAuthorized),
        r is Err ==> final(c).escrows@ == old(c).escrows@
            && final(env).effects@ == old(env).effects@.push(
            Effect::RequireAuth(caller),
        ),
        r is Ok ==> {
            let e = old(c).escrows@[id];
            &&& final(c).escrows@
                == old(c).escrows@.insert(id, (Escrow { state: EscrowState::Released, ..e }))
            &&& final(env).effects@ == old(env).effects@ + seq![
                Effect::RequireAuth(caller),
                Effect::Transfer {
                    token: e.token,
                    from: old(env).contract,
                    to: e.seller,
                    amount: e.amount,
                },
                Effect::Publish(
                    Event::EscrowReleased {
                        escrow_id: id,
                        caller,
                        seller: e.seller,
                        amount: e.amount,
                    },
                ),
            ]
        },
{
    assert(old(env).effects@ + seq![Effect::RequireAuth(caller)] =~= old(env).effects@.push(
        Effect::RequireAuth(caller),
    ));
}

/// A refund pays the whole amount, once, back to the buyer, and can be had of a locked
/// escrow by the buyer (or an arbitrator, where there is one) at any time and by anybody
/// from 604 800 seconds after the escrow was made.
pub proof fn law_refund(
    c: &mut EscrowContract,
    env: &mut Env,
    id: Bytes32,
    caller: Address,
    r: Result<(), EscrowError>,
)
    requires
        call_ensures(EscrowContract::refund_funds, (c, env, id, caller), r),
    ensures
        same_call(*old(env), *final(env)),
        r == Err::<(), EscrowError>(EscrowError::NotLocked) <==> !old(c).escrows@.contains_key(id),
        r == Err::<(), EscrowError>(EscrowError::InvalidState)
            <==> old(c).escrows@.contains_key(id)
            && old(c).escrows@[id].state != EscrowState::Locked,
        r is Ok <==> {
            let e = old(c).escrows@[id];
            &&& old(c).escrows@.contains_key(id)
            &&& e.state == EscrowState::Locked
            &&& caller == e.buyer || e.arbitrator == Some(caller) || old(env).timestamp
                >= e.created_at + 604_800
        },
        r is Ok || r == Err::<(), EscrowError>(EscrowError::NotLocked) || r == Err::<
            (),
            EscrowError,
        >(EscrowError::InvalidState) || r == Err::<(), EscrowError>(EscrowError::NotAuthorized),
        r is Err ==> final(c).escrows@ == old(c).escrows@
            && final(env).effects@ == old(env).effects@.push(
            Effect::RequireAuth(caller),
        ),
        r is Ok ==> {
            let e = old(c).escrows@[id];
            &&& final(c).escrows@
                == old(c).escrows@.insert(id, (Escrow { state: EscrowState::Refunded, ..e }))
            &&& final(env).effects@ == old(env).effects@ + seq![
                Effect::RequireAuth(caller),
                Effect::Transfer {
                    token: e.token,
                    from: old(env).contract,
                    to: e.buyer,
                    amount: e.amount,
                },
                Effect::Publish(
                    Event::EscrowRefunded {
                        escrow_id: id,
                        caller,
                        buyer: e.buyer,
                        amount: e.amount,
                    },
                ),
            ]
        },
{
    assert(old(env).effects@ + seq![Effect::RequireAuth(caller)] =~= old(env).effects@.push(
        Effect::RequireAuth(caller),
    ));
}

/// After a lock at time `t`, whatever else happened to other escrows meanwhile, the buyer
/// can have the tokens back at once, anybody else from `t` + 604 800 on and not before, and
/// the seller alone can have them released.
pub proof fn law_week_after_the_lock(
    c: &mut EscrowContract,
    env: &mut Env,
    id: Bytes32,
    buyer: Address,
    seller: Address,
    token: Address,
    amount: i128,
    timeout_ledger: u32,
    memo: Bytes32,
    locked: Result<(), EscrowError>,
    c2: &mut EscrowContract,
    env2: &mut Env,
    caller: Address,
    refunded: Result<(), EscrowError>,
    c3: &mut EscrowContract,
    env3: &mut Env,
    released: Result<(), EscrowError>,
)
    requires
        call_ensures(
            EscrowContract::lock_funds,
            (c, env, id, buyer, seller, token, amount, timeout_ledger, memo),
            locked,
        ),
        locked is Ok,
        c2.escrows@.contains_key(id) && c2.escrows@[id] == final(c).escrows@[id],
        c3.escrows@.contains_key(id) && c3.escrows@[id] == final(c).escrows@[id],
        call_ensures(EscrowContract::refund_funds, (c2, env2, id, caller), refunded),
        call_ensures(EscrowContract::release_funds, (c3, env3, id, caller), released),
    ensures
        same_call(*old(env), *final(env)),
        same_call(*old(env2), *final(env2)),
        same_call(*old(env3), *final(env3)),
        caller != buyer ==> (refunded is Ok <==> old(env2).timestamp >= old(env).timestamp
            + 604_800),
        caller != buyer && refunded is Err ==> refunded == Err::<(), EscrowError>(
            EscrowError::NotAuthorized,
        ),
        caller == buyer ==> refunded is Ok,
        released is Ok <==> caller == seller,
{
}

/// A dispute moves no tokens. It can be had of a locked escrow by buyer and seller and by
/// nobody else, and notes the named resolver.
pub proof fn law_dispute(
    c: &mut EscrowContract,
    env: &mut Env,
    id: Bytes32,
    caller: Address,
    resolver: Address,
    r: Result<(), EscrowError>,
)
    requires
        call_ensures(EscrowContract::initiate_dispute, (c, env, id, caller, resolver), r),
    ensures
        same_call(*old(env), *final(env)),
        r == Err::<(), EscrowError>(EscrowError::NotLocked) <==> !old(c).escrows@.contains_key(id),
        r == Err::<(), EscrowError>(EscrowError::InvalidState)
            <==> old(c).escrows@.contains_key(id)
            && old(c).escrows@[id].state != EscrowState::Locked,
        r is Ok <==> {
            let e = old(c).escrows@[id];
            &&& old(c).escrows@.contains_key(id)
            &&& e.state == EscrowState::Locked
            &&& caller == e.buyer || caller == e.seller
        },
        r is Ok || r == Err::<(), EscrowError>(EscrowError::NotLocked) || r == Err::<
            (),
            EscrowError,
        >(EscrowError::InvalidState) || r == Err::<(), EscrowError>(EscrowError::NotAuthorized),
        r is Err ==> final(c).escrows@ == old(c).escrows@
            && final(env).effects@ == old(env).effects@.push(
            Effect::RequireAuth(caller),
        ),
        r is Ok ==> {
            &&& final(c).escrows@ == old(c).escrows@.insert(
                id,
                (Escrow {
                    state: EscrowState::Disputed,
                    dispute_resolver: Some(resolver),
                    ..old(c).escrows@[id]
                }),
            )
            &&& final(env).effects@ == old(env).effects@ + seq![
                Effect::RequireAuth(caller),
                Effect::Publish(Event::EscrowDisputed { escrow_id: id, caller, resolver }),
            ]
        },
{
    assert(old(env).effects@ + seq![Effect::RequireAuth(caller)] =~= old(env).effects@.push(
        Effect::RequireAuth(caller),
    ));
}

/// Buyer and seller of a disputed escrow vote once each. A vote that agrees with the vote
/// that the other party already cast pays the whole amount, once: to the seller if both
/// votes are for the seller, to the buyer if both are against, whoever voted last. Any
/// other vote is only noted, and moves nothing.
pub proof fn law_vote(
    c: &mut EscrowContract,
    env: &mut Env,
    id: Bytes32,
    caller: Address,
    to_seller: bool,
    r: Result<(), EscrowError>,
)
    requires
        call_ensures(EscrowContract::vote_resolution, (c, env, id, caller, to_seller), r),
    ensures
        same_call(*old(env), *final(env)),
        r == Err::<(), EscrowError>(EscrowError::NotLocked) <==> !old(c).escrows@.contains_key(id),
        r == Err::<(), EscrowError>(EscrowError::NotDisputed)
            <==> old(c).escrows@.contains_key(id)
            && old(c).escrows@[id].state != EscrowState::Disputed,
        r == Err::<(), EscrowError>(EscrowError::NotAuthorized) <==> {
            let e = old(c).escrows@[id];
            &&& old(c).escrows@.contains_key(id)
            &&& e.state == EscrowState::Disputed
            &&& caller != e.buyer
            &&& caller != e.seller
        },
        r == Err::<(), EscrowError>(EscrowError::VoteAlreadyCast) <==> {
            let e = old(c).escrows@[id];
            &&& old(c).escrows@.contains_key(id)
            &&& e.state == EscrowState::Disputed
            &&& caller == e.buyer && e.buyer_vote is Some || caller != e.buyer && caller == e.seller
                && e.seller_vote is Some
        },
        r is Ok <==> {
            let e = old(c).escrows@[id];
            &&& old(c).escrows@.contains_key(id)
            &&& e.state == EscrowState::Disputed
            &&& caller == e.buyer && e.buyer_vote is None || caller != e.buyer && caller == e.seller
                && e.seller_vote is None
        },
        r is Err ==> final(c).escrows@ == old(c).escrows@
            && final(env).effects@ == old(env).effects@.push(
            Effect::RequireAuth(caller),
        ),
        r is Ok ==> {
            let e = old(c).escrows@[id];
            let after = final(c).escrows@[id];
            let others = if caller == e.buyer {
                e.seller_vote
            } else {
                e.buyer_vote
            };
            let notice = Effect::Publish(
                Event::EscrowVote { escrow_id: id, caller, resolve_to_seller: to_seller },
            );
            &&& final(c).escrows@ == old(c).escrows@.insert(id, after)
            &&& after.buyer_vote == (if caller == e.buyer {
                Some(to_seller)
            } else {
                e.buyer_vote
            })
            &&& after.seller_vote == (if caller == e.buyer {
                e.seller_vote
            } else {
                Some(to_seller)
            })
            &&& after == (Escrow {
                buyer_vote: after.buyer_vote,
                seller_vote: after.seller_vote,
                state: after.state,
                ..e
            })
            &&& others != Some(to_seller) ==> after.state == EscrowState::Disputed
                && final(env).effects@
                == old(env).effects@ + seq![Effect::RequireAuth(caller), notice]
            &&& others == Some(to_seller) && to_seller ==> after.state == EscrowState::Released
                && final(env).effects@ == old(env).effects@ + seq![
                Effect::RequireAuth(caller),
                Effect::Transfer {
                    token: e.token,
                    from: old(env).contract,
                    to: e.seller,
                    amount: e.amount,
                },
                notice,
            ]
            &&& others == Some(to_seller) && !to_seller ==> after.state == EscrowState::Refunded
                && final(env).effects@ == old(env).effects@ + seq![
                Effect::RequireAuth(caller),
                Effect::Transfer {
                    token: e.token,
                    from: old(env).contract,
                    to: e.buyer,
                    amount: e.amount,
                },
                notice,
            ]
        },
{
    assert(old(env).effects@ + seq![Effect::RequireAuth(caller)] =~= old(env).effects@.push(
        Effect::RequireAuth(caller),
    ));
}

/// What becomes of a dispute does not depend on who votes first: two votes lead to the same
/// escrow in either order, and where they agree, to the same payment with the second vote: of
/// the whole amount, to the party that both voted for.
pub proof fn law_votes_commute(
    a1: &mut EscrowContract,
    a2: &mut EscrowContract,
    b1: &mut EscrowContract,
    b2: &mut EscrowContract,
    env_a1: &mut Env,
    env_a2: &mut Env,
    env_b1: &mut Env,
    env_b2: &mut Env,
    id: Bytes32,
    buyers: bool,
    sellers: bool,
    ra1: Result<(), EscrowError>,
    ra2: Result<(), EscrowError>,
    rb1: Result<(), EscrowError>,
    rb2: Result<(), EscrowError>,
)
    requires
        a1.escrows@ == b1.escrows@,
        a1.escrows@.contains_key(id),
        a1.escrows@[id].buyer != a1.escrows@[id].seller,
        a1.escrows@[id].buyer_vote is None,
        a1.escrows@[id].seller_vote is None,
        env_a2.contract == env_b2.contract,
        a2.escrows@ == final(a1).escrows@,
        b2.escrows@ == final(b1).escrows@,
        call_ensures(
            EscrowContract::vote_resolution,
            (a1, env_a1, id, a1.escrows@[id].buyer, buyers),
            ra1,
        ),
        call_ensures(
            EscrowContract::vote_resolution,
            (a2, env_a2, id, a1.escrows@[id].seller, sellers),
            ra2,
        ),
        call_ensures(
            EscrowContract::vote_resolution,
            (b1, env_b1, id, a1.escrows@[id].seller, sellers),
            rb1,
        ),
        call_ensures(
            EscrowContract::vote_resolution,
            (b2, env_b2, id, a1.escrows@[id].buyer, buyers),
            rb2,
        ),
    ensures
        same_call(*old(env_a1), *final(env_a1)),
        same_call(*old(env_a2), *final(env_a2)),
        same_call(*old(env_b1), *final(env_b1)),
        same_call(*old(env_b2), *final(env_b2)),
        final(a2).escrows@[id] == final(b2).escrows@[id],
        ra2 is Ok <==> rb2 is Ok,
        old(a1).escrows@[id].state == EscrowState::Disputed && buyers == sellers ==> {
            let e = old(a1).escrows@[id];
            let paid = Effect::Transfer {
                token: e.token,
                from: old(env_a2).contract,
                to: if buyers {
                    e.seller
                } else {
                    e.buyer
                },
                amount: e.amount,
            };
            &&& final(env_a2).effects@.len() == old(env_a2).effects@.len() + 3
            &&& final(env_b2).effects@.len() == old(env_b2).effects@.len() + 3
            &&& final(env_a2).effects@[old(env_a2).effects@.len() + 1int] == paid
            &&& final(env_b2).effects@[old(env_b2).effects@.len() + 1int] == paid
        },
{
}

/// What is told of an escrow is what is stored.
pub proof fn law_queries(
    c: &EscrowContract,
    id: Bytes32,
    e: Result<Escrow, EscrowError>,
    locked: bool,
    state: Result<EscrowState, EscrowError>,
)
    requires
        call_ensures(EscrowContract::get_escrow, (c, id), e),
        call_ensures(EscrowContract::is_locked, (c, id), locked),
        call_ensures(EscrowContract::get_state, (c, id), state),
    ensures
        c.escrows@.contains_key(id) ==> e == Ok::<Escrow, EscrowError>(c.escrows@[id]),
        c.escrows@.contains_key(id)
            ==> state == Ok::<EscrowState, EscrowError>(c.escrows@[id].state),
        c.escrows@.contains_key(id) ==> (locked <==> c.escrows@[id].state == EscrowState::Locked),
        !c.escrows@.contains_key(id) ==> {
            &&& e == Err::<Escrow, EscrowError>(EscrowError::NotLocked)
            &&& state == Err::<EscrowState, EscrowError>(EscrowError::NotLocked)
            &&& !locked
        },
{
}

/// Events are published under the topics by which they are looked for.
pub proof fn law_topics(event: Event, topics: (&'static str, &'static str))
    requires
        call_ensures(Event::topics, (&event,), topics),
    ensures
        (topics.0)@ == (match event {
            Event::EscrowLocked { .. }
            | Event::EscrowReleased { .. }
            | Event::EscrowRefunded { .. }
            | Event::EscrowDisputed { .. }
            | Event::EscrowVote { .. } => "escrow"@,
            _ => "rep"@,
        }),
        (topics.1)@ == (match event {
            Event::EscrowLocked { .. } => "locked"@,
            Event::EscrowReleased { .. } => "released"@,
            Event::EscrowRefunded { .. } => "refunded"@,
            Event::EscrowDisputed { .. } => "disputed"@,
            Event::EscrowVote { .. } => "vote"@,
            Event::ReporterAdded { .. } => "rptr_add"@,
            Event::ReporterRemoved { .. } => "rptr_rm"@,
            Event::SuccessRecorded { .. } => "success"@,
            Event::DisputeRecorded { .. } => "dispute"@,
            Event::AdminTransferred { .. } => "adm_xfer"@,
        }),
{
}

} // verus!
