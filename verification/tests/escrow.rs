//! The escrow contract.

use zaps::contracts::escrow::{EscrowContract, EscrowError, EscrowState, REFUND_TIMEOUT};
use zaps::contracts::host::{Address, Bytes32, Effect, Env, Event};

fn account(n: u128) -> Address {
    Address::Account(Bytes32 { hi: 0, lo: n })
}

fn contract() -> Address {
    Address::Contract(Bytes32 { hi: 0, lo: 1 })
}

fn token() -> Address {
    Address::Contract(Bytes32 { hi: 0, lo: 2 })
}

fn id(n: u128) -> Bytes32 {
    Bytes32 { hi: 9, lo: n }
}

const BUYER: u128 = 1;
const SELLER: u128 = 2;

fn locked() -> (Env, EscrowContract) {
    let mut env = Env::new(contract(), 1_000, 50);
    let mut escrows = EscrowContract::new();
    let r = escrows.lock_funds(
        &mut env,
        id(1),
        account(BUYER),
        account(SELLER),
        token(),
        250,
        99,
        id(77),
    );
    assert_eq!(r, Ok(()));
    (env, escrows)
}

fn disputed() -> (Env, EscrowContract) {
    let (mut env, mut escrows) = locked();
    let r = escrows.initiate_dispute(&mut env, id(1), account(BUYER), account(5));
    assert_eq!(r, Ok(()));
    env.effects.clear();
    (env, escrows)
}

fn paid(to: u128) -> Effect {
    Effect::Transfer {
        token: token(),
        from: contract(),
        to: account(to),
        amount: 250,
    }
}

#[test]
fn locking_takes_the_tokens() {
    let (env, escrows) = locked();
    assert_eq!(
        env.effects,
        vec![
            Effect::RequireAuth(account(BUYER)),
            Effect::Transfer {
                token: token(),
                from: account(BUYER),
                to: contract(),
                amount: 250
            },
            Effect::Publish(Event::EscrowLocked {
                escrow_id: id(1),
                buyer: account(BUYER),
                seller: account(SELLER),
                amount: 250
            }),
        ]
    );
    let e = escrows.get_escrow(id(1)).unwrap();
    assert_eq!(e.buyer, account(BUYER));
    assert_eq!(e.seller, account(SELLER));
    assert_eq!(e.arbitrator, None);
    assert_eq!(e.token, token());
    assert_eq!(e.amount, 250);
    assert_eq!(e.state, EscrowState::Locked);
    assert_eq!(e.memo, id(77));
    assert_eq!(e.created_at, 1_000);
    assert_eq!(e.timeout_ledger, 99);
    assert_eq!(e.dispute_resolver, None);
    assert_eq!(e.buyer_vote, None);
    assert_eq!(e.seller_vote, None);
    assert!(escrows.is_locked(id(1)));
    assert!(!escrows.is_locked(id(2)));
}

#[test]
fn locking_needs_an_amount_and_a_new_number() {
    let (mut env, mut escrows) = locked();
    for amount in [0, -5] {
        let r = escrows.lock_funds(
            &mut env,
            id(2),
            account(BUYER),
            account(SELLER),
            token(),
            amount,
            0,
            id(0),
        );
        assert_eq!(r, Err(EscrowError::InvalidAmount));
    }
    let r = escrows.lock_funds(
        &mut env,
        id(1),
        account(BUYER),
        account(SELLER),
        token(),
        1,
        0,
        id(0),
    );
    assert_eq!(r, Err(EscrowError::AlreadyLocked));
    assert_eq!(escrows.get_escrow(id(1)).unwrap().amount, 250);
}

#[test]
fn unknown_numbers_are_not_locked() {
    let (mut env, mut escrows) = locked();
    let who = account(BUYER);
    assert_eq!(
        escrows.release_funds(&mut env, id(3), who),
        Err(EscrowError::NotLocked)
    );
    assert_eq!(
        escrows.refund_funds(&mut env, id(3), who),
        Err(EscrowError::NotLocked)
    );
    assert_eq!(
        escrows.initiate_dispute(&mut env, id(3), who, who),
        Err(EscrowError::NotLocked)
    );
    assert_eq!(
        escrows.vote_resolution(&mut env, id(3), who, true),
        Err(EscrowError::NotLocked)
    );
    assert!(matches!(escrows.get_escrow(id(3)), Err(EscrowError::NotLocked)));
    assert!(matches!(escrows.get_state(id(3)), Err(EscrowError::NotLocked)));
}

#[test]
fn seller_releases_and_nobody_else() {
    let (mut env, mut escrows) = locked();
    for n in [BUYER, 5] {
        assert_eq!(
            escrows.release_funds(&mut env, id(1), account(n)),
            Err(EscrowError::NotAuthorized)
        );
    }
    env.effects.clear();
    assert_eq!(
        escrows.release_funds(&mut env, id(1), account(SELLER)),
        Ok(())
    );
    assert_eq!(
        env.effects,
        vec![
            Effect::RequireAuth(account(SELLER)),
            paid(SELLER),
            Effect::Publish(Event::EscrowReleased {
                escrow_id: id(1),
                caller: account(SELLER),
                seller: account(SELLER),
                amount: 250
            }),
        ]
    );
    assert_eq!(escrows.get_state(id(1)), Ok(EscrowState::Released));
    // What was paid out stays as it is.
    let s = account(SELLER);
    let b = account(BUYER);
    assert_eq!(escrows.release_funds(&mut env, id(1), s), Err(EscrowError::InvalidState));
    assert_eq!(escrows.refund_funds(&mut env, id(1), b), Err(EscrowError::InvalidState));
    assert_eq!(escrows.initiate_dispute(&mut env, id(1), b, s), Err(EscrowError::InvalidState));
    assert_eq!(escrows.vote_resolution(&mut env, id(1), b, true), Err(EscrowError::NotDisputed));
}

#[test]
fn buyer_refunds_at_any_time_others_after_a_week() {
    let (mut env, mut escrows) = locked();
    env.effects.clear();
    assert_eq!(escrows.refund_funds(&mut env, id(1), account(BUYER)), Ok(()));
    assert_eq!(env.effects[1], paid(BUYER));
    assert_eq!(escrows.get_state(id(1)), Ok(EscrowState::Refunded));

    let (mut env, mut escrows) = locked();
    env.timestamp = 1_000 + 604_800 - 1;
    assert_eq!(
        escrows.refund_funds(&mut env, id(1), account(SELLER)),
        Err(EscrowError::NotAuthorized)
    );
    assert_eq!(REFUND_TIMEOUT, 604_800);
    env.timestamp += 1;
    env.effects.clear();
    assert_eq!(escrows.refund_funds(&mut env, id(1), account(8)), Ok(()));
    assert_eq!(
        env.effects,
        vec![
            Effect::RequireAuth(account(8)),
            paid(BUYER),
            Effect::Publish(Event::EscrowRefunded {
                escrow_id: id(1),
                caller: account(8),
                buyer: account(BUYER),
                amount: 250
            }),
        ]
    );
}

#[test]
fn parties_dispute_and_nobody_else() {
    let (mut env, mut escrows) = locked();
    assert_eq!(
        escrows.initiate_dispute(&mut env, id(1), account(5), account(6)),
        Err(EscrowError::NotAuthorized)
    );
    env.effects.clear();
    assert_eq!(
        escrows.initiate_dispute(&mut env, id(1), account(SELLER), account(6)),
        Ok(())
    );
    assert_eq!(
        env.effects,
        vec![
            Effect::RequireAuth(account(SELLER)),
            Effect::Publish(Event::EscrowDisputed {
                escrow_id: id(1),
                caller: account(SELLER),
                resolver: account(6)
            }),
        ]
    );
    let e = escrows.get_escrow(id(1)).unwrap();
    assert_eq!(e.state, EscrowState::Disputed);
    assert_eq!(e.dispute_resolver, Some(account(6)));
}

#[test]
fn agreement_pays_the_party_that_both_name() {
    for (to_seller, payee, state) in [
        (true, SELLER, EscrowState::Released),
        (false, BUYER, EscrowState::Refunded),
    ] {
        let (mut env, mut escrows) = disputed();
        assert_eq!(
            escrows.vote_resolution(&mut env, id(1), account(SELLER), to_seller),
            Ok(())
        );
        assert_eq!(escrows.get_state(id(1)), Ok(EscrowState::Disputed));
        env.effects.clear();
        assert_eq!(
            escrows.vote_resolution(&mut env, id(1), account(BUYER), to_seller),
            Ok(())
        );
        assert_eq!(
            env.effects,
            vec![
                Effect::RequireAuth(account(BUYER)),
                paid(payee),
                Effect::Publish(Event::EscrowVote {
                    escrow_id: id(1),
                    caller: account(BUYER),
                    resolve_to_seller: to_seller
                }),
            ]
        );
        assert_eq!(escrows.get_state(id(1)), Ok(state));
    }
}

#[test]
fn votes_are_cast_once_and_by_the_parties() {
    let (mut env, mut escrows) = disputed();
    assert_eq!(
        escrows.vote_resolution(&mut env, id(1), account(5), true),
        Err(EscrowError::NotAuthorized)
    );
    assert_eq!(
        escrows.vote_resolution(&mut env, id(1), account(BUYER), false),
        Ok(())
    );
    assert_eq!(
        escrows.vote_resolution(&mut env, id(1), account(BUYER), true),
        Err(EscrowError::VoteAlreadyCast)
    );
    assert_eq!(
        escrows.vote_resolution(&mut env, id(1), account(SELLER), true),
        Ok(())
    );
    // Buyer and seller disagree: nothing is paid, and nothing can be done any more.
    let e = escrows.get_escrow(id(1)).unwrap();
    assert_eq!(e.state, EscrowState::Disputed);
    assert_eq!(e.buyer_vote, Some(false));
    assert_eq!(e.seller_vote, Some(true));
    assert!(!env.effects.iter().any(|e| matches!(e, Effect::Transfer { .. })));
    assert_eq!(
        escrows.vote_resolution(&mut env, id(1), account(SELLER), false),
        Err(EscrowError::VoteAlreadyCast)
    );
}

#[test]
fn escrows_are_kept_apart() {
    let (mut env, mut escrows) = locked();
    let r = escrows.lock_funds(
        &mut env,
        id(2),
        account(3),
        account(4),
        token(),
        10,
        0,
        id(0),
    );
    assert_eq!(r, Ok(()));
    assert_eq!(escrows.release_funds(&mut env, id(2), account(4)), Ok(()));
    assert_eq!(escrows.get_state(id(1)), Ok(EscrowState::Locked));
    assert_eq!(escrows.get_state(id(2)), Ok(EscrowState::Released));
}

#[test]
fn balance_is_what_the_open_escrows_are_owed() {
    let mut env = Env::new(contract(), 0, 0);
    let mut escrows = EscrowContract::new();
    for n in 1..=4u128 {
        let r = escrows.lock_funds(
            &mut env,
            id(n),
            account(BUYER),
            account(SELLER),
            token(),
            100 * n as i128,
            0,
            id(0),
        );
        assert_eq!(r, Ok(()));
    }
    assert_eq!(escrows.release_funds(&mut env, id(1), account(SELLER)), Ok(()));
    assert_eq!(escrows.refund_funds(&mut env, id(2), account(BUYER)), Ok(()));
    let r = escrows.initiate_dispute(&mut env, id(3), account(BUYER), account(5));
    assert_eq!(r, Ok(()));
    let balance: i128 = env
        .effects
        .iter()
        .map(|e| match e {
            Effect::Transfer { to, amount, .. } if *to == contract() => *amount,
            Effect::Transfer { amount, .. } => -*amount,
            _ => 0,
        })
        .sum();
    // The disputed third and the locked fourth.
    assert_eq!(balance, 300 + 400);
}

#[test]
fn codes_of_the_escrow_contract() {
    let codes: Vec<u32> = [
        EscrowError::NotAuthorized,
        EscrowError::AlreadyLocked,
        EscrowError::NotLocked,
        EscrowError::AlreadyFinalized,
        EscrowError::InvalidAmount,
        EscrowError::InvalidState,
        EscrowError::InvalidArbitrator,
        EscrowError::TimeoutNotReached,
        EscrowError::NotDisputed,
        EscrowError::VoteAlreadyCast,
    ]
    .iter()
    .map(|e| e.code())
    .collect();
    assert_eq!(codes, vec![1, 2, 3, 4, 5, 6, 7, 8, 9, 10]);
    let states: Vec<u32> = [
        EscrowState::Locked,
        EscrowState::Released,
        EscrowState::Refunded,
        EscrowState::Disputed,
    ]
    .iter()
    .map(|s| s.code())
    .collect();
    assert_eq!(states, vec![1, 2, 3, 4]);
}
