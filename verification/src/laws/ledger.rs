//! The ledger entries that calls read and write, what calls ask of the host, and the numbers
//! under which states and errors are known there.

use crate::contracts::escrow::{Escrow, EscrowContract, EscrowError, EscrowState};
use crate::contracts::host::{Address, Bytes32, Effect, Env, Symbol};
use crate::contracts::reputation_score::{RepError, ReputationScoreContract};
use crate::contracts::storage::{Storage, StorageKey};
use crate::contracts::upgradeable_proxy::{UpgradeError, UpgradeableProxy};
use vstd::prelude::*;

verus! {

/// Two views of one call: it runs at the same contract, time and ledger.
pub open spec fn same_call(before: Env, after: Env) -> bool {
    &&& after.contract == before.contract
    &&& after.timestamp == before.timestamp
    &&& after.sequence == before.sequence
}

/// A call begins at the given place and time with nothing asked for. Asking for something
/// adds that, at the end, and moves nothing else.
pub proof fn law_env(
    contract: Address,
    timestamp: u64,
    sequence: u32,
    new: Env,
    env: &mut Env,
    effect: Effect,
)
    requires
        call_ensures(Env::new, (contract, timestamp, sequence), new),
        call_ensures(Env::ask, (env, effect), ()),
    ensures
        new.contract == contract,
        new.timestamp == timestamp,
        new.sequence == sequence,
        new.effects@.len() == 0,
        same_call(*old(env), *final(env)),
        final(env).effects@ == old(env).effects@.push(effect),
{
}

/// What is read under a key is what was last written there; writing and deleting under one
/// key leaves what is under the others.
pub proof fn law_entries<K: StorageKey, V>(
    written: &mut Storage<K, V>,
    key: K,
    value: V,
    after_write: &Storage<K, V>,
    deleted: &mut Storage<K, V>,
    after_delete: &Storage<K, V>,
    other: K,
    read_key: Option<&V>,
    read_other: Option<&V>,
    before_other: Option<&V>,
    has_deleted: bool,
    read_after_delete: Option<&V>,
    before_delete: Option<&V>,
)
    requires
        call_ensures(Storage::<K, V>::get, (&*written, other), before_other),
        call_ensures(Storage::<K, V>::set, (written, key, value), ()),
        *after_write == *final(written),
        call_ensures(Storage::<K, V>::get, (after_write, key), read_key),
        call_ensures(Storage::<K, V>::get, (after_write, other), read_other),
        call_ensures(Storage::<K, V>::get, (&*deleted, other), before_delete),
        call_ensures(Storage::<K, V>::remove, (deleted, key), ()),
        *after_delete == *final(deleted),
        call_ensures(Storage::<K, V>::has, (after_delete, key), has_deleted),
        call_ensures(Storage::<K, V>::get, (after_delete, other), read_after_delete),
    ensures
        read_key matches Some(v) && *v == value,
        other != key ==> (read_other is Some <==> before_other is Some),
        other != key && before_other is Some ==> *read_other->0 == *before_other->0,
        !has_deleted,
        other == key ==> read_after_delete is None,
        other != key ==> (read_after_delete is Some <==> before_delete is Some),
        other != key && before_delete is Some ==> *read_after_delete->0 == *before_delete->0,
{
}

/// Fresh storage holds nothing.
pub proof fn law_no_entries<K: StorageKey, V>(
    s: Storage<K, V>,
    key: K,
    read: Option<&V>,
    found: bool,
)
    requires
        call_ensures(Storage::<K, V>::new, (), s),
        call_ensures(Storage::<K, V>::get, (&s, key), read),
        call_ensures(Storage::<K, V>::has, (&s, key), found),
    ensures
        read is None,
        !found,
{
}

/// Each contract starts out empty: no escrow; no admin, reporter or record; no admin,
/// implementation, pause, staged upgrade, history or value.
pub proof fn law_contracts_start_empty(
    escrows: EscrowContract,
    reputation: ReputationScoreContract,
    proxy: UpgradeableProxy,
)
    requires
        call_ensures(EscrowContract::new, (), escrows),
        call_ensures(ReputationScoreContract::new, (), reputation),
        call_ensures(UpgradeableProxy::new, (), proxy),
    ensures
        escrows.escrows@ == Map::<Bytes32, Escrow>::empty(),
        reputation.admin is None,
        reputation.reporters@.dom() == Set::<Address>::empty(),
        reputation.records@.dom() == Set::<Address>::empty(),
        proxy.control is None,
        !proxy.paused,
        proxy.previous is None,
        proxy.pending is None,
        proxy.versions@.dom() == Set::<u32>::empty(),
        proxy.history@.len() == 0,
        proxy.state@.dom() == Set::<Symbol>::empty(),
{
}

/// States and errors have the numbers by which the ledger's other contracts know them.
pub proof fn law_codes(
    state: EscrowState,
    state_code: u32,
    escrow_error: EscrowError,
    escrow_code: u32,
    rep_error: RepError,
    rep_code: u32,
    upgrade_error: UpgradeError,
    upgrade_code: u32,
)
    requires
        call_ensures(EscrowState::code, (&state,), state_code),
        call_ensures(EscrowError::code, (&escrow_error,), escrow_code),
        call_ensures(RepError::code, (&rep_error,), rep_code),
        call_ensures(UpgradeError::code, (&upgrade_error,), upgrade_code),
    ensures
        state == (match state_code {
            1 => EscrowState::Locked,
            2 => EscrowState::Released,
            3 => EscrowState::Refunded,
            _ => EscrowState::Disputed,
        }),
        1 <= state_code <= 4,
        escrow_error == (match escrow_code {
            1 => EscrowError::NotAuthorized,
            2 => EscrowError::AlreadyLocked,
            3 => EscrowError::NotLocked,
            4 => EscrowError::AlreadyFinalized,
            5 => EscrowError::InvalidAmount,
            6 => EscrowError::InvalidState,
            7 => EscrowError::InvalidArbitrator,
            8 => EscrowError::TimeoutNotReached,
            9 => EscrowError::NotDisputed,
            _ => EscrowError::VoteAlreadyCast,
        }),
        1 <= escrow_code <= 10,
        rep_error == (match rep_code {
            1 => RepError::AlreadyInitialized,
            2 => RepError::NotInitialized,
            3 => RepError::Unauthorized,
            4 => RepError::ReporterAlreadyAdded,
            _ => RepError::ReporterNotFound,
        }),
        1 <= rep_code <= 5,
        upgrade_error == (match upgrade_code {
            1 => UpgradeError::AlreadyInitialized,
            2 => UpgradeError::NotInitialized,
            3 => UpgradeError::ContractPaused,
            4 => UpgradeError::AdminCannotFallback,
            5 => UpgradeError::InvalidVersion,
            6 => UpgradeError::PendingUpgradeExists,
            7 => UpgradeError::NoPendingUpgrade,
            _ => UpgradeError::NoRollbackAvailable,
        }),
        1 <= upgrade_code <= 8,
{
}

} // verus!
