//! What the proxy does with calls, upgrades and rollbacks.

use crate::contracts::host::{Address, Effect, Env, Symbol};
use crate::contracts::upgradeable_proxy::{
    answers_of, migrated_state, runs_steps, Control, Deployment, Invocation, MigrationCall,
    MigrationScript, MigrationStep, PendingModel, PendingUpgrade, UpgradeError, UpgradeRecord,
    UpgradeableProxy,
};
use crate::laws::ledger::same_call;
use vstd::prelude::*;

verus! {

/// The same upgrade is staged, or none is.
pub open spec fn same_pending(
    before: Option<PendingUpgrade>,
    after: Option<PendingUpgrade>,
) -> bool {
    &&& before is Some <==> after is Some
    &&& before matches Some(b) ==> {
        let a = after->0;
        &&& a.from_version == b.from_version
        &&& a.target_version == b.target_version
        &&& a.old_implementation == b.old_implementation
        &&& a.new_implementation == b.new_implementation
        &&& a.steps@ == b.steps@
    }
}

/// Everything about the proxy is the same.
pub open spec fn unchanged(before: UpgradeableProxy, after: UpgradeableProxy) -> bool {
    &&& after.control == before.control
    &&& after.paused == before.paused
    &&& after.previous == before.previous
    &&& same_pending(before.pending, after.pending)
    &&& after.versions@ == before.versions@
    &&& after.history@ == before.history@
    &&& after.state@ == before.state@
}

/// A call goes to the current implementation, with its method and arguments as they are,
/// unless the proxy is paused, not initialized, or called by its admin. Only the caller's
/// authorization is asked for.
pub proof fn law_forward<A>(
    p: &UpgradeableProxy,
    env: &mut Env,
    caller: Address,
    method: Symbol,
    args: A,
    r: Result<Invocation<A>, UpgradeError>,
)
    requires
        call_ensures(UpgradeableProxy::forward::<A>, (p, env, caller, method, args), r),
    ensures
        same_call(*old(env), *final(env)),
        r == Err::<Invocation<A>, UpgradeError>(UpgradeError::ContractPaused) <==> p.paused,
        r == Err::<Invocation<A>, UpgradeError>(UpgradeError::NotInitialized) <==> !p.paused
            && p.control is None,
        r == Err::<Invocation<A>, UpgradeError>(UpgradeError::AdminCannotFallback) <==> !p.paused
            && p.control is Some && caller == p.control->0.admin,
        r is Ok <==> !p.paused && p.control is Some && caller != p.control->0.admin,
        r matches Ok(call) ==> call.contract == p.control->0.current.implementation && call.method
            == method && call.args == args,
        p.paused || p.control is None ==> final(env).effects@ == old(env).effects@,
        !p.paused && p.control is Some ==> final(env).effects@ == old(env).effects@.push(
            Effect::RequireAuth(caller),
        ),
{
    assert(old(env).effects@ + Seq::<Effect>::empty() =~= old(env).effects@);
}

/// The first initialization, with a version other than 0, names the admin and the first
/// implementation; a second one is refused.
pub proof fn law_initialize(
    p: &mut UpgradeableProxy,
    env: &mut Env,
    admin: Address,
    implementation: Address,
    version: u32,
    r: Result<(), UpgradeError>,
)
    requires
        call_ensures(UpgradeableProxy::initialize, (p, env, admin, implementation, version), r),
    ensures
        same_call(*old(env), *final(env)),
        r == Err::<(), UpgradeError>(UpgradeError::AlreadyInitialized) <==> old(p).control is Some,
        r == Err::<(), UpgradeError>(UpgradeError::InvalidVersion) <==> old(p).control is None
            && version == 0,
        r is Ok <==> old(p).control is None && version != 0,
        r is Err ==> unchanged(*old(p), *final(p)) && final(env).effects@ == old(env).effects@,
        r is Ok ==> {
            &&& final(p).control == Some(
                Control { admin, current: Deployment { implementation, version } },
            )
            &&& !final(p).paused
            &&& final(p).versions@ == old(p).versions@.insert(version, implementation)
            &&& final(p).history@.len() == 0
            &&& final(p).previous == old(p).previous
            &&& same_pending(old(p).pending, final(p).pending)
            &&& final(p).state@ == old(p).state@
            &&& final(env).effects@ == old(env).effects@.push(Effect::RequireAuth(admin))
        },
{
    assert(old(env).effects@ + Seq::<Effect>::empty() =~= old(env).effects@);
}

/// An upgrade is staged, with the admin's authorization, only to a higher version and only
/// while none is staged. It notes where the proxy stands and where it is to go, and changes
/// nothing else.
pub proof fn law_stage(
    p: &mut UpgradeableProxy,
    env: &mut Env,
    new_implementation: Address,
    target_version: u32,
    steps: Vec<MigrationStep>,
    r: Result<(), UpgradeError>,
)
    requires
        call_ensures(
            UpgradeableProxy::stage_upgrade,
            (p, env, new_implementation, target_version, steps),
            r,
        ),
    ensures
        same_call(*old(env), *final(env)),
        r == Err::<(), UpgradeError>(UpgradeError::NotInitialized) <==> old(p).control is None,
        r == Err::<(), UpgradeError>(UpgradeError::PendingUpgradeExists) <==> old(p).control is Some
            && old(p).pending is Some,
        r == Err::<(), UpgradeError>(UpgradeError::InvalidVersion) <==> old(p).control is Some
            && old(p).pending is None && target_version <= old(p).control->0.current.version,
        r is Ok <==> old(p).control is Some && old(p).pending is None
            && target_version > old(p).control->0.current.version,
        old(p).control is None ==> final(env).effects@ == old(env).effects@,
        old(p).control matches Some(c) ==> final(env).effects@ == old(env).effects@.push(
            Effect::RequireAuth(c.admin),
        ),
        r is Err ==> unchanged(*old(p), *final(p)),
        r is Ok ==> {
            let staged = final(p).pending->0;
            &&& final(p).pending is Some
            &&& staged.from_version == old(p).control->0.current.version
            &&& staged.old_implementation == old(p).control->0.current.implementation
            &&& staged.target_version == target_version
            &&& staged.new_implementation == new_implementation
            &&& staged.steps@ == steps@
            &&& final(p).control == old(p).control
            &&& final(p).paused == old(p).paused
            &&& final(p).previous == old(p).previous
            &&& final(p).versions@ == old(p).versions@
            &&& final(p).history@ == old(p).history@
            &&& final(p).state@ == old(p).state@
        },
{
}

/// What a script is handed for step `i`: the step's key and data, both versions, and the
/// value that the last earlier step on that key left; where no earlier step was on that
/// key, the value that was there before the upgrade; and zero where there was none.
pub proof fn law_scripts_see_what_was_left(
    state: Map<Symbol, i128>,
    pending: PendingModel,
    calls: Seq<MigrationCall>,
    i: int,
)
    requires
        runs_steps(state, pending, calls),
        0 <= i < pending.steps.len(),
    ensures
        calls.len() == pending.steps.len(),
        calls[i].script == pending.steps[i].script,
        calls[i].key == pending.steps[i].key,
        calls[i].data == pending.steps[i].data,
        calls[i].from_version == pending.from_version,
        calls[i].to_version == pending.target_version,
        (forall|j: int| 0 <= j < i ==> (#[trigger] pending.steps[j]).key != pending.steps[i].key)
            ==> calls[i].current_value == (if state.contains_key(pending.steps[i].key) {
            state[pending.steps[i].key]
        } else {
            0
        }),
        forall|j: int|
            {
                &&& 0 <= j < i
                &&& (#[trigger] pending.steps[j]).key == pending.steps[i].key
                &&& forall|k: int|
                    j < k < i ==> (#[trigger] pending.steps[k]).key != pending.steps[i].key
            } ==> calls[i].current_value == calls[j].migrated,
{
    let done = pending.steps.take(i);
    let key = pending.steps[i].key;
    let answers = answers_of(calls);
    assert(calls[i].key == key);
    if forall|j: int| 0 <= j < i ==> (#[trigger] pending.steps[j]).key != key {
        assert forall|j: int| 0 <= j < done.len() implies (#[trigger] done[j]).key != key by {
            assert(done[j] == pending.steps[j]);
        }
        law_other_values_stay(state, done, answers, key);
    }
    assert forall|j: int|
        {
            &&& 0 <= j < i
            &&& (#[trigger] pending.steps[j]).key == pending.steps[i].key
            &&& forall|k: int|
                j < k < i ==> (#[trigger] pending.steps[k]).key != pending.steps[i].key
        } implies calls[i].current_value == calls[j].migrated by {
        assert(done[j] == pending.steps[j]);
        assert forall|k: int| j < k < done.len() implies (#[trigger] done[k]).key
            != done[j].key by {
            assert(done[k] == pending.steps[k]);
        }
        law_last_answer_stays(state, done, answers, j);
        assert(answers[j] == calls[j].migrated);
    }
}

/// A migration leaves every value that no step is on as it was, and writes none that was
/// not there.
pub proof fn law_other_values_stay(
    state: Map<Symbol, i128>,
    steps: Seq<MigrationStep>,
    answers: Seq<i128>,
    key: Symbol,
)
    requires
        forall|j: int| 0 <= j < steps.len() ==> (#[trigger] steps[j]).key != key,
    ensures
        migrated_state(state, steps, answers).contains_key(key) == state.contains_key(key),
        state.contains_key(key) ==> migrated_state(state, steps, answers)[key] == state[key],
    decreases steps.len(),
{
    if steps.len() > 0 {
        let init = steps.drop_last();
        assert forall|j: int| 0 <= j < init.len() implies (#[trigger] init[j]).key != key by {
            assert(init[j] == steps[j]);
        }
        law_other_values_stay(state, init, answers, key);
        assert(steps[steps.len() - 1].key != key);
    }
}

/// After a migration the key of a step holds the answer to the last step that is on it.
pub proof fn law_last_answer_stays(
    state: Map<Symbol, i128>,
    steps: Seq<MigrationStep>,
    answers: Seq<i128>,
    j: int,
)
    requires
        0 <= j < steps.len(),
        forall|k: int| j < k < steps.len() ==> (#[trigger] steps[k]).key != steps[j].key,
    ensures
        migrated_state(state, steps, answers).contains_key(steps[j].key),
        migrated_state(state, steps, answers)[steps[j].key] == answers[j],
    decreases steps.len(),
{
    if j < steps.len() - 1 {
        let init = steps.drop_last();
        assert(init[j] == steps[j]);
        assert forall|k: int| j < k
            < init.len() implies (#[trigger] init[k]).key != init[j].key by {
            assert(init[k] == steps[k]);
        }
        law_last_answer_stays(state, init, answers, j);
        assert(steps[steps.len() - 1].key != steps[j].key);
    }
}

/// An upgrade needs the admin's authorization and a staged upgrade. It hands each script,
/// once and in order, what its step says, switches to the staged implementation and
/// version, files it, notes where the proxy stood, and adds one record to the history. A
/// refused one calls no script and changes nothing.
pub proof fn law_upgrade<S: MigrationScript>(
    p: &mut UpgradeableProxy,
    env: &mut Env,
    scripts: S,
    r: (Result<(), UpgradeError>, S),
)
    requires
        call_ensures(UpgradeableProxy::execute_upgrade::<S>, (p, env, scripts), r),
    ensures
        same_call(*old(env), *final(env)),
        r.0 == Err::<(), UpgradeError>(UpgradeError::NotInitialized) <==> old(p).control is None,
        r.0 == Err::<(), UpgradeError>(UpgradeError::NoPendingUpgrade) <==> old(p).control is Some
            && old(p).pending is None,
        r.0 is Ok <==> old(p).control is Some && old(p).pending is Some,
        old(p).control is None ==> final(env).effects@ == old(env).effects@,
        old(p).control matches Some(c) ==> final(env).effects@ == old(env).effects@.push(
            Effect::RequireAuth(c.admin),
        ),
        r.0 is Err ==> unchanged(*old(p), *final(p)) && r.1 == scripts,
        r.0 is Ok ==> {
            let staged = old(p).pending->0;
            let before = old(p).control->0;
            &&& exists|calls: Seq<MigrationCall>, between: Seq<S>|
                {
                    &&& #[trigger] between.len() == #[trigger] calls.len() + 1
                    &&& calls.len() == staged.steps@.len()
                    &&& between[0] == scripts
                    &&& between.last() == r.1
                    &&& runs_steps(old(p).state@, staged@, calls)
                    &&& forall|i: int| #![trigger calls[i]]
                        0 <= i < calls.len() ==> call_ensures(
                            S::migrate,
                            (
                                between[i],
                                staged.steps@[i].script,
                                staged.steps@[i].key,
                                calls[i].current_value,
                                staged.steps@[i].data,
                                staged.from_version,
                                staged.target_version,
                            ),
                            (between[i + 1], calls[i].migrated),
                        )
                    &&& final(p).state@ == migrated_state(
                        old(p).state@,
                        staged.steps@,
                        calls.map_values(|c: MigrationCall| c.migrated),
                    )
                }
            &&& final(p).control == Some(
                Control {
                    admin: before.admin,
                    current: Deployment {
                        implementation: staged.new_implementation,
                        version: staged.target_version,
                    },
                },
            )
            &&& final(p).previous == Some(before.current)
            &&& final(p).pending is None
            &&& final(p).paused == old(p).paused
            &&& final(p).versions@ == old(p).versions@.insert(
                staged.target_version,
                staged.new_implementation,
            )
            &&& final(p).history@ == old(p).history@.push(
                UpgradeRecord {
                    from_version: before.current.version,
                    to_version: staged.target_version,
                    old_implementation: before.current.implementation,
                    new_implementation: staged.new_implementation,
                    rollback: false,
                },
            )
        },
{
    if r.0 is Ok {
        let (calls, between) = choose|calls: Seq<MigrationCall>, between: Seq<S>| #[trigger]
            old(p)@.upgrades_by(scripts, calls, between, r.1, final(p)@);
        let staged = old(p).pending->0;
        assert forall|i: int| #![trigger calls[i]] 0 <= i < calls.len() implies call_ensures(
            S::migrate,
            (
                between[i],
                staged.steps@[i].script,
                staged.steps@[i].key,
                calls[i].current_value,
                staged.steps@[i].data,
                staged.from_version,
                staged.target_version,
            ),
            (between[i + 1], calls[i].migrated),
        ) by {
            law_scripts_see_what_was_left(old(p)@.state, staged@, calls, i);
        }
        assert(answers_of(calls) =~= calls.map_values(|c: MigrationCall| c.migrated));
        assert(between.len() == calls.len() + 1);
    }
}

/// A rollback needs the admin's authorization and something to go back to. It swaps the
/// current deployment and the one before it, drops what is staged, and adds one record to
/// the history. Versions, values, admin and pause stay as they are.
pub proof fn law_rollback(
    p: &mut UpgradeableProxy,
    env: &mut Env,
    r: Result<(), UpgradeError>,
)
    requires
        call_ensures(UpgradeableProxy::rollback, (p, env), r),
    ensures
        same_call(*old(env), *final(env)),
        r == Err::<(), UpgradeError>(UpgradeError::NotInitialized) <==> old(p).control is None,
        r == Err::<(), UpgradeError>(UpgradeError::NoRollbackAvailable) <==> old(p).control is Some
            && old(p).previous is None,
        r is Ok <==> old(p).control is Some && old(p).previous is Some,
        old(p).control is None ==> final(env).effects@ == old(env).effects@,
        old(p).control matches Some(c) ==> final(env).effects@ == old(env).effects@.push(
            Effect::RequireAuth(c.admin),
        ),
        r is Err ==> unchanged(*old(p), *final(p)),
        r is Ok ==> {
            let now = old(p).control->0.current;
            let back = old(p).previous->0;
            &&& final(p).control == Some(Control { admin: old(p).control->0.admin, current: back })
            &&& final(p).previous == Some(now)
            &&& final(p).pending is None
            &&& final(p).paused == old(p).paused
            &&& final(p).versions@ == old(p).versions@
            &&& final(p).state@ == old(p).state@
            &&& final(p).history@ == old(p).history@.push(
                UpgradeRecord {
                    from_version: now.version,
                    to_version: back.version,
                    old_implementation: now.implementation,
                    new_implementation: back.implementation,
                    rollback: true,
                },
            )
        },
{
}

/// A rollback right after an upgrade brings back what ran before it.
pub proof fn law_rollback_after_upgrade<S: MigrationScript>(
    p1: &mut UpgradeableProxy,
    env1: &mut Env,
    scripts: S,
    r1: (Result<(), UpgradeError>, S),
    p2: &mut UpgradeableProxy,
    env2: &mut Env,
    r2: Result<(), UpgradeError>,
)
    requires
        call_ensures(UpgradeableProxy::execute_upgrade::<S>, (p1, env1, scripts), r1),
        r1.0 is Ok,
        *p2 == *final(p1),
        call_ensures(UpgradeableProxy::rollback, (p2, env2), r2),
    ensures
        same_call(*old(env1), *final(env1)),
        same_call(*old(env2), *final(env2)),
        r2 is Ok,
        final(p2).control == old(p1).control,
        final(p2).history@.len() == old(p1).history@.len() + 2,
{
    law_upgrade(p1, env1, scripts, r1);
    law_rollback(p2, env2, r2);
}

/// Pausing, unpausing, a new admin and a new value change just that, with the admin's
/// authorization, and are refused only before initialization.
pub proof fn law_controls(
    p1: &mut UpgradeableProxy,
    env1: &mut Env,
    paused: Result<(), UpgradeError>,
    p2: &mut UpgradeableProxy,
    env2: &mut Env,
    unpaused: Result<(), UpgradeError>,
    p3: &mut UpgradeableProxy,
    env3: &mut Env,
    new_admin: Address,
    transferred: Result<(), UpgradeError>,
    p4: &mut UpgradeableProxy,
    env4: &mut Env,
    key: Symbol,
    value: i128,
    written: Result<(), UpgradeError>,
)
    requires
        call_ensures(UpgradeableProxy::pause, (p1, env1), paused),
        call_ensures(UpgradeableProxy::unpause, (p2, env2), unpaused),
        call_ensures(UpgradeableProxy::transfer_admin, (p3, env3, new_admin), transferred),
        call_ensures(UpgradeableProxy::set_state_value, (p4, env4, key, value), written),
    ensures
        same_call(*old(env1), *final(env1)),
        same_call(*old(env2), *final(env2)),
        same_call(*old(env3), *final(env3)),
        same_call(*old(env4), *final(env4)),
        old(p1).control is None ==> paused == Err::<(), UpgradeError>(UpgradeError::NotInitialized)
            && unchanged(*old(p1), *final(p1)) && final(env1).effects@ == old(env1).effects@,
        old(p1).control matches Some(c) ==> {
            &&& paused is Ok
            &&& final(env1).effects@ == old(env1).effects@.push(Effect::RequireAuth(c.admin))
            &&& final(p1).paused
            &&& final(p1).control == old(p1).control
            &&& final(p1).previous == old(p1).previous
            &&& same_pending(old(p1).pending, final(p1).pending)
            &&& final(p1).versions@ == old(p1).versions@
            &&& final(p1).history@ == old(p1).history@
            &&& final(p1).state@ == old(p1).state@
        },
        old(p2).control is None ==> unpaused == Err::<(), UpgradeError>(
            UpgradeError::NotInitialized,
        ) && unchanged(*old(p2), *final(p2)) && final(env2).effects@ == old(env2).effects@,
        old(p2).control matches Some(c) ==> {
            &&& unpaused is Ok
            &&& final(env2).effects@ == old(env2).effects@.push(Effect::RequireAuth(c.admin))
            &&& !final(p2).paused
            &&& final(p2).control == old(p2).control
            &&& final(p2).previous == old(p2).previous
            &&& same_pending(old(p2).pending, final(p2).pending)
            &&& final(p2).versions@ == old(p2).versions@
            &&& final(p2).history@ == old(p2).history@
            &&& final(p2).state@ == old(p2).state@
        },
        old(p3).control is None ==> transferred == Err::<(), UpgradeError>(
            UpgradeError::NotInitialized,
        ) && unchanged(*old(p3), *final(p3)) && final(env3).effects@ == old(env3).effects@,
        old(p3).control matches Some(c) ==> {
            &&& transferred is Ok
            &&& final(env3).effects@ == old(env3).effects@.push(Effect::RequireAuth(c.admin))
            &&& final(p3).control == Some(Control { admin: new_admin, current: c.current })
            &&& final(p3).paused == old(p3).paused
            &&& final(p3).previous == old(p3).previous
            &&& same_pending(old(p3).pending, final(p3).pending)
            &&& final(p3).versions@ == old(p3).versions@
            &&& final(p3).history@ == old(p3).history@
            &&& final(p3).state@ == old(p3).state@
        },
        old(p4).control is None ==> written == Err::<(), UpgradeError>(UpgradeError::NotInitialized)
            && unchanged(*old(p4), *final(p4)) && final(env4).effects@ == old(env4).effects@,
        old(p4).control matches Some(c) ==> {
            &&& written is Ok
            &&& final(env4).effects@ == old(env4).effects@.push(Effect::RequireAuth(c.admin))
            &&& final(p4).state@ == old(p4).state@.insert(key, value)
            &&& final(p4).control == old(p4).control
            &&& final(p4).paused == old(p4).paused
            &&& final(p4).previous == old(p4).previous
            &&& same_pending(old(p4).pending, final(p4).pending)
            &&& final(p4).versions@ == old(p4).versions@
            &&& final(p4).history@ == old(p4).history@
        },
{
}

/// What is told of the proxy is what is stored; a value that was never written is zero.
pub proof fn law_queries(
    p: &UpgradeableProxy,
    key: Symbol,
    version: u32,
    value: i128,
    admin: Result<Address, UpgradeError>,
    paused: bool,
    implementation: Result<Address, UpgradeError>,
    current: Result<u32, UpgradeError>,
    filed: Option<Address>,
    pending: Option<&PendingUpgrade>,
    history: &Vec<UpgradeRecord>,
)
    requires
        call_ensures(UpgradeableProxy::get_state_value, (p, key), value),
        call_ensures(UpgradeableProxy::get_admin, (p,), admin),
        call_ensures(UpgradeableProxy::is_paused, (p,), paused),
        call_ensures(UpgradeableProxy::current_implementation, (p,), implementation),
        call_ensures(UpgradeableProxy::current_version, (p,), current),
        call_ensures(UpgradeableProxy::implementation_for_version, (p, version), filed),
        call_ensures(UpgradeableProxy::get_pending_upgrade, (p,), pending),
        call_ensures(UpgradeableProxy::get_upgrade_history, (p,), history),
    ensures
        p.state@.contains_key(key) ==> value == p.state@[key],
        !p.state@.contains_key(key) ==> value == 0,
        p.control matches Some(c) ==> {
            &&& admin == Ok::<Address, UpgradeError>(c.admin)
            &&& implementation == Ok::<Address, UpgradeError>(c.current.implementation)
            &&& current == Ok::<u32, UpgradeError>(c.current.version)
        },
        p.control is None ==> {
            &&& admin == Err::<Address, UpgradeError>(UpgradeError::NotInitialized)
            &&& implementation == Err::<Address, UpgradeError>(UpgradeError::NotInitialized)
            &&& current == Err::<u32, UpgradeError>(UpgradeError::NotInitialized)
        },
        paused == p.paused,
        p.versions@.contains_key(version) ==> filed == Some(p.versions@[version]),
        !p.versions@.contains_key(version) ==> filed is None,
        pending is Some <==> p.pending is Some,
        pending matches Some(q) ==> {
            &&& q.from_version == p.pending->0.from_version
            &&& q.target_version == p.pending->0.target_version
            &&& q.old_implementation == p.pending->0.old_implementation
            &&& q.new_implementation == p.pending->0.new_implementation
            &&& q.steps@ == p.pending->0.steps@
        },
        history@ == p.history@,
{
}

} // verus!
