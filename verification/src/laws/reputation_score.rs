//! What the reputation contract does with reports and with time.

use crate::contracts::host::{Address, Bytes32, Effect, Env, Event};
use crate::contracts::reputation_score::{
    apply_decay, decay, RepError, ReputationRecord, ReputationScoreContract,
};
use vstd::arithmetic::div_mod::lemma_fundamental_div_mod;
use crate::laws::ledger::same_call;
use vstd::prelude::*;

verus! {

/// Admin, whitelist and records are the same.
pub open spec fn unchanged(
    before: ReputationScoreContract,
    after: ReputationScoreContract,
) -> bool {
    &&& after.admin == before.admin
    &&& after.reporters@ == before.reporters@
    &&& after.records@ == before.records@
}

/// The score is the same for as long as no whole period of 17 280 ledgers has passed since
/// the last update, whenever that was.
pub proof fn law_no_period_no_decay(score: u32, last_updated: u32, now: u32, r: u32)
    requires
        call_ensures(apply_decay, (score, last_updated, now), r),
        now < last_updated + 17_280,
    ensures
        r == score,
{
    if now > last_updated {
        lemma_periods(last_updated, now, 0);
    }
}

/// With every further period a score comes one percent, rounded down and one point at
/// least, closer to 500, and never passes it.
pub proof fn law_one_more_period(
    score: u32,
    last_updated: u32,
    now: u32,
    later: u32,
    r: u32,
    r_later: u32,
)
    requires
        score <= 1000,
        last_updated <= now,
        later == now + 17_280,
        call_ensures(apply_decay, (score, last_updated, now), r),
        call_ensures(apply_decay, (score, last_updated, later), r_later),
    ensures
        r == 500 ==> r_later == 500,
        r >= 600 ==> r_later == r - (r - 500) / 100,
        500 < r < 600 ==> r_later == r - 1,
        400 < r < 500 ==> r_later == r + 1,
        r <= 400 ==> r_later == r + (500 - r) / 100,
        r_later <= 1000,
{
    let k = (now - last_updated) / 17_280;
    lemma_fundamental_div_mod(now - last_updated, 17_280);
    lemma_periods(last_updated, now, k as nat);
    lemma_periods(last_updated, later, (k + 1) as nat);
    lemma_stays_in_bounds(score as int, k as nat);
    lemma_stays_in_bounds(score as int, (k + 1) as nat);
    law_decay_by_periods(score as int, k as nat);
}

/// Only the time between the two ledgers counts: shifting both changes nothing.
pub proof fn law_only_elapsed_time_counts(
    score: u32,
    last_updated: u32,
    now: u32,
    shift: u32,
    last_shifted: u32,
    now_shifted: u32,
    r: u32,
    r_shifted: u32,
)
    requires
        last_shifted == last_updated + shift,
        now_shifted == now + shift,
        call_ensures(apply_decay, (score, last_updated, now), r),
        call_ensures(apply_decay, (score, last_shifted, now_shifted), r_shifted),
    ensures
        r == r_shifted,
{
}

/// Between `k` and `k + 1` whole periods after the last update the score is the one that
/// decayed `k` times; a score that decayed is 1000 at most.
pub proof fn law_decay_goes_by_whole_periods(
    score: u32,
    last_updated: u32,
    now: u32,
    k: nat,
    r: u32,
)
    requires
        last_updated + k * 17_280 <= now < last_updated + (k + 1) * 17_280,
        call_ensures(apply_decay, (score, last_updated, now), r),
    ensures
        k == 0 ==> r == score,
        k > 0 && decay(score as int, k) <= 1000 ==> r == decay(score as int, k),
        k > 0 && decay(score as int, k) > 1000 ==> r == 1000,
{
    lemma_periods(last_updated, now, k);
    law_decay_by_periods(score as int, 0);
    lemma_not_negative(score as int, k);
    lemma_not_above(score as int, k);
}

/// No period leaves a score as it is, and each further one moves it by one percent of its
/// distance to 500, rounded down and one point at least, towards 500.
pub proof fn law_decay_by_periods(score: int, k: nat)
    ensures
        decay(score, 0) == score,
        ({
            let s = decay(score, k);
            let next = decay(score, k + 1);
            &&& s == 500 ==> next == 500
            &&& s >= 600 ==> next == s - (s - 500) / 100
            &&& 500 < s < 600 ==> next == s - 1
            &&& 400 < s < 500 ==> next == s + 1
            &&& s <= 400 ==> next == s + (500 - s) / 100
        }),
{
}

proof fn lemma_stays_in_bounds(score: int, k: nat)
    requires
        0 <= score <= 1000,
    ensures
        0 <= decay(score, k) <= 1000,
    decreases k,
{
    if k > 0 {
        lemma_stays_in_bounds(score, (k - 1) as nat);
    }
}

proof fn lemma_not_negative(score: int, k: nat)
    requires
        0 <= score,
    ensures
        0 <= decay(score, k),
    decreases k,
{
    if k > 0 {
        lemma_not_negative(score, (k - 1) as nat);
    }
}

proof fn lemma_not_above(score: int, k: nat)
    ensures
        decay(score, k) <= score || decay(score, k) <= 500,
    decreases k,
{
    if k > 0 {
        lemma_not_above(score, (k - 1) as nat);
    }
}

proof fn lemma_periods(last_updated: u32, now: u32, k: nat)
    requires
        last_updated + k * 17_280 <= now < last_updated + (k + 1) * 17_280,
    ensures
        (now - last_updated) / 17_280 == k,
{
    assert((now - last_updated) / 17_280 == k) by (nonlinear_arith)
        requires
            k * 17_280 <= now - last_updated < (k + 1) * 17_280,
    ;
}

/// The record of an address that nothing was reported of is neutral: 500 points as of now,
/// and no transactions. Any other record is told with its score as it stands now, and all
/// else as it was noted at the last report.
pub proof fn law_queries(
    c: &ReputationScoreContract,
    env: &Env,
    user: Address,
    reporter: Address,
    score: u32,
    record: ReputationRecord,
    reports: bool,
    decayed: u32,
)
    requires
        call_ensures(ReputationScoreContract::get_score, (c, env, user), score),
        call_ensures(ReputationScoreContract::get_record, (c, env, user), record),
        call_ensures(ReputationScoreContract::is_reporter, (c, reporter), reports),
        c.records@.contains_key(user) ==> call_ensures(
            apply_decay,
            (c.records@[user].score, c.records@[user].last_updated, env.sequence),
            decayed,
        ),
    ensures
        record.score == score,
        !c.records@.contains_key(user) ==> {
            &&& score == 500
            &&& record.last_updated == env.sequence
            &&& record.tx_success == 0
            &&& record.tx_disputed == 0
        },
        c.records@.contains_key(user) ==> {
            &&& score == decayed
            &&& record.last_updated == c.records@[user].last_updated
            &&& record.tx_success == c.records@[user].tx_success
            &&& record.tx_disputed == c.records@[user].tx_disputed
        },
        reports <==> c.reporters@.contains_key(reporter) && c.reporters@[reporter],
{
    law_decay_by_periods(500, 0);
}

/// A successful transaction adds 10 points to the score as it stands now, up to 1000, and
/// counts once. Only a whitelisted reporter, whose authorization is asked for, can report
/// it; nobody else's record changes.
pub proof fn law_success(
    c: &mut ReputationScoreContract,
    env: &mut Env,
    reporter: Address,
    user: Address,
    r: Result<(), RepError>,
    before: ReputationRecord,
)
    requires
        call_ensures(ReputationScoreContract::record_success, (c, env, reporter, user), r),
        call_ensures(ReputationScoreContract::get_record, (&*c, &*env, user), before),
        c.reporters@.contains_key(reporter) && c.reporters@[reporter] ==> before.score
            <= u32::MAX - 10 && before.tx_success < u32::MAX,
    ensures
        same_call(*old(env), *final(env)),
        r is Ok <==> old(c).reporters@.contains_key(reporter) && old(c).reporters@[reporter],
        r is Err ==> {
            &&& r == Err::<(), RepError>(RepError::Unauthorized)
            &&& unchanged(*old(c), *final(c))
            &&& final(env).effects@ == old(env).effects@.push(Effect::RequireAuth(reporter))
        },
        r is Ok ==> {
            let after = final(c).records@[user];
            &&& final(c).admin == old(c).admin
            &&& final(c).reporters@ == old(c).reporters@
            &&& final(c).records@ == old(c).records@.insert(user, after)
            &&& before.score <= 990 ==> after.score == before.score + 10
            &&& before.score > 990 ==> after.score == 1000
            &&& after.last_updated == old(env).sequence
            &&& after.tx_success == before.tx_success + 1
            &&& after.tx_disputed == before.tx_disputed
            &&& final(env).effects@ == old(env).effects@ + seq![
                Effect::RequireAuth(reporter),
                Effect::ExtendInstanceTtl { threshold: 100_000, extend_to: 6_307_200 },
                Effect::ExtendRecordTtl { user, threshold: 50_000, extend_to: 3_153_600 },
                Effect::Publish(Event::SuccessRecorded { user, score: after.score }),
            ]
        },
{
    assert(old(env).effects@ + seq![Effect::RequireAuth(reporter)] =~= old(env).effects@.push(
        Effect::RequireAuth(reporter),
    ));
}

/// A disputed transaction takes 50 points off the score as it stands now, down to 0, and
/// counts once. Only a whitelisted reporter, whose authorization is asked for, can report
/// it; nobody else's record changes.
pub proof fn law_dispute(
    c: &mut ReputationScoreContract,
    env: &mut Env,
    reporter: Address,
    user: Address,
    r: Result<(), RepError>,
    before: ReputationRecord,
)
    requires
        call_ensures(ReputationScoreContract::record_dispute, (c, env, reporter, user), r),
        call_ensures(ReputationScoreContract::get_record, (&*c, &*env, user), before),
        c.reporters@.contains_key(reporter) && c.reporters@[reporter] ==> before.tx_disputed
            < u32::MAX,
    ensures
        same_call(*old(env), *final(env)),
        r is Ok <==> old(c).reporters@.contains_key(reporter) && old(c).reporters@[reporter],
        r is Err ==> {
            &&& r == Err::<(), RepError>(RepError::Unauthorized)
            &&& unchanged(*old(c), *final(c))
            &&& final(env).effects@ == old(env).effects@.push(Effect::RequireAuth(reporter))
        },
        r is Ok ==> {
            let after = final(c).records@[user];
            &&& final(c).admin == old(c).admin
            &&& final(c).reporters@ == old(c).reporters@
            &&& final(c).records@ == old(c).records@.insert(user, after)
            &&& before.score >= 50 ==> after.score == before.score - 50
            &&& before.score < 50 ==> after.score == 0
            &&& after.last_updated == old(env).sequence
            &&& after.tx_success == before.tx_success
            &&& after.tx_disputed == before.tx_disputed + 1
            &&& final(env).effects@ == old(env).effects@ + seq![
                Effect::RequireAuth(reporter),
                Effect::ExtendInstanceTtl { threshold: 100_000, extend_to: 6_307_200 },
                Effect::ExtendRecordTtl { user, threshold: 50_000, extend_to: 3_153_600 },
                Effect::Publish(Event::DisputeRecorded { user, score: after.score }),
            ]
        },
{
    assert(old(env).effects@ + seq![Effect::RequireAuth(reporter)] =~= old(env).effects@.push(
        Effect::RequireAuth(reporter),
    ));
}

/// The admin is set once, with the admin's own authorization.
pub proof fn law_initialize(
    c: &mut ReputationScoreContract,
    env: &mut Env,
    admin: Address,
    r: Result<(), RepError>,
)
    requires
        call_ensures(ReputationScoreContract::initialize, (c, env, admin), r),
    ensures
        same_call(*old(env), *final(env)),
        r is Ok <==> old(c).admin is None,
        r is Err ==> {
            &&& r == Err::<(), RepError>(RepError::AlreadyInitialized)
            &&& unchanged(*old(c), *final(c))
            &&& final(env).effects@ == old(env).effects@
        },
        r is Ok ==> {
            &&& final(c).admin == Some(admin)
            &&& final(c).reporters@ == old(c).reporters@
            &&& final(c).records@ == old(c).records@
            &&& final(env).effects@ == old(env).effects@ + seq![
                Effect::RequireAuth(admin),
                Effect::ExtendInstanceTtl { threshold: 100_000, extend_to: 6_307_200 },
            ]
        },
{
    assert(old(env).effects@ + Seq::<Effect>::empty() =~= old(env).effects@);
}

/// The admin puts a reporter on the whitelist who is not on it. Nobody else's place on it
/// changes.
pub proof fn law_add_reporter(
    c: &mut ReputationScoreContract,
    env: &mut Env,
    reporter: Address,
    r: Result<(), RepError>,
)
    requires
        call_ensures(ReputationScoreContract::add_reporter, (c, env, reporter), r),
    ensures
        same_call(*old(env), *final(env)),
        r == Err::<(), RepError>(RepError::NotInitialized) <==> old(c).admin is None,
        r == Err::<(), RepError>(RepError::ReporterAlreadyAdded) <==> old(c).admin is Some
            && old(c).reporters@.contains_key(reporter),
        r is Ok <==> old(c).admin is Some && !old(c).reporters@.contains_key(reporter),
        r is Err ==> unchanged(*old(c), *final(c)),
        old(c).admin is None ==> final(env).effects@ == old(env).effects@,
        r is Err && old(c).admin is Some ==> final(env).effects@ == old(env).effects@.push(
            Effect::RequireAuth(old(c).admin->0),
        ),
        r is Ok ==> {
            &&& final(c).admin == old(c).admin
            &&& final(c).reporters@ == old(c).reporters@.insert(reporter, true)
            &&& final(c).records@ == old(c).records@
            &&& final(env).effects@ == old(env).effects@ + seq![
                Effect::RequireAuth(old(c).admin->0),
                Effect::ExtendInstanceTtl { threshold: 100_000, extend_to: 6_307_200 },
                Effect::Publish(Event::ReporterAdded { reporter }),
            ]
        },
{
}

/// The admin takes a reporter off the whitelist who is on it. Nobody else's place on it
/// changes.
pub proof fn law_remove_reporter(
    c: &mut ReputationScoreContract,
    env: &mut Env,
    reporter: Address,
    r: Result<(), RepError>,
)
    requires
        call_ensures(ReputationScoreContract::remove_reporter, (c, env, reporter), r),
    ensures
        same_call(*old(env), *final(env)),
        r == Err::<(), RepError>(RepError::NotInitialized) <==> old(c).admin is None,
        r == Err::<(), RepError>(RepError::ReporterNotFound) <==> old(c).admin is Some
            && !old(c).reporters@.contains_key(reporter),
        r is Ok <==> old(c).admin is Some && old(c).reporters@.contains_key(reporter),
        r is Err ==> unchanged(*old(c), *final(c)),
        old(c).admin is None ==> final(env).effects@ == old(env).effects@,
        r is Err && old(c).admin is Some ==> final(env).effects@ == old(env).effects@.push(
            Effect::RequireAuth(old(c).admin->0),
        ),
        r is Ok ==> {
            &&& final(c).admin == old(c).admin
            &&& final(c).reporters@ == old(c).reporters@.remove(reporter)
            &&& final(c).records@ == old(c).records@
            &&& final(env).effects@ == old(env).effects@ + seq![
                Effect::RequireAuth(old(c).admin->0),
                Effect::Publish(Event::ReporterRemoved { reporter }),
            ]
        },
{
}

/// The admin hands control to another, and has the code replaced; both with the admin's
/// authorization, and neither touches the whitelist or a record.
pub proof fn law_admin_operations(
    c: &mut ReputationScoreContract,
    env: &mut Env,
    new_admin: Address,
    transferred: Result<(), RepError>,
    before: &ReputationScoreContract,
    env2: &mut Env,
    new_wasm_hash: Bytes32,
    upgraded: Result<(), RepError>,
)
    requires
        call_ensures(ReputationScoreContract::transfer_admin, (c, env, new_admin), transferred),
        call_ensures(ReputationScoreContract::upgrade, (before, env2, new_wasm_hash), upgraded),
    ensures
        same_call(*old(env), *final(env)),
        same_call(*old(env2), *final(env2)),
        old(c).admin is None ==> {
            &&& transferred == Err::<(), RepError>(RepError::NotInitialized)
            &&& unchanged(*old(c), *final(c))
            &&& final(env).effects@ == old(env).effects@
        },
        old(c).admin matches Some(admin) ==> {
            &&& transferred is Ok
            &&& final(c).admin == Some(new_admin)
            &&& final(c).reporters@ == old(c).reporters@
            &&& final(c).records@ == old(c).records@
            &&& final(env).effects@ == old(env).effects@ + seq![
                Effect::RequireAuth(admin),
                Effect::Publish(Event::AdminTransferred { new_admin }),
            ]
        },
        before.admin is None ==> upgraded == Err::<(), RepError>(RepError::NotInitialized)
            && final(env2).effects@ == old(env2).effects@,
        before.admin matches Some(admin) ==> upgraded is Ok
            && final(env2).effects@
            == old(env2).effects@ + seq![
            Effect::RequireAuth(admin),
            Effect::UpdateWasm(new_wasm_hash),
        ],
{
    assert(old(env).effects@ + Seq::<Effect>::empty() =~= old(env).effects@);
    assert(old(env2).effects@ + Seq::<Effect>::empty() =~= old(env2).effects@);
}

} // verus!
