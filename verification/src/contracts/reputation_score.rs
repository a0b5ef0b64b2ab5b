//! Reputation scores from reported transactions.
//!
//! Every address starts at a neutral score of 500 out of 1000. A successful
//! transaction adds 10 points, a disputed one takes 50. For every decay period
//! that passes without a report the score moves one percent, and at least one
//! point, back towards neutral. The decay is worked out whenever a record is read
//! or written.

use super::host::{Address, Bytes32, Effect, Env, Event};
use super::storage::Storage;
use vstd::prelude::*;

verus! {

/// Neutral and starting score.
pub const NEUTRAL: u32 = 500;

/// Maximum score.
pub const MAX_SCORE: u32 = 1_000;

/// Points added per successful transaction.
pub const SUCCESS_DELTA: u32 = 10;

/// Points taken per disputed transaction.
pub const DISPUTE_DELTA: u32 = 50;

/// Ledgers per decay period, about a day.
pub const DECAY_PERIOD: u32 = 17_280;

/// Below this many ledgers of remaining life the contract's entry is prolonged.
pub const TTL_THRESHOLD: u32 = 100_000;

/// The life that the contract's entry is prolonged to, about a year.
pub const TTL_EXTEND: u32 = 6_307_200;

/// Below this many ledgers of remaining life a record is prolonged.
pub const PERSISTENT_TTL_THRESHOLD: u32 = 50_000;

/// The life that a record is prolonged to, about half a year.
pub const PERSISTENT_TTL_EXTEND: u32 = 3_153_600;

/// Why a call is refused.
#[derive(Clone, Copy, PartialEq, Eq, Structural, Debug)]
pub enum RepError {
    AlreadyInitialized,
    NotInitialized,
    Unauthorized,
    ReporterAlreadyAdded,
    ReporterNotFound,
}

impl RepError {
    /// The number under which the error is reported on the ledger.
    pub open spec fn spec_code(self) -> u32 {
        match self {
            RepError::AlreadyInitialized => 1,
            RepError::NotInitialized => 2,
            RepError::Unauthorized => 3,
            RepError::ReporterAlreadyAdded => 4,
            RepError::ReporterNotFound => 5,
        }
    }

    /// The number under which the error is reported on the ledger.
    pub fn code(&self) -> (c: u32)
        ensures
            c == self.spec_code(),
    {
        match self {
            RepError::AlreadyInitialized => 1,
            RepError::NotInitialized => 2,
            RepError::Unauthorized => 3,
            RepError::ReporterAlreadyAdded => 4,
            RepError::ReporterNotFound => 5,
        }
    }
}

/// What is known of one address.
#[derive(Clone, Copy, PartialEq, Eq, Structural, Debug)]
pub struct ReputationRecord {
    /// The score as of `last_updated`, 0 to 1000.
    pub score: u32,
    /// The ledger of the last report.
    pub last_updated: u32,
    /// Successful transactions reported so far.
    pub tx_success: u32,
    /// Disputed transactions reported so far.
    pub tx_disputed: u32,
}

/// The contract's ledger entries.
pub struct ReputationScoreContract {
    pub admin: Option<Address>,
    pub reporters: Storage<Address, bool>,
    pub records: Storage<Address, ReputationRecord>,
}

/// The contract, seen mathematically.
#[verifier::ext_equal]
pub struct ReputationModel {
    pub admin: Option<Address>,
    pub reporters: Map<Address, bool>,
    pub records: Map<Address, ReputationRecord>,
}

impl View for ReputationScoreContract {
    type V = ReputationModel;

    open spec fn view(&self) -> ReputationModel {
        ReputationModel { admin: self.admin, reporters: self.reporters@, records: self.records@ }
    }
}

/// How far one period moves a score that is `distance` points off neutral:
/// one percent, rounded down, and at least one point.
pub open spec fn decay_step(distance: int) -> int {
    if distance <= 0 {
        0
    } else if distance < 100 {
        1
    } else {
        distance / 100
    }
}

/// The score after one period without a report.
pub open spec fn decay_once(score: int) -> int {
    if score < NEUTRAL {
        score + decay_step(NEUTRAL - score)
    } else {
        score - decay_step(score - NEUTRAL)
    }
}

/// The score after `periods` periods without a report.
pub open spec fn decay(score: int, periods: nat) -> int
    decreases periods,
{
    if periods == 0 {
        score
    } else {
        decay_once(decay(score, (periods - 1) as nat))
    }
}

/// Whole decay periods between two ledgers.
pub open spec fn periods_between(last_updated: u32, current_ledger: u32) -> nat {
    if current_ledger <= last_updated {
        0
    } else {
        ((current_ledger - last_updated) / DECAY_PERIOD as int) as nat
    }
}

/// The score `score` of ledger `last_updated`, as it stands at `current_ledger`.
/// A score that decayed is at most the maximum, one that did not is as it was.
pub open spec fn decayed_score(score: u32, last_updated: u32, current_ledger: u32) -> u32 {
    let periods = periods_between(last_updated, current_ledger);
    let s = decay(score as int, periods);
    if periods > 0 && s > MAX_SCORE {
        MAX_SCORE
    } else {
        s as u32
    }
}

proof fn lemma_decay_bounds(score: int, periods: nat)
    requires
        0 <= score <= u32::MAX,
    ensures
        0 <= decay(score, periods) <= u32::MAX,
    decreases periods,
{
    if periods > 0 {
        lemma_decay_bounds(score, (periods - 1) as nat);
    }
}

/// The score `score` of ledger `last_updated`, as it stands at `current_ledger`.
pub fn apply_decay(score: u32, last_updated: u32, current_ledger: u32) -> (r: u32)
    ensures
        r == decayed_score(score, last_updated, current_ledger),
{
    if current_ledger <= last_updated {
        return score;
    }
    let periods: u32 = (current_ledger - last_updated) / DECAY_PERIOD;
    if periods == 0 {
        return score;
    }
    let mut s: u32 = score;
    let mut i: u32 = 0;
    while i < periods
        invariant
            i <= periods,
            s == decay(score as int, i as nat),
        decreases periods - i,
    {
        let distance: u32 = if s < NEUTRAL {
            NEUTRAL - s
        } else {
            s - NEUTRAL
        };
        let step: u32 = if distance == 0 {
            0
        } else if distance < 100 {
            1
        } else {
            distance / 100
        };
        proof {
            lemma_decay_bounds(score as int, (i + 1) as nat);
        }
        s = if s < NEUTRAL {
            s + step
        } else {
            s - step
        };
        i = i + 1;
    }
    if s > MAX_SCORE {
        MAX_SCORE
    } else {
        s
    }
}

/// The record of an address that nothing was ever reported of.
pub open spec fn neutral_record(current_ledger: u32) -> ReputationRecord {
    ReputationRecord { score: NEUTRAL, last_updated: current_ledger, tx_success: 0, tx_disputed: 0 }
}

/// The lower of two numbers.
pub open spec fn at_most(a: int, bound: int) -> int {
    if a <= bound {
        a
    } else {
        bound
    }
}

impl ReputationRecord {
    /// The record after a successful transaction at `ledger`.
    pub open spec fn after_success(self, ledger: u32) -> ReputationRecord {
        ReputationRecord {
            score: at_most(
                decayed_score(self.score, self.last_updated, ledger) + SUCCESS_DELTA,
                MAX_SCORE as int,
            ) as u32,
            last_updated: ledger,
            tx_success: (self.tx_success + 1) as u32,
            tx_disputed: self.tx_disputed,
        }
    }

    /// The record after a disputed transaction at `ledger`.
    pub open spec fn after_dispute(self, ledger: u32) -> ReputationRecord {
        let score = decayed_score(self.score, self.last_updated, ledger);
        ReputationRecord {
            score: if score < DISPUTE_DELTA {
                0
            } else {
                (score - DISPUTE_DELTA) as u32
            },
            last_updated: ledger,
            tx_success: self.tx_success,
            tx_disputed: (self.tx_disputed + 1) as u32,
        }
    }
}

impl ReputationModel {
    /// The stored record of `user`, or a neutral one.
    pub open spec fn record(self, user: Address, current_ledger: u32) -> ReputationRecord {
        if self.records.contains_key(user) {
            self.records[user]
        } else {
            neutral_record(current_ledger)
        }
    }

    /// Whether `reporter` may report.
    pub open spec fn reports(self, reporter: Address) -> bool {
        self.reporters.contains_key(reporter) && self.reporters[reporter]
    }

    /// The score of `user` at `current_ledger`.
    pub open spec fn score(self, user: Address, current_ledger: u32) -> u32 {
        let r = self.record(user, current_ledger);
        decayed_score(r.score, r.last_updated, current_ledger)
    }

    /// The contract after `record` was written for `user`.
    pub open spec fn with_record(self, user: Address, record: ReputationRecord) -> ReputationModel {
        ReputationModel { records: self.records.insert(user, record), ..self }
    }

    /// What holds of every contract state that came about through its own operations:
    /// scores lie within bounds and the whitelist holds nobody who may not report.
    pub open spec fn inv(self) -> bool {
        &&& forall|u: Address| #[trigger]
            self.records.contains_key(u) ==> self.records[u].score <= MAX_SCORE
        &&& forall|a: Address| #[trigger] self.reporters.contains_key(a) ==> self.reporters[a]
    }
}

/// The authorization that every administrative operation asks for, before anything else.
pub open spec fn admin_auth(m: ReputationModel) -> Seq<Effect> {
    match m.admin {
        Some(admin) => seq![Effect::RequireAuth(admin)],
        None => seq![],
    }
}

/// The prolongation of the contract's own entry.
pub open spec fn instance_ttl() -> Effect {
    Effect::ExtendInstanceTtl { threshold: TTL_THRESHOLD, extend_to: TTL_EXTEND }
}

/// The prolongation of the record of `user`.
pub open spec fn record_ttl(user: Address) -> Effect {
    Effect::ExtendRecordTtl {
        user,
        threshold: PERSISTENT_TTL_THRESHOLD,
        extend_to: PERSISTENT_TTL_EXTEND,
    }
}

impl ReputationScoreContract {
    /// A contract that is not initialized.
    pub fn new() -> (c: Self)
        ensures
            c@ == (ReputationModel {
                admin: None,
                reporters: Map::empty(),
                records: Map::empty(),
            }),
            c@.inv(),
    {
        ReputationScoreContract { admin: None, reporters: Storage::new(), records: Storage::new() }
    }

    /// Sets the admin, once.
    pub fn initialize(&mut self, env: &mut Env, admin: Address) -> (r: Result<(), RepError>)
        ensures
            r == (if old(self)@.admin is Some {
                Err::<(), RepError>(RepError::AlreadyInitialized)
            } else {
                Ok(())
            }),
            r is Err ==> final(self)@ == old(self)@ && final(env).asks(*old(env), seq![]),
            r is Ok ==> {
                &&& final(self)@ == (ReputationModel { admin: Some(admin), ..old(self)@ })
                &&& final(env).asks(*old(env), seq![Effect::RequireAuth(admin), instance_ttl()])
            },
            old(self)@.inv() ==> final(self)@.inv(),
    {
        if self.admin.is_some() {
            return Err(RepError::AlreadyInitialized);
        }
        env.ask(Effect::RequireAuth(admin));
        self.admin = Some(admin);
        env.ask(Effect::ExtendInstanceTtl { threshold: TTL_THRESHOLD, extend_to: TTL_EXTEND });
        Ok(())
    }

    /// Puts a reporter on the whitelist.
    pub fn add_reporter(&mut self, env: &mut Env, reporter: Address) -> (r: Result<(), RepError>)
        ensures
            r == (if old(self)@.admin is None {
                Err::<(), RepError>(RepError::NotInitialized)
            } else if old(self)@.reporters.contains_key(reporter) {
                Err(RepError::ReporterAlreadyAdded)
            } else {
                Ok(())
            }),
            r is Err ==> {
                &&& final(self)@ == old(self)@
                &&& final(env).asks(*old(env), admin_auth(old(self)@))
            },
            r is Ok ==> {
                &&& final(self)@ == (ReputationModel {
                    reporters: old(self)@.reporters.insert(reporter, true),
                    ..old(self)@
                })
                &&& final(env).asks(
                    *old(env),
                    admin_auth(old(self)@) + seq![
                        instance_ttl(),
                        Effect::Publish(Event::ReporterAdded { reporter }),
                    ],
                )
            },
            old(self)@.inv() ==> final(self)@.inv(),
    {
        match self.require_admin(env) {
            Ok(_) => {},
            Err(e) => {
                return Err(e);
            },
        }
        if self.reporters.has(reporter) {
            return Err(RepError::ReporterAlreadyAdded);
        }
        self.reporters.set(reporter, true);
        env.ask(Effect::ExtendInstanceTtl { threshold: TTL_THRESHOLD, extend_to: TTL_EXTEND });
        env.ask(Effect::Publish(Event::ReporterAdded { reporter }));
        Ok(())
    }

    /// Takes a reporter off the whitelist.
    pub fn remove_reporter(&mut self, env: &mut Env, reporter: Address) -> (r: Result<(), RepError>)
        ensures
            r == (if old(self)@.admin is None {
                Err::<(), RepError>(RepError::NotInitialized)
            } else if !old(self)@.reporters.contains_key(reporter) {
                Err(RepError::ReporterNotFound)
            } else {
                Ok(())
            }),
            r is Err ==> {
                &&& final(self)@ == old(self)@
                &&& final(env).asks(*old(env), admin_auth(old(self)@))
            },
            r is Ok ==> {
                &&& final(self)@ == (ReputationModel {
                    reporters: old(self)@.reporters.remove(reporter),
                    ..old(self)@
                })
                &&& final(env).asks(
                    *old(env),
                    admin_auth(old(self)@) + seq![
                        Effect::Publish(Event::ReporterRemoved { reporter }),
                    ],
                )
            },
            old(self)@.inv() ==> final(self)@.inv(),
    {
        match self.require_admin(env) {
            Ok(_) => {},
            Err(e) => {
                return Err(e);
            },
        }
        if !self.reporters.has(reporter) {
            return Err(RepError::ReporterNotFound);
        }
        self.reporters.remove(reporter);
        env.ask(Effect::Publish(Event::ReporterRemoved { reporter }));
        Ok(())
    }

    /// Records a successful transaction of `user`. Only a whitelisted reporter may.
    pub fn record_success(&mut self, env: &mut Env, reporter: Address, user: Address) -> (r: Result<
        (),
        RepError,
    >)
        requires
            old(self)@.reports(reporter) ==> {
                &&& old(self)@.score(user, old(env).sequence) + SUCCESS_DELTA <= u32::MAX
                &&& old(self)@.record(user, old(env).sequence).tx_success < u32::MAX
            },
        ensures
            r == (if old(self)@.reports(reporter) {
                Ok::<(), RepError>(())
            } else {
                Err(RepError::Unauthorized)
            }),
            r is Err ==> {
                &&& final(self)@ == old(self)@
                &&& final(env).asks(*old(env), seq![Effect::RequireAuth(reporter)])
            },
            r is Ok ==> {
                let record = old(self)@.record(user, old(env).sequence).after_success(
                    old(env).sequence,
                );
                &&& final(self)@ == old(self)@.with_record(user, record)
                &&& final(env).asks(
                    *old(env),
                    seq![
                        Effect::RequireAuth(reporter),
                        instance_ttl(),
                        record_ttl(user),
                        Effect::Publish(Event::SuccessRecorded { user, score: record.score }),
                    ],
                )
            },
            old(self)@.inv() ==> final(self)@.inv(),
    {
        env.ask(Effect::RequireAuth(reporter));
        if !self.is_reporter(reporter) {
            return Err(RepError::Unauthorized);
        }
        env.ask(Effect::ExtendInstanceTtl { threshold: TTL_THRESHOLD, extend_to: TTL_EXTEND });
        let mut record = self.decayed_record(env, user);
        let raised: u32 = record.score + SUCCESS_DELTA;
        record.score = if raised < MAX_SCORE {
            raised
        } else {
            MAX_SCORE
        };
        record.tx_success = record.tx_success + 1;
        self.save_record(env, user, record);
        env.ask(Effect::Publish(Event::SuccessRecorded { user, score: record.score }));
        Ok(())
    }

    /// Records a disputed transaction of `user`. Only a whitelisted reporter may.
    pub fn record_dispute(&mut self, env: &mut Env, reporter: Address, user: Address) -> (r: Result<
        (),
        RepError,
    >)
        requires
            old(self)@.reports(reporter) ==> old(self)@.record(
                user,
                old(env).sequence,
            ).tx_disputed < u32::MAX,
        ensures
            r == (if old(self)@.reports(reporter) {
                Ok::<(), RepError>(())
            } else {
                Err(RepError::Unauthorized)
            }),
            r is Err ==> {
                &&& final(self)@ == old(self)@
                &&& final(env).asks(*old(env), seq![Effect::RequireAuth(reporter)])
            },
            r is Ok ==> {
                let record = old(self)@.record(user, old(env).sequence).after_dispute(
                    old(env).sequence,
                );
                &&& final(self)@ == old(self)@.with_record(user, record)
                &&& final(env).asks(
                    *old(env),
                    seq![
                        Effect::RequireAuth(reporter),
                        instance_ttl(),
                        record_ttl(user),
                        Effect::Publish(Event::DisputeRecorded { user, score: record.score }),
                    ],
                )
            },
            old(self)@.inv() ==> final(self)@.inv(),
    {
        env.ask(Effect::RequireAuth(reporter));
        if !self.is_reporter(reporter) {
            return Err(RepError::Unauthorized);
        }
        env.ask(Effect::ExtendInstanceTtl { threshold: TTL_THRESHOLD, extend_to: TTL_EXTEND });
        let mut record = self.decayed_record(env, user);
        record.score = record.score.saturating_sub(DISPUTE_DELTA);
        record.tx_disputed = record.tx_disputed + 1;
        self.save_record(env, user, record);
        env.ask(Effect::Publish(Event::DisputeRecorded { user, score: record.score }));
        proof {
            if old(self)@.inv() {
                law_score_in_bounds(old(self)@, user, old(env).sequence);
            }
        }
        Ok(())
    }

    /// Hands control to another admin.
    pub fn transfer_admin(&mut self, env: &mut Env, new_admin: Address) -> (r: Result<(), RepError>)
        ensures
            r == (if old(self)@.admin is None {
                Err::<(), RepError>(RepError::NotInitialized)
            } else {
                Ok(())
            }),
            r is Err ==> final(self)@ == old(self)@ && final(env).asks(*old(env), seq![]),
            r is Ok ==> {
                &&& final(self)@ == (ReputationModel { admin: Some(new_admin), ..old(self)@ })
                &&& final(env).asks(
                    *old(env),
                    admin_auth(old(self)@) + seq![
                        Effect::Publish(Event::AdminTransferred { new_admin }),
                    ],
                )
            },
            old(self)@.inv() ==> final(self)@.inv(),
    {
        match self.require_admin(env) {
            Ok(_) => {},
            Err(e) => {
                return Err(e);
            },
        }
        self.admin = Some(new_admin);
        env.ask(Effect::Publish(Event::AdminTransferred { new_admin }));
        Ok(())
    }

    /// Has the host replace the contract's code.
    pub fn upgrade(&self, env: &mut Env, new_wasm_hash: Bytes32) -> (r: Result<(), RepError>)
        ensures
            match self@.admin {
                Some(admin) => {
                    &&& r == Ok::<(), RepError>(())
                    &&& final(env).asks(
                        *old(env),
                        seq![Effect::RequireAuth(admin), Effect::UpdateWasm(new_wasm_hash)],
                    )
                },
                None => {
                    &&& r == Err::<(), RepError>(RepError::NotInitialized)
                    &&& final(env).asks(*old(env), seq![])
                },
            },
    {
        match self.require_admin(env) {
            Ok(_) => {
                env.ask(Effect::UpdateWasm(new_wasm_hash));
                Ok(())
            },
            Err(e) => Err(e),
        }
    }

    /// The score of `user` after decay. Writes nothing.
    pub fn get_score(&self, env: &Env, user: Address) -> (score: u32)
        ensures
            score == self@.score(user, env.sequence),
    {
        let record = self.load_record(env, user);
        apply_decay(record.score, record.last_updated, env.sequence)
    }

    /// The record of `user` with its score after decay. Writes nothing.
    pub fn get_record(&self, env: &Env, user: Address) -> (record: ReputationRecord)
        ensures
            record == (ReputationRecord {
                score: self@.score(user, env.sequence),
                ..self@.record(user, env.sequence)
            }),
    {
        let mut record = self.load_record(env, user);
        record.score = apply_decay(record.score, record.last_updated, env.sequence);
        record
    }

    /// Whether `reporter` may report.
    pub fn is_reporter(&self, reporter: Address) -> (b: bool)
        ensures
            b == self@.reports(reporter),
    {
        match self.reporters.get(reporter) {
            Some(b) => *b,
            None => false,
        }
    }

    /// Reads the admin and asks for the admin's authorization.
    fn require_admin(&self, env: &mut Env) -> (r: Result<Address, RepError>)
        ensures
            match self@.admin {
                Some(admin) => r == Ok::<Address, RepError>(admin),
                None => r == Err::<Address, RepError>(RepError::NotInitialized),
            },
            final(env).asks(*old(env), admin_auth(self@)),
    {
        match self.admin {
            Some(admin) => {
                env.ask(Effect::RequireAuth(admin));
                Ok(admin)
            },
            None => Err(RepError::NotInitialized),
        }
    }

    fn load_record(&self, env: &Env, user: Address) -> (record: ReputationRecord)
        ensures
            record == self@.record(user, env.sequence),
    {
        match self.records.get(user) {
            Some(record) => *record,
            None => ReputationRecord {
                score: NEUTRAL,
                last_updated: env.sequence,
                tx_success: 0,
                tx_disputed: 0,
            },
        }
    }

    fn save_record(&mut self, env: &mut Env, user: Address, record: ReputationRecord)
        ensures
            final(self)@ == old(self)@.with_record(user, record),
            final(env).asks(*old(env), seq![record_ttl(user)]),
    {
        self.records.set(user, record);
        env.ask(
            Effect::ExtendRecordTtl {
                user,
                threshold: PERSISTENT_TTL_THRESHOLD,
                extend_to: PERSISTENT_TTL_EXTEND,
            },
        );
    }

    /// The record of `user`, decayed to the current ledger.
    fn decayed_record(&self, env: &Env, user: Address) -> (record: ReputationRecord)
        ensures
            record == (ReputationRecord {
                score: self@.score(user, env.sequence),
                last_updated: env.sequence,
                ..self@.record(user, env.sequence)
            }),
    {
        let mut record = self.load_record(env, user);
        record.score = apply_decay(record.score, record.last_updated, env.sequence);
        record.last_updated = env.sequence;
        record
    }
}

/// How far a score is off neutral.
pub open spec fn off_neutral(score: int) -> int {
    if score < NEUTRAL {
        NEUTRAL - score
    } else {
        score - NEUTRAL
    }
}

/// Decay moves a score towards neutral, never past it; a score that is off neutral
/// comes strictly closer with every period.
pub proof fn law_decay_moves_towards_neutral(score: int, periods: nat)
    ensures
        score >= NEUTRAL ==> NEUTRAL <= decay(score, periods) <= score,
        score <= NEUTRAL ==> score <= decay(score, periods) <= NEUTRAL,
        periods > 0 && score != NEUTRAL ==> off_neutral(decay(score, periods)) < off_neutral(score),
    decreases periods,
{
    if periods > 0 {
        law_decay_moves_towards_neutral(score, (periods - 1) as nat);
    }
}

/// A neutral score stays neutral.
pub proof fn law_neutral_does_not_decay(periods: nat)
    ensures
        decay(NEUTRAL as int, periods) == NEUTRAL,
{
    law_decay_moves_towards_neutral(NEUTRAL as int, periods);
}

/// A hundred or more points off neutral, one period moves the score by one percent
/// of the distance, rounded down; closer than that, by one point.
pub proof fn law_decay_is_one_percent(score: int)
    ensures
        off_neutral(score) >= 100 ==> off_neutral(decay_once(score)) == off_neutral(score)
            - off_neutral(score) / 100,
        0 < off_neutral(score) < 100 ==> off_neutral(decay_once(score)) == off_neutral(score) - 1,
{
}

/// Decaying in two stretches is decaying over both at once.
pub proof fn law_decay_composes(score: int, first: nat, second: nat)
    ensures
        decay(decay(score, first), second) == decay(score, first + second),
    decreases second,
{
    if second > 0 {
        law_decay_composes(score, first, (second - 1) as nat);
    }
}

/// Of two scores that decay equally long, the higher one is never overtaken.
pub proof fn law_decay_keeps_order(low: int, high: int, periods: nat)
    requires
        low <= high,
    ensures
        decay(low, periods) <= decay(high, periods),
    decreases periods,
{
    if periods > 0 {
        law_decay_keeps_order(low, high, (periods - 1) as nat);
    }
}

/// After as many periods as a score is points off neutral, it is neutral.
pub proof fn law_decay_reaches_neutral(score: int, periods: nat)
    requires
        periods >= off_neutral(score),
    ensures
        decay(score, periods) == NEUTRAL,
{
    lemma_decay_closes_in(score, periods);
}

proof fn lemma_decay_closes_in(score: int, periods: nat)
    ensures
        off_neutral(decay(score, periods)) <= off_neutral(score) - periods || decay(score, periods)
            == NEUTRAL,
    decreases periods,
{
    if periods > 0 {
        lemma_decay_closes_in(score, (periods - 1) as nat);
    }
}

/// Scores stay between 0 and 1000.
pub proof fn law_score_in_bounds(m: ReputationModel, user: Address, current_ledger: u32)
    requires
        m.inv(),
    ensures
        m.score(user, current_ledger) <= MAX_SCORE,
        m.record(user, current_ledger).score <= MAX_SCORE,
{
    let r = m.record(user, current_ledger);
    let periods = periods_between(r.last_updated, current_ledger);
    law_decay_moves_towards_neutral(r.score as int, periods);
}

/// An address of which nothing was reported has the neutral score at every ledger.
pub proof fn law_unknown_address_is_neutral(m: ReputationModel, user: Address, current_ledger: u32)
    requires
        !m.records.contains_key(user),
    ensures
        m.score(user, current_ledger) == NEUTRAL,
{
}

/// A success raises the user's score by ten points up to the maximum, a dispute
/// lowers it by fifty down to zero; either counts one transaction, and both leave
/// every other address as it was.
pub proof fn law_reports_change_one_score(
    m: ReputationModel,
    user: Address,
    other: Address,
    ledger: u32,
    later: u32,
)
    requires
        m.inv(),
        m.record(user, ledger).tx_success < u32::MAX,
        m.record(user, ledger).tx_disputed < u32::MAX,
        other != user,
    ensures
        ({
            let before = m.record(user, ledger);
            let good = m.with_record(user, before.after_success(ledger));
            let bad = m.with_record(user, before.after_dispute(ledger));
            let score = m.score(user, ledger);
            &&& good.score(user, ledger) == at_most(score + 10, 1000)
            &&& bad.score(user, ledger) == score - at_most(score as int, 50)
            &&& good.record(user, ledger).tx_success == before.tx_success + 1
            &&& good.record(user, ledger).tx_disputed == before.tx_disputed
            &&& bad.record(user, ledger).tx_success == before.tx_success
            &&& bad.record(user, ledger).tx_disputed == before.tx_disputed + 1
            &&& good.score(other, later) == m.score(other, later)
            &&& bad.score(other, later) == m.score(other, later)
        }),
{
    law_score_in_bounds(m, user, ledger);
}

/// Taking a reporter off again restores the whitelist, and while the reporter is on
/// it, everybody else may report exactly as before.
pub proof fn law_whitelist_entries_are_independent(
    m: ReputationModel,
    reporter: Address,
    other: Address,
)
    requires
        !m.reporters.contains_key(reporter),
        other != reporter,
    ensures
        ({
            let added = ReputationModel { reporters: m.reporters.insert(reporter, true), ..m };
            &&& added.reports(reporter)
            &&& added.reports(other) == m.reports(other)
            &&& added.reporters.remove(reporter) == m.reporters
        }),
{
    assert(m.reporters.insert(reporter, true).remove(reporter) =~= m.reporters);
}

} // verus!
