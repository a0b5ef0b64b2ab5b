//! A proxy that forwards calls to a replaceable implementation.
//!
//! An admin stages an upgrade and then executes it. Executing runs the staged
//! migration scripts over the proxy's state and switches to the new
//! implementation; rolling back returns to the implementation before. Every
//! switch is written to an append-only history.

use super::host::{Address, Effect, Env, Symbol};
use super::storage::Storage;
use vstd::prelude::*;

verus! {

/// Why a call is refused.
#[derive(Clone, Copy, PartialEq, Eq, Structural, Debug)]
pub enum UpgradeError {
    AlreadyInitialized,
    NotInitialized,
    ContractPaused,
    AdminCannotFallback,
    InvalidVersion,
    PendingUpgradeExists,
    NoPendingUpgrade,
    NoRollbackAvailable,
}

impl UpgradeError {
    /// The number under which the error is reported on the ledger.
    pub open spec fn spec_code(self) -> u32 {
        match self {
            UpgradeError::AlreadyInitialized => 1,
            UpgradeError::NotInitialized => 2,
            UpgradeError::ContractPaused => 3,
            UpgradeError::AdminCannotFallback => 4,
            UpgradeError::InvalidVersion => 5,
            UpgradeError::PendingUpgradeExists => 6,
            UpgradeError::NoPendingUpgrade => 7,
            UpgradeError::NoRollbackAvailable => 8,
        }
    }

    /// The number under which the error is reported on the ledger.
    pub fn code(&self) -> (c: u32)
        ensures
            c == self.spec_code(),
    {
        match self {
            UpgradeError::AlreadyInitialized => 1,
            UpgradeError::NotInitialized => 2,
            UpgradeError::ContractPaused => 3,
            UpgradeError::AdminCannotFallback => 4,
            UpgradeError::InvalidVersion => 5,
            UpgradeError::PendingUpgradeExists => 6,
            UpgradeError::NoPendingUpgrade => 7,
            UpgradeError::NoRollbackAvailable => 8,
        }
    }
}

/// One migration: which state entry, by which script, with which parameter.
#[derive(Clone, Copy, PartialEq, Eq, Structural, Debug)]
pub struct MigrationStep {
    pub key: Symbol,
    pub script: Address,
    pub data: i128,
}

/// An upgrade that is staged and not yet executed.
#[derive(Debug)]
pub struct PendingUpgrade {
    pub from_version: u32,
    pub target_version: u32,
    pub old_implementation: Address,
    pub new_implementation: Address,
    pub steps: Vec<MigrationStep>,
}

/// A staged upgrade, seen mathematically.
#[verifier::ext_equal]
pub struct PendingModel {
    pub from_version: u32,
    pub target_version: u32,
    pub old_implementation: Address,
    pub new_implementation: Address,
    pub steps: Seq<MigrationStep>,
}

impl View for PendingUpgrade {
    type V = PendingModel;

    open spec fn view(&self) -> PendingModel {
        PendingModel {
            from_version: self.from_version,
            target_version: self.target_version,
            old_implementation: self.old_implementation,
            new_implementation: self.new_implementation,
            steps: self.steps@,
        }
    }
}

/// One switch of implementation.
#[derive(Clone, Copy, PartialEq, Eq, Structural, Debug)]
pub struct UpgradeRecord {
    pub from_version: u32,
    pub to_version: u32,
    pub old_implementation: Address,
    pub new_implementation: Address,
    pub rollback: bool,
}

/// An implementation together with its version.
#[derive(Clone, Copy, PartialEq, Eq, Structural, Debug)]
pub struct Deployment {
    pub implementation: Address,
    pub version: u32,
}

/// What exists from initialization on: who controls the proxy, and what it runs.
#[derive(Clone, Copy, PartialEq, Eq, Structural, Debug)]
pub struct Control {
    pub admin: Address,
    pub current: Deployment,
}

/// A call that is to be passed on to the implementation.
pub struct Invocation<A> {
    pub contract: Address,
    pub method: Symbol,
    pub args: A,
}

/// One call of a migration script, with its answer.
#[derive(Clone, Copy, PartialEq, Eq, Structural, Debug)]
pub struct MigrationCall {
    pub script: Address,
    pub key: Symbol,
    pub current_value: i128,
    pub data: i128,
    pub from_version: u32,
    pub to_version: u32,
    pub migrated: i128,
}

/// The contracts that migrate state values, to be implemented by their authors.
///
/// Nothing is asked of the value that a script returns. The scripts are handed from one
/// call to the next, so that what is done with them is one line of calls.
pub trait MigrationScript: Sized {
    /// Has the script at `script` turn the value under `key` into its new value.
    fn migrate(
        self,
        script: Address,
        key: Symbol,
        current_value: i128,
        data: i128,
        from_version: u32,
        to_version: u32,
    ) -> (r: (Self, i128));
}

/// One call of the scripts, and no more, leads from `before` to `after`, with the answer
/// that it says.
pub open spec fn answered<S: MigrationScript>(before: S, call: MigrationCall, after: S) -> bool {
    call_ensures(
        S::migrate,
        (
            before,
            call.script,
            call.key,
            call.current_value,
            call.data,
            call.from_version,
            call.to_version,
        ),
        (after, call.migrated),
    )
}

/// These calls of the scripts, each made once and in this order, and no others, lead from
/// `before` to `after`. `between` holds the scripts before, between and after the calls.
pub open spec fn called_in_order<S: MigrationScript>(
    before: S,
    calls: Seq<MigrationCall>,
    between: Seq<S>,
    after: S,
) -> bool {
    &&& between.len() == calls.len() + 1
    &&& between[0] == before
    &&& between.last() == after
    &&& forall|i: int| #![trigger calls[i]]
        0 <= i < calls.len() ==> answered(between[i], calls[i], between[i + 1])
}

/// The proxy's ledger entries.
pub struct UpgradeableProxy {
    pub control: Option<Control>,
    pub paused: bool,
    pub previous: Option<Deployment>,
    pub pending: Option<PendingUpgrade>,
    /// The implementation that was last installed under each version.
    pub versions: Storage<u32, Address>,
    pub history: Vec<UpgradeRecord>,
    /// The values that migrations work on.
    pub state: Storage<Symbol, i128>,
}

/// The proxy, seen mathematically.
#[verifier::ext_equal]
pub struct ProxyModel {
    pub control: Option<Control>,
    pub paused: bool,
    pub previous: Option<Deployment>,
    pub pending: Option<PendingModel>,
    pub versions: Map<u32, Address>,
    pub history: Seq<UpgradeRecord>,
    pub state: Map<Symbol, i128>,
}

impl View for UpgradeableProxy {
    type V = ProxyModel;

    open spec fn view(&self) -> ProxyModel {
        ProxyModel {
            control: self.control,
            paused: self.paused,
            previous: self.previous,
            pending: match self.pending {
                Some(p) => Some(p@),
                None => None,
            },
            versions: self.versions@,
            history: self.history@,
            state: self.state@,
        }
    }
}

/// The value under `key`; an entry that was never written counts as zero.
pub open spec fn value_at(state: Map<Symbol, i128>, key: Symbol) -> i128 {
    if state.contains_key(key) {
        state[key]
    } else {
        0
    }
}

/// The state after the steps were run in order, where step `i` answered `answers[i]`.
pub open spec fn migrated_state(
    state: Map<Symbol, i128>,
    steps: Seq<MigrationStep>,
    answers: Seq<i128>,
) -> Map<Symbol, i128>
    decreases steps.len(),
{
    if steps.len() == 0 {
        state
    } else {
        migrated_state(state, steps.drop_last(), answers).insert(
            steps.last().key,
            answers[steps.len() - 1],
        )
    }
}

/// The answers in a list of script calls.
pub open spec fn answers_of(calls: Seq<MigrationCall>) -> Seq<i128> {
    calls.map_values(|c: MigrationCall| c.migrated)
}

/// `calls` is what running the steps of `pending` on `state` hands to the scripts:
/// one call per step, each with the value that the earlier steps left.
pub open spec fn runs_steps(
    state: Map<Symbol, i128>,
    pending: PendingModel,
    calls: Seq<MigrationCall>,
) -> bool {
    &&& calls.len() == pending.steps.len()
    &&& forall|i: int| #![trigger calls[i]]
        0 <= i < calls.len() ==> {
            let before = migrated_state(state, pending.steps.take(i), answers_of(calls));
            &&& calls[i].script == pending.steps[i].script
            &&& calls[i].key == pending.steps[i].key
            &&& calls[i].current_value == value_at(before, pending.steps[i].key)
            &&& calls[i].data == pending.steps[i].data
            &&& calls[i].from_version == pending.from_version
            &&& calls[i].to_version == pending.target_version
        }
}

impl ProxyModel {
    /// The proxy before initialization.
    pub open spec fn fresh() -> ProxyModel {
        ProxyModel {
            control: None,
            paused: false,
            previous: None,
            pending: None,
            versions: Map::empty(),
            history: Seq::empty(),
            state: Map::empty(),
        }
    }

    /// The proxy after initialization.
    pub open spec fn initialized(self, admin: Address, implementation: Address, version: u32) -> ProxyModel {
        ProxyModel {
            control: Some(Control { admin, current: Deployment { implementation, version } }),
            paused: false,
            versions: self.versions.insert(version, implementation),
            history: Seq::empty(),
            ..self
        }
    }

    /// The proxy after a switch from the current deployment to `next`.
    pub open spec fn switched(self, next: Deployment, rollback: bool) -> ProxyModel {
        let control = self.control->0;
        ProxyModel {
            control: Some(Control { current: next, ..control }),
            previous: Some(control.current),
            pending: None,
            history: self.history.push(
                UpgradeRecord {
                    from_version: control.current.version,
                    to_version: next.version,
                    old_implementation: control.current.implementation,
                    new_implementation: next.implementation,
                    rollback,
                },
            ),
            ..self
        }
    }

    /// The proxy after its pending upgrade was executed and the scripts answered `answers`.
    pub open spec fn upgraded(self, answers: Seq<i128>) -> ProxyModel {
        let pending = self.pending->0;
        let next = Deployment {
            implementation: pending.new_implementation,
            version: pending.target_version,
        };
        ProxyModel {
            versions: self.versions.insert(next.version, next.implementation),
            state: migrated_state(self.state, pending.steps, answers),
            ..self.switched(next, false)
        }
    }

    /// `after` is the proxy after its pending upgrade was executed by way of these calls:
    /// one per step, in order, each answered by the scripts, and no others.
    pub open spec fn upgrades_by<S: MigrationScript>(
        self,
        scripts: S,
        calls: Seq<MigrationCall>,
        between: Seq<S>,
        scripts_after: S,
        after: ProxyModel,
    ) -> bool {
        &&& runs_steps(self.state, self.pending->0, calls)
        &&& called_in_order(scripts, calls, between, scripts_after)
        &&& after == self.upgraded(answers_of(calls))
    }

    /// The proxy after a rollback.
    pub open spec fn rolled_back(self) -> ProxyModel {
        self.switched(self.previous->0, true)
    }

    /// The proxy with forwarding blocked or let through.
    pub open spec fn with_paused(self, paused: bool) -> ProxyModel {
        ProxyModel { paused, ..self }
    }

    /// What `forward` decides: the implementation that is called, or the refusal.
    pub open spec fn forward_target(self, caller: Address) -> Result<Address, UpgradeError> {
        if self.paused {
            Err(UpgradeError::ContractPaused)
        } else if self.control is None {
            Err(UpgradeError::NotInitialized)
        } else if caller == self.control->0.admin {
            Err(UpgradeError::AdminCannotFallback)
        } else {
            Ok(self.control->0.current.implementation)
        }
    }

    /// Consecutive history entries fit together, and a rollback undoes the entry before it.
    pub open spec fn history_fits(self) -> bool {
        &&& forall|i: int| #![trigger self.history[i]]
            1 <= i < self.history.len() ==> {
                let last = self.history[i - 1];
                let this = self.history[i];
                &&& this.from_version == last.to_version
                &&& this.old_implementation == last.new_implementation
                &&& this.rollback ==> this.to_version == last.from_version
                    && this.new_implementation == last.old_implementation
            }
        &&& forall|i: int| #![trigger self.history[i]]
            0 <= i < self.history.len() && !self.history[i].rollback
                ==> self.history[i].from_version < self.history[i].to_version
        &&& self.history.len() > 0 ==> !self.history[0].rollback
    }

    /// What holds of every proxy that came about through its own operations.
    pub open spec fn inv(self) -> bool {
        match self.control {
            None => {
                &&& !self.paused
                &&& self.previous is None
                &&& self.pending is None
                &&& self.versions == Map::<u32, Address>::empty()
                &&& self.history.len() == 0
                &&& self.state == Map::<Symbol, i128>::empty()
            },
            Some(control) => {
                &&& control.current.version != 0
                &&& self.versions.contains_key(control.current.version)
                &&& self.versions[control.current.version] == control.current.implementation
                &&& self.pending matches Some(p) ==> {
                    &&& p.from_version == control.current.version
                    &&& p.old_implementation == control.current.implementation
                    &&& p.from_version < p.target_version
                }
                &&& self.previous matches Some(p) ==> {
                    &&& p.version != 0
                    &&& self.versions.contains_key(p.version)
                    &&& self.versions[p.version] == p.implementation
                }
                &&& self.history.len() > 0 <==> self.previous is Some
                &&& self.history.len() > 0 ==> {
                    let last = self.history.last();
                    &&& last.to_version == control.current.version
                    &&& last.new_implementation == control.current.implementation
                    &&& last.from_version == self.previous->0.version
                    &&& last.old_implementation == self.previous->0.implementation
                }
                &&& self.history_fits()
            },
        }
    }
}

proof fn lemma_migrated_state_prefix(
    state: Map<Symbol, i128>,
    steps: Seq<MigrationStep>,
    a: Seq<i128>,
    b: Seq<i128>,
)
    requires
        steps.len() <= a.len(),
        steps.len() <= b.len(),
        forall|i: int| 0 <= i < steps.len() ==> a[i] == b[i],
    ensures
        migrated_state(state, steps, a) == migrated_state(state, steps, b),
    decreases steps.len(),
{
    if steps.len() > 0 {
        lemma_migrated_state_prefix(state, steps.drop_last(), a, b);
    }
}

impl UpgradeableProxy {
    /// A proxy that is not initialized.
    pub fn new() -> (proxy: Self)
        ensures
            proxy@ == ProxyModel::fresh(),
            proxy@.inv(),
    {
        UpgradeableProxy {
            control: None,
            paused: false,
            previous: None,
            pending: None,
            versions: Storage::new(),
            history: Vec::new(),
            state: Storage::new(),
        }
    }

    /// Sets the admin and the first implementation, once.
    pub fn initialize(
        &mut self,
        env: &mut Env,
        admin: Address,
        implementation: Address,
        version: u32,
    ) -> (r: Result<(), UpgradeError>)
        ensures
            r == (if old(self)@.control is Some {
                Err::<(), UpgradeError>(UpgradeError::AlreadyInitialized)
            } else if version == 0 {
                Err(UpgradeError::InvalidVersion)
            } else {
                Ok(())
            }),
            r is Err ==> final(self)@ == old(self)@ && final(env).asks(*old(env), seq![]),
            r is Ok ==> {
                &&& final(self)@ == old(self)@.initialized(admin, implementation, version)
                &&& final(env).asks(*old(env), seq![Effect::RequireAuth(admin)])
            },
            old(self)@.inv() ==> final(self)@.inv(),
    {
        if self.control.is_some() {
            return Err(UpgradeError::AlreadyInitialized);
        }
        if version == 0 {
            return Err(UpgradeError::InvalidVersion);
        }
        env.ask(Effect::RequireAuth(admin));
        self.control = Some(Control { admin, current: Deployment { implementation, version } });
        self.versions.set(version, implementation);
        self.paused = false;
        self.history = Vec::new();
        Ok(())
    }

    /// Decides where a call goes, for the host to pass it on.
    pub fn forward<A>(&self, env: &mut Env, caller: Address, method: Symbol, args: A) -> (r: Result<
        Invocation<A>,
        UpgradeError,
    >)
        ensures
            match self@.forward_target(caller) {
                Ok(implementation) => r == Ok::<Invocation<A>, UpgradeError>(
                    (Invocation { contract: implementation, method, args }),
                ),
                Err(e) => r == Err::<Invocation<A>, UpgradeError>(e),
            },
            final(env).asks(
                *old(env),
                if self@.paused || self@.control is None {
                    seq![]
                } else {
                    seq![Effect::RequireAuth(caller)]
                },
            ),
    {
        if self.paused {
            return Err(UpgradeError::ContractPaused);
        }
        let admin = match self.read_admin() {
            Ok(admin) => admin,
            Err(e) => {
                return Err(e);
            },
        };
        env.ask(Effect::RequireAuth(caller));
        if caller == admin {
            return Err(UpgradeError::AdminCannotFallback);
        }
        match self.read_current_implementation() {
            Ok(contract) => Ok(Invocation { contract, method, args }),
            Err(e) => Err(e),
        }
    }

    /// Prepares an upgrade to a higher version.
    pub fn stage_upgrade(
        &mut self,
        env: &mut Env,
        new_implementation: Address,
        target_version: u32,
        steps: Vec<MigrationStep>,
    ) -> (r: Result<(), UpgradeError>)
        ensures
            r == (if old(self)@.control is None {
                Err::<(), UpgradeError>(UpgradeError::NotInitialized)
            } else if old(self)@.pending is Some {
                Err(UpgradeError::PendingUpgradeExists)
            } else if target_version <= old(self)@.control->0.current.version {
                Err(UpgradeError::InvalidVersion)
            } else {
                Ok(())
            }),
            final(env).asks(*old(env), admin_auth(old(self)@)),
            r is Err ==> final(self)@ == old(self)@,
            r is Ok ==> final(self)@ == (ProxyModel {
                pending: Some(
                    PendingModel {
                        from_version: old(self)@.control->0.current.version,
                        target_version,
                        old_implementation: old(self)@.control->0.current.implementation,
                        new_implementation,
                        steps: steps@,
                    },
                ),
                ..old(self)@
            }),
            old(self)@.inv() ==> final(self)@.inv(),
    {
        match self.require_admin(env) {
            Ok(_) => {},
            Err(e) => {
                return Err(e);
            },
        }
        if self.pending.is_some() {
            return Err(UpgradeError::PendingUpgradeExists);
        }
        let from_version: u32 = match self.read_current_version() {
            Ok(v) => v,
            Err(e) => {
                return Err(e);
            },
        };
        if target_version <= from_version {
            return Err(UpgradeError::InvalidVersion);
        }
        let old_implementation = match self.read_current_implementation() {
            Ok(a) => a,
            Err(e) => {
                return Err(e);
            },
        };
        self.pending = Some(
            PendingUpgrade { from_version, target_version, old_implementation, new_implementation, steps },
        );
        Ok(())
    }

    /// Runs the staged migrations, each script once and in the order of the steps, then
    /// switches to the staged implementation. Gives the scripts back.
    pub fn execute_upgrade<S: MigrationScript>(
        &mut self,
        env: &mut Env,
        scripts: S,
    ) -> (r: (Result<(), UpgradeError>, S))
        ensures
            r.0 == (if old(self)@.control is None {
                Err::<(), UpgradeError>(UpgradeError::NotInitialized)
            } else if old(self)@.pending is None {
                Err(UpgradeError::NoPendingUpgrade)
            } else {
                Ok(())
            }),
            final(env).asks(*old(env), admin_auth(old(self)@)),
            r.0 is Err ==> final(self)@ == old(self)@ && r.1 == scripts,
            r.0 is Ok ==> exists|calls: Seq<MigrationCall>, between: Seq<S>| #[trigger]
                old(self)@.upgrades_by(scripts, calls, between, r.1, final(self)@),
            old(self)@.inv() ==> final(self)@.inv(),
    {
        match self.require_admin(env) {
            Ok(_) => {},
            Err(e) => {
                return (Err(e), scripts);
            },
        }
        let pending = match self.pending.take() {
            Some(p) => p,
            None => {
                return (Err(UpgradeError::NoPendingUpgrade), scripts);
            },
        };
        let ghost before = old(self)@;
        let scripts_after = self.run_migrations(&pending, scripts);
        let ghost migrated = self@;
        self.finish_upgrade(&pending);
        let done: (Result<(), UpgradeError>, S) = (Ok(()), scripts_after);
        proof {
            let (calls, between) = choose|calls: Seq<MigrationCall>, between: Seq<S>|
                {
                    &&& #[trigger] called_in_order(scripts, calls, between, done.1)
                    &&& runs_steps(before.state, pending@, calls)
                    &&& migrated.state == migrated_state(
                        before.state,
                        pending.steps@,
                        answers_of(calls),
                    )
                };
            assert(self@ =~= before.upgraded(answers_of(calls)));
            assert(old(self)@.upgrades_by(scripts, calls, between, done.1, self@));
            if before.inv() {
                lemma_upgrade_keeps_inv(before, answers_of(calls));
            }
        }
        done
    }

    /// Runs the steps of an upgrade, each script once and in their order, and writes the
    /// answers. Gives the scripts back.
    #[verifier::spinoff_prover]
    #[verifier::rlimit(50)]
    fn run_migrations<S: MigrationScript>(&mut self, pending: &PendingUpgrade, scripts: S) -> (r: S)
        ensures
            exists|calls: Seq<MigrationCall>, between: Seq<S>|
                {
                    &&& #[trigger] called_in_order(scripts, calls, between, r)
                    &&& runs_steps(old(self)@.state, pending@, calls)
                    &&& final(self)@.state == migrated_state(
                        old(self)@.state,
                        pending.steps@,
                        answers_of(calls),
                    )
                },
            final(self)@ == (ProxyModel { state: final(self)@.state, ..old(self)@ }),
    {
        let ghost before = old(self)@;
        let ghost mut calls: Seq<MigrationCall> = seq![];
        let ghost mut between: Seq<S> = seq![scripts];
        let mut current: S = scripts;
        let mut i: usize = 0;
        proof {
            assert(pending.steps@.take(0) =~= seq![]);
        }
        while i < pending.steps.len()
            invariant
                before == old(self)@,
                i <= pending.steps@.len(),
                calls.len() == i,
                called_in_order(scripts, calls, between, current),
                self@ == (ProxyModel {
                    state: migrated_state(before.state, pending.steps@.take(i as int), answers_of(calls)),
                    ..before
                }),
                runs_steps(
                    before.state,
                    PendingModel { steps: pending.steps@.take(i as int), ..pending@ },
                    calls,
                ),
            decreases pending.steps@.len() - i,
        {
            let step = pending.steps[i];
            let current_value = self.get_state_value(step.key);
            let ghost asked = current;
            let (answering, migrated) = current.migrate(
                step.script,
                step.key,
                current_value,
                step.data,
                pending.from_version,
                pending.target_version,
            );
            current = answering;
            self.apply_migration(&step, migrated);
            proof {
                let call = MigrationCall {
                    script: step.script,
                    key: step.key,
                    current_value,
                    data: step.data,
                    from_version: pending.from_version,
                    to_version: pending.target_version,
                    migrated,
                };
                let more = calls.push(call);
                let steps = pending.steps@;
                assert(answered(asked, call, current));
                let longer = between.push(current);
                assert forall|j: int| #![trigger more[j]] 0 <= j < more.len() implies answered(
                    longer[j],
                    more[j],
                    longer[j + 1],
                ) by {
                    if j < i {
                        assert(more[j] == calls[j]);
                    }
                }
                between = longer;
                assert(steps.take(i + 1).drop_last() =~= steps.take(i as int));
                assert(answers_of(more).len() == i + 1);
                lemma_migrated_state_prefix(
                    before.state,
                    steps.take(i as int),
                    answers_of(calls),
                    answers_of(more),
                );
                assert forall|j: int| #![trigger more[j]] 0 <= j < more.len() implies {
                    let done = migrated_state(
                        before.state,
                        steps.take(i + 1).take(j),
                        answers_of(more),
                    );
                    &&& more[j].script == steps.take(i + 1)[j].script
                    &&& more[j].key == steps.take(i + 1)[j].key
                    &&& more[j].current_value == value_at(done, steps.take(i + 1)[j].key)
                    &&& more[j].data == steps.take(i + 1)[j].data
                    &&& more[j].from_version == pending.from_version
                    &&& more[j].to_version == pending.target_version
                } by {
                    assert(steps.take(i + 1).take(j) =~= steps.take(j));
                    if j < i {
                        assert(more[j] == calls[j]);
                        assert(steps.take(i as int).take(j) =~= steps.take(j));
                        lemma_migrated_state_prefix(
                            before.state,
                            steps.take(j),
                            answers_of(calls),
                            answers_of(more),
                        );
                    }
                }
                calls = more;
            }
            i = i + 1;
        }
        proof {
            assert(pending.steps@.take(i as int) =~= pending.steps@);
            assert(PendingModel { steps: pending.steps@.take(i as int), ..pending@ } =~= pending@);
        }
        current
    }

    /// Writes the answer of one migration script.
    fn apply_migration(&mut self, step: &MigrationStep, migrated: i128)
        ensures
            final(self)@ == (ProxyModel {
                state: old(self)@.state.insert(step.key, migrated),
                ..old(self)@
            }),
    {
        self.state.set(step.key, migrated);
    }

    /// Switches to the implementation of an upgrade whose migrations are done.
    fn finish_upgrade(&mut self, pending: &PendingUpgrade)
        requires
            old(self)@.control is Some,
        ensures
            final(self)@ == ({
                let next = Deployment {
                    implementation: pending.new_implementation,
                    version: pending.target_version,
                };
                ProxyModel {
                    versions: old(self)@.versions.insert(next.version, next.implementation),
                    ..old(self)@.switched(next, false)
                }
            }),
    {
        let next = Deployment {
            implementation: pending.new_implementation,
            version: pending.target_version,
        };
        self.versions.set(next.version, next.implementation);
        self.switch_to(next, false);
    }

    /// Makes `next` the current deployment and records the switch.
    fn switch_to(&mut self, next: Deployment, rollback: bool)
        requires
            old(self)@.control is Some,
        ensures
            final(self)@ == old(self)@.switched(next, rollback),
    {
        if let Some(control) = self.control {
            self.previous = Some(control.current);
            self.control = Some(Control { admin: control.admin, current: next });
            self.append_history(
                UpgradeRecord {
                    from_version: control.current.version,
                    to_version: next.version,
                    old_implementation: control.current.implementation,
                    new_implementation: next.implementation,
                    rollback,
                },
            );
            self.pending = None;
        }
    }

    /// Returns to the implementation and version before the last switch.
    pub fn rollback(&mut self, env: &mut Env) -> (r: Result<(), UpgradeError>)
        ensures
            r == (if old(self)@.control is None {
                Err::<(), UpgradeError>(UpgradeError::NotInitialized)
            } else if old(self)@.previous is None {
                Err(UpgradeError::NoRollbackAvailable)
            } else {
                Ok(())
            }),
            final(env).asks(*old(env), admin_auth(old(self)@)),
            r is Err ==> final(self)@ == old(self)@,
            r is Ok ==> final(self)@ == old(self)@.rolled_back(),
            old(self)@.inv() ==> final(self)@.inv(),
    {
        match self.require_admin(env) {
            Ok(_) => {},
            Err(e) => {
                return Err(e);
            },
        }
        let previous = match self.previous {
            Some(p) => p,
            None => {
                return Err(UpgradeError::NoRollbackAvailable);
            },
        };
        self.switch_to(previous, true);
        proof {
            if old(self)@.inv() {
                lemma_rollback_keeps_inv(old(self)@);
            }
        }
        Ok(())
    }

    /// Blocks forwarding.
    pub fn pause(&mut self, env: &mut Env) -> (r: Result<(), UpgradeError>)
        ensures
            r == initialized_only(old(self)@),
            final(env).asks(*old(env), admin_auth(old(self)@)),
            r is Err ==> final(self)@ == old(self)@,
            r is Ok ==> final(self)@ == old(self)@.with_paused(true),
            old(self)@.inv() ==> final(self)@.inv(),
    {
        match self.require_admin(env) {
            Ok(_) => {
                self.paused = true;
                Ok(())
            },
            Err(e) => Err(e),
        }
    }

    /// Lets forwarding through again.
    pub fn unpause(&mut self, env: &mut Env) -> (r: Result<(), UpgradeError>)
        ensures
            r == initialized_only(old(self)@),
            final(env).asks(*old(env), admin_auth(old(self)@)),
            r is Err ==> final(self)@ == old(self)@,
            r is Ok ==> final(self)@ == old(self)@.with_paused(false),
            old(self)@.inv() ==> final(self)@.inv(),
    {
        match self.require_admin(env) {
            Ok(_) => {
                self.paused = false;
                Ok(())
            },
            Err(e) => Err(e),
        }
    }

    /// Hands control to another admin.
    pub fn transfer_admin(&mut self, env: &mut Env, new_admin: Address) -> (r: Result<
        (),
        UpgradeError,
    >)
        ensures
            r == initialized_only(old(self)@),
            final(env).asks(*old(env), admin_auth(old(self)@)),
            r is Err ==> final(self)@ == old(self)@,
            r is Ok ==> final(self)@ == (ProxyModel {
                control: Some(Control { admin: new_admin, ..old(self)@.control->0 }),
                ..old(self)@
            }),
            old(self)@.inv() ==> final(self)@.inv(),
    {
        match self.require_admin(env) {
            Ok(_) => {
                if let Some(control) = self.control {
                    self.control = Some(Control { admin: new_admin, current: control.current });
                }
                Ok(())
            },
            Err(e) => Err(e),
        }
    }

    /// Writes a state value.
    pub fn set_state_value(&mut self, env: &mut Env, key: Symbol, value: i128) -> (r: Result<
        (),
        UpgradeError,
    >)
        ensures
            r == initialized_only(old(self)@),
            final(env).asks(*old(env), admin_auth(old(self)@)),
            r is Err ==> final(self)@ == old(self)@,
            r is Ok ==> final(self)@ == (ProxyModel {
                state: old(self)@.state.insert(key, value),
                ..old(self)@
            }),
            old(self)@.inv() ==> final(self)@.inv(),
    {
        match self.require_admin(env) {
            Ok(_) => {
                self.state.set(key, value);
                Ok(())
            },
            Err(e) => Err(e),
        }
    }

    /// The value under `key`; zero if none was written.
    pub fn get_state_value(&self, key: Symbol) -> (value: i128)
        ensures
            value == value_at(self@.state, key),
    {
        match self.state.get(key) {
            Some(value) => *value,
            None => 0,
        }
    }

    /// The admin.
    pub fn get_admin(&self) -> (r: Result<Address, UpgradeError>)
        ensures
            r == admin_of(self@),
    {
        self.read_admin()
    }

    /// Whether forwarding is blocked.
    pub fn is_paused(&self) -> (b: bool)
        ensures
            b == self@.paused,
    {
        self.paused
    }

    /// The implementation that calls are forwarded to.
    pub fn current_implementation(&self) -> (r: Result<Address, UpgradeError>)
        ensures
            match self@.control {
                Some(c) => r == Ok::<Address, UpgradeError>(c.current.implementation),
                None => r == Err::<Address, UpgradeError>(UpgradeError::NotInitialized),
            },
    {
        self.read_current_implementation()
    }

    /// The version of the current implementation.
    pub fn current_version(&self) -> (r: Result<u32, UpgradeError>)
        ensures
            match self@.control {
                Some(c) => r == Ok::<u32, UpgradeError>(c.current.version),
                None => r == Err::<u32, UpgradeError>(UpgradeError::NotInitialized),
            },
    {
        self.read_current_version()
    }

    /// The implementation that was last installed under `version`.
    pub fn implementation_for_version(&self, version: u32) -> (r: Option<Address>)
        ensures
            r == self@.versions.get(version),
    {
        match self.versions.get(version) {
            Some(a) => Some(*a),
            None => None,
        }
    }

    /// The staged upgrade.
    pub fn get_pending_upgrade(&self) -> (r: Option<&PendingUpgrade>)
        ensures
            match r {
                Some(p) => self@.pending == Some(p@),
                None => self@.pending is None,
            },
    {
        self.pending.as_ref()
    }

    /// All switches, oldest first.
    pub fn get_upgrade_history(&self) -> (r: &Vec<UpgradeRecord>)
        ensures
            r@ == self@.history,
    {
        &self.history
    }

    fn read_admin(&self) -> (r: Result<Address, UpgradeError>)
        ensures
            r == admin_of(self@),
    {
        match self.control {
            Some(c) => Ok(c.admin),
            None => Err(UpgradeError::NotInitialized),
        }
    }

    /// Reads the admin and asks for the admin's authorization.
    fn require_admin(&self, env: &mut Env) -> (r: Result<Address, UpgradeError>)
        ensures
            r == admin_of(self@),
            final(env).asks(*old(env), admin_auth(self@)),
    {
        match self.read_admin() {
            Ok(admin) => {
                env.ask(Effect::RequireAuth(admin));
                Ok(admin)
            },
            Err(e) => Err(e),
        }
    }

    fn read_current_implementation(&self) -> (r: Result<Address, UpgradeError>)
        ensures
            match self@.control {
                Some(c) => r == Ok::<Address, UpgradeError>(c.current.implementation),
                None => r == Err::<Address, UpgradeError>(UpgradeError::NotInitialized),
            },
    {
        match self.control {
            Some(c) => Ok(c.current.implementation),
            None => Err(UpgradeError::NotInitialized),
        }
    }

    fn read_current_version(&self) -> (r: Result<u32, UpgradeError>)
        ensures
            match self@.control {
                Some(c) => r == Ok::<u32, UpgradeError>(c.current.version),
                None => r == Err::<u32, UpgradeError>(UpgradeError::NotInitialized),
            },
    {
        match self.control {
            Some(c) => Ok(c.current.version),
            None => Err(UpgradeError::NotInitialized),
        }
    }

    fn append_history(&mut self, record: UpgradeRecord)
        ensures
            final(self)@ == (ProxyModel { history: old(self)@.history.push(record), ..old(self)@ }),
    {
        self.history.push(record);
    }
}

/// The admin, if the proxy is initialized.
pub open spec fn admin_of(m: ProxyModel) -> Result<Address, UpgradeError> {
    match m.control {
        Some(c) => Ok(c.admin),
        None => Err(UpgradeError::NotInitialized),
    }
}

/// The outcome of an operation that an initialized proxy never refuses.
pub open spec fn initialized_only(m: ProxyModel) -> Result<(), UpgradeError> {
    match m.control {
        Some(_) => Ok(()),
        None => Err(UpgradeError::NotInitialized),
    }
}

/// The authorization that every privileged operation asks for, before anything else.
pub open spec fn admin_auth(m: ProxyModel) -> Seq<Effect> {
    match m.control {
        Some(c) => seq![Effect::RequireAuth(c.admin)],
        None => seq![],
    }
}

proof fn lemma_switch_keeps_history(m: ProxyModel, next: Deployment, rollback: bool)
    requires
        m.inv(),
        m.control is Some,
        rollback ==> m.previous == Some(next),
        !rollback ==> m.control->0.current.version < next.version,
    ensures
        m.switched(next, rollback).history_fits(),
{
    let after = m.switched(next, rollback);
    assert(after.history.drop_last() =~= m.history);
    assert forall|i: int| #![trigger after.history[i]] 1 <= i < after.history.len() implies {
        let last = after.history[i - 1];
        let this = after.history[i];
        &&& this.from_version == last.to_version
        &&& this.old_implementation == last.new_implementation
        &&& this.rollback ==> this.to_version == last.from_version && this.new_implementation
            == last.old_implementation
    } by {
        if i < m.history.len() {
            assert(after.history[i] == m.history[i]);
            assert(after.history[i - 1] == m.history[i - 1]);
        } else {
            assert(after.history[i - 1] == m.history.last());
        }
    }
    assert forall|i: int| #![trigger after.history[i]]
        0 <= i < after.history.len() && !after.history[i].rollback implies after.history[i].from_version
        < after.history[i].to_version by {
        if i < m.history.len() {
            assert(after.history[i] == m.history[i]);
        }
    }
    if m.history.len() > 0 {
        assert(after.history[0] == m.history[0]);
    }
}

proof fn lemma_upgrade_keeps_inv(m: ProxyModel, answers: Seq<i128>)
    requires
        m.inv(),
        m.control is Some,
        m.pending is Some,
    ensures
        m.upgraded(answers).inv(),
{
    let p = m.pending->0;
    let next = Deployment { implementation: p.new_implementation, version: p.target_version };
    lemma_switch_keeps_history(m, next, false);
    assert(m.upgraded(answers).history == m.switched(next, false).history);
    assert(m.upgraded(answers).history_fits());
}

proof fn lemma_rollback_keeps_inv(m: ProxyModel)
    requires
        m.inv(),
        m.control is Some,
        m.previous is Some,
    ensures
        m.rolled_back().inv(),
{
    lemma_switch_keeps_history(m, m.previous->0, true);
}

/// Rolling back right after an upgrade brings back the implementation and version
/// that were current before it, under the same admin.
pub proof fn law_rollback_undoes_upgrade(m: ProxyModel, answers: Seq<i128>)
    requires
        m.control is Some,
        m.pending is Some,
    ensures
        m.upgraded(answers).rolled_back().control == m.control,
        m.upgraded(answers).rolled_back().pending is None,
{
}

/// Rolling back twice changes neither the current nor the previous deployment.
pub proof fn law_rollback_twice_restores(m: ProxyModel)
    requires
        m.control is Some,
        m.previous is Some,
    ensures
        m.rolled_back().rolled_back().control == m.control,
        m.rolled_back().rolled_back().previous == m.previous,
{
}

/// A rollback leaves the state values, the version table, the pause switch and the
/// admin as they are.
pub proof fn law_rollback_keeps_the_rest(m: ProxyModel)
    requires
        m.control is Some,
        m.previous is Some,
    ensures
        m.rolled_back().state == m.state,
        m.rolled_back().versions == m.versions,
        m.rolled_back().paused == m.paused,
        m.rolled_back().control->0.admin == m.control->0.admin,
{
}

/// The history only ever grows: an upgrade or a rollback appends one record that
/// says which of the two it was, and changes no earlier one.
pub proof fn law_history_is_append_only(m: ProxyModel, answers: Seq<i128>)
    requires
        m.control is Some,
    ensures
        m.pending is Some ==> {
            &&& m.upgraded(answers).history.drop_last() == m.history
            &&& !m.upgraded(answers).history.last().rollback
        },
        m.previous is Some ==> {
            &&& m.rolled_back().history.drop_last() == m.history
            &&& m.rolled_back().history.last().rollback
        },
{
    assert(m.upgraded(answers).history.drop_last() =~= m.history);
    assert(m.rolled_back().history.drop_last() =~= m.history);
}

/// An upgrade raises the version, makes the staged implementation the one that
/// calls go to, files it under its version, and leaves the other versions filed
/// as they were.
pub proof fn law_upgrade_installs_the_staged_implementation(
    m: ProxyModel,
    answers: Seq<i128>,
    caller: Address,
    version: u32,
)
    requires
        m.inv(),
        m.control is Some,
        m.pending is Some,
    ensures
        ({
            let after = m.upgraded(answers);
            let staged = m.pending->0;
            &&& m.control->0.current.version < after.control->0.current.version
            &&& after.control->0.current.version == staged.target_version
            &&& !m.paused && caller != m.control->0.admin ==> after.forward_target(caller) == Ok::<
                Address,
                UpgradeError,
            >(staged.new_implementation)
            &&& after.versions.get(staged.target_version) == Some(staged.new_implementation)
            &&& version != staged.target_version ==> after.versions.get(version)
                == m.versions.get(version)
        }),
{
}

/// While the proxy is paused nobody's call is forwarded, and after pausing and
/// unpausing calls go where they went before.
pub proof fn law_pause_blocks_forwarding(m: ProxyModel, caller: Address)
    ensures
        m.with_paused(true).forward_target(caller) == Err::<Address, UpgradeError>(
            UpgradeError::ContractPaused,
        ),
        !m.paused ==> m.with_paused(true).with_paused(false).forward_target(caller)
            == m.forward_target(caller),
{
}

/// Pausing leaves the controls as they are: the same authorization is asked for, and an
/// upgrade or a rollback of a paused proxy does what it does otherwise.
pub proof fn law_pause_leaves_the_controls(m: ProxyModel, answers: Seq<i128>, paused: bool)
    requires
        m.control is Some,
    ensures
        admin_auth(m.with_paused(paused)) == admin_auth(m),
        m.pending is Some ==> m.with_paused(paused).upgraded(answers) == m.upgraded(
            answers,
        ).with_paused(paused),
        m.previous is Some ==> m.with_paused(paused).rolled_back() == m.rolled_back().with_paused(
            paused,
        ),
{
}

/// The admin's own calls are never forwarded.
pub proof fn law_admin_is_never_forwarded(m: ProxyModel)
    requires
        m.control is Some,
    ensures
        m.forward_target(m.control->0.admin) is Err,
{
}

/// A migration leaves every state value that no step names as it was.
pub proof fn law_migration_touches_only_named_keys(
    state: Map<Symbol, i128>,
    steps: Seq<MigrationStep>,
    answers: Seq<i128>,
    key: Symbol,
)
    requires
        forall|i: int| 0 <= i < steps.len() ==> (#[trigger] steps[i]).key != key,
    ensures
        value_at(migrated_state(state, steps, answers), key) == value_at(state, key),
    decreases steps.len(),
{
    if steps.len() > 0 {
        let init = steps.drop_last();
        assert forall|i: int| 0 <= i < init.len() implies (#[trigger] init[i]).key != key by {
            assert(init[i] == steps[i]);
        }
        law_migration_touches_only_named_keys(state, init, answers, key);
        assert(steps[steps.len() - 1].key != key);
    }
}

/// After a migration a named key holds the answer of the last step that named it.
pub proof fn law_last_step_decides(
    state: Map<Symbol, i128>,
    steps: Seq<MigrationStep>,
    answers: Seq<i128>,
    i: int,
)
    requires
        0 <= i < steps.len(),
        forall|j: int| i < j < steps.len() ==> (#[trigger] steps[j]).key != steps[i].key,
    ensures
        value_at(migrated_state(state, steps, answers), steps[i].key) == answers[i],
    decreases steps.len(),
{
    if i < steps.len() - 1 {
        let init = steps.drop_last();
        assert(init[i] == steps[i]);
        assert forall|j: int| i < j < init.len() implies (#[trigger] init[j]).key != init[i].key by {
            assert(init[j] == steps[j]);
        }
        law_last_step_decides(state, init, answers, i);
        assert(steps[steps.len() - 1].key != steps[i].key);
    }
}

} // verus!
