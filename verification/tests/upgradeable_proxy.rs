//! The upgradeable proxy, with small implementations to forward to.

use zaps::contracts::host::{Address, Bytes32, Effect, Env, Symbol};
use zaps::contracts::upgradeable_proxy::{
    Invocation, MigrationCall, MigrationScript, MigrationStep, UpgradeError, UpgradeableProxy,
};

fn account(n: u128) -> Address {
    Address::Account(Bytes32 { hi: 0, lo: n })
}

fn deployed(n: u128) -> Address {
    Address::Contract(Bytes32 { hi: 0, lo: n })
}

fn symbol(text: &str) -> Symbol {
    let mut bytes = [0u8; 32];
    bytes[..text.len()].copy_from_slice(text.as_bytes());
    let mut hi = [0u8; 16];
    let mut lo = [0u8; 16];
    hi.copy_from_slice(&bytes[..16]);
    lo.copy_from_slice(&bytes[16..]);
    Symbol {
        text: Bytes32 {
            hi: u128::from_be_bytes(hi),
            lo: u128::from_be_bytes(lo),
        },
    }
}

fn logic_v1() -> Address {
    deployed(101)
}

fn logic_v2() -> Address {
    deployed(102)
}

fn additive_migrator() -> Address {
    deployed(200)
}

/// The implementations: `ping` answers with one more, or with two more.
fn invoke(call: Invocation<u32>) -> u32 {
    assert_eq!(call.method, symbol("ping"));
    if call.contract == logic_v1() {
        call.args + 1
    } else if call.contract == logic_v2() {
        call.args + 2
    } else {
        panic!("no contract at {:?}", call.contract)
    }
}

/// The migration scripts: one that adds its data to the value. It notes its calls.
struct Scripts {
    calls: Vec<MigrationCall>,
}

impl MigrationScript for Scripts {
    fn migrate(
        mut self,
        script: Address,
        key: Symbol,
        current_value: i128,
        data: i128,
        from_version: u32,
        to_version: u32,
    ) -> (Self, i128) {
        assert_eq!(script, additive_migrator());
        let migrated = current_value + data;
        self.calls.push(MigrationCall {
            script,
            key,
            current_value,
            data,
            from_version,
            to_version,
            migrated,
        });
        (self, migrated)
    }
}

fn scripts() -> Scripts {
    Scripts {
        calls: Vec::new(),
    }
}

fn setup() -> (Env, UpgradeableProxy, Address) {
    let env = Env::new(deployed(1), 0, 0);
    (env, UpgradeableProxy::new(), account(1))
}

#[test]
fn test_forward_uses_current_implementation() {
    let (mut env, mut proxy, admin) = setup();
    let v1 = logic_v1();
    let user = account(2);

    assert_eq!(proxy.initialize(&mut env, admin, v1, 1), Ok(()));

    let call = proxy.forward(&mut env, user, symbol("ping"), 10u32).ok().unwrap();
    let decoded = invoke(call);
    assert_eq!(decoded, 11);
}

#[test]
fn test_upgrade_with_migration_tracks_version_and_preserves_state() {
    let (mut env, mut proxy, admin) = setup();
    let v1 = logic_v1();
    let v2 = logic_v2();
    let migrator = additive_migrator();
    let user = account(2);
    let counter = symbol("counter");

    assert_eq!(proxy.initialize(&mut env, admin, v1, 1), Ok(()));
    assert_eq!(proxy.set_state_value(&mut env, counter, 100), Ok(()));

    let steps = vec![MigrationStep {
        key: counter,
        script: migrator,
        data: 25,
    }];

    assert_eq!(proxy.stage_upgrade(&mut env, v2, 2, steps), Ok(()));
    assert_eq!(proxy.execute_upgrade(&mut env, scripts()).0, Ok(()));

    assert_eq!(proxy.current_version(), Ok(2));
    assert_eq!(proxy.current_implementation(), Ok(v2));
    assert_eq!(proxy.implementation_for_version(1), Some(v1));
    assert_eq!(proxy.implementation_for_version(2), Some(v2));
    assert_eq!(proxy.get_state_value(counter), 125);

    let call = proxy.forward(&mut env, user, symbol("ping"), 10u32).ok().unwrap();
    let decoded = invoke(call);
    assert_eq!(decoded, 12);
}

#[test]
fn test_only_admin_is_authorized_for_upgrade_controls() {
    let (mut env, mut proxy, admin) = setup();
    let non_admin = account(3);

    assert_eq!(proxy.initialize(&mut env, admin, logic_v1(), 1), Ok(()));
    env.effects.clear();
    assert_eq!(proxy.stage_upgrade(&mut env, logic_v2(), 2, Vec::new()), Ok(()));

    let auths: Vec<Address> = env
        .effects
        .iter()
        .filter_map(|e| match e {
            Effect::RequireAuth(a) => Some(*a),
            _ => None,
        })
        .collect();
    assert!(!auths.is_empty(), "expected auth entries");
    let auth_addr = &auths[0];
    assert_eq!(*auth_addr, admin);
    assert_ne!(*auth_addr, non_admin);
}

#[test]
fn test_rollback_restores_previous_version() {
    let (mut env, mut proxy, admin) = setup();
    let v1 = logic_v1();
    let v2 = logic_v2();
    let user = account(2);

    assert_eq!(proxy.initialize(&mut env, admin, v1, 1), Ok(()));
    assert_eq!(proxy.stage_upgrade(&mut env, v2, 2, Vec::new()), Ok(()));
    assert_eq!(proxy.execute_upgrade(&mut env, scripts()).0, Ok(()));

    assert_eq!(proxy.current_version(), Ok(2));
    assert_eq!(proxy.rollback(&mut env), Ok(()));
    assert_eq!(proxy.current_version(), Ok(1));
    assert_eq!(proxy.current_implementation(), Ok(v1));

    let call = proxy.forward(&mut env, user, symbol("ping"), 10u32).ok().unwrap();
    let decoded = invoke(call);
    assert_eq!(decoded, 11);

    let history = proxy.get_upgrade_history();
    assert_eq!(history.len(), 2);
    assert!(!history.get(0).unwrap().rollback);
    assert!(history.get(1).unwrap().rollback);
}

#[test]
fn test_emergency_pause_blocks_forwarding() {
    let (mut env, mut proxy, admin) = setup();
    let user = account(2);

    assert_eq!(proxy.initialize(&mut env, admin, logic_v1(), 1), Ok(()));
    assert_eq!(proxy.pause(&mut env), Ok(()));

    let paused_result = proxy.forward(&mut env, user, symbol("ping"), 5u32);
    assert!(matches!(paused_result, Err(UpgradeError::ContractPaused)));

    assert_eq!(proxy.unpause(&mut env), Ok(()));
    let call = proxy.forward(&mut env, user, symbol("ping"), 5u32).ok().unwrap();
    let decoded = invoke(call);
    assert_eq!(decoded, 6);
}

#[test]
fn test_admin_cannot_use_fallback_calls() {
    let (mut env, mut proxy, admin) = setup();
    assert_eq!(proxy.initialize(&mut env, admin, logic_v1(), 1), Ok(()));

    let result = proxy.forward(&mut env, admin, symbol("ping"), 1u32);
    assert!(matches!(result, Err(UpgradeError::AdminCannotFallback)));
}

#[test]
fn test_execute_upgrade_requires_pending_upgrade() {
    let (mut env, mut proxy, admin) = setup();
    assert_eq!(proxy.initialize(&mut env, admin, logic_v1(), 1), Ok(()));

    let result = proxy.execute_upgrade(&mut env, scripts()).0;
    assert_eq!(result, Err(UpgradeError::NoPendingUpgrade));
}

#[test]
fn initialization_happens_once_and_with_a_version() {
    let (mut env, mut proxy, admin) = setup();
    assert_eq!(
        proxy.initialize(&mut env, admin, logic_v1(), 0),
        Err(UpgradeError::InvalidVersion)
    );
    assert_eq!(proxy.get_admin(), Err(UpgradeError::NotInitialized));
    assert_eq!(proxy.initialize(&mut env, admin, logic_v1(), 1), Ok(()));
    assert_eq!(proxy.get_admin(), Ok(admin));
    assert_eq!(
        proxy.initialize(&mut env, account(9), logic_v2(), 2),
        Err(UpgradeError::AlreadyInitialized)
    );
    assert_eq!(proxy.get_admin(), Ok(admin));
}

#[test]
fn uninitialized_proxy_refuses_its_controls() {
    let (mut env, mut proxy, _) = setup();
    assert_eq!(proxy.pause(&mut env), Err(UpgradeError::NotInitialized));
    assert_eq!(proxy.unpause(&mut env), Err(UpgradeError::NotInitialized));
    assert_eq!(proxy.rollback(&mut env), Err(UpgradeError::NotInitialized));
    assert_eq!(
        proxy.transfer_admin(&mut env, account(4)),
        Err(UpgradeError::NotInitialized)
    );
    assert_eq!(
        proxy.set_state_value(&mut env, symbol("k"), 1),
        Err(UpgradeError::NotInitialized)
    );
    assert_eq!(
        proxy.stage_upgrade(&mut env, logic_v2(), 2, Vec::new()),
        Err(UpgradeError::NotInitialized)
    );
    assert_eq!(
        proxy.execute_upgrade(&mut env, scripts()).0,
        Err(UpgradeError::NotInitialized)
    );
    assert_eq!(proxy.current_version(), Err(UpgradeError::NotInitialized));
    assert_eq!(
        proxy.current_implementation(),
        Err(UpgradeError::NotInitialized)
    );
    assert_eq!(proxy.get_state_value(symbol("k")), 0);
    assert!(proxy.get_pending_upgrade().is_none());
}

#[test]
fn staging_needs_a_higher_version_and_a_free_place() {
    let (mut env, mut proxy, admin) = setup();
    assert_eq!(proxy.initialize(&mut env, admin, logic_v1(), 5), Ok(()));
    assert_eq!(
        proxy.stage_upgrade(&mut env, logic_v2(), 5, Vec::new()),
        Err(UpgradeError::InvalidVersion)
    );
    assert_eq!(proxy.stage_upgrade(&mut env, logic_v2(), 6, Vec::new()), Ok(()));
    let pending = proxy.get_pending_upgrade().unwrap();
    assert_eq!(pending.from_version, 5);
    assert_eq!(pending.target_version, 6);
    assert_eq!(pending.old_implementation, logic_v1());
    assert_eq!(pending.new_implementation, logic_v2());
    assert_eq!(
        proxy.stage_upgrade(&mut env, logic_v2(), 7, Vec::new()),
        Err(UpgradeError::PendingUpgradeExists)
    );
}

#[test]
fn rollback_needs_an_upgrade_and_undoes_itself() {
    let (mut env, mut proxy, admin) = setup();
    assert_eq!(proxy.initialize(&mut env, admin, logic_v1(), 1), Ok(()));
    assert_eq!(
        proxy.rollback(&mut env),
        Err(UpgradeError::NoRollbackAvailable)
    );
    assert_eq!(proxy.stage_upgrade(&mut env, logic_v2(), 2, Vec::new()), Ok(()));
    assert_eq!(proxy.execute_upgrade(&mut env, scripts()).0, Ok(()));
    assert_eq!(proxy.rollback(&mut env), Ok(()));
    assert_eq!(proxy.rollback(&mut env), Ok(()));
    assert_eq!(proxy.current_version(), Ok(2));
    assert_eq!(proxy.current_implementation(), Ok(logic_v2()));
    assert_eq!(proxy.get_upgrade_history().len(), 3);
}

#[test]
fn migrations_run_in_order_on_the_named_keys() {
    let (mut env, mut proxy, admin) = setup();
    let (a, b, c) = (symbol("a"), symbol("b"), symbol("c"));
    assert_eq!(proxy.initialize(&mut env, admin, logic_v1(), 1), Ok(()));
    assert_eq!(proxy.set_state_value(&mut env, a, 1), Ok(()));
    assert_eq!(proxy.set_state_value(&mut env, c, 7), Ok(()));
    let step = |key, data| MigrationStep {
        key,
        script: additive_migrator(),
        data,
    };
    assert_eq!(
        proxy.stage_upgrade(&mut env, logic_v2(), 2, vec![step(a, 10), step(b, 5), step(a, -3)]),
        Ok(())
    );
    let (result, done) = proxy.execute_upgrade(&mut env, scripts());
    assert_eq!(result, Ok(()));
    let call = |key, current_value, data| MigrationCall {
        script: additive_migrator(),
        key,
        current_value,
        data,
        from_version: 1,
        to_version: 2,
        migrated: current_value + data,
    };
    assert_eq!(
        done.calls,
        vec![call(a, 1, 10), call(b, 0, 5), call(a, 11, -3)]
    );
    assert_eq!(proxy.get_state_value(a), 8);
    assert_eq!(proxy.get_state_value(b), 5);
    assert_eq!(proxy.get_state_value(c), 7);
    assert!(proxy.get_pending_upgrade().is_none());
}

#[test]
fn paused_proxy_can_be_upgraded_and_rolled_back() {
    let (mut env, mut proxy, admin) = setup();
    assert_eq!(proxy.initialize(&mut env, admin, logic_v1(), 1), Ok(()));
    assert_eq!(proxy.pause(&mut env), Ok(()));
    assert_eq!(proxy.stage_upgrade(&mut env, logic_v2(), 2, Vec::new()), Ok(()));
    env.effects.clear();
    assert_eq!(proxy.execute_upgrade(&mut env, scripts()).0, Ok(()));
    assert_eq!(env.effects, vec![Effect::RequireAuth(admin)]);
    assert_eq!(proxy.current_version(), Ok(2));
    assert_eq!(proxy.rollback(&mut env), Ok(()));
    assert_eq!(proxy.current_version(), Ok(1));
    assert!(proxy.is_paused());
}

#[test]
fn new_admin_takes_over() {
    let (mut env, mut proxy, admin) = setup();
    assert_eq!(proxy.initialize(&mut env, admin, logic_v1(), 1), Ok(()));
    assert_eq!(proxy.transfer_admin(&mut env, account(8)), Ok(()));
    assert_eq!(proxy.get_admin(), Ok(account(8)));
    env.effects.clear();
    assert_eq!(proxy.pause(&mut env), Ok(()));
    assert!(proxy.is_paused());
    assert_eq!(env.effects, vec![Effect::RequireAuth(account(8))]);
    // The old admin is a caller like any other now.
    assert_eq!(proxy.unpause(&mut env), Ok(()));
    assert!(proxy.forward(&mut env, admin, symbol("ping"), 1u32).is_ok());
}

#[test]
fn error_codes_of_the_proxy() {
    let codes: Vec<u32> = [
        UpgradeError::AlreadyInitialized,
        UpgradeError::NotInitialized,
        UpgradeError::ContractPaused,
        UpgradeError::AdminCannotFallback,
        UpgradeError::InvalidVersion,
        UpgradeError::PendingUpgradeExists,
        UpgradeError::NoPendingUpgrade,
        UpgradeError::NoRollbackAvailable,
    ]
    .iter()
    .map(|e| e.code())
    .collect();
    assert_eq!(codes, vec![1, 2, 3, 4, 5, 6, 7, 8]);
}
