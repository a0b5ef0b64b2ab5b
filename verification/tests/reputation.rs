//! The reputation contract, called as its users call it.

use zaps::contracts::host::{Address, Bytes32, Effect, Env, Event};
use zaps::contracts::reputation_score::{
    apply_decay, RepError, ReputationScoreContract, DECAY_PERIOD, PERSISTENT_TTL_EXTEND,
    PERSISTENT_TTL_THRESHOLD, TTL_EXTEND, TTL_THRESHOLD,
};

fn account(n: u128) -> Address {
    Address::Account(Bytes32 { hi: 0, lo: n })
}

fn contract_address() -> Address {
    Address::Contract(Bytes32 { hi: 7, lo: 7 })
}

fn setup() -> (Env, ReputationScoreContract, Address, Address) {
    let mut env = Env::new(contract_address(), 0, 0);
    let admin = account(1);
    let reporter = account(2);
    let mut client = ReputationScoreContract::new();
    assert_eq!(client.initialize(&mut env, admin), Ok(()));
    assert_eq!(client.add_reporter(&mut env, reporter), Ok(()));
    (env, client, admin, reporter)
}

fn success(env: &mut Env, client: &mut ReputationScoreContract, reporter: Address, user: Address) {
    assert_eq!(client.record_success(env, reporter, user), Ok(()));
}

fn dispute(env: &mut Env, client: &mut ReputationScoreContract, reporter: Address, user: Address) {
    assert_eq!(client.record_dispute(env, reporter, user), Ok(()));
}

#[test]
fn test_double_init_rejected() {
    let (mut env, mut client, admin, _) = setup();
    assert_eq!(
        client.initialize(&mut env, admin),
        Err(RepError::AlreadyInitialized)
    );
}

#[test]
fn test_add_remove_reporter() {
    let (mut env, mut client, _, _) = setup();
    let r2 = account(3);
    assert!(!client.is_reporter(r2));
    assert_eq!(client.add_reporter(&mut env, r2), Ok(()));
    assert!(client.is_reporter(r2));
    assert_eq!(client.remove_reporter(&mut env, r2), Ok(()));
    assert!(!client.is_reporter(r2));
}

#[test]
fn test_add_reporter_duplicate_rejected() {
    let (mut env, mut client, _, reporter) = setup();
    assert_eq!(
        client.add_reporter(&mut env, reporter),
        Err(RepError::ReporterAlreadyAdded)
    );
}

#[test]
fn test_remove_reporter_missing_rejected() {
    let (mut env, mut client, _, _) = setup();
    let unknown = account(99);
    assert_eq!(
        client.remove_reporter(&mut env, unknown),
        Err(RepError::ReporterNotFound)
    );
}

#[test]
fn test_new_user_starts_at_neutral() {
    let (env, client, _, _) = setup();
    let user = account(10);
    assert_eq!(client.get_score(&env, user), 500);
}

#[test]
fn test_success_increases_score() {
    let (mut env, mut client, _, reporter) = setup();
    let user = account(10);
    success(&mut env, &mut client, reporter, user);
    assert_eq!(client.get_score(&env, user), 510);
    success(&mut env, &mut client, reporter, user);
    assert_eq!(client.get_score(&env, user), 520);
}

#[test]
fn test_dispute_decreases_score() {
    let (mut env, mut client, _, reporter) = setup();
    let user = account(10);
    dispute(&mut env, &mut client, reporter, user);
    assert_eq!(client.get_score(&env, user), 450);
}

#[test]
fn test_score_capped_at_max() {
    let (mut env, mut client, _, reporter) = setup();
    let user = account(10);
    // 50 successes from 500 = 500 + 50*10 = 1000
    for _ in 0..60 {
        success(&mut env, &mut client, reporter, user);
    }
    assert_eq!(client.get_score(&env, user), 1000);
}

#[test]
fn test_score_floored_at_zero() {
    let (mut env, mut client, _, reporter) = setup();
    let user = account(10);
    // 10 disputes from 500 = 500 - 10*50 = 0
    for _ in 0..15 {
        dispute(&mut env, &mut client, reporter, user);
    }
    assert_eq!(client.get_score(&env, user), 0);
}

#[test]
fn test_tx_counts_tracked() {
    let (mut env, mut client, _, reporter) = setup();
    let user = account(10);
    success(&mut env, &mut client, reporter, user);
    success(&mut env, &mut client, reporter, user);
    dispute(&mut env, &mut client, reporter, user);
    let rec = client.get_record(&env, user);
    assert_eq!(rec.tx_success, 2);
    assert_eq!(rec.tx_disputed, 1);
}

#[test]
fn test_unauthorized_reporter_rejected() {
    let (mut env, mut client, _, _) = setup();
    let fake_reporter = account(66);
    let user = account(10);
    assert_eq!(
        client.record_success(&mut env, fake_reporter, user),
        Err(RepError::Unauthorized)
    );
    assert_eq!(
        client.record_dispute(&mut env, fake_reporter, user),
        Err(RepError::Unauthorized)
    );
}

#[test]
fn test_decay_moves_high_score_toward_neutral() {
    let (mut env, mut client, _, reporter) = setup();
    let user = account(10);

    // Push score to 1000
    for _ in 0..50 {
        success(&mut env, &mut client, reporter, user);
    }
    assert_eq!(client.get_score(&env, user), 1000);

    // Advance ledger by one decay period (17_280 ledgers)
    env.sequence += 17_280;

    // After 1 period: 1000 + (500 - 1000) / 100 = 1000 - 5 = 995
    assert_eq!(client.get_score(&env, user), 995);
}

#[test]
fn test_decay_moves_low_score_toward_neutral() {
    let (mut env, mut client, _, reporter) = setup();
    let user = account(10);

    // Push score to 0
    for _ in 0..10 {
        dispute(&mut env, &mut client, reporter, user);
    }
    assert_eq!(client.get_score(&env, user), 0);

    env.sequence += 17_280;

    // After 1 period: 0 + (500 - 0) / 100 = 5
    assert_eq!(client.get_score(&env, user), 5);
}

#[test]
fn test_decay_neutral_score_unchanged() {
    let (mut env, client, _, _) = setup();
    let user = account(10);

    // Score is neutral (500) — decay should not change it
    env.sequence += 17_280 * 10;
    assert_eq!(client.get_score(&env, user), 500);
}

#[test]
fn test_decay_does_not_write_on_get() {
    let (mut env, mut client, _, reporter) = setup();
    let user = account(10);
    success(&mut env, &mut client, reporter, user);

    let ledger_before = env.sequence;
    env.sequence += 17_280;

    // get_score is read-only; stored last_updated should still be ledger_before
    let rec = client.get_record(&env, user);
    assert_eq!(rec.last_updated, ledger_before);
}

#[test]
fn test_multi_period_decay() {
    let (mut env, mut client, _, reporter) = setup();
    let user = account(10);

    for _ in 0..50 {
        success(&mut env, &mut client, reporter, user);
    }
    assert_eq!(client.get_score(&env, user), 1000);

    // 5 periods
    env.sequence += 17_280 * 5;

    // Period 1: 1000 + (500-1000)/100 = 1000 - 5 = 995
    // Period 2: 995 + (500-995)/100 = 995 - 4 = 991  (integer: -4.95 → -4)
    // Period 3: 991 + (500-991)/100 = 991 - 4 = 987
    // Period 4: 987 + (500-987)/100 = 987 - 4 = 983
    // Period 5: 983 + (500-983)/100 = 983 - 4 = 979
    assert_eq!(client.get_score(&env, user), 979);
}

#[test]
fn test_transfer_admin() {
    let (mut env, mut client, _, _) = setup();
    let new_admin = account(5);
    assert_eq!(client.transfer_admin(&mut env, new_admin), Ok(()));

    // From now on the new admin's authorization is asked for.
    let before = env.effects.len();
    assert_eq!(client.add_reporter(&mut env, account(6)), Ok(()));
    assert_eq!(env.effects[before], Effect::RequireAuth(new_admin));
}

#[test]
fn uninitialized_contract_refuses_its_controls() {
    let mut env = Env::new(contract_address(), 0, 0);
    let mut client = ReputationScoreContract::new();
    assert_eq!(
        client.add_reporter(&mut env, account(2)),
        Err(RepError::NotInitialized)
    );
    assert_eq!(
        client.remove_reporter(&mut env, account(2)),
        Err(RepError::NotInitialized)
    );
    assert_eq!(
        client.transfer_admin(&mut env, account(2)),
        Err(RepError::NotInitialized)
    );
    assert_eq!(
        client.upgrade(&mut env, Bytes32 { hi: 1, lo: 2 }),
        Err(RepError::NotInitialized)
    );
    assert!(env.effects.is_empty());
}

#[test]
fn reports_ask_for_authorization_and_publish_the_score() {
    let (mut env, mut client, _, reporter) = setup();
    let user = account(10);
    env.effects.clear();
    success(&mut env, &mut client, reporter, user);
    assert_eq!(env.effects.first(), Some(&Effect::RequireAuth(reporter)));
    assert!(env.effects.contains(&Effect::ExtendRecordTtl {
        user,
        threshold: PERSISTENT_TTL_THRESHOLD,
        extend_to: PERSISTENT_TTL_EXTEND,
    }));
    assert!(env
        .effects
        .contains(&Effect::Publish(Event::SuccessRecorded { user, score: 510 })));

    env.effects.clear();
    dispute(&mut env, &mut client, reporter, user);
    assert!(env
        .effects
        .contains(&Effect::Publish(Event::DisputeRecorded { user, score: 460 })));
}

#[test]
fn initialization_authorizes_the_admin_and_prolongs_the_instance() {
    let mut env = Env::new(contract_address(), 0, 0);
    let mut client = ReputationScoreContract::new();
    assert_eq!(client.initialize(&mut env, account(1)), Ok(()));
    assert_eq!(
        env.effects,
        vec![
            Effect::RequireAuth(account(1)),
            Effect::ExtendInstanceTtl {
                threshold: TTL_THRESHOLD,
                extend_to: TTL_EXTEND
            },
        ]
    );
}

#[test]
fn upgrade_asks_for_the_new_code() {
    let (mut env, client, admin, _) = setup();
    env.effects.clear();
    let hash = Bytes32 { hi: 3, lo: 4 };
    assert_eq!(client.upgrade(&mut env, hash), Ok(()));
    assert_eq!(
        env.effects,
        vec![Effect::RequireAuth(admin), Effect::UpdateWasm(hash)]
    );
}

#[test]
fn reports_touch_one_record_only() {
    let (mut env, mut client, _, reporter) = setup();
    dispute(&mut env, &mut client, reporter, account(10));
    success(&mut env, &mut client, reporter, account(11));
    assert_eq!(client.get_score(&env, account(10)), 450);
    assert_eq!(client.get_score(&env, account(11)), 510);
    assert_eq!(client.get_score(&env, account(12)), 500);
}

#[test]
fn decay_by_hand() {
    // Less than a period, or a ledger in the past, changes nothing.
    assert_eq!(apply_decay(900, 100, 100), 900);
    assert_eq!(apply_decay(900, 100, 99), 900);
    assert_eq!(apply_decay(900, 0, DECAY_PERIOD - 1), 900);
    // One percent of the distance to neutral, and one point at least.
    assert_eq!(apply_decay(900, 0, DECAY_PERIOD), 896);
    assert_eq!(apply_decay(501, 0, DECAY_PERIOD), 500);
    assert_eq!(apply_decay(499, 0, DECAY_PERIOD), 500);
    assert_eq!(apply_decay(500, 0, 1000 * DECAY_PERIOD), 500);
    // Two stretches of decay are one.
    let once = apply_decay(0, 0, 3 * DECAY_PERIOD);
    assert_eq!(once, 13);
    assert_eq!(apply_decay(once, 0, 2 * DECAY_PERIOD), apply_decay(0, 0, 5 * DECAY_PERIOD));
    // In the end every score is neutral.
    assert_eq!(apply_decay(1000, 0, 1000 * DECAY_PERIOD), 500);
    assert_eq!(apply_decay(0, 0, 1000 * DECAY_PERIOD), 500);
    // A higher score stays at least as high.
    assert!(apply_decay(700, 0, 20 * DECAY_PERIOD) <= apply_decay(800, 0, 20 * DECAY_PERIOD));
}

#[test]
fn decay_is_kept_by_the_next_report() {
    let (mut env, mut client, _, reporter) = setup();
    let user = account(10);
    for _ in 0..10 {
        dispute(&mut env, &mut client, reporter, user);
    }
    env.sequence += DECAY_PERIOD;
    success(&mut env, &mut client, reporter, user);
    let rec = client.get_record(&env, user);
    assert_eq!(rec.score, 15);
    assert_eq!(rec.last_updated, DECAY_PERIOD);
}

#[test]
fn error_codes_of_the_reputation_contract() {
    let codes: Vec<u32> = [
        RepError::AlreadyInitialized,
        RepError::NotInitialized,
        RepError::Unauthorized,
        RepError::ReporterAlreadyAdded,
        RepError::ReporterNotFound,
    ]
    .iter()
    .map(|e| e.code())
    .collect();
    assert_eq!(codes, vec![1, 2, 3, 4, 5]);
}

#[test]
fn topics_of_the_events() {
    assert_eq!(
        Event::ReporterAdded { reporter: account(1) }.topics(),
        ("rep", "rptr_add")
    );
    assert_eq!(
        Event::AdminTransferred { new_admin: account(1) }.topics(),
        ("rep", "adm_xfer")
    );
}
