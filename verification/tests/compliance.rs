//! Screening of transactions.

use zaps::backend::api_error::ApiError;
use zaps::backend::compliance::{
    assess, screening_decision, within_transaction_limit, AssessmentStep, ComplianceConfig,
    ComplianceService, RiskLevel, RiskThresholds, SanctionsApiResponse, Transaction,
    TransactionRiskAssessment, VelocityLimits,
};

fn thresholds() -> RiskThresholds {
    RiskThresholds {
        high_risk_amount: 10_000,
        medium_risk_amount: 1_000,
        suspicious_patterns: vec!["MIX".to_string(), String::new(), "DARK".to_string()],
    }
}

fn service(url: &str, key: &str) -> ComplianceService {
    ComplianceService::new(ComplianceConfig {
        sanctions_api_url: url.to_string(),
        sanctions_api_key: key.to_string(),
        velocity_limits: VelocityLimits {
            max_transaction_amount: 50_000,
            daily_transaction_limit: 100_000,
            monthly_transaction_limit: 500_000,
        },
        risk_thresholds: thresholds(),
    })
}

fn configured() -> ComplianceService {
    service("https://sanctions.test/v1", "secret")
}

fn clean() -> SanctionsApiResponse {
    SanctionsApiResponse {
        sanctioned: false,
        risk_score: None,
        reasons: Vec::new(),
    }
}

fn transaction(amount: i64) -> Transaction {
    Transaction {
        user_id: "alice".to_string(),
        address: "GABC".to_string(),
        amount,
    }
}

fn stored(step: AssessmentStep) -> TransactionRiskAssessment {
    match step {
        AssessmentStep::Store { id, assessment } => {
            assert_eq!((id >> 76) & 0xf, 4);
            assert_eq!((id >> 62) & 3, 2);
            assessment
        }
        other => panic!("{:?}", other),
    }
}

fn refused(step: AssessmentStep) -> String {
    match step {
        AssessmentStep::Finish(Err(ApiError::Compliance(text))) => text,
        other => panic!("{:?}", other),
    }
}

#[test]
fn nothing_wrong_is_low_risk() {
    let a = assess(&thresholds(), "alice", "GABC", 999, clean(), true);
    assert_eq!(a.user_id, "alice");
    assert_eq!(a.address, "GABC");
    assert_eq!(a.amount, 999);
    assert_eq!(a.risk_score, 0);
    assert_eq!(a.risk_level, RiskLevel::Low);
    assert!(!a.sanctions_match);
    assert!(!a.velocity_limit_exceeded);
    assert!(a.reasons.is_empty());
}

#[test]
fn amounts_weigh_in_steps() {
    let medium = assess(&thresholds(), "a", "G", 1_000, clean(), true);
    assert_eq!(medium.risk_score, 45);
    assert_eq!(medium.risk_level, RiskLevel::Medium);
    assert_eq!(medium.reasons, vec!["medium_value_transaction"]);

    let high = assess(&thresholds(), "a", "G", 10_000, clean(), true);
    assert_eq!(high.risk_score, 80);
    assert_eq!(high.risk_level, RiskLevel::High);
    assert_eq!(high.reasons, vec!["high_value_transaction"]);

    // A negative amount is read as a huge one.
    let negative = assess(&thresholds(), "a", "G", -1, clean(), true);
    assert_eq!(negative.risk_score, 80);
}

#[test]
fn velocity_and_patterns_weigh() {
    let fast = assess(&thresholds(), "a", "G", 1, clean(), false);
    assert_eq!(fast.risk_score, 75);
    assert_eq!(fast.risk_level, RiskLevel::High);
    assert!(fast.velocity_limit_exceeded);
    assert_eq!(fast.reasons, vec!["velocity_limit_exceeded"]);

    let odd = assess(&thresholds(), "a", "GDARKMIX", 1, clean(), true);
    assert_eq!(odd.risk_score, 70);
    assert_eq!(odd.risk_level, RiskLevel::Medium);
    assert_eq!(
        odd.reasons,
        vec!["suspicious_pattern:MIX", "suspicious_pattern:DARK"]
    );
}

#[test]
fn sanctions_block_and_reasons_keep_their_order() {
    let sanctions = SanctionsApiResponse {
        sanctioned: true,
        risk_score: Some(20),
        reasons: vec!["listed".to_string()],
    };
    let a = assess(&thresholds(), "a", "GMIX", 20_000, sanctions, false);
    assert_eq!(a.risk_score, 100);
    assert_eq!(a.risk_level, RiskLevel::Blocked);
    assert!(a.sanctions_match);
    assert_eq!(
        a.reasons,
        vec![
            "listed",
            "sanctions_match",
            "high_value_transaction",
            "velocity_limit_exceeded",
            "suspicious_pattern:MIX"
        ]
    );
}

#[test]
fn provider_score_counts() {
    let with = |score| SanctionsApiResponse {
        sanctioned: false,
        risk_score: Some(score),
        reasons: Vec::new(),
    };
    let level = |score| assess(&thresholds(), "a", "G", 0, with(score), true).risk_level;
    assert_eq!(level(39), RiskLevel::Low);
    assert_eq!(level(40), RiskLevel::Medium);
    assert_eq!(level(74), RiskLevel::Medium);
    assert_eq!(level(75), RiskLevel::High);
    assert_eq!(assess(&thresholds(), "a", "G", 0, with(255), true).risk_score, 255);
}

#[test]
fn velocity_limits() {
    let s = configured();
    assert!(s.check_velocity_limits(50_000, 0, 0));
    assert!(!s.check_velocity_limits(50_001, 0, 0));
    assert!(!s.check_velocity_limits(-1, 0, 0));
    assert!(s.check_velocity_limits(10, 99_990, 0));
    assert!(!s.check_velocity_limits(10, 99_991, 0));
    assert!(s.check_velocity_limits(10, 0, 499_990));
    assert!(!s.check_velocity_limits(10, 0, 499_991));
    // A sum that does not fit is too large.
    assert!(!s.check_velocity_limits(10, i64::MAX, 0));
    // Whoever may move an amount may move a smaller one.
    assert!(s.check_velocity_limits(9, 99_990, 499_990));
    assert!(within_transaction_limit(&s.config.velocity_limits, 0));
    assert!(!within_transaction_limit(&s.config.velocity_limits, i64::MIN));
}

#[test]
fn limits_beyond_the_signed_range_are_negative() {
    let mut s = configured();
    s.config.velocity_limits.daily_transaction_limit = u64::MAX;
    assert!(!s.check_velocity_limits(0, 0, 0));
    assert!(s.check_velocity_limits(0, -1, 0));
}

#[test]
fn screening_asks_the_provider_and_sums_up() {
    let s = configured();
    let (t, query) = match s.assess_transaction_risk(transaction(500)) {
        AssessmentStep::Screen { transaction, query } => (transaction, query),
        other => panic!("{:?}", other),
    };
    assert_eq!(query.url, "https://sanctions.test/v1");
    assert_eq!(query.key, "secret");
    assert_eq!(query.address, "GABC");
    let t = match s.screened(t, Ok((200, "200 OK".to_string()))) {
        AssessmentStep::ReadAnswer { transaction } => transaction,
        other => panic!("{:?}", other),
    };
    let (t, sanctions) = match s.answered(t, Ok(clean())) {
        AssessmentStep::SumDay {
            transaction,
            sanctions,
            user_id,
        } => {
            assert_eq!(user_id, "alice");
            (transaction, sanctions)
        }
        other => panic!("{:?}", other),
    };
    let (t, sanctions, daily) = match s.day_summed(t, sanctions, Ok(99_600)) {
        AssessmentStep::SumMonth {
            transaction,
            sanctions,
            daily_total,
            user_id,
        } => {
            assert_eq!(user_id, "alice");
            (transaction, sanctions, daily_total)
        }
        other => panic!("{:?}", other),
    };
    assert_eq!(daily, 99_600);
    let a = stored(s.month_summed(t, sanctions, daily, Ok(99_600)));
    assert!(a.velocity_limit_exceeded);
    assert_eq!(a.risk_level, RiskLevel::High);
    match ComplianceService::assessment_stored(a, Ok(())) {
        AssessmentStep::Finish(Ok(a)) => assert_eq!(a.amount, 500),
        other => panic!("{:?}", other),
    }
}

#[test]
fn without_a_provider_nothing_is_blocked() {
    for s in [
        service("https://api.example.com/check", "secret"),
        service("https://sanctions.test", "api-key"),
    ] {
        let (t, sanctions) = match s.assess_transaction_risk(transaction(5)) {
            AssessmentStep::SumDay {
                transaction,
                sanctions,
                ..
            } => (transaction, sanctions),
            other => panic!("{:?}", other),
        };
        let a = stored(s.month_summed(t, sanctions, 0, Ok(0)));
        assert_eq!(a.risk_level, RiskLevel::Low);
        assert_eq!(a.reasons, vec!["sanctions_provider_not_configured"]);
    }
}

#[test]
fn amounts_out_of_range_are_not_summed_up() {
    let s = configured();
    let a = stored(s.answered(transaction(50_001), Ok(clean())));
    assert!(a.velocity_limit_exceeded);
    assert_eq!(a.risk_score, 80);
    assert_eq!(
        a.reasons,
        vec!["high_value_transaction", "velocity_limit_exceeded"]
    );
}

#[test]
fn provider_failures_end_the_screening() {
    let s = configured();
    assert_eq!(
        refused(s.screened(transaction(1), Err("timed out".to_string()))),
        "Sanctions screening failed: timed out"
    );
    for code in [199, 300, 503] {
        assert_eq!(
            refused(s.screened(transaction(1), Ok((code, "503 Service Unavailable".to_string())))),
            "Sanctions provider returned 503 Service Unavailable"
        );
    }
    assert_eq!(
        refused(s.answered(transaction(1), Err("expected value".to_string()))),
        "Invalid sanctions response: expected value"
    );
}

#[test]
fn storage_failures_end_the_screening() {
    let s = configured();
    let failed = |step| {
        assert!(matches!(
            step,
            AssessmentStep::Finish(Err(ApiError::InternalServerError))
        ))
    };
    failed(s.day_summed(transaction(1), clean(), Err(ApiError::InternalServerError)));
    failed(s.month_summed(transaction(1), clean(), 0, Err(ApiError::InternalServerError)));
    let a = stored(s.month_summed(transaction(1), clean(), 0, Ok(0)));
    failed(ComplianceService::assessment_stored(
        a,
        Err(ApiError::InternalServerError),
    ));
}

#[test]
fn address_alone_is_screened_as_nothing_by_nobody() {
    let s = configured();
    match s.check_sanctions("GXYZ".to_string()) {
        AssessmentStep::Screen { transaction, query } => {
            assert_eq!(transaction.user_id, "unknown");
            assert_eq!(transaction.address, "GXYZ");
            assert_eq!(query.address, "GXYZ");
            assert_eq!(transaction.amount, 0);
        }
        other => panic!("{:?}", other),
    }
    let sanctions = SanctionsApiResponse {
        sanctioned: true,
        risk_score: None,
        reasons: Vec::new(),
    };
    let a = assess(&thresholds(), "unknown", "GXYZ", 0, sanctions, true);
    assert!(matches!(ComplianceService::sanctions_found(Ok(a)), Ok(true)));
    let a = assess(&thresholds(), "unknown", "GXYZ", 0, clean(), true);
    assert!(matches!(ComplianceService::sanctions_found(Ok(a)), Ok(false)));
    assert!(ComplianceService::sanctions_found(Err(ApiError::InternalServerError)).is_err());
}

#[test]
fn identifiers_of_assessments_differ() {
    let s = configured();
    let id = || match s.month_summed(transaction(1), clean(), 0, Ok(0)) {
        AssessmentStep::Store { id, .. } => id,
        other => panic!("{:?}", other),
    };
    assert_ne!(id(), id());
}

#[test]
fn decisions_have_names() {
    assert_eq!(screening_decision(&RiskLevel::Blocked), "blocked");
    assert_eq!(screening_decision(&RiskLevel::High), "flagged");
    assert_eq!(screening_decision(&RiskLevel::Medium), "approved");
    assert_eq!(screening_decision(&RiskLevel::Low), "approved");
}
