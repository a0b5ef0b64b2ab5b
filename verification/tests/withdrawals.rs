//! Withdrawals, step by step.

use zaps::backend::api_error::ApiError;
use zaps::backend::compliance::{
    assess, RiskThresholds, SanctionsApiResponse, TransactionRiskAssessment,
};
use zaps::backend::transfers::BusinessEvent;
use zaps::backend::withdrawals::{
    anchor_labelled, anchor_polled, create_withdrawal, get_withdrawal, get_withdrawal_status,
    initiate_sep31_payout, kyc_checked, record_found, sep31_payout_initiated, status_updated,
    url_obtained, wallet_found, withdrawal_assessed, withdrawal_key, withdrawal_recorded,
    CreateWithdrawalRequest, InitiateSep31PayoutRequest, KycStatus, Sep24Interactive,
    Sep31Payout, StatusStep, Timestamp, WithdrawalOrder, WithdrawalRecord, WithdrawalStep,
};

const ID: u128 = 0x0123_4567_89ab_cdef_fedc_ba98_7654_3210;
const ID_TEXT: &str = "01234567-89ab-cdef-fedc-ba9876543210";

fn request() -> CreateWithdrawalRequest {
    CreateWithdrawalRequest {
        destination_address: "GDEST".to_string(),
        amount: 700,
        asset: "USDC".to_string(),
    }
}

fn order() -> WithdrawalOrder {
    WithdrawalOrder {
        user_id: "alice".to_string(),
        request: request(),
    }
}

fn assessment(sanctioned: bool) -> TransactionRiskAssessment {
    let thresholds = RiskThresholds {
        high_risk_amount: 10_000,
        medium_risk_amount: 5_000,
        suspicious_patterns: Vec::new(),
    };
    let sanctions = SanctionsApiResponse {
        sanctioned,
        risk_score: None,
        reasons: Vec::new(),
    };
    assess(&thresholds, "alice", "GDEST", 700, sanctions, true)
}

fn record(anchor_tx_id: Option<&str>) -> WithdrawalRecord {
    WithdrawalRecord {
        id: "w-1".to_string(),
        user_id: "alice".to_string(),
        destination_address: "GDEST".to_string(),
        amount: 700,
        asset: "USDC".to_string(),
        status: "pending".to_string(),
        anchor_tx_id: anchor_tx_id.map(|s| s.to_string()),
        kyc_status: "CLEARED".to_string(),
        sep24_interactive_url: Some("https://anchor.test/i".to_string()),
        created_at: Timestamp {
            seconds: 10,
            nanos: 1,
        },
        updated_at: Timestamp {
            seconds: 20,
            nanos: 2,
        },
    }
}

fn sep24() -> Sep24Interactive {
    Sep24Interactive {
        anchor_tx_id: "tx-9".to_string(),
        url: "https://anchor.test/i".to_string(),
    }
}

#[test]
fn withdrawal_goes_its_way() {
    let order = match create_withdrawal("alice".to_string(), request()) {
        WithdrawalStep::FindWallet { order, user_id } => {
            assert_eq!(user_id, "alice");
            order
        }
        other => panic!("{:?}", other),
    };
    let (order, wallet) = match wallet_found(order, Ok("GALICE".to_string())) {
        WithdrawalStep::Assess {
            order,
            stellar_address,
            transaction,
        } => {
            assert_eq!(transaction.user_id, "alice");
            assert_eq!(transaction.address, "GDEST");
            assert_eq!(transaction.amount, 700);
            (order, stellar_address)
        }
        other => panic!("{:?}", other),
    };
    let (order, wallet) = match withdrawal_assessed(true, order, wallet, Ok(assessment(false))) {
        WithdrawalStep::CheckKyc {
            order,
            stellar_address,
            query,
        } => {
            assert_eq!(query.user_id, "alice");
            assert_eq!(query.stellar_address, "GALICE");
            (order, stellar_address)
        }
        other => panic!("{:?}", other),
    };
    let (order, kyc) = match kyc_checked(order, wallet, Ok(KycStatus::Cleared)) {
        WithdrawalStep::GetUrl {
            order,
            kyc_status,
            url_query,
        } => {
            assert_eq!(url_query.user_id, "alice");
            assert_eq!(url_query.stellar_address, "GALICE");
            assert_eq!(url_query.asset, "USDC");
            assert_eq!(url_query.amount, 700);
            (order, kyc_status)
        }
        other => panic!("{:?}", other),
    };
    match url_obtained(order, kyc, Ok(sep24())) {
        WithdrawalStep::Record { params } => {
            assert_eq!(params.user_id, "alice");
            assert_eq!(params.destination_address, "GDEST");
            assert_eq!(params.amount, 700);
            assert_eq!(params.asset, "USDC");
            assert_eq!(params.anchor_tx_id, Some("tx-9".to_string()));
            assert!(matches!(params.kyc_status, KycStatus::Cleared));
            assert_eq!(
                params.sep24_interactive_url,
                Some("https://anchor.test/i".to_string())
            );
        }
        other => panic!("{:?}", other),
    }
    match withdrawal_recorded(Ok(record(Some("tx-9")))) {
        WithdrawalStep::Finish {
            event: Some(BusinessEvent::Created),
            outcome: Ok((status, r)),
        } => {
            assert_eq!(status, 201);
            assert_eq!(r.id, "w-1");
            assert_eq!(r.user_id, "alice");
            assert_eq!(r.destination_address, "GDEST");
            assert_eq!(r.amount, 700);
            assert_eq!(r.asset, "USDC");
            assert_eq!(r.status, "pending");
            assert_eq!(r.anchor_tx_id, Some("tx-9".to_string()));
            assert_eq!(r.kyc_status, "CLEARED");
            assert_eq!(
                r.sep24_interactive_url,
                Some("https://anchor.test/i".to_string())
            );
            assert_eq!(
                r.created_at,
                Timestamp {
                    seconds: 10,
                    nanos: 1
                }
            );
        }
        other => panic!("{:?}", other),
    }
}

#[test]
fn verification_is_skipped_where_it_is_not_required() {
    let step = withdrawal_assessed(false, order(), "GALICE".to_string(), Ok(assessment(false)));
    assert!(matches!(
        step,
        WithdrawalStep::GetUrl {
            kyc_status: KycStatus::Cleared,
            ..
        }
    ));
}

#[test]
fn sanctioned_withdrawals_are_blocked() {
    for kyc_required in [true, false] {
        let step = withdrawal_assessed(
            kyc_required,
            order(),
            "GALICE".to_string(),
            Ok(assessment(true)),
        );
        match step {
            WithdrawalStep::Finish {
                event: Some(BusinessEvent::Blocked),
                outcome: Err(ApiError::Compliance(text)),
            } => assert_eq!(text, "Withdrawal blocked by sanctions screening"),
            other => panic!("{:?}", other),
        }
    }
}

/// A provider that knows one address as sanctioned, and what becomes of the withdrawal of
/// 100 USDC by `u1` from `GWALLET` to `GDEST` that is screened by it.
fn outcome_with_sanctions_on(sanctioned: &str) -> WithdrawalStep {
    let request = CreateWithdrawalRequest {
        destination_address: "GDEST".to_string(),
        amount: 100,
        asset: "USDC".to_string(),
    };
    let order = match create_withdrawal("u1".to_string(), request) {
        WithdrawalStep::FindWallet { order, .. } => order,
        other => panic!("{:?}", other),
    };
    let (order, wallet, t) = match wallet_found(order, Ok("GWALLET".to_string())) {
        WithdrawalStep::Assess {
            order,
            stellar_address,
            transaction,
        } => (order, stellar_address, transaction),
        other => panic!("{:?}", other),
    };
    let thresholds = RiskThresholds {
        high_risk_amount: 10_000,
        medium_risk_amount: 5_000,
        suspicious_patterns: Vec::new(),
    };
    let sanctions = SanctionsApiResponse {
        sanctioned: t.address == sanctioned,
        risk_score: None,
        reasons: Vec::new(),
    };
    let a = assess(&thresholds, &t.user_id, &t.address, t.amount, sanctions, true);
    assert_eq!((a.user_id.as_str(), a.amount), ("u1", 100));
    withdrawal_assessed(false, order, wallet, Ok(a))
}

#[test]
fn destination_is_screened_not_the_wallet() {
    match outcome_with_sanctions_on("GDEST") {
        WithdrawalStep::Finish {
            outcome: Err(ApiError::Compliance(text)),
            ..
        } => assert_eq!(text, "Withdrawal blocked by sanctions screening"),
        other => panic!("{:?}", other),
    }
    assert!(matches!(
        outcome_with_sanctions_on("GWALLET"),
        WithdrawalStep::GetUrl { .. }
    ));
}

#[test]
fn users_who_are_not_cleared_are_turned_away() {
    let status = KycStatus::NotCleared("PENDING".to_string());
    match kyc_checked(order(), "GALICE".to_string(), Ok(status)) {
        WithdrawalStep::Finish {
            event: None,
            outcome: Err(ApiError::Authorization(text)),
        } => assert_eq!(
            text,
            "KYC check failed: your status is PENDING. Please complete identity verification \
             at the anchor before withdrawing."
        ),
        other => panic!("{:?}", other),
    }
}

#[test]
fn users_without_a_wallet_are_told() {
    match wallet_found(order(), Err(ApiError::InternalServerError)) {
        WithdrawalStep::Finish {
            event: None,
            outcome: Err(ApiError::NotFound(text)),
        } => assert_eq!(text, "No wallet found for user alice"),
        other => panic!("{:?}", other),
    }
}

#[test]
fn outside_errors_end_a_withdrawal() {
    let ended = |step| {
        assert!(matches!(
            step,
            WithdrawalStep::Finish {
                event: None,
                outcome: Err(ApiError::InternalServerError)
            }
        ))
    };
    let e = || ApiError::InternalServerError;
    ended(withdrawal_assessed(true, order(), "GALICE".to_string(), Err(e())));
    ended(kyc_checked(order(), "GALICE".to_string(), Err(e())));
    ended(url_obtained(order(), KycStatus::Cleared, Err(e())));
    ended(withdrawal_recorded(Err(e())));
}

#[test]
fn withdrawals_are_looked_up_by_their_text() {
    assert_eq!(withdrawal_key(ID), ID_TEXT);
    assert_eq!(withdrawal_key(0), "00000000-0000-0000-0000-000000000000");
    assert_eq!(
        withdrawal_key(u128::MAX),
        "ffffffff-ffff-ffff-ffff-ffffffffffff"
    );
    assert_eq!(get_withdrawal(Ok(record(None))).unwrap().id, "w-1");
    assert!(matches!(
        get_withdrawal(Err(ApiError::InternalServerError)),
        Err(ApiError::InternalServerError)
    ));
}

#[test]
fn status_is_asked_of_the_anchor() {
    match get_withdrawal_status(ID) {
        StatusStep::FindRecord { id } => assert_eq!(id, ID_TEXT),
        other => panic!("{:?}", other),
    }
    match record_found(ID_TEXT.to_string(), Ok(record(Some("tx-9")))) {
        StatusStep::Poll {
            id, anchor_tx_id, ..
        } => {
            assert_eq!(id, ID_TEXT);
            assert_eq!(anchor_tx_id, "tx-9");
        }
        other => panic!("{:?}", other),
    }
    match record_found(ID_TEXT.to_string(), Ok(record(None))) {
        StatusStep::Finish(Ok(r)) => {
            assert_eq!(r.id, "w-1");
            assert_eq!(r.status, "pending");
            assert_eq!(r.anchor_status, None);
            assert_eq!(
                r.updated_at,
                Timestamp {
                    seconds: 20,
                    nanos: 2
                }
            );
        }
        other => panic!("{:?}", other),
    }
    assert!(matches!(
        record_found(ID_TEXT.to_string(), Err(ApiError::InternalServerError)),
        StatusStep::Finish(Err(ApiError::InternalServerError))
    ));
}

#[test]
fn final_statuses_are_stored() {
    for (name, label) in [
        ("Completed", "completed"),
        ("Error", "error"),
        ("Refunded", "refunded"),
        ("Expired", "expired"),
    ] {
        match anchor_polled(ID_TEXT.to_string(), record(Some("tx-9")), Some(name.to_string())) {
            StatusStep::Update { id, label: l, .. } => {
                assert_eq!(id, ID_TEXT);
                assert_eq!(l, label);
            }
            other => panic!("{:?}", other),
        }
    }
    match status_updated(record(Some("tx-9")), "completed".to_string()) {
        StatusStep::Finish(Ok(r)) => {
            assert_eq!(r.anchor_status, Some("completed".to_string()));
            assert_eq!(r.status, "pending");
        }
        other => panic!("{:?}", other),
    }
}

#[test]
fn other_statuses_are_only_told() {
    match anchor_polled(ID_TEXT.to_string(), record(Some("tx-9")), Some("PendingExternal".to_string())) {
        StatusStep::Finish(Ok(r)) => {
            assert_eq!(r.anchor_status, Some("pendingexternal".to_string()))
        }
        other => panic!("{:?}", other),
    }
    // The label is taken as it stands.
    assert!(matches!(
        anchor_labelled(ID_TEXT.to_string(), record(None), "Completed".to_string()),
        StatusStep::Finish(Ok(_))
    ));
    match anchor_polled(ID_TEXT.to_string(), record(Some("tx-9")), None) {
        StatusStep::Finish(Ok(r)) => assert_eq!(r.anchor_status, None),
        other => panic!("{:?}", other),
    }
}

#[test]
fn payouts_name_the_amount_in_decimal() {
    let payout = |amount| {
        initiate_sep31_payout(
            "alice".to_string(),
            InitiateSep31PayoutRequest {
                amount,
                asset_code: "USDC".to_string(),
                asset_issuer: None,
                receiver_id: "bob".to_string(),
                memo: Some("m".to_string()),
            },
        )
    };
    let p = payout(1_234_567);
    assert_eq!(p.amount, "1234567");
    assert_eq!(p.asset_code, "USDC");
    assert_eq!(p.asset_issuer, None);
    assert_eq!(p.sender_id, "alice");
    assert_eq!(p.receiver_id, "bob");
    assert_eq!(p.memo, Some("m".to_string()));
    assert_eq!(payout(0).amount, "0");
    assert_eq!(payout(-42).amount, "-42");
    assert_eq!(payout(i64::MIN).amount, "-9223372036854775808");
    assert_eq!(payout(i64::MAX).amount, "9223372036854775807");
}

#[test]
fn payout_answers_are_passed_on() {
    let r = sep31_payout_initiated(Ok(Sep31Payout {
        anchor_tx_id: "tx".to_string(),
        stellar_account_id: Some("GACC".to_string()),
        stellar_memo_type: None,
        stellar_memo: Some("9".to_string()),
    }))
    .ok()
    .unwrap();
    assert_eq!(r.anchor_tx_id, "tx");
    assert_eq!(r.stellar_account_id, Some("GACC".to_string()));
    assert_eq!(r.stellar_memo_type, None);
    assert_eq!(r.stellar_memo, Some("9".to_string()));
    assert!(matches!(
        sep31_payout_initiated(Err(ApiError::InternalServerError)),
        Err(ApiError::InternalServerError)
    ));
}
