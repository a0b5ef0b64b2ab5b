//! Transfers, step by step.

use zaps::backend::api_error::ApiError;
use zaps::backend::compliance::{
    assess, RiskLevel, RiskThresholds, SanctionsApiResponse, TransactionRiskAssessment,
};
use zaps::backend::transfers::{
    create_transfer, get_transfer, get_transfer_status, is_valid_stellar_address,
    recipient_found, sender_found, transaction_built, transfer_assessed, ArgumentValue,
    BuildTransactionDto, BusinessEvent, CreateTransferRequest, TransferOrder, TransferStep,
};

fn request(amount: i64) -> CreateTransferRequest {
    CreateTransferRequest {
        to_user_id: "bob".to_string(),
        amount,
        asset: "USDC".to_string(),
        memo: Some("rent".to_string()),
    }
}

fn order() -> TransferOrder {
    TransferOrder {
        user_id: "alice".to_string(),
        request: request(100),
    }
}

fn assessment(sanctioned: bool) -> TransactionRiskAssessment {
    let thresholds = RiskThresholds {
        high_risk_amount: 10,
        medium_risk_amount: 5,
        suspicious_patterns: Vec::new(),
    };
    let sanctions = SanctionsApiResponse {
        sanctioned,
        risk_score: None,
        reasons: Vec::new(),
    };
    assess(&thresholds, "alice", "GBOB", 100, sanctions, true)
}

fn rejected(step: TransferStep) -> String {
    match step {
        TransferStep::Finish {
            event: None,
            outcome: Err(ApiError::Validation(text)),
        } => text,
        other => panic!("{:?}", other),
    }
}

fn shown(value: &ArgumentValue) -> String {
    match value {
        ArgumentValue::Text(t) => t.clone(),
        ArgumentValue::Number(n) => format!("{}", n),
        ArgumentValue::Note(Some(t)) => t.clone(),
        ArgumentValue::Note(None) => "null".to_string(),
    }
}

fn call_of(order: TransferOrder) -> BuildTransactionDto {
    let step = transfer_assessed(
        order,
        "GALICE".to_string(),
        "GBOB".to_string(),
        Ok(assessment(false)),
    );
    match step {
        TransferStep::Build { dto, .. } => dto,
        other => panic!("{:?}", other),
    }
}

#[test]
fn valid_addresses_begin_with_g() {
    assert!(is_valid_stellar_address("G"));
    assert!(is_valid_stellar_address("GABC"));
    assert!(!is_valid_stellar_address(""));
    assert!(!is_valid_stellar_address("gABC"));
    assert!(!is_valid_stellar_address("AG"));
}

#[test]
fn transfer_goes_its_way() {
    let order = match create_transfer("alice".to_string(), request(100)) {
        TransferStep::FindSender { order, user_id } => {
            assert_eq!(user_id, "alice");
            order
        }
        other => panic!("{:?}", other),
    };
    let (order, from) = match sender_found(order, Ok("GALICE".to_string())) {
        TransferStep::FindRecipient {
            order,
            from_address,
            user_id,
        } => {
            assert_eq!(user_id, "bob");
            (order, from_address)
        }
        other => panic!("{:?}", other),
    };
    let (order, from, to) = match recipient_found(order, from, Ok("GBOB".to_string())) {
        TransferStep::Assess {
            order,
            from_address,
            to_address,
            transaction,
        } => {
            assert_eq!(transaction.user_id, "alice");
            assert_eq!(transaction.address, "GBOB");
            assert_eq!(transaction.amount, 100);
            (order, from_address, to_address)
        }
        other => panic!("{:?}", other),
    };
    assert_eq!(to, "GBOB");
    // High risk is flagged, but not stopped.
    let a = assessment(false);
    assert_eq!(a.risk_level, RiskLevel::High);
    let order = match transfer_assessed(order, from, to, Ok(a)) {
        TransferStep::Build { order, .. } => order,
        other => panic!("{:?}", other),
    };
    match transaction_built(order, Ok("AAAA".to_string())) {
        TransferStep::Finish {
            event: Some(BusinessEvent::Created),
            outcome: Ok(r),
        } => {
            assert_eq!((r.id >> 76) & 0xf, 4);
            assert_eq!((r.id >> 62) & 3, 2);
            assert_eq!(r.from_user_id, "alice");
            assert_eq!(r.to_user_id, "bob");
            assert_eq!(r.amount, 100);
            assert_eq!(r.asset, "USDC");
            assert_eq!(r.status, "pending");
            assert_eq!(r.memo, Some("rent".to_string()));
            assert_eq!(r.unsigned_xdr, "AAAA");
        }
        other => panic!("{:?}", other),
    }
}

#[test]
fn amounts_must_be_positive() {
    for amount in [0, -1, i64::MIN] {
        assert_eq!(
            rejected(create_transfer("alice".to_string(), request(amount))),
            "Amount must be greater than zero"
        );
    }
}

#[test]
fn recipients_must_have_a_valid_address() {
    assert_eq!(
        rejected(recipient_found(order(), "GALICE".to_string(), Ok("XBOB".to_string()))),
        "Recipient has an invalid Stellar address"
    );
}

#[test]
fn sanctioned_transfers_are_blocked() {
    let step = transfer_assessed(
        order(),
        "GALICE".to_string(),
        "GBOB".to_string(),
        Ok(assessment(true)),
    );
    match step {
        TransferStep::Finish {
            event: Some(BusinessEvent::Blocked),
            outcome: Err(ApiError::Compliance(text)),
        } => assert_eq!(text, "Transfer blocked by sanctions screening"),
        other => panic!("{:?}", other),
    }
}

/// A provider that knows one address as sanctioned, and what becomes of a transfer that
/// is screened by it.
fn outcome_with_sanctions_on(sanctioned: &str) -> TransferStep {
    let step = recipient_found(order(), "GALICE".to_string(), Ok("GBOB".to_string()));
    let (order, from, to, t) = match step {
        TransferStep::Assess {
            order,
            from_address,
            to_address,
            transaction,
        } => (order, from_address, to_address, transaction),
        other => panic!("{:?}", other),
    };
    let thresholds = RiskThresholds {
        high_risk_amount: 10_000,
        medium_risk_amount: 5_000,
        suspicious_patterns: Vec::new(),
    };
    let sanctions = SanctionsApiResponse {
        sanctioned: t.address == sanctioned,
        risk_score: None,
        reasons: Vec::new(),
    };
    let a = assess(&thresholds, &t.user_id, &t.address, t.amount, sanctions, true);
    transfer_assessed(order, from, to, Ok(a))
}

#[test]
fn recipient_is_screened_not_the_sender() {
    assert!(matches!(
        outcome_with_sanctions_on("GBOB"),
        TransferStep::Finish {
            event: Some(BusinessEvent::Blocked),
            outcome: Err(ApiError::Compliance(_))
        }
    ));
    assert!(matches!(
        outcome_with_sanctions_on("GALICE"),
        TransferStep::Build { .. }
    ));
}

#[test]
fn contract_call_of_a_transfer() {
    let dto = call_of(order());
    assert_eq!(dto.contract_id, "user_to_user_transfer");
    assert_eq!(dto.method, "transfer");
    let args: Vec<(&str, String)> = dto
        .args
        .iter()
        .map(|a| (a.name.as_str(), shown(&a.value)))
        .collect();
    assert_eq!(
        args,
        vec![
            ("from_user_id", "alice".to_string()),
            ("from_address", "GALICE".to_string()),
            ("to_user_id", "bob".to_string()),
            ("to_address", "GBOB".to_string()),
            ("asset", "USDC".to_string()),
            ("amount", "100".to_string()),
            ("memo", "rent".to_string()),
        ]
    );
    let mut plain = order();
    plain.request.memo = None;
    assert_eq!(shown(&call_of(plain).args[6].value), "null");
}

#[test]
fn outside_errors_end_a_transfer() {
    let ended = |step| {
        assert!(matches!(
            step,
            TransferStep::Finish {
                event: None,
                outcome: Err(ApiError::InternalServerError)
            }
        ))
    };
    let e = || ApiError::InternalServerError;
    ended(sender_found(order(), Err(e())));
    ended(recipient_found(order(), "GALICE".to_string(), Err(e())));
    ended(transfer_assessed(
        order(),
        "GALICE".to_string(),
        "GBOB".to_string(),
        Err(e()),
    ));
    ended(transaction_built(order(), Err(e())));
}

#[test]
fn transfers_are_not_kept() {
    match get_transfer(1) {
        Err(ApiError::NotFound(text)) => assert_eq!(text, "Not implemented"),
        other => panic!("{:?}", other),
    }
    match get_transfer_status(1) {
        Err(ApiError::NotFound(text)) => assert_eq!(text, "Not implemented"),
        other => panic!("{:?}", other),
    }
}

#[test]
fn business_events_have_names() {
    assert_eq!(BusinessEvent::Blocked.label(), "blocked");
    assert_eq!(BusinessEvent::Created.label(), "created");
}
