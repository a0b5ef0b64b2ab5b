//! Withdrawals through an anchor.
//!
//! A withdrawal is made in steps: each step says what is to be done outside, and the
//! outcome of that leads to the next step.

use super::api_error::ApiError;
use super::compliance::{
    weighed, ComplianceConfig, RiskLevel, Transaction, TransactionRiskAssessment,
};
use super::ids::{id_chars, id_text};
use super::text::{decimal, decimal_i64, lowercase, same_text, to_lowercase};
use super::transfers::BusinessEvent;
use vstd::prelude::*;

verus! {

/// The HTTP status of a granted withdrawal: something was created.
pub const CREATED: u16 = 201;

/// A point in time: seconds and nanoseconds since the Unix epoch.
#[derive(Clone, Copy, PartialEq, Eq, Structural, Debug)]
pub struct Timestamp {
    pub seconds: i64,
    pub nanos: u32,
}

/// What a user asks for.
#[derive(Debug)]
pub struct CreateWithdrawalRequest {
    pub destination_address: String,
    /// Amount in the asset's smallest unit (e.g. stroops for XLM).
    pub amount: i64,
    /// Stellar asset code e.g. "USDC".
    pub asset: String,
}

/// The answer to a request that was granted.
#[derive(Debug)]
pub struct WithdrawalResponse {
    pub id: String,
    pub user_id: String,
    pub destination_address: String,
    pub amount: i64,
    pub asset: String,
    pub status: String,
    pub anchor_tx_id: Option<String>,
    pub kyc_status: String,
    /// The SEP-24 interactive URL the client must open in a browser/web-view.
    /// Missing for SEP-31 (backend-only) payouts.
    pub sep24_interactive_url: Option<String>,
    pub created_at: Timestamp,
}

/// What is told of the status of a withdrawal.
#[derive(Debug)]
pub struct WithdrawalStatusResponse {
    pub id: String,
    pub status: String,
    /// Live status from the anchor (may differ from the stored one until reconciled).
    pub anchor_status: Option<String>,
    pub updated_at: Timestamp,
}

/// How a user stands with the anchor's identity verification.
#[derive(Debug)]
pub enum KycStatus {
    Cleared,
    /// Anything else, under the name it is shown by.
    NotCleared(String),
}

/// Where the client completes a withdrawal.
#[derive(Debug)]
pub struct Sep24Interactive {
    pub anchor_tx_id: String,
    pub url: String,
}

/// What is stored of a new withdrawal.
#[derive(Debug)]
pub struct CreateWithdrawalParams {
    pub user_id: String,
    pub destination_address: String,
    pub amount: i64,
    pub asset: String,
    pub anchor_tx_id: Option<String>,
    pub kyc_status: KycStatus,
    pub sep24_interactive_url: Option<String>,
}

/// A withdrawal as it is stored.
#[derive(Debug)]
pub struct WithdrawalRecord {
    pub id: String,
    pub user_id: String,
    pub destination_address: String,
    pub amount: i64,
    pub asset: String,
    pub status: String,
    pub anchor_tx_id: Option<String>,
    pub kyc_status: String,
    pub sep24_interactive_url: Option<String>,
    pub created_at: Timestamp,
    pub updated_at: Timestamp,
}

/// A request and the user who made it.
#[derive(Debug)]
pub struct WithdrawalOrder {
    pub user_id: String,
    pub request: CreateWithdrawalRequest,
}

/// Whose identity verification the anchor is asked about: the user and the user's wallet.
#[derive(Debug)]
pub struct KycQuery {
    pub user_id: String,
    pub stellar_address: String,
}

/// What the anchor is asked for an interactive URL for.
#[derive(Debug)]
pub struct Sep24Query {
    pub user_id: String,
    pub stellar_address: String,
    pub asset: String,
    pub amount: i64,
}

/// How far a withdrawal has come, and what is to be done next.
#[derive(Debug)]
pub enum WithdrawalStep {
    /// Look up the address of the named user's wallet.
    FindWallet { order: WithdrawalOrder, user_id: String },
    /// Screen the transaction.
    Assess { order: WithdrawalOrder, stellar_address: String, transaction: Transaction },
    /// Ask the anchor how the user stands with its identity verification.
    CheckKyc { order: WithdrawalOrder, stellar_address: String, query: KycQuery },
    /// Ask the anchor for the interactive URL.
    GetUrl { order: WithdrawalOrder, kyc_status: KycStatus, url_query: Sep24Query },
    /// Store the withdrawal.
    Record { params: CreateWithdrawalParams },
    /// The withdrawal is over: count the event and answer, with the HTTP status where the
    /// withdrawal is granted.
    Finish { event: Option<BusinessEvent>, outcome: Result<(u16, WithdrawalResponse), ApiError> },
}

/// What came of a step.
pub enum WithdrawalReply {
    Wallet(Result<String, ApiError>),
    Assessed(Result<TransactionRiskAssessment, ApiError>),
    Kyc(Result<KycStatus, ApiError>),
    Url(Result<Sep24Interactive, ApiError>),
    Recorded(Result<WithdrawalRecord, ApiError>),
}

/// The transaction that is screened for a withdrawal: the user moves the amount to the
/// destination, not to the user's own wallet.
pub open spec fn transaction_of(order: WithdrawalOrder) -> Transaction {
    Transaction {
        user_id: order.user_id,
        address: order.request.destination_address,
        amount: order.request.amount,
    }
}

/// What the anchor is asked about the user's identity verification.
pub open spec fn kyc_query_of(order: WithdrawalOrder, stellar_address: String) -> KycQuery {
    KycQuery { user_id: order.user_id, stellar_address }
}

/// What the anchor is asked for the interactive URL for.
pub open spec fn sep24_query_of(order: WithdrawalOrder, stellar_address: String) -> Sep24Query {
    Sep24Query {
        user_id: order.user_id,
        stellar_address,
        asset: order.request.asset,
        amount: order.request.amount,
    }
}

/// The first step of a request.
pub open spec fn first_step(order: WithdrawalOrder) -> WithdrawalStep {
    WithdrawalStep::FindWallet { order, user_id: order.user_id }
}

/// The step that asks for the interactive URL, for a user who is cleared.
pub open spec fn url_step(order: WithdrawalOrder, stellar_address: String) -> WithdrawalStep {
    WithdrawalStep::GetUrl {
        order,
        kyc_status: KycStatus::Cleared,
        url_query: sep24_query_of(order, stellar_address),
    }
}

/// `step` ends the withdrawal with an error that came from outside.
pub open spec fn passes_on(step: WithdrawalStep, error: ApiError) -> bool {
    step == (WithdrawalStep::Finish { event: None, outcome: Err(error) })
}

/// `step` follows the look-up of the wallet.
pub open spec fn follows_wallet(
    order: WithdrawalOrder,
    wallet: Result<String, ApiError>,
    step: WithdrawalStep,
) -> bool {
    match wallet {
        Ok(stellar_address) => step == (WithdrawalStep::Assess {
            order,
            stellar_address,
            transaction: transaction_of(order),
        }),
        Err(_) => step matches WithdrawalStep::Finish {
            event: None,
            outcome: Err(ApiError::NotFound(t)),
        } && t@ == "No wallet found for user "@ + order.user_id@,
    }
}

/// `step` follows the screening.
pub open spec fn follows_assessment(
    kyc_required: bool,
    order: WithdrawalOrder,
    stellar_address: String,
    assessment: Result<TransactionRiskAssessment, ApiError>,
    step: WithdrawalStep,
) -> bool {
    match assessment {
        Ok(a) => if a.risk_level == RiskLevel::Blocked {
            step matches WithdrawalStep::Finish {
                event: Some(BusinessEvent::Blocked),
                outcome: Err(ApiError::Compliance(t)),
            } && t@ == "Withdrawal blocked by sanctions screening"@
        } else if kyc_required {
            step == (WithdrawalStep::CheckKyc {
                order,
                stellar_address,
                query: kyc_query_of(order, stellar_address),
            })
        } else {
            step == url_step(order, stellar_address)
        },
        Err(e) => passes_on(step, e),
    }
}

/// `step` follows the question after the identity verification.
pub open spec fn follows_kyc(
    order: WithdrawalOrder,
    stellar_address: String,
    status: Result<KycStatus, ApiError>,
    step: WithdrawalStep,
) -> bool {
    match status {
        Ok(KycStatus::Cleared) => step == url_step(order, stellar_address),
        Ok(KycStatus::NotCleared(shown)) => step matches WithdrawalStep::Finish {
            event: None,
            outcome: Err(ApiError::Authorization(t)),
        } && t@ == "KYC check failed: your status is "@ + shown@
            + ". Please complete identity verification at the anchor before withdrawing."@,
        Err(e) => passes_on(step, e),
    }
}

/// `p` is what is stored of the withdrawal.
pub open spec fn is_params(
    order: WithdrawalOrder,
    kyc_status: KycStatus,
    sep24: Sep24Interactive,
    p: CreateWithdrawalParams,
) -> bool {
    &&& p.user_id == order.user_id
    &&& p.destination_address == order.request.destination_address
    &&& p.amount == order.request.amount
    &&& p.asset == order.request.asset
    &&& p.anchor_tx_id == Some(sep24.anchor_tx_id)
    &&& p.kyc_status == kyc_status
    &&& p.sep24_interactive_url == Some(sep24.url)
}

/// `step` follows the question after the interactive URL.
pub open spec fn follows_url(
    order: WithdrawalOrder,
    kyc_status: KycStatus,
    sep24: Result<Sep24Interactive, ApiError>,
    step: WithdrawalStep,
) -> bool {
    match sep24 {
        Ok(s) => step matches WithdrawalStep::Record { params } && is_params(
            order,
            kyc_status,
            s,
            params,
        ),
        Err(e) => passes_on(step, e),
    }
}

/// `r` tells of the record, in every field.
pub open spec fn tells_of(record: WithdrawalRecord, r: WithdrawalResponse) -> bool {
    &&& r.id == record.id
    &&& r.user_id == record.user_id
    &&& r.destination_address == record.destination_address
    &&& r.amount == record.amount
    &&& r.asset == record.asset
    &&& r.status == record.status
    &&& r.anchor_tx_id == record.anchor_tx_id
    &&& r.kyc_status == record.kyc_status
    &&& r.sep24_interactive_url == record.sep24_interactive_url
    &&& r.created_at == record.created_at
}

/// `step` follows the storing of the withdrawal.
pub open spec fn follows_record(
    record: Result<WithdrawalRecord, ApiError>,
    step: WithdrawalStep,
) -> bool {
    match record {
        Ok(stored) => step matches WithdrawalStep::Finish {
            event: Some(BusinessEvent::Created),
            outcome: Ok((status, r)),
        } && status == 201 && tells_of(stored, r),
        Err(e) => passes_on(step, e),
    }
}

/// Takes up the request of a user.
pub fn create_withdrawal(user_id: String, request: CreateWithdrawalRequest) -> (step: WithdrawalStep)
    ensures
        step == first_step((WithdrawalOrder { user_id, request })),
{
    let owner = user_id.clone();
    WithdrawalStep::FindWallet { order: WithdrawalOrder { user_id, request }, user_id: owner }
}

/// The transaction that is screened for a withdrawal.
fn withdrawal_transaction(order: &WithdrawalOrder) -> (t: Transaction)
    ensures
        t == transaction_of(*order),
{
    Transaction {
        user_id: order.user_id.clone(),
        address: order.request.destination_address.clone(),
        amount: order.request.amount,
    }
}

/// Asks for the interactive URL, for a user who is cleared.
fn ask_for_url(order: WithdrawalOrder, stellar_address: String) -> (step: WithdrawalStep)
    ensures
        step == url_step(order, stellar_address),
{
    let url_query = Sep24Query {
        user_id: order.user_id.clone(),
        stellar_address,
        asset: order.request.asset.clone(),
        amount: order.request.amount,
    };
    WithdrawalStep::GetUrl { order, kyc_status: KycStatus::Cleared, url_query }
}

/// Goes on after the address of the user's wallet was looked up.
pub fn wallet_found(order: WithdrawalOrder, wallet: Result<String, ApiError>) -> (step:
    WithdrawalStep)
    ensures
        follows_wallet(order, wallet, step),
{
    match wallet {
        Ok(stellar_address) => {
            let transaction = withdrawal_transaction(&order);
            WithdrawalStep::Assess { order, stellar_address, transaction }
        },
        Err(_) => {
            let mut text = String::from_str("No wallet found for user ");
            text.append(order.user_id.as_str());
            WithdrawalStep::Finish { event: None, outcome: Err(ApiError::NotFound(text)) }
        },
    }
}

/// Goes on after the withdrawal was screened.
pub fn withdrawal_assessed(
    kyc_required: bool,
    order: WithdrawalOrder,
    stellar_address: String,
    assessment: Result<TransactionRiskAssessment, ApiError>,
) -> (step: WithdrawalStep)
    ensures
        follows_assessment(kyc_required, order, stellar_address, assessment, step),
{
    match assessment {
        Ok(a) => {
            if a.risk_level == RiskLevel::Blocked {
                WithdrawalStep::Finish {
                    event: Some(BusinessEvent::Blocked),
                    outcome: Err(
                        ApiError::Compliance(
                            "Withdrawal blocked by sanctions screening".to_owned(),
                        ),
                    ),
                }
            } else if kyc_required {
                let query = KycQuery {
                    user_id: order.user_id.clone(),
                    stellar_address: stellar_address.clone(),
                };
                WithdrawalStep::CheckKyc { order, stellar_address, query }
            } else {
                ask_for_url(order, stellar_address)
            }
        },
        Err(e) => WithdrawalStep::Finish { event: None, outcome: Err(e) },
    }
}

/// Goes on after the anchor was asked how the user stands.
pub fn kyc_checked(
    order: WithdrawalOrder,
    stellar_address: String,
    status: Result<KycStatus, ApiError>,
) -> (step: WithdrawalStep)
    ensures
        follows_kyc(order, stellar_address, status, step),
{
    match status {
        Ok(KycStatus::Cleared) => ask_for_url(order, stellar_address),
        Ok(KycStatus::NotCleared(shown)) => {
            let mut text = String::from_str("KYC check failed: your status is ");
            text.append(shown.as_str());
            text.append(
                ". Please complete identity verification at the anchor before withdrawing.",
            );
            WithdrawalStep::Finish { event: None, outcome: Err(ApiError::Authorization(text)) }
        },
        Err(e) => WithdrawalStep::Finish { event: None, outcome: Err(e) },
    }
}

/// Goes on after the anchor was asked for the interactive URL.
pub fn url_obtained(
    order: WithdrawalOrder,
    kyc_status: KycStatus,
    sep24: Result<Sep24Interactive, ApiError>,
) -> (step: WithdrawalStep)
    ensures
        follows_url(order, kyc_status, sep24, step),
{
    match sep24 {
        Ok(s) => WithdrawalStep::Record {
            params: CreateWithdrawalParams {
                user_id: order.user_id,
                destination_address: order.request.destination_address,
                amount: order.request.amount,
                asset: order.request.asset,
                anchor_tx_id: Some(s.anchor_tx_id),
                kyc_status,
                sep24_interactive_url: Some(s.url),
            },
        },
        Err(e) => WithdrawalStep::Finish { event: None, outcome: Err(e) },
    }
}

fn response(record: WithdrawalRecord) -> (r: WithdrawalResponse)
    ensures
        tells_of(record, r),
{
    WithdrawalResponse {
        id: record.id,
        user_id: record.user_id,
        destination_address: record.destination_address,
        amount: record.amount,
        asset: record.asset,
        status: record.status,
        anchor_tx_id: record.anchor_tx_id,
        kyc_status: record.kyc_status,
        sep24_interactive_url: record.sep24_interactive_url,
        created_at: record.created_at,
    }
}

/// Goes on after the withdrawal was stored.
pub fn withdrawal_recorded(record: Result<WithdrawalRecord, ApiError>) -> (step: WithdrawalStep)
    ensures
        follows_record(record, step),
{
    match record {
        Ok(stored) => WithdrawalStep::Finish {
            event: Some(BusinessEvent::Created),
            outcome: Ok((CREATED, response(stored))),
        },
        Err(e) => WithdrawalStep::Finish { event: None, outcome: Err(e) },
    }
}

/// The identifier under which a withdrawal is looked up.
pub fn withdrawal_key(withdrawal_id: u128) -> (key: String)
    ensures
        key@ == id_chars(withdrawal_id),
{
    id_text(withdrawal_id)
}

/// Tells of a withdrawal that was looked up.
pub fn get_withdrawal(record: Result<WithdrawalRecord, ApiError>) -> (r: Result<
    WithdrawalResponse,
    ApiError,
>)
    ensures
        match record {
            Ok(stored) => r matches Ok(w) && tells_of(stored, w),
            Err(e) => r == Err::<WithdrawalResponse, ApiError>(e),
        },
{
    match record {
        Ok(stored) => Ok(response(stored)),
        Err(e) => Err(e),
    }
}

/// How far a question after the status of a withdrawal has come, and what is to be done
/// next.
#[derive(Debug)]
pub enum StatusStep {
    /// Look up the withdrawal.
    FindRecord { id: String },
    /// Ask the anchor for the live status of its transaction.
    Poll { id: String, record: WithdrawalRecord, anchor_tx_id: String },
    /// Store the live status. Whether that works makes no difference to the answer.
    Update { id: String, record: WithdrawalRecord, label: String },
    /// The answer.
    Finish(Result<WithdrawalStatusResponse, ApiError>),
}

/// The live statuses after which nothing more happens at the anchor.
pub open spec fn settled(label: Seq<char>) -> bool {
    label == "completed"@ || label == "error"@ || label == "refunded"@ || label == "expired"@
}

/// `step` answers with the status of the record and the live status.
pub open spec fn answers(
    record: WithdrawalRecord,
    anchor_status: Option<Seq<char>>,
    step: StatusStep,
) -> bool {
    step matches StatusStep::Finish(Ok(r)) && {
        &&& r.id == record.id
        &&& r.status == record.status
        &&& r.updated_at == record.updated_at
        &&& match r.anchor_status {
            Some(s) => anchor_status == Some(s@),
            None => anchor_status is None,
        }
    }
}

/// `step` follows once the live status is known.
pub open spec fn follows_label(
    id: String,
    record: WithdrawalRecord,
    label: Seq<char>,
    step: StatusStep,
) -> bool {
    if settled(label) {
        step matches StatusStep::Update { id: i, record: r, label: l } && i == id && r == record
            && l@ == label
    } else {
        answers(record, Some(label), step)
    }
}

fn answer(record: WithdrawalRecord, anchor_status: Option<String>) -> (step: StatusStep)
    ensures
        answers(
            record,
            match anchor_status {
                Some(s) => Some(s@),
                None => None,
            },
            step,
        ),
{
    StatusStep::Finish(
        Ok(
            WithdrawalStatusResponse {
                id: record.id,
                status: record.status,
                anchor_status,
                updated_at: record.updated_at,
            },
        ),
    )
}

/// Takes up the question after the status of a withdrawal.
pub fn get_withdrawal_status(withdrawal_id: u128) -> (step: StatusStep)
    ensures
        step matches StatusStep::FindRecord { id } && id@ == id_chars(withdrawal_id),
{
    StatusStep::FindRecord { id: id_text(withdrawal_id) }
}

/// Goes on after the withdrawal was looked up: the anchor is asked if it knows of it.
pub fn record_found(id: String, record: Result<WithdrawalRecord, ApiError>) -> (step: StatusStep)
    ensures
        match record {
            Ok(stored) => match stored.anchor_tx_id {
                Some(tx) => step == (StatusStep::Poll { id, record: stored, anchor_tx_id: tx }),
                None => answers(stored, None, step),
            },
            Err(e) => step == StatusStep::Finish(Err(e)),
        },
{
    match record {
        Ok(stored) => {
            let tx = match &stored.anchor_tx_id {
                Some(tx) => Some(tx.clone()),
                None => None,
            };
            match tx {
                Some(anchor_tx_id) => StatusStep::Poll { id, record: stored, anchor_tx_id },
                None => answer(stored, None),
            }
        },
        Err(e) => StatusStep::Finish(Err(e)),
    }
}

/// Goes on after the anchor was asked: with the name of the live status, in any case of
/// its letters, or without one.
pub fn anchor_polled(id: String, record: WithdrawalRecord, status: Option<String>) -> (step:
    StatusStep)
    ensures
        match status {
            Some(name) => follows_label(id, record, lowercase(name@), step),
            None => answers(record, None, step),
        },
{
    match status {
        Some(name) => anchor_labelled(id, record, to_lowercase(name.as_str())),
        None => answer(record, None),
    }
}

/// Goes on once the live status is known: it is stored if it is a final one.
pub fn anchor_labelled(id: String, record: WithdrawalRecord, label: String) -> (step: StatusStep)
    ensures
        follows_label(id, record, label@, step),
{
    if same_text(label.as_str(), "completed") || same_text(label.as_str(), "error") || same_text(
        label.as_str(),
        "refunded",
    ) || same_text(label.as_str(), "expired") {
        StatusStep::Update { id, record, label }
    } else {
        answer(record, Some(label))
    }
}

/// Goes on after the live status was stored, or could not be.
pub fn status_updated(record: WithdrawalRecord, label: String) -> (step: StatusStep)
    ensures
        answers(record, Some(label@), step),
{
    answer(record, Some(label))
}

/// What a user asks for of a payout without interaction.
#[derive(Debug)]
pub struct InitiateSep31PayoutRequest {
    pub amount: i64,
    pub asset_code: String,
    pub asset_issuer: Option<String>,
    pub receiver_id: String,
    pub memo: Option<String>,
}

/// What the anchor is asked for.
#[derive(Debug)]
pub struct Sep31PayoutParams {
    pub amount: String,
    pub asset_code: String,
    pub asset_issuer: Option<String>,
    pub sender_id: String,
    pub receiver_id: String,
    pub memo: Option<String>,
}

/// What the anchor answers.
#[derive(Debug)]
pub struct Sep31Payout {
    pub anchor_tx_id: String,
    pub stellar_account_id: Option<String>,
    pub stellar_memo_type: Option<String>,
    pub stellar_memo: Option<String>,
}

/// What the user is told.
#[derive(Debug)]
pub struct Sep31PayoutInitResponse {
    pub anchor_tx_id: String,
    pub stellar_account_id: Option<String>,
    pub stellar_memo_type: Option<String>,
    pub stellar_memo: Option<String>,
}

/// What the anchor is asked for where a user asks for a payout.
pub fn initiate_sep31_payout(user_id: String, request: InitiateSep31PayoutRequest) -> (p:
    Sep31PayoutParams)
    ensures
        p.amount@ == decimal(request.amount as int),
        p.asset_code == request.asset_code,
        p.asset_issuer == request.asset_issuer,
        p.sender_id == user_id,
        p.receiver_id == request.receiver_id,
        p.memo == request.memo,
{
    Sep31PayoutParams {
        amount: decimal_i64(request.amount),
        asset_code: request.asset_code,
        asset_issuer: request.asset_issuer,
        sender_id: user_id,
        receiver_id: request.receiver_id,
        memo: request.memo,
    }
}

/// What the user is told after the anchor was asked.
pub fn sep31_payout_initiated(payout: Result<Sep31Payout, ApiError>) -> (r: Result<
    Sep31PayoutInitResponse,
    ApiError,
>)
    ensures
        match payout {
            Ok(p) => r matches Ok(i) && i.anchor_tx_id == p.anchor_tx_id && i.stellar_account_id
                == p.stellar_account_id && i.stellar_memo_type == p.stellar_memo_type
                && i.stellar_memo == p.stellar_memo,
            Err(e) => r == Err::<Sep31PayoutInitResponse, ApiError>(e),
        },
{
    match payout {
        Ok(p) => Ok(
            Sep31PayoutInitResponse {
                anchor_tx_id: p.anchor_tx_id,
                stellar_account_id: p.stellar_account_id,
                stellar_memo_type: p.stellar_memo_type,
                stellar_memo: p.stellar_memo,
            },
        ),
        Err(e) => Err(e),
    }
}

/// `next` follows `step` once the reply is there.
pub open spec fn withdrawal_moves(
    kyc_required: bool,
    step: WithdrawalStep,
    reply: WithdrawalReply,
    next: WithdrawalStep,
) -> bool {
    match (step, reply) {
        (WithdrawalStep::FindWallet { order, .. }, WithdrawalReply::Wallet(r)) => follows_wallet(
            order,
            r,
            next,
        ),
        (WithdrawalStep::Assess { order, stellar_address, .. }, WithdrawalReply::Assessed(r)) =>
            follows_assessment(kyc_required, order, stellar_address, r, next),
        (WithdrawalStep::CheckKyc { order, stellar_address, .. }, WithdrawalReply::Kyc(r)) =>
            follows_kyc(order, stellar_address, r, next),
        (WithdrawalStep::GetUrl { order, kyc_status, .. }, WithdrawalReply::Url(r)) =>
            follows_url(order, kyc_status, r, next),
        (WithdrawalStep::Record { .. }, WithdrawalReply::Recorded(r)) => follows_record(r, next),
        _ => false,
    }
}

/// A run of a withdrawal: the steps that were taken with the replies to them, and the
/// step that they led to.
pub open spec fn withdrawal_run(
    kyc_required: bool,
    order: WithdrawalOrder,
    run: Seq<(WithdrawalStep, WithdrawalReply)>,
    last: WithdrawalStep,
) -> bool
    decreases run.len(),
{
    if run.len() == 0 {
        last == first_step(order)
    } else {
        &&& withdrawal_run(kyc_required, order, run.drop_last(), run.last().0)
        &&& withdrawal_moves(kyc_required, run.last().0, run.last().1, last)
    }
}

/// A look-up that gave the address for the wallet of this order's user.
pub open spec fn found_wallet(
    order: WithdrawalOrder,
    taken: (WithdrawalStep, WithdrawalReply),
    stellar_address: String,
) -> bool {
    &&& taken.0 == first_step(order)
    &&& taken.1 == WithdrawalReply::Wallet(Ok(stellar_address))
}

/// A screening of the very transaction that this order makes, with this outcome, which
/// does not block it.
pub open spec fn passed_screening(
    order: WithdrawalOrder,
    taken: (WithdrawalStep, WithdrawalReply),
    a: TransactionRiskAssessment,
) -> bool {
    &&& taken.0 matches WithdrawalStep::Assess { order: o, transaction, .. } && o == order
        && transaction == transaction_of(order)
    &&& taken.1 == WithdrawalReply::Assessed(Ok(a))
    &&& a.risk_level != RiskLevel::Blocked
}

/// An answer of the anchor that this order's user, with that wallet, is cleared.
pub open spec fn passed_kyc(
    order: WithdrawalOrder,
    taken: (WithdrawalStep, WithdrawalReply),
    stellar_address: String,
) -> bool {
    &&& taken.0 == (WithdrawalStep::CheckKyc {
        order,
        stellar_address,
        query: kyc_query_of(order, stellar_address),
    })
    &&& taken.1 == WithdrawalReply::Kyc(Ok(KycStatus::Cleared))
}

/// An answer of the anchor with the interactive URL for this order, from that wallet.
pub open spec fn got_url(
    order: WithdrawalOrder,
    taken: (WithdrawalStep, WithdrawalReply),
    stellar_address: String,
    sep24: Sep24Interactive,
) -> bool {
    &&& taken.0 == url_step(order, stellar_address)
    &&& taken.1 == WithdrawalReply::Url(Ok(sep24))
}

/// The storing of this order, under that URL.
pub open spec fn was_recorded(
    order: WithdrawalOrder,
    taken: (WithdrawalStep, WithdrawalReply),
    sep24: Sep24Interactive,
    record: WithdrawalRecord,
) -> bool {
    &&& taken.0 matches WithdrawalStep::Record { params } && is_params(
        order,
        KycStatus::Cleared,
        sep24,
        params,
    )
    &&& taken.1 == WithdrawalReply::Recorded(Ok(record))
}

/// The run holds a look-up that gave the address for the wallet of this order's user.
pub open spec fn comes_from(
    order: WithdrawalOrder,
    run: Seq<(WithdrawalStep, WithdrawalReply)>,
    stellar_address: String,
) -> bool {
    exists|i: int| 0 <= i < run.len() && found_wallet(order, #[trigger] run[i], stellar_address)
}

/// The run holds a screening of what this order moves, with this outcome, which does not
/// block it.
pub open spec fn screened(
    order: WithdrawalOrder,
    run: Seq<(WithdrawalStep, WithdrawalReply)>,
    a: TransactionRiskAssessment,
) -> bool {
    exists|i: int| 0 <= i < run.len() && passed_screening(order, #[trigger] run[i], a)
}

/// The run holds an answer of the anchor that this order's user is cleared.
pub open spec fn cleared(
    order: WithdrawalOrder,
    run: Seq<(WithdrawalStep, WithdrawalReply)>,
    stellar_address: String,
) -> bool {
    exists|i: int| 0 <= i < run.len() && passed_kyc(order, #[trigger] run[i], stellar_address)
}

/// The run holds the anchor's answer with the interactive URL.
pub open spec fn url_given(
    order: WithdrawalOrder,
    run: Seq<(WithdrawalStep, WithdrawalReply)>,
    stellar_address: String,
    sep24: Sep24Interactive,
) -> bool {
    exists|i: int|
        0 <= i < run.len() && got_url(order, #[trigger] run[i], stellar_address, sep24)
}

/// The run holds the storing of this order.
pub open spec fn recorded(
    order: WithdrawalOrder,
    run: Seq<(WithdrawalStep, WithdrawalReply)>,
    sep24: Sep24Interactive,
    record: WithdrawalRecord,
) -> bool {
    exists|i: int|
        0 <= i < run.len() && was_recorded(order, #[trigger] run[i], sep24, record)
}

/// The run has passed what stands before the anchor is asked for the URL: the wallet was
/// found, what the order moves was screened with this outcome, and the user is cleared
/// where that is required.
pub open spec fn gated(
    kyc_required: bool,
    order: WithdrawalOrder,
    run: Seq<(WithdrawalStep, WithdrawalReply)>,
    stellar_address: String,
    a: TransactionRiskAssessment,
) -> bool {
    &&& comes_from(order, run, stellar_address)
    &&& screened(order, run, a)
    &&& kyc_required ==> cleared(order, run, stellar_address)
}

/// The run has passed what stands before the withdrawal is stored.
pub open spec fn prepared(
    kyc_required: bool,
    order: WithdrawalOrder,
    run: Seq<(WithdrawalStep, WithdrawalReply)>,
    stellar_address: String,
    a: TransactionRiskAssessment,
    sep24: Sep24Interactive,
) -> bool {
    &&& gated(kyc_required, order, run, stellar_address, a)
    &&& url_given(order, run, stellar_address, sep24)
}

/// The run has stored the withdrawal, after all that stands before it.
pub open spec fn completed(
    kyc_required: bool,
    order: WithdrawalOrder,
    run: Seq<(WithdrawalStep, WithdrawalReply)>,
    stellar_address: String,
    a: TransactionRiskAssessment,
    sep24: Sep24Interactive,
    record: WithdrawalRecord,
) -> bool {
    &&& prepared(kyc_required, order, run, stellar_address, a, sep24)
    &&& recorded(order, run, sep24, record)
}

/// What holds wherever a run stands.
spec fn run_holds(
    kyc_required: bool,
    order: WithdrawalOrder,
    run: Seq<(WithdrawalStep, WithdrawalReply)>,
    last: WithdrawalStep,
) -> bool {
    match last {
        WithdrawalStep::FindWallet { .. } => last == first_step(order),
        WithdrawalStep::Assess { order: o, stellar_address, transaction } => {
            &&& o == order
            &&& comes_from(order, run, stellar_address)
            &&& transaction == transaction_of(order)
        },
        WithdrawalStep::CheckKyc { order: o, stellar_address, query } => {
            &&& o == order
            &&& query == kyc_query_of(order, stellar_address)
            &&& exists|a: TransactionRiskAssessment| #[trigger]
                gated(false, order, run, stellar_address, a)
        },
        WithdrawalStep::GetUrl { .. } => exists|
            stellar_address: String,
            a: TransactionRiskAssessment,
        | #[trigger]
            gated(kyc_required, order, run, stellar_address, a) && last == url_step(
                order,
                stellar_address,
            ),
        WithdrawalStep::Record { params } => exists|
            stellar_address: String,
            a: TransactionRiskAssessment,
            sep24: Sep24Interactive,
        | #[trigger]
            prepared(kyc_required, order, run, stellar_address, a, sep24) && is_params(
                order,
                KycStatus::Cleared,
                sep24,
                params,
            ),
        WithdrawalStep::Finish { event, outcome } => {
            &&& outcome matches Ok((status, _)) ==> status == 201
            &&& outcome matches Ok((_, r)) ==> exists|
                stellar_address: String,
                a: TransactionRiskAssessment,
                sep24: Sep24Interactive,
                record: WithdrawalRecord,
            | #[trigger]
                completed(kyc_required, order, run, stellar_address, a, sep24, record) && tells_of(
                    record,
                    r,
                )
            &&& outcome is Ok <==> event == Some(BusinessEvent::Created)
        },
    }
}

proof fn lemma_longer_run(
    order: WithdrawalOrder,
    run: Seq<(WithdrawalStep, WithdrawalReply)>,
    stellar_address: String,
    a: TransactionRiskAssessment,
    sep24: Sep24Interactive,
)
    requires
        run.len() > 0,
    ensures
        comes_from(order, run.drop_last(), stellar_address) ==> comes_from(
            order,
            run,
            stellar_address,
        ),
        screened(order, run.drop_last(), a) ==> screened(order, run, a),
        cleared(order, run.drop_last(), stellar_address) ==> cleared(order, run, stellar_address),
        url_given(order, run.drop_last(), stellar_address, sep24) ==> url_given(
            order,
            run,
            stellar_address,
            sep24,
        ),
{
    let init = run.drop_last();
    if comes_from(order, init, stellar_address) {
        let i = choose|i: int|
            0 <= i < init.len() && found_wallet(order, #[trigger] init[i], stellar_address);
        assert(run[i] == init[i]);
    }
    if screened(order, init, a) {
        let i = choose|i: int|
            0 <= i < init.len() && passed_screening(order, #[trigger] init[i], a);
        assert(run[i] == init[i]);
    }
    if cleared(order, init, stellar_address) {
        let i = choose|i: int|
            0 <= i < init.len() && passed_kyc(order, #[trigger] init[i], stellar_address);
        assert(run[i] == init[i]);
    }
    if url_given(order, init, stellar_address, sep24) {
        let i = choose|i: int|
            0 <= i < init.len() && got_url(order, #[trigger] init[i], stellar_address, sep24);
        assert(run[i] == init[i]);
    }
}

proof fn lemma_run_holds(
    kyc_required: bool,
    order: WithdrawalOrder,
    run: Seq<(WithdrawalStep, WithdrawalReply)>,
    last: WithdrawalStep,
)
    requires
        withdrawal_run(kyc_required, order, run, last),
    ensures
        run_holds(kyc_required, order, run, last),
    decreases run.len(),
{
    if run.len() > 0 {
        let init = run.drop_last();
        let taken = run.last();
        let end = run.len() - 1;
        lemma_run_holds(kyc_required, order, init, taken.0);
        assert(run[end] == taken);
        match (taken.0, taken.1) {
            (WithdrawalStep::FindWallet { .. }, WithdrawalReply::Wallet(Ok(address))) => {
                assert(found_wallet(order, run[end], address));
            },
            (
                WithdrawalStep::Assess { stellar_address, .. },
                WithdrawalReply::Assessed(Ok(a)),
            ) => {
                lemma_longer_run(order, run, stellar_address, a, arbitrary());
                if a.risk_level != RiskLevel::Blocked {
                    assert(passed_screening(order, run[end], a));
                    assert(gated(false, order, run, stellar_address, a));
                    if !kyc_required {
                        assert(gated(kyc_required, order, run, stellar_address, a));
                    }
                }
            },
            (
                WithdrawalStep::CheckKyc { stellar_address, .. },
                WithdrawalReply::Kyc(Ok(KycStatus::Cleared)),
            ) => {
                let a = choose|a: TransactionRiskAssessment| #[trigger]
                    gated(false, order, init, stellar_address, a);
                lemma_longer_run(order, run, stellar_address, a, arbitrary());
                assert(passed_kyc(order, run[end], stellar_address));
                assert(gated(kyc_required, order, run, stellar_address, a));
            },
            (WithdrawalStep::GetUrl { .. }, WithdrawalReply::Url(Ok(sep24))) => {
                let (stellar_address, a) = choose|
                    stellar_address: String,
                    a: TransactionRiskAssessment,
                | #[trigger]
                    gated(kyc_required, order, init, stellar_address, a) && taken.0 == url_step(
                        order,
                        stellar_address,
                    );
                lemma_longer_run(order, run, stellar_address, a, sep24);
                assert(got_url(order, run[end], stellar_address, sep24));
                assert(prepared(kyc_required, order, run, stellar_address, a, sep24));
            },
            (
                WithdrawalStep::Record { params },
                WithdrawalReply::Recorded(Ok(record)),
            ) => {
                let (stellar_address, a, sep24) = choose|
                    stellar_address: String,
                    a: TransactionRiskAssessment,
                    sep24: Sep24Interactive,
                | #[trigger]
                    prepared(kyc_required, order, init, stellar_address, a, sep24) && is_params(
                        order,
                        KycStatus::Cleared,
                        sep24,
                        params,
                    );
                lemma_longer_run(order, run, stellar_address, a, sep24);
                assert(was_recorded(order, run[end], sep24, record));
                assert(completed(kyc_required, order, run, stellar_address, a, sep24, record));
            },
            _ => {},
        }
    }
}

/// A withdrawal is stored only after a screening of that very transaction (its user, its
/// destination, its amount) which did not block it and, where the identity verification is
/// required, only after the anchor called this user, with the wallet that was looked up,
/// cleared; and what is stored is what was asked for, with the URL that the anchor gave
/// for it.
pub proof fn law_withdrawals_are_gated(
    kyc_required: bool,
    order: WithdrawalOrder,
    run: Seq<(WithdrawalStep, WithdrawalReply)>,
    params: CreateWithdrawalParams,
)
    requires
        withdrawal_run(kyc_required, order, run, (WithdrawalStep::Record { params })),
    ensures
        exists|
            stellar_address: String,
            a: TransactionRiskAssessment,
            sep24: Sep24Interactive,
        | #[trigger]
            prepared(kyc_required, order, run, stellar_address, a, sep24) && is_params(
                order,
                KycStatus::Cleared,
                sep24,
                params,
            ),
{
    lemma_run_holds(kyc_required, order, run, WithdrawalStep::Record { params });
}

/// A withdrawal is granted, and counted as created, only after it was stored, and after
/// all that stands before that; and the answer, of status 201, tells of what was stored.
pub proof fn law_granted_withdrawals_are_stored(
    kyc_required: bool,
    order: WithdrawalOrder,
    run: Seq<(WithdrawalStep, WithdrawalReply)>,
    event: Option<BusinessEvent>,
    outcome: Result<(u16, WithdrawalResponse), ApiError>,
)
    requires
        withdrawal_run(kyc_required, order, run, (WithdrawalStep::Finish { event, outcome })),
    ensures
        outcome matches Ok((status, _)) ==> status == 201,
        outcome matches Ok((_, r)) ==> exists|
            stellar_address: String,
            a: TransactionRiskAssessment,
            sep24: Sep24Interactive,
            record: WithdrawalRecord,
        | #[trigger]
            completed(kyc_required, order, run, stellar_address, a, sep24, record) && tells_of(
                record,
                r,
            ),
        outcome is Ok <==> event == Some(BusinessEvent::Created),
{
    lemma_run_holds(kyc_required, order, run, WithdrawalStep::Finish { event, outcome });
}

/// Every assessment in the run weighs the transaction of its step, by the given rules.
pub open spec fn replies_weigh(
    config: ComplianceConfig,
    run: Seq<(WithdrawalStep, WithdrawalReply)>,
) -> bool {
    forall|i: int| #![trigger run[i]]
        0 <= i < run.len() ==> (match run[i] {
            (
                WithdrawalStep::Assess { transaction, .. },
                WithdrawalReply::Assessed(Ok(a)),
            ) => weighed(config, transaction, a),
            _ => true,
        })
}

/// Where screenings are answered by weighing what they ask for, the anchor is asked for a
/// URL, or a withdrawal is stored or granted, only if weighing the withdrawal itself (its
/// user, its destination, its amount) found no sanctions match.
pub proof fn law_sanctioned_withdrawals_are_refused(
    config: ComplianceConfig,
    kyc_required: bool,
    order: WithdrawalOrder,
    run: Seq<(WithdrawalStep, WithdrawalReply)>,
    last: WithdrawalStep,
)
    requires
        withdrawal_run(kyc_required, order, run, last),
        replies_weigh(config, run),
        last is CheckKyc || last is GetUrl || last is Record || (last matches
            WithdrawalStep::Finish { outcome: Ok(_), .. }),
    ensures
        exists|a: TransactionRiskAssessment|
            {
                &&& #[trigger] screened(order, run, a)
                &&& weighed(config, transaction_of(order), a)
                &&& a.risk_level != RiskLevel::Blocked
                &&& !a.sanctions_match
            },
{
    lemma_run_holds(kyc_required, order, run, last);
    assert(exists|a: TransactionRiskAssessment| #[trigger] screened(order, run, a));
    let a = choose|a: TransactionRiskAssessment| #[trigger] screened(order, run, a);
    let i = choose|i: int| 0 <= i < run.len() && passed_screening(order, #[trigger] run[i], a);
    assert(weighed(config, transaction_of(order), a));
}

/// Every run ends after five replies at most, after four where the identity verification
/// is not required.
pub proof fn law_withdrawals_end(
    kyc_required: bool,
    order: WithdrawalOrder,
    run: Seq<(WithdrawalStep, WithdrawalReply)>,
    last: WithdrawalStep,
)
    requires
        withdrawal_run(kyc_required, order, run, last),
    ensures
        run.len() <= 5,
        run.len() == 5 ==> last is Finish,
        !kyc_required ==> run.len() <= 4,
{
    reveal_with_fuel(withdrawal_run, 7);
}

/// A live status is stored exactly where it is a final one, and it is stored as it is told,
/// for the withdrawal that was asked about.
pub proof fn law_only_final_statuses_are_stored(
    id: String,
    record: WithdrawalRecord,
    label: Seq<char>,
    step: StatusStep,
)
    requires
        follows_label(id, record, label, step),
    ensures
        step is Update <==> settled(label),
        step matches StatusStep::Update { id: i, label: l, .. } ==> i == id && l@ == label,
{
}

} // verus!
