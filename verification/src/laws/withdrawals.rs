//! What becomes of a withdrawal.

use crate::backend::api_error::ApiError;
use crate::backend::compliance::{
    assess, RiskLevel, RiskThresholds, SanctionsApiResponse, TransactionRiskAssessment,
};
use crate::backend::text::{decimal_i64, lowercase};
use crate::backend::transfers::BusinessEvent;
use crate::backend::withdrawals::{
    anchor_labelled, anchor_polled, create_withdrawal, get_withdrawal, get_withdrawal_status,
    initiate_sep31_payout, kyc_checked, record_found, sep31_payout_initiated, status_updated,
    url_obtained, wallet_found, withdrawal_assessed, withdrawal_key, withdrawal_recorded,
    CreateWithdrawalRequest, InitiateSep31PayoutRequest, KycStatus, Sep24Interactive, Sep31Payout,
    Sep31PayoutInitResponse, Sep31PayoutParams, StatusStep, WithdrawalOrder, WithdrawalRecord,
    WithdrawalResponse, WithdrawalStep,
};
use vstd::prelude::*;

verus! {

/// A request is taken up by looking up the user's wallet. Once it is found, what is screened
/// is that the user moves the amount to the destination.
pub proof fn law_request(
    user_id: String,
    request: CreateWithdrawalRequest,
    first: WithdrawalStep,
    order: WithdrawalOrder,
    wallet: Result<String, ApiError>,
    next: WithdrawalStep,
)
    requires
        call_ensures(create_withdrawal, (user_id, request), first),
        call_ensures(wallet_found, (order, wallet), next),
    ensures
        first matches WithdrawalStep::FindWallet { order: o, user_id: asked }
            && o.user_id == user_id
            && o.request == request && asked == user_id,
        wallet matches Ok(w) ==> (next matches WithdrawalStep::Assess {
            order: o,
            stellar_address,
            transaction,
        } && o == order && stellar_address == w && transaction.user_id == order.user_id
            && transaction.address == order.request.destination_address && transaction.amount
            == order.request.amount),
        wallet is Err ==> (next matches WithdrawalStep::Finish {
            event: None,
            outcome: Err(ApiError::NotFound(text)),
        } && text@ == "No wallet found for user "@ + order.user_id@),
{
}

/// Only a blocked withdrawal is stopped by the screening, and it is counted as such. Every
/// other one, of high risk too, goes on: to the identity verification where it is required,
/// to the interactive URL where it is not.
pub proof fn law_only_blocked_is_stopped(
    kyc_required: bool,
    order: WithdrawalOrder,
    wallet: String,
    assessment: Result<TransactionRiskAssessment, ApiError>,
    step: WithdrawalStep,
)
    requires
        call_ensures(withdrawal_assessed, (kyc_required, order, wallet, assessment), step),
    ensures
        assessment matches Ok(a) ==> (a.risk_level == RiskLevel::Blocked <==> step is Finish),
        assessment matches Ok(a) ==> (a.risk_level == RiskLevel::Blocked ==> (step matches
            WithdrawalStep::Finish {
            event: Some(BusinessEvent::Blocked),
            outcome: Err(ApiError::Compliance(text)),
        } && text@ == "Withdrawal blocked by sanctions screening"@)),
        assessment matches Ok(a) ==> (a.risk_level != RiskLevel::Blocked && kyc_required ==> (
        step matches WithdrawalStep::CheckKyc { order: o, stellar_address, query } && o == order
            && stellar_address == wallet && query.user_id == order.user_id && query.stellar_address
            == wallet)),
        assessment matches Ok(a) ==> (a.risk_level != RiskLevel::Blocked && !kyc_required ==> (
        step matches WithdrawalStep::GetUrl { order: o, kyc_status: KycStatus::Cleared, url_query }
            && o == order && url_query.user_id == order.user_id && url_query.stellar_address
            == wallet && url_query.asset == order.request.asset && url_query.amount
            == order.request.amount)),
        assessment matches Err(e) ==> step == (WithdrawalStep::Finish {
            event: None,
            outcome: Err(e),
        }),
{
}

/// A withdrawal ends as blocked exactly if its destination is sanctioned, whatever else the
/// screening found; otherwise it goes on.
pub proof fn law_blocked_means_sanctioned(
    thresholds: RiskThresholds,
    user_id: &str,
    address: &str,
    amount: i64,
    sanctions: SanctionsApiResponse,
    velocity_ok: bool,
    a: TransactionRiskAssessment,
    kyc_required: bool,
    order: WithdrawalOrder,
    wallet: String,
    step: WithdrawalStep,
)
    requires
        call_ensures(
            assess,
            (&thresholds, user_id, address, amount, sanctions, velocity_ok),
            a,
        ),
        call_ensures(
            withdrawal_assessed,
            (kyc_required, order, wallet, Ok::<TransactionRiskAssessment, ApiError>(a)),
            step,
        ),
    ensures
        sanctions.sanctioned <==> (step matches WithdrawalStep::Finish {
            event: Some(BusinessEvent::Blocked),
            ..
        }),
        !sanctions.sanctioned && kyc_required <==> step is CheckKyc,
        !sanctions.sanctioned && !kyc_required <==> step is GetUrl,
{
}

/// Whoever is cleared goes on to the interactive URL, for the same order and wallet; whoever
/// is not is told the status and turned away.
pub proof fn law_identity_verification(
    order: WithdrawalOrder,
    wallet: String,
    status: Result<KycStatus, ApiError>,
    step: WithdrawalStep,
)
    requires
        call_ensures(kyc_checked, (order, wallet, status), step),
    ensures
        status matches Ok(KycStatus::Cleared) ==> (step matches WithdrawalStep::GetUrl {
            order: o,
            kyc_status: KycStatus::Cleared,
            url_query,
        } && o == order && url_query.user_id == order.user_id && url_query.stellar_address == wallet
            && url_query.asset == order.request.asset && url_query.amount == order.request.amount),
        status matches Ok(KycStatus::NotCleared(shown)) ==> (step matches WithdrawalStep::Finish {
            event: None,
            outcome: Err(ApiError::Authorization(text)),
        } && text@ == "KYC check failed: your status is "@ + shown@
            + ". Please complete identity verification at the anchor before withdrawing."@),
        status matches Err(e) ==> step == (WithdrawalStep::Finish { event: None, outcome: Err(e) }),
{
}

/// What is stored is the order with what the anchor gave for it; what is granted, with status
/// 201 and counted as created, is what was stored, in every field. Errors from outside end
/// the withdrawal as they are.
pub proof fn law_record(
    order: WithdrawalOrder,
    kyc_status: KycStatus,
    sep24: Result<Sep24Interactive, ApiError>,
    to_store: WithdrawalStep,
    record: Result<WithdrawalRecord, ApiError>,
    granted: WithdrawalStep,
)
    requires
        call_ensures(url_obtained, (order, kyc_status, sep24), to_store),
        call_ensures(withdrawal_recorded, (record,), granted),
    ensures
        sep24 matches Err(e) ==> to_store == (WithdrawalStep::Finish {
            event: None,
            outcome: Err(e),
        }),
        sep24 matches Ok(s) ==> (to_store matches WithdrawalStep::Record { params }
            && params.user_id
            == order.user_id && params.destination_address == order.request.destination_address
            && params.amount == order.request.amount && params.asset == order.request.asset
            && params.anchor_tx_id == Some(s.anchor_tx_id) && params.kyc_status == kyc_status
            && params.sep24_interactive_url == Some(s.url)),
        record matches Err(e) ==> granted == (WithdrawalStep::Finish {
            event: None,
            outcome: Err(e),
        }),
        record matches Ok(w) ==> (granted matches WithdrawalStep::Finish {
            event: Some(BusinessEvent::Created),
            outcome: Ok((status, r)),
        } && status == 201 && same_withdrawal(w, r)),
{
}

/// The answer is the record, in every field that it has.
pub open spec fn same_withdrawal(w: WithdrawalRecord, r: WithdrawalResponse) -> bool {
    &&& r.id == w.id
    &&& r.user_id == w.user_id
    &&& r.destination_address == w.destination_address
    &&& r.amount == w.amount
    &&& r.asset == w.asset
    &&& r.status == w.status
    &&& r.anchor_tx_id == w.anchor_tx_id
    &&& r.kyc_status == w.kyc_status
    &&& r.sep24_interactive_url == w.sep24_interactive_url
    &&& r.created_at == w.created_at
}

/// A withdrawal is looked up under the text of its identifier and told as it is stored.
pub proof fn law_look_up(
    id: u128,
    key: String,
    first: StatusStep,
    record: Result<WithdrawalRecord, ApiError>,
    told: Result<WithdrawalResponse, ApiError>,
)
    requires
        call_ensures(withdrawal_key, (id,), key),
        call_ensures(get_withdrawal_status, (id,), first),
        call_ensures(get_withdrawal, (record,), told),
    ensures
        key@.len() == 36,
        first matches StatusStep::FindRecord { id: asked } && asked@ == key@,
        record matches Ok(w) ==> (told matches Ok(r) && same_withdrawal(w, r)),
        record matches Err(e) ==> told == Err::<WithdrawalResponse, ApiError>(e),
{
}

/// The text of an identifier is its 32 hexadecimal digits, the most significant one first and
/// in lower case, in groups of 8, 4, 4, 4 and 12 with hyphens between the groups.
pub proof fn law_key(id: u128, key: String, k: int)
    requires
        call_ensures(withdrawal_key, (id,), key),
        0 <= k < 32,
    ensures
        key@.len() == 36,
        key@[8] == '-' && key@[13] == '-' && key@[18] == '-' && key@[23] == '-',
        ({
            let digit = (id >> ((124 - 4 * k) as u128)) & 0xf;
            let place = if k < 8 {
                k
            } else if k < 12 {
                k + 1
            } else if k < 16 {
                k + 2
            } else if k < 20 {
                k + 3
            } else {
                k + 4
            };
            key@[place] == (if digit < 10 {
                (digit + 48) as char
            } else {
                (digit + 87) as char
            })
        }),
{
}

/// The anchor is asked for the live status only where it knows of the withdrawal; where it
/// does not, the stored status is told alone.
pub proof fn law_live_status_is_asked(
    id: String,
    record: Result<WithdrawalRecord, ApiError>,
    step: StatusStep,
)
    requires
        call_ensures(record_found, (id, record), step),
    ensures
        record matches Err(e) ==> step == StatusStep::Finish(Err(e)),
        record matches Ok(w) ==> (w.anchor_tx_id matches Some(tx) ==> step == (StatusStep::Poll {
            id,
            record: w,
            anchor_tx_id: tx,
        })),
        record matches Ok(w) ==> (w.anchor_tx_id is None ==> (step matches StatusStep::Finish(
            Ok(r),
        ) && r.id == w.id && r.status == w.status && r.updated_at == w.updated_at
            && r.anchor_status is None)),
{
}

/// A live status is stored, under the withdrawal's identifier, exactly if it is one of the
/// four after which nothing more happens. Either way it is told beside the stored one. A live
/// status that could not be had is not told.
pub proof fn law_live_status(
    id: String,
    record: WithdrawalRecord,
    label: String,
    step: StatusStep,
    after_update: StatusStep,
    name: Option<String>,
    polled: StatusStep,
)
    requires
        call_ensures(anchor_labelled, (id, record, label), step),
        call_ensures(status_updated, (record, label), after_update),
        call_ensures(anchor_polled, (id, record, name), polled),
    ensures
        step is Update <==> label@ == "completed"@ || label@ == "error"@ || label@ == "refunded"@
            || label@ == "expired"@,
        step matches StatusStep::Update { id: i, record: w, label: l } ==> i == id && w == record
            && l@ == label@,
        !(step is Update) ==> (step matches StatusStep::Finish(Ok(r)) && r.id == record.id
            && r.status == record.status && r.updated_at == record.updated_at && (
        r.anchor_status matches Some(told) && told@ == label@)),
        after_update matches StatusStep::Finish(Ok(r)) && r.id == record.id && r.status
            == record.status && r.updated_at == record.updated_at && (r.anchor_status matches Some(
            told,
        ) && told@ == label@),
        name is None ==> (polled matches StatusStep::Finish(Ok(r)) && r.id == record.id && r.status
            == record.status && r.updated_at == record.updated_at && r.anchor_status is None),
{
}

/// The name of a live status is taken in lower case: what follows it is what follows that
/// label.
pub proof fn law_names_are_lowered(
    id: String,
    record: WithdrawalRecord,
    name: String,
    polled: StatusStep,
    label: String,
    labelled: StatusStep,
)
    requires
        call_ensures(anchor_polled, (id, record, Some(name)), polled),
        label@ == lowercase(name@),
        call_ensures(anchor_labelled, (id, record, label), labelled),
    ensures
        polled is Update <==> labelled is Update,
        polled matches StatusStep::Update { id: i, record: w, label: l } ==> i == id && w == record
            && l@ == label@,
        !(polled is Update) ==> (polled matches StatusStep::Finish(Ok(r)) && r.id == record.id
            && r.status == record.status && r.updated_at == record.updated_at && (
        r.anchor_status matches Some(told) && told@ == label@)),
{
}

/// A payout is asked of the anchor for the user who asks, with the amount in decimal and all
/// else as it was asked for; and the anchor's answer is passed on as it is.
pub proof fn law_payout(
    user_id: String,
    request: InitiateSep31PayoutRequest,
    p: Sep31PayoutParams,
    amount: String,
    payout: Result<Sep31Payout, ApiError>,
    r: Result<Sep31PayoutInitResponse, ApiError>,
)
    requires
        call_ensures(initiate_sep31_payout, (user_id, request), p),
        call_ensures(decimal_i64, (request.amount,), amount),
        call_ensures(sep31_payout_initiated, (payout,), r),
    ensures
        p.amount@ == amount@,
        p.asset_code == request.asset_code,
        p.asset_issuer == request.asset_issuer,
        p.sender_id == user_id,
        p.receiver_id == request.receiver_id,
        p.memo == request.memo,
        payout matches Err(e) ==> r == Err::<Sep31PayoutInitResponse, ApiError>(e),
        payout matches Ok(s) ==> (r matches Ok(t) && t.anchor_tx_id == s.anchor_tx_id
            && t.stellar_account_id == s.stellar_account_id && t.stellar_memo_type
            == s.stellar_memo_type && t.stellar_memo == s.stellar_memo),
{
}

} // verus!
