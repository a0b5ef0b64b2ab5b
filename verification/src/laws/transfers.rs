//! What becomes of a transfer.

use crate::backend::api_error::ApiError;
use crate::backend::compliance::{
    assess, RiskLevel, RiskThresholds, SanctionsApiResponse, TransactionRiskAssessment,
};
use crate::backend::ids::drawn;
use crate::backend::transfers::{
    create_transfer, get_transfer, get_transfer_status, is_valid_stellar_address, recipient_found,
    sender_found, transaction_built, transfer_assessed, ArgumentValue, BusinessEvent,
    CreateTransferRequest, TransferOrder, TransferResponse, TransferStep,
};
use vstd::prelude::*;

verus! {

/// A request for a positive amount is taken up by looking up its sender; any other is
/// refused at once.
pub proof fn law_request(user_id: String, request: CreateTransferRequest, step: TransferStep)
    requires
        call_ensures(create_transfer, (user_id, request), step),
    ensures
        request.amount > 0 <==> step is FindSender,
        step matches TransferStep::FindSender { order, user_id: asked } ==> order.user_id == user_id
            && order.request == request && asked == user_id,
        request.amount <= 0 ==> (step matches TransferStep::Finish {
            event: None,
            outcome: Err(ApiError::Validation(text)),
        } && text@ == "Amount must be greater than zero"@),
{
}

/// After the sender the recipient is looked up, by the name that the request gives. A valid
/// address, one that begins with `G`, is screened: the sender moves the amount to it. An
/// invalid one is refused.
pub proof fn law_addresses(
    order: TransferOrder,
    wallet: Result<String, ApiError>,
    after_sender: TransferStep,
    from_address: String,
    recipient: Result<String, ApiError>,
    after_recipient: TransferStep,
    address: &str,
    valid: bool,
)
    requires
        call_ensures(sender_found, (order, wallet), after_sender),
        call_ensures(recipient_found, (order, from_address, recipient), after_recipient),
        call_ensures(is_valid_stellar_address, (address,), valid),
    ensures
        wallet matches Ok(a) ==> (after_sender matches TransferStep::FindRecipient {
            order: o,
            from_address: f,
            user_id,
        } && o == order && f == a && user_id == order.request.to_user_id),
        wallet matches Err(e) ==> after_sender == (TransferStep::Finish {
            event: None,
            outcome: Err(e),
        }),
        recipient matches Err(e) ==> after_recipient == (TransferStep::Finish {
            event: None,
            outcome: Err(e),
        }),
        recipient matches Ok(to) ==> (to@.len() > 0 && to@[0] == 'G' ==> (after_recipient matches
            TransferStep::Assess { order: o, from_address: f, to_address, transaction }
                && o == order
            && f == from_address && to_address == to && transaction.user_id == order.user_id
            && transaction.address == to && transaction.amount == order.request.amount)),
        recipient matches Ok(to) ==> (to@.len() == 0 || to@[0] != 'G' ==> (after_recipient matches
            TransferStep::Finish { event: None, outcome: Err(ApiError::Validation(text)) } && text@
            == "Recipient has an invalid Stellar address"@)),
        valid <==> address@.len() > 0 && address@[0] == 'G',
{
}

/// Only a blocked transfer is stopped, and it is counted as such. Every other one, of high
/// risk too, goes on to the building of its transaction, for the same order.
pub proof fn law_only_blocked_is_stopped(
    order: TransferOrder,
    from_address: String,
    to_address: String,
    assessment: Result<TransactionRiskAssessment, ApiError>,
    step: TransferStep,
)
    requires
        call_ensures(transfer_assessed, (order, from_address, to_address, assessment), step),
    ensures
        assessment matches Ok(a) ==> (a.risk_level != RiskLevel::Blocked <==> step is Build),
        assessment matches Ok(a) ==> (a.risk_level == RiskLevel::Blocked ==> (step matches
            TransferStep::Finish {
            event: Some(BusinessEvent::Blocked),
            outcome: Err(ApiError::Compliance(text)),
        } && text@ == "Transfer blocked by sanctions screening"@)),
        assessment matches Err(e) ==> step == (TransferStep::Finish {
            event: None,
            outcome: Err(e),
        }),
        step matches TransferStep::Build { order: o, .. } ==> o == order,
{
}

/// A transfer is blocked exactly if its recipient's address is sanctioned, whatever else was
/// found.
pub proof fn law_blocked_means_sanctioned(
    thresholds: RiskThresholds,
    user_id: &str,
    address: &str,
    amount: i64,
    sanctions: SanctionsApiResponse,
    velocity_ok: bool,
    a: TransactionRiskAssessment,
    order: TransferOrder,
    from_address: String,
    to_address: String,
    step: TransferStep,
)
    requires
        call_ensures(
            assess,
            (&thresholds, user_id, address, amount, sanctions, velocity_ok),
            a,
        ),
        call_ensures(
            transfer_assessed,
            (order, from_address, to_address, Ok::<TransactionRiskAssessment, ApiError>(a)),
            step,
        ),
    ensures
        sanctions.sanctioned <==> (step matches TransferStep::Finish {
            event: Some(BusinessEvent::Blocked),
            ..
        }),
        !sanctions.sanctioned <==> step is Build,
{
}

/// The contract is called with sender, recipient, their addresses, asset, amount and memo of
/// the order, under these names and in this order.
pub proof fn law_contract_call(
    order: TransferOrder,
    from_address: String,
    to_address: String,
    assessment: Result<TransactionRiskAssessment, ApiError>,
    step: TransferStep,
)
    requires
        call_ensures(transfer_assessed, (order, from_address, to_address, assessment), step),
        step is Build,
    ensures
        ({
            let dto = step->dto;
            let args = dto.args@;
            &&& dto.contract_id@ == "user_to_user_transfer"@
            &&& dto.method@ == "transfer"@
            &&& args.len() == 7
            &&& args[0].name@ == "from_user_id"@ && args[0].value == ArgumentValue::Text(
                order.user_id,
            )
            &&& args[1].name@ == "from_address"@ && args[1].value == ArgumentValue::Text(
                from_address,
            )
            &&& args[2].name@ == "to_user_id"@ && args[2].value == ArgumentValue::Text(
                order.request.to_user_id,
            )
            &&& args[3].name@ == "to_address"@ && args[3].value == ArgumentValue::Text(to_address)
            &&& args[4].name@ == "asset"@ && args[4].value == ArgumentValue::Text(
                order.request.asset,
            )
            &&& args[5].name@ == "amount"@ && args[5].value == ArgumentValue::Number(
                order.request.amount,
            )
            &&& args[6].name@ == "memo"@ && args[6].value == ArgumentValue::Note(
                order.request.memo,
            )
        }),
{
}

/// Once its transaction is built a transfer is granted as it was asked for, pending, under a
/// random identifier, and counted as created.
pub proof fn law_grant(
    order: TransferOrder,
    xdr: Result<String, ApiError>,
    step: TransferStep,
)
    requires
        call_ensures(transaction_built, (order, xdr), step),
    ensures
        xdr matches Err(e) ==> step == (TransferStep::Finish { event: None, outcome: Err(e) }),
        xdr matches Ok(x) ==> {
            &&& step matches TransferStep::Finish {
                event: Some(BusinessEvent::Created),
                outcome: Ok(r),
            }
            &&& drawn(r.id)
            &&& (r.id >> 76) & 0xf == 4
            &&& (r.id >> 62) & 3 == 2
            &&& r.from_user_id == order.user_id
            &&& r.to_user_id == order.request.to_user_id
            &&& r.amount == order.request.amount
            &&& r.asset == order.request.asset
            &&& r.memo == order.request.memo
            &&& r.status@ == "pending"@
            &&& r.unsigned_xdr == x
        },
{
}

/// No transfer, and no status of one, is found.
pub proof fn law_nothing_is_kept(
    id: u128,
    transfer: Result<TransferResponse, ApiError>,
    status: Result<String, ApiError>,
)
    requires
        call_ensures(get_transfer, (id,), transfer),
        call_ensures(get_transfer_status, (id,), status),
    ensures
        transfer matches Err(ApiError::NotFound(text)) && text@ == "Not implemented"@,
        status matches Err(ApiError::NotFound(text)) && text@ == "Not implemented"@,
{
}

/// Events are counted under their names.
pub proof fn law_event_names(event: BusinessEvent, name: &'static str)
    requires
        call_ensures(BusinessEvent::label, (&event,), name),
    ensures
        event == BusinessEvent::Blocked ==> name@ == "blocked"@,
        event == BusinessEvent::Created ==> name@ == "created"@,
{
}

} // verus!
