//! Transfers from one user to another.
//!
//! A transfer is made in steps: each step says what is to be done outside, and the
//! outcome of that leads to the next step.

use super::api_error::ApiError;
use super::compliance::{
    weighed, ComplianceConfig, RiskLevel, Transaction, TransactionRiskAssessment,
};
use super::ids::{draw_id, drawn, variant, version};
use vstd::prelude::*;

verus! {

/// What a user asks for.
#[derive(Debug)]
pub struct CreateTransferRequest {
    pub to_user_id: String,
    pub amount: i64,
    pub asset: String,
    pub memo: Option<String>,
}

/// The answer to a request that was granted.
#[derive(Debug)]
pub struct TransferResponse {
    pub id: u128,
    pub from_user_id: String,
    pub to_user_id: String,
    pub amount: i64,
    pub asset: String,
    pub status: String,
    pub memo: Option<String>,
    /// Unsigned transaction XDR for the user-to-user transfer
    pub unsigned_xdr: String,
}

/// The value of an argument of a contract call.
#[derive(Debug)]
pub enum ArgumentValue {
    Text(String),
    Number(i64),
    /// A text that may be missing.
    Note(Option<String>),
}

/// A named argument of a contract call.
#[derive(Debug)]
pub struct Argument {
    pub name: String,
    pub value: ArgumentValue,
}

/// A contract call that a transaction is to be built for.
#[derive(Debug)]
pub struct BuildTransactionDto {
    pub contract_id: String,
    pub method: String,
    pub args: Vec<Argument>,
}

/// A request and the user who made it.
#[derive(Debug)]
pub struct TransferOrder {
    pub user_id: String,
    pub request: CreateTransferRequest,
}

/// What is counted of the requests.
#[derive(Clone, Copy, PartialEq, Eq, Structural, Debug)]
pub enum BusinessEvent {
    Blocked,
    Created,
}

impl BusinessEvent {
    /// The name of the event.
    pub open spec fn text(self) -> Seq<char> {
        match self {
            BusinessEvent::Blocked => "blocked"@,
            BusinessEvent::Created => "created"@,
        }
    }

    /// The name of the event.
    pub fn label(&self) -> (text: &'static str)
        ensures
            text@ == self.text(),
    {
        match self {
            BusinessEvent::Blocked => "blocked",
            BusinessEvent::Created => "created",
        }
    }
}

/// How far a transfer has come, and what is to be done next.
#[derive(Debug)]
pub enum TransferStep {
    /// Look up the address of the named user's wallet: the sender's.
    FindSender { order: TransferOrder, user_id: String },
    /// Look up the address of the named user: the recipient's.
    FindRecipient { order: TransferOrder, from_address: String, user_id: String },
    /// Screen the transaction.
    Assess {
        order: TransferOrder,
        from_address: String,
        to_address: String,
        transaction: Transaction,
    },
    /// Build the transaction.
    Build { order: TransferOrder, dto: BuildTransactionDto },
    /// The transfer is over: count the event and answer.
    Finish { event: Option<BusinessEvent>, outcome: Result<TransferResponse, ApiError> },
}

/// What came of a step.
pub enum TransferReply {
    Sender(Result<String, ApiError>),
    Recipient(Result<String, ApiError>),
    Assessed(Result<TransactionRiskAssessment, ApiError>),
    Built(Result<String, ApiError>),
}

/// An address that a transfer can go to.
pub open spec fn valid_address(address: Seq<char>) -> bool {
    address.len() > 0 && address[0] == 'G'
}

/// Whether a transfer can go to the address.
pub fn is_valid_stellar_address(address: &str) -> (b: bool)
    ensures
        b == valid_address(address@),
{
    address.unicode_len() > 0 && address.get_char(0) == 'G'
}

/// `step` ends the transfer with an error of the caller's making.
pub open spec fn rejects(step: TransferStep, text: Seq<char>) -> bool {
    step matches TransferStep::Finish { event: None, outcome: Err(ApiError::Validation(t)) } && t@
        == text
}

/// `step` ends the transfer with an error that came from outside.
pub open spec fn passes_on(step: TransferStep, error: ApiError) -> bool {
    step == (TransferStep::Finish { event: None, outcome: Err(error) })
}

/// An argument has the name and the value.
pub open spec fn is_argument(a: Argument, name: Seq<char>, value: ArgumentValue) -> bool {
    a.name@ == name && a.value == value
}

/// `dto` is the contract call for the transfer.
pub open spec fn is_transfer_call(
    order: TransferOrder,
    from_address: String,
    to_address: String,
    dto: BuildTransactionDto,
) -> bool {
    &&& dto.contract_id@ == "user_to_user_transfer"@
    &&& dto.method@ == "transfer"@
    &&& dto.args@.len() == 7
    &&& is_argument(dto.args@[0], "from_user_id"@, ArgumentValue::Text(order.user_id))
    &&& is_argument(dto.args@[1], "from_address"@, ArgumentValue::Text(from_address))
    &&& is_argument(dto.args@[2], "to_user_id"@, ArgumentValue::Text(order.request.to_user_id))
    &&& is_argument(dto.args@[3], "to_address"@, ArgumentValue::Text(to_address))
    &&& is_argument(dto.args@[4], "asset"@, ArgumentValue::Text(order.request.asset))
    &&& is_argument(dto.args@[5], "amount"@, ArgumentValue::Number(order.request.amount))
    &&& is_argument(dto.args@[6], "memo"@, ArgumentValue::Note(order.request.memo))
}

/// The transaction that is screened for a transfer: the sender moves the amount to the
/// recipient's address.
pub open spec fn transaction_of(order: TransferOrder, to_address: String) -> Transaction {
    Transaction { user_id: order.user_id, address: to_address, amount: order.request.amount }
}

/// `step` is the first one of a request.
pub open spec fn starts_transfer(order: TransferOrder, step: TransferStep) -> bool {
    if order.request.amount <= 0 {
        rejects(step, "Amount must be greater than zero"@)
    } else {
        step == (TransferStep::FindSender { order, user_id: order.user_id })
    }
}

/// `step` follows the look-up of the sender.
pub open spec fn follows_sender(
    order: TransferOrder,
    wallet: Result<String, ApiError>,
    step: TransferStep,
) -> bool {
    match wallet {
        Ok(from_address) => step == (TransferStep::FindRecipient {
            order,
            from_address,
            user_id: order.request.to_user_id,
        }),
        Err(e) => passes_on(step, e),
    }
}

/// `step` follows the look-up of the recipient.
pub open spec fn follows_recipient(
    order: TransferOrder,
    from_address: String,
    recipient: Result<String, ApiError>,
    step: TransferStep,
) -> bool {
    match recipient {
        Ok(to_address) => if valid_address(to_address@) {
            step == (TransferStep::Assess {
                order,
                from_address,
                to_address,
                transaction: transaction_of(order, to_address),
            })
        } else {
            rejects(step, "Recipient has an invalid Stellar address"@)
        },
        Err(e) => passes_on(step, e),
    }
}

/// `step` follows the screening.
pub open spec fn follows_assessment(
    order: TransferOrder,
    from_address: String,
    to_address: String,
    assessment: Result<TransactionRiskAssessment, ApiError>,
    step: TransferStep,
) -> bool {
    match assessment {
        Ok(a) => if a.risk_level == RiskLevel::Blocked {
            step matches TransferStep::Finish {
                event: Some(BusinessEvent::Blocked),
                outcome: Err(ApiError::Compliance(t)),
            } && t@ == "Transfer blocked by sanctions screening"@
        } else {
            step matches TransferStep::Build { order: o, dto } && o == order && is_transfer_call(
                order,
                from_address,
                to_address,
                dto,
            )
        },
        Err(e) => passes_on(step, e),
    }
}

/// `r` grants the order.
pub open spec fn grants(order: TransferOrder, unsigned_xdr: String, r: TransferResponse) -> bool {
    &&& drawn(r.id)
    &&& version(r.id) == 4
    &&& variant(r.id) == 2
    &&& r.from_user_id == order.user_id
    &&& r.to_user_id == order.request.to_user_id
    &&& r.amount == order.request.amount
    &&& r.asset == order.request.asset
    &&& r.status@ == "pending"@
    &&& r.memo == order.request.memo
    &&& r.unsigned_xdr == unsigned_xdr
}

/// `step` follows the building of the transaction.
pub open spec fn follows_building(
    order: TransferOrder,
    xdr: Result<String, ApiError>,
    step: TransferStep,
) -> bool {
    match xdr {
        Ok(unsigned_xdr) => step matches TransferStep::Finish {
            event: Some(BusinessEvent::Created),
            outcome: Ok(r),
        } && grants(order, unsigned_xdr, r),
        Err(e) => passes_on(step, e),
    }
}

fn reject(text: &str) -> (step: TransferStep)
    ensures
        rejects(step, text@),
{
    TransferStep::Finish { event: None, outcome: Err(ApiError::Validation(text.to_owned())) }
}

fn argument(name: &str, value: ArgumentValue) -> (a: Argument)
    ensures
        is_argument(a, name@, value),
{
    Argument { name: name.to_owned(), value }
}

/// Takes up the request of a user.
pub fn create_transfer(user_id: String, request: CreateTransferRequest) -> (step: TransferStep)
    ensures
        starts_transfer((TransferOrder { user_id, request }), step),
{
    if request.amount <= 0 {
        return reject("Amount must be greater than zero");
    }
    let sender = user_id.clone();
    TransferStep::FindSender { order: TransferOrder { user_id, request }, user_id: sender }
}

/// Goes on after the address of the sender's wallet was looked up.
pub fn sender_found(order: TransferOrder, wallet: Result<String, ApiError>) -> (step: TransferStep)
    ensures
        follows_sender(order, wallet, step),
{
    match wallet {
        Ok(from_address) => {
            let user_id = order.request.to_user_id.clone();
            TransferStep::FindRecipient { order, from_address, user_id }
        },
        Err(e) => TransferStep::Finish { event: None, outcome: Err(e) },
    }
}

/// The transaction that is screened for a transfer.
fn transfer_transaction(order: &TransferOrder, to_address: &String) -> (t: Transaction)
    ensures
        t == transaction_of(*order, *to_address),
{
    Transaction {
        user_id: order.user_id.clone(),
        address: to_address.clone(),
        amount: order.request.amount,
    }
}

/// Goes on after the address of the recipient was looked up.
pub fn recipient_found(
    order: TransferOrder,
    from_address: String,
    recipient: Result<String, ApiError>,
) -> (step: TransferStep)
    ensures
        follows_recipient(order, from_address, recipient, step),
{
    match recipient {
        Ok(to_address) => {
            if !is_valid_stellar_address(to_address.as_str()) {
                return reject("Recipient has an invalid Stellar address");
            }
            let transaction = transfer_transaction(&order, &to_address);
            TransferStep::Assess { order, from_address, to_address, transaction }
        },
        Err(e) => TransferStep::Finish { event: None, outcome: Err(e) },
    }
}

/// The contract call for a transfer.
fn transfer_call(order: &TransferOrder, from_address: String, to_address: String) -> (dto:
    BuildTransactionDto)
    ensures
        is_transfer_call(*order, from_address, to_address, dto),
{
    let memo = match &order.request.memo {
        Some(m) => Some(m.clone()),
        None => None,
    };
    let mut args: Vec<Argument> = Vec::new();
    args.push(argument("from_user_id", ArgumentValue::Text(order.user_id.clone())));
    args.push(argument("from_address", ArgumentValue::Text(from_address)));
    args.push(argument("to_user_id", ArgumentValue::Text(order.request.to_user_id.clone())));
    args.push(argument("to_address", ArgumentValue::Text(to_address)));
    args.push(argument("asset", ArgumentValue::Text(order.request.asset.clone())));
    args.push(argument("amount", ArgumentValue::Number(order.request.amount)));
    args.push(argument("memo", ArgumentValue::Note(memo)));
    BuildTransactionDto {
        contract_id: "user_to_user_transfer".to_owned(),
        method: "transfer".to_owned(),
        args,
    }
}

/// Goes on after the transfer was screened.
pub fn transfer_assessed(
    order: TransferOrder,
    from_address: String,
    to_address: String,
    assessment: Result<TransactionRiskAssessment, ApiError>,
) -> (step: TransferStep)
    ensures
        follows_assessment(order, from_address, to_address, assessment, step),
{
    match assessment {
        Ok(a) => {
            if a.risk_level == RiskLevel::Blocked {
                return TransferStep::Finish {
                    event: Some(BusinessEvent::Blocked),
                    outcome: Err(
                        ApiError::Compliance("Transfer blocked by sanctions screening".to_owned()),
                    ),
                };
            }
            let dto = transfer_call(&order, from_address, to_address);
            TransferStep::Build { order, dto }
        },
        Err(e) => TransferStep::Finish { event: None, outcome: Err(e) },
    }
}

/// Goes on after the transaction was built.
pub fn transaction_built(order: TransferOrder, xdr: Result<String, ApiError>) -> (step: TransferStep)
    ensures
        follows_building(order, xdr, step),
{
    match xdr {
        Ok(unsigned_xdr) => TransferStep::Finish {
            event: Some(BusinessEvent::Created),
            outcome: Ok(
                TransferResponse {
                    id: draw_id(),
                    from_user_id: order.user_id,
                    to_user_id: order.request.to_user_id,
                    amount: order.request.amount,
                    asset: order.request.asset,
                    status: "pending".to_owned(),
                    memo: order.request.memo,
                    unsigned_xdr,
                },
            ),
        },
        Err(e) => TransferStep::Finish { event: None, outcome: Err(e) },
    }
}

/// Transfers are not kept, so none is found.
pub fn get_transfer(transfer_id: u128) -> (r: Result<TransferResponse, ApiError>)
    ensures
        r matches Err(ApiError::NotFound(t)) && t@ == "Not implemented"@,
{
    Err(ApiError::NotFound("Not implemented".to_owned()))
}

/// Transfers are not kept, so there is no status of one.
pub fn get_transfer_status(transfer_id: u128) -> (r: Result<String, ApiError>)
    ensures
        r matches Err(ApiError::NotFound(t)) && t@ == "Not implemented"@,
{
    Err(ApiError::NotFound("Not implemented".to_owned()))
}

/// `next` follows `step` once the reply is there.
pub open spec fn transfer_moves(step: TransferStep, reply: TransferReply, next: TransferStep) -> bool {
    match (step, reply) {
        (TransferStep::FindSender { order, .. }, TransferReply::Sender(r)) => follows_sender(
            order,
            r,
            next,
        ),
        (TransferStep::FindRecipient { order, from_address, .. }, TransferReply::Recipient(r)) =>
            follows_recipient(order, from_address, r, next),
        (
            TransferStep::Assess { order, from_address, to_address, .. },
            TransferReply::Assessed(r),
        ) => follows_assessment(order, from_address, to_address, r, next),
        (TransferStep::Build { order, .. }, TransferReply::Built(r)) => follows_building(
            order,
            r,
            next,
        ),
        _ => false,
    }
}

/// A run of a transfer: the steps that were taken with the replies to them, and the
/// step that they led to.
pub open spec fn transfer_run(
    order: TransferOrder,
    run: Seq<(TransferStep, TransferReply)>,
    last: TransferStep,
) -> bool
    decreases run.len(),
{
    if run.len() == 0 {
        starts_transfer(order, last)
    } else {
        &&& transfer_run(order, run.drop_last(), run.last().0)
        &&& transfer_moves(run.last().0, run.last().1, last)
    }
}

/// A look-up of the sender of this order that gave the address.
pub open spec fn found_sender(
    order: TransferOrder,
    taken: (TransferStep, TransferReply),
    from_address: String,
) -> bool {
    &&& taken.0 matches TransferStep::FindSender { order: o, user_id } && o == order && user_id
        == order.user_id
    &&& taken.1 == TransferReply::Sender(Ok(from_address))
}

/// The run holds a look-up that gave the address for the sender's wallet.
pub open spec fn comes_from(
    order: TransferOrder,
    run: Seq<(TransferStep, TransferReply)>,
    from_address: String,
) -> bool {
    exists|i: int| 0 <= i < run.len() && found_sender(order, #[trigger] run[i], from_address)
}

/// A look-up of the recipient of this order that gave the address.
pub open spec fn found_recipient(
    order: TransferOrder,
    taken: (TransferStep, TransferReply),
    to_address: String,
) -> bool {
    &&& taken.0 matches TransferStep::FindRecipient { order: o, user_id, .. } && o == order
        && user_id == order.request.to_user_id
    &&& taken.1 == TransferReply::Recipient(Ok(to_address))
}

/// The address is a valid one, and the run holds a look-up that gave it for the recipient.
pub open spec fn goes_to(
    order: TransferOrder,
    run: Seq<(TransferStep, TransferReply)>,
    to_address: String,
) -> bool {
    &&& valid_address(to_address@)
    &&& exists|i: int|
        0 <= i < run.len() && found_recipient(order, #[trigger] run[i], to_address)
}

/// A screening of the very transaction that this order makes to the address, with this
/// outcome, which does not block it.
pub open spec fn passed_screening(
    order: TransferOrder,
    taken: (TransferStep, TransferReply),
    to_address: String,
    a: TransactionRiskAssessment,
) -> bool {
    &&& taken.0 matches TransferStep::Assess { order: o, to_address: to, transaction, .. } && o
        == order && to == to_address && transaction == transaction_of(order, to_address)
    &&& taken.1 == TransferReply::Assessed(Ok(a))
    &&& a.risk_level != RiskLevel::Blocked
}

/// The run holds a screening of what this order moves to the address, with this outcome,
/// which does not block it.
pub open spec fn screened(
    order: TransferOrder,
    run: Seq<(TransferStep, TransferReply)>,
    to_address: String,
    a: TransactionRiskAssessment,
) -> bool {
    exists|i: int|
        0 <= i < run.len() && passed_screening(order, #[trigger] run[i], to_address, a)
}

/// The amount is positive, the addresses are those of sender and recipient, and the
/// transaction to the recipient's was screened with this outcome.
pub open spec fn cleared_for(
    order: TransferOrder,
    run: Seq<(TransferStep, TransferReply)>,
    from_address: String,
    to_address: String,
    a: TransactionRiskAssessment,
) -> bool {
    &&& order.request.amount > 0
    &&& comes_from(order, run, from_address)
    &&& goes_to(order, run, to_address)
    &&& screened(order, run, to_address, a)
}

/// The building of the transaction of this order between the addresses.
pub open spec fn built_at(
    order: TransferOrder,
    taken: (TransferStep, TransferReply),
    from_address: String,
    to_address: String,
    unsigned_xdr: String,
) -> bool {
    &&& taken.0 matches TransferStep::Build { order: o, dto } && o == order && is_transfer_call(
        order,
        from_address,
        to_address,
        dto,
    )
    &&& taken.1 == TransferReply::Built(Ok(unsigned_xdr))
}

/// The run holds the building of the transaction of this order between the addresses.
pub open spec fn built(
    order: TransferOrder,
    run: Seq<(TransferStep, TransferReply)>,
    from_address: String,
    to_address: String,
    unsigned_xdr: String,
) -> bool {
    exists|i: int|
        0 <= i < run.len() && built_at(
            order,
            #[trigger] run[i],
            from_address,
            to_address,
            unsigned_xdr,
        )
}

/// What holds wherever a run stands.
spec fn run_holds(
    order: TransferOrder,
    run: Seq<(TransferStep, TransferReply)>,
    last: TransferStep,
) -> bool {
    match last {
        TransferStep::FindSender { order: o, user_id } => o == order && order.request.amount > 0
            && user_id == order.user_id,
        TransferStep::FindRecipient { order: o, from_address, user_id } => {
            &&& o == order
            &&& order.request.amount > 0
            &&& comes_from(order, run, from_address)
            &&& user_id == order.request.to_user_id
        },
        TransferStep::Assess { order: o, from_address, to_address, transaction } => {
            &&& o == order
            &&& order.request.amount > 0
            &&& comes_from(order, run, from_address)
            &&& goes_to(order, run, to_address)
            &&& transaction == transaction_of(order, to_address)
        },
        TransferStep::Build { order: o, dto } => {
            &&& o == order
            &&& exists|
                from_address: String,
                to_address: String,
                a: TransactionRiskAssessment,
            | #[trigger]
                cleared_for(order, run, from_address, to_address, a) && is_transfer_call(
                    order,
                    from_address,
                    to_address,
                    dto,
                )
        },
        TransferStep::Finish { event, outcome } => {
            &&& outcome matches Ok(r) ==> {
                &&& grants(order, r.unsigned_xdr, r)
                &&& event == Some(BusinessEvent::Created)
                &&& exists|
                    from_address: String,
                    to_address: String,
                    a: TransactionRiskAssessment,
                | #[trigger]
                    cleared_for(order, run, from_address, to_address, a) && built(
                        order,
                        run,
                        from_address,
                        to_address,
                        r.unsigned_xdr,
                    )
            }
            &&& outcome is Err ==> event != Some(BusinessEvent::Created)
        },
    }
}

proof fn lemma_longer_run(
    order: TransferOrder,
    run: Seq<(TransferStep, TransferReply)>,
    from_address: String,
    to_address: String,
    a: TransactionRiskAssessment,
)
    requires
        run.len() > 0,
    ensures
        comes_from(order, run.drop_last(), from_address) ==> comes_from(order, run, from_address),
        goes_to(order, run.drop_last(), to_address) ==> goes_to(order, run, to_address),
        cleared_for(order, run.drop_last(), from_address, to_address, a) ==> cleared_for(
            order,
            run,
            from_address,
            to_address,
            a,
        ),
{
    let init = run.drop_last();
    if comes_from(order, init, from_address) {
        let i = choose|i: int|
            0 <= i < init.len() && found_sender(order, #[trigger] init[i], from_address);
        assert(run[i] == init[i]);
    }
    if goes_to(order, init, to_address) {
        let i = choose|i: int|
            0 <= i < init.len() && found_recipient(order, #[trigger] init[i], to_address);
        assert(run[i] == init[i]);
    }
    if screened(order, init, to_address, a) {
        let i = choose|i: int|
            0 <= i < init.len() && passed_screening(order, #[trigger] init[i], to_address, a);
        assert(run[i] == init[i]);
    }
}

proof fn lemma_run_holds(
    order: TransferOrder,
    run: Seq<(TransferStep, TransferReply)>,
    last: TransferStep,
)
    requires
        transfer_run(order, run, last),
    ensures
        run_holds(order, run, last),
    decreases run.len(),
{
    if run.len() > 0 {
        let init = run.drop_last();
        let taken = run.last();
        lemma_run_holds(order, init, taken.0);
        assert(run[run.len() - 1] == taken);
        match (taken.0, taken.1) {
            (TransferStep::FindSender { .. }, TransferReply::Sender(Ok(from_address))) => {
                assert(found_sender(order, run[run.len() - 1], from_address));
            },
            (
                TransferStep::FindRecipient { from_address, .. },
                TransferReply::Recipient(Ok(to_address)),
            ) => {
                let i = choose|i: int|
                    0 <= i < init.len() && found_sender(order, #[trigger] init[i], from_address);
                assert(run[i] == init[i]);
                assert(found_recipient(order, run[run.len() - 1], to_address));
            },
            (
                TransferStep::Assess { from_address, to_address, .. },
                TransferReply::Assessed(Ok(a)),
            ) => {
                lemma_longer_run(order, run, from_address, to_address, a);
                if a.risk_level != RiskLevel::Blocked {
                    assert(passed_screening(order, run[run.len() - 1], to_address, a));
                    assert(cleared_for(order, run, from_address, to_address, a));
                    assert(is_transfer_call(order, from_address, to_address, last->dto));
                }
            },
            (TransferStep::Build { dto, .. }, TransferReply::Built(Ok(unsigned_xdr))) => {
                let (from_address, to_address, a) = choose|
                    from_address: String,
                    to_address: String,
                    a: TransactionRiskAssessment,
                | #[trigger]
                    cleared_for(order, init, from_address, to_address, a) && is_transfer_call(
                        order,
                        from_address,
                        to_address,
                        dto,
                    );
                lemma_longer_run(order, run, from_address, to_address, a);
                assert(cleared_for(order, run, from_address, to_address, a));
                assert(built_at(order, run[run.len() - 1], from_address, to_address, unsigned_xdr));
            },
            _ => {},
        }
    }
}

/// A transaction is built only for a positive amount, to a valid address that was looked
/// up for the recipient, and after a screening of that very transaction (the sender, that
/// address, the amount) which did not block it; and the contract is called with that
/// address and the one that was looked up for the sender.
pub proof fn law_transfers_are_screened(
    order: TransferOrder,
    run: Seq<(TransferStep, TransferReply)>,
    built_order: TransferOrder,
    dto: BuildTransactionDto,
)
    requires
        transfer_run(order, run, (TransferStep::Build { order: built_order, dto })),
    ensures
        built_order == order,
        exists|
            from_address: String,
            to_address: String,
            a: TransactionRiskAssessment,
        | #[trigger]
            cleared_for(order, run, from_address, to_address, a) && is_transfer_call(
                order,
                from_address,
                to_address,
                dto,
            ),
{
    lemma_run_holds(order, run, TransferStep::Build { order: built_order, dto });
}

/// A transfer is granted only after the same, and after its transaction was built; and
/// what is granted is what was asked for.
pub proof fn law_granted_transfers_are_screened(
    order: TransferOrder,
    run: Seq<(TransferStep, TransferReply)>,
    event: Option<BusinessEvent>,
    r: TransferResponse,
)
    requires
        transfer_run(order, run, (TransferStep::Finish { event, outcome: Ok(r) })),
    ensures
        grants(order, r.unsigned_xdr, r),
        exists|
            from_address: String,
            to_address: String,
            a: TransactionRiskAssessment,
        | #[trigger]
            cleared_for(order, run, from_address, to_address, a) && built(
                        order,
                        run,
                        from_address,
                        to_address,
                        r.unsigned_xdr,
                    ),
{
    lemma_run_holds(order, run, TransferStep::Finish { event, outcome: Ok(r) });
}

/// Every assessment in the run weighs the transaction of its step, by the given rules.
pub open spec fn replies_weigh(
    config: ComplianceConfig,
    run: Seq<(TransferStep, TransferReply)>,
) -> bool {
    forall|i: int| #![trigger run[i]]
        0 <= i < run.len() ==> (match run[i] {
            (TransferStep::Assess { transaction, .. }, TransferReply::Assessed(Ok(a))) => weighed(
                config,
                transaction,
                a,
            ),
            _ => true,
        })
}

/// Where screenings are answered by weighing what they ask for, a transaction is built, or
/// a transfer granted, only if weighing the transfer itself (its sender, the recipient's
/// address, its amount) found no sanctions match.
pub proof fn law_sanctioned_transfers_are_refused(
    config: ComplianceConfig,
    order: TransferOrder,
    run: Seq<(TransferStep, TransferReply)>,
    last: TransferStep,
)
    requires
        transfer_run(order, run, last),
        replies_weigh(config, run),
        last is Build || (last matches TransferStep::Finish { outcome: Ok(_), .. }),
    ensures
        exists|
            from_address: String,
            to_address: String,
            a: TransactionRiskAssessment,
        |
            {
                &&& #[trigger] cleared_for(order, run, from_address, to_address, a)
                &&& weighed(config, transaction_of(order, to_address), a)
                &&& a.risk_level != RiskLevel::Blocked
                &&& !a.sanctions_match
            },
{
    lemma_run_holds(order, run, last);
    let (from_address, to_address, a) = choose|
        from_address: String,
        to_address: String,
        a: TransactionRiskAssessment,
    | #[trigger]
        cleared_for(order, run, from_address, to_address, a);
    let i = choose|i: int|
        0 <= i < run.len() && passed_screening(order, #[trigger] run[i], to_address, a);
    assert(weighed(config, transaction_of(order, to_address), a));
}

/// A transfer is counted as created exactly where it is granted.
pub proof fn law_created_means_granted(
    order: TransferOrder,
    run: Seq<(TransferStep, TransferReply)>,
    event: Option<BusinessEvent>,
    outcome: Result<TransferResponse, ApiError>,
)
    requires
        transfer_run(order, run, (TransferStep::Finish { event, outcome })),
    ensures
        event == Some(BusinessEvent::Created) <==> outcome is Ok,
{
    lemma_run_holds(order, run, TransferStep::Finish { event, outcome });
}

/// Every run ends after four replies at most.
pub proof fn law_transfers_end(
    order: TransferOrder,
    run: Seq<(TransferStep, TransferReply)>,
    last: TransferStep,
)
    requires
        transfer_run(order, run, last),
    ensures
        run.len() <= 4,
        run.len() == 4 ==> last is Finish,
{
    reveal_with_fuel(transfer_run, 6);
}

} // verus!
