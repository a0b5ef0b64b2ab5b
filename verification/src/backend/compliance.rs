//! Screening of transactions: sanctions, velocity limits and a risk score.

use super::api_error::ApiError;
use super::ids::{draw_id, drawn, variant, version};
use super::numbers::{
    as_signed, as_unsigned, saturating_add, saturating_sum, to_signed, to_unsigned,
};
use super::text::{contains, occurs_in, same_text};
use vstd::prelude::*;

verus! {

/// How much a user may move.
#[derive(Clone, Copy, PartialEq, Eq, Structural, Debug)]
pub struct VelocityLimits {
    pub max_transaction_amount: u64,
    pub daily_transaction_limit: u64,
    pub monthly_transaction_limit: u64,
}

/// What makes a transaction risky.
#[derive(Debug)]
pub struct RiskThresholds {
    pub high_risk_amount: u64,
    pub medium_risk_amount: u64,
    pub suspicious_patterns: Vec<String>,
}

/// The rules of the screening, and where the sanctions provider is.
#[derive(Debug)]
pub struct ComplianceConfig {
    pub sanctions_api_url: String,
    pub sanctions_api_key: String,
    pub velocity_limits: VelocityLimits,
    pub risk_thresholds: RiskThresholds,
}

/// How risky a transaction is.
#[derive(Clone, Copy, PartialEq, Eq, Structural, Debug)]
pub enum RiskLevel {
    Low,
    Medium,
    High,
    Blocked,
}

/// What the sanctions provider says of an address.
#[derive(Debug)]
pub struct SanctionsApiResponse {
    pub sanctioned: bool,
    pub risk_score: Option<u8>,
    pub reasons: Vec<String>,
}

/// The outcome of a screening.
#[derive(Debug)]
pub struct TransactionRiskAssessment {
    pub user_id: String,
    pub address: String,
    pub amount: i64,
    pub risk_score: u8,
    pub risk_level: RiskLevel,
    pub sanctions_match: bool,
    pub velocity_limit_exceeded: bool,
    pub reasons: Vec<String>,
}

/// The contents of the texts of a list.
pub open spec fn texts(list: Seq<String>) -> Seq<Seq<char>> {
    list.map_values(|s: String| s@)
}

/// Whether an amount is one that a single transaction may have.
pub open spec fn amount_allowed(limits: VelocityLimits, amount: i64) -> bool {
    0 <= amount <= limits.max_transaction_amount
}

/// Whether a transaction keeps within the limits of a user who moved `daily` in the
/// last day and `monthly` in the last month.
pub open spec fn within_limits(limits: VelocityLimits, amount: i64, daily: i64, monthly: i64) -> bool {
    &&& amount_allowed(limits, amount)
    &&& saturating_sum(daily, amount) <= as_signed(limits.daily_transaction_limit)
    &&& saturating_sum(monthly, amount) <= as_signed(limits.monthly_transaction_limit)
}

/// Whether a pattern occurs in an address. The empty pattern does not count.
pub open spec fn pattern_matches(pattern: Seq<char>, address: Seq<char>) -> bool {
    pattern.len() > 0 && occurs_in(address, pattern)
}

/// Whether any of the patterns occurs in an address.
pub open spec fn suspicious(patterns: Seq<Seq<char>>, address: Seq<char>) -> bool {
    exists|i: int| 0 <= i < patterns.len() && pattern_matches(#[trigger] patterns[i], address)
}

/// The reasons that the patterns give, in their order.
pub open spec fn pattern_reasons(patterns: Seq<Seq<char>>, address: Seq<char>) -> Seq<Seq<char>>
    decreases patterns.len(),
{
    if patterns.len() == 0 {
        seq![]
    } else {
        let before = pattern_reasons(patterns.drop_last(), address);
        if pattern_matches(patterns.last(), address) {
            before.push("suspicious_pattern:"@ + patterns.last())
        } else {
            before
        }
    }
}

/// The larger of two numbers.
pub open spec fn larger(a: int, b: int) -> int {
    if a < b {
        b
    } else {
        a
    }
}

/// What the amount alone adds to the risk.
pub open spec fn amount_score(thresholds: RiskThresholds, amount: i64) -> int {
    if as_unsigned(amount) >= thresholds.high_risk_amount {
        80
    } else if as_unsigned(amount) >= thresholds.medium_risk_amount {
        45
    } else {
        0
    }
}

/// The reason that the amount alone gives.
pub open spec fn amount_reasons(thresholds: RiskThresholds, amount: i64) -> Seq<Seq<char>> {
    if as_unsigned(amount) >= thresholds.high_risk_amount {
        seq!["high_value_transaction"@]
    } else if as_unsigned(amount) >= thresholds.medium_risk_amount {
        seq!["medium_value_transaction"@]
    } else {
        seq![]
    }
}

/// The risk score: the worst of what the provider, the sanctions, the amount, the
/// velocity and the patterns give.
pub open spec fn score_of(
    thresholds: RiskThresholds,
    address: Seq<char>,
    amount: i64,
    sanctions: SanctionsApiResponse,
    velocity_ok: bool,
) -> int {
    let provider = match sanctions.risk_score {
        Some(s) => s as int,
        None => 0,
    };
    let sanctioned: int = if sanctions.sanctioned {
        100
    } else {
        0
    };
    let velocity: int = if velocity_ok {
        0
    } else {
        75
    };
    let pattern: int = if suspicious(texts(thresholds.suspicious_patterns@), address) {
        70
    } else {
        0
    };
    larger(
        provider,
        larger(sanctioned, larger(amount_score(thresholds, amount), larger(velocity, pattern))),
    )
}

/// The reasons, in the order in which they are given.
pub open spec fn reasons_of(
    thresholds: RiskThresholds,
    address: Seq<char>,
    amount: i64,
    sanctions: SanctionsApiResponse,
    velocity_ok: bool,
) -> Seq<Seq<char>> {
    let sanctioned = if sanctions.sanctioned {
        seq!["sanctions_match"@]
    } else {
        seq![]
    };
    let velocity = if velocity_ok {
        seq![]
    } else {
        seq!["velocity_limit_exceeded"@]
    };
    texts(sanctions.reasons@) + sanctioned + amount_reasons(thresholds, amount) + velocity
        + pattern_reasons(texts(thresholds.suspicious_patterns@), address)
}

/// The level that a score stands for. A sanctioned address is blocked whatever its score.
pub open spec fn level_of(sanctioned: bool, score: int) -> RiskLevel {
    if sanctioned {
        RiskLevel::Blocked
    } else if score >= 75 {
        RiskLevel::High
    } else if score >= 40 {
        RiskLevel::Medium
    } else {
        RiskLevel::Low
    }
}

/// `a` is the assessment of a transaction under the given rules.
pub open spec fn is_assessment(
    thresholds: RiskThresholds,
    user_id: Seq<char>,
    address: Seq<char>,
    amount: i64,
    sanctions: SanctionsApiResponse,
    velocity_ok: bool,
    a: TransactionRiskAssessment,
) -> bool {
    &&& a.user_id@ == user_id
    &&& a.address@ == address
    &&& a.amount == amount
    &&& a.risk_score == score_of(thresholds, address, amount, sanctions, velocity_ok)
    &&& a.risk_level == level_of(sanctions.sanctioned, a.risk_score as int)
    &&& a.sanctions_match == sanctions.sanctioned
    &&& a.velocity_limit_exceeded == !velocity_ok
    &&& texts(a.reasons@) == reasons_of(thresholds, address, amount, sanctions, velocity_ok)
}

fn raise(score: u8, to: u8) -> (r: u8)
    ensures
        r == larger(score as int, to as int),
{
    if score < to {
        to
    } else {
        score
    }
}

fn give_reason(reasons: &mut Vec<String>, reason: &str)
    ensures
        texts(final(reasons)@) == texts(old(reasons)@).push(reason@),
{
    reasons.push(reason.to_owned());
    assert(texts(reasons@) =~= texts(old(reasons)@).push(reason@));
}

/// Whether a single transaction may have the amount.
pub fn within_transaction_limit(limits: &VelocityLimits, amount: i64) -> (b: bool)
    ensures
        b == amount_allowed(*limits, amount),
{
    amount >= 0 && amount as u64 <= limits.max_transaction_amount
}

/// Whether the total with the amount keeps within the limit.
fn total_within(total: i64, amount: i64, limit: u64) -> (b: bool)
    ensures
        b == (saturating_sum(total, amount) <= as_signed(limit)),
{
    saturating_add(total, amount) <= to_signed(limit)
}

/// Weighs what is known of a transaction.
pub fn assess(
    thresholds: &RiskThresholds,
    user_id: &str,
    address: &str,
    amount: i64,
    sanctions: SanctionsApiResponse,
    velocity_ok: bool,
) -> (a: TransactionRiskAssessment)
    ensures
        is_assessment(*thresholds, user_id@, address@, amount, sanctions, velocity_ok, a),
{
    let sanctioned = sanctions.sanctioned;
    let mut risk_score: u8 = match sanctions.risk_score {
        Some(s) => s,
        None => 0,
    };
    let mut reasons = sanctions.reasons;
    if sanctioned {
        risk_score = raise(risk_score, 100);
        give_reason(&mut reasons, "sanctions_match");
    }
    let size: u64 = to_unsigned(amount);
    if size >= thresholds.high_risk_amount {
        risk_score = raise(risk_score, 80);
        give_reason(&mut reasons, "high_value_transaction");
    } else if size >= thresholds.medium_risk_amount {
        risk_score = raise(risk_score, 45);
        give_reason(&mut reasons, "medium_value_transaction");
    }
    if !velocity_ok {
        risk_score = raise(risk_score, 75);
        give_reason(&mut reasons, "velocity_limit_exceeded");
    }
    let ghost first_score = risk_score as int;
    let ghost first_reasons = texts(reasons@);
    let patterns = &thresholds.suspicious_patterns;
    let ghost known = texts(patterns@);
    let mut i: usize = 0;
    while i < patterns.len()
        invariant
            known == texts(patterns@),
            i <= patterns@.len(),
            texts(reasons@) == first_reasons + pattern_reasons(known.take(i as int), address@),
            risk_score == larger(
                first_score,
                if suspicious(known.take(i as int), address@) {
                    70
                } else {
                    0
                },
            ),
            0 <= first_score,
        decreases patterns@.len() - i,
    {
        let pattern = &patterns[i];
        let ghost before = known.take(i as int);
        let ghost after = known.take(i + 1);
        assert(after.drop_last() =~= before);
        assert(after.last() == pattern@);
        let matches = pattern.as_str().unicode_len() > 0 && contains(address, pattern.as_str());
        proof {
            if suspicious(before, address@) {
                let j = choose|j: int|
                    0 <= j < before.len() && pattern_matches(#[trigger] before[j], address@);
                assert(after[j] == before[j]);
                assert(suspicious(after, address@));
            }
            if matches {
                assert(pattern_matches(after[i as int], address@));
                assert(suspicious(after, address@));
            }
            if suspicious(after, address@) {
                let j = choose|j: int|
                    0 <= j < after.len() && pattern_matches(#[trigger] after[j], address@);
                if j < i {
                    assert(before[j] == after[j]);
                    assert(suspicious(before, address@));
                }
            }
        }
        if matches {
            risk_score = raise(risk_score, 70);
            let mut reason = String::from_str("suspicious_pattern:");
            reason.append(pattern.as_str());
            give_reason(&mut reasons, reason.as_str());
        }
        assert(texts(reasons@) =~= first_reasons + pattern_reasons(after, address@));
        i = i + 1;
    }
    assert(known.take(known.len() as int) =~= known);
    let risk_level = if sanctioned {
        RiskLevel::Blocked
    } else if risk_score >= 75 {
        RiskLevel::High
    } else if risk_score >= 40 {
        RiskLevel::Medium
    } else {
        RiskLevel::Low
    };
    let a = TransactionRiskAssessment {
        user_id: user_id.to_owned(),
        address: address.to_owned(),
        amount,
        risk_score,
        risk_level,
        sanctions_match: sanctioned,
        velocity_limit_exceeded: !velocity_ok,
        reasons,
    };
    assert(texts(a.reasons@) =~= reasons_of(*thresholds, address@, amount, sanctions, velocity_ok));
    a
}

/// A transaction that is to be screened: who moves how much, and the address that the
/// funds go to.
#[derive(Debug)]
pub struct Transaction {
    pub user_id: String,
    pub address: String,
    pub amount: i64,
}

/// What the sanctions provider is asked: about which address, where, and under which key.
#[derive(Debug)]
pub struct SanctionsQuery {
    pub url: String,
    pub key: String,
    pub address: String,
}

/// How far a screening has come, and what is to be done next.
#[derive(Debug)]
pub enum AssessmentStep {
    /// Ask the sanctions provider.
    Screen { transaction: Transaction, query: SanctionsQuery },
    /// Read the provider's answer.
    ReadAnswer { transaction: Transaction },
    /// Sum up what the named user moved in the last day.
    SumDay { transaction: Transaction, sanctions: SanctionsApiResponse, user_id: String },
    /// Sum up what the named user moved in the last month.
    SumMonth {
        transaction: Transaction,
        sanctions: SanctionsApiResponse,
        daily_total: i64,
        user_id: String,
    },
    /// Store the assessment under the identifier.
    Store { id: u128, assessment: TransactionRiskAssessment },
    /// The screening is over.
    Finish(Result<TransactionRiskAssessment, ApiError>),
}

/// Whether the sanctions provider has been set up: not with the address or the key that
/// stand for none.
pub open spec fn provider_configured(config: ComplianceConfig) -> bool {
    !occurs_in(config.sanctions_api_url@, "example.com"@) && config.sanctions_api_key@
        != "api-key"@
}

/// What is taken for the provider's answer where there is no provider.
pub open spec fn is_unscreened(sanctions: SanctionsApiResponse) -> bool {
    &&& !sanctions.sanctioned
    &&& sanctions.risk_score is None
    &&& texts(sanctions.reasons@) == seq!["sanctions_provider_not_configured"@]
}

/// What the provider is asked about a transaction: where it goes to.
pub open spec fn sanctions_query_of(
    config: ComplianceConfig,
    transaction: Transaction,
) -> SanctionsQuery {
    SanctionsQuery {
        url: config.sanctions_api_url,
        key: config.sanctions_api_key,
        address: transaction.address,
    }
}

/// `step` stores the assessment of the transaction.
pub open spec fn stores(
    config: ComplianceConfig,
    transaction: Transaction,
    sanctions: SanctionsApiResponse,
    velocity_ok: bool,
    step: AssessmentStep,
) -> bool {
    step matches AssessmentStep::Store { id, assessment } && drawn(id) && version(id) == 4
        && variant(id) == 2 && is_assessment(
        config.risk_thresholds,
        transaction.user_id@,
        transaction.address@,
        transaction.amount,
        sanctions,
        velocity_ok,
        assessment,
    )
}

/// `step` follows once it is known what the provider says: the totals are summed up,
/// unless the amount is one that no transaction may have.
pub open spec fn follows_screening(
    config: ComplianceConfig,
    transaction: Transaction,
    sanctions: SanctionsApiResponse,
    step: AssessmentStep,
) -> bool {
    if amount_allowed(config.velocity_limits, transaction.amount) {
        step == (AssessmentStep::SumDay { transaction, sanctions, user_id: transaction.user_id })
    } else {
        stores(config, transaction, sanctions, false, step)
    }
}

/// `step` begins the screening of the transaction.
pub open spec fn begins(
    config: ComplianceConfig,
    transaction: Transaction,
    step: AssessmentStep,
) -> bool {
    if provider_configured(config) {
        step == (AssessmentStep::Screen {
            transaction,
            query: sanctions_query_of(config, transaction),
        })
    } else {
        exists|sanctions: SanctionsApiResponse|
            is_unscreened(sanctions) && #[trigger] follows_screening(
                config,
                transaction,
                sanctions,
                step,
            )
    }
}

/// `step` ends the screening with a compliance error.
pub open spec fn fails_with(step: AssessmentStep, text: Seq<char>) -> bool {
    step matches AssessmentStep::Finish(Err(ApiError::Compliance(t))) && t@ == text
}

/// What came of a step.
pub enum AssessmentReply {
    Status(Result<(u16, String), String>),
    Answer(Result<SanctionsApiResponse, String>),
    Day(Result<i64, ApiError>),
    Month(Result<i64, ApiError>),
    Stored(Result<(), ApiError>),
}

/// `step` follows the status of the provider's response.
pub open spec fn follows_status(
    transaction: Transaction,
    status: Result<(u16, String), String>,
    step: AssessmentStep,
) -> bool {
    match status {
        Ok((code, text)) => if 200 <= code < 300 {
            step == (AssessmentStep::ReadAnswer { transaction })
        } else {
            fails_with(step, "Sanctions provider returned "@ + text@)
        },
        Err(cause) => fails_with(step, "Sanctions screening failed: "@ + cause@),
    }
}

/// `step` follows the provider's answer.
pub open spec fn follows_answer(
    config: ComplianceConfig,
    transaction: Transaction,
    answer: Result<SanctionsApiResponse, String>,
    step: AssessmentStep,
) -> bool {
    match answer {
        Ok(sanctions) => follows_screening(config, transaction, sanctions, step),
        Err(cause) => fails_with(step, "Invalid sanctions response: "@ + cause@),
    }
}

/// `step` follows the summing up of the last day.
pub open spec fn follows_day(
    transaction: Transaction,
    sanctions: SanctionsApiResponse,
    total: Result<i64, ApiError>,
    step: AssessmentStep,
) -> bool {
    match total {
        Ok(daily_total) => step == (AssessmentStep::SumMonth {
            transaction,
            sanctions,
            daily_total,
            user_id: transaction.user_id,
        }),
        Err(e) => step == AssessmentStep::Finish(Err(e)),
    }
}

/// `step` follows the summing up of the last month.
pub open spec fn follows_month(
    config: ComplianceConfig,
    transaction: Transaction,
    sanctions: SanctionsApiResponse,
    daily_total: i64,
    total: Result<i64, ApiError>,
    step: AssessmentStep,
) -> bool {
    match total {
        Ok(monthly_total) => stores(
            config,
            transaction,
            sanctions,
            within_limits(config.velocity_limits, transaction.amount, daily_total, monthly_total),
            step,
        ),
        Err(e) => step == AssessmentStep::Finish(Err(e)),
    }
}

/// `step` follows the storing of the assessment.
pub open spec fn follows_store(
    assessment: TransactionRiskAssessment,
    stored: Result<(), ApiError>,
    step: AssessmentStep,
) -> bool {
    match stored {
        Ok(_) => step == AssessmentStep::Finish(Ok(assessment)),
        Err(e) => step == AssessmentStep::Finish(Err(e)),
    }
}

/// The text of an error with its cause.
fn with_cause(what: &str, cause: &str) -> (text: String)
    ensures
        text@ == what@ + cause@,
{
    let mut text = String::from_str(what);
    text.append(cause);
    text
}

/// Screens transactions by the rules it was given.
#[derive(Debug)]
pub struct ComplianceService {
    pub config: ComplianceConfig,
}

impl ComplianceService {
    /// A service with the given rules.
    pub fn new(config: ComplianceConfig) -> (s: Self)
        ensures
            s.config == config,
    {
        ComplianceService { config }
    }

    /// What stands for the provider's answer where no provider has been set up, and
    /// nothing where the provider is to be asked.
    fn screen_address(&self) -> (r: Option<SanctionsApiResponse>)
        ensures
            match r {
                Some(s) => !provider_configured(self.config) && is_unscreened(s),
                None => provider_configured(self.config),
            },
    {
        if contains(self.config.sanctions_api_url.as_str(), "example.com")
            || same_text(self.config.sanctions_api_key.as_str(), "api-key") {
            let mut reasons: Vec<String> = Vec::new();
            give_reason(&mut reasons, "sanctions_provider_not_configured");
            assert(texts(reasons@) =~= seq!["sanctions_provider_not_configured"@]);
            Some(SanctionsApiResponse { sanctioned: false, risk_score: None, reasons })
        } else {
            None
        }
    }

    fn store(
        &self,
        transaction: Transaction,
        sanctions: SanctionsApiResponse,
        velocity_ok: bool,
    ) -> (step: AssessmentStep)
        ensures
            stores(self.config, transaction, sanctions, velocity_ok, step),
    {
        let assessment = assess(
            &self.config.risk_thresholds,
            transaction.user_id.as_str(),
            transaction.address.as_str(),
            transaction.amount,
            sanctions,
            velocity_ok,
        );
        AssessmentStep::Store { id: draw_id(), assessment }
    }

    fn after_screening(&self, transaction: Transaction, sanctions: SanctionsApiResponse) -> (step:
        AssessmentStep)
        ensures
            follows_screening(self.config, transaction, sanctions, step),
    {
        if within_transaction_limit(&self.config.velocity_limits, transaction.amount) {
            let user_id = transaction.user_id.clone();
            AssessmentStep::SumDay { transaction, sanctions, user_id }
        } else {
            self.store(transaction, sanctions, false)
        }
    }

    /// Whether a transaction keeps within the limits of a user who moved `daily_total` in
    /// the last day and `monthly_total` in the last month.
    pub fn check_velocity_limits(&self, amount: i64, daily_total: i64, monthly_total: i64) -> (b:
        bool)
        ensures
            b == within_limits(self.config.velocity_limits, amount, daily_total, monthly_total),
    {
        let limits = &self.config.velocity_limits;
        within_transaction_limit(limits, amount) && total_within(
            daily_total,
            amount,
            limits.daily_transaction_limit,
        ) && total_within(monthly_total, amount, limits.monthly_transaction_limit)
    }

    /// Begins the screening of a transaction.
    pub fn assess_transaction_risk(&self, transaction: Transaction) -> (step: AssessmentStep)
        ensures
            begins(self.config, transaction, step),
    {
        match self.screen_address() {
            Some(sanctions) => self.after_screening(transaction, sanctions),
            None => {
                let query = SanctionsQuery {
                    url: self.config.sanctions_api_url.clone(),
                    key: self.config.sanctions_api_key.clone(),
                    address: transaction.address.clone(),
                };
                AssessmentStep::Screen { transaction, query }
            },
        }
    }

    /// Goes on after the provider was asked: with the status of its response, a code and
    /// a text, or with the reason why there is none.
    pub fn screened(&self, transaction: Transaction, status: Result<(u16, String), String>) -> (step:
        AssessmentStep)
        ensures
            follows_status(transaction, status, step),
    {
        match status {
            Ok((code, text)) => {
                if 200 <= code && code < 300 {
                    AssessmentStep::ReadAnswer { transaction }
                } else {
                    AssessmentStep::Finish(
                        Err(
                            ApiError::Compliance(
                                with_cause("Sanctions provider returned ", text.as_str()),
                            ),
                        ),
                    )
                }
            },
            Err(cause) => AssessmentStep::Finish(
                Err(
                    ApiError::Compliance(
                        with_cause("Sanctions screening failed: ", cause.as_str()),
                    ),
                ),
            ),
        }
    }

    /// Goes on after the provider's answer was read, or could not be.
    pub fn answered(
        &self,
        transaction: Transaction,
        answer: Result<SanctionsApiResponse, String>,
    ) -> (step: AssessmentStep)
        ensures
            follows_answer(self.config, transaction, answer, step),
    {
        match answer {
            Ok(sanctions) => self.after_screening(transaction, sanctions),
            Err(cause) => AssessmentStep::Finish(
                Err(
                    ApiError::Compliance(
                        with_cause("Invalid sanctions response: ", cause.as_str()),
                    ),
                ),
            ),
        }
    }

    /// Goes on after the last day was summed up.
    pub fn day_summed(
        &self,
        transaction: Transaction,
        sanctions: SanctionsApiResponse,
        total: Result<i64, ApiError>,
    ) -> (step: AssessmentStep)
        ensures
            follows_day(transaction, sanctions, total, step),
    {
        match total {
            Ok(daily_total) => {
                let user_id = transaction.user_id.clone();
                AssessmentStep::SumMonth { transaction, sanctions, daily_total, user_id }
            },
            Err(e) => AssessmentStep::Finish(Err(e)),
        }
    }

    /// Goes on after the last month was summed up.
    pub fn month_summed(
        &self,
        transaction: Transaction,
        sanctions: SanctionsApiResponse,
        daily_total: i64,
        total: Result<i64, ApiError>,
    ) -> (step: AssessmentStep)
        ensures
            follows_month(self.config, transaction, sanctions, daily_total, total, step),
    {
        match total {
            Ok(monthly_total) => {
                let velocity_ok = self.check_velocity_limits(
                    transaction.amount,
                    daily_total,
                    monthly_total,
                );
                self.store(transaction, sanctions, velocity_ok)
            },
            Err(e) => AssessmentStep::Finish(Err(e)),
        }
    }

    /// Ends a screening: an assessment that could not be stored is not given out.
    pub fn assessment_stored(
        assessment: TransactionRiskAssessment,
        stored: Result<(), ApiError>,
    ) -> (step: AssessmentStep)
        ensures
            follows_store(assessment, stored, step),
    {
        match stored {
            Ok(_) => AssessmentStep::Finish(Ok(assessment)),
            Err(e) => AssessmentStep::Finish(Err(e)),
        }
    }

    /// Begins the screening of an address alone: of a transaction of nothing, by nobody
    /// in particular.
    pub fn check_sanctions(&self, address: String) -> (step: AssessmentStep)
        ensures
            exists|transaction: Transaction|
                {
                    &&& transaction.user_id@ == "unknown"@
                    &&& transaction.address == address
                    &&& transaction.amount == 0
                    &&& #[trigger] begins(self.config, transaction, step)
                },
    {
        let transaction = Transaction { user_id: "unknown".to_owned(), address, amount: 0 };
        let ghost t = transaction;
        let step = self.assess_transaction_risk(transaction);
        assert(begins(self.config, t, step));
        step
    }

    /// Whether the screening of an address found it sanctioned.
    pub fn sanctions_found(outcome: Result<TransactionRiskAssessment, ApiError>) -> (r: Result<
        bool,
        ApiError,
    >)
        ensures
            match outcome {
                Ok(a) => r == Ok::<bool, ApiError>(a.sanctions_match),
                Err(e) => r == Err::<bool, ApiError>(e),
            },
    {
        match outcome {
            Ok(a) => Ok(a.sanctions_match),
            Err(e) => Err(e),
        }
    }
}

/// What the metrics call the outcome of a screening.
pub open spec fn decision_text(level: RiskLevel) -> Seq<char> {
    match level {
        RiskLevel::Blocked => "blocked"@,
        RiskLevel::High => "flagged"@,
        RiskLevel::Medium | RiskLevel::Low => "approved"@,
    }
}

/// What the metrics call the outcome of a screening.
pub fn screening_decision(level: &RiskLevel) -> (text: &'static str)
    ensures
        text@ == decision_text(*level),
{
    match level {
        RiskLevel::Blocked => "blocked",
        RiskLevel::High => "flagged",
        RiskLevel::Medium | RiskLevel::Low => "approved",
    }
}

/// A transaction is blocked exactly where the provider knows its address as sanctioned,
/// and then its score is 100 at least.
pub proof fn law_blocked_means_sanctioned(
    thresholds: RiskThresholds,
    user_id: Seq<char>,
    address: Seq<char>,
    amount: i64,
    sanctions: SanctionsApiResponse,
    velocity_ok: bool,
    a: TransactionRiskAssessment,
)
    requires
        is_assessment(thresholds, user_id, address, amount, sanctions, velocity_ok, a),
    ensures
        a.risk_level == RiskLevel::Blocked <==> sanctions.sanctioned,
        a.risk_level == RiskLevel::Blocked <==> a.sanctions_match,
        sanctions.sanctioned ==> a.risk_score >= 100,
        sanctions.sanctioned ==> texts(a.reasons@).contains("sanctions_match"@),
{
    if sanctions.sanctioned {
        let at = sanctions.reasons@.len() as int;
        assert(texts(a.reasons@)[at] == "sanctions_match"@);
    }
}

/// A transaction over the velocity limits, or of a high amount, is flagged or blocked.
pub proof fn law_large_transactions_are_flagged(
    thresholds: RiskThresholds,
    user_id: Seq<char>,
    address: Seq<char>,
    amount: i64,
    sanctions: SanctionsApiResponse,
    velocity_ok: bool,
    a: TransactionRiskAssessment,
)
    requires
        is_assessment(thresholds, user_id, address, amount, sanctions, velocity_ok, a),
        !velocity_ok || as_unsigned(amount) >= thresholds.high_risk_amount,
    ensures
        a.risk_level == RiskLevel::High || a.risk_level == RiskLevel::Blocked,
{
}

/// A suspicious pattern or a medium amount keeps a transaction from being of low risk.
pub proof fn law_suspicious_transactions_are_not_low(
    thresholds: RiskThresholds,
    user_id: Seq<char>,
    address: Seq<char>,
    amount: i64,
    sanctions: SanctionsApiResponse,
    velocity_ok: bool,
    a: TransactionRiskAssessment,
)
    requires
        is_assessment(thresholds, user_id, address, amount, sanctions, velocity_ok, a),
        suspicious(texts(thresholds.suspicious_patterns@), address) || as_unsigned(amount)
            >= thresholds.medium_risk_amount,
    ensures
        a.risk_level != RiskLevel::Low,
{
}

/// What the provider gave as reasons stays, in front of the service's own; and where the
/// service finds nothing itself, the score is the provider's and the reasons are too.
pub proof fn law_provider_is_heard(
    thresholds: RiskThresholds,
    user_id: Seq<char>,
    address: Seq<char>,
    amount: i64,
    sanctions: SanctionsApiResponse,
    velocity_ok: bool,
    a: TransactionRiskAssessment,
)
    requires
        is_assessment(thresholds, user_id, address, amount, sanctions, velocity_ok, a),
    ensures
        texts(sanctions.reasons@).is_prefix_of(texts(a.reasons@)),
        sanctions.risk_score matches Some(s) ==> a.risk_score >= s,
        !sanctions.sanctioned && velocity_ok && as_unsigned(amount) < thresholds.high_risk_amount
            && as_unsigned(amount) < thresholds.medium_risk_amount && !suspicious(
            texts(thresholds.suspicious_patterns@),
            address,
        ) ==> {
            &&& a.risk_score == (match sanctions.risk_score {
                Some(s) => s,
                None => 0,
            })
            &&& texts(a.reasons@) == texts(sanctions.reasons@)
        },
{
    let patterns = texts(thresholds.suspicious_patterns@);
    assert(texts(sanctions.reasons@) =~= texts(a.reasons@).take(sanctions.reasons@.len() as int));
    if !suspicious(patterns, address) {
        lemma_no_pattern_no_reason(patterns, address);
        assert(texts(sanctions.reasons@) + seq![] + seq![] + seq![] + seq![] =~= texts(
            sanctions.reasons@,
        ));
    }
}

proof fn lemma_no_pattern_no_reason(patterns: Seq<Seq<char>>, address: Seq<char>)
    requires
        !suspicious(patterns, address),
    ensures
        pattern_reasons(patterns, address) == Seq::<Seq<char>>::empty(),
    decreases patterns.len(),
{
    if patterns.len() > 0 {
        let init = patterns.drop_last();
        assert(patterns[patterns.len() - 1] == patterns.last());
        assert forall|i: int| 0 <= i < init.len() implies !pattern_matches(
            #[trigger] init[i],
            address,
        ) by {
            assert(init[i] == patterns[i]);
        }
        lemma_no_pattern_no_reason(init, address);
    }
}

/// Whoever may make a transaction may make a smaller one: to keep within the limits
/// gets no harder with a smaller amount or smaller totals.
pub proof fn law_velocity_limits_are_monotone(
    limits: VelocityLimits,
    amount: i64,
    daily: i64,
    monthly: i64,
    smaller_amount: i64,
    smaller_daily: i64,
    smaller_monthly: i64,
)
    requires
        within_limits(limits, amount, daily, monthly),
        0 <= smaller_amount <= amount,
        smaller_daily <= daily,
        smaller_monthly <= monthly,
    ensures
        within_limits(limits, smaller_amount, smaller_daily, smaller_monthly),
{
}

/// `next` follows `step` once the reply is there.
pub open spec fn assessment_moves(
    config: ComplianceConfig,
    step: AssessmentStep,
    reply: AssessmentReply,
    next: AssessmentStep,
) -> bool {
    match (step, reply) {
        (AssessmentStep::Screen { transaction, .. }, AssessmentReply::Status(r)) => follows_status(
            transaction,
            r,
            next,
        ),
        (AssessmentStep::ReadAnswer { transaction }, AssessmentReply::Answer(r)) =>
            follows_answer(config, transaction, r, next),
        (AssessmentStep::SumDay { transaction, sanctions, .. }, AssessmentReply::Day(r)) =>
            follows_day(transaction, sanctions, r, next),
        (
            AssessmentStep::SumMonth { transaction, sanctions, daily_total, .. },
            AssessmentReply::Month(r),
        ) => follows_month(config, transaction, sanctions, daily_total, r, next),
        (AssessmentStep::Store { assessment, .. }, AssessmentReply::Stored(r)) => follows_store(
            assessment,
            r,
            next,
        ),
        _ => false,
    }
}

/// A run of a screening: the steps that were taken with the replies to them, and the step
/// that they led to.
pub open spec fn assessment_run(
    config: ComplianceConfig,
    transaction: Transaction,
    run: Seq<(AssessmentStep, AssessmentReply)>,
    last: AssessmentStep,
) -> bool
    decreases run.len(),
{
    if run.len() == 0 {
        begins(config, transaction, last)
    } else {
        &&& assessment_run(config, transaction, run.drop_last(), run.last().0)
        &&& assessment_moves(config, run.last().0, run.last().1, last)
    }
}

/// `a` weighs the transaction, on what is taken for the provider's answer where there is
/// no provider, and finds nothing wrong with the velocity only where the amount is one
/// that a transaction may have.
pub open spec fn weighs(
    config: ComplianceConfig,
    transaction: Transaction,
    sanctions: SanctionsApiResponse,
    velocity_ok: bool,
    a: TransactionRiskAssessment,
) -> bool {
    &&& is_assessment(
        config.risk_thresholds,
        transaction.user_id@,
        transaction.address@,
        transaction.amount,
        sanctions,
        velocity_ok,
        a,
    )
    &&& !provider_configured(config) ==> is_unscreened(sanctions)
    &&& velocity_ok ==> amount_allowed(config.velocity_limits, transaction.amount)
}

/// `a` weighs the transaction.
pub open spec fn weighed(
    config: ComplianceConfig,
    transaction: Transaction,
    a: TransactionRiskAssessment,
) -> bool {
    exists|sanctions: SanctionsApiResponse, velocity_ok: bool|
        weighs(config, transaction, sanctions, velocity_ok, a)
}

/// The assessment was stored.
pub open spec fn was_stored(
    taken: (AssessmentStep, AssessmentReply),
    a: TransactionRiskAssessment,
) -> bool {
    &&& taken.0 matches AssessmentStep::Store { assessment, .. } && assessment == a
    &&& taken.1 matches AssessmentReply::Stored(Ok(_))
}

/// What holds wherever a run stands.
spec fn run_holds(
    config: ComplianceConfig,
    transaction: Transaction,
    run: Seq<(AssessmentStep, AssessmentReply)>,
    last: AssessmentStep,
) -> bool {
    match last {
        AssessmentStep::Screen { transaction: t, .. } => t == transaction && provider_configured(
            config,
        ),
        AssessmentStep::ReadAnswer { transaction: t } => t == transaction && provider_configured(
            config,
        ),
        AssessmentStep::SumDay { transaction: t, sanctions, .. } => {
            &&& t == transaction
            &&& amount_allowed(config.velocity_limits, t.amount)
            &&& !provider_configured(config) ==> is_unscreened(sanctions)
        },
        AssessmentStep::SumMonth { transaction: t, sanctions, .. } => {
            &&& t == transaction
            &&& amount_allowed(config.velocity_limits, t.amount)
            &&& !provider_configured(config) ==> is_unscreened(sanctions)
        },
        AssessmentStep::Store { assessment, .. } => weighed(config, transaction, assessment),
        AssessmentStep::Finish(Ok(a)) => weighed(config, transaction, a) && run.len() > 0
            && was_stored(run.last(), a),
        AssessmentStep::Finish(Err(_)) => true,
    }
}

proof fn lemma_stores_weighed(
    config: ComplianceConfig,
    transaction: Transaction,
    sanctions: SanctionsApiResponse,
    velocity_ok: bool,
    step: AssessmentStep,
)
    requires
        stores(config, transaction, sanctions, velocity_ok, step),
        !provider_configured(config) ==> is_unscreened(sanctions),
        velocity_ok ==> amount_allowed(config.velocity_limits, transaction.amount),
    ensures
        step matches AssessmentStep::Store { assessment, .. } && weighed(
            config,
            transaction,
            assessment,
        ),
{
    let a = step->assessment;
    assert(weighs(config, transaction, sanctions, velocity_ok, a));
}

proof fn lemma_run_holds(
    config: ComplianceConfig,
    transaction: Transaction,
    run: Seq<(AssessmentStep, AssessmentReply)>,
    last: AssessmentStep,
)
    requires
        assessment_run(config, transaction, run, last),
    ensures
        run_holds(config, transaction, run, last),
    decreases run.len(),
{
    if run.len() == 0 {
        if !provider_configured(config) {
            let sanctions = choose|sanctions: SanctionsApiResponse|
                is_unscreened(sanctions) && #[trigger] follows_screening(
                    config,
                    transaction,
                    sanctions,
                    last,
                );
            if !amount_allowed(config.velocity_limits, transaction.amount) {
                lemma_stores_weighed(config, transaction, sanctions, false, last);
            }
        }
    } else {
        lemma_run_holds(config, transaction, run.drop_last(), run.last().0);
        match (run.last().0, run.last().1) {
            (AssessmentStep::ReadAnswer { .. }, AssessmentReply::Answer(Ok(sanctions))) => {
                if !amount_allowed(config.velocity_limits, transaction.amount) {
                    lemma_stores_weighed(config, transaction, sanctions, false, last);
                }
            },
            (
                AssessmentStep::SumMonth { sanctions, daily_total, .. },
                AssessmentReply::Month(Ok(monthly_total)),
            ) => {
                let velocity_ok = within_limits(
                    config.velocity_limits,
                    transaction.amount,
                    daily_total,
                    monthly_total,
                );
                lemma_stores_weighed(config, transaction, sanctions, velocity_ok, last);
            },
            _ => {},
        }
    }
}

/// A screening gives out nothing but an assessment of the transaction that was asked
/// for, and only after that assessment was stored.
pub proof fn law_given_assessments_are_stored(
    config: ComplianceConfig,
    transaction: Transaction,
    run: Seq<(AssessmentStep, AssessmentReply)>,
    a: TransactionRiskAssessment,
)
    requires
        assessment_run(config, transaction, run, AssessmentStep::Finish(Ok(a))),
    ensures
        run.len() > 0,
        was_stored(run.last(), a),
        weighed(config, transaction, a),
{
    lemma_run_holds(config, transaction, run, AssessmentStep::Finish(Ok(a)));
}

/// Where no provider has been set up, nothing is blocked.
pub proof fn law_no_provider_no_block(
    config: ComplianceConfig,
    transaction: Transaction,
    run: Seq<(AssessmentStep, AssessmentReply)>,
    a: TransactionRiskAssessment,
)
    requires
        assessment_run(config, transaction, run, AssessmentStep::Finish(Ok(a))),
        !provider_configured(config),
    ensures
        a.risk_level != RiskLevel::Blocked,
        !a.sanctions_match,
{
    lemma_run_holds(config, transaction, run, AssessmentStep::Finish(Ok(a)));
}

/// Every run ends after five replies at most.
pub proof fn law_screenings_end(
    config: ComplianceConfig,
    transaction: Transaction,
    run: Seq<(AssessmentStep, AssessmentReply)>,
    last: AssessmentStep,
)
    requires
        assessment_run(config, transaction, run, last),
    ensures
        run.len() <= 5,
        run.len() == 5 ==> last is Finish,
{
    lemma_run_advances(config, transaction, run, last);
}

/// How many replies a step may come after.
spec fn latest(step: AssessmentStep) -> int {
    match step {
        AssessmentStep::Screen { .. } => 0,
        AssessmentStep::ReadAnswer { .. } => 1,
        AssessmentStep::SumDay { .. } => 2,
        AssessmentStep::SumMonth { .. } => 3,
        AssessmentStep::Store { .. } => 4,
        AssessmentStep::Finish(_) => 5,
    }
}

proof fn lemma_run_advances(
    config: ComplianceConfig,
    transaction: Transaction,
    run: Seq<(AssessmentStep, AssessmentReply)>,
    last: AssessmentStep,
)
    requires
        assessment_run(config, transaction, run, last),
    ensures
        run.len() <= latest(last),
    decreases run.len(),
{
    if run.len() > 0 {
        lemma_run_advances(config, transaction, run.drop_last(), run.last().0);
    }
}

} // verus!
