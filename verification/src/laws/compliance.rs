//! What a screening finds.

use crate::backend::api_error::ApiError;
use crate::backend::compliance::{
    assess, assessment_moves, assessment_run, follows_screening, is_unscreened, pattern_matches,
    pattern_reasons, screening_decision, suspicious, texts, within_transaction_limit,
    AssessmentReply, AssessmentStep, ComplianceConfig, ComplianceService, RiskLevel,
    RiskThresholds, SanctionsApiResponse, Transaction, TransactionRiskAssessment, VelocityLimits,
};
use crate::backend::ids::drawn;
use crate::backend::text::{occurs_at, occurs_in};
use vstd::prelude::*;

verus! {

/// `part` stands somewhere in `text`.
pub open spec fn stands_in(part: Seq<char>, text: Seq<char>) -> bool {
    exists|at: int|
        0 <= at <= text.len() - part.len() && #[trigger] text.subrange(at, at + part.len()) == part
}

/// One of the patterns, and not an empty one, stands in the address.
pub open spec fn some_pattern_in(patterns: Seq<String>, address: Seq<char>) -> bool {
    exists|i: int|
        0 <= i < patterns.len() && (#[trigger] patterns[i])@.len() > 0 && stands_in(
            patterns[i]@,
            address,
        )
}

proof fn lemma_stands_in(part: Seq<char>, text: Seq<char>)
    ensures
        stands_in(part, text) <==> occurs_in(text, part),
{
    if occurs_in(text, part) {
        let at = choose|at: int| occurs_at(text, part, at);
        assert(text.subrange(at, at + part.len()) == part);
    }
    if stands_in(part, text) {
        let at = choose|at: int|
            0 <= at <= text.len() - part.len() && #[trigger] text.subrange(at, at + part.len())
                == part;
        assert(occurs_at(text, part, at));
    }
}

proof fn lemma_some_pattern(patterns: Seq<String>, address: Seq<char>)
    ensures
        some_pattern_in(patterns, address) <==> suspicious(texts(patterns), address),
{
    let known = texts(patterns);
    assert(known.len() == patterns.len());
    if suspicious(known, address) {
        let i = choose|i: int|
            0 <= i < known.len() && pattern_matches(#[trigger] known[i], address);
        lemma_stands_in(patterns[i]@, address);
        assert(known[i] == patterns[i]@);
    }
    if some_pattern_in(patterns, address) {
        let i = choose|i: int|
            0 <= i < patterns.len() && (#[trigger] patterns[i])@.len() > 0 && stands_in(
                patterns[i]@,
                address,
            );
        lemma_stands_in(patterns[i]@, address);
        assert(known[i] == patterns[i]@);
        assert(pattern_matches(known[i], address));
    }
}

/// A transaction keeps within the limits exactly if its amount is not negative and at most
/// the largest one allowed, and neither the sum of the last day nor that of the last month,
/// with the amount added, is over its own limit. (A sum over 64 bits is taken as the largest
/// number, and a limit over the signed range as negative.)
pub proof fn law_velocity(
    s: &ComplianceService,
    amount: i64,
    daily_total: i64,
    monthly_total: i64,
    ok: bool,
    alone: bool,
)
    requires
        call_ensures(
            ComplianceService::check_velocity_limits,
            (s, amount, daily_total, monthly_total),
            ok,
        ),
        call_ensures(
            within_transaction_limit,
            (&s.config.velocity_limits, amount),
            alone,
        ),
    ensures
        alone <==> 0 <= amount <= s.config.velocity_limits.max_transaction_amount,
        ok <==> keeps_within(s.config.velocity_limits, amount, daily_total, monthly_total),
{
}

/// The amount is not negative and at most the largest one allowed, and neither total with it
/// is over its limit.
pub open spec fn keeps_within(
    limits: VelocityLimits,
    amount: i64,
    daily_total: i64,
    monthly_total: i64,
) -> bool {
    &&& 0 <= amount <= limits.max_transaction_amount
    &&& under(limits.daily_transaction_limit, daily_total + amount)
    &&& under(limits.monthly_transaction_limit, monthly_total + amount)
}

/// A sum is not over a limit, as signed numbers of 64 bits.
pub open spec fn under(limit: u64, sum: int) -> bool {
    if limit < 0x7fff_ffff_ffff_ffff {
        sum <= limit
    } else if limit == 0x7fff_ffff_ffff_ffff {
        true
    } else {
        sum <= limit - 0x1_0000_0000_0000_0000
    }
}

/// The score is the worst of what is found: what the provider gives, 100 for a sanctioned
/// address, 80 for a high and 45 for a medium amount, 75 for an exceeded velocity limit, 70
/// for a suspicious pattern. A negative amount counts as its reading without a sign, which
/// is larger than every positive one.
pub proof fn law_score(
    thresholds: RiskThresholds,
    user_id: &str,
    address: &str,
    amount: i64,
    sanctions: SanctionsApiResponse,
    velocity_ok: bool,
    a: TransactionRiskAssessment,
)
    requires
        call_ensures(
            assess,
            (&thresholds, user_id, address, amount, sanctions, velocity_ok),
            a,
        ),
    ensures
        ({
            let size = if amount >= 0 {
                amount as int
            } else {
                amount + 0x1_0000_0000_0000_0000
            };
            let high = size >= thresholds.high_risk_amount;
            let medium = size >= thresholds.medium_risk_amount;
            let pattern = some_pattern_in(thresholds.suspicious_patterns@, address@);
            &&& sanctions.risk_score matches Some(p) ==> a.risk_score >= p
            &&& sanctions.sanctioned ==> a.risk_score >= 100
            &&& high ==> a.risk_score >= 80
            &&& medium && !high ==> a.risk_score >= 45
            &&& !velocity_ok ==> a.risk_score >= 75
            &&& pattern ==> a.risk_score >= 70
            &&& {
                ||| sanctions.risk_score == Some(a.risk_score)
                ||| a.risk_score == 0
                ||| sanctions.sanctioned && a.risk_score == 100
                ||| high && a.risk_score == 80
                ||| medium && !high && a.risk_score == 45
                ||| !velocity_ok && a.risk_score == 75
                ||| pattern && a.risk_score == 70
            }
        }),
{
    lemma_some_pattern(thresholds.suspicious_patterns@, address@);
}

/// A sanctioned address is blocked and nothing else is; otherwise 75 points and more are
/// high, 40 and more medium, fewer low. All else is told as it is.
pub proof fn law_level(
    thresholds: RiskThresholds,
    user_id: &str,
    address: &str,
    amount: i64,
    sanctions: SanctionsApiResponse,
    velocity_ok: bool,
    a: TransactionRiskAssessment,
    decision: &'static str,
)
    requires
        call_ensures(
            assess,
            (&thresholds, user_id, address, amount, sanctions, velocity_ok),
            a,
        ),
        call_ensures(screening_decision, (&a.risk_level,), decision),
    ensures
        a.risk_level == RiskLevel::Blocked <==> sanctions.sanctioned,
        a.risk_level == RiskLevel::High <==> !sanctions.sanctioned && a.risk_score >= 75,
        a.risk_level == RiskLevel::Medium <==> !sanctions.sanctioned && 40 <= a.risk_score < 75,
        a.risk_level == RiskLevel::Low <==> !sanctions.sanctioned && a.risk_score < 40,
        a.user_id@ == user_id@,
        a.address@ == address@,
        a.amount == amount,
        a.sanctions_match == sanctions.sanctioned,
        a.velocity_limit_exceeded == !velocity_ok,
        decision@ == (match a.risk_level {
            RiskLevel::Blocked => "blocked"@,
            RiskLevel::High => "flagged"@,
            RiskLevel::Medium | RiskLevel::Low => "approved"@,
        }),
{
}

/// The reasons are the provider's, then one for sanctions, one for the amount, one for the
/// velocity, and one for each pattern that stands in the address, in this order.
pub proof fn law_reasons(
    thresholds: RiskThresholds,
    user_id: &str,
    address: &str,
    amount: i64,
    sanctions: SanctionsApiResponse,
    velocity_ok: bool,
    a: TransactionRiskAssessment,
)
    requires
        call_ensures(
            assess,
            (&thresholds, user_id, address, amount, sanctions, velocity_ok),
            a,
        ),
    ensures
        ({
            let size = if amount >= 0 {
                amount as int
            } else {
                amount + 0x1_0000_0000_0000_0000
            };
            let n = sanctions.reasons@.len() as int;
            let own = a.reasons@.skip(n).map_values(|r: String| r@);
            let sanction = if sanctions.sanctioned {
                seq!["sanctions_match"@]
            } else {
                seq![]
            };
            let value = if size >= thresholds.high_risk_amount {
                seq!["high_value_transaction"@]
            } else if size >= thresholds.medium_risk_amount {
                seq!["medium_value_transaction"@]
            } else {
                seq![]
            };
            let velocity = if velocity_ok {
                seq![]
            } else {
                seq!["velocity_limit_exceeded"@]
            };
            &&& a.reasons@.len() >= n
            &&& forall|i: int| 0 <= i < n ==> (#[trigger] a.reasons@[i])@ == sanctions.reasons@[i]@
            &&& own == sanction + value + velocity + pattern_reasons(
                texts(thresholds.suspicious_patterns@),
                address@,
            )
        }),
{
    let n = sanctions.reasons@.len() as int;
    let all = texts(a.reasons@);
    assert(all.len() == a.reasons@.len());
    assert(texts(sanctions.reasons@).len() == n);
    assert forall|i: int| 0 <= i < n implies (#[trigger] a.reasons@[i])@
        == sanctions.reasons@[i]@ by {
        assert(all[i] == a.reasons@[i]@);
        assert(texts(sanctions.reasons@)[i] == sanctions.reasons@[i]@);
    }
    let own = a.reasons@.skip(n).map_values(|r: String| r@);
    assert(own =~= all.skip(n));
    let size = if amount >= 0 {
        amount as int
    } else {
        amount + 0x1_0000_0000_0000_0000
    };
    let sanction = if sanctions.sanctioned {
        seq!["sanctions_match"@]
    } else {
        seq![]
    };
    let value = if size >= thresholds.high_risk_amount {
        seq!["high_value_transaction"@]
    } else if size >= thresholds.medium_risk_amount {
        seq!["medium_value_transaction"@]
    } else {
        seq![]
    };
    let velocity = if velocity_ok {
        seq![]
    } else {
        seq!["velocity_limit_exceeded"@]
    };
    assert(all.skip(n) =~= sanction + value + velocity + pattern_reasons(
        texts(thresholds.suspicious_patterns@),
        address@,
    ));
}

/// Patterns give their reasons in their order, one each for those that stand in the address
/// and are not empty, and none for the others.
pub proof fn law_pattern_reasons(patterns: Seq<Seq<char>>, pattern: Seq<char>, address: Seq<char>)
    ensures
        pattern_reasons(seq![], address) == Seq::<Seq<char>>::empty(),
        pattern.len() > 0 && stands_in(pattern, address) ==> pattern_reasons(
            patterns.push(pattern),
            address,
        ) == pattern_reasons(patterns, address).push("suspicious_pattern:"@ + pattern),
        !(pattern.len() > 0 && stands_in(pattern, address)) ==> pattern_reasons(
            patterns.push(pattern),
            address,
        ) == pattern_reasons(patterns, address),
{
    lemma_stands_in(pattern, address);
    assert(patterns.push(pattern).drop_last() =~= patterns);
}

/// A screening asks the provider about the address that the funds go to, where it is
/// configured to. Where a provider is not set up it goes on as with an address of which
/// nothing is known but that.
pub proof fn law_begin(s: &ComplianceService, t: Transaction, step: AssessmentStep)
    requires
        call_ensures(ComplianceService::assess_transaction_risk, (s, t), step),
    ensures
        ({
            let unset = stands_in("example.com"@, s.config.sanctions_api_url@)
                || s.config.sanctions_api_key@ == "api-key"@;
            let allowed = 0 <= t.amount
                <= s.config.velocity_limits.max_transaction_amount;
            &&& !unset <==> step is Screen
            &&& step matches AssessmentStep::Screen { transaction, query } ==> {
                &&& transaction == t
                &&& query.url == s.config.sanctions_api_url
                &&& query.key == s.config.sanctions_api_key
                &&& query.address == t.address
            }
            &&& unset && allowed ==> {
                &&& step matches AssessmentStep::SumDay { transaction, sanctions, user_id }
                &&& transaction == t
                &&& user_id == t.user_id
                &&& !sanctions.sanctioned
                &&& sanctions.risk_score is None
                &&& sanctions.reasons@.len() == 1
                &&& sanctions.reasons@[0]@ == "sanctions_provider_not_configured"@
            }
            &&& unset && !allowed ==> {
                &&& step matches AssessmentStep::Store { assessment: a, .. }
                &&& a.user_id@ == t.user_id@
                &&& a.address@ == t.address@
                &&& a.amount == t.amount
                &&& !a.sanctions_match
                &&& a.velocity_limit_exceeded
                &&& a.risk_score >= 75
                &&& a.risk_level == RiskLevel::High
                &&& a.reasons@.len() >= 1
                &&& a.reasons@[0]@ == "sanctions_provider_not_configured"@
            }
        }),
{
    lemma_stands_in("example.com"@, s.config.sanctions_api_url@);
    if !(step is Screen) {
        let sanctions = choose|x: SanctionsApiResponse|
            is_unscreened(x) && #[trigger] follows_screening(s.config, t, x, step);
        assert(texts(sanctions.reasons@).len() == 1);
        assert(texts(sanctions.reasons@)[0] == sanctions.reasons@[0]@);
        if step is Store {
            let a = step->assessment;
            assert(texts(a.reasons@).len() >= texts(sanctions.reasons@).len());
            assert(texts(a.reasons@).len() == a.reasons@.len());
            assert(texts(a.reasons@)[0] == texts(sanctions.reasons@)[0]);
            assert(texts(a.reasons@)[0] == a.reasons@[0]@);
        }
    }
}

/// Only a response with a code from 200 to 299 is read. Everything else that goes wrong
/// with the provider ends the screening with a text that says what.
pub proof fn law_provider_replies(
    s: &ComplianceService,
    t: Transaction,
    status: Result<(u16, String), String>,
    after_status: AssessmentStep,
    answer: Result<SanctionsApiResponse, String>,
    after_answer: AssessmentStep,
)
    requires
        call_ensures(ComplianceService::screened, (s, t, status), after_status),
        call_ensures(ComplianceService::answered, (s, t, answer), after_answer),
    ensures
        status matches Ok((code, text)) ==> (200 <= code <= 299 ==> after_status == (
        AssessmentStep::ReadAnswer { transaction: t })),
        status matches Ok((code, text)) ==> (code < 200 || code > 299 ==> (after_status matches
            AssessmentStep::Finish(Err(ApiError::Compliance(e))) && e@
            == "Sanctions provider returned "@ + text@)),
        status matches Err(cause) ==> (after_status matches AssessmentStep::Finish(
            Err(ApiError::Compliance(e)),
        ) && e@ == "Sanctions screening failed: "@ + cause@),
        answer matches Err(cause) ==> (after_answer matches AssessmentStep::Finish(
            Err(ApiError::Compliance(e)),
        ) && e@ == "Invalid sanctions response: "@ + cause@),
        answer matches Ok(sanctions) ==> (0 <= t.amount
            <= s.config.velocity_limits.max_transaction_amount ==> after_answer == (
        AssessmentStep::SumDay { transaction: t, sanctions, user_id: t.user_id })),
        answer matches Ok(sanctions) ==> (t.amount < 0 || t.amount
            > s.config.velocity_limits.max_transaction_amount ==> (after_answer matches
            AssessmentStep::Store { assessment: a, .. } && a.velocity_limit_exceeded
            && a.sanctions_match == sanctions.sanctioned && a.user_id@ == t.user_id@ && a.address@
            == t.address@ && a.amount == t.amount)),
{
}

/// Once both sums are read, the assessment finds the velocity in order exactly if the
/// amount, the sum of the last day and the sum of the last month keep within their limits:
/// each against its own. It is stored under a random identifier. What cannot be read or
/// stored ends the screening with that error, and nothing is given out that is not stored.
pub proof fn law_sums(
    s: &ComplianceService,
    t: Transaction,
    sanctions: SanctionsApiResponse,
    day: Result<i64, ApiError>,
    after_day: AssessmentStep,
    daily_total: i64,
    month: Result<i64, ApiError>,
    after_month: AssessmentStep,
    assessment: TransactionRiskAssessment,
    stored: Result<(), ApiError>,
    after_store: AssessmentStep,
)
    requires
        call_ensures(ComplianceService::day_summed, (s, t, sanctions, day), after_day),
        call_ensures(
            ComplianceService::month_summed,
            (s, t, sanctions, daily_total, month),
            after_month,
        ),
        call_ensures(
            ComplianceService::assessment_stored,
            (assessment, stored),
            after_store,
        ),
    ensures
        day matches Ok(d) ==> after_day == (AssessmentStep::SumMonth {
            transaction: t,
            sanctions,
            daily_total: d,
            user_id: t.user_id,
        }),
        day matches Err(e) ==> after_day == AssessmentStep::Finish(Err(e)),
        month matches Err(e) ==> after_month == AssessmentStep::Finish(Err(e)),
        month matches Ok(m) ==> {
            &&& after_month matches AssessmentStep::Store { id, assessment: a }
            &&& drawn(id)
            &&& a.user_id@ == t.user_id@
            &&& a.address@ == t.address@
            &&& a.amount == t.amount
            &&& a.sanctions_match == sanctions.sanctioned
            &&& !a.velocity_limit_exceeded <==> keeps_within(
                s.config.velocity_limits,
                t.amount,
                daily_total,
                m,
            )
        },
        stored is Ok ==> after_store == AssessmentStep::Finish(Ok(assessment)),
        stored matches Err(e) ==> after_store == AssessmentStep::Finish(Err(e)),
{
}

/// What a screening stores is what weighing the same things gives.
pub proof fn law_stored_is_weighed(
    s: &ComplianceService,
    t: Transaction,
    sanctions: SanctionsApiResponse,
    daily_total: i64,
    monthly_total: i64,
    step: AssessmentStep,
    user_id: &str,
    address: &str,
    ok: bool,
    a: TransactionRiskAssessment,
)
    requires
        call_ensures(
            ComplianceService::month_summed,
            (s, t, sanctions, daily_total, Ok::<i64, ApiError>(monthly_total)),
            step,
        ),
        user_id@ == t.user_id@,
        address@ == t.address@,
        ok == keeps_within(s.config.velocity_limits, t.amount, daily_total, monthly_total),
        call_ensures(
            assess,
            (&s.config.risk_thresholds, user_id, address, t.amount, sanctions, ok),
            a,
        ),
    ensures
        step matches AssessmentStep::Store { assessment: b, .. } && {
            &&& b.risk_score == a.risk_score
            &&& b.risk_level == a.risk_level
            &&& b.sanctions_match == a.sanctions_match
            &&& b.velocity_limit_exceeded == a.velocity_limit_exceeded
            &&& b.reasons@.map_values(|r: String| r@) == a.reasons@.map_values(|r: String| r@)
        },
{
    let b = step->assessment;
    assert(b.reasons@.map_values(|r: String| r@) =~= texts(b.reasons@));
    assert(a.reasons@.map_values(|r: String| r@) =~= texts(a.reasons@));
}

/// An amount that is not allowed is weighed at once, as one that exceeds the velocity limits.
pub proof fn law_stored_at_once_is_weighed(
    s: &ComplianceService,
    t: Transaction,
    sanctions: SanctionsApiResponse,
    step: AssessmentStep,
    user_id: &str,
    address: &str,
    a: TransactionRiskAssessment,
)
    requires
        call_ensures(
            ComplianceService::answered,
            (s, t, Ok::<SanctionsApiResponse, String>(sanctions)),
            step,
        ),
        t.amount < 0 || t.amount > s.config.velocity_limits.max_transaction_amount,
        user_id@ == t.user_id@,
        address@ == t.address@,
        call_ensures(
            assess,
            (&s.config.risk_thresholds, user_id, address, t.amount, sanctions, false),
            a,
        ),
    ensures
        step matches AssessmentStep::Store { id, assessment: b } && {
            &&& drawn(id)
            &&& b.risk_score == a.risk_score
            &&& b.risk_level == a.risk_level
            &&& b.sanctions_match == a.sanctions_match
            &&& b.velocity_limit_exceeded == a.velocity_limit_exceeded
            &&& b.reasons@.map_values(|r: String| r@) == a.reasons@.map_values(|r: String| r@)
        },
{
    let b = step->assessment;
    assert(b.reasons@.map_values(|r: String| r@) =~= texts(b.reasons@));
    assert(a.reasons@.map_values(|r: String| r@) =~= texts(a.reasons@));
}

/// Where no provider is set up, an amount that is not allowed is weighed like one to an
/// address of which the provider knows nothing but that it could not be asked.
pub proof fn law_unscreened_is_weighed(
    s: &ComplianceService,
    t: Transaction,
    step: AssessmentStep,
    unscreened: SanctionsApiResponse,
    user_id: &str,
    address: &str,
    a: TransactionRiskAssessment,
)
    requires
        call_ensures(ComplianceService::assess_transaction_risk, (s, t), step),
        stands_in("example.com"@, s.config.sanctions_api_url@) || s.config.sanctions_api_key@
            == "api-key"@,
        t.amount < 0 || t.amount > s.config.velocity_limits.max_transaction_amount,
        !unscreened.sanctioned,
        unscreened.risk_score is None,
        unscreened.reasons@.len() == 1,
        unscreened.reasons@[0]@ == "sanctions_provider_not_configured"@,
        user_id@ == t.user_id@,
        address@ == t.address@,
        call_ensures(
            assess,
            (&s.config.risk_thresholds, user_id, address, t.amount, unscreened, false),
            a,
        ),
    ensures
        step matches AssessmentStep::Store { id, assessment: b } && {
            &&& drawn(id)
            &&& b.user_id@ == t.user_id@
            &&& b.address@ == t.address@
            &&& b.amount == t.amount
            &&& b.risk_score == a.risk_score
            &&& b.risk_level == a.risk_level
            &&& b.sanctions_match == a.sanctions_match
            &&& b.velocity_limit_exceeded == a.velocity_limit_exceeded
            &&& b.reasons@.map_values(|r: String| r@) == a.reasons@.map_values(|r: String| r@)
        },
{
    lemma_stands_in("example.com"@, s.config.sanctions_api_url@);
    let sanctions = choose|x: SanctionsApiResponse|
        is_unscreened(x) && #[trigger] follows_screening(s.config, t, x, step);
    assert(texts(unscreened.reasons@) =~= texts(sanctions.reasons@)) by {
        assert(texts(unscreened.reasons@).len() == 1);
        assert(texts(sanctions.reasons@).len() == 1);
        assert(texts(unscreened.reasons@)[0] == unscreened.reasons@[0]@);
    }
    let b = step->assessment;
    assert(b.reasons@.map_values(|r: String| r@) =~= texts(b.reasons@));
    assert(a.reasons@.map_values(|r: String| r@) =~= texts(a.reasons@));
}

/// A service screens by the configuration it is given.
pub proof fn law_new(config: ComplianceConfig, s: ComplianceService)
    requires
        call_ensures(ComplianceService::new, (config,), s),
    ensures
        s.config == config,
{
}

/// What is known of the sums wherever a run stands.
spec fn sums_in(
    config: ComplianceConfig,
    t: Transaction,
    run: Seq<(AssessmentStep, AssessmentReply)>,
    last: AssessmentStep,
) -> bool {
    match last {
        AssessmentStep::Screen { transaction, .. } => transaction == t && no_sums(run),
        AssessmentStep::ReadAnswer { transaction } => transaction == t && no_sums(run),
        AssessmentStep::SumDay { transaction, .. } => transaction == t && no_sums(run),
        AssessmentStep::SumMonth { transaction, daily_total, .. } => {
            &&& transaction == t
            &&& run.len() > 0
            &&& no_sums(run.drop_last())
            &&& run.last().1 == AssessmentReply::Day(Ok(daily_total))
        },
        AssessmentStep::Store { assessment: a, .. } => judged(config, t, run, a),
        AssessmentStep::Finish(Ok(a)) => run.len() > 0 && judged(config, t, run.drop_last(), a) && (
        run.last().1 is Stored),
        AssessmentStep::Finish(Err(_)) => true,
    }
}

/// The run holds no reading of a sum.
spec fn no_sums(run: Seq<(AssessmentStep, AssessmentReply)>) -> bool {
    forall|i: int| 0 <= i < run.len() ==> !((#[trigger] run[i]).1 is Day) && !(run[i].1 is Month)
}

/// The velocity was judged on the sums that the run holds, or without any for an amount that
/// is not allowed.
spec fn judged(
    config: ComplianceConfig,
    t: Transaction,
    run: Seq<(AssessmentStep, AssessmentReply)>,
    a: TransactionRiskAssessment,
) -> bool {
    ||| {
        &&& no_sums(run)
        &&& a.velocity_limit_exceeded
        &&& t.amount < 0 || t.amount > config.velocity_limits.max_transaction_amount
    }
    ||| {
        &&& run.len() >= 2
        &&& no_sums(run.take(run.len() - 2))
        &&& run[run.len() - 2].1 matches AssessmentReply::Day(Ok(d))
        &&& run[run.len() - 1].1 matches AssessmentReply::Month(Ok(m))
        &&& !a.velocity_limit_exceeded <==> keeps_within(config.velocity_limits, t.amount, d, m)
    }
}

proof fn lemma_sums_in(
    config: ComplianceConfig,
    t: Transaction,
    run: Seq<(AssessmentStep, AssessmentReply)>,
    last: AssessmentStep,
)
    requires
        assessment_run(config, t, run, last),
    ensures
        sums_in(config, t, run, last),
    decreases run.len(),
{
    if run.len() > 0 {
        let init = run.drop_last();
        lemma_sums_in(config, t, init, run.last().0);
        assert(assessment_moves(config, run.last().0, run.last().1, last));
        assert forall|i: int| 0 <= i < init.len() implies run[i] == #[trigger] init[i] by {}
        assert(run[run.len() - 1] == run.last());
        if no_sums(init) && !(run.last().1 is Day) && !(run.last().1 is Month) {
            assert forall|i: int| 0 <= i < run.len() implies !((#[trigger] run[i]).1 is Day) && !(
            run[i].1 is Month) by {
                if i < init.len() {
                    assert(run[i] == init[i]);
                }
            }
            assert(no_sums(run));
        }
        if run.last().0 is SumMonth {
            assert(run.take(run.len() - 2) =~= init.drop_last());
            assert(run[run.len() - 2] == init.last());
        }
    }
}

/// In every run of a screening that stores or gives out an assessment: where the sum of the
/// last day was read as `d` and that of the last month as `m`, the assessment finds the
/// velocity in order exactly if the amount is allowed and both sums, with the amount added,
/// keep within their own limits.
pub proof fn law_runs_judge_both_sums(
    config: ComplianceConfig,
    t: Transaction,
    run: Seq<(AssessmentStep, AssessmentReply)>,
    last: AssessmentStep,
    a: TransactionRiskAssessment,
    i: int,
    d: i64,
    j: int,
    m: i64,
)
    requires
        assessment_run(config, t, run, last),
        last == AssessmentStep::Finish(Ok(a)) || (last matches AssessmentStep::Store {
            assessment,
            ..
        } && assessment == a),
        0 <= i < run.len(),
        run[i].1 == AssessmentReply::Day(Ok(d)),
        0 <= j < run.len(),
        run[j].1 == AssessmentReply::Month(Ok(m)),
    ensures
        !a.velocity_limit_exceeded <==> keeps_within(config.velocity_limits, t.amount, d, m),
{
    lemma_sums_in(config, t, run, last);
    let until = if last is Store {
        run
    } else {
        run.drop_last()
    };
    let n = until.len() as int;
    assert forall|k: int| 0 <= k < n implies run[k] == #[trigger] until[k] by {}
    if !(last is Store) {
        assert(run[n] == run.last());
    }
    assert(until[i] == run[i]);
    assert(until[j] == run[j]);
    assert(!no_sums(until));
    let front = until.take(n - 2);
    if i < n - 2 {
        assert(until[i] == front[i]);
    }
    if j < n - 2 {
        assert(until[j] == front[j]);
    }
}

/// A run that finds the velocity in order has read both sums.
pub proof fn law_velocity_in_order_needs_both_sums(
    config: ComplianceConfig,
    t: Transaction,
    run: Seq<(AssessmentStep, AssessmentReply)>,
    last: AssessmentStep,
    a: TransactionRiskAssessment,
)
    requires
        assessment_run(config, t, run, last),
        last == AssessmentStep::Finish(Ok(a)) || (last matches AssessmentStep::Store {
            assessment,
            ..
        } && assessment == a),
        !a.velocity_limit_exceeded,
    ensures
        exists|i: int| 0 <= i < run.len() && (#[trigger] run[i]).1 is Day,
        exists|j: int| 0 <= j < run.len() && (#[trigger] run[j]).1 is Month,
{
    lemma_sums_in(config, t, run, last);
    let n = if last is Store {
        run.len() as int
    } else {
        run.len() - 1
    };
    assert(run[n - 2].1 is Day);
    assert(run[n - 1].1 is Month);
}

/// The screening of an address alone is that of a transaction of nothing by `unknown`, and
/// tells whether the address is sanctioned.
pub proof fn law_address_alone(
    s: &ComplianceService,
    address: String,
    step: AssessmentStep,
    outcome: Result<TransactionRiskAssessment, ApiError>,
    found: Result<bool, ApiError>,
)
    requires
        call_ensures(ComplianceService::check_sanctions, (s, address), step),
        call_ensures(ComplianceService::sanctions_found, (outcome,), found),
    ensures
        ({
            let unset = stands_in("example.com"@, s.config.sanctions_api_url@)
                || s.config.sanctions_api_key@ == "api-key"@;
            &&& !unset <==> step is Screen
            &&& step matches AssessmentStep::Screen { transaction, query } ==> {
                &&& transaction.user_id@ == "unknown"@
                &&& transaction.address == address
                &&& transaction.amount == 0
                &&& query.address == address
                &&& query.url == s.config.sanctions_api_url
                &&& query.key == s.config.sanctions_api_key
            }
            &&& unset ==> {
                &&& step matches AssessmentStep::SumDay { transaction, user_id, sanctions }
                &&& transaction.user_id@ == "unknown"@
                &&& user_id@ == "unknown"@
                &&& transaction.address == address
                &&& transaction.amount == 0
                &&& !sanctions.sanctioned
                &&& sanctions.risk_score is None
                &&& sanctions.reasons@.len() == 1
                &&& sanctions.reasons@[0]@ == "sanctions_provider_not_configured"@
            }
        }),
        outcome matches Ok(a) ==> found == Ok::<bool, ApiError>(a.sanctions_match),
        outcome matches Err(e) ==> found == Err::<bool, ApiError>(e),
{
    lemma_stands_in("example.com"@, s.config.sanctions_api_url@);
    if step is SumDay {
        let sanctions = step->SumDay_sanctions;
        assert(texts(sanctions.reasons@).len() == 1);
        assert(texts(sanctions.reasons@)[0] == sanctions.reasons@[0]@);
    }
}

} // verus!
