//! Historical Cost calculation and incomplete cost states.

use crate::arrangement::sum_of;
use crate::money::{
    amount_values, decimal_fold, decimal_rounded, decimal_text_two_places, decimal_round,
    decimal_to_text_two_places, exact_fold_fits, lemma_mantissa_rescaled, lemma_ten_to_positive, magnitude,
    mantissa_at, mantissa_sum, ten_to, whole_budget, whole_units, sum_amounts, UsdAmount, MAX_MANTISSA,
};
use crate::price_catalog::{
    cost_for_tokens, effective_schedule, lemma_bounded_price_fits, price_bounded, schedule_prices_bounded, token_cost,
    PriceCatalog,
    PriceSchedule, TOKEN_COST_WHOLE_UNITS_BOUND,
};
use crate::session::{CodexSession, TokenTotals};
use crate::text::{joined, owned};
use crate::time::CivilDate;
use vstd::prelude::*;

verus! {

/// A Codex Session with cost state attached.
#[derive(Clone, Debug, PartialEq, Eq)]
pub struct PricedCodexSession {
    /// Source Codex Session.
    pub codex_session: CodexSession,
    /// Historical Cost state.
    pub cost_state: CostState,
    /// Effective Price Schedule match when one was found.
    pub price_schedule_match: Option<PriceScheduleMatch>,
}

/// The Effective Price Schedule selected for a session.
#[derive(Clone, Debug, PartialEq, Eq)]
pub struct PriceScheduleMatch {
    /// Exact Model name matched by the Price Schedule.
    pub model: String,
    /// Effective date for the matched Price Schedule.
    pub effective_date: CivilDate,
    /// Input Tokens price per one million tokens.
    pub input_tokens_per_million: UsdAmount,
    /// Cache Read Tokens price per one million tokens.
    pub cache_read_tokens_per_million: UsdAmount,
    /// Cache Write Tokens price per one million tokens.
    pub cache_write_tokens_per_million: UsdAmount,
    /// Output Tokens price per one million tokens.
    pub output_tokens_per_million: UsdAmount,
    /// Reasoning Output Tokens price per one million tokens, when distinct.
    pub reasoning_output_tokens_per_million: Option<UsdAmount>,
}

/// Typed Historical Cost state.
#[derive(Clone, Debug, PartialEq, Eq)]
pub enum CostState {
    /// Complete Historical Cost.
    Complete {
        /// United States Dollar Cost with full calculation precision.
        united_states_dollar_cost: UsdAmount,
    },
    /// Known Partial Cost with explicit incomplete reasons.
    Partial {
        /// Known United States Dollar Cost.
        known_united_states_dollar_cost: UsdAmount,
        /// Incomplete reasons.
        reasons: Vec<IncompleteCostReason>,
    },
    /// No cost can be calculated.
    Incomplete {
        /// Incomplete reasons.
        reasons: Vec<IncompleteCostReason>,
    },
}

/// Explicit reason a usage record cannot be fully priced.
#[derive(Clone, Debug, PartialEq, Eq)]
pub enum IncompleteCostReason {
    /// Model has no unambiguous Effective Price Schedule.
    UnpricedUsage { model: String },
    /// Required token category is missing.
    MissingTokenCategory { token_category: String },
}

/// An incomplete cost reason as plain values.
pub enum ReasonModel {
    /// Model has no Effective Price Schedule.
    UnpricedUsage(Seq<char>),
    /// A required token category is missing.
    MissingTokenCategory(Seq<char>),
}

/// A cost state as plain values.
pub enum CostModel {
    /// Complete cost.
    Complete((int, nat)),
    /// Known partial cost with reasons.
    Partial((int, nat), Seq<ReasonModel>),
    /// No known cost, with reasons.
    Incomplete(Seq<ReasonModel>),
}

impl View for IncompleteCostReason {
    type V = ReasonModel;

    open spec fn view(&self) -> ReasonModel {
        match self {
            IncompleteCostReason::UnpricedUsage { model } => ReasonModel::UnpricedUsage(model@),
            IncompleteCostReason::MissingTokenCategory { token_category } => {
                ReasonModel::MissingTokenCategory(token_category@)
            },
        }
    }
}

/// The plain values of a sequence of reasons.
pub open spec fn reason_values(reasons: Seq<IncompleteCostReason>) -> Seq<ReasonModel> {
    reasons.map_values(|reason: IncompleteCostReason| reason@)
}

impl View for CostState {
    type V = CostModel;

    open spec fn view(&self) -> CostModel {
        match self {
            CostState::Complete { united_states_dollar_cost } => CostModel::Complete(
                united_states_dollar_cost@,
            ),
            CostState::Partial { known_united_states_dollar_cost, reasons } => CostModel::Partial(
                known_united_states_dollar_cost@,
                reason_values(reasons@),
            ),
            CostState::Incomplete { reasons } => CostModel::Incomplete(reason_values(reasons@)),
        }
    }
}

/// The Non-Cached Input Tokens a session's totals give: the recorded count, else the Input
/// Tokens less the Cache Read Tokens (all Input Tokens when no cache reads are recorded).
pub open spec fn derived_non_cached_input(totals: TokenTotals) -> Option<int> {
    match (totals.non_cached_input_tokens, totals.input_tokens, totals.cache_read_tokens) {
        (Some(non_cached), _, _) => Some(non_cached as int),
        (None, Some(input), None) => Some(input as int),
        (None, Some(input), Some(cache_read)) => if input >= cache_read {
            Some(input - cache_read)
        } else {
            None
        },
        _ => None,
    }
}

/// The priced input categories, in order: non-cached input less cache writes at the input
/// price, then cache writes at the cache write price. Without a usable non-cached count only
/// recorded cache writes are priced.
pub open spec fn input_cost_terms(totals: TokenTotals, schedule: PriceSchedule) -> Seq<(int, nat)> {
    match derived_non_cached_input(totals) {
        Some(non_cached) => {
            let cache_write = match totals.cache_write_tokens {
                Some(count) => count as int,
                None => 0,
            };
            if cache_write <= non_cached {
                seq![
                    token_cost((non_cached - cache_write) as nat, schedule.input_tokens_per_million@),
                    token_cost(cache_write as nat, schedule.cache_write_tokens_per_million@),
                ]
            } else {
                seq![]
            }
        },
        None => match totals.cache_write_tokens {
            Some(cache_write) => seq![
                token_cost(cache_write as nat, schedule.cache_write_tokens_per_million@),
            ],
            None => seq![],
        },
    }
}

/// Whether the Non-Cached Input Tokens cannot be priced.
pub open spec fn input_category_missing(totals: TokenTotals) -> bool {
    match derived_non_cached_input(totals) {
        Some(non_cached) => match totals.cache_write_tokens {
            Some(cache_write) => cache_write > non_cached,
            None => false,
        },
        None => true,
    }
}

/// The priced Cache Read Tokens, when recorded.
pub open spec fn cache_read_cost_terms(totals: TokenTotals, schedule: PriceSchedule) -> Seq<(int, nat)> {
    match totals.cache_read_tokens {
        Some(cache_read) => seq![token_cost(cache_read as nat, schedule.cache_read_tokens_per_million@)],
        None => seq![],
    }
}

/// The priced output categories. With a distinct reasoning price, reasoning output within the
/// output count is priced apart from the rest of the output; otherwise all output is priced as
/// Output Tokens. Reasoning output without an output count is priced at the reasoning price,
/// else the output price.
pub open spec fn output_cost_terms(totals: TokenTotals, schedule: PriceSchedule) -> Seq<(int, nat)> {
    match totals.output_tokens {
        Some(output) => match (totals.reasoning_output_tokens, schedule.reasoning_output_tokens_per_million) {
            (Some(reasoning), Some(reasoning_price)) => if reasoning <= output {
                seq![
                    token_cost((output - reasoning) as nat, schedule.output_tokens_per_million@),
                    token_cost(reasoning as nat, reasoning_price@),
                ]
            } else {
                seq![token_cost(output as nat, schedule.output_tokens_per_million@)]
            },
            _ => seq![token_cost(output as nat, schedule.output_tokens_per_million@)],
        },
        None => match totals.reasoning_output_tokens {
            Some(reasoning) => seq![
                token_cost(
                    reasoning as nat,
                    match schedule.reasoning_output_tokens_per_million {
                        Some(price) => price@,
                        None => schedule.output_tokens_per_million@,
                    },
                ),
            ],
            None => seq![],
        },
    }
}

/// Whether the Output Tokens cannot be fully priced: no output count, or reasoning output
/// above the output count under a distinct reasoning price.
pub open spec fn output_category_missing(totals: TokenTotals, schedule: PriceSchedule) -> bool {
    match totals.output_tokens {
        Some(output) => match (totals.reasoning_output_tokens, schedule.reasoning_output_tokens_per_million) {
            (Some(reasoning), Some(_)) => reasoning > output,
            _ => false,
        },
        None => true,
    }
}

/// Every priced category cost of a session, in pricing order.
pub open spec fn priced_cost_terms(totals: TokenTotals, schedule: PriceSchedule) -> Seq<(int, nat)> {
    input_cost_terms(totals, schedule) + cache_read_cost_terms(totals, schedule) + output_cost_terms(
        totals,
        schedule,
    )
}

/// The missing token categories of a session, in pricing order.
pub open spec fn missing_category_reasons(totals: TokenTotals, schedule: PriceSchedule) -> Seq<ReasonModel> {
    (if input_category_missing(totals) {
        seq![ReasonModel::MissingTokenCategory("Non-Cached Input Tokens"@)]
    } else {
        seq![]
    }) + (if output_category_missing(totals, schedule) {
        seq![ReasonModel::MissingTokenCategory("Output Tokens"@)]
    } else {
        seq![]
    })
}

/// The cost state for a known cost and its incomplete reasons: complete without reasons, else
/// partial when the known cost is positive, else incomplete.
pub open spec fn cost_model_from(cost: (int, nat), reasons: Seq<ReasonModel>) -> CostModel {
    if reasons.len() == 0 {
        CostModel::Complete(cost)
    } else if cost.0 > 0 {
        CostModel::Partial(cost, reasons)
    } else {
        CostModel::Incomplete(reasons)
    }
}

/// The Historical Cost of a session under the catalog's schedules: unpriced usage without an
/// Effective Price Schedule, else the `Decimal` sum of its priced categories.
pub open spec fn session_cost_model(session: CodexSession, schedules: Seq<PriceSchedule>) -> CostModel {
    match effective_schedule(schedules, session.model@, session.session_start_time@) {
        None => CostModel::Incomplete(seq![ReasonModel::UnpricedUsage(session.model@)]),
        Some(schedule) => cost_model_from(
            decimal_fold(priced_cost_terms(session.token_totals, schedule)),
            missing_category_reasons(session.token_totals, schedule),
        ),
    }
}

/// The known cost of a cost state: the cost of a complete or partial state, else zero.
pub open spec fn known_cost_of(state: CostModel) -> (int, nat) {
    match state {
        CostModel::Complete(cost) => cost,
        CostModel::Partial(cost, _) => cost,
        CostModel::Incomplete(_) => (0, 0),
    }
}

/// The schedule match recorded for a schedule: its Model, date and prices.
pub open spec fn match_of_schedule(found: PriceScheduleMatch, schedule: PriceSchedule) -> bool {
    &&& found.model@ == schedule.model@
    &&& found.effective_date == schedule.effective_date
    &&& found.input_tokens_per_million == schedule.input_tokens_per_million
    &&& found.cache_read_tokens_per_million == schedule.cache_read_tokens_per_million
    &&& found.cache_write_tokens_per_million == schedule.cache_write_tokens_per_million
    &&& found.output_tokens_per_million == schedule.output_tokens_per_million
    &&& found.reasoning_output_tokens_per_million == schedule.reasoning_output_tokens_per_million
}

/// A priced session for a session: the session, its cost state and its schedule match.
pub open spec fn priced_as(priced: PricedCodexSession, session: CodexSession, schedules: Seq<PriceSchedule>) -> bool {
    &&& priced.codex_session == session
    &&& priced.cost_state@ == session_cost_model(session, schedules)
    &&& match effective_schedule(schedules, session.model@, session.session_start_time@) {
        Some(schedule) => priced.price_schedule_match matches Some(found) && match_of_schedule(found, schedule),
        None => priced.price_schedule_match is None,
    }
}

/// Whether two priced sessions hold the same session, cost state and schedule match.
pub open spec fn same_priced_session(left: PricedCodexSession, right: PricedCodexSession) -> bool {
    &&& left.codex_session == right.codex_session
    &&& left.cost_state@ == right.cost_state@
    &&& left.price_schedule_match == right.price_schedule_match
}

impl IncompleteCostReason {
    /// Copies the reason.
    pub fn duplicate(&self) -> (result: IncompleteCostReason)
        ensures
            result == *self,
    {
        match self {
            IncompleteCostReason::UnpricedUsage { model } => IncompleteCostReason::UnpricedUsage {
                model: model.clone(),
            },
            IncompleteCostReason::MissingTokenCategory { token_category } => {
                IncompleteCostReason::MissingTokenCategory { token_category: token_category.clone() }
            },
        }
    }
}

/// Copies a list of reasons.
pub fn duplicate_reasons(reasons: &Vec<IncompleteCostReason>) -> (result: Vec<IncompleteCostReason>)
    ensures
        result@ == reasons@,
{
    let mut result: Vec<IncompleteCostReason> = Vec::new();
    let mut index: usize = 0;
    while index < reasons.len()
        invariant
            index <= reasons.len(),
            result@ == reasons@.take(index as int),
        decreases reasons.len() - index,
    {
        result.push(reasons[index].duplicate());
        index = index + 1;
        proof {
            assert(result@ =~= reasons@.take(index as int));
        }
    }
    proof {
        assert(reasons@.take(reasons.len() as int) =~= reasons@);
    }
    result
}

impl CostState {
    /// Copies the cost state.
    pub fn duplicate(&self) -> (result: CostState)
        ensures
            result@ == self@,
    {
        match self {
            CostState::Complete { united_states_dollar_cost } => CostState::Complete {
                united_states_dollar_cost: *united_states_dollar_cost,
            },
            CostState::Partial { known_united_states_dollar_cost, reasons } => CostState::Partial {
                known_united_states_dollar_cost: *known_united_states_dollar_cost,
                reasons: duplicate_reasons(reasons),
            },
            CostState::Incomplete { reasons } => CostState::Incomplete {
                reasons: duplicate_reasons(reasons),
            },
        }
    }
}

impl PriceScheduleMatch {
    /// Copies the schedule match.
    pub fn duplicate(&self) -> (result: PriceScheduleMatch)
        ensures
            result == *self,
    {
        PriceScheduleMatch {
            model: self.model.clone(),
            effective_date: self.effective_date,
            input_tokens_per_million: self.input_tokens_per_million,
            cache_read_tokens_per_million: self.cache_read_tokens_per_million,
            cache_write_tokens_per_million: self.cache_write_tokens_per_million,
            output_tokens_per_million: self.output_tokens_per_million,
            reasoning_output_tokens_per_million: self.reasoning_output_tokens_per_million,
        }
    }
}

impl PricedCodexSession {
    /// Copies the priced session.
    pub fn duplicate(&self) -> (result: PricedCodexSession)
        ensures
            same_priced_session(result, *self),
    {
        PricedCodexSession {
            codex_session: self.codex_session.duplicate(),
            cost_state: self.cost_state.duplicate(),
            price_schedule_match: match &self.price_schedule_match {
                Some(found) => Some(found.duplicate()),
                None => None,
            },
        }
    }
}

fn missing_category(token_category: &str) -> (result: IncompleteCostReason)
    ensures
        result@ == ReasonModel::MissingTokenCategory(token_category@),
{
    IncompleteCostReason::MissingTokenCategory { token_category: owned(token_category) }
}

proof fn lemma_term_budget(terms: Seq<(int, nat)>)
    requires
        terms.len() <= 6,
        forall|index: int| 0 <= index < terms.len() ==> whole_units(#[trigger] terms[index]) <= TOKEN_COST_WHOLE_UNITS_BOUND as int,
    ensures
        whole_budget(terms) <= terms.len() * (TOKEN_COST_WHOLE_UNITS_BOUND as int + 2),
    decreases terms.len(),
{
    if terms.len() > 0 {
        let rest = terms.drop_last();
        assert forall|index: int| 0 <= index < rest.len() implies whole_units(#[trigger] rest[index]) <= TOKEN_COST_WHOLE_UNITS_BOUND as int by {
            assert(rest[index] == terms[index]);
        }
        lemma_term_budget(rest);
        assert(whole_units(terms[terms.len() - 1]) <= TOKEN_COST_WHOLE_UNITS_BOUND as int);
    }
}

/// The exact cost of a number of tokens at a price per million tokens with at most four
/// fraction digits, as a mantissa at scale ten.
pub open spec fn exact_token_cost(count: int, price: (int, nat)) -> int {
    count * price.0 * ten_to((4 - price.1) as nat)
}

/// The exact costs of the priced input categories, in the order of `input_cost_terms`.
pub open spec fn exact_input_costs(totals: TokenTotals, schedule: PriceSchedule) -> Seq<int> {
    match derived_non_cached_input(totals) {
        Some(non_cached) => {
            let cache_write = match totals.cache_write_tokens {
                Some(count) => count as int,
                None => 0,
            };
            if cache_write <= non_cached {
                seq![
                    exact_token_cost(non_cached - cache_write, schedule.input_tokens_per_million@),
                    exact_token_cost(cache_write, schedule.cache_write_tokens_per_million@),
                ]
            } else {
                seq![]
            }
        },
        None => match totals.cache_write_tokens {
            Some(cache_write) => seq![exact_token_cost(cache_write as int, schedule.cache_write_tokens_per_million@)],
            None => seq![],
        },
    }
}

/// The exact cost of the Cache Read Tokens, when recorded.
pub open spec fn exact_cache_read_costs(totals: TokenTotals, schedule: PriceSchedule) -> Seq<int> {
    match totals.cache_read_tokens {
        Some(cache_read) => seq![exact_token_cost(cache_read as int, schedule.cache_read_tokens_per_million@)],
        None => seq![],
    }
}

/// The exact costs of the priced output categories, in the order of `output_cost_terms`.
pub open spec fn exact_output_costs(totals: TokenTotals, schedule: PriceSchedule) -> Seq<int> {
    match totals.output_tokens {
        Some(output) => match (totals.reasoning_output_tokens, schedule.reasoning_output_tokens_per_million) {
            (Some(reasoning), Some(reasoning_price)) => if reasoning <= output {
                seq![
                    exact_token_cost(output - reasoning, schedule.output_tokens_per_million@),
                    exact_token_cost(reasoning as int, reasoning_price@),
                ]
            } else {
                seq![exact_token_cost(output as int, schedule.output_tokens_per_million@)]
            },
            _ => seq![exact_token_cost(output as int, schedule.output_tokens_per_million@)],
        },
        None => match totals.reasoning_output_tokens {
            Some(reasoning) => seq![
                exact_token_cost(
                    reasoning as int,
                    match schedule.reasoning_output_tokens_per_million {
                        Some(price) => price@,
                        None => schedule.output_tokens_per_million@,
                    },
                ),
            ],
            None => seq![],
        },
    }
}

/// The exact cost of every priced category, in pricing order, as mantissas at scale ten.
pub open spec fn exact_cost_mantissas(totals: TokenTotals, schedule: PriceSchedule) -> Seq<int> {
    exact_input_costs(totals, schedule) + exact_cache_read_costs(totals, schedule) + exact_output_costs(totals, schedule)
}

/// Whether every price of a schedule has at most four fraction digits.
pub open spec fn schedule_scales_within_four(schedule: PriceSchedule) -> bool {
    &&& schedule.input_tokens_per_million@.1 <= 4
    &&& schedule.cache_read_tokens_per_million@.1 <= 4
    &&& schedule.cache_write_tokens_per_million@.1 <= 4
    &&& schedule.output_tokens_per_million@.1 <= 4
    &&& match schedule.reasoning_output_tokens_per_million {
        Some(price) => price@.1 <= 4,
        None => true,
    }
}

/// Precision is kept: where the prices have at most four fraction digits and the exact total
/// fits in a `Decimal`, the session's `Decimal` cost is exactly the sum, over its priced
/// categories, of tokens times price per million divided by a million.
pub open spec fn cost_is_exact(totals: TokenTotals, schedule: PriceSchedule) -> bool {
    schedule_scales_within_four(schedule) && sum_of(exact_cost_mantissas(totals, schedule)) <= MAX_MANTISSA as int
        ==> decimal_fold(priced_cost_terms(totals, schedule)).1 <= 10 && mantissa_at(
        decimal_fold(priced_cost_terms(totals, schedule)),
        10,
    ) == sum_of(exact_cost_mantissas(totals, schedule))
}

/// Whether each amount, at scale ten, is the matching exact cost, none of them negative.
pub open spec fn exact_pointwise(values: Seq<(int, nat)>, exacts: Seq<int>) -> bool {
    &&& values.len() == exacts.len()
    &&& forall|index: int|
        0 <= index < values.len() ==> (#[trigger] values[index]).1 <= 10 && mantissa_at(values[index], 10)
            == exacts[index] && exacts[index] >= 0
}

/// Prices some tokens and adds the cost to the priced terms.
fn push_token_cost(terms: &mut Vec<UsdAmount>, exacts: Ghost<Seq<int>>, count: u64, price: UsdAmount) -> (next: Ghost<
    Seq<int>,
>)
    requires
        price_bounded(price),
    ensures
        final(terms)@ == old(terms)@.push(final(terms)@.last()),
        final(terms)@.last()@ == token_cost(count as nat, price@),
        whole_units(final(terms)@.last()@) <= TOKEN_COST_WHOLE_UNITS_BOUND as int,
        amount_values(final(terms)@) == amount_values(old(terms)@).push(token_cost(count as nat, price@)),
        next@ == exacts@.push(exact_token_cost(count as int, price@)),
        price@.1 <= 4 && exact_pointwise(amount_values(old(terms)@), exacts@) ==> exact_pointwise(
            amount_values(final(terms)@),
            next@,
        ),
{
    proof {
        lemma_bounded_price_fits(count, price);
    }
    let cost = cost_for_tokens(count, price);
    let ghost before = terms@;
    terms.push(cost);
    proof {
        assert(amount_values(terms@) =~= amount_values(before).push(cost@));
        if price@.1 <= 4 {
            lemma_mantissa_rescaled(cost@, price@.1 + 6, 10);
            let scaled = count as int * price@.0;
            assert(mantissa_at(cost@, 10) == scaled * ten_to((4 - price@.1) as nat));
            lemma_ten_to_positive((4 - price@.1) as nat);
            assert(scaled >= 0) by (nonlinear_arith)
                requires scaled == count as int * price@.0, count >= 0, price@.0 >= 0;
            assert(scaled * ten_to((4 - price@.1) as nat) >= 0) by (nonlinear_arith)
                requires scaled >= 0, ten_to((4 - price@.1) as nat) >= 1;
            assert(exact_token_cost(count as int, price@) == scaled * ten_to((4 - price@.1) as nat));
        }
    }
    Ghost(exacts@.push(exact_token_cost(count as int, price@)))
}

/// Sums of non-negative integers are non-negative.
proof fn lemma_sum_nonnegative_values(values: Seq<int>)
    requires
        forall|index: int| 0 <= index < values.len() ==> values[index] >= 0,
    ensures
        sum_of(values) >= 0,
    decreases values.len(),
{
    if values.len() > 0 {
        lemma_sum_nonnegative_values(values.drop_last());
    }
}

/// Exact costs at scale ten add up exactly, and can be added one by one without leaving a
/// `Decimal` mantissa, when their total fits.
proof fn lemma_exact_fold(values: Seq<(int, nat)>, exacts: Seq<int>)
    requires
        exact_pointwise(values, exacts),
        sum_of(exacts) <= MAX_MANTISSA as int,
    ensures
        exact_fold_fits(values, 10),
        mantissa_sum(values, 10) == sum_of(exacts),
    decreases values.len(),
{
    if values.len() > 0 {
        let shorter = values.drop_last();
        let fewer = exacts.drop_last();
        assert forall|index: int| 0 <= index < exacts.len() implies exacts[index] >= 0 by {
            assert(values[index].1 <= 10);
        }
        lemma_sum_nonnegative_values(fewer);
        lemma_sum_nonnegative_values(exacts);
        assert(sum_of(exacts) == sum_of(fewer) + exacts.last());
        assert(exact_pointwise(shorter, fewer)) by {
            assert forall|index: int| 0 <= index < shorter.len() implies (#[trigger] shorter[index]).1 <= 10 && mantissa_at(
                shorter[index],
                10,
            ) == fewer[index] && fewer[index] >= 0 by {
                assert(shorter[index] == values[index]);
            }
        }
        lemma_exact_fold(shorter, fewer);
        assert(values.last() == values[values.len() - 1]);
        assert forall|count: int| 1 <= count <= values.len() implies {
            &&& (#[trigger] values[count - 1]).1 <= 10
            &&& magnitude(mantissa_at(values[count - 1], 10)) <= MAX_MANTISSA as int
            &&& magnitude(mantissa_sum(values.take(count), 10)) <= MAX_MANTISSA as int
        } by {
            if count < values.len() {
                assert(values.take(count) =~= shorter.take(count));
                assert(values[count - 1] == shorter[count - 1]);
            } else {
                assert(values.take(count) =~= values);
            }
        }
    }
}

/// Prices a session under one schedule.
#[verifier::rlimit(60)]
fn price_under_schedule(totals: &TokenTotals, schedule: &PriceSchedule) -> (result: CostState)
    requires
        schedule_prices_bounded(*schedule),
    ensures
        result@ == cost_model_from(
            decimal_fold(priced_cost_terms(*totals, *schedule)),
            missing_category_reasons(*totals, *schedule),
        ),
        cost_is_exact(*totals, *schedule),
{
    let mut terms: Vec<UsdAmount> = Vec::new();
    let mut reasons: Vec<IncompleteCostReason> = Vec::new();
    let mut exacts: Ghost<Seq<int>> = Ghost(Seq::empty());
    proof {
        assert(exact_pointwise(amount_values(terms@), exacts@));
    }

    let non_cached_input_tokens = match (totals.non_cached_input_tokens, totals.input_tokens, totals.cache_read_tokens) {
        (Some(non_cached), _, _) => Some(non_cached),
        (None, Some(input), None) => Some(input),
        (None, Some(input), Some(cache_read)) => if input >= cache_read {
            Some(input - cache_read)
        } else {
            None
        },
        _ => None,
    };
    assert(match non_cached_input_tokens {
        Some(value) => derived_non_cached_input(*totals) == Some(value as int),
        None => derived_non_cached_input(*totals) is None,
    });

    match non_cached_input_tokens {
        Some(non_cached) => {
            let cache_write = match totals.cache_write_tokens {
                Some(count) => count,
                None => 0,
            };
            if cache_write <= non_cached {
                exacts = push_token_cost(&mut terms, exacts, non_cached - cache_write, schedule.input_tokens_per_million);
                exacts = push_token_cost(&mut terms, exacts, cache_write, schedule.cache_write_tokens_per_million);
            } else {
                reasons.push(missing_category("Non-Cached Input Tokens"));
            }
        },
        None => {
            match totals.cache_write_tokens {
                Some(cache_write) => {
                    exacts = push_token_cost(&mut terms, exacts, cache_write, schedule.cache_write_tokens_per_million);
                },
                None => {},
            }
            reasons.push(missing_category("Non-Cached Input Tokens"));
        },
    }
    let ghost input_terms = amount_values(terms@);
    assert(input_terms =~= input_cost_terms(*totals, *schedule));
    let ghost input_exacts = exacts@;
    assert(input_exacts =~= exact_input_costs(*totals, *schedule));
    let ghost input_reasons = reason_values(reasons@);

    match totals.cache_read_tokens {
        Some(cache_read) => {
            exacts = push_token_cost(&mut terms, exacts, cache_read, schedule.cache_read_tokens_per_million);
        },
        None => {},
    }
    let ghost through_cache_read = amount_values(terms@);
    assert(through_cache_read =~= input_terms + cache_read_cost_terms(*totals, *schedule));
    let ghost exacts_through_cache_read = exacts@;
    assert(exacts_through_cache_read =~= input_exacts + exact_cache_read_costs(*totals, *schedule));

    match totals.output_tokens {
        Some(output) => {
            match (totals.reasoning_output_tokens, schedule.reasoning_output_tokens_per_million) {
                (Some(reasoning), Some(reasoning_price)) => {
                    if reasoning <= output {
                        exacts = push_token_cost(&mut terms, exacts, output - reasoning, schedule.output_tokens_per_million);
                        exacts = push_token_cost(&mut terms, exacts, reasoning, reasoning_price);
                    } else {
                        exacts = push_token_cost(&mut terms, exacts, output, schedule.output_tokens_per_million);
                        reasons.push(missing_category("Output Tokens"));
                    }
                },
                _ => {
                    exacts = push_token_cost(&mut terms, exacts, output, schedule.output_tokens_per_million);
                },
            }
        },
        None => {
            match totals.reasoning_output_tokens {
                Some(reasoning) => {
                    let price = match schedule.reasoning_output_tokens_per_million {
                        Some(reasoning_price) => reasoning_price,
                        None => schedule.output_tokens_per_million,
                    };
                    exacts = push_token_cost(&mut terms, exacts, reasoning, price);
                },
                None => {},
            }
            reasons.push(missing_category("Output Tokens"));
        },
    }
    proof {
        assert(amount_values(terms@) =~= through_cache_read + output_cost_terms(*totals, *schedule));
        assert(amount_values(terms@) =~= priced_cost_terms(*totals, *schedule));
        assert(reason_values(reasons@) =~= missing_category_reasons(*totals, *schedule));
        lemma_term_budget(amount_values(terms@));
        assert(exacts@ =~= exacts_through_cache_read + exact_output_costs(*totals, *schedule));
        assert(exacts@ =~= exact_cost_mantissas(*totals, *schedule));
        if schedule_scales_within_four(*schedule) && sum_of(exacts@) <= MAX_MANTISSA as int {
            lemma_exact_fold(amount_values(terms@), exacts@);
        }
    }
    let cost = sum_amounts(&terms);
    if reasons.len() == 0 {
        CostState::Complete { united_states_dollar_cost: cost }
    } else if cost.is_positive() {
        CostState::Partial { known_united_states_dollar_cost: cost, reasons }
    } else {
        CostState::Incomplete { reasons }
    }
}

/// Calculates Historical Cost for a Codex Session.
pub fn price_session(codex_session: &CodexSession, price_catalog: &PriceCatalog) -> (result: CostState)
    ensures
        result@ == session_cost_model(*codex_session, price_catalog.schedules()),
        match effective_schedule(
            price_catalog.schedules(),
            codex_session.model@,
            codex_session.session_start_time@,
        ) {
            Some(schedule) => cost_is_exact(codex_session.token_totals, schedule),
            None => true,
        },
{
    match price_catalog.effective_price_schedule(codex_session.model.as_str(), codex_session.session_start_time) {
        None => {
            let mut reasons: Vec<IncompleteCostReason> = Vec::new();
            reasons.push(IncompleteCostReason::UnpricedUsage { model: codex_session.model.clone() });
            proof {
                assert(reason_values(reasons@) =~= seq![ReasonModel::UnpricedUsage(codex_session.model@)]);
            }
            CostState::Incomplete { reasons }
        },
        Some(price_schedule) => price_under_schedule(&codex_session.token_totals, price_schedule),
    }
}

/// The schedule match for a schedule.
fn schedule_match(price_schedule: &PriceSchedule) -> (result: PriceScheduleMatch)
    ensures
        match_of_schedule(result, *price_schedule),
{
    PriceScheduleMatch {
        model: price_schedule.model.clone(),
        effective_date: price_schedule.effective_date,
        input_tokens_per_million: price_schedule.input_tokens_per_million,
        cache_read_tokens_per_million: price_schedule.cache_read_tokens_per_million,
        cache_write_tokens_per_million: price_schedule.cache_write_tokens_per_million,
        output_tokens_per_million: price_schedule.output_tokens_per_million,
        reasoning_output_tokens_per_million: price_schedule.reasoning_output_tokens_per_million,
    }
}

/// Prices all sessions from the bundled Price Catalog.
pub fn price_sessions(codex_sessions: Vec<CodexSession>, price_catalog: &PriceCatalog) -> (result: Vec<PricedCodexSession>)
    ensures
        result.len() == codex_sessions.len(),
        forall|index: int| 0 <= index < result.len() ==> priced_as(
            #[trigger] result@[index],
            codex_sessions@[index],
            price_catalog.schedules(),
        ),
{
    let mut result: Vec<PricedCodexSession> = Vec::new();
    let mut index: usize = 0;
    while index < codex_sessions.len()
        invariant
            index <= codex_sessions.len(),
            result.len() == index,
            forall|earlier: int| 0 <= earlier < index ==> priced_as(
                #[trigger] result@[earlier],
                codex_sessions@[earlier],
                price_catalog.schedules(),
            ),
        decreases codex_sessions.len() - index,
    {
        let codex_session = &codex_sessions[index];
        let price_schedule_match = match price_catalog.effective_price_schedule(
            codex_session.model.as_str(),
            codex_session.session_start_time,
        ) {
            Some(price_schedule) => Some(schedule_match(price_schedule)),
            None => None,
        };
        let cost_state = price_session(codex_session, price_catalog);
        result.push(PricedCodexSession {
            codex_session: codex_session.duplicate(),
            cost_state,
            price_schedule_match,
        });
        index = index + 1;
    }
    result
}

/// The text `$` followed by the amount rounded to cents and written with two fraction digits.
pub open spec fn usd_text(cost: (int, nat)) -> Seq<char> {
    "$"@ + decimal_text_two_places(decimal_rounded(cost, 2))
}

/// Formats United States Dollar Cost for display only.
pub fn format_united_states_dollar_cost(cost: UsdAmount) -> (result: String)
    ensures
        result@ == usd_text(cost@),
{
    let rounded = decimal_round(cost, 2);
    let digits = decimal_to_text_two_places(rounded);
    joined("$", digits.as_str())
}

/// Extracts known cost from complete or partial cost states.
pub fn known_cost(cost_state: &CostState) -> (result: UsdAmount)
    ensures
        result@ == known_cost_of(cost_state@),
{
    match cost_state {
        CostState::Complete { united_states_dollar_cost } => *united_states_dollar_cost,
        CostState::Partial { known_united_states_dollar_cost, .. } => *known_united_states_dollar_cost,
        CostState::Incomplete { .. } => UsdAmount::zero(),
    }
}

/// Usage of a Model without an Effective Price Schedule is unpriced usage, never a
/// complete zero cost: its cost state is incomplete, with the Model as the reason.
pub proof fn law_unpriced_usage_is_not_zero_cost(session: CodexSession, schedules: Seq<PriceSchedule>)
    requires
        effective_schedule(schedules, session.model@, session.session_start_time@) is None,
    ensures
        session_cost_model(session, schedules) == CostModel::Incomplete(seq![ReasonModel::UnpricedUsage(session.model@)]),
        !(session_cost_model(session, schedules) is Complete),
{
}

/// A session whose cost has no incomplete reason is complete at its exact cost; one with
/// reasons is never complete.
pub proof fn law_complete_exactly_without_reasons(cost: (int, nat), reasons: Seq<ReasonModel>)
    ensures
        (cost_model_from(cost, reasons) is Complete) == (reasons.len() == 0),
        reasons.len() == 0 ==> cost_model_from(cost, reasons) == CostModel::Complete(cost),
{
}

/// The exact cost of a session whose categories are all recorded, under a schedule without a
/// separate reasoning price, is the sum over categories of tokens times price per million:
/// non-cached input less cache writes at the input price, cache writes at the cache write
/// price, cache reads at the cache read price and output at the output price (at scale ten,
/// with prices of at most four fraction digits); nothing is missing.
pub proof fn law_session_cost_formula(totals: TokenTotals, schedule: PriceSchedule)
    requires
        totals.cache_write_tokens is Some,
        totals.cache_read_tokens is Some,
        totals.output_tokens is Some,
        schedule.reasoning_output_tokens_per_million is None,
        schedule_scales_within_four(schedule),
        totals.non_cached_input_tokens is Some || (totals.input_tokens is Some && totals.input_tokens.unwrap()
            >= totals.cache_read_tokens.unwrap()),
    ensures
        ({
            let non_cached: int = match totals.non_cached_input_tokens {
                Some(count) => count as int,
                None => totals.input_tokens.unwrap() - totals.cache_read_tokens.unwrap(),
            };
            let cache_write = totals.cache_write_tokens.unwrap() as int;
            cache_write <= non_cached ==> {
                &&& sum_of(exact_cost_mantissas(totals, schedule)) == (non_cached - cache_write) * mantissa_at(
                    schedule.input_tokens_per_million@,
                    4,
                ) + cache_write * mantissa_at(schedule.cache_write_tokens_per_million@, 4)
                    + totals.cache_read_tokens.unwrap() * mantissa_at(schedule.cache_read_tokens_per_million@, 4)
                    + totals.output_tokens.unwrap() * mantissa_at(schedule.output_tokens_per_million@, 4)
                &&& missing_category_reasons(totals, schedule).len() == 0
            }
        }),
{
    let non_cached: int = match totals.non_cached_input_tokens {
        Some(count) => count as int,
        None => totals.input_tokens.unwrap() - totals.cache_read_tokens.unwrap(),
    };
    let cache_write = totals.cache_write_tokens.unwrap() as int;
    if cache_write <= non_cached {
        let costs = exact_cost_mantissas(totals, schedule);
        let first = exact_token_cost(non_cached - cache_write, schedule.input_tokens_per_million@);
        let second = exact_token_cost(cache_write, schedule.cache_write_tokens_per_million@);
        let third = exact_token_cost(totals.cache_read_tokens.unwrap() as int, schedule.cache_read_tokens_per_million@);
        let fourth = exact_token_cost(totals.output_tokens.unwrap() as int, schedule.output_tokens_per_million@);
        assert(costs =~= seq![first, second, third, fourth]);
        assert(sum_of(seq![first, second, third, fourth]) == first + second + third + fourth) by {
            let all = seq![first, second, third, fourth];
            assert(seq![first].drop_last() =~= Seq::<int>::empty());
            assert(sum_of(Seq::<int>::empty()) == 0);
            assert(seq![first].last() == first);
            assert(sum_of(seq![first]) == sum_of(seq![first].drop_last()) + seq![first].last());
            assert(sum_of(seq![first]) == first);
            assert(seq![first, second].drop_last() =~= seq![first]);
            assert(seq![first, second].last() == second);
            assert(sum_of(seq![first, second]) == first + second);
            assert(seq![first, second, third].drop_last() =~= seq![first, second]);
            assert(seq![first, second, third].last() == third);
            assert(sum_of(seq![first, second, third]) == first + second + third);
            assert(all.drop_last() =~= seq![first, second, third]);
            assert(all.last() == fourth);
        }
        assert(first == (non_cached - cache_write) * mantissa_at(schedule.input_tokens_per_million@, 4)) by (nonlinear_arith)
            requires
                first == (non_cached - cache_write) * schedule.input_tokens_per_million@.0 * ten_to(
                    (4 - schedule.input_tokens_per_million@.1) as nat,
                ),
                mantissa_at(schedule.input_tokens_per_million@, 4) == schedule.input_tokens_per_million@.0 * ten_to(
                    (4 - schedule.input_tokens_per_million@.1) as nat,
                ),
        ;
        assert(second == cache_write * mantissa_at(schedule.cache_write_tokens_per_million@, 4)) by (nonlinear_arith)
            requires
                second == cache_write * schedule.cache_write_tokens_per_million@.0 * ten_to(
                    (4 - schedule.cache_write_tokens_per_million@.1) as nat,
                ),
                mantissa_at(schedule.cache_write_tokens_per_million@, 4) == schedule.cache_write_tokens_per_million@.0
                    * ten_to((4 - schedule.cache_write_tokens_per_million@.1) as nat),
        ;
        let read = totals.cache_read_tokens.unwrap() as int;
        assert(third == read * mantissa_at(schedule.cache_read_tokens_per_million@, 4)) by (nonlinear_arith)
            requires
                third == read * schedule.cache_read_tokens_per_million@.0 * ten_to(
                    (4 - schedule.cache_read_tokens_per_million@.1) as nat,
                ),
                mantissa_at(schedule.cache_read_tokens_per_million@, 4) == schedule.cache_read_tokens_per_million@.0
                    * ten_to((4 - schedule.cache_read_tokens_per_million@.1) as nat),
        ;
        let output = totals.output_tokens.unwrap() as int;
        assert(fourth == output * mantissa_at(schedule.output_tokens_per_million@, 4)) by (nonlinear_arith)
            requires
                fourth == output * schedule.output_tokens_per_million@.0 * ten_to(
                    (4 - schedule.output_tokens_per_million@.1) as nat,
                ),
                mantissa_at(schedule.output_tokens_per_million@, 4) == schedule.output_tokens_per_million@.0 * ten_to(
                    (4 - schedule.output_tokens_per_million@.1) as nat,
                ),
        ;
        assert(missing_category_reasons(totals, schedule) =~= Seq::<ReasonModel>::empty());
    }
}

} // verus!
