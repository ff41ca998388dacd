//! Derived Summary aggregation into Reporting Periods.

use crate::arrangement::{
    instant_values, is_newest_first_order, lemma_sum_rearranged, newest_first_order, sum_of,
};
use crate::cost::{
    duplicate_reasons, known_cost, known_cost_of, same_priced_session, CostModel, CostState,
    IncompleteCostReason, PricedCodexSession, ReasonModel, reason_values,
};
use crate::money::{
    amount_values, decimal_fold, exact_when_fits, lemma_whole_budget_prefix, lemma_whole_units_nonnegative, sum_amounts, whole_budget,
    whole_units, UsdAmount, SAFE_WHOLE_UNITS,
};
use crate::session::{
    detail_time_of, no_token_totals, DataQualityNotice, TokenTotals,
};
use crate::time::{
    chrono_date_plus_days, current_local_date, date_on_or_before, date_plus_days,
    chrono_first_day, chrono_last_day, chrono_utc_date, day_number, day_number_in_range, days_from_epoch,
    inside_chrono_days, lemma_date_plus_days_moves_day_number, lemma_days_within_month, local_date_of, valid_civil_date, weekday_from_monday, within_a_day, weekday_from_monday_of, CivilDate,
    UtcInstant, MAX_YEAR, MIN_YEAR,
};
use crate::usage_source::{source_state_readable, CurrentSourceState};
use vstd::prelude::*;

verus! {

/// Cost-first usage view over all Headline Periods.
#[derive(Clone, Debug, PartialEq, Eq)]
pub struct DerivedSummary {
    /// Current Source State used for this run.
    pub current_source_state: CurrentSourceState,
    /// Daily, Weekly, Monthly, and All-Time Headline Periods.
    pub headline_periods: Vec<HeadlinePeriod>,
    /// Month-first All-Time Detail.
    pub all_time_detail: Vec<MonthlySessionGroup>,
    /// Data Quality Detail.
    pub data_quality_notices: Vec<DataQualityNotice>,
}

/// A Headline Period with newest-first Session Detail.
#[derive(Clone, Debug, PartialEq, Eq)]
pub struct HeadlinePeriod {
    /// Reporting Period kind.
    pub kind: ReportingPeriodKind,
    /// Local start date when finite.
    pub local_start_date: Option<CivilDate>,
    /// Local end date when finite.
    pub local_end_date: Option<CivilDate>,
    /// Aggregated totals and cost state.
    pub summary_totals: SummaryTotals,
    /// Known United States Dollar Cost for the previous matching Reporting Period.
    pub previous_period_known_united_states_dollar_cost: Option<UsdAmount>,
    /// Newest-first Session Detail.
    pub session_detail: Vec<PricedCodexSession>,
}

/// Reporting Period kind.
#[derive(Clone, Copy, Debug, PartialEq, Eq, Structural)]
pub enum ReportingPeriodKind {
    /// Current local day.
    Daily,
    /// Current Monday-start week.
    Weekly,
    /// Current calendar month.
    Monthly,
    /// All known usage.
    AllTime,
}

/// Aggregated token and cost totals.
#[derive(Clone, Debug, PartialEq, Eq)]
pub struct SummaryTotals {
    /// Known United States Dollar Cost.
    pub known_united_states_dollar_cost: UsdAmount,
    /// Period cost state.
    pub period_cost_state: PeriodCostState,
    /// Aggregated token totals.
    pub token_totals: TokenTotals,
    /// Session count.
    pub session_count: usize,
}

/// Aggregate cost state for a period.
#[derive(Clone, Debug, PartialEq, Eq)]
pub enum PeriodCostState {
    /// No readable usage source exists.
    MissingUsageSource,
    /// Readable source exists with no sessions in period.
    ZeroUsage,
    /// All sessions are fully priced.
    Complete,
    /// Some known cost and some incomplete usage.
    Partial { reasons: Vec<IncompleteCostReason> },
    /// Usage exists but no cost is known.
    Incomplete { reasons: Vec<IncompleteCostReason> },
}

/// A period cost state as plain values.
pub enum PeriodCostModel {
    /// No readable usage source exists.
    MissingUsageSource,
    /// Readable source exists with no sessions in period.
    ZeroUsage,
    /// All sessions are fully priced.
    Complete,
    /// Some known cost and some incomplete usage.
    Partial(Seq<ReasonModel>),
    /// Usage exists but no cost is known.
    Incomplete(Seq<ReasonModel>),
}

impl View for PeriodCostState {
    type V = PeriodCostModel;

    open spec fn view(&self) -> PeriodCostModel {
        match self {
            PeriodCostState::MissingUsageSource => PeriodCostModel::MissingUsageSource,
            PeriodCostState::ZeroUsage => PeriodCostModel::ZeroUsage,
            PeriodCostState::Complete => PeriodCostModel::Complete,
            PeriodCostState::Partial { reasons } => PeriodCostModel::Partial(reason_values(reasons@)),
            PeriodCostState::Incomplete { reasons } => PeriodCostModel::Incomplete(reason_values(reasons@)),
        }
    }
}

/// All-Time sessions grouped by local calendar month, newest month first.
#[derive(Clone, Debug, PartialEq, Eq)]
pub struct MonthlySessionGroup {
    /// First day of the local calendar month.
    pub local_month_start_date: CivilDate,
    /// Newest-first Session Detail for the month.
    pub session_detail: Vec<PricedCodexSession>,
}

/// A calendar date as plain values (year, month, day).
pub type DateValue = (int, int, int);

/// The date `days` days after `date` (before it for negative `days`), by `chrono`.
pub open spec fn shifted(date: DateValue, days: int) -> DateValue {
    match chrono_date_plus_days(date, days) {
        Some(value) => value,
        None => date,
    }
}

/// The Monday that starts the week of a date.
pub open spec fn week_start_of(today: DateValue) -> DateValue {
    shifted(today, -weekday_from_monday_of(today))
}

/// The first day of a date's month.
pub open spec fn month_start_of(date: DateValue) -> DateValue {
    (date.0, date.1, 1)
}

/// A Reporting Period's local start and end dates and its previous matching period's start
/// and end dates, for the current local date.
pub open spec fn period_window(kind: ReportingPeriodKind, today: DateValue) -> (
    Option<DateValue>,
    Option<DateValue>,
    Option<DateValue>,
    Option<DateValue>,
) {
    match kind {
        ReportingPeriodKind::Daily => (
            Some(today),
            Some(today),
            Some(shifted(today, -1)),
            Some(shifted(today, -1)),
        ),
        ReportingPeriodKind::Weekly => (
            Some(week_start_of(today)),
            Some(shifted(week_start_of(today), 6)),
            Some(shifted(week_start_of(today), -7)),
            Some(shifted(week_start_of(today), -1)),
        ),
        ReportingPeriodKind::Monthly => (
            Some(month_start_of(today)),
            None,
            Some(month_start_of(shifted(month_start_of(today), -1))),
            Some(shifted(month_start_of(today), -1)),
        ),
        ReportingPeriodKind::AllTime => (None, None, None, None),
    }
}

/// Whether a local date falls in a period: between start and end when both are given; on or
/// after the start within the start's calendar month when only the start is given; always
/// otherwise.
pub open spec fn date_in_window(date: DateValue, start: Option<DateValue>, end: Option<DateValue>) -> bool {
    match (start, end) {
        (Some(first), Some(last)) => date_on_or_before(first, date) && date_on_or_before(date, last),
        (Some(first), None) => date_on_or_before(first, date) && date.1 == first.1 && date.0 == first.0,
        _ => true,
    }
}

/// The plain values of a sequence of dates.
pub open spec fn date_values(dates: Seq<CivilDate>) -> Seq<DateValue> {
    dates.map_values(|date: CivilDate| date@)
}

/// The sessions among the first `count` whose local date satisfies `keep`, in original order.
pub open spec fn members_where(
    sessions: Seq<PricedCodexSession>,
    dates: Seq<DateValue>,
    keep: spec_fn(DateValue) -> bool,
    count: nat,
) -> Seq<PricedCodexSession>
    decreases count,
{
    if count == 0 {
        seq![]
    } else {
        let rest = members_where(sessions, dates, keep, (count - 1) as nat);
        if keep(dates[count - 1]) {
            rest.push(sessions[count - 1])
        } else {
            rest
        }
    }
}

/// The detail time of each session, as plain values.
pub open spec fn detail_keys(sessions: Seq<PricedCodexSession>) -> Seq<(int, int)> {
    sessions.map_values(|session: PricedCodexSession| detail_time_of(session.codex_session)@)
}

/// Whether `arranged` holds the sessions of `source`, newest detail time first, keeping the
/// original order among equal detail times.
pub open spec fn arranged_newest_first(
    source: Seq<PricedCodexSession>,
    arranged: Seq<PricedCodexSession>,
) -> bool {
    exists|order: Seq<int>|
        #![trigger is_newest_first_order(detail_keys(source), order)]
        is_newest_first_order(detail_keys(source), order) && arranged.len() == source.len() && forall|position: int|
            0 <= position < arranged.len() ==> same_priced_session(
                #[trigger] arranged[position],
                source[order[position]],
            )
}

/// The known cost of each session.
pub open spec fn known_cost_values(sessions: Seq<PricedCodexSession>) -> Seq<(int, nat)> {
    sessions.map_values(|session: PricedCodexSession| known_cost_of(session.cost_state@))
}

/// The incomplete reasons of a cost state.
pub open spec fn incomplete_reasons_of(state: CostModel) -> Seq<ReasonModel> {
    match state {
        CostModel::Complete(_) => seq![],
        CostModel::Partial(_, reasons) => reasons,
        CostModel::Incomplete(reasons) => reasons,
    }
}

/// The incomplete reasons of the sessions, in session order.
pub open spec fn reasons_of_sessions(sessions: Seq<PricedCodexSession>) -> Seq<ReasonModel>
    decreases sessions.len(),
{
    if sessions.len() == 0 {
        seq![]
    } else {
        reasons_of_sessions(sessions.drop_last()) + incomplete_reasons_of(sessions.last().cost_state@)
    }
}

/// Adds an optional count to an optional total: an unknown count leaves the total, a known
/// count adds to the total (an unknown total counting as zero).
pub open spec fn add_optional_count(total: Option<u64>, count: Option<u64>) -> Option<u64> {
    match count {
        Some(value) => Some(
            ((match total {
                Some(known) => known as int,
                None => 0,
            }) + value) as u64,
        ),
        None => total,
    }
}

/// Adds one session's token totals to a running total, category by category.
pub open spec fn add_token_totals_spec(total: TokenTotals, current: TokenTotals) -> TokenTotals {
    TokenTotals {
        input_tokens: add_optional_count(total.input_tokens, current.input_tokens),
        non_cached_input_tokens: add_optional_count(total.non_cached_input_tokens, current.non_cached_input_tokens),
        cache_read_tokens: add_optional_count(total.cache_read_tokens, current.cache_read_tokens),
        cache_write_tokens: add_optional_count(total.cache_write_tokens, current.cache_write_tokens),
        output_tokens: add_optional_count(total.output_tokens, current.output_tokens),
        reasoning_output_tokens: add_optional_count(total.reasoning_output_tokens, current.reasoning_output_tokens),
        total_tokens: add_optional_count(total.total_tokens, current.total_tokens),
    }
}

/// The token totals of sessions added one after another.
pub open spec fn token_sum(sessions: Seq<PricedCodexSession>) -> TokenTotals
    decreases sessions.len(),
{
    if sessions.len() == 0 {
        no_token_totals()
    } else {
        add_token_totals_spec(token_sum(sessions.drop_last()), sessions.last().codex_session.token_totals)
    }
}

/// One token category of token totals, by number in declaration order.
pub open spec fn token_category(totals: TokenTotals, category: int) -> Option<u64> {
    if category == 0 {
        totals.input_tokens
    } else if category == 1 {
        totals.non_cached_input_tokens
    } else if category == 2 {
        totals.cache_read_tokens
    } else if category == 3 {
        totals.cache_write_tokens
    } else if category == 4 {
        totals.output_tokens
    } else if category == 5 {
        totals.reasoning_output_tokens
    } else {
        totals.total_tokens
    }
}

/// One category's recorded counts of the sessions, unknown counts as zero.
pub open spec fn category_counts(sessions: Seq<PricedCodexSession>, category: int) -> Seq<int> {
    sessions.map_values(
        |session: PricedCodexSession|
            match token_category(session.codex_session.token_totals, category) {
                Some(count) => count as int,
                None => 0int,
            },
    )
}

/// Whether every token category summed over the sessions fits in a `u64`.
pub open spec fn token_totals_fit(sessions: Seq<PricedCodexSession>) -> bool {
    forall|category: int| 0 <= category < 7 ==> sum_of(#[trigger] category_counts(sessions, category)) <= u64::MAX
}

/// The period cost state: missing without a readable source, zero usage without sessions,
/// complete without incomplete reasons, partial when some cost is known, else incomplete.
pub open spec fn period_cost_model(
    readable: bool,
    session_count: nat,
    reasons: Seq<ReasonModel>,
    known: (int, nat),
) -> PeriodCostModel {
    if !readable {
        PeriodCostModel::MissingUsageSource
    } else if session_count == 0 {
        PeriodCostModel::ZeroUsage
    } else if reasons.len() == 0 {
        PeriodCostModel::Complete
    } else if known.0 > 0 {
        PeriodCostModel::Partial(reasons)
    } else {
        PeriodCostModel::Incomplete(reasons)
    }
}

/// Whether summary totals aggregate a Session Detail.
pub open spec fn totals_of_detail(totals: SummaryTotals, readable: bool, detail: Seq<PricedCodexSession>) -> bool {
    &&& totals.session_count == detail.len()
    &&& totals.token_totals == token_sum(detail)
    &&& totals.known_united_states_dollar_cost@ == decimal_fold(known_cost_values(detail))
    &&& exact_when_fits(totals.known_united_states_dollar_cost@, known_cost_values(detail))
    &&& totals.period_cost_state@ == period_cost_model(
        readable,
        detail.len(),
        reasons_of_sessions(detail),
        decimal_fold(known_cost_values(detail)),
    )
}

/// The view of an optional date.
pub open spec fn optional_date(date: Option<CivilDate>) -> Option<DateValue> {
    match date {
        Some(value) => Some(value@),
        None => None,
    }
}

/// Whether a Headline Period of a kind is built from the sessions and their local dates.
pub open spec fn headline_period_of(
    period: HeadlinePeriod,
    kind: ReportingPeriodKind,
    today: DateValue,
    readable: bool,
    sessions: Seq<PricedCodexSession>,
    dates: Seq<DateValue>,
) -> bool {
    let window = period_window(kind, today);
    let members = members_where(sessions, dates, |date: DateValue| date_in_window(date, window.0, window.1), sessions.len());
    let previous = members_where(sessions, dates, |date: DateValue| date_in_window(date, window.2, window.3), sessions.len());
    &&& period.kind == kind
    &&& optional_date(period.local_start_date) == window.0
    &&& optional_date(period.local_end_date) == window.1
    &&& arranged_newest_first(members, period.session_detail@)
    &&& totals_of_detail(period.summary_totals, readable, period.session_detail@)
    &&& if readable && window.2 is Some {
        period.previous_period_known_united_states_dollar_cost matches Some(cost) && cost@ == decimal_fold(
            known_cost_values(previous),
        ) && exact_when_fits(cost@, known_cost_values(previous))
    } else {
        period.previous_period_known_united_states_dollar_cost is None
    }
}

/// Whether monthly groups hold the sessions by the first day of their local month: one group
/// per month that has a session, newest month first, each newest first.
pub open spec fn all_time_groups_of(
    groups: Seq<MonthlySessionGroup>,
    sessions: Seq<PricedCodexSession>,
    dates: Seq<DateValue>,
) -> bool {
    &&& forall|first: int, second: int|
        0 <= first < second < groups.len() ==> !date_on_or_before(
            (#[trigger] groups[first]).local_month_start_date@,
            (#[trigger] groups[second]).local_month_start_date@,
        )
    &&& forall|group: int|
        0 <= group < groups.len() ==> month_has_member((#[trigger] groups[group]).local_month_start_date@, dates, sessions.len() as int)
    &&& forall|index: int|
        0 <= index < sessions.len() ==> month_has_group(groups, month_start_of(#[trigger] dates[index]))
    &&& forall|group: int|
        0 <= group < groups.len() ==> arranged_newest_first(
            members_where(
                sessions,
                dates,
                |date: DateValue| month_start_of(date) == (#[trigger] groups[group]).local_month_start_date@,
                sessions.len(),
            ),
            groups[group].session_detail@,
        )
}

/// Whether one of the first `count` dates falls in the month that starts on `month`.
pub open spec fn month_has_member(month: DateValue, dates: Seq<DateValue>, count: int) -> bool {
    exists|member: int| 0 <= member < count && month_start_of(#[trigger] dates[member]) == month
}

/// Whether one of the groups is that of the month that starts on `month`.
pub open spec fn month_has_group(groups: Seq<MonthlySessionGroup>, month: DateValue) -> bool {
    exists|group: int| 0 <= group < groups.len() && (#[trigger] groups[group]).local_month_start_date@ == month
}

/// Whether a Derived Summary is built from the source state, sessions, notices, current local
/// date and the sessions' local dates.
pub open spec fn derived_summary_of(
    summary: DerivedSummary,
    state: CurrentSourceState,
    sessions: Seq<PricedCodexSession>,
    notices: Seq<DataQualityNotice>,
    today: DateValue,
    dates: Seq<DateValue>,
) -> bool {
    let readable = source_state_readable(state);
    &&& summary.current_source_state == state
    &&& summary.data_quality_notices@ == notices
    &&& summary.headline_periods.len() == 4
    &&& headline_period_of(summary.headline_periods[0], ReportingPeriodKind::Daily, today, readable, sessions, dates)
    &&& headline_period_of(summary.headline_periods[1], ReportingPeriodKind::Weekly, today, readable, sessions, dates)
    &&& headline_period_of(summary.headline_periods[2], ReportingPeriodKind::Monthly, today, readable, sessions, dates)
    &&& headline_period_of(summary.headline_periods[3], ReportingPeriodKind::AllTime, today, readable, sessions, dates)
    &&& all_time_groups_of(summary.all_time_detail@, sessions, dates)
}

/// Whether the current local date leaves room for the period arithmetic: the previous day,
/// the days from the previous week's Monday to this week's Sunday, and the day before this
/// month's first all lie within `chrono`'s range.
pub open spec fn date_in_arithmetic_range(today: DateValue) -> bool {
    let day = days_from_epoch(today);
    let weekday = weekday_from_monday_of(today);
    &&& day_number_in_range(day - 1)
    &&& day_number_in_range(day - weekday - 7)
    &&& day_number_in_range(day - weekday + 6)
    &&& day_number_in_range(days_from_epoch((today.0, today.1, 1)) - 1)
}

/// Whether the sessions' known costs and token counts can be summed without overflow.
pub open spec fn sessions_summable(sessions: Seq<PricedCodexSession>) -> bool {
    &&& whole_budget(known_cost_values(sessions)) <= SAFE_WHOLE_UNITS as int
    &&& token_totals_fit(sessions)
}


/// An integer view of an optional count, unknown as zero.
pub open spec fn count_or_zero(count: Option<u64>) -> int {
    match count {
        Some(value) => value as int,
        None => 0,
    }
}

/// Sums of non-negative integers are non-negative.
proof fn lemma_sum_nonnegative(values: Seq<int>)
    requires
        forall|index: int| 0 <= index < values.len() ==> values[index] >= 0,
    ensures
        sum_of(values) >= 0,
    decreases values.len(),
{
    if values.len() > 0 {
        lemma_sum_nonnegative(values.drop_last());
    }
}

/// A prefix of non-negative integers sums to at most the whole.
proof fn lemma_sum_prefix(values: Seq<int>, count: int)
    requires
        0 <= count <= values.len(),
        forall|index: int| 0 <= index < values.len() ==> values[index] >= 0,
    ensures
        sum_of(values.take(count)) <= sum_of(values),
{
    crate::arrangement::lemma_sum_split(values, count);
    lemma_sum_nonnegative(values.skip(count));
}

/// The whole-unit budget of known costs as a sum.
proof fn lemma_budget_as_sum(sessions: Seq<PricedCodexSession>)
    ensures
        whole_budget(known_cost_values(sessions)) == sum_of(
            sessions.map_values(|session: PricedCodexSession| whole_units(known_cost_of(session.cost_state@)) + 2),
        ),
    decreases sessions.len(),
{
    if sessions.len() > 0 {
        lemma_budget_as_sum(sessions.drop_last());
        assert(known_cost_values(sessions).drop_last() =~= known_cost_values(sessions.drop_last()));
        assert(sessions.map_values(|session: PricedCodexSession| whole_units(known_cost_of(session.cost_state@)) + 2).drop_last()
            =~= sessions.drop_last().map_values(|session: PricedCodexSession| whole_units(known_cost_of(session.cost_state@)) + 2));
    }
}

/// A measure of a session that depends only on its session, cost state and schedule match.
pub open spec fn respects_copies(measure: spec_fn(PricedCodexSession) -> int) -> bool {
    forall|left: PricedCodexSession, right: PricedCodexSession|
        #[trigger] same_priced_session(left, right) ==> measure(left) == measure(right)
}

/// The selected members sum a non-negative measure to at most the sum over all sessions.
proof fn lemma_members_sum(
    sessions: Seq<PricedCodexSession>,
    dates: Seq<DateValue>,
    keep: spec_fn(DateValue) -> bool,
    count: nat,
    measure: spec_fn(PricedCodexSession) -> int,
)
    requires
        count <= sessions.len(),
        forall|session: PricedCodexSession| #[trigger] measure(session) >= 0,
    ensures
        sum_of(members_where(sessions, dates, keep, count).map_values(measure)) <= sum_of(
            sessions.take(count as int).map_values(measure),
        ),
    decreases count,
{
    if count > 0 {
        lemma_members_sum(sessions, dates, keep, (count - 1) as nat, measure);
        let rest = members_where(sessions, dates, keep, (count - 1) as nat);
        assert(sessions.take(count as int).map_values(measure).drop_last() =~= sessions.take(count - 1).map_values(measure));
        if keep(dates[count - 1]) {
            assert(rest.push(sessions[count - 1]).map_values(measure).drop_last() =~= rest.map_values(measure));
        }
    }
}

/// A newest-first arrangement sums a copy-respecting measure to the same total.
proof fn lemma_arranged_sum(
    source: Seq<PricedCodexSession>,
    arranged: Seq<PricedCodexSession>,
    measure: spec_fn(PricedCodexSession) -> int,
)
    requires
        arranged_newest_first(source, arranged),
        respects_copies(measure),
    ensures
        sum_of(arranged.map_values(measure)) == sum_of(source.map_values(measure)),
{
    let order = choose|order: Seq<int>|
        #![trigger is_newest_first_order(detail_keys(source), order)]
        is_newest_first_order(detail_keys(source), order) && arranged.len() == source.len() && forall|position: int|
            0 <= position < arranged.len() ==> same_priced_session(
                #[trigger] arranged[position],
                source[order[position]],
            );
    assert forall|position: int| 0 <= position < order.len() implies arranged.map_values(measure)[position] == source.map_values(measure)[
        #[trigger] order[position]] by {
        assert(same_priced_session(arranged[position], source[order[position]]));
    }
    lemma_sum_rearranged(source.map_values(measure), arranged.map_values(measure), order);
}

/// The whole-unit measure of a session's known cost.
pub open spec fn cost_measure() -> spec_fn(PricedCodexSession) -> int {
    |session: PricedCodexSession| whole_units(known_cost_of(session.cost_state@)) + 2
}

/// The measure of one token category of a session.
pub open spec fn category_measure(category: int) -> spec_fn(PricedCodexSession) -> int {
    |session: PricedCodexSession| count_or_zero(token_category(session.codex_session.token_totals, category))
}

/// Summability carries from all sessions to the members of any selection.
proof fn lemma_members_summable(
    sessions: Seq<PricedCodexSession>,
    dates: Seq<DateValue>,
    keep: spec_fn(DateValue) -> bool,
)
    requires
        sessions_summable(sessions),
    ensures
        sessions_summable(members_where(sessions, dates, keep, sessions.len())),
{
    let members = members_where(sessions, dates, keep, sessions.len());
    assert(sessions.take(sessions.len() as int) =~= sessions);
    assert forall|session: PricedCodexSession| #[trigger] cost_measure()(session) >= 0 by {
        lemma_whole_units_nonnegative(known_cost_of(session.cost_state@));
    }
    lemma_members_sum(sessions, dates, keep, sessions.len(), cost_measure());
    lemma_budget_as_sum(sessions);
    lemma_budget_as_sum(members);
    assert(sessions.map_values(cost_measure()) =~= sessions.map_values(|session: PricedCodexSession| whole_units(known_cost_of(session.cost_state@)) + 2));
    assert(members.map_values(cost_measure()) =~= members.map_values(|session: PricedCodexSession| whole_units(known_cost_of(session.cost_state@)) + 2));
    assert forall|category: int| 0 <= category < 7 implies sum_of(#[trigger] category_counts(members, category)) <= u64::MAX by {
        assert forall|session: PricedCodexSession| #[trigger] category_measure(category)(session) >= 0 by {}
        lemma_members_sum(sessions, dates, keep, sessions.len(), category_measure(category));
        assert(sessions.map_values(category_measure(category)) =~= category_counts(sessions, category));
        assert(members.map_values(category_measure(category)) =~= category_counts(members, category));
    }
}

/// Summability carries to a newest-first arrangement.
proof fn lemma_arranged_summable(source: Seq<PricedCodexSession>, arranged: Seq<PricedCodexSession>)
    requires
        sessions_summable(source),
        arranged_newest_first(source, arranged),
    ensures
        sessions_summable(arranged),
        token_totals_fit(arranged),
{
    assert(respects_copies(cost_measure()));
    lemma_arranged_sum(source, arranged, cost_measure());
    lemma_budget_as_sum(source);
    lemma_budget_as_sum(arranged);
    assert(source.map_values(cost_measure()) =~= source.map_values(|session: PricedCodexSession| whole_units(known_cost_of(session.cost_state@)) + 2));
    assert(arranged.map_values(cost_measure()) =~= arranged.map_values(|session: PricedCodexSession| whole_units(known_cost_of(session.cost_state@)) + 2));
    assert forall|category: int| 0 <= category < 7 implies sum_of(#[trigger] category_counts(arranged, category)) <= u64::MAX by {
        assert(respects_copies(category_measure(category)));
        lemma_arranged_sum(source, arranged, category_measure(category));
        assert(source.map_values(category_measure(category)) =~= category_counts(source, category));
        assert(arranged.map_values(category_measure(category)) =~= category_counts(arranged, category));
    }
}


/// Which sessions a selection keeps, by local date.
pub enum SessionSelection {
    /// Sessions whose local date falls in a period window.
    Window { start: Option<CivilDate>, end: Option<CivilDate> },
    /// Sessions whose local date falls in the month starting on a date.
    Month { month_start: CivilDate },
}

/// The local-date test of a selection.
pub open spec fn selection_test(selection: SessionSelection) -> spec_fn(DateValue) -> bool {
    match selection {
        SessionSelection::Window { start, end } => |date: DateValue| date_in_window(
            date,
            optional_date(start),
            optional_date(end),
        ),
        SessionSelection::Month { month_start } => |date: DateValue| month_start_of(date) == month_start@,
    }
}

/// Whether two sequences of priced sessions hold the same sessions in the same order.
pub open spec fn same_priced_sessions(left: Seq<PricedCodexSession>, right: Seq<PricedCodexSession>) -> bool {
    &&& left.len() == right.len()
    &&& forall|index: int| 0 <= index < left.len() ==> same_priced_session(#[trigger] left[index], right[index])
}

fn selection_includes(selection: &SessionSelection, date: &CivilDate) -> (result: bool)
    ensures
        result == selection_test(*selection)(date@),
{
    match selection {
        SessionSelection::Window { start, end } => match (start, end) {
            (Some(first), Some(last)) => first.is_on_or_before(date) && date.is_on_or_before(last),
            (Some(first), None) => first.is_on_or_before(date) && date.month() == first.month()
                && date.year() == first.year(),
            _ => true,
        },
        SessionSelection::Month { month_start } => {
            let first = date.first_of_month();
            first.same_day(month_start)
        },
    }
}

/// Copies the sessions that a selection keeps, in original order.
fn select_members(
    sessions: &Vec<PricedCodexSession>,
    dates: &Vec<CivilDate>,
    selection: &SessionSelection,
) -> (result: Vec<PricedCodexSession>)
    requires
        dates.len() == sessions.len(),
    ensures
        same_priced_sessions(
            result@,
            members_where(sessions@, date_values(dates@), selection_test(*selection), sessions.len() as nat),
        ),
{
    let ghost keep = selection_test(*selection);
    let ghost values = date_values(dates@);
    let mut result: Vec<PricedCodexSession> = Vec::new();
    let mut index: usize = 0;
    while index < sessions.len()
        invariant
            index <= sessions.len(),
            dates.len() == sessions.len(),
            keep == selection_test(*selection),
            values == date_values(dates@),
            same_priced_sessions(result@, members_where(sessions@, values, keep, index as nat)),
        decreases sessions.len() - index,
    {
        if selection_includes(selection, &dates[index]) {
            result.push(sessions[index].duplicate());
        }
        index = index + 1;
    }
    result
}

/// Copies sessions newest detail time first, keeping the original order among equal times.
fn arrange_newest_first(source: &Vec<PricedCodexSession>) -> (result: Vec<PricedCodexSession>)
    ensures
        arranged_newest_first(source@, result@),
{
    let mut keys: Vec<UtcInstant> = Vec::new();
    let mut index: usize = 0;
    while index < source.len()
        invariant
            index <= source.len(),
            keys.len() == index,
            instant_values(keys@) =~= detail_keys(source@).take(index as int),
        decreases source.len() - index,
    {
        let ghost before = keys@;
        keys.push(source[index].codex_session.session_detail_time());
        proof {
            assert forall|position: int| 0 <= position < index + 1 implies instant_values(keys@)[position]
                == detail_keys(source@).take(index + 1)[position] by {
                if position < index {
                    assert(instant_values(before)[position] == detail_keys(source@).take(index as int)[position]);
                }
            }
        }
        index = index + 1;
    }
    proof {
        assert(detail_keys(source@).take(source.len() as int) =~= detail_keys(source@));
    }
    let order = newest_first_order(&keys);
    let ghost order_values = order@.map_values(|position: usize| position as int);
    let mut result: Vec<PricedCodexSession> = Vec::new();
    let mut position: usize = 0;
    while position < order.len()
        invariant
            position <= order.len(),
            order.len() == source.len(),
            order_values == order@.map_values(|value: usize| value as int),
            is_newest_first_order(detail_keys(source@), order_values),
            result.len() == position,
            forall|earlier: int| 0 <= earlier < position ==> same_priced_session(
                #[trigger] result@[earlier],
                source@[order_values[earlier]],
            ),
        decreases order.len() - position,
    {
        proof {
            assert(order_values[position as int] == order@[position as int] as int);
        }
        result.push(source[order[position]].duplicate());
        position = position + 1;
    }
    proof {
        assert(is_newest_first_order(detail_keys(source@), order_values));
    }
    result
}

/// Adds two optional counts.
fn add_optional(left: Option<u64>, right: Option<u64>) -> (result: Option<u64>)
    requires
        count_or_zero(left) + count_or_zero(right) <= u64::MAX,
    ensures
        result == add_optional_count(left, right),
{
    match right {
        Some(right) => Some(
            match left {
                Some(left) => left,
                None => 0,
            } + right,
        ),
        None => left,
    }
}

/// Adds one session's token totals to a running total.
fn add_token_totals(total: &mut TokenTotals, current: &TokenTotals)
    requires
        forall|category: int|
            0 <= category < 7 ==> count_or_zero(token_category(*old(total), category)) + count_or_zero(
                #[trigger] token_category(*current, category),
            ) <= u64::MAX,
    ensures
        *final(total) == add_token_totals_spec(*old(total), *current),
{
    assert(token_category(*current, 0) == current.input_tokens);
    assert(token_category(*current, 1) == current.non_cached_input_tokens);
    assert(token_category(*current, 2) == current.cache_read_tokens);
    assert(token_category(*current, 3) == current.cache_write_tokens);
    assert(token_category(*current, 4) == current.output_tokens);
    assert(token_category(*current, 5) == current.reasoning_output_tokens);
    assert(token_category(*current, 6) == current.total_tokens);
    total.input_tokens = add_optional(total.input_tokens, current.input_tokens);
    total.non_cached_input_tokens = add_optional(total.non_cached_input_tokens, current.non_cached_input_tokens);
    total.cache_read_tokens = add_optional(total.cache_read_tokens, current.cache_read_tokens);
    total.cache_write_tokens = add_optional(total.cache_write_tokens, current.cache_write_tokens);
    total.output_tokens = add_optional(total.output_tokens, current.output_tokens);
    total.reasoning_output_tokens = add_optional(total.reasoning_output_tokens, current.reasoning_output_tokens);
    total.total_tokens = add_optional(total.total_tokens, current.total_tokens);
}

/// A category of the running token sum is the sum of that category's counts.
proof fn lemma_token_sum_category(sessions: Seq<PricedCodexSession>, category: int)
    requires
        0 <= category < 7,
        sum_of(category_counts(sessions, category)) <= u64::MAX,
    ensures
        count_or_zero(token_category(token_sum(sessions), category)) == sum_of(category_counts(sessions, category)),
    decreases sessions.len(),
{
    if sessions.len() > 0 {
        let rest = sessions.drop_last();
        assert(category_counts(sessions, category).drop_last() =~= category_counts(rest, category));
        assert(category_counts(sessions, category).last() >= 0);
        lemma_token_sum_category(rest, category);
    }
}

fn token_totals_of(detail: &Vec<PricedCodexSession>) -> (result: TokenTotals)
    requires
        token_totals_fit(detail@),
    ensures
        result == token_sum(detail@),
{
    let mut total = TokenTotals::unknown();
    let mut index: usize = 0;
    while index < detail.len()
        invariant
            index <= detail.len(),
            token_totals_fit(detail@),
            total == token_sum(detail@.take(index as int)),
        decreases detail.len() - index,
    {
        proof {
            let next = detail@.take(index + 1);
            assert(next.drop_last() =~= detail@.take(index as int));
            assert forall|category: int| 0 <= category < 7 implies count_or_zero(token_category(total, category))
                + count_or_zero(#[trigger] token_category(detail@[index as int].codex_session.token_totals, category)) <= u64::MAX by {
                let counts = category_counts(detail@, category);
                assert forall|position: int| 0 <= position < counts.len() implies counts[position] >= 0 by {}
                lemma_sum_prefix(counts, index + 1);
                assert(counts.take(index + 1) =~= category_counts(next, category));
                assert(category_counts(next, category).drop_last() =~= category_counts(detail@.take(index as int), category));
                lemma_sum_nonnegative(category_counts(detail@.take(index as int), category));
                lemma_token_sum_category(detail@.take(index as int), category);
            }
        }
        add_token_totals(&mut total, &detail[index].codex_session.token_totals);
        index = index + 1;
    }
    proof {
        assert(detail@.take(detail.len() as int) =~= detail@);
    }
    total
}

fn known_costs_of(sessions: &Vec<PricedCodexSession>) -> (result: Vec<UsdAmount>)
    ensures
        amount_values(result@) == known_cost_values(sessions@),
{
    let mut result: Vec<UsdAmount> = Vec::new();
    let mut index: usize = 0;
    while index < sessions.len()
        invariant
            index <= sessions.len(),
            result.len() == index,
            amount_values(result@) =~= known_cost_values(sessions@).take(index as int),
        decreases sessions.len() - index,
    {
        let ghost before = result@;
        result.push(known_cost(&sessions[index].cost_state));
        proof {
            assert forall|position: int| 0 <= position < index + 1 implies amount_values(result@)[position]
                == known_cost_values(sessions@).take(index + 1)[position] by {
                if position < index {
                    assert(amount_values(before)[position] == known_cost_values(sessions@).take(index as int)[position]);
                }
            }
        }
        index = index + 1;
    }
    proof {
        assert(known_cost_values(sessions@).take(sessions.len() as int) =~= known_cost_values(sessions@));
    }
    result
}

fn incomplete_reasons(cost_state: &CostState) -> (result: Vec<IncompleteCostReason>)
    ensures
        reason_values(result@) == incomplete_reasons_of(cost_state@),
{
    match cost_state {
        CostState::Complete { .. } => {
            let result: Vec<IncompleteCostReason> = Vec::new();
            proof {
                assert(reason_values(result@) =~= Seq::<ReasonModel>::empty());
            }
            result
        },
        CostState::Partial { reasons, .. } => duplicate_reasons(reasons),
        CostState::Incomplete { reasons } => duplicate_reasons(reasons),
    }
}

fn reasons_of(detail: &Vec<PricedCodexSession>) -> (result: Vec<IncompleteCostReason>)
    ensures
        reason_values(result@) == reasons_of_sessions(detail@),
{
    let mut result: Vec<IncompleteCostReason> = Vec::new();
    let mut index: usize = 0;
    proof {
        assert(reason_values(result@) =~= reasons_of_sessions(detail@.take(0)));
    }
    while index < detail.len()
        invariant
            index <= detail.len(),
            reason_values(result@) == reasons_of_sessions(detail@.take(index as int)),
        decreases detail.len() - index,
    {
        let mut more = incomplete_reasons(&detail[index].cost_state);
        let ghost before = result@;
        result.append(&mut more);
        proof {
            assert(detail@.take(index + 1).drop_last() =~= detail@.take(index as int));
            assert(reason_values(result@) =~= reason_values(before) + incomplete_reasons_of(detail@[index as int].cost_state@));
        }
        index = index + 1;
    }
    proof {
        assert(detail@.take(detail.len() as int) =~= detail@);
    }
    result
}

fn summary_totals(readable: bool, session_detail: &Vec<PricedCodexSession>) -> (result: SummaryTotals)
    requires
        sessions_summable(session_detail@),
    ensures
        totals_of_detail(result, readable, session_detail@),
{
    let token_totals = token_totals_of(session_detail);
    let known_costs = known_costs_of(session_detail);
    let known_united_states_dollar_cost = sum_amounts(&known_costs);
    let reasons = reasons_of(session_detail);
    let period_cost_state = if !readable {
        PeriodCostState::MissingUsageSource
    } else if session_detail.len() == 0 {
        PeriodCostState::ZeroUsage
    } else if reasons.len() == 0 {
        PeriodCostState::Complete
    } else if known_united_states_dollar_cost.is_positive() {
        PeriodCostState::Partial { reasons }
    } else {
        PeriodCostState::Incomplete { reasons }
    };
    SummaryTotals {
        known_united_states_dollar_cost,
        period_cost_state,
        token_totals,
        session_count: session_detail.len(),
    }
}


/// Copies keep newest-first arrangements.
proof fn lemma_arranged_through_copies(
    source: Seq<PricedCodexSession>,
    copies: Seq<PricedCodexSession>,
    arranged: Seq<PricedCodexSession>,
)
    requires
        same_priced_sessions(copies, source),
        arranged_newest_first(copies, arranged),
    ensures
        arranged_newest_first(source, arranged),
{
    let order = choose|order: Seq<int>|
        #![trigger is_newest_first_order(detail_keys(copies), order)]
        is_newest_first_order(detail_keys(copies), order) && arranged.len() == copies.len() && forall|position: int|
            0 <= position < arranged.len() ==> same_priced_session(
                #[trigger] arranged[position],
                copies[order[position]],
            );
    assert(detail_keys(copies) =~= detail_keys(source)) by {
        assert forall|index: int| 0 <= index < copies.len() implies detail_keys(copies)[index] == detail_keys(source)[index] by {
            assert(same_priced_session(copies[index], source[index]));
        }
    }
    assert forall|position: int| 0 <= position < arranged.len() implies same_priced_session(
        #[trigger] arranged[position],
        source[order[position]],
    ) by {
        assert(same_priced_session(copies[order[position]], source[order[position]]));
    }
    assert(is_newest_first_order(detail_keys(source), order));
}

/// Copies have the same known costs and token counts.
proof fn lemma_copies_summable(left: Seq<PricedCodexSession>, right: Seq<PricedCodexSession>)
    requires
        same_priced_sessions(left, right),
    ensures
        known_cost_values(left) == known_cost_values(right),
        sessions_summable(right) ==> sessions_summable(left),
{
    assert forall|index: int| 0 <= index < left.len() implies known_cost_values(left)[index] == known_cost_values(right)[index] by {
        assert(same_priced_session(left[index], right[index]));
    }
    assert(known_cost_values(left) =~= known_cost_values(right));
    assert forall|category: int| 0 <= category < 7 implies #[trigger] category_counts(left, category) == category_counts(right, category) by {
        assert forall|index: int| 0 <= index < left.len() implies category_counts(left, category)[index] == category_counts(right, category)[index] by {
            assert(same_priced_session(left[index], right[index]));
        }
        assert(category_counts(left, category) =~= category_counts(right, category));
    }
}

/// The known cost of the previous matching period: none without a readable source or a
/// previous period, else the sum of the known costs of its sessions in original order.
fn previous_period_known_united_states_dollar_cost(
    previous_local_start_date: Option<CivilDate>,
    previous_local_end_date: Option<CivilDate>,
    readable: bool,
    priced_sessions: &Vec<PricedCodexSession>,
    local_dates: &Vec<CivilDate>,
) -> (result: Option<UsdAmount>)
    requires
        local_dates.len() == priced_sessions.len(),
        sessions_summable(priced_sessions@),
    ensures
        if readable && previous_local_start_date is Some {
            result matches Some(cost) && cost@ == decimal_fold(
                known_cost_values(
                    members_where(
                        priced_sessions@,
                        date_values(local_dates@),
                        |date: DateValue| date_in_window(
                            date,
                            optional_date(previous_local_start_date),
                            optional_date(previous_local_end_date),
                        ),
                        priced_sessions.len() as nat,
                    ),
                ),
            ) && exact_when_fits(
                cost@,
                known_cost_values(
                    members_where(
                        priced_sessions@,
                        date_values(local_dates@),
                        |date: DateValue| date_in_window(
                            date,
                            optional_date(previous_local_start_date),
                            optional_date(previous_local_end_date),
                        ),
                        priced_sessions.len() as nat,
                    ),
                ),
            )
        } else {
            result is None
        },
{
    if !readable || previous_local_start_date.is_none() {
        return None;
    }
    let selection = SessionSelection::Window { start: previous_local_start_date, end: previous_local_end_date };
    let members = select_members(priced_sessions, local_dates, &selection);
    let ghost source = members_where(priced_sessions@, date_values(local_dates@), selection_test(selection), priced_sessions.len() as nat);
    proof {
        lemma_members_summable(priced_sessions@, date_values(local_dates@), selection_test(selection));
        lemma_copies_summable(members@, source);
        assert(selection_test(selection) == (|date: DateValue| date_in_window(
            date,
            optional_date(previous_local_start_date),
            optional_date(previous_local_end_date),
        )));
    }
    let known_costs = known_costs_of(&members);
    Some(sum_amounts(&known_costs))
}

/// Builds one Headline Period.
fn period(
    kind: ReportingPeriodKind,
    local_start_date: Option<CivilDate>,
    local_end_date: Option<CivilDate>,
    previous_local_start_date: Option<CivilDate>,
    previous_local_end_date: Option<CivilDate>,
    readable: bool,
    priced_sessions: &Vec<PricedCodexSession>,
    local_dates: &Vec<CivilDate>,
) -> (result: HeadlinePeriod)
    requires
        local_dates.len() == priced_sessions.len(),
        sessions_summable(priced_sessions@),
    ensures
        result.kind == kind,
        result.local_start_date == local_start_date,
        result.local_end_date == local_end_date,
        arranged_newest_first(
            members_where(
                priced_sessions@,
                date_values(local_dates@),
                |date: DateValue| date_in_window(date, optional_date(local_start_date), optional_date(local_end_date)),
                priced_sessions.len() as nat,
            ),
            result.session_detail@,
        ),
        totals_of_detail(result.summary_totals, readable, result.session_detail@),
        if readable && previous_local_start_date is Some {
            result.previous_period_known_united_states_dollar_cost matches Some(cost) && cost@ == decimal_fold(
                known_cost_values(
                    members_where(
                        priced_sessions@,
                        date_values(local_dates@),
                        |date: DateValue| date_in_window(
                            date,
                            optional_date(previous_local_start_date),
                            optional_date(previous_local_end_date),
                        ),
                        priced_sessions.len() as nat,
                    ),
                ),
            ) && exact_when_fits(
                cost@,
                known_cost_values(
                    members_where(
                        priced_sessions@,
                        date_values(local_dates@),
                        |date: DateValue| date_in_window(
                            date,
                            optional_date(previous_local_start_date),
                            optional_date(previous_local_end_date),
                        ),
                        priced_sessions.len() as nat,
                    ),
                ),
            )
        } else {
            result.previous_period_known_united_states_dollar_cost is None
        },
{
    let selection = SessionSelection::Window { start: local_start_date, end: local_end_date };
    let members = select_members(priced_sessions, local_dates, &selection);
    let session_detail = arrange_newest_first(&members);
    let ghost source = members_where(priced_sessions@, date_values(local_dates@), selection_test(selection), priced_sessions.len() as nat);
    proof {
        lemma_members_summable(priced_sessions@, date_values(local_dates@), selection_test(selection));
        lemma_copies_summable(members@, source);
        lemma_arranged_summable(members@, session_detail@);
        lemma_arranged_through_copies(source, members@, session_detail@);
        assert(selection_test(selection) == (|date: DateValue| date_in_window(
            date,
            optional_date(local_start_date),
            optional_date(local_end_date),
        )));
    }
    let summary_totals = summary_totals(readable, &session_detail);
    let previous_period_known_united_states_dollar_cost = previous_period_known_united_states_dollar_cost(
        previous_local_start_date,
        previous_local_end_date,
        readable,
        priced_sessions,
        local_dates,
    );
    HeadlinePeriod {
        kind,
        local_start_date,
        local_end_date,
        summary_totals,
        previous_period_known_united_states_dollar_cost,
        session_detail,
    }
}


/// Whether months are distinct and listed newest first.
pub open spec fn strictly_newest_first(months: Seq<DateValue>) -> bool {
    forall|first: int, second: int|
        0 <= first < second < months.len() ==> !date_on_or_before(#[trigger] months[first], #[trigger] months[second])
}

/// Whether dates are distinct and listed newest first.
pub open spec fn dates_strictly_newest_first(months: Seq<CivilDate>) -> bool {
    forall|first: int, second: int|
        0 <= first < second < months.len() ==> !date_on_or_before((#[trigger] months[first])@, (#[trigger] months[second])@)
}

/// Adds a month to distinct newest-first months unless it is already there.
#[verifier::rlimit(40)]
fn insert_month(months: &mut Vec<CivilDate>, month: CivilDate)
    requires
        dates_strictly_newest_first(old(months)@),
    ensures
        dates_strictly_newest_first(final(months)@),
        exists|position: int| 0 <= position < final(months).len() && (#[trigger] final(months)@[position]) == month,
        forall|position: int| 0 <= position < old(months).len() ==> exists|spot: int|
            0 <= spot < final(months).len() && final(months)@[spot] == #[trigger] old(months)@[position],
        forall|spot: int| 0 <= spot < final(months).len() ==> (#[trigger] final(months)@[spot] == month || exists|position: int|
            0 <= position < old(months).len() && final(months)@[spot] == #[trigger] old(months)@[position]),
{
    let mut position: usize = 0;
    while position < months.len() && !months[position].is_on_or_before(&month)
        invariant
            position <= months.len(),
            forall|earlier: int| 0 <= earlier < position ==> !date_on_or_before(#[trigger] months@[earlier]@, month@),
        decreases months.len() - position,
    {
        position = position + 1;
    }
    let ghost before = months@;
    if position < months.len() && months[position].same_day(&month) {
        proof {
            assert(months@[position as int] == month);
            assert forall|spot: int| 0 <= spot < months.len() implies (#[trigger] months@[spot] == month || exists|earlier: int|
                0 <= earlier < before.len() && months@[spot] == #[trigger] before[earlier]) by {
                assert(months@[spot] == before[spot]);
            }
            assert forall|earlier: int| 0 <= earlier < before.len() implies exists|spot: int|
                0 <= spot < months.len() && months@[spot] == #[trigger] before[earlier] by {
                assert(months@[earlier] == before[earlier]);
            }
        }
        return;
    }
    proof {
        if position < months.len() {
            assert(date_on_or_before(months@[position as int]@, month@));
            assert forall|later: int| position < later < months.len() implies !date_on_or_before(month@, #[trigger] months@[later]@) by {
                assert(!date_on_or_before(months@[position as int]@, months@[later]@));
            }
        }
    }
    months.insert(position, month);
    proof {
        assert forall|first: int, second: int| 0 <= first < second < months.len() implies !date_on_or_before(
            (#[trigger] months@[first])@,
            (#[trigger] months@[second])@,
        ) by {
            if first < position && second < position {
                assert(months@[first] == before[first] && months@[second] == before[second]);
            } else if first > position && second > position {
                assert(months@[first] == before[first - 1] && months@[second] == before[second - 1]);
            } else if first < position && second > position {
                assert(months@[first] == before[first] && months@[second] == before[second - 1]);
                assert(!date_on_or_before(before[first]@, month@));
            } else if first == position {
                assert(months@[second] == before[second - 1]);
            } else {
                assert(months@[first] == before[first]);
            }
        }
        assert(months@[position as int] == month);
        assert forall|earlier: int| 0 <= earlier < before.len() implies exists|spot: int|
            0 <= spot < months.len() && months@[spot] == #[trigger] before[earlier] by {
            if earlier < position {
                assert(months@[earlier] == before[earlier]);
            } else {
                assert(months@[earlier + 1] == before[earlier]);
            }
        }
        assert forall|spot: int| 0 <= spot < months.len() implies (#[trigger] months@[spot] == month || exists|earlier: int|
            0 <= earlier < before.len() && months@[spot] == #[trigger] before[earlier]) by {
            if spot < position {
                assert(months@[spot] == before[spot]);
            } else if spot > position {
                assert(months@[spot] == before[spot - 1]);
            }
        }
    }
}

/// Whether every month comes from one of the first `count` dates.
pub open spec fn months_from_dates(months: Seq<CivilDate>, dates: Seq<CivilDate>, count: int) -> bool {
    forall|position: int| 0 <= position < months.len() ==> exists|earlier: int|
        0 <= earlier < count && month_start_of(dates[earlier]@) == (#[trigger] months[position])@
}

/// Whether the month of each of the first `count` dates is among the months.
pub open spec fn dates_in_months(months: Seq<CivilDate>, dates: Seq<CivilDate>, count: int) -> bool {
    forall|earlier: int| 0 <= earlier < count ==> exists|position: int|
        0 <= position < months.len() && (#[trigger] months[position])@ == month_start_of(#[trigger] dates[earlier]@)
}

proof fn lemma_months_after_insert(
    before: Seq<CivilDate>,
    after: Seq<CivilDate>,
    month: CivilDate,
    dates: Seq<CivilDate>,
    index: int,
)
    requires
        0 <= index < dates.len(),
        month@ == month_start_of(dates[index]@),
        months_from_dates(before, dates, index),
        dates_in_months(before, dates, index),
        exists|position: int| 0 <= position < after.len() && (#[trigger] after[position]) == month,
        forall|position: int| 0 <= position < before.len() ==> exists|spot: int|
            0 <= spot < after.len() && after[spot] == #[trigger] before[position],
        forall|spot: int| 0 <= spot < after.len() ==> (#[trigger] after[spot] == month || exists|position: int|
            0 <= position < before.len() && after[spot] == #[trigger] before[position]),
    ensures
        months_from_dates(after, dates, index + 1),
        dates_in_months(after, dates, index + 1),
{
    assert forall|position: int| 0 <= position < after.len() implies exists|earlier: int|
        0 <= earlier < index + 1 && month_start_of(dates[earlier]@) == (#[trigger] after[position])@ by {
        if after[position] != month {
            let old_position = choose|old_position: int| 0 <= old_position < before.len() && after[position] == before[old_position];
            let earlier = choose|earlier: int| 0 <= earlier < index && month_start_of(dates[earlier]@) == (#[trigger] before[old_position])@;
            assert(0 <= earlier < index + 1 && month_start_of(dates[earlier]@) == after[position]@);
        } else {
            assert(month_start_of(dates[index]@) == after[position]@);
        }
    }
    assert forall|earlier: int| 0 <= earlier < index + 1 implies exists|position: int|
        0 <= position < after.len() && (#[trigger] after[position])@ == month_start_of(#[trigger] dates[earlier]@) by {
        if earlier < index {
            let old_position = choose|old_position: int| 0 <= old_position < before.len() && (#[trigger] before[old_position])@ == month_start_of(dates[earlier]@);
            let spot = choose|spot: int| 0 <= spot < after.len() && after[spot] == #[trigger] before[old_position];
            assert(after[spot]@ == month_start_of(dates[earlier]@));
        } else {
            let spot = choose|spot: int| 0 <= spot < after.len() && (#[trigger] after[spot]) == month;
            assert(after[spot]@ == month_start_of(dates[earlier]@));
        }
    }
}

/// The distinct local month starts of the sessions' dates, newest first.
fn distinct_months(local_dates: &Vec<CivilDate>) -> (result: Vec<CivilDate>)
    ensures
        dates_strictly_newest_first(result@),
        months_from_dates(result@, local_dates@, local_dates.len() as int),
        dates_in_months(result@, local_dates@, local_dates.len() as int),
{
    let mut months: Vec<CivilDate> = Vec::new();
    let mut index: usize = 0;
    while index < local_dates.len()
        invariant
            index <= local_dates.len(),
            dates_strictly_newest_first(months@),
            months_from_dates(months@, local_dates@, index as int),
            dates_in_months(months@, local_dates@, index as int),
        decreases local_dates.len() - index,
    {
        let month = local_dates[index].first_of_month();
        let ghost before = months@;
        insert_month(&mut months, month);
        proof {
            lemma_months_after_insert(before, months@, month, local_dates@, index as int);
        }
        index = index + 1;
    }
    months
}

/// Groups all sessions by local calendar month, newest month first.
fn all_time_detail(
    priced_sessions: &Vec<PricedCodexSession>,
    local_dates: &Vec<CivilDate>,
) -> (result: Vec<MonthlySessionGroup>)
    requires
        local_dates.len() == priced_sessions.len(),
    ensures
        all_time_groups_of(result@, priced_sessions@, date_values(local_dates@)),
{
    let months = distinct_months(local_dates);
    let ghost dates = date_values(local_dates@);
    let mut groups: Vec<MonthlySessionGroup> = Vec::new();
    let mut index: usize = 0;
    while index < months.len()
        invariant
            index <= months.len(),
            local_dates.len() == priced_sessions.len(),
            dates == date_values(local_dates@),
            groups.len() == index,
            forall|position: int| 0 <= position < index ==> (#[trigger] groups@[position]).local_month_start_date == months@[position],
            forall|position: int| 0 <= position < index ==> arranged_newest_first(
                members_where(
                    priced_sessions@,
                    dates,
                    |date: DateValue| month_start_of(date) == (#[trigger] groups@[position]).local_month_start_date@,
                    priced_sessions.len() as nat,
                ),
                groups@[position].session_detail@,
            ),
        decreases months.len() - index,
    {
        let month_start = months[index];
        let selection = SessionSelection::Month { month_start };
        let members = select_members(priced_sessions, local_dates, &selection);
        let session_detail = arrange_newest_first(&members);
        proof {
            let source = members_where(priced_sessions@, dates, selection_test(selection), priced_sessions.len() as nat);
            lemma_arranged_through_copies(source, members@, session_detail@);
            assert(selection_test(selection) == (|date: DateValue| month_start_of(date) == month_start@));
        }
        groups.push(MonthlySessionGroup { local_month_start_date: month_start, session_detail });
        index = index + 1;
    }
    proof {
        let groups_view = groups@;
        assert forall|first: int, second: int| 0 <= first < second < groups_view.len() implies !date_on_or_before(
            (#[trigger] groups_view[first]).local_month_start_date@,
            (#[trigger] groups_view[second]).local_month_start_date@,
        ) by {
            assert(groups_view[first].local_month_start_date == months@[first]);
            assert(groups_view[second].local_month_start_date == months@[second]);
        }
        assert forall|group: int| 0 <= group < groups_view.len() implies month_has_member(
            (#[trigger] groups_view[group]).local_month_start_date@,
            dates,
            priced_sessions.len() as int,
        ) by {
            assert(groups_view[group].local_month_start_date == months@[group]);
            let witness = choose|witness: int| 0 <= witness < local_dates.len() && month_start_of(local_dates@[witness]@) == (#[trigger] months@[group])@;
            assert(dates[witness] == local_dates@[witness]@);
        }
        assert forall|member: int| 0 <= member < priced_sessions.len() implies month_has_group(
            groups_view,
            month_start_of(#[trigger] dates[member]),
        ) by {
            assert(dates[member] == local_dates@[member]@);
            let witness = choose|witness: int| 0 <= witness < months.len() && (#[trigger] months@[witness])@ == month_start_of(local_dates@[member]@);
            assert(groups_view[witness].local_month_start_date == months@[witness]);
        }
        assert forall|group: int| 0 <= group < groups_view.len() implies arranged_newest_first(
            members_where(
                priced_sessions@,
                dates,
                |date: DateValue| month_start_of(date) == (#[trigger] groups_view[group]).local_month_start_date@,
                priced_sessions.len() as nat,
            ),
            groups_view[group].session_detail@,
        ) by {
        }
    }
    groups
}

/// Builds a Derived Summary from sessions whose local dates are already known.
#[verifier::rlimit(80)]
pub fn build_derived_summary_for_local_dates(
    current_source_state: CurrentSourceState,
    priced_sessions: Vec<PricedCodexSession>,
    local_dates: Vec<CivilDate>,
    data_quality_notices: Vec<DataQualityNotice>,
    current_local_date: CivilDate,
) -> (result: DerivedSummary)
    requires
        local_dates.len() == priced_sessions.len(),
        sessions_summable(priced_sessions@),
        date_in_arithmetic_range(current_local_date@),
    ensures
        derived_summary_of(
            result,
            current_source_state,
            priced_sessions@,
            data_quality_notices@,
            current_local_date@,
            date_values(local_dates@),
        ),
{
    let today = current_local_date;
    let readable = current_source_state.is_readable();
    let weekday = weekday_from_monday(&today);
    today.valid_bounds();
    let ghost day = days_from_epoch(today@);
    proof {
        assert(weekday as int == weekday_from_monday_of(today@));
        assert(day_number_in_range(day - 1));
        assert(day_number_in_range(day - weekday as int));
    }
    let previous_day = date_plus_days(&today, -1).unwrap();
    let week_start = date_plus_days(&today, -(weekday as i64)).unwrap();
    proof {
        assert(day_number_in_range(days_from_epoch(week_start@) + 6));
        assert(day_number_in_range(days_from_epoch(week_start@) - 7));
        assert(day_number_in_range(days_from_epoch(week_start@) - 1));
    }
    let week_end = date_plus_days(&week_start, 6).unwrap();
    let previous_week_start = date_plus_days(&week_start, -7).unwrap();
    let previous_week_end = date_plus_days(&week_start, -1).unwrap();
    let month_start = today.first_of_month();
    proof {
        lemma_days_within_month(today@);
        assert(today@.2 <= 31);
        assert(day_number_in_range(days_from_epoch(month_start@) - 1));
    }
    let previous_month_end = date_plus_days(&month_start, -1).unwrap();
    let previous_month_start = previous_month_end.first_of_month();

    let daily = period(
        ReportingPeriodKind::Daily,
        Some(today),
        Some(today),
        Some(previous_day),
        Some(previous_day),
        readable,
        &priced_sessions,
        &local_dates,
    );
    let weekly = period(
        ReportingPeriodKind::Weekly,
        Some(week_start),
        Some(week_end),
        Some(previous_week_start),
        Some(previous_week_end),
        readable,
        &priced_sessions,
        &local_dates,
    );
    let monthly = period(
        ReportingPeriodKind::Monthly,
        Some(month_start),
        None,
        Some(previous_month_start),
        Some(previous_month_end),
        readable,
        &priced_sessions,
        &local_dates,
    );
    let all_time = period(
        ReportingPeriodKind::AllTime,
        None,
        None,
        None,
        None,
        readable,
        &priced_sessions,
        &local_dates,
    );
    let mut headline_periods: Vec<HeadlinePeriod> = Vec::new();
    headline_periods.push(daily);
    headline_periods.push(weekly);
    headline_periods.push(monthly);
    headline_periods.push(all_time);
    let all_time_detail = all_time_detail(&priced_sessions, &local_dates);
    let ghost today_value = today@;
    proof {
        assert(period_window(ReportingPeriodKind::Daily, today_value).2 == Some(previous_day@));
        assert(period_window(ReportingPeriodKind::Weekly, today_value).0 == Some(week_start@));
        assert(period_window(ReportingPeriodKind::Weekly, today_value).1 == Some(week_end@));
        assert(period_window(ReportingPeriodKind::Weekly, today_value).2 == Some(previous_week_start@));
        assert(period_window(ReportingPeriodKind::Weekly, today_value).3 == Some(previous_week_end@));
        assert(period_window(ReportingPeriodKind::Monthly, today_value).0 == Some(month_start@));
        assert(period_window(ReportingPeriodKind::Monthly, today_value).2 == Some(previous_month_start@));
        assert(period_window(ReportingPeriodKind::Monthly, today_value).3 == Some(previous_month_end@));
    }
    DerivedSummary { current_source_state, headline_periods, all_time_detail, data_quality_notices }
}

/// Whether every session's Session Start Time lies on a UTC date with a whole day of room
/// inside `chrono`'s range, so that its local date can be taken.
pub open spec fn sessions_have_local_dates(sessions: Seq<PricedCodexSession>) -> bool {
    forall|index: int|
        0 <= index < sessions.len() ==> inside_chrono_days(
            chrono_utc_date((#[trigger] sessions[index]).codex_session.session_start_time@),
        )
}

/// Whether each local date is the local date of its session's Session Start Time, as far as
/// any time zone allows: its UTC date or a day next to it.
pub open spec fn local_dates_of_sessions(dates: Seq<DateValue>, sessions: Seq<PricedCodexSession>) -> bool {
    &&& dates.len() == sessions.len()
    &&& forall|index: int|
        0 <= index < dates.len() ==> within_a_day(
            #[trigger] dates[index],
            chrono_utc_date(sessions[index].codex_session.session_start_time@),
        )
}

/// Whether every session's local date can be taken.
pub fn sessions_can_be_dated(sessions: &Vec<PricedCodexSession>) -> (result: bool)
    ensures
        result == sessions_have_local_dates(sessions@),
{
    let mut index: usize = 0;
    while index < sessions.len()
        invariant
            index <= sessions.len(),
            forall|earlier: int|
                0 <= earlier < index ==> inside_chrono_days(
                    chrono_utc_date((#[trigger] sessions@[earlier]).codex_session.session_start_time@),
                ),
        decreases sessions.len() - index,
    {
        if !sessions[index].codex_session.session_start_time.leaves_room_for_local_date() {
            return false;
        }
        index = index + 1;
    }
    true
}

/// Builds a Derived Summary using an explicit current local date; each session is placed by
/// the calendar date of its Session Start Time in the machine's local time zone.
pub fn build_derived_summary_at(
    current_source_state: CurrentSourceState,
    priced_sessions: Vec<PricedCodexSession>,
    data_quality_notices: Vec<DataQualityNotice>,
    current_local_date: CivilDate,
) -> (result: DerivedSummary)
    requires
        sessions_summable(priced_sessions@),
        sessions_have_local_dates(priced_sessions@),
        date_in_arithmetic_range(current_local_date@),
    ensures
        exists|local_dates: Seq<DateValue>|
            local_dates_of_sessions(local_dates, priced_sessions@) && derived_summary_of(
                result,
                current_source_state,
                priced_sessions@,
                data_quality_notices@,
                current_local_date@,
                local_dates,
            ),
{
    let mut local_dates: Vec<CivilDate> = Vec::new();
    let mut index: usize = 0;
    while index < priced_sessions.len()
        invariant
            index <= priced_sessions.len(),
            sessions_have_local_dates(priced_sessions@),
            local_dates.len() == index,
            forall|earlier: int|
                0 <= earlier < index ==> within_a_day(
                    (#[trigger] local_dates@[earlier])@,
                    chrono_utc_date(priced_sessions@[earlier].codex_session.session_start_time@),
                ),
        decreases priced_sessions.len() - index,
    {
        proof {
            assert(inside_chrono_days(
                chrono_utc_date(priced_sessions@[index as int].codex_session.session_start_time@),
            ));
        }
        match local_date_of(&priced_sessions[index].codex_session.session_start_time) {
            Some(date) => {
                local_dates.push(date);
            },
            None => {
                proof {
                    assert(false);
                }
            },
        }
        index = index + 1;
    }
    let ghost dates = date_values(local_dates@);
    proof {
        assert forall|position: int| 0 <= position < dates.len() implies within_a_day(
            #[trigger] dates[position],
            chrono_utc_date(priced_sessions@[position].codex_session.session_start_time@),
        ) by {
            assert(dates[position] == local_dates@[position]@);
        }
        assert(local_dates_of_sessions(dates, priced_sessions@));
    }
    let result = build_derived_summary_for_local_dates(
        current_source_state,
        priced_sessions,
        local_dates,
        data_quality_notices,
        current_local_date,
    );
    assert(dates.len() == priced_sessions.len());
    result
}

/// The count of one token category, as `token_category` numbers them.
fn token_category_count(totals: &TokenTotals, category: usize) -> (result: Option<u64>)
    requires
        category < 7,
    ensures
        result == token_category(*totals, category as int),
{
    if category == 0 {
        totals.input_tokens
    } else if category == 1 {
        totals.non_cached_input_tokens
    } else if category == 2 {
        totals.cache_read_tokens
    } else if category == 3 {
        totals.cache_write_tokens
    } else if category == 4 {
        totals.output_tokens
    } else if category == 5 {
        totals.reasoning_output_tokens
    } else {
        totals.total_tokens
    }
}

/// Whether one token category summed over the sessions fits in a `u64`.
fn category_fits(sessions: &Vec<PricedCodexSession>, category: usize) -> (result: bool)
    requires
        category < 7,
    ensures
        result == (sum_of(category_counts(sessions@, category as int)) <= u64::MAX),
{
    let ghost counts = category_counts(sessions@, category as int);
    let mut total: u128 = 0;
    let mut index: usize = 0;
    while index < sessions.len()
        invariant
            index <= sessions.len(),
            category < 7,
            counts == category_counts(sessions@, category as int),
            counts.len() == sessions@.len(),
            total as int == sum_of(counts.take(index as int)),
            total <= u64::MAX,
        decreases sessions.len() - index,
    {
        let count: u128 = match token_category_count(&sessions[index].codex_session.token_totals, category) {
            Some(value) => value as u128,
            None => 0,
        };
        proof {
            assert(counts.take(index + 1).drop_last() =~= counts.take(index as int));
            assert(counts[index as int] == count as int);
        }
        if count > u64::MAX as u128 - total {
            proof {
                lemma_sum_prefix(counts, index + 1);
            }
            return false;
        }
        total = total + count;
        index = index + 1;
    }
    proof {
        assert(counts.take(sessions@.len() as int) =~= counts);
    }
    true
}

/// Whether the sessions' known costs and token counts can be summed without overflow, as
/// building a Derived Summary needs.
pub fn sessions_can_be_summarized(sessions: &Vec<PricedCodexSession>) -> (result: bool)
    ensures
        result == sessions_summable(sessions@),
{
    let ghost costs = known_cost_values(sessions@);
    let mut budget: u128 = 0;
    let mut index: usize = 0;
    while index < sessions.len()
        invariant
            index <= sessions.len(),
            costs == known_cost_values(sessions@),
            costs.len() == sessions@.len(),
            budget as int == whole_budget(costs.take(index as int)),
            budget <= SAFE_WHOLE_UNITS,
        decreases sessions.len() - index,
    {
        let units = known_cost(&sessions[index].cost_state).whole_units();
        proof {
            assert(costs.take(index + 1).drop_last() =~= costs.take(index as int));
            assert(costs.take(index + 1).last() == costs[index as int]);
        }
        if units > SAFE_WHOLE_UNITS - budget || SAFE_WHOLE_UNITS - budget - units < 2 {
            proof {
                lemma_whole_budget_prefix(costs, index + 1);
            }
            return false;
        }
        budget = budget + units + 2;
        index = index + 1;
    }
    proof {
        assert(costs.take(sessions@.len() as int) =~= costs);
    }
    let mut category: usize = 0;
    while category < 7
        invariant
            category <= 7,
            forall|earlier: int| 0 <= earlier < category ==> sum_of(#[trigger] category_counts(sessions@, earlier)) <= u64::MAX,
        decreases 7 - category,
    {
        if !category_fits(sessions, category) {
            return false;
        }
        category = category + 1;
    }
    true
}

/// Whether a current local date lies where period arithmetic stays inside `chrono`'s range.
pub fn supports_current_date(date: &CivilDate) -> (result: bool)
    ensures
        result == date_in_arithmetic_range(date@),
{
    let first = match CivilDate::from_ymd(MIN_YEAR, 1, 1) {
        Some(value) => value,
        None => {
            return false;
        },
    };
    let last = match CivilDate::from_ymd(MAX_YEAR, 12, 31) {
        Some(value) => value,
        None => {
            return false;
        },
    };
    proof {
        assert(first@ == chrono_first_day());
        assert(last@ == chrono_last_day());
    }
    let day = day_number(date) as i128;
    let weekday = weekday_from_monday(date) as i128;
    let month_start = date.first_of_month();
    let month_start_day = day_number(&month_start) as i128;
    let first_day = day_number(&first) as i128;
    let last_day = day_number(&last) as i128;
    within_days(day - 1, first_day, last_day) && within_days(day - weekday - 7, first_day, last_day) && within_days(
        day - weekday + 6,
        first_day,
        last_day,
    ) && within_days(month_start_day - 1, first_day, last_day)
}

/// Whether a day number lies between the day numbers of `chrono`'s first and last days.
fn within_days(number: i128, first_day: i128, last_day: i128) -> (result: bool)
    requires
        first_day as int == days_from_epoch(chrono_first_day()),
        last_day as int == days_from_epoch(chrono_last_day()),
    ensures
        result == day_number_in_range(number as int),
{
    first_day <= number && number <= last_day
}

/// Builds a Derived Summary at a given current local date: a summary exactly when the date
/// leaves room for the period arithmetic, with each session on a local date of its start
/// time.
pub fn build_derived_summary_on(
    current_source_state: CurrentSourceState,
    priced_sessions: Vec<PricedCodexSession>,
    data_quality_notices: Vec<DataQualityNotice>,
    current_local_date: CivilDate,
) -> (result: Option<DerivedSummary>)
    requires
        sessions_summable(priced_sessions@),
        sessions_have_local_dates(priced_sessions@),
    ensures
        result is Some <==> date_in_arithmetic_range(current_local_date@),
        result matches Some(summary) ==> exists|local_dates: Seq<DateValue>|
            local_dates_of_sessions(local_dates, priced_sessions@) && derived_summary_of(
                summary,
                current_source_state,
                priced_sessions@,
                data_quality_notices@,
                current_local_date@,
                local_dates,
            ),
{
    if !supports_current_date(&current_local_date) {
        return None;
    }
    Some(build_derived_summary_at(current_source_state, priced_sessions, data_quality_notices, current_local_date))
}

/// Builds a Derived Summary at the current local date that the clock gives, as
/// `build_derived_summary_on` does for that date.
pub fn build_derived_summary(
    current_source_state: CurrentSourceState,
    priced_sessions: Vec<PricedCodexSession>,
    data_quality_notices: Vec<DataQualityNotice>,
) -> (result: Option<DerivedSummary>)
    requires
        sessions_summable(priced_sessions@),
        sessions_have_local_dates(priced_sessions@),
    ensures
        exists|today: DateValue|
            valid_civil_date(today) && (result is Some <==> date_in_arithmetic_range(today)) && (result matches Some(
                summary,
            ) ==> exists|local_dates: Seq<DateValue>|
                local_dates_of_sessions(local_dates, priced_sessions@) && derived_summary_of(
                    summary,
                    current_source_state,
                    priced_sessions@,
                    data_quality_notices@,
                    today,
                    local_dates,
                )),
{
    let today = current_local_date();
    today.valid_bounds();
    build_derived_summary_on(current_source_state, priced_sessions, data_quality_notices, today)
}

/// Selecting with a test that every date passes keeps every session.
proof fn lemma_members_all_kept(
    sessions: Seq<PricedCodexSession>,
    dates: Seq<DateValue>,
    keep: spec_fn(DateValue) -> bool,
    count: nat,
)
    requires
        count <= dates.len(),
        forall|index: int| 0 <= index < count ==> #[trigger] keep(dates[index]),
    ensures
        members_where(sessions, dates, keep, count).len() == count,
    decreases count,
{
    if count > 0 {
        lemma_members_all_kept(sessions, dates, keep, (count - 1) as nat);
    }
}

/// Selecting keeps no more sessions than it looks at.
proof fn lemma_members_at_most(
    sessions: Seq<PricedCodexSession>,
    dates: Seq<DateValue>,
    keep: spec_fn(DateValue) -> bool,
    count: nat,
)
    ensures
        members_where(sessions, dates, keep, count).len() <= count,
    decreases count,
{
    if count > 0 {
        lemma_members_at_most(sessions, dates, keep, (count - 1) as nat);
    }
}

/// The All-Time period holds every session, and has no previous period to compare with.
pub proof fn law_all_time_period_holds_every_session(
    summary: DerivedSummary,
    state: CurrentSourceState,
    sessions: Seq<PricedCodexSession>,
    notices: Seq<DataQualityNotice>,
    today: DateValue,
    dates: Seq<DateValue>,
)
    requires
        dates.len() == sessions.len(),
        derived_summary_of(summary, state, sessions, notices, today, dates),
    ensures
        summary.headline_periods[3].kind == ReportingPeriodKind::AllTime,
        summary.headline_periods[3].summary_totals.session_count == sessions.len(),
        summary.headline_periods[3].session_detail@.len() == sessions.len(),
        summary.headline_periods[3].previous_period_known_united_states_dollar_cost is None,
{
    let window = period_window(ReportingPeriodKind::AllTime, today);
    let keep = |date: DateValue| date_in_window(date, window.0, window.1);
    lemma_members_all_kept(sessions, dates, keep, sessions.len());
}

/// No period holds more sessions than there are.
pub proof fn law_period_counts_at_most_all_sessions(
    summary: DerivedSummary,
    state: CurrentSourceState,
    sessions: Seq<PricedCodexSession>,
    notices: Seq<DataQualityNotice>,
    today: DateValue,
    dates: Seq<DateValue>,
    period: int,
)
    requires
        derived_summary_of(summary, state, sessions, notices, today, dates),
        0 <= period < 4,
    ensures
        summary.headline_periods[period].summary_totals.session_count <= sessions.len(),
{
    let kind = summary.headline_periods[period].kind;
    let window = period_window(kind, today);
    let keep = |date: DateValue| date_in_window(date, window.0, window.1);
    lemma_members_at_most(sessions, dates, keep, sessions.len());
}

/// Without a readable Usage Source, every Headline Period is marked as missing its source.
pub proof fn law_missing_source_marks_every_period(
    summary: DerivedSummary,
    state: CurrentSourceState,
    sessions: Seq<PricedCodexSession>,
    notices: Seq<DataQualityNotice>,
    today: DateValue,
    dates: Seq<DateValue>,
    period: int,
)
    requires
        derived_summary_of(summary, state, sessions, notices, today, dates),
        !source_state_readable(state),
        0 <= period < 4,
    ensures
        summary.headline_periods[period].summary_totals.period_cost_state@ == PeriodCostModel::MissingUsageSource,
        summary.headline_periods[period].previous_period_known_united_states_dollar_cost is None,
{
}

/// A session of today is also a session of this month.
pub proof fn law_todays_sessions_are_this_months(today: DateValue, date: DateValue)
    requires
        valid_civil_date(today),
        date_in_window(
            date,
            period_window(ReportingPeriodKind::Daily, today).0,
            period_window(ReportingPeriodKind::Daily, today).1,
        ),
    ensures
        date_in_window(
            date,
            period_window(ReportingPeriodKind::Monthly, today).0,
            period_window(ReportingPeriodKind::Monthly, today).1,
        ),
{
}

/// Each period keeps calculation precision: its known cost is the `Decimal` sum of its
/// sessions' known costs, exactly their sum at any scale at which they can be added without
/// leaving a `Decimal` mantissa, and its session count is the number of its sessions.
pub proof fn law_period_cost_is_exact_sum(
    summary: DerivedSummary,
    state: CurrentSourceState,
    sessions: Seq<PricedCodexSession>,
    notices: Seq<DataQualityNotice>,
    today: DateValue,
    dates: Seq<DateValue>,
    period: int,
)
    requires
        derived_summary_of(summary, state, sessions, notices, today, dates),
        0 <= period < 4,
    ensures
        summary.headline_periods[period].summary_totals.known_united_states_dollar_cost@ == decimal_fold(
            known_cost_values(summary.headline_periods[period].session_detail@),
        ),
        exact_when_fits(
            summary.headline_periods[period].summary_totals.known_united_states_dollar_cost@,
            known_cost_values(summary.headline_periods[period].session_detail@),
        ),
        summary.headline_periods[period].summary_totals.session_count == summary.headline_periods[period].session_detail@.len(),
        summary.data_quality_notices@ == notices,
{
}

/// Optional counts add as counts where they are known: an unknown count counts as zero only
/// beside a known one, the order of adding does not matter, and known counts add exactly,
/// whenever the sums fit in `u64`.
pub proof fn law_optional_counts_add_up(first: Option<u64>, second: Option<u64>, third: Option<u64>)
    requires
        count_or_zero(first) + count_or_zero(second) + count_or_zero(third) <= u64::MAX,
    ensures
        add_optional_count(first, None) == first,
        add_optional_count(None, second) == second,
        add_optional_count(first, second) == add_optional_count(second, first),
        add_optional_count(add_optional_count(first, second), third) == add_optional_count(
            first,
            add_optional_count(second, third),
        ),
        first is Some && second is Some ==> add_optional_count(first, second) == Some(
            (first.unwrap() + second.unwrap()) as u64,
        ),
{
}

/// The Daily period is the current date alone, and it compares with the day before: its
/// previous window is one date, whose day number is one less than the current date's.
pub proof fn law_daily_comparison_is_the_day_before(today: DateValue)
    requires
        date_in_arithmetic_range(today),
    ensures
        period_window(ReportingPeriodKind::Daily, today).0 == Some(today),
        period_window(ReportingPeriodKind::Daily, today).1 == Some(today),
        period_window(ReportingPeriodKind::Daily, today).2 == period_window(ReportingPeriodKind::Daily, today).3,
        period_window(ReportingPeriodKind::Daily, today).2 matches Some(previous) && days_from_epoch(previous)
            == days_from_epoch(today) - 1,
{
    lemma_date_plus_days_moves_day_number(today, -1);
}

/// The Weekly period runs from the Monday of the current week (the latest Monday on or before
/// the current date) for seven days, and compares with the seven days before that Monday.
pub proof fn law_weekly_comparison_is_the_week_before(today: DateValue)
    requires
        date_in_arithmetic_range(today),
    ensures
        period_window(ReportingPeriodKind::Weekly, today) matches (
            Some(start),
            Some(end),
            Some(previous_start),
            Some(previous_end),
        ) && days_from_epoch(today) - 6 <= days_from_epoch(start) <= days_from_epoch(today) && weekday_from_monday_of(start)
            == 0 && days_from_epoch(end) == days_from_epoch(start) + 6 && days_from_epoch(previous_start)
            == days_from_epoch(start) - 7 && days_from_epoch(previous_end) == days_from_epoch(start) - 1,
{
    let day = days_from_epoch(today);
    let weekday = weekday_from_monday_of(today);
    assert(0 <= weekday < 7);
    lemma_date_plus_days_moves_day_number(today, -weekday);
    let start = week_start_of(today);
    assert(days_from_epoch(start) == day - weekday);
    assert((day - weekday + 3) % 7 == 0) by (nonlinear_arith)
        requires weekday == (day + 3) % 7;
    lemma_date_plus_days_moves_day_number(start, 6);
    lemma_date_plus_days_moves_day_number(start, -7);
    lemma_date_plus_days_moves_day_number(start, -1);
}

/// The Monthly period starts on the first of the current month, and compares with the whole
/// previous month: from the first of the month of the day before this month's first, to that
/// day.
pub proof fn law_monthly_comparison_is_the_month_before(today: DateValue)
    requires
        date_in_arithmetic_range(today),
    ensures
        period_window(ReportingPeriodKind::Monthly, today) matches (Some(start), None, Some(previous_start), Some(previous_end))
            && start == (today.0, today.1, 1int) && days_from_epoch(previous_end) == days_from_epoch(start) - 1
            && previous_start == (previous_end.0, previous_end.1, 1int),
{
    lemma_date_plus_days_moves_day_number(month_start_of(today), -1);
}

/// The All-Time period has no bounds and nothing to compare with.
pub proof fn law_all_time_has_no_window(today: DateValue)
    ensures
        period_window(ReportingPeriodKind::AllTime, today) == (
            None::<DateValue>,
            None::<DateValue>,
            None::<DateValue>,
            None::<DateValue>,
        ),
{
}

} // verus!
