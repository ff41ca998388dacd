//! JSON Output for Derived Summaries: the values that are written, built from the same
//! Derived Summary that the terminal presentation shows.

use vstd::prelude::*;
use crate::cost::{CostState, IncompleteCostReason, PricedCodexSession, ReasonModel, reason_values};
use crate::json::option_text_view;
use crate::money::{decimal_difference, decimal_subtract, decimal_text, decimal_to_text};
use crate::reporting_period::{
    DerivedSummary, HeadlinePeriod, MonthlySessionGroup, PeriodCostModel, PeriodCostState, ReportingPeriodKind,
};
use crate::session::{agent_label, DataQualityNotice, DataQualityNoticeKind, TokenTotals};
use crate::terminal_interface::{change_fits, cost_change_fits};
use crate::text::{joined, owned};
use crate::time::{civil_date_text, chrono_rfc3339_text, date_to_text, instant_to_rfc3339, CivilDate};
use crate::usage_source::{source_state_custom, source_state_path, source_state_readable, CurrentSourceState};

verus! {

/// Current JSON Output schema version.
pub const OUTPUT_SCHEMA_VERSION: u32 = 3;

/// The text that `Path::strip_prefix` leaves of a path below a base, when the base is a
/// prefix of it.
pub uninterp spec fn std_path_stripped(path: Seq<char>, base: Seq<char>) -> Option<Seq<char>>;

/// `Path::strip_prefix`, as text: what is left of `path` below `base`, when `base` is a
/// prefix of it component by component.
#[verifier::external_body]
fn path_below(path: &str, base: &str) -> (result: Option<String>)
    ensures
        option_text_view(result) == std_path_stripped(path@, base@),
{
    std::path::Path::new(path).strip_prefix(base).ok().map(|relative| relative.to_string_lossy().into_owned())
}

/// JSON Output rendering options.
#[derive(Clone, Copy, Debug, PartialEq, Eq, Structural)]
pub struct JsonOutputOptions {
    /// Redact home-directory-sensitive prefixes.
    pub redact_paths: bool,
}

/// Machine-readable Derived Summary output.
#[derive(Clone, Debug)]
pub struct JsonOutput {
    /// Output Schema Version.
    pub output_schema_version: u32,
    /// Usage Source details.
    pub usage_source: JsonUsageSource,
    /// Headline Periods.
    pub headline_periods: Vec<JsonHeadlinePeriod>,
    /// Month-first All-Time Detail.
    pub all_time_detail: Vec<JsonMonthlySessionGroup>,
    /// Data Quality Detail.
    pub data_quality_detail: Vec<JsonDataQualityNotice>,
}

/// Usage Source details of JSON Output.
#[derive(Clone, Debug)]
pub struct JsonUsageSource {
    /// Usage Source path, redacted when requested.
    pub path: String,
    /// Whether the Usage Source is readable.
    pub is_readable: bool,
    /// Whether the Usage Source came from `--usage-source`.
    pub is_custom: bool,
}

/// JSON representation of one Headline Period.
#[derive(Clone, Debug)]
pub struct JsonHeadlinePeriod {
    /// Reporting Period kind.
    pub kind: String,
    /// Local start date for finite periods.
    pub local_start_date: Option<String>,
    /// Local end date for finite periods.
    pub local_end_date: Option<String>,
    /// Known United States Dollar Cost with calculation precision.
    pub known_united_states_dollar_cost: String,
    /// Previous matching Reporting Period known United States Dollar Cost.
    pub previous_period_known_united_states_dollar_cost: Option<String>,
    /// Change in known United States Dollar Cost from the previous matching Reporting Period.
    pub known_united_states_dollar_cost_change_from_previous_period: Option<String>,
    /// Aggregate cost state.
    pub period_cost_state: JsonPeriodCostState,
    /// Aggregated token totals.
    pub token_totals: TokenTotals,
    /// Number of sessions in the period.
    pub session_count: usize,
    /// Newest-first Session Detail.
    pub session_detail: Vec<JsonSessionDetail>,
}

/// JSON representation of aggregate period cost state.
#[derive(Clone, Debug)]
pub enum JsonPeriodCostState {
    /// No readable Usage Source exists.
    MissingUsageSource,
    /// Readable Usage Source contains no usage for the period.
    ZeroUsage,
    /// All sessions are fully priced.
    Complete,
    /// Some known cost and explicit incomplete reasons.
    Partial {
        /// Incomplete reasons.
        reasons: Vec<JsonIncompleteCostReason>,
    },
    /// No known cost and explicit incomplete reasons.
    Incomplete {
        /// Incomplete reasons.
        reasons: Vec<JsonIncompleteCostReason>,
    },
}

/// JSON representation of one AI Coding Agent Session in Session Detail.
#[derive(Clone, Debug)]
pub struct JsonSessionDetail {
    /// AI Coding Agent that produced the session.
    pub ai_coding_agent: String,
    /// Source session file path.
    pub source_path: String,
    /// Source-recorded Session Name when available.
    pub session_name: Option<String>,
    /// Session Start Time.
    pub session_start_time: String,
    /// Exact recorded Model name.
    pub model: String,
    /// Source-recorded reasoning effort or thinking level when available.
    pub reasoning_effort: Option<String>,
    /// Full project path when available.
    pub project_path: Option<String>,
    /// Compact Project Name when available.
    pub project_name: Option<String>,
    /// Whether the session is active.
    pub is_active: bool,
    /// Session token totals.
    pub token_totals: TokenTotals,
    /// Session Historical Cost state.
    pub cost_state: JsonCostState,
}

/// JSON representation of session Historical Cost state.
#[derive(Clone, Debug)]
pub enum JsonCostState {
    /// Fully priced Historical Cost.
    Complete {
        /// United States Dollar Cost with calculation precision.
        united_states_dollar_cost: String,
    },
    /// Partial known cost with incomplete reasons.
    Partial {
        /// Known United States Dollar Cost with calculation precision.
        known_united_states_dollar_cost: String,
        /// Incomplete reasons.
        reasons: Vec<JsonIncompleteCostReason>,
    },
    /// Incomplete cost with no known cost.
    Incomplete {
        /// Incomplete reasons.
        reasons: Vec<JsonIncompleteCostReason>,
    },
}

/// JSON representation of an incomplete cost reason.
#[derive(Clone, Debug)]
pub enum JsonIncompleteCostReason {
    /// Model has no Effective Price Schedule.
    UnpricedUsage { model: String },
    /// A required token category is missing.
    MissingTokenCategory { token_category: String },
}

/// JSON representation of month-first All-Time Detail.
#[derive(Clone, Debug)]
pub struct JsonMonthlySessionGroup {
    /// First day of the local calendar month.
    pub local_month_start_date: String,
    /// Newest-first Session Detail for this month.
    pub session_detail: Vec<JsonSessionDetail>,
}

/// JSON representation of a Data Quality Notice.
#[derive(Clone, Debug)]
pub struct JsonDataQualityNotice {
    /// Source path associated with the notice.
    pub source_path: String,
    /// One-based line number when applicable.
    pub line_number: Option<usize>,
    /// Stable notice kind.
    pub kind: String,
    /// Human-readable detail.
    pub detail: String,
}

impl View for JsonIncompleteCostReason {
    type V = ReasonModel;

    open spec fn view(&self) -> ReasonModel {
        match self {
            JsonIncompleteCostReason::UnpricedUsage { model } => ReasonModel::UnpricedUsage(model@),
            JsonIncompleteCostReason::MissingTokenCategory { token_category } => {
                ReasonModel::MissingTokenCategory(token_category@)
            },
        }
    }
}

/// The values of JSON incomplete cost reasons.
pub open spec fn json_reason_values(reasons: Seq<JsonIncompleteCostReason>) -> Seq<ReasonModel> {
    reasons.map_values(|reason: JsonIncompleteCostReason| reason@)
}

/// A JSON cost state as values.
pub enum JsonCostModel {
    /// Complete cost, as text.
    Complete(Seq<char>),
    /// Known partial cost, as text, with reasons.
    Partial(Seq<char>, Seq<ReasonModel>),
    /// No known cost, with reasons.
    Incomplete(Seq<ReasonModel>),
}

impl View for JsonCostState {
    type V = JsonCostModel;

    open spec fn view(&self) -> JsonCostModel {
        match self {
            JsonCostState::Complete { united_states_dollar_cost } => JsonCostModel::Complete(united_states_dollar_cost@),
            JsonCostState::Partial { known_united_states_dollar_cost, reasons } => JsonCostModel::Partial(
                known_united_states_dollar_cost@,
                json_reason_values(reasons@),
            ),
            JsonCostState::Incomplete { reasons } => JsonCostModel::Incomplete(json_reason_values(reasons@)),
        }
    }
}

impl View for JsonPeriodCostState {
    type V = PeriodCostModel;

    open spec fn view(&self) -> PeriodCostModel {
        match self {
            JsonPeriodCostState::MissingUsageSource => PeriodCostModel::MissingUsageSource,
            JsonPeriodCostState::ZeroUsage => PeriodCostModel::ZeroUsage,
            JsonPeriodCostState::Complete => PeriodCostModel::Complete,
            JsonPeriodCostState::Partial { reasons } => PeriodCostModel::Partial(json_reason_values(reasons@)),
            JsonPeriodCostState::Incomplete { reasons } => PeriodCostModel::Incomplete(json_reason_values(reasons@)),
        }
    }
}

/// A path below the home directory written from `~`, with a separator before what follows.
pub open spec fn separator_prefixed(text: Seq<char>) -> Seq<char> {
    if text.len() == 0 {
        Seq::empty()
    } else {
        "/"@ + text
    }
}

/// A path as JSON Output writes it: when redaction is asked for and the path lies under the
/// home directory, `~` and the rest of the path; otherwise the path itself.
pub open spec fn path_text(path: Seq<char>, redact_paths: bool, home_directory: Option<Seq<char>>) -> Seq<char> {
    match home_directory {
        Some(home) => if redact_paths && std_path_stripped(path, home) is Some {
            "~"@ + separator_prefixed(std_path_stripped(path, home).unwrap())
        } else {
            path
        },
        None => path,
    }
}

/// The stable JSON name of a Reporting Period kind.
pub open spec fn period_kind_name(kind: ReportingPeriodKind) -> Seq<char> {
    match kind {
        ReportingPeriodKind::Daily => "daily"@,
        ReportingPeriodKind::Weekly => "weekly"@,
        ReportingPeriodKind::Monthly => "monthly"@,
        ReportingPeriodKind::AllTime => "all_time"@,
    }
}

/// The stable JSON name of a Data Quality Notice kind.
pub open spec fn notice_kind_name(kind: DataQualityNoticeKind) -> Seq<char> {
    match kind {
        DataQualityNoticeKind::ParseProblem => "parse_problem"@,
        DataQualityNoticeKind::UnknownSourceFormat => "unknown_source_format"@,
        DataQualityNoticeKind::MissingTokenSnapshot => "missing_token_snapshot"@,
    }
}

/// A cost state as JSON Output writes it: amounts as `Decimal` text, reasons as they are.
pub open spec fn cost_json_of(cost_state: CostState) -> JsonCostModel {
    match cost_state {
        CostState::Complete { united_states_dollar_cost } => JsonCostModel::Complete(
            decimal_text(united_states_dollar_cost@),
        ),
        CostState::Partial { known_united_states_dollar_cost, reasons } => JsonCostModel::Partial(
            decimal_text(known_united_states_dollar_cost@),
            reason_values(reasons@),
        ),
        CostState::Incomplete { reasons } => JsonCostModel::Incomplete(reason_values(reasons@)),
    }
}

/// Whether a JSON session entry states the session, its paths written by `path_text`.
pub open spec fn session_json_of(
    json: JsonSessionDetail,
    session: PricedCodexSession,
    redact_paths: bool,
    home_directory: Option<Seq<char>>,
) -> bool {
    let codex = session.codex_session;
    &&& json.ai_coding_agent@ == agent_label(codex.ai_coding_agent)
    &&& json.source_path@ == path_text(codex.source_path@, redact_paths, home_directory)
    &&& option_text_view(json.session_name) == option_text_view(codex.session_name)
    &&& json.session_start_time@ == chrono_rfc3339_text(codex.session_start_time@)
    &&& json.model@ == codex.model@
    &&& option_text_view(json.reasoning_effort) == option_text_view(codex.reasoning_effort)
    &&& option_text_view(json.project_path) == match codex.project_path {
        Some(path) => Some(path_text(path@, redact_paths, home_directory)),
        None => None,
    }
    &&& option_text_view(json.project_name) == option_text_view(codex.project_name)
    &&& json.is_active == codex.is_active
    &&& json.token_totals == codex.token_totals
    &&& json.cost_state@ == cost_json_of(session.cost_state)
}

/// Whether JSON session entries state the sessions one for one.
pub open spec fn sessions_json_of(
    json: Seq<JsonSessionDetail>,
    sessions: Seq<PricedCodexSession>,
    redact_paths: bool,
    home_directory: Option<Seq<char>>,
) -> bool {
    &&& json.len() == sessions.len()
    &&& forall|index: int| 0 <= index < json.len() ==> session_json_of(
        #[trigger] json[index],
        sessions[index],
        redact_paths,
        home_directory,
    )
}

/// The text of an optional date, as `NaiveDate` writes it.
pub open spec fn date_text_of(date: Option<CivilDate>) -> Option<Seq<char>> {
    match date {
        Some(value) => Some(civil_date_text(value@)),
        None => None,
    }
}

/// Whether a JSON period entry states the period.
pub open spec fn period_json_of(
    json: JsonHeadlinePeriod,
    period: HeadlinePeriod,
    redact_paths: bool,
    home_directory: Option<Seq<char>>,
) -> bool {
    let totals = period.summary_totals;
    &&& json.kind@ == period_kind_name(period.kind)
    &&& option_text_view(json.local_start_date) == date_text_of(period.local_start_date)
    &&& option_text_view(json.local_end_date) == date_text_of(period.local_end_date)
    &&& json.known_united_states_dollar_cost@ == decimal_text(totals.known_united_states_dollar_cost@)
    &&& option_text_view(json.previous_period_known_united_states_dollar_cost) == match period.previous_period_known_united_states_dollar_cost {
        Some(previous) => Some(decimal_text(previous@)),
        None => None,
    }
    &&& option_text_view(json.known_united_states_dollar_cost_change_from_previous_period) == match period.previous_period_known_united_states_dollar_cost {
        Some(previous) => Some(decimal_text(decimal_difference(totals.known_united_states_dollar_cost@, previous@))),
        None => None,
    }
    &&& json.period_cost_state@ == totals.period_cost_state@
    &&& json.token_totals == totals.token_totals
    &&& json.session_count == totals.session_count
    &&& sessions_json_of(json.session_detail@, period.session_detail@, redact_paths, home_directory)
}

/// Whether a JSON month entry states the month group.
pub open spec fn group_json_of(
    json: JsonMonthlySessionGroup,
    group: MonthlySessionGroup,
    redact_paths: bool,
    home_directory: Option<Seq<char>>,
) -> bool {
    &&& json.local_month_start_date@ == civil_date_text(group.local_month_start_date@)
    &&& sessions_json_of(json.session_detail@, group.session_detail@, redact_paths, home_directory)
}

/// Whether a JSON notice entry states the notice.
pub open spec fn notice_json_of(
    json: JsonDataQualityNotice,
    notice: DataQualityNotice,
    redact_paths: bool,
    home_directory: Option<Seq<char>>,
) -> bool {
    &&& json.source_path@ == path_text(notice.source_path@, redact_paths, home_directory)
    &&& json.line_number == notice.line_number
    &&& json.kind@ == notice_kind_name(notice.kind)
    &&& json.detail@ == notice.detail@
}

/// Whether every period's cost change can be computed without overflow.
pub open spec fn changes_fit(summary: DerivedSummary) -> bool {
    forall|index: int| 0 <= index < summary.headline_periods@.len() ==> change_fits(
        #[trigger] summary.headline_periods@[index],
    )
}

/// Whether JSON Output states the Derived Summary: schema version, Usage Source, and each
/// period, month group and notice one for one, in order.
pub open spec fn output_of(
    json: JsonOutput,
    summary: DerivedSummary,
    options: JsonOutputOptions,
    home_directory: Option<Seq<char>>,
) -> bool {
    let redact = options.redact_paths;
    &&& json.output_schema_version == OUTPUT_SCHEMA_VERSION
    &&& json.usage_source.path@ == path_text(source_state_path(summary.current_source_state), redact, home_directory)
    &&& json.usage_source.is_readable == source_state_readable(summary.current_source_state)
    &&& json.usage_source.is_custom == source_state_custom(summary.current_source_state)
    &&& json.headline_periods@.len() == summary.headline_periods@.len()
    &&& forall|index: int| 0 <= index < json.headline_periods@.len() ==> period_json_of(
        #[trigger] json.headline_periods@[index],
        summary.headline_periods@[index],
        redact,
        home_directory,
    )
    &&& json.all_time_detail@.len() == summary.all_time_detail@.len()
    &&& forall|index: int| 0 <= index < json.all_time_detail@.len() ==> group_json_of(
        #[trigger] json.all_time_detail@[index],
        summary.all_time_detail@[index],
        redact,
        home_directory,
    )
    &&& json.data_quality_detail@.len() == summary.data_quality_notices@.len()
    &&& forall|index: int| 0 <= index < json.data_quality_detail@.len() ==> notice_json_of(
        #[trigger] json.data_quality_detail@[index],
        summary.data_quality_notices@[index],
        redact,
        home_directory,
    )
}

/// The text that follows `~` for a path below the home directory.
pub fn path_separator_prefixed(text: &str) -> (result: String)
    ensures
        result@ == separator_prefixed(text@),
{
    if text.unicode_len() == 0 {
        String::new()
    } else {
        joined("/", text)
    }
}

/// A path as JSON Output writes it.
pub fn path_json(path: &str, redact_paths: bool, home_directory: &Option<String>) -> (result: String)
    ensures
        result@ == path_text(path@, redact_paths, option_text_view(*home_directory)),
{
    if redact_paths {
        match home_directory {
            Some(home) => match path_below(path, home.as_str()) {
                Some(relative_path) => {
                    let rest = path_separator_prefixed(relative_path.as_str());
                    return joined("~", rest.as_str());
                },
                None => {},
            },
            None => {},
        }
    }
    owned(path)
}

/// The stable JSON name of a Reporting Period kind.
pub fn reporting_period_kind_json(kind: &ReportingPeriodKind) -> (result: &'static str)
    ensures
        result@ == period_kind_name(*kind),
{
    match kind {
        ReportingPeriodKind::Daily => "daily",
        ReportingPeriodKind::Weekly => "weekly",
        ReportingPeriodKind::Monthly => "monthly",
        ReportingPeriodKind::AllTime => "all_time",
    }
}

/// The stable JSON name of a Data Quality Notice kind.
pub fn data_quality_notice_kind_json(kind: &DataQualityNoticeKind) -> (result: &'static str)
    ensures
        result@ == notice_kind_name(*kind),
{
    match kind {
        DataQualityNoticeKind::ParseProblem => "parse_problem",
        DataQualityNoticeKind::UnknownSourceFormat => "unknown_source_format",
        DataQualityNoticeKind::MissingTokenSnapshot => "missing_token_snapshot",
    }
}

/// An incomplete cost reason as JSON Output writes it.
pub fn incomplete_cost_reason_json(reason: &IncompleteCostReason) -> (result: JsonIncompleteCostReason)
    ensures
        result@ == reason@,
{
    match reason {
        IncompleteCostReason::UnpricedUsage { model } => JsonIncompleteCostReason::UnpricedUsage { model: model.clone() },
        IncompleteCostReason::MissingTokenCategory { token_category } => JsonIncompleteCostReason::MissingTokenCategory {
            token_category: token_category.clone(),
        },
    }
}

/// Incomplete cost reasons as JSON Output writes them.
fn reasons_json(reasons: &Vec<IncompleteCostReason>) -> (result: Vec<JsonIncompleteCostReason>)
    ensures
        json_reason_values(result@) == reason_values(reasons@),
{
    let mut result: Vec<JsonIncompleteCostReason> = Vec::new();
    let mut index: usize = 0;
    while index < reasons.len()
        invariant
            index <= reasons.len(),
            json_reason_values(result@) =~= reason_values(reasons@).take(index as int),
        decreases reasons.len() - index,
    {
        let ghost before = result@;
        let reason = incomplete_cost_reason_json(&reasons[index]);
        result.push(reason);
        proof {
            assert(json_reason_values(result@) =~= json_reason_values(before).push(reason@));
        }
        index = index + 1;
    }
    proof {
        assert(reason_values(reasons@).take(reasons@.len() as int) =~= reason_values(reasons@));
    }
    result
}

/// A period cost state as JSON Output writes it.
pub fn period_cost_state_json(period_cost_state: &PeriodCostState) -> (result: JsonPeriodCostState)
    ensures
        result@ == period_cost_state@,
{
    match period_cost_state {
        PeriodCostState::MissingUsageSource => JsonPeriodCostState::MissingUsageSource,
        PeriodCostState::ZeroUsage => JsonPeriodCostState::ZeroUsage,
        PeriodCostState::Complete => JsonPeriodCostState::Complete,
        PeriodCostState::Partial { reasons } => JsonPeriodCostState::Partial { reasons: reasons_json(reasons) },
        PeriodCostState::Incomplete { reasons } => JsonPeriodCostState::Incomplete { reasons: reasons_json(reasons) },
    }
}

/// A session cost state as JSON Output writes it.
pub fn cost_state_json(cost_state: &CostState) -> (result: JsonCostState)
    ensures
        result@ == cost_json_of(*cost_state),
{
    match cost_state {
        CostState::Complete { united_states_dollar_cost } => JsonCostState::Complete {
            united_states_dollar_cost: decimal_to_text(*united_states_dollar_cost),
        },
        CostState::Partial { known_united_states_dollar_cost, reasons } => JsonCostState::Partial {
            known_united_states_dollar_cost: decimal_to_text(*known_united_states_dollar_cost),
            reasons: reasons_json(reasons),
        },
        CostState::Incomplete { reasons } => JsonCostState::Incomplete { reasons: reasons_json(reasons) },
    }
}

/// The Usage Source details of JSON Output.
pub fn usage_source_json(
    current_source_state: &CurrentSourceState,
    redact_paths: bool,
    home_directory: &Option<String>,
) -> (result: JsonUsageSource)
    ensures
        result.path@ == path_text(source_state_path(*current_source_state), redact_paths, option_text_view(*home_directory)),
        result.is_readable == source_state_readable(*current_source_state),
        result.is_custom == source_state_custom(*current_source_state),
{
    JsonUsageSource {
        path: path_json(current_source_state.path().as_str(), redact_paths, home_directory),
        is_readable: current_source_state.is_readable(),
        is_custom: current_source_state.is_custom(),
    }
}

/// One session as JSON Output writes it.
pub fn session_detail_json(
    priced_session: &PricedCodexSession,
    redact_paths: bool,
    home_directory: &Option<String>,
) -> (result: JsonSessionDetail)
    ensures
        session_json_of(result, *priced_session, redact_paths, option_text_view(*home_directory)),
{
    let codex = &priced_session.codex_session;
    let project_path = match &codex.project_path {
        Some(path) => Some(path_json(path.as_str(), redact_paths, home_directory)),
        None => None,
    };
    JsonSessionDetail {
        ai_coding_agent: owned(codex.ai_coding_agent.label()),
        source_path: path_json(codex.source_path.as_str(), redact_paths, home_directory),
        session_name: codex.session_name.clone(),
        session_start_time: instant_to_rfc3339(&codex.session_start_time),
        model: codex.model.clone(),
        reasoning_effort: codex.reasoning_effort.clone(),
        project_path,
        project_name: codex.project_name.clone(),
        is_active: codex.is_active,
        token_totals: codex.token_totals,
        cost_state: cost_state_json(&priced_session.cost_state),
    }
}

/// Sessions as JSON Output writes them.
fn sessions_json(
    sessions: &Vec<PricedCodexSession>,
    redact_paths: bool,
    home_directory: &Option<String>,
) -> (result: Vec<JsonSessionDetail>)
    ensures
        sessions_json_of(result@, sessions@, redact_paths, option_text_view(*home_directory)),
{
    let mut result: Vec<JsonSessionDetail> = Vec::new();
    let mut index: usize = 0;
    while index < sessions.len()
        invariant
            index <= sessions.len(),
            result@.len() == index,
            forall|earlier: int| 0 <= earlier < index ==> session_json_of(
                #[trigger] result@[earlier],
                sessions@[earlier],
                redact_paths,
                option_text_view(*home_directory),
            ),
        decreases sessions.len() - index,
    {
        result.push(session_detail_json(&sessions[index], redact_paths, home_directory));
        index = index + 1;
    }
    result
}

/// The text of an optional date.
fn date_json(date: &Option<CivilDate>) -> (result: Option<String>)
    ensures
        option_text_view(result) == date_text_of(*date),
{
    match date {
        Some(value) => Some(date_to_text(value)),
        None => None,
    }
}

/// The change in known cost from the previous period, as `Decimal` text, when there is a
/// previous period.
pub fn known_united_states_dollar_cost_change_from_previous_period_json(headline_period: &HeadlinePeriod) -> (result: Option<String>)
    requires
        change_fits(*headline_period),
    ensures
        option_text_view(result) == match headline_period.previous_period_known_united_states_dollar_cost {
            Some(previous) => Some(
                decimal_text(decimal_difference(headline_period.summary_totals.known_united_states_dollar_cost@, previous@)),
            ),
            None => None,
        },
{
    match headline_period.previous_period_known_united_states_dollar_cost {
        Some(previous) => Some(
            decimal_to_text(decimal_subtract(headline_period.summary_totals.known_united_states_dollar_cost, previous)),
        ),
        None => None,
    }
}

/// One Headline Period as JSON Output writes it.
fn headline_period_json(
    period: &HeadlinePeriod,
    redact_paths: bool,
    home_directory: &Option<String>,
) -> (result: JsonHeadlinePeriod)
    requires
        change_fits(*period),
    ensures
        period_json_of(result, *period, redact_paths, option_text_view(*home_directory)),
{
    let totals = &period.summary_totals;
    let previous = match period.previous_period_known_united_states_dollar_cost {
        Some(cost) => Some(decimal_to_text(cost)),
        None => None,
    };
    JsonHeadlinePeriod {
        kind: owned(reporting_period_kind_json(&period.kind)),
        local_start_date: date_json(&period.local_start_date),
        local_end_date: date_json(&period.local_end_date),
        known_united_states_dollar_cost: decimal_to_text(totals.known_united_states_dollar_cost),
        previous_period_known_united_states_dollar_cost: previous,
        known_united_states_dollar_cost_change_from_previous_period:
            known_united_states_dollar_cost_change_from_previous_period_json(period),
        period_cost_state: period_cost_state_json(&totals.period_cost_state),
        token_totals: totals.token_totals,
        session_count: totals.session_count,
        session_detail: sessions_json(&period.session_detail, redact_paths, home_directory),
    }
}

/// Builds JSON Output from the same Derived Summary used by terminal presentation, with
/// the home directory that redaction writes as `~`.
pub fn build_json_output(
    derived_summary: &DerivedSummary,
    options: JsonOutputOptions,
    home_directory: &Option<String>,
) -> (result: JsonOutput)
    requires
        changes_fit(*derived_summary),
    ensures
        output_of(result, *derived_summary, options, option_text_view(*home_directory)),
{
    let redact = options.redact_paths;
    let mut headline_periods: Vec<JsonHeadlinePeriod> = Vec::new();
    let mut index: usize = 0;
    while index < derived_summary.headline_periods.len()
        invariant
            index <= derived_summary.headline_periods.len(),
            redact == options.redact_paths,
            changes_fit(*derived_summary),
            headline_periods@.len() == index,
            forall|earlier: int| 0 <= earlier < index ==> period_json_of(
                #[trigger] headline_periods@[earlier],
                derived_summary.headline_periods@[earlier],
                redact,
                option_text_view(*home_directory),
            ),
        decreases derived_summary.headline_periods.len() - index,
    {
        proof {
            assert(change_fits(derived_summary.headline_periods@[index as int]));
        }
        headline_periods.push(headline_period_json(&derived_summary.headline_periods[index], redact, home_directory));
        index = index + 1;
    }
    let mut all_time_detail: Vec<JsonMonthlySessionGroup> = Vec::new();
    let mut group_index: usize = 0;
    while group_index < derived_summary.all_time_detail.len()
        invariant
            group_index <= derived_summary.all_time_detail.len(),
            redact == options.redact_paths,
            all_time_detail@.len() == group_index,
            forall|earlier: int| 0 <= earlier < group_index ==> group_json_of(
                #[trigger] all_time_detail@[earlier],
                derived_summary.all_time_detail@[earlier],
                redact,
                option_text_view(*home_directory),
            ),
        decreases derived_summary.all_time_detail.len() - group_index,
    {
        let group = &derived_summary.all_time_detail[group_index];
        all_time_detail.push(
            JsonMonthlySessionGroup {
                local_month_start_date: date_to_text(&group.local_month_start_date),
                session_detail: sessions_json(&group.session_detail, redact, home_directory),
            },
        );
        group_index = group_index + 1;
    }
    let mut data_quality_detail: Vec<JsonDataQualityNotice> = Vec::new();
    let mut notice_index: usize = 0;
    while notice_index < derived_summary.data_quality_notices.len()
        invariant
            notice_index <= derived_summary.data_quality_notices.len(),
            redact == options.redact_paths,
            data_quality_detail@.len() == notice_index,
            forall|earlier: int| 0 <= earlier < notice_index ==> notice_json_of(
                #[trigger] data_quality_detail@[earlier],
                derived_summary.data_quality_notices@[earlier],
                redact,
                option_text_view(*home_directory),
            ),
        decreases derived_summary.data_quality_notices.len() - notice_index,
    {
        let notice = &derived_summary.data_quality_notices[notice_index];
        data_quality_detail.push(
            JsonDataQualityNotice {
                source_path: path_json(notice.source_path.as_str(), redact, home_directory),
                line_number: notice.line_number,
                kind: owned(data_quality_notice_kind_json(&notice.kind)),
                detail: notice.detail.clone(),
            },
        );
        notice_index = notice_index + 1;
    }
    JsonOutput {
        output_schema_version: OUTPUT_SCHEMA_VERSION,
        usage_source: usage_source_json(&derived_summary.current_source_state, redact, home_directory),
        headline_periods,
        all_time_detail,
        data_quality_detail,
    }
}

/// Without redaction, JSON Output writes every path as it is.
pub proof fn law_paths_unchanged_without_redaction(path: Seq<char>, home_directory: Option<Seq<char>>)
    ensures
        path_text(path, false, home_directory) == path,
{
}

/// With redaction, a path below the home directory is written from `~`, followed by what
/// lies below the home directory; any other path is written as it is.
pub proof fn law_redaction_writes_home_as_tilde(path: Seq<char>, home: Seq<char>)
    ensures
        std_path_stripped(path, home) matches Some(rest) ==> path_text(path, true, Some(home)) == "~"@
            + separator_prefixed(rest) && path_text(path, true, Some(home))[0] == '~',
        std_path_stripped(path, home) is None ==> path_text(path, true, Some(home)) == path,
{
    reveal_strlit("~");
}

/// Whether every period's cost change can be computed without overflow.
pub fn summary_changes_fit(derived_summary: &DerivedSummary) -> (result: bool)
    ensures
        result == changes_fit(*derived_summary),
{
    let mut index: usize = 0;
    while index < derived_summary.headline_periods.len()
        invariant
            index <= derived_summary.headline_periods.len(),
            forall|earlier: int| 0 <= earlier < index ==> change_fits(#[trigger] derived_summary.headline_periods@[earlier]),
        decreases derived_summary.headline_periods.len() - index,
    {
        if !cost_change_fits(&derived_summary.headline_periods[index]) {
            return false;
        }
        index = index + 1;
    }
    true
}

/// Each headline period of JSON Output is named by its own period's kind: `daily` for Daily,
/// `weekly` for Weekly, `monthly` for Monthly and `all_time` for All Time.
pub proof fn law_json_period_kind_names(
    json: JsonOutput,
    summary: DerivedSummary,
    options: JsonOutputOptions,
    home_directory: Option<Seq<char>>,
)
    requires
        output_of(json, summary, options, home_directory),
    ensures
        forall|index: int|
            0 <= index < json.headline_periods@.len() ==> {
                let kind = summary.headline_periods@[index].kind;
                let name = (#[trigger] json.headline_periods@[index]).kind@;
                &&& kind == ReportingPeriodKind::Daily ==> name == "daily"@
                &&& kind == ReportingPeriodKind::Weekly ==> name == "weekly"@
                &&& kind == ReportingPeriodKind::Monthly ==> name == "monthly"@
                &&& kind == ReportingPeriodKind::AllTime ==> name == "all_time"@
            },
{
    assert forall|index: int| 0 <= index < json.headline_periods@.len() implies {
        let kind = summary.headline_periods@[index].kind;
        let name = (#[trigger] json.headline_periods@[index]).kind@;
        &&& kind == ReportingPeriodKind::Daily ==> name == "daily"@
        &&& kind == ReportingPeriodKind::Weekly ==> name == "weekly"@
        &&& kind == ReportingPeriodKind::Monthly ==> name == "monthly"@
        &&& kind == ReportingPeriodKind::AllTime ==> name == "all_time"@
    } by {
        assert(period_json_of(json.headline_periods@[index], summary.headline_periods@[index], options.redact_paths, home_directory));
    }
}

/// Each Data Quality notice of JSON Output is named by its own kind: `parse_problem`,
/// `unknown_source_format` or `missing_token_snapshot`.
pub proof fn law_json_notice_kind_names(
    json: JsonOutput,
    summary: DerivedSummary,
    options: JsonOutputOptions,
    home_directory: Option<Seq<char>>,
)
    requires
        output_of(json, summary, options, home_directory),
    ensures
        forall|index: int|
            0 <= index < json.data_quality_detail@.len() ==> {
                let kind = summary.data_quality_notices@[index].kind;
                let name = (#[trigger] json.data_quality_detail@[index]).kind@;
                &&& kind == DataQualityNoticeKind::ParseProblem ==> name == "parse_problem"@
                &&& kind == DataQualityNoticeKind::UnknownSourceFormat ==> name == "unknown_source_format"@
                &&& kind == DataQualityNoticeKind::MissingTokenSnapshot ==> name == "missing_token_snapshot"@
            },
{
    assert forall|index: int| 0 <= index < json.data_quality_detail@.len() implies {
        let kind = summary.data_quality_notices@[index].kind;
        let name = (#[trigger] json.data_quality_detail@[index]).kind@;
        &&& kind == DataQualityNoticeKind::ParseProblem ==> name == "parse_problem"@
        &&& kind == DataQualityNoticeKind::UnknownSourceFormat ==> name == "unknown_source_format"@
        &&& kind == DataQualityNoticeKind::MissingTokenSnapshot ==> name == "missing_token_snapshot"@
    } by {
        assert(notice_json_of(json.data_quality_detail@[index], summary.data_quality_notices@[index], options.redact_paths, home_directory));
    }
}

} // verus!
