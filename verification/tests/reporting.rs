use ai_usage::cost::{CostState, PriceScheduleMatch, PricedCodexSession};
use ai_usage::money::UsdAmount;
use ai_usage::reporting_period::{
    build_derived_summary_at, build_derived_summary_on, supports_current_date, PeriodCostState, ReportingPeriodKind,
};
use ai_usage::session::{AiCodingAgent, CodexSession, TokenTotals};
use ai_usage::time::{CivilDate, UtcInstant};
use ai_usage::usage_source::CurrentSourceState;
use chrono::{DateTime, Local, TimeZone, Utc};
use rust_decimal::Decimal;

fn instant_of(time: DateTime<Utc>) -> UtcInstant {
    UtcInstant::from_timestamp(time.timestamp(), time.timestamp_subsec_nanos()).expect("representable instant")
}

fn local(year: i32, month: u32, day: u32, hour: u32, minute: u32) -> UtcInstant {
    instant_of(Local.with_ymd_and_hms(year, month, day, hour, minute, 0).unwrap().with_timezone(&Utc))
}

fn amount(text: &str) -> UsdAmount {
    let value = Decimal::from_str_exact(text).unwrap();
    UsdAmount::from_parts(value.mantissa(), value.scale()).expect("amount")
}

fn date(year: i32, month: u32, day: u32) -> CivilDate {
    CivilDate::from_ymd(year, month, day).unwrap()
}

fn readable_source() -> CurrentSourceState {
    CurrentSourceState::Readable { path: "source".to_owned(), is_custom: false }
}

fn priced_session(project_name: &str, session_start_time: UtcInstant, output_tokens: u64) -> PricedCodexSession {
    PricedCodexSession {
        codex_session: CodexSession {
            ai_coding_agent: AiCodingAgent::Codex,
            source_path: format!("{project_name}.jsonl"),
            session_name: Some(format!("{project_name} session")),
            session_start_time,
            session_last_modified_time: None,
            model: "gpt-5.5".to_owned(),
            reasoning_effort: None,
            project_path: Some(format!("/tmp/{project_name}")),
            project_name: Some(project_name.to_owned()),
            is_active: false,
            token_totals: TokenTotals {
                input_tokens: Some(10),
                output_tokens: Some(output_tokens),
                total_tokens: Some(10 + output_tokens),
                ..TokenTotals::default()
            },
        },
        cost_state: CostState::Complete { united_states_dollar_cost: UsdAmount::from_whole(output_tokens) },
        price_schedule_match: Some(PriceScheduleMatch {
            model: "gpt-5.5".to_owned(),
            effective_date: date(2026, 1, 1),
            input_tokens_per_million: amount("5.000"),
            cache_read_tokens_per_million: amount("0.500"),
            cache_write_tokens_per_million: amount("5.000"),
            output_tokens_per_million: amount("30.000"),
            reasoning_output_tokens_per_million: None,
        }),
    }
}

#[test]
fn produces_headline_periods_with_local_calendar_membership() {
    let sessions = vec![
        priced_session("late", local(2026, 5, 10, 23, 30), 20),
        priced_session("week", local(2026, 5, 4, 1, 0), 10),
        priced_session("month", local(2026, 5, 1, 1, 0), 5),
        priced_session("old", local(2026, 4, 30, 23, 0), 1),
    ];

    let derived_summary = build_derived_summary_at(readable_source(), sessions, Vec::new(), date(2026, 5, 10));

    assert_eq!(derived_summary.headline_periods.len(), 4);
    assert_eq!(derived_summary.headline_periods[0].kind, ReportingPeriodKind::Daily);
    assert_eq!(derived_summary.headline_periods[0].summary_totals.session_count, 1);
    assert_eq!(
        derived_summary.headline_periods[0].previous_period_known_united_states_dollar_cost,
        Some(UsdAmount::zero())
    );
    assert_eq!(derived_summary.headline_periods[1].local_start_date, Some(date(2026, 5, 4)));
    assert_eq!(derived_summary.headline_periods[1].summary_totals.session_count, 2);
    assert_eq!(
        derived_summary.headline_periods[1].previous_period_known_united_states_dollar_cost,
        Some(UsdAmount::from_whole(6))
    );
    assert_eq!(derived_summary.headline_periods[2].summary_totals.session_count, 3);
    assert_eq!(
        derived_summary.headline_periods[2].previous_period_known_united_states_dollar_cost,
        Some(UsdAmount::from_whole(1))
    );
    assert_eq!(derived_summary.headline_periods[3].summary_totals.session_count, 4);
    assert_eq!(derived_summary.headline_periods[3].previous_period_known_united_states_dollar_cost, None);
    assert_eq!(
        derived_summary.headline_periods[3].session_detail[0].codex_session.project_name.as_deref(),
        Some("late")
    );
    assert_eq!(derived_summary.all_time_detail[0].local_month_start_date, date(2026, 5, 1));
}

#[test]
fn empty_readable_period_is_zero_usage_and_missing_source_is_missing() {
    let empty_summary = build_derived_summary_at(readable_source(), Vec::new(), Vec::new(), date(2026, 5, 10));
    let missing_summary = build_derived_summary_at(
        CurrentSourceState::Missing { path: "source".to_owned(), is_custom: false },
        Vec::new(),
        Vec::new(),
        date(2026, 5, 10),
    );

    assert_eq!(empty_summary.headline_periods[0].summary_totals.period_cost_state, PeriodCostState::ZeroUsage);
    assert_eq!(
        missing_summary.headline_periods[0].summary_totals.period_cost_state,
        PeriodCostState::MissingUsageSource
    );
}

#[test]
fn session_detail_sorts_by_display_time() {
    let mut session_with_older_display_time = priced_session("older-display-time", local(2026, 5, 10, 10, 5), 10);
    session_with_older_display_time.codex_session.session_last_modified_time = Some(local(2026, 5, 10, 10, 20));
    let mut session_with_newer_display_time = priced_session("newer-display-time", local(2026, 5, 10, 10, 0), 20);
    session_with_newer_display_time.codex_session.session_last_modified_time = Some(local(2026, 5, 10, 10, 22));

    let derived_summary = build_derived_summary_at(
        readable_source(),
        vec![session_with_older_display_time, session_with_newer_display_time],
        Vec::new(),
        date(2026, 5, 10),
    );

    assert_eq!(
        derived_summary.headline_periods[3].session_detail[0].codex_session.project_name.as_deref(),
        Some("newer-display-time")
    );
}

#[test]
fn all_time_detail_groups_months_newest_first() {
    let sessions = vec![
        priced_session("april", local(2026, 4, 12, 9, 0), 1),
        priced_session("may-early", local(2026, 5, 2, 9, 0), 2),
        priced_session("may-late", local(2026, 5, 9, 9, 0), 3),
    ];
    let derived_summary = build_derived_summary_at(readable_source(), sessions, Vec::new(), date(2026, 5, 10));

    assert_eq!(derived_summary.all_time_detail.len(), 2);
    assert_eq!(derived_summary.all_time_detail[0].local_month_start_date, date(2026, 5, 1));
    assert_eq!(derived_summary.all_time_detail[0].session_detail.len(), 2);
    assert_eq!(
        derived_summary.all_time_detail[0].session_detail[0].codex_session.project_name.as_deref(),
        Some("may-late")
    );
    assert_eq!(derived_summary.all_time_detail[1].local_month_start_date, date(2026, 4, 1));
    assert_eq!(derived_summary.headline_periods[3].summary_totals.known_united_states_dollar_cost, UsdAmount::from_whole(6));
    assert_eq!(derived_summary.headline_periods[3].summary_totals.token_totals.total_tokens, Some(36));
}

#[test]
fn partial_and_incomplete_sessions_mark_the_period() {
    let mut partial = priced_session("partial", local(2026, 5, 10, 9, 0), 2);
    partial.cost_state = CostState::Partial {
        known_united_states_dollar_cost: UsdAmount::from_whole(2),
        reasons: vec![ai_usage::cost::IncompleteCostReason::MissingTokenCategory {
            token_category: "Output Tokens".to_owned(),
        }],
    };
    let derived_summary = build_derived_summary_at(readable_source(), vec![partial], Vec::new(), date(2026, 5, 10));
    assert!(matches!(
        derived_summary.headline_periods[0].summary_totals.period_cost_state,
        PeriodCostState::Partial { .. }
    ));
}

#[test]
fn summaries_are_built_on_any_date_with_room_for_the_periods() {
    let ordinary = build_derived_summary_on(readable_source(), Vec::new(), Vec::new(), date(2026, 5, 10));
    assert!(ordinary.is_some());
    assert!(supports_current_date(&date(2026, 5, 10)));
    let last_day = date(262142, 12, 31);
    assert!(!supports_current_date(&last_day));
    assert!(build_derived_summary_on(readable_source(), Vec::new(), Vec::new(), last_day).is_none());
    assert!(supports_current_date(&date(262142, 12, 20)));
    assert!(!supports_current_date(&date(-262143, 1, 3)));
    assert!(supports_current_date(&date(-262143, 2, 20)));
}
