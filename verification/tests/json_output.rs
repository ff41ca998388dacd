use ai_usage::cost::{CostState, IncompleteCostReason, PriceScheduleMatch, PricedCodexSession};
use ai_usage::money::UsdAmount;
use ai_usage::output::{
    build_json_output, path_json, JsonCostState, JsonIncompleteCostReason, JsonOutputOptions, JsonPeriodCostState,
    OUTPUT_SCHEMA_VERSION,
};
use ai_usage::reporting_period::{DerivedSummary, HeadlinePeriod, MonthlySessionGroup, PeriodCostState, ReportingPeriodKind, SummaryTotals};
use ai_usage::session::{AiCodingAgent, CodexSession, DataQualityNotice, DataQualityNoticeKind, TokenTotals};
use ai_usage::time::{CivilDate, UtcInstant};
use ai_usage::usage_source::CurrentSourceState;
use chrono::{TimeZone, Utc};
use rust_decimal::Decimal;

fn amount(text: &str) -> UsdAmount {
    let value = Decimal::from_str_exact(text).unwrap();
    UsdAmount::from_parts(value.mantissa(), value.scale()).expect("amount")
}

fn priced_session(source_path: &str, project_path: &str) -> PricedCodexSession {
    let start = Utc.with_ymd_and_hms(2026, 5, 10, 10, 0, 0).unwrap();
    PricedCodexSession {
        codex_session: CodexSession {
            ai_coding_agent: AiCodingAgent::Codex,
            source_path: source_path.to_owned(),
            session_name: Some("JSON Session Name".to_owned()),
            session_start_time: UtcInstant::from_timestamp(start.timestamp(), 0).unwrap(),
            session_last_modified_time: None,
            model: "gpt-5.5".to_owned(),
            reasoning_effort: None,
            project_path: Some(project_path.to_owned()),
            project_name: Some("sessions".to_owned()),
            is_active: false,
            token_totals: TokenTotals {
                input_tokens: Some(10),
                output_tokens: Some(5),
                total_tokens: Some(15),
                ..TokenTotals::default()
            },
        },
        cost_state: CostState::Complete { united_states_dollar_cost: UsdAmount::from_whole(2) },
        price_schedule_match: Some(PriceScheduleMatch {
            model: "gpt-5.5".to_owned(),
            effective_date: CivilDate::from_ymd(2026, 1, 1).unwrap(),
            input_tokens_per_million: amount("5.000"),
            cache_read_tokens_per_million: amount("0.500"),
            cache_write_tokens_per_million: amount("5.000"),
            output_tokens_per_million: amount("30.000"),
            reasoning_output_tokens_per_million: None,
        }),
    }
}

fn summary(home: &str) -> DerivedSummary {
    let source_path = format!("{home}/.codex/sessions/session.jsonl");
    let sessions_directory = format!("{home}/.codex/sessions");
    let priced_session = priced_session(&source_path, &sessions_directory);
    DerivedSummary {
        current_source_state: CurrentSourceState::Readable { path: sessions_directory.clone(), is_custom: false },
        headline_periods: vec![HeadlinePeriod {
            kind: ReportingPeriodKind::AllTime,
            local_start_date: None,
            local_end_date: None,
            summary_totals: SummaryTotals {
                known_united_states_dollar_cost: UsdAmount::from_whole(2),
                period_cost_state: PeriodCostState::Complete,
                token_totals: priced_session.codex_session.token_totals,
                session_count: 1,
            },
            previous_period_known_united_states_dollar_cost: None,
            session_detail: vec![priced_session],
        }],
        all_time_detail: Vec::new(),
        data_quality_notices: vec![DataQualityNotice {
            source_path,
            line_number: Some(1),
            kind: DataQualityNoticeKind::ParseProblem,
            detail: "invalid JSONL record".to_owned(),
        }],
    }
}

#[test]
fn json_output_includes_schema_paths_data_quality_and_summary_parity() {
    let home = Some("/home/person".to_owned());
    let derived_summary = summary("/home/person");

    let normal_output = build_json_output(&derived_summary, JsonOutputOptions { redact_paths: false }, &home);
    let redacted_output = build_json_output(&derived_summary, JsonOutputOptions { redact_paths: true }, &home);

    assert_eq!(normal_output.output_schema_version, OUTPUT_SCHEMA_VERSION);
    assert_eq!(normal_output.output_schema_version, 3);
    assert_eq!(normal_output.usage_source.path, "/home/person/.codex/sessions");
    assert_eq!(normal_output.headline_periods[0].session_count, 1);
    assert_eq!(normal_output.headline_periods[0].session_detail[0].ai_coding_agent, "Codex");
    assert_eq!(
        normal_output.headline_periods[0].session_detail[0].session_name.as_deref(),
        Some("JSON Session Name")
    );
    assert_eq!(normal_output.headline_periods[0].known_united_states_dollar_cost, "2");
    assert_eq!(normal_output.headline_periods[0].previous_period_known_united_states_dollar_cost, None);
    assert_eq!(normal_output.headline_periods[0].known_united_states_dollar_cost_change_from_previous_period, None);
    assert_eq!(normal_output.data_quality_detail[0].kind, "parse_problem");
    assert!(redacted_output.usage_source.path.starts_with('~'));
    assert_eq!(redacted_output.usage_source.path, "~/.codex/sessions");
    assert_eq!(redacted_output.data_quality_detail[0].source_path, "~/.codex/sessions/session.jsonl");
    assert_eq!(normal_output.headline_periods[0].kind, "all_time");
    assert_eq!(normal_output.headline_periods[0].session_detail[0].session_start_time, "2026-05-10T10:00:00+00:00");
}

#[test]
fn redaction_leaves_paths_outside_home_and_home_itself() {
    let home = Some("/home/person".to_owned());
    assert_eq!(path_json("/srv/data/x.jsonl", true, &home), "/srv/data/x.jsonl");
    assert_eq!(path_json("/home/person", true, &home), "~");
    assert_eq!(path_json("/home/person/a", false, &home), "/home/person/a");
    assert_eq!(path_json("/home/person/a", true, &None), "/home/person/a");
}

#[test]
fn cost_changes_and_states_are_written_as_decimals() {
    let mut derived_summary = summary("/home/person");
    derived_summary.headline_periods[0].kind = ReportingPeriodKind::Weekly;
    derived_summary.headline_periods[0].local_start_date = CivilDate::from_ymd(2026, 5, 4);
    derived_summary.headline_periods[0].previous_period_known_united_states_dollar_cost = Some(amount("3.50"));
    derived_summary.headline_periods[0].summary_totals.period_cost_state = PeriodCostState::Partial {
        reasons: vec![IncompleteCostReason::UnpricedUsage { model: "mystery".to_owned() }],
    };
    derived_summary.headline_periods[0].session_detail[0].cost_state = CostState::Incomplete {
        reasons: vec![IncompleteCostReason::MissingTokenCategory { token_category: "Output Tokens".to_owned() }],
    };
    derived_summary.all_time_detail = vec![MonthlySessionGroup {
        local_month_start_date: CivilDate::from_ymd(2026, 5, 1).unwrap(),
        session_detail: Vec::new(),
    }];
    let output = build_json_output(&derived_summary, JsonOutputOptions { redact_paths: false }, &None);
    let period = &output.headline_periods[0];
    assert_eq!(period.kind, "weekly");
    assert_eq!(period.local_start_date.as_deref(), Some("2026-05-04"));
    assert_eq!(period.previous_period_known_united_states_dollar_cost.as_deref(), Some("3.50"));
    assert_eq!(period.known_united_states_dollar_cost_change_from_previous_period.as_deref(), Some("-1.50"));
    assert!(matches!(
        &period.period_cost_state,
        JsonPeriodCostState::Partial { reasons } if matches!(&reasons[0], JsonIncompleteCostReason::UnpricedUsage { model } if model == "mystery")
    ));
    assert!(matches!(&period.session_detail[0].cost_state, JsonCostState::Incomplete { reasons } if reasons.len() == 1));
    assert_eq!(output.all_time_detail[0].local_month_start_date, "2026-05-01");
}
