use ai_usage::application::derive_summary_from_inventory;
use ai_usage::reporting_period::{DerivedSummary, ReportingPeriodKind};
use ai_usage::session::{AiCodingAgent, CodexSession, ParsedUsage, TokenTotals};
use ai_usage::time::UtcInstant;
use ai_usage::usage_source::{CurrentSourceState, UsageSourceInventory};
use chrono::{TimeZone, Utc};

fn inventory() -> UsageSourceInventory {
    UsageSourceInventory {
        current_source_state: CurrentSourceState::Readable { path: "/tmp/source".to_owned(), is_custom: true },
        roots: Vec::new(),
        artifacts: Vec::new(),
    }
}

fn parsed(project_name: &str, output_tokens: u64) -> ParsedUsage {
    let start = Utc.with_ymd_and_hms(2026, 5, 10, 10, 0, 0).unwrap();
    ParsedUsage {
        codex_sessions: vec![CodexSession {
            ai_coding_agent: AiCodingAgent::Codex,
            source_path: format!("/tmp/source/{project_name}.jsonl"),
            session_name: None,
            session_start_time: UtcInstant::from_timestamp(start.timestamp(), 0).unwrap(),
            session_last_modified_time: None,
            model: "gpt-5.5".to_owned(),
            reasoning_effort: None,
            project_path: Some(format!("/tmp/{project_name}")),
            project_name: Some(project_name.to_owned()),
            is_active: true,
            token_totals: TokenTotals {
                input_tokens: Some(10),
                output_tokens: Some(output_tokens),
                total_tokens: Some(10 + output_tokens),
                ..TokenTotals::default()
            },
        }],
        data_quality_notices: Vec::new(),
    }
}

fn all_time_session_count(derived_summary: &DerivedSummary) -> usize {
    derived_summary
        .headline_periods
        .iter()
        .find(|period| period.kind == ReportingPeriodKind::AllTime)
        .map(|period| period.summary_totals.session_count)
        .unwrap_or(0)
}

#[test]
fn deriving_summary_again_reflects_current_source_state_changes() {
    let first_summary = derive_summary_from_inventory(&inventory(), parsed("first", 10)).expect("first summary");
    assert_eq!(all_time_session_count(&first_summary), 1);

    let reloaded_summary = derive_summary_from_inventory(&inventory(), parsed("second", 20)).expect("reloaded summary");
    assert_eq!(all_time_session_count(&reloaded_summary), 1);
    assert_eq!(
        reloaded_summary
            .headline_periods
            .iter()
            .find(|period| period.kind == ReportingPeriodKind::AllTime)
            .and_then(|period| period.session_detail.first())
            .and_then(|priced_session| priced_session.codex_session.project_name.as_deref()),
        Some("second")
    );
    assert_eq!(reloaded_summary.current_source_state, inventory().current_source_state);
}

#[test]
fn sessions_are_priced_with_the_bundled_catalog() {
    let summary = derive_summary_from_inventory(&inventory(), parsed("priced", 20)).expect("summary");
    let all_time = &summary.headline_periods[3];
    assert!(all_time.session_detail[0].price_schedule_match.is_some());
}
