use ai_usage::cost::{price_session, CostState, IncompleteCostReason};
use ai_usage::price_catalog::PriceCatalog;
use ai_usage::reporting_period::build_derived_summary_at;
use ai_usage::session::{AiCodingAgent, CodexSession, TokenTotals};
use ai_usage::terminal_interface::{session_table_column_constraints, KeyInput, TerminalInterfaceState};
use ai_usage::time::{CivilDate, UtcInstant};
use ai_usage::usage_source::CurrentSourceState;
use chrono::{TimeZone, Utc};

fn session(model: &str, day: u32) -> CodexSession {
    let start = Utc.with_ymd_and_hms(2026, 5, day, 12, 0, 0).unwrap();
    CodexSession {
        ai_coding_agent: AiCodingAgent::Pi,
        source_path: format!("/s/{model}-{day}.jsonl"),
        session_name: None,
        session_start_time: UtcInstant::from_timestamp(start.timestamp(), 0).unwrap(),
        session_last_modified_time: None,
        model: model.to_owned(),
        reasoning_effort: None,
        project_path: None,
        project_name: None,
        is_active: false,
        token_totals: TokenTotals { input_tokens: Some(4), output_tokens: Some(6), total_tokens: Some(10), ..TokenTotals::default() },
    }
}

#[test]
fn unpriced_usage_is_never_a_zero_complete_cost() {
    let state = price_session(&session("made-up-model", 10), &PriceCatalog::bundled());
    assert_eq!(
        state,
        CostState::Incomplete { reasons: vec![IncompleteCostReason::UnpricedUsage { model: "made-up-model".to_owned() }] }
    );
}

#[test]
fn all_time_period_counts_every_session_and_keys_keep_selection_valid() {
    let catalog = PriceCatalog::bundled();
    let sessions: Vec<_> = [1u32, 5, 10]
        .iter()
        .map(|day| {
            let codex_session = session("gpt-5.5", *day);
            ai_usage::cost::PricedCodexSession {
                cost_state: price_session(&codex_session, &catalog),
                price_schedule_match: None,
                codex_session,
            }
        })
        .collect();
    let summary = build_derived_summary_at(
        CurrentSourceState::Readable { path: "/s".to_owned(), is_custom: false },
        sessions,
        Vec::new(),
        CivilDate::from_ymd(2026, 5, 10).unwrap(),
    );
    assert_eq!(summary.headline_periods[3].summary_totals.session_count, 3);
    assert!(summary.headline_periods[3].previous_period_known_united_states_dollar_cost.is_none());
    for period in &summary.headline_periods {
        assert!(period.summary_totals.session_count <= 3);
    }

    let mut state = TerminalInterfaceState::new(&summary);
    let keys = [KeyInput::Down, KeyInput::Down, KeyInput::Down, KeyInput::Down, KeyInput::Left, KeyInput::Up, KeyInput::Right];
    for key in keys {
        state.handle_key_code(key, &summary);
        let period = &summary.headline_periods[state.selected_headline_period_index];
        assert!(state.selected_session_index < period.session_detail.len().max(1));
    }
}

#[test]
fn columns_fill_every_wide_panel() {
    for width in 94u16..400 {
        let widths = session_table_column_constraints(width);
        assert_eq!(widths.iter().sum::<u16>() + 7, width);
    }
}
