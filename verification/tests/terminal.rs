use ai_usage::cost::{CostState, PriceScheduleMatch, PricedCodexSession};
use ai_usage::money::UsdAmount;
use ai_usage::reporting_period::{build_derived_summary_at, ReportingPeriodKind};
use ai_usage::session::{AiCodingAgent, CodexSession, TokenTotals};
use ai_usage::terminal_interface::{
    data_quality_summary_label, format_signed_united_states_dollar_cost,
    format_united_states_dollar_price_per_million_tokens, offset_index, previous_period_comparison_label,
    reporting_period_label, session_cost_label, session_pricing_label, session_status_label, session_table_column_constraints,
    session_table_header, session_table_separator, session_time_label, visible_session_start_index, KeyInput,
    TerminalAction, TerminalInterfaceState,
};
use ai_usage::terminal_interface::{cost_change_fits, period_cost_change_direction, period_cost_change_label, CostChangeDirection};
use ai_usage::time::{CivilDate, UtcInstant};
use ai_usage::usage_source::CurrentSourceState;
use chrono::{DateTime, Local, TimeZone, Utc};
use rust_decimal::Decimal;

fn instant_of(time: DateTime<Utc>) -> UtcInstant {
    UtcInstant::from_timestamp(time.timestamp(), time.timestamp_subsec_nanos()).expect("representable instant")
}

fn amount(text: &str) -> UsdAmount {
    let value = Decimal::from_str_exact(text).unwrap();
    UsdAmount::from_parts(value.mantissa(), value.scale()).expect("amount")
}

fn date(year: i32, month: u32, day: u32) -> CivilDate {
    CivilDate::from_ymd(year, month, day).unwrap()
}

fn price_schedule_match() -> PriceScheduleMatch {
    PriceScheduleMatch {
        model: "gpt-5.5".to_owned(),
        effective_date: date(2026, 1, 1),
        input_tokens_per_million: amount("5.000"),
        cache_read_tokens_per_million: amount("0.500"),
        cache_write_tokens_per_million: amount("5.000"),
        output_tokens_per_million: amount("30.000"),
        reasoning_output_tokens_per_million: None,
    }
}

fn priced_session(project_name: &str, is_active: bool, cost_state: CostState) -> PricedCodexSession {
    let minute = if project_name == "newer" { 2 } else { 1 };
    PricedCodexSession {
        codex_session: CodexSession {
            ai_coding_agent: AiCodingAgent::Codex,
            source_path: format!("{project_name}.jsonl"),
            session_name: Some(format!("{project_name} session")),
            session_start_time: instant_of(Utc.with_ymd_and_hms(2026, 5, 10, 10, minute, 0).unwrap()),
            session_last_modified_time: None,
            model: "gpt-5.5".to_owned(),
            reasoning_effort: None,
            project_path: Some(format!("/tmp/{project_name}")),
            project_name: Some(project_name.to_owned()),
            is_active,
            token_totals: TokenTotals {
                input_tokens: Some(10),
                non_cached_input_tokens: Some(8),
                cache_read_tokens: Some(2),
                output_tokens: Some(5),
                total_tokens: Some(15),
                ..TokenTotals::default()
            },
        },
        cost_state,
        price_schedule_match: Some(price_schedule_match()),
    }
}

fn complete(units: u64) -> CostState {
    CostState::Complete { united_states_dollar_cost: UsdAmount::from_whole(units) }
}

fn readable_source() -> CurrentSourceState {
    CurrentSourceState::Readable { path: "source".to_owned(), is_custom: false }
}

#[test]
fn session_table_columns_use_full_available_width() {
    let column_widths = session_table_column_constraints(140);
    let total_column_width = column_widths.iter().sum::<u16>();
    let spacing_width = 1 * (column_widths.len().saturating_sub(1) as u16);

    assert_eq!(total_column_width + spacing_width, 140);
    assert_eq!(column_widths, vec![12, 13, 16, 12, 20, 13, 30, 17]);
}

#[test]
fn narrow_panels_keep_least_column_widths() {
    assert_eq!(session_table_column_constraints(80), vec![6, 7, 10, 6, 14, 7, 25, 12]);
    assert_eq!(session_table_column_constraints(0), vec![6, 7, 10, 6, 14, 7, 25, 12]);
    assert_eq!(session_table_column_constraints(95), vec![7, 7, 10, 6, 14, 7, 25, 12]);
}

#[test]
fn session_time_label_prefers_last_modified_time() {
    let mut priced_session = priced_session("modified-time", false, complete(1));
    let session_start_time = Utc.with_ymd_and_hms(2026, 5, 10, 10, 0, 0).unwrap();
    let session_last_modified_time = Utc.with_ymd_and_hms(2026, 5, 10, 11, 30, 0).unwrap();
    priced_session.codex_session.session_start_time = instant_of(session_start_time);
    priced_session.codex_session.session_last_modified_time = Some(instant_of(session_last_modified_time));

    let start_time_label = session_start_time.with_timezone(&Local).format("%-I:%M%P").to_string();
    let last_modified_time_label = session_last_modified_time.with_timezone(&Local).format("%-I:%M%P").to_string();

    assert_eq!(session_time_label(&priced_session), last_modified_time_label);
    assert_ne!(session_time_label(&priced_session), start_time_label);
}

#[test]
fn keyboard_navigation_supports_arrows_and_terminal_native_keys() {
    let derived_summary = build_derived_summary_at(
        readable_source(),
        vec![priced_session("first", false, complete(1)), priced_session("second", false, complete(1))],
        Vec::new(),
        date(2026, 5, 10),
    );
    let mut terminal_interface_state = TerminalInterfaceState::new(&derived_summary);

    assert_eq!(terminal_interface_state.handle_key_code(KeyInput::Left, &derived_summary), TerminalAction::Continue);
    assert_eq!(terminal_interface_state.selected_headline_period_index, 2);
    assert_eq!(
        terminal_interface_state.handle_key_code(KeyInput::Character('l'), &derived_summary),
        TerminalAction::Continue
    );
    assert_eq!(terminal_interface_state.selected_headline_period_index, 3);
    assert_eq!(terminal_interface_state.handle_key_code(KeyInput::Down, &derived_summary), TerminalAction::Continue);
    assert_eq!(terminal_interface_state.selected_session_index, 1);
    assert_eq!(
        terminal_interface_state.handle_key_code(KeyInput::Character('k'), &derived_summary),
        TerminalAction::Continue
    );
    assert_eq!(terminal_interface_state.selected_session_index, 0);
    assert_eq!(
        terminal_interface_state.handle_key_code(KeyInput::Character('j'), &derived_summary),
        TerminalAction::Continue
    );
    assert_eq!(terminal_interface_state.selected_session_index, 1);
    assert_eq!(
        terminal_interface_state.handle_key_code(KeyInput::Character('h'), &derived_summary),
        TerminalAction::Continue
    );
    assert_eq!(terminal_interface_state.selected_headline_period_index, 2);
}

#[test]
fn reload_and_quit_keys_have_terminal_actions() {
    let derived_summary = build_derived_summary_at(
        readable_source(),
        vec![priced_session("selected", false, complete(1))],
        Vec::new(),
        date(2026, 5, 10),
    );
    let reloaded_summary = build_derived_summary_at(readable_source(), Vec::new(), Vec::new(), date(2026, 5, 10));
    let mut terminal_interface_state = TerminalInterfaceState::new(&derived_summary);

    assert_eq!(
        terminal_interface_state.handle_key_code(KeyInput::Character('r'), &derived_summary),
        TerminalAction::Reload
    );

    terminal_interface_state.reconcile_with_summary(&reloaded_summary);

    assert_eq!(terminal_interface_state.selected_session_index, 0);
    assert_eq!(
        terminal_interface_state.handle_key_code(KeyInput::Character('q'), &reloaded_summary),
        TerminalAction::Quit
    );
    assert_eq!(terminal_interface_state.handle_key_code(KeyInput::Escape, &reloaded_summary), TerminalAction::Quit);
}

#[test]
fn selection_stays_within_bounds_at_the_edges() {
    let derived_summary = build_derived_summary_at(
        readable_source(),
        vec![priced_session("only", false, complete(1))],
        Vec::new(),
        date(2026, 5, 10),
    );
    let mut state = TerminalInterfaceState::new(&derived_summary);
    assert_eq!(state.selected_headline_period_index, 3);
    state.handle_key_code(KeyInput::Right, &derived_summary);
    assert_eq!(state.selected_headline_period_index, 3);
    state.handle_key_code(KeyInput::Down, &derived_summary);
    state.handle_key_code(KeyInput::Down, &derived_summary);
    assert_eq!(state.selected_session_index, 0);
    state.handle_key_code(KeyInput::Up, &derived_summary);
    assert_eq!(state.selected_session_index, 0);
    for _ in 0..6 {
        state.handle_key_code(KeyInput::Left, &derived_summary);
    }
    assert_eq!(state.selected_headline_period_index, 0);
    assert_eq!(state.handle_key_code(KeyInput::Other, &derived_summary), TerminalAction::Continue);
}

#[test]
fn reconcile_holds_indexes_to_the_new_summary() {
    let bigger = build_derived_summary_at(
        readable_source(),
        vec![priced_session("first", false, complete(1)), priced_session("newer", false, complete(1))],
        Vec::new(),
        date(2026, 5, 10),
    );
    let smaller = build_derived_summary_at(
        readable_source(),
        vec![priced_session("first", false, complete(1))],
        Vec::new(),
        date(2026, 5, 10),
    );
    let mut state = TerminalInterfaceState { selected_headline_period_index: 9, selected_session_index: 7 };
    state.reconcile_with_summary(&bigger);
    assert_eq!(state, TerminalInterfaceState { selected_headline_period_index: 3, selected_session_index: 1 });
    state.reconcile_with_summary(&smaller);
    assert_eq!(state, TerminalInterfaceState { selected_headline_period_index: 3, selected_session_index: 0 });
}

#[test]
fn offsets_saturate_at_both_ends() {
    assert_eq!(offset_index(0, -1, 5), 0);
    assert_eq!(offset_index(5, 1, 5), 5);
    assert_eq!(offset_index(2, 1, 5), 3);
    assert_eq!(offset_index(usize::MAX, 1, 5), 5);
    assert_eq!(offset_index(3, isize::MIN, 5), 0);
}

#[test]
fn visible_rows_follow_the_selection() {
    assert_eq!(visible_session_start_index(0, 3, 5), 0);
    assert_eq!(visible_session_start_index(9, 20, 5), 5);
    assert_eq!(visible_session_start_index(19, 20, 5), 15);
    assert_eq!(visible_session_start_index(2, 20, 5), 0);
    assert_eq!(visible_session_start_index(7, 20, 0), 0);
}

#[test]
fn labels_match_the_terminal_wording() {
    assert_eq!(reporting_period_label(&ReportingPeriodKind::Daily), "Today");
    assert_eq!(reporting_period_label(&ReportingPeriodKind::AllTime), "All Time");
    assert_eq!(previous_period_comparison_label(&ReportingPeriodKind::Weekly), "vs last week");
    assert_eq!(previous_period_comparison_label(&ReportingPeriodKind::Monthly), "vs last month");
    assert_eq!(data_quality_summary_label(0), "Data Quality: OK");
    assert_eq!(data_quality_summary_label(1), "Data Quality: 1 notice");
    assert_eq!(data_quality_summary_label(12), "Data Quality: 12 notices");
    assert_eq!(format_signed_united_states_dollar_cost(UsdAmount::from_whole(1)), "+$1.00");
    assert_eq!(format_signed_united_states_dollar_cost(amount("-2")), "-$2.00");
    assert_eq!(format_signed_united_states_dollar_cost(UsdAmount::zero()), "$0.00");
}

#[test]
fn session_labels_show_status_cost_and_prices() {
    let active = priced_session("active", true, CostState::Incomplete { reasons: vec![] });
    let complete_session = priced_session("done", false, complete(3));
    let partial = priced_session(
        "partial",
        false,
        CostState::Partial { known_united_states_dollar_cost: amount("2.345"), reasons: vec![] },
    );
    assert_eq!(session_status_label(&active), "● Act");
    assert_eq!(session_status_label(&complete_session), "● OK");
    assert_eq!(session_status_label(&partial), "◐ Inc");
    assert_eq!(session_cost_label(&active.cost_state), "—");
    assert_eq!(session_cost_label(&partial.cost_state), "$2.34");
    assert_eq!(session_pricing_label(Some(&price_schedule_match())), "Input $5.00 Output $30.00");
    assert_eq!(session_pricing_label(None), "Unpriced");
    assert_eq!(format_united_states_dollar_price_per_million_tokens(amount("0.075")), "$0.075");
    assert_eq!(format_united_states_dollar_price_per_million_tokens(amount("1.2500")), "$1.25");
}

#[test]
fn text_table_rows_pad_each_column() {
    let header = session_table_header();
    assert!(header.starts_with("Status  Time     Project     Agent   Model"));
    assert!(header.contains("Price / Million"));
    assert!(header.ends_with("        Tokens"));
    let separator = session_table_separator();
    assert!(separator.starts_with("──────  ───────"));
    assert_eq!(separator.chars().count(), header.chars().count());
}

fn headline_period(
    kind: ReportingPeriodKind,
    known: UsdAmount,
    previous: Option<UsdAmount>,
) -> ai_usage::reporting_period::HeadlinePeriod {
    ai_usage::reporting_period::HeadlinePeriod {
        kind,
        local_start_date: None,
        local_end_date: None,
        summary_totals: ai_usage::reporting_period::SummaryTotals {
            known_united_states_dollar_cost: known,
            period_cost_state: ai_usage::reporting_period::PeriodCostState::Complete,
            token_totals: TokenTotals { input_tokens: Some(10), output_tokens: Some(5), total_tokens: Some(15), ..TokenTotals::default() },
            session_count: 0,
        },
        previous_period_known_united_states_dollar_cost: previous,
        session_detail: Vec::new(),
    }
}

#[test]
fn cost_change_labels_compare_with_the_previous_period() {
    let weekly = headline_period(ReportingPeriodKind::Weekly, UsdAmount::from_whole(3), Some(UsdAmount::from_whole(2)));
    let monthly = headline_period(ReportingPeriodKind::Monthly, UsdAmount::from_whole(1), Some(UsdAmount::from_whole(3)));
    let daily = headline_period(ReportingPeriodKind::Daily, UsdAmount::zero(), Some(UsdAmount::zero()));
    let all_time = headline_period(ReportingPeriodKind::AllTime, UsdAmount::from_whole(5), None);
    assert!(cost_change_fits(&weekly));
    assert_eq!(period_cost_change_label(&weekly), "+$1.00 vs last week");
    assert_eq!(period_cost_change_label(&monthly), "-$2.00 vs last month");
    assert_eq!(period_cost_change_label(&daily), "$0.00 vs yesterday");
    assert_eq!(period_cost_change_label(&all_time), "no comparison");
    assert_eq!(period_cost_change_direction(&weekly), Some(CostChangeDirection::Rise));
    assert_eq!(period_cost_change_direction(&monthly), Some(CostChangeDirection::Fall));
    assert_eq!(period_cost_change_direction(&daily), Some(CostChangeDirection::Flat));
    assert_eq!(period_cost_change_direction(&all_time), None);
}

#[test]
fn all_time_period_is_found_by_kind() {
    let derived_summary = build_derived_summary_at(readable_source(), Vec::new(), Vec::new(), date(2026, 5, 10));
    let found = ai_usage::terminal_interface::selected_period(&derived_summary, &ReportingPeriodKind::AllTime)
        .expect("all-time period");
    assert_eq!(found.kind, ReportingPeriodKind::AllTime);
    assert_eq!(found.previous_period_known_united_states_dollar_cost, None);
}
