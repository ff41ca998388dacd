use ai_usage::cost::{format_united_states_dollar_cost, price_session, CostState, IncompleteCostReason};
use ai_usage::money::UsdAmount;
use ai_usage::price_catalog::{cost_for_tokens, PriceCatalog};
use ai_usage::session::{AiCodingAgent, CodexSession, TokenTotals};
use ai_usage::time::{CivilDate, UtcInstant};
use chrono::{TimeZone, Utc};
use rust_decimal::Decimal;

fn instant(year: i32, month: u32, day: u32, hour: u32, minute: u32, second: u32) -> UtcInstant {
    let time = Utc.with_ymd_and_hms(year, month, day, hour, minute, second).unwrap();
    UtcInstant::from_timestamp(time.timestamp(), 0).expect("representable instant")
}

fn amount(text: &str) -> UsdAmount {
    let value = Decimal::from_str_exact(text).unwrap();
    UsdAmount::from_parts(value.mantissa(), value.scale()).expect("amount")
}

fn decimal(value: UsdAmount) -> Decimal {
    Decimal::from_i128_with_scale(value.mantissa(), value.scale())
}

fn date(year: i32, month: u32, day: u32) -> CivilDate {
    CivilDate::from_ymd(year, month, day).expect("valid test date")
}

fn test_session(token_totals: TokenTotals) -> CodexSession {
    CodexSession {
        ai_coding_agent: AiCodingAgent::Codex,
        source_path: "session.jsonl".to_owned(),
        session_name: None,
        session_start_time: instant(2026, 5, 10, 10, 0, 0),
        session_last_modified_time: None,
        model: "gpt-5.5".to_owned(),
        reasoning_effort: None,
        project_path: None,
        project_name: None,
        is_active: false,
        token_totals,
    }
}

#[test]
fn calculates_united_states_dollar_cost_without_double_counting_subtotals() {
    let codex_session = test_session(TokenTotals {
        input_tokens: Some(1_000_000),
        non_cached_input_tokens: Some(800_000),
        cache_read_tokens: Some(200_000),
        cache_write_tokens: Some(100_000),
        output_tokens: Some(500_000),
        reasoning_output_tokens: Some(100_000),
        total_tokens: Some(1_500_000),
    });

    let cost_state = price_session(&codex_session, &PriceCatalog::bundled());

    assert_eq!(cost_state, CostState::Complete { united_states_dollar_cost: amount("19.100") });
    assert_eq!(format_united_states_dollar_cost(amount("7.155")), "$7.16");
}

#[test]
fn unknown_model_creates_unpriced_incomplete_state() {
    let mut codex_session = test_session(TokenTotals {
        input_tokens: Some(10),
        output_tokens: Some(10),
        ..TokenTotals::default()
    });
    codex_session.model = "unknown-model".to_owned();

    assert_eq!(
        price_session(&codex_session, &PriceCatalog::bundled()),
        CostState::Incomplete {
            reasons: vec![IncompleteCostReason::UnpricedUsage { model: "unknown-model".to_owned() }]
        }
    );
}

#[test]
fn missing_output_tokens_create_partial_cost_when_input_cost_is_known() {
    let codex_session = test_session(TokenTotals {
        input_tokens: Some(1_000_000),
        non_cached_input_tokens: Some(1_000_000),
        ..TokenTotals::default()
    });

    assert_eq!(
        price_session(&codex_session, &PriceCatalog::bundled()),
        CostState::Partial {
            known_united_states_dollar_cost: amount("5.000"),
            reasons: vec![IncompleteCostReason::MissingTokenCategory { token_category: "Output Tokens".to_owned() }]
        }
    );
}

#[test]
fn exact_model_matching_prices_known_models() {
    let price_catalog = PriceCatalog::bundled();
    assert!(price_catalog.effective_price_schedule("gpt-5.5", instant(2026, 5, 10, 0, 0, 0)).is_some());
}

#[test]
fn current_standard_prices_match_bundled_flagship_catalog() {
    let price_catalog = PriceCatalog::bundled();
    let price_schedule = price_catalog
        .effective_price_schedule("gpt-5.5", instant(2026, 5, 10, 0, 0, 0))
        .expect("gpt-5.5 price schedule");

    assert_eq!(price_schedule.effective_date, date(2026, 5, 10));
    assert_eq!(price_schedule.input_tokens_per_million, amount("5.000"));
    assert_eq!(price_schedule.cache_read_tokens_per_million, amount("0.500"));
    assert_eq!(price_schedule.output_tokens_per_million, amount("30.000"));

    let mini_price_schedule = price_catalog
        .effective_price_schedule("gpt-5.4-mini", instant(2026, 5, 10, 0, 0, 0))
        .expect("gpt-5.4-mini price schedule");
    assert_eq!(mini_price_schedule.cache_read_tokens_per_million, amount("0.075"));
}

#[test]
fn fast_mode_prices_are_two_and_a_half_times_standard_model_prices() {
    let price_catalog = PriceCatalog::bundled();
    let standard_price_schedule = price_catalog
        .effective_price_schedule("gpt-5.5", instant(2026, 5, 10, 0, 0, 0))
        .expect("gpt-5.5 price schedule");
    let fast_price_schedule = price_catalog
        .effective_price_schedule("gpt-5.5-fast", instant(2026, 5, 10, 0, 0, 0))
        .expect("gpt-5.5-fast price schedule");
    let fast_multiplier = Decimal::from_str_exact("2.5").unwrap();

    assert_eq!(
        decimal(fast_price_schedule.input_tokens_per_million),
        decimal(standard_price_schedule.input_tokens_per_million) * fast_multiplier
    );
    assert_eq!(
        decimal(fast_price_schedule.cache_read_tokens_per_million),
        decimal(standard_price_schedule.cache_read_tokens_per_million) * fast_multiplier
    );
    assert_eq!(
        decimal(fast_price_schedule.cache_write_tokens_per_million),
        decimal(standard_price_schedule.cache_write_tokens_per_million) * fast_multiplier
    );
    assert_eq!(
        decimal(fast_price_schedule.output_tokens_per_million),
        decimal(standard_price_schedule.output_tokens_per_million) * fast_multiplier
    );
}

#[test]
fn unknown_models_are_not_guessed() {
    let price_catalog = PriceCatalog::bundled();
    assert!(price_catalog.effective_price_schedule("gpt-5", instant(2026, 5, 10, 0, 0, 0)).is_none());
}

#[test]
fn effective_date_boundary_is_inclusive() {
    let price_catalog = PriceCatalog::bundled();
    assert!(price_catalog.effective_price_schedule("gpt-5.5", instant(2026, 1, 1, 0, 0, 0)).is_some());
    assert!(price_catalog.effective_price_schedule("gpt-5.5", instant(2025, 12, 31, 23, 59, 59)).is_none());
}

#[test]
fn older_schedule_applies_before_newer_one() {
    let price_catalog = PriceCatalog::bundled();
    let older = price_catalog
        .effective_price_schedule("gpt-5.5", instant(2026, 5, 9, 23, 59, 59))
        .expect("older gpt-5.5 schedule");
    assert_eq!(older.effective_date, date(2026, 1, 1));
}

#[test]
fn cost_for_tokens_prices_per_million() {
    assert_eq!(decimal(cost_for_tokens(250_000, amount("30.000"))), Decimal::from_str_exact("7.5").unwrap());
    assert_eq!(decimal(cost_for_tokens(0, amount("5.000"))), Decimal::ZERO);
}

#[test]
fn dollar_costs_round_half_to_even_for_display() {
    assert_eq!(format_united_states_dollar_cost(amount("7.165")), "$7.16");
    assert_eq!(format_united_states_dollar_cost(amount("0")), "$0.00");
    assert_eq!(format_united_states_dollar_cost(amount("12")), "$12.00");
}
