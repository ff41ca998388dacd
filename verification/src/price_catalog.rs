//! Bundled offline Price Catalog and Effective Price Schedule resolution.

use crate::money::{decimal_divide, decimal_multiply, decimal_product, decimal_quotient, lemma_ten_to_positive, magnitude, mantissa_at, ten_to, whole_units, UsdAmount, MAX_MANTISSA, MAX_SCALE};
use crate::text::{owned, text_equals};
use crate::time::{chrono_utc_date, date_on_or_before, utc_date_of, CivilDate, UtcInstant};
use vstd::prelude::*;

verus! {

/// Prices below this bound (2^32 in mantissa units) keep every token cost from overflowing.
pub const PRICE_MANTISSA_BOUND: i128 = 0x1_0000_0000i128;

/// Whole units that a single token-category cost never exceeds (2^77).
pub const TOKEN_COST_WHOLE_UNITS_BOUND: u128 = 0x2000_0000_0000_0000_0000u128;

/// A dated model price schedule.
#[derive(Clone, Debug, PartialEq, Eq)]
pub struct PriceSchedule {
    /// Exact Model name this schedule prices.
    pub model: String,
    /// First date on which this schedule is effective.
    pub effective_date: CivilDate,
    /// Input Tokens price per one million tokens.
    pub input_tokens_per_million: UsdAmount,
    /// Cache Read Tokens price per one million tokens.
    pub cache_read_tokens_per_million: UsdAmount,
    /// Cache Write Tokens price per one million tokens.
    pub cache_write_tokens_per_million: UsdAmount,
    /// Output Tokens price per one million tokens.
    pub output_tokens_per_million: UsdAmount,
    /// Reasoning Output Tokens price per one million tokens, when distinct.
    pub reasoning_output_tokens_per_million: Option<UsdAmount>,
}

/// Whether a price is non-negative and small enough for any token count.
pub open spec fn price_bounded(price: UsdAmount) -> bool {
    0 <= price@.0 < PRICE_MANTISSA_BOUND as int
}

/// Whether every price of a schedule is bounded.
pub open spec fn schedule_prices_bounded(schedule: PriceSchedule) -> bool {
    &&& price_bounded(schedule.input_tokens_per_million)
    &&& price_bounded(schedule.cache_read_tokens_per_million)
    &&& price_bounded(schedule.cache_write_tokens_per_million)
    &&& price_bounded(schedule.output_tokens_per_million)
    &&& match schedule.reasoning_output_tokens_per_million {
        Some(price) => price_bounded(price),
        None => true,
    }
}

/// A price schedule as plain values: Model, effective date, and the input, cache read,
/// cache write, output and reasoning output prices per million tokens.
pub type ScheduleRow = (
    Seq<char>,
    (int, int, int),
    (int, nat),
    (int, nat),
    (int, nat),
    (int, nat),
    Option<(int, nat)>,
);

/// The plain values of a price schedule.
pub open spec fn schedule_row(schedule: PriceSchedule) -> ScheduleRow {
    (
        schedule.model@,
        schedule.effective_date@,
        schedule.input_tokens_per_million@,
        schedule.cache_read_tokens_per_million@,
        schedule.cache_write_tokens_per_million@,
        schedule.output_tokens_per_million@,
        match schedule.reasoning_output_tokens_per_million {
            Some(price) => Some(price@),
            None => None,
        },
    )
}

/// The bundled price schedules, in catalog order.
pub open spec fn bundled_schedule_rows() -> Seq<ScheduleRow> {
    seq![
        ("gpt-5.5"@, (2026int, 5int, 10int), (5000int, 3nat), (500int, 3nat), (5000int, 3nat), (30000int, 3nat), None),
        ("gpt-5.5-fast"@, (2026int, 5int, 10int), (12500int, 3nat), (1250int, 3nat), (12500int, 3nat), (75000int, 3nat), None),
        ("gpt-5.4"@, (2026int, 5int, 10int), (2500int, 3nat), (250int, 3nat), (2500int, 3nat), (15000int, 3nat), None),
        ("gpt-5.4-mini"@, (2026int, 5int, 10int), (750int, 3nat), (75int, 3nat), (750int, 3nat), (4500int, 3nat), None),
        ("gpt-5.4-nano"@, (2026int, 5int, 10int), (200int, 3nat), (20int, 3nat), (200int, 3nat), (1250int, 3nat), None),
        ("gpt-5.3-codex"@, (2026int, 5int, 10int), (1750int, 3nat), (175int, 3nat), (1750int, 3nat), (14000int, 3nat), None),
        ("gpt-5.5"@, (2026int, 1int, 1int), (1250int, 3nat), (125int, 3nat), (1250int, 3nat), (10000int, 3nat), None),
        ("gpt-5.5-fast"@, (2026int, 1int, 1int), (3125int, 3nat), (3125int, 4nat), (3125int, 3nat), (25000int, 3nat), None),
        ("gpt-5.4"@, (2026int, 1int, 1int), (1250int, 3nat), (125int, 3nat), (1250int, 3nat), (10000int, 3nat), None),
        ("gpt-5.4-mini"@, (2026int, 1int, 1int), (250int, 3nat), (25int, 3nat), (250int, 3nat), (2000int, 3nat), None),
        ("gpt-5.3-codex"@, (2026int, 1int, 1int), (1250int, 3nat), (125int, 3nat), (1250int, 3nat), (10000int, 3nat), None),
        ("gpt-5.3-codex-spark"@, (2026int, 1int, 1int), (250int, 3nat), (25int, 3nat), (250int, 3nat), (2000int, 3nat), None),
        ("gpt-5.2"@, (2026int, 1int, 1int), (1250int, 3nat), (125int, 3nat), (1250int, 3nat), (10000int, 3nat), None),
    ]
}

/// Bundled local Price Catalog.
#[derive(Debug)]
pub struct PriceCatalog {
    price_schedules: Vec<PriceSchedule>,
}

/// Whether a schedule prices a Model on a date: the Model matches exactly and the
/// schedule's effective date is on or before the date.
pub open spec fn schedule_applies(
    schedule: PriceSchedule,
    model: Seq<char>,
    date: (int, int, int),
) -> bool {
    schedule.model@ == model && date_on_or_before(schedule.effective_date@, date)
}

/// Whether index `index` holds the Effective Price Schedule: it applies, no applying
/// schedule has a later effective date, and every applying schedule after it has an
/// earlier one (of equally latest schedules, the last one wins).
pub open spec fn is_effective_index(
    schedules: Seq<PriceSchedule>,
    model: Seq<char>,
    date: (int, int, int),
    index: int,
) -> bool {
    &&& 0 <= index < schedules.len()
    &&& schedule_applies(schedules[index], model, date)
    &&& forall|other: int|
        0 <= other < schedules.len() && schedule_applies(schedules[other], model, date)
            ==> date_on_or_before(schedules[other].effective_date@, schedules[index].effective_date@)
    &&& forall|other: int|
        index < other < schedules.len() && schedule_applies(schedules[other], model, date)
            ==> !date_on_or_before(schedules[index].effective_date@, schedules[other].effective_date@)
}

/// Whether any schedule prices a Model on a date.
pub open spec fn any_schedule_applies(
    schedules: Seq<PriceSchedule>,
    model: Seq<char>,
    date: (int, int, int),
) -> bool {
    exists|index: int| 0 <= index < schedules.len() && schedule_applies(schedules[index], model, date)
}

/// The Effective Price Schedule for a Model at an instant, judged on the instant's UTC date.
pub open spec fn effective_schedule(
    schedules: Seq<PriceSchedule>,
    model: Seq<char>,
    instant: (int, int),
) -> Option<PriceSchedule> {
    let date = chrono_utc_date(instant);
    if any_schedule_applies(schedules, model, date) {
        Some(schedules[choose|index: int| is_effective_index(schedules, model, date, index)])
    } else {
        None
    }
}

/// The cost of `token_count` tokens at a price per million tokens: the count times the
/// price, divided by one million, each step done by `Decimal`.
pub open spec fn token_cost(token_count: nat, price_per_million_tokens: (int, nat)) -> (int, nat) {
    decimal_quotient(
        decimal_product((token_count as int, 0nat), price_per_million_tokens),
        (1_000_000int, 0nat),
    )
}

/// Index `index` holding the Effective Price Schedule is the only such index.
proof fn lemma_effective_index_unique(
    schedules: Seq<PriceSchedule>,
    model: Seq<char>,
    date: (int, int, int),
    index: int,
    other: int,
)
    requires
        is_effective_index(schedules, model, date, index),
        is_effective_index(schedules, model, date, other),
    ensures
        index == other,
{
    if index < other {
        assert(!date_on_or_before(schedules[index].effective_date@, schedules[other].effective_date@));
        assert(date_on_or_before(schedules[index].effective_date@, schedules[other].effective_date@));
    } else if other < index {
        assert(!date_on_or_before(schedules[other].effective_date@, schedules[index].effective_date@));
        assert(date_on_or_before(schedules[other].effective_date@, schedules[index].effective_date@));
    }
}

fn bounded_price(mantissa: i128, scale: u32) -> (result: UsdAmount)
    requires
        0 <= mantissa < PRICE_MANTISSA_BOUND,
        scale <= 28,
    ensures
        result@ == (mantissa as int, scale as nat),
        price_bounded(result),
{
    UsdAmount::from_parts(mantissa, scale).unwrap()
}

fn schedule(
    model: &str,
    year: i32,
    month: u32,
    day: u32,
    prices: [(i128, u32); 4],
) -> (result: PriceSchedule)
    requires
        crate::time::valid_civil_date((year as int, month as int, day as int)),
        forall|index: int|
            0 <= index < 4 ==> 0 <= #[trigger] prices[index].0 < PRICE_MANTISSA_BOUND
                && prices[index].1 <= 28,
    ensures
        schedule_row(result) == (
            model@,
            (year as int, month as int, day as int),
            (prices[0].0 as int, prices[0].1 as nat),
            (prices[1].0 as int, prices[1].1 as nat),
            (prices[2].0 as int, prices[2].1 as nat),
            (prices[3].0 as int, prices[3].1 as nat),
            None::<(int, nat)>,
        ),
        schedule_prices_bounded(result),
{
    let input = prices[0];
    let cache_read = prices[1];
    let cache_write = prices[2];
    let output = prices[3];
    PriceSchedule {
        model: owned(model),
        effective_date: CivilDate::from_ymd(year, month, day).unwrap(),
        input_tokens_per_million: bounded_price(input.0, input.1),
        cache_read_tokens_per_million: bounded_price(cache_read.0, cache_read.1),
        cache_write_tokens_per_million: bounded_price(cache_write.0, cache_write.1),
        output_tokens_per_million: bounded_price(output.0, output.1),
        reasoning_output_tokens_per_million: None,
    }
}

impl PriceCatalog {
    #[verifier::type_invariant]
    spec fn prices_bounded(self) -> bool {
        forall|index: int|
            0 <= index < self.price_schedules@.len() ==> schedule_prices_bounded(
                #[trigger] self.price_schedules@[index],
            )
    }

    /// The catalog's price schedules, in catalog order.
    pub closed spec fn schedules(self) -> Seq<PriceSchedule> {
        self.price_schedules@
    }

    /// Returns the bundled offline Price Catalog.
    pub fn bundled() -> (result: Self)
        ensures
            result.schedules().map_values(|schedule: PriceSchedule| schedule_row(schedule))
                == bundled_schedule_rows(),
    {
        let mut price_schedules: Vec<PriceSchedule> = Vec::new();
        price_schedules.push(schedule("gpt-5.5", 2026, 5, 10, [(5000, 3), (500, 3), (5000, 3), (30000, 3)]));
        price_schedules.push(schedule("gpt-5.5-fast", 2026, 5, 10, [(12500, 3), (1250, 3), (12500, 3), (75000, 3)]));
        price_schedules.push(schedule("gpt-5.4", 2026, 5, 10, [(2500, 3), (250, 3), (2500, 3), (15000, 3)]));
        price_schedules.push(schedule("gpt-5.4-mini", 2026, 5, 10, [(750, 3), (75, 3), (750, 3), (4500, 3)]));
        price_schedules.push(schedule("gpt-5.4-nano", 2026, 5, 10, [(200, 3), (20, 3), (200, 3), (1250, 3)]));
        price_schedules.push(schedule("gpt-5.3-codex", 2026, 5, 10, [(1750, 3), (175, 3), (1750, 3), (14000, 3)]));
        price_schedules.push(schedule("gpt-5.5", 2026, 1, 1, [(1250, 3), (125, 3), (1250, 3), (10000, 3)]));
        price_schedules.push(schedule("gpt-5.5-fast", 2026, 1, 1, [(3125, 3), (3125, 4), (3125, 3), (25000, 3)]));
        price_schedules.push(schedule("gpt-5.4", 2026, 1, 1, [(1250, 3), (125, 3), (1250, 3), (10000, 3)]));
        price_schedules.push(schedule("gpt-5.4-mini", 2026, 1, 1, [(250, 3), (25, 3), (250, 3), (2000, 3)]));
        price_schedules.push(schedule("gpt-5.3-codex", 2026, 1, 1, [(1250, 3), (125, 3), (1250, 3), (10000, 3)]));
        price_schedules.push(schedule("gpt-5.3-codex-spark", 2026, 1, 1, [(250, 3), (25, 3), (250, 3), (2000, 3)]));
        price_schedules.push(schedule("gpt-5.2", 2026, 1, 1, [(1250, 3), (125, 3), (1250, 3), (10000, 3)]));
        let catalog = PriceCatalog { price_schedules };
        proof {
            assert(catalog.schedules().map_values(|schedule: PriceSchedule| schedule_row(schedule))
                =~= bundled_schedule_rows());
        }
        catalog
    }

    /// Resolves the Effective Price Schedule for an exact Model and Session Start Time.
    pub fn effective_price_schedule(
        &self,
        model: &str,
        session_start_time: UtcInstant,
    ) -> (result: Option<&PriceSchedule>)
        ensures
            result is Some <==> any_schedule_applies(
                self.schedules(),
                model@,
                chrono_utc_date(session_start_time@),
            ),
            result matches Some(schedule) ==> {
                &&& effective_schedule(self.schedules(), model@, session_start_time@) == Some(
                    *schedule,
                )
                &&& schedule_prices_bounded(*schedule)
            },
    {
        proof {
            use_type_invariant(self);
        }
        let session_date = utc_date_of(&session_start_time);
        let ghost date = session_date@;
        let ghost schedules = self.price_schedules@;
        let mut best: Option<usize> = None;
        let mut index: usize = 0;
        while index < self.price_schedules.len()
            invariant
                index <= schedules.len(),
                schedules == self.price_schedules@,
                date == session_date@,
                match best {
                    Some(chosen) => {
                        &&& chosen < index
                        &&& is_effective_index(schedules.take(index as int), model@, date, chosen as int)
                    },
                    None => forall|other: int|
                        0 <= other < index ==> !schedule_applies(schedules[other], model@, date),
                },
            decreases schedules.len() - index,
        {
            let candidate = &self.price_schedules[index];
            if text_equals(candidate.model.as_str(), model) && candidate.effective_date.is_on_or_before(
                &session_date,
            ) {
                let replace = match best {
                    Some(chosen) => self.price_schedules[chosen].effective_date.is_on_or_before(
                        &candidate.effective_date,
                    ),
                    None => true,
                };
                if replace {
                    best = Some(index);
                }
            }
            proof {
                let taken = schedules.take(index + 1);
                assert(taken.len() == index + 1);
                assert forall|other: int| 0 <= other < index + 1 implies taken[other] == schedules[other] by {}
            }
            index = index + 1;
        }
        proof {
            assert(schedules.take(schedules.len() as int) =~= schedules);
        }
        match best {
            Some(chosen) => {
                proof {
                    let chosen_index = choose|index: int| is_effective_index(schedules, model@, date, index);
                    assert(is_effective_index(schedules, model@, date, chosen as int));
                    lemma_effective_index_unique(schedules, model@, date, chosen as int, chosen_index);
                }
                Some(&self.price_schedules[chosen])
            },
            None => None,
        }
    }
}

/// A bounded price times any `u64` token count fits in a `Decimal` mantissa, with room for
/// rounding.
pub proof fn lemma_bounded_price_fits(token_count: u64, price: UsdAmount)
    requires
        price_bounded(price),
    ensures
        magnitude(token_count as int * price@.0) <= MAX_MANTISSA as int,
        whole_units((token_count as int * price@.0, price@.1)) + 1 <= MAX_MANTISSA as int,
{
    let mantissa = price@.0;
    let product = token_count as int * mantissa;
    assert(0 <= product <= 0xFFFF_FFFF_FFFF_FFFFint * 0xFFFF_FFFFint) by (nonlinear_arith)
        requires product == token_count as int * mantissa, 0 <= token_count <= 0xFFFF_FFFF_FFFF_FFFFint, 0 <= mantissa <= 0xFFFF_FFFFint;
    lemma_ten_to_positive(price@.1);
    assert(product / ten_to(price@.1) <= product) by (nonlinear_arith)
        requires product >= 0, ten_to(price@.1) >= 1;
}

/// Converts tokens and a per-million-token price to United States dollar cost.
pub fn cost_for_tokens(token_count: u64, price_per_million_tokens: UsdAmount) -> (result: UsdAmount)
    requires
        whole_units((token_count as int * price_per_million_tokens@.0, price_per_million_tokens@.1)) + 1
            <= MAX_MANTISSA as int,
    ensures
        result@ == token_cost(token_count as nat, price_per_million_tokens@),
        magnitude(price_per_million_tokens@.0) < PRICE_MANTISSA_BOUND as int ==> whole_units(result@)
            <= TOKEN_COST_WHOLE_UNITS_BOUND as int,
        magnitude(token_count as int * price_per_million_tokens@.0) <= MAX_MANTISSA as int
            && price_per_million_tokens@.1 + 6 <= MAX_SCALE ==> result@.1 <= price_per_million_tokens@.1 + 6 && mantissa_at(
            result@,
            price_per_million_tokens@.1 + 6,
        ) == token_count as int * price_per_million_tokens@.0,
{
    let count = UsdAmount::from_whole(token_count);
    proof {
        let price = magnitude(price_per_million_tokens@.0);
        assert(magnitude(token_count as int * price_per_million_tokens@.0) == token_count as int * price) by (nonlinear_arith)
            requires price == magnitude(price_per_million_tokens@.0), token_count >= 0;
        if price < PRICE_MANTISSA_BOUND as int {
            assert(token_count as int * price <= 0xFFFF_FFFF_FFFF_FFFFint * 0xFFFF_FFFFint) by (nonlinear_arith)
                requires 0 <= token_count <= 0xFFFF_FFFF_FFFF_FFFFint, 0 <= price <= 0xFFFF_FFFFint;
            lemma_ten_to_positive(price_per_million_tokens@.1);
            let product = token_count as int * price_per_million_tokens@.0;
            assert(magnitude(product) / ten_to(price_per_million_tokens@.1) <= magnitude(product)) by (nonlinear_arith)
                requires magnitude(product) >= 0, ten_to(price_per_million_tokens@.1) >= 1;
        }
    }
    let product = decimal_multiply(count, price_per_million_tokens);
    let million = UsdAmount::from_whole(1_000_000);
    let result = decimal_divide(product, million);
    proof {
        assert(whole_units((token_count as int, 0nat)) == token_count as int);
        if magnitude(token_count as int * price_per_million_tokens@.0) <= MAX_MANTISSA as int
            && price_per_million_tokens@.1 + 6 <= MAX_SCALE {
            let scale = price_per_million_tokens@.1 + 6;
            if token_count as int * price_per_million_tokens@.0 == 0 {
                assert(product@ == (0int, 0nat));
                let shift = (6 - result@.1) as nat;
                lemma_ten_to_positive(shift);
                assert(result@.0 * ten_to(shift) == 0);
                assert(result@.0 == 0) by (nonlinear_arith)
                    requires result@.0 * ten_to(shift) == 0, ten_to(shift) >= 1;
                assert(mantissa_at(result@, scale) == 0) by (nonlinear_arith)
                    requires result@.0 == 0, mantissa_at(result@, scale) == result@.0 * ten_to((scale - result@.1) as nat);
            } else {
                assert(product@ == (token_count as int * price_per_million_tokens@.0, price_per_million_tokens@.1));
            }
        }
    }
    result
}

/// The bundled rows name each Model at most once per effective date, price every token
/// category above zero, and give no separate reasoning price.
pub proof fn lemma_bundled_rows_distinct_and_priced()
    ensures
        forall|first: int, second: int|
            0 <= first < second < bundled_schedule_rows().len() ==> ((#[trigger] bundled_schedule_rows()[first]).0,
                bundled_schedule_rows()[first].1) != ((#[trigger] bundled_schedule_rows()[second]).0,
                bundled_schedule_rows()[second].1),
        forall|index: int|
            0 <= index < bundled_schedule_rows().len() ==> {
                let row = #[trigger] bundled_schedule_rows()[index];
                row.2.0 > 0 && row.3.0 > 0 && row.4.0 > 0 && row.5.0 > 0 && row.6 is None
            },
{
    reveal_strlit("gpt-5.5");
    reveal_strlit("gpt-5.5-fast");
    reveal_strlit("gpt-5.4");
    reveal_strlit("gpt-5.4-mini");
    reveal_strlit("gpt-5.4-nano");
    reveal_strlit("gpt-5.3-codex");
    reveal_strlit("gpt-5.3-codex-spark");
    reveal_strlit("gpt-5.2");
    let rows = bundled_schedule_rows();
    assert("gpt-5.5"@[6] != "gpt-5.4"@[6]);
    assert("gpt-5.5"@[6] != "gpt-5.2"@[6]);
    assert("gpt-5.4"@[6] != "gpt-5.2"@[6]);
    assert("gpt-5.5-fast"@[6] != "gpt-5.4-mini"@[6]);
    assert("gpt-5.5-fast"@[6] != "gpt-5.4-nano"@[6]);
    assert("gpt-5.4-mini"@[8] != "gpt-5.4-nano"@[8]);
    assert forall|first: int, second: int| 0 <= first < second < rows.len() implies ((#[trigger] rows[first]).0,
        rows[first].1) != ((#[trigger] rows[second]).0, rows[second].1) by {
        if rows[first].1 == rows[second].1 {
            assert(rows[first].0.len() != rows[second].0.len() || rows[first].0[6] != rows[second].0[6]
                || rows[first].0[8] != rows[second].0[8]);
        }
    }
}

/// The bundled catalog names each Model at most once per effective date, so each Model and
/// date has at most one Effective Price Schedule; it prices every token category above zero
/// and gives no separate reasoning price.
pub proof fn law_bundled_catalog_is_unambiguous(catalog: PriceCatalog)
    requires
        catalog.schedules().map_values(|schedule: PriceSchedule| schedule_row(schedule)) == bundled_schedule_rows(),
    ensures
        forall|first: int, second: int|
            0 <= first < second < catalog.schedules().len() ==> ((#[trigger] catalog.schedules()[first]).model@,
                catalog.schedules()[first].effective_date@) != ((#[trigger] catalog.schedules()[second]).model@,
                catalog.schedules()[second].effective_date@),
        forall|index: int|
            0 <= index < catalog.schedules().len() ==> {
                let schedule = #[trigger] catalog.schedules()[index];
                &&& schedule.input_tokens_per_million@.0 > 0
                &&& schedule.cache_read_tokens_per_million@.0 > 0
                &&& schedule.cache_write_tokens_per_million@.0 > 0
                &&& schedule.output_tokens_per_million@.0 > 0
                &&& schedule.reasoning_output_tokens_per_million is None
            },
{
    lemma_bundled_rows_distinct_and_priced();
    let schedules = catalog.schedules();
    let rows = bundled_schedule_rows();
    assert(schedules.len() == rows.len());
    assert forall|index: int| 0 <= index < schedules.len() implies schedule_row(#[trigger] schedules[index]) == rows[index] by {
        assert(schedules.map_values(|schedule: PriceSchedule| schedule_row(schedule))[index] == rows[index]);
    }
    assert forall|first: int, second: int| 0 <= first < second < schedules.len() implies ((#[trigger] schedules[first]).model@,
        schedules[first].effective_date@) != ((#[trigger] schedules[second]).model@, schedules[second].effective_date@) by {
        assert(schedule_row(schedules[first]) == rows[first]);
        assert(schedule_row(schedules[second]) == rows[second]);
    }
    assert forall|index: int| 0 <= index < schedules.len() implies {
        let schedule = #[trigger] schedules[index];
        &&& schedule.input_tokens_per_million@.0 > 0
        &&& schedule.cache_read_tokens_per_million@.0 > 0
        &&& schedule.cache_write_tokens_per_million@.0 > 0
        &&& schedule.output_tokens_per_million@.0 > 0
        &&& schedule.reasoning_output_tokens_per_million is None
    } by {
        assert(schedule_row(schedules[index]) == rows[index]);
    }
}

/// The bundled catalog holds the published prices per million tokens, in United States
/// dollars: for each Model and effective date, the input, cache read, cache write and output
/// prices, with no separate reasoning price.
pub proof fn law_bundled_catalog_prices(catalog: PriceCatalog)
    requires
        catalog.schedules().map_values(|schedule: PriceSchedule| schedule_row(schedule)) == bundled_schedule_rows(),
    ensures
        catalog.schedules().map_values(|schedule: PriceSchedule| schedule_row(schedule)) == seq![
            ("gpt-5.5"@, (2026int, 5int, 10int), (5000int, 3nat), (500int, 3nat), (5000int, 3nat), (30000int, 3nat), None::<(int, nat)>),
            ("gpt-5.5-fast"@, (2026int, 5int, 10int), (12500int, 3nat), (1250int, 3nat), (12500int, 3nat), (75000int, 3nat), None::<(int, nat)>),
            ("gpt-5.4"@, (2026int, 5int, 10int), (2500int, 3nat), (250int, 3nat), (2500int, 3nat), (15000int, 3nat), None::<(int, nat)>),
            ("gpt-5.4-mini"@, (2026int, 5int, 10int), (750int, 3nat), (75int, 3nat), (750int, 3nat), (4500int, 3nat), None::<(int, nat)>),
            ("gpt-5.4-nano"@, (2026int, 5int, 10int), (200int, 3nat), (20int, 3nat), (200int, 3nat), (1250int, 3nat), None::<(int, nat)>),
            ("gpt-5.3-codex"@, (2026int, 5int, 10int), (1750int, 3nat), (175int, 3nat), (1750int, 3nat), (14000int, 3nat), None::<(int, nat)>),
            ("gpt-5.5"@, (2026int, 1int, 1int), (1250int, 3nat), (125int, 3nat), (1250int, 3nat), (10000int, 3nat), None::<(int, nat)>),
            ("gpt-5.5-fast"@, (2026int, 1int, 1int), (3125int, 3nat), (3125int, 4nat), (3125int, 3nat), (25000int, 3nat), None::<(int, nat)>),
            ("gpt-5.4"@, (2026int, 1int, 1int), (1250int, 3nat), (125int, 3nat), (1250int, 3nat), (10000int, 3nat), None::<(int, nat)>),
            ("gpt-5.4-mini"@, (2026int, 1int, 1int), (250int, 3nat), (25int, 3nat), (250int, 3nat), (2000int, 3nat), None::<(int, nat)>),
            ("gpt-5.3-codex"@, (2026int, 1int, 1int), (1250int, 3nat), (125int, 3nat), (1250int, 3nat), (10000int, 3nat), None::<(int, nat)>),
            ("gpt-5.3-codex-spark"@, (2026int, 1int, 1int), (250int, 3nat), (25int, 3nat), (250int, 3nat), (2000int, 3nat), None::<(int, nat)>),
            ("gpt-5.2"@, (2026int, 1int, 1int), (1250int, 3nat), (125int, 3nat), (1250int, 3nat), (10000int, 3nat), None::<(int, nat)>),
        ],
{
}

/// Across the bundled catalog, cache reads cost a tenth of the input price, cache writes cost
/// the input price, and output costs at least four times the input price.
pub proof fn law_bundled_price_ratios(catalog: PriceCatalog)
    requires
        catalog.schedules().map_values(|schedule: PriceSchedule| schedule_row(schedule)) == bundled_schedule_rows(),
    ensures
        forall|index: int|
            0 <= index < catalog.schedules().len() ==> {
                let schedule = #[trigger] catalog.schedules()[index];
                let input = schedule.input_tokens_per_million@;
                &&& mantissa_at(schedule.cache_read_tokens_per_million@, 4) * 10 == mantissa_at(input, 4)
                &&& mantissa_at(schedule.cache_write_tokens_per_million@, 4) == mantissa_at(input, 4)
                &&& mantissa_at(schedule.output_tokens_per_million@, 4) >= 4 * mantissa_at(input, 4)
            },
{
    let schedules = catalog.schedules();
    let rows = bundled_schedule_rows();
    assert(schedules.map_values(|schedule: PriceSchedule| schedule_row(schedule)).len() == schedules.len());
    assert(schedules.len() == 13);
    assert(ten_to(0) == 1);
    assert(ten_to(1) == 10);
    assert forall|index: int| 0 <= index < schedules.len() implies {
        let schedule = #[trigger] schedules[index];
        let input = schedule.input_tokens_per_million@;
        &&& mantissa_at(schedule.cache_read_tokens_per_million@, 4) * 10 == mantissa_at(input, 4)
        &&& mantissa_at(schedule.cache_write_tokens_per_million@, 4) == mantissa_at(input, 4)
        &&& mantissa_at(schedule.output_tokens_per_million@, 4) >= 4 * mantissa_at(input, 4)
    } by {
        assert(schedules.map_values(|schedule: PriceSchedule| schedule_row(schedule))[index] == rows[index]);
        if index == 0 {
            assert(rows[index] == rows[0]);
        } else if index == 1 {
            assert(rows[index] == rows[1]);
        } else if index == 2 {
            assert(rows[index] == rows[2]);
        } else if index == 3 {
            assert(rows[index] == rows[3]);
        } else if index == 4 {
            assert(rows[index] == rows[4]);
        } else if index == 5 {
            assert(rows[index] == rows[5]);
        } else if index == 6 {
            assert(rows[index] == rows[6]);
        } else if index == 7 {
            assert(rows[index] == rows[7]);
        } else if index == 8 {
            assert(rows[index] == rows[8]);
        } else if index == 9 {
            assert(rows[index] == rows[9]);
        } else if index == 10 {
            assert(rows[index] == rows[10]);
        } else if index == 11 {
            assert(rows[index] == rows[11]);
        } else {
            assert(rows[index] == rows[12]);
        }
    }
}

} // verus!
