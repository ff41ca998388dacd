//! One AI Usage run: its options, and the Derived Summary built from what was read.

use vstd::prelude::*;
use crate::cost::{price_sessions, priced_as, PricedCodexSession};
use crate::price_catalog::{bundled_schedule_rows, schedule_row, PriceCatalog, PriceSchedule};
use crate::reporting_period::{
    build_derived_summary, derived_summary_of, date_in_arithmetic_range, local_dates_of_sessions,
    sessions_can_be_dated, sessions_can_be_summarized, sessions_have_local_dates, sessions_summable, DateValue,
    DerivedSummary,
};
use crate::session::{DataQualityNotice, ParsedUsage};
use crate::usage_source::UsageSourceInventory;

verus! {

/// Command-line options for one AI Usage run.
#[derive(Clone, Debug, PartialEq, Eq)]
pub struct RunOptions {
    /// Custom Usage Source path for this run.
    pub custom_usage_source: Option<String>,
    /// Emit JSON Output instead of the interactive terminal interface.
    pub emit_json_output: bool,
    /// Redact home-directory-sensitive prefixes in JSON Output.
    pub redact_paths: bool,
}

/// Why no Derived Summary could be built.
#[derive(Clone, Copy, Debug, PartialEq, Eq, Structural)]
pub enum SummaryFailure {
    /// The sessions' known costs or token counts would overflow when summed.
    TotalsTooLarge,
    /// The current local date, or a session's date, lies too near the end of `chrono`'s range.
    DateOutOfRange,
}

/// Whether a catalog holds the bundled Price Schedules.
pub open spec fn is_bundled_catalog(catalog: PriceCatalog) -> bool {
    catalog.schedules().map_values(|schedule: PriceSchedule| schedule_row(schedule)) == bundled_schedule_rows()
}

/// Whether priced sessions are the parsed sessions priced with a catalog, one for one.
pub open spec fn priced_with(priced: Seq<PricedCodexSession>, parsed: ParsedUsage, catalog: PriceCatalog) -> bool {
    &&& priced.len() == parsed.codex_sessions@.len()
    &&& forall|index: int|
        0 <= index < priced.len() ==> priced_as(#[trigger] priced[index], parsed.codex_sessions@[index], catalog.schedules())
}

/// What building a summary from priced sessions may give: `TotalsTooLarge` exactly when
/// their totals would overflow; otherwise `DateOutOfRange` whenever a session's date cannot
/// be taken, and else either a summary of them at some supported current date, with each
/// session on a local date of its start time, or `DateOutOfRange` when the clock gives an
/// unsupported date.
pub open spec fn summary_outcome_of(
    result: Result<DerivedSummary, SummaryFailure>,
    inventory: UsageSourceInventory,
    priced: Seq<PricedCodexSession>,
    notices: Seq<DataQualityNotice>,
) -> bool {
    &&& (result == Err::<DerivedSummary, SummaryFailure>(SummaryFailure::TotalsTooLarge)) == !sessions_summable(priced)
    &&& sessions_summable(priced) && !sessions_have_local_dates(priced) ==> result == Err::<
        DerivedSummary,
        SummaryFailure,
    >(SummaryFailure::DateOutOfRange)
    &&& result matches Ok(summary) ==> sessions_have_local_dates(priced) && exists|today: DateValue, local_dates: Seq<DateValue>|
        date_in_arithmetic_range(today) && local_dates_of_sessions(local_dates, priced) && derived_summary_of(
            summary,
            inventory.current_source_state,
            priced,
            notices,
            today,
            local_dates,
        )
}

/// Builds the current Derived Summary from a Usage Source Inventory and the usage parsed
/// from it: the sessions priced with the bundled Price Catalog, then summarized at the
/// current local date with the inventory's Current Source State and the parse notices.
pub fn derive_summary_from_inventory(
    usage_source_inventory: &UsageSourceInventory,
    parsed_usage: ParsedUsage,
) -> (result: Result<DerivedSummary, SummaryFailure>)
    ensures
        exists|catalog: PriceCatalog, priced: Seq<PricedCodexSession>|
            is_bundled_catalog(catalog) && priced_with(priced, parsed_usage, catalog) && summary_outcome_of(
                result,
                *usage_source_inventory,
                priced,
                parsed_usage.data_quality_notices@,
            ),
{
    let ghost parsed = parsed_usage;
    let price_catalog = PriceCatalog::bundled();
    let codex_sessions = parsed_usage.codex_sessions;
    let priced_sessions = price_sessions(codex_sessions, &price_catalog);
    let ghost priced = priced_sessions@;
    proof {
        assert(priced_with(priced, parsed, price_catalog));
    }
    if !sessions_can_be_summarized(&priced_sessions) {
        let result = Err(SummaryFailure::TotalsTooLarge);
        assert(summary_outcome_of(result, *usage_source_inventory, priced, parsed.data_quality_notices@));
        return result;
    }
    if !sessions_can_be_dated(&priced_sessions) {
        let result = Err(SummaryFailure::DateOutOfRange);
        assert(summary_outcome_of(result, *usage_source_inventory, priced, parsed.data_quality_notices@));
        return result;
    }
    let result = match build_derived_summary(
        usage_source_inventory.current_source_state.duplicate(),
        priced_sessions,
        parsed_usage.data_quality_notices,
    ) {
        Some(summary) => Ok(summary),
        None => Err(SummaryFailure::DateOutOfRange),
    };
    assert(summary_outcome_of(result, *usage_source_inventory, priced, parsed.data_quality_notices@));
    result
}

} // verus!
