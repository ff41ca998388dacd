//! Terminal navigation state, keyboard actions, Session Detail table layout and the labels
//! that the terminal presentation shows.

use vstd::prelude::*;
use crate::cost::{format_united_states_dollar_cost, usd_text, CostState, PriceScheduleMatch, PricedCodexSession};
use crate::money::{
    decimal_difference, decimal_subtract, decimal_text, decimal_text_two_places, decimal_to_text,
    decimal_to_text_two_places, normalized, whole_units, UsdAmount, SAFE_WHOLE_UNITS,
};
use crate::reporting_period::{DerivedSummary, HeadlinePeriod, ReportingPeriodKind};
use crate::session::detail_time_of;
use crate::time::{local_time_label, offset_clock_label};
use crate::text::{decimal_digits, joined, number_text, owned, pad_left, pad_right, padded_left, padded_right};

verus! {

/// Terminal actions requested by keyboard input.
#[derive(Clone, Copy, Debug, PartialEq, Eq, Structural)]
pub enum TerminalAction {
    /// Keep running the terminal interface.
    Continue,
    /// Reload Derived Summary from Current Source State.
    Reload,
    /// Quit the terminal interface cleanly.
    Quit,
}

/// A key press, as far as the terminal interface tells keys apart.
#[derive(Clone, Copy, Debug, PartialEq, Eq, Structural)]
pub enum KeyInput {
    /// A character key.
    Character(char),
    /// The Escape key.
    Escape,
    /// The Up arrow.
    Up,
    /// The Down arrow.
    Down,
    /// The Left arrow.
    Left,
    /// The Right arrow.
    Right,
    /// Any other key.
    Other,
}

/// Mutable terminal navigation and inspection state.
#[derive(Clone, Copy, Debug, PartialEq, Eq, Structural)]
pub struct TerminalInterfaceState {
    /// Selected Headline Period index.
    pub selected_headline_period_index: usize,
    /// Selected Session Detail index within the selected period.
    pub selected_session_index: usize,
}

/// The position of the first All-Time period at or after `from`, else zero.
pub open spec fn all_time_position_from(periods: Seq<HeadlinePeriod>, from: int) -> int
    decreases periods.len() - from,
{
    if from < 0 || from >= periods.len() {
        0
    } else if periods[from].kind == ReportingPeriodKind::AllTime {
        from
    } else {
        all_time_position_from(periods, from + 1)
    }
}

/// An index moved by `direction` steps: down to zero at the least, up to `last` at the most.
pub open spec fn offset(current: int, direction: int, last: int) -> int {
    if direction < 0 {
        if current + direction < 0 {
            0
        } else {
            current + direction
        }
    } else if current + direction < last {
        current + direction
    } else {
        last
    }
}

/// The number of sessions of the period at `index`, when there is one.
pub open spec fn period_session_count(periods: Seq<HeadlinePeriod>, index: int) -> Option<int> {
    if 0 <= index < periods.len() {
        Some(periods[index].session_detail@.len() as int)
    } else {
        None
    }
}

/// The state after the session selection moves by `direction`: nothing changes without a
/// selected period; an empty period selects zero; otherwise the index moves within the
/// period's sessions.
pub open spec fn session_moved(state: TerminalInterfaceState, direction: int, periods: Seq<HeadlinePeriod>) -> TerminalInterfaceState {
    match period_session_count(periods, state.selected_headline_period_index as int) {
        None => state,
        Some(count) => if count == 0 {
            TerminalInterfaceState { selected_session_index: 0, ..state }
        } else {
            TerminalInterfaceState {
                selected_session_index: offset(state.selected_session_index as int, direction, count - 1) as usize,
                ..state
            }
        },
    }
}

/// The state after the period selection moves by `direction`: nothing changes without
/// periods; otherwise the index moves within the periods and the first session is selected.
pub open spec fn period_moved(state: TerminalInterfaceState, direction: int, periods: Seq<HeadlinePeriod>) -> TerminalInterfaceState {
    if periods.len() == 0 {
        state
    } else {
        TerminalInterfaceState {
            selected_headline_period_index: offset(
                state.selected_headline_period_index as int,
                direction,
                periods.len() - 1,
            ) as usize,
            selected_session_index: 0,
        }
    }
}

/// The action a key requests: `q` and Escape quit, `r` reloads, anything else continues.
pub open spec fn key_action(key: KeyInput) -> TerminalAction {
    match key {
        KeyInput::Character(character) => if character == 'q' {
            TerminalAction::Quit
        } else if character == 'r' {
            TerminalAction::Reload
        } else {
            TerminalAction::Continue
        },
        KeyInput::Escape => TerminalAction::Quit,
        _ => TerminalAction::Continue,
    }
}

/// The state after a key: Down and `j` move the session selection down, Up and `k` up;
/// Right and `l` move the period selection right, Left and `h` left; other keys change
/// nothing.
pub open spec fn state_after_key(state: TerminalInterfaceState, key: KeyInput, periods: Seq<HeadlinePeriod>) -> TerminalInterfaceState {
    match key {
        KeyInput::Down => session_moved(state, 1, periods),
        KeyInput::Up => session_moved(state, -1, periods),
        KeyInput::Right => period_moved(state, 1, periods),
        KeyInput::Left => period_moved(state, -1, periods),
        KeyInput::Character(character) => if character == 'j' {
            session_moved(state, 1, periods)
        } else if character == 'k' {
            session_moved(state, -1, periods)
        } else if character == 'l' {
            period_moved(state, 1, periods)
        } else if character == 'h' {
            period_moved(state, -1, periods)
        } else {
            state
        },
        _ => state,
    }
}

/// The state after a reload: both indexes zero without periods; otherwise the period index
/// held to the last period and the session index to the last session of that period.
pub open spec fn reconciled(state: TerminalInterfaceState, periods: Seq<HeadlinePeriod>) -> TerminalInterfaceState {
    if periods.len() == 0 {
        TerminalInterfaceState { selected_headline_period_index: 0, selected_session_index: 0 }
    } else {
        let period_index = if (state.selected_headline_period_index as int) < periods.len() - 1 {
            state.selected_headline_period_index as int
        } else {
            periods.len() - 1
        };
        let count = periods[period_index].session_detail@.len() as int;
        TerminalInterfaceState {
            selected_headline_period_index: period_index as usize,
            selected_session_index: if count == 0 {
                0
            } else if (state.selected_session_index as int) < count - 1 {
                state.selected_session_index
            } else {
                (count - 1) as usize
            },
        }
    }
}

/// Whether a selection points at a period and, within it, at a session or at zero when it
/// has none; without periods, both indexes are zero.
pub open spec fn selection_valid(state: TerminalInterfaceState, periods: Seq<HeadlinePeriod>) -> bool {
    if periods.len() == 0 {
        state.selected_headline_period_index == 0 && state.selected_session_index == 0
    } else {
        &&& (state.selected_headline_period_index as int) < periods.len()
        &&& {
            let count = periods[state.selected_headline_period_index as int].session_detail@.len();
            if count == 0 {
                state.selected_session_index == 0
            } else {
                state.selected_session_index < count
            }
        }
    }
}

/// Moves an index by `direction` steps, no lower than zero and no higher than `last`.
pub fn offset_index(current_index: usize, direction: isize, last_index: usize) -> (result: usize)
    ensures
        result == offset(current_index as int, direction as int, last_index as int),
{
    if direction < 0 {
        let steps: usize = (-(direction + 1)) as usize + 1;
        if current_index < steps {
            0
        } else {
            current_index - steps
        }
    } else {
        let steps: usize = direction as usize;
        let moved: usize = if current_index > usize::MAX - steps {
            usize::MAX
        } else {
            current_index + steps
        };
        if moved < last_index {
            moved
        } else {
            last_index
        }
    }
}

impl TerminalInterfaceState {
    /// Creates default terminal state focused on the All-Time period.
    pub fn new(derived_summary: &DerivedSummary) -> (result: TerminalInterfaceState)
        ensures
            result.selected_headline_period_index as int == all_time_position_from(derived_summary.headline_periods@, 0),
            result.selected_session_index == 0,
    {
        let periods = &derived_summary.headline_periods;
        let mut index: usize = 0;
        while index < periods.len()
            invariant
                index <= periods.len(),
                periods@ == derived_summary.headline_periods@,
                all_time_position_from(periods@, 0) == all_time_position_from(periods@, index as int),
            decreases periods.len() - index,
        {
            let kind = periods[index].kind;
            if kind == ReportingPeriodKind::AllTime {
                assert(periods@[index as int].kind == ReportingPeriodKind::AllTime);
                return TerminalInterfaceState { selected_headline_period_index: index, selected_session_index: 0 };
            }
            index = index + 1;
        }
        TerminalInterfaceState { selected_headline_period_index: 0, selected_session_index: 0 }
    }

    /// The selected Headline Period, when the index points at one.
    pub fn selected_period<'a>(&self, derived_summary: &'a DerivedSummary) -> (result: Option<&'a HeadlinePeriod>)
        ensures
            match result {
                Some(period) => (self.selected_headline_period_index as int) < derived_summary.headline_periods@.len()
                    && *period == derived_summary.headline_periods@[self.selected_headline_period_index as int],
                None => (self.selected_headline_period_index as int) >= derived_summary.headline_periods@.len(),
            },
    {
        if self.selected_headline_period_index < derived_summary.headline_periods.len() {
            Some(&derived_summary.headline_periods[self.selected_headline_period_index])
        } else {
            None
        }
    }

    /// Moves the period selection and selects the period's first session.
    pub fn move_period_selection(&mut self, direction: isize, derived_summary: &DerivedSummary)
        ensures
            *final(self) == period_moved(*old(self), direction as int, derived_summary.headline_periods@),
    {
        if derived_summary.headline_periods.len() == 0 {
            return;
        }
        let last_index = derived_summary.headline_periods.len() - 1;
        self.selected_headline_period_index = offset_index(self.selected_headline_period_index, direction, last_index);
        self.selected_session_index = 0;
    }

    /// Moves the session selection within the selected period.
    pub fn move_session_selection(&mut self, direction: isize, derived_summary: &DerivedSummary)
        ensures
            *final(self) == session_moved(*old(self), direction as int, derived_summary.headline_periods@),
    {
        let session_count = match self.selected_period(derived_summary) {
            Some(period) => period.session_detail.len(),
            None => {
                return;
            },
        };
        if session_count == 0 {
            self.selected_session_index = 0;
            return;
        }
        self.selected_session_index = offset_index(self.selected_session_index, direction, session_count - 1);
    }

    /// Applies one key press and returns the requested terminal action.
    pub fn handle_key_code(&mut self, key_code: KeyInput, derived_summary: &DerivedSummary) -> (result: TerminalAction)
        ensures
            result == key_action(key_code),
            *final(self) == state_after_key(*old(self), key_code, derived_summary.headline_periods@),
    {
        match key_code {
            KeyInput::Character(character) => {
                if character == 'q' {
                    TerminalAction::Quit
                } else if character == 'r' {
                    TerminalAction::Reload
                } else if character == 'j' {
                    self.move_session_selection(1, derived_summary);
                    TerminalAction::Continue
                } else if character == 'k' {
                    self.move_session_selection(-1, derived_summary);
                    TerminalAction::Continue
                } else if character == 'l' {
                    self.move_period_selection(1, derived_summary);
                    TerminalAction::Continue
                } else if character == 'h' {
                    self.move_period_selection(-1, derived_summary);
                    TerminalAction::Continue
                } else {
                    TerminalAction::Continue
                }
            },
            KeyInput::Escape => TerminalAction::Quit,
            KeyInput::Down => {
                self.move_session_selection(1, derived_summary);
                TerminalAction::Continue
            },
            KeyInput::Up => {
                self.move_session_selection(-1, derived_summary);
                TerminalAction::Continue
            },
            KeyInput::Right => {
                self.move_period_selection(1, derived_summary);
                TerminalAction::Continue
            },
            KeyInput::Left => {
                self.move_period_selection(-1, derived_summary);
                TerminalAction::Continue
            },
            KeyInput::Other => TerminalAction::Continue,
        }
    }

    /// Keeps selection indexes valid after a Derived Summary reload.
    pub fn reconcile_with_summary(&mut self, derived_summary: &DerivedSummary)
        ensures
            *final(self) == reconciled(*old(self), derived_summary.headline_periods@),
    {
        let period_count = derived_summary.headline_periods.len();
        if period_count == 0 {
            self.selected_headline_period_index = 0;
            self.selected_session_index = 0;
            return;
        }
        if self.selected_headline_period_index >= period_count - 1 {
            self.selected_headline_period_index = period_count - 1;
        }
        let session_count = derived_summary.headline_periods[self.selected_headline_period_index].session_detail.len();
        if session_count == 0 {
            self.selected_session_index = 0;
        } else if self.selected_session_index >= session_count - 1 {
            self.selected_session_index = session_count - 1;
        }
    }
}

/// The first Session Detail row shown: zero when all sessions fit or no row is shown;
/// otherwise as far down as keeps the selected row in the last visible place, no further
/// than shows the last row.
pub open spec fn visible_start(selected: int, count: int, maximum: int) -> int {
    if maximum == 0 || count <= maximum {
        0
    } else {
        let past_selected = if selected + 1 > usize::MAX {
            usize::MAX as int
        } else {
            selected + 1
        };
        let start = if past_selected < maximum {
            0
        } else {
            past_selected - maximum
        };
        if start < count - maximum {
            start
        } else {
            count - maximum
        }
    }
}

/// The first Session Detail row shown for the selected row.
pub fn visible_session_start_index(
    selected_session_index: usize,
    session_count: usize,
    maximum_visible_session_count: usize,
) -> (result: usize)
    ensures
        result as int == visible_start(
            selected_session_index as int,
            session_count as int,
            maximum_visible_session_count as int,
        ),
{
    if maximum_visible_session_count == 0 || session_count <= maximum_visible_session_count {
        return 0;
    }
    let past_selected: usize = if selected_session_index == usize::MAX {
        usize::MAX
    } else {
        selected_session_index + 1
    };
    let start: usize = if past_selected < maximum_visible_session_count {
        0
    } else {
        past_selected - maximum_visible_session_count
    };
    let last_start: usize = session_count - maximum_visible_session_count;
    if start < last_start {
        start
    } else {
        last_start
    }
}

/// The least width of each Session Detail column: Status, Time, Project, Agent, Model,
/// Cost, Price / Million and Tokens.
pub open spec fn minimum_column_width(column: int) -> int {
    if column == 0 {
        6
    } else if column == 1 {
        7
    } else if column == 2 {
        10
    } else if column == 3 {
        6
    } else if column == 4 {
        14
    } else if column == 5 {
        7
    } else if column == 6 {
        25
    } else {
        12
    }
}

/// The columns' least widths together.
pub open spec fn minimum_table_width() -> int {
    87
}

/// The width of a Session Detail column in a panel `panel_width` wide, with one space
/// between columns: the least width where the panel leaves nothing over; otherwise the
/// least width plus an equal share of what is over, the first columns taking one more each
/// until the remainder is used up.
pub open spec fn column_width(panel_width: int, column: int) -> int {
    let available = if panel_width < 7 {
        0
    } else {
        panel_width - 7
    };
    if available <= minimum_table_width() {
        minimum_column_width(column)
    } else {
        let extra = available - minimum_table_width();
        minimum_column_width(column) + extra / 8 + if column < extra % 8 {
            1int
        } else {
            0int
        }
    }
}

/// The least width of a Session Detail column.
fn minimum_width_of(column: usize) -> (result: u16)
    requires
        column < 8,
    ensures
        result as int == minimum_column_width(column as int),
{
    if column == 0 {
        6
    } else if column == 1 {
        7
    } else if column == 2 {
        10
    } else if column == 3 {
        6
    } else if column == 4 {
        14
    } else if column == 5 {
        7
    } else if column == 6 {
        25
    } else {
        12
    }
}

/// Session Detail column widths that fill the whole panel width.
pub fn session_table_column_constraints(session_area_width: u16) -> (result: Vec<u16>)
    ensures
        result@.len() == 8,
        forall|column: int| 0 <= column < 8 ==> result@[column] as int == column_width(session_area_width as int, column),
{
    let available: u16 = if session_area_width < 7 {
        0
    } else {
        session_area_width - 7
    };
    let mut widths: Vec<u16> = Vec::new();
    let mut column: usize = 0;
    while column < 8
        invariant
            column <= 8,
            widths@.len() == column,
            available as int == if (session_area_width as int) < 7 {
                0
            } else {
                session_area_width as int - 7
            },
            forall|earlier: int| 0 <= earlier < column ==> widths@[earlier] as int == column_width(
                session_area_width as int,
                earlier,
            ),
        decreases 8 - column,
    {
        let minimum = minimum_width_of(column);
        let width: u16 = if available <= 87 {
            minimum
        } else {
            let extra: u16 = available - 87;
            let bonus: u16 = if (column as u16) < extra % 8 {
                1
            } else {
                0
            };
            proof {
                assert(extra / 8 <= 8192) by (nonlinear_arith)
                    requires
                        extra <= 65535,
                ;
            }
            minimum + extra / 8 + bonus
        };
        widths.push(width);
        column = column + 1;
    }
    widths
}

/// The label of a Reporting Period.
pub open spec fn period_label(kind: ReportingPeriodKind) -> Seq<char> {
    match kind {
        ReportingPeriodKind::Daily => "Today"@,
        ReportingPeriodKind::Weekly => "This Week"@,
        ReportingPeriodKind::Monthly => "This Month"@,
        ReportingPeriodKind::AllTime => "All Time"@,
    }
}

/// The label of a Reporting Period.
pub fn reporting_period_label(kind: &ReportingPeriodKind) -> (result: &'static str)
    ensures
        result@ == period_label(*kind),
{
    match kind {
        ReportingPeriodKind::Daily => "Today",
        ReportingPeriodKind::Weekly => "This Week",
        ReportingPeriodKind::Monthly => "This Month",
        ReportingPeriodKind::AllTime => "All Time",
    }
}

/// What a cost change is compared with, by Reporting Period.
pub open spec fn comparison_label(kind: ReportingPeriodKind) -> Seq<char> {
    match kind {
        ReportingPeriodKind::Daily => "vs yesterday"@,
        ReportingPeriodKind::Weekly => "vs last week"@,
        ReportingPeriodKind::Monthly => "vs last month"@,
        ReportingPeriodKind::AllTime => "vs previous all time"@,
    }
}

/// What a cost change is compared with, by Reporting Period.
pub fn previous_period_comparison_label(kind: &ReportingPeriodKind) -> (result: &'static str)
    ensures
        result@ == comparison_label(*kind),
{
    match kind {
        ReportingPeriodKind::Daily => "vs yesterday",
        ReportingPeriodKind::Weekly => "vs last week",
        ReportingPeriodKind::Monthly => "vs last month",
        ReportingPeriodKind::AllTime => "vs previous all time",
    }
}

/// The Data Quality label: `OK` without notices, else the count of notices.
pub open spec fn quality_label(count: nat) -> Seq<char> {
    if count == 0 {
        "Data Quality: OK"@
    } else if count == 1 {
        "Data Quality: "@ + decimal_digits(count) + " notice"@
    } else {
        "Data Quality: "@ + decimal_digits(count) + " notices"@
    }
}

/// The Data Quality label for a number of notices.
pub fn data_quality_summary_label(data_quality_notice_count: usize) -> (result: String)
    ensures
        result@ == quality_label(data_quality_notice_count as nat),
{
    if data_quality_notice_count == 0 {
        return owned("Data Quality: OK");
    }
    let notice_word = if data_quality_notice_count == 1 {
        " notice"
    } else {
        " notices"
    };
    let count = number_text(data_quality_notice_count);
    let with_count = joined("Data Quality: ", count.as_str());
    joined(with_count.as_str(), notice_word)
}

/// The status label of a session: active, fully priced, or not fully priced.
pub open spec fn status_label(session: PricedCodexSession) -> Seq<char> {
    if session.codex_session.is_active {
        "● Act"@
    } else {
        match session.cost_state {
            CostState::Complete { .. } => "● OK"@,
            _ => "◐ Inc"@,
        }
    }
}

/// The status label of a session.
pub fn session_status_label(priced_session: &PricedCodexSession) -> (result: &'static str)
    ensures
        result@ == status_label(*priced_session),
{
    if priced_session.codex_session.is_active {
        return "● Act";
    }
    match priced_session.cost_state {
        CostState::Complete { .. } => "● OK",
        _ => "◐ Inc",
    }
}

/// The cost label of a session: its cost, its known cost, or a dash where none is known.
pub open spec fn cost_label(cost_state: CostState) -> Seq<char> {
    match cost_state {
        CostState::Complete { united_states_dollar_cost } => usd_text(united_states_dollar_cost@),
        CostState::Partial { known_united_states_dollar_cost, .. } => usd_text(known_united_states_dollar_cost@),
        CostState::Incomplete { .. } => "—"@,
    }
}

/// The cost label of a session.
pub fn session_cost_label(cost_state: &CostState) -> (result: String)
    ensures
        result@ == cost_label(*cost_state),
{
    match cost_state {
        CostState::Complete { united_states_dollar_cost } => format_united_states_dollar_cost(*united_states_dollar_cost),
        CostState::Partial { known_united_states_dollar_cost, .. } => format_united_states_dollar_cost(
            *known_united_states_dollar_cost,
        ),
        CostState::Incomplete { .. } => owned("—"),
    }
}

/// A price per million tokens: `$` and the price without trailing zeros where that leaves
/// more than two fraction digits, else with exactly two.
pub open spec fn price_text(price: (int, nat)) -> Seq<char> {
    if normalized(price).1 > 2 {
        "$"@ + decimal_text(normalized(price))
    } else {
        "$"@ + decimal_text_two_places(normalized(price))
    }
}

/// A price per million tokens.
pub fn format_united_states_dollar_price_per_million_tokens(price_per_million_tokens: UsdAmount) -> (result: String)
    ensures
        result@ == price_text(price_per_million_tokens@),
{
    let normalized_price = price_per_million_tokens.normalize();
    let digits = if normalized_price.scale() > 2 {
        decimal_to_text(normalized_price)
    } else {
        decimal_to_text_two_places(normalized_price)
    };
    joined("$", digits.as_str())
}

/// The pricing label of a session: its input and output prices, or `Unpriced`.
pub open spec fn pricing_label(price_schedule_match: Option<PriceScheduleMatch>) -> Seq<char> {
    match price_schedule_match {
        Some(found) => "Input "@ + price_text(found.input_tokens_per_million@) + " Output "@ + price_text(
            found.output_tokens_per_million@,
        ),
        None => "Unpriced"@,
    }
}

/// The pricing label of a session.
pub fn session_pricing_label(price_schedule_match: Option<&PriceScheduleMatch>) -> (result: String)
    ensures
        result@ == pricing_label(
            match price_schedule_match {
                Some(found) => Some(*found),
                None => None,
            },
        ),
{
    match price_schedule_match {
        Some(found) => {
            let input = format_united_states_dollar_price_per_million_tokens(found.input_tokens_per_million);
            let output = format_united_states_dollar_price_per_million_tokens(found.output_tokens_per_million);
            let first = joined("Input ", input.as_str());
            let second = joined(first.as_str(), " Output ");
            joined(second.as_str(), output.as_str())
        },
        None => owned("Unpriced"),
    }
}

/// A cost change: `+` before a rise, `-` before a fall, each with the size of the change.
pub open spec fn signed_text(cost: (int, nat)) -> Seq<char> {
    if cost.0 > 0 {
        "+"@ + usd_text(cost)
    } else if cost.0 < 0 {
        "-"@ + usd_text((-cost.0, cost.1))
    } else {
        usd_text(cost)
    }
}

/// A cost change with its sign.
pub fn format_signed_united_states_dollar_cost(cost: UsdAmount) -> (result: String)
    ensures
        result@ == signed_text(cost@),
{
    let absolute_cost = if cost.is_negative() {
        cost.negated()
    } else {
        cost
    };
    let formatted_cost = format_united_states_dollar_cost(absolute_cost);
    if cost.is_positive() {
        joined("+", formatted_cost.as_str())
    } else if cost.is_negative() {
        joined("-", formatted_cost.as_str())
    } else {
        formatted_cost
    }
}

/// Whether the period's cost change can be computed without overflow.
pub open spec fn change_fits(period: HeadlinePeriod) -> bool {
    match period.previous_period_known_united_states_dollar_cost {
        Some(previous) => whole_units(period.summary_totals.known_united_states_dollar_cost@) + whole_units(previous@)
            + 2 <= SAFE_WHOLE_UNITS as int,
        None => true,
    }
}

/// The cost change label of a period: the signed change from the previous period with what
/// it is compared with, or `no comparison`.
pub open spec fn change_label(period: HeadlinePeriod) -> Seq<char> {
    match period.previous_period_known_united_states_dollar_cost {
        Some(previous) => signed_text(decimal_difference(period.summary_totals.known_united_states_dollar_cost@, previous@))
            + " "@ + comparison_label(period.kind),
        None => "no comparison"@,
    }
}

/// The cost change label of a period.
pub fn period_cost_change_label(headline_period: &HeadlinePeriod) -> (result: String)
    requires
        change_fits(*headline_period),
    ensures
        result@ == change_label(*headline_period),
{
    match headline_period.previous_period_known_united_states_dollar_cost {
        Some(previous) => {
            let change = decimal_subtract(headline_period.summary_totals.known_united_states_dollar_cost, previous);
            let signed = format_signed_united_states_dollar_cost(change);
            let with_space = joined(signed.as_str(), " ");
            joined(with_space.as_str(), previous_period_comparison_label(&headline_period.kind))
        },
        None => owned("no comparison"),
    }
}

/// The Session Detail table header row, its columns padded as the rows are.
pub open spec fn table_row_text(columns: Seq<Seq<char>>) -> Seq<char> {
    padded_right(columns[0], 6) + "  "@ + padded_right(columns[1], 7) + "  "@ + padded_right(columns[2], 10)
        + "  "@ + padded_right(columns[3], 6) + "  "@ + padded_right(columns[4], 14) + "  "@ + padded_left(
        columns[5],
        7,
    ) + "  "@ + padded_right(columns[6], 25) + "  "@ + padded_left(columns[7], 14)
}

/// A Session Detail text row of eight columns.
pub fn session_table_row(columns: &Vec<String>) -> (result: String)
    requires
        columns@.len() == 8,
    ensures
        result@ == table_row_text(columns@.map_values(|column: String| column@)),
{
    let ghost texts = columns@.map_values(|column: String| column@);
    let mut row = pad_right(columns[0].as_str(), 6);
    row = joined(row.as_str(), "  ");
    row = joined(row.as_str(), pad_right(columns[1].as_str(), 7).as_str());
    row = joined(row.as_str(), "  ");
    row = joined(row.as_str(), pad_right(columns[2].as_str(), 10).as_str());
    row = joined(row.as_str(), "  ");
    row = joined(row.as_str(), pad_right(columns[3].as_str(), 6).as_str());
    row = joined(row.as_str(), "  ");
    row = joined(row.as_str(), pad_right(columns[4].as_str(), 14).as_str());
    row = joined(row.as_str(), "  ");
    row = joined(row.as_str(), pad_left(columns[5].as_str(), 7).as_str());
    row = joined(row.as_str(), "  ");
    row = joined(row.as_str(), pad_right(columns[6].as_str(), 25).as_str());
    row = joined(row.as_str(), "  ");
    row = joined(row.as_str(), pad_left(columns[7].as_str(), 14).as_str());
    proof {
        assert(texts[0] == columns@[0]@);
        assert(texts[1] == columns@[1]@);
        assert(texts[2] == columns@[2]@);
        assert(texts[3] == columns@[3]@);
        assert(texts[4] == columns@[4]@);
        assert(texts[5] == columns@[5]@);
        assert(texts[6] == columns@[6]@);
        assert(texts[7] == columns@[7]@);
    }
    row
}

/// The eight texts given, as a list.
fn eight_columns(texts: [&str; 8]) -> (result: Vec<String>)
    ensures
        result@.len() == 8,
        forall|column: int| 0 <= column < 8 ==> (#[trigger] result@[column])@ == texts[column]@,
{
    let mut columns: Vec<String> = Vec::new();
    let mut column: usize = 0;
    while column < 8
        invariant
            column <= 8,
            columns@.len() == column,
            forall|earlier: int| 0 <= earlier < column ==> (#[trigger] columns@[earlier])@ == texts[earlier]@,
        decreases 8 - column,
    {
        columns.push(owned(texts[column]));
        column = column + 1;
    }
    columns
}

/// The Session Detail header titles.
pub open spec fn header_titles() -> Seq<Seq<char>> {
    seq!["Status"@, "Time"@, "Project"@, "Agent"@, "Model"@, "Cost"@, "Price / Million"@, "Tokens"@]
}

/// The Session Detail text header.
pub fn session_table_header() -> (result: String)
    ensures
        result@ == table_row_text(header_titles()),
{
    let columns = eight_columns(["Status", "Time", "Project", "Agent", "Model", "Cost", "Price / Million", "Tokens"]);
    proof {
        assert(columns@.map_values(|column: String| column@) =~= header_titles());
    }
    session_table_row(&columns)
}

/// The Session Detail separator rules, one per column at its least width.
pub open spec fn separator_rules() -> Seq<Seq<char>> {
    seq![
        "──────"@,
        "───────"@,
        "──────────"@,
        "──────"@,
        "──────────────"@,
        "───────"@,
        "─────────────────────────"@,
        "──────────────"@,
    ]
}

/// The Session Detail text separator.
pub fn session_table_separator() -> (result: String)
    ensures
        result@ == table_row_text(separator_rules()),
{
    let columns = eight_columns(
        [
            "──────",
            "───────",
            "──────────",
            "──────",
            "──────────────",
            "───────",
            "─────────────────────────",
            "──────────────",
        ],
    );
    proof {
        assert(columns@.map_values(|column: String| column@) =~= separator_rules());
    }
    session_table_row(&columns)
}

/// A key press keeps a valid selection valid: the selected period stays one of the periods
/// and the selected session one of its sessions.
pub proof fn law_keys_keep_selection_valid(state: TerminalInterfaceState, key: KeyInput, periods: Seq<HeadlinePeriod>)
    requires
        selection_valid(state, periods),
    ensures
        selection_valid(state_after_key(state, key, periods), periods),
{
}

/// Quit and reload keys leave the selection as it was.
pub proof fn law_quit_and_reload_keep_selection(state: TerminalInterfaceState, key: KeyInput, periods: Seq<HeadlinePeriod>)
    requires
        key_action(key) != TerminalAction::Continue,
    ensures
        state_after_key(state, key, periods) == state,
{
}

/// After a reload, the reconciled selection is valid for the new periods, whatever it was.
pub proof fn law_reconciled_selection_is_valid(state: TerminalInterfaceState, periods: Seq<HeadlinePeriod>)
    ensures
        selection_valid(reconciled(state, periods), periods),
{
}

/// Reconciling a selection that is already valid leaves it unchanged.
pub proof fn law_reconcile_keeps_valid_selection(state: TerminalInterfaceState, periods: Seq<HeadlinePeriod>)
    requires
        selection_valid(state, periods),
    ensures
        reconciled(state, periods) == state,
{
}

/// The selection that a new state starts with is valid.
pub proof fn law_new_selection_is_valid(periods: Seq<HeadlinePeriod>)
    ensures
        selection_valid(
            TerminalInterfaceState {
                selected_headline_period_index: all_time_position_from(periods, 0) as usize,
                selected_session_index: 0,
            },
            periods,
        ),
{
    lemma_all_time_position_in_range(periods, 0);
}

/// The All-Time position is zero or the position of a period.
proof fn lemma_all_time_position_in_range(periods: Seq<HeadlinePeriod>, from: int)
    ensures
        all_time_position_from(periods, from) == 0 || 0 <= all_time_position_from(periods, from) < periods.len(),
    decreases periods.len() - from,
{
    if 0 <= from < periods.len() && periods[from].kind != ReportingPeriodKind::AllTime {
        lemma_all_time_position_in_range(periods, from + 1);
    }
}

/// The selected Session Detail row is among the rows shown, and the shown rows are rows of
/// the period.
pub proof fn law_selected_session_is_visible(selected: int, count: int, maximum: int)
    requires
        0 <= selected < count,
        0 < maximum,
        count <= usize::MAX,
    ensures
        visible_start(selected, count, maximum) <= selected < visible_start(selected, count, maximum) + maximum,
        count > maximum ==> visible_start(selected, count, maximum) + maximum <= count,
        visible_start(selected, count, maximum) >= 0,
{
}

/// Where the panel is wide enough for every column's least width and the spaces between
/// columns, the columns and spaces fill it exactly; otherwise each column has its least
/// width.
pub proof fn law_columns_fill_panel(panel_width: int)
    ensures
        panel_width >= 94 ==> column_width(panel_width, 0) + column_width(panel_width, 1) + column_width(panel_width, 2)
            + column_width(panel_width, 3) + column_width(panel_width, 4) + column_width(panel_width, 5) + column_width(
            panel_width,
            6,
        ) + column_width(panel_width, 7) + 7 == panel_width,
        panel_width < 95 ==> forall|column: int| 0 <= column < 8 ==> #[trigger] column_width(panel_width, column)
            == minimum_column_width(column),
{
    if panel_width >= 95 {
        let extra = panel_width - 7 - 87;
        assert(extra == 8 * (extra / 8) + extra % 8) by (nonlinear_arith);
        assert(0 <= extra % 8 < 8) by (nonlinear_arith)
            requires
                extra >= 0,
        ;
    }
}

/// The Session Detail time of a session, its last-modified time when known and else its
/// start time, as local wall-clock time in twelve-hour form.
pub fn session_time_label(priced_session: &PricedCodexSession) -> (result: String)
    ensures
        exists|offset: int|
            -86400 < offset < 86400 && result@ == #[trigger] offset_clock_label(
                detail_time_of(priced_session.codex_session)@.0,
                offset,
            ),
{
    let shown_time = priced_session.codex_session.session_detail_time();
    local_time_label(&shown_time)
}

/// Whether the period's cost change can be computed without overflow.
pub fn cost_change_fits(headline_period: &HeadlinePeriod) -> (result: bool)
    ensures
        result == change_fits(*headline_period),
{
    match headline_period.previous_period_known_united_states_dollar_cost {
        Some(previous) => {
            let current_units = headline_period.summary_totals.known_united_states_dollar_cost.whole_units();
            let previous_units = previous.whole_units();
            current_units <= SAFE_WHOLE_UNITS && previous_units <= SAFE_WHOLE_UNITS - current_units
                && SAFE_WHOLE_UNITS - current_units - previous_units >= 2
        },
        None => true,
    }
}

/// How a period's known cost moved from the previous period.
#[derive(Clone, Copy, Debug, PartialEq, Eq, Structural)]
pub enum CostChangeDirection {
    /// The known cost rose.
    Rise,
    /// The known cost fell.
    Fall,
    /// The known cost stayed the same.
    Flat,
}

/// The direction of a period's cost change, when it has a previous period: by the sign of
/// the `Decimal` difference.
pub open spec fn change_direction(period: HeadlinePeriod) -> Option<CostChangeDirection> {
    match period.previous_period_known_united_states_dollar_cost {
        Some(previous) => {
            let change = decimal_difference(period.summary_totals.known_united_states_dollar_cost@, previous@);
            Some(
                if change.0 > 0 {
                    CostChangeDirection::Rise
                } else if change.0 < 0 {
                    CostChangeDirection::Fall
                } else {
                    CostChangeDirection::Flat
                },
            )
        },
        None => None,
    }
}

/// The direction of a period's cost change, which the terminal colors.
pub fn period_cost_change_direction(headline_period: &HeadlinePeriod) -> (result: Option<CostChangeDirection>)
    requires
        change_fits(*headline_period),
    ensures
        result == change_direction(*headline_period),
{
    match headline_period.previous_period_known_united_states_dollar_cost {
        Some(previous) => {
            let change = decimal_subtract(headline_period.summary_totals.known_united_states_dollar_cost, previous);
            if change.is_positive() {
                Some(CostChangeDirection::Rise)
            } else if change.is_negative() {
                Some(CostChangeDirection::Fall)
            } else {
                Some(CostChangeDirection::Flat)
            }
        },
        None => None,
    }
}

/// The first period of a kind, when there is one.
pub open spec fn first_period_of_kind(periods: Seq<HeadlinePeriod>, kind: ReportingPeriodKind, from: int) -> Option<int>
    decreases periods.len() - from,
{
    if from < 0 || from >= periods.len() {
        None
    } else if periods[from].kind == kind {
        Some(from)
    } else {
        first_period_of_kind(periods, kind, from + 1)
    }
}

/// The first Headline Period of a kind.
pub fn selected_period<'a>(derived_summary: &'a DerivedSummary, reporting_period_kind: &ReportingPeriodKind) -> (result: Option<
    &'a HeadlinePeriod,
>)
    ensures
        match first_period_of_kind(derived_summary.headline_periods@, *reporting_period_kind, 0) {
            Some(index) => result == Some(&derived_summary.headline_periods@[index]),
            None => result is None,
        },
{
    let periods = &derived_summary.headline_periods;
    let mut index: usize = 0;
    while index < periods.len()
        invariant
            index <= periods.len(),
            periods@ == derived_summary.headline_periods@,
            first_period_of_kind(periods@, *reporting_period_kind, 0) == first_period_of_kind(
                periods@,
                *reporting_period_kind,
                index as int,
            ),
        decreases periods.len() - index,
    {
        let kind = periods[index].kind;
        if kind == *reporting_period_kind {
            assert(periods@[index as int].kind == *reporting_period_kind);
            return Some(&periods[index]);
        }
        index = index + 1;
    }
    None
}

/// The terminal names the periods Today, This Week, This Month and All Time, and compares
/// them with yesterday, last week, last month and the previous all time.
pub proof fn law_period_labels()
    ensures
        period_label(ReportingPeriodKind::Daily) == "Today"@,
        period_label(ReportingPeriodKind::Weekly) == "This Week"@,
        period_label(ReportingPeriodKind::Monthly) == "This Month"@,
        period_label(ReportingPeriodKind::AllTime) == "All Time"@,
        comparison_label(ReportingPeriodKind::Daily) == "vs yesterday"@,
        comparison_label(ReportingPeriodKind::Weekly) == "vs last week"@,
        comparison_label(ReportingPeriodKind::Monthly) == "vs last month"@,
        comparison_label(ReportingPeriodKind::AllTime) == "vs previous all time"@,
{
}

/// A session's status is active while no completion was seen; otherwise OK exactly when its
/// cost is complete, and incomplete otherwise.
pub proof fn law_status_labels(session: PricedCodexSession)
    ensures
        session.codex_session.is_active ==> status_label(session) == "● Act"@,
        !session.codex_session.is_active && session.cost_state is Complete ==> status_label(session) == "● OK"@,
        !session.codex_session.is_active && !(session.cost_state is Complete) ==> status_label(session) == "◐ Inc"@,
{
}

} // verus!
