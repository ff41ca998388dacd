//! Token Snapshots and usage records: how their counts are read and added up.

use vstd::prelude::*;
use crate::json::{json_get, unsigned_member, JsonValue};
use crate::session::TokenTotals;

verus! {

/// A token count that would not fit in `u64` while usage records were added up.
#[derive(Clone, Copy, Debug, PartialEq, Eq, Structural)]
pub struct TokenCountOverflow;

/// Token categories counted without a bound, before they are held as `u64`.
pub struct TokenCountModel {
    pub input_tokens: Option<int>,
    pub non_cached_input_tokens: Option<int>,
    pub cache_read_tokens: Option<int>,
    pub cache_write_tokens: Option<int>,
    pub output_tokens: Option<int>,
    pub reasoning_output_tokens: Option<int>,
    pub total_tokens: Option<int>,
}

/// An optional count as an optional integer.
pub open spec fn widened(value: Option<u64>) -> Option<int> {
    match value {
        Some(count) => Some(count as int),
        None => None,
    }
}

/// The first count that is present.
pub open spec fn either(first: Option<int>, second: Option<int>) -> Option<int> {
    match first {
        Some(count) => Some(count),
        None => second,
    }
}

/// The sum of two counts when both are present.
pub open spec fn optional_sum(left: Option<u64>, right: Option<u64>) -> Option<int> {
    match (left, right) {
        (Some(first), Some(second)) => Some(first + second),
        _ => None,
    }
}

/// A running total after a count is added: an absent count leaves it as it was, and a
/// present one is added to it, an absent total counting as zero.
pub open spec fn accumulated(total: Option<int>, value: Option<int>) -> Option<int> {
    match value {
        Some(count) => Some(
            match total {
                Some(before) => before + count,
                None => count,
            },
        ),
        None => total,
    }
}

/// Non-Cached Input Tokens: Input Tokens less Cache Read Tokens when both are known and
/// the first is not the smaller; otherwise the fallback.
pub open spec fn cache_adjusted(input: Option<int>, cache_read: Option<int>, fallback: Option<int>) -> Option<int> {
    match (input, cache_read) {
        (Some(all_input), Some(cached)) => if all_input >= cached {
            Some(all_input - cached)
        } else {
            fallback
        },
        _ => fallback,
    }
}

/// Whether an optional count fits in `u64`.
pub open spec fn fits_u64(value: Option<int>) -> bool {
    match value {
        Some(count) => 0 <= count <= u64::MAX,
        None => true,
    }
}

/// An optional count that fits in `u64`, as one.
pub open spec fn narrowed(value: Option<int>) -> Option<u64> {
    match value {
        Some(count) => Some(count as u64),
        None => None,
    }
}

/// Whether every category fits in `u64`.
pub open spec fn model_fits(model: TokenCountModel) -> bool {
    &&& fits_u64(model.input_tokens)
    &&& fits_u64(model.non_cached_input_tokens)
    &&& fits_u64(model.cache_read_tokens)
    &&& fits_u64(model.cache_write_tokens)
    &&& fits_u64(model.output_tokens)
    &&& fits_u64(model.reasoning_output_tokens)
    &&& fits_u64(model.total_tokens)
}

/// The counts as Token Totals; `None` where one of them does not fit in `u64`.
pub open spec fn totals_of_model(model: TokenCountModel) -> Option<TokenTotals> {
    if model_fits(model) {
        Some(
            TokenTotals {
                input_tokens: narrowed(model.input_tokens),
                non_cached_input_tokens: narrowed(model.non_cached_input_tokens),
                cache_read_tokens: narrowed(model.cache_read_tokens),
                cache_write_tokens: narrowed(model.cache_write_tokens),
                output_tokens: narrowed(model.output_tokens),
                reasoning_output_tokens: narrowed(model.reasoning_output_tokens),
                total_tokens: narrowed(model.total_tokens),
            },
        )
    } else {
        None
    }
}

/// The member `key` of `value`, else its member `other`.
pub open spec fn either_member(value: JsonValue, key: Seq<char>, other: Seq<char>) -> Option<JsonValue> {
    match json_get(value, key) {
        Some(member) => Some(member),
        None => json_get(value, other),
    }
}

/// The counts of a Codex `token_count` event's `info` object: `None` where it has no
/// `total_token_usage` member.
pub open spec fn codex_snapshot_model(info: JsonValue) -> Option<TokenCountModel> {
    match json_get(info, "total_token_usage"@) {
        Some(usage) => {
            let input = unsigned_member(usage, "input_tokens"@);
            let cache_read = either(
                widened(unsigned_member(usage, "cached_input_tokens"@)),
                widened(unsigned_member(usage, "cache_read_tokens"@)),
            );
            let output = unsigned_member(usage, "output_tokens"@);
            Some(
                TokenCountModel {
                    input_tokens: widened(input),
                    non_cached_input_tokens: cache_adjusted(
                        widened(input),
                        cache_read,
                        widened(unsigned_member(usage, "non_cached_input_tokens"@)),
                    ),
                    cache_read_tokens: cache_read,
                    cache_write_tokens: either(
                        widened(unsigned_member(usage, "cache_creation_input_tokens"@)),
                        widened(unsigned_member(usage, "cache_write_tokens"@)),
                    ),
                    output_tokens: widened(output),
                    reasoning_output_tokens: widened(unsigned_member(usage, "reasoning_output_tokens"@)),
                    total_tokens: either(
                        widened(unsigned_member(usage, "total_tokens"@)),
                        optional_sum(input, output),
                    ),
                },
            )
        },
        None => None,
    }
}

/// The running totals after one Pi assistant message's `usage` object is added.
pub open spec fn pi_usage_model(totals: TokenTotals, usage: JsonValue) -> TokenCountModel {
    let input = accumulated(widened(totals.input_tokens), widened(unsigned_member(usage, "input"@)));
    let cache_read = accumulated(
        widened(totals.cache_read_tokens),
        widened(unsigned_member(usage, "cacheRead"@)),
    );
    TokenCountModel {
        input_tokens: input,
        non_cached_input_tokens: cache_adjusted(input, cache_read, widened(totals.non_cached_input_tokens)),
        cache_read_tokens: cache_read,
        cache_write_tokens: accumulated(
            widened(totals.cache_write_tokens),
            widened(unsigned_member(usage, "cacheWrite"@)),
        ),
        output_tokens: accumulated(widened(totals.output_tokens), widened(unsigned_member(usage, "output"@))),
        reasoning_output_tokens: widened(totals.reasoning_output_tokens),
        total_tokens: accumulated(
            widened(totals.total_tokens),
            either(
                widened(unsigned_member(usage, "totalTokens"@)),
                optional_sum(unsigned_member(usage, "input"@), unsigned_member(usage, "output"@)),
            ),
        ),
    }
}

/// The first of two members that is a count.
pub open spec fn count_member(value: JsonValue, key: Seq<char>, other: Seq<char>) -> Option<int> {
    either(widened(unsigned_member(value, key)), widened(unsigned_member(value, other)))
}

/// The running totals after one OpenCode assistant message's `usage` object is added.
pub open spec fn opencode_usage_model(totals: TokenTotals, usage: JsonValue) -> TokenCountModel {
    let input = accumulated(widened(totals.input_tokens), count_member(usage, "input"@, "inputTokens"@));
    let cache_read = accumulated(
        widened(totals.cache_read_tokens),
        count_member(usage, "cacheRead"@, "cacheReadTokens"@),
    );
    TokenCountModel {
        input_tokens: input,
        non_cached_input_tokens: cache_adjusted(input, cache_read, widened(totals.non_cached_input_tokens)),
        cache_read_tokens: cache_read,
        cache_write_tokens: accumulated(
            widened(totals.cache_write_tokens),
            count_member(usage, "cacheWrite"@, "cacheWriteTokens"@),
        ),
        output_tokens: accumulated(
            widened(totals.output_tokens),
            count_member(usage, "output"@, "outputTokens"@),
        ),
        reasoning_output_tokens: accumulated(
            widened(totals.reasoning_output_tokens),
            count_member(usage, "reasoning"@, "reasoningTokens"@),
        ),
        total_tokens: accumulated(
            widened(totals.total_tokens),
            either(
                widened(unsigned_member(usage, "totalTokens"@)),
                optional_sum(unsigned_member(usage, "input"@), unsigned_member(usage, "output"@)),
            ),
        ),
    }
}

/// The Cache Read Tokens of an OpenCode `tokens` object, zero when absent.
pub open spec fn opencode_cache_read(tokens: JsonValue) -> u64 {
    match json_get(tokens, "cache"@) {
        Some(cache) => match unsigned_member(cache, "read"@) {
            Some(count) => count,
            None => 0,
        },
        None => 0,
    }
}

/// The running totals after one OpenCode database message's `tokens` object is added:
/// its `input` counts Non-Cached Input Tokens, and Input Tokens add the cache reads to it.
pub open spec fn opencode_tokens_model(totals: TokenTotals, tokens: JsonValue) -> TokenCountModel {
    let non_cached = unsigned_member(tokens, "input"@);
    let input_value = match non_cached {
        Some(count) => Some(count + opencode_cache_read(tokens)),
        None => None,
    };
    let cache = json_get(tokens, "cache"@);
    TokenCountModel {
        input_tokens: accumulated(widened(totals.input_tokens), input_value),
        non_cached_input_tokens: accumulated(widened(totals.non_cached_input_tokens), widened(non_cached)),
        cache_read_tokens: match cache {
            Some(cache_value) => accumulated(
                widened(totals.cache_read_tokens),
                widened(unsigned_member(cache_value, "read"@)),
            ),
            None => widened(totals.cache_read_tokens),
        },
        cache_write_tokens: match cache {
            Some(cache_value) => accumulated(
                widened(totals.cache_write_tokens),
                widened(unsigned_member(cache_value, "write"@)),
            ),
            None => widened(totals.cache_write_tokens),
        },
        output_tokens: accumulated(widened(totals.output_tokens), widened(unsigned_member(tokens, "output"@))),
        reasoning_output_tokens: accumulated(
            widened(totals.reasoning_output_tokens),
            widened(unsigned_member(tokens, "reasoning"@)),
        ),
        total_tokens: accumulated(
            widened(totals.total_tokens),
            either(
                widened(unsigned_member(tokens, "total"@)),
                optional_sum(unsigned_member(tokens, "input"@), unsigned_member(tokens, "output"@)),
            ),
        ),
    }
}

/// A count held in `u128`, as an optional integer.
pub open spec fn wide_view(value: Option<u128>) -> Option<int> {
    match value {
        Some(count) => Some(count as int),
        None => None,
    }
}

/// A `u64` count held in `u128`.
fn wide(value: Option<u64>) -> (result: Option<u128>)
    ensures
        wide_view(result) == widened(value),
{
    match value {
        Some(count) => Some(count as u128),
        None => None,
    }
}

/// The first count that is present.
fn either_wide(first: Option<u128>, second: Option<u128>) -> (result: Option<u128>)
    ensures
        wide_view(result) == either(wide_view(first), wide_view(second)),
{
    match first {
        Some(count) => Some(count),
        None => second,
    }
}

/// The sum of two `u64` counts when both are present.
fn sum_wide(left: Option<u64>, right: Option<u64>) -> (result: Option<u128>)
    ensures
        wide_view(result) == optional_sum(left, right),
        wide_view(result) matches Some(count) ==> count <= 2 * u64::MAX,
{
    match (left, right) {
        (Some(first), Some(second)) => Some(first as u128 + second as u128),
        _ => None,
    }
}

/// Adds a count to a `u64` running total.
fn accumulate(total: Option<u64>, value: Option<u128>) -> (result: Option<u128>)
    requires
        wide_view(value) matches Some(count) ==> count <= 2 * u64::MAX,
    ensures
        wide_view(result) == accumulated(widened(total), wide_view(value)),
{
    match value {
        Some(count) => match total {
            Some(before) => Some(before as u128 + count),
            None => Some(count),
        },
        None => wide(total),
    }
}

/// Non-Cached Input Tokens from Input Tokens and Cache Read Tokens, else the fallback.
fn cache_adjusted_wide(input: Option<u128>, cache_read: Option<u128>, fallback: Option<u128>) -> (result: Option<u128>)
    ensures
        wide_view(result) == cache_adjusted(wide_view(input), wide_view(cache_read), wide_view(fallback)),
{
    match (input, cache_read) {
        (Some(all_input), Some(cached)) => if all_input >= cached {
            Some(all_input - cached)
        } else {
            fallback
        },
        _ => fallback,
    }
}

/// A count held in `u128` as a `u64`, when it fits.
fn narrow(value: Option<u128>) -> (result: Option<Option<u64>>)
    ensures
        result is Some == fits_u64(wide_view(value)),
        result matches Some(count) ==> count == narrowed(wide_view(value)),
{
    match value {
        Some(count) => if count <= u64::MAX as u128 {
            Some(Some(count as u64))
        } else {
            None
        },
        None => Some(None),
    }
}

/// The seven categories held in `u128`.
struct WideCounts {
    input_tokens: Option<u128>,
    non_cached_input_tokens: Option<u128>,
    cache_read_tokens: Option<u128>,
    cache_write_tokens: Option<u128>,
    output_tokens: Option<u128>,
    reasoning_output_tokens: Option<u128>,
    total_tokens: Option<u128>,
}

/// The counts of `WideCounts`.
spec fn wide_model(counts: WideCounts) -> TokenCountModel {
    TokenCountModel {
        input_tokens: wide_view(counts.input_tokens),
        non_cached_input_tokens: wide_view(counts.non_cached_input_tokens),
        cache_read_tokens: wide_view(counts.cache_read_tokens),
        cache_write_tokens: wide_view(counts.cache_write_tokens),
        output_tokens: wide_view(counts.output_tokens),
        reasoning_output_tokens: wide_view(counts.reasoning_output_tokens),
        total_tokens: wide_view(counts.total_tokens),
    }
}

/// The counts as Token Totals, when each fits in `u64`.
fn narrow_counts(counts: WideCounts) -> (result: Option<TokenTotals>)
    ensures
        result == totals_of_model(wide_model(counts)),
{
    let input_tokens = match narrow(counts.input_tokens) {
        Some(count) => count,
        None => return None,
    };
    let non_cached_input_tokens = match narrow(counts.non_cached_input_tokens) {
        Some(count) => count,
        None => return None,
    };
    let cache_read_tokens = match narrow(counts.cache_read_tokens) {
        Some(count) => count,
        None => return None,
    };
    let cache_write_tokens = match narrow(counts.cache_write_tokens) {
        Some(count) => count,
        None => return None,
    };
    let output_tokens = match narrow(counts.output_tokens) {
        Some(count) => count,
        None => return None,
    };
    let reasoning_output_tokens = match narrow(counts.reasoning_output_tokens) {
        Some(count) => count,
        None => return None,
    };
    let total_tokens = match narrow(counts.total_tokens) {
        Some(count) => count,
        None => return None,
    };
    Some(
        TokenTotals {
            input_tokens,
            non_cached_input_tokens,
            cache_read_tokens,
            cache_write_tokens,
            output_tokens,
            reasoning_output_tokens,
            total_tokens,
        },
    )
}

/// The integer of member `key`, held in `u128`.
fn wide_member(value: &JsonValue, key: &str) -> (result: Option<u128>)
    ensures
        wide_view(result) == widened(unsigned_member(*value, key@)),
{
    wide(value.unsigned_member(key))
}

/// Token Totals from a Codex `token_count` event's `info` object: `Ok(None)` where it has
/// no `total_token_usage` member, and an error where the Total Tokens it implies do not fit
/// in `u64`.
pub fn token_totals_from_info(info: &JsonValue) -> (result: Result<Option<TokenTotals>, TokenCountOverflow>)
    ensures
        match codex_snapshot_model(*info) {
            Some(model) => match totals_of_model(model) {
                Some(totals) => result == Ok::<Option<TokenTotals>, TokenCountOverflow>(Some(totals)),
                None => result is Err,
            },
            None => result == Ok::<Option<TokenTotals>, TokenCountOverflow>(None),
        },
{
    let usage = match info.get("total_token_usage") {
        Some(usage) => usage,
        None => return Ok(None),
    };
    let input = usage.unsigned_member("input_tokens");
    let cache_read = either_wide(wide_member(usage, "cached_input_tokens"), wide_member(usage, "cache_read_tokens"));
    let output = usage.unsigned_member("output_tokens");
    let counts = WideCounts {
        input_tokens: wide(input),
        non_cached_input_tokens: cache_adjusted_wide(
            wide(input),
            cache_read,
            wide_member(usage, "non_cached_input_tokens"),
        ),
        cache_read_tokens: cache_read,
        cache_write_tokens: either_wide(
            wide_member(usage, "cache_creation_input_tokens"),
            wide_member(usage, "cache_write_tokens"),
        ),
        output_tokens: wide(output),
        reasoning_output_tokens: wide_member(usage, "reasoning_output_tokens"),
        total_tokens: either_wide(wide_member(usage, "total_tokens"), sum_wide(input, output)),
    };
    match narrow_counts(counts) {
        Some(totals) => Ok(Some(totals)),
        None => Err(TokenCountOverflow),
    }
}

/// Adds one Pi assistant message's `usage` object to the running totals; an error where a
/// total would not fit in `u64`.
pub fn add_pi_usage(token_totals: &TokenTotals, usage: &JsonValue) -> (result: Result<TokenTotals, TokenCountOverflow>)
    ensures
        match totals_of_model(pi_usage_model(*token_totals, *usage)) {
            Some(totals) => result == Ok::<TokenTotals, TokenCountOverflow>(totals),
            None => result is Err,
        },
{
    let input = accumulate(token_totals.input_tokens, wide_member(usage, "input"));
    let cache_read = accumulate(token_totals.cache_read_tokens, wide_member(usage, "cacheRead"));
    let counts = WideCounts {
        input_tokens: input,
        non_cached_input_tokens: cache_adjusted_wide(input, cache_read, wide(token_totals.non_cached_input_tokens)),
        cache_read_tokens: cache_read,
        cache_write_tokens: accumulate(token_totals.cache_write_tokens, wide_member(usage, "cacheWrite")),
        output_tokens: accumulate(token_totals.output_tokens, wide_member(usage, "output")),
        reasoning_output_tokens: wide(token_totals.reasoning_output_tokens),
        total_tokens: accumulate(
            token_totals.total_tokens,
            either_wide(
                wide_member(usage, "totalTokens"),
                sum_wide(usage.unsigned_member("input"), usage.unsigned_member("output")),
            ),
        ),
    };
    match narrow_counts(counts) {
        Some(totals) => Ok(totals),
        None => Err(TokenCountOverflow),
    }
}

/// The first of two members that is a count, held in `u128`.
fn wide_count_member(value: &JsonValue, key: &str, other: &str) -> (result: Option<u128>)
    ensures
        wide_view(result) == count_member(*value, key@, other@),
        wide_view(result) matches Some(count) ==> count <= u64::MAX,
{
    either_wide(wide_member(value, key), wide_member(value, other))
}

/// Adds one OpenCode assistant message's `usage` object to the running totals; an error
/// where a total would not fit in `u64`.
pub fn add_opencode_usage(token_totals: &TokenTotals, usage: &JsonValue) -> (result: Result<TokenTotals, TokenCountOverflow>)
    ensures
        match totals_of_model(opencode_usage_model(*token_totals, *usage)) {
            Some(totals) => result == Ok::<TokenTotals, TokenCountOverflow>(totals),
            None => result is Err,
        },
{
    let input = accumulate(token_totals.input_tokens, wide_count_member(usage, "input", "inputTokens"));
    let cache_read = accumulate(
        token_totals.cache_read_tokens,
        wide_count_member(usage, "cacheRead", "cacheReadTokens"),
    );
    let counts = WideCounts {
        input_tokens: input,
        non_cached_input_tokens: cache_adjusted_wide(input, cache_read, wide(token_totals.non_cached_input_tokens)),
        cache_read_tokens: cache_read,
        cache_write_tokens: accumulate(
            token_totals.cache_write_tokens,
            wide_count_member(usage, "cacheWrite", "cacheWriteTokens"),
        ),
        output_tokens: accumulate(token_totals.output_tokens, wide_count_member(usage, "output", "outputTokens")),
        reasoning_output_tokens: accumulate(
            token_totals.reasoning_output_tokens,
            wide_count_member(usage, "reasoning", "reasoningTokens"),
        ),
        total_tokens: accumulate(
            token_totals.total_tokens,
            either_wide(
                wide_member(usage, "totalTokens"),
                sum_wide(usage.unsigned_member("input"), usage.unsigned_member("output")),
            ),
        ),
    };
    match narrow_counts(counts) {
        Some(totals) => Ok(totals),
        None => Err(TokenCountOverflow),
    }
}

/// Adds one OpenCode database message's `tokens` object to the running totals; an error
/// where a total would not fit in `u64`.
pub fn add_opencode_tokens(token_totals: &TokenTotals, tokens: &JsonValue) -> (result: Result<TokenTotals, TokenCountOverflow>)
    ensures
        match totals_of_model(opencode_tokens_model(*token_totals, *tokens)) {
            Some(totals) => result == Ok::<TokenTotals, TokenCountOverflow>(totals),
            None => result is Err,
        },
{
    let non_cached = tokens.unsigned_member("input");
    let cache = tokens.get("cache");
    let cache_read: u64 = match cache {
        Some(cache_value) => match cache_value.unsigned_member("read") {
            Some(count) => count,
            None => 0,
        },
        None => 0,
    };
    let input_value: Option<u128> = match non_cached {
        Some(count) => Some(count as u128 + cache_read as u128),
        None => None,
    };
    let (cache_read_tokens, cache_write_tokens) = match cache {
        Some(cache_value) => (
            accumulate(token_totals.cache_read_tokens, wide_member(cache_value, "read")),
            accumulate(token_totals.cache_write_tokens, wide_member(cache_value, "write")),
        ),
        None => (wide(token_totals.cache_read_tokens), wide(token_totals.cache_write_tokens)),
    };
    let counts = WideCounts {
        input_tokens: accumulate(token_totals.input_tokens, input_value),
        non_cached_input_tokens: accumulate(token_totals.non_cached_input_tokens, wide(non_cached)),
        cache_read_tokens,
        cache_write_tokens,
        output_tokens: accumulate(token_totals.output_tokens, wide_member(tokens, "output")),
        reasoning_output_tokens: accumulate(token_totals.reasoning_output_tokens, wide_member(tokens, "reasoning")),
        total_tokens: accumulate(
            token_totals.total_tokens,
            either_wide(
                wide_member(tokens, "total"),
                sum_wide(tokens.unsigned_member("input"), tokens.unsigned_member("output")),
            ),
        ),
    };
    match narrow_counts(counts) {
        Some(totals) => Ok(totals),
        None => Err(TokenCountOverflow),
    }
}

/// A running count after a message's count: the count added to the total, an unknown total
/// counting as zero, where the message has one; the total unchanged where it has none.
pub open spec fn count_after(total: Option<u64>, count: Option<u64>) -> Option<int> {
    match count {
        Some(added) => Some(
            match total {
                Some(before) => before as int,
                None => 0,
            } + added,
        ),
        None => match total {
            Some(before) => Some(before as int),
            None => None,
        },
    }
}

/// The first of two counts that is present.
pub open spec fn first_count(first: Option<u64>, second: Option<u64>) -> Option<u64> {
    match first {
        Some(count) => Some(count),
        None => second,
    }
}

/// A Codex Token Snapshot holds the counts of its `total_token_usage` as recorded: input,
/// output and reasoning output tokens by their own names, cache reads from
/// `cached_input_tokens` or else `cache_read_tokens`, cache writes from
/// `cache_creation_input_tokens` or else `cache_write_tokens`, the recorded total or else
/// input plus output, and non-cached input as input less cache reads where that is not
/// negative.
pub proof fn law_codex_snapshot_keeps_recorded_counts(info: JsonValue, usage: JsonValue, totals: TokenTotals)
    requires
        json_get(info, "total_token_usage"@) == Some(usage),
        codex_snapshot_model(info) matches Some(model) && totals_of_model(model) == Some(totals),
    ensures
        totals.input_tokens == unsigned_member(usage, "input_tokens"@),
        totals.output_tokens == unsigned_member(usage, "output_tokens"@),
        totals.reasoning_output_tokens == unsigned_member(usage, "reasoning_output_tokens"@),
        totals.cache_read_tokens == first_count(
            unsigned_member(usage, "cached_input_tokens"@),
            unsigned_member(usage, "cache_read_tokens"@),
        ),
        totals.cache_write_tokens == first_count(
            unsigned_member(usage, "cache_creation_input_tokens"@),
            unsigned_member(usage, "cache_write_tokens"@),
        ),
        unsigned_member(usage, "total_tokens"@) is Some ==> totals.total_tokens == unsigned_member(usage, "total_tokens"@),
        unsigned_member(usage, "total_tokens"@) is None && unsigned_member(usage, "input_tokens"@) is Some
            && unsigned_member(usage, "output_tokens"@) is Some ==> totals.total_tokens is Some
            && totals.total_tokens.unwrap() == unsigned_member(usage, "input_tokens"@).unwrap() + unsigned_member(
            usage,
            "output_tokens"@,
        ).unwrap(),
        totals.input_tokens is Some && totals.cache_read_tokens is Some && totals.input_tokens.unwrap()
            >= totals.cache_read_tokens.unwrap() ==> totals.non_cached_input_tokens == Some(
            (totals.input_tokens.unwrap() - totals.cache_read_tokens.unwrap()) as u64,
        ),
{
}

/// A Pi assistant message's `usage` adds to the running totals category by category:
/// `input`, `output`, `cacheRead` and `cacheWrite` to their own categories, `totalTokens` (or
/// else input plus output) to the total; reasoning output is left as it was.
pub proof fn law_pi_usage_adds_each_category(totals: TokenTotals, usage: JsonValue)
    ensures
        pi_usage_model(totals, usage).input_tokens == count_after(totals.input_tokens, unsigned_member(usage, "input"@)),
        pi_usage_model(totals, usage).output_tokens == count_after(totals.output_tokens, unsigned_member(usage, "output"@)),
        pi_usage_model(totals, usage).cache_read_tokens == count_after(
            totals.cache_read_tokens,
            unsigned_member(usage, "cacheRead"@),
        ),
        pi_usage_model(totals, usage).cache_write_tokens == count_after(
            totals.cache_write_tokens,
            unsigned_member(usage, "cacheWrite"@),
        ),
        pi_usage_model(totals, usage).reasoning_output_tokens == widened(totals.reasoning_output_tokens),
        unsigned_member(usage, "totalTokens"@) is Some ==> pi_usage_model(totals, usage).total_tokens == count_after(
            totals.total_tokens,
            unsigned_member(usage, "totalTokens"@),
        ),
{
}

/// An OpenCode assistant message's `usage` adds to the running totals category by category,
/// each from its short name or else its long one (`input`/`inputTokens`, `output`/
/// `outputTokens`, `cacheRead`/`cacheReadTokens`, `cacheWrite`/`cacheWriteTokens`,
/// `reasoning`/`reasoningTokens`), and `totalTokens` to the total.
pub proof fn law_opencode_usage_adds_each_category(totals: TokenTotals, usage: JsonValue)
    ensures
        opencode_usage_model(totals, usage).input_tokens == count_after(
            totals.input_tokens,
            first_count(unsigned_member(usage, "input"@), unsigned_member(usage, "inputTokens"@)),
        ),
        opencode_usage_model(totals, usage).output_tokens == count_after(
            totals.output_tokens,
            first_count(unsigned_member(usage, "output"@), unsigned_member(usage, "outputTokens"@)),
        ),
        opencode_usage_model(totals, usage).cache_read_tokens == count_after(
            totals.cache_read_tokens,
            first_count(unsigned_member(usage, "cacheRead"@), unsigned_member(usage, "cacheReadTokens"@)),
        ),
        opencode_usage_model(totals, usage).cache_write_tokens == count_after(
            totals.cache_write_tokens,
            first_count(unsigned_member(usage, "cacheWrite"@), unsigned_member(usage, "cacheWriteTokens"@)),
        ),
        opencode_usage_model(totals, usage).reasoning_output_tokens == count_after(
            totals.reasoning_output_tokens,
            first_count(unsigned_member(usage, "reasoning"@), unsigned_member(usage, "reasoningTokens"@)),
        ),
        unsigned_member(usage, "totalTokens"@) is Some ==> opencode_usage_model(totals, usage).total_tokens
            == count_after(totals.total_tokens, unsigned_member(usage, "totalTokens"@)),
{
}

/// An OpenCode database message's `tokens` adds to the running totals: `input` to the
/// Non-Cached Input Tokens and, with the cache reads, to the Input Tokens; `output`,
/// `reasoning` and `cache.read`/`cache.write` to their own categories; `total` to the total.
pub proof fn law_opencode_tokens_add_each_category(totals: TokenTotals, tokens: JsonValue, cache: JsonValue)
    requires
        json_get(tokens, "cache"@) == Some(cache),
    ensures
        opencode_tokens_model(totals, tokens).non_cached_input_tokens == count_after(
            totals.non_cached_input_tokens,
            unsigned_member(tokens, "input"@),
        ),
        opencode_tokens_model(totals, tokens).output_tokens == count_after(
            totals.output_tokens,
            unsigned_member(tokens, "output"@),
        ),
        opencode_tokens_model(totals, tokens).reasoning_output_tokens == count_after(
            totals.reasoning_output_tokens,
            unsigned_member(tokens, "reasoning"@),
        ),
        opencode_tokens_model(totals, tokens).cache_read_tokens == count_after(
            totals.cache_read_tokens,
            unsigned_member(cache, "read"@),
        ),
        opencode_tokens_model(totals, tokens).cache_write_tokens == count_after(
            totals.cache_write_tokens,
            unsigned_member(cache, "write"@),
        ),
        unsigned_member(tokens, "input"@) is Some ==> opencode_tokens_model(totals, tokens).input_tokens == Some(
            match totals.input_tokens {
                Some(before) => before as int,
                None => 0,
            } + unsigned_member(tokens, "input"@).unwrap() + match unsigned_member(cache, "read"@) {
                Some(read) => read as int,
                None => 0,
            },
        ),
        unsigned_member(tokens, "total"@) is Some ==> opencode_tokens_model(totals, tokens).total_tokens == count_after(
            totals.total_tokens,
            unsigned_member(tokens, "total"@),
        ),
{
}

} // verus!
