//! Reading one session file of an AI Coding Agent: Codex JSONL logs, Pi JSONL logs and
//! OpenCode JSON or JSONL files.

use vstd::prelude::*;
use crate::json::{
    has_member, json_get, json_text, json_text_value, option_text_view, parse_json_text, text_member, unsigned_member,
    JsonValue,
};
use crate::paths::{path_extension, path_file_name, std_path_extension, std_path_file_name};
use crate::reporting_period::count_or_zero;
use crate::session::{
    notice, AiCodingAgent, CodexSession, DataQualityNotice, DataQualityNoticeKind, TokenTotals,
    no_token_totals,
};
use crate::text::{owned, std_lines, text_equals, text_lines, text_starts_with, trim_text, trimmed};
use crate::time::{chrono_parsed_instant, instant_option_view, parse_utc_instant, UtcInstant};
use crate::token_usage::{
    add_opencode_usage, add_pi_usage, codex_snapshot_model, either, either_member, widened, opencode_usage_model,
    pi_usage_model, token_totals_from_info, totals_of_model, TokenCountOverflow,
};

verus! {

/// One line of a Codex log, decoded as a record: its `type`, its optional `timestamp`
/// and its `payload` (`null` where absent).
#[derive(Debug)]
pub struct CodexRecord {
    /// The record's `timestamp`, when present.
    pub timestamp: Option<UtcInstant>,
    /// The record's `type`.
    pub record_type: String,
    /// The record's `payload`, `null` where absent.
    pub payload: JsonValue,
}

/// One line of a session file, decoded both ways that the parsers read it.
#[derive(Debug)]
pub struct SessionLine {
    /// The line as a JSON value, `None` where it is not JSON.
    pub value: Option<JsonValue>,
    /// The line as a Codex record, `None` where it is not one.
    pub record: Option<CodexRecord>,
}

/// A readable session file, decoded.
#[derive(Debug)]
pub struct SessionFile {
    /// The file's path.
    pub source_path: String,
    /// The file's last-modified time, when known.
    pub modified_time: Option<UtcInstant>,
    /// The whole file as one JSON value, when it is one.
    pub whole_value: Option<JsonValue>,
    /// The file's lines, in order.
    pub lines: Vec<SessionLine>,
}

/// What a parsed session states, field by field, as values.
pub struct SessionFacts {
    pub agent: AiCodingAgent,
    pub source_path: Seq<char>,
    pub session_name: Option<Seq<char>>,
    pub start_time: (int, int),
    pub last_modified_time: Option<(int, int)>,
    pub model: Seq<char>,
    pub reasoning_effort: Option<Seq<char>>,
    pub project_path: Option<Seq<char>>,
    pub project_name: Option<Seq<char>>,
    pub is_active: bool,
    pub token_totals: TokenTotals,
}

/// A notice as values: path, line number, kind and detail.
pub type NoticeFacts = (Seq<char>, Option<usize>, DataQualityNoticeKind, Seq<char>);

/// The values of a session.
pub open spec fn session_facts(session: CodexSession) -> SessionFacts {
    SessionFacts {
        agent: session.ai_coding_agent,
        source_path: session.source_path@,
        session_name: option_text_view(session.session_name),
        start_time: session.session_start_time@,
        last_modified_time: instant_option_view(session.session_last_modified_time),
        model: session.model@,
        reasoning_effort: option_text_view(session.reasoning_effort),
        project_path: option_text_view(session.project_path),
        project_name: option_text_view(session.project_name),
        is_active: session.is_active,
        token_totals: session.token_totals,
    }
}

/// The values of a notice.
pub open spec fn notice_facts(item: DataQualityNotice) -> NoticeFacts {
    (item.source_path@, item.line_number, item.kind, item.detail@)
}

/// The values of a list of notices.
pub open spec fn notices_facts(notices: Seq<DataQualityNotice>) -> Seq<NoticeFacts> {
    notices.map_values(|item: DataQualityNotice| notice_facts(item))
}

/// What parsing one file as one agent's session gives.
pub enum FileOutcome {
    /// A token count did not fit in `u64`.
    Overflow,
    /// The file is not a session of that agent.
    NotThisAgent,
    /// The session, when it has a usable Token Snapshot, and the notices.
    Parsed(Option<SessionFacts>, Seq<NoticeFacts>),
}

/// The first value that is present.
pub open spec fn or_else<T>(first: Option<T>, second: Option<T>) -> Option<T> {
    match first {
        Some(value) => Some(value),
        None => second,
    }
}

/// The text of an optional value, when it is a string.
pub open spec fn text_of(value: Option<JsonValue>) -> Option<Seq<char>> {
    match value {
        Some(inner) => json_text(inner),
        None => None,
    }
}

/// The instant that a value's text gives, when it is a string that parses as one.
pub open spec fn time_of_value(value: JsonValue) -> Option<(int, int)> {
    match json_text(value) {
        Some(text) => chrono_parsed_instant(text),
        None => None,
    }
}

/// The instant that member `key` gives.
pub open spec fn time_member(value: JsonValue, key: Seq<char>) -> Option<(int, int)> {
    match json_get(value, key) {
        Some(member) => time_of_value(member),
        None => None,
    }
}

/// A text trimmed of surrounding whitespace, `None` where nothing is left.
pub open spec fn non_empty_text(text: Seq<char>) -> Option<Seq<char>> {
    if trimmed(text).len() > 0 {
        Some(trimmed(text))
    } else {
        None
    }
}

/// The first of `session_name`, `sessionName`, `name` and `title` that is a string.
pub open spec fn recorded_name_text(record: JsonValue) -> Option<Seq<char>> {
    or_else(
        text_member(record, "session_name"@),
        or_else(
            text_member(record, "sessionName"@),
            or_else(text_member(record, "name"@), text_member(record, "title"@)),
        ),
    )
}

/// The Source-recorded Session Name of a record: the first name field that is a string,
/// trimmed, when something is left of it.
pub open spec fn recorded_session_name(record: JsonValue) -> Option<Seq<char>> {
    match recorded_name_text(record) {
        Some(text) => non_empty_text(text),
        None => None,
    }
}

/// The compact Project Name of a project path: its final component.
pub open spec fn project_name_of(project_path: Option<Seq<char>>) -> Option<Seq<char>> {
    match project_path {
        Some(path) => std_path_file_name(path),
        None => None,
    }
}

/// The Session Start Time: the recorded one, else the current time.
pub open spec fn start_or_now(start_time: Option<(int, int)>, now: UtcInstant) -> (int, int) {
    match start_time {
        Some(time) => time,
        None => now@,
    }
}

/// The Model: the recorded one, else `unknown`.
pub open spec fn model_or_unknown(model: Option<Seq<char>>) -> Seq<char> {
    match model {
        Some(name) => name,
        None => "unknown"@,
    }
}

/// The notice left by a line that could not be decoded.
pub open spec fn line_notice(path: Seq<char>, line_number: int, detail: Seq<char>) -> NoticeFacts {
    (path, Some(line_number as usize), DataQualityNoticeKind::ParseProblem, detail)
}

/// The notice left by a file without a usable Token Snapshot.
pub open spec fn missing_snapshot_notice(path: Seq<char>) -> NoticeFacts {
    (path, None, DataQualityNoticeKind::MissingTokenSnapshot, "no usable Token Snapshot found"@)
}

/// What a Codex log has shown after some of its lines.
pub struct CodexScan {
    pub start_time: Option<(int, int)>,
    pub session_name: Option<Seq<char>>,
    pub model: Option<Seq<char>>,
    pub reasoning_effort: Option<Seq<char>>,
    pub project_path: Option<Seq<char>>,
    pub snapshot: Option<TokenTotals>,
    pub completed: bool,
    pub notices: Seq<NoticeFacts>,
}

/// The reasoning effort of a Codex `turn_context` payload: `effort`, else
/// `reasoning_effort`, else `collaboration_mode.settings.reasoning_effort`.
pub open spec fn turn_reasoning_effort(payload: JsonValue) -> Option<Seq<char>> {
    or_else(
        text_of(either_member(payload, "effort"@, "reasoning_effort"@)),
        match json_get(payload, "collaboration_mode"@) {
            Some(mode) => match json_get(mode, "settings"@) {
                Some(settings) => text_member(settings, "reasoning_effort"@),
                None => None,
            },
            None => None,
        },
    )
}

/// The Token Snapshot after a Codex `event_msg` payload; `None` where its counts overflow.
pub open spec fn codex_snapshot_after(snapshot: Option<TokenTotals>, payload: JsonValue) -> Option<Option<TokenTotals>> {
    if text_member(payload, "type"@) == Some("token_count"@) {
        match json_get(payload, "info"@) {
            Some(info) => if info is Null {
                Some(snapshot)
            } else {
                match codex_snapshot_model(info) {
                    Some(model) => match totals_of_model(model) {
                        Some(totals) => Some(Some(totals)),
                        None => None,
                    },
                    None => Some(None),
                }
            },
            None => Some(snapshot),
        }
    } else {
        Some(snapshot)
    }
}

/// What a Codex log shows after one more line; `None` where a token count overflows.
pub open spec fn codex_step(scan: CodexScan, line: Option<CodexRecord>, line_number: int, path: Seq<char>) -> Option<CodexScan> {
    match line {
        None => Some(
            CodexScan {
                notices: scan.notices.push(line_notice(path, line_number, "invalid JSONL record"@)),
                ..scan
            },
        ),
        Some(record) => {
            let kind = record.record_type@;
            let payload = record.payload;
            if kind == "session_meta"@ {
                Some(
                    CodexScan {
                        start_time: or_else(time_member(payload, "timestamp"@), instant_option_view(record.timestamp)),
                        project_path: text_member(payload, "cwd"@),
                        session_name: or_else(recorded_session_name(payload), scan.session_name),
                        ..scan
                    },
                )
            } else if kind == "turn_context"@ {
                Some(
                    CodexScan {
                        model: if scan.model is None {
                            text_member(payload, "model"@)
                        } else {
                            scan.model
                        },
                        reasoning_effort: if scan.reasoning_effort is None {
                            turn_reasoning_effort(payload)
                        } else {
                            scan.reasoning_effort
                        },
                        project_path: if scan.project_path is None {
                            text_member(payload, "cwd"@)
                        } else {
                            scan.project_path
                        },
                        ..scan
                    },
                )
            } else if kind == "event_msg"@ {
                match codex_snapshot_after(scan.snapshot, payload) {
                    Some(snapshot) => Some(
                        CodexScan {
                            snapshot,
                            completed: scan.completed || text_member(payload, "type"@) == Some("task_complete"@),
                            ..scan
                        },
                    ),
                    None => None,
                }
            } else if kind == "response_item"@ {
                Some(scan)
            } else {
                Some(
                    CodexScan {
                        notices: scan.notices.push(
                            (
                                path,
                                Some(line_number as usize),
                                DataQualityNoticeKind::UnknownSourceFormat,
                                "unknown Codex record type"@,
                            ),
                        ),
                        ..scan
                    },
                )
            }
        },
    }
}

/// A Codex scan before any line.
pub open spec fn empty_codex_scan() -> CodexScan {
    CodexScan {
        start_time: None,
        session_name: None,
        model: None,
        reasoning_effort: None,
        project_path: None,
        snapshot: None,
        completed: false,
        notices: Seq::empty(),
    }
}

/// What the first `count` lines of a Codex log show; `None` where a token count overflows.
pub open spec fn codex_scan_of(path: Seq<char>, lines: Seq<SessionLine>, count: int) -> Option<CodexScan>
    decreases count,
{
    if count <= 0 {
        Some(empty_codex_scan())
    } else {
        match codex_scan_of(path, lines, count - 1) {
            Some(scan) => codex_step(scan, lines[count - 1].record, count, path),
            None => None,
        }
    }
}

/// What a whole Codex log gives: the session when a Token Snapshot was found, and the
/// notices.
pub open spec fn codex_outcome(file: SessionFile, now: UtcInstant) -> FileOutcome {
    let path = file.source_path@;
    match codex_scan_of(path, file.lines@, file.lines@.len() as int) {
        None => FileOutcome::Overflow,
        Some(scan) => match scan.snapshot {
            None => FileOutcome::Parsed(None, scan.notices.push(missing_snapshot_notice(path))),
            Some(totals) => FileOutcome::Parsed(
                Some(
                    SessionFacts {
                        agent: AiCodingAgent::Codex,
                        source_path: path,
                        session_name: scan.session_name,
                        start_time: start_or_now(scan.start_time, now),
                        last_modified_time: instant_option_view(file.modified_time),
                        model: model_or_unknown(scan.model),
                        reasoning_effort: scan.reasoning_effort,
                        project_path: scan.project_path,
                        project_name: project_name_of(scan.project_path),
                        is_active: !scan.completed,
                        token_totals: totals,
                    },
                ),
                scan.notices,
            ),
        },
    }
}

/// The outcome of an executable parse, as values.
pub open spec fn outcome_of(
    result: Result<Option<(Option<CodexSession>, Vec<DataQualityNotice>)>, TokenCountOverflow>,
) -> FileOutcome {
    match result {
        Err(_) => FileOutcome::Overflow,
        Ok(None) => FileOutcome::NotThisAgent,
        Ok(Some((session, notices))) => FileOutcome::Parsed(
            match session {
                Some(value) => Some(session_facts(value)),
                None => None,
            },
            notices_facts(notices@),
        ),
    }
}

/// The text of an optional value, copied, when it is a string.
fn text_of_value(value: Option<&JsonValue>) -> (result: Option<String>)
    ensures
        option_text_view(result) == text_of(
            match value {
                Some(inner) => Some(*inner),
                None => None,
            },
        ),
{
    match value {
        Some(inner) => match inner.as_str() {
            Some(text) => Some(owned(text)),
            None => None,
        },
        None => None,
    }
}

/// The member `key` of a value, else its member `other`.
fn either_member_of<'a>(value: &'a JsonValue, key: &str, other: &str) -> (result: Option<&'a JsonValue>)
    ensures
        match result {
            Some(member) => either_member(*value, key@, other@) == Some(*member),
            None => either_member(*value, key@, other@) is None,
        },
{
    match value.get(key) {
        Some(member) => Some(member),
        None => value.get(other),
    }
}

/// The first text that is present.
pub(crate) fn or_else_text(first: Option<String>, second: Option<String>) -> (result: Option<String>)
    ensures
        option_text_view(result) == or_else(option_text_view(first), option_text_view(second)),
{
    match first {
        Some(value) => Some(value),
        None => second,
    }
}

/// The first instant that is present.
fn or_else_instant(first: Option<UtcInstant>, second: Option<UtcInstant>) -> (result: Option<UtcInstant>)
    ensures
        instant_option_view(result) == or_else(instant_option_view(first), instant_option_view(second)),
{
    match first {
        Some(value) => Some(value),
        None => second,
    }
}

/// Reads an instant from a value that is a string in RFC 3339 form.
pub fn parse_time_value(value: &JsonValue) -> (result: Option<UtcInstant>)
    ensures
        instant_option_view(result) == time_of_value(*value),
{
    match value.as_str() {
        Some(text) => parse_utc_instant(text),
        None => None,
    }
}

/// Reads an instant from member `key`.
fn time_member_of(value: &JsonValue, key: &str) -> (result: Option<UtcInstant>)
    ensures
        instant_option_view(result) == time_member(*value, key@),
{
    match value.get(key) {
        Some(member) => parse_time_value(member),
        None => None,
    }
}

/// A text trimmed of surrounding whitespace, `None` where nothing is left.
pub fn non_empty_string(text: &str) -> (result: Option<String>)
    ensures
        option_text_view(result) == non_empty_text(text@),
{
    let trimmed_text = trim_text(text);
    if trimmed_text.unicode_len() > 0 {
        Some(trimmed_text)
    } else {
        None
    }
}

/// The Source-recorded Session Name of a record.
pub fn source_recorded_session_name(record: &JsonValue) -> (result: Option<String>)
    ensures
        option_text_view(result) == recorded_session_name(*record),
{
    let name = or_else_text(
        record.text_member("session_name"),
        or_else_text(
            record.text_member("sessionName"),
            or_else_text(record.text_member("name"), record.text_member("title")),
        ),
    );
    match name {
        Some(text) => non_empty_string(text.as_str()),
        None => None,
    }
}

/// The compact Project Name of a project path: its final component.
pub fn project_name_from_path(project_path: &Option<String>) -> (result: Option<String>)
    ensures
        option_text_view(result) == project_name_of(option_text_view(*project_path)),
{
    match project_path {
        Some(path) => path_file_name(path.as_str()),
        None => None,
    }
}

/// The Model, else `unknown`.
fn model_name(model: Option<String>) -> (result: String)
    ensures
        result@ == model_or_unknown(option_text_view(model)),
{
    match model {
        Some(name) => name,
        None => owned("unknown"),
    }
}

/// The Session Start Time, else the current time.
fn start_time_or(start_time: Option<UtcInstant>, now: UtcInstant) -> (result: UtcInstant)
    ensures
        result@ == start_or_now(instant_option_view(start_time), now),
{
    match start_time {
        Some(time) => time,
        None => now,
    }
}

/// A Codex scan in progress.
struct CodexScanState {
    start_time: Option<UtcInstant>,
    session_name: Option<String>,
    model: Option<String>,
    reasoning_effort: Option<String>,
    project_path: Option<String>,
    snapshot: Option<TokenTotals>,
    completed: bool,
    notices: Vec<DataQualityNotice>,
}

/// What a Codex scan in progress holds, as values.
spec fn codex_scan_facts(state: CodexScanState) -> CodexScan {
    CodexScan {
        start_time: instant_option_view(state.start_time),
        session_name: option_text_view(state.session_name),
        model: option_text_view(state.model),
        reasoning_effort: option_text_view(state.reasoning_effort),
        project_path: option_text_view(state.project_path),
        snapshot: state.snapshot,
        completed: state.completed,
        notices: notices_facts(state.notices@),
    }
}

/// Adds one notice to a list of them.
pub(crate) fn push_notice(notices: &mut Vec<DataQualityNotice>, item: DataQualityNotice)
    ensures
        notices_facts(final(notices)@) == notices_facts(old(notices)@).push(notice_facts(item)),
{
    let ghost before = notices@;
    notices.push(item);
    assert(notices_facts(notices@) =~= notices_facts(before).push(notice_facts(item)));
}

/// The reasoning effort of a Codex `turn_context` payload.
fn turn_reasoning_effort_of(payload: &JsonValue) -> (result: Option<String>)
    ensures
        option_text_view(result) == turn_reasoning_effort(*payload),
{
    let direct = text_of_value(either_member_of(payload, "effort", "reasoning_effort"));
    let nested = match payload.get("collaboration_mode") {
        Some(mode) => match mode.get("settings") {
            Some(settings) => settings.text_member("reasoning_effort"),
            None => None,
        },
        None => None,
    };
    or_else_text(direct, nested)
}

/// Takes in one more line of a Codex log.
fn codex_step_state(state: &mut CodexScanState, line: &Option<CodexRecord>, line_number: usize, path: &str) -> (result: Result<(), TokenCountOverflow>)
    ensures
        match codex_step(codex_scan_facts(*old(state)), *line, line_number as int, path@) {
            Some(scan) => result is Ok && codex_scan_facts(*final(state)) == scan,
            None => result is Err,
        },
{
    match line {
        None => {
            push_notice(
                &mut state.notices,
                notice(path, Some(line_number), DataQualityNoticeKind::ParseProblem, "invalid JSONL record"),
            );
            Ok(())
        },
        Some(record) => {
            let kind = record.record_type.as_str();
            let payload = &record.payload;
            if text_equals(kind, "session_meta") {
                state.start_time = or_else_instant(time_member_of(payload, "timestamp"), record.timestamp);
                state.project_path = payload.text_member("cwd");
                let name = source_recorded_session_name(payload);
                let previous = state.session_name.take();
                state.session_name = or_else_text(name, previous);
                Ok(())
            } else if text_equals(kind, "turn_context") {
                if state.model.is_none() {
                    state.model = payload.text_member("model");
                }
                if state.reasoning_effort.is_none() {
                    state.reasoning_effort = turn_reasoning_effort_of(payload);
                }
                if state.project_path.is_none() {
                    state.project_path = payload.text_member("cwd");
                }
                Ok(())
            } else if text_equals(kind, "event_msg") {
                let event_type = payload.text_member("type");
                let is_token_count = match &event_type {
                    Some(text) => text_equals(text.as_str(), "token_count"),
                    None => false,
                };
                if is_token_count {
                    match payload.get("info") {
                        Some(info) => {
                            if !info.is_null() {
                                match token_totals_from_info(info) {
                                    Ok(snapshot) => {
                                        state.snapshot = snapshot;
                                    },
                                    Err(overflow) => {
                                        return Err(overflow);
                                    },
                                }
                            }
                        },
                        None => {},
                    }
                }
                let is_completion = match &event_type {
                    Some(text) => text_equals(text.as_str(), "task_complete"),
                    None => false,
                };
                if is_completion {
                    state.completed = true;
                }
                Ok(())
            } else if text_equals(kind, "response_item") {
                Ok(())
            } else {
                push_notice(
                    &mut state.notices,
                    notice(
                        path,
                        Some(line_number),
                        DataQualityNoticeKind::UnknownSourceFormat,
                        "unknown Codex record type",
                    ),
                );
                Ok(())
            }
        },
    }
}

/// The notice left by a file without a usable Token Snapshot.
fn missing_snapshot(path: &str) -> (result: DataQualityNotice)
    ensures
        notice_facts(result) == missing_snapshot_notice(path@),
{
    notice(path, None, DataQualityNoticeKind::MissingTokenSnapshot, "no usable Token Snapshot found")
}

/// Once a token count has overflowed, it stays so for every longer prefix.
proof fn lemma_codex_overflow_stays(path: Seq<char>, lines: Seq<SessionLine>, from: int, to: int)
    requires
        0 <= from <= to,
        codex_scan_of(path, lines, from) is None,
    ensures
        codex_scan_of(path, lines, to) is None,
    decreases to - from,
{
    if from < to {
        lemma_codex_overflow_stays(path, lines, from, to - 1);
    }
}

/// Parses a Codex JSONL log: the session, when a Token Snapshot was found, and the
/// notices; an error where a token count does not fit in `u64`.
pub fn parse_codex_session_file(file: &SessionFile, now: UtcInstant) -> (result: Result<
    Option<(Option<CodexSession>, Vec<DataQualityNotice>)>,
    TokenCountOverflow,
>)
    ensures
        outcome_of(result) == codex_outcome(*file, now),
{
    let path = file.source_path.as_str();
    let mut state = CodexScanState {
        start_time: None,
        session_name: None,
        model: None,
        reasoning_effort: None,
        project_path: None,
        snapshot: None,
        completed: false,
        notices: Vec::new(),
    };
    proof {
        assert(notices_facts(state.notices@) =~= Seq::<NoticeFacts>::empty());
    }
    let mut index: usize = 0;
    while index < file.lines.len()
        invariant
            index <= file.lines.len(),
            path@ == file.source_path@,
            codex_scan_of(path@, file.lines@, index as int) == Some(codex_scan_facts(state)),
        decreases file.lines.len() - index,
    {
        let step = codex_step_state(&mut state, &file.lines[index].record, index + 1, path);
        if step.is_err() {
            proof {
                lemma_codex_overflow_stays(path@, file.lines@, index as int + 1, file.lines@.len() as int);
            }
            return Err(TokenCountOverflow);
        }
        index = index + 1;
    }
    match state.snapshot {
        None => {
            let mut notices = state.notices;
            push_notice(&mut notices, missing_snapshot(path));
            Ok(Some((None, notices)))
        },
        Some(token_totals) => {
            let project_name = project_name_from_path(&state.project_path);
            let session = CodexSession {
                ai_coding_agent: AiCodingAgent::Codex,
                source_path: owned(path),
                session_name: state.session_name,
                session_start_time: start_time_or(state.start_time, now),
                session_last_modified_time: file.modified_time,
                model: model_name(state.model),
                reasoning_effort: state.reasoning_effort,
                project_path: state.project_path,
                project_name,
                is_active: !state.completed,
                token_totals,
            };
            Ok(Some((Some(session), state.notices)))
        },
    }
}

/// What a Pi log has shown after some of its lines.
pub struct PiScan {
    pub is_pi_session: bool,
    pub start_time: Option<(int, int)>,
    pub session_name: Option<Seq<char>>,
    pub model: Option<Seq<char>>,
    pub reasoning_effort: Option<Seq<char>>,
    pub project_path: Option<Seq<char>>,
    pub token_totals: TokenTotals,
    pub saw_assistant_message: bool,
    pub notices: Seq<NoticeFacts>,
}

/// What a Pi log shows after an assistant `message` record; `None` where a token count
/// overflows.
pub open spec fn pi_assistant_step(scan: PiScan, message: JsonValue) -> Option<PiScan> {
    let totals = match json_get(message, "usage"@) {
        Some(usage) => totals_of_model(pi_usage_model(scan.token_totals, usage)),
        None => Some(scan.token_totals),
    };
    match totals {
        Some(token_totals) => Some(
            PiScan {
                saw_assistant_message: true,
                model: or_else(text_member(message, "model"@), scan.model),
                reasoning_effort: or_else(
                    text_of(either_member(message, "reasoningEffort"@, "reasoning_effort"@)),
                    scan.reasoning_effort,
                ),
                token_totals,
                ..scan
            },
        ),
        None => None,
    }
}

/// What a Pi log shows after one more line; `None` where a token count overflows.
pub open spec fn pi_step(scan: PiScan, line: Option<JsonValue>, line_number: int, path: Seq<char>) -> Option<PiScan> {
    match line {
        None => Some(
            PiScan {
                notices: scan.notices.push(line_notice(path, line_number, "invalid JSONL record"@)),
                ..scan
            },
        ),
        Some(record) => {
            let kind = text_member(record, "type"@);
            if kind == Some("session"@) {
                Some(
                    PiScan {
                        is_pi_session: true,
                        start_time: time_member(record, "timestamp"@),
                        session_name: or_else(recorded_session_name(record), scan.session_name),
                        project_path: text_member(record, "cwd"@),
                        ..scan
                    },
                )
            } else if kind == Some("message"@) && scan.is_pi_session {
                match json_get(record, "message"@) {
                    Some(message) => if text_member(message, "role"@) == Some("assistant"@) {
                        pi_assistant_step(scan, message)
                    } else {
                        Some(scan)
                    },
                    None => Some(scan),
                }
            } else if kind == Some("model_change"@) && scan.is_pi_session {
                Some(PiScan { model: or_else(text_member(record, "modelId"@), scan.model), ..scan })
            } else if kind == Some("thinking_level_change"@) && scan.is_pi_session {
                Some(
                    PiScan {
                        reasoning_effort: or_else(text_member(record, "thinkingLevel"@), scan.reasoning_effort),
                        ..scan
                    },
                )
            } else {
                Some(scan)
            }
        },
    }
}

/// A Pi scan before any line.
pub open spec fn empty_pi_scan() -> PiScan {
    PiScan {
        is_pi_session: false,
        start_time: None,
        session_name: None,
        model: None,
        reasoning_effort: None,
        project_path: None,
        token_totals: no_token_totals(),
        saw_assistant_message: false,
        notices: Seq::empty(),
    }
}

/// What the first `count` lines of a Pi log show; `None` where a token count overflows.
pub open spec fn pi_scan_of(path: Seq<char>, lines: Seq<SessionLine>, count: int) -> Option<PiScan>
    decreases count,
{
    if count <= 0 {
        Some(empty_pi_scan())
    } else {
        match pi_scan_of(path, lines, count - 1) {
            Some(scan) => pi_step(scan, lines[count - 1].value, count, path),
            None => None,
        }
    }
}

/// What a whole file gives read as a Pi log: not a Pi session unless a `session` record
/// was seen; else the session when an assistant message brought Total Tokens.
pub open spec fn pi_outcome(file: SessionFile, now: UtcInstant) -> FileOutcome {
    let path = file.source_path@;
    match pi_scan_of(path, file.lines@, file.lines@.len() as int) {
        None => FileOutcome::Overflow,
        Some(scan) => if !scan.is_pi_session {
            FileOutcome::NotThisAgent
        } else if !scan.saw_assistant_message || scan.token_totals.total_tokens is None {
            FileOutcome::Parsed(None, scan.notices.push(missing_snapshot_notice(path)))
        } else {
            FileOutcome::Parsed(
                Some(
                    SessionFacts {
                        agent: AiCodingAgent::Pi,
                        source_path: path,
                        session_name: scan.session_name,
                        start_time: start_or_now(scan.start_time, now),
                        last_modified_time: instant_option_view(file.modified_time),
                        model: model_or_unknown(scan.model),
                        reasoning_effort: scan.reasoning_effort,
                        project_path: scan.project_path,
                        project_name: project_name_of(scan.project_path),
                        is_active: false,
                        token_totals: scan.token_totals,
                    },
                ),
                scan.notices,
            )
        },
    }
}

/// A Pi scan in progress.
struct PiScanState {
    is_pi_session: bool,
    start_time: Option<UtcInstant>,
    session_name: Option<String>,
    model: Option<String>,
    reasoning_effort: Option<String>,
    project_path: Option<String>,
    token_totals: TokenTotals,
    saw_assistant_message: bool,
    notices: Vec<DataQualityNotice>,
}

/// What a Pi scan in progress holds, as values.
spec fn pi_scan_facts(state: PiScanState) -> PiScan {
    PiScan {
        is_pi_session: state.is_pi_session,
        start_time: instant_option_view(state.start_time),
        session_name: option_text_view(state.session_name),
        model: option_text_view(state.model),
        reasoning_effort: option_text_view(state.reasoning_effort),
        project_path: option_text_view(state.project_path),
        token_totals: state.token_totals,
        saw_assistant_message: state.saw_assistant_message,
        notices: notices_facts(state.notices@),
    }
}

/// Whether an optional text is the given one.
pub(crate) fn is_text(value: &Option<String>, expected: &str) -> (result: bool)
    ensures
        result == (option_text_view(*value) == Some(expected@)),
{
    match value {
        Some(text) => text_equals(text.as_str(), expected),
        None => false,
    }
}

/// Takes in one Pi assistant message.
fn pi_assistant_state(state: &mut PiScanState, message: &JsonValue) -> (result: Result<(), TokenCountOverflow>)
    ensures
        match pi_assistant_step(pi_scan_facts(*old(state)), *message) {
            Some(scan) => result is Ok && pi_scan_facts(*final(state)) == scan,
            None => result is Err,
        },
{
    match message.get("usage") {
        Some(usage) => match add_pi_usage(&state.token_totals, usage) {
            Ok(totals) => {
                state.token_totals = totals;
            },
            Err(overflow) => {
                return Err(overflow);
            },
        },
        None => {},
    }
    state.saw_assistant_message = true;
    let previous_model = state.model.take();
    state.model = or_else_text(message.text_member("model"), previous_model);
    let previous_effort = state.reasoning_effort.take();
    state.reasoning_effort = or_else_text(
        text_of_value(either_member_of(message, "reasoningEffort", "reasoning_effort")),
        previous_effort,
    );
    Ok(())
}

/// Takes in one more line of a Pi log.
fn pi_step_state(state: &mut PiScanState, line: &Option<JsonValue>, line_number: usize, path: &str) -> (result: Result<(), TokenCountOverflow>)
    ensures
        match pi_step(pi_scan_facts(*old(state)), *line, line_number as int, path@) {
            Some(scan) => result is Ok && pi_scan_facts(*final(state)) == scan,
            None => result is Err,
        },
{
    match line {
        None => {
            push_notice(
                &mut state.notices,
                notice(path, Some(line_number), DataQualityNoticeKind::ParseProblem, "invalid JSONL record"),
            );
            Ok(())
        },
        Some(record) => {
            let kind = record.text_member("type");
            if is_text(&kind, "session") {
                state.is_pi_session = true;
                state.start_time = time_member_of(record, "timestamp");
                let name = source_recorded_session_name(record);
                let previous = state.session_name.take();
                state.session_name = or_else_text(name, previous);
                state.project_path = record.text_member("cwd");
                Ok(())
            } else if is_text(&kind, "message") && state.is_pi_session {
                match record.get("message") {
                    Some(message) => {
                        if is_text(&message.text_member("role"), "assistant") {
                            pi_assistant_state(state, message)
                        } else {
                            Ok(())
                        }
                    },
                    None => Ok(()),
                }
            } else if is_text(&kind, "model_change") && state.is_pi_session {
                let previous = state.model.take();
                state.model = or_else_text(record.text_member("modelId"), previous);
                Ok(())
            } else if is_text(&kind, "thinking_level_change") && state.is_pi_session {
                let previous = state.reasoning_effort.take();
                state.reasoning_effort = or_else_text(record.text_member("thinkingLevel"), previous);
                Ok(())
            } else {
                Ok(())
            }
        },
    }
}

/// Once a token count has overflowed, it stays so for every longer prefix.
proof fn lemma_pi_overflow_stays(path: Seq<char>, lines: Seq<SessionLine>, from: int, to: int)
    requires
        0 <= from <= to,
        pi_scan_of(path, lines, from) is None,
    ensures
        pi_scan_of(path, lines, to) is None,
    decreases to - from,
{
    if from < to {
        lemma_pi_overflow_stays(path, lines, from, to - 1);
    }
}

/// Parses a file as a Pi JSONL log: `None` where it holds no `session` record; else the
/// session, when an assistant message brought Total Tokens, and the notices; an error
/// where a token count does not fit in `u64`.
pub fn parse_pi_session_file(file: &SessionFile, now: UtcInstant) -> (result: Result<
    Option<(Option<CodexSession>, Vec<DataQualityNotice>)>,
    TokenCountOverflow,
>)
    ensures
        outcome_of(result) == pi_outcome(*file, now),
{
    let path = file.source_path.as_str();
    let mut state = PiScanState {
        is_pi_session: false,
        start_time: None,
        session_name: None,
        model: None,
        reasoning_effort: None,
        project_path: None,
        token_totals: TokenTotals::unknown(),
        saw_assistant_message: false,
        notices: Vec::new(),
    };
    proof {
        assert(notices_facts(state.notices@) =~= Seq::<NoticeFacts>::empty());
    }
    let mut index: usize = 0;
    while index < file.lines.len()
        invariant
            index <= file.lines.len(),
            path@ == file.source_path@,
            pi_scan_of(path@, file.lines@, index as int) == Some(pi_scan_facts(state)),
        decreases file.lines.len() - index,
    {
        let step = pi_step_state(&mut state, &file.lines[index].value, index + 1, path);
        if step.is_err() {
            proof {
                lemma_pi_overflow_stays(path@, file.lines@, index as int + 1, file.lines@.len() as int);
            }
            return Err(TokenCountOverflow);
        }
        index = index + 1;
    }
    if !state.is_pi_session {
        return Ok(None);
    }
    if !state.saw_assistant_message || state.token_totals.total_tokens.is_none() {
        let mut notices = state.notices;
        push_notice(&mut notices, missing_snapshot(path));
        return Ok(Some((None, notices)));
    }
    let project_name = project_name_from_path(&state.project_path);
    let session = CodexSession {
        ai_coding_agent: AiCodingAgent::Pi,
        source_path: owned(path),
        session_name: state.session_name,
        session_start_time: start_time_or(state.start_time, now),
        session_last_modified_time: file.modified_time,
        model: model_name(state.model),
        reasoning_effort: state.reasoning_effort,
        project_path: state.project_path,
        project_name,
        is_active: false,
        token_totals: state.token_totals,
    };
    Ok(Some((Some(session), state.notices)))
}

/// Whether a record carries OpenCode session metadata: an `id` that starts with `ses_`, or
/// a `sessionID` or `session_id` member.
pub open spec fn is_opencode_metadata(record: JsonValue) -> bool {
    (match text_member(record, "id"@) {
        Some(identifier) => "ses_"@.is_prefix_of(identifier),
        None => false,
    }) || has_member(record, "sessionID"@) || has_member(record, "session_id"@)
}

/// The instant an optional value gives.
pub open spec fn time_of(value: Option<JsonValue>) -> Option<(int, int)> {
    match value {
        Some(inner) => time_of_value(inner),
        None => None,
    }
}

/// The creation time of OpenCode metadata: `time.created`, else `created`, else `timestamp`.
pub open spec fn opencode_created(record: JsonValue) -> Option<(int, int)> {
    or_else(
        match json_get(record, "time"@) {
            Some(time) => time_member(time, "created"@),
            None => None,
        },
        or_else(time_member(record, "created"@), time_member(record, "timestamp"@)),
    )
}

/// The last-modified time of OpenCode metadata: `time.updated` or `time.modified`, else
/// `updated`, else `modified`.
pub open spec fn opencode_modified(record: JsonValue) -> Option<(int, int)> {
    or_else(
        match json_get(record, "time"@) {
            Some(time) => time_of(either_member(time, "updated"@, "modified"@)),
            None => None,
        },
        or_else(time_member(record, "updated"@), time_member(record, "modified"@)),
    )
}

/// The project path of OpenCode metadata: the first of `cwd`, `directory` and `path` that
/// is present, when it is a string.
pub open spec fn opencode_project(record: JsonValue) -> Option<Seq<char>> {
    text_of(or_else(either_member(record, "cwd"@, "directory"@), json_get(record, "path"@)))
}

/// The role of an OpenCode message: `role`, else `author.role`.
pub open spec fn opencode_role(message: JsonValue) -> Option<Seq<char>> {
    text_of(
        or_else(
            json_get(message, "role"@),
            match json_get(message, "author"@) {
                Some(author) => json_get(author, "role"@),
                None => None,
            },
        ),
    )
}

/// The model identifier of an OpenCode model value: the value itself when it is a string,
/// else the first of its `id`, `modelID` and `model_id` that is present.
pub open spec fn model_identifier(model: JsonValue) -> Option<Seq<char>> {
    or_else(json_text(model), text_of(or_else(json_get(model, "id"@), either_member(model, "modelID"@, "model_id"@))))
}

/// The reasoning effort of an OpenCode model value: the first of `variant`,
/// `reasoningEffort`, `reasoning_effort` and `thinkingLevel` that is present.
pub open spec fn model_reasoning(model: JsonValue) -> Option<Seq<char>> {
    text_of(
        or_else(
            either_member(model, "variant"@, "reasoningEffort"@),
            either_member(model, "reasoning_effort"@, "thinkingLevel"@),
        ),
    )
}

/// The Model of an OpenCode message: from `model`, else `modelID` or `model_id`.
pub open spec fn opencode_model(message: JsonValue) -> Option<Seq<char>> {
    or_else(
        match json_get(message, "model"@) {
            Some(model) => model_identifier(model),
            None => None,
        },
        text_of(either_member(message, "modelID"@, "model_id"@)),
    )
}

/// The reasoning effort of an OpenCode message: the first of `reasoningEffort`,
/// `reasoning_effort` and `thinkingLevel` that is present, else that of its `model`.
pub open spec fn opencode_reasoning(message: JsonValue) -> Option<Seq<char>> {
    or_else(
        text_of(or_else(either_member(message, "reasoningEffort"@, "reasoning_effort"@), json_get(message, "thinkingLevel"@))),
        match json_get(message, "model"@) {
            Some(model) => model_reasoning(model),
            None => None,
        },
    )
}

/// What OpenCode records have shown so far.
pub struct OpencodeScan {
    pub is_opencode_session: bool,
    pub start_time: Option<(int, int)>,
    pub session_name: Option<Seq<char>>,
    pub last_modified_time: Option<(int, int)>,
    pub model: Option<Seq<char>>,
    pub reasoning_effort: Option<Seq<char>>,
    pub project_path: Option<Seq<char>>,
    pub token_totals: TokenTotals,
    pub saw_assistant_message: bool,
    pub notices: Seq<NoticeFacts>,
}

/// The message of an OpenCode record: its `message` member, else the record itself.
pub open spec fn record_message(record: JsonValue) -> JsonValue {
    match json_get(record, "message"@) {
        Some(message) => message,
        None => record,
    }
}

/// What OpenCode records show after one more; `None` where a token count overflows.
pub open spec fn opencode_record_step(scan: OpencodeScan, record: JsonValue) -> Option<OpencodeScan> {
    let described = if is_opencode_metadata(record) {
        OpencodeScan {
            is_opencode_session: true,
            start_time: or_else(opencode_created(record), scan.start_time),
            session_name: or_else(recorded_session_name(record), scan.session_name),
            last_modified_time: or_else(opencode_modified(record), scan.last_modified_time),
            project_path: or_else(opencode_project(record), scan.project_path),
            ..scan
        }
    } else {
        scan
    };
    let message = record_message(record);
    if opencode_role(message) == Some("assistant"@) {
        let totals = match json_get(message, "usage"@) {
            Some(usage) => totals_of_model(opencode_usage_model(described.token_totals, usage)),
            None => Some(described.token_totals),
        };
        match totals {
            Some(token_totals) => Some(
                OpencodeScan {
                    is_opencode_session: true,
                    saw_assistant_message: true,
                    model: or_else(opencode_model(message), described.model),
                    reasoning_effort: or_else(opencode_reasoning(message), described.reasoning_effort),
                    token_totals,
                    ..described
                },
            ),
            None => None,
        }
    } else {
        Some(described)
    }
}

/// What OpenCode JSONL lines show after one more; `None` where a token count overflows.
pub open spec fn opencode_line_step(scan: OpencodeScan, line: Option<JsonValue>, line_number: int, path: Seq<char>) -> Option<OpencodeScan> {
    match line {
        None => Some(
            OpencodeScan {
                notices: scan.notices.push(line_notice(path, line_number, "invalid JSON record"@)),
                ..scan
            },
        ),
        Some(record) => opencode_record_step(scan, record),
    }
}

/// An OpenCode scan before any record.
pub open spec fn empty_opencode_scan(modified_time: Option<(int, int)>) -> OpencodeScan {
    OpencodeScan {
        is_opencode_session: false,
        start_time: None,
        session_name: None,
        last_modified_time: modified_time,
        model: None,
        reasoning_effort: None,
        project_path: None,
        token_totals: no_token_totals(),
        saw_assistant_message: false,
        notices: Seq::empty(),
    }
}

/// What the first `count` lines of an OpenCode JSONL file show.
pub open spec fn opencode_scan_of(
    path: Seq<char>,
    lines: Seq<SessionLine>,
    count: int,
    modified_time: Option<(int, int)>,
) -> Option<OpencodeScan>
    decreases count,
{
    if count <= 0 {
        Some(empty_opencode_scan(modified_time))
    } else {
        match opencode_scan_of(path, lines, count - 1, modified_time) {
            Some(scan) => opencode_line_step(scan, lines[count - 1].value, count, path),
            None => None,
        }
    }
}

/// What an OpenCode scan gives at the end.
pub open spec fn opencode_scan_outcome(scan: Option<OpencodeScan>, path: Seq<char>, now: UtcInstant) -> FileOutcome {
    match scan {
        None => FileOutcome::Overflow,
        Some(found) => if !found.is_opencode_session {
            FileOutcome::NotThisAgent
        } else if !found.saw_assistant_message || found.token_totals.total_tokens is None {
            FileOutcome::Parsed(None, found.notices.push(missing_snapshot_notice(path)))
        } else {
            FileOutcome::Parsed(
                Some(
                    SessionFacts {
                        agent: AiCodingAgent::Opencode,
                        source_path: path,
                        session_name: found.session_name,
                        start_time: start_or_now(found.start_time, now),
                        last_modified_time: found.last_modified_time,
                        model: model_or_unknown(found.model),
                        reasoning_effort: found.reasoning_effort,
                        project_path: found.project_path,
                        project_name: project_name_of(found.project_path),
                        is_active: false,
                        token_totals: found.token_totals,
                    },
                ),
                found.notices,
            )
        },
    }
}

/// What a file gives read as OpenCode: a `.json` file that is one JSON value is read as
/// that one record; any other file line by line.
pub open spec fn opencode_outcome(file: SessionFile, now: UtcInstant) -> FileOutcome {
    let path = file.source_path@;
    let modified = instant_option_view(file.modified_time);
    if std_path_extension(path) == Some("json"@) && file.whole_value is Some {
        opencode_scan_outcome(opencode_record_step(empty_opencode_scan(modified), file.whole_value.unwrap()), path, now)
    } else {
        opencode_scan_outcome(opencode_scan_of(path, file.lines@, file.lines@.len() as int, modified), path, now)
    }
}

/// An OpenCode scan in progress.
struct OpencodeScanState {
    is_opencode_session: bool,
    start_time: Option<UtcInstant>,
    session_name: Option<String>,
    last_modified_time: Option<UtcInstant>,
    model: Option<String>,
    reasoning_effort: Option<String>,
    project_path: Option<String>,
    token_totals: TokenTotals,
    saw_assistant_message: bool,
    notices: Vec<DataQualityNotice>,
}

/// What an OpenCode scan in progress holds, as values.
spec fn opencode_scan_facts(state: OpencodeScanState) -> OpencodeScan {
    OpencodeScan {
        is_opencode_session: state.is_opencode_session,
        start_time: instant_option_view(state.start_time),
        session_name: option_text_view(state.session_name),
        last_modified_time: instant_option_view(state.last_modified_time),
        model: option_text_view(state.model),
        reasoning_effort: option_text_view(state.reasoning_effort),
        project_path: option_text_view(state.project_path),
        token_totals: state.token_totals,
        saw_assistant_message: state.saw_assistant_message,
        notices: notices_facts(state.notices@),
    }
}

/// Whether a record carries OpenCode session metadata.
fn is_opencode_metadata_record(record: &JsonValue) -> (result: bool)
    ensures
        result == is_opencode_metadata(*record),
{
    let has_session_identifier = match record.get("id") {
        Some(identifier) => match identifier.as_str() {
            Some(text) => text_starts_with(text, "ses_"),
            None => false,
        },
        None => false,
    };
    has_session_identifier || record.has_member("sessionID") || record.has_member("session_id")
}

/// The instant an optional value gives.
fn time_of_option(value: Option<&JsonValue>) -> (result: Option<UtcInstant>)
    ensures
        instant_option_view(result) == time_of(
            match value {
                Some(inner) => Some(*inner),
                None => None,
            },
        ),
{
    match value {
        Some(inner) => parse_time_value(inner),
        None => None,
    }
}

/// The creation time of OpenCode metadata.
fn opencode_created_time(record: &JsonValue) -> (result: Option<UtcInstant>)
    ensures
        instant_option_view(result) == opencode_created(*record),
{
    let nested = match record.get("time") {
        Some(time) => time_member_of(time, "created"),
        None => None,
    };
    or_else_instant(nested, or_else_instant(time_member_of(record, "created"), time_member_of(record, "timestamp")))
}

/// The last-modified time of OpenCode metadata.
fn opencode_last_modified_time(record: &JsonValue) -> (result: Option<UtcInstant>)
    ensures
        instant_option_view(result) == opencode_modified(*record),
{
    let nested = match record.get("time") {
        Some(time) => time_of_option(either_member_of(time, "updated", "modified")),
        None => None,
    };
    or_else_instant(nested, or_else_instant(time_member_of(record, "updated"), time_member_of(record, "modified")))
}

/// The first of two optional values that is present.
fn or_else_value<'a>(first: Option<&'a JsonValue>, second: Option<&'a JsonValue>) -> (result: Option<&'a JsonValue>)
    ensures
        match result {
            Some(value) => or_else(
                match first {
                    Some(inner) => Some(*inner),
                    None => None,
                },
                match second {
                    Some(inner) => Some(*inner),
                    None => None,
                },
            ) == Some(*value),
            None => first is None && second is None,
        },
{
    match first {
        Some(value) => Some(value),
        None => second,
    }
}

/// The project path of OpenCode metadata.
fn opencode_project_path(record: &JsonValue) -> (result: Option<String>)
    ensures
        option_text_view(result) == opencode_project(*record),
{
    text_of_value(or_else_value(either_member_of(record, "cwd", "directory"), record.get("path")))
}

/// The role of an OpenCode message.
pub(crate) fn opencode_message_role(message: &JsonValue) -> (result: Option<String>)
    ensures
        option_text_view(result) == opencode_role(*message),
{
    let author_role = match message.get("author") {
        Some(author) => author.get("role"),
        None => None,
    };
    text_of_value(or_else_value(message.get("role"), author_role))
}

/// The model identifier of an OpenCode model value.
pub(crate) fn opencode_model_identifier(model: &JsonValue) -> (result: Option<String>)
    ensures
        option_text_view(result) == model_identifier(*model),
{
    let direct = match model.as_str() {
        Some(text) => Some(owned(text)),
        None => None,
    };
    or_else_text(
        direct,
        text_of_value(or_else_value(model.get("id"), either_member_of(model, "modelID", "model_id"))),
    )
}

/// The reasoning effort of an OpenCode model value.
pub(crate) fn opencode_model_reasoning_effort(model: &JsonValue) -> (result: Option<String>)
    ensures
        option_text_view(result) == model_reasoning(*model),
{
    text_of_value(
        or_else_value(
            either_member_of(model, "variant", "reasoningEffort"),
            either_member_of(model, "reasoning_effort", "thinkingLevel"),
        ),
    )
}

/// The Model of an OpenCode message.
pub(crate) fn opencode_model_of(message: &JsonValue) -> (result: Option<String>)
    ensures
        option_text_view(result) == opencode_model(*message),
{
    let from_model = match message.get("model") {
        Some(model) => opencode_model_identifier(model),
        None => None,
    };
    or_else_text(from_model, text_of_value(either_member_of(message, "modelID", "model_id")))
}

/// The reasoning effort of an OpenCode message.
pub(crate) fn opencode_reasoning_effort(message: &JsonValue) -> (result: Option<String>)
    ensures
        option_text_view(result) == opencode_reasoning(*message),
{
    let direct = text_of_value(
        or_else_value(either_member_of(message, "reasoningEffort", "reasoning_effort"), message.get("thinkingLevel")),
    );
    let from_model = match message.get("model") {
        Some(model) => opencode_model_reasoning_effort(model),
        None => None,
    };
    or_else_text(direct, from_model)
}

/// The message of an OpenCode record.
fn message_of(record: &JsonValue) -> (result: &JsonValue)
    ensures
        *result == record_message(*record),
{
    match record.get("message") {
        Some(message) => message,
        None => record,
    }
}

/// Takes in one more OpenCode record.
fn opencode_record_state(state: &mut OpencodeScanState, record: &JsonValue) -> (result: Result<(), TokenCountOverflow>)
    ensures
        match opencode_record_step(opencode_scan_facts(*old(state)), *record) {
            Some(scan) => result is Ok && opencode_scan_facts(*final(state)) == scan,
            None => result is Err,
        },
{
    if is_opencode_metadata_record(record) {
        state.is_opencode_session = true;
        let previous_start = state.start_time;
        state.start_time = or_else_instant(opencode_created_time(record), previous_start);
        let previous_name = state.session_name.take();
        state.session_name = or_else_text(source_recorded_session_name(record), previous_name);
        let previous_modified = state.last_modified_time;
        state.last_modified_time = or_else_instant(opencode_last_modified_time(record), previous_modified);
        let previous_project = state.project_path.take();
        state.project_path = or_else_text(opencode_project_path(record), previous_project);
    }
    let message = message_of(record);
    if is_text(&opencode_message_role(message), "assistant") {
        match message.get("usage") {
            Some(usage) => match add_opencode_usage(&state.token_totals, usage) {
                Ok(totals) => {
                    state.token_totals = totals;
                },
                Err(overflow) => {
                    return Err(overflow);
                },
            },
            None => {},
        }
        state.is_opencode_session = true;
        state.saw_assistant_message = true;
        let previous_model = state.model.take();
        state.model = or_else_text(opencode_model_of(message), previous_model);
        let previous_effort = state.reasoning_effort.take();
        state.reasoning_effort = or_else_text(opencode_reasoning_effort(message), previous_effort);
    }
    Ok(())
}

/// Once a token count has overflowed, it stays so for every longer prefix.
proof fn lemma_opencode_overflow_stays(
    path: Seq<char>,
    lines: Seq<SessionLine>,
    modified_time: Option<(int, int)>,
    from: int,
    to: int,
)
    requires
        0 <= from <= to,
        opencode_scan_of(path, lines, from, modified_time) is None,
    ensures
        opencode_scan_of(path, lines, to, modified_time) is None,
    decreases to - from,
{
    if from < to {
        lemma_opencode_overflow_stays(path, lines, modified_time, from, to - 1);
    }
}

/// The end of an OpenCode scan: `None` where no record was OpenCode's; else the session,
/// when an assistant message brought Total Tokens, and the notices.
fn finish_opencode_scan(state: OpencodeScanState, path: &str, now: UtcInstant) -> (result: Option<
    (Option<CodexSession>, Vec<DataQualityNotice>),
>)
    ensures
        outcome_of(Ok(result)) == opencode_scan_outcome(Some(opencode_scan_facts(state)), path@, now),
{
    if !state.is_opencode_session {
        return None;
    }
    if !state.saw_assistant_message || state.token_totals.total_tokens.is_none() {
        let mut notices = state.notices;
        push_notice(&mut notices, missing_snapshot(path));
        return Some((None, notices));
    }
    let project_name = project_name_from_path(&state.project_path);
    let session = CodexSession {
        ai_coding_agent: AiCodingAgent::Opencode,
        source_path: owned(path),
        session_name: state.session_name,
        session_start_time: start_time_or(state.start_time, now),
        session_last_modified_time: state.last_modified_time,
        model: model_name(state.model),
        reasoning_effort: state.reasoning_effort,
        project_path: state.project_path,
        project_name,
        is_active: false,
        token_totals: state.token_totals,
    };
    Some((Some(session), state.notices))
}

/// Parses a file as OpenCode session data: `None` where no record is OpenCode's; else the
/// session, when an assistant message brought Total Tokens, and the notices; an error
/// where a token count does not fit in `u64`.
pub fn parse_opencode_session_file(file: &SessionFile, now: UtcInstant) -> (result: Result<
    Option<(Option<CodexSession>, Vec<DataQualityNotice>)>,
    TokenCountOverflow,
>)
    ensures
        outcome_of(result) == opencode_outcome(*file, now),
{
    let path = file.source_path.as_str();
    let mut state = OpencodeScanState {
        is_opencode_session: false,
        start_time: None,
        session_name: None,
        last_modified_time: file.modified_time,
        model: None,
        reasoning_effort: None,
        project_path: None,
        token_totals: TokenTotals::unknown(),
        saw_assistant_message: false,
        notices: Vec::new(),
    };
    proof {
        assert(notices_facts(state.notices@) =~= Seq::<NoticeFacts>::empty());
    }
    let is_json_file = is_text(&path_extension(path), "json");
    if is_json_file {
        match &file.whole_value {
            Some(record) => {
                if opencode_record_state(&mut state, record).is_err() {
                    return Err(TokenCountOverflow);
                }
                return Ok(finish_opencode_scan(state, path, now));
            },
            None => {},
        }
    }
    let mut index: usize = 0;
    while index < file.lines.len()
        invariant
            index <= file.lines.len(),
            path@ == file.source_path@,
            !(std_path_extension(file.source_path@) == Some("json"@) && file.whole_value is Some),
            opencode_scan_of(path@, file.lines@, index as int, instant_option_view(file.modified_time))
                == Some(opencode_scan_facts(state)),
        decreases file.lines.len() - index,
    {
        match &file.lines[index].value {
            None => {
                push_notice(
                    &mut state.notices,
                    notice(path, Some(index + 1), DataQualityNoticeKind::ParseProblem, "invalid JSON record"),
                );
            },
            Some(record) => {
                if opencode_record_state(&mut state, record).is_err() {
                    proof {
                        lemma_opencode_overflow_stays(
                            path@,
                            file.lines@,
                            instant_option_view(file.modified_time),
                            index as int + 1,
                            file.lines@.len() as int,
                        );
                    }
                    return Err(TokenCountOverflow);
                }
            },
        }
        index = index + 1;
    }
    Ok(finish_opencode_scan(state, path, now))
}

/// What parsing a session file gives: read as a Pi log first, then as OpenCode data, and
/// otherwise as a Codex log.
pub open spec fn session_file_outcome(file: SessionFile, now: UtcInstant) -> FileOutcome {
    match pi_outcome(file, now) {
        FileOutcome::NotThisAgent => match opencode_outcome(file, now) {
            FileOutcome::NotThisAgent => codex_outcome(file, now),
            other => other,
        },
        other => other,
    }
}

/// The outcome of a parse that always finds its agent, as values.
pub open spec fn parsed_outcome_of(
    result: Result<(Option<CodexSession>, Vec<DataQualityNotice>), TokenCountOverflow>,
) -> FileOutcome {
    match result {
        Ok(parsed) => outcome_of(Ok(Some(parsed))),
        Err(overflow) => outcome_of(Err(overflow)),
    }
}

/// Parses one session file: as a Pi log when it holds a Pi `session` record, else as
/// OpenCode data when a record is OpenCode's, else as a Codex log. Gives the session,
/// when the file has usable token counts, and the notices; an error where a token count
/// does not fit in `u64`.
pub fn parse_session_file(file: &SessionFile, now: UtcInstant) -> (result: Result<
    (Option<CodexSession>, Vec<DataQualityNotice>),
    TokenCountOverflow,
>)
    ensures
        parsed_outcome_of(result) == session_file_outcome(*file, now),
{
    match parse_pi_session_file(file, now) {
        Err(overflow) => return Err(overflow),
        Ok(Some(parsed)) => return Ok(parsed),
        Ok(None) => {},
    }
    match parse_opencode_session_file(file, now) {
        Err(overflow) => return Err(overflow),
        Ok(Some(parsed)) => return Ok(parsed),
        Ok(None) => {},
    }
    match parse_codex_session_file(file, now) {
        Err(overflow) => Err(overflow),
        Ok(Some(parsed)) => Ok(parsed),
        Ok(None) => Ok((None, Vec::new())),
    }
}

/// A line that is not a decodable record leaves a Parse Problem notice with its line number
/// and changes nothing else that the Codex log shows.
pub proof fn law_codex_bad_line_only_adds_notice(scan: CodexScan, line_number: int, path: Seq<char>)
    ensures
        codex_step(scan, None, line_number, path) == Some(
            CodexScan { notices: scan.notices.push(line_notice(path, line_number, "invalid JSONL record"@)), ..scan },
        ),
{
}

/// A line that is not JSON leaves a Parse Problem notice with its line number and changes
/// nothing else that the Pi log shows.
pub proof fn law_pi_bad_line_only_adds_notice(scan: PiScan, line_number: int, path: Seq<char>)
    ensures
        pi_step(scan, None, line_number, path) == Some(
            PiScan { notices: scan.notices.push(line_notice(path, line_number, "invalid JSONL record"@)), ..scan },
        ),
{
}

/// A Codex `token_count` event with usable counts replaces the Token Snapshot: the final
/// snapshot is selected, never a sum of cumulative ones.
pub proof fn law_codex_final_snapshot_replaces_earlier(
    scan: CodexScan,
    record: CodexRecord,
    info: JsonValue,
    totals: TokenTotals,
    line_number: int,
    path: Seq<char>,
)
    requires
        record.record_type@ == "event_msg"@,
        text_member(record.payload, "type"@) == Some("token_count"@),
        json_get(record.payload, "info"@) == Some(info),
        !(info is Null),
        codex_snapshot_model(info) matches Some(model) && totals_of_model(model) == Some(totals),
    ensures
        codex_step(scan, Some(record), line_number, path) matches Some(next) && next.snapshot == Some(totals),
{
    reveal_strlit("event_msg");
    reveal_strlit("session_meta");
    reveal_strlit("turn_context");
    reveal_strlit("token_count");
    reveal_strlit("task_complete");
    assert("event_msg"@[0] != "session_meta"@[0]);
    assert("event_msg"@[0] != "turn_context"@[0]);
}

/// Non-Cached Input Tokens of a Codex snapshot are its Input Tokens less its Cache Read
/// Tokens whenever both are known and the first is not the smaller.
pub proof fn law_codex_non_cached_input_derived(info: JsonValue, input: u64, cache_read: u64)
    requires
        json_get(info, "total_token_usage"@) matches Some(usage) && unsigned_member(usage, "input_tokens"@) == Some(input)
            && either(
            widened(unsigned_member(usage, "cached_input_tokens"@)),
            widened(unsigned_member(usage, "cache_read_tokens"@)),
        ) == Some(cache_read as int),
        input >= cache_read,
    ensures
        codex_snapshot_model(info) matches Some(model) && model.non_cached_input_tokens == Some(input - cache_read),
{
}

/// Pi assistant usage adds up: each known count of a message is added to the running total,
/// and Non-Cached Input Tokens follow as Input Tokens less Cache Read Tokens.
pub proof fn law_pi_usage_adds_up(totals: TokenTotals, usage: JsonValue, input: u64, cache_read: u64)
    requires
        unsigned_member(usage, "input"@) == Some(input),
        unsigned_member(usage, "cacheRead"@) == Some(cache_read),
    ensures
        pi_usage_model(totals, usage).input_tokens == Some(count_or_zero(totals.input_tokens) + input),
        pi_usage_model(totals, usage).cache_read_tokens == Some(count_or_zero(totals.cache_read_tokens) + cache_read),
        count_or_zero(totals.input_tokens) + input >= count_or_zero(totals.cache_read_tokens) + cache_read ==> pi_usage_model(
            totals,
            usage,
        ).non_cached_input_tokens == Some(
            count_or_zero(totals.input_tokens) + input - (count_or_zero(totals.cache_read_tokens) + cache_read),
        ),
{
}

/// Builds a session file from its path, last-modified time and text: each line of the text,
/// as `str::lines` splits it, decoded as JSON, and the whole text decoded as JSON. The
/// Codex record of each line is the one given for it, `None` where none is given.
pub fn session_file_from_text(
    source_path: &str,
    modified_time: Option<UtcInstant>,
    content: &str,
    records: Vec<Option<CodexRecord>>,
) -> (result: SessionFile)
    ensures
        result.source_path@ == source_path@,
        result.modified_time == modified_time,
        result.whole_value == json_text_value(content@),
        result.lines@.len() == std_lines(content@).len(),
        forall|index: int|
            0 <= index < result.lines@.len() ==> (#[trigger] result.lines@[index]).value == json_text_value(
                std_lines(content@)[index],
            ) && result.lines@[index].record == (if index < records@.len() {
                records@[index]
            } else {
                None
            }),
{
    let texts = text_lines(content);
    let ghost given = records@;
    let mut records = records;
    let mut lines: Vec<SessionLine> = Vec::new();
    let mut index: usize = 0;
    while index < texts.len()
        invariant
            index <= texts.len(),
            texts@.len() == std_lines(content@).len(),
            forall|position: int| 0 <= position < texts@.len() ==> (#[trigger] texts@[position])@ == std_lines(content@)[position],
            records@.len() == given.len(),
            forall|position: int| index <= position < given.len() ==> (#[trigger] records@[position]) == given[position],
            lines@.len() == index,
            forall|position: int|
                0 <= position < index ==> (#[trigger] lines@[position]).value == json_text_value(
                    std_lines(content@)[position],
                ) && lines@[position].record == (if position < given.len() {
                    given[position]
                } else {
                    None
                }),
        decreases texts.len() - index,
    {
        let mut record: Option<CodexRecord> = None;
        if index < records.len() {
            core::mem::swap(&mut records[index], &mut record);
        }
        let value = parse_json_text(texts[index].as_str());
        lines.push(SessionLine { value, record });
        index = index + 1;
    }
    SessionFile {
        source_path: owned(source_path),
        modified_time,
        whole_value: parse_json_text(content),
        lines,
    }
}

} // verus!
