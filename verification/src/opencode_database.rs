//! Sessions from an OpenCode SQLite database: one session per `session` row, with the
//! token counts of its assistant messages added up.

use vstd::prelude::*;
use crate::json::{json_get, json_text_value, option_text_view, parse_json_text, JsonValue};
use crate::session::{no_token_totals, AiCodingAgent, CodexSession, TokenTotals};
use crate::session_files::{
    is_text, model_identifier, model_reasoning, non_empty_string, non_empty_text, opencode_message_role,
    opencode_model, opencode_model_identifier, opencode_model_of, opencode_model_reasoning_effort,
    opencode_reasoning, opencode_reasoning_effort, opencode_role, or_else, project_name_from_path,
    project_name_of, session_facts, SessionFacts,
};
use crate::text::owned;
use crate::time::{chrono_instant_from_millis, instant_from_millis, UtcInstant};
use crate::token_usage::{
    add_opencode_tokens, add_opencode_usage, opencode_tokens_model, opencode_usage_model, totals_of_model,
    TokenCountOverflow,
};

verus! {

/// One row of the database's sessions joined with their messages, in the order of session
/// creation, message creation and message identifier.
#[derive(Debug)]
pub struct OpencodeDatabaseRow {
    /// `session.id`.
    pub session_identifier: String,
    /// `session.time_created`, in milliseconds since the Unix epoch.
    pub session_time_created: i64,
    /// `session.time_updated`, in milliseconds since the Unix epoch.
    pub session_time_updated: i64,
    /// `session.directory`.
    pub directory: String,
    /// `session.model`, when not null.
    pub session_model: Option<String>,
    /// `session.title`.
    pub session_name: String,
    /// `message.data`.
    pub message_data: String,
}

/// A row's `session.model` decoded as JSON, when it is present and JSON.
pub open spec fn row_model_value(row: OpencodeDatabaseRow) -> Option<JsonValue> {
    match row.session_model {
        Some(text) => json_text_value(text@),
        None => None,
    }
}

/// The Model of a session row: the identifier in its decoded `model`, else its `model`
/// text, else `unknown`.
pub open spec fn row_model(row: OpencodeDatabaseRow) -> Seq<char> {
    let identified = match row_model_value(row) {
        Some(model) => model_identifier(model),
        None => None,
    };
    match or_else(identified, option_text_view(row.session_model)) {
        Some(name) => name,
        None => "unknown"@,
    }
}

/// The session that a row with a new session identifier opens, before its messages.
pub open spec fn row_session(row: OpencodeDatabaseRow, path: Seq<char>, now: UtcInstant) -> SessionFacts {
    SessionFacts {
        agent: AiCodingAgent::Opencode,
        source_path: path,
        session_name: non_empty_text(row.session_name@),
        start_time: match chrono_instant_from_millis(row.session_time_created as int) {
            Some(time) => time,
            None => now@,
        },
        last_modified_time: chrono_instant_from_millis(row.session_time_updated as int),
        model: row_model(row),
        reasoning_effort: match row_model_value(row) {
            Some(model) => model_reasoning(model),
            None => None,
        },
        project_path: Some(row.directory@),
        project_name: project_name_of(Some(row.directory@)),
        is_active: false,
        token_totals: no_token_totals(),
    }
}

/// A session after one of its assistant messages: the message's Model and reasoning
/// effort where it records them, and its `tokens`, else its `usage`, added; `None` where
/// a token count overflows.
pub open spec fn message_applied(session: SessionFacts, message: JsonValue) -> Option<SessionFacts> {
    let totals = match json_get(message, "tokens"@) {
        Some(tokens) => totals_of_model(opencode_tokens_model(session.token_totals, tokens)),
        None => match json_get(message, "usage"@) {
            Some(usage) => totals_of_model(opencode_usage_model(session.token_totals, usage)),
            None => Some(session.token_totals),
        },
    };
    match totals {
        Some(token_totals) => Some(
            SessionFacts {
                model: match opencode_model(message) {
                    Some(name) => name,
                    None => session.model,
                },
                reasoning_effort: or_else(opencode_reasoning(message), session.reasoning_effort),
                token_totals,
                ..session
            },
        ),
        None => None,
    }
}

/// The sessions finished so far, the identifier of the open one, and the open one.
pub struct DatabaseScan {
    pub sessions: Seq<SessionFacts>,
    pub current_identifier: Option<Seq<char>>,
    pub current: Option<SessionFacts>,
}

/// The finished sessions with an open one added when it has Total Tokens.
pub open spec fn closed_sessions(sessions: Seq<SessionFacts>, current: Option<SessionFacts>) -> Seq<SessionFacts> {
    match current {
        Some(session) => if session.token_totals.total_tokens is Some {
            sessions.push(session)
        } else {
            sessions
        },
        None => sessions,
    }
}

/// The scan after one more row; `None` where a token count overflows.
pub open spec fn database_step(scan: DatabaseScan, row: OpencodeDatabaseRow, path: Seq<char>, now: UtcInstant) -> Option<DatabaseScan> {
    let opened = if scan.current_identifier != Some(row.session_identifier@) {
        DatabaseScan {
            sessions: closed_sessions(scan.sessions, scan.current),
            current_identifier: Some(row.session_identifier@),
            current: Some(row_session(row, path, now)),
        }
    } else {
        scan
    };
    match json_text_value(row.message_data@) {
        Some(message) => if opencode_role(message) == Some("assistant"@) {
            match opened.current {
                Some(session) => match message_applied(session, message) {
                    Some(updated) => Some(DatabaseScan { current: Some(updated), ..opened }),
                    None => None,
                },
                None => Some(opened),
            }
        } else {
            Some(opened)
        },
        None => Some(opened),
    }
}

/// The scan after the first `count` rows; `None` where a token count overflows.
pub open spec fn database_scan_of(rows: Seq<OpencodeDatabaseRow>, count: int, path: Seq<char>, now: UtcInstant) -> Option<DatabaseScan>
    decreases count,
{
    if count <= 0 {
        Some(DatabaseScan { sessions: Seq::empty(), current_identifier: None, current: None })
    } else {
        match database_scan_of(rows, count - 1, path, now) {
            Some(scan) => database_step(scan, rows[count - 1], path, now),
            None => None,
        }
    }
}

/// The sessions of the database: each session with Total Tokens, in row order; `None`
/// where a token count overflows.
pub open spec fn database_sessions(rows: Seq<OpencodeDatabaseRow>, path: Seq<char>, now: UtcInstant) -> Option<Seq<SessionFacts>> {
    match database_scan_of(rows, rows.len() as int, path, now) {
        Some(scan) => Some(closed_sessions(scan.sessions, scan.current)),
        None => None,
    }
}

/// The values of a list of sessions.
pub open spec fn sessions_facts(sessions: Seq<CodexSession>) -> Seq<SessionFacts> {
    sessions.map_values(|session: CodexSession| session_facts(session))
}

/// A database scan in progress.
struct DatabaseScanState {
    sessions: Vec<CodexSession>,
    current_identifier: Option<String>,
    current: Option<CodexSession>,
}

/// What a database scan in progress holds, as values.
spec fn database_scan_facts(state: DatabaseScanState) -> DatabaseScan {
    DatabaseScan {
        sessions: sessions_facts(state.sessions@),
        current_identifier: option_text_view(state.current_identifier),
        current: match state.current {
            Some(session) => Some(session_facts(session)),
            None => None,
        },
    }
}

/// Adds the open session to the finished ones when it has Total Tokens.
fn close_session(sessions: &mut Vec<CodexSession>, current: Option<CodexSession>)
    ensures
        sessions_facts(final(sessions)@) == closed_sessions(
            sessions_facts(old(sessions)@),
            match current {
                Some(session) => Some(session_facts(session)),
                None => None,
            },
        ),
{
    match current {
        Some(session) => {
            if session.token_totals.total_tokens.is_some() {
                let ghost before = sessions@;
                sessions.push(session);
                assert(sessions_facts(sessions@) =~= sessions_facts(before).push(session_facts(session)));
            }
        },
        None => {},
    }
}

/// The session that a row with a new session identifier opens.
fn open_session(row: &OpencodeDatabaseRow, path: &str, now: UtcInstant) -> (result: CodexSession)
    ensures
        session_facts(result) == row_session(*row, path@, now),
{
    let parsed_session_model = match &row.session_model {
        Some(text) => parse_json_text(text.as_str()),
        None => None,
    };
    let identified = match &parsed_session_model {
        Some(model) => opencode_model_identifier(model),
        None => None,
    };
    let recorded = match &row.session_model {
        Some(text) => Some(text.clone()),
        None => None,
    };
    let model = match identified {
        Some(name) => name,
        None => match recorded {
            Some(name) => name,
            None => owned("unknown"),
        },
    };
    let reasoning_effort = match &parsed_session_model {
        Some(model) => opencode_model_reasoning_effort(model),
        None => None,
    };
    let project_path = Some(row.directory.clone());
    let project_name = project_name_from_path(&project_path);
    let session_start_time = match instant_from_millis(row.session_time_created) {
        Some(time) => time,
        None => now,
    };
    CodexSession {
        ai_coding_agent: AiCodingAgent::Opencode,
        source_path: owned(path),
        session_name: non_empty_string(row.session_name.as_str()),
        session_start_time,
        session_last_modified_time: instant_from_millis(row.session_time_updated),
        model,
        reasoning_effort,
        project_path,
        project_name,
        is_active: false,
        token_totals: TokenTotals::unknown(),
    }
}

/// Applies one assistant message to a session.
fn apply_message(session: &mut CodexSession, message: &JsonValue) -> (result: Result<(), TokenCountOverflow>)
    ensures
        match message_applied(session_facts(*old(session)), *message) {
            Some(updated) => result is Ok && session_facts(*final(session)) == updated,
            None => result is Err,
        },
{
    let totals = match message.get("tokens") {
        Some(tokens) => add_opencode_tokens(&session.token_totals, tokens),
        None => match message.get("usage") {
            Some(usage) => add_opencode_usage(&session.token_totals, usage),
            None => Ok(session.token_totals),
        },
    };
    match totals {
        Ok(token_totals) => {
            session.token_totals = token_totals;
        },
        Err(overflow) => {
            return Err(overflow);
        },
    }
    match opencode_model_of(message) {
        Some(name) => {
            session.model = name;
        },
        None => {},
    }
    let previous = session.reasoning_effort.take();
    session.reasoning_effort = match opencode_reasoning_effort(message) {
        Some(effort) => Some(effort),
        None => previous,
    };
    Ok(())
}

/// Once a token count has overflowed, it stays so for every longer prefix.
proof fn lemma_database_overflow_stays(rows: Seq<OpencodeDatabaseRow>, path: Seq<char>, now: UtcInstant, from: int, to: int)
    requires
        0 <= from <= to,
        database_scan_of(rows, from, path, now) is None,
    ensures
        database_scan_of(rows, to, path, now) is None,
    decreases to - from,
{
    if from < to {
        lemma_database_overflow_stays(rows, path, now, from, to - 1);
    }
}

/// Builds the sessions of an OpenCode database from its rows: a new session at each row
/// whose session identifier differs from the previous row's, each assistant message
/// applied to the open session, and each session with Total Tokens kept, in row order.
/// An error where a token count does not fit in `u64`.
pub fn parse_opencode_database_rows(rows: &Vec<OpencodeDatabaseRow>, source_path: &str, now: UtcInstant) -> (result: Result<
    Vec<CodexSession>,
    TokenCountOverflow,
>)
    ensures
        match database_sessions(rows@, source_path@, now) {
            Some(sessions) => result is Ok && sessions_facts(result->Ok_0@) == sessions,
            None => result is Err,
        },
{
    let mut state = DatabaseScanState { sessions: Vec::new(), current_identifier: None, current: None };
    proof {
        assert(sessions_facts(state.sessions@) =~= Seq::<SessionFacts>::empty());
    }
    let mut index: usize = 0;
    while index < rows.len()
        invariant
            index <= rows.len(),
            database_scan_of(rows@, index as int, source_path@, now) == Some(database_scan_facts(state)),
        decreases rows.len() - index,
    {
        let row = &rows[index];
        if !is_text(&state.current_identifier, row.session_identifier.as_str()) {
            let previous = state.current.take();
            close_session(&mut state.sessions, previous);
            state.current_identifier = Some(row.session_identifier.clone());
            state.current = Some(open_session(row, source_path, now));
        }
        let decoded_message = parse_json_text(row.message_data.as_str());
        match &decoded_message {
            Some(message) => {
                if is_text(&opencode_message_role(message), "assistant") {
                    match &mut state.current {
                        Some(session) => {
                            if apply_message(session, message).is_err() {
                                proof {
                                    lemma_database_overflow_stays(rows@, source_path@, now, index as int + 1, rows@.len() as int);
                                }
                                return Err(TokenCountOverflow);
                            }
                        },
                        None => {},
                    }
                }
            },
            None => {},
        }
        index = index + 1;
    }
    let mut sessions = state.sessions;
    close_session(&mut sessions, state.current);
    Ok(sessions)
}

} // verus!
