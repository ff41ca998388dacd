//! AI Coding Agent Sessions and the notices that parsing leaves.

use crate::text::{joined, owned};
use crate::time::UtcInstant;
use vstd::prelude::*;

verus! {

/// Parsed usage and Data Quality Notices from a Usage Source.
#[derive(Clone, Debug, Default, PartialEq, Eq)]
pub struct ParsedUsage {
    /// AI Coding Agent Sessions built from readable session files.
    pub codex_sessions: Vec<CodexSession>,
    /// Notices describing records excluded from Derived Summaries.
    pub data_quality_notices: Vec<DataQualityNotice>,
}

/// AI Coding Agent that produced a session file.
#[derive(Clone, Copy, Debug, PartialEq, Eq, Structural)]
pub enum AiCodingAgent {
    /// OpenAI Codex CLI.
    Codex,
    /// Pi Coding Agent.
    Pi,
    /// OpenCode.
    Opencode,
}

/// Display label of an AI Coding Agent.
pub open spec fn agent_label(agent: AiCodingAgent) -> Seq<char> {
    match agent {
        AiCodingAgent::Codex => "Codex"@,
        AiCodingAgent::Pi => "Pi"@,
        AiCodingAgent::Opencode => "OpenCode"@,
    }
}

impl AiCodingAgent {
    /// Display label for Session Detail columns.
    pub fn label(self) -> (result: &'static str)
        ensures
            result@ == agent_label(self),
    {
        match self {
            AiCodingAgent::Codex => "Codex",
            AiCodingAgent::Pi => "Pi",
            AiCodingAgent::Opencode => "OpenCode",
        }
    }
}

/// Token categories preserved from a Token Snapshot.
#[derive(Clone, Copy, Debug, Default, PartialEq, Eq, Structural)]
pub struct TokenTotals {
    /// Input Tokens.
    pub input_tokens: Option<u64>,
    /// Non-Cached Input Tokens.
    pub non_cached_input_tokens: Option<u64>,
    /// Cache Read Tokens.
    pub cache_read_tokens: Option<u64>,
    /// Cache Write Tokens.
    pub cache_write_tokens: Option<u64>,
    /// Output Tokens.
    pub output_tokens: Option<u64>,
    /// Reasoning Output Tokens.
    pub reasoning_output_tokens: Option<u64>,
    /// Total Tokens.
    pub total_tokens: Option<u64>,
}

/// Token totals with every category unknown.
pub open spec fn no_token_totals() -> TokenTotals {
    TokenTotals {
        input_tokens: None,
        non_cached_input_tokens: None,
        cache_read_tokens: None,
        cache_write_tokens: None,
        output_tokens: None,
        reasoning_output_tokens: None,
        total_tokens: None,
    }
}

impl TokenTotals {
    /// Token totals with every category unknown.
    pub fn unknown() -> (result: TokenTotals)
        ensures
            result == no_token_totals(),
    {
        TokenTotals {
            input_tokens: None,
            non_cached_input_tokens: None,
            cache_read_tokens: None,
            cache_write_tokens: None,
            output_tokens: None,
            reasoning_output_tokens: None,
            total_tokens: None,
        }
    }
}

/// A single work session derived from one AI Coding Agent session file.
#[derive(Clone, Debug, PartialEq, Eq)]
pub struct CodexSession {
    /// AI Coding Agent that produced the session.
    pub ai_coding_agent: AiCodingAgent,
    /// Source file path.
    pub source_path: String,
    /// Source-recorded Session Name when available.
    pub session_name: Option<String>,
    /// Session Start Time.
    pub session_start_time: UtcInstant,
    /// Source last-modified time when available.
    pub session_last_modified_time: Option<UtcInstant>,
    /// Exact recorded Model name.
    pub model: String,
    /// Source-recorded reasoning effort or thinking level when available.
    pub reasoning_effort: Option<String>,
    /// Full project path when available.
    pub project_path: Option<String>,
    /// Compact Project Name when available.
    pub project_name: Option<String>,
    /// Whether no completion record was observed.
    pub is_active: bool,
    /// Session-level token totals from the selected Token Snapshot.
    pub token_totals: TokenTotals,
}

/// The compact Model label: the Model, followed by ` · ` and the reasoning effort when a
/// non-empty one was recorded.
pub open spec fn compact_model_label_of(session: CodexSession) -> Seq<char> {
    match session.reasoning_effort {
        Some(effort) => if effort@.len() > 0 {
            session.model@ + " · "@ + effort@
        } else {
            session.model@
        },
        None => session.model@,
    }
}

/// The time shown in the Session Detail Time column: the last-modified time when known,
/// else the Session Start Time.
pub open spec fn detail_time_of(session: CodexSession) -> UtcInstant {
    match session.session_last_modified_time {
        Some(time) => time,
        None => session.session_start_time,
    }
}

/// Copies an optional text.
pub fn clone_optional_text(text: &Option<String>) -> (result: Option<String>)
    ensures
        result == *text,
{
    match text {
        Some(value) => Some(value.clone()),
        None => None,
    }
}

impl CodexSession {
    /// Compact Model label for Session Detail columns.
    pub fn compact_model_label(&self) -> (result: String)
        ensures
            result@ == compact_model_label_of(*self),
    {
        match &self.reasoning_effort {
            Some(reasoning_effort) => {
                if reasoning_effort.unicode_len() > 0 {
                    let with_separator = joined(self.model.as_str(), " · ");
                    joined(with_separator.as_str(), reasoning_effort.as_str())
                } else {
                    self.model.clone()
                }
            },
            None => self.model.clone(),
        }
    }

    /// Time shown in the Session Detail Time column.
    pub fn session_detail_time(&self) -> (result: UtcInstant)
        ensures
            result == detail_time_of(*self),
    {
        match self.session_last_modified_time {
            Some(time) => time,
            None => self.session_start_time,
        }
    }

    /// Copies the session.
    pub fn duplicate(&self) -> (result: CodexSession)
        ensures
            result == *self,
    {
        CodexSession {
            ai_coding_agent: self.ai_coding_agent,
            source_path: self.source_path.clone(),
            session_name: clone_optional_text(&self.session_name),
            session_start_time: self.session_start_time,
            session_last_modified_time: self.session_last_modified_time,
            model: self.model.clone(),
            reasoning_effort: clone_optional_text(&self.reasoning_effort),
            project_path: clone_optional_text(&self.project_path),
            project_name: clone_optional_text(&self.project_name),
            is_active: self.is_active,
            token_totals: self.token_totals,
        }
    }
}

/// A parse or source-quality problem that did not fail the whole run.
#[derive(Clone, Debug, PartialEq, Eq)]
pub struct DataQualityNotice {
    /// File path associated with the problem.
    pub source_path: String,
    /// One-based line number when applicable.
    pub line_number: Option<usize>,
    /// Stable notice kind.
    pub kind: DataQualityNoticeKind,
    /// Human-readable detail.
    pub detail: String,
}

/// Kinds of source records excluded or partially excluded.
#[derive(Clone, Copy, Debug, PartialEq, Eq, Structural)]
pub enum DataQualityNoticeKind {
    /// JSONL record could not be decoded.
    ParseProblem,
    /// JSON was valid but the record shape is not recognized for usage.
    UnknownSourceFormat,
    /// No usable Token Snapshot was found.
    MissingTokenSnapshot,
}

impl DataQualityNotice {
    /// Copies the notice.
    pub fn duplicate(&self) -> (result: DataQualityNotice)
        ensures
            result == *self,
    {
        DataQualityNotice {
            source_path: self.source_path.clone(),
            line_number: self.line_number,
            kind: self.kind,
            detail: self.detail.clone(),
        }
    }
}

/// Builds a Data Quality Notice.
pub fn notice(
    source_path: &str,
    line_number: Option<usize>,
    kind: DataQualityNoticeKind,
    detail: &str,
) -> (result: DataQualityNotice)
    ensures
        result.source_path@ == source_path@,
        result.line_number == line_number,
        result.kind == kind,
        result.detail@ == detail@,
{
    DataQualityNotice {
        source_path: owned(source_path),
        line_number,
        kind,
        detail: owned(detail),
    }
}

} // verus!
