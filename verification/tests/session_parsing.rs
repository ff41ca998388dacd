use ai_usage::json::JsonValue;
use ai_usage::opencode_database::{parse_opencode_database_rows, OpencodeDatabaseRow};
use ai_usage::session::{AiCodingAgent, DataQualityNoticeKind};
use ai_usage::session_files::{parse_session_file, session_file_from_text, CodexRecord, SessionFile};
use ai_usage::session_reading::{collect_parsed_usage, DatabaseRead, SessionFileRead};
use ai_usage::time::UtcInstant;
use chrono::{DateTime, Utc};

fn json_value(value: &serde_json::Value) -> JsonValue {
    match value {
        serde_json::Value::Null => JsonValue::Null,
        serde_json::Value::Bool(flag) => JsonValue::Bool(*flag),
        serde_json::Value::Number(number) => match number.as_u64() {
            Some(count) => JsonValue::Unsigned(count),
            None => JsonValue::OtherNumber,
        },
        serde_json::Value::String(text) => JsonValue::Text(text.clone()),
        serde_json::Value::Array(items) => JsonValue::Array(items.iter().map(json_value).collect()),
        serde_json::Value::Object(members) => JsonValue::Object(
            members
                .iter()
                .map(|(key, member)| (key.clone(), json_value(member)))
                .collect(),
        ),
    }
}

fn instant_of(time: DateTime<Utc>) -> UtcInstant {
    UtcInstant::from_timestamp(time.timestamp(), time.timestamp_subsec_nanos()).expect("representable instant")
}

fn codex_record(value: &serde_json::Value) -> Option<CodexRecord> {
    let members = value.as_object()?;
    let record_type = members.get("type")?.as_str()?.to_owned();
    let timestamp = match members.get("timestamp") {
        None | Some(serde_json::Value::Null) => None,
        Some(serde_json::Value::String(text)) => Some(instant_of(text.parse::<DateTime<Utc>>().ok()?)),
        Some(_) => return None,
    };
    let payload = members.get("payload").map(json_value).unwrap_or(JsonValue::Null);
    Some(CodexRecord { timestamp, record_type, payload })
}

fn session_file(path: &str, content: &str) -> SessionFile {
    let records = content
        .lines()
        .map(|line| serde_json::from_str::<serde_json::Value>(line).ok().as_ref().and_then(codex_record))
        .collect();
    session_file_from_text(path, None, content, records)
}

fn now() -> UtcInstant {
    instant_of(Utc::now())
}

fn parse_lines(path: &str, lines: &[&str]) -> ai_usage::session::ParsedUsage {
    let content = lines.join("\n") + "\n";
    let files = vec![SessionFileRead::Decoded(session_file(path, &content))];
    collect_parsed_usage(&files, &None, now()).expect("parsed usage")
}

#[test]
fn parses_valid_session_file_without_prompt_content() {
    let parsed_usage = parse_lines(
        "/tmp/session.jsonl",
        &[
            r#"{"timestamp":"2026-05-10T10:00:00Z","type":"session_meta","payload":{"timestamp":"2026-05-10T09:59:00Z","cwd":"/home/person/project","name":"Implement Session Name"}}"#,
            r#"{"timestamp":"2026-05-10T10:00:01Z","type":"turn_context","payload":{"model":"gpt-5.5","effort":"low","cwd":"/home/person/project"}}"#,
            r#"{"timestamp":"2026-05-10T10:00:02Z","type":"response_item","payload":{"type":"message","role":"user","content":[{"type":"input_text","text":"secret prompt"}]}}"#,
            r#"{"timestamp":"2026-05-10T10:00:03Z","type":"event_msg","payload":{"type":"token_count","info":{"total_token_usage":{"input_tokens":1000,"cached_input_tokens":250,"cache_creation_input_tokens":100,"output_tokens":300,"reasoning_output_tokens":20,"total_tokens":1300}}}}"#,
            r#"{"timestamp":"2026-05-10T10:00:04Z","type":"event_msg","payload":{"type":"task_complete"}}"#,
        ],
    );

    assert_eq!(parsed_usage.codex_sessions.len(), 1);
    let codex_session = &parsed_usage.codex_sessions[0];
    assert_eq!(codex_session.ai_coding_agent, AiCodingAgent::Codex);
    assert_eq!(codex_session.session_name.as_deref(), Some("Implement Session Name"));
    assert_eq!(codex_session.model, "gpt-5.5");
    assert_eq!(codex_session.reasoning_effort.as_deref(), Some("low"));
    assert_eq!(codex_session.compact_model_label(), "gpt-5.5 · low");
    assert_eq!(codex_session.project_name.as_deref(), Some("project"));
    assert!(!codex_session.is_active);
    assert_eq!(codex_session.token_totals.non_cached_input_tokens, Some(750));
    assert_eq!(codex_session.token_totals.cache_read_tokens, Some(250));
    assert_eq!(codex_session.token_totals.total_tokens, Some(1300));
    assert_eq!(
        codex_session.session_start_time,
        instant_of("2026-05-10T09:59:00Z".parse::<DateTime<Utc>>().unwrap())
    );
}

#[test]
fn final_token_snapshot_is_selected_instead_of_summing_cumulative_snapshots() {
    let parsed_usage = parse_lines(
        "/tmp/session.jsonl",
        &[
            r#"{"timestamp":"2026-05-10T10:00:00Z","type":"session_meta","payload":{"timestamp":"2026-05-10T10:00:00Z"}}"#,
            r#"{"timestamp":"2026-05-10T10:00:01Z","type":"turn_context","payload":{"model":"gpt-5.5"}}"#,
            r#"{"timestamp":"2026-05-10T10:00:02Z","type":"event_msg","payload":{"type":"token_count","info":{"total_token_usage":{"input_tokens":100,"output_tokens":20,"total_tokens":120}}}}"#,
            r#"{"timestamp":"2026-05-10T10:00:03Z","type":"event_msg","payload":{"type":"token_count","info":{"total_token_usage":{"input_tokens":150,"output_tokens":40,"total_tokens":190}}}}"#,
        ],
    );

    assert_eq!(parsed_usage.codex_sessions[0].token_totals.input_tokens, Some(150));
    assert_eq!(parsed_usage.codex_sessions[0].token_totals.output_tokens, Some(40));
    assert_eq!(parsed_usage.codex_sessions[0].token_totals.total_tokens, Some(190));
    assert!(parsed_usage.codex_sessions[0].is_active);
}

#[test]
fn parses_pi_session_file_by_summing_assistant_usage() {
    let parsed_usage = parse_lines(
        "/tmp/pi-session.jsonl",
        &[
            r#"{"type":"session","version":3,"id":"session-id","timestamp":"2026-05-10T09:59:00Z","cwd":"/home/person/project","name":"Pi Session Name"}"#,
            r#"{"type":"message","id":"first","parentId":null,"timestamp":"2026-05-10T10:00:00Z","message":{"role":"assistant","provider":"vendor","model":"sonnet-4-5","usage":{"input":1000,"output":300,"cacheRead":250,"cacheWrite":100,"totalTokens":1300,"cost":{"total":0.01}},"stopReason":"stop","content":[]}}"#,
            r#"{"type":"model_change","id":"model","parentId":"first","timestamp":"2026-05-10T10:01:00Z","provider":"vendor","modelId":"opus-4-5"}"#,
            r#"{"type":"thinking_level_change","id":"thinking","parentId":"model","timestamp":"2026-05-10T10:01:30Z","thinkingLevel":"high"}"#,
            r#"{"type":"message","id":"second","parentId":"thinking","timestamp":"2026-05-10T10:02:00Z","message":{"role":"assistant","provider":"vendor","model":"opus-4-5","usage":{"input":500,"output":200,"cacheRead":50,"cacheWrite":25,"totalTokens":700,"cost":{"total":0.02}},"stopReason":"stop","content":[]}}"#,
        ],
    );

    assert_eq!(parsed_usage.codex_sessions.len(), 1);
    let pi_session = &parsed_usage.codex_sessions[0];
    assert_eq!(pi_session.ai_coding_agent, AiCodingAgent::Pi);
    assert_eq!(pi_session.session_name.as_deref(), Some("Pi Session Name"));
    assert_eq!(pi_session.model, "opus-4-5");
    assert_eq!(pi_session.reasoning_effort.as_deref(), Some("high"));
    assert_eq!(pi_session.compact_model_label(), "opus-4-5 · high");
    assert_eq!(pi_session.project_name.as_deref(), Some("project"));
    assert_eq!(pi_session.token_totals.input_tokens, Some(1500));
    assert_eq!(pi_session.token_totals.output_tokens, Some(500));
    assert_eq!(pi_session.token_totals.cache_read_tokens, Some(300));
    assert_eq!(pi_session.token_totals.cache_write_tokens, Some(125));
    assert_eq!(pi_session.token_totals.non_cached_input_tokens, Some(1200));
    assert_eq!(pi_session.token_totals.total_tokens, Some(2000));
}

#[test]
fn parses_opencode_json_file_by_summing_assistant_usage() {
    let content = r#"{"id":"ses_123","time":{"created":"2026-05-10T09:59:00Z"},"cwd":"/home/person/project","title":"OpenCode Session Name","message":{"role":"assistant","modelID":"openai/gpt-5.5","reasoningEffort":"medium","usage":{"input":1000,"output":300,"cacheRead":250,"cacheWrite":100,"reasoning":20,"totalTokens":1300}}}"#;
    let files = vec![SessionFileRead::Decoded(session_file("/tmp/opencode-session.json", content))];
    let parsed_usage = collect_parsed_usage(&files, &None, now()).expect("parsed usage");

    assert_eq!(parsed_usage.codex_sessions.len(), 1);
    let opencode_session = &parsed_usage.codex_sessions[0];
    assert_eq!(opencode_session.ai_coding_agent, AiCodingAgent::Opencode);
    assert_eq!(opencode_session.session_name.as_deref(), Some("OpenCode Session Name"));
    assert_eq!(opencode_session.model, "openai/gpt-5.5");
    assert_eq!(opencode_session.reasoning_effort.as_deref(), Some("medium"));
    assert_eq!(opencode_session.project_name.as_deref(), Some("project"));
    assert_eq!(opencode_session.token_totals.input_tokens, Some(1000));
    assert_eq!(opencode_session.token_totals.output_tokens, Some(300));
    assert_eq!(opencode_session.token_totals.cache_read_tokens, Some(250));
    assert_eq!(opencode_session.token_totals.cache_write_tokens, Some(100));
    assert_eq!(opencode_session.token_totals.reasoning_output_tokens, Some(20));
    assert_eq!(opencode_session.token_totals.non_cached_input_tokens, Some(750));
    assert_eq!(opencode_session.token_totals.total_tokens, Some(1300));
}

fn database_row(
    session_identifier: &str,
    created: i64,
    updated: i64,
    directory: &str,
    title: &str,
    model: Option<&str>,
    message: &str,
) -> OpencodeDatabaseRow {
    OpencodeDatabaseRow {
        session_identifier: session_identifier.to_owned(),
        session_time_created: created,
        session_time_updated: updated,
        directory: directory.to_owned(),
        session_model: model.map(str::to_owned),
        session_name: title.to_owned(),
        message_data: message.to_owned(),
    }
}

#[test]
fn parses_opencode_database_by_summing_assistant_messages() {
    let model = r#"{"id":"gpt-5.5-fast","providerID":"openai","variant":"high"}"#;
    let rows = vec![
        database_row(
            "ses_123",
            1778389763116,
            1778393363116,
            "/home/person/project",
            "OpenCode Database Session",
            Some(model),
            r#"{"role":"user","model":{"providerID":"openai","modelID":"gpt-5.4-mini-fast"}}"#,
        ),
        database_row(
            "ses_123",
            1778389763116,
            1778393363116,
            "/home/person/project",
            "OpenCode Database Session",
            Some(model),
            r#"{"role":"assistant","modelID":"gpt-5.5-fast","tokens":{"total":14925,"input":14776,"output":16,"reasoning":133,"cache":{"write":10,"read":200}}}"#,
        ),
    ];
    let files: Vec<SessionFileRead> = Vec::new();
    let database = Some(("/tmp/opencode.db".to_owned(), DatabaseRead::Rows(rows)));
    let parsed_usage = collect_parsed_usage(&files, &database, now()).expect("parsed usage");

    assert_eq!(parsed_usage.codex_sessions.len(), 1);
    let opencode_session = &parsed_usage.codex_sessions[0];
    assert_eq!(opencode_session.ai_coding_agent, AiCodingAgent::Opencode);
    assert_eq!(opencode_session.session_name.as_deref(), Some("OpenCode Database Session"));
    assert_eq!(
        opencode_session.session_start_time,
        instant_of(DateTime::from_timestamp_millis(1778389763116).expect("session start time"))
    );
    assert_eq!(
        opencode_session.session_last_modified_time,
        DateTime::from_timestamp_millis(1778393363116).map(instant_of)
    );
    assert_eq!(opencode_session.model, "gpt-5.5-fast");
    assert_eq!(opencode_session.reasoning_effort.as_deref(), Some("high"));
    assert_eq!(opencode_session.compact_model_label(), "gpt-5.5-fast · high");
    assert_eq!(opencode_session.project_name.as_deref(), Some("project"));
    assert_eq!(opencode_session.token_totals.input_tokens, Some(14976));
    assert_eq!(opencode_session.token_totals.output_tokens, Some(16));
    assert_eq!(opencode_session.token_totals.reasoning_output_tokens, Some(133));
    assert_eq!(opencode_session.token_totals.cache_read_tokens, Some(200));
    assert_eq!(opencode_session.token_totals.cache_write_tokens, Some(10));
    assert_eq!(opencode_session.token_totals.non_cached_input_tokens, Some(14776));
    assert_eq!(opencode_session.token_totals.total_tokens, Some(14925));
}

#[test]
fn default_source_includes_opencode_database_next_to_codex_sessions() {
    let content = [
        r#"{"timestamp":"2026-05-10T10:00:00Z","type":"session_meta","payload":{"timestamp":"2026-05-10T10:00:00Z","cwd":"/home/person/codex-project"}}"#,
        r#"{"timestamp":"2026-05-10T10:00:01Z","type":"turn_context","payload":{"model":"gpt-5.5"}}"#,
        r#"{"timestamp":"2026-05-10T10:00:02Z","type":"event_msg","payload":{"type":"token_count","info":{"total_token_usage":{"input_tokens":10,"output_tokens":20,"total_tokens":30}}}}"#,
    ]
    .join("\n");
    let files = vec![SessionFileRead::Decoded(session_file("/home/codex-sessions/codex-session.jsonl", &content))];
    let rows = vec![database_row(
        "ses_123",
        1778389763116,
        1778393363116,
        "/home/person/opencode-project",
        "OpenCode Default Session",
        None,
        r#"{"role":"assistant","modelID":"gpt-5.4-mini-fast","tokens":{"total":14925,"input":14776,"output":16,"reasoning":133,"cache":{"write":10,"read":200}}}"#,
    )];
    let database = Some(("/home/opencode/opencode.db".to_owned(), DatabaseRead::Rows(rows)));
    let parsed_usage = collect_parsed_usage(&files, &database, now()).expect("parsed usage");

    assert_eq!(parsed_usage.codex_sessions.len(), 2);
    assert!(parsed_usage.codex_sessions.iter().any(|session| session.ai_coding_agent == AiCodingAgent::Codex));
    assert!(parsed_usage.codex_sessions.iter().any(|session| session.ai_coding_agent == AiCodingAgent::Opencode));
}

#[test]
fn parse_problem_and_missing_snapshot_create_notices_without_failing_run() {
    let parsed_usage = parse_lines(
        "/tmp/session.jsonl",
        &["not-json", r#"{"timestamp":"2026-05-10T10:00:00Z","type":"mystery","payload":{}}"#],
    );

    assert!(parsed_usage.codex_sessions.is_empty());
    assert_eq!(parsed_usage.data_quality_notices.len(), 3);
    assert_eq!(parsed_usage.data_quality_notices[0].kind, DataQualityNoticeKind::ParseProblem);
    assert_eq!(parsed_usage.data_quality_notices[1].kind, DataQualityNoticeKind::UnknownSourceFormat);
    assert_eq!(parsed_usage.data_quality_notices[2].kind, DataQualityNoticeKind::MissingTokenSnapshot);
    assert_eq!(parsed_usage.data_quality_notices[0].line_number, Some(1));
    assert_eq!(parsed_usage.data_quality_notices[1].line_number, Some(2));
    assert_eq!(parsed_usage.data_quality_notices[2].line_number, None);
    assert_eq!(parsed_usage.data_quality_notices[0].detail, "invalid JSONL record");
}

#[test]
fn unreadable_file_and_database_leave_parse_problem_notices() {
    let files = vec![SessionFileRead::Failed {
        source_path: "/tmp/broken.jsonl".to_owned(),
        error: "stream did not contain valid UTF-8".to_owned(),
    }];
    let database = Some(("/tmp/opencode.db".to_owned(), DatabaseRead::Failed("no such table: session".to_owned())));
    let parsed_usage = collect_parsed_usage(&files, &database, now()).expect("parsed usage");

    assert!(parsed_usage.codex_sessions.is_empty());
    assert_eq!(parsed_usage.data_quality_notices.len(), 2);
    assert_eq!(parsed_usage.data_quality_notices[0].source_path, "/tmp/broken.jsonl");
    assert_eq!(parsed_usage.data_quality_notices[0].detail, "stream did not contain valid UTF-8");
    assert_eq!(parsed_usage.data_quality_notices[1].source_path, "/tmp/opencode.db");
    assert_eq!(parsed_usage.data_quality_notices[1].kind, DataQualityNoticeKind::ParseProblem);
}

#[test]
fn token_counts_that_overflow_are_reported() {
    let parsed = parse_session_file(
        &session_file(
            "/tmp/huge.jsonl",
            &[
                r#"{"type":"session","timestamp":"2026-05-10T09:59:00Z"}"#,
                r#"{"type":"message","message":{"role":"assistant","usage":{"input":18446744073709551615,"output":1}}}"#,
            ]
            .join("\n"),
        ),
        now(),
    );
    assert!(parsed.is_err());
}

#[test]
fn pi_file_without_assistant_usage_has_missing_snapshot_notice() {
    let parsed = parse_session_file(
        &session_file("/tmp/pi.jsonl", r#"{"type":"session","timestamp":"2026-05-10T09:59:00Z","name":"  "}"#),
        now(),
    )
    .expect("parsed");
    assert!(parsed.0.is_none());
    assert_eq!(parsed.1.len(), 1);
    assert_eq!(parsed.1[0].kind, DataQualityNoticeKind::MissingTokenSnapshot);
    assert_eq!(parsed.1[0].detail, "no usable Token Snapshot found");
}

#[test]
fn database_sessions_without_total_tokens_are_dropped() {
    let rows = vec![
        database_row("ses_a", 1000, 2000, "/p/a", "A", None, r#"{"role":"assistant","tokens":{"input":5}}"#),
        database_row("ses_b", 3000, 4000, "/p/b", "", Some("plain-model"), r#"{"role":"assistant","usage":{"input":3,"output":4}}"#),
    ];
    let sessions = parse_opencode_database_rows(&rows, "/db/opencode.db", now()).expect("sessions");
    assert_eq!(sessions.len(), 1);
    assert_eq!(sessions[0].model, "plain-model");
    assert_eq!(sessions[0].session_name, None);
    assert_eq!(sessions[0].token_totals.total_tokens, Some(7));
    assert_eq!(sessions[0].project_name.as_deref(), Some("b"));
}

#[test]
fn recorded_session_names_are_trimmed() {
    let parsed_usage = parse_lines(
        "/tmp/named.jsonl",
        &[
            r#"{"type":"session_meta","payload":{"timestamp":"2026-05-10T09:59:00Z","session_name":"  Spaced Name  ","cwd":"/work/app"}}"#,
            r#"{"type":"event_msg","payload":{"type":"token_count","info":{"total_token_usage":{"input_tokens":1,"output_tokens":2}}}}"#,
        ],
    );
    let session = &parsed_usage.codex_sessions[0];
    assert_eq!(session.session_name.as_deref(), Some("Spaced Name"));
    assert_eq!(session.model, "unknown");
    assert_eq!(session.token_totals.total_tokens, Some(3));
    assert_eq!(session.project_path.as_deref(), Some("/work/app"));
    assert_eq!(session.project_name.as_deref(), Some("app"));
}

#[test]
fn opencode_lines_keep_line_notices_before_the_session() {
    let content = [
        r#"{"sessionID":"abc","time":{"created":"2026-05-10T09:00:00Z","updated":"2026-05-10T09:30:00Z"},"directory":"/w/site"}"#,
        "{broken",
        r#"{"author":{"role":"assistant"},"model":{"id":"gpt-5.4","thinkingLevel":"low"},"usage":{"inputTokens":7,"outputTokens":3,"input":7,"output":3}}"#,
    ]
    .join("\n");
    let (session, notices) = parse_session_file(&session_file("/tmp/oc.jsonl", &content), now()).expect("parsed");
    let session = session.expect("session");
    assert_eq!(session.ai_coding_agent, AiCodingAgent::Opencode);
    assert_eq!(session.model, "gpt-5.4");
    assert_eq!(session.reasoning_effort.as_deref(), Some("low"));
    assert_eq!(session.token_totals.total_tokens, Some(10));
    assert_eq!(session.project_name.as_deref(), Some("site"));
    assert_eq!(
        session.session_last_modified_time,
        Some(instant_of("2026-05-10T09:30:00Z".parse::<DateTime<Utc>>().unwrap()))
    );
    assert_eq!(notices.len(), 1);
    assert_eq!(notices[0].line_number, Some(2));
    assert_eq!(notices[0].detail, "invalid JSON record");
}

#[test]
fn unknown_codex_records_are_noticed_by_line() {
    let parsed_usage = parse_lines(
        "/tmp/codex.jsonl",
        &[
            r#"{"type":"turn_context","payload":{"model":"gpt-5.5","collaboration_mode":{"settings":{"reasoning_effort":"high"}}}}"#,
            r#"{"type":"surprise"}"#,
            r#"{"type":"event_msg","payload":{"type":"token_count","info":{"total_token_usage":{"input_tokens":4,"cache_read_tokens":9,"non_cached_input_tokens":4,"output_tokens":1,"total_tokens":5}}}}"#,
        ],
    );
    assert_eq!(parsed_usage.codex_sessions.len(), 1);
    assert_eq!(parsed_usage.codex_sessions[0].reasoning_effort.as_deref(), Some("high"));
    assert_eq!(parsed_usage.codex_sessions[0].token_totals.non_cached_input_tokens, Some(4));
    assert_eq!(parsed_usage.data_quality_notices.len(), 1);
    assert_eq!(parsed_usage.data_quality_notices[0].kind, DataQualityNoticeKind::UnknownSourceFormat);
    assert_eq!(parsed_usage.data_quality_notices[0].line_number, Some(2));
    assert_eq!(parsed_usage.data_quality_notices[0].detail, "unknown Codex record type");
}

#[test]
fn session_file_text_is_split_into_decoded_lines() {
    let file = session_file_from_text("/tmp/two.json", None, "{\"a\":1}\r\nnot json\n[2]\n", vec![None]);
    assert_eq!(file.lines.len(), 3);
    assert!(matches!(&file.lines[0].value, Some(JsonValue::Object(members)) if members.len() == 1 && members[0].0 == "a"));
    assert!(file.lines[1].value.is_none());
    assert!(matches!(&file.lines[2].value, Some(JsonValue::Array(items)) if matches!(items[0], JsonValue::Unsigned(2))));
    assert!(file.lines.iter().all(|line| line.record.is_none()));
    assert!(file.whole_value.is_none());
    let whole = session_file_from_text("/tmp/one.json", None, "{\"n\":-3}", Vec::new());
    assert!(matches!(&whole.whole_value, Some(JsonValue::Object(members)) if matches!(members[0].1, JsonValue::OtherNumber)));
}

#[test]
fn names_are_trimmed_of_unicode_white_space() {
    use_trim_cases();
}

fn use_trim_cases() {
    assert_eq!(ai_usage::session_files::non_empty_string("\u{3000} Name \t\n"), Some("Name".to_owned()));
    assert_eq!(ai_usage::session_files::non_empty_string("\u{a0}\u{2028}"), None);
    assert_eq!(ai_usage::session_files::non_empty_string("x"), Some("x".to_owned()));
    assert_eq!(ai_usage::text::trim_text("  a b  "), "a b");
    assert_eq!(ai_usage::text::trim_text(""), "");
}
