use ai_usage::session_reading::{default_session_file_paths, opencode_database_location, opencode_database_path, session_file_paths};
use ai_usage::usage_source::{
    artifact_shape, build_usage_source_inventory, default_codex_sessions_directory, default_opencode_sessions_directory,
    default_pi_sessions_directory, is_usage_file_path, usage_source_root_plan, CurrentSourceState, RootListing,
    SourceEnvironment, UsageSourceArtifactShape, UsageSourceRootKind,
};

fn directory(files: &[&str]) -> RootListing {
    RootListing { is_readable: true, is_file: false, file_paths: files.iter().map(|file| file.to_string()).collect() }
}

fn unreadable() -> RootListing {
    RootListing { is_readable: false, is_file: false, file_paths: Vec::new() }
}

#[test]
fn custom_usage_source_replaces_default_discovery() {
    let environment = SourceEnvironment { home: Some("/home/person".to_owned()), ..SourceEnvironment::default() };
    let inventory = build_usage_source_inventory(
        Some("/tmp/custom".to_owned()),
        &environment,
        &vec![directory(&["/tmp/custom/session.jsonl"])],
    );

    assert_eq!(inventory.artifacts.len(), 1);
    assert_eq!(inventory.current_source_state.path(), "/tmp/custom");
    assert!(inventory.current_source_state.is_readable());
    assert!(inventory.current_source_state.is_custom());
    assert_eq!(inventory.artifacts[0].root_kind, UsageSourceRootKind::CustomUsageSource);
    assert_eq!(inventory.roots.len(), 1);
}

#[test]
fn missing_custom_usage_source_is_distinct_from_readable_source() {
    let inventory = build_usage_source_inventory(
        Some("/tmp/missing".to_owned()),
        &SourceEnvironment::default(),
        &vec![unreadable()],
    );

    assert_eq!(
        inventory.current_source_state,
        CurrentSourceState::Missing { path: "/tmp/missing".to_owned(), is_custom: true }
    );
    assert!(inventory.artifacts.is_empty());
}

#[test]
fn default_inventory_includes_all_readable_local_agent_artifacts() {
    let environment = SourceEnvironment {
        codex_home: Some("/t/codex-home".to_owned()),
        pi_home: Some("/t/pi-home".to_owned()),
        opencode_home: Some("/t/opencode-home".to_owned()),
        ..SourceEnvironment::default()
    };
    let plan = usage_source_root_plan(&None, &environment);
    assert_eq!(plan[0].0, "/t/codex-home/sessions");
    assert_eq!(plan[1].0, "/t/pi-home/agent/sessions");
    assert_eq!(plan[2].0, "/t/opencode-home");
    let listings = vec![
        directory(&["/t/codex-home/sessions/codex.jsonl"]),
        directory(&["/t/pi-home/agent/sessions/pi.jsonl"]),
        directory(&["/t/opencode-home/opencode.db", "/t/opencode-home/notes.txt"]),
    ];

    let inventory = build_usage_source_inventory(None, &environment, &listings);

    assert!(inventory.current_source_state.is_readable());
    assert_eq!(inventory.artifacts.len(), 3);
    assert!(inventory.artifacts.iter().any(|artifact| artifact.root_kind == UsageSourceRootKind::CodexSessionsDirectory));
    assert!(inventory.artifacts.iter().any(|artifact| artifact.root_kind == UsageSourceRootKind::PiSessionsDirectory));
    assert!(inventory.artifacts.iter().any(|artifact| artifact.root_kind == UsageSourceRootKind::OpenCodeDataDirectory));
    assert_eq!(inventory.current_source_state.path(), "/t/codex-home/sessions");
}

#[test]
fn default_inventory_keeps_each_path_once_in_path_order() {
    let environment = SourceEnvironment {
        codex_home: Some("/same".to_owned()),
        pi_home: Some("/other".to_owned()),
        opencode_home: Some("/same/sessions".to_owned()),
        ..SourceEnvironment::default()
    };
    let listings = vec![
        directory(&["/same/sessions/b.jsonl", "/same/sessions/a-b.jsonl", "/same/sessions/a/b.jsonl"]),
        unreadable(),
        directory(&["/same/sessions/b.jsonl"]),
    ];
    let inventory = build_usage_source_inventory(None, &environment, &listings);
    let paths: Vec<&str> = inventory.artifacts.iter().map(|artifact| artifact.path.as_str()).collect();
    assert_eq!(paths, vec!["/same/sessions/a/b.jsonl", "/same/sessions/a-b.jsonl", "/same/sessions/b.jsonl"]);
    assert!(inventory.artifacts.iter().all(|artifact| artifact.root_kind == UsageSourceRootKind::CodexSessionsDirectory));
}

#[test]
fn empty_default_inventory_is_missing_at_the_codex_directory() {
    let environment = SourceEnvironment { home: Some("/home/person".to_owned()), ..SourceEnvironment::default() };
    let inventory = build_usage_source_inventory(None, &environment, &vec![unreadable(), unreadable(), unreadable()]);
    assert_eq!(
        inventory.current_source_state,
        CurrentSourceState::Missing { path: "/home/person/.codex/sessions".to_owned(), is_custom: false }
    );
    assert_eq!(inventory.roots.len(), 3);
}

#[test]
fn default_directories_follow_the_environment() {
    let with_home = SourceEnvironment { home: Some("/home/person".to_owned()), ..SourceEnvironment::default() };
    assert_eq!(default_codex_sessions_directory(&with_home), "/home/person/.codex/sessions");
    assert_eq!(default_pi_sessions_directory(&with_home), "/home/person/.pi/agent/sessions");
    assert_eq!(default_opencode_sessions_directory(&with_home), "/home/person/.local/share/opencode");
    let with_xdg = SourceEnvironment { xdg_data_home: Some("/data".to_owned()), ..with_home.clone() };
    assert_eq!(default_opencode_sessions_directory(&with_xdg), "/data/opencode");
    let bare = SourceEnvironment::default();
    assert_eq!(default_codex_sessions_directory(&bare), ".codex/sessions");
    assert_eq!(default_pi_sessions_directory(&bare), ".pi/agent/sessions");
    assert_eq!(default_opencode_sessions_directory(&bare), ".local/share/opencode");
}

#[test]
fn artifact_shapes_follow_names_and_directories() {
    assert_eq!(artifact_shape("/x/opencode.db"), Some(UsageSourceArtifactShape::OpenCodeDatabase));
    assert_eq!(artifact_shape("/x/a.jsonl"), Some(UsageSourceArtifactShape::JsonLinesSessionFile));
    assert_eq!(artifact_shape("/x/session/a.json"), Some(UsageSourceArtifactShape::JsonSessionFile));
    assert_eq!(artifact_shape("/x/a.json"), None);
    assert!(is_usage_file_path("/x/message/m.json"));
    assert!(!is_usage_file_path("/x/notes.json"));
    assert!(!is_usage_file_path("/x/opencode.db"));
}

#[test]
fn custom_json_file_is_its_own_artifact() {
    let listing = RootListing { is_readable: true, is_file: true, file_paths: Vec::new() };
    let inventory = build_usage_source_inventory(Some("/tmp/export.json".to_owned()), &SourceEnvironment::default(), &vec![listing]);
    assert_eq!(inventory.artifacts.len(), 1);
    assert_eq!(inventory.artifacts[0].shape, UsageSourceArtifactShape::JsonSessionFile);
    assert!(inventory.artifacts[0].is_custom);
}

#[test]
fn session_files_are_listed_in_path_order() {
    let listing = directory(&["/s/b.jsonl", "/s/notes.txt", "/s/a.jsonl"]);
    assert_eq!(session_file_paths("/s", &listing), vec!["/s/a.jsonl".to_owned(), "/s/b.jsonl".to_owned()]);
    let file = RootListing { is_readable: true, is_file: true, file_paths: Vec::new() };
    assert_eq!(session_file_paths("/s/one.jsonl", &file), vec!["/s/one.jsonl".to_owned()]);
    let merged = default_session_file_paths(
        "/codex",
        &directory(&["/codex/z.jsonl"]),
        "/pi",
        &Some(directory(&["/pi/a.jsonl"])),
        "/codex",
        &Some(directory(&["/codex/z.jsonl"])),
    );
    assert_eq!(merged, vec!["/codex/z.jsonl".to_owned(), "/pi/a.jsonl".to_owned()]);
}

#[test]
fn opencode_database_is_found_by_name_or_inside_a_directory() {
    assert_eq!(opencode_database_path("/data/opencode.db"), "/data/opencode.db");
    assert_eq!(opencode_database_path("/data/opencode"), "/data/opencode/opencode.db");
    let environment = SourceEnvironment { opencode_home: Some("/oc".to_owned()), ..SourceEnvironment::default() };
    let default_state = CurrentSourceState::Readable { path: "/codex".to_owned(), is_custom: false };
    assert_eq!(opencode_database_location(&default_state, &environment, true), Some("/oc/opencode.db".to_owned()));
    let custom_directory = CurrentSourceState::Readable { path: "/mine".to_owned(), is_custom: true };
    assert_eq!(opencode_database_location(&custom_directory, &environment, true), Some("/mine/opencode.db".to_owned()));
    assert_eq!(opencode_database_location(&custom_directory, &environment, false), None);
    let missing = CurrentSourceState::Missing { path: "/mine".to_owned(), is_custom: true };
    assert_eq!(opencode_database_location(&missing, &environment, true), None);
}
