//! Which files of a Usage Source are read, and how their parsed sessions and notices are
//! gathered into Parsed Usage.

use vstd::prelude::*;
use crate::json::option_text_view;
use crate::opencode_database::{database_sessions, parse_opencode_database_rows, sessions_facts, OpencodeDatabaseRow};
use crate::paths::{
    path_file_name, path_joined, path_sort_order, path_insertion_order, path_texts, paths_equal,
    std_path_file_name, std_path_joined, std_paths_equal,
};
use crate::session::{notice, DataQualityNoticeKind, ParsedUsage};
use crate::session_files::{
    is_text, notices_facts, notice_facts, parse_session_file, session_facts, session_file_outcome, FileOutcome,
    NoticeFacts, SessionFacts, SessionFile,
};
use crate::time::UtcInstant;
use crate::token_usage::TokenCountOverflow;
use crate::usage_source::{
    default_opencode_sessions_directory, is_usage_file_path, opencode_data_directory, source_state_custom,
    source_state_path, source_state_readable, usage_file_path, CurrentSourceState, RootListing, SourceEnvironment,
};

verus! {

/// The OpenCode database of a path: the path itself when its file name is `opencode.db`,
/// else `opencode.db` inside it.
pub open spec fn database_path_of(path: Seq<char>) -> Seq<char> {
    if std_path_file_name(path) == Some("opencode.db"@) {
        path
    } else {
        std_path_joined(path, "opencode.db"@)
    }
}

/// The OpenCode database of a path.
pub fn opencode_database_path(path: &str) -> (result: String)
    ensures
        result@ == database_path_of(path@),
{
    if is_text(&path_file_name(path), "opencode.db") {
        String::from_str(path)
    } else {
        path_joined(path, "opencode.db")
    }
}

/// Paths in `Path` order, as a stable sort gives them.
pub open spec fn sorted_paths(paths: Seq<Seq<char>>) -> Seq<Seq<char>> {
    path_insertion_order(paths, paths.len() as int).map_values(|index: usize| paths[index as int])
}

/// Sorts paths in `Path` order.
fn sort_paths(paths: &Vec<String>) -> (result: Vec<String>)
    ensures
        path_texts(result@) == sorted_paths(path_texts(paths@)),
{
    let order = path_sort_order(paths);
    let ghost texts = path_texts(paths@);
    let ghost expected = order@.map_values(|index: usize| texts[index as int]);
    let mut result: Vec<String> = Vec::new();
    let mut position: usize = 0;
    while position < order.len()
        invariant
            position <= order.len(),
            order.len() == paths.len(),
            texts == path_texts(paths@),
            expected == order@.map_values(|index: usize| texts[index as int]),
            forall|place: int| 0 <= place < order.len() ==> #[trigger] order@[place] < paths.len(),
            path_texts(result@) =~= expected.take(position as int),
        decreases order.len() - position,
    {
        let ghost before = result@;
        let path = paths[order[position]].clone();
        result.push(path);
        proof {
            assert(path_texts(result@) =~= path_texts(before).push(path@));
        }
        position = position + 1;
    }
    proof {
        assert(expected.take(order@.len() as int) =~= expected);
    }
    result
}

/// The session files among the first `count` listed files.
pub open spec fn usage_files_of(files: Seq<String>, count: int) -> Seq<Seq<char>>
    decreases count,
{
    if count <= 0 {
        Seq::empty()
    } else {
        let before = usage_files_of(files, count - 1);
        if usage_file_path(files[count - 1]@) {
            before.push(files[count - 1]@)
        } else {
            before
        }
    }
}

/// The session files of a path: the path itself when it is a file; else the session files
/// under it, in `Path` order.
pub open spec fn session_paths_of(path: Seq<char>, listing: RootListing) -> Seq<Seq<char>> {
    if listing.is_file {
        seq![path]
    } else {
        sorted_paths(usage_files_of(listing.file_paths@, listing.file_paths@.len() as int))
    }
}

/// The session files of a path.
pub fn session_file_paths(path: &str, listing: &RootListing) -> (result: Vec<String>)
    ensures
        path_texts(result@) == session_paths_of(path@, *listing),
{
    if listing.is_file {
        let mut single: Vec<String> = Vec::new();
        single.push(String::from_str(path));
        proof {
            assert(path_texts(single@) =~= seq![path@]);
        }
        return single;
    }
    let mut files: Vec<String> = Vec::new();
    let mut index: usize = 0;
    while index < listing.file_paths.len()
        invariant
            index <= listing.file_paths.len(),
            path_texts(files@) =~= usage_files_of(listing.file_paths@, index as int),
        decreases listing.file_paths.len() - index,
    {
        if is_usage_file_path(listing.file_paths[index].as_str()) {
            let ghost before = files@;
            let file = listing.file_paths[index].clone();
            files.push(file);
            proof {
                assert(path_texts(files@) =~= path_texts(before).push(file@));
            }
        }
        index = index + 1;
    }
    sort_paths(&files)
}

/// The session files of a further default directory, when it differs from the source path
/// and a listing of it exists.
pub open spec fn further_paths(source_path: Seq<char>, directory: Seq<char>, listing: Option<RootListing>) -> Seq<
    Seq<char>,
> {
    match listing {
        Some(found) => if !std_paths_equal(directory, source_path) {
            session_paths_of(directory, found)
        } else {
            Seq::empty()
        },
        None => Seq::empty(),
    }
}

/// The session files of the default source: those of the source path, then those of the
/// default Pi and OpenCode directories where they differ from it and exist, all in `Path`
/// order.
pub open spec fn default_session_paths_of(
    path: Seq<char>,
    listing: RootListing,
    pi_directory: Seq<char>,
    pi_listing: Option<RootListing>,
    opencode_directory: Seq<char>,
    opencode_listing: Option<RootListing>,
) -> Seq<Seq<char>> {
    sorted_paths(
        session_paths_of(path, listing) + further_paths(path, pi_directory, pi_listing) + further_paths(
            path,
            opencode_directory,
            opencode_listing,
        ),
    )
}

/// Appends the session files of a further default directory.
fn add_further_paths(files: &mut Vec<String>, source_path: &str, directory: &str, listing: &Option<RootListing>)
    ensures
        path_texts(final(files)@) == path_texts(old(files)@) + further_paths(source_path@, directory@, *listing),
{
    match listing {
        Some(found) => {
            if !paths_equal(directory, source_path) {
                let ghost before = files@;
                let mut more = session_file_paths(directory, found);
                let ghost added = more@;
                files.append(&mut more);
                proof {
                    assert(path_texts(files@) =~= path_texts(before) + path_texts(added));
                }
            } else {
                proof {
                    assert(path_texts(files@) =~= path_texts(files@) + Seq::<Seq<char>>::empty());
                }
            }
        },
        None => {
            proof {
                assert(path_texts(files@) =~= path_texts(files@) + Seq::<Seq<char>>::empty());
            }
        },
    }
}

/// The session files of the default source.
pub fn default_session_file_paths(
    path: &str,
    listing: &RootListing,
    pi_directory: &str,
    pi_listing: &Option<RootListing>,
    opencode_directory: &str,
    opencode_listing: &Option<RootListing>,
) -> (result: Vec<String>)
    ensures
        path_texts(result@) == default_session_paths_of(
            path@,
            *listing,
            pi_directory@,
            *pi_listing,
            opencode_directory@,
            *opencode_listing,
        ),
{
    let mut files = session_file_paths(path, listing);
    add_further_paths(&mut files, path, pi_directory, pi_listing);
    add_further_paths(&mut files, path, opencode_directory, opencode_listing);
    sort_paths(&files)
}

/// Where the OpenCode database of a readable source state is looked for: for the default
/// source, in the default OpenCode data directory; for a Custom Usage Source that is a
/// directory, in it; `None` for a Custom Usage Source that is a file, or a missing source.
pub open spec fn database_location_of(
    state: CurrentSourceState,
    environment: SourceEnvironment,
    path_is_directory: bool,
) -> Option<Seq<char>> {
    if !source_state_readable(state) {
        None
    } else if !source_state_custom(state) {
        Some(database_path_of(opencode_data_directory(environment)))
    } else if path_is_directory {
        Some(database_path_of(source_state_path(state)))
    } else {
        None
    }
}

/// Where the OpenCode database of a source state is looked for.
pub fn opencode_database_location(
    state: &CurrentSourceState,
    environment: &SourceEnvironment,
    path_is_directory: bool,
) -> (result: Option<String>)
    ensures
        option_text_view(result) == database_location_of(*state, *environment, path_is_directory),
{
    if !state.is_readable() {
        None
    } else if !state.is_custom() {
        let directory = default_opencode_sessions_directory(environment);
        Some(opencode_database_path(directory.as_str()))
    } else if path_is_directory {
        Some(opencode_database_path(state.path().as_str()))
    } else {
        None
    }
}

/// One session file as it was read: decoded, or the error that reading it gave.
#[derive(Debug)]
pub enum SessionFileRead {
    /// The file was read and decoded.
    Decoded(SessionFile),
    /// The file could not be read.
    Failed {
        /// The file's path.
        source_path: String,
        /// What reading it reported.
        error: String,
    },
}

/// An OpenCode database as it was read: its rows, or the error that reading it gave.
#[derive(Debug)]
pub enum DatabaseRead {
    /// The rows of sessions joined with their messages.
    Rows(Vec<OpencodeDatabaseRow>),
    /// What reading the database reported.
    Failed(String),
}

/// Sessions and notices, as values.
pub type UsageFacts = (Seq<SessionFacts>, Seq<NoticeFacts>);

/// What one file adds: its session, when it has one, and its notices; for a file that could
/// not be read, a Parse Problem notice with the error. `None` where a token count overflows.
pub open spec fn file_contribution(read: SessionFileRead, now: UtcInstant) -> Option<UsageFacts> {
    match read {
        SessionFileRead::Decoded(file) => match session_file_outcome(file, now) {
            FileOutcome::Parsed(session, notices) => Some(
                (
                    match session {
                        Some(found) => seq![found],
                        None => Seq::empty(),
                    },
                    notices,
                ),
            ),
            FileOutcome::NotThisAgent => Some((Seq::empty(), Seq::empty())),
            FileOutcome::Overflow => None,
        },
        SessionFileRead::Failed { source_path, error } => Some(
            (Seq::empty(), seq![(source_path@, None, DataQualityNoticeKind::ParseProblem, error@)]),
        ),
    }
}

/// What the first `count` files add, one after another.
pub open spec fn files_contribution(files: Seq<SessionFileRead>, count: int, now: UtcInstant) -> Option<UsageFacts>
    decreases count,
{
    if count <= 0 {
        Some((Seq::empty(), Seq::empty()))
    } else {
        match files_contribution(files, count - 1, now) {
            Some((sessions, notices)) => match file_contribution(files[count - 1], now) {
                Some((more_sessions, more_notices)) => Some((sessions + more_sessions, notices + more_notices)),
                None => None,
            },
            None => None,
        }
    }
}

/// Parsed Usage from the files and the OpenCode database: the files' sessions and notices
/// in file order, then the database's sessions, or a Parse Problem notice where it could not
/// be read. `None` where a token count overflows.
pub open spec fn parsed_usage_of(
    files: Seq<SessionFileRead>,
    database: Option<(String, DatabaseRead)>,
    now: UtcInstant,
) -> Option<UsageFacts> {
    match files_contribution(files, files.len() as int, now) {
        Some((sessions, notices)) => match database {
            None => Some((sessions, notices)),
            Some((path, DatabaseRead::Rows(rows))) => match database_sessions(rows@, path@, now) {
                Some(more) => Some((sessions + more, notices)),
                None => None,
            },
            Some((path, DatabaseRead::Failed(error))) => Some(
                (sessions, notices.push((path@, None, DataQualityNoticeKind::ParseProblem, error@))),
            ),
        },
        None => None,
    }
}

/// The values of Parsed Usage.
pub open spec fn parsed_usage_facts(usage: ParsedUsage) -> UsageFacts {
    (sessions_facts(usage.codex_sessions@), notices_facts(usage.data_quality_notices@))
}

/// Adds what one file gives to Parsed Usage.
fn add_file(usage: &mut ParsedUsage, read: &SessionFileRead, now: UtcInstant) -> (result: Result<(), TokenCountOverflow>)
    ensures
        match file_contribution(*read, now) {
            Some((sessions, notices)) => result is Ok && parsed_usage_facts(*final(usage)) == (
                parsed_usage_facts(*old(usage)).0 + sessions,
                parsed_usage_facts(*old(usage)).1 + notices,
            ),
            None => result is Err,
        },
{
    let ghost before = parsed_usage_facts(*usage);
    match read {
        SessionFileRead::Decoded(file) => match parse_session_file(file, now) {
            Err(overflow) => Err(overflow),
            Ok((session, notices)) => {
                let ghost found = session;
                let ghost notes = notices@;
                match session {
                    Some(parsed) => {
                        usage.codex_sessions.push(parsed);
                    },
                    None => {},
                }
                let mut more = notices;
                usage.data_quality_notices.append(&mut more);
                proof {
                    match found {
                        Some(parsed) => {
                            assert(sessions_facts(usage.codex_sessions@) =~= before.0 + seq![session_facts(parsed)]);
                        },
                        None => {
                            assert(sessions_facts(usage.codex_sessions@) =~= before.0 + Seq::<SessionFacts>::empty());
                        },
                    }
                    assert(notices_facts(usage.data_quality_notices@) =~= before.1 + notices_facts(notes));
                }
                Ok(())
            },
        },
        SessionFileRead::Failed { source_path, error } => {
            let item = notice(source_path.as_str(), None, DataQualityNoticeKind::ParseProblem, error.as_str());
            usage.data_quality_notices.push(item);
            proof {
                assert(sessions_facts(usage.codex_sessions@) =~= before.0 + Seq::<SessionFacts>::empty());
                assert(notices_facts(usage.data_quality_notices@) =~= before.1 + seq![notice_facts(item)]);
            }
            Ok(())
        },
    }
}

/// Once a token count has overflowed, it stays so for every longer prefix.
proof fn lemma_files_overflow_stays(files: Seq<SessionFileRead>, now: UtcInstant, from: int, to: int)
    requires
        0 <= from <= to,
        files_contribution(files, from, now) is None,
    ensures
        files_contribution(files, to, now) is None,
    decreases to - from,
{
    if from < to {
        lemma_files_overflow_stays(files, now, from, to - 1);
    }
}

/// Gathers Parsed Usage from the session files, in order, and then the OpenCode database;
/// an error where a token count does not fit in `u64`.
pub fn collect_parsed_usage(
    files: &Vec<SessionFileRead>,
    database: &Option<(String, DatabaseRead)>,
    now: UtcInstant,
) -> (result: Result<ParsedUsage, TokenCountOverflow>)
    ensures
        match parsed_usage_of(files@, *database, now) {
            Some(facts) => result is Ok && parsed_usage_facts(result->Ok_0) == facts,
            None => result is Err,
        },
{
    let mut usage = ParsedUsage { codex_sessions: Vec::new(), data_quality_notices: Vec::new() };
    proof {
        assert(sessions_facts(usage.codex_sessions@) =~= Seq::<SessionFacts>::empty());
        assert(notices_facts(usage.data_quality_notices@) =~= Seq::<NoticeFacts>::empty());
    }
    let mut index: usize = 0;
    while index < files.len()
        invariant
            index <= files.len(),
            files_contribution(files@, index as int, now) == Some(parsed_usage_facts(usage)),
        decreases files.len() - index,
    {
        let ghost before = parsed_usage_facts(usage);
        if add_file(&mut usage, &files[index], now).is_err() {
            proof {
                lemma_files_overflow_stays(files@, now, index as int + 1, files@.len() as int);
            }
            return Err(TokenCountOverflow);
        }
        proof {
            let (more_sessions, more_notices) = file_contribution(files@[index as int], now).unwrap();
            assert(parsed_usage_facts(usage) == (before.0 + more_sessions, before.1 + more_notices));
        }
        index = index + 1;
    }
    match database {
        None => Ok(usage),
        Some((path, DatabaseRead::Rows(rows))) => match parse_opencode_database_rows(rows, path.as_str(), now) {
            Err(overflow) => Err(overflow),
            Ok(sessions) => {
                let ghost before = parsed_usage_facts(usage);
                let ghost added = sessions@;
                let mut more = sessions;
                usage.codex_sessions.append(&mut more);
                proof {
                    assert(sessions_facts(usage.codex_sessions@) =~= before.0 + sessions_facts(added));
                }
                Ok(usage)
            },
        },
        Some((path, DatabaseRead::Failed(error))) => {
            let ghost before = parsed_usage_facts(usage);
            let item = notice(path.as_str(), None, DataQualityNoticeKind::ParseProblem, error.as_str());
            usage.data_quality_notices.push(item);
            proof {
                assert(notices_facts(usage.data_quality_notices@) =~= before.1.push(notice_facts(item)));
            }
            Ok(usage)
        },
    }
}

} // verus!
