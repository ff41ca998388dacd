//! Usage Source Inventory decisions for local AI Coding Agent artifacts.

use vstd::prelude::*;
use crate::json::option_text_view;
use crate::paths::{
    lemma_insertion_order_indices, path_components, path_insertion_order, path_texts, path_extension, path_file_name, path_joined, path_sort_order, paths_equal,
    std_path_components, std_path_extension, std_path_file_name, std_path_joined, std_paths_equal,
};
use crate::text::{owned, text_equals};

verus! {

/// Current Source State projection used by Derived Summary and outputs.
#[derive(Clone, Debug, PartialEq, Eq)]
pub enum CurrentSourceState {
    /// A readable Custom Usage Source or default local usage artifact was discovered.
    Readable {
        /// Representative Usage Source path for this run.
        path: String,
        /// Whether the path came from `--usage-source`.
        is_custom: bool,
    },
    /// No readable local usage artifacts were discovered.
    Missing {
        /// Representative Usage Source path attempted for this run.
        path: String,
        /// Whether the path came from `--usage-source`.
        is_custom: bool,
    },
}

/// The representative path of a source state.
pub open spec fn source_state_path(state: CurrentSourceState) -> Seq<char> {
    match state {
        CurrentSourceState::Readable { path, .. } => path@,
        CurrentSourceState::Missing { path, .. } => path@,
    }
}

/// Whether a source state is readable.
pub open spec fn source_state_readable(state: CurrentSourceState) -> bool {
    state is Readable
}

/// Whether a source state came from a Custom Usage Source.
pub open spec fn source_state_custom(state: CurrentSourceState) -> bool {
    match state {
        CurrentSourceState::Readable { is_custom, .. } => is_custom,
        CurrentSourceState::Missing { is_custom, .. } => is_custom,
    }
}

impl CurrentSourceState {
    /// Returns the representative Usage Source path regardless of readability.
    pub fn path(&self) -> (result: &String)
        ensures
            result@ == source_state_path(*self),
    {
        match self {
            CurrentSourceState::Readable { path, .. } => path,
            CurrentSourceState::Missing { path, .. } => path,
        }
    }

    /// Returns true when the run has a readable source state.
    pub fn is_readable(&self) -> (result: bool)
        ensures
            result == source_state_readable(*self),
    {
        match self {
            CurrentSourceState::Readable { .. } => true,
            CurrentSourceState::Missing { .. } => false,
        }
    }

    /// Returns true when the state came from a Custom Usage Source.
    pub fn is_custom(&self) -> (result: bool)
        ensures
            result == source_state_custom(*self),
    {
        match self {
            CurrentSourceState::Readable { is_custom, .. } => *is_custom,
            CurrentSourceState::Missing { is_custom, .. } => *is_custom,
        }
    }

    /// Copies the state.
    pub fn duplicate(&self) -> (result: CurrentSourceState)
        ensures
            result == *self,
    {
        match self {
            CurrentSourceState::Readable { path, is_custom } => CurrentSourceState::Readable {
                path: path.clone(),
                is_custom: *is_custom,
            },
            CurrentSourceState::Missing { path, is_custom } => CurrentSourceState::Missing {
                path: path.clone(),
                is_custom: *is_custom,
            },
        }
    }
}

/// Usage Source Inventory for one AI Usage run.
#[derive(Clone, Debug, PartialEq, Eq)]
pub struct UsageSourceInventory {
    /// Current Source State projection for reporting and output modules.
    pub current_source_state: CurrentSourceState,
    /// Roots attempted while building the inventory.
    pub roots: Vec<UsageSourceRoot>,
    /// Readable local artifacts discovered under the roots.
    pub artifacts: Vec<UsageSourceArtifact>,
}

/// A root path considered while building a Usage Source Inventory.
#[derive(Clone, Debug, PartialEq, Eq)]
pub struct UsageSourceRoot {
    /// Local root path considered for discovery.
    pub path: String,
    /// Domain origin of the root.
    pub kind: UsageSourceRootKind,
    /// Whether the root is a readable file or directory.
    pub is_readable: bool,
}

/// Domain origin of a Usage Source Inventory root.
#[derive(Clone, Copy, Debug, PartialEq, Eq, Structural)]
pub enum UsageSourceRootKind {
    /// Default Codex Sessions Directory.
    CodexSessionsDirectory,
    /// Default Pi sessions directory.
    PiSessionsDirectory,
    /// Default OpenCode data directory.
    OpenCodeDataDirectory,
    /// Custom Usage Source root for this run.
    CustomUsageSource,
}

/// A readable local artifact discovered in a Usage Source Inventory.
#[derive(Clone, Debug, PartialEq, Eq)]
pub struct UsageSourceArtifact {
    /// Local artifact path.
    pub path: String,
    /// Filesystem shape of the artifact.
    pub shape: UsageSourceArtifactShape,
    /// Root kind where the artifact was discovered.
    pub root_kind: UsageSourceRootKind,
    /// Root path where the artifact was discovered.
    pub root_path: String,
    /// Whether the artifact came from a Custom Usage Source.
    pub is_custom: bool,
}

/// Filesystem shape of a Usage Source artifact.
#[derive(Clone, Copy, Debug, PartialEq, Eq, Structural)]
pub enum UsageSourceArtifactShape {
    /// A line-delimited JSON session-like file.
    JsonLinesSessionFile,
    /// A JSON session or message file.
    JsonSessionFile,
    /// An OpenCode SQLite database file.
    OpenCodeDatabase,
}

/// The environment variables that locate the default data directories, each when set.
#[derive(Clone, Debug, Default)]
pub struct SourceEnvironment {
    /// `CODEX_HOME`.
    pub codex_home: Option<String>,
    /// `PI_HOME`.
    pub pi_home: Option<String>,
    /// `OPENCODE_HOME`.
    pub opencode_home: Option<String>,
    /// `XDG_DATA_HOME`.
    pub xdg_data_home: Option<String>,
    /// `HOME`.
    pub home: Option<String>,
}

/// What a look at a root found on disk.
#[derive(Clone, Debug)]
pub struct RootListing {
    /// Whether the root is a readable file or directory.
    pub is_readable: bool,
    /// Whether the root is a file.
    pub is_file: bool,
    /// The files under a directory root, as a directory walk lists them.
    pub file_paths: Vec<String>,
}

/// `base` joined with `part`, or `fallback` joined with `part` when there is no base.
pub open spec fn home_based(base: Option<String>, part: Seq<char>) -> Option<Seq<char>> {
    match base {
        Some(directory) => Some(std_path_joined(directory@, part)),
        None => None,
    }
}

/// The first path that is present, else the fallback.
pub open spec fn first_path(first: Option<Seq<char>>, second: Option<Seq<char>>, fallback: Seq<char>) -> Seq<char> {
    match first {
        Some(path) => path,
        None => match second {
            Some(path) => path,
            None => fallback,
        },
    }
}

/// The default Codex Sessions Directory: `sessions` under `CODEX_HOME`, else under
/// `$HOME/.codex`, else under `.codex`.
pub open spec fn codex_sessions_directory(environment: SourceEnvironment) -> Seq<char> {
    std_path_joined(
        first_path(
            option_text_view(environment.codex_home),
            home_based(environment.home, ".codex"@),
            ".codex"@,
        ),
        "sessions"@,
    )
}

/// The default Pi sessions directory: `agent/sessions` under `PI_HOME`, else under
/// `$HOME/.pi`, else under `.pi`.
pub open spec fn pi_sessions_directory(environment: SourceEnvironment) -> Seq<char> {
    std_path_joined(
        std_path_joined(
            first_path(option_text_view(environment.pi_home), home_based(environment.home, ".pi"@), ".pi"@),
            "agent"@,
        ),
        "sessions"@,
    )
}

/// The default OpenCode data directory: `OPENCODE_HOME`, else `$XDG_DATA_HOME/opencode`,
/// else `$HOME/.local/share/opencode`, else `.local/share/opencode`.
pub open spec fn opencode_data_directory(environment: SourceEnvironment) -> Seq<char> {
    match environment.opencode_home {
        Some(directory) => directory@,
        None => match environment.xdg_data_home {
            Some(directory) => std_path_joined(directory@, "opencode"@),
            None => match environment.home {
                Some(directory) => std_path_joined(
                    std_path_joined(std_path_joined(directory@, ".local"@), "share"@),
                    "opencode"@,
                ),
                None => std_path_joined(std_path_joined(".local"@, "share"@), "opencode"@),
            },
        },
    }
}

/// Joins `part` to an optional base.
fn joined_to(base: &Option<String>, part: &str) -> (result: Option<String>)
    ensures
        option_text_view(result) == home_based(*base, part@),
{
    match base {
        Some(directory) => Some(path_joined(directory.as_str(), part)),
        None => None,
    }
}

/// The first path that is present, else the fallback.
fn first_path_of(first: &Option<String>, second: Option<String>, fallback: &str) -> (result: String)
    ensures
        result@ == first_path(option_text_view(*first), option_text_view(second), fallback@),
{
    match first {
        Some(path) => path.clone(),
        None => match second {
            Some(path) => path,
            None => owned(fallback),
        },
    }
}

/// Returns the default local Codex Sessions Directory.
pub fn default_codex_sessions_directory(environment: &SourceEnvironment) -> (result: String)
    ensures
        result@ == codex_sessions_directory(*environment),
{
    let base = first_path_of(&environment.codex_home, joined_to(&environment.home, ".codex"), ".codex");
    path_joined(base.as_str(), "sessions")
}

/// Returns the default local Pi sessions directory.
pub fn default_pi_sessions_directory(environment: &SourceEnvironment) -> (result: String)
    ensures
        result@ == pi_sessions_directory(*environment),
{
    let base = first_path_of(&environment.pi_home, joined_to(&environment.home, ".pi"), ".pi");
    let agent = path_joined(base.as_str(), "agent");
    path_joined(agent.as_str(), "sessions")
}

/// Returns the default local OpenCode data directory.
pub fn default_opencode_sessions_directory(environment: &SourceEnvironment) -> (result: String)
    ensures
        result@ == opencode_data_directory(*environment),
{
    match &environment.opencode_home {
        Some(directory) => directory.clone(),
        None => match &environment.xdg_data_home {
            Some(directory) => path_joined(directory.as_str(), "opencode"),
            None => {
                let base = match &environment.home {
                    Some(directory) => path_joined(directory.as_str(), ".local"),
                    None => owned(".local"),
                };
                let share = path_joined(base.as_str(), "share");
                path_joined(share.as_str(), "opencode")
            },
        },
    }
}

/// Whether a component of the path is `session` or `message`.
pub open spec fn has_session_or_message_component(path: Seq<char>) -> bool {
    exists|index: int|
        0 <= index < std_path_components(path).len() && (#[trigger] std_path_components(path)[index] == "session"@
            || std_path_components(path)[index] == "message"@)
}

/// The shape of an artifact path: an OpenCode database by its file name `opencode.db`; a
/// JSONL session file by extension `jsonl`; a JSON session file by extension `json` under a
/// `session` or `message` directory.
pub open spec fn shape_of_path(path: Seq<char>) -> Option<UsageSourceArtifactShape> {
    if std_path_file_name(path) == Some("opencode.db"@) {
        Some(UsageSourceArtifactShape::OpenCodeDatabase)
    } else if std_path_extension(path) == Some("jsonl"@) {
        Some(UsageSourceArtifactShape::JsonLinesSessionFile)
    } else if std_path_extension(path) == Some("json"@) && has_session_or_message_component(path) {
        Some(UsageSourceArtifactShape::JsonSessionFile)
    } else {
        None
    }
}

/// The shape of a Custom Usage Source given as a file: a JSON session file when its
/// extension is `json`.
pub open spec fn custom_file_shape(path: Seq<char>, root_path: Seq<char>, root_kind: UsageSourceRootKind) -> Option<
    UsageSourceArtifactShape,
> {
    if root_kind != UsageSourceRootKind::CustomUsageSource || !std_paths_equal(path, root_path) {
        None
    } else if std_path_extension(path) == Some("json"@) {
        Some(UsageSourceArtifactShape::JsonSessionFile)
    } else {
        None
    }
}

/// An artifact as values: path, shape, root kind, root path and custom flag.
pub type ArtifactFacts = (Seq<char>, UsageSourceArtifactShape, UsageSourceRootKind, Seq<char>, bool);

/// The values of an artifact.
pub open spec fn artifact_facts(artifact: UsageSourceArtifact) -> ArtifactFacts {
    (artifact.path@, artifact.shape, artifact.root_kind, artifact.root_path@, artifact.is_custom)
}

/// The artifact that a path under a root is, when its shape is known.
pub open spec fn artifact_of_path(path: Seq<char>, root_path: Seq<char>, root_kind: UsageSourceRootKind) -> Option<
    ArtifactFacts,
> {
    let shape = match shape_of_path(path) {
        Some(found) => Some(found),
        None => custom_file_shape(path, root_path, root_kind),
    };
    match shape {
        Some(found) => Some(
            (path, found, root_kind, root_path, root_kind == UsageSourceRootKind::CustomUsageSource),
        ),
        None => None,
    }
}

/// Whether a path is a session file to parse: extension `jsonl`, or extension `json`
/// under a `session` or `message` directory.
pub open spec fn usage_file_path(path: Seq<char>) -> bool {
    std_path_extension(path) == Some("jsonl"@) || (std_path_extension(path) == Some("json"@)
        && has_session_or_message_component(path))
}

/// Whether a component of the path is `session` or `message`.
fn path_has_session_or_message_component(path: &str) -> (result: bool)
    ensures
        result == has_session_or_message_component(path@),
{
    let components = path_components(path);
    let mut index: usize = 0;
    while index < components.len()
        invariant
            index <= components.len(),
            components@.len() == std_path_components(path@).len(),
            forall|position: int| 0 <= position < components@.len() ==> (#[trigger] components@[position])@
                == std_path_components(path@)[position],
            forall|position: int| 0 <= position < index ==> !(std_path_components(path@)[position] == "session"@
                || std_path_components(path@)[position] == "message"@),
        decreases components.len() - index,
    {
        let component = components[index].as_str();
        if text_equals(component, "session") || text_equals(component, "message") {
            assert(components@[index as int]@ == std_path_components(path@)[index as int]);
            return true;
        }
        index = index + 1;
    }
    false
}

/// Whether an optional text is the given one.
fn is_some_text(value: &Option<String>, expected: &str) -> (result: bool)
    ensures
        result == (option_text_view(*value) == Some(expected@)),
{
    match value {
        Some(text) => text_equals(text.as_str(), expected),
        None => false,
    }
}

/// Whether a path is a session file to parse.
pub fn is_usage_file_path(file_path: &str) -> (result: bool)
    ensures
        result == usage_file_path(file_path@),
{
    let extension = path_extension(file_path);
    if is_some_text(&extension, "jsonl") {
        true
    } else if is_some_text(&extension, "json") {
        path_has_session_or_message_component(file_path)
    } else {
        false
    }
}

/// The shape of an artifact path.
pub fn artifact_shape(path: &str) -> (result: Option<UsageSourceArtifactShape>)
    ensures
        result == shape_of_path(path@),
{
    if is_some_text(&path_file_name(path), "opencode.db") {
        return Some(UsageSourceArtifactShape::OpenCodeDatabase);
    }
    let extension = path_extension(path);
    if is_some_text(&extension, "jsonl") {
        Some(UsageSourceArtifactShape::JsonLinesSessionFile)
    } else if is_some_text(&extension, "json") && path_has_session_or_message_component(path) {
        Some(UsageSourceArtifactShape::JsonSessionFile)
    } else {
        None
    }
}

/// The shape of a Custom Usage Source given as a file.
pub fn custom_file_artifact_shape(path: &str, root: &UsageSourceRoot) -> (result: Option<UsageSourceArtifactShape>)
    ensures
        result == custom_file_shape(path@, root.path@, root.kind),
{
    if root.kind != UsageSourceRootKind::CustomUsageSource || !paths_equal(path, root.path.as_str()) {
        return None;
    }
    if is_some_text(&path_extension(path), "json") {
        Some(UsageSourceArtifactShape::JsonSessionFile)
    } else {
        None
    }
}

/// The artifact that a path under a root is, when its shape is known.
pub fn artifact_from_path(path: &str, root: &UsageSourceRoot) -> (result: Option<UsageSourceArtifact>)
    ensures
        match result {
            Some(artifact) => artifact_of_path(path@, root.path@, root.kind) == Some(artifact_facts(artifact)),
            None => artifact_of_path(path@, root.path@, root.kind) is None,
        },
{
    let shape = match artifact_shape(path) {
        Some(found) => found,
        None => match custom_file_artifact_shape(path, root) {
            Some(found) => found,
            None => return None,
        },
    };
    Some(
        UsageSourceArtifact {
            path: owned(path),
            shape,
            root_kind: root.kind,
            root_path: root.path.clone(),
            is_custom: root.kind == UsageSourceRootKind::CustomUsageSource,
        },
    )
}

impl UsageSourceArtifact {
    /// Copies the artifact.
    pub fn duplicate(&self) -> (result: UsageSourceArtifact)
        ensures
            artifact_facts(result) == artifact_facts(*self),
    {
        UsageSourceArtifact {
            path: self.path.clone(),
            shape: self.shape,
            root_kind: self.root_kind,
            root_path: self.root_path.clone(),
            is_custom: self.is_custom,
        }
    }
}

/// The values of a list of artifacts.
pub open spec fn artifacts_facts(items: Seq<UsageSourceArtifact>) -> Seq<ArtifactFacts> {
    items.map_values(|artifact: UsageSourceArtifact| artifact_facts(artifact))
}

/// The paths of a list of artifacts.
pub open spec fn paths_of(items: Seq<ArtifactFacts>) -> Seq<Seq<char>> {
    items.map_values(|artifact: ArtifactFacts| artifact.0)
}

/// Artifacts in `Path` order of their paths, as a stable sort gives them.
pub open spec fn by_path(items: Seq<ArtifactFacts>) -> Seq<ArtifactFacts> {
    path_insertion_order(paths_of(items), items.len() as int).map_values(|index: usize| items[index as int])
}

/// The artifacts that the first `count` paths under a root are.
pub open spec fn artifacts_of_paths(
    paths: Seq<String>,
    root_path: Seq<char>,
    root_kind: UsageSourceRootKind,
    count: int,
) -> Seq<ArtifactFacts>
    decreases count,
{
    if count <= 0 {
        Seq::empty()
    } else {
        let before = artifacts_of_paths(paths, root_path, root_kind, count - 1);
        match artifact_of_path(paths[count - 1]@, root_path, root_kind) {
            Some(artifact) => before.push(artifact),
            None => before,
        }
    }
}

/// The artifacts discovered at a readable root: the root itself when it is a file;
/// otherwise the artifacts among the files under it, in `Path` order.
pub open spec fn discovered_artifacts(root_path: Seq<char>, root_kind: UsageSourceRootKind, listing: RootListing) -> Seq<
    ArtifactFacts,
> {
    if listing.is_file {
        match artifact_of_path(root_path, root_path, root_kind) {
            Some(artifact) => seq![artifact],
            None => Seq::empty(),
        }
    } else {
        by_path(artifacts_of_paths(listing.file_paths@, root_path, root_kind, listing.file_paths@.len() as int))
    }
}

/// Arranges artifacts in `Path` order of their paths.
fn arrange_by_path(items: &Vec<UsageSourceArtifact>) -> (result: Vec<UsageSourceArtifact>)
    ensures
        artifacts_facts(result@) == by_path(artifacts_facts(items@)),
{
    let mut paths: Vec<String> = Vec::new();
    let mut index: usize = 0;
    while index < items.len()
        invariant
            index <= items.len(),
            path_texts(paths@) =~= paths_of(artifacts_facts(items@)).take(index as int),
        decreases items.len() - index,
    {
        let ghost before = paths@;
        paths.push(items[index].path.clone());
        proof {
            assert(path_texts(paths@) =~= path_texts(before).push(items@[index as int].path@));
        }
        index = index + 1;
    }
    proof {
        assert(paths_of(artifacts_facts(items@)).take(items@.len() as int) =~= paths_of(artifacts_facts(items@)));
    }
    let order = path_sort_order(&paths);
    let ghost facts = artifacts_facts(items@);
    let ghost expected = order@.map_values(|position: usize| facts[position as int]);
    let mut result: Vec<UsageSourceArtifact> = Vec::new();
    let mut position: usize = 0;
    while position < order.len()
        invariant
            position <= order.len(),
            order.len() == items.len(),
            facts == artifacts_facts(items@),
            expected == order@.map_values(|place: usize| facts[place as int]),
            forall|place: int| 0 <= place < order.len() ==> #[trigger] order@[place] < items.len(),
            artifacts_facts(result@) =~= expected.take(position as int),
        decreases order.len() - position,
    {
        let ghost before = result@;
        let artifact = items[order[position]].duplicate();
        result.push(artifact);
        proof {
            assert(artifacts_facts(result@) =~= artifacts_facts(before).push(artifact_facts(artifact)));
        }
        position = position + 1;
    }
    proof {
        assert(expected.take(order@.len() as int) =~= expected);
    }
    result
}

/// The artifacts discovered at a readable root.
fn discover_artifacts(root: &UsageSourceRoot, listing: &RootListing) -> (result: Vec<UsageSourceArtifact>)
    ensures
        artifacts_facts(result@) == discovered_artifacts(root.path@, root.kind, *listing),
{
    if listing.is_file {
        let mut single: Vec<UsageSourceArtifact> = Vec::new();
        match artifact_from_path(root.path.as_str(), root) {
            Some(artifact) => {
                single.push(artifact);
                proof {
                    assert(artifacts_facts(single@) =~= seq![artifact_facts(artifact)]);
                }
            },
            None => {
                proof {
                    assert(artifacts_facts(single@) =~= Seq::<ArtifactFacts>::empty());
                }
            },
        }
        return single;
    }
    let mut candidates: Vec<UsageSourceArtifact> = Vec::new();
    let mut index: usize = 0;
    while index < listing.file_paths.len()
        invariant
            index <= listing.file_paths.len(),
            artifacts_facts(candidates@) =~= artifacts_of_paths(listing.file_paths@, root.path@, root.kind, index as int),
        decreases listing.file_paths.len() - index,
    {
        let ghost before = candidates@;
        match artifact_from_path(listing.file_paths[index].as_str(), root) {
            Some(artifact) => {
                candidates.push(artifact);
                proof {
                    assert(artifacts_facts(candidates@) =~= artifacts_facts(before).push(artifact_facts(artifact)));
                }
            },
            None => {},
        }
        index = index + 1;
    }
    arrange_by_path(&candidates)
}

/// A root as values: path, kind and readability.
pub type RootFacts = (Seq<char>, UsageSourceRootKind, bool);

/// What an inventory holds, as values.
pub struct InventoryFacts {
    pub state_path: Seq<char>,
    pub state_readable: bool,
    pub state_custom: bool,
    pub roots: Seq<RootFacts>,
    pub artifacts: Seq<ArtifactFacts>,
}

/// The values of a root.
pub open spec fn root_facts(root: UsageSourceRoot) -> RootFacts {
    (root.path@, root.kind, root.is_readable)
}

/// The values of an inventory.
pub open spec fn inventory_facts(inventory: UsageSourceInventory) -> InventoryFacts {
    InventoryFacts {
        state_path: source_state_path(inventory.current_source_state),
        state_readable: source_state_readable(inventory.current_source_state),
        state_custom: source_state_custom(inventory.current_source_state),
        roots: inventory.roots@.map_values(|root: UsageSourceRoot| root_facts(root)),
        artifacts: artifacts_facts(inventory.artifacts@),
    }
}

/// The roots to look at: the Custom Usage Source alone when one is given; else the default
/// Codex, Pi and OpenCode directories, in that order.
pub open spec fn planned_roots(custom_usage_source: Option<String>, environment: SourceEnvironment) -> Seq<
    (Seq<char>, UsageSourceRootKind),
> {
    match custom_usage_source {
        Some(path) => seq![(path@, UsageSourceRootKind::CustomUsageSource)],
        None => seq![
            (codex_sessions_directory(environment), UsageSourceRootKind::CodexSessionsDirectory),
            (pi_sessions_directory(environment), UsageSourceRootKind::PiSessionsDirectory),
            (opencode_data_directory(environment), UsageSourceRootKind::OpenCodeDataDirectory),
        ],
    }
}

/// Whether the listing of root `index` is there and found the root readable.
pub open spec fn listed_readable(listings: Seq<RootListing>, index: int) -> bool {
    0 <= index < listings.len() && listings[index].is_readable
}

/// The artifacts discovered at the first `count` roots, one root after another.
pub open spec fn candidates_of(
    roots: Seq<(Seq<char>, UsageSourceRootKind)>,
    listings: Seq<RootListing>,
    count: int,
) -> Seq<ArtifactFacts>
    decreases count,
{
    if count <= 0 {
        Seq::empty()
    } else {
        let before = candidates_of(roots, listings, count - 1);
        if listed_readable(listings, count - 1) {
            before + discovered_artifacts(roots[count - 1].0, roots[count - 1].1, listings[count - 1])
        } else {
            before
        }
    }
}

/// Whether some artifact of a list has a path `==` to the given one.
pub open spec fn path_taken(kept: Seq<ArtifactFacts>, path: Seq<char>) -> bool {
    exists|index: int| 0 <= index < kept.len() && std_paths_equal(path, #[trigger] kept[index].0)
}

/// The first `count` artifacts without those whose path equals that of one kept before.
pub open spec fn distinct_by_path(items: Seq<ArtifactFacts>, count: int) -> Seq<ArtifactFacts>
    decreases count,
{
    if count <= 0 {
        Seq::empty()
    } else {
        let kept = distinct_by_path(items, count - 1);
        if path_taken(kept, items[count - 1].0) {
            kept
        } else {
            kept.push(items[count - 1])
        }
    }
}

/// The inventory that the roots' listings give. A Custom Usage Source is readable when its
/// root is, and its artifacts are those discovered there. Without one, the artifacts of all
/// readable default roots are kept once per path, in `Path` order; the source is readable
/// when there is an artifact, and its representative path is the first artifact's root, else
/// the default Codex Sessions Directory.
pub open spec fn inventory_of(
    custom_usage_source: Option<String>,
    environment: SourceEnvironment,
    listings: Seq<RootListing>,
) -> InventoryFacts {
    let roots = planned_roots(custom_usage_source, environment);
    let root_values = Seq::new(roots.len(), |index: int| (roots[index].0, roots[index].1, listed_readable(listings, index)));
    match custom_usage_source {
        Some(path) => InventoryFacts {
            state_path: path@,
            state_readable: listed_readable(listings, 0),
            state_custom: true,
            roots: root_values,
            artifacts: if listed_readable(listings, 0) {
                discovered_artifacts(path@, UsageSourceRootKind::CustomUsageSource, listings[0])
            } else {
                Seq::empty()
            },
        },
        None => {
            let candidates = candidates_of(roots, listings, roots.len() as int);
            let artifacts = by_path(distinct_by_path(candidates, candidates.len() as int));
            InventoryFacts {
                state_path: if artifacts.len() > 0 {
                    artifacts[0].3
                } else {
                    codex_sessions_directory(environment)
                },
                state_readable: artifacts.len() > 0,
                state_custom: false,
                roots: root_values,
                artifacts,
            }
        },
    }
}

/// The roots to look at, with their kinds.
pub fn usage_source_root_plan(custom_usage_source: &Option<String>, environment: &SourceEnvironment) -> (result: Vec<
    (String, UsageSourceRootKind),
>)
    ensures
        result@.len() == planned_roots(*custom_usage_source, *environment).len(),
        forall|index: int| 0 <= index < result@.len() ==> (#[trigger] result@[index]).0@ == planned_roots(
            *custom_usage_source,
            *environment,
        )[index].0 && result@[index].1 == planned_roots(*custom_usage_source, *environment)[index].1,
{
    let mut plan: Vec<(String, UsageSourceRootKind)> = Vec::new();
    match custom_usage_source {
        Some(path) => {
            plan.push((path.clone(), UsageSourceRootKind::CustomUsageSource));
        },
        None => {
            plan.push((default_codex_sessions_directory(environment), UsageSourceRootKind::CodexSessionsDirectory));
            plan.push((default_pi_sessions_directory(environment), UsageSourceRootKind::PiSessionsDirectory));
            plan.push((default_opencode_sessions_directory(environment), UsageSourceRootKind::OpenCodeDataDirectory));
        },
    }
    plan
}

/// Whether the listing of root `index` is there and found the root readable.
fn listing_readable(listings: &Vec<RootListing>, index: usize) -> (result: bool)
    ensures
        result == listed_readable(listings@, index as int),
{
    index < listings.len() && listings[index].is_readable
}

/// Whether some kept artifact has a path `==` to the given one.
fn path_already_kept(kept: &Vec<UsageSourceArtifact>, path: &str) -> (result: bool)
    ensures
        result == path_taken(artifacts_facts(kept@), path@),
{
    let mut index: usize = 0;
    while index < kept.len()
        invariant
            index <= kept.len(),
            forall|earlier: int| 0 <= earlier < index ==> !std_paths_equal(path@, #[trigger] kept@[earlier].path@),
        decreases kept.len() - index,
    {
        if paths_equal(path, kept[index].path.as_str()) {
            assert(artifacts_facts(kept@)[index as int].0 == kept@[index as int].path@);
            return true;
        }
        index = index + 1;
    }
    assert forall|earlier: int| 0 <= earlier < kept@.len() implies !std_paths_equal(
        path@,
        #[trigger] artifacts_facts(kept@)[earlier].0,
    ) by {
        assert(artifacts_facts(kept@)[earlier].0 == kept@[earlier].path@);
    }
    false
}

/// The roots with their readability as the listings found it.
fn listed_roots(plan: &Vec<(String, UsageSourceRootKind)>, listings: &Vec<RootListing>) -> (result: Vec<UsageSourceRoot>)
    ensures
        result@.len() == plan@.len(),
        forall|index: int| 0 <= index < plan@.len() ==> root_facts(#[trigger] result@[index]) == (
            plan@[index].0@,
            plan@[index].1,
            listed_readable(listings@, index),
        ),
{
    let mut roots: Vec<UsageSourceRoot> = Vec::new();
    let mut index: usize = 0;
    while index < plan.len()
        invariant
            index <= plan.len(),
            roots@.len() == index,
            forall|earlier: int| 0 <= earlier < index ==> root_facts(#[trigger] roots@[earlier]) == (
                plan@[earlier].0@,
                plan@[earlier].1,
                listed_readable(listings@, earlier),
            ),
        decreases plan.len() - index,
    {
        roots.push(
            UsageSourceRoot {
                path: plan[index].0.clone(),
                kind: plan[index].1,
                is_readable: listing_readable(listings, index),
            },
        );
        index = index + 1;
    }
    roots
}

/// Builds the Usage Source Inventory for the current run from what a look at each planned
/// root found; a root without a listing counts as unreadable.
pub fn build_usage_source_inventory(
    custom_usage_source: Option<String>,
    environment: &SourceEnvironment,
    listings: &Vec<RootListing>,
) -> (result: UsageSourceInventory)
    ensures
        inventory_facts(result) == inventory_of(custom_usage_source, *environment, listings@),
{
    let plan = usage_source_root_plan(&custom_usage_source, environment);
    let ghost planned = planned_roots(custom_usage_source, *environment);
    let roots = listed_roots(&plan, listings);
    let ghost expected = inventory_of(custom_usage_source, *environment, listings@);
    proof {
        assert(roots@.map_values(|root: UsageSourceRoot| root_facts(root)) =~= expected.roots);
    }
    match custom_usage_source {
        Some(path) => {
            let readable = listing_readable(listings, 0);
            let artifacts = if readable {
                discover_artifacts(&roots[0], &listings[0])
            } else {
                let empty: Vec<UsageSourceArtifact> = Vec::new();
                proof {
                    assert(artifacts_facts(empty@) =~= Seq::<ArtifactFacts>::empty());
                }
                empty
            };
            let current_source_state = if readable {
                CurrentSourceState::Readable { path, is_custom: true }
            } else {
                CurrentSourceState::Missing { path, is_custom: true }
            };
            UsageSourceInventory { current_source_state, roots, artifacts }
        },
        None => {
            let mut candidates: Vec<UsageSourceArtifact> = Vec::new();
            let mut index: usize = 0;
            while index < roots.len()
                invariant
                    index <= roots.len(),
                    roots@.len() == planned.len(),
                    planned == planned_roots(custom_usage_source, *environment),
                    forall|place: int| 0 <= place < planned.len() ==> root_facts(#[trigger] roots@[place]) == (
                        planned[place].0,
                        planned[place].1,
                        listed_readable(listings@, place),
                    ),
                    artifacts_facts(candidates@) =~= candidates_of(planned, listings@, index as int),
                decreases roots.len() - index,
            {
                if listing_readable(listings, index) {
                    let found = discover_artifacts(&roots[index], &listings[index]);
                    let ghost before = candidates@;
                    let mut position: usize = 0;
                    while position < found.len()
                        invariant
                            position <= found.len(),
                            artifacts_facts(candidates@) =~= artifacts_facts(before) + artifacts_facts(found@).take(
                                position as int,
                            ),
                        decreases found.len() - position,
                    {
                        let ghost step = candidates@;
                        candidates.push(found[position].duplicate());
                        proof {
                            assert(artifacts_facts(candidates@) =~= artifacts_facts(step).push(
                                artifacts_facts(found@)[position as int],
                            ));
                        }
                        position = position + 1;
                    }
                    proof {
                        assert(artifacts_facts(found@).take(found@.len() as int) =~= artifacts_facts(found@));
                    }
                }
                index = index + 1;
            }
            let ghost candidate_facts = artifacts_facts(candidates@);
            let mut kept: Vec<UsageSourceArtifact> = Vec::new();
            let mut position: usize = 0;
            proof {
                assert(artifacts_facts(kept@) =~= Seq::<ArtifactFacts>::empty());
            }
            while position < candidates.len()
                invariant
                    position <= candidates.len(),
                    candidate_facts == artifacts_facts(candidates@),
                    artifacts_facts(kept@) == distinct_by_path(candidate_facts, position as int),
                decreases candidates.len() - position,
            {
                if !path_already_kept(&kept, candidates[position].path.as_str()) {
                    let ghost before = kept@;
                    kept.push(candidates[position].duplicate());
                    proof {
                        assert(artifacts_facts(kept@) =~= artifacts_facts(before).push(candidate_facts[position as int]));
                    }
                }
                position = position + 1;
            }
            let artifacts = arrange_by_path(&kept);
            let representative_path = if artifacts.len() > 0 {
                artifacts[0].root_path.clone()
            } else {
                default_codex_sessions_directory(environment)
            };
            proof {
                if artifacts@.len() > 0 {
                    assert(artifacts_facts(artifacts@)[0].3 == artifacts@[0].root_path@);
                }
            }
            let current_source_state = if artifacts.len() > 0 {
                CurrentSourceState::Readable { path: representative_path, is_custom: false }
            } else {
                CurrentSourceState::Missing { path: representative_path, is_custom: false }
            };
            UsageSourceInventory { current_source_state, roots, artifacts }
        },
    }
}

/// Arranging by path keeps the number of artifacts, and each arranged artifact is one of
/// them.
pub proof fn lemma_by_path_members(items: Seq<ArtifactFacts>)
    requires
        items.len() <= usize::MAX,
    ensures
        by_path(items).len() == items.len(),
        forall|position: int| 0 <= position < items.len() ==> exists|source: int|
            0 <= source < items.len() && #[trigger] by_path(items)[position] == items[source],
{
    let paths = paths_of(items);
    lemma_insertion_order_indices(paths, items.len() as int);
    let order = path_insertion_order(paths, items.len() as int);
    assert forall|position: int| 0 <= position < items.len() implies exists|source: int|
        0 <= source < items.len() && #[trigger] by_path(items)[position] == items[source] by {
        assert(by_path(items)[position] == items[order[position] as int]);
    }
}

/// Every artifact found under the first `count` paths of a root records that root.
proof fn lemma_artifacts_record_root(paths: Seq<String>, root_path: Seq<char>, root_kind: UsageSourceRootKind, count: int)
    ensures
        forall|position: int| 0 <= position < artifacts_of_paths(paths, root_path, root_kind, count).len() ==> {
            let artifact = #[trigger] artifacts_of_paths(paths, root_path, root_kind, count)[position];
            artifact.2 == root_kind && artifact.3 == root_path && artifact.4 == (root_kind
                == UsageSourceRootKind::CustomUsageSource)
        },
    decreases count,
{
    if count > 0 {
        lemma_artifacts_record_root(paths, root_path, root_kind, count - 1);
    }
}

/// Every artifact discovered at a root records that root.
pub proof fn lemma_discovered_record_root(root_path: Seq<char>, root_kind: UsageSourceRootKind, listing: RootListing)
    requires
        listing.file_paths@.len() <= usize::MAX,
    ensures
        forall|position: int| 0 <= position < discovered_artifacts(root_path, root_kind, listing).len() ==> {
            let artifact = #[trigger] discovered_artifacts(root_path, root_kind, listing)[position];
            artifact.2 == root_kind && artifact.3 == root_path && artifact.4 == (root_kind
                == UsageSourceRootKind::CustomUsageSource)
        },
{
    if !listing.is_file {
        let found = artifacts_of_paths(listing.file_paths@, root_path, root_kind, listing.file_paths@.len() as int);
        lemma_artifacts_record_root(listing.file_paths@, root_path, root_kind, listing.file_paths@.len() as int);
        lemma_artifacts_of_paths_length(listing.file_paths@, root_path, root_kind, listing.file_paths@.len() as int);
        lemma_by_path_members(found);
        assert forall|position: int| 0 <= position < by_path(found).len() implies {
            let artifact = #[trigger] by_path(found)[position];
            artifact.2 == root_kind && artifact.3 == root_path && artifact.4 == (root_kind
                == UsageSourceRootKind::CustomUsageSource)
        } by {
            let source = choose|source: int| 0 <= source < found.len() && by_path(found)[position] == found[source];
            assert(found[source].2 == root_kind);
        }
    }
}

/// At most one artifact per path.
proof fn lemma_artifacts_of_paths_length(paths: Seq<String>, root_path: Seq<char>, root_kind: UsageSourceRootKind, count: int)
    requires
        count <= paths.len(),
    ensures
        artifacts_of_paths(paths, root_path, root_kind, count).len() <= if count < 0 {
            0
        } else {
            count
        },
    decreases count,
{
    if count > 0 {
        lemma_artifacts_of_paths_length(paths, root_path, root_kind, count - 1);
    }
}

/// A Custom Usage Source replaces default discovery: it is the only root, and every
/// artifact comes from it and is marked custom.
pub proof fn law_custom_source_is_entire_inventory(
    custom_path: String,
    environment: SourceEnvironment,
    listings: Seq<RootListing>,
)
    requires
        listings.len() > 0 ==> listings[0].file_paths@.len() <= usize::MAX,
    ensures
        ({
            let inventory = inventory_of(Some(custom_path), environment, listings);
            &&& inventory.roots == seq![
                (custom_path@, UsageSourceRootKind::CustomUsageSource, listed_readable(listings, 0)),
            ]
            &&& inventory.state_custom
            &&& inventory.state_path == custom_path@
            &&& forall|position: int| 0 <= position < inventory.artifacts.len() ==> {
                let artifact = #[trigger] inventory.artifacts[position];
                artifact.2 == UsageSourceRootKind::CustomUsageSource && artifact.3 == custom_path@ && artifact.4
            }
        }),
{
    let inventory = inventory_of(Some(custom_path), environment, listings);
    assert(inventory.roots =~= seq![
        (custom_path@, UsageSourceRootKind::CustomUsageSource, listed_readable(listings, 0)),
    ]);
    if listed_readable(listings, 0) {
        lemma_discovered_record_root(custom_path@, UsageSourceRootKind::CustomUsageSource, listings[0]);
    }
}

/// A Custom Usage Source that cannot be read is reported missing, with its own path and no
/// artifacts.
pub proof fn law_missing_custom_source_is_missing(custom_path: String, environment: SourceEnvironment, listings: Seq<RootListing>)
    requires
        !listed_readable(listings, 0),
    ensures
        !inventory_of(Some(custom_path), environment, listings).state_readable,
        inventory_of(Some(custom_path), environment, listings).state_custom,
        inventory_of(Some(custom_path), environment, listings).state_path == custom_path@,
        inventory_of(Some(custom_path), environment, listings).artifacts.len() == 0,
{
}

/// The default source is readable exactly when some artifact was found, and its roots are
/// the Codex, Pi and OpenCode directories in that order.
pub proof fn law_default_source_roots_and_readability(environment: SourceEnvironment, listings: Seq<RootListing>)
    ensures
        inventory_of(None, environment, listings).state_readable == (inventory_of(None, environment, listings).artifacts.len() > 0),
        !inventory_of(None, environment, listings).state_custom,
        inventory_of(None, environment, listings).roots.len() == 3,
        inventory_of(None, environment, listings).roots[0].0 == codex_sessions_directory(environment),
        inventory_of(None, environment, listings).roots[1].0 == pi_sessions_directory(environment),
        inventory_of(None, environment, listings).roots[2].0 == opencode_data_directory(environment),
{
}

} // verus!
