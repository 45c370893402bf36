//! How a session starts: with the document that was open last, with the
//! tutorial on the first run, or with a blank document.

use vstd::prelude::*;
use vstd::string::*;
use crate::manager::{ManagerView, MindMapManager, SessionView};
use crate::payload::{is_payload_of, payload_of};
use crate::recent::{
    lemma_normalized_keeps_wf, lemma_normalized_wf, lemma_pushed_recent_wf, normalized, recent_wf,
};
use crate::session::Stored;
use crate::timestamp::Timestamp;
use crate::types::{create_empty_mind_map_at, untitled, ActiveFileState, MindMap};

verus! {

/// The nodes of the tutorial, as JSON.
pub const TUTORIAL_NODES: &'static str =
    "[{\"id\":\"welcome\",\"type\":\"llmPrompt\",\"position\":{\"x\":0,\"y\":0},\"data\":{\"userMessage\":{\"role\":\"user\",\"content\":\"Welcome to AI Mind Map! This is a tutorial node. Try adding more nodes and connecting them to create your mind map.\"}}},{\"id\":\"tip1\",\"type\":\"llmPrompt\",\"position\":{\"x\":300,\"y\":0},\"data\":{\"userMessage\":{\"role\":\"user\",\"content\":\"Tip: You can drag nodes around to organize your thoughts. Connect nodes by dragging from one node's handle to another.\"}}}]";

/// The edges of the tutorial, as JSON.
pub const TUTORIAL_EDGES: &'static str =
    "[{\"id\":\"e-welcome-tip1\",\"source\":\"welcome\",\"target\":\"tip1\"}]";

/// The file that the tutorial is saved to.
pub open spec fn tutorial_file() -> Seq<char> {
    "tutorial.json"@
}

/// The file that holds the session state.
pub open spec fn state_file() -> Seq<char> {
    "active_file_state.json"@
}

/// The name ends in `.json`.
pub open spec fn is_json_file(name: Seq<char>) -> bool {
    name.len() >= 5 && name.subrange(name.len() - 5, name.len() as int) == ".json"@
}

/// The name is that of a document's file: a JSON file other than the
/// one of the session state.
pub open spec fn is_document_file(name: Seq<char>) -> bool {
    is_json_file(name) && name != state_file()
}

impl MindMap {
    /// The tutorial, made at `now`.
    pub open spec fn is_tutorial(self, now: Timestamp) -> bool {
        &&& self.id == 0
        &&& self.name@ == "Tutorial"@
        &&& self.description@ == "Learn how to use AI Mind Map"@
        &&& self.file_name@ == tutorial_file()
        &&& is_payload_of(self.nodes, TUTORIAL_NODES@)
        &&& is_payload_of(self.edges, TUTORIAL_EDGES@)
        &&& self.created_at == now
        &&& self.updated_at == now
    }
}

/// The tutorial that a first-time user is shown, made at `now`.
pub fn create_tutorial_mind_map_at(now: Timestamp) -> (mind_map: MindMap)
    ensures
        mind_map.is_tutorial(now),
{
    MindMap {
        id: 0,
        name: "Tutorial".to_owned(),
        description: "Learn how to use AI Mind Map".to_owned(),
        file_name: "tutorial.json".to_owned(),
        nodes: payload_of(TUTORIAL_NODES),
        edges: payload_of(TUTORIAL_EDGES),
        created_at: now,
        updated_at: now,
    }
}

/// The tutorial that a first-time user is shown, dated by the system clock.
pub fn create_tutorial_mind_map() -> (mind_map: MindMap)
    ensures
        exists|now: Timestamp| #[trigger] mind_map.is_tutorial(now),
{
    let now = Timestamp::now();
    let mind_map = create_tutorial_mind_map_at(now);
    proof {
        assert(mind_map.is_tutorial(now));
    }
    mind_map
}

/// Whether a file name ends in `.json`.
pub fn has_json_suffix(name: &str) -> (found: bool)
    ensures
        found == is_json_file(name@),
{
    let len = name.unicode_len();
    if len < 5 {
        return false;
    }
    let tail = name.substring_char(len - 5, len);
    tail.to_owned() == ".json".to_owned()
}

/// Whether the application runs for the first time: the directory, given
/// by the names of its files, holds no document.
pub fn is_first_time_user(names: &Vec<String>) -> (first: bool)
    ensures
        first == forall|i: int| 0 <= i < names@.len() ==> !is_document_file(#[trigger] names@[i]@),
{
    let mut i: usize = 0;
    while i < names.len()
        invariant
            i <= names.len(),
            forall|j: int| 0 <= j < i ==> !is_document_file(#[trigger] names@[j]@),
        decreases names.len() - i,
    {
        if has_json_suffix(names[i].as_str()) && !(names[i] == "active_file_state.json".to_owned()) {
            return false;
        }
        i += 1;
    }
    true
}

/// The session state to start from: what was stored, or nothing where
/// the stored state could not be had.
pub fn start_state(read: Stored<ActiveFileState>) -> (state: ActiveFileState)
    ensures
        match read {
            Stored::Found(stored) => state == stored,
            _ => state.current_mind_map_path.is_none() && state.recent_files@.len() == 0,
        },
{
    match read {
        Stored::Found(stored) => stored,
        _ => ActiveFileState::default(),
    }
}

/// The session state with the tutorial as the open and most recent file.
pub open spec fn with_tutorial(state: SessionView) -> SessionView {
    SessionView { path: Some(tutorial_file()), recent: seq![tutorial_file()] + state.recent }
}

/// What a session starts as, at `now`, from the stored state, from what
/// reading the file it names gave, and from whether this is the first
/// run: `session` is the manager, and `tutorial` the document that is to
/// be written to its file.
///
/// Where the stored state names a file, the document that was read
/// opens, or an untitled blank one where it could not be read, and
/// nothing is to be written. Where it names none, a first-time user gets
/// the tutorial, as the open and most recent file, and the tutorial is to
/// be written; anyone else gets an untitled blank document. In each case
/// the stored recent files are brought in order and the document counts
/// as saved at `now`.
pub open spec fn starts_as(
    state: SessionView,
    document: Stored<MindMap>,
    first_time: bool,
    now: Timestamp,
    session: ManagerView,
    tutorial: Option<MindMap>,
) -> bool {
    if state.path.is_some() {
        &&& tutorial.is_none()
        &&& session == ManagerView::loaded(state, session.active, now)
        &&& match document {
            Stored::Found(mind_map) => session.active == mind_map,
            _ => session.active.is_blank(untitled(), Seq::<char>::empty(), now),
        }
    } else if first_time {
        &&& tutorial == Some(session.active)
        &&& session.active.is_tutorial(now)
        &&& session == ManagerView::loaded(with_tutorial(state), session.active, now)
    } else {
        &&& tutorial.is_none()
        &&& session.active.is_blank(untitled(), Seq::<char>::empty(), now)
        &&& session == ManagerView::loaded(state, session.active, now)
    }
}

/// However a session starts, it is in order and its document counts as
/// saved. With a stored file, the path is that file; on a first run the
/// path is the tutorial's file and that file heads the recent files; a
/// stored list of recent files that is in order is taken as it is.
pub proof fn lemma_start_is_in_order(
    state: SessionView,
    document: Stored<MindMap>,
    first_time: bool,
    now: Timestamp,
    session: ManagerView,
    tutorial: Option<MindMap>,
)
    requires
        starts_as(state, document, first_time, now, session, tutorial),
    ensures
        session.wf(),
        session.is_saved,
        session.last_saved_at == Some(now),
        state.path.is_some() ==> session.path == state.path.unwrap(),
        state.path.is_some() && recent_wf(state.recent) ==> session.recent == state.recent,
        state.path.is_none() && first_time ==> {
            &&& session.path == tutorial_file()
            &&& session.recent.len() >= 1
            &&& session.recent[0] == tutorial_file()
        },
        state.path.is_none() && first_time && state.recent.len() == 0 ==> session.recent
            == seq![tutorial_file()],
        state.path.is_none() && !first_time ==> session.path.len() == 0,
        state.path.is_none() && !first_time && recent_wf(state.recent) ==> session.recent
            == state.recent,
{
    lemma_normalized_wf(state.recent);
    if recent_wf(state.recent) {
        lemma_normalized_keeps_wf(state.recent);
    }
    if state.path.is_none() && first_time {
        let listed = with_tutorial(state).recent;
        lemma_normalized_wf(listed);
        assert(listed.drop_first() =~= state.recent);
        lemma_normalized_wf(state.recent);
        lemma_pushed_recent_wf(normalized(state.recent), tutorial_file());
        if state.recent.len() == 0 {
            assert(normalized(listed) =~= seq![tutorial_file()]) by {
                lemma_normalized_keeps_wf(state.recent);
            }
        }
    }
}

/// Starts the session at `now`.
///
/// Where the stored state names a file, `document` is what reading it
/// gave: the document opens if it was found, else an untitled blank one,
/// and the state stays as stored. Where it names none, a first-time user
/// gets the tutorial, which is handed back to be written to its file, and
/// anyone else an untitled blank document.
pub fn initialize_mind_map_manager_at(
    state: ActiveFileState,
    document: Stored<MindMap>,
    first_time: bool,
    now: Timestamp,
) -> (started: (MindMapManager, Option<MindMap>))
    ensures
        starts_as(state@, document, first_time, now, started.0@, started.1),
        started.0@.wf(),
{
    if state.current_mind_map_path.is_some() {
        let mind_map = match document {
            Stored::Found(mind_map) => mind_map,
            _ => create_empty_mind_map_at(now),
        };
        (MindMapManager::with_loaded_mind_map_at(state, mind_map, now), None)
    } else if first_time {
        let tutorial = create_tutorial_mind_map_at(now);
        let ghost stored = state@;
        let mut recent_files = state.recent_files;
        recent_files.insert(0, "tutorial.json".to_owned());
        let updated = ActiveFileState {
            current_mind_map_path: Some("tutorial.json".to_owned()),
            recent_files,
        };
        proof {
            assert(updated@.recent =~= with_tutorial(stored).recent);
        }
        let manager = MindMapManager::with_loaded_mind_map_at(updated, tutorial.clone(), now);
        (manager, Some(tutorial))
    } else {
        let mind_map = create_empty_mind_map_at(now);
        (MindMapManager::with_loaded_mind_map_at(state, mind_map, now), None)
    }
}

/// Starts the session, dated by the system clock: as
/// `initialize_mind_map_manager_at` does at the reading of the clock.
pub fn initialize_mind_map_manager(state: ActiveFileState, document: Stored<MindMap>, first_time: bool) -> (started: (
    MindMapManager,
    Option<MindMap>,
))
    ensures
        exists|now: Timestamp| #[trigger]
            starts_as(state@, document, first_time, now, started.0@, started.1),
        started.0@.wf(),
{
    let now = Timestamp::now();
    let ghost stored = state@;
    let started = initialize_mind_map_manager_at(state, document, first_time, now);
    proof {
        assert(starts_as(stored, document, first_time, now, started.0@, started.1));
    }
    started
}

} // verus!
