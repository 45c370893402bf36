//! The operations on the session: create, load, save and flush. Reading
//! and writing files happens outside; each operation takes what the disk
//! answered and says what the session is afterwards and what is to be
//! shown, stored and announced.
//!
//! Loading and saving go in two steps, so that nothing is applied that
//! was not stored. The first step says what the session is going to be
//! and hands out the notice with the session state to store; it changes
//! nothing. The second takes what became of storing that state, and
//! applies the change only where it was stored.

use vstd::prelude::*;
use crate::error::ErrorKind;
use crate::manager::{ManagerView, MindMapManager};
use crate::naming::{derive_file_name, derived_file_name, has_no_whitespace, title_of, window_title};
use crate::recent::{lemma_pushed_recent_wf, push_recent, recent_wf, texts};
use crate::timestamp::{rfc3339_instant, Timestamp};
use crate::types::{ActiveFileState, MindMap};

verus! {

/// What reading a file gave.
#[derive(Debug)]
pub enum Stored<T> {
    /// There is no such file.
    Absent,
    /// The file is there and could not be read.
    Unreadable,
    /// The file was read and does not hold what was asked for.
    Malformed,
    /// The file held this.
    Found(T),
}

/// What is to happen outside after the open document changed: `state` is
/// stored, `title` is shown on the window, and the observers are told of
/// `mind_map`.
#[derive(Debug)]
pub struct Notice {
    pub mind_map: MindMap,
    pub state: ActiveFileState,
    pub title: String,
}

impl Clone for Notice {
    fn clone(&self) -> (copy: Self)
        ensures
            copy.mind_map == self.mind_map,
            copy.state@ == self.state@,
            copy.title == self.title,
    {
        Notice {
            mind_map: self.mind_map.clone(),
            state: self.state.clone(),
            title: self.title.clone(),
        }
    }
}

impl Notice {
    /// The notice tells of the session as it is in `session`.
    pub open spec fn tells(self, session: ManagerView) -> bool {
        &&& self.mind_map == session.active
        &&& self.state@ == session.state()
        &&& self.title@ == title_of(session.active.name@)
    }
}

/// What a flush did.
#[derive(Clone, Copy, Debug, PartialEq, Eq, Structural)]
pub enum FlushOutcome {
    /// The document has no file: nothing was to be written.
    Skipped,
    /// The document was written and counts as saved.
    Flushed,
    /// Writing failed; the document stays as it was.
    Failed(ErrorKind),
}

/// The file that a document is saved to: its own, or the one that its
/// name gives where it has none.
pub open spec fn resolved_file_name(mind_map: MindMap) -> Seq<char> {
    if mind_map.file_name@.len() == 0 {
        derived_file_name(mind_map.name@)
    } else {
        mind_map.file_name@
    }
}

/// `out` is `mind_map` made ready for writing at `now`: it names its file
/// and is dated `now`, or with its creation date where the clock reads
/// earlier than that; nothing else differs.
pub open spec fn is_prepared(out: MindMap, mind_map: MindMap, now: Timestamp) -> bool {
    &&& out.id == mind_map.id
    &&& out.name == mind_map.name
    &&& out.description == mind_map.description
    &&& out.file_name@ == resolved_file_name(mind_map)
    &&& out.nodes == mind_map.nodes
    &&& out.edges == mind_map.edges
    &&& out.created_at == mind_map.created_at
    &&& out.updated_at == now.spec_later(mind_map.created_at)
}

impl ManagerView {
    /// After `mind_map` was created: it is open, has no file and is not
    /// saved.
    pub open spec fn after_create(self, mind_map: MindMap) -> ManagerView {
        self.with_active(mind_map, Seq::empty()).unsaved()
    }

    /// After `mind_map` was opened as the document of `file_name`: it is
    /// in the cache and open, and its file is the most recent.
    pub open spec fn opened(self, file_name: Seq<char>, mind_map: MindMap) -> ManagerView {
        self.with_cached(file_name, mind_map).with_active(mind_map, file_name).with_recent(
            file_name,
        )
    }

    /// After `mind_map` was loaded from `file_name`: it is opened and
    /// counts as saved.
    pub open spec fn after_load(self, file_name: Seq<char>, mind_map: MindMap) -> ManagerView {
        self.opened(file_name, mind_map).clean()
    }

    /// After `written` went to its file at `now`: it is opened and saved
    /// as of `now`.
    pub open spec fn after_save(self, written: MindMap, now: Timestamp) -> ManagerView {
        self.opened(written.file_name@, written).saved(now)
    }

    /// The open document has a file to flush to.
    pub open spec fn can_flush(self) -> bool {
        self.path.len() > 0 && self.active.file_name@.len() > 0
    }

    /// The open document has a file to flush to, and it is `path`.
    pub open spec fn can_flush_to(self, path: Seq<char>) -> bool {
        self.can_flush() && self.path == path
    }
}

/// What a read of a document's file comes to: the document, or the kind
/// of failure.
pub fn load_mind_map_from_disk(read: Stored<MindMap>) -> (loaded: Result<MindMap, ErrorKind>)
    ensures
        match read {
            Stored::Absent => loaded == Err::<MindMap, ErrorKind>(ErrorKind::NotFound),
            Stored::Unreadable => loaded == Err::<MindMap, ErrorKind>(ErrorKind::ReadError),
            Stored::Malformed => loaded == Err::<MindMap, ErrorKind>(ErrorKind::DeserializeError),
            Stored::Found(mind_map) => loaded == Ok::<MindMap, ErrorKind>(mind_map),
        },
{
    match read {
        Stored::Absent => Err(ErrorKind::NotFound),
        Stored::Unreadable => Err(ErrorKind::ReadError),
        Stored::Malformed => Err(ErrorKind::DeserializeError),
        Stored::Found(mind_map) => Ok(mind_map),
    }
}

/// What a read of the session state's file comes to. Without the file
/// the session starts from nothing; that is no failure.
pub fn load_active_file_state(read: Stored<ActiveFileState>) -> (loaded: Result<
    ActiveFileState,
    ErrorKind,
>)
    ensures
        match read {
            Stored::Absent => loaded.is_ok() && loaded.unwrap().current_mind_map_path.is_none()
                && loaded.unwrap().recent_files@.len() == 0,
            Stored::Unreadable => loaded == Err::<ActiveFileState, ErrorKind>(ErrorKind::ReadError),
            Stored::Malformed => loaded == Err::<ActiveFileState, ErrorKind>(
                ErrorKind::DeserializeError,
            ),
            Stored::Found(state) => loaded == Ok::<ActiveFileState, ErrorKind>(state),
        },
        loaded != Err::<ActiveFileState, ErrorKind>(ErrorKind::NotFound),
{
    match read {
        Stored::Absent => Ok(ActiveFileState::default()),
        Stored::Unreadable => Err(ErrorKind::ReadError),
        Stored::Malformed => Err(ErrorKind::DeserializeError),
        Stored::Found(state) => Ok(state),
    }
}

/// The notice of the session as it is now.
pub fn notice_of(manager: &MindMapManager) -> (notice: Notice)
    ensures
        notice.tells(manager@),
        recent_wf(notice.state@.recent),
{
    let mind_map = manager.get_active_mind_map();
    let title = window_title(mind_map.name.as_str());
    Notice { mind_map, state: manager.get_state(), title }
}

/// Creates a blank document at `now` and opens it. It has no file, so
/// the session state names none, and it is not saved.
pub fn create_mind_map_at(
    manager: &mut MindMapManager,
    name: String,
    description: String,
    now: Timestamp,
) -> (notice: Notice)
    ensures
        final(manager)@.active.is_blank(name@, description@, now),
        final(manager)@ == old(manager)@.after_create(final(manager)@.active),
        notice.tells(final(manager)@),
        notice.state@.path.is_none(),
{
    let mind_map = MindMap::blank(name, description, now);
    manager.set_active_mind_map(mind_map, String::new());
    manager.mark_unsaved();
    notice_of(manager)
}

/// Creates a blank document, dated by the system clock, and opens it.
pub fn create_mind_map(manager: &mut MindMapManager, name: String, description: String) -> (notice:
    Notice)
    ensures
        exists|now: Timestamp| #[trigger] final(manager)@.active.is_blank(name@, description@, now),
        final(manager)@ == old(manager)@.after_create(final(manager)@.active),
        notice.tells(final(manager)@),
        notice.state@.path.is_none(),
{
    let now = Timestamp::now();
    let notice = create_mind_map_at(manager, name, description, now);
    proof {
        assert(manager@.active.is_blank(name@, description@, now));
    }
    notice
}

/// The notice of `mind_map` being opened as the document of `file_name`,
/// made before anything is applied.
fn notice_of_opening(manager: &MindMapManager, file_name: &String, mind_map: MindMap) -> (notice: Notice)
    ensures
        notice.tells(manager@.opened(file_name@, mind_map)),
        recent_wf(notice.state@.recent),
{
    let mut recent_files = manager.get_recent_files();
    proof {
        lemma_pushed_recent_wf(texts(recent_files@), file_name@);
    }
    push_recent(&mut recent_files, file_name.clone());
    let current_mind_map_path = if file_name.as_str().is_empty() {
        None
    } else {
        Some(file_name.clone())
    };
    let title = window_title(mind_map.name.as_str());
    Notice { mind_map, state: ActiveFileState { current_mind_map_path, recent_files }, title }
}

/// Applies the opening of `mind_map` as the document of `file_name`.
fn open_document(manager: &mut MindMapManager, file_name: String, mind_map: MindMap)
    ensures
        final(manager)@ == old(manager)@.opened(file_name@, mind_map),
        final(manager)@.wf(),
        final(manager)@.recent.len() >= 1,
        final(manager)@.recent[0] == file_name@,
        old(manager)@.recent.contains(file_name@) ==> final(manager)@.recent.len() == old(
            manager,
        )@.recent.len(),
{
    manager.update_cache(file_name.clone(), mind_map.clone());
    manager.set_active_mind_map(mind_map, file_name.clone());
    manager.add_recent_file(file_name);
}

/// The first step of loading: takes what reading `file_name` gave and
/// says what is to be stored and announced. Nothing is applied yet.
/// Where reading failed, the failure is handed on.
pub fn load_mind_map(manager: &MindMapManager, file_name: &String, read: Stored<MindMap>) -> (loaded:
    Result<Notice, ErrorKind>)
    ensures
        match read {
            Stored::Found(mind_map) => {
                &&& loaded.is_ok()
                &&& loaded.unwrap().tells(manager@.after_load(file_name@, mind_map))
            },
            Stored::Absent => loaded.is_err() && loaded.unwrap_err() == ErrorKind::NotFound,
            Stored::Unreadable => loaded.is_err() && loaded.unwrap_err() == ErrorKind::ReadError,
            Stored::Malformed => loaded.is_err() && loaded.unwrap_err()
                == ErrorKind::DeserializeError,
        },
{
    match load_mind_map_from_disk(read) {
        Err(kind) => Err(kind),
        Ok(mind_map) => Ok(notice_of_opening(manager, file_name, mind_map)),
    }
}

/// The second step of loading: takes what became of storing the session
/// state of `notice`. Where it was stored, the document of the notice
/// opens as the document of `file_name` and counts as saved. Where it
/// was not, the session stays as it was and the failure is handed on.
pub fn complete_load(
    manager: &mut MindMapManager,
    file_name: String,
    notice: Notice,
    stored: Result<(), ErrorKind>,
) -> (done: Result<Notice, ErrorKind>)
    ensures
        match stored {
            Ok(_) => {
                &&& done == Ok::<Notice, ErrorKind>(notice)
                &&& final(manager)@ == old(manager)@.after_load(file_name@, notice.mind_map)
                &&& notice.tells(old(manager)@.after_load(file_name@, notice.mind_map))
                    ==> notice.tells(final(manager)@)
                &&& final(manager)@.wf()
                &&& final(manager)@.recent[0] == file_name@
                &&& old(manager)@.recent.contains(file_name@) ==> final(manager)@.recent.len()
                    == old(manager)@.recent.len()
            },
            Err(kind) => {
                &&& done.is_err()
                &&& done.unwrap_err() == kind
                &&& final(manager)@ == old(manager)@
            },
        },
{
    match stored {
        Err(kind) => Err(kind),
        Ok(_) => {
            open_document(manager, file_name, notice.mind_map.clone());
            manager.mark_clean();
            Ok(notice)
        },
    }
}

/// Makes a document ready for writing at `now`: it gets the file that
/// its name gives where it has none, and is dated `now`. Where the
/// clock reads earlier than the creation date, it is dated with that.
pub fn prepare_save_at(mind_map: MindMap, now: Timestamp) -> (out: MindMap)
    ensures
        is_prepared(out, mind_map, now),
        out.file_name@.len() > 0,
        mind_map.file_name@.len() == 0 ==> has_no_whitespace(out.file_name@),
        out.timestamps_ordered(),
        now.at_or_after(mind_map.created_at) ==> out.updated_at == now,
{
    let mut out = mind_map;
    if out.file_name.as_str().is_empty() {
        out.file_name = derive_file_name(out.name.as_str());
    }
    out.updated_at = now.later(out.created_at);
    out
}

/// Makes a document ready for writing, dated by the system clock.
pub fn prepare_save(mind_map: MindMap) -> (out: MindMap)
    ensures
        exists|now: Timestamp| #[trigger] is_prepared(out, mind_map, now),
        out.file_name@.len() > 0,
        mind_map.file_name@.len() == 0 ==> has_no_whitespace(out.file_name@),
        out.timestamps_ordered(),
{
    let now = Timestamp::now();
    let out = prepare_save_at(mind_map, now);
    proof {
        assert(is_prepared(out, mind_map, now));
    }
    out
}

/// The first step of saving: takes what became of writing `written` to
/// its file and says what is to be stored and announced. Nothing is
/// applied yet. Where writing failed, the failure is handed on.
pub fn save_mind_map(manager: &MindMapManager, written: MindMap, outcome: Result<(), ErrorKind>) -> (saved:
    Result<Notice, ErrorKind>)
    ensures
        match outcome {
            Ok(_) => {
                &&& saved.is_ok()
                &&& saved.unwrap().tells(manager@.opened(written.file_name@, written))
                &&& forall|now: Timestamp| #[trigger]
                    saved.unwrap().tells(manager@.after_save(written, now))
            },
            Err(kind) => saved.is_err() && saved.unwrap_err() == kind,
        },
{
    match outcome {
        Err(kind) => Err(kind),
        Ok(_) => {
            let file_name = written.file_name.clone();
            Ok(notice_of_opening(manager, &file_name, written))
        },
    }
}

/// The second step of saving, at `now`: takes what became of storing the
/// session state of `notice`. Where it was stored, the document of the
/// notice opens under its own file and is saved as of `now`. Where it
/// was not, the session stays as it was: the open document stays
/// unsaved, and its file and the recent files are not touched.
pub fn complete_save_at(
    manager: &mut MindMapManager,
    notice: Notice,
    stored: Result<(), ErrorKind>,
    now: Timestamp,
) -> (done: Result<Notice, ErrorKind>)
    ensures
        match stored {
            Ok(_) => {
                &&& done == Ok::<Notice, ErrorKind>(notice)
                &&& final(manager)@ == old(manager)@.after_save(notice.mind_map, now)
                &&& notice.tells(old(manager)@.after_save(notice.mind_map, now)) ==> notice.tells(
                    final(manager)@,
                )
                &&& final(manager)@.wf()
                &&& final(manager)@.recent[0] == notice.mind_map.file_name@
            },
            Err(kind) => {
                &&& done.is_err()
                &&& done.unwrap_err() == kind
                &&& final(manager)@ == old(manager)@
            },
        },
{
    match stored {
        Err(kind) => Err(kind),
        Ok(_) => {
            let file_name = notice.mind_map.file_name.clone();
            open_document(manager, file_name, notice.mind_map.clone());
            manager.mark_saved_at(now);
            Ok(notice)
        },
    }
}

/// The second step of saving; a save that went through is dated by the
/// system clock, and its date has a text.
pub fn complete_save(manager: &mut MindMapManager, notice: Notice, stored: Result<(), ErrorKind>) -> (done:
    Result<Notice, ErrorKind>)
    ensures
        match stored {
            Ok(_) => {
                &&& done == Ok::<Notice, ErrorKind>(notice)
                &&& exists|now: Timestamp| #[trigger]
                    old(manager)@.after_save(notice.mind_map, now) == final(manager)@
                        && now.has_text()
                &&& final(manager)@.last_saved_text().is_some()
                &&& final(manager)@.wf()
                &&& final(manager)@.recent[0] == notice.mind_map.file_name@
            },
            Err(kind) => {
                &&& done.is_err()
                &&& done.unwrap_err() == kind
                &&& final(manager)@ == old(manager)@
            },
        },
{
    let now = Timestamp::now();
    let done = complete_save_at(manager, notice, stored, now);
    proof {
        if stored.is_ok() {
            assert(old(manager)@.after_save(notice.mind_map, now) == manager@ && now.has_text());
        }
    }
    done
}

/// What a flush is to write, and where: the open document and its file.
/// Nothing where the document has no file.
pub fn flush_request(manager: &MindMapManager) -> (request: Option<(String, MindMap)>)
    ensures
        match request {
            Some((path, mind_map)) => {
                &&& manager@.can_flush_to(path@)
                &&& mind_map == manager@.active
            },
            None => !manager@.can_flush(),
        },
{
    let path = manager.get_current_path();
    let mind_map = manager.get_active_mind_map();
    if path.as_str().is_empty() || mind_map.file_name.as_str().is_empty() {
        None
    } else {
        Some((path, mind_map))
    }
}

/// Takes in what became of the write to `path` that a flush asked for,
/// at `now`. A document without a file is skipped whatever `outcome`
/// says, and so is one whose file is no longer `path`: another document
/// was opened since the flush was asked for. A write that failed leaves
/// the session as it was.
pub fn flush_mind_map_at(
    manager: &mut MindMapManager,
    path: &String,
    outcome: Result<(), ErrorKind>,
    now: Timestamp,
) -> (done: FlushOutcome)
    ensures
        !old(manager)@.can_flush_to(path@) ==> done == FlushOutcome::Skipped && final(manager)@
            == old(manager)@,
        old(manager)@.can_flush_to(path@) ==> match outcome {
            Ok(_) => done == FlushOutcome::Flushed && final(manager)@ == old(manager)@.saved(now),
            Err(kind) => done == FlushOutcome::Failed(kind) && final(manager)@ == old(manager)@,
        },
{
    match flush_request(manager) {
        None => FlushOutcome::Skipped,
        Some((current, _)) => {
            if !(current == *path) {
                FlushOutcome::Skipped
            } else {
                match outcome {
                    Ok(_) => {
                        manager.mark_saved_at(now);
                        FlushOutcome::Flushed
                    },
                    Err(kind) => FlushOutcome::Failed(kind),
                }
            }
        },
    }
}

/// Takes in what became of the write to `path` that a flush asked for; a
/// write that went through is dated by the system clock.
pub fn flush_mind_map(manager: &mut MindMapManager, path: &String, outcome: Result<(), ErrorKind>) -> (done:
    FlushOutcome)
    ensures
        !old(manager)@.can_flush_to(path@) ==> done == FlushOutcome::Skipped && final(manager)@
            == old(manager)@,
        old(manager)@.can_flush_to(path@) ==> match outcome {
            Ok(_) => done == FlushOutcome::Flushed && exists|now: Timestamp| #[trigger]
                old(manager)@.saved(now) == final(manager)@ && now.has_text(),
            Err(kind) => done == FlushOutcome::Failed(kind) && final(manager)@ == old(manager)@,
        },
{
    let now = Timestamp::now();
    let done = flush_mind_map_at(manager, path, outcome, now);
    proof {
        if old(manager)@.can_flush_to(path@) && outcome.is_ok() {
            assert(old(manager)@.saved(now) == manager@ && now.has_text());
        }
    }
    done
}

/// `mind_map` is the document that a file's record holds: its dates are
/// the instants that the two texts name.
pub open spec fn holds_record(mind_map: MindMap, created_at: Seq<char>, updated_at: Seq<char>) -> bool {
    &&& rfc3339_instant(created_at) == Some(
        (mind_map.created_at.secs as int, mind_map.created_at.nanos as int),
    )
    &&& rfc3339_instant(updated_at) == Some(
        (mind_map.updated_at.secs as int, mind_map.updated_at.nanos as int),
    )
}

/// The document that a file's record holds. Its dates are stored as
/// RFC 3339 text; a record with another text for a date is malformed.
pub fn mind_map_from_record(
    id: i64,
    name: String,
    description: String,
    file_name: String,
    nodes: serde_json::Value,
    edges: serde_json::Value,
    created_at: &str,
    updated_at: &str,
) -> (read: Stored<MindMap>)
    ensures
        match read {
            Stored::Found(mind_map) => {
                &&& mind_map.id == id
                &&& mind_map.name == name
                &&& mind_map.description == description
                &&& mind_map.file_name == file_name
                &&& mind_map.nodes == nodes
                &&& mind_map.edges == edges
                &&& holds_record(mind_map, created_at@, updated_at@)
            },
            Stored::Malformed => rfc3339_instant(created_at@).is_none() || rfc3339_instant(
                updated_at@,
            ).is_none(),
            _ => false,
        },
{
    match (Timestamp::parse_rfc3339(created_at), Timestamp::parse_rfc3339(updated_at)) {
        (Some(created_at), Some(updated_at)) => Stored::Found(
            MindMap { id, name, description, file_name, nodes, edges, created_at, updated_at },
        ),
        _ => Stored::Malformed,
    }
}

} // verus!
