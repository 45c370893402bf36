//! What holds of the session over any run of operations.

use vstd::prelude::*;
use crate::manager::ManagerView;
use crate::recent::{lemma_pushed_recent_wf, RECENT_LIMIT};
use crate::session::{is_prepared, Notice};
use crate::timestamp::Timestamp;
use crate::types::MindMap;

verus! {

/// One change to the open document: new nodes or new edges, with the
/// reading of the clock at the change.
pub enum Change {
    Nodes(serde_json::Value, Timestamp),
    Edges(serde_json::Value, Timestamp),
}

impl ManagerView {
    /// The session after one change.
    pub open spec fn changed(self, change: Change) -> ManagerView {
        match change {
            Change::Nodes(nodes, now) => self.with_nodes(nodes, now),
            Change::Edges(edges, now) => self.with_edges(edges, now),
        }
    }

    /// The session after a run of changes, the first of them first.
    pub open spec fn after_changes(self, changes: Seq<Change>) -> ManagerView
        decreases changes.len(),
    {
        if changes.len() == 0 {
            self
        } else {
            self.after_changes(changes.drop_last()).changed(changes.last())
        }
    }
}

/// One change never moves the date of the last change back, keeps it at
/// or after the creation date where it was so, leaves the creation date
/// alone and marks the document unsaved.
pub proof fn lemma_change_keeps_dates_ordered(session: ManagerView, change: Change)
    ensures
        session.changed(change).active.updated_at.at_or_after(session.active.updated_at),
        session.changed(change).active.created_at == session.active.created_at,
        session.active.timestamps_ordered() ==> session.changed(change).active.timestamps_ordered(),
        !session.changed(change).is_saved,
{
}

/// Over any run of node and edge changes, whatever the clock reads, the
/// date of the last change never moves back: after the whole run it is
/// at or after what it was after any part of the run. Where it started
/// at or after the creation date, it stays so.
pub proof fn lemma_changes_keep_dates_ordered(session: ManagerView, changes: Seq<Change>, part: int)
    requires
        0 <= part <= changes.len(),
    ensures
        session.after_changes(changes).active.updated_at.at_or_after(
            session.after_changes(changes.take(part)).active.updated_at,
        ),
        session.after_changes(changes).active.created_at == session.active.created_at,
        session.active.timestamps_ordered() ==> session.after_changes(
            changes,
        ).active.timestamps_ordered(),
    decreases changes.len(),
{
    if changes.len() == 0 {
        assert(changes.take(part) =~= changes);
    } else {
        let front = changes.drop_last();
        let before = session.after_changes(front);
        lemma_change_keeps_dates_ordered(before, changes.last());
        if part == changes.len() {
            assert(changes.take(part) =~= changes);
            lemma_changes_keep_dates_ordered(session, front, 0);
        } else {
            assert(changes.take(part) =~= front.take(part));
            lemma_changes_keep_dates_ordered(session, front, part);
        }
    }
}

/// A document that was saved and then loaded from the file it went to
/// comes back with the nodes and edges it was saved with, where the disk
/// hands back what was written. Its name, description and creation date
/// come back too; its file and the date of its last change are those
/// that saving gave it.
pub proof fn lemma_save_then_load_round_trip(
    session: ManagerView,
    mind_map: MindMap,
    written: MindMap,
    prepared_at: Timestamp,
    saved_at: Timestamp,
)
    requires
        is_prepared(written, mind_map, prepared_at),
    ensures
        ({
            let loaded = session.after_save(written, saved_at).after_load(
                written.file_name@,
                written,
            );
            &&& loaded.active.nodes == mind_map.nodes
            &&& loaded.active.edges == mind_map.edges
            &&& loaded.active.name == mind_map.name
            &&& loaded.active.description == mind_map.description
            &&& loaded.active.created_at == mind_map.created_at
            &&& loaded.path == written.file_name@
            &&& loaded.cached[written.file_name@] == written
        }),
{
}

/// A created document is not saved; once it went to its file it is, as
/// of the date of the write, until the next change.
pub proof fn lemma_save_state_follows_the_disk(
    session: ManagerView,
    created: MindMap,
    written: MindMap,
    saved_at: Timestamp,
    change: Change,
)
    ensures
        !session.after_create(created).is_saved,
        session.after_create(created).last_saved_at == session.last_saved_at,
        session.after_save(written, saved_at).is_saved,
        session.after_save(written, saved_at).last_saved_at == Some(saved_at),
        !session.after_save(written, saved_at).changed(change).is_saved,
        session.after_save(written, saved_at).changed(change).last_saved_at == Some(saved_at),
{
}

/// Loading and saving keep the recent files in order: at most ten, none
/// twice, the file just used in front. Loading a file that the list
/// holds already moves it to the front and leaves the length as it was.
/// Changes to the document and flushes do not touch the list.
pub proof fn lemma_recent_files_stay_in_order(
    session: ManagerView,
    file_name: Seq<char>,
    mind_map: MindMap,
    now: Timestamp,
    change: Change,
)
    requires
        session.wf(),
    ensures
        session.after_load(file_name, mind_map).wf(),
        session.after_load(file_name, mind_map).recent[0] == file_name,
        session.recent.contains(file_name) ==> session.after_load(file_name, mind_map).recent.len()
            == session.recent.len(),
        !session.recent.contains(file_name) && session.recent.len() < RECENT_LIMIT
            ==> session.after_load(file_name, mind_map).recent == seq![file_name] + session.recent,
        session.after_save(mind_map, now).wf(),
        session.after_save(mind_map, now).recent[0] == mind_map.file_name@,
        session.after_create(mind_map).recent == session.recent,
        session.changed(change).recent == session.recent,
        session.saved(now).recent == session.recent,
{
    lemma_pushed_recent_wf(session.recent, file_name);
    lemma_pushed_recent_wf(session.recent, mind_map.file_name@);
}

/// A document that was created and never saved has nothing to flush to;
/// one that was made ready and saved has.
pub proof fn lemma_flush_needs_a_file(
    session: ManagerView,
    created: MindMap,
    mind_map: MindMap,
    written: MindMap,
    prepared_at: Timestamp,
    saved_at: Timestamp,
)
    requires
        is_prepared(written, mind_map, prepared_at),
    ensures
        !session.after_create(created).can_flush(),
        session.after_save(written, saved_at).can_flush(),
{
    reveal_strlit(".json");
}

/// A document that was created, made ready and saved is saved as of the
/// date of the write, and that date is at or after its creation date
/// wherever the clock at the write reads at or after the clock at the
/// creation. Two readings of a clock that was set back between them are
/// tied by nothing.
pub proof fn lemma_save_is_dated_after_creation(
    session: ManagerView,
    created: MindMap,
    written: MindMap,
    prepared_at: Timestamp,
    saved_at: Timestamp,
)
    requires
        is_prepared(written, created, prepared_at),
        saved_at.at_or_after(created.created_at),
    ensures
        ({
            let saved = session.after_create(created).after_save(written, saved_at);
            &&& saved.is_saved
            &&& saved.last_saved_at == Some(saved_at)
            &&& saved.last_saved_at.unwrap().at_or_after(saved.active.created_at)
            &&& saved.active.created_at == created.created_at
            &&& saved.active.timestamps_ordered()
        }),
{
}

/// What is stored before a load or a save is applied is what the session
/// holds once it is applied: a notice that tells of the session to come
/// tells of the session after the load, and after the save whatever its
/// date.
pub proof fn lemma_notice_tells_what_is_applied(
    session: ManagerView,
    notice: Notice,
    file_name: Seq<char>,
    now: Timestamp,
)
    requires
        notice.tells(session.opened(file_name, notice.mind_map)),
    ensures
        notice.tells(session.after_load(file_name, notice.mind_map)),
        notice.mind_map.file_name@ == file_name ==> notice.tells(
            session.after_save(notice.mind_map, now),
        ),
        notice.state@ == session.after_load(file_name, notice.mind_map).state(),
{
}

} // verus!
