//! The document, the session state that outlives a run, and the save state.

use vstd::prelude::*;
use crate::payload::{copy_of, empty_list, is_empty_list, item_count, json_items};
use crate::recent::copy_list;
use crate::timestamp::Timestamp;

verus! {

/// A mind map: the document that the user works on.
#[derive(Debug)]
pub struct MindMap {
    pub id: i64,
    pub name: String,
    pub description: String,
    /// The file that holds the document; empty while it was never saved.
    pub file_name: String,
    pub nodes: serde_json::Value,
    pub edges: serde_json::Value,
    pub created_at: Timestamp,
    pub updated_at: Timestamp,
}

impl Clone for MindMap {
    fn clone(&self) -> (copy: Self)
        ensures
            copy == *self,
    {
        MindMap {
            id: self.id,
            name: self.name.clone(),
            description: self.description.clone(),
            file_name: self.file_name.clone(),
            nodes: copy_of(&self.nodes),
            edges: copy_of(&self.edges),
            created_at: self.created_at,
            updated_at: self.updated_at,
        }
    }
}

impl MindMap {
    /// The last change is not dated before the creation.
    pub open spec fn timestamps_ordered(self) -> bool {
        self.updated_at.at_or_after(self.created_at)
    }
}

/// The name of a document that was given none.
pub open spec fn untitled() -> Seq<char> {
    "Untitled"@
}

impl MindMap {
    /// A document without nodes and edges that was never saved, made and
    /// last changed at `now`.
    pub open spec fn is_blank(self, name: Seq<char>, description: Seq<char>, now: Timestamp) -> bool {
        &&& self.id == 0
        &&& self.name@ == name
        &&& self.description@ == description
        &&& self.file_name@.len() == 0
        &&& is_empty_list(self.nodes)
        &&& is_empty_list(self.edges)
        &&& self.created_at == now
        &&& self.updated_at == now
    }

    /// A document without nodes and edges that was never saved.
    pub fn blank(name: String, description: String, now: Timestamp) -> (mind_map: MindMap)
        ensures
            mind_map.is_blank(name@, description@, now),
            mind_map.timestamps_ordered(),
    {
        MindMap {
            id: 0,
            name,
            description,
            file_name: String::new(),
            nodes: empty_list(),
            edges: empty_list(),
            created_at: now,
            updated_at: now,
        }
    }

    /// The number of nodes, where the nodes are a JSON array.
    pub fn node_count(&self) -> (count: Option<usize>)
        ensures
            match count {
                Some(n) => json_items(self.nodes) == Some(n as nat),
                None => json_items(self.nodes).is_none(),
            },
    {
        item_count(&self.nodes)
    }

    /// The number of edges, where the edges are a JSON array.
    pub fn edge_count(&self) -> (count: Option<usize>)
        ensures
            match count {
                Some(n) => json_items(self.edges) == Some(n as nat),
                None => json_items(self.edges).is_none(),
            },
    {
        item_count(&self.edges)
    }
}

impl Default for MindMap {
    /// An untitled blank document, dated by the system clock.
    fn default() -> (mind_map: Self)
        ensures
            exists|now: Timestamp| #[trigger]
                mind_map.is_blank(untitled(), "No description"@, now),
            mind_map.timestamps_ordered(),
    {
        let now = Timestamp::now();
        let mind_map = MindMap::blank("Untitled".to_owned(), "No description".to_owned(), now);
        proof {
            assert(mind_map.is_blank(untitled(), "No description"@, now));
        }
        mind_map
    }
}

/// An untitled blank document without a description, made at `now`.
pub fn create_empty_mind_map_at(now: Timestamp) -> (mind_map: MindMap)
    ensures
        mind_map.is_blank(untitled(), Seq::<char>::empty(), now),
{
    MindMap::blank("Untitled".to_owned(), String::new(), now)
}

/// An untitled blank document without a description, dated by the system
/// clock.
pub fn create_empty_mind_map() -> (mind_map: MindMap)
    ensures
        exists|now: Timestamp| #[trigger] mind_map.is_blank(untitled(), Seq::<char>::empty(), now),
        mind_map.timestamps_ordered(),
{
    let now = Timestamp::now();
    let mind_map = create_empty_mind_map_at(now);
    proof {
        assert(mind_map.is_blank(untitled(), Seq::<char>::empty(), now));
    }
    mind_map
}

/// What outlives a run: the file of the document that was open last, and
/// the files used recently, most recent first.
#[derive(Debug)]
pub struct ActiveFileState {
    pub current_mind_map_path: Option<String>,
    pub recent_files: Vec<String>,
}

impl Clone for ActiveFileState {
    fn clone(&self) -> (copy: Self)
        ensures
            copy.current_mind_map_path == self.current_mind_map_path,
            copy.recent_files@ == self.recent_files@,
    {
        ActiveFileState {
            current_mind_map_path: self.current_mind_map_path.clone(),
            recent_files: copy_list(&self.recent_files),
        }
    }
}

impl Default for ActiveFileState {
    /// No document was open and no file was used.
    fn default() -> (state: Self)
        ensures
            state.current_mind_map_path.is_none(),
            state.recent_files@.len() == 0,
    {
        ActiveFileState { current_mind_map_path: None, recent_files: Vec::new() }
    }
}

/// Whether the open document is on disk as it is in memory, and when it
/// was last written, as RFC 3339 text.
#[derive(Debug)]
pub struct SaveState {
    pub is_saved: bool,
    pub last_saved_at: Option<String>,
}

impl Clone for SaveState {
    fn clone(&self) -> (copy: Self)
        ensures
            copy == *self,
    {
        SaveState { is_saved: self.is_saved, last_saved_at: self.last_saved_at.clone() }
    }
}

} // verus!
