//! The active-document state of a mind-map editor: the document that is open,
//! its save state, the list of recently used files and a bounded cache of
//! recently seen documents, with the decisions that keep them consistent
//! with what is on disk.

pub mod cache;
pub mod error;
pub mod files;
pub mod laws;
pub mod manager;
pub mod naming;
pub mod ollama;
pub mod payload;
pub mod recent;
pub mod session;
pub mod startup;
pub mod state;
pub mod timestamp;
pub mod types;

pub use error::ErrorKind;
pub use manager::MindMapManager;
pub use startup::{create_tutorial_mind_map, is_first_time_user};
pub use state::AppState;
pub use timestamp::Timestamp;
pub use types::{create_empty_mind_map, ActiveFileState, MindMap, SaveState};
