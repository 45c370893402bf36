use ai_mind_map::manager::MindMapManager;
use ai_mind_map::timestamp::Timestamp;
use ai_mind_map::types::{create_empty_mind_map, create_empty_mind_map_at, ActiveFileState, MindMap};
use serde_json::Value;

fn node(id: &str) -> Value {
    let mut object = serde_json::Map::new();
    object.insert("id".to_string(), Value::String(id.to_string()));
    Value::Object(object)
}

fn document(name: &str, file_name: &str, at: Timestamp) -> MindMap {
    let mut mind_map = MindMap::blank(name.to_string(), "about".to_string(), at);
    mind_map.file_name = file_name.to_string();
    mind_map
}

#[test]
fn new_manager_holds_an_untitled_blank_document() {
    let manager = MindMapManager::new_at(Timestamp::new(100, 0));
    let active = manager.get_active_mind_map();
    assert_eq!(active.id, 0);
    assert_eq!(active.name, "Untitled");
    assert_eq!(active.description, "No description");
    assert_eq!(active.file_name, "");
    assert_eq!(active.nodes, Value::Array(vec![]));
    assert_eq!(active.edges, Value::Array(vec![]));
    assert_eq!(active.created_at, Timestamp::new(100, 0));
    assert_eq!(active.updated_at, Timestamp::new(100, 0));
    assert_eq!(manager.get_current_path(), "");
    assert!(manager.get_recent_files().is_empty());
    assert!(manager.is_saved());
    assert_eq!(manager.get_last_saved_at(), None);
}

#[test]
fn new_manager_by_the_clock_is_dated() {
    let manager = MindMapManager::new();
    let active = manager.get_active_mind_map();
    assert_eq!(active.created_at, active.updated_at);
    assert!(active.created_at.secs > 1_577_836_800);
}

#[test]
fn blank_documents_have_empty_lists() {
    let mind_map = create_empty_mind_map_at(Timestamp::new(5, 6));
    assert_eq!(mind_map.name, "Untitled");
    assert_eq!(mind_map.description, "");
    assert_eq!(mind_map.node_count(), Some(0));
    assert_eq!(mind_map.edge_count(), Some(0));
    let by_clock = create_empty_mind_map();
    assert_eq!(by_clock.nodes, Value::Array(vec![]));
    let default = MindMap::default();
    assert_eq!(default.description, "No description");
}

#[test]
fn node_count_is_none_for_what_is_no_list() {
    let mut mind_map = create_empty_mind_map_at(Timestamp::new(5, 6));
    mind_map.nodes = node("n1");
    mind_map.edges = Value::Array(vec![node("e1"), node("e2"), node("e3")]);
    assert_eq!(mind_map.node_count(), None);
    assert_eq!(mind_map.edge_count(), Some(3));
}

#[test]
fn clone_copies_every_field() {
    let mut mind_map = document("Plan", "Plan.json", Timestamp::new(7, 8));
    mind_map.id = 42;
    mind_map.nodes = Value::Array(vec![node("n1")]);
    mind_map.updated_at = Timestamp::new(9, 0);
    let copy = mind_map.clone();
    assert_eq!(copy.id, 42);
    assert_eq!(copy.name, "Plan");
    assert_eq!(copy.description, "about");
    assert_eq!(copy.file_name, "Plan.json");
    assert_eq!(copy.nodes, Value::Array(vec![node("n1")]));
    assert_eq!(copy.edges, Value::Array(vec![]));
    assert_eq!(copy.created_at, Timestamp::new(7, 8));
    assert_eq!(copy.updated_at, Timestamp::new(9, 0));
}

#[test]
fn update_nodes_replaces_the_nodes_and_marks_unsaved() {
    let mut manager = MindMapManager::new_at(Timestamp::new(100, 0));
    manager.update_nodes_at(Value::Array(vec![node("n1")]), Timestamp::new(101, 0));
    let active = manager.get_active_mind_map();
    assert_eq!(active.nodes, Value::Array(vec![node("n1")]));
    assert_eq!(active.edges, Value::Array(vec![]));
    assert_eq!(active.updated_at, Timestamp::new(101, 0));
    assert_eq!(active.created_at, Timestamp::new(100, 0));
    assert!(!manager.is_saved());
    manager.update_nodes_at(Value::Array(vec![node("n2")]), Timestamp::new(102, 0));
    assert_eq!(manager.get_active_mind_map().nodes, Value::Array(vec![node("n2")]));
}

#[test]
fn update_edges_replaces_the_edges_and_marks_unsaved() {
    let mut manager = MindMapManager::new_at(Timestamp::new(100, 0));
    manager.update_edges_at(Value::Array(vec![node("e1")]), Timestamp::new(100, 1));
    let active = manager.get_active_mind_map();
    assert_eq!(active.edges, Value::Array(vec![node("e1")]));
    assert_eq!(active.nodes, Value::Array(vec![]));
    assert_eq!(active.updated_at, Timestamp::new(100, 1));
    assert!(!manager.is_saved());
}

#[test]
fn a_clock_set_back_does_not_move_the_date_of_change_back() {
    let mut manager = MindMapManager::new_at(Timestamp::new(100, 0));
    manager.update_nodes_at(Value::Null, Timestamp::new(200, 0));
    manager.update_edges_at(Value::Null, Timestamp::new(150, 0));
    assert_eq!(manager.get_active_mind_map().updated_at, Timestamp::new(200, 0));
    manager.update_nodes_at(Value::Null, Timestamp::new(50, 0));
    let active = manager.get_active_mind_map();
    assert_eq!(active.updated_at, Timestamp::new(200, 0));
    assert!(active.updated_at.is_at_or_after(&active.created_at));
}

#[test]
fn updates_by_the_clock_never_move_the_date_back() {
    let mut manager = MindMapManager::new();
    let mut last = manager.get_active_mind_map().updated_at;
    for i in 0..20 {
        if i % 2 == 0 {
            manager.update_nodes(Value::Array(vec![node("n")]));
        } else {
            manager.update_edges(Value::Array(vec![node("e")]));
        }
        let active = manager.get_active_mind_map();
        assert!(active.updated_at.is_at_or_after(&last));
        assert!(active.updated_at.is_at_or_after(&active.created_at));
        last = active.updated_at;
    }
    assert!(!manager.is_saved());
}

#[test]
fn set_active_replaces_document_and_path() {
    let mut manager = MindMapManager::new_at(Timestamp::new(100, 0));
    manager.update_nodes_at(Value::Array(vec![node("old")]), Timestamp::new(101, 0));
    manager.set_active_mind_map(document("Plan", "Plan.json", Timestamp::new(7, 0)), "Plan.json".to_string());
    let active = manager.get_active_mind_map();
    assert_eq!(active.name, "Plan");
    assert_eq!(active.nodes, Value::Array(vec![]));
    assert_eq!(manager.get_current_path(), "Plan.json");
}

#[test]
fn add_recent_file_keeps_the_list_in_order() {
    let mut manager = MindMapManager::new_at(Timestamp::new(100, 0));
    for i in 0..12 {
        manager.add_recent_file(format!("f{}.json", i));
    }
    let recent = manager.get_recent_files();
    assert_eq!(recent.len(), 10);
    assert_eq!(recent[0], "f11.json");
    assert_eq!(recent[9], "f2.json");
    manager.add_recent_file("f5.json".to_string());
    let recent = manager.get_recent_files();
    assert_eq!(recent.len(), 10);
    assert_eq!(recent[0], "f5.json");
    assert_eq!(recent.iter().filter(|p| p.as_str() == "f5.json").count(), 1);
    assert_eq!(recent[1], "f11.json");
}

#[test]
fn get_state_has_no_path_for_an_unsaved_document() {
    let mut manager = MindMapManager::new_at(Timestamp::new(100, 0));
    manager.add_recent_file("a.json".to_string());
    let state = manager.get_state();
    assert_eq!(state.current_mind_map_path, None);
    assert_eq!(state.recent_files, vec!["a.json".to_string()]);
    manager.set_active_mind_map(document("Plan", "Plan.json", Timestamp::new(7, 0)), "Plan.json".to_string());
    assert_eq!(manager.get_state().current_mind_map_path, Some("Plan.json".to_string()));
}

#[test]
fn save_marks_follow_each_other() {
    let mut manager = MindMapManager::new_at(Timestamp::new(100, 0));
    manager.mark_unsaved();
    assert!(!manager.is_saved());
    assert_eq!(manager.get_last_saved_at(), None);
    manager.mark_saved_at(Timestamp::new(1_431_648_000, 0));
    assert!(manager.is_saved());
    assert_eq!(manager.get_last_saved_at(), Some(Timestamp::new(1_431_648_000, 0)));
    let state = manager.get_save_state();
    assert!(state.is_saved);
    assert_eq!(state.last_saved_at, Some("2015-05-15T00:00:00+00:00".to_string()));
    manager.mark_unsaved();
    let state = manager.get_save_state();
    assert!(!state.is_saved);
    assert_eq!(state.last_saved_at, Some("2015-05-15T00:00:00+00:00".to_string()));
    manager.mark_clean();
    assert!(manager.is_saved());
    manager.mark_saved();
    assert!(manager.get_last_saved_at().unwrap().secs > 1_577_836_800);
}

#[test]
fn get_save_state_of_a_new_manager() {
    let manager = MindMapManager::new_at(Timestamp::new(100, 0));
    let state = manager.get_save_state();
    assert!(state.is_saved);
    assert_eq!(state.last_saved_at, None);
}

#[test]
fn with_loaded_mind_map_takes_the_stored_state() {
    let state = ActiveFileState {
        current_mind_map_path: Some("Plan.json".to_string()),
        recent_files: vec!["Plan.json".to_string(), "b.json".to_string()],
    };
    let manager = MindMapManager::with_loaded_mind_map_at(
        state,
        document("Plan", "Plan.json", Timestamp::new(7, 0)),
        Timestamp::new(300, 0),
    );
    assert_eq!(manager.get_current_path(), "Plan.json");
    assert_eq!(manager.get_recent_files(), vec!["Plan.json".to_string(), "b.json".to_string()]);
    assert!(manager.is_saved());
    assert_eq!(manager.get_last_saved_at(), Some(Timestamp::new(300, 0)));
    assert_eq!(manager.get_active_mind_map().name, "Plan");
}

#[test]
fn with_loaded_mind_map_brings_a_stored_list_in_order() {
    let mut recent: Vec<String> = (0..14).map(|i| format!("f{}.json", i)).collect();
    recent.insert(3, "f0.json".to_string());
    let state = ActiveFileState { current_mind_map_path: None, recent_files: recent };
    let manager = MindMapManager::with_loaded_mind_map(state, create_empty_mind_map());
    let list = manager.get_recent_files();
    let expected: Vec<String> = (0..10).map(|i| format!("f{}.json", i)).collect();
    assert_eq!(list, expected);
    assert_eq!(manager.get_current_path(), "");
    assert!(manager.get_last_saved_at().is_some());
}

#[test]
fn cache_hands_back_what_was_written_last() {
    let mut manager = MindMapManager::new_at(Timestamp::new(100, 0));
    let key = "Plan.json".to_string();
    assert!(manager.cached_mind_map(&key).is_none());
    manager.update_cache(key.clone(), document("Plan", "Plan.json", Timestamp::new(7, 0)));
    let mut second = document("Plan", "Plan.json", Timestamp::new(7, 0));
    second.nodes = Value::Array(vec![node("n1")]);
    manager.update_cache(key.clone(), second);
    let found = manager.cached_mind_map(&key).unwrap();
    assert_eq!(found.name, "Plan");
    assert_eq!(found.nodes, Value::Array(vec![node("n1")]));
    assert!(manager.cached_mind_map(&"other.json".to_string()).is_none());
    assert_eq!(manager.cached_paths(), vec![key.clone()]);
    assert!(manager.cache_entry_count() <= 1);
}

#[test]
fn cache_forgets_what_was_invalidated() {
    let mut manager = MindMapManager::new_at(Timestamp::new(100, 0));
    let a = "a.json".to_string();
    let b = "b.json".to_string();
    manager.update_cache(a.clone(), document("A", "a.json", Timestamp::new(7, 0)));
    manager.update_cache(b.clone(), document("B", "b.json", Timestamp::new(7, 0)));
    manager.invalidate_cached(&a);
    assert!(manager.cached_mind_map(&a).is_none());
    assert_eq!(manager.cached_mind_map(&b).unwrap().name, "B");
    assert_eq!(manager.cached_paths(), vec![b]);
}

#[test]
fn cache_does_not_change_the_open_document() {
    let mut manager = MindMapManager::new_at(Timestamp::new(100, 0));
    manager.update_cache("a.json".to_string(), document("A", "a.json", Timestamp::new(7, 0)));
    assert_eq!(manager.get_active_mind_map().name, "Untitled");
    assert_eq!(manager.get_current_path(), "");
    assert!(manager.is_saved());
}

#[test]
fn cached_paths_lists_each_file_once() {
    let mut manager = MindMapManager::new_at(Timestamp::new(100, 0));
    for round in 0..3 {
        for name in ["a.json", "b.json", "c.json"] {
            manager.update_cache(name.to_string(), document("D", name, Timestamp::new(round, 0)));
        }
    }
    let mut paths = manager.cached_paths();
    paths.sort();
    let mut once = paths.clone();
    once.dedup();
    assert_eq!(paths, once);
    for path in &paths {
        assert!(["a.json", "b.json", "c.json"].contains(&path.as_str()));
    }
}
