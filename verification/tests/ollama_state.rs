use ai_mind_map::ollama::{
    chat_gate, copy_models, note_availability, text_of, ChatMessage, ChatRole, OllamaConfig,
    OllamaModel, OllamaStatus,
};
use ai_mind_map::state::{load_app_state, AppConfigSnapshot, AppState};
use ai_mind_map::timestamp::Timestamp;

fn model(name: &str) -> OllamaModel {
    OllamaModel { name: name.to_string(), size: 7, modified_at: "2024-01-01T00:00:00Z".to_string() }
}

#[test]
fn default_config_is_the_local_server() {
    let config = OllamaConfig::default();
    assert_eq!(config.domain, "http://localhost");
    assert_eq!(config.port, 11434);
    assert!(config == config.clone());
    assert!(config != OllamaConfig { domain: "http://localhost".to_string(), port: 1 });
    assert!(config != OllamaConfig { domain: "http://elsewhere".to_string(), port: 11434 });
    assert_eq!(AppConfigSnapshot::default().ollama, config);
}

#[test]
fn status_before_any_check() {
    let status = OllamaStatus::unchecked_at(Timestamp::new(1_431_648_000, 0));
    assert!(!status.is_available);
    assert!(status.models.is_empty());
    assert_eq!(status.last_checked, "2015-05-15T00:00:00+00:00");
    assert_eq!(status.error_message, None);
    let by_clock = OllamaStatus::default();
    assert!(!by_clock.is_available);
    assert!(Timestamp::parse_rfc3339(&by_clock.last_checked).is_some());
}

#[test]
fn text_of_is_empty_where_the_instant_has_no_text() {
    assert_eq!(text_of(Timestamp::new(0, 0)), "1970-01-01T00:00:00+00:00");
    assert_eq!(text_of(Timestamp::new(i64::MAX, 0)), "");
}

#[test]
fn status_after_a_check() {
    let status = OllamaStatus::from_check(Ok(vec![model("a"), model("b")]), Timestamp::new(0, 0));
    assert!(status.is_available);
    assert_eq!(status.models.len(), 2);
    assert_eq!(status.models[1].name, "b");
    assert_eq!(status.error_message, None);
    assert_eq!(status.last_checked, "1970-01-01T00:00:00+00:00");
    let status = OllamaStatus::from_check(Err("refused".to_string()), Timestamp::new(0, 0));
    assert!(!status.is_available);
    assert!(status.models.is_empty());
    assert_eq!(status.error_message, Some("refused".to_string()));
    let copy = status.clone();
    assert_eq!(copy.error_message, Some("refused".to_string()));
    assert_eq!(copy.last_checked, status.last_checked);
}

#[test]
fn copy_models_copies_each_model() {
    let copy = copy_models(&vec![model("a"), model("b")]);
    assert_eq!(copy.len(), 2);
    assert_eq!(copy[0].name, "a");
    assert_eq!(copy[1].size, 7);
    assert_eq!(copy[1].modified_at, "2024-01-01T00:00:00Z");
}

#[test]
fn chat_roles() {
    let message = |role: &str| ChatMessage { role: role.to_string(), content: "hi".to_string() };
    assert_eq!(message("user").chat_role(), ChatRole::User);
    assert_eq!(message("assistant").chat_role(), ChatRole::Assistant);
    assert_eq!(message("system").chat_role(), ChatRole::System);
    assert_eq!(message("tool").chat_role(), ChatRole::User);
    assert_eq!(message("").chat_role(), ChatRole::User);
    let reply = ChatMessage::reply("answer".to_string());
    assert_eq!(reply.role, "assistant");
    assert_eq!(reply.content, "answer");
    assert_eq!(reply.clone().content, "answer");
}

#[test]
fn chat_needs_an_available_server() {
    let down = OllamaStatus::unchecked_at(Timestamp::new(0, 0));
    assert_eq!(
        chat_gate(&down),
        Err("Ollama server is not available. Please check your connection settings.".to_string())
    );
    let up = OllamaStatus::from_check(Ok(vec![]), Timestamp::new(0, 0));
    assert_eq!(chat_gate(&up), Ok(()));
}

#[test]
fn app_state_starts_with_defaults() {
    let state = AppState::new();
    assert_eq!(state.get_ollama_config(), OllamaConfig::default());
    let status = state.get_ollama_status();
    assert!(!status.is_available);
    assert!(status.models.is_empty());
    assert_eq!(status.error_message, None);
    assert_eq!(AppState::default().get_ollama_config(), OllamaConfig::default());
}

#[test]
fn app_state_from_snapshot_keeps_the_settings_only() {
    let config = OllamaConfig { domain: "http://box".to_string(), port: 8080 };
    let state = AppState::from_snapshot(AppConfigSnapshot { ollama: config.clone() });
    assert_eq!(state.get_ollama_config(), config);
    assert!(!state.get_ollama_status().is_available);
    assert_eq!(state.snapshot().ollama, config);
    assert_eq!(state.snapshot().clone().ollama, config);
}

#[test]
fn app_state_setters_replace_one_part() {
    let mut state = AppState::new();
    let config = OllamaConfig { domain: "http://box".to_string(), port: 8080 };
    state.set_ollama_status(OllamaStatus::from_check(Ok(vec![model("a")]), Timestamp::new(0, 0)));
    let snapshot = state.set_ollama_config(config.clone());
    assert_eq!(snapshot.ollama, config);
    assert_eq!(state.get_ollama_config(), config);
    let status = state.get_ollama_status();
    assert!(status.is_available);
    assert_eq!(status.models[0].name, "a");
    state.set_ollama_status(OllamaStatus::from_check(Err("down".to_string()), Timestamp::new(0, 0)));
    assert_eq!(state.get_ollama_config(), config);
    assert_eq!(state.get_ollama_status().error_message, Some("down".to_string()));
}

#[test]
fn load_app_state_uses_what_was_stored() {
    let config = OllamaConfig { domain: "http://box".to_string(), port: 8080 };
    let state = load_app_state(Some(AppConfigSnapshot { ollama: config.clone() }));
    assert_eq!(state.get_ollama_config(), config);
    let state = load_app_state(None);
    assert_eq!(state.get_ollama_config(), OllamaConfig::default());
}

#[test]
fn availability_is_noted_when_it_changes() {
    let up = OllamaStatus::from_check(Ok(vec![]), Timestamp::new(0, 0));
    let down = OllamaStatus::from_check(Err("x".to_string()), Timestamp::new(0, 0));
    assert_eq!(note_availability(None, &up), (true, Some(true)));
    assert_eq!(note_availability(None, &down), (true, Some(false)));
    assert_eq!(note_availability(Some(true), &up), (false, Some(true)));
    assert_eq!(note_availability(Some(true), &down), (true, Some(false)));
    assert_eq!(note_availability(Some(false), &up), (true, Some(true)));
    assert_eq!(note_availability(Some(false), &down), (false, Some(false)));
}
