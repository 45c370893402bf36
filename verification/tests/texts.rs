use ai_mind_map::naming::decimal;
use ai_mind_map::ollama::{server_text, status_text, OllamaConfig, OllamaModel, OllamaStatus};
use ai_mind_map::session::{mind_map_from_record, Stored};
use ai_mind_map::timestamp::Timestamp;
use serde_json::Value;

#[test]
fn decimal_writes_numbers_as_to_string_does() {
    assert_eq!(decimal(0), "0");
    assert_eq!(decimal(7), "7");
    assert_eq!(decimal(10), "10");
    assert_eq!(decimal(11434), "11434");
    assert_eq!(decimal(9_007_199_254_740_993), "9007199254740993");
    assert_eq!(decimal(u64::MAX), u64::MAX.to_string());
    for n in [1u64, 9, 99, 100, 101, 65535, 1_000_000] {
        assert_eq!(decimal(n), n.to_string());
    }
}

#[test]
fn server_text_names_address_and_port() {
    assert_eq!(server_text(&OllamaConfig::default()), "Server: http://localhost:11434");
    let config = OllamaConfig { domain: "http://box".to_string(), port: 0 };
    assert_eq!(server_text(&config), "Server: http://box:0");
}

#[test]
fn status_text_counts_the_models() {
    let model = |name: &str| OllamaModel { name: name.to_string(), size: 1, modified_at: String::new() };
    let up = OllamaStatus::from_check(Ok(vec![model("a"), model("b"), model("c")]), Timestamp::new(0, 0));
    assert_eq!(status_text(&up), "Status: Available (3 models)");
    let none = OllamaStatus::from_check(Ok(vec![]), Timestamp::new(0, 0));
    assert_eq!(status_text(&none), "Status: Available (0 models)");
    let down = OllamaStatus::from_check(Err("x".to_string()), Timestamp::new(0, 0));
    assert_eq!(status_text(&down), "Status: Unavailable");
}

#[test]
fn mind_map_from_record_reads_the_dates() {
    let read = mind_map_from_record(
        3,
        "Plan".to_string(),
        "d".to_string(),
        "Plan.json".to_string(),
        Value::Array(vec![Value::from(1)]),
        Value::Array(vec![]),
        "2015-05-15T00:00:00Z",
        "2015-05-15T01:00:00.5+01:00",
    );
    match read {
        Stored::Found(mind_map) => {
            assert_eq!(mind_map.id, 3);
            assert_eq!(mind_map.name, "Plan");
            assert_eq!(mind_map.description, "d");
            assert_eq!(mind_map.file_name, "Plan.json");
            assert_eq!(mind_map.nodes, Value::Array(vec![Value::from(1)]));
            assert_eq!(mind_map.edges, Value::Array(vec![]));
            assert_eq!(mind_map.created_at, Timestamp::new(1_431_648_000, 0));
            assert_eq!(mind_map.updated_at, Timestamp::new(1_431_648_000, 500_000_000));
        }
        other => panic!("not found: {:?}", other),
    }
}

#[test]
fn mind_map_from_record_refuses_a_date_that_is_no_date() {
    for (created_at, updated_at) in [
        ("yesterday", "2015-05-15T00:00:00Z"),
        ("2015-05-15T00:00:00Z", ""),
        ("", ""),
    ] {
        let read = mind_map_from_record(
            0,
            String::new(),
            String::new(),
            String::new(),
            Value::Null,
            Value::Null,
            created_at,
            updated_at,
        );
        assert!(matches!(read, Stored::Malformed));
    }
}
