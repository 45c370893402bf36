use ai_mind_map::error::ErrorKind;
use ai_mind_map::files::load_txt_file;
use ai_mind_map::naming::{derive_file_name, is_whitespace_char, window_title};

#[test]
fn derive_file_name_appends_the_suffix() {
    assert_eq!(derive_file_name("Plan"), "Plan.json");
}

#[test]
fn derive_file_name_replaces_each_space() {
    assert_eq!(derive_file_name("My big  plan"), "My_big__plan.json");
    assert_eq!(derive_file_name(" "), "_.json");
}

#[test]
fn derive_file_name_of_an_empty_name() {
    assert_eq!(derive_file_name(""), ".json");
}

#[test]
fn derive_file_name_keeps_other_characters() {
    assert_eq!(derive_file_name("Pläne-2024_✓"), "Pläne-2024_✓.json");
}

#[test]
fn derive_file_name_replaces_every_white_space_character() {
    assert_eq!(derive_file_name("\tPläne\n2024 ✓\r"), "_Pläne_2024_✓_.json");
    assert_eq!(derive_file_name("a\u{a0}b\u{2003}c\u{3000}d\u{85}e"), "a_b_c_d_e.json");
    assert_eq!(derive_file_name("a\u{200b}b"), "a\u{200b}b.json");
}

#[test]
fn white_space_is_what_std_calls_white_space() {
    for n in 0..=0x10FFFFu32 {
        if let Some(c) = char::from_u32(n) {
            assert_eq!(is_whitespace_char(c), c.is_whitespace(), "U+{:04X}", n);
        }
    }
}

#[test]
fn window_title_names_the_document() {
    assert_eq!(window_title("Plan"), "AI Mind Map - Plan");
    assert_eq!(window_title("Untitled"), "AI Mind Map - Untitled");
    assert_eq!(window_title(""), "AI Mind Map - Untitled");
}

#[test]
fn each_error_kind_has_its_message() {
    assert_eq!(ErrorKind::LockFailure.message(), "Failed to lock state");
    assert_eq!(ErrorKind::NotFound.message(), "File not found");
    assert_eq!(ErrorKind::ReadError.message(), "Failed to read file");
    assert_eq!(ErrorKind::WriteError.message(), "Failed to write file");
    assert_eq!(ErrorKind::SerializeError.message(), "Failed to serialize mind map");
    assert_eq!(ErrorKind::DeserializeError.message(), "Failed to deserialize mind map");
    assert_eq!(ErrorKind::NoActiveDocument.message(), "No active mind map");
}

#[test]
fn load_txt_file_guesses_the_media_type_by_extension() {
    let response = load_txt_file("notes.txt", "hello".to_string());
    assert_eq!(response.content, "hello");
    assert_eq!(response.mime_type, "text/plain");
    let response = load_txt_file("map.json", "{}".to_string());
    assert_eq!(response.mime_type, "application/json");
    let response = load_txt_file("page.HTML", String::new());
    assert_eq!(response.mime_type, "text/html");
}

#[test]
fn load_txt_file_falls_back_to_plain_text() {
    assert_eq!(load_txt_file("README", String::new()).mime_type, "text/plain");
    assert_eq!(load_txt_file("x.unknown-extension", String::new()).mime_type, "text/plain");
}
