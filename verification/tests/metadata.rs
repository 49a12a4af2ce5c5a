use godot_livekit::metadata::{
    find_member_text, username_from_metadata, username_metadata, JsonMember, USERNAME_KEY,
};

fn member(key: &str, text: Option<&str>) -> JsonMember {
    JsonMember { key: key.to_string(), text: text.map(|t| t.to_string()) }
}

#[test]
fn username_is_read_from_an_object() {
    assert_eq!(username_from_metadata("{\"username\":\"alice\"}"), Some("alice".to_string()));
    assert_eq!(USERNAME_KEY, "username");
}

#[test]
fn username_is_found_among_other_members() {
    let text = "{ \"avatar\": 3, \"username\": \"bob\", \"tags\": [\"username\", \"x\"], \"nested\": {\"username\": \"inner\"} }";
    assert_eq!(username_from_metadata(text), Some("bob".to_string()));
}

#[test]
fn username_escapes_are_decoded() {
    assert_eq!(
        username_from_metadata("{\"username\":\"Al\\u0069ce \\\"A\\\"\\n\"}"),
        Some("Alice \"A\"\n".to_string())
    );
}

#[test]
fn empty_username_is_a_username() {
    assert_eq!(username_from_metadata("{\"username\":\"\"}"), Some(String::new()));
}

#[test]
fn the_last_of_repeated_keys_counts() {
    assert_eq!(
        username_from_metadata("{\"username\":\"first\",\"username\":\"second\"}"),
        Some("second".to_string())
    );
    assert_eq!(username_from_metadata("{\"username\":\"first\",\"username\":2}"), None);
}

#[test]
fn empty_metadata_has_no_username() {
    assert_eq!(username_from_metadata(""), None);
}

#[test]
fn malformed_metadata_has_no_username() {
    assert_eq!(username_from_metadata("not json"), None);
    assert_eq!(username_from_metadata("{\"username\":\"alice\""), None);
    assert_eq!(username_from_metadata("{\"username\":\"alice\"} trailing"), None);
    assert_eq!(username_from_metadata("{username:\"alice\"}"), None);
    assert_eq!(username_from_metadata("   "), None);
}

#[test]
fn metadata_that_is_no_object_has_no_username() {
    assert_eq!(username_from_metadata("\"username\""), None);
    assert_eq!(username_from_metadata("[\"username\", \"alice\"]"), None);
    assert_eq!(username_from_metadata("[{\"username\":\"alice\"}]"), None);
    assert_eq!(username_from_metadata("42"), None);
    assert_eq!(username_from_metadata("null"), None);
    assert_eq!(username_from_metadata("true"), None);
}

#[test]
fn a_missing_username_is_none() {
    assert_eq!(username_from_metadata("{}"), None);
    assert_eq!(username_from_metadata("{\"name\":\"alice\"}"), None);
    assert_eq!(username_from_metadata("{\"Username\":\"alice\"}"), None);
    assert_eq!(username_from_metadata("{\"user\":{\"username\":\"alice\"}}"), None);
}

#[test]
fn a_username_that_is_no_string_is_none() {
    assert_eq!(username_from_metadata("{\"username\":7}"), None);
    assert_eq!(username_from_metadata("{\"username\":null}"), None);
    assert_eq!(username_from_metadata("{\"username\":true}"), None);
    assert_eq!(username_from_metadata("{\"username\":[\"alice\"]}"), None);
    assert_eq!(username_from_metadata("{\"username\":{\"value\":\"alice\"}}"), None);
}

#[test]
fn find_member_text_takes_the_first_match() {
    let members = vec![
        member("a", Some("1")),
        member("b", Some("2")),
        member("b", Some("3")),
        member("c", None),
    ];
    assert_eq!(find_member_text(&members, "a"), Some("1".to_string()));
    assert_eq!(find_member_text(&members, "b"), Some("2".to_string()));
    assert_eq!(find_member_text(&members, "c"), None);
    assert_eq!(find_member_text(&members, "d"), None);
    assert_eq!(find_member_text(&members, ""), None);
    assert_eq!(find_member_text(&vec![], "a"), None);
}

#[test]
fn find_member_text_stops_at_a_member_without_text() {
    let members = vec![member("k", None), member("k", Some("later"))];
    assert_eq!(find_member_text(&members, "k"), None);
}

#[test]
fn username_metadata_is_a_compact_object() {
    assert_eq!(username_metadata("alice"), "{\"username\":\"alice\"}");
    assert_eq!(username_metadata(""), "{\"username\":\"\"}");
}

#[test]
fn username_metadata_escapes_what_json_asks_for() {
    assert_eq!(username_metadata("a\"b"), "{\"username\":\"a\\\"b\"}");
    assert_eq!(username_metadata("a\\b"), "{\"username\":\"a\\\\b\"}");
    assert_eq!(username_metadata("line\nbreak\ttab"), "{\"username\":\"line\\nbreak\\ttab\"}");
    assert_eq!(username_metadata("\u{1}"), "{\"username\":\"\\u0001\"}");
    assert_eq!(username_metadata("Zoë ☺"), "{\"username\":\"Zoë ☺\"}");
}

#[test]
fn username_metadata_is_what_the_json_library_writes_for_the_object() {
    for name in ["alice", "", "a\"b\\c", "tab\t\r\n", "Zoë ☺", "{\"username\":\"x\"}"] {
        let mut object = serde_json::Map::new();
        object.insert("username".to_string(), serde_json::Value::String(name.to_string()));
        assert_eq!(username_metadata(name), serde_json::Value::Object(object).to_string());
    }
}

#[test]
fn written_metadata_reads_back() {
    for name in ["alice", "", "a\"b\\c", "tab\t\r\n", "Zoë ☺", "{\"username\":\"x\"}", "\u{0}\u{7f}"] {
        assert_eq!(username_from_metadata(&username_metadata(name)), Some(name.to_string()));
    }
}
