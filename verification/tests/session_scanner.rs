//! Discovery of agent sessions.

use serde_json::Value;
use voice_sessions::session_scanner::{
    claude_dir, config_dir_name, is_session_file, scan_all_sync, scan_claude_sessions, CLIAgent, ClaudeDir,
    ClaudeSessionFile, MemberText, SessionEntry, SessionMessage, Timestamp,
};

fn text_member(value: &Value, key: &str) -> Option<String> {
    value.get(key).and_then(Value::as_str).map(str::to_string)
}

fn message_list(value: &Value, key: &str) -> Vec<SessionMessage> {
    match value.get(key).and_then(Value::as_array) {
        Some(messages) => messages.iter().map(SessionMessage::from_json).collect(),
        None => Vec::new(),
    }
}

fn file_from(json: &str) -> ClaudeSessionFile {
    let value: Value = serde_json::from_str(json).unwrap();
    ClaudeSessionFile {
        session_id: text_member(&value, "session_id"),
        name: text_member(&value, "name"),
        title: text_member(&value, "title"),
        updated_at: text_member(&value, "updated_at"),
        project: text_member(&value, "project"),
        messages: message_list(&value, "messages"),
        history: message_list(&value, "history"),
    }
}

fn entry(id: &str, updated_at: &str) -> SessionEntry {
    SessionEntry {
        stem: None,
        file: ClaudeSessionFile {
            session_id: Some(id.to_string()),
            name: Some(format!("name of {id}")),
            title: None,
            updated_at: Some(updated_at.to_string()),
            project: None,
            messages: Vec::new(),
            history: Vec::new(),
        },
        read_at: Timestamp { seconds: 7, nanos: 8 },
    }
}

#[test]
fn the_environment_is_first_choice() {
    let dir = claude_dir(Some("/tmp/configured"), Some("/home/user"));
    assert!(matches!(dir, Some(ClaudeDir::Configured("/tmp/configured"))));
}

#[test]
fn test_claude_session_deserialize() {
    let json = r#"{
        "session_id": "test-123",
        "name": "Fix login bug",
        "updated_at": "2025-06-01T10:00:00Z",
        "project": "/home/user/project",
        "messages": [
            {"role": "user", "content": "Fix the login bug please"},
            {"role": "assistant", "content": "I've fixed it"}
        ]
    }"#;

    let file = file_from(json);
    assert_eq!(file.session_id, Some("test-123".to_string()));
    assert_eq!(file.name, Some("Fix login bug".to_string()));
    assert_eq!(file.project, Some("/home/user/project".to_string()));
    assert_eq!(file.messages.len(), 2);
}

#[test]
fn test_claude_session_deserialize_without_name() {
    let json = r#"{
        "session_id": "test-456",
        "updated_at": "2025-06-01T10:00:00Z",
        "messages": [
            {"role": "user", "content": "Refactor the database layer"}
        ]
    }"#;

    let file = file_from(json);
    assert_eq!(file.session_id, Some("test-456".to_string()));
    assert!(file.name.is_none());
}

#[test]
fn test_claude_session_title_fallback_from_messages() {
    let json = r#"{
        "session_id": "test-789",
        "updated_at": "2025-06-01T10:00:00Z",
        "messages": [
            {"role": "user", "content": "Hello, can you help me debug this?"}
        ]
    }"#;

    let title = Some(file_from(json).session_title("untitled"));
    assert_eq!(title, Some("Hello, can you help me debug this?".to_string()));
}

#[test]
fn the_home_directory_is_second_choice() {
    assert!(matches!(claude_dir(None::<&str>, Some("/home/u")), Some(ClaudeDir::InHome("/home/u"))));
    assert!(claude_dir(None::<&str>, None::<&str>).is_none());
    assert_eq!(config_dir_name("agent"), ".agent");
}

#[test]
fn members_of_messages_are_told_apart() {
    let value: Value = serde_json::from_str(r#"{"role": "user", "content": 5}"#).unwrap();
    let message = SessionMessage::from_json(&value);
    assert!(matches!(&message.role, MemberText::Text(role) if role == "user"));
    assert!(matches!(message.content, MemberText::NotText));
    assert!(matches!(message.text, MemberText::Missing));
    let no_object = SessionMessage::from_json(&Value::Bool(true));
    assert!(matches!(no_object.role, MemberText::Missing));
}

#[test]
fn names_come_before_titles_and_titles_before_messages() {
    let both = file_from(r#"{"name": "N", "title": "T", "messages": [{"role": "user", "content": "M"}]}"#);
    assert_eq!(both.session_title("U"), "N");
    let title = file_from(r#"{"title": "T", "messages": [{"role": "user", "content": "M"}]}"#);
    assert_eq!(title.session_title("U"), "T");
    let nothing = file_from("{}");
    assert_eq!(nothing.session_title("U"), "U");
    let empty_name = file_from(r#"{"name": "", "title": "T"}"#);
    assert_eq!(empty_name.session_title("U"), "");
}

#[test]
fn the_first_message_of_the_user_that_says_anything_counts() {
    let file = file_from(
        r#"{"messages": [
            {"role": "assistant", "content": "a"},
            {"role": "user", "content": ["b"], "text": "c"},
            {"content": "d"},
            {"role": "human", "text": "e"},
            {"role": "user", "content": "f"}
        ], "history": [{"role": "user", "content": "g"}]}"#,
    );
    assert_eq!(file.session_title("U"), "e");
}

#[test]
fn the_history_counts_where_there_are_no_messages() {
    let file = file_from(r#"{"history": [{"role": "user", "content": "g"}]}"#);
    assert_eq!(file.session_title("U"), "g");
    let silent = file_from(
        r#"{"messages": [{"role": "assistant", "content": "a"}],
            "history": [{"role": "user", "content": "g"}]}"#,
    );
    assert_eq!(silent.session_title("U"), "U");
}

fn titled_by_message(text: &str) -> String {
    let message = SessionMessage {
        role: MemberText::Text("user".to_string()),
        content: MemberText::Text(text.to_string()),
        text: MemberText::Missing,
    };
    let mut file = file_from("{}");
    file.messages.push(message);
    file.session_title("U")
}

#[test]
fn long_messages_are_shortened() {
    let eighty = "x".repeat(80);
    assert_eq!(titled_by_message(&eighty), eighty);
    assert_eq!(titled_by_message(&"x".repeat(81)), format!("{eighty}…"));
    assert_eq!(titled_by_message(&"é".repeat(80)), "é".repeat(80));
    assert_eq!(titled_by_message(&"语".repeat(100)), format!("{}…", "语".repeat(80)));
}

#[test]
fn sessions_carry_what_their_files_say() {
    let file = file_from(
        r#"{"session_id": "s1", "name": "N", "updated_at": "2025-06-01T10:00:00Z", "project": "/p"}"#,
    );
    let entry = SessionEntry { stem: Some("stem".to_string()), file, read_at: Timestamp { seconds: 1, nanos: 2 } };
    let session = entry.session("agent", "U").unwrap();
    assert_eq!(session.id, "agent:s1");
    assert_eq!(session.agent_type, CLIAgent::Claude);
    assert_eq!(session.title, "N");
    assert_eq!(session.session_id, "s1");
    assert_eq!(session.working_directory, Some("/p".to_string()));
    assert_eq!(session.last_updated, Timestamp { seconds: 1_748_772_000, nanos: 0 });
    assert_eq!(session.resume_command("agent"), "agent resume s1");
    let copy = session.clone();
    assert_eq!(copy.id, session.id);
    assert_eq!(copy.working_directory, session.working_directory);
}

#[test]
fn moments_are_read_in_their_time_zone() {
    let session = entry("a", "2025-06-01T12:00:00.25+02:00").session("agent", "U").unwrap();
    assert_eq!(session.last_updated, Timestamp { seconds: 1_748_772_000, nanos: 250_000_000 });
}

#[test]
fn sessions_without_a_moment_count_as_read() {
    let read_at = Timestamp { seconds: 7, nanos: 8 };
    assert_eq!(entry("a", "yesterday").session("agent", "U").unwrap().last_updated, read_at);
    let mut none = entry("a", "");
    none.file.updated_at = None;
    assert_eq!(none.session("agent", "U").unwrap().last_updated, read_at);
    let given = Timestamp { seconds: 9, nanos: 0 };
    assert_eq!(none.session_touched("agent", "U", Some(given)).unwrap().last_updated, given);
}

#[test]
fn entries_note_when_they_were_read() {
    let entry = SessionEntry::new(Some("stem".to_string()), file_from("{}"));
    assert_eq!(entry.stem, Some("stem".to_string()));
    assert!(entry.read_at.seconds > 1_700_000_000);
    assert_eq!(entry.session("agent", "U").unwrap().last_updated, entry.read_at);
}

#[test]
fn stems_stand_in_for_missing_identifiers() {
    let read_at = Timestamp { seconds: 0, nanos: 0 };
    let stem = SessionEntry { stem: Some("stem".to_string()), file: file_from("{}"), read_at };
    assert_eq!(stem.session("agent", "U").unwrap().id, "agent:stem");
    let none = SessionEntry { stem: None, file: file_from("{}"), read_at };
    assert!(none.session("agent", "U").is_none());
    let empty = SessionEntry {
        stem: Some("stem".to_string()),
        file: file_from(r#"{"session_id": ""}"#),
        read_at,
    };
    assert!(empty.session("agent", "U").is_none());
}

#[test]
fn session_files_end_in_json() {
    assert!(is_session_file(Some("json")));
    assert!(!is_session_file(Some("JSON")));
    assert!(!is_session_file(Some("jsonl")));
    assert!(!is_session_file(None));
}

#[test]
fn scans_list_the_last_touched_session_first() {
    let entries = vec![
        entry("old", "2025-06-01T10:00:00Z"),
        entry("", "2025-06-09T10:00:00Z"),
        entry("tie-1", "2025-06-03T10:00:00Z"),
        entry("new", "2025-06-04T10:00:00Z"),
        entry("tie-2", "2025-06-03T10:00:00Z"),
        entry("later", "2025-06-03T10:00:00.000000001Z"),
    ];
    let ids: Vec<String> =
        scan_claude_sessions(&entries, "agent", "U").into_iter().map(|session| session.session_id).collect();
    assert_eq!(ids, vec!["new", "later", "tie-1", "tie-2", "old"]);
}

#[test]
fn scans_list_at_most_fifty_sessions() {
    let entries: Vec<SessionEntry> = (0..60)
        .map(|minute| entry(&format!("s{minute}"), &format!("2025-06-01T10:{minute:02}:00Z")))
        .collect();
    assert_eq!(scan_claude_sessions(&entries, "agent", "U").len(), 60);
    let listed = scan_all_sync(Some(&entries), "agent", "U");
    assert_eq!(listed.len(), 50);
    assert_eq!(listed[0].session_id, "s59");
    assert_eq!(listed[49].session_id, "s10");
    assert!(scan_all_sync(None, "agent", "U").is_empty());
}

#[test]
fn ranked_files_are_listed_as_they_are() {
    let entries = vec![
        entry("c", "2025-06-03T10:00:00Z"),
        entry("b", "2025-06-02T10:00:00Z"),
        entry("a", "2025-06-02T10:00:00Z"),
    ];
    for _ in 0..2 {
        let ids: Vec<String> = scan_claude_sessions(&entries, "agent", "U")
            .into_iter()
            .map(|session| session.session_id)
            .collect();
        assert_eq!(ids, vec!["c", "b", "a"]);
    }
}
