use chat::{ChatFile, CreateMessage, ErrorKind, ListMessages, MessageStep};

#[test]
fn page_bounds_clamp_the_limit() {
    assert_eq!(ListMessages { limit: 6, last_id: None }.query_bounds(), (i64::MAX, 6));
    assert_eq!(ListMessages { limit: 0, last_id: Some(10) }.query_bounds(), (10, 1));
    assert_eq!(ListMessages { limit: 500, last_id: Some(10) }.query_bounds(), (10, 100));
    assert_eq!(ListMessages { limit: 100, last_id: Some(u64::MAX) }.query_bounds(), (-1, 100));
}

#[test]
fn empty_message_is_refused() {
    let m = CreateMessage { content: String::new(), files: vec![] };
    match m.next_step("/tmp", 0) {
        MessageStep::Fail(e) => {
            assert_eq!(e.kind(), ErrorKind::CreateMessageError);
            assert_eq!(e.message(), "Create message error: content is empty");
        }
        other => panic!("unexpected {:?}", other),
    }
}

#[test]
fn message_without_files_is_stored() {
    let m = CreateMessage { content: "Hello, world!".to_string(), files: vec![] };
    assert!(matches!(m.next_step("/tmp", 0), MessageStep::Store));
}

#[test]
fn message_with_unreadable_file_url_is_refused() {
    let m = CreateMessage { content: "Hello, world!".to_string(), files: vec!["1".to_string()] };
    match m.next_step("/tmp", 0) {
        MessageStep::Fail(e) => assert_eq!(e.message(), "Chat file error: Invalid chat file path: 1"),
        other => panic!("unexpected {:?}", other),
    }
}

#[test]
fn message_files_are_checked_in_turn() {
    let file = ChatFile::new(1, "example.txt", b"hello world");
    let url = file.url();
    let m = CreateMessage { content: "Hello".to_string(), files: vec![url.clone(), "bad".to_string()] };
    match m.next_step("/data", 0) {
        MessageStep::CheckFile { index, path } => {
            assert_eq!(index, 0);
            assert_eq!(path, file.path("/data"));
        }
        other => panic!("unexpected {:?}", other),
    }
    assert!(matches!(m.next_step("/data", 1), MessageStep::Fail(_)));
    let e = m.missing_file(0);
    assert_eq!(e.detail(), &format!("file {} does not exist", url));
    let done = CreateMessage { content: "Hello".to_string(), files: vec![url] };
    assert!(matches!(done.next_step("/data", 1), MessageStep::Store));
}

#[test]
fn storage_paths_of_message_files() {
    let ok = CreateMessage { content: "x".to_string(), files: vec!["/files/1/abc/def/g.txt".to_string(), "junk".to_string()] };
    assert!(ok.file_has_storage_path(0));
    assert!(ok.file_has_storage_path(1));
    let short = CreateMessage { content: "x".to_string(), files: vec!["/files/1/a/b/c.txt".to_string()] };
    assert!(!short.file_has_storage_path(0));
}

#[test]
fn empty_content_is_refused_whatever_the_files() {
    let m = CreateMessage { content: String::new(), files: vec!["/files/1/a/b/c.txt".to_string(), "1".to_string()] };
    match m.next_step("/tmp/chat", 0) {
        MessageStep::Fail(e) => assert_eq!(e.detail(), "content is empty"),
        other => panic!("expected a failure, got {:?}", other),
    }
}
