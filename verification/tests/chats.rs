use chat::{ChatStep, ChatType, CreateChat, ErrorKind, UpdateChat};

fn stored(step: ChatStep) -> Option<ChatType> {
    match step {
        ChatStep::Store(t) => t,
        other => panic!("expected a store step, got {:?}", other),
    }
}

fn failure(step: ChatStep) -> (ErrorKind, String) {
    match step {
        ChatStep::Fail(e) => (e.kind(), e.detail().clone()),
        other => panic!("expected a failure, got {:?}", other),
    }
}

#[test]
fn create_chat_new_reads_an_empty_name_as_none() {
    let c = CreateChat::new("", &[1, 2], false);
    assert!(c.name.is_none());
    assert_eq!(c.members, vec![1, 2]);
    let c = CreateChat::new("test", &[1, 2, 3], true);
    assert_eq!(c.name.as_deref(), Some("test"));
    assert!(c.public);
}

#[test]
fn create_single_chat_type() {
    let c = CreateChat::new("", &[1, 2], false);
    assert!(matches!(c.next_step(None), ChatStep::FetchMembers));
    assert_eq!(stored(c.next_step(Some(2))), Some(ChatType::Single));
}

#[test]
fn create_group_and_channel_types() {
    let c = CreateChat::new("", &[1, 2, 3], true);
    assert_eq!(stored(c.next_step(Some(3))), Some(ChatType::Group));
    let c = CreateChat::new("test", &[1, 2, 3], true);
    assert_eq!(stored(c.next_step(Some(3))), Some(ChatType::PublicChannel));
    let c = CreateChat::new("test", &[1, 2], false);
    assert_eq!(stored(c.next_step(Some(2))), Some(ChatType::PrivateChannel));
}

#[test]
fn create_chat_member_rules() {
    let c = CreateChat::new("", &[1], false);
    assert_eq!(
        failure(c.next_step(None)),
        (ErrorKind::CreateChatError, "Group chat must have at least 2 members".to_string())
    );
    let c = CreateChat::new("", &[1, 2, 3, 4, 5, 6, 7, 8, 9], false);
    assert_eq!(
        failure(c.next_step(None)),
        (ErrorKind::CreateChatError, "Group chat with more than 8 members must have a name".to_string())
    );
    let c = CreateChat::new("big", &[1, 2, 3, 4, 5, 6, 7, 8, 9], false);
    assert!(matches!(c.next_step(None), ChatStep::FetchMembers));
    let c = CreateChat::new("", &[1, 2, 99], false);
    assert_eq!(
        failure(c.next_step(Some(2))),
        (ErrorKind::CreateChatError, "Some members do not exist".to_string())
    );
}

#[test]
fn update_chat_steps() {
    let u = UpdateChat { name: None, members: None, public: None };
    assert!(matches!(u.next_step(None, None), ChatStep::FetchChat));
    assert_eq!(stored(u.next_step(Some(false), None)), None);
    let u = UpdateChat { name: Some("n".to_string()), members: None, public: Some(false) };
    assert_eq!(stored(u.next_step(Some(false), None)), Some(ChatType::PrivateChannel));
    let u = UpdateChat { name: None, members: Some(vec![1, 2]), public: Some(true) };
    assert!(matches!(u.next_step(Some(false), None), ChatStep::FetchMembers));
    assert_eq!(stored(u.next_step(Some(false), Some(2))), Some(ChatType::Single));
    let u = UpdateChat { name: Some("n".to_string()), members: Some(vec![1, 2, 3]), public: None };
    assert_eq!(stored(u.next_step(Some(true), Some(3))), None);
    let u = UpdateChat { name: Some("n".to_string()), members: Some(vec![1, 2, 3]), public: Some(true) };
    assert_eq!(stored(u.next_step(Some(false), Some(3))), Some(ChatType::PublicChannel));
}

#[test]
fn update_chat_keeps_channels_named() {
    // Visibility alone does not make an unnamed chat a channel.
    let u = UpdateChat { name: None, members: None, public: Some(true) };
    assert_eq!(stored(u.next_step(Some(false), None)), None);
    // ...but it does change the visibility of a named one.
    assert_eq!(stored(u.next_step(Some(true), None)), Some(ChatType::PublicChannel));
    // New members of a named chat keep it a channel.
    let u = UpdateChat { name: None, members: Some(vec![1, 2]), public: None };
    assert_eq!(stored(u.next_step(Some(true), Some(2))), None);
    let u = UpdateChat { name: None, members: Some(vec![1, 2, 3]), public: Some(false) };
    assert_eq!(stored(u.next_step(Some(true), Some(3))), Some(ChatType::PrivateChannel));
    // A chat that gets its first name becomes a channel.
    let u = UpdateChat { name: Some("team".to_string()), members: None, public: None };
    assert_eq!(stored(u.next_step(Some(false), None)), Some(ChatType::PrivateChannel));
}

#[test]
fn update_chat_member_rules() {
    let u = UpdateChat { name: None, members: Some(vec![1]), public: None };
    assert_eq!(
        failure(u.next_step(Some(false), None)),
        (ErrorKind::UpdateChatError, "Group chat must have at least 2 members".to_string())
    );
    let u = UpdateChat { name: None, members: Some(vec![1, 2, 3]), public: None };
    assert_eq!(
        failure(u.next_step(Some(false), Some(1))),
        (ErrorKind::UpdateChatError, "Some members do not exist".to_string())
    );
    let u = UpdateChat { name: None, members: Some(vec![1, 2, 3, 4, 5, 6, 7, 8, 9]), public: None };
    assert_eq!(
        failure(u.next_step(Some(false), None)),
        (ErrorKind::UpdateChatError, "Group chat with more than 8 members must have a name".to_string())
    );
    assert_eq!(
        failure(u.next_step(Some(true), None)),
        (ErrorKind::UpdateChatError, "Group chat with more than 8 members must have a name".to_string())
    );
    let u = UpdateChat { name: Some("big".to_string()), members: Some(vec![1, 2, 3, 4, 5, 6, 7, 8, 9]), public: None };
    assert!(matches!(u.next_step(Some(false), None), ChatStep::FetchMembers));
}

#[test]
fn update_chat_checks_members_before_the_stored_chat() {
    let u = UpdateChat { name: None, members: Some(vec![1]), public: None };
    assert_eq!(
        failure(u.next_step(None, None)),
        (ErrorKind::UpdateChatError, "Group chat must have at least 2 members".to_string())
    );
    let u = UpdateChat { name: None, members: Some(vec![1, 2]), public: None };
    assert!(matches!(u.next_step(None, None), ChatStep::FetchMembers));
    assert_eq!(
        failure(u.next_step(None, Some(1))),
        (ErrorKind::UpdateChatError, "Some members do not exist".to_string())
    );
    assert!(matches!(u.next_step(None, Some(2)), ChatStep::FetchChat));
    assert_eq!(stored(u.next_step(Some(false), Some(2))), Some(ChatType::Single));
}
