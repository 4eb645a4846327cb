use chat::models::{get_affected_chat_user_ids, notify_channel};
use chat::{AppEvent, Chat, ChatType, Message, Notification, NotifyChannel};
use std::collections::HashSet;

fn chat(members: Vec<i64>) -> Chat {
    Chat {
        id: 1,
        ws_id: 1,
        name: None,
        chat_type: ChatType::Group,
        members,
        created_at: String::new(),
    }
}

fn set(v: &[u64]) -> HashSet<u64> {
    v.iter().copied().collect()
}

#[test]
fn affected_users_of_a_chat_change() {
    let old = chat(vec![1, 2, 3]);
    let new = chat(vec![3, 4]);
    assert_eq!(get_affected_chat_user_ids(Some(&old), Some(&new)), set(&[1, 2, 3, 4]));
    assert_eq!(get_affected_chat_user_ids(Some(&old), None), set(&[1, 2, 3]));
    assert_eq!(get_affected_chat_user_ids(None, Some(&new)), set(&[3, 4]));
    assert!(get_affected_chat_user_ids(None, None).is_empty());
    assert_eq!(get_affected_chat_user_ids(None, Some(&chat(vec![-1]))), set(&[u64::MAX]));
}

#[test]
fn channels() {
    assert_eq!(notify_channel("chat_updated").unwrap(), NotifyChannel::ChatUpdated);
    assert_eq!(notify_channel("chat_message_created").unwrap(), NotifyChannel::ChatMessageCreated);
    assert_eq!(notify_channel("other").unwrap_err(), "Unknown notification type");
}

#[test]
fn chat_change_events() {
    let n = Notification::from_chat_updated("INSERT", None, Some(chat(vec![1, 2]))).unwrap();
    assert_eq!(n.event, AppEvent::NewChat(chat(vec![1, 2])));
    assert_eq!(n.event.name(), "NewChat");
    assert_eq!(n.user_ids, set(&[1, 2]));
    let n = Notification::from_chat_updated("UPDATE", Some(chat(vec![1, 2])), Some(chat(vec![2, 3]))).unwrap();
    assert_eq!(n.event.name(), "AddToChat");
    assert_eq!(n.user_ids, set(&[1, 2, 3]));
    let n = Notification::from_chat_updated("DELETE", Some(chat(vec![1, 2])), None).unwrap();
    assert_eq!(n.event.name(), "RemoveFromChat");
    assert_eq!(
        Notification::from_chat_updated("TRUNCATE", None, None).unwrap_err(),
        "Invalid chat_updated operation"
    );
}

#[test]
fn message_event_goes_to_members() {
    let m = Message {
        id: 1,
        chat_id: 1,
        sender_id: 1,
        content: "hi".to_string(),
        files: vec![],
        created_at: String::new(),
    };
    let n = Notification::from_message_created(m.clone(), &vec![1, 2, 2]);
    assert_eq!(n.event, AppEvent::NewMessage(m));
    assert_eq!(n.event.name(), "NewMessage");
    assert_eq!(n.user_ids, set(&[1, 2]));
}
