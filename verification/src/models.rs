use vstd::prelude::*;
use std::collections::HashSet;
use vstd::string::StringExecFns;
use crate::text::str_eq;

verus! {

broadcast use vstd::std_specs::hash::group_hash_axioms;

/// A registered user. `created_at` is the RFC 3339 text of the moment of
/// registration; `password_hash` is only filled where a sign-in needs it.
#[derive(Debug, Clone, PartialEq)]
pub struct User {
    pub id: i64,
    pub ws_id: i64,
    pub fullname: String,
    pub email: String,
    pub password_hash: Option<String>,
    pub created_at: String,
}

/// A user as the members of a chat see them.
#[derive(Debug, Clone, PartialEq)]
pub struct ChatUser {
    pub id: i64,
    pub fullname: String,
    pub email: String,
}

/// A workspace; an `owner_id` of 0 means that nobody owns it yet.
#[derive(Debug, Clone, PartialEq)]
pub struct Workspace {
    pub id: i64,
    pub name: String,
    pub owner_id: i64,
    pub created_at: String,
}

/// The kinds of chat.
#[derive(Debug, Clone, Copy, PartialEq, Eq, Structural)]
pub enum ChatType {
    Single,
    Group,
    PrivateChannel,
    PublicChannel,
}

/// A chat of a workspace and the ids of its members.
#[derive(Debug, Clone, PartialEq)]
pub struct Chat {
    pub id: i64,
    pub ws_id: i64,
    pub name: Option<String>,
    pub chat_type: ChatType,
    pub members: Vec<i64>,
    pub created_at: String,
}

/// A message sent to a chat, with the URLs of the files it refers to.
#[derive(Debug, Clone, PartialEq)]
pub struct Message {
    pub id: i64,
    pub chat_id: i64,
    pub sender_id: i64,
    pub content: String,
    pub files: Vec<String>,
    pub created_at: String,
}

/// What the notification service pushes to the users concerned.
#[derive(Debug, Clone, PartialEq)]
pub enum AppEvent {
    NewChat(Chat),
    AddToChat(Chat),
    RemoveFromChat(Chat),
    NewMessage(Message),
}

/// The name under which an event is sent on the event stream.
pub open spec fn event_name_of(e: AppEvent) -> Seq<char> {
    match e {
        AppEvent::NewChat(_) => "NewChat"@,
        AppEvent::AddToChat(_) => "AddToChat"@,
        AppEvent::RemoveFromChat(_) => "RemoveFromChat"@,
        AppEvent::NewMessage(_) => "NewMessage"@,
    }
}

impl AppEvent {
    /// The name under which this event is sent on the event stream.
    pub fn name(&self) -> (n: &'static str)
        ensures
            n@ == event_name_of(*self),
    {
        match self {
            AppEvent::NewChat(_) => "NewChat",
            AppEvent::AddToChat(_) => "AddToChat",
            AppEvent::RemoveFromChat(_) => "RemoveFromChat",
            AppEvent::NewMessage(_) => "NewMessage",
        }
    }
}

/// The user ids of a list of members, each read as an unsigned number.
pub open spec fn member_ids(members: Seq<i64>) -> Set<u64> {
    Set::new(|u: u64| exists|i: int| 0 <= i < members.len() && #[trigger] (members[i] as u64) == u)
}

/// The user ids of the members of a chat that may be absent.
pub open spec fn chat_member_ids(chat: Option<&Chat>) -> Set<u64> {
    match chat {
        Some(c) => member_ids(c.members@),
        None => Set::empty(),
    }
}

/// The user ids of the members of a chat that may be absent.
pub open spec fn owned_member_ids(chat: Option<Chat>) -> Set<u64> {
    match chat {
        Some(c) => member_ids(c.members@),
        None => Set::empty(),
    }
}

/// Adds the members of a chat, each read as an unsigned number, to `ids`.
fn add_members(ids: &mut HashSet<u64>, members: &Vec<i64>)
    ensures
        final(ids)@ == old(ids)@.union(member_ids(members@)),
{
    let ghost start = ids@;
    let mut i: usize = 0;
    while i < members.len()
        invariant
            i <= members.len(),
            ids@ == start.union(member_ids(members@.take(i as int))),
        decreases members.len() - i,
    {
        let ghost before = ids@;
        ids.insert(members[i] as u64);
        proof {
            let t = members@.take(i + 1);
            assert forall|u: u64| ids@.contains(u) <==> start.union(member_ids(t)).contains(u) by {
                if member_ids(t).contains(u) {
                    let k = choose|k: int| 0 <= k < t.len() && #[trigger] (t[k] as u64) == u;
                    if k < i {
                        assert(members@.take(i as int)[k] == t[k]);
                        assert(member_ids(members@.take(i as int)).contains(u));
                    }
                }
                if member_ids(members@.take(i as int)).contains(u) {
                    let k = choose|k: int| 0 <= k < i && #[trigger] (members@.take(i as int)[k] as u64) == u;
                    assert(t[k] == members@.take(i as int)[k]);
                }
                if u == members@[i as int] as u64 {
                    assert(t[i as int] == members@[i as int]);
                }
            }
            assert(ids@ =~= start.union(member_ids(t)));
        }
        i = i + 1;
    }
    assert(members@.take(members.len() as int) =~= members@);
}

/// The users that a change of a chat concerns: the members before the change
/// and the members after it.
pub fn get_affected_chat_user_ids(old: Option<&Chat>, new: Option<&Chat>) -> (ids: HashSet<u64>)
    ensures
        ids@ == chat_member_ids(old).union(chat_member_ids(new)),
{
    let mut ids: HashSet<u64> = HashSet::new();
    match old {
        Some(c) => add_members(&mut ids, &c.members),
        None => {},
    }
    match new {
        Some(c) => add_members(&mut ids, &c.members),
        None => {},
    }
    assert(ids@ =~= chat_member_ids(old).union(chat_member_ids(new)));
    ids
}

} // verus!

verus! {

/// The database channels whose notifications the notification service handles.
#[derive(Debug, Clone, Copy, PartialEq, Eq, Structural)]
pub enum NotifyChannel {
    ChatUpdated,
    ChatMessageCreated,
}

/// Which channel a notification came on, if it is one the service handles.
pub open spec fn channel_of(name: Seq<char>) -> Option<NotifyChannel> {
    if name == "chat_updated"@ {
        Some(NotifyChannel::ChatUpdated)
    } else if name == "chat_message_created"@ {
        Some(NotifyChannel::ChatMessageCreated)
    } else {
        None
    }
}

/// Which channel a notification came on; any other channel is refused.
pub fn notify_channel(name: &str) -> (r: Result<NotifyChannel, String>)
    ensures
        r matches Ok(c) ==> channel_of(name@) == Some(c),
        r matches Err(m) ==> channel_of(name@) is None && m@ == "Unknown notification type"@,
{
    if str_eq(name, "chat_updated") {
        Ok(NotifyChannel::ChatUpdated)
    } else if str_eq(name, "chat_message_created") {
        Ok(NotifyChannel::ChatMessageCreated)
    } else {
        Err(String::from_str("Unknown notification type"))
    }
}

/// An event and the users it is to be sent to.
#[derive(Debug)]
pub struct Notification {
    pub user_ids: HashSet<u64>,
    pub event: AppEvent,
}

/// The event that a change of a chat makes: a new chat on insertion, the
/// changed chat on update, the removed chat on deletion.
pub open spec fn chat_change_event(op: Seq<char>, old: Option<Chat>, new: Option<Chat>) -> Option<AppEvent> {
    if op == "INSERT"@ {
        Some(AppEvent::NewChat(new->0))
    } else if op == "UPDATE"@ {
        Some(AppEvent::AddToChat(new->0))
    } else if op == "DELETE"@ {
        Some(AppEvent::RemoveFromChat(old->0))
    } else {
        None
    }
}

/// Whether a change of a chat carries the chat its operation reports.
pub open spec fn chat_change_complete(op: Seq<char>, old: Option<Chat>, new: Option<Chat>) -> bool {
    &&& (op == "INSERT"@ || op == "UPDATE"@) ==> new is Some
    &&& op == "DELETE"@ ==> old is Some
}

impl Notification {
    /// The notification for a change of a chat: it goes to the members before
    /// and after the change.
    pub fn from_chat_updated(op: &str, old: Option<Chat>, new: Option<Chat>) -> (r: Result<Notification, String>)
        requires
            chat_change_complete(op@, old, new),
        ensures
            r is Ok <==> chat_change_event(op@, old, new) is Some,
            r matches Ok(n) ==> Some(n.event) == chat_change_event(op@, old, new)
                && n.user_ids@ == owned_member_ids(old).union(owned_member_ids(new)),
            r matches Err(m) ==> m@ == "Invalid chat_updated operation"@,
    {
        let user_ids = get_affected_chat_user_ids(old.as_ref(), new.as_ref());
        assert(user_ids@ =~= owned_member_ids(old).union(owned_member_ids(new)));
        let event = if str_eq(op, "INSERT") {
            match new {
                Some(c) => AppEvent::NewChat(c),
                None => { return Err(String::from_str("Invalid chat_updated operation")); },
            }
        } else if str_eq(op, "UPDATE") {
            match new {
                Some(c) => AppEvent::AddToChat(c),
                None => { return Err(String::from_str("Invalid chat_updated operation")); },
            }
        } else if str_eq(op, "DELETE") {
            match old {
                Some(c) => AppEvent::RemoveFromChat(c),
                None => { return Err(String::from_str("Invalid chat_updated operation")); },
            }
        } else {
            return Err(String::from_str("Invalid chat_updated operation"));
        };
        Ok(Notification { user_ids, event })
    }

    /// The notification for a new message: it goes to the members of the chat.
    pub fn from_message_created(message: Message, members: &Vec<i64>) -> (n: Notification)
        ensures
            n.event == AppEvent::NewMessage(message),
            n.user_ids@ == member_ids(members@),
    {
        let mut user_ids: HashSet<u64> = HashSet::new();
        add_members(&mut user_ids, members);
        assert(user_ids@ =~= member_ids(members@));
        Notification { user_ids, event: AppEvent::NewMessage(message) }
    }
}

/// Clients are pushed the chat as the change left it: an insertion sends
/// the new chat, an update the chat after the change (never the old row),
/// a deletion the chat that was removed; any other operation sends nothing.
pub proof fn lemma_chat_change_event_carries_the_right_row(op: Seq<char>, old: Option<Chat>, new: Option<Chat>)
    ensures
        op == "INSERT"@ && new is Some ==> chat_change_event(op, old, new) == Some(AppEvent::NewChat(new->0)),
        op == "UPDATE"@ && new is Some ==> chat_change_event(op, old, new) == Some(AppEvent::AddToChat(new->0)),
        op == "DELETE"@ && old is Some ==> chat_change_event(op, old, new) == Some(AppEvent::RemoveFromChat(old->0)),
        op != "INSERT"@ && op != "UPDATE"@ && op != "DELETE"@ ==> chat_change_event(op, old, new) is None,
{
    reveal_strlit("INSERT");
    reveal_strlit("UPDATE");
    reveal_strlit("DELETE");
    assert("INSERT"@[0] != "UPDATE"@[0] && "INSERT"@[0] != "DELETE"@[0] && "UPDATE"@[0] != "DELETE"@[0]);
}

/// A change of a chat is pushed to exactly the users who were members
/// before it or are members after it.
pub proof fn lemma_chat_change_recipients(old: Option<Chat>, new: Option<Chat>, u: u64)
    ensures
        owned_member_ids(old).union(owned_member_ids(new)).contains(u) <==> (
            (old matches Some(c) && exists|i: int| 0 <= i < c.members@.len() && c.members@[i] as u64 == u)
            || (new matches Some(c) && exists|i: int| 0 <= i < c.members@.len() && c.members@[i] as u64 == u)),
{
}

/// A new message is pushed to exactly the members of its chat.
pub proof fn lemma_message_recipients(members: Seq<i64>, u: u64)
    ensures
        member_ids(members).contains(u) <==> exists|i: int| 0 <= i < members.len() && members[i] as u64 == u,
{
}

} // verus!
