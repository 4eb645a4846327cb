use vstd::prelude::*;
use vstd::string::StringExecFns;
use crate::error::{AppError, ErrorKind};
use crate::models::ChatType;

verus! {

/// A request to create a chat.
#[derive(Debug, Clone, Default)]
pub struct CreateChat {
    pub name: Option<String>,
    pub members: Vec<i64>,
    pub public: bool,
}

/// A request to change a chat; what is absent stays as it is.
#[derive(Debug, Clone, Default)]
pub struct UpdateChat {
    pub name: Option<String>,
    pub members: Option<Vec<i64>>,
    pub public: Option<bool>,
}

/// The type of a chat: without a name, two members make a single chat and
/// more make a group; with a name it is a public or private channel.
pub open spec fn chat_type_for(named: bool, members: nat, public: bool) -> ChatType {
    if !named {
        if members == 2 {
            ChatType::Single
        } else {
            ChatType::Group
        }
    } else if public {
        ChatType::PublicChannel
    } else {
        ChatType::PrivateChannel
    }
}

/// What is wrong with a member list, if anything: fewer than two members,
/// or more than eight members without a name.
pub open spec fn member_list_error(members: nat, named: bool) -> Option<Seq<char>> {
    if members < 2 {
        Some("Group chat must have at least 2 members"@)
    } else if members > 8 && !named {
        Some("Group chat with more than 8 members must have a name"@)
    } else {
        None
    }
}

/// The next step of creating or changing a chat.
#[derive(Debug)]
pub enum ChatStep {
    /// Look up the chat that is to change, and report whether it has a name.
    FetchChat,
    /// Look up the users with the requested member ids, and report how many exist.
    FetchMembers,
    /// Store the chat with the given type (absent: keep the current type).
    Store(Option<ChatType>),
    /// Refuse the request.
    Fail(AppError),
}

/// The text of the error for a member list that names missing users.
pub open spec fn missing_members_text() -> Seq<char> {
    "Some members do not exist"@
}

/// Checks a member list, reporting a failure under the given kind.
pub fn check_member_list(members: usize, named: bool, kind: ErrorKind) -> (r: Result<(), AppError>)
    ensures
        member_list_error(members as nat, named) matches Some(m) ==> (r matches Err(e) && e@ == (kind, m)),
        member_list_error(members as nat, named) is None ==> r is Ok,
{
    if members < 2 {
        return Err(AppError::of(kind, String::from_str("Group chat must have at least 2 members")));
    }
    if members > 8 && !named {
        return Err(
            AppError::of(kind, String::from_str("Group chat with more than 8 members must have a name")),
        );
    }
    Ok(())
}

/// The step a creation of a chat takes next; `found` is how many of the
/// requested members exist, once they were looked up.
pub open spec fn create_chat_step(input_members: nat, named: bool, public: bool, found: Option<nat>) -> Result<Option<ChatType>, (ErrorKind, Seq<char>)> {
    match member_list_error(input_members, named) {
        Some(m) => Err((ErrorKind::CreateChatError, m)),
        None => match found {
            None => Ok(None),
            Some(n) => if n != input_members {
                Err((ErrorKind::CreateChatError, missing_members_text()))
            } else {
                Ok(Some(chat_type_for(named, input_members, public)))
            },
        },
    }
}

impl CreateChat {
    /// A request with the given name (empty: none), members and visibility.
    pub fn new(name: &str, members: &[i64], public: bool) -> (c: CreateChat)
        ensures
            name@.len() == 0 ==> c.name is None,
            name@.len() > 0 ==> (c.name matches Some(n) && n@ == name@),
            c.members@ == members@,
            c.public == public,
    {
        let name = if name.is_empty() { None } else { Some(String::from_str(name)) };
        CreateChat { name, members: vstd::slice::slice_to_vec(members), public }
    }

    /// The next step of creating this chat, given how many of its members
    /// were found to exist (absent: not looked up yet).
    pub fn next_step(&self, found: Option<usize>) -> (s: ChatStep)
        ensures
            ({
                let expected = create_chat_step(
                    self.members@.len(),
                    self.name is Some,
                    self.public,
                    match found { Some(n) => Some(n as nat), None => None },
                );
                match s {
                    ChatStep::FetchChat => false,
                    ChatStep::FetchMembers => expected == Ok::<Option<ChatType>, (ErrorKind, Seq<char>)>(None),
                    ChatStep::Store(t) => t is Some && expected == Ok::<Option<ChatType>, (ErrorKind, Seq<char>)>(t),
                    ChatStep::Fail(e) => expected == Err::<Option<ChatType>, (ErrorKind, Seq<char>)>(e@),
                }
            }),
    {
        let len = self.members.len();
        let named = self.name.is_some();
        match check_member_list(len, named, ErrorKind::CreateChatError) {
            Err(e) => { return ChatStep::Fail(e); },
            Ok(()) => {},
        }
        match found {
            None => ChatStep::FetchMembers,
            Some(n) => {
                if n != len {
                    ChatStep::Fail(AppError::CreateChatError(String::from_str("Some members do not exist")))
                } else if !named {
                    if len == 2 {
                        ChatStep::Store(Some(ChatType::Single))
                    } else {
                        ChatStep::Store(Some(ChatType::Group))
                    }
                } else if self.public {
                    ChatStep::Store(Some(ChatType::PublicChannel))
                } else {
                    ChatStep::Store(Some(ChatType::PrivateChannel))
                }
            },
        }
    }
}

/// Whether a chat of this type is a channel (one that has a name).
pub open spec fn is_channel(t: ChatType) -> bool {
    t is PublicChannel || t is PrivateChannel
}

/// The type a change of a chat gives it (absent: the type stays as it is).
/// `named` is whether the chat has a name after the change, `was_named`
/// whether it had one before. Without a name, a new member list decides
/// between single and group, and a requested visibility is no reason to
/// become a channel. With a name the chat is a channel: the requested
/// visibility decides, else a channel stays as it is and a chat that only
/// now gets its name becomes a private channel.
pub open spec fn updated_chat_type(named: bool, was_named: bool, members: Option<nat>, public: Option<bool>) -> Option<ChatType> {
    if !named {
        match members {
            Some(n) => Some(chat_type_for(false, n, false)),
            None => None,
        }
    } else {
        match public {
            Some(p) => Some(chat_type_for(true, 0, p)),
            None => if was_named {
                None
            } else {
                Some(ChatType::PrivateChannel)
            },
        }
    }
}

/// The step a change of a chat takes next. A new member list is checked
/// first (more than eight need a name in the change itself) and its members
/// are looked up (`found`: how many exist, absent: not looked up yet); then
/// the stored chat is looked up (`stored_named`: whether it has a name,
/// absent: not looked up yet), and the change is stored.
pub open spec fn update_chat_step(
    stored_named: Option<bool>,
    input_named: bool,
    members: Option<nat>,
    public: Option<bool>,
    found: Option<nat>,
) -> Result<UpdateStage, (ErrorKind, Seq<char>)> {
    let checked: Result<(), (ErrorKind, Seq<char>)> = match members {
        None => Ok(()),
        Some(len) => match member_list_error(len, input_named) {
            Some(m) => Err((ErrorKind::UpdateChatError, m)),
            None => match found {
                None => Ok(()),
                Some(n) => if n != len {
                    Err((ErrorKind::UpdateChatError, missing_members_text()))
                } else {
                    Ok(())
                },
            },
        },
    };
    match checked {
        Err(e) => Err(e),
        Ok(()) => if members is Some && found is None {
            Ok(UpdateStage::LookUpMembers)
        } else {
            match stored_named {
                None => Ok(UpdateStage::LookUpChat),
                Some(was_named) => Ok(UpdateStage::Store(
                    updated_chat_type(was_named || input_named, was_named, members, public),
                )),
            }
        },
    }
}

/// Where a change of a chat stands, short of a refusal.
pub ghost enum UpdateStage {
    /// The stored chat is to be looked up.
    LookUpChat,
    /// The new members are to be looked up.
    LookUpMembers,
    /// The change is to be stored, with the given type (absent: the type stays).
    Store(Option<ChatType>),
}

impl UpdateChat {
    /// The next step of this change, given whether the stored chat has a
    /// name and how many of the new members were found to exist (absent:
    /// not looked up yet).
    pub fn next_step(&self, stored_named: Option<bool>, found: Option<usize>) -> (s: ChatStep)
        ensures
            ({
                let members = match self.members { Some(m) => Some(m@.len()), None => None };
                let expected = update_chat_step(
                    stored_named,
                    self.name is Some,
                    members,
                    self.public,
                    match found { Some(n) => Some(n as nat), None => None },
                );
                match s {
                    ChatStep::FetchChat => expected == Ok::<UpdateStage, (ErrorKind, Seq<char>)>(UpdateStage::LookUpChat),
                    ChatStep::FetchMembers => expected == Ok::<UpdateStage, (ErrorKind, Seq<char>)>(UpdateStage::LookUpMembers),
                    ChatStep::Store(t) => expected == Ok::<UpdateStage, (ErrorKind, Seq<char>)>(UpdateStage::Store(t)),
                    ChatStep::Fail(e) => expected == Err::<UpdateStage, (ErrorKind, Seq<char>)>(e@),
                }
            }),
    {
        match &self.members {
            None => {},
            Some(members) => {
                let len = members.len();
                match check_member_list(len, self.name.is_some(), ErrorKind::UpdateChatError) {
                    Err(e) => { return ChatStep::Fail(e); },
                    Ok(()) => {},
                }
                match found {
                    None => { return ChatStep::FetchMembers; },
                    Some(n) => {
                        if n != len {
                            return ChatStep::Fail(
                                AppError::UpdateChatError(String::from_str("Some members do not exist")),
                            );
                        }
                    },
                }
            },
        }
        let was_named = match stored_named {
            None => { return ChatStep::FetchChat; },
            Some(b) => b,
        };
        let named = was_named || self.name.is_some();
        if !named {
            match &self.members {
                Some(members) => {
                    if members.len() == 2 {
                        ChatStep::Store(Some(ChatType::Single))
                    } else {
                        ChatStep::Store(Some(ChatType::Group))
                    }
                },
                None => ChatStep::Store(None),
            }
        } else {
            match self.public {
                Some(true) => ChatStep::Store(Some(ChatType::PublicChannel)),
                Some(false) => ChatStep::Store(Some(ChatType::PrivateChannel)),
                None => if was_named {
                    ChatStep::Store(None)
                } else {
                    ChatStep::Store(Some(ChatType::PrivateChannel))
                },
            }
        }
    }
}

/// The type of a chat after a change: the new type, or the stored one
/// where the change keeps it.
pub open spec fn type_after(stored: ChatType, change: Option<ChatType>) -> ChatType {
    match change {
        Some(t) => t,
        None => stored,
    }
}

/// A change keeps the rule that a chat is a channel exactly when it has a
/// name: if the stored chat obeys it, so does the changed one.
pub proof fn lemma_update_keeps_channel_rule(
    stored: ChatType,
    stored_named: bool,
    input_named: bool,
    members: Option<nat>,
    public: Option<bool>,
    found: Option<nat>,
)
    requires
        is_channel(stored) == stored_named,
    ensures
        update_chat_step(Some(stored_named), input_named, members, public, found) matches Ok(UpdateStage::Store(t))
            ==> is_channel(type_after(stored, t)) == (stored_named || input_named),
{
}

/// A chat is only stored with at least two members, and with more than
/// eight members only when it has a name (for a change: when the change
/// gives one).
pub proof fn lemma_stored_chats_have_valid_members(
    members: nat,
    named: bool,
    input_named: bool,
    public: bool,
    new_public: Option<bool>,
    found: Option<nat>,
)
    ensures
        create_chat_step(members, named, public, found) matches Ok(Some(_)) ==> members >= 2 && (members > 8 ==> named),
        update_chat_step(Some(named), input_named, Some(members), new_public, found) matches Ok(UpdateStage::Store(_)) ==> members >= 2 && (members > 8 ==> input_named),
{
}

/// The chat type rule: without a name, two members make a single chat and
/// more make a group; a named chat is a channel whose visibility is the
/// requested one.
pub proof fn lemma_chat_type_rule(members: nat, named: bool, public: bool)
    requires
        member_list_error(members, named) is None,
    ensures
        !named && members == 2 ==> create_chat_step(members, named, public, Some(members)) == Ok::<Option<ChatType>, (ErrorKind, Seq<char>)>(Some(ChatType::Single)),
        !named && members > 2 ==> create_chat_step(members, named, public, Some(members)) == Ok::<Option<ChatType>, (ErrorKind, Seq<char>)>(Some(ChatType::Group)),
        named && public ==> create_chat_step(members, named, public, Some(members)) == Ok::<Option<ChatType>, (ErrorKind, Seq<char>)>(Some(ChatType::PublicChannel)),
        named && !public ==> create_chat_step(members, named, public, Some(members)) == Ok::<Option<ChatType>, (ErrorKind, Seq<char>)>(Some(ChatType::PrivateChannel)),
{
}

/// A chat without a name whose member list is replaced, every new member
/// found, is typed by the new count as a new chat would be: two members make
/// a single chat, three to eight a group, whatever visibility is asked for.
pub proof fn lemma_unnamed_update_types_by_members(n: nat, public: Option<bool>)
    requires
        2 <= n <= 8,
    ensures
        n == 2 ==> update_chat_step(Some(false), false, Some(n), public, Some(n))
            == Ok::<UpdateStage, (ErrorKind, Seq<char>)>(UpdateStage::Store(Some(ChatType::Single))),
        n >= 3 ==> update_chat_step(Some(false), false, Some(n), public, Some(n))
            == Ok::<UpdateStage, (ErrorKind, Seq<char>)>(UpdateStage::Store(Some(ChatType::Group))),
{
}

/// No chat is stored with a member that does not exist: once the members
/// are looked up, a count that differs from the list is refused with
/// "Some members do not exist", named or not, on creation and on change; a
/// chat is only stored when every member was found.
pub proof fn lemma_missing_members_refused(
    members: nat,
    named: bool,
    public: bool,
    stored_named: Option<bool>,
    new_public: Option<bool>,
    found: nat,
)
    requires
        member_list_error(members, named) is None,
        found != members,
    ensures
        create_chat_step(members, named, public, Some(found))
            == Err::<Option<ChatType>, (ErrorKind, Seq<char>)>((ErrorKind::CreateChatError, "Some members do not exist"@)),
        update_chat_step(stored_named, named, Some(members), new_public, Some(found))
            == Err::<UpdateStage, (ErrorKind, Seq<char>)>((ErrorKind::UpdateChatError, "Some members do not exist"@)),
{
}

/// A stored chat has every member found: creation stores only when the
/// count found is the count asked for, and so does a change of members.
pub proof fn lemma_stored_chats_have_all_members(
    members: nat,
    named: bool,
    public: bool,
    stored_named: Option<bool>,
    new_public: Option<bool>,
    found: Option<nat>,
)
    ensures
        create_chat_step(members, named, public, found) matches Ok(Some(_)) ==> found == Some(members),
        update_chat_step(stored_named, named, Some(members), new_public, found) matches Ok(UpdateStage::Store(_))
            ==> found == Some(members),
{
}

/// A chat that has a name after a change, and whose change asks for a
/// visibility, becomes a channel of that visibility; one that asks for none
/// keeps its type if it was already named, and becomes a private channel if
/// it only now gets its name.
pub proof fn lemma_named_update_visibility(
    stored_named: bool,
    input_named: bool,
    members: Option<nat>,
    public: Option<bool>,
)
    requires
        stored_named || input_named,
        members matches Some(n) ==> member_list_error(n, input_named) is None,
    ensures
        public == Some(true) ==> update_chat_step(Some(stored_named), input_named, members, public, members)
            == Ok::<UpdateStage, (ErrorKind, Seq<char>)>(UpdateStage::Store(Some(ChatType::PublicChannel))),
        public == Some(false) ==> update_chat_step(Some(stored_named), input_named, members, public, members)
            == Ok::<UpdateStage, (ErrorKind, Seq<char>)>(UpdateStage::Store(Some(ChatType::PrivateChannel))),
        public is None && stored_named ==> update_chat_step(Some(stored_named), input_named, members, public, members)
            == Ok::<UpdateStage, (ErrorKind, Seq<char>)>(UpdateStage::Store(None)),
        public is None && !stored_named ==> update_chat_step(Some(stored_named), input_named, members, public, members)
            == Ok::<UpdateStage, (ErrorKind, Seq<char>)>(UpdateStage::Store(Some(ChatType::PrivateChannel))),
{
}

/// A change that names no one and asks for nothing else keeps an unnamed
/// chat's type: visibility alone does not make it a channel.
pub proof fn lemma_unnamed_visibility_ignored(public: Option<bool>)
    ensures
        update_chat_step(Some(false), false, None, public, None)
            == Ok::<UpdateStage, (ErrorKind, Seq<char>)>(UpdateStage::Store(None)),
{
}

} // verus!
