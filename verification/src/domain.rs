//! The domain data model: chats, messages, users and workspaces.
//!
//! Timestamps are carried as the RFC 3339 text the data store hands out; the
//! dispatcher never looks inside them, so the text itself is the value.

use vstd::prelude::*;

verus! {

/// The kind of a chat.
#[derive(Debug, Clone, Copy, PartialEq, Eq, Structural)]
pub enum ChatType {
    Single,
    Group,
    PrivateChannel,
    PublicChannel,
}

impl Default for ChatType {
    fn default() -> (r: Self)
        ensures
            r == ChatType::Single,
    {
        ChatType::Single
    }
}

/// Abstract value of a [`Chat`].
pub struct ChatV {
    pub id: i64,
    pub ws_id: i64,
    pub name: Option<Seq<char>>,
    pub chat_type: ChatType,
    pub members: Seq<i64>,
    pub status: i16,
    pub created_at: Seq<char>,
}

/// A chat room: a set of member user ids inside one workspace.
#[derive(Debug, Clone, PartialEq)]
pub struct Chat {
    pub id: i64,
    pub ws_id: i64,
    pub name: Option<String>,
    pub chat_type: ChatType,
    pub members: Vec<i64>,
    pub status: i16,
    pub created_at: String,
}

impl View for Chat {
    type V = ChatV;

    open spec fn view(&self) -> ChatV {
        ChatV {
            id: self.id,
            ws_id: self.ws_id,
            name: match self.name {
                Some(n) => Some(n@),
                None => None,
            },
            chat_type: self.chat_type,
            members: self.members@,
            status: self.status,
            created_at: self.created_at@,
        }
    }
}

impl Chat {
    /// A chat that has not been stored yet: id `-1`, status `1` (active),
    /// created now, with the given members.
    pub fn new(ws_id: i64, name: Option<String>, chat_type: ChatType, members: Vec<u64>) -> (r:
        Self)
        ensures
            r.id == -1,
            r.ws_id == ws_id,
            r@.name == (match name {
                Some(n) => Some(n@),
                None => None::<Seq<char>>,
            }),
            r.chat_type == chat_type,
            r.members@ == members@.map_values(|m: u64| m as i64),
            r.status == 1,
    {
        let mut ms: Vec<i64> = Vec::new();
        let mut i: usize = 0;
        while i < members.len()
            invariant
                i <= members.len(),
                ms@.len() == i,
                forall|j: int| 0 <= j < i ==> ms@[j] == members@[j] as i64,
            decreases members.len() - i,
        {
            ms.push(members[i] as i64);
            i += 1;
        }
        proof {
            assert(ms@ =~= members@.map_values(|m: u64| m as i64));
        }
        Self {
            id: -1,
            ws_id,
            name,
            chat_type,
            members: ms,
            status: 1,
            created_at: now_rfc3339(),
        }
    }
}

/// Abstract value of a [`Msg`].
pub struct MsgV {
    pub id: i64,
    pub chat_id: i64,
    pub sender_id: i64,
    pub content: Seq<char>,
    pub created_at: Seq<char>,
}

/// One message inside a chat. Immutable after creation.
#[derive(Debug, Clone, PartialEq)]
pub struct Msg {
    pub id: i64,
    pub chat_id: i64,
    pub sender_id: i64,
    pub content: String,
    pub created_at: String,
}

impl View for Msg {
    type V = MsgV;

    open spec fn view(&self) -> MsgV {
        MsgV {
            id: self.id,
            chat_id: self.chat_id,
            sender_id: self.sender_id,
            content: self.content@,
            created_at: self.created_at@,
        }
    }
}

impl Msg {
    /// A message that has not been stored yet: id `-1`, created now.
    pub fn new(chat_id: i64, sender_id: i64, content: String) -> (r: Self)
        ensures
            r.id == -1,
            r.chat_id == chat_id,
            r.sender_id == sender_id,
            r.content == content,
    {
        Self { id: -1, chat_id, sender_id, content, created_at: now_rfc3339() }
    }
}

/// An authenticated account.
#[derive(Debug, Clone, PartialEq)]
pub struct User {
    pub id: i64,
    pub ws_id: i64,
    pub fullname: String,
    pub email: String,
    pub password_hash: String,
    pub created_at: String,
}

/// A workspace: the unit that owns users and chats.
#[derive(Debug, Clone, PartialEq)]
pub struct Workspace {
    pub id: i64,
    pub name: String,
    pub owner_id: i64,
    pub created_at: String,
}

/// Relies on chrono's `Utc::now` and `DateTime::to_rfc3339`: the current
/// wall-clock time rendered as an RFC 3339 timestamp. The result depends on
/// the clock, so nothing is promised of it.
#[verifier::external_body]
fn now_rfc3339() -> String {
    chrono::Utc::now().to_rfc3339()
}

} // verus!
