//! Plain data-transfer types consumed by the HTTP layer, and the file
//! service's location. The HTTP handlers themselves, password hashing and
//! token signing are outside collaborators; only the data they exchange with
//! the core is modelled here.

use vstd::prelude::*;

verus! {

use crate::domain::{Chat, ChatType, User};

/// A signed token handed to a client after authentication.
#[derive(Debug, Clone, PartialEq)]
pub struct AuthInfo {
    pub token: String,
}

/// Credentials presented on sign-in.
#[derive(Debug, Clone, PartialEq)]
pub struct SigninUserDto {
    pub email: String,
    pub password: String,
}

/// The data presented on sign-up.
#[derive(Debug, Clone, PartialEq)]
pub struct SignupUserDto {
    pub fullname: String,
    pub email: String,
    pub workspace: String,
    pub password: String,
}

/// The identity carried inside a signed token.
#[derive(Debug, Clone, Copy, PartialEq, Eq, Structural)]
pub struct ClaimUser {
    pub id: u64,
    pub ws_id: u64,
}

impl From<User> for ClaimUser {
    fn from(user: User) -> (r: Self) {
        ClaimUser { id: user.id as u64, ws_id: user.ws_id as u64 }
    }
}

impl vstd::std_specs::convert::FromSpecImpl<User> for ClaimUser {
    open spec fn obeys_from_spec() -> bool {
        true
    }

    open spec fn from_spec(user: User) -> Self {
        ClaimUser { id: user.id as u64, ws_id: user.ws_id as u64 }
    }
}

impl ClaimUser {
    /// Whether this user may read and post in `chat`: the chat is active,
    /// belongs to the user's workspace, and lists the user as a member.
    pub fn can_access_chat(&self, chat: &Chat) -> (r: bool)
        ensures
            r == (chat.status != 0 && self.ws_id as i64 == chat.ws_id && chat.members@.contains(
                self.id as i64,
            )),
    {
        if chat.status == 0 || self.ws_id as i64 != chat.ws_id {
            return false;
        }
        let me = self.id as i64;
        let n = chat.members.len();
        let mut i: usize = 0;
        while i < n
            invariant
                i <= n,
                n == chat.members@.len(),
                me == self.id as i64,
                chat.status != 0,
                self.ws_id as i64 == chat.ws_id,
                forall|k: int| 0 <= k < i ==> chat.members@[k] != me,
            decreases n - i,
        {
            if chat.members[i] == me {
                proof {
                    assert(chat.members@[i as int] == me);
                    assert(chat.members@.contains(me));
                }
                return true;
            }
            i += 1;
        }
        false
    }
}

/// The token offered by a client: the bearer header wins over the query
/// string, and a client that offers neither has no token.
pub open spec fn spec_choose_token(bearer: Option<Seq<char>>, query: Option<Seq<char>>) -> Option<
    Seq<char>,
> {
    match bearer {
        Some(t) => Some(t),
        None => query,
    }
}

/// Picks the token a request carries, preferring the bearer header.
pub fn choose_token(bearer: Option<String>, query: Option<String>) -> (r: Option<String>)
    ensures
        (match r {
            Some(t) => Some(t@),
            None => None,
        }) == spec_choose_token(
            match bearer {
                Some(t) => Some(t@),
                None => None,
            },
            match query {
                Some(t) => Some(t@),
                None => None,
            },
        ),
{
    match bearer {
        Some(t) => Some(t),
        None => query,
    }
}

/// What a chat member looks like to other members.
#[derive(Debug, Clone, PartialEq)]
pub struct ChatUserDto {
    pub id: u64,
    pub display: String,
}

impl From<User> for ChatUserDto {
    fn from(u: User) -> (r: Self) {
        ChatUserDto { id: u.id as u64, display: u.fullname }
    }
}

impl vstd::std_specs::convert::FromSpecImpl<User> for ChatUserDto {
    open spec fn obeys_from_spec() -> bool {
        true
    }

    open spec fn from_spec(u: User) -> Self {
        ChatUserDto { id: u.id as u64, display: u.fullname }
    }
}

/// A user's public profile.
#[derive(Debug, Clone, PartialEq)]
pub struct UserInfoDto {
    pub id: u64,
    pub display: String,
    pub workspace: String,
}

/// The data presented to create a chat.
#[derive(Debug, Clone, PartialEq)]
pub struct CreateChatDto {
    pub name: Option<String>,
    pub chat_type: ChatType,
    pub members: Vec<u64>,
}

impl CreateChatDto {
    /// The creation request that would recreate `chat`.
    pub fn from_chat(chat: Chat) -> (r: Self)
        ensures
            r.name == chat.name,
            r.chat_type == chat.chat_type,
            r.members@ == chat.members@.map_values(|m: i64| m as u64),
    {
        let mut ms: Vec<u64> = Vec::new();
        let mut i: usize = 0;
        let n = chat.members.len();
        while i < n
            invariant
                i <= n,
                n == chat.members@.len(),
                ms@.len() == i,
                forall|j: int| 0 <= j < i ==> ms@[j] == chat.members@[j] as u64,
            decreases n - i,
        {
            ms.push(chat.members[i] as u64);
            i += 1;
        }
        proof {
            assert(ms@ =~= chat.members@.map_values(|m: i64| m as u64));
        }
        CreateChatDto { name: chat.name, chat_type: chat.chat_type, members: ms }
    }
}

/// The data presented to update a chat.
#[derive(Debug, Clone, PartialEq)]
pub struct UpdateChatDto {
    pub name: Option<String>,
    pub chat_type: ChatType,
    pub members: Vec<u64>,
}

/// The data presented to send a message.
#[derive(Debug, Clone, PartialEq)]
pub struct SendMsgDto {
    pub content: String,
}

/// Paging options for listing messages.
#[derive(Debug, Clone, Copy, PartialEq)]
pub struct ListOptionsDto {
    pub last_id: Option<u64>,
    pub limit: Option<u8>,
}

/// Where uploaded files are stored.
#[derive(Debug, Clone, PartialEq)]
pub struct FileService {
    pub base_dir: String,
}

impl FileService {
    pub fn new(dir: &str) -> (r: Self)
        ensures
            r.base_dir@ == dir@,
    {
        FileService { base_dir: dir.to_owned() }
    }
}

} // verus!
