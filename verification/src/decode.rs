//! The change-feed decoder: from a raw notification (channel name plus JSON
//! payload) to one typed event and the set of user ids it affects.
//!
//! Two channels are recognised. The chat-mutation channel carries
//! `{"op": "INSERT"|"UPDATE"|"DELETE", "old": Chat|null, "new": Chat|null}`;
//! the message-created channel carries `{"message": Msg, "members": [id,..]}`.
//! The objects are read in the field order the data store emits them in
//! (shown above and, for a chat, `id`, `ws_id`, `name`, `chat_type`,
//! `members`, `status`, `created_at`), with arbitrary whitespace between
//! tokens. The `spec_parse_*` functions state that grammar; every executable
//! parser returns exactly what they describe.

use vstd::prelude::*;

verus! {

use std::sync::Arc;
use crate::domain::{Chat, ChatType, ChatV, Msg, MsgV};
use crate::error::{AppError, AppErrorV};
use crate::json::{
    at_null,
    chars_eq,
    chars_vec,
    expect_char,
    parse_int,
    parse_int_array,
    parse_string,
    skip_ws,
    spec_expect,
    spec_match_null,
    spec_parse_int,
    spec_parse_int_array,
    spec_parse_string,
    spec_skip_ws,
    str_eq,
    string_from_chars,
};
use crate::notif::{AppEvent, AppEventV};

// -------------------------------------------------------------------------
// Key/separator helpers.
// -------------------------------------------------------------------------
pub open spec fn opt_pos_view(r: Option<usize>) -> Option<int> {
    match r {
        Some(j) => Some(j as int),
        None => None,
    }
}

/// A string key spelling `key`, then optional whitespace, a colon and
/// optional whitespace; yields the position of the value.
pub open spec fn spec_key(s: Seq<char>, i: int, key: Seq<char>) -> Option<int> {
    match spec_parse_string(s, i) {
        Some((k, j)) => if k == key {
            match spec_expect(s, spec_skip_ws(s, j), ':') {
                Some(a) => Some(spec_skip_ws(s, a)),
                None => None,
            }
        } else {
            None
        },
        None => None,
    }
}

/// Optional whitespace, a comma, optional whitespace.
pub open spec fn spec_comma(s: Seq<char>, i: int) -> Option<int> {
    match spec_expect(s, spec_skip_ws(s, i), ',') {
        Some(a) => Some(spec_skip_ws(s, a)),
        None => None,
    }
}

/// A comma followed by the key `key`: the separator between two fields.
pub open spec fn spec_next_key(s: Seq<char>, i: int, key: Seq<char>) -> Option<int> {
    match spec_comma(s, i) {
        Some(j) => spec_key(s, j, key),
        None => None,
    }
}

fn parse_key(s: &Vec<char>, i: usize, key: &str) -> (r: Option<usize>)
    requires
        i <= s@.len(),
    ensures
        opt_pos_view(r) == spec_key(s@, i as int, key@),
        r matches Some(j) ==> i < j <= s@.len(),
{
    match parse_string(s, i) {
        Some((k, j)) => {
            if chars_eq(&k, key) {
                let c = skip_ws(s, j);
                match expect_char(s, c, ':') {
                    Some(a) => Some(skip_ws(s, a)),
                    None => None,
                }
            } else {
                None
            }
        },
        None => None,
    }
}

fn parse_next_key(s: &Vec<char>, i: usize, key: &str) -> (r: Option<usize>)
    requires
        i <= s@.len(),
    ensures
        opt_pos_view(r) == spec_next_key(s@, i as int, key@),
        r matches Some(j) ==> i < j <= s@.len(),
{
    let c = skip_ws(s, i);
    match expect_char(s, c, ',') {
        Some(a) => {
            let j = skip_ws(s, a);
            parse_key(s, j, key)
        },
        None => None,
    }
}

// -------------------------------------------------------------------------
// Field values.
// -------------------------------------------------------------------------
/// A string or `null`.
pub open spec fn spec_parse_opt_string(s: Seq<char>, i: int) -> Option<(Option<Seq<char>>, int)> {
    if spec_match_null(s, i) {
        Some((None, i + 4))
    } else {
        match spec_parse_string(s, i) {
            Some((v, j)) => Some((Some(v), j)),
            None => None,
        }
    }
}

fn parse_opt_string(s: &Vec<char>, i: usize) -> (r: Option<(Option<String>, usize)>)
    requires
        i <= s@.len(),
    ensures
        (match r {
            Some((v, j)) => Some(
                (
                    match v {
                        Some(x) => Some(x@),
                        None => None,
                    },
                    j as int,
                ),
            ),
            None => None,
        }) == spec_parse_opt_string(s@, i as int),
        r matches Some(p) ==> i < p.1 <= s@.len(),
{
    if at_null(s, i) && s.len() >= 4 {
        Some((None, i + 4))
    } else {
        match parse_string(s, i) {
            Some((v, j)) => Some((Some(string_from_chars(&v)), j)),
            None => None,
        }
    }
}

/// The wire name of a chat type.
pub open spec fn spec_chat_type_of(k: Seq<char>) -> Option<ChatType> {
    if k == "single"@ {
        Some(ChatType::Single)
    } else if k == "group"@ {
        Some(ChatType::Group)
    } else if k == "private_channel"@ {
        Some(ChatType::PrivateChannel)
    } else if k == "public_channel"@ {
        Some(ChatType::PublicChannel)
    } else {
        None
    }
}

/// A string spelling one of the four chat types.
pub open spec fn spec_parse_chat_type(s: Seq<char>, i: int) -> Option<(ChatType, int)> {
    match spec_parse_string(s, i) {
        Some((k, j)) => match spec_chat_type_of(k) {
            Some(t) => Some((t, j)),
            None => None,
        },
        None => None,
    }
}

fn parse_chat_type(s: &Vec<char>, i: usize) -> (r: Option<(ChatType, usize)>)
    requires
        i <= s@.len(),
    ensures
        (match r {
            Some((t, j)) => Some((t, j as int)),
            None => None,
        }) == spec_parse_chat_type(s@, i as int),
        r matches Some(p) ==> i < p.1 <= s@.len(),
{
    match parse_string(s, i) {
        Some((k, j)) => {
            if chars_eq(&k, "single") {
                Some((ChatType::Single, j))
            } else if chars_eq(&k, "group") {
                Some((ChatType::Group, j))
            } else if chars_eq(&k, "private_channel") {
                Some((ChatType::PrivateChannel, j))
            } else if chars_eq(&k, "public_channel") {
                Some((ChatType::PublicChannel, j))
            } else {
                None
            }
        },
        None => None,
    }
}

/// An integer that fits an `i16`.
pub open spec fn spec_parse_i16(s: Seq<char>, i: int) -> Option<(i16, int)> {
    match spec_parse_int(s, i) {
        Some((v, j)) => if -0x8000 <= v <= 0x7fff {
            Some((v as i16, j))
        } else {
            None
        },
        None => None,
    }
}

fn parse_i16(s: &Vec<char>, i: usize) -> (r: Option<(i16, usize)>)
    requires
        i <= s@.len(),
    ensures
        (match r {
            Some((v, j)) => Some((v, j as int)),
            None => None,
        }) == spec_parse_i16(s@, i as int),
        r matches Some(p) ==> i < p.1 <= s@.len(),
{
    match parse_int(s, i) {
        Some((v, j)) => {
            if -0x8000 <= v && v <= 0x7fff {
                Some((v as i16, j))
            } else {
                None
            }
        },
        None => None,
    }
}

// -------------------------------------------------------------------------
// Objects.
// -------------------------------------------------------------------------
/// A chat snapshot object, fields in the order the data store emits them.
pub open spec fn spec_parse_chat(s: Seq<char>, i: int) -> Option<(ChatV, int)> {
    match spec_expect(s, i, '{') {
        None => None,
        Some(a0) => match spec_key(s, spec_skip_ws(s, a0), "id"@) {
            None => None,
            Some(p1) => match spec_parse_int(s, p1) {
                None => None,
                Some((id, q1)) => match spec_next_key(s, q1, "ws_id"@) {
                    None => None,
                    Some(p2) => match spec_parse_int(s, p2) {
                        None => None,
                        Some((ws_id, q2)) => match spec_next_key(s, q2, "name"@) {
                            None => None,
                            Some(p3) => match spec_parse_opt_string(s, p3) {
                                None => None,
                                Some((name, q3)) => match spec_next_key(s, q3, "chat_type"@) {
                                    None => None,
                                    Some(p4) => match spec_parse_chat_type(s, p4) {
                                        None => None,
                                        Some((chat_type, q4)) => match spec_next_key(
                                            s,
                                            q4,
                                            "members"@,
                                        ) {
                                            None => None,
                                            Some(p5) => match spec_parse_int_array(s, p5) {
                                                None => None,
                                                Some((members, q5)) => match spec_next_key(
                                                    s,
                                                    q5,
                                                    "status"@,
                                                ) {
                                                    None => None,
                                                    Some(p6) => match spec_parse_i16(s, p6) {
                                                        None => None,
                                                        Some((status, q6)) => match spec_next_key(
                                                            s,
                                                            q6,
                                                            "created_at"@,
                                                        ) {
                                                            None => None,
                                                            Some(p7) => match spec_parse_string(
                                                                s,
                                                                p7,
                                                            ) {
                                                                None => None,
                                                                Some((created_at, q7)) => match
                                                                    spec_expect(
                                                                    s,
                                                                    spec_skip_ws(s, q7),
                                                                    '}',
                                                                ) {
                                                                    None => None,
                                                                    Some(e) => Some(
                                                                        (
                                                                            ChatV {
                                                                                id: id as i64,
                                                                                ws_id: ws_id as i64,
                                                                                name,
                                                                                chat_type,
                                                                                members,
                                                                                status,
                                                                                created_at,
                                                                            },
                                                                            e,
                                                                        ),
                                                                    ),
                                                                },
                                                            },
                                                        },
                                                    },
                                                },
                                            },
                                        },
                                    },
                                },
                            },
                        },
                    },
                },
            },
        },
    }
}

pub fn parse_chat(s: &Vec<char>, i: usize) -> (r: Option<(Chat, usize)>)
    requires
        i <= s@.len(),
    ensures
        (match r {
            Some((c, j)) => Some((c@, j as int)),
            None => None,
        }) == spec_parse_chat(s@, i as int),
        r matches Some(p) ==> i < p.1 <= s@.len(),
{
    let a0 = match expect_char(s, i, '{') {
        Some(a) => a,
        None => {
            return None;
        },
    };
    let i1 = skip_ws(s, a0);
    let p1 = match parse_key(s, i1, "id") {
        Some(p) => p,
        None => {
            return None;
        },
    };
    let (id, q1) = match parse_int(s, p1) {
        Some(v) => v,
        None => {
            return None;
        },
    };
    let p2 = match parse_next_key(s, q1, "ws_id") {
        Some(p) => p,
        None => {
            return None;
        },
    };
    let (ws_id, q2) = match parse_int(s, p2) {
        Some(v) => v,
        None => {
            return None;
        },
    };
    let p3 = match parse_next_key(s, q2, "name") {
        Some(p) => p,
        None => {
            return None;
        },
    };
    let (name, q3) = match parse_opt_string(s, p3) {
        Some(v) => v,
        None => {
            return None;
        },
    };
    let p4 = match parse_next_key(s, q3, "chat_type") {
        Some(p) => p,
        None => {
            return None;
        },
    };
    let (chat_type, q4) = match parse_chat_type(s, p4) {
        Some(v) => v,
        None => {
            return None;
        },
    };
    let p5 = match parse_next_key(s, q4, "members") {
        Some(p) => p,
        None => {
            return None;
        },
    };
    let (members, q5) = match parse_int_array(s, p5) {
        Some(v) => v,
        None => {
            return None;
        },
    };
    let p6 = match parse_next_key(s, q5, "status") {
        Some(p) => p,
        None => {
            return None;
        },
    };
    let (status, q6) = match parse_i16(s, p6) {
        Some(v) => v,
        None => {
            return None;
        },
    };
    let p7 = match parse_next_key(s, q6, "created_at") {
        Some(p) => p,
        None => {
            return None;
        },
    };
    let (created_at, q7) = match parse_string(s, p7) {
        Some(v) => v,
        None => {
            return None;
        },
    };
    let e0 = skip_ws(s, q7);
    let e = match expect_char(s, e0, '}') {
        Some(a) => a,
        None => {
            return None;
        },
    };
    let chat = Chat {
        id,
        ws_id,
        name,
        chat_type,
        members,
        status,
        created_at: string_from_chars(&created_at),
    };
    Some((chat, e))
}

/// A chat snapshot or `null`.
pub open spec fn spec_parse_opt_chat(s: Seq<char>, i: int) -> Option<(Option<ChatV>, int)> {
    if spec_match_null(s, i) {
        Some((None, i + 4))
    } else {
        match spec_parse_chat(s, i) {
            Some((c, j)) => Some((Some(c), j)),
            None => None,
        }
    }
}

fn parse_opt_chat(s: &Vec<char>, i: usize) -> (r: Option<(Option<Chat>, usize)>)
    requires
        i <= s@.len(),
    ensures
        (match r {
            Some((c, j)) => Some(
                (
                    match c {
                        Some(x) => Some(x@),
                        None => None,
                    },
                    j as int,
                ),
            ),
            None => None,
        }) == spec_parse_opt_chat(s@, i as int),
        r matches Some(p) ==> i < p.1 <= s@.len(),
{
    if at_null(s, i) && s.len() >= 4 {
        Some((None, i + 4))
    } else {
        match parse_chat(s, i) {
            Some((c, j)) => Some((Some(c), j)),
            None => None,
        }
    }
}

/// A message object, fields in the order the data store emits them.
pub open spec fn spec_parse_msg(s: Seq<char>, i: int) -> Option<(MsgV, int)> {
    match spec_expect(s, i, '{') {
        None => None,
        Some(a0) => match spec_key(s, spec_skip_ws(s, a0), "id"@) {
            None => None,
            Some(p1) => match spec_parse_int(s, p1) {
                None => None,
                Some((id, q1)) => match spec_next_key(s, q1, "chat_id"@) {
                    None => None,
                    Some(p2) => match spec_parse_int(s, p2) {
                        None => None,
                        Some((chat_id, q2)) => match spec_next_key(s, q2, "sender_id"@) {
                            None => None,
                            Some(p3) => match spec_parse_int(s, p3) {
                                None => None,
                                Some((sender_id, q3)) => match spec_next_key(s, q3, "content"@) {
                                    None => None,
                                    Some(p4) => match spec_parse_string(s, p4) {
                                        None => None,
                                        Some((content, q4)) => match spec_next_key(
                                            s,
                                            q4,
                                            "created_at"@,
                                        ) {
                                            None => None,
                                            Some(p5) => match spec_parse_string(s, p5) {
                                                None => None,
                                                Some((created_at, q5)) => match spec_expect(
                                                    s,
                                                    spec_skip_ws(s, q5),
                                                    '}',
                                                ) {
                                                    None => None,
                                                    Some(e) => Some(
                                                        (
                                                            MsgV {
                                                                id: id as i64,
                                                                chat_id: chat_id as i64,
                                                                sender_id: sender_id as i64,
                                                                content,
                                                                created_at,
                                                            },
                                                            e,
                                                        ),
                                                    ),
                                                },
                                            },
                                        },
                                    },
                                },
                            },
                        },
                    },
                },
            },
        },
    }
}

pub fn parse_msg(s: &Vec<char>, i: usize) -> (r: Option<(Msg, usize)>)
    requires
        i <= s@.len(),
    ensures
        (match r {
            Some((m, j)) => Some((m@, j as int)),
            None => None,
        }) == spec_parse_msg(s@, i as int),
        r matches Some(p) ==> i < p.1 <= s@.len(),
{
    let a0 = match expect_char(s, i, '{') {
        Some(a) => a,
        None => {
            return None;
        },
    };
    let i1 = skip_ws(s, a0);
    let p1 = match parse_key(s, i1, "id") {
        Some(p) => p,
        None => {
            return None;
        },
    };
    let (id, q1) = match parse_int(s, p1) {
        Some(v) => v,
        None => {
            return None;
        },
    };
    let p2 = match parse_next_key(s, q1, "chat_id") {
        Some(p) => p,
        None => {
            return None;
        },
    };
    let (chat_id, q2) = match parse_int(s, p2) {
        Some(v) => v,
        None => {
            return None;
        },
    };
    let p3 = match parse_next_key(s, q2, "sender_id") {
        Some(p) => p,
        None => {
            return None;
        },
    };
    let (sender_id, q3) = match parse_int(s, p3) {
        Some(v) => v,
        None => {
            return None;
        },
    };
    let p4 = match parse_next_key(s, q3, "content") {
        Some(p) => p,
        None => {
            return None;
        },
    };
    let (content, q4) = match parse_string(s, p4) {
        Some(v) => v,
        None => {
            return None;
        },
    };
    let p5 = match parse_next_key(s, q4, "created_at") {
        Some(p) => p,
        None => {
            return None;
        },
    };
    let (created_at, q5) = match parse_string(s, p5) {
        Some(v) => v,
        None => {
            return None;
        },
    };
    let e0 = skip_ws(s, q5);
    let e = match expect_char(s, e0, '}') {
        Some(a) => a,
        None => {
            return None;
        },
    };
    let msg = Msg {
        id,
        chat_id,
        sender_id,
        content: string_from_chars(&content),
        created_at: string_from_chars(&created_at),
    };
    Some((msg, e))
}

// -------------------------------------------------------------------------
// Whole payloads.
// -------------------------------------------------------------------------
/// Abstract value of a [`ChatUpdated`] record.
pub struct ChatUpdatedV {
    pub op: Seq<char>,
    pub old: Option<ChatV>,
    pub new: Option<ChatV>,
}

/// A chat-mutation record from the feed: the operation tag plus the chat
/// snapshots before and after the write.
#[derive(Debug, Clone, PartialEq)]
pub struct ChatUpdated {
    pub op: String,
    pub old: Option<Chat>,
    pub new: Option<Chat>,
}

impl View for ChatUpdated {
    type V = ChatUpdatedV;

    open spec fn view(&self) -> ChatUpdatedV {
        ChatUpdatedV {
            op: self.op@,
            old: match self.old {
                Some(c) => Some(c@),
                None => None,
            },
            new: match self.new {
                Some(c) => Some(c@),
                None => None,
            },
        }
    }
}

/// A whole chat-mutation payload: `{"op": .., "old": .., "new": ..}` and
/// nothing after it.
pub open spec fn spec_parse_chat_updated(s: Seq<char>) -> Option<ChatUpdatedV> {
    match spec_expect(s, spec_skip_ws(s, 0), '{') {
        None => None,
        Some(a0) => match spec_key(s, spec_skip_ws(s, a0), "op"@) {
            None => None,
            Some(p1) => match spec_parse_string(s, p1) {
                None => None,
                Some((op, q1)) => match spec_next_key(s, q1, "old"@) {
                    None => None,
                    Some(p2) => match spec_parse_opt_chat(s, p2) {
                        None => None,
                        Some((old, q2)) => match spec_next_key(s, q2, "new"@) {
                            None => None,
                            Some(p3) => match spec_parse_opt_chat(s, p3) {
                                None => None,
                                Some((new, q3)) => match spec_expect(
                                    s,
                                    spec_skip_ws(s, q3),
                                    '}',
                                ) {
                                    None => None,
                                    Some(e) => if spec_skip_ws(s, e) == s.len() {
                                        Some(ChatUpdatedV { op, old, new })
                                    } else {
                                        None
                                    },
                                },
                            },
                        },
                    },
                },
            },
        },
    }
}

impl ChatUpdated {
    /// Parses a whole chat-mutation payload.
    pub fn parse(s: &Vec<char>) -> (r: Option<ChatUpdated>)
        ensures
            (match r {
                Some(u) => Some(u@),
                None => None,
            }) == spec_parse_chat_updated(s@),
    {
        let i0 = skip_ws(s, 0);
        let a0 = match expect_char(s, i0, '{') {
            Some(a) => a,
            None => {
                return None;
            },
        };
        let i1 = skip_ws(s, a0);
        let p1 = match parse_key(s, i1, "op") {
            Some(p) => p,
            None => {
                return None;
            },
        };
        let (op, q1) = match parse_string(s, p1) {
            Some(v) => v,
            None => {
                return None;
            },
        };
        let p2 = match parse_next_key(s, q1, "old") {
            Some(p) => p,
            None => {
                return None;
            },
        };
        let (old, q2) = match parse_opt_chat(s, p2) {
            Some(v) => v,
            None => {
                return None;
            },
        };
        let p3 = match parse_next_key(s, q2, "new") {
            Some(p) => p,
            None => {
                return None;
            },
        };
        let (new, q3) = match parse_opt_chat(s, p3) {
            Some(v) => v,
            None => {
                return None;
            },
        };
        let e0 = skip_ws(s, q3);
        let e = match expect_char(s, e0, '}') {
            Some(a) => a,
            None => {
                return None;
            },
        };
        if skip_ws(s, e) != s.len() {
            return None;
        }
        Some(ChatUpdated { op: string_from_chars(&op), old, new })
    }
}

/// Abstract value of a [`MessageCreated`] record.
pub struct MessageCreatedV {
    pub message: MsgV,
    pub members: Seq<i64>,
}

/// A message-created record from the feed: the new message plus the member
/// ids computed at write time.
#[derive(Debug, Clone, PartialEq)]
pub struct MessageCreated {
    pub message: Msg,
    pub members: Vec<i64>,
}

impl View for MessageCreated {
    type V = MessageCreatedV;

    open spec fn view(&self) -> MessageCreatedV {
        MessageCreatedV { message: self.message@, members: self.members@ }
    }
}

/// A whole message-created payload: `{"message": .., "members": ..}` and
/// nothing after it.
pub open spec fn spec_parse_message_created(s: Seq<char>) -> Option<MessageCreatedV> {
    match spec_expect(s, spec_skip_ws(s, 0), '{') {
        None => None,
        Some(a0) => match spec_key(s, spec_skip_ws(s, a0), "message"@) {
            None => None,
            Some(p1) => match spec_parse_msg(s, p1) {
                None => None,
                Some((message, q1)) => match spec_next_key(s, q1, "members"@) {
                    None => None,
                    Some(p2) => match spec_parse_int_array(s, p2) {
                        None => None,
                        Some((members, q2)) => match spec_expect(s, spec_skip_ws(s, q2), '}') {
                            None => None,
                            Some(e) => if spec_skip_ws(s, e) == s.len() {
                                Some(MessageCreatedV { message, members })
                            } else {
                                None
                            },
                        },
                    },
                },
            },
        },
    }
}

impl MessageCreated {
    /// Parses a whole message-created payload.
    pub fn parse(s: &Vec<char>) -> (r: Option<MessageCreated>)
        ensures
            (match r {
                Some(m) => Some(m@),
                None => None,
            }) == spec_parse_message_created(s@),
    {
        let i0 = skip_ws(s, 0);
        let a0 = match expect_char(s, i0, '{') {
            Some(a) => a,
            None => {
                return None;
            },
        };
        let i1 = skip_ws(s, a0);
        let p1 = match parse_key(s, i1, "message") {
            Some(p) => p,
            None => {
                return None;
            },
        };
        let (message, q1) = match parse_msg(s, p1) {
            Some(v) => v,
            None => {
                return None;
            },
        };
        let p2 = match parse_next_key(s, q1, "members") {
            Some(p) => p,
            None => {
                return None;
            },
        };
        let (members, q2) = match parse_int_array(s, p2) {
            Some(v) => v,
            None => {
                return None;
            },
        };
        let e0 = skip_ws(s, q2);
        let e = match expect_char(s, e0, '}') {
            Some(a) => a,
            None => {
                return None;
            },
        };
        if skip_ws(s, e) != s.len() {
            return None;
        }
        Some(MessageCreated { message, members })
    }
}

// -------------------------------------------------------------------------
// Affected users.
// -------------------------------------------------------------------------
/// The member ids of a sequence, read as user ids.
pub open spec fn members_u64_set(ms: Seq<i64>) -> Set<u64> {
    Set::new(|u: u64| exists|k: int| 0 <= k < ms.len() && ms[k] as u64 == u)
}

/// The member ids of an optional chat snapshot, read as user ids.
pub open spec fn members_set(c: Option<ChatV>) -> Set<u64> {
    match c {
        Some(cv) => members_u64_set(cv.members),
        None => Set::empty(),
    }
}

/// The users affected by a chat mutation: everyone who appears in either the
/// old or the new membership snapshot.
pub open spec fn spec_affected_ids(old: Option<ChatV>, new: Option<ChatV>) -> Set<u64> {
    members_set(old).union(members_set(new))
}

fn vec_contains_u64(v: &Vec<u64>, x: u64) -> (r: bool)
    ensures
        r == v@.contains(x),
{
    let n = v.len();
    let mut i: usize = 0;
    while i < n
        invariant
            i <= n,
            n == v@.len(),
            forall|k: int| 0 <= k < i ==> v@[k] != x,
        decreases n - i,
    {
        if v[i] == x {
            return true;
        }
        i += 1;
    }
    false
}

/// Appends every member id, as a user id, that `out` does not hold yet.
fn push_members(out: &mut Vec<u64>, members: &Vec<i64>)
    requires
        old(out)@.no_duplicates(),
    ensures
        final(out)@.no_duplicates(),
        forall|u: u64|
            final(out)@.contains(u) <==> (old(out)@.contains(u) || members_u64_set(
                members@,
            ).contains(u)),
{
    let n = members.len();
    let mut i: usize = 0;
    while i < n
        invariant
            i <= n,
            n == members@.len(),
            out@.no_duplicates(),
            forall|u: u64|
                out@.contains(u) <==> (old(out)@.contains(u) || exists|k: int|
                    0 <= k < i && members@[k] as u64 == u),
        decreases n - i,
    {
        let u = members[i] as u64;
        let ghost prev = out@;
        let had = vec_contains_u64(out, u);
        if !had {
            out.push(u);
            proof {
                assert forall|a: int, b: int| 0 <= a < b < out@.len() implies out@[a] != out@[b] by {
                    if b < prev.len() {
                    } else {
                        assert(out@[b] == u);
                        assert(!prev.contains(u));
                        assert(prev[a] != u);
                    }
                }
            }
        }
        proof {
            let post = out@;
            assert forall|x: u64|
                post.contains(x) implies (old(out)@.contains(x) || exists|k: int|
                    0 <= k < i + 1 && members@[k] as u64 == x) by {
                let idx = choose|idx: int| 0 <= idx < post.len() && post[idx] == x;
                if idx < prev.len() {
                    assert(prev[idx] == x);
                    assert(prev.contains(x));
                    if !old(out)@.contains(x) {
                        let k = choose|k: int| 0 <= k < i && members@[k] as u64 == x;
                        assert(0 <= k < i + 1 && members@[k] as u64 == x);
                    }
                } else {
                    assert(post[idx] == u);
                    assert(members@[i as int] as u64 == x);
                }
            }
            assert forall|x: u64|
                (old(out)@.contains(x) || exists|k: int|
                    0 <= k < i + 1 && members@[k] as u64 == x) implies post.contains(x) by {
                if old(out)@.contains(x) || (exists|k: int|
                    0 <= k < i && members@[k] as u64 == x) {
                    assert(prev.contains(x));
                    let idx = choose|idx: int| 0 <= idx < prev.len() && prev[idx] == x;
                    assert(post[idx] == x);
                } else {
                    let k = choose|k: int| 0 <= k < i + 1 && members@[k] as u64 == x;
                    assert(k == i);
                    assert(x == u);
                    if had {
                        assert(prev.contains(u));
                        let idx = choose|idx: int| 0 <= idx < prev.len() && prev[idx] == u;
                        assert(post[idx] == u);
                    } else {
                        assert(post[prev.len() as int] == u);
                    }
                }
            }
        }
        i += 1;
    }
}

/// The affected user ids of a chat mutation, without duplicates.
impl ChatUpdated {
    pub fn get_affected_chat_user_ids(&self) -> (r: Vec<u64>)
        ensures
            r@.no_duplicates(),
            r@.to_set() == spec_affected_ids(self@.old, self@.new),
    {
        let mut out: Vec<u64> = Vec::new();
        match &self.old {
            Some(c) => push_members(&mut out, &c.members),
            None => (),
        }
        match &self.new {
            Some(c) => push_members(&mut out, &c.members),
            None => (),
        }
        proof {
            assert(out@.to_set() =~= spec_affected_ids(self@.old, self@.new));
        }
        out
    }
}

// -------------------------------------------------------------------------
// Decoding.
// -------------------------------------------------------------------------
/// Abstract value of a [`Notification`].
pub struct NotificationV {
    pub user_ids: Set<u64>,
    pub event: AppEventV,
}

/// One decoded notification: the event and the users it is delivered to.
#[derive(Debug, Clone)]
pub struct Notification {
    pub user_ids: Vec<u64>,
    pub event: Arc<AppEvent>,
}

impl View for Notification {
    type V = NotificationV;

    open spec fn view(&self) -> NotificationV {
        NotificationV { user_ids: self.user_ids@.to_set(), event: self.event@ }
    }
}

pub open spec fn res_view(r: Result<Notification, AppError>) -> Result<NotificationV, AppErrorV> {
    match r {
        Ok(n) => Ok(n@),
        Err(e) => Err(e@),
    }
}

/// What decoding a chat-mutation record yields: the event named by the
/// operation tag, carrying the snapshot that must be present, and the union
/// of the two membership snapshots as affected users.
pub open spec fn spec_decode_chat_updated(u: ChatUpdatedV) -> Result<NotificationV, AppErrorV> {
    if u.op == "INSERT"@ {
        match u.new {
            Some(c) => Ok(
                NotificationV {
                    user_ids: spec_affected_ids(u.old, u.new),
                    event: AppEventV::NewChat(c),
                },
            ),
            None => Err(AppErrorV::DecodeError("missing new chat snapshot"@)),
        }
    } else if u.op == "UPDATE"@ {
        match u.new {
            Some(c) => Ok(
                NotificationV {
                    user_ids: spec_affected_ids(u.old, u.new),
                    event: AppEventV::AddToChat(c),
                },
            ),
            None => Err(AppErrorV::DecodeError("missing new chat snapshot"@)),
        }
    } else if u.op == "DELETE"@ {
        match u.old {
            Some(c) => Ok(
                NotificationV {
                    user_ids: spec_affected_ids(u.old, u.new),
                    event: AppEventV::RemoveFromChat(c),
                },
            ),
            None => Err(AppErrorV::DecodeError("missing old chat snapshot"@)),
        }
    } else {
        Err(AppErrorV::InvalidError(u.op))
    }
}

impl ChatUpdated {
    /// Decodes this record into the event and its audience.
    pub fn decode(self) -> (r: Result<Notification, AppError>)
        ensures
            res_view(r) == spec_decode_chat_updated(self@),
            r matches Ok(n) ==> n.user_ids@.no_duplicates(),
    {
        let ids = self.get_affected_chat_user_ids();
        if str_eq(self.op.as_str(), "INSERT") {
            match self.new {
                Some(c) => Ok(
                    Notification { user_ids: ids, event: Arc::new(AppEvent::NewChat(c)) },
                ),
                None => Err(AppError::DecodeError("missing new chat snapshot".to_owned())),
            }
        } else if str_eq(self.op.as_str(), "UPDATE") {
            match self.new {
                Some(c) => Ok(
                    Notification { user_ids: ids, event: Arc::new(AppEvent::AddToChat(c)) },
                ),
                None => Err(AppError::DecodeError("missing new chat snapshot".to_owned())),
            }
        } else if str_eq(self.op.as_str(), "DELETE") {
            match self.old {
                Some(c) => Ok(
                    Notification { user_ids: ids, event: Arc::new(AppEvent::RemoveFromChat(c)) },
                ),
                None => Err(AppError::DecodeError("missing old chat snapshot".to_owned())),
            }
        } else {
            Err(AppError::InvalidError(self.op))
        }
    }
}

/// What decoding a raw notification yields, for every channel name and
/// payload text.
pub open spec fn spec_try_load(rtype: Seq<char>, payload: Seq<char>) -> Result<
    NotificationV,
    AppErrorV,
> {
    if rtype == "chat_updated"@ {
        match spec_parse_chat_updated(payload) {
            Some(u) => spec_decode_chat_updated(u),
            None => Err(AppErrorV::DecodeError("malformed chat mutation payload"@)),
        }
    } else if rtype == "chat_message_created"@ {
        match spec_parse_message_created(payload) {
            Some(m) => Ok(
                NotificationV {
                    user_ids: members_u64_set(m.members),
                    event: AppEventV::NewMessage(m.message),
                },
            ),
            None => Err(AppErrorV::DecodeError("malformed message payload"@)),
        }
    } else {
        Err(AppErrorV::InvalidError(rtype))
    }
}

impl Notification {
    /// Decodes a raw feed notification: `rtype` is the channel name, `payload`
    /// its JSON text.
    pub fn try_load(rtype: &str, payload: &str) -> (r: Result<Notification, AppError>)
        ensures
            res_view(r) == spec_try_load(rtype@, payload@),
            r matches Ok(n) ==> n.user_ids@.no_duplicates(),
    {
        if str_eq(rtype, "chat_updated") {
            let chars = chars_vec(payload);
            match ChatUpdated::parse(&chars) {
                Some(u) => u.decode(),
                None => Err(AppError::DecodeError("malformed chat mutation payload".to_owned())),
            }
        } else if str_eq(rtype, "chat_message_created") {
            let chars = chars_vec(payload);
            match MessageCreated::parse(&chars) {
                Some(m) => {
                    let mut ids: Vec<u64> = Vec::new();
                    push_members(&mut ids, &m.members);
                    proof {
                        assert(ids@.to_set() =~= members_u64_set(m.members@));
                    }
                    Ok(Notification { user_ids: ids, event: Arc::new(AppEvent::NewMessage(m.message)) })
                },
                None => Err(AppError::DecodeError("malformed message payload".to_owned())),
            }
        } else {
            Err(AppError::InvalidError(rtype.to_owned()))
        }
    }
}

// -------------------------------------------------------------------------
// Decoder laws.
// -------------------------------------------------------------------------
/// An INSERT record with no old snapshot and a present new snapshot decodes
/// to a NewChat event carrying the new snapshot, and affects exactly the new
/// snapshot's members.
pub proof fn lemma_decode_insert_affects_new_members(u: ChatUpdatedV, c: ChatV)
    requires
        u.op == "INSERT"@,
        u.old is None,
        u.new == Some(c),
    ensures
        spec_decode_chat_updated(u) == Ok::<NotificationV, AppErrorV>(
            NotificationV { user_ids: members_u64_set(c.members), event: AppEventV::NewChat(c) },
        ),
{
    assert(spec_affected_ids(u.old, u.new) =~= members_u64_set(c.members));
}

/// An UPDATE record with a present new snapshot decodes to an AddToChat event
/// carrying the new snapshot, and affects the union of the old and the new
/// membership snapshots, also when the two differ.
pub proof fn lemma_decode_update_affects_union(u: ChatUpdatedV, c: ChatV)
    requires
        u.op == "UPDATE"@,
        u.new == Some(c),
    ensures
        spec_decode_chat_updated(u) == Ok::<NotificationV, AppErrorV>(
            NotificationV {
                user_ids: members_set(u.old).union(members_set(u.new)),
                event: AppEventV::AddToChat(c),
            },
        ),
{
    reveal_strlit("INSERT");
    reveal_strlit("UPDATE");
    assert("INSERT"@[0] == 'I');
    assert("UPDATE"@[0] == 'U');
    assert("INSERT"@ != "UPDATE"@);
}

/// A DELETE record with a present old snapshot and no new snapshot decodes to
/// a RemoveFromChat event carrying the old snapshot, and affects exactly the
/// old snapshot's members.
pub proof fn lemma_decode_delete_yields_remove(u: ChatUpdatedV, c: ChatV)
    requires
        u.op == "DELETE"@,
        u.old == Some(c),
        u.new is None,
    ensures
        spec_decode_chat_updated(u) == Ok::<NotificationV, AppErrorV>(
            NotificationV {
                user_ids: members_u64_set(c.members),
                event: AppEventV::RemoveFromChat(c),
            },
        ),
{
    reveal_strlit("INSERT");
    reveal_strlit("UPDATE");
    reveal_strlit("DELETE");
    assert("INSERT"@[0] == 'I');
    assert("UPDATE"@[0] == 'U');
    assert("DELETE"@[0] == 'D');
    assert(spec_affected_ids(u.old, u.new) =~= members_u64_set(c.members));
}

/// A record whose operation tag is none of INSERT, UPDATE and DELETE fails to
/// decode, with the unrecognised tag in the error.
pub proof fn lemma_decode_unknown_op(u: ChatUpdatedV)
    requires
        u.op != "INSERT"@,
        u.op != "UPDATE"@,
        u.op != "DELETE"@,
    ensures
        spec_decode_chat_updated(u) == Err::<NotificationV, AppErrorV>(
            AppErrorV::InvalidError(u.op),
        ),
{
}

/// On the chat-mutation channel, decoding a payload text is exactly parsing
/// it and decoding the parsed record: the laws above apply to the raw text.
pub proof fn lemma_try_load_chat_updated(payload: Seq<char>, u: ChatUpdatedV)
    requires
        spec_parse_chat_updated(payload) == Some(u),
    ensures
        spec_try_load("chat_updated"@, payload) == spec_decode_chat_updated(u),
{
}

/// A notification on an unrecognised channel fails to decode, with the
/// channel name in the error, whatever the payload says.
pub proof fn lemma_unknown_channel(rtype: Seq<char>, payload: Seq<char>)
    requires
        rtype != "chat_updated"@,
        rtype != "chat_message_created"@,
    ensures
        spec_try_load(rtype, payload) == Err::<NotificationV, AppErrorV>(
            AppErrorV::InvalidError(rtype),
        ),
{
}

} // verus!
