//! The wire records of the platform.
//!
//! Each record knows its JSON form both ways: `to_json` writes exactly the
//! present fields (absent optional fields are omitted, never null), and
//! `from_json` reads a JSON value back, failing on a missing required
//! field or a field of the wrong type.  For every record that a call can
//! declare as its result shape, decoding its own encoding reproduces the
//! record — the round-trip lemmas below state that.

use vstd::prelude::*;
use crate::dispatcher::UpdateKind;
use crate::json::{
    JsonV, JsonValue, jv, jv_fields, jv_items, obj_get, field, opt_field, get_int, get_str,
    get_bool, get_arr, get_obj, opt_str, opt_int, opt_bool, lemma_jv_fields, lemma_jv_items, decode_list,
    lemma_obj_get_empty, lemma_obj_get_field, lemma_obj_get_opt_field, lemma_obj_get_append,
    lookup, read_int, read_str, read_bool, read_arr, read_obj, read_opt_str, read_opt_int,
    read_opt_bool,
};

verus! {

/// View of an optional string.
pub open spec fn vos(o: Option<String>) -> Option<Seq<char>> {
    match o {
        Some(s) => Some(s@),
        None => None,
    }
}

/// An optional string as an optional JSON string.
pub open spec fn map_str(o: Option<Seq<char>>) -> Option<JsonV> {
    match o {
        Some(s) => Some(JsonV::Str(s)),
        None => None,
    }
}

/// An optional integer as an optional JSON integer.
pub open spec fn map_int(o: Option<i64>) -> Option<JsonV> {
    match o {
        Some(i) => Some(JsonV::Int(i)),
        None => None,
    }
}

/// An optional boolean as an optional JSON boolean.
pub open spec fn map_bool(o: Option<bool>) -> Option<JsonV> {
    match o {
        Some(b) => Some(JsonV::Bool(b)),
        None => None,
    }
}

/// A user or bot on the platform.
pub struct User {
    pub id: i64,
    pub first_name: String,
    pub last_name: Option<String>,
    pub username: Option<String>,
}

pub struct UserV {
    pub id: i64,
    pub first_name: Seq<char>,
    pub last_name: Option<Seq<char>>,
    pub username: Option<Seq<char>>,
}

impl View for User {
    type V = UserV;

    open spec fn view(&self) -> UserV {
        UserV {
            id: self.id,
            first_name: self.first_name@,
            last_name: vos(self.last_name),
            username: vos(self.username),
        }
    }
}

pub open spec fn user_fields(u: UserV) -> Seq<(Seq<char>, JsonV)> {
    field("id"@, JsonV::Int(u.id)) + field("first_name"@, JsonV::Str(u.first_name)) + opt_field(
        "last_name"@,
        map_str(u.last_name),
    ) + opt_field("username"@, map_str(u.username))
}

pub open spec fn user_to_json(u: UserV) -> JsonV {
    JsonV::Obj(user_fields(u))
}

pub open spec fn user_from_json(v: JsonV) -> Option<UserV> {
    match v {
        JsonV::Obj(f) => match (get_int(f, "id"@), get_str(f, "first_name"@)) {
            (Some(id), Some(first_name)) => match (opt_str(f, "last_name"@), opt_str(
                f,
                "username"@,
            )) {
                (Some(last_name), Some(username)) => Some(
                    UserV { id, first_name, last_name, username },
                ),
                _ => None,
            },
            _ => None,
        },
        _ => None,
    }
}

impl User {
    /// This record as the JSON object the wire carries.
    pub fn to_json(&self) -> (r: JsonValue)
        ensures
            r@ == user_to_json(self@),
    {
        let mut f: Vec<(String, JsonValue)> = Vec::new();
        f.push((String::from_str("id"), JsonValue::Int(self.id)));
        f.push((String::from_str("first_name"), JsonValue::Str(self.first_name.clone())));
        match &self.last_name {
            Some(s) => f.push((String::from_str("last_name"), JsonValue::Str(s.clone()))),
            None => {},
        }
        match &self.username {
            Some(s) => f.push((String::from_str("username"), JsonValue::Str(s.clone()))),
            None => {},
        }
        proof {
            lemma_jv_fields(f@);
            assert(jv_fields(f@) =~= user_fields(self@));
        }
        JsonValue::Obj(f)
    }

    /// Read this record back from a JSON value.
    pub fn from_json(v: &JsonValue) -> (r: Option<User>)
        ensures
            match r {
                Some(u) => user_from_json(v@) == Some(u@),
                None => user_from_json(v@) is None,
            },
    {
        match v {
            JsonValue::Obj(f) => {
                let id = match read_int(f, &String::from_str("id")) {
                    Some(x) => x,
                    None => {
                        return None;
                    },
                };
                let first_name = match read_str(f, &String::from_str("first_name")) {
                    Some(x) => x,
                    None => {
                        return None;
                    },
                };
                let last_name = match read_opt_str(f, &String::from_str("last_name")) {
                    Some(x) => x,
                    None => {
                        return None;
                    },
                };
                let username = match read_opt_str(f, &String::from_str("username")) {
                    Some(x) => x,
                    None => {
                        return None;
                    },
                };
                Some(User { id, first_name, last_name, username })
            },
            _ => None,
        }
    }
}

/// Decoding an encoded user gives the user back, for every user.
pub proof fn lemma_user_round_trip(u: UserV)
    ensures
        user_from_json(user_to_json(u)) == Some(u),
{
    broadcast use lemma_obj_get_empty, lemma_obj_get_field, lemma_obj_get_opt_field, lemma_obj_get_append;
    broadcast use vstd::string::group_string_axioms;

    reveal_strlit("id");
    reveal_strlit("first_name");
    reveal_strlit("last_name");
    reveal_strlit("username");
    assert("id"@.len() == 2);
    assert("first_name"@.len() == 10);
    assert("last_name"@.len() == 9);
    assert("username"@.len() == 8);
}

/// View of an optional user.
pub open spec fn vou(o: Option<User>) -> Option<UserV> {
    match o {
        Some(u) => Some(u@),
        None => None,
    }
}

/// View of an optional photo size.
pub open spec fn vop(o: Option<PhotoSize>) -> Option<PhotoSizeV> {
    match o {
        Some(p) => Some(p@),
        None => None,
    }
}

/// An optional user as an optional JSON object.
pub open spec fn map_user(o: Option<UserV>) -> Option<JsonV> {
    match o {
        Some(u) => Some(user_to_json(u)),
        None => None,
    }
}

/// An optional photo size as an optional JSON object.
pub open spec fn map_photo_size(o: Option<PhotoSizeV>) -> Option<JsonV> {
    match o {
        Some(p) => Some(photo_size_to_json(p)),
        None => None,
    }
}

/// A required nested user field.
pub open spec fn req_user(f: Seq<(Seq<char>, JsonV)>, k: Seq<char>) -> Option<UserV> {
    match obj_get(f, k) {
        Some(v) => user_from_json(v),
        None => None,
    }
}

/// An optional nested user field: absent or null is fine, a value that is
/// no user is not.
pub open spec fn opt_user(f: Seq<(Seq<char>, JsonV)>, k: Seq<char>) -> Option<Option<UserV>> {
    match obj_get(f, k) {
        None => Some(None),
        Some(JsonV::Null) => Some(None),
        Some(v) => match user_from_json(v) {
            Some(u) => Some(Some(u)),
            None => None,
        },
    }
}

/// An optional nested photo size field, as `opt_user`.
pub open spec fn opt_photo_size(f: Seq<(Seq<char>, JsonV)>, k: Seq<char>) -> Option<
    Option<PhotoSizeV>,
> {
    match obj_get(f, k) {
        None => Some(None),
        Some(JsonV::Null) => Some(None),
        Some(v) => match photo_size_from_json(v) {
            Some(p) => Some(Some(p)),
            None => None,
        },
    }
}


/// A conversation: private, group, supergroup or channel.
pub struct Chat {
    pub id: i64,
    pub kind: String,
    pub title: Option<String>,
    pub username: Option<String>,
    pub first_name: Option<String>,
    pub last_name: Option<String>,
    pub all_members_are_administrators: Option<bool>,
}

pub struct ChatV {
    pub id: i64,
    pub kind: Seq<char>,
    pub title: Option<Seq<char>>,
    pub username: Option<Seq<char>>,
    pub first_name: Option<Seq<char>>,
    pub last_name: Option<Seq<char>>,
    pub all_members_are_administrators: Option<bool>,
}

impl View for Chat {
    type V = ChatV;

    open spec fn view(&self) -> ChatV {
        ChatV {
            id: self.id,
            kind: self.kind@,
            title: vos(self.title),
            username: vos(self.username),
            first_name: vos(self.first_name),
            last_name: vos(self.last_name),
            all_members_are_administrators: self.all_members_are_administrators,
        }
    }
}

pub open spec fn chat_fields(u: ChatV) -> Seq<(Seq<char>, JsonV)> {
    field("id"@, JsonV::Int(u.id)) + field("type"@, JsonV::Str(u.kind)) + opt_field("title"@, map_str(u.title)) + opt_field("username"@, map_str(u.username)) + opt_field("first_name"@, map_str(u.first_name)) + opt_field("last_name"@, map_str(u.last_name)) + opt_field("all_members_are_administrators"@, map_bool(u.all_members_are_administrators))
}

pub open spec fn chat_to_json(u: ChatV) -> JsonV {
    JsonV::Obj(chat_fields(u))
}

pub open spec fn chat_from_json(v: JsonV) -> Option<ChatV> {
    match v {
        JsonV::Obj(f) => {
            match get_int(f, "id"@) {
                Some(id) => {
                    match get_str(f, "type"@) {
                        Some(kind) => {
                            match opt_str(f, "title"@) {
                                Some(title) => {
                                    match opt_str(f, "username"@) {
                                        Some(username) => {
                                            match opt_str(f, "first_name"@) {
                                                Some(first_name) => {
                                                    match opt_str(f, "last_name"@) {
                                                        Some(last_name) => {
                                                            match opt_bool(f, "all_members_are_administrators"@) {
                                                                Some(all_members_are_administrators) => {
                                                                    Some(ChatV { id, kind, title, username, first_name, last_name, all_members_are_administrators })
                                                                },
                                                                _ => None,
                                                            }
                                                        },
                                                        _ => None,
                                                    }
                                                },
                                                _ => None,
                                            }
                                        },
                                        _ => None,
                                    }
                                },
                                _ => None,
                            }
                        },
                        _ => None,
                    }
                },
                _ => None,
            }
        },
        _ => None,
    }
}

impl Chat {
    /// This record as the JSON object the wire carries.
    pub fn to_json(&self) -> (r: JsonValue)
        ensures
            r@ == chat_to_json(self@),
    {
        let mut f: Vec<(String, JsonValue)> = Vec::new();
        f.push((String::from_str("id"), JsonValue::Int(self.id)));
        f.push((String::from_str("type"), JsonValue::Str(self.kind.clone())));
        match &self.title {
            Some(s) => f.push((String::from_str("title"), JsonValue::Str(s.clone()))),
            None => {},
        }
        match &self.username {
            Some(s) => f.push((String::from_str("username"), JsonValue::Str(s.clone()))),
            None => {},
        }
        match &self.first_name {
            Some(s) => f.push((String::from_str("first_name"), JsonValue::Str(s.clone()))),
            None => {},
        }
        match &self.last_name {
            Some(s) => f.push((String::from_str("last_name"), JsonValue::Str(s.clone()))),
            None => {},
        }
        match &self.all_members_are_administrators {
            Some(x) => f.push((String::from_str("all_members_are_administrators"), JsonValue::Bool(*x))),
            None => {},
        }
        proof {
            lemma_jv_fields(f@);
            assert(jv_fields(f@) =~= chat_fields(self@));
        }
        JsonValue::Obj(f)
    }

    /// Read this record back from a JSON value.
    pub fn from_json(v: &JsonValue) -> (r: Option<Chat>)
        ensures
            match r {
                Some(u) => chat_from_json(v@) == Some(u@),
                None => chat_from_json(v@) is None,
            },
    {
        match v {
            JsonValue::Obj(f) => {
                let id = match read_int(f, &String::from_str("id")) {
                    Some(x) => x,
                    None => {
                        return None;
                    },
                };
                let kind = match read_str(f, &String::from_str("type")) {
                    Some(x) => x,
                    None => {
                        return None;
                    },
                };
                let title = match read_opt_str(f, &String::from_str("title")) {
                    Some(x) => x,
                    None => {
                        return None;
                    },
                };
                let username = match read_opt_str(f, &String::from_str("username")) {
                    Some(x) => x,
                    None => {
                        return None;
                    },
                };
                let first_name = match read_opt_str(f, &String::from_str("first_name")) {
                    Some(x) => x,
                    None => {
                        return None;
                    },
                };
                let last_name = match read_opt_str(f, &String::from_str("last_name")) {
                    Some(x) => x,
                    None => {
                        return None;
                    },
                };
                let all_members_are_administrators = match read_opt_bool(f, &String::from_str("all_members_are_administrators")) {
                    Some(x) => x,
                    None => {
                        return None;
                    },
                };
                Some(Chat { id, kind, title, username, first_name, last_name, all_members_are_administrators })
            },
            _ => None,
        }
    }
}

/// Decoding an encoded record gives it back, for every value.
pub proof fn lemma_chat_round_trip(u: ChatV)
    ensures
        chat_from_json(chat_to_json(u)) == Some(u),
{
    broadcast use lemma_obj_get_empty, lemma_obj_get_field, lemma_obj_get_opt_field, lemma_obj_get_append;
    broadcast use vstd::string::group_string_axioms;

    reveal_strlit("id");
    reveal_strlit("type");
    reveal_strlit("title");
    reveal_strlit("username");
    reveal_strlit("first_name");
    reveal_strlit("last_name");
    reveal_strlit("all_members_are_administrators");
    assert("id"@.len() == 2);
    assert("type"@.len() == 4);
    assert("title"@.len() == 5);
    assert("username"@.len() == 8);
    assert("first_name"@.len() == 10);
    assert("last_name"@.len() == 9);
    assert("all_members_are_administrators"@.len() == 30);
}

/// One size of a photo or of a file/sticker thumbnail.
pub struct PhotoSize {
    pub width: i64,
    pub file_id: String,
    pub height: i64,
    pub file_size: Option<i64>,
}

pub struct PhotoSizeV {
    pub width: i64,
    pub file_id: Seq<char>,
    pub height: i64,
    pub file_size: Option<i64>,
}

impl View for PhotoSize {
    type V = PhotoSizeV;

    open spec fn view(&self) -> PhotoSizeV {
        PhotoSizeV {
            width: self.width,
            file_id: self.file_id@,
            height: self.height,
            file_size: self.file_size,
        }
    }
}

pub open spec fn photo_size_fields(u: PhotoSizeV) -> Seq<(Seq<char>, JsonV)> {
    field("width"@, JsonV::Int(u.width)) + field("file_id"@, JsonV::Str(u.file_id)) + field("height"@, JsonV::Int(u.height)) + opt_field("file_size"@, map_int(u.file_size))
}

pub open spec fn photo_size_to_json(u: PhotoSizeV) -> JsonV {
    JsonV::Obj(photo_size_fields(u))
}

pub open spec fn photo_size_from_json(v: JsonV) -> Option<PhotoSizeV> {
    match v {
        JsonV::Obj(f) => {
            match get_int(f, "width"@) {
                Some(width) => {
                    match get_str(f, "file_id"@) {
                        Some(file_id) => {
                            match get_int(f, "height"@) {
                                Some(height) => {
                                    match opt_int(f, "file_size"@) {
                                        Some(file_size) => {
                                            Some(PhotoSizeV { width, file_id, height, file_size })
                                        },
                                        _ => None,
                                    }
                                },
                                _ => None,
                            }
                        },
                        _ => None,
                    }
                },
                _ => None,
            }
        },
        _ => None,
    }
}

impl PhotoSize {
    /// This record as the JSON object the wire carries.
    pub fn to_json(&self) -> (r: JsonValue)
        ensures
            r@ == photo_size_to_json(self@),
    {
        let mut f: Vec<(String, JsonValue)> = Vec::new();
        f.push((String::from_str("width"), JsonValue::Int(self.width)));
        f.push((String::from_str("file_id"), JsonValue::Str(self.file_id.clone())));
        f.push((String::from_str("height"), JsonValue::Int(self.height)));
        match &self.file_size {
            Some(x) => f.push((String::from_str("file_size"), JsonValue::Int(*x))),
            None => {},
        }
        proof {
            lemma_jv_fields(f@);
            assert(jv_fields(f@) =~= photo_size_fields(self@));
        }
        JsonValue::Obj(f)
    }

    /// Read this record back from a JSON value.
    pub fn from_json(v: &JsonValue) -> (r: Option<PhotoSize>)
        ensures
            match r {
                Some(u) => photo_size_from_json(v@) == Some(u@),
                None => photo_size_from_json(v@) is None,
            },
    {
        match v {
            JsonValue::Obj(f) => {
                let width = match read_int(f, &String::from_str("width")) {
                    Some(x) => x,
                    None => {
                        return None;
                    },
                };
                let file_id = match read_str(f, &String::from_str("file_id")) {
                    Some(x) => x,
                    None => {
                        return None;
                    },
                };
                let height = match read_int(f, &String::from_str("height")) {
                    Some(x) => x,
                    None => {
                        return None;
                    },
                };
                let file_size = match read_opt_int(f, &String::from_str("file_size")) {
                    Some(x) => x,
                    None => {
                        return None;
                    },
                };
                Some(PhotoSize { width, file_id, height, file_size })
            },
            _ => None,
        }
    }
}

/// Decoding an encoded record gives it back, for every value.
pub proof fn lemma_photo_size_round_trip(u: PhotoSizeV)
    ensures
        photo_size_from_json(photo_size_to_json(u)) == Some(u),
{
    broadcast use lemma_obj_get_empty, lemma_obj_get_field, lemma_obj_get_opt_field, lemma_obj_get_append;
    broadcast use vstd::string::group_string_axioms;

    reveal_strlit("width");
    reveal_strlit("file_id");
    reveal_strlit("height");
    reveal_strlit("file_size");
    assert("width"@.len() == 5);
    assert("file_id"@.len() == 7);
    assert("height"@.len() == 6);
    assert("file_size"@.len() == 9);
}

/// One special entity in a text message: hashtag, username, URL and the like.
pub struct MessageEntity {
    pub kind: String,
    pub offset: i64,
    pub length: i64,
    pub url: Option<String>,
    pub user: Option<User>,
}

pub struct MessageEntityV {
    pub kind: Seq<char>,
    pub offset: i64,
    pub length: i64,
    pub url: Option<Seq<char>>,
    pub user: Option<UserV>,
}

impl View for MessageEntity {
    type V = MessageEntityV;

    open spec fn view(&self) -> MessageEntityV {
        MessageEntityV {
            kind: self.kind@,
            offset: self.offset,
            length: self.length,
            url: vos(self.url),
            user: vou(self.user),
        }
    }
}

pub open spec fn message_entity_fields(u: MessageEntityV) -> Seq<(Seq<char>, JsonV)> {
    field("type"@, JsonV::Str(u.kind)) + field("offset"@, JsonV::Int(u.offset)) + field("length"@, JsonV::Int(u.length)) + opt_field("url"@, map_str(u.url)) + opt_field("user"@, map_user(u.user))
}

pub open spec fn message_entity_to_json(u: MessageEntityV) -> JsonV {
    JsonV::Obj(message_entity_fields(u))
}

pub open spec fn message_entity_from_json(v: JsonV) -> Option<MessageEntityV> {
    match v {
        JsonV::Obj(f) => {
            match get_str(f, "type"@) {
                Some(kind) => {
                    match get_int(f, "offset"@) {
                        Some(offset) => {
                            match get_int(f, "length"@) {
                                Some(length) => {
                                    match opt_str(f, "url"@) {
                                        Some(url) => {
                                            match opt_user(f, "user"@) {
                                                Some(user) => {
                                                    Some(MessageEntityV { kind, offset, length, url, user })
                                                },
                                                _ => None,
                                            }
                                        },
                                        _ => None,
                                    }
                                },
                                _ => None,
                            }
                        },
                        _ => None,
                    }
                },
                _ => None,
            }
        },
        _ => None,
    }
}

impl MessageEntity {
    /// This record as the JSON object the wire carries.
    pub fn to_json(&self) -> (r: JsonValue)
        ensures
            r@ == message_entity_to_json(self@),
    {
        let mut f: Vec<(String, JsonValue)> = Vec::new();
        f.push((String::from_str("type"), JsonValue::Str(self.kind.clone())));
        f.push((String::from_str("offset"), JsonValue::Int(self.offset)));
        f.push((String::from_str("length"), JsonValue::Int(self.length)));
        match &self.url {
            Some(s) => f.push((String::from_str("url"), JsonValue::Str(s.clone()))),
            None => {},
        }
        match &self.user {
            Some(x) => f.push((String::from_str("user"), x.to_json())),
            None => {},
        }
        proof {
            lemma_jv_fields(f@);
            assert(jv_fields(f@) =~= message_entity_fields(self@));
        }
        JsonValue::Obj(f)
    }

    /// Read this record back from a JSON value.
    pub fn from_json(v: &JsonValue) -> (r: Option<MessageEntity>)
        ensures
            match r {
                Some(u) => message_entity_from_json(v@) == Some(u@),
                None => message_entity_from_json(v@) is None,
            },
    {
        match v {
            JsonValue::Obj(f) => {
                let kind = match read_str(f, &String::from_str("type")) {
                    Some(x) => x,
                    None => {
                        return None;
                    },
                };
                let offset = match read_int(f, &String::from_str("offset")) {
                    Some(x) => x,
                    None => {
                        return None;
                    },
                };
                let length = match read_int(f, &String::from_str("length")) {
                    Some(x) => x,
                    None => {
                        return None;
                    },
                };
                let url = match read_opt_str(f, &String::from_str("url")) {
                    Some(x) => x,
                    None => {
                        return None;
                    },
                };
                let user = match lookup(f, &String::from_str("user")) {
                    None => None,
                    Some(JsonValue::Null) => None,
                    Some(v) => match User::from_json(v) {
                        Some(x) => Some(x),
                        None => {
                            return None;
                        },
                    },
                };
                Some(MessageEntity { kind, offset, length, url, user })
            },
            _ => None,
        }
    }
}

/// Decoding an encoded record gives it back, for every value.
pub proof fn lemma_message_entity_round_trip(u: MessageEntityV)
    ensures
        message_entity_from_json(message_entity_to_json(u)) == Some(u),
{
    broadcast use lemma_obj_get_empty, lemma_obj_get_field, lemma_obj_get_opt_field, lemma_obj_get_append;
    broadcast use vstd::string::group_string_axioms;

    reveal_strlit("type");
    reveal_strlit("offset");
    reveal_strlit("length");
    reveal_strlit("url");
    reveal_strlit("user");
    assert("type"@.len() == 4);
    assert("offset"@.len() == 6);
    assert("length"@.len() == 6);
    assert("url"@.len() == 3);
    assert("user"@.len() == 4);
    assert("type"@[0] == 't');
    assert("user"@[0] == 'u');
    assert("offset"@[0] == 'o');
    assert("length"@[0] == 'l');
    match u.user {
        Some(x) => lemma_user_round_trip(x),
        None => {},
    }
}

/// An audio file, shown as music.
pub struct Audio {
    pub file_id: String,
    pub duration: i64,
    pub performer: Option<String>,
    pub title: Option<String>,
    pub mime_type: Option<String>,
    pub file_size: Option<i64>,
}

pub struct AudioV {
    pub file_id: Seq<char>,
    pub duration: i64,
    pub performer: Option<Seq<char>>,
    pub title: Option<Seq<char>>,
    pub mime_type: Option<Seq<char>>,
    pub file_size: Option<i64>,
}

impl View for Audio {
    type V = AudioV;

    open spec fn view(&self) -> AudioV {
        AudioV {
            file_id: self.file_id@,
            duration: self.duration,
            performer: vos(self.performer),
            title: vos(self.title),
            mime_type: vos(self.mime_type),
            file_size: self.file_size,
        }
    }
}

pub open spec fn audio_fields(u: AudioV) -> Seq<(Seq<char>, JsonV)> {
    field("file_id"@, JsonV::Str(u.file_id)) + field("duration"@, JsonV::Int(u.duration)) + opt_field("performer"@, map_str(u.performer)) + opt_field("title"@, map_str(u.title)) + opt_field("mime_type"@, map_str(u.mime_type)) + opt_field("file_size"@, map_int(u.file_size))
}

pub open spec fn audio_to_json(u: AudioV) -> JsonV {
    JsonV::Obj(audio_fields(u))
}

pub open spec fn audio_from_json(v: JsonV) -> Option<AudioV> {
    match v {
        JsonV::Obj(f) => {
            match get_str(f, "file_id"@) {
                Some(file_id) => {
                    match get_int(f, "duration"@) {
                        Some(duration) => {
                            match opt_str(f, "performer"@) {
                                Some(performer) => {
                                    match opt_str(f, "title"@) {
                                        Some(title) => {
                                            match opt_str(f, "mime_type"@) {
                                                Some(mime_type) => {
                                                    match opt_int(f, "file_size"@) {
                                                        Some(file_size) => {
                                                            Some(AudioV { file_id, duration, performer, title, mime_type, file_size })
                                                        },
                                                        _ => None,
                                                    }
                                                },
                                                _ => None,
                                            }
                                        },
                                        _ => None,
                                    }
                                },
                                _ => None,
                            }
                        },
                        _ => None,
                    }
                },
                _ => None,
            }
        },
        _ => None,
    }
}

impl Audio {
    /// This record as the JSON object the wire carries.
    pub fn to_json(&self) -> (r: JsonValue)
        ensures
            r@ == audio_to_json(self@),
    {
        let mut f: Vec<(String, JsonValue)> = Vec::new();
        f.push((String::from_str("file_id"), JsonValue::Str(self.file_id.clone())));
        f.push((String::from_str("duration"), JsonValue::Int(self.duration)));
        match &self.performer {
            Some(s) => f.push((String::from_str("performer"), JsonValue::Str(s.clone()))),
            None => {},
        }
        match &self.title {
            Some(s) => f.push((String::from_str("title"), JsonValue::Str(s.clone()))),
            None => {},
        }
        match &self.mime_type {
            Some(s) => f.push((String::from_str("mime_type"), JsonValue::Str(s.clone()))),
            None => {},
        }
        match &self.file_size {
            Some(x) => f.push((String::from_str("file_size"), JsonValue::Int(*x))),
            None => {},
        }
        proof {
            lemma_jv_fields(f@);
            assert(jv_fields(f@) =~= audio_fields(self@));
        }
        JsonValue::Obj(f)
    }

    /// Read this record back from a JSON value.
    pub fn from_json(v: &JsonValue) -> (r: Option<Audio>)
        ensures
            match r {
                Some(u) => audio_from_json(v@) == Some(u@),
                None => audio_from_json(v@) is None,
            },
    {
        match v {
            JsonValue::Obj(f) => {
                let file_id = match read_str(f, &String::from_str("file_id")) {
                    Some(x) => x,
                    None => {
                        return None;
                    },
                };
                let duration = match read_int(f, &String::from_str("duration")) {
                    Some(x) => x,
                    None => {
                        return None;
                    },
                };
                let performer = match read_opt_str(f, &String::from_str("performer")) {
                    Some(x) => x,
                    None => {
                        return None;
                    },
                };
                let title = match read_opt_str(f, &String::from_str("title")) {
                    Some(x) => x,
                    None => {
                        return None;
                    },
                };
                let mime_type = match read_opt_str(f, &String::from_str("mime_type")) {
                    Some(x) => x,
                    None => {
                        return None;
                    },
                };
                let file_size = match read_opt_int(f, &String::from_str("file_size")) {
                    Some(x) => x,
                    None => {
                        return None;
                    },
                };
                Some(Audio { file_id, duration, performer, title, mime_type, file_size })
            },
            _ => None,
        }
    }
}

/// Decoding an encoded record gives it back, for every value.
pub proof fn lemma_audio_round_trip(u: AudioV)
    ensures
        audio_from_json(audio_to_json(u)) == Some(u),
{
    broadcast use lemma_obj_get_empty, lemma_obj_get_field, lemma_obj_get_opt_field, lemma_obj_get_append;
    broadcast use vstd::string::group_string_axioms;

    reveal_strlit("file_id");
    reveal_strlit("duration");
    reveal_strlit("performer");
    reveal_strlit("title");
    reveal_strlit("mime_type");
    reveal_strlit("file_size");
    assert("file_id"@.len() == 7);
    assert("duration"@.len() == 8);
    assert("performer"@.len() == 9);
    assert("title"@.len() == 5);
    assert("mime_type"@.len() == 9);
    assert("file_size"@.len() == 9);
    assert("performer"@[0] == 'p');
    assert("mime_type"@[0] == 'm');
    assert("file_size"@[0] == 'f');
}

/// A general file.
pub struct Document {
    pub file_id: String,
    pub thumb: Option<PhotoSize>,
    pub file_name: Option<String>,
    pub mime_type: Option<String>,
    pub file_size: Option<i64>,
}

pub struct DocumentV {
    pub file_id: Seq<char>,
    pub thumb: Option<PhotoSizeV>,
    pub file_name: Option<Seq<char>>,
    pub mime_type: Option<Seq<char>>,
    pub file_size: Option<i64>,
}

impl View for Document {
    type V = DocumentV;

    open spec fn view(&self) -> DocumentV {
        DocumentV {
            file_id: self.file_id@,
            thumb: vop(self.thumb),
            file_name: vos(self.file_name),
            mime_type: vos(self.mime_type),
            file_size: self.file_size,
        }
    }
}

pub open spec fn document_fields(u: DocumentV) -> Seq<(Seq<char>, JsonV)> {
    field("file_id"@, JsonV::Str(u.file_id)) + opt_field("thumb"@, map_photo_size(u.thumb)) + opt_field("file_name"@, map_str(u.file_name)) + opt_field("mime_type"@, map_str(u.mime_type)) + opt_field("file_size"@, map_int(u.file_size))
}

pub open spec fn document_to_json(u: DocumentV) -> JsonV {
    JsonV::Obj(document_fields(u))
}

pub open spec fn document_from_json(v: JsonV) -> Option<DocumentV> {
    match v {
        JsonV::Obj(f) => {
            match get_str(f, "file_id"@) {
                Some(file_id) => {
                    match opt_photo_size(f, "thumb"@) {
                        Some(thumb) => {
                            match opt_str(f, "file_name"@) {
                                Some(file_name) => {
                                    match opt_str(f, "mime_type"@) {
                                        Some(mime_type) => {
                                            match opt_int(f, "file_size"@) {
                                                Some(file_size) => {
                                                    Some(DocumentV { file_id, thumb, file_name, mime_type, file_size })
                                                },
                                                _ => None,
                                            }
                                        },
                                        _ => None,
                                    }
                                },
                                _ => None,
                            }
                        },
                        _ => None,
                    }
                },
                _ => None,
            }
        },
        _ => None,
    }
}

impl Document {
    /// This record as the JSON object the wire carries.
    pub fn to_json(&self) -> (r: JsonValue)
        ensures
            r@ == document_to_json(self@),
    {
        let mut f: Vec<(String, JsonValue)> = Vec::new();
        f.push((String::from_str("file_id"), JsonValue::Str(self.file_id.clone())));
        match &self.thumb {
            Some(x) => f.push((String::from_str("thumb"), x.to_json())),
            None => {},
        }
        match &self.file_name {
            Some(s) => f.push((String::from_str("file_name"), JsonValue::Str(s.clone()))),
            None => {},
        }
        match &self.mime_type {
            Some(s) => f.push((String::from_str("mime_type"), JsonValue::Str(s.clone()))),
            None => {},
        }
        match &self.file_size {
            Some(x) => f.push((String::from_str("file_size"), JsonValue::Int(*x))),
            None => {},
        }
        proof {
            lemma_jv_fields(f@);
            assert(jv_fields(f@) =~= document_fields(self@));
        }
        JsonValue::Obj(f)
    }

    /// Read this record back from a JSON value.
    pub fn from_json(v: &JsonValue) -> (r: Option<Document>)
        ensures
            match r {
                Some(u) => document_from_json(v@) == Some(u@),
                None => document_from_json(v@) is None,
            },
    {
        match v {
            JsonValue::Obj(f) => {
                let file_id = match read_str(f, &String::from_str("file_id")) {
                    Some(x) => x,
                    None => {
                        return None;
                    },
                };
                let thumb = match lookup(f, &String::from_str("thumb")) {
                    None => None,
                    Some(JsonValue::Null) => None,
                    Some(v) => match PhotoSize::from_json(v) {
                        Some(x) => Some(x),
                        None => {
                            return None;
                        },
                    },
                };
                let file_name = match read_opt_str(f, &String::from_str("file_name")) {
                    Some(x) => x,
                    None => {
                        return None;
                    },
                };
                let mime_type = match read_opt_str(f, &String::from_str("mime_type")) {
                    Some(x) => x,
                    None => {
                        return None;
                    },
                };
                let file_size = match read_opt_int(f, &String::from_str("file_size")) {
                    Some(x) => x,
                    None => {
                        return None;
                    },
                };
                Some(Document { file_id, thumb, file_name, mime_type, file_size })
            },
            _ => None,
        }
    }
}

/// Decoding an encoded record gives it back, for every value.
pub proof fn lemma_document_round_trip(u: DocumentV)
    ensures
        document_from_json(document_to_json(u)) == Some(u),
{
    broadcast use lemma_obj_get_empty, lemma_obj_get_field, lemma_obj_get_opt_field, lemma_obj_get_append;
    broadcast use vstd::string::group_string_axioms;

    reveal_strlit("file_id");
    reveal_strlit("thumb");
    reveal_strlit("file_name");
    reveal_strlit("mime_type");
    reveal_strlit("file_size");
    assert("file_id"@.len() == 7);
    assert("thumb"@.len() == 5);
    assert("file_name"@.len() == 9);
    assert("mime_type"@.len() == 9);
    assert("file_size"@.len() == 9);
    assert("file_name"@[0] == 'f');
    assert("mime_type"@[0] == 'm');
    assert("file_name"@[5] == 'n');
    assert("file_size"@[5] == 's');
    assert("file_size"@[0] == 'f');
    match u.thumb {
        Some(x) => lemma_photo_size_round_trip(x),
        None => {},
    }
}

/// A sticker.
pub struct Sticker {
    pub file_id: String,
    pub width: i64,
    pub height: i64,
    pub thumb: Option<PhotoSize>,
    pub emoji: Option<String>,
    pub file_size: Option<i64>,
}

pub struct StickerV {
    pub file_id: Seq<char>,
    pub width: i64,
    pub height: i64,
    pub thumb: Option<PhotoSizeV>,
    pub emoji: Option<Seq<char>>,
    pub file_size: Option<i64>,
}

impl View for Sticker {
    type V = StickerV;

    open spec fn view(&self) -> StickerV {
        StickerV {
            file_id: self.file_id@,
            width: self.width,
            height: self.height,
            thumb: vop(self.thumb),
            emoji: vos(self.emoji),
            file_size: self.file_size,
        }
    }
}

pub open spec fn sticker_fields(u: StickerV) -> Seq<(Seq<char>, JsonV)> {
    field("file_id"@, JsonV::Str(u.file_id)) + field("width"@, JsonV::Int(u.width)) + field("height"@, JsonV::Int(u.height)) + opt_field("thumb"@, map_photo_size(u.thumb)) + opt_field("emoji"@, map_str(u.emoji)) + opt_field("file_size"@, map_int(u.file_size))
}

pub open spec fn sticker_to_json(u: StickerV) -> JsonV {
    JsonV::Obj(sticker_fields(u))
}

pub open spec fn sticker_from_json(v: JsonV) -> Option<StickerV> {
    match v {
        JsonV::Obj(f) => {
            match get_str(f, "file_id"@) {
                Some(file_id) => {
                    match get_int(f, "width"@) {
                        Some(width) => {
                            match get_int(f, "height"@) {
                                Some(height) => {
                                    match opt_photo_size(f, "thumb"@) {
                                        Some(thumb) => {
                                            match opt_str(f, "emoji"@) {
                                                Some(emoji) => {
                                                    match opt_int(f, "file_size"@) {
                                                        Some(file_size) => {
                                                            Some(StickerV { file_id, width, height, thumb, emoji, file_size })
                                                        },
                                                        _ => None,
                                                    }
                                                },
                                                _ => None,
                                            }
                                        },
                                        _ => None,
                                    }
                                },
                                _ => None,
                            }
                        },
                        _ => None,
                    }
                },
                _ => None,
            }
        },
        _ => None,
    }
}

impl Sticker {
    /// This record as the JSON object the wire carries.
    pub fn to_json(&self) -> (r: JsonValue)
        ensures
            r@ == sticker_to_json(self@),
    {
        let mut f: Vec<(String, JsonValue)> = Vec::new();
        f.push((String::from_str("file_id"), JsonValue::Str(self.file_id.clone())));
        f.push((String::from_str("width"), JsonValue::Int(self.width)));
        f.push((String::from_str("height"), JsonValue::Int(self.height)));
        match &self.thumb {
            Some(x) => f.push((String::from_str("thumb"), x.to_json())),
            None => {},
        }
        match &self.emoji {
            Some(s) => f.push((String::from_str("emoji"), JsonValue::Str(s.clone()))),
            None => {},
        }
        match &self.file_size {
            Some(x) => f.push((String::from_str("file_size"), JsonValue::Int(*x))),
            None => {},
        }
        proof {
            lemma_jv_fields(f@);
            assert(jv_fields(f@) =~= sticker_fields(self@));
        }
        JsonValue::Obj(f)
    }

    /// Read this record back from a JSON value.
    pub fn from_json(v: &JsonValue) -> (r: Option<Sticker>)
        ensures
            match r {
                Some(u) => sticker_from_json(v@) == Some(u@),
                None => sticker_from_json(v@) is None,
            },
    {
        match v {
            JsonValue::Obj(f) => {
                let file_id = match read_str(f, &String::from_str("file_id")) {
                    Some(x) => x,
                    None => {
                        return None;
                    },
                };
                let width = match read_int(f, &String::from_str("width")) {
                    Some(x) => x,
                    None => {
                        return None;
                    },
                };
                let height = match read_int(f, &String::from_str("height")) {
                    Some(x) => x,
                    None => {
                        return None;
                    },
                };
                let thumb = match lookup(f, &String::from_str("thumb")) {
                    None => None,
                    Some(JsonValue::Null) => None,
                    Some(v) => match PhotoSize::from_json(v) {
                        Some(x) => Some(x),
                        None => {
                            return None;
                        },
                    },
                };
                let emoji = match read_opt_str(f, &String::from_str("emoji")) {
                    Some(x) => x,
                    None => {
                        return None;
                    },
                };
                let file_size = match read_opt_int(f, &String::from_str("file_size")) {
                    Some(x) => x,
                    None => {
                        return None;
                    },
                };
                Some(Sticker { file_id, width, height, thumb, emoji, file_size })
            },
            _ => None,
        }
    }
}

/// Decoding an encoded record gives it back, for every value.
pub proof fn lemma_sticker_round_trip(u: StickerV)
    ensures
        sticker_from_json(sticker_to_json(u)) == Some(u),
{
    broadcast use lemma_obj_get_empty, lemma_obj_get_field, lemma_obj_get_opt_field, lemma_obj_get_append;
    broadcast use vstd::string::group_string_axioms;

    reveal_strlit("file_id");
    reveal_strlit("width");
    reveal_strlit("height");
    reveal_strlit("thumb");
    reveal_strlit("emoji");
    reveal_strlit("file_size");
    assert("file_id"@.len() == 7);
    assert("width"@.len() == 5);
    assert("height"@.len() == 6);
    assert("thumb"@.len() == 5);
    assert("emoji"@.len() == 5);
    assert("file_size"@.len() == 9);
    assert("width"@[0] == 'w');
    assert("thumb"@[0] == 't');
    assert("emoji"@[0] == 'e');
    match u.thumb {
        Some(x) => lemma_photo_size_round_trip(x),
        None => {},
    }
}

/// A video file.
pub struct Video {
    pub file_id: String,
    pub width: i64,
    pub height: i64,
    pub duration: i64,
    pub thumb: Option<PhotoSize>,
    pub mime_type: Option<String>,
    pub file_size: Option<String>,
}

pub struct VideoV {
    pub file_id: Seq<char>,
    pub width: i64,
    pub height: i64,
    pub duration: i64,
    pub thumb: Option<PhotoSizeV>,
    pub mime_type: Option<Seq<char>>,
    pub file_size: Option<Seq<char>>,
}

impl View for Video {
    type V = VideoV;

    open spec fn view(&self) -> VideoV {
        VideoV {
            file_id: self.file_id@,
            width: self.width,
            height: self.height,
            duration: self.duration,
            thumb: vop(self.thumb),
            mime_type: vos(self.mime_type),
            file_size: vos(self.file_size),
        }
    }
}

pub open spec fn video_fields(u: VideoV) -> Seq<(Seq<char>, JsonV)> {
    field("file_id"@, JsonV::Str(u.file_id)) + field("width"@, JsonV::Int(u.width)) + field("height"@, JsonV::Int(u.height)) + field("duration"@, JsonV::Int(u.duration)) + opt_field("thumb"@, map_photo_size(u.thumb)) + opt_field("mime_type"@, map_str(u.mime_type)) + opt_field("file_size"@, map_str(u.file_size))
}

pub open spec fn video_to_json(u: VideoV) -> JsonV {
    JsonV::Obj(video_fields(u))
}

pub open spec fn video_from_json(v: JsonV) -> Option<VideoV> {
    match v {
        JsonV::Obj(f) => {
            match get_str(f, "file_id"@) {
                Some(file_id) => {
                    match get_int(f, "width"@) {
                        Some(width) => {
                            match get_int(f, "height"@) {
                                Some(height) => {
                                    match get_int(f, "duration"@) {
                                        Some(duration) => {
                                            match opt_photo_size(f, "thumb"@) {
                                                Some(thumb) => {
                                                    match opt_str(f, "mime_type"@) {
                                                        Some(mime_type) => {
                                                            match opt_str(f, "file_size"@) {
                                                                Some(file_size) => {
                                                                    Some(VideoV { file_id, width, height, duration, thumb, mime_type, file_size })
                                                                },
                                                                _ => None,
                                                            }
                                                        },
                                                        _ => None,
                                                    }
                                                },
                                                _ => None,
                                            }
                                        },
                                        _ => None,
                                    }
                                },
                                _ => None,
                            }
                        },
                        _ => None,
                    }
                },
                _ => None,
            }
        },
        _ => None,
    }
}

impl Video {
    /// This record as the JSON object the wire carries.
    pub fn to_json(&self) -> (r: JsonValue)
        ensures
            r@ == video_to_json(self@),
    {
        let mut f: Vec<(String, JsonValue)> = Vec::new();
        f.push((String::from_str("file_id"), JsonValue::Str(self.file_id.clone())));
        f.push((String::from_str("width"), JsonValue::Int(self.width)));
        f.push((String::from_str("height"), JsonValue::Int(self.height)));
        f.push((String::from_str("duration"), JsonValue::Int(self.duration)));
        match &self.thumb {
            Some(x) => f.push((String::from_str("thumb"), x.to_json())),
            None => {},
        }
        match &self.mime_type {
            Some(s) => f.push((String::from_str("mime_type"), JsonValue::Str(s.clone()))),
            None => {},
        }
        match &self.file_size {
            Some(s) => f.push((String::from_str("file_size"), JsonValue::Str(s.clone()))),
            None => {},
        }
        proof {
            lemma_jv_fields(f@);
            assert(jv_fields(f@) =~= video_fields(self@));
        }
        JsonValue::Obj(f)
    }

    /// Read this record back from a JSON value.
    pub fn from_json(v: &JsonValue) -> (r: Option<Video>)
        ensures
            match r {
                Some(u) => video_from_json(v@) == Some(u@),
                None => video_from_json(v@) is None,
            },
    {
        match v {
            JsonValue::Obj(f) => {
                let file_id = match read_str(f, &String::from_str("file_id")) {
                    Some(x) => x,
                    None => {
                        return None;
                    },
                };
                let width = match read_int(f, &String::from_str("width")) {
                    Some(x) => x,
                    None => {
                        return None;
                    },
                };
                let height = match read_int(f, &String::from_str("height")) {
                    Some(x) => x,
                    None => {
                        return None;
                    },
                };
                let duration = match read_int(f, &String::from_str("duration")) {
                    Some(x) => x,
                    None => {
                        return None;
                    },
                };
                let thumb = match lookup(f, &String::from_str("thumb")) {
                    None => None,
                    Some(JsonValue::Null) => None,
                    Some(v) => match PhotoSize::from_json(v) {
                        Some(x) => Some(x),
                        None => {
                            return None;
                        },
                    },
                };
                let mime_type = match read_opt_str(f, &String::from_str("mime_type")) {
                    Some(x) => x,
                    None => {
                        return None;
                    },
                };
                let file_size = match read_opt_str(f, &String::from_str("file_size")) {
                    Some(x) => x,
                    None => {
                        return None;
                    },
                };
                Some(Video { file_id, width, height, duration, thumb, mime_type, file_size })
            },
            _ => None,
        }
    }
}

/// Decoding an encoded record gives it back, for every value.
pub proof fn lemma_video_round_trip(u: VideoV)
    ensures
        video_from_json(video_to_json(u)) == Some(u),
{
    broadcast use lemma_obj_get_empty, lemma_obj_get_field, lemma_obj_get_opt_field, lemma_obj_get_append;
    broadcast use vstd::string::group_string_axioms;

    reveal_strlit("file_id");
    reveal_strlit("width");
    reveal_strlit("height");
    reveal_strlit("duration");
    reveal_strlit("thumb");
    reveal_strlit("mime_type");
    reveal_strlit("file_size");
    assert("file_id"@.len() == 7);
    assert("width"@.len() == 5);
    assert("height"@.len() == 6);
    assert("duration"@.len() == 8);
    assert("thumb"@.len() == 5);
    assert("mime_type"@.len() == 9);
    assert("file_size"@.len() == 9);
    assert("width"@[0] == 'w');
    assert("thumb"@[0] == 't');
    assert("mime_type"@[0] == 'm');
    assert("file_size"@[0] == 'f');
    match u.thumb {
        Some(x) => lemma_photo_size_round_trip(x),
        None => {},
    }
}

/// A voice note.
pub struct Voice {
    pub file_id: String,
    pub duration: i64,
    pub mime_type: Option<String>,
    pub file_size: Option<String>,
}

pub struct VoiceV {
    pub file_id: Seq<char>,
    pub duration: i64,
    pub mime_type: Option<Seq<char>>,
    pub file_size: Option<Seq<char>>,
}

impl View for Voice {
    type V = VoiceV;

    open spec fn view(&self) -> VoiceV {
        VoiceV {
            file_id: self.file_id@,
            duration: self.duration,
            mime_type: vos(self.mime_type),
            file_size: vos(self.file_size),
        }
    }
}

pub open spec fn voice_fields(u: VoiceV) -> Seq<(Seq<char>, JsonV)> {
    field("file_id"@, JsonV::Str(u.file_id)) + field("duration"@, JsonV::Int(u.duration)) + opt_field("mime_type"@, map_str(u.mime_type)) + opt_field("file_size"@, map_str(u.file_size))
}

pub open spec fn voice_to_json(u: VoiceV) -> JsonV {
    JsonV::Obj(voice_fields(u))
}

pub open spec fn voice_from_json(v: JsonV) -> Option<VoiceV> {
    match v {
        JsonV::Obj(f) => {
            match get_str(f, "file_id"@) {
                Some(file_id) => {
                    match get_int(f, "duration"@) {
                        Some(duration) => {
                            match opt_str(f, "mime_type"@) {
                                Some(mime_type) => {
                                    match opt_str(f, "file_size"@) {
                                        Some(file_size) => {
                                            Some(VoiceV { file_id, duration, mime_type, file_size })
                                        },
                                        _ => None,
                                    }
                                },
                                _ => None,
                            }
                        },
                        _ => None,
                    }
                },
                _ => None,
            }
        },
        _ => None,
    }
}

impl Voice {
    /// This record as the JSON object the wire carries.
    pub fn to_json(&self) -> (r: JsonValue)
        ensures
            r@ == voice_to_json(self@),
    {
        let mut f: Vec<(String, JsonValue)> = Vec::new();
        f.push((String::from_str("file_id"), JsonValue::Str(self.file_id.clone())));
        f.push((String::from_str("duration"), JsonValue::Int(self.duration)));
        match &self.mime_type {
            Some(s) => f.push((String::from_str("mime_type"), JsonValue::Str(s.clone()))),
            None => {},
        }
        match &self.file_size {
            Some(s) => f.push((String::from_str("file_size"), JsonValue::Str(s.clone()))),
            None => {},
        }
        proof {
            lemma_jv_fields(f@);
            assert(jv_fields(f@) =~= voice_fields(self@));
        }
        JsonValue::Obj(f)
    }

    /// Read this record back from a JSON value.
    pub fn from_json(v: &JsonValue) -> (r: Option<Voice>)
        ensures
            match r {
                Some(u) => voice_from_json(v@) == Some(u@),
                None => voice_from_json(v@) is None,
            },
    {
        match v {
            JsonValue::Obj(f) => {
                let file_id = match read_str(f, &String::from_str("file_id")) {
                    Some(x) => x,
                    None => {
                        return None;
                    },
                };
                let duration = match read_int(f, &String::from_str("duration")) {
                    Some(x) => x,
                    None => {
                        return None;
                    },
                };
                let mime_type = match read_opt_str(f, &String::from_str("mime_type")) {
                    Some(x) => x,
                    None => {
                        return None;
                    },
                };
                let file_size = match read_opt_str(f, &String::from_str("file_size")) {
                    Some(x) => x,
                    None => {
                        return None;
                    },
                };
                Some(Voice { file_id, duration, mime_type, file_size })
            },
            _ => None,
        }
    }
}

/// Decoding an encoded record gives it back, for every value.
pub proof fn lemma_voice_round_trip(u: VoiceV)
    ensures
        voice_from_json(voice_to_json(u)) == Some(u),
{
    broadcast use lemma_obj_get_empty, lemma_obj_get_field, lemma_obj_get_opt_field, lemma_obj_get_append;
    broadcast use vstd::string::group_string_axioms;

    reveal_strlit("file_id");
    reveal_strlit("duration");
    reveal_strlit("mime_type");
    reveal_strlit("file_size");
    assert("file_id"@.len() == 7);
    assert("duration"@.len() == 8);
    assert("mime_type"@.len() == 9);
    assert("file_size"@.len() == 9);
    assert("mime_type"@[0] == 'm');
    assert("file_size"@[0] == 'f');
}

/// A phone contact.
pub struct Contact {
    pub phone_number: String,
    pub first_name: String,
    pub last_name: String,
    pub user_id: i64,
}

pub struct ContactV {
    pub phone_number: Seq<char>,
    pub first_name: Seq<char>,
    pub last_name: Seq<char>,
    pub user_id: i64,
}

impl View for Contact {
    type V = ContactV;

    open spec fn view(&self) -> ContactV {
        ContactV {
            phone_number: self.phone_number@,
            first_name: self.first_name@,
            last_name: self.last_name@,
            user_id: self.user_id,
        }
    }
}

pub open spec fn contact_fields(u: ContactV) -> Seq<(Seq<char>, JsonV)> {
    field("phone_number"@, JsonV::Str(u.phone_number)) + field("first_name"@, JsonV::Str(u.first_name)) + field("last_name"@, JsonV::Str(u.last_name)) + field("user_id"@, JsonV::Int(u.user_id))
}

pub open spec fn contact_to_json(u: ContactV) -> JsonV {
    JsonV::Obj(contact_fields(u))
}

pub open spec fn contact_from_json(v: JsonV) -> Option<ContactV> {
    match v {
        JsonV::Obj(f) => {
            match get_str(f, "phone_number"@) {
                Some(phone_number) => {
                    match get_str(f, "first_name"@) {
                        Some(first_name) => {
                            match get_str(f, "last_name"@) {
                                Some(last_name) => {
                                    match get_int(f, "user_id"@) {
                                        Some(user_id) => {
                                            Some(ContactV { phone_number, first_name, last_name, user_id })
                                        },
                                        _ => None,
                                    }
                                },
                                _ => None,
                            }
                        },
                        _ => None,
                    }
                },
                _ => None,
            }
        },
        _ => None,
    }
}

impl Contact {
    /// This record as the JSON object the wire carries.
    pub fn to_json(&self) -> (r: JsonValue)
        ensures
            r@ == contact_to_json(self@),
    {
        let mut f: Vec<(String, JsonValue)> = Vec::new();
        f.push((String::from_str("phone_number"), JsonValue::Str(self.phone_number.clone())));
        f.push((String::from_str("first_name"), JsonValue::Str(self.first_name.clone())));
        f.push((String::from_str("last_name"), JsonValue::Str(self.last_name.clone())));
        f.push((String::from_str("user_id"), JsonValue::Int(self.user_id)));
        proof {
            lemma_jv_fields(f@);
            assert(jv_fields(f@) =~= contact_fields(self@));
        }
        JsonValue::Obj(f)
    }

    /// Read this record back from a JSON value.
    pub fn from_json(v: &JsonValue) -> (r: Option<Contact>)
        ensures
            match r {
                Some(u) => contact_from_json(v@) == Some(u@),
                None => contact_from_json(v@) is None,
            },
    {
        match v {
            JsonValue::Obj(f) => {
                let phone_number = match read_str(f, &String::from_str("phone_number")) {
                    Some(x) => x,
                    None => {
                        return None;
                    },
                };
                let first_name = match read_str(f, &String::from_str("first_name")) {
                    Some(x) => x,
                    None => {
                        return None;
                    },
                };
                let last_name = match read_str(f, &String::from_str("last_name")) {
                    Some(x) => x,
                    None => {
                        return None;
                    },
                };
                let user_id = match read_int(f, &String::from_str("user_id")) {
                    Some(x) => x,
                    None => {
                        return None;
                    },
                };
                Some(Contact { phone_number, first_name, last_name, user_id })
            },
            _ => None,
        }
    }
}

/// Decoding an encoded record gives it back, for every value.
pub proof fn lemma_contact_round_trip(u: ContactV)
    ensures
        contact_from_json(contact_to_json(u)) == Some(u),
{
    broadcast use lemma_obj_get_empty, lemma_obj_get_field, lemma_obj_get_opt_field, lemma_obj_get_append;
    broadcast use vstd::string::group_string_axioms;

    reveal_strlit("phone_number");
    reveal_strlit("first_name");
    reveal_strlit("last_name");
    reveal_strlit("user_id");
    assert("phone_number"@.len() == 12);
    assert("first_name"@.len() == 10);
    assert("last_name"@.len() == 9);
    assert("user_id"@.len() == 7);
}

/// A file ready to be downloaded through the file endpoint.
pub struct File {
    pub file_id: String,
    pub file_size: Option<i64>,
    pub file_path: Option<String>,
}

pub struct FileV {
    pub file_id: Seq<char>,
    pub file_size: Option<i64>,
    pub file_path: Option<Seq<char>>,
}

impl View for File {
    type V = FileV;

    open spec fn view(&self) -> FileV {
        FileV {
            file_id: self.file_id@,
            file_size: self.file_size,
            file_path: vos(self.file_path),
        }
    }
}

pub open spec fn file_fields(u: FileV) -> Seq<(Seq<char>, JsonV)> {
    field("file_id"@, JsonV::Str(u.file_id)) + opt_field("file_size"@, map_int(u.file_size)) + opt_field("file_path"@, map_str(u.file_path))
}

pub open spec fn file_to_json(u: FileV) -> JsonV {
    JsonV::Obj(file_fields(u))
}

pub open spec fn file_from_json(v: JsonV) -> Option<FileV> {
    match v {
        JsonV::Obj(f) => {
            match get_str(f, "file_id"@) {
                Some(file_id) => {
                    match opt_int(f, "file_size"@) {
                        Some(file_size) => {
                            match opt_str(f, "file_path"@) {
                                Some(file_path) => {
                                    Some(FileV { file_id, file_size, file_path })
                                },
                                _ => None,
                            }
                        },
                        _ => None,
                    }
                },
                _ => None,
            }
        },
        _ => None,
    }
}

impl File {
    /// This record as the JSON object the wire carries.
    pub fn to_json(&self) -> (r: JsonValue)
        ensures
            r@ == file_to_json(self@),
    {
        let mut f: Vec<(String, JsonValue)> = Vec::new();
        f.push((String::from_str("file_id"), JsonValue::Str(self.file_id.clone())));
        match &self.file_size {
            Some(x) => f.push((String::from_str("file_size"), JsonValue::Int(*x))),
            None => {},
        }
        match &self.file_path {
            Some(s) => f.push((String::from_str("file_path"), JsonValue::Str(s.clone()))),
            None => {},
        }
        proof {
            lemma_jv_fields(f@);
            assert(jv_fields(f@) =~= file_fields(self@));
        }
        JsonValue::Obj(f)
    }

    /// Read this record back from a JSON value.
    pub fn from_json(v: &JsonValue) -> (r: Option<File>)
        ensures
            match r {
                Some(u) => file_from_json(v@) == Some(u@),
                None => file_from_json(v@) is None,
            },
    {
        match v {
            JsonValue::Obj(f) => {
                let file_id = match read_str(f, &String::from_str("file_id")) {
                    Some(x) => x,
                    None => {
                        return None;
                    },
                };
                let file_size = match read_opt_int(f, &String::from_str("file_size")) {
                    Some(x) => x,
                    None => {
                        return None;
                    },
                };
                let file_path = match read_opt_str(f, &String::from_str("file_path")) {
                    Some(x) => x,
                    None => {
                        return None;
                    },
                };
                Some(File { file_id, file_size, file_path })
            },
            _ => None,
        }
    }
}

/// Decoding an encoded record gives it back, for every value.
pub proof fn lemma_file_round_trip(u: FileV)
    ensures
        file_from_json(file_to_json(u)) == Some(u),
{
    broadcast use lemma_obj_get_empty, lemma_obj_get_field, lemma_obj_get_opt_field, lemma_obj_get_append;
    broadcast use vstd::string::group_string_axioms;

    reveal_strlit("file_id");
    reveal_strlit("file_size");
    reveal_strlit("file_path");
    assert("file_id"@.len() == 7);
    assert("file_size"@.len() == 9);
    assert("file_path"@.len() == 9);
    assert("file_size"@[5] == 's');
    assert("file_path"@[5] == 'p');
}

/// One member of a chat and their status.
pub struct ChatMember {
    pub user: User,
    pub status: String,
}

pub struct ChatMemberV {
    pub user: UserV,
    pub status: Seq<char>,
}

impl View for ChatMember {
    type V = ChatMemberV;

    open spec fn view(&self) -> ChatMemberV {
        ChatMemberV {
            user: self.user@,
            status: self.status@,
        }
    }
}

pub open spec fn chat_member_fields(u: ChatMemberV) -> Seq<(Seq<char>, JsonV)> {
    field("user"@, user_to_json(u.user)) + field("status"@, JsonV::Str(u.status))
}

pub open spec fn chat_member_to_json(u: ChatMemberV) -> JsonV {
    JsonV::Obj(chat_member_fields(u))
}

pub open spec fn chat_member_from_json(v: JsonV) -> Option<ChatMemberV> {
    match v {
        JsonV::Obj(f) => {
            match req_user(f, "user"@) {
                Some(user) => {
                    match get_str(f, "status"@) {
                        Some(status) => {
                            Some(ChatMemberV { user, status })
                        },
                        _ => None,
                    }
                },
                _ => None,
            }
        },
        _ => None,
    }
}

impl ChatMember {
    /// This record as the JSON object the wire carries.
    pub fn to_json(&self) -> (r: JsonValue)
        ensures
            r@ == chat_member_to_json(self@),
    {
        let mut f: Vec<(String, JsonValue)> = Vec::new();
        f.push((String::from_str("user"), self.user.to_json()));
        f.push((String::from_str("status"), JsonValue::Str(self.status.clone())));
        proof {
            lemma_jv_fields(f@);
            assert(jv_fields(f@) =~= chat_member_fields(self@));
        }
        JsonValue::Obj(f)
    }

    /// Read this record back from a JSON value.
    pub fn from_json(v: &JsonValue) -> (r: Option<ChatMember>)
        ensures
            match r {
                Some(u) => chat_member_from_json(v@) == Some(u@),
                None => chat_member_from_json(v@) is None,
            },
    {
        match v {
            JsonValue::Obj(f) => {
                let user = match lookup(f, &String::from_str("user")) {
                    Some(v) => match User::from_json(v) {
                        Some(x) => x,
                        None => {
                            return None;
                        },
                    },
                    None => {
                        return None;
                    },
                };
                let status = match read_str(f, &String::from_str("status")) {
                    Some(x) => x,
                    None => {
                        return None;
                    },
                };
                Some(ChatMember { user, status })
            },
            _ => None,
        }
    }
}

/// Decoding an encoded record gives it back, for every value.
pub proof fn lemma_chat_member_round_trip(u: ChatMemberV)
    ensures
        chat_member_from_json(chat_member_to_json(u)) == Some(u),
{
    broadcast use lemma_obj_get_empty, lemma_obj_get_field, lemma_obj_get_opt_field, lemma_obj_get_append;
    broadcast use vstd::string::group_string_axioms;

    reveal_strlit("user");
    reveal_strlit("status");
    assert("user"@.len() == 4);
    assert("status"@.len() == 6);
    lemma_user_round_trip(u.user);
}

/// Why a request was unsuccessful, with retry and migration hints.
pub struct ResponseParameter {
    pub migrate_to_chat_id: Option<i64>,
    pub retry_after: Option<i64>,
}

pub struct ResponseParameterV {
    pub migrate_to_chat_id: Option<i64>,
    pub retry_after: Option<i64>,
}

impl View for ResponseParameter {
    type V = ResponseParameterV;

    open spec fn view(&self) -> ResponseParameterV {
        ResponseParameterV {
            migrate_to_chat_id: self.migrate_to_chat_id,
            retry_after: self.retry_after,
        }
    }
}

pub open spec fn response_parameter_fields(u: ResponseParameterV) -> Seq<(Seq<char>, JsonV)> {
    opt_field("migrate_to_chat_id"@, map_int(u.migrate_to_chat_id)) + opt_field("retry_after"@, map_int(u.retry_after))
}

pub open spec fn response_parameter_to_json(u: ResponseParameterV) -> JsonV {
    JsonV::Obj(response_parameter_fields(u))
}

pub open spec fn response_parameter_from_json(v: JsonV) -> Option<ResponseParameterV> {
    match v {
        JsonV::Obj(f) => {
            match opt_int(f, "migrate_to_chat_id"@) {
                Some(migrate_to_chat_id) => {
                    match opt_int(f, "retry_after"@) {
                        Some(retry_after) => {
                            Some(ResponseParameterV { migrate_to_chat_id, retry_after })
                        },
                        _ => None,
                    }
                },
                _ => None,
            }
        },
        _ => None,
    }
}

impl ResponseParameter {
    /// This record as the JSON object the wire carries.
    pub fn to_json(&self) -> (r: JsonValue)
        ensures
            r@ == response_parameter_to_json(self@),
    {
        let mut f: Vec<(String, JsonValue)> = Vec::new();
        match &self.migrate_to_chat_id {
            Some(x) => f.push((String::from_str("migrate_to_chat_id"), JsonValue::Int(*x))),
            None => {},
        }
        match &self.retry_after {
            Some(x) => f.push((String::from_str("retry_after"), JsonValue::Int(*x))),
            None => {},
        }
        proof {
            lemma_jv_fields(f@);
            assert(jv_fields(f@) =~= response_parameter_fields(self@));
        }
        JsonValue::Obj(f)
    }

    /// Read this record back from a JSON value.
    pub fn from_json(v: &JsonValue) -> (r: Option<ResponseParameter>)
        ensures
            match r {
                Some(u) => response_parameter_from_json(v@) == Some(u@),
                None => response_parameter_from_json(v@) is None,
            },
    {
        match v {
            JsonValue::Obj(f) => {
                let migrate_to_chat_id = match read_opt_int(f, &String::from_str("migrate_to_chat_id")) {
                    Some(x) => x,
                    None => {
                        return None;
                    },
                };
                let retry_after = match read_opt_int(f, &String::from_str("retry_after")) {
                    Some(x) => x,
                    None => {
                        return None;
                    },
                };
                Some(ResponseParameter { migrate_to_chat_id, retry_after })
            },
            _ => None,
        }
    }
}

/// Decoding an encoded record gives it back, for every value.
pub proof fn lemma_response_parameter_round_trip(u: ResponseParameterV)
    ensures
        response_parameter_from_json(response_parameter_to_json(u)) == Some(u),
{
    broadcast use lemma_obj_get_empty, lemma_obj_get_field, lemma_obj_get_opt_field, lemma_obj_get_append;
    broadcast use vstd::string::group_string_axioms;

    reveal_strlit("migrate_to_chat_id");
    reveal_strlit("retry_after");
    assert("migrate_to_chat_id"@.len() == 18);
    assert("retry_after"@.len() == 11);
}


/// Views of a list of photo sizes.
pub open spec fn view_photos(s: Seq<PhotoSize>) -> Seq<PhotoSizeV> {
    s.map_values(|p: PhotoSize| p@)
}

/// A list of photo sizes as JSON values.
pub open spec fn photos_enc(s: Seq<PhotoSizeV>) -> Seq<JsonV> {
    s.map_values(|p: PhotoSizeV| photo_size_to_json(p))
}

/// Decode a JSON array of photo sizes, all or nothing.
pub open spec fn photos_dec(items: Seq<JsonV>) -> Option<Seq<PhotoSizeV>> {
    decode_list(items, |v: JsonV| photo_size_from_json(v))
}

/// Encode a list of photo sizes.
pub fn photos_to_json(ps: &Vec<PhotoSize>) -> (r: Vec<JsonValue>)
    ensures
        jv_items(r@) == photos_enc(view_photos(ps@)),
{
    let mut out: Vec<JsonValue> = Vec::new();
    let mut i: usize = 0;
    while i < ps.len()
        invariant
            i <= ps@.len(),
            out@.len() == i,
            forall|j: int| 0 <= j < i ==> jv(out@[j]) == photo_size_to_json(ps@[j]@),
        decreases ps@.len() - i,
    {
        let v = ps[i].to_json();
        out.push(v);
        i = i + 1;
    }
    proof {
        lemma_jv_items(out@);
        assert(jv_items(out@) =~= photos_enc(view_photos(ps@)));
    }
    out
}

/// Decode a JSON array of photo sizes.
pub fn photos_from_json(items: &Vec<JsonValue>) -> (r: Option<Vec<PhotoSize>>)
    ensures
        match r {
            Some(ps) => photos_dec(jv_items(items@)) == Some(view_photos(ps@)),
            None => photos_dec(jv_items(items@)) is None,
        },
{
    let ghost all = jv_items(items@);
    let ghost dec = |v: JsonV| photo_size_from_json(v);
    let mut out: Vec<PhotoSize> = Vec::new();
    let mut i: usize = 0;
    proof {
        lemma_jv_items(items@);
        assert(all.take(0) =~= Seq::empty());
        assert(view_photos(out@) =~= Seq::empty());
    }
    while i < items.len()
        invariant
            i <= items@.len(),
            out@.len() == i,
            all == jv_items(items@),
            dec == (|v: JsonV| photo_size_from_json(v)),
            all.len() == items@.len(),
            forall|j: int| 0 <= j < items@.len() ==> all[j] == jv(items@[j]),
            decode_list(all.take(i as int), dec) == Some(view_photos(out@)),
        decreases items@.len() - i,
    {
        proof {
            assert(all.take(i as int + 1).drop_last() =~= all.take(i as int));
        }
        match PhotoSize::from_json(&items[i]) {
            Some(p) => {
                out.push(p);
                proof {
                    assert(view_photos(out@) =~= view_photos(out@.drop_last()).push(
                        out@.last()@,
                    ));
                }
            },
            None => {
                proof {
                    assert(decode_list(all.take(i as int + 1), dec) is None);
                    crate::json::lemma_decode_list_prefix_none(all, dec, i as int + 1);
                }
                return None;
            },
        }
        i = i + 1;
    }
    proof {
        assert(all.take(items@.len() as int) =~= all);
    }
    Some(out)
}

/// A user's profile pictures.
pub struct UserProfilePhotos {
    pub total_count: i64,
    pub photos: Vec<Vec<PhotoSize>>,
}

pub struct UserProfilePhotosV {
    pub total_count: i64,
    pub photos: Seq<Seq<PhotoSizeV>>,
}

impl View for UserProfilePhotos {
    type V = UserProfilePhotosV;

    open spec fn view(&self) -> UserProfilePhotosV {
        UserProfilePhotosV {
            total_count: self.total_count,
            photos: self.photos@.map_values(|row: Vec<PhotoSize>| view_photos(row@)),
        }
    }
}

pub open spec fn user_profile_photos_fields(u: UserProfilePhotosV) -> Seq<(Seq<char>, JsonV)> {
    field("total_count"@, JsonV::Int(u.total_count)) + field(
        "photos"@,
        JsonV::Arr(u.photos.map_values(|row: Seq<PhotoSizeV>| JsonV::Arr(photos_enc(row)))),
    )
}

pub open spec fn user_profile_photos_to_json(u: UserProfilePhotosV) -> JsonV {
    JsonV::Obj(user_profile_photos_fields(u))
}

pub open spec fn photo_rows_dec(items: Seq<JsonV>) -> Option<Seq<Seq<PhotoSizeV>>> {
    decode_list(
        items,
        |v: JsonV|
            match v {
                JsonV::Arr(row) => photos_dec(row),
                _ => None,
            },
    )
}

pub open spec fn user_profile_photos_from_json(v: JsonV) -> Option<UserProfilePhotosV> {
    match v {
        JsonV::Obj(f) => match (get_int(f, "total_count"@), get_arr(f, "photos"@)) {
            (Some(total_count), Some(rows)) => match photo_rows_dec(rows) {
                Some(photos) => Some(UserProfilePhotosV { total_count, photos }),
                None => None,
            },
            _ => None,
        },
        _ => None,
    }
}

impl UserProfilePhotos {
    /// This record as the JSON object the wire carries.
    pub fn to_json(&self) -> (r: JsonValue)
        ensures
            r@ == user_profile_photos_to_json(self@),
    {
        let mut rows: Vec<JsonValue> = Vec::new();
        let mut i: usize = 0;
        while i < self.photos.len()
            invariant
                i <= self.photos@.len(),
                rows@.len() == i,
                forall|j: int|
                    0 <= j < i ==> jv(rows@[j]) == JsonV::Arr(
                        photos_enc(view_photos(self.photos@[j]@)),
                    ),
            decreases self.photos@.len() - i,
        {
            let row = photos_to_json(&self.photos[i]);
            rows.push(JsonValue::Arr(row));
            i = i + 1;
        }
        let mut f: Vec<(String, JsonValue)> = Vec::new();
        f.push((String::from_str("total_count"), JsonValue::Int(self.total_count)));
        f.push((String::from_str("photos"), JsonValue::Arr(rows)));
        proof {
            lemma_jv_items(rows@);
            assert(jv_items(rows@) =~= self@.photos.map_values(
                |row: Seq<PhotoSizeV>| JsonV::Arr(photos_enc(row)),
            ));
            lemma_jv_fields(f@);
            assert(jv_fields(f@) =~= user_profile_photos_fields(self@));
        }
        JsonValue::Obj(f)
    }

    /// Read this record back from a JSON value.
    pub fn from_json(v: &JsonValue) -> (r: Option<UserProfilePhotos>)
        ensures
            match r {
                Some(u) => user_profile_photos_from_json(v@) == Some(u@),
                None => user_profile_photos_from_json(v@) is None,
            },
    {
        match v {
            JsonValue::Obj(f) => {
                let total_count = match read_int(f, &String::from_str("total_count")) {
                    Some(x) => x,
                    None => {
                        return None;
                    },
                };
                let rows = match read_arr(f, &String::from_str("photos")) {
                    Some(x) => x,
                    None => {
                        return None;
                    },
                };
                let ghost all = jv_items(rows@);
                let ghost dec = |v: JsonV|
                    match v {
                        JsonV::Arr(row) => photos_dec(row),
                        _ => None,
                    };
                let mut photos: Vec<Vec<PhotoSize>> = Vec::new();
                let mut i: usize = 0;
                proof {
                    lemma_jv_items(rows@);
                    assert(all.take(0) =~= Seq::empty());
                    assert(photos@.map_values(|row: Vec<PhotoSize>| view_photos(row@))
                        =~= Seq::<Seq<PhotoSizeV>>::empty());
                }
                while i < rows.len()
                    invariant
                        i <= rows@.len(),
                        photos@.len() == i,
                        all == jv_items(rows@),
                        v@ == JsonV::Obj(jv_fields(f@)),
                        get_int(jv_fields(f@), "total_count"@) == Some(total_count),
                        get_arr(jv_fields(f@), "photos"@) == Some(all),
                        dec == (|v: JsonV|
                            match v {
                                JsonV::Arr(row) => photos_dec(row),
                                _ => None,
                            }),
                        all.len() == rows@.len(),
                        forall|j: int| 0 <= j < rows@.len() ==> all[j] == jv(rows@[j]),
                        decode_list(all.take(i as int), dec) == Some(
                            photos@.map_values(|row: Vec<PhotoSize>| view_photos(row@)),
                        ),
                    decreases rows@.len() - i,
                {
                    proof {
                        assert(all.take(i as int + 1).drop_last() =~= all.take(i as int));
                    }
                    let fail: bool;
                    match &rows[i] {
                        JsonValue::Arr(row) => {
                            match photos_from_json(row) {
                                Some(ps) => {
                                    photos.push(ps);
                                    fail = false;
                                    proof {
                                        let m = |row: Vec<PhotoSize>| view_photos(row@);
                                        assert(photos@.map_values(m) =~= photos@.drop_last()
                                            .map_values(m).push(view_photos(
                                            photos@.last()@,
                                        )));
                                    }
                                },
                                None => {
                                    fail = true;
                                },
                            }
                        },
                        _ => {
                            fail = true;
                        },
                    }
                    if fail {
                        proof {
                            assert(decode_list(all.take(i as int + 1), dec) is None);
                            crate::json::lemma_decode_list_prefix_none(all, dec, i as int + 1);
                            assert(decode_list(all, dec) is None);
                        }
                        return None;
                    }
                    i = i + 1;
                }
                proof {
                    assert(all.take(rows@.len() as int) =~= all);
                }
                Some(UserProfilePhotos { total_count, photos })
            },
            _ => None,
        }
    }
}

/// Decoding an encoded profile-photo record gives it back.
pub proof fn lemma_user_profile_photos_round_trip(u: UserProfilePhotosV)
    ensures
        user_profile_photos_from_json(user_profile_photos_to_json(u)) == Some(u),
{
    broadcast use lemma_obj_get_empty, lemma_obj_get_field, lemma_obj_get_opt_field, lemma_obj_get_append;
    broadcast use vstd::string::group_string_axioms;

    reveal_strlit("total_count");
    reveal_strlit("photos");
    assert("total_count"@.len() == 11);
    assert("photos"@.len() == 6);
    let enc_row = |row: Seq<PhotoSizeV>| JsonV::Arr(photos_enc(row));
    let dec_row = |v: JsonV|
        match v {
            JsonV::Arr(row) => photos_dec(row),
            _ => None,
        };
    let enc_photo = |p: PhotoSizeV| photo_size_to_json(p);
    let dec_photo = |v: JsonV| photo_size_from_json(v);
    assert forall|row: Seq<PhotoSizeV>| #[trigger] dec_row(enc_row(row)) == Some(row) by {
        assert forall|j: int| 0 <= j < row.len() implies #[trigger] dec_photo(enc_photo(row[j]))
            == Some(row[j]) by {
            lemma_photo_size_round_trip(row[j]);
        }
        crate::json::lemma_decode_encode_list(row, enc_photo, dec_photo);
        assert(row.map_values(enc_photo) =~= photos_enc(row));
    }
    assert forall|i: int| 0 <= i < u.photos.len() implies #[trigger] dec_row(enc_row(u.photos[i]))
        == Some(u.photos[i]) by {}
    crate::json::lemma_decode_encode_list(u.photos, enc_row, dec_row);
    assert(u.photos.map_values(enc_row) =~= user_profile_photos_to_json(u)->Obj_0[1].1->Arr_0);
    assert(photo_rows_dec(u.photos.map_values(enc_row)) == Some(u.photos));
}

/// The placeholder a game callback carries: no information.
pub struct CallbackGame {
}

pub struct CallbackGameV {
}

impl View for CallbackGame {
    type V = CallbackGameV;

    open spec fn view(&self) -> CallbackGameV {
        CallbackGameV {  }
    }
}

pub open spec fn callback_game_to_json(u: CallbackGameV) -> JsonV {
    JsonV::Obj(Seq::empty())
}

pub open spec fn callback_game_from_json(v: JsonV) -> Option<CallbackGameV> {
    match v {
        JsonV::Obj(f) => Some(CallbackGameV {  }),
        _ => None,
    }
}

impl CallbackGame {
    /// This record as the JSON object the wire carries.
    pub fn to_json(&self) -> (r: JsonValue)
        ensures
            r@ == callback_game_to_json(self@),
    {
        let f: Vec<(String, JsonValue)> = Vec::new();
        proof {
            assert(jv_fields(f@) =~= Seq::<(Seq<char>, JsonV)>::empty());
        }
        JsonValue::Obj(f)
    }

    /// Read this record back from a JSON value.
    pub fn from_json(v: &JsonValue) -> (r: Option<CallbackGame>)
        ensures
            match r {
                Some(u) => callback_game_from_json(v@) == Some(u@),
                None => callback_game_from_json(v@) is None,
            },
    {
        match v {
            JsonValue::Obj(_) => Some(CallbackGame {  }),
            _ => None,
        }
    }
}

/// Decoding an encoded game placeholder gives it back.
pub proof fn lemma_callback_game_round_trip(u: CallbackGameV)
    ensures
        callback_game_from_json(callback_game_to_json(u)) == Some(u),
{
}

/// Append one required boolean field.
pub(crate) fn push_bool_field(f: &mut Vec<(String, JsonValue)>, k: &str, v: bool)
    ensures
        jv_fields(final(f)@) == jv_fields(old(f)@) + field(k@, JsonV::Bool(v)),
{
    let ghost before = f@;
    f.push((String::from_str(k), JsonValue::Bool(v)));
    proof {
        lemma_jv_fields(f@);
        lemma_jv_fields(before);
        assert(jv_fields(f@) =~= jv_fields(before) + field(k@, JsonV::Bool(v)));
    }
}

/// Append an optional boolean field, or nothing.
pub(crate) fn push_opt_bool_field(f: &mut Vec<(String, JsonValue)>, k: &str, v: &Option<bool>)
    ensures
        jv_fields(final(f)@) == jv_fields(old(f)@) + opt_field(k@, map_bool(*v)),
{
    let ghost before = f@;
    match v {
        Some(x) => f.push((String::from_str(k), JsonValue::Bool(*x))),
        None => {},
    }
    proof {
        lemma_jv_fields(f@);
        lemma_jv_fields(before);
        assert(jv_fields(f@) =~= jv_fields(before) + opt_field(k@, map_bool(*v)));
    }
}

/// View of an optional message.
pub open spec fn vom(o: Option<Message>) -> Option<MessageV> {
    match o {
        Some(m) => Some(m@),
        None => None,
    }
}

/// View of an optional photo list.
pub open spec fn vopl(o: Option<Vec<PhotoSize>>) -> Option<Seq<PhotoSizeV>> {
    match o {
        Some(v) => Some(view_photos(v@)),
        None => None,
    }
}

/// An optional message as an optional JSON object.
pub open spec fn map_message(o: Option<MessageV>) -> Option<JsonV> {
    match o {
        Some(m) => Some(message_to_json(m)),
        None => None,
    }
}

/// An optional photo list as an optional JSON array.
pub open spec fn map_photos(o: Option<Seq<PhotoSizeV>>) -> Option<JsonV> {
    match o {
        Some(row) => Some(JsonV::Arr(photos_enc(row))),
        None => None,
    }
}

/// A required nested chat field.
pub open spec fn req_chat(f: Seq<(Seq<char>, JsonV)>, k: Seq<char>) -> Option<ChatV> {
    match obj_get(f, k) {
        Some(v) => chat_from_json(v),
        None => None,
    }
}

/// An optional nested message field, as `opt_user`.
pub open spec fn opt_message(f: Seq<(Seq<char>, JsonV)>, k: Seq<char>) -> Option<Option<MessageV>> {
    match obj_get(f, k) {
        None => Some(None),
        Some(JsonV::Null) => Some(None),
        Some(v) => match message_from_json(v) {
            Some(m) => Some(Some(m)),
            None => None,
        },
    }
}

/// An optional photo-list field: absent or null is fine, anything but an
/// array of photo sizes is not.
pub open spec fn opt_photos(f: Seq<(Seq<char>, JsonV)>, k: Seq<char>) -> Option<
    Option<Seq<PhotoSizeV>>,
> {
    match obj_get(f, k) {
        None => Some(None),
        Some(JsonV::Null) => Some(None),
        Some(JsonV::Arr(items)) => match photos_dec(items) {
            Some(row) => Some(Some(row)),
            None => None,
        },
        Some(_) => None,
    }
}


/// Append one required integer field.
pub(crate) fn push_int_field(f: &mut Vec<(String, JsonValue)>, k: &str, v: i64)
    ensures
        jv_fields(final(f)@) == jv_fields(old(f)@) + field(k@, JsonV::Int(v)),
{
    let ghost before = f@;
    f.push((String::from_str(k), JsonValue::Int(v)));
    proof {
        lemma_jv_fields(f@);
        lemma_jv_fields(before);
        assert(jv_fields(f@) =~= jv_fields(before) + field(k@, JsonV::Int(v)));
    }
}

/// Append one required string field.
pub(crate) fn push_str_field(f: &mut Vec<(String, JsonValue)>, k: &str, v: &String)
    ensures
        jv_fields(final(f)@) == jv_fields(old(f)@) + field(k@, JsonV::Str(v@)),
{
    let ghost before = f@;
    f.push((String::from_str(k), JsonValue::Str(v.clone())));
    proof {
        lemma_jv_fields(f@);
        lemma_jv_fields(before);
        assert(jv_fields(f@) =~= jv_fields(before) + field(k@, JsonV::Str(v@)));
    }
}

/// Append an optional integer field, or nothing.
pub(crate) fn push_opt_int_field(f: &mut Vec<(String, JsonValue)>, k: &str, v: &Option<i64>)
    ensures
        jv_fields(final(f)@) == jv_fields(old(f)@) + opt_field(k@, map_int(*v)),
{
    let ghost before = f@;
    match v {
        Some(x) => f.push((String::from_str(k), JsonValue::Int(*x))),
        None => {},
    }
    proof {
        lemma_jv_fields(f@);
        lemma_jv_fields(before);
        assert(jv_fields(f@) =~= jv_fields(before) + opt_field(k@, map_int(*v)));
    }
}

/// Append an optional string field, or nothing.
pub(crate) fn push_opt_str_field(f: &mut Vec<(String, JsonValue)>, k: &str, v: &Option<String>)
    ensures
        jv_fields(final(f)@) == jv_fields(old(f)@) + opt_field(k@, map_str(vos(*v))),
{
    let ghost before = f@;
    match v {
        Some(s) => f.push((String::from_str(k), JsonValue::Str(s.clone()))),
        None => {},
    }
    proof {
        lemma_jv_fields(f@);
        lemma_jv_fields(before);
        assert(jv_fields(f@) =~= jv_fields(before) + opt_field(k@, map_str(vos(*v))));
    }
}

/// Append one required chat field.
pub(crate) fn push_chat_field(f: &mut Vec<(String, JsonValue)>, k: &str, v: &Chat)
    ensures
        jv_fields(final(f)@) == jv_fields(old(f)@) + field(k@, chat_to_json(v@)),
{
    let ghost before = f@;
    f.push((String::from_str(k), v.to_json()));
    proof {
        lemma_jv_fields(f@);
        lemma_jv_fields(before);
        assert(jv_fields(f@) =~= jv_fields(before) + field(k@, chat_to_json(v@)));
    }
}

/// Append an optional user field, or nothing.
pub(crate) fn push_opt_user_field(f: &mut Vec<(String, JsonValue)>, k: &str, v: &Option<User>)
    ensures
        jv_fields(final(f)@) == jv_fields(old(f)@) + opt_field(k@, map_user(vou(*v))),
{
    let ghost before = f@;
    match v {
        Some(x) => f.push((String::from_str(k), x.to_json())),
        None => {},
    }
    proof {
        lemma_jv_fields(f@);
        lemma_jv_fields(before);
        assert(jv_fields(f@) =~= jv_fields(before) + opt_field(k@, map_user(vou(*v))));
    }
}

/// Append an optional photo-list field, or nothing.
pub(crate) fn push_opt_photos_field(f: &mut Vec<(String, JsonValue)>, k: &str, v: &Option<Vec<PhotoSize>>)
    ensures
        jv_fields(final(f)@) == jv_fields(old(f)@) + opt_field(k@, map_photos(vopl(*v))),
{
    let ghost before = f@;
    match v {
        Some(ps) => f.push((String::from_str(k), JsonValue::Arr(photos_to_json(ps)))),
        None => {},
    }
    proof {
        lemma_jv_fields(f@);
        lemma_jv_fields(before);
        assert(jv_fields(f@) =~= jv_fields(before) + opt_field(k@, map_photos(vopl(*v))));
    }
}

/// One message in a chat, with the payloads this client reads.
pub struct Message {
    pub message_id: i64,
    pub from: Option<User>,
    pub date: i64,
    pub chat: Chat,
    pub edit_date: Option<i64>,
    pub text: Option<String>,
    pub caption: Option<String>,
    pub photo: Option<Vec<PhotoSize>>,
    pub new_chat_member: Option<User>,
    pub left_chat_member: Option<User>,
    pub migrate_to_chat_id: Option<i64>,
    pub migrate_from_chat_id: Option<i64>,
}

pub struct MessageV {
    pub message_id: i64,
    pub from: Option<UserV>,
    pub date: i64,
    pub chat: ChatV,
    pub edit_date: Option<i64>,
    pub text: Option<Seq<char>>,
    pub caption: Option<Seq<char>>,
    pub photo: Option<Seq<PhotoSizeV>>,
    pub new_chat_member: Option<UserV>,
    pub left_chat_member: Option<UserV>,
    pub migrate_to_chat_id: Option<i64>,
    pub migrate_from_chat_id: Option<i64>,
}

impl View for Message {
    type V = MessageV;

    open spec fn view(&self) -> MessageV {
        MessageV {
            message_id: self.message_id,
            from: vou(self.from),
            date: self.date,
            chat: self.chat@,
            edit_date: self.edit_date,
            text: vos(self.text),
            caption: vos(self.caption),
            photo: vopl(self.photo),
            new_chat_member: vou(self.new_chat_member),
            left_chat_member: vou(self.left_chat_member),
            migrate_to_chat_id: self.migrate_to_chat_id,
            migrate_from_chat_id: self.migrate_from_chat_id,
        }
    }
}

pub open spec fn message_fields(u: MessageV) -> Seq<(Seq<char>, JsonV)> {
    field("message_id"@, JsonV::Int(u.message_id)) + opt_field("from"@, map_user(u.from)) + field("date"@, JsonV::Int(u.date)) + field("chat"@, chat_to_json(u.chat)) + opt_field("edit_date"@, map_int(u.edit_date)) + opt_field("text"@, map_str(u.text)) + opt_field("caption"@, map_str(u.caption)) + opt_field("photo"@, map_photos(u.photo)) + opt_field("new_chat_member"@, map_user(u.new_chat_member)) + opt_field("left_chat_member"@, map_user(u.left_chat_member)) + opt_field("migrate_to_chat_id"@, map_int(u.migrate_to_chat_id)) + opt_field("migrate_from_chat_id"@, map_int(u.migrate_from_chat_id))
}

pub open spec fn message_to_json(u: MessageV) -> JsonV {
    JsonV::Obj(message_fields(u))
}

pub open spec fn message_from_json(v: JsonV) -> Option<MessageV> {
    match v {
        JsonV::Obj(f) => {
            match get_int(f, "message_id"@) {
                Some(message_id) => {
                    match opt_user(f, "from"@) {
                        Some(from) => {
                            match get_int(f, "date"@) {
                                Some(date) => {
                                    match req_chat(f, "chat"@) {
                                        Some(chat) => {
                                            match opt_int(f, "edit_date"@) {
                                                Some(edit_date) => {
                                                    match opt_str(f, "text"@) {
                                                        Some(text) => {
                                                            match opt_str(f, "caption"@) {
                                                                Some(caption) => {
                                                                    match opt_photos(f, "photo"@) {
                                                                        Some(photo) => {
                                                                            match opt_user(f, "new_chat_member"@) {
                                                                                Some(new_chat_member) => {
                                                                                    match opt_user(f, "left_chat_member"@) {
                                                                                        Some(left_chat_member) => {
                                                                                            match opt_int(f, "migrate_to_chat_id"@) {
                                                                                                Some(migrate_to_chat_id) => {
                                                                                                    match opt_int(f, "migrate_from_chat_id"@) {
                                                                                                        Some(migrate_from_chat_id) => {
                                                                                                            Some(MessageV { message_id, from, date, chat, edit_date, text, caption, photo, new_chat_member, left_chat_member, migrate_to_chat_id, migrate_from_chat_id })
                                                                                                        },
                                                                                                        _ => None,
                                                                                                    }
                                                                                                },
                                                                                                _ => None,
                                                                                            }
                                                                                        },
                                                                                        _ => None,
                                                                                    }
                                                                                },
                                                                                _ => None,
                                                                            }
                                                                        },
                                                                        _ => None,
                                                                    }
                                                                },
                                                                _ => None,
                                                            }
                                                        },
                                                        _ => None,
                                                    }
                                                },
                                                _ => None,
                                            }
                                        },
                                        _ => None,
                                    }
                                },
                                _ => None,
                            }
                        },
                        _ => None,
                    }
                },
                _ => None,
            }
        },
        _ => None,
    }
}

impl Message {
    /// This record as the JSON object the wire carries.
    pub fn to_json(&self) -> (r: JsonValue)
        ensures
            r@ == message_to_json(self@),
    {
        let mut f: Vec<(String, JsonValue)> = Vec::new();
        proof {
            assert(jv_fields(f@) =~= Seq::<(Seq<char>, JsonV)>::empty());
        }
        push_int_field(&mut f, "message_id", self.message_id);
        push_opt_user_field(&mut f, "from", &self.from);
        push_int_field(&mut f, "date", self.date);
        push_chat_field(&mut f, "chat", &self.chat);
        push_opt_int_field(&mut f, "edit_date", &self.edit_date);
        push_opt_str_field(&mut f, "text", &self.text);
        push_opt_str_field(&mut f, "caption", &self.caption);
        push_opt_photos_field(&mut f, "photo", &self.photo);
        push_opt_user_field(&mut f, "new_chat_member", &self.new_chat_member);
        push_opt_user_field(&mut f, "left_chat_member", &self.left_chat_member);
        push_opt_int_field(&mut f, "migrate_to_chat_id", &self.migrate_to_chat_id);
        push_opt_int_field(&mut f, "migrate_from_chat_id", &self.migrate_from_chat_id);
        proof {
            assert(jv_fields(f@) =~= message_fields(self@));
        }
        JsonValue::Obj(f)
    }

    /// Read this record back from a JSON value.
    pub fn from_json(v: &JsonValue) -> (r: Option<Message>)
        ensures
            match r {
                Some(u) => message_from_json(v@) == Some(u@),
                None => message_from_json(v@) is None,
            },
    {
        match v {
            JsonValue::Obj(f) => {
                let message_id = match read_int(f, &String::from_str("message_id")) {
                    Some(x) => x,
                    None => {
                        return None;
                    },
                };
                let from = match lookup(f, &String::from_str("from")) {
                    None => None,
                    Some(JsonValue::Null) => None,
                    Some(v) => match User::from_json(v) {
                        Some(x) => Some(x),
                        None => {
                            return None;
                        },
                    },
                };
                let date = match read_int(f, &String::from_str("date")) {
                    Some(x) => x,
                    None => {
                        return None;
                    },
                };
                let chat = match lookup(f, &String::from_str("chat")) {
                    Some(v) => match Chat::from_json(v) {
                        Some(x) => x,
                        None => {
                            return None;
                        },
                    },
                    None => {
                        return None;
                    },
                };
                let edit_date = match read_opt_int(f, &String::from_str("edit_date")) {
                    Some(x) => x,
                    None => {
                        return None;
                    },
                };
                let text = match read_opt_str(f, &String::from_str("text")) {
                    Some(x) => x,
                    None => {
                        return None;
                    },
                };
                let caption = match read_opt_str(f, &String::from_str("caption")) {
                    Some(x) => x,
                    None => {
                        return None;
                    },
                };
                let photo = match lookup(f, &String::from_str("photo")) {
                    None => None,
                    Some(JsonValue::Null) => None,
                    Some(JsonValue::Arr(items)) => match photos_from_json(items) {
                        Some(ps) => Some(ps),
                        None => {
                            return None;
                        },
                    },
                    Some(_) => {
                        return None;
                    },
                };
                let new_chat_member = match lookup(f, &String::from_str("new_chat_member")) {
                    None => None,
                    Some(JsonValue::Null) => None,
                    Some(v) => match User::from_json(v) {
                        Some(x) => Some(x),
                        None => {
                            return None;
                        },
                    },
                };
                let left_chat_member = match lookup(f, &String::from_str("left_chat_member")) {
                    None => None,
                    Some(JsonValue::Null) => None,
                    Some(v) => match User::from_json(v) {
                        Some(x) => Some(x),
                        None => {
                            return None;
                        },
                    },
                };
                let migrate_to_chat_id = match read_opt_int(f, &String::from_str("migrate_to_chat_id")) {
                    Some(x) => x,
                    None => {
                        return None;
                    },
                };
                let migrate_from_chat_id = match read_opt_int(f, &String::from_str("migrate_from_chat_id")) {
                    Some(x) => x,
                    None => {
                        return None;
                    },
                };
                Some(Message { message_id, from, date, chat, edit_date, text, caption, photo, new_chat_member, left_chat_member, migrate_to_chat_id, migrate_from_chat_id })
            },
            _ => None,
        }
    }
}

/// Decoding an encoded record gives it back, for every value.
#[verifier::rlimit(100)]
pub proof fn lemma_message_round_trip(u: MessageV)
    ensures
        message_from_json(message_to_json(u)) == Some(u),
{
    broadcast use lemma_obj_get_empty, lemma_obj_get_field, lemma_obj_get_opt_field, lemma_obj_get_append;
    broadcast use vstd::string::group_string_axioms;

    reveal_strlit("message_id");
    reveal_strlit("from");
    reveal_strlit("date");
    reveal_strlit("chat");
    reveal_strlit("edit_date");
    reveal_strlit("text");
    reveal_strlit("caption");
    reveal_strlit("photo");
    reveal_strlit("new_chat_member");
    reveal_strlit("left_chat_member");
    reveal_strlit("migrate_to_chat_id");
    reveal_strlit("migrate_from_chat_id");
    assert("message_id"@.len() == 10);
    assert("from"@.len() == 4);
    assert("date"@.len() == 4);
    assert("chat"@.len() == 4);
    assert("edit_date"@.len() == 9);
    assert("text"@.len() == 4);
    assert("caption"@.len() == 7);
    assert("photo"@.len() == 5);
    assert("new_chat_member"@.len() == 15);
    assert("left_chat_member"@.len() == 16);
    assert("migrate_to_chat_id"@.len() == 18);
    assert("migrate_from_chat_id"@.len() == 20);
    assert("from"@[0] == 'f');
    assert("date"@[0] == 'd');
    assert("chat"@[0] == 'c');
    assert("text"@[0] == 't');
    match u.from {
        Some(x) => lemma_user_round_trip(x),
        None => {},
    }
    lemma_chat_round_trip(u.chat);
    match u.photo {
        Some(row) => {
            let enc_photo = |p: PhotoSizeV| photo_size_to_json(p);
            let dec_photo = |v: JsonV| photo_size_from_json(v);
            assert forall|j: int| 0 <= j < row.len() implies #[trigger] dec_photo(
                enc_photo(row[j]),
            ) == Some(row[j]) by {
                lemma_photo_size_round_trip(row[j]);
            }
            crate::json::lemma_decode_encode_list(row, enc_photo, dec_photo);
            assert(row.map_values(enc_photo) =~= photos_enc(row));
        },
        None => {},
    }
    match u.new_chat_member {
        Some(x) => lemma_user_round_trip(x),
        None => {},
    }
    match u.left_chat_member {
        Some(x) => lemma_user_round_trip(x),
        None => {},
    }
}

/// An incoming callback query from an inline-keyboard button.
pub struct CallbackQuery {
    pub id: String,
    pub from: User,
    pub message: Option<Message>,
    pub inline_message_id: Option<String>,
    pub chat_instance: Option<String>,
    pub data: Option<String>,
    pub game_short_name: Option<String>,
}

pub struct CallbackQueryV {
    pub id: Seq<char>,
    pub from: UserV,
    pub message: Option<MessageV>,
    pub inline_message_id: Option<Seq<char>>,
    pub chat_instance: Option<Seq<char>>,
    pub data: Option<Seq<char>>,
    pub game_short_name: Option<Seq<char>>,
}

impl View for CallbackQuery {
    type V = CallbackQueryV;

    open spec fn view(&self) -> CallbackQueryV {
        CallbackQueryV {
            id: self.id@,
            from: self.from@,
            message: vom(self.message),
            inline_message_id: vos(self.inline_message_id),
            chat_instance: vos(self.chat_instance),
            data: vos(self.data),
            game_short_name: vos(self.game_short_name),
        }
    }
}

pub open spec fn callback_query_fields(u: CallbackQueryV) -> Seq<(Seq<char>, JsonV)> {
    field("id"@, JsonV::Str(u.id)) + field("from"@, user_to_json(u.from)) + opt_field("message"@, map_message(u.message)) + opt_field("inline_message_id"@, map_str(u.inline_message_id)) + opt_field("chat_instance"@, map_str(u.chat_instance)) + opt_field("data"@, map_str(u.data)) + opt_field("game_short_name"@, map_str(u.game_short_name))
}

pub open spec fn callback_query_to_json(u: CallbackQueryV) -> JsonV {
    JsonV::Obj(callback_query_fields(u))
}

pub open spec fn callback_query_from_json(v: JsonV) -> Option<CallbackQueryV> {
    match v {
        JsonV::Obj(f) => {
            match get_str(f, "id"@) {
                Some(id) => {
                    match req_user(f, "from"@) {
                        Some(from) => {
                            match opt_message(f, "message"@) {
                                Some(message) => {
                                    match opt_str(f, "inline_message_id"@) {
                                        Some(inline_message_id) => {
                                            match opt_str(f, "chat_instance"@) {
                                                Some(chat_instance) => {
                                                    match opt_str(f, "data"@) {
                                                        Some(data) => {
                                                            match opt_str(f, "game_short_name"@) {
                                                                Some(game_short_name) => {
                                                                    Some(CallbackQueryV { id, from, message, inline_message_id, chat_instance, data, game_short_name })
                                                                },
                                                                _ => None,
                                                            }
                                                        },
                                                        _ => None,
                                                    }
                                                },
                                                _ => None,
                                            }
                                        },
                                        _ => None,
                                    }
                                },
                                _ => None,
                            }
                        },
                        _ => None,
                    }
                },
                _ => None,
            }
        },
        _ => None,
    }
}

impl CallbackQuery {
    /// This record as the JSON object the wire carries.
    pub fn to_json(&self) -> (r: JsonValue)
        ensures
            r@ == callback_query_to_json(self@),
    {
        let mut f: Vec<(String, JsonValue)> = Vec::new();
        f.push((String::from_str("id"), JsonValue::Str(self.id.clone())));
        f.push((String::from_str("from"), self.from.to_json()));
        match &self.message {
            Some(x) => f.push((String::from_str("message"), x.to_json())),
            None => {},
        }
        match &self.inline_message_id {
            Some(s) => f.push((String::from_str("inline_message_id"), JsonValue::Str(s.clone()))),
            None => {},
        }
        match &self.chat_instance {
            Some(s) => f.push((String::from_str("chat_instance"), JsonValue::Str(s.clone()))),
            None => {},
        }
        match &self.data {
            Some(s) => f.push((String::from_str("data"), JsonValue::Str(s.clone()))),
            None => {},
        }
        match &self.game_short_name {
            Some(s) => f.push((String::from_str("game_short_name"), JsonValue::Str(s.clone()))),
            None => {},
        }
        proof {
            lemma_jv_fields(f@);
            assert(jv_fields(f@) =~= callback_query_fields(self@));
        }
        JsonValue::Obj(f)
    }

    /// Read this record back from a JSON value.
    pub fn from_json(v: &JsonValue) -> (r: Option<CallbackQuery>)
        ensures
            match r {
                Some(u) => callback_query_from_json(v@) == Some(u@),
                None => callback_query_from_json(v@) is None,
            },
    {
        match v {
            JsonValue::Obj(f) => {
                let id = match read_str(f, &String::from_str("id")) {
                    Some(x) => x,
                    None => {
                        return None;
                    },
                };
                let from = match lookup(f, &String::from_str("from")) {
                    Some(v) => match User::from_json(v) {
                        Some(x) => x,
                        None => {
                            return None;
                        },
                    },
                    None => {
                        return None;
                    },
                };
                let message = match lookup(f, &String::from_str("message")) {
                    None => None,
                    Some(JsonValue::Null) => None,
                    Some(v) => match Message::from_json(v) {
                        Some(x) => Some(x),
                        None => {
                            return None;
                        },
                    },
                };
                let inline_message_id = match read_opt_str(f, &String::from_str("inline_message_id")) {
                    Some(x) => x,
                    None => {
                        return None;
                    },
                };
                let chat_instance = match read_opt_str(f, &String::from_str("chat_instance")) {
                    Some(x) => x,
                    None => {
                        return None;
                    },
                };
                let data = match read_opt_str(f, &String::from_str("data")) {
                    Some(x) => x,
                    None => {
                        return None;
                    },
                };
                let game_short_name = match read_opt_str(f, &String::from_str("game_short_name")) {
                    Some(x) => x,
                    None => {
                        return None;
                    },
                };
                Some(CallbackQuery { id, from, message, inline_message_id, chat_instance, data, game_short_name })
            },
            _ => None,
        }
    }
}

/// Decoding an encoded record gives it back, for every value.
pub proof fn lemma_callback_query_round_trip(u: CallbackQueryV)
    ensures
        callback_query_from_json(callback_query_to_json(u)) == Some(u),
{
    broadcast use lemma_obj_get_empty, lemma_obj_get_field, lemma_obj_get_opt_field, lemma_obj_get_append;
    broadcast use vstd::string::group_string_axioms;

    reveal_strlit("id");
    reveal_strlit("from");
    reveal_strlit("message");
    reveal_strlit("inline_message_id");
    reveal_strlit("chat_instance");
    reveal_strlit("data");
    reveal_strlit("game_short_name");
    assert("id"@.len() == 2);
    assert("from"@.len() == 4);
    assert("message"@.len() == 7);
    assert("inline_message_id"@.len() == 17);
    assert("chat_instance"@.len() == 13);
    assert("data"@.len() == 4);
    assert("game_short_name"@.len() == 15);
    assert("from"@[0] == 'f');
    assert("data"@[0] == 'd');
    lemma_user_round_trip(u.from);
    match u.message {
        Some(x) => lemma_message_round_trip(x),
        None => {},
    }
}



/// What one update carries: exactly one populated kind.
pub enum UpdateContent {
    Message(Message),
    EditedMessage(Message),
    ChannelPost(Message),
    EditedChannelPost(Message),
    CallbackQuery(CallbackQuery),
    InlineQuery(JsonValue),
    ChosenInlineResult(JsonValue),
}

pub enum UpdateContentV {
    Message(MessageV),
    EditedMessage(MessageV),
    ChannelPost(MessageV),
    EditedChannelPost(MessageV),
    CallbackQuery(CallbackQueryV),
    InlineQuery(JsonV),
    ChosenInlineResult(JsonV),
}

impl View for UpdateContent {
    type V = UpdateContentV;

    open spec fn view(&self) -> UpdateContentV {
        match self {
            UpdateContent::Message(m) => UpdateContentV::Message(m@),
            UpdateContent::EditedMessage(m) => UpdateContentV::EditedMessage(m@),
            UpdateContent::ChannelPost(m) => UpdateContentV::ChannelPost(m@),
            UpdateContent::EditedChannelPost(m) => UpdateContentV::EditedChannelPost(m@),
            UpdateContent::CallbackQuery(q) => UpdateContentV::CallbackQuery(q@),
            UpdateContent::InlineQuery(v) => UpdateContentV::InlineQuery(v@),
            UpdateContent::ChosenInlineResult(v) => UpdateContentV::ChosenInlineResult(v@),
        }
    }
}

/// One inbound event: a strictly increasing id and its one payload.  The
/// wire form spreads the payload over seven optional fields; decoding
/// enforces that exactly one of them is populated.
pub struct Update {
    pub update_id: i64,
    pub content: UpdateContent,
}

pub struct UpdateV {
    pub update_id: i64,
    pub content: UpdateContentV,
}

impl View for Update {
    type V = UpdateV;

    open spec fn view(&self) -> UpdateV {
        UpdateV { update_id: self.update_id, content: self.content@ }
    }
}

/// The kind tag of a payload, for handler routing.
pub open spec fn spec_kind_of(c: UpdateContentV) -> UpdateKind {
    match c {
        UpdateContentV::Message(_) => UpdateKind::Message,
        UpdateContentV::EditedMessage(_) => UpdateKind::EditedMessage,
        UpdateContentV::ChannelPost(_) => UpdateKind::ChannelPost,
        UpdateContentV::EditedChannelPost(_) => UpdateKind::EditedChannelPost,
        UpdateContentV::CallbackQuery(_) => UpdateKind::CallbackQuery,
        UpdateContentV::InlineQuery(_) => UpdateKind::InlineQuery,
        UpdateContentV::ChosenInlineResult(_) => UpdateKind::ChosenInlineResult,
    }
}

/// The wire field one payload lives under, with its encoded value.
pub open spec fn content_field(c: UpdateContentV) -> (Seq<char>, JsonV) {
    match c {
        UpdateContentV::Message(m) => ("message"@, message_to_json(m)),
        UpdateContentV::EditedMessage(m) => ("edited_message"@, message_to_json(m)),
        UpdateContentV::ChannelPost(m) => ("channel_post"@, message_to_json(m)),
        UpdateContentV::EditedChannelPost(m) => ("edited_channel_post"@, message_to_json(m)),
        UpdateContentV::CallbackQuery(q) => ("callback_query"@, callback_query_to_json(q)),
        UpdateContentV::InlineQuery(v) => ("inline_query"@, v),
        UpdateContentV::ChosenInlineResult(v) => ("chosen_inline_result"@, v),
    }
}

pub open spec fn update_fields(u: UpdateV) -> Seq<(Seq<char>, JsonV)> {
    field("update_id"@, JsonV::Int(u.update_id)) + field(
        content_field(u.content).0,
        content_field(u.content).1,
    )
}

pub open spec fn update_to_json(u: UpdateV) -> JsonV {
    JsonV::Obj(update_fields(u))
}

pub open spec fn b2i(b: bool) -> int {
    if b {
        1
    } else {
        0
    }
}

/// Whether a kind field is populated: present and non-null.  A field bound
/// to JSON null reads as absent, exactly as an optional wire field does.
pub open spec fn kind_populated(f: Seq<(Seq<char>, JsonV)>, k: Seq<char>) -> bool {
    match obj_get(f, k) {
        Some(JsonV::Null) => false,
        Some(_) => true,
        None => false,
    }
}

/// How many of the seven kind fields are populated (present and non-null).
pub open spec fn populated_kinds(f: Seq<(Seq<char>, JsonV)>) -> int {
    b2i(kind_populated(f, "message"@)) + b2i(kind_populated(f, "edited_message"@)) + b2i(
        kind_populated(f, "channel_post"@),
    ) + b2i(kind_populated(f, "edited_channel_post"@)) + b2i(
        kind_populated(f, "callback_query"@),
    ) + b2i(kind_populated(f, "inline_query"@)) + b2i(
        kind_populated(f, "chosen_inline_result"@),
    )
}

/// Decode one update: its id, and exactly one populated kind — zero or
/// several populated kind fields are a shape error, not a guess.
pub open spec fn update_from_json(v: JsonV) -> Option<UpdateV> {
    match v {
        JsonV::Obj(f) => match get_int(f, "update_id"@) {
            Some(update_id) => if populated_kinds(f) != 1 {
                None
            } else if kind_populated(f, "message"@) {
                match message_from_json(obj_get(f, "message"@).unwrap()) {
                    Some(m) => Some(UpdateV { update_id, content: UpdateContentV::Message(m) }),
                    None => None,
                }
            } else if kind_populated(f, "edited_message"@) {
                match message_from_json(obj_get(f, "edited_message"@).unwrap()) {
                    Some(m) => Some(
                        UpdateV { update_id, content: UpdateContentV::EditedMessage(m) },
                    ),
                    None => None,
                }
            } else if kind_populated(f, "channel_post"@) {
                match message_from_json(obj_get(f, "channel_post"@).unwrap()) {
                    Some(m) => Some(UpdateV { update_id, content: UpdateContentV::ChannelPost(m) }),
                    None => None,
                }
            } else if kind_populated(f, "edited_channel_post"@) {
                match message_from_json(obj_get(f, "edited_channel_post"@).unwrap()) {
                    Some(m) => Some(
                        UpdateV { update_id, content: UpdateContentV::EditedChannelPost(m) },
                    ),
                    None => None,
                }
            } else if kind_populated(f, "callback_query"@) {
                match callback_query_from_json(obj_get(f, "callback_query"@).unwrap()) {
                    Some(q) => Some(
                        UpdateV { update_id, content: UpdateContentV::CallbackQuery(q) },
                    ),
                    None => None,
                }
            } else if kind_populated(f, "inline_query"@) {
                Some(
                    UpdateV {
                        update_id,
                        content: UpdateContentV::InlineQuery(obj_get(f, "inline_query"@).unwrap()),
                    },
                )
            } else {
                Some(
                    UpdateV {
                        update_id,
                        content: UpdateContentV::ChosenInlineResult(
                            obj_get(f, "chosen_inline_result"@).unwrap(),
                        ),
                    },
                )
            },
            None => None,
        },
        _ => None,
    }
}

/// A present field counts only when it is not JSON null.
fn non_null<'a>(o: Option<&'a JsonValue>) -> (r: Option<&'a JsonValue>)
    ensures
        match r {
            Some(v) => o == Some(v) && !(v@ is Null),
            None => match o {
                Some(v) => v@ is Null,
                None => true,
            },
        },
{
    match o {
        Some(JsonValue::Null) => None,
        other => other,
    }
}

/// A well-formed payload: the raw inline-query payloads are never null —
/// on the wire a null kind field reads as absent.
pub open spec fn update_content_wf(c: UpdateContentV) -> bool {
    match c {
        UpdateContentV::InlineQuery(v) => !(v is Null),
        UpdateContentV::ChosenInlineResult(v) => !(v is Null),
        _ => true,
    }
}

impl Update {
    /// The kind this update's payload has.
    pub fn kind(&self) -> (k: UpdateKind)
        ensures
            k == spec_kind_of(self@.content),
    {
        match &self.content {
            UpdateContent::Message(_) => UpdateKind::Message,
            UpdateContent::EditedMessage(_) => UpdateKind::EditedMessage,
            UpdateContent::ChannelPost(_) => UpdateKind::ChannelPost,
            UpdateContent::EditedChannelPost(_) => UpdateKind::EditedChannelPost,
            UpdateContent::CallbackQuery(_) => UpdateKind::CallbackQuery,
            UpdateContent::InlineQuery(_) => UpdateKind::InlineQuery,
            UpdateContent::ChosenInlineResult(_) => UpdateKind::ChosenInlineResult,
        }
    }

    /// This update as the JSON object the wire carries.
    pub fn to_json(&self) -> (r: JsonValue)
        ensures
            r@ == update_to_json(self@),
    {
        let mut f: Vec<(String, JsonValue)> = Vec::new();
        push_int_field(&mut f, "update_id", self.update_id);
        let ghost before = f@;
        match &self.content {
            UpdateContent::Message(m) => f.push((String::from_str("message"), m.to_json())),
            UpdateContent::EditedMessage(m) => f.push(
                (String::from_str("edited_message"), m.to_json()),
            ),
            UpdateContent::ChannelPost(m) => f.push(
                (String::from_str("channel_post"), m.to_json()),
            ),
            UpdateContent::EditedChannelPost(m) => f.push(
                (String::from_str("edited_channel_post"), m.to_json()),
            ),
            UpdateContent::CallbackQuery(q) => f.push(
                (String::from_str("callback_query"), q.to_json()),
            ),
            UpdateContent::InlineQuery(v) => f.push(
                (String::from_str("inline_query"), crate::request::clone_json(v)),
            ),
            UpdateContent::ChosenInlineResult(v) => f.push(
                (String::from_str("chosen_inline_result"), crate::request::clone_json(v)),
            ),
        }
        proof {
            lemma_jv_fields(f@);
            lemma_jv_fields(before);
            assert(jv_fields(f@) =~= jv_fields(before) + field(
                content_field(self@.content).0,
                content_field(self@.content).1,
            ));
        }
        JsonValue::Obj(f)
    }

    /// Read one update back from a JSON value.
    pub fn from_json(v: &JsonValue) -> (r: Option<Update>)
        ensures
            match r {
                Some(u) => update_from_json(v@) == Some(u@),
                None => update_from_json(v@) is None,
            },
    {
        match v {
            JsonValue::Obj(f) => {
                let update_id = match read_int(f, &String::from_str("update_id")) {
                    Some(x) => x,
                    None => {
                        return None;
                    },
                };
                let m0 = non_null(lookup(f, &String::from_str("message")));
                let m1 = non_null(lookup(f, &String::from_str("edited_message")));
                let m2 = non_null(lookup(f, &String::from_str("channel_post")));
                let m3 = non_null(lookup(f, &String::from_str("edited_channel_post")));
                let m4 = non_null(lookup(f, &String::from_str("callback_query")));
                let m5 = non_null(lookup(f, &String::from_str("inline_query")));
                let m6 = non_null(lookup(f, &String::from_str("chosen_inline_result")));
                let mut n: u32 = 0;
                if m0.is_some() {
                    n = n + 1;
                }
                if m1.is_some() {
                    n = n + 1;
                }
                if m2.is_some() {
                    n = n + 1;
                }
                if m3.is_some() {
                    n = n + 1;
                }
                if m4.is_some() {
                    n = n + 1;
                }
                if m5.is_some() {
                    n = n + 1;
                }
                if m6.is_some() {
                    n = n + 1;
                }
                if n != 1 {
                    return None;
                }
                if let Some(pv) = m0 {
                    return match Message::from_json(pv) {
                        Some(m) => Some(
                            Update { update_id, content: UpdateContent::Message(m) },
                        ),
                        None => None,
                    };
                }
                if let Some(pv) = m1 {
                    return match Message::from_json(pv) {
                        Some(m) => Some(
                            Update { update_id, content: UpdateContent::EditedMessage(m) },
                        ),
                        None => None,
                    };
                }
                if let Some(pv) = m2 {
                    return match Message::from_json(pv) {
                        Some(m) => Some(
                            Update { update_id, content: UpdateContent::ChannelPost(m) },
                        ),
                        None => None,
                    };
                }
                if let Some(pv) = m3 {
                    return match Message::from_json(pv) {
                        Some(m) => Some(
                            Update { update_id, content: UpdateContent::EditedChannelPost(m) },
                        ),
                        None => None,
                    };
                }
                if let Some(pv) = m4 {
                    return match CallbackQuery::from_json(pv) {
                        Some(q) => Some(
                            Update { update_id, content: UpdateContent::CallbackQuery(q) },
                        ),
                        None => None,
                    };
                }
                if let Some(pv) = m5 {
                    return Some(
                        Update {
                            update_id,
                            content: UpdateContent::InlineQuery(crate::request::clone_json(pv)),
                        },
                    );
                }
                match m6 {
                    Some(pv) => Some(
                        Update {
                            update_id,
                            content: UpdateContent::ChosenInlineResult(
                                crate::request::clone_json(pv),
                            ),
                        },
                    ),
                    None => None,
                }
            },
            _ => None,
        }
    }
}

/// An update whose wire object populates zero or several kind fields
/// (present and non-null) never decodes: the tagged union is enforced,
/// not guessed at.
pub proof fn lemma_update_exactly_one_kind(f: Seq<(Seq<char>, JsonV)>)
    requires
        populated_kinds(f) != 1,
    ensures
        update_from_json(JsonV::Obj(f)) is None,
{
}

/// Decoding an encoded update gives it back, for every well-formed update
/// (a raw inline payload of JSON null cannot survive the trip: its wire
/// field would read as absent).
#[verifier::rlimit(100)]
pub proof fn lemma_update_round_trip(u: UpdateV)
    requires
        update_content_wf(u.content),
    ensures
        update_from_json(update_to_json(u)) == Some(u),
{
    broadcast use lemma_obj_get_empty, lemma_obj_get_field, lemma_obj_get_opt_field, lemma_obj_get_append;
    broadcast use vstd::string::group_string_axioms;

    reveal_strlit("update_id");
    reveal_strlit("message");
    reveal_strlit("edited_message");
    reveal_strlit("channel_post");
    reveal_strlit("edited_channel_post");
    reveal_strlit("callback_query");
    reveal_strlit("inline_query");
    reveal_strlit("chosen_inline_result");
    assert("update_id"@.len() == 9);
    assert("message"@.len() == 7);
    assert("edited_message"@.len() == 14);
    assert("channel_post"@.len() == 12);
    assert("edited_channel_post"@.len() == 19);
    assert("callback_query"@.len() == 14);
    assert("inline_query"@.len() == 12);
    assert("chosen_inline_result"@.len() == 20);
    assert("edited_message"@[0] == 'e');
    assert("callback_query"@[0] == 'c');
    assert("channel_post"@[0] == 'c');
    assert("inline_query"@[0] == 'i');
    match u.content {
        UpdateContentV::Message(m) => lemma_message_round_trip(m),
        UpdateContentV::EditedMessage(m) => lemma_message_round_trip(m),
        UpdateContentV::ChannelPost(m) => lemma_message_round_trip(m),
        UpdateContentV::EditedChannelPost(m) => lemma_message_round_trip(m),
        UpdateContentV::CallbackQuery(q) => lemma_callback_query_round_trip(q),
        UpdateContentV::InlineQuery(_) => {},
        UpdateContentV::ChosenInlineResult(_) => {},
    }
}

/// The batch wrapper the get-updates call answers with.
pub struct Updates(pub Vec<Update>);

impl View for Updates {
    type V = Seq<UpdateV>;

    open spec fn view(&self) -> Seq<UpdateV> {
        view_updates(self.0@)
    }
}

/// Views of a list of updates.
pub open spec fn view_updates(s: Seq<Update>) -> Seq<UpdateV> {
    s.map_values(|u: Update| u@)
}

/// A list of updates as JSON values.
pub open spec fn updates_enc(s: Seq<UpdateV>) -> Seq<JsonV> {
    s.map_values(|u: UpdateV| update_to_json(u))
}

/// Decode a JSON array of updates, all or nothing.
pub open spec fn updates_dec(items: Seq<JsonV>) -> Option<Seq<UpdateV>> {
    decode_list(items, |v: JsonV| update_from_json(v))
}

/// Decode a JSON array of updates.
pub fn updates_from_json(items: &Vec<JsonValue>) -> (r: Option<Vec<Update>>)
    ensures
        match r {
            Some(us) => updates_dec(jv_items(items@)) == Some(view_updates(us@)),
            None => updates_dec(jv_items(items@)) is None,
        },
{
    let ghost all = jv_items(items@);
    let ghost dec = |v: JsonV| update_from_json(v);
    let mut out: Vec<Update> = Vec::new();
    let mut i: usize = 0;
    proof {
        lemma_jv_items(items@);
        assert(all.take(0) =~= Seq::empty());
        assert(view_updates(out@) =~= Seq::empty());
    }
    while i < items.len()
        invariant
            i <= items@.len(),
            out@.len() == i,
            all == jv_items(items@),
            dec == (|v: JsonV| update_from_json(v)),
            all.len() == items@.len(),
            forall|j: int| 0 <= j < items@.len() ==> all[j] == jv(items@[j]),
            decode_list(all.take(i as int), dec) == Some(view_updates(out@)),
        decreases items@.len() - i,
    {
        proof {
            assert(all.take(i as int + 1).drop_last() =~= all.take(i as int));
        }
        match Update::from_json(&items[i]) {
            Some(u) => {
                out.push(u);
                proof {
                    assert(view_updates(out@) =~= view_updates(out@.drop_last()).push(
                        out@.last()@,
                    ));
                }
            },
            None => {
                proof {
                    assert(decode_list(all.take(i as int + 1), dec) is None);
                    crate::json::lemma_decode_list_prefix_none(all, dec, i as int + 1);
                }
                return None;
            },
        }
        i = i + 1;
    }
    proof {
        assert(all.take(items@.len() as int) =~= all);
    }
    Some(out)
}

/// Views of a list of chat members.
pub open spec fn view_members(s: Seq<ChatMember>) -> Seq<ChatMemberV> {
    s.map_values(|m: ChatMember| m@)
}

/// A list of chat members as JSON values.
pub open spec fn members_enc(s: Seq<ChatMemberV>) -> Seq<JsonV> {
    s.map_values(|m: ChatMemberV| chat_member_to_json(m))
}

/// Decode a JSON array of chat members, all or nothing.
pub open spec fn members_dec(items: Seq<JsonV>) -> Option<Seq<ChatMemberV>> {
    decode_list(items, |v: JsonV| chat_member_from_json(v))
}

/// Decode a JSON array of chat members.
pub fn members_from_json(items: &Vec<JsonValue>) -> (r: Option<Vec<ChatMember>>)
    ensures
        match r {
            Some(ms) => members_dec(jv_items(items@)) == Some(view_members(ms@)),
            None => members_dec(jv_items(items@)) is None,
        },
{
    let ghost all = jv_items(items@);
    let ghost dec = |v: JsonV| chat_member_from_json(v);
    let mut out: Vec<ChatMember> = Vec::new();
    let mut i: usize = 0;
    proof {
        lemma_jv_items(items@);
        assert(all.take(0) =~= Seq::empty());
        assert(view_members(out@) =~= Seq::empty());
    }
    while i < items.len()
        invariant
            i <= items@.len(),
            out@.len() == i,
            all == jv_items(items@),
            dec == (|v: JsonV| chat_member_from_json(v)),
            all.len() == items@.len(),
            forall|j: int| 0 <= j < items@.len() ==> all[j] == jv(items@[j]),
            decode_list(all.take(i as int), dec) == Some(view_members(out@)),
        decreases items@.len() - i,
    {
        proof {
            assert(all.take(i as int + 1).drop_last() =~= all.take(i as int));
        }
        match ChatMember::from_json(&items[i]) {
            Some(m) => {
                out.push(m);
                proof {
                    assert(view_members(out@) =~= view_members(out@.drop_last()).push(
                        out@.last()@,
                    ));
                }
            },
            None => {
                proof {
                    assert(decode_list(all.take(i as int + 1), dec) is None);
                    crate::json::lemma_decode_list_prefix_none(all, dec, i as int + 1);
                }
                return None;
            },
        }
        i = i + 1;
    }
    proof {
        assert(all.take(items@.len() as int) =~= all);
    }
    Some(out)
}

} // verus!
