//! One call, interpreted.
//!
//! The caller performs the HTTP exchange for a built request and hands the
//! outcome back: either the response text or a transport failure.  This
//! module turns that outcome into a typed result: a transport failure is a
//! `Network` error; a body that is not JSON, or whose envelope or result
//! breaks its declared shape, is a `Decode` error; an `ok=false` envelope
//! is the server's own `Api` error.  No retry happens at this layer.

use vstd::prelude::*;
use crate::json::{JsonV, JsonValue};
use crate::parse::{spec_parse, parse_text};
use crate::envelope::{spec_decode_envelope, decode_envelope};
use crate::error::{Error, ErrorV};
use crate::request::ResultShape;
use crate::objects::{
    User, UserV, Chat, ChatV, Message, MessageV, File, FileV, ChatMember, ChatMemberV,
    UserProfilePhotos, UserProfilePhotosV, Update, UpdateV, user_from_json, chat_from_json,
    message_from_json, file_from_json, chat_member_from_json, user_profile_photos_from_json,
    updates_dec, members_dec, updates_from_json, members_from_json, view_updates, view_members,
    user_to_json, chat_to_json, message_to_json, file_to_json, chat_member_to_json,
    user_profile_photos_to_json, update_to_json, updates_enc, members_enc, lemma_user_round_trip,
    lemma_chat_round_trip, lemma_message_round_trip, lemma_file_round_trip,
    lemma_chat_member_round_trip, lemma_user_profile_photos_round_trip, lemma_update_round_trip,
};

verus! {

/// A decoded call result, one variant per declared shape.
pub enum Answer {
    Bool(bool),
    Int(i64),
    User(User),
    Chat(Chat),
    Message(Message),
    Updates(Vec<Update>),
    File(File),
    ChatMember(ChatMember),
    ChatMembers(Vec<ChatMember>),
    UserProfilePhotos(UserProfilePhotos),
    Raw(JsonValue),
}

pub enum AnswerV {
    Bool(bool),
    Int(i64),
    User(UserV),
    Chat(ChatV),
    Message(MessageV),
    Updates(Seq<UpdateV>),
    File(FileV),
    ChatMember(ChatMemberV),
    ChatMembers(Seq<ChatMemberV>),
    UserProfilePhotos(UserProfilePhotosV),
    Raw(JsonV),
}

impl View for Answer {
    type V = AnswerV;

    open spec fn view(&self) -> AnswerV {
        match self {
            Answer::Bool(b) => AnswerV::Bool(*b),
            Answer::Int(i) => AnswerV::Int(*i),
            Answer::User(u) => AnswerV::User(u@),
            Answer::Chat(c) => AnswerV::Chat(c@),
            Answer::Message(m) => AnswerV::Message(m@),
            Answer::Updates(us) => AnswerV::Updates(view_updates(us@)),
            Answer::File(f) => AnswerV::File(f@),
            Answer::ChatMember(m) => AnswerV::ChatMember(m@),
            Answer::ChatMembers(ms) => AnswerV::ChatMembers(view_members(ms@)),
            Answer::UserProfilePhotos(p) => AnswerV::UserProfilePhotos(p@),
            Answer::Raw(v) => AnswerV::Raw(v@),
        }
    }
}

/// Decode a raw envelope result into its declared shape.
pub open spec fn spec_decode_result(shape: ResultShape, v: JsonV) -> Option<AnswerV> {
    match shape {
        ResultShape::Bool => match v {
            JsonV::Bool(b) => Some(AnswerV::Bool(b)),
            _ => None,
        },
        ResultShape::Int => match v {
            JsonV::Int(i) => Some(AnswerV::Int(i)),
            _ => None,
        },
        ResultShape::User => match user_from_json(v) {
            Some(u) => Some(AnswerV::User(u)),
            None => None,
        },
        ResultShape::Chat => match chat_from_json(v) {
            Some(c) => Some(AnswerV::Chat(c)),
            None => None,
        },
        ResultShape::Message => match message_from_json(v) {
            Some(m) => Some(AnswerV::Message(m)),
            None => None,
        },
        ResultShape::Updates => match v {
            JsonV::Arr(items) => match updates_dec(items) {
                Some(us) => Some(AnswerV::Updates(us)),
                None => None,
            },
            _ => None,
        },
        ResultShape::File => match file_from_json(v) {
            Some(f) => Some(AnswerV::File(f)),
            None => None,
        },
        ResultShape::ChatMember => match chat_member_from_json(v) {
            Some(m) => Some(AnswerV::ChatMember(m)),
            None => None,
        },
        ResultShape::ChatMembers => match v {
            JsonV::Arr(items) => match members_dec(items) {
                Some(ms) => Some(AnswerV::ChatMembers(ms)),
                None => None,
            },
            _ => None,
        },
        ResultShape::UserProfilePhotos => match user_profile_photos_from_json(v) {
            Some(p) => Some(AnswerV::UserProfilePhotos(p)),
            None => None,
        },
        ResultShape::Raw => Some(AnswerV::Raw(v)),
    }
}

/// Decode a raw envelope result into its declared shape.
pub fn decode_result(shape: ResultShape, v: JsonValue) -> (r: Option<Answer>)
    ensures
        match r {
            Some(a) => spec_decode_result(shape, v@) == Some(a@),
            None => spec_decode_result(shape, v@) is None,
        },
{
    match shape {
        ResultShape::Bool => match v {
            JsonValue::Bool(b) => Some(Answer::Bool(b)),
            _ => None,
        },
        ResultShape::Int => match v {
            JsonValue::Int(i) => Some(Answer::Int(i)),
            _ => None,
        },
        ResultShape::User => match User::from_json(&v) {
            Some(u) => Some(Answer::User(u)),
            None => None,
        },
        ResultShape::Chat => match Chat::from_json(&v) {
            Some(c) => Some(Answer::Chat(c)),
            None => None,
        },
        ResultShape::Message => match Message::from_json(&v) {
            Some(m) => Some(Answer::Message(m)),
            None => None,
        },
        ResultShape::Updates => match v {
            JsonValue::Arr(items) => match updates_from_json(&items) {
                Some(us) => Some(Answer::Updates(us)),
                None => None,
            },
            _ => None,
        },
        ResultShape::File => match File::from_json(&v) {
            Some(f) => Some(Answer::File(f)),
            None => None,
        },
        ResultShape::ChatMember => match ChatMember::from_json(&v) {
            Some(m) => Some(Answer::ChatMember(m)),
            None => None,
        },
        ResultShape::ChatMembers => match v {
            JsonValue::Arr(items) => match members_from_json(&items) {
                Some(ms) => Some(Answer::ChatMembers(ms)),
                None => None,
            },
            _ => None,
        },
        ResultShape::UserProfilePhotos => match UserProfilePhotos::from_json(&v) {
            Some(p) => Some(Answer::UserProfilePhotos(p)),
            None => None,
        },
        ResultShape::Raw => Some(Answer::Raw(v)),
    }
}

/// What one HTTP exchange came back with.
pub enum HttpOutcome {
    Body(String),
    NetworkFailure(String),
}

pub enum HttpOutcomeV {
    Body(Seq<char>),
    NetworkFailure(Seq<char>),
}

impl View for HttpOutcome {
    type V = HttpOutcomeV;

    open spec fn view(&self) -> HttpOutcomeV {
        match self {
            HttpOutcome::Body(s) => HttpOutcomeV::Body(s@),
            HttpOutcome::NetworkFailure(s) => HttpOutcomeV::NetworkFailure(s@),
        }
    }
}

/// The typed outcome of one call, given the raw outcome of its exchange.
pub open spec fn spec_interpret(shape: ResultShape, outcome: HttpOutcomeV) -> Result<
    AnswerV,
    ErrorV,
> {
    match outcome {
        HttpOutcomeV::NetworkFailure(s) => Err(ErrorV::Network(s)),
        HttpOutcomeV::Body(text) => match spec_parse(text) {
            None => Err(ErrorV::Decode("response is not valid JSON"@)),
            Some(v) => match spec_decode_envelope(v) {
                Err(e) => Err(e),
                Ok(result) => match spec_decode_result(shape, result) {
                    Some(a) => Ok(a),
                    None => Err(ErrorV::Decode("result does not match its declared shape"@)),
                },
            },
        },
    }
}

/// Interpret the outcome of one call's exchange: a typed result, the
/// server's own error, or the decode failure that says what broke.
pub fn interpret_response(shape: ResultShape, outcome: HttpOutcome) -> (r: Result<Answer, Error>)
    ensures
        match r {
            Ok(a) => spec_interpret(shape, outcome@) == Ok::<AnswerV, ErrorV>(a@),
            Err(e) => spec_interpret(shape, outcome@) == Err::<AnswerV, ErrorV>(e@),
        },
{
    match outcome {
        HttpOutcome::NetworkFailure(s) => Err(Error::Network(s)),
        HttpOutcome::Body(text) => match parse_text(text.as_str()) {
            None => Err(Error::Decode(String::from_str("response is not valid JSON"))),
            Some(v) => match decode_envelope(v) {
                Err(e) => Err(e),
                Ok(result) => match decode_result(shape, result) {
                    Some(a) => Ok(a),
                    None => Err(Error::Decode(String::from_str(
                        "result does not match its declared shape",
                    ))),
                },
            },
        },
    }
}

/// The canonical JSON form of an answer, shape by shape.
pub open spec fn encode_answer(a: AnswerV) -> JsonV {
    match a {
        AnswerV::Bool(b) => JsonV::Bool(b),
        AnswerV::Int(i) => JsonV::Int(i),
        AnswerV::User(u) => user_to_json(u),
        AnswerV::Chat(c) => chat_to_json(c),
        AnswerV::Message(m) => message_to_json(m),
        AnswerV::Updates(us) => JsonV::Arr(updates_enc(us)),
        AnswerV::File(f) => file_to_json(f),
        AnswerV::ChatMember(m) => chat_member_to_json(m),
        AnswerV::ChatMembers(ms) => JsonV::Arr(members_enc(ms)),
        AnswerV::UserProfilePhotos(p) => user_profile_photos_to_json(p),
        AnswerV::Raw(v) => v,
    }
}

/// The shape an answer decodes under.
pub open spec fn shape_of(a: AnswerV) -> ResultShape {
    match a {
        AnswerV::Bool(_) => ResultShape::Bool,
        AnswerV::Int(_) => ResultShape::Int,
        AnswerV::User(_) => ResultShape::User,
        AnswerV::Chat(_) => ResultShape::Chat,
        AnswerV::Message(_) => ResultShape::Message,
        AnswerV::Updates(_) => ResultShape::Updates,
        AnswerV::File(_) => ResultShape::File,
        AnswerV::ChatMember(_) => ResultShape::ChatMember,
        AnswerV::ChatMembers(_) => ResultShape::ChatMembers,
        AnswerV::UserProfilePhotos(_) => ResultShape::UserProfilePhotos,
        AnswerV::Raw(_) => ResultShape::Raw,
    }
}

/// A well-formed answer: every update in a batch carries a well-formed
/// payload (a raw inline payload is never JSON null).
pub open spec fn answer_wf(a: AnswerV) -> bool {
    match a {
        AnswerV::Updates(us) => forall|i: int|
            0 <= i < us.len() ==> crate::objects::update_content_wf(#[trigger] us[i].content),
        _ => true,
    }
}

/// Every declared shape round-trips: decoding an encoded answer under its
/// own shape reproduces the answer, for every well-formed answer.
pub proof fn lemma_result_round_trip(a: AnswerV)
    requires
        answer_wf(a),
    ensures
        spec_decode_result(shape_of(a), encode_answer(a)) == Some(a),
{
    match a {
        AnswerV::Bool(_) => {},
        AnswerV::Int(_) => {},
        AnswerV::User(u) => lemma_user_round_trip(u),
        AnswerV::Chat(c) => lemma_chat_round_trip(c),
        AnswerV::Message(m) => lemma_message_round_trip(m),
        AnswerV::Updates(us) => {
            let enc = |u: UpdateV| update_to_json(u);
            let dec = |v: JsonV| crate::objects::update_from_json(v);
            assert forall|i: int| 0 <= i < us.len() implies #[trigger] dec(enc(us[i])) == Some(
                us[i],
            ) by {
                lemma_update_round_trip(us[i]);
            }
            crate::json::lemma_decode_encode_list(us, enc, dec);
            assert(us.map_values(enc) =~= updates_enc(us));
        },
        AnswerV::File(f) => lemma_file_round_trip(f),
        AnswerV::ChatMember(m) => lemma_chat_member_round_trip(m),
        AnswerV::ChatMembers(ms) => {
            let enc = |m: ChatMemberV| chat_member_to_json(m);
            let dec = |v: JsonV| crate::objects::chat_member_from_json(v);
            assert forall|i: int| 0 <= i < ms.len() implies #[trigger] dec(enc(ms[i])) == Some(
                ms[i],
            ) by {
                lemma_chat_member_round_trip(ms[i]);
            }
            crate::json::lemma_decode_encode_list(ms, enc, dec);
            assert(ms.map_values(enc) =~= members_enc(ms));
        },
        AnswerV::UserProfilePhotos(p) => lemma_user_profile_photos_round_trip(p),
        AnswerV::Raw(_) => {},
    }
}

} // verus!
