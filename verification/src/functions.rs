//! The remote methods, as typed calls.
//!
//! Each method struct holds the parameters of one remote method; its
//! `descriptor` pins down exactly which fields the request carries — an
//! absent optional parameter contributes nothing — plus the method name,
//! the declared result shape, and the file-bearing field if any.

use vstd::prelude::*;
use crate::json::{
    JsonV, JsonValue, jv, jv_fields, jv_items, field, opt_field, lemma_jv_fields, lemma_jv_items,
};
use crate::objects::{
    map_str, map_int, map_bool, vos, push_int_field, push_str_field, push_opt_int_field,
    push_opt_str_field, push_bool_field, push_opt_bool_field,
};
use crate::request::{CallDescriptor, CallDescriptorV, FileRef, FileRefV, ResultShape};

verus! {

/// How message text is parsed on the receiving side.
pub enum ParseMode {
    Markdown,
    HTML,
    Text,
}

impl ParseMode {
    /// The wire name of this mode.
    pub fn to_text(&self) -> (r: String)
        ensures
            r@ == match self {
                ParseMode::Markdown => "Markdown"@,
                ParseMode::HTML => "HTML"@,
                ParseMode::Text => "Text"@,
            },
    {
        match self {
            ParseMode::Markdown => String::from_str("Markdown"),
            ParseMode::HTML => String::from_str("HTML"),
            ParseMode::Text => String::from_str("Text"),
        }
    }
}

/// The chat action shown while the bot works.
pub enum Action {
    Typing,
    UploadPhoto,
    RecordVideo,
    UploadVideo,
    RecordAudio,
    UploadAudio,
    UploadDocument,
    FindLocation,
}

impl Action {
    /// The wire name of this action.  `RecordAudio` writes the same name as
    /// `RecordVideo`: the wire name this library has always sent for it.
    pub fn to_text(&self) -> (r: String)
        ensures
            r@ == match self {
                Action::Typing => "Typing"@,
                Action::UploadPhoto => "UploadPhoto"@,
                Action::RecordVideo => "RecordVideo"@,
                Action::UploadVideo => "UploadVideo"@,
                Action::RecordAudio => "RecordVideo"@,
                Action::UploadAudio => "UploadAudio"@,
                Action::UploadDocument => "UploadDocument"@,
                Action::FindLocation => "FindLocation"@,
            },
    {
        match self {
            Action::Typing => String::from_str("Typing"),
            Action::UploadPhoto => String::from_str("UploadPhoto"),
            Action::RecordVideo => String::from_str("RecordVideo"),
            Action::UploadVideo => String::from_str("UploadVideo"),
            Action::RecordAudio => String::from_str("RecordVideo"),
            Action::UploadAudio => String::from_str("UploadAudio"),
            Action::UploadDocument => String::from_str("UploadDocument"),
            Action::FindLocation => String::from_str("FindLocation"),
        }
    }
}

/// One button of a custom reply keyboard.
pub struct KeyboardButton {
    pub text: String,
    pub request_contact: Option<bool>,
    pub request_location: Option<bool>,
}

pub struct KeyboardButtonV {
    pub text: Seq<char>,
    pub request_contact: Option<bool>,
    pub request_location: Option<bool>,
}

impl View for KeyboardButton {
    type V = KeyboardButtonV;

    open spec fn view(&self) -> KeyboardButtonV {
        KeyboardButtonV {
            text: self.text@,
            request_contact: self.request_contact,
            request_location: self.request_location,
        }
    }
}

pub open spec fn keyboard_button_to_json(b: KeyboardButtonV) -> JsonV {
    JsonV::Obj(
        field("text"@, JsonV::Str(b.text)) + opt_field(
            "request_contact"@,
            map_bool(b.request_contact),
        ) + opt_field("request_location"@, map_bool(b.request_location)),
    )
}

impl KeyboardButton {
    /// This button as the JSON object the wire carries.
    pub fn to_json(&self) -> (r: JsonValue)
        ensures
            r@ == keyboard_button_to_json(self@),
    {
        let mut f: Vec<(String, JsonValue)> = Vec::new();
        push_str_field(&mut f, "text", &self.text);
        push_opt_bool_field(&mut f, "request_contact", &self.request_contact);
        push_opt_bool_field(&mut f, "request_location", &self.request_location);
        proof {
            assert(jv_fields(Seq::<(String, JsonValue)>::empty()) =~= Seq::<
                (Seq<char>, JsonV),
            >::empty());
            assert(jv_fields(f@) =~= keyboard_button_to_json(self@)->Obj_0);
        }
        JsonValue::Obj(f)
    }
}

/// A custom reply keyboard.
pub struct ReplyKeyboardMarkup {
    pub keyboard: Vec<KeyboardButton>,
    pub resize_keyboard: Option<bool>,
    pub one_time_keyboard: Option<bool>,
    pub selective: Option<bool>,
}

pub struct ReplyKeyboardMarkupV {
    pub keyboard: Seq<KeyboardButtonV>,
    pub resize_keyboard: Option<bool>,
    pub one_time_keyboard: Option<bool>,
    pub selective: Option<bool>,
}

impl View for ReplyKeyboardMarkup {
    type V = ReplyKeyboardMarkupV;

    open spec fn view(&self) -> ReplyKeyboardMarkupV {
        ReplyKeyboardMarkupV {
            keyboard: self.keyboard@.map_values(|b: KeyboardButton| b@),
            resize_keyboard: self.resize_keyboard,
            one_time_keyboard: self.one_time_keyboard,
            selective: self.selective,
        }
    }
}

pub open spec fn reply_keyboard_markup_to_json(m: ReplyKeyboardMarkupV) -> JsonV {
    JsonV::Obj(
        field(
            "keyboard"@,
            JsonV::Arr(m.keyboard.map_values(|b: KeyboardButtonV| keyboard_button_to_json(b))),
        ) + opt_field("resize_keyboard"@, map_bool(m.resize_keyboard)) + opt_field(
            "one_time_keyboard"@,
            map_bool(m.one_time_keyboard),
        ) + opt_field("selective"@, map_bool(m.selective)),
    )
}

impl ReplyKeyboardMarkup {
    /// This keyboard as the JSON object the wire carries.
    pub fn to_json(&self) -> (r: JsonValue)
        ensures
            r@ == reply_keyboard_markup_to_json(self@),
    {
        let mut buttons: Vec<JsonValue> = Vec::new();
        let mut i: usize = 0;
        while i < self.keyboard.len()
            invariant
                i <= self.keyboard@.len(),
                buttons@.len() == i,
                forall|j: int|
                    0 <= j < i ==> jv(buttons@[j]) == keyboard_button_to_json(
                        self.keyboard@[j]@,
                    ),
            decreases self.keyboard@.len() - i,
        {
            let b = self.keyboard[i].to_json();
            buttons.push(b);
            i = i + 1;
        }
        let mut f: Vec<(String, JsonValue)> = Vec::new();
        f.push((String::from_str("keyboard"), JsonValue::Arr(buttons)));
        proof {
            lemma_jv_fields(f@);
            lemma_jv_items(buttons@);
            assert(jv_items(buttons@) =~= self@.keyboard.map_values(
                |b: KeyboardButtonV| keyboard_button_to_json(b),
            ));
            assert(jv_fields(f@) =~= field(
                "keyboard"@,
                JsonV::Arr(
                    self@.keyboard.map_values(|b: KeyboardButtonV| keyboard_button_to_json(b)),
                ),
            ));
        }
        push_opt_bool_field(&mut f, "resize_keyboard", &self.resize_keyboard);
        push_opt_bool_field(&mut f, "one_time_keyboard", &self.one_time_keyboard);
        push_opt_bool_field(&mut f, "selective", &self.selective);
        proof {
            assert(jv_fields(f@) =~= reply_keyboard_markup_to_json(self@)->Obj_0);
        }
        JsonValue::Obj(f)
    }
}

/// Removes the custom keyboard on the receiving side.
pub struct ReplyKeyboardRemove {
    pub remove_keyboard: bool,
    pub selective: Option<bool>,
}

pub struct ReplyKeyboardRemoveV {
    pub remove_keyboard: bool,
    pub selective: Option<bool>,
}

impl View for ReplyKeyboardRemove {
    type V = ReplyKeyboardRemoveV;

    open spec fn view(&self) -> ReplyKeyboardRemoveV {
        ReplyKeyboardRemoveV { remove_keyboard: self.remove_keyboard, selective: self.selective }
    }
}

pub open spec fn reply_keyboard_remove_to_json(m: ReplyKeyboardRemoveV) -> JsonV {
    JsonV::Obj(
        field("remove_keyboard"@, JsonV::Bool(m.remove_keyboard)) + opt_field(
            "selective"@,
            map_bool(m.selective),
        ),
    )
}

impl ReplyKeyboardRemove {
    /// This marker as the JSON object the wire carries.
    pub fn to_json(&self) -> (r: JsonValue)
        ensures
            r@ == reply_keyboard_remove_to_json(self@),
    {
        let mut f: Vec<(String, JsonValue)> = Vec::new();
        push_bool_field(&mut f, "remove_keyboard", self.remove_keyboard);
        push_opt_bool_field(&mut f, "selective", &self.selective);
        proof {
            assert(jv_fields(Seq::<(String, JsonValue)>::empty()) =~= Seq::<
                (Seq<char>, JsonV),
            >::empty());
            assert(jv_fields(f@) =~= reply_keyboard_remove_to_json(self@)->Obj_0);
        }
        JsonValue::Obj(f)
    }
}

/// One button of an inline keyboard.
pub struct InlineKeyboardButton {
    pub text: String,
    pub url: Option<String>,
    pub callback_data: Option<String>,
    pub switch_inline_query: Option<String>,
    pub switch_inline_query_current_chat: Option<String>,
}

pub struct InlineKeyboardButtonV {
    pub text: Seq<char>,
    pub url: Option<Seq<char>>,
    pub callback_data: Option<Seq<char>>,
    pub switch_inline_query: Option<Seq<char>>,
    pub switch_inline_query_current_chat: Option<Seq<char>>,
}

impl View for InlineKeyboardButton {
    type V = InlineKeyboardButtonV;

    open spec fn view(&self) -> InlineKeyboardButtonV {
        InlineKeyboardButtonV {
            text: self.text@,
            url: vos(self.url),
            callback_data: vos(self.callback_data),
            switch_inline_query: vos(self.switch_inline_query),
            switch_inline_query_current_chat: vos(self.switch_inline_query_current_chat),
        }
    }
}

pub open spec fn inline_keyboard_button_to_json(b: InlineKeyboardButtonV) -> JsonV {
    JsonV::Obj(
        field("text"@, JsonV::Str(b.text)) + opt_field("url"@, map_str(b.url)) + opt_field(
            "callback_data"@,
            map_str(b.callback_data),
        ) + opt_field("switch_inline_query"@, map_str(b.switch_inline_query)) + opt_field(
            "switch_inline_query_current_chat"@,
            map_str(b.switch_inline_query_current_chat),
        ),
    )
}

impl InlineKeyboardButton {
    /// This button as the JSON object the wire carries.
    pub fn to_json(&self) -> (r: JsonValue)
        ensures
            r@ == inline_keyboard_button_to_json(self@),
    {
        let mut f: Vec<(String, JsonValue)> = Vec::new();
        push_str_field(&mut f, "text", &self.text);
        push_opt_str_field(&mut f, "url", &self.url);
        push_opt_str_field(&mut f, "callback_data", &self.callback_data);
        push_opt_str_field(&mut f, "switch_inline_query", &self.switch_inline_query);
        push_opt_str_field(
            &mut f,
            "switch_inline_query_current_chat",
            &self.switch_inline_query_current_chat,
        );
        proof {
            assert(jv_fields(Seq::<(String, JsonValue)>::empty()) =~= Seq::<
                (Seq<char>, JsonV),
            >::empty());
            assert(jv_fields(f@) =~= inline_keyboard_button_to_json(self@)->Obj_0);
        }
        JsonValue::Obj(f)
    }
}

/// An inline keyboard attached to a message.
pub struct InlineKeyboardMarkup {
    pub inline_keyboard: Vec<InlineKeyboardButton>,
}

pub struct InlineKeyboardMarkupV {
    pub inline_keyboard: Seq<InlineKeyboardButtonV>,
}

impl View for InlineKeyboardMarkup {
    type V = InlineKeyboardMarkupV;

    open spec fn view(&self) -> InlineKeyboardMarkupV {
        InlineKeyboardMarkupV {
            inline_keyboard: self.inline_keyboard@.map_values(|b: InlineKeyboardButton| b@),
        }
    }
}

pub open spec fn inline_keyboard_markup_to_json(m: InlineKeyboardMarkupV) -> JsonV {
    JsonV::Obj(
        field(
            "inline_keyboard"@,
            JsonV::Arr(
                m.inline_keyboard.map_values(
                    |b: InlineKeyboardButtonV| inline_keyboard_button_to_json(b),
                ),
            ),
        ),
    )
}

impl InlineKeyboardMarkup {
    /// This keyboard as the JSON object the wire carries.
    pub fn to_json(&self) -> (r: JsonValue)
        ensures
            r@ == inline_keyboard_markup_to_json(self@),
    {
        let mut buttons: Vec<JsonValue> = Vec::new();
        let mut i: usize = 0;
        while i < self.inline_keyboard.len()
            invariant
                i <= self.inline_keyboard@.len(),
                buttons@.len() == i,
                forall|j: int|
                    0 <= j < i ==> jv(buttons@[j]) == inline_keyboard_button_to_json(
                        self.inline_keyboard@[j]@,
                    ),
            decreases self.inline_keyboard@.len() - i,
        {
            let b = self.inline_keyboard[i].to_json();
            buttons.push(b);
            i = i + 1;
        }
        let mut f: Vec<(String, JsonValue)> = Vec::new();
        f.push((String::from_str("inline_keyboard"), JsonValue::Arr(buttons)));
        proof {
            lemma_jv_fields(f@);
            lemma_jv_items(buttons@);
            assert(jv_items(buttons@) =~= self@.inline_keyboard.map_values(
                |b: InlineKeyboardButtonV| inline_keyboard_button_to_json(b),
            ));
            assert(jv_fields(f@) =~= inline_keyboard_markup_to_json(self@)->Obj_0);
        }
        JsonValue::Obj(f)
    }
}

/// Asks the receiving client to present a reply interface.
pub struct ForceReply {
    pub force_reply: bool,
    pub selective: Option<bool>,
}

pub struct ForceReplyV {
    pub force_reply: bool,
    pub selective: Option<bool>,
}

impl View for ForceReply {
    type V = ForceReplyV;

    open spec fn view(&self) -> ForceReplyV {
        ForceReplyV { force_reply: self.force_reply, selective: self.selective }
    }
}

pub open spec fn force_reply_to_json(m: ForceReplyV) -> JsonV {
    JsonV::Obj(
        field("force_reply"@, JsonV::Bool(m.force_reply)) + opt_field(
            "selective"@,
            map_bool(m.selective),
        ),
    )
}

impl ForceReply {
    /// This marker as the JSON object the wire carries.
    pub fn to_json(&self) -> (r: JsonValue)
        ensures
            r@ == force_reply_to_json(self@),
    {
        let mut f: Vec<(String, JsonValue)> = Vec::new();
        push_bool_field(&mut f, "force_reply", self.force_reply);
        push_opt_bool_field(&mut f, "selective", &self.selective);
        proof {
            assert(jv_fields(Seq::<(String, JsonValue)>::empty()) =~= Seq::<
                (Seq<char>, JsonV),
            >::empty());
            assert(jv_fields(f@) =~= force_reply_to_json(self@)->Obj_0);
        }
        JsonValue::Obj(f)
    }
}

/// The four mutually exclusive reply-markup shapes.  The encoder flattens
/// to the active variant's own JSON shape: no wrapper object around it.
pub enum ReplyMarkup {
    InlineKeyboardMarkup(InlineKeyboardMarkup),
    ReplyKeyboardMarkup(ReplyKeyboardMarkup),
    ReplyKeyboardRemove(ReplyKeyboardRemove),
    ForceReply(ForceReply),
}

pub enum ReplyMarkupV {
    InlineKeyboardMarkup(InlineKeyboardMarkupV),
    ReplyKeyboardMarkup(ReplyKeyboardMarkupV),
    ReplyKeyboardRemove(ReplyKeyboardRemoveV),
    ForceReply(ForceReplyV),
}

impl View for ReplyMarkup {
    type V = ReplyMarkupV;

    open spec fn view(&self) -> ReplyMarkupV {
        match self {
            ReplyMarkup::InlineKeyboardMarkup(m) => ReplyMarkupV::InlineKeyboardMarkup(m@),
            ReplyMarkup::ReplyKeyboardMarkup(m) => ReplyMarkupV::ReplyKeyboardMarkup(m@),
            ReplyMarkup::ReplyKeyboardRemove(m) => ReplyMarkupV::ReplyKeyboardRemove(m@),
            ReplyMarkup::ForceReply(m) => ReplyMarkupV::ForceReply(m@),
        }
    }
}

pub open spec fn reply_markup_to_json(m: ReplyMarkupV) -> JsonV {
    match m {
        ReplyMarkupV::InlineKeyboardMarkup(x) => inline_keyboard_markup_to_json(x),
        ReplyMarkupV::ReplyKeyboardMarkup(x) => reply_keyboard_markup_to_json(x),
        ReplyMarkupV::ReplyKeyboardRemove(x) => reply_keyboard_remove_to_json(x),
        ReplyMarkupV::ForceReply(x) => force_reply_to_json(x),
    }
}

impl ReplyMarkup {
    /// The active variant's own JSON shape.
    pub fn to_json(&self) -> (r: JsonValue)
        ensures
            r@ == reply_markup_to_json(self@),
    {
        match self {
            ReplyMarkup::InlineKeyboardMarkup(m) => m.to_json(),
            ReplyMarkup::ReplyKeyboardMarkup(m) => m.to_json(),
            ReplyMarkup::ReplyKeyboardRemove(m) => m.to_json(),
            ReplyMarkup::ForceReply(m) => m.to_json(),
        }
    }
}

impl From<InlineKeyboardMarkup> for ReplyMarkup {
    fn from(f: InlineKeyboardMarkup) -> (r: ReplyMarkup) {
        ReplyMarkup::InlineKeyboardMarkup(f)
    }
}

impl vstd::std_specs::convert::FromSpecImpl<InlineKeyboardMarkup> for ReplyMarkup {
    open spec fn obeys_from_spec() -> bool {
        true
    }

    open spec fn from_spec(f: InlineKeyboardMarkup) -> ReplyMarkup {
        ReplyMarkup::InlineKeyboardMarkup(f)
    }
}

impl From<ReplyKeyboardMarkup> for ReplyMarkup {
    fn from(f: ReplyKeyboardMarkup) -> (r: ReplyMarkup) {
        ReplyMarkup::ReplyKeyboardMarkup(f)
    }
}

impl vstd::std_specs::convert::FromSpecImpl<ReplyKeyboardMarkup> for ReplyMarkup {
    open spec fn obeys_from_spec() -> bool {
        true
    }

    open spec fn from_spec(f: ReplyKeyboardMarkup) -> ReplyMarkup {
        ReplyMarkup::ReplyKeyboardMarkup(f)
    }
}

impl From<ReplyKeyboardRemove> for ReplyMarkup {
    fn from(f: ReplyKeyboardRemove) -> (r: ReplyMarkup) {
        ReplyMarkup::ReplyKeyboardRemove(f)
    }
}

impl vstd::std_specs::convert::FromSpecImpl<ReplyKeyboardRemove> for ReplyMarkup {
    open spec fn obeys_from_spec() -> bool {
        true
    }

    open spec fn from_spec(f: ReplyKeyboardRemove) -> ReplyMarkup {
        ReplyMarkup::ReplyKeyboardRemove(f)
    }
}

impl From<ForceReply> for ReplyMarkup {
    fn from(f: ForceReply) -> (r: ReplyMarkup) {
        ReplyMarkup::ForceReply(f)
    }
}

impl vstd::std_specs::convert::FromSpecImpl<ForceReply> for ReplyMarkup {
    open spec fn obeys_from_spec() -> bool {
        true
    }

    open spec fn from_spec(f: ForceReply) -> ReplyMarkup {
        ReplyMarkup::ForceReply(f)
    }
}

/// View of an optional reply markup.
pub open spec fn vrm(o: Option<ReplyMarkup>) -> Option<ReplyMarkupV> {
    match o {
        Some(m) => Some(m@),
        None => None,
    }
}

/// An optional reply markup as an optional JSON value.
pub open spec fn map_markup(o: Option<ReplyMarkupV>) -> Option<JsonV> {
    match o {
        Some(m) => Some(reply_markup_to_json(m)),
        None => None,
    }
}

/// Append an optional reply-markup field, or nothing.
pub(crate) fn push_opt_markup_field(
    f: &mut Vec<(String, JsonValue)>,
    k: &str,
    v: &Option<ReplyMarkup>,
)
    ensures
        jv_fields(final(f)@) == jv_fields(old(f)@) + opt_field(k@, map_markup(vrm(*v))),
{
    let ghost before = f@;
    match v {
        Some(m) => f.push((String::from_str(k), m.to_json())),
        None => {},
    }
    proof {
        lemma_jv_fields(f@);
        lemma_jv_fields(before);
        assert(jv_fields(f@) =~= jv_fields(before) + opt_field(k@, map_markup(vrm(*v))));
    }
}

/// View of an optional inline keyboard.
pub open spec fn vikm(o: Option<InlineKeyboardMarkup>) -> Option<InlineKeyboardMarkupV> {
    match o {
        Some(m) => Some(m@),
        None => None,
    }
}

/// An optional inline keyboard as an optional JSON value.
pub open spec fn map_ikm(o: Option<InlineKeyboardMarkupV>) -> Option<JsonV> {
    match o {
        Some(m) => Some(inline_keyboard_markup_to_json(m)),
        None => None,
    }
}

/// Append an optional inline-keyboard field, or nothing.
pub(crate) fn push_opt_ikm_field(
    f: &mut Vec<(String, JsonValue)>,
    k: &str,
    v: &Option<InlineKeyboardMarkup>,
)
    ensures
        jv_fields(final(f)@) == jv_fields(old(f)@) + opt_field(k@, map_ikm(vikm(*v))),
{
    let ghost before = f@;
    match v {
        Some(m) => f.push((String::from_str(k), m.to_json())),
        None => {},
    }
    proof {
        lemma_jv_fields(f@);
        lemma_jv_fields(before);
        assert(jv_fields(f@) =~= jv_fields(before) + opt_field(k@, map_ikm(vikm(*v))));
    }
}

/// View of an optional string list.
pub open spec fn vsl(o: Option<Vec<String>>) -> Option<Seq<Seq<char>>> {
    match o {
        Some(v) => Some(v@.map_values(|s: String| s@)),
        None => None,
    }
}

/// An optional string list as an optional JSON array of strings.
pub open spec fn map_str_list(o: Option<Seq<Seq<char>>>) -> Option<JsonV> {
    match o {
        Some(items) => Some(JsonV::Arr(items.map_values(|s: Seq<char>| JsonV::Str(s)))),
        None => None,
    }
}

/// Append an optional string-list field, or nothing.
pub(crate) fn push_opt_str_list_field(
    f: &mut Vec<(String, JsonValue)>,
    k: &str,
    v: &Option<Vec<String>>,
)
    ensures
        jv_fields(final(f)@) == jv_fields(old(f)@) + opt_field(k@, map_str_list(vsl(*v))),
{
    let ghost before = f@;
    match v {
        Some(items) => {
            let mut out: Vec<JsonValue> = Vec::new();
            let mut i: usize = 0;
            while i < items.len()
                invariant
                    i <= items@.len(),
                    out@.len() == i,
                    forall|j: int| 0 <= j < i ==> jv(out@[j]) == JsonV::Str(items@[j]@),
                decreases items@.len() - i,
            {
                out.push(JsonValue::Str(items[i].clone()));
                i = i + 1;
            }
            proof {
                lemma_jv_items(out@);
                assert(jv_items(out@) =~= items@.map_values(|s: String| s@).map_values(
                    |s: Seq<char>| JsonV::Str(s),
                ));
            }
            f.push((String::from_str(k), JsonValue::Arr(out)));
        },
        None => {},
    }
    proof {
        lemma_jv_fields(f@);
        lemma_jv_fields(before);
        assert(jv_fields(f@) =~= jv_fields(before) + opt_field(k@, map_str_list(vsl(*v))));
    }
}

/// The file field of a call, if the call carries one.
pub open spec fn vff(name: Seq<char>, o: Option<FileRef>) -> Option<(Seq<char>, FileRefV)> {
    match o {
        Some(fr) => Some((name, fr@)),
        None => None,
    }
}

/// A test of the auth token: returns the bot's own user record.
pub struct GetMe {
}

impl GetMe {
    /// The descriptor of this call: exactly the present parameters, the
    /// method name, and the declared result shape.
    pub fn descriptor(self) -> (d: CallDescriptor)
        ensures
            d@.method == "getMe"@,
            d@.expect == ResultShape::User,
            d@.params == Seq::<(Seq<char>, JsonV)>::empty(),
            d@.file_field == None::<(Seq<char>, FileRefV)>,
    {
        let mut f: Vec<(String, JsonValue)> = Vec::new();
        proof {
            assert(jv_fields(f@) =~= Seq::<(Seq<char>, JsonV)>::empty());
        }
        proof {
            assert(jv_fields(f@) =~= Seq::<(Seq<char>, JsonV)>::empty());
        }
        let file_field = None;
        CallDescriptor {
            method: String::from_str("getMe"),
            params: f,
            file_field,
            expect: ResultShape::User,
        }
    }
}

/// The long-poll call: updates from `offset` on, held up to `timeout` seconds.
pub struct GetUpdates {
    pub offset: Option<i64>,
    pub limit: Option<i64>,
    pub timeout: Option<i64>,
    pub allowed_updates: Option<Vec<String>>,
}

impl GetUpdates {
    /// The descriptor of this call: exactly the present parameters, the
    /// method name, and the declared result shape.
    pub fn descriptor(self) -> (d: CallDescriptor)
        ensures
            d@.method == "getUpdates"@,
            d@.expect == ResultShape::Updates,
            d@.params == opt_field("offset"@, map_int(self.offset)) + opt_field("limit"@, map_int(self.limit)) + opt_field("timeout"@, map_int(self.timeout)) + opt_field("allowed_updates"@, map_str_list(vsl(self.allowed_updates))),
            d@.file_field == None::<(Seq<char>, FileRefV)>,
    {
        let mut f: Vec<(String, JsonValue)> = Vec::new();
        proof {
            assert(jv_fields(f@) =~= Seq::<(Seq<char>, JsonV)>::empty());
        }
        push_opt_int_field(&mut f, "offset", &self.offset);
        push_opt_int_field(&mut f, "limit", &self.limit);
        push_opt_int_field(&mut f, "timeout", &self.timeout);
        push_opt_str_list_field(&mut f, "allowed_updates", &self.allowed_updates);
        proof {
            assert(jv_fields(f@) =~= opt_field("offset"@, map_int(self.offset)) + opt_field("limit"@, map_int(self.limit)) + opt_field("timeout"@, map_int(self.timeout)) + opt_field("allowed_updates"@, map_str_list(vsl(self.allowed_updates))));
        }
        let file_field = None;
        CallDescriptor {
            method: String::from_str("getUpdates"),
            params: f,
            file_field,
            expect: ResultShape::Updates,
        }
    }
}

/// Send a text message.
pub struct Message {
    pub chat_id: i64,
    pub text: String,
    pub parse_mode: Option<String>,
    pub disable_web_page_preview: Option<bool>,
    pub disable_notificaton: Option<bool>,
    pub reply_to_message_id: Option<i64>,
    pub reply_markup: Option<ReplyMarkup>,
}

impl Message {
    /// The descriptor of this call: exactly the present parameters, the
    /// method name, and the declared result shape.
    pub fn descriptor(self) -> (d: CallDescriptor)
        ensures
            d@.method == "sendMessage"@,
            d@.expect == ResultShape::Message,
            d@.params == field("chat_id"@, JsonV::Int(self.chat_id)) + field("text"@, JsonV::Str(self.text@)) + opt_field("parse_mode"@, map_str(vos(self.parse_mode))) + opt_field("disable_web_page_preview"@, map_bool(self.disable_web_page_preview)) + opt_field("disable_notificaton"@, map_bool(self.disable_notificaton)) + opt_field("reply_to_message_id"@, map_int(self.reply_to_message_id)) + opt_field("reply_markup"@, map_markup(vrm(self.reply_markup))),
            d@.file_field == None::<(Seq<char>, FileRefV)>,
    {
        let mut f: Vec<(String, JsonValue)> = Vec::new();
        proof {
            assert(jv_fields(f@) =~= Seq::<(Seq<char>, JsonV)>::empty());
        }
        push_int_field(&mut f, "chat_id", self.chat_id);
        push_str_field(&mut f, "text", &self.text);
        push_opt_str_field(&mut f, "parse_mode", &self.parse_mode);
        push_opt_bool_field(&mut f, "disable_web_page_preview", &self.disable_web_page_preview);
        push_opt_bool_field(&mut f, "disable_notificaton", &self.disable_notificaton);
        push_opt_int_field(&mut f, "reply_to_message_id", &self.reply_to_message_id);
        push_opt_markup_field(&mut f, "reply_markup", &self.reply_markup);
        proof {
            assert(jv_fields(f@) =~= field("chat_id"@, JsonV::Int(self.chat_id)) + field("text"@, JsonV::Str(self.text@)) + opt_field("parse_mode"@, map_str(vos(self.parse_mode))) + opt_field("disable_web_page_preview"@, map_bool(self.disable_web_page_preview)) + opt_field("disable_notificaton"@, map_bool(self.disable_notificaton)) + opt_field("reply_to_message_id"@, map_int(self.reply_to_message_id)) + opt_field("reply_markup"@, map_markup(vrm(self.reply_markup))));
        }
        let file_field = None;
        CallDescriptor {
            method: String::from_str("sendMessage"),
            params: f,
            file_field,
            expect: ResultShape::Message,
        }
    }
}

/// Send a photo.
pub struct SendPhoto {
    pub chat_id: i64,
    pub caption: Option<String>,
    pub disable_notification: Option<bool>,
    pub reply_to_message_id: Option<i64>,
    pub reply_markup: Option<ReplyMarkup>,
    pub photo: Option<FileRef>,
}

impl SendPhoto {
    /// The descriptor of this call: exactly the present parameters, the
    /// method name, and the declared result shape.
    pub fn descriptor(self) -> (d: CallDescriptor)
        ensures
            d@.method == "sendPhoto"@,
            d@.expect == ResultShape::Message,
            d@.params == field("chat_id"@, JsonV::Int(self.chat_id)) + opt_field("caption"@, map_str(vos(self.caption))) + opt_field("disable_notification"@, map_bool(self.disable_notification)) + opt_field("reply_to_message_id"@, map_int(self.reply_to_message_id)) + opt_field("reply_markup"@, map_markup(vrm(self.reply_markup))),
            d@.file_field == vff("photo"@, self.photo),
    {
        let mut f: Vec<(String, JsonValue)> = Vec::new();
        proof {
            assert(jv_fields(f@) =~= Seq::<(Seq<char>, JsonV)>::empty());
        }
        push_int_field(&mut f, "chat_id", self.chat_id);
        push_opt_str_field(&mut f, "caption", &self.caption);
        push_opt_bool_field(&mut f, "disable_notification", &self.disable_notification);
        push_opt_int_field(&mut f, "reply_to_message_id", &self.reply_to_message_id);
        push_opt_markup_field(&mut f, "reply_markup", &self.reply_markup);
        proof {
            assert(jv_fields(f@) =~= field("chat_id"@, JsonV::Int(self.chat_id)) + opt_field("caption"@, map_str(vos(self.caption))) + opt_field("disable_notification"@, map_bool(self.disable_notification)) + opt_field("reply_to_message_id"@, map_int(self.reply_to_message_id)) + opt_field("reply_markup"@, map_markup(vrm(self.reply_markup))));
        }
        let file_field = match self.photo {
            Some(fr) => Some((String::from_str("photo"), fr)),
            None => None,
        };
        CallDescriptor {
            method: String::from_str("sendPhoto"),
            params: f,
            file_field,
            expect: ResultShape::Message,
        }
    }
}

/// Send an audio file shown in the music player.
pub struct SendAudio {
    pub chat_id: i64,
    pub caption: Option<String>,
    pub duration: Option<i64>,
    pub performer: Option<String>,
    pub title: Option<String>,
    pub disable_notification: Option<bool>,
    pub reply_to_message_id: Option<i64>,
    pub reply_markup: Option<ReplyMarkup>,
    pub audio: Option<FileRef>,
}

impl SendAudio {
    /// The descriptor of this call: exactly the present parameters, the
    /// method name, and the declared result shape.
    pub fn descriptor(self) -> (d: CallDescriptor)
        ensures
            d@.method == "sendAudio"@,
            d@.expect == ResultShape::Message,
            d@.params == field("chat_id"@, JsonV::Int(self.chat_id)) + opt_field("caption"@, map_str(vos(self.caption))) + opt_field("duration"@, map_int(self.duration)) + opt_field("performer"@, map_str(vos(self.performer))) + opt_field("title"@, map_str(vos(self.title))) + opt_field("disable_notification"@, map_bool(self.disable_notification)) + opt_field("reply_to_message_id"@, map_int(self.reply_to_message_id)) + opt_field("reply_markup"@, map_markup(vrm(self.reply_markup))),
            d@.file_field == vff("audio"@, self.audio),
    {
        let mut f: Vec<(String, JsonValue)> = Vec::new();
        proof {
            assert(jv_fields(f@) =~= Seq::<(Seq<char>, JsonV)>::empty());
        }
        push_int_field(&mut f, "chat_id", self.chat_id);
        push_opt_str_field(&mut f, "caption", &self.caption);
        push_opt_int_field(&mut f, "duration", &self.duration);
        push_opt_str_field(&mut f, "performer", &self.performer);
        push_opt_str_field(&mut f, "title", &self.title);
        push_opt_bool_field(&mut f, "disable_notification", &self.disable_notification);
        push_opt_int_field(&mut f, "reply_to_message_id", &self.reply_to_message_id);
        push_opt_markup_field(&mut f, "reply_markup", &self.reply_markup);
        proof {
            assert(jv_fields(f@) =~= field("chat_id"@, JsonV::Int(self.chat_id)) + opt_field("caption"@, map_str(vos(self.caption))) + opt_field("duration"@, map_int(self.duration)) + opt_field("performer"@, map_str(vos(self.performer))) + opt_field("title"@, map_str(vos(self.title))) + opt_field("disable_notification"@, map_bool(self.disable_notification)) + opt_field("reply_to_message_id"@, map_int(self.reply_to_message_id)) + opt_field("reply_markup"@, map_markup(vrm(self.reply_markup))));
        }
        let file_field = match self.audio {
            Some(fr) => Some((String::from_str("audio"), fr)),
            None => None,
        };
        CallDescriptor {
            method: String::from_str("sendAudio"),
            params: f,
            file_field,
            expect: ResultShape::Message,
        }
    }
}

/// Send a general file.
pub struct SendDocument {
    pub chat_id: i64,
    pub caption: Option<String>,
    pub disable_notification: Option<bool>,
    pub reply_to_message_id: Option<i64>,
    pub reply_markup: Option<ReplyMarkup>,
    pub document: Option<FileRef>,
}

impl SendDocument {
    /// The descriptor of this call: exactly the present parameters, the
    /// method name, and the declared result shape.
    pub fn descriptor(self) -> (d: CallDescriptor)
        ensures
            d@.method == "sendDocument"@,
            d@.expect == ResultShape::Message,
            d@.params == field("chat_id"@, JsonV::Int(self.chat_id)) + opt_field("caption"@, map_str(vos(self.caption))) + opt_field("disable_notification"@, map_bool(self.disable_notification)) + opt_field("reply_to_message_id"@, map_int(self.reply_to_message_id)) + opt_field("reply_markup"@, map_markup(vrm(self.reply_markup))),
            d@.file_field == vff("document"@, self.document),
    {
        let mut f: Vec<(String, JsonValue)> = Vec::new();
        proof {
            assert(jv_fields(f@) =~= Seq::<(Seq<char>, JsonV)>::empty());
        }
        push_int_field(&mut f, "chat_id", self.chat_id);
        push_opt_str_field(&mut f, "caption", &self.caption);
        push_opt_bool_field(&mut f, "disable_notification", &self.disable_notification);
        push_opt_int_field(&mut f, "reply_to_message_id", &self.reply_to_message_id);
        push_opt_markup_field(&mut f, "reply_markup", &self.reply_markup);
        proof {
            assert(jv_fields(f@) =~= field("chat_id"@, JsonV::Int(self.chat_id)) + opt_field("caption"@, map_str(vos(self.caption))) + opt_field("disable_notification"@, map_bool(self.disable_notification)) + opt_field("reply_to_message_id"@, map_int(self.reply_to_message_id)) + opt_field("reply_markup"@, map_markup(vrm(self.reply_markup))));
        }
        let file_field = match self.document {
            Some(fr) => Some((String::from_str("document"), fr)),
            None => None,
        };
        CallDescriptor {
            method: String::from_str("sendDocument"),
            params: f,
            file_field,
            expect: ResultShape::Message,
        }
    }
}

/// Send a sticker.
pub struct SendSticker {
    pub chat_id: i64,
    pub disable_notification: Option<bool>,
    pub reply_to_message_id: Option<i64>,
    pub reply_markup: Option<ReplyMarkup>,
    pub sticker: Option<FileRef>,
}

impl SendSticker {
    /// The descriptor of this call: exactly the present parameters, the
    /// method name, and the declared result shape.
    pub fn descriptor(self) -> (d: CallDescriptor)
        ensures
            d@.method == "sendSticker"@,
            d@.expect == ResultShape::Message,
            d@.params == field("chat_id"@, JsonV::Int(self.chat_id)) + opt_field("disable_notification"@, map_bool(self.disable_notification)) + opt_field("reply_to_message_id"@, map_int(self.reply_to_message_id)) + opt_field("reply_markup"@, map_markup(vrm(self.reply_markup))),
            d@.file_field == vff("sticker"@, self.sticker),
    {
        let mut f: Vec<(String, JsonValue)> = Vec::new();
        proof {
            assert(jv_fields(f@) =~= Seq::<(Seq<char>, JsonV)>::empty());
        }
        push_int_field(&mut f, "chat_id", self.chat_id);
        push_opt_bool_field(&mut f, "disable_notification", &self.disable_notification);
        push_opt_int_field(&mut f, "reply_to_message_id", &self.reply_to_message_id);
        push_opt_markup_field(&mut f, "reply_markup", &self.reply_markup);
        proof {
            assert(jv_fields(f@) =~= field("chat_id"@, JsonV::Int(self.chat_id)) + opt_field("disable_notification"@, map_bool(self.disable_notification)) + opt_field("reply_to_message_id"@, map_int(self.reply_to_message_id)) + opt_field("reply_markup"@, map_markup(vrm(self.reply_markup))));
        }
        let file_field = match self.sticker {
            Some(fr) => Some((String::from_str("sticker"), fr)),
            None => None,
        };
        CallDescriptor {
            method: String::from_str("sendSticker"),
            params: f,
            file_field,
            expect: ResultShape::Message,
        }
    }
}

/// Send a video.
pub struct SendVideo {
    pub chat_id: i64,
    pub duration: Option<i64>,
    pub width: Option<i64>,
    pub height: Option<i64>,
    pub caption: Option<String>,
    pub disable_notification: Option<bool>,
    pub reply_to_message_id: Option<i64>,
    pub reply_markup: Option<ReplyMarkup>,
    pub video: Option<FileRef>,
}

impl SendVideo {
    /// The descriptor of this call: exactly the present parameters, the
    /// method name, and the declared result shape.
    pub fn descriptor(self) -> (d: CallDescriptor)
        ensures
            d@.method == "sendVideo"@,
            d@.expect == ResultShape::Message,
            d@.params == field("chat_id"@, JsonV::Int(self.chat_id)) + opt_field("duration"@, map_int(self.duration)) + opt_field("width"@, map_int(self.width)) + opt_field("height"@, map_int(self.height)) + opt_field("caption"@, map_str(vos(self.caption))) + opt_field("disable_notification"@, map_bool(self.disable_notification)) + opt_field("reply_to_message_id"@, map_int(self.reply_to_message_id)) + opt_field("reply_markup"@, map_markup(vrm(self.reply_markup))),
            d@.file_field == vff("video"@, self.video),
    {
        let mut f: Vec<(String, JsonValue)> = Vec::new();
        proof {
            assert(jv_fields(f@) =~= Seq::<(Seq<char>, JsonV)>::empty());
        }
        push_int_field(&mut f, "chat_id", self.chat_id);
        push_opt_int_field(&mut f, "duration", &self.duration);
        push_opt_int_field(&mut f, "width", &self.width);
        push_opt_int_field(&mut f, "height", &self.height);
        push_opt_str_field(&mut f, "caption", &self.caption);
        push_opt_bool_field(&mut f, "disable_notification", &self.disable_notification);
        push_opt_int_field(&mut f, "reply_to_message_id", &self.reply_to_message_id);
        push_opt_markup_field(&mut f, "reply_markup", &self.reply_markup);
        proof {
            assert(jv_fields(f@) =~= field("chat_id"@, JsonV::Int(self.chat_id)) + opt_field("duration"@, map_int(self.duration)) + opt_field("width"@, map_int(self.width)) + opt_field("height"@, map_int(self.height)) + opt_field("caption"@, map_str(vos(self.caption))) + opt_field("disable_notification"@, map_bool(self.disable_notification)) + opt_field("reply_to_message_id"@, map_int(self.reply_to_message_id)) + opt_field("reply_markup"@, map_markup(vrm(self.reply_markup))));
        }
        let file_field = match self.video {
            Some(fr) => Some((String::from_str("video"), fr)),
            None => None,
        };
        CallDescriptor {
            method: String::from_str("sendVideo"),
            params: f,
            file_field,
            expect: ResultShape::Message,
        }
    }
}

/// Send a voice note.
pub struct SendVoice {
    pub chat_id: i64,
    pub caption: Option<String>,
    pub duration: Option<i64>,
    pub disable_notification: Option<bool>,
    pub reply_to_message_id: Option<i64>,
    pub reply_markup: Option<ReplyMarkup>,
    pub voice: Option<FileRef>,
}

impl SendVoice {
    /// The descriptor of this call: exactly the present parameters, the
    /// method name, and the declared result shape.
    pub fn descriptor(self) -> (d: CallDescriptor)
        ensures
            d@.method == "sendVoice"@,
            d@.expect == ResultShape::Message,
            d@.params == field("chat_id"@, JsonV::Int(self.chat_id)) + opt_field("caption"@, map_str(vos(self.caption))) + opt_field("duration"@, map_int(self.duration)) + opt_field("disable_notification"@, map_bool(self.disable_notification)) + opt_field("reply_to_message_id"@, map_int(self.reply_to_message_id)) + opt_field("reply_markup"@, map_markup(vrm(self.reply_markup))),
            d@.file_field == vff("voice"@, self.voice),
    {
        let mut f: Vec<(String, JsonValue)> = Vec::new();
        proof {
            assert(jv_fields(f@) =~= Seq::<(Seq<char>, JsonV)>::empty());
        }
        push_int_field(&mut f, "chat_id", self.chat_id);
        push_opt_str_field(&mut f, "caption", &self.caption);
        push_opt_int_field(&mut f, "duration", &self.duration);
        push_opt_bool_field(&mut f, "disable_notification", &self.disable_notification);
        push_opt_int_field(&mut f, "reply_to_message_id", &self.reply_to_message_id);
        push_opt_markup_field(&mut f, "reply_markup", &self.reply_markup);
        proof {
            assert(jv_fields(f@) =~= field("chat_id"@, JsonV::Int(self.chat_id)) + opt_field("caption"@, map_str(vos(self.caption))) + opt_field("duration"@, map_int(self.duration)) + opt_field("disable_notification"@, map_bool(self.disable_notification)) + opt_field("reply_to_message_id"@, map_int(self.reply_to_message_id)) + opt_field("reply_markup"@, map_markup(vrm(self.reply_markup))));
        }
        let file_field = match self.voice {
            Some(fr) => Some((String::from_str("voice"), fr)),
            None => None,
        };
        CallDescriptor {
            method: String::from_str("sendVoice"),
            params: f,
            file_field,
            expect: ResultShape::Message,
        }
    }
}

/// Send a phone contact.
pub struct SendContact {
    pub chat_id: i64,
    pub phone_number: String,
    pub first_name: String,
    pub last_name: Option<String>,
    pub disable_notification: Option<bool>,
    pub reply_to_message_id: Option<i64>,
    pub reply_markup: Option<ReplyMarkup>,
}

impl SendContact {
    /// The descriptor of this call: exactly the present parameters, the
    /// method name, and the declared result shape.
    pub fn descriptor(self) -> (d: CallDescriptor)
        ensures
            d@.method == "sendContact"@,
            d@.expect == ResultShape::Message,
            d@.params == field("chat_id"@, JsonV::Int(self.chat_id)) + field("phone_number"@, JsonV::Str(self.phone_number@)) + field("first_name"@, JsonV::Str(self.first_name@)) + opt_field("last_name"@, map_str(vos(self.last_name))) + opt_field("disable_notification"@, map_bool(self.disable_notification)) + opt_field("reply_to_message_id"@, map_int(self.reply_to_message_id)) + opt_field("reply_markup"@, map_markup(vrm(self.reply_markup))),
            d@.file_field == None::<(Seq<char>, FileRefV)>,
    {
        let mut f: Vec<(String, JsonValue)> = Vec::new();
        proof {
            assert(jv_fields(f@) =~= Seq::<(Seq<char>, JsonV)>::empty());
        }
        push_int_field(&mut f, "chat_id", self.chat_id);
        push_str_field(&mut f, "phone_number", &self.phone_number);
        push_str_field(&mut f, "first_name", &self.first_name);
        push_opt_str_field(&mut f, "last_name", &self.last_name);
        push_opt_bool_field(&mut f, "disable_notification", &self.disable_notification);
        push_opt_int_field(&mut f, "reply_to_message_id", &self.reply_to_message_id);
        push_opt_markup_field(&mut f, "reply_markup", &self.reply_markup);
        proof {
            assert(jv_fields(f@) =~= field("chat_id"@, JsonV::Int(self.chat_id)) + field("phone_number"@, JsonV::Str(self.phone_number@)) + field("first_name"@, JsonV::Str(self.first_name@)) + opt_field("last_name"@, map_str(vos(self.last_name))) + opt_field("disable_notification"@, map_bool(self.disable_notification)) + opt_field("reply_to_message_id"@, map_int(self.reply_to_message_id)) + opt_field("reply_markup"@, map_markup(vrm(self.reply_markup))));
        }
        let file_field = None;
        CallDescriptor {
            method: String::from_str("sendContact"),
            params: f,
            file_field,
            expect: ResultShape::Message,
        }
    }
}

/// Show a chat action for a few seconds.
pub struct SendAction {
    pub chat_id: i64,
    pub action: String,
}

impl SendAction {
    /// The descriptor of this call: exactly the present parameters, the
    /// method name, and the declared result shape.
    pub fn descriptor(self) -> (d: CallDescriptor)
        ensures
            d@.method == "sendChatAction"@,
            d@.expect == ResultShape::Bool,
            d@.params == field("chat_id"@, JsonV::Int(self.chat_id)) + field("action"@, JsonV::Str(self.action@)),
            d@.file_field == None::<(Seq<char>, FileRefV)>,
    {
        let mut f: Vec<(String, JsonValue)> = Vec::new();
        proof {
            assert(jv_fields(f@) =~= Seq::<(Seq<char>, JsonV)>::empty());
        }
        push_int_field(&mut f, "chat_id", self.chat_id);
        push_str_field(&mut f, "action", &self.action);
        proof {
            assert(jv_fields(f@) =~= field("chat_id"@, JsonV::Int(self.chat_id)) + field("action"@, JsonV::Str(self.action@)));
        }
        let file_field = None;
        CallDescriptor {
            method: String::from_str("sendChatAction"),
            params: f,
            file_field,
            expect: ResultShape::Bool,
        }
    }
}

/// Send a game.
pub struct SendGame {
    pub chat_id: i64,
    pub game_short_name: String,
    pub disable_notification: Option<bool>,
    pub reply_to_message_id: Option<i64>,
    pub reply_markup: Option<InlineKeyboardMarkup>,
}

impl SendGame {
    /// The descriptor of this call: exactly the present parameters, the
    /// method name, and the declared result shape.
    pub fn descriptor(self) -> (d: CallDescriptor)
        ensures
            d@.method == "sendGame"@,
            d@.expect == ResultShape::Message,
            d@.params == field("chat_id"@, JsonV::Int(self.chat_id)) + field("game_short_name"@, JsonV::Str(self.game_short_name@)) + opt_field("disable_notification"@, map_bool(self.disable_notification)) + opt_field("reply_to_message_id"@, map_int(self.reply_to_message_id)) + opt_field("reply_markup"@, map_ikm(vikm(self.reply_markup))),
            d@.file_field == None::<(Seq<char>, FileRefV)>,
    {
        let mut f: Vec<(String, JsonValue)> = Vec::new();
        proof {
            assert(jv_fields(f@) =~= Seq::<(Seq<char>, JsonV)>::empty());
        }
        push_int_field(&mut f, "chat_id", self.chat_id);
        push_str_field(&mut f, "game_short_name", &self.game_short_name);
        push_opt_bool_field(&mut f, "disable_notification", &self.disable_notification);
        push_opt_int_field(&mut f, "reply_to_message_id", &self.reply_to_message_id);
        push_opt_ikm_field(&mut f, "reply_markup", &self.reply_markup);
        proof {
            assert(jv_fields(f@) =~= field("chat_id"@, JsonV::Int(self.chat_id)) + field("game_short_name"@, JsonV::Str(self.game_short_name@)) + opt_field("disable_notification"@, map_bool(self.disable_notification)) + opt_field("reply_to_message_id"@, map_int(self.reply_to_message_id)) + opt_field("reply_markup"@, map_ikm(vikm(self.reply_markup))));
        }
        let file_field = None;
        CallDescriptor {
            method: String::from_str("sendGame"),
            params: f,
            file_field,
            expect: ResultShape::Message,
        }
    }
}

/// Set a user's game score.
pub struct SetGameScore {
    pub user_id: i64,
    pub score: i64,
    pub force: Option<bool>,
    pub disable_edit_message: Option<bool>,
    pub chat_id: Option<i64>,
    pub message_id: Option<i64>,
    pub inline_message_id: Option<String>,
}

impl SetGameScore {
    /// The descriptor of this call: exactly the present parameters, the
    /// method name, and the declared result shape.
    pub fn descriptor(self) -> (d: CallDescriptor)
        ensures
            d@.method == "setGameScore"@,
            d@.expect == ResultShape::Message,
            d@.params == field("user_id"@, JsonV::Int(self.user_id)) + field("score"@, JsonV::Int(self.score)) + opt_field("force"@, map_bool(self.force)) + opt_field("disable_edit_message"@, map_bool(self.disable_edit_message)) + opt_field("chat_id"@, map_int(self.chat_id)) + opt_field("message_id"@, map_int(self.message_id)) + opt_field("inline_message_id"@, map_str(vos(self.inline_message_id))),
            d@.file_field == None::<(Seq<char>, FileRefV)>,
    {
        let mut f: Vec<(String, JsonValue)> = Vec::new();
        proof {
            assert(jv_fields(f@) =~= Seq::<(Seq<char>, JsonV)>::empty());
        }
        push_int_field(&mut f, "user_id", self.user_id);
        push_int_field(&mut f, "score", self.score);
        push_opt_bool_field(&mut f, "force", &self.force);
        push_opt_bool_field(&mut f, "disable_edit_message", &self.disable_edit_message);
        push_opt_int_field(&mut f, "chat_id", &self.chat_id);
        push_opt_int_field(&mut f, "message_id", &self.message_id);
        push_opt_str_field(&mut f, "inline_message_id", &self.inline_message_id);
        proof {
            assert(jv_fields(f@) =~= field("user_id"@, JsonV::Int(self.user_id)) + field("score"@, JsonV::Int(self.score)) + opt_field("force"@, map_bool(self.force)) + opt_field("disable_edit_message"@, map_bool(self.disable_edit_message)) + opt_field("chat_id"@, map_int(self.chat_id)) + opt_field("message_id"@, map_int(self.message_id)) + opt_field("inline_message_id"@, map_str(vos(self.inline_message_id))));
        }
        let file_field = None;
        CallDescriptor {
            method: String::from_str("setGameScore"),
            params: f,
            file_field,
            expect: ResultShape::Message,
        }
    }
}

/// High-score table of a game, as raw JSON.
pub struct GetGameHighScores {
    pub user_id: i64,
    pub chat_id: Option<i64>,
    pub message_id: Option<i64>,
    pub inline_message_id: Option<String>,
}

impl GetGameHighScores {
    /// The descriptor of this call: exactly the present parameters, the
    /// method name, and the declared result shape.
    pub fn descriptor(self) -> (d: CallDescriptor)
        ensures
            d@.method == "getGameHighScores"@,
            d@.expect == ResultShape::Raw,
            d@.params == field("user_id"@, JsonV::Int(self.user_id)) + opt_field("chat_id"@, map_int(self.chat_id)) + opt_field("message_id"@, map_int(self.message_id)) + opt_field("inline_message_id"@, map_str(vos(self.inline_message_id))),
            d@.file_field == None::<(Seq<char>, FileRefV)>,
    {
        let mut f: Vec<(String, JsonValue)> = Vec::new();
        proof {
            assert(jv_fields(f@) =~= Seq::<(Seq<char>, JsonV)>::empty());
        }
        push_int_field(&mut f, "user_id", self.user_id);
        push_opt_int_field(&mut f, "chat_id", &self.chat_id);
        push_opt_int_field(&mut f, "message_id", &self.message_id);
        push_opt_str_field(&mut f, "inline_message_id", &self.inline_message_id);
        proof {
            assert(jv_fields(f@) =~= field("user_id"@, JsonV::Int(self.user_id)) + opt_field("chat_id"@, map_int(self.chat_id)) + opt_field("message_id"@, map_int(self.message_id)) + opt_field("inline_message_id"@, map_str(vos(self.inline_message_id))));
        }
        let file_field = None;
        CallDescriptor {
            method: String::from_str("getGameHighScores"),
            params: f,
            file_field,
            expect: ResultShape::Raw,
        }
    }
}

/// A user's profile pictures.
pub struct GetUserProfilePhotos {
    pub user_id: i64,
    pub offset: Option<i64>,
    pub limit: Option<i64>,
}

impl GetUserProfilePhotos {
    /// The descriptor of this call: exactly the present parameters, the
    /// method name, and the declared result shape.
    pub fn descriptor(self) -> (d: CallDescriptor)
        ensures
            d@.method == "getUserProfilePhotos"@,
            d@.expect == ResultShape::UserProfilePhotos,
            d@.params == field("user_id"@, JsonV::Int(self.user_id)) + opt_field("offset"@, map_int(self.offset)) + opt_field("limit"@, map_int(self.limit)),
            d@.file_field == None::<(Seq<char>, FileRefV)>,
    {
        let mut f: Vec<(String, JsonValue)> = Vec::new();
        proof {
            assert(jv_fields(f@) =~= Seq::<(Seq<char>, JsonV)>::empty());
        }
        push_int_field(&mut f, "user_id", self.user_id);
        push_opt_int_field(&mut f, "offset", &self.offset);
        push_opt_int_field(&mut f, "limit", &self.limit);
        proof {
            assert(jv_fields(f@) =~= field("user_id"@, JsonV::Int(self.user_id)) + opt_field("offset"@, map_int(self.offset)) + opt_field("limit"@, map_int(self.limit)));
        }
        let file_field = None;
        CallDescriptor {
            method: String::from_str("getUserProfilePhotos"),
            params: f,
            file_field,
            expect: ResultShape::UserProfilePhotos,
        }
    }
}

/// Basic info about a file, for downloading through the file endpoint.
pub struct GetFile {
    pub file_id: String,
}

impl GetFile {
    /// The descriptor of this call: exactly the present parameters, the
    /// method name, and the declared result shape.
    pub fn descriptor(self) -> (d: CallDescriptor)
        ensures
            d@.method == "getFile"@,
            d@.expect == ResultShape::File,
            d@.params == field("file_id"@, JsonV::Str(self.file_id@)),
            d@.file_field == None::<(Seq<char>, FileRefV)>,
    {
        let mut f: Vec<(String, JsonValue)> = Vec::new();
        proof {
            assert(jv_fields(f@) =~= Seq::<(Seq<char>, JsonV)>::empty());
        }
        push_str_field(&mut f, "file_id", &self.file_id);
        proof {
            assert(jv_fields(f@) =~= field("file_id"@, JsonV::Str(self.file_id@)));
        }
        let file_field = None;
        CallDescriptor {
            method: String::from_str("getFile"),
            params: f,
            file_field,
            expect: ResultShape::File,
        }
    }
}

/// Kick a user from a group or supergroup.
pub struct KickChatMember {
    pub chat_id: i64,
    pub user_id: i64,
}

impl KickChatMember {
    /// The descriptor of this call: exactly the present parameters, the
    /// method name, and the declared result shape.
    pub fn descriptor(self) -> (d: CallDescriptor)
        ensures
            d@.method == "kickChatMember"@,
            d@.expect == ResultShape::Bool,
            d@.params == field("chat_id"@, JsonV::Int(self.chat_id)) + field("user_id"@, JsonV::Int(self.user_id)),
            d@.file_field == None::<(Seq<char>, FileRefV)>,
    {
        let mut f: Vec<(String, JsonValue)> = Vec::new();
        proof {
            assert(jv_fields(f@) =~= Seq::<(Seq<char>, JsonV)>::empty());
        }
        push_int_field(&mut f, "chat_id", self.chat_id);
        push_int_field(&mut f, "user_id", self.user_id);
        proof {
            assert(jv_fields(f@) =~= field("chat_id"@, JsonV::Int(self.chat_id)) + field("user_id"@, JsonV::Int(self.user_id)));
        }
        let file_field = None;
        CallDescriptor {
            method: String::from_str("kickChatMember"),
            params: f,
            file_field,
            expect: ResultShape::Bool,
        }
    }
}

/// Leave a group, supergroup or channel.
pub struct LeaveChat {
    pub chat_id: i64,
}

impl LeaveChat {
    /// The descriptor of this call: exactly the present parameters, the
    /// method name, and the declared result shape.
    pub fn descriptor(self) -> (d: CallDescriptor)
        ensures
            d@.method == "leaveChat"@,
            d@.expect == ResultShape::Bool,
            d@.params == field("chat_id"@, JsonV::Int(self.chat_id)),
            d@.file_field == None::<(Seq<char>, FileRefV)>,
    {
        let mut f: Vec<(String, JsonValue)> = Vec::new();
        proof {
            assert(jv_fields(f@) =~= Seq::<(Seq<char>, JsonV)>::empty());
        }
        push_int_field(&mut f, "chat_id", self.chat_id);
        proof {
            assert(jv_fields(f@) =~= field("chat_id"@, JsonV::Int(self.chat_id)));
        }
        let file_field = None;
        CallDescriptor {
            method: String::from_str("leaveChat"),
            params: f,
            file_field,
            expect: ResultShape::Bool,
        }
    }
}

/// Unban a previously kicked user.
pub struct UnbanChatMember {
    pub chat_id: i64,
    pub user_id: i64,
}

impl UnbanChatMember {
    /// The descriptor of this call: exactly the present parameters, the
    /// method name, and the declared result shape.
    pub fn descriptor(self) -> (d: CallDescriptor)
        ensures
            d@.method == "unbanChatMember"@,
            d@.expect == ResultShape::Bool,
            d@.params == field("chat_id"@, JsonV::Int(self.chat_id)) + field("user_id"@, JsonV::Int(self.user_id)),
            d@.file_field == None::<(Seq<char>, FileRefV)>,
    {
        let mut f: Vec<(String, JsonValue)> = Vec::new();
        proof {
            assert(jv_fields(f@) =~= Seq::<(Seq<char>, JsonV)>::empty());
        }
        push_int_field(&mut f, "chat_id", self.chat_id);
        push_int_field(&mut f, "user_id", self.user_id);
        proof {
            assert(jv_fields(f@) =~= field("chat_id"@, JsonV::Int(self.chat_id)) + field("user_id"@, JsonV::Int(self.user_id)));
        }
        let file_field = None;
        CallDescriptor {
            method: String::from_str("unbanChatMember"),
            params: f,
            file_field,
            expect: ResultShape::Bool,
        }
    }
}

/// Up-to-date information about one chat.
pub struct GetChat {
    pub chat_id: i64,
}

impl GetChat {
    /// The descriptor of this call: exactly the present parameters, the
    /// method name, and the declared result shape.
    pub fn descriptor(self) -> (d: CallDescriptor)
        ensures
            d@.method == "getChat"@,
            d@.expect == ResultShape::Chat,
            d@.params == field("chat_id"@, JsonV::Int(self.chat_id)),
            d@.file_field == None::<(Seq<char>, FileRefV)>,
    {
        let mut f: Vec<(String, JsonValue)> = Vec::new();
        proof {
            assert(jv_fields(f@) =~= Seq::<(Seq<char>, JsonV)>::empty());
        }
        push_int_field(&mut f, "chat_id", self.chat_id);
        proof {
            assert(jv_fields(f@) =~= field("chat_id"@, JsonV::Int(self.chat_id)));
        }
        let file_field = None;
        CallDescriptor {
            method: String::from_str("getChat"),
            params: f,
            file_field,
            expect: ResultShape::Chat,
        }
    }
}

/// The administrators of a chat.
pub struct GetChatAdministrators {
    pub chat_id: i64,
}

impl GetChatAdministrators {
    /// The descriptor of this call: exactly the present parameters, the
    /// method name, and the declared result shape.
    pub fn descriptor(self) -> (d: CallDescriptor)
        ensures
            d@.method == "getChatAdministrators"@,
            d@.expect == ResultShape::ChatMembers,
            d@.params == field("chat_id"@, JsonV::Int(self.chat_id)),
            d@.file_field == None::<(Seq<char>, FileRefV)>,
    {
        let mut f: Vec<(String, JsonValue)> = Vec::new();
        proof {
            assert(jv_fields(f@) =~= Seq::<(Seq<char>, JsonV)>::empty());
        }
        push_int_field(&mut f, "chat_id", self.chat_id);
        proof {
            assert(jv_fields(f@) =~= field("chat_id"@, JsonV::Int(self.chat_id)));
        }
        let file_field = None;
        CallDescriptor {
            method: String::from_str("getChatAdministrators"),
            params: f,
            file_field,
            expect: ResultShape::ChatMembers,
        }
    }
}

/// The number of members in a chat.
pub struct GetChatMemberCounts {
    pub chat_id: i64,
}

impl GetChatMemberCounts {
    /// The descriptor of this call: exactly the present parameters, the
    /// method name, and the declared result shape.
    pub fn descriptor(self) -> (d: CallDescriptor)
        ensures
            d@.method == "getChatMembersCount"@,
            d@.expect == ResultShape::Int,
            d@.params == field("chat_id"@, JsonV::Int(self.chat_id)),
            d@.file_field == None::<(Seq<char>, FileRefV)>,
    {
        let mut f: Vec<(String, JsonValue)> = Vec::new();
        proof {
            assert(jv_fields(f@) =~= Seq::<(Seq<char>, JsonV)>::empty());
        }
        push_int_field(&mut f, "chat_id", self.chat_id);
        proof {
            assert(jv_fields(f@) =~= field("chat_id"@, JsonV::Int(self.chat_id)));
        }
        let file_field = None;
        CallDescriptor {
            method: String::from_str("getChatMembersCount"),
            params: f,
            file_field,
            expect: ResultShape::Int,
        }
    }
}

/// Information about one member of a chat.
pub struct GetChatMember {
    pub chat_id: i64,
    pub user_id: i64,
}

impl GetChatMember {
    /// The descriptor of this call: exactly the present parameters, the
    /// method name, and the declared result shape.
    pub fn descriptor(self) -> (d: CallDescriptor)
        ensures
            d@.method == "getChatMember"@,
            d@.expect == ResultShape::ChatMember,
            d@.params == field("chat_id"@, JsonV::Int(self.chat_id)) + field("user_id"@, JsonV::Int(self.user_id)),
            d@.file_field == None::<(Seq<char>, FileRefV)>,
    {
        let mut f: Vec<(String, JsonValue)> = Vec::new();
        proof {
            assert(jv_fields(f@) =~= Seq::<(Seq<char>, JsonV)>::empty());
        }
        push_int_field(&mut f, "chat_id", self.chat_id);
        push_int_field(&mut f, "user_id", self.user_id);
        proof {
            assert(jv_fields(f@) =~= field("chat_id"@, JsonV::Int(self.chat_id)) + field("user_id"@, JsonV::Int(self.user_id)));
        }
        let file_field = None;
        CallDescriptor {
            method: String::from_str("getChatMember"),
            params: f,
            file_field,
            expect: ResultShape::ChatMember,
        }
    }
}

/// Answer a callback query with a notification or alert.
pub struct AnswerCallbackQuery {
    pub callback_query_id: String,
    pub text: Option<String>,
    pub show_alert: Option<bool>,
    pub url: Option<String>,
    pub cache_time: Option<i64>,
}

impl AnswerCallbackQuery {
    /// The descriptor of this call: exactly the present parameters, the
    /// method name, and the declared result shape.
    pub fn descriptor(self) -> (d: CallDescriptor)
        ensures
            d@.method == "answerCallbackQuery"@,
            d@.expect == ResultShape::Bool,
            d@.params == field("callback_query_id"@, JsonV::Str(self.callback_query_id@)) + opt_field("text"@, map_str(vos(self.text))) + opt_field("show_alert"@, map_bool(self.show_alert)) + opt_field("url"@, map_str(vos(self.url))) + opt_field("cache_time"@, map_int(self.cache_time)),
            d@.file_field == None::<(Seq<char>, FileRefV)>,
    {
        let mut f: Vec<(String, JsonValue)> = Vec::new();
        proof {
            assert(jv_fields(f@) =~= Seq::<(Seq<char>, JsonV)>::empty());
        }
        push_str_field(&mut f, "callback_query_id", &self.callback_query_id);
        push_opt_str_field(&mut f, "text", &self.text);
        push_opt_bool_field(&mut f, "show_alert", &self.show_alert);
        push_opt_str_field(&mut f, "url", &self.url);
        push_opt_int_field(&mut f, "cache_time", &self.cache_time);
        proof {
            assert(jv_fields(f@) =~= field("callback_query_id"@, JsonV::Str(self.callback_query_id@)) + opt_field("text"@, map_str(vos(self.text))) + opt_field("show_alert"@, map_bool(self.show_alert)) + opt_field("url"@, map_str(vos(self.url))) + opt_field("cache_time"@, map_int(self.cache_time)));
        }
        let file_field = None;
        CallDescriptor {
            method: String::from_str("answerCallbackQuery"),
            params: f,
            file_field,
            expect: ResultShape::Bool,
        }
    }
}

/// Answer an inline query with prepared results.
pub struct AnswerInlineQuery {
    pub inline_query_id: String,
    pub results: Vec<JsonValue>,
    pub cache_time: Option<i64>,
    pub is_personal: Option<bool>,
    pub next_offset: Option<String>,
    pub switch_pm_text: Option<String>,
    pub switch_pm_parameter: Option<String>,
}

impl AnswerInlineQuery {
    /// The descriptor of this call: exactly the present parameters, the
    /// method name, and the declared result shape.
    pub fn descriptor(self) -> (d: CallDescriptor)
        ensures
            d@.method == "answerInlineQuery"@,
            d@.expect == ResultShape::Bool,
            d@.params == field("inline_query_id"@, JsonV::Str(self.inline_query_id@)) + field("results"@, JsonV::Arr(jv_items(self.results@))) + opt_field("cache_time"@, map_int(self.cache_time)) + opt_field("is_personal"@, map_bool(self.is_personal)) + opt_field("next_offset"@, map_str(vos(self.next_offset))) + opt_field("switch_pm_text"@, map_str(vos(self.switch_pm_text))) + opt_field("switch_pm_parameter"@, map_str(vos(self.switch_pm_parameter))),
            d@.file_field == None::<(Seq<char>, FileRefV)>,
    {
        let mut f: Vec<(String, JsonValue)> = Vec::new();
        proof {
            assert(jv_fields(f@) =~= Seq::<(Seq<char>, JsonV)>::empty());
        }
        push_str_field(&mut f, "inline_query_id", &self.inline_query_id);
        let ghost before = f@;
        f.push((String::from_str("results"), JsonValue::Arr(self.results)));
        proof {
            lemma_jv_fields(f@);
            lemma_jv_fields(before);
            assert(jv_fields(f@) =~= jv_fields(before) + field("results"@, JsonV::Arr(jv_items(self.results@))));
        }
        push_opt_int_field(&mut f, "cache_time", &self.cache_time);
        push_opt_bool_field(&mut f, "is_personal", &self.is_personal);
        push_opt_str_field(&mut f, "next_offset", &self.next_offset);
        push_opt_str_field(&mut f, "switch_pm_text", &self.switch_pm_text);
        push_opt_str_field(&mut f, "switch_pm_parameter", &self.switch_pm_parameter);
        proof {
            assert(jv_fields(f@) =~= field("inline_query_id"@, JsonV::Str(self.inline_query_id@)) + field("results"@, JsonV::Arr(jv_items(self.results@))) + opt_field("cache_time"@, map_int(self.cache_time)) + opt_field("is_personal"@, map_bool(self.is_personal)) + opt_field("next_offset"@, map_str(vos(self.next_offset))) + opt_field("switch_pm_text"@, map_str(vos(self.switch_pm_text))) + opt_field("switch_pm_parameter"@, map_str(vos(self.switch_pm_parameter))));
        }
        let file_field = None;
        CallDescriptor {
            method: String::from_str("answerInlineQuery"),
            params: f,
            file_field,
            expect: ResultShape::Bool,
        }
    }
}

/// Create a new sticker set owned by a user.
pub struct CreateNewStickerSet {
    pub user_id: i64,
    pub name: String,
    pub title: String,
    pub emojis: String,
    pub png_sticker: Option<FileRef>,
}

impl CreateNewStickerSet {
    /// The descriptor of this call: exactly the present parameters, the
    /// method name, and the declared result shape.
    pub fn descriptor(self) -> (d: CallDescriptor)
        ensures
            d@.method == "createNewStickerSet"@,
            d@.expect == ResultShape::Bool,
            d@.params == field("user_id"@, JsonV::Int(self.user_id)) + field("name"@, JsonV::Str(self.name@)) + field("title"@, JsonV::Str(self.title@)) + field("emojis"@, JsonV::Str(self.emojis@)),
            d@.file_field == vff("png_sticker"@, self.png_sticker),
    {
        let mut f: Vec<(String, JsonValue)> = Vec::new();
        proof {
            assert(jv_fields(f@) =~= Seq::<(Seq<char>, JsonV)>::empty());
        }
        push_int_field(&mut f, "user_id", self.user_id);
        push_str_field(&mut f, "name", &self.name);
        push_str_field(&mut f, "title", &self.title);
        push_str_field(&mut f, "emojis", &self.emojis);
        proof {
            assert(jv_fields(f@) =~= field("user_id"@, JsonV::Int(self.user_id)) + field("name"@, JsonV::Str(self.name@)) + field("title"@, JsonV::Str(self.title@)) + field("emojis"@, JsonV::Str(self.emojis@)));
        }
        let file_field = match self.png_sticker {
            Some(fr) => Some((String::from_str("png_sticker"), fr)),
            None => None,
        };
        CallDescriptor {
            method: String::from_str("createNewStickerSet"),
            params: f,
            file_field,
            expect: ResultShape::Bool,
        }
    }
}

/// Add a sticker to a set created by the bot.
pub struct AddStickerToSet {
    pub user_id: i64,
    pub name: String,
    pub emojis: String,
    pub png_sticker: Option<FileRef>,
}

impl AddStickerToSet {
    /// The descriptor of this call: exactly the present parameters, the
    /// method name, and the declared result shape.
    pub fn descriptor(self) -> (d: CallDescriptor)
        ensures
            d@.method == "addStickerToSet"@,
            d@.expect == ResultShape::Bool,
            d@.params == field("user_id"@, JsonV::Int(self.user_id)) + field("name"@, JsonV::Str(self.name@)) + field("emojis"@, JsonV::Str(self.emojis@)),
            d@.file_field == vff("png_sticker"@, self.png_sticker),
    {
        let mut f: Vec<(String, JsonValue)> = Vec::new();
        proof {
            assert(jv_fields(f@) =~= Seq::<(Seq<char>, JsonV)>::empty());
        }
        push_int_field(&mut f, "user_id", self.user_id);
        push_str_field(&mut f, "name", &self.name);
        push_str_field(&mut f, "emojis", &self.emojis);
        proof {
            assert(jv_fields(f@) =~= field("user_id"@, JsonV::Int(self.user_id)) + field("name"@, JsonV::Str(self.name@)) + field("emojis"@, JsonV::Str(self.emojis@)));
        }
        let file_field = match self.png_sticker {
            Some(fr) => Some((String::from_str("png_sticker"), fr)),
            None => None,
        };
        CallDescriptor {
            method: String::from_str("addStickerToSet"),
            params: f,
            file_field,
            expect: ResultShape::Bool,
        }
    }
}


} // verus!
