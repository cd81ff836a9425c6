use telebot::json::JsonValue;
use telebot::parse::parse_text;
use telebot::request::{build_body, FileRef, RequestBody, Part, ResultShape, CallDescriptor};
use telebot::client::{interpret_response, Answer, HttpOutcome};
use telebot::error::Error;
use telebot::functions::{Message, SendPhoto, GetUpdates, GetMe, SendAction, ParseMode, Action};
use telebot::objects::User;

fn no_file_message(text: &str) -> CallDescriptor {
    Message {
        chat_id: 7,
        text: String::from(text),
        parse_mode: None,
        disable_web_page_preview: None,
        disable_notificaton: None,
        reply_to_message_id: None,
        reply_markup: None,
    }
    .descriptor()
}

#[test]
fn json_body_holds_exactly_the_present_parameters() {
    let d = no_file_message("hi");
    match build_body(d) {
        RequestBody::Json(v) => {
            assert_eq!(v.to_text(), "{\"chat_id\":7,\"text\":\"hi\"}");
        },
        RequestBody::Multipart(_) => panic!("a call without a file must send JSON"),
    }
}

#[test]
fn absent_optional_fields_are_omitted_not_null() {
    let d = Message {
        chat_id: 1,
        text: String::from("x"),
        parse_mode: Some(String::from("HTML")),
        disable_web_page_preview: None,
        disable_notificaton: None,
        reply_to_message_id: Some(9),
        reply_markup: None,
    }
    .descriptor();
    match build_body(d) {
        RequestBody::Json(v) => {
            let text = v.to_text();
            assert_eq!(
                text,
                "{\"chat_id\":1,\"text\":\"x\",\"parse_mode\":\"HTML\",\"reply_to_message_id\":9}"
            );
            assert!(!text.contains("null"));
        },
        RequestBody::Multipart(_) => panic!("a call without a file must send JSON"),
    }
}

#[test]
fn local_file_builds_multipart_with_one_binary_part() {
    let d = SendPhoto {
        chat_id: 5,
        caption: Some(String::from("cat")),
        disable_notification: None,
        reply_to_message_id: None,
        reply_markup: None,
        photo: Some(FileRef::LocalPath(String::from("/tmp/cat.jpg"))),
    }
    .descriptor();
    match build_body(d) {
        RequestBody::Multipart(parts) => {
            let binaries: Vec<&Part> = parts
                .iter()
                .filter(|p| matches!(p, Part::Binary(_, _)))
                .collect();
            assert_eq!(binaries.len(), 1);
            match binaries[0] {
                Part::Binary(name, path) => {
                    assert_eq!(name, "photo");
                    assert_eq!(path, "/tmp/cat.jpg");
                },
                _ => unreachable!(),
            }
            assert_eq!(parts.len(), 3);
            match &parts[0] {
                Part::Text(name, value) => {
                    assert_eq!(name, "chat_id");
                    assert_eq!(value, "5");
                },
                _ => panic!("first part must be the chat_id text part"),
            }
            match &parts[1] {
                Part::Text(name, value) => {
                    assert_eq!(name, "caption");
                    assert_eq!(value, "cat");
                },
                _ => panic!("second part must be the caption text part"),
            }
        },
        RequestBody::Json(_) => panic!("a local file must switch the body to multipart"),
    }
}

#[test]
fn remote_file_id_stays_a_string_field() {
    let d = SendPhoto {
        chat_id: 5,
        caption: None,
        disable_notification: None,
        reply_to_message_id: None,
        reply_markup: None,
        photo: Some(FileRef::RemoteId(String::from("abc123"))),
    }
    .descriptor();
    match build_body(d) {
        RequestBody::Json(v) => {
            assert_eq!(v.to_text(), "{\"chat_id\":5,\"photo\":\"abc123\"}");
        },
        RequestBody::Multipart(_) => panic!("a remote id is never promoted to a binary part"),
    }
}

#[test]
fn get_updates_descriptor_carries_the_poll_options() {
    let d = GetUpdates {
        offset: Some(10),
        limit: Some(100),
        timeout: Some(30),
        allowed_updates: Some(vec![String::from("message")]),
    }
    .descriptor();
    match build_body(d) {
        RequestBody::Json(v) => {
            assert_eq!(
                v.to_text(),
                "{\"offset\":10,\"limit\":100,\"timeout\":30,\"allowed_updates\":[\"message\"]}"
            );
        },
        RequestBody::Multipart(_) => panic!("get-updates sends JSON"),
    }
}

#[test]
fn get_me_has_no_parameters() {
    let d = GetMe {}.descriptor();
    assert_eq!(d.method, "getMe");
    match build_body(d) {
        RequestBody::Json(v) => assert_eq!(v.to_text(), "{}"),
        RequestBody::Multipart(_) => panic!("get-me sends JSON"),
    }
}

#[test]
fn identity_call_against_stub_envelope_decodes_the_user() {
    let body = "{\"ok\":true,\"result\":{\"id\":1,\"first_name\":\"b\",\"last_name\":null,\"username\":null}}";
    let r = interpret_response(ResultShape::User, HttpOutcome::Body(String::from(body)));
    match r {
        Ok(Answer::User(u)) => {
            assert_eq!(u.id, 1);
            assert_eq!(u.first_name, "b");
            assert!(u.last_name.is_none());
            assert!(u.username.is_none());
        },
        _ => panic!("the stub envelope must decode to the user record"),
    }
}

#[test]
fn network_failure_is_surfaced_as_a_network_error() {
    let r = interpret_response(
        ResultShape::Bool,
        HttpOutcome::NetworkFailure(String::from("connection reset")),
    );
    match r {
        Err(Error::Network(s)) => assert_eq!(s, "connection reset"),
        _ => panic!("a transport failure must become a Network error"),
    }
}

#[test]
fn garbage_body_is_a_decode_error() {
    let r = interpret_response(ResultShape::Bool, HttpOutcome::Body(String::from("not json")));
    assert!(matches!(r, Err(Error::Decode(_))));
}

#[test]
fn shape_mismatch_is_a_decode_error() {
    let body = "{\"ok\":true,\"result\":{\"id\":1}}";
    let r = interpret_response(ResultShape::Bool, HttpOutcome::Body(String::from(body)));
    assert!(matches!(r, Err(Error::Decode(_))));
}

#[test]
fn user_record_round_trips_through_its_json_form() {
    let u = User {
        id: 42,
        first_name: String::from("Ada"),
        last_name: Some(String::from("L")),
        username: None,
    };
    let v = u.to_json();
    let back = User::from_json(&v).expect("an encoded user must decode");
    assert_eq!(back.id, 42);
    assert_eq!(back.first_name, "Ada");
    assert_eq!(back.last_name.as_deref(), Some("L"));
    assert!(back.username.is_none());
}

#[test]
fn parse_accepts_whitespace_escapes_and_signed_numbers() {
    let v = parse_text(" [ 1 , -2 , \"a\\nb\" , true , null ] ").expect("valid JSON must parse");
    match v {
        JsonValue::Arr(items) => {
            assert_eq!(items.len(), 5);
            assert!(matches!(items[0], JsonValue::Int(1)));
            assert!(matches!(items[1], JsonValue::Int(-2)));
            match &items[2] {
                JsonValue::Str(s) => assert_eq!(s, "a\nb"),
                _ => panic!("third element must be the unescaped string"),
            }
            assert!(matches!(items[3], JsonValue::Bool(true)));
            assert!(matches!(items[4], JsonValue::Null));
        },
        _ => panic!("the document is an array"),
    }
}

#[test]
fn parse_rejects_floats_and_trailing_garbage() {
    assert!(parse_text("1.5").is_none());
    assert!(parse_text("1e3").is_none());
    assert!(parse_text("{} x").is_none());
    assert!(parse_text("").is_none());
}

#[test]
fn encoder_escapes_quotes_and_control_characters() {
    let v = JsonValue::Str(String::from("a\"b\\c\nd"));
    assert_eq!(v.to_text(), "\"a\\\"b\\\\c\\nd\"");
}

#[test]
fn parse_mode_and_action_write_their_wire_names() {
    assert_eq!(ParseMode::Markdown.to_text(), "Markdown");
    assert_eq!(ParseMode::HTML.to_text(), "HTML");
    assert_eq!(ParseMode::Text.to_text(), "Text");
    assert_eq!(Action::Typing.to_text(), "Typing");
    assert_eq!(Action::UploadDocument.to_text(), "UploadDocument");
    // The wire name this library has always sent for RecordAudio.
    assert_eq!(Action::RecordAudio.to_text(), "RecordVideo");
}

#[test]
fn send_action_names_the_method() {
    let d = SendAction { chat_id: 3, action: Action::Typing.to_text() }.descriptor();
    assert_eq!(d.method, "sendChatAction");
    match build_body(d) {
        RequestBody::Json(v) => assert_eq!(v.to_text(), "{\"chat_id\":3,\"action\":\"Typing\"}"),
        RequestBody::Multipart(_) => panic!("send-chat-action sends JSON"),
    }
}

#[test]
fn parser_accepts_the_most_negative_number() {
    let v = parse_text("-9223372036854775808").expect("the most negative number parses");
    assert!(matches!(v, JsonValue::Int(i64::MIN)));
    let text = JsonValue::Int(i64::MIN).to_text();
    assert_eq!(text, "-9223372036854775808");
    let back = parse_text(&text).expect("the encoder's own output parses");
    assert!(matches!(back, JsonValue::Int(i64::MIN)));
}

#[test]
fn parser_rejects_numbers_outside_the_signed_64_bit_range() {
    assert!(parse_text("9223372036854775807").is_some());
    assert!(parse_text("9223372036854775808").is_none());
    assert!(parse_text("-9223372036854775809").is_none());
}
