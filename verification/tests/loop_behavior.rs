use telebot::poller::{Poller, Backoff};
use telebot::dispatcher::{Dispatcher, UpdateKind};
use telebot::envelope::decode_envelope;
use telebot::error::{Error, ApiError};
use telebot::parse::parse_text;
use telebot::objects::{Update, UpdateContent};

fn poller() -> Poller {
    Poller::new(Backoff { base: 1, cap: 40 })
}

#[test]
fn offset_after_ids_five_six_nine_is_ten_in_one_batch() {
    let mut p = poller();
    for id in [5i64, 6, 9] {
        p.advance(id);
    }
    p.on_success();
    assert_eq!(p.offset, 10);
    assert_eq!(p.failures, 0);
}

#[test]
fn offset_after_ids_five_six_nine_is_ten_across_batches() {
    let mut p = poller();
    for id in [5i64, 6] {
        p.advance(id);
    }
    p.on_success();
    for id in [9i64] {
        p.advance(id);
    }
    p.on_success();
    assert_eq!(p.offset, 10);

    let mut q = poller();
    for id in [5i64] {
        q.advance(id);
    }
    q.on_success();
    for id in [6i64, 9] {
        q.advance(id);
    }
    q.on_success();
    assert_eq!(q.offset, 10);
}

#[test]
fn offset_never_moves_backwards() {
    let mut p = poller();
    p.advance(9);
    p.advance(5);
    assert_eq!(p.offset, 10);
}

#[test]
fn three_network_errors_sleep_non_decreasing_capped_durations() {
    let mut p = poller();
    let e = Error::Network(String::from("timeout"));
    let d1 = p.on_failure(&e).expect("a network error is retryable");
    let d2 = p.on_failure(&e).expect("a network error is retryable");
    let d3 = p.on_failure(&e).expect("a network error is retryable");
    assert!(d1 <= d2 && d2 <= d3);
    assert!(d1 <= 40 && d2 <= 40 && d3 <= 40);
    assert_eq!((d1, d2, d3), (1, 2, 4));
}

#[test]
fn retry_after_overrides_the_computed_backoff() {
    let mut p = poller();
    let net = Error::Network(String::from("x"));
    p.on_failure(&net);
    p.on_failure(&net);
    let api = Error::Api(ApiError {
        code: 429,
        description: String::from("Too Many Requests"),
        retry_after: Some(30),
        migrate_to_chat_id: None,
    });
    let d = p.on_failure(&api).expect("a server error is retryable");
    assert_eq!(d, 30);
}

#[test]
fn decode_errors_are_never_retried() {
    let mut p = poller();
    let e = Error::Decode(String::from("schema drift"));
    assert!(p.on_failure(&e).is_none());
    assert_eq!(p.failures, 0);
}

#[test]
fn backoff_saturates_at_the_cap() {
    let mut p = Poller::new(Backoff { base: 1, cap: 8 });
    let e = Error::Network(String::from("x"));
    let mut last = 0u64;
    for _ in 0..8 {
        last = p.on_failure(&e).unwrap();
        assert!(last <= 8);
    }
    assert_eq!(last, 8);
}

#[test]
fn disable_is_the_only_stop_signal() {
    let mut p = poller();
    assert!(p.enabled);
    p.disable();
    assert!(!p.enabled);
}

fn update(id: i64, text: &str) -> Update {
    let json = format!(
        "{{\"update_id\":{},\"message\":{{\"message_id\":1,\"date\":0,\"chat\":{{\"id\":1,\"type\":\"private\"}},\"text\":\"{}\"}}}}",
        id, text
    );
    let v = parse_text(&json).expect("the update JSON is valid");
    Update::from_json(&v).expect("the update decodes")
}

#[test]
fn two_handlers_on_one_kind_run_in_registration_order() {
    let mut d = Dispatcher::new();
    d.subscribe(UpdateKind::Message, 11);
    d.subscribe(UpdateKind::CallbackQuery, 50);
    d.subscribe(UpdateKind::Message, 12);
    let u = update(5, "hello");
    let route = d.route(u.kind());
    assert_eq!(route, vec![11, 12]);
}

#[test]
fn a_failing_first_handler_does_not_suppress_the_second() {
    let mut d = Dispatcher::new();
    d.subscribe(UpdateKind::Message, 1);
    d.subscribe(UpdateKind::Message, 2);
    let u = update(7, "boom");
    let route = d.route(u.kind());

    // The runner executes the routed ids one by one, catching each
    // handler's error: the route was fixed before any handler ran.
    let mut invoked: Vec<u64> = Vec::new();
    let mut reported: Vec<u64> = Vec::new();
    for id in route {
        invoked.push(id);
        let outcome: Result<(), String> = if id == 1 {
            Err(String::from("handler failure"))
        } else {
            Ok(())
        };
        if outcome.is_err() {
            reported.push(id);
        }
    }
    assert_eq!(invoked, vec![1, 2]);
    assert_eq!(reported, vec![1]);
}

#[test]
fn update_with_two_populated_kinds_is_rejected() {
    let json = "{\"update_id\":1,\"inline_query\":{},\"chosen_inline_result\":{}}";
    let v = parse_text(json).expect("valid JSON");
    assert!(Update::from_json(&v).is_none());
}

#[test]
fn update_with_no_populated_kind_is_rejected() {
    let json = "{\"update_id\":1}";
    let v = parse_text(json).expect("valid JSON");
    assert!(Update::from_json(&v).is_none());
}

#[test]
fn update_kind_follows_the_populated_field() {
    let u = update(3, "x");
    assert!(matches!(u.content, UpdateContent::Message(_)));
    assert_eq!(u.kind(), UpdateKind::Message);
    assert_eq!(u.update_id, 3);
}

#[test]
fn error_envelope_surfaces_code_and_description_together() {
    let json = "{\"ok\":false,\"error_code\":420,\"description\":\"flood\",\"parameters\":{\"retry_after\":17}}";
    let v = parse_text(json).expect("valid JSON");
    match decode_envelope(v) {
        Err(Error::Api(a)) => {
            assert_eq!(a.code, 420);
            assert_eq!(a.description, "flood");
            assert_eq!(a.retry_after, Some(17));
            assert!(a.migrate_to_chat_id.is_none());
        },
        _ => panic!("an ok=false envelope must yield the server's error"),
    }
}

#[test]
fn error_envelope_without_description_never_decodes() {
    let json = "{\"ok\":false,\"error_code\":400}";
    let v = parse_text(json).expect("valid JSON");
    assert!(matches!(decode_envelope(v), Err(Error::Decode(_))));
}

#[test]
fn ok_envelope_without_result_never_decodes() {
    let json = "{\"ok\":true}";
    let v = parse_text(json).expect("valid JSON");
    assert!(matches!(decode_envelope(v), Err(Error::Decode(_))));
}

#[test]
fn envelope_with_both_sides_never_decodes() {
    let json = "{\"ok\":true,\"result\":1,\"error_code\":400,\"description\":\"no\"}";
    let v = parse_text(json).expect("valid JSON");
    assert!(matches!(decode_envelope(v), Err(Error::Decode(_))));
}

#[test]
fn batch_decoding_keeps_update_order() {
    let json = "{\"ok\":true,\"result\":[{\"update_id\":5,\"inline_query\":{}},{\"update_id\":6,\"inline_query\":{}},{\"update_id\":9,\"inline_query\":{}}]}";
    let v = parse_text(json).expect("valid JSON");
    let result = match decode_envelope(v) {
        Ok(r) => r,
        Err(_) => panic!("the envelope is ok"),
    };
    let us = match telebot::client::decode_result(telebot::request::ResultShape::Updates, result) {
        Some(telebot::client::Answer::Updates(us)) => us,
        _ => panic!("the result decodes as a batch of updates"),
    };
    let ids: Vec<i64> = us.iter().map(|u| u.update_id).collect();
    assert_eq!(ids, vec![5, 6, 9]);

    let mut p = Poller::new(Backoff { base: 1, cap: 40 });
    for u in &us {
        p.advance(u.update_id);
    }
    p.on_success();
    assert_eq!(p.offset, 10);
}

#[test]
fn update_whose_only_kind_field_is_null_is_rejected() {
    let json = "{\"update_id\":1,\"inline_query\":null}";
    let v = parse_text(json).expect("valid JSON");
    assert!(Update::from_json(&v).is_none());
}

#[test]
fn a_null_kind_field_reads_as_absent_beside_a_real_one() {
    let json = "{\"update_id\":4,\"message\":null,\"inline_query\":{}}";
    let v = parse_text(json).expect("valid JSON");
    let u = Update::from_json(&v).expect("exactly one non-null kind is populated");
    assert_eq!(u.update_id, 4);
    assert!(matches!(u.content, UpdateContent::InlineQuery(_)));
    assert_eq!(u.kind(), UpdateKind::InlineQuery);
}
