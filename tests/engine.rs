use aria2_ws::client::{reply_gid, CallError, Client, Dispatch, OutgoingCall};
use aria2_ws::hooks::TaskHooks;
use aria2_ws::inbound::{classify, Inbound, Outcome};
use aria2_ws::json::Json;
use aria2_ws::method::PositionHow;

fn text(s: &str) -> Json {
    Json::Text(s.to_string())
}

fn obj(members: Vec<(&str, Json)>) -> Json {
    Json::Object(members.into_iter().map(|(k, v)| (k.to_string(), v)).collect())
}

fn reply(id: u64, result: Json) -> Json {
    obj(vec![("jsonrpc", text("2.0")), ("id", Json::Int(id as i64)), ("result", result)])
}

fn error_reply(id: u64, code: i64, message: &str) -> Json {
    obj(vec![
        ("jsonrpc", text("2.0")),
        ("id", Json::Int(id as i64)),
        ("error", obj(vec![("code", Json::Int(code)), ("message", text(message))])),
    ])
}

fn notice(method: &str, gid: &str) -> Json {
    obj(vec![
        ("jsonrpc", text("2.0")),
        ("method", text(method)),
        ("params", Json::Array(vec![obj(vec![("gid", text(gid))])])),
    ])
}

fn engine() -> Client<u32> {
    Client::new(None, 1000, 5000)
}

fn params_of(call: &OutgoingCall) -> &Vec<Json> {
    match &call.envelope {
        Json::Object(f) => match &f[3].1 {
            Json::Array(p) => p,
            _ => panic!("params is not an array"),
        },
        _ => panic!("envelope is not an object"),
    }
}

#[test]
fn replies_in_reverse_order_reach_their_own_calls() {
    let mut c = engine();
    let a = c.get_version(0).unwrap();
    let b = c.tell_status("gid123", 0).unwrap();
    assert_ne!(a.id, b.id);
    assert_eq!(params_of(&b), &vec![text("gid123")]);
    let rb = c.on_message(reply(b.id, text("status of gid123")));
    assert_eq!(rb, Dispatch::Resolved { id: b.id, result: Ok(text("status of gid123")) });
    let ra = c.on_message(reply(a.id, text("1.36.0")));
    assert_eq!(ra, Dispatch::Resolved { id: a.id, result: Ok(text("1.36.0")) });
}

#[test]
fn complete_hook_fires_once_then_registration_is_gone() {
    let mut c = engine();
    c.register_hooks("gid1".to_string(), TaskHooks { on_complete: Some(1), on_error: Some(2) });
    let first = c.on_message(notice("aria2.onDownloadComplete", "gid1"));
    assert_eq!(first, Dispatch::Published { fire: Some(1) });
    let second = c.on_message(notice("aria2.onDownloadComplete", "gid1"));
    assert_eq!(second, Dispatch::Published { fire: None });
}

#[test]
fn success_then_error_event_fires_only_one_hook() {
    let mut c = engine();
    c.register_hooks("g".to_string(), TaskHooks { on_complete: Some(1), on_error: Some(2) });
    assert_eq!(c.on_message(notice("aria2.onBtDownloadComplete", "g")), Dispatch::Published { fire: Some(1) });
    assert_eq!(c.on_message(notice("aria2.onDownloadError", "g")), Dispatch::Published { fire: None });
}

#[test]
fn error_event_fires_error_hook() {
    let mut c = engine();
    c.register_hooks("g".to_string(), TaskHooks { on_complete: Some(1), on_error: Some(2) });
    assert_eq!(c.on_message(notice("aria2.onDownloadStart", "g")), Dispatch::Published { fire: None });
    assert_eq!(c.on_message(notice("aria2.onDownloadError", "g")), Dispatch::Published { fire: Some(2) });
}

#[test]
fn second_registration_replaces_first() {
    let mut c = engine();
    c.register_hooks("g".to_string(), TaskHooks { on_complete: Some(1), on_error: None });
    c.register_hooks("g".to_string(), TaskHooks { on_complete: Some(7), on_error: None });
    assert_eq!(c.on_message(notice("aria2.onDownloadComplete", "g")), Dispatch::Published { fire: Some(7) });
}

#[test]
fn reply_for_unknown_id_is_discarded() {
    let mut c = engine();
    let a = c.get_version(0).unwrap();
    assert_eq!(c.on_message(reply(a.id + 40, text("x"))), Dispatch::Discarded);
    assert_eq!(c.on_message(reply(a.id, text("v"))), Dispatch::Resolved { id: a.id, result: Ok(text("v")) });
    assert_eq!(c.on_message(reply(a.id, text("v"))), Dispatch::Discarded);
}

#[test]
fn remote_error_keeps_code_and_message() {
    let mut c = engine();
    let a = c.remove("nope", 0).unwrap();
    let r = c.on_message(error_reply(a.id, 1, "GID nope is not found"));
    assert_eq!(
        r,
        Dispatch::Resolved {
            id: a.id,
            result: Err(CallError::Remote { code: 1, message: "GID nope is not found".to_string() })
        }
    );
}

#[test]
fn malformed_messages_are_dropped() {
    let mut c = engine();
    assert_eq!(c.on_message(Json::Int(3)), Dispatch::Dropped);
    assert_eq!(c.on_message(obj(vec![("id", text("x"))])), Dispatch::Dropped);
    assert_eq!(c.on_message(obj(vec![("id", Json::Int(0))])), Dispatch::Dropped);
    assert_eq!(c.on_message(obj(vec![("params", Json::Array(vec![]))])), Dispatch::Dropped);
}

#[test]
fn call_times_out_at_its_deadline_and_late_reply_is_discarded() {
    let mut c = engine();
    let a = c.tell_active(100).unwrap();
    let b = c.pause_all(100).unwrap();
    assert_eq!(c.expire_calls(1099), Vec::<u64>::new());
    assert_eq!(c.expire_calls(1100), vec![a.id]);
    assert_eq!(c.on_message(reply(a.id, text("late"))), Dispatch::Discarded);
    assert_eq!(c.expire_calls(5100), vec![b.id]);
}

#[test]
fn closure_fails_every_pending_call_and_fires_no_hook() {
    let mut c = engine();
    let a = c.get_version(0).unwrap();
    let b = c.get_global_stat(0).unwrap();
    c.register_hooks("g".to_string(), TaskHooks { on_complete: Some(1), on_error: Some(2) });
    let mut ids = c.close();
    ids.sort();
    assert_eq!(ids, vec![a.id, b.id]);
    assert!(c.get_closed());
    assert_eq!(c.on_message(notice("aria2.onDownloadComplete", "g")), Dispatch::Dropped);
    assert_eq!(c.on_message(reply(a.id, text("v"))), Dispatch::Dropped);
    assert_eq!(c.get_version(0), Err(CallError::ConnectionClosed));
}

#[test]
fn each_subscription_sees_what_was_published_after_it() {
    let mut c = engine();
    let early = c.subscribe_notifications();
    c.on_message(notice("aria2.onDownloadStart", "a"));
    let late = c.subscribe_notifications();
    c.on_message(notice("aria2.onDownloadPause", "b"));
    c.on_message(notice("aria2.onDownloadStop", "c"));

    let mut seen_early = Vec::new();
    while let Some(seq) = c.next_notification(early) {
        seen_early.push(c.notification(seq).method.clone());
    }
    assert_eq!(seen_early, vec!["aria2.onDownloadStart", "aria2.onDownloadPause", "aria2.onDownloadStop"]);

    let mut seen_late = Vec::new();
    while let Some(seq) = c.next_notification(late) {
        seen_late.push(c.notification(seq).method.clone());
    }
    assert_eq!(seen_late, vec!["aria2.onDownloadPause", "aria2.onDownloadStop"]);
}

#[test]
fn idle_subscriber_does_not_hold_back_others_or_replies() {
    let mut c = engine();
    let idle = c.subscribe_notifications();
    let busy = c.subscribe_notifications();
    let call = c.get_version(0).unwrap();
    for i in 0..100 {
        c.on_message(notice("aria2.onDownloadStart", &format!("g{}", i)));
        let seq = c.next_notification(busy).unwrap();
        assert_eq!(c.notification(seq).params[0], obj(vec![("gid", text(&format!("g{}", i)))]));
    }
    assert_eq!(c.on_message(reply(call.id, text("v"))), Dispatch::Resolved { id: call.id, result: Ok(text("v")) });
    let mut n = 0;
    while c.next_notification(idle).is_some() {
        n += 1;
    }
    assert_eq!(n, 100);
    c.unsubscribe_notifications(idle);
    assert_eq!(c.next_notification(busy), None);
}

#[test]
fn envelope_carries_id_prefixed_method_and_token() {
    let mut c: Client<u32> = Client::new(Some("s3cret".to_string()), 1000, 5000);
    let a = c.tell_waiting(0, 10, 0).unwrap();
    assert_eq!(
        a.envelope,
        obj(vec![
            ("jsonrpc", text("2.0")),
            ("id", Json::Int(a.id as i64)),
            ("method", text("aria2.tellWaiting")),
            ("params", Json::Array(vec![text("token:s3cret"), Json::Int(0), Json::Int(10)])),
        ])
    );
}

#[test]
fn add_uri_fills_in_empty_options_and_position() {
    let mut c = engine();
    let a = c.add_uri(&vec!["http://a/x".to_string(), "http://b/x".to_string()], None, Some(2), 0).unwrap();
    assert_eq!(
        params_of(&a),
        &vec![Json::Array(vec![text("http://a/x"), text("http://b/x")]), Json::Object(vec![]), Json::Int(2)]
    );
}

#[test]
fn add_torrent_sends_base64() {
    let mut c = engine();
    let a = c.add_torrent(&[1u8, 2, 3, 250], None, None, None, 0).unwrap();
    assert_eq!(params_of(&a), &vec![text("AQID+g=="), Json::Array(vec![]), Json::Object(vec![])]);
    let m = c.add_metalink(b"hello", None, None, 0).unwrap();
    assert_eq!(params_of(&m), &vec![text("aGVsbG8="), Json::Object(vec![])]);
}

#[test]
fn custom_tell_and_change_calls_build_their_parameters() {
    let mut c = engine();
    let keys = Some(vec!["gid".to_string(), "status".to_string()]);
    let s = c.custom_tell_stopped(-1, 5, keys, 0).unwrap();
    assert_eq!(
        params_of(&s),
        &vec![Json::Int(-1), Json::Int(5), Json::Array(vec![text("gid"), text("status")])]
    );
    let p = c.change_position("g", -2, PositionHow::POS_CUR, 0).unwrap();
    assert_eq!(params_of(&p), &vec![text("g"), Json::Int(-2), text("POS_CUR")]);
    let u = c.change_uri("g", 1, &vec![], &vec!["http://c/x".to_string()], None, 0).unwrap();
    assert_eq!(
        params_of(&u),
        &vec![text("g"), Json::Int(1), Json::Array(vec![]), Json::Array(vec![text("http://c/x")])]
    );
}

#[test]
fn extended_timeout_applies_to_cleanly_stopping_calls() {
    let mut c = engine();
    let quick = c.force_pause("g", 0).unwrap();
    let slow = c.pause("g", 0).unwrap();
    assert_eq!(c.expire_calls(1000), vec![quick.id]);
    assert_eq!(c.expire_calls(4999), Vec::<u64>::new());
    assert_eq!(c.expire_calls(5000), vec![slow.id]);
}

#[test]
fn classify_reads_notification_without_params() {
    let r = classify(obj(vec![("method", text("aria2.onDownloadStart"))]));
    match r {
        Inbound::Notice(n) => {
            assert_eq!(n.method, "aria2.onDownloadStart");
            assert!(n.params.is_empty());
        }
        other => panic!("unexpected {:?}", other),
    }
    let e = classify(obj(vec![("id", Json::Int(4)), ("error", Json::Null), ("result", text("ok"))]));
    assert_eq!(e, Inbound::Reply { id: 4, outcome: Outcome::Success(text("ok")) });
}

#[test]
fn reply_gid_takes_only_a_string() {
    assert_eq!(reply_gid(text("2089b05ecca3d829")), Ok("2089b05ecca3d829".to_string()));
    assert_eq!(reply_gid(Json::Int(5)), Err(CallError::UnexpectedReply));
}
