use sbtltv::mpv::ipc::{
    classify_line, complete_command, decode_event, decode_response, frame_command, property_set,
    property_value, start_reader_thread, Delivery, Inbound, MpvIpcClient, MpvResponse,
    ReaderAction, COMMAND_TIMEOUT_MILLIS,
};

fn client() -> MpvIpcClient {
    MpvIpcClient::connect(Ok(()), false).unwrap()
}

fn words(items: &[&str]) -> Vec<String> {
    items.iter().map(|s| s.to_string()).collect()
}

/// A stand-in for the engine: it keeps one volume, answers `set_property`
/// and `get_property` for it, and echoes the request id.
fn engine_reply(volume: &mut Option<String>, line: &str) -> String {
    let value: serde_json::Value = serde_json::from_str(line.trim_end()).unwrap();
    let id = value.get("request_id").unwrap().as_u64().unwrap();
    let args = value.get("command").unwrap().as_array().unwrap();
    let name = args[0].as_str().unwrap();
    if name == "set_property" && args[1].as_str() == Some("volume") {
        *volume = Some(args[2].as_str().unwrap().to_string());
        format!("{{\"error\":\"success\",\"data\":null,\"request_id\":{}}}", id)
    } else if name == "get_property" && args[1].as_str() == Some("volume") {
        match volume {
            Some(v) => format!("{{\"error\":\"success\",\"data\":{},\"request_id\":{}}}", v, id),
            None => format!("{{\"error\":\"property unavailable\",\"request_id\":{}}}", id),
        }
    } else {
        format!("{{\"error\":\"invalid parameter\",\"request_id\":{}}}", id)
    }
}

fn fulfilled(action: ReaderAction) -> (u64, MpvResponse) {
    match action {
        ReaderAction::Fulfil(id, reply) => (id, reply),
        other => panic!("expected a fulfilment, got {:?}", other),
    }
}

#[test]
fn command_line_is_compact_json_with_newline() {
    let line = frame_command(&words(&["get_property", "volume"]), 1);
    assert_eq!(line, "{\"command\":[\"get_property\",\"volume\"],\"request_id\":1}\n");
}

#[test]
fn command_line_of_no_arguments() {
    let line = frame_command(&Vec::new(), 18446744073709551615);
    assert_eq!(line, "{\"command\":[],\"request_id\":18446744073709551615}\n");
}

#[test]
fn command_line_escapes_its_arguments() {
    let line = frame_command(&words(&["loadfile", "a\"b\\c\nd"]), 7);
    assert_eq!(line, "{\"command\":[\"loadfile\",\"a\\\"b\\\\c\\nd\"],\"request_id\":7}\n");
    assert_eq!(line.matches('\n').count(), 1);
    let back: serde_json::Value = serde_json::from_str(line.trim_end()).unwrap();
    assert_eq!(back["command"][1].as_str(), Some("a\"b\\c\nd"));
}

#[test]
fn connect_starts_at_one_with_an_empty_table() {
    let c = client();
    assert_eq!(c.next_id(), 1);
    assert_eq!(c.pending_count(), 0);
    assert!(c.has_free_id());
}

#[test]
fn connect_failure_names_the_endpoint() {
    let socket = MpvIpcClient::connect(Err("refused".to_string()), false);
    assert_eq!(socket.err().unwrap(), "Failed to connect to mpv socket: refused");
    let pipe = MpvIpcClient::connect(Err("refused".to_string()), true);
    assert_eq!(pipe.err().unwrap(), "Failed to connect to mpv pipe: refused");
}

#[test]
fn request_ids_are_not_reused() {
    let mut c = client();
    let a = c.send_command(&words(&["stop"])).unwrap();
    let b = c.send_command(&words(&["stop"])).unwrap();
    let _ = c.send_command_async(&words(&["quit"])).unwrap();
    let d = c.get_property("pause").unwrap();
    assert_eq!((a.request_id, b.request_id, d.request_id), (1, 2, 4));
    assert_eq!(c.pending_count(), 3);
    assert!(c.is_waiting(1) && c.is_waiting(2) && c.is_waiting(4));
    assert!(!c.is_waiting(3));
    assert_eq!(c.next_id(), 5);
    assert!(!c.is_waiting(c.next_id()));
}

#[test]
fn async_command_awaits_nothing() {
    let mut c = client();
    let line = c.send_command_async(&words(&["quit"])).unwrap();
    assert_eq!(line, "{\"command\":[\"quit\"],\"request_id\":1}\n");
    assert_eq!(c.pending_count(), 0);
    assert_eq!(c.next_id(), 2);
}

#[test]
fn observe_property_line() {
    let mut c = client();
    let line = c.observe_property(4, "time-pos").unwrap();
    assert_eq!(line, "{\"command\":[\"observe_property\",\"4\",\"time-pos\"],\"request_id\":1}\n");
    assert_eq!(c.pending_count(), 0);
}

#[test]
fn set_then_get_volume_with_a_responsive_engine() {
    let mut c = client();
    let mut volume = None;

    let set = c.set_property("volume", "42").unwrap();
    assert_eq!(set.line, "{\"command\":[\"set_property\",\"volume\",\"42\"],\"request_id\":1}\n");
    let reply = engine_reply(&mut volume, &set.line);
    let (id, reply) = fulfilled(c.handle_line(&reply));
    assert_eq!(id, set.request_id);
    assert_eq!(property_set(complete_command(Delivery::Replied(reply))), Ok(()));

    let get = c.get_property("volume").unwrap();
    assert_eq!(get.line, "{\"command\":[\"get_property\",\"volume\"],\"request_id\":2}\n");
    let reply = engine_reply(&mut volume, &get.line);
    let (id, reply) = fulfilled(c.handle_line(&reply));
    assert_eq!(id, get.request_id);
    let data = property_value(complete_command(Delivery::Replied(reply))).unwrap();
    assert_eq!(data, Some(serde_json::Value::from(42u64)));
    assert_eq!(c.pending_count(), 0);
}

#[test]
fn engine_error_is_handed_on_verbatim() {
    let mut c = client();
    let mut volume = None;
    let get = c.get_property("volume").unwrap();
    let reply = engine_reply(&mut volume, &get.line);
    let (_, reply) = fulfilled(c.handle_line(&reply));
    assert_eq!(
        property_value(complete_command(Delivery::Replied(reply))),
        Err("property unavailable".to_string())
    );
    let reply = MpvResponse { error: "nope".to_string(), data: None, request_id: Some(9) };
    assert_eq!(property_set(Ok(reply)), Err("nope".to_string()));
    assert_eq!(property_set(Err("Command timeout".to_string())), Err("Command timeout".to_string()));
    assert_eq!(
        property_value(Err("Command timeout".to_string())),
        Err("Command timeout".to_string())
    );
}

#[test]
fn timeout_leaves_the_entry_until_a_late_reply() {
    let mut c = client();
    let request = c.send_command(&words(&["get_property", "volume"])).unwrap();
    let outcome = complete_command(Delivery::TimedOut);
    assert_eq!(outcome.err().unwrap(), "Command timeout");
    assert_eq!(c.pending_count(), 1);
    assert!(c.is_waiting(request.request_id));

    let late = "{\"error\":\"success\",\"data\":50,\"request_id\":1}";
    let (id, _) = fulfilled(c.handle_line(late));
    assert_eq!(id, 1);
    assert_eq!(c.pending_count(), 0);
    assert!(!c.is_waiting(1));
}

#[test]
fn write_and_flush_failures_in_words() {
    let w = complete_command(Delivery::WriteFailed("broken pipe".to_string()));
    assert_eq!(w.err().unwrap(), "Failed to send command: broken pipe");
    let f = complete_command(Delivery::FlushFailed("broken pipe".to_string()));
    assert_eq!(f.err().unwrap(), "Failed to flush: broken pipe");
}

#[test]
fn unmatched_reply_changes_nothing() {
    let mut c = client();
    let _ = c.send_command(&words(&["stop"])).unwrap();
    let before = (c.next_id(), c.pending_count());
    let action = c.handle_line("{\"error\":\"success\",\"request_id\":77}");
    assert!(matches!(action, ReaderAction::Nothing));
    let action = c.handle_line("{\"error\":\"success\"}");
    assert!(matches!(action, ReaderAction::Nothing));
    assert_eq!((c.next_id(), c.pending_count()), before);
    assert!(c.is_waiting(1));
}

#[test]
fn a_reply_fulfils_once() {
    let mut c = client();
    let _ = c.send_command(&words(&["stop"])).unwrap();
    let line = "{\"error\":\"success\",\"request_id\":1}";
    assert!(matches!(c.handle_line(line), ReaderAction::Fulfil(1, _)));
    assert!(matches!(c.handle_line(line), ReaderAction::Nothing));
    assert_eq!(c.pending_count(), 0);
}

#[test]
fn handle_response_hands_back_the_reply() {
    let mut c = client();
    let _ = c.send_command(&words(&["stop"])).unwrap();
    let _ = c.send_command(&words(&["stop"])).unwrap();
    let reply = MpvResponse { error: "success".to_string(), data: None, request_id: Some(2) };
    let (id, back) = c.handle_response(reply).unwrap();
    assert_eq!(id, 2);
    assert_eq!(back.error, "success");
    assert!(c.is_waiting(1) && !c.is_waiting(2));
    let none = MpvResponse { error: "success".to_string(), data: None, request_id: None };
    assert!(c.handle_response(none).is_none());
    assert_eq!(c.pending_count(), 1);
}

fn event_and_reply(event_first: bool) -> (usize, usize, usize) {
    let mut c = client();
    let _ = c.send_command(&words(&["get_property", "pause"])).unwrap();
    let event = "{\"event\":\"property-change\",\"id\":1,\"name\":\"pause\",\"data\":true}";
    let reply = "{\"error\":\"success\",\"data\":false,\"request_id\":1}";
    let lines = if event_first { [event, reply] } else { [reply, event] };
    let mut events = 0;
    let mut fulfilments = 0;
    for line in lines {
        match c.handle_line(line) {
            ReaderAction::Notify(e) => {
                assert_eq!(e.name.as_deref(), Some("pause"));
                events += 1;
            }
            ReaderAction::Fulfil(id, _) => {
                assert_eq!(id, 1);
                fulfilments += 1;
            }
            ReaderAction::Nothing => {}
        }
    }
    (events, fulfilments, c.pending_count())
}

#[test]
fn event_and_reply_in_either_order() {
    assert_eq!(event_and_reply(true), (1, 1, 0));
    assert_eq!(event_and_reply(false), (1, 1, 0));
}

#[test]
fn classify_property_change_event() {
    let line = "{\"event\":\"property-change\",\"id\":2,\"name\":\"volume\",\"data\":55.5}";
    match classify_line(line) {
        Inbound::Event(e) => {
            assert_eq!(e.event, "property-change");
            assert_eq!(e.name.as_deref(), Some("volume"));
            assert_eq!(e.id, Some(2));
            assert_eq!(e.data.unwrap().to_string(), "55.5");
        }
        other => panic!("{:?}", other),
    }
}

#[test]
fn classify_reply_with_null_members() {
    match classify_line("{\"request_id\":null,\"error\":\"success\",\"data\":null}") {
        Inbound::Reply(r) => {
            assert_eq!(r.error, "success");
            assert_eq!(r.request_id, None);
            assert!(r.data.is_none());
        }
        other => panic!("{:?}", other),
    }
}

#[test]
fn classify_keeps_the_data_of_a_reply() {
    match classify_line("{\"request_id\":3,\"error\":\"success\",\"data\":{\"a\":[1,\"x\"]}}") {
        Inbound::Reply(r) => {
            assert_eq!(r.request_id, Some(3));
            let data = r.data.unwrap();
            assert_eq!(data["a"][1].as_str(), Some("x"));
        }
        other => panic!("{:?}", other),
    }
}

#[test]
fn classify_drops_what_is_neither() {
    assert!(matches!(classify_line(""), Inbound::Dropped));
    assert!(matches!(classify_line("not json"), Inbound::Dropped));
    assert!(matches!(classify_line("{\"event\":\"idle\"}"), Inbound::Dropped));
    assert!(matches!(classify_line("{\"foo\":1}"), Inbound::Dropped));
    assert!(matches!(classify_line("[1,2]"), Inbound::Dropped));
    assert!(matches!(classify_line("{\"error\":5}"), Inbound::Dropped));
    assert!(matches!(classify_line("{\"error\":\"success\",\"request_id\":-1}"), Inbound::Dropped));
    assert!(matches!(classify_line("{\"error\":\"success\",\"request_id\":\"1\"}"), Inbound::Dropped));
    assert!(matches!(classify_line("{\"error\":\"success\",\"request_id\":1.5}"), Inbound::Dropped));
}

#[test]
fn classify_event_of_another_kind_with_reply_shape_is_a_reply() {
    let line = "{\"event\":\"idle\",\"error\":\"success\",\"request_id\":4}";
    assert!(matches!(classify_line(line), Inbound::Reply(_)));
}

#[test]
fn classify_property_change_with_wrong_member_types_is_no_event() {
    assert!(matches!(
        classify_line("{\"event\":\"property-change\",\"name\":5}"),
        Inbound::Dropped
    ));
    assert!(matches!(
        classify_line("{\"event\":\"property-change\",\"id\":\"x\"}"),
        Inbound::Dropped
    ));
    assert!(matches!(classify_line("{\"event\":\"property-change\"}"), Inbound::Event(_)));
}

#[test]
fn decode_event_and_response_from_values() {
    let v: serde_json::Value =
        serde_json::from_str("{\"event\":\"seek\",\"name\":null,\"id\":null}").unwrap();
    let e = decode_event(&v).unwrap();
    assert_eq!(e.event, "seek");
    assert_eq!(e.name, None);
    assert_eq!(e.id, None);
    assert!(decode_response(&v).is_none());

    let v: serde_json::Value =
        serde_json::from_str("{\"error\":\"success\",\"request_id\":12,\"data\":\"x\"}").unwrap();
    let r = decode_response(&v).unwrap();
    assert_eq!(r.request_id, Some(12));
    assert_eq!(r.data, Some(serde_json::Value::from("x")));
    assert!(decode_event(&v).is_none());
}

#[test]
fn reader_start_failure_names_the_endpoint() {
    assert_eq!(start_reader_thread(Ok(()), false), Ok(()));
    assert_eq!(
        start_reader_thread(Err("refused".to_string()), false),
        Err("Failed to connect to mpv socket for reading: refused".to_string())
    );
    assert_eq!(
        start_reader_thread(Err("refused".to_string()), true),
        Err("Failed to open mpv pipe for reading: refused".to_string())
    );
}

#[test]
fn commands_time_out_after_five_seconds() {
    assert_eq!(COMMAND_TIMEOUT_MILLIS, 5000);
}

#[test]
fn every_command_is_one_line() {
    let mut c = client();
    let nasty = words(&["loadfile", "line one\nline two\r\n", "\u{0}\u{1f}\"\\"]);
    let request = c.send_command(&nasty).unwrap();
    assert!(request.line.ends_with('\n'));
    assert_eq!(request.line.matches('\n').count(), 1);
    let line = c.send_command_async(&nasty).unwrap();
    assert_eq!(line.matches('\n').count(), 1);
    let parsed: serde_json::Value = serde_json::from_str(request.line.trim_end()).unwrap();
    assert_eq!(parsed["command"][1].as_str(), Some("line one\nline two\r\n"));
    assert_eq!(parsed["command"][2].as_str(), Some("\u{0}\u{1f}\"\\"));
}

#[test]
fn property_change_of_an_event() {
    let line = "{\"event\":\"property-change\",\"id\":2,\"name\":\"volume\",\"data\":55}";
    let event = match classify_line(line) {
        Inbound::Event(e) => e,
        other => panic!("{:?}", other),
    };
    let change = event.property_change().unwrap();
    assert_eq!(change.name, "volume");
    assert_eq!(change.data, Some(serde_json::Value::from(55u64)));

    let unnamed = match classify_line("{\"event\":\"property-change\"}") {
        Inbound::Event(e) => e,
        other => panic!("{:?}", other),
    };
    assert!(unnamed.property_change().is_none());

    let value: serde_json::Value =
        serde_json::from_str("{\"event\":\"seek\",\"name\":\"volume\"}").unwrap();
    assert!(decode_event(&value).unwrap().property_change().is_none());
}

#[test]
fn quit_line_uses_the_next_id() {
    let mut c = client();
    let _ = c.send_command(&words(&["stop"])).unwrap();
    assert_eq!(c.quit(), "{\"command\":[\"quit\"],\"request_id\":2}\n");
    assert_eq!(c.next_id(), 3);
    assert_eq!(c.pending_count(), 1);
}

#[test]
fn a_stream_of_lines_in_any_order() {
    let lines = [
        "{\"event\":\"property-change\",\"id\":1,\"name\":\"pause\",\"data\":true}",
        "{\"error\":\"success\",\"data\":1,\"request_id\":1}",
        "{\"event\":\"property-change\",\"id\":2,\"name\":\"volume\",\"data\":5}",
        "garbage",
        "{\"error\":\"success\",\"data\":3,\"request_id\":3}",
        "{\"error\":\"success\",\"data\":9,\"request_id\":9}",
    ];
    let orders: [[usize; 6]; 4] =
        [[0, 1, 2, 3, 4, 5], [5, 4, 3, 2, 1, 0], [1, 4, 0, 2, 5, 3], [3, 0, 5, 1, 2, 4]];
    for order in orders {
        let mut c = client();
        for _ in 0..3 {
            let _ = c.send_command(&words(&["get_property", "volume"])).unwrap();
        }
        let stream: Vec<String> = order.iter().map(|i| lines[*i].to_string()).collect();
        let actions = c.handle_lines(&stream);
        assert_eq!(actions.len(), 6);
        let events = actions.iter().filter(|a| matches!(a, ReaderAction::Notify(_))).count();
        let mut fulfilled: Vec<u64> = actions
            .iter()
            .filter_map(|a| match a {
                ReaderAction::Fulfil(id, _) => Some(*id),
                _ => None,
            })
            .collect();
        fulfilled.sort();
        assert_eq!(events, 2);
        assert_eq!(fulfilled, vec![1, 3]);
        assert_eq!(c.pending_count(), 1);
        assert!(c.is_waiting(2));
        for (place, action) in actions.iter().enumerate() {
            let alone = match order[place] {
                0 | 2 => matches!(action, ReaderAction::Notify(_)),
                1 | 4 => matches!(action, ReaderAction::Fulfil(_, _)),
                _ => matches!(action, ReaderAction::Nothing),
            };
            assert!(alone, "line {} in order {:?}", place, order);
        }
    }
}

#[test]
fn control_characters_are_escaped_as_json_has_them() {
    let all = "\u{0}\u{1}\u{7}\u{8}\t\n\u{b}\u{c}\r\u{e}\u{1f} \"\\/\u{7f}\u{e9}\u{1f600}";
    let line = frame_command(&words(&[all]), 1);
    assert_eq!(
        line,
        "{\"command\":[\"\\u0000\\u0001\\u0007\\b\\t\\n\\u000b\\f\\r\\u000e\\u001f \\\"\\\\/\u{7f}\u{e9}\u{1f600}\"],\"request_id\":1}\n"
    );
}

#[test]
fn no_command_is_issued_once_the_ids_are_used_up() {
    let mut c = MpvIpcClient::starting_at(u64::MAX - 1);
    assert!(c.has_free_id());
    let last = c.send_command(&words(&["stop"])).unwrap();
    assert_eq!(last.request_id, u64::MAX - 1);
    assert!(!c.has_free_id());
    let exhausted = Err("Request ids exhausted".to_string());
    assert_eq!(c.send_command(&words(&["stop"])).map(|r| r.request_id), exhausted.clone());
    assert_eq!(c.get_property("pause").map(|r| r.request_id), exhausted.clone());
    assert_eq!(c.set_property("pause", "no").map(|r| r.request_id), exhausted.clone());
    assert_eq!(c.send_command_async(&words(&["stop"])), Err("Request ids exhausted".to_string()));
    assert_eq!(c.observe_property(1, "pause"), Err("Request ids exhausted".to_string()));
    assert_eq!((c.next_id(), c.pending_count()), (u64::MAX, 1));
    assert!(c.is_waiting(u64::MAX - 1));
    assert_eq!(c.quit(), "{\"command\":[\"quit\"],\"request_id\":18446744073709551615}\n");
    assert_eq!((c.next_id(), c.pending_count()), (u64::MAX, 1));
    assert!(matches!(
        c.handle_line("{\"error\":\"success\",\"request_id\":18446744073709551614}"),
        ReaderAction::Fulfil(18446744073709551614, _)
    ));
    assert_eq!(MpvIpcClient::starting_at(0).next_id(), 1);
    assert_eq!(MpvIpcClient::starting_at(7).next_id(), 7);
}
