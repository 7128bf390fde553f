use tv_remote::keys::{lg_command_uri, samsung_key_code, RemoteKey};
use tv_remote::remote::{
    decode_reply, dispatch_brand, reply_text, lg_handshake, lg_request, reply_from_fields, samsung_frame, samsung_url, Action,
    CommandResult, Event, Reply, Session, TvBrand, MAX_REGISTRATION_ATTEMPTS,
};

fn expect_send(s: &Session) -> String {
    match s.next_action() {
        Action::Send { frame } => frame,
        _ => panic!("expected a send"),
    }
}

fn finish(s: Session) -> CommandResult {
    assert!(matches!(s.next_action(), Action::Finish));
    s.result().expect("a finished session has a result")
}

#[test]
fn key_tables() {
    assert_eq!(samsung_key_code("VOL_UP"), "KEY_VOLUP");
    assert_eq!(samsung_key_code("OK"), "KEY_ENTER");
    assert_eq!(samsung_key_code("BACK"), "KEY_RETURN");
    assert_eq!(lg_command_uri("VOL_UP"), "ssap://audio/volumeUp");
    assert_eq!(lg_command_uri("OK"), "ssap://input/button?name=ENTER");
    assert_eq!(lg_command_uri("SOURCE"), "ssap://tv/openInputPicker");
    assert_eq!(RemoteKey::from_name("MENU"), Some(RemoteKey::Menu));
    assert_eq!(RemoteKey::from_name("menu"), None);
}

#[test]
fn unknown_keys_use_defaults() {
    assert_eq!(samsung_key_code("PLAY"), "KEY_VOLDOWN");
    assert_eq!(samsung_key_code(""), "KEY_VOLDOWN");
    assert_eq!(lg_command_uri("PLAY"), "ssap://audio/volumeUp");
    let s = Session::new("10.0.0.9", "Samsung", "PLAY", None);
    assert!(matches!(s.next_action(), Action::Connect { .. }));
}

#[test]
fn brands() {
    assert_eq!(dispatch_brand("LG"), TvBrand::Lg);
    assert_eq!(dispatch_brand("webos tv"), TvBrand::Lg);
    assert_eq!(dispatch_brand("Samsung"), TvBrand::Samsung);
    assert_eq!(dispatch_brand("tizen"), TvBrand::Samsung);
    assert_eq!(dispatch_brand("Roku"), TvBrand::Unsupported);
}

#[test]
fn frames() {
    assert_eq!(
        samsung_frame("KEY_VOLUP"),
        "{\"method\":\"ms.remote.control\",\"params\":{\"Cmd\":\"Click\",\"DataOfCmd\":\"KEY_VOLUP\",\"Option\":\"false\",\"TypeOfRemote\":\"SendRemoteKey\"}}"
    );
    assert_eq!(lg_request("ssap://audio/volumeUp"), "{\"type\":\"request\",\"id\":\"req_1\",\"uri\":\"ssap://audio/volumeUp\"}");
    assert!(lg_handshake("k\"1").contains("\"client-key\":\"k\\\"1\""));
    assert_eq!(
        samsung_url("192.168.1.2"),
        "wss://192.168.1.2:8002/api/v2/channels/samsung.remote.control?name=VGVzdFJlbW90ZQ=="
    );
}

#[test]
fn unsupported_vendor_fails_without_connecting() {
    let s = Session::new("10.0.0.1", "Roku", "VOL_UP", None);
    let r = finish(s);
    assert!(!r.success);
    assert_eq!(r.message, "Marca no soportada: Roku");
    assert_eq!(r.updated_credential, None);
}

#[test]
fn samsung_volume_up_sends_one_frame() {
    let mut s = Session::new("192.168.1.2", "Samsung", "VOL_UP", None);
    match s.next_action() {
        Action::Connect { url, timeout_ms } => {
            assert!(url.starts_with("wss://192.168.1.2:8002/"));
            assert_eq!(timeout_ms, 5000);
        }
        _ => panic!("expected a connection"),
    }
    s.on_event(Event::Connected);
    let frame = expect_send(&s);
    assert!(frame.contains("\"DataOfCmd\":\"KEY_VOLUP\""));
    s.on_event(Event::Sent);
    assert!(matches!(s.next_action(), Action::Pause { ms: 300 }));
    s.on_event(Event::Paused);
    assert!(matches!(s.next_action(), Action::Close));
    s.on_event(Event::Closed);
    let r = finish(s);
    assert!(r.success);
    assert_eq!(r.message, "Comando Samsung OK");
}

#[test]
fn samsung_invalid_url_is_refused() {
    let s = Session::samsung("bad host", "KEY_VOLUP");
    let r = finish(s);
    assert!(!r.success);
    assert_eq!(r.message, "URL Samsung inválida");
}

#[test]
fn samsung_connect_failure() {
    let mut s = Session::new("192.168.1.2", "Samsung", "MUTE", None);
    s.on_event(Event::ConnectFailed { detail: "refused".to_string() });
    let r = finish(s);
    assert!(!r.success);
    assert_eq!(r.message, "Error conectando a Samsung: refused");
}

#[test]
fn lg_registration_key_is_returned() {
    let mut s = Session::new("192.168.1.3", "LG", "HOME", None);
    assert!(matches!(s.next_action(), Action::Connect { .. }));
    s.on_event(Event::Connected);
    let hs = expect_send(&s);
    assert!(hs.contains("\"client-key\":\"null\""));
    s.on_event(Event::Sent);
    assert!(matches!(s.next_action(), Action::Receive { timeout_ms: 2000 }));
    s.on_event(Event::Received { reply: decode_reply("{\"type\":\"response\",\"id\":\"x\"}") });
    s.on_event(Event::NothingReceived);
    let reply = decode_reply("{\"type\":\"registered\",\"id\":\"register_0\",\"payload\":{\"client-key\":\"abc123\"}}");
    s.on_event(Event::Received { reply });
    let req = expect_send(&s);
    assert_eq!(req, "{\"type\":\"request\",\"id\":\"req_1\",\"uri\":\"ssap://system/launcher/open\"}");
    s.on_event(Event::Sent);
    s.on_event(Event::Paused);
    s.on_event(Event::Closed);
    let r = finish(s);
    assert!(r.success);
    assert_eq!(r.updated_credential, Some("abc123".to_string()));
}

#[test]
fn lg_registration_without_key() {
    let mut s = Session::lg("192.168.1.3", "ssap://audio/volumeUp", Some("saved".to_string()));
    s.on_event(Event::Connected);
    assert!(expect_send(&s).contains("\"client-key\":\"saved\""));
    s.on_event(Event::Sent);
    s.on_event(Event::Received { reply: decode_reply("{\"type\":\"registered\",\"payload\":{}}") });
    s.on_event(Event::Sent);
    s.on_event(Event::Paused);
    s.on_event(Event::Closed);
    let r = finish(s);
    assert!(r.success);
    assert_eq!(r.message, "Comando LG OK");
    assert_eq!(r.updated_credential, None);
}

#[test]
fn lg_budget_exhausted_sends_no_request() {
    let mut s = Session::new("192.168.1.3", "LG", "VOL_UP", None);
    s.on_event(Event::Connected);
    s.on_event(Event::Sent);
    for i in 0..MAX_REGISTRATION_ATTEMPTS {
        assert!(matches!(s.next_action(), Action::Receive { .. }), "attempt {}", i);
        s.on_event(Event::NothingReceived);
    }
    let r = finish(s);
    assert!(!r.success);
    assert_eq!(r.message, "No se pudo registrar en LG (Timeout o Rechazado)");
}

#[test]
fn lg_stream_end_fails_registration() {
    let mut s = Session::new("192.168.1.3", "webOS", "VOL_UP", None);
    s.on_event(Event::Connected);
    s.on_event(Event::Sent);
    s.on_event(Event::StreamEnded);
    assert!(!finish(s).success);
}

#[test]
fn lg_connect_failure_mentions_pairing() {
    let mut s = Session::new("192.168.1.3", "LG", "VOL_UP", None);
    s.on_event(Event::ConnectFailed { detail: "timeout".to_string() });
    let r = finish(s);
    assert!(!r.success);
    assert!(r.message.starts_with("Error conectando LG: timeout"));
    assert!(r.message.contains("televisor"));
}

#[test]
fn lg_handshake_send_failure() {
    let mut s = Session::new("192.168.1.3", "LG", "VOL_UP", None);
    s.on_event(Event::Connected);
    s.on_event(Event::SendFailed { detail: "broken pipe".to_string() });
    assert_eq!(finish(s).message, "Error enviando handshake LG: broken pipe");
}

#[test]
fn reply_decoding() {
    assert!(matches!(decode_reply("not json"), Reply::Other));
    assert!(matches!(decode_reply("{\"type\":\"error\"}"), Reply::Other));
    assert!(matches!(decode_reply("{\"type\":\"registered\"}"), Reply::Registered { client_key: None }));
    match reply_from_fields(Some("registered".to_string()), Some("k".to_string())) {
        Reply::Registered { client_key } => assert_eq!(client_key, Some("k".to_string())),
        Reply::Other => panic!("expected a registration"),
    }
    assert!(matches!(reply_from_fields(Some("Registered".to_string()), None), Reply::Other));
    assert!(matches!(reply_from_fields(None, Some("k".to_string())), Reply::Other));
}

#[test]
fn events_out_of_turn_are_ignored() {
    let mut s = Session::new("192.168.1.2", "Samsung", "UP", None);
    s.on_event(Event::Paused);
    assert!(matches!(s.next_action(), Action::Connect { .. }));
}

#[test]
fn brands_follow_unicode_upper_case() {
    assert_eq!(dispatch_brand("\u{17F}am\u{17F}ung"), TvBrand::Samsung);
    assert_eq!(dispatch_brand("webo\u{17F}"), TvBrand::Lg);
    let s = Session::new("10.0.0.9", "webo\u{17F}", "VOL_UP", None);
    assert!(matches!(s.next_action(), Action::Connect { .. }));
}

#[test]
fn reply_decoding_needs_string_members() {
    assert!(matches!(decode_reply("{\"type\":1}"), Reply::Other));
    assert!(matches!(decode_reply("[\"registered\"]"), Reply::Other));
    match decode_reply("{\"type\":\"registered\",\"payload\":{\"client-key\":7}}") {
        Reply::Registered { client_key } => assert_eq!(client_key, None),
        Reply::Other => panic!("expected a registration"),
    }
}

#[test]
fn reply_texts() {
    let ok = |k: Option<&str>| CommandResult {
        success: true,
        message: "Comando LG OK".to_string(),
        updated_credential: k.map(|x| x.to_string()),
    };
    assert_eq!(reply_text(TvBrand::Lg, ok(Some("abc"))), Ok("{\"status\":\"OK\",\"new_key\":\"abc\"}".to_string()));
    assert_eq!(reply_text(TvBrand::Lg, ok(None)), Ok("{\"status\":\"OK\"}".to_string()));
    let sam = CommandResult { success: true, message: "Comando Samsung OK".to_string(), updated_credential: None };
    assert_eq!(reply_text(TvBrand::Samsung, sam), Ok("Comando Samsung OK".to_string()));
    let bad = CommandResult { success: false, message: "fallo".to_string(), updated_credential: None };
    assert_eq!(reply_text(TvBrand::Lg, bad), Err("fallo".to_string()));
}

#[test]
fn control_characters_are_escaped() {
    assert_eq!(lg_request("a\u{1}b\n"), "{\"type\":\"request\",\"id\":\"req_1\",\"uri\":\"a\\u0001b\\n\"}");
}
