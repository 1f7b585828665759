// A connection against a scripted hub: registration handshake (signature
// verified with the enrolled public key), subscribe phase, module method
// dispatch, and event fan-out; then the reconnect loop.

use ed25519_dalek::{Signature, SigningKey, Verifier};
use rawtoh_module_sdk::base64url;
use rawtoh_module_sdk::hub::{
    log_line, reason_for, Backoff, Dispatch, Handshake, HandshakeEvent, RunAction, RunEvent,
};
use rawtoh_module_sdk::ws::{Incoming, Outbound};
use rawtoh_module_sdk::{
    DisconnectReason, Error, HubConnection, HubOptions, Identity, RpcError, Status, WsClient,
    CLOSE_DISCONNECT_REQUESTED, CLOSE_KEY_ROTATED,
};
use serde_json::Value;

type Hub = HubConnection<u32>;
type Session = WsClient<()>;

fn value(text: &str) -> Value {
    serde_json::from_str(text).unwrap()
}

fn sent(frame: &Outbound) -> Value {
    match frame {
        Outbound::Text(text) => value(text),
        Outbound::Close => panic!("a close frame"),
    }
}

fn hub(seed: &[u8; 32]) -> Hub {
    HubConnection::new(HubOptions {
        url: "ws://127.0.0.1:0".into(),
        identity: Identity { instance_id: "inst_1".into(), private_key: base64url::encode(seed) },
        label: None,
    })
}

fn registered_hub() -> Hub {
    let mut h = hub(&[42u8; 32]);
    h.start();
    assert!(matches!(
        h.connect_once(HandshakeEvent::Answered(7, Ok(Value::Bool(true)))),
        Handshake::Registered
    ));
    h
}

fn subscribe(h: &mut Hub, event: &str) -> String {
    match h.dispatch("event.subscribe", value(&format!("[\"{event}\"]"))) {
        Dispatch::Subscribe { event: asked } => assert_eq!(asked, event),
        other => panic!("{other:?}"),
    }
    match h.subscribed(event, true).unwrap() {
        Value::String(id) => id,
        other => panic!("{other:?}"),
    }
}

#[test]
fn registers_subscribes_and_emits() {
    let seed = [42u8; 32];
    let public = SigningKey::from_bytes(&seed).verifying_key();
    let mut conn = hub(&seed);
    let mut session = Session::new();

    // Registration: the hub issues a nonce, the instance signs it.
    conn.start();
    let challenge = match conn.connect_once(HandshakeEvent::Connected) {
        Handshake::Challenge { method, params } => session.request(method, params, ()).unwrap(),
        other => panic!("{other:?}"),
    };
    let on_wire = sent(&challenge.frame);
    assert_eq!(on_wire["method"], "session.challenge");
    assert_eq!(on_wire["params"]["instance_id"], "inst_1");
    let answer = format!(r#"{{"jsonrpc":"2.0","id":{},"result":{{"nonce":"n0nce"}}}}"#, on_wire["id"]);
    let reply = match session.incoming(&answer) {
        Incoming::Deliver(d) => Session::settle(Some(d.outcome)),
        other => panic!("{other:?}"),
    };
    let register = match conn.connect_once(HandshakeEvent::Challenged(reply)) {
        Handshake::Register { method, params } => session.request(method, params, ()).unwrap(),
        other => panic!("{other:?}"),
    };
    let on_wire = sent(&register.frame);
    assert_eq!(on_wire["method"], "session.register");
    let sig = base64url::decode(on_wire["params"]["signature"].as_str().unwrap()).unwrap();
    public
        .verify(
            b"rawtoh-module-register:v1\ninst_1\nn0nce",
            &Signature::from_slice(&sig).unwrap(),
        )
        .expect("signature over the v1 format");
    let answer = format!(r#"{{"jsonrpc":"2.0","id":{},"result":true}}"#, on_wire["id"]);
    let reply = match session.incoming(&answer) {
        Incoming::Deliver(d) => Session::settle(Some(d.outcome)),
        other => panic!("{other:?}"),
    };
    match conn.connect_once(HandshakeEvent::Answered(1, reply)) {
        Handshake::Registered => {}
        other => panic!("handshake: {other:?}"),
    }
    let mut backoff = Backoff::new();
    assert_eq!(conn.run(&mut backoff, RunEvent::Started), RunAction::Watch);
    assert!(conn.connected());

    // Subscribe phase: positional params, unknown event -> null.
    let mut sub_id = None;
    let mut answered = 0;
    for text in [
        r#"{"jsonrpc":"2.0","id":100,"method":"event.subscribe","params":["chat.message"]}"#,
        r#"{"jsonrpc":"2.0","id":101,"method":"event.subscribe","params":["nope"]}"#,
        r#"{"jsonrpc":"2.0","id":102,"method":"chat.say","params":{"message":"hi"}}"#,
    ] {
        let (method, params, id) = match session.incoming(text) {
            Incoming::Dispatch { method, params, id } => (method, params, id),
            other => panic!("{other:?}"),
        };
        let outcome = match conn.dispatch(&method, params) {
            Dispatch::Reply(outcome) => outcome,
            Dispatch::Subscribe { event } => conn.subscribed(&event, event == "chat.message"),
            Dispatch::Unsubscribe { .. } => Hub::unsubscribed(),
            Dispatch::Call { method, params } => {
                let mut echo = serde_json::Map::new();
                echo.insert("echo".into(), Value::String(method));
                echo.insert("params".into(), params);
                Ok(Value::Object(echo))
            }
        };
        let msg = sent(&Session::reply(id, outcome).unwrap());
        match msg["id"].as_u64() {
            Some(100) => sub_id = Some(msg["result"].as_str().unwrap().to_owned()),
            Some(101) => assert!(msg["result"].is_null()),
            Some(102) => assert_eq!(msg["result"]["params"]["message"], "hi"),
            other => panic!("{other:?}"),
        }
        answered += 1;
    }
    assert_eq!(answered, 3);

    // Event fan-out: a notification (no id) carrying the subscription id.
    let frames = conn.emit("chat.message", value(r#"{"text":"hello"}"#), Some("user_9"));
    assert_eq!(frames.len(), 1);
    let event = sent(&frames[0]);
    assert_eq!(event["method"], "event.subscription");
    assert!(event.get("id").is_none());
    assert_eq!(event["params"]["subscription"], sub_id.unwrap());
    assert_eq!(event["params"]["result"]["text"], "hello");
    assert_eq!(event["params"]["emitted_by"], "user_9");

    assert_eq!(conn.stop(), Some(1));
    assert!(!conn.connected());
}

#[test]
fn the_handshake_fails_with_its_reasons() {
    let mut h = hub(&[1u8; 32]);
    match h.connect_once(HandshakeEvent::Challenged(Err(Error::Closed))) {
        Handshake::Failed { close: false, error: Error::Closed } => {}
        other => panic!("{other:?}"),
    }
    for challenge in ["{}", "null", r#"{"nonce":5}"#] {
        match h.connect_once(HandshakeEvent::Challenged(Ok(value(challenge)))) {
            Handshake::Failed { close: true, error: Error::Protocol(m) } => {
                assert_eq!(m, "Hub returned no challenge")
            }
            other => panic!("{other:?}"),
        }
    }
    for answer in ["false", "null", "1", "\"true\""] {
        match h.connect_once(HandshakeEvent::Answered(3, Ok(value(answer)))) {
            Handshake::Failed { close: true, error: Error::Protocol(m) } => {
                assert_eq!(m, "Registration rejected")
            }
            other => panic!("{other:?}"),
        }
    }
    match h.connect_once(HandshakeEvent::Answered(3, Err(Error::Rpc(RpcError::new(1, "x"))))) {
        Handshake::Failed { close: false, error: Error::Rpc(e) } => assert_eq!(e.code, 1),
        other => panic!("{other:?}"),
    }
    assert_eq!(h.client(), None);

    let mut h: Hub = HubConnection::new(HubOptions {
        url: String::new(),
        identity: Identity { instance_id: "i".into(), private_key: "short".into() },
        label: Some("main".into()),
    });
    match h.connect_once(HandshakeEvent::Challenged(Ok(value(r#"{"nonce":"n"}"#)))) {
        Handshake::Failed { close: false, error: Error::Identity(_) } => {}
        other => panic!("{other:?}"),
    }
    assert_eq!(h.options().label.as_deref(), Some("main"));
}

#[test]
fn ping_is_answered_here_and_other_methods_by_the_module() {
    let mut h = registered_hub();
    match h.dispatch("ping", Value::Null) {
        Dispatch::Reply(Ok(v)) => assert_eq!(v, value(r#"{"pong":true}"#)),
        other => panic!("{other:?}"),
    }
    match h.dispatch("event.other", value("[1]")) {
        Dispatch::Call { method, params } => {
            assert_eq!((method.as_str(), params), ("event.other", value("[1]")))
        }
        other => panic!("{other:?}"),
    }
}

#[test]
fn subscribing_twice_or_without_a_name_gives_null() {
    let mut h = registered_hub();
    let id = subscribe(&mut h, "chat.message");
    for params in [r#"["chat.message"]"#, r#"["chat.message",{}]"#, "[]", "{}", "[7]", "null"] {
        match h.dispatch("event.subscribe", value(params)) {
            Dispatch::Reply(Ok(Value::Null)) => {}
            other => panic!("{other:?}"),
        }
    }
    assert_eq!(h.subscribed("other", false).unwrap(), Value::Null);
    assert_eq!(h.subscriptions().len(), 1);
    assert_eq!(h.subscriptions()[0].id, id);
    assert_eq!(h.subscriptions()[0].event, "chat.message");
}

#[test]
fn unsubscribing_undoes_subscribing() {
    let mut h = registered_hub();
    let id = subscribe(&mut h, "chat.message");
    match h.dispatch("event.unsubscribe", value(&format!("[\"{id}\"]"))) {
        Dispatch::Unsubscribe { id: gone, unwanted } => {
            assert_eq!((gone, unwanted.as_deref()), (id.clone(), Some("chat.message")))
        }
        other => panic!("{other:?}"),
    }
    assert_eq!(Hub::unsubscribed().unwrap(), Value::Bool(true));
    assert!(h.subscriptions().is_empty());
    // Unknown ids and odd parameters are answered all the same.
    for params in [format!("[\"{id}\"]"), "[]".into(), "[1]".into()] {
        match h.dispatch("event.unsubscribe", value(&params)) {
            Dispatch::Reply(Ok(Value::Bool(true))) => {}
            other => panic!("{other:?}"),
        }
    }
    subscribe(&mut h, "chat.message");
}

#[test]
fn the_module_is_told_when_the_last_subscription_goes() {
    let mut h = registered_hub();
    // Two requests for the same event may overlap while the module is asked.
    h.subscribed_as("e", "a".into()).unwrap();
    h.subscribed_as("e", "b".into()).unwrap();
    for (id, told) in [("a", None), ("b", Some("e"))] {
        match h.dispatch("event.unsubscribe", value(&format!("[\"{id}\"]"))) {
            Dispatch::Unsubscribe { id: gone, unwanted } => {
                assert_eq!((gone.as_str(), unwanted.as_deref()), (id, told))
            }
            other => panic!("{other:?}"),
        }
    }
}

#[test]
fn an_id_holds_one_event() {
    let mut h = registered_hub();
    h.subscribed_as("e", "a".into()).unwrap();
    h.subscribed_as("f", "b".into()).unwrap();
    assert_eq!(h.subscribed_as("g", "a".into()).unwrap(), Value::String("a".into()));
    let table: Vec<_> =
        h.subscriptions().iter().map(|s| (s.id.as_str(), s.event.as_str())).collect();
    assert_eq!(table, [("a", "g"), ("b", "f")]);
}

#[test]
fn events_go_to_every_subscription_on_them_and_to_no_other() {
    let mut h = registered_hub();
    h.subscribed_as("e", "a".into()).unwrap();
    h.subscribed_as("f", "b".into()).unwrap();
    h.subscribed_as("e", "c".into()).unwrap();
    let frames: Vec<Value> = h.emit("e", value("1"), None).iter().map(sent).collect();
    assert_eq!(
        frames,
        [
            value(r#"{"jsonrpc":"2.0","method":"event.subscription","params":{"subscription":"a","result":1}}"#),
            value(r#"{"jsonrpc":"2.0","method":"event.subscription","params":{"subscription":"c","result":1}}"#),
        ]
    );
    assert!(h.emit("g", value("1"), None).is_empty());
    h.stop();
    assert!(h.emit("e", value("1"), None).is_empty());
}

#[test]
fn the_hub_reads_events_as_they_were_pushed() {
    let mut h = registered_hub();
    h.subscribed_as("e", "a".into()).unwrap();
    let result = value(r#"{"text":"h\u00e9llo","n":[-1,null]}"#);
    for by in [None, Some("user_9")] {
        let frames = h.emit("e", result.clone(), by);
        let text = match &frames[0] {
            Outbound::Text(text) => text,
            Outbound::Close => panic!("a close frame"),
        };
        match Session::new().incoming(text) {
            Incoming::Dispatch { method, params, id } => {
                assert_eq!((method.as_str(), id), ("event.subscription", None));
                assert_eq!(params["subscription"], "a");
                assert_eq!(params["result"], result);
                assert_eq!(params.get("emitted_by").and_then(Value::as_str), by);
            }
            other => panic!("{other:?}"),
        }
    }
}

#[test]
fn pauses_double_from_one_second_to_sixty_four() {
    let mut h = registered_hub();
    let mut backoff = Backoff::new();
    assert_eq!(h.run(&mut backoff, RunEvent::Started), RunAction::Watch);
    let mut pauses = Vec::new();
    let mut action = h.run(&mut backoff, RunEvent::Closed(None));
    for _ in 0..9 {
        match action {
            RunAction::Sleep(secs) => pauses.push(secs),
            other => panic!("{other:?}"),
        }
        assert_eq!(h.run(&mut backoff, RunEvent::Slept), RunAction::Connect);
        action = h.run(&mut backoff, RunEvent::Reconnected(false));
    }
    assert_eq!(pauses, [1, 2, 4, 8, 16, 32, 64, 64, 64]);
    // A success starts them over.
    h.connect_once(HandshakeEvent::Answered(8, Ok(Value::Bool(true))));
    assert_eq!(h.run(&mut backoff, RunEvent::Reconnected(true)), RunAction::Watch);
    assert_eq!(h.run(&mut backoff, RunEvent::Closed(Some(1006))), RunAction::Sleep(1));
}

#[test]
fn a_refusal_ends_the_loop_for_good() {
    assert_eq!((CLOSE_DISCONNECT_REQUESTED, CLOSE_KEY_ROTATED), (4000, 4001));
    for (code, reason) in [
        (4000, DisconnectReason::DisconnectRequested),
        (4001, DisconnectReason::KeyRotated),
    ] {
        let mut h = registered_hub();
        let mut backoff = Backoff::new();
        h.run(&mut backoff, RunEvent::Started);
        assert_eq!(h.run(&mut backoff, RunEvent::Closed(Some(code))), RunAction::Return);
        assert_eq!(h.status(), Status { connected: false, reason: Some(reason) });
    }
    assert_eq!(reason_for(Some(4002)), None);
    assert_eq!(reason_for(None), None);
}

#[test]
fn a_lost_session_takes_its_subscriptions_along() {
    let mut h = registered_hub();
    let mut backoff = Backoff::new();
    h.run(&mut backoff, RunEvent::Started);
    subscribe(&mut h, "e");
    assert_eq!(h.run(&mut backoff, RunEvent::Closed(Some(1001))), RunAction::Sleep(1));
    assert_eq!(h.client(), None);
    assert!(h.subscriptions().is_empty());
    assert_eq!(h.status(), Status { connected: false, reason: None });
}

#[test]
fn once_stopped_the_loop_ends_whatever_happens() {
    for event in [
        RunEvent::Started,
        RunEvent::Closed(None),
        RunEvent::Closed(Some(4000)),
        RunEvent::Slept,
        RunEvent::Reconnected(true),
        RunEvent::Reconnected(false),
    ] {
        let mut h = registered_hub();
        let mut backoff = Backoff::new();
        assert_eq!(h.stop(), Some(7));
        assert_eq!(h.status(), Status { connected: false, reason: None });
        assert!(!h.announces(event));
        assert_eq!(h.run(&mut backoff, event), RunAction::Return);
        assert_eq!(h.status(), Status { connected: false, reason: None });
        assert!(!h.connected());
        assert_eq!(h.client(), None);
    }
    let mut h = registered_hub();
    h.stop();
    h.start();
    assert_eq!(h.run(&mut Backoff::new(), RunEvent::Closed(None)), RunAction::Sleep(1));
}

#[test]
fn a_handshake_that_ends_after_stop_brings_nothing_up() {
    let mut h = registered_hub();
    let mut backoff = Backoff::new();
    h.run(&mut backoff, RunEvent::Started);
    h.run(&mut backoff, RunEvent::Closed(None));
    assert_eq!(h.run(&mut backoff, RunEvent::Slept), RunAction::Connect);
    assert!(matches!(
        h.connect_once(HandshakeEvent::Connected),
        Handshake::Challenge { .. }
    ));
    assert_eq!(h.stop(), None);
    assert!(matches!(
        h.connect_once(HandshakeEvent::Challenged(Ok(value(r#"{"nonce":"n"}"#)))),
        Handshake::Register { .. }
    ));
    match h.connect_once(HandshakeEvent::Answered(9, Ok(Value::Bool(true)))) {
        Handshake::Failed { close: true, error: Error::Closed } => {}
        other => panic!("{other:?}"),
    }
    assert_eq!(h.client(), None);
    for up in [false, true] {
        assert_eq!(h.run(&mut backoff, RunEvent::Reconnected(up)), RunAction::Return);
        assert_eq!(h.status(), Status { connected: false, reason: None });
        assert_eq!(h.client(), None);
    }
    h.subscribed_as("e", "a".into()).unwrap();
    assert!(h.emit("e", value("1"), None).is_empty());

    // A stop between the registration and the loop.
    let mut h = registered_hub();
    assert_eq!(h.stop(), Some(7));
    assert_eq!(h.run(&mut backoff, RunEvent::Started), RunAction::Return);
    assert_eq!(h.status(), Status { connected: false, reason: None });
    assert_eq!(h.client(), None);
}

#[test]
fn the_status_is_announced_when_it_is_set() {
    let h = registered_hub();
    for (event, announced) in [
        (RunEvent::Started, true),
        (RunEvent::Closed(None), true),
        (RunEvent::Slept, false),
        (RunEvent::Reconnected(true), true),
        (RunEvent::Reconnected(false), false),
    ] {
        assert_eq!(h.announces(event), announced, "{event:?}");
    }
}

#[test]
fn an_event_has_one_subscription_while_calls_come_in_turn() {
    let mut h = registered_hub();
    for (event, accepted) in
        [("e", true), ("f", false), ("e", true), ("f", true), ("g", true), ("f", true)]
    {
        if let Dispatch::Subscribe { event } =
            h.dispatch("event.subscribe", value(&format!("[\"{event}\"]")))
        {
            h.subscribed(&event, accepted).unwrap();
        }
    }
    let events: Vec<_> = h.subscriptions().iter().map(|s| s.event.as_str()).collect();
    assert_eq!(events, ["e", "f", "g"]);
}

#[test]
fn log_lines_carry_the_label() {
    assert_eq!(log_line(None, "Registered successfully"), "[ws] Registered successfully");
    assert_eq!(log_line(Some("main"), "x"), "[ws:main] x");
}

#[test]
fn a_new_connection_is_not_connected() {
    let h = hub(&[0u8; 32]);
    assert!(!h.connected());
    assert_eq!(h.status(), Status::default());
    assert_eq!(h.options().url, "ws://127.0.0.1:0");
    match Hub::dropped() {
        Err(e) => assert_eq!((e.code, e.message.as_str()), (-32603, "connection dropped")),
        Ok(v) => panic!("{v:?}"),
    }
}
