use rawtoh_module_sdk::ws::{
    ping_params, watchdog, writer, Incoming, Outbound, Read, Received, WatchdogAction,
    WatchdogEvent, WriterAction, WriterEvent, PING_EVERY_SECS, PING_TIMEOUT_SECS,
};
use rawtoh_module_sdk::{Error, RpcError, WsClient};
use serde_json::Value;

type Session = WsClient<&'static str>;

fn value(text: &str) -> Value {
    serde_json::from_str(text).unwrap()
}

fn sent(frame: &Outbound) -> Value {
    match frame {
        Outbound::Text(text) => value(text),
        Outbound::Close => panic!("a close frame"),
    }
}

fn text(frame: Outbound) -> String {
    match frame {
        Outbound::Text(text) => text,
        Outbound::Close => panic!("a close frame"),
    }
}

#[test]
fn a_request_is_framed_with_the_next_id() {
    let mut s = Session::new();
    let a = s.request("session.challenge", value(r#"{"instance_id":"i"}"#), "a").unwrap();
    assert_eq!(a.id, 1);
    assert_eq!(
        sent(&a.frame),
        value(r#"{"jsonrpc":"2.0","id":1,"method":"session.challenge","params":{"instance_id":"i"}}"#)
    );
    let b = s.request("ping", ping_params(), "b").unwrap();
    assert_eq!(b.id, 2);
    assert_eq!(sent(&b.frame), value(r#"{"jsonrpc":"2.0","id":2,"method":"ping","params":{}}"#));
}

#[test]
fn a_response_goes_to_its_caller_once() {
    let mut s = Session::new();
    s.request("one", Value::Null, "a").unwrap();
    s.request("two", Value::Null, "b").unwrap();
    let response = r#"{"jsonrpc":"2.0","id":2,"result":{"nonce":"n"}}"#;
    match s.incoming(response) {
        Incoming::Deliver(d) => {
            assert_eq!((d.id, d.waiter), (2, "b"));
            assert_eq!(d.outcome.unwrap(), value(r#"{"nonce":"n"}"#));
        }
        other => panic!("{other:?}"),
    }
    assert!(matches!(s.incoming(response), Incoming::Ignored));
    assert!(matches!(s.incoming(r#"{"id":1}"#), Incoming::Deliver(d)
        if d.waiter == "a" && d.outcome.as_ref().unwrap().is_null()));
}

#[test]
fn an_error_member_decides() {
    let cases = [
        (r#"{"id":1,"error":{"code":-3,"message":"no"},"result":1}"#, -3, "no"),
        (r#"{"id":1,"error":"down"}"#, -32603, "\"down\""),
        (r#"{"id":1,"error":null,"result":true}"#, -32603, "null"),
        (r#"{"id":1,"error":{"b":1, "a":[2]}}"#, -32603, r#"{"a":[2],"b":1}"#),
    ];
    for (response, code, message) in cases {
        let mut s = Session::new();
        s.request("m", Value::Null, "a").unwrap();
        match s.incoming(response) {
            Incoming::Deliver(d) => {
                let e = d.outcome.unwrap_err();
                assert_eq!((e.code, e.message.as_str()), (code, message));
            }
            other => panic!("{other:?}"),
        }
    }
}

#[test]
fn requests_and_notifications_are_dispatched() {
    let mut s = Session::new();
    match s.incoming(r#"{"jsonrpc":"2.0","id":1.5,"method":"chat.say","params":{"m":"hi"}}"#) {
        Incoming::Dispatch { method, params, id } => {
            assert_eq!(method, "chat.say");
            assert_eq!(params, value(r#"{"m":"hi"}"#));
            assert_eq!(id, Some(value("1.5")));
        }
        other => panic!("{other:?}"),
    }
    match s.incoming(r#"{"method":"x","id":null}"#) {
        Incoming::Dispatch { method, params, id } => {
            assert_eq!((method.as_str(), params, id), ("x", Value::Null, None));
        }
        other => panic!("{other:?}"),
    }
}

#[test]
fn what_means_nothing_is_ignored() {
    let mut s = Session::new();
    s.request("m", Value::Null, "a").unwrap();
    for text in ["", "{", "[1]", "\"method\"", "{}", r#"{"id":2}"#, r#"{"id":"1"}"#, r#"{"id":1.0}"#, r#"{"id":-1}"#, r#"{"method":7,"id":9}"#] {
        assert!(matches!(s.incoming(text), Incoming::Ignored), "{text}");
    }
    // The caller still waits.
    assert!(matches!(s.incoming(r#"{"id":1}"#), Incoming::Deliver(_)));
}

#[test]
fn replies_echo_the_id_and_notifications_get_none() {
    let reply = Session::reply(Some(value("\"seven\"")), Ok(Value::Bool(true))).unwrap();
    assert_eq!(sent(&reply), value(r#"{"jsonrpc":"2.0","id":"seven","result":true}"#));
    let reply = Session::reply(Some(value("100")), Err(RpcError::method_not_found("x"))).unwrap();
    assert_eq!(
        sent(&reply),
        value(r#"{"jsonrpc":"2.0","id":100,"error":{"code":-32601,"message":"Method not found: x"}}"#)
    );
    assert!(Session::reply(None, Ok(Value::Null)).is_none());
}

#[test]
fn two_sessions_understand_each_other() {
    let mut here = Session::new();
    let mut there = Session::new();
    let params = value(r#"{"text":"hé \"x\" \n","n":[1,-2,18446744073709551615]}"#);
    let request = here.request("chat.say", params.clone(), "caller").unwrap();
    let id = match there.incoming(&text(request.frame)) {
        Incoming::Dispatch { method, params: got, id } => {
            assert_eq!(method, "chat.say");
            assert_eq!(got, params);
            id
        }
        other => panic!("{other:?}"),
    };
    let error = RpcError { code: 4, message: "m".into(), data: Some(params.clone()) };
    let reply = Session::reply(id, Err(error)).unwrap();
    match here.incoming(&text(reply)) {
        Incoming::Deliver(d) => {
            assert_eq!(d.waiter, "caller");
            let e = d.outcome.unwrap_err();
            assert_eq!((e.code, e.message.as_str(), e.data), (4, "m", Some(params)));
        }
        other => panic!("{other:?}"),
    }
    match there.incoming(&text(here.notify("bye", value("[3]")))) {
        Incoming::Dispatch { method, params, id } => {
            assert_eq!((method.as_str(), params, id), ("bye", value("[3]"), None));
        }
        other => panic!("{other:?}"),
    }
}

#[test]
fn what_is_nested_as_deep_as_the_reader_goes_reads_back() {
    let mut s = Session::new();
    let nested = |depth: usize| value(&format!("{}{}", "[".repeat(depth), "]".repeat(depth)));
    let request = s.request("m", nested(126), "a").unwrap();
    assert!(matches!(Session::new().incoming(&text(request.frame)), Incoming::Dispatch { .. }));
    let request = s.request("m", nested(127), "b").unwrap();
    assert!(matches!(Session::new().incoming(&text(request.frame)), Incoming::Ignored));
}

#[test]
fn closing_tells_everyone_and_keeps_the_first_code() {
    let mut s = Session::new();
    assert_eq!(s.wait_closed(), None);
    s.request("a", Value::Null, "a").unwrap();
    s.request("b", Value::Null, "b").unwrap();
    let mut told = s.mark_closed(Some(4001));
    told.sort_by_key(|d| d.id);
    assert_eq!(told.iter().map(|d| (d.id, d.waiter)).collect::<Vec<_>>(), [(1, "a"), (2, "b")]);
    for d in told {
        let e = d.outcome.unwrap_err();
        assert_eq!((e.code, e.message.as_str()), (-32603, "WebSocket closed"));
        assert!(matches!(Session::settle(Some(Err(e))), Err(Error::Closed)));
    }
    assert!(s.terminate().is_empty());
    assert_eq!(s.wait_closed(), Some(Some(4001)));
    assert!(matches!(s.request("c", Value::Null, "c"), Err(Error::Closed)));
}

#[test]
fn callers_get_results_errors_or_closed() {
    assert_eq!(Session::settle(Some(Ok(value("[1]")))).unwrap(), value("[1]"));
    match Session::settle(Some(Err(RpcError::new(3, "no")))) {
        Err(Error::Rpc(e)) => assert_eq!((e.code, e.message.as_str()), (3, "no")),
        other => panic!("{other:?}"),
    }
    assert!(matches!(Session::settle(None), Err(Error::Closed)));
}

#[test]
fn the_reader_stops_with_the_close_code() {
    let mut s = Session::new();
    s.request("a", Value::Null, "a").unwrap();
    assert!(matches!(s.receive(Received::Other), Read::Continue));
    assert!(matches!(s.receive(Received::Text("nonsense".into())), Read::Incoming(Incoming::Ignored)));
    assert!(matches!(s.receive(Received::Close(Some(4000))), Read::Stop(told) if told.len() == 1));
    assert_eq!(s.wait_closed(), Some(Some(4000)));

    let mut s = Session::new();
    assert!(matches!(s.receive(Received::Lost), Read::Stop(told) if told.is_empty()));
    assert_eq!(s.wait_closed(), Some(None));
    assert_eq!(s.close(), Outbound::Close);
}

#[test]
fn the_watchdog_wants_pong() {
    assert_eq!((PING_EVERY_SECS, PING_TIMEOUT_SECS), (10, 5));
    assert_eq!(watchdog(&WatchdogEvent::Rested), WatchdogAction::Ping);
    assert_eq!(watchdog(&WatchdogEvent::Closed), WatchdogAction::Stop);
    let pinged = |r| watchdog(&WatchdogEvent::Pinged(r));
    assert_eq!(pinged(Some(Ok(value("\"pong\"")))), WatchdogAction::Rest);
    assert_eq!(pinged(Some(Ok(value(r#"{"pong":true}"#)))), WatchdogAction::Terminate);
    assert_eq!(pinged(Some(Ok(value("\"ping\"")))), WatchdogAction::Terminate);
    assert_eq!(pinged(Some(Err(Error::Closed))), WatchdogAction::Terminate);
    assert_eq!(pinged(None), WatchdogAction::Terminate);
}

#[test]
fn the_writer_drains_the_queue() {
    assert_eq!(writer(WriterEvent::Queued), WriterAction::Send);
    assert_eq!(writer(WriterEvent::Sent(true)), WriterAction::Wait);
    assert_eq!(writer(WriterEvent::Sent(false)), WriterAction::Finish);
    assert_eq!(writer(WriterEvent::QueueEnded), WriterAction::Finish);
    assert_eq!(writer(WriterEvent::Closed), WriterAction::Finish);
}
