//! Laws of a session.

use serde_json::Value;
use vstd::prelude::*;

use crate::error::{Error, RpcError};
use crate::json::{json, json_of_text, json_text, Json, Members};
use crate::laws::errors::{says, some_data};
use crate::laws::{holds, keys_are, spells};
use crate::ws::{
    notification, notification_json, ping_params, reply_json, request_json, watchdog, writer,
    CloseCode, Delivery, Incoming, Outbound, Outcome, Read, Received, Request, WatchdogAction,
    WatchdogEvent, WriterAction, WriterEvent, WsClient,
};

verus! {

proof fn lemma_keys()
    ensures
        "jsonrpc"@ != "id"@,
        "jsonrpc"@ != "method"@,
        "jsonrpc"@ != "params"@,
        "jsonrpc"@ != "result"@,
        "jsonrpc"@ != "error"@,
        "id"@ != "method"@,
        "id"@ != "params"@,
        "id"@ != "result"@,
        "id"@ != "error"@,
        "method"@ != "params"@,
{
    reveal_strlit("jsonrpc");
    reveal_strlit("id");
    reveal_strlit("method");
    reveal_strlit("params");
    reveal_strlit("result");
    reveal_strlit("error");
    assert("jsonrpc"@.len() == 7);
    assert("id"@.len() == 2);
    assert("error"@.len() == 5);
    assert("method"@.len() == 6);
    assert("method"@[0] != "params"@[0]);
}

/// A new session is open, has no callers, and counts from one.
pub proof fn a_new_session_is_open<W>(r: WsClient<W>)
    requires
        call_ensures(WsClient::<W>::new, (), r),
    ensures
        r@.closed is None,
        r@.next_id == 1,
        forall|id: u64| !#[trigger] r@.pending.contains_key(id),
{
}

/// `j` asks for `method` with `params` under `id`, and says nothing else.
pub open spec fn asks(j: Json, id: Json, method: Seq<char>, params: Json) -> bool {
    &&& keys_are(j, set!["jsonrpc"@, "id"@, "method"@, "params"@])
    &&& holds(j, "jsonrpc"@, Json::Str("2.0"@))
    &&& holds(j, "id"@, id)
    &&& holds(j, "method"@, Json::Str(method))
    &&& holds(j, "params"@, params)
}

/// `j` tells of `method` with `params`, without an id, and says nothing else.
pub open spec fn tells(j: Json, method: Seq<char>, params: Json) -> bool {
    &&& keys_are(j, set!["jsonrpc"@, "method"@, "params"@])
    &&& holds(j, "jsonrpc"@, Json::Str("2.0"@))
    &&& holds(j, "method"@, Json::Str(method))
    &&& holds(j, "params"@, params)
}

pub(crate) proof fn lemma_tells(method: Seq<char>, params: Json)
    ensures
        tells(notification_json(method, params), method, params),
{
    lemma_keys();
    assert(notification_json(method, params)->Object_0.dom() =~= set![
        "jsonrpc"@,
        "method"@,
        "params"@,
    ]);
}

/// A request on an open session is written out under the next id, whatever its
/// method and parameters, and its caller waits under that id; nobody else's
/// place changes.
pub proof fn an_open_session_sends_requests<W>(
    c: &mut WsClient<W>,
    method: &str,
    params: Value,
    waiter: W,
    r: Result<Request, Error>,
)
    requires
        call_ensures(WsClient::<W>::request, (c, method, params, waiter), r),
        old(c)@.closed is None,
    ensures
        r is Ok,
        r->Ok_0.id == old(c)@.next_id,
        exists|j: Json| #[trigger]
            spells(r->Ok_0.frame, j) && asks(
                j,
                Json::Int(old(c)@.next_id as int),
                method@,
                json(params),
            ),
        final(c)@.closed is None,
        final(c)@.next_id == if old(c)@.next_id == u64::MAX {
            0
        } else {
            old(c)@.next_id + 1
        },
        final(c)@.pending.contains_key(r->Ok_0.id),
        final(c)@.pending[r->Ok_0.id] == waiter,
        forall|id: u64|
            id != r->Ok_0.id ==> (#[trigger] final(c)@.pending.contains_key(id)
                <==> old(c)@.pending.contains_key(id)) && final(c)@.pending[id]
                == old(c)@.pending[id],
{
    lemma_keys();
    let j = request_json(old(c)@.next_id, method@, json(params));
    assert(j->Object_0.dom() =~= set!["jsonrpc"@, "id"@, "method"@, "params"@]);
    assert(spells(r->Ok_0.frame, j));
}

/// A session that is closed sends no request and stays as it is.
pub proof fn a_closed_session_sends_no_request<W>(
    c: &mut WsClient<W>,
    method: &str,
    params: Value,
    waiter: W,
    r: Result<Request, Error>,
)
    requires
        call_ensures(WsClient::<W>::request, (c, method, params, waiter), r),
        old(c)@.closed is Some,
    ensures
        r is Err,
        r->Err_0 is Closed,
        final(c)@ == old(c)@,
{
}

/// Two requests in a row go out under different ids.
pub proof fn requests_are_told_apart<W>(
    c: &mut WsClient<W>,
    d: &mut WsClient<W>,
    m1: &str,
    p1: Value,
    w1: W,
    a: Request,
    m2: &str,
    p2: Value,
    w2: W,
    b: Request,
)
    requires
        call_ensures(WsClient::<W>::request, (c, m1, p1, w1), Ok::<Request, Error>(a)),
        old(d)@ == final(c)@,
        call_ensures(WsClient::<W>::request, (d, m2, p2, w2), Ok::<Request, Error>(b)),
    ensures
        a.id != b.id,
{
}

/// A notification is written out without an id, whatever its method and
/// parameters.
pub proof fn notifications_have_no_id<W>(
    c: WsClient<W>,
    method: &str,
    params: Value,
    r: Outbound,
    s: Outbound,
)
    requires
        call_ensures(WsClient::<W>::notify, (&c, method, params), r),
        call_ensures(notification, (method, params), s),
    ensures
        exists|j: Json| #[trigger] spells(r, j) && tells(j, method@, json(params)),
        exists|j: Json| #[trigger] spells(s, j) && tells(j, method@, json(params)),
{
    lemma_tells(method@, json(params));
    let j = notification_json(method@, json(params));
    assert(spells(r, j));
    assert(spells(s, j));
}

/// `j` is the object of the error `e`.
pub open spec fn is_error(j: Json, e: RpcError) -> bool {
    &&& holds(j, "code"@, Json::Int(e.code as int))
    &&& holds(j, "message"@, Json::Str(e.message@))
    &&& e.data is None ==> keys_are(j, set!["code"@, "message"@])
    &&& e.data is Some ==> keys_are(j, set!["code"@, "message"@, "data"@]) && holds(
        j,
        "data"@,
        json(e.data->0),
    )
}

proof fn lemma_is_error(e: RpcError)
    ensures
        is_error(crate::error::error_json(e@), e),
{
    reveal_strlit("code");
    reveal_strlit("message");
    reveal_strlit("data");
    assert("message"@.len() == 7);
    assert("code"@.len() == 4);
    assert("data"@.len() == 4);
    assert("code"@[0] != "data"@[0]);
    let m = crate::error::error_json(e@)->Object_0;
    if e.data is Some {
        assert(m.dom() =~= set!["code"@, "message"@, "data"@]);
    } else {
        assert(m.dom() =~= set!["code"@, "message"@]);
    }
}

/// A request is answered under the id it came with, whatever that is, with its
/// result or its error, never both.
pub proof fn requests_are_answered_under_their_id<W>(
    id: Value,
    outcome: Outcome,
    r: Option<Outbound>,
)
    requires
        call_ensures(WsClient::<W>::reply, (Some(id), outcome), r),
    ensures
        r is Some,
        outcome matches Ok(v) ==> exists|j: Json| #[trigger]
            spells(r->0, j) && {
                &&& keys_are(j, set!["jsonrpc"@, "id"@, "result"@])
                &&& holds(j, "jsonrpc"@, Json::Str("2.0"@))
                &&& holds(j, "id"@, json(id))
                &&& holds(j, "result"@, json(v))
            },
        outcome matches Err(e) ==> exists|j: Json| #[trigger]
            spells(r->0, j) && {
                &&& keys_are(j, set!["jsonrpc"@, "id"@, "error"@])
                &&& holds(j, "jsonrpc"@, Json::Str("2.0"@))
                &&& holds(j, "id"@, json(id))
                &&& is_error(j->Object_0["error"@], e)
            },
{
    lemma_keys();
    let j = reply_json(json(id), crate::ws::outcome_view(outcome));
    assert(spells(r->0, j));
    match outcome {
        Ok(v) => {
            assert(j->Object_0.dom() =~= set!["jsonrpc"@, "id"@, "result"@]);
        },
        Err(e) => {
            lemma_is_error(e);
            assert(j->Object_0.dom() =~= set!["jsonrpc"@, "id"@, "error"@]);
        },
    }
}

/// What came without an id is not answered.
pub proof fn notifications_are_not_answered<W>(outcome: Outcome, r: Option<Outbound>)
    requires
        call_ensures(WsClient::<W>::reply, (None::<Value>, outcome), r),
    ensures
        r is None,
{
}

/// A caller gets the result that was answered.
pub proof fn a_result_is_what_the_caller_gets<W>(v: Value, r: Result<Value, Error>)
    requires
        call_ensures(WsClient::<W>::settle, (Some(Ok::<Value, RpcError>(v)),), r),
    ensures
        r is Ok,
        json(r->Ok_0) == json(v),
{
}

/// A caller gets the error object that was answered, with its code, its message
/// and its data, unless it says that the socket closed.
pub proof fn an_error_is_what_the_caller_gets<W>(e: RpcError, r: Result<Value, Error>)
    requires
        call_ensures(WsClient::<W>::settle, (Some(Err::<Value, RpcError>(e)),), r),
        e.message@ != "WebSocket closed"@,
    ensures
        r is Err,
        r->Err_0 is Rpc,
        r->Err_0->Rpc_0.code == e.code,
        r->Err_0->Rpc_0.message@ == e.message@,
        r->Err_0->Rpc_0.data is Some <==> e.data is Some,
        e.data is Some ==> json(r->Err_0->Rpc_0.data->0) == json(e.data->0),
{
}

/// A caller is told that the connection closed when no answer ever comes, or
/// when the answer says so, and in no other case.
pub proof fn closed_is_for_closed_sockets<W>(answer: Option<Outcome>, r: Result<Value, Error>)
    requires
        call_ensures(WsClient::<W>::settle, (answer,), r),
    ensures
        (r is Err && r->Err_0 is Closed) <==> {
            ||| answer is None
            ||| answer->0 is Err && answer->0->Err_0.message@ == "WebSocket closed"@
        },
{
}

/// A text that is no JSON object means nothing and changes nothing.
pub proof fn only_objects_mean_something<W>(c: &mut WsClient<W>, text: &str, r: Incoming<W>)
    requires
        call_ensures(WsClient::<W>::incoming, (c, text), r),
        json_of_text(text@) is None || !(json_of_text(text@)->0 is Object),
    ensures
        r is Ignored,
        final(c)@ == old(c)@,
{
}

/// A text that names a method is a call of that method, with the parameters it
/// gives, or `null`, and under the id it gives, if that is not `null`. Nobody's
/// waiting ends with it.
pub proof fn a_method_makes_a_call<W>(
    c: &mut WsClient<W>,
    text: &str,
    m: Members,
    method: Seq<char>,
    r: Incoming<W>,
)
    requires
        call_ensures(WsClient::<W>::incoming, (c, text), r),
        json_of_text(text@) == Some(Json::Object(m)),
        m.contains_key("method"@),
        m["method"@] == Json::Str(method),
    ensures
        r is Dispatch,
        r->Dispatch_method@ == method,
        json(r->Dispatch_params) == if m.contains_key("params"@) {
            m["params"@]
        } else {
            Json::Null
        },
        r->Dispatch_id is Some <==> m.contains_key("id"@) && !(m["id"@] is Null),
        r->Dispatch_id is Some ==> json(r->Dispatch_id->0) == m["id"@],
        final(c)@ == old(c)@,
{
}

/// A text without a method, under the id of a caller that waits, is that
/// caller's answer: its `error`, if there is one, or else its `result`, or
/// `null`. That caller waits no more; the others do.
pub proof fn an_answer_goes_to_who_waits_for_it<W>(
    c: &mut WsClient<W>,
    text: &str,
    m: Members,
    id: u64,
    r: Incoming<W>,
)
    requires
        call_ensures(WsClient::<W>::incoming, (c, text), r),
        json_of_text(text@) == Some(Json::Object(m)),
        !(m.contains_key("method"@) && m["method"@] is Str),
        m.contains_key("id"@),
        m["id"@] == Json::Int(id as int),
        old(c)@.pending.contains_key(id),
    ensures
        r is Deliver,
        r->Deliver_0.id == id,
        r->Deliver_0.waiter == old(c)@.pending[id],
        !m.contains_key("error"@) ==> r->Deliver_0.outcome is Ok,
        !m.contains_key("error"@) ==> json(r->Deliver_0.outcome->Ok_0) == if m.contains_key(
            "result"@,
        ) {
            m["result"@]
        } else {
            Json::Null
        },
        m.contains_key("error"@) ==> r->Deliver_0.outcome is Err,
        m.contains_key("error"@) ==> reports(m["error"@], r->Deliver_0.outcome->Err_0),
        final(c)@.closed == old(c)@.closed,
        final(c)@.next_id == old(c)@.next_id,
        !final(c)@.pending.contains_key(id),
        forall|other: u64|
            other != id ==> (#[trigger] final(c)@.pending.contains_key(other)
                <==> old(c)@.pending.contains_key(other)) && final(c)@.pending[other]
                == old(c)@.pending[other],
{
}

/// `e` is what the `error` of an answer says: the error object that it spells,
/// as an object or by position, or else an internal error with its text.
pub open spec fn reports(j: Json, e: RpcError) -> bool {
    let object = j is Object && {
        let m = j->Object_0;
        &&& m.contains_key("code"@) && m["code"@] is Int
        &&& i64::MIN <= m["code"@]->Int_0 <= i64::MAX
        &&& m.contains_key("message"@) && m["message"@] is Str
    };
    let array = j is Array && {
        let s = j->Array_0;
        &&& s.len() == 3 && s[0] is Int && s[1] is Str
        &&& i64::MIN <= s[0]->Int_0 <= i64::MAX
    };
    &&& object ==> says(
        e,
        j->Object_0["code"@]->Int_0,
        j->Object_0["message"@]->Str_0,
        if j->Object_0.contains_key("data"@) {
            some_data(j->Object_0["data"@])
        } else {
            None
        },
    )
    &&& array ==> says(
        e,
        j->Array_0[0]->Int_0,
        j->Array_0[1]->Str_0,
        some_data(j->Array_0[2]),
    )
    &&& !object && !array ==> says(e, -32603, json_text(j), None)
}

/// A text without a method that bears no waiting caller's id means nothing and
/// changes nothing.
pub proof fn other_answers_mean_nothing<W>(
    c: &mut WsClient<W>,
    text: &str,
    m: Members,
    r: Incoming<W>,
)
    requires
        call_ensures(WsClient::<W>::incoming, (c, text), r),
        json_of_text(text@) == Some(Json::Object(m)),
        !(m.contains_key("method"@) && m["method"@] is Str),
        forall|id: u64| #[trigger]
            old(c)@.pending.contains_key(id) ==> !(m.contains_key("id"@) && m["id"@] == Json::Int(
                id as int,
            )),
    ensures
        r is Ignored,
        final(c)@ == old(c)@,
{
    if m.contains_key("id"@) {
        if let Json::Int(n) = m["id"@] {
            if 0 <= n <= u64::MAX {
                assert(!old(c)@.pending.contains_key(n as u64));
            }
        }
    }
}

/// A message as a value, and a text that the reader takes from the socket, mean
/// what the same message means as a text.
pub proof fn every_way_in_means_the_same<W>(
    c: &mut WsClient<W>,
    text: &str,
    r: Incoming<W>,
    d: &mut WsClient<W>,
    msg: Value,
    s: Incoming<W>,
    e: &mut WsClient<W>,
    owned: String,
    t: Read<W>,
)
    requires
        call_ensures(WsClient::<W>::incoming, (c, text), r),
        json_of_text(text@) == Some(json(msg)),
        old(d)@ == old(c)@,
        call_ensures(WsClient::<W>::incoming_value, (d, &msg), s),
        old(e)@ == old(c)@,
        owned@ == text@,
        call_ensures(WsClient::<W>::receive, (e, Received::Text(owned)), t),
    ensures
        s@ == r@,
        final(d)@ == final(c)@,
        t is Incoming,
        t->Incoming_0@ == r@,
        final(e)@ == final(c)@,
{
}

/// The reader takes in every text, JSON or not, as `incoming` does.
pub proof fn the_reader_takes_in_texts<W>(
    c: &mut WsClient<W>,
    text: &str,
    r: Incoming<W>,
    e: &mut WsClient<W>,
    owned: String,
    t: Read<W>,
)
    requires
        call_ensures(WsClient::<W>::incoming, (c, text), r),
        old(e)@ == old(c)@,
        owned@ == text@,
        call_ensures(WsClient::<W>::receive, (e, Received::Text(owned)), t),
    ensures
        t is Incoming,
        t->Incoming_0@ == r@,
        final(e)@ == final(c)@,
{
}

/// Every caller in `pending`, and nobody else, is told just once that the socket
/// closed.
pub open spec fn everybody_is_told<W>(pending: Map<u64, W>, told: Seq<Delivery<W>>) -> bool {
    &&& forall|i: int, j: int|
        0 <= i < told.len() && 0 <= j < told.len() && i != j ==> (#[trigger] told[i]).id != (
        #[trigger] told[j]).id
    &&& forall|id: u64| #[trigger]
        pending.contains_key(id) ==> exists|i: int| 0 <= i < told.len() && (#[trigger] told[i]).id == id
    &&& forall|i: int|
        0 <= i < told.len() ==> {
            &&& pending.contains_key((#[trigger] told[i]).id)
            &&& told[i].waiter == pending[told[i].id]
            &&& told[i].outcome is Err
            &&& says(told[i].outcome->Err_0, -32603, "WebSocket closed"@, None)
        }
}

/// Closing an open session puts the code down; closing it again leaves the first
/// code. Either way everybody is told and nobody waits any more.
pub proof fn closing_puts_the_first_code_down<W>(
    c: &mut WsClient<W>,
    code: CloseCode,
    r: Vec<Delivery<W>>,
)
    requires
        call_ensures(WsClient::<W>::mark_closed, (c, code), r),
    ensures
        final(c)@.closed == if old(c)@.closed is None {
            Some(code)
        } else {
            old(c)@.closed
        },
        final(c)@.next_id == old(c)@.next_id,
        forall|id: u64| !#[trigger] final(c)@.pending.contains_key(id),
        everybody_is_told(old(c)@.pending, r@),
{
}

/// Terminating closes the session without a code.
pub proof fn terminating_closes_without_a_code<W>(c: &mut WsClient<W>, r: Vec<Delivery<W>>)
    requires
        call_ensures(WsClient::<W>::terminate, (c,), r),
    ensures
        final(c)@.closed == if old(c)@.closed is None {
            Some(None::<u16>)
        } else {
            old(c)@.closed
        },
        final(c)@.next_id == old(c)@.next_id,
        forall|id: u64| !#[trigger] final(c)@.pending.contains_key(id),
        everybody_is_told(old(c)@.pending, r@),
{
}

/// The reader stops, and closes the session, at a close frame, with the frame's
/// code, and when the stream is lost, without a code. At a frame that carries no
/// message it goes on, and nothing changes.
pub proof fn the_reader_closes_the_session<W>(
    c: &mut WsClient<W>,
    event: Received,
    r: Read<W>,
    code: CloseCode,
)
    requires
        call_ensures(WsClient::<W>::receive, (c, event), r),
        event == Received::Close(code) || event is Lost && code is None || event is Other,
    ensures
        event is Other ==> r is Continue && final(c)@ == old(c)@,
        !(event is Other) ==> {
            &&& r is Stop
            &&& everybody_is_told(old(c)@.pending, r->Stop_0@)
            &&& final(c)@.closed == if old(c)@.closed is None {
                Some(code)
            } else {
                old(c)@.closed
            }
            &&& final(c)@.next_id == old(c)@.next_id
            &&& forall|id: u64| !#[trigger] final(c)@.pending.contains_key(id)
        },
{
}

/// From closing to the caller: each that waited gets `Closed`.
pub proof fn who_waited_gets_closed<W>(
    c: &mut WsClient<W>,
    code: CloseCode,
    told: Vec<Delivery<W>>,
    i: int,
    r: Result<Value, Error>,
)
    requires
        call_ensures(WsClient::<W>::mark_closed, (c, code), told),
        0 <= i < told@.len(),
        call_ensures(WsClient::<W>::settle, (Some(told@[i].outcome),), r),
    ensures
        r is Err,
        r->Err_0 is Closed,
{
}

/// Whether and how the session was closed can be asked; a polite close is a
/// close frame.
pub proof fn closing_can_be_asked<W>(c: WsClient<W>, r: Option<CloseCode>, frame: Outbound)
    requires
        call_ensures(WsClient::<W>::wait_closed, (&c,), r),
        call_ensures(WsClient::<W>::close, (&c,), frame),
    ensures
        r == c@.closed,
        frame is Close,
{
}

/// The writer sends what is queued, waits for more as long as sending works, and
/// finishes in every other case.
pub proof fn the_writer_sends_while_it_can(event: WriterEvent, r: WriterAction)
    requires
        call_ensures(writer, (event,), r),
    ensures
        r is Send <==> event is Queued,
        r is Wait <==> event == WriterEvent::Sent(true),
        r is Finish <==> !(event is Queued) && event != WriterEvent::Sent(true),
{
}

/// The watchdog rests again exactly when a ping was answered "pong", pings when
/// it has rested, stops when the session closed, and drops the link otherwise.
pub proof fn the_watchdog_wants_its_pong(event: WatchdogEvent, r: WatchdogAction)
    requires
        call_ensures(watchdog, (&event,), r),
    ensures
        r is Ping <==> event is Rested,
        r is Stop <==> event is Closed,
        r is Rest <==> {
            &&& event is Pinged
            &&& event->Pinged_0 is Some
            &&& event->Pinged_0->0 is Ok
            &&& json(event->Pinged_0->0->Ok_0) == Json::Str("pong"@)
        },
        r is Terminate <==> !(r is Ping) && !(r is Stop) && !(r is Rest),
{
}

/// A ping has an empty object for parameters.
pub proof fn a_ping_has_no_parameters(r: Value)
    requires
        call_ensures(ping_params, (), r),
    ensures
        keys_are(json(r), Set::empty()),
{
    assert(json(r)->Object_0.dom() =~= Set::empty());
}

} // verus!
