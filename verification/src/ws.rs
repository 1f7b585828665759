//! One JSON-RPC 2.0 session: which requests wait for an answer, what an inbound
//! text means, what is written in return, and when the link counts as dead.
//!
//! A session is generic in `W`, the handle through which a waiting caller is
//! answered. Frames to send come back as `Outbound` values.

use std::collections::HashMap;

use serde_json::Value;
use vstd::prelude::*;

use crate::error::{
    error_json, error_of_json, error_reads_back, internal_error, Error, ErrorView, RpcError,
    RpcErrorView,
};
use crate::json::{
    field, fits, get_field, json, json_of_text, json_opt, json_text, null_value, object_value,
    or_null, read_text, reads_back, str_field, string_value, text_of, u64_value, write_text, Json, Members,
};
use crate::text::same;

verus! {

broadcast use vstd::std_specs::hash::group_hash_axioms;

/// WebSocket close code, `None` when the socket died without a close frame.
pub type CloseCode = Option<u16>;

/// How long the watchdog rests between two pings.
pub const PING_EVERY_SECS: u64 = 10;

/// How long a ping may take to be answered.
pub const PING_TIMEOUT_SECS: u64 = 5;

/// A frame to send.
#[derive(Debug, PartialEq, Eq)]
pub enum Outbound {
    Text(String),
    /// A close frame without a code.
    Close,
}

/// What a request came to: a result or an error object.
pub type Outcome = Result<Value, RpcError>;

/// The content of an `Outcome`.
pub type OutcomeView = Result<Json, RpcErrorView>;

/// The content of an `Outcome`.
pub open spec fn outcome_view(r: Outcome) -> OutcomeView {
    match r {
        Ok(v) => Ok(json(v)),
        Err(e) => Err(e@),
    }
}

/// `frame` is the text of `j`, and a reader that gets it reads `j` back.
pub open spec fn carries(frame: Outbound, j: Json) -> bool {
    &&& frame is Text
    &&& frame->Text_0@ == json_text(j)
    &&& reads_back(j) ==> json_of_text(frame->Text_0@) == Some(j)
}

/// A request on the wire.
pub open spec fn request_json(id: u64, method: Seq<char>, params: Json) -> Json {
    Json::Object(
        Members::empty().insert("jsonrpc"@, Json::Str("2.0"@)).insert(
            "id"@,
            Json::Int(id as int),
        ).insert("method"@, Json::Str(method)).insert("params"@, params),
    )
}

/// A notification on the wire: a request without an id.
pub open spec fn notification_json(method: Seq<char>, params: Json) -> Json {
    Json::Object(
        Members::empty().insert("jsonrpc"@, Json::Str("2.0"@)).insert(
            "method"@,
            Json::Str(method),
        ).insert("params"@, params),
    )
}

/// The answer to the request with the given id.
pub open spec fn reply_json(id: Json, outcome: OutcomeView) -> Json {
    let m = Members::empty().insert("jsonrpc"@, Json::Str("2.0"@)).insert("id"@, id);
    Json::Object(
        match outcome {
            Ok(result) => m.insert("result"@, result),
            Err(e) => m.insert("error"@, error_json(e)),
        },
    )
}

fn frame(v: &Value) -> (r: Outbound)
    ensures
        carries(r, json(*v)),
{
    Outbound::Text(write_text(v))
}

fn versioned() -> (r: serde_json::Map<String, Value>)
    ensures
        crate::json::members(r) == Members::empty().insert("jsonrpc"@, Json::Str("2.0"@)),
{
    let mut m = serde_json::Map::new();
    m.insert("jsonrpc".to_owned(), string_value("2.0".to_owned()));
    m
}

/// The frame of a notification.
pub fn notification(method: &str, params: Value) -> (r: Outbound)
    ensures
        carries(r, notification_json(method@, json(params))),
{
    let mut m = versioned();
    m.insert("method".to_owned(), string_value(method.to_owned()));
    m.insert("params".to_owned(), params);
    frame(&object_value(m))
}

/// An answer on its way to the caller that waits for it.
#[derive(Debug)]
pub struct Delivery<W> {
    pub id: u64,
    pub waiter: W,
    pub outcome: Outcome,
}

/// What an inbound text asks for.
#[derive(Debug)]
pub enum Incoming<W> {
    /// Nothing: no JSON, or an answer that nobody waits for.
    Ignored,
    /// Serve the method, then `reply` under this id.
    Dispatch { method: String, params: Value, id: Option<Value> },
    /// Answer a caller.
    Deliver(Delivery<W>),
}

/// The content of an `Incoming`.
pub enum IncomingView<W> {
    Ignored,
    Dispatch { method: Seq<char>, params: Json, id: Option<Json> },
    Deliver { to: u64, waiter: W, outcome: OutcomeView },
}

impl<W> View for Incoming<W> {
    type V = IncomingView<W>;

    open spec fn view(&self) -> IncomingView<W> {
        match *self {
            Incoming::Ignored => IncomingView::Ignored,
            Incoming::Dispatch { method, params, id } => IncomingView::Dispatch {
                method: method@,
                params: json(params),
                id: json_opt(id),
            },
            Incoming::Deliver(d) => IncomingView::Deliver {
                to: d.id,
                waiter: d.waiter,
                outcome: outcome_view(d.outcome),
            },
        }
    }
}

/// The outcome that a response carries. An `error` member decides, even one
/// that is no error object: that becomes an internal error with its text.
pub open spec fn outcome_of(msg: Json) -> OutcomeView {
    match field(msg, "error"@) {
        Some(e) => Err(
            match error_of_json(e) {
                Some(e) => e,
                None => internal_error(json_text(e)),
            },
        ),
        None => Ok(or_null(field(msg, "result"@))),
    }
}

/// The id under which a message may answer a request.
pub open spec fn answers(msg: Json) -> Option<u64> {
    match field(msg, "id"@) {
        Some(Json::Int(n)) => if 0 <= n <= u64::MAX {
            Some(n as u64)
        } else {
            None
        },
        _ => None,
    }
}

/// What a message means to a session with these callers waiting. A string
/// `method` makes it a request (or, without an id, a notification); else a
/// known id makes it a response; else it means nothing.
pub open spec fn meaning<W>(pending: Map<u64, W>, msg: Option<Json>) -> IncomingView<W> {
    match msg {
        None => IncomingView::Ignored,
        Some(msg) => match text_of(field(msg, "method"@)) {
            Some(method) => IncomingView::Dispatch {
                method,
                params: or_null(field(msg, "params"@)),
                id: if field(msg, "id"@) == Some(Json::Null) {
                    None
                } else {
                    field(msg, "id"@)
                },
            },
            None => match answers(msg) {
                Some(id) => if pending.contains_key(id) {
                    IncomingView::Deliver { to: id, waiter: pending[id], outcome: outcome_of(msg) }
                } else {
                    IncomingView::Ignored
                },
                None => IncomingView::Ignored,
            },
        },
    }
}

/// A request that was sent: its id and its frame.
#[derive(Debug)]
pub struct Request {
    pub id: u64,
    pub frame: Outbound,
}

/// What came from the socket.
#[derive(Debug)]
pub enum Received {
    Text(String),
    Close(CloseCode),
    /// A frame that carries no message (binary, ping, pong).
    Other,
    /// The stream failed or ended.
    Lost,
}

/// What the reader does next.
#[derive(Debug)]
pub enum Read<W> {
    Incoming(Incoming<W>),
    Continue,
    /// The session is over: answer these callers and stop reading.
    Stop(Vec<Delivery<W>>),
}

/// One JSON-RPC 2.0 session.
pub struct WsClient<W> {
    pending: HashMap<u64, W>,
    next_id: u64,
    // `None` while open, `Some(code)` once closed.
    closed: Option<CloseCode>,
}

/// The state of a session.
pub struct WsState<W> {
    /// Who waits for an answer, by request id.
    pub pending: Map<u64, W>,
    pub next_id: u64,
    pub closed: Option<CloseCode>,
}

impl<W> View for WsClient<W> {
    type V = WsState<W>;

    closed spec fn view(&self) -> WsState<W> {
        WsState { pending: self.pending@, next_id: self.next_id, closed: self.closed }
    }
}

/// The state after a text with this meaning was taken in.
pub open spec fn after_message<W>(s: WsState<W>, m: IncomingView<W>) -> WsState<W> {
    match m {
        IncomingView::Deliver { to, waiter, outcome } => WsState {
            pending: s.pending.remove(to),
            ..s
        },
        _ => s,
    }
}

/// The state after the session was closed with `code`: the first code stays.
pub open spec fn after_close<W>(s: WsState<W>, code: CloseCode) -> WsState<W> {
    WsState {
        pending: Map::empty(),
        next_id: s.next_id,
        closed: if s.closed is Some {
            s.closed
        } else {
            Some(code)
        },
    }
}

/// The state after a request was sent.
pub open spec fn after_request<W>(s: WsState<W>, waiter: W) -> WsState<W> {
    WsState {
        pending: s.pending.insert(s.next_id, waiter),
        next_id: if s.next_id < u64::MAX {
            (s.next_id + 1) as u64
        } else {
            0
        },
        closed: s.closed,
    }
}

/// Each caller in `pending` is answered exactly once, and told that the socket
/// closed.
pub open spec fn tells_all_closed<W>(pending: Map<u64, W>, out: Seq<Delivery<W>>) -> bool {
    &&& forall|i: int, j: int| 0 <= i < j < out.len() ==> out[i].id != out[j].id
    &&& forall|i: int|
        0 <= i < out.len() ==> {
            &&& pending.contains_key((#[trigger] out[i]).id)
            &&& out[i].waiter == pending[out[i].id]
            &&& outcome_view(out[i].outcome) == Err::<Json, RpcErrorView>(
                internal_error("WebSocket closed"@),
            )
        }
    &&& forall|id: u64| #[trigger]
        pending.contains_key(id) ==> exists|i: int| 0 <= i < out.len() && (#[trigger] out[i]).id == id
}

impl<W> WsClient<W> {
    /// An open session without callers. Ids count from one.
    pub fn new() -> (r: Self)
        ensures
            r@ == (WsState::<W> { pending: Map::empty(), next_id: 1, closed: None }),
    {
        WsClient { pending: HashMap::new(), next_id: 1, closed: None }
    }

    /// Send a request; `waiter` is answered when the response comes. Refused
    /// once the session is closed.
    pub fn request(&mut self, method: &str, params: Value, waiter: W) -> (r: Result<Request, Error>)
        ensures
            match r {
                Ok(sent) => {
                    &&& old(self)@.closed is None
                    &&& sent.id == old(self)@.next_id
                    &&& carries(sent.frame, request_json(sent.id, method@, json(params)))
                    &&& final(self)@ == after_request(old(self)@, waiter)
                },
                Err(e) => {
                    &&& old(self)@.closed is Some
                    &&& e@ == ErrorView::Closed
                    &&& final(self)@ == old(self)@
                },
            },
    {
        if self.closed.is_some() {
            return Err(Error::Closed);
        }
        let id: u64 = self.next_id;
        self.next_id = id.wrapping_add(1);
        self.pending.insert(id, waiter);
        let mut m = versioned();
        m.insert("id".to_owned(), u64_value(id));
        m.insert("method".to_owned(), string_value(method.to_owned()));
        m.insert("params".to_owned(), params);
        let frame = frame(&object_value(m));
        Ok(Request { id, frame })
    }

    /// What a caller gets in the end, from the answer that reached it; `None`
    /// when none ever will. An error that says the socket closed is `Closed`.
    pub fn settle(answer: Option<Outcome>) -> (r: Result<Value, Error>)
        ensures
            result_view(r) == settled(answer_view(answer)),
    {
        match answer {
            Some(Ok(value)) => Ok(value),
            Some(Err(err)) => if same(err.message.as_str(), "WebSocket closed") {
                Err(Error::Closed)
            } else {
                Err(Error::Rpc(err))
            },
            None => Err(Error::Closed),
        }
    }

    /// A notification: a request that gets no answer.
    pub fn notify(&self, method: &str, params: Value) -> (r: Outbound)
        ensures
            carries(r, notification_json(method@, json(params))),
    {
        notification(method, params)
    }

    /// Take in a text from the peer: a request to serve, an answer to hand on,
    /// or nothing.
    pub fn incoming(&mut self, text: &str) -> (r: Incoming<W>)
        ensures
            r@ == meaning(old(self)@.pending, json_of_text(text@)),
            final(self)@ == after_message(old(self)@, r@),
    {
        let msg: Value = match read_text(text) {
            Some(msg) => msg,
            None => {
                return Incoming::Ignored;
            },
        };
        self.incoming_value(&msg)
    }

    /// Take in a message from the peer.
    pub fn incoming_value(&mut self, msg: &Value) -> (r: Incoming<W>)
        ensures
            r@ == meaning(old(self)@.pending, Some(json(*msg))),
            final(self)@ == after_message(old(self)@, r@),
    {
        if let Some(method) = str_field(msg, "method") {
            let id: Option<Value> = match get_field(msg, "id") {
                Some(id) => if id.is_null() {
                    None
                } else {
                    Some(id.clone())
                },
                None => None,
            };
            let params: Value = match get_field(msg, "params") {
                Some(params) => params.clone(),
                None => null_value(),
            };
            return Incoming::Dispatch { method: method.to_owned(), params, id };
        }
        let id: u64 = match get_field(msg, "id") {
            Some(id) => match id.as_u64() {
                Some(id) => id,
                None => {
                    return Incoming::Ignored;
                },
            },
            None => {
                return Incoming::Ignored;
            },
        };
        let waiter: W = match self.pending.remove(&id) {
            Some(waiter) => waiter,
            None => {
                assert(self@.pending =~= old(self)@.pending);
                return Incoming::Ignored;
            },
        };
        let outcome: Outcome = match get_field(msg, "error") {
            Some(err) => Err(
                match RpcError::from_json(err) {
                    Some(e) => e,
                    None => RpcError::internal(write_text(err).as_str()),
                },
            ),
            None => Ok(
                match get_field(msg, "result") {
                    Some(result) => result.clone(),
                    None => null_value(),
                },
            ),
        };
        Incoming::Deliver(Delivery { id, waiter, outcome })
    }

    /// The answer to a request that was served. Notifications get none.
    pub fn reply(id: Option<Value>, outcome: Outcome) -> (r: Option<Outbound>)
        ensures
            match id {
                Some(id) => r is Some && carries(
                    r->0,
                    reply_json(json(id), outcome_view(outcome)),
                ),
                None => r is None,
            },
    {
        let id: Value = match id {
            Some(id) => id,
            None => {
                return None;
            },
        };
        let mut m = versioned();
        m.insert("id".to_owned(), id);
        match outcome {
            Ok(result) => {
                m.insert("result".to_owned(), result);
            },
            Err(e) => {
                m.insert("error".to_owned(), e.to_json());
            },
        }
        Some(frame(&object_value(m)))
    }

    /// The session is over. The first close code is kept, and every caller that
    /// still waits is told.
    pub fn mark_closed(&mut self, code: CloseCode) -> (r: Vec<Delivery<W>>)
        ensures
            final(self)@ == after_close(old(self)@, code),
            tells_all_closed(old(self)@.pending, r@),
    {
        if self.closed.is_none() {
            self.closed = Some(code);
        }
        let mut ids: Vec<u64> = Vec::new();
        for id in it: self.pending.keys()
            invariant
                ids@.len() == it.index(),
                forall|k: int| 0 <= k < ids@.len() ==> ids@[k] == *it.seq()[k],
        {
            ids.push(*id);
        }
        proof {
            let keys = self.pending@.dom();
            let seen = vstd::std_specs::iter::IteratorSpec::remaining(
                &vstd::std_specs::hash::spec_keys_iter(&self.pending),
            );
            assert(ids@ =~= seen.unref());
            assert forall|k: u64| keys.contains(k) <==> ids@.contains(k) by {
                assert(ids@.to_set().contains(k) <==> ids@.contains(k));
            }
            assert forall|i: int, j: int| 0 <= i < j < ids@.len() implies ids@[i] != ids@[j] by {
                assert(seen[i] != seen[j]);
            }
        }
        let ghost pending = old(self)@.pending;
        let mut out: Vec<Delivery<W>> = Vec::new();
        let n: usize = ids.len();
        let mut i: usize = 0;
        while i < n
            invariant
                i <= n,
                n == ids@.len(),
                out@.len() == i,
                forall|a: int, b: int| 0 <= a < b < n ==> ids@[a] != ids@[b],
                forall|k: u64| pending.contains_key(k) <==> ids@.contains(k),
                forall|k: int| 0 <= k < i ==> (#[trigger] out@[k]).id == ids@[k],
                forall|k: int|
                    0 <= k < i ==> (#[trigger] out@[k]).waiter == pending[out@[k].id]
                        && outcome_view(out@[k].outcome) == Err::<Json, RpcErrorView>(
                        internal_error("WebSocket closed"@),
                    ),
                forall|k: u64| #[trigger]
                    self.pending@.contains_key(k) ==> pending.contains_key(k) && self.pending@[k]
                        == pending[k],
                forall|k: int| i <= k < n ==> self.pending@.contains_key(#[trigger] ids@[k]),
                forall|k: int| 0 <= k < i ==> !self.pending@.contains_key(#[trigger] ids@[k]),
                self.next_id == old(self)@.next_id,
                self.closed == after_close(old(self)@, code).closed,
            decreases n - i,
        {
            let id: u64 = ids[i];
            match self.pending.remove(&id) {
                Some(waiter) => {
                    out.push(
                        Delivery { id, waiter, outcome: Err(RpcError::internal("WebSocket closed")) },
                    );
                },
                None => {},
            }
            i = i + 1;
        }
        proof {
            assert(self.pending@ =~= Map::empty()) by {
                assert forall|k: u64| !self.pending@.contains_key(k) by {
                    if self.pending@.contains_key(k) {
                        assert(ids@.contains(k));
                    }
                }
            }
            assert forall|id: u64| #[trigger] pending.contains_key(id) implies exists|i: int|
                0 <= i < out@.len() && (#[trigger] out@[i]).id == id by {
                assert(ids@.contains(id));
                let i = choose|i: int| 0 <= i < ids@.len() && ids@[i] == id;
                assert(out@[i].id == id);
            }
            assert forall|i: int| 0 <= i < out@.len() implies pending.contains_key(
                (#[trigger] out@[i]).id,
            ) by {
                assert(ids@.contains(ids@[i]));
            }
        }
        out
    }

    /// Drop the link now: the session closes without a code.
    pub fn terminate(&mut self) -> (r: Vec<Delivery<W>>)
        ensures
            final(self)@ == after_close(old(self)@, None),
            tells_all_closed(old(self)@.pending, r@),
    {
        self.mark_closed(None)
    }

    /// Polite close: a close frame; the peer may finish.
    pub fn close(&self) -> (r: Outbound)
        ensures
            r == Outbound::Close,
    {
        Outbound::Close
    }

    /// The close code once the session is over, `None` while it is open.
    pub fn wait_closed(&self) -> (r: Option<CloseCode>)
        ensures
            r == self@.closed,
    {
        self.closed
    }

    /// What the reader does with what came from the socket.
    pub fn receive(&mut self, event: Received) -> (r: Read<W>)
        ensures
            match event {
                Received::Text(text) => {
                    &&& r is Incoming
                    &&& r->Incoming_0@ == meaning(old(self)@.pending, json_of_text(text@))
                    &&& final(self)@ == after_message(old(self)@, r->Incoming_0@)
                },
                Received::Close(code) => {
                    &&& r is Stop
                    &&& tells_all_closed(old(self)@.pending, r->Stop_0@)
                    &&& final(self)@ == after_close(old(self)@, code)
                },
                Received::Other => r is Continue && final(self)@ == old(self)@,
                Received::Lost => {
                    &&& r is Stop
                    &&& tells_all_closed(old(self)@.pending, r->Stop_0@)
                    &&& final(self)@ == after_close(old(self)@, None)
                },
            },
    {
        match event {
            Received::Text(text) => Read::Incoming(self.incoming(text.as_str())),
            Received::Close(code) => Read::Stop(self.mark_closed(code)),
            Received::Other => Read::Continue,
            Received::Lost => Read::Stop(self.mark_closed(None)),
        }
    }
}

/// The content of an answer.
pub open spec fn answer_view(answer: Option<Outcome>) -> Option<OutcomeView> {
    match answer {
        Some(r) => Some(outcome_view(r)),
        None => None,
    }
}

/// The content of what a request returns.
pub open spec fn result_view(r: Result<Value, Error>) -> Result<Json, ErrorView> {
    match r {
        Ok(v) => Ok(json(v)),
        Err(e) => Err(e@),
    }
}

/// What a caller gets for an answer.
pub open spec fn settled(answer: Option<OutcomeView>) -> Result<Json, ErrorView> {
    match answer {
        Some(Ok(value)) => Ok(value),
        Some(Err(e)) => if e.message == "WebSocket closed"@ {
            Err(ErrorView::Closed)
        } else {
            Err(ErrorView::Rpc(e))
        },
        None => Err(ErrorView::Closed),
    }
}

/// What happened to the writer.
#[derive(Debug, Clone, Copy, PartialEq, Eq, Structural)]
pub enum WriterEvent {
    /// A frame came from the queue.
    Queued,
    /// Whether the frame could be sent.
    Sent(bool),
    /// No more frames will be queued.
    QueueEnded,
    /// The session closed.
    Closed,
}

/// What the writer does next.
#[derive(Debug, Clone, Copy, PartialEq, Eq, Structural)]
pub enum WriterAction {
    /// Wait for a frame, unless the session closes.
    Wait,
    /// Send the frame.
    Send,
    /// Close the socket and stop.
    Finish,
}

/// The writer's decision: it drains the queue until a frame cannot be sent, no
/// more can come, or the session closes.
pub fn writer(event: WriterEvent) -> (r: WriterAction)
    ensures
        r == match event {
            WriterEvent::Queued => WriterAction::Send,
            WriterEvent::Sent(true) => WriterAction::Wait,
            WriterEvent::Sent(false) => WriterAction::Finish,
            WriterEvent::QueueEnded => WriterAction::Finish,
            WriterEvent::Closed => WriterAction::Finish,
        },
{
    match event {
        WriterEvent::Queued => WriterAction::Send,
        WriterEvent::Sent(true) => WriterAction::Wait,
        _ => WriterAction::Finish,
    }
}

/// What happened to the ping watchdog.
pub enum WatchdogEvent {
    /// It has rested for `PING_EVERY_SECS`.
    Rested,
    /// The session closed meanwhile.
    Closed,
    /// The ping came to this; `None` when `PING_TIMEOUT_SECS` ran out.
    Pinged(Option<Result<Value, Error>>),
}

/// What the ping watchdog does next.
#[derive(Debug, Clone, Copy, PartialEq, Eq, Structural)]
pub enum WatchdogAction {
    /// Rest, unless the session closes.
    Rest,
    /// Send a ping and wait for its answer.
    Ping,
    /// The link is dead: terminate the session and stop.
    Terminate,
    Stop,
}

/// The watchdog's decision. The hub answers a ping with "pong"; anything else
/// means a dead link.
pub fn watchdog(event: &WatchdogEvent) -> (r: WatchdogAction)
    ensures
        r == match *event {
            WatchdogEvent::Rested => WatchdogAction::Ping,
            WatchdogEvent::Closed => WatchdogAction::Stop,
            WatchdogEvent::Pinged(Some(Ok(v))) => if json(v) == Json::Str("pong"@) {
                WatchdogAction::Rest
            } else {
                WatchdogAction::Terminate
            },
            WatchdogEvent::Pinged(_) => WatchdogAction::Terminate,
        },
{
    match event {
        WatchdogEvent::Rested => WatchdogAction::Ping,
        WatchdogEvent::Closed => WatchdogAction::Stop,
        WatchdogEvent::Pinged(Some(Ok(v))) => match v.as_str() {
            Some(s) => if same(s, "pong") {
                WatchdogAction::Rest
            } else {
                WatchdogAction::Terminate
            },
            None => WatchdogAction::Terminate,
        },
        WatchdogEvent::Pinged(_) => WatchdogAction::Terminate,
    }
}

/// The parameters of a ping: an empty object.
pub fn ping_params() -> (r: Value)
    ensures
        json(r) == Json::Object(Members::empty()),
{
    object_value(serde_json::Map::new())
}

proof fn lemma_keys_differ()
    ensures
        "jsonrpc"@ != "id"@,
        "jsonrpc"@ != "method"@,
        "jsonrpc"@ != "params"@,
        "jsonrpc"@ != "result"@,
        "jsonrpc"@ != "error"@,
        "id"@ != "method"@,
        "id"@ != "params"@,
        "id"@ != "result"@,
        "id"@ != "error"@,
        "method"@ != "params"@,
        "method"@ != "result"@,
        "method"@ != "error"@,
        "result"@ != "error"@,
{
    reveal_strlit("jsonrpc");
    reveal_strlit("id");
    reveal_strlit("method");
    reveal_strlit("params");
    reveal_strlit("result");
    reveal_strlit("error");
    assert("jsonrpc"@.len() == 7);
    assert("id"@.len() == 2);
    assert("error"@.len() == 5);
    assert("method"@.len() == 6);
    assert("method"@[0] != "params"@[0]);
    assert("method"@[0] != "result"@[0]);
}

proof fn lemma_request_reads_back(id: u64, method: Seq<char>, params: Json)
    requires
        fits(params, 126),
    ensures
        reads_back(request_json(id, method, params)),
        reads_back(notification_json(method, params)),
{
    reveal_with_fuel(fits, 2);
}

/// A request that one side sends is, on the other side, a request for the same
/// method with the same parameters and id, whoever waits there. (The
/// parameters hold no numbers but integers and are not nested beyond what the
/// reader follows.)
pub proof fn request_reaches_the_peer<W>(
    frame: Outbound,
    id: u64,
    method: Seq<char>,
    params: Json,
    pending: Map<u64, W>,
)
    requires
        carries(frame, request_json(id, method, params)),
        fits(params, 126),
    ensures
        meaning(pending, json_of_text(frame->Text_0@)) == (IncomingView::<W>::Dispatch {
            method,
            params,
            id: Some(Json::Int(id as int)),
        }),
{
    lemma_keys_differ();
    lemma_request_reads_back(id, method, params);
}

/// A notification that one side sends is, on the other side, a request for the
/// same method with the same parameters and without an id.
pub proof fn notification_reaches_the_peer<W>(
    frame: Outbound,
    method: Seq<char>,
    params: Json,
    pending: Map<u64, W>,
)
    requires
        carries(frame, notification_json(method, params)),
        fits(params, 126),
    ensures
        meaning(pending, json_of_text(frame->Text_0@)) == (IncomingView::<W>::Dispatch {
            method,
            params,
            id: None,
        }),
{
    lemma_keys_differ();
    lemma_request_reads_back(0, method, params);
}

/// What an outcome may hold to come through the wire unchanged.
pub open spec fn outcome_fits(outcome: OutcomeView) -> bool {
    match outcome {
        Ok(result) => fits(result, 126),
        Err(e) => {
            &&& i64::MIN <= e.code <= i64::MAX
            &&& e.data != Some(Json::Null)
            &&& e.data matches Some(d) ==> fits(d, 125)
        },
    }
}

/// The answer that the peer sends under the id of a request goes to the caller
/// that made that request, with the outcome that the peer wrote.
pub proof fn reply_reaches_its_caller<W>(
    s: WsState<W>,
    waiter: W,
    frame: Outbound,
    outcome: OutcomeView,
)
    requires
        carries(frame, reply_json(Json::Int(s.next_id as int), outcome)),
        outcome_fits(outcome),
    ensures
        meaning(after_request(s, waiter).pending, json_of_text(frame->Text_0@)) == (IncomingView::<
            W,
        >::Deliver { to: s.next_id, waiter, outcome }),
{
    lemma_keys_differ();
    reveal_with_fuel(fits, 3);
    let j = reply_json(Json::Int(s.next_id as int), outcome);
    match outcome {
        Ok(result) => {},
        Err(e) => {
            error_reads_back(e);
            assert(fits(error_json(e), 126));
        },
    }
    assert(reads_back(j));
    assert(field(j, "method"@) is None);
    assert(answers(j) == Some(s.next_id));
}

/// A call goes there and back: the peer serves the method that was asked for
/// with the parameters that were given, and what it answers under the id it was
/// asked with is what the caller gets.
pub proof fn call_goes_there_and_back<W, V>(
    s: WsState<W>,
    waiter: W,
    method: Seq<char>,
    params: Json,
    asked: Outbound,
    peer: Map<u64, V>,
    outcome: OutcomeView,
    answered: Outbound,
)
    requires
        carries(asked, request_json(s.next_id, method, params)),
        fits(params, 126),
        match meaning(peer, json_of_text(asked->Text_0@)) {
            IncomingView::Dispatch { method, params, id: Some(id) } => carries(
                answered,
                reply_json(id, outcome),
            ),
            _ => true,
        },
        outcome_fits(outcome),
    ensures
        meaning(peer, json_of_text(asked->Text_0@)) == (IncomingView::<V>::Dispatch {
            method,
            params,
            id: Some(Json::Int(s.next_id as int)),
        }),
        meaning(after_request(s, waiter).pending, json_of_text(answered->Text_0@)) == (
        IncomingView::<W>::Deliver { to: s.next_id, waiter, outcome }),
{
    request_reaches_the_peer(asked, s.next_id, method, params, peer);
    reply_reaches_its_caller(s, waiter, answered, outcome);
}

/// A caller is answered once: the same message a second time means nothing,
/// and the other callers go on waiting.
pub proof fn answered_once<W>(s: WsState<W>, msg: Json)
    requires
        meaning(s.pending, Some(msg)) is Deliver,
    ensures
        ({
            let m = meaning(s.pending, Some(msg));
            let t = after_message(s, m);
            &&& meaning(t.pending, Some(msg)) is Ignored
            &&& forall|id: u64|
                id != m->Deliver_to ==> (t.pending.contains_key(id) <==> s.pending.contains_key(id))
            &&& forall|id: u64|
                id != m->Deliver_to && #[trigger] s.pending.contains_key(id) ==> t.pending[id]
                    == s.pending[id]
        }),
{
}

/// Once closed, a session stays closed with its first code, whatever follows.
pub proof fn first_close_code_stays<W>(
    s: WsState<W>,
    code: CloseCode,
    later: CloseCode,
    msg: Option<Json>,
)
    requires
        s.closed == Some(code),
    ensures
        after_close(s, later).closed == Some(code),
        after_message(s, meaning(s.pending, msg)).closed == Some(code),
{
}

/// A session that closes leaves nobody waiting: each caller gets `Closed`, and
/// no message that still comes is anybody's answer.
pub proof fn closing_settles_every_caller<W>(
    s: WsState<W>,
    code: CloseCode,
    out: Seq<Delivery<W>>,
    msg: Option<Json>,
)
    requires
        tells_all_closed(s.pending, out),
    ensures
        after_close(s, code).pending == Map::<u64, W>::empty(),
        forall|id: u64| #[trigger]
            s.pending.contains_key(id) ==> exists|i: int|
                0 <= i < out.len() && (#[trigger] out[i]).id == id && out[i].waiter
                    == s.pending[id],
        forall|i: int|
            0 <= i < out.len() ==> settled(Some(outcome_view((#[trigger] out[i]).outcome))) == Err::<
                Json,
                ErrorView,
            >(ErrorView::Closed),
        !(meaning(after_close(s, code).pending, msg) is Deliver),
{
    assert forall|id: u64| #[trigger] s.pending.contains_key(id) implies exists|i: int|
        0 <= i < out.len() && (#[trigger] out[i]).id == id && out[i].waiter == s.pending[id] by {
        let i = choose|i: int| 0 <= i < out.len() && (#[trigger] out[i]).id == id;
        assert(out[i].waiter == s.pending[id]);
    }
}

/// Every id in use was given out before.
pub open spec fn ids_in_order<W>(s: WsState<W>) -> bool {
    forall|id: u64| #[trigger] s.pending.contains_key(id) ==> 1 <= id < s.next_id
}

/// Request ids count up from one, so that a new request takes no waiting
/// caller's place, until all 64-bit ids are used up.
pub proof fn ids_stay_in_order<W>(s: WsState<W>, waiter: W, msg: Option<Json>, code: CloseCode)
    requires
        ids_in_order(s),
        1 <= s.next_id < u64::MAX,
    ensures
        !s.pending.contains_key(s.next_id),
        ids_in_order(after_request(s, waiter)),
        after_request(s, waiter).next_id == s.next_id + 1,
        ids_in_order(after_message(s, meaning(s.pending, msg))),
        ids_in_order(after_close(s, code)),
{
}

} // verus!
