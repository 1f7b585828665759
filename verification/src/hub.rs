//! One enrolled instance's connection to the hub: challenge/response
//! registration, reconnecting with exponential backoff, and the table of
//! subscriptions that `event.subscribe` fills in.
//!
//! A connection is generic in `C`, the handle of an open session. What takes
//! time (sockets, sleeping, the module's own methods) happens outside; each
//! function here takes what came of it and says what to do next.

use serde_json::Value;
use vstd::prelude::*;

use crate::error::{Error, ErrorView, RpcError};
use crate::identity::{sign_challenge, signed, Identity, IdentityView};
use crate::json::{
    bool_value, field, fits, item, json, json_of_text, null_value, object_value, str_field,
    str_first, string_value, text_of, Json, Members,
};
use crate::random::{is_id, random_id};
use crate::text::same;
use crate::ws::{
    carries, meaning, notification, notification_json, notification_reaches_the_peer, outcome_view,
    result_view, CloseCode, IncomingView, Outbound, Outcome, OutcomeView,
};

verus! {

/// The user asked to disconnect this module. Do not reconnect.
pub const CLOSE_DISCONNECT_REQUESTED: u16 = 4000;

/// The instance was re-enrolled against another key pair. Do not reconnect.
pub const CLOSE_KEY_ROTATED: u16 = 4001;

/// The longest pause between two attempts to reconnect.
pub const MAX_BACKOFF_SECS: u64 = 64;

/// Why the hub refused reconnection.
#[derive(Debug, Clone, Copy, PartialEq, Eq, Structural)]
pub enum DisconnectReason {
    DisconnectRequested,
    KeyRotated,
}

/// Connection state. `reason` is set when the hub refused reconnection and the
/// loop has stopped for good.
#[derive(Debug, Clone, Copy, PartialEq, Eq)]
pub struct Status {
    pub connected: bool,
    pub reason: Option<DisconnectReason>,
}

impl Default for Status {
    fn default() -> (r: Self)
        ensures
            r == (Status { connected: false, reason: None }),
    {
        Status { connected: false, reason: None }
    }
}

/// A line for the log: marked with the label of the connection, if it has one.
pub fn log_line(label: Option<&str>, msg: &str) -> (r: String)
    ensures
        r@ == match label {
            Some(label) => "[ws:"@ + label@ + "] "@ + msg@,
            None => "[ws] "@ + msg@,
        },
{
    let mut line: String = match label {
        Some(label) => {
            let mut mark: String = "[ws:".to_owned();
            mark.append(label);
            mark.append("] ");
            mark
        },
        None => "[ws] ".to_owned(),
    };
    line.append(msg);
    line
}

/// How to reach the hub, and as whom.
#[derive(Debug)]
pub struct HubOptions {
    /// WebSocket URL of the hub.
    pub url: String,
    pub identity: Identity,
    /// Shown in log lines, e.g. the account name.
    pub label: Option<String>,
}

/// One subscription: the id that the hub was given, and the event.
#[derive(Debug)]
pub struct Subscription {
    pub id: String,
    pub event: String,
}

/// The content of a `Subscription`.
pub struct SubscriptionView {
    pub id: Seq<char>,
    pub event: Seq<char>,
}

impl View for Subscription {
    type V = SubscriptionView;

    open spec fn view(&self) -> SubscriptionView {
        SubscriptionView { id: self.id@, event: self.event@ }
    }
}

/// The table of subscriptions, oldest first.
pub type Table = Seq<SubscriptionView>;

/// Some subscription is on `event`.
pub open spec fn has_event(t: Table, event: Seq<char>) -> bool {
    exists|i: int| 0 <= i < t.len() && (#[trigger] t[i]).event == event
}

/// Where the subscription `id` stands, or the length of the table.
pub open spec fn find(t: Table, id: Seq<char>) -> int
    decreases t.len(),
{
    if t.len() == 0 || t[0].id == id {
        0
    } else {
        1 + find(t.drop_first(), id)
    }
}

/// The table with `event` under `id`, in place of what was there.
pub open spec fn with_subscription(t: Table, id: Seq<char>, event: Seq<char>) -> Table {
    let s = SubscriptionView { id, event };
    if find(t, id) < t.len() {
        t.update(find(t, id), s)
    } else {
        t.push(s)
    }
}

/// The table without the subscription `id`.
pub open spec fn without_subscription(t: Table, id: Seq<char>) -> Table {
    if find(t, id) < t.len() {
        t.remove(find(t, id))
    } else {
        t
    }
}

/// The subscriptions on `event`.
pub open spec fn on_event(t: Table, event: Seq<char>) -> Table {
    t.filter(|s: SubscriptionView| s.event == event)
}

/// What a call from the hub comes to.
#[derive(Debug)]
pub enum Dispatch {
    /// Answered.
    Reply(Outcome),
    /// Ask the module for `event`, then `subscribed`.
    Subscribe { event: String },
    /// The subscription `id` is gone. Where no other is on its event, tell the
    /// module that the event is `unwanted`; then answer `true`.
    Unsubscribe { id: String, unwanted: Option<String> },
    /// A method of the module; its outcome is the answer.
    Call { method: String, params: Value },
}

/// The characters of an optional string.
pub open spec fn text_opt(s: Option<String>) -> Option<Seq<char>> {
    match s {
        Some(s) => Some(s@),
        None => None,
    }
}

/// The content of a `Dispatch`.
pub enum DispatchView {
    Reply(OutcomeView),
    Subscribe { event: Seq<char> },
    Unsubscribe { id: Seq<char>, unwanted: Option<Seq<char>> },
    Call { method: Seq<char>, params: Json },
}

impl View for Dispatch {
    type V = DispatchView;

    open spec fn view(&self) -> DispatchView {
        match *self {
            Dispatch::Reply(outcome) => DispatchView::Reply(outcome_view(outcome)),
            Dispatch::Subscribe { event } => DispatchView::Subscribe { event: event@ },
            Dispatch::Unsubscribe { id, unwanted } => DispatchView::Unsubscribe {
                id: id@,
                unwanted: text_opt(unwanted),
            },
            Dispatch::Call { method, params } => DispatchView::Call {
                method: method@,
                params: json(params),
            },
        }
    }
}

/// What a call of `method` comes to with the subscriptions `t`. The hub's own
/// methods are `ping`, `event.subscribe` and `event.unsubscribe`; their
/// parameters are positional.
pub open spec fn dispatched(t: Table, method: Seq<char>, params: Json) -> DispatchView {
    let first = text_of(item(params, 0));
    if method == "ping"@ {
        DispatchView::Reply(Ok(pong()))
    } else if method == "event.subscribe"@ {
        match first {
            Some(event) => if has_event(t, event) {
                DispatchView::Reply(Ok(Json::Null))
            } else {
                DispatchView::Subscribe { event }
            },
            None => DispatchView::Reply(Ok(Json::Null)),
        }
    } else if method == "event.unsubscribe"@ {
        match first {
            Some(id) => if find(t, id) < t.len() {
                let event = t[find(t, id)].event;
                DispatchView::Unsubscribe {
                    id,
                    unwanted: if has_event(without_subscription(t, id), event) {
                        None
                    } else {
                        Some(event)
                    },
                }
            } else {
                DispatchView::Reply(Ok(Json::Bool(true)))
            },
            None => DispatchView::Reply(Ok(Json::Bool(true))),
        }
    } else {
        DispatchView::Call { method, params }
    }
}

/// The answer to a ping from the hub.
pub open spec fn pong() -> Json {
    Json::Object(Members::empty().insert("pong"@, Json::Bool(true)))
}

/// The table after a call was taken in: only `event.unsubscribe` changes it.
pub open spec fn table_after_call(t: Table, method: Seq<char>, params: Json) -> Table {
    if method == "event.unsubscribe"@ {
        match text_of(item(params, 0)) {
            Some(id) => without_subscription(t, id),
            None => t,
        }
    } else {
        t
    }
}

/// The parameters that an event is pushed with.
pub open spec fn event_params(
    subscription: Seq<char>,
    result: Json,
    emitted_by: Option<Seq<char>>,
) -> Json {
    let m = Members::empty().insert("subscription"@, Json::Str(subscription)).insert(
        "result"@,
        result,
    );
    Json::Object(
        match emitted_by {
            Some(user) => m.insert("emitted_by"@, Json::Str(user)),
            None => m,
        },
    )
}

/// The characters behind an optional reference.
pub open spec fn str_opt(s: Option<&str>) -> Option<Seq<char>> {
    match s {
        Some(s) => Some(s@),
        None => None,
    }
}

/// The views of a list of subscriptions.
pub open spec fn table_view(v: Seq<Subscription>) -> Table {
    v.map_values(|s: Subscription| s@)
}

/// A connection to the hub.
pub struct HubConnection<C> {
    opts: HubOptions,
    subscriptions: Vec<Subscription>,
    client: Option<C>,
    stopping: bool,
    status: Status,
}

/// The state of a connection.
pub struct HubState<C> {
    pub opts: HubOptions,
    pub subscriptions: Table,
    /// The open session, once registered.
    pub client: Option<C>,
    pub stopping: bool,
    pub status: Status,
}

impl<C> View for HubConnection<C> {
    type V = HubState<C>;

    closed spec fn view(&self) -> HubState<C> {
        HubState {
            opts: self.opts,
            subscriptions: table_view(self.subscriptions@),
            client: self.client,
            stopping: self.stopping,
            status: self.status,
        }
    }
}

pub(crate) proof fn lemma_find(t: Table, id: Seq<char>)
    ensures
        0 <= find(t, id) <= t.len(),
        forall|j: int| 0 <= j < find(t, id) ==> (#[trigger] t[j]).id != id,
        find(t, id) < t.len() ==> t[find(t, id)].id == id,
    decreases t.len(),
{
    if t.len() > 0 && t[0].id != id {
        let rest = t.drop_first();
        lemma_find(rest, id);
        assert forall|j: int| 0 <= j < find(t, id) implies (#[trigger] t[j]).id != id by {
            if j > 0 {
                assert(rest[j - 1] == t[j]);
            }
        }
    }
}

/// The first subscription `id` is where `find` says.
pub(crate) proof fn lemma_find_is(t: Table, id: Seq<char>, i: int)
    requires
        0 <= i <= t.len(),
        forall|j: int| 0 <= j < i ==> (#[trigger] t[j]).id != id,
        i < t.len() ==> t[i].id == id,
    ensures
        find(t, id) == i,
{
    lemma_find(t, id);
}

pub(crate) proof fn lemma_methods_differ()
    ensures
        "ping"@ != "event.subscribe"@,
        "ping"@ != "event.unsubscribe"@,
        "event.subscribe"@ != "event.unsubscribe"@,
{
    reveal_strlit("ping");
    reveal_strlit("event.subscribe");
    reveal_strlit("event.unsubscribe");
    assert("ping"@.len() == 4);
    assert("event.subscribe"@.len() == 15);
    assert("event.unsubscribe"@.len() == 17);
}

impl<C> HubConnection<C> {
    #[verifier::type_invariant]
    spec fn well_formed(self) -> bool {
        ids_unique(table_view(self.subscriptions@))
    }

    /// A connection that has not been started.
    pub fn new(opts: HubOptions) -> (r: Self)
        ensures
            r@ == (HubState::<C> {
                opts,
                subscriptions: Table::empty(),
                client: None,
                stopping: false,
                status: Status { connected: false, reason: None },
            }),
    {
        let r = HubConnection {
            opts,
            subscriptions: Vec::new(),
            client: None,
            stopping: false,
            status: Status::default(),
        };
        assert(r@.subscriptions =~= Table::empty());
        r
    }

    fn position(&self, id: &str) -> (r: usize)
        ensures
            r == find(self@.subscriptions, id@),
            r <= self.subscriptions@.len(),
    {
        let n: usize = self.subscriptions.len();
        let mut i: usize = 0;
        while i < n && !same(self.subscriptions[i].id.as_str(), id)
            invariant
                i <= n,
                n == self.subscriptions@.len(),
                forall|j: int| 0 <= j < i ==> (#[trigger] self@.subscriptions[j]).id != id@,
            decreases n - i,
        {
            i = i + 1;
        }
        proof {
            lemma_find_is(self@.subscriptions, id@, i as int);
        }
        i
    }

    fn wanted(&self, event: &str) -> (r: bool)
        ensures
            r == has_event(self@.subscriptions, event@),
    {
        let n: usize = self.subscriptions.len();
        let mut i: usize = 0;
        while i < n
            invariant
                i <= n,
                n == self.subscriptions@.len(),
                forall|j: int| 0 <= j < i ==> (#[trigger] self@.subscriptions[j]).event != event@,
            decreases n - i,
        {
            if same(self.subscriptions[i].event.as_str(), event) {
                assert(self@.subscriptions[i as int].event == event@);
                return true;
            }
            i = i + 1;
        }
        false
    }

    /// Take in a call from the hub.
    pub fn dispatch(&mut self, method: &str, params: Value) -> (r: Dispatch)
        ensures
            r@ == dispatched(old(self)@.subscriptions, method@, json(params)),
            final(self)@ == (HubState {
                subscriptions: table_after_call(old(self)@.subscriptions, method@, json(params)),
                ..old(self)@
            }),
    {
        proof {
            lemma_methods_differ();
            use_type_invariant(&*self);
        }
        if same(method, "ping") {
            let mut m = serde_json::Map::new();
            m.insert("pong".to_owned(), bool_value(true));
            return Dispatch::Reply(Ok(object_value(m)));
        }
        if same(method, "event.subscribe") {
            // Params are positional: [event_name, params?].
            return match str_first(&params) {
                Some(event) => if self.wanted(event) {
                    Dispatch::Reply(Ok(null_value()))
                } else {
                    Dispatch::Subscribe { event: event.to_owned() }
                },
                None => Dispatch::Reply(Ok(null_value())),
            };
        }
        if same(method, "event.unsubscribe") {
            if let Some(id) = str_first(&params) {
                let i: usize = self.position(id);
                if i < self.subscriptions.len() {
                    let mut subscriptions: Vec<Subscription> = Vec::new();
                    std::mem::swap(&mut subscriptions, &mut self.subscriptions);
                    let removed = subscriptions.remove(i);
                    proof {
                        let t = old(self)@.subscriptions;
                        assert(table_view(subscriptions@) =~= t.remove(i as int));
                        ids_stay_unique(t, id@, Seq::empty());
                    }
                    self.subscriptions = subscriptions;
                    assert(removed@ == old(self)@.subscriptions[i as int]);
                    let unwanted: Option<String> = if self.wanted(removed.event.as_str()) {
                        None
                    } else {
                        Some(removed.event)
                    };
                    return Dispatch::Unsubscribe { id: id.to_owned(), unwanted };
                }
            }
            return Dispatch::Reply(Ok(bool_value(true)));
        }
        Dispatch::Call { method: method.to_owned(), params }
    }

    /// The module answered whether it can deliver `event`. If so the hub gets a
    /// fresh id, else `null`.
    pub fn subscribed(&mut self, event: &str, accepted: bool) -> (r: Outcome)
        ensures
            match outcome_view(r) {
                Ok(Json::Str(id)) => {
                    &&& accepted
                    &&& is_id(id)
                    &&& final(self)@ == (HubState {
                        subscriptions: with_subscription(old(self)@.subscriptions, id, event@),
                        ..old(self)@
                    })
                },
                Ok(Json::Null) => !accepted && final(self)@ == old(self)@,
                _ => false,
            },
    {
        if !accepted {
            return Ok(null_value());
        }
        self.subscribed_as(event, random_id())
    }

    /// Enter the subscription `id` on `event` and answer with the id.
    pub fn subscribed_as(&mut self, event: &str, id: String) -> (r: Outcome)
        ensures
            outcome_view(r) == Ok::<Json, crate::error::RpcErrorView>(Json::Str(id@)),
            final(self)@ == (HubState {
                subscriptions: with_subscription(old(self)@.subscriptions, id@, event@),
                ..old(self)@
            }),
    {
        proof {
            use_type_invariant(&*self);
        }
        let i: usize = self.position(id.as_str());
        let s = Subscription { id: id.clone(), event: event.to_owned() };
        let mut subscriptions: Vec<Subscription> = Vec::new();
        std::mem::swap(&mut subscriptions, &mut self.subscriptions);
        if i < subscriptions.len() {
            subscriptions.set(i, s);
        } else {
            subscriptions.push(s);
        }
        proof {
            let t = old(self)@.subscriptions;
            assert(table_view(subscriptions@) =~= with_subscription(t, id@, event@));
            ids_stay_unique(t, id@, event@);
        }
        self.subscriptions = subscriptions;
        Ok(string_value(id))
    }

    /// The answer to `event.unsubscribe` once the module was told.
    pub fn unsubscribed() -> (r: Outcome)
        ensures
            outcome_view(r) == Ok::<Json, crate::error::RpcErrorView>(Json::Bool(true)),
    {
        Ok(bool_value(true))
    }

    /// The answer to a call that reaches a connection which is gone.
    pub fn dropped() -> (r: Outcome)
        ensures
            outcome_view(r) == Err::<Json, crate::error::RpcErrorView>(
                crate::error::internal_error("connection dropped"@),
            ),
    {
        Err(RpcError::internal("connection dropped"))
    }

    /// The notifications that push an event to the hub, one for every
    /// subscription on it; none while there is no open session. `emitted_by` is
    /// the user behind the event, when a human is in the loop.
    pub fn emit(&self, event: &str, result: Value, emitted_by: Option<&str>) -> (r: Vec<Outbound>)
        ensures
            self@.client is None ==> r@.len() == 0,
            self@.client is Some ==> pushes(
                r@,
                on_event(self@.subscriptions, event@),
                json(result),
                str_opt(emitted_by),
            ),
    {
        let mut out: Vec<Outbound> = Vec::new();
        if self.client.is_none() {
            return out;
        }
        let n: usize = self.subscriptions.len();
        let mut i: usize = 0;
        while i < n
            invariant
                i <= n,
                n == self.subscriptions@.len(),
                pushes(
                    out@,
                    on_event(self@.subscriptions.take(i as int), event@),
                    json(result),
                    str_opt(emitted_by),
                ),
            decreases n - i,
        {
            proof {
                let t = self@.subscriptions.take(i + 1);
                assert(t.drop_last() =~= self@.subscriptions.take(i as int));
                assert(t.last() == self.subscriptions@[i as int]@);
                reveal(Seq::filter);
            }
            let s = &self.subscriptions[i];
            if same(s.event.as_str(), event) {
                let mut m = serde_json::Map::new();
                m.insert("subscription".to_owned(), string_value(s.id.clone()));
                m.insert("result".to_owned(), result.clone());
                if let Some(user) = emitted_by {
                    m.insert("emitted_by".to_owned(), string_value(user.to_owned()));
                }
                out.push(notification("event.subscription", object_value(m)));
            }
            i = i + 1;
        }
        assert(self@.subscriptions.take(n as int) =~= self@.subscriptions);
        out
    }

    /// Whether the hub has this instance registered.
    pub fn connected(&self) -> (r: bool)
        ensures
            r == self@.status.connected,
    {
        self.status.connected
    }

    /// The connection state.
    pub fn status(&self) -> (r: Status)
        ensures
            r == self@.status,
    {
        self.status
    }

    /// How to reach the hub, and as whom.
    pub fn options(&self) -> (r: &HubOptions)
        ensures
            *r == self@.opts,
    {
        &self.opts
    }

    /// The subscriptions, oldest first. No two share an id.
    pub fn subscriptions(&self) -> (r: &Vec<Subscription>)
        ensures
            table_view(r@) == self@.subscriptions,
            ids_unique(self@.subscriptions),
    {
        proof {
            use_type_invariant(self);
        }
        &self.subscriptions
    }

    /// The open session, once registered.
    pub fn client(&self) -> (r: Option<&C>)
        ensures
            match r {
                Some(c) => self@.client == Some(*c),
                None => self@.client is None,
            },
    {
        self.client.as_ref()
    }

    /// Let the connection run (again). The first attempt to connect follows.
    pub fn start(&mut self)
        ensures
            final(self)@ == (HubState { stopping: false, ..old(self)@ }),
    {
        proof {
            use_type_invariant(&*self);
        }
        self.stopping = false;
    }

    /// Stop reconnecting. The session that was open comes back, to be
    /// terminated.
    pub fn stop(&mut self) -> (r: Option<C>)
        ensures
            r == old(self)@.client,
            final(self)@ == after_stop(old(self)@),
    {
        proof {
            use_type_invariant(&*self);
        }
        self.stopping = true;
        let mut client: Option<C> = None;
        std::mem::swap(&mut client, &mut self.client);
        self.set_status(false, None);
        client
    }

    fn set_status(&mut self, connected: bool, reason: Option<DisconnectReason>)
        ensures
            final(self)@ == (HubState { status: Status { connected, reason }, ..old(self)@ }),
    {
        proof {
            use_type_invariant(&*self);
        }
        self.status = Status { connected, reason };
    }

    /// Register with the hub over a fresh session: the hub issues a nonce, and
    /// the key generated at enrollment signs it. A session that is registered
    /// only after `stop` is not kept, but closed.
    pub fn connect_once(&mut self, event: HandshakeEvent<C>) -> (r: Handshake)
        ensures
            r@ == handshake(
                old(self)@.opts.identity@,
                old(self)@.stopping,
                handshake_event_view(event),
            ),
            final(self)@ == after_handshake(old(self)@, event),
    {
        proof {
            use_type_invariant(&*self);
        }
        let instance_id: String = self.opts.identity.instance_id.clone();
        match event {
            HandshakeEvent::Connected => {
                let mut m = serde_json::Map::new();
                m.insert("instance_id".to_owned(), string_value(instance_id));
                Handshake::Challenge { method: "session.challenge", params: object_value(m) }
            },
            HandshakeEvent::Challenged(Err(error)) => Handshake::Failed { close: false, error },
            HandshakeEvent::Challenged(Ok(challenge)) => {
                let nonce: &str = match str_field(&challenge, "nonce") {
                    Some(nonce) => nonce,
                    None => {
                        return Handshake::Failed {
                            close: true,
                            error: Error::Protocol("Hub returned no challenge"),
                        };
                    },
                };
                match sign_challenge(&self.opts.identity, nonce) {
                    Ok(signature) => {
                        let mut m = serde_json::Map::new();
                        m.insert("instance_id".to_owned(), string_value(instance_id));
                        m.insert("signature".to_owned(), string_value(signature));
                        Handshake::Register { method: "session.register", params: object_value(m) }
                    },
                    Err(error) => Handshake::Failed { close: false, error },
                }
            },
            HandshakeEvent::Answered(_, Err(error)) => Handshake::Failed { close: false, error },
            HandshakeEvent::Answered(client, Ok(answer)) => {
                match answer.as_bool() {
                    Some(true) => {
                        if self.stopping {
                            return Handshake::Failed { close: true, error: Error::Closed };
                        }
                        self.client = Some(client);
                        Handshake::Registered
                    },
                    _ => Handshake::Failed {
                        close: true,
                        error: Error::Protocol("Registration rejected"),
                    },
                }
            },
        }
    }

    /// The reconnect loop: watch the session until it closes, then, unless the
    /// hub refused or the connection is stopping, try again and again to
    /// connect, with growing pauses.
    pub fn run(&mut self, backoff: &mut Backoff, event: RunEvent) -> (r: RunAction)
        ensures
            r == run_action(old(self)@, old(backoff)@, event),
            final(backoff)@ == run_backoff(old(backoff)@, event),
            final(self)@ == run_state(old(self)@, event),
    {
        proof {
            use_type_invariant(&*self);
        }
        match event {
            RunEvent::Started => {
                if !self.stopping {
                    self.set_status(true, None);
                }
                backoff.reset();
                self.watch()
            },
            RunEvent::Closed(code) => {
                self.client = None;
                self.subscriptions = Vec::new();
                assert(self@.subscriptions =~= Table::empty());
                let reason: Option<DisconnectReason> = reason_for(code);
                if !self.stopping {
                    self.set_status(false, reason);
                }
                if reason.is_some() || self.stopping {
                    RunAction::Return
                } else {
                    RunAction::Sleep(backoff.secs())
                }
            },
            RunEvent::Slept => {
                backoff.grow();
                if self.stopping {
                    RunAction::Return
                } else {
                    RunAction::Connect
                }
            },
            RunEvent::Reconnected(true) => {
                backoff.reset();
                if !self.stopping {
                    self.set_status(true, None);
                }
                self.watch()
            },
            RunEvent::Reconnected(false) => {
                if self.stopping {
                    RunAction::Return
                } else {
                    RunAction::Sleep(backoff.secs())
                }
            },
        }
    }

    /// Whether `run` is about to set the status for `event`, so that those who
    /// watch it are to be told.
    pub fn announces(&self, event: RunEvent) -> (r: bool)
        ensures
            r == sets_status(self@, event),
    {
        !self.stopping && match event {
            RunEvent::Started => true,
            RunEvent::Closed(_) => true,
            RunEvent::Slept => false,
            RunEvent::Reconnected(up) => up,
        }
    }

    fn watch(&self) -> (r: RunAction)
        ensures
            r == watching(self@),
    {
        if self.stopping || self.client.is_none() {
            RunAction::Return
        } else {
            RunAction::Watch
        }
    }
}

/// What happened in the handshake.
pub enum HandshakeEvent<C> {
    /// The session is open.
    Connected,
    /// What the request for a challenge came to.
    Challenged(Result<Value, Error>),
    /// What the request to register came to, over this session.
    Answered(C, Result<Value, Error>),
}

/// The content of a `HandshakeEvent`, without the session that it came over.
pub enum HandshakeEventView {
    Connected,
    Challenged(Result<Json, ErrorView>),
    Answered(Result<Json, ErrorView>),
}

/// The content of a `HandshakeEvent`, without the session that it came over.
pub open spec fn handshake_event_view<C>(event: HandshakeEvent<C>) -> HandshakeEventView {
    match event {
        HandshakeEvent::Connected => HandshakeEventView::Connected,
        HandshakeEvent::Challenged(r) => HandshakeEventView::Challenged(result_view(r)),
        HandshakeEvent::Answered(_, r) => HandshakeEventView::Answered(result_view(r)),
    }
}

/// What the handshake does next.
#[derive(Debug)]
pub enum Handshake {
    /// Send this request; what it comes to is `Challenged`.
    Challenge { method: &'static str, params: Value },
    /// Send this request; what it comes to is `Answered`.
    Register { method: &'static str, params: Value },
    /// Done: the session is kept.
    Registered,
    /// Given up; `close` the session politely if so.
    Failed { close: bool, error: Error },
}

/// The content of a `Handshake`.
pub enum HandshakeView {
    Challenge { method: Seq<char>, params: Json },
    Register { method: Seq<char>, params: Json },
    Registered,
    Failed { close: bool, error: ErrorView },
}

impl View for Handshake {
    type V = HandshakeView;

    open spec fn view(&self) -> HandshakeView {
        match *self {
            Handshake::Challenge { method, params } => HandshakeView::Challenge {
                method: method@,
                params: json(params),
            },
            Handshake::Register { method, params } => HandshakeView::Register {
                method: method@,
                params: json(params),
            },
            Handshake::Registered => HandshakeView::Registered,
            Handshake::Failed { close, error } => HandshakeView::Failed { close, error: error@ },
        }
    }
}

/// The request for a challenge.
pub open spec fn challenge_request(identity: IdentityView) -> HandshakeView {
    HandshakeView::Challenge {
        method: "session.challenge"@,
        params: Json::Object(
            Members::empty().insert("instance_id"@, Json::Str(identity.instance_id)),
        ),
    }
}

/// The request to register with a signature.
pub open spec fn register_request(identity: IdentityView, signature: Seq<char>) -> HandshakeView {
    HandshakeView::Register {
        method: "session.register"@,
        params: Json::Object(
            Members::empty().insert("instance_id"@, Json::Str(identity.instance_id)).insert(
                "signature"@,
                Json::Str(signature),
            ),
        ),
    }
}

/// What the handshake does next: ask for a challenge, answer its nonce with a
/// signature, and be done when the hub says `true`, unless the connection is
/// `stopping`.
pub open spec fn handshake(
    identity: IdentityView,
    stopping: bool,
    event: HandshakeEventView,
) -> HandshakeView {
    match event {
        HandshakeEventView::Connected => challenge_request(identity),
        HandshakeEventView::Challenged(Ok(challenge)) => match text_of(
            field(challenge, "nonce"@),
        ) {
            Some(nonce) => match signed(identity, nonce) {
                Ok(signature) => register_request(identity, signature),
                Err(error) => HandshakeView::Failed { close: false, error },
            },
            None => HandshakeView::Failed {
                close: true,
                error: ErrorView::Protocol("Hub returned no challenge"@),
            },
        },
        HandshakeEventView::Answered(Ok(answer)) => if answer == Json::Bool(true) {
            if stopping {
                HandshakeView::Failed { close: true, error: ErrorView::Closed }
            } else {
                HandshakeView::Registered
            }
        } else {
            HandshakeView::Failed {
                close: true,
                error: ErrorView::Protocol("Registration rejected"@),
            }
        },
        HandshakeEventView::Challenged(Err(error)) => HandshakeView::Failed {
            close: false,
            error,
        },
        HandshakeEventView::Answered(Err(error)) => HandshakeView::Failed { close: false, error },
    }
}

/// The state after a step of the handshake: a session is kept once it is
/// registered, unless the connection is stopping.
pub open spec fn after_handshake<C>(s: HubState<C>, event: HandshakeEvent<C>) -> HubState<C> {
    match event {
        HandshakeEvent::Answered(client, Ok(answer)) => if json(answer) == Json::Bool(true)
            && !s.stopping {
            HubState { client: Some(client), ..s }
        } else {
            s
        },
        _ => s,
    }
}

/// The state after `stop`.
pub open spec fn after_stop<C>(s: HubState<C>) -> HubState<C> {
    HubState {
        stopping: true,
        client: None,
        status: Status { connected: false, reason: None },
        ..s
    }
}

/// The pause before the next attempt to reconnect: between one second and
/// `MAX_BACKOFF_SECS`.
#[derive(Debug)]
pub struct Backoff {
    delay: u64,
}

impl View for Backoff {
    type V = int;

    closed spec fn view(&self) -> int {
        self.delay as int
    }
}

/// The pause after a pause of `secs`.
pub open spec fn grown(secs: int) -> int {
    if 2 * secs < MAX_BACKOFF_SECS {
        2 * secs
    } else {
        MAX_BACKOFF_SECS as int
    }
}

impl Backoff {
    #[verifier::type_invariant]
    spec fn in_range(self) -> bool {
        1 <= self.delay <= MAX_BACKOFF_SECS
    }

    /// One second.
    pub fn new() -> (r: Self)
        ensures
            r@ == 1,
    {
        Backoff { delay: 1 }
    }

    /// The pause in seconds.
    pub fn secs(&self) -> (r: u64)
        ensures
            r == self@,
            1 <= r <= MAX_BACKOFF_SECS,
    {
        proof {
            use_type_invariant(self);
        }
        self.delay
    }

    /// Back to one second.
    pub fn reset(&mut self)
        ensures
            final(self)@ == 1,
    {
        self.delay = 1;
    }

    /// Twice as long, but no longer than `MAX_BACKOFF_SECS`.
    pub fn grow(&mut self)
        ensures
            final(self)@ == grown(old(self)@),
    {
        proof {
            use_type_invariant(&*self);
        }
        let twice: u64 = self.delay * 2;
        self.delay = if twice < MAX_BACKOFF_SECS {
            twice
        } else {
            MAX_BACKOFF_SECS
        };
    }
}

/// What happened in the reconnect loop.
#[derive(Debug, Clone, Copy, PartialEq, Eq)]
pub enum RunEvent {
    /// The first attempt to connect has succeeded.
    Started,
    /// The session that was watched has closed.
    Closed(CloseCode),
    /// The pause is over.
    Slept,
    /// Whether an attempt to reconnect has succeeded.
    Reconnected(bool),
}

/// What the reconnect loop does next.
#[derive(Debug, Clone, Copy, PartialEq, Eq, Structural)]
pub enum RunAction {
    /// Wait until the open session closes.
    Watch,
    /// Pause for so many seconds.
    Sleep(u64),
    /// Open a session and register.
    Connect,
    /// Leave the loop for good.
    Return,
}

/// Why the hub closed the session, where its code says not to reconnect.
pub open spec fn refusal_reason(code: CloseCode) -> Option<DisconnectReason> {
    if code == Some(CLOSE_KEY_ROTATED) {
        Some(DisconnectReason::KeyRotated)
    } else if code == Some(CLOSE_DISCONNECT_REQUESTED) {
        Some(DisconnectReason::DisconnectRequested)
    } else {
        None
    }
}

/// Why the hub closed the session, where its code says not to reconnect.
pub fn reason_for(code: CloseCode) -> (r: Option<DisconnectReason>)
    ensures
        r == refusal_reason(code),
{
    match code {
        Some(c) => if c == CLOSE_KEY_ROTATED {
            Some(DisconnectReason::KeyRotated)
        } else if c == CLOSE_DISCONNECT_REQUESTED {
            Some(DisconnectReason::DisconnectRequested)
        } else {
            None
        },
        None => None,
    }
}

/// At the head of the loop: watch the open session, or leave when there is none
/// or the connection is stopping.
pub open spec fn watching<C>(s: HubState<C>) -> RunAction {
    if s.stopping || s.client is None {
        RunAction::Return
    } else {
        RunAction::Watch
    }
}

/// What the loop does after `event`.
pub open spec fn run_action<C>(s: HubState<C>, delay: int, event: RunEvent) -> RunAction {
    match event {
        RunEvent::Started => watching(s),
        RunEvent::Closed(code) => if s.stopping || refusal_reason(code) is Some {
            RunAction::Return
        } else {
            RunAction::Sleep(delay as u64)
        },
        RunEvent::Slept => if s.stopping {
            RunAction::Return
        } else {
            RunAction::Connect
        },
        RunEvent::Reconnected(true) => watching(s),
        RunEvent::Reconnected(false) => if s.stopping {
            RunAction::Return
        } else {
            RunAction::Sleep(delay as u64)
        },
    }
}

/// The pause after `event`: it grows with each pause, and starts over with each
/// success.
pub open spec fn run_backoff(delay: int, event: RunEvent) -> int {
    match event {
        RunEvent::Started => 1,
        RunEvent::Closed(_) => delay,
        RunEvent::Slept => grown(delay),
        RunEvent::Reconnected(true) => 1,
        RunEvent::Reconnected(false) => delay,
    }
}

/// Whether `event` sets the status: a session came up or was lost, and nobody
/// has stopped the connection.
pub open spec fn sets_status<C>(s: HubState<C>, event: RunEvent) -> bool {
    !s.stopping && match event {
        RunEvent::Started => true,
        RunEvent::Closed(_) => true,
        RunEvent::Slept => false,
        RunEvent::Reconnected(up) => up,
    }
}

/// The status that `event` sets.
pub open spec fn status_after(event: RunEvent) -> Status {
    match event {
        RunEvent::Closed(code) => Status { connected: false, reason: refusal_reason(code) },
        _ => Status { connected: true, reason: None },
    }
}

/// The state after `event`.
pub open spec fn run_state<C>(s: HubState<C>, event: RunEvent) -> HubState<C> {
    let status = if sets_status(s, event) {
        status_after(event)
    } else {
        s.status
    };
    match event {
        RunEvent::Closed(_) => HubState {
            client: None,
            subscriptions: Table::empty(),
            status,
            ..s
        },
        _ => HubState { status, ..s },
    }
}

/// `frames` push an event to each of `hits`, in order.
pub open spec fn pushes(
    frames: Seq<Outbound>,
    hits: Table,
    result: Json,
    emitted_by: Option<Seq<char>>,
) -> bool {
    &&& frames.len() == hits.len()
    &&& forall|i: int|
        0 <= i < frames.len() ==> carries(
            #[trigger] frames[i],
            notification_json(
                "event.subscription"@,
                event_params(hits[i].id, result, emitted_by),
            ),
        )
}

/// No two subscriptions share an id.
pub open spec fn ids_unique(t: Table) -> bool {
    forall|i: int, j: int|
        0 <= i < j < t.len() ==> (#[trigger] t[i]).id != (#[trigger] t[j]).id
}

/// The event of each subscription, by id.
pub open spec fn events_by_id(t: Table) -> Map<Seq<char>, Seq<char>> {
    Map::new(|id: Seq<char>| find(t, id) < t.len(), |id: Seq<char>| t[find(t, id)].event)
}

/// Ids stay unique, whatever is entered or removed.
pub proof fn ids_stay_unique(t: Table, id: Seq<char>, event: Seq<char>)
    requires
        ids_unique(t),
    ensures
        ids_unique(with_subscription(t, id, event)),
        ids_unique(without_subscription(t, id)),
        ids_unique(Table::empty()),
{
    lemma_find(t, id);
}

/// The table maps ids to events: entering puts one event under its id, removing
/// takes one id out, and nothing else changes.
pub proof fn table_is_a_map(t: Table, id: Seq<char>, event: Seq<char>)
    requires
        ids_unique(t),
    ensures
        events_by_id(with_subscription(t, id, event)) == events_by_id(t).insert(id, event),
        events_by_id(without_subscription(t, id)) == events_by_id(t).remove(id),
{
    let with = with_subscription(t, id, event);
    let without = without_subscription(t, id);
    let at = find(t, id);
    lemma_find(t, id);
    lemma_find(with, id);
    lemma_find_is(with, id, at);
    assert(find(without, id) == without.len()) by {
        lemma_find(without, id);
        if find(without, id) < without.len() {
            let k = find(without, id);
            assert(without[k] == if k < at {
                t[k]
            } else {
                t[k + 1]
            });
        }
    }
    assert forall|other: Seq<char>|
        #![trigger find(with, other)]
        #![trigger find(without, other)]
        other != id implies {
        &&& find(with, other) < with.len() <==> find(t, other) < t.len()
        &&& find(without, other) < without.len() <==> find(t, other) < t.len()
        &&& find(t, other) < t.len() ==> with[find(with, other)] == t[find(t, other)]
        &&& find(t, other) < t.len() ==> without[find(without, other)] == t[find(t, other)]
    } by {
        let k = find(t, other);
        lemma_find(t, other);
        if k < t.len() {
            lemma_find_is(with, other, k);
            if at < t.len() && at < k {
                assert(without[k - 1] == t[k]);
                assert forall|j: int| 0 <= j < k - 1 implies (#[trigger] without[j]).id
                    != other by {
                    assert(without[j] == if j < at {
                        t[j]
                    } else {
                        t[j + 1]
                    });
                }
                lemma_find_is(without, other, k - 1);
            } else {
                lemma_find_is(without, other, k);
            }
        } else {
            lemma_find_is(with, other, with.len() as int);
            assert forall|j: int| 0 <= j < without.len() implies (#[trigger] without[j]).id
                != other by {
                if at < t.len() {
                    assert(without[j] == if j < at {
                        t[j]
                    } else {
                        t[j + 1]
                    });
                }
            }
            lemma_find_is(without, other, without.len() as int);
        }
    }
    assert(events_by_id(with) =~= events_by_id(t).insert(id, event));
    assert(events_by_id(without) =~= events_by_id(t).remove(id));
}

/// The parameters `[name]`.
pub open spec fn positional(name: Seq<char>) -> Json {
    Json::Array(seq![Json::Str(name)])
}

/// Unsubscribing undoes subscribing: the table is as it was, and the module is
/// told exactly when no other subscription is on the event.
pub proof fn unsubscribe_undoes_subscribe(t: Table, id: Seq<char>, event: Seq<char>)
    requires
        find(t, id) == t.len(),
    ensures
        ({
            let with = with_subscription(t, id, event);
            &&& table_after_call(with, "event.unsubscribe"@, positional(id)) == t
            &&& dispatched(with, "event.unsubscribe"@, positional(id)) == (
            DispatchView::Unsubscribe {
                id,
                unwanted: if has_event(t, event) {
                    None
                } else {
                    Some(event)
                },
            })
        }),
{
    lemma_methods_differ();
    let with = with_subscription(t, id, event);
    lemma_find(t, id);
    assert(with.last().id == id);
    lemma_find_is(with, id, t.len() as int);
    assert(with.remove(t.len() as int) =~= t);
}

/// Once an event is subscribed to, the hub gets `null` when it asks for the event
/// again, and the table stays as it is.
pub proof fn second_subscription_is_refused(t: Table, id: Seq<char>, event: Seq<char>)
    ensures
        ({
            let with = with_subscription(t, id, event);
            &&& dispatched(with, "event.subscribe"@, positional(event)) == DispatchView::Reply(
                Ok(Json::Null),
            )
            &&& table_after_call(with, "event.subscribe"@, positional(event)) == with
        }),
{
    lemma_methods_differ();
    lemma_find(t, id);
    let with = with_subscription(t, id, event);
    let at = find(t, id);
    assert(with[at].event == event);
}

/// No two subscriptions are on the same event.
pub open spec fn events_unique(t: Table) -> bool {
    forall|i: int, j: int|
        0 <= i < j < t.len() ==> (#[trigger] t[i]).event != (#[trigger] t[j]).event
}

/// No call of the hub puts two subscriptions on one event, and neither does
/// entering a subscription on an event that has none.
pub proof fn events_stay_unique(
    t: Table,
    method: Seq<char>,
    params: Json,
    id: Seq<char>,
    event: Seq<char>,
)
    requires
        events_unique(t),
    ensures
        events_unique(table_after_call(t, method, params)),
        !has_event(t, event) ==> events_unique(with_subscription(t, id, event)),
        events_unique(Table::empty()),
{
    lemma_find(t, id);
    if let Some(gone) = text_of(item(params, 0)) {
        lemma_find(t, gone);
    }
}

/// One thing that happens to the table, from beginning to end.
pub enum Episode {
    /// A call of the hub is served. Where it asks for an event, `accepted` is
    /// the module's answer and `id` the id that is drawn.
    Call { method: Seq<char>, params: Json, accepted: bool, id: Seq<char> },
    /// The session is lost.
    Lost,
}

/// The event for which the module is asked, and says yes, in `e`.
pub open spec fn accepts(t: Table, e: Episode) -> Option<Seq<char>> {
    match e {
        Episode::Call { method, params, accepted: true, id } => match dispatched(
            t,
            method,
            params,
        ) {
            DispatchView::Subscribe { event } => Some(event),
            _ => None,
        },
        _ => None,
    }
}

/// The table after `e`.
pub open spec fn table_after(t: Table, e: Episode) -> Table {
    match e {
        Episode::Call { method, params, accepted, id } => match accepts(t, e) {
            Some(event) => with_subscription(table_after_call(t, method, params), id, event),
            None => table_after_call(t, method, params),
        },
        Episode::Lost => Table::empty(),
    }
}

/// The table after `es`, one finished before the next begins, on a new
/// connection.
pub open spec fn table_after_all(es: Seq<Episode>) -> Table
    decreases es.len(),
{
    if es.len() == 0 {
        Table::empty()
    } else {
        table_after(table_after_all(es.drop_last()), es.last())
    }
}

/// In episode `k` of `es` the module accepted `event`, which has been subscribed
/// to ever since.
pub open spec fn held_since(es: Seq<Episode>, k: int, event: Seq<char>) -> bool {
    &&& 0 <= k < es.len()
    &&& accepts(table_after_all(es.take(k)), es[k]) == Some(event)
    &&& forall|j: int|
        k < j <= es.len() ==> has_event(#[trigger] table_after_all(es.take(j)), event)
}

/// While calls are served one after another, every event has at most one
/// subscription, and only one that the module accepted since the event was last
/// without.
pub proof fn served_in_turn_each_event_has_one_subscription(es: Seq<Episode>)
    ensures
        ids_unique(table_after_all(es)),
        events_unique(table_after_all(es)),
        forall|event: Seq<char>| #[trigger]
            has_event(table_after_all(es), event) ==> exists|k: int| held_since(es, k, event),
    decreases es.len(),
{
    if es.len() > 0 {
        let before = es.drop_last();
        let e = es.last();
        let t = table_after_all(before);
        let n = es.len() as int;
        served_in_turn_each_event_has_one_subscription(before);
        assert(es.take(n) =~= es);
        assert(es.take(n - 1) =~= before);
        match e {
            Episode::Call { method, params, accepted, id } => {
                lemma_methods_differ();
                let gone = match text_of(item(params, 0)) {
                    Some(gone) => gone,
                    None => Seq::empty(),
                };
                let event = match accepts(t, e) {
                    Some(event) => event,
                    None => Seq::empty(),
                };
                events_stay_unique(t, method, params, id, event);
                ids_stay_unique(t, gone, event);
                ids_stay_unique(t, id, event);
            },
            Episode::Lost => {},
        }
        assert forall|event: Seq<char>| #[trigger]
            has_event(table_after_all(es), event) implies exists|k: int|
            held_since(es, k, event) by {
            if accepts(t, e) == Some(event) {
                assert(held_since(es, n - 1, event));
            } else {
                lemma_no_new_event(t, e, event);
                let k = choose|k: int| held_since(before, k, event);
                assert(es.take(k) =~= before.take(k));
                assert forall|j: int| k < j <= n implies has_event(
                    #[trigger] table_after_all(es.take(j)),
                    event,
                ) by {
                    if j < n {
                        assert(es.take(j) =~= before.take(j));
                    }
                }
                assert(held_since(es, k, event));
            }
        }
    }
}

/// What is subscribed to after `e`, and was not accepted in it, was subscribed
/// to before.
proof fn lemma_no_new_event(t: Table, e: Episode, event: Seq<char>)
    requires
        has_event(table_after(t, e), event),
        accepts(t, e) != Some(event),
    ensures
        has_event(t, event),
{
    let after = table_after(t, e);
    let i = choose|i: int| 0 <= i < after.len() && (#[trigger] after[i]).event == event;
    match e {
        Episode::Call { method, params, accepted, id } => {
            lemma_methods_differ();
            lemma_find(t, id);
            if let Some(gone) = text_of(item(params, 0)) {
                lemma_find(t, gone);
                if method == "event.unsubscribe"@ && find(t, gone) < t.len() {
                    assert(after[i] == if i < find(t, gone) {
                        t[i]
                    } else {
                        t[i + 1]
                    });
                }
            }
            if accepts(t, e) is Some {
                assert(after[i] == t[i]);
            }
        },
        Episode::Lost => {},
    }
}

/// The module gets every call but the three that are served here, unchanged.
pub proof fn other_methods_reach_the_module(t: Table, method: Seq<char>, params: Json)
    ensures
        dispatched(t, method, params) is Call <==> (method != "ping"@ && method
            != "event.subscribe"@ && method != "event.unsubscribe"@),
        dispatched(t, method, params) is Call ==> dispatched(t, method, params) == (
        DispatchView::Call { method, params }),
        method != "event.unsubscribe"@ ==> table_after_call(t, method, params) == t,
{
}

/// Who hears an event: a fresh subscription hears its own event and no other,
/// after those that were there; and an event that nobody subscribed to is
/// pushed to nobody.
pub proof fn events_reach_their_subscriptions(
    t: Table,
    id: Seq<char>,
    event: Seq<char>,
    other: Seq<char>,
)
    requires
        find(t, id) == t.len(),
        other != event,
    ensures
        on_event(with_subscription(t, id, event), event) == on_event(t, event).push(
            SubscriptionView { id, event },
        ),
        on_event(with_subscription(t, id, event), other) == on_event(t, other),
        on_event(t, event).len() == 0 <==> !has_event(t, event),
{
    let with = with_subscription(t, id, event);
    assert(with.drop_last() =~= t);
    assert(with.last() == (SubscriptionView { id, event }));
    reveal(Seq::filter);
    lemma_on_event(t, event);
}

/// A pushed event is, on the hub's side, a notification that names its
/// subscription and carries the result and the user behind it unchanged.
pub proof fn events_reach_the_hub<W>(
    frames: Seq<Outbound>,
    hits: Table,
    result: Json,
    emitted_by: Option<Seq<char>>,
    i: int,
    pending: Map<u64, W>,
)
    requires
        pushes(frames, hits, result, emitted_by),
        0 <= i < frames.len(),
        fits(result, 125),
    ensures
        ({
            let params = event_params(hits[i].id, result, emitted_by);
            &&& meaning(pending, json_of_text(frames[i]->Text_0@)) == (IncomingView::<W>::Dispatch {
                method: "event.subscription"@,
                params,
                id: None,
            })
            &&& text_of(field(params, "subscription"@)) == Some(hits[i].id)
            &&& field(params, "result"@) == Some(result)
            &&& text_of(field(params, "emitted_by"@)) == emitted_by
        }),
{
    reveal_strlit("subscription");
    reveal_strlit("result");
    reveal_strlit("emitted_by");
    assert("subscription"@.len() == 12);
    assert("result"@.len() == 6);
    assert("emitted_by"@.len() == 10);
    let params = event_params(hits[i].id, result, emitted_by);
    assert(fits(params, 126)) by {
        reveal_with_fuel(fits, 2);
    }
    notification_reaches_the_peer(frames[i], "event.subscription"@, params, pending);
}

proof fn lemma_on_event(t: Table, event: Seq<char>)
    ensures
        on_event(t, event).len() == 0 <==> !has_event(t, event),
    decreases t.len(),
{
    reveal(Seq::filter);
    if t.len() > 0 {
        let rest = t.drop_last();
        lemma_on_event(rest, event);
        if has_event(rest, event) {
            let i = choose|i: int| 0 <= i < rest.len() && (#[trigger] rest[i]).event == event;
            assert(t[i].event == event);
        }
        if t.last().event == event {
            assert(t[t.len() - 1].event == event);
        }
        if has_event(t, event) && t.last().event != event {
            let i = choose|i: int| 0 <= i < t.len() && (#[trigger] t[i]).event == event;
            assert(rest[i].event == event);
        }
    }
}

/// The pause after `n` attempts in a row that failed.
pub open spec fn pause_after(n: nat) -> int
    decreases n,
{
    if n == 0 {
        1
    } else {
        run_backoff(
            run_backoff(pause_after((n - 1) as nat), RunEvent::Slept),
            RunEvent::Reconnected(false),
        )
    }
}

/// The pauses double from one second up to `MAX_BACKOFF_SECS`, and a success
/// starts them over.
pub proof fn backoff_doubles_up_to_the_limit(n: nat, delay: int)
    ensures
        pause_after(n) == if vstd::arithmetic::power2::pow2(n) < MAX_BACKOFF_SECS {
            vstd::arithmetic::power2::pow2(n) as int
        } else {
            MAX_BACKOFF_SECS as int
        },
        run_backoff(delay, RunEvent::Reconnected(true)) == pause_after(0),
        run_backoff(delay, RunEvent::Started) == pause_after(0),
    decreases n,
{
    if n == 0 {
        vstd::arithmetic::power2::lemma2_to64();
    } else {
        backoff_doubles_up_to_the_limit((n - 1) as nat, delay);
        vstd::arithmetic::power2::lemma_pow2_unfold(n);
    }
}

/// The loop sets a reason exactly when the hub refused reconnection (and nobody
/// stopped the connection first), and then it has ended.
pub proof fn refusal_ends_the_loop<C>(s: HubState<C>, delay: int, event: RunEvent)
    requires
        s.status.reason is None,
    ensures
        run_state(s, event).status.reason is Some <==> (!s.stopping && (event == RunEvent::Closed(
            Some(CLOSE_DISCONNECT_REQUESTED),
        ) || event == RunEvent::Closed(Some(CLOSE_KEY_ROTATED)))),
        run_state(s, event).status.reason is Some ==> run_action(s, delay, event)
            == RunAction::Return && !run_state(s, event).status.connected,
{
}

/// A session that ends in any other way is replaced: the loop pauses and tries
/// again, and an attempt that fails is followed by another.
pub proof fn other_losses_are_retried<C>(s: HubState<C>, delay: int, code: CloseCode)
    requires
        !s.stopping,
        code != Some(CLOSE_DISCONNECT_REQUESTED),
        code != Some(CLOSE_KEY_ROTATED),
    ensures
        run_action(s, delay, RunEvent::Closed(code)) == RunAction::Sleep(delay as u64),
        run_action(s, delay, RunEvent::Slept) == RunAction::Connect,
        run_action(s, delay, RunEvent::Reconnected(false)) == RunAction::Sleep(delay as u64),
        run_state(s, RunEvent::Closed(code)).status == (Status { connected: false, reason: None }),
{
}

/// Once stopped, the loop ends with whatever happens next, and only `start`
/// lets the connection run again.
pub proof fn stopping_ends_the_loop<C>(
    s: HubState<C>,
    delay: int,
    event: RunEvent,
    step: HandshakeEvent<C>,
)
    requires
        s.stopping,
    ensures
        run_action(s, delay, event) == RunAction::Return,
        run_state(s, event).stopping,
        after_handshake(s, step).stopping,
{
}

/// The connection was stopped: it has no session and does not say that it is
/// connected.
pub open spec fn is_down<C>(s: HubState<C>) -> bool {
    &&& s.stopping
    &&& !s.status.connected
    &&& s.client is None
}

/// `stop` takes the connection down, and it stays down whatever happens, even
/// when an attempt to connect that was under way succeeds: its session is not
/// kept but closed.
pub proof fn stopped_stays_down<C>(
    s: HubState<C>,
    down: HubState<C>,
    event: RunEvent,
    step: HandshakeEvent<C>,
)
    requires
        is_down(down),
    ensures
        is_down(after_stop(s)),
        is_down(run_state(down, event)),
        run_state(down, event).status == down.status,
        is_down(after_handshake(down, step)),
        match handshake(down.opts.identity@, true, handshake_event_view(step)) {
            HandshakeView::Registered => false,
            HandshakeView::Failed { close, error } => handshake(
                down.opts.identity@,
                false,
                handshake_event_view(step),
            ) is Registered ==> close && error == ErrorView::Closed,
            _ => true,
        },
{
}

/// A lost session takes its subscriptions along.
pub proof fn disconnecting_forgets_subscriptions<C>(
    s: HubState<C>,
    code: CloseCode,
    event: Seq<char>,
)
    ensures
        run_state(s, RunEvent::Closed(code)).client is None,
        !has_event(run_state(s, RunEvent::Closed(code)).subscriptions, event),
{
}

/// A session is kept only when the hub said `true` to the registration, and
/// every nonce that the hub issues is answered with the instance's signature
/// over it, or not at all.
pub proof fn registration_takes_a_signature<C>(
    s: HubState<C>,
    event: HandshakeEvent<C>,
    nonce: Seq<char>,
    challenge: Json,
)
    requires
        text_of(field(challenge, "nonce"@)) == Some(nonce),
    ensures
        after_handshake(s, event).client != s.client ==> handshake(
            s.opts.identity@,
            s.stopping,
            handshake_event_view(event),
        ) is Registered,
        match handshake(
            s.opts.identity@,
            s.stopping,
            HandshakeEventView::Challenged(Ok(challenge)),
        ) {
            HandshakeView::Register { method, params } => {
                &&& method == "session.register"@
                &&& field(params, "instance_id"@) == Some(Json::Str(s.opts.identity@.instance_id))
                &&& match field(params, "signature"@) {
                    Some(Json::Str(signature)) => signed(s.opts.identity@, nonce) == Ok::<
                        Seq<char>,
                        ErrorView,
                    >(signature),
                    _ => false,
                }
            },
            HandshakeView::Failed { close, error } => signed(s.opts.identity@, nonce) == Err::<
                Seq<char>,
                ErrorView,
            >(error),
            _ => false,
        },
{
    reveal_strlit("instance_id");
    reveal_strlit("signature");
    assert("instance_id"@.len() != "signature"@.len());
}

} // verus!
