//! Laws of a connection to the hub.

use serde_json::Value;
use vstd::prelude::*;

use crate::base64url::decode_inverts_encode;
use crate::error::Error;
use crate::hub::{
    event_params, ids_unique, lemma_find_is, lemma_methods_differ, log_line, on_event, reason_for,
    Backoff, DisconnectReason, Dispatch, Handshake, HandshakeEvent, HubConnection, HubOptions,
    HubState, RunAction, RunEvent, Status, Subscription, SubscriptionView, Table,
};
use crate::identity::ed25519_signature;
use crate::json::{json, Json};
use crate::laws::encoding::is_hex;
use crate::laws::errors::says;
use crate::laws::identity::{is_base64_of, is_challenge};
use crate::laws::ws::{lemma_tells, tells};
use crate::laws::{holds, keys_are, spells};
use crate::text::hex;
use crate::ws::{CloseCode, Outbound, Outcome};

verus! {

/// Some subscription is on `event`.
pub open spec fn somebody_wants(t: Table, event: Seq<char>) -> bool {
    exists|i: int| 0 <= i < t.len() && (#[trigger] t[i]).event == event
}

/// Some subscription has the id.
pub open spec fn is_given(t: Table, id: Seq<char>) -> bool {
    exists|i: int| 0 <= i < t.len() && (#[trigger] t[i]).id == id
}

/// `t` and `u` differ at most in their subscriptions.
pub open spec fn same_but_table<C>(t: HubState<C>, u: HubState<C>) -> bool {
    &&& t.opts == u.opts
    &&& t.client == u.client
    &&& t.stopping == u.stopping
    &&& t.status == u.status
}

/// A new connection has no session and no subscriptions, and is not connected;
/// that is the default status, too.
pub proof fn a_new_connection_is_at_rest<C>(
    opts: HubOptions,
    r: HubConnection<C>,
    status: Status,
)
    requires
        call_ensures(HubConnection::<C>::new, (opts,), r),
        call_ensures(<Status as Default>::default, (), status),
    ensures
        status == r@.status,
        r@.opts == opts,
        r@.subscriptions.len() == 0,
        r@.client is None,
        !r@.stopping,
        !r@.status.connected,
        r@.status.reason is None,
{
}

/// What can be asked of a connection is its state.
pub proof fn what_is_asked_is_the_state<C>(
    h: HubConnection<C>,
    connected: bool,
    status: Status,
    options: &HubOptions,
    client: Option<&C>,
    subscriptions: &Vec<Subscription>,
)
    requires
        call_ensures(HubConnection::<C>::connected, (&h,), connected),
        call_ensures(HubConnection::<C>::status, (&h,), status),
        call_ensures(HubConnection::<C>::options, (&h,), options),
        call_ensures(HubConnection::<C>::client, (&h,), client),
        call_ensures(HubConnection::<C>::subscriptions, (&h,), subscriptions),
    ensures
        status == h@.status,
        connected == status.connected,
        *options == h@.opts,
        client is Some <==> h@.client is Some,
        client is Some ==> *client->0 == h@.client->0,
        subscriptions@.len() == h@.subscriptions.len(),
        forall|i: int|
            0 <= i < subscriptions@.len() ==> (#[trigger] h@.subscriptions[i]).id
                == subscriptions@[i].id@ && h@.subscriptions[i].event == subscriptions@[i].event@,
        forall|i: int, j: int|
            0 <= i < subscriptions@.len() && 0 <= j < subscriptions@.len() && i != j ==> (
            #[trigger] subscriptions@[i]).id@ != (#[trigger] subscriptions@[j]).id@,
{
    let t = h@.subscriptions;
    assert(t.len() == subscriptions@.len());
    assert forall|i: int, j: int|
        0 <= i < subscriptions@.len() && 0 <= j < subscriptions@.len() && i != j implies (
    #[trigger] subscriptions@[i]).id@ != (#[trigger] subscriptions@[j]).id@ by {
        assert(t[i].id == subscriptions@[i].id@);
        assert(t[j].id == subscriptions@[j].id@);
    }
}

/// `stop` hands the session back and leaves a connection that is stopping, has
/// no session and is not connected; `start` lets it run again and changes
/// nothing else.
pub proof fn stop_takes_the_session_and_start_lets_run<C>(
    h: &mut HubConnection<C>,
    r: Option<C>,
    g: &mut HubConnection<C>,
)
    requires
        call_ensures(HubConnection::<C>::stop, (h,), r),
        call_ensures(HubConnection::<C>::start, (g,), ()),
    ensures
        r == old(h)@.client,
        final(h)@.stopping,
        final(h)@.client is None,
        !final(h)@.status.connected,
        final(h)@.status.reason is None,
        final(h)@.opts == old(h)@.opts,
        final(h)@.subscriptions == old(h)@.subscriptions,
        !final(g)@.stopping,
        final(g)@.opts == old(g)@.opts,
        final(g)@.client == old(g)@.client,
        final(g)@.status == old(g)@.status,
        final(g)@.subscriptions == old(g)@.subscriptions,
{
}

/// The hub's ping is answered with `{"pong": true}`, whatever its parameters.
pub proof fn a_ping_is_answered<C>(
    h: &mut HubConnection<C>,
    method: &str,
    params: Value,
    r: Dispatch,
)
    requires
        call_ensures(HubConnection::<C>::dispatch, (h, method, params), r),
        method@ == "ping"@,
    ensures
        r is Reply,
        r->Reply_0 is Ok,
        keys_are(json(r->Reply_0->Ok_0), set!["pong"@]),
        holds(json(r->Reply_0->Ok_0), "pong"@, Json::Bool(true)),
        final(h)@.subscriptions == old(h)@.subscriptions,
        same_but_table(final(h)@, old(h)@),
{
    lemma_methods_differ();
    assert(json(r->Reply_0->Ok_0)->Object_0.dom() =~= set!["pong"@]);
}

/// The hub asks for an event by its name, the first parameter. The module is
/// asked for it exactly when no subscription is on it yet; else, and without a
/// name, the answer is `null`. The table stays as it is until the module has
/// answered.
pub proof fn an_event_is_asked_for_by_name<C>(
    h: &mut HubConnection<C>,
    method: &str,
    params: Value,
    s: Seq<Json>,
    r: Dispatch,
)
    requires
        call_ensures(HubConnection::<C>::dispatch, (h, method, params), r),
        method@ == "event.subscribe"@,
    ensures
        json(params) == Json::Array(s) && s.len() > 0 && s[0] is Str ==> {
            if somebody_wants(old(h)@.subscriptions, s[0]->Str_0) {
                r is Reply && r->Reply_0 is Ok && json(r->Reply_0->Ok_0) is Null
            } else {
                r is Subscribe && r->Subscribe_event@ == s[0]->Str_0
            }
        },
        !(json(params) is Array) || json(params)->Array_0.len() == 0 || !(json(params)->Array_0[0]
            is Str) ==> r is Reply && r->Reply_0 is Ok && json(r->Reply_0->Ok_0) is Null,
        final(h)@.subscriptions == old(h)@.subscriptions,
        same_but_table(final(h)@, old(h)@),
{
    lemma_methods_differ();
    let t = old(h)@.subscriptions;
    if json(params) == Json::Array(s) && s.len() > 0 && s[0] is Str {
        let event = s[0]->Str_0;
        assert(crate::hub::has_event(t, event) == somebody_wants(t, event));
    }
}

/// The hub gives a subscription up by its id, the first parameter, wherever the
/// subscription stands in the table. That one goes and the others stay as they
/// are; the module is told exactly when none of these is on the same event.
pub proof fn a_subscription_is_given_up_by_id<C>(
    h: &mut HubConnection<C>,
    method: &str,
    params: Value,
    s: Seq<Json>,
    k: int,
    r: Dispatch,
)
    requires
        call_ensures(HubConnection::<C>::dispatch, (h, method, params), r),
        method@ == "event.unsubscribe"@,
        ids_unique(old(h)@.subscriptions),
        json(params) == Json::Array(s),
        s.len() > 0,
        0 <= k < old(h)@.subscriptions.len(),
        s[0] == Json::Str(old(h)@.subscriptions[k].id),
    ensures
        r is Unsubscribe,
        r->Unsubscribe_id@ == old(h)@.subscriptions[k].id,
        r->Unsubscribe_unwanted is Some <==> forall|j: int|
            0 <= j < old(h)@.subscriptions.len() && j != k ==> (
            #[trigger] old(h)@.subscriptions[j]).event != old(h)@.subscriptions[k].event,
        r->Unsubscribe_unwanted is Some ==> r->Unsubscribe_unwanted->0@
            == old(h)@.subscriptions[k].event,
        final(h)@.subscriptions == old(h)@.subscriptions.take(k) + old(h)@.subscriptions.skip(
            k + 1,
        ),
        same_but_table(final(h)@, old(h)@),
{
    lemma_methods_differ();
    let t = old(h)@.subscriptions;
    let event = t[k].event;
    lemma_find_is(t, t[k].id, k);
    let rest = t.remove(k);
    assert(rest =~= t.take(k) + t.skip(k + 1));
    if forall|j: int| 0 <= j < t.len() && j != k ==> (#[trigger] t[j]).event != event {
        assert forall|i: int| 0 <= i < rest.len() implies (#[trigger] rest[i]).event != event by {
            assert(rest[i] == if i < k {
                t[i]
            } else {
                t[i + 1]
            });
        }
    } else {
        let j = choose|j: int| 0 <= j < t.len() && j != k && (#[trigger] t[j]).event == event;
        let i = if j < k {
            j
        } else {
            j - 1
        };
        assert(rest[i] == t[j]);
    }
}

/// An id that was not given out, or none at all, gives nothing up: the answer is
/// `true` all the same.
pub proof fn unknown_ids_give_nothing_up<C>(
    h: &mut HubConnection<C>,
    method: &str,
    params: Value,
    r: Dispatch,
)
    requires
        call_ensures(HubConnection::<C>::dispatch, (h, method, params), r),
        method@ == "event.unsubscribe"@,
        json(params) is Array && json(params)->Array_0.len() > 0 && json(params)->Array_0[0] is Str
            ==> !is_given(old(h)@.subscriptions, json(params)->Array_0[0]->Str_0),
    ensures
        r is Reply,
        r->Reply_0 is Ok,
        json(r->Reply_0->Ok_0) == Json::Bool(true),
        final(h)@.subscriptions == old(h)@.subscriptions,
        same_but_table(final(h)@, old(h)@),
{
    lemma_methods_differ();
    let t = old(h)@.subscriptions;
    if json(params) is Array && json(params)->Array_0.len() > 0 && json(params)->Array_0[0] is Str {
        lemma_find_is(t, json(params)->Array_0[0]->Str_0, t.len() as int);
    }
}

/// Every other method is the module's, with the parameters that the hub gave.
pub proof fn other_calls_are_the_modules<C>(
    h: &mut HubConnection<C>,
    method: &str,
    params: Value,
    r: Dispatch,
)
    requires
        call_ensures(HubConnection::<C>::dispatch, (h, method, params), r),
        method@ != "ping"@,
        method@ != "event.subscribe"@,
        method@ != "event.unsubscribe"@,
    ensures
        r is Call,
        r->Call_method@ == method@,
        json(r->Call_params) == json(params),
        final(h)@.subscriptions == old(h)@.subscriptions,
        same_but_table(final(h)@, old(h)@),
{
}

/// A fresh id enters its event at the end of the table, and is the answer;
/// everything that was there stays.
pub proof fn a_fresh_id_is_entered<C>(
    h: &mut HubConnection<C>,
    event: &str,
    id: String,
    r: Outcome,
)
    requires
        call_ensures(HubConnection::<C>::subscribed_as, (h, event, id), r),
        !is_given(old(h)@.subscriptions, id@),
    ensures
        r is Ok,
        json(r->Ok_0) == Json::Str(id@),
        final(h)@.subscriptions == old(h)@.subscriptions.push(
            SubscriptionView { id: id@, event: event@ },
        ),
        same_but_table(final(h)@, old(h)@),
{
    lemma_find_is(old(h)@.subscriptions, id@, old(h)@.subscriptions.len() as int);
}

/// An id that was given out before gets the new event in place of the old one,
/// and is the answer.
pub proof fn a_known_id_is_entered_anew<C>(
    h: &mut HubConnection<C>,
    event: &str,
    id: String,
    k: int,
    r: Outcome,
)
    requires
        call_ensures(HubConnection::<C>::subscribed_as, (h, event, id), r),
        ids_unique(old(h)@.subscriptions),
        0 <= k < old(h)@.subscriptions.len(),
        old(h)@.subscriptions[k].id == id@,
    ensures
        r is Ok,
        json(r->Ok_0) == Json::Str(id@),
        final(h)@.subscriptions == old(h)@.subscriptions.update(
            k,
            SubscriptionView { id: id@, event: event@ },
        ),
        same_but_table(final(h)@, old(h)@),
{
    lemma_find_is(old(h)@.subscriptions, id@, k);
}

/// The module's word decides: what it refuses is answered `null` and not
/// entered; what it accepts is entered under the id that is the answer, a text
/// of thirty-two hexadecimal digits.
pub proof fn the_modules_word_decides<C>(
    h: &mut HubConnection<C>,
    event: &str,
    accepted: bool,
    r: Outcome,
)
    requires
        call_ensures(HubConnection::<C>::subscribed, (h, event, accepted), r),
    ensures
        r is Ok,
        same_but_table(final(h)@, old(h)@),
        !accepted ==> json(r->Ok_0) is Null && final(h)@.subscriptions == old(h)@.subscriptions,
        accepted ==> {
            &&& json(r->Ok_0) is Str
            &&& json(r->Ok_0)->Str_0.len() == 32
            &&& forall|i: int| 0 <= i < 32 ==> is_hex(#[trigger] json(r->Ok_0)->Str_0[i])
            &&& !is_given(old(h)@.subscriptions, json(r->Ok_0)->Str_0)
                ==> final(h)@.subscriptions == old(h)@.subscriptions.push(
                SubscriptionView { id: json(r->Ok_0)->Str_0, event: event@ },
            )
            &&& somebody_wants(final(h)@.subscriptions, event@)
        },
{
    if accepted {
        let id = json(r->Ok_0)->Str_0;
        let t = old(h)@.subscriptions;
        let bytes = choose|bytes: Seq<u8>| bytes.len() == 16 && id == #[trigger] hex(bytes);
        assert(id == hex(bytes));
        assert forall|i: int| 0 <= i < 32 implies is_hex(#[trigger] id[i]) by {
            assert(hex(bytes)[i] == id[i]);
        }
        if !is_given(t, id) {
            lemma_find_is(t, id, t.len() as int);
        }
        lemma_entered(t, id, event@);
    }
}

proof fn lemma_entered(t: Table, id: Seq<char>, event: Seq<char>)
    ensures
        somebody_wants(crate::hub::with_subscription(t, id, event), event),
{
    let with = crate::hub::with_subscription(t, id, event);
    let at = crate::hub::find(t, id);
    crate::hub::lemma_find(t, id);
    assert(with[at].event == event);
}

/// Subscribing and giving up again leaves the table as it was, whatever was
/// there.
pub proof fn what_is_given_up_leaves_no_trace<C>(
    h: &mut HubConnection<C>,
    event: &str,
    id: String,
    r: Outcome,
    g: &mut HubConnection<C>,
    method: &str,
    params: Value,
    d: Dispatch,
)
    requires
        ids_unique(old(h)@.subscriptions),
        !is_given(old(h)@.subscriptions, id@),
        call_ensures(HubConnection::<C>::subscribed_as, (h, event, id), r),
        old(g)@ == final(h)@,
        method@ == "event.unsubscribe"@,
        json(params) == Json::Array(seq![json(r->Ok_0)]),
        call_ensures(HubConnection::<C>::dispatch, (g, method, params), d),
    ensures
        final(g)@.subscriptions == old(h)@.subscriptions,
        d is Unsubscribe,
        d->Unsubscribe_unwanted is Some <==> !somebody_wants(old(h)@.subscriptions, event@),
{
    let t = old(h)@.subscriptions;
    a_fresh_id_is_entered(h, event, id, r);
    let with = old(g)@.subscriptions;
    let k = t.len() as int;
    assert(with[k].id == id@);
    a_subscription_is_given_up_by_id(g, method, params, seq![json(r->Ok_0)], k, d);
    assert(with.take(k) + with.skip(k + 1) =~= t);
    assert forall|j: int| 0 <= j < t.len() implies with[j] == t[j] by {}
    if somebody_wants(t, event@) {
        let j = choose|j: int| 0 <= j < t.len() && (#[trigger] t[j]).event == event@;
        assert(with[j].event == with[k].event);
    } else {
        assert forall|j: int| 0 <= j < with.len() && j != k implies (#[trigger] with[j]).event
            != with[k].event by {
            assert(with[j] == t[j]);
        }
    }
}

/// A module that was told is answered `true`; a call that comes too late gets an
/// internal error.
pub proof fn late_calls_get_an_error<C>(r: Outcome, s: Outcome)
    requires
        call_ensures(HubConnection::<C>::unsubscribed, (), r),
        call_ensures(HubConnection::<C>::dropped, (), s),
    ensures
        r is Ok,
        json(r->Ok_0) == Json::Bool(true),
        s is Err,
        says(s->Err_0, -32603, "connection dropped"@, None),
{
}

/// `at` lists where the subscriptions on `event` stand, in order.
pub open spec fn lists(at: Seq<int>, t: Table, event: Seq<char>) -> bool {
    &&& forall|i: int, j: int| 0 <= i < j < at.len() ==> #[trigger] at[i] < #[trigger] at[j]
    &&& forall|i: int|
        0 <= i < at.len() ==> 0 <= #[trigger] at[i] < t.len() && t[at[i]].event == event
    &&& forall|k: int|
        0 <= k < t.len() && (#[trigger] t[k]).event == event ==> at.contains(k)
}

proof fn lemma_listing(t: Table, event: Seq<char>) -> (at: Seq<int>)
    ensures
        lists(at, t, event),
        at.len() == on_event(t, event).len(),
        forall|i: int| 0 <= i < at.len() ==> on_event(t, event)[i] == t[#[trigger] at[i]],
    decreases t.len(),
{
    reveal(Seq::filter);
    if t.len() == 0 {
        Seq::empty()
    } else {
        let rest = t.drop_last();
        let n = t.len() - 1;
        let before = lemma_listing(rest, event);
        if t.last().event == event {
            let at = before.push(n);
            assert forall|k: int| 0 <= k < t.len() && (#[trigger] t[k]).event == event implies at.contains(
                k,
            ) by {
                if k < n {
                    assert(rest[k].event == event);
                    let i = choose|i: int| 0 <= i < before.len() && before[i] == k;
                    assert(at[i] == k);
                } else {
                    assert(at[before.len() as int] == k);
                }
            }
            at
        } else {
            assert forall|k: int|
                0 <= k < t.len() && (#[trigger] t[k]).event == event implies before.contains(k) by {
                assert(rest[k].event == event);
            }
            before
        }
    }
}

/// `p` are the parameters that push an event under `id`: the subscription, the
/// result and, if there is one, the user; nothing else.
pub open spec fn pushes_under(
    p: Json,
    id: Seq<char>,
    result: Json,
    emitted_by: Option<&str>,
) -> bool {
    &&& holds(p, "subscription"@, Json::Str(id))
    &&& holds(p, "result"@, result)
    &&& emitted_by is None ==> keys_are(p, set!["subscription"@, "result"@])
    &&& emitted_by is Some ==> keys_are(p, set!["subscription"@, "result"@, "emitted_by"@])
        && holds(p, "emitted_by"@, Json::Str(emitted_by->0@))
}

proof fn lemma_pushes_under(id: Seq<char>, result: Json, emitted_by: Option<&str>)
    ensures
        pushes_under(
            event_params(id, result, crate::hub::str_opt(emitted_by)),
            id,
            result,
            emitted_by,
        ),
{
    reveal_strlit("subscription");
    reveal_strlit("result");
    reveal_strlit("emitted_by");
    assert("subscription"@.len() == 12);
    assert("result"@.len() == 6);
    assert("emitted_by"@.len() == 10);
    let m = event_params(id, result, crate::hub::str_opt(emitted_by))->Object_0;
    if emitted_by is Some {
        assert(m.dom() =~= set!["subscription"@, "result"@, "emitted_by"@]);
    } else {
        assert(m.dom() =~= set!["subscription"@, "result"@]);
    }
}

/// `frame` pushes an event under `id`.
pub open spec fn is_push(
    frame: Outbound,
    id: Seq<char>,
    result: Json,
    emitted_by: Option<&str>,
) -> bool {
    exists|j: Json| #[trigger]
        spells(frame, j) && tells(j, "event.subscription"@, j->Object_0["params"@]) && pushes_under(
            j->Object_0["params"@],
            id,
            result,
            emitted_by,
        )
}

/// An event is pushed once for every subscription on it, in the order of the
/// table, under that subscription's id; and while there is no session, not at
/// all.
pub proof fn an_event_is_pushed_to_each_subscription<C>(
    h: HubConnection<C>,
    event: &str,
    result: Value,
    emitted_by: Option<&str>,
    r: Vec<Outbound>,
)
    requires
        call_ensures(HubConnection::<C>::emit, (&h, event, result, emitted_by), r),
    ensures
        h@.client is None ==> r@.len() == 0,
        h@.client is Some ==> exists|at: Seq<int>| #[trigger]
            lists(at, h@.subscriptions, event@) && at.len() == r@.len() && forall|i: int|
                0 <= i < at.len() ==> is_push(
                    #[trigger] r@[i],
                    h@.subscriptions[at[i]].id,
                    json(result),
                    emitted_by,
                ),
{
    if h@.client is Some {
        let t = h@.subscriptions;
        let at = lemma_listing(t, event@);
        assert forall|i: int| 0 <= i < at.len() implies is_push(
            #[trigger] r@[i],
            t[at[i]].id,
            json(result),
            emitted_by,
        ) by {
            let id = t[at[i]].id;
            assert(on_event(t, event@)[i] == t[at[i]]);
            let p = event_params(id, json(result), crate::hub::str_opt(emitted_by));
            lemma_tells("event.subscription"@, p);
            lemma_pushes_under(id, json(result), emitted_by);
            let j = crate::ws::notification_json("event.subscription"@, p);
            assert(j->Object_0["params"@] == p);
            assert(spells(r@[i], j));
        }
    }
}

/// Over a fresh session the hub is asked for a challenge for this very instance,
/// by its id and nothing else.
pub proof fn the_challenge_is_for_this_instance<C>(h: &mut HubConnection<C>, r: Handshake)
    requires
        call_ensures(
            HubConnection::<C>::connect_once,
            (h, HandshakeEvent::<C>::Connected),
            r,
        ),
    ensures
        r is Challenge,
        r->Challenge_method@ == "session.challenge"@,
        keys_are(json(r->Challenge_params), set!["instance_id"@]),
        holds(
            json(r->Challenge_params),
            "instance_id"@,
            Json::Str(old(h)@.opts.identity.instance_id@),
        ),
        final(h)@ == old(h)@,
{
    assert(json(r->Challenge_params)->Object_0.dom() =~= set!["instance_id"@]);
}

/// The nonce of the challenge is answered for the same instance, with the
/// signature that its private key makes over both, and nothing else.
pub proof fn the_nonce_is_answered_with_a_signature<C>(
    h: &mut HubConnection<C>,
    challenge: Value,
    nonce: Seq<char>,
    seed: Seq<u8>,
    text: Seq<char>,
    r: Handshake,
)
    requires
        call_ensures(
            HubConnection::<C>::connect_once,
            (h, HandshakeEvent::<C>::Challenged(Ok::<Value, Error>(challenge))),
            r,
        ),
        holds(json(challenge), "nonce"@, Json::Str(nonce)),
        is_base64_of(old(h)@.opts.identity.private_key@, seed),
        seed.len() == 32,
        is_challenge(text, old(h)@.opts.identity.instance_id@, nonce),
    ensures
        r is Register,
        r->Register_method@ == "session.register"@,
        keys_are(json(r->Register_params), set!["instance_id"@, "signature"@]),
        holds(
            json(r->Register_params),
            "instance_id"@,
            Json::Str(old(h)@.opts.identity.instance_id@),
        ),
        json(r->Register_params)->Object_0["signature"@] is Str,
        is_base64_of(
            json(r->Register_params)->Object_0["signature"@]->Str_0,
            ed25519_signature(seed, vstd::utf8::encode_utf8(text)),
        ),
        final(h)@ == old(h)@,
{
    reveal_strlit("instance_id");
    reveal_strlit("signature");
    reveal_strlit("rawtoh-module-register:v1");
    reveal_strlit("\n");
    reveal_strlit("rawtoh-module-register:v1\n");
    assert("instance_id"@.len() != "signature"@.len());
    assert("rawtoh-module-register:v1"@ + "\n"@ =~= "rawtoh-module-register:v1\n"@);
    decode_inverts_encode(ed25519_signature(seed, vstd::utf8::encode_utf8(text)));
    assert(json(r->Register_params)->Object_0.dom() =~= set!["instance_id"@, "signature"@]);
}

/// Without a nonce, or without a key to sign it with, there is no registration.
/// The session is closed where the hub is to blame.
pub proof fn no_nonce_or_no_key_is_a_failure<C>(
    h: &mut HubConnection<C>,
    challenge: Value,
    r: Handshake,
)
    requires
        call_ensures(
            HubConnection::<C>::connect_once,
            (h, HandshakeEvent::<C>::Challenged(Ok::<Value, Error>(challenge))),
            r,
        ),
    ensures
        (forall|nonce: Seq<char>|
            !#[trigger] holds(json(challenge), "nonce"@, Json::Str(nonce))) ==> {
            &&& r is Failed
            &&& r->Failed_close
            &&& r->Failed_error is Protocol
            &&& r->Failed_error->Protocol_0@ == "Hub returned no challenge"@
        },
        (forall|seed: Seq<u8>| #[trigger]
            is_base64_of(old(h)@.opts.identity.private_key@, seed) ==> seed.len() != 32) && (
        exists|nonce: Seq<char>| #[trigger]
            holds(json(challenge), "nonce"@, Json::Str(nonce))) ==> {
            &&& r is Failed
            &&& !r->Failed_close
            &&& r->Failed_error is Identity
            &&& r->Failed_error->Identity_0@ == "private_key is not a 32-byte base64url seed"@
        },
        final(h)@ == old(h)@,
{
    let key = old(h)@.opts.identity.private_key@;
    if crate::base64url::decoded(key) is Some {
        assert(is_base64_of(key, crate::base64url::decoded(key)->0));
    }
    if let Json::Object(m) = json(challenge) {
        if m.contains_key("nonce"@) {
            if let Json::Str(nonce) = m["nonce"@] {
                assert(holds(json(challenge), "nonce"@, Json::Str(nonce)));
            }
        }
    }
}

/// What goes wrong with a request of the handshake is what the handshake comes
/// to, and nothing is kept.
pub proof fn failed_requests_fail_the_handshake<C>(
    h: &mut HubConnection<C>,
    event: HandshakeEvent<C>,
    e: Error,
    r: Handshake,
)
    requires
        call_ensures(HubConnection::<C>::connect_once, (h, event), r),
        event == HandshakeEvent::<C>::Challenged(Err::<Value, Error>(e)) || event is Answered
            && event->Answered_1 == Err::<Value, Error>(e),
    ensures
        r is Failed,
        !r->Failed_close,
        r->Failed_error@ == e@,
        final(h)@ == old(h)@,
{
}

/// A session is kept exactly when the hub answered `true` and nobody has stopped
/// the connection meanwhile; one that is not kept after an answer is closed.
pub proof fn a_session_is_kept_once_registered<C>(
    h: &mut HubConnection<C>,
    client: C,
    answer: Value,
    r: Handshake,
)
    requires
        call_ensures(
            HubConnection::<C>::connect_once,
            (h, HandshakeEvent::<C>::Answered(client, Ok::<Value, Error>(answer))),
            r,
        ),
    ensures
        r is Registered <==> json(answer) == Json::Bool(true) && !old(h)@.stopping,
        r is Registered ==> final(h)@.client == Some(client),
        !(r is Registered) ==> r is Failed && r->Failed_close && final(h)@ == old(h)@,
        json(answer) == Json::Bool(true) && old(h)@.stopping ==> r->Failed_error is Closed,
        json(answer) != Json::Bool(true) ==> r->Failed_error is Protocol
            && r->Failed_error->Protocol_0@ == "Registration rejected"@,
        final(h)@.opts == old(h)@.opts,
        final(h)@.subscriptions == old(h)@.subscriptions,
        final(h)@.stopping == old(h)@.stopping,
        final(h)@.status == old(h)@.status,
{
}

/// A session that is up is reported so, at the first attempt and after every
/// reconnect, and the pauses start over; the loop watches it.
pub proof fn a_session_that_is_up_is_reported<C>(
    h: &mut HubConnection<C>,
    backoff: &mut Backoff,
    event: RunEvent,
    r: RunAction,
)
    requires
        call_ensures(HubConnection::<C>::run, (h, backoff, event), r),
        event is Started || event == RunEvent::Reconnected(true),
        !old(h)@.stopping,
    ensures
        final(h)@.status.connected,
        final(h)@.status.reason is None,
        final(backoff)@ == 1,
        old(h)@.client is Some ==> r is Watch,
        old(h)@.client is None ==> r is Return,
        final(h)@.client == old(h)@.client,
        final(h)@.subscriptions == old(h)@.subscriptions,
        final(h)@.opts == old(h)@.opts,
        !final(h)@.stopping,
{
}

/// Whenever the loop watches a session, there is one, and the connection says
/// that it is connected.
pub proof fn what_is_watched_is_connected<C>(
    h: &mut HubConnection<C>,
    backoff: &mut Backoff,
    event: RunEvent,
    r: RunAction,
    connected: bool,
)
    requires
        call_ensures(HubConnection::<C>::run, (h, backoff, event), r),
        r is Watch,
        call_ensures(HubConnection::<C>::connected, (final(h),), connected),
    ensures
        connected,
        final(h)@.status.connected,
        final(h)@.status.reason is None,
        final(h)@.client is Some,
        !final(h)@.stopping,
{
}

/// A session that is lost takes its subscriptions along and is reported so. With
/// the codes 4000 and 4001 the hub says not to come back: the reason is
/// reported, and the loop ends. Else it pauses before it tries again.
pub proof fn a_session_that_is_lost_is_reported<C>(
    h: &mut HubConnection<C>,
    backoff: &mut Backoff,
    code: CloseCode,
    r: RunAction,
)
    requires
        call_ensures(HubConnection::<C>::run, (h, backoff, RunEvent::Closed(code)), r),
        1 <= old(backoff)@ <= 64,
        !old(h)@.stopping,
    ensures
        final(h)@.client is None,
        final(h)@.subscriptions.len() == 0,
        !final(h)@.status.connected,
        final(h)@.status.reason == Some(DisconnectReason::DisconnectRequested) <==> code == Some(
            4000u16,
        ),
        final(h)@.status.reason == Some(DisconnectReason::KeyRotated) <==> code == Some(4001u16),
        final(h)@.status.reason is Some <==> r is Return,
        final(h)@.status.reason is None ==> r is Sleep && r->Sleep_0 == old(backoff)@,
        final(backoff)@ == old(backoff)@,
        final(h)@.opts == old(h)@.opts,
        !final(h)@.stopping,
{
}

/// A pause is followed by an attempt, and an attempt that failed by a pause, for
/// as long as nobody stops the connection. The next pause is twice as long, up
/// to 64 seconds, and nothing else changes.
pub proof fn attempts_go_on_with_longer_pauses<C>(
    h: &mut HubConnection<C>,
    backoff: &mut Backoff,
    event: RunEvent,
    r: RunAction,
)
    requires
        call_ensures(HubConnection::<C>::run, (h, backoff, event), r),
        event is Slept || event == RunEvent::Reconnected(false),
        1 <= old(backoff)@ <= 64,
        !old(h)@.stopping,
    ensures
        event is Slept ==> r is Connect,
        event is Slept ==> final(backoff)@ == if old(backoff)@ <= 32 {
            2 * old(backoff)@
        } else {
            64
        },
        !(event is Slept) ==> r is Sleep && r->Sleep_0 == old(backoff)@ && final(backoff)@ == old(
            backoff,
        )@,
        final(h)@ == old(h)@,
{
}

/// Once stopped, whatever happens ends the loop and leaves the status as it is;
/// a session that closes still takes its subscriptions along.
pub proof fn a_stopped_loop_ends<C>(
    h: &mut HubConnection<C>,
    backoff: &mut Backoff,
    event: RunEvent,
    r: RunAction,
)
    requires
        call_ensures(HubConnection::<C>::run, (h, backoff, event), r),
        old(h)@.stopping,
    ensures
        r is Return,
        final(h)@.stopping,
        final(h)@.status == old(h)@.status,
        final(h)@.opts == old(h)@.opts,
        event is Closed ==> final(h)@.client is None && final(h)@.subscriptions.len() == 0,
        !(event is Closed) ==> final(h)@ == old(h)@,
{
}

/// Who watches the status is told exactly when it is set: when a session came up
/// or was lost, and nobody has stopped the connection.
pub proof fn status_changes_are_announced<C>(
    g: HubConnection<C>,
    h: &mut HubConnection<C>,
    backoff: &mut Backoff,
    event: RunEvent,
    r: RunAction,
    announced: bool,
)
    requires
        call_ensures(HubConnection::<C>::announces, (&g, event), announced),
        g@ == old(h)@,
        call_ensures(HubConnection::<C>::run, (h, backoff, event), r),
    ensures
        final(h)@.status != old(h)@.status ==> announced,
        announced <==> !g@.stopping && (event is Started || event is Closed || event
            == RunEvent::Reconnected(true)),
{
}

/// The pauses go from one second, doubling, up to 64.
pub proof fn pauses_double(
    a: Backoff,
    b: &mut Backoff,
    c: &mut Backoff,
    d: Backoff,
    secs: u64,
)
    requires
        call_ensures(Backoff::new, (), a),
        1 <= old(b)@ <= 64,
        call_ensures(Backoff::grow, (b,), ()),
        call_ensures(Backoff::reset, (c,), ()),
        call_ensures(Backoff::secs, (&d,), secs),
    ensures
        a@ == 1,
        old(b)@ <= 32 ==> final(b)@ == 2 * old(b)@,
        old(b)@ > 32 ==> final(b)@ == 64,
        final(c)@ == 1,
        secs == d@,
        1 <= secs <= 64,
{
}

/// After `n` attempts in a row that failed, the pause is two to the power of
/// `n`, but no more than 64 seconds.
pub proof fn the_nth_pause_is_a_power_of_two(n: nat)
    ensures
        n < 6 ==> crate::hub::pause_after(n) == vstd::arithmetic::power2::pow2(n),
        n >= 6 ==> crate::hub::pause_after(n) == 64,
    decreases n,
{
    vstd::arithmetic::power2::lemma2_to64();
    crate::hub::backoff_doubles_up_to_the_limit(n, 1);
    if n >= 6 {
        the_power_is_large(n);
    } else {
        vstd::arithmetic::power2::lemma_pow2_strictly_increases(n, 6);
    }
}

proof fn the_power_is_large(n: nat)
    requires
        n >= 6,
    ensures
        vstd::arithmetic::power2::pow2(n) >= 64,
    decreases n,
{
    vstd::arithmetic::power2::lemma2_to64();
    if n > 6 {
        vstd::arithmetic::power2::lemma_pow2_strictly_increases(6, n);
    }
}

/// Two codes of the hub are refusals, each with its reason.
pub proof fn two_codes_are_refusals(code: CloseCode, r: Option<DisconnectReason>)
    requires
        call_ensures(reason_for, (code,), r),
    ensures
        r == Some(DisconnectReason::DisconnectRequested) <==> code == Some(4000u16),
        r == Some(DisconnectReason::KeyRotated) <==> code == Some(4001u16),
        r is None <==> code != Some(4000u16) && code != Some(4001u16),
{
}

/// A line for the log ends in the message, after the label, if there is one.
pub proof fn log_lines_name_the_connection(label: Option<&str>, msg: &str, r: String)
    requires
        call_ensures(log_line, (label, msg), r),
    ensures
        label is None ==> r@ == "[ws] "@ + msg@,
        label is Some ==> r@ == "[ws:"@ + label->0@ + "] "@ + msg@,
{
}

} // verus!
