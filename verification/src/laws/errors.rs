//! Laws of error objects and error messages.

use serde_json::Value;
use vstd::prelude::*;

use crate::error::{Error, RpcError};
use crate::json::{json, str_field, str_first, Json, Members};
use crate::laws::{holds, keys_are};
use crate::text::decimal;

verus! {

/// `e` holds just this.
pub open spec fn says(e: RpcError, code: int, message: Seq<char>, data: Option<Json>) -> bool {
    &&& e.code == code
    &&& e.message@ == message
    &&& match data {
        Some(d) => e.data is Some && json(e.data->0) == d,
        None => e.data is None,
    }
}

/// Errors are made with the code and the message that were given, or the code
/// that JSON-RPC has for them, and without data.
pub proof fn constructors_keep_code_and_message(
    code: i64,
    message: &str,
    new: RpcError,
    not_found: RpcError,
    invalid: RpcError,
    internal: RpcError,
)
    requires
        call_ensures(RpcError::new, (code, message), new),
        call_ensures(RpcError::method_not_found, (message,), not_found),
        call_ensures(RpcError::invalid_params, (message,), invalid),
        call_ensures(RpcError::internal, (message,), internal),
    ensures
        says(new, code as int, message@, None),
        says(not_found, -32601, "Method not found: "@ + message@, None),
        says(invalid, -32602, message@, None),
        says(internal, -32603, message@, None),
{
}

/// A clone says the same.
pub proof fn a_clone_says_the_same(e: RpcError, r: RpcError)
    requires
        call_ensures(<RpcError as Clone>::clone, (&e,), r),
    ensures
        r.code == e.code,
        r.message@ == e.message@,
        r.data is Some <==> e.data is Some,
        e.data is Some ==> json(r.data->0) == json(e.data->0),
{
}

proof fn lemma_keys()
    ensures
        "code"@ != "message"@,
        "code"@ != "data"@,
        "message"@ != "data"@,
{
    reveal_strlit("code");
    reveal_strlit("message");
    reveal_strlit("data");
    assert("message"@.len() == 7);
    assert("code"@.len() == 4);
    assert("data"@.len() == 4);
    assert("code"@[0] != "data"@[0]);
}

/// On the wire an error is an object with its code, its message and, where
/// there are some, its data; nothing else.
pub proof fn errors_are_written_out(e: RpcError, r: Value)
    requires
        call_ensures(RpcError::to_json, (&e,), r),
    ensures
        holds(json(r), "code"@, Json::Int(e.code as int)),
        holds(json(r), "message"@, Json::Str(e.message@)),
        e.data is None ==> keys_are(json(r), set!["code"@, "message"@]),
        e.data is Some ==> keys_are(json(r), set!["code"@, "message"@, "data"@]) && holds(
            json(r),
            "data"@,
            json(e.data->0),
        ),
{
    lemma_keys();
    if e.data is Some {
        assert(json(r)->Object_0.dom() =~= set!["code"@, "message"@, "data"@]);
    } else {
        assert(json(r)->Object_0.dom() =~= set!["code"@, "message"@]);
    }
}

/// `data` that is `null` counts as none.
pub open spec fn some_data(j: Json) -> Option<Json> {
    if j is Null {
        None
    } else {
        Some(j)
    }
}

/// An object is read as an error exactly when it has an integer code and a
/// string message; what it then says is what the object says, whatever else the
/// object holds.
pub proof fn objects_are_read_by_their_members(m: Members, v: Value, r: Option<RpcError>)
    requires
        json(v) == Json::Object(m),
        call_ensures(RpcError::from_json, (&v,), r),
    ensures
        r is Some <==> {
            &&& m.contains_key("code"@)
            &&& m["code"@] is Int
            &&& i64::MIN <= m["code"@]->Int_0 <= i64::MAX
            &&& m.contains_key("message"@)
            &&& m["message"@] is Str
        },
        r is Some ==> says(
            r->0,
            m["code"@]->Int_0,
            m["message"@]->Str_0,
            if m.contains_key("data"@) {
                some_data(m["data"@])
            } else {
                None
            },
        ),
{
}

/// An array is read as an error exactly when it has three elements, an integer
/// code and a string message first; what it then says is what they say.
pub proof fn arrays_are_read_by_position(s: Seq<Json>, v: Value, r: Option<RpcError>)
    requires
        json(v) == Json::Array(s),
        call_ensures(RpcError::from_json, (&v,), r),
    ensures
        r is Some <==> {
            &&& s.len() == 3
            &&& s[0] is Int
            &&& i64::MIN <= s[0]->Int_0 <= i64::MAX
            &&& s[1] is Str
        },
        r is Some ==> says(r->0, s[0]->Int_0, s[1]->Str_0, some_data(s[2])),
{
}

/// Nothing else is read as an error.
pub proof fn other_values_are_no_errors(v: Value, r: Option<RpcError>)
    requires
        !(json(v) is Object),
        !(json(v) is Array),
        call_ensures(RpcError::from_json, (&v,), r),
    ensures
        r is None,
{
}

/// Reading what was written gives the error back, but for `data` that is `null`.
pub proof fn errors_come_back(e: RpcError, v: Value, r: Option<RpcError>)
    requires
        call_ensures(RpcError::to_json, (&e,), v),
        call_ensures(RpcError::from_json, (&v,), r),
    ensures
        r is Some,
        says(
            r->0,
            e.code as int,
            e.message@,
            if e.data is Some {
                some_data(json(e.data->0))
            } else {
                None
            },
        ),
{
    lemma_keys();
}

/// The message of an error object names its code and ends in its message.
pub proof fn error_objects_read_well(e: RpcError, r: String)
    requires
        call_ensures(RpcError::to_string, (&e,), r),
    ensures
        r@ == "rpc error "@ + decimal(e.code as int) + ": "@ + e.message@,
{
}

/// Every error reads as what went wrong, with its own words at the end.
pub proof fn errors_read_well(e: Error, r: String)
    requires
        call_ensures(Error::to_string, (&e,), r),
    ensures
        e matches Error::Rpc(e) ==> r@ == "rpc error "@ + decimal(e.code as int) + ": "@
            + e.message@,
        e matches Error::Enroll(s) ==> r@ == "enrollment failed: "@ + s@,
        e matches Error::Identity(s) ==> r@ == "invalid identity: "@ + s@,
        e matches Error::Protocol(s) ==> r@ == "hub protocol: "@ + s@,
        e is Closed ==> r@ == "connection closed"@,
        e is Timeout ==> r@ == "request timed out"@,
{
}

/// A member is found by its key, where it is a string; so is the first element.
pub proof fn strings_are_found<'a>(
    v: &'a Value,
    key: &str,
    r: Option<&'a str>,
    first: Option<&'a str>,
)
    requires
        call_ensures(str_field, (v, key), r),
        call_ensures(str_first, (v,), first),
    ensures
        r is Some <==> json(*v) is Object && json(*v)->Object_0.contains_key(key@)
            && json(*v)->Object_0[key@] is Str,
        r is Some ==> holds(json(*v), key@, Json::Str(r->0@)),
        first is Some <==> json(*v) is Array && json(*v)->Array_0.len() > 0
            && json(*v)->Array_0[0] is Str,
        first is Some ==> json(*v)->Array_0[0] == Json::Str(first->0@),
{
}

} // verus!
