//! The errors of the library: JSON-RPC error objects, and what can go wrong on
//! this side of the wire.

use serde_json::Value;
use vstd::prelude::*;

use crate::json::{
    field, get_field, get_item, i64_value, json, json_opt, object_value, string_value, Json, Members,
};
use crate::text::{decimal, to_decimal};

verus! {

/// A JSON-RPC 2.0 error object, inbound or outbound.
#[derive(Debug)]
pub struct RpcError {
    pub code: i64,
    pub message: String,
    pub data: Option<Value>,
}

impl Clone for RpcError {
    fn clone(&self) -> (r: Self)
        ensures
            r@ == self@,
    {
        RpcError { code: self.code, message: self.message.clone(), data: self.data.clone() }
    }
}

/// What an `RpcError` says.
pub struct RpcErrorView {
    pub code: int,
    pub message: Seq<char>,
    pub data: Option<Json>,
}

impl View for RpcError {
    type V = RpcErrorView;

    open spec fn view(&self) -> RpcErrorView {
        RpcErrorView { code: self.code as int, message: self.message@, data: json_opt(self.data) }
    }
}

/// An error without data.
pub open spec fn plain_error(code: int, message: Seq<char>) -> RpcErrorView {
    RpcErrorView { code, message, data: None }
}

/// An internal error (-32603).
pub open spec fn internal_error(message: Seq<char>) -> RpcErrorView {
    plain_error(-32603, message)
}

/// The error object on the wire: `data` is left out when there is none.
pub open spec fn error_json(e: RpcErrorView) -> Json {
    let m = Members::empty().insert("code"@, Json::Int(e.code)).insert(
        "message"@,
        Json::Str(e.message),
    );
    Json::Object(
        match e.data {
            Some(d) => m.insert("data"@, d),
            None => m,
        },
    )
}

/// The error object that `j` spells, if any: an object with an integer `code`,
/// a string `message` and perhaps `data`, whatever else it holds; or an array
/// of just these three. `data` that is `null` counts as none.
pub open spec fn error_of_json(j: Json) -> Option<RpcErrorView> {
    match j {
        Json::Object(_) => error_of_parts(
            field(j, "code"@),
            field(j, "message"@),
            field(j, "data"@),
        ),
        Json::Array(s) => if s.len() == 3 {
            error_of_parts(Some(s[0]), Some(s[1]), Some(s[2]))
        } else {
            None
        },
        _ => None,
    }
}

/// The error object with these parts, if the first two are there and of their
/// types.
pub open spec fn error_of_parts(
    code: Option<Json>,
    message: Option<Json>,
    data: Option<Json>,
) -> Option<RpcErrorView> {
    match (code, message) {
        (Some(Json::Int(c)), Some(Json::Str(m))) => if i64::MIN <= c <= i64::MAX {
            Some(
                RpcErrorView {
                    code: c,
                    message: m,
                    data: if data == Some(Json::Null) {
                        None
                    } else {
                        data
                    },
                },
            )
        } else {
            None
        },
        _ => None,
    }
}

/// The content of an optional error.
pub open spec fn error_opt(e: Option<RpcError>) -> Option<RpcErrorView> {
    match e {
        Some(e) => Some(e@),
        None => None,
    }
}

fn from_parts(code: Option<&Value>, message: Option<&Value>, data: Option<&Value>) -> (r: Option<
    RpcError,
>)
    ensures
        error_opt(r) == error_of_parts(ref_json(code), ref_json(message), ref_json(data)),
{
    let code: i64 = match code {
        Some(v) => match v.as_i64() {
            Some(c) => c,
            None => {
                return None;
            },
        },
        None => {
            return None;
        },
    };
    let message: &str = match message {
        Some(v) => match v.as_str() {
            Some(m) => m,
            None => {
                return None;
            },
        },
        None => {
            return None;
        },
    };
    let data: Option<Value> = match data {
        Some(v) => if v.is_null() {
            None
        } else {
            Some(v.clone())
        },
        None => None,
    };
    Some(RpcError { code, message: message.to_owned(), data })
}

/// The content behind an optional reference.
pub open spec fn ref_json(v: Option<&Value>) -> Option<Json> {
    match v {
        Some(v) => Some(json(*v)),
        None => None,
    }
}

impl RpcError {
    /// An error without data.
    pub fn new(code: i64, message: &str) -> (r: Self)
        ensures
            r@ == plain_error(code as int, message@),
    {
        RpcError { code, message: message.to_owned(), data: None }
    }

    /// The method is not known (-32601).
    pub fn method_not_found(method: &str) -> (r: Self)
        ensures
            r@ == plain_error(-32601, "Method not found: "@ + method@),
    {
        let mut message: String = "Method not found: ".to_owned();
        message.append(method);
        RpcError { code: -32601, message, data: None }
    }

    /// The parameters do not suit the method (-32602).
    pub fn invalid_params(message: &str) -> (r: Self)
        ensures
            r@ == plain_error(-32602, message@),
    {
        Self::new(-32602, message)
    }

    /// Something failed on this side (-32603).
    pub fn internal(message: &str) -> (r: Self)
        ensures
            r@ == internal_error(message@),
    {
        Self::new(-32603, message)
    }

    /// The error object on the wire.
    pub fn to_json(&self) -> (r: Value)
        ensures
            json(r) == error_json(self@),
    {
        let mut m = serde_json::Map::new();
        m.insert("code".to_owned(), i64_value(self.code));
        m.insert("message".to_owned(), string_value(self.message.clone()));
        if let Some(d) = &self.data {
            m.insert("data".to_owned(), d.clone());
        }
        object_value(m)
    }

    /// The error object that `v` spells, if any.
    pub fn from_json(v: &Value) -> (r: Option<Self>)
        ensures
            error_opt(r) == error_of_json(json(*v)),
    {
        match get_item(v, 2) {
            Some(data) => match get_item(v, 3) {
                Some(_) => None,
                None => from_parts(get_item(v, 0), get_item(v, 1), Some(data)),
            },
            None => from_parts(
                get_field(v, "code"),
                get_field(v, "message"),
                get_field(v, "data"),
            ),
        }
    }

    /// `rpc error <code>: <message>`.
    pub fn to_string(&self) -> (r: String)
        ensures
            r@ == error_text(self@),
    {
        let mut out: String = "rpc error ".to_owned();
        out.append(to_decimal(self.code).as_str());
        out.append(": ");
        out.append(self.message.as_str());
        out
    }
}

/// How an error object reads in a message.
pub open spec fn error_text(e: RpcErrorView) -> Seq<char> {
    "rpc error "@ + decimal(e.code) + ": "@ + e.message
}

/// What goes wrong on this side of the wire.
#[derive(Debug)]
pub enum Error {
    /// The hub answered a request with an error object.
    Rpc(RpcError),
    Enroll(String),
    Identity(String),
    Protocol(&'static str),
    Closed,
    Timeout,
}

/// What an `Error` says.
pub enum ErrorView {
    Rpc(RpcErrorView),
    Enroll(Seq<char>),
    Identity(Seq<char>),
    Protocol(Seq<char>),
    Closed,
    Timeout,
}

impl View for Error {
    type V = ErrorView;

    open spec fn view(&self) -> ErrorView {
        match self {
            Error::Rpc(e) => ErrorView::Rpc(e@),
            Error::Enroll(s) => ErrorView::Enroll(s@),
            Error::Identity(s) => ErrorView::Identity(s@),
            Error::Protocol(s) => ErrorView::Protocol(s@),
            Error::Closed => ErrorView::Closed,
            Error::Timeout => ErrorView::Timeout,
        }
    }
}

impl Error {
    /// The error as a message for people.
    pub fn to_string(&self) -> (r: String)
        ensures
            r@ == match self@ {
                ErrorView::Rpc(e) => error_text(e),
                ErrorView::Enroll(s) => "enrollment failed: "@ + s,
                ErrorView::Identity(s) => "invalid identity: "@ + s,
                ErrorView::Protocol(s) => "hub protocol: "@ + s,
                ErrorView::Closed => "connection closed"@,
                ErrorView::Timeout => "request timed out"@,
            },
    {
        match self {
            Error::Rpc(e) => e.to_string(),
            Error::Enroll(s) => {
                let mut out: String = "enrollment failed: ".to_owned();
                out.append(s.as_str());
                out
            },
            Error::Identity(s) => {
                let mut out: String = "invalid identity: ".to_owned();
                out.append(s.as_str());
                out
            },
            Error::Protocol(s) => {
                let mut out: String = "hub protocol: ".to_owned();
                out.append(s);
                out
            },
            Error::Closed => "connection closed".to_owned(),
            Error::Timeout => "request timed out".to_owned(),
        }
    }
}

/// An error object that was written is read back as it was, but for `data`
/// that is `null`.
pub proof fn error_reads_back(e: RpcErrorView)
    requires
        i64::MIN <= e.code <= i64::MAX,
        e.data != Some(Json::Null),
    ensures
        error_of_json(error_json(e)) == Some(e),
{
    reveal_strlit("code");
    reveal_strlit("message");
    reveal_strlit("data");
    assert("code"@.len() != "message"@.len());
    assert("data"@.len() != "message"@.len());
    assert("code"@[0] != "data"@[0]);
}

} // verus!
