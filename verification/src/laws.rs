//! What the operations are for, stated of what goes into them and what comes
//! out.
//!
//! `call_ensures(f, (x, y), r)` reads: a call `f(x, y)` returned `r`. Where an
//! argument is a mutable reference, `old(..)` is what it pointed to before the
//! call and `final(..)` what it points to afterwards.

use vstd::prelude::*;

use crate::json::{json_text, Json};
use crate::ws::Outbound;

pub mod encoding;
pub mod errors;
pub mod hub;
pub mod identity;
pub mod ws;

verus! {

/// `frame` is the text of `j`.
pub open spec fn spells(frame: Outbound, j: Json) -> bool {
    &&& frame is Text
    &&& frame->Text_0@ == json_text(j)
}

/// `j` is an object with members under exactly these keys.
pub open spec fn keys_are(j: Json, keys: Set<Seq<char>>) -> bool {
    &&& j is Object
    &&& j->Object_0.dom() == keys
}

/// `j` is an object that holds `value` under `key`.
pub open spec fn holds(j: Json, key: Seq<char>, value: Json) -> bool {
    &&& j is Object
    &&& j->Object_0.contains_key(key)
    &&& j->Object_0[key] == value
}

} // verus!
