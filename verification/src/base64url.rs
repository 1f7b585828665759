//! URL-safe base64 without padding, the encoding of keys and signatures on the
//! wire.

use base64::engine::general_purpose::URL_SAFE_NO_PAD;
use base64::Engine;
use vstd::prelude::*;

verus! {

/// `base64::DecodeError`, carried through unread.
#[verifier::external_type_specification]
#[verifier::external_body]
pub struct ExDecodeError(base64::DecodeError);

/// The symbol for a value below sixty-four: `A`..`Z`, `a`..`z`, `0`..`9`, `-`, `_`.
pub open spec fn symbol(v: int) -> char {
    if v < 26 {
        ('A' as int + v) as char
    } else if v < 52 {
        ('a' as int + v - 26) as char
    } else if v < 62 {
        ('0' as int + v - 52) as char
    } else if v == 62 {
        '-'
    } else {
        '_'
    }
}

/// Byte `i`, or zero past the end.
pub open spec fn byte_or_zero(bytes: Seq<u8>, i: int) -> int {
    if i < bytes.len() {
        bytes[i] as int
    } else {
        0
    }
}

/// The `i`-th group of six bits, counted from the most significant bit of the
/// first byte; bits past the end are zero.
pub open spec fn sextet(bytes: Seq<u8>, i: int) -> int {
    let q = i / 4 * 3;
    let b0 = byte_or_zero(bytes, q);
    let b1 = byte_or_zero(bytes, q + 1);
    let b2 = byte_or_zero(bytes, q + 2);
    if i % 4 == 0 {
        b0 / 4
    } else if i % 4 == 1 {
        b0 % 4 * 16 + b1 / 16
    } else if i % 4 == 2 {
        b1 % 16 * 4 + b2 / 64
    } else {
        b2 % 64
    }
}

/// How many symbols `n` bytes take: one for each six bits begun.
pub open spec fn encoded_len(n: int) -> int {
    (4 * n + 2) / 3
}

/// The base64 text of `bytes`.
pub open spec fn encoded(bytes: Seq<u8>) -> Seq<char> {
    Seq::new(encoded_len(bytes.len() as int) as nat, |i: int| symbol(sextet(bytes, i)))
}

/// The base64 text of `bytes`.
///
/// Calls `Engine::encode` of `base64` with its `URL_SAFE_NO_PAD` engine. The
/// contract says that the result is one symbol of the URL-safe alphabet for
/// each group of six bits, the last group filled up with zero bits, and no
/// padding. The text has to fit in memory.
#[verifier::external_body]
pub fn encode(bytes: &[u8]) -> (r: String)
    requires
        encoded_len(bytes@.len() as int) <= isize::MAX,
    ensures
        r@ == encoded(bytes@),
{
    URL_SAFE_NO_PAD.encode(bytes)
}

/// The bytes that `text` is the base64 text of, if there are any. There is at
/// most one such byte string (see `encoding_is_injective`).
pub open spec fn decoded(text: Seq<char>) -> Option<Seq<u8>> {
    if exists|bytes: Seq<u8>| #[trigger] encoded(bytes) == text {
        Some(choose|bytes: Seq<u8>| #[trigger] encoded(bytes) == text)
    } else {
        None
    }
}

/// The bytes that `value` is the base64 text of.
///
/// Calls `Engine::decode` of `base64` with its `URL_SAFE_NO_PAD` engine. The
/// contract says that it accepts exactly the texts that some bytes encode to
/// (no padding, no other symbols, no set bits after the last byte) and returns
/// those bytes. Which `DecodeError` reports a refused text is left unsaid.
#[verifier::external_body]
pub fn decode(value: &str) -> (r: Result<Vec<u8>, base64::DecodeError>)
    ensures
        match r {
            Ok(bytes) => decoded(value@) == Some(bytes@),
            Err(_) => decoded(value@) is None,
        },
{
    URL_SAFE_NO_PAD.decode(value)
}

proof fn lemma_symbol_injective(a: int, b: int)
    requires
        0 <= a < 64,
        0 <= b < 64,
        symbol(a) == symbol(b),
    ensures
        a == b,
{
}

proof fn lemma_sextet_range(bytes: Seq<u8>, i: int)
    requires
        0 <= i,
    ensures
        0 <= sextet(bytes, i) < 64,
{
}

/// No two byte strings share a base64 text: what was encoded can be told from
/// its text alone.
pub proof fn encoding_is_injective(a: Seq<u8>, b: Seq<u8>)
    requires
        encoded(a) == encoded(b),
    ensures
        a == b,
{
    assert(encoded(a).len() == encoded_len(a.len() as int));
    assert(encoded(b).len() == encoded_len(b.len() as int));
    assert(a.len() == b.len());
    assert forall|i: int| 0 <= i < encoded(a).len() implies sextet(a, i) == sextet(b, i) by {
        assert(encoded(a)[i] == symbol(sextet(a, i)));
        assert(encoded(b)[i] == symbol(sextet(b, i)));
        lemma_sextet_range(a, i);
        lemma_sextet_range(b, i);
        lemma_symbol_injective(sextet(a, i), sextet(b, i));
    }
    assert forall|k: int| 0 <= k < a.len() implies a[k] == b[k] by {
        let first = k / 3 * 4 + k % 3;
        assert(first + 1 < encoded(a).len());
        assert(sextet(a, first) == sextet(b, first));
        assert(sextet(a, first + 1) == sextet(b, first + 1));
    }
    assert(a =~= b);
}

/// Decoding gives back what was encoded.
pub proof fn decode_inverts_encode(bytes: Seq<u8>)
    ensures
        decoded(encoded(bytes)) == Some(bytes),
{
    let back = choose|b: Seq<u8>| #[trigger] encoded(b) == encoded(bytes);
    encoding_is_injective(back, bytes);
}

/// Encoding gives back what was decoded: a text that decodes at all is the one
/// text of its bytes.
pub proof fn encode_inverts_decode(text: Seq<char>)
    requires
        decoded(text) is Some,
    ensures
        encoded(decoded(text)->0) == text,
{
}

} // verus!
