//! Laws of the text encodings: trimming, hexadecimal, decimal and base64.

use vstd::prelude::*;

use crate::base64url::{
    decode, decode_inverts_encode, encode, encoded, encoded_len, sextet, symbol,
};
use crate::random::random_id;
use crate::text::{
    decimal, digits, hex, hex_digit, is_white_space, same, to_decimal, to_hex, trim,
    trim_end_slashes, trimmed, trimmed_end, trimmed_start, without_trailing_slashes,
};

verus! {

/// Nothing but white space.
pub open spec fn blank(s: Seq<char>) -> bool {
    forall|i: int| 0 <= i < s.len() ==> is_white_space(#[trigger] s[i])
}

/// Nothing but slashes.
pub open spec fn slashes(s: Seq<char>) -> bool {
    forall|i: int| 0 <= i < s.len() ==> #[trigger] s[i] == '/'
}

/// No white space on either side.
pub open spec fn is_trim(s: Seq<char>) -> bool {
    s.len() > 0 ==> !is_white_space(s[0]) && !is_white_space(s.last())
}

proof fn lemma_start(lead: Seq<char>, rest: Seq<char>)
    requires
        blank(lead),
        rest.len() > 0 ==> !is_white_space(rest[0]),
    ensures
        trimmed_start(lead + rest) == rest,
    decreases lead.len(),
{
    if lead.len() > 0 {
        assert((lead + rest)[0] == lead[0]);
        assert((lead + rest).drop_first() =~= lead.drop_first() + rest);
        lemma_start(lead.drop_first(), rest);
    } else {
        assert(lead + rest =~= rest);
    }
}

proof fn lemma_end(rest: Seq<char>, trail: Seq<char>)
    requires
        blank(trail),
        rest.len() > 0 ==> !is_white_space(rest.last()),
    ensures
        trimmed_end(rest + trail) == rest,
    decreases trail.len(),
{
    if trail.len() > 0 {
        assert((rest + trail).last() == trail.last());
        assert((rest + trail).drop_last() =~= rest + trail.drop_last());
        lemma_end(rest, trail.drop_last());
    } else {
        assert(rest + trail =~= rest);
    }
}

/// White space around a text, however much, is taken off; the text between
/// stays as it is.
pub proof fn trimming_takes_off_the_white_space_around(
    s: &str,
    r: &str,
    lead: Seq<char>,
    core: Seq<char>,
    trail: Seq<char>,
)
    requires
        call_ensures(trim, (s,), r),
        s@ == lead + core + trail,
        blank(lead),
        is_trim(core),
        blank(trail),
    ensures
        r@ == core,
{
    lemma_trimmed(lead, core, trail);
}

pub(crate) proof fn lemma_trimmed(lead: Seq<char>, core: Seq<char>, trail: Seq<char>)
    requires
        blank(lead),
        is_trim(core),
        blank(trail),
    ensures
        trimmed(lead + core + trail) == core,
{
    if core.len() > 0 {
        assert(lead + core + trail =~= lead + (core + trail));
        lemma_start(lead, core + trail);
        lemma_end(core, trail);
    } else {
        let all = lead + core + trail;
        assert forall|i: int| 0 <= i < all.len() implies is_white_space(#[trigger] all[i]) by {
            if i < lead.len() {
                assert(all[i] == lead[i]);
            } else {
                assert(all[i] == trail[i - lead.len()]);
            }
        }
        lemma_start(all, core);
        assert(all + core =~= all);
    }
}

/// What trimming leaves has no white space on either side.
pub proof fn what_is_left_is_trim(s: &str, r: &str)
    requires
        call_ensures(trim, (s,), r),
    ensures
        is_trim(r@),
        r@.len() <= s@.len(),
{
    lemma_start_is_trim(s@);
    lemma_end_is_trim(trimmed_start(s@));
}

proof fn lemma_start_is_trim(s: Seq<char>)
    ensures
        trimmed_start(s).len() > 0 ==> !is_white_space(trimmed_start(s)[0]),
        trimmed_start(s).len() <= s.len(),
    decreases s.len(),
{
    if s.len() > 0 && is_white_space(s[0]) {
        lemma_start_is_trim(s.drop_first());
    }
}

proof fn lemma_end_is_trim(s: Seq<char>)
    ensures
        trimmed_end(s).len() > 0 ==> !is_white_space(trimmed_end(s).last()) && trimmed_end(s)[0]
            == s[0],
        trimmed_end(s).len() <= s.len(),
    decreases s.len(),
{
    if s.len() > 0 && is_white_space(s.last()) {
        lemma_end_is_trim(s.drop_last());
    }
}

pub(crate) proof fn lemma_slashes(base: Seq<char>, tail: Seq<char>)
    requires
        slashes(tail),
        base.len() > 0 ==> base.last() != '/',
    ensures
        without_trailing_slashes(base + tail) == base,
    decreases tail.len(),
{
    if tail.len() > 0 {
        assert((base + tail).last() == tail.last());
        assert((base + tail).drop_last() =~= base + tail.drop_last());
        lemma_slashes(base, tail.drop_last());
    } else {
        assert(base + tail =~= base);
    }
}

/// Slashes at the end, however many, are taken off; what stands before them
/// stays as it is.
pub proof fn trailing_slashes_are_taken_off(s: &str, r: &str, base: Seq<char>, tail: Seq<char>)
    requires
        call_ensures(trim_end_slashes, (s,), r),
        s@ == base + tail,
        base.len() > 0 ==> base.last() != '/',
        slashes(tail),
    ensures
        r@ == base,
{
    lemma_slashes(base, tail);
}

/// Two texts are the same when they agree in every place.
pub proof fn sameness_is_by_character(a: &str, b: &str, r: bool)
    requires
        call_ensures(same, (a, b), r),
    ensures
        r <==> (a@.len() == b@.len() && forall|i: int| 0 <= i < a@.len() ==> a@[i] == b@[i]),
{
    if a@.len() == b@.len() && forall|i: int| 0 <= i < a@.len() ==> a@[i] == b@[i] {
        assert(a@ =~= b@);
    }
}

/// What a lower-case hexadecimal digit stands for.
pub open spec fn hex_value(c: char) -> int {
    if '0' <= c <= '9' {
        c as int - '0' as int
    } else {
        c as int - 'a' as int + 10
    }
}

/// A lower-case hexadecimal digit.
pub open spec fn is_hex(c: char) -> bool {
    '0' <= c <= '9' || 'a' <= c <= 'f'
}

/// Every byte can be read off its two lower-case digits, the high one first.
pub proof fn hexadecimal_spells_every_byte(bytes: &[u8], r: String)
    requires
        call_ensures(to_hex, (bytes,), r),
    ensures
        r@.len() == 2 * bytes@.len(),
        forall|i: int| 0 <= i < r@.len() ==> is_hex(#[trigger] r@[i]),
        forall|k: int|
            0 <= k < bytes@.len() ==> #[trigger] bytes@[k] == 16 * hex_value(r@[2 * k]) + hex_value(
                r@[2 * k + 1],
            ),
{
    lemma_hex(bytes@);
}

proof fn lemma_hex(bytes: Seq<u8>)
    ensures
        hex(bytes).len() == 2 * bytes.len(),
        forall|i: int| 0 <= i < hex(bytes).len() ==> is_hex(#[trigger] hex(bytes)[i]),
        forall|k: int|
            0 <= k < bytes.len() ==> #[trigger] bytes[k] == 16 * hex_value(hex(bytes)[2 * k])
                + hex_value(hex(bytes)[2 * k + 1]),
{
    assert forall|k: int| 0 <= k < bytes.len() implies #[trigger] bytes[k] == 16 * hex_value(
        hex(bytes)[2 * k],
    ) + hex_value(hex(bytes)[2 * k + 1]) by {
        assert(2 * k / 2 == k && (2 * k + 1) / 2 == k);
        assert(hex(bytes)[2 * k] == hex_digit(bytes[k] as int / 16));
        assert(hex(bytes)[2 * k + 1] == hex_digit(bytes[k] as int % 16));
    }
}

/// A fresh id has thirty-two lower-case hexadecimal digits.
pub proof fn ids_are_hexadecimal(r: String)
    requires
        call_ensures(random_id, (), r),
    ensures
        r@.len() == 32,
        forall|i: int| 0 <= i < r@.len() ==> is_hex(#[trigger] r@[i]),
{
    let bytes = choose|bytes: Seq<u8>| bytes.len() == 16 && r@ == #[trigger] hex(bytes);
    lemma_hex(bytes);
}

/// The number that decimal digits spell.
pub open spec fn number(s: Seq<char>) -> int
    decreases s.len(),
{
    if s.len() == 0 {
        0
    } else {
        10 * number(s.drop_last()) + (s.last() as int - '0' as int)
    }
}

/// Decimal digits, without a zero in front.
pub open spec fn is_numeral(s: Seq<char>) -> bool {
    &&& s.len() > 0
    &&& forall|i: int| 0 <= i < s.len() ==> '0' <= #[trigger] s[i] <= '9'
    &&& s.len() > 1 ==> s[0] != '0'
}

proof fn lemma_digits(n: nat)
    ensures
        is_numeral(digits(n)),
        number(digits(n)) == n,
        n > 0 ==> digits(n)[0] != '0',
    decreases n,
{
    reveal_with_fuel(number, 2);
    if n < 10 {
        assert(digits(n).drop_last() =~= Seq::empty());
    } else {
        lemma_digits(n / 10);
        assert(digits(n).drop_last() =~= digits(n / 10));
        assert(digits(n)[0] == digits(n / 10)[0]);
    }
}

/// A number can be read off its digits; a minus sign stands before those of a
/// negative one, and nothing else.
pub proof fn decimal_spells_the_number(n: i64, r: String)
    requires
        call_ensures(to_decimal, (n,), r),
    ensures
        n >= 0 ==> is_numeral(r@) && number(r@) == n,
        n < 0 ==> r@.len() > 0 && r@[0] == '-' && is_numeral(r@.skip(1)) && number(r@.skip(1))
            == -n,
{
    lemma_decimal(n as int);
}

pub(crate) proof fn lemma_decimal(n: int)
    ensures
        n >= 0 ==> is_numeral(decimal(n)) && number(decimal(n)) == n,
        n < 0 ==> decimal(n).len() > 0 && decimal(n)[0] == '-' && is_numeral(decimal(n).skip(1))
            && number(decimal(n).skip(1)) == -n,
{
    if n < 0 {
        lemma_digits((-n) as nat);
        assert(decimal(n).skip(1) =~= digits((-n) as nat));
    } else {
        lemma_digits(n as nat);
    }
}

/// What a symbol of the URL-safe base64 alphabet stands for.
pub open spec fn symbol_value(c: char) -> int {
    if 'A' <= c <= 'Z' {
        c as int - 'A' as int
    } else if 'a' <= c <= 'z' {
        c as int - 'a' as int + 26
    } else if '0' <= c <= '9' {
        c as int - '0' as int + 52
    } else if c == '-' {
        62
    } else {
        63
    }
}

/// A symbol of the URL-safe base64 alphabet.
pub open spec fn is_url_safe(c: char) -> bool {
    'A' <= c <= 'Z' || 'a' <= c <= 'z' || '0' <= c <= '9' || c == '-' || c == '_'
}

proof fn lemma_symbol(v: int)
    requires
        0 <= v < 64,
    ensures
        is_url_safe(symbol(v)),
        symbol_value(symbol(v)) == v,
{
}

/// Three bytes stand in four symbols of six bits each, first things first:
/// every byte can be read off the text, which has no padding and no symbol that
/// a URL does not take.
pub proof fn base64_spells_every_byte(bytes: &[u8], r: String)
    requires
        call_ensures(encode, (bytes,), r),
    ensures
        4 * bytes@.len() <= 3 * r@.len() < 4 * bytes@.len() + 3,
        forall|i: int| 0 <= i < r@.len() ==> is_url_safe(#[trigger] r@[i]),
        forall|q: int|
            0 <= q && 3 * q < bytes@.len() ==> #[trigger] bytes@[3 * q] == 4 * symbol_value(
                r@[4 * q],
            ) + symbol_value(r@[4 * q + 1]) / 16,
        forall|q: int|
            0 <= q && 3 * q + 1 < bytes@.len() ==> #[trigger] bytes@[3 * q + 1] == 16 * (
            symbol_value(r@[4 * q + 1]) % 16) + symbol_value(r@[4 * q + 2]) / 4,
        forall|q: int|
            0 <= q && 3 * q + 2 < bytes@.len() ==> #[trigger] bytes@[3 * q + 2] == 64 * (
            symbol_value(r@[4 * q + 2]) % 4) + symbol_value(r@[4 * q + 3]),
{
    let b = bytes@;
    assert(r@.len() == encoded_len(b.len() as int));
    assert forall|i: int| 0 <= i < r@.len() implies is_url_safe(#[trigger] r@[i]) && symbol_value(
        r@[i],
    ) == sextet(b, i) by {
        assert(r@[i] == symbol(sextet(b, i)));
        assert(0 <= sextet(b, i) < 64);
        lemma_symbol(sextet(b, i));
    }
    assert forall|q: int| 0 <= q && 3 * q < b.len() implies #[trigger] b[3 * q] == 4
        * symbol_value(r@[4 * q]) + symbol_value(r@[4 * q + 1]) / 16 by {
        assert(4 * q + 1 < r@.len());
        assert(4 * q / 4 == q && (4 * q + 1) / 4 == q);
    }
    assert forall|q: int| 0 <= q && 3 * q + 1 < b.len() implies #[trigger] b[3 * q + 1] == 16 * (
    symbol_value(r@[4 * q + 1]) % 16) + symbol_value(r@[4 * q + 2]) / 4 by {
        assert(4 * q + 2 < r@.len());
        assert((4 * q + 1) / 4 == q && (4 * q + 2) / 4 == q);
    }
    assert forall|q: int| 0 <= q && 3 * q + 2 < b.len() implies #[trigger] b[3 * q + 2] == 64 * (
    symbol_value(r@[4 * q + 2]) % 4) + symbol_value(r@[4 * q + 3]) by {
        assert(4 * q + 3 < r@.len());
        assert((4 * q + 2) / 4 == q && (4 * q + 3) / 4 == q);
    }
}

/// Decoding a text that was encoded gives the bytes back.
pub proof fn base64_comes_back(
    bytes: &[u8],
    text: String,
    value: &str,
    r: Result<Vec<u8>, base64::DecodeError>,
)
    requires
        call_ensures(encode, (bytes,), text),
        value@ == text@,
        call_ensures(decode, (value,), r),
    ensures
        r is Ok,
        r->Ok_0@ == bytes@,
{
    decode_inverts_encode(bytes@);
}

/// A text is decoded to the bytes that it is the text of, and to no others.
pub proof fn what_was_decoded_encodes_to_the_text(
    value: &str,
    bytes: Vec<u8>,
    again: &[u8],
    text: String,
)
    requires
        call_ensures(decode, (value,), Ok::<Vec<u8>, base64::DecodeError>(bytes)),
        again@ == bytes@,
        call_ensures(encode, (again,), text),
    ensures
        text@ == value@,
{
    assert(encoded(bytes@) == value@);
}

} // verus!
