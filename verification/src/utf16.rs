//! Lossy decoding of UTF-16 code units into text.

use vstd::prelude::*;
use crate::text::{before_first_null, null_index_from};

verus! {

/// Whether a code unit is the first half of a surrogate pair.
pub open spec fn is_high_surrogate(unit: u16) -> bool {
    0xD800 <= unit <= 0xDBFF
}

/// Whether a code unit is the second half of a surrogate pair.
pub open spec fn is_low_surrogate(unit: u16) -> bool {
    0xDC00 <= unit <= 0xDFFF
}

/// Whether a surrogate pair starts at index `at`.
pub open spec fn pair_at(units: Seq<u16>, at: int) -> bool {
    &&& at + 1 < units.len()
    &&& is_high_surrogate(units[at])
    &&& is_low_surrogate(units[at + 1])
}

/// The scalar value that a surrogate pair encodes.
pub open spec fn pair_scalar(high: u16, low: u16) -> int {
    0x1_0000 + (high - 0xD800) * 0x400 + (low - 0xDC00)
}

/// The character that stands in for a code unit that cannot be decoded.
pub open spec fn replacement() -> char {
    '\u{FFFD}'
}

/// The text that the code units from index `from` on decode to. A code unit
/// outside the surrogate range is its own character, a surrogate pair is the
/// character it encodes, and a surrogate without its partner is replaced.
pub open spec fn decode_lossy_from(units: Seq<u16>, from: int) -> Seq<char>
    decreases units.len() - from,
{
    if from < 0 || from >= units.len() {
        Seq::empty()
    } else if !is_high_surrogate(units[from]) && !is_low_surrogate(units[from]) {
        seq![units[from] as char] + decode_lossy_from(units, from + 1)
    } else if pair_at(units, from) {
        seq![pair_scalar(units[from], units[from + 1]) as char] + decode_lossy_from(
            units,
            from + 2,
        )
    } else {
        seq![replacement()] + decode_lossy_from(units, from + 1)
    }
}

/// The text that a sequence of code units decodes to.
pub open spec fn decode_lossy(units: Seq<u16>) -> Seq<char> {
    decode_lossy_from(units, 0)
}

/// Whether a number is a Unicode scalar value.
pub open spec fn is_scalar_value(value: u32) -> bool {
    value <= 0xD7FF || 0xE000 <= value <= 0x10_FFFF
}

/// Trusted: `char::from_u32` of the standard library. Its documentation says
/// that it returns `None` exactly when the number is not a valid `char`, that
/// is no Unicode scalar value, and otherwise the `char` with that number.
#[verifier::external_body]
fn char_from_u32(value: u32) -> (made: Option<char>)
    ensures
        made is Some <==> is_scalar_value(value),
        made matches Some(c) ==> c as u32 == value,
{
    char::from_u32(value)
}

/// Trusted: `String::push` of the standard library, which appends the given
/// character to the end of the string.
#[verifier::external_body]
fn push_char(text: &mut String, c: char)
    ensures
        final(text)@ == old(text)@.push(c),
{
    text.push(c)
}

/// Decodes UTF-16 code units into text, replacing each surrogate that has no
/// partner by U+FFFD.
pub fn from_utf16_lossy(units: &[u16]) -> (text: String)
    ensures
        text@ == decode_lossy(units@),
{
    let mut text = String::new();
    let mut at: usize = 0;
    while at < units.len()
        invariant
            at <= units.len(),
            text@ + decode_lossy_from(units@, at as int) == decode_lossy(units@),
        decreases units.len() - at,
    {
        let unit: u16 = units[at];
        let mut step: usize = 1;
        let mut scalar: u32 = 0xFFFD;
        if unit < 0xD800 || unit > 0xDFFF {
            scalar = unit as u32;
        } else if unit <= 0xDBFF && at + 1 < units.len() {
            let next: u16 = units[at + 1];
            if 0xDC00 <= next && next <= 0xDFFF {
                scalar = 0x1_0000 + (unit as u32 - 0xD800) * 0x400 + (next as u32 - 0xDC00);
                step = 2;
            }
        }
        let ghost before = text@;
        assert(is_scalar_value(scalar));
        assert(decode_lossy_from(units@, at as int) == seq![scalar as char] + decode_lossy_from(
            units@,
            at + step,
        ));
        match char_from_u32(scalar) {
            Some(c) => {
                proof {
                    vstd::utf8::char_u32_cast(c, scalar);
                }
                push_char(&mut text, c);
                assert(text@ == before + seq![c]);
            },
            None => {
                assert(false);
            },
        }
        assert((before + seq![scalar as char]) + decode_lossy_from(units@, at + step)
            == before + (seq![scalar as char] + decode_lossy_from(units@, at + step)));
        at = at + step;
    }
    assert(decode_lossy_from(units@, at as int) == Seq::<char>::empty());
    text
}

/// Decoding is compositional at a code unit outside the surrogate range: the
/// text of the whole is the text before that unit followed by the text from
/// it on.
pub proof fn lemma_decode_splits_at_plain_unit(units: Seq<u16>, from: int, at: int)
    requires
        0 <= from <= at < units.len(),
        !is_high_surrogate(units[at]),
        !is_low_surrogate(units[at]),
    ensures
        decode_lossy_from(units, from) == decode_lossy_from(units.take(at), from)
            + decode_lossy_from(units, at),
    decreases at - from,
{
    let head = units.take(at);
    if from == at {
        assert(decode_lossy_from(head, from) == Seq::<char>::empty());
    } else if !is_high_surrogate(units[from]) && !is_low_surrogate(units[from]) {
        lemma_decode_splits_at_plain_unit(units, from + 1, at);
        assert(decode_lossy_from(units, from) == (seq![units[from] as char] + decode_lossy_from(
            head,
            from + 1,
        )) + decode_lossy_from(units, at));
    } else if pair_at(units, from) {
        assert(from + 1 < at);
        assert(pair_at(head, from));
        lemma_decode_splits_at_plain_unit(units, from + 2, at);
        assert(decode_lossy_from(units, from) == (seq![
            pair_scalar(units[from], units[from + 1]) as char,
        ] + decode_lossy_from(head, from + 2)) + decode_lossy_from(units, at));
    } else {
        assert(!pair_at(head, from));
        lemma_decode_splits_at_plain_unit(units, from + 1, at);
        assert(decode_lossy_from(units, from) == (seq![replacement()] + decode_lossy_from(
            head,
            from + 1,
        )) + decode_lossy_from(units, at));
    }
}

/// The index of the first null code unit at or after `from`, or the number
/// of code units if there is none.
pub open spec fn null_unit_index_from(units: Seq<u16>, from: int) -> int
    decreases units.len() - from,
{
    if from >= units.len() {
        units.len() as int
    } else if units[from] == 0 {
        from
    } else {
        null_unit_index_from(units, from + 1)
    }
}

/// The code units before the first null code unit; all if there is none.
pub open spec fn before_first_null_unit(units: Seq<u16>) -> Seq<u16> {
    units.take(null_unit_index_from(units, 0))
}

/// Where the search for a null code unit from `from` stops: at one, or at
/// the end, with none in between.
proof fn lemma_null_unit_index(units: Seq<u16>, from: int)
    requires
        0 <= from <= units.len(),
    ensures
        from <= null_unit_index_from(units, from) <= units.len(),
        null_unit_index_from(units, from) < units.len() ==> units[null_unit_index_from(
            units,
            from,
        )] == 0,
        forall|i: int| from <= i < null_unit_index_from(units, from) ==> units[i] != 0,
    decreases units.len() - from,
{
    if from < units.len() && units[from] != 0 {
        lemma_null_unit_index(units, from + 1);
    }
}

/// Code units without a null code unit decode to text without a null
/// character.
proof fn lemma_decoding_adds_no_null(units: Seq<u16>, from: int)
    requires
        0 <= from,
        forall|i: int| from <= i < units.len() ==> units[i] != 0,
    ensures
        forall|i: int|
            0 <= i < decode_lossy_from(units, from).len() ==> decode_lossy_from(units, from)[i]
                != '\0',
    decreases units.len() - from,
{
    if from < units.len() {
        let text = decode_lossy_from(units, from);
        if !is_high_surrogate(units[from]) && !is_low_surrogate(units[from]) {
            lemma_decoding_adds_no_null(units, from + 1);
            let rest = decode_lossy_from(units, from + 1);
            assert(text == seq![units[from] as char] + rest);
            assert forall|i: int| 0 <= i < text.len() implies text[i] != '\0' by {
                if i > 0 {
                    assert(text[i] == rest[i - 1]);
                }
            }
        } else if pair_at(units, from) {
            lemma_decoding_adds_no_null(units, from + 2);
            let rest = decode_lossy_from(units, from + 2);
            assert(text == seq![pair_scalar(units[from], units[from + 1]) as char] + rest);
            assert forall|i: int| 0 <= i < text.len() implies text[i] != '\0' by {
                if i > 0 {
                    assert(text[i] == rest[i - 1]);
                }
            }
        } else {
            lemma_decoding_adds_no_null(units, from + 1);
            let rest = decode_lossy_from(units, from + 1);
            assert(text == seq![replacement()] + rest);
            assert forall|i: int| 0 <= i < text.len() implies text[i] != '\0' by {
                if i > 0 {
                    assert(text[i] == rest[i - 1]);
                }
            }
        }
    }
}

/// In a text made of a part without a null character and a part that
/// begins with one, the first null character is where the second part
/// begins.
proof fn lemma_null_index_of_joined(head: Seq<char>, rest: Seq<char>, from: int)
    requires
        0 <= from <= head.len(),
        forall|i: int| 0 <= i < head.len() ==> head[i] != '\0',
        rest.len() > 0,
        rest[0] == '\0',
    ensures
        null_index_from(head + rest, from) == head.len(),
    decreases head.len() - from,
{
    if from < head.len() {
        assert((head + rest)[from] == head[from]);
        lemma_null_index_of_joined(head, rest, from + 1);
    } else {
        assert((head + rest)[from] == rest[0]);
    }
}

/// Cutting at the first null goes through the decoding: the decoded text up
/// to its first null character is what the code units before the first null
/// code unit decode to. So a name whose code units hold a null code unit is
/// exactly the text of the code units before the first one.
pub proof fn lemma_cut_commutes_with_decoding(units: Seq<u16>)
    ensures
        before_first_null(decode_lossy(units)) == decode_lossy(before_first_null_unit(units)),
{
    lemma_null_unit_index(units, 0);
    let cut = null_unit_index_from(units, 0);
    let head_units = units.take(cut);
    let head = decode_lossy(head_units);
    lemma_decoding_adds_no_null(head_units, 0);
    crate::text::lemma_cut_at_first_null(head);
    if cut == units.len() {
        assert(head_units == units);
        assert(!crate::text::has_null(head));
    } else {
        lemma_decode_splits_at_plain_unit(units, 0, cut);
        let rest = decode_lossy_from(units, cut);
        assert(rest == seq![units[cut] as char] + decode_lossy_from(units, cut + 1));
        assert(rest[0] == '\0');
        lemma_null_index_of_joined(head, rest, 0);
        assert((head + rest).take(head.len() as int) == head);
    }
}

} // verus!
