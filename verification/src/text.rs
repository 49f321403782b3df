//! Text operations on process names: cutting at the first null character and
//! prefix matching.

use vstd::prelude::*;
use vstd::string::StrSliceExecFns;

verus! {

/// The index of the first null character at or after `from`, or the length of
/// the text if there is none.
pub open spec fn null_index_from(chars: Seq<char>, from: int) -> int
    decreases chars.len() - from,
{
    if from >= chars.len() {
        chars.len() as int
    } else if chars[from] == '\0' {
        from
    } else {
        null_index_from(chars, from + 1)
    }
}

/// The text before its first null character; all of it if it has none.
pub open spec fn before_first_null(chars: Seq<char>) -> Seq<char> {
    chars.take(null_index_from(chars, 0))
}

/// Whether the text holds a null character.
pub open spec fn has_null(chars: Seq<char>) -> bool {
    exists|i: int| 0 <= i < chars.len() && chars[i] == '\0'
}

/// Cuts the text at its first null character, which goes too. A text without
/// one is left as it is.
pub fn truncate_to_first_null_char(input: &mut String)
    ensures
        final(input)@ == before_first_null(old(input)@),
{
    let count = input.as_str().unicode_len();
    let mut at: usize = 0;
    let mut found = false;
    for c in it: input.as_str().chars()
        invariant
            it.seq() == input@,
            count == input@.len(),
            input@ == old(input)@,
            !found ==> at == it.index() && null_index_from(input@, 0) == null_index_from(
                input@,
                at as int,
            ),
            found ==> at < count && null_index_from(input@, 0) == at,
    {
        if !found {
            if c == '\0' {
                found = true;
            } else {
                at = at + 1;
            }
        }
    }
    if at < count {
        let kept = input.as_str().substring_char(0, at).to_owned();
        *input = kept;
    } else {
        assert(input@.take(count as int) == input@);
    }
}

/// The characters of a text, in order.
fn chars_of(text: &str) -> (chars: Vec<char>)
    ensures
        chars@ == text@,
{
    let mut chars: Vec<char> = Vec::new();
    for c in it: text.chars()
        invariant
            it.seq() == text@,
            chars@ == text@.take(it.index()),
    {
        chars.push(c);
        assert(text@.take(it.index() + 1) == text@.take(it.index()).push(c));
    }
    assert(text@.take(text@.len() as int) == text@);
    chars
}

/// Whether `text` begins with `prefix`, character for character.
pub fn starts_with(text: &str, prefix: &str) -> (found: bool)
    ensures
        found == prefix@.is_prefix_of(text@),
{
    let have = chars_of(text);
    let wanted = chars_of(prefix);
    if have.len() < wanted.len() {
        return false;
    }
    let mut at: usize = 0;
    while at < wanted.len()
        invariant
            at <= wanted.len() <= have.len(),
            have@ == text@,
            wanted@ == prefix@,
            forall|i: int| 0 <= i < at ==> text@[i] == prefix@[i],
        decreases wanted.len() - at,
    {
        if have[at] != wanted[at] {
            assert(text@.subrange(0, prefix@.len() as int)[at as int] != prefix@[at as int]);
            return false;
        }
        at = at + 1;
    }
    assert(text@.subrange(0, prefix@.len() as int) == prefix@);
    true
}

/// A text that holds a null character is exposed as exactly the part before
/// the first one; a text that holds none is exposed whole. What is exposed
/// never holds a null character.
pub proof fn lemma_cut_at_first_null(chars: Seq<char>)
    ensures
        0 <= null_index_from(chars, 0) <= chars.len(),
        has_null(chars) ==> null_index_from(chars, 0) < chars.len() && chars[null_index_from(
            chars,
            0,
        )] == '\0',
        forall|i: int| 0 <= i < null_index_from(chars, 0) ==> chars[i] != '\0',
        !has_null(chars) ==> before_first_null(chars) == chars,
        !has_null(before_first_null(chars)),
        before_first_null(chars).is_prefix_of(chars),
{
    lemma_null_index_from(chars, 0);
    let cut = null_index_from(chars, 0);
    if !has_null(chars) {
        assert(cut == chars.len());
        assert(chars.take(cut) == chars);
    }
    assert(chars.take(cut) == chars.subrange(0, chars.take(cut).len() as int));
}

/// Where the search from `from` stops: at a null character or at the end,
/// with no null character in between.
proof fn lemma_null_index_from(chars: Seq<char>, from: int)
    requires
        0 <= from <= chars.len(),
    ensures
        from <= null_index_from(chars, from) <= chars.len(),
        null_index_from(chars, from) < chars.len() ==> chars[null_index_from(chars, from)] == '\0',
        forall|i: int| from <= i < null_index_from(chars, from) ==> chars[i] != '\0',
    decreases chars.len() - from,
{
    if from < chars.len() && chars[from] != '\0' {
        lemma_null_index_from(chars, from + 1);
    }
}

} // verus!
