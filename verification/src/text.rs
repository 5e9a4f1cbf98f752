//! Small functions on strings, stated over their characters.

use vstd::prelude::*;

verus! {

/// The characters of `text`, in order.
pub fn chars_of(text: &str) -> (chars: Vec<char>)
    ensures
        chars@ == text@,
{
    let mut chars: Vec<char> = Vec::new();
    for c in iter: text.chars()
        invariant
            chars@ == text@.take(iter.index() as int),
            iter.seq() == text@,
    {
        chars.push(c);
        assert(text@.take(iter.index() + 1) =~= text@.take(iter.index() as int).push(c));
    }
    assert(text@.take(text@.len() as int) =~= text@);
    chars
}

/// Whether two texts are the same.
pub fn equals(text: &str, other: &str) -> (same: bool)
    ensures
        same == (text@ == other@),
{
    let a = chars_of(text);
    let b = chars_of(other);
    a.len() == b.len() && stands_at(&a, &b, 0)
}

/// Whether `text` begins with `prefix`.
pub fn starts_with(text: &str, prefix: &str) -> (found: bool)
    ensures
        found == prefix@.is_prefix_of(text@),
{
    let a = chars_of(text);
    let b = chars_of(prefix);
    b.len() <= a.len() && stands_at(&a, &b, 0)
}

/// Whether `text` ends with `suffix`.
pub fn ends_with(text: &str, suffix: &str) -> (found: bool)
    ensures
        found == suffix@.is_suffix_of(text@),
{
    let a = chars_of(text);
    let b = chars_of(suffix);
    b.len() <= a.len() && stands_at(&a, &b, a.len() - b.len())
}

/// Whether the characters `part` stand in `whole` at position `at`.
fn stands_at(whole: &Vec<char>, part: &Vec<char>, at: usize) -> (found: bool)
    requires
        at + part@.len() <= whole@.len(),
    ensures
        found == (whole@.subrange(at as int, at + part@.len()) == part@),
        at == 0 && whole@.len() == part@.len() ==> found == (whole@ == part@),
{
    let mut i: usize = 0;
    while i < part.len()
        invariant
            i <= part@.len(),
            at + part@.len() <= whole.len(),
            forall|k: int| 0 <= k < i ==> whole@[at + k] == part@[k],
        decreases part@.len() - i,
    {
        if whole[at + i] != part[i] {
            assert(whole@.subrange(at as int, at + part@.len())[i as int] != part@[i as int]);
            return false;
        }
        i = i + 1;
    }
    assert(whole@.subrange(at as int, at + part@.len()) =~= part@);
    assert(at == 0 && whole@.len() == part@.len() ==> whole@ =~= part@);
    true
}

/// Whether `text` holds the character `wanted`.
pub fn contains_char(text: &str, wanted: char) -> (found: bool)
    ensures
        found == text@.contains(wanted),
{
    let chars = chars_of(text);
    let mut i: usize = 0;
    while i < chars.len()
        invariant
            i <= chars@.len(),
            chars@ == text@,
            forall|k: int| 0 <= k < i ==> text@[k] != wanted,
        decreases chars@.len() - i,
    {
        if chars[i] == wanted {
            assert(text@[i as int] == wanted);
            return true;
        }
        i = i + 1;
    }
    false
}

/// Where the last part of `text` starts, when `text` is cut at each `separator`.
pub open spec fn last_part_start(text: Seq<char>, separator: char) -> int
    decreases text.len(),
{
    if text.len() == 0 || text.last() == separator {
        text.len() as int
    } else {
        last_part_start(text.drop_last(), separator)
    }
}

/// What follows the last `separator` of `text`, or all of `text` where it holds none.
pub open spec fn last_part(text: Seq<char>, separator: char) -> Seq<char> {
    text.skip(last_part_start(text, separator))
}

/// The last part of a text ends the text, holds no separator, and stands right behind one
/// unless it is the whole text.
pub proof fn law_last_part(text: Seq<char>, separator: char)
    ensures
        0 <= last_part_start(text, separator) <= text.len(),
        last_part(text, separator).is_suffix_of(text),
        !last_part(text, separator).contains(separator),
        last_part_start(text, separator) > 0 ==> text[last_part_start(text, separator) - 1]
            == separator,
    decreases text.len(),
{
    let start = last_part_start(text, separator);
    if text.len() > 0 && text.last() != separator {
        let shorter = text.drop_last();
        law_last_part(shorter, separator);
        assert forall|i: int| 0 <= i < last_part(text, separator).len() implies last_part(
            text,
            separator,
        )[i] != separator by {
            if start + i < shorter.len() {
                assert(last_part(shorter, separator)[i] == shorter[start + i]);
                assert(last_part(shorter, separator).contains(shorter[start + i]));
            }
        }
    }
    assert(text.subrange(start, text.len() as int) =~= last_part(text, separator));
}

/// What follows the last `separator` of `text`, or all of `text` where it holds none.
pub fn after_last(text: &str, separator: char) -> (part: String)
    ensures
        part@ == last_part(text@, separator),
{
    let chars = chars_of(text);
    let mut start: usize = chars.len();
    assert(chars@.take(start as int) =~= chars@);
    while start > 0 && chars[start - 1] != separator
        invariant
            start <= chars@.len(),
            last_part_start(chars@.take(start as int), separator) == last_part_start(
                chars@,
                separator,
            ),
        decreases start,
    {
        assert(chars@.take(start as int).drop_last() =~= chars@.take(start - 1));
        start = start - 1;
    }
    assert(text@.subrange(start as int, text@.len() as int) =~= text@.skip(start as int));
    text.substring_char(start, chars.len()).to_owned()
}

/// `first` followed by `second`.
pub fn join(first: &str, second: &str) -> (joined: String)
    ensures
        joined@ == first@ + second@,
{
    let mut joined = first.to_owned();
    joined.append(second);
    joined
}

/// What follows the last separator of a text is its last part, and a text without a separator
/// is its own last part.
pub(crate) proof fn lemma_last_part_is_name(
    text: Seq<char>,
    separator: char,
    front: Seq<char>,
    name: Seq<char>,
)
    requires
        !name.contains(separator),
        text == front + seq![separator] + name || text == name,
    ensures
        last_part(text, separator) == name,
{
    law_last_part(text, separator);
    let part = last_part(text, separator);
    let start = last_part_start(text, separator);
    let expected = text.len() - name.len();
    assert(text.skip(expected) =~= name);
    if start < expected {
        assert(part[expected - 1 - start] == text[expected - 1]);
        assert(text[expected - 1] == separator);
        assert(part.contains(separator));
    }
    if start > expected {
        assert(name[start - 1 - expected] == text[start - 1]);
        assert(name.contains(separator));
    }
}

/// Of a text that is cut at a separator, what comes behind the last cut is what follows the
/// last separator, whatever is in front of it.
pub proof fn law_after_last_is_the_name(
    text: &str,
    separator: char,
    part: String,
    front: Seq<char>,
    name: Seq<char>,
)
    requires
        call_ensures(after_last, (text, separator), part),
        !name.contains(separator),
        text@ == front + seq![separator] + name || text@ == name,
    ensures
        part@ == name,
{
    lemma_last_part_is_name(text@, separator, front, name);
}

/// A text begins with what it was joined from first and ends with what it was joined from
/// second. It holds a character exactly where one of the two does.
pub proof fn law_joined_text(
    first: &str,
    second: &str,
    joined: String,
    whole: &str,
    wanted: char,
    begins: bool,
    ends: bool,
    in_first: bool,
    in_second: bool,
    in_whole: bool,
)
    requires
        call_ensures(join, (first, second), joined),
        whole@ == joined@,
        call_ensures(starts_with, (whole, first), begins),
        call_ensures(ends_with, (whole, second), ends),
        call_ensures(contains_char, (first, wanted), in_first),
        call_ensures(contains_char, (second, wanted), in_second),
        call_ensures(contains_char, (whole, wanted), in_whole),
    ensures
        whole@.len() == first@.len() + second@.len(),
        begins,
        ends,
        in_whole <==> in_first || in_second,
{
    assert(whole@.take(first@.len() as int) =~= first@);
    assert(whole@.subrange(first@.len() as int, whole@.len() as int) =~= second@);
    if in_first {
        let i = choose|i: int| 0 <= i < first@.len() && first@[i] == wanted;
        assert(whole@[i] == wanted);
    }
    if in_second {
        let i = choose|i: int| 0 <= i < second@.len() && second@[i] == wanted;
        assert(whole@[first@.len() + i] == wanted);
    }
}

/// A text that begins, or ends, with another is the other with something behind it, or in
/// front of it.
pub proof fn law_begins_or_ends(
    text: &str,
    part: &str,
    begins: bool,
    ends: bool,
    rest: Seq<char>,
)
    requires
        call_ensures(starts_with, (text, part), begins),
        call_ensures(ends_with, (text, part), ends),
    ensures
        begins ==> text@ == part@ + text@.skip(part@.len() as int),
        ends ==> text@ == text@.take(text@.len() - part@.len()) + part@,
        text@ == part@ + rest ==> begins,
        text@ == rest + part@ ==> ends,
{
    if begins {
        assert(text@.take(part@.len() as int) =~= part@);
        assert(text@ =~= part@ + text@.skip(part@.len() as int));
    }
    if ends {
        assert(text@ =~= text@.take(text@.len() - part@.len()) + part@);
    }
    if text@ == part@ + rest {
        assert(text@.take(part@.len() as int) =~= part@);
    }
    if text@ == rest + part@ {
        assert(text@.subrange(rest.len() as int, text@.len() as int) =~= part@);
    }
}

/// Two texts are the same exactly where they have as many characters, each the same in its
/// turn.
pub proof fn law_same_text(text: &str, other: &str, same: bool)
    requires
        call_ensures(equals, (text, other), same),
    ensures
        same <==> text@.len() == other@.len() && forall|i: int|
            0 <= i < text@.len() ==> #[trigger] text@[i] == other@[i],
{
    if text@.len() == other@.len() && forall|i: int|
        0 <= i < text@.len() ==> #[trigger] text@[i] == other@[i] {
        assert(text@ =~= other@);
    }
}

/// The characters of a text are those that it holds, and a character is found in it exactly
/// where it is one of them.
pub proof fn law_characters_of_text(
    text: &str,
    chars: Vec<char>,
    wanted: char,
    found: bool,
)
    requires
        call_ensures(chars_of, (text,), chars),
        call_ensures(contains_char, (text, wanted), found),
    ensures
        chars@.len() == text@.len(),
        forall|i: int| 0 <= i < chars@.len() ==> #[trigger] chars@[i] == text@[i],
        found <==> exists|i: int| 0 <= i < chars@.len() && chars@[i] == wanted,
{
}

} // verus!
