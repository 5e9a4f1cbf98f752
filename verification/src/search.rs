//! Searching for a byte, or a run of bytes, in a part of a byte array.

use vstd::prelude::*;

verus! {

/// `pattern` stands in `array` at position `at`.
pub open spec fn occurs_at(array: Seq<u8>, pattern: Seq<u8>, at: int) -> bool {
    &&& 0 <= at
    &&& at + pattern.len() <= array.len()
    &&& array.subrange(at, at + pattern.len()) == pattern
}

/// `byte` is nowhere in `array[from..to]`.
pub open spec fn absent(array: Seq<u8>, byte: u8, from: int, to: int) -> bool {
    forall|i: int| from <= i < to ==> array[i] != byte
}

/// `pattern` lies wholly in `array[from..to]` at no place.
pub open spec fn run_absent(array: Seq<u8>, pattern: Seq<u8>, from: int, to: int) -> bool {
    forall|i: int| from <= i && i + pattern.len() <= to ==> !#[trigger] occurs_at(array, pattern, i)
}

/// The position of the first `predicate` in `array[start_index..end_index]`, counted
/// from the start of `array`; `None` where that range does not hold it.
pub fn u8_index_of(array: &[u8], predicate: u8, start_index: usize, end_index: usize) -> (found:
    Option<usize>)
    requires
        start_index <= end_index <= array@.len(),
    ensures
        match found {
            Some(at) => {
                &&& start_index <= at < end_index
                &&& array@[at as int] == predicate
                &&& forall|i: int| start_index <= i < at ==> array@[i] != predicate
            },
            None => forall|i: int| start_index <= i < end_index ==> array@[i] != predicate,
        },
        found is None ==> absent(array@, predicate, start_index as int, end_index as int),
{
    let mut at: usize = start_index;
    while at < end_index
        invariant
            start_index <= at <= end_index <= array@.len(),
            forall|i: int| start_index <= i < at ==> array@[i] != predicate,
        decreases end_index - at,
    {
        if array[at] == predicate {
            return Some(at);
        }
        at = at + 1;
    }
    None
}

/// Whether `pattern` stands in `array` at position `at`.
pub fn matches_at(array: &[u8], pattern: &[u8], at: usize) -> (found: bool)
    requires
        at + pattern@.len() <= array@.len(),
    ensures
        found == occurs_at(array@, pattern@, at as int),
{
    let mut i: usize = 0;
    while i < pattern.len()
        invariant
            i <= pattern@.len(),
            at + pattern@.len() <= array.len(),
            forall|k: int| 0 <= k < i ==> array@[at + k] == pattern@[k],
        decreases pattern@.len() - i,
    {
        if array[at + i] != pattern[i] {
            assert(array@.subrange(at as int, at + pattern@.len())[i as int] != pattern@[i as int]);
            return false;
        }
        i = i + 1;
    }
    assert(array@.subrange(at as int, at + pattern@.len()) =~= pattern@);
    true
}

/// The position of the first run `predicate` that lies wholly in
/// `array[start_index..end_index]`, counted from the start of `array`; `None` where that
/// range does not hold it.
pub fn u8_index_of_multi(
    array: &[u8],
    predicate: &[u8],
    start_index: usize,
    end_index: usize,
) -> (found: Option<usize>)
    requires
        start_index <= end_index <= array@.len(),
        predicate@.len() > 0,
    ensures
        match found {
            Some(at) => {
                &&& start_index <= at
                &&& at + predicate@.len() <= end_index
                &&& occurs_at(array@, predicate@, at as int)
                &&& forall|i: int| start_index <= i < at ==> !occurs_at(array@, predicate@, i)
            },
            None => forall|i: int|
                start_index <= i && i + predicate@.len() <= end_index ==> !occurs_at(
                    array@,
                    predicate@,
                    i,
                ),
        },
        found is None ==> run_absent(array@, predicate@, start_index as int, end_index as int),
{
    let mut at: usize = start_index;
    while predicate.len() <= end_index - at
        invariant
            start_index <= at <= end_index <= array@.len(),
            predicate@.len() > 0,
            forall|i: int| start_index <= i < at ==> !occurs_at(array@, predicate@, i),
        decreases end_index - at,
    {
        if matches_at(array, predicate, at) {
            return Some(at);
        }
        at = at + 1;
    }
    None
}

/// A run of one byte stands where that byte is, so searching for either finds the same
/// places.
pub proof fn law_run_of_one_byte(array: Seq<u8>, byte: u8, at: int)
    ensures
        occurs_at(array, seq![byte], at) <==> 0 <= at < array.len() && array[at] == byte,
{
    if 0 <= at < array.len() {
        assert(array.subrange(at, at + 1) =~= seq![array[at]]);
        assert(seq![array[at]][0] == array[at] && seq![byte][0] == byte);
    }
}

/// A byte is found where it stands behind bytes that are all others, and is not found where
/// there is none. What lies in front of the part that is searched, and behind it, does not
/// count.
pub proof fn law_first_byte_found(
    array: &[u8],
    predicate: u8,
    start_index: usize,
    end_index: usize,
    found: Option<usize>,
    front: Seq<u8>,
    passed: Seq<u8>,
    behind: Seq<u8>,
)
    requires
        call_ensures(u8_index_of, (array, predicate, start_index, end_index), found),
        start_index == front.len(),
        !passed.contains(predicate),
    ensures
        array@ == front + passed + seq![predicate] + behind && front.len() + passed.len()
            < end_index ==> found == Some((front.len() + passed.len()) as usize),
        array@ == front + passed + behind && front.len() + passed.len() == end_index
            ==> found is None,
        found matches Some(at) ==> start_index <= at < end_index && array@[at as int] == predicate,
{
    let whole = array@;
    let end = start_index + passed.len();
    if whole == front + passed + seq![predicate] + behind && end < end_index {
        assert(array@[end] == predicate);
        if let Some(at) = found {
            if at < end {
                assert(whole[at as int] == passed[at - start_index]);
                assert(passed.contains(predicate));
            }
        }
    }
    if whole == front + passed + behind && end == end_index {
        if let Some(at) = found {
            assert(whole[at as int] == passed[at - start_index]);
        }
    }
}

/// A run of bytes stands at a place exactly where each of its bytes stands in its turn.
pub proof fn law_run_is_its_bytes(array: &[u8], pattern: &[u8], at: usize, found: bool)
    requires
        call_ensures(matches_at, (array, pattern, at), found),
        at + pattern@.len() <= array@.len(),
    ensures
        found <==> forall|i: int| 0 <= i < pattern@.len() ==> array@[at + i] == pattern@[i],
{
    let part = array@.subrange(at as int, at + pattern@.len());
    assert forall|i: int| 0 <= i < pattern@.len() implies part[i] == array@[at + i] by {}
    if forall|i: int| 0 <= i < pattern@.len() ==> array@[at + i] == pattern@[i] {
        assert(part =~= pattern@);
    }
}

/// A run that lies wholly in the part that is searched is found, where it stands or at an
/// earlier place of that part; what is found is the run, byte by byte, and it lies wholly in
/// the part.
pub proof fn law_first_run_found(
    array: &[u8],
    predicate: &[u8],
    start_index: usize,
    end_index: usize,
    found: Option<usize>,
    place: int,
)
    requires
        call_ensures(u8_index_of_multi, (array, predicate, start_index, end_index), found),
        end_index <= array@.len(),
    ensures
        found matches Some(at) ==> start_index <= at && at + predicate@.len() <= end_index
            && forall|i: int| 0 <= i < predicate@.len() ==> array@[at + i] == predicate@[i],
        start_index <= place && place + predicate@.len() <= end_index && array@.subrange(
            place,
            place + predicate@.len(),
        ) == predicate@ ==> (found matches Some(at) && at <= place),
{
    if let Some(at) = found {
        let part = array@.subrange(at as int, at + predicate@.len());
        assert forall|i: int| 0 <= i < predicate@.len() implies array@[at + i]
            == predicate@[i] by {
            assert(part[i] == array@[at + i]);
        }
    }
    if start_index <= place && place + predicate@.len() <= end_index && array@.subrange(
        place,
        place + predicate@.len(),
    ) == predicate@ {
        assert(occurs_at(array@, predicate@, place));
    }
}

/// Every part of an array may be searched, for any byte and for any run that is not empty,
/// and a run may be looked for wherever it would lie in the array.
pub proof fn law_any_part_may_be_searched(
    array: &[u8],
    byte: u8,
    pattern: &[u8],
    start_index: usize,
    end_index: usize,
)
    requires
        start_index <= end_index <= array@.len(),
    ensures
        call_requires(u8_index_of, (array, byte, start_index, end_index)),
        pattern@.len() > 0 ==> call_requires(
            u8_index_of_multi,
            (array, pattern, start_index, end_index),
        ),
        start_index + pattern@.len() <= array@.len() ==> call_requires(
            matches_at,
            (array, pattern, start_index),
        ),
{
}

} // verus!
