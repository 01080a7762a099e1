//! Wide strings: sequences of sixteen-bit units that a zero unit ends.

use vstd::prelude::*;

verus! {

/// Whether `length` is where the string in `buffer` ends: at the first zero
/// unit.
pub open spec fn ends_at(buffer: Seq<u16>, length: int) -> bool {
    &&& 0 <= length < buffer.len()
    &&& buffer[length] == 0
    &&& forall|i: int| 0 <= i < length ==> buffer[i] != 0
}

/// Whether `buffer` holds no zero unit, and so no complete string.
pub open spec fn unterminated(buffer: Seq<u16>) -> bool {
    forall|i: int| 0 <= i < buffer.len() ==> buffer[i] != 0
}

/// Appends the zero unit that ends a wide string.
pub fn nul_terminated(units: &[u16]) -> (terminated: Vec<u16>)
    ensures
        terminated@ == units@.push(0),
{
    let mut terminated: Vec<u16> = Vec::new();
    let mut index: usize = 0;
    while index < units.len()
        invariant
            index <= units.len(),
            terminated@ == units@.subrange(0, index as int),
        decreases units.len() - index,
    {
        terminated.push(units[index]);
        assert(terminated@ =~= units@.subrange(0, index + 1));
        index += 1;
    }
    terminated.push(0);
    assert(terminated@ =~= units@.push(0));
    terminated
}

/// Finds the length of the wide string in `buffer`: the index of its first
/// zero unit, or `None` where it has none.
pub fn wide_length(buffer: &[u16]) -> (length: Option<usize>)
    ensures
        match length {
            Some(length) => ends_at(buffer@, length as int),
            None => unterminated(buffer@),
        },
{
    let mut index: usize = 0;
    while index < buffer.len()
        invariant
            index <= buffer.len(),
            forall|i: int| 0 <= i < index ==> buffer@[i] != 0,
        decreases buffer.len() - index,
    {
        if buffer[index] == 0 {
            return Some(index);
        }
        index += 1;
    }
    None
}

/// A buffer holds at most one string: where it ends is determined.
pub proof fn lemma_wide_length_is_unique(buffer: Seq<u16>, first: int, second: int)
    requires
        ends_at(buffer, first),
        ends_at(buffer, second),
    ensures
        first == second,
{
    if first < second {
        assert(buffer[first] != 0);
    } else if second < first {
        assert(buffer[second] != 0);
    }
}

/// A string that was terminated ends where its units end, whenever none of
/// its units is zero.
pub proof fn lemma_terminated_string_ends_at_its_length(units: Seq<u16>)
    requires
        unterminated(units),
    ensures
        ends_at(units.push(0), units.len() as int),
{
}

} // verus!
