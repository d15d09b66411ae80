//! Stepping forwards and backwards through a list with wrap-around, as the
//! game does for loadouts, quest journal entries and combat targets.
use vstd::prelude::*;

verus! {

/// The position after `index` in a list of `len` entries, wrapping from the
/// last entry to the first.
pub fn next_index(index: usize, len: usize) -> (next: usize)
    requires
        len > 0,
    ensures
        next == (index + 1) % (len as int),
        next < len,
{
    ((index as u128 + 1) % (len as u128)) as usize
}

/// The position before `index` in a list of `len` entries, wrapping from the
/// first entry to the last.
pub fn previous_index(index: usize, len: usize) -> (previous: usize)
    requires
        len > 0,
    ensures
        previous == if index == 0 { len - 1 } else { index - 1 },
{
    if index == 0 {
        len - 1
    } else {
        index - 1
    }
}

/// Stepping forward and then back returns to any position of the list, and
/// so does stepping back and then forward.
pub proof fn lemma_next_previous_inverse(index: usize, len: usize)
    requires
        index < len,
    ensures
        ({
            let next = (index + 1) % (len as int);
            (if next == 0 { len - 1 } else { next - 1 }) == index
        }),
        ({
            let previous = if index == 0 { len - 1 } else { index - 1 };
            (previous + 1) % (len as int) == index
        }),
{
    if index + 1 < len {
        vstd::arithmetic::div_mod::lemma_small_mod((index + 1) as nat, len as nat);
    } else {
        vstd::arithmetic::div_mod::lemma_mod_self_0(len as int);
    }
    if index > 0 {
        vstd::arithmetic::div_mod::lemma_small_mod(index as nat, len as nat);
    } else {
        vstd::arithmetic::div_mod::lemma_mod_self_0(len as int);
    }
}

} // verus!
