//! Index logic of the bloom blur.

use vstd::prelude::*;

verus! {

/// The neighbours that the 3-tap blur averages with position `i` of a
/// line of `len` samples: one step either way, repeating the edge sample
/// at the ends.
pub fn clamped_neighbors(i: usize, len: usize) -> (pair: (usize, usize))
    requires
        i < len,
    ensures
        pair.0 == if i == 0 { 0 } else { i - 1 },
        pair.1 == if i + 1 < len { i + 1 } else { len - 1 },
        pair.0 < len && pair.1 < len,
{
    let before = i.saturating_sub(1);
    let after = if i + 1 < len { i + 1 } else { len - 1 };
    (before, after)
}

} // verus!
