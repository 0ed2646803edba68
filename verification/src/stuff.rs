//! Small odds and ends around the renderer.

use vstd::prelude::*;

verus! {

/// The elements of `desc` whose bit is set in `flags`, in order, over the
/// first `n` positions.
pub open spec fn flagged<T>(flags: i32, desc: Seq<T>, n: int) -> Seq<T>
    decreases n,
{
    if n <= 0 {
        Seq::<T>::empty()
    } else {
        let rest = flagged(flags, desc, n - 1);
        if flags & (1i32 << ((n - 1) as u32)) != 0 {
            rest.push(desc[n - 1])
        } else {
            rest
        }
    }
}

/// Picks out of `desc` the entries whose position's bit is set in
/// `flags` — a flags word pretty-printer's core: bit 0 selects `desc[0]`
/// and so on.
pub fn desc_flags<T: Copy>(flags: i32, desc: &[T]) -> (r: Vec<T>)
    requires
        desc@.len() <= 32,
    ensures
        r@ == flagged(flags, desc@, desc@.len() as int),
{
    let n = desc.len();
    let mut r: Vec<T> = Vec::new();
    let mut i: usize = 0;
    while i < n
        invariant
            i <= n,
            n == desc@.len(),
            n <= 32,
            r@ == flagged(flags, desc@, i as int),
        decreases n - i,
    {
        if flags & (1i32 << (i as u32)) != 0 {
            r.push(desc[i]);
        }
        i = i + 1;
    }
    r
}

} // verus!
