use vstd::prelude::*;

verus! {

/// Capacity of the engine's boundary buffer. The worst case is a pentagon:
/// five vertices of its own and five edge crossings.
pub const MAX_CELL_BNDRY_VERTS: usize = 10;

/// The populated part of a boundary buffer: the first `count` vertices, in
/// the engine's order; a negative count populates none. Nothing past the
/// count is read.
pub fn populated_prefix<T: Copy>(verts: &[T], count: i32) -> (r: Vec<T>)
    requires
        count <= verts@.len(),
    ensures
        count <= 0 ==> r@ == Seq::<T>::empty(),
        count > 0 ==> r@ == verts@.subrange(0, count as int),
{
    let mut out: Vec<T> = Vec::new();
    let mut i: i32 = 0;
    while i < count
        invariant
            0 <= i,
            count <= verts@.len(),
            i == 0 || i <= count,
            out@ == verts@.subrange(0, i as int),
        decreases count - i,
    {
        out.push(verts[i as usize]);
        i = i + 1;
        assert(out@ == verts@.subrange(0, i as int));
    }
    assert(count <= 0 ==> out@ =~= Seq::<T>::empty());
    out
}

} // verus!
