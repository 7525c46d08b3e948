//! The rainbow widget: a mesh of eight triangles that fan out from a centre
//! vertex to eight vertices on the widget's border.

use vstd::prelude::*;

verus! {

/// The rainbow widget.
#[derive(Debug, Clone, Copy, Default)]
pub struct Rainbow;

/// A rainbow widget.
pub fn rainbow() -> (r: Rainbow)
    ensures
        r == Rainbow,
{
    Rainbow
}

/// The vertices of triangle `k` of the fan: the centre, border vertex
/// `k + 1`, and the border vertex after it, going round to the first.
pub open spec fn fan_triangle(k: int) -> Seq<u32> {
    seq![0u32, (k + 1) as u32, ((k + 1) % 8 + 1) as u32]
}

impl Rainbow {
    /// How many vertices the mesh has: the centre and eight on the border.
    pub fn vertex_count(&self) -> (r: usize)
        ensures
            r == 9,
    {
        9
    }

    /// The indices of the mesh: eight triangles, three vertices each.
    pub fn mesh_indices(&self) -> (r: Vec<u32>)
        ensures
            r@.len() == 24,
            forall|k: int|
                0 <= k < 8 ==> #[trigger] r@.subrange(3 * k, 3 * k + 3) == fan_triangle(k),
            forall|i: int| 0 <= i < 24 ==> r@[i] < 9,
    {
        let mut r: Vec<u32> = Vec::new();
        let mut k: u32 = 0;
        while k < 8
            invariant
                k <= 8,
                r@.len() == 3 * k,
                forall|j: int| 0 <= j < k ==> #[trigger] r@.subrange(3 * j, 3 * j + 3) == fan_triangle(j),
                forall|i: int| 0 <= i < r@.len() ==> r@[i] < 9,
            decreases 8 - k,
        {
            let ghost before = r@;
            r.push(0);
            r.push(k + 1);
            r.push((k + 1) % 8 + 1);
            assert forall|j: int| 0 <= j < k + 1 implies #[trigger] r@.subrange(3 * j, 3 * j + 3)
                == fan_triangle(j) by {
                if j < k {
                    assert(r@.subrange(3 * j, 3 * j + 3) =~= before.subrange(3 * j, 3 * j + 3));
                } else {
                    assert(r@.subrange(3 * j, 3 * j + 3) =~= fan_triangle(j));
                }
            }
            k = k + 1;
        }
        r
    }
}

} // verus!
