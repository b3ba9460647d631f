//! The quad that every cell is drawn with.
//!
//! Four corners, numbered counter-clockwise from the upper right, and two
//! triangles that share the diagonal from corner 0 to corner 2.

use crate::bytes::{halves_as_bytes, holds_halves};
use vstd::prelude::*;

verus! {

/// Corners of the quad.
pub const QUAD_VERTEX_COUNT: u16 = 4;

/// Indices of the quad: three a triangle.
pub const QUAD_INDEX_COUNT: u32 = 6;

/// The quad's indices, triangle by triangle.
pub open spec fn quad_index_list() -> Seq<u16> {
    seq![0u16, 1u16, 2u16, 0u16, 2u16, 3u16]
}

/// The index list of the quad. It is fixed when the quad is made.
pub struct Quad {
    indices: [u16; 6],
}

impl Quad {
    /// The indices are those of the quad's two triangles.
    #[verifier::type_invariant]
    pub closed spec fn wf(&self) -> bool {
        self.indices@ == quad_index_list()
    }

    /// The quad.
    pub fn new() -> (quad: Quad)
        ensures
            quad.wf(),
    {
        let indices: [u16; 6] = [0, 1, 2, 0, 2, 3];
        assert(indices@ =~= quad_index_list());
        Quad { indices }
    }

    /// The quad's triangles as indices into its corners.
    pub fn indices(&self) -> (indices: &[u16])
        ensures
            indices@ == quad_index_list(),
    {
        proof {
            use_type_invariant(self);
        }
        self.indices.as_slice()
    }

    /// Number of indices that a draw of the quad takes.
    pub fn index_count(&self) -> (count: u32)
        ensures
            count == QUAD_INDEX_COUNT,
            count == quad_index_list().len(),
    {
        QUAD_INDEX_COUNT
    }

    /// The index list as the bytes that are uploaded: two bytes an index,
    /// in the machine's byte order.
    pub fn index_bytes(&self) -> (bytes: &[u8])
        ensures
            holds_halves(quad_index_list(), bytes@),
            bytes@.len() == 12,
    {
        halves_as_bytes(self.indices())
    }
}

/// The index list is a mesh of the quad: as many indices as a draw asks
/// for, each naming a corner, each triangle with three different corners,
/// and every corner in some triangle.
pub proof fn lemma_quad_is_two_triangles()
    ensures
        quad_index_list().len() == QUAD_INDEX_COUNT,
        forall|i: int| 0 <= i < 6 ==> #[trigger] quad_index_list()[i] < QUAD_VERTEX_COUNT,
        forall|t: int|
            0 <= t < 2 ==> {
                &&& #[trigger] quad_index_list()[3 * t] != quad_index_list()[3 * t + 1]
                &&& quad_index_list()[3 * t + 1] != quad_index_list()[3 * t + 2]
                &&& quad_index_list()[3 * t] != quad_index_list()[3 * t + 2]
            },
        forall|corner: u16|
            corner < QUAD_VERTEX_COUNT ==> #[trigger] quad_index_list().contains(corner),
{
    let list = quad_index_list();
    assert forall|t: int| 0 <= t < 2 implies {
        &&& #[trigger] list[3 * t] != list[3 * t + 1]
        &&& list[3 * t + 1] != list[3 * t + 2]
        &&& list[3 * t] != list[3 * t + 2]
    } by {
        if t == 0 {
        } else {
            assert(t == 1);
        }
    }
    assert forall|corner: u16| corner < QUAD_VERTEX_COUNT implies #[trigger] list.contains(
        corner,
    ) by {
        if corner == 0 {
            assert(list[0] == corner);
        } else if corner == 1 {
            assert(list[1] == corner);
        } else if corner == 2 {
            assert(list[2] == corner);
        } else {
            assert(list[5] == corner);
        }
    }
}

} // verus!
