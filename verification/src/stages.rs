//! What the two stages of a frame are told to do.
//!
//! The transition stage runs one invocation a cell, in workgroups of eight by
//! eight cells. The render stage draws the quad once a cell; an instance
//! finds its cell from its index.

use crate::bindings::Role;
use crate::error::GridError;
use crate::rule::{cell_index, lemma_cell_index};
use vstd::arithmetic::div_mod::{lemma_fundamental_div_mod, lemma_mod_bound};
use vstd::prelude::*;

verus! {

/// Cells along one side of a workgroup.
pub const WORKGROUP_EXTENT: u32 = 8;

/// One compute dispatch: the configuration to bind and the number of
/// workgroups along each axis.
#[derive(Clone, Copy, Debug, PartialEq, Eq, Structural)]
pub struct Dispatch {
    pub role: Role,
    pub groups_x: u32,
    pub groups_y: u32,
    pub groups_z: u32,
}

/// One indexed, instanced draw: the configuration to bind, the number of
/// indices of the mesh and the number of instances.
#[derive(Clone, Copy, Debug, PartialEq, Eq, Structural)]
pub struct DrawCall {
    pub role: Role,
    pub index_count: u32,
    pub instance_count: u32,
}

/// Workgroups that cover `size` cells along one axis: `size / 8`, rounded
/// up.
pub open spec fn workgroups(size: int) -> int {
    (size + WORKGROUP_EXTENT - 1) / (WORKGROUP_EXTENT as int)
}

/// Whether `size` is a whole number of workgroups.
pub open spec fn workgroup_aligned(size: int) -> bool {
    size % (WORKGROUP_EXTENT as int) == 0
}

/// The coordinate along one axis of the invocation `local` of workgroup
/// `group`.
pub open spec fn invoked(group: int, local: int) -> int {
    group * WORKGROUP_EXTENT + local
}

/// Whether `dispatch` runs the invocation `local_x`, `local_y` of the
/// workgroup `group_x`, `group_y`, `group_z`.
pub open spec fn runs(
    dispatch: Dispatch,
    group_x: int,
    group_y: int,
    group_z: int,
    local_x: int,
    local_y: int,
) -> bool {
    &&& 0 <= group_x < dispatch.groups_x
    &&& 0 <= group_y < dispatch.groups_y
    &&& 0 <= group_z < dispatch.groups_z
    &&& 0 <= local_x < WORKGROUP_EXTENT
    &&& 0 <= local_y < WORKGROUP_EXTENT
}

/// Whether the cell at `row`, `col` is the cell of an invocation that
/// `dispatch` runs.
pub open spec fn reaches(dispatch: Dispatch, row: int, col: int) -> bool {
    exists|group_x: int, group_y: int, group_z: int, local_x: int, local_y: int|
        #![trigger runs(dispatch, group_x, group_y, group_z, local_x, local_y)]
        runs(dispatch, group_x, group_y, group_z, local_x, local_y) && invoked(group_x, local_x)
            == col && invoked(group_y, local_y) == row
}

/// Whether `dispatch` is the dispatch of one tick on a field of side `size`:
/// as many workgroups along each axis as cover the side, in one layer.
pub open spec fn tiles(dispatch: Dispatch, size: int) -> bool {
    &&& dispatch.groups_x == workgroups(size)
    &&& dispatch.groups_y == workgroups(size)
    &&& dispatch.groups_z == 1
}

impl Dispatch {
    /// Whether the dispatch updates the cell at `row`, `col`: whether the
    /// cell lies in one of its workgroups.
    pub fn updates(&self, row: u32, col: u32) -> (reached: bool)
        ensures
            reached == reaches(*self, row as int, col as int),
    {
        let reached = self.groups_z > 0 && row / WORKGROUP_EXTENT < self.groups_y && col
            / WORKGROUP_EXTENT < self.groups_x;
        proof {
            if reached {
                let (x, y) = (col as int, row as int);
                assert(runs(*self, x / 8, y / 8, 0, x % 8, y % 8));
            }
        }
        reached
    }
}

/// Number of workgroups along one axis for a field of side `size`, or the
/// refusal of a side that workgroups cannot tile.
pub fn workgroup_count(size: u32) -> (count: Result<u32, GridError>)
    ensures
        match count {
            Ok(groups) => {
                &&& workgroup_aligned(size as int)
                &&& groups == workgroups(size as int)
                &&& groups * WORKGROUP_EXTENT == size
            },
            Err(error) => !workgroup_aligned(size as int) && error == GridError::Misaligned,
        },
{
    if size % WORKGROUP_EXTENT != 0 {
        Err(GridError::Misaligned)
    } else {
        Ok(size / WORKGROUP_EXTENT)
    }
}

/// Row and column of the cell that instance `index` draws, or nothing where
/// the field has no such cell.
pub fn instance_cell(index: u32, size: u32) -> (cell: Option<(u32, u32)>)
    ensures
        cell == (if index < size * size {
            Some(((index as int / size as int) as u32, (index as int % size as int) as u32))
        } else {
            None
        }),
        cell matches Some((row, col)) ==> row < size && col < size && cell_index(
            size as int,
            row as int,
            col as int,
        ) == index,
{
    if size == 0 {
        assert(size * size == 0);
        return None;
    }
    let row = index / size;
    let col = index % size;
    proof {
        lemma_fundamental_div_mod(index as int, size as int);
        lemma_mod_bound(index as int, size as int);
        assert(size * row == row * size) by (nonlinear_arith);
        if row < size {
            assert(row * size + size <= size * size) by (nonlinear_arith)
                requires
                    row < size,
            ;
        } else {
            assert(row * size >= size * size) by (nonlinear_arith)
                requires
                    row >= size,
            ;
        }
    }
    if row < size {
        Some((row, col))
    } else {
        None
    }
}

/// A side that is a whole number of workgroups is covered without a
/// remainder: the workgroups along an axis, eight cells each, make up the
/// side exactly.
pub proof fn lemma_aligned_workgroups(size: int)
    requires
        0 <= size,
        workgroup_aligned(size),
    ensures
        workgroups(size) == size / 8,
        workgroups(size) * 8 == size,
{
}

/// No invocation of a tick's dispatch falls outside the field.
pub proof fn lemma_invocations_in_field(
    dispatch: Dispatch,
    size: int,
    group_x: int,
    group_y: int,
    group_z: int,
    local_x: int,
    local_y: int,
)
    requires
        0 <= size,
        workgroup_aligned(size),
        tiles(dispatch, size),
        runs(dispatch, group_x, group_y, group_z, local_x, local_y),
    ensures
        0 <= invoked(group_x, local_x) < size,
        0 <= invoked(group_y, local_y) < size,
{
}

/// Every cell of the field is the cell of exactly one invocation of a
/// tick's dispatch: the dispatch leaves no gap and updates no cell twice.
pub proof fn lemma_each_cell_invoked_once(dispatch: Dispatch, size: int, row: int, col: int)
    requires
        0 <= size,
        workgroup_aligned(size),
        tiles(dispatch, size),
        0 <= row < size,
        0 <= col < size,
    ensures
        reaches(dispatch, row, col),
        runs(dispatch, col / 8, row / 8, 0, col % 8, row % 8),
        invoked(col / 8, col % 8) == col,
        invoked(row / 8, row % 8) == row,
        forall|group_x: int, group_y: int, group_z: int, local_x: int, local_y: int|
            #![trigger runs(dispatch, group_x, group_y, group_z, local_x, local_y)]
            runs(dispatch, group_x, group_y, group_z, local_x, local_y) && invoked(group_x, local_x)
                == col && invoked(group_y, local_y) == row ==> group_x == col / 8 && local_x == col
                % 8 && group_y == row / 8 && local_y == row % 8 && group_z == 0,
{
    assert(runs(dispatch, col / 8, row / 8, 0, col % 8, row % 8));
}

/// A tick's dispatch runs as many invocations as the field has cells:
/// sixty-four to a workgroup.
pub proof fn lemma_invocation_count(dispatch: Dispatch, size: int)
    requires
        0 <= size,
        workgroup_aligned(size),
        tiles(dispatch, size),
    ensures
        (dispatch.groups_x * 8) * (dispatch.groups_y * 8) * dispatch.groups_z == size * size,
        dispatch.groups_x * dispatch.groups_y * dispatch.groups_z * 64 == size * size,
{
    lemma_aligned_workgroups(size);
    let groups = dispatch.groups_x as int;
    assert((groups * 8) * (groups * 8) == groups * groups * 64) by (nonlinear_arith);
}

/// Instances and cells correspond one to one: an instance's row and column
/// lie in the field and lead back to its index, and the instance of a cell
/// has that cell's row and column.
pub proof fn lemma_instances_match_cells(size: int, index: int, row: int, col: int)
    requires
        0 <= index < size * size,
        0 <= row < size,
        0 <= col < size,
    ensures
        0 <= index / size < size,
        0 <= index % size < size,
        cell_index(size, index / size, index % size) == index,
        cell_index(size, row, col) / size == row,
        cell_index(size, row, col) % size == col,
        0 <= cell_index(size, row, col) < size * size,
{
    lemma_cell_index(size, row, col);
    lemma_fundamental_div_mod(index, size);
    lemma_mod_bound(index, size);
    let q = index / size;
    assert(size * q == q * size) by (nonlinear_arith);
    if q >= size {
        assert(q * size >= size * size) by (nonlinear_arith)
            requires
                q >= size,
                size > 0,
        ;
    }
    if q < 0 {
        assert(q * size <= -size) by (nonlinear_arith)
            requires
                q <= -1,
                size > 0,
        ;
    }
}

} // verus!
