//! Neighbourhoods: the three cells that decide the next value of a cell,
//! and what stands in for a neighbour beyond either end of the lattice.
//!
//! The left neighbour of cell `i` is cell `i + 1`, the right neighbour is
//! cell `i - 1`: in the packed form the left neighbour is the next more
//! significant bit.

use vstd::prelude::*;
use crate::lattice::{is_binary_row, WIDTH};

verus! {

/// How a neighbour beyond the lattice is read.
#[derive(Clone, Copy, Debug, PartialEq, Eq, Structural)]
pub enum BoundaryMode {
    /// A cell beyond either end counts as 0.
    Fixed,
    /// The lattice is a ring: beyond index 127 comes index 0, and beyond
    /// index 0 comes index 127.
    Periodic,
}

impl BoundaryMode {
    /// The mode that the flag "periodic" selects.
    pub open spec fn of(periodic: bool) -> BoundaryMode {
        if periodic {
            BoundaryMode::Periodic
        } else {
            BoundaryMode::Fixed
        }
    }

    /// Turns the flag "periodic" into a mode.
    pub fn from_periodic(periodic: bool) -> (mode: BoundaryMode)
        ensures
            mode == BoundaryMode::of(periodic),
    {
        if periodic {
            BoundaryMode::Periodic
        } else {
            BoundaryMode::Fixed
        }
    }
}

/// Offset from a cell to its left neighbour.
pub const LEFT: i8 = 1;

/// Offset from a cell to its right neighbour.
pub const RIGHT: i8 = -1;

/// The value used for the neighbour of cell `i` at `offset` when `i + offset`
/// lies beyond the lattice: 0 with a fixed boundary, the cell at the opposite
/// end of the lattice with a periodic one.
pub open spec fn beyond_edge(l: Seq<u8>, mode: BoundaryMode, i: int, offset: int) -> u8 {
    match mode {
        BoundaryMode::Fixed => 0,
        BoundaryMode::Periodic => l[(i + offset) % (WIDTH as int)],
    }
}

/// The neighbour of cell `i` at `offset`: the cell at `i + offset` where
/// the lattice has one, else what the boundary mode puts in its place.
pub open spec fn neighbor(l: Seq<u8>, mode: BoundaryMode, i: int, offset: int) -> u8 {
    if 0 <= i + offset < WIDTH {
        l[i + offset]
    } else {
        beyond_edge(l, mode, i, offset)
    }
}

/// The pattern made of three cells: `left` in bit 2, `center` in bit 1,
/// `right` in bit 0.
pub open spec fn pattern_of(left: u8, center: u8, right: u8) -> u8 {
    (4 * left + 2 * center + right) as u8
}

/// The left component of a pattern.
pub open spec fn pattern_left(pattern: u8) -> u8 {
    pattern / 4
}

/// The center component of a pattern.
pub open spec fn pattern_center(pattern: u8) -> u8 {
    (pattern / 2) % 2
}

/// The right component of a pattern.
pub open spec fn pattern_right(pattern: u8) -> u8 {
    pattern % 2
}

/// The pattern around cell `i` of lattice `l`.
pub open spec fn neighborhood(l: Seq<u8>, mode: BoundaryMode, i: int) -> u8 {
    pattern_of(neighbor(l, mode, i, LEFT as int), l[i], neighbor(l, mode, i, RIGHT as int))
}

/// Away from the two ends, two lattices that agree on a cell and on the two
/// cells next to it show the same pattern there: nothing else in the lattice
/// and nothing about the boundary mode enters into it.
pub proof fn lemma_interior_pattern_is_local(
    a: Seq<u8>,
    a_mode: BoundaryMode,
    b: Seq<u8>,
    b_mode: BoundaryMode,
    i: int,
)
    requires
        1 <= i <= 126,
        a[i - 1] == b[i - 1],
        a[i] == b[i],
        a[i + 1] == b[i + 1],
    ensures
        neighborhood(a, a_mode, i) == neighborhood(b, b_mode, i),
{
}

/// A pattern of binary cells is below 8 and gives each of its three cells
/// back.
pub proof fn lemma_pattern_components(left: u8, center: u8, right: u8)
    requires
        left <= 1,
        center <= 1,
        right <= 1,
    ensures
        pattern_of(left, center, right) < 8,
        pattern_left(pattern_of(left, center, right)) == left,
        pattern_center(pattern_of(left, center, right)) == center,
        pattern_right(pattern_of(left, center, right)) == right,
{
}

/// In a lattice, every neighbour of a cell is a binary cell, at either end
/// too and with either boundary mode.
pub proof fn lemma_neighbor_is_binary(l: Seq<u8>, mode: BoundaryMode, i: int, offset: int)
    requires
        is_binary_row(l),
        0 <= i < WIDTH,
        offset == LEFT || offset == RIGHT,
    ensures
        neighbor(l, mode, i, offset) <= 1,
{
}

/// In a lattice, the pattern around any cell is below 8; its components are
/// the cell's left neighbour, the cell itself and its right neighbour.
pub proof fn lemma_neighborhood_components(l: Seq<u8>, mode: BoundaryMode, i: int)
    requires
        is_binary_row(l),
        0 <= i < WIDTH,
    ensures
        neighborhood(l, mode, i) < 8,
        pattern_left(neighborhood(l, mode, i)) == neighbor(l, mode, i, LEFT as int),
        pattern_center(neighborhood(l, mode, i)) == l[i],
        pattern_right(neighborhood(l, mode, i)) == neighbor(l, mode, i, RIGHT as int),
{
    lemma_neighbor_is_binary(l, mode, i, LEFT as int);
    lemma_neighbor_is_binary(l, mode, i, RIGHT as int);
    lemma_pattern_components(
        neighbor(l, mode, i, LEFT as int),
        l[i],
        neighbor(l, mode, i, RIGHT as int),
    );
}

/// With a fixed boundary the pattern around cell 0 has right component 0,
/// and the pattern around cell 127 has left component 0.
pub proof fn lemma_fixed_boundary_edges(l: Seq<u8>)
    requires
        is_binary_row(l),
    ensures
        pattern_right(neighborhood(l, BoundaryMode::Fixed, 0)) == 0,
        pattern_left(neighborhood(l, BoundaryMode::Fixed, 127)) == 0,
{
    lemma_neighborhood_components(l, BoundaryMode::Fixed, 0);
    lemma_neighborhood_components(l, BoundaryMode::Fixed, 127);
}

/// With a periodic boundary the right component of the pattern around cell 0
/// is cell 127, and the left component of the pattern around cell 127 is
/// cell 0.
pub proof fn lemma_periodic_boundary_edges(l: Seq<u8>)
    requires
        is_binary_row(l),
    ensures
        pattern_right(neighborhood(l, BoundaryMode::Periodic, 0)) == l[127],
        pattern_left(neighborhood(l, BoundaryMode::Periodic, 127)) == l[0],
{
    lemma_neighborhood_components(l, BoundaryMode::Periodic, 0);
    lemma_neighborhood_components(l, BoundaryMode::Periodic, 127);
}

} // verus!
