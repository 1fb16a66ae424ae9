//! The cube is a cube: eight corners, twelve ribs along the axes, three at
//! every corner.

use vstd::prelude::*;
use crate::entity::cube_connections;
use crate::entity::cube_points;
use crate::entity::well_connected;
use crate::scalar::Scalar;
use crate::vector::Vec3;

verus! {

/// Whether edge `k` of `connections` ends or begins at the point `v`.
pub open spec fn touches(connections: Seq<usize>, k: int, v: int) -> bool {
    connections[2 * k] == v || connections[2 * k + 1] == v
}

/// Whether the corner `i` of the cube lies on the positive side along `axis`.
pub open spec fn on_positive_side(i: int, axis: int) -> bool {
    if axis == 0 {
        i % 2 == 1
    } else if axis == 1 {
        (i / 2) % 2 == 1
    } else {
        i / 4 == 1
    }
}

/// The corners of the cube are the eight combinations of `h` and `-h`.
pub proof fn lemma_cube_corners<S: Scalar>(h: S, i: int, axis: int)
    requires
        0 <= i < 8,
        0 <= axis < 3,
    ensures
        cube_points(h).len() == 8,
        cube_points(h)[i].elems[axis] == (if on_positive_side(i, axis) {
            h
        } else {
            h.negation()
        }),
{
    let p = cube_points(h);
    let n = h.negation();
    assert(p[0] == Vec3 { elems: [n, n, n] });
    assert(p[1] == Vec3 { elems: [h, n, n] });
    assert(p[2] == Vec3 { elems: [n, h, n] });
    assert(p[3] == Vec3 { elems: [h, h, n] });
    assert(p[4] == Vec3 { elems: [n, n, h] });
    assert(p[5] == Vec3 { elems: [h, n, h] });
    assert(p[6] == Vec3 { elems: [n, h, h] });
    assert(p[7] == Vec3 { elems: [h, h, h] });
}

/// Whether the corners `i` and `j` of the cube are the two ends of a rib along
/// `axis`: on different sides along that axis, on the same side along the other
/// two.
pub open spec fn rib_along(i: int, j: int, axis: int) -> bool {
    &&& on_positive_side(i, 0) != on_positive_side(j, 0) <==> axis == 0
    &&& on_positive_side(i, 1) != on_positive_side(j, 1) <==> axis == 1
    &&& on_positive_side(i, 2) != on_positive_side(j, 2) <==> axis == 2
}

/// The axis of edge `k` of the cube: in each of the two squares the edges run
/// along x and y in turn, and the last four run along z.
pub open spec fn cube_edge_axis(k: int) -> int {
    if k >= 8 {
        2
    } else if k % 2 == 0 {
        0
    } else {
        1
    }
}

/// The edges of the cube fit its eight corners, and each of the twelve is a
/// rib along one axis.
pub proof fn lemma_cube_edges_run_along_axes(k: int)
    requires
        0 <= k < 12,
    ensures
        cube_connections().len() == 24,
        well_connected(8, cube_connections()),
        rib_along(
            cube_connections()[2 * k] as int,
            cube_connections()[2 * k + 1] as int,
            cube_edge_axis(k),
        ),
{
    lemma_cube_connections();
}

/// No two edges of the cube join the same two corners.
pub proof fn lemma_cube_edges_are_distinct(j: int, k: int)
    requires
        0 <= j < 12,
        0 <= k < 12,
        j != k,
    ensures
        !(touches(cube_connections(), j, cube_connections()[2 * k] as int) && touches(
            cube_connections(),
            j,
            cube_connections()[2 * k + 1] as int,
        )),
{
    lemma_cube_connections();
}

/// The three edges that meet in corner `v` of the cube: one in its square
/// along x, one in its square along y, and the one along z.
pub open spec fn cube_edges_at(v: int) -> (int, int, int) {
    if v == 0 {
        (0, 3, 8)
    } else if v == 1 {
        (0, 1, 9)
    } else if v == 2 {
        (2, 3, 10)
    } else if v == 3 {
        (1, 2, 11)
    } else if v == 4 {
        (4, 7, 8)
    } else if v == 5 {
        (4, 5, 9)
    } else if v == 6 {
        (6, 7, 10)
    } else {
        (5, 6, 11)
    }
}

/// Every corner of the cube is touched by exactly three of its edges: three
/// different ones, and no other.
pub proof fn lemma_cube_corners_have_three_edges(v: int, k: int)
    requires
        0 <= v < 8,
        0 <= k < 12,
    ensures
        0 <= cube_edges_at(v).0 < cube_edges_at(v).1 < cube_edges_at(v).2 < 12,
        touches(cube_connections(), k, v) <==> k == cube_edges_at(v).0 || k == cube_edges_at(v).1
            || k == cube_edges_at(v).2,
{
    lemma_cube_connections();
}

/// The entries of the list of the cube's edges, one by one.
proof fn lemma_cube_connections()
    ensures
        cube_connections().len() == 24,
        well_connected(8, cube_connections()),
        forall|k: int|
            0 <= k < 12 ==> #[trigger] cube_connections()[2 * k] == (if k < 4 {
                if k == 0 {
                    0usize
                } else if k == 1 {
                    1
                } else if k == 2 {
                    3
                } else {
                    2
                }
            } else if k < 8 {
                if k == 4 {
                    4usize
                } else if k == 5 {
                    5
                } else if k == 6 {
                    7
                } else {
                    6
                }
            } else {
                (k - 8) as usize
            }),
        forall|k: int|
            0 <= k < 12 ==> #[trigger] cube_connections()[2 * k + 1] == (if k < 4 {
                if k == 0 {
                    1usize
                } else if k == 1 {
                    3
                } else if k == 2 {
                    2
                } else {
                    0
                }
            } else if k < 8 {
                if k == 4 {
                    5usize
                } else if k == 5 {
                    7
                } else if k == 6 {
                    6
                } else {
                    4
                }
            } else {
                (k - 4) as usize
            }),
{
    let c = cube_connections();
    assert(c[0] == 0 && c[1] == 1 && c[2] == 1 && c[3] == 3);
    assert(c[4] == 3 && c[5] == 2 && c[6] == 2 && c[7] == 0);
    assert(c[8] == 4 && c[9] == 5 && c[10] == 5 && c[11] == 7);
    assert(c[12] == 7 && c[13] == 6 && c[14] == 6 && c[15] == 4);
    assert(c[16] == 0 && c[17] == 4 && c[18] == 1 && c[19] == 5);
    assert(c[20] == 2 && c[21] == 6 && c[22] == 3 && c[23] == 7);
}

} // verus!
