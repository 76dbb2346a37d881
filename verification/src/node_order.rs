//! The two conventions for the nodes of a cell, and what the tables between
//! them guarantee.
//!
//! Both this library and the engine put the corners first. They differ in
//! the order of the middle nodes that second-order cells have on their edges.

use crate::constants::TRITET_TO_TETGEN;
use crate::constants::TRITET_TO_TRIANGLE;
use crate::tetgen::TetrahedronMeshView;
use crate::trigen::TriangleMeshView;
use vstd::prelude::*;

verus! {

/// The edge, as its two corners in ascending order, on which this library
/// puts node `m` of a triangle (3, 4 or 5).
pub open spec fn tritet_triangle_edge(m: int) -> (int, int) {
    if m == 3 {
        (0, 1)
    } else if m == 4 {
        (1, 2)
    } else {
        (0, 2)
    }
}

/// The edge on which the engine puts corner `c` of a triangle (3, 4 or 5):
/// the edge opposite to corner `c - 3`.
pub open spec fn engine_triangle_edge(c: int) -> (int, int) {
    if c == 3 {
        (1, 2)
    } else if c == 4 {
        (0, 2)
    } else {
        (0, 1)
    }
}

/// The edge on which this library puts node `m` of a tetrahedron (4 to 9).
pub open spec fn tritet_tetrahedron_edge(m: int) -> (int, int) {
    if m == 4 {
        (0, 1)
    } else if m == 5 {
        (1, 2)
    } else if m == 6 {
        (0, 2)
    } else if m == 7 {
        (0, 3)
    } else if m == 8 {
        (1, 3)
    } else {
        (2, 3)
    }
}

/// The edge on which the engine puts corner `c` of a tetrahedron (4 to 9).
pub open spec fn engine_tetrahedron_edge(c: int) -> (int, int) {
    if c == 4 {
        (2, 3)
    } else if c == 5 {
        (0, 3)
    } else if c == 6 {
        (0, 1)
    } else if c == 7 {
        (1, 2)
    } else if c == 8 {
        (1, 3)
    } else {
        (0, 2)
    }
}

/// The table for triangles keeps the corners in place and sends each middle
/// node to the engine's corner on the same edge; no two nodes share a corner.
pub proof fn lemma_triangle_order(m: int, n: int)
    requires
        0 <= m < 6,
        0 <= n < 6,
    ensures
        0 <= TRITET_TO_TRIANGLE[m] < 6,
        m < 3 ==> TRITET_TO_TRIANGLE[m] == m,
        m >= 3 ==> TRITET_TO_TRIANGLE[m] >= 3 && engine_triangle_edge(
            TRITET_TO_TRIANGLE[m] as int,
        ) == tritet_triangle_edge(m),
        m != n ==> TRITET_TO_TRIANGLE[m] != TRITET_TO_TRIANGLE[n],
{
}

/// The table for tetrahedra keeps the corners in place and sends each middle
/// node to the engine's corner on the same edge; no two nodes share a corner.
pub proof fn lemma_tetrahedron_order(m: int, n: int)
    requires
        0 <= m < 10,
        0 <= n < 10,
    ensures
        0 <= TRITET_TO_TETGEN[m] < 10,
        m < 4 ==> TRITET_TO_TETGEN[m] == m,
        m >= 4 ==> TRITET_TO_TETGEN[m] >= 4 && engine_tetrahedron_edge(
            TRITET_TO_TETGEN[m] as int,
        ) == tritet_tetrahedron_edge(m),
        m != n ==> TRITET_TO_TETGEN[m] != TRITET_TO_TETGEN[n],
{
}

/// Whatever order the engine keeps, the nodes of a second-order triangle
/// come out corners first, then the middle nodes of the edges 0-1, 1-2 and
/// 0-2: node `m` is the point that the engine stores at its corner on the
/// edge of `m`.
pub proof fn lemma_quadratic_triangle_nodes(mesh: TriangleMeshView, index: int, m: int, c: int)
    requires
        0 <= index < mesh.cells.len(),
        mesh.cell_npoint == 6,
        0 <= m < 6,
        0 <= c < 6,
        m < 3 ==> c == m,
        m >= 3 ==> c >= 3 && engine_triangle_edge(c) == tritet_triangle_edge(m),
    ensures
        mesh.cell_point(index, m) == mesh.cells[index].corners[c],
{
}

/// Whatever order the engine keeps, the nodes of a second-order tetrahedron
/// come out corners first, then the middle nodes of the edges 0-1, 1-2, 0-2,
/// 0-3, 1-3 and 2-3: node `m` is the point that the engine stores at its
/// corner on the edge of `m`.
pub proof fn lemma_quadratic_tetrahedron_nodes(
    mesh: TetrahedronMeshView,
    index: int,
    m: int,
    c: int,
)
    requires
        0 <= index < mesh.cells.len(),
        mesh.cell_npoint == 10,
        0 <= m < 10,
        0 <= c < 10,
        m < 4 ==> c == m,
        m >= 4 ==> c >= 4 && engine_tetrahedron_edge(c) == tritet_tetrahedron_edge(m),
    ensures
        mesh.cell_point(index, m) == mesh.cells[index].corners[c],
{
}

/// The nodes of a first-order cell come out as the engine stores them.
pub proof fn lemma_linear_nodes(
    triangles: TriangleMeshView,
    tetrahedra: TetrahedronMeshView,
    index: int,
    m: int,
)
    ensures
        0 <= index < triangles.cells.len() && triangles.cell_npoint == 3 && 0 <= m < 3
            ==> triangles.cell_point(index, m) == triangles.cells[index].corners[m],
        0 <= index < tetrahedra.cells.len() && tetrahedra.cell_npoint == 4 && 0 <= m < 4
            ==> tetrahedra.cell_point(index, m) == tetrahedra.cells[index].corners[m],
{
}

} // verus!
