//! Status codes of the engine protocol, node-ordering tables, cell-type codes
//! and colour palettes.

use vstd::prelude::*;

verus! {

/// The engine finished without error.
pub const TRITET_SUCCESS: i32 = 0;

pub const TRITET_ERROR_NULL_DATA: i32 = 10;

pub const TRITET_ERROR_STRING_CONCAT: i32 = 20;

pub const TRITET_ERROR_INITIALIZE_FAILED: i32 = 30;

/// The engine gave up on degenerate input (collinear or coplanar points).
pub const TRITET_ERROR_DEGENERATE_INPUT: i32 = 40;

pub const TRITET_ERROR_NULL_POINT_LIST: i32 = 100;

pub const TRITET_ERROR_NULL_SEGMENT_LIST: i32 = 200;

pub const TRITET_ERROR_NULL_FACET_LIST: i32 = 300;

pub const TRITET_ERROR_NULL_FACET_POLYGON_LIST: i32 = 400;

pub const TRITET_ERROR_NULL_REGION_LIST: i32 = 500;

pub const TRITET_ERROR_NULL_HOLE_LIST: i32 = 600;

pub const TRITET_ERROR_INVALID_POINT_INDEX: i32 = 1000;

pub const TRITET_ERROR_INVALID_SEGMENT_INDEX: i32 = 2000;

pub const TRITET_ERROR_INVALID_SEGMENT_POINT_ID: i32 = 3000;

pub const TRITET_ERROR_INVALID_FACET_INDEX: i32 = 4000;

pub const TRITET_ERROR_INVALID_FACET_POINT_INDEX: i32 = 5000;

pub const TRITET_ERROR_INVALID_FACET_POINT_ID: i32 = 6000;

pub const TRITET_ERROR_INVALID_REGION_INDEX: i32 = 7000;

pub const TRITET_ERROR_INVALID_HOLE_INDEX: i32 = 8000;

pub const TRITET_ERROR_INVALID_FACET_NUM_POLYGON: i32 = 9000;

/// Smallest number of points of a planar input.
pub const MIN_NPOINT_2D: usize = 3;

/// Smallest number of segments of a planar input that declares segments.
pub const MIN_NSEGMENT: usize = 3;

/// Smallest number of points of a spatial input.
pub const MIN_NPOINT_3D: usize = 4;

/// Smallest number of facets of a spatial input that declares facets.
pub const MIN_NFACET: usize = 4;

/// Smallest number of points on a facet.
pub const MIN_FACET_NPOINT: usize = 3;

/// The 64-bit pattern of the coordinate value zero, which also stands for
/// "no global size or angle constraint" in an engine command.
pub const ZERO_BITS: u64 = 0;

/// The 64-bit pattern of the value minus one, which the engine reads as
/// "no size constraint" on a region.
pub const MINUS_ONE_BITS: u64 = 0xBFF0_0000_0000_0000;

/// Second endpoint of a Voronoi edge that runs to infinity.
pub const VORONOI_RAY: i32 = -1;

pub const VTK_TRIANGLE: usize = 5;

pub const VTK_TETRA: usize = 10;

pub const VTK_QUADRATIC_TRIANGLE: usize = 22;

pub const VTK_QUADRATIC_TETRA: usize = 24;

/// Maps the local node of a triangle, as this library numbers it, to the
/// corner that the engine stores it under.
///
/// ```text
///       This library            The engine
///         NODES                  CORNERS
///           2                       2
///          / \                     / \
///         /   \                   /   \
///        5     4                 4     3
///       /       \               /       \
///      /         \             /         \
///     0-----3-----1           0-----5-----1
/// ```
pub const TRITET_TO_TRIANGLE: [usize; 6] = [0, 1, 2, 5, 3, 4];

/// Maps the local node of a tetrahedron, as this library numbers it, to the
/// corner that the engine stores it under.
///
/// The library puts the middle nodes on the edges 0-1, 1-2, 0-2, 0-3, 1-3
/// and 2-3, in this order, after the four corners. The engine puts them on
/// the edges 2-3, 0-3, 0-1, 1-2, 1-3 and 0-2.
pub const TRITET_TO_TETGEN: [usize; 10] = [0, 1, 2, 3, 6, 7, 9, 5, 8, 4];

/// Number of colours in each palette.
pub const NCOLOR: usize = 17;

/// A set of light colours, for filled triangles.
pub const LIGHT_COLORS: [&'static str; 17] = [
    "#cbe4f9", "#cdf5f6", "#eff9da", "#f9ebdf", "#f9d8d6", "#d6cdea", "#acddde", "#caf1de",
    "#e1f8dc", "#fef8dd", "#ffe7c7", "#f7d8ba", "#d0fffe", "#fffddb", "#e4ffde", "#ffd3fd",
    "#ffe7d3",
];

/// A set of dark colours, for the edges of tetrahedra.
pub const DARK_COLORS: [&'static str; 17] = [
    "#1f77b4", "#ff7f0e", "#2ca02c", "#d62728", "#9467bd", "#8c564b", "#e377c2", "#7f7f7f",
    "#bcbd22", "#17becf", "#393b79", "#637939", "#8c6d31", "#843c39", "#7b4173", "#3182bd",
    "#e6550d",
];

} // verus!
