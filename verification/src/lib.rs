//! Triangle and tetrahedron mesh generation around a native meshing engine.
//!
//! The library holds everything but the engine itself: the input of a
//! generation and its completion ([Trigen], [Tetgen]), the calls that the
//! engine is to make and the meaning of its status codes, the model of what
//! the engine hands back with its reads, the order of the nodes of a cell,
//! the marked faces of a mesh of tetrahedra, and the export as an
//! unstructured-grid document.
//!
//! A generation goes in three steps. `generate_delaunay`, `generate_voronoi`
//! or `generate_mesh` tells whether the input is complete and gives the call
//! with its arguments. The caller lets the engine make that call. Then
//! `finish_generation` takes the engine's status and mesh, and the reads
//! (`out_npoint`, `out_cell_point` and so on) show the result.
//!
//! Coordinates, sizes and angles are double-precision numbers. The library
//! never computes with them and carries each as its 64-bit pattern.

pub mod constants;
pub mod conversion;
pub mod error;
pub mod global;
pub mod label;
pub mod marked_face;
pub mod node_order;
pub mod palette;
pub mod status;
pub mod tetgen;
pub mod tetgen_paraview;
pub mod text;
pub mod trigen;
pub mod trigen_paraview;
pub mod vtu;

pub use crate::error::Error;
pub use crate::error::ErrorKind;
pub use crate::tetgen::Tetgen;
pub use crate::trigen::Trigen;
pub use crate::trigen::VoronoiEdgePoint;
