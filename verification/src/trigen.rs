//! Planar meshes: the input and its completion, the calls of the engine,
//! and the model of what the engine hands back.
//!
//! Coordinates, sizes and angles are carried as the 64-bit patterns of
//! double-precision numbers; the library never computes with them.

use crate::constants::MINUS_ONE_BITS;
use crate::constants::MIN_NPOINT_2D;
use crate::constants::MIN_NSEGMENT;
use crate::constants::TRITET_ERROR_NULL_DATA;
use crate::constants::TRITET_ERROR_NULL_POINT_LIST;
use crate::constants::TRITET_ERROR_NULL_SEGMENT_LIST;
use crate::constants::TRITET_ERROR_STRING_CONCAT;
use crate::constants::TRITET_SUCCESS;
use crate::constants::TRITET_TO_TRIANGLE;
use crate::constants::VORONOI_RAY;
use crate::constants::ZERO_BITS;
use crate::error::Error;
use crate::error::ErrorKind;
use vstd::prelude::*;

verus! {

/// A point of the input.
#[derive(Clone, Copy, Debug, PartialEq, Eq, Structural)]
pub struct PointInput {
    pub marker: i32,
    pub x: u64,
    pub y: u64,
}

/// A segment of the input: its marker and the ids of its two endpoints.
#[derive(Clone, Copy, Debug, PartialEq, Eq, Structural)]
pub struct SegmentInput {
    pub marker: i32,
    pub a: usize,
    pub b: usize,
}

/// A region of the input: the attribute of the triangles inside it, a point
/// inside it, and the largest area of its triangles (minus one for none).
#[derive(Clone, Copy, Debug, PartialEq, Eq, Structural)]
pub struct RegionInput {
    pub attribute: usize,
    pub x: u64,
    pub y: u64,
    pub max_area: u64,
}

/// A hole of the input: a point inside it.
#[derive(Clone, Copy, Debug, PartialEq, Eq, Structural)]
pub struct HoleInput {
    pub x: u64,
    pub y: u64,
}

/// A point of the output.
#[derive(Clone, Copy, Debug, PartialEq, Eq, Structural)]
pub struct PointOutput {
    pub x: u64,
    pub y: u64,
    pub marker: i32,
}

/// A segment of the output.
#[derive(Clone, Copy, Debug, PartialEq, Eq, Structural)]
pub struct SegmentOutput {
    pub a: usize,
    pub b: usize,
    pub marker: i32,
}

/// A triangle of the output: the ids of its points, stored by the engine's
/// corner, and its attribute. A triangle without middle nodes uses the first
/// three corners only.
#[derive(Clone, Copy, Debug)]
pub struct TriangleOutput {
    pub corners: [usize; 6],
    pub attribute: usize,
}

/// A vertex of the Voronoi tessellation.
#[derive(Clone, Copy, Debug, PartialEq, Eq, Structural)]
pub struct VoronoiPoint {
    pub x: u64,
    pub y: u64,
}

/// An edge of the Voronoi tessellation as the engine stores it: the id of the
/// first endpoint, the second-point field, and the direction that counts when
/// the edge is a ray.
#[derive(Clone, Copy, Debug, PartialEq, Eq, Structural)]
pub struct VoronoiEdge {
    pub a: usize,
    pub b: i32,
    pub dx: u64,
    pub dy: u64,
}

/// Holds the index of an endpoint on a Voronoi edge or the direction of the Voronoi edge
#[derive(Clone, Copy, Debug, PartialEq, Eq, Structural)]
pub enum VoronoiEdgePoint {
    /// The index of the endpoint
    Index(usize),
    /// The direction of the infinite ray
    Direction(u64, u64),
}

/// What one generation of the engine produced.
pub struct TriangleMesh {
    pub points: Vec<PointOutput>,
    pub segments: Vec<SegmentOutput>,
    pub cell_npoint: usize,
    pub cells: Vec<TriangleOutput>,
    pub voronoi_points: Vec<VoronoiPoint>,
    pub voronoi_edges: Vec<VoronoiEdge>,
}

/// A planar output as a mathematical value.
pub struct TriangleMeshView {
    pub points: Seq<PointOutput>,
    pub segments: Seq<SegmentOutput>,
    pub cell_npoint: nat,
    pub cells: Seq<TriangleOutput>,
    pub voronoi_points: Seq<VoronoiPoint>,
    pub voronoi_edges: Seq<VoronoiEdge>,
}

impl View for TriangleMesh {
    type V = TriangleMeshView;

    open spec fn view(&self) -> TriangleMeshView {
        TriangleMeshView {
            points: self.points@,
            segments: self.segments@,
            cell_npoint: self.cell_npoint as nat,
            cells: self.cells@,
            voronoi_points: self.voronoi_points@,
            voronoi_edges: self.voronoi_edges@,
        }
    }
}

/// One call of the engine with its arguments.
#[derive(Clone, Copy, Debug, PartialEq, Eq, Structural)]
pub enum TrigenCommand {
    /// Triangulate the points.
    Delaunay { verbose: i32 },
    /// Triangulate the points and compute the dual tessellation.
    Voronoi { verbose: i32 },
    /// Generate a conforming constrained triangulation.
    Triangulate {
        verbose: i32,
        quadratic: i32,
        allow_new_points_on_bry: i32,
        global_max_area: u64,
        global_min_angle: u64,
    },
}

/// The state of a planar mesh generation as a mathematical value.
pub struct TrigenView {
    pub points: Seq<PointInput>,
    pub segments: Option<Seq<SegmentInput>>,
    pub regions: Option<Seq<RegionInput>>,
    pub holes: Option<Seq<HoleInput>>,
    pub all_points_set: bool,
    pub all_segments_set: bool,
    pub all_regions_set: bool,
    pub all_holes_set: bool,
    pub mesh: TriangleMeshView,
}

/// The number of entries of a list that may be absent.
pub open spec fn capacity<T>(list: Option<Seq<T>>) -> Option<nat> {
    match list {
        Some(s) => Some(s.len()),
        None => None,
    }
}

/// A list of `n` entries when a capacity `n` is declared.
pub open spec fn declared<T>(n: Option<usize>, value: T) -> Option<Seq<T>> {
    match n {
        Some(n) => Some(Seq::new(n as nat, |i: int| value)),
        None => None,
    }
}

/// The flag that the engine reads for a choice.
pub open spec fn flag(choice: bool) -> i32 {
    if choice {
        1
    } else {
        0
    }
}

/// The value that the engine reads for a constraint that may be absent.
pub open spec fn or_bits(value: Option<u64>, absent: u64) -> u64 {
    match value {
        Some(v) => v,
        None => absent,
    }
}

/// The second endpoint of a Voronoi edge, told from the engine's
/// second-point field: the ray marker gives the direction, anything else is
/// the index of a vertex.
pub open spec fn edge_point_b(edge: VoronoiEdge) -> VoronoiEdgePoint {
    if edge.b == VORONOI_RAY {
        VoronoiEdgePoint::Direction(edge.dx, edge.dy)
    } else {
        VoronoiEdgePoint::Index(edge.b as usize)
    }
}

/// What the engine's status means after a call of the planar engine.
pub open spec fn trigen_status(command: TrigenCommand, status: i32) -> Result<(), Error> {
    if status == TRITET_SUCCESS {
        Ok(())
    } else if status == TRITET_ERROR_NULL_DATA {
        Err(Error::NullData)
    } else if status == TRITET_ERROR_NULL_POINT_LIST {
        Err(Error::NullPointList)
    } else if command is Triangulate && status == TRITET_ERROR_NULL_SEGMENT_LIST {
        Err(Error::SegmentsUndefined)
    } else if command is Triangulate && status == TRITET_ERROR_STRING_CONCAT {
        Err(Error::StringConcat)
    } else {
        Err(Error::UnknownStatus)
    }
}

impl TriangleMeshView {
    /// The output before any generation and after a failed one.
    pub open spec fn empty() -> TriangleMeshView {
        TriangleMeshView {
            points: Seq::empty(),
            segments: Seq::empty(),
            cell_npoint: 0,
            cells: Seq::empty(),
            voronoi_points: Seq::empty(),
            voronoi_edges: Seq::empty(),
        }
    }

    /// A coordinate of a point, zero outside the ranges.
    pub open spec fn point(self, index: int, dim: int) -> u64 {
        if 0 <= index < self.points.len() && dim == 0 {
            self.points[index].x
        } else if 0 <= index < self.points.len() && dim == 1 {
            self.points[index].y
        } else {
            0
        }
    }

    /// The marker of a point, zero outside the range.
    pub open spec fn point_marker(self, index: int) -> i32 {
        if 0 <= index < self.points.len() {
            self.points[index].marker
        } else {
            0
        }
    }

    /// An endpoint of a segment, zero outside the ranges.
    pub open spec fn segment_point(self, index: int, side: int) -> usize {
        if 0 <= index < self.segments.len() && side == 0 {
            self.segments[index].a
        } else if 0 <= index < self.segments.len() && side == 1 {
            self.segments[index].b
        } else {
            0
        }
    }

    /// The marker of a segment, zero outside the range.
    pub open spec fn segment_marker(self, index: int) -> i32 {
        if 0 <= index < self.segments.len() {
            self.segments[index].marker
        } else {
            0
        }
    }

    /// The id of the point at local node `m` of a triangle, in this library's
    /// node order, zero outside the ranges.
    pub open spec fn cell_point(self, index: int, m: int) -> usize {
        if 0 <= index < self.cells.len() && 0 <= m < self.cell_npoint && m < 6 {
            self.cells[index].corners[TRITET_TO_TRIANGLE[m] as int]
        } else {
            0
        }
    }

    /// The attribute of a triangle, zero outside the range.
    pub open spec fn cell_attribute(self, index: int) -> usize {
        if 0 <= index < self.cells.len() {
            self.cells[index].attribute
        } else {
            0
        }
    }

    /// A coordinate of a Voronoi vertex, zero outside the ranges.
    pub open spec fn voronoi_point(self, index: int, dim: int) -> u64 {
        if 0 <= index < self.voronoi_points.len() && dim == 0 {
            self.voronoi_points[index].x
        } else if 0 <= index < self.voronoi_points.len() && dim == 1 {
            self.voronoi_points[index].y
        } else {
            0
        }
    }

    /// The first endpoint of a Voronoi edge, zero outside the range.
    pub open spec fn voronoi_edge_point_a(self, index: int) -> usize {
        if 0 <= index < self.voronoi_edges.len() {
            self.voronoi_edges[index].a
        } else {
            0
        }
    }

    /// The second endpoint of a Voronoi edge, index zero outside the range.
    pub open spec fn voronoi_edge_point_b(self, index: int) -> VoronoiEdgePoint {
        if 0 <= index < self.voronoi_edges.len() {
            edge_point_b(self.voronoi_edges[index])
        } else {
            VoronoiEdgePoint::Index(0)
        }
    }
}

impl TrigenView {
    /// Whether the capacities are those that a construction accepts.
    pub open spec fn wf(self) -> bool {
        &&& self.points.len() >= MIN_NPOINT_2D
        &&& self.segments is Some ==> self.segments->Some_0.len() >= MIN_NSEGMENT
    }

    /// The number of points.
    pub open spec fn npoint(self) -> nat {
        self.points.len()
    }

    /// The number of segments, where segments were declared.
    pub open spec fn nsegment(self) -> Option<nat> {
        capacity(self.segments)
    }

    /// The number of regions, where regions were declared.
    pub open spec fn nregion(self) -> Option<nat> {
        capacity(self.regions)
    }

    /// The number of holes, where holes were declared.
    pub open spec fn nhole(self) -> Option<nat> {
        capacity(self.holes)
    }

    /// Why an input cannot be made with these capacities, if it cannot: the
    /// engine needs three points, and three segments where segments are
    /// declared.
    pub open spec fn construction_refusal(npoint: usize, nsegment: Option<usize>) -> Option<Error> {
        if npoint < MIN_NPOINT_2D {
            Some(Error::TooFewPoints2d)
        } else if nsegment is Some && nsegment->Some_0 < MIN_NSEGMENT {
            Some(Error::TooFewSegments)
        } else {
            None
        }
    }

    /// The state right after construction: every entry zero, nothing complete,
    /// no output.
    pub open spec fn initial(
        npoint: usize,
        nsegment: Option<usize>,
        nregion: Option<usize>,
        nhole: Option<usize>,
    ) -> TrigenView {
        TrigenView {
            points: Seq::new(npoint as nat, |i: int| PointInput { marker: 0, x: 0, y: 0 }),
            segments: declared(nsegment, SegmentInput { marker: 0, a: 0, b: 0 }),
            regions: declared(nregion, RegionInput { attribute: 0, x: 0, y: 0, max_area: 0 }),
            holes: declared(nhole, HoleInput { x: 0, y: 0 }),
            all_points_set: false,
            all_segments_set: false,
            all_regions_set: false,
            all_holes_set: false,
            mesh: TriangleMeshView::empty(),
        }
    }

    /// Why a point cannot be written at an index, if it cannot.
    pub open spec fn point_refusal(self, index: usize) -> Option<Error> {
        if index >= self.points.len() {
            Some(Error::PointIndex)
        } else {
            None
        }
    }

    /// The state after a point was written: the point stands at its index,
    /// and the points are complete exactly if it was the last index.
    pub open spec fn with_point(self, index: usize, point: PointInput) -> TrigenView {
        TrigenView {
            points: self.points.update(index as int, point),
            all_points_set: index == self.points.len() - 1,
            ..self
        }
    }

    /// Why a segment cannot be written at an index, if it cannot: no
    /// segments were declared, the index is not below their number, or an
    /// endpoint is not a point of the input.
    pub open spec fn segment_refusal(self, index: usize, a: usize, b: usize) -> Option<Error> {
        if self.segments is None {
            Some(Error::SegmentsNotDeclared)
        } else if index >= self.segments->Some_0.len() {
            Some(Error::SegmentIndex)
        } else if a >= self.points.len() || b >= self.points.len() {
            Some(Error::SegmentPointId)
        } else {
            None
        }
    }

    /// The state after a segment was written.
    pub open spec fn with_segment(self, index: usize, segment: SegmentInput) -> TrigenView {
        TrigenView {
            segments: Some(self.segments->Some_0.update(index as int, segment)),
            all_segments_set: index == self.segments->Some_0.len() - 1,
            ..self
        }
    }

    /// Why a region cannot be written at an index, if it cannot.
    pub open spec fn region_refusal(self, index: usize) -> Option<Error> {
        if self.regions is None {
            Some(Error::RegionsNotDeclared)
        } else if index >= self.regions->Some_0.len() {
            Some(Error::RegionIndex)
        } else {
            None
        }
    }

    /// The state after a region was written.
    pub open spec fn with_region(self, index: usize, region: RegionInput) -> TrigenView {
        TrigenView {
            regions: Some(self.regions->Some_0.update(index as int, region)),
            all_regions_set: index == self.regions->Some_0.len() - 1,
            ..self
        }
    }

    /// Why a hole cannot be written at an index, if it cannot.
    pub open spec fn hole_refusal(self, index: usize) -> Option<Error> {
        if self.holes is None {
            Some(Error::HolesNotDeclared)
        } else if index >= self.holes->Some_0.len() {
            Some(Error::HoleIndex)
        } else {
            None
        }
    }

    /// The state after a hole was written.
    pub open spec fn with_hole(self, index: usize, hole: HoleInput) -> TrigenView {
        TrigenView {
            holes: Some(self.holes->Some_0.update(index as int, hole)),
            all_holes_set: index == self.holes->Some_0.len() - 1,
            ..self
        }
    }

    /// Whether the input is complete enough for a call of the engine, and the
    /// error where it is not.
    pub open spec fn ready(self, command: TrigenCommand) -> Result<(), Error> {
        match command {
            TrigenCommand::Delaunay { .. } => if self.all_points_set {
                Ok(())
            } else {
                Err(Error::DelaunayTrianglesPointsMissing)
            },
            TrigenCommand::Voronoi { .. } => if self.all_points_set {
                Ok(())
            } else {
                Err(Error::VoronoiPointsMissing)
            },
            TrigenCommand::Triangulate { .. } => if !self.all_points_set {
                Err(Error::TriangleMeshPointsMissing)
            } else if !self.all_segments_set {
                Err(Error::TriangleMeshSegmentsMissing)
            } else {
                Ok(())
            },
        }
    }

    /// The state after the engine answered a call with a status and a mesh.
    pub open spec fn finished(
        self,
        command: TrigenCommand,
        status: i32,
        mesh: TriangleMeshView,
    ) -> TrigenView {
        if self.ready(command) is Err {
            self
        } else if trigen_status(command, status) is Ok {
            TrigenView { mesh: mesh, ..self }
        } else {
            TrigenView { mesh: TriangleMeshView::empty(), ..self }
        }
    }

    /// What the caller is told after the engine answered a call.
    pub open spec fn outcome(self, command: TrigenCommand, status: i32) -> Result<(), Error> {
        if self.ready(command) is Err {
            self.ready(command)
        } else {
            trigen_status(command, status)
        }
    }
}

/// Returns a list of `n` copies of a value.
pub fn filled<T: Copy>(n: usize, value: T) -> (list: Vec<T>)
    ensures
        list@ == Seq::new(n as nat, |i: int| value),
{
    let mut list: Vec<T> = Vec::new();
    let mut i: usize = 0;
    while i < n
        invariant
            i <= n,
            list@ == Seq::new(i as nat, |k: int| value),
        decreases n - i,
    {
        list.push(value);
        i += 1;
    }
    list
}

/// Returns the flag that the engine reads for a choice.
pub fn to_flag(choice: bool) -> (f: i32)
    ensures
        f == flag(choice),
{
    if choice {
        1
    } else {
        0
    }
}

/// Tells the second endpoint of a Voronoi edge from the engine's record.
pub fn classify_edge_point(edge: &VoronoiEdge) -> (point: VoronoiEdgePoint)
    ensures
        point == edge_point_b(*edge),
{
    if edge.b == VORONOI_RAY {
        VoronoiEdgePoint::Direction(edge.dx, edge.dy)
    } else {
        VoronoiEdgePoint::Index(
            #[verifier::truncate]
            (edge.b as usize),
        )
    }
}

/// Translates the status of a call of the planar engine.
pub fn handle_trigen_status(command: &TrigenCommand, status: i32) -> (res: Result<(), Error>)
    ensures
        res == trigen_status(*command, status),
{
    let mesh = match command {
        TrigenCommand::Triangulate { .. } => true,
        _ => false,
    };
    if status == TRITET_SUCCESS {
        Ok(())
    } else if status == TRITET_ERROR_NULL_DATA {
        Err(Error::NullData)
    } else if status == TRITET_ERROR_NULL_POINT_LIST {
        Err(Error::NullPointList)
    } else if mesh && status == TRITET_ERROR_NULL_SEGMENT_LIST {
        Err(Error::SegmentsUndefined)
    } else if mesh && status == TRITET_ERROR_STRING_CONCAT {
        Err(Error::StringConcat)
    } else {
        Err(Error::UnknownStatus)
    }
}

impl TriangleMesh {
    /// Returns the output that holds nothing.
    pub fn empty() -> (mesh: TriangleMesh)
        ensures
            mesh@ == TriangleMeshView::empty(),
    {
        TriangleMesh {
            points: Vec::new(),
            segments: Vec::new(),
            cell_npoint: 0,
            cells: Vec::new(),
            voronoi_points: Vec::new(),
            voronoi_edges: Vec::new(),
        }
    }
}

/// Implements the input and output sides of a planar mesh generation.
///
/// **Note:** All indices are are zero-based.
pub struct Trigen {
    points: Vec<PointInput>,
    segments: Option<Vec<SegmentInput>>,
    regions: Option<Vec<RegionInput>>,
    holes: Option<Vec<HoleInput>>,
    all_points_set: bool,
    all_segments_set: bool,
    all_regions_set: bool,
    all_holes_set: bool,
    mesh: TriangleMesh,
}

impl View for Trigen {
    type V = TrigenView;

    closed spec fn view(&self) -> TrigenView {
        TrigenView {
            points: self.points@,
            segments: match self.segments {
                Some(v) => Some(v@),
                None => None,
            },
            regions: match self.regions {
                Some(v) => Some(v@),
                None => None,
            },
            holes: match self.holes {
                Some(v) => Some(v@),
                None => None,
            },
            all_points_set: self.all_points_set,
            all_segments_set: self.all_segments_set,
            all_regions_set: self.all_regions_set,
            all_holes_set: self.all_holes_set,
            mesh: self.mesh@,
        }
    }
}

impl Trigen {
    /// Allocates a new instance
    ///
    /// # Input
    ///
    /// * `npoint` -- is the number of points in the input PSLG
    /// * `nsegment` -- (only for [Trigen::generate_mesh]) is the number of segments in the input PSLG
    /// * `nregion` -- (only for [Trigen::generate_mesh]) is the number of regions in the input PSLG
    /// * `nhole` -- (only for [Trigen::generate_mesh]) is the number of holes in the input PSLG
    pub fn new(
        npoint: usize,
        nsegment: Option<usize>,
        nregion: Option<usize>,
        nhole: Option<usize>,
    ) -> (res: Result<Self, Error>)
        requires
            TrigenView::construction_refusal(npoint, nsegment) is None ==> npoint <= i32::MAX && (
            nsegment is Some ==> nsegment->Some_0 <= i32::MAX) && (nregion is Some
                ==> nregion->Some_0 <= i32::MAX) && (nhole is Some ==> nhole->Some_0 <= i32::MAX),
        ensures
            TrigenView::construction_refusal(npoint, nsegment) is Some ==> res == Err::<Self, Error>(
                TrigenView::construction_refusal(npoint, nsegment)->Some_0,
            ),
            TrigenView::construction_refusal(npoint, nsegment) is None ==> res is Ok && res->Ok_0@
                == TrigenView::initial(npoint, nsegment, nregion, nhole) && res->Ok_0@.wf(),
            res is Err ==> res->Err_0.spec_kind() == ErrorKind::Construction,
    {
        if npoint < MIN_NPOINT_2D {
            return Err(Error::TooFewPoints2d);
        }
        if let Some(ns) = nsegment {
            if ns < MIN_NSEGMENT {
                return Err(Error::TooFewSegments);
            }
        }
        let segments = match nsegment {
            Some(n) => Some(filled(n, SegmentInput { marker: 0, a: 0, b: 0 })),
            None => None,
        };
        let regions = match nregion {
            Some(n) => Some(filled(n, RegionInput { attribute: 0, x: 0, y: 0, max_area: 0 })),
            None => None,
        };
        let holes = match nhole {
            Some(n) => Some(filled(n, HoleInput { x: 0, y: 0 })),
            None => None,
        };
        Ok(
            Trigen {
                points: filled(npoint, PointInput { marker: 0, x: 0, y: 0 }),
                segments,
                regions,
                holes,
                all_points_set: false,
                all_segments_set: false,
                all_regions_set: false,
                all_holes_set: false,
                mesh: TriangleMesh::empty(),
            },
        )
    }

    /// Sets the point coordinates
    ///
    /// # Input
    ///
    /// * `index` -- is the index of the point and goes from `0` to `npoint` (specified in [Trigen::new])
    /// * `marker` -- is a marker for the point
    /// * `x` -- is x-coordinate of the point
    /// * `y` -- is y-coordinate of the point
    pub fn set_point(&mut self, index: usize, marker: i32, x: u64, y: u64) -> (res: Result<
        &mut Self,
        Error,
    >)
        ensures
            old(self)@.point_refusal(index) is Some ==> res == Err::<&mut Self, Error>(
                old(self)@.point_refusal(index)->Some_0,
            ) && final(self)@ == old(self)@,
            old(self)@.point_refusal(index) is None ==> res is Ok && res->Ok_0@ == old(
                self,
            )@.with_point(index, PointInput { marker, x, y }) && final(self)@ == final(res->Ok_0)@,
    {
        let npoint = self.points.len();
        if index >= npoint {
            return Err(Error::PointIndex);
        }
        self.points.set(index, PointInput { marker, x, y });
        self.all_points_set = index == npoint - 1;
        Ok(self)
    }

    /// Sets the segment endpoint IDs
    ///
    /// # Input
    ///
    /// * `index` -- is the index of the segment and goes from 0 to `nsegment` (passed down to `new`)
    /// * `marker` -- a marker to identify the segment (e.g., a boundary segment)
    /// * `a` -- is the ID (index) of the first point on the segment
    /// * `b` -- is the ID (index) of the second point on the segment
    pub fn set_segment(&mut self, index: usize, marker: i32, a: usize, b: usize) -> (res: Result<
        &mut Self,
        Error,
    >)
        ensures
            old(self)@.segment_refusal(index, a, b) is Some ==> res == Err::<&mut Self, Error>(
                old(self)@.segment_refusal(index, a, b)->Some_0,
            ) && final(self)@ == old(self)@,
            old(self)@.segment_refusal(index, a, b) is None ==> res is Ok && res->Ok_0@ == old(
                self,
            )@.with_segment(index, SegmentInput { marker, a, b }) && final(self)@ == final(res->Ok_0)@,
    {
        let npoint = self.points.len();
        match &mut self.segments {
            None => {
                return Err(Error::SegmentsNotDeclared);
            },
            Some(segments) => {
                let nsegment = segments.len();
                if index >= nsegment {
                    return Err(Error::SegmentIndex);
                }
                if a >= npoint || b >= npoint {
                    return Err(Error::SegmentPointId);
                }
                segments.set(index, SegmentInput { marker, a, b });
                self.all_segments_set = index == nsegment - 1;
            },
        }
        Ok(self)
    }

    /// Marks a region within the Planar Straight Line Graph (PSLG)
    ///
    /// # Input
    ///
    /// * `index` -- is the index of the region and goes from 0 to `nregion` (passed down to `new`)
    /// * `attribute` -- is the attribute ID to group the triangles belonging to this region
    /// * `x` -- is the x-coordinate of the region
    /// * `y` -- is the y-coordinate of the region
    /// * `max_area` -- is the maximum area constraint for the triangles belonging to this region
    pub fn set_region(
        &mut self,
        index: usize,
        attribute: usize,
        x: u64,
        y: u64,
        max_area: Option<u64>,
    ) -> (res: Result<&mut Self, Error>)
        requires
            old(self)@.regions is Some ==> attribute <= i32::MAX,
        ensures
            old(self)@.region_refusal(index) is Some ==> res == Err::<&mut Self, Error>(
                old(self)@.region_refusal(index)->Some_0,
            ) && final(self)@ == old(self)@,
            old(self)@.region_refusal(index) is None ==> res is Ok && res->Ok_0@ == old(
                self,
            )@.with_region(
                index,
                RegionInput { attribute, x, y, max_area: or_bits(max_area, MINUS_ONE_BITS) },
            ) && final(self)@ == final(res->Ok_0)@,
    {
        let area_constraint = match max_area {
            Some(v) => v,
            None => MINUS_ONE_BITS,
        };
        match &mut self.regions {
            None => {
                return Err(Error::RegionsNotDeclared);
            },
            Some(regions) => {
                let nregion = regions.len();
                if index >= nregion {
                    return Err(Error::RegionIndex);
                }
                regions.set(index, RegionInput { attribute, x, y, max_area: area_constraint });
                self.all_regions_set = index == nregion - 1;
            },
        }
        Ok(self)
    }

    /// Marks a hole within the Planar Straight Line Graph (PSLG)
    ///
    /// # Input
    ///
    /// * `index` -- is the index of the hole and goes from 0 to `nhole` (passed down to `new`)
    /// * `x` -- is the x-coordinate of the hole
    /// * `y` -- is the y-coordinate of the hole
    pub fn set_hole(&mut self, index: usize, x: u64, y: u64) -> (res: Result<&mut Self, Error>)
        ensures
            old(self)@.hole_refusal(index) is Some ==> res == Err::<&mut Self, Error>(
                old(self)@.hole_refusal(index)->Some_0,
            ) && final(self)@ == old(self)@,
            old(self)@.hole_refusal(index) is None ==> res is Ok && res->Ok_0@ == old(
                self,
            )@.with_hole(index, HoleInput { x, y }) && final(self)@ == final(res->Ok_0)@,
    {
        match &mut self.holes {
            None => {
                return Err(Error::HolesNotDeclared);
            },
            Some(holes) => {
                let nhole = holes.len();
                if index >= nhole {
                    return Err(Error::HoleIndex);
                }
                holes.set(index, HoleInput { x, y });
                self.all_holes_set = index == nhole - 1;
            },
        }
        Ok(self)
    }
}

impl Trigen {
    /// Generates a Delaunay triangulation
    ///
    /// Returns the call that the engine is to make, or the reason why it may
    /// not run. Hand the engine's answer to [Trigen::finish_generation].
    ///
    /// # Input
    ///
    /// * `verbose` -- Prints Triangle's messages to the console
    pub fn generate_delaunay(&self, verbose: bool) -> (res: Result<TrigenCommand, Error>)
        ensures
            res is Ok <==> self@.all_points_set,
            res is Ok ==> res->Ok_0 == (TrigenCommand::Delaunay { verbose: flag(verbose) })
                && self@.ready(res->Ok_0) is Ok,
            res is Err ==> res->Err_0 == Error::DelaunayTrianglesPointsMissing,
    {
        if !self.all_points_set {
            return Err(Error::DelaunayTrianglesPointsMissing);
        }
        Ok(TrigenCommand::Delaunay { verbose: to_flag(verbose) })
    }

    /// Generates a Voronoi tessellation and Delaunay triangulation
    ///
    /// Returns the call that the engine is to make, or the reason why it may
    /// not run. Hand the engine's answer to [Trigen::finish_generation].
    ///
    /// # Input
    ///
    /// * `verbose` -- Prints Triangle's messages to the console
    pub fn generate_voronoi(&self, verbose: bool) -> (res: Result<TrigenCommand, Error>)
        ensures
            res is Ok <==> self@.all_points_set,
            res is Ok ==> res->Ok_0 == (TrigenCommand::Voronoi { verbose: flag(verbose) })
                && self@.ready(res->Ok_0) is Ok,
            res is Err ==> res->Err_0 == Error::VoronoiPointsMissing,
    {
        if !self.all_points_set {
            return Err(Error::VoronoiPointsMissing);
        }
        Ok(TrigenCommand::Voronoi { verbose: to_flag(verbose) })
    }

    /// Generates a conforming constrained Delaunay triangulation with some quality constraints
    ///
    /// Returns the call that the engine is to make, or the reason why it may
    /// not run. Hand the engine's answer to [Trigen::finish_generation].
    ///
    /// # Input
    ///
    /// * `verbose` -- Prints Triangle's messages to the console
    /// * `quadratic` -- Generates the middle nodes; e.g., nnode = 6
    /// * `allow_new_points_on_bry` -- Allow the insertion of new (Steiner) points on the boundary
    /// * `global_max_area` -- The maximum area constraint for all generated triangles
    /// * `global_min_angle` -- The minimum angle constraint is given in degrees (the default minimum angle is twenty degrees)
    pub fn generate_mesh(
        &self,
        verbose: bool,
        quadratic: bool,
        allow_new_points_on_bry: bool,
        global_max_area: Option<u64>,
        global_min_angle: Option<u64>,
    ) -> (res: Result<TrigenCommand, Error>)
        ensures
            res is Ok <==> self@.all_points_set && self@.all_segments_set,
            res is Ok ==> res->Ok_0 == (TrigenCommand::Triangulate {
                verbose: flag(verbose),
                quadratic: flag(quadratic),
                allow_new_points_on_bry: flag(allow_new_points_on_bry),
                global_max_area: or_bits(global_max_area, ZERO_BITS),
                global_min_angle: or_bits(global_min_angle, ZERO_BITS),
            }) && self@.ready(res->Ok_0) is Ok,
            !self@.all_points_set ==> res == Err::<TrigenCommand, Error>(
                Error::TriangleMeshPointsMissing,
            ),
            self@.all_points_set && !self@.all_segments_set ==> res == Err::<TrigenCommand, Error>(
                Error::TriangleMeshSegmentsMissing,
            ),
    {
        if !self.all_points_set {
            return Err(Error::TriangleMeshPointsMissing);
        }
        if !self.all_segments_set {
            return Err(Error::TriangleMeshSegmentsMissing);
        }
        let max_area = match global_max_area {
            Some(v) => v,
            None => ZERO_BITS,
        };
        let min_angle = match global_min_angle {
            Some(v) => v,
            None => ZERO_BITS,
        };
        Ok(
            TrigenCommand::Triangulate {
                verbose: to_flag(verbose),
                quadratic: to_flag(quadratic),
                allow_new_points_on_bry: to_flag(allow_new_points_on_bry),
                global_max_area: max_area,
                global_min_angle: min_angle,
            },
        )
    }

    /// Tells whether the input is complete enough for a call of the engine.
    pub fn check_ready(&self, command: &TrigenCommand) -> (res: Result<(), Error>)
        ensures
            res == self@.ready(*command),
    {
        match command {
            TrigenCommand::Delaunay { .. } => if self.all_points_set {
                Ok(())
            } else {
                Err(Error::DelaunayTrianglesPointsMissing)
            },
            TrigenCommand::Voronoi { .. } => if self.all_points_set {
                Ok(())
            } else {
                Err(Error::VoronoiPointsMissing)
            },
            TrigenCommand::Triangulate { .. } => if !self.all_points_set {
                Err(Error::TriangleMeshPointsMissing)
            } else if !self.all_segments_set {
                Err(Error::TriangleMeshSegmentsMissing)
            } else {
                Ok(())
            },
        }
    }

    /// Takes the engine's answer to a call: its status and the mesh it made.
    ///
    /// A call that the input does not permit changes nothing. After a status
    /// other than success the output is empty; after success it is `mesh`.
    pub fn finish_generation(&mut self, command: &TrigenCommand, status: i32, mesh: TriangleMesh) -> (res:
        Result<(), Error>)
        ensures
            res == old(self)@.outcome(*command, status),
            final(self)@ == old(self)@.finished(*command, status, mesh@),
            old(self)@.wf() ==> final(self)@.wf(),
    {
        match self.check_ready(command) {
            Err(e) => {
                return Err(e);
            },
            Ok(()) => {},
        }
        match handle_trigen_status(command, status) {
            Err(e) => {
                self.mesh = TriangleMesh::empty();
                Err(e)
            },
            Ok(()) => {
                self.mesh = mesh;
                Ok(())
            },
        }
    }

    /// Returns the number of (output) points of the Delaunay triangulation (constrained or not)
    pub fn out_npoint(&self) -> (n: usize)
        ensures
            n == self@.mesh.points.len(),
    {
        self.mesh.points.len()
    }

    /// Returns the number of (output) segments generated on the PSLG (not the interior)
    ///
    /// **Note:** This option is only available when calling [Trigen::generate_mesh]
    pub fn out_nsegment(&self) -> (n: usize)
        ensures
            n == self@.mesh.segments.len(),
    {
        self.mesh.segments.len()
    }

    /// Returns the number of (output) triangles (aka cells) on the Delaunay triangulation (constrained or not)
    pub fn out_ncell(&self) -> (n: usize)
        ensures
            n == self@.mesh.cells.len(),
    {
        self.mesh.cells.len()
    }

    /// Returns the number of nodes on a triangle (e.g., 3 or 6)
    pub fn out_cell_npoint(&self) -> (n: usize)
        ensures
            n == self@.mesh.cell_npoint,
    {
        self.mesh.cell_npoint
    }

    /// Returns the (output) generated point
    ///
    /// # Input
    ///
    /// * `index` -- is the index of the point and goes from `0` to `out_npoint`
    /// * `dim` -- is the space dimension index: 0 or 1
    ///
    /// # Warning
    ///
    /// This function will return zero values if either `index` is out of range.
    pub fn out_point(&self, index: usize, dim: usize) -> (value: u64)
        ensures
            value == self@.mesh.point(index as int, dim as int),
    {
        if index >= self.mesh.points.len() {
            return 0;
        }
        if dim == 0 {
            self.mesh.points[index].x
        } else if dim == 1 {
            self.mesh.points[index].y
        } else {
            0
        }
    }

    /// Returns the marker of an output point
    ///
    /// # Input
    ///
    /// * `index` -- is the index of the point and goes from `0` to `out_npoint`
    ///
    /// # Warning
    ///
    /// This function will return zero values if either `index` is out of range.
    pub fn out_point_marker(&self, index: usize) -> (marker: i32)
        ensures
            marker == self@.mesh.point_marker(index as int),
    {
        if index >= self.mesh.points.len() {
            return 0;
        }
        self.mesh.points[index].marker
    }

    /// Returns the ID of a point of a segment generated on the PSLG
    ///
    /// # Input
    ///
    /// * `index` -- is the index of the PSLG segment and goes from `0` to `out_nsegment`
    /// * `side` -- `0` or `1`; corresponds to the "side" of the segment
    ///
    /// # Warning
    ///
    /// This function will return zero values if the `index` or `side` is out of range.
    pub fn out_segment_point(&self, index: usize, side: usize) -> (id: usize)
        ensures
            id == self@.mesh.segment_point(index as int, side as int),
    {
        if index >= self.mesh.segments.len() {
            return 0;
        }
        if side == 0 {
            self.mesh.segments[index].a
        } else if side == 1 {
            self.mesh.segments[index].b
        } else {
            0
        }
    }

    /// Returns the marker attached to the output segment
    ///
    /// # Input
    ///
    /// * `index` -- is the index of the PSLG segment and goes from `0` to `out_nsegment`
    ///
    /// # Warning
    ///
    /// This function will return zero values if the `index` is out of range.
    pub fn out_segment_marker(&self, index: usize) -> (marker: i32)
        ensures
            marker == self@.mesh.segment_marker(index as int),
    {
        if index >= self.mesh.segments.len() {
            return 0;
        }
        self.mesh.segments[index].marker
    }

    /// Returns the ID of a point on the triangle (aka cell)
    ///
    /// ```text
    ///     NODES
    ///       2
    ///      / \     The middle nodes are
    ///     /   \    only generated if the
    ///    5     4   quadratic flag is true
    ///   /       \
    ///  /         \
    /// 0-----3-----1
    /// ```
    ///
    /// # Input
    ///
    /// * `index` -- is the index of the triangle and goes from 0 to `out_ncell`
    /// * `m` -- is the local index of the node and goes from 0 to `out_cell_npoint`
    ///
    /// # Warning
    ///
    /// This function will return 0 if `index` or `m` is out of range.
    pub fn out_cell_point(&self, index: usize, m: usize) -> (id: usize)
        ensures
            id == self@.mesh.cell_point(index as int, m as int),
    {
        if index >= self.mesh.cells.len() || m >= self.mesh.cell_npoint || m >= 6 {
            return 0;
        }
        let corner = TRITET_TO_TRIANGLE[m];
        self.mesh.cells[index].corners[corner]
    }

    /// Returns the attribute ID of a triangle (aka cell)
    ///
    /// # Warning
    ///
    /// This function will return 0 if the `index` is out of range.
    pub fn out_cell_attribute(&self, index: usize) -> (attribute: usize)
        ensures
            attribute == self@.mesh.cell_attribute(index as int),
    {
        if index >= self.mesh.cells.len() {
            return 0;
        }
        self.mesh.cells[index].attribute
    }

    /// Returns the number of points of the Voronoi tessellation
    pub fn out_voronoi_npoint(&self) -> (n: usize)
        ensures
            n == self@.mesh.voronoi_points.len(),
    {
        self.mesh.voronoi_points.len()
    }

    /// Returns the x-y coordinates of a point on the Voronoi tessellation
    ///
    /// # Input
    ///
    /// * `index` -- is the index of the point and goes from 0 to `out_voronoi_npoint`
    /// * `dim` -- is the space dimension index: 0 or 1
    ///
    /// # Warning
    ///
    /// This function will return 0.0 if `index` or `dim` is out of range.
    pub fn out_voronoi_point(&self, index: usize, dim: usize) -> (value: u64)
        ensures
            value == self@.mesh.voronoi_point(index as int, dim as int),
    {
        if index >= self.mesh.voronoi_points.len() {
            return 0;
        }
        if dim == 0 {
            self.mesh.voronoi_points[index].x
        } else if dim == 1 {
            self.mesh.voronoi_points[index].y
        } else {
            0
        }
    }

    /// Returns the number of edges on the Voronoi tessellation
    pub fn out_voronoi_nedge(&self) -> (n: usize)
        ensures
            n == self@.mesh.voronoi_edges.len(),
    {
        self.mesh.voronoi_edges.len()
    }

    /// Returns the index of the first endpoint on a Voronoi edge
    ///
    /// # Input
    ///
    /// * `index` -- is the index of the edge and goes from 0 to `out_voronoi_nedge`
    ///
    /// # Warning
    ///
    /// This function will return 0 if `index` is out of range.
    pub fn out_voronoi_edge_point_a(&self, index: usize) -> (id: usize)
        ensures
            id == self@.mesh.voronoi_edge_point_a(index as int),
    {
        if index >= self.mesh.voronoi_edges.len() {
            return 0;
        }
        self.mesh.voronoi_edges[index].a
    }

    /// Returns the index of the second endpoint on a Voronoi edge or the direction of the Voronoi edge
    ///
    /// # Input
    ///
    /// * `index` -- is the index of the edge and goes from 0 to `out_voronoi_nedge`
    ///
    /// # Warning
    ///
    /// This function will return Index(0) if `index` is out of range.
    pub fn out_voronoi_edge_point_b(&self, index: usize) -> (point: VoronoiEdgePoint)
        ensures
            point == self@.mesh.voronoi_edge_point_b(index as int),
    {
        if index >= self.mesh.voronoi_edges.len() {
            return VoronoiEdgePoint::Index(0);
        }
        classify_edge_point(&self.mesh.voronoi_edges[index])
    }
}

impl Trigen {
    /// Returns the number of points that the input was declared with.
    pub fn npoint(&self) -> (n: usize)
        ensures
            n == self@.npoint(),
    {
        self.points.len()
    }

    /// Returns the number of segments that the input was declared with.
    pub fn nsegment(&self) -> (n: Option<usize>)
        ensures
            n is Some <==> self@.segments is Some,
            n is Some ==> n->Some_0 == self@.segments->Some_0.len(),
    {
        match &self.segments {
            Some(segments) => Some(segments.len()),
            None => None,
        }
    }

    /// Returns the number of regions that the input was declared with.
    pub fn nregion(&self) -> (n: Option<usize>)
        ensures
            n is Some <==> self@.regions is Some,
            n is Some ==> n->Some_0 == self@.regions->Some_0.len(),
    {
        match &self.regions {
            Some(regions) => Some(regions.len()),
            None => None,
        }
    }

    /// Returns the number of holes that the input was declared with.
    pub fn nhole(&self) -> (n: Option<usize>)
        ensures
            n is Some <==> self@.holes is Some,
            n is Some ==> n->Some_0 == self@.holes->Some_0.len(),
    {
        match &self.holes {
            Some(holes) => Some(holes.len()),
            None => None,
        }
    }

    /// Tells whether the last point written was the last of the input.
    pub fn all_points_set(&self) -> (set: bool)
        ensures
            set == self@.all_points_set,
    {
        self.all_points_set
    }

    /// Tells whether the last segment written was the last of the input.
    pub fn all_segments_set(&self) -> (set: bool)
        ensures
            set == self@.all_segments_set,
    {
        self.all_segments_set
    }

    /// Tells whether the last region written was the last of the input.
    pub fn all_regions_set(&self) -> (set: bool)
        ensures
            set == self@.all_regions_set,
    {
        self.all_regions_set
    }

    /// Tells whether the last hole written was the last of the input.
    pub fn all_holes_set(&self) -> (set: bool)
        ensures
            set == self@.all_holes_set,
    {
        self.all_holes_set
    }

    /// Returns the points of the input.
    pub fn points(&self) -> (points: &Vec<PointInput>)
        ensures
            points@ == self@.points,
    {
        &self.points
    }

    /// Returns the segments of the input, where segments were declared.
    pub fn segments(&self) -> (segments: &Option<Vec<SegmentInput>>)
        ensures
            segments is Some <==> self@.segments is Some,
            segments is Some ==> segments->Some_0@ == self@.segments->Some_0,
    {
        &self.segments
    }

    /// Returns the regions of the input, where regions were declared.
    pub fn regions(&self) -> (regions: &Option<Vec<RegionInput>>)
        ensures
            regions is Some <==> self@.regions is Some,
            regions is Some ==> regions->Some_0@ == self@.regions->Some_0,
    {
        &self.regions
    }

    /// Returns the holes of the input, where holes were declared.
    pub fn holes(&self) -> (holes: &Option<Vec<HoleInput>>)
        ensures
            holes is Some <==> self@.holes is Some,
            holes is Some ==> holes->Some_0@ == self@.holes->Some_0,
    {
        &self.holes
    }
}

/// A write changes one entry and the completion of its kind, and nothing
/// else: the capacities, the other kinds of input and the output stay.
pub proof fn lemma_trigen_write_is_local(
    state: TrigenView,
    index: usize,
    point: PointInput,
    segment: SegmentInput,
    region: RegionInput,
    hole: HoleInput,
)
    ensures
        state.point_refusal(index) is None ==> {
            let next = state.with_point(index, point);
            &&& next.npoint() == state.npoint()
            &&& next.points[index as int] == point
            &&& forall|i: int|
                0 <= i < state.npoint() && i != index ==> next.points[i] == state.points[i]
            &&& next == TrigenView {
                points: next.points,
                all_points_set: next.all_points_set,
                ..state
            }
            &&& state.wf() ==> next.wf()
        },
        state.segment_refusal(index, segment.a, segment.b) is None ==> {
            let next = state.with_segment(index, segment);
            &&& next.nsegment() == state.nsegment()
            &&& next.segments->Some_0[index as int] == segment
            &&& forall|i: int|
                0 <= i < state.segments->Some_0.len() && i != index ==> next.segments->Some_0[i]
                    == state.segments->Some_0[i]
            &&& next == TrigenView {
                segments: next.segments,
                all_segments_set: next.all_segments_set,
                ..state
            }
            &&& state.wf() ==> next.wf()
        },
        state.region_refusal(index) is None ==> {
            let next = state.with_region(index, region);
            &&& next.nregion() == state.nregion()
            &&& next.regions->Some_0[index as int] == region
            &&& next == TrigenView {
                regions: next.regions,
                all_regions_set: next.all_regions_set,
                ..state
            }
            &&& state.wf() ==> next.wf()
        },
        state.hole_refusal(index) is None ==> {
            let next = state.with_hole(index, hole);
            &&& next.nhole() == state.nhole()
            &&& next.holes->Some_0[index as int] == hole
            &&& next == TrigenView { holes: next.holes, all_holes_set: next.all_holes_set, ..state }
            &&& state.wf() ==> next.wf()
        },
{
}

/// Of two writes to one index the last one wins.
pub proof fn lemma_trigen_last_write_wins(
    state: TrigenView,
    index: usize,
    first: PointInput,
    last: PointInput,
)
    requires
        state.point_refusal(index) is None,
    ensures
        state.with_point(index, first).point_refusal(index) is None,
        state.with_point(index, first).with_point(index, last) == state.with_point(index, last),
{
    assert(state.points.update(index as int, first).update(index as int, last)
        =~= state.points.update(index as int, last));
}

/// The points are complete after a write to the last index and incomplete
/// after a write to any other, whatever was written before. The engine may
/// triangulate exactly when they are complete.
pub proof fn lemma_trigen_completion_follows_the_last_write(
    state: TrigenView,
    index: usize,
    point: PointInput,
    verbose: i32,
)
    requires
        state.point_refusal(index) is None,
    ensures
        state.with_point(index, point).all_points_set <==> index == state.npoint() - 1,
        state.with_point(index, point).ready(TrigenCommand::Delaunay { verbose }) is Ok <==> index
            == state.npoint() - 1,
        state.with_point(index, point).ready(TrigenCommand::Voronoi { verbose }) is Ok <==> index
            == state.npoint() - 1,
{
}

/// A generation whose input is not complete is refused as incomplete input,
/// whatever the engine would say.
pub proof fn lemma_trigen_incomplete_input_is_refused(
    state: TrigenView,
    command: TrigenCommand,
    status: i32,
    mesh: TriangleMeshView,
)
    requires
        state.ready(command) is Err,
    ensures
        state.outcome(command, status) is Err,
        state.outcome(command, status)->Err_0.spec_kind() == ErrorKind::IncompleteInput,
        state.finished(command, status, mesh) == state,
{
}

/// Every read of the output outside its ranges gives zero.
pub proof fn lemma_trigen_out_of_range_is_zero(mesh: TriangleMeshView, index: int, sub: int)
    ensures
        index >= mesh.points.len() || sub >= 2 ==> mesh.point(index, sub) == 0,
        index >= mesh.points.len() ==> mesh.point_marker(index) == 0,
        index >= mesh.segments.len() || sub >= 2 ==> mesh.segment_point(index, sub) == 0,
        index >= mesh.segments.len() ==> mesh.segment_marker(index) == 0,
        index >= mesh.cells.len() || sub >= mesh.cell_npoint || sub >= 6 ==> mesh.cell_point(
            index,
            sub,
        ) == 0,
        index >= mesh.cells.len() ==> mesh.cell_attribute(index) == 0,
        index >= mesh.voronoi_points.len() || sub >= 2 ==> mesh.voronoi_point(index, sub) == 0,
        index >= mesh.voronoi_edges.len() ==> mesh.voronoi_edge_point_a(index) == 0,
        index >= mesh.voronoi_edges.len() ==> mesh.voronoi_edge_point_b(index)
            == VoronoiEdgePoint::Index(0),
{
}

/// What is read depends on the output alone: two states with the same
/// output give the same reads, whatever their inputs are. So a read can be
/// repeated, and writing to the input does not change it.
pub proof fn lemma_trigen_reads_follow_the_output(
    one: TrigenView,
    other: TrigenView,
    index: int,
    sub: int,
)
    requires
        one.mesh == other.mesh,
    ensures
        one.mesh.point(index, sub) == other.mesh.point(index, sub),
        one.mesh.point_marker(index) == other.mesh.point_marker(index),
        one.mesh.segment_point(index, sub) == other.mesh.segment_point(index, sub),
        one.mesh.segment_marker(index) == other.mesh.segment_marker(index),
        one.mesh.cell_point(index, sub) == other.mesh.cell_point(index, sub),
        one.mesh.cell_attribute(index) == other.mesh.cell_attribute(index),
        one.mesh.voronoi_point(index, sub) == other.mesh.voronoi_point(index, sub),
        one.mesh.voronoi_edge_point_a(index) == other.mesh.voronoi_edge_point_a(index),
        one.mesh.voronoi_edge_point_b(index) == other.mesh.voronoi_edge_point_b(index),
{
}

/// Before any generation every count of the output is zero.
pub proof fn lemma_trigen_starts_empty(
    npoint: usize,
    nsegment: Option<usize>,
    nregion: Option<usize>,
    nhole: Option<usize>,
)
    ensures
        TrigenView::initial(npoint, nsegment, nregion, nhole).mesh.points.len() == 0,
        TrigenView::initial(npoint, nsegment, nregion, nhole).mesh.cells.len() == 0,
        TrigenView::initial(npoint, nsegment, nregion, nhole).mesh.segments.len() == 0,
        TrigenView::initial(npoint, nsegment, nregion, nhole).mesh.voronoi_points.len() == 0,
        TrigenView::initial(npoint, nsegment, nregion, nhole).mesh.voronoi_edges.len() == 0,
{
}

} // verus!
