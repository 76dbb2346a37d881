//! Spatial meshes: the input and its completion, the calls of the engine,
//! and the model of what the engine hands back.
//!
//! Coordinates, sizes and angles are carried as the 64-bit patterns of
//! double-precision numbers; the library never computes with them.

use crate::constants::MINUS_ONE_BITS;
use crate::constants::MIN_FACET_NPOINT;
use crate::constants::MIN_NFACET;
use crate::constants::MIN_NPOINT_3D;
use crate::constants::TRITET_TO_TETGEN;
use crate::constants::ZERO_BITS;
use crate::error::Error;
use crate::error::ErrorKind;
use crate::marked_face::faces_describe;
use crate::marked_face::lemma_reconstruct_describes;
use crate::marked_face::reconstruct;
use crate::marked_face::reconstruct_marked_faces;
use crate::marked_face::FaceKey;
use crate::marked_face::FaceRecord;
use crate::marked_face::MarkedFace;
use crate::status::handle_status;
use crate::status::status_meaning;
use crate::trigen::capacity;
use crate::trigen::declared;
use crate::trigen::filled;
use crate::trigen::flag;
use crate::trigen::or_bits;
use crate::trigen::to_flag;
use vstd::prelude::*;

verus! {

/// A point of the input.
#[derive(Clone, Copy, Debug, PartialEq, Eq, Structural)]
pub struct TetPointInput {
    pub marker: i32,
    pub x: u64,
    pub y: u64,
    pub z: u64,
}

/// A facet of the input: its marker and the ids of its points.
#[derive(Debug)]
pub struct Facet {
    pub marker: i32,
    pub points: Vec<usize>,
}

/// A facet as a mathematical value.
pub struct FacetView {
    pub marker: i32,
    pub points: Seq<usize>,
}

impl View for Facet {
    type V = FacetView;

    open spec fn view(&self) -> FacetView {
        FacetView { marker: self.marker, points: self.points@ }
    }
}

/// A region of the input: the attribute of the tetrahedra inside it, a point
/// inside it, and the largest volume of its tetrahedra (minus one for none).
#[derive(Clone, Copy, Debug, PartialEq, Eq, Structural)]
pub struct TetRegionInput {
    pub attribute: usize,
    pub x: u64,
    pub y: u64,
    pub z: u64,
    pub max_volume: u64,
}

/// A hole of the input: a point inside it.
#[derive(Clone, Copy, Debug, PartialEq, Eq, Structural)]
pub struct TetHoleInput {
    pub x: u64,
    pub y: u64,
    pub z: u64,
}

/// A point of the output.
#[derive(Clone, Copy, Debug, PartialEq, Eq, Structural)]
pub struct TetPointOutput {
    pub x: u64,
    pub y: u64,
    pub z: u64,
    pub marker: i32,
}

/// A tetrahedron of the output: the ids of its points, stored by the
/// engine's corner, and its attribute. A tetrahedron without middle nodes
/// uses the first four corners only.
#[derive(Clone, Copy, Debug)]
pub struct TetrahedronOutput {
    pub corners: [usize; 10],
    pub attribute: usize,
}

/// What one generation of the engine produced.
pub struct TetrahedronMesh {
    pub points: Vec<TetPointOutput>,
    pub cell_npoint: usize,
    pub cells: Vec<TetrahedronOutput>,
    pub faces: Vec<FaceRecord>,
}

/// A spatial output as a mathematical value.
pub struct TetrahedronMeshView {
    pub points: Seq<TetPointOutput>,
    pub cell_npoint: nat,
    pub cells: Seq<TetrahedronOutput>,
    pub faces: Seq<FaceRecord>,
}

impl View for TetrahedronMesh {
    type V = TetrahedronMeshView;

    open spec fn view(&self) -> TetrahedronMeshView {
        TetrahedronMeshView {
            points: self.points@,
            cell_npoint: self.cell_npoint as nat,
            cells: self.cells@,
            faces: self.faces@,
        }
    }
}

/// One call of the engine with its arguments.
#[derive(Clone, Copy, Debug, PartialEq, Eq, Structural)]
pub enum TetgenCommand {
    /// Tetrahedralize the points.
    Delaunay { verbose: i32 },
    /// Generate a mesh of tetrahedra that respects the facets.
    Tetrahedralize { verbose: i32, o2: i32, global_max_volume: u64, global_min_angle: u64 },
}

/// The state of a spatial mesh generation as a mathematical value.
pub struct TetgenView {
    pub points: Seq<TetPointInput>,
    pub facets: Option<Seq<FacetView>>,
    pub total_facet_npoint: nat,
    pub facet_point_set_count: nat,
    pub regions: Option<Seq<TetRegionInput>>,
    pub holes: Option<Seq<TetHoleInput>>,
    pub all_points_set: bool,
    pub all_facets_set: bool,
    pub all_regions_set: bool,
    pub all_holes_set: bool,
    pub mesh: TetrahedronMeshView,
    pub marked_faces: Seq<MarkedFace>,
}

/// The views of a list of facets.
pub open spec fn facet_views(facets: Seq<Facet>) -> Seq<FacetView> {
    facets.map_values(|f: Facet| f@)
}

/// The facets right after construction: one per declared number of points,
/// with marker zero and every point zero.
pub open spec fn blank_facets(facet_npoint: Seq<usize>) -> Seq<FacetView> {
    Seq::new(
        facet_npoint.len(),
        |i: int| FacetView { marker: 0, points: Seq::new(facet_npoint[i] as nat, |k: int| 0usize) },
    )
}

/// The number of points of the first `n` facets together.
pub open spec fn facet_points_total(facet_npoint: Seq<usize>, n: nat) -> nat
    decreases n,
{
    if n == 0 {
        0
    } else {
        facet_points_total(facet_npoint, (n - 1) as nat) + facet_npoint[n - 1] as nat
    }
}

/// The number of points of the first `n` facets together.
pub open spec fn facets_total(facets: Seq<FacetView>, n: nat) -> nat
    decreases n,
{
    if n == 0 {
        0
    } else {
        facets_total(facets, (n - 1) as nat) + facets[n - 1].points.len()
    }
}

/// The numbers of points that the facets are declared with, where facets
/// are declared.
pub open spec fn declared_facets(facet_npoint: Option<Vec<usize>>) -> Option<Seq<usize>> {
    match facet_npoint {
        Some(list) => Some(list@),
        None => None,
    }
}

/// Whether some facet is declared with fewer points than a facet may have.
pub open spec fn has_small_facet(facet_npoint: Seq<usize>) -> bool {
    exists|i: int| 0 <= i < facet_npoint.len() && #[trigger] facet_npoint[i] < MIN_FACET_NPOINT
}

/// The count of facet points after one more was written: writing the first
/// point of the first facet starts the count anew.
pub open spec fn next_count(count: nat, index: usize, m: usize) -> nat {
    let from = if index == 0 && m == 0 {
        0
    } else {
        count
    };
    if from < u64::MAX {
        from + 1
    } else {
        from
    }
}

impl TetrahedronMeshView {
    /// The output before any generation and after a failed one.
    pub open spec fn empty() -> TetrahedronMeshView {
        TetrahedronMeshView {
            points: Seq::empty(),
            cell_npoint: 0,
            cells: Seq::empty(),
            faces: Seq::empty(),
        }
    }

    /// A coordinate of a point, zero outside the ranges.
    pub open spec fn point(self, index: int, dim: int) -> u64 {
        if 0 <= index < self.points.len() && dim == 0 {
            self.points[index].x
        } else if 0 <= index < self.points.len() && dim == 1 {
            self.points[index].y
        } else if 0 <= index < self.points.len() && dim == 2 {
            self.points[index].z
        } else {
            0
        }
    }

    /// The marker of a point, zero outside the range.
    pub open spec fn point_marker(self, index: int) -> i32 {
        if 0 <= index < self.points.len() {
            self.points[index].marker
        } else {
            0
        }
    }

    /// The id of the point at local node `m` of a tetrahedron, in this
    /// library's node order, zero outside the ranges.
    pub open spec fn cell_point(self, index: int, m: int) -> usize {
        if 0 <= index < self.cells.len() && 0 <= m < self.cell_npoint && m < 10 {
            self.cells[index].corners[TRITET_TO_TETGEN[m] as int]
        } else {
            0
        }
    }

    /// The attribute of a tetrahedron, zero outside the range.
    pub open spec fn cell_attribute(self, index: int) -> usize {
        if 0 <= index < self.cells.len() {
            self.cells[index].attribute
        } else {
            0
        }
    }
}

impl TetrahedronMesh {
    /// Returns the output that holds nothing.
    pub fn empty() -> (mesh: TetrahedronMesh)
        ensures
            mesh@ == TetrahedronMeshView::empty(),
    {
        TetrahedronMesh { points: Vec::new(), cell_npoint: 0, cells: Vec::new(), faces: Vec::new() }
    }
}

impl TetgenView {
    /// Whether the capacities are those that a construction accepts, the
    /// total of facet points is the sum over the facets, and the marked
    /// faces are those that the face records of the output describe.
    pub open spec fn wf(self) -> bool {
        &&& self.points.len() >= MIN_NPOINT_3D
        &&& self.facets is Some ==> self.facets->Some_0.len() >= MIN_NFACET
        &&& self.facets is Some ==> forall|i: int|
            0 <= i < self.facets->Some_0.len() ==> (#[trigger] self.facets->Some_0[i]).points.len()
                >= MIN_FACET_NPOINT
        &&& self.total_facet_npoint == match self.facets {
            Some(facets) => facets_total(facets, facets.len()),
            None => 0,
        }
        &&& self.marked_faces == reconstruct(self.mesh.faces)
    }

    /// The number of points.
    pub open spec fn npoint(self) -> nat {
        self.points.len()
    }

    /// The number of facets, where facets were declared.
    pub open spec fn nfacet(self) -> Option<nat> {
        capacity(self.facets)
    }

    /// The number of regions, where regions were declared.
    pub open spec fn nregion(self) -> Option<nat> {
        capacity(self.regions)
    }

    /// The number of holes, where holes were declared.
    pub open spec fn nhole(self) -> Option<nat> {
        capacity(self.holes)
    }

    /// Why an input cannot be made with these capacities, if it cannot: the
    /// engine needs four points and, where facets are declared, four facets
    /// of three points each.
    pub open spec fn construction_refusal(
        npoint: usize,
        facet_npoint: Option<Seq<usize>>,
    ) -> Option<Error> {
        if npoint < MIN_NPOINT_3D {
            Some(Error::TooFewPoints3d)
        } else if facet_npoint is Some && facet_npoint->Some_0.len() < MIN_NFACET {
            Some(Error::TooFewFacets)
        } else if facet_npoint is Some && has_small_facet(facet_npoint->Some_0) {
            Some(Error::TooFewFacetPoints)
        } else {
            None
        }
    }

    /// The state right after construction: every entry zero, nothing
    /// complete, no output.
    pub open spec fn initial(
        npoint: usize,
        facet_npoint: Option<Seq<usize>>,
        nregion: Option<usize>,
        nhole: Option<usize>,
    ) -> TetgenView {
        TetgenView {
            points: Seq::new(npoint as nat, |i: int| TetPointInput { marker: 0, x: 0, y: 0, z: 0 }),
            facets: match facet_npoint {
                Some(list) => Some(blank_facets(list)),
                None => None,
            },
            total_facet_npoint: match facet_npoint {
                Some(list) => facet_points_total(list, list.len()),
                None => 0,
            },
            facet_point_set_count: 0,
            regions: declared(
                nregion,
                TetRegionInput { attribute: 0, x: 0, y: 0, z: 0, max_volume: 0 },
            ),
            holes: declared(nhole, TetHoleInput { x: 0, y: 0, z: 0 }),
            all_points_set: false,
            all_facets_set: false,
            all_regions_set: false,
            all_holes_set: false,
            mesh: TetrahedronMeshView::empty(),
            marked_faces: Seq::empty(),
        }
    }

    /// Why a point cannot be written at an index, if it cannot.
    pub open spec fn point_refusal(self, index: usize) -> Option<Error> {
        if index >= self.points.len() {
            Some(Error::PointIndex)
        } else {
            None
        }
    }

    /// The state after a point was written: the point stands at its index,
    /// and the points are complete exactly if it was the last index.
    pub open spec fn with_point(self, index: usize, point: TetPointInput) -> TetgenView {
        TetgenView {
            points: self.points.update(index as int, point),
            all_points_set: index == self.points.len() - 1,
            ..self
        }
    }

    /// Why a point cannot be written on a facet, if it cannot: no facets
    /// were declared, the index is not below their number, the local index
    /// is not below the facet's number of points, or the id is not a point
    /// of the input.
    pub open spec fn facet_point_refusal(self, index: usize, m: usize, p: usize) -> Option<Error> {
        if self.facets is None {
            Some(Error::FacetPointsNotDeclared)
        } else if index >= self.facets->Some_0.len() {
            Some(Error::FacetIndex)
        } else if m >= self.facets->Some_0[index as int].points.len() {
            Some(Error::FacetPointIndex)
        } else if p >= self.points.len() {
            Some(Error::FacetPointId)
        } else {
            None
        }
    }

    /// The state after a point was written on a facet: the id stands at its
    /// place, the count moves on, and the facets are complete from the
    /// moment that the count reaches the total.
    pub open spec fn with_facet_point(self, index: usize, m: usize, p: usize) -> TetgenView {
        let facet = self.facets->Some_0[index as int];
        TetgenView {
            facets: Some(
                self.facets->Some_0.update(
                    index as int,
                    FacetView { points: facet.points.update(m as int, p), ..facet },
                ),
            ),
            facet_point_set_count: next_count(self.facet_point_set_count, index, m),
            all_facets_set: self.all_facets_set || next_count(self.facet_point_set_count, index, m)
                == self.total_facet_npoint,
            ..self
        }
    }

    /// Why the marker of a facet cannot be written, if it cannot.
    pub open spec fn facet_marker_refusal(self, index: usize) -> Option<Error> {
        if self.facets is None {
            Some(Error::FacetMarkersNotDeclared)
        } else if index >= self.facets->Some_0.len() {
            Some(Error::FacetIndex)
        } else {
            None
        }
    }

    /// The state after the marker of a facet was written.
    pub open spec fn with_facet_marker(self, index: usize, marker: i32) -> TetgenView {
        TetgenView {
            facets: Some(
                self.facets->Some_0.update(
                    index as int,
                    FacetView { marker, ..self.facets->Some_0[index as int] },
                ),
            ),
            ..self
        }
    }

    /// Why a region cannot be written at an index, if it cannot.
    pub open spec fn region_refusal(self, index: usize) -> Option<Error> {
        if self.regions is None {
            Some(Error::RegionsNotDeclared)
        } else if index >= self.regions->Some_0.len() {
            Some(Error::RegionIndex)
        } else {
            None
        }
    }

    /// The state after a region was written.
    pub open spec fn with_region(self, index: usize, region: TetRegionInput) -> TetgenView {
        TetgenView {
            regions: Some(self.regions->Some_0.update(index as int, region)),
            all_regions_set: index == self.regions->Some_0.len() - 1,
            ..self
        }
    }

    /// Why a hole cannot be written at an index, if it cannot.
    pub open spec fn hole_refusal(self, index: usize) -> Option<Error> {
        if self.holes is None {
            Some(Error::HolesNotDeclared)
        } else if index >= self.holes->Some_0.len() {
            Some(Error::HoleIndex)
        } else {
            None
        }
    }

    /// The state after a hole was written.
    pub open spec fn with_hole(self, index: usize, hole: TetHoleInput) -> TetgenView {
        TetgenView {
            holes: Some(self.holes->Some_0.update(index as int, hole)),
            all_holes_set: index == self.holes->Some_0.len() - 1,
            ..self
        }
    }

    /// The state after the first `n` of a list of facet points were written,
    /// each given as the index of the facet, the local index and the id.
    pub open spec fn with_facet_points(self, writes: Seq<(usize, usize, usize)>, n: nat) -> TetgenView
        decreases n,
    {
        if n == 0 {
            self
        } else {
            self.with_facet_points(writes, (n - 1) as nat).with_facet_point(
                writes[n - 1].0,
                writes[n - 1].1,
                writes[n - 1].2,
            )
        }
    }

    /// Whether the input is complete enough for a call of the engine, and the
    /// error where it is not.
    pub open spec fn ready(self, command: TetgenCommand) -> Result<(), Error> {
        match command {
            TetgenCommand::Delaunay { .. } => if self.all_points_set {
                Ok(())
            } else {
                Err(Error::DelaunayTetrahedraPointsMissing)
            },
            TetgenCommand::Tetrahedralize { .. } => if !self.all_points_set {
                Err(Error::TetrahedronMeshPointsMissing)
            } else if !self.all_facets_set {
                Err(Error::TetrahedronMeshFacetsMissing)
            } else {
                Ok(())
            },
        }
    }

    /// The state after the engine answered a call with a status and a mesh.
    pub open spec fn finished(
        self,
        command: TetgenCommand,
        status: i32,
        mesh: TetrahedronMeshView,
    ) -> TetgenView {
        if self.ready(command) is Err {
            self
        } else if status_meaning(status) is Ok {
            TetgenView { mesh: mesh, marked_faces: reconstruct(mesh.faces), ..self }
        } else {
            TetgenView { mesh: TetrahedronMeshView::empty(), marked_faces: Seq::empty(), ..self }
        }
    }

    /// What the caller is told after the engine answered a call.
    pub open spec fn outcome(self, command: TetgenCommand, status: i32) -> Result<(), Error> {
        if self.ready(command) is Err {
            self.ready(command)
        } else {
            status_meaning(status)
        }
    }

    /// The marker and the cell of a marked face, zeros outside the range.
    pub open spec fn marked_face(self, index: int) -> (i32, usize) {
        if 0 <= index < self.marked_faces.len() {
            (self.marked_faces[index].marker, self.marked_faces[index].cell)
        } else {
            (0, 0)
        }
    }

    /// The ids of the points of a marked face, zeros outside the range.
    pub open spec fn marked_face_points(self, index: int) -> Seq<i32> {
        if 0 <= index < self.marked_faces.len() {
            self.marked_faces[index].points@
        } else {
            seq![0i32, 0i32, 0i32, 0i32, 0i32, 0i32]
        }
    }

    /// The key of a marked face, zeros outside the range.
    pub open spec fn marked_face_key(self, index: int) -> FaceKey {
        if 0 <= index < self.marked_faces.len() {
            self.marked_faces[index].key
        } else {
            FaceKey { a: 0, b: 0, c: 0 }
        }
    }
}

/// Implements the input and output sides of a spatial mesh generation.
///
/// **Note:** All indices are are zero-based.
pub struct Tetgen {
    points: Vec<TetPointInput>,
    facets: Option<Vec<Facet>>,
    total_facet_npoint: u64,
    facet_point_set_count: u64,
    regions: Option<Vec<TetRegionInput>>,
    holes: Option<Vec<TetHoleInput>>,
    all_points_set: bool,
    all_facets_set: bool,
    all_regions_set: bool,
    all_holes_set: bool,
    mesh: TetrahedronMesh,
    marked_faces: Vec<MarkedFace>,
}

impl View for Tetgen {
    type V = TetgenView;

    closed spec fn view(&self) -> TetgenView {
        TetgenView {
            points: self.points@,
            facets: match self.facets {
                Some(v) => Some(facet_views(v@)),
                None => None,
            },
            total_facet_npoint: self.total_facet_npoint as nat,
            facet_point_set_count: self.facet_point_set_count as nat,
            regions: match self.regions {
                Some(v) => Some(v@),
                None => None,
            },
            holes: match self.holes {
                Some(v) => Some(v@),
                None => None,
            },
            all_points_set: self.all_points_set,
            all_facets_set: self.all_facets_set,
            all_regions_set: self.all_regions_set,
            all_holes_set: self.all_holes_set,
            mesh: self.mesh@,
            marked_faces: self.marked_faces@,
        }
    }
}

/// The total of facet points depends on the numbers of points of the
/// facets alone.
pub proof fn lemma_facets_total_by_lengths(one: Seq<FacetView>, other: Seq<FacetView>, n: nat)
    requires
        n <= one.len(),
        one.len() == other.len(),
        forall|i: int| 0 <= i < one.len() ==> one[i].points.len() == other[i].points.len(),
    ensures
        facets_total(one, n) == facets_total(other, n),
    decreases n,
{
    if n > 0 {
        lemma_facets_total_by_lengths(one, other, (n - 1) as nat);
    }
}

/// The total of facet points right after construction is the sum of the
/// declared numbers.
pub proof fn lemma_blank_facets_total(facet_npoint: Seq<usize>, n: nat)
    requires
        n <= facet_npoint.len(),
    ensures
        facets_total(blank_facets(facet_npoint), n) == facet_points_total(facet_npoint, n),
    decreases n,
{
    if n > 0 {
        lemma_blank_facets_total(facet_npoint, (n - 1) as nat);
    }
}

/// The total of facet points stays below the square of the largest count.
pub proof fn lemma_facet_points_total_bound(facet_npoint: Seq<usize>, n: nat)
    requires
        n <= facet_npoint.len(),
        forall|i: int| 0 <= i < n ==> facet_npoint[i] <= i32::MAX,
    ensures
        facet_points_total(facet_npoint, n) <= n * i32::MAX,
    decreases n,
{
    if n > 0 {
        lemma_facet_points_total_bound(facet_npoint, (n - 1) as nat);
        assert(n * i32::MAX == (n - 1) * i32::MAX + i32::MAX) by (nonlinear_arith);
    }
}

impl Tetgen {
    /// Allocates a new instance
    ///
    /// # Input
    ///
    /// * `npoint` -- is the number of points in the input PLC
    /// * `facet_npoint` -- (only for [Tetgen::generate_mesh]) is the number of points of each facet
    /// * `nregion` -- (only for [Tetgen::generate_mesh]) is the number of regions
    /// * `nhole` -- (only for [Tetgen::generate_mesh]) is the number of holes
    pub fn new(
        npoint: usize,
        facet_npoint: Option<Vec<usize>>,
        nregion: Option<usize>,
        nhole: Option<usize>,
    ) -> (res: Result<Self, Error>)
        requires
            npoint >= MIN_NPOINT_3D ==> npoint <= i32::MAX,
            npoint >= MIN_NPOINT_3D && facet_npoint is Some ==> facet_npoint->Some_0.len()
                <= i32::MAX,
            npoint >= MIN_NPOINT_3D && facet_npoint is Some && facet_npoint->Some_0.len()
                >= MIN_NFACET ==> forall|i: int|
                0 <= i < facet_npoint->Some_0.len() && (forall|k: int|
                    0 <= k < i ==> facet_npoint->Some_0[k] >= MIN_FACET_NPOINT)
                    ==> #[trigger] facet_npoint->Some_0[i] <= i32::MAX,
            TetgenView::construction_refusal(npoint, declared_facets(facet_npoint)) is None ==> (
            nregion is Some ==> nregion->Some_0 <= i32::MAX) && (nhole is Some ==> nhole->Some_0
                <= i32::MAX),
        ensures
            TetgenView::construction_refusal(npoint, declared_facets(facet_npoint)) is Some ==> res
                == Err::<Self, Error>(
                TetgenView::construction_refusal(npoint, declared_facets(facet_npoint))->Some_0,
            ),
            TetgenView::construction_refusal(npoint, declared_facets(facet_npoint)) is None
                ==> res is Ok && res->Ok_0@ == TetgenView::initial(
                npoint,
                declared_facets(facet_npoint),
                nregion,
                nhole,
            ) && res->Ok_0@.wf(),
            res is Err ==> res->Err_0.spec_kind() == ErrorKind::Construction,
    {
        if npoint < MIN_NPOINT_3D {
            return Err(Error::TooFewPoints3d);
        }
        let mut total_facet_npoint: u64 = 0;
        let mut facets: Option<Vec<Facet>> = None;
        if let Some(list) = &facet_npoint {
            let nfacet = list.len();
            if nfacet < MIN_NFACET {
                return Err(Error::TooFewFacets);
            }
            let mut made: Vec<Facet> = Vec::new();
            let mut i: usize = 0;
            while i < nfacet
                invariant
                    i <= nfacet,
                    nfacet == list.len(),
                    nfacet <= i32::MAX,
                    nfacet >= MIN_NFACET,
                    npoint >= MIN_NPOINT_3D,
                    facet_npoint == Some(*list),
                    forall|j: int|
                        0 <= j < list.len() && (forall|k: int|
                            0 <= k < j ==> list[k] >= MIN_FACET_NPOINT) ==> #[trigger] list[j]
                            <= i32::MAX,
                    forall|k: int| 0 <= k < i ==> list[k] >= MIN_FACET_NPOINT,
                    total_facet_npoint == facet_points_total(list@, i as nat),
                    made.len() == i,
                    forall|k: int|
                        0 <= k < i ==> (#[trigger] made[k]).marker == 0 && made[k].points@
                            =~= Seq::new(list[k] as nat, |j: int| 0usize),
                decreases nfacet - i,
            {
                let n = list[i];
                if n < MIN_FACET_NPOINT {
                    assert(has_small_facet(list@));
                    return Err(Error::TooFewFacetPoints);
                }
                proof {
                    assert(list[i as int] <= i32::MAX);
                    lemma_facet_points_total_bound(list@, i as nat);
                    assert(i * i32::MAX <= i32::MAX * i32::MAX) by (nonlinear_arith)
                        requires
                            i <= i32::MAX,
                    ;
                }
                total_facet_npoint = total_facet_npoint + n as u64;
                made.push(Facet { marker: 0, points: filled(n, 0usize) });
                i += 1;
            }
            assert(facet_views(made@) =~= blank_facets(list@)) by {
                assert forall|k: int| 0 <= k < nfacet implies facet_views(made@)[k]
                    == blank_facets(list@)[k] by {
                    assert(made[k].marker == 0);
                }
            }
            proof {
                lemma_blank_facets_total(list@, nfacet as nat);
            }
            facets = Some(made);
        }
        let regions = match nregion {
            Some(n) => Some(
                filled(n, TetRegionInput { attribute: 0, x: 0, y: 0, z: 0, max_volume: 0 }),
            ),
            None => None,
        };
        let holes = match nhole {
            Some(n) => Some(filled(n, TetHoleInput { x: 0, y: 0, z: 0 })),
            None => None,
        };
        Ok(
            Tetgen {
                points: filled(npoint, TetPointInput { marker: 0, x: 0, y: 0, z: 0 }),
                facets,
                total_facet_npoint,
                facet_point_set_count: 0,
                regions,
                holes,
                all_points_set: false,
                all_facets_set: false,
                all_regions_set: false,
                all_holes_set: false,
                mesh: TetrahedronMesh::empty(),
                marked_faces: Vec::new(),
            },
        )
    }
}

impl Tetgen {
    /// Sets the point coordinates
    ///
    /// # Input
    ///
    /// * `index` -- is the index of the point and goes from 0 to `npoint` (passed down to `new`)
    /// * `marker` -- is a marker for the point
    /// * `x` -- is x-coordinate of the point
    /// * `y` -- is y-coordinate of the point
    /// * `z` -- is z-coordinate of the point
    pub fn set_point(&mut self, index: usize, marker: i32, x: u64, y: u64, z: u64) -> (res: Result<
        &mut Self,
        Error,
    >)
        ensures
            old(self)@.point_refusal(index) is Some ==> res == Err::<&mut Self, Error>(
                old(self)@.point_refusal(index)->Some_0,
            ) && final(self)@ == old(self)@,
            old(self)@.point_refusal(index) is None ==> res is Ok && res->Ok_0@ == old(
                self,
            )@.with_point(index, TetPointInput { marker, x, y, z }) && final(self)@ == final(
                res->Ok_0
            )@,
    {
        let npoint = self.points.len();
        if index >= npoint {
            return Err(Error::PointIndex);
        }
        self.points.set(index, TetPointInput { marker, x, y, z });
        self.all_points_set = index == npoint - 1;
        Ok(self)
    }

    /// Sets the point of a facet
    ///
    /// # Input
    ///
    /// * `index` -- is the index of the facet and goes from 0 to `nfacet` (passed down to `new`)
    /// * `m` -- is the local index of the point on the facet and goes from 0 to `facet_npoint`
    /// * `p` -- is the ID (index) of the point on the facet
    pub fn set_facet_point(&mut self, index: usize, m: usize, p: usize) -> (res: Result<
        &mut Self,
        Error,
    >)
        ensures
            old(self)@.facet_point_refusal(index, m, p) is Some ==> res == Err::<&mut Self, Error>(
                old(self)@.facet_point_refusal(index, m, p)->Some_0,
            ) && final(self)@ == old(self)@,
            old(self)@.facet_point_refusal(index, m, p) is None ==> res is Ok && res->Ok_0@ == old(
                self,
            )@.with_facet_point(index, m, p) && final(self)@ == final(res->Ok_0)@,
    {
        let npoint = self.points.len();
        match &mut self.facets {
            None => {
                return Err(Error::FacetPointsNotDeclared);
            },
            Some(facets) => {
                if index >= facets.len() {
                    return Err(Error::FacetIndex);
                }
                if m >= facets[index].points.len() {
                    return Err(Error::FacetPointIndex);
                }
                if p >= npoint {
                    return Err(Error::FacetPointId);
                }
                let ghost before = facets@;
                let facet = &mut facets[index];
                facet.points.set(m, p);
                assert(facet_views(facets@) =~= facet_views(before).update(
                    index as int,
                    FacetView {
                        points: before[index as int].points@.update(m as int, p),
                        ..before[index as int]@
                    },
                ));
            },
        }
        if index == 0 && m == 0 {
            self.facet_point_set_count = 0;
        }
        if self.facet_point_set_count < u64::MAX {
            self.facet_point_set_count += 1;
        }
        if self.facet_point_set_count == self.total_facet_npoint {
            self.all_facets_set = true;
        }
        Ok(self)
    }

    /// Sets the marker of a facet
    ///
    /// # Input
    ///
    /// * `index` -- is the index of the facet and goes from 0 to `nfacet` (passed down to `new`)
    /// * `marker` -- is the marker
    pub fn set_facet_marker(&mut self, index: usize, marker: i32) -> (res: Result<&mut Self, Error>)
        ensures
            old(self)@.facet_marker_refusal(index) is Some ==> res == Err::<&mut Self, Error>(
                old(self)@.facet_marker_refusal(index)->Some_0,
            ) && final(self)@ == old(self)@,
            old(self)@.facet_marker_refusal(index) is None ==> res is Ok && res->Ok_0@ == old(
                self,
            )@.with_facet_marker(index, marker) && final(self)@ == final(res->Ok_0)@,
    {
        match &mut self.facets {
            None => {
                return Err(Error::FacetMarkersNotDeclared);
            },
            Some(facets) => {
                if index >= facets.len() {
                    return Err(Error::FacetIndex);
                }
                let ghost before = facets@;
                let facet = &mut facets[index];
                facet.marker = marker;
                assert(facet_views(facets@) =~= facet_views(before).update(
                    index as int,
                    FacetView { marker, ..before[index as int]@ },
                ));
            },
        }
        Ok(self)
    }

    /// Marks a region within the Piecewise Linear Complexes (PLCs)
    ///
    /// # Input
    ///
    /// * `index` -- is the index of the region and goes from 0 to `nregion` (passed down to `new`)
    /// * `attribute` -- is the attribute ID to group the tetrahedra belonging to this region
    /// * `x` -- is the x-coordinate of the region
    /// * `y` -- is the y-coordinate of the region
    /// * `z` -- is the z-coordinate of the region
    /// * `max_volume` -- is the maximum volume constraint for the tetrahedra belonging to this region
    pub fn set_region(
        &mut self,
        index: usize,
        attribute: usize,
        x: u64,
        y: u64,
        z: u64,
        max_volume: Option<u64>,
    ) -> (res: Result<&mut Self, Error>)
        requires
            old(self)@.regions is Some ==> attribute <= i32::MAX,
        ensures
            old(self)@.region_refusal(index) is Some ==> res == Err::<&mut Self, Error>(
                old(self)@.region_refusal(index)->Some_0,
            ) && final(self)@ == old(self)@,
            old(self)@.region_refusal(index) is None ==> res is Ok && res->Ok_0@ == old(
                self,
            )@.with_region(
                index,
                TetRegionInput {
                    attribute,
                    x,
                    y,
                    z,
                    max_volume: or_bits(max_volume, MINUS_ONE_BITS),
                },
            ) && final(self)@ == final(res->Ok_0)@,
    {
        let volume_constraint = match max_volume {
            Some(v) => v,
            None => MINUS_ONE_BITS,
        };
        match &mut self.regions {
            None => {
                return Err(Error::RegionsNotDeclared);
            },
            Some(regions) => {
                let nregion = regions.len();
                if index >= nregion {
                    return Err(Error::RegionIndex);
                }
                regions.set(
                    index,
                    TetRegionInput { attribute, x, y, z, max_volume: volume_constraint },
                );
                self.all_regions_set = index == nregion - 1;
            },
        }
        Ok(self)
    }

    /// Marks a hole within the Piecewise Linear Complexes (PLCs)
    ///
    /// # Input
    ///
    /// * `index` -- is the index of the hole and goes from 0 to `nhole` (passed down to `new`)
    /// * `x` -- is the x-coordinate of the hole
    /// * `y` -- is the y-coordinate of the hole
    /// * `z` -- is the z-coordinate of the hole
    pub fn set_hole(&mut self, index: usize, x: u64, y: u64, z: u64) -> (res: Result<
        &mut Self,
        Error,
    >)
        ensures
            old(self)@.hole_refusal(index) is Some ==> res == Err::<&mut Self, Error>(
                old(self)@.hole_refusal(index)->Some_0,
            ) && final(self)@ == old(self)@,
            old(self)@.hole_refusal(index) is None ==> res is Ok && res->Ok_0@ == old(
                self,
            )@.with_hole(index, TetHoleInput { x, y, z }) && final(self)@ == final(res->Ok_0)@,
    {
        match &mut self.holes {
            None => {
                return Err(Error::HolesNotDeclared);
            },
            Some(holes) => {
                let nhole = holes.len();
                if index >= nhole {
                    return Err(Error::HoleIndex);
                }
                holes.set(index, TetHoleInput { x, y, z });
                self.all_holes_set = index == nhole - 1;
            },
        }
        Ok(self)
    }
}

impl Tetgen {
    /// Generates a Delaunay tetrahedralization
    ///
    /// Returns the call that the engine is to make, or the reason why it may
    /// not run. Hand the engine's answer to [Tetgen::finish_generation].
    ///
    /// # Input
    ///
    /// * `verbose` -- Prints TetGen's messages to the console
    pub fn generate_delaunay(&self, verbose: bool) -> (res: Result<TetgenCommand, Error>)
        ensures
            res is Ok <==> self@.all_points_set,
            res is Ok ==> res->Ok_0 == (TetgenCommand::Delaunay { verbose: flag(verbose) })
                && self@.ready(res->Ok_0) is Ok,
            res is Err ==> res->Err_0 == Error::DelaunayTetrahedraPointsMissing,
    {
        if !self.all_points_set {
            return Err(Error::DelaunayTetrahedraPointsMissing);
        }
        Ok(TetgenCommand::Delaunay { verbose: to_flag(verbose) })
    }

    /// Generates a mesh of tetrahedra that respects the facets
    ///
    /// Returns the call that the engine is to make, or the reason why it may
    /// not run. Hand the engine's answer to [Tetgen::finish_generation].
    ///
    /// # Input
    ///
    /// * `verbose` -- Prints TetGen's messages to the console
    /// * `o2` -- Generates the middle nodes; e.g., nnode = 10
    /// * `global_max_volume` -- The maximum volume constraint for all generated tetrahedra
    /// * `global_min_angle` -- The minimum angle constraint is given in degrees
    pub fn generate_mesh(
        &self,
        verbose: bool,
        o2: bool,
        global_max_volume: Option<u64>,
        global_min_angle: Option<u64>,
    ) -> (res: Result<TetgenCommand, Error>)
        ensures
            res is Ok <==> self@.all_points_set && self@.all_facets_set,
            res is Ok ==> res->Ok_0 == (TetgenCommand::Tetrahedralize {
                verbose: flag(verbose),
                o2: flag(o2),
                global_max_volume: or_bits(global_max_volume, ZERO_BITS),
                global_min_angle: or_bits(global_min_angle, ZERO_BITS),
            }) && self@.ready(res->Ok_0) is Ok,
            !self@.all_points_set ==> res == Err::<TetgenCommand, Error>(
                Error::TetrahedronMeshPointsMissing,
            ),
            self@.all_points_set && !self@.all_facets_set ==> res == Err::<TetgenCommand, Error>(
                Error::TetrahedronMeshFacetsMissing,
            ),
    {
        if !self.all_points_set {
            return Err(Error::TetrahedronMeshPointsMissing);
        }
        if !self.all_facets_set {
            return Err(Error::TetrahedronMeshFacetsMissing);
        }
        let max_volume = match global_max_volume {
            Some(v) => v,
            None => ZERO_BITS,
        };
        let min_angle = match global_min_angle {
            Some(v) => v,
            None => ZERO_BITS,
        };
        Ok(
            TetgenCommand::Tetrahedralize {
                verbose: to_flag(verbose),
                o2: to_flag(o2),
                global_max_volume: max_volume,
                global_min_angle: min_angle,
            },
        )
    }

    /// Tells whether the input is complete enough for a call of the engine.
    pub fn check_ready(&self, command: &TetgenCommand) -> (res: Result<(), Error>)
        ensures
            res == self@.ready(*command),
    {
        match command {
            TetgenCommand::Delaunay { .. } => if self.all_points_set {
                Ok(())
            } else {
                Err(Error::DelaunayTetrahedraPointsMissing)
            },
            TetgenCommand::Tetrahedralize { .. } => if !self.all_points_set {
                Err(Error::TetrahedronMeshPointsMissing)
            } else if !self.all_facets_set {
                Err(Error::TetrahedronMeshFacetsMissing)
            } else {
                Ok(())
            },
        }
    }

    /// Takes the engine's answer to a call: its status and the mesh it made.
    ///
    /// A call that the input does not permit changes nothing. After a status
    /// other than success the output is empty; after success it is `mesh`,
    /// with the marked faces built from the mesh's face records.
    pub fn finish_generation(
        &mut self,
        command: &TetgenCommand,
        status: i32,
        mesh: TetrahedronMesh,
    ) -> (res: Result<(), Error>)
        ensures
            res == old(self)@.outcome(*command, status),
            final(self)@ == old(self)@.finished(*command, status, mesh@),
            old(self)@.wf() ==> final(self)@.wf(),
    {
        match self.check_ready(command) {
            Err(e) => {
                return Err(e);
            },
            Ok(()) => {},
        }
        match handle_status(status) {
            Err(e) => {
                self.mesh = TetrahedronMesh::empty();
                self.marked_faces = Vec::new();
                Err(e)
            },
            Ok(()) => {
                self.marked_faces = reconstruct_marked_faces(&mesh.faces);
                self.mesh = mesh;
                Ok(())
            },
        }
    }

    /// Returns the number of (output) points of the Delaunay triangulation (constrained or not)
    pub fn out_npoint(&self) -> (n: usize)
        ensures
            n == self@.mesh.points.len(),
    {
        self.mesh.points.len()
    }

    /// Returns the number of (output) tetrahedra (aka cells) on the Delaunay triangulation (constrained or not)
    pub fn out_ncell(&self) -> (n: usize)
        ensures
            n == self@.mesh.cells.len(),
    {
        self.mesh.cells.len()
    }

    /// Returns the number of nodes on a tetrahedron (e.g., 4 or 10)
    pub fn out_cell_npoint(&self) -> (n: usize)
        ensures
            n == self@.mesh.cell_npoint,
    {
        self.mesh.cell_npoint
    }

    /// Returns the (output) generated point
    ///
    /// # Input
    ///
    /// * `index` -- is the index of the point and goes from 0 to `out_npoint`
    /// * `dim` -- is the space dimension index: 0, 1, or 2
    ///
    /// # Warning
    ///
    /// This function will return zero values if either `index` or `dim` are out of range.
    pub fn out_point(&self, index: usize, dim: usize) -> (value: u64)
        ensures
            value == self@.mesh.point(index as int, dim as int),
    {
        if index >= self.mesh.points.len() {
            return 0;
        }
        if dim == 0 {
            self.mesh.points[index].x
        } else if dim == 1 {
            self.mesh.points[index].y
        } else if dim == 2 {
            self.mesh.points[index].z
        } else {
            0
        }
    }

    /// Returns the marker of an output point
    ///
    /// # Input
    ///
    /// * `index` -- is the index of the point and goes from 0 to `out_npoint`
    ///
    /// # Warning
    ///
    /// This function will return zero values if `index` is out of range.
    pub fn out_point_marker(&self, index: usize) -> (marker: i32)
        ensures
            marker == self@.mesh.point_marker(index as int),
    {
        if index >= self.mesh.points.len() {
            return 0;
        }
        self.mesh.points[index].marker
    }

    /// Returns the ID of a point on the tetrahedron (aka cell)
    ///
    /// The four corners come first, then the middle nodes of the edges 0-1,
    /// 1-2, 0-2, 0-3, 1-3 and 2-3; the middle nodes are only generated if
    /// the second-order flag is true.
    ///
    /// # Input
    ///
    /// * `index` -- is the index of the tetrahedron and goes from 0 to `out_ncell`
    /// * `m` -- is the local index of the node and goes from 0 to `out_cell_npoint`
    ///
    /// # Warning
    ///
    /// This function will return 0 if either `index` or `m` are out of range.
    pub fn out_cell_point(&self, index: usize, m: usize) -> (id: usize)
        ensures
            id == self@.mesh.cell_point(index as int, m as int),
    {
        if index >= self.mesh.cells.len() || m >= self.mesh.cell_npoint || m >= 10 {
            return 0;
        }
        let corner = TRITET_TO_TETGEN[m];
        self.mesh.cells[index].corners[corner]
    }

    /// Returns the attribute ID of a tetrahedron (aka cell)
    ///
    /// # Warning
    ///
    /// This function will return 0 if `index` is out of range.
    pub fn out_cell_attribute(&self, index: usize) -> (attribute: usize)
        ensures
            attribute == self@.mesh.cell_attribute(index as int),
    {
        if index >= self.mesh.cells.len() {
            return 0;
        }
        self.mesh.cells[index].attribute
    }

    /// Returns the number of marked faces
    pub fn out_n_marked_face(&self) -> (n: usize)
        ensures
            n == self@.marked_faces.len(),
    {
        self.marked_faces.len()
    }

    /// Returns a marked face
    ///
    /// # Input
    ///
    /// * `index` -- is index of a marked face and goes from `0` to `out_n_marked_face`
    ///
    /// # Output
    ///
    /// * `points` -- (len = 6) the global IDs of the points on the face; 3 or 6 (if o2)
    ///
    /// ```text
    ///     NODES
    ///       2
    ///      / \     The middle nodes are
    ///     /   \    only generated if the
    ///    5     4   quadratic flag is true
    ///   /       \
    ///  /         \
    /// 0-----3-----1
    /// ```
    ///
    /// Also returns `(marker, cell)`, where:
    ///
    /// * `marker` -- is the marker associated with the face
    /// * `cell` -- is the global ID of the cell touching this face
    ///
    /// # Warning
    ///
    /// This function will return zero values if `index` is out of range.
    pub fn out_marked_face(&self, index: usize, points: &mut [i32; 6]) -> (res: (i32, usize))
        ensures
            res == self@.marked_face(index as int),
            final(points)@ == self@.marked_face_points(index as int),
    {
        if index >= self.marked_faces.len() {
            *points = [0, 0, 0, 0, 0, 0];
            assert(points@ =~= seq![0i32, 0i32, 0i32, 0i32, 0i32, 0i32]);
            return (0, 0);
        }
        let face = &self.marked_faces[index];
        *points = face.points;
        (face.marker, face.cell)
    }

    /// Returns the key of a marked face: the ids of its three corners in
    /// ascending order.
    ///
    /// # Warning
    ///
    /// This function will return zero values if `index` is out of range.
    pub fn out_marked_face_key(&self, index: usize) -> (key: FaceKey)
        ensures
            key == self@.marked_face_key(index as int),
    {
        if index >= self.marked_faces.len() {
            return FaceKey { a: 0, b: 0, c: 0 };
        }
        self.marked_faces[index].key
    }

    /// Tells whether the records of a marked face carried two different
    /// markers other than zero. False if `index` is out of range.
    pub fn out_marked_face_conflict(&self, index: usize) -> (conflict: bool)
        ensures
            conflict == (index < self@.marked_faces.len()
                && self@.marked_faces[index as int].conflict),
    {
        if index >= self.marked_faces.len() {
            return false;
        }
        self.marked_faces[index].conflict
    }
}

impl Tetgen {
    /// Returns the number of points that the input was declared with.
    pub fn npoint(&self) -> (n: usize)
        ensures
            n == self@.npoint(),
    {
        self.points.len()
    }

    /// Returns the number of facets that the input was declared with.
    pub fn nfacet(&self) -> (n: Option<usize>)
        ensures
            n is Some <==> self@.facets is Some,
            n is Some ==> n->Some_0 == self@.facets->Some_0.len(),
    {
        match &self.facets {
            Some(facets) => Some(facets.len()),
            None => None,
        }
    }

    /// Returns the number of regions that the input was declared with.
    pub fn nregion(&self) -> (n: Option<usize>)
        ensures
            n is Some <==> self@.regions is Some,
            n is Some ==> n->Some_0 == self@.regions->Some_0.len(),
    {
        match &self.regions {
            Some(regions) => Some(regions.len()),
            None => None,
        }
    }

    /// Returns the number of holes that the input was declared with.
    pub fn nhole(&self) -> (n: Option<usize>)
        ensures
            n is Some <==> self@.holes is Some,
            n is Some ==> n->Some_0 == self@.holes->Some_0.len(),
    {
        match &self.holes {
            Some(holes) => Some(holes.len()),
            None => None,
        }
    }

    /// Tells whether the last point written was the last of the input.
    pub fn all_points_set(&self) -> (set: bool)
        ensures
            set == self@.all_points_set,
    {
        self.all_points_set
    }

    /// Tells whether as many facet points were written as the facets have.
    pub fn all_facets_set(&self) -> (set: bool)
        ensures
            set == self@.all_facets_set,
    {
        self.all_facets_set
    }

    /// Tells whether the last region written was the last of the input.
    pub fn all_regions_set(&self) -> (set: bool)
        ensures
            set == self@.all_regions_set,
    {
        self.all_regions_set
    }

    /// Tells whether the last hole written was the last of the input.
    pub fn all_holes_set(&self) -> (set: bool)
        ensures
            set == self@.all_holes_set,
    {
        self.all_holes_set
    }

    /// Returns the points of the input.
    pub fn points(&self) -> (points: &Vec<TetPointInput>)
        ensures
            points@ == self@.points,
    {
        &self.points
    }

    /// Returns the facets of the input, where facets were declared.
    pub fn facets(&self) -> (facets: &Option<Vec<Facet>>)
        ensures
            facets is Some <==> self@.facets is Some,
            facets is Some ==> facet_views(facets->Some_0@) == self@.facets->Some_0,
    {
        &self.facets
    }

    /// Returns the regions of the input, where regions were declared.
    pub fn regions(&self) -> (regions: &Option<Vec<TetRegionInput>>)
        ensures
            regions is Some <==> self@.regions is Some,
            regions is Some ==> regions->Some_0@ == self@.regions->Some_0,
    {
        &self.regions
    }

    /// Returns the holes of the input, where holes were declared.
    pub fn holes(&self) -> (holes: &Option<Vec<TetHoleInput>>)
        ensures
            holes is Some <==> self@.holes is Some,
            holes is Some ==> holes->Some_0@ == self@.holes->Some_0,
    {
        &self.holes
    }
}

/// A write changes one entry and what is kept of its kind, and nothing
/// else: the capacities, the other kinds of input and the output stay, and
/// a well-formed state stays well-formed.
pub proof fn lemma_tetgen_write_is_local(
    state: TetgenView,
    index: usize,
    m: usize,
    p: usize,
    marker: i32,
    point: TetPointInput,
    region: TetRegionInput,
    hole: TetHoleInput,
)
    ensures
        state.point_refusal(index) is None ==> {
            let next = state.with_point(index, point);
            &&& next.npoint() == state.npoint()
            &&& next.points[index as int] == point
            &&& next == TetgenView {
                points: next.points,
                all_points_set: next.all_points_set,
                ..state
            }
            &&& state.wf() ==> next.wf()
        },
        state.facet_point_refusal(index, m, p) is None ==> {
            let next = state.with_facet_point(index, m, p);
            &&& next.nfacet() == state.nfacet()
            &&& next.facets->Some_0[index as int].points[m as int] == p
            &&& next.facets->Some_0[index as int].marker == state.facets->Some_0[index as int].marker
            &&& forall|i: int|
                0 <= i < state.facets->Some_0.len() ==> (#[trigger] next.facets->Some_0[i]).points.len()
                    == state.facets->Some_0[i].points.len()
            &&& next == TetgenView {
                facets: next.facets,
                facet_point_set_count: next.facet_point_set_count,
                all_facets_set: next.all_facets_set,
                ..state
            }
            &&& state.wf() ==> next.wf()
        },
        state.facet_marker_refusal(index) is None ==> {
            let next = state.with_facet_marker(index, marker);
            &&& next.nfacet() == state.nfacet()
            &&& next.facets->Some_0[index as int].marker == marker
            &&& next.facets->Some_0[index as int].points == state.facets->Some_0[index as int].points
            &&& next == TetgenView { facets: next.facets, ..state }
            &&& state.wf() ==> next.wf()
        },
        state.region_refusal(index) is None ==> {
            let next = state.with_region(index, region);
            &&& next.nregion() == state.nregion()
            &&& next.regions->Some_0[index as int] == region
            &&& next == TetgenView {
                regions: next.regions,
                all_regions_set: next.all_regions_set,
                ..state
            }
            &&& state.wf() ==> next.wf()
        },
        state.hole_refusal(index) is None ==> {
            let next = state.with_hole(index, hole);
            &&& next.nhole() == state.nhole()
            &&& next.holes->Some_0[index as int] == hole
            &&& next == TetgenView { holes: next.holes, all_holes_set: next.all_holes_set, ..state }
            &&& state.wf() ==> next.wf()
        },
{
    if state.facet_point_refusal(index, m, p) is None {
        let next = state.with_facet_point(index, m, p);
        lemma_facets_total_by_lengths(
            state.facets->Some_0,
            next.facets->Some_0,
            state.facets->Some_0.len(),
        );
    }
    if state.facet_marker_refusal(index) is None {
        let next = state.with_facet_marker(index, marker);
        lemma_facets_total_by_lengths(
            state.facets->Some_0,
            next.facets->Some_0,
            state.facets->Some_0.len(),
        );
    }
}

/// The facets are complete once as many facet points are written as the
/// facets have, in whatever order, where the writing starts with the first
/// point of the first facet and does not return to it.
pub proof fn lemma_tetgen_facets_complete_by_count(
    state: TetgenView,
    writes: Seq<(usize, usize, usize)>,
)
    requires
        writes.len() == state.total_facet_npoint,
        0 < writes.len() < u64::MAX,
        writes[0].0 == 0 && writes[0].1 == 0,
        forall|k: int| 0 < k < writes.len() ==> !(writes[k].0 == 0 && writes[k].1 == 0),
    ensures
        state.with_facet_points(writes, writes.len()).all_facets_set,
{
    lemma_tetgen_count_of_writes(state, writes, writes.len());
}

/// After the first point of the first facet and more writes that do not
/// return to it, the count is the number of writes, and the total stays.
pub proof fn lemma_tetgen_count_of_writes(
    state: TetgenView,
    writes: Seq<(usize, usize, usize)>,
    n: nat,
)
    requires
        0 < n <= writes.len(),
        writes.len() < u64::MAX,
        writes[0].0 == 0 && writes[0].1 == 0,
        forall|k: int| 0 < k < writes.len() ==> !(writes[k].0 == 0 && writes[k].1 == 0),
    ensures
        state.with_facet_points(writes, n).facet_point_set_count == n,
        state.with_facet_points(writes, n).total_facet_npoint == state.total_facet_npoint,
        n == state.total_facet_npoint ==> state.with_facet_points(writes, n).all_facets_set,
    decreases n,
{
    if n > 1 {
        lemma_tetgen_count_of_writes(state, writes, (n - 1) as nat);
    } else {
        assert(state.with_facet_points(writes, 0) == state);
    }
}

/// What is read depends on the output alone: two states with the same
/// output give the same reads, whatever their inputs are. So a read can be
/// repeated, and writing to the input does not change it.
pub proof fn lemma_tetgen_reads_follow_the_output(
    one: TetgenView,
    other: TetgenView,
    index: int,
    sub: int,
)
    requires
        one.mesh == other.mesh,
        one.marked_faces == other.marked_faces,
    ensures
        one.mesh.point(index, sub) == other.mesh.point(index, sub),
        one.mesh.point_marker(index) == other.mesh.point_marker(index),
        one.mesh.cell_point(index, sub) == other.mesh.cell_point(index, sub),
        one.mesh.cell_attribute(index) == other.mesh.cell_attribute(index),
        one.marked_face(index) == other.marked_face(index),
        one.marked_face_points(index) == other.marked_face_points(index),
        one.marked_face_key(index) == other.marked_face_key(index),
{
}

/// Every read of the output outside its ranges gives zero.
pub proof fn lemma_tetgen_out_of_range_is_zero(state: TetgenView, index: int, sub: int)
    ensures
        index >= state.mesh.points.len() || sub >= 3 ==> state.mesh.point(index, sub) == 0,
        index >= state.mesh.points.len() ==> state.mesh.point_marker(index) == 0,
        index >= state.mesh.cells.len() || sub >= state.mesh.cell_npoint || sub >= 10
            ==> state.mesh.cell_point(index, sub) == 0,
        index >= state.mesh.cells.len() ==> state.mesh.cell_attribute(index) == 0,
        index >= state.marked_faces.len() ==> state.marked_face(index) == (0i32, 0usize),
        index >= state.marked_faces.len() ==> forall|k: int|
            0 <= k < 6 ==> state.marked_face_points(index)[k] == 0,
        index >= state.marked_faces.len() ==> state.marked_face_key(index) == (FaceKey {
            a: 0,
            b: 0,
            c: 0,
        }),
{
}

/// In a well-formed state the marked faces hold one face for each key
/// among the face records of the output and no key twice, and each face is
/// true to the records of its key.
pub proof fn lemma_marked_faces_describe_the_records(state: TetgenView)
    requires
        state.wf(),
    ensures
        faces_describe(state.marked_faces, state.mesh.faces),
{
    lemma_reconstruct_describes(state.mesh.faces);
}

} // verus!
