//! The closed set of errors that the library reports.

use vstd::prelude::*;

verus! {

/// The families of errors.
#[derive(Clone, Copy, Debug, PartialEq, Eq, Structural)]
pub enum ErrorKind {
    /// A capacity or a facet's number of points is below the engine's minimum.
    Construction,
    /// A setter was used without the corresponding capacity.
    CapabilityNotDeclared,
    /// An index or a point id is outside its range.
    IndexOutOfBounds,
    /// A generation was requested before the required input was complete.
    IncompleteInput,
    /// The engine reported a failure.
    EngineFailure,
    /// The engine returned a status code outside the expected set.
    InternalInconsistency,
    /// The output is not in a state that can be exported.
    GeometryState,
    /// The file system refused an operation.
    Io,
}

/// An error of the library.
#[derive(Clone, Copy, Debug, PartialEq, Eq, Structural)]
pub enum Error {
    /// Fewer than three points were declared for a planar input.
    TooFewPoints2d,
    /// Fewer than three segments were declared.
    TooFewSegments,
    /// Fewer than four points were declared for a spatial input.
    TooFewPoints3d,
    /// Fewer than four facets were declared.
    TooFewFacets,
    /// A facet was declared with fewer than three points.
    TooFewFacetPoints,
    /// A segment was set although no segments were declared.
    SegmentsNotDeclared,
    /// A facet point was set although no facets were declared.
    FacetPointsNotDeclared,
    /// A facet marker was set although no facets were declared.
    FacetMarkersNotDeclared,
    /// A region was set although no regions were declared.
    RegionsNotDeclared,
    /// A hole was set although no holes were declared.
    HolesNotDeclared,
    /// The index of a point is not below the number of points.
    PointIndex,
    /// The index of a segment is not below the number of segments.
    SegmentIndex,
    /// An endpoint of a segment is not a declared point.
    SegmentPointId,
    /// The index of a facet is not below the number of facets.
    FacetIndex,
    /// The local index of a facet point is not below the facet's number of points.
    FacetPointIndex,
    /// A point of a facet is not a declared point.
    FacetPointId,
    /// The index of a region is not below the number of regions.
    RegionIndex,
    /// The index of a hole is not below the number of holes.
    HoleIndex,
    /// The engine found a facet with an invalid number of polygons.
    FacetPolygonCount,
    /// A Delaunay triangulation was requested before all points were set.
    DelaunayTrianglesPointsMissing,
    /// A Voronoi tessellation was requested before all points were set.
    VoronoiPointsMissing,
    /// A mesh of triangles was requested before all points were set.
    TriangleMeshPointsMissing,
    /// A mesh of triangles was requested before all segments were set.
    TriangleMeshSegmentsMissing,
    /// A Delaunay tetrahedralization was requested before all points were set.
    DelaunayTetrahedraPointsMissing,
    /// A mesh of tetrahedra was requested before all points were set.
    TetrahedronMeshPointsMissing,
    /// A mesh of tetrahedra was requested before all facets were set.
    TetrahedronMeshFacetsMissing,
    /// The engine could not allocate its planar data.
    CannotAllocateTrigen,
    /// The engine could not allocate its spatial data.
    CannotAllocateTetgen,
    /// The engine found its data missing.
    NullData,
    /// The engine could not assemble its command string.
    StringConcat,
    /// The engine could not initialize its data.
    InitializeFailed,
    /// The engine gave up on degenerate input.
    DegenerateInput,
    /// The engine found its list of points missing.
    NullPointList,
    /// The engine found its list of segments missing.
    NullSegmentList,
    /// The engine was asked for a mesh without a list of segments.
    SegmentsUndefined,
    /// The engine found its list of facets missing.
    NullFacetList,
    /// The engine found the list of polygons of a facet missing.
    NullFacetPolygonList,
    /// The engine found its list of regions missing.
    NullRegionList,
    /// The engine found its list of holes missing.
    NullHoleList,
    /// The engine returned a status code outside the expected set.
    UnknownStatus,
    /// An export was requested although the mesh has no triangle.
    NoTriangles,
    /// An export was requested although the mesh has no tetrahedron.
    NoTetrahedra,
    /// An export was handed the wrong number of coordinate texts.
    CoordinateCount,
    /// The directory of the export file could not be created.
    CannotCreateDirectory,
    /// The export file could not be created.
    CannotCreateFile,
    /// The export file could not be written.
    CannotWriteFile,
    /// The export file could not be synchronized.
    CannotSyncFile,
}

impl Error {
    /// The family that an error belongs to.
    pub open spec fn spec_kind(self) -> ErrorKind {
        match self {
            Error::TooFewPoints2d => ErrorKind::Construction,
            Error::TooFewSegments => ErrorKind::Construction,
            Error::TooFewPoints3d => ErrorKind::Construction,
            Error::TooFewFacets => ErrorKind::Construction,
            Error::TooFewFacetPoints => ErrorKind::Construction,
            Error::SegmentsNotDeclared => ErrorKind::CapabilityNotDeclared,
            Error::FacetPointsNotDeclared => ErrorKind::CapabilityNotDeclared,
            Error::FacetMarkersNotDeclared => ErrorKind::CapabilityNotDeclared,
            Error::RegionsNotDeclared => ErrorKind::CapabilityNotDeclared,
            Error::HolesNotDeclared => ErrorKind::CapabilityNotDeclared,
            Error::PointIndex => ErrorKind::IndexOutOfBounds,
            Error::SegmentIndex => ErrorKind::IndexOutOfBounds,
            Error::SegmentPointId => ErrorKind::IndexOutOfBounds,
            Error::FacetIndex => ErrorKind::IndexOutOfBounds,
            Error::FacetPointIndex => ErrorKind::IndexOutOfBounds,
            Error::FacetPointId => ErrorKind::IndexOutOfBounds,
            Error::RegionIndex => ErrorKind::IndexOutOfBounds,
            Error::HoleIndex => ErrorKind::IndexOutOfBounds,
            Error::FacetPolygonCount => ErrorKind::IndexOutOfBounds,
            Error::DelaunayTrianglesPointsMissing => ErrorKind::IncompleteInput,
            Error::VoronoiPointsMissing => ErrorKind::IncompleteInput,
            Error::TriangleMeshPointsMissing => ErrorKind::IncompleteInput,
            Error::TriangleMeshSegmentsMissing => ErrorKind::IncompleteInput,
            Error::DelaunayTetrahedraPointsMissing => ErrorKind::IncompleteInput,
            Error::TetrahedronMeshPointsMissing => ErrorKind::IncompleteInput,
            Error::TetrahedronMeshFacetsMissing => ErrorKind::IncompleteInput,
            Error::CannotAllocateTrigen => ErrorKind::EngineFailure,
            Error::CannotAllocateTetgen => ErrorKind::EngineFailure,
            Error::NullData => ErrorKind::EngineFailure,
            Error::StringConcat => ErrorKind::EngineFailure,
            Error::InitializeFailed => ErrorKind::EngineFailure,
            Error::DegenerateInput => ErrorKind::EngineFailure,
            Error::NullPointList => ErrorKind::EngineFailure,
            Error::NullSegmentList => ErrorKind::EngineFailure,
            Error::SegmentsUndefined => ErrorKind::EngineFailure,
            Error::NullFacetList => ErrorKind::EngineFailure,
            Error::NullFacetPolygonList => ErrorKind::EngineFailure,
            Error::NullRegionList => ErrorKind::EngineFailure,
            Error::NullHoleList => ErrorKind::EngineFailure,
            Error::UnknownStatus => ErrorKind::InternalInconsistency,
            Error::NoTriangles => ErrorKind::GeometryState,
            Error::NoTetrahedra => ErrorKind::GeometryState,
            Error::CoordinateCount => ErrorKind::GeometryState,
            Error::CannotCreateDirectory => ErrorKind::Io,
            Error::CannotCreateFile => ErrorKind::Io,
            Error::CannotWriteFile => ErrorKind::Io,
            Error::CannotSyncFile => ErrorKind::Io,
        }
    }

    /// The text of an error.
    pub open spec fn spec_message(self) -> Seq<char> {
        match self {
            Error::TooFewPoints2d => "npoint must be ≥ 3"@,
            Error::TooFewSegments => "nsegment must be ≥ 3"@,
            Error::TooFewPoints3d => "npoint must be ≥ 4"@,
            Error::TooFewFacets => "nfacet must be ≥ 4"@,
            Error::TooFewFacetPoints => "facet npoint must be ≥ 3"@,
            Error::SegmentsNotDeclared => "cannot set segment because the number of segments is None"@,
            Error::FacetPointsNotDeclared => "cannot set facet point because facet_npoint is None"@,
            Error::FacetMarkersNotDeclared => "cannot set facet marker because facet_npoint is None"@,
            Error::RegionsNotDeclared => "cannot set region because the number of regions is None"@,
            Error::HolesNotDeclared => "cannot set hole because the number of holes is None"@,
            Error::PointIndex => "index of point is out of bounds"@,
            Error::SegmentIndex => "index of segment is out of bounds"@,
            Error::SegmentPointId => "id of segment point is out of bounds"@,
            Error::FacetIndex => "index of facet is out of bounds"@,
            Error::FacetPointIndex => "index of facet point is out of bounds"@,
            Error::FacetPointId => "id of facet point is out of bounds"@,
            Error::RegionIndex => "index of region is out of bounds"@,
            Error::HoleIndex => "index of hole is out of bounds"@,
            Error::FacetPolygonCount => "number of polygons of facet is invalid"@,
            Error::DelaunayTrianglesPointsMissing => "cannot generate Delaunay triangulation because not all points are set"@,
            Error::VoronoiPointsMissing => "cannot generate Voronoi tessellation because not all points are set"@,
            Error::TriangleMeshPointsMissing => "cannot generate mesh of triangles because not all points are set"@,
            Error::TriangleMeshSegmentsMissing => "cannot generate mesh of triangles because not all segments are set"@,
            Error::DelaunayTetrahedraPointsMissing => "cannot generate Delaunay tetrahedralization because not all points are set"@,
            Error::TetrahedronMeshPointsMissing => "cannot generate mesh of tetrahedra because not all points are set"@,
            Error::TetrahedronMeshFacetsMissing => "cannot generate mesh of tetrahedra because not all facets are set"@,
            Error::CannotAllocateTrigen => "INTERNAL ERROR: cannot allocate ExtTriangle"@,
            Error::CannotAllocateTetgen => "INTERNAL ERROR: cannot allocate ExtTetgen"@,
            Error::NullData => "INTERNAL ERROR: found NULL data"@,
            Error::StringConcat => "INTERNAL ERROR: cannot write string with commands for Triangle"@,
            Error::InitializeFailed => "INTERNAL ERROR: cannot initialize the engine data"@,
            Error::DegenerateInput => "TetGen failed: points are probably coplanar"@,
            Error::NullPointList => "INTERNAL ERROR: found NULL point list"@,
            Error::NullSegmentList => "INTERNAL ERROR: found NULL segment list"@,
            Error::SegmentsUndefined => "INTERNAL ERROR: list of segments must be defined first"@,
            Error::NullFacetList => "INTERNAL ERROR: found NULL facet list"@,
            Error::NullFacetPolygonList => "INTERNAL ERROR: found NULL facet polygon list"@,
            Error::NullRegionList => "INTERNAL ERROR: found NULL region list"@,
            Error::NullHoleList => "INTERNAL ERROR: found NULL hole list"@,
            Error::UnknownStatus => "INTERNAL ERROR: some error occurred"@,
            Error::NoTriangles => "there are no triangles to write"@,
            Error::NoTetrahedra => "there are no tetrahedra to write"@,
            Error::CoordinateCount => "the number of coordinate texts does not match the points"@,
            Error::CannotCreateDirectory => "cannot create directory"@,
            Error::CannotCreateFile => "cannot create file"@,
            Error::CannotWriteFile => "cannot write file"@,
            Error::CannotSyncFile => "cannot sync file"@,
        }
    }

    /// Returns the family that the error belongs to.
    pub fn kind(&self) -> (k: ErrorKind)
        ensures
            k == self.spec_kind(),
    {
        match self {
            Error::TooFewPoints2d => ErrorKind::Construction,
            Error::TooFewSegments => ErrorKind::Construction,
            Error::TooFewPoints3d => ErrorKind::Construction,
            Error::TooFewFacets => ErrorKind::Construction,
            Error::TooFewFacetPoints => ErrorKind::Construction,
            Error::SegmentsNotDeclared => ErrorKind::CapabilityNotDeclared,
            Error::FacetPointsNotDeclared => ErrorKind::CapabilityNotDeclared,
            Error::FacetMarkersNotDeclared => ErrorKind::CapabilityNotDeclared,
            Error::RegionsNotDeclared => ErrorKind::CapabilityNotDeclared,
            Error::HolesNotDeclared => ErrorKind::CapabilityNotDeclared,
            Error::PointIndex => ErrorKind::IndexOutOfBounds,
            Error::SegmentIndex => ErrorKind::IndexOutOfBounds,
            Error::SegmentPointId => ErrorKind::IndexOutOfBounds,
            Error::FacetIndex => ErrorKind::IndexOutOfBounds,
            Error::FacetPointIndex => ErrorKind::IndexOutOfBounds,
            Error::FacetPointId => ErrorKind::IndexOutOfBounds,
            Error::RegionIndex => ErrorKind::IndexOutOfBounds,
            Error::HoleIndex => ErrorKind::IndexOutOfBounds,
            Error::FacetPolygonCount => ErrorKind::IndexOutOfBounds,
            Error::DelaunayTrianglesPointsMissing => ErrorKind::IncompleteInput,
            Error::VoronoiPointsMissing => ErrorKind::IncompleteInput,
            Error::TriangleMeshPointsMissing => ErrorKind::IncompleteInput,
            Error::TriangleMeshSegmentsMissing => ErrorKind::IncompleteInput,
            Error::DelaunayTetrahedraPointsMissing => ErrorKind::IncompleteInput,
            Error::TetrahedronMeshPointsMissing => ErrorKind::IncompleteInput,
            Error::TetrahedronMeshFacetsMissing => ErrorKind::IncompleteInput,
            Error::CannotAllocateTrigen => ErrorKind::EngineFailure,
            Error::CannotAllocateTetgen => ErrorKind::EngineFailure,
            Error::NullData => ErrorKind::EngineFailure,
            Error::StringConcat => ErrorKind::EngineFailure,
            Error::InitializeFailed => ErrorKind::EngineFailure,
            Error::DegenerateInput => ErrorKind::EngineFailure,
            Error::NullPointList => ErrorKind::EngineFailure,
            Error::NullSegmentList => ErrorKind::EngineFailure,
            Error::SegmentsUndefined => ErrorKind::EngineFailure,
            Error::NullFacetList => ErrorKind::EngineFailure,
            Error::NullFacetPolygonList => ErrorKind::EngineFailure,
            Error::NullRegionList => ErrorKind::EngineFailure,
            Error::NullHoleList => ErrorKind::EngineFailure,
            Error::UnknownStatus => ErrorKind::InternalInconsistency,
            Error::NoTriangles => ErrorKind::GeometryState,
            Error::NoTetrahedra => ErrorKind::GeometryState,
            Error::CoordinateCount => ErrorKind::GeometryState,
            Error::CannotCreateDirectory => ErrorKind::Io,
            Error::CannotCreateFile => ErrorKind::Io,
            Error::CannotWriteFile => ErrorKind::Io,
            Error::CannotSyncFile => ErrorKind::Io,
        }
    }

    /// Returns the text of the error.
    pub fn message(&self) -> (m: &'static str)
        ensures
            m@ == self.spec_message(),
    {
        match self {
            Error::TooFewPoints2d => "npoint must be ≥ 3",
            Error::TooFewSegments => "nsegment must be ≥ 3",
            Error::TooFewPoints3d => "npoint must be ≥ 4",
            Error::TooFewFacets => "nfacet must be ≥ 4",
            Error::TooFewFacetPoints => "facet npoint must be ≥ 3",
            Error::SegmentsNotDeclared => "cannot set segment because the number of segments is None",
            Error::FacetPointsNotDeclared => "cannot set facet point because facet_npoint is None",
            Error::FacetMarkersNotDeclared => "cannot set facet marker because facet_npoint is None",
            Error::RegionsNotDeclared => "cannot set region because the number of regions is None",
            Error::HolesNotDeclared => "cannot set hole because the number of holes is None",
            Error::PointIndex => "index of point is out of bounds",
            Error::SegmentIndex => "index of segment is out of bounds",
            Error::SegmentPointId => "id of segment point is out of bounds",
            Error::FacetIndex => "index of facet is out of bounds",
            Error::FacetPointIndex => "index of facet point is out of bounds",
            Error::FacetPointId => "id of facet point is out of bounds",
            Error::RegionIndex => "index of region is out of bounds",
            Error::HoleIndex => "index of hole is out of bounds",
            Error::FacetPolygonCount => "number of polygons of facet is invalid",
            Error::DelaunayTrianglesPointsMissing => "cannot generate Delaunay triangulation because not all points are set",
            Error::VoronoiPointsMissing => "cannot generate Voronoi tessellation because not all points are set",
            Error::TriangleMeshPointsMissing => "cannot generate mesh of triangles because not all points are set",
            Error::TriangleMeshSegmentsMissing => "cannot generate mesh of triangles because not all segments are set",
            Error::DelaunayTetrahedraPointsMissing => "cannot generate Delaunay tetrahedralization because not all points are set",
            Error::TetrahedronMeshPointsMissing => "cannot generate mesh of tetrahedra because not all points are set",
            Error::TetrahedronMeshFacetsMissing => "cannot generate mesh of tetrahedra because not all facets are set",
            Error::CannotAllocateTrigen => "INTERNAL ERROR: cannot allocate ExtTriangle",
            Error::CannotAllocateTetgen => "INTERNAL ERROR: cannot allocate ExtTetgen",
            Error::NullData => "INTERNAL ERROR: found NULL data",
            Error::StringConcat => "INTERNAL ERROR: cannot write string with commands for Triangle",
            Error::InitializeFailed => "INTERNAL ERROR: cannot initialize the engine data",
            Error::DegenerateInput => "TetGen failed: points are probably coplanar",
            Error::NullPointList => "INTERNAL ERROR: found NULL point list",
            Error::NullSegmentList => "INTERNAL ERROR: found NULL segment list",
            Error::SegmentsUndefined => "INTERNAL ERROR: list of segments must be defined first",
            Error::NullFacetList => "INTERNAL ERROR: found NULL facet list",
            Error::NullFacetPolygonList => "INTERNAL ERROR: found NULL facet polygon list",
            Error::NullRegionList => "INTERNAL ERROR: found NULL region list",
            Error::NullHoleList => "INTERNAL ERROR: found NULL hole list",
            Error::UnknownStatus => "INTERNAL ERROR: some error occurred",
            Error::NoTriangles => "there are no triangles to write",
            Error::NoTetrahedra => "there are no tetrahedra to write",
            Error::CoordinateCount => "the number of coordinate texts does not match the points",
            Error::CannotCreateDirectory => "cannot create directory",
            Error::CannotCreateFile => "cannot create file",
            Error::CannotWriteFile => "cannot write file",
            Error::CannotSyncFile => "cannot sync file",
        }
    }
}

} // verus!
