use tritet::constants::{
    TRITET_ERROR_DEGENERATE_INPUT, TRITET_ERROR_INITIALIZE_FAILED, TRITET_ERROR_INVALID_FACET_INDEX,
    TRITET_ERROR_INVALID_FACET_NUM_POLYGON, TRITET_ERROR_INVALID_FACET_POINT_ID,
    TRITET_ERROR_INVALID_FACET_POINT_INDEX, TRITET_ERROR_INVALID_HOLE_INDEX, TRITET_ERROR_INVALID_POINT_INDEX,
    TRITET_ERROR_INVALID_REGION_INDEX, TRITET_ERROR_INVALID_SEGMENT_INDEX, TRITET_ERROR_INVALID_SEGMENT_POINT_ID,
    TRITET_ERROR_NULL_DATA, TRITET_ERROR_NULL_FACET_LIST, TRITET_ERROR_NULL_FACET_POLYGON_LIST,
    TRITET_ERROR_NULL_HOLE_LIST, TRITET_ERROR_NULL_POINT_LIST, TRITET_ERROR_NULL_REGION_LIST,
    TRITET_ERROR_NULL_SEGMENT_LIST, TRITET_ERROR_STRING_CONCAT, TRITET_SUCCESS,
};
use tritet::status::handle_status;
use tritet::trigen::{handle_trigen_status, TrigenCommand};
use tritet::{Error, ErrorKind};

#[test]
fn every_status_has_its_error() {
    assert_eq!(handle_status(TRITET_SUCCESS), Ok(()));
    assert_eq!(handle_status(TRITET_ERROR_NULL_DATA), Err(Error::NullData));
    assert_eq!(handle_status(TRITET_ERROR_STRING_CONCAT), Err(Error::StringConcat));
    assert_eq!(handle_status(TRITET_ERROR_INITIALIZE_FAILED), Err(Error::InitializeFailed));
    assert_eq!(handle_status(TRITET_ERROR_DEGENERATE_INPUT), Err(Error::DegenerateInput));
    assert_eq!(handle_status(TRITET_ERROR_NULL_POINT_LIST), Err(Error::NullPointList));
    assert_eq!(handle_status(TRITET_ERROR_NULL_SEGMENT_LIST), Err(Error::NullSegmentList));
    assert_eq!(handle_status(TRITET_ERROR_NULL_FACET_LIST), Err(Error::NullFacetList));
    assert_eq!(
        handle_status(TRITET_ERROR_NULL_FACET_POLYGON_LIST),
        Err(Error::NullFacetPolygonList)
    );
    assert_eq!(handle_status(TRITET_ERROR_NULL_REGION_LIST), Err(Error::NullRegionList));
    assert_eq!(handle_status(TRITET_ERROR_NULL_HOLE_LIST), Err(Error::NullHoleList));
    assert_eq!(handle_status(TRITET_ERROR_INVALID_POINT_INDEX), Err(Error::PointIndex));
    assert_eq!(handle_status(TRITET_ERROR_INVALID_SEGMENT_INDEX), Err(Error::SegmentIndex));
    assert_eq!(
        handle_status(TRITET_ERROR_INVALID_SEGMENT_POINT_ID),
        Err(Error::SegmentPointId)
    );
    assert_eq!(handle_status(TRITET_ERROR_INVALID_FACET_INDEX), Err(Error::FacetIndex));
    assert_eq!(
        handle_status(TRITET_ERROR_INVALID_FACET_POINT_INDEX),
        Err(Error::FacetPointIndex)
    );
    assert_eq!(handle_status(TRITET_ERROR_INVALID_FACET_POINT_ID), Err(Error::FacetPointId));
    assert_eq!(handle_status(TRITET_ERROR_INVALID_REGION_INDEX), Err(Error::RegionIndex));
    assert_eq!(handle_status(TRITET_ERROR_INVALID_HOLE_INDEX), Err(Error::HoleIndex));
    assert_eq!(
        handle_status(TRITET_ERROR_INVALID_FACET_NUM_POLYGON),
        Err(Error::FacetPolygonCount)
    );
    assert_eq!(handle_status(1), Err(Error::UnknownStatus));
    assert_eq!(handle_status(-1), Err(Error::UnknownStatus));
    assert_eq!(handle_status(i32::MAX), Err(Error::UnknownStatus));
}

#[test]
fn the_planar_engine_has_its_own_set_of_statuses() {
    let delaunay = TrigenCommand::Delaunay { verbose: 0 };
    let voronoi = TrigenCommand::Voronoi { verbose: 1 };
    let mesh = TrigenCommand::Triangulate {
        verbose: 0,
        quadratic: 1,
        allow_new_points_on_bry: 0,
        global_max_area: 0,
        global_min_angle: 0,
    };
    for command in [delaunay, voronoi, mesh] {
        assert_eq!(handle_trigen_status(&command, 0), Ok(()));
        assert_eq!(handle_trigen_status(&command, 10), Err(Error::NullData));
        assert_eq!(handle_trigen_status(&command, 100), Err(Error::NullPointList));
        assert_eq!(handle_trigen_status(&command, 1000), Err(Error::UnknownStatus));
        assert_eq!(handle_trigen_status(&command, 30), Err(Error::UnknownStatus));
    }
    assert_eq!(handle_trigen_status(&delaunay, 200), Err(Error::UnknownStatus));
    assert_eq!(handle_trigen_status(&voronoi, 20), Err(Error::UnknownStatus));
    assert_eq!(handle_trigen_status(&mesh, 200), Err(Error::SegmentsUndefined));
    assert_eq!(handle_trigen_status(&mesh, 20), Err(Error::StringConcat));
}

#[test]
fn errors_have_a_family_and_a_text() {
    assert_eq!(Error::TooFewPoints2d.kind(), ErrorKind::Construction);
    assert_eq!(Error::TooFewSegments.kind(), ErrorKind::Construction);
    assert_eq!(Error::TooFewPoints3d.kind(), ErrorKind::Construction);
    assert_eq!(Error::TooFewFacets.kind(), ErrorKind::Construction);
    assert_eq!(Error::TooFewFacetPoints.kind(), ErrorKind::Construction);
    assert_eq!(Error::SegmentsNotDeclared.kind(), ErrorKind::CapabilityNotDeclared);
    assert_eq!(Error::FacetMarkersNotDeclared.kind(), ErrorKind::CapabilityNotDeclared);
    assert_eq!(Error::PointIndex.kind(), ErrorKind::IndexOutOfBounds);
    assert_eq!(Error::FacetPointId.kind(), ErrorKind::IndexOutOfBounds);
    assert_eq!(Error::VoronoiPointsMissing.kind(), ErrorKind::IncompleteInput);
    assert_eq!(Error::TetrahedronMeshFacetsMissing.kind(), ErrorKind::IncompleteInput);
    assert_eq!(Error::DegenerateInput.kind(), ErrorKind::EngineFailure);
    assert_eq!(Error::CannotAllocateTrigen.kind(), ErrorKind::EngineFailure);
    assert_eq!(Error::UnknownStatus.kind(), ErrorKind::InternalInconsistency);
    assert_eq!(Error::NoTriangles.kind(), ErrorKind::GeometryState);
    assert_eq!(Error::CannotSyncFile.kind(), ErrorKind::Io);
    assert_eq!(Error::UnknownStatus.message(), "INTERNAL ERROR: some error occurred");
    assert_eq!(Error::NullData.message(), "INTERNAL ERROR: found NULL data");
    assert_eq!(
        Error::FacetMarkersNotDeclared.message(),
        "cannot set facet marker because facet_npoint is None"
    );
    assert_eq!(
        Error::SegmentsUndefined.message(),
        "INTERNAL ERROR: list of segments must be defined first"
    );
    assert_eq!(Error::CannotAllocateTrigen.message(), "INTERNAL ERROR: cannot allocate ExtTriangle");
    assert_eq!(Error::CannotAllocateTetgen.message(), "INTERNAL ERROR: cannot allocate ExtTetgen");
    assert_eq!(Error::CannotCreateDirectory.message(), "cannot create directory");
    assert_eq!(Error::CannotCreateFile.message(), "cannot create file");
    assert_eq!(Error::CannotWriteFile.message(), "cannot write file");
    assert_eq!(Error::CannotSyncFile.message(), "cannot sync file");
}
