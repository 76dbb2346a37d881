use tritet::marked_face::FaceRecord;
use tritet::tetgen::{TetPointOutput, TetgenCommand, TetrahedronMesh, TetrahedronOutput};
use tritet::trigen::{
    classify_edge_point, HoleInput, PointInput, PointOutput, RegionInput, SegmentInput, TriangleMesh,
    TriangleOutput, TrigenCommand, VoronoiEdge, VoronoiPoint,
};
use tritet::{Error, Tetgen, Trigen, VoronoiEdgePoint};

fn bits(value: f64) -> u64 {
    value.to_bits()
}

fn one_triangle() -> TriangleMesh {
    TriangleMesh {
        points: vec![
            PointOutput { x: bits(0.0), y: bits(0.0), marker: 3 },
            PointOutput { x: bits(1.0), y: bits(0.0), marker: 0 },
            PointOutput { x: bits(0.0), y: bits(1.5), marker: -1 },
        ],
        segments: vec![tritet::trigen::SegmentOutput { a: 1, b: 2, marker: 8 }],
        cell_npoint: 3,
        cells: vec![TriangleOutput { corners: [0, 1, 2, 0, 0, 0], attribute: 4 }],
        voronoi_points: vec![VoronoiPoint { x: bits(0.5), y: bits(0.75) }],
        voronoi_edges: vec![
            VoronoiEdge { a: 0, b: -1, dx: bits(1.0), dy: bits(2.0) },
            VoronoiEdge { a: 0, b: 7, dx: bits(1.0), dy: bits(2.0) },
        ],
    }
}

fn ready_trigen() -> Result<Trigen, Error> {
    let mut trigen = Trigen::new(3, None, None, None)?;
    trigen.set_point(0, 0, 0, 0)?.set_point(1, 0, 0, 0)?.set_point(2, 0, 0, 0)?;
    Ok(trigen)
}

#[test]
fn construction_needs_the_smallest_capacities() {
    for npoint in 0..3 {
        assert_eq!(Trigen::new(npoint, None, None, None).err(), Some(Error::TooFewPoints2d));
        assert_eq!(Trigen::new(npoint, Some(0), None, None).err(), Some(Error::TooFewPoints2d));
    }
    for npoint in 0..4 {
        assert_eq!(Tetgen::new(npoint, None, None, None).err(), Some(Error::TooFewPoints3d));
        assert_eq!(Tetgen::new(npoint, Some(vec![]), None, None).err(), Some(Error::TooFewPoints3d));
    }
    for npoint in 3..20 {
        assert!(Trigen::new(npoint, None, Some(0), Some(0)).is_ok());
        assert!(Trigen::new(npoint, Some(3), None, None).is_ok());
    }
    for npoint in 4..20 {
        assert!(Tetgen::new(npoint, None, None, None).is_ok());
        assert!(Tetgen::new(npoint, Some(vec![3, 4, 5, 3]), Some(2), Some(0)).is_ok());
    }
    assert_eq!(
        Tetgen::new(4, Some(vec![3, 3, 3]), None, None).err(),
        Some(Error::TooFewFacets)
    );
    assert_eq!(
        Tetgen::new(4, Some(vec![3, 2, 3, 3, 1]), None, None).err(),
        Some(Error::TooFewFacetPoints)
    );
    assert_eq!(Trigen::new(3, Some(2), None, None).err(), Some(Error::TooFewSegments));
}

#[test]
fn the_input_starts_blank_and_the_last_write_wins() -> Result<(), Error> {
    let mut trigen = Trigen::new(3, Some(3), Some(2), Some(1))?;
    assert_eq!(trigen.points(), &vec![PointInput { marker: 0, x: 0, y: 0 }; 3]);
    assert_eq!(
        trigen.segments(),
        &Some(vec![SegmentInput { marker: 0, a: 0, b: 0 }; 3])
    );
    assert_eq!(
        trigen.regions(),
        &Some(vec![RegionInput { attribute: 0, x: 0, y: 0, max_area: 0 }; 2])
    );
    assert_eq!(trigen.holes(), &Some(vec![HoleInput { x: 0, y: 0 }; 1]));
    trigen.set_point(1, 5, bits(1.0), bits(2.0))?;
    trigen.set_point(1, 6, bits(3.0), bits(4.0))?;
    assert_eq!(trigen.points()[1], PointInput { marker: 6, x: bits(3.0), y: bits(4.0) });
    assert_eq!(trigen.points()[0], PointInput { marker: 0, x: 0, y: 0 });
    trigen.set_segment(2, -1, 2, 0)?;
    assert_eq!(
        trigen.segments().as_ref().unwrap()[2],
        SegmentInput { marker: -1, a: 2, b: 0 }
    );
    trigen.set_region(0, 9, bits(0.5), bits(0.25), None)?;
    assert_eq!(
        trigen.regions().as_ref().unwrap()[0],
        RegionInput { attribute: 9, x: bits(0.5), y: bits(0.25), max_area: bits(-1.0) }
    );
    trigen.set_region(0, 9, bits(0.5), bits(0.25), Some(bits(0.125)))?;
    assert_eq!(trigen.regions().as_ref().unwrap()[0].max_area, bits(0.125));
    trigen.set_hole(0, bits(7.0), bits(8.0))?;
    assert_eq!(trigen.holes().as_ref().unwrap()[0], HoleInput { x: bits(7.0), y: bits(8.0) });
    assert_eq!(trigen.npoint(), 3);
    assert_eq!(trigen.nsegment(), Some(3));
    assert_eq!(trigen.nregion(), Some(2));
    assert_eq!(trigen.nhole(), Some(1));
    Ok(())
}

#[test]
fn a_refused_write_changes_nothing() -> Result<(), Error> {
    let mut trigen = Trigen::new(3, Some(3), None, None)?;
    trigen.set_point(2, 1, 1, 1)?;
    trigen.set_segment(2, 1, 0, 1)?;
    assert!(trigen.all_points_set());
    assert!(trigen.all_segments_set());
    assert_eq!(trigen.set_point(3, 9, 9, 9).err(), Some(Error::PointIndex));
    assert_eq!(trigen.set_segment(3, 9, 0, 1).err(), Some(Error::SegmentIndex));
    assert_eq!(trigen.set_segment(0, 9, 3, 1).err(), Some(Error::SegmentPointId));
    assert_eq!(trigen.set_segment(0, 9, 1, 3).err(), Some(Error::SegmentPointId));
    // the index is looked at before the ids
    assert_eq!(trigen.set_segment(3, 9, 3, 3).err(), Some(Error::SegmentIndex));
    assert_eq!(trigen.set_region(0, 1, 0, 0, None).err(), Some(Error::RegionsNotDeclared));
    assert_eq!(trigen.set_hole(0, 0, 0).err(), Some(Error::HolesNotDeclared));
    assert!(trigen.all_points_set());
    assert!(trigen.all_segments_set());
    assert_eq!(trigen.points()[2], PointInput { marker: 1, x: 1, y: 1 });
    assert_eq!(trigen.segments().as_ref().unwrap()[0], SegmentInput { marker: 0, a: 0, b: 0 });
    Ok(())
}

#[test]
fn completion_follows_the_last_index_written() -> Result<(), Error> {
    let mut trigen = Trigen::new(3, Some(3), Some(1), Some(2))?;
    trigen.set_point(0, 0, 0, 0)?;
    assert!(!trigen.all_points_set());
    trigen.set_point(2, 0, 0, 0)?;
    assert!(trigen.all_points_set());
    // a write to another index takes the completion back
    trigen.set_point(1, 0, 0, 0)?;
    assert!(!trigen.all_points_set());
    trigen.set_point(2, 0, 0, 0)?;
    assert!(trigen.all_points_set());
    trigen.set_segment(2, 0, 0, 1)?;
    assert!(trigen.all_segments_set());
    trigen.set_segment(0, 0, 0, 1)?;
    assert!(!trigen.all_segments_set());
    trigen.set_region(0, 0, 0, 0, None)?;
    assert!(trigen.all_regions_set());
    trigen.set_hole(0, 0, 0)?;
    assert!(!trigen.all_holes_set());
    trigen.set_hole(1, 0, 0)?;
    assert!(trigen.all_holes_set());
    Ok(())
}

#[test]
fn facets_are_complete_when_as_many_points_are_written_as_they_have() -> Result<(), Error> {
    let mut tetgen = Tetgen::new(4, Some(vec![3, 3, 3, 3]), None, None)?;
    // in any order
    for index in [3, 1, 2] {
        for m in [2, 0, 1] {
            tetgen.set_facet_point(index, m, m)?;
            assert!(!tetgen.all_facets_set());
        }
    }
    tetgen.set_facet_point(0, 2, 3)?;
    tetgen.set_facet_point(0, 1, 3)?;
    assert!(!tetgen.all_facets_set());
    // the first point of the first facet starts the count anew
    tetgen.set_facet_point(0, 0, 3)?;
    assert!(!tetgen.all_facets_set());
    for index in 0..4 {
        for m in 0..3 {
            tetgen.set_facet_point(index, m, m + 1)?;
        }
    }
    assert!(tetgen.all_facets_set());
    // a marker is no point
    let mut tetgen = Tetgen::new(4, Some(vec![3, 3, 3, 3]), None, None)?;
    for index in 0..4 {
        tetgen.set_facet_marker(index, -5)?;
        assert_eq!(tetgen.facets().as_ref().unwrap()[index].marker, -5);
    }
    assert!(!tetgen.all_facets_set());
    assert_eq!(tetgen.set_facet_marker(4, 1).err(), Some(Error::FacetIndex));
    let mut tetgen = Tetgen::new(4, None, None, None)?;
    assert_eq!(tetgen.set_facet_marker(0, 1).err(), Some(Error::FacetMarkersNotDeclared));
    assert_eq!(
        Error::FacetMarkersNotDeclared.message(),
        "cannot set facet marker because facet_npoint is None"
    );
    Ok(())
}

#[test]
fn a_call_that_the_input_does_not_permit_changes_nothing() -> Result<(), Error> {
    let mut trigen = Trigen::new(3, Some(3), None, None)?;
    let command = TrigenCommand::Delaunay { verbose: 0 };
    assert_eq!(trigen.check_ready(&command), Err(Error::DelaunayTrianglesPointsMissing));
    assert_eq!(
        trigen.finish_generation(&command, 0, one_triangle()),
        Err(Error::DelaunayTrianglesPointsMissing)
    );
    assert_eq!(trigen.out_ncell(), 0);
    trigen.set_point(2, 0, 0, 0)?;
    assert_eq!(trigen.check_ready(&command), Ok(()));
    let mesh = TrigenCommand::Triangulate {
        verbose: 0,
        quadratic: 0,
        allow_new_points_on_bry: 0,
        global_max_area: 0,
        global_min_angle: 0,
    };
    assert_eq!(
        trigen.finish_generation(&mesh, 0, one_triangle()),
        Err(Error::TriangleMeshSegmentsMissing)
    );
    assert_eq!(trigen.out_ncell(), 0);
    Ok(())
}

#[test]
fn a_failed_generation_leaves_no_output() -> Result<(), Error> {
    let mut trigen = ready_trigen()?;
    let command = trigen.generate_delaunay(false)?;
    trigen.finish_generation(&command, 0, one_triangle())?;
    assert_eq!(trigen.out_ncell(), 1);
    assert_eq!(trigen.out_npoint(), 3);
    assert_eq!(
        trigen.finish_generation(&command, 10, one_triangle()),
        Err(Error::NullData)
    );
    assert_eq!(trigen.out_ncell(), 0);
    assert_eq!(trigen.out_npoint(), 0);
    assert_eq!(trigen.out_nsegment(), 0);
    assert_eq!(trigen.out_cell_npoint(), 0);
    assert_eq!(trigen.out_voronoi_npoint(), 0);
    assert_eq!(trigen.out_voronoi_nedge(), 0);
    assert_eq!(
        trigen.finish_generation(&command, 12345, one_triangle()),
        Err(Error::UnknownStatus)
    );
    // the input is as it was, and a new call may follow
    assert!(trigen.all_points_set());
    trigen.finish_generation(&command, 0, one_triangle())?;
    assert_eq!(trigen.out_ncell(), 1);

    let mut tetgen = Tetgen::new(4, None, None, None)?;
    tetgen.set_point(3, 0, 0, 0, 0)?;
    let command = tetgen.generate_delaunay(true)?;
    assert_eq!(command, TetgenCommand::Delaunay { verbose: 1 });
    let mesh = TetrahedronMesh {
        points: vec![TetPointOutput { x: 1, y: 2, z: 3, marker: 4 }],
        cell_npoint: 4,
        cells: vec![TetrahedronOutput { corners: [0; 10], attribute: 6 }],
        faces: vec![FaceRecord { points: [0, 1, 2, 0, 0, 0], marker: 1, cell: 0 }],
    };
    tetgen.finish_generation(&command, 0, mesh)?;
    assert_eq!(tetgen.out_n_marked_face(), 1);
    assert_eq!(
        tetgen.finish_generation(&command, 30, TetrahedronMesh::empty()),
        Err(Error::InitializeFailed)
    );
    assert_eq!(tetgen.out_ncell(), 0);
    assert_eq!(tetgen.out_npoint(), 0);
    assert_eq!(tetgen.out_n_marked_face(), 0);
    Ok(())
}

#[test]
fn reads_outside_the_ranges_give_zero() -> Result<(), Error> {
    let mut trigen = ready_trigen()?;
    let command = trigen.generate_voronoi(false)?;
    trigen.finish_generation(&command, 0, one_triangle())?;
    assert_eq!(trigen.out_point(3, 0), 0);
    assert_eq!(trigen.out_point(2, 2), 0);
    assert_eq!(trigen.out_point(usize::MAX, usize::MAX), 0);
    assert_eq!(trigen.out_point_marker(3), 0);
    assert_eq!(trigen.out_segment_point(1, 0), 0);
    assert_eq!(trigen.out_segment_point(0, 2), 0);
    assert_eq!(trigen.out_segment_marker(1), 0);
    assert_eq!(trigen.out_cell_point(1, 0), 0);
    assert_eq!(trigen.out_cell_point(0, 3), 0);
    assert_eq!(trigen.out_cell_point(0, usize::MAX), 0);
    assert_eq!(trigen.out_cell_attribute(1), 0);
    assert_eq!(trigen.out_voronoi_point(1, 0), 0);
    assert_eq!(trigen.out_voronoi_point(0, 2), 0);
    assert_eq!(trigen.out_voronoi_edge_point_a(2), 0);
    assert_eq!(trigen.out_voronoi_edge_point_b(2), VoronoiEdgePoint::Index(0));
    // and inside them what the engine made
    assert_eq!(trigen.out_point(2, 1), bits(1.5));
    assert_eq!(trigen.out_point_marker(2), -1);
    assert_eq!(trigen.out_segment_point(0, 0), 1);
    assert_eq!(trigen.out_segment_point(0, 1), 2);
    assert_eq!(trigen.out_segment_marker(0), 8);
    assert_eq!(trigen.out_cell_attribute(0), 4);
    assert_eq!(trigen.out_voronoi_point(0, 1), bits(0.75));
    assert_eq!(
        trigen.out_voronoi_edge_point_b(0),
        VoronoiEdgePoint::Direction(bits(1.0), bits(2.0))
    );
    assert_eq!(trigen.out_voronoi_edge_point_b(1), VoronoiEdgePoint::Index(7));

    let tetgen = Tetgen::new(4, None, None, None)?;
    let mut points = [9, 9, 9, 9, 9, 9];
    assert_eq!(tetgen.out_marked_face(0, &mut points), (0, 0));
    assert_eq!(points, [0, 0, 0, 0, 0, 0]);
    assert_eq!(tetgen.out_point(0, 0), 0);
    assert_eq!(tetgen.out_point_marker(0), 0);
    assert_eq!(tetgen.out_cell_point(0, 0), 0);
    assert_eq!(tetgen.out_cell_point(0, 10), 0);
    assert_eq!(tetgen.out_cell_attribute(0), 0);
    assert_eq!(tetgen.out_marked_face_conflict(0), false);
    Ok(())
}

#[test]
fn reads_can_be_repeated() -> Result<(), Error> {
    let mut trigen = ready_trigen()?;
    let command = trigen.generate_voronoi(false)?;
    trigen.finish_generation(&command, 0, one_triangle())?;
    for index in 0..4 {
        for sub in 0..4 {
            assert_eq!(trigen.out_point(index, sub), trigen.out_point(index, sub));
            assert_eq!(trigen.out_cell_point(index, sub), trigen.out_cell_point(index, sub));
            assert_eq!(
                trigen.out_voronoi_point(index, sub),
                trigen.out_voronoi_point(index, sub)
            );
        }
        assert_eq!(
            trigen.out_voronoi_edge_point_b(index),
            trigen.out_voronoi_edge_point_b(index)
        );
    }
    // writing to the input does not change the output
    let before = trigen.out_point(2, 1);
    trigen.set_point(0, 5, bits(9.0), bits(9.0))?;
    assert_eq!(trigen.out_point(2, 1), before);
    assert_eq!(trigen.out_ncell(), 1);
    Ok(())
}

#[test]
fn the_second_point_field_tells_a_ray_from_an_edge() {
    let ray = VoronoiEdge { a: 0, b: -1, dx: 4, dy: 5 };
    assert_eq!(classify_edge_point(&ray), VoronoiEdgePoint::Direction(4, 5));
    let edge = VoronoiEdge { a: 0, b: 0, dx: 4, dy: 5 };
    assert_eq!(classify_edge_point(&edge), VoronoiEdgePoint::Index(0));
    let edge = VoronoiEdge { a: 0, b: 12, dx: 4, dy: 5 };
    assert_eq!(classify_edge_point(&edge), VoronoiEdgePoint::Index(12));
    let edge = VoronoiEdge { a: 0, b: -2, dx: 4, dy: 5 };
    assert_eq!(classify_edge_point(&edge), VoronoiEdgePoint::Index(-2_i32 as usize));
    let edge = VoronoiEdge { a: 0, b: i32::MAX, dx: 0, dy: 0 };
    assert_eq!(classify_edge_point(&edge), VoronoiEdgePoint::Index(i32::MAX as usize));
}

#[test]
fn quadratic_tetrahedron_nodes_follow_the_library_order() -> Result<(), Error> {
    let mut tetgen = Tetgen::new(4, None, None, None)?;
    tetgen.set_point(3, 0, 0, 0, 0)?;
    let command = tetgen.generate_delaunay(false)?;
    let mesh = TetrahedronMesh {
        points: Vec::new(),
        cell_npoint: 10,
        cells: vec![TetrahedronOutput {
            corners: [20, 21, 22, 23, 24, 25, 26, 27, 28, 29],
            attribute: 0,
        }],
        faces: Vec::new(),
    };
    tetgen.finish_generation(&command, 0, mesh)?;
    let nodes: Vec<usize> = (0..10).map(|m| tetgen.out_cell_point(0, m)).collect();
    assert_eq!(nodes, &[20, 21, 22, 23, 26, 27, 29, 25, 28, 24]);
    Ok(())
}
