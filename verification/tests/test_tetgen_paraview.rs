use tritet::marked_face::FaceRecord;
use tritet::tetgen::{TetPointOutput, TetrahedronMesh, TetrahedronOutput};
use tritet::{Error, Tetgen};

fn bits(value: f64) -> u64 {
    value.to_bits()
}

fn point(x: f64, y: f64, z: f64, marker: i32) -> TetPointOutput {
    TetPointOutput { x: bits(x), y: bits(y), z: bits(z), marker }
}

fn linear(a: usize, b: usize, c: usize, d: usize, attribute: usize) -> TetrahedronOutput {
    TetrahedronOutput { corners: [a, b, c, d, 0, 0, 0, 0, 0, 0], attribute }
}

fn record(points: [i32; 6], marker: i32, cell: usize) -> FaceRecord {
    FaceRecord { points, marker, cell }
}

fn texts(tetgen: &Tetgen) -> Vec<String> {
    let mut all = Vec::new();
    for index in 0..tetgen.out_npoint() {
        for dim in 0..3 {
            all.push(format!("{:?}", f64::from_bits(tetgen.out_point(index, dim))));
        }
    }
    all
}

#[test]
fn tetgen_write_vtu_1() -> Result<(), Error> {
    let mut tetgen = Tetgen::new(4, None, None, None)?;
    tetgen
        .set_point(0, -1, bits(0.0), bits(0.0), bits(0.0))?
        .set_point(1, -2, bits(1.0), bits(0.0), bits(0.0))?
        .set_point(2, -3, bits(0.0), bits(1.0), bits(0.0))?
        .set_point(3, -4, bits(0.0), bits(0.0), bits(1.0))?;
    let command = tetgen.generate_delaunay(false)?;
    // the engine's answer to this input
    let mesh = TetrahedronMesh {
        points: vec![
            point(0.0, 0.0, 0.0, -1),
            point(1.0, 0.0, 0.0, -2),
            point(0.0, 1.0, 0.0, -3),
            point(0.0, 0.0, 1.0, -4),
        ],
        cell_npoint: 4,
        cells: vec![linear(0, 2, 3, 1, 0)],
        faces: Vec::new(),
    };
    tetgen.finish_generation(&command, 0, mesh)?;
    let mut contents = String::new();
    tetgen.write_vtu(&texts(&tetgen), &mut contents)?;
    assert_eq!(
        contents,
        r#"<?xml version="1.0"?>
<VTKFile type="UnstructuredGrid" version="0.1" byte_order="LittleEndian">
<UnstructuredGrid>
<Piece NumberOfPoints="4" NumberOfCells="1">
<Points>
<DataArray type="Float64" NumberOfComponents="3" format="ascii">
0.0 0.0 0.0 1.0 0.0 0.0 0.0 1.0 0.0 0.0 0.0 1.0 
</DataArray>
</Points>
<Cells>
<DataArray type="Int32" Name="connectivity" format="ascii">
0 2 3 1 
</DataArray>
<DataArray type="Int32" Name="offsets" format="ascii">
4 
</DataArray>
<DataArray type="UInt8" Name="types" format="ascii">
10 
</DataArray>
</Cells>
<PointData Scalars="TheScalars">
<DataArray type="Int32" Name="marker" NumberOfComponents="1" format="ascii">
-1 -2 -3 -4 
</DataArray>
</PointData>
<CellData Scalars="TheScalars">
<DataArray type="Int32" Name="attribute" NumberOfComponents="1" format="ascii">
0 
</DataArray>
</CellData>
</Piece>
</UnstructuredGrid>
</VTKFile>
"#
    );
    Ok(())
}

#[test]
fn tetgen_write_vtu_2() -> Result<(), Error> {
    let mut tetgen = Tetgen::new(8, Some(vec![4, 4, 4, 4, 4, 4]), Some(1), None)?;
    tetgen
        .set_point(0, -100, bits(0.0), bits(0.0), bits(0.0))?
        .set_point(1, -200, bits(1.0), bits(0.0), bits(0.0))?
        .set_point(2, -300, bits(1.0), bits(1.0), bits(0.0))?
        .set_point(3, -400, bits(0.0), bits(1.0), bits(0.0))?
        .set_point(4, -500, bits(0.0), bits(0.0), bits(1.0))?
        .set_point(5, -600, bits(1.0), bits(0.0), bits(1.0))?
        .set_point(6, -700, bits(1.0), bits(1.0), bits(1.0))?
        .set_point(7, -800, bits(0.0), bits(1.0), bits(1.0))?;
    tetgen
        .set_facet_point(0, 0, 0)?
        .set_facet_point(0, 1, 4)?
        .set_facet_point(0, 2, 7)?
        .set_facet_point(0, 3, 3)?; // -x
    tetgen
        .set_facet_point(1, 0, 1)?
        .set_facet_point(1, 1, 2)?
        .set_facet_point(1, 2, 6)?
        .set_facet_point(1, 3, 5)?; // +x
    tetgen
        .set_facet_point(2, 0, 0)?
        .set_facet_point(2, 1, 1)?
        .set_facet_point(2, 2, 5)?
        .set_facet_point(2, 3, 4)?; // -y
    tetgen
        .set_facet_point(3, 0, 2)?
        .set_facet_point(3, 1, 3)?
        .set_facet_point(3, 2, 7)?
        .set_facet_point(3, 3, 6)?; // +y
    tetgen
        .set_facet_point(4, 0, 0)?
        .set_facet_point(4, 1, 3)?
        .set_facet_point(4, 2, 2)?
        .set_facet_point(4, 3, 1)?; // -z
    tetgen
        .set_facet_point(5, 0, 4)?
        .set_facet_point(5, 1, 5)?
        .set_facet_point(5, 2, 6)?
        .set_facet_point(5, 3, 7)?; // +z
    tetgen
        .set_facet_marker(0, -10)? // -x
        .set_facet_marker(1, -20)? // +x
        .set_facet_marker(2, -30)? // -y
        .set_facet_marker(3, -40)? // +y
        .set_facet_marker(4, -50)? // -z
        .set_facet_marker(5, -60)?; // +z

    tetgen.set_region(0, 1, bits(0.5), bits(0.5), bits(0.5), None)?;
    let command = tetgen.generate_mesh(false, false, None, None)?;
    // the engine's answer to this input
    let mesh = TetrahedronMesh {
        points: vec![
            point(0.0, 0.0, 0.0, -100),
            point(1.0, 0.0, 0.0, -200),
            point(1.0, 1.0, 0.0, -300),
            point(0.0, 1.0, 0.0, -400),
            point(0.0, 0.0, 1.0, -500),
            point(1.0, 0.0, 1.0, -600),
            point(1.0, 1.0, 1.0, -700),
            point(0.0, 1.0, 1.0, -800),
        ],
        cell_npoint: 4,
        cells: vec![
            linear(0, 3, 7, 2, 1),
            linear(0, 7, 4, 6, 1),
            linear(5, 0, 4, 6, 1),
            linear(0, 7, 6, 2, 1),
            linear(5, 0, 6, 1, 1),
            linear(6, 0, 2, 1, 1),
        ],
        faces: vec![
            record([2, 7, 3, 0, 0, 0], -40, 0),
            record([3, 0, 2, 0, 0, 0], -50, 0),
            record([3, 7, 0, 0, 0, 0], -10, 0),
            record([6, 4, 7, 0, 0, 0], -60, 1),
            record([7, 4, 0, 0, 0, 0], -10, 1),
            record([6, 5, 4, 0, 0, 0], -60, 2),
            record([0, 4, 5, 0, 0, 0], -30, 2),
            record([2, 6, 7, 0, 0, 0], -40, 3),
            record([1, 5, 6, 0, 0, 0], -20, 4),
            record([0, 5, 1, 0, 0, 0], -30, 4),
            record([1, 2, 0, 0, 0, 0], -50, 5),
            record([1, 6, 2, 0, 0, 0], -20, 5),
        ],
    };
    tetgen.finish_generation(&command, 0, mesh)?;

    assert_eq!(tetgen.out_n_marked_face(), 12);
    let mut keys: Vec<(i32, i32, i32)> = (0..12)
        .map(|i| {
            let key = tetgen.out_marked_face_key(i);
            (key.a, key.b, key.c)
        })
        .collect();
    keys.sort();
    keys.dedup();
    assert_eq!(keys.len(), 12);
    for i in 0..12 {
        assert_eq!(tetgen.out_marked_face_conflict(i), false);
    }

    let mut contents = String::new();
    tetgen.write_vtu(&texts(&tetgen), &mut contents)?;
    assert_eq!(
        contents,
        r#"<?xml version="1.0"?>
<VTKFile type="UnstructuredGrid" version="0.1" byte_order="LittleEndian">
<UnstructuredGrid>
<Piece NumberOfPoints="8" NumberOfCells="18">
<Points>
<DataArray type="Float64" NumberOfComponents="3" format="ascii">
0.0 0.0 0.0 1.0 0.0 0.0 1.0 1.0 0.0 0.0 1.0 0.0 0.0 0.0 1.0 1.0 0.0 1.0 1.0 1.0 1.0 0.0 1.0 1.0 
</DataArray>
</Points>
<Cells>
<DataArray type="Int32" Name="connectivity" format="ascii">
0 3 7 2 0 7 4 6 5 0 4 6 0 7 6 2 5 0 6 1 6 0 2 1 2 3 7 0 2 3 0 3 7 4 6 7 0 4 7 4 5 6 0 4 5 2 6 7 1 5 6 0 1 5 0 1 2 1 2 6 
</DataArray>
<DataArray type="Int32" Name="offsets" format="ascii">
4 8 12 16 20 24 27 30 33 36 39 42 45 48 51 54 57 60 
</DataArray>
<DataArray type="UInt8" Name="types" format="ascii">
10 10 10 10 10 10 5 5 5 5 5 5 5 5 5 5 5 5 
</DataArray>
</Cells>
<PointData Scalars="TheScalars">
<DataArray type="Int32" Name="marker" NumberOfComponents="1" format="ascii">
-100 -200 -300 -400 -500 -600 -700 -800 
</DataArray>
</PointData>
<CellData Scalars="TheScalars">
<DataArray type="Int32" Name="attribute" NumberOfComponents="1" format="ascii">
1 1 1 1 1 1 -40 -50 -10 -60 -10 -60 -30 -40 -20 -30 -50 -20 
</DataArray>
</CellData>
</Piece>
</UnstructuredGrid>
</VTKFile>
"#
    );
    Ok(())
}

#[test]
fn tetgen_write_vtu_refuses_an_empty_mesh() -> Result<(), Error> {
    let tetgen = Tetgen::new(4, None, None, None)?;
    let mut contents = String::new();
    assert_eq!(tetgen.write_vtu(&Vec::new(), &mut contents), Err(Error::NoTetrahedra));
    assert_eq!(Error::NoTetrahedra.message(), "there are no tetrahedra to write");
    assert_eq!(contents, "");
    Ok(())
}
