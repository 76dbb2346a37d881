//! Export of a spatial mesh as an unstructured-grid document.

use crate::constants::VTK_QUADRATIC_TETRA;
use crate::constants::VTK_TETRA;
use crate::constants::VTK_TRIANGLE;
use crate::error::Error;
use crate::marked_face::MarkedFace;
use crate::tetgen::Tetgen;
use crate::tetgen::TetgenView;
use crate::tetgen::TetrahedronMeshView;
use crate::text::push_signed_token;
use crate::text::push_token;
use crate::text::signed_token;
use crate::text::token;
use crate::vtu::head_text;
use crate::vtu::push_head;
use crate::vtu::push_repeated;
use crate::vtu::push_totals;
use crate::vtu::repeated;
use crate::vtu::totals;
use crate::vtu::VTU_CELLS_END;
use crate::vtu::VTU_CELL_DATA;
use crate::vtu::VTU_CELL_DATA_END;
use crate::vtu::VTU_CONNECTIVITY;
use crate::vtu::VTU_OFFSETS;
use crate::vtu::VTU_POINT_DATA;
use crate::vtu::VTU_TAIL;
use crate::vtu::VTU_TYPES;
use vstd::prelude::*;
use vstd::string::StringExecFns;

verus! {

/// The coordinates of the first `n` points of a spatial mesh: for each point
/// the texts of x, y and z, each followed by a space.
pub open spec fn spatial_points_text(coordinates: Seq<String>, n: nat) -> Seq<char>
    decreases n,
{
    if n == 0 {
        Seq::empty()
    } else {
        spatial_points_text(coordinates, (n - 1) as nat) + coordinates[3 * (n - 1)]@ + seq![' ']
            + coordinates[3 * (n - 1) + 1]@ + seq![' '] + coordinates[3 * (n - 1) + 2]@ + seq![' ']
    }
}

/// The cell-type code of a tetrahedron with `nnode` nodes.
pub open spec fn tetrahedron_type(nnode: nat) -> nat {
    if nnode == 4 {
        VTK_TETRA as nat
    } else {
        VTK_QUADRATIC_TETRA as nat
    }
}

/// The keys of the first `n` marked faces: three ids each.
pub open spec fn face_keys_text(faces: Seq<MarkedFace>, n: nat) -> Seq<char>
    decreases n,
{
    if n == 0 {
        Seq::empty()
    } else {
        face_keys_text(faces, (n - 1) as nat) + signed_token(faces[n - 1].key.a as int)
            + signed_token(faces[n - 1].key.b as int) + signed_token(faces[n - 1].key.c as int)
    }
}

/// The markers of the first `n` marked faces.
pub open spec fn face_markers_text(faces: Seq<MarkedFace>, n: nat) -> Seq<char>
    decreases n,
{
    if n == 0 {
        Seq::empty()
    } else {
        face_markers_text(faces, (n - 1) as nat) + signed_token(faces[n - 1].marker as int)
    }
}

impl TetrahedronMeshView {
    /// The ids of the first `m` nodes of a tetrahedron, in this library's
    /// node order, each followed by a space.
    pub open spec fn nodes_text(self, index: int, m: nat) -> Seq<char>
        decreases m,
    {
        if m == 0 {
            Seq::empty()
        } else {
            self.nodes_text(index, (m - 1) as nat) + token(self.cell_point(index, m - 1) as nat)
        }
    }

    /// The ids of the nodes of the first `n` tetrahedra.
    pub open spec fn connectivity_text(self, n: nat) -> Seq<char>
        decreases n,
    {
        if n == 0 {
            Seq::empty()
        } else {
            self.connectivity_text((n - 1) as nat) + self.nodes_text(n - 1, self.cell_npoint)
        }
    }

    /// The markers of the first `n` points.
    pub open spec fn point_markers_text(self, n: nat) -> Seq<char>
        decreases n,
    {
        if n == 0 {
            Seq::empty()
        } else {
            self.point_markers_text((n - 1) as nat) + signed_token(
                self.point_marker(n - 1) as int,
            )
        }
    }

    /// The attributes of the first `n` tetrahedra.
    pub open spec fn attributes_text(self, n: nat) -> Seq<char>
        decreases n,
    {
        if n == 0 {
            Seq::empty()
        } else {
            self.attributes_text((n - 1) as nat) + token(self.cell_attribute(n - 1) as nat)
        }
    }
}

impl TetgenView {
    /// The document that shows the mesh and, as triangles after the
    /// tetrahedra, its marked faces, with the coordinates written as the
    /// given texts (x, y and z of the first point, then of the second, and
    /// so on).
    pub open spec fn vtu(self, coordinates: Seq<String>) -> Seq<char> {
        head_text(self.mesh.points.len(), self.mesh.cells.len() + self.marked_faces.len())
            + spatial_points_text(coordinates, self.mesh.points.len()) + self.cells_text()
            + self.data_text() + VTU_TAIL@
    }

    /// The part of the document on the cells: the ids of the nodes of the
    /// tetrahedra and of the corners of the marked faces, where each cell
    /// ends, and the type of each cell.
    pub open spec fn cells_text(self) -> Seq<char> {
        let ntet = self.mesh.cells.len();
        let nface = self.marked_faces.len();
        let nnode = self.mesh.cell_npoint;
        VTU_CONNECTIVITY@ + self.mesh.connectivity_text(ntet) + face_keys_text(
            self.marked_faces,
            nface,
        ) + VTU_OFFSETS@ + totals(0, nnode, ntet) + totals(ntet * nnode, 3, nface) + VTU_TYPES@
            + repeated(tetrahedron_type(nnode), ntet) + repeated(VTK_TRIANGLE as nat, nface)
            + VTU_CELLS_END@
    }

    /// The part of the document on the data: the marker of each point, and
    /// the attribute of each tetrahedron followed by the marker of each
    /// marked face.
    pub open spec fn data_text(self) -> Seq<char> {
        VTU_POINT_DATA@ + self.mesh.point_markers_text(self.mesh.points.len()) + VTU_CELL_DATA@
            + self.mesh.attributes_text(self.mesh.cells.len()) + face_markers_text(
            self.marked_faces,
            self.marked_faces.len(),
        ) + VTU_CELL_DATA_END@
    }
}

/// Appends the coordinates of `npoint` points of a spatial mesh.
fn push_spatial_points(buffer: &mut String, coordinates: &Vec<String>, npoint: usize)
    requires
        coordinates.len() == 3 * npoint,
    ensures
        final(buffer)@ == old(buffer)@ + spatial_points_text(coordinates@, npoint as nat),
{
    let mut i: usize = 0;
    assert(buffer@ =~= old(buffer)@ + spatial_points_text(coordinates@, 0));
    while i < npoint
        invariant
            i <= npoint,
            coordinates.len() == 3 * npoint,
            buffer@ == old(buffer)@ + spatial_points_text(coordinates@, i as nat),
        decreases npoint - i,
    {
        buffer.append(coordinates[3 * i].as_str());
        buffer.append(" ");
        buffer.append(coordinates[3 * i + 1].as_str());
        buffer.append(" ");
        buffer.append(coordinates[3 * i + 2].as_str());
        buffer.append(" ");
        proof {
            reveal_strlit(" ");
            assert(" "@ =~= seq![' ']);
        }
        i += 1;
        assert(buffer@ =~= old(buffer)@ + spatial_points_text(coordinates@, i as nat));
    }
}

impl Tetgen {
    /// Appends the ids of the nodes of every tetrahedron.
    pub fn push_connectivity(&self, buffer: &mut String)
        ensures
            final(buffer)@ == old(buffer)@ + self@.mesh.connectivity_text(self@.mesh.cells.len()),
    {
        let ncell = self.out_ncell();
        let nnode = self.out_cell_npoint();
        let mut index: usize = 0;
        assert(buffer@ =~= old(buffer)@ + self@.mesh.connectivity_text(0));
        while index < ncell
            invariant
                index <= ncell,
                ncell == self@.mesh.cells.len(),
                nnode == self@.mesh.cell_npoint,
                buffer@ == old(buffer)@ + self@.mesh.connectivity_text(index as nat),
            decreases ncell - index,
        {
            let ghost start = buffer@;
            let mut m: usize = 0;
            assert(buffer@ =~= start + self@.mesh.nodes_text(index as int, 0));
            while m < nnode
                invariant
                    m <= nnode,
                    buffer@ == start + self@.mesh.nodes_text(index as int, m as nat),
                decreases nnode - m,
            {
                push_token(buffer, self.out_cell_point(index, m) as u128);
                m += 1;
                assert(buffer@ =~= start + self@.mesh.nodes_text(index as int, m as nat));
            }
            index += 1;
            assert(buffer@ =~= old(buffer)@ + self@.mesh.connectivity_text(index as nat));
        }
    }

    /// Appends the key of every marked face.
    pub fn push_face_keys(&self, buffer: &mut String)
        ensures
            final(buffer)@ == old(buffer)@ + face_keys_text(
                self@.marked_faces,
                self@.marked_faces.len(),
            ),
    {
        let nface = self.out_n_marked_face();
        let mut index: usize = 0;
        assert(buffer@ =~= old(buffer)@ + face_keys_text(self@.marked_faces, 0));
        while index < nface
            invariant
                index <= nface,
                nface == self@.marked_faces.len(),
                buffer@ == old(buffer)@ + face_keys_text(self@.marked_faces, index as nat),
            decreases nface - index,
        {
            let key = self.out_marked_face_key(index);
            push_signed_token(buffer, key.a);
            push_signed_token(buffer, key.b);
            push_signed_token(buffer, key.c);
            index += 1;
            assert(buffer@ =~= old(buffer)@ + face_keys_text(self@.marked_faces, index as nat));
        }
    }

    /// Appends the marker of every point.
    pub fn push_point_markers(&self, buffer: &mut String)
        ensures
            final(buffer)@ == old(buffer)@ + self@.mesh.point_markers_text(
                self@.mesh.points.len(),
            ),
    {
        let npoint = self.out_npoint();
        let mut index: usize = 0;
        assert(buffer@ =~= old(buffer)@ + self@.mesh.point_markers_text(0));
        while index < npoint
            invariant
                index <= npoint,
                npoint == self@.mesh.points.len(),
                buffer@ == old(buffer)@ + self@.mesh.point_markers_text(index as nat),
            decreases npoint - index,
        {
            push_signed_token(buffer, self.out_point_marker(index));
            index += 1;
            assert(buffer@ =~= old(buffer)@ + self@.mesh.point_markers_text(index as nat));
        }
    }

    /// Appends the attribute of every tetrahedron.
    pub fn push_attributes(&self, buffer: &mut String)
        ensures
            final(buffer)@ == old(buffer)@ + self@.mesh.attributes_text(self@.mesh.cells.len()),
    {
        let ncell = self.out_ncell();
        let mut index: usize = 0;
        assert(buffer@ =~= old(buffer)@ + self@.mesh.attributes_text(0));
        while index < ncell
            invariant
                index <= ncell,
                ncell == self@.mesh.cells.len(),
                buffer@ == old(buffer)@ + self@.mesh.attributes_text(index as nat),
            decreases ncell - index,
        {
            push_token(buffer, self.out_cell_attribute(index) as u128);
            index += 1;
            assert(buffer@ =~= old(buffer)@ + self@.mesh.attributes_text(index as nat));
        }
    }

    /// Appends the marker of every marked face.
    pub fn push_face_markers(&self, buffer: &mut String)
        ensures
            final(buffer)@ == old(buffer)@ + face_markers_text(
                self@.marked_faces,
                self@.marked_faces.len(),
            ),
    {
        let nface = self.out_n_marked_face();
        let mut index: usize = 0;
        let mut points: [i32; 6] = [0, 0, 0, 0, 0, 0];
        assert(buffer@ =~= old(buffer)@ + face_markers_text(self@.marked_faces, 0));
        while index < nface
            invariant
                index <= nface,
                nface == self@.marked_faces.len(),
                buffer@ == old(buffer)@ + face_markers_text(self@.marked_faces, index as nat),
            decreases nface - index,
        {
            let (marker, _) = self.out_marked_face(index, &mut points);
            push_signed_token(buffer, marker);
            index += 1;
            assert(buffer@ =~= old(buffer)@ + face_markers_text(self@.marked_faces, index as nat));
        }
    }
}

impl Tetgen {
    /// Appends the part of the document on the cells.
    pub fn push_cells(&self, buffer: &mut String)
        requires
            self@.mesh.cell_npoint <= 10,
        ensures
            final(buffer)@ == old(buffer)@ + self@.cells_text(),
    {
        let ntet = self.out_ncell();
        let nface = self.out_n_marked_face();
        let nnode = self.out_cell_npoint();
        let vtk_type = if nnode == 4 {
            VTK_TETRA
        } else {
            VTK_QUADRATIC_TETRA
        };
        assert(0 <= ntet * nnode <= 0xFFFF_FFFF_FFFF_FFFF * 10) by (nonlinear_arith)
            requires
                0 <= ntet <= 0xFFFF_FFFF_FFFF_FFFF,
                0 <= nnode <= 10,
        ;
        assert(0 <= nface * 3 <= 0xFFFF_FFFF_FFFF_FFFF * 3) by (nonlinear_arith)
            requires
                0 <= nface <= 0xFFFF_FFFF_FFFF_FFFF,
        ;
        let ghost base = buffer@;
        buffer.append(VTU_CONNECTIVITY);
        let ghost mut text = VTU_CONNECTIVITY@;
        assert(buffer@ =~= base + text);
        self.push_connectivity(buffer);
        proof {
            assert(buffer@ =~= base + (text + self@.mesh.connectivity_text(ntet as nat)));
            text = text + self@.mesh.connectivity_text(ntet as nat);
        }
        self.push_face_keys(buffer);
        proof {
            assert(buffer@ =~= base + (text + face_keys_text(self@.marked_faces, nface as nat)));
            text = text + face_keys_text(self@.marked_faces, nface as nat);
        }
        buffer.append(VTU_OFFSETS);
        proof {
            assert(buffer@ =~= base + (text + VTU_OFFSETS@));
            text = text + VTU_OFFSETS@;
        }
        push_totals(buffer, 0, nnode, ntet);
        proof {
            assert(buffer@ =~= base + (text + totals(0, nnode as nat, ntet as nat)));
            text = text + totals(0, nnode as nat, ntet as nat);
        }
        push_totals(buffer, ntet as u128 * nnode as u128, 3, nface);
        proof {
            assert(buffer@ =~= base + (text + totals((ntet * nnode) as nat, 3, nface as nat)));
            text = text + totals((ntet * nnode) as nat, 3, nface as nat);
        }
        buffer.append(VTU_TYPES);
        proof {
            assert(buffer@ =~= base + (text + VTU_TYPES@));
            text = text + VTU_TYPES@;
        }
        push_repeated(buffer, vtk_type, ntet);
        proof {
            assert(buffer@ =~= base + (text + repeated(vtk_type as nat, ntet as nat)));
            text = text + repeated(vtk_type as nat, ntet as nat);
        }
        push_repeated(buffer, VTK_TRIANGLE, nface);
        proof {
            assert(buffer@ =~= base + (text + repeated(VTK_TRIANGLE as nat, nface as nat)));
            text = text + repeated(VTK_TRIANGLE as nat, nface as nat);
        }
        buffer.append(VTU_CELLS_END);
        proof {
            assert(buffer@ =~= base + (text + VTU_CELLS_END@));
            text = text + VTU_CELLS_END@;
        }
        assert(text == self@.cells_text());
    }

    /// Appends the part of the document on the data.
    pub fn push_data(&self, buffer: &mut String)
        ensures
            final(buffer)@ == old(buffer)@ + self@.data_text(),
    {
        let ghost base = buffer@;
        buffer.append(VTU_POINT_DATA);
        let ghost mut text = VTU_POINT_DATA@;
        assert(buffer@ =~= base + text);
        self.push_point_markers(buffer);
        proof {
            assert(buffer@ =~= base + (text + self@.mesh.point_markers_text(self@.mesh.points.len())));
            text = text + self@.mesh.point_markers_text(self@.mesh.points.len());
        }
        buffer.append(VTU_CELL_DATA);
        proof {
            assert(buffer@ =~= base + (text + VTU_CELL_DATA@));
            text = text + VTU_CELL_DATA@;
        }
        self.push_attributes(buffer);
        proof {
            assert(buffer@ =~= base + (text + self@.mesh.attributes_text(self@.mesh.cells.len())));
            text = text + self@.mesh.attributes_text(self@.mesh.cells.len());
        }
        self.push_face_markers(buffer);
        proof {
            assert(buffer@ =~= base + (text + face_markers_text(self@.marked_faces, self@.marked_faces.len())));
            text = text + face_markers_text(self@.marked_faces, self@.marked_faces.len());
        }
        buffer.append(VTU_CELL_DATA_END);
        proof {
            assert(buffer@ =~= base + (text + VTU_CELL_DATA_END@));
            text = text + VTU_CELL_DATA_END@;
        }
        assert(text == self@.data_text());
    }

    /// Writes the document that shows the mesh in Paraview, at the end of
    /// `buffer`.
    ///
    /// # Input
    ///
    /// * `coordinates` -- the text of each coordinate, as the document is to
    ///   show it: x, y and z of the first point, then of the second, and so on
    /// * `buffer` -- receives the document
    pub fn write_vtu(&self, coordinates: &Vec<String>, buffer: &mut String) -> (res: Result<
        (),
        Error,
    >)
        requires
            self@.mesh.cell_npoint <= 10,
        ensures
            self@.mesh.cells.len() < 1 ==> res == Err::<(), Error>(Error::NoTetrahedra),
            self@.mesh.cells.len() >= 1 && coordinates.len() != 3 * self@.mesh.points.len() ==> res
                == Err::<(), Error>(Error::CoordinateCount),
            self@.mesh.cells.len() >= 1 && coordinates.len() == 3 * self@.mesh.points.len()
                ==> res is Ok,
            res is Err ==> final(buffer)@ == old(buffer)@,
            res is Ok ==> final(buffer)@ == old(buffer)@ + self@.vtu(coordinates@),
    {
        let ntet = self.out_ncell();
        if ntet < 1 {
            return Err(Error::NoTetrahedra);
        }
        let npoint = self.out_npoint();
        if coordinates.len() % 3 != 0 || coordinates.len() / 3 != npoint {
            return Err(Error::CoordinateCount);
        }
        let nface = self.out_n_marked_face();
        push_head(buffer, npoint, ntet as u128 + nface as u128);
        push_spatial_points(buffer, coordinates, npoint);
        self.push_cells(buffer);
        self.push_data(buffer);
        buffer.append(VTU_TAIL);
        assert(buffer@ =~= old(buffer)@ + self@.vtu(coordinates@));
        Ok(())
    }
}

} // verus!
