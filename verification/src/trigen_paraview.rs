//! Export of a planar mesh as an unstructured-grid document.

use crate::constants::VTK_QUADRATIC_TRIANGLE;
use crate::constants::VTK_TRIANGLE;
use crate::error::Error;
use crate::text::push_token;
use crate::text::token;
use crate::trigen::TriangleMeshView;
use crate::trigen::Trigen;
use crate::vtu::head_text;
use crate::vtu::push_head;
use crate::vtu::push_repeated;
use crate::vtu::push_totals;
use crate::vtu::repeated;
use crate::vtu::totals;
use crate::vtu::VTU_CELLS_END;
use crate::vtu::VTU_CONNECTIVITY;
use crate::vtu::VTU_OFFSETS;
use crate::vtu::VTU_TAIL;
use crate::vtu::VTU_TYPES;
use vstd::prelude::*;
use vstd::string::StringExecFns;

verus! {

/// The coordinates of the first `n` points of a planar mesh: for each point
/// the texts of x and y and a zero for z, each followed by a space.
pub open spec fn planar_points_text(coordinates: Seq<String>, n: nat) -> Seq<char>
    decreases n,
{
    if n == 0 {
        Seq::empty()
    } else {
        planar_points_text(coordinates, (n - 1) as nat) + coordinates[2 * (n - 1)]@ + seq![' ']
            + coordinates[2 * (n - 1) + 1]@ + seq![' ', '0', ' ']
    }
}

/// The cell-type code of a triangle with `nnode` nodes.
pub open spec fn triangle_type(nnode: nat) -> nat {
    if nnode == 3 {
        VTK_TRIANGLE as nat
    } else {
        VTK_QUADRATIC_TRIANGLE as nat
    }
}

impl TriangleMeshView {
    /// The ids of the first `m` nodes of a triangle, in this library's node
    /// order, each followed by a space.
    pub open spec fn nodes_text(self, index: int, m: nat) -> Seq<char>
        decreases m,
    {
        if m == 0 {
            Seq::empty()
        } else {
            self.nodes_text(index, (m - 1) as nat) + token(self.cell_point(index, m - 1) as nat)
        }
    }

    /// The ids of the nodes of the first `n` triangles.
    pub open spec fn connectivity_text(self, n: nat) -> Seq<char>
        decreases n,
    {
        if n == 0 {
            Seq::empty()
        } else {
            self.connectivity_text((n - 1) as nat) + self.nodes_text(n - 1, self.cell_npoint)
        }
    }

    /// The document that shows the mesh, with the coordinates written as
    /// the given texts (x and y of the first point, x and y of the second,
    /// and so on).
    pub open spec fn vtu(self, coordinates: Seq<String>) -> Seq<char> {
        head_text(self.points.len(), self.cells.len()) + planar_points_text(
            coordinates,
            self.points.len(),
        ) + self.cells_text() + VTU_TAIL@
    }

    /// The part of the document on the cells: the ids of the nodes of the
    /// triangles, where each triangle ends, and the type of each triangle.
    pub open spec fn cells_text(self) -> Seq<char> {
        VTU_CONNECTIVITY@ + self.connectivity_text(self.cells.len()) + VTU_OFFSETS@ + totals(
            0,
            self.cell_npoint,
            self.cells.len(),
        ) + VTU_TYPES@ + repeated(triangle_type(self.cell_npoint), self.cells.len())
            + VTU_CELLS_END@
    }
}

/// Appends the coordinates of `npoint` points of a planar mesh.
fn push_planar_points(buffer: &mut String, coordinates: &Vec<String>, npoint: usize)
    requires
        coordinates.len() == 2 * npoint,
    ensures
        final(buffer)@ == old(buffer)@ + planar_points_text(coordinates@, npoint as nat),
{
    let mut i: usize = 0;
    assert(buffer@ =~= old(buffer)@ + planar_points_text(coordinates@, 0));
    while i < npoint
        invariant
            i <= npoint,
            coordinates.len() == 2 * npoint,
            buffer@ == old(buffer)@ + planar_points_text(coordinates@, i as nat),
        decreases npoint - i,
    {
        buffer.append(coordinates[2 * i].as_str());
        buffer.append(" ");
        buffer.append(coordinates[2 * i + 1].as_str());
        buffer.append(" 0 ");
        proof {
            reveal_strlit(" ");
            reveal_strlit(" 0 ");
            assert(" 0 "@ =~= seq![' ', '0', ' ']);
            assert(" "@ =~= seq![' ']);
        }
        i += 1;
        assert(buffer@ =~= old(buffer)@ + planar_points_text(coordinates@, i as nat));
    }
}

impl Trigen {
    /// Appends the ids of the nodes of every triangle.
    pub fn push_connectivity(&self, buffer: &mut String)
        ensures
            final(buffer)@ == old(buffer)@ + self@.mesh.connectivity_text(self@.mesh.cells.len()),
    {
        let ncell = self.out_ncell();
        let nnode = self.out_cell_npoint();
        let mut index: usize = 0;
        assert(buffer@ =~= old(buffer)@ + self@.mesh.connectivity_text(0));
        while index < ncell
            invariant
                index <= ncell,
                ncell == self@.mesh.cells.len(),
                nnode == self@.mesh.cell_npoint,
                buffer@ == old(buffer)@ + self@.mesh.connectivity_text(index as nat),
            decreases ncell - index,
        {
            let ghost start = buffer@;
            let mut m: usize = 0;
            assert(buffer@ =~= start + self@.mesh.nodes_text(index as int, 0));
            while m < nnode
                invariant
                    m <= nnode,
                    buffer@ == start + self@.mesh.nodes_text(index as int, m as nat),
                decreases nnode - m,
            {
                push_token(buffer, self.out_cell_point(index, m) as u128);
                m += 1;
                assert(buffer@ =~= start + self@.mesh.nodes_text(index as int, m as nat));
            }
            index += 1;
            assert(buffer@ =~= old(buffer)@ + self@.mesh.connectivity_text(index as nat));
        }
    }

    /// Appends the part of the document on the cells.
    pub fn push_cells(&self, buffer: &mut String)
        requires
            self@.mesh.cell_npoint <= 6,
        ensures
            final(buffer)@ == old(buffer)@ + self@.mesh.cells_text(),
    {
        let ntriangle = self.out_ncell();
        let nnode = self.out_cell_npoint();
        let vtk_type = if nnode == 3 {
            VTK_TRIANGLE
        } else {
            VTK_QUADRATIC_TRIANGLE
        };
        assert(0 <= ntriangle * nnode <= 0xFFFF_FFFF_FFFF_FFFF * 6) by (nonlinear_arith)
            requires
                0 <= ntriangle <= 0xFFFF_FFFF_FFFF_FFFF,
                0 <= nnode <= 6,
        ;
        let ghost base = buffer@;
        buffer.append(VTU_CONNECTIVITY);
        let ghost mut text = VTU_CONNECTIVITY@;
        assert(buffer@ =~= base + text);
        self.push_connectivity(buffer);
        proof {
            assert(buffer@ =~= base + (text + self@.mesh.connectivity_text(ntriangle as nat)));
            text = text + self@.mesh.connectivity_text(ntriangle as nat);
        }
        buffer.append(VTU_OFFSETS);
        proof {
            assert(buffer@ =~= base + (text + VTU_OFFSETS@));
            text = text + VTU_OFFSETS@;
        }
        push_totals(buffer, 0, nnode, ntriangle);
        proof {
            assert(buffer@ =~= base + (text + totals(0, nnode as nat, ntriangle as nat)));
            text = text + totals(0, nnode as nat, ntriangle as nat);
        }
        buffer.append(VTU_TYPES);
        proof {
            assert(buffer@ =~= base + (text + VTU_TYPES@));
            text = text + VTU_TYPES@;
        }
        push_repeated(buffer, vtk_type, ntriangle);
        proof {
            assert(buffer@ =~= base + (text + repeated(vtk_type as nat, ntriangle as nat)));
            text = text + repeated(vtk_type as nat, ntriangle as nat);
        }
        buffer.append(VTU_CELLS_END);
        proof {
            assert(buffer@ =~= base + (text + VTU_CELLS_END@));
            text = text + VTU_CELLS_END@;
        }
        assert(text == self@.mesh.cells_text());
    }

    /// Writes the document that shows the mesh in Paraview, at the end of
    /// `buffer`.
    ///
    /// # Input
    ///
    /// * `coordinates` -- the text of each coordinate, as the document is to
    ///   show it: x and y of the first point, x and y of the second, and so on
    /// * `buffer` -- receives the document
    pub fn write_vtu(&self, coordinates: &Vec<String>, buffer: &mut String) -> (res: Result<
        (),
        Error,
    >)
        requires
            self@.mesh.cell_npoint <= 6,
        ensures
            self@.mesh.cells.len() < 1 ==> res == Err::<(), Error>(Error::NoTriangles),
            self@.mesh.cells.len() >= 1 && coordinates.len() != 2 * self@.mesh.points.len() ==> res
                == Err::<(), Error>(Error::CoordinateCount),
            self@.mesh.cells.len() >= 1 && coordinates.len() == 2 * self@.mesh.points.len()
                ==> res is Ok,
            res is Err ==> final(buffer)@ == old(buffer)@,
            res is Ok ==> final(buffer)@ == old(buffer)@ + self@.mesh.vtu(coordinates@),
    {
        let ntriangle = self.out_ncell();
        if ntriangle < 1 {
            return Err(Error::NoTriangles);
        }
        let npoint = self.out_npoint();
        if coordinates.len() % 2 != 0 || coordinates.len() / 2 != npoint {
            return Err(Error::CoordinateCount);
        }
        push_head(buffer, npoint, ntriangle as u128);
        push_planar_points(buffer, coordinates, npoint);
        self.push_cells(buffer);
        buffer.append(VTU_TAIL);
        assert(buffer@ =~= old(buffer)@ + self@.mesh.vtu(coordinates@));
        Ok(())
    }
}

} // verus!
