//! The fixed pieces of an unstructured-grid document and the blocks of
//! numbers between them.

use crate::text::decimal;
use crate::text::push_decimal;
use crate::text::push_token;
use crate::text::token;
use vstd::prelude::*;
use vstd::string::StringExecFns;

verus! {

pub const VTU_HEAD: &'static str =
    "<?xml version=\"1.0\"?>\n<VTKFile type=\"UnstructuredGrid\" version=\"0.1\" byte_order=\"LittleEndian\">\n<UnstructuredGrid>\n<Piece NumberOfPoints=\"";

pub const VTU_NCELL: &'static str = "\" NumberOfCells=\"";

pub const VTU_POINTS: &'static str =
    "\">\n<Points>\n<DataArray type=\"Float64\" NumberOfComponents=\"3\" format=\"ascii\">\n";

pub const VTU_CONNECTIVITY: &'static str =
    "\n</DataArray>\n</Points>\n<Cells>\n<DataArray type=\"Int32\" Name=\"connectivity\" format=\"ascii\">\n";

pub const VTU_OFFSETS: &'static str =
    "\n</DataArray>\n<DataArray type=\"Int32\" Name=\"offsets\" format=\"ascii\">\n";

pub const VTU_TYPES: &'static str =
    "\n</DataArray>\n<DataArray type=\"UInt8\" Name=\"types\" format=\"ascii\">\n";

pub const VTU_CELLS_END: &'static str = "\n</DataArray>\n</Cells>\n";

pub const VTU_POINT_DATA: &'static str =
    "<PointData Scalars=\"TheScalars\">\n<DataArray type=\"Int32\" Name=\"marker\" NumberOfComponents=\"1\" format=\"ascii\">\n";

pub const VTU_CELL_DATA: &'static str =
    "\n</DataArray>\n</PointData>\n<CellData Scalars=\"TheScalars\">\n<DataArray type=\"Int32\" Name=\"attribute\" NumberOfComponents=\"1\" format=\"ascii\">\n";

pub const VTU_CELL_DATA_END: &'static str = "\n</DataArray>\n</CellData>\n";

pub const VTU_TAIL: &'static str = "</Piece>\n</UnstructuredGrid>\n</VTKFile>\n";

/// The text of `n` copies of one number, each followed by a space.
pub open spec fn repeated(value: nat, n: nat) -> Seq<char>
    decreases n,
{
    if n == 0 {
        Seq::empty()
    } else {
        repeated(value, (n - 1) as nat) + token(value)
    }
}

/// The text of the running totals `start + step`, `start + 2 * step`, up to
/// `start + n * step`, each followed by a space.
pub open spec fn totals(start: nat, step: nat, n: nat) -> Seq<char>
    decreases n,
{
    if n == 0 {
        Seq::empty()
    } else {
        totals(start, step, (n - 1) as nat) + token(start + n * step)
    }
}

/// Appends `n` copies of one number.
pub fn push_repeated(buffer: &mut String, value: usize, n: usize)
    ensures
        final(buffer)@ == old(buffer)@ + repeated(value as nat, n as nat),
{
    let mut i: usize = 0;
    assert(buffer@ =~= old(buffer)@ + repeated(value as nat, 0));
    while i < n
        invariant
            i <= n,
            buffer@ == old(buffer)@ + repeated(value as nat, i as nat),
        decreases n - i,
    {
        let ghost before = buffer@;
        push_token(buffer, value as u128);
        i += 1;
        assert(buffer@ =~= old(buffer)@ + repeated(value as nat, i as nat));
    }
}

/// Appends the running totals of `n` steps from a start.
pub fn push_totals(buffer: &mut String, start: u128, step: usize, n: usize)
    requires
        start + n * step <= u128::MAX,
    ensures
        final(buffer)@ == old(buffer)@ + totals(start as nat, step as nat, n as nat),
{
    let mut i: usize = 0;
    let mut total: u128 = start;
    assert(buffer@ =~= old(buffer)@ + totals(start as nat, step as nat, 0));
    while i < n
        invariant
            i <= n,
            total == start + i * step,
            start + n * step <= u128::MAX,
            buffer@ == old(buffer)@ + totals(start as nat, step as nat, i as nat),
        decreases n - i,
    {
        assert(start + (i + 1) * step <= start + n * step) by (nonlinear_arith)
            requires
                i < n,
        ;
        assert((i + 1) * step == i * step + step) by (nonlinear_arith);
        total = total + step as u128;
        push_token(buffer, total);
        i += 1;
        assert(buffer@ =~= old(buffer)@ + totals(start as nat, step as nat, i as nat));
    }
}

/// The opening of a document for a mesh of `npoint` points and `ncell`
/// cells, up to the start of the coordinates.
pub open spec fn head_text(npoint: nat, ncell: nat) -> Seq<char> {
    VTU_HEAD@ + decimal(npoint) + VTU_NCELL@ + decimal(ncell) + VTU_POINTS@
}

/// Appends the opening of a document.
pub fn push_head(buffer: &mut String, npoint: usize, ncell: u128)
    ensures
        final(buffer)@ == old(buffer)@ + head_text(npoint as nat, ncell as nat),
{
    buffer.append(VTU_HEAD);
    push_decimal(buffer, npoint as u128);
    buffer.append(VTU_NCELL);
    push_decimal(buffer, ncell);
    buffer.append(VTU_POINTS);
    assert(buffer@ =~= old(buffer)@ + head_text(npoint as nat, ncell as nat));
}

} // verus!
