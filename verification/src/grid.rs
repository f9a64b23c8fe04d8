//! Coordinates on the die: dies, columns, rows, cells, bels and edge IOs.
use vstd::prelude::*;
use vstd::string::*;
use crate::text::{decimal, push_decimal};

verus! {

/// A die of a (possibly multi-die) device.
#[derive(Clone, Copy, Debug, PartialEq, Eq, Structural, Hash, PartialOrd, Ord)]
pub struct DieId(pub usize);

/// A column of the interconnect grid, counted from the west edge.
#[derive(Clone, Copy, Debug, PartialEq, Eq, Structural, Hash, PartialOrd, Ord)]
pub struct ColId(pub usize);

/// A row of the interconnect grid, counted from the south edge.
#[derive(Clone, Copy, Debug, PartialEq, Eq, Structural, Hash, PartialOrd, Ord)]
pub struct RowId(pub usize);

/// A cell of a die of a device.
pub type DieCell = (DieId, ColId, RowId);

/// The cell `(col, row)` of die `die`.
pub open spec fn die_cell(die: int, col: int, row: int) -> DieCell {
    (DieId(die as usize), ColId(col as usize), RowId(row as usize))
}

/// The index of an IO buffer within its tile.
#[derive(Clone, Copy, Debug, PartialEq, Eq, Structural, Hash, PartialOrd, Ord)]
pub struct TileIobId(pub usize);

/// A horizontal direction.
#[derive(Clone, Copy, Debug, PartialEq, Eq, Structural, Hash, PartialOrd, Ord)]
pub enum DirH {
    W,
    E,
}

/// A vertical direction.
#[derive(Clone, Copy, Debug, PartialEq, Eq, Structural, Hash, PartialOrd, Ord)]
pub enum DirV {
    S,
    N,
}

/// A corner direction: a horizontal and a vertical half.
#[derive(Clone, Copy, Debug, PartialEq, Eq, Structural, Hash)]
pub struct DirHV {
    pub h: DirH,
    pub v: DirV,
}

/// An IO on one of the four edges of a single-die device.  Along the north
/// and south edges it is located by column, along the east and west edges
/// by row.
#[derive(Clone, Copy, Debug, PartialEq, Eq, Structural, Hash)]
pub enum EdgeIoCoord {
    N(ColId, TileIobId),
    E(RowId, TileIobId),
    S(ColId, TileIobId),
    W(RowId, TileIobId),
}

/// A rectangle of cells: columns `col_w .. col_e` and rows `row_s .. row_n`,
/// each range including its start and excluding its end.
#[derive(Clone, Copy, Debug, PartialEq, Eq, Structural, Hash)]
pub struct Rect {
    pub col_w: ColId,
    pub col_e: ColId,
    pub row_s: RowId,
    pub row_n: RowId,
}

impl Rect {
    pub open spec fn spec_contains(self, col: ColId, row: RowId) -> bool {
        self.col_w.0 <= col.0 < self.col_e.0 && self.row_s.0 <= row.0 < self.row_n.0
    }

    /// Whether the cell `(col, row)` lies within the rectangle.
    pub fn contains(&self, col: ColId, row: RowId) -> (r: bool)
        ensures
            r == self.spec_contains(col, row),
    {
        self.col_w.0 <= col.0 && col.0 < self.col_e.0 && self.row_s.0 <= row.0 && row.0 < self.row_n.0
    }
}

/// The printed name of a `DieId`: `D` and the decimal index.
pub open spec fn die_name(x: DieId) -> Seq<char> {
    "D"@ + decimal(x.0 as nat)
}

/// Appends the printed name of a `DieId`.
pub fn push_die_name(s: &mut String, x: DieId)
    ensures
        final(s)@ == old(s)@ + die_name(x),
{
    s.append("D");
    push_decimal(s, x.0 as u64);
    assert(s@ =~= old(s)@ + die_name(x));
}

/// The printed name of a `ColId`: `X` and the decimal index.
pub open spec fn col_name(x: ColId) -> Seq<char> {
    "X"@ + decimal(x.0 as nat)
}

/// Appends the printed name of a `ColId`.
pub fn push_col_name(s: &mut String, x: ColId)
    ensures
        final(s)@ == old(s)@ + col_name(x),
{
    s.append("X");
    push_decimal(s, x.0 as u64);
    assert(s@ =~= old(s)@ + col_name(x));
}

/// The printed name of a `RowId`: `Y` and the decimal index.
pub open spec fn row_name(x: RowId) -> Seq<char> {
    "Y"@ + decimal(x.0 as nat)
}

/// Appends the printed name of a `RowId`.
pub fn push_row_name(s: &mut String, x: RowId)
    ensures
        final(s)@ == old(s)@ + row_name(x),
{
    s.append("Y");
    push_decimal(s, x.0 as u64);
    assert(s@ =~= old(s)@ + row_name(x));
}

/// The printed name of an edge IO: `IOB_`, the edge letter, the column or
/// row index, `_` and the IO index within the tile.
pub open spec fn edge_io_name(io: EdgeIoCoord) -> Seq<char> {
    match io {
        EdgeIoCoord::N(c, i) => "IOB_N"@ + decimal(c.0 as nat) + "_"@ + decimal(i.0 as nat),
        EdgeIoCoord::E(r, i) => "IOB_E"@ + decimal(r.0 as nat) + "_"@ + decimal(i.0 as nat),
        EdgeIoCoord::S(c, i) => "IOB_S"@ + decimal(c.0 as nat) + "_"@ + decimal(i.0 as nat),
        EdgeIoCoord::W(r, i) => "IOB_W"@ + decimal(r.0 as nat) + "_"@ + decimal(i.0 as nat),
    }
}

/// Appends the printed name of an edge IO.
pub fn push_edge_io_name(s: &mut String, io: EdgeIoCoord)
    ensures
        final(s)@ == old(s)@ + edge_io_name(io),
{
    let (pre, pos, iob) = match io {
        EdgeIoCoord::N(c, i) => ("IOB_N", c.0, i.0),
        EdgeIoCoord::E(r, i) => ("IOB_E", r.0, i.0),
        EdgeIoCoord::S(c, i) => ("IOB_S", c.0, i.0),
        EdgeIoCoord::W(r, i) => ("IOB_W", r.0, i.0),
    };
    s.append(pre);
    push_decimal(s, pos as u64);
    s.append("_");
    push_decimal(s, iob as u64);
    assert(s@ =~= old(s)@ + edge_io_name(io));
}

impl EdgeIoCoord {
    /// The printed name.
    pub fn to_string(&self) -> (r: String)
        ensures
            r@ == edge_io_name(*self),
    {
        let mut s = String::new();
        push_edge_io_name(&mut s, *self);
        s
    }
}

/// The printed name of a horizontal direction.
pub open spec fn dir_h_name(d: DirH) -> Seq<char> {
    match d {
        DirH::W => "W"@,
        DirH::E => "E"@,
    }
}

/// Appends the printed name of a horizontal direction.
pub fn push_dir_h_name(s: &mut String, d: DirH)
    ensures
        final(s)@ == old(s)@ + dir_h_name(d),
{
    match d {
        DirH::W => {
            s.append("W");
        },
        DirH::E => {
            s.append("E");
        },
    }
}

/// The printed names of a list of columns, separated by `, `.
pub open spec fn join_col_names(v: Seq<ColId>) -> Seq<char>
    decreases v.len(),
{
    if v.len() == 0 {
        Seq::empty()
    } else if v.len() == 1 {
        col_name(v[0])
    } else {
        join_col_names(v.drop_last()) + ", "@ + col_name(v.last())
    }
}

/// Appends the printed names of a list of columns, separated by `, `.
pub fn push_join_col_names(s: &mut String, v: &Vec<ColId>)
    ensures
        final(s)@ == old(s)@ + join_col_names(v@),
{
    let mut i: usize = 0;
    while i < v.len()
        invariant
            i <= v@.len(),
            s@ == old(s)@ + join_col_names(v@.take(i as int)),
        decreases v.len() - i,
    {
        if i > 0 {
            s.append(", ");
        }
        push_col_name(s, v[i]);
        i = i + 1;
        assert(v@.take(i as int).drop_last() =~= v@.take(i - 1));
        assert(s@ =~= old(s)@ + join_col_names(v@.take(i as int)));
    }
    assert(v@.take(v@.len() as int) =~= v@);
}

/// The printed names of a list of rows, separated by `, `.
pub open spec fn join_row_names(v: Seq<RowId>) -> Seq<char>
    decreases v.len(),
{
    if v.len() == 0 {
        Seq::empty()
    } else if v.len() == 1 {
        row_name(v[0])
    } else {
        join_row_names(v.drop_last()) + ", "@ + row_name(v.last())
    }
}

/// Appends the printed names of a list of rows, separated by `, `.
pub fn push_join_row_names(s: &mut String, v: &Vec<RowId>)
    ensures
        final(s)@ == old(s)@ + join_row_names(v@),
{
    let mut i: usize = 0;
    while i < v.len()
        invariant
            i <= v@.len(),
            s@ == old(s)@ + join_row_names(v@.take(i as int)),
        decreases v.len() - i,
    {
        if i > 0 {
            s.append(", ");
        }
        push_row_name(s, v[i]);
        i = i + 1;
        assert(v@.take(i as int).drop_last() =~= v@.take(i - 1));
        assert(s@ =~= old(s)@ + join_row_names(v@.take(i as int)));
    }
    assert(v@.take(v@.len() as int) =~= v@);
}

/// The printed names of a list of edge IOs, separated by `, `.
pub open spec fn join_edge_io_names(v: Seq<EdgeIoCoord>) -> Seq<char>
    decreases v.len(),
{
    if v.len() == 0 {
        Seq::empty()
    } else if v.len() == 1 {
        edge_io_name(v[0])
    } else {
        join_edge_io_names(v.drop_last()) + ", "@ + edge_io_name(v.last())
    }
}

/// Appends the printed names of a list of edge IOs, separated by `, `.
pub fn push_join_edge_io_names(s: &mut String, v: &Vec<EdgeIoCoord>)
    ensures
        final(s)@ == old(s)@ + join_edge_io_names(v@),
{
    let mut i: usize = 0;
    while i < v.len()
        invariant
            i <= v@.len(),
            s@ == old(s)@ + join_edge_io_names(v@.take(i as int)),
        decreases v.len() - i,
    {
        if i > 0 {
            s.append(", ");
        }
        push_edge_io_name(s, v[i]);
        i = i + 1;
        assert(v@.take(i as int).drop_last() =~= v@.take(i - 1));
        assert(s@ =~= old(s)@ + join_edge_io_names(v@.take(i as int)));
    }
    assert(v@.take(v@.len() as int) =~= v@);
}

} // verus!
