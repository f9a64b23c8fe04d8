//! Tiles of an interconnect grid, as expanding a chip lays them out: each
//! tile's class, the cell it sits on and the cells it reaches.
use vstd::prelude::*;

verus! {

/// A tile of the interconnect grid: its class, the cell `(col, row)` it
/// sits on, and the cells whose interconnect it reaches.
#[derive(Clone, Debug)]
pub struct GridTile {
    pub class: &'static str,
    pub col: usize,
    pub row: usize,
    pub cells: Vec<(usize, usize)>,
}

/// A grid tile as the specifications describe it: class name, column, row
/// and the cells it reaches.
pub type TileView = (Seq<char>, int, int, Seq<(int, int)>);

/// The cells of a tile as integer pairs.
pub open spec fn cells_view(cells: Seq<(usize, usize)>) -> Seq<(int, int)> {
    cells.map_values(|p: (usize, usize)| (p.0 as int, p.1 as int))
}

impl View for GridTile {
    type V = TileView;

    open spec fn view(&self) -> TileView {
        (self.class@, self.col as int, self.row as int, cells_view(self.cells@))
    }
}

/// A tile at `(c, r)` that reaches its own cell only.
pub open spec fn tile1(class: Seq<char>, c: int, r: int) -> TileView {
    (class, c, r, seq![(c, r)])
}

pub(crate) fn mk_tile(class: &'static str, col: usize, row: usize, cells: Vec<(usize, usize)>) -> (t: GridTile)
    ensures
        t@ == (class@, col as int, row as int, cells_view(cells@)),
{
    GridTile { class, col, row, cells }
}

pub(crate) fn mk_tile1(class: &'static str, c: usize, r: usize) -> (t: GridTile)
    ensures
        t@ == tile1(class@, c as int, r as int),
{
    let t = mk_tile(class, c, r, vec![(c, r)]);
    assert(cells_view(seq![(c, r)]) =~= seq![(c as int, r as int)]);
    t
}

pub(crate) fn mk_tile2(class: &'static str, c: usize, r: usize, a: (usize, usize)) -> (t: GridTile)
    ensures
        t@ == (class@, c as int, r as int, seq![(c as int, r as int), (a.0 as int, a.1 as int)]),
{
    let t = mk_tile(class, c, r, vec![(c, r), a]);
    assert(cells_view(seq![(c, r), a]) =~= seq![(c as int, r as int), (a.0 as int, a.1 as int)]);
    t
}

pub(crate) fn mk_tile3(class: &'static str, c: usize, r: usize, a: (usize, usize), b: (usize, usize)) -> (t: GridTile)
    ensures
        t@ == (class@, c as int, r as int, seq![
            (c as int, r as int),
            (a.0 as int, a.1 as int),
            (b.0 as int, b.1 as int),
        ]),
{
    let t = mk_tile(class, c, r, vec![(c, r), a, b]);
    assert(cells_view(seq![(c, r), a, b]) =~= seq![
        (c as int, r as int),
        (a.0 as int, a.1 as int),
        (b.0 as int, b.1 as int),
    ]);
    t
}

pub(crate) fn mk_tile4(class: &'static str, c: usize, r: usize, a: (usize, usize), b: (usize, usize), d: (usize, usize)) -> (t:
    GridTile)
    ensures
        t@ == (class@, c as int, r as int, seq![
            (c as int, r as int),
            (a.0 as int, a.1 as int),
            (b.0 as int, b.1 as int),
            (d.0 as int, d.1 as int),
        ]),
{
    let t = mk_tile(class, c, r, vec![(c, r), a, b, d]);
    assert(cells_view(seq![(c, r), a, b, d]) =~= seq![
        (c as int, r as int),
        (a.0 as int, a.1 as int),
        (b.0 as int, b.1 as int),
        (d.0 as int, d.1 as int),
    ]);
    t
}

/// A break tile at `(c, r)` that reaches the cell `(c0, r0)` before it and
/// its own cell.
pub open spec fn tile_brk(class: Seq<char>, c: int, r: int, c0: int, r0: int) -> TileView {
    (class, c, r, seq![(c0, r0), (c, r)])
}

pub(crate) fn mk_tile_brk(class: &'static str, c: usize, r: usize, c0: usize, r0: usize) -> (t: GridTile)
    ensures
        t@ == tile_brk(class@, c as int, r as int, c0 as int, r0 as int),
{
    let t = mk_tile(class, c, r, vec![(c0, r0), (c, r)]);
    assert(cells_view(seq![(c0, r0), (c, r)]) =~= seq![(c0 as int, r0 as int), (c as int, r as int)]);
    t
}

/// The views of a list of tiles.
pub open spec fn tiles_view(v: Seq<GridTile>) -> Seq<TileView> {
    v.map_values(|t: GridTile| t@)
}

pub proof fn lemma_tiles_view_push(v: Seq<GridTile>, t: GridTile)
    ensures
        tiles_view(v.push(t)) == tiles_view(v).push(t@),
{
    assert(tiles_view(v.push(t)) =~= tiles_view(v).push(t@));
}

/// A tile with no cells of its own to reach: a clock or buffer tile that
/// sits on a cell beside the tiles there.
pub open spec fn tile0(class: Seq<char>, c: int, r: int) -> TileView {
    (class, c, r, Seq::empty())
}

pub(crate) fn mk_tile0(class: &'static str, c: usize, r: usize) -> (t: GridTile)
    ensures
        t@ == tile0(class@, c as int, r as int),
{
    let t = mk_tile(class, c, r, Vec::new());
    assert(cells_view(Seq::<(usize, usize)>::empty()) =~= Seq::<(int, int)>::empty());
    t
}

/// Appends a tile.
pub(crate) fn push_tile(out: &mut Vec<GridTile>, t: GridTile)
    ensures
        tiles_view(final(out)@) == tiles_view(old(out)@).push(t@),
{
    let ghost o0 = out@;
    out.push(t);
    proof {
        lemma_tiles_view_push(o0, t);
    }
}

/// A tile that reaches the cells from `s` below its own to `n` above it,
/// as the grid builder lays out such a span.
#[derive(Clone, Copy, Debug)]
pub struct SpanTile {
    pub class: &'static str,
    pub col: usize,
    pub row: usize,
    pub south: usize,
    pub north: usize,
}

/// A span tile as the specifications describe it: class, column, row, and
/// the reach south and north.
pub type SpanView = (Seq<char>, int, int, int, int);

impl View for SpanTile {
    type V = SpanView;

    open spec fn view(&self) -> SpanView {
        (self.class@, self.col as int, self.row as int, self.south as int, self.north as int)
    }
}

pub open spec fn spans_view(v: Seq<SpanTile>) -> Seq<SpanView> {
    v.map_values(|t: SpanTile| t@)
}

/// Appends a span tile.
pub(crate) fn push_span(out: &mut Vec<SpanTile>, class: &'static str, col: usize, row: usize, south: usize, north: usize)
    ensures
        spans_view(final(out)@) == spans_view(old(out)@).push(
            (class@, col as int, row as int, south as int, north as int),
        ),
{
    let ghost o0 = out@;
    let t = SpanTile { class, col, row, south, north };
    out.push(t);
    assert(spans_view(out@) =~= spans_view(o0).push(t@));
}

/// A connector that ends the wires at an edge of a cell.
#[derive(Clone, Copy, Debug)]
pub struct GridTerm {
    pub class: &'static str,
    pub col: usize,
    pub row: usize,
}

/// A terminator as the specifications describe it: class, column and row.
pub type TermView = (Seq<char>, int, int);

impl View for GridTerm {
    type V = TermView;

    open spec fn view(&self) -> TermView {
        (self.class@, self.col as int, self.row as int)
    }
}

pub open spec fn terms_view(v: Seq<GridTerm>) -> Seq<TermView> {
    v.map_values(|t: GridTerm| t@)
}

/// Appends a terminator.
pub(crate) fn push_term(out: &mut Vec<GridTerm>, class: &'static str, col: usize, row: usize)
    ensures
        terms_view(final(out)@) == terms_view(old(out)@).push((class@, col as int, row as int)),
{
    let ghost o0 = out@;
    let t = GridTerm { class, col, row };
    out.push(t);
    assert(terms_view(out@) =~= terms_view(o0).push(t@));
}

/// A connection between the wires of two cells: the connector on the side
/// of the first cell and the one on the side of the second.
#[derive(Clone, Copy, Debug)]
pub struct GridConn {
    pub col_a: usize,
    pub row_a: usize,
    pub class_a: &'static str,
    pub col_b: usize,
    pub row_b: usize,
    pub class_b: &'static str,
}

/// A connection as the specifications describe it: the first cell and its
/// connector, the second cell and its connector.
pub type ConnView = (int, int, Seq<char>, int, int, Seq<char>);

impl View for GridConn {
    type V = ConnView;

    open spec fn view(&self) -> ConnView {
        (self.col_a as int, self.row_a as int, self.class_a@, self.col_b as int, self.row_b as int, self.class_b@)
    }
}

pub open spec fn conns_view(v: Seq<GridConn>) -> Seq<ConnView> {
    v.map_values(|t: GridConn| t@)
}

/// Appends a connection.
pub(crate) fn push_conn(
    out: &mut Vec<GridConn>,
    col_a: usize,
    row_a: usize,
    class_a: &'static str,
    col_b: usize,
    row_b: usize,
    class_b: &'static str,
)
    ensures
        conns_view(final(out)@) == conns_view(old(out)@).push(
            (col_a as int, row_a as int, class_a@, col_b as int, row_b as int, class_b@),
        ),
{
    let ghost o0 = out@;
    let t = GridConn { col_a, row_a, class_a, col_b, row_b, class_b };
    out.push(t);
    assert(conns_view(out@) =~= conns_view(o0).push(t@));
}

} // verus!
