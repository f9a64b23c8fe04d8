//! The interconnect grid of a Virtex 5 die: the tiles that expanding the
//! chip lays out on its cells, its span tiles, the terminators at its edges
//! and around its PowerPC blocks, and its connections.
use vstd::prelude::*;
use crate::grid::{ColId, Rect, RowId};
use crate::seqs::concat_map;
use crate::tile::{
    cells_view, conns_view, mk_tile, mk_tile0, mk_tile1, push_conn, push_span, push_term, push_tile, spans_view,
    terms_view, tile0, tile1, tiles_view, ConnView, GridConn, GridTerm, GridTile, SpanTile, SpanView, TermView,
    TileView,
};
use crate::virtex4::chip::{Chip, ColumnKind, GtKind, RegId};
use crate::virtex4::expanded::{in_some_rect, rects_contain};
use crate::virtex4::grid_v4::{
    block_tiles_with, cell_run, contains_col, push_block_with, site_tile_cell_fn, DieGrid,
};

verus! {

// ---------------------------------------------------------------- interconnect

/// The tiles of a cell's interconnect: none in an interconnect hole;
/// otherwise the interconnect tile, with an interface tile (a delay
/// interface on transceiver columns) outside the site holes of the
/// columns whose sites need one.
pub open spec fn v5_int_cell_fn(chip: Chip, c: int, int_holes: Seq<Rect>, site_holes: Seq<Rect>) -> spec_fn(int) -> Seq<
    TileView,
> {
    |r: int|
        if in_some_rect(int_holes, ColId(c as usize), RowId(r as usize)) {
            Seq::empty()
        } else {
            seq![tile1("INT"@, c, r)] + if in_some_rect(site_holes, ColId(c as usize), RowId(r as usize)) {
                Seq::empty()
            } else {
                match chip.columns@[c] {
                    ColumnKind::Bram | ColumnKind::Dsp | ColumnKind::Io | ColumnKind::Cfg => seq![tile1("INTF"@, c, r)],
                    ColumnKind::Gt => seq![tile1("INTF.DELAY"@, c, r)],
                    _ => Seq::empty(),
                }
            }
        }
}

pub open spec fn v5_int_col_fn(chip: Chip, rows: nat, int_holes: Seq<Rect>, site_holes: Seq<Rect>) -> spec_fn(int) -> Seq<
    TileView,
> {
    |c: int| concat_map(rows, v5_int_cell_fn(chip, c, int_holes, site_holes))
}

/// The interconnect tiles of a Virtex 5 die, column by column.
pub open spec fn v5_int_tiles(chip: Chip, rows: nat, int_holes: Seq<Rect>, site_holes: Seq<Rect>) -> Seq<TileView> {
    concat_map(chip.columns@.len(), v5_int_col_fn(chip, rows, int_holes, site_holes))
}

fn push_v5_int_tiles(tiles: &mut Vec<GridTile>, chip: &Chip, rows: usize, int_holes: &Vec<Rect>, site_holes: &Vec<Rect>)
    ensures
        tiles_view(final(tiles)@) == tiles_view(old(tiles)@) + v5_int_tiles(*chip, rows as nat, int_holes@, site_holes@),
{
    let ghost f = v5_int_col_fn(*chip, rows as nat, int_holes@, site_holes@);
    let mut c: usize = 0;
    while c < chip.columns.len()
        invariant
            c <= chip.columns@.len(),
            f == v5_int_col_fn(*chip, rows as nat, int_holes@, site_holes@),
            tiles_view(tiles@) == tiles_view(old(tiles)@) + concat_map(c as nat, f),
        decreases chip.columns@.len() - c,
    {
        let ghost o0 = tiles_view(tiles@);
        let ghost g = v5_int_cell_fn(*chip, c as int, int_holes@, site_holes@);
        let kind = chip.columns[c];
        let mut r: usize = 0;
        while r < rows
            invariant
                r <= rows,
                c < chip.columns@.len(),
                kind == chip.columns@[c as int],
                g == v5_int_cell_fn(*chip, c as int, int_holes@, site_holes@),
                tiles_view(tiles@) == o0 + concat_map(r as nat, g),
            decreases rows - r,
        {
            let ghost o1 = tiles_view(tiles@);
            if !rects_contain(int_holes, ColId(c), RowId(r)) {
                push_tile(tiles, mk_tile1("INT", c, r));
                if !rects_contain(site_holes, ColId(c), RowId(r)) {
                    match kind {
                        ColumnKind::Bram | ColumnKind::Dsp | ColumnKind::Io | ColumnKind::Cfg => {
                            push_tile(tiles, mk_tile1("INTF", c, r));
                        },
                        ColumnKind::Gt => {
                            push_tile(tiles, mk_tile1("INTF.DELAY", c, r));
                        },
                        _ => {},
                    }
                }
            }
            assert(tiles_view(tiles@) =~= o1 + g(r as int));
            r = r + 1;
        }
        assert(tiles_view(tiles@) =~= o0 + f(c as int));
        c = c + 1;
    }
}

// ---------------------------------------------------------------- PowerPC blocks

/// The cells of a Virtex 5 PowerPC block at `(bc, br)`: its west column
/// and the column thirteen east of it, forty cells each.
pub open spec fn v5_ppc_cells(bc: int, br: int) -> Seq<(int, int)> {
    cell_run(bc, br, 40) + cell_run(bc + 13, br, 40)
}

/// The tiles of a Virtex 5 PowerPC block: a delay interface tile on each
/// of its cells, then the block's tile.
pub open spec fn v5_ppc_tiles(bc: int, br: int) -> Seq<TileView> {
    v5_ppc_cells(bc, br).map_values(|p: (int, int)| tile1("INTF.DELAY"@, p.0, p.1)).push(
        ("PPC"@, bc, br, v5_ppc_cells(bc, br)),
    )
}

/// The connections across a Virtex 5 PowerPC block, one on each of its rows.
pub open spec fn v5_ppc_conns(bc: int, br: int) -> Seq<ConnView> {
    Seq::new(40, |i: int| (bc, br + i, "PPC.E"@, bc + 13, br + i, "PPC.W"@))
}

/// The terminators around a Virtex 5 PowerPC block: below and above each
/// of its twelve inner columns.
pub open spec fn v5_ppc_terms(bc: int, br: int) -> Seq<TermView> {
    Seq::new(24, |i: int| if i % 2 == 0 {
        ("TERM.N.PPC"@, bc + 1 + i / 2, br - 1)
    } else {
        ("TERM.S.PPC"@, bc + 1 + i / 2, br + 40)
    })
}

pub open spec fn v5_ppc_tiles_fn(chip: Chip) -> spec_fn(int) -> Seq<TileView> {
    |k: int| v5_ppc_tiles(chip.holes_ppc@[k].0.0 as int, chip.holes_ppc@[k].1.0 as int)
}

pub open spec fn v5_ppc_conns_fn(chip: Chip) -> spec_fn(int) -> Seq<ConnView> {
    |k: int| v5_ppc_conns(chip.holes_ppc@[k].0.0 as int, chip.holes_ppc@[k].1.0 as int)
}

pub open spec fn v5_ppc_terms_fn(chip: Chip) -> spec_fn(int) -> Seq<TermView> {
    |k: int| v5_ppc_terms(chip.holes_ppc@[k].0.0 as int, chip.holes_ppc@[k].1.0 as int)
}

fn push_v5_ppc(
    tiles: &mut Vec<GridTile>,
    terms: &mut Vec<GridTerm>,
    conns: &mut Vec<GridConn>,
    bc: usize,
    br: usize,
)
    requires
        bc + 14 <= usize::MAX,
        br + 41 <= usize::MAX,
        br >= 1,
    ensures
        tiles_view(final(tiles)@) == tiles_view(old(tiles)@) + v5_ppc_tiles(bc as int, br as int),
        terms_view(final(terms)@) == terms_view(old(terms)@) + v5_ppc_terms(bc as int, br as int),
        conns_view(final(conns)@) == conns_view(old(conns)@) + v5_ppc_conns(bc as int, br as int),
{
    let mut i: usize = 0;
    while i < 40
        invariant
            i <= 40,
            bc + 14 <= usize::MAX,
            br + 41 <= usize::MAX,
            conns_view(conns@) == conns_view(old(conns)@) + v5_ppc_conns(bc as int, br as int).take(i as int),
        decreases 40 - i,
    {
        push_conn(conns, bc, br + i, "PPC.E", bc + 13, br + i, "PPC.W");
        i = i + 1;
        assert(conns_view(conns@) =~= conns_view(old(conns)@) + v5_ppc_conns(bc as int, br as int).take(i as int));
    }
    assert(v5_ppc_conns(bc as int, br as int).take(40) =~= v5_ppc_conns(bc as int, br as int));
    let mut dx: usize = 1;
    while dx < 13
        invariant
            1 <= dx <= 13,
            bc + 14 <= usize::MAX,
            br + 41 <= usize::MAX,
            br >= 1,
            terms_view(terms@) == terms_view(old(terms)@) + v5_ppc_terms(bc as int, br as int).take(
                2 * (dx - 1),
            ),
        decreases 13 - dx,
    {
        push_term(terms, "TERM.N.PPC", bc + dx, br - 1);
        push_term(terms, "TERM.S.PPC", bc + dx, br + 40);
        dx = dx + 1;
        assert(terms_view(terms@) =~= terms_view(old(terms)@) + v5_ppc_terms(bc as int, br as int).take(
            2 * (dx - 1),
        ));
    }
    assert(v5_ppc_terms(bc as int, br as int).take(24) =~= v5_ppc_terms(bc as int, br as int));
    let mut cells: Vec<(usize, usize)> = Vec::new();
    let mut i: usize = 0;
    while i < 80
        invariant
            i <= 80,
            bc + 14 <= usize::MAX,
            br + 41 <= usize::MAX,
            cells_view(cells@) == v5_ppc_cells(bc as int, br as int).take(i as int),
            tiles_view(tiles@) == tiles_view(old(tiles)@) + v5_ppc_cells(bc as int, br as int).take(
                i as int,
            ).map_values(|p: (int, int)| tile1("INTF.DELAY"@, p.0, p.1)),
        decreases 80 - i,
    {
        let cell = if i < 40 { (bc, br + i) } else { (bc + 13, br + (i - 40)) };
        push_tile(tiles, mk_tile1("INTF.DELAY", cell.0, cell.1));
        let ghost c0 = cells@;
        cells.push(cell);
        i = i + 1;
        assert(cells_view(cells@) =~= v5_ppc_cells(bc as int, br as int).take(i as int));
        assert(tiles_view(tiles@) =~= tiles_view(old(tiles)@) + v5_ppc_cells(bc as int, br as int).take(
            i as int,
        ).map_values(|p: (int, int)| tile1("INTF.DELAY"@, p.0, p.1)));
    }
    assert(v5_ppc_cells(bc as int, br as int).take(80) =~= v5_ppc_cells(bc as int, br as int));
    push_tile(tiles, mk_tile("PPC", bc, br, cells));
    assert(tiles_view(tiles@) =~= tiles_view(old(tiles)@) + v5_ppc_tiles(bc as int, br as int));
}

// ---------------------------------------------------------------- edges and buffers

/// The terminators at the edges of a Virtex 5 die: hole terminators on its
/// bottom and top rows and (but for a transceiver column) its east column,
/// plain ones on its west column.
pub open spec fn v5_edge_terms(chip: Chip, rows: nat) -> Seq<TermView> {
    let cols = chip.columns@.len();
    Seq::new(cols, |c: int| ("TERM.S.HOLE"@, c, 0int)) + Seq::new(cols, |c: int| ("TERM.N.HOLE"@, c, rows - 1))
        + Seq::new(rows, |r: int| ("TERM.W"@, 0int, r)) + Seq::new(
        rows,
        |r: int| (if chip.columns@[cols - 1] is Gt { "TERM.E"@ } else { "TERM.E.HOLE"@ }, cols - 1, r),
    )
}

/// The connections of a Virtex 5 die's top row with the row below it,
/// then across the buffers east of its inner IO and configuration columns.
pub open spec fn v5_edge_conns(chip: Chip, rows: nat) -> Seq<ConnView> {
    let cols = chip.columns@.len();
    Seq::new(cols, |c: int| (c, rows - 2, "MAIN.NHOLE.N"@, c, rows - 1, "MAIN.NHOLE.S"@)) + concat_map(
        cols,
        int_bufs_col_fn(chip, rows),
    )
}

pub open spec fn int_bufs_col_fn(chip: Chip, rows: nat) -> spec_fn(int) -> Seq<ConnView> {
    |c: int|
        if (chip.columns@[c] is Io || chip.columns@[c] is Cfg) && c != 0 && c != chip.columns@.len() - 1 {
            Seq::new(rows, |r: int| (c, r, "INT_BUFS.E"@, c + 1, r, "INT_BUFS.W"@))
        } else {
            Seq::empty()
        }
}

fn push_v5_edges(terms: &mut Vec<GridTerm>, conns: &mut Vec<GridConn>, chip: &Chip, rows: usize)
    requires
        chip.columns@.len() >= 1,
        rows >= 2,
    ensures
        terms_view(final(terms)@) == terms_view(old(terms)@) + v5_edge_terms(*chip, rows as nat),
        conns_view(final(conns)@) == conns_view(old(conns)@) + v5_edge_conns(*chip, rows as nat),
{
    let cols = chip.columns.len();
    let ghost t0 = terms_view(terms@);
    let ghost e = v5_edge_terms(*chip, rows as nat);
    let ghost d = v5_edge_conns(*chip, rows as nat);
    let mut c: usize = 0;
    while c < cols
        invariant
            c <= cols,
            cols == chip.columns@.len(),
            rows >= 2,
            e == v5_edge_terms(*chip, rows as nat),
            terms_view(terms@) == t0 + e.take(c as int),
        decreases cols - c,
    {
        push_term(terms, "TERM.S.HOLE", c, 0);
        c = c + 1;
        assert(terms_view(terms@) =~= t0 + e.take(c as int));
    }
    let mut c: usize = 0;
    while c < cols
        invariant
            c <= cols,
            cols == chip.columns@.len(),
            rows >= 2,
            e == v5_edge_terms(*chip, rows as nat),
            d == v5_edge_conns(*chip, rows as nat),
            terms_view(terms@) == t0 + e.take(cols + c),
            conns_view(conns@) == conns_view(old(conns)@) + d.take(c as int),
        decreases cols - c,
    {
        push_term(terms, "TERM.N.HOLE", c, rows - 1);
        push_conn(conns, c, rows - 2, "MAIN.NHOLE.N", c, rows - 1, "MAIN.NHOLE.S");
        c = c + 1;
        assert(terms_view(terms@) =~= t0 + e.take(cols + c));
        assert(conns_view(conns@) =~= conns_view(old(conns)@) + d.take(c as int));
    }
    let mut r: usize = 0;
    while r < rows
        invariant
            r <= rows,
            cols == chip.columns@.len(),
            e == v5_edge_terms(*chip, rows as nat),
            terms_view(terms@) == t0 + e.take(2 * cols + r),
        decreases rows - r,
    {
        push_term(terms, "TERM.W", 0, r);
        r = r + 1;
        assert(terms_view(terms@) =~= t0 + e.take(2 * cols + r));
    }
    let east = if chip.columns[cols - 1] == ColumnKind::Gt { "TERM.E" } else { "TERM.E.HOLE" };
    let mut r: usize = 0;
    while r < rows
        invariant
            r <= rows,
            cols == chip.columns@.len(),
            cols >= 1,
            east@ == (if chip.columns@[cols - 1] is Gt { "TERM.E"@ } else { "TERM.E.HOLE"@ }),
            e == v5_edge_terms(*chip, rows as nat),
            terms_view(terms@) == t0 + e.take(2 * cols + rows + r),
        decreases rows - r,
    {
        push_term(terms, east, cols - 1, r);
        r = r + 1;
        assert(terms_view(terms@) =~= t0 + e.take(2 * cols + rows + r));
    }
    assert(e.take(2 * cols + 2 * rows) =~= e);
    let ghost o2 = conns_view(conns@);
    assert(o2 == conns_view(old(conns)@) + d.take(cols as int));
    let ghost h = int_bufs_col_fn(*chip, rows as nat);
    let mut c: usize = 0;
    while c < cols
        invariant
            c <= cols,
            cols == chip.columns@.len(),
            h == int_bufs_col_fn(*chip, rows as nat),
            conns_view(conns@) == o2 + concat_map(c as nat, h),
        decreases cols - c,
    {
        let ghost o0 = conns_view(conns@);
        let kind = chip.columns[c];
        if (kind == ColumnKind::Io || kind == ColumnKind::Cfg) && c != 0 && c != cols - 1 {
            let mut r: usize = 0;
            while r < rows
                invariant
                    r <= rows,
                    c + 1 < cols,
                    conns_view(conns@) == o0 + Seq::new(
                        r as nat,
                        |j: int| (c as int, j, "INT_BUFS.E"@, c + 1, j, "INT_BUFS.W"@),
                    ),
                decreases rows - r,
            {
                push_conn(conns, c, r, "INT_BUFS.E", c + 1, r, "INT_BUFS.W");
                r = r + 1;
                assert(conns_view(conns@) =~= o0 + Seq::new(
                    r as nat,
                    |j: int| (c as int, j, "INT_BUFS.E"@, c + 1, j, "INT_BUFS.W"@),
                ));
            }
        }
        assert(conns_view(conns@) =~= o0 + h(c as int));
        c = c + 1;
    }
    assert(conns_view(conns@) =~= conns_view(old(conns)@) + d);
}

// ---------------------------------------------------------------- logic and hard blocks

/// Appends a tile of class `class` on each cell of column `c` outside the
/// site holes.
fn push_site_tiles_col(tiles: &mut Vec<GridTile>, c: usize, rows: usize, site: &Vec<Rect>, class: &'static str)
    ensures
        tiles_view(final(tiles)@) == tiles_view(old(tiles)@) + concat_map(
            rows as nat,
            site_tile_cell_fn(c as int, site@, class@),
        ),
{
    let ghost g = site_tile_cell_fn(c as int, site@, class@);
    let mut r: usize = 0;
    while r < rows
        invariant
            r <= rows,
            g == site_tile_cell_fn(c as int, site@, class@),
            tiles_view(tiles@) == tiles_view(old(tiles)@) + concat_map(r as nat, g),
        decreases rows - r,
    {
        let ghost o1 = tiles_view(tiles@);
        if !rects_contain(site, ColId(c), RowId(r)) {
            push_tile(tiles, mk_tile1(class, c, r));
        }
        assert(tiles_view(tiles@) =~= o1 + g(r as int));
        r = r + 1;
    }
}

pub open spec fn v5_clb_col_fn(chip: Chip, rows: nat, site: Seq<Rect>) -> spec_fn(int) -> Seq<TileView> {
    |c: int|
        if chip.columns@[c] is ClbLL {
            concat_map(rows, site_tile_cell_fn(c, site, "CLBLL"@))
        } else if chip.columns@[c] is ClbLM {
            concat_map(rows, site_tile_cell_fn(c, site, "CLBLM"@))
        } else {
            Seq::empty()
        }
}

/// The CLB tiles of a Virtex 5 die: one on each cell of each CLBLL or
/// CLBLM column outside the site holes.
pub open spec fn v5_clb_tiles(chip: Chip, rows: nat, site: Seq<Rect>) -> Seq<TileView> {
    concat_map(chip.columns@.len(), v5_clb_col_fn(chip, rows, site))
}

pub(crate) fn push_v5_clb_tiles(tiles: &mut Vec<GridTile>, chip: &Chip, rows: usize, site: &Vec<Rect>)
    ensures
        tiles_view(final(tiles)@) == tiles_view(old(tiles)@) + v5_clb_tiles(*chip, rows as nat, site@),
{
    let ghost f = v5_clb_col_fn(*chip, rows as nat, site@);
    let mut c: usize = 0;
    while c < chip.columns.len()
        invariant
            c <= chip.columns@.len(),
            f == v5_clb_col_fn(*chip, rows as nat, site@),
            tiles_view(tiles@) == tiles_view(old(tiles)@) + concat_map(c as nat, f),
        decreases chip.columns@.len() - c,
    {
        let ghost o0 = tiles_view(tiles@);
        if chip.columns[c] == ColumnKind::ClbLL {
            push_site_tiles_col(tiles, c, rows, site, "CLBLL");
        } else if chip.columns[c] == ColumnKind::ClbLM {
            push_site_tiles_col(tiles, c, rows, site, "CLBLM");
        }
        assert(tiles_view(tiles@) =~= o0 + f(c as int));
        c = c + 1;
    }
}

pub open spec fn hard_rows_fn(col: int, rows: Seq<RowId>, class: Seq<char>, n: nat) -> spec_fn(int) -> Seq<TileView> {
    |k: int| block_tiles_with("INTF.DELAY"@, class, col, rows[k].0 as int, n)
}

/// The hard block tiles of a Virtex 5 die: a block of ten cells for each
/// EMAC and of forty cells for each PCIE block of the hard block column,
/// with delay interface tiles.
pub open spec fn v5_hard_tiles(chip: Chip) -> Seq<TileView> {
    match chip.col_hard {
        Some(h) => concat_map(h.rows_emac@.len(), hard_rows_fn(h.col.0 as int, h.rows_emac@, "EMAC"@, 10))
            + concat_map(h.rows_pcie@.len(), hard_rows_fn(h.col.0 as int, h.rows_pcie@, "PCIE"@, 40)),
        None => Seq::empty(),
    }
}

fn push_hard_rows(tiles: &mut Vec<GridTile>, col: usize, rows: &Vec<RowId>, class: &'static str, n: usize)
    requires
        forall|k: int| 0 <= k < rows@.len() ==> (#[trigger] rows@[k]).0 + n <= usize::MAX,
    ensures
        tiles_view(final(tiles)@) == tiles_view(old(tiles)@) + concat_map(
            rows@.len(),
            hard_rows_fn(col as int, rows@, class@, n as nat),
        ),
{
    let ghost f = hard_rows_fn(col as int, rows@, class@, n as nat);
    let mut k: usize = 0;
    while k < rows.len()
        invariant
            k <= rows@.len(),
            forall|j: int| 0 <= j < rows@.len() ==> (#[trigger] rows@[j]).0 + n <= usize::MAX,
            f == hard_rows_fn(col as int, rows@, class@, n as nat),
            tiles_view(tiles@) == tiles_view(old(tiles)@) + concat_map(k as nat, f),
        decreases rows@.len() - k,
    {
        assert(rows@[k as int].0 + n <= usize::MAX);
        push_block_with(tiles, "INTF.DELAY", class, col, rows[k].0, n);
        k = k + 1;
    }
}

// ---------------------------------------------------------------- block RAM and DSP

pub open spec fn v5_bram_span_cell_fn(chip: Chip, c: int, site: Seq<Rect>, class: Seq<char>) -> spec_fn(int) -> Seq<
    SpanView,
> {
    |r: int|
        if r % 5 == 0 && !in_some_rect(site, ColId(c as usize), RowId(r as usize)) {
            seq![(class, c, r, 0int, 5int)] + if chip.columns@[c] is Bram && r % 20 == 10
                && !chip.cols_mgt_buf@.contains(ColId(c as usize)) {
                seq![("PMVBRAM"@, c, r, 0int, 5int)]
            } else {
                Seq::empty()
            }
        } else {
            Seq::empty()
        }
}

pub open spec fn v5_bram_tile_cell_fn(chip: Chip, c: int, site: Seq<Rect>) -> spec_fn(int) -> Seq<TileView> {
    |r: int|
        if r % 20 == 10 && !in_some_rect(site, ColId(c as usize), RowId(r as usize)) && chip.columns@[c] is Bram
            && chip.cols_mgt_buf@.contains(ColId(c as usize)) {
            seq![tile0("HCLK_BRAM_MGT"@, c, r)]
        } else {
            Seq::empty()
        }
}

pub open spec fn v5_bram_dsp_span_fn(chip: Chip, rows: nat, site: Seq<Rect>) -> spec_fn(int) -> Seq<SpanView> {
    |c: int|
        if chip.columns@[c] is Bram {
            concat_map(rows, v5_bram_span_cell_fn(chip, c, site, "BRAM"@))
        } else if chip.columns@[c] is Dsp {
            concat_map(rows, v5_bram_span_cell_fn(chip, c, site, "DSP"@))
        } else {
            Seq::empty()
        }
}

pub open spec fn v5_bram_dsp_tile_fn(chip: Chip, rows: nat, site: Seq<Rect>) -> spec_fn(int) -> Seq<TileView> {
    |c: int|
        if chip.columns@[c] is Bram || chip.columns@[c] is Dsp {
            concat_map(rows, v5_bram_tile_cell_fn(chip, c, site))
        } else {
            Seq::empty()
        }
}

/// The block RAM and DSP span tiles of a Virtex 5 die: five cells from
/// every fifth row outside the site holes, with a block RAM power tile on
/// the clock rows of block RAM columns without an MGT buffer.
pub open spec fn v5_bram_dsp_spans(chip: Chip, rows: nat, site: Seq<Rect>) -> Seq<SpanView> {
    concat_map(chip.columns@.len(), v5_bram_dsp_span_fn(chip, rows, site))
}

/// The block RAM clock tiles of a Virtex 5 die: on the clock rows of the
/// block RAM columns with an MGT buffer.
pub open spec fn v5_bram_dsp_tiles(chip: Chip, rows: nat, site: Seq<Rect>) -> Seq<TileView> {
    concat_map(chip.columns@.len(), v5_bram_dsp_tile_fn(chip, rows, site))
}

fn push_v5_bram_dsp_col(
    tiles: &mut Vec<GridTile>,
    spans: &mut Vec<SpanTile>,
    chip: &Chip,
    c: usize,
    rows: usize,
    site: &Vec<Rect>,
    class: &'static str,
)
    requires
        c < chip.columns@.len(),
        chip.columns@[c as int] is Bram || chip.columns@[c as int] is Dsp,
        class@ == (if chip.columns@[c as int] is Bram { "BRAM"@ } else { "DSP"@ }),
    ensures
        tiles_view(final(tiles)@) == tiles_view(old(tiles)@) + concat_map(
            rows as nat,
            v5_bram_tile_cell_fn(*chip, c as int, site@),
        ),
        spans_view(final(spans)@) == spans_view(old(spans)@) + concat_map(
            rows as nat,
            v5_bram_span_cell_fn(*chip, c as int, site@, class@),
        ),
{
    let ghost f = v5_bram_tile_cell_fn(*chip, c as int, site@);
    let ghost g = v5_bram_span_cell_fn(*chip, c as int, site@, class@);
    let is_bram = chip.columns[c] == ColumnKind::Bram;
    let mgt_buf = contains_col(&chip.cols_mgt_buf, c);
    let mut r: usize = 0;
    while r < rows
        invariant
            r <= rows,
            c < chip.columns@.len(),
            is_bram == (chip.columns@[c as int] is Bram),
            mgt_buf == chip.cols_mgt_buf@.contains(ColId(c)),
            f == v5_bram_tile_cell_fn(*chip, c as int, site@),
            g == v5_bram_span_cell_fn(*chip, c as int, site@, class@),
            tiles_view(tiles@) == tiles_view(old(tiles)@) + concat_map(r as nat, f),
            spans_view(spans@) == spans_view(old(spans)@) + concat_map(r as nat, g),
        decreases rows - r,
    {
        let ghost t0 = tiles_view(tiles@);
        let ghost s0 = spans_view(spans@);
        if r % 5 == 0 && !rects_contain(site, ColId(c), RowId(r)) {
            push_span(spans, class, c, r, 0, 5);
            if is_bram && r % 20 == 10 {
                if mgt_buf {
                    push_tile(tiles, mk_tile0("HCLK_BRAM_MGT", c, r));
                } else {
                    push_span(spans, "PMVBRAM", c, r, 0, 5);
                }
            }
        }
        assert(tiles_view(tiles@) =~= t0 + f(r as int));
        assert(spans_view(spans@) =~= s0 + g(r as int));
        r = r + 1;
    }
}

fn push_v5_bram_dsp(tiles: &mut Vec<GridTile>, spans: &mut Vec<SpanTile>, chip: &Chip, rows: usize, site: &Vec<Rect>)
    ensures
        tiles_view(final(tiles)@) == tiles_view(old(tiles)@) + v5_bram_dsp_tiles(*chip, rows as nat, site@),
        spans_view(final(spans)@) == spans_view(old(spans)@) + v5_bram_dsp_spans(*chip, rows as nat, site@),
{
    let ghost f = v5_bram_dsp_tile_fn(*chip, rows as nat, site@);
    let ghost g = v5_bram_dsp_span_fn(*chip, rows as nat, site@);
    let mut c: usize = 0;
    while c < chip.columns.len()
        invariant
            c <= chip.columns@.len(),
            f == v5_bram_dsp_tile_fn(*chip, rows as nat, site@),
            g == v5_bram_dsp_span_fn(*chip, rows as nat, site@),
            tiles_view(tiles@) == tiles_view(old(tiles)@) + concat_map(c as nat, f),
            spans_view(spans@) == spans_view(old(spans)@) + concat_map(c as nat, g),
        decreases chip.columns@.len() - c,
    {
        let ghost t0 = tiles_view(tiles@);
        let ghost s0 = spans_view(spans@);
        if chip.columns[c] == ColumnKind::Bram {
            push_v5_bram_dsp_col(tiles, spans, chip, c, rows, site, "BRAM");
        } else if chip.columns[c] == ColumnKind::Dsp {
            push_v5_bram_dsp_col(tiles, spans, chip, c, rows, site, "DSP");
        }
        assert(tiles_view(tiles@) =~= t0 + f(c as int));
        assert(spans_view(spans@) =~= s0 + g(c as int));
        c = c + 1;
    }
}

// ---------------------------------------------------------------- configuration, clock management and IO

pub open spec fn v5_cmt_tile_fn(chip: Chip, col: int) -> spec_fn(int) -> Seq<TileView> {
    |k: int| {
        let row = chip.spec_cmt_rows()[k].0 as int;
        seq![tile0(if row < chip.sp_row_reg_bot(chip.reg_clk.0 as int) { "CLK_CMT_B"@ } else { "CLK_CMT_T"@ }, col, row)]
    }
}

/// The clock management tiles of a Virtex 5 die: a clock tile on each
/// clock management row of the configuration column, below or above the
/// clock row.
pub open spec fn v5_cmt_tiles(chip: Chip, col: int) -> Seq<TileView> {
    concat_map(chip.spec_cmt_rows().len(), v5_cmt_tile_fn(chip, col))
}

/// The span tiles of the configuration column's blocks: the configuration
/// block of twenty cells from the clock row of the region below the
/// configuration region, then a block of ten cells on each clock
/// management row.
pub open spec fn v5_cfg_spans(chip: Chip, col: int) -> Seq<SpanView> {
    let cmt = chip.spec_cmt_rows();
    seq![("CFG"@, col, chip.sp_row_reg_hclk(chip.reg_cfg.0 - 1), 0int, 20int)] + Seq::new(
        cmt.len(),
        |k: int| ("CMT"@, col, cmt[k].0 as int, 0int, 10int),
    )
}

/// The rows that bound the clock management stretches of the configuration
/// column: the rows where the IO stretch below and above the clock row
/// meets a clock management stretch, and the bottom of the lower and the
/// top of the upper clock management stretch.
pub open spec fn v5_io_rows(chip: Chip) -> (int, int, int, int) {
    let bufg = chip.sp_row_reg_bot(chip.reg_clk.0 as int);
    let c = chip.reg_cfg.0 as int;
    let n = chip.regs as int;
    (
        if c == 1 { 0 } else { bufg - 30 },
        if c == n - 1 { n * 20 } else { bufg + 30 },
        if c < 3 { 0 } else { bufg - 60 },
        if n - c < 3 { n * 20 } else { bufg + 60 },
    )
}

/// The tiles of a cell of an IO or configuration column: an IO tile
/// outside the site holes, and on the clock row of each region of the
/// configuration column, a clock row tile and the tiles of the clock
/// management or center stretch the row lies in.
pub open spec fn v5_io_tile_fn(chip: Chip, c: int, is_cfg: bool, site: Seq<Rect>) -> spec_fn(int) -> Seq<TileView> {
    |r: int| {
        let bufg = chip.sp_row_reg_bot(chip.reg_clk.0 as int);
        let (ioi_cmt, cmt_ioi, bot_cmt, top_cmt) = v5_io_rows(chip);
        (if in_some_rect(site, ColId(c as usize), RowId(r as usize)) {
            Seq::empty()
        } else {
            seq![tile1("IO"@, c, r)]
        }) + if r % 20 == 10 && is_cfg {
            seq![tile0("CLK_HROW"@, c, r)] + if r == bufg - 10 || r == bufg + 10 {
                Seq::empty()
            } else if r == ioi_cmt {
                seq![tile0("HCLK_CMT"@, c, r), tile0("CLK_IOB_B"@, c, r)]
            } else if r == cmt_ioi {
                seq![tile0("HCLK_CMT"@, c, r), tile0("CLK_IOB_T"@, c, r - 10)]
            } else if (r >= bot_cmt && r < ioi_cmt) || (r >= cmt_ioi && r < top_cmt) {
                seq![tile0("HCLK_CMT"@, c, r)]
            } else if r < bufg {
                seq![tile0("CLK_MGT_B"@, c, r)]
            } else {
                seq![tile0("CLK_MGT_T"@, c, r - 10)]
            }
        } else {
            Seq::empty()
        }
    }
}

/// The span tiles of a cell of an IO or configuration column: on the clock
/// row of each region, the IO clock tile of an IO column, or that of the
/// stretch of the configuration column the row lies in.
pub open spec fn v5_io_span_fn(chip: Chip, c: int, is_cfg: bool) -> spec_fn(int) -> Seq<SpanView> {
    |r: int| {
        let bufg = chip.sp_row_reg_bot(chip.reg_clk.0 as int);
        let (ioi_cmt, cmt_ioi, bot_cmt, top_cmt) = v5_io_rows(chip);
        if r % 20 == 10 {
            if is_cfg {
                if r == bufg - 10 {
                    seq![("HCLK_IOI_BOTCEN"@, c, r, 2int, 2int)]
                } else if r == bufg + 10 {
                    seq![("HCLK_IOI_TOPCEN"@, c, r, 0int, 2int)]
                } else if r == ioi_cmt {
                    seq![("HCLK_IOI_CMT"@, c, r, 0int, 2int)]
                } else if r == cmt_ioi {
                    seq![("HCLK_CMT_IOI"@, c, r, 2int, 2int)]
                } else if (r >= bot_cmt && r < ioi_cmt) || (r >= cmt_ioi && r < top_cmt) {
                    Seq::empty()
                } else {
                    seq![("HCLK_IOI_CENTER"@, c, r, 2int, 2int)]
                }
            } else {
                seq![("HCLK_IOI"@, c, r, 2int, 4int)]
            }
        } else {
            Seq::empty()
        }
    }
}

pub open spec fn v5_io_col_tiles_fn(chip: Chip, col_cfg: int, rows: nat, site: Seq<Rect>) -> spec_fn(int) -> Seq<
    TileView,
> {
    |c: int|
        if chip.columns@[c] is Io || chip.columns@[c] is Cfg {
            concat_map(rows, v5_io_tile_fn(chip, c, c == col_cfg, site))
        } else {
            Seq::empty()
        }
}

pub open spec fn v5_io_col_spans_fn(chip: Chip, col_cfg: int, rows: nat) -> spec_fn(int) -> Seq<SpanView> {
    |c: int|
        if chip.columns@[c] is Io || chip.columns@[c] is Cfg {
            concat_map(rows, v5_io_span_fn(chip, c, c == col_cfg))
        } else {
            Seq::empty()
        }
}

/// The rows of the clock management stretches can be computed: the clock
/// row lies far enough above the bottom row for those stretches that exist.
pub open spec fn v5_io_rows_ok(chip: Chip) -> bool {
    let bufg = chip.sp_row_reg_bot(chip.reg_clk.0 as int);
    &&& bufg >= 10
    &&& chip.reg_cfg.0 != 1 ==> bufg >= 30
    &&& chip.reg_cfg.0 >= 3 ==> bufg >= 60
    &&& bufg + 60 <= usize::MAX
    &&& chip.regs * 20 + 60 <= usize::MAX
    &&& chip.reg_cfg.0 <= chip.regs
}

fn push_v5_io_cell(
    tiles: &mut Vec<GridTile>,
    spans: &mut Vec<SpanTile>,
    chip: &Chip,
    c: usize,
    r: usize,
    is_cfg: bool,
    site: &Vec<Rect>,
    rows4: (usize, usize, usize, usize),
    bufg: usize,
)
    requires
        v5_io_rows_ok(*chip),
        bufg == chip.sp_row_reg_bot(chip.reg_clk.0 as int),
        (rows4.0 as int, rows4.1 as int, rows4.2 as int, rows4.3 as int) == v5_io_rows(*chip),
    ensures
        tiles_view(final(tiles)@) == tiles_view(old(tiles)@) + v5_io_tile_fn(*chip, c as int, is_cfg, site@)(r as int),
        spans_view(final(spans)@) == spans_view(old(spans)@) + v5_io_span_fn(*chip, c as int, is_cfg)(r as int),
{
    let (ioi_cmt, cmt_ioi, bot_cmt, top_cmt) = rows4;
    if !rects_contain(site, ColId(c), RowId(r)) {
        push_tile(tiles, mk_tile1("IO", c, r));
    }
    if r % 20 == 10 {
        if is_cfg {
            push_tile(tiles, mk_tile0("CLK_HROW", c, r));
            if r == bufg - 10 {
                push_span(spans, "HCLK_IOI_BOTCEN", c, r, 2, 2);
            } else if r == bufg + 10 {
                push_span(spans, "HCLK_IOI_TOPCEN", c, r, 0, 2);
            } else if r == ioi_cmt {
                push_span(spans, "HCLK_IOI_CMT", c, r, 0, 2);
                push_tile(tiles, mk_tile0("HCLK_CMT", c, r));
                push_tile(tiles, mk_tile0("CLK_IOB_B", c, r));
            } else if r == cmt_ioi {
                push_span(spans, "HCLK_CMT_IOI", c, r, 2, 2);
                push_tile(tiles, mk_tile0("HCLK_CMT", c, r));
                push_tile(tiles, mk_tile0("CLK_IOB_T", c, r - 10));
            } else if (r >= bot_cmt && r < ioi_cmt) || (r >= cmt_ioi && r < top_cmt) {
                push_tile(tiles, mk_tile0("HCLK_CMT", c, r));
            } else {
                push_span(spans, "HCLK_IOI_CENTER", c, r, 2, 2);
                if r < bufg {
                    push_tile(tiles, mk_tile0("CLK_MGT_B", c, r));
                } else {
                    push_tile(tiles, mk_tile0("CLK_MGT_T", c, r - 10));
                }
            }
        } else {
            push_span(spans, "HCLK_IOI", c, r, 2, 4);
        }
    }
    assert(tiles_view(final(tiles)@) =~= tiles_view(old(tiles)@) + v5_io_tile_fn(*chip, c as int, is_cfg, site@)(
        r as int,
    ));
    assert(spans_view(final(spans)@) =~= spans_view(old(spans)@) + v5_io_span_fn(*chip, c as int, is_cfg)(r as int));
}

fn push_v5_io(
    tiles: &mut Vec<GridTile>,
    spans: &mut Vec<SpanTile>,
    chip: &Chip,
    col_cfg: usize,
    rows: usize,
    site: &Vec<Rect>,
)
    requires
        v5_io_rows_ok(*chip),
        chip.kind is Virtex5,
    ensures
        tiles_view(final(tiles)@) == tiles_view(old(tiles)@) + concat_map(
            chip.columns@.len(),
            v5_io_col_tiles_fn(*chip, col_cfg as int, rows as nat, site@),
        ),
        spans_view(final(spans)@) == spans_view(old(spans)@) + concat_map(
            chip.columns@.len(),
            v5_io_col_spans_fn(*chip, col_cfg as int, rows as nat),
        ),
{
    assert(chip.sp_rpr() == 20);
    let bufg = chip.row_bufg().0;
    let n = chip.regs;
    let cfg = chip.reg_cfg.0;
    let rows4 = (
        if cfg == 1 { 0 } else { bufg - 30 },
        if cfg + 1 == n { n * 20 } else { bufg + 30 },
        if cfg < 3 { 0 } else { bufg - 60 },
        if n - cfg < 3 { n * 20 } else { bufg + 60 },
    );
    let ghost f = v5_io_col_tiles_fn(*chip, col_cfg as int, rows as nat, site@);
    let ghost g = v5_io_col_spans_fn(*chip, col_cfg as int, rows as nat);
    let mut c: usize = 0;
    while c < chip.columns.len()
        invariant
            c <= chip.columns@.len(),
            v5_io_rows_ok(*chip),
            bufg == chip.sp_row_reg_bot(chip.reg_clk.0 as int),
            (rows4.0 as int, rows4.1 as int, rows4.2 as int, rows4.3 as int) == v5_io_rows(*chip),
            f == v5_io_col_tiles_fn(*chip, col_cfg as int, rows as nat, site@),
            g == v5_io_col_spans_fn(*chip, col_cfg as int, rows as nat),
            tiles_view(tiles@) == tiles_view(old(tiles)@) + concat_map(c as nat, f),
            spans_view(spans@) == spans_view(old(spans)@) + concat_map(c as nat, g),
        decreases chip.columns@.len() - c,
    {
        let ghost t0 = tiles_view(tiles@);
        let ghost s0 = spans_view(spans@);
        if chip.columns[c] == ColumnKind::Io || chip.columns[c] == ColumnKind::Cfg {
            let is_cfg = c == col_cfg;
            let ghost ft = v5_io_tile_fn(*chip, c as int, is_cfg, site@);
            let ghost fs = v5_io_span_fn(*chip, c as int, is_cfg);
            let mut r: usize = 0;
            while r < rows
                invariant
                    r <= rows,
                    v5_io_rows_ok(*chip),
                    bufg == chip.sp_row_reg_bot(chip.reg_clk.0 as int),
                    (rows4.0 as int, rows4.1 as int, rows4.2 as int, rows4.3 as int) == v5_io_rows(*chip),
                    ft == v5_io_tile_fn(*chip, c as int, is_cfg, site@),
                    fs == v5_io_span_fn(*chip, c as int, is_cfg),
                    tiles_view(tiles@) == t0 + concat_map(r as nat, ft),
                    spans_view(spans@) == s0 + concat_map(r as nat, fs),
                decreases rows - r,
            {
                push_v5_io_cell(tiles, spans, chip, c, r, is_cfg, site, rows4, bufg);
                r = r + 1;
            }
        }
        assert(tiles_view(tiles@) =~= t0 + f(c as int));
        assert(spans_view(spans@) =~= s0 + g(c as int));
        c = c + 1;
    }
}

// ---------------------------------------------------------------- transceivers and clock rows

pub open spec fn v5_gt_reg_fn(g: crate::virtex4::chip::GtColumn) -> spec_fn(int) -> Seq<SpanView> {
    |reg: int|
        if g.regs@[reg] == Some(GtKind::Gtp) {
            seq![("GTP"@, g.col.0 as int, reg * 20, 0int, 20int)]
        } else if g.regs@[reg] == Some(GtKind::Gtx) {
            seq![("GTX"@, g.col.0 as int, reg * 20, 0int, 20int)]
        } else {
            Seq::empty()
        }
}

pub open spec fn v5_gt_col_fn(chip: Chip) -> spec_fn(int) -> Seq<SpanView> {
    |i: int| concat_map(chip.regs as nat, v5_gt_reg_fn(chip.cols_gt@[i]))
}

/// The transceiver span tiles of a Virtex 5 die: twenty cells from the
/// bottom of each region of a transceiver column that has a GTP or GTX.
pub open spec fn v5_gt_spans(chip: Chip) -> Seq<SpanView> {
    concat_map(chip.cols_gt@.len(), v5_gt_col_fn(chip))
}

fn push_v5_gt_spans(spans: &mut Vec<SpanTile>, chip: &Chip)
    requires
        chip.regs * 20 <= usize::MAX,
        forall|i: int| 0 <= i < chip.cols_gt@.len() ==> (#[trigger] chip.cols_gt@[i]).regs@.len() >= chip.regs,
    ensures
        spans_view(final(spans)@) == spans_view(old(spans)@) + v5_gt_spans(*chip),
{
    let ghost f = v5_gt_col_fn(*chip);
    let mut i: usize = 0;
    while i < chip.cols_gt.len()
        invariant
            i <= chip.cols_gt@.len(),
            chip.regs * 20 <= usize::MAX,
            forall|j: int| 0 <= j < chip.cols_gt@.len() ==> (#[trigger] chip.cols_gt@[j]).regs@.len() >= chip.regs,
            f == v5_gt_col_fn(*chip),
            spans_view(spans@) == spans_view(old(spans)@) + concat_map(i as nat, f),
        decreases chip.cols_gt@.len() - i,
    {
        let ghost s0 = spans_view(spans@);
        let g = &chip.cols_gt[i];
        assert(g.regs@.len() >= chip.regs);
        let ghost h = v5_gt_reg_fn(*g);
        let mut reg: usize = 0;
        while reg < chip.regs
            invariant
                reg <= chip.regs,
                chip.regs * 20 <= usize::MAX,
                g.regs@.len() >= chip.regs,
                h == v5_gt_reg_fn(*g),
                spans_view(spans@) == s0 + concat_map(reg as nat, h),
            decreases chip.regs - reg,
        {
            let ghost s1 = spans_view(spans@);
            assert(reg * 20 <= chip.regs * 20) by (nonlinear_arith)
                requires
                    reg <= chip.regs,
            ;
            match g.regs[reg] {
                Some(GtKind::Gtp) => {
                    push_span(spans, "GTP", g.col.0, reg * 20, 0, 20);
                },
                Some(GtKind::Gtx) => {
                    push_span(spans, "GTX", g.col.0, reg * 20, 0, 20);
                },
                _ => {},
            }
            assert(spans_view(spans@) =~= s1 + h(reg as int));
            reg = reg + 1;
        }
        assert(spans_view(spans@) =~= s0 + f(i as int));
        i = i + 1;
    }
}

pub open spec fn v5_hclk_cell_fn(c: int, holes: Seq<Rect>) -> spec_fn(int) -> Seq<TileView> {
    |r: int|
        if r % 20 == 10 && !in_some_rect(holes, ColId(c as usize), RowId(r as usize)) {
            seq![tile1("HCLK"@, c, r)]
        } else {
            Seq::empty()
        }
}

pub open spec fn v5_hclk_col_fn(rows: nat, holes: Seq<Rect>) -> spec_fn(int) -> Seq<TileView> {
    |c: int| concat_map(rows, v5_hclk_cell_fn(c, holes))
}

/// The clock row tiles of a Virtex 5 die: on the middle row of each region
/// outside the interconnect holes, column by column.
pub open spec fn v5_hclk_tiles(cols: nat, rows: nat, holes: Seq<Rect>) -> Seq<TileView> {
    concat_map(cols, v5_hclk_col_fn(rows, holes))
}

fn push_v5_hclk_tiles(tiles: &mut Vec<GridTile>, cols: usize, rows: usize, holes: &Vec<Rect>)
    ensures
        tiles_view(final(tiles)@) == tiles_view(old(tiles)@) + v5_hclk_tiles(cols as nat, rows as nat, holes@),
{
    let ghost f = v5_hclk_col_fn(rows as nat, holes@);
    let mut c: usize = 0;
    while c < cols
        invariant
            c <= cols,
            f == v5_hclk_col_fn(rows as nat, holes@),
            tiles_view(tiles@) == tiles_view(old(tiles)@) + concat_map(c as nat, f),
        decreases cols - c,
    {
        let ghost o0 = tiles_view(tiles@);
        let ghost g = v5_hclk_cell_fn(c as int, holes@);
        let mut r: usize = 0;
        while r < rows
            invariant
                r <= rows,
                g == v5_hclk_cell_fn(c as int, holes@),
                tiles_view(tiles@) == o0 + concat_map(r as nat, g),
            decreases rows - r,
        {
            let ghost o1 = tiles_view(tiles@);
            if r % 20 == 10 && !rects_contain(holes, ColId(c), RowId(r)) {
                push_tile(tiles, mk_tile1("HCLK", c, r));
            }
            assert(tiles_view(tiles@) =~= o1 + g(r as int));
            r = r + 1;
        }
        assert(tiles_view(tiles@) =~= o0 + f(c as int));
        c = c + 1;
    }
}

// ---------------------------------------------------------------- the whole die

/// The tiles of a Virtex 5 die, in the order in which expanding it lays
/// them out: interconnect, PowerPC blocks, CLBs, hard blocks, block RAM
/// clock tiles, clock management tiles, IO and configuration columns, and
/// clock rows.
pub open spec fn spec_v5_grid_tiles(chip: Chip, col_cfg: int, int_holes: Seq<Rect>, site_holes: Seq<Rect>) -> Seq<
    TileView,
> {
    let rows = (chip.regs * 20) as nat;
    v5_int_tiles(chip, rows, int_holes, site_holes) + concat_map(chip.holes_ppc@.len(), v5_ppc_tiles_fn(chip))
        + v5_clb_tiles(chip, rows, site_holes) + v5_hard_tiles(chip) + v5_bram_dsp_tiles(chip, rows, site_holes)
        + v5_cmt_tiles(chip, col_cfg) + concat_map(chip.columns@.len(), v5_io_col_tiles_fn(chip, col_cfg, rows, site_holes))
        + v5_hclk_tiles(chip.columns@.len(), rows, int_holes)
}

/// The span tiles of a Virtex 5 die: block RAM and DSP, configuration and
/// clock management blocks, IO clock rows, and transceivers.
pub open spec fn spec_v5_grid_spans(chip: Chip, col_cfg: int, site_holes: Seq<Rect>) -> Seq<SpanView> {
    let rows = (chip.regs * 20) as nat;
    v5_bram_dsp_spans(chip, rows, site_holes) + v5_cfg_spans(chip, col_cfg) + concat_map(
        chip.columns@.len(),
        v5_io_col_spans_fn(chip, col_cfg, rows),
    ) + v5_gt_spans(chip)
}

/// The terminators of a Virtex 5 die: around the PowerPC blocks, then at
/// its edges.
pub open spec fn spec_v5_grid_terms(chip: Chip) -> Seq<TermView> {
    concat_map(chip.holes_ppc@.len(), v5_ppc_terms_fn(chip)) + v5_edge_terms(chip, (chip.regs * 20) as nat)
}

/// The connections of a Virtex 5 die: across the PowerPC blocks, then at
/// its top row and across its buffers.
pub open spec fn spec_v5_grid_conns(chip: Chip) -> Seq<ConnView> {
    concat_map(chip.holes_ppc@.len(), v5_ppc_conns_fn(chip)) + v5_edge_conns(chip, (chip.regs * 20) as nat)
}

/// The grid of a Virtex 5 die can be laid out: it has cells, its
/// configuration region has two regions below it, its clock management
/// stretches fit between its bottom and top rows, its PowerPC blocks lie
/// above its bottom row, its transceiver columns describe every region, its
/// clock management and clock columns lie within holes, and every row and
/// block fits the index range.
pub open spec fn v5_grid_ok(chip: Chip, int_holes: Seq<Rect>, site_holes: Seq<Rect>) -> bool {
    &&& chip.kind is Virtex5
    &&& chip.regs >= 1
    &&& chip.columns@.len() >= 1
    &&& 2 <= chip.reg_cfg.0 <= chip.regs
    &&& v5_io_rows_ok(chip)
    &&& forall|k: int|
        0 <= k < chip.holes_ppc@.len() ==> (#[trigger] chip.holes_ppc@[k]).0.0 + 14 <= usize::MAX
            && chip.holes_ppc@[k].1.0 + 41 <= usize::MAX && chip.holes_ppc@[k].1.0 >= 1
    &&& forall|i: int| 0 <= i < chip.cols_gt@.len() ==> (#[trigger] chip.cols_gt@[i]).regs@.len() >= chip.regs
    &&& match chip.col_hard {
        Some(h) => {
            &&& forall|k: int| 0 <= k < h.rows_emac@.len() ==> (#[trigger] h.rows_emac@[k]).0 + 10 <= usize::MAX
            &&& forall|k: int| 0 <= k < h.rows_pcie@.len() ==> (#[trigger] h.rows_pcie@[k]).0 + 40 <= usize::MAX
        },
        None => true,
    }
    &&& forall|c: int, r: int|
        #![trigger in_some_rect(int_holes, ColId(c as usize), RowId(r as usize))]
        0 <= c < chip.columns@.len() && 0 <= r < chip.regs * 20 && !in_some_rect(
            int_holes,
            ColId(c as usize),
            RowId(r as usize),
        ) && !in_some_rect(site_holes, ColId(c as usize), RowId(r as usize)) ==> !(chip.columns@[c] is Cmt)
            && !(chip.columns@[c] is Clk)
}

/// The interconnect grid of a Virtex 5 die, given its configuration column
/// and its interconnect and site holes.
pub fn v5_grid(chip: &Chip, col_cfg: ColId, int_holes: &Vec<Rect>, site_holes: &Vec<Rect>) -> (g: DieGrid)
    requires
        v5_grid_ok(*chip, int_holes@, site_holes@),
    ensures
        tiles_view(g.tiles@) == spec_v5_grid_tiles(*chip, col_cfg.0 as int, int_holes@, site_holes@),
        spans_view(g.spans@) == spec_v5_grid_spans(*chip, col_cfg.0 as int, site_holes@),
        terms_view(g.terms@) == spec_v5_grid_terms(*chip),
        conns_view(g.conns@) == spec_v5_grid_conns(*chip),
{
    let rows = chip.regs * 20;
    let cols = chip.columns.len();
    let mut tiles: Vec<GridTile> = Vec::new();
    let mut spans: Vec<SpanTile> = Vec::new();
    let mut terms: Vec<GridTerm> = Vec::new();
    let mut conns: Vec<GridConn> = Vec::new();
    assert(tiles_view(tiles@) =~= Seq::<TileView>::empty());
    assert(spans_view(spans@) =~= Seq::<SpanView>::empty());
    assert(terms_view(terms@) =~= Seq::<TermView>::empty());
    assert(conns_view(conns@) =~= Seq::<ConnView>::empty());
    push_v5_int_tiles(&mut tiles, chip, rows, int_holes, site_holes);
    let ghost t1 = tiles_view(tiles@);
    let mut k: usize = 0;
    while k < chip.holes_ppc.len()
        invariant
            k <= chip.holes_ppc@.len(),
            v5_grid_ok(*chip, int_holes@, site_holes@),
            tiles_view(tiles@) == t1 + concat_map(k as nat, v5_ppc_tiles_fn(*chip)),
            terms_view(terms@) == concat_map(k as nat, v5_ppc_terms_fn(*chip)),
            conns_view(conns@) == concat_map(k as nat, v5_ppc_conns_fn(*chip)),
        decreases chip.holes_ppc@.len() - k,
    {
        let (bc, br) = chip.holes_ppc[k];
        assert(chip.holes_ppc@[k as int].0.0 + 14 <= usize::MAX);
        push_v5_ppc(&mut tiles, &mut terms, &mut conns, bc.0, br.0);
        k = k + 1;
    }
    push_v5_edges(&mut terms, &mut conns, chip, rows);
    push_v5_clb_tiles(&mut tiles, chip, rows, site_holes);
    let ghost t2 = tiles_view(tiles@);
    match &chip.col_hard {
        Some(h) => {
            push_hard_rows(&mut tiles, h.col.0, &h.rows_emac, "EMAC", 10);
            push_hard_rows(&mut tiles, h.col.0, &h.rows_pcie, "PCIE", 40);
        },
        None => {},
    }
    assert(tiles_view(tiles@) =~= t2 + v5_hard_tiles(*chip));
    push_v5_bram_dsp(&mut tiles, &mut spans, chip, rows, site_holes);
    assert(chip.sp_rpr() == 20);
    let hrow = chip.row_reg_hclk(RegId(chip.reg_cfg.0 - 1)).0;
    push_span(&mut spans, "CFG", col_cfg.0, hrow, 0, 20);
    let cmt = chip.get_cmt_rows();
    let bufg = chip.row_bufg().0;
    let ghost s3 = spans_view(spans@);
    let ghost t3 = tiles_view(tiles@);
    let mut k: usize = 0;
    while k < cmt.len()
        invariant
            k <= cmt@.len(),
            cmt@ == chip.spec_cmt_rows(),
            bufg == chip.sp_row_reg_bot(chip.reg_clk.0 as int),
            spans_view(spans@) == s3 + Seq::new(
                k as nat,
                |j: int| ("CMT"@, col_cfg.0 as int, cmt@[j].0 as int, 0int, 10int),
            ),
            tiles_view(tiles@) == t3 + concat_map(k as nat, v5_cmt_tile_fn(*chip, col_cfg.0 as int)),
        decreases cmt@.len() - k,
    {
        let row = cmt[k].0;
        push_span(&mut spans, "CMT", col_cfg.0, row, 0, 10);
        let ghost t4 = tiles_view(tiles@);
        push_tile(&mut tiles, mk_tile0(if row < bufg { "CLK_CMT_B" } else { "CLK_CMT_T" }, col_cfg.0, row));
        assert(tiles_view(tiles@) =~= t4 + v5_cmt_tile_fn(*chip, col_cfg.0 as int)(k as int));
        k = k + 1;
        assert(spans_view(spans@) =~= s3 + Seq::new(
            k as nat,
            |j: int| ("CMT"@, col_cfg.0 as int, cmt@[j].0 as int, 0int, 10int),
        ));
    }
    push_v5_io(&mut tiles, &mut spans, chip, col_cfg.0, rows, site_holes);
    push_v5_gt_spans(&mut spans, chip);
    push_v5_hclk_tiles(&mut tiles, cols, rows, int_holes);
    DieGrid { tiles, spans, terms, conns }
}

} // verus!
