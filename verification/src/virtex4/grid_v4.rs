//! The interconnect grid of a Virtex 4 die: the tiles that expanding the
//! chip lays out on its cells, the span tiles of its clock rows, the
//! terminators at its edges, the connections across its breaks, and the
//! roots of its clock regions.
use vstd::prelude::*;
use crate::grid::{ColId, Rect, RowId};
use crate::seqs::concat_map;
use crate::tile::{
    conns_view, mk_tile, mk_tile0, mk_tile1, push_conn, push_span, push_term, push_tile, spans_view, terms_view,
    tile0, tile1, tiles_view, cells_view, ConnView, GridConn, GridTerm, GridTile, SpanTile, SpanView, TermView,
    TileView,
};
use crate::virtex4::chip::{CfgRowKind, Chip, ColumnKind};
use crate::virtex4::expanded::{in_some_rect, rects_contain};

verus! {

/// A tile on each of `n` cells of column `col` from row `row` up.
pub open spec fn tile_run(class: Seq<char>, col: int, row: int, n: nat) -> Seq<TileView> {
    Seq::new(n, |i: int| tile1(class, col, row + i))
}

/// The `n` cells of column `col` from row `row` up.
pub open spec fn cell_run(col: int, row: int, n: nat) -> Seq<(int, int)> {
    Seq::new(n, |i: int| (col, row + i))
}

/// A block of `n` cells of a column: an interface tile of class `intf` on
/// each cell, then the block's own tile over all of them.
pub open spec fn block_tiles_with(intf: Seq<char>, class: Seq<char>, col: int, row: int, n: nat) -> Seq<TileView> {
    tile_run(intf, col, row, n).push((class, col, row, cell_run(col, row, n)))
}

/// A block of `n` cells of a column with plain interface tiles.
pub open spec fn block_tiles(class: Seq<char>, col: int, row: int, n: nat) -> Seq<TileView> {
    block_tiles_with("INTF"@, class, col, row, n)
}

/// Appends a block of `n` cells of a column.
pub(crate) fn push_block(out: &mut Vec<GridTile>, class: &'static str, col: usize, row: usize, n: usize)
    requires
        row + n <= usize::MAX,
    ensures
        tiles_view(final(out)@) == tiles_view(old(out)@) + block_tiles(class@, col as int, row as int, n as nat),
{
    push_block_with(out, "INTF", class, col, row, n);
}

/// Appends a block of `n` cells of a column with interface tiles of class `intf`.
pub(crate) fn push_block_with(
    out: &mut Vec<GridTile>,
    intf: &'static str,
    class: &'static str,
    col: usize,
    row: usize,
    n: usize,
)
    requires
        row + n <= usize::MAX,
    ensures
        tiles_view(final(out)@) == tiles_view(old(out)@) + block_tiles_with(
            intf@,
            class@,
            col as int,
            row as int,
            n as nat,
        ),
{
    let mut cells: Vec<(usize, usize)> = Vec::new();
    let mut i: usize = 0;
    while i < n
        invariant
            i <= n,
            row + n <= usize::MAX,
            cells_view(cells@) == cell_run(col as int, row as int, i as nat),
            tiles_view(out@) == tiles_view(old(out)@) + tile_run(intf@, col as int, row as int, i as nat),
        decreases n - i,
    {
        push_tile(out, mk_tile1(intf, col, row + i));
        let ghost c0 = cells@;
        cells.push((col, row + i));
        assert(cells_view(cells@) =~= cells_view(c0).push((col as int, row + i)));
        assert(cells_view(cells@) =~= cell_run(col as int, row as int, (i + 1) as nat));
        i = i + 1;
        assert(tiles_view(out@) =~= tiles_view(old(out)@) + tile_run(intf@, col as int, row as int, i as nat));
    }
    push_tile(out, mk_tile(class, col, row, cells));
    assert(tiles_view(out@) =~= tiles_view(old(out)@) + block_tiles_with(
        intf@,
        class@,
        col as int,
        row as int,
        n as nat,
    ));
}

// ---------------------------------------------------------------- interconnect

pub open spec fn int_cell_fn(c: int, holes: Seq<Rect>) -> spec_fn(int) -> Seq<TileView> {
    |r: int|
        if in_some_rect(holes, ColId(c as usize), RowId(r as usize)) {
            Seq::empty()
        } else {
            seq![tile1("INT"@, c, r)]
        }
}

pub open spec fn int_col_fn(rows: nat, holes: Seq<Rect>) -> spec_fn(int) -> Seq<TileView> {
    |c: int| concat_map(rows, int_cell_fn(c, holes))
}

/// The interconnect tiles of a die of `cols` columns and `rows` rows: one
/// on each cell outside the interconnect holes, column by column.
pub open spec fn int_tiles(cols: nat, rows: nat, holes: Seq<Rect>) -> Seq<TileView> {
    concat_map(cols, int_col_fn(rows, holes))
}

/// Appends the interconnect tiles of a die.
pub(crate) fn push_int_tiles(out: &mut Vec<GridTile>, cols: usize, rows: usize, holes: &Vec<Rect>)
    ensures
        tiles_view(final(out)@) == tiles_view(old(out)@) + int_tiles(cols as nat, rows as nat, holes@),
{
    let ghost f = int_col_fn(rows as nat, holes@);
    let mut c: usize = 0;
    while c < cols
        invariant
            c <= cols,
            f == int_col_fn(rows as nat, holes@),
            tiles_view(out@) == tiles_view(old(out)@) + concat_map(c as nat, f),
        decreases cols - c,
    {
        let ghost o1 = tiles_view(out@);
        let ghost g = int_cell_fn(c as int, holes@);
        let mut r: usize = 0;
        while r < rows
            invariant
                r <= rows,
                g == int_cell_fn(c as int, holes@),
                tiles_view(out@) == o1 + concat_map(r as nat, g),
            decreases rows - r,
        {
            let ghost o0 = tiles_view(out@);
            if !rects_contain(holes, ColId(c), RowId(r)) {
                push_tile(out, mk_tile1("INT", c, r));
            }
            assert(tiles_view(out@) =~= o0 + g(r as int));
            r = r + 1;
        }
        assert(tiles_view(out@) =~= tiles_view(old(out)@) + concat_map(c as nat, f) + f(c as int));
        c = c + 1;
    }
}

// ---------------------------------------------------------------- configuration column

/// The tiles of a special row of the configuration column: a system
/// monitor block of eight cells, or a DCM or CCM block of four cells with
/// a clock tile where the block starts a group of eight rows (below or
/// above the configuration block).
pub open spec fn v4_cfg_row_tiles(col: int, row_cfg: int, e: (RowId, CfgRowKind)) -> Seq<TileView> {
    let row = e.0.0 as int;
    match e.1 {
        CfgRowKind::Sysmon => block_tiles("SYSMON"@, col, row, 8),
        _ => block_tiles(if e.1 is Ccm { "CCM"@ } else { "DCM"@ }, col, row, 4) + if row % 8 == 0 {
            seq![tile0(if row < row_cfg { "CLK_DCM_B"@ } else { "CLK_DCM_T"@ }, col, row)]
        } else {
            Seq::empty()
        },
    }
}

pub open spec fn v4_cfg_rows_tiles_fn(chip: Chip, col: int, row_cfg: int) -> spec_fn(int) -> Seq<TileView> {
    |k: int| v4_cfg_row_tiles(col, row_cfg, chip.rows_cfg@[k])
}

/// The tiles of the configuration column's blocks on a Virtex 4: the
/// configuration block of sixteen cells from `row_cfg`, then those of the
/// special rows.
pub open spec fn v4_cfg_tiles(chip: Chip, col: int, row_cfg: int) -> Seq<TileView> {
    block_tiles("CFG"@, col, row_cfg, 16) + concat_map(chip.rows_cfg@.len(), v4_cfg_rows_tiles_fn(chip, col, row_cfg))
}

fn push_v4_cfg_tiles(out: &mut Vec<GridTile>, chip: &Chip, col: usize, row_cfg: usize)
    requires
        row_cfg + 16 <= usize::MAX,
        forall|k: int| 0 <= k < chip.rows_cfg@.len() ==> (#[trigger] chip.rows_cfg@[k]).0.0 + 8 <= usize::MAX,
    ensures
        tiles_view(final(out)@) == tiles_view(old(out)@) + v4_cfg_tiles(*chip, col as int, row_cfg as int),
{
    push_block(out, "CFG", col, row_cfg, 16);
    let ghost o1 = tiles_view(out@);
    let ghost f = v4_cfg_rows_tiles_fn(*chip, col as int, row_cfg as int);
    let mut k: usize = 0;
    while k < chip.rows_cfg.len()
        invariant
            k <= chip.rows_cfg@.len(),
            forall|j: int| 0 <= j < chip.rows_cfg@.len() ==> (#[trigger] chip.rows_cfg@[j]).0.0 + 8 <= usize::MAX,
            f == v4_cfg_rows_tiles_fn(*chip, col as int, row_cfg as int),
            tiles_view(out@) == o1 + concat_map(k as nat, f),
        decreases chip.rows_cfg@.len() - k,
    {
        let ghost o0 = tiles_view(out@);
        let (row, kind) = chip.rows_cfg[k];
        assert(chip.rows_cfg@[k as int].0.0 + 8 <= usize::MAX);
        match kind {
            CfgRowKind::Sysmon => {
                push_block(out, "SYSMON", col, row.0, 8);
            },
            _ => {
                push_block(out, if matches!(kind, CfgRowKind::Ccm) { "CCM" } else { "DCM" }, col, row.0, 4);
                if row.0 % 8 == 0 {
                    push_tile(out, mk_tile0(if row.0 < row_cfg { "CLK_DCM_B" } else { "CLK_DCM_T" }, col, row.0));
                }
            },
        }
        assert(tiles_view(out@) =~= o0 + f(k as int));
        k = k + 1;
    }
}

// ---------------------------------------------------------------- IO columns

/// The interface and IO tiles of an IO cell.
pub open spec fn io_cell_tiles(col: int, r: int) -> Seq<TileView> {
    seq![tile1("INTF"@, col, r), tile1("IO"@, col, r)]
}

pub open spec fn io_col_fn(col: int) -> spec_fn(int) -> Seq<TileView> {
    |r: int| io_cell_tiles(col, r)
}

pub open spec fn v4_lrio_span_fn(col: int) -> spec_fn(int) -> Seq<SpanView> {
    |r: int|
        if r % 32 == 8 {
            seq![("HCLK_IOIS_DCI"@, col, r, 2int, 3int)]
        } else if r % 32 == 24 {
            seq![("HCLK_IOIS_LVDS"@, col, r, 2int, 3int)]
        } else {
            Seq::empty()
        }
}

fn push_v4_io_col(tiles: &mut Vec<GridTile>, spans: &mut Vec<SpanTile>, col: usize, rows: usize)
    ensures
        tiles_view(final(tiles)@) == tiles_view(old(tiles)@) + concat_map(rows as nat, io_col_fn(col as int)),
        spans_view(final(spans)@) == spans_view(old(spans)@) + concat_map(rows as nat, v4_lrio_span_fn(col as int)),
{
    let mut r: usize = 0;
    while r < rows
        invariant
            r <= rows,
            tiles_view(tiles@) == tiles_view(old(tiles)@) + concat_map(r as nat, io_col_fn(col as int)),
            spans_view(spans@) == spans_view(old(spans)@) + concat_map(r as nat, v4_lrio_span_fn(col as int)),
        decreases rows - r,
    {
        let ghost t0 = tiles_view(tiles@);
        let ghost s0 = spans_view(spans@);
        push_tile(tiles, mk_tile1("INTF", col, r));
        push_tile(tiles, mk_tile1("IO", col, r));
        if r % 32 == 8 {
            push_span(spans, "HCLK_IOIS_DCI", col, r, 2, 3);
        } else if r % 32 == 24 {
            push_span(spans, "HCLK_IOIS_LVDS", col, r, 2, 3);
        }
        assert(tiles_view(tiles@) =~= t0 + io_col_fn(col as int)(r as int));
        assert(spans_view(spans@) =~= s0 + v4_lrio_span_fn(col as int)(r as int));
        r = r + 1;
    }
}

/// The tiles of the configuration column's cells on a Virtex 4: interface
/// and IO tiles outside the site holes, and a clock row tile (with a DCM
/// clock tile outside the IO stretch between `dcmiob` and `iobdcm`) on the
/// middle row of each region.
pub open spec fn v4_cio_tile_fn(col: int, site: Seq<Rect>, dcmiob: int, iobdcm: int) -> spec_fn(int) -> Seq<TileView> {
    |r: int|
        (if in_some_rect(site, ColId(col as usize), RowId(r as usize)) {
            Seq::empty()
        } else {
            io_cell_tiles(col, r)
        }) + if r % 16 == 8 {
            seq![tile0("CLK_HROW"@, col, r)] + if r < dcmiob || r > iobdcm {
                seq![tile0("HCLK_DCM"@, col, r)]
            } else {
                Seq::empty()
            }
        } else {
            Seq::empty()
        }
}

/// The span tiles of the clock rows of the configuration column within the
/// IO stretch: at its bottom, at its top, just above the clock region's
/// bottom, and elsewhere.
pub open spec fn v4_cio_span_fn(col: int, dcmiob: int, iobdcm: int, bufg: int) -> spec_fn(int) -> Seq<SpanView> {
    |r: int|
        if r % 16 == 8 && !(r < dcmiob || r > iobdcm) {
            seq![
                if r == dcmiob {
                    ("HCLK_DCMIOB"@, col, r, 0int, 2int)
                } else if r == iobdcm {
                    ("HCLK_IOBDCM"@, col, r, 2int, 2int)
                } else if r == bufg + 8 {
                    ("HCLK_CENTER_ABOVE_CFG"@, col, r, 0int, 2int)
                } else {
                    ("HCLK_CENTER"@, col, r, 2int, 2int)
                },
            ]
        } else {
            Seq::empty()
        }
}

/// The tiles of the configuration column of a Virtex 4 outside its blocks:
/// those of its cells, then the IO clock tiles at the ends of the IO
/// stretch and the clock terminators at the ends of the column.
pub open spec fn v4_cio_tiles(col: int, rows: nat, site: Seq<Rect>, dcmiob: int, iobdcm: int) -> Seq<TileView> {
    concat_map(rows, v4_cio_tile_fn(col, site, dcmiob, iobdcm)) + seq![
        tile0("CLK_IOB_B"@, col, dcmiob),
        tile0("CLK_IOB_T"@, col, iobdcm - 16),
        tile0("CLK_TERM"@, col, 0),
        tile0("CLK_TERM"@, col, rows - 1),
    ]
}

fn push_v4_cio_row(
    tiles: &mut Vec<GridTile>,
    spans: &mut Vec<SpanTile>,
    col: usize,
    r: usize,
    site: &Vec<Rect>,
    dcmiob: usize,
    iobdcm: usize,
    bufg: usize,
)
    requires
        bufg + 8 <= usize::MAX,
    ensures
        tiles_view(final(tiles)@) == tiles_view(old(tiles)@) + v4_cio_tile_fn(
            col as int,
            site@,
            dcmiob as int,
            iobdcm as int,
        )(r as int),
        spans_view(final(spans)@) == spans_view(old(spans)@) + v4_cio_span_fn(
            col as int,
            dcmiob as int,
            iobdcm as int,
            bufg as int,
        )(r as int),
{
    if !rects_contain(site, ColId(col), RowId(r)) {
        push_tile(tiles, mk_tile1("INTF", col, r));
        push_tile(tiles, mk_tile1("IO", col, r));
    }
    let ghost t1 = tiles_view(tiles@);
    if r % 16 == 8 {
        push_tile(tiles, mk_tile0("CLK_HROW", col, r));
        if r < dcmiob || r > iobdcm {
            push_tile(tiles, mk_tile0("HCLK_DCM", col, r));
        } else if r == dcmiob {
            push_span(spans, "HCLK_DCMIOB", col, r, 0, 2);
        } else if r == iobdcm {
            push_span(spans, "HCLK_IOBDCM", col, r, 2, 2);
        } else if r == bufg + 8 {
            push_span(spans, "HCLK_CENTER_ABOVE_CFG", col, r, 0, 2);
        } else {
            push_span(spans, "HCLK_CENTER", col, r, 2, 2);
        }
    }
    assert(tiles_view(final(tiles)@) =~= tiles_view(old(tiles)@) + v4_cio_tile_fn(
        col as int,
        site@,
        dcmiob as int,
        iobdcm as int,
    )(r as int));
    assert(spans_view(final(spans)@) =~= spans_view(old(spans)@) + v4_cio_span_fn(
        col as int,
        dcmiob as int,
        iobdcm as int,
        bufg as int,
    )(r as int));
}

fn push_v4_cio(
    tiles: &mut Vec<GridTile>,
    spans: &mut Vec<SpanTile>,
    col: usize,
    rows: usize,
    site: &Vec<Rect>,
    dcmiob: usize,
    iobdcm: usize,
    bufg: usize,
)
    requires
        rows >= 1,
        iobdcm >= 16,
        bufg + 8 <= usize::MAX,
    ensures
        tiles_view(final(tiles)@) == tiles_view(old(tiles)@) + v4_cio_tiles(
            col as int,
            rows as nat,
            site@,
            dcmiob as int,
            iobdcm as int,
        ),
        spans_view(final(spans)@) == spans_view(old(spans)@) + concat_map(
            rows as nat,
            v4_cio_span_fn(col as int, dcmiob as int, iobdcm as int, bufg as int),
        ),
{
    let ghost f = v4_cio_tile_fn(col as int, site@, dcmiob as int, iobdcm as int);
    let ghost g = v4_cio_span_fn(col as int, dcmiob as int, iobdcm as int, bufg as int);
    let mut r: usize = 0;
    while r < rows
        invariant
            r <= rows,
            bufg + 8 <= usize::MAX,
            f == v4_cio_tile_fn(col as int, site@, dcmiob as int, iobdcm as int),
            g == v4_cio_span_fn(col as int, dcmiob as int, iobdcm as int, bufg as int),
            tiles_view(tiles@) == tiles_view(old(tiles)@) + concat_map(r as nat, f),
            spans_view(spans@) == spans_view(old(spans)@) + concat_map(r as nat, g),
        decreases rows - r,
    {
        push_v4_cio_row(tiles, spans, col, r, site, dcmiob, iobdcm, bufg);
        r = r + 1;
    }
    let ghost t2 = tiles_view(tiles@);
    push_tile(tiles, mk_tile0("CLK_IOB_B", col, dcmiob));
    push_tile(tiles, mk_tile0("CLK_IOB_T", col, iobdcm - 16));
    push_tile(tiles, mk_tile0("CLK_TERM", col, 0));
    push_tile(tiles, mk_tile0("CLK_TERM", col, rows - 1));
    assert(tiles_view(tiles@) =~= tiles_view(old(tiles)@) + v4_cio_tiles(
        col as int,
        rows as nat,
        site@,
        dcmiob as int,
        iobdcm as int,
    ));
}

// ---------------------------------------------------------------- PowerPC blocks

/// The cells of a Virtex 4 PowerPC block at `(bc, br)`: its west and east
/// columns of twenty-four cells, then the seven cells between them along
/// its bottom and its top row.
pub open spec fn ppc_cells(bc: int, br: int) -> Seq<(int, int)> {
    cell_run(bc, br, 24) + cell_run(bc + 8, br, 24) + Seq::new(7, |i: int| (bc + 1 + i, br)) + Seq::new(
        7,
        |i: int| (bc + 1 + i, br + 23),
    )
}

/// The tiles of a PowerPC block: an interface tile on each of its cells,
/// then the block's tile.
pub open spec fn ppc_tiles(bc: int, br: int) -> Seq<TileView> {
    ppc_cells(bc, br).map_values(|p: (int, int)| tile1("INTF"@, p.0, p.1)).push(("PPC"@, bc, br, ppc_cells(bc, br)))
}

/// The connections across a PowerPC block: between its west and east
/// columns on each of its inner rows, and between its bottom and top rows
/// on each of its inner columns (the first five of class A, the last two of
/// class B).
pub open spec fn ppc_conns(bc: int, br: int) -> Seq<ConnView> {
    Seq::new(22, |i: int| (bc, br + 1 + i, "PPC.E"@, bc + 8, br + 1 + i, "PPC.W"@)) + Seq::new(
        7,
        |i: int|
            (
                bc + 1 + i,
                br,
                if i < 5 { "PPCA.N"@ } else { "PPCB.N"@ },
                bc + 1 + i,
                br + 23,
                if i < 5 { "PPCA.S"@ } else { "PPCB.S"@ },
            ),
    )
}

pub open spec fn v4_ppc_tiles_fn(chip: Chip) -> spec_fn(int) -> Seq<TileView> {
    |k: int| ppc_tiles(chip.holes_ppc@[k].0.0 as int, chip.holes_ppc@[k].1.0 as int)
}

pub open spec fn v4_ppc_conns_fn(chip: Chip) -> spec_fn(int) -> Seq<ConnView> {
    |k: int| ppc_conns(chip.holes_ppc@[k].0.0 as int, chip.holes_ppc@[k].1.0 as int)
}

fn ppc_cell_list(bc: usize, br: usize) -> (v: Vec<(usize, usize)>)
    requires
        bc + 9 <= usize::MAX,
        br + 24 <= usize::MAX,
    ensures
        cells_view(v@) == ppc_cells(bc as int, br as int),
{
    let mut v: Vec<(usize, usize)> = Vec::new();
    let mut i: usize = 0;
    while i < 24
        invariant
            i <= 24,
            br + 24 <= usize::MAX,
            cells_view(v@) == cell_run(bc as int, br as int, i as nat),
        decreases 24 - i,
    {
        let ghost v0 = v@;
        v.push((bc, br + i));
        assert(cells_view(v@) =~= cells_view(v0).push((bc as int, br + i)));
        assert(cells_view(v@) =~= cell_run(bc as int, br as int, (i + 1) as nat));
        i = i + 1;
    }
    let ghost a = cells_view(v@);
    let mut i: usize = 0;
    while i < 24
        invariant
            i <= 24,
            bc + 9 <= usize::MAX,
            br + 24 <= usize::MAX,
            cells_view(v@) == a + cell_run(bc + 8, br as int, i as nat),
        decreases 24 - i,
    {
        let ghost v0 = v@;
        v.push((bc + 8, br + i));
        assert(cells_view(v@) =~= cells_view(v0).push((bc + 8, br + i)));
        assert(cells_view(v@) =~= a + cell_run(bc + 8, br as int, (i + 1) as nat));
        i = i + 1;
    }
    let ghost b = cells_view(v@);
    let mut i: usize = 0;
    while i < 7
        invariant
            i <= 7,
            bc + 9 <= usize::MAX,
            br + 24 <= usize::MAX,
            cells_view(v@) == b + Seq::new(i as nat, |j: int| (bc + 1 + j, br as int)),
        decreases 7 - i,
    {
        let ghost v0 = v@;
        v.push((bc + 1 + i, br));
        assert(cells_view(v@) =~= cells_view(v0).push((bc + 1 + i, br as int)));
        assert(cells_view(v@) =~= b + Seq::new((i + 1) as nat, |j: int| (bc + 1 + j, br as int)));
        i = i + 1;
    }
    let ghost d = cells_view(v@);
    let mut i: usize = 0;
    while i < 7
        invariant
            i <= 7,
            bc + 9 <= usize::MAX,
            br + 24 <= usize::MAX,
            cells_view(v@) == d + Seq::new(i as nat, |j: int| (bc + 1 + j, br + 23)),
        decreases 7 - i,
    {
        let ghost v0 = v@;
        v.push((bc + 1 + i, br + 23));
        assert(cells_view(v@) =~= cells_view(v0).push((bc + 1 + i, br + 23)));
        assert(cells_view(v@) =~= d + Seq::new((i + 1) as nat, |j: int| (bc + 1 + j, br + 23)));
        i = i + 1;
    }
    assert(cells_view(v@) =~= ppc_cells(bc as int, br as int));
    v
}

fn push_ppc(tiles: &mut Vec<GridTile>, conns: &mut Vec<GridConn>, bc: usize, br: usize)
    requires
        bc + 9 <= usize::MAX,
        br + 24 <= usize::MAX,
    ensures
        tiles_view(final(tiles)@) == tiles_view(old(tiles)@) + ppc_tiles(bc as int, br as int),
        conns_view(final(conns)@) == conns_view(old(conns)@) + ppc_conns(bc as int, br as int),
{
    let mut i: usize = 0;
    while i < 22
        invariant
            i <= 22,
            bc + 9 <= usize::MAX,
            br + 24 <= usize::MAX,
            conns_view(conns@) == conns_view(old(conns)@) + ppc_conns(bc as int, br as int).take(i as int),
        decreases 22 - i,
    {
        push_conn(conns, bc, br + 1 + i, "PPC.E", bc + 8, br + 1 + i, "PPC.W");
        i = i + 1;
        assert(conns_view(conns@) =~= conns_view(old(conns)@) + ppc_conns(bc as int, br as int).take(i as int));
    }
    while i < 29
        invariant
            22 <= i <= 29,
            bc + 9 <= usize::MAX,
            br + 24 <= usize::MAX,
            conns_view(conns@) == conns_view(old(conns)@) + ppc_conns(bc as int, br as int).take(i as int),
        decreases 29 - i,
    {
        let dx = i - 21;
        push_conn(
            conns,
            bc + dx,
            br,
            if dx < 6 { "PPCA.N" } else { "PPCB.N" },
            bc + dx,
            br + 23,
            if dx < 6 { "PPCA.S" } else { "PPCB.S" },
        );
        i = i + 1;
        assert(conns_view(conns@) =~= conns_view(old(conns)@) + ppc_conns(bc as int, br as int).take(i as int));
    }
    assert(ppc_conns(bc as int, br as int).take(29) =~= ppc_conns(bc as int, br as int));
    let cells = ppc_cell_list(bc, br);
    let ghost cv = cells_view(cells@);
    let mut k: usize = 0;
    while k < cells.len()
        invariant
            k <= cells@.len(),
            cv == cells_view(cells@),
            cv == ppc_cells(bc as int, br as int),
            tiles_view(tiles@) == tiles_view(old(tiles)@) + cv.take(k as int).map_values(
                |p: (int, int)| tile1("INTF"@, p.0, p.1),
            ),
        decreases cells@.len() - k,
    {
        let (c, r) = cells[k];
        push_tile(tiles, mk_tile1("INTF", c, r));
        k = k + 1;
        assert(tiles_view(tiles@) =~= tiles_view(old(tiles)@) + cv.take(k as int).map_values(
            |p: (int, int)| tile1("INTF"@, p.0, p.1),
        ));
    }
    assert(cv.take(cells@.len() as int) =~= cv);
    push_tile(tiles, mk_tile("PPC", bc, br, cells));
    assert(tiles_view(tiles@) =~= tiles_view(old(tiles)@) + ppc_tiles(bc as int, br as int));
}

// ---------------------------------------------------------------- terminators and breaks

/// The terminators at the edges of a die of `cols` columns and `rows`
/// rows: its bottom row, its top row, its west column and its east column.
pub open spec fn edge_terms(cols: nat, rows: nat) -> Seq<TermView> {
    Seq::new(cols, |c: int| ("TERM.S"@, c, 0int)) + Seq::new(cols, |c: int| ("TERM.N"@, c, rows - 1)) + Seq::new(
        rows,
        |r: int| ("TERM.W"@, 0int, r),
    ) + Seq::new(rows, |r: int| ("TERM.E"@, cols - 1, r))
}

fn push_edge_terms(terms: &mut Vec<GridTerm>, cols: usize, rows: usize)
    requires
        cols >= 1,
        rows >= 1,
    ensures
        terms_view(final(terms)@) == terms_view(old(terms)@) + edge_terms(cols as nat, rows as nat),
{
    let ghost t0 = terms_view(terms@);
    let ghost e = edge_terms(cols as nat, rows as nat);
    let mut c: usize = 0;
    while c < cols
        invariant
            c <= cols,
            cols >= 1,
            rows >= 1,
            e == edge_terms(cols as nat, rows as nat),
            terms_view(terms@) == t0 + e.take(c as int),
        decreases cols - c,
    {
        push_term(terms, "TERM.S", c, 0);
        c = c + 1;
        assert(terms_view(terms@) =~= t0 + e.take(c as int));
    }
    let mut c: usize = 0;
    while c < cols
        invariant
            c <= cols,
            cols >= 1,
            rows >= 1,
            e == edge_terms(cols as nat, rows as nat),
            terms_view(terms@) == t0 + e.take(cols + c),
        decreases cols - c,
    {
        push_term(terms, "TERM.N", c, rows - 1);
        c = c + 1;
        assert(terms_view(terms@) =~= t0 + e.take(cols + c));
    }
    let mut r: usize = 0;
    while r < rows
        invariant
            r <= rows,
            cols >= 1,
            rows >= 1,
            e == edge_terms(cols as nat, rows as nat),
            terms_view(terms@) == t0 + e.take(2 * cols + r),
        decreases rows - r,
    {
        push_term(terms, "TERM.W", 0, r);
        r = r + 1;
        assert(terms_view(terms@) =~= t0 + e.take(2 * cols + r));
    }
    let mut r: usize = 0;
    while r < rows
        invariant
            r <= rows,
            cols >= 1,
            rows >= 1,
            e == edge_terms(cols as nat, rows as nat),
            terms_view(terms@) == t0 + e.take(2 * cols + rows + r),
        decreases rows - r,
    {
        push_term(terms, "TERM.E", cols - 1, r);
        r = r + 1;
        assert(terms_view(terms@) =~= t0 + e.take(2 * cols + rows + r));
    }
    assert(e.take(2 * cols + 2 * rows) =~= e);
}

pub open spec fn brkh_cell_fn(r: int, holes: Seq<Rect>) -> spec_fn(int) -> Seq<ConnView> {
    |c: int|
        if in_some_rect(holes, ColId(c as usize), RowId(r as usize)) {
            Seq::empty()
        } else {
            seq![(c, r - 1, "BRKH.N"@, c, r, "BRKH.S"@)]
        }
}

pub open spec fn brkh_row_fn(cols: nat, holes: Seq<Rect>) -> spec_fn(int) -> Seq<ConnView> {
    |r: int|
        if r % 8 == 0 && r != 0 {
            concat_map(cols, brkh_cell_fn(r, holes))
        } else {
            Seq::empty()
        }
}

pub open spec fn clb_buffer_col_fn(chip: Chip, rows: nat) -> spec_fn(int) -> Seq<ConnView> {
    |c: int|
        if (chip.columns@[c] is Io || chip.columns@[c] is Cfg) && c != 0 && c != chip.columns@.len() - 1 {
            Seq::new(rows, |r: int| (c, r, "CLB_BUFFER.E"@, c + 1, r, "CLB_BUFFER.W"@))
        } else {
            Seq::empty()
        }
}

/// The connections across the breaks of a Virtex 4 die: across the clock
/// breaks below every eighth row outside the interconnect holes, then
/// across the buffers east of the inner IO and configuration columns.
pub open spec fn v4_break_conns(chip: Chip, rows: nat, holes: Seq<Rect>) -> Seq<ConnView> {
    concat_map(rows, brkh_row_fn(chip.columns@.len(), holes)) + concat_map(
        chip.columns@.len(),
        clb_buffer_col_fn(chip, rows),
    )
}

fn push_v4_break_conns(conns: &mut Vec<GridConn>, chip: &Chip, rows: usize, holes: &Vec<Rect>)
    ensures
        conns_view(final(conns)@) == conns_view(old(conns)@) + v4_break_conns(*chip, rows as nat, holes@),
{
    let cols = chip.columns.len();
    let ghost f = brkh_row_fn(cols as nat, holes@);
    let mut r: usize = 0;
    while r < rows
        invariant
            r <= rows,
            cols == chip.columns@.len(),
            f == brkh_row_fn(cols as nat, holes@),
            conns_view(conns@) == conns_view(old(conns)@) + concat_map(r as nat, f),
        decreases rows - r,
    {
        let ghost o0 = conns_view(conns@);
        if r % 8 == 0 && r != 0 {
            let ghost g = brkh_cell_fn(r as int, holes@);
            let mut c: usize = 0;
            while c < cols
                invariant
                    c <= cols,
                    r >= 1,
                    g == brkh_cell_fn(r as int, holes@),
                    conns_view(conns@) == o0 + concat_map(c as nat, g),
                decreases cols - c,
            {
                let ghost o1 = conns_view(conns@);
                if !rects_contain(holes, ColId(c), RowId(r)) {
                    push_conn(conns, c, r - 1, "BRKH.N", c, r, "BRKH.S");
                }
                assert(conns_view(conns@) =~= o1 + g(c as int));
                c = c + 1;
            }
        }
        assert(conns_view(conns@) =~= o0 + f(r as int));
        r = r + 1;
    }
    let ghost o2 = conns_view(conns@);
    let ghost h = clb_buffer_col_fn(*chip, rows as nat);
    let mut c: usize = 0;
    while c < cols
        invariant
            c <= cols,
            cols == chip.columns@.len(),
            h == clb_buffer_col_fn(*chip, rows as nat),
            conns_view(conns@) == o2 + concat_map(c as nat, h),
        decreases cols - c,
    {
        let ghost o0 = conns_view(conns@);
        let kind = chip.columns[c];
        if (kind == ColumnKind::Io || kind == ColumnKind::Cfg) && c != 0 && c != cols - 1 {
            let mut r: usize = 0;
            while r < rows
                invariant
                    r <= rows,
                    c + 1 < cols,
                    conns_view(conns@) == o0 + Seq::new(
                        r as nat,
                        |j: int| (c as int, j, "CLB_BUFFER.E"@, c + 1, j, "CLB_BUFFER.W"@),
                    ),
                decreases rows - r,
            {
                push_conn(conns, c, r, "CLB_BUFFER.E", c + 1, r, "CLB_BUFFER.W");
                r = r + 1;
                assert(conns_view(conns@) =~= o0 + Seq::new(
                    r as nat,
                    |j: int| (c as int, j, "CLB_BUFFER.E"@, c + 1, j, "CLB_BUFFER.W"@),
                ));
            }
        }
        assert(conns_view(conns@) =~= o0 + h(c as int));
        c = c + 1;
    }
}

// ---------------------------------------------------------------- logic, memory and transceiver columns

pub open spec fn site_tile_cell_fn(c: int, site: Seq<Rect>, class: Seq<char>) -> spec_fn(int) -> Seq<TileView> {
    |r: int|
        if in_some_rect(site, ColId(c as usize), RowId(r as usize)) {
            Seq::empty()
        } else {
            seq![tile1(class, c, r)]
        }
}

pub open spec fn clb_col_fn(chip: Chip, rows: nat, site: Seq<Rect>) -> spec_fn(int) -> Seq<TileView> {
    |c: int|
        if chip.columns@[c] is ClbLM {
            concat_map(rows, site_tile_cell_fn(c, site, "CLB"@))
        } else {
            Seq::empty()
        }
}

/// The CLB tiles of a Virtex 4 die: one on each cell of each CLBLM column
/// outside the site holes.
pub open spec fn v4_clb_tiles(chip: Chip, rows: nat, site: Seq<Rect>) -> Seq<TileView> {
    concat_map(chip.columns@.len(), clb_col_fn(chip, rows, site))
}

fn push_v4_clb_tiles(tiles: &mut Vec<GridTile>, chip: &Chip, rows: usize, site: &Vec<Rect>)
    ensures
        tiles_view(final(tiles)@) == tiles_view(old(tiles)@) + v4_clb_tiles(*chip, rows as nat, site@),
{
    let ghost f = clb_col_fn(*chip, rows as nat, site@);
    let mut c: usize = 0;
    while c < chip.columns.len()
        invariant
            c <= chip.columns@.len(),
            f == clb_col_fn(*chip, rows as nat, site@),
            tiles_view(tiles@) == tiles_view(old(tiles)@) + concat_map(c as nat, f),
        decreases chip.columns@.len() - c,
    {
        let ghost o0 = tiles_view(tiles@);
        if chip.columns[c] == ColumnKind::ClbLM {
            let ghost g = site_tile_cell_fn(c as int, site@, "CLB"@);
            let mut r: usize = 0;
            while r < rows
                invariant
                    r <= rows,
                    g == site_tile_cell_fn(c as int, site@, "CLB"@),
                    tiles_view(tiles@) == o0 + concat_map(r as nat, g),
                decreases rows - r,
            {
                let ghost o1 = tiles_view(tiles@);
                if !rects_contain(site, ColId(c), RowId(r)) {
                    push_tile(tiles, mk_tile1("CLB", c, r));
                }
                assert(tiles_view(tiles@) =~= o1 + g(r as int));
                r = r + 1;
            }
        }
        assert(tiles_view(tiles@) =~= o0 + f(c as int));
        c = c + 1;
    }
}

pub open spec fn block_cell_fn(c: int, site: Seq<Rect>, class: Seq<char>) -> spec_fn(int) -> Seq<TileView> {
    |r: int|
        if r % 4 == 0 && !in_some_rect(site, ColId(c as usize), RowId(r as usize)) {
            block_tiles(class, c, r, 4)
        } else {
            Seq::empty()
        }
}

pub open spec fn bram_dsp_col_fn(chip: Chip, rows: nat, site: Seq<Rect>) -> spec_fn(int) -> Seq<TileView> {
    |c: int|
        if chip.columns@[c] is Bram {
            concat_map(rows, block_cell_fn(c, site, "BRAM"@))
        } else if chip.columns@[c] is Dsp {
            concat_map(rows, block_cell_fn(c, site, "DSP"@))
        } else {
            Seq::empty()
        }
}

/// The block RAM and DSP tiles of a Virtex 4 die: a block of four cells
/// from every fourth row of each such column, outside the site holes.
pub open spec fn v4_bram_dsp_tiles(chip: Chip, rows: nat, site: Seq<Rect>) -> Seq<TileView> {
    concat_map(chip.columns@.len(), bram_dsp_col_fn(chip, rows, site))
}

pub(crate) fn push_block_col(tiles: &mut Vec<GridTile>, c: usize, rows: usize, site: &Vec<Rect>, class: &'static str)
    requires
        rows + 4 <= usize::MAX,
    ensures
        tiles_view(final(tiles)@) == tiles_view(old(tiles)@) + concat_map(
            rows as nat,
            block_cell_fn(c as int, site@, class@),
        ),
{
    let ghost g = block_cell_fn(c as int, site@, class@);
    let mut r: usize = 0;
    while r < rows
        invariant
            r <= rows,
            rows + 4 <= usize::MAX,
            g == block_cell_fn(c as int, site@, class@),
            tiles_view(tiles@) == tiles_view(old(tiles)@) + concat_map(r as nat, g),
        decreases rows - r,
    {
        let ghost o1 = tiles_view(tiles@);
        if r % 4 == 0 && !rects_contain(site, ColId(c), RowId(r)) {
            push_block(tiles, class, c, r, 4);
        }
        assert(tiles_view(tiles@) =~= o1 + g(r as int));
        r = r + 1;
    }
}

fn push_v4_bram_dsp_tiles(tiles: &mut Vec<GridTile>, chip: &Chip, rows: usize, site: &Vec<Rect>)
    requires
        rows + 4 <= usize::MAX,
    ensures
        tiles_view(final(tiles)@) == tiles_view(old(tiles)@) + v4_bram_dsp_tiles(*chip, rows as nat, site@),
{
    let ghost f = bram_dsp_col_fn(*chip, rows as nat, site@);
    let mut c: usize = 0;
    while c < chip.columns.len()
        invariant
            c <= chip.columns@.len(),
            rows + 4 <= usize::MAX,
            f == bram_dsp_col_fn(*chip, rows as nat, site@),
            tiles_view(tiles@) == tiles_view(old(tiles)@) + concat_map(c as nat, f),
        decreases chip.columns@.len() - c,
    {
        let ghost o0 = tiles_view(tiles@);
        if chip.columns[c] == ColumnKind::Bram {
            push_block_col(tiles, c, rows, site, "BRAM");
        } else if chip.columns[c] == ColumnKind::Dsp {
            push_block_col(tiles, c, rows, site, "DSP");
        }
        assert(tiles_view(tiles@) =~= o0 + f(c as int));
        c = c + 1;
    }
}

pub open spec fn v4_gt_reg_fn(c: int) -> spec_fn(int) -> Seq<TileView> {
    |reg: int|
        if reg % 2 == 0 {
            block_tiles("MGT"@, c, reg * 16, 32) + seq![
                tile0("HCLK_MGT"@, c, reg * 16 + 8),
                tile0("HCLK_MGT"@, c, reg * 16 + 24),
            ]
        } else {
            Seq::empty()
        }
}

pub open spec fn v4_gt_col_fn(chip: Chip) -> spec_fn(int) -> Seq<TileView> {
    |c: int|
        if chip.columns@[c] is Gt {
            concat_map(chip.regs as nat, v4_gt_reg_fn(c))
        } else {
            Seq::empty()
        }
}

/// The transceiver tiles of a Virtex 4 die: in each transceiver column, a
/// block of thirty-two cells from the bottom of every other region (from
/// the bottom one), with its two clock tiles.
pub open spec fn v4_gt_tiles(chip: Chip) -> Seq<TileView> {
    concat_map(chip.columns@.len(), v4_gt_col_fn(chip))
}

fn push_v4_gt_tiles(tiles: &mut Vec<GridTile>, chip: &Chip)
    requires
        chip.regs * 16 + 32 <= usize::MAX,
    ensures
        tiles_view(final(tiles)@) == tiles_view(old(tiles)@) + v4_gt_tiles(*chip),
{
    let ghost f = v4_gt_col_fn(*chip);
    let mut c: usize = 0;
    while c < chip.columns.len()
        invariant
            c <= chip.columns@.len(),
            chip.regs * 16 + 32 <= usize::MAX,
            f == v4_gt_col_fn(*chip),
            tiles_view(tiles@) == tiles_view(old(tiles)@) + concat_map(c as nat, f),
        decreases chip.columns@.len() - c,
    {
        let ghost o0 = tiles_view(tiles@);
        if chip.columns[c] == ColumnKind::Gt {
            let ghost g = v4_gt_reg_fn(c as int);
            let mut reg: usize = 0;
            while reg < chip.regs
                invariant
                    reg <= chip.regs,
                    chip.regs * 16 + 32 <= usize::MAX,
                    g == v4_gt_reg_fn(c as int),
                    tiles_view(tiles@) == o0 + concat_map(reg as nat, g),
                decreases chip.regs - reg,
            {
                let ghost o1 = tiles_view(tiles@);
                if reg % 2 == 0 {
                    push_block(tiles, "MGT", c, reg * 16, 32);
                    push_tile(tiles, mk_tile0("HCLK_MGT", c, reg * 16 + 8));
                    push_tile(tiles, mk_tile0("HCLK_MGT", c, reg * 16 + 24));
                }
                assert(tiles_view(tiles@) =~= o1 + g(reg as int));
                reg = reg + 1;
            }
        }
        assert(tiles_view(tiles@) =~= o0 + f(c as int));
        c = c + 1;
    }
}

// ---------------------------------------------------------------- clock rows

pub open spec fn v4_hclk_cell_fn(chip: Chip, col_cfg: int, holes: Seq<Rect>, c: int) -> spec_fn(int) -> Seq<
    TileView,
> {
    |r: int|
        if r % 16 == 8 && !in_some_rect(holes, ColId(c as usize), RowId(r as usize)) {
            seq![tile1("HCLK"@, c, r)] + (if c == 0 || c == chip.columns@.len() - 1 {
                seq![tile0("HCLK_TERM"@, c, r)]
            } else {
                Seq::empty()
            }) + if chip.cols_vbrk@.contains(ColId(c as usize)) {
                seq![tile0("HCLK_MGT_REPEATER"@, if c < col_cfg { c } else { c - 1 }, r)]
            } else {
                Seq::empty()
            }
        } else {
            Seq::empty()
        }
}

pub open spec fn v4_hclk_col_fn(chip: Chip, col_cfg: int, rows: nat, holes: Seq<Rect>) -> spec_fn(int) -> Seq<
    TileView,
> {
    |c: int| concat_map(rows, v4_hclk_cell_fn(chip, col_cfg, holes, c))
}

/// The clock row tiles of a Virtex 4 die: on the middle row of each region
/// outside the interconnect holes, a clock tile, with a terminator at the
/// west and east edges and a repeater beside each vertical break column
/// (on the side of the configuration column).
pub open spec fn v4_hclk_tiles(chip: Chip, col_cfg: int, rows: nat, holes: Seq<Rect>) -> Seq<TileView> {
    concat_map(chip.columns@.len(), v4_hclk_col_fn(chip, col_cfg, rows, holes))
}

pub(crate) fn contains_col(v: &Vec<ColId>, c: usize) -> (b: bool)
    ensures
        b == v@.contains(ColId(c)),
{
    let mut i: usize = 0;
    while i < v.len()
        invariant
            i <= v@.len(),
            forall|j: int| 0 <= j < i ==> v@[j] != ColId(c),
        decreases v@.len() - i,
    {
        if v[i].0 == c {
            assert(v@[i as int] == ColId(c));
            return true;
        }
        i = i + 1;
    }
    false
}

fn push_v4_hclk_tiles(tiles: &mut Vec<GridTile>, chip: &Chip, col_cfg: usize, rows: usize, holes: &Vec<Rect>)
    requires
        forall|i: int| 0 <= i < chip.cols_vbrk@.len() ==> (#[trigger] chip.cols_vbrk@[i]).0 < col_cfg || chip.cols_vbrk@[i].0 >= 1,
    ensures
        tiles_view(final(tiles)@) == tiles_view(old(tiles)@) + v4_hclk_tiles(*chip, col_cfg as int, rows as nat, holes@),
{
    let cols = chip.columns.len();
    let ghost f = v4_hclk_col_fn(*chip, col_cfg as int, rows as nat, holes@);
    let mut c: usize = 0;
    while c < cols
        invariant
            c <= cols,
            cols == chip.columns@.len(),
            forall|i: int|
                0 <= i < chip.cols_vbrk@.len() ==> (#[trigger] chip.cols_vbrk@[i]).0 < col_cfg || chip.cols_vbrk@[i].0 >= 1,
            f == v4_hclk_col_fn(*chip, col_cfg as int, rows as nat, holes@),
            tiles_view(tiles@) == tiles_view(old(tiles)@) + concat_map(c as nat, f),
        decreases cols - c,
    {
        let ghost o0 = tiles_view(tiles@);
        let ghost g = v4_hclk_cell_fn(*chip, col_cfg as int, holes@, c as int);
        let vbrk = contains_col(&chip.cols_vbrk, c);
        assert(vbrk ==> c < col_cfg || c >= 1) by {
            if vbrk {
                let i = choose|i: int| 0 <= i < chip.cols_vbrk@.len() && chip.cols_vbrk@[i] == ColId(c);
                assert(chip.cols_vbrk@[i].0 < col_cfg || chip.cols_vbrk@[i].0 >= 1);
            }
        }
        let mut r: usize = 0;
        while r < rows
            invariant
                r <= rows,
                c < cols,
                cols == chip.columns@.len(),
                vbrk == chip.cols_vbrk@.contains(ColId(c)),
                vbrk ==> c < col_cfg || c >= 1,
                g == v4_hclk_cell_fn(*chip, col_cfg as int, holes@, c as int),
                tiles_view(tiles@) == o0 + concat_map(r as nat, g),
            decreases rows - r,
        {
            let ghost o1 = tiles_view(tiles@);
            if r % 16 == 8 && !rects_contain(holes, ColId(c), RowId(r)) {
                push_tile(tiles, mk_tile1("HCLK", c, r));
                if c == 0 || c == cols - 1 {
                    push_tile(tiles, mk_tile0("HCLK_TERM", c, r));
                }
                if vbrk {
                    push_tile(tiles, mk_tile0("HCLK_MGT_REPEATER", if c < col_cfg { c } else { c - 1 }, r));
                }
            }
            assert(tiles_view(tiles@) =~= o1 + g(r as int));
            r = r + 1;
        }
        assert(tiles_view(tiles@) =~= o0 + f(c as int));
        c = c + 1;
    }
}

/// A clock region slot of a Virtex die: the horizontal clock row that
/// feeds a cell, and the leaf row of its clock region.
#[derive(Clone, Copy, Debug, PartialEq, Eq, Structural, Hash)]
pub enum ClockRegion {
    Hclk,
    Leaf,
}

/// The root of the clock region of a slot that holds a cell of a Virtex 4
/// or Virtex 5 die: the clock row of the cell's region, in the
/// configuration column (or the column east of it, for the cells east of
/// it) for the clock row slot, and in the cell's own column for the leaf
/// slot.
pub open spec fn spec_clock_root(chip: Chip, col_cfg: int, slot: ClockRegion, c: int, r: int) -> (int, int) {
    let crow = chip.sp_row_reg_hclk(chip.sp_row_to_reg(r));
    match slot {
        ClockRegion::Hclk => (if c <= col_cfg { col_cfg } else { col_cfg + 1 }, crow),
        ClockRegion::Leaf => (c, crow),
    }
}

/// The root of the clock region of a slot that holds a cell of a Virtex 4
/// or Virtex 5 die.
pub fn clock_root(chip: &Chip, col_cfg: ColId, slot: ClockRegion, col: ColId, row: RowId) -> (p: (ColId, RowId))
    requires
        col_cfg.0 < usize::MAX,
        row.0 + chip.sp_rpr() <= usize::MAX,
    ensures
        (p.0.0 as int, p.1.0 as int) == spec_clock_root(*chip, col_cfg.0 as int, slot, col.0 as int, row.0 as int),
{
    let crow = chip.row_hclk(row);
    match slot {
        ClockRegion::Hclk => (if col.0 <= col_cfg.0 { col_cfg } else { ColId(col_cfg.0 + 1) }, crow),
        ClockRegion::Leaf => (col, crow),
    }
}

// ---------------------------------------------------------------- the whole die

/// The interconnect grid of a die: its tiles, its span tiles, its
/// terminators and its connections.
#[derive(Clone, Debug)]
pub struct DieGrid {
    pub tiles: Vec<GridTile>,
    pub spans: Vec<SpanTile>,
    pub terms: Vec<GridTerm>,
    pub conns: Vec<GridConn>,
}

/// The tiles of a Virtex 4 die, in the order in which expanding it lays
/// them out: interconnect, configuration column blocks, IO columns,
/// configuration column cells, PowerPC blocks, CLBs, block RAMs and DSPs,
/// transceivers and clock rows.
pub open spec fn spec_v4_grid_tiles(
    chip: Chip,
    col_cfg: int,
    col_lio: int,
    col_rio: int,
    int_holes: Seq<Rect>,
    site_holes: Seq<Rect>,
    dcmiob: int,
    iobdcm: int,
) -> Seq<TileView> {
    let rows = (chip.regs * 16) as nat;
    int_tiles(chip.columns@.len(), rows, int_holes) + v4_cfg_tiles(chip, col_cfg, chip.sp_row_reg_bot(chip.reg_cfg.0 as int) - 8)
        + concat_map(rows, io_col_fn(col_lio)) + concat_map(rows, io_col_fn(col_rio)) + v4_cio_tiles(
        col_cfg,
        rows,
        site_holes,
        dcmiob,
        iobdcm,
    ) + concat_map(chip.holes_ppc@.len(), v4_ppc_tiles_fn(chip)) + v4_clb_tiles(chip, rows, site_holes)
        + v4_bram_dsp_tiles(chip, rows, site_holes) + v4_gt_tiles(chip) + v4_hclk_tiles(chip, col_cfg, rows, int_holes)
}

/// The span tiles of a Virtex 4 die: those of the IO columns' clock rows,
/// then those of the configuration column's.
pub open spec fn spec_v4_grid_spans(chip: Chip, col_cfg: int, col_lio: int, col_rio: int, dcmiob: int, iobdcm: int) -> Seq<
    SpanView,
> {
    let rows = (chip.regs * 16) as nat;
    concat_map(rows, v4_lrio_span_fn(col_lio)) + concat_map(rows, v4_lrio_span_fn(col_rio)) + concat_map(
        rows,
        v4_cio_span_fn(col_cfg, dcmiob, iobdcm, chip.sp_row_reg_bot(chip.reg_clk.0 as int)),
    )
}

/// The connections of a Virtex 4 die: across the PowerPC blocks, then
/// across its breaks.
pub open spec fn spec_v4_grid_conns(chip: Chip, int_holes: Seq<Rect>) -> Seq<ConnView> {
    concat_map(chip.holes_ppc@.len(), v4_ppc_conns_fn(chip)) + v4_break_conns(chip, (chip.regs * 16) as nat, int_holes)
}

/// The grid of a Virtex 4 die can be laid out: it has cells, its
/// configuration block and the IO clock tile below the top special rows lie
/// above the bottom row, a vertical break column in the configuration
/// column or east of it has a column west of it, and every row and block
/// fits the index range.
pub open spec fn v4_grid_ok(chip: Chip, col_cfg: int, iobdcm: int) -> bool {
    &&& chip.regs >= 1
    &&& chip.columns@.len() >= 1
    &&& chip.regs * 16 + 32 <= usize::MAX
    &&& 8 <= chip.sp_row_reg_bot(chip.reg_cfg.0 as int)
    &&& chip.reg_cfg.0 * 16 + 16 <= usize::MAX
    &&& chip.reg_clk.0 * 16 + 8 <= usize::MAX
    &&& iobdcm >= 16
    &&& forall|k: int| 0 <= k < chip.rows_cfg@.len() ==> (#[trigger] chip.rows_cfg@[k]).0.0 + 8 <= usize::MAX
    &&& forall|k: int|
        0 <= k < chip.holes_ppc@.len() ==> (#[trigger] chip.holes_ppc@[k]).0.0 + 9 <= usize::MAX
            && chip.holes_ppc@[k].1.0 + 24 <= usize::MAX
    &&& forall|i: int|
        0 <= i < chip.cols_vbrk@.len() ==> (#[trigger] chip.cols_vbrk@[i]).0 < col_cfg || chip.cols_vbrk@[i].0 >= 1
}

/// The interconnect grid of a Virtex 4 die, given its special columns, its
/// interconnect and site holes and the ends of the configuration column's
/// IO stretch (as the site lists give them).
pub fn v4_grid(
    chip: &Chip,
    col_cfg: ColId,
    col_lio: ColId,
    col_rio: ColId,
    int_holes: &Vec<Rect>,
    site_holes: &Vec<Rect>,
    row_dcmiob: RowId,
    row_iobdcm: RowId,
) -> (g: DieGrid)
    requires
        chip.kind is Virtex4,
        v4_grid_ok(*chip, col_cfg.0 as int, row_iobdcm.0 as int),
    ensures
        tiles_view(g.tiles@) == spec_v4_grid_tiles(
            *chip,
            col_cfg.0 as int,
            col_lio.0 as int,
            col_rio.0 as int,
            int_holes@,
            site_holes@,
            row_dcmiob.0 as int,
            row_iobdcm.0 as int,
        ),
        spans_view(g.spans@) == spec_v4_grid_spans(
            *chip,
            col_cfg.0 as int,
            col_lio.0 as int,
            col_rio.0 as int,
            row_dcmiob.0 as int,
            row_iobdcm.0 as int,
        ),
        terms_view(g.terms@) == edge_terms(chip.columns@.len(), (chip.regs * 16) as nat),
        conns_view(g.conns@) == spec_v4_grid_conns(*chip, int_holes@),
{
    let rows = chip.regs * 16;
    let cols = chip.columns.len();
    let mut tiles: Vec<GridTile> = Vec::new();
    let mut spans: Vec<SpanTile> = Vec::new();
    let mut terms: Vec<GridTerm> = Vec::new();
    let mut conns: Vec<GridConn> = Vec::new();
    assert(tiles_view(tiles@) =~= Seq::<TileView>::empty());
    assert(spans_view(spans@) =~= Seq::<SpanView>::empty());
    assert(terms_view(terms@) =~= Seq::<TermView>::empty());
    assert(conns_view(conns@) =~= Seq::<ConnView>::empty());
    push_int_tiles(&mut tiles, cols, rows, int_holes);
    assert(chip.sp_rpr() == 16);
    let row_cfg = chip.row_reg_bot(chip.reg_cfg).0 - 8;
    push_v4_cfg_tiles(&mut tiles, chip, col_cfg.0, row_cfg);
    push_v4_io_col(&mut tiles, &mut spans, col_lio.0, rows);
    push_v4_io_col(&mut tiles, &mut spans, col_rio.0, rows);
    let bufg = chip.row_bufg().0;
    push_v4_cio(&mut tiles, &mut spans, col_cfg.0, rows, site_holes, row_dcmiob.0, row_iobdcm.0, bufg);
    let ghost t5 = tiles_view(tiles@);
    let mut k: usize = 0;
    while k < chip.holes_ppc.len()
        invariant
            k <= chip.holes_ppc@.len(),
            v4_grid_ok(*chip, col_cfg.0 as int, row_iobdcm.0 as int),
            tiles_view(tiles@) == t5 + concat_map(k as nat, v4_ppc_tiles_fn(*chip)),
            conns_view(conns@) == concat_map(k as nat, v4_ppc_conns_fn(*chip)),
        decreases chip.holes_ppc@.len() - k,
    {
        let (bc, br) = chip.holes_ppc[k];
        assert(chip.holes_ppc@[k as int].0.0 + 9 <= usize::MAX);
        push_ppc(&mut tiles, &mut conns, bc.0, br.0);
        k = k + 1;
    }
    push_edge_terms(&mut terms, cols, rows);
    push_v4_break_conns(&mut conns, chip, rows, int_holes);
    push_v4_clb_tiles(&mut tiles, chip, rows, site_holes);
    push_v4_bram_dsp_tiles(&mut tiles, chip, rows, site_holes);
    push_v4_gt_tiles(&mut tiles, chip);
    push_v4_hclk_tiles(&mut tiles, chip, col_cfg.0, rows, int_holes);
    DieGrid { tiles, spans, terms, conns }
}

} // verus!
