//! The interconnect grid of a Virtex 7 die: the tiles that expanding the
//! chip lays out on its cells, its span tiles, the terminators around its
//! hard blocks and at its edges, the connections across its clock breaks,
//! and the roots of its clock regions.
use vstd::prelude::*;
use crate::grid::{die_cell, ColId, DieCell, DieId, DirH, Rect, RowId};
use crate::seqs::{concat_map, lemma_add_contains, lemma_concat_map_contains};
use crate::tile::{
    cells_view, conns_view, mk_tile, mk_tile0, mk_tile1, push_conn, push_span, push_term, push_tile, spans_view,
    terms_view, tile0, tile1, tiles_view, ConnView, GridConn, GridTerm, GridTile, SpanTile, SpanView, TermView,
    TileView,
};
use crate::virtex4::chip::{Chip, ColumnKind, GtColumn, GtKind, IoColumn, IoKind};
use crate::virtex4::expanded::{in_some_rect, rects_contain};
use crate::virtex4::grid_v4::{cell_run, ClockRegion, DieGrid};
use crate::virtex4::grid_v5::{push_v5_clb_tiles, v5_clb_tiles};
use crate::virtex4::sites::{push_v7_bram_edge_holes, v7_bram_edge_holes};
use crate::text::str_equals;

verus! {

/// Whether an interconnect or site hole list holds the cell `(c, r)`.
pub open spec fn holds(holes: Seq<Rect>, c: int, r: int) -> bool {
    in_some_rect(holes, ColId(c as usize), RowId(r as usize))
}

// ---------------------------------------------------------------- interconnect

/// The tiles of a cell's interconnect on a Virtex 7: none in an
/// interconnect hole; otherwise the interconnect tile, with the interface
/// tile that the column's sites need outside the site holes.
pub open spec fn v7_int_cell_fn(chip: Chip, c: int, int_holes: Seq<Rect>, site_holes: Seq<Rect>) -> spec_fn(int) -> Seq<
    TileView,
> {
    |r: int|
        if holds(int_holes, c, r) {
            Seq::empty()
        } else {
            seq![tile1("INT"@, c, r)] + if holds(site_holes, c, r) {
                Seq::empty()
            } else {
                match chip.columns@[c] {
                    ColumnKind::Bram => seq![tile1("INTF_BRAM"@, c, r)],
                    ColumnKind::Dsp | ColumnKind::Cmt | ColumnKind::Cfg | ColumnKind::Clk | ColumnKind::Io => seq![
                        tile1("INTF"@, c, r),
                    ],
                    _ => Seq::empty(),
                }
            }
        }
}

pub open spec fn v7_int_col_fn(chip: Chip, int_holes: Seq<Rect>, site_holes: Seq<Rect>) -> spec_fn(int) -> Seq<
    TileView,
> {
    |c: int| concat_map((chip.regs * 50) as nat, v7_int_cell_fn(chip, c, int_holes, site_holes))
}

/// The interconnect tiles of a Virtex 7 die, column by column.
pub open spec fn v7_int_tiles(chip: Chip, int_holes: Seq<Rect>, site_holes: Seq<Rect>) -> Seq<TileView> {
    concat_map(chip.columns@.len(), v7_int_col_fn(chip, int_holes, site_holes))
}

fn push_v7_int_tiles(tiles: &mut Vec<GridTile>, chip: &Chip, int_holes: &Vec<Rect>, site_holes: &Vec<Rect>)
    requires
        chip.regs * 50 <= usize::MAX,
    ensures
        tiles_view(final(tiles)@) == tiles_view(old(tiles)@) + v7_int_tiles(*chip, int_holes@, site_holes@),
{
    let rows = chip.regs * 50;
    let ghost f = v7_int_col_fn(*chip, int_holes@, site_holes@);
    let mut c: usize = 0;
    while c < chip.columns.len()
        invariant
            c <= chip.columns@.len(),
            rows == chip.regs * 50,
            f == v7_int_col_fn(*chip, int_holes@, site_holes@),
            tiles_view(tiles@) == tiles_view(old(tiles)@) + concat_map(c as nat, f),
        decreases chip.columns@.len() - c,
    {
        let ghost o0 = tiles_view(tiles@);
        let ghost g = v7_int_cell_fn(*chip, c as int, int_holes@, site_holes@);
        let kind = chip.columns[c];
        let mut r: usize = 0;
        while r < rows
            invariant
                r <= rows,
                c < chip.columns@.len(),
                kind == chip.columns@[c as int],
                g == v7_int_cell_fn(*chip, c as int, int_holes@, site_holes@),
                tiles_view(tiles@) == o0 + concat_map(r as nat, g),
            decreases rows - r,
        {
            let ghost o1 = tiles_view(tiles@);
            if !rects_contain(int_holes, ColId(c), RowId(r)) {
                push_tile(tiles, mk_tile1("INT", c, r));
                if !rects_contain(site_holes, ColId(c), RowId(r)) {
                    match kind {
                        ColumnKind::Bram => {
                            push_tile(tiles, mk_tile1("INTF_BRAM", c, r));
                        },
                        ColumnKind::Dsp | ColumnKind::Cmt | ColumnKind::Cfg | ColumnKind::Clk | ColumnKind::Io => {
                            push_tile(tiles, mk_tile1("INTF", c, r));
                        },
                        _ => {},
                    }
                }
            }
            assert(tiles_view(tiles@) =~= o1 + g(r as int));
            r = r + 1;
        }
        assert(tiles_view(tiles@) =~= o0 + f(c as int));
        c = c + 1;
    }
}

// ---------------------------------------------------------------- configuration and processing system

pub open spec fn v7_cfg_term_fn(chip: Chip, cc: int) -> spec_fn(int) -> Seq<TermView> {
    |dx: int| {
        let rb = chip.sp_row_reg_bot(chip.reg_cfg.0 - 1);
        (if rb != 0 {
            seq![("TERM_N"@, cc - 6 + dx, rb - 1)]
        } else {
            Seq::empty()
        }) + if rb != chip.regs * 50 - 100 {
            seq![("TERM_S"@, cc - 6 + dx, rb + 100)]
        } else {
            Seq::empty()
        }
    }
}

/// The terminators around the configuration block of a Virtex 7 die (on
/// chips of more than one region): below and above each of the six columns
/// west of the configuration column, where the block does not reach the
/// die's edge.
pub open spec fn v7_cfg_terms(chip: Chip, cc: int) -> Seq<TermView> {
    if chip.regs != 1 {
        concat_map(6, v7_cfg_term_fn(chip, cc))
    } else {
        Seq::empty()
    }
}

/// The span tiles of the configuration column of a Virtex 7 die: the
/// configuration block of fifty cells from the bottom of the region below
/// the configuration region, and (on chips of more than one region) the
/// system monitor of twenty-five cells from seventy-five rows above it.
pub open spec fn v7_cfg_spans(chip: Chip, cc: int) -> Seq<SpanView> {
    let rb = chip.sp_row_reg_bot(chip.reg_cfg.0 - 1);
    seq![("CFG"@, cc, rb, 0int, 50int)] + if chip.regs != 1 {
        seq![("SYSMON"@, cc, rb + 75, 0int, 25int)]
    } else {
        Seq::empty()
    }
}

fn push_v7_cfg(terms: &mut Vec<GridTerm>, spans: &mut Vec<SpanTile>, chip: &Chip, cc: usize)
    requires
        chip.kind is Virtex7,
        cc >= 6,
        chip.reg_cfg.0 >= 1,
        chip.regs >= 1,
        chip.reg_cfg.0 * 50 + 100 <= usize::MAX,
        chip.regs * 50 <= usize::MAX,
    ensures
        terms_view(final(terms)@) == terms_view(old(terms)@) + v7_cfg_terms(*chip, cc as int),
        spans_view(final(spans)@) == spans_view(old(spans)@) + v7_cfg_spans(*chip, cc as int),
{
    assert(chip.sp_rpr() == 50);
    let rb = (chip.reg_cfg.0 - 1) * 50;
    if chip.regs != 1 {
        let ghost f = v7_cfg_term_fn(*chip, cc as int);
        let mut dx: usize = 0;
        while dx < 6
            invariant
                dx <= 6,
                cc >= 6,
                chip.kind is Virtex7,
                rb == chip.sp_row_reg_bot(chip.reg_cfg.0 - 1),
                rb + 100 <= usize::MAX,
                chip.regs * 50 <= usize::MAX,
                f == v7_cfg_term_fn(*chip, cc as int),
                terms_view(terms@) == terms_view(old(terms)@) + concat_map(dx as nat, f),
            decreases 6 - dx,
        {
            let ghost t0 = terms_view(terms@);
            if rb != 0 {
                push_term(terms, "TERM_N", cc - 6 + dx, rb - 1);
            }
            if rb + 100 != chip.regs * 50 {
                push_term(terms, "TERM_S", cc - 6 + dx, rb + 100);
            }
            assert(terms_view(terms@) =~= t0 + f(dx as int));
            dx = dx + 1;
        }
    } else {
        assert(terms_view(terms@) =~= terms_view(old(terms)@) + v7_cfg_terms(*chip, cc as int));
    }
    push_span(spans, "CFG", cc, rb, 0, 50);
    if chip.regs != 1 {
        push_span(spans, "SYSMON", cc, rb + 75, 0, 25);
    }
    assert(spans_view(spans@) =~= spans_view(old(spans)@) + v7_cfg_spans(*chip, cc as int));
}

/// The terminators of the processing system of a Virtex 7 die: below its
/// eighteen columns (unless it reaches the bottom of a two-region die),
/// then on the west side of each of its hundred cells in column eighteen.
pub open spec fn v7_ps_terms(chip: Chip) -> Seq<TermView> {
    let rows = chip.regs * 50;
    if chip.has_ps {
        (if chip.regs != 2 {
            Seq::new(18, |dx: int| ("TERM_N"@, dx, rows - 101))
        } else {
            Seq::empty()
        }) + Seq::new(100, |i: int| ("TERM_W"@, 18int, rows - 100 + i))
    } else {
        Seq::empty()
    }
}

/// The tiles of the processing system of a Virtex 7 die: an interface tile
/// on each of its hundred cells in column eighteen, then its own tile,
/// which sits fifty rows up and reaches all of them.
pub open spec fn v7_ps_tiles(chip: Chip) -> Seq<TileView> {
    let rows = chip.regs * 50;
    if chip.has_ps {
        Seq::new(100, |i: int| tile1("INTF"@, 18, rows - 100 + i)).push(
            ("PS"@, 18int, rows - 50, cell_run(18, rows - 100, 100)),
        )
    } else {
        Seq::empty()
    }
}

fn push_v7_ps(tiles: &mut Vec<GridTile>, terms: &mut Vec<GridTerm>, chip: &Chip)
    requires
        chip.has_ps ==> chip.regs >= 2,
        chip.regs * 50 <= usize::MAX,
    ensures
        tiles_view(final(tiles)@) == tiles_view(old(tiles)@) + v7_ps_tiles(*chip),
        terms_view(final(terms)@) == terms_view(old(terms)@) + v7_ps_terms(*chip),
{
    if chip.has_ps {
        let rows = chip.regs * 50;
        let ghost t0 = terms_view(terms@);
        if chip.regs != 2 {
            let mut dx: usize = 0;
            while dx < 18
                invariant
                    dx <= 18,
                    rows == chip.regs * 50,
                    rows >= 150,
                    terms_view(terms@) == t0 + Seq::new(dx as nat, |j: int| ("TERM_N"@, j, rows - 101)),
                decreases 18 - dx,
            {
                push_term(terms, "TERM_N", dx, rows - 101);
                dx = dx + 1;
                assert(terms_view(terms@) =~= t0 + Seq::new(dx as nat, |j: int| ("TERM_N"@, j, rows - 101)));
            }
        }
        let ghost t1 = terms_view(terms@);
        let mut cells: Vec<(usize, usize)> = Vec::new();
        let mut i: usize = 0;
        while i < 100
            invariant
                i <= 100,
                rows == chip.regs * 50,
                rows >= 100,
                terms_view(terms@) == t1 + Seq::new(i as nat, |j: int| ("TERM_W"@, 18int, rows - 100 + j)),
                tiles_view(tiles@) == tiles_view(old(tiles)@) + Seq::new(
                    i as nat,
                    |j: int| tile1("INTF"@, 18, rows - 100 + j),
                ),
                cells_view(cells@) == cell_run(18, rows - 100, i as nat),
            decreases 100 - i,
        {
            let row = rows - 100 + i;
            push_term(terms, "TERM_W", 18, row);
            push_tile(tiles, mk_tile1("INTF", 18, row));
            let ghost c0 = cells@;
            cells.push((18, row));
            assert(cells_view(cells@) =~= cells_view(c0).push((18int, row as int)));
            i = i + 1;
            assert(terms_view(terms@) =~= t1 + Seq::new(i as nat, |j: int| ("TERM_W"@, 18int, rows - 100 + j)));
            assert(tiles_view(tiles@) =~= tiles_view(old(tiles)@) + Seq::new(
                i as nat,
                |j: int| tile1("INTF"@, 18, rows - 100 + j),
            ));
            assert(cells_view(cells@) =~= cell_run(18, rows - 100, i as nat));
        }
        push_tile(tiles, mk_tile("PS", 18, rows - 50, cells));
        assert(tiles_view(tiles@) =~= tiles_view(old(tiles)@) + v7_ps_tiles(*chip));
        assert(terms_view(terms@) =~= terms_view(old(terms)@) + v7_ps_terms(*chip));
    } else {
        assert(tiles_view(tiles@) =~= tiles_view(old(tiles)@) + v7_ps_tiles(*chip));
        assert(terms_view(terms@) =~= terms_view(old(terms)@) + v7_ps_terms(*chip));
    }
}

// ---------------------------------------------------------------- PCIE blocks

/// The terminators of a PCIE2 block at `(pc, pr)`: below (unless at the
/// bottom row) and above each of its two inner columns.
pub open spec fn pcie2_terms(pc: int, pr: int) -> Seq<TermView> {
    concat_map(
        2,
        |i: int|
            (if pr != 0 {
                seq![("TERM_N"@, pc + 1 + i, pr - 1)]
            } else {
                Seq::empty()
            }) + seq![("TERM_S"@, pc + 1 + i, pr + 25)],
    )
}

/// The cells of a PCIE2 block: the twenty-five cells of its interface
/// column (the column three east of it for a block on the west side) and
/// then those of its other column.
pub open spec fn pcie2_cells(side: DirH, pc: int, pr: int) -> Seq<(int, int)> {
    match side {
        DirH::W => cell_run(pc + 3, pr, 25) + cell_run(pc, pr, 25),
        DirH::E => cell_run(pc, pr, 25) + cell_run(pc + 3, pr, 25),
    }
}

/// The tiles of a PCIE2 block: a delay interface tile on each of its cells,
/// then its own tile on its first cell.
pub open spec fn pcie2_tiles(side: DirH, pc: int, pr: int) -> Seq<TileView> {
    let cells = pcie2_cells(side, pc, pr);
    cells.map_values(|p: (int, int)| tile1("INTF_DELAY"@, p.0, p.1)).push(("PCIE"@, cells[0].0, cells[0].1, cells))
}

/// The terminators of a PCIE3 block at `(bc, br)`: below and above each of
/// its four inner columns.
pub open spec fn pcie3_terms(bc: int, br: int) -> Seq<TermView> {
    Seq::new(8, |i: int| if i % 2 == 0 {
        ("TERM_N"@, bc + 1 + i / 2, br - 1)
    } else {
        ("TERM_S"@, bc + 1 + i / 2, br + 50)
    })
}

/// The cells of a PCIE3 block: its west column and the column five east of
/// it, fifty cells each.
pub open spec fn pcie3_cells(bc: int, br: int) -> Seq<(int, int)> {
    cell_run(bc, br, 50) + cell_run(bc + 5, br, 50)
}

/// The tiles of a PCIE3 block: a delay interface tile on each of its
/// cells, then its own tile.
pub open spec fn pcie3_tiles(bc: int, br: int) -> Seq<TileView> {
    pcie3_cells(bc, br).map_values(|p: (int, int)| tile1("INTF_DELAY"@, p.0, p.1)).push(
        ("PCIE3"@, bc, br, pcie3_cells(bc, br)),
    )
}

pub open spec fn v7_pcie2_terms_fn(chip: Chip) -> spec_fn(int) -> Seq<TermView> {
    |k: int| pcie2_terms(chip.holes_pcie2@[k].col.0 as int, chip.holes_pcie2@[k].row.0 as int)
}

pub open spec fn v7_pcie2_tiles_fn(chip: Chip) -> spec_fn(int) -> Seq<TileView> {
    |k: int|
        pcie2_tiles(chip.holes_pcie2@[k].side, chip.holes_pcie2@[k].col.0 as int, chip.holes_pcie2@[k].row.0 as int)
}

pub open spec fn v7_pcie3_terms_fn(chip: Chip) -> spec_fn(int) -> Seq<TermView> {
    |k: int| pcie3_terms(chip.holes_pcie3@[k].0.0 as int, chip.holes_pcie3@[k].1.0 as int)
}

pub open spec fn v7_pcie3_tiles_fn(chip: Chip) -> spec_fn(int) -> Seq<TileView> {
    |k: int| pcie3_tiles(chip.holes_pcie3@[k].0.0 as int, chip.holes_pcie3@[k].1.0 as int)
}

/// Appends a delay interface tile on each of a list of cells, then a tile
/// of class `class` on the first of them that reaches all of them.
fn push_intf_block(tiles: &mut Vec<GridTile>, class: &'static str, cells: Vec<(usize, usize)>)
    requires
        cells@.len() >= 1,
    ensures
        tiles_view(final(tiles)@) == tiles_view(old(tiles)@) + cells_view(cells@).map_values(
            |p: (int, int)| tile1("INTF_DELAY"@, p.0, p.1),
        ).push((class@, cells@[0].0 as int, cells@[0].1 as int, cells_view(cells@))),
{
    let ghost cv = cells_view(cells@);
    let mut k: usize = 0;
    while k < cells.len()
        invariant
            k <= cells@.len(),
            cv == cells_view(cells@),
            tiles_view(tiles@) == tiles_view(old(tiles)@) + cv.take(k as int).map_values(
                |p: (int, int)| tile1("INTF_DELAY"@, p.0, p.1),
            ),
        decreases cells@.len() - k,
    {
        let (c, r) = cells[k];
        push_tile(tiles, mk_tile1("INTF_DELAY", c, r));
        k = k + 1;
        assert(tiles_view(tiles@) =~= tiles_view(old(tiles)@) + cv.take(k as int).map_values(
            |p: (int, int)| tile1("INTF_DELAY"@, p.0, p.1),
        ));
    }
    assert(cv.take(cells@.len() as int) =~= cv);
    let (c0, r0) = cells[0];
    push_tile(tiles, mk_tile(class, c0, r0, cells));
}

/// The cells of two columns of `n` cells from row `r`: column `a`, then
/// column `b`.
fn two_runs(a: usize, b: usize, r: usize, n: usize) -> (v: Vec<(usize, usize)>)
    requires
        r + n <= usize::MAX,
    ensures
        cells_view(v@) == cell_run(a as int, r as int, n as nat) + cell_run(b as int, r as int, n as nat),
        v@.len() == 2 * n,
{
    let mut v: Vec<(usize, usize)> = Vec::new();
    let mut i: usize = 0;
    while i < n
        invariant
            i <= n,
            r + n <= usize::MAX,
            v@.len() == i,
            cells_view(v@) == cell_run(a as int, r as int, i as nat),
        decreases n - i,
    {
        let ghost v0 = v@;
        v.push((a, r + i));
        assert(cells_view(v@) =~= cells_view(v0).push((a as int, r + i)));
        i = i + 1;
        assert(cells_view(v@) =~= cell_run(a as int, r as int, i as nat));
    }
    let ghost w = cells_view(v@);
    let mut i: usize = 0;
    while i < n
        invariant
            i <= n,
            r + n <= usize::MAX,
            v@.len() == n + i,
            cells_view(v@) == w + cell_run(b as int, r as int, i as nat),
        decreases n - i,
    {
        let ghost v0 = v@;
        v.push((b, r + i));
        assert(cells_view(v@) =~= cells_view(v0).push((b as int, r + i)));
        i = i + 1;
        assert(cells_view(v@) =~= w + cell_run(b as int, r as int, i as nat));
    }
    v
}

fn push_v7_pcie(tiles: &mut Vec<GridTile>, terms: &mut Vec<GridTerm>, chip: &Chip)
    requires
        forall|k: int|
            0 <= k < chip.holes_pcie2@.len() ==> (#[trigger] chip.holes_pcie2@[k]).col.0 + 4 <= usize::MAX
                && chip.holes_pcie2@[k].row.0 + 26 <= usize::MAX,
        forall|k: int|
            0 <= k < chip.holes_pcie3@.len() ==> (#[trigger] chip.holes_pcie3@[k]).0.0 + 6 <= usize::MAX
                && chip.holes_pcie3@[k].1.0 + 51 <= usize::MAX && chip.holes_pcie3@[k].1.0 >= 1,
    ensures
        tiles_view(final(tiles)@) == tiles_view(old(tiles)@) + concat_map(
            chip.holes_pcie2@.len(),
            v7_pcie2_tiles_fn(*chip),
        ) + concat_map(chip.holes_pcie3@.len(), v7_pcie3_tiles_fn(*chip)),
        terms_view(final(terms)@) == terms_view(old(terms)@) + concat_map(
            chip.holes_pcie2@.len(),
            v7_pcie2_terms_fn(*chip),
        ) + concat_map(chip.holes_pcie3@.len(), v7_pcie3_terms_fn(*chip)),
{
    let mut k: usize = 0;
    while k < chip.holes_pcie2.len()
        invariant
            k <= chip.holes_pcie2@.len(),
            forall|j: int|
                0 <= j < chip.holes_pcie2@.len() ==> (#[trigger] chip.holes_pcie2@[j]).col.0 + 4 <= usize::MAX
                    && chip.holes_pcie2@[j].row.0 + 26 <= usize::MAX,
            tiles_view(tiles@) == tiles_view(old(tiles)@) + concat_map(k as nat, v7_pcie2_tiles_fn(*chip)),
            terms_view(terms@) == terms_view(old(terms)@) + concat_map(k as nat, v7_pcie2_terms_fn(*chip)),
        decreases chip.holes_pcie2@.len() - k,
    {
        let p = chip.holes_pcie2[k];
        assert(chip.holes_pcie2@[k as int].col.0 + 4 <= usize::MAX);
        let (pc, pr) = (p.col.0, p.row.0);
        let ghost t0 = terms_view(terms@);
        let ghost g0 = tiles_view(tiles@);
        let mut i: usize = 0;
        while i < 2
            invariant
                i <= 2,
                pc + 4 <= usize::MAX,
                pr + 26 <= usize::MAX,
                terms_view(terms@) == t0 + concat_map(
                    i as nat,
                    |j: int|
                        (if pr != 0 {
                            seq![("TERM_N"@, pc + 1 + j, pr - 1)]
                        } else {
                            Seq::empty()
                        }) + seq![("TERM_S"@, pc + 1 + j, pr + 25)],
                ),
            decreases 2 - i,
        {
            let ghost t1 = terms_view(terms@);
            if pr != 0 {
                push_term(terms, "TERM_N", pc + 1 + i, pr - 1);
            }
            push_term(terms, "TERM_S", pc + 1 + i, pr + 25);
            assert(terms_view(terms@) =~= t1 + (if pr != 0 {
                seq![("TERM_N"@, pc + 1 + i, pr - 1)]
            } else {
                Seq::empty()
            }) + seq![("TERM_S"@, pc + 1 + i, pr + 25)]);
            i = i + 1;
        }
        assert(terms_view(terms@) =~= t0 + pcie2_terms(pc as int, pr as int));
        let cells = match p.side {
            DirH::W => two_runs(pc + 3, pc, pr, 25),
            DirH::E => two_runs(pc, pc + 3, pr, 25),
        };
        assert(cells_view(cells@) =~= pcie2_cells(p.side, pc as int, pr as int));
        assert(cells_view(cells@)[0] == (cells@[0].0 as int, cells@[0].1 as int));
        push_intf_block(tiles, "PCIE", cells);
        assert(tiles_view(tiles@) =~= g0 + pcie2_tiles(p.side, pc as int, pr as int));
        k = k + 1;
    }
    let ghost g1 = tiles_view(tiles@);
    let ghost t2 = terms_view(terms@);
    let mut k: usize = 0;
    while k < chip.holes_pcie3.len()
        invariant
            k <= chip.holes_pcie3@.len(),
            forall|j: int|
                0 <= j < chip.holes_pcie3@.len() ==> (#[trigger] chip.holes_pcie3@[j]).0.0 + 6 <= usize::MAX
                    && chip.holes_pcie3@[j].1.0 + 51 <= usize::MAX && chip.holes_pcie3@[j].1.0 >= 1,
            tiles_view(tiles@) == g1 + concat_map(k as nat, v7_pcie3_tiles_fn(*chip)),
            terms_view(terms@) == t2 + concat_map(k as nat, v7_pcie3_terms_fn(*chip)),
        decreases chip.holes_pcie3@.len() - k,
    {
        let (bcol, brow) = chip.holes_pcie3[k];
        assert(chip.holes_pcie3@[k as int].0.0 + 6 <= usize::MAX);
        let (bc, br) = (bcol.0, brow.0);
        let ghost t0 = terms_view(terms@);
        let ghost g0 = tiles_view(tiles@);
        let mut dx: usize = 1;
        while dx < 5
            invariant
                1 <= dx <= 5,
                bc + 6 <= usize::MAX,
                br + 51 <= usize::MAX,
                br >= 1,
                terms_view(terms@) == t0 + pcie3_terms(bc as int, br as int).take(2 * (dx - 1)),
            decreases 5 - dx,
        {
            push_term(terms, "TERM_N", bc + dx, br - 1);
            push_term(terms, "TERM_S", bc + dx, br + 50);
            dx = dx + 1;
            assert(terms_view(terms@) =~= t0 + pcie3_terms(bc as int, br as int).take(2 * (dx - 1)));
        }
        assert(pcie3_terms(bc as int, br as int).take(8) =~= pcie3_terms(bc as int, br as int));
        let cells = two_runs(bc, bc + 5, br, 50);
        assert(cells_view(cells@) =~= pcie3_cells(bc as int, br as int));
        assert(cells_view(cells@)[0] == (bc as int, br as int));
        push_intf_block(tiles, "PCIE3", cells);
        assert(tiles_view(tiles@) =~= g0 + pcie3_tiles(bc as int, br as int));
        k = k + 1;
    }
}

// ---------------------------------------------------------------- transceivers

/// The channel tile class of a transceiver.
pub open spec fn gt_channel(kind: GtKind, middle: bool) -> Seq<char> {
    match kind {
        GtKind::Gtp => if middle { "GTP_CHANNEL_MID"@ } else { "GTP_CHANNEL"@ },
        GtKind::Gtx => "GTX_CHANNEL"@,
        GtKind::Gth => "GTH_CHANNEL"@,
    }
}

/// The common tile class of a transceiver.
pub open spec fn gt_common(kind: GtKind, middle: bool) -> Seq<char> {
    match kind {
        GtKind::Gtp => if middle { "GTP_COMMON_MID"@ } else { "GTP_COMMON"@ },
        GtKind::Gtx => "GTX_COMMON"@,
        GtKind::Gth => "GTH_COMMON"@,
    }
}

fn gt_channel_str(kind: GtKind, middle: bool) -> (r: &'static str)
    ensures
        r@ == gt_channel(kind, middle),
{
    match kind {
        GtKind::Gtp => if middle { "GTP_CHANNEL_MID" } else { "GTP_CHANNEL" },
        GtKind::Gtx => "GTX_CHANNEL",
        GtKind::Gth => "GTH_CHANNEL",
    }
}

fn gt_common_str(kind: GtKind, middle: bool) -> (r: &'static str)
    ensures
        r@ == gt_common(kind, middle),
{
    match kind {
        GtKind::Gtp => if middle { "GTP_COMMON_MID" } else { "GTP_COMMON" },
        GtKind::Gtx => "GTX_COMMON",
        GtKind::Gth => "GTH_COMMON",
    }
}

pub open spec fn mid_gt_term_fn(x0: int, br: int, rows: int) -> spec_fn(int) -> Seq<TermView> {
    |i: int|
        (if br != 0 {
            seq![("TERM_N"@, x0 + 1 + i, br - 1)]
        } else {
            Seq::empty()
        }) + if br + 50 != rows {
            seq![("TERM_S"@, x0 + 1 + i, br + 50)]
        } else {
            Seq::empty()
        }
}

pub open spec fn mid_gt_side_fn(x0: int, br: int) -> spec_fn(int) -> Seq<TermView> {
    |dy: int| seq![("TERM_E"@, x0, br + dy), ("TERM_W"@, x0 + 19, br + dy)]
}

/// The terminators around the transceiver of region `k` of a transceiver
/// column.  A middle transceiver spans nineteen columns from its column
/// eastward (westward east of the clock column): terminators below and
/// above its inner columns (but at the die's edges), and on its west and
/// east sides.  An outer transceiver east of the clock column and not at
/// the east edge ends the six columns east of it below and above where the
/// neighbouring region has no transceiver, and its own column's east side.
pub open spec fn v7_gt_terms_at(chip: Chip, col_clk: int, g: GtColumn, k: int) -> Seq<TermView> {
    let gc = g.col.0 as int;
    let br = k * 50;
    let is_l = gc < col_clk;
    if g.regs@[k] is Some {
        if g.is_middle {
            let x0 = if is_l { gc } else { gc - 19 };
            concat_map(18, mid_gt_term_fn(x0, br, chip.regs * 50)) + concat_map(50, mid_gt_side_fn(x0, br))
        } else if !is_l && gc != chip.columns@.len() - 1 {
            (if k != 0 && g.regs@[k - 1] is None {
                Seq::new(6, |i: int| ("TERM_N"@, gc + 1 + i, br - 1))
            } else {
                Seq::empty()
            }) + (if k != chip.regs - 1 && g.regs@[k + 1] is None {
                Seq::new(6, |i: int| ("TERM_S"@, gc + 1 + i, br + 50))
            } else {
                Seq::empty()
            }) + Seq::new(50, |dy: int| ("TERM_E"@, gc, br + dy))
        } else {
            Seq::empty()
        }
    } else {
        Seq::empty()
    }
}

/// The tiles of region `k` of a transceiver column: a delay interface tile
/// on each cell of a region with a transceiver, and a break tile at the
/// bottom of an outer column's region (but the bottom one) where it or the
/// region below has a transceiver.
pub open spec fn v7_gt_tiles_at(g: GtColumn, k: int) -> Seq<TileView> {
    let gc = g.col.0 as int;
    let br = k * 50;
    (if g.regs@[k] is Some {
        Seq::new(50, |dy: int| tile1("INTF_DELAY"@, gc, br + dy))
    } else {
        Seq::empty()
    }) + if br != 0 && (g.regs@[k] is Some || g.regs@[k - 1] is Some) && !g.is_middle {
        seq![tile0("BRKH_GTX"@, gc, br)]
    } else {
        Seq::empty()
    }
}

/// The span tiles of the transceiver of region `k` of a transceiver
/// column: its four channels of eleven cells and its common block.
pub open spec fn v7_gt_spans_at(g: GtColumn, k: int) -> Seq<SpanView> {
    let gc = g.col.0 as int;
    let br = k * 50;
    match g.regs@[k] {
        Some(kind) => {
            let ch = gt_channel(kind, g.is_middle);
            seq![
                (ch, gc, br, 0int, 11int),
                (ch, gc, br + 11, 0int, 11int),
                (ch, gc, br + 28, 0int, 11int),
                (ch, gc, br + 39, 0int, 11int),
                (gt_common(kind, g.is_middle), gc, br + 25, 3int, 6int),
            ]
        },
        None => Seq::empty(),
    }
}

pub open spec fn v7_gt_col_terms_fn(chip: Chip, col_clk: int, g: GtColumn) -> spec_fn(int) -> Seq<TermView> {
    |k: int| v7_gt_terms_at(chip, col_clk, g, k)
}

pub open spec fn v7_gt_col_tiles_fn(g: GtColumn) -> spec_fn(int) -> Seq<TileView> {
    |k: int| v7_gt_tiles_at(g, k)
}

pub open spec fn v7_gt_col_spans_fn(g: GtColumn) -> spec_fn(int) -> Seq<SpanView> {
    |k: int| v7_gt_spans_at(g, k)
}

pub open spec fn v7_gt_terms_fn(chip: Chip, col_clk: int) -> spec_fn(int) -> Seq<TermView> {
    |i: int| concat_map(chip.cols_gt@[i].regs@.len(), v7_gt_col_terms_fn(chip, col_clk, chip.cols_gt@[i]))
}

pub open spec fn v7_gt_tiles_fn(chip: Chip) -> spec_fn(int) -> Seq<TileView> {
    |i: int| concat_map(chip.cols_gt@[i].regs@.len(), v7_gt_col_tiles_fn(chip.cols_gt@[i]))
}

pub open spec fn v7_gt_spans_fn(chip: Chip) -> spec_fn(int) -> Seq<SpanView> {
    |i: int| concat_map(chip.cols_gt@[i].regs@.len(), v7_gt_col_spans_fn(chip.cols_gt@[i]))
}

/// A transceiver column can be laid out: it describes every region of the
/// die, its middle transceivers are GTPs and (east of the clock column)
/// have nineteen columns west of them, and its blocks fit the index range.
pub open spec fn v7_gt_col_ok(chip: Chip, col_clk: int, g: GtColumn) -> bool {
    &&& g.regs@.len() == chip.regs
    &&& g.col.0 + 20 <= usize::MAX
    &&& chip.regs * 50 + 50 <= usize::MAX
    &&& g.is_middle ==> forall|k: int| 0 <= k < g.regs@.len() ==> g.regs@[k] is None || g.regs@[k] == Some(GtKind::Gtp)
    &&& g.is_middle && g.col.0 >= col_clk ==> g.col.0 >= 19
}

fn push_mid_gt_terms(terms: &mut Vec<GridTerm>, x0: usize, br: usize, rows: usize)
    requires
        x0 + 20 <= usize::MAX,
        br + 50 <= usize::MAX,
    ensures
        terms_view(final(terms)@) == terms_view(old(terms)@) + concat_map(
            18,
            mid_gt_term_fn(x0 as int, br as int, rows as int),
        ) + concat_map(50, mid_gt_side_fn(x0 as int, br as int)),
{
    let ghost f = mid_gt_term_fn(x0 as int, br as int, rows as int);
    let mut i: usize = 0;
    while i < 18
        invariant
            i <= 18,
            x0 + 20 <= usize::MAX,
            br + 50 <= usize::MAX,
            f == mid_gt_term_fn(x0 as int, br as int, rows as int),
            terms_view(terms@) == terms_view(old(terms)@) + concat_map(i as nat, f),
        decreases 18 - i,
    {
        let ghost t0 = terms_view(terms@);
        if br != 0 {
            push_term(terms, "TERM_N", x0 + 1 + i, br - 1);
        }
        if br + 50 != rows {
            push_term(terms, "TERM_S", x0 + 1 + i, br + 50);
        }
        assert(terms_view(terms@) =~= t0 + f(i as int));
        i = i + 1;
    }
    let ghost t1 = terms_view(terms@);
    let ghost h = mid_gt_side_fn(x0 as int, br as int);
    let mut dy: usize = 0;
    while dy < 50
        invariant
            dy <= 50,
            x0 + 20 <= usize::MAX,
            br + 50 <= usize::MAX,
            h == mid_gt_side_fn(x0 as int, br as int),
            terms_view(terms@) == t1 + concat_map(dy as nat, h),
        decreases 50 - dy,
    {
        let ghost t0 = terms_view(terms@);
        push_term(terms, "TERM_E", x0, br + dy);
        push_term(terms, "TERM_W", x0 + 19, br + dy);
        assert(terms_view(terms@) =~= t0 + h(dy as int));
        dy = dy + 1;
    }
}

fn push_term_run_cols(terms: &mut Vec<GridTerm>, class: &'static str, c: usize, row: usize, n: usize)
    requires
        c + n <= usize::MAX,
    ensures
        terms_view(final(terms)@) == terms_view(old(terms)@) + Seq::new(n as nat, |i: int| (class@, c + i, row as int)),
{
    let mut i: usize = 0;
    while i < n
        invariant
            i <= n,
            c + n <= usize::MAX,
            terms_view(terms@) == terms_view(old(terms)@) + Seq::new(i as nat, |j: int| (class@, c + j, row as int)),
        decreases n - i,
    {
        push_term(terms, class, c + i, row);
        i = i + 1;
        assert(terms_view(terms@) =~= terms_view(old(terms)@) + Seq::new(i as nat, |j: int| (class@, c + j, row as int)));
    }
}

fn push_term_run_rows(terms: &mut Vec<GridTerm>, class: &'static str, c: usize, row: usize, n: usize)
    requires
        row + n <= usize::MAX,
    ensures
        terms_view(final(terms)@) == terms_view(old(terms)@) + Seq::new(n as nat, |i: int| (class@, c as int, row + i)),
{
    let mut i: usize = 0;
    while i < n
        invariant
            i <= n,
            row + n <= usize::MAX,
            terms_view(terms@) == terms_view(old(terms)@) + Seq::new(i as nat, |j: int| (class@, c as int, row + j)),
        decreases n - i,
    {
        push_term(terms, class, c, row + i);
        i = i + 1;
        assert(terms_view(terms@) =~= terms_view(old(terms)@) + Seq::new(i as nat, |j: int| (class@, c as int, row + j)));
    }
}

fn push_v7_gt_region(
    tiles: &mut Vec<GridTile>,
    spans: &mut Vec<SpanTile>,
    terms: &mut Vec<GridTerm>,
    chip: &Chip,
    col_clk: usize,
    g: &GtColumn,
    k: usize,
)
    requires
        k < g.regs@.len(),
        v7_gt_col_ok(*chip, col_clk as int, *g),
    ensures
        tiles_view(final(tiles)@) == tiles_view(old(tiles)@) + v7_gt_tiles_at(*g, k as int),
        spans_view(final(spans)@) == spans_view(old(spans)@) + v7_gt_spans_at(*g, k as int),
        terms_view(final(terms)@) == terms_view(old(terms)@) + v7_gt_terms_at(*chip, col_clk as int, *g, k as int),
{
    let gc = g.col.0;
    assert(k * 50 + 50 <= chip.regs * 50) by (nonlinear_arith)
        requires
            k < chip.regs,
    ;
    let br = k * 50;
    let is_l = gc < col_clk;
    let rows = chip.regs * 50;
    match g.regs[k] {
        Some(kind) => {
            if g.is_middle {
                let x0 = if is_l { gc } else { gc - 19 };
                push_mid_gt_terms(terms, x0, br, rows);
            } else if !is_l && gc + 1 != chip.columns.len() {
                let ghost t0 = terms_view(terms@);
                if k != 0 && g.regs[k - 1].is_none() {
                    push_term_run_cols(terms, "TERM_N", gc + 1, br - 1, 6);
                }
                let ghost t1 = terms_view(terms@);
                if k + 1 != chip.regs && g.regs[k + 1].is_none() {
                    push_term_run_cols(terms, "TERM_S", gc + 1, br + 50, 6);
                }
                push_term_run_rows(terms, "TERM_E", gc, br, 50);
            }
            assert(terms_view(terms@) =~= terms_view(old(terms)@) + v7_gt_terms_at(*chip, col_clk as int, *g, k as int));
            let mut dy: usize = 0;
            while dy < 50
                invariant
                    dy <= 50,
                    br + 50 <= usize::MAX,
                    tiles_view(tiles@) == tiles_view(old(tiles)@) + Seq::new(
                        dy as nat,
                        |j: int| tile1("INTF_DELAY"@, gc as int, br + j),
                    ),
                decreases 50 - dy,
            {
                push_tile(tiles, mk_tile1("INTF_DELAY", gc, br + dy));
                dy = dy + 1;
                assert(tiles_view(tiles@) =~= tiles_view(old(tiles)@) + Seq::new(
                    dy as nat,
                    |j: int| tile1("INTF_DELAY"@, gc as int, br + j),
                ));
            }
            let ch = gt_channel_str(kind, g.is_middle);
            push_span(spans, ch, gc, br, 0, 11);
            push_span(spans, ch, gc, br + 11, 0, 11);
            push_span(spans, ch, gc, br + 28, 0, 11);
            push_span(spans, ch, gc, br + 39, 0, 11);
            push_span(spans, gt_common_str(kind, g.is_middle), gc, br + 25, 3, 6);
        },
        None => {
            assert(terms_view(terms@) =~= terms_view(old(terms)@) + v7_gt_terms_at(*chip, col_clk as int, *g, k as int));
        },
    }
    let ghost t2 = tiles_view(tiles@);
    if br != 0 && (g.regs[k].is_some() || g.regs[k - 1].is_some()) && !g.is_middle {
        push_tile(tiles, mk_tile0("BRKH_GTX", gc, br));
    }
    assert(tiles_view(tiles@) =~= tiles_view(old(tiles)@) + v7_gt_tiles_at(*g, k as int));
    assert(spans_view(spans@) =~= spans_view(old(spans)@) + v7_gt_spans_at(*g, k as int));
}

fn push_v7_gt(
    tiles: &mut Vec<GridTile>,
    spans: &mut Vec<SpanTile>,
    terms: &mut Vec<GridTerm>,
    chip: &Chip,
    col_clk: usize,
)
    requires
        forall|i: int| 0 <= i < chip.cols_gt@.len() ==> v7_gt_col_ok(*chip, col_clk as int, #[trigger] chip.cols_gt@[i]),
    ensures
        tiles_view(final(tiles)@) == tiles_view(old(tiles)@) + concat_map(chip.cols_gt@.len(), v7_gt_tiles_fn(*chip)),
        spans_view(final(spans)@) == spans_view(old(spans)@) + concat_map(chip.cols_gt@.len(), v7_gt_spans_fn(*chip)),
        terms_view(final(terms)@) == terms_view(old(terms)@) + concat_map(
            chip.cols_gt@.len(),
            v7_gt_terms_fn(*chip, col_clk as int),
        ),
{
    let mut i: usize = 0;
    while i < chip.cols_gt.len()
        invariant
            i <= chip.cols_gt@.len(),
            forall|j: int| 0 <= j < chip.cols_gt@.len() ==> v7_gt_col_ok(*chip, col_clk as int, #[trigger] chip.cols_gt@[j]),
            tiles_view(tiles@) == tiles_view(old(tiles)@) + concat_map(i as nat, v7_gt_tiles_fn(*chip)),
            spans_view(spans@) == spans_view(old(spans)@) + concat_map(i as nat, v7_gt_spans_fn(*chip)),
            terms_view(terms@) == terms_view(old(terms)@) + concat_map(i as nat, v7_gt_terms_fn(*chip, col_clk as int)),
        decreases chip.cols_gt@.len() - i,
    {
        let g = &chip.cols_gt[i];
        assert(v7_gt_col_ok(*chip, col_clk as int, *g));
        let ghost a0 = tiles_view(tiles@);
        let ghost b0 = spans_view(spans@);
        let ghost c0 = terms_view(terms@);
        let mut k: usize = 0;
        while k < g.regs.len()
            invariant
                k <= g.regs@.len(),
                v7_gt_col_ok(*chip, col_clk as int, *g),
                tiles_view(tiles@) == a0 + concat_map(k as nat, v7_gt_col_tiles_fn(*g)),
                spans_view(spans@) == b0 + concat_map(k as nat, v7_gt_col_spans_fn(*g)),
                terms_view(terms@) == c0 + concat_map(k as nat, v7_gt_col_terms_fn(*chip, col_clk as int, *g)),
            decreases g.regs@.len() - k,
        {
            push_v7_gt_region(tiles, spans, terms, chip, col_clk, g, k);
            k = k + 1;
        }
        i = i + 1;
    }
}

// ---------------------------------------------------------------- edges and clock breaks

pub open spec fn edge_row_fn(holes: Seq<Rect>, class: Seq<char>, r: int) -> spec_fn(int) -> Seq<TermView> {
    |c: int| if holds(holes, c, r) { Seq::empty() } else { seq![(class, c, r)] }
}

pub open spec fn edge_col_fn(holes: Seq<Rect>, class: Seq<char>, c: int) -> spec_fn(int) -> Seq<TermView> {
    |r: int| if holds(holes, c, r) { Seq::empty() } else { seq![(class, c, r)] }
}

/// The terminators at the edges of a Virtex 7 die outside the interconnect
/// holes: its bottom and top rows (hole terminators on chips without a
/// turnaround there), its west column and its east column.
pub open spec fn v7_edge_terms(chip: Chip, holes: Seq<Rect>) -> Seq<TermView> {
    let cols = chip.columns@.len();
    let rows = (chip.regs * 50) as nat;
    concat_map(cols, edge_row_fn(holes, if chip.has_no_tbuturn { "TERM_S_HOLE"@ } else { "TERM_S"@ }, 0)) + concat_map(
        cols,
        edge_row_fn(holes, if chip.has_no_tbuturn { "TERM_N_HOLE"@ } else { "TERM_N"@ }, rows - 1),
    ) + concat_map(rows, edge_col_fn(holes, "TERM_W"@, 0)) + concat_map(rows, edge_col_fn(holes, "TERM_E"@, cols - 1))
}

pub open spec fn brkh_cell_fn(holes: Seq<Rect>, rn: int) -> spec_fn(int) -> Seq<ConnView> {
    |c: int|
        if !holds(holes, c, rn - 1) && !holds(holes, c, rn) {
            seq![(c, rn - 1, "BRKH_N"@, c, rn, "BRKH_S"@)]
        } else {
            Seq::empty()
        }
}

pub open spec fn brkh_reg_fn(chip: Chip, holes: Seq<Rect>) -> spec_fn(int) -> Seq<ConnView> {
    |j: int| concat_map(chip.columns@.len(), brkh_cell_fn(holes, (j + 1) * 50))
}

/// The connections across the clock breaks of a Virtex 7 die: between the
/// top row of each region and the bottom row of the next, where neither
/// lies in an interconnect hole.
pub open spec fn v7_brkh_conns(chip: Chip, holes: Seq<Rect>) -> Seq<ConnView> {
    concat_map((chip.regs - 1) as nat, brkh_reg_fn(chip, holes))
}

fn push_edge_row(terms: &mut Vec<GridTerm>, holes: &Vec<Rect>, class: &'static str, r: usize, cols: usize)
    ensures
        terms_view(final(terms)@) == terms_view(old(terms)@) + concat_map(
            cols as nat,
            edge_row_fn(holes@, class@, r as int),
        ),
{
    let ghost f = edge_row_fn(holes@, class@, r as int);
    let mut c: usize = 0;
    while c < cols
        invariant
            c <= cols,
            f == edge_row_fn(holes@, class@, r as int),
            terms_view(terms@) == terms_view(old(terms)@) + concat_map(c as nat, f),
        decreases cols - c,
    {
        let ghost t0 = terms_view(terms@);
        if !rects_contain(holes, ColId(c), RowId(r)) {
            push_term(terms, class, c, r);
        }
        assert(terms_view(terms@) =~= t0 + f(c as int));
        c = c + 1;
    }
}

fn push_edge_col(terms: &mut Vec<GridTerm>, holes: &Vec<Rect>, class: &'static str, c: usize, rows: usize)
    ensures
        terms_view(final(terms)@) == terms_view(old(terms)@) + concat_map(
            rows as nat,
            edge_col_fn(holes@, class@, c as int),
        ),
{
    let ghost f = edge_col_fn(holes@, class@, c as int);
    let mut r: usize = 0;
    while r < rows
        invariant
            r <= rows,
            f == edge_col_fn(holes@, class@, c as int),
            terms_view(terms@) == terms_view(old(terms)@) + concat_map(r as nat, f),
        decreases rows - r,
    {
        let ghost t0 = terms_view(terms@);
        if !rects_contain(holes, ColId(c), RowId(r)) {
            push_term(terms, class, c, r);
        }
        assert(terms_view(terms@) =~= t0 + f(r as int));
        r = r + 1;
    }
}

fn push_v7_edges(terms: &mut Vec<GridTerm>, conns: &mut Vec<GridConn>, chip: &Chip, holes: &Vec<Rect>)
    requires
        chip.regs >= 1,
        chip.columns@.len() >= 1,
        chip.regs * 50 <= usize::MAX,
    ensures
        terms_view(final(terms)@) == terms_view(old(terms)@) + v7_edge_terms(*chip, holes@),
        conns_view(final(conns)@) == conns_view(old(conns)@) + v7_brkh_conns(*chip, holes@),
{
    let cols = chip.columns.len();
    let rows = chip.regs * 50;
    push_edge_row(terms, holes, if chip.has_no_tbuturn { "TERM_S_HOLE" } else { "TERM_S" }, 0, cols);
    push_edge_row(terms, holes, if chip.has_no_tbuturn { "TERM_N_HOLE" } else { "TERM_N" }, rows - 1, cols);
    push_edge_col(terms, holes, "TERM_W", 0, rows);
    push_edge_col(terms, holes, "TERM_E", cols - 1, rows);
    let ghost f = brkh_reg_fn(*chip, holes@);
    let mut j: usize = 0;
    while j + 1 < chip.regs
        invariant
            j + 1 <= chip.regs,
            chip.regs * 50 <= usize::MAX,
            cols == chip.columns@.len(),
            f == brkh_reg_fn(*chip, holes@),
            conns_view(conns@) == conns_view(old(conns)@) + concat_map(j as nat, f),
        decreases chip.regs - j,
    {
        let ghost o0 = conns_view(conns@);
        assert((j + 1) * 50 <= chip.regs * 50) by (nonlinear_arith)
            requires
                j + 1 < chip.regs,
        ;
        let rn = (j + 1) * 50;
        let ghost g = brkh_cell_fn(holes@, rn as int);
        let mut c: usize = 0;
        while c < cols
            invariant
                c <= cols,
                rn >= 50,
                g == brkh_cell_fn(holes@, rn as int),
                conns_view(conns@) == o0 + concat_map(c as nat, g),
            decreases cols - c,
        {
            let ghost o1 = conns_view(conns@);
            if !rects_contain(holes, ColId(c), RowId(rn - 1)) && !rects_contain(holes, ColId(c), RowId(rn)) {
                push_conn(conns, c, rn - 1, "BRKH_N", c, rn, "BRKH_S");
            }
            assert(conns_view(conns@) =~= o1 + g(c as int));
            c = c + 1;
        }
        assert(conns_view(conns@) =~= o0 + f(j as int));
        j = j + 1;
    }
}

// ---------------------------------------------------------------- main passes

/// A connector slot of an interconnect cell: on its west, east, south or
/// north side.
#[derive(Clone, Copy, Debug, PartialEq, Eq, Structural)]
pub enum ConnSlot {
    W,
    E,
    S,
    N,
}

/// The slot that a connector class of a Virtex 7 die fills.
pub open spec fn in_slot(slot: ConnSlot, cls: Seq<char>) -> bool {
    match slot {
        ConnSlot::W => cls == "PASS_W"@ || cls == "TERM_W"@,
        ConnSlot::E => cls == "PASS_E"@ || cls == "TERM_E"@,
        ConnSlot::S => cls == "PASS_S"@ || cls == "TERM_S"@ || cls == "TERM_S_HOLE"@ || cls == "BRKH_S"@,
        ConnSlot::N => cls == "PASS_N"@ || cls == "TERM_N"@ || cls == "TERM_N_HOLE"@ || cls == "BRKH_N"@,
    }
}

/// The connector ends on the cells of a die: each terminator, the first end
/// of each connection, and the second end of each connection.
pub open spec fn conn_ends(terms: Seq<TermView>, conns: Seq<ConnView>) -> Seq<TermView> {
    terms + conns.map_values(|x: ConnView| (x.2, x.0, x.1)) + conns.map_values(|x: ConnView| (x.5, x.3, x.4))
}

pub open spec fn end_fills(e: TermView, slot: ConnSlot, c: int, r: int) -> bool {
    e.1 == c && e.2 == r && in_slot(slot, e.0)
}

/// Whether a connector end fills the slot of the cell `(c, r)`.
pub open spec fn slot_filled(ends: Seq<TermView>, slot: ConnSlot, c: int, r: int) -> bool {
    exists|i: int| 0 <= i < ends.len() && #[trigger] end_fills(ends[i], slot, c, r)
}

/// The interconnect cell that a pass from the west would start from, once
/// the first `k` cells of row `r` have been walked: the last one with an
/// interconnect tile, if its east slot is free.
pub open spec fn hpass_prev(holes: Seq<Rect>, ends: Seq<TermView>, r: int, k: nat) -> Option<int>
    decreases k,
{
    if k == 0 {
        None
    } else if holds(holes, k - 1, r) {
        hpass_prev(holes, ends, r, (k - 1) as nat)
    } else if slot_filled(ends, ConnSlot::E, k - 1, r) {
        None
    } else {
        Some(k - 1)
    }
}

/// The horizontal passes of row `r` among its first `k` cells: one into
/// each interconnect cell with a free west slot, from the cell that the
/// walk so far leaves open.
pub open spec fn hpass_row(holes: Seq<Rect>, ends: Seq<TermView>, r: int, k: nat) -> Seq<ConnView>
    decreases k,
{
    if k == 0 {
        Seq::empty()
    } else {
        let c = k - 1;
        let p = hpass_prev(holes, ends, r, (k - 1) as nat);
        hpass_row(holes, ends, r, (k - 1) as nat) + if !holds(holes, c, r) && p is Some && !slot_filled(
            ends,
            ConnSlot::W,
            c,
            r,
        ) {
            seq![(p->0, r, "PASS_E"@, c, r, "PASS_W"@)]
        } else {
            Seq::empty()
        }
    }
}

/// The interconnect cell that a pass from the south would start from, once
/// the first `k` cells of column `c` have been walked.
pub open spec fn vpass_prev(holes: Seq<Rect>, ends: Seq<TermView>, c: int, k: nat) -> Option<int>
    decreases k,
{
    if k == 0 {
        None
    } else if holds(holes, c, k - 1) {
        vpass_prev(holes, ends, c, (k - 1) as nat)
    } else if slot_filled(ends, ConnSlot::N, c, k - 1) {
        None
    } else {
        Some(k - 1)
    }
}

/// The vertical passes of column `c` among its first `k` cells.
pub open spec fn vpass_col(holes: Seq<Rect>, ends: Seq<TermView>, c: int, k: nat) -> Seq<ConnView>
    decreases k,
{
    if k == 0 {
        Seq::empty()
    } else {
        let r = k - 1;
        let p = vpass_prev(holes, ends, c, (k - 1) as nat);
        vpass_col(holes, ends, c, (k - 1) as nat) + if !holds(holes, c, r) && p is Some && !slot_filled(
            ends,
            ConnSlot::S,
            c,
            r,
        ) {
            seq![(c, p->0, "PASS_N"@, c, r, "PASS_S"@)]
        } else {
            Seq::empty()
        }
    }
}

pub open spec fn hpass_fn(cols: nat, holes: Seq<Rect>, ends: Seq<TermView>) -> spec_fn(int) -> Seq<ConnView> {
    |r: int| hpass_row(holes, ends, r, cols)
}

pub open spec fn vpass_fn(rows: nat, holes: Seq<Rect>, ends: Seq<TermView>) -> spec_fn(int) -> Seq<ConnView> {
    |c: int| vpass_col(holes, ends, c, rows)
}

/// The main passes of a die of `cols` columns and `rows` rows: the
/// horizontal passes row by row, then the vertical passes column by column,
/// over the connector slots that its terminators and connections fill.
pub open spec fn spec_v7_main_passes(cols: nat, rows: nat, holes: Seq<Rect>, ends: Seq<TermView>) -> Seq<ConnView> {
    concat_map(rows, hpass_fn(cols, holes, ends)) + concat_map(cols, vpass_fn(rows, holes, ends))
}

/// The cells of row `r` strictly between columns `p` and `c` all lie in
/// interconnect holes.
pub open spec fn row_gap(holes: Seq<Rect>, r: int, p: int, c: int) -> bool {
    forall|q: int| p < q < c ==> #[trigger] holds(holes, q, r)
}

/// The cells of column `c` strictly between rows `p` and `r` all lie in
/// interconnect holes.
pub open spec fn col_gap(holes: Seq<Rect>, c: int, p: int, r: int) -> bool {
    forall|q: int| p < q < r ==> #[trigger] holds(holes, c, q)
}

/// A horizontal pass may join `(p, r)` to `(c, r)`: both are interconnect
/// cells, each cell between them lies in a hole, the east slot of the first
/// and the west slot of the second are free.
pub open spec fn hpass_joins(holes: Seq<Rect>, ends: Seq<TermView>, r: int, p: int, c: int) -> bool {
    &&& 0 <= p < c
    &&& !holds(holes, p, r)
    &&& !holds(holes, c, r)
    &&& row_gap(holes, r, p, c)
    &&& !slot_filled(ends, ConnSlot::E, p, r)
    &&& !slot_filled(ends, ConnSlot::W, c, r)
}

/// A vertical pass may join `(c, p)` to `(c, r)`: both are interconnect
/// cells, each cell between them lies in a hole, the north slot of the
/// first and the south slot of the second are free.
pub open spec fn vpass_joins(holes: Seq<Rect>, ends: Seq<TermView>, c: int, p: int, r: int) -> bool {
    &&& 0 <= p < r
    &&& !holds(holes, c, p)
    &&& !holds(holes, c, r)
    &&& col_gap(holes, c, p, r)
    &&& !slot_filled(ends, ConnSlot::N, c, p)
    &&& !slot_filled(ends, ConnSlot::S, c, r)
}

proof fn lemma_hpass_prev(holes: Seq<Rect>, ends: Seq<TermView>, r: int, k: nat, p: int)
    ensures
        hpass_prev(holes, ends, r, k) == Some(p) <==> (0 <= p < k && !holds(holes, p, r) && !slot_filled(
            ends,
            ConnSlot::E,
            p,
            r,
        ) && row_gap(holes, r, p, k as int)),
    decreases k,
{
    if k > 0 {
        lemma_hpass_prev(holes, ends, r, (k - 1) as nat, p);
        if row_gap(holes, r, p, k as int) && p < k - 1 {
            assert(holds(holes, k - 1, r));
        }
    }
}

proof fn lemma_vpass_prev(holes: Seq<Rect>, ends: Seq<TermView>, c: int, k: nat, p: int)
    ensures
        vpass_prev(holes, ends, c, k) == Some(p) <==> (0 <= p < k && !holds(holes, c, p) && !slot_filled(
            ends,
            ConnSlot::N,
            c,
            p,
        ) && col_gap(holes, c, p, k as int)),
    decreases k,
{
    if k > 0 {
        lemma_vpass_prev(holes, ends, c, (k - 1) as nat, p);
        if col_gap(holes, c, p, k as int) && p < k - 1 {
            assert(holds(holes, c, k - 1));
        }
    }
}

proof fn lemma_hpass_row_contains(holes: Seq<Rect>, ends: Seq<TermView>, r: int, k: nat, x: ConnView)
    ensures
        hpass_row(holes, ends, r, k).contains(x) <==> exists|p: int, c: int|
            c < k && #[trigger] hpass_joins(holes, ends, r, p, c) && x == (p, r, "PASS_E"@, c, r, "PASS_W"@),
    decreases k,
{
    if k > 0 {
        let c = k - 1;
        let pr = hpass_prev(holes, ends, r, (k - 1) as nat);
        let tail = if !holds(holes, c, r) && pr is Some && !slot_filled(ends, ConnSlot::W, c, r) {
            seq![(pr->0, r, "PASS_E"@, c, r, "PASS_W"@)]
        } else {
            Seq::empty()
        };
        lemma_hpass_row_contains(holes, ends, r, (k - 1) as nat, x);
        lemma_add_contains(hpass_row(holes, ends, r, (k - 1) as nat), tail, x);
        if pr is Some {
            lemma_hpass_prev(holes, ends, r, (k - 1) as nat, pr->0);
        }
        if tail.contains(x) {
            assert(tail[0] == x);
            assert(hpass_joins(holes, ends, r, pr->0, c));
        }
        if exists|p: int, c2: int|
            c2 < k && #[trigger] hpass_joins(holes, ends, r, p, c2) && x == (p, r, "PASS_E"@, c2, r, "PASS_W"@) {
            let (p, c2) = choose|p: int, c2: int|
                c2 < k && #[trigger] hpass_joins(holes, ends, r, p, c2) && x == (p, r, "PASS_E"@, c2, r, "PASS_W"@);
            if c2 == c {
                lemma_hpass_prev(holes, ends, r, (k - 1) as nat, p);
                assert(tail[0] == x);
            }
        }
    }
}

proof fn lemma_vpass_col_contains(holes: Seq<Rect>, ends: Seq<TermView>, c: int, k: nat, x: ConnView)
    ensures
        vpass_col(holes, ends, c, k).contains(x) <==> exists|p: int, r: int|
            r < k && #[trigger] vpass_joins(holes, ends, c, p, r) && x == (c, p, "PASS_N"@, c, r, "PASS_S"@),
    decreases k,
{
    if k > 0 {
        let r = k - 1;
        let pr = vpass_prev(holes, ends, c, (k - 1) as nat);
        let tail = if !holds(holes, c, r) && pr is Some && !slot_filled(ends, ConnSlot::S, c, r) {
            seq![(c, pr->0, "PASS_N"@, c, r, "PASS_S"@)]
        } else {
            Seq::empty()
        };
        lemma_vpass_col_contains(holes, ends, c, (k - 1) as nat, x);
        lemma_add_contains(vpass_col(holes, ends, c, (k - 1) as nat), tail, x);
        if pr is Some {
            lemma_vpass_prev(holes, ends, c, (k - 1) as nat, pr->0);
        }
        if tail.contains(x) {
            assert(tail[0] == x);
            assert(vpass_joins(holes, ends, c, pr->0, r));
        }
        if exists|p: int, r2: int|
            r2 < k && #[trigger] vpass_joins(holes, ends, c, p, r2) && x == (c, p, "PASS_N"@, c, r2, "PASS_S"@) {
            let (p, r2) = choose|p: int, r2: int|
                r2 < k && #[trigger] vpass_joins(holes, ends, c, p, r2) && x == (c, p, "PASS_N"@, c, r2, "PASS_S"@);
            if r2 == r {
                lemma_vpass_prev(holes, ends, c, (k - 1) as nat, p);
                assert(tail[0] == x);
            }
        }
    }
}

/// The main passes of a die are exactly the joins between neighbouring
/// interconnect cells: a connection is among them if and only if it is a
/// horizontal pass from `(p, r)` to `(c, r)` or a vertical pass from
/// `(c, p)` to `(c, r)`, within the die, between two interconnect cells
/// with only holes between them, whose facing slots no terminator or
/// connection fills.
pub proof fn lemma_v7_main_passes_join_neighbours(
    cols: nat,
    rows: nat,
    holes: Seq<Rect>,
    ends: Seq<TermView>,
    x: ConnView,
)
    ensures
        spec_v7_main_passes(cols, rows, holes, ends).contains(x) <==> (exists|r: int, p: int, c: int|
            0 <= r < rows && c < cols && #[trigger] hpass_joins(holes, ends, r, p, c) && x == (
                p,
                r,
                "PASS_E"@,
                c,
                r,
                "PASS_W"@,
            )) || (exists|c: int, p: int, r: int|
            0 <= c < cols && r < rows && #[trigger] vpass_joins(holes, ends, c, p, r) && x == (
                c,
                p,
                "PASS_N"@,
                c,
                r,
                "PASS_S"@,
            )),
{
    let fh = hpass_fn(cols, holes, ends);
    let fv = vpass_fn(rows, holes, ends);
    lemma_add_contains(concat_map(rows, fh), concat_map(cols, fv), x);
    lemma_concat_map_contains(rows, fh, x);
    lemma_concat_map_contains(cols, fv, x);
    if concat_map(rows, fh).contains(x) {
        let r = choose|r: int| 0 <= r < rows && #[trigger] fh(r).contains(x);
        lemma_hpass_row_contains(holes, ends, r, cols, x);
        let (p, c) = choose|p: int, c: int|
            c < cols && #[trigger] hpass_joins(holes, ends, r, p, c) && x == (p, r, "PASS_E"@, c, r, "PASS_W"@);
        assert(hpass_joins(holes, ends, r, p, c));
    }
    if concat_map(cols, fv).contains(x) {
        let c = choose|c: int| 0 <= c < cols && #[trigger] fv(c).contains(x);
        lemma_vpass_col_contains(holes, ends, c, rows, x);
        let (p, r) = choose|p: int, r: int|
            r < rows && #[trigger] vpass_joins(holes, ends, c, p, r) && x == (c, p, "PASS_N"@, c, r, "PASS_S"@);
        assert(vpass_joins(holes, ends, c, p, r));
    }
    if exists|r: int, p: int, c: int|
        0 <= r < rows && c < cols && #[trigger] hpass_joins(holes, ends, r, p, c) && x == (
            p,
            r,
            "PASS_E"@,
            c,
            r,
            "PASS_W"@,
        ) {
        let (r, p, c) = choose|r: int, p: int, c: int|
            0 <= r < rows && c < cols && #[trigger] hpass_joins(holes, ends, r, p, c) && x == (
                p,
                r,
                "PASS_E"@,
                c,
                r,
                "PASS_W"@,
            );
        lemma_hpass_row_contains(holes, ends, r, cols, x);
        assert(fh(r).contains(x));
    }
    if exists|c: int, p: int, r: int|
        0 <= c < cols && r < rows && #[trigger] vpass_joins(holes, ends, c, p, r) && x == (
            c,
            p,
            "PASS_N"@,
            c,
            r,
            "PASS_S"@,
        ) {
        let (c, p, r) = choose|c: int, p: int, r: int|
            0 <= c < cols && r < rows && #[trigger] vpass_joins(holes, ends, c, p, r) && x == (
                c,
                p,
                "PASS_N"@,
                c,
                r,
                "PASS_S"@,
            );
        lemma_vpass_col_contains(holes, ends, c, rows, x);
        assert(fv(c).contains(x));
    }
}

/// The four connector slots of a cell, and whether each is filled.
#[derive(Clone, Copy)]
struct SlotMask {
    w: bool,
    e: bool,
    s: bool,
    n: bool,
}

spec fn mask_ok(m: SlotMask, ends: Seq<TermView>, c: int, r: int) -> bool {
    &&& m.w == slot_filled(ends, ConnSlot::W, c, r)
    &&& m.e == slot_filled(ends, ConnSlot::E, c, r)
    &&& m.s == slot_filled(ends, ConnSlot::S, c, r)
    &&& m.n == slot_filled(ends, ConnSlot::N, c, r)
}

spec fn masks_ok(masks: Seq<SlotMask>, ends: Seq<TermView>, rows: int) -> bool {
    forall|j: int| 0 <= j < masks.len() ==> mask_ok(#[trigger] masks[j], ends, j / rows, j % rows)
}

proof fn lemma_cell_index(rows: int, cols: int, c: int, r: int, j: int)
    requires
        rows > 0,
        0 <= c,
        0 <= j < rows * cols,
    ensures
        0 <= r < rows && j == rows * c + r ==> j / rows == c && j % rows == r,
        j / rows == c && j % rows == r ==> j == rows * c + r,
        j / rows < cols,
        0 <= j / rows,
        0 <= j % rows < rows,
{
    vstd::arithmetic::div_mod::lemma_fundamental_div_mod(j, rows);
    vstd::arithmetic::div_mod::lemma_mod_bound(j, rows);
    vstd::arithmetic::div_mod::lemma_div_pos_is_pos(j, rows);
    if 0 <= r < rows && j == rows * c + r {
        vstd::arithmetic::div_mod::lemma_fundamental_div_mod_converse(j, rows, c, r);
    }
    let q = j / rows;
    assert(q < cols) by (nonlinear_arith)
        requires
            j == rows * q + j % rows,
            0 <= j % rows,
            j < rows * cols,
            rows > 0,
    ;
}

proof fn lemma_filled_step(ends: Seq<TermView>, k: int, slot: ConnSlot, c: int, r: int)
    requires
        0 <= k < ends.len(),
    ensures
        slot_filled(ends.take(k + 1), slot, c, r) == (slot_filled(ends.take(k), slot, c, r) || end_fills(
            ends[k],
            slot,
            c,
            r,
        )),
{
    if slot_filled(ends.take(k + 1), slot, c, r) {
        let i = choose|i: int| 0 <= i < k + 1 && #[trigger] end_fills(ends.take(k + 1)[i], slot, c, r);
        if i < k {
            assert(end_fills(ends.take(k)[i], slot, c, r));
        }
    }
    if slot_filled(ends.take(k), slot, c, r) {
        let i = choose|i: int| 0 <= i < k && #[trigger] end_fills(ends.take(k)[i], slot, c, r);
        assert(end_fills(ends.take(k + 1)[i], slot, c, r));
    }
    if end_fills(ends[k], slot, c, r) {
        assert(end_fills(ends.take(k + 1)[k], slot, c, r));
    }
}

/// The slots that a connector class fills: west, east, south, north.
fn class_slots(cls: &str) -> (r: (bool, bool, bool, bool))
    ensures
        r.0 == in_slot(ConnSlot::W, cls@),
        r.1 == in_slot(ConnSlot::E, cls@),
        r.2 == in_slot(ConnSlot::S, cls@),
        r.3 == in_slot(ConnSlot::N, cls@),
{
    (
        str_equals(cls, "PASS_W") || str_equals(cls, "TERM_W"),
        str_equals(cls, "PASS_E") || str_equals(cls, "TERM_E"),
        str_equals(cls, "PASS_S") || str_equals(cls, "TERM_S") || str_equals(cls, "TERM_S_HOLE") || str_equals(
            cls,
            "BRKH_S",
        ),
        str_equals(cls, "PASS_N") || str_equals(cls, "TERM_N") || str_equals(cls, "TERM_N_HOLE") || str_equals(
            cls,
            "BRKH_N",
        ),
    )
}

fn mark_end(masks: &mut Vec<SlotMask>, ends: Ghost<Seq<TermView>>, k: Ghost<int>, e: GridTerm, cols: usize, rows: usize)
    requires
        rows > 0,
        rows * cols <= usize::MAX,
        old(masks)@.len() == rows * cols,
        0 <= k@ < ends@.len(),
        ends@[k@] == e@,
        masks_ok(old(masks)@, ends@.take(k@), rows as int),
    ensures
        final(masks)@.len() == rows * cols,
        masks_ok(final(masks)@, ends@.take(k@ + 1), rows as int),
{
    let ghost m0 = masks@;
    let (w, east, s, n) = class_slots(e.class);
    if e.col < cols && e.row < rows {
        assert(rows * e.col + e.row < rows * cols && rows * e.col <= rows * e.col + e.row) by (nonlinear_arith)
            requires
                e.col < cols,
                e.row < rows,
        ;
        let idx = rows * e.col + e.row;
        let m = masks[idx];
        masks.set(idx, SlotMask { w: m.w || w, e: m.e || east, s: m.s || s, n: m.n || n });
    }
    assert forall|j: int| 0 <= j < masks@.len() implies mask_ok(
        #[trigger] masks@[j],
        ends@.take(k@ + 1),
        j / rows as int,
        j % rows as int,
    ) by {
        assert(mask_ok(m0[j], ends@.take(k@), j / rows as int, j % rows as int));
        lemma_cell_index(rows as int, cols as int, e.col as int, e.row as int, j);
        lemma_filled_step(ends@, k@, ConnSlot::W, j / rows as int, j % rows as int);
        lemma_filled_step(ends@, k@, ConnSlot::E, j / rows as int, j % rows as int);
        lemma_filled_step(ends@, k@, ConnSlot::S, j / rows as int, j % rows as int);
        lemma_filled_step(ends@, k@, ConnSlot::N, j / rows as int, j % rows as int);
    }
}

spec fn opt_int(o: Option<usize>) -> Option<int> {
    match o {
        Some(p) => Some(p as int),
        None => None,
    }
}

fn push_hpass_row(
    out: &mut Vec<GridConn>,
    masks: &Vec<SlotMask>,
    ends: Ghost<Seq<TermView>>,
    holes: &Vec<Rect>,
    cols: usize,
    rows: usize,
    r: usize,
)
    requires
        rows > 0,
        rows * cols <= usize::MAX,
        r < rows,
        masks@.len() == rows * cols,
        masks_ok(masks@, ends@, rows as int),
    ensures
        conns_view(final(out)@) == conns_view(old(out)@) + hpass_row(holes@, ends@, r as int, cols as nat),
{
    let mut prev: Option<usize> = None;
    let mut c: usize = 0;
    while c < cols
        invariant
            c <= cols,
            rows > 0,
            rows * cols <= usize::MAX,
            r < rows,
            masks@.len() == rows * cols,
            masks_ok(masks@, ends@, rows as int),
            opt_int(prev) == hpass_prev(holes@, ends@, r as int, c as nat),
            conns_view(out@) == conns_view(old(out)@) + hpass_row(holes@, ends@, r as int, c as nat),
        decreases cols - c,
    {
        assert(rows * c + r < rows * cols && rows * c <= rows * c + r) by (nonlinear_arith)
            requires
                c < cols,
                r < rows,
        ;
        let idx = rows * c + r;
        proof {
            lemma_cell_index(rows as int, cols as int, c as int, r as int, idx as int);
            assert(mask_ok(masks@[idx as int], ends@, idx as int / rows as int, idx as int % rows as int));
        }
        let m = masks[idx];
        let ghost o0 = conns_view(out@);
        if !rects_contain(holes, ColId(c), RowId(r)) {
            match prev {
                Some(p) => {
                    if !m.w {
                        push_conn(out, p, r, "PASS_E", c, r, "PASS_W");
                    }
                },
                None => {},
            }
            prev = if !m.e { Some(c) } else { None };
        }
        assert(conns_view(out@) =~= o0 + (if !holds(holes@, c as int, r as int) && hpass_prev(holes@, ends@, r as int, c as nat) is Some && !slot_filled(ends@, ConnSlot::W, c as int, r as int) {
            seq![(hpass_prev(holes@, ends@, r as int, c as nat)->0, r as int, "PASS_E"@, c as int, r as int, "PASS_W"@)]
        } else {
            Seq::empty()
        }));
        c = c + 1;
    }
}

fn push_vpass_col(
    out: &mut Vec<GridConn>,
    masks: &Vec<SlotMask>,
    ends: Ghost<Seq<TermView>>,
    holes: &Vec<Rect>,
    cols: usize,
    rows: usize,
    c: usize,
)
    requires
        rows > 0,
        rows * cols <= usize::MAX,
        c < cols,
        masks@.len() == rows * cols,
        masks_ok(masks@, ends@, rows as int),
    ensures
        conns_view(final(out)@) == conns_view(old(out)@) + vpass_col(holes@, ends@, c as int, rows as nat),
{
    let mut prev: Option<usize> = None;
    let mut r: usize = 0;
    while r < rows
        invariant
            r <= rows,
            rows > 0,
            rows * cols <= usize::MAX,
            c < cols,
            masks@.len() == rows * cols,
            masks_ok(masks@, ends@, rows as int),
            opt_int(prev) == vpass_prev(holes@, ends@, c as int, r as nat),
            conns_view(out@) == conns_view(old(out)@) + vpass_col(holes@, ends@, c as int, r as nat),
        decreases rows - r,
    {
        assert(rows * c + r < rows * cols && rows * c <= rows * c + r) by (nonlinear_arith)
            requires
                c < cols,
                r < rows,
        ;
        let idx = rows * c + r;
        proof {
            lemma_cell_index(rows as int, cols as int, c as int, r as int, idx as int);
            assert(mask_ok(masks@[idx as int], ends@, idx as int / rows as int, idx as int % rows as int));
        }
        let m = masks[idx];
        let ghost o0 = conns_view(out@);
        if !rects_contain(holes, ColId(c), RowId(r)) {
            match prev {
                Some(p) => {
                    if !m.s {
                        push_conn(out, c, p, "PASS_N", c, r, "PASS_S");
                    }
                },
                None => {},
            }
            prev = if !m.n { Some(r) } else { None };
        }
        assert(conns_view(out@) =~= o0 + (if !holds(holes@, c as int, r as int) && vpass_prev(holes@, ends@, c as int, r as nat) is Some && !slot_filled(ends@, ConnSlot::S, c as int, r as int) {
            seq![(c as int, vpass_prev(holes@, ends@, c as int, r as nat)->0, "PASS_N"@, c as int, r as int, "PASS_S"@)]
        } else {
            Seq::empty()
        }));
        r = r + 1;
    }
}

/// The main passes of a Virtex 7 die of `cols` columns and `rows` rows,
/// given its interconnect holes and the terminators and connections laid
/// out before them: between each two interconnect cells that follow each
/// other along a row or a column, where the slots between them are free.
pub fn v7_main_passes(
    cols: usize,
    rows: usize,
    int_holes: &Vec<Rect>,
    terms: &Vec<GridTerm>,
    conns: &Vec<GridConn>,
) -> (r: Vec<GridConn>)
    requires
        rows >= 1,
        rows * cols <= usize::MAX,
    ensures
        conns_view(r@) == spec_v7_main_passes(
            cols as nat,
            rows as nat,
            int_holes@,
            conn_ends(terms_view(terms@), conns_view(conns@)),
        ),
{
    let ghost ends = conn_ends(terms_view(terms@), conns_view(conns@));
    let mut ev: Vec<GridTerm> = Vec::new();
    let mut i: usize = 0;
    while i < terms.len()
        invariant
            i <= terms@.len(),
            terms_view(ev@) == terms_view(terms@).take(i as int),
        decreases terms@.len() - i,
    {
        push_term(&mut ev, terms[i].class, terms[i].col, terms[i].row);
        i = i + 1;
        assert(terms_view(ev@) =~= terms_view(terms@).take(i as int));
    }
    let ghost e1 = terms_view(ev@);
    let ghost fa = |x: ConnView| (x.2, x.0, x.1);
    let ghost fb = |x: ConnView| (x.5, x.3, x.4);
    let mut i: usize = 0;
    while i < conns.len()
        invariant
            i <= conns@.len(),
            fa == (|x: ConnView| (x.2, x.0, x.1)),
            terms_view(ev@) == e1 + conns_view(conns@).take(i as int).map_values(fa),
        decreases conns@.len() - i,
    {
        let x = conns[i];
        push_term(&mut ev, x.class_a, x.col_a, x.row_a);
        i = i + 1;
        assert(terms_view(ev@) =~= e1 + conns_view(conns@).take(i as int).map_values(fa));
    }
    let ghost e2 = terms_view(ev@);
    let mut i: usize = 0;
    while i < conns.len()
        invariant
            i <= conns@.len(),
            fb == (|x: ConnView| (x.5, x.3, x.4)),
            terms_view(ev@) == e2 + conns_view(conns@).take(i as int).map_values(fb),
        decreases conns@.len() - i,
    {
        let x = conns[i];
        push_term(&mut ev, x.class_b, x.col_b, x.row_b);
        i = i + 1;
        assert(terms_view(ev@) =~= e2 + conns_view(conns@).take(i as int).map_values(fb));
    }
    assert(terms_view(ev@) =~= ends);
    let n = rows * cols;
    let mut masks: Vec<SlotMask> = Vec::new();
    let mut j: usize = 0;
    while j < n
        invariant
            j <= n,
            n == rows * cols,
            masks@.len() == j,
            forall|q: int| 0 <= q < j ==> !(#[trigger] masks@[q]).w && !masks@[q].e && !masks@[q].s && !masks@[q].n,
        decreases n - j,
    {
        masks.push(SlotMask { w: false, e: false, s: false, n: false });
        j = j + 1;
    }
    assert(masks_ok(masks@, ends.take(0), rows as int));
    let mut k: usize = 0;
    while k < ev.len()
        invariant
            k <= ev@.len(),
            rows >= 1,
            rows * cols <= usize::MAX,
            terms_view(ev@) == ends,
            masks@.len() == rows * cols,
            masks_ok(masks@, ends.take(k as int), rows as int),
        decreases ev@.len() - k,
    {
        mark_end(&mut masks, Ghost(ends), Ghost(k as int), ev[k], cols, rows);
        k = k + 1;
    }
    assert(ends.take(ends.len() as int) =~= ends);
    let mut out: Vec<GridConn> = Vec::new();
    assert(conns_view(out@) =~= Seq::<ConnView>::empty());
    let ghost fh = hpass_fn(cols as nat, int_holes@, ends);
    let mut r: usize = 0;
    while r < rows
        invariant
            r <= rows,
            rows >= 1,
            rows * cols <= usize::MAX,
            masks@.len() == rows * cols,
            masks_ok(masks@, ends, rows as int),
            fh == hpass_fn(cols as nat, int_holes@, ends),
            conns_view(out@) == concat_map(r as nat, fh),
        decreases rows - r,
    {
        push_hpass_row(&mut out, &masks, Ghost(ends), int_holes, cols, rows, r);
        r = r + 1;
    }
    let ghost o1 = conns_view(out@);
    let ghost fv = vpass_fn(rows as nat, int_holes@, ends);
    let mut c: usize = 0;
    while c < cols
        invariant
            c <= cols,
            rows >= 1,
            rows * cols <= usize::MAX,
            masks@.len() == rows * cols,
            masks_ok(masks@, ends, rows as int),
            fv == vpass_fn(rows as nat, int_holes@, ends),
            conns_view(out@) == o1 + concat_map(c as nat, fv),
        decreases cols - c,
    {
        push_vpass_col(&mut out, &masks, Ghost(ends), int_holes, cols, rows, c);
        c = c + 1;
    }
    out
}

// ---------------------------------------------------------------- block RAM and DSP

pub open spec fn v7_bram_span_cell_fn(chip: Chip, c: int, site: Seq<Rect>, class: Seq<char>) -> spec_fn(int) -> Seq<
    SpanView,
> {
    |r: int|
        if r % 5 == 0 && !holds(site, c, r) {
            seq![(class, c, r, 0int, 5int)] + if chip.columns@[c] is Bram && r % 50 == 25 {
                seq![("PMVBRAM"@, c, r, 0int, 15int)]
            } else {
                Seq::empty()
            }
        } else {
            Seq::empty()
        }
}

pub open spec fn v7_bram_nc_cell_fn(c: int, site: Seq<Rect>) -> spec_fn(int) -> Seq<TileView> {
    |r: int|
        if r % 50 == 25 && !holds(site, c, r - 1) && holds(site, c, r) {
            seq![tile0("PMVBRAM_NC"@, c, r)]
        } else {
            Seq::empty()
        }
}

pub open spec fn v7_bram_dsp_span_fn(chip: Chip, site: Seq<Rect>) -> spec_fn(int) -> Seq<SpanView> {
    |c: int|
        if chip.columns@[c] is Bram {
            concat_map((chip.regs * 50) as nat, v7_bram_span_cell_fn(chip, c, site, "BRAM"@))
        } else if chip.columns@[c] is Dsp {
            concat_map((chip.regs * 50) as nat, v7_bram_span_cell_fn(chip, c, site, "DSP"@))
        } else {
            Seq::empty()
        }
}

pub open spec fn v7_bram_tile_fn(chip: Chip, site: Seq<Rect>) -> spec_fn(int) -> Seq<TileView> {
    |c: int|
        if chip.columns@[c] is Bram {
            concat_map((chip.regs * 50) as nat, v7_bram_nc_cell_fn(c, site))
        } else {
            Seq::empty()
        }
}

/// The block RAM and DSP span tiles of a Virtex 7 die: five cells from
/// every fifth row outside the site holes, with a block RAM power tile of
/// fifteen cells from the clock row of each region.
pub open spec fn v7_bram_dsp_spans(chip: Chip, site: Seq<Rect>) -> Seq<SpanView> {
    concat_map(chip.columns@.len(), v7_bram_dsp_span_fn(chip, site))
}

/// The block RAM power tiles of a Virtex 7 die without a block RAM: on the
/// clock row of a block RAM column where the cell below lies outside the
/// site holes and the clock row's cell inside them.
pub open spec fn v7_bram_tiles(chip: Chip, site: Seq<Rect>) -> Seq<TileView> {
    concat_map(chip.columns@.len(), v7_bram_tile_fn(chip, site))
}

fn push_v7_bram_dsp(tiles: &mut Vec<GridTile>, spans: &mut Vec<SpanTile>, chip: &Chip, site: &Vec<Rect>)
    requires
        chip.regs * 50 <= usize::MAX,
    ensures
        tiles_view(final(tiles)@) == tiles_view(old(tiles)@) + v7_bram_tiles(*chip, site@),
        spans_view(final(spans)@) == spans_view(old(spans)@) + v7_bram_dsp_spans(*chip, site@),
{
    let rows = chip.regs * 50;
    let ghost f = v7_bram_tile_fn(*chip, site@);
    let ghost g = v7_bram_dsp_span_fn(*chip, site@);
    let mut c: usize = 0;
    while c < chip.columns.len()
        invariant
            c <= chip.columns@.len(),
            rows == chip.regs * 50,
            f == v7_bram_tile_fn(*chip, site@),
            g == v7_bram_dsp_span_fn(*chip, site@),
            tiles_view(tiles@) == tiles_view(old(tiles)@) + concat_map(c as nat, f),
            spans_view(spans@) == spans_view(old(spans)@) + concat_map(c as nat, g),
        decreases chip.columns@.len() - c,
    {
        let ghost t0 = tiles_view(tiles@);
        let ghost s0 = spans_view(spans@);
        let kind = chip.columns[c];
        if kind == ColumnKind::Bram || kind == ColumnKind::Dsp {
            let is_bram = kind == ColumnKind::Bram;
            let class = if is_bram { "BRAM" } else { "DSP" };
            let ghost h = v7_bram_span_cell_fn(*chip, c as int, site@, class@);
            let mut r: usize = 0;
            while r < rows
                invariant
                    r <= rows,
                    c < chip.columns@.len(),
                    is_bram == (chip.columns@[c as int] is Bram),
                    h == v7_bram_span_cell_fn(*chip, c as int, site@, class@),
                    spans_view(spans@) == s0 + concat_map(r as nat, h),
                decreases rows - r,
            {
                let ghost s1 = spans_view(spans@);
                if r % 5 == 0 && !rects_contain(site, ColId(c), RowId(r)) {
                    push_span(spans, class, c, r, 0, 5);
                    if is_bram && r % 50 == 25 {
                        push_span(spans, "PMVBRAM", c, r, 0, 15);
                    }
                }
                assert(spans_view(spans@) =~= s1 + h(r as int));
                r = r + 1;
            }
            if is_bram {
                let ghost k = v7_bram_nc_cell_fn(c as int, site@);
                let mut r: usize = 0;
                while r < rows
                    invariant
                        r <= rows,
                        k == v7_bram_nc_cell_fn(c as int, site@),
                        tiles_view(tiles@) == t0 + concat_map(r as nat, k),
                    decreases rows - r,
                {
                    let ghost t1 = tiles_view(tiles@);
                    if r % 50 == 25 && !rects_contain(site, ColId(c), RowId(r - 1)) && rects_contain(
                        site,
                        ColId(c),
                        RowId(r),
                    ) {
                        push_tile(tiles, mk_tile0("PMVBRAM_NC", c, r));
                    }
                    assert(tiles_view(tiles@) =~= t1 + k(r as int));
                    r = r + 1;
                }
            }
        }
        assert(tiles_view(tiles@) =~= t0 + f(c as int));
        assert(spans_view(spans@) =~= s0 + g(c as int));
        c = c + 1;
    }
}

// ---------------------------------------------------------------- IO, clock management and clocks

/// The IO tile of an IO cell of a Virtex 7 die in a region with an IO bank:
/// a single tile on the bottom and top rows of the region.
pub open spec fn v7_io_tile_fn(ioc: IoColumn) -> spec_fn(int) -> Seq<TileView> {
    |r: int|
        match ioc.regs@[r / 50] {
            Some(kind) => if r % 50 == 0 {
                seq![tile1(if kind is Hpio { "IO_HP_S"@ } else { "IO_HR_S"@ }, ioc.col.0 as int, r)]
            } else if r % 50 == 49 {
                seq![tile1(if kind is Hpio { "IO_HP_N"@ } else { "IO_HR_N"@ }, ioc.col.0 as int, r)]
            } else {
                Seq::empty()
            },
            None => Seq::empty(),
        }
}

/// The IO span tiles of a cell of a Virtex 7 IO column in a region with an
/// IO bank: a pair tile on each odd row between the region's bottom and
/// top rows, and the bank's clock tile on the region's clock row.
pub open spec fn v7_io_span_fn(ioc: IoColumn) -> spec_fn(int) -> Seq<SpanView> {
    |r: int|
        match ioc.regs@[r / 50] {
            Some(kind) => (if r % 50 != 0 && r % 50 != 49 && r % 2 == 1 {
                seq![(if kind is Hpio { "IO_HP_PAIR"@ } else { "IO_HR_PAIR"@ }, ioc.col.0 as int, r, 0int, 2int)]
            } else {
                Seq::empty()
            }) + if r % 50 == 25 {
                seq![(if kind is Hpio { "HCLK_IO_HP"@ } else { "HCLK_IO_HR"@ }, ioc.col.0 as int, r, 4int, 8int)]
            } else {
                Seq::empty()
            },
            None => Seq::empty(),
        }
}

pub open spec fn v7_io_tiles_fn(chip: Chip) -> spec_fn(int) -> Seq<TileView> {
    |i: int| concat_map((chip.regs * 50) as nat, v7_io_tile_fn(chip.cols_io@[i]))
}

pub open spec fn v7_io_spans_fn(chip: Chip) -> spec_fn(int) -> Seq<SpanView> {
    |i: int| concat_map((chip.regs * 50) as nat, v7_io_span_fn(chip.cols_io@[i]))
}

fn push_v7_io(tiles: &mut Vec<GridTile>, spans: &mut Vec<SpanTile>, chip: &Chip)
    requires
        chip.regs * 50 <= usize::MAX,
        forall|i: int| 0 <= i < chip.cols_io@.len() ==> (#[trigger] chip.cols_io@[i]).regs@.len() >= chip.regs,
    ensures
        tiles_view(final(tiles)@) == tiles_view(old(tiles)@) + concat_map(chip.cols_io@.len(), v7_io_tiles_fn(*chip)),
        spans_view(final(spans)@) == spans_view(old(spans)@) + concat_map(chip.cols_io@.len(), v7_io_spans_fn(*chip)),
{
    let rows = chip.regs * 50;
    let mut i: usize = 0;
    while i < chip.cols_io.len()
        invariant
            i <= chip.cols_io@.len(),
            rows == chip.regs * 50,
            forall|j: int| 0 <= j < chip.cols_io@.len() ==> (#[trigger] chip.cols_io@[j]).regs@.len() >= chip.regs,
            tiles_view(tiles@) == tiles_view(old(tiles)@) + concat_map(i as nat, v7_io_tiles_fn(*chip)),
            spans_view(spans@) == spans_view(old(spans)@) + concat_map(i as nat, v7_io_spans_fn(*chip)),
        decreases chip.cols_io@.len() - i,
    {
        let ioc = &chip.cols_io[i];
        assert(ioc.regs@.len() >= chip.regs);
        let ghost t0 = tiles_view(tiles@);
        let ghost s0 = spans_view(spans@);
        let ghost f = v7_io_tile_fn(*ioc);
        let ghost g = v7_io_span_fn(*ioc);
        let ic = ioc.col.0;
        let mut r: usize = 0;
        while r < rows
            invariant
                r <= rows,
                rows == chip.regs * 50,
                ioc.regs@.len() >= chip.regs,
                ic == ioc.col.0,
                f == v7_io_tile_fn(*ioc),
                g == v7_io_span_fn(*ioc),
                tiles_view(tiles@) == t0 + concat_map(r as nat, f),
                spans_view(spans@) == s0 + concat_map(r as nat, g),
            decreases rows - r,
        {
            let ghost t1 = tiles_view(tiles@);
            let ghost s1 = spans_view(spans@);
            assert(r / 50 < chip.regs) by {
                assert(r < chip.regs * 50);
            }
            match ioc.regs[r / 50] {
                Some(kind) => {
                    let hp = kind == IoKind::Hpio;
                    if r % 50 == 0 {
                        push_tile(tiles, mk_tile1(if hp { "IO_HP_S" } else { "IO_HR_S" }, ic, r));
                    } else if r % 50 == 49 {
                        push_tile(tiles, mk_tile1(if hp { "IO_HP_N" } else { "IO_HR_N" }, ic, r));
                    } else if r % 2 == 1 {
                        push_span(spans, if hp { "IO_HP_PAIR" } else { "IO_HR_PAIR" }, ic, r, 0, 2);
                    }
                    if r % 50 == 25 {
                        push_span(spans, if hp { "HCLK_IO_HP" } else { "HCLK_IO_HR" }, ic, r, 4, 8);
                    }
                },
                None => {},
            }
            assert(tiles_view(tiles@) =~= t1 + f(r as int));
            assert(spans_view(spans@) =~= s1 + g(r as int));
            r = r + 1;
        }
        i = i + 1;
    }
}

pub open spec fn v7_cmt_reg_fn(c: int, site: Seq<Rect>) -> spec_fn(int) -> Seq<SpanView> {
    |reg: int| {
        let row = reg * 50 + 25;
        if holds(site, c, row) {
            Seq::empty()
        } else {
            seq![
                ("CMT"@, c, row, 25int, 50int),
                ("CMT_FIFO"@, c, row - 24, 0int, 12int),
                ("CMT_FIFO"@, c, row - 12, 0int, 12int),
                ("CMT_FIFO"@, c, row, 0int, 12int),
                ("CMT_FIFO"@, c, row + 12, 0int, 12int),
            ]
        }
    }
}

pub open spec fn v7_cmt_col_fn(chip: Chip, site: Seq<Rect>) -> spec_fn(int) -> Seq<SpanView> {
    |c: int| if chip.columns@[c] is Cmt { concat_map(chip.regs as nat, v7_cmt_reg_fn(c, site)) } else { Seq::empty() }
}

/// The clock management span tiles of a Virtex 7 die: on the clock row of
/// each region of a clock management column outside the site holes, the
/// clock management tile and its four FIFOs.
pub open spec fn v7_cmt_spans(chip: Chip, site: Seq<Rect>) -> Seq<SpanView> {
    concat_map(chip.columns@.len(), v7_cmt_col_fn(chip, site))
}

fn push_v7_cmt(spans: &mut Vec<SpanTile>, chip: &Chip, site: &Vec<Rect>)
    requires
        chip.regs * 50 + 50 <= usize::MAX,
    ensures
        spans_view(final(spans)@) == spans_view(old(spans)@) + v7_cmt_spans(*chip, site@),
{
    let ghost f = v7_cmt_col_fn(*chip, site@);
    let mut c: usize = 0;
    while c < chip.columns.len()
        invariant
            c <= chip.columns@.len(),
            chip.regs * 50 + 50 <= usize::MAX,
            f == v7_cmt_col_fn(*chip, site@),
            spans_view(spans@) == spans_view(old(spans)@) + concat_map(c as nat, f),
        decreases chip.columns@.len() - c,
    {
        let ghost s0 = spans_view(spans@);
        if chip.columns[c] == ColumnKind::Cmt {
            let ghost g = v7_cmt_reg_fn(c as int, site@);
            let mut reg: usize = 0;
            while reg < chip.regs
                invariant
                    reg <= chip.regs,
                    chip.regs * 50 + 50 <= usize::MAX,
                    g == v7_cmt_reg_fn(c as int, site@),
                    spans_view(spans@) == s0 + concat_map(reg as nat, g),
                decreases chip.regs - reg,
            {
                let ghost s1 = spans_view(spans@);
                assert(reg * 50 + 50 <= chip.regs * 50) by (nonlinear_arith)
                    requires
                        reg < chip.regs,
                ;
                let row = reg * 50 + 25;
                if !rects_contain(site, ColId(c), RowId(row)) {
                    push_span(spans, "CMT", c, row, 25, 50);
                    push_span(spans, "CMT_FIFO", c, row - 24, 0, 12);
                    push_span(spans, "CMT_FIFO", c, row - 12, 0, 12);
                    push_span(spans, "CMT_FIFO", c, row, 0, 12);
                    push_span(spans, "CMT_FIFO", c, row + 12, 0, 12);
                }
                assert(spans_view(spans@) =~= s1 + g(reg as int));
                reg = reg + 1;
            }
        }
        assert(spans_view(spans@) =~= s0 + f(c as int));
        c = c + 1;
    }
}

pub open spec fn v7_clk_reg_fn(chip: Chip, cc: int) -> spec_fn(int) -> Seq<SpanView> {
    |reg: int| {
        let row = reg * 50 + 25;
        seq![
            if chip.has_slr && reg == 0 {
                ("CLK_BALI_REBUF"@, cc, row - 21, 0int, 16int)
            } else {
                ("CLK_BUFG_REBUF"@, cc, row - 13, 0int, 2int)
            },
            ("CLK_HROW"@, cc, row, 1int, 2int),
            if chip.has_slr && reg == chip.regs - 1 {
                ("CLK_BALI_REBUF"@, cc, row + 5, 0int, 16int)
            } else {
                ("CLK_BUFG_REBUF"@, cc, row + 11, 0int, 2int)
            },
        ]
    }
}

/// The clock span tiles of a Virtex 7 die: around the clock row of each
/// region of the clock column, the buffer repeaters (the bottom and top
/// ones on chips with inter-die links) and the clock row tile; then the
/// global buffers below and (unless the clock region is the top one)
/// above the clock region's bottom.
pub open spec fn v7_clk_spans(chip: Chip, cc: int) -> Seq<SpanView> {
    let bufg = chip.reg_clk.0 * 50;
    concat_map(chip.regs as nat, v7_clk_reg_fn(chip, cc)) + seq![("CLK_BUFG"@, cc, bufg - 4, 0int, 4int)] + if chip.reg_clk.0
        != chip.regs {
        seq![("CLK_BUFG"@, cc, bufg as int, 0int, 4int)]
    } else {
        Seq::empty()
    }
}

/// The clock power tiles of a Virtex 7 die, in the region below the clock
/// region's bottom of the clock column.
pub open spec fn v7_clk_tiles(chip: Chip, cc: int) -> Seq<TileView> {
    let b = chip.reg_clk.0 * 50 - 50;
    let pmv_base = if chip.regs == 1 { 0int } else { 1int };
    seq![
        tile1("CLK_PMV"@, cc, b + pmv_base + 3),
        tile1("CLK_PMVIOB"@, cc, b + 17),
        tile1("CLK_PMV2_SVT"@, cc, b + 32),
        tile1("CLK_PMV2"@, cc, b + 41),
        tile1("CLK_MTBF2"@, cc, b + 45),
    ]
}

fn push_v7_clk(tiles: &mut Vec<GridTile>, spans: &mut Vec<SpanTile>, chip: &Chip, cc: usize)
    requires
        chip.regs * 50 + 50 <= usize::MAX,
        chip.reg_clk.0 >= 1,
        chip.reg_clk.0 <= chip.regs,
    ensures
        tiles_view(final(tiles)@) == tiles_view(old(tiles)@) + v7_clk_tiles(*chip, cc as int),
        spans_view(final(spans)@) == spans_view(old(spans)@) + v7_clk_spans(*chip, cc as int),
{
    let ghost f = v7_clk_reg_fn(*chip, cc as int);
    let mut reg: usize = 0;
    while reg < chip.regs
        invariant
            reg <= chip.regs,
            chip.regs * 50 + 50 <= usize::MAX,
            f == v7_clk_reg_fn(*chip, cc as int),
            spans_view(spans@) == spans_view(old(spans)@) + concat_map(reg as nat, f),
        decreases chip.regs - reg,
    {
        let ghost s1 = spans_view(spans@);
        assert(reg * 50 + 50 <= chip.regs * 50) by (nonlinear_arith)
            requires
                reg < chip.regs,
        ;
        let row = reg * 50 + 25;
        if chip.has_slr && reg == 0 {
            push_span(spans, "CLK_BALI_REBUF", cc, row - 21, 0, 16);
        } else {
            push_span(spans, "CLK_BUFG_REBUF", cc, row - 13, 0, 2);
        }
        push_span(spans, "CLK_HROW", cc, row, 1, 2);
        if chip.has_slr && reg + 1 == chip.regs {
            push_span(spans, "CLK_BALI_REBUF", cc, row + 5, 0, 16);
        } else {
            push_span(spans, "CLK_BUFG_REBUF", cc, row + 11, 0, 2);
        }
        assert(spans_view(spans@) =~= s1 + f(reg as int));
        reg = reg + 1;
    }
    assert(chip.reg_clk.0 * 50 <= chip.regs * 50) by (nonlinear_arith)
        requires
            chip.reg_clk.0 <= chip.regs,
    ;
    let bufg = chip.reg_clk.0 * 50;
    push_span(spans, "CLK_BUFG", cc, bufg - 4, 0, 4);
    if chip.reg_clk.0 != chip.regs {
        push_span(spans, "CLK_BUFG", cc, bufg, 0, 4);
    }
    assert(spans_view(spans@) =~= spans_view(old(spans)@) + v7_clk_spans(*chip, cc as int));
    let b = bufg - 50;
    let pmv_base: usize = if chip.regs == 1 { 0 } else { 1 };
    push_tile(tiles, mk_tile1("CLK_PMV", cc, b + pmv_base + 3));
    push_tile(tiles, mk_tile1("CLK_PMVIOB", cc, b + 17));
    push_tile(tiles, mk_tile1("CLK_PMV2_SVT", cc, b + 32));
    push_tile(tiles, mk_tile1("CLK_PMV2", cc, b + 41));
    push_tile(tiles, mk_tile1("CLK_MTBF2", cc, b + 45));
    assert(tiles_view(tiles@) =~= tiles_view(old(tiles)@) + v7_clk_tiles(*chip, cc as int));
}

// ---------------------------------------------------------------- clock rows

pub open spec fn v7_hclk_cell_fn(c: int, holes: Seq<Rect>) -> spec_fn(int) -> Seq<TileView> {
    |r: int|
        (if r % 50 == 25 && !(holds(holes, c, r - 1) && holds(holes, c, r)) {
            seq![tile0("HCLK"@, c, r)]
        } else {
            Seq::empty()
        }) + if holds(holes, c, r) {
            Seq::empty()
        } else {
            seq![("INT_LCLK"@, c, r, seq![(c, r), (c + 1, r)])]
        }
}

pub open spec fn v7_hclk_col_fn(chip: Chip, holes: Seq<Rect>) -> spec_fn(int) -> Seq<TileView> {
    |c: int| if c % 2 == 0 { concat_map((chip.regs * 50) as nat, v7_hclk_cell_fn(c, holes)) } else { Seq::empty() }
}

/// The clock row tiles of a Virtex 7 die, on each even column: a clock
/// tile on the clock row of each region unless the cells below and on it
/// both lie in interconnect holes, and a local clock tile over the cell
/// and the one east of it outside the interconnect holes.
pub open spec fn v7_hclk_tiles(chip: Chip, holes: Seq<Rect>) -> Seq<TileView> {
    concat_map(chip.columns@.len(), v7_hclk_col_fn(chip, holes))
}

fn push_v7_hclk(tiles: &mut Vec<GridTile>, chip: &Chip, holes: &Vec<Rect>)
    requires
        chip.regs * 50 <= usize::MAX,
    ensures
        tiles_view(final(tiles)@) == tiles_view(old(tiles)@) + v7_hclk_tiles(*chip, holes@),
{
    let rows = chip.regs * 50;
    let cols = chip.columns.len();
    let ghost f = v7_hclk_col_fn(*chip, holes@);
    let mut c: usize = 0;
    while c < cols
        invariant
            c <= chip.columns@.len(),
            cols == chip.columns@.len(),
            rows == chip.regs * 50,
            f == v7_hclk_col_fn(*chip, holes@),
            tiles_view(tiles@) == tiles_view(old(tiles)@) + concat_map(c as nat, f),
        decreases chip.columns@.len() - c,
    {
        let ghost t0 = tiles_view(tiles@);
        if c % 2 == 0 {
            let ghost g = v7_hclk_cell_fn(c as int, holes@);
            let mut r: usize = 0;
            while r < rows
                invariant
                    r <= rows,
                    c < cols,
                    g == v7_hclk_cell_fn(c as int, holes@),
                    tiles_view(tiles@) == t0 + concat_map(r as nat, g),
                decreases rows - r,
            {
                let ghost t1 = tiles_view(tiles@);
                let here = rects_contain(holes, ColId(c), RowId(r));
                if r % 50 == 25 && !(rects_contain(holes, ColId(c), RowId(r - 1)) && here) {
                    push_tile(tiles, mk_tile0("HCLK", c, r));
                }
                if !here {
                    let mut cells: Vec<(usize, usize)> = Vec::new();
                    cells.push((c, r));
                    cells.push((c + 1, r));
                    assert(cells_view(cells@) =~= seq![(c as int, r as int), (c + 1, r as int)]);
                    push_tile(tiles, mk_tile("INT_LCLK", c, r, cells));
                }
                assert(tiles_view(tiles@) =~= t1 + g(r as int));
                r = r + 1;
            }
        }
        assert(tiles_view(tiles@) =~= t0 + f(c as int));
        c = c + 1;
    }
}

/// The root of the clock region of a slot that holds a cell of a Virtex 7
/// die.  Cells go in pairs of columns from the west: the clock row slot's
/// root is on the clock row of the cell's region, in the clock column (or
/// the column east of it, for the pairs east of it); the leaf slot's root
/// is in the pair's west column, on the clock row or just below it for the
/// cells below the clock row.
pub open spec fn spec_v7_clock_root(col_clk: int, slot: ClockRegion, c: int, r: int) -> (int, int) {
    let cw = c - c % 2;
    let hrow = (r / 50) * 50 + 25;
    match slot {
        ClockRegion::Hclk => (if cw <= col_clk { col_clk } else { col_clk + 1 }, hrow),
        ClockRegion::Leaf => (cw, if r < hrow { hrow - 1 } else { hrow }),
    }
}

/// The root of the clock region of a slot that holds a cell of a Virtex 7 die.
pub fn v7_clock_root(col_clk: ColId, slot: ClockRegion, col: ColId, row: RowId) -> (p: (ColId, RowId))
    requires
        col_clk.0 < usize::MAX,
        row.0 + 50 <= usize::MAX,
    ensures
        (p.0.0 as int, p.1.0 as int) == spec_v7_clock_root(col_clk.0 as int, slot, col.0 as int, row.0 as int),
{
    let cw = col.0 - col.0 % 2;
    let hrow = (row.0 / 50) * 50 + 25;
    match slot {
        ClockRegion::Hclk => (if cw <= col_clk.0 { col_clk } else { ColId(col_clk.0 + 1) }, RowId(hrow)),
        ClockRegion::Leaf => (ColId(cw), RowId(if row.0 < hrow { hrow - 1 } else { hrow })),
    }
}

// ---------------------------------------------------------------- the whole die

/// The tiles of a Virtex 7 die, in the order in which expanding it lays
/// them out: interconnect, processing system, PCIE2 and PCIE3 blocks,
/// transceivers, logic blocks, block RAM power tiles, IO, clocks and
/// clock rows. The interconnect and the logic blocks see the site holes of
/// the hard blocks alone; what follows them also sees the block RAM edge
/// holes.
pub open spec fn spec_v7_grid_tiles(
    chip: Chip,
    col_clk: int,
    int_holes: Seq<Rect>,
    site_holes: Seq<Rect>,
) -> Seq<TileView> {
    let site = site_holes + v7_bram_edge_holes(chip);
    v7_int_tiles(chip, int_holes, site_holes) + v7_ps_tiles(chip) + concat_map(
        chip.holes_pcie2@.len(),
        v7_pcie2_tiles_fn(chip),
    ) + concat_map(chip.holes_pcie3@.len(), v7_pcie3_tiles_fn(chip)) + concat_map(
        chip.cols_gt@.len(),
        v7_gt_tiles_fn(chip),
    ) + v5_clb_tiles(chip, (chip.regs * 50) as nat, site_holes) + v7_bram_tiles(chip, site) + concat_map(
        chip.cols_io@.len(),
        v7_io_tiles_fn(chip),
    ) + v7_clk_tiles(chip, col_clk) + v7_hclk_tiles(chip, int_holes)
}

/// The span tiles of a Virtex 7 die, in the order in which expanding it
/// lays them out.
pub open spec fn spec_v7_grid_spans(chip: Chip, col_cfg: int, col_clk: int, site_holes: Seq<Rect>) -> Seq<
    SpanView,
> {
    let site = site_holes + v7_bram_edge_holes(chip);
    v7_cfg_spans(chip, col_cfg) + concat_map(chip.cols_gt@.len(), v7_gt_spans_fn(chip)) + v7_bram_dsp_spans(
        chip,
        site,
    ) + concat_map(chip.cols_io@.len(), v7_io_spans_fn(chip)) + v7_cmt_spans(chip, site) + v7_clk_spans(
        chip,
        col_clk,
    )
}

/// The terminators of a Virtex 7 die: around the configuration block, the
/// processing system, the PCIE2 and PCIE3 blocks and the transceivers, then
/// at the die's edges.
pub open spec fn spec_v7_grid_terms(chip: Chip, col_cfg: int, col_clk: int, int_holes: Seq<Rect>) -> Seq<
    TermView,
> {
    v7_cfg_terms(chip, col_cfg) + v7_ps_terms(chip) + concat_map(
        chip.holes_pcie2@.len(),
        v7_pcie2_terms_fn(chip),
    ) + concat_map(chip.holes_pcie3@.len(), v7_pcie3_terms_fn(chip)) + concat_map(
        chip.cols_gt@.len(),
        v7_gt_terms_fn(chip, col_clk),
    ) + v7_edge_terms(chip, int_holes)
}

/// The connections of a Virtex 7 die: those across its clock breaks, then
/// its main passes over the slots that the terminators and those
/// connections fill.
pub open spec fn spec_v7_grid_conns(chip: Chip, col_cfg: int, col_clk: int, int_holes: Seq<Rect>) -> Seq<
    ConnView,
> {
    let brkh = v7_brkh_conns(chip, int_holes);
    brkh + spec_v7_main_passes(
        chip.columns@.len(),
        (chip.regs * 50) as nat,
        int_holes,
        conn_ends(spec_v7_grid_terms(chip, col_cfg, col_clk, int_holes), brkh),
    )
}

/// What laying out a Virtex 7 die needs: a Virtex 7 chip with columns and
/// regions, a configuration column with six columns west of it and a
/// region below the configuration region, two regions under a processing
/// system, a clock region within the die, transceiver and IO columns that
/// describe every region, and blocks whose extents fit the index range.
pub open spec fn v7_grid_ok(chip: Chip, col_cfg: int, col_clk: int) -> bool {
    &&& chip.kind is Virtex7
    &&& col_cfg >= 6
    &&& chip.columns@.len() >= 1
    &&& chip.regs >= 1
    &&& chip.regs * 50 + 50 <= usize::MAX
    &&& chip.regs * 50 * chip.columns@.len() <= usize::MAX
    &&& chip.reg_cfg.0 >= 1
    &&& chip.reg_cfg.0 * 50 + 100 <= usize::MAX
    &&& 1 <= chip.reg_clk.0 <= chip.regs
    &&& chip.has_ps ==> chip.regs >= 2
    &&& forall|k: int|
        0 <= k < chip.holes_pcie2@.len() ==> (#[trigger] chip.holes_pcie2@[k]).col.0 + 4 <= usize::MAX
            && chip.holes_pcie2@[k].row.0 + 26 <= usize::MAX
    &&& forall|k: int|
        0 <= k < chip.holes_pcie3@.len() ==> (#[trigger] chip.holes_pcie3@[k]).0.0 + 6 <= usize::MAX
            && chip.holes_pcie3@[k].1.0 + 51 <= usize::MAX && chip.holes_pcie3@[k].1.0 >= 1
    &&& forall|i: int| 0 <= i < chip.cols_gt@.len() ==> v7_gt_col_ok(chip, col_clk, #[trigger] chip.cols_gt@[i])
    &&& forall|i: int| 0 <= i < chip.cols_io@.len() ==> (#[trigger] chip.cols_io@[i]).regs@.len() >= chip.regs
}

/// The interconnect grid of a Virtex 7 die, given its configuration and
/// clock columns, its interconnect holes and the site holes of its hard
/// blocks; the block RAM edge holes are added to the latter once the logic
/// blocks are laid out.
pub fn v7_grid(chip: &Chip, col_cfg: ColId, col_clk: ColId, int_holes: &Vec<Rect>, site_holes: &Vec<Rect>) -> (g:
    DieGrid)
    requires
        v7_grid_ok(*chip, col_cfg.0 as int, col_clk.0 as int),
    ensures
        tiles_view(g.tiles@) == spec_v7_grid_tiles(*chip, col_clk.0 as int, int_holes@, site_holes@),
        spans_view(g.spans@) == spec_v7_grid_spans(*chip, col_cfg.0 as int, col_clk.0 as int, site_holes@),
        terms_view(g.terms@) == spec_v7_grid_terms(*chip, col_cfg.0 as int, col_clk.0 as int, int_holes@),
        conns_view(g.conns@) == spec_v7_grid_conns(*chip, col_cfg.0 as int, col_clk.0 as int, int_holes@),
{
    let mut tiles: Vec<GridTile> = Vec::new();
    let mut spans: Vec<SpanTile> = Vec::new();
    let mut terms: Vec<GridTerm> = Vec::new();
    let mut conns: Vec<GridConn> = Vec::new();
    assert(tiles_view(tiles@) =~= Seq::<TileView>::empty());
    assert(spans_view(spans@) =~= Seq::<SpanView>::empty());
    assert(terms_view(terms@) =~= Seq::<TermView>::empty());
    assert(conns_view(conns@) =~= Seq::<ConnView>::empty());
    push_v7_int_tiles(&mut tiles, chip, int_holes, site_holes);
    push_v7_cfg(&mut terms, &mut spans, chip, col_cfg.0);
    push_v7_ps(&mut tiles, &mut terms, chip);
    push_v7_pcie(&mut tiles, &mut terms, chip);
    push_v7_gt(&mut tiles, &mut spans, &mut terms, chip, col_clk.0);
    push_v7_edges(&mut terms, &mut conns, chip, int_holes);
    let mut passes = v7_main_passes(chip.columns.len(), chip.regs * 50, int_holes, &terms, &conns);
    let ghost c1 = conns@;
    let ghost pv = passes@;
    conns.append(&mut passes);
    assert(conns_view(conns@) =~= conns_view(c1) + conns_view(pv));
    push_v5_clb_tiles(&mut tiles, chip, chip.regs * 50, site_holes);
    let mut site: Vec<Rect> = Vec::new();
    let mut i: usize = 0;
    while i < site_holes.len()
        invariant
            i <= site_holes@.len(),
            site@ == site_holes@.subrange(0, i as int),
        decreases site_holes@.len() - i,
    {
        site.push(site_holes[i]);
        i = i + 1;
    }
    assert(site@ =~= site_holes@);
    push_v7_bram_edge_holes(chip, &mut site);
    push_v7_bram_dsp(&mut tiles, &mut spans, chip, &site);
    push_v7_io(&mut tiles, &mut spans, chip);
    push_v7_cmt(&mut spans, chip, &site);
    push_v7_clk(&mut tiles, &mut spans, chip, col_clk.0);
    push_v7_hclk(&mut tiles, chip, int_holes);
    DieGrid { tiles, spans, terms, conns }
}

// ---------------------------------------------------------------- between dies

pub open spec fn blackhole_col_fn(die: int, rows: int) -> spec_fn(int) -> Seq<DieCell> {
    |c: int| Seq::new(6, |i: int| die_cell(die, c, i)) + Seq::new(6, |i: int| die_cell(die, c, rows - 6 + i))
}

pub open spec fn blackhole_die_fn(chips: Seq<Chip>) -> spec_fn(int) -> Seq<DieCell> {
    |d: int|
        if chips[d].has_no_tbuturn {
            concat_map(chips[d].columns@.len(), blackhole_col_fn(d, chips[d].regs * 50))
        } else {
            Seq::empty()
        }
}

/// The cells whose long vertical wire ends in a black hole: on a die
/// without a turnaround at its bottom and top, the six bottom and the six
/// top cells of each column.
pub open spec fn v7_blackhole_cells(chips: Seq<Chip>) -> Seq<DieCell> {
    concat_map(chips.len(), blackhole_die_fn(chips))
}

/// Every die of a device has a region, and its rows fit the index range.
pub open spec fn v7_dies_ok(chips: Seq<Chip>) -> bool {
    forall|d: int| 0 <= d < chips.len() ==> 1 <= (#[trigger] chips[d]).regs && chips[d].regs * 50 <= usize::MAX
}

/// The cells of a Virtex 7 device whose long vertical wire ends in a black
/// hole, die by die and column by column.
pub fn v7_blackhole_cells_of(chips: &Vec<Chip>) -> (r: Vec<DieCell>)
    requires
        v7_dies_ok(chips@),
    ensures
        r@ == v7_blackhole_cells(chips@),
{
    let mut out: Vec<DieCell> = Vec::new();
    let ghost f = blackhole_die_fn(chips@);
    let mut d: usize = 0;
    while d < chips.len()
        invariant
            d <= chips@.len(),
            v7_dies_ok(chips@),
            f == blackhole_die_fn(chips@),
            out@ == concat_map(d as nat, f),
        decreases chips@.len() - d,
    {
        let ghost o0 = out@;
        let chip = &chips[d];
        assert(1 <= chips@[d as int].regs && chips@[d as int].regs * 50 <= usize::MAX);
        if chip.has_no_tbuturn {
            let rows = chip.regs * 50;
            let ghost g = blackhole_col_fn(d as int, rows as int);
            let mut c: usize = 0;
            while c < chip.columns.len()
                invariant
                    c <= chip.columns@.len(),
                    rows >= 50,
                    g == blackhole_col_fn(d as int, rows as int),
                    out@ == o0 + concat_map(c as nat, g),
                decreases chip.columns@.len() - c,
            {
                let ghost o1 = out@;
                let mut i: usize = 0;
                while i < 6
                    invariant
                        i <= 6,
                        out@ == o1 + Seq::new(i as nat, |k: int| die_cell(d as int, c as int, k)),
                    decreases 6 - i,
                {
                    out.push((DieId(d), ColId(c), RowId(i)));
                    i = i + 1;
                    assert(out@ =~= o1 + Seq::new(i as nat, |k: int| die_cell(d as int, c as int, k)));
                }
                let ghost o2 = out@;
                let mut i: usize = 0;
                while i < 6
                    invariant
                        i <= 6,
                        rows >= 50,
                        out@ == o2 + Seq::new(i as nat, |k: int| die_cell(d as int, c as int, rows - 6 + k)),
                    decreases 6 - i,
                {
                    out.push((DieId(d), ColId(c), RowId(rows - 6 + i)));
                    i = i + 1;
                    assert(out@ =~= o2 + Seq::new(i as nat, |k: int| die_cell(d as int, c as int, rows - 6 + k)));
                }
                assert(out@ =~= o1 + g(c as int));
                c = c + 1;
            }
        }
        assert(out@ =~= o0 + f(d as int));
        d = d + 1;
    }
    out
}

pub open spec fn xdie_cell_fn(chips: Seq<Chip>, holes: Seq<Seq<Rect>>, n: int, c: int) -> spec_fn(int) -> Seq<
    (DieCell, DieCell),
> {
    |dy: int| {
        let rs = chips[n - 1].regs * 50 - 50 + dy;
        let rn = 1 + dy;
        if !holds(holes[n - 1], c, rs) && !holds(holes[n], c, rn) {
            seq![(die_cell(n, c, rn), die_cell(n - 1, c, rs))]
        } else {
            Seq::empty()
        }
    }
}

pub open spec fn xdie_col_fn(chips: Seq<Chip>, holes: Seq<Seq<Rect>>, n: int) -> spec_fn(int) -> Seq<
    (DieCell, DieCell),
> {
    |c: int| concat_map(49, xdie_cell_fn(chips, holes, n, c))
}

pub open spec fn xdie_die_fn(chips: Seq<Chip>, holes: Seq<Seq<Rect>>) -> spec_fn(int) -> Seq<(DieCell, DieCell)> {
    |j: int| concat_map(chips[j].columns@.len(), xdie_col_fn(chips, holes, j + 1))
}

/// The long vertical wires that cross from each die to the next one up:
/// for each column of the lower die and each of 49 steps, the wire of the
/// cell that many rows above the upper die's bottom row joins that of the
/// cell that many rows above the lower die's fiftieth row from the top,
/// where neither cell lies in an interconnect hole; each pair gives the
/// upper die's cell first.
pub open spec fn v7_xdie_wires(chips: Seq<Chip>, holes: Seq<Seq<Rect>>) -> Seq<(DieCell, DieCell)> {
    if chips.len() == 0 {
        Seq::empty()
    } else {
        concat_map((chips.len() - 1) as nat, xdie_die_fn(chips, holes))
    }
}

/// The wire `x` crosses from step `dy` of column `c` of die `j` to die
/// `j + 1`: it joins the cell `1 + dy` rows above the upper die's bottom to
/// the cell `dy` rows above the lower die's fiftieth row from the top, and
/// neither cell lies in an interconnect hole.
pub open spec fn xdie_joins(
    chips: Seq<Chip>,
    holes: Seq<Seq<Rect>>,
    j: int,
    c: int,
    dy: int,
    x: (DieCell, DieCell),
) -> bool {
    let rs = chips[j].regs * 50 - 50 + dy;
    &&& 0 <= dy < 49
    &&& !holds(holes[j], c, rs)
    &&& !holds(holes[j + 1], c, 1 + dy)
    &&& x == (die_cell(j + 1, c, 1 + dy), die_cell(j, c, rs))
}

/// The wires between the dies of a device are exactly the joins of the
/// same column of each two consecutive dies, from each of the lower die's
/// columns and each of 49 steps, between cells outside the interconnect
/// holes.
pub proof fn lemma_v7_xdie_wires_join_consecutive_dies(chips: Seq<Chip>, holes: Seq<Seq<Rect>>, x: (DieCell, DieCell))
    requires
        chips.len() >= 1,
    ensures
        v7_xdie_wires(chips, holes).contains(x) <==> exists|j: int, c: int, dy: int|
            0 <= j < chips.len() - 1 && 0 <= c < chips[j].columns@.len() && #[trigger] xdie_joins(
                chips,
                holes,
                j,
                c,
                dy,
                x,
            ),
{
    let f = xdie_die_fn(chips, holes);
    lemma_concat_map_contains((chips.len() - 1) as nat, f, x);
    assert forall|j: int| 0 <= j < chips.len() - 1 implies (#[trigger] f(j)).contains(x) == exists|c: int, dy: int|
        0 <= c < chips[j].columns@.len() && #[trigger] xdie_joins(chips, holes, j, c, dy, x) by {
        let g = xdie_col_fn(chips, holes, j + 1);
        assert(f(j) == concat_map(chips[j].columns@.len(), g));
        lemma_concat_map_contains(chips[j].columns@.len(), g, x);
        assert forall|c: int| 0 <= c < chips[j].columns@.len() implies (#[trigger] g(c)).contains(x) == exists|
            dy: int,
        | #[trigger] xdie_joins(chips, holes, j, c, dy, x) by {
            let h = xdie_cell_fn(chips, holes, j + 1, c);
            assert(g(c) == concat_map(49, h));
            lemma_concat_map_contains(49, h, x);
            assert forall|dy: int| 0 <= dy < 49 implies (#[trigger] h(dy)).contains(x) == xdie_joins(
                chips,
                holes,
                j,
                c,
                dy,
                x,
            ) by {
                if h(dy).contains(x) {
                    assert(h(dy)[0] == x);
                }
                if xdie_joins(chips, holes, j, c, dy, x) {
                    assert(h(dy)[0] == x);
                }
            }
            if g(c).contains(x) {
                let dy = choose|dy: int| 0 <= dy < 49 && #[trigger] h(dy).contains(x);
                assert(xdie_joins(chips, holes, j, c, dy, x));
            }
            if exists|dy: int| #[trigger] xdie_joins(chips, holes, j, c, dy, x) {
                let dy = choose|dy: int| #[trigger] xdie_joins(chips, holes, j, c, dy, x);
                assert(h(dy).contains(x));
            }
        }
        if f(j).contains(x) {
            let c = choose|c: int| 0 <= c < chips[j].columns@.len() && #[trigger] g(c).contains(x);
            let dy = choose|dy: int| #[trigger] xdie_joins(chips, holes, j, c, dy, x);
            assert(xdie_joins(chips, holes, j, c, dy, x));
        }
        if exists|c: int, dy: int| 0 <= c < chips[j].columns@.len() && #[trigger] xdie_joins(chips, holes, j, c, dy, x) {
            let (c, dy) = choose|c: int, dy: int|
                0 <= c < chips[j].columns@.len() && #[trigger] xdie_joins(chips, holes, j, c, dy, x);
            assert(g(c).contains(x));
        }
    }
    if v7_xdie_wires(chips, holes).contains(x) {
        let j = choose|j: int| 0 <= j < chips.len() - 1 && #[trigger] f(j).contains(x);
        let (c, dy) = choose|c: int, dy: int|
            0 <= c < chips[j].columns@.len() && #[trigger] xdie_joins(chips, holes, j, c, dy, x);
        assert(xdie_joins(chips, holes, j, c, dy, x));
    }
    if exists|j: int, c: int, dy: int|
        0 <= j < chips.len() - 1 && 0 <= c < chips[j].columns@.len() && #[trigger] xdie_joins(chips, holes, j, c, dy, x) {
        let (j, c, dy) = choose|j: int, c: int, dy: int|
            0 <= j < chips.len() - 1 && 0 <= c < chips[j].columns@.len() && #[trigger] xdie_joins(
                chips,
                holes,
                j,
                c,
                dy,
                x,
            );
        assert(f(j).contains(x));
    }
}

/// Die `d` has at least the columns of the die below it.
pub open spec fn columns_grow(chips: Seq<Chip>, d: int) -> bool {
    chips[d].columns@.len() >= chips[d - 1].columns@.len()
}

/// The dies of a device can be joined: each die's interconnect holes are
/// known, and each die has at least the columns of the die below it.
pub open spec fn v7_xdie_ok(chips: Seq<Chip>, holes: Seq<Seq<Rect>>) -> bool {
    &&& v7_dies_ok(chips)
    &&& holes.len() == chips.len()
    &&& forall|d: int| 1 <= d < chips.len() ==> #[trigger] columns_grow(chips, d)
}

pub open spec fn holes_view(int_holes: Seq<Vec<Rect>>) -> Seq<Seq<Rect>> {
    int_holes.map_values(|h: Vec<Rect>| h@)
}

fn push_xdie_die(out: &mut Vec<(DieCell, DieCell)>, chips: &Vec<Chip>, int_holes: &Vec<Vec<Rect>>, j: usize)
    requires
        j + 1 < chips@.len(),
        int_holes@.len() == chips@.len(),
        1 <= chips@[j as int].regs,
        chips@[j as int].regs * 50 <= usize::MAX,
    ensures
        final(out)@ == old(out)@ + xdie_die_fn(chips@, holes_view(int_holes@))(j as int),
{
    let ghost holes = holes_view(int_holes@);
    let len = chips.len();
    let n = j + 1;
    let rows_s = chips[j].regs * 50;
    let ghost g = xdie_col_fn(chips@, holes, n as int);
    let mut c: usize = 0;
    while c < chips[j].columns.len()
        invariant
            n == j + 1,
            n < chips@.len(),
            int_holes@.len() == chips@.len(),
            rows_s == chips@[j as int].regs * 50,
            rows_s >= 50,
            c <= chips@[j as int].columns@.len(),
            holes == holes_view(int_holes@),
            g == xdie_col_fn(chips@, holes, n as int),
            out@ == old(out)@ + concat_map(c as nat, g),
        decreases chips@[j as int].columns@.len() - c,
    {
        let ghost o1 = out@;
        let ghost h = xdie_cell_fn(chips@, holes, n as int, c as int);
        let mut dy: usize = 0;
        while dy < 49
            invariant
                dy <= 49,
                n == j + 1,
                n < chips@.len(),
                int_holes@.len() == chips@.len(),
                rows_s == chips@[j as int].regs * 50,
                rows_s >= 50,
                holes == holes_view(int_holes@),
                h == xdie_cell_fn(chips@, holes, n as int, c as int),
                out@ == o1 + concat_map(dy as nat, h),
            decreases 49 - dy,
        {
            let ghost o2 = out@;
            let rs = rows_s - 50 + dy;
            let rn = 1 + dy;
            let hs = rects_contain(&int_holes[j], ColId(c), RowId(rs));
            let hn = rects_contain(&int_holes[n], ColId(c), RowId(rn));
            assert(holes[j as int] == int_holes@[j as int]@);
            assert(holes[n as int] == int_holes@[n as int]@);
            if !hs && !hn {
                out.push(((DieId(n), ColId(c), RowId(rn)), (DieId(j), ColId(c), RowId(rs))));
            }
            assert(out@ =~= o2 + h(dy as int));
            dy = dy + 1;
        }
        assert(out@ =~= o1 + g(c as int));
        c = c + 1;
    }
}

/// The long vertical wires that cross between consecutive dies of a
/// Virtex 7 device, given each die's interconnect holes.
pub fn v7_xdie_wires_of(chips: &Vec<Chip>, int_holes: &Vec<Vec<Rect>>) -> (r: Vec<(DieCell, DieCell)>)
    requires
        v7_xdie_ok(chips@, holes_view(int_holes@)),
    ensures
        r@ == v7_xdie_wires(chips@, holes_view(int_holes@)),
{
    let ghost holes = holes_view(int_holes@);
    let mut out: Vec<(DieCell, DieCell)> = Vec::new();
    if chips.len() == 0 {
        assert(out@ =~= v7_xdie_wires(chips@, holes));
        return out;
    }
    let ghost f = xdie_die_fn(chips@, holes);
    let last = chips.len() - 1;
    let mut j: usize = 0;
    while j < last
        invariant
            last == chips@.len() - 1,
            j <= last,
            v7_xdie_ok(chips@, holes),
            int_holes@.len() == chips@.len(),
            holes == holes_view(int_holes@),
            f == xdie_die_fn(chips@, holes),
            out@ == concat_map(j as nat, f),
        decreases last - j,
    {
        assert(1 <= chips@[j as int].regs && chips@[j as int].regs * 50 <= usize::MAX);
        push_xdie_die(&mut out, chips, int_holes, j);
        j = j + 1;
    }
    out
}

/// Whether a tile or a span tile of a die grid is anchored at `(c, r)`.
pub open spec fn anchored(tiles: Seq<TileView>, spans: Seq<SpanView>, c: int, r: int) -> bool {
    (exists|i: int| 0 <= i < tiles.len() && (#[trigger] tiles[i]).1 == c && tiles[i].2 == r) || (exists|i: int|
        0 <= i < spans.len() && (#[trigger] spans[i]).1 == c && spans[i].2 == r)
}

pub open spec fn grid_anchored(g: DieGrid, c: int, r: int) -> bool {
    anchored(tiles_view(g.tiles@), spans_view(g.spans@), c, r)
}

/// Whether some tile of a die grid is anchored at the cell.
pub fn has_anchor(g: &DieGrid, c: usize, r: usize) -> (b: bool)
    ensures
        b == grid_anchored(*g, c as int, r as int),
{
    let mut i: usize = 0;
    while i < g.tiles.len()
        invariant
            i <= g.tiles@.len(),
            forall|j: int| 0 <= j < i ==> !((#[trigger] g.tiles@[j]).col == c && g.tiles@[j].row == r),
        decreases g.tiles@.len() - i,
    {
        if g.tiles[i].col == c && g.tiles[i].row == r {
            assert(tiles_view(g.tiles@)[i as int].1 == c);
            return true;
        }
        i = i + 1;
    }
    let mut i: usize = 0;
    while i < g.spans.len()
        invariant
            i <= g.spans@.len(),
            forall|j: int| 0 <= j < i ==> !((#[trigger] g.spans@[j]).col == c && g.spans@[j].row == r),
        decreases g.spans@.len() - i,
    {
        if g.spans[i].col == c && g.spans[i].row == r {
            assert(spans_view(g.spans@)[i as int].1 == c);
            return true;
        }
        i = i + 1;
    }
    assert forall|j: int| 0 <= j < tiles_view(g.tiles@).len() implies !((#[trigger] tiles_view(g.tiles@)[j]).1
        == c && tiles_view(g.tiles@)[j].2 == r) by {
        assert(tiles_view(g.tiles@)[j] == g.tiles@[j]@);
    }
    assert forall|j: int| 0 <= j < spans_view(g.spans@).len() implies !((#[trigger] spans_view(g.spans@)[j]).1
        == c && spans_view(g.spans@)[j].2 == r) by {
        assert(spans_view(g.spans@)[j] == g.spans@[j]@);
    }
    false
}

pub open spec fn cursed_die_fn(chips: Seq<Chip>, grids: Seq<DieGrid>) -> spec_fn(int) -> Seq<DieCell> {
    |j: int| {
        let rs = chips[j].regs * 50 - 50;
        concat_map(
            chips[j].columns@.len(),
            |c: int|
                if grid_anchored(grids[j], c, rs) && grid_anchored(grids[j + 1], c, 1) {
                    seq![die_cell(j, c, rs)]
                } else {
                    Seq::empty()
                },
        )
    }
}

/// The cells of a multi-die Virtex 7 device whose long vertical wire ends
/// in a black hole for the vendor's tools: for each die below another and
/// each of its columns, the cell fifty rows below the die's top, where a
/// tile is anchored both there and on the upper die's second row.
pub open spec fn v7_vivado_cursed_cells(chips: Seq<Chip>, grids: Seq<DieGrid>) -> Seq<DieCell> {
    if chips.len() == 0 {
        Seq::empty()
    } else {
        concat_map((chips.len() - 1) as nat, cursed_die_fn(chips, grids))
    }
}

/// The cells that the vendor's tools take to end their long vertical wire
/// in a black hole, given the grid of each die of a Virtex 7 device.
pub fn v7_vivado_cursed_cells_of(chips: &Vec<Chip>, grids: &Vec<DieGrid>) -> (r: Vec<DieCell>)
    requires
        v7_dies_ok(chips@),
        grids@.len() == chips@.len(),
    ensures
        r@ == v7_vivado_cursed_cells(chips@, grids@),
{
    let mut out: Vec<DieCell> = Vec::new();
    if chips.len() == 0 {
        return out;
    }
    let ghost f = cursed_die_fn(chips@, grids@);
    let last = chips.len() - 1;
    let mut j: usize = 0;
    while j < last
        invariant
            last == chips@.len() - 1,
            j <= last,
            v7_dies_ok(chips@),
            grids@.len() == chips@.len(),
            f == cursed_die_fn(chips@, grids@),
            out@ == concat_map(j as nat, f),
        decreases last - j,
    {
        let ghost o0 = out@;
        assert(1 <= chips@[j as int].regs && chips@[j as int].regs * 50 <= usize::MAX);
        let rs = chips[j].regs * 50 - 50;
        let ghost g = |c: int|
            if grid_anchored(grids@[j as int], c, rs as int) && grid_anchored(grids@[j + 1], c, 1) {
                seq![die_cell(j as int, c, rs as int)]
            } else {
                Seq::<DieCell>::empty()
            };
        let mut c: usize = 0;
        while c < chips[j].columns.len()
            invariant
                j < last,
                last == chips@.len() - 1,
                grids@.len() == chips@.len(),
                c <= chips@[j as int].columns@.len(),
                g == (|c: int|
                    if grid_anchored(grids@[j as int], c, rs as int) && grid_anchored(grids@[j + 1], c, 1) {
                        seq![die_cell(j as int, c, rs as int)]
                    } else {
                        Seq::<DieCell>::empty()
                    }),
                out@ == o0 + concat_map(c as nat, g),
            decreases chips@[j as int].columns@.len() - c,
        {
            let ghost o1 = out@;
            if has_anchor(&grids[j], c, rs) && has_anchor(&grids[j + 1], c, 1) {
                out.push((DieId(j), ColId(c), RowId(rs)));
            }
            assert(out@ =~= o1 + g(c as int));
            c = c + 1;
        }
        assert(out@ =~= o0 + f(j as int));
        j = j + 1;
    }
    out
}

} // verus!
