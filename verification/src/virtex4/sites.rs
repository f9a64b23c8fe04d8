//! The holes of the interconnect and site grids that hard blocks leave,
//! and the IOs and transceivers of each die, as expanding a device lays
//! them out.
use vstd::prelude::*;
use crate::grid::{ColId, DieId, Rect, RowId, TileIobId};
use crate::seqs::concat_map;
use crate::virtex4::chip::{CfgRowKind, Chip, ColumnKind, GtColumn, GtKind, IoColumn, RegId};
use crate::virtex4::expanded::{in_some_rect, rects_contain, IoCoord};

verus! {

/// The rectangle of `w` columns and `h` rows whose south-west cell is
/// `(col, row)`.
pub open spec fn rect_at(col: int, row: int, w: int, h: int) -> Rect {
    Rect {
        col_w: ColId(col as usize),
        col_e: ColId((col + w) as usize),
        row_s: RowId(row as usize),
        row_n: RowId((row + h) as usize),
    }
}

fn make_rect(col: usize, row: usize, w: usize, h: usize) -> (r: Rect)
    requires
        col + w <= usize::MAX,
        row + h <= usize::MAX,
    ensures
        r == rect_at(col as int, row as int, w as int, h as int),
{
    Rect { col_w: ColId(col), col_e: ColId(col + w), row_s: RowId(row), row_n: RowId(row + h) }
}

/// `t` where `b` holds, nothing elsewhere.
pub open spec fn opt_seq<A>(b: bool, t: Seq<A>) -> Seq<A> {
    if b {
        t
    } else {
        Seq::empty()
    }
}

// ---------------------------------------------------------------- Virtex 7

/// The hole of the configuration block: six columns west of the
/// configuration column, from the bottom of the region below the
/// configuration region, one region high on a chip of one region and two
/// regions high otherwise.
pub open spec fn v7_cfg_hole(chip: Chip, col_cfg: int) -> Rect {
    rect_at(col_cfg - 6, chip.sp_row_reg_bot(chip.reg_cfg.0 - 1), 6, if chip.regs == 1 { 50 } else { 100 })
}

/// The interconnect hole of the transceiver of region `k` of a transceiver
/// column: a middle transceiver blocks eighteen columns on its inner side;
/// a transceiver east of the clock column and not at the east edge blocks
/// six columns east of it.
pub open spec fn v7_gt_int_hole(chip: Chip, col_clk: int, g: GtColumn, k: int) -> Seq<Rect> {
    let bot = k * 50;
    let is_l = g.col.0 < col_clk;
    if g.regs@[k] is Some {
        if g.is_middle {
            if is_l {
                seq![rect_at(g.col.0 + 1, bot, 18, 50)]
            } else {
                seq![rect_at(g.col.0 - 18, bot, 18, 50)]
            }
        } else if !is_l && g.col.0 + 1 != chip.columns@.len() {
            seq![rect_at(g.col.0 + 1, bot, 6, 50)]
        } else {
            Seq::empty()
        }
    } else {
        Seq::empty()
    }
}

/// The site hole of the transceiver of region `k` of a transceiver column:
/// the interconnect hole and the transceiver's own column.
pub open spec fn v7_gt_site_hole(chip: Chip, col_clk: int, g: GtColumn, k: int) -> Seq<Rect> {
    let bot = k * 50;
    let is_l = g.col.0 < col_clk;
    if g.regs@[k] is Some {
        if g.is_middle {
            if is_l {
                seq![rect_at(g.col.0 as int, bot, 19, 50)]
            } else {
                seq![rect_at(g.col.0 - 18, bot, 19, 50)]
            }
        } else if !is_l && g.col.0 + 1 != chip.columns@.len() {
            seq![rect_at(g.col.0 as int, bot, 7, 50)]
        } else {
            Seq::empty()
        }
    } else {
        Seq::empty()
    }
}

pub open spec fn v7_gt_int_hole_fn(chip: Chip, col_clk: int, g: GtColumn) -> spec_fn(int) -> Seq<Rect> {
    |k: int| v7_gt_int_hole(chip, col_clk, g, k)
}

pub open spec fn v7_gt_site_hole_fn(chip: Chip, col_clk: int, g: GtColumn) -> spec_fn(int) -> Seq<Rect> {
    |k: int| v7_gt_site_hole(chip, col_clk, g, k)
}

pub open spec fn v7_gt_int_holes_fn(chip: Chip, col_clk: int) -> spec_fn(int) -> Seq<Rect> {
    |i: int| concat_map(chip.cols_gt@[i].regs@.len(), v7_gt_int_hole_fn(chip, col_clk, chip.cols_gt@[i]))
}

pub open spec fn v7_gt_site_holes_fn(chip: Chip, col_clk: int) -> spec_fn(int) -> Seq<Rect> {
    |i: int| concat_map(chip.cols_gt@[i].regs@.len(), v7_gt_site_hole_fn(chip, col_clk, chip.cols_gt@[i]))
}

pub open spec fn v7_pcie2_int_fn(chip: Chip) -> spec_fn(int) -> Seq<Rect> {
    |k: int| seq![rect_at(chip.holes_pcie2@[k].col.0 + 1, chip.holes_pcie2@[k].row.0 as int, 2, 25)]
}

pub open spec fn v7_pcie2_site_fn(chip: Chip) -> spec_fn(int) -> Seq<Rect> {
    |k: int| seq![rect_at(chip.holes_pcie2@[k].col.0 as int, chip.holes_pcie2@[k].row.0 as int, 4, 25)]
}

pub open spec fn v7_pcie3_int_fn(chip: Chip) -> spec_fn(int) -> Seq<Rect> {
    |k: int| seq![rect_at(chip.holes_pcie3@[k].0.0 + 1, chip.holes_pcie3@[k].1.0 as int, 4, 50)]
}

pub open spec fn v7_pcie3_site_fn(chip: Chip) -> spec_fn(int) -> Seq<Rect> {
    |k: int| seq![rect_at(chip.holes_pcie3@[k].0.0 as int, chip.holes_pcie3@[k].1.0 as int, 6, 50)]
}

/// The interconnect holes of a Virtex 7 die: the configuration block, the
/// processing system (eighteen columns at the west edge of the top two
/// regions), the PCIE2 and PCIE3 blocks and the transceivers.
pub open spec fn v7_int_holes(chip: Chip, col_cfg: int, col_clk: int) -> Seq<Rect> {
    let top = chip.regs * 50 - 100;
    seq![v7_cfg_hole(chip, col_cfg)] + opt_seq(chip.has_ps, seq![rect_at(0, top, 18, 100)]) + concat_map(
        chip.holes_pcie2@.len(),
        v7_pcie2_int_fn(chip),
    ) + concat_map(chip.holes_pcie3@.len(), v7_pcie3_int_fn(chip)) + concat_map(
        chip.cols_gt@.len(),
        v7_gt_int_holes_fn(chip, col_clk),
    )
}

/// The site holes of the hard blocks of a Virtex 7 die: those of the
/// interconnect holes' blocks, each with its own columns.
pub open spec fn v7_block_site_holes(chip: Chip, col_cfg: int, col_clk: int) -> Seq<Rect> {
    let top = chip.regs * 50 - 100;
    seq![v7_cfg_hole(chip, col_cfg)] + opt_seq(chip.has_ps, seq![rect_at(0, top, 19, 100)]) + concat_map(
        chip.holes_pcie2@.len(),
        v7_pcie2_site_fn(chip),
    ) + concat_map(chip.holes_pcie3@.len(), v7_pcie3_site_fn(chip)) + concat_map(
        chip.cols_gt@.len(),
        v7_gt_site_holes_fn(chip, col_clk),
    )
}

/// The bottom and top five rows of a block RAM column at the west edge of a
/// Virtex 7 die, which hold no block RAM.
pub open spec fn v7_bram_edge_holes(chip: Chip) -> Seq<Rect> {
    opt_seq(chip.columns@[0] is Bram, seq![rect_at(0, 0, 1, 5), rect_at(0, chip.regs * 50 - 5, 1, 5)])
}

/// The site holes of a Virtex 7 die: those of the hard blocks, and the
/// block RAM rows at the west edge.
pub open spec fn v7_site_holes(chip: Chip, col_cfg: int, col_clk: int) -> Seq<Rect> {
    v7_block_site_holes(chip, col_cfg, col_clk) + v7_bram_edge_holes(chip)
}

/// The holes of a Virtex 7 die can be laid out: the configuration column
/// has six columns west of it and a region below the configuration region,
/// a processing system has two regions, a middle transceiver east of the
/// clock column has eighteen columns west of it, the die has columns and
/// rows, and every rectangle fits the index range.
pub open spec fn v7_holes_ok(chip: Chip, col_cfg: int, col_clk: int) -> bool {
    &&& chip.kind is Virtex7
    &&& col_cfg >= 6
    &&& chip.reg_cfg.0 >= 1
    &&& chip.reg_cfg.0 * 50 + 50 <= usize::MAX
    &&& chip.columns@.len() >= 1
    &&& chip.regs >= 1
    &&& chip.has_ps ==> chip.regs >= 2
    &&& chip.regs * 50 + 100 <= usize::MAX
    &&& forall|k: int|
        0 <= k < chip.holes_pcie2@.len() ==> (#[trigger] chip.holes_pcie2@[k]).col.0 + 4 <= usize::MAX
            && chip.holes_pcie2@[k].row.0 + 25 <= usize::MAX
    &&& forall|k: int|
        0 <= k < chip.holes_pcie3@.len() ==> (#[trigger] chip.holes_pcie3@[k]).0.0 + 6 <= usize::MAX
            && chip.holes_pcie3@[k].1.0 + 50 <= usize::MAX
    &&& forall|i: int|
        0 <= i < chip.cols_gt@.len() ==> {
            &&& (#[trigger] chip.cols_gt@[i]).col.0 + 19 <= usize::MAX
            &&& chip.cols_gt@[i].regs@.len() * 50 + 50 <= usize::MAX
            &&& chip.cols_gt@[i].is_middle && chip.cols_gt@[i].col.0 >= col_clk ==> chip.cols_gt@[i].col.0 >= 18
                || forall|k: int| 0 <= k < chip.cols_gt@[i].regs@.len() ==> chip.cols_gt@[i].regs@[k] is None
        }
}

fn push_v7_gt_holes(chip: &Chip, col_clk: usize, g: &GtColumn, ints: &mut Vec<Rect>, site: &mut Vec<Rect>)
    requires
        g.col.0 + 19 <= usize::MAX,
        g.regs@.len() * 50 + 50 <= usize::MAX,
        g.is_middle && g.col.0 >= col_clk ==> g.col.0 >= 18 || forall|k: int|
            0 <= k < g.regs@.len() ==> g.regs@[k] is None,
    ensures
        final(ints)@ == old(ints)@ + concat_map(g.regs@.len(), v7_gt_int_hole_fn(*chip, col_clk as int, *g)),
        final(site)@ == old(site)@ + concat_map(g.regs@.len(), v7_gt_site_hole_fn(*chip, col_clk as int, *g)),
{
    let ghost fi = v7_gt_int_hole_fn(*chip, col_clk as int, *g);
    let ghost fs = v7_gt_site_hole_fn(*chip, col_clk as int, *g);
    let is_l = g.col.0 < col_clk;
    let mut k: usize = 0;
    while k < g.regs.len()
        invariant
            k <= g.regs@.len(),
            g.col.0 + 19 <= usize::MAX,
            g.regs@.len() * 50 + 50 <= usize::MAX,
            g.is_middle && g.col.0 >= col_clk ==> g.col.0 >= 18 || forall|j: int|
                0 <= j < g.regs@.len() ==> g.regs@[j] is None,
            is_l == (g.col.0 < col_clk),
            fi == v7_gt_int_hole_fn(*chip, col_clk as int, *g),
            fs == v7_gt_site_hole_fn(*chip, col_clk as int, *g),
            ints@ == old(ints)@ + concat_map(k as nat, fi),
            site@ == old(site)@ + concat_map(k as nat, fs),
        decreases g.regs@.len() - k,
    {
        let ghost i0 = ints@;
        let ghost s0 = site@;
        assert(k * 50 + 50 <= g.regs@.len() * 50 + 50) by (nonlinear_arith)
            requires
                k < g.regs@.len(),
        ;
        let bot = k * 50;
        if g.regs[k].is_some() {
            if g.is_middle {
                if is_l {
                    ints.push(make_rect(g.col.0 + 1, bot, 18, 50));
                    site.push(make_rect(g.col.0, bot, 19, 50));
                } else {
                    assert(g.regs@[k as int] is Some);
                    ints.push(make_rect(g.col.0 - 18, bot, 18, 50));
                    site.push(make_rect(g.col.0 - 18, bot, 19, 50));
                }
            } else if !is_l && g.col.0 + 1 != chip.columns.len() {
                site.push(make_rect(g.col.0, bot, 7, 50));
                ints.push(make_rect(g.col.0 + 1, bot, 6, 50));
            }
        }
        assert(ints@ =~= i0 + fi(k as int));
        assert(site@ =~= s0 + fs(k as int));
        k = k + 1;
    }
}

/// The interconnect holes of a Virtex 7 die and the site holes of its hard
/// blocks, whose device has its configuration column at `col_cfg` and its
/// clock column at `col_clk`.
pub fn v7_block_holes(chip: &Chip, col_cfg: usize, col_clk: usize) -> (r: (Vec<Rect>, Vec<Rect>))
    requires
        v7_holes_ok(*chip, col_cfg as int, col_clk as int),
    ensures
        r.0@ == v7_int_holes(*chip, col_cfg as int, col_clk as int),
        r.1@ == v7_block_site_holes(*chip, col_cfg as int, col_clk as int),
{
    let mut ints: Vec<Rect> = Vec::new();
    let mut site: Vec<Rect> = Vec::new();
    assert((chip.reg_cfg.0 - 1) * 50 + 100 <= chip.reg_cfg.0 * 50 + 50) by (nonlinear_arith)
        requires
            chip.reg_cfg.0 >= 1,
    ;
    let bot = (chip.reg_cfg.0 - 1) * 50;
    assert(bot == chip.sp_row_reg_bot(chip.reg_cfg.0 - 1));
    let h: usize = if chip.regs == 1 { 50 } else { 100 };
    let cfg_hole = make_rect(col_cfg - 6, bot, 6, h);
    ints.push(cfg_hole);
    site.push(cfg_hole);
    if chip.has_ps {
        let top = chip.regs * 50 - 100;
        ints.push(make_rect(0, top, 18, 100));
        site.push(make_rect(0, top, 19, 100));
    }
    let ghost top = chip.regs * 50 - 100;
    assert(ints@ =~= seq![v7_cfg_hole(*chip, col_cfg as int)] + opt_seq(chip.has_ps, seq![rect_at(0, top, 18, 100)]));
    assert(site@ =~= seq![v7_cfg_hole(*chip, col_cfg as int)] + opt_seq(chip.has_ps, seq![rect_at(0, top, 19, 100)]));
    let ghost i1 = ints@;
    let ghost s1 = site@;
    let mut k: usize = 0;
    while k < chip.holes_pcie2.len()
        invariant
            k <= chip.holes_pcie2@.len(),
            v7_holes_ok(*chip, col_cfg as int, col_clk as int),
            ints@ == i1 + concat_map(k as nat, v7_pcie2_int_fn(*chip)),
            site@ == s1 + concat_map(k as nat, v7_pcie2_site_fn(*chip)),
        decreases chip.holes_pcie2@.len() - k,
    {
        let p = chip.holes_pcie2[k];
        assert(chip.holes_pcie2@[k as int].col.0 + 4 <= usize::MAX);
        let ghost i0 = ints@;
        let ghost s0 = site@;
        site.push(make_rect(p.col.0, p.row.0, 4, 25));
        ints.push(make_rect(p.col.0 + 1, p.row.0, 2, 25));
        assert(ints@ =~= i0 + v7_pcie2_int_fn(*chip)(k as int));
        assert(site@ =~= s0 + v7_pcie2_site_fn(*chip)(k as int));
        k = k + 1;
    }
    let ghost i2 = ints@;
    let ghost s2 = site@;
    let mut k: usize = 0;
    while k < chip.holes_pcie3.len()
        invariant
            k <= chip.holes_pcie3@.len(),
            v7_holes_ok(*chip, col_cfg as int, col_clk as int),
            ints@ == i2 + concat_map(k as nat, v7_pcie3_int_fn(*chip)),
            site@ == s2 + concat_map(k as nat, v7_pcie3_site_fn(*chip)),
        decreases chip.holes_pcie3@.len() - k,
    {
        let (c, r) = chip.holes_pcie3[k];
        assert(chip.holes_pcie3@[k as int].0.0 + 6 <= usize::MAX);
        let ghost i0 = ints@;
        let ghost s0 = site@;
        ints.push(make_rect(c.0 + 1, r.0, 4, 50));
        site.push(make_rect(c.0, r.0, 6, 50));
        assert(ints@ =~= i0 + v7_pcie3_int_fn(*chip)(k as int));
        assert(site@ =~= s0 + v7_pcie3_site_fn(*chip)(k as int));
        k = k + 1;
    }
    let ghost i3 = ints@;
    let ghost s3 = site@;
    let ghost fi = v7_gt_int_holes_fn(*chip, col_clk as int);
    let ghost fs = v7_gt_site_holes_fn(*chip, col_clk as int);
    let mut i: usize = 0;
    while i < chip.cols_gt.len()
        invariant
            i <= chip.cols_gt@.len(),
            v7_holes_ok(*chip, col_cfg as int, col_clk as int),
            fi == v7_gt_int_holes_fn(*chip, col_clk as int),
            fs == v7_gt_site_holes_fn(*chip, col_clk as int),
            ints@ == i3 + concat_map(i as nat, fi),
            site@ == s3 + concat_map(i as nat, fs),
        decreases chip.cols_gt@.len() - i,
    {
        let ghost i0 = ints@;
        let ghost s0 = site@;
        let g = &chip.cols_gt[i];
        assert(chip.cols_gt@[i as int].col.0 + 19 <= usize::MAX);
        push_v7_gt_holes(chip, col_clk, g, &mut ints, &mut site);
        assert(ints@ =~= i0 + fi(i as int));
        assert(site@ =~= s0 + fs(i as int));
        i = i + 1;
    }
    (ints, site)
}

/// Adds the block RAM edge holes of a Virtex 7 die to its site holes.
pub fn push_v7_bram_edge_holes(chip: &Chip, site: &mut Vec<Rect>)
    requires
        chip.columns@.len() >= 1,
        chip.regs >= 1,
        chip.regs * 50 <= usize::MAX,
    ensures
        final(site)@ == old(site)@ + v7_bram_edge_holes(*chip),
{
    if chip.columns[0] == ColumnKind::Bram {
        site.push(make_rect(0, 0, 1, 5));
        site.push(make_rect(0, chip.regs * 50 - 5, 1, 5));
    }
    assert(final(site)@ =~= old(site)@ + v7_bram_edge_holes(*chip));
}

/// The interconnect and site holes of a Virtex 7 die whose device has its
/// configuration column at `col_cfg` and its clock column at `col_clk`.
pub fn v7_die_holes(chip: &Chip, col_cfg: usize, col_clk: usize) -> (r: (Vec<Rect>, Vec<Rect>))
    requires
        v7_holes_ok(*chip, col_cfg as int, col_clk as int),
    ensures
        r.0@ == v7_int_holes(*chip, col_cfg as int, col_clk as int),
        r.1@ == v7_site_holes(*chip, col_cfg as int, col_clk as int),
{
    let (ints, mut site) = v7_block_holes(chip, col_cfg, col_clk);
    push_v7_bram_edge_holes(chip, &mut site);
    (ints, site)
}

pub open spec fn io_at(die: DieId, col: ColId, row: int, iob: usize) -> IoCoord {
    IoCoord { die, col, row: RowId(row as usize), iob: TileIobId(iob) }
}

/// The IOs of an IO column in a row of a Virtex 7 die: none where the
/// column has no bank in the row's region; one in the bottom and top rows
/// of a region; a pair in each odd row between.
pub open spec fn v7_row_ios(die: DieId, ioc: IoColumn, row: int) -> Seq<IoCoord> {
    if ioc.regs@[row / 50] is Some {
        if row % 50 == 0 || row % 50 == 49 {
            seq![io_at(die, ioc.col, row, 0)]
        } else if row % 2 == 1 {
            seq![io_at(die, ioc.col, row, 0), io_at(die, ioc.col, row, 1)]
        } else {
            Seq::empty()
        }
    } else {
        Seq::empty()
    }
}

pub open spec fn v7_col_ios_fn(die: DieId, ioc: IoColumn) -> spec_fn(int) -> Seq<IoCoord> {
    |row: int| v7_row_ios(die, ioc, row)
}

pub open spec fn v7_die_ios_fn(chip: Chip, die: DieId) -> spec_fn(int) -> Seq<IoCoord> {
    |i: int| concat_map((chip.regs * 50) as nat, v7_col_ios_fn(die, chip.cols_io@[i]))
}

/// The IOs of a Virtex 7 die: IO column by IO column, south to north.
pub open spec fn v7_die_ios(chip: Chip, die: DieId) -> Seq<IoCoord> {
    concat_map(chip.cols_io@.len(), v7_die_ios_fn(chip, die))
}

/// The transceiver of region `k` of a transceiver column: at the middle
/// row of the region.
pub open spec fn v7_gt_at(die: DieId, g: GtColumn, k: int) -> Seq<(DieId, ColId, RowId)> {
    if g.regs@[k] is Some {
        seq![(die, g.col, RowId((k * 50 + 25) as usize))]
    } else {
        Seq::empty()
    }
}

pub open spec fn v7_col_gts_fn(die: DieId, g: GtColumn) -> spec_fn(int) -> Seq<(DieId, ColId, RowId)> {
    |k: int| v7_gt_at(die, g, k)
}

pub open spec fn v7_die_gts_fn(chip: Chip, die: DieId) -> spec_fn(int) -> Seq<(DieId, ColId, RowId)> {
    |i: int| concat_map(chip.cols_gt@[i].regs@.len(), v7_col_gts_fn(die, chip.cols_gt@[i]))
}

/// The transceivers of a Virtex 7 die: transceiver column by column,
/// south to north.
pub open spec fn v7_die_gts(chip: Chip, die: DieId) -> Seq<(DieId, ColId, RowId)> {
    concat_map(chip.cols_gt@.len(), v7_die_gts_fn(chip, die))
}

/// The IOs and transceivers of a Virtex 7 die can be listed: the IO columns
/// describe every region, and rows fit the index range.
pub open spec fn v7_sites_ok(chip: Chip) -> bool {
    &&& chip.kind is Virtex7
    &&& chip.regs * 50 + 50 <= usize::MAX
    &&& forall|i: int| 0 <= i < chip.cols_io@.len() ==> (#[trigger] chip.cols_io@[i]).regs@.len() >= chip.regs
    &&& forall|i: int|
        0 <= i < chip.cols_gt@.len() ==> (#[trigger] chip.cols_gt@[i]).regs@.len() * 50 + 50 <= usize::MAX
}

fn push_v7_col_ios(chip: &Chip, die: DieId, ioc: &IoColumn, out: &mut Vec<IoCoord>)
    requires
        chip.regs * 50 + 50 <= usize::MAX,
        ioc.regs@.len() >= chip.regs,
    ensures
        final(out)@ == old(out)@ + concat_map((chip.regs * 50) as nat, v7_col_ios_fn(die, *ioc)),
{
    let ghost f = v7_col_ios_fn(die, *ioc);
    let n = chip.regs * 50;
    let mut row: usize = 0;
    while row < n
        invariant
            row <= n,
            n == chip.regs * 50,
            ioc.regs@.len() >= chip.regs,
            f == v7_col_ios_fn(die, *ioc),
            out@ == old(out)@ + concat_map(row as nat, f),
        decreases n - row,
    {
        let ghost o0 = out@;
        assert(row / 50 < chip.regs) by (nonlinear_arith)
            requires
                row < chip.regs * 50,
        ;
        if ioc.regs[row / 50].is_some() {
            if row % 50 == 0 || row % 50 == 49 {
                out.push(IoCoord { die, col: ioc.col, row: RowId(row), iob: TileIobId(0) });
            } else if row % 2 == 1 {
                out.push(IoCoord { die, col: ioc.col, row: RowId(row), iob: TileIobId(0) });
                out.push(IoCoord { die, col: ioc.col, row: RowId(row), iob: TileIobId(1) });
            }
        }
        assert(out@ =~= o0 + f(row as int));
        row = row + 1;
    }
}

fn push_v7_col_gts(die: DieId, g: &GtColumn, out: &mut Vec<(DieId, ColId, RowId)>)
    requires
        g.regs@.len() * 50 + 50 <= usize::MAX,
    ensures
        final(out)@ == old(out)@ + concat_map(g.regs@.len(), v7_col_gts_fn(die, *g)),
{
    let ghost f = v7_col_gts_fn(die, *g);
    let mut k: usize = 0;
    while k < g.regs.len()
        invariant
            k <= g.regs@.len(),
            g.regs@.len() * 50 + 50 <= usize::MAX,
            f == v7_col_gts_fn(die, *g),
            out@ == old(out)@ + concat_map(k as nat, f),
        decreases g.regs@.len() - k,
    {
        let ghost o0 = out@;
        assert(k * 50 + 25 <= g.regs@.len() * 50 + 50) by (nonlinear_arith)
            requires
                k < g.regs@.len(),
        ;
        if g.regs[k].is_some() {
            out.push((die, g.col, RowId(k * 50 + 25)));
        }
        assert(out@ =~= o0 + f(k as int));
        k = k + 1;
    }
}

/// Appends the IOs and the transceivers of a Virtex 7 die.
pub fn v7_die_sites(chip: &Chip, die: DieId, io: &mut Vec<IoCoord>, gt: &mut Vec<(DieId, ColId, RowId)>)
    requires
        v7_sites_ok(*chip),
    ensures
        final(io)@ == old(io)@ + v7_die_ios(*chip, die),
        final(gt)@ == old(gt)@ + v7_die_gts(*chip, die),
{
    let ghost fi = v7_die_ios_fn(*chip, die);
    let mut i: usize = 0;
    while i < chip.cols_io.len()
        invariant
            i <= chip.cols_io@.len(),
            v7_sites_ok(*chip),
            fi == v7_die_ios_fn(*chip, die),
            io@ == old(io)@ + concat_map(i as nat, fi),
        decreases chip.cols_io@.len() - i,
    {
        let ghost o0 = io@;
        assert(chip.cols_io@[i as int].regs@.len() >= chip.regs);
        push_v7_col_ios(chip, die, &chip.cols_io[i], io);
        assert(io@ =~= o0 + fi(i as int));
        i = i + 1;
    }
    let ghost fg = v7_die_gts_fn(*chip, die);
    let mut i: usize = 0;
    while i < chip.cols_gt.len()
        invariant
            i <= chip.cols_gt@.len(),
            v7_sites_ok(*chip),
            fg == v7_die_gts_fn(*chip, die),
            gt@ == old(gt)@ + concat_map(i as nat, fg),
        decreases chip.cols_gt@.len() - i,
    {
        let ghost o0 = gt@;
        assert(chip.cols_gt@[i as int].regs@.len() * 50 + 50 <= usize::MAX);
        push_v7_col_gts(die, &chip.cols_gt[i], gt);
        assert(gt@ =~= o0 + fg(i as int));
        i = i + 1;
    }
}

// ---------------------------------------------------------------- Virtex 4

/// The row of the configuration block of a Virtex 4: eight rows below the
/// bottom of the configuration region.
pub open spec fn v4_row_cfg(chip: Chip) -> int {
    chip.sp_row_reg_bot(chip.reg_cfg.0 as int) - 8
}

pub open spec fn v4_ppc_int_fn(chip: Chip) -> spec_fn(int) -> Seq<Rect> {
    |k: int| seq![rect_at(chip.holes_ppc@[k].0.0 + 1, chip.holes_ppc@[k].1.0 + 1, 7, 22)]
}

pub open spec fn v4_ppc_site_fn(chip: Chip) -> spec_fn(int) -> Seq<Rect> {
    |k: int| seq![rect_at(chip.holes_ppc@[k].0.0 as int, chip.holes_ppc@[k].1.0 as int, 9, 24)]
}

/// The site hole of a special row of the configuration column: eight rows
/// for a system monitor, four for a DCM or CCM.
pub open spec fn v4_cfg_row_hole(col_cfg: int, r: (RowId, CfgRowKind)) -> Rect {
    rect_at(col_cfg, r.0.0 as int, 1, if r.1 is Sysmon { 8 } else { 4 })
}

pub open spec fn v4_cfg_rows_fn(chip: Chip, col_cfg: int) -> spec_fn(int) -> Seq<Rect> {
    |k: int| seq![v4_cfg_row_hole(col_cfg, chip.rows_cfg@[k])]
}

/// The interconnect holes of a Virtex 4: the PowerPC blocks' inner parts.
pub open spec fn v4_int_holes(chip: Chip) -> Seq<Rect> {
    concat_map(chip.holes_ppc@.len(), v4_ppc_int_fn(chip))
}

/// The site holes of a Virtex 4: the PowerPC blocks, the configuration
/// block (sixteen rows) and the special rows of the configuration column.
pub open spec fn v4_site_holes(chip: Chip, col_cfg: int) -> Seq<Rect> {
    concat_map(chip.holes_ppc@.len(), v4_ppc_site_fn(chip)) + seq![rect_at(col_cfg, v4_row_cfg(chip), 1, 16)]
        + concat_map(chip.rows_cfg@.len(), v4_cfg_rows_fn(chip, col_cfg))
}

/// The row above the special rows below the configuration block, after the
/// first `k` special rows.
pub open spec fn v4_row_dcmiob(chip: Chip, k: nat) -> int
    decreases k,
{
    if k == 0 {
        0
    } else {
        let prev = v4_row_dcmiob(chip, (k - 1) as nat);
        let (row, kind) = chip.rows_cfg@[k - 1];
        let end = row.0 + if kind is Sysmon { 8int } else { 4int };
        if row.0 < v4_row_cfg(chip) && end > prev {
            end
        } else {
            prev
        }
    }
}

/// The lowest special row above the configuration block (the row count if
/// there is none), after the first `k` special rows.
pub open spec fn v4_row_iobdcm(chip: Chip, k: nat) -> int
    decreases k,
{
    if k == 0 {
        chip.regs * 16
    } else {
        let prev = v4_row_iobdcm(chip, (k - 1) as nat);
        let row = chip.rows_cfg@[k - 1].0.0 as int;
        if row >= v4_row_cfg(chip) && row < prev {
            row
        } else {
            prev
        }
    }
}

/// The pair of IOs of every row of a column.
pub open spec fn v4_col_ios_fn(col: ColId, rows_skip: Seq<Rect>, skip: bool) -> spec_fn(int) -> Seq<IoCoord> {
    |row: int|
        if skip && in_some_rect(rows_skip, col, RowId(row as usize)) {
            Seq::empty()
        } else {
            seq![io_at(DieId(0), col, row, 0), io_at(DieId(0), col, row, 1)]
        }
}

/// The IOs of a Virtex 4: a pair in every row of the west IO column, then
/// of the east IO column, then of the configuration column outside its
/// site holes.
pub open spec fn v4_ios(chip: Chip, col_lio: ColId, col_rio: ColId, col_cfg: ColId) -> Seq<IoCoord> {
    let rows = (chip.regs * 16) as nat;
    concat_map(rows, v4_col_ios_fn(col_lio, Seq::empty(), false)) + concat_map(
        rows,
        v4_col_ios_fn(col_rio, Seq::empty(), false),
    ) + concat_map(rows, v4_col_ios_fn(col_cfg, v4_site_holes(chip, col_cfg.0 as int), true))
}

pub open spec fn v4_gt_col_fn(chip: Chip, c: int) -> spec_fn(int) -> Seq<(DieId, ColId, RowId)> {
    |reg: int|
        if reg % 2 == 0 {
            seq![(DieId(0), ColId(c as usize), RowId((reg * 16) as usize))]
        } else {
            Seq::empty()
        }
}

pub open spec fn v4_gts_fn(chip: Chip) -> spec_fn(int) -> Seq<(DieId, ColId, RowId)> {
    |c: int|
        if chip.columns@[c] is Gt {
            concat_map(chip.regs as nat, v4_gt_col_fn(chip, c))
        } else {
            Seq::empty()
        }
}

/// The transceivers of a Virtex 4: one at the bottom of every other region
/// of each transceiver column, from the bottom region.
pub open spec fn v4_gts(chip: Chip) -> Seq<(DieId, ColId, RowId)> {
    concat_map(chip.columns@.len(), v4_gts_fn(chip))
}

/// The holes, IOs and transceivers of a Virtex 4, and the rows between the
/// configuration column's IOs and its special rows.
pub struct V4Sites {
    pub int_holes: Vec<Rect>,
    pub site_holes: Vec<Rect>,
    pub io: Vec<IoCoord>,
    pub gt: Vec<(DieId, ColId, RowId)>,
    pub row_dcmiob: RowId,
    pub row_iobdcm: RowId,
}

/// The sites of a Virtex 4 can be laid out: the configuration block lies
/// above the bottom edge, and every row and rectangle fits the index range.
pub open spec fn v4_sites_ok(chip: Chip) -> bool {
    &&& chip.kind is Virtex4
    &&& chip.regs * 16 + 16 <= usize::MAX
    &&& 8 <= chip.sp_row_reg_bot(chip.reg_cfg.0 as int)
    &&& chip.reg_cfg.0 * 16 + 16 <= usize::MAX
    &&& forall|k: int|
        0 <= k < chip.holes_ppc@.len() ==> (#[trigger] chip.holes_ppc@[k]).0.0 + 9 <= usize::MAX
            && chip.holes_ppc@[k].1.0 + 24 <= usize::MAX
    &&& forall|k: int| 0 <= k < chip.rows_cfg@.len() ==> (#[trigger] chip.rows_cfg@[k]).0.0 + 8 <= usize::MAX
}

/// Appends the pair of IOs of each row of a column (outside `holes` if `skip`).
fn push_col_ios(col: ColId, rows: usize, holes: &Vec<Rect>, skip: bool, out: &mut Vec<IoCoord>)
    ensures
        final(out)@ == old(out)@ + concat_map(rows as nat, v4_col_ios_fn(col, holes@, skip)),
{
    let ghost f = v4_col_ios_fn(col, holes@, skip);
    let mut row: usize = 0;
    while row < rows
        invariant
            row <= rows,
            f == v4_col_ios_fn(col, holes@, skip),
            out@ == old(out)@ + concat_map(row as nat, f),
        decreases rows - row,
    {
        let ghost o0 = out@;
        if !(skip && rects_contain(holes, col, RowId(row))) {
            out.push(IoCoord { die: DieId(0), col, row: RowId(row), iob: TileIobId(0) });
            out.push(IoCoord { die: DieId(0), col, row: RowId(row), iob: TileIobId(1) });
        }
        assert(out@ =~= o0 + f(row as int));
        row = row + 1;
    }
}

/// The holes, IOs and transceivers of a Virtex 4 whose configuration column
/// is `col_cfg` and IO columns `col_lio` and `col_rio`.
pub fn v4_sites(chip: &Chip, col_lio: ColId, col_rio: ColId, col_cfg: ColId) -> (r: V4Sites)
    requires
        v4_sites_ok(*chip),
        col_cfg.0 + 1 <= usize::MAX,
    ensures
        r.int_holes@ == v4_int_holes(*chip),
        r.site_holes@ == v4_site_holes(*chip, col_cfg.0 as int),
        r.io@ == v4_ios(*chip, col_lio, col_rio, col_cfg),
        r.gt@ == v4_gts(*chip),
        r.row_dcmiob.0 == v4_row_dcmiob(*chip, chip.rows_cfg@.len()),
        r.row_iobdcm.0 == v4_row_iobdcm(*chip, chip.rows_cfg@.len()),
{
    let mut int_holes: Vec<Rect> = Vec::new();
    let mut site_holes: Vec<Rect> = Vec::new();
    let mut k: usize = 0;
    while k < chip.holes_ppc.len()
        invariant
            k <= chip.holes_ppc@.len(),
            v4_sites_ok(*chip),
            int_holes@ == concat_map(k as nat, v4_ppc_int_fn(*chip)),
            site_holes@ == concat_map(k as nat, v4_ppc_site_fn(*chip)),
        decreases chip.holes_ppc@.len() - k,
    {
        let (bc, br) = chip.holes_ppc[k];
        assert(chip.holes_ppc@[k as int].0.0 + 9 <= usize::MAX);
        let ghost i0 = int_holes@;
        let ghost s0 = site_holes@;
        int_holes.push(make_rect(bc.0 + 1, br.0 + 1, 7, 22));
        site_holes.push(make_rect(bc.0, br.0, 9, 24));
        assert(int_holes@ =~= i0 + v4_ppc_int_fn(*chip)(k as int));
        assert(site_holes@ =~= s0 + v4_ppc_site_fn(*chip)(k as int));
        k = k + 1;
    }
    let bot = chip.row_reg_bot(RegId(chip.reg_cfg.0)).0;
    let row_cfg = bot - 8;
    site_holes.push(make_rect(col_cfg.0, row_cfg, 1, 16));
    let ghost s1 = site_holes@;
    let rows = chip.regs * 16;
    let mut row_dcmiob: usize = 0;
    let mut row_iobdcm: usize = rows;
    let mut k: usize = 0;
    while k < chip.rows_cfg.len()
        invariant
            k <= chip.rows_cfg@.len(),
            v4_sites_ok(*chip),
            col_cfg.0 + 1 <= usize::MAX,
            row_cfg == v4_row_cfg(*chip),
            rows == chip.regs * 16,
            site_holes@ == s1 + concat_map(k as nat, v4_cfg_rows_fn(*chip, col_cfg.0 as int)),
            row_dcmiob == v4_row_dcmiob(*chip, k as nat),
            row_iobdcm == v4_row_iobdcm(*chip, k as nat),
        decreases chip.rows_cfg@.len() - k,
    {
        let (row, kind) = chip.rows_cfg[k];
        assert(chip.rows_cfg@[k as int].0.0 + 8 <= usize::MAX);
        let ghost s0 = site_holes@;
        let h: usize = match kind {
            CfgRowKind::Sysmon => 8,
            _ => 4,
        };
        site_holes.push(make_rect(col_cfg.0, row.0, 1, h));
        if row.0 < row_cfg {
            if row.0 + h > row_dcmiob {
                row_dcmiob = row.0 + h;
            }
        } else {
            if row.0 < row_iobdcm {
                row_iobdcm = row.0;
            }
        }
        assert(site_holes@ =~= s0 + v4_cfg_rows_fn(*chip, col_cfg.0 as int)(k as int));
        k = k + 1;
    }
    assert(site_holes@ == v4_site_holes(*chip, col_cfg.0 as int));
    let mut io: Vec<IoCoord> = Vec::new();
    let empty: Vec<Rect> = Vec::new();
    push_col_ios(col_lio, rows, &empty, false, &mut io);
    push_col_ios(col_rio, rows, &empty, false, &mut io);
    push_col_ios(col_cfg, rows, &site_holes, true, &mut io);
    assert(empty@ =~= Seq::<Rect>::empty());
    let mut gt: Vec<(DieId, ColId, RowId)> = Vec::new();
    let mut c: usize = 0;
    while c < chip.columns.len()
        invariant
            c <= chip.columns@.len(),
            v4_sites_ok(*chip),
            gt@ == concat_map(c as nat, v4_gts_fn(*chip)),
        decreases chip.columns@.len() - c,
    {
        let ghost g0 = gt@;
        if chip.columns[c] == ColumnKind::Gt {
            let ghost g1 = gt@;
            let mut reg: usize = 0;
            while reg < chip.regs
                invariant
                    reg <= chip.regs,
                    v4_sites_ok(*chip),
                    gt@ == g1 + concat_map(reg as nat, v4_gt_col_fn(*chip, c as int)),
                decreases chip.regs - reg,
            {
                let ghost g2 = gt@;
                if reg % 2 == 0 {
                    gt.push((DieId(0), ColId(c), RowId(reg * 16)));
                }
                assert(gt@ =~= g2 + v4_gt_col_fn(*chip, c as int)(reg as int));
                reg = reg + 1;
            }
        }
        assert(gt@ =~= g0 + v4_gts_fn(*chip)(c as int));
        c = c + 1;
    }
    V4Sites { int_holes, site_holes, io, gt, row_dcmiob: RowId(row_dcmiob), row_iobdcm: RowId(row_iobdcm) }
}

// ---------------------------------------------------------------- Virtex 5

pub open spec fn v5_ppc_int_fn(chip: Chip) -> spec_fn(int) -> Seq<Rect> {
    |k: int| seq![rect_at(chip.holes_ppc@[k].0.0 + 1, chip.holes_ppc@[k].1.0 as int, 12, 40)]
}

pub open spec fn v5_ppc_site_fn(chip: Chip) -> spec_fn(int) -> Seq<Rect> {
    |k: int| seq![rect_at(chip.holes_ppc@[k].0.0 as int, chip.holes_ppc@[k].1.0 as int, 14, 40)]
}

/// The site holes of `h` rows from each of `rows` in column `col`.
pub open spec fn v5_rows_hole_fn(col: int, rows: Seq<RowId>, h: int) -> spec_fn(int) -> Seq<Rect> {
    |k: int| seq![rect_at(col, rows[k].0 as int, 1, h)]
}

/// The site holes of the hard block column: ten rows for each EMAC, forty
/// for each PCIE block.
pub open spec fn v5_hard_holes(chip: Chip) -> Seq<Rect> {
    match chip.col_hard {
        Some(hard) => concat_map(hard.rows_emac@.len(), v5_rows_hole_fn(hard.col.0 as int, hard.rows_emac@, 10))
            + concat_map(hard.rows_pcie@.len(), v5_rows_hole_fn(hard.col.0 as int, hard.rows_pcie@, 40)),
        None => Seq::empty(),
    }
}

/// The interconnect holes of a Virtex 5: the PowerPC blocks' inner columns.
pub open spec fn v5_int_holes(chip: Chip) -> Seq<Rect> {
    concat_map(chip.holes_ppc@.len(), v5_ppc_int_fn(chip))
}

/// The site holes of a Virtex 5: the PowerPC blocks, the hard blocks, the
/// configuration block (twenty rows from the clock spine of the region
/// below the configuration region) and the clock management tiles (ten
/// rows each) of the configuration column.
pub open spec fn v5_site_holes(chip: Chip, col_cfg: int) -> Seq<Rect> {
    let cmt = chip.spec_cmt_rows();
    concat_map(chip.holes_ppc@.len(), v5_ppc_site_fn(chip)) + v5_hard_holes(chip) + seq![
        rect_at(col_cfg, chip.sp_row_reg_hclk(chip.reg_cfg.0 - 1), 1, 20),
    ] + concat_map(cmt.len(), v5_rows_hole_fn(col_cfg, cmt, 10))
}

pub open spec fn v5_col_ios_fn(chip: Chip, holes: Seq<Rect>) -> spec_fn(int) -> Seq<IoCoord> {
    |c: int|
        if chip.columns@[c] is Io || chip.columns@[c] is Cfg {
            concat_map((chip.regs * 20) as nat, v4_col_ios_fn(ColId(c as usize), holes, true))
        } else {
            Seq::empty()
        }
}

/// The IOs of a Virtex 5: a pair in every row of each IO and configuration
/// column outside the site holes, column by column, south to north.
pub open spec fn v5_ios(chip: Chip, col_cfg: int) -> Seq<IoCoord> {
    concat_map(chip.columns@.len(), v5_col_ios_fn(chip, v5_site_holes(chip, col_cfg)))
}

pub open spec fn v5_gt_col_fn(g: GtColumn) -> spec_fn(int) -> Seq<(DieId, ColId, RowId)> {
    |reg: int|
        if g.regs@[reg] == Some(GtKind::Gtp) || g.regs@[reg] == Some(GtKind::Gtx) {
            seq![(DieId(0), g.col, RowId((reg * 20) as usize))]
        } else {
            Seq::empty()
        }
}

pub open spec fn v5_gts_fn(chip: Chip) -> spec_fn(int) -> Seq<(DieId, ColId, RowId)> {
    |i: int| concat_map(chip.regs as nat, v5_gt_col_fn(chip.cols_gt@[i]))
}

/// The transceivers of a Virtex 5: one at the bottom of each region of a
/// transceiver column that has a GTP or GTX there.
pub open spec fn v5_gts(chip: Chip) -> Seq<(DieId, ColId, RowId)> {
    concat_map(chip.cols_gt@.len(), v5_gts_fn(chip))
}

/// The holes, IOs and transceivers of a Virtex 5.
pub struct V5Sites {
    pub int_holes: Vec<Rect>,
    pub site_holes: Vec<Rect>,
    pub io: Vec<IoCoord>,
    pub gt: Vec<(DieId, ColId, RowId)>,
}

/// The sites of a Virtex 5 can be laid out: the configuration region has
/// two regions below it, the transceiver columns describe every region,
/// and every row and rectangle fits the index range.
pub open spec fn v5_sites_ok(chip: Chip) -> bool {
    &&& chip.kind is Virtex5
    &&& 2 <= chip.reg_cfg.0 <= chip.regs
    &&& chip.regs * 20 + 40 <= usize::MAX
    &&& forall|k: int|
        0 <= k < chip.holes_ppc@.len() ==> (#[trigger] chip.holes_ppc@[k]).0.0 + 14 <= usize::MAX
            && chip.holes_ppc@[k].1.0 + 40 <= usize::MAX
    &&& forall|i: int| 0 <= i < chip.cols_gt@.len() ==> (#[trigger] chip.cols_gt@[i]).regs@.len() >= chip.regs
    &&& match chip.col_hard {
        Some(hard) => {
            &&& hard.col.0 + 1 <= usize::MAX
            &&& forall|k: int| 0 <= k < hard.rows_emac@.len() ==> (#[trigger] hard.rows_emac@[k]).0 + 10 <= usize::MAX
            &&& forall|k: int| 0 <= k < hard.rows_pcie@.len() ==> (#[trigger] hard.rows_pcie@[k]).0 + 40 <= usize::MAX
        },
        None => true,
    }
}

/// Appends a hole of `h` rows from each of `rows` in column `col`.
fn push_rows_holes(col: usize, rows: &Vec<RowId>, h: usize, out: &mut Vec<Rect>)
    requires
        col + 1 <= usize::MAX,
        forall|k: int| 0 <= k < rows@.len() ==> (#[trigger] rows@[k]).0 + h <= usize::MAX,
    ensures
        final(out)@ == old(out)@ + concat_map(rows@.len(), v5_rows_hole_fn(col as int, rows@, h as int)),
{
    let ghost f = v5_rows_hole_fn(col as int, rows@, h as int);
    let mut k: usize = 0;
    while k < rows.len()
        invariant
            k <= rows@.len(),
            col + 1 <= usize::MAX,
            forall|j: int| 0 <= j < rows@.len() ==> (#[trigger] rows@[j]).0 + h <= usize::MAX,
            f == v5_rows_hole_fn(col as int, rows@, h as int),
            out@ == old(out)@ + concat_map(k as nat, f),
        decreases rows@.len() - k,
    {
        let ghost o0 = out@;
        assert(rows@[k as int].0 + h <= usize::MAX);
        out.push(make_rect(col, rows[k].0, 1, h));
        assert(out@ =~= o0 + f(k as int));
        k = k + 1;
    }
}

/// The holes, IOs and transceivers of a Virtex 5 whose configuration
/// column is `col_cfg`.
pub fn v5_sites(chip: &Chip, col_cfg: ColId) -> (r: V5Sites)
    requires
        v5_sites_ok(*chip),
        col_cfg.0 + 1 <= usize::MAX,
    ensures
        r.int_holes@ == v5_int_holes(*chip),
        r.site_holes@ == v5_site_holes(*chip, col_cfg.0 as int),
        r.io@ == v5_ios(*chip, col_cfg.0 as int),
        r.gt@ == v5_gts(*chip),
{
    let mut int_holes: Vec<Rect> = Vec::new();
    let mut site_holes: Vec<Rect> = Vec::new();
    let mut k: usize = 0;
    while k < chip.holes_ppc.len()
        invariant
            k <= chip.holes_ppc@.len(),
            v5_sites_ok(*chip),
            int_holes@ == concat_map(k as nat, v5_ppc_int_fn(*chip)),
            site_holes@ == concat_map(k as nat, v5_ppc_site_fn(*chip)),
        decreases chip.holes_ppc@.len() - k,
    {
        let (bc, br) = chip.holes_ppc[k];
        assert(chip.holes_ppc@[k as int].0.0 + 14 <= usize::MAX);
        let ghost i0 = int_holes@;
        let ghost s0 = site_holes@;
        int_holes.push(make_rect(bc.0 + 1, br.0, 12, 40));
        site_holes.push(make_rect(bc.0, br.0, 14, 40));
        assert(int_holes@ =~= i0 + v5_ppc_int_fn(*chip)(k as int));
        assert(site_holes@ =~= s0 + v5_ppc_site_fn(*chip)(k as int));
        k = k + 1;
    }
    let ghost s1 = site_holes@;
    match &chip.col_hard {
        Some(hard) => {
            push_rows_holes(hard.col.0, &hard.rows_emac, 10, &mut site_holes);
            push_rows_holes(hard.col.0, &hard.rows_pcie, 40, &mut site_holes);
        },
        None => {},
    }
    assert(site_holes@ =~= s1 + v5_hard_holes(*chip));
    assert(chip.sp_rpr() == 20);
    let row = chip.row_reg_hclk(RegId(chip.reg_cfg.0 - 1));
    site_holes.push(make_rect(col_cfg.0, row.0, 1, 20));
    assert(chip.regs * 20 <= usize::MAX);
    let cmt = chip.get_cmt_rows();
    assert forall|k: int| 0 <= k < cmt@.len() implies (#[trigger] cmt@[k]).0 + 10 <= usize::MAX by {
        assert(chip.sp_rpr() == 20);
    }
    push_rows_holes(col_cfg.0, &cmt, 10, &mut site_holes);
    assert(site_holes@ == v5_site_holes(*chip, col_cfg.0 as int));
    let rows = chip.regs * 20;
    let mut io: Vec<IoCoord> = Vec::new();
    let mut c: usize = 0;
    while c < chip.columns.len()
        invariant
            c <= chip.columns@.len(),
            rows == chip.regs * 20,
            site_holes@ == v5_site_holes(*chip, col_cfg.0 as int),
            io@ == concat_map(c as nat, v5_col_ios_fn(*chip, site_holes@)),
        decreases chip.columns@.len() - c,
    {
        let ghost o0 = io@;
        if chip.columns[c] == ColumnKind::Io || chip.columns[c] == ColumnKind::Cfg {
            push_col_ios(ColId(c), rows, &site_holes, true, &mut io);
        }
        assert(io@ =~= o0 + v5_col_ios_fn(*chip, site_holes@)(c as int));
        c = c + 1;
    }
    let mut gt: Vec<(DieId, ColId, RowId)> = Vec::new();
    let mut i: usize = 0;
    while i < chip.cols_gt.len()
        invariant
            i <= chip.cols_gt@.len(),
            v5_sites_ok(*chip),
            gt@ == concat_map(i as nat, v5_gts_fn(*chip)),
        decreases chip.cols_gt@.len() - i,
    {
        let ghost g0 = gt@;
        let g = &chip.cols_gt[i];
        assert(g.regs@.len() >= chip.regs);
        let mut reg: usize = 0;
        while reg < chip.regs
            invariant
                reg <= chip.regs,
                v5_sites_ok(*chip),
                g.regs@.len() >= chip.regs,
                gt@ == g0 + concat_map(reg as nat, v5_gt_col_fn(*g)),
            decreases chip.regs - reg,
        {
            let ghost g2 = gt@;
            assert(reg * 20 <= chip.regs * 20) by (nonlinear_arith)
                requires
                    reg <= chip.regs,
            ;
            match g.regs[reg] {
                Some(GtKind::Gtp) | Some(GtKind::Gtx) => {
                    gt.push((DieId(0), g.col, RowId(reg * 20)));
                },
                _ => {},
            }
            assert(gt@ =~= g2 + v5_gt_col_fn(*g)(reg as int));
            reg = reg + 1;
        }
        assert(gt@ =~= g0 + v5_gts_fn(*chip)(i as int));
        i = i + 1;
    }
    V5Sites { int_holes, site_holes, io, gt }
}

} // verus!
