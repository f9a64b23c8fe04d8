//! Expanding a Virtex 4, Virtex 5 or Virtex 7 device: its special columns,
//! the holes, interconnect grid, IOs, transceivers and frame layout of each
//! die, its configuration IOs, its banks and GTZs, and the wires that end
//! in black holes or cross between dies.
use vstd::prelude::*;
use crate::bitstream::FrameInfo;
use crate::grid::{ColId, DieCell, DieId, Rect, RowId};
use crate::seqs::{concat_map, lemma_union_push, union_push};
use crate::tile::{conns_view, spans_view, terms_view, tiles_view};
use crate::virtex4::chip::{Chip, ChipKind, ColumnKind, DisabledPart, Interposer};
use crate::virtex4::device::{
    cfg_io_of, die_order, kind_cols, regs_before, spec_banklut, spec_die_order, spec_v4_cols, spec_v5_cols,
    spec_v7_cfg_io, spec_v7_cols, v4_cfg_io, v4_cfg_io_table, v4_cols, v5_cfg_io, v5_cfg_io_table, v5_cols,
    v7_banklut, v7_cfg_io, v7_cols, DeviceCols,
};
use crate::virtex4::expanded::{cfg_tile_row_ok, spec_cfg_tile_row, DieFrameGeom, ExpandedDevice, IoCoord};
use crate::virtex4::frames::{
    v4_fill_frame_info, v4_frames_laid_out, v4_layout_ok, v5_fill_frame_info, v5_frames_laid_out, v5_layout_ok,
    v7_fill_frame_info, v7_frames_laid_out, v7_layout_ok,
};
use crate::virtex4::grid_v4::{
    edge_terms, spec_v4_grid_conns, spec_v4_grid_spans, spec_v4_grid_tiles, v4_grid, v4_grid_ok, DieGrid,
};
use crate::virtex4::grid_v5::{
    spec_v5_grid_conns, spec_v5_grid_spans, spec_v5_grid_terms, spec_v5_grid_tiles, v5_grid, v5_grid_ok,
};
use crate::virtex4::grid_v7::{
    columns_grow, holes_view, spec_v7_grid_conns, spec_v7_grid_spans, spec_v7_grid_terms, spec_v7_grid_tiles,
    v7_blackhole_cells, v7_blackhole_cells_of, v7_dies_ok, v7_grid, v7_grid_ok, v7_vivado_cursed_cells,
    v7_vivado_cursed_cells_of, v7_xdie_wires, v7_xdie_wires_of,
};
use crate::text::str_equals;
use crate::virtex4::gtz::{expand_gtz, first_col_of_kind, gtz_matches, gtz_ok, spec_gtz_bot, spec_gtz_top, GtzDb};
use crate::virtex4::sites::{
    push_v7_bram_edge_holes, v4_gts, v4_int_holes, v4_ios, v4_row_dcmiob, v4_row_iobdcm, v4_site_holes, v4_sites,
    v4_sites_ok, v5_gts, v5_int_holes, v5_ios, v5_site_holes, v5_sites, v5_sites_ok, v7_block_holes,
    v7_block_site_holes, v7_die_gts, v7_die_ios, v7_die_sites, v7_holes_ok, v7_int_holes, v7_site_holes,
    v7_sites_ok,
};

verus! {

// ---------------------------------------------------------------- Virtex 7

/// A die of a Virtex 7 device can be expanded with the device's
/// configuration column `cfg` and clock column `clk`.
pub open spec fn v7_die_ok(chip: Chip, cfg: int, clk: int) -> bool {
    &&& v7_holes_ok(chip, cfg, clk)
    &&& v7_grid_ok(chip, cfg, clk)
    &&& v7_sites_ok(chip)
    &&& v7_layout_ok(chip)
}

/// A Virtex 7 device can be expanded: its primary die exists and has a
/// configuration and a clock column, every die can be expanded with them
/// and has at least the columns of the die below it, the banks are numbered
/// within range, the configuration IOs have their column, and the GTZs
/// have their database entries and columns.
pub open spec fn v7_device_ok(chips: Seq<Chip>, interposer: Interposer, gdb: GtzDb) -> bool {
    let p = interposer.primary.0 as int;
    let cols = spec_v7_cols(chips[p]);
    let cfg = cols.col_cfg.0 as int;
    let clk = cols.col_clk.0 as int;
    let bot = chips[p].sp_row_reg_bot(chips[p].reg_cfg.0 as int);
    &&& 0 <= p < chips.len()
    &&& first_col_of_kind(chips[p].columns@, ColumnKind::Cfg, 0) < chips[p].columns@.len()
    &&& first_col_of_kind(chips[p].columns@, ColumnKind::Clk, 0) < chips[p].columns@.len()
    &&& forall|d: int| 0 <= d < chips.len() ==> v7_die_ok(#[trigger] chips[d], cfg, clk)
    &&& forall|d: int| 1 <= d < chips.len() ==> #[trigger] columns_grow(chips, d)
    &&& regs_before(chips, p as nat) <= 15
    &&& 15 + regs_before(chips, chips.len()) <= u32::MAX
    &&& 50 <= bot
    &&& bot + 20 <= usize::MAX
    &&& chips[p].has_ps ==> cols.col_rio is Some
    &&& !chips[p].has_ps ==> cols.col_lio is Some
    &&& gtz_ok(chips, interposer, gdb)
}

pub open spec fn v7_ios_fn(chips: Seq<Chip>) -> spec_fn(int) -> Seq<IoCoord> {
    |d: int| v7_die_ios(chips[d], DieId(d as usize))
}

pub open spec fn v7_gts_fn(chips: Seq<Chip>) -> spec_fn(int) -> Seq<DieCell> {
    |d: int| v7_die_gts(chips[d], DieId(d as usize))
}

/// The interconnect holes of the dies of a Virtex 7 device.
pub open spec fn v7_device_int_holes(chips: Seq<Chip>, cfg: int, clk: int) -> Seq<Seq<Rect>> {
    Seq::new(chips.len(), |d: int| v7_int_holes(chips[d], cfg, clk))
}

/// A grid is the one that a die of a Virtex 7 device lays out, with the
/// device's configuration column `cfg` and clock column `clk`.
pub open spec fn v7_grid_is(g: DieGrid, chip: Chip, cfg: int, clk: int) -> bool {
    let ih = v7_int_holes(chip, cfg, clk);
    let sh = v7_block_site_holes(chip, cfg, clk);
    &&& tiles_view(g.tiles@) == spec_v7_grid_tiles(chip, clk, ih, sh)
    &&& spans_view(g.spans@) == spec_v7_grid_spans(chip, cfg, clk, sh)
    &&& terms_view(g.terms@) == spec_v7_grid_terms(chip, cfg, clk, ih)
    &&& conns_view(g.conns@) == spec_v7_grid_conns(chip, cfg, clk, ih)
}

/// What expanding a Virtex 7 device gives: the chips, disabled parts and
/// interposer it was given; the special columns of its primary die; for
/// each die its holes, grid and frame layout; the IOs and transceivers of
/// each die in turn; the banks, the order of the dies in the bitstream,
/// the configuration IOs of the primary die, the GTZs, the cells whose long
/// vertical wire ends in a black hole, and the wires between dies.
pub open spec fn v7_expanded(
    r: ExpandedDevice,
    chips: Seq<Chip>,
    interposer: Interposer,
    disabled: Seq<DisabledPart>,
    gdb: GtzDb,
) -> bool {
    let p = interposer.primary.0 as int;
    let cols = spec_v7_cols(chips[p]);
    let cfg = cols.col_cfg.0 as int;
    let clk = cols.col_clk.0 as int;
    let n = chips.len();
    &&& r.kind == chips[p].kind
    &&& r.chips@ == chips
    &&& r.disabled@ == disabled
    &&& r.interposer == Some(interposer)
    &&& r.col_cfg == cols.col_cfg
    &&& r.col_clk == cols.col_clk
    &&& r.col_lio == cols.col_lio
    &&& r.col_rio == cols.col_rio
    &&& r.col_lgt == cols.col_lgt
    &&& r.col_rgt == cols.col_rgt
    &&& r.col_mgt == cols.col_mgt
    &&& r.col_lcio is None
    &&& r.col_rcio is None
    &&& r.row_dcmiob is None
    &&& r.row_iobdcm is None
    &&& r.int_holes@.len() == n
    &&& r.site_holes@.len() == n
    &&& r.grids@.len() == n
    &&& r.frames@.len() == n
    &&& r.frame_info@.len() == n
    &&& forall|d: int| 0 <= d < n ==> (#[trigger] r.int_holes@[d])@ == v7_int_holes(chips[d], cfg, clk)
    &&& forall|d: int| 0 <= d < n ==> (#[trigger] r.site_holes@[d])@ == v7_site_holes(chips[d], cfg, clk)
    &&& forall|d: int| 0 <= d < n ==> v7_grid_is(#[trigger] r.grids@[d], chips[d], cfg, clk)
    &&& forall|d: int| 0 <= d < n ==> v7_frames_laid_out(chips[d], #[trigger] r.frames@[d], r.frame_info@[d]@)
    &&& r.io@ == concat_map(n, v7_ios_fn(chips))
    &&& r.gt@ == concat_map(n, v7_gts_fn(chips))
    &&& r.banklut@.len() == n
    &&& forall|d: int| 0 <= d < n ==> #[trigger] r.banklut@[d] == spec_banklut(chips, p as nat, d)
    &&& r.frame_len == 50 * 64 + 32
    &&& r.die_order@ == spec_die_order(n, p as nat)
    &&& r.cfg_io@ == spec_v7_cfg_io(chips[p], interposer.primary, cols.col_lio, cols.col_rio)
    &&& r.gtz@.len() == (if interposer.gtz_bot { 1int } else { 0int }) + (if interposer.gtz_top { 1int } else { 0int })
    &&& interposer.gtz_bot ==> r.gtz@[0].0 == crate::grid::DirV::S && gtz_matches(r.gtz@[0].1, spec_gtz_bot(chips, gdb))
    &&& interposer.gtz_top ==> r.gtz@[r.gtz@.len() - 1].0 == crate::grid::DirV::N && gtz_matches(
        r.gtz@[r.gtz@.len() - 1].1,
        spec_gtz_top(chips, gdb),
    )
    &&& r.blackhole_cells@ == v7_blackhole_cells(chips)
    &&& r.xdie_wires@ == v7_xdie_wires(chips, v7_device_int_holes(chips, cfg, clk))
}

/// Expands a Virtex 7 device from the chips of its dies, its interposer,
/// its disabled parts and the GTZ database.
pub fn expand_grid_v7(chips: Vec<Chip>, interposer: Interposer, disabled: Vec<DisabledPart>, gdb: &GtzDb) -> (r:
    ExpandedDevice)
    requires
        v7_device_ok(chips@, interposer, *gdb),
    ensures
        v7_expanded(r, chips@, interposer, disabled@, *gdb),
{
    let p = interposer.primary.0;
    let cols: DeviceCols = v7_cols(&chips[p]);
    let cfg = cols.col_cfg.0;
    let clk = cols.col_clk.0;
    let n = chips.len();
    let mut int_holes: Vec<Vec<Rect>> = Vec::new();
    let mut site_holes: Vec<Vec<Rect>> = Vec::new();
    let mut grids: Vec<DieGrid> = Vec::new();
    let mut frames: Vec<DieFrameGeom> = Vec::new();
    let mut frame_info: Vec<Vec<FrameInfo>> = Vec::new();
    let mut io: Vec<IoCoord> = Vec::new();
    let mut gt: Vec<DieCell> = Vec::new();
    let mut d: usize = 0;
    while d < n
        invariant
            n == chips@.len(),
            d <= n,
            cols == spec_v7_cols(chips@[p as int]),
            cfg == cols.col_cfg.0,
            clk == cols.col_clk.0,
            forall|e: int| 0 <= e < chips@.len() ==> v7_die_ok(#[trigger] chips@[e], cfg as int, clk as int),
            int_holes@.len() == d,
            site_holes@.len() == d,
            grids@.len() == d,
            frames@.len() == d,
            frame_info@.len() == d,
            forall|e: int| 0 <= e < d ==> (#[trigger] int_holes@[e])@ == v7_int_holes(chips@[e], cfg as int, clk as int),
            forall|e: int| 0 <= e < d ==> (#[trigger] site_holes@[e])@ == v7_site_holes(chips@[e], cfg as int, clk as int),
            forall|e: int| 0 <= e < d ==> v7_grid_is(#[trigger] grids@[e], chips@[e], cfg as int, clk as int),
            forall|e: int| 0 <= e < d ==> v7_frames_laid_out(chips@[e], #[trigger] frames@[e], frame_info@[e]@),
            io@ == concat_map(d as nat, v7_ios_fn(chips@)),
            gt@ == concat_map(d as nat, v7_gts_fn(chips@)),
        decreases n - d,
    {
        let chip = &chips[d];
        assert(v7_die_ok(chips@[d as int], cfg as int, clk as int));
        let (ih, mut sh) = v7_block_holes(chip, cfg, clk);
        let g = v7_grid(chip, ColId(cfg), ColId(clk), &ih, &sh);
        push_v7_bram_edge_holes(chip, &mut sh);
        let ghost io0 = io@;
        let ghost gt0 = gt@;
        v7_die_sites(chip, DieId(d), &mut io, &mut gt);
        let layout = v7_fill_frame_info(chip);
        int_holes.push(ih);
        site_holes.push(sh);
        grids.push(g);
        frames.push(layout.frames);
        frame_info.push(layout.frame_info);
        proof {
            assert(io@ == io0 + v7_ios_fn(chips@)(d as int));
            assert(gt@ == gt0 + v7_gts_fn(chips@)(d as int));
        }
        d = d + 1;
    }
    let banklut = v7_banklut(&chips, p);
    let order = die_order(n, p);
    let cfg_io = v7_cfg_io(&chips[p], interposer.primary, cols.col_lio, cols.col_rio);
    let gtz = expand_gtz(&chips, &interposer, gdb);
    assert forall|e: int| 0 <= e < chips@.len() implies 1 <= (#[trigger] chips@[e]).regs && chips@[e].regs * 50
        <= usize::MAX by {
        assert(v7_die_ok(chips@[e], cfg as int, clk as int));
    }
    let blackhole_cells = v7_blackhole_cells_of(&chips);
    assert(holes_view(int_holes@) =~= v7_device_int_holes(chips@, cfg as int, clk as int));
    let xdie_wires = v7_xdie_wires_of(&chips, &int_holes);
    let kind = chips[p].kind;
    ExpandedDevice {
        kind,
        chips,
        disabled,
        interposer: Some(interposer),
        int_holes,
        site_holes,
        frames,
        col_cfg: cols.col_cfg,
        col_clk: cols.col_clk,
        col_lio: cols.col_lio,
        col_rio: cols.col_rio,
        col_lcio: None,
        col_rcio: None,
        col_lgt: cols.col_lgt,
        col_rgt: cols.col_rgt,
        col_mgt: cols.col_mgt,
        row_dcmiob: None,
        row_iobdcm: None,
        io,
        gt,
        gtz,
        cfg_io,
        banklut,
        grids,
        frame_len: 50 * 64 + 32,
        frame_info,
        die_order: order,
        blackhole_cells,
        xdie_wires,
    }
}

// ---------------------------------------------------------------- Virtex 4

proof fn lemma_first_col_nonneg(cols: Seq<ColumnKind>, kind: ColumnKind, i: int)
    requires
        0 <= i,
    ensures
        first_col_of_kind(cols, kind, i) >= 0,
    decreases cols.len() - i,
{
    if i < cols.len() && cols[i] != kind {
        lemma_first_col_nonneg(cols, kind, i + 1);
    }
}

/// A Virtex 4 device can be expanded: it has one die, with a configuration
/// column and two IO columns, whose sites, grid and frames can be laid out
/// and whose configuration IOs lie within the die.
pub open spec fn v4_device_ok(chips: Seq<Chip>) -> bool {
    let chip = chips[0];
    let cols = spec_v4_cols(chip);
    let bot = chip.sp_row_reg_bot(chip.reg_cfg.0 as int);
    &&& chips.len() == 1
    &&& first_col_of_kind(chip.columns@, ColumnKind::Cfg, 0) < chip.columns@.len()
    &&& kind_cols(chip.columns@, ColumnKind::Io, chip.columns@.len()).len() == 2
    &&& v4_sites_ok(chip)
    &&& v4_grid_ok(chip, cols.col_cfg.0 as int, v4_row_iobdcm(chip, chip.rows_cfg@.len()))
    &&& v4_layout_ok(chip)
    &&& 16 <= bot
    &&& bot + 16 <= usize::MAX
}

/// What expanding a Virtex 4 device gives: its one die, with the special
/// columns, holes, grid, frame layout, IOs, transceivers, the ends of the
/// configuration column's IO stretch, and the configuration IOs.
pub open spec fn v4_expanded(r: ExpandedDevice, chips: Seq<Chip>, disabled: Seq<DisabledPart>) -> bool {
    let chip = chips[0];
    let cols = spec_v4_cols(chip);
    let cfg = cols.col_cfg.0 as int;
    let lio = cols.col_lio->0;
    let rio = cols.col_rio->0;
    let ih = v4_int_holes(chip);
    let sh = v4_site_holes(chip, cfg);
    let dcmiob = v4_row_dcmiob(chip, chip.rows_cfg@.len());
    let iobdcm = v4_row_iobdcm(chip, chip.rows_cfg@.len());
    &&& r.kind == chip.kind
    &&& r.chips@ == chips
    &&& r.disabled@ == disabled
    &&& r.interposer is None
    &&& r.col_cfg == cols.col_cfg
    &&& r.col_clk == cols.col_cfg
    &&& r.col_lio == cols.col_lio
    &&& r.col_rio == cols.col_rio
    &&& r.col_lgt == cols.col_lgt
    &&& r.col_rgt == cols.col_rgt
    &&& r.col_mgt is None
    &&& r.col_lcio is None
    &&& r.col_rcio is None
    &&& r.row_dcmiob == Some(RowId(dcmiob as usize))
    &&& r.row_iobdcm == Some(RowId(iobdcm as usize))
    &&& r.int_holes@.len() == 1 && r.int_holes@[0]@ == ih
    &&& r.site_holes@.len() == 1 && r.site_holes@[0]@ == sh
    &&& r.grids@.len() == 1
    &&& tiles_view(r.grids@[0].tiles@) == spec_v4_grid_tiles(chip, cfg, lio.0 as int, rio.0 as int, ih, sh, dcmiob, iobdcm)
    &&& spans_view(r.grids@[0].spans@) == spec_v4_grid_spans(chip, cfg, lio.0 as int, rio.0 as int, dcmiob, iobdcm)
    &&& terms_view(r.grids@[0].terms@) == edge_terms(chip.columns@.len(), (chip.regs * 16) as nat)
    &&& conns_view(r.grids@[0].conns@) == spec_v4_grid_conns(chip, ih)
    &&& r.frames@.len() == 1 && r.frame_info@.len() == 1
    &&& v4_frames_laid_out(chip, r.frames@[0], r.frame_info@[0]@)
    &&& r.io@ == v4_ios(chip, lio, rio, cols.col_cfg)
    &&& r.gt@ == v4_gts(chip)
    &&& r.gtz@.len() == 0
    &&& r.cfg_io@ == cfg_io_of(v4_cfg_io_table(), DieId(0), cols.col_cfg, chip.sp_row_reg_bot(chip.reg_cfg.0 as int) - 16)
    &&& r.banklut@.len() == 0
    &&& r.frame_len == 80 * 16 + 32
    &&& r.die_order@ == seq![DieId(0)]
    &&& r.blackhole_cells@.len() == 0
    &&& r.xdie_wires@.len() == 0
}

/// Expands a Virtex 4 device from the chip of its one die and its disabled
/// parts.
pub fn expand_grid_v4(chips: Vec<Chip>, disabled: Vec<DisabledPart>) -> (r: ExpandedDevice)
    requires
        v4_device_ok(chips@),
    ensures
        v4_expanded(r, chips@, disabled@),
{
    let chip = &chips[0];
    let cols = v4_cols(chip);
    let lio = match cols.col_lio {
        Some(c) => c,
        None => ColId(0),
    };
    let rio = match cols.col_rio {
        Some(c) => c,
        None => ColId(0),
    };
    let ncols = chip.columns.len();
    proof {
        lemma_first_col_nonneg(chip.columns@, ColumnKind::Cfg, 0);
    }
    assert(cols.col_cfg.0 < ncols);
    let sites = v4_sites(chip, lio, rio, cols.col_cfg);
    let g = v4_grid(
        chip,
        cols.col_cfg,
        lio,
        rio,
        &sites.int_holes,
        &sites.site_holes,
        sites.row_dcmiob,
        sites.row_iobdcm,
    );
    let layout = v4_fill_frame_info(chip);
    let cfg_io = v4_cfg_io(chip, cols.col_cfg);
    let kind = chip.kind;
    let order = vec![DieId(0)];
    assert(order@ =~= seq![DieId(0)]);
    let row_dcmiob = sites.row_dcmiob;
    let row_iobdcm = sites.row_iobdcm;
    ExpandedDevice {
        kind,
        chips,
        disabled,
        interposer: None,
        int_holes: vec![sites.int_holes],
        site_holes: vec![sites.site_holes],
        frames: vec![layout.frames],
        col_cfg: cols.col_cfg,
        col_clk: cols.col_cfg,
        col_lio: cols.col_lio,
        col_rio: cols.col_rio,
        col_lcio: None,
        col_rcio: None,
        col_lgt: cols.col_lgt,
        col_rgt: cols.col_rgt,
        col_mgt: None,
        row_dcmiob: Some(row_dcmiob),
        row_iobdcm: Some(row_iobdcm),
        io: sites.io,
        gt: sites.gt,
        gtz: Vec::new(),
        cfg_io,
        banklut: Vec::new(),
        grids: vec![g],
        frame_len: 80 * 16 + 32,
        frame_info: vec![layout.frame_info],
        die_order: order,
        blackhole_cells: Vec::new(),
        xdie_wires: Vec::new(),
    }
}

// ---------------------------------------------------------------- Virtex 5

/// A Virtex 5 device can be expanded: it has one die, with a configuration
/// column and one or two IO columns, whose sites, grid and frames can be
/// laid out and whose configuration IOs lie within the die.
pub open spec fn v5_device_ok(chips: Seq<Chip>) -> bool {
    let chip = chips[0];
    let cols = spec_v5_cols(chip);
    let bot = chip.sp_row_reg_bot(chip.reg_cfg.0 as int);
    &&& chips.len() == 1
    &&& first_col_of_kind(chip.columns@, ColumnKind::Cfg, 0) < chip.columns@.len()
    &&& 1 <= kind_cols(chip.columns@, ColumnKind::Io, chip.columns@.len()).len() <= 2
    &&& v5_sites_ok(chip)
    &&& v5_grid_ok(chip, v5_int_holes(chip), v5_site_holes(chip, cols.col_cfg.0 as int))
    &&& v5_layout_ok(chip)
    &&& 30 <= bot
    &&& bot + 20 <= usize::MAX
}

/// What expanding a Virtex 5 device gives: its one die, with the special
/// columns, holes, grid, frame layout, IOs, transceivers and the
/// configuration IOs.
pub open spec fn v5_expanded(r: ExpandedDevice, chips: Seq<Chip>, disabled: Seq<DisabledPart>) -> bool {
    let chip = chips[0];
    let cols = spec_v5_cols(chip);
    let cfg = cols.col_cfg.0 as int;
    let ih = v5_int_holes(chip);
    let sh = v5_site_holes(chip, cfg);
    &&& r.kind == chip.kind
    &&& r.chips@ == chips
    &&& r.disabled@ == disabled
    &&& r.interposer is None
    &&& r.col_cfg == cols.col_cfg
    &&& r.col_clk == cols.col_cfg
    &&& r.col_lio == cols.col_lio
    &&& r.col_rio == cols.col_rio
    &&& r.col_lgt == cols.col_lgt
    &&& r.col_rgt == cols.col_rgt
    &&& r.col_mgt is None
    &&& r.col_lcio is None
    &&& r.col_rcio is None
    &&& r.row_dcmiob is None
    &&& r.row_iobdcm is None
    &&& r.int_holes@.len() == 1 && r.int_holes@[0]@ == ih
    &&& r.site_holes@.len() == 1 && r.site_holes@[0]@ == sh
    &&& r.grids@.len() == 1
    &&& tiles_view(r.grids@[0].tiles@) == spec_v5_grid_tiles(chip, cfg, ih, sh)
    &&& spans_view(r.grids@[0].spans@) == spec_v5_grid_spans(chip, cfg, sh)
    &&& terms_view(r.grids@[0].terms@) == spec_v5_grid_terms(chip)
    &&& conns_view(r.grids@[0].conns@) == spec_v5_grid_conns(chip)
    &&& r.frames@.len() == 1 && r.frame_info@.len() == 1
    &&& v5_frames_laid_out(chip, cols.col_cfg, r.frames@[0], r.frame_info@[0]@)
    &&& r.io@ == v5_ios(chip, cfg)
    &&& r.gt@ == v5_gts(chip)
    &&& r.gtz@.len() == 0
    &&& r.cfg_io@ == cfg_io_of(v5_cfg_io_table(), DieId(0), cols.col_cfg, chip.sp_row_reg_bot(chip.reg_cfg.0 as int) - 30)
    &&& r.banklut@.len() == 0
    &&& r.frame_len == 64 * 20 + 32
    &&& r.die_order@ == seq![DieId(0)]
    &&& r.blackhole_cells@.len() == 0
    &&& r.xdie_wires@.len() == 0
}

/// Expands a Virtex 5 device from the chip of its one die and its disabled
/// parts.
pub fn expand_grid_v5(chips: Vec<Chip>, disabled: Vec<DisabledPart>) -> (r: ExpandedDevice)
    requires
        v5_device_ok(chips@),
    ensures
        v5_expanded(r, chips@, disabled@),
{
    let chip = &chips[0];
    let cols = v5_cols(chip);
    let ncols = chip.columns.len();
    proof {
        lemma_first_col_nonneg(chip.columns@, ColumnKind::Cfg, 0);
    }
    assert(cols.col_cfg.0 < ncols);
    let sites = v5_sites(chip, cols.col_cfg);
    let g = v5_grid(chip, cols.col_cfg, &sites.int_holes, &sites.site_holes);
    let layout = v5_fill_frame_info(chip, cols.col_cfg);
    let cfg_io = v5_cfg_io(chip, cols.col_cfg);
    let kind = chip.kind;
    let order = vec![DieId(0)];
    assert(order@ =~= seq![DieId(0)]);
    ExpandedDevice {
        kind,
        chips,
        disabled,
        interposer: None,
        int_holes: vec![sites.int_holes],
        site_holes: vec![sites.site_holes],
        frames: vec![layout.frames],
        col_cfg: cols.col_cfg,
        col_clk: cols.col_cfg,
        col_lio: cols.col_lio,
        col_rio: cols.col_rio,
        col_lcio: None,
        col_rcio: None,
        col_lgt: cols.col_lgt,
        col_rgt: cols.col_rgt,
        col_mgt: None,
        row_dcmiob: None,
        row_iobdcm: None,
        io: sites.io,
        gt: sites.gt,
        gtz: Vec::new(),
        cfg_io,
        banklut: Vec::new(),
        grids: vec![g],
        frame_len: 64 * 20 + 32,
        frame_info: vec![layout.frame_info],
        die_order: order,
        blackhole_cells: Vec::new(),
        xdie_wires: Vec::new(),
    }
}

// ---------------------------------------------------------------- any family

/// A device can be expanded: its first die's family is the Virtex 4, 5 or 7
/// (the Virtex 6 is not covered), and the device can be expanded as one of
/// that family, a Virtex 7 with an interposer.
pub open spec fn device_ok(chips: Seq<Chip>, interposer: Option<Interposer>, gdb: GtzDb) -> bool {
    &&& chips.len() >= 1
    &&& match chips[0].kind {
        ChipKind::Virtex4 => v4_device_ok(chips),
        ChipKind::Virtex5 => v5_device_ok(chips),
        ChipKind::Virtex6 => false,
        ChipKind::Virtex7 => interposer is Some && v7_device_ok(chips, interposer->0, gdb),
    }
}

/// Expands a device of the family of its first die.
pub fn expand_grid(chips: Vec<Chip>, interposer: Option<Interposer>, disabled: Vec<DisabledPart>, gdb: &GtzDb) -> (r:
    ExpandedDevice)
    requires
        device_ok(chips@, interposer, *gdb),
    ensures
        match chips@[0].kind {
            ChipKind::Virtex4 => v4_expanded(r, chips@, disabled@),
            ChipKind::Virtex5 => v5_expanded(r, chips@, disabled@),
            ChipKind::Virtex6 => false,
            ChipKind::Virtex7 => v7_expanded(r, chips@, interposer->0, disabled@, *gdb),
        },
{
    match chips[0].kind {
        ChipKind::Virtex4 => expand_grid_v4(chips, disabled),
        ChipKind::Virtex5 => expand_grid_v5(chips, disabled),
        ChipKind::Virtex6 => {
            // `device_ok` leaves the Virtex 6 out, so this arm is never taken
            assert(false);
            expand_grid_v5(chips, disabled)
        },
        ChipKind::Virtex7 => {
            let ip = match interposer {
                Some(i) => i,
                None => Interposer { primary: DieId(0), gtz_bot: false, gtz_top: false },
            };
            expand_grid_v7(chips, ip, disabled, gdb)
        },
    }
}

fn contains_cell(v: &Vec<DieCell>, x: DieCell) -> (r: bool)
    ensures
        r == v@.contains(x),
{
    let mut i: usize = 0;
    while i < v.len()
        invariant
            i <= v@.len(),
            forall|j: int| 0 <= j < i ==> v@[j] != x,
        decreases v@.len() - i,
    {
        let y = v[i];
        if (y.0).0 == (x.0).0 && (y.1).0 == (x.1).0 && (y.2).0 == (x.2).0 {
            assert(v@[i as int] == x);
            return true;
        }
        i = i + 1;
    }
    false
}

/// The cells of `xs` that `union_push(v, xs)` adds after `v`.
fn new_cells(v: &Vec<DieCell>, xs: &Vec<DieCell>) -> (r: Vec<DieCell>)
    ensures
        v@ + r@ == union_push(v@, xs@),
{
    let mut added: Vec<DieCell> = Vec::new();
    let mut i: usize = 0;
    while i < xs.len()
        invariant
            i <= xs@.len(),
            v@ + added@ == union_push(v@, xs@.take(i as int)),
        decreases xs@.len() - i,
    {
        let x = xs[i];
        let ghost w = v@ + added@;
        assert(xs@.take(i + 1).drop_last() =~= xs@.take(i as int));
        assert(xs@.take(i + 1).last() == x);
        let in_v = contains_cell(v, x);
        let in_added = contains_cell(&added, x);
        proof {
            if w.contains(x) {
                let k = choose|k: int| 0 <= k < w.len() && w[k] == x;
                if k >= v@.len() {
                    assert(added@[k - v@.len()] == x);
                }
            }
            if v@.contains(x) {
                let k = choose|k: int| 0 <= k < v@.len() && v@[k] == x;
                assert(w[k] == x);
            }
            if added@.contains(x) {
                let k = choose|k: int| 0 <= k < added@.len() && added@[k] == x;
                assert(w[v@.len() + k] == x);
            }
        }
        if !in_v && !in_added {
            added.push(x);
            assert(v@ + added@ =~= w.push(x));
        }
        i = i + 1;
    }
    assert(xs@.take(xs@.len() as int) =~= xs@);
    added
}

impl ExpandedDevice {
    /// Adds to the black holes of a Virtex 7 device the cells whose long
    /// vertical wire the vendor's tools take to end in one (see
    /// `v7_vivado_cursed_cells`), each cell not already there once; leaves
    /// a device of another family as it is.
    pub fn adjust_vivado(&mut self)
        requires
            old(self).kind is Virtex7 ==> v7_dies_ok(old(self).chips@) && old(self).grids@.len()
                == old(self).chips@.len(),
        ensures
            final(self).blackhole_cells@ == if old(self).kind is Virtex7 {
                union_push(old(self).blackhole_cells@, v7_vivado_cursed_cells(old(self).chips@, old(self).grids@))
            } else {
                old(self).blackhole_cells@
            },
            forall|x: DieCell|
                #[trigger] final(self).blackhole_cells@.contains(x) <==> old(self).blackhole_cells@.contains(x) || (
                old(self).kind is Virtex7 && v7_vivado_cursed_cells(old(self).chips@, old(self).grids@).contains(x)),
            old(self).blackhole_cells@.no_duplicates() ==> final(self).blackhole_cells@.no_duplicates(),
            *final(self) == (ExpandedDevice { blackhole_cells: final(self).blackhole_cells, ..*old(self) }),
    {
        proof {
            lemma_union_push(
                self.blackhole_cells@,
                v7_vivado_cursed_cells(self.chips@, self.grids@),
            );
        }
        match self.kind {
            ChipKind::Virtex7 => {
                let cells = v7_vivado_cursed_cells_of(&self.chips, &self.grids);
                let mut added = new_cells(&self.blackhole_cells, &cells);
                self.blackhole_cells.append(&mut added);
            },
            _ => {},
        }
    }
}

// ---------------------------------------------------------------- tiles by location

/// Where a tile of a die's grid sits: the index of one of its tiles, or of
/// one of its span tiles.
#[derive(Clone, Copy, Debug, PartialEq, Eq, Structural)]
pub enum TileLoc {
    Tile(usize),
    Span(usize),
}

/// Tile `i` of the grid has class `class` and is anchored at `(c, r)`.
pub open spec fn tile_is(g: DieGrid, i: int, class: Seq<char>, c: int, r: int) -> bool {
    0 <= i < g.tiles@.len() && g.tiles@[i].class@ == class && g.tiles@[i].col == c && g.tiles@[i].row == r
}

/// Span tile `i` of the grid has class `class` and is anchored at `(c, r)`.
pub open spec fn span_is(g: DieGrid, i: int, class: Seq<char>, c: int, r: int) -> bool {
    0 <= i < g.spans@.len() && g.spans@[i].class@ == class && g.spans@[i].col == c && g.spans@[i].row == r
}

/// The first tile of class `class` anchored at `(c, r)`, else the first
/// such span tile, else none.
pub open spec fn spec_tile_by_class(g: DieGrid, class: Seq<char>, c: int, r: int) -> Option<TileLoc> {
    if exists|i: int| #[trigger] tile_is(g, i, class, c, r) {
        let i = choose|i: int| #[trigger] tile_is(g, i, class, c, r) && forall|k: int| 0 <= k < i ==> !tile_is(g, k, class, c, r);
        Some(TileLoc::Tile(i as usize))
    } else if exists|i: int| #[trigger] span_is(g, i, class, c, r) {
        let i = choose|i: int| #[trigger] span_is(g, i, class, c, r) && forall|k: int| 0 <= k < i ==> !span_is(g, k, class, c, r);
        Some(TileLoc::Span(i as usize))
    } else {
        None
    }
}

/// The first tile of a class anchored at a cell of a die grid, else the
/// first such span tile.
pub fn tile_by_class(g: &DieGrid, class: &str, c: usize, r: usize) -> (res: Option<TileLoc>)
    ensures
        match res {
            Some(TileLoc::Tile(i)) => tile_is(*g, i as int, class@, c as int, r as int) && forall|k: int|
                0 <= k < i ==> !tile_is(*g, k, class@, c as int, r as int),
            Some(TileLoc::Span(i)) => (forall|k: int| !tile_is(*g, k, class@, c as int, r as int)) && span_is(
                *g,
                i as int,
                class@,
                c as int,
                r as int,
            ) && forall|k: int| 0 <= k < i ==> !span_is(*g, k, class@, c as int, r as int),
            None => (forall|k: int| !tile_is(*g, k, class@, c as int, r as int)) && forall|k: int|
                !span_is(*g, k, class@, c as int, r as int),
        },
{
    let mut i: usize = 0;
    while i < g.tiles.len()
        invariant
            i <= g.tiles@.len(),
            forall|k: int| 0 <= k < i ==> !tile_is(*g, k, class@, c as int, r as int),
        decreases g.tiles@.len() - i,
    {
        if g.tiles[i].col == c && g.tiles[i].row == r && str_equals(g.tiles[i].class, class) {
            return Some(TileLoc::Tile(i));
        }
        i = i + 1;
    }
    let mut i: usize = 0;
    while i < g.spans.len()
        invariant
            i <= g.spans@.len(),
            forall|k: int| !tile_is(*g, k, class@, c as int, r as int),
            forall|k: int| 0 <= k < i ==> !span_is(*g, k, class@, c as int, r as int),
        decreases g.spans@.len() - i,
    {
        if g.spans[i].col == c && g.spans[i].row == r && str_equals(g.spans[i].class, class) {
            return Some(TileLoc::Span(i));
        }
        i = i + 1;
    }
    None
}

impl ExpandedDevice {
    /// The configuration tile of a die: the tile or span tile of class
    /// `CFG` anchored at the configuration tile's cell (see
    /// `cfg_tile_cell`); the die's grid holds one.
    pub fn tile_cfg(&self, die: DieId) -> (r: (DieId, TileLoc))
        requires
            die.0 < self.chips@.len(),
            die.0 < self.grids@.len(),
            cfg_tile_row_ok(self.kind, self.chips@[die.0 as int]),
            spec_tile_by_class(
                self.grids@[die.0 as int],
                "CFG"@,
                self.col_cfg.0 as int,
                spec_cfg_tile_row(self.kind, self.chips@[die.0 as int]),
            ) is Some,
        ensures
            r == (die, spec_tile_by_class(
                self.grids@[die.0 as int],
                "CFG"@,
                self.col_cfg.0 as int,
                spec_cfg_tile_row(self.kind, self.chips@[die.0 as int]),
            )->0),
    {
        let (col, row) = self.cfg_tile_cell(die);
        let found = tile_by_class(&self.grids[die.0], "CFG", col.0, row.0);
        let ghost g = self.grids@[die.0 as int];
        let ghost rr = spec_cfg_tile_row(self.kind, self.chips@[die.0 as int]);
        proof {
            match found {
                Some(TileLoc::Tile(i)) => {
                    let j = choose|j: int| #[trigger] tile_is(g, j, "CFG"@, col.0 as int, rr) && forall|k: int| 0 <= k < j ==> !tile_is(g, k, "CFG"@, col.0 as int, rr);
                    assert(!(j < i));
                    assert(!(i < j));
                },
                Some(TileLoc::Span(i)) => {
                    let j = choose|j: int| #[trigger] span_is(g, j, "CFG"@, col.0 as int, rr) && forall|k: int| 0 <= k < j ==> !span_is(g, k, "CFG"@, col.0 as int, rr);
                    assert(!(j < i));
                    assert(!(i < j));
                },
                None => {},
            }
        }
        match found {
            Some(t) => (die, t),
            None => (die, TileLoc::Tile(0)),
        }
    }
}

/// The cells of a tile as column and row ids.
pub open spec fn cell_ids(cells: Seq<(usize, usize)>) -> Seq<(ColId, RowId)> {
    cells.map_values(|c: (usize, usize)| (ColId(c.0), RowId(c.1)))
}

impl ExpandedDevice {
    /// The bit tiles of tile `idx` of a die's grid: those of its class, its
    /// anchor cell and its cells (see `tile_bits`).
    pub fn tile_bits_of(&self, die: DieId, idx: usize) -> (res: Vec<crate::virtex4::expanded::BitTile>)
        requires
            die.0 < self.grids@.len(),
            idx < self.grids@[die.0 as int].tiles@.len(),
            die.0 < self.chips@.len(),
            ({
                let t = self.grids@[die.0 as int].tiles@[idx as int];
                &&& self.tile_btiles_arith_ok(t.col as int, t.row as int, t.class@)
                &&& self.chips@[die.0 as int].sp_row_reg_hclk(self.chips@[die.0 as int].sp_row_to_reg(t.row as int))
                    <= usize::MAX
                &&& forall|i: int|
                    0 <= i < self.spec_tile_btiles(die, t.col as int, t.row as int, t.class@, cell_ids(t.cells@)).len()
                        ==> self.btile_at_ok(
                        die,
                        #[trigger] self.spec_tile_btiles(die, t.col as int, t.row as int, t.class@, cell_ids(t.cells@))[i],
                    )
            }),
        ensures
            ({
                let t = self.grids@[die.0 as int].tiles@[idx as int];
                res@ == self.spec_tile_bits(die, t.col as int, t.row as int, t.class@, cell_ids(t.cells@))
            }),
    {
        let t = &self.grids[die.0].tiles[idx];
        let mut cells: Vec<(ColId, RowId)> = Vec::new();
        let mut i: usize = 0;
        while i < t.cells.len()
            invariant
                i <= t.cells@.len(),
                cells@ == cell_ids(t.cells@).take(i as int),
            decreases t.cells@.len() - i,
        {
            let (c, r) = t.cells[i];
            cells.push((ColId(c), RowId(r)));
            i = i + 1;
            assert(cells@ =~= cell_ids(t.cells@).take(i as int));
        }
        assert(cells@ =~= cell_ids(t.cells@));
        self.tile_bits(die, ColId(t.col), RowId(t.row), t.class, &cells)
    }
}

} // verus!
