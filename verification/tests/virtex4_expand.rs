use prjcombine::grid::{ColId, DieId, RowId, TileIobId};
use prjcombine::tile::GridTile;
use prjcombine::virtex4::bond::SharedCfgPad;
use prjcombine::virtex4::chip::{
    CfgRowKind, Chip, ChipKind, ColumnKind, GtColumn, GtKind, Interposer, IoColumn, IoKind, RegId,
};
use prjcombine::virtex4::device::{v7_banklut, v7_cfg_io};
use prjcombine::virtex4::expand::{expand_grid, TileLoc};
use prjcombine::virtex4::expanded::{IoCoord, IoDiffKind};
use prjcombine::virtex4::frames::{v4_fill_frame_info, v5_fill_frame_info, v7_fill_frame_info};
use prjcombine::virtex4::grid_v7::v7_grid;
use prjcombine::virtex4::gtz::GtzDb;
use prjcombine::virtex4::sites::{v4_sites, v5_sites, v7_block_holes, v7_die_holes, v7_die_sites};
use ColumnKind::{Bram, Cfg, ClbLL, ClbLM, Dsp, Gt, Io};

fn chip(kind: ChipKind, columns: Vec<ColumnKind>, regs: usize, reg_cfg: usize) -> Chip {
    Chip {
        kind,
        columns,
        cols_vbrk: vec![],
        cols_mgt_buf: vec![],
        cols_qbuf: None,
        col_hard: None,
        cols_io: vec![],
        cols_gt: vec![],
        regs,
        reg_cfg: RegId(reg_cfg),
        reg_clk: RegId(reg_cfg),
        rows_cfg: vec![],
        holes_ppc: vec![],
        holes_pcie2: vec![],
        holes_pcie3: vec![],
        has_bram_fx: false,
        has_ps: false,
        has_slr: false,
        has_no_tbuturn: false,
    }
}

fn no_gtz() -> GtzDb {
    GtzDb { gtz: vec![] }
}

fn tile_at(t: &GridTile) -> (&'static str, usize, usize, usize) {
    (t.class, t.col, t.row, t.cells.len())
}

fn io(die: usize, col: usize, row: usize, iob: usize) -> IoCoord {
    IoCoord { die: DieId(die), col: ColId(col), row: RowId(row), iob: TileIobId(iob) }
}

fn v4_chip() -> Chip {
    let mut c = chip(ChipKind::Virtex4, vec![Gt, Io, ClbLM, Cfg, ClbLM, Io, Gt], 2, 1);
    c.cols_vbrk = vec![ColId(2)];
    c.rows_cfg = vec![(RowId(0), CfgRowKind::Dcm), (RowId(26), CfgRowKind::Sysmon)];
    c.holes_ppc = vec![(ColId(4), RowId(4))];
    c
}

#[test]
fn expand_a_virtex4_device() {
    let c = v4_chip();
    let s = v4_sites(&c, ColId(1), ColId(5), ColId(3));
    let layout = v4_fill_frame_info(&c);
    let d = expand_grid(vec![c], None, vec![], &no_gtz());
    assert_eq!(d.kind, ChipKind::Virtex4);
    assert_eq!(d.col_cfg, ColId(3));
    assert_eq!(d.col_clk, ColId(3));
    assert_eq!(d.col_lio, Some(ColId(1)));
    assert_eq!(d.col_rio, Some(ColId(5)));
    assert_eq!(d.col_lgt, None);
    assert_eq!(d.col_rgt, None);
    assert_eq!(d.row_dcmiob, Some(s.row_dcmiob));
    assert_eq!(d.row_iobdcm, Some(s.row_iobdcm));
    assert_eq!(d.int_holes, vec![s.int_holes]);
    assert_eq!(d.site_holes, vec![s.site_holes]);
    assert_eq!(d.io, s.io);
    assert_eq!(d.grids.len(), 1);
    assert_eq!(d.grids[0].tiles.len(), 545);
    assert_eq!(tile_at(&d.grids[0].tiles[196]), ("CFG", 3, 8, 16));
    assert_eq!(d.grids[0].terms.len(), 78);
    assert_eq!(d.frame_info.len(), 1);
    assert_eq!(d.frame_len, 1312);
    assert_eq!(d.frame_info[0].len(), layout.frame_info.len());
    assert_eq!(d.frames[0].col_frame, layout.frames.col_frame);
    assert_eq!(d.cfg_io.len(), 32);
    assert_eq!(d.cfg_io[0], (SharedCfgPad::Data(0), io(0, 3, 0, 0)));
    assert_eq!(d.cfg_io[31], (SharedCfgPad::Data(31), io(0, 3, 31, 1)));
    assert_eq!(d.die_order, vec![DieId(0)]);
    assert_eq!(d.tile_cfg(DieId(0)), (DieId(0), TileLoc::Tile(196)));
    let t = d.grids[0].tiles[196].clone();
    let cells: Vec<(ColId, RowId)> = t.cells.iter().map(|&(c, r)| (ColId(c), RowId(r))).collect();
    let bits = d.tile_bits_of(DieId(0), 196);
    assert_eq!(bits, d.tile_bits(DieId(0), ColId(t.col), RowId(t.row), t.class, &cells));
    assert!(!bits.is_empty());
    assert!(d.gtz.is_empty() && d.banklut.is_empty());
    assert!(d.blackhole_cells.is_empty() && d.xdie_wires.is_empty());
}

fn v5_chip() -> Chip {
    let mut c = chip(ChipKind::Virtex5, vec![Gt, Io, ClbLL, Bram, ClbLM, Cfg, ClbLM, Dsp, Io, Gt], 4, 2);
    c.cols_mgt_buf = vec![ColId(3)];
    c.cols_gt = vec![
        GtColumn { col: ColId(0), is_middle: false, regs: vec![Some(GtKind::Gtp), None, Some(GtKind::Gtx), Some(GtKind::Gth)] },
        GtColumn { col: ColId(9), is_middle: false, regs: vec![None, None, None, None] },
    ];
    c
}

#[test]
fn expand_a_virtex5_device() {
    let c = v5_chip();
    let s = v5_sites(&c, ColId(5));
    let layout = v5_fill_frame_info(&c, ColId(5));
    let d = expand_grid(vec![c], None, vec![], &no_gtz());
    assert_eq!(d.kind, ChipKind::Virtex5);
    assert_eq!(d.col_cfg, ColId(5));
    assert_eq!(d.col_lio, Some(ColId(1)));
    assert_eq!(d.col_rio, Some(ColId(8)));
    assert_eq!(d.col_lgt, Some(ColId(0)));
    assert_eq!(d.col_rgt, Some(ColId(9)));
    assert_eq!(d.row_dcmiob, None);
    assert_eq!(d.io, s.io);
    assert_eq!(d.gt, s.gt);
    assert_eq!(d.grids[0].tiles.len(), 1814);
    assert_eq!(d.grids[0].spans.len(), 49);
    assert_eq!(d.grids[0].terms.len(), 180);
    assert_eq!(d.grids[0].conns.len(), 250);
    assert_eq!(d.frame_info[0].len(), layout.frame_info.len());
    assert_eq!(d.cfg_io.len(), 48);
    assert_eq!(d.cfg_io[0], (SharedCfgPad::Data(8), io(0, 5, 16, 0)));
    assert_eq!(d.die_order, vec![DieId(0)]);
    assert_eq!(d.tile_cfg(DieId(0)), (DieId(0), TileLoc::Span(32)));
}

fn v7_die() -> Chip {
    let mut c = chip(
        ChipKind::Virtex7,
        vec![Bram, Io, ClbLL, ClbLL, ClbLL, ClbLL, Cfg, ColumnKind::Clk, ClbLL, ColumnKind::Cmt, Io, ClbLM],
        2,
        1,
    );
    c.cols_io = vec![
        IoColumn { col: ColId(1), regs: vec![Some(IoKind::Hrio), Some(IoKind::Hrio)] },
        IoColumn { col: ColId(10), regs: vec![Some(IoKind::Hpio), None] },
    ];
    c
}

#[test]
fn expand_a_two_die_virtex7_device() {
    let chips = vec![v7_die(), v7_die()];
    let interposer = Interposer { primary: DieId(1), gtz_bot: false, gtz_top: false };
    let (ih, sh) = v7_block_holes(&chips[0], 6, 7);
    let g0 = v7_grid(&chips[0], ColId(6), ColId(7), &ih, &sh);
    let (ih_full, sh_full) = v7_die_holes(&chips[0], 6, 7);
    let mut ios = vec![];
    let mut gts = vec![];
    v7_die_sites(&chips[0], DieId(0), &mut ios, &mut gts);
    v7_die_sites(&chips[1], DieId(1), &mut ios, &mut gts);
    let banks = v7_banklut(&chips, 1);
    let cfg_io = v7_cfg_io(&chips[1], DieId(1), Some(ColId(1)), Some(ColId(10)));
    let layout = v7_fill_frame_info(&chips[0]);
    let mut d = expand_grid(chips, Some(interposer), vec![], &no_gtz());
    assert_eq!(d.kind, ChipKind::Virtex7);
    assert_eq!(d.interposer, Some(interposer));
    assert_eq!((d.col_cfg, d.col_clk), (ColId(6), ColId(7)));
    assert_eq!((d.col_lio, d.col_rio), (Some(ColId(1)), Some(ColId(10))));
    assert_eq!(d.int_holes, vec![ih_full.clone(), ih_full]);
    assert_eq!(d.site_holes, vec![sh_full.clone(), sh_full]);
    assert_eq!(d.grids.len(), 2);
    assert_eq!(d.grids[1].tiles.len(), g0.tiles.len());
    assert_eq!(d.grids[1].conns.len(), g0.conns.len());
    assert_eq!(tile_at(&d.grids[0].tiles[0]), tile_at(&g0.tiles[0]));
    assert_eq!(d.io, ios);
    assert_eq!(d.gt, gts);
    assert_eq!(d.banklut, vec![13, 15]);
    assert_eq!(d.banklut, banks);
    assert_eq!(d.die_order, vec![DieId(1), DieId(0)]);
    assert_eq!(d.cfg_io, cfg_io);
    assert_eq!(d.cfg_io[0], (SharedCfgPad::Data(16), io(1, 1, 1, 0)));
    assert_eq!(d.frame_info[1].len(), layout.frame_info.len());
    assert_eq!(d.frame_len, 3232);
    assert_eq!(d.tile_cfg(DieId(1)), (DieId(1), TileLoc::Span(0)));
    assert!(d.gtz.is_empty());
    assert!(d.blackhole_cells.is_empty());
    assert_eq!(d.xdie_wires.len(), 6 * 49);
    assert_eq!(d.xdie_wires[0], ((DieId(1), ColId(6), RowId(1)), (DieId(0), ColId(6), RowId(50))));
    d.adjust_vivado();
    let mut cursed = vec![(DieId(0), ColId(1), RowId(50))];
    cursed.extend((6..12).map(|c| (DieId(0), ColId(c), RowId(50))));
    assert_eq!(d.blackhole_cells, cursed);
    d.adjust_vivado();
    assert_eq!(d.blackhole_cells, cursed);
}

#[test]
fn virtex7_io_pairs_and_ps_pins() {
    let chips = vec![v7_die(), v7_die()];
    let interposer = Interposer { primary: DieId(1), gtz_bot: false, gtz_top: false };
    let mut d = expand_grid(chips, Some(interposer), vec![], &no_gtz());
    let a = io(0, 1, 1, 0);
    let b = io(0, 1, 1, 1);
    assert!(d.io.contains(&a) && d.io.contains(&b));
    assert_eq!(d.get_io_info(a).diff, IoDiffKind::N(b));
    assert_eq!(d.get_io_info(b).diff, IoDiffKind::P(a));
    assert_eq!(d.get_io_info(io(0, 1, 0, 0)).diff, IoDiffKind::NoPair);
    assert!(d.get_ps_pins().is_empty());
    d.chips[0].has_ps = true;
    let pins = d.get_ps_pins();
    assert_eq!(pins.len(), 130);
    let set: std::collections::HashSet<_> = pins.iter().copied().collect();
    assert_eq!(set.len(), 130);
    for bank in [500u32, 501, 502] {
        let n = pins.iter().filter(|p| d.get_ps_bank(**p) == bank).count();
        assert_eq!(n, match bank { 500 => 18, 501 => 39, _ => 73 });
    }
}

#[test]
fn adjust_vivado_leaves_other_families_alone() {
    let mut d = expand_grid(vec![v4_chip()], None, vec![], &no_gtz());
    d.adjust_vivado();
    assert!(d.blackhole_cells.is_empty());
}
