use prjcombine::grid::{ColId, DieId, DirH, DirV, Rect, RowId, TileIobId};
use prjcombine::virtex4::chip::{
    CfgRowKind, Chip, ChipKind, ColumnKind, GtColumn, GtKind, HardColumn, Interposer, IoColumn, IoKind, Pcie2, RegId,
};
use prjcombine::virtex4::gtz::{expand_gtz, GtzBel, GtzDb};
use prjcombine::virtex4::expanded::IoCoord;
use prjcombine::virtex4::sites::{v4_sites, v5_sites, v7_die_holes, v7_die_sites};
use ColumnKind::{Cfg, ClbLM, Gt, Io};

fn bare_chip(kind: ChipKind, columns: Vec<ColumnKind>, regs: usize, reg_cfg: usize) -> Chip {
    Chip {
        kind,
        columns,
        cols_vbrk: vec![],
        cols_mgt_buf: vec![],
        cols_qbuf: None,
        col_hard: None,
        cols_io: vec![],
        cols_gt: vec![],
        regs,
        reg_cfg: RegId(reg_cfg),
        reg_clk: RegId(reg_cfg),
        rows_cfg: vec![],
        holes_ppc: vec![],
        holes_pcie2: vec![],
        holes_pcie3: vec![],
        has_bram_fx: false,
        has_ps: false,
        has_slr: false,
        has_no_tbuturn: false,
    }
}

fn rect(col_w: usize, col_e: usize, row_s: usize, row_n: usize) -> Rect {
    Rect { col_w: ColId(col_w), col_e: ColId(col_e), row_s: RowId(row_s), row_n: RowId(row_n) }
}

fn io(die: usize, col: usize, row: usize, iob: usize) -> IoCoord {
    IoCoord { die: DieId(die), col: ColId(col), row: RowId(row), iob: TileIobId(iob) }
}

fn v7_chip() -> Chip {
    let mut columns = vec![ColumnKind::ClbLL; 30];
    columns[0] = ColumnKind::Bram;
    let mut c = bare_chip(ChipKind::Virtex7, columns, 2, 1);
    c.holes_pcie2 = vec![Pcie2 { side: DirH::W, col: ColId(3), row: RowId(50) }];
    c.holes_pcie3 = vec![(ColId(20), RowId(0))];
    c.cols_gt = vec![
        GtColumn { col: ColId(29), is_middle: false, regs: vec![Some(GtKind::Gtx), None] },
        GtColumn { col: ColId(25), is_middle: true, regs: vec![None, Some(GtKind::Gtp)] },
    ];
    c.cols_io = vec![IoColumn { col: ColId(1), regs: vec![Some(IoKind::Hrio), None] }];
    c
}

#[test]
fn v7_holes_of_blocks_and_transceivers() {
    let c = v7_chip();
    let (ints, site) = v7_die_holes(&c, 10, 15);
    assert_eq!(ints, vec![rect(4, 10, 0, 100), rect(4, 6, 50, 75), rect(21, 25, 0, 50), rect(7, 25, 50, 100)]);
    assert_eq!(
        site,
        vec![
            rect(4, 10, 0, 100),
            rect(3, 7, 50, 75),
            rect(20, 26, 0, 50),
            rect(7, 26, 50, 100),
            rect(0, 1, 0, 5),
            rect(0, 1, 95, 100),
        ]
    );
}

#[test]
fn v7_holes_of_a_processing_system_on_a_single_region_config() {
    let mut c = bare_chip(ChipKind::Virtex7, vec![ColumnKind::ClbLL; 12], 3, 1);
    c.has_ps = true;
    let (ints, site) = v7_die_holes(&c, 8, 9);
    assert_eq!(ints, vec![rect(2, 8, 0, 100), rect(0, 18, 50, 150)]);
    assert_eq!(site, vec![rect(2, 8, 0, 100), rect(0, 19, 50, 150)]);
    let c1 = bare_chip(ChipKind::Virtex7, vec![ColumnKind::ClbLL; 12], 1, 1);
    let (ints1, _) = v7_die_holes(&c1, 6, 7);
    assert_eq!(ints1, vec![rect(0, 6, 0, 50)]);
}

#[test]
fn v7_ios_and_transceivers_of_a_die() {
    let c = v7_chip();
    let mut ios = vec![io(9, 9, 9, 9)];
    let mut gts = vec![];
    v7_die_sites(&c, DieId(1), &mut ios, &mut gts);
    assert_eq!(ios.len(), 51);
    assert_eq!(ios[0], io(9, 9, 9, 9));
    assert_eq!(ios[1], io(1, 1, 0, 0));
    assert_eq!(ios[2], io(1, 1, 1, 0));
    assert_eq!(ios[3], io(1, 1, 1, 1));
    assert_eq!(ios[4], io(1, 1, 3, 0));
    assert_eq!(ios[50], io(1, 1, 49, 0));
    assert_eq!(gts, vec![(DieId(1), ColId(29), RowId(25)), (DieId(1), ColId(25), RowId(75))]);
}

#[test]
fn v4_holes_ios_and_transceivers() {
    let mut c = bare_chip(ChipKind::Virtex4, vec![Gt, Io, ClbLM, Cfg, ClbLM, Io, Gt], 2, 1);
    c.rows_cfg = vec![(RowId(0), CfgRowKind::Dcm), (RowId(26), CfgRowKind::Sysmon)];
    c.holes_ppc = vec![(ColId(4), RowId(4))];
    let s = v4_sites(&c, ColId(1), ColId(5), ColId(3));
    assert_eq!(s.int_holes, vec![rect(5, 12, 5, 27)]);
    assert_eq!(s.site_holes, vec![rect(4, 13, 4, 28), rect(3, 4, 8, 24), rect(3, 4, 0, 4), rect(3, 4, 26, 34)]);
    assert_eq!(s.row_dcmiob, RowId(4));
    assert_eq!(s.row_iobdcm, RowId(26));
    assert_eq!(s.gt, vec![(DieId(0), ColId(0), RowId(0)), (DieId(0), ColId(6), RowId(0))]);
    assert_eq!(s.io.len(), 64 + 64 + 12);
    assert_eq!(s.io[0], io(0, 1, 0, 0));
    assert_eq!(s.io[1], io(0, 1, 0, 1));
    assert_eq!(s.io[64], io(0, 5, 0, 0));
    let cfg_rows: Vec<usize> = s.io[128..].iter().map(|x| x.row.0).collect();
    assert_eq!(cfg_rows, vec![4, 4, 5, 5, 6, 6, 7, 7, 24, 24, 25, 25]);
    assert!(s.io[128..].iter().all(|x| x.col == ColId(3)));
}

#[test]
fn v4_special_rows_without_config_rows() {
    let c = bare_chip(ChipKind::Virtex4, vec![Io, ClbLM, Cfg, ClbLM, Io], 3, 1);
    let s = v4_sites(&c, ColId(0), ColId(4), ColId(2));
    assert_eq!(s.row_dcmiob, RowId(0));
    assert_eq!(s.row_iobdcm, RowId(48));
    assert_eq!(s.site_holes, vec![rect(2, 3, 8, 24)]);
    assert!(s.gt.is_empty());
    assert_eq!(s.io.len(), 96 + 96 + 2 * 32);
}

fn gtz_chip(regs: usize) -> Chip {
    let mut columns = vec![ColumnKind::ClbLL; 110];
    columns[50] = ColumnKind::Cfg;
    columns[60] = ColumnKind::Clk;
    bare_chip(ChipKind::Virtex7, columns, regs, 1)
}

fn empty_bel(side: DirV) -> GtzBel {
    GtzBel { side, pins: vec![], clk_pins: vec![] }
}

fn col_range(a: usize, b: usize) -> Vec<ColId> {
    (a..=b).map(ColId).collect()
}

#[test]
fn gtz_of_a_device_at_both_edges() {
    let chips = vec![gtz_chip(2), gtz_chip(3)];
    let gdb = GtzDb {
        gtz: vec![("GTZ_TOP".to_string(), empty_bel(DirV::N)), ("GTZ_BOT".to_string(), empty_bel(DirV::S))],
    };
    let ip = Interposer { primary: DieId(0), gtz_bot: true, gtz_top: true };
    let r = expand_gtz(&chips, &ip, &gdb);
    assert_eq!(r.len(), 2);
    let (side, bot) = &r[0];
    assert_eq!(*side, DirV::S);
    assert_eq!(bot.kind, 1);
    assert_eq!(bot.bank, 400);
    assert_eq!(bot.die, DieId(0));
    let mut cols = col_range(7, 43);
    cols.extend(col_range(51, 59));
    cols.extend(col_range(61, 100));
    assert_eq!(bot.cols, cols);
    assert_eq!(bot.rows, (1..=49).map(RowId).collect::<Vec<_>>());
    let (side, top) = &r[1];
    assert_eq!(*side, DirV::N);
    assert_eq!(top.kind, 0);
    assert_eq!(top.bank, 300);
    assert_eq!(top.die, DieId(1));
    let mut cols = col_range(13, 43);
    cols.extend(col_range(51, 59));
    cols.extend(col_range(61, 106));
    assert_eq!(top.cols, cols);
    assert_eq!(top.rows, (100..=148).map(RowId).collect::<Vec<_>>());
}

#[test]
fn gtz_of_a_device_without_gtz() {
    let chips = vec![gtz_chip(2)];
    let gdb = GtzDb { gtz: vec![] };
    let ip = Interposer { primary: DieId(0), gtz_bot: false, gtz_top: false };
    assert!(expand_gtz(&chips, &ip, &gdb).is_empty());
}

#[test]
fn v5_holes_ios_and_transceivers() {
    let mut c = bare_chip(ChipKind::Virtex5, vec![Gt, Io, ClbLM, Cfg, ClbLM, Io], 4, 2);
    c.holes_ppc = vec![(ColId(6), RowId(40))];
    c.col_hard = Some(HardColumn { col: ColId(2), rows_emac: vec![RowId(0)], rows_pcie: vec![RowId(40)] });
    c.cols_gt = vec![GtColumn {
        col: ColId(0),
        is_middle: false,
        regs: vec![Some(GtKind::Gtp), None, Some(GtKind::Gth), Some(GtKind::Gtx)],
    }];
    let s = v5_sites(&c, ColId(3));
    assert_eq!(s.int_holes, vec![rect(7, 19, 40, 80)]);
    assert_eq!(
        s.site_holes,
        vec![
            rect(6, 20, 40, 80),
            rect(2, 3, 0, 10),
            rect(2, 3, 40, 80),
            rect(3, 4, 30, 50),
            rect(3, 4, 0, 10),
            rect(3, 4, 70, 80),
        ]
    );
    assert_eq!(s.gt, vec![(DieId(0), ColId(0), RowId(0)), (DieId(0), ColId(0), RowId(60))]);
    assert_eq!(s.io.len(), 160 + 80 + 160);
    assert_eq!(s.io[0], io(0, 1, 0, 0));
    assert_eq!(s.io[159], io(0, 1, 79, 1));
    assert_eq!(s.io[160], io(0, 3, 10, 0));
    assert_eq!(s.io[200], io(0, 3, 50, 0));
    assert_eq!(s.io[239], io(0, 3, 69, 1));
    assert_eq!(s.io[240], io(0, 5, 0, 0));
}
