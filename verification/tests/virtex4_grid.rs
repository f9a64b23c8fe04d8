use prjcombine::grid::{ColId, RowId};
use prjcombine::tile::{GridTile, SpanTile};
use prjcombine::virtex4::chip::{CfgRowKind, Chip, ChipKind, ColumnKind, RegId};
use prjcombine::virtex4::grid_v4::{clock_root, v4_grid, ClockRegion};
use prjcombine::virtex4::grid_v7::v7_clock_root;
use prjcombine::virtex4::sites::v4_sites;

use prjcombine::virtex4::chip::{GtColumn, GtKind};
use ColumnKind::{Bram, Cfg, ClbLL, ClbLM, Dsp, Gt, Io};

fn v4_grid_chip() -> Chip {
    Chip {
        kind: ChipKind::Virtex4,
        columns: vec![Gt, Io, ClbLM, Cfg, ClbLM, Io, Gt],
        cols_vbrk: vec![ColId(2)],
        cols_mgt_buf: vec![],
        cols_qbuf: None,
        col_hard: None,
        cols_io: vec![],
        cols_gt: vec![],
        regs: 2,
        reg_cfg: RegId(1),
        reg_clk: RegId(1),
        rows_cfg: vec![(RowId(0), CfgRowKind::Dcm), (RowId(26), CfgRowKind::Sysmon)],
        holes_ppc: vec![(ColId(4), RowId(4))],
        holes_pcie2: vec![],
        holes_pcie3: vec![],
        has_bram_fx: false,
        has_ps: false,
        has_slr: false,
        has_no_tbuturn: false,
    }
}

fn at(t: &GridTile) -> (&'static str, usize, usize, usize) {
    (t.class, t.col, t.row, t.cells.len())
}

fn count(tiles: &[GridTile], class: &str) -> usize {
    tiles.iter().filter(|t| t.class == class).count()
}

#[test]
fn v4_grid_tiles_of_a_small_die() {
    let c = v4_grid_chip();
    let s = v4_sites(&c, ColId(1), ColId(5), ColId(3));
    let g = v4_grid(&c, ColId(3), ColId(1), ColId(5), &s.int_holes, &s.site_holes, s.row_dcmiob, s.row_iobdcm);
    assert_eq!(g.tiles.len(), 545);
    assert_eq!(at(&g.tiles[0]), ("INT", 0, 0, 1));
    assert_eq!(count(&g.tiles, "INT"), 180);
    assert_eq!(at(&g.tiles[180]), ("INTF", 3, 8, 1));
    assert_eq!(at(&g.tiles[196]), ("CFG", 3, 8, 16));
    assert_eq!(at(&g.tiles[201]), ("DCM", 3, 0, 4));
    assert_eq!(at(&g.tiles[202]), ("CLK_DCM_B", 3, 0, 0));
    assert_eq!(at(&g.tiles[211]), ("SYSMON", 3, 26, 8));
    assert_eq!(at(&g.tiles[212]), ("INTF", 1, 0, 1));
    assert_eq!(at(&g.tiles[213]), ("IO", 1, 0, 1));
    assert_eq!(count(&g.tiles, "IO"), 64 + 6);
    assert_eq!(count(&g.tiles, "CLK_HROW"), 2);
    assert_eq!(count(&g.tiles, "CLK_TERM"), 2);
    assert_eq!(count(&g.tiles, "PPC"), 1);
    assert_eq!(count(&g.tiles, "CLB"), 40);
    assert_eq!(count(&g.tiles, "MGT"), 2);
    assert_eq!(count(&g.tiles, "HCLK_MGT"), 4);
    assert_eq!(count(&g.tiles, "HCLK"), 10);
    assert_eq!(count(&g.tiles, "HCLK_TERM"), 2);
    assert_eq!(count(&g.tiles, "HCLK_MGT_REPEATER"), 2);
    let ppc = g.tiles.iter().find(|t| t.class == "PPC").unwrap();
    assert_eq!(ppc.cells.len(), 62);
    assert_eq!(ppc.cells[24], (12, 4));
    assert_eq!(ppc.cells[48], (5, 4));
    assert_eq!(ppc.cells[61], (11, 27));
    let iob_t = g.tiles.iter().find(|t| t.class == "CLK_IOB_T").unwrap();
    assert_eq!((iob_t.col, iob_t.row), (3, 10));
    let spans: Vec<_> = g.spans.iter().map(|t| (t.class, t.col, t.row, t.south, t.north)).collect();
    assert_eq!(
        spans,
        vec![
            ("HCLK_IOIS_DCI", 1, 8, 2, 3),
            ("HCLK_IOIS_LVDS", 1, 24, 2, 3),
            ("HCLK_IOIS_DCI", 5, 8, 2, 3),
            ("HCLK_IOIS_LVDS", 5, 24, 2, 3),
            ("HCLK_CENTER", 3, 8, 2, 2),
            ("HCLK_CENTER_ABOVE_CFG", 3, 24, 0, 2),
        ]
    );
}

#[test]
fn v4_grid_terminators_and_connections() {
    let c = v4_grid_chip();
    let s = v4_sites(&c, ColId(1), ColId(5), ColId(3));
    let g = v4_grid(&c, ColId(3), ColId(1), ColId(5), &s.int_holes, &s.site_holes, s.row_dcmiob, s.row_iobdcm);
    let terms: Vec<_> = g.terms.iter().map(|t| (t.class, t.col, t.row)).collect();
    assert_eq!(terms.len(), 78);
    assert_eq!(terms[0], ("TERM.S", 0, 0));
    assert_eq!(terms[7], ("TERM.N", 0, 31));
    assert_eq!(terms[14], ("TERM.W", 0, 0));
    assert_eq!(terms[46], ("TERM.E", 6, 0));
    let conns: Vec<_> = g.conns.iter().map(|x| (x.col_a, x.row_a, x.class_a, x.col_b, x.row_b, x.class_b)).collect();
    assert_eq!(conns.len(), 140);
    assert_eq!(conns[0], (4, 5, "PPC.E", 12, 5, "PPC.W"));
    assert_eq!(conns[22], (5, 4, "PPCA.N", 5, 27, "PPCA.S"));
    assert_eq!(conns[27], (10, 4, "PPCB.N", 10, 27, "PPCB.S"));
    assert_eq!(conns[29], (0, 7, "BRKH.N", 0, 8, "BRKH.S"));
    assert_eq!(conns[44], (1, 0, "CLB_BUFFER.E", 2, 0, "CLB_BUFFER.W"));
    assert_eq!(clock_root(&c, ColId(3), ClockRegion::Hclk, ColId(5), RowId(20)), (ColId(4), RowId(24)));
    assert_eq!(clock_root(&c, ColId(3), ClockRegion::Leaf, ColId(5), RowId(20)), (ColId(5), RowId(24)));
    assert_eq!(clock_root(&c, ColId(3), ClockRegion::Hclk, ColId(2), RowId(3)), (ColId(3), RowId(8)));
}

fn v5_grid_chip() -> Chip {
    let mut c = v4_grid_chip();
    c.kind = ChipKind::Virtex5;
    c.columns = vec![Gt, Io, ClbLL, Bram, ClbLM, Cfg, ClbLM, Dsp, Io, Gt];
    c.cols_vbrk = vec![];
    c.cols_mgt_buf = vec![ColId(3)];
    c.regs = 4;
    c.reg_cfg = RegId(2);
    c.reg_clk = RegId(2);
    c.rows_cfg = vec![];
    c.holes_ppc = vec![];
    c.cols_gt = vec![
        GtColumn { col: ColId(0), is_middle: false, regs: vec![Some(GtKind::Gtp), None, Some(GtKind::Gtx), Some(GtKind::Gth)] },
        GtColumn { col: ColId(9), is_middle: false, regs: vec![None, None, None, None] },
    ];
    c
}

#[test]
fn v5_grid_of_a_small_die() {
    let c = v5_grid_chip();
    let s = prjcombine::virtex4::sites::v5_sites(&c, ColId(5));
    let g = prjcombine::virtex4::grid_v5::v5_grid(&c, ColId(5), &s.int_holes, &s.site_holes);
    assert_eq!(g.tiles.len(), 1814);
    assert_eq!(at(&g.tiles[0]), ("INT", 0, 0, 1));
    assert_eq!(at(&g.tiles[1]), ("INTF.DELAY", 0, 0, 1));
    assert_eq!(count(&g.tiles, "INT"), 800);
    assert_eq!(count(&g.tiles, "INTF"), 360);
    assert_eq!(count(&g.tiles, "INTF.DELAY"), 160);
    assert_eq!(count(&g.tiles, "CLBLL"), 80);
    assert_eq!(count(&g.tiles, "CLBLM"), 160);
    assert_eq!(count(&g.tiles, "HCLK_BRAM_MGT"), 4);
    assert_eq!(count(&g.tiles, "IO"), 200);
    assert_eq!(count(&g.tiles, "CLK_HROW"), 4);
    assert_eq!(count(&g.tiles, "HCLK_CMT"), 2);
    assert_eq!(count(&g.tiles, "HCLK"), 40);
    let t = |class: &str| g.tiles.iter().find(|t| t.class == class).map(|t| (t.col, t.row)).unwrap();
    assert_eq!(t("CLK_CMT_B"), (5, 0));
    assert_eq!(t("CLK_CMT_T"), (5, 70));
    assert_eq!(t("CLK_IOB_B"), (5, 10));
    assert_eq!(t("CLK_IOB_T"), (5, 60));
    let spans: Vec<_> = g.spans.iter().map(|t| (t.class, t.col, t.row, t.south, t.north)).collect();
    assert_eq!(spans.len(), 49);
    assert_eq!(spans[0], ("BRAM", 3, 0, 0, 5));
    assert_eq!(spans[16], ("DSP", 7, 0, 0, 5));
    assert_eq!(spans[32], ("CFG", 5, 30, 0, 20));
    assert_eq!(spans[33], ("CMT", 5, 0, 0, 10));
    assert_eq!(spans[34], ("CMT", 5, 70, 0, 10));
    assert_eq!(spans[35], ("HCLK_IOI", 1, 10, 2, 4));
    assert_eq!(spans[39], ("HCLK_IOI_CMT", 5, 10, 0, 2));
    assert_eq!(spans[40], ("HCLK_IOI_BOTCEN", 5, 30, 2, 2));
    assert_eq!(spans[41], ("HCLK_IOI_TOPCEN", 5, 50, 0, 2));
    assert_eq!(spans[42], ("HCLK_CMT_IOI", 5, 70, 2, 2));
    assert_eq!(spans[47], ("GTP", 0, 0, 0, 20));
    assert_eq!(spans[48], ("GTX", 0, 40, 0, 20));
    let terms: Vec<_> = g.terms.iter().map(|t| (t.class, t.col, t.row)).collect();
    assert_eq!(terms.len(), 180);
    assert_eq!(terms[0], ("TERM.S.HOLE", 0, 0));
    assert_eq!(terms[10], ("TERM.N.HOLE", 0, 79));
    assert_eq!(terms[100], ("TERM.E", 9, 0));
    let conns: Vec<_> = g.conns.iter().map(|x| (x.col_a, x.row_a, x.class_a, x.col_b, x.row_b, x.class_b)).collect();
    assert_eq!(conns.len(), 250);
    assert_eq!(conns[0], (0, 78, "MAIN.NHOLE.N", 0, 79, "MAIN.NHOLE.S"));
    assert_eq!(conns[10], (1, 0, "INT_BUFS.E", 2, 0, "INT_BUFS.W"));
}

fn v7_grid_chip() -> Chip {
    let mut c = v4_grid_chip();
    c.kind = ChipKind::Virtex7;
    c.columns = vec![
        Bram,
        ClbLL,
        ClbLM,
        Dsp,
        ClbLL,
        ClbLL,
        Cfg,
        ColumnKind::Clk,
        ClbLL,
        ColumnKind::Cmt,
        Io,
        ClbLM,
    ];
    c.cols_vbrk = vec![];
    c.cols_mgt_buf = vec![];
    c.cols_gt = vec![];
    c.rows_cfg = vec![];
    c.holes_ppc = vec![];
    c.regs = 3;
    c.reg_cfg = RegId(1);
    c.reg_clk = RegId(2);
    c.cols_io = vec![prjcombine::virtex4::chip::IoColumn {
        col: ColId(10),
        regs: vec![
            Some(prjcombine::virtex4::chip::IoKind::Hrio),
            None,
            Some(prjcombine::virtex4::chip::IoKind::Hpio),
        ],
    }];
    c
}

#[test]
fn v7_grid_of_a_small_die() {
    let c = v7_grid_chip();
    let (ints, site) = prjcombine::virtex4::sites::v7_block_holes(&c, 6, 7);
    assert_eq!(ints.len(), 1);
    assert_eq!(site.len(), 1);
    let g = prjcombine::virtex4::grid_v7::v7_grid(&c, ColId(6), ColId(7), &ints, &site);
    assert_eq!(g.tiles.len(), 3021);
    assert_eq!(at(&g.tiles[0]), ("INT", 0, 100, 1));
    assert_eq!(at(&g.tiles[1]), ("INTF_BRAM", 0, 100, 1));
    assert_eq!(count(&g.tiles, "INT"), 1200);
    assert_eq!(count(&g.tiles, "INTF_BRAM"), 50);
    assert_eq!(count(&g.tiles, "INTF"), 650);
    assert_eq!(count(&g.tiles, "CLBLL"), 300);
    assert_eq!(count(&g.tiles, "CLBLM"), 200);
    assert_eq!(count(&g.tiles, "PMVBRAM_NC"), 0);
    assert_eq!(count(&g.tiles, "HCLK"), 12);
    assert_eq!(count(&g.tiles, "INT_LCLK"), 600);
    let t = |class: &str| g.tiles.iter().find(|t| t.class == class).map(|t| (t.col, t.row)).unwrap();
    assert_eq!(t("IO_HR_S"), (10, 0));
    assert_eq!(t("IO_HR_N"), (10, 49));
    assert_eq!(t("IO_HP_S"), (10, 100));
    assert_eq!(t("IO_HP_N"), (10, 149));
    assert_eq!(t("CLK_PMV"), (7, 54));
    assert_eq!(t("CLK_PMVIOB"), (7, 67));
    assert_eq!(t("CLK_PMV2_SVT"), (7, 82));
    assert_eq!(t("CLK_PMV2"), (7, 91));
    assert_eq!(t("CLK_MTBF2"), (7, 95));
    let lclk = g.tiles.iter().find(|t| t.class == "INT_LCLK").unwrap();
    assert_eq!(lclk.cells, vec![(0, 100), (1, 100)]);
    let spans: Vec<_> = g.spans.iter().map(|t| (t.class, t.col, t.row, t.south, t.north)).collect();
    assert_eq!(spans.len(), 98);
    assert_eq!(spans[0], ("CFG", 6, 0, 0, 50));
    assert_eq!(spans[1], ("SYSMON", 6, 75, 0, 25));
    assert_eq!(spans[2], ("BRAM", 0, 100, 0, 5));
    assert_eq!(spans[7], ("BRAM", 0, 125, 0, 5));
    assert_eq!(spans[8], ("PMVBRAM", 0, 125, 0, 15));
    assert_eq!(spans[11], ("BRAM", 0, 140, 0, 5));
    assert_eq!(spans[12], ("DSP", 3, 100, 0, 5));
    assert_eq!(spans[21], ("DSP", 3, 145, 0, 5));
    assert_eq!(spans[22], ("IO_HR_PAIR", 10, 1, 0, 2));
    assert_eq!(spans[34], ("IO_HR_PAIR", 10, 25, 0, 2));
    assert_eq!(spans[35], ("HCLK_IO_HR", 10, 25, 4, 8));
    assert_eq!(spans[60], ("HCLK_IO_HP", 10, 125, 4, 8));
    assert_eq!(spans[71], ("IO_HP_PAIR", 10, 147, 0, 2));
    assert_eq!(spans[72], ("CMT", 9, 25, 25, 50));
    assert_eq!(spans[73], ("CMT_FIFO", 9, 1, 0, 12));
    assert_eq!(spans[76], ("CMT_FIFO", 9, 37, 0, 12));
    assert_eq!(spans[86], ("CMT_FIFO", 9, 137, 0, 12));
    assert_eq!(spans[87], ("CLK_BUFG_REBUF", 7, 12, 0, 2));
    assert_eq!(spans[88], ("CLK_HROW", 7, 25, 1, 2));
    assert_eq!(spans[89], ("CLK_BUFG_REBUF", 7, 36, 0, 2));
    assert_eq!(spans[95], ("CLK_BUFG_REBUF", 7, 136, 0, 2));
    assert_eq!(spans[96], ("CLK_BUFG", 7, 96, 0, 4));
    assert_eq!(spans[97], ("CLK_BUFG", 7, 100, 0, 4));
    let terms: Vec<_> = g.terms.iter().map(|t| (t.class, t.col, t.row)).collect();
    assert_eq!(terms.len(), 224);
    assert_eq!(terms[0], ("TERM_S", 0, 100));
    assert_eq!(terms[5], ("TERM_S", 5, 100));
    assert_eq!(terms[6], ("TERM_S", 6, 0));
    assert_eq!(terms[12], ("TERM_N", 0, 149));
    assert_eq!(terms[24], ("TERM_W", 0, 100));
    assert_eq!(terms[74], ("TERM_E", 11, 0));
    assert_eq!(terms[223], ("TERM_E", 11, 149));
    let conns: Vec<_> = g.conns.iter().map(|x| (x.col_a, x.row_a, x.class_a, x.col_b, x.row_b, x.class_b)).collect();
    assert_eq!(conns.len(), 2238);
    assert_eq!(conns[0], (6, 49, "BRKH_N", 6, 50, "BRKH_S"));
    assert_eq!(conns[6], (6, 99, "BRKH_N", 6, 100, "BRKH_S"));
    assert_eq!(conns[12], (6, 0, "PASS_E", 7, 0, "PASS_W"));
    assert_eq!(conns[16], (10, 0, "PASS_E", 11, 0, "PASS_W"));
    assert_eq!(conns[512], (0, 100, "PASS_E", 1, 100, "PASS_W"));
    assert_eq!(conns[1061], (10, 149, "PASS_E", 11, 149, "PASS_W"));
    assert_eq!(conns[1062], (0, 100, "PASS_N", 0, 101, "PASS_S"));
    assert_eq!(conns[1356], (6, 0, "PASS_N", 6, 1, "PASS_S"));
    assert_eq!(conns[1404], (6, 48, "PASS_N", 6, 49, "PASS_S"));
    assert_eq!(conns[1405], (6, 50, "PASS_N", 6, 51, "PASS_S"));
    assert_eq!(conns[2237], (11, 148, "PASS_N", 11, 149, "PASS_S"));
}

#[test]
fn v7_clock_roots() {
    assert_eq!(v7_clock_root(ColId(8), ClockRegion::Hclk, ColId(9), RowId(60)), (ColId(8), RowId(75)));
    assert_eq!(v7_clock_root(ColId(8), ClockRegion::Leaf, ColId(9), RowId(60)), (ColId(8), RowId(74)));
    assert_eq!(v7_clock_root(ColId(8), ClockRegion::Hclk, ColId(10), RowId(130)), (ColId(9), RowId(125)));
    assert_eq!(v7_clock_root(ColId(8), ClockRegion::Leaf, ColId(10), RowId(130)), (ColId(10), RowId(125)));
}

fn small_v7_die(cols: usize, no_tbuturn: bool) -> Chip {
    let mut c = v7_grid_chip();
    c.columns = vec![ClbLL; cols];
    c.regs = 1;
    c.cols_io = vec![];
    c.has_no_tbuturn = no_tbuturn;
    c
}

#[test]
fn v7_blackhole_cells_at_die_edges() {
    let chips = vec![small_v7_die(2, true), small_v7_die(3, false)];
    let cells = prjcombine::virtex4::grid_v7::v7_blackhole_cells_of(&chips);
    assert_eq!(cells.len(), 24);
    assert_eq!(cells[0], (prjcombine::grid::DieId(0), ColId(0), RowId(0)));
    assert_eq!(cells[5], (prjcombine::grid::DieId(0), ColId(0), RowId(5)));
    assert_eq!(cells[6], (prjcombine::grid::DieId(0), ColId(0), RowId(44)));
    assert_eq!(cells[11], (prjcombine::grid::DieId(0), ColId(0), RowId(49)));
    assert_eq!(cells[12], (prjcombine::grid::DieId(0), ColId(1), RowId(0)));
    assert_eq!(cells[23], (prjcombine::grid::DieId(0), ColId(1), RowId(49)));
}

#[test]
fn v7_wires_across_dies_skip_holes() {
    let chips = vec![small_v7_die(2, false), small_v7_die(2, false)];
    let r = |w: usize, e: usize, s: usize, n: usize| prjcombine::grid::Rect {
        col_w: ColId(w),
        col_e: ColId(e),
        row_s: RowId(s),
        row_n: RowId(n),
    };
    let holes = vec![vec![r(0, 1, 0, 50)], vec![r(1, 2, 10, 20)]];
    let w = prjcombine::virtex4::grid_v7::v7_xdie_wires_of(&chips, &holes);
    let d = prjcombine::grid::DieId;
    assert_eq!(w.len(), 39);
    assert_eq!(w[0], ((d(1), ColId(1), RowId(1)), (d(0), ColId(1), RowId(0))));
    assert_eq!(w[9], ((d(1), ColId(1), RowId(20)), (d(0), ColId(1), RowId(19))));
    assert_eq!(w[38], ((d(1), ColId(1), RowId(49)), (d(0), ColId(1), RowId(48))));
    let one = prjcombine::virtex4::grid_v7::v7_xdie_wires_of(&chips[..1].to_vec(), &holes[..1].to_vec());
    assert!(one.is_empty());
}

#[test]
fn v7_main_passes_join_neighbouring_interconnect_cells() {
    let term = |class: &'static str, col: usize, row: usize| prjcombine::tile::GridTerm { class, col, row };
    let terms = vec![term("TERM_E", 1, 0), term("TERM_W", 2, 1)];
    let p = prjcombine::virtex4::grid_v7::v7_main_passes(3, 2, &vec![], &terms, &vec![]);
    let p: Vec<_> = p.iter().map(|x| (x.col_a, x.row_a, x.class_a, x.col_b, x.row_b, x.class_b)).collect();
    assert_eq!(
        p,
        vec![
            (0, 0, "PASS_E", 1, 0, "PASS_W"),
            (0, 1, "PASS_E", 1, 1, "PASS_W"),
            (0, 0, "PASS_N", 0, 1, "PASS_S"),
            (1, 0, "PASS_N", 1, 1, "PASS_S"),
            (2, 0, "PASS_N", 2, 1, "PASS_S"),
        ]
    );
    let hole = prjcombine::grid::Rect { col_w: ColId(1), col_e: ColId(2), row_s: RowId(1), row_n: RowId(2) };
    let brk = prjcombine::tile::GridConn { col_a: 0, row_a: 0, class_a: "BRKH_N", col_b: 0, row_b: 1, class_b: "BRKH_S" };
    let q = prjcombine::virtex4::grid_v7::v7_main_passes(3, 2, &vec![hole], &terms, &vec![brk]);
    let q: Vec<_> = q.iter().map(|x| (x.col_a, x.row_a, x.class_a, x.col_b, x.row_b, x.class_b)).collect();
    assert_eq!(q, vec![(0, 0, "PASS_E", 1, 0, "PASS_W"), (2, 0, "PASS_N", 2, 1, "PASS_S")]);
}

#[test]
fn v7_vivado_cursed_cells_need_tiles_on_both_sides() {
    let tile = |col: usize, row: usize| GridTile { class: "INT", col, row, cells: vec![(col, row)] };
    let span = |col: usize, row: usize| SpanTile { class: "BRAM", col, row, south: 0, north: 5 };
    let g0 = prjcombine::virtex4::grid_v4::DieGrid {
        tiles: vec![tile(0, 0), tile(1, 3)],
        spans: vec![span(2, 0)],
        terms: vec![],
        conns: vec![],
    };
    let g1 = prjcombine::virtex4::grid_v4::DieGrid {
        tiles: vec![tile(0, 1), tile(1, 1)],
        spans: vec![span(2, 1)],
        terms: vec![],
        conns: vec![],
    };
    let chips = vec![small_v7_die(3, false), small_v7_die(3, false)];
    let cells = prjcombine::virtex4::grid_v7::v7_vivado_cursed_cells_of(&chips, &vec![g0, g1]);
    let d = prjcombine::grid::DieId;
    assert_eq!(cells, vec![(d(0), ColId(0), RowId(0)), (d(0), ColId(2), RowId(0))]);
}
