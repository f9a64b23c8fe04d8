use prjcombine::grid::{ColId, DieId, DirV, RowId, TileIobId};
use prjcombine::virtex4::bond::SharedCfgPad;
use prjcombine::virtex4::chip::{Chip, ChipKind, ColumnKind, GtColumn, GtKind, RegId};
use prjcombine::virtex4::device::{die_order, v4_cfg_io, v4_cols, v5_cfg_io, v5_cols, v7_banklut, v7_cfg_io, v7_cols};
use prjcombine::virtex4::expanded::IoCoord;
use prjcombine::virtex4::gtz::{get_gtz_cols, GtzBel, GtzClkPin, GtzDb, GtzIntColId, GtzIntPin, GtzIntRowId, PinDir};

fn chip(kind: ChipKind, columns: Vec<ColumnKind>, regs: usize, reg_cfg: usize) -> Chip {
    Chip {
        kind,
        columns,
        cols_vbrk: vec![],
        cols_mgt_buf: vec![],
        cols_qbuf: None,
        col_hard: None,
        cols_io: vec![],
        cols_gt: vec![],
        regs,
        reg_cfg: RegId(reg_cfg),
        reg_clk: RegId(reg_cfg),
        rows_cfg: vec![],
        holes_ppc: vec![],
        holes_pcie2: vec![],
        holes_pcie3: vec![],
        has_bram_fx: false,
        has_ps: false,
        has_slr: false,
        has_no_tbuturn: false,
    }
}

fn gt(col: usize) -> GtColumn {
    GtColumn { col: ColId(col), is_middle: false, regs: vec![Some(GtKind::Gtx)] }
}

fn io(die: usize, col: usize, row: usize, iob: usize) -> IoCoord {
    IoCoord { die: DieId(die), col: ColId(col), row: RowId(row), iob: TileIobId(iob) }
}

use ColumnKind::{Bram, Cfg, ClbLL, ClbLM, Clk, Dsp, Gt, Io};

#[test]
fn gtz_columns_skip_the_configuration_neighbours() {
    let c = chip(
        ChipKind::Virtex7,
        vec![ClbLL, ClbLM, Bram, ClbLL, ClbLM, ClbLL, ClbLL, ClbLL, ClbLL, Cfg, Clk, ClbLL, Dsp, ClbLM],
        1,
        0,
    );
    assert_eq!(get_gtz_cols(&c, 1, 2), vec![ColId(1), ColId(11), ColId(13)]);
    assert_eq!(get_gtz_cols(&c, 0, 1), vec![ColId(11)]);
}

#[test]
fn gtz_database_text() {
    let db = GtzDb {
        gtz: vec![(
            "GTZ_BOT".to_string(),
            GtzBel {
                side: DirV::S,
                pins: vec![(
                    "A".to_string(),
                    GtzIntPin { dir: PinDir::Input, col: GtzIntColId(3), row: GtzIntRowId(4) },
                )],
                clk_pins: vec![("C".to_string(), GtzClkPin { dir: PinDir::Output, idx: 2 })],
            },
        )],
    };
    assert_eq!(db.dump(), "gtz GTZ_BOT: S {\n\tinput A = INT GTZC3 GTZR4;\n\toutput C = GCLK2;\n}\n\n");
}

#[test]
fn special_columns_v4() {
    let mut c = chip(ChipKind::Virtex4, vec![Gt, Io, ClbLM, Cfg, ClbLM, Io, Gt], 2, 1);
    c.cols_gt = vec![gt(0), gt(6)];
    let cols = v4_cols(&c);
    assert_eq!(cols.col_cfg, ColId(3));
    assert_eq!(cols.col_clk, ColId(3));
    assert_eq!(cols.col_lio, Some(ColId(1)));
    assert_eq!(cols.col_rio, Some(ColId(5)));
    assert_eq!(cols.col_lgt, Some(ColId(0)));
    assert_eq!(cols.col_rgt, Some(ColId(6)));
    assert_eq!(cols.col_mgt, None);
}

#[test]
fn special_columns_v5() {
    let c = chip(ChipKind::Virtex5, vec![Io, ClbLL, Cfg, ClbLL], 2, 1);
    let cols = v5_cols(&c);
    assert_eq!(cols.col_cfg, ColId(2));
    assert_eq!(cols.col_lio, Some(ColId(0)));
    assert_eq!(cols.col_rio, None);
    assert_eq!(cols.col_lgt, None);
}

#[test]
fn special_columns_v7() {
    let mut c = chip(ChipKind::Virtex7, vec![Gt, ClbLL, Io, Cfg, Clk, Io, ClbLL, Gt], 2, 1);
    c.cols_gt = vec![gt(0), gt(7)];
    let cols = v7_cols(&c);
    assert_eq!(cols.col_cfg, ColId(3));
    assert_eq!(cols.col_clk, ColId(4));
    assert_eq!(cols.col_lio, Some(ColId(2)));
    assert_eq!(cols.col_rio, Some(ColId(5)));
    assert_eq!(cols.col_lgt, Some(ColId(0)));
    assert_eq!(cols.col_rgt, Some(ColId(7)));
    assert_eq!(cols.col_mgt, None);
    c.cols_gt = vec![gt(2), gt(5)];
    let cols = v7_cols(&c);
    assert_eq!(cols.col_mgt, Some((ColId(2), ColId(5))));
    assert_eq!(cols.col_lgt, None);
    assert_eq!(cols.col_rgt, None);
}

#[test]
fn configuration_ios_v4() {
    let c = chip(ChipKind::Virtex4, vec![Cfg], 4, 2);
    let t = v4_cfg_io(&c, ColId(0));
    assert_eq!(t.len(), 32);
    assert_eq!(t[0], (SharedCfgPad::Data(0), io(0, 0, 16, 0)));
    assert_eq!(t[1], (SharedCfgPad::Data(1), io(0, 0, 16, 1)));
    assert_eq!(t[15], (SharedCfgPad::Data(15), io(0, 0, 23, 1)));
    assert_eq!(t[16], (SharedCfgPad::Data(16), io(0, 0, 40, 0)));
    assert_eq!(t[31], (SharedCfgPad::Data(31), io(0, 0, 47, 1)));
}

#[test]
fn configuration_ios_v5() {
    let c = chip(ChipKind::Virtex5, vec![Cfg], 4, 2);
    let t = v5_cfg_io(&c, ColId(7));
    assert_eq!(t.len(), 48);
    assert_eq!(t[0], (SharedCfgPad::Data(8), io(0, 7, 16, 0)));
    assert_eq!(t[16], (SharedCfgPad::CsoB, io(0, 7, 24, 0)));
    assert_eq!(t[47], (SharedCfgPad::Addr(19), io(0, 7, 59, 1)));
}

#[test]
fn configuration_ios_v7() {
    let mut c = chip(ChipKind::Virtex7, vec![Io, Cfg, Io], 3, 1);
    let t = v7_cfg_io(&c, DieId(1), Some(ColId(0)), Some(ColId(2)));
    assert_eq!(t.len(), 56);
    assert_eq!(t[0], (SharedCfgPad::Data(16), io(1, 0, 1, 0)));
    assert_eq!(t[33], (SharedCfgPad::PudcB, io(1, 0, 43, 1)));
    assert_eq!(t[55], (SharedCfgPad::AdvB, io(1, 0, 69, 0)));
    c.has_ps = true;
    let t = v7_cfg_io(&c, DieId(1), None, Some(ColId(2)));
    assert_eq!(t, vec![(SharedCfgPad::PudcB, io(1, 2, 43, 1))]);
}

#[test]
fn bank_numbers_and_die_order() {
    let chips = vec![
        chip(ChipKind::Virtex7, vec![Cfg], 2, 1),
        chip(ChipKind::Virtex7, vec![Cfg], 3, 1),
        chip(ChipKind::Virtex7, vec![Cfg], 1, 0),
    ];
    assert_eq!(v7_banklut(&chips, 1), vec![13, 15, 18]);
    assert_eq!(die_order(3, 1), vec![DieId(1), DieId(0), DieId(2)]);
    assert_eq!(die_order(1, 0), vec![DieId(0)]);
}

#[test]
fn gtz_database_names_check() {
    let bel = |side: DirV| GtzBel { side, pins: vec![], clk_pins: vec![] };
    let db = GtzDb { gtz: vec![("GTZ_BOT".to_string(), bel(DirV::S)), ("GTZ_TOP".to_string(), bel(DirV::N))] };
    assert!(db.check_names_distinct());
    let db = GtzDb {
        gtz: vec![
            ("GTZ_BOT".to_string(), bel(DirV::S)),
            ("GTZ_TOP".to_string(), bel(DirV::N)),
            ("GTZ_BOT".to_string(), bel(DirV::N)),
        ],
    };
    assert!(!db.check_names_distinct());
    assert!(GtzDb { gtz: vec![] }.check_names_distinct());
}
