use prjcombine::grid::{ColId, DieId, DirH, RowId};
use prjcombine::virtex4::bond::{pad_sort_key, Bond, BondPad, CfgPad};
use prjcombine::virtex4::chip::{
    CfgRowKind, Chip, ChipKind, ColumnKind, DisabledPart, GtColumn, GtKind, HardColumn, Interposer, IoColumn, IoKind,
    Pcie2, RegId, XadcIoLoc,
};

fn chip(kind: ChipKind, columns: Vec<ColumnKind>, regs: usize, reg_cfg: usize) -> Chip {
    Chip {
        kind,
        columns,
        cols_vbrk: vec![],
        cols_mgt_buf: vec![],
        cols_qbuf: None,
        col_hard: None,
        cols_io: vec![],
        cols_gt: vec![],
        regs,
        reg_cfg: RegId(reg_cfg),
        reg_clk: RegId(reg_cfg),
        rows_cfg: vec![],
        holes_ppc: vec![],
        holes_pcie2: vec![],
        holes_pcie3: vec![],
        has_bram_fx: false,
        has_ps: false,
        has_slr: false,
        has_no_tbuturn: false,
    }
}

#[test]
fn regions_and_rows() {
    let c = chip(ChipKind::Virtex5, vec![ColumnKind::ClbLL], 4, 2);
    assert_eq!(c.rows_per_reg(), 20);
    assert_eq!(c.row_to_reg(RowId(45)), RegId(2));
    assert_eq!(c.row_reg_bot(RegId(2)), RowId(40));
    assert_eq!(c.row_reg_hclk(RegId(2)), RowId(50));
    assert_eq!(c.row_hclk(RowId(45)), RowId(50));
    assert_eq!(c.regs(), vec![RegId(0), RegId(1), RegId(2), RegId(3)]);
    assert_eq!(c.rows().len(), 80);
    assert_eq!(c.row_bufg(), RowId(40));
    let c = chip(ChipKind::Virtex7, vec![ColumnKind::ClbLL], 3, 1);
    assert_eq!(c.rows_per_reg(), 50);
    assert_eq!(c.row_to_reg(RowId(149)), RegId(2));
    assert_eq!(c.col_side(ColId(4)), DirH::W);
    assert_eq!(c.col_side(ColId(5)), DirH::E);
}

#[test]
fn cmt_rows_of_virtex5() {
    let c = chip(ChipKind::Virtex5, vec![ColumnKind::Cfg], 6, 3);
    assert_eq!(
        c.get_cmt_rows(),
        vec![RowId(0), RowId(10), RowId(20), RowId(90), RowId(100), RowId(110)]
    );
    let c = chip(ChipKind::Virtex5, vec![ColumnKind::Cfg], 3, 2);
    assert_eq!(c.get_cmt_rows(), vec![RowId(0)]);
}

#[test]
fn column_descriptions() {
    let mut c = chip(ChipKind::Virtex7, vec![ColumnKind::Io, ColumnKind::ClbLL, ColumnKind::Gt], 2, 1);
    c.cols_io = vec![IoColumn { col: ColId(0), regs: vec![Some(IoKind::Hrio), None] }];
    c.cols_gt = vec![GtColumn { col: ColId(2), is_middle: false, regs: vec![None, Some(GtKind::Gtx)] }];
    assert_eq!(c.get_col_io(ColId(0)).unwrap().regs[0], Some(IoKind::Hrio));
    assert!(c.get_col_io(ColId(1)).is_none());
    assert_eq!(c.get_col_gt(ColId(2)).unwrap().regs[1], Some(GtKind::Gtx));
    assert!(c.get_col_gt(ColId(0)).is_none());
    assert_eq!(c.get_xadc_io_loc(), XadcIoLoc::W);
    c.has_ps = true;
    assert_eq!(c.col_ps(), ColId(18));
    assert_eq!(c.get_xadc_io_loc(), XadcIoLoc::E);
}

#[test]
fn names() {
    assert_eq!(ChipKind::Virtex6.to_string(), "virtex6");
    assert_eq!(ColumnKind::ClbLM.to_string(), "clblm");
    assert_eq!(CfgRowKind::Sysmon.to_string(), "sysmon");
    assert_eq!(GtKind::Gth.to_string(), "gth");
    assert_eq!(IoKind::Hpio.to_string(), "hpio");
    assert_eq!(DisabledPart::Emac(RowId(40)).to_string(), "EMAC:Y40");
    assert_eq!(DisabledPart::GtxRow(RegId(3)).to_string(), "GTX:REG3");
    assert_eq!(DisabledPart::SysMon.to_string(), "SYSMON");
    assert_eq!(BondPad::Io(12, 7).to_string(), "IOB_12_7");
    assert_eq!(BondPad::VccO(34).to_string(), "VCCO34");
}

#[test]
fn v4_chip_text() {
    let mut c = chip(
        ChipKind::Virtex5,
        vec![ColumnKind::Io, ColumnKind::ClbLL, ColumnKind::Cfg, ColumnKind::Gt],
        2,
        1,
    );
    c.cols_vbrk = vec![ColId(1)];
    c.cols_io = vec![IoColumn { col: ColId(0), regs: vec![Some(IoKind::Hpio), None] }];
    c.cols_gt = vec![GtColumn { col: ColId(3), is_middle: false, regs: vec![None, Some(GtKind::Gtx)] }];
    c.rows_cfg = vec![(RowId(30), CfgRowKind::Sysmon)];
    c.col_hard = Some(HardColumn { col: ColId(1), rows_emac: vec![RowId(5)], rows_pcie: vec![] });
    c.holes_ppc = vec![(ColId(1), RowId(0))];
    c.holes_pcie2 = vec![Pcie2 { side: DirH::E, col: ColId(2), row: RowId(25) }];
    c.has_bram_fx = true;
    let expected = [
        "\tkind virtex5;\n",
        "\tcolumns {\n",
        "\t\tio {\n",
        "\t\t\tbank Y0 hpio;\n",
        "\t\t}, // X0\n",
        "\t\t// break\n",
        "\t\tclbll + hard {\n",
        "\t\t\temac Y5;\n",
        "\t\t}, // X1\n",
        "\t\tcfg {\n",
        "\t\t\tsysmon Y30;\n",
        "\t\t}, // X2\n",
        "\t\tgt {\n",
        "\t\t\tgt Y20 gtx;\n",
        "\t\t}, // X3\n",
        "\t}\n",
        "\tcols_vbrk X1;\n",
        "\tregs 2;\n",
        "\treg_cfg REG1\n",
        "\treg_clk REG1\n",
        "\tppc X1:X15 Y0:Y40;\n",
        "\tpcie2 E X2:X6 Y25:Y50;\n",
        "\thas_bram_fx;\n",
    ]
    .join("");
    assert_eq!(c.dump(), expected);
}

#[test]
fn interposer_text() {
    let i = Interposer { primary: DieId(1), gtz_bot: false, gtz_top: true };
    assert_eq!(i.dump(), "\tprimary D1;\n\tgtz_top;\n");
}

#[test]
fn v4_sort_key_of_pins() {
    assert_eq!(pad_sort_key("AA12"), (2, "AA", 12));
    assert_eq!(pad_sort_key("B3"), (1, "B", 3));
}

#[test]
fn v4_bond_text_is_sorted_by_pin_key() {
    let bond = Bond {
        pins: vec![
            ("AA1".to_string(), BondPad::Gnd),
            ("B10".to_string(), BondPad::Io(0, 3)),
            ("B9".to_string(), BondPad::Cfg(CfgPad::Done)),
            ("C2".to_string(), BondPad::Nc),
        ],
    };
    assert_eq!(
        bond.dump(),
        "\tPINS:\n\t\tB9  : DONE\n\t\tB10 : IOB_0_3\n\t\tC2  : NC\n\t\tAA1 : GND\n"
    );
}

#[test]
fn v4_bond_expand_maps_ios_to_pins() {
    let bond = Bond {
        pins: vec![
            ("A1".to_string(), BondPad::Io(12, 0)),
            ("A2".to_string(), BondPad::Gnd),
            ("A3".to_string(), BondPad::Io(12, 1)),
        ],
    };
    let eb = bond.expand();
    assert_eq!(eb.ios.get(&(12, 0)), Some(&"A1".to_string()));
    assert_eq!(eb.ios.get(&(12, 1)), Some(&"A3".to_string()));
    assert_eq!(eb.ios.len(), 2);
}

#[test]
fn v4_bond_expand_keeps_the_greatest_name() {
    let bond = Bond {
        pins: vec![
            ("A1".to_string(), BondPad::Io(12, 0)),
            ("A2".to_string(), BondPad::Io(12, 0)),
            ("A3".to_string(), BondPad::Gnd),
        ],
    };
    let eb = bond.expand();
    assert_eq!(eb.ios.get(&(12, 0)), Some(&"A2".to_string()));
    assert_eq!(eb.ios.len(), 1);
}

#[test]
fn v4_bond_pin_order_check() {
    let bond = Bond {
        pins: vec![
            ("A1".to_string(), BondPad::Io(12, 0)),
            ("A10".to_string(), BondPad::Gnd),
            ("A2".to_string(), BondPad::Io(12, 1)),
        ],
    };
    assert!(bond.check_pins_ascending());
    let bond = Bond {
        pins: vec![("B1".to_string(), BondPad::Gnd), ("A9".to_string(), BondPad::Nc)],
    };
    assert!(!bond.check_pins_ascending());
}

#[test]
fn row_hclk_stays_in_its_region() {
    for kind in [ChipKind::Virtex4, ChipKind::Virtex5, ChipKind::Virtex6, ChipKind::Virtex7] {
        let c = chip(kind, vec![ColumnKind::ClbLL], 3, 1);
        let rpr = c.rows_per_reg();
        for r in 0..3 * rpr {
            let h = c.row_hclk(RowId(r));
            assert_eq!(c.row_hclk(h), h);
            assert_eq!(c.row_to_reg(h), c.row_to_reg(RowId(r)));
            assert_eq!(h.0 % rpr, rpr / 2);
        }
    }
}
