use prjcombine::bitstream::FrameAddr;
use prjcombine::grid::{ColId, DieId, DirH, DirHV, DirV, EdgeIoCoord, RowId, TileIobId};
use prjcombine::xc2000::bels::{BelCoord, BelSlot, TileCoord, TileSlot};
use prjcombine::xc2000::bond::{pad_sort_key, Bond, BondPad, CfgPad};
use prjcombine::xc2000::chip::{Chip, ChipKind, SharedCfgPad};
use prjcombine::xc2000::expanded::BitRect;

fn chip(kind: ChipKind, columns: usize, rows: usize) -> Chip {
    Chip {
        kind,
        columns,
        rows,
        is_small: false,
        is_buff_large: false,
        cols_bidi: vec![],
        rows_bidi: vec![],
        cfg_io: vec![],
        unbonded_io: vec![],
    }
}

fn n(c: usize, i: usize) -> EdgeIoCoord {
    EdgeIoCoord::N(ColId(c), TileIobId(i))
}
fn e(r: usize, i: usize) -> EdgeIoCoord {
    EdgeIoCoord::E(RowId(r), TileIobId(i))
}
fn s(c: usize, i: usize) -> EdgeIoCoord {
    EdgeIoCoord::S(ColId(c), TileIobId(i))
}
fn w(r: usize, i: usize) -> EdgeIoCoord {
    EdgeIoCoord::W(RowId(r), TileIobId(i))
}

#[test]
fn kind_families() {
    assert!(ChipKind::Xc3000A.is_xc3000());
    assert!(!ChipKind::Xc4000.is_xc3000());
    assert!(ChipKind::SpartanXl.is_xc4000());
    assert!(!ChipKind::Xc5200.is_xc4000());
    assert!(ChipKind::Xc4000Xla.is_xl());
    assert!(!ChipKind::SpartanXl.is_xl());
    assert!(ChipKind::SpartanXl.is_clb_xl());
    assert!(!ChipKind::Xc4000E.is_clb_xl());
}

#[test]
fn kind_and_pad_names() {
    assert_eq!(ChipKind::Xc4000Ex.to_string(), "xc4000ex");
    assert_eq!(ChipKind::SpartanXl.to_string(), "spartanxl");
    assert_eq!(SharedCfgPad::Addr(3).to_string(), "A3");
    assert_eq!(SharedCfgPad::Data(17).to_string(), "D17");
    assert_eq!(SharedCfgPad::RclkB.to_string(), "RCLK_B");
    assert_eq!(CfgPad::ProgB.to_string(), "PROG_B");
    assert_eq!(BondPad::VccInt.to_string(), "VCCINT");
    assert_eq!(BondPad::Cfg(CfgPad::Done).to_string(), "DONE");
}

#[test]
fn edges_and_middles() {
    let c = chip(ChipKind::Xc4000E, 10, 12);
    assert_eq!(c.col_w(), ColId(0));
    assert_eq!(c.col_e(), ColId(9));
    assert_eq!(c.col_mid(), ColId(5));
    assert_eq!(c.row_s(), RowId(0));
    assert_eq!(c.row_n(), RowId(11));
    assert_eq!(c.row_mid(), RowId(6));
    assert_eq!(c.col_edge(DirH::E), ColId(9));
    assert_eq!(c.row_edge(DirV::N), RowId(11));
    assert_eq!(c.col_q(DirH::W), ColId(3));
    assert_eq!(c.col_q(DirH::E), ColId(7));
    assert_eq!(c.row_q(DirV::S), RowId(3));
    assert_eq!(c.row_q(DirV::N), RowId(9));
    assert_eq!(c.col_side_of_mid(ColId(4)), DirH::W);
    assert_eq!(c.col_side_of_mid(ColId(5)), DirH::E);
    assert_eq!(c.row_side_of_mid(RowId(5)), DirV::S);
    assert_eq!(c.row_side_of_mid(RowId(6)), DirV::N);
    assert_eq!(c.columns().len(), 10);
    assert_eq!(c.rows()[11], RowId(11));
    let corner = c.corner(DirHV { h: DirH::E, v: DirV::N });
    assert_eq!(corner, TileCoord { die: DieId(0), col: ColId(9), row: RowId(11), slot: TileSlot::Main });
}

#[test]
fn io_coordinates_round_trip() {
    let c = chip(ChipKind::Xc4000E, 10, 12);
    let bel = c.get_io_loc(e(4, 1));
    assert_eq!(bel, BelCoord { die: DieId(0), col: ColId(9), row: RowId(4), slot: BelSlot::Io(1) });
    assert_eq!(c.get_io_crd(bel), e(4, 1));
    let bel = c.get_io_loc(n(3, 0));
    assert_eq!(bel.row, RowId(11));
    assert_eq!(c.get_io_crd(bel), n(3, 0));

    let c = chip(ChipKind::Xc2000, 6, 6);
    let bel = c.get_io_loc(w(2, 1));
    assert_eq!(bel, BelCoord { die: DieId(0), col: ColId(0), row: RowId(2), slot: BelSlot::IoW(1) });
    assert_eq!(c.get_io_crd(bel), w(2, 1));

    let c = chip(ChipKind::Xc4000H, 6, 6);
    let bel = c.get_io_loc(s(2, 3));
    assert_eq!(bel.slot, BelSlot::Hio(3));
    assert_eq!(c.get_io_crd(bel), s(2, 3));
}

#[test]
fn bonded_ios_xc2000() {
    let c = chip(ChipKind::Xc2000, 2, 4);
    let ios = c.get_bonded_ios();
    let expected = vec![
        n(0, 0),
        n(0, 1),
        n(1, 0),
        n(1, 1),
        e(3, 1),
        e(2, 0),
        e(2, 1),
        e(1, 1),
        e(0, 0),
        s(1, 1),
        s(1, 0),
        s(0, 1),
        s(0, 0),
        w(0, 0),
        w(1, 1),
        w(2, 1),
        w(2, 0),
        w(3, 1),
    ];
    assert_eq!(ios, expected);
}

#[test]
fn bonded_ios_xc4000() {
    let c = chip(ChipKind::Xc4000E, 3, 3);
    let ios = c.get_bonded_ios();
    assert_eq!(ios, vec![n(1, 0), n(1, 1), e(1, 0), e(1, 1), s(1, 1), s(1, 0), w(1, 1), w(1, 0)]);
    let c = chip(ChipKind::Xc5200, 3, 3);
    let ios = c.get_bonded_ios();
    assert_eq!(ios.len(), 16);
    assert_eq!(ios[0], n(1, 3));
    assert_eq!(ios[15], w(1, 3));
}

#[test]
fn bit_tile_sizes() {
    let c = chip(ChipKind::Xc4000Ex, 10, 10);
    assert_eq!(c.btile_height_main(RowId(0)), 16);
    assert_eq!(c.btile_height_main(RowId(9)), 8);
    assert_eq!(c.btile_height_main(RowId(4)), 12);
    assert_eq!(c.btile_height_clk(), 2);
    assert_eq!(c.btile_height_brk(), 2);
    assert_eq!(c.btile_width_main(ColId(0)), 27);
    assert_eq!(c.btile_width_main(ColId(9)), 52);
    assert_eq!(c.btile_width_main(ColId(3)), 47);
    assert_eq!(c.btile_width_clk(), 2);
    assert_eq!(c.btile_width_brk(), 1);
    let c = chip(ChipKind::Xc2000, 4, 4);
    assert_eq!(c.btile_height_brk(), 1);
    assert_eq!(c.btile_width_brk(), 2);
}

#[test]
fn bufg_bels() {
    let c = chip(ChipKind::Xc4000E, 10, 12);
    let b = c.bel_bufg(0);
    assert_eq!(b, BelCoord { die: DieId(0), col: ColId(0), row: RowId(11), slot: BelSlot::BufgV });
    let b = c.bel_bufg(3);
    assert_eq!(b, BelCoord { die: DieId(0), col: ColId(9), row: RowId(0), slot: BelSlot::BufgH });
}

#[test]
fn buff_io_bels() {
    let mut c = chip(ChipKind::Xc4000Ex, 10, 12);
    let b = c.bel_buff_io(DirHV { h: DirH::W, v: DirV::S });
    assert_eq!(b, BelCoord { die: DieId(0), col: ColId(0), row: RowId(3), slot: BelSlot::Io(1) });
    c.is_buff_large = true;
    let b = c.bel_buff_io(DirHV { h: DirH::E, v: DirV::N });
    assert_eq!(b, BelCoord { die: DieId(0), col: ColId(9), row: RowId(7), slot: BelSlot::Io(0) });
}

#[test]
fn frame_layout_xc4000e() {
    let c = chip(ChipKind::Xc4000E, 4, 4);
    let edev = c.expand_grid();
    assert_eq!(edev.row_framebit, vec![0, 13, 24, 34]);
    assert_eq!(edev.llv_framebit, vec![None, None, Some(23), None]);
    assert_eq!(edev.frame_len, 41);
    assert_eq!(edev.col_frame, vec![114, 78, 41, 0]);
    assert_eq!(edev.llh_frame, vec![None, None, Some(77), None]);
    assert_eq!(edev.frame_info.len(), 140);
    assert_eq!(edev.frame_info[77], FrameAddr { typ: 0, region: 0, major: 0, minor: 77 });
    assert_eq!(
        edev.btile_main(ColId(1), RowId(2)),
        BitRect::Main(DieId(0), 78, 36, 24, 10, false)
    );
}

#[test]
fn frame_layout_xc2000_bidi() {
    let mut c = chip(ChipKind::Xc2000, 3, 3);
    c.rows_bidi = vec![RowId(1)];
    c.cols_bidi = vec![ColId(1)];
    let edev = c.expand_grid();
    // rows: 12, then a break bit, then 8, then 9
    assert_eq!(edev.row_framebit, vec![0, 13, 21]);
    assert_eq!(edev.llv_framebit, vec![None, Some(12), None]);
    assert_eq!(edev.frame_len, 30);
    // columns east to west: 27, then 18 and the two break frames, then 21
    assert_eq!(edev.col_frame, vec![47, 27, 0]);
    assert_eq!(edev.llh_frame, vec![None, Some(45), None]);
    assert_eq!(edev.frame_info.len(), 68);
}

#[test]
fn frame_layout_xc5200() {
    let c = chip(ChipKind::Xc5200, 3, 3);
    let edev = c.expand_grid();
    assert_eq!(edev.row_framebit, vec![0, 32, 66]);
    assert_eq!(edev.llv_framebit, vec![None, Some(28), None]);
    assert_eq!(edev.col_frame, vec![21, 8, 0]);
    assert_eq!(edev.llh_frame, vec![None, Some(20), None]);
    assert_eq!(edev.frame_info.len(), 28);
}

#[test]
fn xc2000_sort_key_of_pins() {
    assert_eq!(pad_sort_key("P12"), (1, "P", 12));
    assert_eq!(pad_sort_key("AB7"), (2, "AB", 7));
}

#[test]
fn xc2000_bond_text_is_sorted_by_pin_key() {
    let bond = Bond {
        pins: vec![
            ("P10".to_string(), BondPad::Gnd),
            ("P2".to_string(), BondPad::Vcc),
            ("A3".to_string(), BondPad::Nc),
            ("P9".to_string(), BondPad::Cfg(CfgPad::Cclk)),
        ],
    };
    assert_eq!(bond.dump(), "\tPINS:\n\t\tA3  : NC\n\t\tP2  : VCC\n\t\tP9  : CCLK\n\t\tP10 : GND\n");
}

#[test]
fn xc2000_bond_expand_maps_ios_to_pins() {
    let bond = Bond {
        pins: vec![
            ("P1".to_string(), BondPad::Io(n(1, 0))),
            ("P2".to_string(), BondPad::Gnd),
            ("P3".to_string(), BondPad::Io(e(2, 1))),
        ],
    };
    let eb = bond.expand();
    assert_eq!(eb.ios.len(), 2);
    assert!(eb.ios.contains(&(n(1, 0), "P1".to_string())));
    assert!(eb.ios.contains(&(e(2, 1), "P3".to_string())));
}

#[test]
fn xc2000_chip_text() {
    let mut c = chip(ChipKind::Xc2000, 8, 8);
    c.cols_bidi = vec![ColId(3), ColId(5)];
    c.cfg_io = vec![(SharedCfgPad::Addr(0), n(2, 1))];
    let text = c.dump();
    assert!(text.starts_with("\tkind xc2000;\n\tcolumns 8;\n\trows 8;\n\tcols_bidi X3, X5;\n"));
    assert!(text.contains("\tcfg_io A0 = "));
    assert!(!text.contains("rows_bidi"));
    assert!(!text.contains("small"));
}

#[test]
fn bonded_ios_are_distinct_and_bscan_covers_the_bonded_ones() {
    for (kind, cols, rows) in [(ChipKind::Xc2000, 8, 8), (ChipKind::Xc3000, 6, 6), (ChipKind::Xc4000E, 6, 6), (ChipKind::Xc5200, 5, 4)] {
        let c = chip(kind, cols, rows);
        let ios = c.get_bonded_ios();
        let set: std::collections::HashSet<EdgeIoCoord> = ios.iter().copied().collect();
        assert_eq!(set.len(), ios.len());
    }
    let mut c = chip(ChipKind::Xc4000E, 6, 6);
    c.unbonded_io = vec![n(2, 0), w(3, 1)];
    let bonded: std::collections::HashSet<EdgeIoCoord> = c.get_bonded_ios().into_iter().collect();
    let bs = c.get_bscan();
    let keys: std::collections::HashSet<EdgeIoCoord> = bs.io.iter().map(|x| x.0).collect();
    assert_eq!(keys.len(), bs.io.len());
    assert_eq!(keys.len() + 2, bonded.len());
    for io in &bonded {
        assert_eq!(keys.contains(io), !c.unbonded_io.contains(io));
    }
    assert_eq!(bs.bits, bs.upd + 1);
}

#[test]
fn xc2000_bond_expand_keeps_the_greatest_name() {
    let bond = Bond {
        pins: vec![
            ("P1".to_string(), BondPad::Io(n(1, 0))),
            ("P2".to_string(), BondPad::Io(n(1, 0))),
            ("P3".to_string(), BondPad::Gnd),
        ],
    };
    let eb = bond.expand();
    assert_eq!(eb.ios, vec![(n(1, 0), "P2".to_string())]);
}

#[test]
fn bonded_ios_skip_corners_on_xc4000_and_xc5200() {
    for (kind, cols, rows) in [(ChipKind::Xc4000E, 6, 5), (ChipKind::Xc4000H, 4, 7), (ChipKind::Xc5200, 5, 4)] {
        let c = chip(kind, cols, rows);
        for io in c.get_bonded_ios() {
            match io {
                EdgeIoCoord::N(col, _) | EdgeIoCoord::S(col, _) => assert!(col.0 > 0 && col.0 < cols - 1),
                EdgeIoCoord::E(row, _) | EdgeIoCoord::W(row, _) => assert!(row.0 > 0 && row.0 < rows - 1),
            }
        }
    }
    let c = chip(ChipKind::Xc3000, 4, 4);
    assert!(c.get_bonded_ios().contains(&n(0, 0)));
}

#[test]
fn chip_collections_check() {
    let mut c = chip(ChipKind::Xc2000, 8, 8);
    assert!(c.check_collections());
    c.cols_bidi = vec![ColId(3), ColId(5)];
    c.rows_bidi = vec![RowId(2)];
    c.cfg_io = vec![(SharedCfgPad::Addr(0), n(1, 0)), (SharedCfgPad::Addr(1), n(2, 0)), (SharedCfgPad::Data(0), e(3, 1))];
    c.unbonded_io = vec![n(4, 0), w(3, 1)];
    assert!(c.check_collections());
    let mut d = c.clone();
    d.cols_bidi = vec![ColId(5), ColId(3)];
    assert!(!d.check_collections());
    let mut d = c.clone();
    d.rows_bidi = vec![RowId(2), RowId(2)];
    assert!(!d.check_collections());
    let mut d = c.clone();
    d.cfg_io = vec![(SharedCfgPad::Data(0), n(1, 0)), (SharedCfgPad::Addr(7), n(2, 0))];
    assert!(!d.check_collections());
    let mut d = c.clone();
    d.unbonded_io = vec![n(4, 0), w(3, 1), n(4, 0)];
    assert!(!d.check_collections());
}

#[test]
fn xc2000_bond_pin_order_check() {
    let bond = Bond {
        pins: vec![
            ("P1".to_string(), BondPad::Io(n(1, 0))),
            ("P2".to_string(), BondPad::Gnd),
            ("P3".to_string(), BondPad::Io(e(2, 1))),
        ],
    };
    assert!(bond.check_pins_ascending());
    let bond = Bond { pins: vec![("P2".to_string(), BondPad::Gnd), ("P10".to_string(), BondPad::Vcc)] };
    assert!(!bond.check_pins_ascending());
    let bond = Bond { pins: vec![("P2".to_string(), BondPad::Gnd), ("P2".to_string(), BondPad::Vcc)] };
    assert!(!bond.check_pins_ascending());
    let bond = Bond { pins: vec![] };
    assert!(bond.check_pins_ascending());
}
