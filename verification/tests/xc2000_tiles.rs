use prjcombine::grid::{ColId, RowId};
use prjcombine::xc2000::chip::{Chip, ChipKind};
use prjcombine::tile::GridTile;
use prjcombine::xc2000::tiles::{BitstreamKind, RegionSlot};

fn grid_chip(kind: ChipKind, columns: usize, rows: usize) -> Chip {
    Chip {
        kind,
        columns,
        rows,
        is_small: false,
        is_buff_large: false,
        cols_bidi: vec![],
        rows_bidi: vec![],
        cfg_io: vec![],
        unbonded_io: vec![],
    }
}

fn at(t: &GridTile) -> (&'static str, usize, usize, Vec<(usize, usize)>) {
    (t.class, t.col, t.row, t.cells.clone())
}

fn main_at(c: &Chip, col: usize, row: usize) -> (&'static str, usize, usize, Vec<(usize, usize)>) {
    at(&c.main_tile(ColId(col), RowId(row)))
}

#[test]
fn xc2000_main_and_bidi_tiles() {
    let mut c = grid_chip(ChipKind::Xc2000, 4, 4);
    c.cols_bidi = vec![ColId(2)];
    c.rows_bidi = vec![RowId(2)];
    assert_eq!(main_at(&c, 0, 0), ("CLB_SW", 0, 0, vec![(0, 0), (1, 0)]));
    assert_eq!(main_at(&c, 0, 1), ("CLB_MW", 0, 1, vec![(0, 1), (0, 0)]));
    assert_eq!(main_at(&c, 0, 2), ("CLB_W", 0, 2, vec![(0, 2), (0, 1)]));
    assert_eq!(main_at(&c, 0, 3), ("CLB_NW", 0, 3, vec![(0, 3), (0, 2), (1, 3)]));
    assert_eq!(main_at(&c, 3, 0), ("CLB_SE", 3, 0, vec![(3, 0)]));
    assert_eq!(main_at(&c, 2, 0), ("CLB_SE1", 2, 0, vec![(2, 0), (3, 0)]));
    assert_eq!(main_at(&c, 1, 3), ("CLB_N", 1, 3, vec![(1, 3), (2, 3)]));
    assert_eq!(main_at(&c, 1, 1), ("CLB", 1, 1, vec![(1, 1)]));
    let brk: Vec<_> = c.break_tiles().iter().map(at).collect();
    assert_eq!(
        brk,
        vec![
            ("BIDIH_S", 2, 0, vec![(2, 0)]),
            ("BIDIH", 2, 1, vec![(2, 1)]),
            ("BIDIH", 2, 2, vec![(2, 2)]),
            ("BIDIH_N", 2, 3, vec![(2, 3)]),
            ("BIDIV_W", 0, 2, vec![(0, 1)]),
            ("BIDIV", 1, 2, vec![(1, 1)]),
            ("BIDIV", 2, 2, vec![(2, 1)]),
            ("BIDIV_E", 3, 2, vec![(3, 1)]),
        ]
    );
    let all = c.grid_tiles();
    assert_eq!(all.len(), 24);
    assert_eq!(at(&all[1]), main_at(&c, 0, 1));
    assert_eq!(at(&all[4]), main_at(&c, 1, 0));
    assert_eq!(at(&all[16]), ("BIDIH_S", 2, 0, vec![(2, 0)]));
    assert_eq!(c.region_root(RegionSlot::LongV, ColId(2), RowId(3)), Some((ColId(2), RowId(0))));
    assert_eq!(c.region_root(RegionSlot::Gclk, ColId(2), RowId(3)), None);
    assert_eq!(c.conn_w(ColId(0), RowId(1)), None);
    assert_eq!(c.conn_w(ColId(1), RowId(1)), Some(("PASS_E", "PASS_W")));
    assert!(c.corner_terms().is_empty());
    assert_eq!(c.bitstream_kind(), BitstreamKind::Xc2000);
}

#[test]
fn xc3000_main_tile_variants() {
    let c = grid_chip(ChipKind::Xc3000, 5, 6);
    assert_eq!(main_at(&c, 4, 4), ("CLB_E3", 4, 4, vec![(4, 4), (4, 3), (4, 5)]));
    assert_eq!(main_at(&c, 4, 1).0, "CLB_E1");
    assert_eq!(main_at(&c, 1, 1), ("CLB1", 1, 1, vec![(1, 1), (2, 1), (1, 0), (1, 2)]));
    assert_eq!(main_at(&c, 2, 0), ("CLB_S1", 2, 0, vec![(2, 0), (3, 0), (2, 1)]));
    assert_eq!(main_at(&c, 4, 0), ("CLB_SE0_L", 4, 0, vec![(4, 0), (4, 1)]));
    assert_eq!(main_at(&c, 4, 5), ("CLB_NE2_L", 4, 5, vec![(4, 5), (4, 4)]));
    assert_eq!(main_at(&c, 0, 0).0, "CLB_SW2_L");
    let brk: Vec<_> = c.break_tiles().iter().map(at).collect();
    assert_eq!(
        brk,
        vec![
            ("LLH_S", 2, 0, vec![(1, 0), (2, 0)]),
            ("LLH_N", 2, 5, vec![(1, 5), (2, 5)]),
            ("LLV_W", 0, 3, vec![(0, 2), (0, 3)]),
            ("LLV", 1, 3, vec![(1, 2), (1, 3)]),
            ("LLV", 2, 3, vec![(2, 2), (2, 3)]),
            ("LLV", 3, 3, vec![(3, 2), (3, 3)]),
            ("LLV_E", 4, 3, vec![(4, 2), (4, 3)]),
            ("MISC_E", 4, 3, vec![]),
        ]
    );
    assert_eq!(c.region_root(RegionSlot::LongV, ColId(1), RowId(4)), Some((ColId(1), RowId(5))));
    assert_eq!(c.region_root(RegionSlot::LongHIo0, ColId(3), RowId(4)), Some((ColId(4), RowId(4))));
}

#[test]
fn xc3000_small_chip_tiles() {
    let mut c = grid_chip(ChipKind::Xc3000A, 5, 5);
    c.is_small = true;
    assert_eq!(main_at(&c, 0, 0).0, "CLB_SW2_S");
    assert_eq!(main_at(&c, 0, 4).0, "CLB_NW0_S");
    assert_eq!(main_at(&c, 4, 4).0, "CLB_NE1_S");
    assert_eq!(main_at(&c, 1, 4).0, "CLB_N1_S");
    let brk: Vec<_> = c.break_tiles().iter().map(at).collect();
    assert_eq!(
        brk,
        vec![
            ("LLH_S", 2, 0, vec![(1, 0), (2, 0)]),
            ("LLH_N", 2, 4, vec![(1, 4), (2, 4)]),
            ("LLVS_W", 0, 2, vec![(0, 1), (0, 2)]),
            ("LLVS_E", 4, 2, vec![(4, 1), (4, 2)]),
            ("MISC_E", 4, 2, vec![]),
        ]
    );
    assert_eq!(c.region_root(RegionSlot::LongV, ColId(1), RowId(4)), Some((ColId(1), RowId(0))));
}

#[test]
fn xc4000_main_and_break_tiles() {
    let c = grid_chip(ChipKind::Xc4000E, 6, 6);
    assert_eq!(main_at(&c, 0, 0), ("CNR_SW", 0, 0, vec![(0, 0), (1, 0)]));
    assert_eq!(main_at(&c, 0, 5), ("CNR_NW", 0, 5, vec![(0, 5), (1, 5), (0, 4), (1, 4)]));
    assert_eq!(main_at(&c, 0, 1), ("IO_W1_S", 0, 1, vec![(0, 1), (0, 0), (1, 1), (0, 2)]));
    assert_eq!(main_at(&c, 0, 2).0, "IO_W0");
    assert_eq!(main_at(&c, 5, 0), ("CNR_SE", 5, 0, vec![(5, 0)]));
    assert_eq!(main_at(&c, 5, 4), ("IO_E0_N", 5, 4, vec![(5, 4), (5, 3), (5, 5)]));
    assert_eq!(main_at(&c, 2, 0), ("IO_S0", 2, 0, vec![(2, 0), (2, 1), (3, 0), (1, 0)]));
    assert_eq!(main_at(&c, 1, 5), ("IO_N1_W", 1, 5, vec![(1, 5), (2, 5), (0, 5)]));
    assert_eq!(main_at(&c, 1, 1), ("CLB_SW", 1, 1, vec![(1, 1), (1, 2), (2, 1)]));
    assert_eq!(main_at(&c, 4, 4).0, "CLB_NE");
    assert_eq!(main_at(&c, 2, 2).0, "CLB");
    let brk: Vec<_> = c.break_tiles().iter().map(at).collect();
    assert_eq!(brk.len(), 12);
    assert_eq!(brk[0], ("LLH_IO_S", 3, 0, vec![(2, 0), (3, 0)]));
    assert_eq!(brk[1].0, "LLH_CLB_S");
    assert_eq!(brk[4].0, "LLH_CLB");
    assert_eq!(brk[5], ("LLH_IO_N", 3, 5, vec![(2, 5), (3, 5)]));
    assert_eq!(brk[6], ("LLV_IO_W", 0, 3, vec![(0, 2), (0, 3)]));
    assert_eq!(brk[7].0, "LLV_CLB");
    assert_eq!(brk[11], ("LLV_IO_E", 5, 3, vec![(5, 2), (5, 3)]));
    assert_eq!(c.conn_w(ColId(1), RowId(2)), Some(("PASS_E", "PASS_CLB_W_W")));
    assert_eq!(c.conn_w(ColId(1), RowId(0)), Some(("PASS_E", "PASS_W")));
    assert_eq!(c.conn_s(ColId(2), RowId(5)), Some(("PASS_CLB_N_N", "PASS_S")));
    assert_eq!(c.conn_s(ColId(0), RowId(5)), Some(("PASS_N", "PASS_S")));
    assert_eq!(c.conn_s(ColId(2), RowId(0)), None);
    assert_eq!(c.corner_terms(), vec![("CNR_SW", 0, 0), ("CNR_SE", 5, 0), ("CNR_NW", 0, 5), ("CNR_NE", 5, 5)]);
    assert_eq!(c.region_root(RegionSlot::LongH, ColId(1), RowId(2)), Some((ColId(0), RowId(2))));
    assert_eq!(c.region_root(RegionSlot::LongH, ColId(4), RowId(2)), Some((ColId(5), RowId(2))));
    assert_eq!(c.region_root(RegionSlot::Gclk, ColId(4), RowId(1)), Some((ColId(4), RowId(3))));
    assert_eq!(c.region_root(RegionSlot::BufgeV, ColId(4), RowId(1)), None);
}

#[test]
fn xc4000x_quarter_tiles_and_roots() {
    let c = grid_chip(ChipKind::Xc4000Xla, 10, 10);
    assert_eq!(main_at(&c, 0, 3).0, "IO_W1_F1");
    assert_eq!(main_at(&c, 0, 6).0, "IO_W0_F0");
    let brk: Vec<_> = c.break_tiles().iter().map(at).collect();
    assert_eq!(brk.len(), 62);
    assert_eq!(brk[0], ("LLHQ_IO_S", 3, 0, vec![(2, 0), (3, 0)]));
    assert_eq!(brk[1].0, "LLHQ_CLB_S");
    assert_eq!(brk[8].0, "LLHQ_CLB_N");
    assert_eq!(brk[9].0, "LLHQ_IO_N");
    assert_eq!(brk[10], ("LLHQ_IO_S", 7, 0, vec![(6, 0), (7, 0)]));
    assert_eq!(brk[20], ("LLHC_IO_S", 5, 0, vec![(4, 0), (5, 0)]));
    assert_eq!(brk[30], ("LLVQ_IO_SW", 0, 3, vec![(0, 2), (0, 3)]));
    assert_eq!(brk[49].0, "LLVQ_IO_NE");
    assert_eq!(brk[50], ("LLVC_IO_W", 0, 5, vec![(0, 4), (0, 5)]));
    assert_eq!(brk[60], ("CLKQC", 5, 3, vec![(5, 3)]));
    assert_eq!(brk[61], ("CLKQC", 5, 7, vec![(5, 7)]));
    let r = |slot, col, row| c.region_root(slot, ColId(col), RowId(row));
    assert_eq!(r(RegionSlot::LongH, 2, 4), Some((ColId(0), RowId(4))));
    assert_eq!(r(RegionSlot::LongH, 4, 4), Some((ColId(3), RowId(4))));
    assert_eq!(r(RegionSlot::LongH, 6, 4), Some((ColId(6), RowId(4))));
    assert_eq!(r(RegionSlot::LongH, 8, 4), Some((ColId(9), RowId(4))));
    assert_eq!(r(RegionSlot::LongV, 1, 2), Some((ColId(1), RowId(0))));
    assert_eq!(r(RegionSlot::LongV, 1, 4), Some((ColId(1), RowId(3))));
    assert_eq!(r(RegionSlot::LongV, 1, 6), Some((ColId(1), RowId(6))));
    assert_eq!(r(RegionSlot::LongV, 1, 8), Some((ColId(1), RowId(9))));
    assert_eq!(r(RegionSlot::BufglsH, 8, 4), Some((ColId(5), RowId(4))));
    assert_eq!(r(RegionSlot::LongHTbuf, 4, 0), Some((ColId(3), RowId(0))));
    assert_eq!(r(RegionSlot::LongHTbuf, 4, 4), Some((ColId(0), RowId(4))));
    assert_eq!(r(RegionSlot::Gclk, 4, 6), Some((ColId(4), RowId(7))));
    assert_eq!(r(RegionSlot::BufgeV, 4, 6), Some((ColId(4), RowId(0))));
    let xv = grid_chip(ChipKind::Xc4000Xv, 10, 10);
    let brk: Vec<_> = xv.break_tiles().iter().map(at).collect();
    assert_eq!(brk.len(), 64);
    assert_eq!(brk[60], ("CLKQ", 3, 3, vec![(2, 3), (3, 3)]));
    assert_eq!(brk[63], ("CLKQ", 7, 7, vec![(6, 7), (7, 7)]));
    assert_eq!(xv.region_root(RegionSlot::BufglsH, ColId(8), RowId(4)), Some((ColId(9), RowId(4))));
}

#[test]
fn xc5200_tiles_and_roots() {
    let c = grid_chip(ChipKind::Xc5200, 4, 4);
    assert_eq!(main_at(&c, 0, 1), ("IO_W", 0, 1, vec![(0, 1)]));
    assert_eq!(main_at(&c, 3, 3), ("CNR_NE", 3, 3, vec![(3, 3)]));
    assert_eq!(main_at(&c, 1, 1), ("CLB", 1, 1, vec![(1, 1)]));
    let brk: Vec<_> = c.break_tiles().iter().map(at).collect();
    assert_eq!(
        brk,
        vec![
            ("LLV_W", 0, 2, vec![(0, 1), (0, 2)]),
            ("LLV", 1, 2, vec![(1, 1), (1, 2)]),
            ("LLV", 2, 2, vec![(2, 1), (2, 2)]),
            ("LLV_E", 3, 2, vec![(3, 1), (3, 2)]),
            ("LLH_S", 2, 0, vec![(1, 0), (2, 0)]),
            ("LLH", 2, 1, vec![(1, 1), (2, 1)]),
            ("LLH", 2, 2, vec![(1, 2), (2, 2)]),
            ("LLH_N", 2, 3, vec![(1, 3), (2, 3)]),
        ]
    );
    assert_eq!(c.region_root(RegionSlot::GclkH, ColId(2), RowId(1)), Some((ColId(0), RowId(1))));
    assert_eq!(c.region_root(RegionSlot::LongV, ColId(2), RowId(3)), Some((ColId(2), RowId(3))));
    assert_eq!(c.region_root(RegionSlot::Global, ColId(2), RowId(1)), None);
    assert_eq!(c.corner_terms().len(), 4);
}

#[test]
fn bitstream_kinds() {
    assert_eq!(grid_chip(ChipKind::SpartanXl, 30, 30).bitstream_kind(), BitstreamKind::S40Xl);
    assert_eq!(grid_chip(ChipKind::SpartanXl, 28, 28).bitstream_kind(), BitstreamKind::Xc4000);
    assert_eq!(grid_chip(ChipKind::Xc3000A, 10, 10).bitstream_kind(), BitstreamKind::Xc2000);
    assert_eq!(grid_chip(ChipKind::Xc5200, 10, 10).bitstream_kind(), BitstreamKind::Xc5200);
}

#[test]
fn expanded_chip_holds_its_grid_tiles() {
    let c = grid_chip(ChipKind::Xc5200, 4, 4);
    let edev = c.expand_grid();
    assert_eq!(edev.tiles.len(), 16 + 8);
    assert_eq!(at(&edev.tiles[0]), ("CNR_SW", 0, 0, vec![(0, 0)]));
    assert_eq!(at(&edev.tiles[16]), ("LLV_W", 0, 2, vec![(0, 1), (0, 2)]));
    assert_eq!(edev.bitstream_kind, BitstreamKind::Xc5200);
    let conns: Vec<_> = edev.conns.iter().map(|x| (x.col_a, x.row_a, x.class_a, x.col_b, x.row_b, x.class_b)).collect();
    assert_eq!(conns.len(), 24);
    assert_eq!(conns[0], (0, 0, "PASS_N", 0, 1, "PASS_S"));
    assert_eq!(conns[3], (0, 0, "PASS_E", 1, 0, "PASS_W"));
    assert_eq!(conns[23], (3, 2, "PASS_N", 3, 3, "PASS_S"));
    let terms: Vec<_> = edev.terms.iter().map(|t| (t.class, t.col, t.row)).collect();
    assert_eq!(terms, vec![("CNR_SW", 0, 0), ("CNR_SE", 3, 0), ("CNR_NW", 0, 3), ("CNR_NE", 3, 3)]);
}

#[test]
fn xc4000_grid_connections_by_cell() {
    let c = grid_chip(ChipKind::Xc4000E, 6, 6);
    let conns: Vec<_> = c.grid_conns().iter().map(|x| (x.col_a, x.row_a, x.class_a, x.col_b, x.row_b, x.class_b)).collect();
    assert_eq!(conns.len(), 60);
    assert_eq!(conns[4], (0, 4, "PASS_N", 0, 5, "PASS_S"));
    assert_eq!(conns[5], (0, 0, "PASS_E", 1, 0, "PASS_W"));
    assert_eq!(conns[8], (0, 2, "PASS_E", 1, 2, "PASS_CLB_W_W"));
    assert_eq!(conns.iter().filter(|x| x.2 == "PASS_CLB_N_N").count(), 4);
    let c2 = grid_chip(ChipKind::Xc2000, 4, 4);
    let edev = c2.expand_grid();
    assert!(edev.terms.is_empty());
    assert_eq!(edev.conns.len(), 24);
}
