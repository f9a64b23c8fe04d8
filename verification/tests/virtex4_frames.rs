use prjcombine::bitstream::{FrameAddr, FrameMaskMode};
use prjcombine::grid::{ColId, DieId, RowId};
use prjcombine::virtex4::chip::{CfgRowKind, Chip, ChipKind, ColumnKind, GtColumn, GtKind, RegId};
use prjcombine::virtex4::expanded::{BitTile, ExpandedDevice};
use prjcombine::virtex4::frames::{v4_fill_frame_info, v5_fill_frame_info, v7_fill_frame_info, FrameLayout};

use FrameMaskMode::{All, BramV4, CmtDrpHclk, DrpHclk, DrpV4, NoMask};

fn chip(kind: ChipKind, columns: Vec<ColumnKind>, regs: usize, reg_cfg: usize) -> Chip {
    Chip {
        kind,
        columns,
        cols_vbrk: vec![],
        cols_mgt_buf: vec![],
        cols_qbuf: None,
        col_hard: None,
        cols_io: vec![],
        cols_gt: vec![],
        regs,
        reg_cfg: RegId(reg_cfg),
        reg_clk: RegId(reg_cfg),
        rows_cfg: vec![],
        holes_ppc: vec![],
        holes_pcie2: vec![],
        holes_pcie3: vec![],
        has_bram_fx: false,
        has_ps: false,
        has_slr: false,
        has_no_tbuturn: false,
    }
}

fn addr(typ: u32, region: i32, major: u32, minor: u32) -> FrameAddr {
    FrameAddr { typ, region, major, minor }
}

fn device(chip: Chip, layout: FrameLayout) -> ExpandedDevice {
    ExpandedDevice {
        kind: chip.kind,
        chips: vec![chip],
        disabled: vec![],
        interposer: None,
        int_holes: vec![vec![]],
        site_holes: vec![vec![]],
        frames: vec![layout.frames],
        col_cfg: ColId(0),
        col_clk: ColId(0),
        col_lio: None,
        col_rio: None,
        col_lcio: None,
        col_rcio: None,
        col_lgt: None,
        col_rgt: None,
        col_mgt: None,
        row_dcmiob: None,
        row_iobdcm: None,
        io: vec![],
        gt: vec![],
        gtz: vec![],
        cfg_io: vec![],
        banklut: vec![0],
        grids: vec![],
        frame_len: 0,
        frame_info: vec![layout.frame_info],
        die_order: vec![],
        blackhole_cells: vec![],
        xdie_wires: vec![],
    }
}

fn v4_chip() -> Chip {
    let mut c = chip(
        ChipKind::Virtex4,
        vec![ColumnKind::Io, ColumnKind::ClbLM, ColumnKind::Bram, ColumnKind::Cfg],
        2,
        1,
    );
    c.rows_cfg = vec![(RowId(20), CfgRowKind::Dcm)];
    c
}

#[test]
fn v4_layout_offsets() {
    let layout = v4_fill_frame_info(&v4_chip());
    let fr = &layout.frames;
    // the configuration region (1) comes first, then region 0
    assert_eq!(fr.col_frame[1], vec![0, 30, 170, 52]);
    assert_eq!(fr.col_frame[0], vec![85, 115, 190, 137]);
    assert_eq!(fr.col_width[0], vec![30, 22, 20, 30]);
    assert_eq!(fr.spine_frame, vec![167, 82]);
    assert_eq!(fr.bram_frame[1], vec![None, None, Some(210), None]);
    assert_eq!(fr.bram_frame[0], vec![None, None, Some(274), None]);
    assert_eq!(layout.frame_info.len(), 338);
}

#[test]
fn v4_layout_addresses_and_masks() {
    let layout = v4_fill_frame_info(&v4_chip());
    let fi = &layout.frame_info;
    assert_eq!(fi[0].addr, addr(0, 0, 0, 0));
    assert_eq!(fi[0].mask_mode, vec![NoMask; 4]);
    assert_eq!(fi[30].addr, addr(0, 0, 1, 0));
    assert_eq!(fi[52].addr, addr(0, 0, 2, 0));
    // the DCM at row 20 sits in region 1, part 1 of the frame
    assert_eq!(fi[71].addr, addr(0, 0, 2, 19));
    assert_eq!(fi[71].mask_mode, vec![NoMask, DrpV4, NoMask, NoMask]);
    assert_eq!(fi[82].addr, addr(0, 0, 3, 0));
    assert_eq!(fi[85].addr, addr(0, -1, 0, 0));
    assert_eq!(fi[156].addr, addr(0, -1, 2, 19));
    assert_eq!(fi[156].mask_mode, vec![NoMask; 4]);
    assert_eq!(fi[170].addr, addr(1, 0, 0, 0));
    assert_eq!(fi[189].mask_mode, vec![BramV4; 4]);
    assert_eq!(fi[190].addr, addr(1, -1, 0, 0));
    assert_eq!(fi[210].addr, addr(2, 0, 0, 0));
    assert_eq!(fi[210].mask_mode, vec![All; 4]);
    assert_eq!(fi[337].addr, addr(2, -1, 0, 63));
}

#[test]
fn v4_transceiver_drp_mask() {
    let c = chip(ChipKind::Virtex4, vec![ColumnKind::Gt, ColumnKind::Cfg], 1, 0);
    let layout = v4_fill_frame_info(&c);
    assert_eq!(layout.frame_info[19].mask_mode, vec![DrpV4; 4]);
    assert_eq!(layout.frame_info[18].mask_mode, vec![NoMask; 4]);
    assert_eq!(layout.frames.spine_frame, vec![50]);
}

#[test]
fn v4_bit_tiles_from_layout() {
    let c = v4_chip();
    let layout = v4_fill_frame_info(&c);
    let edev = device(c, layout);
    assert_eq!(edev.btile_main(DieId(0), ColId(1), RowId(3)), BitTile::Main(DieId(0), 115, 22, 992, 80, true));
    assert_eq!(edev.btile_main(DieId(0), ColId(3), RowId(20)), BitTile::Main(DieId(0), 52, 30, 320, 80, false));
    assert_eq!(edev.btile_spine(DieId(0), RowId(20)), BitTile::Main(DieId(0), 82, 3, 320, 80, false));
    assert_eq!(edev.btile_bram(DieId(0), ColId(2), RowId(16)), BitTile::Main(DieId(0), 210, 64, 0, 320, false));
    assert_eq!(edev.btile_hclk(DieId(0), ColId(0), RowId(16)), BitTile::Main(DieId(0), 0, 30, 640, 32, false));
}

fn v5_chip() -> Chip {
    chip(
        ChipKind::Virtex5,
        vec![ColumnKind::Io, ColumnKind::ClbLL, ColumnKind::Bram, ColumnKind::Cfg, ColumnKind::Gt],
        3,
        1,
    )
}

#[test]
fn v5_layout_offsets() {
    let layout = v5_fill_frame_info(&v5_chip(), ColId(3));
    let fr = &layout.frames;
    assert_eq!(fr.col_frame[1], vec![0, 54, 90, 120, 178]);
    assert_eq!(fr.col_frame[2], vec![210, 264, 300, 330, 388]);
    assert_eq!(fr.col_frame[0], vec![420, 474, 510, 540, 598]);
    assert_eq!(fr.spine_frame, vec![594, 174, 384]);
    assert_eq!(fr.col_width[2], vec![54, 36, 30, 54, 32]);
    assert_eq!(fr.bram_frame[1][2], Some(630));
    assert_eq!(fr.bram_frame[2][2], Some(758));
    assert_eq!(fr.bram_frame[0][2], Some(886));
    assert_eq!(fr.bram_frame[0][1], None);
    assert_eq!(layout.frame_info.len(), 1014);
}

#[test]
fn v5_layout_addresses_and_masks() {
    let layout = v5_fill_frame_info(&v5_chip(), ColId(3));
    let fi = &layout.frame_info;
    assert_eq!(fi[174].addr, addr(0, 0, 4, 0));
    assert_eq!(fi[178].addr, addr(0, 0, 5, 0));
    assert_eq!(fi[208].mask_mode, vec![DrpHclk(28, 12), DrpHclk(28, 12)]);
    // configuration region: the lower part is masked at minors 28 to 31
    assert_eq!(fi[148].mask_mode, vec![DrpHclk(27, 15), NoMask]);
    assert_eq!(fi[151].mask_mode, vec![DrpHclk(27, 15), NoMask]);
    assert_eq!(fi[152].mask_mode, vec![NoMask, NoMask]);
    // the region above: the upper part at minors 28 and 29
    assert_eq!(fi[210].addr, addr(0, 1, 0, 0));
    assert_eq!(fi[358].mask_mode, vec![NoMask, DrpHclk(27, 15)]);
    assert_eq!(fi[360].mask_mode, vec![NoMask, NoMask]);
    assert_eq!(fi[420].addr, addr(0, -1, 0, 0));
    assert_eq!(fi[568].mask_mode, vec![NoMask, NoMask]);
    assert_eq!(fi[630].addr, addr(1, 0, 0, 0));
    assert_eq!(fi[630].mask_mode, vec![All, All]);
}

#[test]
fn v7_layout_single_region() {
    let c = chip(
        ChipKind::Virtex7,
        vec![
            ColumnKind::ClbLL,
            ColumnKind::Bram,
            ColumnKind::Cfg,
            ColumnKind::Clk,
            ColumnKind::Cmt,
            ColumnKind::Io,
        ],
        1,
        0,
    );
    let layout = v7_fill_frame_info(&c);
    let fr = &layout.frames;
    assert_eq!(fr.col_frame[0], vec![0, 36, 64, 94, 124, 154]);
    assert_eq!(fr.col_width[0], vec![36, 28, 30, 30, 30, 42]);
    assert_eq!(fr.bram_frame[0], vec![None, Some(196), None, None, None, None]);
    assert!(fr.spine_frame.is_empty());
    let fi = &layout.frame_info;
    assert_eq!(fi.len(), 324);
    assert_eq!(fi[64 + 28].addr, addr(0, 0, 2, 28));
    assert_eq!(fi[64 + 28].mask_mode, vec![NoMask, DrpHclk(25, 13)]);
    assert_eq!(fi[124 + 29].mask_mode, vec![CmtDrpHclk(24, 13), CmtDrpHclk(25, 13)]);
    assert_eq!(fi[124 + 30].mask_mode, vec![NoMask, NoMask]);
    assert_eq!(fi[196].addr, addr(1, 0, 0, 0));
}

#[test]
fn v7_layout_ends_at_east_transceiver() {
    let mut c = chip(ChipKind::Virtex7, vec![ColumnKind::ClbLL, ColumnKind::Bram, ColumnKind::Gt], 1, 0);
    c.cols_gt = vec![GtColumn { col: ColId(2), is_middle: false, regs: vec![Some(GtKind::Gtx)] }];
    let layout = v7_fill_frame_info(&c);
    let fr = &layout.frames;
    assert_eq!(fr.col_frame[0], vec![0, 36, 64]);
    assert_eq!(fr.col_width[0], vec![36, 28, 32]);
    assert_eq!(fr.bram_frame[0], vec![None, Some(96), None]);
    let fi = &layout.frame_info;
    assert_eq!(fi.len(), 224);
    assert_eq!(fi[64 + 27].mask_mode, vec![NoMask, NoMask]);
    assert_eq!(fi[64 + 31].mask_mode, vec![DrpHclk(24, 13), DrpHclk(25, 13)]);
    assert_eq!(fi[64 + 31].addr, addr(0, 0, 2, 31));
}

#[test]
fn v7_layout_two_regions() {
    let c = chip(ChipKind::Virtex7, vec![ColumnKind::ClbLM, ColumnKind::Cfg], 2, 1);
    let layout = v7_fill_frame_info(&c);
    let fi = &layout.frame_info;
    // region 1 (the configuration region) first, then region 0
    assert_eq!(fi[0].addr, addr(0, 0, 0, 0));
    assert_eq!(fi[66].addr, addr(0, -1, 0, 0));
    assert_eq!(layout.frames.col_frame[0], vec![66, 102]);
    assert_eq!(fi.len(), 132);
}

#[test]
fn configuration_tile_cell_per_family() {
    let mut d = device(v4_chip(), v4_fill_frame_info(&v4_chip()));
    d.col_cfg = ColId(3);
    assert_eq!(d.cfg_tile_cell(DieId(0)), (ColId(3), RowId(8)));
    let mut c5 = chip(ChipKind::Virtex5, vec![ColumnKind::Io, ColumnKind::Cfg], 4, 2);
    c5.reg_clk = RegId(2);
    d.kind = ChipKind::Virtex5;
    d.chips = vec![c5];
    assert_eq!(d.cfg_tile_cell(DieId(0)), (ColId(3), RowId(30)));
    let mut c7 = chip(ChipKind::Virtex7, vec![ColumnKind::Io, ColumnKind::Cfg], 4, 2);
    c7.reg_clk = RegId(3);
    d.kind = ChipKind::Virtex7;
    d.chips = vec![c7];
    assert_eq!(d.cfg_tile_cell(DieId(0)), (ColId(3), RowId(50)));
}

#[test]
fn main_bit_tiles_of_a_region_are_disjoint() {
    for c in [v4_chip(), v5_chip()] {
        let layout = if c.kind == ChipKind::Virtex4 { v4_fill_frame_info(&c) } else { v5_fill_frame_info(&c, ColId(3)) };
        let rpr = if c.kind == ChipKind::Virtex4 { 16 } else { 20 };
        let fw = if c.kind == ChipKind::Virtex4 { 80 } else { 64 };
        let edev = device(c, layout);
        let range = |t: BitTile| match t {
            BitTile::Main(_, _, _, bit, height, _) => (bit, bit + height),
        };
        let (h0, h1) = range(edev.btile_hclk(DieId(0), ColId(1), RowId(0)));
        assert_eq!(h1, h0 + 32);
        let ranges: Vec<_> = (0..rpr).map(|r| range(edev.btile_main(DieId(0), ColId(1), RowId(r)))).collect();
        for (i, &(b1, e1)) in ranges.iter().enumerate() {
            assert_eq!(e1 - b1, fw);
            assert!(e1 <= h0 || h1 <= b1);
            assert!(e1 <= rpr * fw + 32);
            for (j, &(b2, e2)) in ranges.iter().enumerate() {
                if i != j {
                    assert!(e1 <= b2 || e2 <= b1);
                }
            }
        }
    }
}
