//! The expanded view of a Virtex 4 .. Virtex 7 device: the chips of its dies
//! and the positions of its special columns and rows, and what follows from
//! them: IO banks and pins, transceiver banks and the bit tiles of the
//! configuration bitstream.
use vstd::prelude::*;
use crate::bitstream::FrameInfo;
use crate::grid::{ColId, DieCell, DieId, DirV, Rect, RowId, TileIobId};
use crate::seqs::lemma_filter_len_const;
use crate::text::{has_prefix, str_equals, str_starts_with};
use crate::virtex4::bond::{PsPad, SharedCfgPad};
use crate::virtex4::chip::{Chip, ChipKind, DisabledPart, GtKind, Interposer, IoKind, RegId};
use crate::virtex4::grid_v4::DieGrid;
use crate::virtex4::gtz::ExpandedGtz;

verus! {

/// The frame layout of one die: for each region and column the first frame
/// and the number of frames, the first frame of each block RAM data column,
/// and the first frame of the clock spine of each region.
#[derive(Clone, Debug)]
pub struct DieFrameGeom {
    pub col_frame: Vec<Vec<usize>>,
    pub col_width: Vec<Vec<usize>>,
    pub bram_frame: Vec<Vec<Option<usize>>>,
    pub spine_frame: Vec<usize>,
}

/// An IO of the device.
#[derive(Clone, Copy, Debug, PartialEq, Eq, Structural, Hash)]
pub struct IoCoord {
    pub die: DieId,
    pub col: ColId,
    pub row: RowId,
    pub iob: TileIobId,
}

/// The differential pair role of an IO, with its partner.
#[derive(Clone, Copy, Debug, PartialEq, Eq, Structural, Hash)]
pub enum IoDiffKind {
    NoPair,
    P(IoCoord),
    N(IoCoord),
}

/// The DCI reference resistor role of an IO.
#[derive(Clone, Copy, Debug, PartialEq, Eq, Structural, Hash)]
pub enum IoVrKind {
    NoVr,
    VrP,
    VrN,
}

/// What the package and the bank structure say of an IO.
#[derive(Clone, Copy, Debug, PartialEq, Eq, Structural, Hash)]
pub struct IoInfo {
    pub bank: u32,
    pub biob: u32,
    pub pkgid: u32,
    pub byte: Option<u32>,
    pub kind: IoKind,
    pub diff: IoDiffKind,
    pub is_vref: bool,
    pub is_lc: bool,
    pub is_gc: bool,
    pub is_srcc: bool,
    pub is_mrcc: bool,
    pub is_dqs: bool,
    pub vr: IoVrKind,
}

/// The bank and kind of a transceiver.
#[derive(Clone, Copy, Debug, PartialEq, Eq, Structural, Hash)]
pub struct GtInfo {
    pub bank: u32,
    pub kind: GtKind,
}

/// A processing system IO: its bank and name.
#[derive(Clone, Debug)]
pub struct PsIo {
    pub bank: u32,
    pub name: String,
}

/// A bit tile: a rectangle of the bitstream of a die, given by its first
/// frame, its width in frames, its first bit, its height in bits, and
/// whether the bit order within the frames is flipped.
#[derive(Clone, Copy, Debug, PartialEq, Eq, Structural, Hash)]
pub enum BitTile {
    Main(DieId, usize, usize, usize, usize, bool),
}

/// The expanded device.  `chips[d]` is the chip of die `d`; the special
/// columns and rows are those of the primary die layout.
#[derive(Clone, Debug)]
pub struct ExpandedDevice {
    pub kind: ChipKind,
    pub chips: Vec<Chip>,
    pub disabled: Vec<DisabledPart>,
    pub interposer: Option<Interposer>,
    pub int_holes: Vec<Vec<Rect>>,
    pub site_holes: Vec<Vec<Rect>>,
    pub frames: Vec<DieFrameGeom>,
    pub col_cfg: ColId,
    pub col_clk: ColId,
    pub col_lio: Option<ColId>,
    pub col_rio: Option<ColId>,
    pub col_lcio: Option<ColId>,
    pub col_rcio: Option<ColId>,
    pub col_lgt: Option<ColId>,
    pub col_rgt: Option<ColId>,
    pub col_mgt: Option<(ColId, ColId)>,
    pub row_dcmiob: Option<RowId>,
    pub row_iobdcm: Option<RowId>,
    pub io: Vec<IoCoord>,
    pub gt: Vec<(DieId, ColId, RowId)>,
    pub gtz: Vec<(DirV, ExpandedGtz)>,
    pub cfg_io: Vec<(SharedCfgPad, IoCoord)>,
    pub banklut: Vec<u32>,
    /// The interconnect grid of each die.
    pub grids: Vec<DieGrid>,
    /// The length of a frame, in bits.
    pub frame_len: usize,
    /// The frames of each die, in the order of the bitstream.
    pub frame_info: Vec<Vec<FrameInfo>>,
    /// The order of the dies in the bitstream.
    pub die_order: Vec<DieId>,
    /// The cells whose long vertical wire ends in a black hole.
    pub blackhole_cells: Vec<DieCell>,
    /// The long vertical wires that cross between dies, the upper die's
    /// cell first.
    pub xdie_wires: Vec<(DieCell, DieCell)>,
}

/// Whether some rectangle of the list holds the cell.
pub open spec fn in_some_rect(rects: Seq<Rect>, col: ColId, row: RowId) -> bool {
    exists|i: int| 0 <= i < rects.len() && (#[trigger] rects[i]).spec_contains(col, row)
}

/// Whether some rectangle of a list holds the cell.
pub fn rects_contain(rects: &Vec<Rect>, col: ColId, row: RowId) -> (r: bool)
    ensures
        r == in_some_rect(rects@, col, row),
{
    let mut i: usize = 0;
    while i < rects.len()
        invariant
            i <= rects@.len(),
            forall|j: int| 0 <= j < i ==> !(#[trigger] rects@[j]).spec_contains(col, row),
        decreases rects.len() - i,
    {
        if rects[i].contains(col, row) {
            return true;
        }
        i = i + 1;
    }
    false
}

/// The bank of a processing system pad: MIO 0-15 and the clock and reset
/// pads are in bank 500, the other MIO pads and SRST_B in bank 501, the DDR
/// pads in bank 502.
pub open spec fn spec_ps_bank(io: PsPad) -> u32 {
    match io {
        PsPad::Mio(idx) => if idx < 16 { 500 } else { 501 },
        PsPad::Clk => 500,
        PsPad::PorB => 500,
        PsPad::SrstB => 501,
        _ => 502,
    }
}

/// The processing system pads, in package order.
pub open spec fn spec_ps_pins() -> Seq<PsPad> {
    Seq::new(54, |i: int| PsPad::Mio(i as u32)) + seq![
        PsPad::Clk,
        PsPad::PorB,
        PsPad::SrstB,
        PsPad::DdrWeB,
        PsPad::DdrCasB,
        PsPad::DdrRasB,
        PsPad::DdrCsB,
        PsPad::DdrOdt,
        PsPad::DdrCke,
        PsPad::DdrCkN,
        PsPad::DdrCkP,
        PsPad::DdrDrstB,
        PsPad::DdrVrP,
        PsPad::DdrVrN,
    ] + Seq::new(15, |i: int| PsPad::DdrA(i as u32)) + Seq::new(3, |i: int| PsPad::DdrBa(i as u32))
        + Seq::new(32, |i: int| PsPad::DdrDq(i as u32)) + Seq::new(4, |i: int| PsPad::DdrDm(i as u32))
        + Seq::new(
        8,
        |i: int|
            if i % 2 == 0 {
                PsPad::DdrDqsP((i / 2) as u32)
            } else {
                PsPad::DdrDqsN((i / 2) as u32)
            },
    )
}

/// The `i`-th pad of a numbered family of processing system pads.
pub open spec fn numbered_ps_pad(which: u8, i: int) -> PsPad {
    if which == 0 {
        PsPad::Mio(i as u32)
    } else if which == 1 {
        PsPad::DdrA(i as u32)
    } else if which == 2 {
        PsPad::DdrBa(i as u32)
    } else if which == 3 {
        PsPad::DdrDq(i as u32)
    } else {
        PsPad::DdrDm(i as u32)
    }
}

fn push_numbered(res: &mut Vec<PsPad>, n: u32, which: u8)
    ensures
        final(res)@ == old(res)@ + Seq::new(n as nat, |i: int| numbered_ps_pad(which, i)),
{
    let mut i: u32 = 0;
    while i < n
        invariant
            i <= n,
            res@ == old(res)@ + Seq::new(i as nat, |k: int| numbered_ps_pad(which, k)),
        decreases n - i,
    {
        let pad = if which == 0 {
            PsPad::Mio(i)
        } else if which == 1 {
            PsPad::DdrA(i)
        } else if which == 2 {
            PsPad::DdrBa(i)
        } else if which == 3 {
            PsPad::DdrDq(i)
        } else {
            PsPad::DdrDm(i)
        };
        assert(pad == numbered_ps_pad(which, i as int));
        res.push(pad);
        assert(res@ =~= old(res)@ + Seq::new((i + 1) as nat, |k: int| numbered_ps_pad(which, k)));
        i = i + 1;
    }
}

/// The row of the configuration tile of a die of a device of kind `kind`.
pub open spec fn spec_cfg_tile_row(kind: ChipKind, chip: Chip) -> int {
    match kind {
        ChipKind::Virtex4 => chip.sp_row_reg_bot(chip.reg_clk.0 as int) - 8,
        ChipKind::Virtex5 => chip.sp_row_reg_bot(chip.reg_clk.0 as int) - 10,
        ChipKind::Virtex6 => chip.sp_row_reg_bot(chip.reg_clk.0 as int),
        ChipKind::Virtex7 => chip.sp_row_reg_bot(chip.reg_cfg.0 - 1),
    }
}

/// The configuration tile row of a die exists: it is not below the bottom
/// row, and the rows it is computed from fit the index range.
pub open spec fn cfg_tile_row_ok(kind: ChipKind, chip: Chip) -> bool {
    &&& chip.reg_clk.0 * chip.sp_rpr() <= usize::MAX
    &&& chip.reg_cfg.0 * chip.sp_rpr() <= usize::MAX
    &&& kind is Virtex7 ==> chip.reg_cfg.0 >= 1
    &&& spec_cfg_tile_row(kind, chip) >= 0
}

impl ExpandedDevice {
    /// Whether a cell of a die lies in a hole of the interconnect grid.
    pub fn in_int_hole(&self, die: DieId, col: ColId, row: RowId) -> (r: bool)
        requires
            die.0 < self.int_holes@.len(),
        ensures
            r == in_some_rect(self.int_holes@[die.0 as int]@, col, row),
    {
        rects_contain(&self.int_holes[die.0], col, row)
    }

    /// Whether a cell of a die lies in a hole of the site grid.
    pub fn in_site_hole(&self, die: DieId, col: ColId, row: RowId) -> (r: bool)
        requires
            die.0 < self.site_holes@.len(),
        ensures
            r == in_some_rect(self.site_holes@[die.0 as int]@, col, row),
    {
        rects_contain(&self.site_holes[die.0], col, row)
    }

    /// The cell of the configuration tile of a die: in the configuration
    /// column, eight (Virtex 4) or ten (Virtex 5) rows below the bottom of
    /// the clock region, at the bottom of the clock region (Virtex 6), or at
    /// the bottom of the region below the configuration region (Virtex 7).
    pub fn cfg_tile_cell(&self, die: DieId) -> (r: (ColId, RowId))
        requires
            die.0 < self.chips@.len(),
            cfg_tile_row_ok(self.kind, self.chips@[die.0 as int]),
        ensures
            r == (self.col_cfg, RowId(spec_cfg_tile_row(self.kind, self.chips@[die.0 as int]) as usize)),
    {
        let chip = &self.chips[die.0];
        let row = match self.kind {
            ChipKind::Virtex4 => chip.row_bufg().0 - 8,
            ChipKind::Virtex5 => chip.row_bufg().0 - 10,
            ChipKind::Virtex6 => chip.row_bufg().0,
            ChipKind::Virtex7 => {
                assert((chip.reg_cfg.0 - 1) * chip.sp_rpr() <= chip.reg_cfg.0 * chip.sp_rpr()) by (nonlinear_arith)
                    requires
                        chip.reg_cfg.0 >= 1,
                ;
                chip.row_reg_bot(RegId(chip.reg_cfg.0 - 1)).0
            },
        };
        (self.col_cfg, RowId(row))
    }

    /// The bank of a processing system pad.
    pub fn get_ps_bank(&self, io: PsPad) -> (r: u32)
        ensures
            r == spec_ps_bank(io),
    {
        match io {
            PsPad::Mio(idx) => if idx < 16 { 500 } else { 501 },
            PsPad::Clk => 500,
            PsPad::PorB => 500,
            PsPad::SrstB => 501,
            PsPad::DdrDq(_) => 502,
            PsPad::DdrDm(_) => 502,
            PsPad::DdrDqsP(_) => 502,
            PsPad::DdrDqsN(_) => 502,
            PsPad::DdrA(_) => 502,
            PsPad::DdrBa(_) => 502,
            PsPad::DdrVrP => 502,
            PsPad::DdrVrN => 502,
            PsPad::DdrCkP => 502,
            PsPad::DdrCkN => 502,
            PsPad::DdrCke => 502,
            PsPad::DdrOdt => 502,
            PsPad::DdrDrstB => 502,
            PsPad::DdrCsB => 502,
            PsPad::DdrRasB => 502,
            PsPad::DdrCasB => 502,
            PsPad::DdrWeB => 502,
        }
    }

    /// The processing system pads of the device (none without a processing system).
    pub fn get_ps_pins(&self) -> (res: Vec<PsPad>)
        requires
            self.chips@.len() >= 1,
        ensures
            res@ == (if self.chips@[0].has_ps { spec_ps_pins() } else { Seq::empty() }),
    {
        let mut res: Vec<PsPad> = Vec::new();
        if self.chips[0].has_ps {
            push_numbered(&mut res, 54, 0);
            res.push(PsPad::Clk);
            res.push(PsPad::PorB);
            res.push(PsPad::SrstB);
            res.push(PsPad::DdrWeB);
            res.push(PsPad::DdrCasB);
            res.push(PsPad::DdrRasB);
            res.push(PsPad::DdrCsB);
            res.push(PsPad::DdrOdt);
            res.push(PsPad::DdrCke);
            res.push(PsPad::DdrCkN);
            res.push(PsPad::DdrCkP);
            res.push(PsPad::DdrDrstB);
            res.push(PsPad::DdrVrP);
            res.push(PsPad::DdrVrN);
            push_numbered(&mut res, 15, 1);
            push_numbered(&mut res, 3, 2);
            push_numbered(&mut res, 32, 3);
            push_numbered(&mut res, 4, 4);
            let ghost before = res@;
            let mut i: u32 = 0;
            while i < 4
                invariant
                    i <= 4,
                    res@ == before + Seq::new(
                        (2 * i) as nat,
                        |k: int|
                            if k % 2 == 0 {
                                PsPad::DdrDqsP((k / 2) as u32)
                            } else {
                                PsPad::DdrDqsN((k / 2) as u32)
                            },
                    ),
                decreases 4 - i,
            {
                res.push(PsPad::DdrDqsP(i));
                res.push(PsPad::DdrDqsN(i));
                assert(res@ =~= before + Seq::new(
                    (2 * (i + 1)) as nat,
                    |k: int|
                        if k % 2 == 0 {
                            PsPad::DdrDqsP((k / 2) as u32)
                        } else {
                            PsPad::DdrDqsN((k / 2) as u32)
                        },
                ));
                i = i + 1;
            }
            assert(res@ =~= spec_ps_pins());
        }
        res
    }
}

/// The bank of the left IO column of a Virtex 4 chip with `regs` regions, for region pair `k`.
pub open spec fn spec_v4_lio_bank(regs: int, k: int) -> u32 {
    if regs == 4 && k == 0 {
        7
    } else if regs == 4 && k == 1 {
        5
    } else if regs == 6 && k == 0 {
        7
    } else if regs == 6 && k == 1 {
        9
    } else if regs == 6 && k == 2 {
        5
    } else if regs == 8 && k == 0 {
        7
    } else if regs == 8 && k == 1 {
        11
    } else if regs == 8 && k == 2 {
        9
    } else if regs == 8 && k == 3 {
        5
    } else if regs == 10 && k == 0 {
        7
    } else if regs == 10 && k == 1 {
        11
    } else if regs == 10 && k == 2 {
        13
    } else if regs == 10 && k == 3 {
        9
    } else if regs == 10 && k == 4 {
        5
    } else if regs == 12 && k == 0 {
        7
    } else if regs == 12 && k == 1 {
        11
    } else if regs == 12 && k == 2 {
        15
    } else if regs == 12 && k == 3 {
        13
    } else if regs == 12 && k == 4 {
        9
    } else if regs == 12 && k == 5 {
        5
    } else {
        0
    }
}

fn v4_lio_bank(regs: usize, k: usize) -> (r: u32)
    ensures
        r == spec_v4_lio_bank(regs as int, k as int),
{
    if regs == 4 && k == 0 {
        7
    } else if regs == 4 && k == 1 {
        5
    } else if regs == 6 && k == 0 {
        7
    } else if regs == 6 && k == 1 {
        9
    } else if regs == 6 && k == 2 {
        5
    } else if regs == 8 && k == 0 {
        7
    } else if regs == 8 && k == 1 {
        11
    } else if regs == 8 && k == 2 {
        9
    } else if regs == 8 && k == 3 {
        5
    } else if regs == 10 && k == 0 {
        7
    } else if regs == 10 && k == 1 {
        11
    } else if regs == 10 && k == 2 {
        13
    } else if regs == 10 && k == 3 {
        9
    } else if regs == 10 && k == 4 {
        5
    } else if regs == 12 && k == 0 {
        7
    } else if regs == 12 && k == 1 {
        11
    } else if regs == 12 && k == 2 {
        15
    } else if regs == 12 && k == 3 {
        13
    } else if regs == 12 && k == 4 {
        9
    } else if regs == 12 && k == 5 {
        5
    } else {
        0
    }
}

/// The bank of the right IO column of a Virtex 4 chip with `regs` regions, for region pair `k`.
pub open spec fn spec_v4_rio_bank(regs: int, k: int) -> u32 {
    if regs == 4 && k == 0 {
        8
    } else if regs == 4 && k == 1 {
        6
    } else if regs == 6 && k == 0 {
        8
    } else if regs == 6 && k == 1 {
        10
    } else if regs == 6 && k == 2 {
        6
    } else if regs == 8 && k == 0 {
        8
    } else if regs == 8 && k == 1 {
        12
    } else if regs == 8 && k == 2 {
        10
    } else if regs == 8 && k == 3 {
        6
    } else if regs == 10 && k == 0 {
        8
    } else if regs == 10 && k == 1 {
        12
    } else if regs == 10 && k == 2 {
        14
    } else if regs == 10 && k == 3 {
        10
    } else if regs == 10 && k == 4 {
        6
    } else if regs == 12 && k == 0 {
        8
    } else if regs == 12 && k == 1 {
        12
    } else if regs == 12 && k == 2 {
        16
    } else if regs == 12 && k == 3 {
        14
    } else if regs == 12 && k == 4 {
        10
    } else if regs == 12 && k == 5 {
        6
    } else {
        0
    }
}

fn v4_rio_bank(regs: usize, k: usize) -> (r: u32)
    ensures
        r == spec_v4_rio_bank(regs as int, k as int),
{
    if regs == 4 && k == 0 {
        8
    } else if regs == 4 && k == 1 {
        6
    } else if regs == 6 && k == 0 {
        8
    } else if regs == 6 && k == 1 {
        10
    } else if regs == 6 && k == 2 {
        6
    } else if regs == 8 && k == 0 {
        8
    } else if regs == 8 && k == 1 {
        12
    } else if regs == 8 && k == 2 {
        10
    } else if regs == 8 && k == 3 {
        6
    } else if regs == 10 && k == 0 {
        8
    } else if regs == 10 && k == 1 {
        12
    } else if regs == 10 && k == 2 {
        14
    } else if regs == 10 && k == 3 {
        10
    } else if regs == 10 && k == 4 {
        6
    } else if regs == 12 && k == 0 {
        8
    } else if regs == 12 && k == 1 {
        12
    } else if regs == 12 && k == 2 {
        16
    } else if regs == 12 && k == 3 {
        14
    } else if regs == 12 && k == 4 {
        10
    } else if regs == 12 && k == 5 {
        6
    } else {
        0
    }
}

/// The region count is one of those of the Virtex 4 family.
pub open spec fn v4_regs_ok(regs: int) -> bool {
    regs == 4 || regs == 6 || regs == 8 || regs == 10 || regs == 12
}

/// The IO with another index in the same tile.
pub open spec fn with_iob(io: IoCoord, iob: usize) -> IoCoord {
    IoCoord { die: io.die, col: io.col, row: io.row, iob: TileIobId(iob) }
}

/// IO 1 of a tile is the true side of its differential pair, IO 0 the complement.
pub open spec fn spec_diff_pair(io: IoCoord) -> IoDiffKind {
    if io.iob.0 == 0 {
        IoDiffKind::N(with_iob(io, 1))
    } else {
        IoDiffKind::P(with_iob(io, 0))
    }
}

/// On a DCI reference pin pair, IO 0 is VRP and IO 1 is VRN.
pub open spec fn spec_vr_kind(is_vr: bool, io: IoCoord) -> IoVrKind {
    if is_vr {
        if io.iob.0 == 0 { IoVrKind::VrP } else { IoVrKind::VrN }
    } else {
        IoVrKind::NoVr
    }
}

fn diff_pair(io: IoCoord) -> (r: IoDiffKind)
    ensures
        r == spec_diff_pair(io),
{
    if io.iob.0 == 0 {
        IoDiffKind::N(IoCoord { die: io.die, col: io.col, row: io.row, iob: TileIobId(1) })
    } else {
        IoDiffKind::P(IoCoord { die: io.die, col: io.col, row: io.row, iob: TileIobId(0) })
    }
}

fn vr_kind(is_vr: bool, io: IoCoord) -> (r: IoVrKind)
    ensures
        r == spec_vr_kind(is_vr, io),
{
    if is_vr {
        if io.iob.0 == 0 { IoVrKind::VrP } else { IoVrKind::VrN }
    } else {
        IoVrKind::NoVr
    }
}

/// The first IO column description of a column.
pub open spec fn first_io_col(cols: Seq<crate::virtex4::chip::IoColumn>, col: ColId) -> int {
    choose|i: int|
        0 <= i < cols.len() && cols[i].col == col && forall|j: int|
            0 <= j < i ==> (#[trigger] cols[j]).col != col
}

/// The first transceiver column description of a column.
pub open spec fn first_gt_col(cols: Seq<crate::virtex4::chip::GtColumn>, col: ColId) -> int {
    choose|i: int|
        0 <= i < cols.len() && cols[i].col == col && forall|j: int|
            0 <= j < i ==> (#[trigger] cols[j]).col != col
}

impl ExpandedDevice {
    /// Bank, IO index within the bank (before adding the IO index within the
    /// tile), package pin index and global clock role of a Virtex 4 IO.
    pub open spec fn v4_io_bank(self, chip: Chip, io: IoCoord) -> (u32, int, int, bool) {
        let r = io.row.0 as int;
        let r8 = r % 8;
        let r16 = r % 16;
        let x8 = if r16 < 8 { r16 + 8 } else { r16 - 8 };
        let bufg = chip.sp_row_reg_bot(chip.reg_clk.0 as int);
        let reg = chip.sp_row_to_reg(r);
        if io.col == self.col_cfg {
            if r < bufg {
                let d = self.row_dcmiob.unwrap().0 as int;
                if r < d + 8 {
                    (4, r8 * 2, 8 - r8, true)
                } else if r >= bufg - 16 {
                    (2, r8 * 2, 8 - r8, false)
                } else if r < d + 24 {
                    (2, r16 * 2 + 16, (16 - x8) + 8, r16 < 8)
                } else {
                    (2, r16 * 2 + 48, (16 - x8) + 24, false)
                }
            } else {
                let u = self.row_iobdcm.unwrap().0 as int;
                if r >= u - 8 {
                    (3, r8 * 2, 8 - r8, true)
                } else if r < bufg + 16 {
                    (1, r8 * 2, 8 - r8, false)
                } else if r >= u - 24 {
                    (1, r16 * 2 + 16, (16 - r16) + 8, r16 >= 8)
                } else {
                    (1, r16 * 2 + 48, (16 - r16) + 24, false)
                }
            }
        } else if self.col_lio == Some(io.col) {
            (spec_v4_lio_bank(chip.regs as int, reg / 2), (r % 32) * 2, 32 - r % 32, false)
        } else {
            (spec_v4_rio_bank(chip.regs as int, reg / 2), (r % 32) * 2, 32 - r % 32, false)
        }
    }

    /// The IO information of a Virtex 4 IO.
    pub open spec fn v4_io_info(self, chip: Chip, io: IoCoord) -> IoInfo {
        let r = io.row.0 as int;
        let (bank, biob, pkgid, is_gc) = self.v4_io_bank(chip, io);
        let is_vr = if bank == 1 {
            biob == 28
        } else if bank == 2 {
            biob == 34
        } else if bank == 3 {
            biob == 12
        } else if bank == 4 {
            biob == 2
        } else {
            biob == 18
        };
        let is_cc = r % 16 == 7 || r % 16 == 8;
        IoInfo {
            bank,
            biob: (biob + io.iob.0) as u32,
            pkgid: pkgid as u32,
            byte: None,
            kind: IoKind::Hpio,
            diff: spec_diff_pair(io),
            is_vref: r % 8 == 4 && io.iob.0 == 0,
            is_lc: is_cc || io.col == self.col_cfg,
            is_gc,
            is_srcc: is_cc,
            is_mrcc: false,
            is_dqs: false,
            vr: spec_vr_kind(is_vr, io),
        }
    }

    /// The bank of a Virtex 5 IO: banks are numbered outward from the
    /// configuration region, the center column holding the small banks.
    pub open spec fn v5_io_bank(self, chip: Chip, io: IoCoord) -> int {
        let rr = chip.sp_row_to_reg(io.row.0 as int) - chip.reg_cfg.0;
        if io.col == self.col_cfg {
            if rr <= -4 {
                6 + (-rr - 4) * 2
            } else if rr >= 3 {
                5 + (rr - 3) * 2
            } else if rr < 0 {
                2 + (-rr - 1) * 2
            } else {
                1 + rr * 2
            }
        } else {
            (if rr < 0 {
                13 + (-rr - 1) * 4
            } else {
                11 + rr * 4
            }) + if self.col_rio == Some(io.col) {
                1int
            } else {
                0int
            }
        }
    }

    /// The IO information of a Virtex 5 IO.
    pub open spec fn v5_io_info(self, chip: Chip, io: IoCoord) -> IoInfo {
        let r = io.row.0 as int;
        let bank = self.v5_io_bank(chip, io) as u32;
        let is_short_bank = bank <= 4;
        let biob = if is_short_bank { 2 * (r % 10) } else { 2 * (r % 20) };
        let pkgid = if is_short_bank { (18 - biob) / 2 } else { (38 - biob) / 2 };
        let is_vr = if bank == 1 || bank == 2 {
            false
        } else if bank == 3 {
            biob == 14
        } else if bank == 4 {
            biob == 4
        } else {
            biob == 14
        };
        IoInfo {
            bank,
            biob: (biob + io.iob.0) as u32,
            pkgid: pkgid as u32,
            byte: None,
            kind: IoKind::Hpio,
            diff: spec_diff_pair(io),
            is_vref: r % 10 == 5 && io.iob.0 == 0,
            is_lc: false,
            is_gc: bank == 3 || bank == 4,
            is_srcc: 8 <= r % 20 <= 11,
            is_mrcc: false,
            is_dqs: false,
            vr: spec_vr_kind(is_vr, io),
        }
    }

    /// The bank base of a Virtex 6 IO column.
    pub open spec fn v6_col_base(self, col: ColId) -> int {
        if self.col_lio == Some(col) {
            15
        } else if self.col_lcio == Some(col) {
            25
        } else if self.col_rcio == Some(col) {
            35
        } else {
            45
        }
    }

    /// The IO information of a Virtex 6 IO.
    pub open spec fn v6_io_info(self, chip: Chip, io: IoCoord) -> IoInfo {
        let r = io.row.0 as int;
        let r40 = r % 40;
        let bank = (self.v6_col_base(io.col) - chip.reg_cfg.0 + chip.sp_row_to_reg(r)) as u32;
        let is_vr = if bank == 34 {
            r40 == 0
        } else if bank == 24 {
            r40 == 4
        } else if bank == 15 || bank == 25 || bank == 35 {
            r40 == 6
        } else {
            r40 == 14
        };
        IoInfo {
            bank,
            biob: (r40 + io.iob.0) as u32,
            pkgid: ((38 - r40) / 2) as u32,
            byte: None,
            kind: IoKind::Hpio,
            diff: spec_diff_pair(io),
            is_vref: r % 20 == 10 && io.iob.0 == 0,
            is_lc: false,
            is_gc: ((bank == 24 || bank == 34) && (r40 == 36 || r40 == 38)) || ((bank == 25 || bank
                == 35) && (r40 == 0 || r40 == 2)),
            is_srcc: r40 == 16 || r40 == 22,
            is_mrcc: r40 == 18 || r40 == 20,
            is_dqs: false,
            vr: spec_vr_kind(is_vr, io),
        }
    }

    /// The IO information of a Virtex 7 IO.
    pub open spec fn v7_io_info(self, chip: Chip, io: IoCoord) -> IoInfo {
        let r = io.row.0 as int;
        let r50 = r % 50;
        let reg = chip.sp_row_to_reg(r);
        let x: int = if self.col_lio == Some(io.col) { 0 } else { 20 };
        let y: int = self.banklut@[io.die.0 as int] + reg - chip.reg_cfg.0;
        let kind = chip.cols_io@[first_io_col(chip.cols_io@, io.col)].regs@[reg].unwrap();
        IoInfo {
            bank: (x + y) as u32,
            biob: (r50 + io.iob.0) as u32,
            pkgid: ((50 - r50) / 2) as u32,
            byte: if r50 == 0 || r50 == 49 {
                None
            } else if r50 < 13 {
                Some(3)
            } else if r50 < 25 {
                Some(2)
            } else if r50 < 37 {
                Some(1)
            } else {
                Some(0)
            },
            kind,
            diff: if r50 == 0 || r50 == 49 {
                IoDiffKind::NoPair
            } else {
                spec_diff_pair(io)
            },
            is_vref: (r50 == 11 || r50 == 37) && io.iob.0 == 0,
            is_lc: false,
            is_gc: false,
            is_srcc: r50 == 21 || r50 == 27,
            is_mrcc: r50 == 23 || r50 == 25,
            is_dqs: r50 == 7 || r50 == 19 || r50 == 31 || r50 == 43,
            vr: if r50 == 0 && kind is Hpio {
                IoVrKind::VrP
            } else if r50 == 49 && kind is Hpio {
                IoVrKind::VrN
            } else {
                IoVrKind::NoVr
            },
        }
    }

    /// The IO information of an IO of the device.
    pub open spec fn spec_io_info(self, io: IoCoord) -> IoInfo {
        let chip = self.chips@[io.die.0 as int];
        match self.kind {
            ChipKind::Virtex4 => self.v4_io_info(chip, io),
            ChipKind::Virtex5 => self.v5_io_info(chip, io),
            ChipKind::Virtex6 => self.v6_io_info(chip, io),
            ChipKind::Virtex7 => self.v7_io_info(chip, io),
        }
    }

    /// The inputs on which `get_io_info` computes without failing: the IO
    /// belongs to an IO column that the family knows, and the rows and
    /// regions that the computation refers to exist.
    pub open spec fn io_info_ok(self, io: IoCoord) -> bool {
        &&& io.die.0 < self.chips@.len()
        &&& io.iob.0 < 2
        &&& io.row.0 + 64 <= usize::MAX
        &&& {
            let chip = self.chips@[io.die.0 as int];
            let r = io.row.0 as int;
            let reg = chip.sp_row_to_reg(r);
            let bufg = chip.sp_row_reg_bot(chip.reg_clk.0 as int);
            &&& chip.kind == self.kind
            &&& chip.reg_clk.0 * 16 <= usize::MAX
            &&& match self.kind {
                ChipKind::Virtex4 => if io.col == self.col_cfg {
                    if r < bufg {
                        &&& self.row_dcmiob is Some
                        &&& self.row_dcmiob.unwrap().0 + 24 <= usize::MAX
                        &&& r >= self.row_dcmiob.unwrap().0 + 8 ==> bufg >= 16
                    } else {
                        &&& self.row_iobdcm is Some
                        &&& self.row_iobdcm.unwrap().0 >= 8
                        &&& r < self.row_iobdcm.unwrap().0 - 8 && r >= bufg + 16
                            ==> self.row_iobdcm.unwrap().0 >= 24
                    }
                } else {
                    v4_regs_ok(chip.regs as int) && reg < chip.regs
                },
                ChipKind::Virtex5 => chip.reg_cfg.0 * 4 + 32 <= usize::MAX,
                ChipKind::Virtex6 => {
                    &&& self.col_lio == Some(io.col) || self.col_lcio == Some(io.col) || self.col_rcio
                        == Some(io.col) || self.col_rio == Some(io.col)
                    &&& chip.reg_cfg.0 <= self.v6_col_base(io.col)
                    &&& r % 40 != 39
                },
                ChipKind::Virtex7 => {
                    &&& io.die.0 < self.banklut@.len()
                    &&& chip.reg_cfg.0 <= self.banklut@[io.die.0 as int] + reg
                    &&& self.banklut@[io.die.0 as int] + reg + 20 <= u32::MAX
                    &&& exists|i: int|
                        0 <= i < chip.cols_io@.len() && (#[trigger] chip.cols_io@[i]).col == io.col
                    &&& reg < chip.cols_io@[first_io_col(chip.cols_io@, io.col)].regs@.len()
                    &&& chip.cols_io@[first_io_col(chip.cols_io@, io.col)].regs@[reg] is Some
                },
            }
        }
    }

}

impl ExpandedDevice {
    fn v4_io_info_exec(&self, chip: &Chip, io: IoCoord) -> (r: IoInfo)
        requires
            self.kind is Virtex4,
            self.io_info_ok(io),
            *chip == self.chips@[io.die.0 as int],
        ensures
            r == self.v4_io_info(*chip, io),
    {
        let r = io.row.0;
        let r8 = r % 8;
        let r16 = r % 16;
        let x8 = if r16 < 8 { r16 + 8 } else { r16 - 8 };
        let bufg = chip.row_bufg().0;
        let reg = chip.row_to_reg(io.row).0;
        let (bank, biob, pkgid, is_gc): (u32, usize, usize, bool) = if io.col.0 == self.col_cfg.0 {
            if r < bufg {
                let d = match self.row_dcmiob {
                    Some(d) => d.0,
                    None => 0,
                };
                if r < d + 8 {
                    (4, r8 * 2, 8 - r8, true)
                } else if r >= bufg - 16 {
                    (2, r8 * 2, 8 - r8, false)
                } else if r < d + 24 {
                    (2, r16 * 2 + 16, (16 - x8) + 8, r16 < 8)
                } else {
                    (2, r16 * 2 + 48, (16 - x8) + 24, false)
                }
            } else {
                let u = match self.row_iobdcm {
                    Some(u) => u.0,
                    None => 0,
                };
                if r >= u - 8 {
                    (3, r8 * 2, 8 - r8, true)
                } else if r < bufg + 16 {
                    (1, r8 * 2, 8 - r8, false)
                } else if r >= u - 24 {
                    (1, r16 * 2 + 16, (16 - r16) + 8, r16 >= 8)
                } else {
                    (1, r16 * 2 + 48, (16 - r16) + 24, false)
                }
            }
        } else if self.col_lio == Some(io.col) {
            (v4_lio_bank(chip.regs, reg / 2), (r % 32) * 2, 32 - r % 32, false)
        } else {
            (v4_rio_bank(chip.regs, reg / 2), (r % 32) * 2, 32 - r % 32, false)
        };
        let is_vr = if bank == 1 {
            biob == 28
        } else if bank == 2 {
            biob == 34
        } else if bank == 3 {
            biob == 12
        } else if bank == 4 {
            biob == 2
        } else {
            biob == 18
        };
        let is_cc = r % 16 == 7 || r % 16 == 8;
        IoInfo {
            bank,
            biob: (biob + io.iob.0) as u32,
            pkgid: pkgid as u32,
            byte: None,
            kind: IoKind::Hpio,
            diff: diff_pair(io),
            is_vref: r % 8 == 4 && io.iob.0 == 0,
            is_lc: is_cc || io.col.0 == self.col_cfg.0,
            is_gc,
            is_srcc: is_cc,
            is_mrcc: false,
            is_dqs: false,
            vr: vr_kind(is_vr, io),
        }
    }

    fn v5_io_info_exec(&self, chip: &Chip, io: IoCoord) -> (r: IoInfo)
        requires
            self.kind is Virtex5,
            self.io_info_ok(io),
            *chip == self.chips@[io.die.0 as int],
        ensures
            r == self.v5_io_info(*chip, io),
    {
        let r = io.row.0;
        let reg = chip.row_to_reg(io.row).0;
        let c = chip.reg_cfg.0;
        let ghost rr = reg - c;
        let bank_u: usize = if io.col.0 == self.col_cfg.0 {
            if reg + 4 <= c {
                6 + (c - reg - 4) * 2
            } else if reg >= c + 3 {
                5 + (reg - c - 3) * 2
            } else if reg < c {
                2 + (c - reg - 1) * 2
            } else {
                1 + (reg - c) * 2
            }
        } else {
            (if reg < c {
                13 + (c - reg - 1) * 4
            } else {
                11 + (reg - c) * 4
            }) + if self.col_rio == Some(io.col) {
                1
            } else {
                0
            }
        };
        assert(bank_u == self.v5_io_bank(*chip, io));
        let bank = bank_u as u32;
        let is_short_bank = bank <= 4;
        let biob = if is_short_bank { 2 * (r % 10) } else { 2 * (r % 20) };
        let pkgid = if is_short_bank { (18 - biob) / 2 } else { (38 - biob) / 2 };
        let is_vr = if bank == 1 || bank == 2 {
            false
        } else if bank == 3 {
            biob == 14
        } else if bank == 4 {
            biob == 4
        } else {
            biob == 14
        };
        IoInfo {
            bank,
            biob: (biob + io.iob.0) as u32,
            pkgid: pkgid as u32,
            byte: None,
            kind: IoKind::Hpio,
            diff: diff_pair(io),
            is_vref: r % 10 == 5 && io.iob.0 == 0,
            is_lc: false,
            is_gc: bank == 3 || bank == 4,
            is_srcc: 8 <= r % 20 && r % 20 <= 11,
            is_mrcc: false,
            is_dqs: false,
            vr: vr_kind(is_vr, io),
        }
    }

    fn v6_io_info_exec(&self, chip: &Chip, io: IoCoord) -> (r: IoInfo)
        requires
            self.kind is Virtex6,
            self.io_info_ok(io),
            *chip == self.chips@[io.die.0 as int],
        ensures
            r == self.v6_io_info(*chip, io),
    {
        let r = io.row.0;
        let r40 = r % 40;
        let reg = chip.row_to_reg(io.row).0;
        let base: usize = if self.col_lio == Some(io.col) {
            15
        } else if self.col_lcio == Some(io.col) {
            25
        } else if self.col_rcio == Some(io.col) {
            35
        } else {
            45
        };
        let bank = (base - chip.reg_cfg.0 + reg) as u32;
        let is_vr = if bank == 34 {
            r40 == 0
        } else if bank == 24 {
            r40 == 4
        } else if bank == 15 || bank == 25 || bank == 35 {
            r40 == 6
        } else {
            r40 == 14
        };
        IoInfo {
            bank,
            biob: (r40 + io.iob.0) as u32,
            pkgid: ((38 - r40) / 2) as u32,
            byte: None,
            kind: IoKind::Hpio,
            diff: diff_pair(io),
            is_vref: r % 20 == 10 && io.iob.0 == 0,
            is_lc: false,
            is_gc: ((bank == 24 || bank == 34) && (r40 == 36 || r40 == 38)) || ((bank == 25 || bank
                == 35) && (r40 == 0 || r40 == 2)),
            is_srcc: r40 == 16 || r40 == 22,
            is_mrcc: r40 == 18 || r40 == 20,
            is_dqs: false,
            vr: vr_kind(is_vr, io),
        }
    }

    fn v7_io_info_exec(&self, chip: &Chip, io: IoCoord) -> (r: IoInfo)
        requires
            self.kind is Virtex7,
            self.io_info_ok(io),
            *chip == self.chips@[io.die.0 as int],
        ensures
            r == self.v7_io_info(*chip, io),
    {
        let r = io.row.0;
        let r50 = r % 50;
        let reg = chip.row_to_reg(io.row).0;
        let x: u32 = if self.col_lio == Some(io.col) { 0 } else { 20 };
        let y: u32 = self.banklut[io.die.0] + reg as u32 - chip.reg_cfg.0 as u32;
        let ghost fi = first_io_col(chip.cols_io@, io.col);
        let kind = match chip.get_col_io(io.col) {
            Some(iocol) => {
                proof {
                    let i = choose|i: int|
                        0 <= i < chip.cols_io@.len() && *iocol == chip.cols_io@[i] && iocol.col
                            == io.col && forall|j: int|
                            0 <= j < i ==> (#[trigger] chip.cols_io@[j]).col != io.col;
                    assert(0 <= fi < chip.cols_io@.len() && chip.cols_io@[fi].col == io.col);
                    if i < fi {
                        assert(chip.cols_io@[i].col != io.col);
                    }
                    if fi < i {
                        assert(chip.cols_io@[fi].col != io.col);
                    }
                    assert(i == fi);
                }
                match iocol.regs[reg] {
                    Some(k) => k,
                    None => IoKind::Hpio,
                }
            },
            None => IoKind::Hpio,
        };
        IoInfo {
            bank: x + y,
            biob: (r50 + io.iob.0) as u32,
            pkgid: ((50 - r50) / 2) as u32,
            byte: if r50 == 0 || r50 == 49 {
                None
            } else if r50 < 13 {
                Some(3)
            } else if r50 < 25 {
                Some(2)
            } else if r50 < 37 {
                Some(1)
            } else {
                Some(0)
            },
            kind,
            diff: if r50 == 0 || r50 == 49 {
                IoDiffKind::NoPair
            } else {
                diff_pair(io)
            },
            is_vref: (r50 == 11 || r50 == 37) && io.iob.0 == 0,
            is_lc: false,
            is_gc: false,
            is_srcc: r50 == 21 || r50 == 27,
            is_mrcc: r50 == 23 || r50 == 25,
            is_dqs: r50 == 7 || r50 == 19 || r50 == 31 || r50 == 43,
            vr: if r50 == 0 && matches!(kind, IoKind::Hpio) {
                IoVrKind::VrP
            } else if r50 == 49 && matches!(kind, IoKind::Hpio) {
                IoVrKind::VrN
            } else {
                IoVrKind::NoVr
            },
        }
    }

    /// The bank, pin numbering and special roles of an IO.
    pub fn get_io_info(&self, io: IoCoord) -> (r: IoInfo)
        requires
            self.io_info_ok(io),
        ensures
            r == self.spec_io_info(io),
    {
        let chip = &self.chips[io.die.0];
        match self.kind {
            ChipKind::Virtex4 => self.v4_io_info_exec(chip, io),
            ChipKind::Virtex5 => self.v5_io_info_exec(chip, io),
            ChipKind::Virtex6 => self.v6_io_info_exec(chip, io),
            ChipKind::Virtex7 => self.v7_io_info_exec(chip, io),
        }
    }
}

/// The bank of a transceiver of the left column of a Virtex 4 chip, by region count and pair of regions.
pub open spec fn spec_v4_lgt_bank(regs: int, k: int) -> u32 {
    if regs == 4 && k == 0 {
        105
    } else if regs == 4 && k == 1 {
        102
    } else if regs == 6 && k == 0 {
        105
    } else if regs == 6 && k == 1 {
        103
    } else if regs == 6 && k == 2 {
        102
    } else if regs == 8 && k == 0 {
        106
    } else if regs == 8 && k == 1 {
        105
    } else if regs == 8 && k == 2 {
        103
    } else if regs == 8 && k == 3 {
        102
    } else if regs == 10 && k == 0 {
        106
    } else if regs == 10 && k == 1 {
        105
    } else if regs == 10 && k == 2 {
        103
    } else if regs == 10 && k == 3 {
        102
    } else if regs == 10 && k == 4 {
        101
    } else if regs == 12 && k == 0 {
        106
    } else if regs == 12 && k == 1 {
        105
    } else if regs == 12 && k == 2 {
        104
    } else if regs == 12 && k == 3 {
        103
    } else if regs == 12 && k == 4 {
        102
    } else if regs == 12 && k == 5 {
        101
    } else {
        0
    }
}

fn v4_lgt_bank(regs: usize, k: usize) -> (r: u32)
    ensures
        r == spec_v4_lgt_bank(regs as int, k as int),
{
    if regs == 4 && k == 0 {
        105
    } else if regs == 4 && k == 1 {
        102
    } else if regs == 6 && k == 0 {
        105
    } else if regs == 6 && k == 1 {
        103
    } else if regs == 6 && k == 2 {
        102
    } else if regs == 8 && k == 0 {
        106
    } else if regs == 8 && k == 1 {
        105
    } else if regs == 8 && k == 2 {
        103
    } else if regs == 8 && k == 3 {
        102
    } else if regs == 10 && k == 0 {
        106
    } else if regs == 10 && k == 1 {
        105
    } else if regs == 10 && k == 2 {
        103
    } else if regs == 10 && k == 3 {
        102
    } else if regs == 10 && k == 4 {
        101
    } else if regs == 12 && k == 0 {
        106
    } else if regs == 12 && k == 1 {
        105
    } else if regs == 12 && k == 2 {
        104
    } else if regs == 12 && k == 3 {
        103
    } else if regs == 12 && k == 4 {
        102
    } else if regs == 12 && k == 5 {
        101
    } else {
        0
    }
}

/// The bank of a transceiver of the right column of a Virtex 4 chip, by region count and pair of regions.
pub open spec fn spec_v4_rgt_bank(regs: int, k: int) -> u32 {
    if regs == 4 && k == 0 {
        110
    } else if regs == 4 && k == 1 {
        113
    } else if regs == 6 && k == 0 {
        110
    } else if regs == 6 && k == 1 {
        112
    } else if regs == 6 && k == 2 {
        113
    } else if regs == 8 && k == 0 {
        109
    } else if regs == 8 && k == 1 {
        110
    } else if regs == 8 && k == 2 {
        112
    } else if regs == 8 && k == 3 {
        113
    } else if regs == 10 && k == 0 {
        109
    } else if regs == 10 && k == 1 {
        110
    } else if regs == 10 && k == 2 {
        112
    } else if regs == 10 && k == 3 {
        113
    } else if regs == 10 && k == 4 {
        114
    } else if regs == 12 && k == 0 {
        109
    } else if regs == 12 && k == 1 {
        110
    } else if regs == 12 && k == 2 {
        111
    } else if regs == 12 && k == 3 {
        112
    } else if regs == 12 && k == 4 {
        113
    } else if regs == 12 && k == 5 {
        114
    } else {
        0
    }
}

fn v4_rgt_bank(regs: usize, k: usize) -> (r: u32)
    ensures
        r == spec_v4_rgt_bank(regs as int, k as int),
{
    if regs == 4 && k == 0 {
        110
    } else if regs == 4 && k == 1 {
        113
    } else if regs == 6 && k == 0 {
        110
    } else if regs == 6 && k == 1 {
        112
    } else if regs == 6 && k == 2 {
        113
    } else if regs == 8 && k == 0 {
        109
    } else if regs == 8 && k == 1 {
        110
    } else if regs == 8 && k == 2 {
        112
    } else if regs == 8 && k == 3 {
        113
    } else if regs == 10 && k == 0 {
        109
    } else if regs == 10 && k == 1 {
        110
    } else if regs == 10 && k == 2 {
        112
    } else if regs == 10 && k == 3 {
        113
    } else if regs == 10 && k == 4 {
        114
    } else if regs == 12 && k == 0 {
        109
    } else if regs == 12 && k == 1 {
        110
    } else if regs == 12 && k == 2 {
        111
    } else if regs == 12 && k == 3 {
        112
    } else if regs == 12 && k == 4 {
        113
    } else if regs == 12 && k == 5 {
        114
    } else {
        0
    }
}

/// The row offset of a Virtex 4 system monitor auxiliary input pair (input 0 has none).
pub open spec fn spec_v4_vaux_dy(idx: int) -> usize {
    if idx == 0 {
        0
    } else if idx == 1 {
        0
    } else if idx == 2 {
        1
    } else if idx == 3 {
        2
    } else if idx == 4 {
        3
    } else if idx == 5 {
        5
    } else if idx == 6 {
        6
    } else if idx == 7 {
        7
    } else {
        0
    }
}

fn v4_vaux_dy(idx: usize) -> (r: usize)
    ensures
        r == spec_v4_vaux_dy(idx as int),
{
    if idx == 0 {
        0
    } else if idx == 1 {
        0
    } else if idx == 2 {
        1
    } else if idx == 3 {
        2
    } else if idx == 4 {
        3
    } else if idx == 5 {
        5
    } else if idx == 6 {
        6
    } else if idx == 7 {
        7
    } else {
        0
    }
}

/// The row offset of a Virtex 5 system monitor auxiliary input pair.
pub open spec fn spec_v5_vaux_dy(idx: int) -> usize {
    if idx == 0 {
        0
    } else if idx == 1 {
        1
    } else if idx == 2 {
        2
    } else if idx == 3 {
        3
    } else if idx == 4 {
        4
    } else if idx == 5 {
        6
    } else if idx == 6 {
        7
    } else if idx == 7 {
        8
    } else if idx == 8 {
        9
    } else if idx == 9 {
        10
    } else if idx == 10 {
        11
    } else if idx == 11 {
        12
    } else if idx == 12 {
        13
    } else if idx == 13 {
        14
    } else if idx == 14 {
        18
    } else if idx == 15 {
        19
    } else {
        0
    }
}

fn v5_vaux_dy(idx: usize) -> (r: usize)
    ensures
        r == spec_v5_vaux_dy(idx as int),
{
    if idx == 0 {
        0
    } else if idx == 1 {
        1
    } else if idx == 2 {
        2
    } else if idx == 3 {
        3
    } else if idx == 4 {
        4
    } else if idx == 5 {
        6
    } else if idx == 6 {
        7
    } else if idx == 7 {
        8
    } else if idx == 8 {
        9
    } else if idx == 9 {
        10
    } else if idx == 10 {
        11
    } else if idx == 11 {
        12
    } else if idx == 12 {
        13
    } else if idx == 13 {
        14
    } else if idx == 14 {
        18
    } else if idx == 15 {
        19
    } else {
        0
    }
}

/// The row offset of a Virtex 6 system monitor auxiliary input pair.
pub open spec fn spec_v6_vaux_dy(idx: int) -> usize {
    if idx == 0 {
        34
    } else if idx == 1 {
        32
    } else if idx == 2 {
        28
    } else if idx == 3 {
        26
    } else if idx == 4 {
        24
    } else if idx == 5 {
        14
    } else if idx == 6 {
        12
    } else if idx == 7 {
        8
    } else if idx == 8 {
        34
    } else if idx == 9 {
        32
    } else if idx == 10 {
        28
    } else if idx == 11 {
        26
    } else if idx == 12 {
        24
    } else if idx == 13 {
        14
    } else if idx == 14 {
        12
    } else if idx == 15 {
        8
    } else {
        0
    }
}

fn v6_vaux_dy(idx: usize) -> (r: usize)
    ensures
        r == spec_v6_vaux_dy(idx as int),
{
    if idx == 0 {
        34
    } else if idx == 1 {
        32
    } else if idx == 2 {
        28
    } else if idx == 3 {
        26
    } else if idx == 4 {
        24
    } else if idx == 5 {
        14
    } else if idx == 6 {
        12
    } else if idx == 7 {
        8
    } else if idx == 8 {
        34
    } else if idx == 9 {
        32
    } else if idx == 10 {
        28
    } else if idx == 11 {
        26
    } else if idx == 12 {
        24
    } else if idx == 13 {
        14
    } else if idx == 14 {
        12
    } else if idx == 15 {
        8
    } else {
        0
    }
}

/// The Virtex 7 auxiliary inputs when they lie in the left IO column: whether in the right column, and the row offset.
pub open spec fn spec_v7_vaux_w(idx: int) -> Option<(bool, usize)> {
    if idx == 0 {
        Some((false, 47))
    } else if idx == 1 {
        Some((false, 43))
    } else if idx == 2 {
        Some((false, 39))
    } else if idx == 3 {
        Some((false, 33))
    } else if idx == 4 {
        Some((false, 29))
    } else if idx == 5 {
        Some((false, 25))
    } else if idx == 6 {
        None
    } else if idx == 7 {
        None
    } else if idx == 8 {
        Some((false, 45))
    } else if idx == 9 {
        Some((false, 41))
    } else if idx == 10 {
        Some((false, 35))
    } else if idx == 11 {
        Some((false, 31))
    } else if idx == 12 {
        Some((false, 27))
    } else if idx == 13 {
        None
    } else if idx == 14 {
        None
    } else if idx == 15 {
        None
    } else {
        None
    }
}

fn v7_vaux_w(idx: usize) -> (r: Option<(bool, usize)>)
    ensures
        r == spec_v7_vaux_w(idx as int),
{
    if idx == 0 {
        Some((false, 47))
    } else if idx == 1 {
        Some((false, 43))
    } else if idx == 2 {
        Some((false, 39))
    } else if idx == 3 {
        Some((false, 33))
    } else if idx == 4 {
        Some((false, 29))
    } else if idx == 5 {
        Some((false, 25))
    } else if idx == 6 {
        None
    } else if idx == 7 {
        None
    } else if idx == 8 {
        Some((false, 45))
    } else if idx == 9 {
        Some((false, 41))
    } else if idx == 10 {
        Some((false, 35))
    } else if idx == 11 {
        Some((false, 31))
    } else if idx == 12 {
        Some((false, 27))
    } else if idx == 13 {
        None
    } else if idx == 14 {
        None
    } else if idx == 15 {
        None
    } else {
        None
    }
}

/// The Virtex 7 auxiliary inputs when they lie in the right IO column.
pub open spec fn spec_v7_vaux_e(idx: int) -> Option<(bool, usize)> {
    if idx == 0 {
        Some((true, 47))
    } else if idx == 1 {
        Some((true, 43))
    } else if idx == 2 {
        Some((true, 35))
    } else if idx == 3 {
        Some((true, 31))
    } else if idx == 4 {
        Some((true, 21))
    } else if idx == 5 {
        Some((true, 15))
    } else if idx == 6 {
        Some((true, 9))
    } else if idx == 7 {
        Some((true, 5))
    } else if idx == 8 {
        Some((true, 45))
    } else if idx == 9 {
        Some((true, 39))
    } else if idx == 10 {
        Some((true, 33))
    } else if idx == 11 {
        Some((true, 29))
    } else if idx == 12 {
        Some((true, 19))
    } else if idx == 13 {
        Some((true, 13))
    } else if idx == 14 {
        Some((true, 7))
    } else if idx == 15 {
        Some((true, 1))
    } else {
        None
    }
}

fn v7_vaux_e(idx: usize) -> (r: Option<(bool, usize)>)
    ensures
        r == spec_v7_vaux_e(idx as int),
{
    if idx == 0 {
        Some((true, 47))
    } else if idx == 1 {
        Some((true, 43))
    } else if idx == 2 {
        Some((true, 35))
    } else if idx == 3 {
        Some((true, 31))
    } else if idx == 4 {
        Some((true, 21))
    } else if idx == 5 {
        Some((true, 15))
    } else if idx == 6 {
        Some((true, 9))
    } else if idx == 7 {
        Some((true, 5))
    } else if idx == 8 {
        Some((true, 45))
    } else if idx == 9 {
        Some((true, 39))
    } else if idx == 10 {
        Some((true, 33))
    } else if idx == 11 {
        Some((true, 29))
    } else if idx == 12 {
        Some((true, 19))
    } else if idx == 13 {
        Some((true, 13))
    } else if idx == 14 {
        Some((true, 7))
    } else if idx == 15 {
        Some((true, 1))
    } else {
        None
    }
}

/// The Virtex 7 auxiliary inputs when they lie in both IO columns.
pub open spec fn spec_v7_vaux_both(idx: int) -> Option<(bool, usize)> {
    if idx == 0 {
        Some((false, 47))
    } else if idx == 1 {
        Some((false, 43))
    } else if idx == 2 {
        Some((false, 35))
    } else if idx == 3 {
        Some((false, 31))
    } else if idx == 4 {
        Some((true, 47))
    } else if idx == 5 {
        Some((true, 43))
    } else if idx == 6 {
        Some((true, 35))
    } else if idx == 7 {
        Some((true, 31))
    } else if idx == 8 {
        Some((false, 45))
    } else if idx == 9 {
        Some((false, 39))
    } else if idx == 10 {
        Some((false, 33))
    } else if idx == 11 {
        Some((false, 29))
    } else if idx == 12 {
        Some((true, 45))
    } else if idx == 13 {
        Some((true, 39))
    } else if idx == 14 {
        Some((true, 33))
    } else if idx == 15 {
        Some((true, 29))
    } else {
        None
    }
}

fn v7_vaux_both(idx: usize) -> (r: Option<(bool, usize)>)
    ensures
        r == spec_v7_vaux_both(idx as int),
{
    if idx == 0 {
        Some((false, 47))
    } else if idx == 1 {
        Some((false, 43))
    } else if idx == 2 {
        Some((false, 35))
    } else if idx == 3 {
        Some((false, 31))
    } else if idx == 4 {
        Some((true, 47))
    } else if idx == 5 {
        Some((true, 43))
    } else if idx == 6 {
        Some((true, 35))
    } else if idx == 7 {
        Some((true, 31))
    } else if idx == 8 {
        Some((false, 45))
    } else if idx == 9 {
        Some((false, 39))
    } else if idx == 10 {
        Some((false, 33))
    } else if idx == 11 {
        Some((false, 29))
    } else if idx == 12 {
        Some((true, 45))
    } else if idx == 13 {
        Some((true, 39))
    } else if idx == 14 {
        Some((true, 33))
    } else if idx == 15 {
        Some((true, 29))
    } else {
        None
    }
}

/// The pair of IOs (true side first) at a row of an IO column.
pub open spec fn io_pair(die: DieId, col: ColId, row: int) -> (IoCoord, IoCoord) {
    (
        IoCoord { die, col, row: RowId(row as usize), iob: TileIobId(1) },
        IoCoord { die, col, row: RowId(row as usize), iob: TileIobId(0) },
    )
}

fn mk_io_pair(die: DieId, col: ColId, row: usize) -> (r: (IoCoord, IoCoord))
    ensures
        r == io_pair(die, col, row as int),
{
    (
        IoCoord { die, col, row: RowId(row), iob: TileIobId(1) },
        IoCoord { die, col, row: RowId(row), iob: TileIobId(0) },
    )
}

impl ExpandedDevice {
    /// The bank and kind of a transceiver.
    pub open spec fn spec_gt_info(self, die: DieId, col: ColId, row: RowId) -> GtInfo {
        let chip = self.chips@[die.0 as int];
        let reg = chip.sp_row_to_reg(row.0 as int);
        let c = chip.reg_cfg.0 as int;
        let gtcol = chip.cols_gt@[first_gt_col(chip.cols_gt@, col)];
        let kind = gtcol.regs@[reg].unwrap();
        let bank: u32 = match self.kind {
            ChipKind::Virtex4 => if self.col_lgt == Some(col) {
                spec_v4_lgt_bank(chip.regs as int, row.0 as int / 32)
            } else {
                spec_v4_rgt_bank(chip.regs as int, row.0 as int / 32)
            },
            ChipKind::Virtex5 => ((if reg < c {
                113 + (c - reg - 1) * 4
            } else {
                111 + (reg - c) * 4
            }) + if col.0 != 0 {
                1int
            } else {
                0int
            }) as u32,
            ChipKind::Virtex6 => (reg - c + if col.0 == 0 {
                105int
            } else {
                115int
            }) as u32,
            ChipKind::Virtex7 => if kind is Gtp {
                if chip.has_ps {
                    112
                } else {
                    let x: int = if gtcol.is_middle && col.0 > self.col_clk.0 { 100 } else { 200 };
                    let y: int = if reg == 0 { 13 } else { 16 };
                    (x + y) as u32
                }
            } else {
                let x: int = if col.0 == 0 { 200 } else { 100 };
                (x + self.banklut@[die.0 as int] + reg - c) as u32
            },
        };
        GtInfo { bank, kind }
    }

    /// The inputs on which `get_gt_info` computes without failing: the
    /// column is a transceiver column with a transceiver in the row's
    /// region, and the bank arithmetic stays in range.
    pub open spec fn gt_info_ok(self, die: DieId, col: ColId, row: RowId) -> bool {
        &&& die.0 < self.chips@.len()
        &&& row.0 + 256 <= usize::MAX
        &&& {
            let chip = self.chips@[die.0 as int];
            let reg = chip.sp_row_to_reg(row.0 as int);
            let c = chip.reg_cfg.0 as int;
            let gi = first_gt_col(chip.cols_gt@, col);
            &&& chip.kind == self.kind
            &&& exists|i: int| 0 <= i < chip.cols_gt@.len() && (#[trigger] chip.cols_gt@[i]).col == col
            &&& reg < chip.cols_gt@[gi].regs@.len()
            &&& chip.cols_gt@[gi].regs@[reg] is Some
            &&& c * 4 + 200 <= usize::MAX
            &&& match self.kind {
                ChipKind::Virtex4 => v4_regs_ok(chip.regs as int) && row.0 / 32 < chip.regs / 2,
                ChipKind::Virtex5 => true,
                ChipKind::Virtex6 => c <= reg + 105,
                ChipKind::Virtex7 => chip.cols_gt@[gi].regs@[reg].unwrap() is Gtp || {
                    &&& die.0 < self.banklut@.len()
                    &&& c <= self.banklut@[die.0 as int] + reg
                    &&& self.banklut@[die.0 as int] + reg + 200 <= u32::MAX
                },
            }
        }
    }

    /// The bank and kind of the transceiver at a cell.
    pub fn get_gt_info(&self, die: DieId, col: ColId, row: RowId) -> (r: GtInfo)
        requires
            self.gt_info_ok(die, col, row),
        ensures
            r == self.spec_gt_info(die, col, row),
    {
        let chip = &self.chips[die.0];
        let reg = chip.row_to_reg(row).0;
        let c = chip.reg_cfg.0;
        proof {
            lemma_reg_le_row(*chip, row.0 as int);
        }
        let ghost gi = first_gt_col(chip.cols_gt@, col);
        let (is_middle, kind) = match chip.get_col_gt(col) {
            Some(gtcol) => {
                proof {
                    let i = choose|i: int|
                        0 <= i < chip.cols_gt@.len() && *gtcol == chip.cols_gt@[i] && gtcol.col == col
                            && forall|j: int| 0 <= j < i ==> (#[trigger] chip.cols_gt@[j]).col != col;
                    if i < gi {
                        assert(chip.cols_gt@[i].col != col);
                    }
                    if gi < i {
                        assert(chip.cols_gt@[gi].col != col);
                    }
                    assert(i == gi);
                }
                (
                    gtcol.is_middle,
                    match gtcol.regs[reg] {
                        Some(k) => k,
                        None => GtKind::Gtp,
                    },
                )
            },
            None => (false, GtKind::Gtp),
        };
        let bank: u32 = match self.kind {
            ChipKind::Virtex4 => if self.col_lgt == Some(col) {
                v4_lgt_bank(chip.regs, row.0 / 32)
            } else {
                v4_rgt_bank(chip.regs, row.0 / 32)
            },
            ChipKind::Virtex5 => ((if reg < c {
                113 + (c - reg - 1) * 4
            } else {
                111 + (reg - c) * 4
            }) + if col.0 != 0 {
                1
            } else {
                0
            }) as u32,
            ChipKind::Virtex6 => (reg + (if col.0 == 0 {
                105
            } else {
                115
            }) - c) as u32,
            ChipKind::Virtex7 => if matches!(kind, GtKind::Gtp) {
                if chip.has_ps {
                    112
                } else {
                    let x: u32 = if is_middle && col.0 > self.col_clk.0 { 100 } else { 200 };
                    let y: u32 = if reg == 0 { 13 } else { 16 };
                    x + y
                }
            } else {
                let x: u32 = if col.0 == 0 { 200 } else { 100 };
                let y: u32 = self.banklut[die.0] + reg as u32 - c as u32;
                x + y
            },
        };
        GtInfo { bank, kind }
    }

    /// The IO pair that carries auxiliary analog input `idx` of the system
    /// monitor at the given configuration column cell, if any.
    pub open spec fn spec_sysmon_vaux(self, die: DieId, col: ColId, row: RowId, idx: int) -> Option<(IoCoord, IoCoord)> {
        let r = row.0 as int;
        match self.kind {
            ChipKind::Virtex4 => if idx == 0 {
                None
            } else {
                Some(io_pair(die, self.col_lio.unwrap(), r + spec_v4_vaux_dy(idx)))
            },
            ChipKind::Virtex5 => Some(io_pair(die, self.col_lio.unwrap(), r + spec_v5_vaux_dy(idx))),
            ChipKind::Virtex6 => {
                let cl = if self.col_lio is Some { self.col_lio.unwrap() } else { self.col_lcio.unwrap() };
                let cr = self.col_rcio.unwrap();
                Some(io_pair(die, if idx < 8 { cr } else { cl }, r + spec_v6_vaux_dy(idx)))
            },
            ChipKind::Virtex7 => {
                let t = match self.chips@[die.0 as int].spec_xadc_io_loc() {
                    crate::virtex4::chip::XadcIoLoc::W => spec_v7_vaux_w(idx),
                    crate::virtex4::chip::XadcIoLoc::E => spec_v7_vaux_e(idx),
                    crate::virtex4::chip::XadcIoLoc::Both => spec_v7_vaux_both(idx),
                };
                match t {
                    Some((right, dy)) => Some(
                        io_pair(
                            die,
                            if right { self.col_rio.unwrap() } else { self.col_lio.unwrap() },
                            r - 25 + dy,
                        ),
                    ),
                    None => None,
                }
            },
        }
    }

    /// The inputs on which `get_sysmon_vaux` computes without failing.
    pub open spec fn sysmon_vaux_ok(self, die: DieId, col: ColId, row: RowId, idx: int) -> bool {
        &&& col == self.col_cfg
        &&& row.0 + 64 <= usize::MAX
        &&& match self.kind {
            ChipKind::Virtex4 => idx < 8 && (idx > 0 ==> self.col_lio is Some),
            ChipKind::Virtex5 => idx < 16 && self.col_lio is Some,
            ChipKind::Virtex6 => idx < 16 && self.col_rcio is Some && (self.col_lio is Some
                || self.col_lcio is Some),
            ChipKind::Virtex7 => {
                let chip = self.chips@[die.0 as int];
                let loc = chip.spec_xadc_io_loc();
                &&& idx < 16
                &&& row.0 >= 25
                &&& die.0 < self.chips@.len()
                &&& chip.kind is Virtex7
                &&& chip.regs > 1
                &&& !chip.has_ps ==> chip.cols_io@.len() >= 1
                &&& !chip.has_ps && chip.cols_io@.len() >= 2 ==> chip.reg_cfg.0
                    < chip.cols_io@[1].regs@.len()
                &&& loc !is E ==> self.col_lio is Some
                &&& loc !is W ==> self.col_rio is Some
            },
        }
    }

    /// The IO pair that carries auxiliary analog input `idx` of the system
    /// monitor at the given configuration column cell, if any.
    pub fn get_sysmon_vaux(&self, die: DieId, col: ColId, row: RowId, idx: usize) -> (r: Option<(IoCoord, IoCoord)>)
        requires
            self.sysmon_vaux_ok(die, col, row, idx as int),
        ensures
            r == self.spec_sysmon_vaux(die, col, row, idx as int),
    {
        let r = row.0;
        match self.kind {
            ChipKind::Virtex4 => if idx == 0 {
                None
            } else {
                let cl = match self.col_lio {
                    Some(c) => c,
                    None => ColId(0),
                };
                Some(mk_io_pair(die, cl, r + v4_vaux_dy(idx)))
            },
            ChipKind::Virtex5 => {
                let cl = match self.col_lio {
                    Some(c) => c,
                    None => ColId(0),
                };
                Some(mk_io_pair(die, cl, r + v5_vaux_dy(idx)))
            },
            ChipKind::Virtex6 => {
                let cl = match self.col_lio {
                    Some(c) => c,
                    None => match self.col_lcio {
                        Some(c) => c,
                        None => ColId(0),
                    },
                };
                let cr = match self.col_rcio {
                    Some(c) => c,
                    None => ColId(0),
                };
                Some(mk_io_pair(die, if idx < 8 { cr } else { cl }, r + v6_vaux_dy(idx)))
            },
            ChipKind::Virtex7 => {
                let chip = &self.chips[die.0];
                let t = match chip.get_xadc_io_loc() {
                    crate::virtex4::chip::XadcIoLoc::W => v7_vaux_w(idx),
                    crate::virtex4::chip::XadcIoLoc::E => v7_vaux_e(idx),
                    crate::virtex4::chip::XadcIoLoc::Both => v7_vaux_both(idx),
                };
                match t {
                    Some((right, dy)) => {
                        let c = if right {
                            match self.col_rio {
                                Some(c) => c,
                                None => ColId(0),
                            }
                        } else {
                            match self.col_lio {
                                Some(c) => c,
                                None => ColId(0),
                            }
                        };
                        Some(mk_io_pair(die, c, r - 25 + dy))
                    },
                    None => None,
                }
            },
        }
    }
}

/// The region number of a row is at most the row number.
pub proof fn lemma_reg_le_row(chip: Chip, row: int)
    requires
        row >= 0,
    ensures
        0 <= chip.sp_row_to_reg(row) <= row,
        chip.sp_row_to_reg(row) * 16 <= row,
{
    let rpr = chip.sp_rpr() as int;
    vstd::arithmetic::div_mod::lemma_fundamental_div_mod(row, rpr);
    vstd::arithmetic::div_mod::lemma_mod_bound(row, rpr);
    let q = row / rpr;
    vstd::arithmetic::div_mod::lemma_div_pos_is_pos(row, rpr);
    assert(q * 16 <= rpr * q) by (nonlinear_arith)
        requires
            q >= 0,
            rpr >= 16,
    ;
}

impl ExpandedDevice {
    /// The frame tables of a die cover a region and a column.
    pub open spec fn frames_cover(self, die: DieId, reg: int, col: int) -> bool {
        &&& die.0 < self.frames@.len()
        &&& 0 <= reg < self.frames@[die.0 as int].col_frame@.len()
        &&& 0 <= reg < self.frames@[die.0 as int].col_width@.len()
        &&& 0 <= col < self.frames@[die.0 as int].col_frame@[reg]@.len()
        &&& 0 <= col < self.frames@[die.0 as int].col_width@[reg]@.len()
    }

    /// Height, first bit and flip of the bit tile of a row within its region:
    /// on the Virtex 4 a row is 80 bits high, with the clock spine's 32 bits
    /// after the eighth row, and regions below the configuration region are
    /// flipped; on the later families a row is 64 bits high, with the 32
    /// clock spine bits after the middle row.
    pub open spec fn spec_row_bits(self, chip: Chip, row: int) -> (usize, usize, bool) {
        let reg = chip.sp_row_to_reg(row);
        let rd = row - chip.sp_row_reg_bot(reg);
        if self.kind is Virtex4 {
            let flip = reg < chip.reg_cfg.0;
            let pos = (if flip { 15 - rd } else { rd }) * 80;
            (80, (if pos < 640 { pos } else { pos + 32 }) as usize, flip)
        } else {
            (64, (64 * rd + if row >= chip.sp_row_reg_hclk(reg) { 32int } else { 0int }) as usize, false)
        }
    }

    /// The main bit tile of a cell.
    pub open spec fn spec_btile_main(self, die: DieId, col: int, row: int) -> BitTile {
        let chip = self.chips@[die.0 as int];
        let reg = chip.sp_row_to_reg(row);
        let (height, bit, flip) = self.spec_row_bits(chip, row);
        let fr = self.frames@[die.0 as int];
        BitTile::Main(die, fr.col_frame@[reg]@[col], fr.col_width@[reg]@[col], bit, height, flip)
    }

    /// The bit tile of the horizontal clock row of a cell's region.
    pub open spec fn spec_btile_hclk(self, die: DieId, col: int, row: int) -> BitTile {
        let chip = self.chips@[die.0 as int];
        let reg = chip.sp_row_to_reg(row);
        let bit = (if self.kind is Virtex4 { 80 * chip.sp_rpr() / 2 } else { 64 * chip.sp_rpr() / 2 }) as usize;
        let fr = self.frames@[die.0 as int];
        BitTile::Main(die, fr.col_frame@[reg]@[col], fr.col_width@[reg]@[col], bit, 32, false)
    }

    /// The width in frames of the clock spine column.
    pub open spec fn spec_spine_width(self) -> usize {
        if self.kind is Virtex4 { 3 } else { 4 }
    }

    /// The bit tile of a row of the clock spine.
    pub open spec fn spec_btile_spine(self, die: DieId, row: int) -> BitTile {
        let chip = self.chips@[die.0 as int];
        let reg = chip.sp_row_to_reg(row);
        let (height, bit, flip) = self.spec_row_bits(chip, row);
        BitTile::Main(die, self.frames@[die.0 as int].spine_frame@[reg], self.spec_spine_width(), bit, height, flip)
    }

    /// The bit tile of the horizontal clock row of the clock spine.
    pub open spec fn spec_btile_spine_hclk(self, die: DieId, row: int) -> BitTile {
        let chip = self.chips@[die.0 as int];
        let reg = chip.sp_row_to_reg(row);
        let bit = (if self.kind is Virtex4 { 80 * chip.sp_rpr() / 2 } else { 64 * chip.sp_rpr() / 2 }) as usize;
        BitTile::Main(die, self.frames@[die.0 as int].spine_frame@[reg], self.spec_spine_width(), bit, 32, false)
    }

    /// The block RAM data bit tile of a cell.
    pub open spec fn spec_btile_bram(self, die: DieId, col: int, row: int) -> BitTile {
        let chip = self.chips@[die.0 as int];
        let reg = chip.sp_row_to_reg(row);
        let rd = row - chip.sp_row_reg_bot(reg);
        let (width, bit, flip) = if self.kind is Virtex4 {
            let flip = reg < chip.reg_cfg.0;
            let pos = (if flip { 12 - rd } else { rd }) * 80;
            (64usize, (if pos < 640 { pos } else { pos + 32 }) as usize, flip)
        } else {
            (128usize, (64 * rd + if row >= chip.sp_row_reg_hclk(reg) { 32int } else { 0int }) as usize, false)
        };
        BitTile::Main(die, self.frames@[die.0 as int].bram_frame@[reg]@[col].unwrap(), width, bit, 320, flip)
    }

    /// The cell lies on a die whose chip and frame tables exist.
    pub open spec fn cell_ok(self, die: DieId, row: int) -> bool {
        &&& die.0 < self.chips@.len()
        &&& self.chips@[die.0 as int].kind == self.kind
        &&& 0 <= row
        &&& row + 64 <= usize::MAX
    }

    fn row_bits(&self, chip: &Chip, row: RowId) -> (r: (usize, usize, bool))
        requires
            chip.kind == self.kind,
            row.0 + 64 <= usize::MAX,
        ensures
            r == self.spec_row_bits(*chip, row.0 as int),
    {
        let reg = chip.row_to_reg(row);
        proof {
            crate::virtex4::chip::lemma_row_in_own_region(*chip, row.0 as nat);
        }
        let bot = chip.row_reg_bot(reg).0;
        let rd = row.0 - bot;
        if matches!(self.kind, ChipKind::Virtex4) {
            let flip = reg.0 < chip.reg_cfg.0;
            let pos = (if flip { 15 - rd } else { rd }) * 80;
            (80, if pos < 640 { pos } else { pos + 32 }, flip)
        } else {
            let hclk = chip.row_reg_hclk(reg).0;
            (64, 64 * rd + if row.0 >= hclk { 32 } else { 0 }, false)
        }
    }

    /// The main bit tile of a cell.
    pub fn btile_main(&self, die: DieId, col: ColId, row: RowId) -> (r: BitTile)
        requires
            self.cell_ok(die, row.0 as int),
            self.frames_cover(die, self.chips@[die.0 as int].sp_row_to_reg(row.0 as int), col.0 as int),
        ensures
            r == self.spec_btile_main(die, col.0 as int, row.0 as int),
    {
        let chip = &self.chips[die.0];
        let reg = chip.row_to_reg(row).0;
        let (height, bit, flip) = self.row_bits(chip, row);
        let fr = &self.frames[die.0];
        BitTile::Main(die, fr.col_frame[reg][col.0], fr.col_width[reg][col.0], bit, height, flip)
    }

    /// The bit tile of the horizontal clock row of a cell's region.
    pub fn btile_hclk(&self, die: DieId, col: ColId, row: RowId) -> (r: BitTile)
        requires
            self.cell_ok(die, row.0 as int),
            self.frames_cover(die, self.chips@[die.0 as int].sp_row_to_reg(row.0 as int), col.0 as int),
        ensures
            r == self.spec_btile_hclk(die, col.0 as int, row.0 as int),
    {
        let chip = &self.chips[die.0];
        let reg = chip.row_to_reg(row).0;
        let bit = if matches!(self.kind, ChipKind::Virtex4) {
            80 * chip.rows_per_reg() / 2
        } else {
            64 * chip.rows_per_reg() / 2
        };
        let fr = &self.frames[die.0];
        BitTile::Main(die, fr.col_frame[reg][col.0], fr.col_width[reg][col.0], bit, 32, false)
    }

    /// The spine frame table of a die covers a region.
    pub open spec fn spine_covers(self, die: DieId, reg: int) -> bool {
        &&& die.0 < self.frames@.len()
        &&& 0 <= reg < self.frames@[die.0 as int].spine_frame@.len()
    }

    /// The bit tile of a row of the clock spine (Virtex 4 and Virtex 5).
    pub fn btile_spine(&self, die: DieId, row: RowId) -> (r: BitTile)
        requires
            self.kind is Virtex4 || self.kind is Virtex5,
            self.cell_ok(die, row.0 as int),
            self.spine_covers(die, self.chips@[die.0 as int].sp_row_to_reg(row.0 as int)),
        ensures
            r == self.spec_btile_spine(die, row.0 as int),
    {
        let chip = &self.chips[die.0];
        let reg = chip.row_to_reg(row).0;
        let (height, bit, flip) = self.row_bits(chip, row);
        let width = if matches!(self.kind, ChipKind::Virtex4) { 3 } else { 4 };
        BitTile::Main(die, self.frames[die.0].spine_frame[reg], width, bit, height, flip)
    }

    /// The bit tile of the horizontal clock row of the clock spine (Virtex 4 and Virtex 5).
    pub fn btile_spine_hclk(&self, die: DieId, row: RowId) -> (r: BitTile)
        requires
            self.kind is Virtex4 || self.kind is Virtex5,
            self.cell_ok(die, row.0 as int),
            self.spine_covers(die, self.chips@[die.0 as int].sp_row_to_reg(row.0 as int)),
        ensures
            r == self.spec_btile_spine_hclk(die, row.0 as int),
    {
        let chip = &self.chips[die.0];
        let reg = chip.row_to_reg(row).0;
        let bit = if matches!(self.kind, ChipKind::Virtex4) {
            80 * chip.rows_per_reg() / 2
        } else {
            64 * chip.rows_per_reg() / 2
        };
        let width = if matches!(self.kind, ChipKind::Virtex4) { 3 } else { 4 };
        BitTile::Main(die, self.frames[die.0].spine_frame[reg], width, bit, 32, false)
    }

    /// The block RAM frame table of a die has the block RAM column of a region.
    pub open spec fn bram_covers(self, die: DieId, reg: int, col: int) -> bool {
        &&& die.0 < self.frames@.len()
        &&& 0 <= reg < self.frames@[die.0 as int].bram_frame@.len()
        &&& 0 <= col < self.frames@[die.0 as int].bram_frame@[reg]@.len()
        &&& self.frames@[die.0 as int].bram_frame@[reg]@[col] is Some
    }

    /// The block RAM data bit tile of a cell.
    pub fn btile_bram(&self, die: DieId, col: ColId, row: RowId) -> (r: BitTile)
        requires
            self.cell_ok(die, row.0 as int),
            self.bram_covers(die, self.chips@[die.0 as int].sp_row_to_reg(row.0 as int), col.0 as int),
            self.kind is Virtex4 && self.chips@[die.0 as int].sp_row_to_reg(row.0 as int)
                < self.chips@[die.0 as int].reg_cfg.0 ==> row.0 - self.chips@[die.0 as int].sp_row_reg_bot(
                self.chips@[die.0 as int].sp_row_to_reg(row.0 as int),
            ) <= 12,
        ensures
            r == self.spec_btile_bram(die, col.0 as int, row.0 as int),
    {
        let chip = &self.chips[die.0];
        let reg = chip.row_to_reg(row);
        proof {
            crate::virtex4::chip::lemma_row_in_own_region(*chip, row.0 as nat);
        }
        let rd = row.0 - chip.row_reg_bot(reg).0;
        let (width, bit, flip) = if matches!(self.kind, ChipKind::Virtex4) {
            let flip = reg.0 < chip.reg_cfg.0;
            let pos = (if flip { 12 - rd } else { rd }) * 80;
            (64, if pos < 640 { pos } else { pos + 32 }, flip)
        } else {
            let hclk = chip.row_reg_hclk(reg).0;
            (128, 64 * rd + if row.0 >= hclk { 32 } else { 0 }, false)
        };
        let frame = match self.frames[die.0].bram_frame[reg.0][col.0] {
            Some(f) => f,
            None => 0,
        };
        BitTile::Main(die, frame, width, bit, 320, flip)
    }
}

/// One bit tile that a tile covers, named by what kind of bit tile it is and
/// where: the main or horizontal clock bit tile of a cell, the clock spine or
/// spine clock row bit tile of a row, or the block RAM data bit tile of a cell.
#[derive(Clone, Copy, Debug, PartialEq, Eq, Structural, Hash)]
pub enum BitTileAt {
    Main(usize, usize),
    Hclk(usize, usize),
    Spine(usize),
    SpineHclk(usize),
    Bram(usize, usize),
}

/// The main bit tiles of `n` consecutive rows of a column.
pub open spec fn main_run(col: int, row: int, n: nat) -> Seq<BitTileAt> {
    Seq::new(n, |i: int| BitTileAt::Main(col as usize, (row + i) as usize))
}

/// The clock spine bit tiles of `n` consecutive rows.
pub open spec fn spine_run(row: int, n: nat) -> Seq<BitTileAt> {
    Seq::new(n, |i: int| BitTileAt::Spine((row + i) as usize))
}

impl ExpandedDevice {
    /// The bit tiles that a tile of the given class, anchored at `(col, row)`
    /// and covering the cells `cells`, spans.
    pub open spec fn spec_tile_btiles(self, die: DieId, col: int, row: int, class: Seq<char>, cells: Seq<(ColId, RowId)>) -> Seq<BitTileAt> {
        let v4 = self.kind is Virtex4;
        let v5 = self.kind is Virtex5;
        let v6 = self.kind is Virtex6;
        let v7 = self.kind is Virtex7;
        let c = col as usize;
        let r = row as usize;
        if class == "BRAM"@ {
            main_run(col, row, if v4 { 4 } else { 5 }).push(BitTileAt::Bram(c, r))
        } else if v7 && class == "HCLK"@ {
            seq![BitTileAt::Hclk(c, r), BitTileAt::Hclk((col + 1) as usize, r)]
        } else if has_prefix(class, "HCLK"@) {
            seq![BitTileAt::Hclk(c, r)]
        } else if v4 && has_prefix(class, "CLK_DCM"@) {
            spine_run(row, 8)
        } else if v4 && has_prefix(class, "CLK_IOB"@) {
            spine_run(row, 16)
        } else if class == "CLK_TERM"@ {
            seq![BitTileAt::Spine(r)]
        } else if v5 && (has_prefix(class, "CLK_CMT"@) || has_prefix(class, "CLK_IOB"@) || has_prefix(
            class,
            "CLK_MGT"@,
        )) {
            spine_run(row, 10)
        } else if v4 && class == "CFG"@ {
            main_run(col, row, 16) + spine_run(row, 16)
        } else if v5 && class == "CFG"@ {
            main_run(col, row, 20) + spine_run(row, 20)
        } else if class == "CLK_HROW"@ {
            if v7 {
                main_run(col, row - 4, 8).push(BitTileAt::Hclk(c, r))
            } else {
                seq![BitTileAt::Spine((row - 1) as usize), BitTileAt::Spine(r), BitTileAt::SpineHclk(r)]
            }
        } else if v6 && class == "PCIE"@ {
            main_run(col + 3, row, 20)
        } else if class == "PCIE3"@ {
            main_run(col + 4, row, 50)
        } else if (v6 || v7) && class == "CMT"@ {
            let chip = self.chips@[die.0 as int];
            let rpr = chip.sp_rpr();
            main_run(col, chip.sp_row_reg_hclk(chip.sp_row_to_reg(row)) - rpr / 2, rpr).push(
                BitTileAt::Hclk(c, r),
            )
        } else if v5 && (class == "GTP"@ || class == "GTX"@) {
            main_run(col, row, 20).push(BitTileAt::Hclk(c, (row + 10) as usize))
        } else if class == "GTP_COMMON_MID"@ {
            let cc = if col % 2 == 0 { col - 1 } else { col + 1 };
            main_run(cc, row - 3, 6).push(BitTileAt::Hclk(cc as usize, r))
        } else if class == "GTP_CHANNEL_MID"@ {
            let cc = if col % 2 == 0 { col - 1 } else { col + 1 };
            main_run(cc, row, 11)
        } else if class == "CMT_BUFG_BOT"@ {
            main_run(col, row - 2, 2)
        } else if class == "CMT_BUFG_TOP"@ {
            main_run(col, row, 2)
        } else {
            cells.map_values(|cr: (ColId, RowId)| BitTileAt::Main(cr.0.0, cr.1.0))
        }
    }

    /// The arithmetic of `spec_tile_btiles` stays within the grid's index
    /// range: the rows and columns it steps back to exist, and the Virtex 6
    /// has no horizontal clock row tile of that shape.
    pub open spec fn tile_btiles_arith_ok(self, col: int, row: int, class: Seq<char>) -> bool {
        &&& 0 <= col
        &&& 0 <= row
        &&& col + 8 <= usize::MAX
        &&& row + 128 <= usize::MAX
        &&& self.kind is Virtex7 && class == "HCLK"@ ==> col % 2 == 0
        &&& class == "CLK_HROW"@ ==> !(self.kind is Virtex6) && row >= if self.kind is Virtex7 {
            4int
        } else {
            1int
        }
        &&& class == "GTP_COMMON_MID"@ ==> row >= 3 && col >= 1
        &&& class == "GTP_CHANNEL_MID"@ ==> col >= 1
        &&& class == "CMT_BUFG_BOT"@ ==> row >= 2
    }

    /// The bit tile named by a `BitTileAt`.
    pub open spec fn spec_btile_at(self, die: DieId, q: BitTileAt) -> BitTile {
        match q {
            BitTileAt::Main(c, r) => self.spec_btile_main(die, c as int, r as int),
            BitTileAt::Hclk(c, r) => self.spec_btile_hclk(die, c as int, r as int),
            BitTileAt::Spine(r) => self.spec_btile_spine(die, r as int),
            BitTileAt::SpineHclk(r) => self.spec_btile_spine_hclk(die, r as int),
            BitTileAt::Bram(c, r) => self.spec_btile_bram(die, c as int, r as int),
        }
    }

    /// The bit tile named by a `BitTileAt` exists in the die's frame tables.
    pub open spec fn btile_at_ok(self, die: DieId, q: BitTileAt) -> bool {
        let chip = self.chips@[die.0 as int];
        match q {
            BitTileAt::Main(c, r) => self.cell_ok(die, r as int) && self.frames_cover(die, chip.sp_row_to_reg(r as int), c as int),
            BitTileAt::Hclk(c, r) => self.cell_ok(die, r as int) && self.frames_cover(die, chip.sp_row_to_reg(r as int), c as int),
            BitTileAt::Spine(r) => (self.kind is Virtex4 || self.kind is Virtex5) && self.cell_ok(die, r as int)
                && self.spine_covers(die, chip.sp_row_to_reg(r as int)),
            BitTileAt::SpineHclk(r) => (self.kind is Virtex4 || self.kind is Virtex5) && self.cell_ok(
                die,
                r as int,
            ) && self.spine_covers(die, chip.sp_row_to_reg(r as int)),
            BitTileAt::Bram(c, r) => {
                &&& self.cell_ok(die, r as int)
                &&& self.bram_covers(die, chip.sp_row_to_reg(r as int), c as int)
                &&& self.kind is Virtex4 && chip.sp_row_to_reg(r as int) < chip.reg_cfg.0 ==> r
                    - chip.sp_row_reg_bot(chip.sp_row_to_reg(r as int)) <= 12
            },
        }
    }

    /// The bit tile named by a `BitTileAt`.
    pub fn btile_at(&self, die: DieId, q: BitTileAt) -> (r: BitTile)
        requires
            self.btile_at_ok(die, q),
        ensures
            r == self.spec_btile_at(die, q),
    {
        match q {
            BitTileAt::Main(c, r) => self.btile_main(die, ColId(c), RowId(r)),
            BitTileAt::Hclk(c, r) => self.btile_hclk(die, ColId(c), RowId(r)),
            BitTileAt::Spine(r) => self.btile_spine(die, RowId(r)),
            BitTileAt::SpineHclk(r) => self.btile_spine_hclk(die, RowId(r)),
            BitTileAt::Bram(c, r) => self.btile_bram(die, ColId(c), RowId(r)),
        }
    }
}

fn push_main_run(res: &mut Vec<BitTileAt>, col: usize, row: usize, n: usize)
    requires
        row + n <= usize::MAX,
    ensures
        final(res)@ == old(res)@ + main_run(col as int, row as int, n as nat),
{
    let mut i: usize = 0;
    while i < n
        invariant
            i <= n,
            row + n <= usize::MAX,
            res@ == old(res)@ + main_run(col as int, row as int, i as nat),
        decreases n - i,
    {
        res.push(BitTileAt::Main(col, row + i));
        assert(res@ =~= old(res)@ + main_run(col as int, row as int, (i + 1) as nat));
        i = i + 1;
    }
}

fn push_spine_run(res: &mut Vec<BitTileAt>, row: usize, n: usize)
    requires
        row + n <= usize::MAX,
    ensures
        final(res)@ == old(res)@ + spine_run(row as int, n as nat),
{
    let mut i: usize = 0;
    while i < n
        invariant
            i <= n,
            row + n <= usize::MAX,
            res@ == old(res)@ + spine_run(row as int, i as nat),
        decreases n - i,
    {
        res.push(BitTileAt::Spine(row + i));
        assert(res@ =~= old(res)@ + spine_run(row as int, (i + 1) as nat));
        i = i + 1;
    }
}

impl ExpandedDevice {
    /// Which bit tiles a tile of the given class spans.
    pub fn tile_btiles(&self, die: DieId, col: ColId, row: RowId, class: &str, cells: &Vec<(ColId, RowId)>) -> (res: Vec<BitTileAt>)
        requires
            die.0 < self.chips@.len(),
            self.tile_btiles_arith_ok(col.0 as int, row.0 as int, class@),
            self.chips@[die.0 as int].sp_row_reg_hclk(self.chips@[die.0 as int].sp_row_to_reg(row.0 as int)) <= usize::MAX,
        ensures
            res@ == self.spec_tile_btiles(die, col.0 as int, row.0 as int, class@, cells@),
    {
        let v4 = matches!(self.kind, ChipKind::Virtex4);
        let v5 = matches!(self.kind, ChipKind::Virtex5);
        let v6 = matches!(self.kind, ChipKind::Virtex6);
        let v7 = matches!(self.kind, ChipKind::Virtex7);
        let c = col.0;
        let r = row.0;
        let mut res: Vec<BitTileAt> = Vec::new();
        if str_equals(class, "BRAM") {
            push_main_run(&mut res, c, r, if v4 { 4 } else { 5 });
            res.push(BitTileAt::Bram(c, r));
        } else if v7 && str_equals(class, "HCLK") {
            res.push(BitTileAt::Hclk(c, r));
            res.push(BitTileAt::Hclk(c + 1, r));
        } else if str_starts_with(class, "HCLK") {
            res.push(BitTileAt::Hclk(c, r));
        } else if v4 && str_starts_with(class, "CLK_DCM") {
            push_spine_run(&mut res, r, 8);
        } else if v4 && str_starts_with(class, "CLK_IOB") {
            push_spine_run(&mut res, r, 16);
        } else if str_equals(class, "CLK_TERM") {
            res.push(BitTileAt::Spine(r));
        } else if v5 && (str_starts_with(class, "CLK_CMT") || str_starts_with(class, "CLK_IOB")
            || str_starts_with(class, "CLK_MGT")) {
            push_spine_run(&mut res, r, 10);
        } else if v4 && str_equals(class, "CFG") {
            push_main_run(&mut res, c, r, 16);
            push_spine_run(&mut res, r, 16);
        } else if v5 && str_equals(class, "CFG") {
            push_main_run(&mut res, c, r, 20);
            push_spine_run(&mut res, r, 20);
        } else if str_equals(class, "CLK_HROW") {
            if v7 {
                push_main_run(&mut res, c, r - 4, 8);
                res.push(BitTileAt::Hclk(c, r));
            } else {
                res.push(BitTileAt::Spine(r - 1));
                res.push(BitTileAt::Spine(r));
                res.push(BitTileAt::SpineHclk(r));
            }
        } else if v6 && str_equals(class, "PCIE") {
            push_main_run(&mut res, c + 3, r, 20);
        } else if str_equals(class, "PCIE3") {
            push_main_run(&mut res, c + 4, r, 50);
        } else if (v6 || v7) && str_equals(class, "CMT") {
            let chip = &self.chips[die.0];
            let rpr = chip.rows_per_reg();
            proof {
                crate::virtex4::chip::lemma_row_in_own_region(*chip, row.0 as nat);
            }
            let hclk = chip.row_hclk(row).0;
            push_main_run(&mut res, c, hclk - rpr / 2, rpr);
            res.push(BitTileAt::Hclk(c, r));
        } else if v5 && (str_equals(class, "GTP") || str_equals(class, "GTX")) {
            push_main_run(&mut res, c, r, 20);
            res.push(BitTileAt::Hclk(c, r + 10));
        } else if str_equals(class, "GTP_COMMON_MID") {
            let cc = if c % 2 == 0 { c - 1 } else { c + 1 };
            push_main_run(&mut res, cc, r - 3, 6);
            res.push(BitTileAt::Hclk(cc, r));
        } else if str_equals(class, "GTP_CHANNEL_MID") {
            let cc = if c % 2 == 0 { c - 1 } else { c + 1 };
            push_main_run(&mut res, cc, r, 11);
        } else if str_equals(class, "CMT_BUFG_BOT") {
            push_main_run(&mut res, c, r - 2, 2);
        } else if str_equals(class, "CMT_BUFG_TOP") {
            push_main_run(&mut res, c, r, 2);
        } else {
            let mut i: usize = 0;
            while i < cells.len()
                invariant
                    i <= cells@.len(),
                    res@ == cells@.take(i as int).map_values(|cr: (ColId, RowId)| BitTileAt::Main(cr.0.0, cr.1.0)),
                decreases cells.len() - i,
            {
                let (cc, rr) = cells[i];
                res.push(BitTileAt::Main(cc.0, rr.0));
                assert(cells@.take(i + 1) =~= cells@.take(i as int).push(cells@[i as int]));
                assert(res@ =~= cells@.take((i + 1) as int).map_values(|cr: (ColId, RowId)| BitTileAt::Main(cr.0.0, cr.1.0)));
                i = i + 1;
            }
            assert(cells@.take(cells@.len() as int) =~= cells@);
        }
        proof {
            let spec_res = self.spec_tile_btiles(die, col.0 as int, row.0 as int, class@, cells@);
            assert(res@ =~= spec_res);
        }
        res
    }

    /// The bit tiles that a tile of the given class spans.
    pub open spec fn spec_tile_bits(self, die: DieId, col: int, row: int, class: Seq<char>, cells: Seq<(ColId, RowId)>) -> Seq<BitTile> {
        self.spec_tile_btiles(die, col, row, class, cells).map_values(|q: BitTileAt| self.spec_btile_at(die, q))
    }

    /// The bit tiles of a tile: its class name, its anchor cell `(col, row)`
    /// and the cells it covers (the latter used for the classes with no
    /// special layout).
    pub fn tile_bits(&self, die: DieId, col: ColId, row: RowId, class: &str, cells: &Vec<(ColId, RowId)>) -> (res: Vec<BitTile>)
        requires
            die.0 < self.chips@.len(),
            self.tile_btiles_arith_ok(col.0 as int, row.0 as int, class@),
            self.chips@[die.0 as int].sp_row_reg_hclk(self.chips@[die.0 as int].sp_row_to_reg(row.0 as int)) <= usize::MAX,
            forall|i: int|
                0 <= i < self.spec_tile_btiles(die, col.0 as int, row.0 as int, class@, cells@).len()
                    ==> self.btile_at_ok(die, #[trigger] self.spec_tile_btiles(die, col.0 as int, row.0 as int, class@, cells@)[i]),
        ensures
            res@ == self.spec_tile_bits(die, col.0 as int, row.0 as int, class@, cells@),
    {
        let qs = self.tile_btiles(die, col, row, class, cells);
        let mut res: Vec<BitTile> = Vec::new();
        let mut i: usize = 0;
        while i < qs.len()
            invariant
                i <= qs@.len(),
                qs@ == self.spec_tile_btiles(die, col.0 as int, row.0 as int, class@, cells@),
                forall|k: int| 0 <= k < qs@.len() ==> self.btile_at_ok(die, #[trigger] qs@[k]),
                res@ == qs@.take(i as int).map_values(|q: BitTileAt| self.spec_btile_at(die, q)),
            decreases qs.len() - i,
        {
            let t = self.btile_at(die, qs[i]);
            res.push(t);
            assert(qs@.take(i + 1) =~= qs@.take(i as int).push(qs@[i as int]));
            assert(res@ =~= qs@.take((i + 1) as int).map_values(|q: BitTileAt| self.spec_btile_at(die, q)));
            i = i + 1;
        }
        assert(qs@.take(qs@.len() as int) =~= qs@);
        res
    }
}

/// The IO that a differential pair role names as the partner, if any.
pub open spec fn diff_partner(d: IoDiffKind) -> Option<IoCoord> {
    match d {
        IoDiffKind::P(q) => Some(q),
        IoDiffKind::N(q) => Some(q),
        IoDiffKind::NoPair => None,
    }
}

/// The two IOs of a tile form a differential pair (except the single IOs
/// on the bottom and top rows of a Virtex 7 region): each IO's partner is
/// the tile's other IO, whose partner is the IO again.
pub proof fn lemma_io_diff_partner(dev: ExpandedDevice, io: IoCoord)
    requires
        io.iob.0 < 2,
        !(dev.kind is Virtex7 && (io.row.0 % 50 == 0 || io.row.0 % 50 == 49)),
    ensures
        dev.spec_io_info(io).diff == spec_diff_pair(io),
        diff_partner(dev.spec_io_info(io).diff) == Some(with_iob(io, (1 - io.iob.0) as usize)),
        diff_partner(dev.spec_io_info(with_iob(io, (1 - io.iob.0) as usize)).diff) == Some(io),
{
    let q = with_iob(io, (1 - io.iob.0) as usize);
    assert(q.row == io.row && q.die == io.die);
    assert(with_iob(q, io.iob.0) == io);
}

proof fn lemma_ps_segment_counts(seg: Seq<PsPad>, bank: u32)
    requires
        forall|i: int| 0 <= i < seg.len() ==> spec_ps_bank(#[trigger] seg[i]) == bank,
    ensures
        seg.filter(|p: PsPad| spec_ps_bank(p) == 500).len() == if bank == 500 { seg.len() } else { 0 },
        seg.filter(|p: PsPad| spec_ps_bank(p) == 501).len() == if bank == 501 { seg.len() } else { 0 },
        seg.filter(|p: PsPad| spec_ps_bank(p) == 502).len() == if bank == 502 { seg.len() } else { 0 },
{
    lemma_filter_len_const(seg, |p: PsPad| spec_ps_bank(p) == 500, bank == 500);
    lemma_filter_len_const(seg, |p: PsPad| spec_ps_bank(p) == 501, bank == 501);
    lemma_filter_len_const(seg, |p: PsPad| spec_ps_bank(p) == 502, bank == 502);
}

/// The pad kind of a processing system pad and its index (0 for the pads
/// that are not numbered; the DQS pads count their two sides apart).
pub open spec fn ps_pad_code(p: PsPad) -> (int, int) {
    match p {
        PsPad::Mio(i) => (0, i as int),
        PsPad::Clk => (1, 0),
        PsPad::PorB => (2, 0),
        PsPad::SrstB => (3, 0),
        PsPad::DdrWeB => (4, 0),
        PsPad::DdrCasB => (5, 0),
        PsPad::DdrRasB => (6, 0),
        PsPad::DdrCsB => (7, 0),
        PsPad::DdrOdt => (8, 0),
        PsPad::DdrCke => (9, 0),
        PsPad::DdrCkN => (10, 0),
        PsPad::DdrCkP => (11, 0),
        PsPad::DdrDrstB => (12, 0),
        PsPad::DdrVrP => (13, 0),
        PsPad::DdrVrN => (14, 0),
        PsPad::DdrA(i) => (15, i as int),
        PsPad::DdrBa(i) => (16, i as int),
        PsPad::DdrDq(i) => (17, i as int),
        PsPad::DdrDm(i) => (18, i as int),
        PsPad::DdrDqsP(i) => (19, 2 * i),
        PsPad::DdrDqsN(i) => (19, 2 * i + 1),
    }
}

/// The processing system pads are 130 distinct pads, the 54 MIO pads
/// first; 18 of them lie in bank 500, 39 in bank 501 and 73 in bank 502.
pub proof fn lemma_ps_pins_counts()
    ensures
        spec_ps_pins().len() == 130,
        spec_ps_pins().no_duplicates(),
        forall|i: int| 0 <= i < 54 ==> #[trigger] spec_ps_pins()[i] == PsPad::Mio(i as u32),
        spec_ps_pins().filter(|p: PsPad| spec_ps_bank(p) == 500).len() == 18,
        spec_ps_pins().filter(|p: PsPad| spec_ps_bank(p) == 501).len() == 39,
        spec_ps_pins().filter(|p: PsPad| spec_ps_bank(p) == 502).len() == 73,
{
    let s1 = Seq::new(16, |i: int| PsPad::Mio(i as u32));
    let s2 = Seq::new(38, |i: int| PsPad::Mio((i + 16) as u32));
    let s3 = seq![PsPad::Clk, PsPad::PorB];
    let s4 = seq![PsPad::SrstB];
    let s5 = seq![
        PsPad::DdrWeB,
        PsPad::DdrCasB,
        PsPad::DdrRasB,
        PsPad::DdrCsB,
        PsPad::DdrOdt,
        PsPad::DdrCke,
        PsPad::DdrCkN,
        PsPad::DdrCkP,
        PsPad::DdrDrstB,
        PsPad::DdrVrP,
        PsPad::DdrVrN,
    ];
    let s6 = Seq::new(15, |i: int| PsPad::DdrA(i as u32)) + Seq::new(3, |i: int| PsPad::DdrBa(i as u32))
        + Seq::new(32, |i: int| PsPad::DdrDq(i as u32)) + Seq::new(4, |i: int| PsPad::DdrDm(i as u32)) + Seq::new(
        8,
        |i: int|
            if i % 2 == 0 {
                PsPad::DdrDqsP((i / 2) as u32)
            } else {
                PsPad::DdrDqsN((i / 2) as u32)
            },
    );
    let all = spec_ps_pins();
    assert(all =~= s1 + s2 + s3 + s4 + s5 + s6);
    assert(all.len() == 130);
    // distinct: the code of each pad is distinct
    assert forall|i: int, j: int| 0 <= i < all.len() && 0 <= j < all.len() && i != j implies all[i] != all[j] by {
        assert(ps_pad_code(all[i]) != ps_pad_code(all[j]));
    }
    lemma_ps_segment_counts(s1, 500);
    lemma_ps_segment_counts(s2, 501);
    lemma_ps_segment_counts(s3, 500);
    lemma_ps_segment_counts(s4, 501);
    lemma_ps_segment_counts(s5, 502);
    lemma_ps_segment_counts(s6, 502);
    broadcast use Seq::filter_distributes_over_add;
    let p0 = |p: PsPad| spec_ps_bank(p) == 500;
    let p1 = |p: PsPad| spec_ps_bank(p) == 501;
    let p2 = |p: PsPad| spec_ps_bank(p) == 502;
    assert(all.filter(p0).len() == 18);
    assert(all.filter(p1).len() == 39);
    assert(all.filter(p2).len() == 73);
}

/// The bits that a bit tile covers within its frames: from its first bit
/// up to, and not including, its first bit plus its height.
pub open spec fn btile_bit_range(t: BitTile) -> (int, int) {
    match t {
        BitTile::Main(_, _, _, bit, height, _) => (bit as int, bit + height),
    }
}

/// Whether a bit tile is flipped top to bottom.
pub open spec fn btile_flip(t: BitTile) -> bool {
    match t {
        BitTile::Main(_, _, _, _, _, flip) => flip,
    }
}

/// The bits of a frame of a region: one row's height for each of its rows,
/// and the 32 bits of its clock row.
pub open spec fn region_frame_bits(dev: ExpandedDevice, chip: Chip) -> int {
    (if dev.kind is Virtex4 { 80int } else { 64int }) * chip.sp_rpr() + 32
}

/// Within a region, the main bit tiles of two rows of a column cover
/// disjoint bits, none of them the bits of the region's clock row, and all
/// of them within the region's frame bits; each is a row high (80 bits on
/// the Virtex 4, 64 on the later families).  A tile is flipped exactly on
/// the Virtex 4, in the regions below the configuration region.
pub proof fn lemma_btile_main_disjoint(dev: ExpandedDevice, die: DieId, col: int, r1: int, r2: int)
    requires
        die.0 < dev.chips@.len(),
        dev.chips@[die.0 as int].kind == dev.kind,
        0 <= r1,
        0 <= r2,
        r1 != r2,
        dev.chips@[die.0 as int].sp_row_to_reg(r1) == dev.chips@[die.0 as int].sp_row_to_reg(r2),
    ensures
        ({
            let (b1, e1) = btile_bit_range(dev.spec_btile_main(die, col, r1));
            let (b2, e2) = btile_bit_range(dev.spec_btile_main(die, col, r2));
            let (h0, h1) = btile_bit_range(dev.spec_btile_hclk(die, col, r1));
            &&& e1 - b1 == (if dev.kind is Virtex4 { 80int } else { 64int })
            &&& e1 <= b2 || e2 <= b1
            &&& e1 <= h0 || h1 <= b1
            &&& h1 == h0 + 32
            &&& 0 <= b1
            &&& e1 <= region_frame_bits(dev, dev.chips@[die.0 as int])
            &&& btile_flip(dev.spec_btile_main(die, col, r1)) == (dev.kind is Virtex4
                && dev.chips@[die.0 as int].sp_row_to_reg(r1) < dev.chips@[die.0 as int].reg_cfg.0)
        }),
{
    let chip = dev.chips@[die.0 as int];
    crate::virtex4::chip::lemma_row_in_own_region(chip, r1 as nat);
    crate::virtex4::chip::lemma_row_in_own_region(chip, r2 as nat);
    let reg = chip.sp_row_to_reg(r1);
    let bot = chip.sp_row_reg_bot(reg);
    let rpr = chip.sp_rpr() as int;
    assert(chip.sp_row_reg_hclk(reg) == bot + rpr / 2);
    let rd1 = r1 - bot;
    let rd2 = r2 - bot;
    assert(0 <= rd1 < rpr && 0 <= rd2 < rpr && rd1 != rd2);
}

} // verus!

verus! {

/// The bank of an outer Virtex 5 IO, as a number: by its region's distance
/// from the configuration region and its side.
proof fn lemma_v5_outer_bank_value(dev: ExpandedDevice, chip: Chip, io: IoCoord)
    requires
        chip.kind is Virtex5,
        io.col != dev.col_cfg,
        io.row.0 <= u32::MAX,
        chip.reg_cfg.0 < 0x1000_0000,
    ensures
        ({
            let reg = chip.sp_row_to_reg(io.row.0 as int);
            let c = chip.reg_cfg.0 as int;
            let right: int = if dev.col_rio == Some(io.col) { 1 } else { 0 };
            &&& 0 <= reg < 0x1000_0000
            &&& dev.v5_io_bank(chip, io) == if reg >= c {
                11 + 4 * (reg - c) + right
            } else {
                13 + 4 * (c - reg - 1) + right
            }
            &&& 0 <= dev.v5_io_bank(chip, io) <= u32::MAX
        }),
{
    assert(chip.sp_rpr() == 20);
}

/// On the Virtex 5 the IO banks of the outer IO columns are numbered
/// outward from the configuration region: 11 (12 in the right column) for
/// the configuration region, rising by 4 per region above it, and 13 (14 in
/// the right column) for the region just below it, rising by 4 per region
/// below that.  So two outer IOs of a die share a bank exactly when they lie
/// in the same region and on the same side.
pub proof fn lemma_v5_outer_io_banks(dev: ExpandedDevice, io1: IoCoord, io2: IoCoord)
    requires
        dev.kind is Virtex5,
        io1.die == io2.die,
        io1.die.0 < dev.chips@.len(),
        dev.chips@[io1.die.0 as int].kind is Virtex5,
        io1.col != dev.col_cfg,
        io2.col != dev.col_cfg,
        io1.row.0 <= u32::MAX,
        io2.row.0 <= u32::MAX,
        dev.chips@[io1.die.0 as int].reg_cfg.0 < 0x1000_0000,
    ensures
        ({
            let chip = dev.chips@[io1.die.0 as int];
            let reg = chip.sp_row_to_reg(io1.row.0 as int);
            let c = chip.reg_cfg.0 as int;
            let right: int = if dev.col_rio == Some(io1.col) { 1 } else { 0 };
            dev.spec_io_info(io1).bank == if reg >= c {
                11 + 4 * (reg - c) + right
            } else {
                13 + 4 * (c - reg - 1) + right
            }
        }),
        dev.spec_io_info(io1).bank == dev.spec_io_info(io2).bank <==> ({
            let chip = dev.chips@[io1.die.0 as int];
            &&& chip.sp_row_to_reg(io1.row.0 as int) == chip.sp_row_to_reg(io2.row.0 as int)
            &&& (dev.col_rio == Some(io1.col)) == (dev.col_rio == Some(io2.col))
        }),
{
    let chip = dev.chips@[io1.die.0 as int];
    lemma_v5_outer_bank_value(dev, chip, io1);
    lemma_v5_outer_bank_value(dev, chip, io2);
    assert(dev.spec_io_info(io1).bank == dev.v5_io_bank(chip, io1) as u32);
    assert(dev.spec_io_info(io2).bank == dev.v5_io_bank(chip, io2) as u32);
}

/// On the Virtex 5 the configuration column holds the small IO banks: 1 in
/// the configuration region, 3 in the region above it, 2 and 4 in the two
/// regions below it; farther out it holds banks 5 and up, odd above and even
/// below, rising by 2 per region.
pub proof fn lemma_v5_center_io_banks(dev: ExpandedDevice, io: IoCoord)
    requires
        dev.kind is Virtex5,
        io.die.0 < dev.chips@.len(),
        dev.chips@[io.die.0 as int].kind is Virtex5,
        io.col == dev.col_cfg,
        io.row.0 <= u32::MAX,
        dev.chips@[io.die.0 as int].reg_cfg.0 < 0x1000_0000,
    ensures
        ({
            let chip = dev.chips@[io.die.0 as int];
            let rr = chip.sp_row_to_reg(io.row.0 as int) - chip.reg_cfg.0;
            let bank = dev.spec_io_info(io).bank as int;
            &&& rr == 0 ==> bank == 1
            &&& rr == -1 ==> bank == 2
            &&& rr == 1 ==> bank == 3
            &&& rr == -2 ==> bank == 4
            &&& rr >= 2 ==> bank == 5 + 2 * (rr - 2) - (if rr >= 3 { 2int } else { 0int })
            &&& rr <= -3 ==> bank == 6 + 2 * (-rr - 3) - (if rr <= -4 { 2int } else { 0int })
            &&& (rr >= 2 || rr <= -3) ==> bank >= 5 && (bank % 2 == 1) == (rr > 0)
        }),
{
    let chip = dev.chips@[io.die.0 as int];
    assert(chip.sp_rpr() == 20);
    let reg = chip.sp_row_to_reg(io.row.0 as int);
    assert(0 <= reg < 0x1000_0000);
    let b = dev.v5_io_bank(chip, io);
    assert(0 <= b <= u32::MAX);
    assert(dev.spec_io_info(io).bank == b as u32);
}

/// On the Virtex 5 transceiver banks are numbered outward from the
/// configuration region like the IO banks: 111 (112 for a column other than
/// the first) for the configuration region, rising by 4 per region above it,
/// and 113 (114) for the region just below it, rising by 4 per region below
/// that.  So two transceivers of a die share a bank exactly when they lie in
/// the same region and on the same side.
pub proof fn lemma_v5_gt_banks(dev: ExpandedDevice, die: DieId, col1: ColId, row1: RowId, col2: ColId, row2: RowId)
    requires
        dev.kind is Virtex5,
        die.0 < dev.chips@.len(),
        dev.chips@[die.0 as int].kind is Virtex5,
        row1.0 <= u32::MAX,
        row2.0 <= u32::MAX,
        dev.chips@[die.0 as int].reg_cfg.0 < 0x1000_0000,
    ensures
        ({
            let chip = dev.chips@[die.0 as int];
            let reg = chip.sp_row_to_reg(row1.0 as int);
            let c = chip.reg_cfg.0 as int;
            let right: int = if col1.0 != 0 { 1 } else { 0 };
            dev.spec_gt_info(die, col1, row1).bank == if reg >= c {
                111 + 4 * (reg - c) + right
            } else {
                113 + 4 * (c - reg - 1) + right
            }
        }),
        dev.spec_gt_info(die, col1, row1).bank == dev.spec_gt_info(die, col2, row2).bank <==> ({
            let chip = dev.chips@[die.0 as int];
            &&& chip.sp_row_to_reg(row1.0 as int) == chip.sp_row_to_reg(row2.0 as int)
            &&& (col1.0 != 0) == (col2.0 != 0)
        }),
{
    let chip = dev.chips@[die.0 as int];
    let r1 = chip.sp_row_to_reg(row1.0 as int);
    let r2 = chip.sp_row_to_reg(row2.0 as int);
    assert(chip.sp_rpr() == 20);
    assert(0 <= r1 <= row1.0 as int / 20);
    assert(0 <= r2 <= row2.0 as int / 20);
}

/// On the Virtex 6 the system monitor's auxiliary inputs 0 .. 7 are IO
/// pairs of the right center IO column, and inputs 8 .. 15 the pairs at the
/// same rows of the left IO column (the left center one where there is no
/// left outer one), at 34, 32, 28, 26, 24, 14, 12 and 8 rows above the
/// given cell; each pair is the true IO (index 1) and its complement
/// (index 0) of one tile.
pub proof fn lemma_v6_sysmon_vaux(dev: ExpandedDevice, die: DieId, col: ColId, row: RowId, idx: int)
    requires
        dev.kind is Virtex6,
        0 <= idx,
        dev.sysmon_vaux_ok(die, col, row, idx),
    ensures
        ({
            let dy: int = seq![34int, 32, 28, 26, 24, 14, 12, 8][idx % 8];
            let c = if idx < 8 {
                dev.col_rcio.unwrap()
            } else if dev.col_lio is Some {
                dev.col_lio.unwrap()
            } else {
                dev.col_lcio.unwrap()
            };
            let r = RowId((row.0 + dy) as usize);
            dev.spec_sysmon_vaux(die, col, row, idx) == Some(
                (IoCoord { die, col: c, row: r, iob: TileIobId(1) }, IoCoord { die, col: c, row: r, iob: TileIobId(0) }),
            )
        }),
{
}

} // verus!
