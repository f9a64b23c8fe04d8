//! The bitstream layout of an XC2000 .. XC5200 chip: where the bits of each
//! tile lie.
use vstd::prelude::*;
use crate::bitstream::FrameAddr;
use crate::grid::{ColId, DieId, DirH, DirV, RowId};
use crate::text::str_equals;
use crate::xc2000::bels::{TileCoord, TileSlot};
use crate::xc2000::chip::{Chip, ChipKind};
use crate::tile::{GridConn, GridTerm, GridTile};
use crate::xc2000::tiles::BitstreamKind;

verus! {

/// A rectangle of the bitstream: die, first frame, width in frames, first
/// bit, height in bits, and whether the bit order is flipped.
#[derive(Clone, Copy, Debug, PartialEq, Eq, Structural, Hash)]
pub enum BitRect {
    Main(DieId, usize, usize, usize, usize, bool),
}

/// An expanded chip: the tiles of its interconnect grid, its bitstream
/// format, and its frame layout: the number of bits in a frame, the
/// address of each frame, the first frame of each column and of each
/// vertical long-line break column, and the first bit of each row and of
/// each horizontal long-line break row.
pub struct ExpandedDevice<'a> {
    pub chip: &'a Chip,
    pub tiles: Vec<GridTile>,
    /// The connections between neighbouring cells.
    pub conns: Vec<GridConn>,
    /// The terminators at the corners.
    pub terms: Vec<GridTerm>,
    pub bitstream_kind: BitstreamKind,
    pub frame_len: usize,
    pub frame_info: Vec<FrameAddr>,
    pub col_frame: Vec<usize>,
    pub llh_frame: Vec<Option<usize>>,
    pub row_framebit: Vec<usize>,
    pub llv_framebit: Vec<Option<usize>>,
}

/// One bit rectangle that a tile covers: the main rectangle of a cell, or the
/// long-line break rectangle below a row or left of a column.
#[derive(Clone, Copy, Debug, PartialEq, Eq, Structural, Hash)]
pub enum BitRectAt {
    Main(usize, usize),
    Llv(usize, usize),
    Llh(usize, usize),
}

impl ExpandedDevice<'_> {
    /// The frame tables cover the cell.
    pub open spec fn main_ok(self, col: int, row: int) -> bool {
        &&& self.chip.has_cells()
        &&& 0 <= col < self.col_frame@.len()
        &&& 0 <= row < self.row_framebit@.len()
    }

    /// The main bit rectangle of a cell.
    pub open spec fn spec_btile_main(self, col: int, row: int) -> BitRect {
        BitRect::Main(
            DieId(0),
            self.col_frame@[col],
            self.chip.spec_btile_width_main(col),
            self.row_framebit@[row],
            self.chip.spec_btile_height_main(row),
            false,
        )
    }

    /// The main bit rectangle of a cell.
    pub fn btile_main(&self, col: ColId, row: RowId) -> (r: BitRect)
        requires
            self.main_ok(col.0 as int, row.0 as int),
        ensures
            r == self.spec_btile_main(col.0 as int, row.0 as int),
    {
        BitRect::Main(
            DieId(0),
            self.col_frame[col.0],
            self.chip.btile_width_main(col),
            self.row_framebit[row.0],
            self.chip.btile_height_main(row),
            false,
        )
    }

    /// The height of the break row below `row`: a plain break on the XC2000
    /// and at the quarter rows, a clock row on the XC3000 and at the middle row.
    pub open spec fn spec_llv_height(self, row: int) -> usize {
        if self.chip.kind is Xc2000 {
            self.chip.spec_btile_height_brk()
        } else if self.chip.kind.spec_is_xc3000() || row == self.chip.sp_row_mid() {
            self.chip.spec_btile_height_clk()
        } else {
            self.chip.spec_btile_height_brk()
        }
    }

    /// The row holds a horizontal break.
    pub open spec fn llv_ok(self, col: int, row: int) -> bool {
        &&& self.chip.has_cells()
        &&& 3 * self.chip.rows <= usize::MAX
        &&& 0 <= col < self.col_frame@.len()
        &&& 0 <= row < self.llv_framebit@.len()
        &&& self.llv_framebit@[row] is Some
        &&& self.chip.kind is Xc2000 || self.chip.kind.spec_is_xc3000() || row == self.chip.sp_row_mid()
            || row == self.chip.sp_row_q(DirV::S) || row == self.chip.sp_row_q(DirV::N)
    }

    /// The break bit rectangle below a row.
    pub open spec fn spec_btile_llv(self, col: int, row: int) -> BitRect {
        BitRect::Main(
            DieId(0),
            self.col_frame@[col],
            self.chip.spec_btile_width_main(col),
            self.llv_framebit@[row].unwrap(),
            self.spec_llv_height(row),
            false,
        )
    }

    /// The break bit rectangle below a row.
    pub fn btile_llv(&self, col: ColId, row: RowId) -> (r: BitRect)
        requires
            self.llv_ok(col.0 as int, row.0 as int),
        ensures
            r == self.spec_btile_llv(col.0 as int, row.0 as int),
    {
        let bit = match self.llv_framebit[row.0] {
            Some(b) => b,
            None => 0,
        };
        let height = if matches!(self.chip.kind, ChipKind::Xc2000) {
            self.chip.btile_height_brk()
        } else if self.chip.kind.is_xc3000() || row.0 == self.chip.row_mid().0 {
            self.chip.btile_height_clk()
        } else {
            self.chip.btile_height_brk()
        };
        BitRect::Main(DieId(0), self.col_frame[col.0], self.chip.btile_width_main(col), bit, height, false)
    }

    /// The width of the break column left of `col`.
    pub open spec fn spec_llh_width(self, col: int) -> usize {
        if self.chip.kind is Xc2000 {
            self.chip.spec_btile_width_brk()
        } else if col == self.chip.sp_col_mid() {
            self.chip.spec_btile_width_clk()
        } else {
            self.chip.spec_btile_width_brk()
        }
    }

    /// The column holds a vertical break.
    pub open spec fn llh_ok(self, col: int, row: int) -> bool {
        &&& self.chip.has_cells()
        &&& 3 * self.chip.columns <= usize::MAX
        &&& 0 <= col < self.llh_frame@.len()
        &&& self.llh_frame@[col] is Some
        &&& 0 <= row < self.row_framebit@.len()
        &&& self.chip.kind is Xc2000 || if col == self.chip.sp_col_mid() {
            !self.chip.kind.spec_is_xc3000()
        } else {
            col == self.chip.sp_col_q(DirH::W) || col == self.chip.sp_col_q(DirH::E)
        }
    }

    /// The break bit rectangle left of a column.
    pub open spec fn spec_btile_llh(self, col: int, row: int) -> BitRect {
        BitRect::Main(
            DieId(0),
            self.llh_frame@[col].unwrap(),
            self.spec_llh_width(col),
            self.row_framebit@[row],
            self.chip.spec_btile_height_main(row),
            false,
        )
    }

    /// The break bit rectangle left of a column.
    pub fn btile_llh(&self, col: ColId, row: RowId) -> (r: BitRect)
        requires
            self.llh_ok(col.0 as int, row.0 as int),
        ensures
            r == self.spec_btile_llh(col.0 as int, row.0 as int),
    {
        let frame = match self.llh_frame[col.0] {
            Some(f) => f,
            None => 0,
        };
        let width = if matches!(self.chip.kind, ChipKind::Xc2000) {
            self.chip.btile_width_brk()
        } else if col.0 == self.chip.col_mid().0 {
            self.chip.btile_width_clk()
        } else {
            self.chip.btile_width_brk()
        };
        BitRect::Main(DieId(0), frame, width, self.row_framebit[row.0], self.chip.btile_height_main(row), false)
    }

    /// The bit rectangles that a tile spans, given its coordinate and the
    /// name of its tile class.
    pub open spec fn spec_tile_rects(self, tcrd: TileCoord, class: Seq<char>) -> Seq<BitRectAt> {
        let c = tcrd.col.0;
        let r = tcrd.row.0;
        let ci = c as int;
        let ri = r as int;
        let e = self.chip.sp_col_e();
        let n = self.chip.sp_row_n();
        match self.chip.kind {
            ChipKind::Xc2000 => if class == "BIDIV_E"@ {
                seq![BitRectAt::Llv(c, r), BitRectAt::Main(c, r)]
            } else if tcrd.slot is Bidiv {
                seq![BitRectAt::Llv(c, r)]
            } else if tcrd.slot is Bidih {
                seq![BitRectAt::Llh(c, r)]
            } else if ci != e && (ri == 0 || ri == n) {
                seq![BitRectAt::Main(c, r), BitRectAt::Main((ci + 1) as usize, r)]
            } else {
                seq![BitRectAt::Main(c, r)]
            },
            ChipKind::Xc3000 | ChipKind::Xc3000A => if tcrd.slot is Llv && !self.chip.is_small {
                seq![BitRectAt::Llv(c, r)]
            } else if !(tcrd.slot is Main) {
                seq![BitRectAt::Main(c, r)]
            } else if ri != n {
                seq![BitRectAt::Main(c, r), BitRectAt::Main(c, (ri + 1) as usize)]
            } else {
                seq![BitRectAt::Main(c, r)]
            },
            ChipKind::Xc5200 => if tcrd.slot is Llv {
                if class == "LLV"@ {
                    seq![BitRectAt::Llv(c, r)]
                } else {
                    seq![BitRectAt::Llv(c, r), BitRectAt::Main(c, r)]
                }
            } else if tcrd.slot is Llh {
                seq![BitRectAt::Llh(c, r)]
            } else {
                seq![BitRectAt::Main(c, r)]
            },
            _ => {
                let cw = (ci - 1) as usize;
                let ce = (ci + 1) as usize;
                let rs = (ri - 1) as usize;
                let rn = (ri + 1) as usize;
                if tcrd.slot is Llh {
                    if ri == 0 {
                        seq![BitRectAt::Llh(c, r), BitRectAt::Main(cw, r)]
                    } else if ri == n {
                        seq![BitRectAt::Llh(c, r), BitRectAt::Llh(c, rs), BitRectAt::Main(cw, r)]
                    } else if ri == 1 {
                        seq![BitRectAt::Llh(c, r), BitRectAt::Llh(c, rs), BitRectAt::Main(cw, rs)]
                    } else {
                        seq![BitRectAt::Llh(c, r), BitRectAt::Llh(c, rs)]
                    }
                } else if tcrd.slot is Llv {
                    if ci == 0 {
                        seq![BitRectAt::Llv(c, r), BitRectAt::Llv(ce, r)]
                    } else {
                        seq![BitRectAt::Llv(c, r)]
                    }
                } else if ci == 0 {
                    if ri == 0 || ri == n {
                        seq![BitRectAt::Main(c, r)]
                    } else {
                        seq![BitRectAt::Main(c, r), BitRectAt::Main(c, rs)]
                    }
                } else if ci == e {
                    if ri == 0 {
                        seq![BitRectAt::Main(c, r)]
                    } else {
                        seq![BitRectAt::Main(c, r), BitRectAt::Main(c, rs), BitRectAt::Main(cw, r)]
                    }
                } else if ri == 0 {
                    seq![BitRectAt::Main(c, r), BitRectAt::Main(ce, r)]
                } else if ri == n {
                    seq![BitRectAt::Main(c, r), BitRectAt::Main(c, rs), BitRectAt::Main(ce, r), BitRectAt::Main(cw, r)]
                } else {
                    seq![
                        BitRectAt::Main(c, r),
                        BitRectAt::Main(c, rs),
                        BitRectAt::Main(cw, r),
                        BitRectAt::Main(c, rn),
                        BitRectAt::Main(ce, r),
                    ]
                }
            },
        }
    }

    /// The bit rectangle that a `BitRectAt` names.
    pub open spec fn spec_rect_at(self, q: BitRectAt) -> BitRect {
        match q {
            BitRectAt::Main(c, r) => self.spec_btile_main(c as int, r as int),
            BitRectAt::Llv(c, r) => self.spec_btile_llv(c as int, r as int),
            BitRectAt::Llh(c, r) => self.spec_btile_llh(c as int, r as int),
        }
    }

    /// The bit rectangle that a `BitRectAt` names exists in the frame tables.
    pub open spec fn rect_at_ok(self, q: BitRectAt) -> bool {
        match q {
            BitRectAt::Main(c, r) => self.main_ok(c as int, r as int),
            BitRectAt::Llv(c, r) => self.llv_ok(c as int, r as int),
            BitRectAt::Llh(c, r) => self.llh_ok(c as int, r as int),
        }
    }

    fn rect_at(&self, q: BitRectAt) -> (r: BitRect)
        requires
            self.rect_at_ok(q),
        ensures
            r == self.spec_rect_at(q),
    {
        match q {
            BitRectAt::Main(c, r) => self.btile_main(ColId(c), RowId(r)),
            BitRectAt::Llv(c, r) => self.btile_llv(ColId(c), RowId(r)),
            BitRectAt::Llh(c, r) => self.btile_llh(ColId(c), RowId(r)),
        }
    }

    /// The neighbouring cells that `spec_tile_rects` steps to exist.
    pub open spec fn tile_rects_arith_ok(self, tcrd: TileCoord) -> bool {
        &&& self.chip.has_cells()
        &&& tcrd.col.0 + 1 <= usize::MAX
        &&& tcrd.row.0 + 1 <= usize::MAX
        &&& self.chip.kind.spec_is_xc4000() && tcrd.slot is Llh && (tcrd.row.0 == 0 || tcrd.row.0
            == self.chip.sp_row_n() || tcrd.row.0 == 1) ==> tcrd.col.0 >= 1
    }

    /// Which bit rectangles a tile spans.
    pub fn tile_rects(&self, tcrd: TileCoord, class: &str) -> (res: Vec<BitRectAt>)
        requires
            self.tile_rects_arith_ok(tcrd),
            forall|i: int|
                0 <= i < self.spec_tile_rects(tcrd, class@).len() ==> self.rect_at_ok(
                    #[trigger] self.spec_tile_rects(tcrd, class@)[i],
                ),
        ensures
            res@ == self.spec_tile_rects(tcrd, class@),
    {
        let c = tcrd.col.0;
        let r = tcrd.row.0;
        let e = self.chip.col_e().0;
        let n = self.chip.row_n().0;
        let ghost sp = self.spec_tile_rects(tcrd, class@);
        let res = match self.chip.kind {
            ChipKind::Xc2000 => if str_equals(class, "BIDIV_E") {
                vec![BitRectAt::Llv(c, r), BitRectAt::Main(c, r)]
            } else if matches!(tcrd.slot, TileSlot::Bidiv) {
                vec![BitRectAt::Llv(c, r)]
            } else if matches!(tcrd.slot, TileSlot::Bidih) {
                vec![BitRectAt::Llh(c, r)]
            } else if c != e && (r == 0 || r == n) {
                vec![BitRectAt::Main(c, r), BitRectAt::Main(c + 1, r)]
            } else {
                vec![BitRectAt::Main(c, r)]
            },
            ChipKind::Xc3000 | ChipKind::Xc3000A => if matches!(tcrd.slot, TileSlot::Llv) && !self.chip.is_small {
                vec![BitRectAt::Llv(c, r)]
            } else if !matches!(tcrd.slot, TileSlot::Main) {
                vec![BitRectAt::Main(c, r)]
            } else if r != n {
                vec![BitRectAt::Main(c, r), BitRectAt::Main(c, r + 1)]
            } else {
                vec![BitRectAt::Main(c, r)]
            },
            ChipKind::Xc5200 => if matches!(tcrd.slot, TileSlot::Llv) {
                if str_equals(class, "LLV") {
                    vec![BitRectAt::Llv(c, r)]
                } else {
                    vec![BitRectAt::Llv(c, r), BitRectAt::Main(c, r)]
                }
            } else if matches!(tcrd.slot, TileSlot::Llh) {
                vec![BitRectAt::Llh(c, r)]
            } else {
                vec![BitRectAt::Main(c, r)]
            },
            _ => {
                if matches!(tcrd.slot, TileSlot::Llh) {
                    if r == 0 {
                        proof {
                            assert(self.rect_at_ok(sp[1]));
                        }
                        vec![BitRectAt::Llh(c, r), BitRectAt::Main(c - 1, r)]
                    } else if r == n {
                        proof {
                            assert(self.rect_at_ok(sp[2]));
                        }
                        vec![BitRectAt::Llh(c, r), BitRectAt::Llh(c, r - 1), BitRectAt::Main(c - 1, r)]
                    } else if r == 1 {
                        proof {
                            assert(self.rect_at_ok(sp[2]));
                        }
                        vec![BitRectAt::Llh(c, r), BitRectAt::Llh(c, r - 1), BitRectAt::Main(c - 1, r - 1)]
                    } else {
                        vec![BitRectAt::Llh(c, r), BitRectAt::Llh(c, r - 1)]
                    }
                } else if matches!(tcrd.slot, TileSlot::Llv) {
                    if c == 0 {
                        vec![BitRectAt::Llv(c, r), BitRectAt::Llv(c + 1, r)]
                    } else {
                        vec![BitRectAt::Llv(c, r)]
                    }
                } else if c == 0 {
                    if r == 0 || r == n {
                        vec![BitRectAt::Main(c, r)]
                    } else {
                        vec![BitRectAt::Main(c, r), BitRectAt::Main(c, r - 1)]
                    }
                } else if c == e {
                    if r == 0 {
                        vec![BitRectAt::Main(c, r)]
                    } else {
                        vec![BitRectAt::Main(c, r), BitRectAt::Main(c, r - 1), BitRectAt::Main(c - 1, r)]
                    }
                } else if r == 0 {
                    vec![BitRectAt::Main(c, r), BitRectAt::Main(c + 1, r)]
                } else if r == n {
                    vec![BitRectAt::Main(c, r), BitRectAt::Main(c, r - 1), BitRectAt::Main(c + 1, r), BitRectAt::Main(c - 1, r)]
                } else {
                    vec![
                        BitRectAt::Main(c, r),
                        BitRectAt::Main(c, r - 1),
                        BitRectAt::Main(c - 1, r),
                        BitRectAt::Main(c, r + 1),
                        BitRectAt::Main(c + 1, r),
                    ]
                }
            },
        };
        assert(res@ =~= sp);
        res
    }

    /// The bit rectangles that a tile spans.
    pub open spec fn spec_tile_bits(self, tcrd: TileCoord, class: Seq<char>) -> Seq<BitRect> {
        self.spec_tile_rects(tcrd, class).map_values(|q: BitRectAt| self.spec_rect_at(q))
    }

    /// The bit rectangles of a tile, given its coordinate and the name of its
    /// tile class.
    pub fn tile_bits(&self, tcrd: TileCoord, class: &str) -> (res: Vec<BitRect>)
        requires
            self.tile_rects_arith_ok(tcrd),
            forall|i: int|
                0 <= i < self.spec_tile_rects(tcrd, class@).len() ==> self.rect_at_ok(
                    #[trigger] self.spec_tile_rects(tcrd, class@)[i],
                ),
        ensures
            res@ == self.spec_tile_bits(tcrd, class@),
    {
        let qs = self.tile_rects(tcrd, class);
        let mut res: Vec<BitRect> = Vec::new();
        let mut i: usize = 0;
        while i < qs.len()
            invariant
                i <= qs@.len(),
                qs@ == self.spec_tile_rects(tcrd, class@),
                forall|k: int| 0 <= k < qs@.len() ==> self.rect_at_ok(#[trigger] qs@[k]),
                res@ == qs@.take(i as int).map_values(|q: BitRectAt| self.spec_rect_at(q)),
            decreases qs.len() - i,
        {
            let t = self.rect_at(qs[i]);
            res.push(t);
            assert(qs@.take(i + 1) =~= qs@.take(i as int).push(qs@[i as int]));
            assert(res@ =~= qs@.take((i + 1) as int).map_values(|q: BitRectAt| self.spec_rect_at(q)));
            i = i + 1;
        }
        assert(qs@.take(qs@.len() as int) =~= qs@);
        res
    }
}

} // verus!
