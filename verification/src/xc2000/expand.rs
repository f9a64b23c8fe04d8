//! Expanding an XC2000 .. XC5200 chip: its interconnect grid tiles and
//! its frame layout.
use vstd::prelude::*;
use crate::grid::{ColId, DirH, DirV, RowId};
use crate::xc2000::chip::{Chip, ChipKind};
use crate::bitstream::FrameAddr;
use crate::xc2000::expanded::{BitRect, ExpandedDevice};
use crate::tile::{conns_view, push_term, terms_view, tiles_view, GridTerm};

verus! {

impl Chip {
    /// The row is listed among the bidirectional break rows of an XC2000.
    pub open spec fn row_is_bidi(self, r: int) -> bool {
        self.rows_bidi@.contains(RowId(r as usize))
    }

    /// The column is listed among the bidirectional break columns of an XC2000.
    pub open spec fn col_is_bidi(self, c: int) -> bool {
        self.cols_bidi@.contains(ColId(c as usize))
    }

    /// The bits of the XC4000X quarter break below row `r` (zero elsewhere).
    pub open spec fn row_q_bits(self, r: int) -> nat {
        if self.kind.spec_is_xl() && (r == self.sp_row_q(DirV::S) || r == self.sp_row_q(DirV::N)) {
            self.spec_btile_height_brk() as nat
        } else {
            0
        }
    }

    /// The padding bits before the clock row of the XC4000EX and XC4000XLA.
    pub open spec fn clk_pad_bits(self) -> nat {
        if self.kind is Xc4000Ex || self.kind is Xc4000Xla { 2 } else { 0 }
    }

    /// The bits of the break rows that precede row `r` within its part of the frame.
    pub open spec fn row_pre(self, r: int) -> nat {
        match self.kind {
            ChipKind::Xc2000 => if self.row_is_bidi(r) { 1 } else { 0 },
            ChipKind::Xc3000 | ChipKind::Xc3000A => if r == self.sp_row_mid() && !self.is_small { 1 } else { 0 },
            ChipKind::Xc5200 => if r == self.sp_row_mid() { 4 } else { 0 },
            _ => (self.row_q_bits(r) + if r == self.sp_row_mid() {
                self.clk_pad_bits() + self.spec_btile_height_clk() as nat
            } else {
                0nat
            }) as nat,
        }
    }

    /// Where the break row below row `r` starts, relative to the row's part of the frame.
    pub open spec fn row_llv_off(self, r: int) -> Option<nat> {
        match self.kind {
            ChipKind::Xc2000 => if self.row_is_bidi(r) { Some(0) } else { None },
            ChipKind::Xc3000 | ChipKind::Xc3000A => if r == self.sp_row_mid() && !self.is_small {
                Some(0)
            } else {
                None
            },
            ChipKind::Xc5200 => if r == self.sp_row_mid() { Some(0) } else { None },
            _ => if r == self.sp_row_mid() {
                Some(self.row_q_bits(r) + self.clk_pad_bits())
            } else if self.row_q_bits(r) > 0 {
                Some(0)
            } else {
                None
            },
        }
    }

    /// The bits of a frame taken by rows `0 .. k`.
    pub open spec fn rows_len(self, k: nat) -> nat
        decreases k,
    {
        if k == 0 {
            0
        } else {
            (self.rows_len((k - 1) as nat) + self.row_pre(k - 1) + self.spec_btile_height_main(k - 1)) as nat
        }
    }

    /// The frames of the break column right of column `c`, and where they start
    /// relative to the end of the column's own frames.
    pub open spec fn col_post(self, c: int) -> nat {
        match self.kind {
            ChipKind::Xc2000 => if self.col_is_bidi(c) { self.spec_btile_width_brk() as nat } else { 0 },
            ChipKind::Xc3000 | ChipKind::Xc3000A => 0,
            ChipKind::Xc5200 => if c == self.sp_col_mid() { 1 } else { 0 },
            _ => (if c == self.sp_col_mid() { self.spec_btile_width_clk() as nat } else { 0 }) + if self.kind.spec_is_xl() && (
            c == self.sp_col_q(DirH::W) || c == self.sp_col_q(DirH::E)) {
                1nat
            } else {
                0nat
            },
        }
    }

    /// Where the break column frames of column `c` start, relative to the end of its own frames.
    pub open spec fn col_llh_off(self, c: int) -> Option<nat> {
        match self.kind {
            ChipKind::Xc2000 => if self.col_is_bidi(c) { Some(0) } else { None },
            ChipKind::Xc3000 | ChipKind::Xc3000A => None,
            ChipKind::Xc5200 => if c == self.sp_col_mid() { Some(0) } else { None },
            _ => if self.kind.spec_is_xl() && (c == self.sp_col_q(DirH::W) || c == self.sp_col_q(DirH::E)) {
                Some(if c == self.sp_col_mid() { self.spec_btile_width_clk() as nat } else { 0 })
            } else if c == self.sp_col_mid() {
                Some(0)
            } else {
                None
            },
        }
    }

    /// The frames taken by columns `k ..`, which come first in the bitstream
    /// (columns are laid out east to west).
    pub open spec fn cols_from(self, k: nat) -> nat
        decreases self.columns - k,
    {
        if k >= self.columns {
            0
        } else {
            (self.cols_from(k + 1) + self.spec_btile_width_main(k as int) + self.col_post(k as int)) as nat
        }
    }

    /// The frame layout fits in the index range.
    pub open spec fn layout_fits(self) -> bool {
        &&& self.has_cells()
        &&& 3 * self.columns <= usize::MAX
        &&& 3 * self.rows <= usize::MAX
        &&& self.rows_len(self.rows as nat) <= usize::MAX
        &&& self.cols_from(0) <= u32::MAX
    }
}

/// The frame widths and heights are positive bit counts that only grow the layout.
proof fn lemma_rows_len_mono(chip: Chip, a: nat, b: nat)
    requires
        a <= b,
    ensures
        chip.rows_len(a) <= chip.rows_len(b),
    decreases b - a,
{
    if a < b {
        lemma_rows_len_mono(chip, a, (b - 1) as nat);
    }
}

proof fn lemma_cols_from_mono(chip: Chip, a: nat, b: nat)
    requires
        a <= b,
    ensures
        chip.cols_from(b) <= chip.cols_from(a),
    decreases b - a,
{
    if a < b {
        lemma_cols_from_mono(chip, a + 1, b);
    }
}

fn contains_row(v: &Vec<RowId>, r: RowId) -> (b: bool)
    ensures
        b == v@.contains(r),
{
    let mut i: usize = 0;
    while i < v.len()
        invariant
            i <= v@.len(),
            forall|j: int| 0 <= j < i ==> v@[j] != r,
        decreases v.len() - i,
    {
        if v[i] == r {
            assert(v@[i as int] == r);
            return true;
        }
        i = i + 1;
    }
    false
}

fn contains_col(v: &Vec<ColId>, c: ColId) -> (b: bool)
    ensures
        b == v@.contains(c),
{
    let mut i: usize = 0;
    while i < v.len()
        invariant
            i <= v@.len(),
            forall|j: int| 0 <= j < i ==> v@[j] != c,
        decreases v.len() - i,
    {
        if v[i] == c {
            assert(v@[i as int] == c);
            return true;
        }
        i = i + 1;
    }
    false
}

/// Appends `n` frames whose minor numbers continue the frame count.
fn push_frames(frames: &mut Vec<FrameAddr>, n: usize)
    requires
        old(frames)@.len() + n <= u32::MAX,
        forall|i: int| 0 <= i < old(frames)@.len() ==> #[trigger] old(frames)@[i] == (FrameAddr {
            typ: 0,
            region: 0,
            major: 0,
            minor: i as u32,
        }),
    ensures
        final(frames)@.len() == old(frames)@.len() + n,
        forall|i: int| 0 <= i < final(frames)@.len() ==> #[trigger] final(frames)@[i] == (FrameAddr {
            typ: 0,
            region: 0,
            major: 0,
            minor: i as u32,
        }),
{
    let mut k: usize = 0;
    while k < n
        invariant
            k <= n,
            frames@.len() == old(frames)@.len() + k,
            old(frames)@.len() + n <= u32::MAX,
            forall|i: int| 0 <= i < frames@.len() ==> #[trigger] frames@[i] == (FrameAddr {
                typ: 0,
                region: 0,
                major: 0,
                minor: i as u32,
            }),
        decreases n - k,
    {
        let minor = frames.len();
        frames.push(FrameAddr { typ: 0, region: 0, major: 0, minor: minor as u32 });
        k = k + 1;
    }
}

impl Chip {
    /// Expands the chip: the tiles of its interconnect grid, its bitstream
    /// format and its frame layout, in which rows are laid out south to
    /// north along a frame, each preceded by its break rows, and columns are
    /// laid out east to west, each followed by its break column.
    pub fn expand_grid(&self) -> (r: ExpandedDevice<'_>)
        requires
            self.layout_fits(),
            self.grid_ok(),
        ensures
            r.chip == self,
            tiles_view(r.tiles@) == self.spec_grid_tiles(),
            conns_view(r.conns@) == self.spec_grid_conns(),
            terms_view(r.terms@) == self.spec_corner_terms(),
            r.bitstream_kind == self.spec_bitstream_kind(),
            r.frame_len == self.rows_len(self.rows as nat),
            r.row_framebit@.len() == self.rows,
            r.llv_framebit@.len() == self.rows,
            forall|k: int|
                0 <= k < self.rows ==> #[trigger] r.row_framebit@[k] == self.rows_len(k as nat) + self.row_pre(k),
            forall|k: int|
                0 <= k < self.rows ==> #[trigger] r.llv_framebit@[k] == match self.row_llv_off(k) {
                    Some(off) => Some((self.rows_len(k as nat) + off) as usize),
                    None => None::<usize>,
                },
            r.frame_info@.len() == self.cols_from(0),
            forall|i: int|
                0 <= i < r.frame_info@.len() ==> #[trigger] r.frame_info@[i] == (FrameAddr {
                    typ: 0,
                    region: 0,
                    major: 0,
                    minor: i as u32,
                }),
            r.col_frame@.len() == self.columns,
            r.llh_frame@.len() == self.columns,
            forall|c: int|
                0 <= c < self.columns ==> #[trigger] r.col_frame@[c] == self.cols_from((c + 1) as nat),
            forall|c: int|
                0 <= c < self.columns ==> #[trigger] r.llh_frame@[c] == match self.col_llh_off(c) {
                    Some(off) => Some((self.cols_from((c + 1) as nat) + self.spec_btile_width_main(c) + off) as usize),
                    None => None::<usize>,
                },
    {
        let tiles = self.grid_tiles();
        let conns = self.grid_conns();
        let corners = self.corner_terms();
        let mut terms: Vec<GridTerm> = Vec::new();
        let ghost cv = corners@.map_values(|t: (&'static str, usize, usize)| (t.0@, t.1 as int, t.2 as int));
        let mut i: usize = 0;
        while i < corners.len()
            invariant
                i <= corners@.len(),
                cv == corners@.map_values(|t: (&'static str, usize, usize)| (t.0@, t.1 as int, t.2 as int)),
                terms_view(terms@) == cv.take(i as int),
            decreases corners@.len() - i,
        {
            let (class, col, row) = corners[i];
            push_term(&mut terms, class, col, row);
            i = i + 1;
            assert(terms_view(terms@) =~= cv.take(i as int));
        }
        assert(cv.take(corners@.len() as int) =~= cv);
        let bitstream_kind = self.bitstream_kind();
        let xc2000 = matches!(self.kind, ChipKind::Xc2000);
        let xc3000 = self.kind.is_xc3000();
        let xc5200 = matches!(self.kind, ChipKind::Xc5200);
        let xl = self.kind.is_xl();
        let mid_row = self.row_mid().0;
        let mid_col = self.col_mid().0;
        // rows, south to north
        let mut frame_len: usize = 0;
        let mut row_framebit: Vec<usize> = Vec::new();
        let mut llv_framebit: Vec<Option<usize>> = Vec::new();
        let mut r: usize = 0;
        while r < self.rows
            invariant
                self.layout_fits(),
                r <= self.rows,
                xc2000 == (self.kind is Xc2000),
                xc3000 == self.kind.spec_is_xc3000(),
                xc5200 == (self.kind is Xc5200),
                xl == self.kind.spec_is_xl(),
                mid_row == self.sp_row_mid(),
                frame_len == self.rows_len(r as nat),
                row_framebit@.len() == r,
                llv_framebit@.len() == r,
                forall|k: int|
                    0 <= k < r ==> #[trigger] row_framebit@[k] == self.rows_len(k as nat) + self.row_pre(k),
                forall|k: int|
                    0 <= k < r ==> #[trigger] llv_framebit@[k] == match self.row_llv_off(k) {
                        Some(off) => Some((self.rows_len(k as nat) + off) as usize),
                        None => None::<usize>,
                    },
            decreases self.rows - r,
        {
            proof {
                lemma_rows_len_mono(*self, (r + 1) as nat, self.rows as nat);
            }
            let start = frame_len;
            let mut llv: Option<usize> = None;
            if xc2000 {
                if contains_row(&self.rows_bidi, RowId(r)) {
                    llv = Some(frame_len);
                    frame_len = frame_len + 1;
                }
            } else if xc3000 {
                if r == mid_row && !self.is_small {
                    llv = Some(frame_len);
                    frame_len = frame_len + 1;
                }
            } else if xc5200 {
                if r == mid_row {
                    llv = Some(frame_len);
                    frame_len = frame_len + 4;
                }
            } else {
                if xl && (r == self.row_q(DirV::S).0 || r == self.row_q(DirV::N).0) {
                    llv = Some(frame_len);
                    frame_len = frame_len + self.btile_height_brk();
                }
                if r == mid_row {
                    if matches!(self.kind, ChipKind::Xc4000Ex | ChipKind::Xc4000Xla) {
                        // padding
                        frame_len = frame_len + 2;
                    }
                    llv = Some(frame_len);
                    frame_len = frame_len + self.btile_height_clk();
                }
            }
            assert(frame_len == start + self.row_pre(r as int));
            row_framebit.push(frame_len);
            llv_framebit.push(llv);
            frame_len = frame_len + self.btile_height_main(RowId(r));
            r = r + 1;
        }
        // columns, east to west
        let mut frame_info: Vec<FrameAddr> = Vec::new();
        let mut col_frame: Vec<usize> = Vec::new();
        let mut llh_frame: Vec<Option<usize>> = Vec::new();
        let mut k: usize = 0;
        while k < self.columns
            invariant
                k <= self.columns,
                col_frame@.len() == k,
                llh_frame@.len() == k,
            decreases self.columns - k,
        {
            col_frame.push(0);
            llh_frame.push(None);
            k = k + 1;
        }
        k = 0;
        while k < self.columns
            invariant
                self.layout_fits(),
                k <= self.columns,
                xc2000 == (self.kind is Xc2000),
                xc3000 == self.kind.spec_is_xc3000(),
                xc5200 == (self.kind is Xc5200),
                xl == self.kind.spec_is_xl(),
                mid_col == self.sp_col_mid(),
                col_frame@.len() == self.columns,
                llh_frame@.len() == self.columns,
                frame_info@.len() == self.cols_from((self.columns - k) as nat),
                forall|i: int|
                    0 <= i < frame_info@.len() ==> #[trigger] frame_info@[i] == (FrameAddr {
                        typ: 0,
                        region: 0,
                        major: 0,
                        minor: i as u32,
                    }),
                forall|c: int|
                    self.columns - k <= c < self.columns ==> #[trigger] col_frame@[c] == self.cols_from((c + 1) as nat),
                forall|c: int|
                    self.columns - k <= c < self.columns ==> #[trigger] llh_frame@[c] == match self.col_llh_off(c) {
                        Some(off) => Some((self.cols_from((c + 1) as nat) + self.spec_btile_width_main(c) + off) as usize),
                        None => None::<usize>,
                    },
            decreases self.columns - k,
        {
            let c = self.columns - 1 - k;
            proof {
                lemma_cols_from_mono(*self, 0, c as nat);
            }
            let start = frame_info.len();
            col_frame.set(c, start);
            push_frames(&mut frame_info, self.btile_width_main(ColId(c)));
            let mut llh: Option<usize> = None;
            if xc2000 {
                if contains_col(&self.cols_bidi, ColId(c)) {
                    llh = Some(frame_info.len());
                    push_frames(&mut frame_info, self.btile_width_brk());
                }
            } else if xc3000 {
            } else if xc5200 {
                if c == mid_col {
                    llh = Some(frame_info.len());
                    push_frames(&mut frame_info, 1);
                }
            } else {
                if c == mid_col {
                    llh = Some(frame_info.len());
                    push_frames(&mut frame_info, self.btile_width_clk());
                }
                if xl && (c == self.col_q(DirH::W).0 || c == self.col_q(DirH::E).0) {
                    llh = Some(frame_info.len());
                    push_frames(&mut frame_info, 1);
                }
            }
            llh_frame.set(c, llh);
            k = k + 1;
        }
        assert(self.columns - self.columns == 0);
        ExpandedDevice {
            chip: self,
            tiles,
            conns,
            terms,
            bitstream_kind,
            frame_len,
            frame_info,
            col_frame,
            llh_frame,
            row_framebit,
            llv_framebit,
        }
    }
}

/// In the frame layout that `expand_grid` builds, the break bit rectangle
/// below a row ends exactly where that row's main bit rectangle begins, so
/// the two never overlap.  Below the middle row of the XC3000, XC4000 and
/// XC5200 families the break rectangle is the clock row, as high as
/// `btile_height_clk`; below the XC4000X quarter rows and the XC2000 break
/// rows it is as high as `btile_height_brk`.
pub proof fn lemma_llv_meets_main(dev: ExpandedDevice, col: int, row: int)
    requires
        dev.llv_ok(col, row),
        row < dev.chip.rows,
        dev.row_framebit@.len() == dev.chip.rows,
        forall|k: int|
            0 <= k < dev.chip.rows ==> #[trigger] dev.row_framebit@[k] == dev.chip.rows_len(k as nat)
                + dev.chip.row_pre(k),
        forall|k: int|
            0 <= k < dev.chip.rows ==> #[trigger] dev.llv_framebit@[k] == match dev.chip.row_llv_off(k) {
                Some(off) => Some((dev.chip.rows_len(k as nat) + off) as usize),
                None => None::<usize>,
            },
    ensures
        match (dev.spec_btile_llv(col, row), dev.spec_btile_main(col, row)) {
            (BitRect::Main(_, _, _, llv_bit, llv_height, _), BitRect::Main(_, _, _, main_bit, _, _)) => llv_bit
                + llv_height == main_bit,
        },
        match dev.spec_btile_llv(col, row) {
            BitRect::Main(_, _, _, _, llv_height, _) => llv_height == if !(dev.chip.kind is Xc2000) && (
            dev.chip.kind.spec_is_xc3000() || row == dev.chip.sp_row_mid()) {
                dev.chip.spec_btile_height_clk()
            } else {
                dev.chip.spec_btile_height_brk()
            },
        },
{
    let chip = *dev.chip;
    assert(dev.row_framebit@[row] == chip.rows_len(row as nat) + chip.row_pre(row));
    assert(dev.llv_framebit@[row] == match chip.row_llv_off(row) {
        Some(off) => Some((chip.rows_len(row as nat) + off) as usize),
        None => None::<usize>,
    });
}

} // verus!
