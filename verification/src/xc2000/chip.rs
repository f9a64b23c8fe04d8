//! Chip geometry of the XC2000 .. XC5200 families.
use vstd::prelude::*;
use vstd::string::*;
use crate::text::{decimal, push_decimal};
use crate::grid::{ColId, DirH, DirHV, DirV, EdgeIoCoord, RowId, TileIobId, DieId};
use crate::seqs::{concat_map, lemma_add_no_duplicates, lemma_concat_map_keyed, lemma_concat_map_member};
use crate::xc2000::bels::{BelCoord, BelSlot, TileCoord, TileSlot, bel_at, spec_bel};

verus! {

/// The family (and variant) of an XC2000-style chip.
#[derive(Clone, Copy, Debug, PartialEq, Eq, Structural, Hash)]
pub enum ChipKind {
    Xc2000,
    Xc3000,
    Xc3000A,
    // plain, D (no memory)
    Xc4000,
    Xc4000A,
    Xc4000H,
    // E, L, Spartan
    Xc4000E,
    // EX, XL
    Xc4000Ex,
    Xc4000Xla,
    Xc4000Xv,
    SpartanXl,
    Xc5200,
}

impl ChipKind {
    pub open spec fn spec_is_xc3000(self) -> bool {
        self is Xc3000 || self is Xc3000A
    }

    pub open spec fn spec_is_xc4000(self) -> bool {
        ||| self is Xc4000
        ||| self is Xc4000A
        ||| self is Xc4000H
        ||| self is Xc4000E
        ||| self is Xc4000Ex
        ||| self is Xc4000Xla
        ||| self is Xc4000Xv
        ||| self is SpartanXl
    }

    pub open spec fn spec_is_xl(self) -> bool {
        self is Xc4000Ex || self is Xc4000Xla || self is Xc4000Xv
    }

    pub open spec fn spec_is_clb_xl(self) -> bool {
        self is SpartanXl || self.spec_is_xl()
    }

    /// Whether this is one of the XC3000 variants.
    pub fn is_xc3000(self) -> (r: bool)
        ensures
            r == self.spec_is_xc3000(),
    {
        matches!(self, ChipKind::Xc3000 | ChipKind::Xc3000A)
    }

    /// Whether this is one of the XC4000 variants (Spartan XL included).
    pub fn is_xc4000(self) -> (r: bool)
        ensures
            r == self.spec_is_xc4000(),
    {
        matches!(
            self,
            ChipKind::Xc4000 | ChipKind::Xc4000A | ChipKind::Xc4000H | ChipKind::Xc4000E
                | ChipKind::Xc4000Ex | ChipKind::Xc4000Xla | ChipKind::Xc4000Xv
                | ChipKind::SpartanXl
        )
    }

    /// Whether this is one of the XC4000X variants (EX, XLA, XV).
    pub fn is_xl(self) -> (r: bool)
        ensures
            r == self.spec_is_xl(),
    {
        matches!(self, ChipKind::Xc4000Ex | ChipKind::Xc4000Xla | ChipKind::Xc4000Xv)
    }

    /// Whether the chip has the XL-style CLB (XC4000X and Spartan XL).
    pub fn is_clb_xl(self) -> (r: bool)
        ensures
            r == self.spec_is_clb_xl(),
    {
        matches!(
            self,
            ChipKind::SpartanXl | ChipKind::Xc4000Ex | ChipKind::Xc4000Xla | ChipKind::Xc4000Xv
        )
    }
}

/// A configuration pad shared with a general-purpose IO.
#[derive(Clone, Copy, Debug, PartialEq, Eq, Structural, Hash)]
pub enum SharedCfgPad {
    Addr(u8),
    Data(u8),
    Ldc,
    Hdc,
    RclkB,
    Dout,
    M2,  // dedicated on XC4000
    // XC3000+
    InitB,
    Cs0B,
    Cs1B,
    // XC4000+
    Tck,
    Tdi,
    Tms,
    // XC5200 only
    Tdo,
    M0,
    M1,
}

/// The geometry of a chip.  The grid has `columns` columns, numbered from
/// the west edge, and `rows` rows, numbered from the south edge.  The lists
/// of bidirectional-buffer columns and rows, configuration IOs and unbonded
/// IOs hold each entry once, the first three in ascending order (see
/// `Chip::collections_ok`).
#[derive(Clone, Debug)]
pub struct Chip {
    pub kind: ChipKind,
    pub columns: usize,
    pub rows: usize,
    // XC3000 only
    pub is_small: bool,
    // XC4000X only
    pub is_buff_large: bool,
    // XC2000 only
    pub cols_bidi: Vec<ColId>,
    pub rows_bidi: Vec<RowId>,
    pub cfg_io: Vec<(SharedCfgPad, EdgeIoCoord)>,
    pub unbonded_io: Vec<EdgeIoCoord>,
}

impl Chip {
    pub open spec fn sp_col_e(self) -> int {
        self.columns - 1
    }

    pub open spec fn sp_col_mid(self) -> int {
        self.columns as int / 2
    }

    pub open spec fn sp_row_n(self) -> int {
        self.rows - 1
    }

    pub open spec fn sp_row_mid(self) -> int {
        self.rows as int / 2
    }

    pub open spec fn sp_col_edge(self, edge: DirH) -> int {
        match edge {
            DirH::W => 0,
            DirH::E => self.sp_col_e(),
        }
    }

    pub open spec fn sp_row_edge(self, edge: DirV) -> int {
        match edge {
            DirV::S => 0,
            DirV::N => self.sp_row_n(),
        }
    }

    pub open spec fn sp_col_q(self, side: DirH) -> int {
        match side {
            DirH::W => (self.columns + 2) / 4 as int,
            DirH::E => 3 * self.columns / 4,
        }
    }

    pub open spec fn sp_row_q(self, side: DirV) -> int {
        match side {
            DirV::S => (self.rows + 2) / 4 as int,
            DirV::N => 3 * self.rows / 4,
        }
    }

    /// The westmost column.
    pub fn col_w(&self) -> (r: ColId)
        ensures
            r == ColId(0),
    {
        ColId(0)
    }

    /// The eastmost column.
    pub fn col_e(&self) -> (r: ColId)
        requires
            self.columns >= 1,
        ensures
            r.0 == self.sp_col_e(),
    {
        ColId(self.columns - 1)
    }

    /// The middle column (the clock spine).
    pub fn col_mid(&self) -> (r: ColId)
        ensures
            r.0 == self.sp_col_mid(),
    {
        ColId(self.columns / 2)
    }

    /// The column on the given edge.
    pub fn col_edge(&self, edge: DirH) -> (r: ColId)
        requires
            self.columns >= 1,
        ensures
            r.0 == self.sp_col_edge(edge),
    {
        match edge {
            DirH::W => self.col_w(),
            DirH::E => self.col_e(),
        }
    }

    /// The southmost row.
    pub fn row_s(&self) -> (r: RowId)
        ensures
            r == RowId(0),
    {
        RowId(0)
    }

    /// The northmost row.
    pub fn row_n(&self) -> (r: RowId)
        requires
            self.rows >= 1,
        ensures
            r.0 == self.sp_row_n(),
    {
        RowId(self.rows - 1)
    }

    /// The middle row (the clock row).
    pub fn row_mid(&self) -> (r: RowId)
        ensures
            r.0 == self.sp_row_mid(),
    {
        RowId(self.rows / 2)
    }

    /// The row on the given edge.
    pub fn row_edge(&self, edge: DirV) -> (r: RowId)
        requires
            self.rows >= 1,
        ensures
            r.0 == self.sp_row_edge(edge),
    {
        match edge {
            DirV::S => self.row_s(),
            DirV::N => self.row_n(),
        }
    }

    /// The main tile of the given corner cell.
    pub fn corner(&self, side: DirHV) -> (r: TileCoord)
        requires
            self.columns >= 1,
            self.rows >= 1,
        ensures
            r == (TileCoord {
                die: DieId(0),
                col: ColId(self.sp_col_edge(side.h) as usize),
                row: RowId(self.sp_row_edge(side.v) as usize),
                slot: TileSlot::Main,
            }),
    {
        TileCoord {
            die: DieId(0),
            col: self.col_edge(side.h),
            row: self.row_edge(side.v),
            slot: TileSlot::Main,
        }
    }

    /// The column of the west or east quarter break.
    pub fn col_q(&self, side: DirH) -> (r: ColId)
        requires
            3 * self.columns <= usize::MAX,
        ensures
            r.0 == self.sp_col_q(side),
    {
        match side {
            DirH::W => ColId((self.columns + 2) / 4),
            DirH::E => ColId(3 * self.columns / 4),
        }
    }

    /// The row of the south or north quarter break.
    pub fn row_q(&self, side: DirV) -> (r: RowId)
        requires
            3 * self.rows <= usize::MAX,
        ensures
            r.0 == self.sp_row_q(side),
    {
        match side {
            DirV::S => RowId((self.rows + 2) / 4),
            DirV::N => RowId(3 * self.rows / 4),
        }
    }

    /// Which half of the chip, west or east of the middle column, a column lies in.
    pub fn col_side_of_mid(&self, col: ColId) -> (r: DirH)
        ensures
            r == (if col.0 < self.sp_col_mid() { DirH::W } else { DirH::E }),
    {
        if col.0 < self.col_mid().0 {
            DirH::W
        } else {
            DirH::E
        }
    }

    /// Which half of the chip, south or north of the middle row, a row lies in.
    pub fn row_side_of_mid(&self, row: RowId) -> (r: DirV)
        ensures
            r == (if row.0 < self.sp_row_mid() { DirV::S } else { DirV::N }),
    {
        if row.0 < self.row_mid().0 {
            DirV::S
        } else {
            DirV::N
        }
    }

    /// All columns, west to east.
    pub fn columns(&self) -> (r: Vec<ColId>)
        ensures
            r@.len() == self.columns,
            forall|i: int| 0 <= i < self.columns ==> #[trigger] r@[i] == ColId(i as usize),
    {
        let mut r: Vec<ColId> = Vec::new();
        let mut i: usize = 0;
        while i < self.columns
            invariant
                i <= self.columns,
                r@.len() == i,
                forall|k: int| 0 <= k < i ==> #[trigger] r@[k] == ColId(k as usize),
            decreases self.columns - i,
        {
            r.push(ColId(i));
            i = i + 1;
        }
        r
    }

    /// All rows, south to north.
    pub fn rows(&self) -> (r: Vec<RowId>)
        ensures
            r@.len() == self.rows,
            forall|i: int| 0 <= i < self.rows ==> #[trigger] r@[i] == RowId(i as usize),
    {
        let mut r: Vec<RowId> = Vec::new();
        let mut i: usize = 0;
        while i < self.rows
            invariant
                i <= self.rows,
                r@.len() == i,
                forall|k: int| 0 <= k < i ==> #[trigger] r@[k] == RowId(k as usize),
            decreases self.rows - i,
        {
            r.push(RowId(i));
            i = i + 1;
        }
        r
    }
}


/// The index of a bel slot within its IO array (zero for the other slots).
pub open spec fn slot_index(slot: BelSlot) -> usize {
    match slot {
        BelSlot::IoW(i) => i,
        BelSlot::IoE(i) => i,
        BelSlot::IoS(i) => i,
        BelSlot::IoN(i) => i,
        BelSlot::Io(i) => i,
        BelSlot::Hio(i) => i,
        _ => 0,
    }
}

/// The IO index within its tile.
pub open spec fn io_iob(io: EdgeIoCoord) -> usize {
    match io {
        EdgeIoCoord::N(_, iob) => iob.0,
        EdgeIoCoord::E(_, iob) => iob.0,
        EdgeIoCoord::S(_, iob) => iob.0,
        EdgeIoCoord::W(_, iob) => iob.0,
    }
}

/// The place of a shared configuration pad in the order of its kinds
/// (their order of declaration), then by index.
pub open spec fn shared_cfg_pad_rank(p: SharedCfgPad) -> (int, int) {
    match p {
        SharedCfgPad::Addr(i) => (0, i as int),
        SharedCfgPad::Data(i) => (1, i as int),
        SharedCfgPad::Ldc => (2, 0),
        SharedCfgPad::Hdc => (3, 0),
        SharedCfgPad::RclkB => (4, 0),
        SharedCfgPad::Dout => (5, 0),
        SharedCfgPad::M2 => (6, 0),
        SharedCfgPad::InitB => (7, 0),
        SharedCfgPad::Cs0B => (8, 0),
        SharedCfgPad::Cs1B => (9, 0),
        SharedCfgPad::Tck => (10, 0),
        SharedCfgPad::Tdi => (11, 0),
        SharedCfgPad::Tms => (12, 0),
        SharedCfgPad::Tdo => (13, 0),
        SharedCfgPad::M0 => (14, 0),
        SharedCfgPad::M1 => (15, 0),
    }
}

/// Shared configuration pad `a` comes before `b`.
pub open spec fn shared_cfg_pad_lt(a: SharedCfgPad, b: SharedCfgPad) -> bool {
    let (x, i) = shared_cfg_pad_rank(a);
    let (y, j) = shared_cfg_pad_rank(b);
    x < y || (x == y && i < j)
}

impl Chip {
    /// The chip's lists hold each entry once: the bidirectional-buffer
    /// columns and rows and the configuration IOs (by pad) ascend strictly,
    /// and no unbonded IO occurs twice.
    pub open spec fn collections_ok(self) -> bool {
        &&& forall|i: int, j: int|
            0 <= i < j < self.cols_bidi@.len() ==> (#[trigger] self.cols_bidi@[i]).0 < (#[trigger] self.cols_bidi@[j]).0
        &&& forall|i: int, j: int|
            0 <= i < j < self.rows_bidi@.len() ==> (#[trigger] self.rows_bidi@[i]).0 < (#[trigger] self.rows_bidi@[j]).0
        &&& forall|i: int, j: int|
            0 <= i < j < self.cfg_io@.len() ==> shared_cfg_pad_lt((#[trigger] self.cfg_io@[i]).0, (#[trigger] self.cfg_io@[j]).0)
        &&& self.unbonded_io@.no_duplicates()
    }
}

/// The place of a shared configuration pad in the order of its kinds, then
/// by index.
fn cfg_pad_rank(p: SharedCfgPad) -> (r: (u8, u8))
    ensures
        r.0 == shared_cfg_pad_rank(p).0,
        r.1 == shared_cfg_pad_rank(p).1,
{
    match p {
        SharedCfgPad::Addr(i) => (0, i),
        SharedCfgPad::Data(i) => (1, i),
        SharedCfgPad::Ldc => (2, 0),
        SharedCfgPad::Hdc => (3, 0),
        SharedCfgPad::RclkB => (4, 0),
        SharedCfgPad::Dout => (5, 0),
        SharedCfgPad::M2 => (6, 0),
        SharedCfgPad::InitB => (7, 0),
        SharedCfgPad::Cs0B => (8, 0),
        SharedCfgPad::Cs1B => (9, 0),
        SharedCfgPad::Tck => (10, 0),
        SharedCfgPad::Tdi => (11, 0),
        SharedCfgPad::Tms => (12, 0),
        SharedCfgPad::Tdo => (13, 0),
        SharedCfgPad::M0 => (14, 0),
        SharedCfgPad::M1 => (15, 0),
    }
}

/// Whether the columns ascend strictly.
fn cols_ascend(v: &Vec<ColId>) -> (r: bool)
    ensures
        r == forall|i: int, j: int| 0 <= i < j < v@.len() ==> (#[trigger] v@[i]).0 < (#[trigger] v@[j]).0,
{
    let mut i: usize = 1;
    while i < v.len()
        invariant
            1 <= i,
            i <= v@.len() || v@.len() == 0,
            forall|a: int, b: int| 0 <= a < b < i && b < v@.len() ==> (#[trigger] v@[a]).0 < (#[trigger] v@[b]).0,
        decreases v@.len() - i,
    {
        if v[i - 1].0 >= v[i].0 {
            return false;
        }
        assert forall|a: int, b: int| 0 <= a < b < i + 1 && b < v@.len() implies (#[trigger] v@[a]).0 < (
        #[trigger] v@[b]).0 by {
            if b == i && a < i - 1 {
                assert(v@[a].0 < v@[i - 1].0);
            }
        }
        i = i + 1;
    }
    true
}

/// Whether the rows ascend strictly.
fn rows_ascend(v: &Vec<RowId>) -> (r: bool)
    ensures
        r == forall|i: int, j: int| 0 <= i < j < v@.len() ==> (#[trigger] v@[i]).0 < (#[trigger] v@[j]).0,
{
    let mut i: usize = 1;
    while i < v.len()
        invariant
            1 <= i,
            i <= v@.len() || v@.len() == 0,
            forall|a: int, b: int| 0 <= a < b < i && b < v@.len() ==> (#[trigger] v@[a]).0 < (#[trigger] v@[b]).0,
        decreases v@.len() - i,
    {
        if v[i - 1].0 >= v[i].0 {
            return false;
        }
        assert forall|a: int, b: int| 0 <= a < b < i + 1 && b < v@.len() implies (#[trigger] v@[a]).0 < (
        #[trigger] v@[b]).0 by {
            if b == i && a < i - 1 {
                assert(v@[a].0 < v@[i - 1].0);
            }
        }
        i = i + 1;
    }
    true
}

/// Whether the configuration IOs ascend strictly by pad.
fn cfg_io_ascends(v: &Vec<(SharedCfgPad, EdgeIoCoord)>) -> (r: bool)
    ensures
        r == forall|i: int, j: int|
            0 <= i < j < v@.len() ==> shared_cfg_pad_lt((#[trigger] v@[i]).0, (#[trigger] v@[j]).0),
{
    let mut i: usize = 1;
    while i < v.len()
        invariant
            1 <= i,
            i <= v@.len() || v@.len() == 0,
            forall|a: int, b: int|
                0 <= a < b < i && b < v@.len() ==> shared_cfg_pad_lt((#[trigger] v@[a]).0, (#[trigger] v@[b]).0),
        decreases v@.len() - i,
    {
        let (x, k) = cfg_pad_rank(v[i - 1].0);
        let (y, l) = cfg_pad_rank(v[i].0);
        if !(x < y || (x == y && k < l)) {
            assert(!shared_cfg_pad_lt(v@[i - 1].0, v@[i as int].0));
            return false;
        }
        assert forall|a: int, b: int| 0 <= a < b < i + 1 && b < v@.len() implies shared_cfg_pad_lt(
            (#[trigger] v@[a]).0,
            (#[trigger] v@[b]).0,
        ) by {
            if b == i && a < i - 1 {
                assert(shared_cfg_pad_lt(v@[a].0, v@[i - 1].0));
            }
        }
        i = i + 1;
    }
    true
}

/// Whether no IO of the list occurs twice.
fn ios_distinct(v: &Vec<EdgeIoCoord>) -> (r: bool)
    ensures
        r == v@.no_duplicates(),
{
    let mut j: usize = 0;
    while j < v.len()
        invariant
            j <= v@.len(),
            forall|a: int, b: int| 0 <= a < b < j ==> v@[a] != v@[b],
        decreases v@.len() - j,
    {
        let mut i: usize = 0;
        while i < j
            invariant
                i <= j < v@.len(),
                forall|a: int, b: int| 0 <= a < b < j ==> v@[a] != v@[b],
                forall|a: int| 0 <= a < i ==> v@[a] != v@[j as int],
            decreases j - i,
        {
            if v[i] == v[j] {
                return false;
            }
            i = i + 1;
        }
        j = j + 1;
    }
    true
}

impl Chip {
    /// Whether the chip's lists hold each entry once, in the order that
    /// `collections_ok` states.
    pub fn check_collections(&self) -> (r: bool)
        ensures
            r == self.collections_ok(),
    {
        cols_ascend(&self.cols_bidi) && rows_ascend(&self.rows_bidi) && cfg_io_ascends(&self.cfg_io)
            && ios_distinct(&self.unbonded_io)
    }
}

impl Chip {
    /// The chip has at least one column and one row.
    pub open spec fn has_cells(self) -> bool {
        self.columns >= 1 && self.rows >= 1
    }

    /// Whether the kind uses the per-edge IO slot arrays (XC2000, XC3000).
    pub open spec fn has_edge_io_slots(self) -> bool {
        self.kind is Xc2000 || self.kind.spec_is_xc3000()
    }

    /// The number of IOs in an edge tile.
    pub open spec fn iobs_per_tile(self) -> nat {
        match self.kind {
            ChipKind::Xc4000H | ChipKind::Xc5200 => 4,
            _ => 2,
        }
    }

    /// The cell lies on one of the four edges of the grid.
    pub open spec fn on_edge(self, col: ColId, row: RowId) -> bool {
        col.0 == 0 || col.0 == self.sp_col_e() || row.0 == 0 || row.0 == self.sp_row_n()
    }

    /// `bel` is an IO bel of this chip's family, placed on the matching edge.
    pub open spec fn io_bel_valid(self, bel: BelCoord) -> bool {
        if self.has_edge_io_slots() {
            match bel.slot {
                BelSlot::IoW(i) => i < 2 && bel.col.0 == 0,
                BelSlot::IoE(i) => i < 2 && bel.col.0 == self.sp_col_e(),
                BelSlot::IoS(i) => i < 2 && bel.row.0 == 0,
                BelSlot::IoN(i) => i < 2 && bel.row.0 == self.sp_row_n(),
                _ => false,
            }
        } else {
            &&& self.on_edge(bel.col, bel.row)
            &&& match self.kind {
                ChipKind::Xc4000H => bel.slot is Hio,
                _ => bel.slot is Io,
            }
            &&& slot_index(bel.slot) < self.iobs_per_tile()
        }
    }

    /// The edge IO that an IO bel implements.
    pub open spec fn spec_io_crd(self, bel: BelCoord) -> EdgeIoCoord {
        let iob = TileIobId(slot_index(bel.slot));
        if self.has_edge_io_slots() {
            match bel.slot {
                BelSlot::IoE(_) => EdgeIoCoord::E(bel.row, iob),
                BelSlot::IoS(_) => EdgeIoCoord::S(bel.col, iob),
                BelSlot::IoN(_) => EdgeIoCoord::N(bel.col, iob),
                _ => EdgeIoCoord::W(bel.row, iob),
            }
        } else if bel.col.0 == 0 {
            EdgeIoCoord::W(bel.row, iob)
        } else if bel.col.0 == self.sp_col_e() {
            EdgeIoCoord::E(bel.row, iob)
        } else if bel.row.0 == 0 {
            EdgeIoCoord::S(bel.col, iob)
        } else {
            EdgeIoCoord::N(bel.col, iob)
        }
    }

    /// The IO bel slot of the chip's family for IO index `iob` on the given edge.
    pub open spec fn spec_io_slot(self, io: EdgeIoCoord) -> BelSlot {
        let i = io_iob(io);
        if self.has_edge_io_slots() {
            match io {
                EdgeIoCoord::N(..) => BelSlot::IoN(i),
                EdgeIoCoord::E(..) => BelSlot::IoE(i),
                EdgeIoCoord::S(..) => BelSlot::IoS(i),
                EdgeIoCoord::W(..) => BelSlot::IoW(i),
            }
        } else if self.kind is Xc4000H {
            BelSlot::Hio(i)
        } else {
            BelSlot::Io(i)
        }
    }

    /// The IO bel that implements an edge IO.
    pub open spec fn spec_io_loc(self, io: EdgeIoCoord) -> BelCoord {
        let slot = self.spec_io_slot(io);
        match io {
            EdgeIoCoord::N(col, _) => spec_bel(col.0 as int, self.sp_row_n(), slot),
            EdgeIoCoord::E(row, _) => spec_bel(self.sp_col_e(), row.0 as int, slot),
            EdgeIoCoord::S(col, _) => spec_bel(col.0 as int, 0, slot),
            EdgeIoCoord::W(row, _) => spec_bel(0, row.0 as int, slot),
        }
    }

    /// An edge IO that this chip's family can hold: its index is within the
    /// tile, and on the XC4000 and XC5200 families the north and south IOs
    /// stand in an inner column (the corner cells hold no such IOs).
    pub open spec fn io_valid(self, io: EdgeIoCoord) -> bool {
        &&& io_iob(io) < self.iobs_per_tile()
        &&& self.has_edge_io_slots() || match io {
            EdgeIoCoord::N(col, _) => 0 < col.0 < self.sp_col_e() && self.rows >= 2,
            EdgeIoCoord::S(col, _) => 0 < col.0 < self.sp_col_e(),
            EdgeIoCoord::E(..) => self.columns >= 2,
            EdgeIoCoord::W(..) => true,
        }
    }

    /// The edge IO implemented by an IO bel.
    pub fn get_io_crd(&self, bel: BelCoord) -> (r: EdgeIoCoord)
        requires
            self.has_cells(),
            self.io_bel_valid(bel),
        ensures
            r == self.spec_io_crd(bel),
    {
        match self.kind {
            ChipKind::Xc2000 | ChipKind::Xc3000 | ChipKind::Xc3000A => match bel.slot {
                BelSlot::IoW(i) => EdgeIoCoord::W(bel.row, TileIobId(i)),
                BelSlot::IoE(i) => EdgeIoCoord::E(bel.row, TileIobId(i)),
                BelSlot::IoS(i) => EdgeIoCoord::S(bel.col, TileIobId(i)),
                BelSlot::IoN(i) => EdgeIoCoord::N(bel.col, TileIobId(i)),
                _ => EdgeIoCoord::W(bel.row, TileIobId(0)),
            },
            _ => {
                let iob = match bel.slot {
                    BelSlot::Io(i) => TileIobId(i),
                    BelSlot::Hio(i) => TileIobId(i),
                    _ => TileIobId(0),
                };
                if bel.col.0 == self.col_w().0 {
                    EdgeIoCoord::W(bel.row, iob)
                } else if bel.col.0 == self.col_e().0 {
                    EdgeIoCoord::E(bel.row, iob)
                } else if bel.row.0 == self.row_s().0 {
                    EdgeIoCoord::S(bel.col, iob)
                } else {
                    EdgeIoCoord::N(bel.col, iob)
                }
            },
        }
    }

    /// The IO bel that implements an edge IO.
    pub fn get_io_loc(&self, io: EdgeIoCoord) -> (r: BelCoord)
        requires
            self.has_cells(),
            io_iob(io) < self.iobs_per_tile(),
        ensures
            r == self.spec_io_loc(io),
    {
        let edge_slots = matches!(self.kind, ChipKind::Xc2000 | ChipKind::Xc3000 | ChipKind::Xc3000A);
        let hio = matches!(self.kind, ChipKind::Xc4000H);
        match io {
            EdgeIoCoord::N(col, iob) => {
                let slot = if edge_slots {
                    BelSlot::IoN(iob.0)
                } else if hio {
                    BelSlot::Hio(iob.0)
                } else {
                    BelSlot::Io(iob.0)
                };
                bel_at(col.0, self.row_n().0, slot)
            },
            EdgeIoCoord::E(row, iob) => {
                let slot = if edge_slots {
                    BelSlot::IoE(iob.0)
                } else if hio {
                    BelSlot::Hio(iob.0)
                } else {
                    BelSlot::Io(iob.0)
                };
                bel_at(self.col_e().0, row.0, slot)
            },
            EdgeIoCoord::S(col, iob) => {
                let slot = if edge_slots {
                    BelSlot::IoS(iob.0)
                } else if hio {
                    BelSlot::Hio(iob.0)
                } else {
                    BelSlot::Io(iob.0)
                };
                bel_at(col.0, self.row_s().0, slot)
            },
            EdgeIoCoord::W(row, iob) => {
                let slot = if edge_slots {
                    BelSlot::IoW(iob.0)
                } else if hio {
                    BelSlot::Hio(iob.0)
                } else {
                    BelSlot::Io(iob.0)
                };
                bel_at(self.col_w().0, row.0, slot)
            },
        }
    }

    /// The XTL1 crystal oscillator IO.
    pub fn io_xtl1(&self) -> (r: EdgeIoCoord)
        requires
            self.columns >= 1,
        ensures
            r == EdgeIoCoord::S(ColId(self.sp_col_e() as usize), TileIobId(1)),
    {
        EdgeIoCoord::S(self.col_e(), TileIobId(1))
    }

    /// The XTL2 crystal oscillator IO.
    pub fn io_xtl2(&self) -> (r: EdgeIoCoord)
        ensures
            r == EdgeIoCoord::E(RowId(0), TileIobId(0)),
    {
        EdgeIoCoord::E(self.row_s(), TileIobId(0))
    }
}

/// Mapping an edge IO to its bel and back gives the IO again.
pub proof fn lemma_io_loc_then_crd(chip: Chip, io: EdgeIoCoord)
    requires
        chip.has_cells(),
        chip.io_valid(io),
    ensures
        chip.io_bel_valid(chip.spec_io_loc(io)),
        chip.spec_io_crd(chip.spec_io_loc(io)) == io,
{
}

/// Mapping an IO bel of the single die to its edge IO and back gives the bel again.
pub proof fn lemma_io_crd_then_loc(chip: Chip, bel: BelCoord)
    requires
        chip.has_cells(),
        chip.io_bel_valid(bel),
        bel.die == DieId(0),
    ensures
        chip.spec_io_loc(chip.spec_io_crd(bel)) == bel,
{
}

/// One of the four edges of the grid.
#[derive(Clone, Copy, Debug, PartialEq, Eq, Structural, Hash)]
pub enum IoEdge {
    N,
    E,
    S,
    W,
}

/// IO `iob` of the edge tile at position `pos` (a column on the north and
/// south edges, a row on the east and west edges).
pub open spec fn edge_io(edge: IoEdge, pos: int, iob: int) -> EdgeIoCoord {
    match edge {
        IoEdge::N => EdgeIoCoord::N(ColId(pos as usize), TileIobId(iob as usize)),
        IoEdge::E => EdgeIoCoord::E(RowId(pos as usize), TileIobId(iob as usize)),
        IoEdge::S => EdgeIoCoord::S(ColId(pos as usize), TileIobId(iob as usize)),
        IoEdge::W => EdgeIoCoord::W(RowId(pos as usize), TileIobId(iob as usize)),
    }
}

/// The `k` IOs of one edge tile, in ascending or descending IO index order.
pub open spec fn io_run(edge: IoEdge, pos: int, k: nat, desc: bool) -> Seq<EdgeIoCoord> {
    Seq::new(k, |j: int| edge_io(edge, pos, if desc { k - 1 - j } else { j }))
}

fn mk_edge_io(edge: IoEdge, pos: usize, iob: usize) -> (r: EdgeIoCoord)
    ensures
        r == edge_io(edge, pos as int, iob as int),
{
    match edge {
        IoEdge::N => EdgeIoCoord::N(ColId(pos), TileIobId(iob)),
        IoEdge::E => EdgeIoCoord::E(RowId(pos), TileIobId(iob)),
        IoEdge::S => EdgeIoCoord::S(ColId(pos), TileIobId(iob)),
        IoEdge::W => EdgeIoCoord::W(RowId(pos), TileIobId(iob)),
    }
}

fn push_io_run(res: &mut Vec<EdgeIoCoord>, edge: IoEdge, pos: usize, k: usize, desc: bool)
    ensures
        final(res)@ == old(res)@ + io_run(edge, pos as int, k as nat, desc),
{
    let mut j: usize = 0;
    while j < k
        invariant
            j <= k,
            res@ == old(res)@ + io_run(edge, pos as int, k as nat, desc).take(j as int),
        decreases k - j,
    {
        let iob = if desc { k - 1 - j } else { j };
        res.push(mk_edge_io(edge, pos, iob));
        assert(io_run(edge, pos as int, k as nat, desc).take(j + 1) =~= io_run(
            edge,
            pos as int,
            k as nat,
            desc,
        ).take(j as int).push(edge_io(edge, pos as int, iob as int)));
        j = j + 1;
    }
    assert(io_run(edge, pos as int, k as nat, desc).take(k as int) =~= io_run(
        edge,
        pos as int,
        k as nat,
        desc,
    ));
}

impl Chip {
    /// On the XC4000 and XC5200 families the corner cells of an edge hold no IOs.
    pub open spec fn skips_corner(self, pos: int, n: nat) -> bool {
        !self.has_edge_io_slots() && (pos == 0 || pos == n - 1)
    }

    /// The north and east edges list IOs by descending index on the XC5200.
    pub open spec fn ne_desc(self) -> bool {
        self.kind is Xc5200
    }

    /// Bonded IOs of the XC2000 east edge tile in row `r`.
    pub open spec fn xc2000_e_row(self, r: int) -> Seq<EdgeIoCoord> {
        if r == 0 {
            seq![edge_io(IoEdge::E, r, 0)]
        } else if r == self.sp_row_n() || r == self.sp_row_mid() - 1 {
            seq![edge_io(IoEdge::E, r, 1)]
        } else {
            io_run(IoEdge::E, r, 2, false)
        }
    }

    /// Bonded IOs of the XC2000 west edge tile in row `r`.
    pub open spec fn xc2000_w_row(self, r: int) -> Seq<EdgeIoCoord> {
        if r == 0 {
            seq![edge_io(IoEdge::W, r, 0)]
        } else if r == self.sp_row_n() || r == self.sp_row_mid() - 1 {
            seq![edge_io(IoEdge::W, r, 1)]
        } else {
            io_run(IoEdge::W, r, 2, true)
        }
    }

    /// North edge, west to east: the IOs of the `i`-th column.
    pub open spec fn bonded_n(self) -> spec_fn(int) -> Seq<EdgeIoCoord> {
        |c: int|
            if self.skips_corner(c, self.columns as nat) {
                Seq::empty()
            } else {
                io_run(IoEdge::N, c, self.iobs_per_tile(), self.ne_desc())
            }
    }

    /// East edge, north to south: the IOs of the `i`-th row from the top.
    pub open spec fn bonded_e(self) -> spec_fn(int) -> Seq<EdgeIoCoord> {
        |i: int|
            {
                let r = self.rows - 1 - i;
                if self.kind is Xc2000 {
                    self.xc2000_e_row(r)
                } else if self.skips_corner(r, self.rows as nat) {
                    Seq::empty()
                } else {
                    io_run(IoEdge::E, r, self.iobs_per_tile(), self.ne_desc())
                }
            }
    }

    /// South edge, east to west: the IOs of the `i`-th column from the east.
    pub open spec fn bonded_s(self) -> spec_fn(int) -> Seq<EdgeIoCoord> {
        |i: int|
            {
                let c = self.columns - 1 - i;
                if self.skips_corner(c, self.columns as nat) {
                    Seq::empty()
                } else {
                    io_run(IoEdge::S, c, self.iobs_per_tile(), !self.ne_desc())
                }
            }
    }

    /// West edge, south to north: the IOs of the `i`-th row.
    pub open spec fn bonded_w(self) -> spec_fn(int) -> Seq<EdgeIoCoord> {
        |r: int|
            if self.kind is Xc2000 {
                self.xc2000_w_row(r)
            } else if self.skips_corner(r, self.rows as nat) {
                Seq::empty()
            } else {
                io_run(IoEdge::W, r, self.iobs_per_tile(), !self.ne_desc())
            }
    }

    /// All bonded IOs in package order: the north edge west to east, the
    /// east edge north to south, the south edge east to west, the west edge
    /// south to north.
    pub open spec fn spec_bonded_ios(self) -> Seq<EdgeIoCoord> {
        concat_map(self.columns as nat, self.bonded_n()) + concat_map(self.rows as nat, self.bonded_e())
            + concat_map(self.columns as nat, self.bonded_s()) + concat_map(
            self.rows as nat,
            self.bonded_w(),
        )
    }

    /// The IOs of the north edge, west to east.
    fn bonded_ios_n(&self) -> (res: Vec<EdgeIoCoord>)
        ensures
            res@ == concat_map(self.columns as nat, self.bonded_n()),
    {
        let mut res: Vec<EdgeIoCoord> = Vec::new();
        let edge_slots = matches!(self.kind, ChipKind::Xc2000 | ChipKind::Xc3000 | ChipKind::Xc3000A);
        let k: usize = if matches!(self.kind, ChipKind::Xc4000H | ChipKind::Xc5200) { 4 } else { 2 };
        let ne_desc = matches!(self.kind, ChipKind::Xc5200);
        let ghost f = self.bonded_n();
        let mut i: usize = 0;
        while i < self.columns
            invariant
                i <= self.columns,
                f == self.bonded_n(),
                k == self.iobs_per_tile(),
                edge_slots == self.has_edge_io_slots(),
                ne_desc == self.ne_desc(),
                res@ == concat_map(i as nat, f),
            decreases self.columns - i,
        {
            let ghost prev = res@;
            if edge_slots || (i != 0 && i != self.columns - 1) {
                push_io_run(&mut res, IoEdge::N, i, k, ne_desc);
            }
            assert(concat_map((i + 1) as nat, f) == concat_map(i as nat, f) + f(i as int));
            assert(res@ =~= prev + f(i as int));
            i = i + 1;
        }
        res
    }

    /// The IOs of the east edge, north to south.
    fn bonded_ios_e(&self) -> (res: Vec<EdgeIoCoord>)
        ensures
            res@ == concat_map(self.rows as nat, self.bonded_e()),
    {
        let mut res: Vec<EdgeIoCoord> = Vec::new();
        let edge_slots = matches!(self.kind, ChipKind::Xc2000 | ChipKind::Xc3000 | ChipKind::Xc3000A);
        let xc2000 = matches!(self.kind, ChipKind::Xc2000);
        let k: usize = if matches!(self.kind, ChipKind::Xc4000H | ChipKind::Xc5200) { 4 } else { 2 };
        let ne_desc = matches!(self.kind, ChipKind::Xc5200);
        let ghost f = self.bonded_e();
        let mut i: usize = 0;
        while i < self.rows
            invariant
                i <= self.rows,
                f == self.bonded_e(),
                k == self.iobs_per_tile(),
                edge_slots == self.has_edge_io_slots(),
                xc2000 == (self.kind is Xc2000),
                ne_desc == self.ne_desc(),
                res@ == concat_map(i as nat, f),
            decreases self.rows - i,
        {
            let ghost prev = res@;
            let r = self.rows - 1 - i;
            if xc2000 {
                if r == 0 {
                    res.push(mk_edge_io(IoEdge::E, r, 0));
                } else if r == self.rows - 1 || r == self.rows / 2 - 1 {
                    res.push(mk_edge_io(IoEdge::E, r, 1));
                } else {
                    push_io_run(&mut res, IoEdge::E, r, 2, false);
                }
            } else if edge_slots || (r != 0 && r != self.rows - 1) {
                push_io_run(&mut res, IoEdge::E, r, k, ne_desc);
            }
            assert(concat_map((i + 1) as nat, f) == concat_map(i as nat, f) + f(i as int));
            assert(res@ =~= prev + f(i as int));
            i = i + 1;
        }
        res
    }

    /// The IOs of the south edge, east to west.
    fn bonded_ios_s(&self) -> (res: Vec<EdgeIoCoord>)
        ensures
            res@ == concat_map(self.columns as nat, self.bonded_s()),
    {
        let mut res: Vec<EdgeIoCoord> = Vec::new();
        let edge_slots = matches!(self.kind, ChipKind::Xc2000 | ChipKind::Xc3000 | ChipKind::Xc3000A);
        let k: usize = if matches!(self.kind, ChipKind::Xc4000H | ChipKind::Xc5200) { 4 } else { 2 };
        let ne_desc = matches!(self.kind, ChipKind::Xc5200);
        let ghost f = self.bonded_s();
        let mut i: usize = 0;
        while i < self.columns
            invariant
                i <= self.columns,
                f == self.bonded_s(),
                k == self.iobs_per_tile(),
                edge_slots == self.has_edge_io_slots(),
                ne_desc == self.ne_desc(),
                res@ == concat_map(i as nat, f),
            decreases self.columns - i,
        {
            let ghost prev = res@;
            let c = self.columns - 1 - i;
            if edge_slots || (c != 0 && c != self.columns - 1) {
                push_io_run(&mut res, IoEdge::S, c, k, !ne_desc);
            }
            assert(concat_map((i + 1) as nat, f) == concat_map(i as nat, f) + f(i as int));
            assert(res@ =~= prev + f(i as int));
            i = i + 1;
        }
        res
    }

    /// The IOs of the west edge, south to north.
    fn bonded_ios_w(&self) -> (res: Vec<EdgeIoCoord>)
        ensures
            res@ == concat_map(self.rows as nat, self.bonded_w()),
    {
        let mut res: Vec<EdgeIoCoord> = Vec::new();
        let edge_slots = matches!(self.kind, ChipKind::Xc2000 | ChipKind::Xc3000 | ChipKind::Xc3000A);
        let xc2000 = matches!(self.kind, ChipKind::Xc2000);
        let k: usize = if matches!(self.kind, ChipKind::Xc4000H | ChipKind::Xc5200) { 4 } else { 2 };
        let ne_desc = matches!(self.kind, ChipKind::Xc5200);
        let ghost f = self.bonded_w();
        let mut i: usize = 0;
        while i < self.rows
            invariant
                i <= self.rows,
                f == self.bonded_w(),
                k == self.iobs_per_tile(),
                edge_slots == self.has_edge_io_slots(),
                xc2000 == (self.kind is Xc2000),
                ne_desc == self.ne_desc(),
                res@ == concat_map(i as nat, f),
            decreases self.rows - i,
        {
            let ghost prev = res@;
            let r = i;
            if xc2000 {
                if r == 0 {
                    res.push(mk_edge_io(IoEdge::W, r, 0));
                } else if r == self.rows - 1 || r == self.rows / 2 - 1 {
                    res.push(mk_edge_io(IoEdge::W, r, 1));
                } else {
                    push_io_run(&mut res, IoEdge::W, r, 2, true);
                }
            } else if edge_slots || (r != 0 && r != self.rows - 1) {
                push_io_run(&mut res, IoEdge::W, r, k, !ne_desc);
            }
            assert(concat_map((i + 1) as nat, f) == concat_map(i as nat, f) + f(i as int));
            assert(res@ =~= prev + f(i as int));
            i = i + 1;
        }
        res
    }

    /// The IOs of the north and east edges, in package order.
    pub(crate) fn bonded_ios_ne(&self) -> (res: Vec<EdgeIoCoord>)
        ensures
            res@ == concat_map(self.columns as nat, self.bonded_n()) + concat_map(self.rows as nat, self.bonded_e()),
    {
        let mut res = self.bonded_ios_n();
        let mut e = self.bonded_ios_e();
        res.append(&mut e);
        res
    }

    /// The IOs of the south and west edges, in package order.
    pub(crate) fn bonded_ios_sw(&self) -> (res: Vec<EdgeIoCoord>)
        ensures
            res@ == concat_map(self.columns as nat, self.bonded_s()) + concat_map(self.rows as nat, self.bonded_w()),
    {
        let mut res = self.bonded_ios_s();
        let mut w = self.bonded_ios_w();
        res.append(&mut w);
        res
    }

    /// All bonded IOs of the chip in package order.
    pub fn get_bonded_ios(&self) -> (res: Vec<EdgeIoCoord>)
        ensures
            res@ == self.spec_bonded_ios(),
    {
        let mut res = self.bonded_ios_ne();
        let mut sw = self.bonded_ios_sw();
        res.append(&mut sw);
        assert(res@ =~= self.spec_bonded_ios());
        res
    }
}

impl Chip {
    /// The edge IO lies within the grid.
    pub open spec fn io_in_grid(self, io: EdgeIoCoord) -> bool {
        match io {
            EdgeIoCoord::N(col, _) => col.0 < self.columns,
            EdgeIoCoord::S(col, _) => col.0 < self.columns,
            EdgeIoCoord::E(row, _) => row.0 < self.rows,
            EdgeIoCoord::W(row, _) => row.0 < self.rows,
        }
    }

    /// The edge IO stands in neither corner of its edge: its column lies
    /// strictly between the west and east columns (north and south edges),
    /// its row strictly between the south and north rows (east and west edges).
    pub open spec fn io_off_corner(self, io: EdgeIoCoord) -> bool {
        match io {
            EdgeIoCoord::N(col, _) => 0 < col.0 && col.0 < self.columns - 1,
            EdgeIoCoord::S(col, _) => 0 < col.0 && col.0 < self.columns - 1,
            EdgeIoCoord::E(row, _) => 0 < row.0 && row.0 < self.rows - 1,
            EdgeIoCoord::W(row, _) => 0 < row.0 && row.0 < self.rows - 1,
        }
    }
}

/// Every bonded IO lies within the grid and is one that the chip's family can
/// hold, so that it maps to its bel and back (see `lemma_io_loc_then_crd`).
/// On the XC4000 and XC5200 families, whose corner cells hold no IOs, no
/// bonded IO stands in a corner of its edge.
pub proof fn lemma_bonded_ios_valid(chip: Chip, i: int)
    requires
        chip.columns >= 2,
        chip.rows >= 2,
        0 <= i < chip.spec_bonded_ios().len(),
    ensures
        chip.io_valid(chip.spec_bonded_ios()[i]),
        chip.io_in_grid(chip.spec_bonded_ios()[i]),
        !chip.has_edge_io_slots() ==> chip.io_off_corner(chip.spec_bonded_ios()[i]),
{
    let a = concat_map(chip.columns as nat, chip.bonded_n());
    let b = concat_map(chip.rows as nat, chip.bonded_e());
    let c = concat_map(chip.columns as nat, chip.bonded_s());
    let d = concat_map(chip.rows as nat, chip.bonded_w());
    let all = chip.spec_bonded_ios();
    assert(all == a + b + c + d);
    if i < a.len() {
        lemma_concat_map_member(chip.columns as nat, chip.bonded_n(), i);
        let (k, j) = choose|k: int, j: int|
            0 <= k < chip.columns && 0 <= j < (chip.bonded_n())(k).len() && #[trigger] (
            chip.bonded_n())(k)[j] == a[i];
        assert(all[i] == a[i]);
    } else if i < a.len() + b.len() {
        lemma_concat_map_member(chip.rows as nat, chip.bonded_e(), i - a.len());
        let (k, j) = choose|k: int, j: int|
            0 <= k < chip.rows && 0 <= j < (chip.bonded_e())(k).len() && #[trigger] (
            chip.bonded_e())(k)[j] == b[i - a.len()];
        assert(all[i] == b[i - a.len()]);
    } else if i < a.len() + b.len() + c.len() {
        lemma_concat_map_member(chip.columns as nat, chip.bonded_s(), i - a.len() - b.len());
        let (k, j) = choose|k: int, j: int|
            0 <= k < chip.columns && 0 <= j < (chip.bonded_s())(k).len() && #[trigger] (
            chip.bonded_s())(k)[j] == c[i - a.len() - b.len()];
        assert(all[i] == c[i - a.len() - b.len()]);
    } else {
        lemma_concat_map_member(chip.rows as nat, chip.bonded_w(), i - a.len() - b.len() - c.len());
        let (k, j) = choose|k: int, j: int|
            0 <= k < chip.rows && 0 <= j < (chip.bonded_w())(k).len() && #[trigger] (
            chip.bonded_w())(k)[j] == d[i - a.len() - b.len() - c.len()];
        assert(all[i] == d[i - a.len() - b.len() - c.len()]);
    }
}

/// The edge of an edge IO.
pub open spec fn io_edge(io: EdgeIoCoord) -> IoEdge {
    match io {
        EdgeIoCoord::N(..) => IoEdge::N,
        EdgeIoCoord::E(..) => IoEdge::E,
        EdgeIoCoord::S(..) => IoEdge::S,
        EdgeIoCoord::W(..) => IoEdge::W,
    }
}

/// The column (north and south edges) or row (east and west edges) of an edge IO.
pub open spec fn io_pos(io: EdgeIoCoord) -> int {
    match io {
        EdgeIoCoord::N(c, _) => c.0 as int,
        EdgeIoCoord::E(r, _) => r.0 as int,
        EdgeIoCoord::S(c, _) => c.0 as int,
        EdgeIoCoord::W(r, _) => r.0 as int,
    }
}

proof fn lemma_io_run(edge: IoEdge, pos: int, k: nat, desc: bool)
    requires
        0 <= pos <= usize::MAX,
        k <= 4,
    ensures
        io_run(edge, pos, k, desc).no_duplicates(),
        forall|j: int|
            0 <= j < k ==> io_edge(#[trigger] io_run(edge, pos, k, desc)[j]) == edge && io_pos(
                io_run(edge, pos, k, desc)[j],
            ) == pos,
{
    let s = io_run(edge, pos, k, desc);
    assert forall|i: int, j: int| 0 <= i < s.len() && 0 <= j < s.len() && i != j implies s[i] != s[j] by {
        assert(io_iob(s[i]) != io_iob(s[j]));
    }
}

proof fn lemma_xc2000_row(edge: IoEdge, r: int, piece: Seq<EdgeIoCoord>, full: bool)
    requires
        0 <= r <= usize::MAX,
        piece == seq![edge_io(edge, r, 0)] || piece == seq![edge_io(edge, r, 1)] || piece == io_run(edge, r, 2, full),
    ensures
        piece.no_duplicates(),
        forall|j: int| 0 <= j < piece.len() ==> io_edge(#[trigger] piece[j]) == edge && io_pos(piece[j]) == r,
{
    lemma_io_run(edge, r, 2, full);
}

/// The key of an IO in the north-edge list: its column, or -1 off that edge.
pub open spec fn key_n() -> spec_fn(EdgeIoCoord) -> int {
    |io: EdgeIoCoord| if io_edge(io) is N { io_pos(io) } else { -1 }
}

/// The key of an IO in the east-edge list: its row counted from the top.
pub open spec fn key_e(rows: int) -> spec_fn(EdgeIoCoord) -> int {
    |io: EdgeIoCoord| if io_edge(io) is E { rows - 1 - io_pos(io) } else { -1 }
}

/// The key of an IO in the south-edge list: its column counted from the east.
pub open spec fn key_s(cols: int) -> spec_fn(EdgeIoCoord) -> int {
    |io: EdgeIoCoord| if io_edge(io) is S { cols - 1 - io_pos(io) } else { -1 }
}

/// The key of an IO in the west-edge list: its row.
pub open spec fn key_w() -> spec_fn(EdgeIoCoord) -> int {
    |io: EdgeIoCoord| if io_edge(io) is W { io_pos(io) } else { -1 }
}

/// The bonded IOs of a chip name each IO once, and they are a function of
/// the chip's family and size alone.
pub proof fn lemma_bonded_ios_distinct(chip: Chip)
    requires
        chip.columns >= 2,
        chip.rows >= 2,
    ensures
        chip.spec_bonded_ios().no_duplicates(),
        forall|other: Chip|
            other.kind == chip.kind && other.columns == chip.columns && other.rows == chip.rows
                ==> #[trigger] other.spec_bonded_ios() == chip.spec_bonded_ios(),
{
    let cols = chip.columns as int;
    let rows = chip.rows as int;
    let k = chip.iobs_per_tile();
    let fnn = chip.bonded_n();
    let fe = chip.bonded_e();
    let fs = chip.bonded_s();
    let fw = chip.bonded_w();
    assert forall|c: int| 0 <= c < cols implies (#[trigger] fnn(c)).no_duplicates() && forall|j: int|
        0 <= j < fnn(c).len() ==> key_n()(#[trigger] fnn(c)[j]) == c by {
        lemma_io_run(IoEdge::N, c, k, chip.ne_desc());
    }
    lemma_concat_map_keyed(chip.columns as nat, fnn, key_n());
    assert forall|i: int| 0 <= i < rows implies (#[trigger] fe(i)).no_duplicates() && forall|j: int|
        0 <= j < fe(i).len() ==> key_e(rows)(#[trigger] fe(i)[j]) == i by {
        let r = rows - 1 - i;
        if chip.kind is Xc2000 {
            lemma_xc2000_row(IoEdge::E, r, fe(i), false);
        } else {
            lemma_io_run(IoEdge::E, r, k, chip.ne_desc());
        }
    }
    lemma_concat_map_keyed(chip.rows as nat, fe, key_e(rows));
    assert forall|i: int| 0 <= i < cols implies (#[trigger] fs(i)).no_duplicates() && forall|j: int|
        0 <= j < fs(i).len() ==> key_s(cols)(#[trigger] fs(i)[j]) == i by {
        lemma_io_run(IoEdge::S, cols - 1 - i, k, !chip.ne_desc());
    }
    lemma_concat_map_keyed(chip.columns as nat, fs, key_s(cols));
    assert forall|r: int| 0 <= r < rows implies (#[trigger] fw(r)).no_duplicates() && forall|j: int|
        0 <= j < fw(r).len() ==> key_w()(#[trigger] fw(r)[j]) == r by {
        if chip.kind is Xc2000 {
            lemma_xc2000_row(IoEdge::W, r, fw(r), true);
        } else {
            lemma_io_run(IoEdge::W, r, k, !chip.ne_desc());
        }
    }
    lemma_concat_map_keyed(chip.rows as nat, fw, key_w());
    let a = concat_map(chip.columns as nat, fnn);
    let b = concat_map(chip.rows as nat, fe);
    let c = concat_map(chip.columns as nat, fs);
    let d = concat_map(chip.rows as nat, fw);
    assert forall|i: int, j: int| 0 <= i < a.len() && 0 <= j < b.len() implies a[i] != b[j] by {
        assert(0 <= key_n()(a[i]));
        assert(0 <= key_e(rows)(b[j]));
    }
    lemma_add_no_duplicates(a, b);
    assert forall|i: int, j: int| 0 <= i < (a + b).len() && 0 <= j < c.len() implies (a + b)[i] != c[j] by {
        assert(0 <= key_s(cols)(c[j]));
        if i < a.len() {
            assert(0 <= key_n()(a[i]));
        } else {
            assert((a + b)[i] == b[i - a.len()]);
            assert(0 <= key_e(rows)(b[i - a.len()]));
        }
    }
    lemma_add_no_duplicates(a + b, c);
    assert forall|i: int, j: int| 0 <= i < (a + b + c).len() && 0 <= j < d.len() implies (a + b + c)[i] != d[j] by {
        assert(0 <= key_w()(d[j]));
        if i < a.len() {
            assert((a + b + c)[i] == a[i]);
            assert(0 <= key_n()(a[i]));
        } else if i < a.len() + b.len() {
            assert((a + b + c)[i] == b[i - a.len()]);
            assert(0 <= key_e(rows)(b[i - a.len()]));
        } else {
            assert((a + b + c)[i] == c[i - a.len() - b.len()]);
            assert(0 <= key_s(cols)(c[i - a.len() - b.len()]));
        }
    }
    lemma_add_no_duplicates(a + b + c, d);
    assert forall|other: Chip|
        other.kind == chip.kind && other.columns == chip.columns && other.rows == chip.rows
            implies #[trigger] other.spec_bonded_ios() == chip.spec_bonded_ios() by {
        assert(other.bonded_n() =~= fnn);
        assert(other.bonded_e() =~= fe);
        assert(other.bonded_s() =~= fs);
        assert(other.bonded_w() =~= fw);
    }
}

impl Chip {
    /// The number of dedicated clock IOs of the family.
    pub open spec fn num_clock_io(self) -> nat {
        match self.kind {
            ChipKind::Xc2000 => 0,
            ChipKind::Xc3000 | ChipKind::Xc3000A => 2,
            ChipKind::Xc5200 => 4,
            _ => 8,
        }
    }

    /// The grid is large enough for the clock IO table of the family.
    pub open spec fn clock_io_fits(self) -> bool {
        match self.kind {
            ChipKind::Xc2000 => false,
            ChipKind::Xc3000 | ChipKind::Xc3000A => self.has_cells(),
            ChipKind::Xc5200 => self.columns >= 3 && self.rows >= 2,
            _ => self.columns >= 2 && self.rows >= 2,
        }
    }

    /// The bel of the `idx`-th dedicated clock IO.
    pub open spec fn spec_bel_clock_io(self, idx: int) -> BelCoord {
        let e = self.sp_col_e();
        let n = self.sp_row_n();
        match self.kind {
            ChipKind::Xc3000 | ChipKind::Xc3000A => if idx == 0 {
                spec_bel(0, n, BelSlot::IoW(0))
            } else {
                spec_bel(e, 0, BelSlot::IoE(0))
            },
            ChipKind::Xc5200 => if idx == 0 {
                spec_bel(0, n - 1, BelSlot::Io(1))
            } else if idx == 1 {
                spec_bel(1, 0, BelSlot::Io(2))
            } else if idx == 2 {
                spec_bel(e, 1, BelSlot::Io(1))
            } else {
                spec_bel(e - 2, n, BelSlot::Io(2))
            },
            ChipKind::Xc4000H => if idx == 0 {
                spec_bel(0, n - 1, BelSlot::Hio(0))
            } else if idx == 1 {
                spec_bel(0, 1, BelSlot::Hio(3))
            } else if idx == 2 {
                spec_bel(1, 0, BelSlot::Hio(0))
            } else if idx == 3 {
                spec_bel(e - 1, 0, BelSlot::Hio(3))
            } else if idx == 4 {
                spec_bel(e, 1, BelSlot::Hio(2))
            } else if idx == 5 {
                spec_bel(e, n - 1, BelSlot::Hio(0))
            } else if idx == 6 {
                spec_bel(e - 1, n, BelSlot::Hio(2))
            } else {
                spec_bel(1, n, BelSlot::Hio(0))
            },
            _ => if idx == 0 {
                spec_bel(0, n - 1, BelSlot::Io(0))
            } else if idx == 1 {
                spec_bel(0, 1, BelSlot::Io(1))
            } else if idx == 2 {
                spec_bel(1, 0, BelSlot::Io(0))
            } else if idx == 3 {
                spec_bel(e - 1, 0, BelSlot::Io(1))
            } else if idx == 4 {
                spec_bel(e, 1, BelSlot::Io(0))
            } else if idx == 5 {
                spec_bel(e, n - 1, BelSlot::Io(0))
            } else if idx == 6 {
                spec_bel(e - 1, n, BelSlot::Io(0))
            } else {
                spec_bel(1, n, BelSlot::Io(0))
            },
        }
    }

    /// The bel of the `idx`-th dedicated clock IO (the XC2000 has none).
    pub fn bel_clock_io(&self, idx: usize) -> (r: BelCoord)
        requires
            self.clock_io_fits(),
            idx < self.num_clock_io(),
        ensures
            r == self.spec_bel_clock_io(idx as int),
    {
        let w: usize = 0;
        let s: usize = 0;
        match self.kind {
            ChipKind::Xc3000 | ChipKind::Xc3000A => {
                let e = self.col_e().0;
                let n = self.row_n().0;
                if idx == 0 {
                    bel_at(w, n, BelSlot::IoW(0))
                } else {
                    bel_at(e, s, BelSlot::IoE(0))
                }
            },
            ChipKind::Xc5200 => {
                let e = self.col_e().0;
                let n = self.row_n().0;
                if idx == 0 {
                    bel_at(w, n - 1, BelSlot::Io(1))
                } else if idx == 1 {
                    bel_at(w + 1, s, BelSlot::Io(2))
                } else if idx == 2 {
                    bel_at(e, s + 1, BelSlot::Io(1))
                } else {
                    bel_at(e - 2, n, BelSlot::Io(2))
                }
            },
            ChipKind::Xc4000H => {
                let e = self.col_e().0;
                let n = self.row_n().0;
                if idx == 0 {
                    bel_at(w, n - 1, BelSlot::Hio(0))
                } else if idx == 1 {
                    bel_at(w, s + 1, BelSlot::Hio(3))
                } else if idx == 2 {
                    bel_at(w + 1, s, BelSlot::Hio(0))
                } else if idx == 3 {
                    bel_at(e - 1, s, BelSlot::Hio(3))
                } else if idx == 4 {
                    // skip one
                    bel_at(e, s + 1, BelSlot::Hio(2))
                } else if idx == 5 {
                    bel_at(e, n - 1, BelSlot::Hio(0))
                } else if idx == 6 {
                    // skip one
                    bel_at(e - 1, n, BelSlot::Hio(2))
                } else {
                    bel_at(w + 1, n, BelSlot::Hio(0))
                }
            },
            _ => {
                let e = self.col_e().0;
                let n = self.row_n().0;
                if idx == 0 {
                    bel_at(w, n - 1, BelSlot::Io(0))
                } else if idx == 1 {
                    bel_at(w, s + 1, BelSlot::Io(1))
                } else if idx == 2 {
                    bel_at(w + 1, s, BelSlot::Io(0))
                } else if idx == 3 {
                    bel_at(e - 1, s, BelSlot::Io(1))
                } else if idx == 4 {
                    // skip one
                    bel_at(e, s + 1, BelSlot::Io(0))
                } else if idx == 5 {
                    bel_at(e, n - 1, BelSlot::Io(0))
                } else if idx == 6 {
                    // skip one
                    bel_at(e - 1, n, BelSlot::Io(0))
                } else {
                    bel_at(w + 1, n, BelSlot::Io(0))
                }
            },
        }
    }

    /// The bel of the IO next to the given BUFF (global buffer) of the XC4000X.
    pub open spec fn spec_bel_buff_io(self, which: DirHV) -> BelCoord {
        let qs = self.sp_row_q(DirV::S);
        let qn = self.sp_row_q(DirV::N);
        let e = self.sp_col_e();
        match (which.h, which.v) {
            (DirH::W, DirV::S) => spec_bel(0, qs, BelSlot::Io(1)),
            (DirH::W, DirV::N) => spec_bel(0, qn - 1, BelSlot::Io(0)),
            (DirH::E, DirV::S) => if self.is_buff_large {
                spec_bel(e, qs + 1, BelSlot::Io(1))
            } else {
                spec_bel(e, qs, BelSlot::Io(1))
            },
            (DirH::E, DirV::N) => if self.is_buff_large {
                spec_bel(e, qn - 2, BelSlot::Io(0))
            } else {
                spec_bel(e, qn - 1, BelSlot::Io(0))
            },
        }
    }

    /// The IO bel that drives the BUFF in the given corner of an XC4000X.
    pub fn bel_buff_io(&self, which: DirHV) -> (r: BelCoord)
        requires
            self.kind.spec_is_xl(),
            3 * self.rows <= usize::MAX,
            which.h is E ==> self.columns >= 1,
            which.v is N ==> self.sp_row_q(DirV::N) >= 1,
            which.v is N && which.h is E && self.is_buff_large ==> self.sp_row_q(DirV::N) >= 2,
        ensures
            r == self.spec_bel_buff_io(which),
    {
        let w: usize = 0;
        match (which.h, which.v) {
            (DirH::W, DirV::S) => bel_at(w, self.row_q(DirV::S).0, BelSlot::Io(1)),
            (DirH::W, DirV::N) => bel_at(w, self.row_q(DirV::N).0 - 1, BelSlot::Io(0)),
            (DirH::E, DirV::S) => if self.is_buff_large {
                bel_at(self.col_e().0, self.row_q(DirV::S).0 + 1, BelSlot::Io(1))
            } else {
                bel_at(self.col_e().0, self.row_q(DirV::S).0, BelSlot::Io(1))
            },
            (DirH::E, DirV::N) => if self.is_buff_large {
                bel_at(self.col_e().0, self.row_q(DirV::N).0 - 2, BelSlot::Io(0))
            } else {
                bel_at(self.col_e().0, self.row_q(DirV::N).0 - 1, BelSlot::Io(0))
            },
        }
    }

    /// The height in bits of the main bit tile of a row, by family and by
    /// whether the row is the south edge, the north edge or an inner row.
    pub open spec fn spec_btile_height_main(self, row: int) -> usize {
        if row == 0 {
            match self.kind {
                ChipKind::Xc2000 => 12,
                ChipKind::Xc3000 | ChipKind::Xc3000A => 13,
                ChipKind::Xc4000 | ChipKind::Xc4000H | ChipKind::Xc4000E | ChipKind::SpartanXl => 13,
                ChipKind::Xc4000A => 10,
                ChipKind::Xc4000Ex | ChipKind::Xc4000Xla => 16,
                ChipKind::Xc4000Xv => 17,
                ChipKind::Xc5200 => 28,
            }
        } else if row == self.sp_row_n() {
            match self.kind {
                ChipKind::Xc2000 => 9,
                ChipKind::Xc3000 | ChipKind::Xc3000A => 10,
                ChipKind::Xc4000 | ChipKind::Xc4000H | ChipKind::Xc4000E | ChipKind::SpartanXl => 7,
                ChipKind::Xc4000A => 6,
                ChipKind::Xc4000Ex | ChipKind::Xc4000Xla => 8,
                ChipKind::Xc4000Xv => 9,
                ChipKind::Xc5200 => 28,
            }
        } else {
            match self.kind {
                ChipKind::Xc2000 => 8,
                ChipKind::Xc3000 | ChipKind::Xc3000A => 8,
                ChipKind::Xc4000 | ChipKind::Xc4000H | ChipKind::Xc4000E | ChipKind::SpartanXl => 10,
                ChipKind::Xc4000A => 10,
                ChipKind::Xc4000Ex | ChipKind::Xc4000Xla => 12,
                ChipKind::Xc4000Xv => 13,
                ChipKind::Xc5200 => 34,
            }
        }
    }

    /// The height in bits of the main bit tile of a row.
    pub fn btile_height_main(&self, row: RowId) -> (r: usize)
        requires
            self.rows >= 1,
        ensures
            r == self.spec_btile_height_main(row.0 as int),
    {
        if row.0 == self.row_s().0 {
            match self.kind {
                ChipKind::Xc2000 => 12,
                ChipKind::Xc3000 | ChipKind::Xc3000A => 13,
                ChipKind::Xc4000 | ChipKind::Xc4000H | ChipKind::Xc4000E | ChipKind::SpartanXl => 13,
                ChipKind::Xc4000A => 10,
                ChipKind::Xc4000Ex | ChipKind::Xc4000Xla => 16,
                ChipKind::Xc4000Xv => 17,
                ChipKind::Xc5200 => 28,
            }
        } else if row.0 == self.row_n().0 {
            match self.kind {
                ChipKind::Xc2000 => 9,
                ChipKind::Xc3000 | ChipKind::Xc3000A => 10,
                ChipKind::Xc4000 | ChipKind::Xc4000H | ChipKind::Xc4000E | ChipKind::SpartanXl => 7,
                ChipKind::Xc4000A => 6,
                ChipKind::Xc4000Ex | ChipKind::Xc4000Xla => 8,
                ChipKind::Xc4000Xv => 9,
                ChipKind::Xc5200 => 28,
            }
        } else {
            match self.kind {
                ChipKind::Xc2000 => 8,
                ChipKind::Xc3000 | ChipKind::Xc3000A => 8,
                ChipKind::Xc4000 | ChipKind::Xc4000H | ChipKind::Xc4000E | ChipKind::SpartanXl => 10,
                ChipKind::Xc4000A => 10,
                ChipKind::Xc4000Ex | ChipKind::Xc4000Xla => 12,
                ChipKind::Xc4000Xv => 13,
                ChipKind::Xc5200 => 34,
            }
        }
    }

    pub open spec fn spec_btile_height_clk(self) -> usize {
        match self.kind {
            ChipKind::Xc3000 | ChipKind::Xc3000A => 1,
            ChipKind::Xc4000 | ChipKind::Xc4000A | ChipKind::Xc4000H | ChipKind::Xc4000E => 1,
            ChipKind::Xc4000Ex | ChipKind::Xc4000Xla | ChipKind::Xc4000Xv | ChipKind::SpartanXl => 2,
            ChipKind::Xc5200 => 4,
            ChipKind::Xc2000 => 0,
        }
    }

    /// The height in bits of the clock row bit tile (the XC2000 has none).
    pub fn btile_height_clk(&self) -> (r: usize)
        requires
            !(self.kind is Xc2000),
        ensures
            r == self.spec_btile_height_clk(),
    {
        match self.kind {
            ChipKind::Xc3000 | ChipKind::Xc3000A => 1,
            ChipKind::Xc4000 | ChipKind::Xc4000A | ChipKind::Xc4000H | ChipKind::Xc4000E => 1,
            ChipKind::Xc4000Ex | ChipKind::Xc4000Xla | ChipKind::Xc4000Xv | ChipKind::SpartanXl => 2,
            ChipKind::Xc5200 => 4,
            ChipKind::Xc2000 => 0,
        }
    }

    pub open spec fn spec_btile_height_brk(self) -> usize {
        if self.kind is Xc2000 { 1 } else { 2 }
    }

    /// The height in bits of a break row bit tile.
    pub fn btile_height_brk(&self) -> (r: usize)
        ensures
            r == self.spec_btile_height_brk(),
    {
        if matches!(self.kind, ChipKind::Xc2000) { 1 } else { 2 }
    }

    /// The width in frames of the main bit tile of a column, by family and by
    /// whether the column is the west edge, the east edge or an inner column.
    pub open spec fn spec_btile_width_main(self, col: int) -> usize {
        if col == 0 {
            match self.kind {
                ChipKind::Xc2000 => 21,
                ChipKind::Xc3000 | ChipKind::Xc3000A => 29,
                ChipKind::Xc4000 | ChipKind::Xc4000H | ChipKind::Xc4000E | ChipKind::SpartanXl => 26,
                ChipKind::Xc4000A => 21,
                ChipKind::Xc4000Ex | ChipKind::Xc4000Xla | ChipKind::Xc4000Xv => 27,
                ChipKind::Xc5200 => 7,
            }
        } else if col == self.sp_col_e() {
            match self.kind {
                ChipKind::Xc2000 => 27,
                ChipKind::Xc3000 | ChipKind::Xc3000A => 36,
                ChipKind::Xc4000 | ChipKind::Xc4000H | ChipKind::Xc4000E | ChipKind::SpartanXl => 41,
                ChipKind::Xc4000A => 32,
                ChipKind::Xc4000Ex | ChipKind::Xc4000Xla | ChipKind::Xc4000Xv => 52,
                ChipKind::Xc5200 => 8,
            }
        } else {
            match self.kind {
                ChipKind::Xc2000 => 18,
                ChipKind::Xc3000 | ChipKind::Xc3000A => 22,
                ChipKind::Xc4000 | ChipKind::Xc4000H | ChipKind::Xc4000E | ChipKind::SpartanXl => 36,
                ChipKind::Xc4000A => 32,
                ChipKind::Xc4000Ex | ChipKind::Xc4000Xla | ChipKind::Xc4000Xv => 47,
                ChipKind::Xc5200 => 12,
            }
        }
    }

    /// The width in frames of the main bit tile of a column.
    pub fn btile_width_main(&self, col: ColId) -> (r: usize)
        requires
            self.columns >= 1,
        ensures
            r == self.spec_btile_width_main(col.0 as int),
    {
        if col.0 == self.col_w().0 {
            match self.kind {
                ChipKind::Xc2000 => 21,
                ChipKind::Xc3000 | ChipKind::Xc3000A => 29,
                ChipKind::Xc4000 | ChipKind::Xc4000H | ChipKind::Xc4000E | ChipKind::SpartanXl => 26,
                ChipKind::Xc4000A => 21,
                ChipKind::Xc4000Ex | ChipKind::Xc4000Xla | ChipKind::Xc4000Xv => 27,
                ChipKind::Xc5200 => 7,
            }
        } else if col.0 == self.col_e().0 {
            match self.kind {
                ChipKind::Xc2000 => 27,
                ChipKind::Xc3000 | ChipKind::Xc3000A => 36,
                ChipKind::Xc4000 | ChipKind::Xc4000H | ChipKind::Xc4000E | ChipKind::SpartanXl => 41,
                ChipKind::Xc4000A => 32,
                ChipKind::Xc4000Ex | ChipKind::Xc4000Xla | ChipKind::Xc4000Xv => 52,
                ChipKind::Xc5200 => 8,
            }
        } else {
            match self.kind {
                ChipKind::Xc2000 => 18,
                ChipKind::Xc3000 | ChipKind::Xc3000A => 22,
                ChipKind::Xc4000 | ChipKind::Xc4000H | ChipKind::Xc4000E | ChipKind::SpartanXl => 36,
                ChipKind::Xc4000A => 32,
                ChipKind::Xc4000Ex | ChipKind::Xc4000Xla | ChipKind::Xc4000Xv => 47,
                ChipKind::Xc5200 => 12,
            }
        }
    }

    pub open spec fn spec_btile_width_clk(self) -> usize {
        match self.kind {
            ChipKind::Xc4000 | ChipKind::Xc4000H | ChipKind::Xc4000A | ChipKind::Xc4000E => 1,
            ChipKind::Xc4000Ex | ChipKind::Xc4000Xla | ChipKind::Xc4000Xv | ChipKind::SpartanXl => 2,
            ChipKind::Xc5200 => 1,
            _ => 0,
        }
    }

    /// The width in frames of the clock column bit tile (the XC2000 and XC3000 have none).
    pub fn btile_width_clk(&self) -> (r: usize)
        requires
            !(self.kind is Xc2000),
            !self.kind.spec_is_xc3000(),
        ensures
            r == self.spec_btile_width_clk(),
    {
        match self.kind {
            ChipKind::Xc4000 | ChipKind::Xc4000H | ChipKind::Xc4000A | ChipKind::Xc4000E => 1,
            ChipKind::Xc4000Ex | ChipKind::Xc4000Xla | ChipKind::Xc4000Xv | ChipKind::SpartanXl => 2,
            ChipKind::Xc5200 => 1,
            _ => 0,
        }
    }

    pub open spec fn spec_btile_width_brk(self) -> usize {
        if self.kind is Xc2000 { 2 } else { 1 }
    }

    /// The width in frames of a break column bit tile.
    pub fn btile_width_brk(&self) -> (r: usize)
        ensures
            r == self.spec_btile_width_brk(),
    {
        if matches!(self.kind, ChipKind::Xc2000) { 2 } else { 1 }
    }

    /// The `idx`-th global buffer of the XC4000 families.
    pub open spec fn spec_bel_bufg(self, idx: int) -> BelCoord {
        let e = self.sp_col_e();
        let n = self.sp_row_n();
        if idx == 0 {
            spec_bel(0, n, BelSlot::BufgV)
        } else if idx == 1 {
            spec_bel(0, 0, BelSlot::BufgV)
        } else if idx == 2 {
            spec_bel(0, 0, BelSlot::BufgH)
        } else if idx == 3 {
            spec_bel(e, 0, BelSlot::BufgH)
        } else if idx == 4 {
            spec_bel(e, 0, BelSlot::BufgV)
        } else if idx == 5 {
            spec_bel(e, n, BelSlot::BufgV)
        } else if idx == 6 {
            spec_bel(e, n, BelSlot::BufgH)
        } else {
            spec_bel(0, n, BelSlot::BufgH)
        }
    }

    /// The `idx`-th global buffer of the XC4000 families.
    pub fn bel_bufg(&self, idx: usize) -> (r: BelCoord)
        requires
            self.kind.spec_is_xc4000(),
            self.has_cells(),
            idx < 8,
        ensures
            r == self.spec_bel_bufg(idx as int),
    {
        let w = self.col_w().0;
        let e = self.col_e().0;
        let s = self.row_s().0;
        let n = self.row_n().0;
        let (col, row, slot) = if idx == 0 {
            (w, n, BelSlot::BufgV)
        } else if idx == 1 {
            (w, s, BelSlot::BufgV)
        } else if idx == 2 {
            (w, s, BelSlot::BufgH)
        } else if idx == 3 {
            (e, s, BelSlot::BufgH)
        } else if idx == 4 {
            (e, s, BelSlot::BufgV)
        } else if idx == 5 {
            (e, n, BelSlot::BufgV)
        } else if idx == 6 {
            (e, n, BelSlot::BufgH)
        } else {
            (w, n, BelSlot::BufgH)
        };
        bel_at(col, row, slot)
    }
}

/// The tile classes of the XC4000 edge IO tiles.
#[derive(Clone, Copy, Debug, PartialEq, Eq, Structural, Hash)]
pub enum IoTileClass {
    IoS0,
    IoS1,
    IoS1W,
    IoS0E,
    IoN0,
    IoN1,
    IoN1W,
    IoN0E,
    IoW0,
    IoW1,
    IoW1S,
    IoW0N,
    IoW0F0,
    IoW1F0,
    IoW0F1,
    IoW1F1,
    IoE0,
    IoE1,
    IoE1S,
    IoE0N,
    IoE0F0,
    IoE1F0,
    IoE0F1,
    IoE1F1,
}

impl Chip {
    /// The tile class of the south edge IO tile in a column.
    pub open spec fn spec_tcls_io_s(self, col: int) -> IoTileClass {
        if col == 1 {
            IoTileClass::IoS1W
        } else if col == self.sp_col_e() - 1 {
            IoTileClass::IoS0E
        } else if col % 2 == 0 {
            IoTileClass::IoS0
        } else {
            IoTileClass::IoS1
        }
    }

    /// The tile class of the north edge IO tile in a column.
    pub open spec fn spec_tcls_io_n(self, col: int) -> IoTileClass {
        if col == 1 {
            IoTileClass::IoN1W
        } else if col == self.sp_col_e() - 1 {
            IoTileClass::IoN0E
        } else if col % 2 == 0 {
            IoTileClass::IoN0
        } else {
            IoTileClass::IoN1
        }
    }

    /// The tile class of the west edge IO tile in a row.
    pub open spec fn spec_tcls_io_w(self, row: int) -> IoTileClass {
        if row == 1 {
            IoTileClass::IoW1S
        } else if row == self.sp_row_n() - 1 {
            IoTileClass::IoW0N
        } else if self.kind.spec_is_xl() && row == self.sp_row_q(DirV::S) {
            if row % 2 == 0 { IoTileClass::IoW0F1 } else { IoTileClass::IoW1F1 }
        } else if self.kind.spec_is_xl() && row == self.sp_row_q(DirV::N) - 1 {
            if row % 2 == 0 { IoTileClass::IoW0F0 } else { IoTileClass::IoW1F0 }
        } else if row % 2 == 0 {
            IoTileClass::IoW0
        } else {
            IoTileClass::IoW1
        }
    }

    /// The row of the SE buffer IO: one row higher on chips with large buffers.
    pub open spec fn sp_buff_row_se(self) -> int {
        if self.is_buff_large { self.sp_row_q(DirV::S) + 1 } else { self.sp_row_q(DirV::S) }
    }

    /// The row of the NE buffer IO: one row lower on chips with large buffers.
    pub open spec fn sp_buff_row_ne(self) -> int {
        if self.is_buff_large { self.sp_row_q(DirV::N) - 2 } else { self.sp_row_q(DirV::N) - 1 }
    }

    /// The tile class of the east edge IO tile in a row.
    pub open spec fn spec_tcls_io_e(self, row: int) -> IoTileClass {
        if row == 1 {
            IoTileClass::IoE1S
        } else if row == self.sp_row_n() - 1 {
            IoTileClass::IoE0N
        } else if self.kind.spec_is_xl() && row == self.sp_buff_row_se() {
            if row % 2 == 0 { IoTileClass::IoE0F1 } else { IoTileClass::IoE1F1 }
        } else if self.kind.spec_is_xl() && row == self.sp_buff_row_ne() {
            if row % 2 == 0 { IoTileClass::IoE0F0 } else { IoTileClass::IoE1F0 }
        } else if row % 2 == 0 {
            IoTileClass::IoE0
        } else {
            IoTileClass::IoE1
        }
    }

    /// The tile class of the south edge IO tile in a column of an XC4000 chip.
    pub fn get_tcls_io_s(&self, col: ColId) -> (r: IoTileClass)
        requires
            self.kind.spec_is_xc4000(),
            self.columns >= 2,
        ensures
            r == self.spec_tcls_io_s(col.0 as int),
    {
        if col.0 == self.col_w().0 + 1 {
            IoTileClass::IoS1W
        } else if col.0 == self.col_e().0 - 1 {
            IoTileClass::IoS0E
        } else if col.0 % 2 == 0 {
            IoTileClass::IoS0
        } else {
            IoTileClass::IoS1
        }
    }

    /// The tile class of the north edge IO tile in a column of an XC4000 chip.
    pub fn get_tcls_io_n(&self, col: ColId) -> (r: IoTileClass)
        requires
            self.kind.spec_is_xc4000(),
            self.columns >= 2,
        ensures
            r == self.spec_tcls_io_n(col.0 as int),
    {
        if col.0 == self.col_w().0 + 1 {
            IoTileClass::IoN1W
        } else if col.0 == self.col_e().0 - 1 {
            IoTileClass::IoN0E
        } else if col.0 % 2 == 0 {
            IoTileClass::IoN0
        } else {
            IoTileClass::IoN1
        }
    }

    /// The tile class of the west edge IO tile in a row of an XC4000 chip.
    pub fn get_tcls_io_w(&self, row: RowId) -> (r: IoTileClass)
        requires
            self.kind.spec_is_xc4000(),
            self.rows >= 2,
            3 * self.rows <= usize::MAX,
            self.kind.spec_is_xl() ==> self.sp_row_q(DirV::N) >= 1,
        ensures
            r == self.spec_tcls_io_w(row.0 as int),
    {
        let r = row.0;
        if r == self.row_s().0 + 1 {
            IoTileClass::IoW1S
        } else if r == self.row_n().0 - 1 {
            IoTileClass::IoW0N
        } else if self.kind.is_xl() && r == self.bel_buff_io(DirHV { h: DirH::W, v: DirV::S }).row.0 {
            if r % 2 == 0 { IoTileClass::IoW0F1 } else { IoTileClass::IoW1F1 }
        } else if self.kind.is_xl() && r == self.bel_buff_io(DirHV { h: DirH::W, v: DirV::N }).row.0 {
            if r % 2 == 0 { IoTileClass::IoW0F0 } else { IoTileClass::IoW1F0 }
        } else if r % 2 == 0 {
            IoTileClass::IoW0
        } else {
            IoTileClass::IoW1
        }
    }

    /// The tile class of the east edge IO tile in a row of an XC4000 chip.
    pub fn get_tcls_io_e(&self, row: RowId) -> (r: IoTileClass)
        requires
            self.kind.spec_is_xc4000(),
            self.rows >= 2,
            self.columns >= 1,
            3 * self.rows <= usize::MAX,
            self.kind.spec_is_xl() ==> self.sp_row_q(DirV::N) >= 1,
            self.kind.spec_is_xl() && self.is_buff_large ==> self.sp_row_q(DirV::N) >= 2,
        ensures
            r == self.spec_tcls_io_e(row.0 as int),
    {
        let r = row.0;
        if r == self.row_s().0 + 1 {
            IoTileClass::IoE1S
        } else if r == self.row_n().0 - 1 {
            IoTileClass::IoE0N
        } else if self.kind.is_xl() && r == self.bel_buff_io(DirHV { h: DirH::E, v: DirV::S }).row.0 {
            if r % 2 == 0 { IoTileClass::IoE0F1 } else { IoTileClass::IoE1F1 }
        } else if self.kind.is_xl() && r == self.bel_buff_io(DirHV { h: DirH::E, v: DirV::N }).row.0 {
            if r % 2 == 0 { IoTileClass::IoE0F0 } else { IoTileClass::IoE1F0 }
        } else if r % 2 == 0 {
            IoTileClass::IoE0
        } else {
            IoTileClass::IoE1
        }
    }
}

/// The printed name of a `SharedCfgPad`.
pub open spec fn shared_cfg_pad_name(p: SharedCfgPad) -> Seq<char> {
    match p {
        SharedCfgPad::Addr(i) => "A"@ + decimal(i as nat),
        SharedCfgPad::Data(i) => "D"@ + decimal(i as nat),
        SharedCfgPad::Ldc => "LDC"@,
        SharedCfgPad::Hdc => "HDC"@,
        SharedCfgPad::RclkB => "RCLK_B"@,
        SharedCfgPad::Dout => "DOUT"@,
        SharedCfgPad::M2 => "M2"@,
        SharedCfgPad::InitB => "INIT_B"@,
        SharedCfgPad::Cs0B => "CS0_B"@,
        SharedCfgPad::Cs1B => "CS1_B"@,
        SharedCfgPad::Tck => "TCK"@,
        SharedCfgPad::Tdi => "TDI"@,
        SharedCfgPad::Tms => "TMS"@,
        SharedCfgPad::Tdo => "TDO"@,
        SharedCfgPad::M0 => "M0"@,
        SharedCfgPad::M1 => "M1"@,
    }
}

/// Appends the printed name of a `SharedCfgPad`.
pub fn push_shared_cfg_pad_name(s: &mut String, p: SharedCfgPad)
    ensures
        final(s)@ == old(s)@ + shared_cfg_pad_name(p),
{
    match p {
        SharedCfgPad::Addr(i) => {
            s.append("A");
            push_decimal(s, i as u64);
        },
        SharedCfgPad::Data(i) => {
            s.append("D");
            push_decimal(s, i as u64);
        },
        SharedCfgPad::Ldc => {
            s.append("LDC");
        },
        SharedCfgPad::Hdc => {
            s.append("HDC");
        },
        SharedCfgPad::RclkB => {
            s.append("RCLK_B");
        },
        SharedCfgPad::Dout => {
            s.append("DOUT");
        },
        SharedCfgPad::M2 => {
            s.append("M2");
        },
        SharedCfgPad::InitB => {
            s.append("INIT_B");
        },
        SharedCfgPad::Cs0B => {
            s.append("CS0_B");
        },
        SharedCfgPad::Cs1B => {
            s.append("CS1_B");
        },
        SharedCfgPad::Tck => {
            s.append("TCK");
        },
        SharedCfgPad::Tdi => {
            s.append("TDI");
        },
        SharedCfgPad::Tms => {
            s.append("TMS");
        },
        SharedCfgPad::Tdo => {
            s.append("TDO");
        },
        SharedCfgPad::M0 => {
            s.append("M0");
        },
        SharedCfgPad::M1 => {
            s.append("M1");
        },
    }
    assert(s@ =~= old(s)@ + shared_cfg_pad_name(p));
}

impl SharedCfgPad {
    /// The printed name.
    pub fn to_string(&self) -> (r: String)
        ensures
            r@ == shared_cfg_pad_name(*self),
    {
        let mut s = String::new();
        push_shared_cfg_pad_name(&mut s, *self);
        s
    }
}

/// The printed name of a `ChipKind`.
pub open spec fn chip_kind_name(p: ChipKind) -> Seq<char> {
    match p {
        ChipKind::Xc2000 => "xc2000"@,
        ChipKind::Xc3000 => "xc3000"@,
        ChipKind::Xc3000A => "xc3000a"@,
        ChipKind::Xc4000 => "xc4000"@,
        ChipKind::Xc4000A => "xc4000a"@,
        ChipKind::Xc4000H => "xc4000h"@,
        ChipKind::Xc4000E => "xc4000e"@,
        ChipKind::Xc4000Ex => "xc4000ex"@,
        ChipKind::Xc4000Xla => "xc4000xla"@,
        ChipKind::Xc4000Xv => "xc4000xv"@,
        ChipKind::SpartanXl => "spartanxl"@,
        ChipKind::Xc5200 => "xc5200"@,
    }
}

/// Appends the printed name of a `ChipKind`.
pub fn push_chip_kind_name(s: &mut String, p: ChipKind)
    ensures
        final(s)@ == old(s)@ + chip_kind_name(p),
{
    match p {
        ChipKind::Xc2000 => {
            s.append("xc2000");
        },
        ChipKind::Xc3000 => {
            s.append("xc3000");
        },
        ChipKind::Xc3000A => {
            s.append("xc3000a");
        },
        ChipKind::Xc4000 => {
            s.append("xc4000");
        },
        ChipKind::Xc4000A => {
            s.append("xc4000a");
        },
        ChipKind::Xc4000H => {
            s.append("xc4000h");
        },
        ChipKind::Xc4000E => {
            s.append("xc4000e");
        },
        ChipKind::Xc4000Ex => {
            s.append("xc4000ex");
        },
        ChipKind::Xc4000Xla => {
            s.append("xc4000xla");
        },
        ChipKind::Xc4000Xv => {
            s.append("xc4000xv");
        },
        ChipKind::SpartanXl => {
            s.append("spartanxl");
        },
        ChipKind::Xc5200 => {
            s.append("xc5200");
        },
    }
    assert(s@ =~= old(s)@ + chip_kind_name(p));
}

impl ChipKind {
    /// The printed name.
    pub fn to_string(&self) -> (r: String)
        ensures
            r@ == chip_kind_name(*self),
    {
        let mut s = String::new();
        push_chip_kind_name(&mut s, *self);
        s
    }
}


} // verus!
