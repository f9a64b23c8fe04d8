//! Chip geometry of the Virtex 4 .. Virtex 7 families.  A chip is a grid of
//! columns of given kinds, cut into clock regions of a fixed number of rows.
use vstd::prelude::*;
use vstd::string::*;
use crate::grid::{ColId, DieId, DirH, RowId, row_name, push_row_name};
use crate::text::{decimal, push_decimal};

verus! {

/// A clock region, counted from the south edge.
#[derive(Clone, Copy, Debug, PartialEq, Eq, Structural, Hash, PartialOrd, Ord)]
pub struct RegId(pub usize);

/// The family of a Virtex-style chip.
#[derive(Clone, Copy, Debug, PartialEq, Eq, Structural, Hash)]
pub enum ChipKind {
    Virtex4,
    Virtex5,
    Virtex6,
    Virtex7,
}

/// The kind of a column.
#[derive(Clone, Copy, Debug, PartialEq, Eq, Structural, Hash)]
pub enum ColumnKind {
    ClbLL,
    ClbLM,
    Bram,
    Dsp,
    Io,
    Cfg,
    Gt,
    Cmt,
    Clk,
}

/// The kind of a special row of the configuration column.
#[derive(Clone, Copy, Debug, PartialEq, Eq, Structural, Hash)]
pub enum CfgRowKind {
    Dcm,
    Ccm,
    Sysmon,
}

/// The kind of a transceiver.
#[derive(Clone, Copy, Debug, PartialEq, Eq, Structural, Hash)]
pub enum GtKind {
    Gtp,
    Gtx,
    Gth,
}

/// The kind of an IO bank.
#[derive(Clone, Copy, Debug, PartialEq, Eq, Structural, Hash)]
pub enum IoKind {
    Hpio,
    Hrio,
}

/// An IO column and the kind of the IO bank in each region (if any).
#[derive(Clone, Debug)]
pub struct IoColumn {
    pub col: ColId,
    pub regs: Vec<Option<IoKind>>,
}

/// A transceiver column and the kind of the transceiver in each region (if any).
#[derive(Clone, Debug)]
pub struct GtColumn {
    pub col: ColId,
    pub is_middle: bool,
    pub regs: Vec<Option<GtKind>>,
}

/// The hard block column of the Virtex 5: its EMAC and PCIE rows.
#[derive(Clone, Debug)]
pub struct HardColumn {
    pub col: ColId,
    pub rows_emac: Vec<RowId>,
    pub rows_pcie: Vec<RowId>,
}

/// A PCIE2 block of the Virtex 7.
#[derive(Clone, Copy, Debug, PartialEq, Eq, Structural, Hash)]
pub struct Pcie2 {
    pub side: DirH,
    pub col: ColId,
    pub row: RowId,
}

/// A part of the die that a device disables.
#[derive(Clone, Copy, Debug, PartialEq, Eq, Structural, Hash)]
pub enum DisabledPart {
    Emac(RowId),
    GtxRow(RegId),
    SysMon,
    Gtp,
}

/// The interposer of a multi-die (SSI) device.
#[derive(Clone, Copy, Debug, PartialEq, Eq, Structural, Hash)]
pub struct Interposer {
    pub primary: DieId,
    pub gtz_bot: bool,
    pub gtz_top: bool,
}

/// Which IO columns hold the XADC auxiliary analog inputs.
#[derive(Clone, Copy, Debug, PartialEq, Eq, Structural, Hash)]
pub enum XadcIoLoc {
    W,
    E,
    Both,
}

/// The geometry of one die.  Column `i` has kind `columns[i]`; the die has
/// `regs` clock regions of `rows_per_reg()` rows each.
#[derive(Clone, Debug)]
pub struct Chip {
    pub kind: ChipKind,
    pub columns: Vec<ColumnKind>,
    pub cols_vbrk: Vec<ColId>,
    pub cols_mgt_buf: Vec<ColId>,
    pub cols_qbuf: Option<(ColId, ColId)>,
    pub col_hard: Option<HardColumn>,
    pub cols_io: Vec<IoColumn>,
    pub cols_gt: Vec<GtColumn>,
    pub regs: usize,
    pub reg_cfg: RegId,
    pub reg_clk: RegId,
    pub rows_cfg: Vec<(RowId, CfgRowKind)>,
    pub holes_ppc: Vec<(ColId, RowId)>,
    pub holes_pcie2: Vec<Pcie2>,
    pub holes_pcie3: Vec<(ColId, RowId)>,
    pub has_bram_fx: bool,
    pub has_ps: bool,
    pub has_slr: bool,
    pub has_no_tbuturn: bool,
}

/// The number of rows in a clock region of the family.
pub open spec fn spec_rows_per_reg(kind: ChipKind) -> nat {
    match kind {
        ChipKind::Virtex4 => 16,
        ChipKind::Virtex5 => 20,
        ChipKind::Virtex6 => 40,
        ChipKind::Virtex7 => 50,
    }
}

impl Chip {
    pub open spec fn sp_rpr(self) -> nat {
        spec_rows_per_reg(self.kind)
    }

    /// The region that holds a row.
    pub open spec fn sp_row_to_reg(self, row: int) -> int {
        row / (self.sp_rpr() as int)
    }

    /// The bottom row of a region.
    pub open spec fn sp_row_reg_bot(self, reg: int) -> int {
        reg * self.sp_rpr()
    }

    /// The row of the horizontal clock spine of a region: its middle row.
    pub open spec fn sp_row_reg_hclk(self, reg: int) -> int {
        self.sp_row_reg_bot(reg) + self.sp_rpr() / 2
    }

    /// The number of rows of the die.
    pub open spec fn sp_rows(self) -> int {
        self.regs * self.sp_rpr()
    }

    /// The number of rows in a clock region.
    pub fn rows_per_reg(&self) -> (r: usize)
        ensures
            r == self.sp_rpr(),
    {
        match self.kind {
            ChipKind::Virtex4 => 16,
            ChipKind::Virtex5 => 20,
            ChipKind::Virtex6 => 40,
            ChipKind::Virtex7 => 50,
        }
    }

    /// The region that holds a row.
    pub fn row_to_reg(&self, row: RowId) -> (r: RegId)
        ensures
            r.0 == self.sp_row_to_reg(row.0 as int),
    {
        RegId(row.0 / self.rows_per_reg())
    }

    /// The bottom row of a region.
    pub fn row_reg_bot(&self, reg: RegId) -> (r: RowId)
        requires
            reg.0 * self.sp_rpr() <= usize::MAX,
        ensures
            r.0 == self.sp_row_reg_bot(reg.0 as int),
    {
        RowId(reg.0 * self.rows_per_reg())
    }

    /// The row of the horizontal clock spine of a region.
    pub fn row_reg_hclk(&self, reg: RegId) -> (r: RowId)
        requires
            reg.0 * self.sp_rpr() + self.sp_rpr() / 2 <= usize::MAX,
        ensures
            r.0 == self.sp_row_reg_hclk(reg.0 as int),
    {
        RowId(self.row_reg_bot(reg).0 + self.rows_per_reg() / 2)
    }

    /// The row of the horizontal clock spine of the region that holds a row.
    pub fn row_hclk(&self, row: RowId) -> (r: RowId)
        requires
            row.0 + self.sp_rpr() <= usize::MAX,
        ensures
            r.0 == self.sp_row_reg_hclk(self.sp_row_to_reg(row.0 as int)),
    {
        let reg = self.row_to_reg(row);
        let rpr = self.rows_per_reg();
        proof {
            vstd::arithmetic::div_mod::lemma_fundamental_div_mod(row.0 as int, rpr as int);
            vstd::arithmetic::div_mod::lemma_mod_bound(row.0 as int, rpr as int);
            assert(reg.0 * rpr == rpr * (row.0 as int / rpr as int)) by (nonlinear_arith)
                requires
                    reg.0 == row.0 as int / rpr as int,
            ;
        }
        self.row_reg_hclk(reg)
    }

    /// All regions, south to north.
    pub fn regs(&self) -> (r: Vec<RegId>)
        ensures
            r@.len() == self.regs,
            forall|i: int| 0 <= i < self.regs ==> #[trigger] r@[i] == RegId(i as usize),
    {
        let mut r: Vec<RegId> = Vec::new();
        let mut i: usize = 0;
        while i < self.regs
            invariant
                i <= self.regs,
                r@.len() == i,
                forall|k: int| 0 <= k < i ==> #[trigger] r@[k] == RegId(k as usize),
            decreases self.regs - i,
        {
            r.push(RegId(i));
            i = i + 1;
        }
        r
    }

    /// The row of the global clock buffers: the bottom row of the clock region.
    pub fn row_bufg(&self) -> (r: RowId)
        requires
            self.reg_clk.0 * self.sp_rpr() <= usize::MAX,
        ensures
            r.0 == self.sp_row_reg_bot(self.reg_clk.0 as int),
    {
        self.row_reg_bot(self.reg_clk)
    }

    /// The first IO column description for a column, if the column is an IO column.
    pub fn get_col_io(&self, col: ColId) -> (r: Option<&IoColumn>)
        ensures
            match r {
                Some(ioc) => exists|i: int|
                    0 <= i < self.cols_io@.len() && *ioc == self.cols_io@[i] && ioc.col == col
                        && forall|j: int| 0 <= j < i ==> (#[trigger] self.cols_io@[j]).col != col,
                None => forall|i: int| 0 <= i < self.cols_io@.len() ==> (#[trigger] self.cols_io@[i]).col != col,
            },
    {
        let mut i: usize = 0;
        while i < self.cols_io.len()
            invariant
                i <= self.cols_io@.len(),
                forall|j: int| 0 <= j < i ==> (#[trigger] self.cols_io@[j]).col != col,
            decreases self.cols_io.len() - i,
        {
            if self.cols_io[i].col.0 == col.0 {
                return Some(&self.cols_io[i]);
            }
            i = i + 1;
        }
        None
    }

    /// The first transceiver column description for a column, if the column has transceivers.
    pub fn get_col_gt(&self, col: ColId) -> (r: Option<&GtColumn>)
        ensures
            match r {
                Some(gtc) => exists|i: int|
                    0 <= i < self.cols_gt@.len() && *gtc == self.cols_gt@[i] && gtc.col == col
                        && forall|j: int| 0 <= j < i ==> (#[trigger] self.cols_gt@[j]).col != col,
                None => forall|i: int| 0 <= i < self.cols_gt@.len() ==> (#[trigger] self.cols_gt@[i]).col != col,
            },
    {
        let mut i: usize = 0;
        while i < self.cols_gt.len()
            invariant
                i <= self.cols_gt@.len(),
                forall|j: int| 0 <= j < i ==> (#[trigger] self.cols_gt@[j]).col != col,
            decreases self.cols_gt.len() - i,
        {
            if self.cols_gt[i].col.0 == col.0 {
                return Some(&self.cols_gt[i]);
            }
            i = i + 1;
        }
        None
    }

    /// The column of the processing system of a Zynq chip.
    pub fn col_ps(&self) -> (r: ColId)
        requires
            self.has_ps,
        ensures
            r == ColId(18),
    {
        ColId(18)
    }

    /// All rows, south to north.
    pub fn rows(&self) -> (r: Vec<RowId>)
        requires
            self.regs * self.sp_rpr() <= usize::MAX,
        ensures
            r@.len() == self.sp_rows(),
            forall|i: int| 0 <= i < self.sp_rows() ==> #[trigger] r@[i] == RowId(i as usize),
    {
        let n = self.regs * self.rows_per_reg();
        let mut r: Vec<RowId> = Vec::new();
        let mut i: usize = 0;
        while i < n
            invariant
                i <= n,
                r@.len() == i,
                forall|k: int| 0 <= k < i ==> #[trigger] r@[k] == RowId(k as usize),
            decreases n - i,
        {
            r.push(RowId(i));
            i = i + 1;
        }
        r
    }

    /// On the Virtex 7 an interconnect column pairs with its neighbour: even
    /// columns face west, odd columns face east.
    pub fn col_side(&self, col: ColId) -> (r: DirH)
        requires
            self.kind is Virtex7,
        ensures
            r == (if col.0 % 2 == 0 { DirH::W } else { DirH::E }),
    {
        if col.0 % 2 == 0 {
            DirH::W
        } else {
            DirH::E
        }
    }

    /// Which IO columns hold the XADC auxiliary inputs of a Virtex 7 chip.
    pub open spec fn spec_xadc_io_loc(self) -> XadcIoLoc {
        if self.has_ps {
            XadcIoLoc::E
        } else if self.cols_io@.len() == 1 || self.cols_io@[1].regs@[self.reg_cfg.0 as int] is None {
            XadcIoLoc::W
        } else {
            XadcIoLoc::Both
        }
    }

    /// Which IO columns hold the XADC auxiliary inputs of a Virtex 7 chip.
    pub fn get_xadc_io_loc(&self) -> (r: XadcIoLoc)
        requires
            self.kind is Virtex7,
            self.regs > 1,
            !self.has_ps ==> self.cols_io@.len() >= 1,
            !self.has_ps && self.cols_io@.len() >= 2 ==> self.reg_cfg.0 < self.cols_io@[1].regs@.len(),
        ensures
            r == self.spec_xadc_io_loc(),
    {
        if self.has_ps {
            XadcIoLoc::E
        } else if self.cols_io.len() == 1 || self.cols_io[1].regs[self.reg_cfg.0].is_none() {
            XadcIoLoc::W
        } else {
            XadcIoLoc::Both
        }
    }

    /// The rows of the clock management tiles of a Virtex 5 chip.
    pub open spec fn spec_cmt_rows(self) -> Seq<RowId> {
        let c = self.reg_cfg.0 as int;
        let a: Seq<RowId> = if c > 2 {
            seq![RowId(self.sp_row_reg_bot(c - 3) as usize), RowId(self.sp_row_reg_hclk(c - 3) as usize)]
        } else {
            seq![]
        };
        let b: Seq<RowId> = seq![RowId(self.sp_row_reg_bot(c - 2) as usize)];
        let d: Seq<RowId> = if self.regs - c > 1 {
            seq![RowId(self.sp_row_reg_hclk(c + 1) as usize)]
        } else {
            seq![]
        };
        let e: Seq<RowId> = if self.regs - c > 2 {
            seq![RowId(self.sp_row_reg_bot(c + 2) as usize), RowId(self.sp_row_reg_hclk(c + 2) as usize)]
        } else {
            seq![]
        };
        a + b + d + e
    }

    /// The rows of the clock management tiles of a Virtex 5 chip.
    pub fn get_cmt_rows(&self) -> (res: Vec<RowId>)
        requires
            self.kind is Virtex5,
            2 <= self.reg_cfg.0 <= self.regs,
            self.regs * 20 <= usize::MAX,
        ensures
            res@ == self.spec_cmt_rows(),
    {
        let mut res: Vec<RowId> = Vec::new();
        let c = self.reg_cfg.0;
        assert(self.sp_rpr() == 20);
        assert(self.regs > c + 2 ==> (c + 2) * 20 + 10 <= usize::MAX) by (nonlinear_arith)
            requires
                self.regs * 20 <= usize::MAX,
        ;
        assert(self.regs > c + 1 ==> (c + 1) * 20 + 10 <= usize::MAX) by (nonlinear_arith)
            requires
                self.regs * 20 <= usize::MAX,
        ;
        assert(c * 20 <= usize::MAX) by (nonlinear_arith)
            requires
                self.regs * 20 <= usize::MAX,
                c <= self.regs,
        ;
        if c > 2 {
            res.push(self.row_reg_bot(RegId(c - 3)));
            res.push(self.row_reg_hclk(RegId(c - 3)));
        }
        res.push(self.row_reg_bot(RegId(c - 2)));
        if self.regs - c > 1 {
            res.push(self.row_reg_hclk(RegId(c + 1)));
        }
        if self.regs - c > 2 {
            res.push(self.row_reg_bot(RegId(c + 2)));
            res.push(self.row_reg_hclk(RegId(c + 2)));
        }
        assert(res@ =~= self.spec_cmt_rows());
        res
    }
}

/// A row lies in its region: between the region's bottom row and the next region's bottom row.
pub proof fn lemma_row_in_own_region(chip: Chip, row: nat)
    ensures
        chip.sp_row_reg_bot(chip.sp_row_to_reg(row as int)) <= row,
        row < chip.sp_row_reg_bot(chip.sp_row_to_reg(row as int)) + chip.sp_rpr(),
{
    let rpr = chip.sp_rpr() as int;
    vstd::arithmetic::div_mod::lemma_fundamental_div_mod(row as int, rpr);
    vstd::arithmetic::div_mod::lemma_mod_bound(row as int, rpr);
    let q = row as int / rpr;
    assert(chip.sp_row_to_reg(row as int) == q);
    assert(chip.sp_row_reg_bot(q) == q * rpr);
    assert(q * rpr == rpr * q) by (nonlinear_arith);
}

/// The bottom row and the clock spine row of a region lie in that region.
pub proof fn lemma_region_rows_in_region(chip: Chip, reg: nat)
    ensures
        chip.sp_row_to_reg(chip.sp_row_reg_bot(reg as int)) == reg,
        chip.sp_row_to_reg(chip.sp_row_reg_hclk(reg as int)) == reg,
{
    let rpr = chip.sp_rpr() as int;
    let half = rpr / 2;
    assert(0 <= half < rpr);
    let bot = chip.sp_row_reg_bot(reg as int);
    assert(bot == reg * rpr);
    assert(reg * rpr == rpr * reg) by (nonlinear_arith);
    vstd::arithmetic::div_mod::lemma_div_multiples_vanish(reg as int, rpr);
    assert(bot / rpr == reg);
    vstd::arithmetic::div_mod::lemma_div_multiples_vanish_fancy(reg as int, half, rpr);
    assert(chip.sp_row_reg_hclk(reg as int) == bot + half);
    assert((rpr * reg + half) / rpr == reg);
}

/// The clock spine row of the region that holds a row lies in that same
/// region, at the middle row of it, and is its own clock spine row.
pub proof fn lemma_row_hclk(chip: Chip, row: nat)
    ensures
        ({
            let h = chip.sp_row_reg_hclk(chip.sp_row_to_reg(row as int));
            &&& chip.sp_row_to_reg(h) == chip.sp_row_to_reg(row as int)
            &&& chip.sp_row_reg_hclk(chip.sp_row_to_reg(h)) == h
            &&& h % (chip.sp_rpr() as int) == chip.sp_rpr() / 2
        }),
{
    let rpr = chip.sp_rpr() as int;
    let reg = chip.sp_row_to_reg(row as int);
    vstd::arithmetic::div_mod::lemma_div_pos_is_pos(row as int, rpr);
    lemma_region_rows_in_region(chip, reg as nat);
    let h = chip.sp_row_reg_hclk(reg);
    assert(h == rpr * reg + rpr / 2) by (nonlinear_arith)
        requires
            h == reg * rpr + rpr / 2,
    ;
    vstd::arithmetic::div_mod::lemma_mod_multiples_vanish(reg, rpr / 2, rpr);
    vstd::arithmetic::div_mod::lemma_small_mod((rpr / 2) as nat, rpr as nat);
}

/// The printed name of a `RegId`: `REG` and the decimal index.
pub open spec fn reg_name(x: RegId) -> Seq<char> {
    "REG"@ + decimal(x.0 as nat)
}

/// Appends the printed name of a `RegId`.
pub fn push_reg_name(s: &mut String, x: RegId)
    ensures
        final(s)@ == old(s)@ + reg_name(x),
{
    s.append("REG");
    push_decimal(s, x.0 as u64);
    assert(s@ =~= old(s)@ + reg_name(x));
}

/// The printed name of a `ChipKind`.
pub open spec fn chip_kind_name(p: ChipKind) -> Seq<char> {
    match p {
        ChipKind::Virtex4 => "virtex4"@,
        ChipKind::Virtex5 => "virtex5"@,
        ChipKind::Virtex6 => "virtex6"@,
        ChipKind::Virtex7 => "virtex7"@,
    }
}

/// Appends the printed name of a `ChipKind`.
pub fn push_chip_kind_name(s: &mut String, p: ChipKind)
    ensures
        final(s)@ == old(s)@ + chip_kind_name(p),
{
    match p {
        ChipKind::Virtex4 => {
            s.append("virtex4");
        },
        ChipKind::Virtex5 => {
            s.append("virtex5");
        },
        ChipKind::Virtex6 => {
            s.append("virtex6");
        },
        ChipKind::Virtex7 => {
            s.append("virtex7");
        },
    }
    assert(s@ =~= old(s)@ + chip_kind_name(p));
}

impl ChipKind {
    /// The printed name.
    pub fn to_string(&self) -> (r: String)
        ensures
            r@ == chip_kind_name(*self),
    {
        let mut s = String::new();
        push_chip_kind_name(&mut s, *self);
        s
    }
}

/// The printed name of a `ColumnKind`.
pub open spec fn column_kind_name(p: ColumnKind) -> Seq<char> {
    match p {
        ColumnKind::Io => "io"@,
        ColumnKind::ClbLL => "clbll"@,
        ColumnKind::ClbLM => "clblm"@,
        ColumnKind::Bram => "bram"@,
        ColumnKind::Dsp => "dsp"@,
        ColumnKind::Gt => "gt"@,
        ColumnKind::Cmt => "cmt"@,
        ColumnKind::Clk => "clk"@,
        ColumnKind::Cfg => "cfg"@,
    }
}

/// Appends the printed name of a `ColumnKind`.
pub fn push_column_kind_name(s: &mut String, p: ColumnKind)
    ensures
        final(s)@ == old(s)@ + column_kind_name(p),
{
    match p {
        ColumnKind::Io => {
            s.append("io");
        },
        ColumnKind::ClbLL => {
            s.append("clbll");
        },
        ColumnKind::ClbLM => {
            s.append("clblm");
        },
        ColumnKind::Bram => {
            s.append("bram");
        },
        ColumnKind::Dsp => {
            s.append("dsp");
        },
        ColumnKind::Gt => {
            s.append("gt");
        },
        ColumnKind::Cmt => {
            s.append("cmt");
        },
        ColumnKind::Clk => {
            s.append("clk");
        },
        ColumnKind::Cfg => {
            s.append("cfg");
        },
    }
    assert(s@ =~= old(s)@ + column_kind_name(p));
}

impl ColumnKind {
    /// The printed name.
    pub fn to_string(&self) -> (r: String)
        ensures
            r@ == column_kind_name(*self),
    {
        let mut s = String::new();
        push_column_kind_name(&mut s, *self);
        s
    }
}

/// The printed name of a `CfgRowKind`.
pub open spec fn cfg_row_kind_name(p: CfgRowKind) -> Seq<char> {
    match p {
        CfgRowKind::Dcm => "dcm"@,
        CfgRowKind::Ccm => "ccm"@,
        CfgRowKind::Sysmon => "sysmon"@,
    }
}

/// Appends the printed name of a `CfgRowKind`.
pub fn push_cfg_row_kind_name(s: &mut String, p: CfgRowKind)
    ensures
        final(s)@ == old(s)@ + cfg_row_kind_name(p),
{
    match p {
        CfgRowKind::Dcm => {
            s.append("dcm");
        },
        CfgRowKind::Ccm => {
            s.append("ccm");
        },
        CfgRowKind::Sysmon => {
            s.append("sysmon");
        },
    }
    assert(s@ =~= old(s)@ + cfg_row_kind_name(p));
}

impl CfgRowKind {
    /// The printed name.
    pub fn to_string(&self) -> (r: String)
        ensures
            r@ == cfg_row_kind_name(*self),
    {
        let mut s = String::new();
        push_cfg_row_kind_name(&mut s, *self);
        s
    }
}

/// The printed name of a `GtKind`.
pub open spec fn gt_kind_name(p: GtKind) -> Seq<char> {
    match p {
        GtKind::Gtp => "gtp"@,
        GtKind::Gtx => "gtx"@,
        GtKind::Gth => "gth"@,
    }
}

/// Appends the printed name of a `GtKind`.
pub fn push_gt_kind_name(s: &mut String, p: GtKind)
    ensures
        final(s)@ == old(s)@ + gt_kind_name(p),
{
    match p {
        GtKind::Gtp => {
            s.append("gtp");
        },
        GtKind::Gtx => {
            s.append("gtx");
        },
        GtKind::Gth => {
            s.append("gth");
        },
    }
    assert(s@ =~= old(s)@ + gt_kind_name(p));
}

impl GtKind {
    /// The printed name.
    pub fn to_string(&self) -> (r: String)
        ensures
            r@ == gt_kind_name(*self),
    {
        let mut s = String::new();
        push_gt_kind_name(&mut s, *self);
        s
    }
}

/// The printed name of a `IoKind`.
pub open spec fn io_kind_name(p: IoKind) -> Seq<char> {
    match p {
        IoKind::Hpio => "hpio"@,
        IoKind::Hrio => "hrio"@,
    }
}

/// Appends the printed name of a `IoKind`.
pub fn push_io_kind_name(s: &mut String, p: IoKind)
    ensures
        final(s)@ == old(s)@ + io_kind_name(p),
{
    match p {
        IoKind::Hpio => {
            s.append("hpio");
        },
        IoKind::Hrio => {
            s.append("hrio");
        },
    }
    assert(s@ =~= old(s)@ + io_kind_name(p));
}

impl IoKind {
    /// The printed name.
    pub fn to_string(&self) -> (r: String)
        ensures
            r@ == io_kind_name(*self),
    {
        let mut s = String::new();
        push_io_kind_name(&mut s, *self);
        s
    }
}

/// The printed name of a `DisabledPart`.
pub open spec fn disabled_part_name(p: DisabledPart) -> Seq<char> {
    match p {
        DisabledPart::Emac(row) => "EMAC:"@ + row_name(row),
        DisabledPart::GtxRow(reg) => "GTX:"@ + reg_name(reg),
        DisabledPart::SysMon => "SYSMON"@,
        DisabledPart::Gtp => "GTP"@,
    }
}

/// Appends the printed name of a `DisabledPart`.
pub fn push_disabled_part_name(s: &mut String, p: DisabledPart)
    ensures
        final(s)@ == old(s)@ + disabled_part_name(p),
{
    match p {
        DisabledPart::Emac(row) => {
            s.append("EMAC:");
            push_row_name(s, row);
        },
        DisabledPart::GtxRow(reg) => {
            s.append("GTX:");
            push_reg_name(s, reg);
        },
        DisabledPart::SysMon => {
            s.append("SYSMON");
        },
        DisabledPart::Gtp => {
            s.append("GTP");
        },
    }
    assert(s@ =~= old(s)@ + disabled_part_name(p));
}

impl DisabledPart {
    /// The printed name.
    pub fn to_string(&self) -> (r: String)
        ensures
            r@ == disabled_part_name(*self),
    {
        let mut s = String::new();
        push_disabled_part_name(&mut s, *self);
        s
    }
}


} // verus!
