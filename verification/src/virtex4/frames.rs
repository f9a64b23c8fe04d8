//! The frame layout of the Virtex 4, Virtex 5 and Virtex 7: which frames
//! the bitstream holds, in which order, and where the frames of each column
//! of each clock region start.
use vstd::prelude::*;
use crate::bitstream::{
    const_mask, const_mask_fn, frame_run, frame_views, lemma_frame_views_push, mask_fill,
    push_const_run, FrameAddr, FrameInfo, FrameMaskMode,
};
use crate::grid::{ColId, DirH, RowId};
use crate::seqs::{concat_map, lemma_concat_map_index};
use crate::virtex4::chip::{CfgRowKind, Chip, ColumnKind, RegId};
use crate::virtex4::expanded::{first_gt_col, DieFrameGeom};

verus! {

/// A frame as the layout describes it: its address and the mask mode of each part.
pub type FrameView = (FrameAddr, Seq<FrameMaskMode>);

/// The number of regions laid out before the regions below the configuration
/// region: the configuration region itself and those above it.
pub open spec fn regs_up(chip: Chip) -> int {
    if chip.reg_cfg.0 <= chip.regs {
        chip.regs - chip.reg_cfg.0
    } else {
        0
    }
}

/// The `p`-th region in bitstream order: the configuration region and the
/// regions above it going up, then the regions below it going down.
pub open spec fn region_order(chip: Chip, p: int) -> int {
    let lo = chip.regs - regs_up(chip);
    if p < regs_up(chip) {
        lo + p
    } else {
        lo - 1 - (p - regs_up(chip))
    }
}

/// The place of a region in bitstream order.
pub open spec fn region_pos(chip: Chip, reg: int) -> int {
    let lo = chip.regs - regs_up(chip);
    if reg >= lo {
        reg - lo
    } else {
        regs_up(chip) + (lo - 1 - reg)
    }
}

/// The region number of a frame address: the distance from the
/// configuration region, negative below it.
pub open spec fn region_addr(chip: Chip, reg: int) -> i32 {
    (reg - chip.reg_cfg.0) as i32
}

/// Each region of the chip comes exactly once in bitstream order.
pub proof fn lemma_region_order_permutation(chip: Chip)
    ensures
        forall|p: int| 0 <= p < chip.regs ==> 0 <= #[trigger] region_order(chip, p) < chip.regs,
        forall|p: int, q: int|
            0 <= p < chip.regs && 0 <= q < chip.regs && p != q ==> #[trigger] region_order(chip, p)
                != #[trigger] region_order(chip, q),
        forall|reg: int|
            0 <= reg < chip.regs ==> 0 <= #[trigger] region_pos(chip, reg) < chip.regs && region_order(
                chip,
                region_pos(chip, reg),
            ) == reg,
        forall|p: int| 0 <= p < chip.regs ==> #[trigger] region_pos(chip, region_order(chip, p)) == p,
{
}

/// The regions in bitstream order.
fn frame_region_order(chip: &Chip) -> (r: Vec<usize>)
    ensures
        r@.len() == chip.regs,
        forall|p: int| 0 <= p < chip.regs ==> #[trigger] r@[p] == region_order(*chip, p),
{
    let lo = if chip.reg_cfg.0 <= chip.regs { chip.reg_cfg.0 } else { chip.regs };
    let mut r: Vec<usize> = Vec::new();
    let mut reg = lo;
    while reg < chip.regs
        invariant
            lo <= reg <= chip.regs,
            lo == chip.regs - regs_up(*chip),
            r@.len() == reg - lo,
            forall|p: int| 0 <= p < r@.len() ==> #[trigger] r@[p] == region_order(*chip, p),
        decreases chip.regs - reg,
    {
        r.push(reg);
        reg = reg + 1;
    }
    let mut k = lo;
    while k > 0
        invariant
            k <= lo,
            lo == chip.regs - regs_up(*chip),
            r@.len() == chip.regs - k,
            forall|p: int| 0 <= p < r@.len() ==> #[trigger] r@[p] == region_order(*chip, p),
        decreases k,
    {
        k = k - 1;
        r.push(k);
    }
    r
}

/// The region number of a frame address, as the wrapping conversion computes it.
fn region_addr_of(chip: &Chip, reg: usize) -> (r: i32)
    ensures
        r == region_addr(*chip, reg as int),
{
    (reg as i128 - chip.reg_cfg.0 as i128) as i32
}

/// The frames of the layout, as the layout describes them.
pub struct FrameLayout {
    pub frames: DieFrameGeom,
    pub frame_info: Vec<FrameInfo>,
}

/// The number of columns of a kind among the first `n` columns.
pub open spec fn count_kind(cols: Seq<ColumnKind>, kind: ColumnKind, n: nat) -> nat
    decreases n,
{
    if n == 0 {
        0
    } else {
        count_kind(cols, kind, (n - 1) as nat) + if cols[n - 1] == kind { 1nat } else { 0nat }
    }
}

proof fn lemma_count_kind_le(cols: Seq<ColumnKind>, kind: ColumnKind, n: nat)
    ensures
        count_kind(cols, kind, n) <= n,
    decreases n,
{
    if n > 0 {
        lemma_count_kind_le(cols, kind, (n - 1) as nat);
    }
}

// ---------------------------------------------------------------- Virtex 4

/// The number of frames of a column of the Virtex 4 (zero for the kinds it
/// does not have).
pub open spec fn v4_width(k: ColumnKind) -> nat {
    match k {
        ColumnKind::ClbLM => 22,
        ColumnKind::Bram => 20,
        ColumnKind::Dsp => 21,
        ColumnKind::Io | ColumnKind::Cfg => 30,
        ColumnKind::Gt => 20,
        _ => 0,
    }
}

/// The Virtex 4 has columns of this kind.
pub open spec fn v4_kind_ok(k: ColumnKind) -> bool {
    k is ClbLM || k is Bram || k is Dsp || k is Io || k is Cfg || k is Gt
}

/// The major of the first main frame of column `n`: one major for each column
/// before it that is not a block RAM column, and one more for the clock spine
/// after each configuration column.
pub open spec fn v4_major(chip: Chip, n: nat) -> nat
    decreases n,
{
    if n == 0 {
        0
    } else {
        v4_major(chip, (n - 1) as nat) + match chip.columns@[n - 1] {
            ColumnKind::Bram => 0nat,
            ColumnKind::Cfg => 2nat,
            _ => 1nat,
        }
    }
}

proof fn lemma_v4_major_le(chip: Chip, n: nat)
    ensures
        v4_major(chip, n) <= 2 * n,
    decreases n,
{
    if n > 0 {
        lemma_v4_major_le(chip, (n - 1) as nat);
    }
}

/// The minors of a configuration column frame that a system monitor row masks.
pub open spec fn v4_sysmon_minor(minor: int) -> bool {
    minor == 19 || minor == 20 || minor == 21 || (24 <= minor <= 28)
}

/// The mask of a configuration column frame after the first `k` special rows
/// of the configuration column: a row in the frame's region masks the part of
/// the frame that holds it (a DCM at minors 19 and 20, a system monitor, which
/// spans two parts, at its minors).
pub open spec fn v4_cfg_mask(chip: Chip, reg: int, minor: int, k: nat) -> Seq<FrameMaskMode>
    decreases k,
{
    if k == 0 {
        const_mask(FrameMaskMode::NoMask, 4)
    } else {
        let m = v4_cfg_mask(chip, reg, minor, (k - 1) as nat);
        let row = chip.rows_cfg@[k - 1].0.0 as int;
        let idx = row / 4 % 4;
        if chip.sp_row_to_reg(row) == reg {
            match chip.rows_cfg@[k - 1].1 {
                CfgRowKind::Dcm => if minor == 19 || minor == 20 {
                    m.update(idx, FrameMaskMode::DrpV4)
                } else {
                    m
                },
                CfgRowKind::Ccm => m,
                CfgRowKind::Sysmon => if v4_sysmon_minor(minor) {
                    m.update(idx, FrameMaskMode::All).update(idx + 1, FrameMaskMode::All)
                } else {
                    m
                },
            }
        } else {
            m
        }
    }
}

/// The mask of a main frame of the Virtex 4.
pub open spec fn v4_mask(chip: Chip, reg: int, k: ColumnKind, minor: int) -> Seq<FrameMaskMode> {
    if k is Gt && minor == 19 {
        const_mask(FrameMaskMode::DrpV4, 4)
    } else if k is Cfg {
        v4_cfg_mask(chip, reg, minor, chip.rows_cfg@.len())
    } else {
        const_mask(FrameMaskMode::NoMask, 4)
    }
}

pub open spec fn v4_mask_fn(chip: Chip, reg: int, k: ColumnKind) -> spec_fn(int) -> Seq<FrameMaskMode> {
    |minor: int| v4_mask(chip, reg, k, minor)
}

/// No system monitor row of a region of the chip sits in the last part of
/// a frame, where its mask would run past the frame's four parts.
pub open spec fn v4_sysmon_ok(chip: Chip) -> bool {
    forall|k: int|
        0 <= k < chip.rows_cfg@.len() && (#[trigger] chip.rows_cfg@[k]).1 is Sysmon
            && chip.sp_row_to_reg(chip.rows_cfg@[k].0.0 as int) < chip.regs
            ==> chip.rows_cfg@[k].0.0 / 4 % 4 != 3
}

/// The chip can be laid out as a Virtex 4: each column is of a kind the
/// family has, majors fit their field, and a chip with a configuration
/// column has its system monitor rows where their masks fit the frame.
pub open spec fn v4_layout_ok(chip: Chip) -> bool {
    &&& forall|c: int| 0 <= c < chip.columns@.len() ==> v4_kind_ok(#[trigger] chip.columns@[c])
    &&& 2 * chip.columns@.len() + 2 <= u32::MAX
    &&& chip.columns@.contains(ColumnKind::Cfg) ==> v4_sysmon_ok(chip)
}

proof fn lemma_v4_cfg_mask_len(chip: Chip, reg: int, minor: int, k: nat)
    requires
        0 <= reg < chip.regs,
        k <= chip.rows_cfg@.len(),
        v4_sysmon_ok(chip),
    ensures
        v4_cfg_mask(chip, reg, minor, k).len() == 4,
    decreases k,
{
    if k > 0 {
        lemma_v4_cfg_mask_len(chip, reg, minor, (k - 1) as nat);
        assert(chip.rows_cfg@[k - 1] == chip.rows_cfg@[k - 1]);
    }
}

/// The mask of a main frame of the Virtex 4.
fn v4_mask_of(chip: &Chip, reg: usize, k: ColumnKind, minor: u32) -> (r: Vec<FrameMaskMode>)
    requires
        k is Cfg ==> v4_sysmon_ok(*chip),
        reg < chip.regs,
    ensures
        r@ == v4_mask(*chip, reg as int, k, minor as int),
{
    if k == ColumnKind::Gt && minor == 19 {
        return mask_fill(FrameMaskMode::DrpV4, 4);
    }
    let mut mask = mask_fill(FrameMaskMode::NoMask, 4);
    if k == ColumnKind::Cfg {
        let mut i: usize = 0;
        while i < chip.rows_cfg.len()
            invariant
                i <= chip.rows_cfg@.len(),
                reg < chip.regs,
                v4_sysmon_ok(*chip),
                mask@ == v4_cfg_mask(*chip, reg as int, minor as int, i as nat),
            decreases chip.rows_cfg@.len() - i,
        {
            proof {
                lemma_v4_cfg_mask_len(*chip, reg as int, minor as int, i as nat);
            }
            let (row, kind) = chip.rows_cfg[i];
            if chip.row_to_reg(row).0 == reg {
                let idx = row.0 / 4 % 4;
                match kind {
                    CfgRowKind::Dcm => {
                        if minor == 19 || minor == 20 {
                            mask.set(idx, FrameMaskMode::DrpV4);
                        }
                    },
                    CfgRowKind::Ccm => {},
                    CfgRowKind::Sysmon => {
                        if minor == 19 || minor == 20 || minor == 21 || (24 <= minor && minor <= 28) {
                            assert(chip.rows_cfg@[i as int].1 is Sysmon);
                            mask.set(idx, FrameMaskMode::All);
                            mask.set(idx + 1, FrameMaskMode::All);
                        }
                    },
                }
            }
            i = i + 1;
        }
    }
    mask
}

/// Appends the `width` main frames of a Virtex 4 column.
fn v4_push_masked_run(
    chip: &Chip,
    reg: usize,
    k: ColumnKind,
    region: i32,
    major: u32,
    width: u32,
    out: &mut Vec<FrameInfo>,
)
    requires
        k is Cfg ==> v4_sysmon_ok(*chip),
        reg < chip.regs,
    ensures
        frame_views(final(out)@) == frame_views(old(out)@) + frame_run(
            0,
            region,
            major,
            width as nat,
            v4_mask_fn(*chip, reg as int, k),
        ),
{
    let ghost start = frame_views(out@);
    let mut minor: u32 = 0;
    while minor < width
        invariant
            minor <= width,
            k is Cfg ==> v4_sysmon_ok(*chip),
            reg < chip.regs,
            frame_views(out@) == start + frame_run(0, region, major, minor as nat, v4_mask_fn(*chip, reg as int, k)),
        decreases width - minor,
    {
        let f = FrameInfo {
            addr: FrameAddr { typ: 0, region, major, minor },
            mask_mode: v4_mask_of(chip, reg, k, minor),
        };
        proof {
            lemma_frame_views_push(out@, f);
        }
        out.push(f);
        minor = minor + 1;
        assert(frame_views(out@) =~= start + frame_run(0, region, major, minor as nat, v4_mask_fn(*chip, reg as int, k)));
    }
}

/// The main frames of column `c` of a region of the Virtex 4: none for a
/// block RAM column (its frames come later), else one major of the column's
/// width, and after a configuration column a major of three clock spine frames.
pub open spec fn v4_col_frames(chip: Chip, reg: int, c: int) -> Seq<FrameView> {
    let k = chip.columns@[c];
    let region = region_addr(chip, reg);
    let major = v4_major(chip, c as nat);
    if k is Bram {
        Seq::empty()
    } else if k is Cfg {
        frame_run(0, region, major as u32, 30, v4_mask_fn(chip, reg, k)) + frame_run(
            0,
            region,
            (major + 1) as u32,
            3,
            const_mask_fn(FrameMaskMode::NoMask, 4),
        )
    } else {
        frame_run(0, region, major as u32, v4_width(k), v4_mask_fn(chip, reg, k))
    }
}

pub open spec fn v4_col_fn(chip: Chip, reg: int) -> spec_fn(int) -> Seq<FrameView> {
    |c: int| v4_col_frames(chip, reg, c)
}

/// The main frames of the first `n` columns of a region of the Virtex 4.
pub open spec fn v4_main_frames(chip: Chip, reg: int, n: nat) -> Seq<FrameView> {
    concat_map(n, v4_col_fn(chip, reg))
}

/// Where the clock spine frames of a region start, relative to the region's
/// first main frame: after the last configuration column among the first `n`.
pub open spec fn v4_spine(chip: Chip, reg: int, n: nat) -> Option<nat>
    decreases n,
{
    if n == 0 {
        None
    } else if chip.columns@[n - 1] is Cfg {
        Some(v4_main_frames(chip, reg, (n - 1) as nat).len() + 30)
    } else {
        v4_spine(chip, reg, (n - 1) as nat)
    }
}

/// The number of frames of a column of the Virtex 4.
fn v4_width_of(k: ColumnKind) -> (r: u32)
    requires
        v4_kind_ok(k),
    ensures
        r == v4_width(k),
{
    match k {
        ColumnKind::ClbLM => 22,
        ColumnKind::Bram => 20,
        ColumnKind::Dsp => 21,
        ColumnKind::Io | ColumnKind::Cfg => 30,
        _ => 20,
    }
}

/// Appends the main frames of a region of the Virtex 4, and gives the first
/// frame of each column (for a block RAM column, the frame count at that
/// point), the width of each column and the first clock spine frame.
fn v4_push_region(chip: &Chip, reg: usize, out: &mut Vec<FrameInfo>) -> (r: (Vec<usize>, Vec<usize>, usize))
    requires
        v4_layout_ok(*chip),
        reg < chip.regs,
    ensures
        frame_views(final(out)@) == frame_views(old(out)@) + v4_main_frames(
            *chip,
            reg as int,
            chip.columns@.len(),
        ),
        r.0@.len() == chip.columns@.len(),
        r.1@.len() == chip.columns@.len(),
        forall|c: int|
            0 <= c < chip.columns@.len() ==> #[trigger] r.0@[c] == old(out)@.len() + v4_main_frames(
                *chip,
                reg as int,
                c as nat,
            ).len(),
        forall|c: int| 0 <= c < chip.columns@.len() ==> #[trigger] r.1@[c] == v4_width(chip.columns@[c]),
        r.2 == match v4_spine(*chip, reg as int, chip.columns@.len()) {
            Some(o) => old(out)@.len() + o,
            None => 0,
        },
{
    let ghost start = frame_views(out@);
    let ghost start_len = out@.len();
    let ghost ch = *chip;
    let region = region_addr_of(chip, reg);
    let ncols = chip.columns.len();
    let mut col_frame: Vec<usize> = Vec::new();
    let mut col_width: Vec<usize> = Vec::new();
    let mut spine: usize = 0;
    let mut major: u32 = 0;
    let mut c: usize = 0;
    while c < ncols
        invariant
            ch == *chip,
            v4_layout_ok(ch),
            reg < ch.regs,
            ncols == ch.columns@.len(),
            region == region_addr(ch, reg as int),
            c <= ncols,
            start_len == start.len(),
            frame_views(out@) == start + v4_main_frames(ch, reg as int, c as nat),
            out@.len() == frame_views(out@).len(),
            major == v4_major(ch, c as nat),
            col_frame@.len() == c,
            col_width@.len() == c,
            forall|j: int| 0 <= j < c ==> #[trigger] col_frame@[j] == start_len + v4_main_frames(ch, reg as int, j as nat).len(),
            forall|j: int| 0 <= j < c ==> #[trigger] col_width@[j] == v4_width(ch.columns@[j]),
            spine == match v4_spine(ch, reg as int, c as nat) {
                Some(o) => start_len + o,
                None => 0,
            },
        decreases ncols - c,
    {
        proof {
            lemma_v4_major_le(ch, c as nat);
            assert(v4_main_frames(ch, reg as int, (c + 1) as nat) == v4_main_frames(ch, reg as int, c as nat)
                + v4_col_frames(ch, reg as int, c as int));
        }
        let cd = chip.columns[c];
        assert(v4_kind_ok(cd));
        col_frame.push(out.len());
        let width = v4_width_of(cd);
        col_width.push(width as usize);
        if cd != ColumnKind::Bram {
            if cd == ColumnKind::Cfg {
                assert(ch.columns@.contains(ColumnKind::Cfg));
            }
            v4_push_masked_run(chip, reg, cd, region, major, width, out);
            major = major + 1;
            if cd == ColumnKind::Cfg {
                spine = out.len();
                push_const_run(out, 0, region, major, 3, FrameMaskMode::NoMask, 4);
                major = major + 1;
            }
        }
        proof {
            assert(out@.len() == frame_views(out@).len());
        }
        c = c + 1;
    }
    (col_frame, col_width, spine)
}

/// The mask of a block RAM configuration frame of the Virtex 4: the last of
/// the twenty frames holds the block RAM's DRP bits.
pub open spec fn v4_bram_mask_fn() -> spec_fn(int) -> Seq<FrameMaskMode> {
    |minor: int| if minor == 19 {
        const_mask(FrameMaskMode::BramV4, 4)
    } else {
        const_mask(FrameMaskMode::NoMask, 4)
    }
}

/// The block RAM configuration frames of column `c` of a region of the
/// Virtex 4: twenty frames for a block RAM column, majors counting the block
/// RAM columns.
pub open spec fn v4_bram_cfg_col(chip: Chip, reg: int, c: int) -> Seq<FrameView> {
    if chip.columns@[c] is Bram {
        frame_run(
            1,
            region_addr(chip, reg),
            count_kind(chip.columns@, ColumnKind::Bram, c as nat) as u32,
            20,
            v4_bram_mask_fn(),
        )
    } else {
        Seq::empty()
    }
}

pub open spec fn v4_bram_cfg_fn(chip: Chip, reg: int) -> spec_fn(int) -> Seq<FrameView> {
    |c: int| v4_bram_cfg_col(chip, reg, c)
}

/// The block RAM data frames of column `c` of a region: `n` frames of type
/// `typ` for a block RAM column, fully masked in each of their `k` parts,
/// majors counting the block RAM columns.
pub open spec fn bram_data_col(chip: Chip, reg: int, c: int, typ: u32, n: nat, k: nat) -> Seq<FrameView> {
    if chip.columns@[c] is Bram {
        frame_run(
            typ,
            region_addr(chip, reg),
            count_kind(chip.columns@, ColumnKind::Bram, c as nat) as u32,
            n,
            const_mask_fn(FrameMaskMode::All, k),
        )
    } else {
        Seq::empty()
    }
}

pub open spec fn bram_data_fn(chip: Chip, reg: int, typ: u32, n: nat, k: nat) -> spec_fn(int) -> Seq<FrameView> {
    |c: int| bram_data_col(chip, reg, c, typ, n, k)
}

/// The block RAM data frames of a region of the Virtex 4: sixty-four frames
/// of type 2 for each block RAM column.
pub open spec fn v4_bram_data_fn(chip: Chip, reg: int) -> spec_fn(int) -> Seq<FrameView> {
    bram_data_fn(chip, reg, 2, 64, 4)
}

/// Appends the block RAM configuration frames of a region of the Virtex 4;
/// the first frame of each block RAM column replaces its entry in `cf`.
fn v4_push_bram_cfg(chip: &Chip, reg: usize, out: &mut Vec<FrameInfo>, cf: &Vec<usize>) -> (r: Vec<usize>)
    requires
        v4_layout_ok(*chip),
        cf@.len() == chip.columns@.len(),
    ensures
        frame_views(final(out)@) == frame_views(old(out)@) + concat_map(
            chip.columns@.len(),
            v4_bram_cfg_fn(*chip, reg as int),
        ),
        r@.len() == chip.columns@.len(),
        forall|c: int|
            0 <= c < chip.columns@.len() ==> #[trigger] r@[c] == if chip.columns@[c] is Bram {
                old(out)@.len() + concat_map(c as nat, v4_bram_cfg_fn(*chip, reg as int)).len()
            } else {
                cf@[c] as nat
            },
{
    let ghost start = frame_views(out@);
    let ghost start_len = out@.len();
    let ghost ch = *chip;
    let region = region_addr_of(chip, reg);
    let ncols = chip.columns.len();
    let mut r: Vec<usize> = Vec::new();
    let mut major: u32 = 0;
    let mut c: usize = 0;
    while c < ncols
        invariant
            ch == *chip,
            v4_layout_ok(ch),
            ncols == ch.columns@.len(),
            cf@.len() == ncols,
            region == region_addr(ch, reg as int),
            c <= ncols,
            start_len == start.len(),
            frame_views(out@) == start + concat_map(c as nat, v4_bram_cfg_fn(ch, reg as int)),
            out@.len() == frame_views(out@).len(),
            major == count_kind(ch.columns@, ColumnKind::Bram, c as nat),
            r@.len() == c,
            forall|j: int|
                0 <= j < c ==> #[trigger] r@[j] == if ch.columns@[j] is Bram {
                    start_len + concat_map(j as nat, v4_bram_cfg_fn(ch, reg as int)).len()
                } else {
                    cf@[j] as nat
                },
        decreases ncols - c,
    {
        proof {
            lemma_count_kind_le(ch.columns@, ColumnKind::Bram, c as nat);
            assert(concat_map((c + 1) as nat, v4_bram_cfg_fn(ch, reg as int)) == concat_map(
                c as nat,
                v4_bram_cfg_fn(ch, reg as int),
            ) + v4_bram_cfg_col(ch, reg as int, c as int));
        }
        if chip.columns[c] == ColumnKind::Bram {
            r.push(out.len());
            let ghost mid = frame_views(out@);
            let mut minor: u32 = 0;
            while minor < 20
                invariant
                    minor <= 20,
                    frame_views(out@) == mid + frame_run(1, region, major, minor as nat, v4_bram_mask_fn()),
                decreases 20 - minor,
            {
                let m = if minor == 19 { FrameMaskMode::BramV4 } else { FrameMaskMode::NoMask };
                let f = FrameInfo { addr: FrameAddr { typ: 1, region, major, minor }, mask_mode: mask_fill(m, 4) };
                proof {
                    lemma_frame_views_push(out@, f);
                }
                out.push(f);
                minor = minor + 1;
                assert(frame_views(out@) =~= mid + frame_run(1, region, major, minor as nat, v4_bram_mask_fn()));
            }
            major = major + 1;
        } else {
            r.push(cf[c]);
        }
        proof {
            assert(out@.len() == frame_views(out@).len());
        }
        c = c + 1;
    }
    r
}

/// Appends the block RAM data frames of a region, and gives the first data
/// frame of each block RAM column.
fn push_bram_data(chip: &Chip, reg: usize, typ: u32, n: u32, k: usize, out: &mut Vec<FrameInfo>) -> (r: Vec<
    Option<usize>,
>)
    requires
        chip.columns@.len() <= u32::MAX,
    ensures
        frame_views(final(out)@) == frame_views(old(out)@) + concat_map(
            chip.columns@.len(),
            bram_data_fn(*chip, reg as int, typ, n as nat, k as nat),
        ),
        r@.len() == chip.columns@.len(),
        forall|c: int|
            0 <= c < chip.columns@.len() ==> #[trigger] r@[c] == if chip.columns@[c] is Bram {
                Some(
                    (old(out)@.len() + concat_map(
                        c as nat,
                        bram_data_fn(*chip, reg as int, typ, n as nat, k as nat),
                    ).len()) as usize,
                )
            } else {
                None
            },
{
    let ghost start = frame_views(out@);
    let ghost start_len = out@.len();
    let ghost ch = *chip;
    let ghost f = bram_data_fn(ch, reg as int, typ, n as nat, k as nat);
    let region = region_addr_of(chip, reg);
    let ncols = chip.columns.len();
    let mut r: Vec<Option<usize>> = Vec::new();
    let mut major: u32 = 0;
    let mut c: usize = 0;
    while c < ncols
        invariant
            ch == *chip,
            f == bram_data_fn(ch, reg as int, typ, n as nat, k as nat),
            ncols == ch.columns@.len(),
            ncols <= u32::MAX,
            region == region_addr(ch, reg as int),
            c <= ncols,
            start_len == start.len(),
            frame_views(out@) == start + concat_map(c as nat, f),
            out@.len() == frame_views(out@).len(),
            major == count_kind(ch.columns@, ColumnKind::Bram, c as nat),
            r@.len() == c,
            forall|j: int|
                0 <= j < c ==> #[trigger] r@[j] == if ch.columns@[j] is Bram {
                    Some((start_len + concat_map(j as nat, f).len()) as usize)
                } else {
                    None
                },
        decreases ncols - c,
    {
        proof {
            lemma_count_kind_le(ch.columns@, ColumnKind::Bram, c as nat);
            assert(concat_map((c + 1) as nat, f) == concat_map(c as nat, f) + f(c as int));
        }
        if chip.columns[c] == ColumnKind::Bram {
            proof {
                lemma_count_kind_le(ch.columns@, ColumnKind::Bram, (c + 1) as nat);
            }
            r.push(Some(out.len()));
            push_const_run(out, typ, region, major, n, FrameMaskMode::All, k);
            major = major + 1;
        } else {
            r.push(None);
        }
        proof {
            assert(out@.len() == frame_views(out@).len());
        }
        c = c + 1;
    }
    r
}

/// The main frames of the `p`-th region in bitstream order.
pub open spec fn v4_main_fn(chip: Chip) -> spec_fn(int) -> Seq<FrameView> {
    |p: int| v4_main_frames(chip, region_order(chip, p), chip.columns@.len())
}

/// The block RAM configuration frames of the `p`-th region in bitstream order.
pub open spec fn v4_bram_cfg_all_fn(chip: Chip) -> spec_fn(int) -> Seq<FrameView> {
    |p: int| concat_map(chip.columns@.len(), v4_bram_cfg_fn(chip, region_order(chip, p)))
}

/// The block RAM data frames of the `p`-th region in bitstream order.
pub open spec fn v4_bram_data_all_fn(chip: Chip) -> spec_fn(int) -> Seq<FrameView> {
    |p: int| concat_map(chip.columns@.len(), v4_bram_data_fn(chip, region_order(chip, p)))
}

/// The first frame of column `c` of the `p`-th region in bitstream order on
/// the Virtex 4: a block RAM column's configuration frames come after all
/// main frames, the other columns' frames among the main frames.
pub open spec fn v4_col_frame(chip: Chip, p: int, c: int) -> nat {
    let reg = region_order(chip, p);
    if chip.columns@[c] is Bram {
        concat_map(chip.regs as nat, v4_main_fn(chip)).len() + concat_map(p as nat, v4_bram_cfg_all_fn(chip)).len()
            + concat_map(c as nat, v4_bram_cfg_fn(chip, reg)).len()
    } else {
        concat_map(p as nat, v4_main_fn(chip)).len() + v4_main_frames(chip, reg, c as nat).len()
    }
}

/// The first data frame of block RAM column `c` of the `p`-th region in
/// bitstream order on the Virtex 4.
pub open spec fn v4_bram_frame(chip: Chip, p: int, c: int) -> Option<usize> {
    if chip.columns@[c] is Bram {
        Some(
            (concat_map(chip.regs as nat, v4_main_fn(chip)).len() + concat_map(
                chip.regs as nat,
                v4_bram_cfg_all_fn(chip),
            ).len() + concat_map(p as nat, v4_bram_data_all_fn(chip)).len() + concat_map(
                c as nat,
                v4_bram_data_fn(chip, region_order(chip, p)),
            ).len()) as usize,
        )
    } else {
        None
    }
}

/// The first clock spine frame of the `p`-th region in bitstream order on
/// the Virtex 4 (zero for a chip without a configuration column).
pub open spec fn v4_spine_frame(chip: Chip, p: int) -> nat {
    match v4_spine(chip, region_order(chip, p), chip.columns@.len()) {
        Some(o) => concat_map(p as nat, v4_main_fn(chip)).len() + o,
        None => 0,
    }
}

/// Frame `m` of column `c` of the `p`-th region lies in the main frames at
/// the column's first frame plus `m`.
proof fn lemma_v4_main_frame_at(chip: Chip, p: int, c: int, m: int)
    requires
        0 <= p < chip.regs,
        0 <= c < chip.columns@.len(),
        0 <= m < v4_col_frames(chip, region_order(chip, p), c).len(),
    ensures
        ({
            let i = concat_map(p as nat, v4_main_fn(chip)).len() + v4_main_frames(chip, region_order(chip, p), c as nat).len()
                + m;
            &&& i < concat_map(chip.regs as nat, v4_main_fn(chip)).len()
            &&& concat_map(chip.regs as nat, v4_main_fn(chip))[i] == v4_col_frames(chip, region_order(chip, p), c)[m]
        }),
{
    let reg = region_order(chip, p);
    lemma_concat_map_index(chip.columns@.len(), v4_col_fn(chip, reg), c, m);
    let t = v4_main_frames(chip, reg, c as nat).len() + m;
    lemma_concat_map_index(chip.regs as nat, v4_main_fn(chip), p, t);
}

/// Frame `m` of block RAM column `c` of the `p`-th region lies in the block
/// RAM configuration frames at the column's first frame plus `m`, and
/// likewise for its data frames.
proof fn lemma_v4_bram_frame_at(chip: Chip, p: int, c: int, m: int)
    requires
        0 <= p < chip.regs,
        0 <= c < chip.columns@.len(),
    ensures
        0 <= m < v4_bram_cfg_col(chip, region_order(chip, p), c).len() ==> ({
            let i = concat_map(p as nat, v4_bram_cfg_all_fn(chip)).len() + concat_map(
                c as nat,
                v4_bram_cfg_fn(chip, region_order(chip, p)),
            ).len() + m;
            &&& i < concat_map(chip.regs as nat, v4_bram_cfg_all_fn(chip)).len()
            &&& concat_map(chip.regs as nat, v4_bram_cfg_all_fn(chip))[i] == v4_bram_cfg_col(
                chip,
                region_order(chip, p),
                c,
            )[m]
        }),
        0 <= m < bram_data_col(chip, region_order(chip, p), c, 2, 64, 4).len() ==> ({
            let i = concat_map(p as nat, v4_bram_data_all_fn(chip)).len() + concat_map(
                c as nat,
                v4_bram_data_fn(chip, region_order(chip, p)),
            ).len() + m;
            &&& i < concat_map(chip.regs as nat, v4_bram_data_all_fn(chip)).len()
            &&& concat_map(chip.regs as nat, v4_bram_data_all_fn(chip))[i] == bram_data_col(
                chip,
                region_order(chip, p),
                c,
                2,
                64,
                4,
            )[m]
        }),
{
    let reg = region_order(chip, p);
    if 0 <= m < v4_bram_cfg_col(chip, reg, c).len() {
        lemma_concat_map_index(chip.columns@.len(), v4_bram_cfg_fn(chip, reg), c, m);
        let t = concat_map(c as nat, v4_bram_cfg_fn(chip, reg)).len() + m;
        lemma_concat_map_index(chip.regs as nat, v4_bram_cfg_all_fn(chip), p, t);
    }
    if 0 <= m < bram_data_col(chip, reg, c, 2, 64, 4).len() {
        lemma_concat_map_index(chip.columns@.len(), v4_bram_data_fn(chip, reg), c, m);
        let t = concat_map(c as nat, v4_bram_data_fn(chip, reg)).len() + m;
        lemma_concat_map_index(chip.regs as nat, v4_bram_data_all_fn(chip), p, t);
    }
}

/// The frames of a Virtex 4 die are laid out as the chip asks: the frame
/// table and, for each region and column, where its frames start, how
/// many there are and what they are.
pub open spec fn v4_frames_laid_out(chip: Chip, frames: DieFrameGeom, info: Seq<FrameInfo>) -> bool {
    &&& frame_views(info) == concat_map(chip.regs as nat, v4_main_fn(chip)) + concat_map(
        chip.regs as nat,
        v4_bram_cfg_all_fn(chip),
    ) + concat_map(chip.regs as nat, v4_bram_data_all_fn(chip))
    &&& frames.col_frame@.len() == chip.regs
    &&& frames.col_width@.len() == chip.regs
    &&& frames.bram_frame@.len() == chip.regs
    &&& frames.spine_frame@.len() == chip.regs
    &&& forall|reg: int| 0 <= reg < chip.regs ==> (#[trigger] frames.col_frame@[reg])@.len() == chip.columns@.len()
    &&& forall|reg: int| 0 <= reg < chip.regs ==> (#[trigger] frames.col_width@[reg])@.len() == chip.columns@.len()
    &&& forall|reg: int| 0 <= reg < chip.regs ==> (#[trigger] frames.bram_frame@[reg])@.len() == chip.columns@.len()
    &&& forall|reg: int|
        0 <= reg < chip.regs ==> #[trigger] frames.spine_frame@[reg] == v4_spine_frame(chip, region_pos(chip, reg))
    &&& forall|reg: int, c: int|
        0 <= reg < chip.regs && 0 <= c < chip.columns@.len() ==> #[trigger] frames.col_frame@[reg]@[c]
            == v4_col_frame(chip, region_pos(chip, reg), c)
    &&& forall|reg: int, c: int|
        0 <= reg < chip.regs && 0 <= c < chip.columns@.len() ==> #[trigger] frames.col_width@[reg]@[c]
            == v4_width(chip.columns@[c])
    &&& forall|reg: int, c: int|
        0 <= reg < chip.regs && 0 <= c < chip.columns@.len() ==> #[trigger] frames.bram_frame@[reg]@[c]
            == v4_bram_frame(chip, region_pos(chip, reg), c)
    &&& forall|reg: int, c: int, m: int|
        0 <= reg < chip.regs && 0 <= c < chip.columns@.len() && 0 <= m < v4_col_frames(chip, reg, c).len()
            ==> frame_views(info)[frames.col_frame@[reg]@[c] + m] == #[trigger] v4_col_frames(
            chip,
            reg,
            c,
        )[m]
    &&& forall|reg: int, c: int, m: int|
        0 <= reg < chip.regs && 0 <= c < chip.columns@.len() && 0 <= m < v4_bram_cfg_col(chip, reg, c).len()
            ==> frame_views(info)[frames.col_frame@[reg]@[c] + m] == #[trigger] v4_bram_cfg_col(
            chip,
            reg,
            c,
        )[m]
    &&& forall|reg: int, c: int, m: int|
        0 <= reg < chip.regs && 0 <= c < chip.columns@.len() && 0 <= m < bram_data_col(
            chip,
            reg,
            c,
            2,
            64,
            4,
        ).len() ==> frame_views(info)[frames.bram_frame@[reg]@[c].unwrap() + m]
            == #[trigger] bram_data_col(chip, reg, c, 2, 64, 4)[m]
}

/// The frame layout of a Virtex 4 chip.  The regions come in bitstream
/// order (see `region_order`); first the main frames of every region, then
/// the block RAM configuration frames of every region, then the block RAM
/// data frames of every region.
#[verifier::spinoff_prover]
pub fn v4_fill_frame_info(chip: &Chip) -> (r: FrameLayout)
    requires
        v4_layout_ok(*chip),
    ensures
        v4_frames_laid_out(*chip, r.frames, r.frame_info@),
{
    let ghost ch = *chip;
    let ghost ncols = chip.columns@.len();
    let ghost main = v4_main_fn(ch);
    let ghost cfgs = v4_bram_cfg_all_fn(ch);
    let ghost datas = v4_bram_data_all_fn(ch);
    proof {
        lemma_region_order_permutation(ch);
    }
    let order = frame_region_order(chip);
    let regs = chip.regs;
    let mut col_frame: Vec<Vec<usize>> = Vec::new();
    let mut col_width: Vec<Vec<usize>> = Vec::new();
    let mut bram_frame: Vec<Vec<Option<usize>>> = Vec::new();
    let mut spine_frame: Vec<usize> = Vec::new();
    let mut i: usize = 0;
    while i < regs
        invariant
            i <= regs,
            col_frame@.len() == i,
            col_width@.len() == i,
            bram_frame@.len() == i,
            spine_frame@.len() == i,
        decreases regs - i,
    {
        col_frame.push(Vec::new());
        col_width.push(Vec::new());
        bram_frame.push(Vec::new());
        spine_frame.push(0);
        i = i + 1;
    }
    let mut out: Vec<FrameInfo> = Vec::new();
    // main frames
    let mut p: usize = 0;
    while p < regs
        invariant
            ch == *chip,
            v4_layout_ok(ch),
            regs == ch.regs,
            ncols == ch.columns@.len(),
            main == v4_main_fn(ch),
            order@.len() == regs,
            forall|q: int| 0 <= q < regs ==> #[trigger] order@[q] == region_order(ch, q),
            forall|q: int| 0 <= q < regs ==> 0 <= #[trigger] region_order(ch, q) < regs,
            forall|q: int| 0 <= q < regs ==> #[trigger] region_pos(ch, region_order(ch, q)) == q,
            forall|reg: int| 0 <= reg < regs ==> 0 <= #[trigger] region_pos(ch, reg) < regs,
            p <= regs,
            frame_views(out@) == concat_map(p as nat, main),
            out@.len() == frame_views(out@).len(),
            col_frame@.len() == regs,
            col_width@.len() == regs,
            bram_frame@.len() == regs,
            spine_frame@.len() == regs,
            forall|reg: int|
                0 <= reg < regs && region_pos(ch, reg) < p ==> (#[trigger] col_frame@[reg])@.len() == ncols,
            forall|reg: int|
                0 <= reg < regs && region_pos(ch, reg) < p ==> (#[trigger] col_width@[reg])@.len() == ncols,
            forall|reg: int|
                0 <= reg < regs && region_pos(ch, reg) < p ==> #[trigger] spine_frame@[reg] == v4_spine_frame(
                    ch,
                    region_pos(ch, reg),
                ),
            forall|reg: int, c: int|
                0 <= reg < regs && region_pos(ch, reg) < p && 0 <= c < ncols ==> #[trigger] col_frame@[reg]@[c]
                    == concat_map(region_pos(ch, reg) as nat, main).len() + v4_main_frames(ch, reg, c as nat).len(),
            forall|reg: int, c: int|
                0 <= reg < regs && region_pos(ch, reg) < p && 0 <= c < ncols ==> #[trigger] col_width@[reg]@[c]
                    == v4_width(ch.columns@[c]),
        decreases regs - p,
    {
        let reg = order[p];
        proof {
            assert(concat_map((p + 1) as nat, main) == concat_map(p as nat, main) + main(p as int));
            assert(region_pos(ch, reg as int) == p);
        }
        let (cf, cw, sp) = v4_push_region(chip, reg, &mut out);
        col_frame.set(reg, cf);
        col_width.set(reg, cw);
        spine_frame.set(reg, sp);
        proof {
            assert(out@.len() == frame_views(out@).len());
        }
        p = p + 1;
    }
    // block RAM configuration frames
    let ghost main_len = concat_map(regs as nat, main).len();
    let mut p: usize = 0;
    while p < regs
        invariant
            ch == *chip,
            v4_layout_ok(ch),
            regs == ch.regs,
            ncols == ch.columns@.len(),
            main == v4_main_fn(ch),
            cfgs == v4_bram_cfg_all_fn(ch),
            main_len == concat_map(regs as nat, main).len(),
            order@.len() == regs,
            forall|q: int| 0 <= q < regs ==> #[trigger] order@[q] == region_order(ch, q),
            forall|q: int| 0 <= q < regs ==> 0 <= #[trigger] region_order(ch, q) < regs,
            forall|q: int| 0 <= q < regs ==> #[trigger] region_pos(ch, region_order(ch, q)) == q,
            forall|reg: int| 0 <= reg < regs ==> 0 <= #[trigger] region_pos(ch, reg) < regs,
            p <= regs,
            frame_views(out@) == concat_map(regs as nat, main) + concat_map(p as nat, cfgs),
            out@.len() == frame_views(out@).len(),
            col_frame@.len() == regs,
            col_width@.len() == regs,
            bram_frame@.len() == regs,
            spine_frame@.len() == regs,
            forall|reg: int| 0 <= reg < regs ==> (#[trigger] col_frame@[reg])@.len() == ncols,
            forall|reg: int| 0 <= reg < regs ==> (#[trigger] col_width@[reg])@.len() == ncols,
            forall|reg: int|
                0 <= reg < regs ==> #[trigger] spine_frame@[reg] == v4_spine_frame(ch, region_pos(ch, reg)),
            forall|reg: int, c: int|
                0 <= reg < regs && 0 <= c < ncols ==> #[trigger] col_frame@[reg]@[c] == if region_pos(ch, reg) < p {
                    v4_col_frame(ch, region_pos(ch, reg), c)
                } else {
                    concat_map(region_pos(ch, reg) as nat, main).len() + v4_main_frames(ch, reg, c as nat).len()
                },
            forall|reg: int, c: int|
                0 <= reg < regs && 0 <= c < ncols ==> #[trigger] col_width@[reg]@[c] == v4_width(ch.columns@[c]),
        decreases regs - p,
    {
        let reg = order[p];
        proof {
            assert(concat_map((p + 1) as nat, cfgs) == concat_map(p as nat, cfgs) + cfgs(p as int));
            assert(region_pos(ch, reg as int) == p);
        }
        let fixed = v4_push_bram_cfg(chip, reg, &mut out, &col_frame[reg]);
        col_frame.set(reg, fixed);
        proof {
            assert(out@.len() == frame_views(out@).len());
        }
        p = p + 1;
    }
    // block RAM data frames
    let ghost cfg_len = concat_map(regs as nat, cfgs).len();
    let mut p: usize = 0;
    while p < regs
        invariant
            ch == *chip,
            v4_layout_ok(ch),
            regs == ch.regs,
            ncols == ch.columns@.len(),
            main == v4_main_fn(ch),
            cfgs == v4_bram_cfg_all_fn(ch),
            datas == v4_bram_data_all_fn(ch),
            main_len == concat_map(regs as nat, main).len(),
            cfg_len == concat_map(regs as nat, cfgs).len(),
            order@.len() == regs,
            forall|q: int| 0 <= q < regs ==> #[trigger] order@[q] == region_order(ch, q),
            forall|q: int| 0 <= q < regs ==> 0 <= #[trigger] region_order(ch, q) < regs,
            forall|q: int| 0 <= q < regs ==> #[trigger] region_pos(ch, region_order(ch, q)) == q,
            forall|reg: int| 0 <= reg < regs ==> 0 <= #[trigger] region_pos(ch, reg) < regs,
            p <= regs,
            frame_views(out@) == concat_map(regs as nat, main) + concat_map(regs as nat, cfgs) + concat_map(
                p as nat,
                datas,
            ),
            out@.len() == frame_views(out@).len(),
            col_frame@.len() == regs,
            col_width@.len() == regs,
            bram_frame@.len() == regs,
            spine_frame@.len() == regs,
            forall|reg: int| 0 <= reg < regs ==> (#[trigger] col_frame@[reg])@.len() == ncols,
            forall|reg: int| 0 <= reg < regs ==> (#[trigger] col_width@[reg])@.len() == ncols,
            forall|reg: int|
                0 <= reg < regs && region_pos(ch, reg) < p ==> (#[trigger] bram_frame@[reg])@.len() == ncols,
            forall|reg: int|
                0 <= reg < regs ==> #[trigger] spine_frame@[reg] == v4_spine_frame(ch, region_pos(ch, reg)),
            forall|reg: int, c: int|
                0 <= reg < regs && 0 <= c < ncols ==> #[trigger] col_frame@[reg]@[c] == v4_col_frame(
                    ch,
                    region_pos(ch, reg),
                    c,
                ),
            forall|reg: int, c: int|
                0 <= reg < regs && 0 <= c < ncols ==> #[trigger] col_width@[reg]@[c] == v4_width(ch.columns@[c]),
            forall|reg: int, c: int|
                0 <= reg < regs && region_pos(ch, reg) < p && 0 <= c < ncols ==> #[trigger] bram_frame@[reg]@[c]
                    == v4_bram_frame(ch, region_pos(ch, reg), c),
        decreases regs - p,
    {
        let reg = order[p];
        proof {
            assert(concat_map((p + 1) as nat, datas) == concat_map(p as nat, datas) + datas(p as int));
            assert(region_pos(ch, reg as int) == p);
        }
        let bf = push_bram_data(chip, reg, 2, 64, 4, &mut out);
        bram_frame.set(reg, bf);
        proof {
            assert(out@.len() == frame_views(out@).len());
        }
        p = p + 1;
    }
    proof {
        let views = frame_views(out@);
        let a = concat_map(regs as nat, main);
        let b = concat_map(regs as nat, cfgs);
        let d = concat_map(regs as nat, datas);
        assert(views == a + b + d);
        assert forall|reg: int, c: int, m: int|
            0 <= reg < regs && 0 <= c < ncols && 0 <= m < v4_col_frames(ch, reg, c).len() implies views[col_frame@[reg]@[c]
            + m] == #[trigger] v4_col_frames(ch, reg, c)[m] by {
            let p = region_pos(ch, reg);
            lemma_v4_main_frame_at(ch, p, c, m);
            assert(col_frame@[reg]@[c] == v4_col_frame(ch, p, c));
        }
        assert forall|reg: int, c: int, m: int|
            0 <= reg < regs && 0 <= c < ncols && 0 <= m < v4_bram_cfg_col(ch, reg, c).len() implies views[col_frame@[reg]@[c]
            + m] == #[trigger] v4_bram_cfg_col(ch, reg, c)[m] by {
            let p = region_pos(ch, reg);
            lemma_v4_bram_frame_at(ch, p, c, m);
            assert(col_frame@[reg]@[c] == v4_col_frame(ch, p, c));
        }
        assert forall|reg: int, c: int, m: int|
            0 <= reg < regs && 0 <= c < ncols && 0 <= m < bram_data_col(ch, reg, c, 2, 64, 4).len()
                implies views[bram_frame@[reg]@[c].unwrap() + m] == #[trigger] bram_data_col(ch, reg, c, 2, 64, 4)[m] by {
            let p = region_pos(ch, reg);
            lemma_v4_bram_frame_at(ch, p, c, m);
            assert(bram_frame@[reg]@[c] == v4_bram_frame(ch, p, c));
            assert(out.len() as int == views.len());
        }
    }
    FrameLayout {
        frames: DieFrameGeom { col_frame, col_width, bram_frame, spine_frame },
        frame_info: out,
    }
}


// ---------------------------------------------------------------- Virtex 5

/// The number of frames of a column of the Virtex 5 (zero for the kinds it
/// does not have).
pub open spec fn v5_width(k: ColumnKind) -> nat {
    match k {
        ColumnKind::ClbLL | ColumnKind::ClbLM => 36,
        ColumnKind::Bram => 30,
        ColumnKind::Dsp => 28,
        ColumnKind::Io | ColumnKind::Cfg => 54,
        ColumnKind::Gt => 32,
        _ => 0,
    }
}

/// The Virtex 5 has columns of this kind.
pub open spec fn v5_kind_ok(k: ColumnKind) -> bool {
    k is ClbLL || k is ClbLM || k is Bram || k is Dsp || k is Io || k is Cfg || k is Gt
}

/// The chip can be laid out as a Virtex 5: each column is of a kind the
/// family has, and majors fit their field.
pub open spec fn v5_layout_ok(chip: Chip) -> bool {
    &&& forall|c: int| 0 <= c < chip.columns@.len() ==> v5_kind_ok(#[trigger] chip.columns@[c])
    &&& chip.columns@.len() + 2 <= u32::MAX
}

/// The major of column `c` of the Virtex 5: one per column before it, and one
/// more for the clock spine after the configuration column.
pub open spec fn v5_major(col_cfg: ColId, c: int) -> nat {
    (c + if col_cfg.0 < c { 1int } else { 0int }) as nat
}

/// The mask of a main frame of the Virtex 5, in two parts: the transceiver
/// DRP bits at minors 30 and 31 of a transceiver column; the DRP bits of the
/// clock rows that the configuration column holds near the configuration
/// region, at its minors 28 and 29 (and, in the configuration region itself,
/// in the lower part at minors 28 to 31).
pub open spec fn v5_mask(chip: Chip, reg: int, k: ColumnKind, minor: int) -> Seq<FrameMaskMode> {
    let cfg = chip.reg_cfg.0 as int;
    let d = FrameMaskMode::DrpHclk(27, 15);
    let hclk = minor == 28 || minor == 29;
    if k is Gt && (minor == 30 || minor == 31) {
        seq![FrameMaskMode::DrpHclk(28, 12), FrameMaskMode::DrpHclk(28, 12)]
    } else if k is Cfg {
        let both = reg + 3 == cfg || reg == cfg + 2;
        let low = (hclk && (both || reg + 2 == cfg)) || (28 <= minor < 32 && reg == cfg);
        let high = hclk && (both || reg == cfg + 1);
        seq![if low { d } else { FrameMaskMode::NoMask }, if high { d } else { FrameMaskMode::NoMask }]
    } else {
        seq![FrameMaskMode::NoMask, FrameMaskMode::NoMask]
    }
}

pub open spec fn v5_mask_fn(chip: Chip, reg: int, k: ColumnKind) -> spec_fn(int) -> Seq<FrameMaskMode> {
    |minor: int| v5_mask(chip, reg, k, minor)
}

/// The mask of a main frame of the Virtex 5.
fn v5_mask_of(chip: &Chip, reg: usize, k: ColumnKind, minor: u32) -> (r: Vec<FrameMaskMode>)
    ensures
        r@ == v5_mask(*chip, reg as int, k, minor as int),
{
    let cfg = chip.reg_cfg.0;
    let mut m0 = FrameMaskMode::NoMask;
    let mut m1 = FrameMaskMode::NoMask;
    if k == ColumnKind::Gt && (minor == 30 || minor == 31) {
        m0 = FrameMaskMode::DrpHclk(28, 12);
        m1 = FrameMaskMode::DrpHclk(28, 12);
    }
    if k == ColumnKind::Cfg && (minor == 28 || minor == 29) {
        if (reg < cfg && cfg - reg == 3) || (reg >= cfg && reg - cfg == 2) {
            m0 = FrameMaskMode::DrpHclk(27, 15);
            m1 = FrameMaskMode::DrpHclk(27, 15);
        } else if reg < cfg && cfg - reg == 2 {
            m0 = FrameMaskMode::DrpHclk(27, 15);
        } else if reg >= cfg && reg - cfg == 1 {
            m1 = FrameMaskMode::DrpHclk(27, 15);
        }
    }
    if k == ColumnKind::Cfg && 28 <= minor && minor < 32 && reg == cfg {
        m0 = FrameMaskMode::DrpHclk(27, 15);
    }
    let r = vec![m0, m1];
    assert(r@ =~= v5_mask(*chip, reg as int, k, minor as int));
    r
}

/// The number of frames of a column of the Virtex 5.
fn v5_width_of(k: ColumnKind) -> (r: u32)
    requires
        v5_kind_ok(k),
    ensures
        r == v5_width(k),
{
    match k {
        ColumnKind::ClbLL | ColumnKind::ClbLM => 36,
        ColumnKind::Bram => 30,
        ColumnKind::Dsp => 28,
        ColumnKind::Io | ColumnKind::Cfg => 54,
        _ => 32,
    }
}

/// The main frames of column `c` of a region of the Virtex 5: one major of
/// the column's width, and after the configuration column a major of four
/// clock spine frames.
pub open spec fn v5_col_frames(chip: Chip, col_cfg: ColId, reg: int, c: int) -> Seq<FrameView> {
    let k = chip.columns@[c];
    let region = region_addr(chip, reg);
    let major = v5_major(col_cfg, c);
    frame_run(0, region, major as u32, v5_width(k), v5_mask_fn(chip, reg, k)) + if c == col_cfg.0 {
        frame_run(0, region, (major + 1) as u32, 4, const_mask_fn(FrameMaskMode::NoMask, 2))
    } else {
        Seq::empty()
    }
}

pub open spec fn v5_col_fn(chip: Chip, col_cfg: ColId, reg: int) -> spec_fn(int) -> Seq<FrameView> {
    |c: int| v5_col_frames(chip, col_cfg, reg, c)
}

/// The main frames of the first `n` columns of a region of the Virtex 5.
pub open spec fn v5_main_frames(chip: Chip, col_cfg: ColId, reg: int, n: nat) -> Seq<FrameView> {
    concat_map(n, v5_col_fn(chip, col_cfg, reg))
}

/// Appends the `width` main frames of a Virtex 5 column.
fn v5_push_masked_run(
    chip: &Chip,
    reg: usize,
    k: ColumnKind,
    region: i32,
    major: u32,
    width: u32,
    out: &mut Vec<FrameInfo>,
)
    ensures
        frame_views(final(out)@) == frame_views(old(out)@) + frame_run(
            0,
            region,
            major,
            width as nat,
            v5_mask_fn(*chip, reg as int, k),
        ),
{
    let ghost start = frame_views(out@);
    let mut minor: u32 = 0;
    while minor < width
        invariant
            minor <= width,
            frame_views(out@) == start + frame_run(0, region, major, minor as nat, v5_mask_fn(*chip, reg as int, k)),
        decreases width - minor,
    {
        let f = FrameInfo {
            addr: FrameAddr { typ: 0, region, major, minor },
            mask_mode: v5_mask_of(chip, reg, k, minor),
        };
        proof {
            lemma_frame_views_push(out@, f);
        }
        out.push(f);
        minor = minor + 1;
        assert(frame_views(out@) =~= start + frame_run(0, region, major, minor as nat, v5_mask_fn(*chip, reg as int, k)));
    }
}

/// Appends the main frames of a region of the Virtex 5, and gives the first
/// frame and the width of each column, and the first clock spine frame
/// (zero where the configuration column is not a column of the chip).
fn v5_push_region(chip: &Chip, col_cfg: ColId, reg: usize, out: &mut Vec<FrameInfo>) -> (r: (
    Vec<usize>,
    Vec<usize>,
    usize,
))
    requires
        v5_layout_ok(*chip),
    ensures
        frame_views(final(out)@) == frame_views(old(out)@) + v5_main_frames(
            *chip,
            col_cfg,
            reg as int,
            chip.columns@.len(),
        ),
        r.0@.len() == chip.columns@.len(),
        r.1@.len() == chip.columns@.len(),
        forall|c: int|
            0 <= c < chip.columns@.len() ==> #[trigger] r.0@[c] == old(out)@.len() + v5_main_frames(
                *chip,
                col_cfg,
                reg as int,
                c as nat,
            ).len(),
        forall|c: int| 0 <= c < chip.columns@.len() ==> #[trigger] r.1@[c] == v5_width(chip.columns@[c]),
        r.2 == if col_cfg.0 < chip.columns@.len() {
            old(out)@.len() + v5_main_frames(*chip, col_cfg, reg as int, col_cfg.0 as nat).len() + v5_width(
                chip.columns@[col_cfg.0 as int],
            )
        } else {
            0
        },
{
    let ghost start = frame_views(out@);
    let ghost start_len = out@.len();
    let ghost ch = *chip;
    let region = region_addr_of(chip, reg);
    let ncols = chip.columns.len();
    let mut col_frame: Vec<usize> = Vec::new();
    let mut col_width: Vec<usize> = Vec::new();
    let mut spine: usize = 0;
    let mut major: u32 = 0;
    let mut c: usize = 0;
    while c < ncols
        invariant
            ch == *chip,
            v5_layout_ok(ch),
            ncols == ch.columns@.len(),
            region == region_addr(ch, reg as int),
            c <= ncols,
            start_len == start.len(),
            frame_views(out@) == start + v5_main_frames(ch, col_cfg, reg as int, c as nat),
            out@.len() == frame_views(out@).len(),
            major == v5_major(col_cfg, c as int),
            col_frame@.len() == c,
            col_width@.len() == c,
            forall|j: int|
                0 <= j < c ==> #[trigger] col_frame@[j] == start_len + v5_main_frames(
                    ch,
                    col_cfg,
                    reg as int,
                    j as nat,
                ).len(),
            forall|j: int| 0 <= j < c ==> #[trigger] col_width@[j] == v5_width(ch.columns@[j]),
            spine == if col_cfg.0 < c {
                start_len + v5_main_frames(ch, col_cfg, reg as int, col_cfg.0 as nat).len() + v5_width(
                    ch.columns@[col_cfg.0 as int],
                )
            } else {
                0
            },
        decreases ncols - c,
    {
        proof {
            assert(v5_main_frames(ch, col_cfg, reg as int, (c + 1) as nat) == v5_main_frames(
                ch,
                col_cfg,
                reg as int,
                c as nat,
            ) + v5_col_frames(ch, col_cfg, reg as int, c as int));
        }
        let cd = chip.columns[c];
        assert(v5_kind_ok(cd));
        col_frame.push(out.len());
        let width = v5_width_of(cd);
        col_width.push(width as usize);
        v5_push_masked_run(chip, reg, cd, region, major, width, out);
        major = major + 1;
        if c == col_cfg.0 {
            spine = out.len();
            push_const_run(out, 0, region, major, 4, FrameMaskMode::NoMask, 2);
            major = major + 1;
        }
        proof {
            assert(out@.len() == frame_views(out@).len());
            assert(const_mask_fn(FrameMaskMode::NoMask, 2) == const_mask_fn(FrameMaskMode::NoMask, 2usize as nat));
        }
        c = c + 1;
    }
    (col_frame, col_width, spine)
}

/// The main frames of the `p`-th region in bitstream order on the Virtex 5.
pub open spec fn v5_main_fn(chip: Chip, col_cfg: ColId) -> spec_fn(int) -> Seq<FrameView> {
    |p: int| v5_main_frames(chip, col_cfg, region_order(chip, p), chip.columns@.len())
}

/// The block RAM data frames of a region of the Virtex 5: a hundred and
/// twenty-eight frames of type 1 for each block RAM column.
pub open spec fn v5_bram_data_fn(chip: Chip, reg: int) -> spec_fn(int) -> Seq<FrameView> {
    bram_data_fn(chip, reg, 1, 128, 2)
}

/// The block RAM data frames of the `p`-th region in bitstream order on the Virtex 5.
pub open spec fn v5_bram_data_all_fn(chip: Chip) -> spec_fn(int) -> Seq<FrameView> {
    |p: int| concat_map(chip.columns@.len(), v5_bram_data_fn(chip, region_order(chip, p)))
}

/// The first data frame of block RAM column `c` of the `p`-th region in
/// bitstream order on the Virtex 5.
pub open spec fn v5_bram_frame(chip: Chip, col_cfg: ColId, p: int, c: int) -> Option<usize> {
    if chip.columns@[c] is Bram {
        Some(
            (concat_map(chip.regs as nat, v5_main_fn(chip, col_cfg)).len() + concat_map(
                p as nat,
                v5_bram_data_all_fn(chip),
            ).len() + concat_map(c as nat, v5_bram_data_fn(chip, region_order(chip, p))).len()) as usize,
        )
    } else {
        None
    }
}

/// The first clock spine frame of the `p`-th region in bitstream order on
/// the Virtex 5: right after the frames of the configuration column (zero
/// where that is not a column of the chip).
pub open spec fn v5_spine_frame(chip: Chip, col_cfg: ColId, p: int) -> nat {
    if col_cfg.0 < chip.columns@.len() {
        concat_map(p as nat, v5_main_fn(chip, col_cfg)).len() + v5_main_frames(
            chip,
            col_cfg,
            region_order(chip, p),
            col_cfg.0 as nat,
        ).len() + v5_width(chip.columns@[col_cfg.0 as int])
    } else {
        0
    }
}

/// Frame `m` of column `c` of the `p`-th region lies in the main frames at
/// the column's first frame plus `m`; likewise for the block RAM data frames.
proof fn lemma_v5_frame_at(chip: Chip, col_cfg: ColId, p: int, c: int, m: int)
    requires
        0 <= p < chip.regs,
        0 <= c < chip.columns@.len(),
    ensures
        0 <= m < v5_col_frames(chip, col_cfg, region_order(chip, p), c).len() ==> ({
            let i = concat_map(p as nat, v5_main_fn(chip, col_cfg)).len() + v5_main_frames(
                chip,
                col_cfg,
                region_order(chip, p),
                c as nat,
            ).len() + m;
            &&& i < concat_map(chip.regs as nat, v5_main_fn(chip, col_cfg)).len()
            &&& concat_map(chip.regs as nat, v5_main_fn(chip, col_cfg))[i] == v5_col_frames(
                chip,
                col_cfg,
                region_order(chip, p),
                c,
            )[m]
        }),
        0 <= m < bram_data_col(chip, region_order(chip, p), c, 1, 128, 2).len() ==> ({
            let i = concat_map(p as nat, v5_bram_data_all_fn(chip)).len() + concat_map(
                c as nat,
                v5_bram_data_fn(chip, region_order(chip, p)),
            ).len() + m;
            &&& i < concat_map(chip.regs as nat, v5_bram_data_all_fn(chip)).len()
            &&& concat_map(chip.regs as nat, v5_bram_data_all_fn(chip))[i] == bram_data_col(
                chip,
                region_order(chip, p),
                c,
                1,
                128,
                2,
            )[m]
        }),
{
    let reg = region_order(chip, p);
    if 0 <= m < v5_col_frames(chip, col_cfg, reg, c).len() {
        lemma_concat_map_index(chip.columns@.len(), v5_col_fn(chip, col_cfg, reg), c, m);
        let t = v5_main_frames(chip, col_cfg, reg, c as nat).len() + m;
        lemma_concat_map_index(chip.regs as nat, v5_main_fn(chip, col_cfg), p, t);
    }
    if 0 <= m < bram_data_col(chip, reg, c, 1, 128, 2).len() {
        lemma_concat_map_index(chip.columns@.len(), v5_bram_data_fn(chip, reg), c, m);
        let t = concat_map(c as nat, v5_bram_data_fn(chip, reg)).len() + m;
        lemma_concat_map_index(chip.regs as nat, v5_bram_data_all_fn(chip), p, t);
    }
}

/// The frames of a Virtex 5 die are laid out as the chip asks: the frame
/// table and, for each region and column, where its frames start, how
/// many there are and what they are.
pub open spec fn v5_frames_laid_out(chip: Chip, col_cfg: ColId, frames: DieFrameGeom, info: Seq<FrameInfo>) -> bool {
    &&& frame_views(info) == concat_map(chip.regs as nat, v5_main_fn(chip, col_cfg)) + concat_map(
        chip.regs as nat,
        v5_bram_data_all_fn(chip),
    )
    &&& frames.col_frame@.len() == chip.regs
    &&& frames.col_width@.len() == chip.regs
    &&& frames.bram_frame@.len() == chip.regs
    &&& frames.spine_frame@.len() == chip.regs
    &&& forall|reg: int| 0 <= reg < chip.regs ==> (#[trigger] frames.col_frame@[reg])@.len() == chip.columns@.len()
    &&& forall|reg: int| 0 <= reg < chip.regs ==> (#[trigger] frames.col_width@[reg])@.len() == chip.columns@.len()
    &&& forall|reg: int| 0 <= reg < chip.regs ==> (#[trigger] frames.bram_frame@[reg])@.len() == chip.columns@.len()
    &&& forall|reg: int|
        0 <= reg < chip.regs ==> #[trigger] frames.spine_frame@[reg] == v5_spine_frame(
            chip,
            col_cfg,
            region_pos(chip, reg),
        )
    &&& forall|reg: int, c: int|
        0 <= reg < chip.regs && 0 <= c < chip.columns@.len() ==> #[trigger] frames.col_frame@[reg]@[c]
            == concat_map(region_pos(chip, reg) as nat, v5_main_fn(chip, col_cfg)).len() + v5_main_frames(
            chip,
            col_cfg,
            reg,
            c as nat,
        ).len()
    &&& forall|reg: int, c: int|
        0 <= reg < chip.regs && 0 <= c < chip.columns@.len() ==> #[trigger] frames.col_width@[reg]@[c]
            == v5_width(chip.columns@[c])
    &&& forall|reg: int, c: int|
        0 <= reg < chip.regs && 0 <= c < chip.columns@.len() ==> #[trigger] frames.bram_frame@[reg]@[c]
            == v5_bram_frame(chip, col_cfg, region_pos(chip, reg), c)
    &&& forall|reg: int, c: int, m: int|
        0 <= reg < chip.regs && 0 <= c < chip.columns@.len() && 0 <= m < v5_col_frames(chip, col_cfg, reg, c).len()
            ==> frame_views(info)[frames.col_frame@[reg]@[c] + m] == #[trigger] v5_col_frames(
            chip,
            col_cfg,
            reg,
            c,
        )[m]
    &&& forall|reg: int, c: int, m: int|
        0 <= reg < chip.regs && 0 <= c < chip.columns@.len() && 0 <= m < bram_data_col(
            chip,
            reg,
            c,
            1,
            128,
            2,
        ).len() ==> frame_views(info)[frames.bram_frame@[reg]@[c].unwrap() + m]
            == #[trigger] bram_data_col(chip, reg, c, 1, 128, 2)[m]
}

/// The frame layout of a Virtex 5 chip whose configuration column is
/// `col_cfg`.  The regions come in bitstream order (see `region_order`);
/// first the main frames of every region, then the block RAM data frames of
/// every region.
#[verifier::spinoff_prover]
pub fn v5_fill_frame_info(chip: &Chip, col_cfg: ColId) -> (r: FrameLayout)
    requires
        v5_layout_ok(*chip),
    ensures
        v5_frames_laid_out(*chip, col_cfg, r.frames, r.frame_info@),
{
    let ghost ch = *chip;
    let ghost ncols = chip.columns@.len();
    let ghost main = v5_main_fn(ch, col_cfg);
    let ghost datas = v5_bram_data_all_fn(ch);
    proof {
        lemma_region_order_permutation(ch);
    }
    let order = frame_region_order(chip);
    let regs = chip.regs;
    let mut col_frame: Vec<Vec<usize>> = Vec::new();
    let mut col_width: Vec<Vec<usize>> = Vec::new();
    let mut bram_frame: Vec<Vec<Option<usize>>> = Vec::new();
    let mut spine_frame: Vec<usize> = Vec::new();
    let mut i: usize = 0;
    while i < regs
        invariant
            i <= regs,
            col_frame@.len() == i,
            col_width@.len() == i,
            bram_frame@.len() == i,
            spine_frame@.len() == i,
        decreases regs - i,
    {
        col_frame.push(Vec::new());
        col_width.push(Vec::new());
        bram_frame.push(Vec::new());
        spine_frame.push(0);
        i = i + 1;
    }
    let mut out: Vec<FrameInfo> = Vec::new();
    // main frames
    let mut p: usize = 0;
    while p < regs
        invariant
            ch == *chip,
            v5_layout_ok(ch),
            regs == ch.regs,
            ncols == ch.columns@.len(),
            main == v5_main_fn(ch, col_cfg),
            order@.len() == regs,
            forall|q: int| 0 <= q < regs ==> #[trigger] order@[q] == region_order(ch, q),
            forall|q: int| 0 <= q < regs ==> 0 <= #[trigger] region_order(ch, q) < regs,
            forall|q: int| 0 <= q < regs ==> #[trigger] region_pos(ch, region_order(ch, q)) == q,
            forall|reg: int| 0 <= reg < regs ==> 0 <= #[trigger] region_pos(ch, reg) < regs,
            p <= regs,
            frame_views(out@) == concat_map(p as nat, main),
            out@.len() == frame_views(out@).len(),
            col_frame@.len() == regs,
            col_width@.len() == regs,
            bram_frame@.len() == regs,
            spine_frame@.len() == regs,
            forall|reg: int|
                0 <= reg < regs && region_pos(ch, reg) < p ==> (#[trigger] col_frame@[reg])@.len() == ncols,
            forall|reg: int|
                0 <= reg < regs && region_pos(ch, reg) < p ==> (#[trigger] col_width@[reg])@.len() == ncols,
            forall|reg: int|
                0 <= reg < regs && region_pos(ch, reg) < p ==> #[trigger] spine_frame@[reg] == v5_spine_frame(
                    ch,
                    col_cfg,
                    region_pos(ch, reg),
                ),
            forall|reg: int, c: int|
                0 <= reg < regs && region_pos(ch, reg) < p && 0 <= c < ncols ==> #[trigger] col_frame@[reg]@[c]
                    == concat_map(region_pos(ch, reg) as nat, main).len() + v5_main_frames(
                    ch,
                    col_cfg,
                    reg,
                    c as nat,
                ).len(),
            forall|reg: int, c: int|
                0 <= reg < regs && region_pos(ch, reg) < p && 0 <= c < ncols ==> #[trigger] col_width@[reg]@[c]
                    == v5_width(ch.columns@[c]),
        decreases regs - p,
    {
        let reg = order[p];
        proof {
            assert(concat_map((p + 1) as nat, main) == concat_map(p as nat, main) + main(p as int));
            assert(region_pos(ch, reg as int) == p);
        }
        let (cf, cw, sp) = v5_push_region(chip, col_cfg, reg, &mut out);
        col_frame.set(reg, cf);
        col_width.set(reg, cw);
        spine_frame.set(reg, sp);
        proof {
            assert(out@.len() == frame_views(out@).len());
        }
        p = p + 1;
    }
    // block RAM data frames
    let ghost main_len = concat_map(regs as nat, main).len();
    let mut p: usize = 0;
    while p < regs
        invariant
            ch == *chip,
            v5_layout_ok(ch),
            regs == ch.regs,
            ncols == ch.columns@.len(),
            main == v5_main_fn(ch, col_cfg),
            datas == v5_bram_data_all_fn(ch),
            main_len == concat_map(regs as nat, main).len(),
            order@.len() == regs,
            forall|q: int| 0 <= q < regs ==> #[trigger] order@[q] == region_order(ch, q),
            forall|q: int| 0 <= q < regs ==> 0 <= #[trigger] region_order(ch, q) < regs,
            forall|q: int| 0 <= q < regs ==> #[trigger] region_pos(ch, region_order(ch, q)) == q,
            forall|reg: int| 0 <= reg < regs ==> 0 <= #[trigger] region_pos(ch, reg) < regs,
            p <= regs,
            frame_views(out@) == concat_map(regs as nat, main) + concat_map(p as nat, datas),
            out@.len() == frame_views(out@).len(),
            col_frame@.len() == regs,
            col_width@.len() == regs,
            bram_frame@.len() == regs,
            spine_frame@.len() == regs,
            forall|reg: int| 0 <= reg < regs ==> (#[trigger] col_frame@[reg])@.len() == ncols,
            forall|reg: int| 0 <= reg < regs ==> (#[trigger] col_width@[reg])@.len() == ncols,
            forall|reg: int|
                0 <= reg < regs && region_pos(ch, reg) < p ==> (#[trigger] bram_frame@[reg])@.len() == ncols,
            forall|reg: int|
                0 <= reg < regs ==> #[trigger] spine_frame@[reg] == v5_spine_frame(ch, col_cfg, region_pos(ch, reg)),
            forall|reg: int, c: int|
                0 <= reg < regs && 0 <= c < ncols ==> #[trigger] col_frame@[reg]@[c] == concat_map(
                    region_pos(ch, reg) as nat,
                    main,
                ).len() + v5_main_frames(ch, col_cfg, reg, c as nat).len(),
            forall|reg: int, c: int|
                0 <= reg < regs && 0 <= c < ncols ==> #[trigger] col_width@[reg]@[c] == v5_width(ch.columns@[c]),
            forall|reg: int, c: int|
                0 <= reg < regs && region_pos(ch, reg) < p && 0 <= c < ncols ==> #[trigger] bram_frame@[reg]@[c]
                    == v5_bram_frame(ch, col_cfg, region_pos(ch, reg), c),
        decreases regs - p,
    {
        let reg = order[p];
        proof {
            assert(concat_map((p + 1) as nat, datas) == concat_map(p as nat, datas) + datas(p as int));
            assert(region_pos(ch, reg as int) == p);
        }
        let bf = push_bram_data(chip, reg, 1, 128, 2, &mut out);
        bram_frame.set(reg, bf);
        proof {
            assert(out@.len() == frame_views(out@).len());
        }
        p = p + 1;
    }
    proof {
        let views = frame_views(out@);
        let a = concat_map(regs as nat, main);
        let d = concat_map(regs as nat, datas);
        assert(views == a + d);
        assert forall|reg: int, c: int, m: int|
            0 <= reg < regs && 0 <= c < ncols && 0 <= m < v5_col_frames(ch, col_cfg, reg, c).len() implies views[col_frame@[reg]@[c]
            + m] == #[trigger] v5_col_frames(ch, col_cfg, reg, c)[m] by {
            let p = region_pos(ch, reg);
            lemma_v5_frame_at(ch, col_cfg, p, c, m);
        }
        assert forall|reg: int, c: int, m: int|
            0 <= reg < regs && 0 <= c < ncols && 0 <= m < bram_data_col(ch, reg, c, 1, 128, 2).len()
                implies views[bram_frame@[reg]@[c].unwrap() + m] == #[trigger] bram_data_col(ch, reg, c, 1, 128, 2)[m] by {
            let p = region_pos(ch, reg);
            lemma_v5_frame_at(ch, col_cfg, p, c, m);
            assert(bram_frame@[reg]@[c] == v5_bram_frame(ch, col_cfg, p, c));
            assert(out.len() as int == views.len());
        }
    }
    FrameLayout {
        frames: DieFrameGeom { col_frame, col_width, bram_frame, spine_frame },
        frame_info: out,
    }
}

// ---------------------------------------------------------------- Virtex 7

/// The number of frames of a column of the Virtex 7.
pub open spec fn v7_width(k: ColumnKind) -> nat {
    match k {
        ColumnKind::ClbLL | ColumnKind::ClbLM => 36,
        ColumnKind::Bram | ColumnKind::Dsp => 28,
        ColumnKind::Io => 42,
        ColumnKind::Cmt | ColumnKind::Cfg | ColumnKind::Clk => 30,
        ColumnKind::Gt => 32,
    }
}

/// The region number of the frame addresses of a region of the Virtex 7:
/// zero on a chip of a single region.
pub open spec fn v7_region(chip: Chip, reg: int) -> i32 {
    if chip.regs == 1 {
        0
    } else {
        region_addr(chip, reg)
    }
}

/// Some transceiver column description of column `c` has a transceiver in region `reg`.
pub open spec fn v7_any_gt_in_reg(chip: Chip, c: int, reg: int) -> bool {
    exists|i: int|
        0 <= i < chip.cols_gt@.len() && (#[trigger] chip.cols_gt@[i]).col.0 == c && chip.cols_gt@[i].regs@[reg] is Some
}

/// Column `c` has a transceiver column description, and the first one has a
/// transceiver in region `reg`.
pub open spec fn v7_first_gt_in_reg(chip: Chip, c: int, reg: int) -> bool {
    &&& exists|i: int| 0 <= i < chip.cols_gt@.len() && (#[trigger] chip.cols_gt@[i]).col.0 == c
    &&& chip.cols_gt@[first_gt_col(chip.cols_gt@, ColId(c as usize))].regs@[reg] is Some
}

/// The DRP minors of a transceiver column.
pub open spec fn v7_gt_minor(minor: int) -> bool {
    28 <= minor < 32
}

/// The DRP minors of a clock row.
pub open spec fn v7_hclk_minor(minor: int) -> bool {
    minor == 28 || minor == 29
}

/// The mask of a main frame of the Virtex 7 from the column alone: the
/// transceiver DRP bits of a transceiver region, the clock management DRP
/// bits of a CMT column, the configuration column's clock row in the
/// configuration region.
pub open spec fn v7_col_mask(chip: Chip, reg: int, c: int, minor: int) -> Seq<FrameMaskMode> {
    let k = chip.columns@[c];
    let m = if k is Cmt && v7_hclk_minor(minor) {
        seq![FrameMaskMode::CmtDrpHclk(24, 13), FrameMaskMode::CmtDrpHclk(25, 13)]
    } else if v7_any_gt_in_reg(chip, c, reg) && v7_gt_minor(minor) {
        seq![FrameMaskMode::DrpHclk(24, 13), FrameMaskMode::DrpHclk(25, 13)]
    } else {
        seq![FrameMaskMode::NoMask, FrameMaskMode::NoMask]
    };
    if k is Cfg && v7_hclk_minor(minor) && reg == chip.reg_cfg.0 {
        m.update(1, FrameMaskMode::DrpHclk(25, 13))
    } else {
        m
    }
}

/// The mask after the first `k` PCIE2 blocks: a block whose bottom row is the
/// bottom row of the region masks the lower part of the clock row frames of
/// the column that holds its DRP bits.
pub open spec fn v7_pcie2_mask(chip: Chip, reg: int, c: int, minor: int, k: nat) -> Seq<FrameMaskMode>
    decreases k,
{
    if k == 0 {
        v7_col_mask(chip, reg, c, minor)
    } else {
        let m = v7_pcie2_mask(chip, reg, c, minor, (k - 1) as nat);
        let h = chip.holes_pcie2@[k - 1];
        if v7_hclk_minor(minor) && chip.sp_row_reg_bot(reg) == h.row.0 {
            match h.side {
                DirH::W => if c == h.col.0 + 3 {
                    m.update(0, FrameMaskMode::PcieLeftDrpHclk(24, 13))
                } else {
                    m
                },
                DirH::E => if c == h.col.0 {
                    m.update(0, FrameMaskMode::DrpHclk(24, 13))
                } else {
                    m
                },
            }
        } else {
            m
        }
    }
}

/// The mask after the first `k` PCIE3 blocks: a block masks the clock row
/// frames of the column four to its right, the lower part in the region
/// above it and the upper part in its own region.
pub open spec fn v7_pcie3_mask(chip: Chip, reg: int, c: int, minor: int, k: nat) -> Seq<FrameMaskMode>
    decreases k,
{
    if k == 0 {
        v7_pcie2_mask(chip, reg, c, minor, chip.holes_pcie2@.len())
    } else {
        let m = v7_pcie3_mask(chip, reg, c, minor, (k - 1) as nat);
        let (hc, hr) = chip.holes_pcie3@[k - 1];
        let hclk = chip.sp_row_reg_hclk(reg);
        let here = v7_hclk_minor(minor) && c == hc.0 + 4;
        let m1 = if here && hclk == hr.0 + 50 {
            m.update(0, FrameMaskMode::DrpHclk(24, 13))
        } else {
            m
        };
        if here && hclk == hr.0 {
            m1.update(1, FrameMaskMode::DrpHclk(24, 13))
        } else {
            m1
        }
    }
}

/// The mask of a main frame of the Virtex 7.
pub open spec fn v7_mask(chip: Chip, reg: int, c: int, minor: int) -> Seq<FrameMaskMode> {
    v7_pcie3_mask(chip, reg, c, minor, chip.holes_pcie3@.len())
}

pub open spec fn v7_mask_fn(chip: Chip, reg: int, c: int) -> spec_fn(int) -> Seq<FrameMaskMode> {
    |minor: int| v7_mask(chip, reg, c, minor)
}

/// The mask of the frames of a transceiver column at the east edge.
pub open spec fn v7_gt_mask_fn() -> spec_fn(int) -> Seq<FrameMaskMode> {
    |minor: int| if v7_gt_minor(minor) {
        seq![FrameMaskMode::DrpHclk(24, 13), FrameMaskMode::DrpHclk(25, 13)]
    } else {
        seq![FrameMaskMode::NoMask, FrameMaskMode::NoMask]
    }
}

/// The chip can be laid out as a Virtex 7: transceiver column descriptions
/// cover every region, a chip with a transceiver column left of its last
/// column has at least seven columns, majors fit their field, and the rows
/// and columns that the layout computes fit the index range.
pub open spec fn v7_layout_ok(chip: Chip) -> bool {
    &&& forall|i: int|
        0 <= i < chip.cols_gt@.len() && (#[trigger] chip.cols_gt@[i]).col.0 < chip.columns@.len()
            ==> chip.cols_gt@[i].regs@.len() >= chip.regs
    &&& forall|i: int|
        0 <= i < chip.cols_gt@.len() && (#[trigger] chip.cols_gt@[i]).col.0 + 1 < chip.columns@.len()
            ==> chip.columns@.len() >= 7
    &&& chip.columns@.len() <= u32::MAX
    &&& chip.regs * chip.sp_rpr() + chip.sp_rpr() <= usize::MAX
    &&& forall|i: int| 0 <= i < chip.holes_pcie2@.len() ==> (#[trigger] chip.holes_pcie2@[i]).col.0 + 3 <= usize::MAX
    &&& forall|i: int|
        0 <= i < chip.holes_pcie3@.len() ==> (#[trigger] chip.holes_pcie3@[i]).0.0 + 4 <= usize::MAX
            && chip.holes_pcie3@[i].1.0 + 50 <= usize::MAX
}

proof fn lemma_v7_pcie2_mask_len(chip: Chip, reg: int, c: int, minor: int, k: nat)
    ensures
        v7_pcie2_mask(chip, reg, c, minor, k).len() == 2,
    decreases k,
{
    if k > 0 {
        lemma_v7_pcie2_mask_len(chip, reg, c, minor, (k - 1) as nat);
    }
}

proof fn lemma_v7_pcie3_mask_len(chip: Chip, reg: int, c: int, minor: int, k: nat)
    ensures
        v7_pcie3_mask(chip, reg, c, minor, k).len() == 2,
    decreases k,
{
    if k > 0 {
        lemma_v7_pcie3_mask_len(chip, reg, c, minor, (k - 1) as nat);
    } else {
        lemma_v7_pcie2_mask_len(chip, reg, c, minor, chip.holes_pcie2@.len());
    }
}

/// Whether some transceiver column description of a column has a
/// transceiver in a region.
fn any_gt_in_reg(chip: &Chip, c: usize, reg: usize) -> (r: bool)
    requires
        v7_layout_ok(*chip),
        c < chip.columns@.len(),
        reg < chip.regs,
    ensures
        r == v7_any_gt_in_reg(*chip, c as int, reg as int),
{
    let mut i: usize = 0;
    while i < chip.cols_gt.len()
        invariant
            v7_layout_ok(*chip),
            c < chip.columns@.len(),
            reg < chip.regs,
            i <= chip.cols_gt@.len(),
            forall|j: int|
                0 <= j < i ==> !((#[trigger] chip.cols_gt@[j]).col.0 == c && chip.cols_gt@[j].regs@[reg as int] is Some),
        decreases chip.cols_gt@.len() - i,
    {
        let gt = &chip.cols_gt[i];
        if gt.col.0 == c {
            assert(chip.cols_gt@[i as int].col.0 < chip.columns@.len());
            if gt.regs[reg].is_some() {
                assert(chip.cols_gt@[i as int].col.0 == c);
                return true;
            }
        }
        i = i + 1;
    }
    false
}

/// Whether the first transceiver column description of a column has a
/// transceiver in a region.
fn first_gt_in_reg(chip: &Chip, c: usize, reg: usize) -> (r: bool)
    requires
        v7_layout_ok(*chip),
        c < chip.columns@.len(),
        reg < chip.regs,
    ensures
        r == v7_first_gt_in_reg(*chip, c as int, reg as int),
        r ==> 0 <= first_gt_col(chip.cols_gt@, ColId(c)) < chip.cols_gt@.len() && chip.cols_gt@[first_gt_col(
            chip.cols_gt@,
            ColId(c),
        )].col == ColId(c),
{
    let ghost gi = first_gt_col(chip.cols_gt@, ColId(c));
    match chip.get_col_gt(ColId(c)) {
        Some(gtcol) => {
            proof {
                let i = choose|i: int|
                    0 <= i < chip.cols_gt@.len() && *gtcol == chip.cols_gt@[i] && gtcol.col == ColId(c)
                        && forall|j: int| 0 <= j < i ==> (#[trigger] chip.cols_gt@[j]).col != ColId(c);
                assert(chip.cols_gt@[i].col.0 == c);
                if i < gi {
                    assert(chip.cols_gt@[i].col != ColId(c));
                }
                if gi < i {
                    assert(chip.cols_gt@[gi].col != ColId(c));
                }
                assert(i == gi);
            }
            gtcol.regs[reg].is_some()
        },
        None => {
            proof {
                if exists|i: int| 0 <= i < chip.cols_gt@.len() && (#[trigger] chip.cols_gt@[i]).col.0 == c {
                    let i = choose|i: int| 0 <= i < chip.cols_gt@.len() && (#[trigger] chip.cols_gt@[i]).col.0 == c;
                    assert(chip.cols_gt@[i].col == ColId(c));
                }
            }
            false
        },
    }
}

/// The mask of a main frame of the Virtex 7.
fn v7_mask_of(chip: &Chip, reg: usize, c: usize, minor: u32) -> (r: Vec<FrameMaskMode>)
    requires
        v7_layout_ok(*chip),
        c < chip.columns@.len(),
        reg < chip.regs,
    ensures
        r@ == v7_mask(*chip, reg as int, c as int, minor as int),
{
    let k = chip.columns[c];
    let hclk_minor = minor == 28 || minor == 29;
    let mut m0 = FrameMaskMode::NoMask;
    let mut m1 = FrameMaskMode::NoMask;
    if 28 <= minor && minor < 32 && any_gt_in_reg(chip, c, reg) {
        m0 = FrameMaskMode::DrpHclk(24, 13);
        m1 = FrameMaskMode::DrpHclk(25, 13);
    }
    if k == ColumnKind::Cmt && hclk_minor {
        m0 = FrameMaskMode::CmtDrpHclk(24, 13);
        m1 = FrameMaskMode::CmtDrpHclk(25, 13);
    }
    if k == ColumnKind::Cfg && hclk_minor && reg == chip.reg_cfg.0 {
        m1 = FrameMaskMode::DrpHclk(25, 13);
    }
    let mut mask = vec![m0, m1];
    assert(mask@ =~= v7_pcie2_mask(*chip, reg as int, c as int, minor as int, 0));
    proof {
        let rpr = chip.sp_rpr() as int;
        assert(reg * rpr <= chip.regs * rpr) by (nonlinear_arith)
            requires
                reg < chip.regs,
                rpr >= 0,
        ;
    }
    let bot = chip.row_reg_bot(RegId(reg)).0;
    let hclk = chip.row_reg_hclk(RegId(reg)).0;
    let mut i: usize = 0;
    while i < chip.holes_pcie2.len()
        invariant
            v7_layout_ok(*chip),
            reg < chip.regs,
            hclk_minor == v7_hclk_minor(minor as int),
            bot == chip.sp_row_reg_bot(reg as int),
            i <= chip.holes_pcie2@.len(),
            mask@ == v7_pcie2_mask(*chip, reg as int, c as int, minor as int, i as nat),
        decreases chip.holes_pcie2@.len() - i,
    {
        proof {
            lemma_v7_pcie2_mask_len(*chip, reg as int, c as int, minor as int, i as nat);
        }
        let hole = chip.holes_pcie2[i];
        assert(hole.col.0 + 3 <= usize::MAX);
        if hclk_minor && bot == hole.row.0 {
            match hole.side {
                DirH::W => {
                    if c == hole.col.0 + 3 {
                        mask.set(0, FrameMaskMode::PcieLeftDrpHclk(24, 13));
                    }
                },
                DirH::E => {
                    if c == hole.col.0 {
                        mask.set(0, FrameMaskMode::DrpHclk(24, 13));
                    }
                },
            }
        }
        i = i + 1;
    }
    let mut i: usize = 0;
    while i < chip.holes_pcie3.len()
        invariant
            v7_layout_ok(*chip),
            reg < chip.regs,
            hclk_minor == v7_hclk_minor(minor as int),
            hclk == chip.sp_row_reg_hclk(reg as int),
            i <= chip.holes_pcie3@.len(),
            mask@ == v7_pcie3_mask(*chip, reg as int, c as int, minor as int, i as nat),
        decreases chip.holes_pcie3@.len() - i,
    {
        proof {
            lemma_v7_pcie3_mask_len(*chip, reg as int, c as int, minor as int, i as nat);
        }
        let (hcol, hrow) = chip.holes_pcie3[i];
        assert(hcol.0 + 4 <= usize::MAX && hrow.0 + 50 <= usize::MAX);
        if hclk_minor && c == hcol.0 + 4 && hclk == hrow.0 + 50 {
            mask.set(0, FrameMaskMode::DrpHclk(24, 13));
        }
        if hclk_minor && c == hcol.0 + 4 && hclk == hrow.0 {
            mask.set(1, FrameMaskMode::DrpHclk(24, 13));
        }
        i = i + 1;
    }
    mask
}

/// Column `c` is a transceiver column with a transceiver in the region, at
/// the east edge or seven columns from it: its frames end the region's
/// main frames.
pub open spec fn v7_gt_break(chip: Chip, reg: int, c: int) -> bool {
    v7_first_gt_in_reg(chip, c, reg) && (c + 1 == chip.columns@.len() || c + 7 == chip.columns@.len())
}

/// The main frames of a region end before column `n`.
pub open spec fn v7_stopped(chip: Chip, reg: int, n: nat) -> bool
    decreases n,
{
    n > 0 && (v7_stopped(chip, reg, (n - 1) as nat) || v7_gt_break(chip, reg, n - 1))
}

/// The number of frames of column `c` of a region of the Virtex 7.
pub open spec fn v7_col_width(chip: Chip, reg: int, c: int) -> nat {
    if v7_gt_break(chip, reg, c) {
        32
    } else {
        v7_width(chip.columns@[c])
    }
}

/// The main frames of column `c` of a region of the Virtex 7: one major,
/// numbered by the column, of the column's width.
pub open spec fn v7_col_frames(chip: Chip, reg: int, c: int) -> Seq<FrameView> {
    if v7_gt_break(chip, reg, c) {
        frame_run(0, v7_region(chip, reg), c as u32, 32, v7_gt_mask_fn())
    } else {
        frame_run(0, v7_region(chip, reg), c as u32, v7_width(chip.columns@[c]), v7_mask_fn(chip, reg, c))
    }
}

/// The main frames of the columns of a region before column `n`.
pub open spec fn v7_main_frames(chip: Chip, reg: int, n: nat) -> Seq<FrameView>
    decreases n,
{
    if n == 0 {
        Seq::empty()
    } else if v7_stopped(chip, reg, (n - 1) as nat) {
        v7_main_frames(chip, reg, (n - 1) as nat)
    } else {
        v7_main_frames(chip, reg, (n - 1) as nat) + v7_col_frames(chip, reg, n - 1)
    }
}

/// The number of columns before column `n` that have main frames in a region.
pub open spec fn v7_reached(chip: Chip, reg: int, n: nat) -> nat
    decreases n,
{
    if n == 0 {
        0
    } else if v7_stopped(chip, reg, (n - 1) as nat) {
        v7_reached(chip, reg, (n - 1) as nat)
    } else {
        v7_reached(chip, reg, (n - 1) as nat) + 1
    }
}

/// Once the main frames of a region have ended, later columns add nothing.
proof fn lemma_v7_stopped_stays(chip: Chip, reg: int, c: nat, n: nat)
    requires
        c <= n,
        v7_stopped(chip, reg, c),
    ensures
        v7_stopped(chip, reg, n),
        v7_main_frames(chip, reg, n) == v7_main_frames(chip, reg, c),
        v7_reached(chip, reg, n) == v7_reached(chip, reg, c),
    decreases n - c,
{
    if c < n {
        lemma_v7_stopped_stays(chip, reg, c, (n - 1) as nat);
    }
}

/// The number of frames of a column of the Virtex 7.
fn v7_width_of(k: ColumnKind) -> (r: u32)
    ensures
        r == v7_width(k),
{
    match k {
        ColumnKind::ClbLL | ColumnKind::ClbLM => 36,
        ColumnKind::Bram | ColumnKind::Dsp => 28,
        ColumnKind::Io => 42,
        ColumnKind::Cmt | ColumnKind::Cfg | ColumnKind::Clk => 30,
        ColumnKind::Gt => 32,
    }
}

/// The region number of the frame addresses of a region of the Virtex 7.
fn v7_region_of(chip: &Chip, reg: usize) -> (r: i32)
    ensures
        r == v7_region(*chip, reg as int),
{
    if chip.regs == 1 {
        0
    } else {
        region_addr_of(chip, reg)
    }
}

/// Appends the main frames of a Virtex 7 column that is no transceiver break.
fn v7_push_masked_run(chip: &Chip, reg: usize, c: usize, region: i32, width: u32, out: &mut Vec<FrameInfo>)
    requires
        v7_layout_ok(*chip),
        c < chip.columns@.len(),
        reg < chip.regs,
    ensures
        frame_views(final(out)@) == frame_views(old(out)@) + frame_run(
            0,
            region,
            c as u32,
            width as nat,
            v7_mask_fn(*chip, reg as int, c as int),
        ),
{
    let ghost start = frame_views(out@);
    let major = c as u32;
    let mut minor: u32 = 0;
    while minor < width
        invariant
            minor <= width,
            v7_layout_ok(*chip),
            c < chip.columns@.len(),
            reg < chip.regs,
            major == c as u32,
            frame_views(out@) == start + frame_run(
                0,
                region,
                c as u32,
                minor as nat,
                v7_mask_fn(*chip, reg as int, c as int),
            ),
        decreases width - minor,
    {
        let f = FrameInfo {
            addr: FrameAddr { typ: 0, region, major, minor },
            mask_mode: v7_mask_of(chip, reg, c, minor),
        };
        proof {
            lemma_frame_views_push(out@, f);
        }
        out.push(f);
        minor = minor + 1;
        assert(frame_views(out@) =~= start + frame_run(
            0,
            region,
            c as u32,
            minor as nat,
            v7_mask_fn(*chip, reg as int, c as int),
        ));
    }
}

/// Appends the frames of a Virtex 7 transceiver column at the east edge.
fn v7_push_gt_run(region: i32, major: u32, out: &mut Vec<FrameInfo>)
    ensures
        frame_views(final(out)@) == frame_views(old(out)@) + frame_run(0, region, major, 32, v7_gt_mask_fn()),
{
    let ghost start = frame_views(out@);
    let mut minor: u32 = 0;
    while minor < 32
        invariant
            minor <= 32,
            frame_views(out@) == start + frame_run(0, region, major, minor as nat, v7_gt_mask_fn()),
        decreases 32 - minor,
    {
        let mask = if 28 <= minor && minor < 32 {
            vec![FrameMaskMode::DrpHclk(24, 13), FrameMaskMode::DrpHclk(25, 13)]
        } else {
            vec![FrameMaskMode::NoMask, FrameMaskMode::NoMask]
        };
        let f = FrameInfo { addr: FrameAddr { typ: 0, region, major, minor }, mask_mode: mask };
        proof {
            lemma_frame_views_push(out@, f);
        }
        out.push(f);
        minor = minor + 1;
        assert(frame_views(out@) =~= start + frame_run(0, region, major, minor as nat, v7_gt_mask_fn()));
    }
}

/// Appends the main frames of a region of the Virtex 7, and gives the first
/// frame and the width of each column that has main frames in the region.
fn v7_push_region(chip: &Chip, reg: usize, out: &mut Vec<FrameInfo>) -> (r: (Vec<usize>, Vec<usize>))
    requires
        v7_layout_ok(*chip),
        reg < chip.regs,
    ensures
        frame_views(final(out)@) == frame_views(old(out)@) + v7_main_frames(
            *chip,
            reg as int,
            chip.columns@.len(),
        ),
        r.0@.len() == v7_reached(*chip, reg as int, chip.columns@.len()),
        r.1@.len() == r.0@.len(),
        forall|c: int|
            0 <= c < r.0@.len() ==> #[trigger] r.0@[c] == old(out)@.len() + v7_main_frames(
                *chip,
                reg as int,
                c as nat,
            ).len(),
        forall|c: int| 0 <= c < r.0@.len() ==> #[trigger] r.1@[c] == v7_col_width(*chip, reg as int, c),
{
    let ghost start = frame_views(out@);
    let ghost start_len = out@.len();
    let ghost ch = *chip;
    let region = v7_region_of(chip, reg);
    let ncols = chip.columns.len();
    let mut col_frame: Vec<usize> = Vec::new();
    let mut col_width: Vec<usize> = Vec::new();
    let mut done = false;
    let mut c: usize = 0;
    while c < ncols && !done
        invariant
            ch == *chip,
            v7_layout_ok(ch),
            reg < ch.regs,
            ncols == ch.columns@.len(),
            region == v7_region(ch, reg as int),
            c <= ncols,
            done == v7_stopped(ch, reg as int, c as nat),
            start_len == start.len(),
            frame_views(out@) == start + v7_main_frames(ch, reg as int, c as nat),
            out@.len() == frame_views(out@).len(),
            col_frame@.len() == c,
            col_width@.len() == c,
            v7_reached(ch, reg as int, c as nat) == c,
            forall|j: int|
                0 <= j < c ==> #[trigger] col_frame@[j] == start_len + v7_main_frames(ch, reg as int, j as nat).len(),
            forall|j: int| 0 <= j < c ==> #[trigger] col_width@[j] == v7_col_width(ch, reg as int, j),
        decreases ncols - c,
    {
        col_frame.push(out.len());
        let last = ncols - 1;
        let gt_here = first_gt_in_reg(chip, c, reg);
        if gt_here && c != last {
            assert(ch.cols_gt@[first_gt_col(ch.cols_gt@, ColId(c))].col.0 + 1 < ncols);
        }
        if gt_here && (c == last || (last >= 6 && c == last - 6)) {
            assert(v7_gt_break(ch, reg as int, c as int));
            col_width.push(32);
            v7_push_gt_run(region, c as u32, out);
            done = true;
        } else {
            let width = v7_width_of(chip.columns[c]);
            col_width.push(width as usize);
            v7_push_masked_run(chip, reg, c, region, width, out);
        }
        proof {
            assert(out@.len() == frame_views(out@).len());
        }
        c = c + 1;
    }
    proof {
        if done {
            lemma_v7_stopped_stays(ch, reg as int, c as nat, ncols as nat);
        }
    }
    (col_frame, col_width)
}

/// Block RAM column `c` shares its column with a transceiver column, left
/// of the east edge, that has a transceiver in the region: the region's block
/// RAM data frames end there.
pub open spec fn v7_bram_break(chip: Chip, reg: int, c: int) -> bool {
    chip.columns@[c] is Bram && c + 1 != chip.columns@.len() && v7_first_gt_in_reg(chip, c, reg)
}

/// The block RAM data frames of a region end before column `n`.
pub open spec fn v7_bram_stopped(chip: Chip, reg: int, n: nat) -> bool
    decreases n,
{
    n > 0 && (v7_bram_stopped(chip, reg, (n - 1) as nat) || v7_bram_break(chip, reg, n - 1))
}

/// The block RAM data frames of column `c` of a region of the Virtex 7: a
/// hundred and twenty-eight frames of type 1 for a block RAM column.
pub open spec fn v7_bram_col(chip: Chip, reg: int, c: int) -> Seq<FrameView> {
    if chip.columns@[c] is Bram && !v7_bram_break(chip, reg, c) {
        frame_run(
            1,
            v7_region(chip, reg),
            count_kind(chip.columns@, ColumnKind::Bram, c as nat) as u32,
            128,
            const_mask_fn(FrameMaskMode::All, 2),
        )
    } else {
        Seq::empty()
    }
}

/// The block RAM data frames of the columns of a region before column `n`.
pub open spec fn v7_bram_frames(chip: Chip, reg: int, n: nat) -> Seq<FrameView>
    decreases n,
{
    if n == 0 {
        Seq::empty()
    } else if v7_bram_stopped(chip, reg, (n - 1) as nat) {
        v7_bram_frames(chip, reg, (n - 1) as nat)
    } else {
        v7_bram_frames(chip, reg, (n - 1) as nat) + v7_bram_col(chip, reg, n - 1)
    }
}

proof fn lemma_v7_bram_stopped_stays(chip: Chip, reg: int, c: nat, n: nat)
    requires
        c <= n,
        v7_bram_stopped(chip, reg, c),
    ensures
        v7_bram_stopped(chip, reg, n),
        v7_bram_frames(chip, reg, n) == v7_bram_frames(chip, reg, c),
    decreases n - c,
{
    if c < n {
        lemma_v7_bram_stopped_stays(chip, reg, c, (n - 1) as nat);
    }
}

/// Appends the block RAM data frames of a region of the Virtex 7, and gives
/// the first data frame of each block RAM column that has them.
fn v7_push_bram_data(chip: &Chip, reg: usize, out: &mut Vec<FrameInfo>) -> (r: Vec<Option<usize>>)
    requires
        v7_layout_ok(*chip),
        reg < chip.regs,
    ensures
        frame_views(final(out)@) == frame_views(old(out)@) + v7_bram_frames(
            *chip,
            reg as int,
            chip.columns@.len(),
        ),
        r@.len() == chip.columns@.len(),
        forall|c: int|
            0 <= c < chip.columns@.len() ==> #[trigger] r@[c] == if chip.columns@[c] is Bram && !v7_bram_stopped(
                *chip,
                reg as int,
                (c + 1) as nat,
            ) {
                Some((old(out)@.len() + v7_bram_frames(*chip, reg as int, c as nat).len()) as usize)
            } else {
                None
            },
{
    let ghost start = frame_views(out@);
    let ghost start_len = out@.len();
    let ghost ch = *chip;
    let region = v7_region_of(chip, reg);
    let ncols = chip.columns.len();
    let mut r: Vec<Option<usize>> = Vec::new();
    let mut major: u32 = 0;
    let mut done = false;
    let mut c: usize = 0;
    while c < ncols && !done
        invariant
            ch == *chip,
            v7_layout_ok(ch),
            reg < ch.regs,
            ncols == ch.columns@.len(),
            region == v7_region(ch, reg as int),
            c <= ncols,
            done == v7_bram_stopped(ch, reg as int, c as nat),
            start_len == start.len(),
            frame_views(out@) == start + v7_bram_frames(ch, reg as int, c as nat),
            out@.len() == frame_views(out@).len(),
            !done ==> major == count_kind(ch.columns@, ColumnKind::Bram, c as nat),
            r@.len() == c,
            forall|j: int|
                0 <= j < c ==> #[trigger] r@[j] == if ch.columns@[j] is Bram && !v7_bram_stopped(
                    ch,
                    reg as int,
                    (j + 1) as nat,
                ) {
                    Some((start_len + v7_bram_frames(ch, reg as int, j as nat).len()) as usize)
                } else {
                    None
                },
        decreases ncols - c,
    {
        proof {
            lemma_count_kind_le(ch.columns@, ColumnKind::Bram, (c + 1) as nat);
        }
        if chip.columns[c] == ColumnKind::Bram {
            let last = ncols - 1;
            if c != last && first_gt_in_reg(chip, c, reg) {
                assert(v7_bram_break(ch, reg as int, c as int));
                r.push(None);
                done = true;
            } else {
                r.push(Some(out.len()));
                push_const_run(out, 1, region, major, 128, FrameMaskMode::All, 2);
                major = major + 1;
            }
        } else {
            r.push(None);
        }
        proof {
            assert(out@.len() == frame_views(out@).len());
        }
        c = c + 1;
    }
    let ghost stop = c;
    proof {
        if done {
            lemma_v7_bram_stopped_stays(ch, reg as int, c as nat, ncols as nat);
        }
    }
    while c < ncols
        invariant
            ch == *chip,
            ncols == ch.columns@.len(),
            stop <= c <= ncols,
            stop < ncols ==> v7_bram_stopped(ch, reg as int, stop as nat),
            r@.len() == c,
            forall|j: int|
                0 <= j < c ==> #[trigger] r@[j] == if ch.columns@[j] is Bram && !v7_bram_stopped(
                    ch,
                    reg as int,
                    (j + 1) as nat,
                ) {
                    Some((start_len + v7_bram_frames(ch, reg as int, j as nat).len()) as usize)
                } else {
                    None
                },
        decreases ncols - c,
    {
        proof {
            lemma_v7_bram_stopped_stays(ch, reg as int, stop as nat, (c + 1) as nat);
        }
        r.push(None);
        c = c + 1;
    }
    r
}

/// The main frames of the `p`-th region in bitstream order on the Virtex 7.
pub open spec fn v7_main_fn(chip: Chip) -> spec_fn(int) -> Seq<FrameView> {
    |p: int| v7_main_frames(chip, region_order(chip, p), chip.columns@.len())
}

/// The block RAM data frames of the `p`-th region in bitstream order on the Virtex 7.
pub open spec fn v7_bram_all_fn(chip: Chip) -> spec_fn(int) -> Seq<FrameView> {
    |p: int| v7_bram_frames(chip, region_order(chip, p), chip.columns@.len())
}

/// The first data frame of block RAM column `c` of the `p`-th region in
/// bitstream order on the Virtex 7.
pub open spec fn v7_bram_frame(chip: Chip, p: int, c: int) -> Option<usize> {
    let reg = region_order(chip, p);
    if chip.columns@[c] is Bram && !v7_bram_stopped(chip, reg, (c + 1) as nat) {
        Some(
            (concat_map(chip.regs as nat, v7_main_fn(chip)).len() + concat_map(p as nat, v7_bram_all_fn(chip)).len()
                + v7_bram_frames(chip, reg, c as nat).len()) as usize,
        )
    } else {
        None
    }
}

proof fn lemma_v7_reached_le(chip: Chip, reg: int, n: nat)
    ensures
        v7_reached(chip, reg, n) <= n,
    decreases n,
{
    if n > 0 {
        lemma_v7_reached_le(chip, reg, (n - 1) as nat);
    }
}

/// A column among those that have main frames in the region comes before
/// the end of the region's main frames.
proof fn lemma_v7_reached_not_stopped(chip: Chip, reg: int, c: nat, n: nat)
    requires
        c < v7_reached(chip, reg, n),
    ensures
        c < n,
        !v7_stopped(chip, reg, c),
{
    lemma_v7_reached_le(chip, reg, n);
    lemma_v7_reached_le(chip, reg, c);
    if v7_stopped(chip, reg, c) {
        lemma_v7_stopped_stays(chip, reg, c, n);
    }
}

/// The main frames of column `c` sit in the main frames of a region right
/// after those of the columns before it.
proof fn lemma_v7_main_index(chip: Chip, reg: int, c: nat, n: nat, m: int)
    requires
        c < n,
        !v7_stopped(chip, reg, c),
        0 <= m < v7_col_frames(chip, reg, c as int).len(),
    ensures
        v7_main_frames(chip, reg, c).len() + m < v7_main_frames(chip, reg, n).len(),
        v7_main_frames(chip, reg, n)[v7_main_frames(chip, reg, c).len() + m] == v7_col_frames(chip, reg, c as int)[m],
    decreases n,
{
    if n > c + 1 {
        lemma_v7_main_index(chip, reg, c, (n - 1) as nat, m);
    }
}

/// The block RAM data frames of column `c` sit in those of the region right
/// after those of the columns before it.
proof fn lemma_v7_bram_index(chip: Chip, reg: int, c: nat, n: nat, m: int)
    requires
        c < n,
        !v7_bram_stopped(chip, reg, c),
        0 <= m < v7_bram_col(chip, reg, c as int).len(),
    ensures
        v7_bram_frames(chip, reg, c).len() + m < v7_bram_frames(chip, reg, n).len(),
        v7_bram_frames(chip, reg, n)[v7_bram_frames(chip, reg, c).len() + m] == v7_bram_col(chip, reg, c as int)[m],
    decreases n,
{
    if n > c + 1 {
        lemma_v7_bram_index(chip, reg, c, (n - 1) as nat, m);
    }
}

/// The frames of a Virtex 7 die are laid out as the chip asks: the frame
/// table and, for each region and column, where its frames start, how
/// many there are and what they are.
pub open spec fn v7_frames_laid_out(chip: Chip, frames: DieFrameGeom, info: Seq<FrameInfo>) -> bool {
    &&& frame_views(info) == concat_map(chip.regs as nat, v7_main_fn(chip)) + concat_map(
        chip.regs as nat,
        v7_bram_all_fn(chip),
    )
    &&& frames.col_frame@.len() == chip.regs
    &&& frames.col_width@.len() == chip.regs
    &&& frames.bram_frame@.len() == chip.regs
    &&& frames.spine_frame@.len() == 0
    &&& forall|reg: int|
        0 <= reg < chip.regs ==> (#[trigger] frames.col_frame@[reg])@.len() == v7_reached(
            chip,
            reg,
            chip.columns@.len(),
        )
    &&& forall|reg: int|
        0 <= reg < chip.regs ==> (#[trigger] frames.col_width@[reg])@.len() == v7_reached(
            chip,
            reg,
            chip.columns@.len(),
        )
    &&& forall|reg: int| 0 <= reg < chip.regs ==> (#[trigger] frames.bram_frame@[reg])@.len() == chip.columns@.len()
    &&& forall|reg: int, c: int|
        0 <= reg < chip.regs && 0 <= c < v7_reached(chip, reg, chip.columns@.len())
            ==> #[trigger] frames.col_frame@[reg]@[c] == concat_map(
            region_pos(chip, reg) as nat,
            v7_main_fn(chip),
        ).len() + v7_main_frames(chip, reg, c as nat).len()
    &&& forall|reg: int, c: int|
        0 <= reg < chip.regs && 0 <= c < v7_reached(chip, reg, chip.columns@.len())
            ==> #[trigger] frames.col_width@[reg]@[c] == v7_col_width(chip, reg, c)
    &&& forall|reg: int, c: int|
        0 <= reg < chip.regs && 0 <= c < chip.columns@.len() ==> #[trigger] frames.bram_frame@[reg]@[c]
            == v7_bram_frame(chip, region_pos(chip, reg), c)
    &&& forall|reg: int, c: int, m: int|
        0 <= reg < chip.regs && 0 <= c < v7_reached(chip, reg, chip.columns@.len()) && 0 <= m < v7_col_frames(
            chip,
            reg,
            c,
        ).len() ==> frame_views(info)[frames.col_frame@[reg]@[c] + m] == #[trigger] v7_col_frames(
            chip,
            reg,
            c,
        )[m]
    &&& forall|reg: int, c: int, m: int|
        0 <= reg < chip.regs && 0 <= c < chip.columns@.len() && frames.bram_frame@[reg]@[c] is Some && 0 <= m
            < v7_bram_col(chip, reg, c).len() ==> frame_views(info)[frames.bram_frame@[reg]@[c].unwrap()
            + m] == #[trigger] v7_bram_col(chip, reg, c)[m]
}

/// The frame layout of a Virtex 7 chip.  The regions come in bitstream order
/// (see `region_order`); first the main frames of every region, then the
/// block RAM data frames of every region.  The layout has no clock spine frames.
#[verifier::spinoff_prover]
pub fn v7_fill_frame_info(chip: &Chip) -> (r: FrameLayout)
    requires
        v7_layout_ok(*chip),
    ensures
        v7_frames_laid_out(*chip, r.frames, r.frame_info@),
{
    let ghost ch = *chip;
    let ghost ncols = chip.columns@.len();
    let ghost main = v7_main_fn(ch);
    let ghost datas = v7_bram_all_fn(ch);
    proof {
        lemma_region_order_permutation(ch);
    }
    let order = frame_region_order(chip);
    let regs = chip.regs;
    let mut col_frame: Vec<Vec<usize>> = Vec::new();
    let mut col_width: Vec<Vec<usize>> = Vec::new();
    let mut bram_frame: Vec<Vec<Option<usize>>> = Vec::new();
    let mut i: usize = 0;
    while i < regs
        invariant
            i <= regs,
            col_frame@.len() == i,
            col_width@.len() == i,
            bram_frame@.len() == i,
        decreases regs - i,
    {
        col_frame.push(Vec::new());
        col_width.push(Vec::new());
        bram_frame.push(Vec::new());
        i = i + 1;
    }
    let mut out: Vec<FrameInfo> = Vec::new();
    // main frames
    let mut p: usize = 0;
    while p < regs
        invariant
            ch == *chip,
            v7_layout_ok(ch),
            regs == ch.regs,
            ncols == ch.columns@.len(),
            main == v7_main_fn(ch),
            order@.len() == regs,
            forall|q: int| 0 <= q < regs ==> #[trigger] order@[q] == region_order(ch, q),
            forall|q: int| 0 <= q < regs ==> 0 <= #[trigger] region_order(ch, q) < regs,
            forall|q: int| 0 <= q < regs ==> #[trigger] region_pos(ch, region_order(ch, q)) == q,
            forall|reg: int| 0 <= reg < regs ==> 0 <= #[trigger] region_pos(ch, reg) < regs,
            p <= regs,
            frame_views(out@) == concat_map(p as nat, main),
            out@.len() == frame_views(out@).len(),
            col_frame@.len() == regs,
            col_width@.len() == regs,
            bram_frame@.len() == regs,
            forall|reg: int|
                0 <= reg < regs && region_pos(ch, reg) < p ==> (#[trigger] col_frame@[reg])@.len() == v7_reached(
                    ch,
                    reg,
                    ncols,
                ),
            forall|reg: int|
                0 <= reg < regs && region_pos(ch, reg) < p ==> (#[trigger] col_width@[reg])@.len() == v7_reached(
                    ch,
                    reg,
                    ncols,
                ),
            forall|reg: int, c: int|
                0 <= reg < regs && region_pos(ch, reg) < p && 0 <= c < v7_reached(ch, reg, ncols)
                    ==> #[trigger] col_frame@[reg]@[c] == concat_map(region_pos(ch, reg) as nat, main).len()
                    + v7_main_frames(ch, reg, c as nat).len(),
            forall|reg: int, c: int|
                0 <= reg < regs && region_pos(ch, reg) < p && 0 <= c < v7_reached(ch, reg, ncols)
                    ==> #[trigger] col_width@[reg]@[c] == v7_col_width(ch, reg, c),
        decreases regs - p,
    {
        let reg = order[p];
        proof {
            assert(concat_map((p + 1) as nat, main) == concat_map(p as nat, main) + main(p as int));
            assert(region_pos(ch, reg as int) == p);
        }
        let (cf, cw) = v7_push_region(chip, reg, &mut out);
        col_frame.set(reg, cf);
        col_width.set(reg, cw);
        proof {
            assert(out@.len() == frame_views(out@).len());
        }
        p = p + 1;
    }
    // block RAM data frames
    let ghost main_len = concat_map(regs as nat, main).len();
    let mut p: usize = 0;
    while p < regs
        invariant
            ch == *chip,
            v7_layout_ok(ch),
            regs == ch.regs,
            ncols == ch.columns@.len(),
            main == v7_main_fn(ch),
            datas == v7_bram_all_fn(ch),
            main_len == concat_map(regs as nat, main).len(),
            order@.len() == regs,
            forall|q: int| 0 <= q < regs ==> #[trigger] order@[q] == region_order(ch, q),
            forall|q: int| 0 <= q < regs ==> 0 <= #[trigger] region_order(ch, q) < regs,
            forall|q: int| 0 <= q < regs ==> #[trigger] region_pos(ch, region_order(ch, q)) == q,
            forall|reg: int| 0 <= reg < regs ==> 0 <= #[trigger] region_pos(ch, reg) < regs,
            p <= regs,
            frame_views(out@) == concat_map(regs as nat, main) + concat_map(p as nat, datas),
            out@.len() == frame_views(out@).len(),
            col_frame@.len() == regs,
            col_width@.len() == regs,
            bram_frame@.len() == regs,
            forall|reg: int|
                0 <= reg < regs ==> (#[trigger] col_frame@[reg])@.len() == v7_reached(ch, reg, ncols),
            forall|reg: int|
                0 <= reg < regs ==> (#[trigger] col_width@[reg])@.len() == v7_reached(ch, reg, ncols),
            forall|reg: int|
                0 <= reg < regs && region_pos(ch, reg) < p ==> (#[trigger] bram_frame@[reg])@.len() == ncols,
            forall|reg: int, c: int|
                0 <= reg < regs && 0 <= c < v7_reached(ch, reg, ncols) ==> #[trigger] col_frame@[reg]@[c]
                    == concat_map(region_pos(ch, reg) as nat, main).len() + v7_main_frames(ch, reg, c as nat).len(),
            forall|reg: int, c: int|
                0 <= reg < regs && 0 <= c < v7_reached(ch, reg, ncols) ==> #[trigger] col_width@[reg]@[c]
                    == v7_col_width(ch, reg, c),
            forall|reg: int, c: int|
                0 <= reg < regs && region_pos(ch, reg) < p && 0 <= c < ncols ==> #[trigger] bram_frame@[reg]@[c]
                    == v7_bram_frame(ch, region_pos(ch, reg), c),
        decreases regs - p,
    {
        let reg = order[p];
        proof {
            assert(concat_map((p + 1) as nat, datas) == concat_map(p as nat, datas) + datas(p as int));
            assert(region_pos(ch, reg as int) == p);
        }
        let bf = v7_push_bram_data(chip, reg, &mut out);
        bram_frame.set(reg, bf);
        proof {
            assert(out@.len() == frame_views(out@).len());
        }
        p = p + 1;
    }
    proof {
        let views = frame_views(out@);
        let a = concat_map(regs as nat, main);
        let d = concat_map(regs as nat, datas);
        assert(views == a + d);
        assert forall|reg: int, c: int, m: int|
            0 <= reg < regs && 0 <= c < v7_reached(ch, reg, ncols) && 0 <= m < v7_col_frames(ch, reg, c).len()
                implies views[col_frame@[reg]@[c] + m] == #[trigger] v7_col_frames(ch, reg, c)[m] by {
            let p = region_pos(ch, reg);
            lemma_v7_reached_not_stopped(ch, reg, c as nat, ncols);
            lemma_v7_main_index(ch, reg, c as nat, ncols, m);
            let t = v7_main_frames(ch, reg, c as nat).len() + m;
            lemma_concat_map_index(regs as nat, main, p, t);
        }
        assert forall|reg: int, c: int, m: int|
            0 <= reg < regs && 0 <= c < ncols && bram_frame@[reg]@[c] is Some && 0 <= m < v7_bram_col(ch, reg, c).len()
                implies views[bram_frame@[reg]@[c].unwrap() + m] == #[trigger] v7_bram_col(ch, reg, c)[m] by {
            let p = region_pos(ch, reg);
            assert(bram_frame@[reg]@[c] == v7_bram_frame(ch, p, c));
            assert(!v7_bram_stopped(ch, reg, c as nat));
            lemma_v7_bram_index(ch, reg, c as nat, ncols, m);
            let t = v7_bram_frames(ch, reg, c as nat).len() + m;
            lemma_concat_map_index(regs as nat, datas, p, t);
            assert(out.len() as int == views.len());
        }
    }
    FrameLayout {
        frames: DieFrameGeom { col_frame, col_width, bram_frame, spine_frame: Vec::new() },
        frame_info: out,
    }
}

} // verus!
