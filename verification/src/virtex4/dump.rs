//! The text form of a Virtex-style chip description, as the database dump
//! prints it.
use vstd::prelude::*;
use crate::grid::{
    col_name, dir_h_name, die_name, join_col_names, push_col_name, push_die_name, push_dir_h_name,
    push_join_col_names, push_row_name, row_name, ColId, RowId,
};
use crate::seqs::concat_map;
use crate::text::{decimal, push_decimal};
use crate::virtex4::chip::{
    cfg_row_kind_name, chip_kind_name, column_kind_name, gt_kind_name, io_kind_name, push_cfg_row_kind_name,
    push_chip_kind_name, push_column_kind_name, push_gt_kind_name, push_io_kind_name, push_reg_name, reg_name,
    CfgRowKind, Chip, ChipKind, ColumnKind, GtColumn, GtKind, Interposer, IoColumn, IoKind, Pcie2,
};

verus! {

/// `t` where `b` holds, nothing elsewhere.
pub open spec fn opt_text(b: bool, t: Seq<char>) -> Seq<char> {
    if b {
        t
    } else {
        Seq::empty()
    }
}

/// The line of an IO bank of a region.
pub open spec fn bank_line(chip: Chip, k: int, kind: IoKind) -> Seq<char> {
    "\t\t\tbank "@ + row_name(RowId(chip.sp_row_reg_bot(k) as usize)) + " "@ + io_kind_name(kind) + ";\n"@
}

pub open spec fn bank_lines_fn(chip: Chip, regs: Seq<Option<IoKind>>) -> spec_fn(int) -> Seq<char> {
    |k: int|
        match regs[k] {
            Some(kind) => bank_line(chip, k, kind),
            None => Seq::empty(),
        }
}

/// The block of the IO banks of an IO column description that describes column `c`.
pub open spec fn io_block(chip: Chip, ioc: IoColumn, c: int) -> Seq<char> {
    opt_text(
        ioc.col.0 == c,
        " {\n"@ + concat_map(ioc.regs@.len(), bank_lines_fn(chip, ioc.regs@)) + "\t\t}"@,
    )
}

pub open spec fn io_blocks_fn(chip: Chip, c: int) -> spec_fn(int) -> Seq<char> {
    |i: int| io_block(chip, chip.cols_io@[i], c)
}

/// The line of a transceiver of a region.
pub open spec fn gt_line(chip: Chip, k: int, mid: bool, kind: GtKind) -> Seq<char> {
    "\t\t\tgt "@ + row_name(RowId(chip.sp_row_reg_bot(k) as usize)) + " "@ + opt_text(mid, "mid "@) + gt_kind_name(kind)
        + ";\n"@
}

pub open spec fn gt_lines_fn(chip: Chip, regs: Seq<Option<GtKind>>, mid: bool) -> spec_fn(int) -> Seq<char> {
    |k: int|
        match regs[k] {
            Some(kind) => gt_line(chip, k, mid, kind),
            None => Seq::empty(),
        }
}

/// The block of the transceivers of a transceiver column description that
/// describes column `c`, of kind `cd`.
pub open spec fn gt_block(chip: Chip, gtc: GtColumn, c: int, cd: ColumnKind) -> Seq<char> {
    opt_text(
        gtc.col.0 == c,
        (if cd is Gt {
            " {\n"@
        } else {
            " + gt {\n"@
        }) + concat_map(gtc.regs@.len(), gt_lines_fn(chip, gtc.regs@, gtc.is_middle)) + "\t\t}"@,
    )
}

pub open spec fn gt_blocks_fn(chip: Chip, c: int, cd: ColumnKind) -> spec_fn(int) -> Seq<char> {
    |i: int| gt_block(chip, chip.cols_gt@[i], c, cd)
}

/// Lines `prefix ROW;` for each row of a list.
pub open spec fn row_lines_fn(prefix: Seq<char>, rows: Seq<RowId>) -> spec_fn(int) -> Seq<char> {
    |k: int| prefix + row_name(rows[k]) + ";\n"@
}

/// The block of the hard column, if column `c` is it.
pub open spec fn hard_block(chip: Chip, c: int) -> Seq<char> {
    match chip.col_hard {
        Some(h) => opt_text(
            h.col.0 == c,
            " + hard {\n"@ + concat_map(h.rows_pcie@.len(), row_lines_fn("\t\t\tpcie "@, h.rows_pcie@)) + concat_map(
                h.rows_emac@.len(),
                row_lines_fn("\t\t\temac "@, h.rows_emac@),
            ) + "\t\t}"@,
        ),
        None => Seq::empty(),
    }
}

pub open spec fn cfg_lines_fn(rows: Seq<(RowId, CfgRowKind)>) -> spec_fn(int) -> Seq<char> {
    |k: int| "\t\t\t"@ + cfg_row_kind_name(rows[k].1) + " "@ + row_name(rows[k].0) + ";\n"@
}

/// The block of the special rows of a configuration column.
pub open spec fn cfg_block(chip: Chip, cd: ColumnKind) -> Seq<char> {
    opt_text(
        cd is Cfg && chip.rows_cfg@.len() > 0,
        " {\n"@ + concat_map(chip.rows_cfg@.len(), cfg_lines_fn(chip.rows_cfg@)) + "\t\t}"@,
    )
}

/// The column is one of the two quarter buffer columns.
pub open spec fn is_qbuf(chip: Chip, c: int) -> bool {
    match chip.cols_qbuf {
        Some((cl, cr)) => c == cl.0 || c == cr.0,
        None => false,
    }
}

/// The start of the line of column `c`: a break marker before it, its
/// kind and the buffers and hard blocks it holds.
pub open spec fn column_head(chip: Chip, c: int) -> Seq<char> {
    let cd = chip.columns@[c];
    opt_text(chip.cols_vbrk@.contains(ColId(c as usize)), "\t\t// break\n"@) + "\t\t"@ + column_kind_name(cd)
        + opt_text(chip.cols_mgt_buf@.contains(ColId(c as usize)), " + mgt_buf"@) + opt_text(
        is_qbuf(chip, c),
        " + qbuf"@,
    ) + hard_block(chip, c)
}

/// The IO bank blocks of column `c`.
pub open spec fn column_io(chip: Chip, c: int) -> Seq<char> {
    concat_map(chip.cols_io@.len(), io_blocks_fn(chip, c))
}

/// The transceiver blocks of column `c`.
pub open spec fn column_gt(chip: Chip, c: int) -> Seq<char> {
    concat_map(chip.cols_gt@.len(), gt_blocks_fn(chip, c, chip.columns@[c]))
}

/// The end of the line of column `c`: its configuration rows and its name.
pub open spec fn column_tail(chip: Chip, c: int) -> Seq<char> {
    cfg_block(chip, chip.columns@[c]) + ", // "@ + col_name(ColId(c as usize)) + "\n"@
}

/// The line (with its blocks) of column `c`.
pub open spec fn column_line(chip: Chip, c: int) -> Seq<char> {
    column_head(chip, c) + column_io(chip, c) + column_gt(chip, c) + column_tail(chip, c)
}

pub open spec fn column_lines_fn(chip: Chip) -> spec_fn(int) -> Seq<char> {
    |c: int| column_line(chip, c)
}

/// The width and height of a PowerPC block of the family.
pub open spec fn ppc_size(kind: ChipKind) -> (int, int) {
    match kind {
        ChipKind::Virtex4 => (9, 24),
        _ => (14, 40),
    }
}

pub open spec fn range_text(a: Seq<char>, b: Seq<char>) -> Seq<char> {
    a + ":"@ + b
}

pub open spec fn ppc_lines_fn(chip: Chip) -> spec_fn(int) -> Seq<char> {
    |k: int|
        {
            let (col, row) = chip.holes_ppc@[k];
            let (w, h) = ppc_size(chip.kind);
            "\tppc "@ + range_text(col_name(col), col_name(ColId((col.0 + w) as usize))) + " "@ + range_text(
                row_name(row),
                row_name(RowId((row.0 + h) as usize)),
            ) + ";\n"@
        }
}

pub open spec fn pcie2_lines_fn(chip: Chip) -> spec_fn(int) -> Seq<char> {
    |k: int|
        {
            let p = chip.holes_pcie2@[k];
            "\tpcie2 "@ + dir_h_name(p.side) + " "@ + range_text(col_name(p.col), col_name(ColId((p.col.0 + 4) as usize)))
                + " "@ + range_text(row_name(p.row), row_name(RowId((p.row.0 + 25) as usize))) + ";\n"@
        }
}

pub open spec fn pcie3_lines_fn(chip: Chip) -> spec_fn(int) -> Seq<char> {
    |k: int|
        {
            let (col, row) = chip.holes_pcie3@[k];
            "\tpcie3 "@ + range_text(col_name(col), col_name(ColId((col.0 + 6) as usize))) + " "@ + range_text(
                row_name(row),
                row_name(RowId((row.0 + 50) as usize)),
            ) + ";\n"@
        }
}

impl Chip {
    /// The text form of the chip.
    pub open spec fn spec_dump(self) -> Seq<char> {
        "\tkind "@ + chip_kind_name(self.kind) + ";\n"@ + opt_text(self.has_ps, "\thas_ps;\n"@) + opt_text(
            self.has_slr,
            "\thas_slr;\n"@,
        ) + opt_text(self.has_no_tbuturn, "\tno_tb_uturn;\n"@) + "\tcolumns {\n"@ + concat_map(
            self.columns@.len(),
            column_lines_fn(self),
        ) + "\t}\n"@ + opt_text(
            self.cols_vbrk@.len() > 0,
            "\tcols_vbrk "@ + join_col_names(self.cols_vbrk@) + ";\n"@,
        ) + "\tregs "@ + decimal(self.regs as nat) + ";\n"@ + "\treg_cfg "@ + reg_name(self.reg_cfg) + "\n"@
            + "\treg_clk "@ + reg_name(self.reg_clk) + "\n"@ + concat_map(self.holes_ppc@.len(), ppc_lines_fn(self))
            + concat_map(self.holes_pcie2@.len(), pcie2_lines_fn(self)) + concat_map(
            self.holes_pcie3@.len(),
            pcie3_lines_fn(self),
        ) + opt_text(self.has_bram_fx, "\thas_bram_fx;\n"@)
    }

    /// The chip can be printed: PowerPC blocks only on the families that
    /// have them, and the region rows and block corners that the text
    /// holds fit the index range.
    pub open spec fn dump_ok(self) -> bool {
        &&& self.holes_ppc@.len() > 0 ==> (self.kind is Virtex4 || self.kind is Virtex5)
        &&& forall|k: int|
            0 <= k < self.holes_ppc@.len() ==> (#[trigger] self.holes_ppc@[k]).0.0 + 14 <= usize::MAX
                && self.holes_ppc@[k].1.0 + 40 <= usize::MAX
        &&& forall|k: int|
            0 <= k < self.holes_pcie2@.len() ==> (#[trigger] self.holes_pcie2@[k]).col.0 + 4 <= usize::MAX
                && self.holes_pcie2@[k].row.0 + 25 <= usize::MAX
        &&& forall|k: int|
            0 <= k < self.holes_pcie3@.len() ==> (#[trigger] self.holes_pcie3@[k]).0.0 + 6 <= usize::MAX
                && self.holes_pcie3@[k].1.0 + 50 <= usize::MAX
        &&& forall|i: int|
            0 <= i < self.cols_io@.len() ==> (#[trigger] self.cols_io@[i]).regs@.len() * self.sp_rpr() <= usize::MAX
        &&& forall|i: int|
            0 <= i < self.cols_gt@.len() ==> (#[trigger] self.cols_gt@[i]).regs@.len() * self.sp_rpr() <= usize::MAX
    }
}

/// Appends `t` and a text `b` chooses.
fn push_opt(s: &mut String, b: bool, t: &str)
    ensures
        final(s)@ == old(s)@ + opt_text(b, t@),
{
    if b {
        s.append(t);
    } else {
        assert(s@ =~= old(s)@ + opt_text(b, t@));
    }
}

/// The bottom row of region `k`, which fits the index range.
fn reg_bot(chip: &Chip, k: usize, n: usize) -> (r: RowId)
    requires
        k < n,
        n * chip.sp_rpr() <= usize::MAX,
    ensures
        r == RowId(chip.sp_row_reg_bot(k as int) as usize),
{
    proof {
        let rpr = chip.sp_rpr() as int;
        assert(k * rpr <= n * rpr) by (nonlinear_arith)
            requires
                k < n,
                rpr >= 0,
        ;
    }
    RowId(k * chip.rows_per_reg())
}

fn push_io_block(s: &mut String, chip: &Chip, ioc: &IoColumn, c: usize)
    requires
        ioc.regs@.len() * chip.sp_rpr() <= usize::MAX,
    ensures
        final(s)@ == old(s)@ + io_block(*chip, *ioc, c as int),
{
    if ioc.col.0 != c {
        assert(s@ =~= old(s)@ + io_block(*chip, *ioc, c as int));
        return;
    }
    s.append(" {\n");
    let ghost mid = s@;
    let f = Ghost(bank_lines_fn(*chip, ioc.regs@));
    let mut k: usize = 0;
    while k < ioc.regs.len()
        invariant
            k <= ioc.regs@.len(),
            ioc.regs@.len() * chip.sp_rpr() <= usize::MAX,
            f@ == bank_lines_fn(*chip, ioc.regs@),
            s@ == mid + concat_map(k as nat, f@),
        decreases ioc.regs@.len() - k,
    {
        let ghost before = s@;
        match ioc.regs[k] {
            Some(kind) => {
                s.append("\t\t\tbank ");
                push_row_name(s, reg_bot(chip, k, ioc.regs.len()));
                s.append(" ");
                push_io_kind_name(s, kind);
                s.append(";\n");
            },
            None => {},
        }
        assert(s@ =~= before + f@(k as int));
        k = k + 1;
    }
    s.append("\t\t}");
    assert(s@ =~= old(s)@ + io_block(*chip, *ioc, c as int));
}

fn push_gt_block(s: &mut String, chip: &Chip, gtc: &GtColumn, c: usize, cd: ColumnKind)
    requires
        gtc.regs@.len() * chip.sp_rpr() <= usize::MAX,
    ensures
        final(s)@ == old(s)@ + gt_block(*chip, *gtc, c as int, cd),
{
    if gtc.col.0 != c {
        assert(s@ =~= old(s)@ + gt_block(*chip, *gtc, c as int, cd));
        return;
    }
    if cd == ColumnKind::Gt {
        s.append(" {\n");
    } else {
        s.append(" + gt {\n");
    }
    let ghost mid = s@;
    let f = Ghost(gt_lines_fn(*chip, gtc.regs@, gtc.is_middle));
    let mut k: usize = 0;
    while k < gtc.regs.len()
        invariant
            k <= gtc.regs@.len(),
            gtc.regs@.len() * chip.sp_rpr() <= usize::MAX,
            f@ == gt_lines_fn(*chip, gtc.regs@, gtc.is_middle),
            s@ == mid + concat_map(k as nat, f@),
        decreases gtc.regs@.len() - k,
    {
        let ghost before = s@;
        match gtc.regs[k] {
            Some(kind) => {
                s.append("\t\t\tgt ");
                push_row_name(s, reg_bot(chip, k, gtc.regs.len()));
                s.append(" ");
                push_opt(s, gtc.is_middle, "mid ");
                push_gt_kind_name(s, kind);
                s.append(";\n");
            },
            None => {},
        }
        assert(s@ =~= before + f@(k as int));
        k = k + 1;
    }
    s.append("\t\t}");
    assert(s@ =~= old(s)@ + gt_block(*chip, *gtc, c as int, cd));
}

/// Appends `prefix ROW;` lines for a list of rows.
fn push_row_lines(s: &mut String, prefix: &str, rows: &Vec<RowId>)
    ensures
        final(s)@ == old(s)@ + concat_map(rows@.len(), row_lines_fn(prefix@, rows@)),
{
    let f = Ghost(row_lines_fn(prefix@, rows@));
    let mut k: usize = 0;
    while k < rows.len()
        invariant
            k <= rows@.len(),
            f@ == row_lines_fn(prefix@, rows@),
            s@ == old(s)@ + concat_map(k as nat, f@),
        decreases rows@.len() - k,
    {
        let ghost before = s@;
        s.append(prefix);
        push_row_name(s, rows[k]);
        s.append(";\n");
        assert(s@ =~= before + f@(k as int));
        k = k + 1;
    }
}

fn push_hard_block(s: &mut String, chip: &Chip, c: usize)
    ensures
        final(s)@ == old(s)@ + hard_block(*chip, c as int),
{
    match &chip.col_hard {
        Some(h) => {
            if h.col.0 == c {
                s.append(" + hard {\n");
                push_row_lines(s, "\t\t\tpcie ", &h.rows_pcie);
                push_row_lines(s, "\t\t\temac ", &h.rows_emac);
                s.append("\t\t}");
            }
        },
        None => {},
    }
    assert(s@ =~= old(s)@ + hard_block(*chip, c as int));
}

fn push_cfg_block(s: &mut String, chip: &Chip, cd: ColumnKind)
    ensures
        final(s)@ == old(s)@ + cfg_block(*chip, cd),
{
    if cd == ColumnKind::Cfg && chip.rows_cfg.len() > 0 {
        s.append(" {\n");
        let ghost mid = s@;
        let f = Ghost(cfg_lines_fn(chip.rows_cfg@));
        let mut k: usize = 0;
        while k < chip.rows_cfg.len()
            invariant
                k <= chip.rows_cfg@.len(),
                f@ == cfg_lines_fn(chip.rows_cfg@),
                s@ == mid + concat_map(k as nat, f@),
            decreases chip.rows_cfg@.len() - k,
        {
            let ghost before = s@;
            let (row, kind) = chip.rows_cfg[k];
            s.append("\t\t\t");
            push_cfg_row_kind_name(s, kind);
            s.append(" ");
            push_row_name(s, row);
            s.append(";\n");
            assert(s@ =~= before + f@(k as int));
            k = k + 1;
        }
        s.append("\t\t}");
    }
    assert(s@ =~= old(s)@ + cfg_block(*chip, cd));
}

fn col_listed(v: &Vec<ColId>, c: ColId) -> (r: bool)
    ensures
        r == v@.contains(c),
{
    let mut i: usize = 0;
    while i < v.len()
        invariant
            i <= v@.len(),
            forall|j: int| 0 <= j < i ==> v@[j] != c,
        decreases v.len() - i,
    {
        if v[i] == c {
            assert(v@[i as int] == c);
            return true;
        }
        i = i + 1;
    }
    false
}

fn push_column_head(s: &mut String, chip: &Chip, c: usize)
    requires
        c < chip.columns@.len(),
    ensures
        final(s)@ == old(s)@ + column_head(*chip, c as int),
{
    let cd = chip.columns[c];
    let ghost s0 = s@;
    let ghost a = opt_text(chip.cols_vbrk@.contains(ColId(c)), "\t\t// break\n"@);
    let ghost b = "\t\t"@;
    let ghost k = column_kind_name(cd);
    let ghost m = opt_text(chip.cols_mgt_buf@.contains(ColId(c)), " + mgt_buf"@);
    let ghost q = opt_text(is_qbuf(*chip, c as int), " + qbuf"@);
    let ghost h = hard_block(*chip, c as int);
    push_opt(s, col_listed(&chip.cols_vbrk, ColId(c)), "\t\t// break\n");
    s.append("\t\t");
    proof {
        vstd::seq_lib::lemma_concat_associative(s0, a, b);
    }
    push_column_kind_name(s, cd);
    proof {
        vstd::seq_lib::lemma_concat_associative(s0, a + b, k);
    }
    push_opt(s, col_listed(&chip.cols_mgt_buf, ColId(c)), " + mgt_buf");
    proof {
        vstd::seq_lib::lemma_concat_associative(s0, a + b + k, m);
    }
    let qbuf = match chip.cols_qbuf {
        Some((cl, cr)) => c == cl.0 || c == cr.0,
        None => false,
    };
    push_opt(s, qbuf, " + qbuf");
    proof {
        vstd::seq_lib::lemma_concat_associative(s0, a + b + k + m, q);
    }
    push_hard_block(s, chip, c);
    proof {
        vstd::seq_lib::lemma_concat_associative(s0, a + b + k + m + q, h);
    }
}

fn push_column_io(s: &mut String, chip: &Chip, c: usize)
    requires
        chip.dump_ok(),
    ensures
        final(s)@ == old(s)@ + column_io(*chip, c as int),
{
    let f = Ghost(io_blocks_fn(*chip, c as int));
    let mut i: usize = 0;
    while i < chip.cols_io.len()
        invariant
            i <= chip.cols_io@.len(),
            chip.dump_ok(),
            f@ == io_blocks_fn(*chip, c as int),
            s@ == old(s)@ + concat_map(i as nat, f@),
        decreases chip.cols_io@.len() - i,
    {
        let ghost before = s@;
        assert(chip.cols_io@[i as int].regs@.len() * chip.sp_rpr() <= usize::MAX);
        push_io_block(s, chip, &chip.cols_io[i], c);
        assert(s@ =~= before + f@(i as int));
        i = i + 1;
    }
}

fn push_column_gt(s: &mut String, chip: &Chip, c: usize)
    requires
        chip.dump_ok(),
        c < chip.columns@.len(),
    ensures
        final(s)@ == old(s)@ + column_gt(*chip, c as int),
{
    let cd = chip.columns[c];
    let g = Ghost(gt_blocks_fn(*chip, c as int, cd));
    let mut i: usize = 0;
    while i < chip.cols_gt.len()
        invariant
            i <= chip.cols_gt@.len(),
            chip.dump_ok(),
            g@ == gt_blocks_fn(*chip, c as int, cd),
            s@ == old(s)@ + concat_map(i as nat, g@),
        decreases chip.cols_gt@.len() - i,
    {
        let ghost before = s@;
        assert(chip.cols_gt@[i as int].regs@.len() * chip.sp_rpr() <= usize::MAX);
        push_gt_block(s, chip, &chip.cols_gt[i], c, cd);
        assert(s@ =~= before + g@(i as int));
        i = i + 1;
    }
}

fn push_column_line(s: &mut String, chip: &Chip, c: usize)
    requires
        c < chip.columns@.len(),
        chip.dump_ok(),
    ensures
        final(s)@ == old(s)@ + column_line(*chip, c as int),
{
    let ghost s0 = s@;
    push_column_head(s, chip, c);
    push_column_io(s, chip, c);
    push_column_gt(s, chip, c);
    let ghost s3 = s@;
    let ghost cb = cfg_block(*chip, chip.columns@[c as int]);
    let ghost sep = ", // "@;
    let ghost nm = col_name(ColId(c));
    let ghost nl = "\n"@;
    push_cfg_block(s, chip, chip.columns[c]);
    s.append(", // ");
    proof {
        vstd::seq_lib::lemma_concat_associative(s3, cb, sep);
    }
    push_col_name(s, ColId(c));
    proof {
        vstd::seq_lib::lemma_concat_associative(s3, cb + sep, nm);
    }
    s.append("\n");
    proof {
        vstd::seq_lib::lemma_concat_associative(s3, cb + sep + nm, nl);
        let hd = column_head(*chip, c as int);
        let io = column_io(*chip, c as int);
        let gt = column_gt(*chip, c as int);
        let tl = column_tail(*chip, c as int);
        vstd::seq_lib::lemma_concat_associative(s0, hd, io);
        vstd::seq_lib::lemma_concat_associative(s0, hd + io, gt);
        vstd::seq_lib::lemma_concat_associative(s0, hd + io + gt, tl);
    }
}

impl Chip {
    /// The text form of the chip, as the database dump prints it.
    #[verifier::spinoff_prover]
    #[verifier::rlimit(40)]
    pub fn dump(&self) -> (r: String)
        requires
            self.dump_ok(),
        ensures
            r@ == self.spec_dump(),
    {
        let mut s = String::new();
        s.append("\tkind ");
        push_chip_kind_name(&mut s, self.kind);
        s.append(";\n");
        push_opt(&mut s, self.has_ps, "\thas_ps;\n");
        push_opt(&mut s, self.has_slr, "\thas_slr;\n");
        push_opt(&mut s, self.has_no_tbuturn, "\tno_tb_uturn;\n");
        s.append("\tcolumns {\n");
        let ghost mid = s@;
        let f = Ghost(column_lines_fn(*self));
        let mut c: usize = 0;
        while c < self.columns.len()
            invariant
                c <= self.columns@.len(),
                self.dump_ok(),
                f@ == column_lines_fn(*self),
                s@ == mid + concat_map(c as nat, f@),
            decreases self.columns@.len() - c,
        {
            let ghost before = s@;
            push_column_line(&mut s, self, c);
            assert(s@ =~= before + f@(c as int));
            c = c + 1;
        }
        s.append("\t}\n");
        if self.cols_vbrk.len() > 0 {
            s.append("\tcols_vbrk ");
            push_join_col_names(&mut s, &self.cols_vbrk);
            s.append(";\n");
        }
        s.append("\tregs ");
        push_decimal(&mut s, self.regs as u64);
        s.append(";\n");
        s.append("\treg_cfg ");
        push_reg_name(&mut s, self.reg_cfg);
        s.append("\n");
        s.append("\treg_clk ");
        push_reg_name(&mut s, self.reg_clk);
        s.append("\n");
        let ghost mid2 = s@;
        let g = Ghost(ppc_lines_fn(*self));
        let mut k: usize = 0;
        while k < self.holes_ppc.len()
            invariant
                k <= self.holes_ppc@.len(),
                self.dump_ok(),
                g@ == ppc_lines_fn(*self),
                s@ == mid2 + concat_map(k as nat, g@),
            decreases self.holes_ppc@.len() - k,
        {
            let ghost before = s@;
            let (col, row) = self.holes_ppc[k];
            assert(col.0 + 14 <= usize::MAX && row.0 + 40 <= usize::MAX);
            let (w, h): (usize, usize) = match self.kind {
                ChipKind::Virtex4 => (9, 24),
                _ => (14, 40),
            };
            s.append("\tppc ");
            push_col_name(&mut s, col);
            s.append(":");
            push_col_name(&mut s, ColId(col.0 + w));
            s.append(" ");
            push_row_name(&mut s, row);
            s.append(":");
            push_row_name(&mut s, RowId(row.0 + h));
            s.append(";\n");
            assert(s@ =~= before + g@(k as int));
            k = k + 1;
        }
        let ghost mid3 = s@;
        let g2 = Ghost(pcie2_lines_fn(*self));
        let mut k: usize = 0;
        while k < self.holes_pcie2.len()
            invariant
                k <= self.holes_pcie2@.len(),
                self.dump_ok(),
                g2@ == pcie2_lines_fn(*self),
                s@ == mid3 + concat_map(k as nat, g2@),
            decreases self.holes_pcie2@.len() - k,
        {
            let ghost before = s@;
            let p = self.holes_pcie2[k];
            assert(p.col.0 + 4 <= usize::MAX && p.row.0 + 25 <= usize::MAX);
            s.append("\tpcie2 ");
            push_dir_h_name(&mut s, p.side);
            s.append(" ");
            push_col_name(&mut s, p.col);
            s.append(":");
            push_col_name(&mut s, ColId(p.col.0 + 4));
            s.append(" ");
            push_row_name(&mut s, p.row);
            s.append(":");
            push_row_name(&mut s, RowId(p.row.0 + 25));
            s.append(";\n");
            assert(s@ =~= before + g2@(k as int));
            k = k + 1;
        }
        let ghost mid4 = s@;
        let g3 = Ghost(pcie3_lines_fn(*self));
        let mut k: usize = 0;
        while k < self.holes_pcie3.len()
            invariant
                k <= self.holes_pcie3@.len(),
                self.dump_ok(),
                g3@ == pcie3_lines_fn(*self),
                s@ == mid4 + concat_map(k as nat, g3@),
            decreases self.holes_pcie3@.len() - k,
        {
            let ghost before = s@;
            let (col, row) = self.holes_pcie3[k];
            assert(col.0 + 6 <= usize::MAX && row.0 + 50 <= usize::MAX);
            s.append("\tpcie3 ");
            push_col_name(&mut s, col);
            s.append(":");
            push_col_name(&mut s, ColId(col.0 + 6));
            s.append(" ");
            push_row_name(&mut s, row);
            s.append(":");
            push_row_name(&mut s, RowId(row.0 + 50));
            s.append(";\n");
            assert(s@ =~= before + g3@(k as int));
            k = k + 1;
        }
        push_opt(&mut s, self.has_bram_fx, "\thas_bram_fx;\n");
        assert(s@ =~= self.spec_dump());
        s
    }
}

impl Interposer {
    /// The text form of the interposer.
    pub open spec fn spec_dump(self) -> Seq<char> {
        "\tprimary "@ + die_name(self.primary) + ";\n"@ + opt_text(self.gtz_bot, "\tgtz_bot;\n"@) + opt_text(
            self.gtz_top,
            "\tgtz_top;\n"@,
        )
    }

    /// The text form of the interposer, as the database dump prints it.
    pub fn dump(&self) -> (r: String)
        ensures
            r@ == self.spec_dump(),
    {
        let mut s = String::new();
        s.append("\tprimary ");
        push_die_name(&mut s, self.primary);
        s.append(";\n");
        push_opt(&mut s, self.gtz_bot, "\tgtz_bot;\n");
        push_opt(&mut s, self.gtz_top, "\tgtz_top;\n");
        assert(s@ =~= self.spec_dump());
        s
    }
}

} // verus!
