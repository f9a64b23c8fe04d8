//! The text form of an XC2000 .. XC5200 chip description, as the database
//! dump prints it.
use vstd::prelude::*;
use crate::grid::{
    edge_io_name, join_col_names, join_edge_io_names, join_row_names, push_edge_io_name, push_join_col_names,
    push_join_edge_io_names, push_join_row_names, EdgeIoCoord,
};
use crate::seqs::concat_map;
use crate::text::{decimal, push_decimal};
use crate::xc2000::chip::{
    chip_kind_name, push_chip_kind_name, push_shared_cfg_pad_name, shared_cfg_pad_name, Chip, SharedCfgPad,
};

verus! {

/// `t` where `b` holds, nothing elsewhere.
pub open spec fn opt_text(b: bool, t: Seq<char>) -> Seq<char> {
    if b {
        t
    } else {
        Seq::empty()
    }
}

pub open spec fn cfg_io_lines_fn(v: Seq<(SharedCfgPad, EdgeIoCoord)>) -> spec_fn(int) -> Seq<char> {
    |k: int| "\tcfg_io "@ + shared_cfg_pad_name(v[k].0) + " = "@ + edge_io_name(v[k].1) + ";\n"@
}

impl Chip {
    /// The text form of the chip; the configuration IOs come in the order of
    /// `cfg_io`, which the database keeps sorted by pad.
    pub open spec fn spec_dump(self) -> Seq<char> {
        "\tkind "@ + chip_kind_name(self.kind) + ";\n"@ + "\tcolumns "@ + decimal(self.columns as nat) + ";\n"@
            + "\trows "@ + decimal(self.rows as nat) + ";\n"@ + opt_text(self.is_small, "\tsmall;\n"@) + opt_text(
            self.is_buff_large,
            "\tbuff_large;\n"@,
        ) + opt_text(self.cols_bidi@.len() > 0, "\tcols_bidi "@ + join_col_names(self.cols_bidi@) + ";\n"@)
            + opt_text(self.rows_bidi@.len() > 0, "\trows_bidi "@ + join_row_names(self.rows_bidi@) + ";\n"@)
            + concat_map(self.cfg_io@.len(), cfg_io_lines_fn(self.cfg_io@)) + opt_text(
            self.unbonded_io@.len() > 0,
            "\tunbonded_io "@ + join_edge_io_names(self.unbonded_io@) + ";\n"@,
        )
    }

    /// The text form of the chip, as the database dump prints it.
    pub fn dump(&self) -> (r: String)
        ensures
            r@ == self.spec_dump(),
    {
        let mut s = String::new();
        s.append("\tkind ");
        push_chip_kind_name(&mut s, self.kind);
        s.append(";\n");
        s.append("\tcolumns ");
        push_decimal(&mut s, self.columns as u64);
        s.append(";\n");
        s.append("\trows ");
        push_decimal(&mut s, self.rows as u64);
        s.append(";\n");
        assert(s@ =~= "\tkind "@ + chip_kind_name(self.kind) + ";\n"@ + "\tcolumns "@ + decimal(self.columns as nat)
            + ";\n"@ + "\trows "@ + decimal(self.rows as nat) + ";\n"@);
        let ghost acc = s@;
        let ghost p1 = opt_text(self.is_small, "\tsmall;\n"@);
        if self.is_small {
            s.append("\tsmall;\n");
        }
        assert(s@ == acc + p1);
        let ghost acc = s@;
        let ghost p2 = opt_text(self.is_buff_large, "\tbuff_large;\n"@);
        if self.is_buff_large {
            s.append("\tbuff_large;\n");
        }
        assert(s@ == acc + p2);
        let ghost acc = s@;
        let ghost p3 = opt_text(self.cols_bidi@.len() > 0, "\tcols_bidi "@ + join_col_names(self.cols_bidi@) + ";\n"@);
        if self.cols_bidi.len() > 0 {
            s.append("\tcols_bidi ");
            push_join_col_names(&mut s, &self.cols_bidi);
            s.append(";\n");
            assert(s@ =~= acc + p3);
        }
        assert(s@ == acc + p3);
        let ghost acc = s@;
        let ghost p4 = opt_text(self.rows_bidi@.len() > 0, "\trows_bidi "@ + join_row_names(self.rows_bidi@) + ";\n"@);
        if self.rows_bidi.len() > 0 {
            s.append("\trows_bidi ");
            push_join_row_names(&mut s, &self.rows_bidi);
            s.append(";\n");
            assert(s@ =~= acc + p4);
        }
        assert(s@ == acc + p4);
        let ghost mid = s@;
        let f = Ghost(cfg_io_lines_fn(self.cfg_io@));
        let mut k: usize = 0;
        while k < self.cfg_io.len()
            invariant
                k <= self.cfg_io@.len(),
                f@ == cfg_io_lines_fn(self.cfg_io@),
                s@ == mid + concat_map(k as nat, f@),
            decreases self.cfg_io@.len() - k,
        {
            let ghost before = s@;
            let (pad, io) = self.cfg_io[k];
            s.append("\tcfg_io ");
            push_shared_cfg_pad_name(&mut s, pad);
            s.append(" = ");
            push_edge_io_name(&mut s, io);
            s.append(";\n");
            assert(s@ =~= before + f@(k as int));
            k = k + 1;
        }
        let ghost acc = s@;
        let ghost p5 = opt_text(
            self.unbonded_io@.len() > 0,
            "\tunbonded_io "@ + join_edge_io_names(self.unbonded_io@) + ";\n"@,
        );
        if self.unbonded_io.len() > 0 {
            s.append("\tunbonded_io ");
            push_join_edge_io_names(&mut s, &self.unbonded_io);
            s.append(";\n");
            assert(s@ =~= acc + p5);
        }
        assert(s@ == acc + p5);
        s
    }
}

} // verus!
