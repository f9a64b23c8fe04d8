//! The GTZ transceivers of the Virtex 7 interposer devices: their pins, the
//! text form of their database, and the interconnect columns they use.
use vstd::prelude::*;
use crate::grid::{ColId, DieId, DirV, RowId};
use crate::text::str_equals;
use crate::seqs::concat_map;
use crate::text::{decimal, push_decimal};
use crate::virtex4::chip::{Chip, ColumnKind, Interposer};

verus! {

/// The direction of a pin.
#[derive(Clone, Copy, Debug, PartialEq, Eq, Structural, Hash)]
pub enum PinDir {
    Input,
    Output,
    Inout,
}

/// An interconnect column of a GTZ.
#[derive(Clone, Copy, Debug, PartialEq, Eq, Structural, Hash, PartialOrd, Ord)]
pub struct GtzIntColId(pub usize);

/// An interconnect row of a GTZ.
#[derive(Clone, Copy, Debug, PartialEq, Eq, Structural, Hash, PartialOrd, Ord)]
pub struct GtzIntRowId(pub usize);

/// A GTZ pin that connects to the interconnect.
#[derive(Clone, Copy, Debug, PartialEq, Eq, Structural, Hash)]
pub struct GtzIntPin {
    pub dir: PinDir,
    pub col: GtzIntColId,
    pub row: GtzIntRowId,
}

/// A GTZ pin that connects to a global clock.
#[derive(Clone, Copy, Debug, PartialEq, Eq, Structural, Hash)]
pub struct GtzClkPin {
    pub dir: PinDir,
    pub idx: usize,
}

/// A GTZ: the die edge it sits on and its pins, each list held in
/// ascending order of pin name.
#[derive(Clone, Debug)]
pub struct GtzBel {
    pub side: DirV,
    pub pins: Vec<(String, GtzIntPin)>,
    pub clk_pins: Vec<(String, GtzClkPin)>,
}

/// The GTZ kinds of the database, by name, in the order they were added;
/// each name names one kind (see `GtzDb::names_distinct`).
#[derive(Clone, Debug)]
pub struct GtzDb {
    pub gtz: Vec<(String, GtzBel)>,
}

impl GtzDb {
    /// No two GTZ kinds of the database share a name.
    pub open spec fn names_distinct(self) -> bool {
        forall|i: int, j: int| 0 <= i < j < self.gtz@.len() ==> #[trigger] self.gtz@[i].0@ != #[trigger] self.gtz@[j].0@
    }

    /// Whether no two GTZ kinds of the database share a name.
    pub fn check_names_distinct(&self) -> (r: bool)
        ensures
            r == self.names_distinct(),
    {
        let mut j: usize = 0;
        while j < self.gtz.len()
            invariant
                j <= self.gtz@.len(),
                forall|a: int, b: int| 0 <= a < b < j ==> #[trigger] self.gtz@[a].0@ != #[trigger] self.gtz@[b].0@,
            decreases self.gtz@.len() - j,
        {
            let mut i: usize = 0;
            while i < j
                invariant
                    i <= j < self.gtz@.len(),
                    forall|a: int, b: int| 0 <= a < b < j ==> #[trigger] self.gtz@[a].0@ != #[trigger] self.gtz@[b].0@,
                    forall|a: int| 0 <= a < i ==> #[trigger] self.gtz@[a].0@ != self.gtz@[j as int].0@,
                decreases j - i,
            {
                if str_equals(self.gtz[i].0.as_str(), self.gtz[j].0.as_str()) {
                    return false;
                }
                i = i + 1;
            }
            j = j + 1;
        }
        true
    }
}

/// The printed name of a pin direction that a GTZ pin can have.
pub open spec fn pin_dir_name(d: PinDir) -> Seq<char> {
    match d {
        PinDir::Input => "input"@,
        _ => "output"@,
    }
}

/// The printed name of a vertical direction.
pub open spec fn dir_v_name(d: DirV) -> Seq<char> {
    match d {
        DirV::S => "S"@,
        DirV::N => "N"@,
    }
}

pub open spec fn int_pin_lines_fn(pins: Seq<(String, GtzIntPin)>) -> spec_fn(int) -> Seq<char> {
    |k: int|
        "\t"@ + pin_dir_name(pins[k].1.dir) + " "@ + pins[k].0@ + " = INT GTZC"@ + decimal(pins[k].1.col.0 as nat)
            + " GTZR"@ + decimal(pins[k].1.row.0 as nat) + ";\n"@
}

pub open spec fn clk_pin_lines_fn(pins: Seq<(String, GtzClkPin)>) -> spec_fn(int) -> Seq<char> {
    |k: int| "\t"@ + pin_dir_name(pins[k].1.dir) + " "@ + pins[k].0@ + " = GCLK"@ + decimal(pins[k].1.idx as nat) + ";\n"@
}

/// The block of one GTZ kind.
pub open spec fn gtz_block(name: Seq<char>, gtz: GtzBel) -> Seq<char> {
    "gtz "@ + name + ": "@ + dir_v_name(gtz.side) + " {\n"@ + concat_map(gtz.pins@.len(), int_pin_lines_fn(gtz.pins@))
        + concat_map(gtz.clk_pins@.len(), clk_pin_lines_fn(gtz.clk_pins@)) + "}\n"@ + "\n"@
}

pub open spec fn gtz_blocks_fn(v: Seq<(String, GtzBel)>) -> spec_fn(int) -> Seq<char> {
    |k: int| gtz_block(v[k].0@, v[k].1)
}

impl GtzBel {
    /// No pin of the GTZ is bidirectional.
    pub open spec fn dirs_ok(self) -> bool {
        &&& forall|k: int| 0 <= k < self.pins@.len() ==> !((#[trigger] self.pins@[k]).1.dir is Inout)
        &&& forall|k: int| 0 <= k < self.clk_pins@.len() ==> !((#[trigger] self.clk_pins@[k]).1.dir is Inout)
    }
}

fn push_pin_dir(s: &mut String, d: PinDir)
    requires
        !(d is Inout),
    ensures
        final(s)@ == old(s)@ + pin_dir_name(d),
{
    match d {
        PinDir::Input => {
            s.append("input");
        },
        _ => {
            s.append("output");
        },
    }
}

fn push_gtz_block(s: &mut String, name: &str, gtz: &GtzBel)
    requires
        gtz.dirs_ok(),
    ensures
        final(s)@ == old(s)@ + gtz_block(name@, *gtz),
{
    let ghost s0 = s@;
    s.append("gtz ");
    s.append(name);
    s.append(": ");
    match gtz.side {
        DirV::S => {
            s.append("S");
        },
        DirV::N => {
            s.append("N");
        },
    }
    s.append(" {\n");
    let ghost head = s@;
    assert(head == s0 + ("gtz "@ + name@ + ": "@ + dir_v_name(gtz.side) + " {\n"@));
    let f = Ghost(int_pin_lines_fn(gtz.pins@));
    let mut k: usize = 0;
    while k < gtz.pins.len()
        invariant
            k <= gtz.pins@.len(),
            gtz.dirs_ok(),
            f@ == int_pin_lines_fn(gtz.pins@),
            s@ == head + concat_map(k as nat, f@),
        decreases gtz.pins@.len() - k,
    {
        let ghost before = s@;
        let (pname, pin) = (&gtz.pins[k].0, gtz.pins[k].1);
        assert(!(gtz.pins@[k as int].1.dir is Inout));
        s.append("\t");
        push_pin_dir(s, pin.dir);
        s.append(" ");
        s.append(pname.as_str());
        s.append(" = INT GTZC");
        push_decimal(s, pin.col.0 as u64);
        s.append(" GTZR");
        push_decimal(s, pin.row.0 as u64);
        s.append(";\n");
        assert(s@ =~= before + f@(k as int));
        k = k + 1;
    }
    let ghost mid = s@;
    let g = Ghost(clk_pin_lines_fn(gtz.clk_pins@));
    let mut k: usize = 0;
    while k < gtz.clk_pins.len()
        invariant
            k <= gtz.clk_pins@.len(),
            gtz.dirs_ok(),
            g@ == clk_pin_lines_fn(gtz.clk_pins@),
            s@ == mid + concat_map(k as nat, g@),
        decreases gtz.clk_pins@.len() - k,
    {
        let ghost before = s@;
        let (pname, pin) = (&gtz.clk_pins[k].0, gtz.clk_pins[k].1);
        assert(!(gtz.clk_pins@[k as int].1.dir is Inout));
        s.append("\t");
        push_pin_dir(s, pin.dir);
        s.append(" ");
        s.append(pname.as_str());
        s.append(" = GCLK");
        push_decimal(s, pin.idx as u64);
        s.append(";\n");
        assert(s@ =~= before + g@(k as int));
        k = k + 1;
    }
    let ghost tail_start = s@;
    s.append("}\n");
    s.append("\n");
    proof {
        let h = "gtz "@ + name@ + ": "@ + dir_v_name(gtz.side) + " {\n"@;
        let p1 = concat_map(gtz.pins@.len(), f@);
        let p2 = concat_map(gtz.clk_pins@.len(), g@);
        vstd::seq_lib::lemma_concat_associative(s0, h, p1);
        vstd::seq_lib::lemma_concat_associative(s0, h + p1, p2);
        vstd::seq_lib::lemma_concat_associative(s0, h + p1 + p2, "}\n"@);
        vstd::seq_lib::lemma_concat_associative(s0, h + p1 + p2 + "}\n"@, "\n"@);
    }
}

impl GtzDb {
    /// The text form of the database.
    pub open spec fn spec_dump(self) -> Seq<char> {
        concat_map(self.gtz@.len(), gtz_blocks_fn(self.gtz@))
    }

    /// No pin of any GTZ kind is bidirectional.
    pub open spec fn dirs_ok(self) -> bool {
        forall|k: int| 0 <= k < self.gtz@.len() ==> (#[trigger] self.gtz@[k]).1.dirs_ok()
    }

    /// The text form of the database, as the database dump prints it.
    pub fn dump(&self) -> (r: String)
        requires
            self.dirs_ok(),
        ensures
            r@ == self.spec_dump(),
    {
        let mut s = String::new();
        let f = Ghost(gtz_blocks_fn(self.gtz@));
        let mut k: usize = 0;
        while k < self.gtz.len()
            invariant
                k <= self.gtz@.len(),
                self.dirs_ok(),
                f@ == gtz_blocks_fn(self.gtz@),
                s@ == concat_map(k as nat, f@),
            decreases self.gtz@.len() - k,
        {
            let ghost before = s@;
            assert(self.gtz@[k as int].1.dirs_ok());
            push_gtz_block(&mut s, self.gtz[k].0.as_str(), &self.gtz[k].1);
            k = k + 1;
        }
        s
    }
}

// ------------------------------------------------------------------------
// the interconnect columns of a GTZ

/// The index of the first column of a kind at or after column `i`, or the
/// column count if there is none.
pub open spec fn first_col_of_kind(cols: Seq<ColumnKind>, kind: ColumnKind, i: int) -> int
    decreases cols.len() - i,
{
    if i < 0 || i >= cols.len() {
        cols.len() as int
    } else if cols[i] == kind {
        i
    } else {
        first_col_of_kind(cols, kind, i + 1)
    }
}

/// A GTZ may use the interconnect of column `c`: a logic column, not one of
/// the six columns left of the configuration column.
pub open spec fn gtz_col_ok(chip: Chip, col_cfg: int, c: int) -> bool {
    (chip.columns@[c] is ClbLL || chip.columns@[c] is ClbLM) && !(col_cfg - 6 <= c < col_cfg)
}

/// The first `n` columns that a GTZ may use, going west from column `from`.
pub open spec fn gtz_cols_down(chip: Chip, col_cfg: int, from: int, n: nat) -> Seq<ColId>
    decreases from + 1,
{
    if n == 0 || from < 0 {
        Seq::empty()
    } else if gtz_col_ok(chip, col_cfg, from) {
        seq![ColId(from as usize)] + gtz_cols_down(chip, col_cfg, from - 1, (n - 1) as nat)
    } else {
        gtz_cols_down(chip, col_cfg, from - 1, n)
    }
}

/// The first `n` columns that a GTZ may use, going east from column `from`.
pub open spec fn gtz_cols_up(chip: Chip, col_cfg: int, from: int, n: nat) -> Seq<ColId>
    decreases chip.columns@.len() - from,
{
    if n == 0 || from < 0 || from >= chip.columns@.len() {
        Seq::empty()
    } else if gtz_col_ok(chip, col_cfg, from) {
        seq![ColId(from as usize)] + gtz_cols_up(chip, col_cfg, from + 1, (n - 1) as nat)
    } else {
        gtz_cols_up(chip, col_cfg, from + 1, n)
    }
}

/// The first column of a kind.
fn find_col(chip: &Chip, kind: ColumnKind) -> (r: usize)
    ensures
        r == first_col_of_kind(chip.columns@, kind, 0),
{
    let mut i: usize = 0;
    while i < chip.columns.len()
        invariant
            i <= chip.columns@.len(),
            first_col_of_kind(chip.columns@, kind, 0) == first_col_of_kind(chip.columns@, kind, i as int),
        decreases chip.columns@.len() - i,
    {
        if chip.columns[i] == kind {
            return i;
        }
        i = i + 1;
    }
    i
}

/// The scan for the GTZ columns can be made: the chip has a clock column
/// and a configuration column, that at least six columns from the west edge
/// where any column is wanted; enough columns can be found west of the
/// clock column without passing the west edge, and east of it.
pub open spec fn gtz_cols_ok(chip: Chip, num_l: nat, num_r: nat) -> bool {
    let cols = chip.columns@;
    let clk = first_col_of_kind(cols, ColumnKind::Clk, 0);
    let cfg = first_col_of_kind(cols, ColumnKind::Cfg, 0);
    let down = gtz_cols_down(chip, cfg, clk, num_l);
    &&& clk < cols.len()
    &&& cfg < cols.len()
    &&& (num_l > 0 || num_r > 0) ==> cfg >= 6
    &&& down.len() == num_l
    &&& num_l > 0 ==> down.last().0 > 0
    &&& gtz_cols_up(chip, cfg, clk, num_r).len() == num_r
}

/// The interconnect columns of a GTZ that uses `num_l` logic columns west
/// of the clock column and `num_r` east of it, west to east.
pub fn get_gtz_cols(chip: &Chip, num_l: usize, num_r: usize) -> (r: Vec<ColId>)
    requires
        gtz_cols_ok(*chip, num_l as nat, num_r as nat),
    ensures
        ({
            let cols = chip.columns@;
            let clk = first_col_of_kind(cols, ColumnKind::Clk, 0);
            let cfg = first_col_of_kind(cols, ColumnKind::Cfg, 0);
            r@ == gtz_cols_down(*chip, cfg, clk, num_l as nat).reverse() + gtz_cols_up(*chip, cfg, clk, num_r as nat)
        }),
{
    let ghost cols = chip.columns@;
    let col_clk = find_col(chip, ColumnKind::Clk);
    let col_cfg = find_col(chip, ColumnKind::Cfg);
    let ghost down = gtz_cols_down(*chip, col_cfg as int, col_clk as int, num_l as nat);
    let ghost up = gtz_cols_up(*chip, col_cfg as int, col_clk as int, num_r as nat);
    let mut res_l: Vec<ColId> = Vec::new();
    let mut col = col_clk;
    while res_l.len() < num_l
        invariant
            gtz_cols_ok(*chip, num_l as nat, num_r as nat),
            col_cfg == first_col_of_kind(cols, ColumnKind::Cfg, 0),
            cols == chip.columns@,
            col < cols.len(),
            res_l@.len() <= num_l,
            down == gtz_cols_down(*chip, col_cfg as int, col_clk as int, num_l as nat),
            down.len() == num_l,
            num_l > 0 ==> down.last().0 > 0,
            res_l@ + gtz_cols_down(*chip, col_cfg as int, col as int, (num_l - res_l@.len()) as nat) == down,
        decreases col,
    {
        let ghost rem = (num_l - res_l@.len()) as nat;
        let ghost rest = gtz_cols_down(*chip, col_cfg as int, col as int, rem);
        assert(rest.len() == rem) by {
            assert(res_l@.len() + rest.len() == down.len());
        }
        let k = chip.columns[col];
        let ok = (k == ColumnKind::ClbLL || k == ColumnKind::ClbLM) && !(col < col_cfg && col_cfg - col <= 6);
        assert(ok == gtz_col_ok(*chip, col_cfg as int, col as int));
        if ok {
            res_l.push(ColId(col));
            proof {
                let tail = gtz_cols_down(*chip, col_cfg as int, col - 1, (rem - 1) as nat);
                assert(rest == seq![ColId(col)] + tail);
                assert(res_l@ + tail =~= down);
                if rem == 1 {
                    assert(down.last() == ColId(col));
                }
            }
        }
        proof {
            if !ok {
                assert(rest == gtz_cols_down(*chip, col_cfg as int, col - 1, rem));
            }
            let rem2 = (num_l - res_l@.len()) as nat;
            assert(res_l@ + gtz_cols_down(*chip, col_cfg as int, col - 1, rem2) == down);
            if rem2 > 0 {
                assert(gtz_cols_down(*chip, col_cfg as int, col - 1, rem2).len() == rem2);
            }
        }
        col = col - 1;
    }
    assert(gtz_cols_down(*chip, col_cfg as int, col as int, 0) =~= Seq::<ColId>::empty());
    assert(res_l@ =~= down);
    let ncols = chip.columns.len();
    let mut res_r: Vec<ColId> = Vec::new();
    let mut col = col_clk;
    while res_r.len() < num_r
        invariant
            ncols == chip.columns@.len(),
            gtz_cols_ok(*chip, num_l as nat, num_r as nat),
            col_cfg == first_col_of_kind(cols, ColumnKind::Cfg, 0),
            cols == chip.columns@,
            col <= cols.len(),
            res_r@.len() <= num_r,
            up == gtz_cols_up(*chip, col_cfg as int, col_clk as int, num_r as nat),
            up.len() == num_r,
            res_r@ + gtz_cols_up(*chip, col_cfg as int, col as int, (num_r - res_r@.len()) as nat) == up,
        decreases cols.len() - col,
    {
        let ghost rem = (num_r - res_r@.len()) as nat;
        let ghost rest = gtz_cols_up(*chip, col_cfg as int, col as int, rem);
        assert(rest.len() == rem) by {
            assert(res_r@.len() + rest.len() == up.len());
        }
        assert(col < cols.len());
        let k = chip.columns[col];
        let ok = (k == ColumnKind::ClbLL || k == ColumnKind::ClbLM) && !(col < col_cfg && col_cfg - col <= 6);
        assert(ok == gtz_col_ok(*chip, col_cfg as int, col as int));
        if ok {
            res_r.push(ColId(col));
            proof {
                let tail = gtz_cols_up(*chip, col_cfg as int, col + 1, (rem - 1) as nat);
                assert(rest == seq![ColId(col)] + tail);
                assert(res_r@ + tail =~= up);
            }
        }
        col = col + 1;
    }
    assert(res_r@ =~= up);
    let mut r: Vec<ColId> = Vec::new();
    let mut i = res_l.len();
    while i > 0
        invariant
            i <= res_l@.len(),
            r@ == res_l@.subrange(i as int, res_l@.len() as int).reverse(),
        decreases i,
    {
        i = i - 1;
        r.push(res_l[i]);
        assert(r@ =~= res_l@.subrange(i as int, res_l@.len() as int).reverse());
    }
    assert(res_l@.subrange(0, res_l@.len() as int) =~= res_l@);
    let mut j: usize = 0;
    let ghost left = r@;
    while j < res_r.len()
        invariant
            j <= res_r@.len(),
            r@ == left + res_r@.take(j as int),
        decreases res_r@.len() - j,
    {
        r.push(res_r[j]);
        j = j + 1;
        assert(r@ =~= left + res_r@.take(j as int));
    }
    assert(res_r@.take(res_r@.len() as int) =~= res_r@);
    r
}

// ------------------------------------------------------------------------
// the GTZs of a device

/// A GTZ of a device: its kind (an index into the GTZ database), its bank,
/// the die it sits on, and the interconnect columns and rows it uses.
#[derive(Clone, Debug)]
pub struct ExpandedGtz {
    pub kind: usize,
    pub bank: u32,
    pub die: DieId,
    pub cols: Vec<ColId>,
    pub rows: Vec<RowId>,
}

/// A GTZ of a device as the specification describes it: kind, bank, die,
/// columns and rows.
pub type GtzView = (usize, u32, DieId, Seq<ColId>, Seq<RowId>);

/// The index of the first GTZ kind of a name, or the count if none has it.
pub open spec fn gtz_index(v: Seq<(String, GtzBel)>, name: Seq<char>, i: int) -> int
    decreases v.len() - i,
{
    if i < 0 || i >= v.len() {
        v.len() as int
    } else if v[i].0@ == name {
        i
    } else {
        gtz_index(v, name, i + 1)
    }
}

/// In a database whose names are distinct, the kind that a name finds is
/// the one kind of that name: the name names no other entry.
pub proof fn lemma_gtz_index_unique(db: GtzDb, name: Seq<char>)
    requires
        db.names_distinct(),
        gtz_index(db.gtz@, name, 0) < db.gtz@.len(),
    ensures
        db.gtz@[gtz_index(db.gtz@, name, 0)].0@ == name,
        forall|j: int| 0 <= j < db.gtz@.len() && #[trigger] db.gtz@[j].0@ == name ==> j == gtz_index(db.gtz@, name, 0),
{
    lemma_gtz_index_found(db.gtz@, name, 0);
    let k = gtz_index(db.gtz@, name, 0);
    assert forall|j: int| 0 <= j < db.gtz@.len() && #[trigger] db.gtz@[j].0@ == name implies j == k by {
        if j < k {
            assert(db.gtz@[j].0@ != db.gtz@[k].0@);
        } else if j > k {
            assert(db.gtz@[k].0@ != db.gtz@[j].0@);
        }
    }
}

proof fn lemma_gtz_index_found(v: Seq<(String, GtzBel)>, name: Seq<char>, i: int)
    requires
        0 <= i,
        gtz_index(v, name, i) < v.len(),
    ensures
        i <= gtz_index(v, name, i),
        v[gtz_index(v, name, i)].0@ == name,
    decreases v.len() - i,
{
    if i < v.len() && v[i].0@ != name {
        lemma_gtz_index_found(v, name, i + 1);
    }
}

fn find_gtz(db: &GtzDb, name: &str) -> (r: usize)
    ensures
        r == gtz_index(db.gtz@, name@, 0),
{
    let mut i: usize = 0;
    while i < db.gtz.len()
        invariant
            i <= db.gtz@.len(),
            gtz_index(db.gtz@, name@, 0) == gtz_index(db.gtz@, name@, i as int),
        decreases db.gtz@.len() - i,
    {
        if str_equals(db.gtz[i].0.as_str(), name) {
            return i;
        }
        i = i + 1;
    }
    i
}

/// The GTZ at the south edge of the southmost die: kind `GTZ_BOT`, bank
/// 400, using 46 columns west and 40 east of the clock column and the
/// rows from the second up.
pub open spec fn spec_gtz_bot(chips: Seq<Chip>, gdb: GtzDb) -> GtzView {
    let chip = chips[0];
    let cols = chip.columns@;
    let clk = first_col_of_kind(cols, ColumnKind::Clk, 0);
    let cfg = first_col_of_kind(cols, ColumnKind::Cfg, 0);
    let gcols = gtz_cols_down(chip, cfg, clk, 46).reverse() + gtz_cols_up(chip, cfg, clk, 40);
    let rows = Seq::new(49, |i: int| RowId((1 + i) as usize));
    (gtz_index(gdb.gtz@, "GTZ_BOT"@, 0) as usize, 400, DieId(0), gcols, rows)
}

/// The GTZ at the north edge of the northmost die: kind `GTZ_TOP`, bank
/// 300, using 40 columns west and 46 east of the clock column and the
/// rows of the top region but its last.
pub open spec fn spec_gtz_top(chips: Seq<Chip>, gdb: GtzDb) -> GtzView {
    let d = chips.len() - 1;
    let chip = chips[d];
    let cols = chip.columns@;
    let clk = first_col_of_kind(cols, ColumnKind::Clk, 0);
    let cfg = first_col_of_kind(cols, ColumnKind::Cfg, 0);
    let gcols = gtz_cols_down(chip, cfg, clk, 40).reverse() + gtz_cols_up(chip, cfg, clk, 46);
    let base = chip.regs * 50 - 50;
    let rows = Seq::new(49, |i: int| RowId((base + i) as usize));
    (gtz_index(gdb.gtz@, "GTZ_TOP"@, 0) as usize, 300, DieId(d as usize), gcols, rows)
}

/// The GTZ description matches the expected kind, bank, die, columns and rows.
pub open spec fn gtz_matches(g: ExpandedGtz, e: GtzView) -> bool {
    &&& g.kind == e.0
    &&& g.bank == e.1
    &&& g.die == e.2
    &&& g.cols@ == e.3
    &&& g.rows@ == e.4
}

/// The GTZs of a device can be laid out: their kinds are in the database,
/// and their dies have the columns and rows they need.
pub open spec fn gtz_ok(chips: Seq<Chip>, interposer: Interposer, gdb: GtzDb) -> bool {
    &&& interposer.gtz_bot ==> chips.len() > 0 && gtz_index(gdb.gtz@, "GTZ_BOT"@, 0) < gdb.gtz@.len()
        && gtz_cols_ok(chips[0], 46, 40)
    &&& interposer.gtz_top ==> chips.len() > 0 && gtz_index(gdb.gtz@, "GTZ_TOP"@, 0) < gdb.gtz@.len()
        && gtz_cols_ok(chips[chips.len() - 1], 40, 46) && 1 <= chips[chips.len() - 1].regs && chips[chips.len()
        - 1].regs * 50 <= usize::MAX
}

/// The GTZs of a Virtex 7 device: one at the south edge where the
/// interposer has a bottom GTZ, one at the north edge where it has a top
/// GTZ, in that order.
pub fn expand_gtz(chips: &Vec<Chip>, interposer: &Interposer, gdb: &GtzDb) -> (r: Vec<(DirV, ExpandedGtz)>)
    requires
        gtz_ok(chips@, *interposer, *gdb),
    ensures
        r@.len() == (if interposer.gtz_bot { 1int } else { 0int }) + (if interposer.gtz_top { 1int } else { 0int }),
        interposer.gtz_bot ==> r@[0].0 == DirV::S && gtz_matches(r@[0].1, spec_gtz_bot(chips@, *gdb)),
        interposer.gtz_top ==> r@[r@.len() - 1].0 == DirV::N && gtz_matches(
            r@[r@.len() - 1].1,
            spec_gtz_top(chips@, *gdb),
        ),
{
    let mut r: Vec<(DirV, ExpandedGtz)> = Vec::new();
    if interposer.gtz_bot {
        let kind = find_gtz(gdb, "GTZ_BOT");
        let cols = get_gtz_cols(&chips[0], 46, 40);
        let mut rows: Vec<RowId> = Vec::new();
        let mut i: usize = 0;
        while i < 49
            invariant
                i <= 49,
                rows@ == Seq::new(i as nat, |k: int| RowId((1 + k) as usize)),
            decreases 49 - i,
        {
            rows.push(RowId(1 + i));
            i = i + 1;
            assert(rows@ =~= Seq::new(i as nat, |k: int| RowId((1 + k) as usize)));
        }
        r.push((DirV::S, ExpandedGtz { kind, bank: 400, die: DieId(0), cols, rows }));
    }
    if interposer.gtz_top {
        let d = chips.len() - 1;
        let chip = &chips[d];
        let kind = find_gtz(gdb, "GTZ_TOP");
        let cols = get_gtz_cols(chip, 40, 46);
        let base = chip.regs * 50 - 50;
        let mut rows: Vec<RowId> = Vec::new();
        let mut i: usize = 0;
        while i < 49
            invariant
                i <= 49,
                base + 49 <= usize::MAX,
                rows@ == Seq::new(i as nat, |k: int| RowId((base + k) as usize)),
            decreases 49 - i,
        {
            rows.push(RowId(base + i));
            i = i + 1;
            assert(rows@ =~= Seq::new(i as nat, |k: int| RowId((base + k) as usize)));
        }
        r.push((DirV::N, ExpandedGtz { kind, bank: 300, die: DieId(d), cols, rows }));
    }
    r
}

} // verus!
