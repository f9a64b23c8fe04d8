//! Package pins of the XC2000 .. XC5200 families.
use vstd::prelude::*;
use vstd::string::*;
use crate::grid::{EdgeIoCoord, edge_io_name, push_edge_io_name};
use crate::seqs::{assoc_map, concat_map, keys_distinct, lemma_assoc_update};
use crate::text::{
    is_numbered_name, name_sort_key, utf8_len, first_digit, digits_value, is_stable_order, pad_right, pin_key,
    pin_order, push_padded, PinKey,
};
use crate::text::{check_names_ascending, lemma_pin_names_greatest, names_ascending, names_by_greatest, pin_names};

verus! {

/// A dedicated configuration pad.
#[derive(Clone, Copy, Debug, PartialEq, Eq, Structural, Hash)]
pub enum CfgPad {
    Cclk,
    Done,
    ProgB,
    PwrdwnB,
    M0,
    M1,
    // XC4000 only
    Tdo,
    M2,
}

/// What a package pin connects to.
#[derive(Clone, Copy, Debug, PartialEq, Eq, Structural, Hash)]
pub enum BondPad {
    Io(EdgeIoCoord),
    Gnd,
    Vcc,
    Nc,
    Cfg(CfgPad),
    // XC4000XV only
    VccInt,
}

/// The printed name of a `CfgPad`.
pub open spec fn cfg_pad_name(p: CfgPad) -> Seq<char> {
    match p {
        CfgPad::Cclk => "CCLK"@,
        CfgPad::Done => "DONE"@,
        CfgPad::ProgB => "PROG_B"@,
        CfgPad::PwrdwnB => "PWRDWN_B"@,
        CfgPad::M0 => "M0"@,
        CfgPad::M1 => "M1"@,
        CfgPad::Tdo => "TDO"@,
        CfgPad::M2 => "M2"@,
    }
}

/// Appends the printed name of a `CfgPad`.
pub fn push_cfg_pad_name(s: &mut String, p: CfgPad)
    ensures
        final(s)@ == old(s)@ + cfg_pad_name(p),
{
    match p {
        CfgPad::Cclk => {
            s.append("CCLK");
        },
        CfgPad::Done => {
            s.append("DONE");
        },
        CfgPad::ProgB => {
            s.append("PROG_B");
        },
        CfgPad::PwrdwnB => {
            s.append("PWRDWN_B");
        },
        CfgPad::M0 => {
            s.append("M0");
        },
        CfgPad::M1 => {
            s.append("M1");
        },
        CfgPad::Tdo => {
            s.append("TDO");
        },
        CfgPad::M2 => {
            s.append("M2");
        },
    }
    assert(s@ =~= old(s)@ + cfg_pad_name(p));
}

impl CfgPad {
    /// The printed name.
    pub fn to_string(&self) -> (r: String)
        ensures
            r@ == cfg_pad_name(*self),
    {
        let mut s = String::new();
        push_cfg_pad_name(&mut s, *self);
        s
    }
}

/// The printed name of a `BondPad`.
pub open spec fn bond_pad_name(p: BondPad) -> Seq<char> {
    match p {
        BondPad::Io(io) => edge_io_name(io),
        BondPad::Gnd => "GND"@,
        BondPad::Vcc => "VCC"@,
        BondPad::Nc => "NC"@,
        BondPad::Cfg(cfg_pin) => cfg_pad_name(cfg_pin),
        BondPad::VccInt => "VCCINT"@,
    }
}

/// Appends the printed name of a `BondPad`.
pub fn push_bond_pad_name(s: &mut String, p: BondPad)
    ensures
        final(s)@ == old(s)@ + bond_pad_name(p),
{
    match p {
        BondPad::Io(io) => {
            push_edge_io_name(s, io);
        },
        BondPad::Gnd => {
            s.append("GND");
        },
        BondPad::Vcc => {
            s.append("VCC");
        },
        BondPad::Nc => {
            s.append("NC");
        },
        BondPad::Cfg(cfg_pin) => {
            push_cfg_pad_name(s, cfg_pin);
        },
        BondPad::VccInt => {
            s.append("VCCINT");
        },
    }
    assert(s@ =~= old(s)@ + bond_pad_name(p));
}

impl BondPad {
    /// The printed name.
    pub fn to_string(&self) -> (r: String)
        ensures
            r@ == bond_pad_name(*self),
    {
        let mut s = String::new();
        push_bond_pad_name(&mut s, *self);
        s
    }
}



/// The pinout of a package: each pin name with what it connects to.  Pins
/// are held in ascending order of name, each name once (see
/// `Bond::pins_ascending`).
#[derive(Clone, Debug)]
pub struct Bond {
    pub pins: Vec<(String, BondPad)>,
}

impl Bond {
    /// The pins ascend strictly by name, so that each name occurs once.
    pub open spec fn pins_ascending(self) -> bool {
        names_ascending(self.pins@)
    }

    /// Whether the pins ascend strictly by name.
    pub fn check_pins_ascending(&self) -> (r: bool)
        ensures
            r == self.pins_ascending(),
    {
        check_names_ascending(&self.pins)
    }
}

/// A bond together with a lookup table from IOs to pin names.
pub struct ExpandedBond<'a> {
    pub bond: &'a Bond,
    pub ios: Vec<(EdgeIoCoord, String)>,
}

/// The key of an IO pad: the IO.
pub open spec fn io_sel() -> spec_fn(BondPad) -> Option<EdgeIoCoord> {
    |p: BondPad|
        match p {
            BondPad::Io(io) => Some(io),
            _ => None,
        }
}

/// The pin names of the IOs; of two pins of the same IO the later one counts.
pub open spec fn io_pin_names(pins: Seq<(String, BondPad)>) -> Map<EdgeIoCoord, Seq<char>> {
    pin_names(pins, io_sel())
}

fn upsert_io(v: &mut Vec<(EdgeIoCoord, String)>, k: EdgeIoCoord, name: String)
    requires
        keys_distinct(old(v)@),
    ensures
        keys_distinct(final(v)@),
        assoc_map(final(v)@) == assoc_map(old(v)@).insert(k, name@),
{
    let mut j: usize = 0;
    while j < v.len()
        invariant
            j <= v@.len(),
            v@ == old(v)@,
            keys_distinct(v@),
            forall|i: int| 0 <= i < j ==> (#[trigger] v@[i]).0 != k,
        decreases v.len() - j,
    {
        if v[j].0 == k {
            proof {
                lemma_assoc_update(v@, j as int, name);
            }
            let ghost before = v@;
            v.set(j, (k, name));
            assert(v@ == before.update(j as int, (before[j as int].0, name)));
            assert(keys_distinct(v@)) by {
                assert forall|a: int, b: int|
                    0 <= a < v@.len() && 0 <= b < v@.len() && a != b implies v@[a].0 != v@[b].0 by {
                    assert(v@[a].0 == before[a].0);
                    assert(v@[b].0 == before[b].0);
                }
            }
            return;
        }
        j = j + 1;
    }
    let ghost before = v@;
    v.push((k, name));
    assert(v@.drop_last() =~= before);
    assert(keys_distinct(v@)) by {
        assert forall|a: int, b: int|
            0 <= a < v@.len() && 0 <= b < v@.len() && a != b implies v@[a].0 != v@[b].0 by {
            if a < before.len() && b < before.len() {
                assert(v@[a] == before[a]);
                assert(v@[b] == before[b]);
            } else if a < before.len() {
                assert(v@[a] == before[a]);
            } else {
                assert(v@[b] == before[b]);
            }
        }
    }
}

impl Bond {
    /// The lookup table from IOs to pin names.  Where the pins ascend by
    /// name, as a bond's pins do, it gives the greatest name among the pins
    /// of an IO.
    pub fn expand(&self) -> (r: ExpandedBond<'_>)
        ensures
            r.bond == self,
            keys_distinct(r.ios@),
            assoc_map(r.ios@) == io_pin_names(self.pins@),
            self.pins_ascending() ==> names_by_greatest(self.pins@, io_sel(), assoc_map(r.ios@)),
    {
        let mut ios: Vec<(EdgeIoCoord, String)> = Vec::new();
        let mut i: usize = 0;
        while i < self.pins.len()
            invariant
                i <= self.pins@.len(),
                keys_distinct(ios@),
                assoc_map(ios@) == io_pin_names(self.pins@.take(i as int)),
            decreases self.pins.len() - i,
        {
            let ghost pre = self.pins@.take(i as int);
            let ghost post = self.pins@.take(i + 1);
            assert(post.drop_last() =~= pre);
            assert(post.last() == self.pins@[i as int]);
            if let BondPad::Io(io) = self.pins[i].1 {
                upsert_io(&mut ios, io, self.pins[i].0.clone());
            }
            i = i + 1;
        }
        assert(self.pins@.take(self.pins@.len() as int) =~= self.pins@);
        proof {
            if self.pins_ascending() {
                lemma_pin_names_greatest(self.pins@, io_sel());
            }
        }
        ExpandedBond { bond: self, ios }
    }
}

/// The sort key of a pin name: the byte position of its first digit, the
/// letters before it and the number from it on.
pub fn pad_sort_key(name: &str) -> (r: (usize, &str, u32))
    requires
        is_numbered_name(name@),
        utf8_len(name@) <= usize::MAX,
    ensures
        r.0 == utf8_len(name@.take(first_digit(name@))),
        r.1@ == name@.take(first_digit(name@)),
        r.2 == digits_value(name@.skip(first_digit(name@))),
{
    name_sort_key(name)
}

/// The line of a pin in the text form of a bond.
pub open spec fn pin_line(pin: (String, BondPad)) -> Seq<char> {
    "\t\t"@ + pad_right(pin.0@, 4) + ": "@ + bond_pad_name(pin.1) + "\n"@
}

pub open spec fn pin_lines_fn(pins: Seq<(String, BondPad)>, o: Seq<usize>) -> spec_fn(int) -> Seq<char> {
    |k: int| pin_line(pins[o[k] as int])
}

/// The text form of a bond whose pins are listed in the order `o`.
pub open spec fn bond_text(pins: Seq<(String, BondPad)>, o: Seq<usize>) -> Seq<char> {
    "\tPINS:\n"@ + concat_map(o.len(), pin_lines_fn(pins, o))
}

/// The sort keys of the pin names.
pub open spec fn pin_keys(pins: Seq<(String, BondPad)>) -> Seq<PinKey> {
    pins.map_values(|p: (String, BondPad)| pin_key(p.0@))
}

impl Bond {
    /// Every pin name is letters followed by a number.
    pub open spec fn names_ok(self) -> bool {
        forall|k: int|
            0 <= k < self.pins@.len() ==> is_numbered_name((#[trigger] self.pins@[k]).0@) && utf8_len(
                self.pins@[k].0@,
            ) <= usize::MAX
    }

    /// The text form of the bond: a line for each pin, in the order of
    /// their sort keys (see `pad_sort_key`), equal keys in list order; that
    /// order is unique (`text::lemma_stable_order_unique`).
    pub fn dump(&self) -> (r: String)
        requires
            self.names_ok(),
        ensures
            exists|o: Seq<usize>| is_stable_order(pin_keys(self.pins@), o) && r@ == bond_text(self.pins@, o),
    {
        let mut names: Vec<&str> = Vec::new();
        let mut k: usize = 0;
        while k < self.pins.len()
            invariant
                k <= self.pins@.len(),
                self.names_ok(),
                names@.len() == k,
                forall|j: int| 0 <= j < k ==> (#[trigger] names@[j])@ == self.pins@[j].0@,
            decreases self.pins@.len() - k,
        {
            names.push(self.pins[k].0.as_str());
            k = k + 1;
        }
        proof {
            assert forall|j: int| 0 <= j < names@.len() implies is_numbered_name((#[trigger] names@[j])@) && utf8_len(
                names@[j]@,
            ) <= usize::MAX by {
                assert(names@[j]@ == self.pins@[j].0@);
            }
        }
        let order = pin_order(&names);
        assert(names@.map_values(|n: &str| pin_key(n@)) =~= pin_keys(self.pins@));
        let mut s = String::new();
        s.append("\tPINS:\n");
        let ghost mid = s@;
        let f = Ghost(pin_lines_fn(self.pins@, order@));
        let mut i: usize = 0;
        while i < order.len()
            invariant
                i <= order@.len(),
                order@.len() == self.pins@.len(),
                forall|j: int| 0 <= j < order@.len() ==> #[trigger] order@[j] < self.pins@.len(),
                f@ == pin_lines_fn(self.pins@, order@),
                s@ == mid + concat_map(i as nat, f@),
            decreases order@.len() - i,
        {
            let ghost before = s@;
            let p = &self.pins[order[i]];
            s.append("\t\t");
            push_padded(&mut s, p.0.as_str(), 4);
            s.append(": ");
            push_bond_pad_name(&mut s, p.1);
            s.append("\n");
            assert(s@ =~= before + f@(i as int));
            i = i + 1;
        }
        assert(s@ == bond_text(self.pins@, order@));
        s
    }
}

} // verus!
