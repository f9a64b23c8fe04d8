//! The boundary scan chain of the XC4000 and XC5200 families.
use vstd::prelude::*;
use crate::grid::EdgeIoCoord;
use crate::seqs::{concat_map, lemma_filter_no_duplicates};
use crate::xc2000::bond::CfgPad;
use crate::xc2000::chip::{lemma_bonded_ios_distinct, Chip, ChipKind};

verus! {

/// The boundary scan cells of a pad: the bit positions of its input,
/// output and output enable cells.
#[derive(Clone, Copy, Debug, PartialEq, Eq, Structural, Hash)]
pub enum BScanPad {
    Input { i: usize },
    OutputTristate { t: usize, o: usize },
    BiTristate { t: usize, o: usize, i: usize },
}

/// Hands out boundary scan cells in chain order.  A pad's cells are handed
/// out together, in the order their names list them: enable, output, input.
pub struct BScanBuilder {
    pub bits: usize,
}

impl BScanBuilder {
    pub fn new() -> (r: BScanBuilder)
        ensures
            r.bits == 0,
    {
        BScanBuilder { bits: 0 }
    }

    /// An input-only cell.
    pub fn get_i(&mut self) -> (r: BScanPad)
        requires
            old(self).bits + 1 <= usize::MAX,
        ensures
            r == (BScanPad::Input { i: old(self).bits }),
            final(self).bits == old(self).bits + 1,
    {
        let r = BScanPad::Input { i: self.bits };
        self.bits = self.bits + 1;
        r
    }

    /// A tristate output: enable and output cells.
    pub fn get_to(&mut self) -> (r: BScanPad)
        requires
            old(self).bits + 2 <= usize::MAX,
        ensures
            r == (BScanPad::OutputTristate { t: old(self).bits, o: (old(self).bits + 1) as usize }),
            final(self).bits == old(self).bits + 2,
    {
        let r = BScanPad::OutputTristate { t: self.bits, o: self.bits + 1 };
        self.bits = self.bits + 2;
        r
    }

    /// A bidirectional pad: enable, output and input cells.
    pub fn get_toi(&mut self) -> (r: BScanPad)
        requires
            old(self).bits + 3 <= usize::MAX,
        ensures
            r == (BScanPad::BiTristate {
                t: old(self).bits,
                o: (old(self).bits + 1) as usize,
                i: (old(self).bits + 2) as usize,
            }),
            final(self).bits == old(self).bits + 3,
    {
        let r = BScanPad::BiTristate { t: self.bits, o: self.bits + 1, i: self.bits + 2 };
        self.bits = self.bits + 3;
        r
    }
}

/// The boundary scan chain: its length, the cells of each IO and of each
/// configuration pad, and the position of the update cell.
#[derive(Clone, Debug)]
pub struct BScan {
    pub bits: usize,
    pub io: Vec<(EdgeIoCoord, BScanPad)>,
    pub cfg: Vec<(CfgPad, BScanPad)>,
    pub upd: usize,
}

/// The bidirectional cells starting at bit `b`.
pub open spec fn toi_at(b: int) -> BScanPad {
    BScanPad::BiTristate { t: b as usize, o: (b + 1) as usize, i: (b + 2) as usize }
}

/// The IOs of a list, each with bidirectional cells, from bit `start` on.
pub open spec fn chained(ios: Seq<EdgeIoCoord>, start: int) -> Seq<(EdgeIoCoord, BScanPad)> {
    Seq::new(ios.len(), |k: int| (ios[k], toi_at(start + 3 * k)))
}

impl Chip {
    /// The bonded IOs of the north and east edges, in chain order.
    pub open spec fn bscan_ios_ne(self) -> Seq<EdgeIoCoord> {
        (concat_map(self.columns as nat, self.bonded_n()) + concat_map(self.rows as nat, self.bonded_e())).filter(
            |io: EdgeIoCoord| !self.unbonded_io@.contains(io),
        )
    }

    /// The bonded IOs of the south and west edges, in chain order.
    pub open spec fn bscan_ios_sw(self) -> Seq<EdgeIoCoord> {
        (concat_map(self.columns as nat, self.bonded_s()) + concat_map(self.rows as nat, self.bonded_w())).filter(
            |io: EdgeIoCoord| !self.unbonded_io@.contains(io),
        )
    }

    /// The number of chain bits before the first IO (the TDO cells of the XC4000).
    pub open spec fn bscan_start(self) -> int {
        if self.kind.spec_is_xc4000() { 2 } else { 0 }
    }

    /// The first bit after the north and east IOs.
    pub open spec fn bscan_mid(self) -> int {
        self.bscan_start() + 3 * self.bscan_ios_ne().len()
    }

    /// The number of mode pin cells between the two halves of the chain.
    pub open spec fn bscan_mode_bits(self) -> int {
        if self.kind.spec_is_xc4000() {
            if self.kind is SpartanXl { 4 } else { 5 }
        } else {
            0
        }
    }

    /// The first bit of the south and west IOs.
    pub open spec fn bscan_sw_start(self) -> int {
        self.bscan_mid() + self.bscan_mode_bits()
    }

    /// The position of the update cell: after all IO cells.
    pub open spec fn bscan_upd(self) -> int {
        self.bscan_sw_start() + 3 * self.bscan_ios_sw().len()
    }

    /// The configuration pad cells of the chain.
    pub open spec fn bscan_cfg(self) -> Seq<(CfgPad, BScanPad)> {
        if self.kind.spec_is_xc4000() {
            let m = self.bscan_mid();
            let head = seq![
                (CfgPad::Tdo, BScanPad::OutputTristate { t: 0, o: 1 }),
                (CfgPad::M1, toi_at(m)),
                (CfgPad::M0, BScanPad::Input { i: (m + 3) as usize }),
            ];
            if self.kind is SpartanXl {
                head
            } else {
                head.push((CfgPad::M2, BScanPad::Input { i: (m + 4) as usize }))
            }
        } else {
            seq![]
        }
    }

    /// The chain fits in the index range.
    pub open spec fn bscan_fits(self) -> bool {
        self.bscan_upd() + 1 <= usize::MAX
    }
}

fn contains_io(v: &Vec<EdgeIoCoord>, io: EdgeIoCoord) -> (r: bool)
    ensures
        r == v@.contains(io),
{
    let mut i: usize = 0;
    while i < v.len()
        invariant
            i <= v@.len(),
            forall|j: int| 0 <= j < i ==> v@[j] != io,
        decreases v.len() - i,
    {
        if v[i] == io {
            assert(v@[i as int] == io);
            return true;
        }
        i = i + 1;
    }
    false
}

/// Appends the bonded IOs of `cands` to the chain, each with bidirectional cells.
fn chain_ios(
    chip: &Chip,
    cands: &Vec<EdgeIoCoord>,
    builder: &mut BScanBuilder,
    io: &mut Vec<(EdgeIoCoord, BScanPad)>,
)
    requires
        old(builder).bits + 3 * cands@.filter(|c: EdgeIoCoord| !chip.unbonded_io@.contains(c)).len() <= usize::MAX,
    ensures
        final(io)@ == old(io)@ + chained(
            cands@.filter(|c: EdgeIoCoord| !chip.unbonded_io@.contains(c)),
            old(builder).bits as int,
        ),
        final(builder).bits == old(builder).bits + 3 * cands@.filter(
            |c: EdgeIoCoord| !chip.unbonded_io@.contains(c),
        ).len(),
{
    let ghost pred = |c: EdgeIoCoord| !chip.unbonded_io@.contains(c);
    let ghost start = builder.bits as int;
    let ghost all = cands@.filter(pred);
    let mut i: usize = 0;
    while i < cands.len()
        invariant
            i <= cands@.len(),
            pred == (|c: EdgeIoCoord| !chip.unbonded_io@.contains(c)),
            all == cands@.filter(pred),
            start + 3 * all.len() <= usize::MAX,
            cands@.take(i as int).filter(pred).len() <= all.len(),
            io@ == old(io)@ + chained(cands@.take(i as int).filter(pred), start),
            builder.bits == start + 3 * cands@.take(i as int).filter(pred).len(),
        decreases cands.len() - i,
    {
        let ghost pre = cands@.take(i as int);
        let ghost post = cands@.take(i + 1);
        assert(post.drop_last() =~= pre);
        assert(post.last() == cands@[i as int]);
        reveal_with_fuel(Seq::filter, 1);
        proof {
            crate::seqs::lemma_filter_prefix_len(cands@, pred, i + 1);
        }
        let c = cands[i];
        if !contains_io(&chip.unbonded_io, c) {
            let pad = builder.get_toi();
            io.push((c, pad));
            assert(io@ =~= old(io)@ + chained(post.filter(pred), start));
        } else {
            assert(post.filter(pred) == pre.filter(pred));
        }
        i = i + 1;
    }
    assert(cands@.take(cands@.len() as int) =~= cands@);
}

impl Chip {
    /// The boundary scan chain of an XC4000 or XC5200 chip: the top edge,
    /// then the right edge, the mode pins, the bottom edge and the left edge,
    /// each in package order and leaving out the unbonded IOs.
    pub fn get_bscan(&self) -> (r: BScan)
        requires
            !(self.kind is Xc2000),
            !self.kind.spec_is_xc3000(),
            self.bscan_fits(),
        ensures
            r.io@ == chained(self.bscan_ios_ne(), self.bscan_start()) + chained(
                self.bscan_ios_sw(),
                self.bscan_sw_start(),
            ),
            r.cfg@ == self.bscan_cfg(),
            r.upd == self.bscan_upd(),
            r.bits == self.bscan_upd() + 1,
    {
        let mut io: Vec<(EdgeIoCoord, BScanPad)> = Vec::new();
        let mut cfg: Vec<(CfgPad, BScanPad)> = Vec::new();
        let mut builder = BScanBuilder::new();
        let xc4000 = self.kind.is_xc4000();
        if xc4000 {
            cfg.push((CfgPad::Tdo, builder.get_to()));
        }
        let ne = self.bonded_ios_ne();
        chain_ios(self, &ne, &mut builder, &mut io);
        if xc4000 {
            cfg.push((CfgPad::M1, builder.get_toi()));
            cfg.push((CfgPad::M0, builder.get_i()));
            if !matches!(self.kind, ChipKind::SpartanXl) {
                cfg.push((CfgPad::M2, builder.get_i()));
            }
        }
        let sw = self.bonded_ios_sw();
        chain_ios(self, &sw, &mut builder, &mut io);
        let upd = builder.bits;
        builder.bits = builder.bits + 1;
        assert(cfg@ =~= self.bscan_cfg());
        BScan { bits: builder.bits, io, cfg, upd }
    }
}

/// The IOs that the boundary scan chain of a chip covers: the first of
/// each IO cell pair.
pub open spec fn bscan_io_keys(chip: Chip) -> Seq<EdgeIoCoord> {
    (chained(chip.bscan_ios_ne(), chip.bscan_start()) + chained(chip.bscan_ios_sw(), chip.bscan_sw_start())).map_values(
        |p: (EdgeIoCoord, BScanPad)| p.0,
    )
}

/// The boundary scan chain covers each bonded IO of the chip that is not
/// unbonded, each once, and no other IO.
pub proof fn lemma_bscan_ios_are_bonded(chip: Chip)
    requires
        chip.columns >= 2,
        chip.rows >= 2,
    ensures
        bscan_io_keys(chip).no_duplicates(),
        forall|io: EdgeIoCoord|
            #[trigger] bscan_io_keys(chip).contains(io) <==> chip.spec_bonded_ios().contains(io)
                && !chip.unbonded_io@.contains(io),
{
    let pred = |io: EdgeIoCoord| !chip.unbonded_io@.contains(io);
    let a = concat_map(chip.columns as nat, chip.bonded_n());
    let b = concat_map(chip.rows as nat, chip.bonded_e());
    let c = concat_map(chip.columns as nat, chip.bonded_s());
    let d = concat_map(chip.rows as nat, chip.bonded_w());
    let all = chip.spec_bonded_ios();
    assert(all == (a + b) + (c + d));
    Seq::filter_distributes_over_add(a + b, c + d, pred);
    assert(bscan_io_keys(chip) =~= all.filter(pred));
    lemma_bonded_ios_distinct(chip);
    lemma_filter_no_duplicates(all, pred);
    assert forall|io: EdgeIoCoord| #[trigger] bscan_io_keys(chip).contains(io) <==> all.contains(io) && pred(io) by {
        if all.filter(pred).contains(io) {
            all.lemma_filter_contains_rev(pred, io);
            let k = choose|k: int| 0 <= k < all.filter(pred).len() && all.filter(pred)[k] == io;
            all.lemma_filter_pred(pred, k);
        }
        if all.contains(io) && pred(io) {
            let k = choose|k: int| 0 <= k < all.len() && all[k] == io;
            all.lemma_filter_contains(pred, k);
        }
    }
}

} // verus!
