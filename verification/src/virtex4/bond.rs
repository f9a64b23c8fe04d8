//! Package pins of the Virtex 4 .. Virtex 7 families.
use vstd::prelude::*;
use vstd::string::*;
use crate::text::{decimal, push_decimal, is_digit, lemma_decimal_digits, lemma_decimal_injective, lemma_word_number_split};
use crate::seqs::{assoc_map, concat_map, keys_distinct, lemma_assoc_update};
use crate::text::{
    is_numbered_name, name_sort_key, utf8_len, first_digit, digits_value, is_stable_order, pad_right, pin_key,
    pin_order, push_padded, PinKey,
};
use crate::text::{check_names_ascending, lemma_pin_names_greatest, names_ascending, names_by_greatest, pin_names};
use std::collections::BTreeMap;

verus! {

/// A dedicated configuration pad.
#[derive(Clone, Copy, Debug, PartialEq, Eq, Structural, Hash)]
pub enum CfgPad {
    Tck,
    Tdi,
    Tdo,
    Tms,
    Cclk,
    Done,
    ProgB,
    InitB,
    M0,
    M1,
    M2,
    HswapEn,
    // [V7] these 4 are shared instead
    RdWrB,
    CsiB,
    Din,
    Dout,
    // V4 only
    PwrdwnB,
    // V7 only
    CfgBvs,
}

/// A pad of a transceiver.
#[derive(Clone, Copy, Debug, PartialEq, Eq, Structural, Hash)]
pub enum GtPad {
    RxP(u8),
    RxN(u8),
    TxP(u8),
    TxN(u8),
    ClkP(u8),
    ClkN(u8),
    // V4
    GndA,
    AVccAuxRx(u8),
    AVccAuxTx,
    AVccAuxMgt,
    RTerm,
    MgtVRef,
    // V4, V5
    VtRx(u8),
    VtTx(u8),
    // V5
    AVcc,
    AVccPll,
    // V5, V6, V7
    RRef,
    // V6, V7
    AVttRCal,
    // V6
    RBias,
}

/// A region of transceiver power pads.
#[derive(Clone, Copy, Debug, PartialEq, Eq, Structural, Hash)]
pub enum GtRegion {
    All,
    S,
    N,
    L,
    R,
    LS,
    RS,
    LN,
    RN,
    H,
    LH,
    RH,
    Num(u32),
}

/// A transceiver power pad of a region.
#[derive(Clone, Copy, Debug, PartialEq, Eq, Structural, Hash)]
pub enum GtRegionPad {
    AVtt,
    AGnd,
    AVcc,
    AVccRx,
    AVccPll,
    AVttRxC,
    VccAux,
}

/// A pad of the system monitor.
#[derive(Clone, Copy, Debug, PartialEq, Eq, Structural, Hash)]
pub enum SysMonPad {
    VP,
    VN,
    AVss,
    AVdd,
    VRefP,
    VRefN,
}

/// A pad of a GTZ transceiver.
#[derive(Clone, Copy, Debug, PartialEq, Eq, Structural, Hash)]
pub enum GtzPad {
    RxP(u8),
    RxN(u8),
    TxP(u8),
    TxN(u8),
    ClkP(u8),
    ClkN(u8),
    AGnd,
    AVcc,
    VccH,
    VccL,
    ObsClkP,
    ObsClkN,
    ThermIn,
    ThermOut,
    SenseAGnd,
    SenseGnd,
    SenseGndL,
    SenseAVcc,
    SenseVcc,
    SenseVccL,
    SenseVccH,
}

/// A pad of the processing system of a Zynq chip.
#[derive(Clone, Copy, Debug, PartialEq, Eq, Structural, Hash)]
pub enum PsPad {
    Mio(u32),
    Clk,
    PorB,
    SrstB,
    DdrDq(u32),
    DdrDm(u32),
    DdrDqsP(u32),
    DdrDqsN(u32),
    DdrA(u32),
    DdrBa(u32),
    DdrVrP,
    DdrVrN,
    DdrCkP,
    DdrCkN,
    DdrCke,
    DdrOdt,
    DdrDrstB,
    DdrCsB,
    DdrRasB,
    DdrCasB,
    DdrWeB,
}

/// What a package pin connects to.
#[derive(Clone, Copy, Debug, PartialEq, Eq, Structural, Hash)]
pub enum BondPad {
    // bank, pin within bank
    Io(u32, u32),
    Nc,
    Gnd,
    Rsvd,
    VccInt,
    VccAux,
    VccBram,
    VccO(u32),
    VccBatt,
    VccAuxIo(u32),
    RsvdGnd,
    Cfg(CfgPad),
    Gt(u32, GtPad),
    Gtz(u32, GtzPad),
    GtRegion(GtRegion, GtRegionPad),
    Dxp,
    Dxn,
    Vfs,
    SysMon(u32, SysMonPad),
    VccPsInt,
    VccPsAux,
    VccPsPll,
    PsVref(u32, u32),
    PsIo(u32, PsPad),
}

/// A configuration pad shared with a general-purpose IO.
#[derive(Clone, Copy, Debug, PartialEq, Eq, Structural, Hash)]
pub enum SharedCfgPad {
    // ×32
    // [V5+] high 16 bits are also low 16 bits of Addr
    // [V5, V6] 0-2 double as FS
    // [V7] 0 doubles as MOSI, 1 doubles as DIN
    Data(u8),
    // the following are V5+
    Addr(u8),  // ×26 [V5, V6] or ×29 [V7] total, but 0-15 are represented as Data(16-31)
    Rs(u8),  // ×2
    CsoB,  // [V7] doubles as DOUT
    FweB,
    FoeB,  // [V5, V6] doubles as MOSI
    FcsB,
    // the following are V7-only
    CsiB,
    RdWrB,
    EmCclk,
    PudcB,
    AdvB,
}

/// The printed name of a `CfgPad`.
pub open spec fn cfg_pad_name(p: CfgPad) -> Seq<char> {
    match p {
        CfgPad::Cclk => "CCLK"@,
        CfgPad::Done => "DONE"@,
        CfgPad::M0 => "M0"@,
        CfgPad::M1 => "M1"@,
        CfgPad::M2 => "M2"@,
        CfgPad::ProgB => "PROG_B"@,
        CfgPad::InitB => "INIT_B"@,
        CfgPad::RdWrB => "RDWR_B"@,
        CfgPad::CsiB => "CSI_B"@,
        CfgPad::Tck => "TCK"@,
        CfgPad::Tms => "TMS"@,
        CfgPad::Tdi => "TDI"@,
        CfgPad::Tdo => "TDO"@,
        CfgPad::PwrdwnB => "PWRDWN_B"@,
        CfgPad::HswapEn => "HSWAP_EN"@,
        CfgPad::Din => "DIN"@,
        CfgPad::Dout => "DOUT"@,
        CfgPad::CfgBvs => "CFGBVS"@,
    }
}

/// Appends the printed name of a `CfgPad`.
pub fn push_cfg_pad_name(s: &mut String, p: CfgPad)
    ensures
        final(s)@ == old(s)@ + cfg_pad_name(p),
{
    match p {
        CfgPad::Cclk => {
            s.append("CCLK");
        },
        CfgPad::Done => {
            s.append("DONE");
        },
        CfgPad::M0 => {
            s.append("M0");
        },
        CfgPad::M1 => {
            s.append("M1");
        },
        CfgPad::M2 => {
            s.append("M2");
        },
        CfgPad::ProgB => {
            s.append("PROG_B");
        },
        CfgPad::InitB => {
            s.append("INIT_B");
        },
        CfgPad::RdWrB => {
            s.append("RDWR_B");
        },
        CfgPad::CsiB => {
            s.append("CSI_B");
        },
        CfgPad::Tck => {
            s.append("TCK");
        },
        CfgPad::Tms => {
            s.append("TMS");
        },
        CfgPad::Tdi => {
            s.append("TDI");
        },
        CfgPad::Tdo => {
            s.append("TDO");
        },
        CfgPad::PwrdwnB => {
            s.append("PWRDWN_B");
        },
        CfgPad::HswapEn => {
            s.append("HSWAP_EN");
        },
        CfgPad::Din => {
            s.append("DIN");
        },
        CfgPad::Dout => {
            s.append("DOUT");
        },
        CfgPad::CfgBvs => {
            s.append("CFGBVS");
        },
    }
    assert(s@ =~= old(s)@ + cfg_pad_name(p));
}

impl CfgPad {
    /// The printed name.
    pub fn to_string(&self) -> (r: String)
        ensures
            r@ == cfg_pad_name(*self),
    {
        let mut s = String::new();
        push_cfg_pad_name(&mut s, *self);
        s
    }
}

/// The printed name of a `GtPad`.
pub open spec fn gt_pad_name(p: GtPad) -> Seq<char> {
    match p {
        GtPad::RxP(idx) => "RXP"@ + decimal(idx as nat),
        GtPad::RxN(idx) => "RXN"@ + decimal(idx as nat),
        GtPad::TxP(idx) => "TXP"@ + decimal(idx as nat),
        GtPad::TxN(idx) => "TXN"@ + decimal(idx as nat),
        GtPad::ClkP(idx) => "CLKP"@ + decimal(idx as nat),
        GtPad::ClkN(idx) => "CLKN"@ + decimal(idx as nat),
        GtPad::GndA => "GNDA"@,
        GtPad::AVccAuxTx => "AVCCAUXTX"@,
        GtPad::AVccAuxRx(idx) => "AVCCAUXRX"@ + decimal(idx as nat),
        GtPad::AVccAuxMgt => "AVCCAUXMGT"@,
        GtPad::RTerm => "RTERM"@,
        GtPad::MgtVRef => "MGTVREF"@,
        GtPad::VtRx(idx) => "VTRX"@ + decimal(idx as nat),
        GtPad::VtTx(idx) => "VTTX"@ + decimal(idx as nat),
        GtPad::AVcc => "AVCC"@,
        GtPad::AVccPll => "AVCCPLL"@,
        GtPad::RRef => "RREF"@,
        GtPad::AVttRCal => "AVTTRCAL"@,
        GtPad::RBias => "RBIAS"@,
    }
}

/// The word of a transceiver pad's name: the name without its index.
spec fn gt_pad_word(p: GtPad) -> Seq<char> {
    match p {
        GtPad::RxP(_) => "RXP"@,
        GtPad::RxN(_) => "RXN"@,
        GtPad::TxP(_) => "TXP"@,
        GtPad::TxN(_) => "TXN"@,
        GtPad::ClkP(_) => "CLKP"@,
        GtPad::ClkN(_) => "CLKN"@,
        GtPad::GndA => "GNDA"@,
        GtPad::AVccAuxTx => "AVCCAUXTX"@,
        GtPad::AVccAuxRx(_) => "AVCCAUXRX"@,
        GtPad::AVccAuxMgt => "AVCCAUXMGT"@,
        GtPad::RTerm => "RTERM"@,
        GtPad::MgtVRef => "MGTVREF"@,
        GtPad::VtRx(_) => "VTRX"@,
        GtPad::VtTx(_) => "VTTX"@,
        GtPad::AVcc => "AVCC"@,
        GtPad::AVccPll => "AVCCPLL"@,
        GtPad::RRef => "RREF"@,
        GtPad::AVttRCal => "AVTTRCAL"@,
        GtPad::RBias => "RBIAS"@,
    }
}

/// The index of a transceiver pad, for the kinds that have one.
spec fn gt_pad_index(p: GtPad) -> Option<u8> {
    match p {
        GtPad::RxP(i) | GtPad::RxN(i) | GtPad::TxP(i) | GtPad::TxN(i) | GtPad::ClkP(i) | GtPad::ClkN(i)
        | GtPad::AVccAuxRx(i) | GtPad::VtRx(i) | GtPad::VtTx(i) => Some(i),
        _ => None,
    }
}

/// A few letters of a word, enough to tell the pad words apart.
spec fn word_sig(w: Seq<char>) -> (nat, char, char, char, char, char) {
    (
        w.len(),
        w[0],
        w[1],
        w[2],
        if w.len() > 3 { w[3] } else { ' ' },
        if w.len() > 7 { w[7] } else { ' ' },
    )
}

/// The kind of a transceiver pad, by its place in the list of kinds.
spec fn gt_pad_code(p: GtPad) -> int {
    match p {
        GtPad::RxP(_) => 0,
        GtPad::RxN(_) => 1,
        GtPad::TxP(_) => 2,
        GtPad::TxN(_) => 3,
        GtPad::ClkP(_) => 4,
        GtPad::ClkN(_) => 5,
        GtPad::GndA => 6,
        GtPad::AVccAuxRx(_) => 7,
        GtPad::AVccAuxTx => 8,
        GtPad::AVccAuxMgt => 9,
        GtPad::RTerm => 10,
        GtPad::MgtVRef => 11,
        GtPad::VtRx(_) => 12,
        GtPad::VtTx(_) => 13,
        GtPad::AVcc => 14,
        GtPad::AVccPll => 15,
        GtPad::RRef => 16,
        GtPad::AVttRCal => 17,
        GtPad::RBias => 18,
    }
}

proof fn lemma_gt_pad_word(p: GtPad)
    ensures
        word_sig(gt_pad_word(p)) == match p {
            GtPad::RxP(_) => (3nat, 'R', 'X', 'P', ' ', ' '),
            GtPad::RxN(_) => (3nat, 'R', 'X', 'N', ' ', ' '),
            GtPad::TxP(_) => (3nat, 'T', 'X', 'P', ' ', ' '),
            GtPad::TxN(_) => (3nat, 'T', 'X', 'N', ' ', ' '),
            GtPad::ClkP(_) => (4nat, 'C', 'L', 'K', 'P', ' '),
            GtPad::ClkN(_) => (4nat, 'C', 'L', 'K', 'N', ' '),
            GtPad::GndA => (4nat, 'G', 'N', 'D', 'A', ' '),
            GtPad::AVccAuxTx => (9nat, 'A', 'V', 'C', 'C', 'T'),
            GtPad::AVccAuxRx(_) => (9nat, 'A', 'V', 'C', 'C', 'R'),
            GtPad::AVccAuxMgt => (10nat, 'A', 'V', 'C', 'C', 'M'),
            GtPad::RTerm => (5nat, 'R', 'T', 'E', 'R', ' '),
            GtPad::MgtVRef => (7nat, 'M', 'G', 'T', 'V', ' '),
            GtPad::VtRx(_) => (4nat, 'V', 'T', 'R', 'X', ' '),
            GtPad::VtTx(_) => (4nat, 'V', 'T', 'T', 'X', ' '),
            GtPad::AVcc => (4nat, 'A', 'V', 'C', 'C', ' '),
            GtPad::AVccPll => (7nat, 'A', 'V', 'C', 'C', ' '),
            GtPad::RRef => (4nat, 'R', 'R', 'E', 'F', ' '),
            GtPad::AVttRCal => (8nat, 'A', 'V', 'T', 'T', 'L'),
            GtPad::RBias => (5nat, 'R', 'B', 'I', 'A', ' '),
        },
        forall|i: int| 0 <= i < gt_pad_word(p).len() ==> !is_digit(#[trigger] gt_pad_word(p)[i]),
{
    reveal_strlit("RXP");
    reveal_strlit("RXN");
    reveal_strlit("TXP");
    reveal_strlit("TXN");
    reveal_strlit("CLKP");
    reveal_strlit("CLKN");
    reveal_strlit("GNDA");
    reveal_strlit("AVCCAUXTX");
    reveal_strlit("AVCCAUXRX");
    reveal_strlit("AVCCAUXMGT");
    reveal_strlit("RTERM");
    reveal_strlit("MGTVREF");
    reveal_strlit("VTRX");
    reveal_strlit("VTTX");
    reveal_strlit("AVCC");
    reveal_strlit("AVCCPLL");
    reveal_strlit("RREF");
    reveal_strlit("AVTTRCAL");
    reveal_strlit("RBIAS");
}

/// The printed names of transceiver pads tell the pads apart: two pads with
/// the same name are the same pad.  In particular the negative pads are
/// named apart from the positive ones (`RXN0` against `RXP0`).
pub proof fn lemma_gt_pad_name_injective(p: GtPad, q: GtPad)
    ensures
        gt_pad_name(p) == gt_pad_name(q) ==> p == q,
{
    if gt_pad_name(p) == gt_pad_name(q) {
        let sp = match gt_pad_index(p) {
            Some(i) => decimal(i as nat),
            None => Seq::empty(),
        };
        let sq = match gt_pad_index(q) {
            Some(i) => decimal(i as nat),
            None => Seq::empty(),
        };
        assert(gt_pad_name(p) =~= gt_pad_word(p) + sp);
        assert(gt_pad_name(q) =~= gt_pad_word(q) + sq);
        lemma_gt_pad_word(p);
        lemma_gt_pad_word(q);
        if let Some(i) = gt_pad_index(p) {
            lemma_decimal_digits(i as nat);
        }
        if let Some(i) = gt_pad_index(q) {
            lemma_decimal_digits(i as nat);
        }
        lemma_word_number_split(gt_pad_word(p), sp, gt_pad_word(q), sq);
        assert(word_sig(gt_pad_word(p)) == word_sig(gt_pad_word(q)));
        assert(gt_pad_code(p) == gt_pad_code(q));
        if let Some(i) = gt_pad_index(p) {
            let j = gt_pad_index(q).unwrap();
            lemma_decimal_injective(i as nat, j as nat);
        }
    }
}

/// The transceiver signal pads are named by direction (`RX`, `TX`, `CLK`),
/// then polarity (`P` positive, `N` negative), then their index in decimal.
pub proof fn lemma_gt_signal_pad_names(i: u8)
    ensures
        gt_pad_name(GtPad::RxP(i)) == seq!['R', 'X', 'P'] + decimal(i as nat),
        gt_pad_name(GtPad::RxN(i)) == seq!['R', 'X', 'N'] + decimal(i as nat),
        gt_pad_name(GtPad::TxP(i)) == seq!['T', 'X', 'P'] + decimal(i as nat),
        gt_pad_name(GtPad::TxN(i)) == seq!['T', 'X', 'N'] + decimal(i as nat),
        gt_pad_name(GtPad::ClkP(i)) == seq!['C', 'L', 'K', 'P'] + decimal(i as nat),
        gt_pad_name(GtPad::ClkN(i)) == seq!['C', 'L', 'K', 'N'] + decimal(i as nat),
{
    reveal_strlit("RXP");
    reveal_strlit("RXN");
    reveal_strlit("TXP");
    reveal_strlit("TXN");
    reveal_strlit("CLKP");
    reveal_strlit("CLKN");
}

/// Appends the printed name of a `GtPad`.
pub fn push_gt_pad_name(s: &mut String, p: GtPad)
    ensures
        final(s)@ == old(s)@ + gt_pad_name(p),
{
    match p {
        GtPad::RxP(idx) => {
            s.append("RXP");
            push_decimal(s, idx as u64);
        },
        GtPad::RxN(idx) => {
            s.append("RXN");
            push_decimal(s, idx as u64);
        },
        GtPad::TxP(idx) => {
            s.append("TXP");
            push_decimal(s, idx as u64);
        },
        GtPad::TxN(idx) => {
            s.append("TXN");
            push_decimal(s, idx as u64);
        },
        GtPad::ClkP(idx) => {
            s.append("CLKP");
            push_decimal(s, idx as u64);
        },
        GtPad::ClkN(idx) => {
            s.append("CLKN");
            push_decimal(s, idx as u64);
        },
        GtPad::GndA => {
            s.append("GNDA");
        },
        GtPad::AVccAuxTx => {
            s.append("AVCCAUXTX");
        },
        GtPad::AVccAuxRx(idx) => {
            s.append("AVCCAUXRX");
            push_decimal(s, idx as u64);
        },
        GtPad::AVccAuxMgt => {
            s.append("AVCCAUXMGT");
        },
        GtPad::RTerm => {
            s.append("RTERM");
        },
        GtPad::MgtVRef => {
            s.append("MGTVREF");
        },
        GtPad::VtRx(idx) => {
            s.append("VTRX");
            push_decimal(s, idx as u64);
        },
        GtPad::VtTx(idx) => {
            s.append("VTTX");
            push_decimal(s, idx as u64);
        },
        GtPad::AVcc => {
            s.append("AVCC");
        },
        GtPad::AVccPll => {
            s.append("AVCCPLL");
        },
        GtPad::RRef => {
            s.append("RREF");
        },
        GtPad::AVttRCal => {
            s.append("AVTTRCAL");
        },
        GtPad::RBias => {
            s.append("RBIAS");
        },
    }
    assert(s@ =~= old(s)@ + gt_pad_name(p));
}

impl GtPad {
    /// The printed name.
    pub fn to_string(&self) -> (r: String)
        ensures
            r@ == gt_pad_name(*self),
    {
        let mut s = String::new();
        push_gt_pad_name(&mut s, *self);
        s
    }
}

/// The printed name of a `GtRegion`.
pub open spec fn gt_region_name(p: GtRegion) -> Seq<char> {
    match p {
        GtRegion::All => "ALL"@,
        GtRegion::S => "S"@,
        GtRegion::N => "N"@,
        GtRegion::L => "L"@,
        GtRegion::R => "R"@,
        GtRegion::LS => "LS"@,
        GtRegion::RS => "RS"@,
        GtRegion::LN => "LN"@,
        GtRegion::RN => "RN"@,
        GtRegion::H => "H"@,
        GtRegion::LH => "LH"@,
        GtRegion::RH => "RH"@,
        GtRegion::Num(n) => decimal(n as nat),
    }
}

/// Appends the printed name of a `GtRegion`.
pub fn push_gt_region_name(s: &mut String, p: GtRegion)
    ensures
        final(s)@ == old(s)@ + gt_region_name(p),
{
    match p {
        GtRegion::All => {
            s.append("ALL");
        },
        GtRegion::S => {
            s.append("S");
        },
        GtRegion::N => {
            s.append("N");
        },
        GtRegion::L => {
            s.append("L");
        },
        GtRegion::R => {
            s.append("R");
        },
        GtRegion::LS => {
            s.append("LS");
        },
        GtRegion::RS => {
            s.append("RS");
        },
        GtRegion::LN => {
            s.append("LN");
        },
        GtRegion::RN => {
            s.append("RN");
        },
        GtRegion::H => {
            s.append("H");
        },
        GtRegion::LH => {
            s.append("LH");
        },
        GtRegion::RH => {
            s.append("RH");
        },
        GtRegion::Num(n) => {
            push_decimal(s, n as u64);
        },
    }
    assert(s@ =~= old(s)@ + gt_region_name(p));
}

impl GtRegion {
    /// The printed name.
    pub fn to_string(&self) -> (r: String)
        ensures
            r@ == gt_region_name(*self),
    {
        let mut s = String::new();
        push_gt_region_name(&mut s, *self);
        s
    }
}

/// The printed name of a `GtRegionPad`.
pub open spec fn gt_region_pad_name(p: GtRegionPad) -> Seq<char> {
    match p {
        GtRegionPad::AVtt => "AVTT"@,
        GtRegionPad::AGnd => "AGND"@,
        GtRegionPad::AVcc => "AVCC"@,
        GtRegionPad::AVccRx => "AVCCRX"@,
        GtRegionPad::AVccPll => "AVCCPLL"@,
        GtRegionPad::AVttRxC => "AVTTRXC"@,
        GtRegionPad::VccAux => "VCCAUX"@,
    }
}

/// Appends the printed name of a `GtRegionPad`.
pub fn push_gt_region_pad_name(s: &mut String, p: GtRegionPad)
    ensures
        final(s)@ == old(s)@ + gt_region_pad_name(p),
{
    match p {
        GtRegionPad::AVtt => {
            s.append("AVTT");
        },
        GtRegionPad::AGnd => {
            s.append("AGND");
        },
        GtRegionPad::AVcc => {
            s.append("AVCC");
        },
        GtRegionPad::AVccRx => {
            s.append("AVCCRX");
        },
        GtRegionPad::AVccPll => {
            s.append("AVCCPLL");
        },
        GtRegionPad::AVttRxC => {
            s.append("AVTTRXC");
        },
        GtRegionPad::VccAux => {
            s.append("VCCAUX");
        },
    }
    assert(s@ =~= old(s)@ + gt_region_pad_name(p));
}

impl GtRegionPad {
    /// The printed name.
    pub fn to_string(&self) -> (r: String)
        ensures
            r@ == gt_region_pad_name(*self),
    {
        let mut s = String::new();
        push_gt_region_pad_name(&mut s, *self);
        s
    }
}

/// The printed name of a `SysMonPad`.
pub open spec fn sys_mon_pad_name(p: SysMonPad) -> Seq<char> {
    match p {
        SysMonPad::VP => "VP"@,
        SysMonPad::VN => "VN"@,
        SysMonPad::AVss => "AVSS"@,
        SysMonPad::AVdd => "AVDD"@,
        SysMonPad::VRefP => "VREFP"@,
        SysMonPad::VRefN => "VREFN"@,
    }
}

/// Appends the printed name of a `SysMonPad`.
pub fn push_sys_mon_pad_name(s: &mut String, p: SysMonPad)
    ensures
        final(s)@ == old(s)@ + sys_mon_pad_name(p),
{
    match p {
        SysMonPad::VP => {
            s.append("VP");
        },
        SysMonPad::VN => {
            s.append("VN");
        },
        SysMonPad::AVss => {
            s.append("AVSS");
        },
        SysMonPad::AVdd => {
            s.append("AVDD");
        },
        SysMonPad::VRefP => {
            s.append("VREFP");
        },
        SysMonPad::VRefN => {
            s.append("VREFN");
        },
    }
    assert(s@ =~= old(s)@ + sys_mon_pad_name(p));
}

impl SysMonPad {
    /// The printed name.
    pub fn to_string(&self) -> (r: String)
        ensures
            r@ == sys_mon_pad_name(*self),
    {
        let mut s = String::new();
        push_sys_mon_pad_name(&mut s, *self);
        s
    }
}

/// The printed name of a `GtzPad`.
pub open spec fn gtz_pad_name(p: GtzPad) -> Seq<char> {
    match p {
        GtzPad::RxP(idx) => "RXP"@ + decimal(idx as nat),
        GtzPad::RxN(idx) => "RXN"@ + decimal(idx as nat),
        GtzPad::TxP(idx) => "TXP"@ + decimal(idx as nat),
        GtzPad::TxN(idx) => "TXN"@ + decimal(idx as nat),
        GtzPad::ClkP(idx) => "CLKP"@ + decimal(idx as nat),
        GtzPad::ClkN(idx) => "CLKN"@ + decimal(idx as nat),
        GtzPad::AGnd => "AGND"@,
        GtzPad::AVcc => "AVCC"@,
        GtzPad::VccH => "VCCH"@,
        GtzPad::VccL => "VCCL"@,
        GtzPad::ObsClkP => "OBSCLKP"@,
        GtzPad::ObsClkN => "OBSCLKN"@,
        GtzPad::ThermIn => "THERM_IN"@,
        GtzPad::ThermOut => "THERM_OUT"@,
        GtzPad::SenseAGnd => "SENSE_AGND"@,
        GtzPad::SenseGnd => "SENSE_GND"@,
        GtzPad::SenseGndL => "SENSE_GNDL"@,
        GtzPad::SenseAVcc => "SENSE_AVCC"@,
        GtzPad::SenseVcc => "SENSE_VCC"@,
        GtzPad::SenseVccL => "SENSE_VCCL"@,
        GtzPad::SenseVccH => "SENSE_VCCH"@,
    }
}

/// Appends the printed name of a `GtzPad`.
pub fn push_gtz_pad_name(s: &mut String, p: GtzPad)
    ensures
        final(s)@ == old(s)@ + gtz_pad_name(p),
{
    match p {
        GtzPad::RxP(idx) => {
            s.append("RXP");
            push_decimal(s, idx as u64);
        },
        GtzPad::RxN(idx) => {
            s.append("RXN");
            push_decimal(s, idx as u64);
        },
        GtzPad::TxP(idx) => {
            s.append("TXP");
            push_decimal(s, idx as u64);
        },
        GtzPad::TxN(idx) => {
            s.append("TXN");
            push_decimal(s, idx as u64);
        },
        GtzPad::ClkP(idx) => {
            s.append("CLKP");
            push_decimal(s, idx as u64);
        },
        GtzPad::ClkN(idx) => {
            s.append("CLKN");
            push_decimal(s, idx as u64);
        },
        GtzPad::AGnd => {
            s.append("AGND");
        },
        GtzPad::AVcc => {
            s.append("AVCC");
        },
        GtzPad::VccH => {
            s.append("VCCH");
        },
        GtzPad::VccL => {
            s.append("VCCL");
        },
        GtzPad::ObsClkP => {
            s.append("OBSCLKP");
        },
        GtzPad::ObsClkN => {
            s.append("OBSCLKN");
        },
        GtzPad::ThermIn => {
            s.append("THERM_IN");
        },
        GtzPad::ThermOut => {
            s.append("THERM_OUT");
        },
        GtzPad::SenseAGnd => {
            s.append("SENSE_AGND");
        },
        GtzPad::SenseGnd => {
            s.append("SENSE_GND");
        },
        GtzPad::SenseGndL => {
            s.append("SENSE_GNDL");
        },
        GtzPad::SenseAVcc => {
            s.append("SENSE_AVCC");
        },
        GtzPad::SenseVcc => {
            s.append("SENSE_VCC");
        },
        GtzPad::SenseVccL => {
            s.append("SENSE_VCCL");
        },
        GtzPad::SenseVccH => {
            s.append("SENSE_VCCH");
        },
    }
    assert(s@ =~= old(s)@ + gtz_pad_name(p));
}

impl GtzPad {
    /// The printed name.
    pub fn to_string(&self) -> (r: String)
        ensures
            r@ == gtz_pad_name(*self),
    {
        let mut s = String::new();
        push_gtz_pad_name(&mut s, *self);
        s
    }
}

/// The printed name of a `PsPad`.
pub open spec fn ps_pad_name(p: PsPad) -> Seq<char> {
    match p {
        PsPad::Mio(i) => "MIO"@ + decimal(i as nat),
        PsPad::Clk => "CLK"@,
        PsPad::PorB => "POR_B"@,
        PsPad::SrstB => "SRST_B"@,
        PsPad::DdrDq(i) => "DDR_DQ"@ + decimal(i as nat),
        PsPad::DdrDm(i) => "DDR_DM"@ + decimal(i as nat),
        PsPad::DdrDqsP(i) => "DDR_DQS_P"@ + decimal(i as nat),
        PsPad::DdrDqsN(i) => "DDR_DQS_N"@ + decimal(i as nat),
        PsPad::DdrA(i) => "DDR_A"@ + decimal(i as nat),
        PsPad::DdrBa(i) => "DDR_BA"@ + decimal(i as nat),
        PsPad::DdrVrP => "DDR_VRP"@,
        PsPad::DdrVrN => "DDR_VRN"@,
        PsPad::DdrCkP => "DDR_CKP"@,
        PsPad::DdrCkN => "DDR_CKN"@,
        PsPad::DdrCke => "DDR_CKE"@,
        PsPad::DdrOdt => "DDR_ODT"@,
        PsPad::DdrDrstB => "DDR_DRST_B"@,
        PsPad::DdrCsB => "DDR_CS_B"@,
        PsPad::DdrRasB => "DDR_RAS_B"@,
        PsPad::DdrCasB => "DDR_CAS_B"@,
        PsPad::DdrWeB => "DDR_WE_B"@,
    }
}

/// Appends the printed name of a `PsPad`.
pub fn push_ps_pad_name(s: &mut String, p: PsPad)
    ensures
        final(s)@ == old(s)@ + ps_pad_name(p),
{
    match p {
        PsPad::Mio(i) => {
            s.append("MIO");
            push_decimal(s, i as u64);
        },
        PsPad::Clk => {
            s.append("CLK");
        },
        PsPad::PorB => {
            s.append("POR_B");
        },
        PsPad::SrstB => {
            s.append("SRST_B");
        },
        PsPad::DdrDq(i) => {
            s.append("DDR_DQ");
            push_decimal(s, i as u64);
        },
        PsPad::DdrDm(i) => {
            s.append("DDR_DM");
            push_decimal(s, i as u64);
        },
        PsPad::DdrDqsP(i) => {
            s.append("DDR_DQS_P");
            push_decimal(s, i as u64);
        },
        PsPad::DdrDqsN(i) => {
            s.append("DDR_DQS_N");
            push_decimal(s, i as u64);
        },
        PsPad::DdrA(i) => {
            s.append("DDR_A");
            push_decimal(s, i as u64);
        },
        PsPad::DdrBa(i) => {
            s.append("DDR_BA");
            push_decimal(s, i as u64);
        },
        PsPad::DdrVrP => {
            s.append("DDR_VRP");
        },
        PsPad::DdrVrN => {
            s.append("DDR_VRN");
        },
        PsPad::DdrCkP => {
            s.append("DDR_CKP");
        },
        PsPad::DdrCkN => {
            s.append("DDR_CKN");
        },
        PsPad::DdrCke => {
            s.append("DDR_CKE");
        },
        PsPad::DdrOdt => {
            s.append("DDR_ODT");
        },
        PsPad::DdrDrstB => {
            s.append("DDR_DRST_B");
        },
        PsPad::DdrCsB => {
            s.append("DDR_CS_B");
        },
        PsPad::DdrRasB => {
            s.append("DDR_RAS_B");
        },
        PsPad::DdrCasB => {
            s.append("DDR_CAS_B");
        },
        PsPad::DdrWeB => {
            s.append("DDR_WE_B");
        },
    }
    assert(s@ =~= old(s)@ + ps_pad_name(p));
}

impl PsPad {
    /// The printed name.
    pub fn to_string(&self) -> (r: String)
        ensures
            r@ == ps_pad_name(*self),
    {
        let mut s = String::new();
        push_ps_pad_name(&mut s, *self);
        s
    }
}

/// The printed name of a `BondPad`.
pub open spec fn bond_pad_name(p: BondPad) -> Seq<char> {
    match p {
        BondPad::Io(bank, idx) => "IOB_"@ + decimal(bank as nat) + "_"@ + decimal(idx as nat),
        BondPad::Gt(bank, gtpin) => "GT"@ + decimal(bank as nat) + "_"@ + gt_pad_name(gtpin),
        BondPad::Gtz(bank, gtpin) => "GTZ"@ + decimal(bank as nat) + "_"@ + gtz_pad_name(gtpin),
        BondPad::GtRegion(region, gtpin) => "GTREG_"@ + gt_region_name(region) + "_"@ + gt_region_pad_name(gtpin),
        BondPad::Nc => "NC"@,
        BondPad::Gnd => "GND"@,
        BondPad::VccInt => "VCCINT"@,
        BondPad::VccAux => "VCCAUX"@,
        BondPad::VccAuxIo(idx) => "VCCAUX_IO"@ + decimal(idx as nat),
        BondPad::VccBram => "VCCBRAM"@,
        BondPad::VccO(bank) => "VCCO"@ + decimal(bank as nat),
        BondPad::VccBatt => "VCC_BATT"@,
        BondPad::Cfg(pin) => cfg_pad_name(pin),
        BondPad::Dxn => "DXN"@,
        BondPad::Dxp => "DXP"@,
        BondPad::Rsvd => "RSVD"@,
        BondPad::RsvdGnd => "RSVDGND"@,
        BondPad::Vfs => "VFS"@,
        BondPad::SysMon(bank, pin) => "SYSMON"@ + decimal(bank as nat) + "_"@ + sys_mon_pad_name(pin),
        BondPad::VccPsInt => "VCC_PS_INT"@,
        BondPad::VccPsAux => "VCC_PS_AUX"@,
        BondPad::VccPsPll => "VCC_PS_PLL"@,
        BondPad::PsVref(bank, idx) => "PS"@ + decimal(bank as nat) + ".VREF"@ + decimal(idx as nat),
        BondPad::PsIo(bank, pin) => "PS"@ + decimal(bank as nat) + "_"@ + ps_pad_name(pin),
    }
}

/// Appends the printed name of a `BondPad`.
pub fn push_bond_pad_name(s: &mut String, p: BondPad)
    ensures
        final(s)@ == old(s)@ + bond_pad_name(p),
{
    match p {
        BondPad::Io(bank, idx) => {
            s.append("IOB_");
            push_decimal(s, bank as u64);
            s.append("_");
            push_decimal(s, idx as u64);
        },
        BondPad::Gt(bank, gtpin) => {
            s.append("GT");
            push_decimal(s, bank as u64);
            s.append("_");
            push_gt_pad_name(s, gtpin);
        },
        BondPad::Gtz(bank, gtpin) => {
            s.append("GTZ");
            push_decimal(s, bank as u64);
            s.append("_");
            push_gtz_pad_name(s, gtpin);
        },
        BondPad::GtRegion(region, gtpin) => {
            s.append("GTREG_");
            push_gt_region_name(s, region);
            s.append("_");
            push_gt_region_pad_name(s, gtpin);
        },
        BondPad::Nc => {
            s.append("NC");
        },
        BondPad::Gnd => {
            s.append("GND");
        },
        BondPad::VccInt => {
            s.append("VCCINT");
        },
        BondPad::VccAux => {
            s.append("VCCAUX");
        },
        BondPad::VccAuxIo(idx) => {
            s.append("VCCAUX_IO");
            push_decimal(s, idx as u64);
        },
        BondPad::VccBram => {
            s.append("VCCBRAM");
        },
        BondPad::VccO(bank) => {
            s.append("VCCO");
            push_decimal(s, bank as u64);
        },
        BondPad::VccBatt => {
            s.append("VCC_BATT");
        },
        BondPad::Cfg(pin) => {
            push_cfg_pad_name(s, pin);
        },
        BondPad::Dxn => {
            s.append("DXN");
        },
        BondPad::Dxp => {
            s.append("DXP");
        },
        BondPad::Rsvd => {
            s.append("RSVD");
        },
        BondPad::RsvdGnd => {
            s.append("RSVDGND");
        },
        BondPad::Vfs => {
            s.append("VFS");
        },
        BondPad::SysMon(bank, pin) => {
            s.append("SYSMON");
            push_decimal(s, bank as u64);
            s.append("_");
            push_sys_mon_pad_name(s, pin);
        },
        BondPad::VccPsInt => {
            s.append("VCC_PS_INT");
        },
        BondPad::VccPsAux => {
            s.append("VCC_PS_AUX");
        },
        BondPad::VccPsPll => {
            s.append("VCC_PS_PLL");
        },
        BondPad::PsVref(bank, idx) => {
            s.append("PS");
            push_decimal(s, bank as u64);
            s.append(".VREF");
            push_decimal(s, idx as u64);
        },
        BondPad::PsIo(bank, pin) => {
            s.append("PS");
            push_decimal(s, bank as u64);
            s.append("_");
            push_ps_pad_name(s, pin);
        },
    }
    assert(s@ =~= old(s)@ + bond_pad_name(p));
}

impl BondPad {
    /// The printed name.
    pub fn to_string(&self) -> (r: String)
        ensures
            r@ == bond_pad_name(*self),
    {
        let mut s = String::new();
        push_bond_pad_name(&mut s, *self);
        s
    }
}

/// The printed name of a `SharedCfgPad`.
pub open spec fn shared_cfg_pad_name(p: SharedCfgPad) -> Seq<char> {
    match p {
        SharedCfgPad::Data(idx) => "D"@ + decimal(idx as nat),
        SharedCfgPad::Addr(idx) => "A"@ + decimal(idx as nat),
        SharedCfgPad::Rs(idx) => "RS"@ + decimal(idx as nat),
        SharedCfgPad::CsoB => "CSO_B"@,
        SharedCfgPad::FweB => "FWE_B"@,
        SharedCfgPad::FoeB => "FOE_B"@,
        SharedCfgPad::FcsB => "FCS_B"@,
        SharedCfgPad::CsiB => "CSI_B"@,
        SharedCfgPad::RdWrB => "RD_WR_B"@,
        SharedCfgPad::EmCclk => "EM_CCLK"@,
        SharedCfgPad::PudcB => "PUDC_B"@,
        SharedCfgPad::AdvB => "ADV_B"@,
    }
}

/// Appends the printed name of a `SharedCfgPad`.
pub fn push_shared_cfg_pad_name(s: &mut String, p: SharedCfgPad)
    ensures
        final(s)@ == old(s)@ + shared_cfg_pad_name(p),
{
    match p {
        SharedCfgPad::Data(idx) => {
            s.append("D");
            push_decimal(s, idx as u64);
        },
        SharedCfgPad::Addr(idx) => {
            s.append("A");
            push_decimal(s, idx as u64);
        },
        SharedCfgPad::Rs(idx) => {
            s.append("RS");
            push_decimal(s, idx as u64);
        },
        SharedCfgPad::CsoB => {
            s.append("CSO_B");
        },
        SharedCfgPad::FweB => {
            s.append("FWE_B");
        },
        SharedCfgPad::FoeB => {
            s.append("FOE_B");
        },
        SharedCfgPad::FcsB => {
            s.append("FCS_B");
        },
        SharedCfgPad::CsiB => {
            s.append("CSI_B");
        },
        SharedCfgPad::RdWrB => {
            s.append("RD_WR_B");
        },
        SharedCfgPad::EmCclk => {
            s.append("EM_CCLK");
        },
        SharedCfgPad::PudcB => {
            s.append("PUDC_B");
        },
        SharedCfgPad::AdvB => {
            s.append("ADV_B");
        },
    }
    assert(s@ =~= old(s)@ + shared_cfg_pad_name(p));
}

impl SharedCfgPad {
    /// The printed name.
    pub fn to_string(&self) -> (r: String)
        ensures
            r@ == shared_cfg_pad_name(*self),
    {
        let mut s = String::new();
        push_shared_cfg_pad_name(&mut s, *self);
        s
    }
}


fn upsert_gt(v: &mut Vec<((u32, GtPad), String)>, k: (u32, GtPad), name: String)
    requires
        keys_distinct(old(v)@),
    ensures
        keys_distinct(final(v)@),
        assoc_map(final(v)@) == assoc_map(old(v)@).insert(k, name@),
{
    let mut j: usize = 0;
    while j < v.len()
        invariant
            j <= v@.len(),
            v@ == old(v)@,
            keys_distinct(v@),
            forall|i: int| 0 <= i < j ==> (#[trigger] v@[i]).0 != k,
        decreases v.len() - j,
    {
        let found = v[j].0.0 == k.0 && v[j].0.1 == k.1;
        if found {
            proof {
                lemma_assoc_update(v@, j as int, name);
            }
            let ghost before = v@;
            v.set(j, (k, name));
            assert(v@ == before.update(j as int, (before[j as int].0, name)));
            assert(keys_distinct(v@)) by {
                assert forall|a: int, b: int|
                    0 <= a < v@.len() && 0 <= b < v@.len() && a != b implies v@[a].0 != v@[b].0 by {
                    assert(v@[a].0 == before[a].0);
                    assert(v@[b].0 == before[b].0);
                }
            }
            return;
        }
        j = j + 1;
    }
    let ghost before = v@;
    v.push((k, name));
    assert(v@.drop_last() =~= before);
    assert(keys_distinct(v@)) by {
        assert forall|a: int, b: int|
            0 <= a < v@.len() && 0 <= b < v@.len() && a != b implies v@[a].0 != v@[b].0 by {
            if a < before.len() && b < before.len() {
                assert(v@[a] == before[a]);
                assert(v@[b] == before[b]);
            } else if a < before.len() {
                assert(v@[a] == before[a]);
            } else {
                assert(v@[b] == before[b]);
            }
        }
    }
}

fn upsert_gtz(v: &mut Vec<((u32, GtzPad), String)>, k: (u32, GtzPad), name: String)
    requires
        keys_distinct(old(v)@),
    ensures
        keys_distinct(final(v)@),
        assoc_map(final(v)@) == assoc_map(old(v)@).insert(k, name@),
{
    let mut j: usize = 0;
    while j < v.len()
        invariant
            j <= v@.len(),
            v@ == old(v)@,
            keys_distinct(v@),
            forall|i: int| 0 <= i < j ==> (#[trigger] v@[i]).0 != k,
        decreases v.len() - j,
    {
        let found = v[j].0.0 == k.0 && v[j].0.1 == k.1;
        if found {
            proof {
                lemma_assoc_update(v@, j as int, name);
            }
            let ghost before = v@;
            v.set(j, (k, name));
            assert(v@ == before.update(j as int, (before[j as int].0, name)));
            assert(keys_distinct(v@)) by {
                assert forall|a: int, b: int|
                    0 <= a < v@.len() && 0 <= b < v@.len() && a != b implies v@[a].0 != v@[b].0 by {
                    assert(v@[a].0 == before[a].0);
                    assert(v@[b].0 == before[b].0);
                }
            }
            return;
        }
        j = j + 1;
    }
    let ghost before = v@;
    v.push((k, name));
    assert(v@.drop_last() =~= before);
    assert(keys_distinct(v@)) by {
        assert forall|a: int, b: int|
            0 <= a < v@.len() && 0 <= b < v@.len() && a != b implies v@[a].0 != v@[b].0 by {
            if a < before.len() && b < before.len() {
                assert(v@[a] == before[a]);
                assert(v@[b] == before[b]);
            } else if a < before.len() {
                assert(v@[a] == before[a]);
            } else {
                assert(v@[b] == before[b]);
            }
        }
    }
}

fn upsert_sysmon(v: &mut Vec<((u32, SysMonPad), String)>, k: (u32, SysMonPad), name: String)
    requires
        keys_distinct(old(v)@),
    ensures
        keys_distinct(final(v)@),
        assoc_map(final(v)@) == assoc_map(old(v)@).insert(k, name@),
{
    let mut j: usize = 0;
    while j < v.len()
        invariant
            j <= v@.len(),
            v@ == old(v)@,
            keys_distinct(v@),
            forall|i: int| 0 <= i < j ==> (#[trigger] v@[i]).0 != k,
        decreases v.len() - j,
    {
        let found = v[j].0.0 == k.0 && v[j].0.1 == k.1;
        if found {
            proof {
                lemma_assoc_update(v@, j as int, name);
            }
            let ghost before = v@;
            v.set(j, (k, name));
            assert(v@ == before.update(j as int, (before[j as int].0, name)));
            assert(keys_distinct(v@)) by {
                assert forall|a: int, b: int|
                    0 <= a < v@.len() && 0 <= b < v@.len() && a != b implies v@[a].0 != v@[b].0 by {
                    assert(v@[a].0 == before[a].0);
                    assert(v@[b].0 == before[b].0);
                }
            }
            return;
        }
        j = j + 1;
    }
    let ghost before = v@;
    v.push((k, name));
    assert(v@.drop_last() =~= before);
    assert(keys_distinct(v@)) by {
        assert forall|a: int, b: int|
            0 <= a < v@.len() && 0 <= b < v@.len() && a != b implies v@[a].0 != v@[b].0 by {
            if a < before.len() && b < before.len() {
                assert(v@[a] == before[a]);
                assert(v@[b] == before[b]);
            } else if a < before.len() {
                assert(v@[a] == before[a]);
            } else {
                assert(v@[b] == before[b]);
            }
        }
    }
}

/// The pinout of a package: each pin name with what it connects to.  Pins
/// are held in ascending order of name, each name once (see
/// `Bond::pins_ascending`).
#[derive(Clone, Debug)]
pub struct Bond {
    pub pins: Vec<(String, BondPad)>,
}

impl Bond {
    /// The pins ascend strictly by name, so that each name occurs once.
    pub open spec fn pins_ascending(self) -> bool {
        names_ascending(self.pins@)
    }

    /// Whether the pins ascend strictly by name.
    pub fn check_pins_ascending(&self) -> (r: bool)
        ensures
            r == self.pins_ascending(),
    {
        check_names_ascending(&self.pins)
    }
}

/// A bond together with lookup tables from IOs, transceiver pads, GTZ pads
/// and system monitor pads to pin names.
pub struct ExpandedBond<'a> {
    pub bond: &'a Bond,
    pub ios: BTreeMap<(u32, u32), String>,
    pub gts: Vec<((u32, GtPad), String)>,
    pub gtzs: Vec<((u32, GtzPad), String)>,
    pub sysmons: Vec<((u32, SysMonPad), String)>,
}

/// The key of a general-purpose IO pad: its bank and index within the bank.
pub open spec fn io_sel() -> spec_fn(BondPad) -> Option<(u32, u32)> {
    |p: BondPad|
        match p {
            BondPad::Io(bank, idx) => Some((bank, idx)),
            _ => None,
        }
}

/// The key of a transceiver pad: its bank and pad.
pub open spec fn gt_sel() -> spec_fn(BondPad) -> Option<(u32, GtPad)> {
    |p: BondPad|
        match p {
            BondPad::Gt(bank, pad) => Some((bank, pad)),
            _ => None,
        }
}

/// The key of a GTZ pad: its bank and pad.
pub open spec fn gtz_sel() -> spec_fn(BondPad) -> Option<(u32, GtzPad)> {
    |p: BondPad|
        match p {
            BondPad::Gtz(bank, pad) => Some((bank, pad)),
            _ => None,
        }
}

/// The key of a system monitor pad: its bank and pad.
pub open spec fn sysmon_sel() -> spec_fn(BondPad) -> Option<(u32, SysMonPad)> {
    |p: BondPad|
        match p {
            BondPad::SysMon(bank, pad) => Some((bank, pad)),
            _ => None,
        }
}

/// The pin names of the general-purpose IOs, by bank and index within the
/// bank; of two pins of the same IO the later one counts.
pub open spec fn io_pin_names(pins: Seq<(String, BondPad)>) -> Map<(u32, u32), Seq<char>> {
    pin_names(pins, io_sel())
}

/// The pin names of the transceiver pads, by bank and pad.
pub open spec fn gt_pin_names(pins: Seq<(String, BondPad)>) -> Map<(u32, GtPad), Seq<char>> {
    pin_names(pins, gt_sel())
}

/// The pin names of the GTZ pads, by bank and pad.
pub open spec fn gtz_pin_names(pins: Seq<(String, BondPad)>) -> Map<(u32, GtzPad), Seq<char>> {
    pin_names(pins, gtz_sel())
}

/// The pin names of the system monitor pads, by bank and pad.
pub open spec fn sysmon_pin_names(pins: Seq<(String, BondPad)>) -> Map<(u32, SysMonPad), Seq<char>> {
    pin_names(pins, sysmon_sel())
}

/// The names that a map from keys to strings holds.
pub open spec fn names_of<K>(m: Map<K, String>) -> Map<K, Seq<char>> {
    Map::new(|k: K| m.dom().contains(k), |k: K| m[k]@)
}

impl Bond {
    /// The lookup tables of the bond.  Where the pins ascend by name, as a
    /// bond's pins do, each table gives the greatest name among the pins of
    /// a pad.
    pub fn expand(&self) -> (r: ExpandedBond<'_>)
        ensures
            r.bond == self,
            names_of(r.ios@) == io_pin_names(self.pins@),
            keys_distinct(r.gts@),
            assoc_map(r.gts@) == gt_pin_names(self.pins@),
            keys_distinct(r.gtzs@),
            assoc_map(r.gtzs@) == gtz_pin_names(self.pins@),
            keys_distinct(r.sysmons@),
            assoc_map(r.sysmons@) == sysmon_pin_names(self.pins@),
            self.pins_ascending() ==> names_by_greatest(self.pins@, io_sel(), names_of(r.ios@)),
            self.pins_ascending() ==> names_by_greatest(self.pins@, gt_sel(), assoc_map(r.gts@)),
            self.pins_ascending() ==> names_by_greatest(self.pins@, gtz_sel(), assoc_map(r.gtzs@)),
            self.pins_ascending() ==> names_by_greatest(self.pins@, sysmon_sel(), assoc_map(r.sysmons@)),
    {
        proof {
            crate::seqs::lemma_u32_pairs_ordered();
        }
        let mut ios: BTreeMap<(u32, u32), String> = BTreeMap::new();
        let mut gts: Vec<((u32, GtPad), String)> = Vec::new();
        let mut gtzs: Vec<((u32, GtzPad), String)> = Vec::new();
        let mut sysmons: Vec<((u32, SysMonPad), String)> = Vec::new();
        let mut i: usize = 0;
        while i < self.pins.len()
            invariant
                i <= self.pins@.len(),
                names_of(ios@) == io_pin_names(self.pins@.take(i as int)),
                keys_distinct(gts@),
                assoc_map(gts@) == gt_pin_names(self.pins@.take(i as int)),
                keys_distinct(gtzs@),
                assoc_map(gtzs@) == gtz_pin_names(self.pins@.take(i as int)),
                keys_distinct(sysmons@),
                assoc_map(sysmons@) == sysmon_pin_names(self.pins@.take(i as int)),
            decreases self.pins.len() - i,
        {
            let ghost pre = self.pins@.take(i as int);
            let ghost post = self.pins@.take(i + 1);
            assert(post.drop_last() =~= pre);
            assert(post.last() == self.pins@[i as int]);
            let name = &self.pins[i].0;
            let ghost old_ios = ios@;
            match self.pins[i].1 {
                BondPad::Io(bank, idx) => {
                    ios.insert((bank, idx), name.clone());
                    assert(names_of(ios@) =~= names_of(old_ios).insert((bank, idx), name@));
                },
                BondPad::Gt(bank, pad) => {
                    upsert_gt(&mut gts, (bank, pad), name.clone());
                },
                BondPad::Gtz(bank, pad) => {
                    upsert_gtz(&mut gtzs, (bank, pad), name.clone());
                },
                BondPad::SysMon(bank, pad) => {
                    upsert_sysmon(&mut sysmons, (bank, pad), name.clone());
                },
                _ => {},
            }
            i = i + 1;
        }
        assert(self.pins@.take(self.pins@.len() as int) =~= self.pins@);
        proof {
            if self.pins_ascending() {
                lemma_pin_names_greatest(self.pins@, io_sel());
                lemma_pin_names_greatest(self.pins@, gt_sel());
                lemma_pin_names_greatest(self.pins@, gtz_sel());
                lemma_pin_names_greatest(self.pins@, sysmon_sel());
            }
        }
        ExpandedBond { bond: self, ios, gts, gtzs, sysmons }
    }
}

/// The sort key of a pin name: the byte position of its first digit, the
/// letters before it and the number from it on.
pub fn pad_sort_key(name: &str) -> (r: (usize, &str, u32))
    requires
        is_numbered_name(name@),
        utf8_len(name@) <= usize::MAX,
    ensures
        r.0 == utf8_len(name@.take(first_digit(name@))),
        r.1@ == name@.take(first_digit(name@)),
        r.2 == digits_value(name@.skip(first_digit(name@))),
{
    name_sort_key(name)
}

/// The line of a pin in the text form of a bond.
pub open spec fn pin_line(pin: (String, BondPad)) -> Seq<char> {
    "\t\t"@ + pad_right(pin.0@, 4) + ": "@ + bond_pad_name(pin.1) + "\n"@
}

pub open spec fn pin_lines_fn(pins: Seq<(String, BondPad)>, o: Seq<usize>) -> spec_fn(int) -> Seq<char> {
    |k: int| pin_line(pins[o[k] as int])
}

/// The text form of a bond whose pins are listed in the order `o`.
pub open spec fn bond_text(pins: Seq<(String, BondPad)>, o: Seq<usize>) -> Seq<char> {
    "\tPINS:\n"@ + concat_map(o.len(), pin_lines_fn(pins, o))
}

/// The sort keys of the pin names.
pub open spec fn pin_keys(pins: Seq<(String, BondPad)>) -> Seq<PinKey> {
    pins.map_values(|p: (String, BondPad)| pin_key(p.0@))
}

impl Bond {
    /// Every pin name is letters followed by a number.
    pub open spec fn names_ok(self) -> bool {
        forall|k: int|
            0 <= k < self.pins@.len() ==> is_numbered_name((#[trigger] self.pins@[k]).0@) && utf8_len(
                self.pins@[k].0@,
            ) <= usize::MAX
    }

    /// The text form of the bond: a line for each pin, in the order of
    /// their sort keys (see `pad_sort_key`), equal keys in list order; that
    /// order is unique (`text::lemma_stable_order_unique`).
    pub fn dump(&self) -> (r: String)
        requires
            self.names_ok(),
        ensures
            exists|o: Seq<usize>| is_stable_order(pin_keys(self.pins@), o) && r@ == bond_text(self.pins@, o),
    {
        let mut names: Vec<&str> = Vec::new();
        let mut k: usize = 0;
        while k < self.pins.len()
            invariant
                k <= self.pins@.len(),
                self.names_ok(),
                names@.len() == k,
                forall|j: int| 0 <= j < k ==> (#[trigger] names@[j])@ == self.pins@[j].0@,
            decreases self.pins@.len() - k,
        {
            names.push(self.pins[k].0.as_str());
            k = k + 1;
        }
        proof {
            assert forall|j: int| 0 <= j < names@.len() implies is_numbered_name((#[trigger] names@[j])@) && utf8_len(
                names@[j]@,
            ) <= usize::MAX by {
                assert(names@[j]@ == self.pins@[j].0@);
            }
        }
        let order = pin_order(&names);
        assert(names@.map_values(|n: &str| pin_key(n@)) =~= pin_keys(self.pins@));
        let mut s = String::new();
        s.append("\tPINS:\n");
        let ghost mid = s@;
        let f = Ghost(pin_lines_fn(self.pins@, order@));
        let mut i: usize = 0;
        while i < order.len()
            invariant
                i <= order@.len(),
                order@.len() == self.pins@.len(),
                forall|j: int| 0 <= j < order@.len() ==> #[trigger] order@[j] < self.pins@.len(),
                f@ == pin_lines_fn(self.pins@, order@),
                s@ == mid + concat_map(i as nat, f@),
            decreases order@.len() - i,
        {
            let ghost before = s@;
            let p = &self.pins[order[i]];
            s.append("\t\t");
            push_padded(&mut s, p.0.as_str(), 4);
            s.append(": ");
            push_bond_pad_name(&mut s, p.1);
            s.append("\n");
            assert(s@ =~= before + f@(i as int));
            i = i + 1;
        }
        assert(s@ == bond_text(self.pins@, order@));
        s
    }
}

} // verus!
