//! Frames of a configuration bitstream: their addresses and the masks that
//! say which of their bits a readback may not compare.
use vstd::prelude::*;

verus! {

/// The address of a frame of the bitstream.
#[derive(Clone, Copy, Debug, PartialEq, Eq, Structural, Hash)]
pub struct FrameAddr {
    pub typ: u32,
    pub region: i32,
    pub major: u32,
    pub minor: u32,
}

/// Which bits of one part of a frame are masked out of a readback compare.
#[derive(Clone, Copy, Debug, PartialEq, Eq, Structural, Hash)]
pub enum FrameMaskMode {
    NoMask,
    All,
    DrpV4,
    BramV4,
    DrpHclk(usize, usize),
    CmtDrpHclk(usize, usize),
    PcieLeftDrpHclk(usize, usize),
}

/// A frame: its address and the mask mode of each of its parts.
#[derive(Clone, Debug)]
pub struct FrameInfo {
    pub addr: FrameAddr,
    pub mask_mode: Vec<FrameMaskMode>,
}

impl View for FrameInfo {
    type V = (FrameAddr, Seq<FrameMaskMode>);

    open spec fn view(&self) -> (FrameAddr, Seq<FrameMaskMode>) {
        (self.addr, self.mask_mode@)
    }
}

/// The addresses and masks of a list of frames.
pub open spec fn frame_views(v: Seq<FrameInfo>) -> Seq<(FrameAddr, Seq<FrameMaskMode>)> {
    v.map_values(|f: FrameInfo| f@)
}

/// The same mask mode for each of `k` parts.
pub open spec fn const_mask(m: FrameMaskMode, k: nat) -> Seq<FrameMaskMode> {
    Seq::new(k, |i: int| m)
}

/// The mask of every minor of a run is `const_mask(m, k)`.
pub open spec fn const_mask_fn(m: FrameMaskMode, k: nat) -> spec_fn(int) -> Seq<FrameMaskMode> {
    |minor: int| const_mask(m, k)
}

/// `n` frames of one major: minors `0 .. n`, each with the mask that `mask`
/// gives for its minor.
pub open spec fn frame_run(
    typ: u32,
    region: i32,
    major: u32,
    n: nat,
    mask: spec_fn(int) -> Seq<FrameMaskMode>,
) -> Seq<(FrameAddr, Seq<FrameMaskMode>)> {
    Seq::new(n, |m: int| (FrameAddr { typ, region, major, minor: m as u32 }, mask(m)))
}

/// Appending a frame appends its view.
pub proof fn lemma_frame_views_push(s: Seq<FrameInfo>, f: FrameInfo)
    ensures
        frame_views(s.push(f)) == frame_views(s).push(f@),
{
    assert(frame_views(s.push(f)) =~= frame_views(s).push(f@));
}

/// A vector of `k` copies of one mask mode.
pub fn mask_fill(m: FrameMaskMode, k: usize) -> (r: Vec<FrameMaskMode>)
    ensures
        r@ == const_mask(m, k as nat),
{
    let mut r: Vec<FrameMaskMode> = Vec::new();
    let mut i: usize = 0;
    while i < k
        invariant
            i <= k,
            r@ == const_mask(m, i as nat),
        decreases k - i,
    {
        r.push(m);
        i = i + 1;
        assert(r@ =~= const_mask(m, i as nat));
    }
    r
}

/// Appends `n` frames of one major whose parts all have the same mask mode.
pub fn push_const_run(
    out: &mut Vec<FrameInfo>,
    typ: u32,
    region: i32,
    major: u32,
    n: u32,
    m: FrameMaskMode,
    k: usize,
)
    ensures
        frame_views(final(out)@) == frame_views(old(out)@) + frame_run(
            typ,
            region,
            major,
            n as nat,
            const_mask_fn(m, k as nat),
        ),
{
    let ghost start = frame_views(out@);
    let mut minor: u32 = 0;
    while minor < n
        invariant
            minor <= n,
            frame_views(out@) == start + frame_run(typ, region, major, minor as nat, const_mask_fn(m, k as nat)),
        decreases n - minor,
    {
        let f = FrameInfo { addr: FrameAddr { typ, region, major, minor }, mask_mode: mask_fill(m, k) };
        proof {
            lemma_frame_views_push(out@, f);
        }
        out.push(f);
        minor = minor + 1;
        assert(frame_views(out@) =~= start + frame_run(typ, region, major, minor as nat, const_mask_fn(m, k as nat)));
    }
}

} // verus!
