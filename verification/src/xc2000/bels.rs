//! Bel slots and tile slots of the XC2000 .. XC5200 families, and the
//! coordinates that name a bel or a tile of a chip.
use vstd::prelude::*;
use crate::grid::{ColId, DieId, RowId};

verus! {

/// A bel slot within a tile.  The IO slots carry their index within the
/// slot array of the family: `IoW`, `IoE`, `IoS`, `IoN` are the edge IO
/// arrays of the XC2000 and XC3000 families, `Io` is the IO array of the
/// XC4000 and XC5200 families, `Hio` the IO array of the XC4000H.
#[derive(Clone, Copy, Debug, PartialEq, Eq, Structural, Hash)]
pub enum BelSlot {
    IoW(usize),
    IoE(usize),
    IoS(usize),
    IoN(usize),
    Io(usize),
    Hio(usize),
    BufgH,
    BufgV,
}

/// A tile slot within a cell.
#[derive(Clone, Copy, Debug, PartialEq, Eq, Structural, Hash)]
pub enum TileSlot {
    Main,
    Bidih,
    Bidiv,
    Llh,
    Llv,
}

/// A bel of a chip: die, cell and slot.
#[derive(Clone, Copy, Debug, PartialEq, Eq, Structural, Hash)]
pub struct BelCoord {
    pub die: DieId,
    pub col: ColId,
    pub row: RowId,
    pub slot: BelSlot,
}

/// A tile of a chip: die, cell and tile slot.
#[derive(Clone, Copy, Debug, PartialEq, Eq, Structural, Hash)]
pub struct TileCoord {
    pub die: DieId,
    pub col: ColId,
    pub row: RowId,
    pub slot: TileSlot,
}

/// The bel at `(col, row)` of the single die.
pub open spec fn spec_bel(col: int, row: int, slot: BelSlot) -> BelCoord {
    BelCoord { die: DieId(0), col: ColId(col as usize), row: RowId(row as usize), slot }
}

/// Builds the bel at `(col, row)` of the single die.
pub fn bel_at(col: usize, row: usize, slot: BelSlot) -> (r: BelCoord)
    ensures
        r == spec_bel(col as int, row as int, slot),
{
    BelCoord { die: DieId(0), col: ColId(col), row: RowId(row), slot }
}

} // verus!
