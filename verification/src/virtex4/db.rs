//! The parts of the database: each part's dies, bonds, speed grades and
//! disabled features.
use vstd::prelude::*;
use crate::virtex4::chip::DisabledPart;

verus! {

/// A combination of a device bond and a speed grade that a part comes in,
/// by their indices in the part's lists.
#[derive(Clone, Copy, Debug, PartialEq, Eq, Structural, Hash)]
pub struct DeviceCombo {
    pub devbond: usize,
    pub speed: usize,
}

/// A part: its name, the chip of each die (indices into the database's
/// chips), its interposer, its bonds by package name (indices into the
/// database's bonds), its speed grades, the combinations it comes in and
/// the features it disables.
#[derive(Clone, Debug)]
pub struct Part {
    pub name: String,
    pub chips: Vec<usize>,
    pub interposer: Option<usize>,
    pub bonds: Vec<(String, usize)>,
    pub speeds: Vec<String>,
    pub combos: Vec<DeviceCombo>,
    pub disabled: Vec<DisabledPart>,
}

} // verus!
