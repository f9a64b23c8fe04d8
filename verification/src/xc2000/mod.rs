//! The XC2000, XC3000, XC4000 and XC5200 families.

pub mod bels;
pub mod bond;
pub mod bscan;
pub mod chip;
pub mod dump;
pub mod expand;
pub mod expanded;
pub mod tiles;
