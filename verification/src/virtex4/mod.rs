//! The Virtex 4, Virtex 5, Virtex 6 and Virtex 7 families.

pub mod bond;
pub mod chip;
pub mod expanded;
pub mod frames;
pub mod dump;
pub mod gtz;
pub mod device;
pub mod db;
pub mod sites;
pub mod grid_v4;
pub mod grid_v5;
pub mod grid_v7;
pub mod expand;
