//! Geometry and packaging database for Xilinx FPGA families: the XC2000,
//! XC3000, XC4000 and XC5200 families and the Virtex 4 to Virtex 7 families.

pub mod bitstream;
pub mod grid;
pub mod seqs;
pub mod text;
pub mod tile;
pub mod xc2000;
pub mod virtex4;
