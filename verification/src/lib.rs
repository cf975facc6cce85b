//! Frame encoding and decoding for the devices of the dynalene cooling
//! plant, verified with Verus.

pub mod utility;
pub mod ascii;
pub mod parse;
pub mod enums;
pub mod constants;
pub mod config;
pub mod frame;
pub mod daq;
pub mod text;
pub mod mock;
