//! Bits of the Input main item's payload. Each pair names the cleared and the
//! set state of one bit.
use vstd::prelude::*;

verus! {

pub const DATA: u8 = 0x00;
pub const CONST: u8 = 0x01;

pub const ARRAY: u8 = 0x00;
pub const VAR: u8 = 0x02;

pub const ABS: u8 = 0x00;
pub const REL: u8 = 0x04;

pub const NO_WRAP: u8 = 0x00;
pub const WRAP: u8 = 0x08;

pub const LINEAR: u8 = 0x00;
pub const NONLINEAR: u8 = 0x10;

pub const PREFERRED_STATE: u8 = 0x00;
pub const NO_PREFERRED_STATE: u8 = 0x20;

pub const NO_NULL_POSITION: u8 = 0x00;
pub const NULL_STATE: u8 = 0x40;

} // verus!
