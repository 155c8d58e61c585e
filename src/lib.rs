use vstd::prelude::*;

pub mod registers;
pub mod ram;
pub mod device;
pub mod bus;
pub mod cpu;
pub mod modes;
pub mod catalog;
pub mod disassembler;
pub mod debugger;
pub mod laws;
pub mod image;

verus! {

} // verus!
