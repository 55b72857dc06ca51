//! The addresses at which the processor finds where to go on an interrupt
//! and on reset.

use vstd::prelude::*;

verus! {

pub const NMI_LO: u16 = 0xfffa;

pub const NMI_HI: u16 = 0xfffb;

pub const START_LO: u16 = 0xfffc;

pub const START_HI: u16 = 0xfffd;

pub const IRQ_LO: u16 = 0xfffe;

pub const IRQ_HI: u16 = 0xffff;

} // verus!
