//! Clock-tree configuration for a microcontroller's reset and clock control
//! block: oscillators, the PLL, the bus dividers and the ordered sequence of
//! register accesses that brings a requested configuration into effect.

pub mod error;
pub mod model;
pub mod rcc;
pub mod registers;
pub mod sequence;
pub mod time;
