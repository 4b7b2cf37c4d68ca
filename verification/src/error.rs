//! The ways in which a clock configuration is refused.

use vstd::prelude::*;
use crate::registers::Field;

verus! {

/// Why a clock configuration was not brought into effect.
#[derive(Clone, Copy, Debug, PartialEq, Eq, Structural)]
pub enum ClockError {
    /// A bus frequency is not its source frequency divided by a step that
    /// the bus's divider offers: the quotient is zero, leaves a remainder or
    /// is no such step.
    InvalidDividerRatio,
    /// The PLL takes its input from an oscillator that is not enabled.
    MissingPllSource,
    /// The system clock is taken from a source that is not enabled.
    MissingSysclkSource,
    /// Neither a system clock nor the MSI, its default source, is configured.
    NoSysclkSource,
    /// The PLL's output is not the frequency that its configuration declares.
    PllFrequencyMismatch,
    /// The system clock's source does not run at the frequency declared for
    /// the system clock.
    SysclkFrequencyMismatch,
    /// The PLL's input divider or multiplication factor, or its declared
    /// output frequency, is outside what the PLL offers.
    InvalidPllParameters,
    /// The PLL's input, once divided, is outside the range its oscillator
    /// accepts.
    VcoInputOutOfRange,
    /// The frequency of the PLL's oscillator is outside its range.
    VcoOutputOutOfRange,
    /// The PLL's output is faster than the device may be clocked.
    PllOutputTooFast,
    /// The clock security system is asked for on the LSE while the LSI, which
    /// it falls back to, is off.
    LseCssWithoutLsi,
    /// The field did not come to hold the awaited value within the poll
    /// limit.
    Timeout(Field),
}

/// The error of a result, if it is one.
pub open spec fn failure<T>(result: Result<T, ClockError>) -> Option<ClockError> {
    match result {
        Ok(_) => None,
        Err(error) => Some(error),
    }
}

} // verus!
