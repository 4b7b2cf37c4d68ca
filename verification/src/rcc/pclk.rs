//! The two APB clocks, which drive the peripherals: the AHB clock divided by
//! a configurable factor each, and the timer clocks derived from them.

use vstd::prelude::*;
use crate::error::ClockError;
use crate::registers::{modify_field, Access, Field, RegisterBlock};
use crate::time::{rate_ratio, rate_scaled, Hertz};

verus! {

/// A step of an APB prescaler.
#[derive(Copy, Clone, PartialEq, Eq, Debug, Structural)]
pub enum Prescaler {
    Div1,
    Div2,
    Div4,
    Div8,
    Div16,
}

impl Prescaler {
    /// The step that divides by `factor`, if the prescaler has one.
    pub open spec fn with_factor(factor: int) -> Option<Prescaler> {
        if factor == 1 {
            Some(Prescaler::Div1)
        } else if factor == 2 {
            Some(Prescaler::Div2)
        } else if factor == 4 {
            Some(Prescaler::Div4)
        } else if factor == 8 {
            Some(Prescaler::Div8)
        } else if factor == 16 {
            Some(Prescaler::Div16)
        } else {
            None
        }
    }

    /// The step that makes `target` out of `source`: the one whose factor is
    /// `source / target`, where `target` divides `source` and the prescaler
    /// has such a step.
    pub open spec fn resolve(source: Hertz, target: Hertz) -> Option<Prescaler> {
        if target.raw != 0 && source.raw % target.raw == 0 {
            Self::with_factor(source.raw as int / target.raw as int)
        } else {
            None
        }
    }

    /// The step that makes `target` out of `source`, or
    /// [`ClockError::InvalidDividerRatio`] where the prescaler has none.
    pub fn from_ratio(source: Hertz, target: Hertz) -> (result: Result<Prescaler, ClockError>)
        ensures
            result == match Self::resolve(source, target) {
                Some(divider) => Ok::<Prescaler, ClockError>(divider),
                None => Err(ClockError::InvalidDividerRatio),
            },
    {
        if target.raw == 0 || source.raw % target.raw != 0 {
            return Err(ClockError::InvalidDividerRatio);
        }
        let ratio: u32 = rate_ratio(source.raw, target.raw);
        if ratio == 1 {
            Ok(Prescaler::Div1)
        } else if ratio == 2 {
            Ok(Prescaler::Div2)
        } else if ratio == 4 {
            Ok(Prescaler::Div4)
        } else if ratio == 8 {
            Ok(Prescaler::Div8)
        } else if ratio == 16 {
            Ok(Prescaler::Div16)
        } else {
            Err(ClockError::InvalidDividerRatio)
        }
    }

    /// The value of a `PPRE` field that selects the step.
    pub open spec fn spec_bits(self) -> u8 {
        match self {
            Prescaler::Div1 => 0b000,
            Prescaler::Div2 => 0b100,
            Prescaler::Div4 => 0b101,
            Prescaler::Div8 => 0b110,
            Prescaler::Div16 => 0b111,
        }
    }

    /// The value of a `PPRE` field that selects the step.
    #[verifier::when_used_as_spec(spec_bits)]
    pub fn bits(self) -> (bits: u8)
        ensures
            bits == self.spec_bits(),
    {
        match self {
            Prescaler::Div1 => 0b000,
            Prescaler::Div2 => 0b100,
            Prescaler::Div4 => 0b101,
            Prescaler::Div8 => 0b110,
            Prescaler::Div16 => 0b111,
        }
    }

    /// The factor that the step divides by.
    pub open spec fn spec_div_factor(self) -> u16 {
        match self {
            Prescaler::Div1 => 1,
            Prescaler::Div2 => 2,
            Prescaler::Div4 => 4,
            Prescaler::Div8 => 8,
            Prescaler::Div16 => 16,
        }
    }

    /// The factor that the step divides by.
    #[verifier::when_used_as_spec(spec_div_factor)]
    pub fn div_factor(self) -> (factor: u16)
        ensures
            factor == self.spec_div_factor(),
    {
        match self {
            Prescaler::Div1 => 1,
            Prescaler::Div2 => 2,
            Prescaler::Div4 => 4,
            Prescaler::Div8 => 8,
            Prescaler::Div16 => 16,
        }
    }

    /// A step is resolved for a pair of frequencies exactly where the target
    /// is not zero, divides the source, and the step's factor is the
    /// quotient. The source of a resolved pair is the target times the
    /// step's factor.
    pub proof fn lemma_resolve_exact(source: Hertz, target: Hertz, divider: Prescaler)
        ensures
            Self::resolve(source, target) == Some(divider) <==> target.raw != 0 && source.raw
                % target.raw == 0 && source.raw as int / target.raw as int
                == divider.div_factor(),
            Self::resolve(source, target) == Some(divider) ==> source.raw == target.raw
                * divider.div_factor(),
    {
        if target.raw != 0 && source.raw % target.raw == 0 {
            assert(source.raw as int == target.raw as int * (source.raw as int / target.raw as int))
                by (nonlinear_arith)
                requires
                    target.raw != 0,
                    source.raw as int % target.raw as int == 0,
            ;
        }
    }

    /// The frequency of the timers on a bus that runs at `pclk` behind this
    /// step: the bus's own where the step divides by one, twice that where
    /// it divides by more.
    pub open spec fn timer_frequency(self, pclk: Hertz) -> int {
        if self == Prescaler::Div1 {
            pclk.raw as int
        } else {
            2 * pclk.raw
        }
    }

    /// The access that sets the prescaler `field` to this step.
    pub open spec fn access(self, field: Field) -> Access {
        Access::modify_field(field, self.bits() as u32)
    }
}

/// Sets the APB prescaler `field` so that an AHB clock of `hclk_freq` gives
/// a bus clock of `freq`, and returns the bus clock's and its timers'
/// frequency.
fn freeze_prescaler<R: RegisterBlock>(
    field: Field,
    freq: Hertz,
    hclk_freq: Hertz,
    regs: &mut R,
) -> (result: Result<(Hertz, Hertz), ClockError>)
    requires
        field == Field::PPRE1 || field == Field::PPRE2,
    ensures
        match Prescaler::resolve(hclk_freq, freq) {
            Some(divider) => {
                &&& result matches Ok((pclk, timclk))
                &&& pclk == freq
                &&& timclk.raw == divider.timer_frequency(freq)
                &&& final(regs).history() == old(regs).history().push(divider.access(field))
            },
            None => {
                &&& result == Err::<(Hertz, Hertz), ClockError>(ClockError::InvalidDividerRatio)
                &&& final(regs).history() == old(regs).history()
            },
        },
{
    let divider = match Prescaler::from_ratio(hclk_freq, freq) {
        Ok(divider) => divider,
        Err(error) => {
            return Err(error);
        },
    };
    modify_field(regs, field, divider.bits() as u32);
    let timclk_freq = match divider {
        Prescaler::Div1 => freq,
        _ => {
            proof {
                Prescaler::lemma_resolve_exact(hclk_freq, freq, divider);
                let factor = divider.div_factor() as int;
                assert(2 * freq.raw <= hclk_freq.raw) by (nonlinear_arith)
                    requires
                        hclk_freq.raw == freq.raw * factor,
                        factor >= 2,
                ;
            }
            Hertz::from_raw(rate_scaled(2, freq.raw))
        },
    };
    Ok((freq, timclk_freq))
}

/// The APB1 clock asked for.
#[derive(Copy, Clone, Debug, PartialEq, Eq, Structural)]
pub struct Pclk1Config {
    /// The frequency of the APB1 clock.
    pub freq: Hertz,
}

impl Pclk1Config {
    /// An APB1 clock of `freq`.
    pub fn new(freq: Hertz) -> (config: Pclk1Config)
        ensures
            config.freq == freq,
    {
        Pclk1Config { freq }
    }

    /// Sets the APB1 prescaler so that an AHB clock of `hclk_freq` gives this
    /// APB1 clock, and returns the frequency of the APB1 clock and of its
    /// timers.
    ///
    /// Where the prescaler has no step for the two frequencies the registers
    /// are left alone and the error is [`ClockError::InvalidDividerRatio`].
    pub fn freeze<R: RegisterBlock>(self, hclk_freq: Hertz, regs: &mut R) -> (result: Result<
        (Hertz, Hertz),
        ClockError,
    >)
        ensures
            match Prescaler::resolve(hclk_freq, self.freq) {
                Some(divider) => {
                    &&& result matches Ok((pclk, timclk))
                    &&& pclk == self.freq
                    &&& timclk.raw == divider.timer_frequency(self.freq)
                    &&& final(regs).history() == old(regs).history().push(
                        divider.access(Field::PPRE1),
                    )
                },
                None => {
                    &&& result == Err::<(Hertz, Hertz), ClockError>(
                        ClockError::InvalidDividerRatio,
                    )
                    &&& final(regs).history() == old(regs).history()
                },
            },
    {
        freeze_prescaler(Field::PPRE1, self.freq, hclk_freq, regs)
    }
}

/// The APB2 clock asked for.
#[derive(Copy, Clone, Debug, PartialEq, Eq, Structural)]
pub struct Pclk2Config {
    /// The frequency of the APB2 clock.
    pub freq: Hertz,
}

impl Pclk2Config {
    /// An APB2 clock of `freq`.
    pub fn new(freq: Hertz) -> (config: Pclk2Config)
        ensures
            config.freq == freq,
    {
        Pclk2Config { freq }
    }

    /// Sets the APB2 prescaler so that an AHB clock of `hclk_freq` gives this
    /// APB2 clock, and returns the frequency of the APB2 clock and of its
    /// timers.
    ///
    /// Where the prescaler has no step for the two frequencies the registers
    /// are left alone and the error is [`ClockError::InvalidDividerRatio`].
    pub fn freeze<R: RegisterBlock>(self, hclk_freq: Hertz, regs: &mut R) -> (result: Result<
        (Hertz, Hertz),
        ClockError,
    >)
        ensures
            match Prescaler::resolve(hclk_freq, self.freq) {
                Some(divider) => {
                    &&& result matches Ok((pclk, timclk))
                    &&& pclk == self.freq
                    &&& timclk.raw == divider.timer_frequency(self.freq)
                    &&& final(regs).history() == old(regs).history().push(
                        divider.access(Field::PPRE2),
                    )
                },
                None => {
                    &&& result == Err::<(Hertz, Hertz), ClockError>(
                        ClockError::InvalidDividerRatio,
                    )
                    &&& final(regs).history() == old(regs).history()
                },
            },
    {
        freeze_prescaler(Field::PPRE2, self.freq, hclk_freq, regs)
    }
}

} // verus!
