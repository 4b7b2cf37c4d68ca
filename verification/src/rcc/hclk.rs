//! The AHB clock, which drives the core and memory: the system clock divided
//! by a configurable factor.

use vstd::prelude::*;
use crate::error::ClockError;
use crate::registers::{modify_field, Access, Field, RegisterBlock};
use crate::time::{rate_ratio, Hertz};

verus! {

/// A step of the AHB prescaler.
#[derive(Copy, Clone, PartialEq, Eq, Debug, Structural)]
pub enum HclkDivider {
    Div1,
    Div2,
    Div4,
    Div8,
    Div16,
    Div64,
    Div128,
    Div256,
    Div512,
}

impl HclkDivider {
    /// The step that divides by `factor`, if the prescaler has one.
    pub open spec fn with_factor(factor: int) -> Option<HclkDivider> {
        if factor == 1 {
            Some(HclkDivider::Div1)
        } else if factor == 2 {
            Some(HclkDivider::Div2)
        } else if factor == 4 {
            Some(HclkDivider::Div4)
        } else if factor == 8 {
            Some(HclkDivider::Div8)
        } else if factor == 16 {
            Some(HclkDivider::Div16)
        } else if factor == 64 {
            Some(HclkDivider::Div64)
        } else if factor == 128 {
            Some(HclkDivider::Div128)
        } else if factor == 256 {
            Some(HclkDivider::Div256)
        } else if factor == 512 {
            Some(HclkDivider::Div512)
        } else {
            None
        }
    }

    /// The step that makes `target` out of `source`: the one whose factor is
    /// `source / target`, where `target` divides `source` and the prescaler
    /// has such a step.
    pub open spec fn resolve(source: Hertz, target: Hertz) -> Option<HclkDivider> {
        if target.raw != 0 && source.raw % target.raw == 0 {
            Self::with_factor(source.raw as int / target.raw as int)
        } else {
            None
        }
    }

    /// The step that makes `target` out of `source`, or
    /// [`ClockError::InvalidDividerRatio`] where the prescaler has none.
    pub fn from_ratio(source: Hertz, target: Hertz) -> (result: Result<HclkDivider, ClockError>)
        ensures
            result == match Self::resolve(source, target) {
                Some(divider) => Ok::<HclkDivider, ClockError>(divider),
                None => Err(ClockError::InvalidDividerRatio),
            },
    {
        if target.raw == 0 || source.raw % target.raw != 0 {
            return Err(ClockError::InvalidDividerRatio);
        }
        let ratio: u32 = rate_ratio(source.raw, target.raw);
        if ratio == 1 {
            Ok(HclkDivider::Div1)
        } else if ratio == 2 {
            Ok(HclkDivider::Div2)
        } else if ratio == 4 {
            Ok(HclkDivider::Div4)
        } else if ratio == 8 {
            Ok(HclkDivider::Div8)
        } else if ratio == 16 {
            Ok(HclkDivider::Div16)
        } else if ratio == 64 {
            Ok(HclkDivider::Div64)
        } else if ratio == 128 {
            Ok(HclkDivider::Div128)
        } else if ratio == 256 {
            Ok(HclkDivider::Div256)
        } else if ratio == 512 {
            Ok(HclkDivider::Div512)
        } else {
            Err(ClockError::InvalidDividerRatio)
        }
    }

    /// The value of the `HPRE` field that selects the step.
    pub open spec fn spec_bits(self) -> u8 {
        match self {
            HclkDivider::Div1 => 0b0000,
            HclkDivider::Div2 => 0b1000,
            HclkDivider::Div4 => 0b1001,
            HclkDivider::Div8 => 0b1010,
            HclkDivider::Div16 => 0b1011,
            HclkDivider::Div64 => 0b1100,
            HclkDivider::Div128 => 0b1101,
            HclkDivider::Div256 => 0b1110,
            HclkDivider::Div512 => 0b1111,
        }
    }

    /// The value of the `HPRE` field that selects the step.
    #[verifier::when_used_as_spec(spec_bits)]
    pub fn bits(self) -> (bits: u8)
        ensures
            bits == self.spec_bits(),
    {
        match self {
            HclkDivider::Div1 => 0b0000,
            HclkDivider::Div2 => 0b1000,
            HclkDivider::Div4 => 0b1001,
            HclkDivider::Div8 => 0b1010,
            HclkDivider::Div16 => 0b1011,
            HclkDivider::Div64 => 0b1100,
            HclkDivider::Div128 => 0b1101,
            HclkDivider::Div256 => 0b1110,
            HclkDivider::Div512 => 0b1111,
        }
    }

    /// The factor that the step divides by.
    pub open spec fn spec_div_factor(self) -> u16 {
        match self {
            HclkDivider::Div1 => 1,
            HclkDivider::Div2 => 2,
            HclkDivider::Div4 => 4,
            HclkDivider::Div8 => 8,
            HclkDivider::Div16 => 16,
            HclkDivider::Div64 => 64,
            HclkDivider::Div128 => 128,
            HclkDivider::Div256 => 256,
            HclkDivider::Div512 => 512,
        }
    }

    /// The factor that the step divides by.
    #[verifier::when_used_as_spec(spec_div_factor)]
    pub fn div_factor(self) -> (factor: u16)
        ensures
            factor == self.spec_div_factor(),
    {
        match self {
            HclkDivider::Div1 => 1,
            HclkDivider::Div2 => 2,
            HclkDivider::Div4 => 4,
            HclkDivider::Div8 => 8,
            HclkDivider::Div16 => 16,
            HclkDivider::Div64 => 64,
            HclkDivider::Div128 => 128,
            HclkDivider::Div256 => 256,
            HclkDivider::Div512 => 512,
        }
    }

    /// A step is resolved for a pair of frequencies exactly where the target
    /// is not zero, divides the source, and the step's factor is the
    /// quotient. The quotient of a resolved pair is the step's factor, and so
    /// source and target are each other's multiple and quotient by it.
    pub proof fn lemma_resolve_exact(source: Hertz, target: Hertz, divider: HclkDivider)
        ensures
            Self::resolve(source, target) == Some(divider) <==> target.raw != 0 && source.raw
                % target.raw == 0 && source.raw as int / target.raw as int
                == divider.div_factor(),
            Self::resolve(source, target) == Some(divider) ==> source.raw == target.raw
                * divider.div_factor(),
    {
        if target.raw != 0 && source.raw % target.raw == 0 {
            assert(source.raw as int == target.raw as int * (source.raw as int / target.raw as int))
                by (nonlinear_arith)
                requires
                    target.raw != 0,
                    source.raw as int % target.raw as int == 0,
            ;
        }
    }

    /// No pair of frequencies resolves to a division by 32: the prescaler has
    /// no such step, and a source 32 times its target is refused.
    pub proof fn lemma_never_by_32(source: Hertz, target: Hertz)
        ensures
            Self::resolve(source, target) matches Some(divider) ==> divider.div_factor() != 32,
            source.raw == 32 * target.raw ==> Self::resolve(source, target) is None,
    {
        if source.raw == 32 * target.raw && target.raw != 0 {
            assert(source.raw as int / target.raw as int == 32) by (nonlinear_arith)
                requires
                    source.raw == 32 * target.raw,
                    target.raw != 0,
            ;
        }
    }
}

/// The AHB clock asked for.
#[derive(Copy, Clone, Debug, PartialEq, Eq, Structural)]
pub struct HclkConfig {
    /// The frequency of the AHB clock.
    pub freq: Hertz,
}

impl HclkConfig {
    /// An AHB clock of `freq`.
    pub fn new(freq: Hertz) -> (config: HclkConfig)
        ensures
            config.freq == freq,
    {
        HclkConfig { freq }
    }

    /// The access that sets the AHB prescaler to `divider`.
    pub open spec fn divider_access(divider: HclkDivider) -> Access {
        Access::modify_field(Field::HPRE, divider.bits() as u32)
    }

    /// Sets the AHB prescaler so that a system clock of `sysclk_freq` gives
    /// this AHB clock, and returns the AHB clock's frequency.
    ///
    /// Where the prescaler has no step for the two frequencies the registers
    /// are left alone and the error is [`ClockError::InvalidDividerRatio`].
    pub fn freeze<R: RegisterBlock>(self, sysclk_freq: Hertz, regs: &mut R) -> (result: Result<
        Hertz,
        ClockError,
    >)
        ensures
            match HclkDivider::resolve(sysclk_freq, self.freq) {
                Some(divider) => {
                    &&& result == Ok::<Hertz, ClockError>(self.freq)
                    &&& final(regs).history() == old(regs).history().push(
                        Self::divider_access(divider),
                    )
                },
                None => {
                    &&& result == Err::<Hertz, ClockError>(ClockError::InvalidDividerRatio)
                    &&& final(regs).history() == old(regs).history()
                },
            },
    {
        let divider = match HclkDivider::from_ratio(sysclk_freq, self.freq) {
            Ok(divider) => divider,
            Err(error) => {
                return Err(error);
            },
        };
        modify_field(regs, Field::HPRE, divider.bits() as u32);
        Ok(self.freq)
    }
}

} // verus!
