//! The PLL, which makes a faster clock out of an oscillator's: the input is
//! divided, multiplied in the PLL's own oscillator, the VCO, and divided
//! again.

use vstd::prelude::*;
use crate::error::{failure, ClockError};
use crate::rcc::cfgr::CFGR;
use crate::rcc::{HSI16_FREQ, MAX_CLOCK_SPEED};
use crate::registers::{modify_field, Access, Field, FieldValue, Register, RegisterBlock};
use crate::sequence::{
    lemma_performed_await, lemma_performed_cut, lemma_performed_issue, lemma_performed_push,
    phase_performed, wait_for, Outcome, Phase, Step,
};
use crate::time::Hertz;

verus! {

/// A step of the divider behind the PLL's main output.
#[derive(Copy, Clone, PartialEq, Eq, Debug, Structural)]
pub enum PllOutputDivider {
    Div2,
    Div4,
    Div6,
    Div8,
}

impl PllOutputDivider {
    /// The value of the `PLLR` field that selects the step.
    pub open spec fn spec_bits(self) -> u8 {
        match self {
            PllOutputDivider::Div2 => 0b00,
            PllOutputDivider::Div4 => 0b01,
            PllOutputDivider::Div6 => 0b10,
            PllOutputDivider::Div8 => 0b11,
        }
    }

    /// The value of the `PLLR` field that selects the step.
    #[verifier::when_used_as_spec(spec_bits)]
    pub fn bits(self) -> (bits: u8)
        ensures
            bits == self.spec_bits(),
    {
        match self {
            PllOutputDivider::Div2 => 0b00,
            PllOutputDivider::Div4 => 0b01,
            PllOutputDivider::Div6 => 0b10,
            PllOutputDivider::Div8 => 0b11,
        }
    }

    /// The factor that the step divides by.
    pub open spec fn spec_div_factor(self) -> u8 {
        match self {
            PllOutputDivider::Div2 => 2,
            PllOutputDivider::Div4 => 4,
            PllOutputDivider::Div6 => 6,
            PllOutputDivider::Div8 => 8,
        }
    }

    /// The factor that the step divides by.
    #[verifier::when_used_as_spec(spec_div_factor)]
    pub fn div_factor(self) -> (factor: u8)
        ensures
            factor == self.spec_div_factor(),
    {
        match self {
            PllOutputDivider::Div2 => 2,
            PllOutputDivider::Div4 => 4,
            PllOutputDivider::Div6 => 6,
            PllOutputDivider::Div8 => 8,
        }
    }
}

/// The oscillator that feeds the PLL.
#[derive(Clone, Copy, Debug, PartialEq, Eq, Structural)]
pub enum PllSource {
    /// Multi-speed internal clock.
    MSI,
    /// High-speed 16 MHz internal clock.
    HSI16,
    /// High-speed external clock.
    HSE,
}

impl PllSource {
    /// The value of the `PLLSRC` field that selects the oscillator.
    pub open spec fn spec_source_bits(self) -> u8 {
        match self {
            PllSource::MSI => 0b01,
            PllSource::HSI16 => 0b10,
            PllSource::HSE => 0b11,
        }
    }

    /// The value of the `PLLSRC` field that selects the oscillator.
    #[verifier::when_used_as_spec(spec_source_bits)]
    pub fn source_bits(self) -> (bits: u8)
        ensures
            bits == self.spec_source_bits(),
    {
        match self {
            PllSource::MSI => 0b01,
            PllSource::HSI16 => 0b10,
            PllSource::HSE => 0b11,
        }
    }
}

/// The frequency that the PLL puts out when `clock_freq` is divided by
/// `in_div`, multiplied by `out_mul` and divided by `out_div`, or why it
/// cannot run so:
/// - [`ClockError::InvalidPllParameters`] where `in_div` is zero;
/// - [`ClockError::VcoInputOutOfRange`] where the divided input is not
///   between 4 MHz and 16 MHz;
/// - [`ClockError::VcoOutputOutOfRange`] where the multiplied frequency is
///   not between 64 MHz and 344 MHz;
/// - [`ClockError::PllOutputTooFast`] where the output is above
///   [`MAX_CLOCK_SPEED`].
///
/// Both divisions drop the remainder.
pub open spec fn pll_output(
    clock_freq: Hertz,
    in_div: u8,
    out_mul: u8,
    out_div: PllOutputDivider,
) -> Result<Hertz, ClockError> {
    if in_div == 0 {
        Err(ClockError::InvalidPllParameters)
    } else {
        let vco_input = clock_freq.raw as int / in_div as int;
        let vco_output = vco_input * out_mul;
        let output = vco_output / out_div.div_factor() as int;
        if vco_input < 4_000_000 || vco_input > 16_000_000 {
            Err(ClockError::VcoInputOutOfRange)
        } else if vco_output < 64_000_000 || vco_output > 344_000_000 {
            Err(ClockError::VcoOutputOutOfRange)
        } else if output > MAX_CLOCK_SPEED {
            Err(ClockError::PllOutputTooFast)
        } else {
            Ok(Hertz { raw: output as u32 })
        }
    }
}

/// The frequency that the PLL puts out for the given input and factors, or
/// why it cannot run with them.
pub fn output_frequency(
    clock_freq: Hertz,
    in_div: u8,
    out_mul: u8,
    out_div: PllOutputDivider,
) -> (result: Result<Hertz, ClockError>)
    ensures
        result == pll_output(clock_freq, in_div, out_mul, out_div),
{
    if in_div == 0 {
        return Err(ClockError::InvalidPllParameters);
    }
    let vco_input: u32 = clock_freq.raw / in_div as u32;
    if vco_input < Hertz::MHz(4).raw || vco_input > Hertz::MHz(16).raw {
        return Err(ClockError::VcoInputOutOfRange);
    }
    assert(vco_input * out_mul <= 16_000_000 * 255) by (nonlinear_arith)
        requires
            vco_input <= 16_000_000,
            out_mul <= 255,
    ;
    let vco_output: u32 = vco_input * out_mul as u32;
    if vco_output < Hertz::MHz(64).raw || vco_output > Hertz::MHz(344).raw {
        return Err(ClockError::VcoOutputOutOfRange);
    }
    let output: u32 = vco_output / out_div.div_factor() as u32;
    if output > MAX_CLOCK_SPEED {
        return Err(ClockError::PllOutputTooFast);
    }
    Ok(Hertz::from_raw(output))
}

/// What a PLL configuration holds.
pub struct PllParameters {
    /// The oscillator that feeds the PLL.
    pub source: PllSource,
    /// The frequency that the PLL is to put out.
    pub target_freq: Hertz,
    /// The factor that the input is divided by.
    pub in_div: u8,
    /// The factor that the divided input is multiplied by.
    pub out_mul: u8,
    /// The step that the multiplied frequency is divided by.
    pub out_div: PllOutputDivider,
}

impl PllParameters {
    /// Whether the PLL offers these factors, and the device the output: an
    /// input divider from 1 to 8, a multiplication factor from 8 to 86, and
    /// an output of at most [`MAX_CLOCK_SPEED`].
    pub open spec fn valid(self) -> bool {
        &&& 1 <= self.in_div <= 8
        &&& 8 <= self.out_mul <= 86
        &&& self.target_freq.raw <= MAX_CLOCK_SPEED
    }

    /// The frequency of the oscillator that feeds the PLL, if `cfgr` enables
    /// that oscillator.
    pub open spec fn input_frequency(self, cfgr: CFGR) -> Option<Hertz> {
        match self.source {
            PllSource::HSE => match cfgr.hse {
                Some(hse) => Some(hse.speed),
                None => None,
            },
            PllSource::HSI16 => if cfgr.hsi16_on {
                Some(Hertz { raw: HSI16_FREQ })
            } else {
                None
            },
            PllSource::MSI => match cfgr.msi {
                Some(msi) => Some(msi.to_hertz()),
                None => None,
            },
        }
    }

    /// Why the PLL cannot be started within `cfgr`, if it cannot:
    /// - [`ClockError::MissingPllSource`] where `cfgr` does not enable the
    ///   oscillator that feeds it;
    /// - the error of [`pll_output`] where its frequencies are out of range;
    /// - [`ClockError::PllFrequencyMismatch`] where its output is not the
    ///   frequency it is to put out.
    pub open spec fn check(self, cfgr: CFGR) -> Option<ClockError> {
        match self.input_frequency(cfgr) {
            None => Some(ClockError::MissingPllSource),
            Some(clock_freq) => match pll_output(
                clock_freq,
                self.in_div,
                self.out_mul,
                self.out_div,
            ) {
                Err(error) => Some(error),
                Ok(output) => if output == self.target_freq {
                    None
                } else {
                    Some(ClockError::PllFrequencyMismatch)
                },
            },
        }
    }

    /// The access that sets the PLL's source and factors.
    pub open spec fn factors_access(self) -> Access {
        Access::Modify {
            register: Register::PLLCFGR,
            updates: seq![
                FieldValue { field: Field::PLLSRC, value: self.source.source_bits() as u32 },
                FieldValue { field: Field::PLLM, value: (self.in_div - 1) as u32 },
                FieldValue { field: Field::PLLR, value: self.out_div.bits() as u32 },
                FieldValue { field: Field::PLLN, value: self.out_mul as u32 },
            ],
        }
    }

    /// The access that switches the PLL on.
    pub open spec fn enable_access() -> Access {
        Access::modify_field(Field::PLLON, 1)
    }

    /// The access that lets the PLL's main output through.
    pub open spec fn output_access() -> Access {
        Access::modify_field(Field::PLLREN, 1)
    }

    /// The steps that start the PLL: its source and factors are set, it is
    /// switched on, and only once it has locked is its output let through.
    pub open spec fn startup_steps(self) -> Seq<Step> {
        seq![
            Step::Issue(self.factors_access()),
            Step::Issue(Self::enable_access()),
            Step::Wait { field: Field::PLLRDY, expected: 1 },
            Step::Issue(Self::output_access()),
        ]
    }

    /// The start of the PLL within `cfgr`.
    pub open spec fn phase(self, cfgr: CFGR) -> Phase {
        Phase { check: self.check(cfgr), steps: self.startup_steps() }
    }
}

/// The configuration of the PLL. Its factors are ones that the PLL offers:
/// see [`PllParameters::valid`].
#[derive(Debug)]
pub struct PllConfig {
    source: PllSource,
    target_freq: Hertz,
    in_div: u8,
    out_mul: u8,
    out_div: PllOutputDivider,
}

impl View for PllConfig {
    type V = PllParameters;

    closed spec fn view(&self) -> PllParameters {
        PllParameters {
            source: self.source,
            target_freq: self.target_freq,
            in_div: self.in_div,
            out_mul: self.out_mul,
            out_div: self.out_div,
        }
    }
}

impl PllConfig {
    #[verifier::type_invariant]
    spec fn well_formed(self) -> bool {
        self@.valid()
    }

    /// A PLL that is fed by `source` and puts out `target_freq`, with the
    /// given factors, or [`ClockError::InvalidPllParameters`] where the PLL
    /// does not offer them.
    pub fn new(
        source: PllSource,
        target_freq: Hertz,
        in_div: u8,
        out_mul: u8,
        out_div: PllOutputDivider,
    ) -> (result: Result<PllConfig, ClockError>)
        ensures
            match result {
                Ok(config) => {
                    &&& config@ == (PllParameters { source, target_freq, in_div, out_mul, out_div })
                    &&& config@.valid()
                },
                Err(error) => {
                    &&& error == ClockError::InvalidPllParameters
                    &&& !(PllParameters { source, target_freq, in_div, out_mul, out_div }).valid()
                },
            },
    {
        if in_div >= 1 && in_div <= 8 && out_mul >= 8 && out_mul <= 86 && target_freq.raw
            <= MAX_CLOCK_SPEED {
            Ok(PllConfig { source, target_freq, in_div, out_mul, out_div })
        } else {
            Err(ClockError::InvalidPllParameters)
        }
    }

    /// The frequency that the PLL is to put out.
    pub fn speed(&self) -> (speed: Hertz)
        ensures
            speed == self@.target_freq,
    {
        self.target_freq
    }

    /// The frequency of the oscillator that feeds the PLL, if `cfgr` enables
    /// that oscillator.
    fn input_frequency(&self, cfgr: &CFGR) -> (input: Option<Hertz>)
        ensures
            input == self@.input_frequency(*cfgr),
    {
        match self.source {
            PllSource::HSE => match cfgr.hse() {
                Some(hse) => Some(hse.speed()),
                None => None,
            },
            PllSource::HSI16 => if cfgr.hsi16_on {
                Some(Hertz::MHz(16))
            } else {
                None
            },
            PllSource::MSI => match cfgr.msi() {
                Some(msi) => Some(msi.to_hertz()),
                None => None,
            },
        }
    }

    /// Starts the PLL within `cfgr`, waits until it has locked, lets its
    /// output through and returns the output's frequency.
    ///
    /// Where the PLL cannot be started within `cfgr` the registers are left
    /// alone and the error is that of [`PllParameters::check`]. Fails with
    /// [`ClockError::Timeout`] for `PLLRDY` where the PLL does not lock
    /// within `poll_limit` reads; its output is then not let through.
    pub fn freeze<R: RegisterBlock>(&self, cfgr: &CFGR, regs: &mut R, poll_limit: u32) -> (result:
        Result<Hertz, ClockError>)
        ensures
            phase_performed(
                old(regs).history(),
                final(regs).history(),
                self@.phase(*cfgr),
                poll_limit as nat,
                failure(result),
            ),
            result matches Ok(output) ==> output == self@.target_freq,
    {
        proof {
            use_type_invariant(self);
        }
        let clock_freq = match self.input_frequency(cfgr) {
            Some(clock_freq) => clock_freq,
            None => {
                return Err(ClockError::MissingPllSource);
            },
        };
        let out_clock = match output_frequency(clock_freq, self.in_div, self.out_mul, self.out_div) {
            Ok(out_clock) => out_clock,
            Err(error) => {
                return Err(error);
            },
        };
        if out_clock.raw != self.target_freq.raw {
            return Err(ClockError::PllFrequencyMismatch);
        }
        let ghost before = regs.history();
        let ghost limit = poll_limit as nat;
        let ghost factors = Step::Issue(self@.factors_access());
        let ghost enable = Step::Issue(PllParameters::enable_access());
        let ghost wait = Step::Wait { field: Field::PLLRDY, expected: 1 };
        let ghost output = Step::Issue(PllParameters::output_access());

        let updates = [
            FieldValue::new(Field::PLLSRC, self.source.source_bits() as u32),
            FieldValue::new(Field::PLLM, (self.in_div - 1) as u32),
            FieldValue::new(Field::PLLR, self.out_div.bits() as u32),
            FieldValue::new(Field::PLLN, self.out_mul as u32),
        ];
        assert(updates@ =~= self@.factors_access()->Modify_updates);
        regs.modify(Register::PLLCFGR, &updates);
        let ghost configured = regs.history();

        modify_field(regs, Field::PLLON, 1);
        let ghost enabled = regs.history();

        let ready = wait_for(regs, Field::PLLRDY, 1, poll_limit);
        let ghost awaited = regs.history();
        proof {
            lemma_performed_issue(before, self@.factors_access(), limit);
            lemma_performed_push(
                before,
                configured,
                seq![factors],
                PllParameters::enable_access(),
                limit,
            );
            lemma_performed_await(
                before,
                enabled,
                awaited,
                seq![factors].push(enable),
                Field::PLLRDY,
                1,
                limit,
                if ready {
                    Outcome::Completed
                } else {
                    Outcome::TimedOut(Field::PLLRDY)
                },
            );
            assert(seq![factors].push(enable).push(wait) =~= seq![factors, enable, wait]);
        }
        if !ready {
            proof {
                lemma_performed_cut(
                    before,
                    awaited,
                    seq![factors, enable, wait],
                    seq![output],
                    limit,
                    Field::PLLRDY,
                );
                assert(seq![factors, enable, wait] + seq![output] =~= self@.startup_steps());
            }
            return Err(ClockError::Timeout(Field::PLLRDY));
        }
        modify_field(regs, Field::PLLREN, 1);
        proof {
            lemma_performed_push(
                before,
                awaited,
                seq![factors, enable, wait],
                PllParameters::output_access(),
                limit,
            );
            assert(seq![factors, enable, wait].push(output) =~= self@.startup_steps());
        }
        Ok(out_clock)
    }
}

} // verus!
