//! The MSI, the internal oscillator that runs at one of twelve frequencies.

use vstd::prelude::*;
use crate::error::{failure, ClockError};
use crate::registers::{Access, Field, FieldValue, Register, RegisterBlock};
use crate::sequence::{
    lemma_performed_await, lemma_performed_issue, phase_performed, unchecked, wait_for, Outcome,
    Step,
};
use crate::time::Hertz;

verus! {

/// A frequency range of the MSI.
#[derive(Clone, Copy, Debug, PartialEq, Eq, Structural)]
pub enum MsiFreq {
    /// Range 0, around 100 kHz.
    RANGE100K,
    /// Range 1, around 200 kHz.
    RANGE200K,
    /// Range 2, around 400 kHz.
    RANGE400K,
    /// Range 3, around 800 kHz.
    RANGE800K,
    /// Range 4, around 1 MHz.
    RANGE1M,
    /// Range 5, around 2 MHz.
    RANGE2M,
    /// Range 6, around 4 MHz.
    RANGE4M,
    /// Range 7, around 8 MHz.
    RANGE8M,
    /// Range 8, around 16 MHz.
    RANGE16M,
    /// Range 9, around 24 MHz.
    RANGE24M,
    /// Range 10, around 32 MHz.
    RANGE32M,
    /// Range 11, around 48 MHz.
    RANGE48M,
}

impl MsiFreq {
    /// The frequency of the range.
    pub open spec fn spec_to_hertz(self) -> Hertz {
        Hertz {
            raw: match self {
                MsiFreq::RANGE100K => 100_000,
                MsiFreq::RANGE200K => 200_000,
                MsiFreq::RANGE400K => 400_000,
                MsiFreq::RANGE800K => 800_000,
                MsiFreq::RANGE1M => 1_000_000,
                MsiFreq::RANGE2M => 2_000_000,
                MsiFreq::RANGE4M => 4_000_000,
                MsiFreq::RANGE8M => 8_000_000,
                MsiFreq::RANGE16M => 16_000_000,
                MsiFreq::RANGE24M => 24_000_000,
                MsiFreq::RANGE32M => 32_000_000,
                MsiFreq::RANGE48M => 48_000_000,
            },
        }
    }

    /// The frequency of the range.
    #[verifier::when_used_as_spec(spec_to_hertz)]
    pub fn to_hertz(self) -> (hz: Hertz)
        ensures
            hz == self.spec_to_hertz(),
    {
        Hertz::from_raw(
            match self {
                MsiFreq::RANGE100K => 100_000,
                MsiFreq::RANGE200K => 200_000,
                MsiFreq::RANGE400K => 400_000,
                MsiFreq::RANGE800K => 800_000,
                MsiFreq::RANGE1M => 1_000_000,
                MsiFreq::RANGE2M => 2_000_000,
                MsiFreq::RANGE4M => 4_000_000,
                MsiFreq::RANGE8M => 8_000_000,
                MsiFreq::RANGE16M => 16_000_000,
                MsiFreq::RANGE24M => 24_000_000,
                MsiFreq::RANGE32M => 32_000_000,
                MsiFreq::RANGE48M => 48_000_000,
            },
        )
    }

    /// The value of the `MSIRANGE` field that selects the range.
    pub open spec fn spec_bits(self) -> u8 {
        match self {
            MsiFreq::RANGE100K => 0,
            MsiFreq::RANGE200K => 1,
            MsiFreq::RANGE400K => 2,
            MsiFreq::RANGE800K => 3,
            MsiFreq::RANGE1M => 4,
            MsiFreq::RANGE2M => 5,
            MsiFreq::RANGE4M => 6,
            MsiFreq::RANGE8M => 7,
            MsiFreq::RANGE16M => 8,
            MsiFreq::RANGE24M => 9,
            MsiFreq::RANGE32M => 10,
            MsiFreq::RANGE48M => 11,
        }
    }

    /// The value of the `MSIRANGE` field that selects the range.
    #[verifier::when_used_as_spec(spec_bits)]
    pub fn bits(self) -> (bits: u8)
        ensures
            bits == self.spec_bits(),
    {
        match self {
            MsiFreq::RANGE100K => 0,
            MsiFreq::RANGE200K => 1,
            MsiFreq::RANGE400K => 2,
            MsiFreq::RANGE800K => 3,
            MsiFreq::RANGE1M => 4,
            MsiFreq::RANGE2M => 5,
            MsiFreq::RANGE4M => 6,
            MsiFreq::RANGE8M => 7,
            MsiFreq::RANGE16M => 8,
            MsiFreq::RANGE24M => 9,
            MsiFreq::RANGE32M => 10,
            MsiFreq::RANGE48M => 11,
        }
    }

    /// The access that selects the range and switches the MSI on, with or
    /// without calibration against the LSE.
    pub open spec fn range_access(self, use_lse_calibration: bool) -> Access {
        Access::Modify {
            register: Register::CR,
            updates: if use_lse_calibration {
                seq![
                    FieldValue { field: Field::MSIRANGE, value: self.bits() as u32 },
                    FieldValue { field: Field::MSIRGSEL, value: 1 },
                    FieldValue { field: Field::MSION, value: 1 },
                    FieldValue { field: Field::MSIPLLEN, value: 1 },
                ]
            } else {
                seq![
                    FieldValue { field: Field::MSIRANGE, value: self.bits() as u32 },
                    FieldValue { field: Field::MSIRGSEL, value: 1 },
                    FieldValue { field: Field::MSION, value: 1 },
                ]
            },
        }
    }

    /// The steps that bring the MSI to the range: the range is selected and
    /// the MSI switched on in one access, then the MSI is awaited.
    pub open spec fn startup_steps(self, use_lse_calibration: bool) -> Seq<Step> {
        seq![
            Step::Issue(self.range_access(use_lse_calibration)),
            Step::Wait { field: Field::MSIRDY, expected: 1 },
        ]
    }

    /// Brings the MSI to the range, calibrated against the LSE if
    /// `use_lse_calibration`, and waits until it runs.
    ///
    /// Fails with [`ClockError::Timeout`] for `MSIRDY` where the MSI does not
    /// report ready within `poll_limit` reads.
    pub fn freeze<R: RegisterBlock>(
        self,
        regs: &mut R,
        use_lse_calibration: bool,
        poll_limit: u32,
    ) -> (result: Result<(), ClockError>)
        ensures
            phase_performed(
                old(regs).history(),
                final(regs).history(),
                unchecked(self.startup_steps(use_lse_calibration)),
                poll_limit as nat,
                failure(result),
            ),
    {
        let ghost before = regs.history();
        if use_lse_calibration {
            let updates = [
                FieldValue::new(Field::MSIRANGE, self.bits() as u32),
                FieldValue::new(Field::MSIRGSEL, 1),
                FieldValue::new(Field::MSION, 1),
                FieldValue::new(Field::MSIPLLEN, 1),
            ];
            assert(updates@ =~= self.range_access(true)->Modify_updates);
            regs.modify(Register::CR, &updates);
        } else {
            let updates = [
                FieldValue::new(Field::MSIRANGE, self.bits() as u32),
                FieldValue::new(Field::MSIRGSEL, 1),
                FieldValue::new(Field::MSION, 1),
            ];
            assert(updates@ =~= self.range_access(false)->Modify_updates);
            regs.modify(Register::CR, &updates);
        }
        let ghost started = regs.history();
        let ready = wait_for(regs, Field::MSIRDY, 1, poll_limit);
        proof {
            let access = self.range_access(use_lse_calibration);
            lemma_performed_issue(before, access, poll_limit as nat);
            lemma_performed_await(
                before,
                started,
                regs.history(),
                seq![Step::Issue(access)],
                Field::MSIRDY,
                1,
                poll_limit as nat,
                if ready {
                    Outcome::Completed
                } else {
                    Outcome::TimedOut(Field::MSIRDY)
                },
            );
            assert(seq![Step::Issue(access)].push(Step::Wait { field: Field::MSIRDY, expected: 1 })
                =~= self.startup_steps(use_lse_calibration));
        }
        if ready {
            Ok(())
        } else {
            Err(ClockError::Timeout(Field::MSIRDY))
        }
    }
}

} // verus!
