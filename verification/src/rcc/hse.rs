//! The HSE, the external high-speed oscillator.

use vstd::prelude::*;
use crate::error::{failure, ClockError};
use crate::rcc::{ClockSecuritySystem, CrystalBypass};
use crate::registers::{modify_field, Access, Field, FieldValue, Register, RegisterBlock};
use crate::sequence::{
    lemma_performed_await, lemma_performed_cut, lemma_performed_issue, lemma_performed_push,
    phase_performed, unchecked, wait_for, Outcome, Step,
};
use crate::time::Hertz;

verus! {

/// The configuration of the HSE.
#[derive(Clone, Copy, Debug, PartialEq, Eq, Structural)]
pub struct HseConfig {
    /// The frequency of the oscillator.
    pub speed: Hertz,
    /// Whether the driving circuitry is bypassed.
    pub bypass: CrystalBypass,
    /// Whether the clock security system watches the oscillator.
    pub css: ClockSecuritySystem,
}

impl HseConfig {
    /// An HSE of `speed`.
    pub fn new(speed: Hertz, bypass: CrystalBypass, css: ClockSecuritySystem) -> (config: HseConfig)
        ensures
            config == (HseConfig { speed, bypass, css }),
    {
        HseConfig { speed, bypass, css }
    }

    /// The frequency of the oscillator.
    pub fn speed(&self) -> (speed: Hertz)
        ensures
            speed == self.speed,
    {
        self.speed
    }

    /// The access that switches the HSE on, with the bypass set if asked
    /// for. Every other field of the control register keeps its value, so
    /// that what runs already goes on running.
    pub open spec fn enable_access(self) -> Access {
        Access::Modify {
            register: Register::CR,
            updates: if self.bypass == CrystalBypass::Enable {
                seq![
                    FieldValue { field: Field::HSEON, value: 1 },
                    FieldValue { field: Field::HSEBYP, value: 1 },
                ]
            } else {
                seq![FieldValue { field: Field::HSEON, value: 1 }]
            },
        }
    }

    /// The access that switches the clock security system on.
    pub open spec fn css_access() -> Access {
        Access::modify_field(Field::CSSON, 1)
    }

    /// The steps that start the HSE: it is switched on and awaited, and only
    /// then is the clock security system switched on, if asked for.
    pub open spec fn startup_steps(self) -> Seq<Step> {
        if self.css == ClockSecuritySystem::Enable {
            seq![
                Step::Issue(self.enable_access()),
                Step::Wait { field: Field::HSERDY, expected: 1 },
                Step::Issue(Self::css_access()),
            ]
        } else {
            seq![
                Step::Issue(self.enable_access()),
                Step::Wait { field: Field::HSERDY, expected: 1 },
            ]
        }
    }

    /// Starts the HSE, waits until it runs, and returns its frequency. Of
    /// the registers only `HSEON`, `HSEBYP` and `CSSON` are given a value.
    ///
    /// Fails with [`ClockError::Timeout`] for `HSERDY` where the HSE does not
    /// report ready within `poll_limit` reads; the clock security system is
    /// then left off.
    pub fn freeze<R: RegisterBlock>(&self, regs: &mut R, poll_limit: u32) -> (result: Result<
        Hertz,
        ClockError,
    >)
        ensures
            phase_performed(
                old(regs).history(),
                final(regs).history(),
                unchecked(self.startup_steps()),
                poll_limit as nat,
                failure(result),
            ),
            result matches Ok(speed) ==> speed == self.speed,
    {
        let ghost before = regs.history();
        let ghost limit = poll_limit as nat;
        let ghost enable = Step::Issue(self.enable_access());
        let ghost wait = Step::Wait { field: Field::HSERDY, expected: 1 };
        let ghost css = Step::Issue(Self::css_access());
        match self.bypass {
            CrystalBypass::Enable => {
                let updates = [FieldValue::new(Field::HSEON, 1), FieldValue::new(Field::HSEBYP, 1)];
                assert(updates@ =~= self.enable_access()->Modify_updates);
                regs.modify(Register::CR, &updates);
            },
            CrystalBypass::Disable => {
                let updates = [FieldValue::new(Field::HSEON, 1)];
                assert(updates@ =~= self.enable_access()->Modify_updates);
                regs.modify(Register::CR, &updates);
            },
        }
        let ghost enabled = regs.history();
        let ready = wait_for(regs, Field::HSERDY, 1, poll_limit);
        let ghost awaited = regs.history();
        proof {
            lemma_performed_issue(before, self.enable_access(), limit);
            lemma_performed_await(
                before,
                enabled,
                awaited,
                seq![enable],
                Field::HSERDY,
                1,
                limit,
                if ready {
                    Outcome::Completed
                } else {
                    Outcome::TimedOut(Field::HSERDY)
                },
            );
            assert(seq![enable].push(wait) =~= seq![enable, wait]);
        }
        if !ready {
            proof {
                if self.css == ClockSecuritySystem::Enable {
                    lemma_performed_cut(
                        before,
                        awaited,
                        seq![enable, wait],
                        seq![css],
                        limit,
                        Field::HSERDY,
                    );
                    assert(seq![enable, wait] + seq![css] =~= self.startup_steps());
                }
            }
            return Err(ClockError::Timeout(Field::HSERDY));
        }
        match self.css {
            ClockSecuritySystem::Enable => {
                modify_field(regs, Field::CSSON, 1);
                proof {
                    lemma_performed_push(
                        before,
                        awaited,
                        seq![enable, wait],
                        Self::css_access(),
                        limit,
                    );
                    assert(seq![enable, wait].push(css) =~= self.startup_steps());
                }
            },
            ClockSecuritySystem::Disable => {},
        }
        Ok(self.speed)
    }
}

} // verus!
