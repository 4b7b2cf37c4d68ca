//! The freeze sequencer: the accesses that bring a clock configuration into
//! effect, phase by phase and in the order that keeps the device clocked.

use vstd::prelude::*;
use crate::error::{failure, ClockError};
use crate::rcc::cfgr::{
    baseline_script, cfgr_reset_access, flash_latency, msi_baseline_access, msi_baseline_steps,
    selector_baseline_steps, start_steps, CFGR,
};
use crate::rcc::clocks::{Clocks, Frequencies};
use crate::rcc::hclk::{HclkConfig, HclkDivider};
use crate::rcc::msi::MsiFreq;
use crate::rcc::pclk::{Pclk1Config, Pclk2Config, Prescaler};
use crate::rcc::plan::{concluded, Course};
use crate::rcc::{ClockSecuritySystem, CrystalBypass, SysclkConfig, SysclkSource};
use crate::registers::{
    modify_field, Access, Field, FieldValue, Register, RegisterBlock,
};
use crate::sequence::{
    lemma_performed_await, lemma_performed_cut, lemma_performed_issue, lemma_performed_nothing,
    lemma_performed_probe_hit, lemma_performed_probe_miss, lemma_performed_push,
    lemma_performed_then, phase_performed, replay, unchecked, wait_for, Outcome, Step,
};
use crate::time::Hertz;

verus! {

/// The outcome of a wait that ended with the flag `ready` or without it.
pub open spec fn waited(field: Field, ready: bool) -> Outcome {
    if ready {
        Outcome::Completed
    } else {
        Outcome::TimedOut(field)
    }
}

/// Switches an oscillator on by setting `enable`, which leaves the rest of
/// the register alone, and waits for `ready`.
fn start<R: RegisterBlock>(regs: &mut R, enable: Field, ready: Field, poll_limit: u32) -> (result:
    Result<(), ClockError>)
    ensures
        phase_performed(
            old(regs).history(),
            final(regs).history(),
            unchecked(start_steps(Access::modify_field(enable, 1), ready)),
            poll_limit as nat,
            failure(result),
        ),
{
    let ghost before = regs.history();
    modify_field(regs, enable, 1);
    let ghost enabled = regs.history();
    let is_ready = wait_for(regs, ready, 1, poll_limit);
    proof {
        let access = Access::modify_field(enable, 1);
        lemma_performed_issue(before, access, poll_limit as nat);
        lemma_performed_await(
            before,
            enabled,
            regs.history(),
            seq![Step::Issue(access)],
            ready,
            1,
            poll_limit as nat,
            waited(ready, is_ready),
        );
        assert(seq![Step::Issue(access)].push(Step::Wait { field: ready, expected: 1 })
            =~= start_steps(access, ready));
    }
    if is_ready {
        Ok(())
    } else {
        Err(ClockError::Timeout(ready))
    }
}

/// Makes sure that the MSI runs, starting it at 4 MHz unless it is found
/// switched on.
fn reset_msi<R: RegisterBlock>(regs: &mut R, poll_limit: u32) -> (result: Result<(), ClockError>)
    ensures
        phase_performed(
            old(regs).history(),
            final(regs).history(),
            unchecked(msi_baseline_steps()),
            poll_limit as nat,
            failure(result),
        ),
{
    let ghost before = regs.history();
    let ghost limit = poll_limit as nat;
    let ghost start = Step::Issue(msi_baseline_access());
    let ghost wait = Step::Wait { field: Field::MSIRDY, expected: 1 };
    let msion = regs.read(Field::MSION);
    let ghost probed = regs.history();
    if msion == 1 {
        proof {
            lemma_performed_probe_hit(before, Field::MSION, 1, seq![start, wait], limit);
            assert(seq![Step::Probe { field: Field::MSION, expected: 1, skip: 2 }] + seq![
                start,
                wait,
            ] =~= msi_baseline_steps());
        }
        return Ok(());
    }
    let updates = [
        FieldValue::new(Field::MSIRGSEL, 1),
        FieldValue::new(Field::MSIRANGE, MsiFreq::RANGE4M.bits() as u32),
        FieldValue::new(Field::MSIPLLEN, 0),
        FieldValue::new(Field::MSION, 1),
    ];
    assert(updates@ =~= msi_baseline_access()->Modify_updates);
    regs.modify(Register::CR, &updates);
    let ghost started = regs.history();
    let ready = wait_for(regs, Field::MSIRDY, 1, poll_limit);
    proof {
        lemma_performed_issue(probed, msi_baseline_access(), limit);
        lemma_performed_await(
            probed,
            started,
            regs.history(),
            seq![start],
            Field::MSIRDY,
            1,
            limit,
            waited(Field::MSIRDY, ready),
        );
        assert(seq![start].push(wait) =~= seq![start, wait]);
        lemma_performed_probe_miss(
            before,
            regs.history(),
            Field::MSION,
            1,
            msion,
            2,
            seq![start, wait],
            limit,
            waited(Field::MSIRDY, ready),
        );
        assert(seq![Step::Probe { field: Field::MSION, expected: 1, skip: 2 }] + seq![start, wait]
            =~= msi_baseline_steps());
    }
    if ready {
        Ok(())
    } else {
        Err(ClockError::Timeout(Field::MSIRDY))
    }
}

/// Makes sure that the MSI is the system clock, resetting the clock
/// configuration register unless the MSI is found selected.
fn reset_selector<R: RegisterBlock>(regs: &mut R, poll_limit: u32) -> (result: Result<
    (),
    ClockError,
>)
    ensures
        phase_performed(
            old(regs).history(),
            final(regs).history(),
            unchecked(selector_baseline_steps()),
            poll_limit as nat,
            failure(result),
        ),
{
    let ghost before = regs.history();
    let ghost limit = poll_limit as nat;
    let msi = SysclkSource::MSI.bits();
    let ghost reset = Step::Issue(cfgr_reset_access());
    let ghost wait = Step::Wait { field: Field::SWS, expected: msi };
    let sws = regs.read(Field::SWS);
    let ghost probed = regs.history();
    if sws == msi {
        proof {
            lemma_performed_probe_hit(before, Field::SWS, msi, seq![reset, wait], limit);
            assert(seq![Step::Probe { field: Field::SWS, expected: msi, skip: 2 }] + seq![
                reset,
                wait,
            ] =~= selector_baseline_steps());
        }
        return Ok(());
    }
    let updates: [FieldValue; 0] = [];
    assert(updates@ =~= Seq::<FieldValue>::empty());
    regs.write(Register::CFGR, &updates);
    let ghost started = regs.history();
    let ready = wait_for(regs, Field::SWS, msi, poll_limit);
    proof {
        lemma_performed_issue(probed, cfgr_reset_access(), limit);
        lemma_performed_await(
            probed,
            started,
            regs.history(),
            seq![reset],
            Field::SWS,
            msi,
            limit,
            waited(Field::SWS, ready),
        );
        assert(seq![reset].push(wait) =~= seq![reset, wait]);
        lemma_performed_probe_miss(
            before,
            regs.history(),
            Field::SWS,
            msi,
            sws,
            2,
            seq![reset, wait],
            limit,
            waited(Field::SWS, ready),
        );
        assert(seq![Step::Probe { field: Field::SWS, expected: msi, skip: 2 }] + seq![reset, wait]
            =~= selector_baseline_steps());
    }
    if ready {
        Ok(())
    } else {
        Err(ClockError::Timeout(Field::SWS))
    }
}

/// Brings the clock tree to its baseline: the MSI runs and is the system
/// clock. What is found so is left alone: on a device where the MSI is on
/// and selected, two fields are read and nothing is written.
///
/// Fails with [`ClockError::Timeout`] for `MSIRDY` or `SWS` where the MSI
/// does not report ready, or the switch to it does not show, within
/// `poll_limit` reads.
pub fn reset_clocks<R: RegisterBlock>(regs: &mut R, poll_limit: u32) -> (result: Result<
    (),
    ClockError,
>)
    ensures
        phase_performed(
            old(regs).history(),
            final(regs).history(),
            unchecked(baseline_script()),
            poll_limit as nat,
            failure(result),
        ),
{
    let ghost before = regs.history();
    let ghost limit = poll_limit as nat;
    match reset_msi(regs, poll_limit) {
        Ok(()) => {},
        Err(error) => {
            proof {
                lemma_performed_cut(
                    before,
                    regs.history(),
                    msi_baseline_steps(),
                    selector_baseline_steps(),
                    limit,
                    error->Timeout_0,
                );
            }
            return Err(error);
        },
    }
    let ghost middle = regs.history();
    let result = reset_selector(regs, poll_limit);
    proof {
        lemma_performed_then(
            before,
            middle,
            regs.history(),
            msi_baseline_steps(),
            selector_baseline_steps(),
            limit,
            match result {
                Ok(_) => Outcome::Completed,
                Err(error) => Outcome::TimedOut(error->Timeout_0),
            },
        );
    }
    result
}

/// On a device where the MSI is found switched on and selected, bringing
/// the clock tree to its baseline reads those two fields and does nothing
/// else: every run of the baseline steps that starts with these two
/// reads ends with them.
pub proof fn lemma_baseline_reset_idle(trace: Seq<Access>, limit: nat)
    requires
        replay(baseline_script(), limit, trace) is Some,
        trace.len() >= 1 ==> trace[0] == (Access::Read { field: Field::MSION, value: 1 }),
        trace.len() >= 2 ==> trace[1] == (Access::Read {
            field: Field::SWS,
            value: SysclkSource::MSI.bits(),
        }),
    ensures
        trace =~= seq![
            Access::Read { field: Field::MSION, value: 1 },
            Access::Read { field: Field::SWS, value: SysclkSource::MSI.bits() },
        ],
        replay(baseline_script(), limit, trace) == Some(Outcome::Completed),
{
    let script = baseline_script();
    assert(script.len() == 6);
    assert(script[0] == Step::Probe { field: Field::MSION, expected: 1, skip: 2 });
    assert(script.skip(3) =~= selector_baseline_steps());
    assert(selector_baseline_steps().skip(3).len() == 0);
    reveal_with_fuel(replay, 3);
    assert(trace.len() >= 1);
    assert(trace.skip(1).len() >= 1);
    assert(trace.skip(1)[0] == trace[1]);
    assert(trace.skip(1).skip(1).len() == 0);
}

impl CFGR {
    /// Starts the LSI, if asked for.
    fn setup_lsi<R: RegisterBlock>(
        &self,
        regs: &mut R,
        clocks: &mut Frequencies,
        poll_limit: u32,
    ) -> (result: Result<(), ClockError>)
        ensures
            phase_performed(
                old(regs).history(),
                final(regs).history(),
                self.lsi_phase(),
                poll_limit as nat,
                failure(result),
            ),
            result is Err ==> *final(clocks) == *old(clocks),
            result is Ok ==> *final(clocks) == if self.lsi_on {
                Frequencies { lsi: true, ..*old(clocks) }
            } else {
                *old(clocks)
            },
    {
        if !self.lsi_on {
            proof {
                lemma_performed_nothing(regs.history(), poll_limit as nat);
            }
            return Ok(());
        }
        match start(regs, Field::LSION, Field::LSIRDY, poll_limit) {
            Ok(()) => {
                clocks.lsi = true;
                Ok(())
            },
            Err(error) => Err(error),
        }
    }

    /// Starts the LSE, if asked for.
    fn setup_lse<R: RegisterBlock>(
        &self,
        regs: &mut R,
        clocks: &mut Frequencies,
        poll_limit: u32,
    ) -> (result: Result<(), ClockError>)
        ensures
            phase_performed(
                old(regs).history(),
                final(regs).history(),
                self.lse_phase(),
                poll_limit as nat,
                failure(result),
            ),
            result is Err ==> *final(clocks) == *old(clocks),
            result is Ok ==> *final(clocks) == if self.lse is Some {
                Frequencies { lse: true, ..*old(clocks) }
            } else {
                *old(clocks)
            },
    {
        let ghost before = regs.history();
        let ghost limit = poll_limit as nat;
        let lse_cfg = match &self.lse {
            Some(lse_cfg) => lse_cfg,
            None => {
                proof {
                    lemma_performed_nothing(before, limit);
                }
                return Ok(());
            },
        };
        let css = match lse_cfg.css {
            ClockSecuritySystem::Enable => true,
            ClockSecuritySystem::Disable => false,
        };
        // The clock security system of the LSE falls back to the LSI.
        if css && !self.lsi_on {
            return Err(ClockError::LseCssWithoutLsi);
        }
        let ghost unlock = Step::Issue(Access::modify_field(Field::DBP, 1));
        let ghost enable = Step::Issue(lse_cfg.enable_access());
        let ghost wait = Step::Wait { field: Field::LSERDY, expected: 1 };
        let ghost watch = Step::Issue(Access::modify_field(Field::LSECSSON, 1));
        let ghost notify = Step::Issue(Access::modify_field(Field::LSECSSIE, 1));

        // Unlock the backup domain.
        modify_field(regs, Field::DBP, 1);
        let ghost unlocked = regs.history();
        // A crystal is driven at the highest strength; an oscillator bypasses the driver.
        match lse_cfg.bypass {
            CrystalBypass::Enable => {
                let updates = [FieldValue::new(Field::LSEON, 1), FieldValue::new(Field::LSEBYP, 1)];
                assert(updates@ =~= lse_cfg.enable_access()->Modify_updates);
                regs.modify(Register::BDCR, &updates);
            },
            CrystalBypass::Disable => {
                let updates = [FieldValue::new(Field::LSEON, 1), FieldValue::new(Field::LSEDRV, 3)];
                assert(updates@ =~= lse_cfg.enable_access()->Modify_updates);
                regs.modify(Register::BDCR, &updates);
            },
        }
        let ghost enabled = regs.history();
        let ready = wait_for(regs, Field::LSERDY, 1, poll_limit);
        let ghost awaited = regs.history();
        proof {
            lemma_performed_issue(before, Access::modify_field(Field::DBP, 1), limit);
            lemma_performed_push(before, unlocked, seq![unlock], lse_cfg.enable_access(), limit);
            lemma_performed_await(
                before,
                enabled,
                awaited,
                seq![unlock].push(enable),
                Field::LSERDY,
                1,
                limit,
                waited(Field::LSERDY, ready),
            );
            assert(seq![unlock].push(enable).push(wait) =~= seq![unlock, enable, wait]);
        }
        if !ready {
            proof {
                if css {
                    lemma_performed_cut(
                        before,
                        awaited,
                        seq![unlock, enable, wait],
                        seq![watch, notify],
                        limit,
                        Field::LSERDY,
                    );
                    assert(seq![unlock, enable, wait] + seq![watch, notify]
                        =~= lse_cfg.startup_steps());
                }
            }
            return Err(ClockError::Timeout(Field::LSERDY));
        }
        if css {
            modify_field(regs, Field::LSECSSON, 1);
            let ghost watched = regs.history();
            modify_field(regs, Field::LSECSSIE, 1);
            proof {
                lemma_performed_push(
                    before,
                    awaited,
                    seq![unlock, enable, wait],
                    Access::modify_field(Field::LSECSSON, 1),
                    limit,
                );
                lemma_performed_push(
                    before,
                    watched,
                    seq![unlock, enable, wait].push(watch),
                    Access::modify_field(Field::LSECSSIE, 1),
                    limit,
                );
                assert(seq![unlock, enable, wait].push(watch).push(notify)
                    =~= lse_cfg.startup_steps());
            }
        }
        clocks.lse = true;
        Ok(())
    }

    /// Starts the HSE, if asked for.
    fn setup_hse<R: RegisterBlock>(
        &self,
        regs: &mut R,
        clocks: &mut Frequencies,
        poll_limit: u32,
    ) -> (result: Result<(), ClockError>)
        ensures
            phase_performed(
                old(regs).history(),
                final(regs).history(),
                self.hse_phase(),
                poll_limit as nat,
                failure(result),
            ),
            result is Err ==> *final(clocks) == *old(clocks),
            result is Ok ==> *final(clocks) == match self.hse {
                Some(hse) => Frequencies { hse: Some(hse.speed), ..*old(clocks) },
                None => *old(clocks),
            },
    {
        match &self.hse {
            Some(hse) => match hse.freeze(regs, poll_limit) {
                Ok(speed) => {
                    clocks.hse = Some(speed);
                    Ok(())
                },
                Err(error) => Err(error),
            },
            None => {
                proof {
                    lemma_performed_nothing(regs.history(), poll_limit as nat);
                }
                Ok(())
            },
        }
    }

    /// Starts the HSI48, if asked for.
    fn setup_hsi48<R: RegisterBlock>(
        &self,
        regs: &mut R,
        clocks: &mut Frequencies,
        poll_limit: u32,
    ) -> (result: Result<(), ClockError>)
        ensures
            phase_performed(
                old(regs).history(),
                final(regs).history(),
                self.hsi48_phase(),
                poll_limit as nat,
                failure(result),
            ),
            result is Err ==> *final(clocks) == *old(clocks),
            result is Ok ==> *final(clocks) == if self.hsi48_on {
                Frequencies { hsi48: true, ..*old(clocks) }
            } else {
                *old(clocks)
            },
    {
        if !self.hsi48_on {
            proof {
                lemma_performed_nothing(regs.history(), poll_limit as nat);
            }
            return Ok(());
        }
        match start(regs, Field::HSI48ON, Field::HSI48RDY, poll_limit) {
            Ok(()) => {
                clocks.hsi48 = true;
                Ok(())
            },
            Err(error) => Err(error),
        }
    }

    /// Starts the HSI16, if asked for.
    fn setup_hsi16<R: RegisterBlock>(&self, regs: &mut R, poll_limit: u32) -> (result: Result<
        (),
        ClockError,
    >)
        ensures
            phase_performed(
                old(regs).history(),
                final(regs).history(),
                self.hsi16_phase(),
                poll_limit as nat,
                failure(result),
            ),
    {
        if !self.hsi16_on {
            proof {
                lemma_performed_nothing(regs.history(), poll_limit as nat);
            }
            return Ok(());
        }
        start(regs, Field::HSION, Field::HSIRDY, poll_limit)
    }

    /// Starts the PLL, if asked for.
    fn setup_pll<R: RegisterBlock>(
        &self,
        regs: &mut R,
        clocks: &mut Frequencies,
        poll_limit: u32,
    ) -> (result: Result<(), ClockError>)
        ensures
            phase_performed(
                old(regs).history(),
                final(regs).history(),
                self.pll_phase(),
                poll_limit as nat,
                failure(result),
            ),
            result is Err ==> *final(clocks) == *old(clocks),
            result is Ok ==> *final(clocks) == match self.pll {
                Some(pll) => Frequencies { pll: Some(pll@.target_freq), ..*old(clocks) },
                None => *old(clocks),
            },
    {
        match &self.pll {
            Some(pll_cfg) => match pll_cfg.freeze(self, regs, poll_limit) {
                Ok(output) => {
                    clocks.pll = Some(output);
                    Ok(())
                },
                Err(error) => Err(error),
            },
            None => {
                proof {
                    lemma_performed_nothing(regs.history(), poll_limit as nat);
                }
                Ok(())
            },
        }
    }

    /// The system clock that the configuration comes to: the one asked for,
    /// else the MSI at its configured range. Refused with
    /// [`ClockError::NoSysclkSource`] where neither is asked for.
    fn create_sysclk_config(&self) -> (result: Result<SysclkConfig, ClockError>)
        ensures
            result == match self.sysclk_target() {
                Some(sysclk) => Ok::<SysclkConfig, ClockError>(sysclk),
                None => Err(ClockError::NoSysclkSource),
            },
    {
        match &self.sysclk {
            Some(sysclk) => Ok(*sysclk),
            None => match self.msi {
                Some(msi) => Ok(
                    SysclkConfig { speed: msi.to_hertz(), source_clock: SysclkSource::MSI },
                ),
                None => Err(ClockError::NoSysclkSource),
            },
        }
    }

    /// The AHB clock under the system clock `sysclk_config`: the one asked
    /// for, else one as fast as the system clock.
    fn create_hclk_config(&self, sysclk_config: &SysclkConfig) -> (hclk: HclkConfig)
        ensures
            hclk.freq == self.hclk_under(sysclk_config.speed),
    {
        match self.hclk {
            Some(config) => config,
            None => HclkConfig::new(sysclk_config.speed),
        }
    }

    /// Sets the two APB prescalers for the AHB clock `hclk`, the one of APB1
    /// first. Each bus runs at the frequency asked for it, else at that of
    /// the AHB clock.
    ///
    /// A prescaler that has no step for its bus is not set, nor is the one
    /// behind it, and the error is [`ClockError::InvalidDividerRatio`].
    fn setup_periph_clocks<R: RegisterBlock>(
        &self,
        regs: &mut R,
        hclk: &HclkConfig,
        clocks: &mut Frequencies,
    ) -> (result: Result<(), ClockError>)
        ensures
            result is Err ==> *final(clocks) == *old(clocks),
            ({
                let pclk1 = self.pclk1_under(hclk.freq);
                let pclk2 = self.pclk2_under(hclk.freq);
                match Prescaler::resolve(hclk.freq, pclk1) {
                    None => {
                        &&& result == Err::<(), ClockError>(ClockError::InvalidDividerRatio)
                        &&& final(regs).history() == old(regs).history()
                    },
                    Some(divider1) => match Prescaler::resolve(hclk.freq, pclk2) {
                        None => {
                            &&& result == Err::<(), ClockError>(ClockError::InvalidDividerRatio)
                            &&& final(regs).history() == old(regs).history().push(
                                divider1.access(Field::PPRE1),
                            )
                        },
                        Some(divider2) => {
                            &&& result is Ok
                            &&& final(regs).history() == old(regs).history().push(
                                divider1.access(Field::PPRE1),
                            ).push(divider2.access(Field::PPRE2))
                            &&& *final(clocks) == Frequencies {
                                pclk1,
                                timclk1: final(clocks).timclk1,
                                pclk2,
                                timclk2: final(clocks).timclk2,
                                ..*old(clocks)
                            }
                            &&& final(clocks).timclk1.raw == divider1.timer_frequency(pclk1)
                            &&& final(clocks).timclk2.raw == divider2.timer_frequency(pclk2)
                        },
                    },
                }
            }),
    {
        let pclk1_config = match self.pclk1 {
            Some(config) => config,
            None => Pclk1Config::new(hclk.freq),
        };
        let pclk2_config = match self.pclk2 {
            Some(config) => config,
            None => Pclk2Config::new(hclk.freq),
        };
        let (pclk1, timclk1) = match pclk1_config.freeze(hclk.freq, regs) {
            Ok(frequencies) => frequencies,
            Err(error) => {
                return Err(error);
            },
        };
        let (pclk2, timclk2) = match pclk2_config.freeze(hclk.freq, regs) {
            Ok(frequencies) => frequencies,
            Err(error) => {
                return Err(error);
            },
        };
        clocks.pclk1 = pclk1;
        clocks.timclk1 = timclk1;
        clocks.pclk2 = pclk2;
        clocks.timclk2 = timclk2;
        Ok(())
    }

    /// Sets the flash wait states that the AHB clock `hclk` needs.
    fn adjust_flash_wait_states<R: RegisterBlock>(&self, regs: &mut R, hclk: &HclkConfig)
        ensures
            final(regs).history() == old(regs).history().push(
                Access::modify_field(Field::LATENCY, flash_latency(hclk.freq) as u32),
            ),
    {
        modify_field(regs, Field::LATENCY, flash_latency(hclk.freq) as u32);
    }

    /// Brings the MSI to the range asked for, if one is, calibrated against
    /// the LSE if the LSE is asked for.
    fn configure_msi<R: RegisterBlock>(
        &self,
        regs: &mut R,
        clocks: &mut Frequencies,
        poll_limit: u32,
    ) -> (result: Result<(), ClockError>)
        ensures
            phase_performed(
                old(regs).history(),
                final(regs).history(),
                self.msi_phase(),
                poll_limit as nat,
                failure(result),
            ),
            result is Err ==> *final(clocks) == *old(clocks),
            result is Ok ==> *final(clocks) == match self.msi {
                Some(msi) => Frequencies { msi: Some(msi), ..*old(clocks) },
                None => *old(clocks),
            },
    {
        match self.msi {
            Some(msi) => match msi.freeze(regs, self.lse.is_some(), poll_limit) {
                Ok(()) => {
                    clocks.msi = Some(msi);
                    Ok(())
                },
                Err(error) => Err(error),
            },
            None => {
                proof {
                    lemma_performed_nothing(regs.history(), poll_limit as nat);
                }
                Ok(())
            },
        }
    }

    /// The frequency that `source` runs at, if the configuration enables it.
    fn source_speed(&self, source: SysclkSource) -> (speed: Option<Hertz>)
        ensures
            speed == self.source_frequency(source),
    {
        match source {
            SysclkSource::HSE => match &self.hse {
                Some(hse) => Some(hse.speed()),
                None => None,
            },
            SysclkSource::HSI16 => if self.hsi16_on {
                Some(Hertz::MHz(16))
            } else {
                None
            },
            SysclkSource::MSI => match self.msi {
                Some(msi) => Some(msi.to_hertz()),
                None => None,
            },
            SysclkSource::PLL => match &self.pll {
                Some(pll) => Some(pll.speed()),
                None => None,
            },
        }
    }

    /// Switches the system clock to `config` and waits until the switch
    /// shows.
    ///
    /// The speed asked for has to be the speed that the source runs at:
    /// otherwise, and where the source is not enabled, no register is
    /// touched.
    fn setup_sysclk<R: RegisterBlock>(
        &self,
        config: &SysclkConfig,
        regs: &mut R,
        clocks: &mut Frequencies,
        poll_limit: u32,
    ) -> (result: Result<(), ClockError>)
        ensures
            phase_performed(
                old(regs).history(),
                final(regs).history(),
                self.sysclk_phase(*config),
                poll_limit as nat,
                failure(result),
            ),
            result is Err ==> *final(clocks) == *old(clocks),
            result is Ok ==> *final(clocks) == (Frequencies {
                sysclk: config.speed,
                ..*old(clocks)
            }),
    {
        let source_speed = match self.source_speed(config.source_clock) {
            Some(speed) => speed,
            None => {
                return Err(ClockError::MissingSysclkSource);
            },
        };
        if source_speed.raw != config.speed.raw {
            return Err(ClockError::SysclkFrequencyMismatch);
        }
        let ghost before = regs.history();
        let bits = config.source_clock.bits();
        modify_field(regs, Field::SW, bits);
        let ghost switched = regs.history();
        let ready = wait_for(regs, Field::SWS, bits, poll_limit);
        proof {
            let switch = Step::Issue(Access::modify_field(Field::SW, bits));
            lemma_performed_issue(before, Access::modify_field(Field::SW, bits), poll_limit as nat);
            lemma_performed_await(
                before,
                switched,
                regs.history(),
                seq![switch],
                Field::SWS,
                bits,
                poll_limit as nat,
                waited(Field::SWS, ready),
            );
            assert(seq![switch].push(Step::Wait { field: Field::SWS, expected: bits })
                =~= self.sysclk_phase(*config).steps);
        }
        if !ready {
            return Err(ClockError::Timeout(Field::SWS));
        }
        clocks.sysclk = config.speed;
        Ok(())
    }

    /// Sets the AHB prescaler for the AHB clock `hclk` under the system
    /// clock `sysclk`.
    fn setup_hclk<R: RegisterBlock>(
        &self,
        regs: &mut R,
        hclk: &HclkConfig,
        sysclk: &SysclkConfig,
        clocks: &mut Frequencies,
    ) -> (result: Result<(), ClockError>)
        ensures
            result is Err ==> *final(clocks) == *old(clocks),
            match HclkDivider::resolve(sysclk.speed, hclk.freq) {
                Some(divider) => {
                    &&& result is Ok
                    &&& final(regs).history() == old(regs).history().push(
                        HclkConfig::divider_access(divider),
                    )
                    &&& *final(clocks) == (Frequencies { hclk: hclk.freq, ..*old(clocks) })
                },
                None => {
                    &&& result == Err::<(), ClockError>(ClockError::InvalidDividerRatio)
                    &&& final(regs).history() == old(regs).history()
                },
            },
    {
        match hclk.freeze(sysclk.speed, regs) {
            Ok(freq) => {
                clocks.hclk = freq;
                Ok(())
            },
            Err(error) => Err(error),
        }
    }

    /// Switches the MSI off unless it is asked for: it has served as the
    /// clock to configure the others on.
    fn clean_msi<R: RegisterBlock>(&self, regs: &mut R, clocks: &mut Frequencies)
        ensures
            final(regs).history() == if self.msi is None {
                old(regs).history().push(Self::msi_off_access())
            } else {
                old(regs).history()
            },
            *final(clocks) == if self.msi is None {
                Frequencies { msi: None, ..*old(clocks) }
            } else {
                *old(clocks)
            },
    {
        if self.msi.is_none() {
            let updates = [FieldValue::new(Field::MSION, 0), FieldValue::new(Field::MSIPLLEN, 0)];
            assert(updates@ =~= Self::msi_off_access()->Modify_updates);
            regs.modify(Register::CR, &updates);
            clocks.msi = None;
        }
    }
}

impl CFGR {
    /// The phases of the configuration, each at its place.
    proof fn lemma_phases(self)
        ensures
            self.phases().len() == 14,
            self.phases()[0] == self.lsi_phase(),
            self.phases()[1] == self.lse_phase(),
            self.phases()[2] == self.hse_phase(),
            self.phases()[3] == self.hsi48_phase(),
            self.phases()[4] == self.hsi16_phase(),
            self.phases()[5] == self.resolution_phase(),
            self.phases()[6] == self.pll_phase(),
            self.phases()[7] == Self::prescaler_phase(
                Field::PPRE1,
                self.hclk_freq(),
                self.pclk1_freq(),
            ),
            self.phases()[8] == Self::prescaler_phase(
                Field::PPRE2,
                self.hclk_freq(),
                self.pclk2_freq(),
            ),
            self.phases()[9] == Self::flash_phase(self.hclk_freq()),
            self.phases()[10] == self.msi_phase(),
            self.phases()[11] == self.sysclk_phase(self.sysclk_target().unwrap()),
            self.phases()[12] == Self::hclk_phase(self.sysclk_freq(), self.hclk_freq()),
            self.phases()[13] == self.cleanup_phase(),
            forall|at: int|
                0 <= at < 14 ==> !((#[trigger] self.phases()[at]).check matches Some(
                    ClockError::Timeout(_),
                )),
    {
    }

    /// Starts the oscillators that depend on nothing: the LSI, the LSE, the
    /// HSE, the HSI48 and the HSI16, each if asked for.
    fn start_oscillators<R: RegisterBlock>(
        &self,
        regs: &mut R,
        clocks: &mut Frequencies,
        poll_limit: u32,
        Ghost(course): Ghost<Course>,
    ) -> (result: Result<(), ClockError>)
        requires
            course.phases == self.phases(),
            course.limit == poll_limit as nat,
            course.reached(old(regs).history(), 0),
        ensures
            match result {
                Ok(_) => {
                    &&& course.reached(final(regs).history(), 5)
                    &&& *final(clocks) == Frequencies {
                        lsi: self.lsi_on || old(clocks).lsi,
                        lse: self.lse is Some || old(clocks).lse,
                        hse: match self.hse {
                            Some(hse) => Some(hse.speed),
                            None => old(clocks).hse,
                        },
                        hsi48: self.hsi48_on || old(clocks).hsi48,
                        ..*old(clocks)
                    }
                },
                Err(error) => course.concluded(final(regs).history(), Err(error)),
            },
    {
        proof {
            self.lemma_phases();
        }
        let ghost before = regs.history();
        let outcome = self.setup_lsi(regs, clocks, poll_limit);
        proof {
            course.lemma_phase_taken(0, before, regs.history(), failure(outcome));
        }
        if let Err(error) = outcome {
            return Err(error);
        }
        let ghost before = regs.history();
        let outcome = self.setup_lse(regs, clocks, poll_limit);
        proof {
            course.lemma_phase_taken(1, before, regs.history(), failure(outcome));
        }
        if let Err(error) = outcome {
            return Err(error);
        }
        let ghost before = regs.history();
        let outcome = self.setup_hse(regs, clocks, poll_limit);
        proof {
            course.lemma_phase_taken(2, before, regs.history(), failure(outcome));
        }
        if let Err(error) = outcome {
            return Err(error);
        }
        let ghost before = regs.history();
        let outcome = self.setup_hsi48(regs, clocks, poll_limit);
        proof {
            course.lemma_phase_taken(3, before, regs.history(), failure(outcome));
        }
        if let Err(error) = outcome {
            return Err(error);
        }
        let ghost before = regs.history();
        let outcome = self.setup_hsi16(regs, poll_limit);
        proof {
            course.lemma_phase_taken(4, before, regs.history(), failure(outcome));
        }
        outcome
    }

    /// Starts the PLL, if asked for, and sets what has to be in place
    /// before the AHB clock changes to `hclk`: the APB prescalers and the
    /// flash wait states.
    fn prepare_buses<R: RegisterBlock>(
        &self,
        regs: &mut R,
        hclk: &HclkConfig,
        clocks: &mut Frequencies,
        poll_limit: u32,
        Ghost(course): Ghost<Course>,
    ) -> (result: Result<(), ClockError>)
        requires
            course.phases == self.phases(),
            course.limit == poll_limit as nat,
            course.reached(old(regs).history(), 6),
            hclk.freq == self.hclk_freq(),
        ensures
            match result {
                Ok(_) => {
                    &&& course.reached(final(regs).history(), 10)
                    &&& *final(clocks) == Frequencies {
                        pll: match self.pll {
                            Some(pll) => Some(pll@.target_freq),
                            None => old(clocks).pll,
                        },
                        pclk1: self.frozen().pclk1,
                        timclk1: self.frozen().timclk1,
                        pclk2: self.frozen().pclk2,
                        timclk2: self.frozen().timclk2,
                        ..*old(clocks)
                    }
                },
                Err(error) => course.concluded(final(regs).history(), Err(error)),
            },
    {
        proof {
            self.lemma_phases();
        }
        let ghost before = regs.history();
        let outcome = self.setup_pll(regs, clocks, poll_limit);
        proof {
            course.lemma_phase_taken(6, before, regs.history(), failure(outcome));
        }
        if let Err(error) = outcome {
            return Err(error);
        }

        let ghost before = regs.history();
        let outcome = self.setup_periph_clocks(regs, hclk, clocks);
        proof {
            match Prescaler::resolve(hclk.freq, self.pclk1_freq()) {
                None => {
                    course.lemma_phase_taken(7, before, before, failure(outcome));
                },
                Some(divider1) => {
                    let middle = before.push(divider1.access(Field::PPRE1));
                    lemma_performed_issue(before, divider1.access(Field::PPRE1), course.limit);
                    course.lemma_phase_taken(7, before, middle, None);
                    match Prescaler::resolve(hclk.freq, self.pclk2_freq()) {
                        None => {
                            course.lemma_phase_taken(8, middle, middle, failure(outcome));
                        },
                        Some(divider2) => {
                            lemma_performed_issue(
                                middle,
                                divider2.access(Field::PPRE2),
                                course.limit,
                            );
                            course.lemma_phase_taken(8, middle, regs.history(), None);
                        },
                    }
                },
            }
        }
        if let Err(error) = outcome {
            return Err(error);
        }

        let ghost before = regs.history();
        self.adjust_flash_wait_states(regs, hclk);
        proof {
            lemma_performed_issue(
                before,
                Access::modify_field(Field::LATENCY, flash_latency(hclk.freq) as u32),
                course.limit,
            );
            course.lemma_phase_taken(9, before, regs.history(), None);
        }
        Ok(())
    }

    /// Brings the MSI to its range, switches the system clock to `sysclk`,
    /// sets the AHB prescaler for `hclk` and switches the MSI off if it is
    /// not asked for.
    fn switch_clocks<R: RegisterBlock>(
        &self,
        regs: &mut R,
        hclk: &HclkConfig,
        sysclk: &SysclkConfig,
        clocks: &mut Frequencies,
        poll_limit: u32,
        Ghost(course): Ghost<Course>,
    ) -> (result: Result<(), ClockError>)
        requires
            course.phases == self.phases(),
            course.limit == poll_limit as nat,
            course.reached(old(regs).history(), 10),
            self.sysclk_target() == Some(*sysclk),
            hclk.freq == self.hclk_freq(),
        ensures
            match result {
                Ok(_) => {
                    &&& course.reached(final(regs).history(), 14)
                    &&& *final(clocks) == Frequencies {
                        msi: self.msi,
                        sysclk: sysclk.speed,
                        hclk: hclk.freq,
                        ..*old(clocks)
                    }
                },
                Err(error) => course.concluded(final(regs).history(), Err(error)),
            },
    {
        proof {
            self.lemma_phases();
        }
        let ghost before = regs.history();
        let outcome = self.configure_msi(regs, clocks, poll_limit);
        proof {
            course.lemma_phase_taken(10, before, regs.history(), failure(outcome));
        }
        if let Err(error) = outcome {
            return Err(error);
        }

        let ghost before = regs.history();
        let outcome = self.setup_sysclk(sysclk, regs, clocks, poll_limit);
        proof {
            course.lemma_phase_taken(11, before, regs.history(), failure(outcome));
        }
        if let Err(error) = outcome {
            return Err(error);
        }

        let ghost before = regs.history();
        let outcome = self.setup_hclk(regs, hclk, sysclk, clocks);
        proof {
            match HclkDivider::resolve(sysclk.speed, hclk.freq) {
                Some(divider) => {
                    lemma_performed_issue(before, HclkConfig::divider_access(divider), course.limit);
                },
                None => {},
            }
            course.lemma_phase_taken(12, before, regs.history(), failure(outcome));
        }
        if let Err(error) = outcome {
            return Err(error);
        }

        let ghost before = regs.history();
        self.clean_msi(regs, clocks);
        proof {
            if self.msi is None {
                lemma_performed_issue(before, Self::msi_off_access(), course.limit);
            } else {
                lemma_performed_nothing(before, course.limit);
            }
            course.lemma_phase_taken(13, before, regs.history(), None);
        }
        Ok(())
    }

    /// Brings the configuration into effect and returns the record of the
    /// clock tree it leaves.
    ///
    /// The clock tree is first brought to its baseline, then the phases of
    /// the configuration are taken in their order (see [`CFGR::phases`]).
    /// Every wait reads its flag at most `poll_limit` times.
    ///
    /// The accesses made are a run of [`CFGR::script`], and nothing else is
    /// done to the registers:
    /// - where a wait gives up, no later step is taken and the error is
    ///   [`ClockError::Timeout`] for the awaited field;
    /// - where every wait is answered, the script is run to its end, and
    ///   the result is that of [`CFGR::plan`]: the record of
    ///   [`CFGR::frozen`], or the error of the first phase that refuses the
    ///   configuration, behind which nothing is done.
    pub fn freeze<R: RegisterBlock>(self, regs: &mut R, poll_limit: u32) -> (result: Result<
        Clocks,
        ClockError,
    >)
        ensures
            concluded(
                old(regs).history(),
                final(regs).history(),
                self.script(),
                self.plan().result,
                poll_limit as nat,
                match result {
                    Ok(clocks) => Ok(clocks@),
                    Err(error) => Err(error),
                },
            ),
    {
        let ghost course = Course {
            start: regs.history(),
            prelude: baseline_script(),
            phases: self.phases(),
            frozen: self.frozen(),
            limit: poll_limit as nat,
        };
        proof {
            self.lemma_phases();
        }
        match reset_clocks(regs, poll_limit) {
            Ok(()) => {
                proof {
                    course.lemma_begun(regs.history());
                }
            },
            Err(error) => {
                proof {
                    course.lemma_stalled(regs.history(), error->Timeout_0);
                }
                return Err(error);
            },
        }
        let mut clocks = Frequencies::baseline();
        match self.start_oscillators(regs, &mut clocks, poll_limit, Ghost(course)) {
            Ok(()) => {},
            Err(error) => {
                return Err(error);
            },
        }

        let ghost before = regs.history();
        let resolved = self.create_sysclk_config();
        proof {
            lemma_performed_nothing(before, course.limit);
            course.lemma_phase_taken(5, before, before, failure(resolved));
        }
        let sysclk = match resolved {
            Ok(sysclk) => sysclk,
            Err(error) => {
                return Err(error);
            },
        };
        let hclk = self.create_hclk_config(&sysclk);

        match self.prepare_buses(regs, &hclk, &mut clocks, poll_limit, Ghost(course)) {
            Ok(()) => {},
            Err(error) => {
                return Err(error);
            },
        }
        match self.switch_clocks(regs, &hclk, &sysclk, &mut clocks, poll_limit, Ghost(course)) {
            Ok(()) => {},
            Err(error) => {
                return Err(error);
            },
        }
        proof {
            course.lemma_finished(regs.history());
        }
        Ok(Clocks::frozen(clocks))
    }
}

} // verus!
