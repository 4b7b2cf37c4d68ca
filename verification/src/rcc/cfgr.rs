//! The clock configuration: what is asked of the clock tree, and what
//! bringing it into effect comes to, phase by phase.

use vstd::prelude::*;
use crate::error::ClockError;
use crate::rcc::clocks::Frequencies;
use crate::rcc::hclk::{HclkConfig, HclkDivider};
use crate::rcc::hse::HseConfig;
use crate::rcc::msi::MsiFreq;
use crate::rcc::pclk::{Pclk1Config, Pclk2Config, Prescaler};
use crate::rcc::plan::{
    concluded, lemma_first_refusal, lemma_no_refusal, lemma_plan_steps, lemma_refusal_is_fatal,
    lemma_steps_single, lemma_steps_split, plan_from, steps_between, Plan,
};
use crate::rcc::pll::{PllConfig, PllOutputDivider, PllParameters, PllSource};
use crate::rcc::{
    ClockSecuritySystem, CrystalBypass, LseConfig, SysclkConfig, SysclkSource, HSI16_FREQ,
};
use crate::registers::{Access, Field, FieldValue, Register};
use crate::sequence::{performed, unchecked, Outcome, Phase, Step};
use crate::time::Hertz;

verus! {

/// Clock configuration, to set the clock settings.
///
/// Each node of the clock tree has one entry. The entries are filled in one
/// at a time and are not held against each other until the configuration is
/// frozen.
#[derive(Debug)]
pub struct CFGR {
    /// The HSE, if asked for.
    pub hse: Option<HseConfig>,
    /// The LSE, if asked for.
    pub lse: Option<LseConfig>,
    /// The range of the MSI, if the MSI is asked for.
    pub msi: Option<MsiFreq>,
    /// Whether the HSI48 is asked for.
    pub hsi48_on: bool,
    /// Whether the HSI16 is asked for.
    pub hsi16_on: bool,
    /// Whether the LSI is asked for.
    pub lsi_on: bool,
    /// The AHB clock, if one is asked for.
    pub hclk: Option<HclkConfig>,
    /// The APB1 clock, if one is asked for.
    pub pclk1: Option<Pclk1Config>,
    /// The APB2 clock, if one is asked for.
    pub pclk2: Option<Pclk2Config>,
    /// The system clock, if one is asked for.
    pub sysclk: Option<SysclkConfig>,
    /// The PLL, if asked for.
    pub pll: Option<PllConfig>,
}

impl CFGR {
    /// The configuration that asks for nothing.
    pub open spec fn empty() -> CFGR {
        CFGR {
            hse: None,
            lse: None,
            msi: None,
            hsi48_on: false,
            hsi16_on: false,
            lsi_on: false,
            hclk: None,
            pclk1: None,
            pclk2: None,
            sysclk: None,
            pll: None,
        }
    }

    /// Add an HSE to the system.
    pub fn enable_hse(self, freq: Hertz, bypass: CrystalBypass, css: ClockSecuritySystem) -> (cfgr:
        CFGR)
        ensures
            cfgr == (CFGR { hse: Some(HseConfig { speed: freq, bypass, css }), ..self }),
    {
        let mut cfgr = self;
        cfgr.hse = Some(HseConfig::new(freq, bypass, css));
        cfgr
    }

    /// The HSE, if asked for.
    pub fn hse(&self) -> (hse: Option<&HseConfig>)
        ensures
            hse == match self.hse {
                Some(hse) => Some(&hse),
                None => None,
            },
    {
        self.hse.as_ref()
    }

    /// Add a 32.768 kHz LSE to the system.
    pub fn enable_lse(self, bypass: CrystalBypass, css: ClockSecuritySystem) -> (cfgr: CFGR)
        ensures
            cfgr == (CFGR { lse: Some(LseConfig { bypass, css }), ..self }),
    {
        let mut cfgr = self;
        cfgr.lse = Some(LseConfig { bypass, css });
        cfgr
    }

    /// Sets a frequency for the AHB bus.
    pub fn set_hclk_freq(self, freq: Hertz) -> (cfgr: CFGR)
        ensures
            cfgr == (CFGR { hclk: Some(HclkConfig { freq }), ..self }),
    {
        let mut cfgr = self;
        cfgr.hclk = Some(HclkConfig::new(freq));
        cfgr
    }

    /// Enable the 48 MHz USB, RNG, SDMMC HSI clock source.
    pub fn enable_hsi48(self, on: bool) -> (cfgr: CFGR)
        ensures
            cfgr == (CFGR { hsi48_on: on, ..self }),
    {
        let mut cfgr = self;
        cfgr.hsi48_on = on;
        cfgr
    }

    /// Enable the 16 MHz HSI clock source.
    pub fn enable_hsi16(self, on: bool) -> (cfgr: CFGR)
        ensures
            cfgr == (CFGR { hsi16_on: on, ..self }),
    {
        let mut cfgr = self;
        cfgr.hsi16_on = on;
        cfgr
    }

    /// Enables the MSI with the specified speed.
    pub fn enable_msi(self, range: MsiFreq) -> (cfgr: CFGR)
        ensures
            cfgr == (CFGR { msi: Some(range), ..self }),
    {
        let mut cfgr = self;
        cfgr.msi = Some(range);
        cfgr
    }

    /// The range of the MSI, if the MSI is asked for.
    pub fn msi(&self) -> (msi: Option<MsiFreq>)
        ensures
            msi == self.msi,
    {
        self.msi
    }

    /// Sets the LSI clock on or off.
    pub fn set_lsi(self, on: bool) -> (cfgr: CFGR)
        ensures
            cfgr == (CFGR { lsi_on: on, ..self }),
    {
        let mut cfgr = self;
        cfgr.lsi_on = on;
        cfgr
    }

    /// Sets a frequency for the APB1 bus.
    pub fn set_pclk1_freq(self, freq: Hertz) -> (cfgr: CFGR)
        ensures
            cfgr == (CFGR { pclk1: Some(Pclk1Config { freq }), ..self }),
    {
        let mut cfgr = self;
        cfgr.pclk1 = Some(Pclk1Config::new(freq));
        cfgr
    }

    /// Sets a frequency for the APB2 bus.
    pub fn set_pclk2_freq(self, freq: Hertz) -> (cfgr: CFGR)
        ensures
            cfgr == (CFGR { pclk2: Some(Pclk2Config { freq }), ..self }),
    {
        let mut cfgr = self;
        cfgr.pclk2 = Some(Pclk2Config::new(freq));
        cfgr
    }

    /// Sets the system (core) frequency.
    pub fn set_sysclk(self, source: SysclkSource, freq: Hertz) -> (cfgr: CFGR)
        ensures
            cfgr == (CFGR {
                sysclk: Some(SysclkConfig { speed: freq, source_clock: source }),
                ..self
            }),
    {
        let mut cfgr = self;
        cfgr.sysclk = Some(SysclkConfig { speed: freq, source_clock: source });
        cfgr
    }

    /// Adds a PLL to the system, or refuses it with
    /// [`ClockError::InvalidPllParameters`] where the PLL does not offer the
    /// factors or the device the output: see [`PllParameters::valid`].
    pub fn enable_pll(
        self,
        source: PllSource,
        target_freq: Hertz,
        in_div: u8,
        out_mul: u8,
        out_div: PllOutputDivider,
    ) -> (result: Result<CFGR, ClockError>)
        ensures
            match result {
                Ok(cfgr) => {
                    &&& (PllParameters { source, target_freq, in_div, out_mul, out_div }).valid()
                    &&& cfgr.pll matches Some(pll)
                    &&& pll@ == (PllParameters { source, target_freq, in_div, out_mul, out_div })
                    &&& cfgr == (CFGR { pll: cfgr.pll, ..self })
                },
                Err(error) => {
                    &&& error == ClockError::InvalidPllParameters
                    &&& !(PllParameters { source, target_freq, in_div, out_mul, out_div }).valid()
                },
            },
    {
        match PllConfig::new(source, target_freq, in_div, out_mul, out_div) {
            Ok(pll) => {
                let mut cfgr = self;
                cfgr.pll = Some(pll);
                Ok(cfgr)
            },
            Err(error) => Err(error),
        }
    }
}

/// The number of flash wait states that an AHB clock of `hclk` needs.
pub open spec fn spec_flash_latency(hclk: Hertz) -> u8 {
    if hclk.raw <= 16_000_000 {
        0
    } else if hclk.raw <= 32_000_000 {
        1
    } else if hclk.raw <= 48_000_000 {
        2
    } else if hclk.raw <= 64_000_000 {
        3
    } else {
        4
    }
}

/// The number of flash wait states that an AHB clock of `hclk` needs: none
/// up to 16 MHz, and one more for every further 16 MHz begun, up to four.
#[verifier::when_used_as_spec(spec_flash_latency)]
pub fn flash_latency(hclk: Hertz) -> (latency: u8)
    ensures
        latency == spec_flash_latency(hclk),
{
    if hclk.raw <= 16_000_000 {
        0
    } else if hclk.raw <= 32_000_000 {
        1
    } else if hclk.raw <= 48_000_000 {
        2
    } else if hclk.raw <= 64_000_000 {
        3
    } else {
        4
    }
}

/// The access that starts the MSI at 4 MHz, taking its range from the
/// control register and without calibration.
pub open spec fn msi_baseline_access() -> Access {
    Access::Modify {
        register: Register::CR,
        updates: seq![
            FieldValue { field: Field::MSIRGSEL, value: 1 },
            FieldValue { field: Field::MSIRANGE, value: MsiFreq::RANGE4M.bits() as u32 },
            FieldValue { field: Field::MSIPLLEN, value: 0 },
            FieldValue { field: Field::MSION, value: 1 },
        ],
    }
}

/// The access that puts the clock configuration register back to its reset
/// value, which selects the MSI as system clock and divides no bus.
pub open spec fn cfgr_reset_access() -> Access {
    Access::Write { register: Register::CFGR, updates: Seq::empty() }
}

/// The steps that make sure the MSI runs: unless it is found switched on, it
/// is started at 4 MHz and awaited.
pub open spec fn msi_baseline_steps() -> Seq<Step> {
    seq![
        Step::Probe { field: Field::MSION, expected: 1, skip: 2 },
        Step::Issue(msi_baseline_access()),
        Step::Wait { field: Field::MSIRDY, expected: 1 },
    ]
}

/// The steps that make sure the MSI is the system clock: unless it is found
/// selected, the clock configuration register is reset and the switch
/// awaited.
pub open spec fn selector_baseline_steps() -> Seq<Step> {
    seq![
        Step::Probe { field: Field::SWS, expected: SysclkSource::MSI.bits(), skip: 2 },
        Step::Issue(cfgr_reset_access()),
        Step::Wait { field: Field::SWS, expected: SysclkSource::MSI.bits() },
    ]
}

/// The steps that bring the clock tree to its baseline, where the MSI runs
/// and is the system clock, before anything else is touched.
pub open spec fn baseline_script() -> Seq<Step> {
    msi_baseline_steps() + selector_baseline_steps()
}

/// The steps that switch an oscillator on by `access` and wait for `ready`.
pub open spec fn start_steps(access: Access, ready: Field) -> Seq<Step> {
    seq![Step::Issue(access), Step::Wait { field: ready, expected: 1 }]
}

/// The phase that refuses the configuration with `error`.
pub open spec fn refused(error: ClockError) -> Phase {
    Phase { check: Some(error), steps: Seq::empty() }
}

impl CFGR {
    /// The system clock that the configuration comes to: the one asked for,
    /// else the MSI at its configured range, if the MSI is asked for.
    pub open spec fn sysclk_target(self) -> Option<SysclkConfig> {
        match self.sysclk {
            Some(sysclk) => Some(sysclk),
            None => match self.msi {
                Some(msi) => Some(
                    SysclkConfig { speed: msi.to_hertz(), source_clock: SysclkSource::MSI },
                ),
                None => None,
            },
        }
    }

    /// The frequency of the AHB clock under a system clock of `sysclk`: the
    /// one asked for, else that of the system clock.
    pub open spec fn hclk_under(self, sysclk: Hertz) -> Hertz {
        match self.hclk {
            Some(hclk) => hclk.freq,
            None => sysclk,
        }
    }

    /// The frequency of the APB1 clock under an AHB clock of `hclk`: the one
    /// asked for, else that of the AHB clock.
    pub open spec fn pclk1_under(self, hclk: Hertz) -> Hertz {
        match self.pclk1 {
            Some(pclk1) => pclk1.freq,
            None => hclk,
        }
    }

    /// The frequency of the APB2 clock under an AHB clock of `hclk`: the one
    /// asked for, else that of the AHB clock.
    pub open spec fn pclk2_under(self, hclk: Hertz) -> Hertz {
        match self.pclk2 {
            Some(pclk2) => pclk2.freq,
            None => hclk,
        }
    }

    /// The frequency of the system clock that the configuration comes to.
    pub open spec fn sysclk_freq(self) -> Hertz {
        self.sysclk_target().unwrap().speed
    }

    /// The frequency of the AHB clock that the configuration comes to.
    pub open spec fn hclk_freq(self) -> Hertz {
        self.hclk_under(self.sysclk_freq())
    }

    /// The frequency of the APB1 clock that the configuration comes to.
    pub open spec fn pclk1_freq(self) -> Hertz {
        self.pclk1_under(self.hclk_freq())
    }

    /// The frequency of the APB2 clock that the configuration comes to.
    pub open spec fn pclk2_freq(self) -> Hertz {
        self.pclk2_under(self.hclk_freq())
    }

    /// The frequency that `source` runs at, if the configuration enables it.
    pub open spec fn source_frequency(self, source: SysclkSource) -> Option<Hertz> {
        match source {
            SysclkSource::HSE => match self.hse {
                Some(hse) => Some(hse.speed),
                None => None,
            },
            SysclkSource::HSI16 => if self.hsi16_on {
                Some(Hertz { raw: HSI16_FREQ })
            } else {
                None
            },
            SysclkSource::MSI => match self.msi {
                Some(msi) => Some(msi.to_hertz()),
                None => None,
            },
            SysclkSource::PLL => match self.pll {
                Some(pll) => Some(pll@.target_freq),
                None => None,
            },
        }
    }

    /// The start of the LSI, if asked for.
    pub open spec fn lsi_phase(self) -> Phase {
        unchecked(
            if self.lsi_on {
                start_steps(Access::modify_field(Field::LSION, 1), Field::LSIRDY)
            } else {
                Seq::empty()
            },
        )
    }

    /// The start of the LSE, if asked for. Its clock security system falls
    /// back to the LSI: an LSE with the one and without the other is
    /// refused.
    pub open spec fn lse_phase(self) -> Phase {
        match self.lse {
            Some(lse) => Phase {
                check: if lse.css == ClockSecuritySystem::Enable && !self.lsi_on {
                    Some(ClockError::LseCssWithoutLsi)
                } else {
                    None
                },
                steps: lse.startup_steps(),
            },
            None => unchecked(Seq::empty()),
        }
    }

    /// The start of the HSE, if asked for.
    pub open spec fn hse_phase(self) -> Phase {
        match self.hse {
            Some(hse) => unchecked(hse.startup_steps()),
            None => unchecked(Seq::empty()),
        }
    }

    /// The start of the HSI48, if asked for.
    pub open spec fn hsi48_phase(self) -> Phase {
        unchecked(
            if self.hsi48_on {
                start_steps(Access::modify_field(Field::HSI48ON, 1), Field::HSI48RDY)
            } else {
                Seq::empty()
            },
        )
    }

    /// The start of the HSI16, if asked for.
    pub open spec fn hsi16_phase(self) -> Phase {
        unchecked(
            if self.hsi16_on {
                start_steps(Access::modify_field(Field::HSION, 1), Field::HSIRDY)
            } else {
                Seq::empty()
            },
        )
    }

    /// The choice of the system clock, which touches no register: a
    /// configuration that asks neither for a system clock nor for the MSI is
    /// refused.
    pub open spec fn resolution_phase(self) -> Phase {
        Phase {
            check: if self.sysclk_target() is None {
                Some(ClockError::NoSysclkSource)
            } else {
                None
            },
            steps: Seq::empty(),
        }
    }

    /// The start of the PLL, if asked for.
    pub open spec fn pll_phase(self) -> Phase {
        match self.pll {
            Some(pll) => pll@.phase(self),
            None => unchecked(Seq::empty()),
        }
    }

    /// The setting of the APB prescaler `field` for a bus clock of `pclk`
    /// under an AHB clock of `hclk`.
    pub open spec fn prescaler_phase(field: Field, hclk: Hertz, pclk: Hertz) -> Phase {
        match Prescaler::resolve(hclk, pclk) {
            Some(divider) => unchecked(seq![Step::Issue(divider.access(field))]),
            None => refused(ClockError::InvalidDividerRatio),
        }
    }

    /// The setting of the flash wait states for an AHB clock of `hclk`.
    pub open spec fn flash_phase(hclk: Hertz) -> Phase {
        unchecked(
            seq![Step::Issue(Access::modify_field(Field::LATENCY, flash_latency(hclk) as u32))],
        )
    }

    /// The setting of the MSI to the range asked for, if one is, calibrated
    /// against the LSE if the LSE is asked for.
    pub open spec fn msi_phase(self) -> Phase {
        match self.msi {
            Some(msi) => unchecked(msi.startup_steps(self.lse is Some)),
            None => unchecked(Seq::empty()),
        }
    }

    /// The switch of the system clock to `sysclk`. A source that the
    /// configuration does not enable, or that does not run at the frequency
    /// declared for the system clock, is refused.
    pub open spec fn sysclk_phase(self, sysclk: SysclkConfig) -> Phase {
        Phase {
            check: match self.source_frequency(sysclk.source_clock) {
                None => Some(ClockError::MissingSysclkSource),
                Some(speed) => if speed == sysclk.speed {
                    None
                } else {
                    Some(ClockError::SysclkFrequencyMismatch)
                },
            },
            steps: seq![
                Step::Issue(Access::modify_field(Field::SW, sysclk.source_clock.bits())),
                Step::Wait { field: Field::SWS, expected: sysclk.source_clock.bits() },
            ],
        }
    }

    /// The setting of the AHB prescaler for an AHB clock of `hclk` under a
    /// system clock of `sysclk`.
    pub open spec fn hclk_phase(sysclk: Hertz, hclk: Hertz) -> Phase {
        match HclkDivider::resolve(sysclk, hclk) {
            Some(divider) => unchecked(seq![Step::Issue(HclkConfig::divider_access(divider))]),
            None => refused(ClockError::InvalidDividerRatio),
        }
    }

    /// The access that switches the MSI and its calibration off.
    pub open spec fn msi_off_access() -> Access {
        Access::Modify {
            register: Register::CR,
            updates: seq![
                FieldValue { field: Field::MSION, value: 0 },
                FieldValue { field: Field::MSIPLLEN, value: 0 },
            ],
        }
    }

    /// The switching off of the MSI, unless the MSI is asked for.
    pub open spec fn cleanup_phase(self) -> Phase {
        unchecked(
            if self.msi is None {
                seq![Step::Issue(Self::msi_off_access())]
            } else {
                Seq::empty()
            },
        )
    }

    /// The phases that bring the configuration into effect, in their order.
    ///
    /// The oscillators that depend on nothing come first; starting one leaves
    /// the others as they are. The system clock
    /// is chosen before the PLL is started. The bus prescalers below the AHB
    /// and the flash wait states are set for the AHB clock to come, before
    /// the system clock is switched and the AHB prescaler set. The MSI is
    /// switched off last, once nothing runs on it.
    pub open spec fn phases(self) -> Seq<Phase> {
        seq![
            self.lsi_phase(),
            self.lse_phase(),
            self.hse_phase(),
            self.hsi48_phase(),
            self.hsi16_phase(),
            self.resolution_phase(),
            self.pll_phase(),
            Self::prescaler_phase(Field::PPRE1, self.hclk_freq(), self.pclk1_freq()),
            Self::prescaler_phase(Field::PPRE2, self.hclk_freq(), self.pclk2_freq()),
            Self::flash_phase(self.hclk_freq()),
            self.msi_phase(),
            self.sysclk_phase(self.sysclk_target().unwrap()),
            Self::hclk_phase(self.sysclk_freq(), self.hclk_freq()),
            self.cleanup_phase(),
        ]
    }

    /// The state that the configuration leaves the clock tree in, where no
    /// phase refuses it.
    pub open spec fn frozen(self) -> Frequencies {
        Frequencies {
            hclk: self.hclk_freq(),
            hsi48: self.hsi48_on,
            msi: self.msi,
            lsi: self.lsi_on,
            lse: self.lse is Some,
            hse: match self.hse {
                Some(hse) => Some(hse.speed),
                None => None,
            },
            pclk1: self.pclk1_freq(),
            pclk2: self.pclk2_freq(),
            sysclk: self.sysclk_freq(),
            timclk1: Hertz {
                raw: Prescaler::resolve(self.hclk_freq(), self.pclk1_freq()).unwrap().timer_frequency(
                    self.pclk1_freq(),
                ) as u32,
            },
            timclk2: Hertz {
                raw: Prescaler::resolve(self.hclk_freq(), self.pclk2_freq()).unwrap().timer_frequency(
                    self.pclk2_freq(),
                ) as u32,
            },
            pll: match self.pll {
                Some(pll) => Some(pll@.target_freq),
                None => None,
            },
        }
    }

    /// What the configuration comes to on hardware that answers every wait:
    /// the steps taken behind the baseline, and the state of the clock tree
    /// or the error of the first phase that refuses the configuration.
    pub open spec fn plan(self) -> Plan {
        plan_from(self.phases(), 0, self.frozen())
    }

    /// Every step of freezing the configuration: the baseline first, then
    /// the steps of the plan.
    pub open spec fn script(self) -> Seq<Step> {
        baseline_script() + self.plan().steps
    }
}

impl CFGR {
    /// A configuration that asks neither for a system clock nor for the MSI
    /// is never brought into effect: its plan comes to an error, which is
    /// [`ClockError::NoSysclkSource`] unless the LSE is refused before, and
    /// so does every run of its script.
    pub proof fn lemma_no_sysclk_source_is_fatal(
        self,
        before: Seq<Access>,
        after: Seq<Access>,
        limit: nat,
        result: Result<Frequencies, ClockError>,
    )
        requires
            self.sysclk is None,
            self.msi is None,
            concluded(before, after, self.script(), self.plan().result, limit, result),
        ensures
            result is Err,
            self.plan().result == Err::<Frequencies, ClockError>(
                match self.lse_phase().check {
                    Some(refusal) => refusal,
                    None => ClockError::NoSysclkSource,
                },
            ),
    {
        let phases = self.phases();
        assert(phases[0].check is None);
        assert(phases[2].check is None);
        assert(phases[3].check is None);
        assert(phases[4].check is None);
        if phases[1].check is Some {
            lemma_first_refusal(phases, 0, 1, self.frozen());
        } else {
            lemma_first_refusal(phases, 0, 5, self.frozen());
        }
    }

    /// A configuration whose system clock is to come from the HSE, and that
    /// does not ask for the HSE, is never brought into effect: its plan
    /// comes to an error, and so does every run of its script. Where no
    /// phase before the switch of the system clock refuses the
    /// configuration, the error is [`ClockError::MissingSysclkSource`].
    pub proof fn lemma_sysclk_on_missing_hse_is_fatal(
        self,
        before: Seq<Access>,
        after: Seq<Access>,
        limit: nat,
        result: Result<Frequencies, ClockError>,
    )
        requires
            self.sysclk matches Some(sysclk) && sysclk.source_clock == SysclkSource::HSE,
            self.hse is None,
            concluded(before, after, self.script(), self.plan().result, limit, result),
        ensures
            result is Err,
            (forall|at: int| 0 <= at < 11 ==> (#[trigger] self.phases()[at]).check is None)
                ==> self.plan().result == Err::<Frequencies, ClockError>(
                ClockError::MissingSysclkSource,
            ),
    {
        let phases = self.phases();
        assert(phases[11].check == Some(ClockError::MissingSysclkSource));
        lemma_refusal_is_fatal(phases, 0, 11, self.frozen());
        if forall|at: int| 0 <= at < 11 ==> (#[trigger] phases[at]).check is None {
            lemma_first_refusal(phases, 0, 11, self.frozen());
        }
    }

    /// A configuration that no phase refuses is brought into effect on
    /// hardware that answers every wait: a run of its script to the end
    /// comes to the record of [`CFGR::frozen`]. Its script is the baseline
    /// followed by the steps of every phase, in the order of the phases.
    pub proof fn lemma_accepted_is_frozen(
        self,
        before: Seq<Access>,
        after: Seq<Access>,
        limit: nat,
        result: Result<Frequencies, ClockError>,
    )
        requires
            forall|at: int| 0 <= at < 14 ==> (#[trigger] self.phases()[at]).check is None,
            concluded(before, after, self.script(), self.plan().result, limit, result),
            performed(before, after, self.script(), limit, Outcome::Completed),
        ensures
            result == Ok::<Frequencies, ClockError>(self.frozen()),
            self.script() == baseline_script() + steps_between(self.phases(), 0, 14),
    {
        lemma_no_refusal(self.phases(), 0, self.frozen());
        lemma_plan_steps(self.phases(), 0, 14, self.frozen());
    }

    /// In the script of a configuration that no phase refuses, the flash
    /// wait states are set before the system clock is switched, and the
    /// system clock is switched before the AHB prescaler is set: the script
    /// is the baseline and the steps of the phases before, then the setting
    /// of the wait states, the steps of the MSI, the switch of the system
    /// clock, the setting of the AHB prescaler and what is left.
    pub proof fn lemma_wait_states_first(self)
        requires
            forall|at: int| 0 <= at < 14 ==> (#[trigger] self.phases()[at]).check is None,
        ensures
            self.script() == (baseline_script() + steps_between(self.phases(), 0, 9))
                + Self::flash_phase(self.hclk_freq()).steps + self.msi_phase().steps
                + self.sysclk_phase(self.sysclk_target().unwrap()).steps + Self::hclk_phase(
                self.sysclk_freq(),
                self.hclk_freq(),
            ).steps + self.cleanup_phase().steps,
    {
        let phases = self.phases();
        let head = baseline_script() + steps_between(phases, 0, 9);
        lemma_plan_steps(phases, 0, 14, self.frozen());
        lemma_steps_split(phases, 0, 9, 14);
        lemma_steps_split(phases, 9, 10, 14);
        lemma_steps_split(phases, 10, 11, 14);
        lemma_steps_split(phases, 11, 12, 14);
        lemma_steps_split(phases, 12, 13, 14);
        lemma_steps_single(phases, 9);
        lemma_steps_single(phases, 10);
        lemma_steps_single(phases, 11);
        lemma_steps_single(phases, 12);
        lemma_steps_single(phases, 13);
        assert(self.script() == baseline_script() + steps_between(phases, 0, 14));
        assert(steps_between(phases, 9, 14) == phases[9].steps + (phases[10].steps + (
            phases[11].steps + (phases[12].steps + phases[13].steps))));
        assert(self.script() =~= head + phases[9].steps + phases[10].steps + phases[11].steps
            + phases[12].steps + phases[13].steps);
    }
}

impl Default for CFGR {
    /// The configuration that asks for nothing.
    fn default() -> (cfgr: CFGR)
        ensures
            cfgr == CFGR::empty(),
    {
        CFGR {
            hse: None,
            lse: None,
            msi: None,
            hsi48_on: false,
            hsi16_on: false,
            lsi_on: false,
            hclk: None,
            pclk1: None,
            pclk2: None,
            sysclk: None,
            pll: None,
        }
    }
}

} // verus!
