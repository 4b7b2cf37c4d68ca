//! Reset and clock control.

pub mod cfgr;
pub mod clocks;
pub mod freeze;
pub mod hclk;
pub mod hse;
pub mod msi;
pub mod pclk;
pub mod plan;
pub mod pll;

pub use cfgr::CFGR;
pub use clocks::Clocks;
pub use hclk::HclkConfig;
pub use hse::HseConfig;
pub use msi::MsiFreq;

use vstd::prelude::*;
use crate::registers::{Access, Field, FieldValue, Register, RegisterBlock};
use crate::sequence::Step;
use crate::time::Hertz;

verus! {

/// The fastest system clock the device is rated for, in hertz.
pub const MAX_CLOCK_SPEED: u32 = 80_000_000;

/// The frequency of the HSI16 oscillator, in hertz.
pub const HSI16_FREQ: u32 = 16_000_000;

/// Advanced High-performance Bus 1 (AHB1) registers.
#[derive(Debug)]
pub struct AHB1 {
    _0: (),
}

/// Advanced High-performance Bus 2 (AHB2) registers.
#[derive(Debug)]
pub struct AHB2 {
    _0: (),
}

/// Advanced High-performance Bus 3 (AHB3) registers.
#[derive(Debug)]
pub struct AHB3 {
    _0: (),
}

/// Advanced Peripheral Bus 1 (APB1) registers, first half.
#[derive(Debug)]
pub struct APB1R1 {
    _0: (),
}

/// Advanced Peripheral Bus 1 (APB1) registers, second half.
#[derive(Debug)]
pub struct APB1R2 {
    _0: (),
}

/// Advanced Peripheral Bus 2 (APB2) registers.
#[derive(Debug)]
pub struct APB2 {
    _0: (),
}

/// Backup domain control register.
#[derive(Debug)]
pub struct BDCR {
    _0: (),
}

/// Control/status register.
#[derive(Debug)]
pub struct CSR {
    _0: (),
}

/// Clock recovery RC register.
#[derive(Debug)]
pub struct CRRCR {
    _0: (),
}

/// Peripherals independent clock configuration register.
#[derive(Debug)]
pub struct CCIPR {
    _0: (),
}

/// Whether `history` is `earlier` followed by one read of `field`, and `set`
/// tells whether that read found 1.
pub open spec fn flag_read(
    earlier: Seq<Access>,
    history: Seq<Access>,
    field: Field,
    set: bool,
) -> bool {
    &&& history.len() == earlier.len() + 1
    &&& history.drop_last() == earlier
    &&& history.last() matches Access::Read { field: read, value }
    &&& read == field
    &&& set == (value == 1)
}

impl CRRCR {
    /// Checks if the 48 MHz HSI is enabled: reads `HSI48ON` once, and tells
    /// whether it holds 1.
    pub fn is_hsi48_on<R: RegisterBlock>(&mut self, regs: &mut R) -> (on: bool)
        ensures
            flag_read(old(regs).history(), final(regs).history(), Field::HSI48ON, on),
    {
        let value = regs.read(Field::HSI48ON);
        assert(regs.history().drop_last() =~= old(regs).history());
        value == 1
    }

    /// Checks if the 48 MHz HSI is ready: reads `HSI48RDY` once, and tells
    /// whether it holds 1.
    pub fn is_hsi48_ready<R: RegisterBlock>(&mut self, regs: &mut R) -> (ready: bool)
        ensures
            flag_read(old(regs).history(), final(regs).history(), Field::HSI48RDY, ready),
    {
        let value = regs.read(Field::HSI48RDY);
        assert(regs.history().drop_last() =~= old(regs).history());
        value == 1
    }
}

/// Constrained RCC peripheral: the registers of the clock tree, the
/// configuration to freeze them with, and a token for each group of
/// registers that others take hold of.
pub struct Rcc<R> {
    /// The registers themselves.
    pub regs: R,
    /// AMBA High-performance Bus (AHB1) registers.
    pub ahb1: AHB1,
    /// AMBA High-performance Bus (AHB2) registers.
    pub ahb2: AHB2,
    /// AMBA High-performance Bus (AHB3) registers.
    pub ahb3: AHB3,
    /// Advanced Peripheral Bus 1 (APB1) registers, first half.
    pub apb1r1: APB1R1,
    /// Advanced Peripheral Bus 1 (APB1) registers, second half.
    pub apb1r2: APB1R2,
    /// Advanced Peripheral Bus 2 (APB2) registers.
    pub apb2: APB2,
    /// Clock configuration.
    pub cfgr: CFGR,
    /// Backup domain control register.
    pub bdcr: BDCR,
    /// Control/status register.
    pub csr: CSR,
    /// Clock recovery RC register.
    pub crrcr: CRRCR,
    /// Peripherals independent clock configuration register.
    pub ccipr: CCIPR,
}

/// Extension trait that constrains a register block.
pub trait RccExt: Sized {
    /// Constrains the register block: hands it on together with an empty
    /// configuration and the tokens of its register groups.
    fn constrain(self) -> (rcc: Rcc<Self>)
        ensures
            rcc.regs == self,
            rcc.cfgr == CFGR::empty(),
    ;
}

impl<R: RegisterBlock> RccExt for R {
    fn constrain(self) -> (rcc: Rcc<R>) {
        Rcc {
            regs: self,
            ahb1: AHB1 { _0: () },
            ahb2: AHB2 { _0: () },
            ahb3: AHB3 { _0: () },
            apb1r1: APB1R1 { _0: () },
            apb1r2: APB1R2 { _0: () },
            apb2: APB2 { _0: () },
            cfgr: CFGR::default(),
            bdcr: BDCR { _0: () },
            csr: CSR { _0: () },
            crrcr: CRRCR { _0: () },
            ccipr: CCIPR { _0: () },
        }
    }
}

/// Whether an oscillator's driving circuitry is bypassed.
#[derive(Clone, Copy, Debug, PartialEq, Eq, Structural)]
pub enum CrystalBypass {
    /// Bypassed: an external oscillator feeds the pin.
    Enable,
    /// Not bypassed: a crystal or resonator is driven.
    Disable,
}

/// Whether the clock security system watches an oscillator for failure.
#[derive(Clone, Copy, Debug, PartialEq, Eq, Structural)]
pub enum ClockSecuritySystem {
    /// Clock failures are detected.
    Enable,
    /// The clock security system stays off.
    Disable,
}

/// The source of the system clock.
#[derive(Clone, Copy, Debug, PartialEq, Eq, Structural)]
pub enum SysclkSource {
    MSI,
    HSI16,
    HSE,
    PLL,
}

impl SysclkSource {
    /// The value of the system clock switch that selects the source.
    pub open spec fn spec_bits(self) -> u32 {
        match self {
            SysclkSource::MSI => 0,
            SysclkSource::HSI16 => 1,
            SysclkSource::HSE => 2,
            SysclkSource::PLL => 3,
        }
    }

    /// The value of the system clock switch that selects the source.
    #[verifier::when_used_as_spec(spec_bits)]
    pub fn bits(self) -> (bits: u32)
        ensures
            bits == self.spec_bits(),
    {
        match self {
            SysclkSource::MSI => 0,
            SysclkSource::HSI16 => 1,
            SysclkSource::HSE => 2,
            SysclkSource::PLL => 3,
        }
    }
}

/// The system clock asked for: its source, and the frequency that the source
/// is expected to run at.
#[derive(Clone, Copy, Debug, PartialEq, Eq, Structural)]
pub struct SysclkConfig {
    pub speed: Hertz,
    pub source_clock: SysclkSource,
}

/// The configuration of the LSE oscillator.
#[derive(Clone, Copy, Debug, PartialEq, Eq, Structural)]
pub struct LseConfig {
    /// Whether the driving circuitry is bypassed.
    pub bypass: CrystalBypass,
    /// Whether the clock security system watches the oscillator.
    pub css: ClockSecuritySystem,
}

impl LseConfig {
    /// The access that switches the LSE on: with the bypass set where the
    /// driving circuitry is bypassed, at the highest drive strength where it
    /// is not.
    pub open spec fn enable_access(self) -> Access {
        Access::Modify {
            register: Register::BDCR,
            updates: if self.bypass == CrystalBypass::Enable {
                seq![
                    FieldValue { field: Field::LSEON, value: 1 },
                    FieldValue { field: Field::LSEBYP, value: 1 },
                ]
            } else {
                seq![
                    FieldValue { field: Field::LSEON, value: 1 },
                    FieldValue { field: Field::LSEDRV, value: 3 },
                ]
            },
        }
    }

    /// The steps that start the LSE: the backup domain is unlocked, the LSE
    /// switched on and awaited, and only then are the clock security system
    /// and its interrupt switched on, if asked for.
    pub open spec fn startup_steps(self) -> Seq<Step> {
        if self.css == ClockSecuritySystem::Enable {
            seq![
                Step::Issue(Access::modify_field(Field::DBP, 1)),
                Step::Issue(self.enable_access()),
                Step::Wait { field: Field::LSERDY, expected: 1 },
                Step::Issue(Access::modify_field(Field::LSECSSON, 1)),
                Step::Issue(Access::modify_field(Field::LSECSSIE, 1)),
            ]
        } else {
            seq![
                Step::Issue(Access::modify_field(Field::DBP, 1)),
                Step::Issue(self.enable_access()),
                Step::Wait { field: Field::LSERDY, expected: 1 },
            ]
        }
    }
}

} // verus!
