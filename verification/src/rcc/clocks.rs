//! The record of the clock tree once it is frozen.

use vstd::prelude::*;
use crate::rcc::msi::MsiFreq;
use crate::time::Hertz;

verus! {

/// The state of the clock tree: which oscillators run, and the frequency of
/// every clock derived from them.
#[derive(Clone, Copy, Debug, PartialEq, Eq, Structural)]
pub struct Frequencies {
    /// The frequency of the AHB clock.
    pub hclk: Hertz,
    /// Whether the HSI48 runs.
    pub hsi48: bool,
    /// The range of the MSI, if it runs.
    pub msi: Option<MsiFreq>,
    /// Whether the LSI runs.
    pub lsi: bool,
    /// Whether the LSE runs.
    pub lse: bool,
    /// The frequency of the HSE, if it runs.
    pub hse: Option<Hertz>,
    /// The frequency of the APB1 clock.
    pub pclk1: Hertz,
    /// The frequency of the APB2 clock.
    pub pclk2: Hertz,
    /// The frequency of the system clock.
    pub sysclk: Hertz,
    /// The frequency of the timers on APB1.
    pub timclk1: Hertz,
    /// The frequency of the timers on APB2.
    pub timclk2: Hertz,
    /// The frequency of the PLL's output, if the PLL runs.
    pub pll: Option<Hertz>,
}

impl Frequencies {
    /// The clock tree after reset: the MSI runs at 4 MHz and drives every
    /// clock undivided, and nothing else runs.
    pub open spec fn spec_baseline() -> Frequencies {
        Frequencies {
            hclk: Hertz { raw: 4_000_000 },
            hsi48: false,
            msi: Some(MsiFreq::RANGE4M),
            lsi: false,
            lse: false,
            hse: None,
            pclk1: Hertz { raw: 4_000_000 },
            pclk2: Hertz { raw: 4_000_000 },
            sysclk: Hertz { raw: 4_000_000 },
            timclk1: Hertz { raw: 4_000_000 },
            timclk2: Hertz { raw: 4_000_000 },
            pll: None,
        }
    }

    /// The clock tree after reset.
    #[verifier::when_used_as_spec(spec_baseline)]
    pub fn baseline() -> (frequencies: Frequencies)
        ensures
            frequencies == Self::spec_baseline(),
    {
        Frequencies {
            hclk: Hertz::MHz(4),
            hsi48: false,
            msi: Some(MsiFreq::RANGE4M),
            lsi: false,
            lse: false,
            hse: None,
            pclk1: Hertz::MHz(4),
            pclk2: Hertz::MHz(4),
            sysclk: Hertz::MHz(4),
            timclk1: Hertz::MHz(4),
            timclk2: Hertz::MHz(4),
            pll: None,
        }
    }
}

/// Frozen clock frequencies.
///
/// A value of this type stands for a clock tree whose configuration can no
/// longer change: it can be read and copied, and nothing else.
#[derive(Clone, Copy, Debug)]
pub struct Clocks {
    state: Frequencies,
}

impl View for Clocks {
    type V = Frequencies;

    closed spec fn view(&self) -> Frequencies {
        self.state
    }
}

impl Clocks {
    /// The record of a clock tree in the state `state`.
    pub(crate) fn frozen(state: Frequencies) -> (clocks: Clocks)
        ensures
            clocks@ == state,
    {
        Clocks { state }
    }

    /// Returns the frequency of the AHB.
    pub fn hclk(&self) -> (hclk: Hertz)
        ensures
            hclk == self@.hclk,
    {
        self.state.hclk
    }

    /// Returns the status of the HSI48.
    pub fn hsi48(&self) -> (hsi48: bool)
        ensures
            hsi48 == self@.hsi48,
    {
        self.state.hsi48
    }

    /// Returns the range of the MSI, if it runs.
    pub fn msi(&self) -> (msi: Option<MsiFreq>)
        ensures
            msi == self@.msi,
    {
        self.state.msi
    }

    /// Returns the status of the LSI.
    pub fn lsi(&self) -> (lsi: bool)
        ensures
            lsi == self@.lsi,
    {
        self.state.lsi
    }

    /// Returns the status of the LSE.
    pub fn lse(&self) -> (lse: bool)
        ensures
            lse == self@.lse,
    {
        self.state.lse
    }

    /// Returns the frequency of the HSE, if it runs.
    pub fn hse(&self) -> (hse: Option<Hertz>)
        ensures
            hse == self@.hse,
    {
        self.state.hse
    }

    /// Returns the frequency of the APB1.
    pub fn pclk1(&self) -> (pclk1: Hertz)
        ensures
            pclk1 == self@.pclk1,
    {
        self.state.pclk1
    }

    /// Returns the frequency of the APB2.
    pub fn pclk2(&self) -> (pclk2: Hertz)
        ensures
            pclk2 == self@.pclk2,
    {
        self.state.pclk2
    }

    /// Returns the frequency of the PLL's output, if the PLL runs.
    pub fn pll(&self) -> (pll: Option<Hertz>)
        ensures
            pll == self@.pll,
    {
        self.state.pll
    }

    /// Returns the frequency of the system clock.
    pub fn sysclk(&self) -> (sysclk: Hertz)
        ensures
            sysclk == self@.sysclk,
    {
        self.state.sysclk
    }

    /// Returns the frequency of the timers on APB1.
    pub fn timclk1(&self) -> (timclk1: Hertz)
        ensures
            timclk1 == self@.timclk1,
    {
        self.state.timclk1
    }

    /// Returns the frequency of the timers on APB2.
    pub fn timclk2(&self) -> (timclk2: Hertz)
        ensures
            timclk2 == self@.timclk2,
    {
        self.state.timclk2
    }
}

impl Default for Clocks {
    /// The record of the clock tree after reset.
    fn default() -> (clocks: Clocks)
        ensures
            clocks@ == Frequencies::baseline(),
    {
        Clocks { state: Frequencies::baseline() }
    }
}

} // verus!
