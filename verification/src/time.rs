//! Frequencies in hertz.

use vstd::prelude::*;

verus! {

/// A frequency, as a whole number of hertz.
#[derive(Clone, Copy, Debug, PartialEq, Eq, Structural)]
pub struct Hertz {
    pub raw: u32,
}

/// The number of hertz in `mhz` megahertz, computed by `fugit`:
/// `Rate::<u32, 1, 1>::MHz` makes the rate and `Rate::raw` reads it.
///
/// Trusted: a rate in hertz made of `mhz` megahertz holds `mhz * 1_000_000`
/// as its raw value. `fugit` multiplies in `u32`, so the product has to fit.
#[verifier::external_body]
fn rate_from_mhz(mhz: u32) -> (hz: u32)
    requires
        mhz * 1_000_000 <= u32::MAX,
    ensures
        hz == mhz * 1_000_000,
{
    fugit::HertzU32::MHz(mhz).raw()
}

/// How many times `target` goes into `source`, computed by `fugit`: the two
/// are made rates in hertz by `Rate::<u32, 1, 1>::from_raw` and the one is
/// divided by the other, by the `Div` that `fugit` gives two rates.
///
/// Trusted: the quotient of two rates in hertz is the quotient of their raw
/// values, dropping the remainder. `fugit` divides in `u32`, so the divisor
/// must not be zero.
#[verifier::external_body]
pub(crate) fn rate_ratio(source: u32, target: u32) -> (quotient: u32)
    requires
        target != 0,
    ensures
        quotient == source / target,
{
    fugit::HertzU32::from_raw(source) / fugit::HertzU32::from_raw(target)
}

/// `factor` times a rate of `hz` hertz, computed by `fugit`: `hz` is made a
/// rate by `Rate::<u32, 1, 1>::from_raw`, multiplied by the `Mul` that `fugit`
/// gives a `u32` and a rate, and read by `Rate::raw`.
///
/// Trusted: the raw value of the product is `factor * hz`. `fugit` multiplies
/// in `u32`, so the product has to fit.
#[verifier::external_body]
pub(crate) fn rate_scaled(factor: u32, hz: u32) -> (scaled: u32)
    requires
        factor * hz <= u32::MAX,
    ensures
        scaled == factor * hz,
{
    (factor * fugit::HertzU32::from_raw(hz)).raw()
}

impl Hertz {
    /// The largest number of megahertz that [`Hertz::MHz`] can express.
    pub const MAX_MHZ: u32 = 4294;

    /// A frequency of `raw` hertz.
    pub fn from_raw(raw: u32) -> (hz: Hertz)
        ensures
            hz.raw == raw,
    {
        Hertz { raw }
    }

    /// The frequency in hertz.
    pub fn raw(&self) -> (raw: u32)
        ensures
            raw == self.raw,
    {
        self.raw
    }

    /// A frequency of `mhz` megahertz.
    #[allow(non_snake_case)]
    pub fn MHz(mhz: u32) -> (hz: Hertz)
        requires
            mhz <= Hertz::MAX_MHZ,
        ensures
            hz.raw == mhz * 1_000_000,
    {
        Hertz { raw: rate_from_mhz(mhz) }
    }
}

} // verus!
