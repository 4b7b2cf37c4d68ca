use clock_tree::error::ClockError;
use clock_tree::rcc::cfgr::{flash_latency, CFGR};
use clock_tree::rcc::msi::MsiFreq;
use clock_tree::rcc::pll::{output_frequency, PllConfig, PllOutputDivider, PllSource};
use clock_tree::rcc::{SysclkSource, HSI16_FREQ, MAX_CLOCK_SPEED};
use clock_tree::time::Hertz;

fn mhz(value: u32) -> Hertz {
    Hertz::MHz(value)
}

#[test]
fn pll_at_the_boundaries_is_valid() {
    // VCO input 16 MHz, VCO output 160 MHz, output 80 MHz: each at or within its bound.
    assert_eq!(output_frequency(mhz(16), 1, 10, PllOutputDivider::Div2), Ok(mhz(80)));
}

#[test]
fn pll_vco_output_below_range() {
    // 16 MHz times 3 is 48 MHz, below the 64 MHz floor.
    assert_eq!(
        output_frequency(mhz(16), 1, 3, PllOutputDivider::Div2),
        Err(ClockError::VcoOutputOutOfRange)
    );
}

#[test]
fn pll_vco_output_above_range() {
    // 16 MHz times 22 is 352 MHz, above the 344 MHz ceiling.
    assert_eq!(
        output_frequency(mhz(16), 1, 22, PllOutputDivider::Div8),
        Err(ClockError::VcoOutputOutOfRange)
    );
    assert_eq!(
        output_frequency(Hertz::from_raw(4_000_000), 1, 86, PllOutputDivider::Div8),
        Ok(mhz(43))
    );
}

#[test]
fn pll_vco_output_bounds_are_inclusive() {
    assert_eq!(output_frequency(mhz(8), 1, 8, PllOutputDivider::Div2), Ok(mhz(32)));
    assert_eq!(
        output_frequency(Hertz::from_raw(7_999_999), 1, 8, PllOutputDivider::Div2),
        Err(ClockError::VcoOutputOutOfRange)
    );
    assert_eq!(output_frequency(mhz(8), 1, 43, PllOutputDivider::Div8), Ok(mhz(43)));
}

#[test]
fn pll_vco_input_out_of_range() {
    assert_eq!(
        output_frequency(mhz(48), 1, 8, PllOutputDivider::Div2),
        Err(ClockError::VcoInputOutOfRange)
    );
    assert_eq!(
        output_frequency(mhz(16), 5, 40, PllOutputDivider::Div2),
        Err(ClockError::VcoInputOutOfRange)
    );
    assert_eq!(
        output_frequency(Hertz::from_raw(16_000_001), 1, 10, PllOutputDivider::Div2),
        Err(ClockError::VcoInputOutOfRange)
    );
    assert_eq!(
        output_frequency(Hertz::from_raw(3_999_999), 1, 20, PllOutputDivider::Div2),
        Err(ClockError::VcoInputOutOfRange)
    );
    // 48 MHz divided by 3 is 16 MHz again.
    assert_eq!(output_frequency(mhz(48), 3, 10, PllOutputDivider::Div2), Ok(mhz(80)));
}

#[test]
fn pll_divisions_drop_the_remainder() {
    // 16 MHz / 3 = 5_333_333 Hz; times 15 = 79_999_995 Hz; / 6 = 13_333_332 Hz.
    assert_eq!(
        output_frequency(mhz(16), 3, 15, PllOutputDivider::Div6),
        Ok(Hertz::from_raw(13_333_332))
    );
}

#[test]
fn pll_output_too_fast() {
    assert_eq!(
        output_frequency(mhz(16), 1, 20, PllOutputDivider::Div2),
        Err(ClockError::PllOutputTooFast)
    );
    assert_eq!(
        output_frequency(mhz(16), 2, 21, PllOutputDivider::Div2),
        Err(ClockError::PllOutputTooFast)
    );
}

#[test]
fn pll_input_divider_of_zero() {
    assert_eq!(
        output_frequency(mhz(16), 0, 10, PllOutputDivider::Div2),
        Err(ClockError::InvalidPllParameters)
    );
}

#[test]
fn pll_config_keeps_its_target() {
    let pll = PllConfig::new(PllSource::HSI16, mhz(80), 1, 10, PllOutputDivider::Div2).unwrap();
    assert_eq!(pll.speed(), mhz(80));
    let pll = PllConfig::new(PllSource::MSI, mhz(0), 8, 86, PllOutputDivider::Div8).unwrap();
    assert_eq!(pll.speed(), mhz(0));
    assert!(PllConfig::new(PllSource::HSE, mhz(80), 1, 8, PllOutputDivider::Div4).is_ok());
}

#[test]
fn pll_config_refuses_factors_that_the_pll_lacks() {
    let refused = Some(ClockError::InvalidPllParameters);
    let new = |target: Hertz, in_div: u8, out_mul: u8| {
        PllConfig::new(PllSource::HSI16, target, in_div, out_mul, PllOutputDivider::Div2).err()
    };
    assert_eq!(new(mhz(80), 0, 10), refused);
    assert_eq!(new(mhz(80), 9, 10), refused);
    assert_eq!(new(mhz(80), 1, 7), refused);
    assert_eq!(new(mhz(80), 1, 87), refused);
    assert_eq!(new(Hertz::from_raw(80_000_001), 1, 10), refused);
    assert_eq!(new(mhz(80), 1, 10), None);
}

#[test]
fn pll_bits() {
    assert_eq!(PllOutputDivider::Div2.bits(), 0b00);
    assert_eq!(PllOutputDivider::Div4.bits(), 0b01);
    assert_eq!(PllOutputDivider::Div6.bits(), 0b10);
    assert_eq!(PllOutputDivider::Div8.bits(), 0b11);
    assert_eq!(PllOutputDivider::Div2.div_factor(), 2);
    assert_eq!(PllOutputDivider::Div4.div_factor(), 4);
    assert_eq!(PllOutputDivider::Div6.div_factor(), 6);
    assert_eq!(PllOutputDivider::Div8.div_factor(), 8);
    assert_eq!(PllSource::MSI.source_bits(), 0b01);
    assert_eq!(PllSource::HSI16.source_bits(), 0b10);
    assert_eq!(PllSource::HSE.source_bits(), 0b11);
}

#[test]
fn sysclk_source_bits() {
    assert_eq!(SysclkSource::MSI.bits(), 0b00);
    assert_eq!(SysclkSource::HSI16.bits(), 0b01);
    assert_eq!(SysclkSource::HSE.bits(), 0b10);
    assert_eq!(SysclkSource::PLL.bits(), 0b11);
}

#[test]
fn rated_speeds() {
    assert_eq!(mhz(80).raw(), MAX_CLOCK_SPEED);
    assert_eq!(mhz(16).raw(), HSI16_FREQ);
}

#[test]
fn msi_ranges() {
    let ranges = [
        (MsiFreq::RANGE100K, 100_000u32),
        (MsiFreq::RANGE200K, 200_000),
        (MsiFreq::RANGE400K, 400_000),
        (MsiFreq::RANGE800K, 800_000),
        (MsiFreq::RANGE1M, 1_000_000),
        (MsiFreq::RANGE2M, 2_000_000),
        (MsiFreq::RANGE4M, 4_000_000),
        (MsiFreq::RANGE8M, 8_000_000),
        (MsiFreq::RANGE16M, 16_000_000),
        (MsiFreq::RANGE24M, 24_000_000),
        (MsiFreq::RANGE32M, 32_000_000),
        (MsiFreq::RANGE48M, 48_000_000),
    ];
    for (number, (range, hertz)) in ranges.into_iter().enumerate() {
        assert_eq!(range.to_hertz(), Hertz::from_raw(hertz));
        assert_eq!(usize::from(range.bits()), number);
    }
}

#[test]
fn flash_latency_table() {
    assert_eq!(flash_latency(Hertz::from_raw(0)), 0);
    assert_eq!(flash_latency(Hertz::from_raw(16_000_000)), 0);
    assert_eq!(flash_latency(Hertz::from_raw(16_000_001)), 1);
    assert_eq!(flash_latency(Hertz::from_raw(32_000_000)), 1);
    assert_eq!(flash_latency(Hertz::from_raw(32_000_001)), 2);
    assert_eq!(flash_latency(Hertz::from_raw(48_000_000)), 2);
    assert_eq!(flash_latency(Hertz::from_raw(48_000_001)), 3);
    assert_eq!(flash_latency(Hertz::from_raw(64_000_000)), 3);
    assert_eq!(flash_latency(Hertz::from_raw(64_000_001)), 4);
    assert_eq!(flash_latency(Hertz::from_raw(80_000_000)), 4);
    assert_eq!(flash_latency(Hertz::from_raw(u32::MAX)), 4);
}

#[test]
fn enable_pll_validates_the_factors() {
    let refused = CFGR::default().enable_pll(PllSource::HSI16, mhz(80), 1, 3, PllOutputDivider::Div2);
    assert_eq!(refused.err(), Some(ClockError::InvalidPllParameters));
    let cfgr = CFGR::default()
        .enable_pll(PllSource::HSI16, mhz(80), 1, 10, PllOutputDivider::Div2)
        .unwrap();
    assert_eq!(cfgr.pll.map(|pll| pll.speed()), Some(mhz(80)));
}
