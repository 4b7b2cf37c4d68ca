use clock_tree::error::ClockError;
use clock_tree::model::{AccessRecord, RegisterModel};
use clock_tree::rcc::cfgr::CFGR;
use clock_tree::rcc::clocks::Clocks;
use clock_tree::rcc::freeze::reset_clocks;
use clock_tree::rcc::hse::HseConfig;
use clock_tree::rcc::msi::MsiFreq;
use clock_tree::rcc::pll::{PllOutputDivider, PllSource};
use clock_tree::rcc::{ClockSecuritySystem, CrystalBypass, RccExt, SysclkSource};
use clock_tree::registers::{Field, FieldValue, Register};
use clock_tree::time::Hertz;

fn mhz(value: u32) -> Hertz {
    Hertz::MHz(value)
}

fn read(field: Field, value: u32) -> AccessRecord {
    AccessRecord::Read { field, value }
}

fn modify(register: Register, updates: &[(Field, u32)]) -> AccessRecord {
    AccessRecord::Modify {
        register,
        updates: updates.iter().map(|(field, value)| FieldValue::new(*field, *value)).collect(),
    }
}

fn write(register: Register, updates: &[(Field, u32)]) -> AccessRecord {
    AccessRecord::Write {
        register,
        updates: updates.iter().map(|(field, value)| FieldValue::new(*field, *value)).collect(),
    }
}

fn changes(regs: &RegisterModel) -> Vec<AccessRecord> {
    regs.log().iter().filter(|record| !matches!(record, AccessRecord::Read { .. })).cloned().collect()
}

fn position(log: &[AccessRecord], wanted: &AccessRecord) -> usize {
    log.iter().position(|record| record == wanted).unwrap()
}

#[test]
fn baseline_record() {
    let clocks = Clocks::default();
    assert_eq!(clocks.hclk(), mhz(4));
    assert_eq!(clocks.sysclk(), mhz(4));
    assert_eq!(clocks.pclk1(), mhz(4));
    assert_eq!(clocks.pclk2(), mhz(4));
    assert_eq!(clocks.timclk1(), mhz(4));
    assert_eq!(clocks.timclk2(), mhz(4));
    assert_eq!(clocks.msi(), Some(MsiFreq::RANGE4M));
    assert_eq!(clocks.hse(), None);
    assert_eq!(clocks.pll(), None);
    assert!(!clocks.hsi48());
    assert!(!clocks.lsi());
    assert!(!clocks.lse());
}

#[test]
fn freeze_on_the_msi() {
    let mut regs = RegisterModel::new();
    let clocks = CFGR::default().enable_msi(MsiFreq::RANGE4M).freeze(&mut regs, 8).unwrap();

    assert_eq!(clocks.sysclk(), mhz(4));
    assert_eq!(clocks.hclk(), mhz(4));
    assert_eq!(clocks.pclk1(), mhz(4));
    assert_eq!(clocks.pclk2(), mhz(4));
    assert_eq!(clocks.timclk1(), mhz(4));
    assert_eq!(clocks.timclk2(), mhz(4));
    assert_eq!(clocks.msi(), Some(MsiFreq::RANGE4M));
    assert_eq!(clocks.pll(), None);
    assert_eq!(clocks.hse(), None);
    assert!(!clocks.lsi() && !clocks.lse() && !clocks.hsi48());

    assert_eq!(
        regs.log(),
        &vec![
            read(Field::MSION, 1),
            read(Field::SWS, 0),
            modify(Register::CFGR, &[(Field::PPRE1, 0)]),
            modify(Register::CFGR, &[(Field::PPRE2, 0)]),
            modify(Register::ACR, &[(Field::LATENCY, 0)]),
            modify(Register::CR, &[(Field::MSIRANGE, 6), (Field::MSIRGSEL, 1), (Field::MSION, 1)]),
            read(Field::MSIRDY, 1),
            modify(Register::CFGR, &[(Field::SW, 0)]),
            read(Field::SWS, 0),
            modify(Register::CFGR, &[(Field::HPRE, 0)]),
        ]
    );
}

#[test]
fn freeze_on_the_pll() {
    let mut regs = RegisterModel::new();
    let clocks = CFGR::default()
        .enable_hsi16(true)
        .enable_pll(PllSource::HSI16, mhz(80), 1, 10, PllOutputDivider::Div2)
        .unwrap()
        .set_sysclk(SysclkSource::PLL, mhz(80))
        .set_pclk1_freq(mhz(40))
        .freeze(&mut regs, 8)
        .unwrap();

    assert_eq!(clocks.sysclk(), mhz(80));
    assert_eq!(clocks.hclk(), mhz(80));
    assert_eq!(clocks.pclk1(), mhz(40));
    assert_eq!(clocks.timclk1(), mhz(80));
    assert_eq!(clocks.pclk2(), mhz(80));
    assert_eq!(clocks.timclk2(), mhz(80));
    assert_eq!(clocks.pll(), Some(mhz(80)));
    assert_eq!(clocks.msi(), None);
    assert_eq!(clocks.hse(), None);

    assert_eq!(
        regs.log(),
        &vec![
            read(Field::MSION, 1),
            read(Field::SWS, 0),
            modify(Register::CR, &[(Field::HSION, 1)]),
            read(Field::HSIRDY, 1),
            modify(
                Register::PLLCFGR,
                &[(Field::PLLSRC, 0b10), (Field::PLLM, 0), (Field::PLLR, 0b00), (Field::PLLN, 10)],
            ),
            modify(Register::CR, &[(Field::PLLON, 1)]),
            read(Field::PLLRDY, 1),
            modify(Register::PLLCFGR, &[(Field::PLLREN, 1)]),
            modify(Register::CFGR, &[(Field::PPRE1, 0b100)]),
            modify(Register::CFGR, &[(Field::PPRE2, 0b000)]),
            modify(Register::ACR, &[(Field::LATENCY, 4)]),
            modify(Register::CFGR, &[(Field::SW, 0b11)]),
            read(Field::SWS, 0b11),
            modify(Register::CFGR, &[(Field::HPRE, 0)]),
            modify(Register::CR, &[(Field::MSION, 0), (Field::MSIPLLEN, 0)]),
        ]
    );
    assert_eq!(regs.value(Field::SWS), 0b11);
    assert_eq!(regs.value(Field::LATENCY), 4);
    assert_eq!(regs.value(Field::PLLN), 10);
    assert_eq!(regs.value(Field::PLLREN), 1);
    assert_eq!(regs.value(Field::MSION), 0);
    assert_eq!(regs.value(Field::MSIRDY), 0);
}

#[test]
fn wait_states_are_raised_before_the_clock_is() {
    let mut regs = RegisterModel::new();
    CFGR::default()
        .enable_hse(mhz(8), CrystalBypass::Disable, ClockSecuritySystem::Disable)
        .enable_pll(PllSource::HSE, mhz(64), 1, 16, PllOutputDivider::Div2)
        .unwrap()
        .set_sysclk(SysclkSource::PLL, mhz(64))
        .set_hclk_freq(mhz(32))
        .freeze(&mut regs, 4)
        .unwrap();
    let log = regs.log();
    let latency = position(log, &modify(Register::ACR, &[(Field::LATENCY, 1)]));
    let switch = position(log, &modify(Register::CFGR, &[(Field::SW, 0b11)]));
    let divider = position(log, &modify(Register::CFGR, &[(Field::HPRE, 0b1000)]));
    let output = position(log, &modify(Register::PLLCFGR, &[(Field::PLLREN, 1)]));
    let locked = position(log, &read(Field::PLLRDY, 1));
    assert!(latency < switch);
    assert!(switch < divider);
    assert!(locked < output);
    assert!(output < switch);
}

#[test]
fn freeze_with_everything_switched_on() {
    let mut regs = RegisterModel::new();
    let clocks = CFGR::default()
        .set_lsi(true)
        .enable_lse(CrystalBypass::Disable, ClockSecuritySystem::Enable)
        .enable_hse(mhz(8), CrystalBypass::Enable, ClockSecuritySystem::Enable)
        .enable_hsi48(true)
        .enable_msi(MsiFreq::RANGE48M)
        .set_hclk_freq(mhz(24))
        .set_pclk1_freq(mhz(6))
        .set_pclk2_freq(mhz(24))
        .freeze(&mut regs, 2)
        .unwrap();

    assert!(clocks.lsi());
    assert!(clocks.lse());
    assert!(clocks.hsi48());
    assert_eq!(clocks.hse(), Some(mhz(8)));
    assert_eq!(clocks.msi(), Some(MsiFreq::RANGE48M));
    assert_eq!(clocks.sysclk(), mhz(48));
    assert_eq!(clocks.hclk(), mhz(24));
    assert_eq!(clocks.pclk1(), mhz(6));
    assert_eq!(clocks.timclk1(), mhz(12));
    assert_eq!(clocks.pclk2(), mhz(24));
    assert_eq!(clocks.timclk2(), mhz(24));
    assert_eq!(clocks.pll(), None);

    assert_eq!(
        changes(&regs),
        vec![
            modify(Register::CSR, &[(Field::LSION, 1)]),
            modify(Register::PWRCR1, &[(Field::DBP, 1)]),
            modify(Register::BDCR, &[(Field::LSEON, 1), (Field::LSEDRV, 0b11)]),
            modify(Register::BDCR, &[(Field::LSECSSON, 1)]),
            modify(Register::CIER, &[(Field::LSECSSIE, 1)]),
            modify(Register::CR, &[(Field::HSEON, 1), (Field::HSEBYP, 1)]),
            modify(Register::CR, &[(Field::CSSON, 1)]),
            modify(Register::CRRCR, &[(Field::HSI48ON, 1)]),
            modify(Register::CFGR, &[(Field::PPRE1, 0b101)]),
            modify(Register::CFGR, &[(Field::PPRE2, 0b000)]),
            modify(Register::ACR, &[(Field::LATENCY, 1)]),
            modify(
                Register::CR,
                &[
                    (Field::MSIRANGE, 11),
                    (Field::MSIRGSEL, 1),
                    (Field::MSION, 1),
                    (Field::MSIPLLEN, 1),
                ],
            ),
            modify(Register::CFGR, &[(Field::SW, 0)]),
            modify(Register::CFGR, &[(Field::HPRE, 0b1000)]),
        ]
    );
}

#[test]
fn starting_an_oscillator_leaves_the_others_running() {
    let mut regs = RegisterModel::new();
    let clocks = CFGR::default()
        .enable_hse(mhz(8), CrystalBypass::Disable, ClockSecuritySystem::Enable)
        .enable_hsi16(true)
        .enable_msi(MsiFreq::RANGE4M)
        .set_sysclk(SysclkSource::HSE, mhz(8))
        .freeze(&mut regs, 2)
        .unwrap();
    assert_eq!(clocks.hse(), Some(mhz(8)));
    assert_eq!(clocks.sysclk(), mhz(8));
    // The HSE still runs behind the start of the HSI16, and the MSI behind both.
    assert_eq!(regs.value(Field::HSEON), 1);
    assert_eq!(regs.value(Field::HSERDY), 1);
    assert_eq!(regs.value(Field::CSSON), 1);
    assert_eq!(regs.value(Field::HSION), 1);
    assert_eq!(regs.value(Field::HSIRDY), 1);
    assert_eq!(regs.value(Field::MSION), 1);
    assert_eq!(regs.value(Field::MSIRDY), 1);
    assert_eq!(regs.value(Field::SWS), 0b10);
}

#[test]
fn starting_the_hse_changes_nothing_else_in_its_register() {
    let mut regs = RegisterModel::new();
    regs.set(Field::HSION, 1);
    regs.set(Field::HSIRDY, 1);
    regs.set(Field::PLLON, 1);
    regs.set(Field::PLLRDY, 1);
    regs.set(Field::MSIRANGE, 11);
    regs.set(Field::MSIRGSEL, 1);
    let hse = HseConfig::new(mhz(8), CrystalBypass::Enable, ClockSecuritySystem::Disable);
    assert_eq!(hse.freeze(&mut regs, 2), Ok(mhz(8)));
    assert_eq!(
        regs.log(),
        &vec![
            modify(Register::CR, &[(Field::HSEON, 1), (Field::HSEBYP, 1)]),
            read(Field::HSERDY, 1),
        ]
    );
    assert_eq!(regs.value(Field::HSEON), 1);
    assert_eq!(regs.value(Field::HSEBYP), 1);
    assert_eq!(regs.value(Field::CSSON), 0);
    assert_eq!(regs.value(Field::HSION), 1);
    assert_eq!(regs.value(Field::HSIRDY), 1);
    assert_eq!(regs.value(Field::PLLON), 1);
    assert_eq!(regs.value(Field::PLLRDY), 1);
    assert_eq!(regs.value(Field::MSIRANGE), 11);
    assert_eq!(regs.value(Field::MSIRGSEL), 1);
    assert_eq!(regs.value(Field::MSION), 1);
}

#[test]
fn setting_the_wait_states_changes_nothing_else() {
    let mut regs = RegisterModel::new();
    CFGR::default().enable_msi(MsiFreq::RANGE48M).freeze(&mut regs, 2).unwrap();
    assert_eq!(regs.value(Field::LATENCY), 2);
    assert!(regs.log().contains(&modify(Register::ACR, &[(Field::LATENCY, 2)])));
    assert!(changes(&regs).iter().all(|record| !matches!(record, AccessRecord::Write { .. })));
}

#[test]
fn lse_with_bypass_sets_no_drive_strength() {
    let mut regs = RegisterModel::new();
    CFGR::default()
        .enable_msi(MsiFreq::RANGE4M)
        .enable_lse(CrystalBypass::Enable, ClockSecuritySystem::Disable)
        .freeze(&mut regs, 2)
        .unwrap();
    let log = changes(&regs);
    assert_eq!(log[0], modify(Register::PWRCR1, &[(Field::DBP, 1)]));
    assert_eq!(log[1], modify(Register::BDCR, &[(Field::LSEON, 1), (Field::LSEBYP, 1)]));
    assert_eq!(regs.value(Field::LSEDRV), 0);
    assert_eq!(regs.value(Field::LSECSSON), 0);
}

#[test]
fn freeze_without_any_system_clock_is_fatal() {
    let mut regs = RegisterModel::new();
    let result = CFGR::default().freeze(&mut regs, 8);
    assert_eq!(result.err(), Some(ClockError::NoSysclkSource));
    assert_eq!(regs.log(), &vec![read(Field::MSION, 1), read(Field::SWS, 0)]);

    let mut regs = RegisterModel::new();
    let result = CFGR::default()
        .enable_hsi16(true)
        .set_lsi(true)
        .set_hclk_freq(mhz(4))
        .freeze(&mut regs, 8);
    assert_eq!(result.err(), Some(ClockError::NoSysclkSource));
    // The oscillators before the choice of the system clock have been started.
    assert_eq!(regs.value(Field::LSIRDY), 1);
    assert_eq!(regs.value(Field::HSIRDY), 1);
    assert_eq!(regs.value(Field::PPRE1), 0);
}

#[test]
fn sysclk_on_a_missing_hse_is_fatal() {
    let mut regs = RegisterModel::new();
    let result = CFGR::default()
        .enable_msi(MsiFreq::RANGE8M)
        .enable_hsi16(true)
        .set_sysclk(SysclkSource::HSE, mhz(8))
        .set_hclk_freq(mhz(4))
        .set_pclk1_freq(mhz(2))
        .freeze(&mut regs, 8);
    assert_eq!(result.err(), Some(ClockError::MissingSysclkSource));
    // Nothing of the switch itself has been written.
    assert_eq!(regs.value(Field::SW), 0);
    assert_eq!(regs.value(Field::HPRE), 0);
    // What comes before the switch has been.
    assert_eq!(regs.value(Field::PPRE1), 0b100);
    assert_eq!(regs.value(Field::MSIRANGE), 7);
}

#[test]
fn sysclk_on_every_missing_source_is_fatal() {
    for source in [SysclkSource::HSI16, SysclkSource::PLL, SysclkSource::MSI, SysclkSource::HSE] {
        let mut regs = RegisterModel::new();
        let result = CFGR::default().set_sysclk(source, mhz(16)).freeze(&mut regs, 8);
        assert_eq!(result.err(), Some(ClockError::MissingSysclkSource));
    }
}

#[test]
fn sysclk_has_to_run_at_the_speed_of_its_source() {
    let mut regs = RegisterModel::new();
    let result = CFGR::default()
        .enable_hse(mhz(8), CrystalBypass::Disable, ClockSecuritySystem::Disable)
        .set_sysclk(SysclkSource::HSE, mhz(16))
        .set_hclk_freq(mhz(8))
        .freeze(&mut regs, 8);
    assert_eq!(result.err(), Some(ClockError::SysclkFrequencyMismatch));

    let mut regs = RegisterModel::new();
    let result = CFGR::default()
        .enable_hsi16(true)
        .set_sysclk(SysclkSource::HSI16, Hertz::from_raw(16_000_001))
        .set_hclk_freq(Hertz::from_raw(16_000_001))
        .freeze(&mut regs, 8);
    assert_eq!(result.err(), Some(ClockError::SysclkFrequencyMismatch));

    let mut regs = RegisterModel::new();
    let clocks = CFGR::default()
        .enable_hsi16(true)
        .set_sysclk(SysclkSource::HSI16, mhz(16))
        .freeze(&mut regs, 8)
        .unwrap();
    assert_eq!(clocks.sysclk(), mhz(16));
    assert_eq!(regs.value(Field::SWS), 0b01);
}

#[test]
fn pll_on_a_missing_source_is_fatal() {
    let sources = [PllSource::HSE, PllSource::MSI, PllSource::HSI16];
    for source in sources {
        let mut regs = RegisterModel::new();
        let result = CFGR::default()
            .enable_pll(source, mhz(80), 1, 10, PllOutputDivider::Div2)
            .unwrap()
            .set_sysclk(SysclkSource::PLL, mhz(80))
            .freeze(&mut regs, 8);
        assert_eq!(result.err(), Some(ClockError::MissingPllSource));
        assert_eq!(regs.value(Field::PLLON), 0);
        assert_eq!(regs.value(Field::PLLN), 0);
    }
}

#[test]
fn pll_out_of_range_is_fatal() {
    let freeze = |source_mhz: u32, in_div: u8, out_mul: u8, target: Hertz| {
        let mut regs = RegisterModel::new();
        let result = CFGR::default()
            .enable_hse(mhz(source_mhz), CrystalBypass::Disable, ClockSecuritySystem::Disable)
            .enable_pll(PllSource::HSE, target, in_div, out_mul, PllOutputDivider::Div2)
            .unwrap()
            .set_sysclk(SysclkSource::PLL, target)
            .freeze(&mut regs, 8);
        // A PLL is started only where it is not refused.
        assert_eq!(regs.value(Field::PLLON) == 1, result.is_ok());
        result.err()
    };
    assert_eq!(freeze(48, 1, 8, mhz(80)), Some(ClockError::VcoInputOutOfRange));
    assert_eq!(freeze(4, 1, 8, mhz(16)), Some(ClockError::VcoOutputOutOfRange));
    assert_eq!(freeze(16, 1, 22, mhz(80)), Some(ClockError::VcoOutputOutOfRange));
    assert_eq!(freeze(16, 1, 20, mhz(80)), Some(ClockError::PllOutputTooFast));
    assert_eq!(freeze(16, 1, 10, mhz(40)), Some(ClockError::PllFrequencyMismatch));
    assert_eq!(freeze(16, 1, 10, mhz(80)), None);
}

#[test]
fn pll_on_the_msi_takes_the_configured_range() {
    let mut regs = RegisterModel::new();
    let clocks = CFGR::default()
        .enable_msi(MsiFreq::RANGE8M)
        .enable_pll(PllSource::MSI, mhz(40), 1, 10, PllOutputDivider::Div2)
        .unwrap()
        .set_sysclk(SysclkSource::PLL, mhz(40))
        .freeze(&mut regs, 8)
        .unwrap();
    assert_eq!(clocks.pll(), Some(mhz(40)));
    assert_eq!(clocks.sysclk(), mhz(40));
    assert_eq!(clocks.msi(), Some(MsiFreq::RANGE8M));
    assert_eq!(regs.value(Field::PLLSRC), 0b01);
    assert_eq!(regs.value(Field::LATENCY), 2);
    assert_eq!(regs.value(Field::MSION), 1);
}

#[test]
fn invalid_bus_ratios_are_fatal() {
    let base = || CFGR::default().enable_msi(MsiFreq::RANGE48M);

    let mut regs = RegisterModel::new();
    let result = base().set_hclk_freq(mhz(5)).freeze(&mut regs, 8);
    assert_eq!(result.err(), Some(ClockError::InvalidDividerRatio));
    assert_eq!(regs.value(Field::SWS), 0);

    // A core bus at a 32nd of the system clock.
    let mut regs = RegisterModel::new();
    let result = base().set_hclk_freq(Hertz::from_raw(1_500_000)).freeze(&mut regs, 8);
    assert_eq!(result.err(), Some(ClockError::InvalidDividerRatio));

    let mut regs = RegisterModel::new();
    let result = base().set_pclk1_freq(mhz(5)).freeze(&mut regs, 8);
    assert_eq!(result.err(), Some(ClockError::InvalidDividerRatio));
    assert!(changes(&regs).is_empty());

    // The first prescaler is set before the second is refused.
    let mut regs = RegisterModel::new();
    let result = base().set_pclk1_freq(mhz(24)).set_pclk2_freq(mhz(1)).freeze(&mut regs, 8);
    assert_eq!(result.err(), Some(ClockError::InvalidDividerRatio));
    assert_eq!(changes(&regs), vec![modify(Register::CFGR, &[(Field::PPRE1, 0b100)])]);

    let mut regs = RegisterModel::new();
    let result = base().set_pclk2_freq(mhz(0)).freeze(&mut regs, 8);
    assert_eq!(result.err(), Some(ClockError::InvalidDividerRatio));
}

#[test]
fn lse_clock_security_needs_the_lsi() {
    let mut regs = RegisterModel::new();
    let result = CFGR::default()
        .enable_msi(MsiFreq::RANGE4M)
        .enable_lse(CrystalBypass::Disable, ClockSecuritySystem::Enable)
        .freeze(&mut regs, 8);
    assert_eq!(result.err(), Some(ClockError::LseCssWithoutLsi));
    // Refused before any register of the LSE is written.
    assert!(changes(&regs).is_empty());
    assert_eq!(regs.value(Field::DBP), 0);
    assert_eq!(regs.value(Field::LSEON), 0);

    // The HSE has no such condition.
    let mut regs = RegisterModel::new();
    let result = CFGR::default()
        .enable_msi(MsiFreq::RANGE4M)
        .enable_hse(mhz(8), CrystalBypass::Disable, ClockSecuritySystem::Enable)
        .freeze(&mut regs, 8);
    assert!(result.is_ok());
    assert_eq!(regs.value(Field::CSSON), 1);
}

#[test]
fn an_oscillator_that_does_not_start_times_out() {
    let mut regs = RegisterModel::new();
    regs.hold(Field::HSERDY);
    let result = CFGR::default()
        .enable_msi(MsiFreq::RANGE4M)
        .enable_hse(mhz(8), CrystalBypass::Disable, ClockSecuritySystem::Enable)
        .freeze(&mut regs, 3);
    assert_eq!(result.err(), Some(ClockError::Timeout(Field::HSERDY)));
    assert_eq!(
        regs.log(),
        &vec![
            read(Field::MSION, 1),
            read(Field::SWS, 0),
            modify(Register::CR, &[(Field::HSEON, 1)]),
            read(Field::HSERDY, 0),
            read(Field::HSERDY, 0),
            read(Field::HSERDY, 0),
        ]
    );
}

#[test]
fn every_wait_can_time_out() {
    let full = || {
        CFGR::default()
            .set_lsi(true)
            .enable_lse(CrystalBypass::Disable, ClockSecuritySystem::Enable)
            .enable_hse(mhz(16), CrystalBypass::Disable, ClockSecuritySystem::Disable)
            .enable_hsi48(true)
            .enable_hsi16(true)
            .enable_msi(MsiFreq::RANGE4M)
            .enable_pll(PllSource::HSE, mhz(80), 1, 10, PllOutputDivider::Div2)
            .unwrap()
            .set_sysclk(SysclkSource::PLL, mhz(80))
    };
    let mut regs = RegisterModel::new();
    assert!(full().freeze(&mut regs, 1).is_ok());

    let flags = [
        Field::LSIRDY,
        Field::LSERDY,
        Field::HSERDY,
        Field::HSI48RDY,
        Field::HSIRDY,
        Field::PLLRDY,
        Field::SWS,
    ];
    for flag in flags {
        let mut regs = RegisterModel::new();
        regs.hold(flag);
        let result = full().freeze(&mut regs, 5);
        assert_eq!(result.err(), Some(ClockError::Timeout(flag)));
        let last = regs.log().last().cloned();
        assert_eq!(last, Some(read(flag, 0)));
    }

    let mut regs = RegisterModel::new();
    regs.set(Field::MSIRDY, 0);
    regs.hold(Field::MSIRDY);
    let result = full().freeze(&mut regs, 5);
    assert_eq!(result.err(), Some(ClockError::Timeout(Field::MSIRDY)));
}

#[test]
fn a_poll_limit_of_zero_waits_for_nothing() {
    let mut regs = RegisterModel::new();
    let result = CFGR::default().set_lsi(true).enable_msi(MsiFreq::RANGE4M).freeze(&mut regs, 0);
    assert_eq!(result.err(), Some(ClockError::Timeout(Field::LSIRDY)));
    assert_eq!(
        regs.log(),
        &vec![
            read(Field::MSION, 1),
            read(Field::SWS, 0),
            modify(Register::CSR, &[(Field::LSION, 1)]),
        ]
    );
}

#[test]
fn baseline_reset_of_a_device_at_its_baseline_is_idle() {
    let mut regs = RegisterModel::new();
    assert_eq!(reset_clocks(&mut regs, 4), Ok(()));
    assert_eq!(regs.log(), &vec![read(Field::MSION, 1), read(Field::SWS, 0)]);
    // And again.
    assert_eq!(reset_clocks(&mut regs, 4), Ok(()));
    assert_eq!(
        regs.log(),
        &vec![
            read(Field::MSION, 1),
            read(Field::SWS, 0),
            read(Field::MSION, 1),
            read(Field::SWS, 0),
        ]
    );
}

#[test]
fn baseline_reset_starts_the_msi_and_selects_it() {
    let mut regs = RegisterModel::new();
    regs.set(Field::MSION, 0);
    regs.set(Field::MSIRDY, 0);
    regs.set(Field::MSIRANGE, 11);
    regs.set(Field::SW, 0b11);
    regs.set(Field::SWS, 0b11);
    regs.set(Field::HPRE, 0b1000);
    assert_eq!(reset_clocks(&mut regs, 4), Ok(()));
    assert_eq!(
        regs.log(),
        &vec![
            read(Field::MSION, 0),
            modify(
                Register::CR,
                &[
                    (Field::MSIRGSEL, 1),
                    (Field::MSIRANGE, 6),
                    (Field::MSIPLLEN, 0),
                    (Field::MSION, 1),
                ],
            ),
            read(Field::MSIRDY, 1),
            read(Field::SWS, 0b11),
            write(Register::CFGR, &[]),
            read(Field::SWS, 0),
        ]
    );
    assert_eq!(regs.value(Field::MSIRANGE), 6);
    assert_eq!(regs.value(Field::HPRE), 0);
    assert_eq!(regs.value(Field::SW), 0);

    // Freezing after a reset finds the baseline in place.
    let before = regs.log().len();
    assert_eq!(reset_clocks(&mut regs, 4), Ok(()));
    assert_eq!(regs.log()[before..], [read(Field::MSION, 1), read(Field::SWS, 0)]);
}

#[test]
fn baseline_reset_times_out() {
    let mut regs = RegisterModel::new();
    regs.set(Field::SWS, 0b10);
    regs.hold(Field::SWS);
    assert_eq!(reset_clocks(&mut regs, 2), Err(ClockError::Timeout(Field::SWS)));
    assert_eq!(regs.log().len(), 5);

    let mut regs = RegisterModel::new();
    regs.set(Field::MSION, 0);
    regs.set(Field::MSIRDY, 0);
    regs.hold(Field::MSIRDY);
    let result = CFGR::default().enable_msi(MsiFreq::RANGE4M).freeze(&mut regs, 2);
    assert_eq!(result.err(), Some(ClockError::Timeout(Field::MSIRDY)));
    assert_eq!(regs.log().len(), 4);
}

#[test]
fn constrain_hands_out_an_empty_configuration() {
    let mut rcc = RegisterModel::new().constrain();
    assert!(rcc.cfgr.hse.is_none());
    assert!(rcc.cfgr.lse.is_none());
    assert!(rcc.cfgr.msi.is_none());
    assert!(rcc.cfgr.hclk.is_none());
    assert!(rcc.cfgr.pclk1.is_none());
    assert!(rcc.cfgr.pclk2.is_none());
    assert!(rcc.cfgr.sysclk.is_none());
    assert!(rcc.cfgr.pll.is_none());
    assert!(!rcc.cfgr.hsi48_on && !rcc.cfgr.hsi16_on && !rcc.cfgr.lsi_on);
    assert!(rcc.regs.log().is_empty());

    let clocks = rcc.cfgr.enable_hsi48(true).enable_msi(MsiFreq::RANGE16M).freeze(&mut rcc.regs, 4);
    assert_eq!(clocks.unwrap().hclk(), mhz(16));
    assert!(rcc.crrcr.is_hsi48_on(&mut rcc.regs));
    assert!(rcc.crrcr.is_hsi48_ready(&mut rcc.regs));
    assert_eq!(rcc.regs.log().last().cloned(), Some(read(Field::HSI48RDY, 1)));
}

#[test]
fn hsi48_flags_of_a_device_after_reset() {
    let mut rcc = RegisterModel::new().constrain();
    assert!(!rcc.crrcr.is_hsi48_on(&mut rcc.regs));
    assert!(!rcc.crrcr.is_hsi48_ready(&mut rcc.regs));
    assert_eq!(rcc.regs.log(), &vec![read(Field::HSI48ON, 0), read(Field::HSI48RDY, 0)]);
}

/// Registers whose flags show only after a number of reads, and which keep
/// count of what is done to them.
struct SlowRegisters {
    reads_until_ready: u32,
    reads: u32,
    changes: u32,
}

impl clock_tree::registers::RawRegisters for SlowRegisters {
    fn read(&mut self, field: Field) -> u32 {
        self.reads += 1;
        match field {
            Field::MSION => 1,
            Field::SWS => 0,
            _ => {
                if self.reads_until_ready == 0 {
                    1
                } else {
                    self.reads_until_ready -= 1;
                    0
                }
            }
        }
    }

    fn write(&mut self, _register: Register, _updates: &[FieldValue]) {
        self.changes += 1;
    }

    fn modify(&mut self, _register: Register, _updates: &[FieldValue]) {
        self.changes += 1;
    }
}

#[test]
fn a_slow_oscillator_is_waited_for() {
    let slow = SlowRegisters { reads_until_ready: 3, reads: 0, changes: 0 };
    let mut regs = clock_tree::registers::Traced::new(slow);
    let result = CFGR::default().set_lsi(true).enable_msi(MsiFreq::RANGE4M).freeze(&mut regs, 4);
    assert!(result.is_ok());
    let slow = regs.into_raw();
    // Two reads for the baseline, four for the LSI, one each for the MSI and the switch.
    assert_eq!(slow.reads, 8);
    assert_eq!(slow.changes, 7);

    let slow = SlowRegisters { reads_until_ready: 3, reads: 0, changes: 0 };
    let mut regs = clock_tree::registers::Traced::new(slow);
    let result = CFGR::default().set_lsi(true).enable_msi(MsiFreq::RANGE4M).freeze(&mut regs, 3);
    assert_eq!(result.err(), Some(ClockError::Timeout(Field::LSIRDY)));
    let slow = regs.into_raw();
    assert_eq!(slow.reads, 5);
    assert_eq!(slow.changes, 1);
}
