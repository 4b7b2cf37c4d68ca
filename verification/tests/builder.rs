use clock_tree::model::{
    field_at, follows, index_of, reset_value, AccessRecord, RegisterModel, FIELDS,
};
use clock_tree::rcc::cfgr::CFGR;
use clock_tree::rcc::hclk::HclkConfig;
use clock_tree::rcc::hse::HseConfig;
use clock_tree::rcc::msi::MsiFreq;
use clock_tree::rcc::pclk::{Pclk1Config, Pclk2Config};
use clock_tree::rcc::{ClockSecuritySystem, CrystalBypass, LseConfig, SysclkConfig, SysclkSource};
use clock_tree::registers::{modify_field, Field, FieldValue, Register, RegisterBlock};
use clock_tree::sequence::wait_for;
use clock_tree::time::Hertz;

fn mhz(value: u32) -> Hertz {
    Hertz::MHz(value)
}

#[test]
fn default_configuration_asks_for_nothing() {
    let cfgr = CFGR::default();
    assert_eq!(cfgr.hse, None);
    assert_eq!(cfgr.lse, None);
    assert_eq!(cfgr.msi, None);
    assert_eq!(cfgr.hclk, None);
    assert_eq!(cfgr.pclk1, None);
    assert_eq!(cfgr.pclk2, None);
    assert_eq!(cfgr.sysclk, None);
    assert!(cfgr.pll.is_none());
    assert!(!cfgr.hsi48_on);
    assert!(!cfgr.hsi16_on);
    assert!(!cfgr.lsi_on);
    assert_eq!(cfgr.hse(), None);
    assert_eq!(cfgr.msi(), None);
}

#[test]
fn each_setter_fills_its_own_entry() {
    let cfgr = CFGR::default()
        .enable_hse(mhz(8), CrystalBypass::Enable, ClockSecuritySystem::Disable)
        .enable_lse(CrystalBypass::Disable, ClockSecuritySystem::Enable)
        .set_hclk_freq(mhz(40))
        .enable_hsi48(true)
        .enable_hsi16(true)
        .enable_msi(MsiFreq::RANGE2M)
        .set_lsi(true)
        .set_pclk1_freq(mhz(20))
        .set_pclk2_freq(mhz(10))
        .set_sysclk(SysclkSource::HSE, mhz(8));
    assert_eq!(
        cfgr.hse,
        Some(HseConfig::new(mhz(8), CrystalBypass::Enable, ClockSecuritySystem::Disable))
    );
    assert_eq!(
        cfgr.lse,
        Some(LseConfig { bypass: CrystalBypass::Disable, css: ClockSecuritySystem::Enable })
    );
    assert_eq!(cfgr.hclk, Some(HclkConfig::new(mhz(40))));
    assert!(cfgr.hsi48_on);
    assert!(cfgr.hsi16_on);
    assert_eq!(cfgr.msi, Some(MsiFreq::RANGE2M));
    assert!(cfgr.lsi_on);
    assert_eq!(cfgr.pclk1, Some(Pclk1Config::new(mhz(20))));
    assert_eq!(cfgr.pclk2, Some(Pclk2Config::new(mhz(10))));
    assert_eq!(cfgr.sysclk, Some(SysclkConfig { speed: mhz(8), source_clock: SysclkSource::HSE }));
    assert!(cfgr.pll.is_none());
    assert_eq!(cfgr.hse().map(|hse| hse.speed()), Some(mhz(8)));
    assert_eq!(cfgr.msi(), Some(MsiFreq::RANGE2M));
}

#[test]
fn the_last_setting_wins() {
    let cfgr = CFGR::default()
        .enable_msi(MsiFreq::RANGE4M)
        .set_lsi(true)
        .set_hclk_freq(mhz(1))
        .enable_msi(MsiFreq::RANGE48M)
        .set_lsi(false)
        .set_hclk_freq(mhz(2))
        .set_sysclk(SysclkSource::MSI, mhz(4))
        .set_sysclk(SysclkSource::HSI16, mhz(16));
    assert_eq!(cfgr.msi, Some(MsiFreq::RANGE48M));
    assert!(!cfgr.lsi_on);
    assert_eq!(cfgr.hclk, Some(HclkConfig::new(mhz(2))));
    assert_eq!(
        cfgr.sysclk,
        Some(SysclkConfig { speed: mhz(16), source_clock: SysclkSource::HSI16 })
    );
    assert_eq!(cfgr.hse, None);
    assert_eq!(cfgr.pclk1, None);
}

#[test]
fn model_after_reset() {
    let regs = RegisterModel::new();
    assert_eq!(regs.value(Field::MSION), 1);
    assert_eq!(regs.value(Field::MSIRDY), 1);
    assert_eq!(regs.value(Field::MSIRANGE), 6);
    for index in 0..FIELDS {
        let field = field_at(index);
        assert_eq!(index_of(field), index);
        assert_eq!(regs.value(field), reset_value(field));
        assert!(reset_value(field) <= field.max_value());
    }
    assert!(regs.log().is_empty());
}

#[test]
fn fields_and_their_registers() {
    assert_eq!(Field::MSION.register(), Register::CR);
    assert_eq!(Field::PLLRDY.register(), Register::CR);
    assert_eq!(Field::SW.register(), Register::CFGR);
    assert_eq!(Field::PPRE2.register(), Register::CFGR);
    assert_eq!(Field::PLLN.register(), Register::PLLCFGR);
    assert_eq!(Field::LSECSSIE.register(), Register::CIER);
    assert_eq!(Field::LSEDRV.register(), Register::BDCR);
    assert_eq!(Field::LSIRDY.register(), Register::CSR);
    assert_eq!(Field::HSI48ON.register(), Register::CRRCR);
    assert_eq!(Field::LATENCY.register(), Register::ACR);
    assert_eq!(Field::DBP.register(), Register::PWRCR1);
    assert_eq!(Field::MSION.max_value(), 1);
    assert_eq!(Field::SWS.max_value(), 3);
    assert_eq!(Field::LATENCY.max_value(), 7);
    assert_eq!(Field::HPRE.max_value(), 15);
    assert_eq!(Field::PLLN.max_value(), 127);
    assert_eq!(follows(Field::SWS), Some(Field::SW));
    assert_eq!(follows(Field::PLLRDY), Some(Field::PLLON));
    assert_eq!(follows(Field::PLLON), None);
}

#[test]
fn model_modify_keeps_the_rest_of_the_register() {
    let mut regs = RegisterModel::new();
    modify_field(&mut regs, Field::HSEON, 1);
    assert_eq!(regs.value(Field::HSEON), 1);
    assert_eq!(regs.value(Field::HSERDY), 1);
    modify_field(&mut regs, Field::PLLON, 1);
    assert_eq!(regs.value(Field::HSEON), 1);
    assert_eq!(regs.value(Field::MSIRANGE), 6);
    assert_eq!(regs.value(Field::PLLRDY), 1);
    modify_field(&mut regs, Field::HSEON, 0);
    assert_eq!(regs.value(Field::HSERDY), 0);
    assert_eq!(regs.value(Field::PLLRDY), 1);
}

#[test]
fn model_write_resets_the_rest_of_the_register() {
    let mut regs = RegisterModel::new();
    regs.modify(
        Register::CR,
        &[FieldValue::new(Field::MSIRANGE, 11), FieldValue::new(Field::HSEON, 1)],
    );
    modify_field(&mut regs, Field::SW, 0b10);
    assert_eq!(regs.value(Field::SWS), 0b10);
    regs.write(Register::CR, &[FieldValue::new(Field::HSION, 1)]);
    assert_eq!(regs.value(Field::HSION), 1);
    assert_eq!(regs.value(Field::HSIRDY), 1);
    assert_eq!(regs.value(Field::HSEON), 0);
    assert_eq!(regs.value(Field::HSERDY), 0);
    assert_eq!(regs.value(Field::MSIRANGE), 6);
    assert_eq!(regs.value(Field::MSION), 1);
    // Another register is left alone.
    assert_eq!(regs.value(Field::SW), 0b10);
    assert_eq!(regs.value(Field::SWS), 0b10);
}

#[test]
fn model_applies_updates_in_order() {
    let mut regs = RegisterModel::new();
    regs.modify(
        Register::CFGR,
        &[
            FieldValue::new(Field::HPRE, 8),
            FieldValue::new(Field::SW, 1),
            FieldValue::new(Field::HPRE, 9),
            // A status flag is not written.
            FieldValue::new(Field::SWS, 3),
        ],
    );
    assert_eq!(regs.value(Field::HPRE), 9);
    assert_eq!(regs.value(Field::SW), 1);
    assert_eq!(regs.value(Field::SWS), 1);
}

#[test]
fn model_holds_a_flag() {
    let mut regs = RegisterModel::new();
    regs.hold(Field::PLLRDY);
    modify_field(&mut regs, Field::PLLON, 1);
    assert_eq!(regs.value(Field::PLLON), 1);
    assert_eq!(regs.value(Field::PLLRDY), 0);
    assert!(!wait_for(&mut regs, Field::PLLRDY, 1, 7));
    assert_eq!(regs.log().len(), 8);

    regs.set(Field::PLLRDY, 1);
    modify_field(&mut regs, Field::PLLON, 0);
    assert_eq!(regs.value(Field::PLLRDY), 1);
    assert!(wait_for(&mut regs, Field::PLLRDY, 1, 7));
    assert_eq!(regs.log().len(), 10);
}

#[test]
fn model_logs_every_access() {
    let mut regs = RegisterModel::new();
    assert_eq!(regs.read(Field::MSIRANGE), 6);
    regs.write(Register::ACR, &[FieldValue::new(Field::LATENCY, 3)]);
    regs.modify(Register::CR, &[]);
    assert_eq!(regs.read(Field::LATENCY), 3);
    assert_eq!(
        regs.log(),
        &vec![
            AccessRecord::Read { field: Field::MSIRANGE, value: 6 },
            AccessRecord::Write {
                register: Register::ACR,
                updates: vec![FieldValue { field: Field::LATENCY, value: 3 }],
            },
            AccessRecord::Modify { register: Register::CR, updates: vec![] },
            AccessRecord::Read { field: Field::LATENCY, value: 3 },
        ]
    );
}

#[test]
fn wait_for_reads_until_the_flag_shows() {
    let mut regs = RegisterModel::new();
    assert!(wait_for(&mut regs, Field::MSIRDY, 1, 1));
    assert_eq!(regs.log().len(), 1);
    assert!(!wait_for(&mut regs, Field::MSIRDY, 1, 0));
    assert_eq!(regs.log().len(), 1);
    assert!(!wait_for(&mut regs, Field::SWS, 2, 3));
    assert_eq!(regs.log().len(), 4);
}
