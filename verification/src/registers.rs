//! The registers that the clock tree is configured through, as named
//! bit-fields, and the interface by which they are read and written.
//!
//! The clock tree never touches memory itself. Every access goes through a
//! [`RegisterBlock`], and the order of those accesses is part of what the
//! clock tree promises: a register block carries the history of the accesses
//! made through it, and every operation of the clock tree says how it extends
//! that history.

use vstd::prelude::*;

verus! {

/// A register of the clock, flash or power controller.
#[derive(Clone, Copy, Debug, PartialEq, Eq, Structural)]
pub enum Register {
    /// Clock control register.
    CR,
    /// Clock configuration register.
    CFGR,
    /// PLL configuration register.
    PLLCFGR,
    /// Clock interrupt enable register.
    CIER,
    /// Backup domain control register.
    BDCR,
    /// Control/status register.
    CSR,
    /// Clock recovery RC register.
    CRRCR,
    /// Flash access control register.
    ACR,
    /// Power control register 1.
    PWRCR1,
}

/// A bit-field of one of the registers.
#[derive(Clone, Copy, Debug, PartialEq, Eq, Structural)]
pub enum Field {
    /// MSI oscillator enable.
    MSION,
    /// MSI oscillator ready.
    MSIRDY,
    /// MSI calibration against the LSE.
    MSIPLLEN,
    /// MSI range is taken from `MSIRANGE`.
    MSIRGSEL,
    /// MSI frequency range.
    MSIRANGE,
    /// HSI16 oscillator enable.
    HSION,
    /// HSI16 oscillator ready.
    HSIRDY,
    /// HSE oscillator enable.
    HSEON,
    /// HSE oscillator ready.
    HSERDY,
    /// HSE crystal bypass.
    HSEBYP,
    /// Clock security system on the HSE.
    CSSON,
    /// PLL enable.
    PLLON,
    /// PLL locked.
    PLLRDY,
    /// System clock switch.
    SW,
    /// System clock switch status.
    SWS,
    /// AHB prescaler.
    HPRE,
    /// APB1 prescaler.
    PPRE1,
    /// APB2 prescaler.
    PPRE2,
    /// PLL input clock.
    PLLSRC,
    /// PLL input divider, minus one.
    PLLM,
    /// PLL multiplication factor.
    PLLN,
    /// PLL main output enable.
    PLLREN,
    /// PLL main output divider.
    PLLR,
    /// LSE clock security interrupt enable.
    LSECSSIE,
    /// LSE oscillator enable.
    LSEON,
    /// LSE oscillator ready.
    LSERDY,
    /// LSE crystal bypass.
    LSEBYP,
    /// LSE drive strength.
    LSEDRV,
    /// Clock security system on the LSE.
    LSECSSON,
    /// LSI oscillator enable.
    LSION,
    /// LSI oscillator ready.
    LSIRDY,
    /// HSI48 oscillator enable.
    HSI48ON,
    /// HSI48 oscillator ready.
    HSI48RDY,
    /// Flash wait states.
    LATENCY,
    /// Backup domain write protection disable.
    DBP,
}

impl Field {
    /// The register that holds the field.
    pub open spec fn spec_register(self) -> Register {
        match self {
            Field::MSION | Field::MSIRDY | Field::MSIPLLEN | Field::MSIRGSEL | Field::MSIRANGE
            | Field::HSION | Field::HSIRDY | Field::HSEON | Field::HSERDY | Field::HSEBYP
            | Field::CSSON | Field::PLLON | Field::PLLRDY => Register::CR,
            Field::SW | Field::SWS | Field::HPRE | Field::PPRE1 | Field::PPRE2 => Register::CFGR,
            Field::PLLSRC | Field::PLLM | Field::PLLN | Field::PLLREN | Field::PLLR => {
                Register::PLLCFGR
            },
            Field::LSECSSIE => Register::CIER,
            Field::LSEON | Field::LSERDY | Field::LSEBYP | Field::LSEDRV | Field::LSECSSON => {
                Register::BDCR
            },
            Field::LSION | Field::LSIRDY => Register::CSR,
            Field::HSI48ON | Field::HSI48RDY => Register::CRRCR,
            Field::LATENCY => Register::ACR,
            Field::DBP => Register::PWRCR1,
        }
    }

    /// The register that holds the field.
    #[verifier::when_used_as_spec(spec_register)]
    pub fn register(self) -> (register: Register)
        ensures
            register == self.spec_register(),
    {
        match self {
            Field::MSION | Field::MSIRDY | Field::MSIPLLEN | Field::MSIRGSEL | Field::MSIRANGE
            | Field::HSION | Field::HSIRDY | Field::HSEON | Field::HSERDY | Field::HSEBYP
            | Field::CSSON | Field::PLLON | Field::PLLRDY => Register::CR,
            Field::SW | Field::SWS | Field::HPRE | Field::PPRE1 | Field::PPRE2 => Register::CFGR,
            Field::PLLSRC | Field::PLLM | Field::PLLN | Field::PLLREN | Field::PLLR => {
                Register::PLLCFGR
            },
            Field::LSECSSIE => Register::CIER,
            Field::LSEON | Field::LSERDY | Field::LSEBYP | Field::LSEDRV | Field::LSECSSON => {
                Register::BDCR
            },
            Field::LSION | Field::LSIRDY => Register::CSR,
            Field::HSI48ON | Field::HSI48RDY => Register::CRRCR,
            Field::LATENCY => Register::ACR,
            Field::DBP => Register::PWRCR1,
        }
    }

    /// The largest value that fits in the field.
    pub open spec fn spec_max_value(self) -> u32 {
        match self {
            Field::SW | Field::SWS | Field::PLLSRC | Field::PLLR | Field::LSEDRV => 3,
            Field::PPRE1 | Field::PPRE2 | Field::PLLM | Field::LATENCY => 7,
            Field::MSIRANGE | Field::HPRE => 15,
            Field::PLLN => 127,
            _ => 1,
        }
    }

    /// The largest value that fits in the field.
    #[verifier::when_used_as_spec(spec_max_value)]
    pub fn max_value(self) -> (max: u32)
        ensures
            max == self.spec_max_value(),
    {
        match self {
            Field::SW | Field::SWS | Field::PLLSRC | Field::PLLR | Field::LSEDRV => 3,
            Field::PPRE1 | Field::PPRE2 | Field::PLLM | Field::LATENCY => 7,
            Field::MSIRANGE | Field::HPRE => 15,
            Field::PLLN => 127,
            _ => 1,
        }
    }
}

/// A value for a field.
#[derive(Clone, Copy, Debug, PartialEq, Eq, Structural)]
pub struct FieldValue {
    pub field: Field,
    pub value: u32,
}

impl FieldValue {
    /// The value `value` for `field`.
    pub fn new(field: Field, value: u32) -> (update: FieldValue)
        ensures
            update == (FieldValue { field, value }),
    {
        FieldValue { field, value }
    }
}

/// One access to the registers.
pub enum Access {
    /// `field` was read and held `value`.
    Read { field: Field, value: u32 },
    /// `register` was written as a whole: the fields in `updates` took the
    /// given values, in this order, and every other field of the register its
    /// reset value.
    Write { register: Register, updates: Seq<FieldValue> },
    /// `register` was read, the fields in `updates` were given their values,
    /// in this order, and the register was written back, so that every other
    /// field kept its value.
    Modify { register: Register, updates: Seq<FieldValue> },
}

impl Access {
    /// The access that gives `field` the value `value` and leaves the rest of
    /// its register as it is.
    pub open spec fn modify_field(field: Field, value: u32) -> Access {
        Access::Modify { register: field.register(), updates: seq![FieldValue { field, value }] }
    }

    /// Whether the access changes a register.
    pub open spec fn is_change(self) -> bool {
        !(self is Read)
    }
}

/// Whether every update in `updates` names a field of `register` and gives it
/// a value that fits.
pub open spec fn updates_fit(register: Register, updates: Seq<FieldValue>) -> bool {
    forall|i: int|
        0 <= i < updates.len() ==> (#[trigger] updates[i]).field.register() == register
            && updates[i].value <= updates[i].field.max_value()
}

/// Read and write access to the registers, field by field, with the history
/// of the accesses made.
///
/// An implementation is the one owner of the registers it stands for: whoever
/// holds it mutably is the only writer. [`Traced`] makes one out of the
/// registers of a device.
pub trait RegisterBlock {
    /// Every access made through this block so far, oldest first.
    spec fn history(&self) -> Seq<Access>;

    /// Reads `field`.
    fn read(&mut self, field: Field) -> (value: u32)
        ensures
            final(self).history() == old(self).history().push(Access::Read { field, value }),
    ;

    /// Writes `register` as a whole: the fields in `updates` take the given
    /// values and every other field its reset value.
    fn write(&mut self, register: Register, updates: &[FieldValue])
        requires
            updates_fit(register, updates@),
        ensures
            final(self).history() == old(self).history().push(
                Access::Write { register, updates: updates@ },
            ),
    ;

    /// Gives the fields in `updates` their values and leaves the rest of
    /// `register` as it is.
    fn modify(&mut self, register: Register, updates: &[FieldValue])
        requires
            updates_fit(register, updates@),
        ensures
            final(self).history() == old(self).history().push(
                Access::Modify { register, updates: updates@ },
            ),
    ;
}

/// The bare accesses to the registers of a device: what it takes to run the
/// clock tree on one. Nothing is asked of an implementation but to make the
/// access; a read may find any value.
pub trait RawRegisters {
    /// Reads `field`.
    fn read(&mut self, field: Field) -> u32;

    /// Writes `register` as a whole: the fields in `updates` take the given
    /// values and every other field its reset value.
    fn write(&mut self, register: Register, updates: &[FieldValue])
        requires
            updates_fit(register, updates@),
    ;

    /// Gives the fields in `updates` their values and leaves the rest of
    /// `register` as it is.
    fn modify(&mut self, register: Register, updates: &[FieldValue])
        requires
            updates_fit(register, updates@),
    ;
}

/// A register block over the registers of a device, which keeps the history
/// of the accesses made through it.
pub struct Traced<A> {
    raw: A,
    history: Ghost<Seq<Access>>,
}

impl<A: RawRegisters> Traced<A> {
    /// The registers that the accesses are made to.
    pub closed spec fn raw(self) -> A {
        self.raw
    }

    /// A register block over `raw` through which no access has been made.
    pub fn new(raw: A) -> (regs: Traced<A>)
        ensures
            regs.raw() == raw,
            regs.history() == Seq::<Access>::empty(),
    {
        Traced { raw, history: Ghost(Seq::empty()) }
    }

    /// Gives the registers back.
    pub fn into_raw(self) -> (raw: A)
        ensures
            raw == self.raw(),
    {
        self.raw
    }
}

impl<A: RawRegisters> RegisterBlock for Traced<A> {
    closed spec fn history(&self) -> Seq<Access> {
        self.history@
    }

    fn read(&mut self, field: Field) -> (value: u32) {
        let value = self.raw.read(field);
        self.history = Ghost(self.history@.push(Access::Read { field, value }));
        value
    }

    fn write(&mut self, register: Register, updates: &[FieldValue]) {
        self.raw.write(register, updates);
        self.history = Ghost(self.history@.push(Access::Write { register, updates: updates@ }));
    }

    fn modify(&mut self, register: Register, updates: &[FieldValue]) {
        self.raw.modify(register, updates);
        self.history = Ghost(self.history@.push(Access::Modify { register, updates: updates@ }));
    }
}

/// Gives `field` the value `value` and leaves the rest of its register as it
/// is.
pub fn modify_field<R: RegisterBlock>(regs: &mut R, field: Field, value: u32)
    requires
        value <= field.max_value(),
    ensures
        final(regs).history() == old(regs).history().push(Access::modify_field(field, value)),
{
    let updates = [FieldValue::new(field, value)];
    assert(updates@ =~= seq![FieldValue { field, value }]);
    regs.modify(field.register(), &updates);
}

} // verus!
