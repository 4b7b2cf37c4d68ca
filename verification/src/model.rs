//! A register block held in memory, for running the clock tree without
//! hardware.
//!
//! The model keeps a value for every field and a log of the accesses made.
//! Its oscillators are ideal: a status flag shows what its control field
//! holds as soon as the control field is written. A status flag can be held,
//! and then keeps its value whatever is written: that is an oscillator that
//! does not start, or a switch that does not take.

use vstd::prelude::*;
use vstd::slice::slice_to_vec;
use crate::registers::{Access, Field, FieldValue, Register, RegisterBlock};

verus! {

/// The number of fields.
pub const FIELDS: usize = 35;

/// The place of `field` among the values of a model.
pub open spec fn spec_index_of(field: Field) -> usize {
    match field {
        Field::MSION => 0,
        Field::MSIRDY => 1,
        Field::MSIPLLEN => 2,
        Field::MSIRGSEL => 3,
        Field::MSIRANGE => 4,
        Field::HSION => 5,
        Field::HSIRDY => 6,
        Field::HSEON => 7,
        Field::HSERDY => 8,
        Field::HSEBYP => 9,
        Field::CSSON => 10,
        Field::PLLON => 11,
        Field::PLLRDY => 12,
        Field::SW => 13,
        Field::SWS => 14,
        Field::HPRE => 15,
        Field::PPRE1 => 16,
        Field::PPRE2 => 17,
        Field::PLLSRC => 18,
        Field::PLLM => 19,
        Field::PLLN => 20,
        Field::PLLREN => 21,
        Field::PLLR => 22,
        Field::LSECSSIE => 23,
        Field::LSEON => 24,
        Field::LSERDY => 25,
        Field::LSEBYP => 26,
        Field::LSEDRV => 27,
        Field::LSECSSON => 28,
        Field::LSION => 29,
        Field::LSIRDY => 30,
        Field::HSI48ON => 31,
        Field::HSI48RDY => 32,
        Field::LATENCY => 33,
        Field::DBP => 34,
    }
}

/// The place of `field` among the values of a model.
#[verifier::when_used_as_spec(spec_index_of)]
pub fn index_of(field: Field) -> (index: usize)
    ensures
        index == spec_index_of(field),
        index < FIELDS,
{
    match field {
        Field::MSION => 0,
        Field::MSIRDY => 1,
        Field::MSIPLLEN => 2,
        Field::MSIRGSEL => 3,
        Field::MSIRANGE => 4,
        Field::HSION => 5,
        Field::HSIRDY => 6,
        Field::HSEON => 7,
        Field::HSERDY => 8,
        Field::HSEBYP => 9,
        Field::CSSON => 10,
        Field::PLLON => 11,
        Field::PLLRDY => 12,
        Field::SW => 13,
        Field::SWS => 14,
        Field::HPRE => 15,
        Field::PPRE1 => 16,
        Field::PPRE2 => 17,
        Field::PLLSRC => 18,
        Field::PLLM => 19,
        Field::PLLN => 20,
        Field::PLLREN => 21,
        Field::PLLR => 22,
        Field::LSECSSIE => 23,
        Field::LSEON => 24,
        Field::LSERDY => 25,
        Field::LSEBYP => 26,
        Field::LSEDRV => 27,
        Field::LSECSSON => 28,
        Field::LSION => 29,
        Field::LSIRDY => 30,
        Field::HSI48ON => 31,
        Field::HSI48RDY => 32,
        Field::LATENCY => 33,
        Field::DBP => 34,
    }
}

/// The field at the place `index`.
pub open spec fn spec_field_at(index: usize) -> Field {
    if index == 0 {
        Field::MSION
    } else if index == 1 {
        Field::MSIRDY
    } else if index == 2 {
        Field::MSIPLLEN
    } else if index == 3 {
        Field::MSIRGSEL
    } else if index == 4 {
        Field::MSIRANGE
    } else if index == 5 {
        Field::HSION
    } else if index == 6 {
        Field::HSIRDY
    } else if index == 7 {
        Field::HSEON
    } else if index == 8 {
        Field::HSERDY
    } else if index == 9 {
        Field::HSEBYP
    } else if index == 10 {
        Field::CSSON
    } else if index == 11 {
        Field::PLLON
    } else if index == 12 {
        Field::PLLRDY
    } else if index == 13 {
        Field::SW
    } else if index == 14 {
        Field::SWS
    } else if index == 15 {
        Field::HPRE
    } else if index == 16 {
        Field::PPRE1
    } else if index == 17 {
        Field::PPRE2
    } else if index == 18 {
        Field::PLLSRC
    } else if index == 19 {
        Field::PLLM
    } else if index == 20 {
        Field::PLLN
    } else if index == 21 {
        Field::PLLREN
    } else if index == 22 {
        Field::PLLR
    } else if index == 23 {
        Field::LSECSSIE
    } else if index == 24 {
        Field::LSEON
    } else if index == 25 {
        Field::LSERDY
    } else if index == 26 {
        Field::LSEBYP
    } else if index == 27 {
        Field::LSEDRV
    } else if index == 28 {
        Field::LSECSSON
    } else if index == 29 {
        Field::LSION
    } else if index == 30 {
        Field::LSIRDY
    } else if index == 31 {
        Field::HSI48ON
    } else if index == 32 {
        Field::HSI48RDY
    } else if index == 33 {
        Field::LATENCY
    } else {
        Field::DBP
    }
}

/// The field at the place `index`.
#[verifier::when_used_as_spec(spec_field_at)]
pub fn field_at(index: usize) -> (field: Field)
    ensures
        field == spec_field_at(index),
        index < FIELDS ==> index_of(field) == index,
{
    if index == 0 {
        Field::MSION
    } else if index == 1 {
        Field::MSIRDY
    } else if index == 2 {
        Field::MSIPLLEN
    } else if index == 3 {
        Field::MSIRGSEL
    } else if index == 4 {
        Field::MSIRANGE
    } else if index == 5 {
        Field::HSION
    } else if index == 6 {
        Field::HSIRDY
    } else if index == 7 {
        Field::HSEON
    } else if index == 8 {
        Field::HSERDY
    } else if index == 9 {
        Field::HSEBYP
    } else if index == 10 {
        Field::CSSON
    } else if index == 11 {
        Field::PLLON
    } else if index == 12 {
        Field::PLLRDY
    } else if index == 13 {
        Field::SW
    } else if index == 14 {
        Field::SWS
    } else if index == 15 {
        Field::HPRE
    } else if index == 16 {
        Field::PPRE1
    } else if index == 17 {
        Field::PPRE2
    } else if index == 18 {
        Field::PLLSRC
    } else if index == 19 {
        Field::PLLM
    } else if index == 20 {
        Field::PLLN
    } else if index == 21 {
        Field::PLLREN
    } else if index == 22 {
        Field::PLLR
    } else if index == 23 {
        Field::LSECSSIE
    } else if index == 24 {
        Field::LSEON
    } else if index == 25 {
        Field::LSERDY
    } else if index == 26 {
        Field::LSEBYP
    } else if index == 27 {
        Field::LSEDRV
    } else if index == 28 {
        Field::LSECSSON
    } else if index == 29 {
        Field::LSION
    } else if index == 30 {
        Field::LSIRDY
    } else if index == 31 {
        Field::HSI48ON
    } else if index == 32 {
        Field::HSI48RDY
    } else if index == 33 {
        Field::LATENCY
    } else {
        Field::DBP
    }
}

/// The control field that the status flag `field` shows, if `field` is a
/// status flag.
pub open spec fn spec_follows(field: Field) -> Option<Field> {
    match field {
        Field::MSIRDY => Some(Field::MSION),
        Field::HSIRDY => Some(Field::HSION),
        Field::HSERDY => Some(Field::HSEON),
        Field::PLLRDY => Some(Field::PLLON),
        Field::SWS => Some(Field::SW),
        Field::LSERDY => Some(Field::LSEON),
        Field::LSIRDY => Some(Field::LSION),
        Field::HSI48RDY => Some(Field::HSI48ON),
        _ => None,
    }
}

/// The control field that the status flag `field` shows, if `field` is a
/// status flag.
#[verifier::when_used_as_spec(spec_follows)]
pub fn follows(field: Field) -> (control: Option<Field>)
    ensures
        control == spec_follows(field),
{
    match field {
        Field::MSIRDY => Some(Field::MSION),
        Field::HSIRDY => Some(Field::HSION),
        Field::HSERDY => Some(Field::HSEON),
        Field::PLLRDY => Some(Field::PLLON),
        Field::SWS => Some(Field::SW),
        Field::LSERDY => Some(Field::LSEON),
        Field::LSIRDY => Some(Field::LSION),
        Field::HSI48RDY => Some(Field::HSI48ON),
        _ => None,
    }
}

/// The value of `field` after reset: the MSI is on, ready and in its 4 MHz
/// range, and every other field is zero.
pub open spec fn spec_reset_value(field: Field) -> u32 {
    match field {
        Field::MSION | Field::MSIRDY => 1,
        Field::MSIRANGE => 6,
        _ => 0,
    }
}

/// The value of `field` after reset.
#[verifier::when_used_as_spec(spec_reset_value)]
pub fn reset_value(field: Field) -> (value: u32)
    ensures
        value == spec_reset_value(field),
{
    match field {
        Field::MSION | Field::MSIRDY => 1,
        Field::MSIRANGE => 6,
        _ => 0,
    }
}

/// The values after reset.
pub open spec fn reset_values() -> Seq<u32> {
    Seq::new(FIELDS as nat, |i: int| reset_value(field_at(i as usize)))
}

/// The values `values` with the control fields of `register` put back to
/// their reset values.
pub open spec fn cleared(values: Seq<u32>, register: Register) -> Seq<u32> {
    Seq::new(
        FIELDS as nat,
        |i: int|
            {
                let field = field_at(i as usize);
                if field.register() == register && follows(field) is None {
                    reset_value(field)
                } else {
                    values[i]
                }
            },
    )
}

/// The values `values` with `updates` applied in order. A later update of a
/// field overrides an earlier one; an update of a status flag is ignored.
pub open spec fn applied(values: Seq<u32>, updates: Seq<FieldValue>) -> Seq<u32>
    decreases updates.len(),
{
    if updates.len() == 0 {
        values
    } else {
        let earlier = applied(values, updates.drop_last());
        let update = updates.last();
        if follows(update.field) is None {
            earlier.update(index_of(update.field) as int, update.value)
        } else {
            earlier
        }
    }
}

/// The values `values` with every status flag that is not held showing what
/// its control field holds.
pub open spec fn settled(values: Seq<u32>, held: Seq<bool>) -> Seq<u32> {
    Seq::new(
        FIELDS as nat,
        |i: int|
            match follows(field_at(i as usize)) {
                Some(control) => if held[i] {
                    values[i]
                } else {
                    values[index_of(control) as int]
                },
                None => values[i],
            },
    )
}

/// The values that `values` become by a change of `register` with
/// `updates`, which leaves the other fields of the register alone if `keep`
/// and puts them back to their reset values if not.
pub open spec fn changed(
    values: Seq<u32>,
    held: Seq<bool>,
    register: Register,
    keep: bool,
    updates: Seq<FieldValue>,
) -> Seq<u32> {
    settled(
        applied(
            if keep {
                values
            } else {
                cleared(values, register)
            },
            updates,
        ),
        held,
    )
}

/// An access as the model logs it.
#[derive(Clone, Debug, PartialEq, Eq)]
pub enum AccessRecord {
    /// `field` was read and held `value`.
    Read { field: Field, value: u32 },
    /// `register` was written as a whole with `updates`.
    Write { register: Register, updates: Vec<FieldValue> },
    /// The fields in `updates` were changed and the rest of `register` kept.
    Modify { register: Register, updates: Vec<FieldValue> },
}

impl View for AccessRecord {
    type V = Access;

    open spec fn view(&self) -> Access {
        match self {
            AccessRecord::Read { field, value } => Access::Read { field: *field, value: *value },
            AccessRecord::Write { register, updates } => Access::Write {
                register: *register,
                updates: updates@,
            },
            AccessRecord::Modify { register, updates } => Access::Modify {
                register: *register,
                updates: updates@,
            },
        }
    }
}

/// The accesses that `log` records.
pub open spec fn recorded(log: Seq<AccessRecord>) -> Seq<Access> {
    log.map_values(|record: AccessRecord| record@)
}

/// A register block held in memory.
pub struct RegisterModel {
    values: [u32; FIELDS],
    held: [bool; FIELDS],
    log: Vec<AccessRecord>,
}

impl RegisterModel {
    /// The value of every field, each at its place.
    pub closed spec fn values(self) -> Seq<u32> {
        self.values@
    }

    /// Whether each field is held, each at its place.
    pub closed spec fn held(self) -> Seq<bool> {
        self.held@
    }

    /// The accesses logged, oldest first.
    pub closed spec fn records(self) -> Seq<AccessRecord> {
        self.log@
    }

    /// A device after reset, with no status flag held and nothing logged.
    pub fn new() -> (model: RegisterModel)
        ensures
            model.values() == reset_values(),
            model.held() == Seq::new(FIELDS as nat, |i: int| false),
            model.records() == Seq::<AccessRecord>::empty(),
    {
        let mut values = [0u32; FIELDS];
        let held = [false; FIELDS];
        let mut index: usize = 0;
        while index < FIELDS
            invariant
                index <= FIELDS,
                forall|i: int| 0 <= i < index ==> values@[i] == reset_value(field_at(i as usize)),
            decreases FIELDS - index,
        {
            values[index] = reset_value(field_at(index));
            index = index + 1;
        }
        assert(values@ =~= reset_values());
        assert(held@ =~= Seq::new(FIELDS as nat, |i: int| false));
        RegisterModel { values, held, log: Vec::new() }
    }

    /// The value that `field` holds. Nothing is logged.
    pub fn value(&self, field: Field) -> (value: u32)
        ensures
            value == self.values()[index_of(field) as int],
    {
        self.values[index_of(field)]
    }

    /// Gives `field` the value `value`, as a device might be found. Nothing
    /// is logged and no status flag follows.
    pub fn set(&mut self, field: Field, value: u32)
        ensures
            final(self).values() == old(self).values().update(index_of(field) as int, value),
            final(self).held() == old(self).held(),
            final(self).records() == old(self).records(),
    {
        self.values[index_of(field)] = value;
    }

    /// Holds `field`: from now on it keeps its value whatever is written.
    pub fn hold(&mut self, field: Field)
        ensures
            final(self).held() == old(self).held().update(index_of(field) as int, true),
            final(self).values() == old(self).values(),
            final(self).records() == old(self).records(),
    {
        self.held[index_of(field)] = true;
    }

    /// The accesses logged, oldest first.
    pub fn log(&self) -> (log: &Vec<AccessRecord>)
        ensures
            log@ == self.records(),
    {
        &self.log
    }

    /// Changes `register` with `updates`, keeping the other fields of the
    /// register if `keep`.
    fn change(&mut self, register: Register, keep: bool, updates: &[FieldValue])
        ensures
            final(self).values() == changed(
                old(self).values(),
                old(self).held(),
                register,
                keep,
                updates@,
            ),
            final(self).held() == old(self).held(),
            final(self).records() == old(self).records(),
    {
        let ghost before = self.values@;
        let ghost held = self.held@;
        if !keep {
            let mut index: usize = 0;
            while index < FIELDS
                invariant
                    index <= FIELDS,
                    self.held@ == held,
                    self.log@ == old(self).log@,
                    forall|i: int|
                        0 <= i < index ==> self.values@[i] == cleared(before, register)[i],
                    forall|i: int| index <= i < FIELDS ==> self.values@[i] == before[i],
                decreases FIELDS - index,
            {
                let field = field_at(index);
                if field.register() == register && follows(field).is_none() {
                    self.values[index] = reset_value(field);
                }
                index = index + 1;
            }
            assert(self.values@ =~= cleared(before, register));
        }
        let ghost base = self.values@;
        let mut at: usize = 0;
        while at < updates.len()
            invariant
                at <= updates.len(),
                self.held@ == held,
                self.log@ == old(self).log@,
                self.values@ == applied(base, updates@.take(at as int)),
            decreases updates.len() - at,
        {
            let update = updates[at];
            proof {
                assert(updates@.take(at + 1).drop_last() =~= updates@.take(at as int));
                assert(updates@.take(at + 1).last() == update);
            }
            if follows(update.field).is_none() {
                self.values[index_of(update.field)] = update.value;
            }
            at = at + 1;
        }
        assert(updates@.take(at as int) =~= updates@);
        let ghost written = self.values@;
        self.settle(Field::MSIRDY, Field::MSION, Ghost(written));
        self.settle(Field::HSIRDY, Field::HSION, Ghost(written));
        self.settle(Field::HSERDY, Field::HSEON, Ghost(written));
        self.settle(Field::PLLRDY, Field::PLLON, Ghost(written));
        self.settle(Field::SWS, Field::SW, Ghost(written));
        self.settle(Field::LSERDY, Field::LSEON, Ghost(written));
        self.settle(Field::LSIRDY, Field::LSION, Ghost(written));
        self.settle(Field::HSI48RDY, Field::HSI48ON, Ghost(written));
        assert(self.values@ =~= settled(written, held));
    }

    /// Lets the status flag `status` show what `control` holds, unless it is
    /// held.
    fn settle(&mut self, status: Field, control: Field, Ghost(written): Ghost<Seq<u32>>)
        requires
            follows(status) == Some(control),
            written.len() == FIELDS,
            old(self).values@[index_of(control) as int] == written[index_of(control) as int],
            old(self).values@[index_of(status) as int] == written[index_of(status) as int],
        ensures
            final(self).values@ == old(self).values@.update(
                index_of(status) as int,
                settled(written, old(self).held@)[index_of(status) as int],
            ),
            final(self).held@ == old(self).held@,
            final(self).log@ == old(self).log@,
    {
        if !self.held[index_of(status)] {
            let shown = self.values[index_of(control)];
            self.values[index_of(status)] = shown;
        }
        assert(self.values@ =~= old(self).values@.update(
            index_of(status) as int,
            settled(written, old(self).held@)[index_of(status) as int],
        ));
    }
}

impl RegisterBlock for RegisterModel {
    open spec fn history(&self) -> Seq<Access> {
        recorded(self.records())
    }

    /// Reads `field`: the value that the model holds for it.
    fn read(&mut self, field: Field) -> (value: u32)
        ensures
            value == old(self).values()[index_of(field) as int],
            final(self).values() == old(self).values(),
            final(self).held() == old(self).held(),
            final(self).records() == old(self).records().push(AccessRecord::Read { field, value }),
    {
        let value = self.values[index_of(field)];
        let ghost earlier = self.log@;
        self.log.push(AccessRecord::Read { field, value });
        assert(recorded(self.log@) =~= recorded(earlier).push(Access::Read { field, value }));
        value
    }

    /// Writes `register` as a whole.
    fn write(&mut self, register: Register, updates: &[FieldValue])
        ensures
            final(self).values() == changed(
                old(self).values(),
                old(self).held(),
                register,
                false,
                updates@,
            ),
            final(self).held() == old(self).held(),
            final(self).records().len() == old(self).records().len() + 1,
            final(self).records().drop_last() == old(self).records(),
    {
        let ghost earlier = self.log@;
        self.change(register, false, updates);
        let record = AccessRecord::Write { register, updates: slice_to_vec(updates) };
        self.log.push(record);
        assert(recorded(self.log@) =~= recorded(earlier).push(
            Access::Write { register, updates: updates@ },
        ));
        assert(self.log@.drop_last() =~= earlier);
    }

    /// Changes the fields in `updates` and keeps the rest of `register`.
    fn modify(&mut self, register: Register, updates: &[FieldValue])
        ensures
            final(self).values() == changed(
                old(self).values(),
                old(self).held(),
                register,
                true,
                updates@,
            ),
            final(self).held() == old(self).held(),
            final(self).records().len() == old(self).records().len() + 1,
            final(self).records().drop_last() == old(self).records(),
    {
        let ghost earlier = self.log@;
        self.change(register, true, updates);
        let record = AccessRecord::Modify { register, updates: slice_to_vec(updates) };
        self.log.push(record);
        assert(recorded(self.log@) =~= recorded(earlier).push(
            Access::Modify { register, updates: updates@ },
        ));
        assert(self.log@.drop_last() =~= earlier);
    }
}

} // verus!
