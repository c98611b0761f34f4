//! Field access on 64-bit register values, done through `tock_registers`.
//!
//! The page-table code builds and decodes descriptors the way the hardware
//! manuals describe them: as named bit fields of a 64-bit register value.
//! `tock_registers` provides that field arithmetic; the two functions below
//! are the only places it is called, and their contracts restate what its
//! source computes.
use tock_registers::fields::{Field, FieldValue};
use tock_registers::interfaces::{ReadWriteable, Readable};
use tock_registers::registers::InMemoryRegister;
use vstd::prelude::*;

verus! {

/// The value of a register holding `val` after the field of width mask `mask`
/// at bit `shift` is set to `value` (bits of `value` outside `mask` are dropped).
pub open spec fn field_modify(val: u64, mask: u64, shift: usize, value: u64) -> u64 {
    (val & !(mask << shift)) | ((value & mask) << shift)
}

/// The field of width mask `mask` at bit `shift` of a register holding `val`.
pub open spec fn field_read(val: u64, mask: u64, shift: usize) -> u64 {
    (val & (mask << shift)) >> shift
}

/// Writes one field of a 64-bit register value and returns the new value.
///
/// Trusted: calls `tock_registers::registers::InMemoryRegister::<u64>::new(val)`,
/// then `ReadWriteable::modify` with `FieldValue::<u64, ()>::new(mask, shift, value)`,
/// then `Readable::get`. In tock-registers 0.8.1, `FieldValue::new` stores the
/// mask `mask << shift` and the value `(value & mask) << shift`, and `modify`
/// replaces the register by `(old & !mask) | value`; the contract states that
/// result. A shift of 64 or more overflows `<<` inside `FieldValue::new`, so it
/// is excluded.
#[verifier::external_body]
pub(crate) fn register_modify(val: u64, mask: u64, shift: usize, value: u64) -> (r: u64)
    requires
        shift < 64,
    ensures
        r == field_modify(val, mask, shift, value),
{
    let reg = InMemoryRegister::<u64, ()>::new(val);
    reg.modify(FieldValue::<u64, ()>::new(mask, shift, value));
    reg.get()
}

/// Reads one field of a 64-bit register value.
///
/// Trusted: calls `InMemoryRegister::<u64>::new(val)` and `Readable::read` with
/// `Field::<u64, ()>::new(mask, shift)`. In tock-registers 0.8.1, `Field::read`
/// returns `(val & (mask << shift)) >> shift`; the contract states that. A shift
/// of 64 or more overflows `<<`, so it is excluded.
#[verifier::external_body]
pub(crate) fn register_read(val: u64, mask: u64, shift: usize) -> (r: u64)
    requires
        shift < 64,
    ensures
        r == field_read(val, mask, shift),
{
    InMemoryRegister::<u64, ()>::new(val).read(Field::<u64, ()>::new(mask, shift))
}

} // verus!
