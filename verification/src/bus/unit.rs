use vstd::prelude::*;
use crate::bus::unit_wrapper::Units;

verus! {

/// A device that can be mounted on a bus.
///
/// A device is described as a state machine: `state` is what it remembers,
/// `peek` is the byte it answers with at a local address, and `poke` is the
/// state it moves to when a byte is written at a local address. What a
/// device answers and how it reacts to a write is its own business; the bus
/// only decides which device is asked, and at which local address.
pub trait Unit {
    /// What the device remembers, as a mathematical value.
    type State;

    /// The state the device is in.
    spec fn state(&self) -> Self::State;

    /// The byte a device in `state` answers with at `address`.
    spec fn peek(state: Self::State, address: u16) -> u8;

    /// The state a device in `state` moves to when `byte` is written at `address`.
    spec fn poke(state: Self::State, address: u16, byte: u8) -> Self::State;

    fn read(&self, address: u16) -> (byte: u8)
        ensures
            byte == Self::peek(self.state(), address),
    ;

    fn write(&mut self, address: u16, byte: u8)
        ensures
            final(self).state() == Self::poke(old(self).state(), address, byte),
    ;
}

/// The byte read from `slot` at the local `address`: what the device in the
/// slot answers with, and 0 where the slot holds no device.
pub open spec fn read_at<U: Unit>(units: Seq<U::State>, slot: nat, address: u16) -> u8 {
    if slot < units.len() {
        U::peek(units[slot as int], address)
    } else {
        0
    }
}

/// The devices after `byte` was written to `slot` at the local `address`:
/// the device in the slot has moved on, every other is as it was; where the
/// slot holds no device, nothing has changed.
pub open spec fn written_at<U: Unit>(
    units: Seq<U::State>,
    slot: nat,
    address: u16,
    byte: u8,
) -> Seq<U::State> {
    if slot < units.len() {
        units.update(slot as int, U::poke(units[slot as int], address, byte))
    } else {
        units
    }
}

/// A way to reach one device among many: it names the device's slot and
/// turns the address it is given into the device's local address.
///
/// Reading and writing take a shared reference to the access path itself;
/// what a write changes is the device, which lives in the `Units`. A slot
/// that the `Units` at hand do not have reads as 0 and takes no write.
pub trait RefUnit {
    /// The slot of the device that is reached.
    spec fn slot(&self) -> nat;

    /// The device's local address for `address`.
    spec fn local(&self, address: u16) -> u16;

    fn read<U: Unit>(&self, units: &Units<U>, address: u16) -> (byte: u8)
        ensures
            byte == read_at::<U>(units@, self.slot(), self.local(address)),
    ;

    fn write<U: Unit>(&self, units: &mut Units<U>, address: u16, byte: u8)
        ensures
            final(units)@ == written_at::<U>(
                old(units)@,
                self.slot(),
                self.local(address),
                byte,
            ),
    ;
}

} // verus!
