use vstd::prelude::*;
use crate::bus::unit::{read_at, written_at, RefUnit, Unit};

verus! {

/// The devices of a machine, each in a slot of its own.
///
/// The devices live here and nowhere else. A bus holds handles, not devices,
/// so one device can be mounted at several ranges, or on several buses, and
/// every mount sees the same device.
pub struct Units<U: Unit> {
    slots: Vec<U>,
}

impl<U: Unit> View for Units<U> {
    type V = Seq<U::State>;

    /// The state of each device, by slot.
    closed spec fn view(&self) -> Seq<U::State> {
        Seq::new(self.slots@.len(), |i: int| self.slots@[i].state())
    }
}

impl<U: Unit> Units<U> {
    pub fn new() -> (units: Self)
        ensures
            units@ == Seq::<U::State>::empty(),
    {
        Units { slots: Vec::new() }
    }

    /// The number of devices.
    pub fn len(&self) -> (len: usize)
        ensures
            len == self@.len(),
    {
        self.slots.len()
    }
}

/// A handle on one device of a `Units`. Copies of a handle name the same device.
#[derive(Clone, Copy)]
pub struct UnitWrapper(usize);

impl UnitWrapper {
    /// The slot of the device that the handle names.
    pub closed spec fn index(&self) -> nat {
        self.0 as nat
    }

    /// Puts `unit` into a slot of its own and hands out the handle on it.
    pub fn new<U: Unit>(units: &mut Units<U>, unit: U) -> (handle: Self)
        ensures
            handle.index() == old(units)@.len(),
            final(units)@ == old(units)@.push(unit.state()),
    {
        let slot = units.slots.len();
        units.slots.push(unit);
        UnitWrapper(slot)
    }
}

impl RefUnit for UnitWrapper {
    open spec fn slot(&self) -> nat {
        self.index()
    }

    open spec fn local(&self, address: u16) -> u16 {
        address
    }

    fn read<U: Unit>(&self, units: &Units<U>, address: u16) -> (byte: u8) {
        if self.0 < units.slots.len() {
            units.slots[self.0].read(address)
        } else {
            0
        }
    }

    fn write<U: Unit>(&self, units: &mut Units<U>, address: u16, byte: u8) {
        if self.0 < units.slots.len() {
            units.slots[self.0].write(address, byte);
        }
    }
}

} // verus!
