use vstd::prelude::*;
use crate::bus::unit::{RefUnit, Unit};
use crate::bus::unit_wrapper::{UnitWrapper, Units};

verus! {

/// The local address that a bus address stands for on a device mounted at
/// `offset`: the distance from `offset` up to `address`, counted round the
/// 16-bit address space.
pub open spec fn local_address(address: u16, offset: u16) -> u16 {
    if address >= offset {
        (address - offset) as u16
    } else {
        (address + 0x1_0000 - offset) as u16
    }
}

/// A device handle together with the bus address at which the device begins.
pub struct OffsetUnit {
    offset: u16,
    unit: UnitWrapper,
}

impl OffsetUnit {
    /// The bus address at which the device begins.
    pub closed spec fn offset(&self) -> u16 {
        self.offset
    }

    /// The handle on the device.
    pub closed spec fn unit(&self) -> UnitWrapper {
        self.unit
    }

    pub fn new(offset: u16, unit: UnitWrapper) -> (adapter: Self)
        ensures
            adapter.offset() == offset,
            adapter.unit() == unit,
    {
        Self { offset, unit }
    }
}

impl RefUnit for OffsetUnit {
    open spec fn slot(&self) -> nat {
        self.unit().index()
    }

    open spec fn local(&self, address: u16) -> u16 {
        local_address(address, self.offset())
    }

    fn read<U: Unit>(&self, units: &Units<U>, address: u16) -> (byte: u8) {
        self.unit.read(units, address.wrapping_sub(self.offset))
    }

    fn write<U: Unit>(&self, units: &mut Units<U>, address: u16, byte: u8) {
        self.unit.write(units, address.wrapping_sub(self.offset), byte)
    }
}

} // verus!
