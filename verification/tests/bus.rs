use newnes::bus::offset_unit::OffsetUnit;
use newnes::bus::unit::{RefUnit, Unit};
use newnes::bus::unit_wrapper::{UnitWrapper, Units};
use newnes::bus::{Bus, MountError};

/// A block of memory whose local addresses wrap round its size.
struct Ram {
    cells: Vec<u8>,
}

impl Ram {
    fn new(size: usize) -> Self {
        Ram { cells: vec![0; size] }
    }

    fn holding(cells: Vec<u8>) -> Self {
        Ram { cells }
    }
}

impl Unit for Ram {
    type State = Vec<u8>;

    fn state(&self) -> Vec<u8> {
        self.cells.clone()
    }

    fn peek(state: Vec<u8>, address: u16) -> u8 {
        state[address as usize % state.len()]
    }

    fn poke(mut state: Vec<u8>, address: u16, byte: u8) -> Vec<u8> {
        let len = state.len();
        state[address as usize % len] = byte;
        state
    }

    fn read(&self, address: u16) -> u8 {
        self.cells[address as usize % self.cells.len()]
    }

    fn write(&mut self, address: u16, byte: u8) {
        let len = self.cells.len();
        self.cells[address as usize % len] = byte;
    }
}

/// A device that answers with the low byte of the local address it is asked
/// at, and remembers the last write.
struct Echo {
    last: Option<(u16, u8)>,
}

impl Unit for Echo {
    type State = Option<(u16, u8)>;

    fn state(&self) -> Option<(u16, u8)> {
        self.last
    }

    fn peek(_state: Option<(u16, u8)>, address: u16) -> u8 {
        (address % 256) as u8
    }

    fn poke(_state: Option<(u16, u8)>, address: u16, byte: u8) -> Option<(u16, u8)> {
        Some((address, byte))
    }

    fn read(&self, address: u16) -> u8 {
        (address % 256) as u8
    }

    fn write(&mut self, address: u16, byte: u8) {
        self.last = Some((address, byte));
    }
}

fn counting(size: usize) -> Vec<u8> {
    (0..size).map(|i| (i % 251) as u8).collect()
}

#[test]
fn unmapped_read_is_zero() {
    let mut units = Units::new();
    let ram = UnitWrapper::new(&mut units, Ram::holding(vec![0xEE; 0x100]));
    let mut bus = Bus::new();
    assert_eq!(bus.read(&units, 0x0000), 0);
    assert_eq!(bus.read(&units, 0xFFFF), 0);
    bus.insert(0x4000..=0x40FF, ram);
    assert_eq!(bus.read(&units, 0x3FFF), 0);
    assert_eq!(bus.read(&units, 0x4100), 0);
    assert_eq!(bus.read(&units, 0x0000), 0);
    assert_eq!(bus.read(&units, 0xFFFF), 0);
    assert_eq!(bus.read(&units, 0x4000), 0xEE);
}

#[test]
fn unmapped_write_is_dropped() {
    let mut units = Units::new();
    let ram = UnitWrapper::new(&mut units, Ram::new(0x100));
    let mut bus = Bus::new();
    bus.insert(0x4000..=0x40FF, ram);
    bus.write(&mut units, 0x4100, 0x55);
    bus.write(&mut units, 0x3FFF, 0x66);
    for address in 0x4000..=0x40FFu16 {
        assert_eq!(bus.read(&units, address), 0);
    }
    assert_eq!(bus.read(&units, 0x4100), 0);
    assert_eq!(bus.read(&units, 0x3FFF), 0);
}

#[test]
fn read_after_insert_is_device_read_at_distance_from_start() {
    let mut units = Units::new();
    let ram = UnitWrapper::new(&mut units, Ram::holding(counting(0x800)));
    let mut bus = Bus::new();
    bus.insert(0x6000..=0x67FF, ram);
    for address in 0x6000..=0x67FFu16 {
        assert_eq!(bus.read(&units, address), ram.read(&units, address - 0x6000));
    }
    assert_eq!(bus.read(&units, 0x6000), 0);
    assert_eq!(bus.read(&units, 0x6001), 1);
    assert_eq!(bus.read(&units, 0x60FB), 0);
    assert_eq!(bus.read(&units, 0x67FF), (0x7FF % 251) as u8);
}

#[test]
fn device_is_asked_at_local_address() {
    let mut units = Units::new();
    let echo = UnitWrapper::new(&mut units, Echo { last: None });
    let mut bus = Bus::new();
    bus.insert(0x1234..=0x2000, echo);
    assert_eq!(bus.read(&units, 0x1234), 0x00);
    assert_eq!(bus.read(&units, 0x1235), 0x01);
    assert_eq!(bus.read(&units, 0x1300), 0xCC);
    bus.write(&mut units, 0x1240, 9);
    assert_eq!(echo.read(&units, 0), 0);
    let mut probe = Units::new();
    let witness = UnitWrapper::new(&mut probe, Ram::new(0x1_0000));
    let mut probe_bus = Bus::new();
    probe_bus.insert(0x1234..=0x2000, witness);
    probe_bus.write(&mut probe, 0x1240, 9);
    assert_eq!(witness.read(&probe, 0x000C), 9);
    assert_eq!(witness.read(&probe, 0x1240), 0);
}

#[test]
fn write_then_read_round_trip() {
    let mut units = Units::new();
    let ram = UnitWrapper::new(&mut units, Ram::new(0x2000));
    let mut bus = Bus::new();
    bus.insert(0x8000..=0x9FFF, ram);
    for (address, byte) in [(0x8000u16, 0x01u8), (0x8ABC, 0xFE), (0x9FFF, 0x80)] {
        bus.write(&mut units, address, byte);
        assert_eq!(bus.read(&units, address), byte);
    }
    assert_eq!(bus.read(&units, 0x8000), 0x01);
    assert_eq!(bus.read(&units, 0x8ABC), 0xFE);
}

#[test]
fn word_assembly_is_big_endian() {
    let mut units = Units::new();
    let ram = UnitWrapper::new(&mut units, Ram::new(0x100));
    let mut bus = Bus::new();
    bus.insert(0x0200..=0x02FF, ram);
    bus.write_u16(&mut units, 0x0210, 0xABCD);
    assert_eq!(bus.read(&units, 0x0210), 0xAB);
    assert_eq!(bus.read(&units, 0x0211), 0xCD);
    assert_eq!(bus.read_u16(&units, 0x0210), 0xABCD);
    assert_eq!(bus.read_u16(&units, 0x0211), 0xCD00);
}

#[test]
fn read_word_takes_first_byte_as_high_byte() {
    let mut units = Units::new();
    let ram = UnitWrapper::new(&mut units, Ram::new(0x10));
    let mut bus = Bus::new();
    bus.insert(0x0000..=0x000F, ram);
    bus.write(&mut units, 0x0004, 0x12);
    bus.write(&mut units, 0x0005, 0x34);
    assert_eq!(bus.read_u16(&units, 0x0004), 0x1234);
    assert_eq!(bus.read_u16(&units, 0x0005), 0x3400);
    assert_eq!(bus.read_u16(&units, 0x0003), 0x0012);
}

#[test]
fn word_at_the_last_address_wraps_to_the_first() {
    let mut units = Units::new();
    let low = UnitWrapper::new(&mut units, Ram::new(0x100));
    let high = UnitWrapper::new(&mut units, Ram::new(0x100));
    let mut bus = Bus::new();
    bus.insert(0x0000..=0x00FF, low);
    bus.insert(0xFF00..=0xFFFF, high);
    bus.write_u16(&mut units, 0xFFFF, 0x1234);
    assert_eq!(bus.read(&units, 0xFFFF), 0x12);
    assert_eq!(bus.read(&units, 0x0000), 0x34);
    assert_eq!(high.read(&units, 0x00FF), 0x12);
    assert_eq!(low.read(&units, 0x0000), 0x34);
    assert_eq!(bus.read_u16(&units, 0xFFFF), 0x1234);
}

#[test]
fn word_half_on_an_unmapped_address() {
    let mut units = Units::new();
    let ram = UnitWrapper::new(&mut units, Ram::new(0x100));
    let mut bus = Bus::new();
    bus.insert(0x0100..=0x01FF, ram);
    bus.write_u16(&mut units, 0x01FF, 0xBEEF);
    assert_eq!(bus.read(&units, 0x01FF), 0xBE);
    assert_eq!(bus.read(&units, 0x0200), 0x00);
    assert_eq!(bus.read_u16(&units, 0x01FF), 0xBE00);
    assert_eq!(bus.read_u16(&units, 0x00FF), 0x0000);
}

#[test]
fn range_bounds_are_inclusive() {
    let mut units = Units::new();
    let ram = UnitWrapper::new(&mut units, Ram::holding(vec![0x77; 0x2000]));
    let mut bus = Bus::new();
    bus.insert(0x2000..=0x3FFF, ram);
    assert_eq!(bus.read(&units, 0x2000), 0x77);
    assert_eq!(bus.read(&units, 0x2FFF), 0x77);
    assert_eq!(bus.read(&units, 0x3FFF), 0x77);
    assert_eq!(bus.read(&units, 0x4000), 0);
    assert_eq!(bus.read(&units, 0x1FFF), 0);
}

#[test]
fn range_of_one_address() {
    let mut units = Units::new();
    let ram = UnitWrapper::new(&mut units, Ram::holding(vec![0x5A]));
    let mut bus = Bus::new();
    bus.insert(0x4016..=0x4016, ram);
    assert_eq!(bus.read(&units, 0x4015), 0);
    assert_eq!(bus.read(&units, 0x4016), 0x5A);
    assert_eq!(bus.read(&units, 0x4017), 0);
}

#[test]
fn whole_address_space() {
    let mut units = Units::new();
    let ram = UnitWrapper::new(&mut units, Ram::new(0x1_0000));
    let mut bus = Bus::new();
    bus.insert(0x0000..=0xFFFF, ram);
    bus.write(&mut units, 0x0000, 1);
    bus.write(&mut units, 0xFFFF, 2);
    assert_eq!(bus.read(&units, 0x0000), 1);
    assert_eq!(bus.read(&units, 0xFFFF), 2);
    assert_eq!(bus.read_u16(&units, 0xFFFF), 0x0201);
}

#[test]
fn shared_device_is_seen_through_both_ranges() {
    let mut units = Units::new();
    let ram = UnitWrapper::new(&mut units, Ram::new(0x400));
    let mut bus = Bus::new();
    bus.insert(0x2000..=0x23FF, ram);
    bus.insert(0x2800..=0x2BFF, ram);
    bus.write(&mut units, 0x2123, 0x99);
    assert_eq!(bus.read(&units, 0x2923), 0x99);
    bus.write(&mut units, 0x2BFF, 0x11);
    assert_eq!(bus.read(&units, 0x23FF), 0x11);
    assert_eq!(bus.read(&units, 0x2922), 0);
}

#[test]
fn shared_device_is_seen_from_two_buses() {
    let mut units = Units::new();
    let ram = UnitWrapper::new(&mut units, Ram::new(0x800));
    let copy = ram;
    let mut processor = Bus::new();
    let mut picture = Bus::new();
    processor.insert(0x0000..=0x07FF, ram);
    picture.insert(0x2000..=0x27FF, copy);
    processor.write(&mut units, 0x0042, 0xA5);
    assert_eq!(picture.read(&units, 0x2042), 0xA5);
    picture.write(&mut units, 0x27FF, 0x5A);
    assert_eq!(processor.read(&units, 0x07FF), 0x5A);
}

#[test]
fn mirrored_ram() {
    let mut units = Units::new();
    let ram = UnitWrapper::new(&mut units, Ram::new(0x800));
    let mut bus = Bus::new();
    bus.insert(0x0000..=0x07FF, ram);
    bus.insert(0x0800..=0x0FFF, ram);
    bus.write(&mut units, 0x0000, 0x42);
    assert_eq!(bus.read(&units, 0x0800), 0x42);
    assert_eq!(bus.read(&units, 0x0000), 0x42);
    assert_eq!(bus.read(&units, 0x0801), 0);
}

#[test]
fn devices_do_not_disturb_each_other() {
    let mut units = Units::new();
    let first = UnitWrapper::new(&mut units, Ram::new(0x10));
    let second = UnitWrapper::new(&mut units, Ram::new(0x10));
    let mut bus = Bus::new();
    bus.insert(0x0010..=0x001F, second);
    bus.insert(0x0000..=0x000F, first);
    bus.write(&mut units, 0x0003, 0xAA);
    bus.write(&mut units, 0x0013, 0xBB);
    assert_eq!(bus.read(&units, 0x0003), 0xAA);
    assert_eq!(bus.read(&units, 0x0013), 0xBB);
    assert_eq!(first.read(&units, 3), 0xAA);
    assert_eq!(second.read(&units, 3), 0xBB);
    assert_eq!(units.len(), 2);
}

#[test]
fn mounts_in_any_order() {
    let mut units = Units::new();
    let mut bus = Bus::new();
    let order = [5u16, 1, 9, 3, 7, 0, 8, 2, 6, 4];
    for k in order {
        let ram = UnitWrapper::new(&mut units, Ram::holding(vec![k as u8 + 1; 0x100]));
        bus.insert(k * 0x1000..=k * 0x1000 + 0xFF, ram);
    }
    for k in 0..10u16 {
        assert_eq!(bus.read(&units, k * 0x1000), k as u8 + 1);
        assert_eq!(bus.read(&units, k * 0x1000 + 0xFF), k as u8 + 1);
        assert_eq!(bus.read(&units, k * 0x1000 + 0x100), 0);
    }
    assert_eq!(bus.read(&units, 0xA000), 0);
}

#[test]
fn adjacent_mounts() {
    let mut units = Units::new();
    let left = UnitWrapper::new(&mut units, Ram::holding(vec![1; 0x100]));
    let right = UnitWrapper::new(&mut units, Ram::holding(vec![2; 0x100]));
    let mut bus = Bus::new();
    bus.insert(0x0100..=0x01FF, right);
    bus.insert(0x0000..=0x00FF, left);
    assert_eq!(bus.read(&units, 0x00FF), 1);
    assert_eq!(bus.read(&units, 0x0100), 2);
    assert_eq!(bus.read_u16(&units, 0x00FF), 0x0102);
}

#[test]
fn try_insert_mounts_a_free_range() {
    let mut units = Units::new();
    let ram = UnitWrapper::new(&mut units, Ram::holding(vec![3; 0x100]));
    let mut bus = Bus::new();
    assert_eq!(bus.try_insert(0x0100..=0x01FF, ram), Ok(()));
    assert_eq!(bus.read(&units, 0x0100), 3);
    assert_eq!(bus.try_insert(0x0200..=0x02FF, ram), Ok(()));
    assert_eq!(bus.try_insert(0x0000..=0x00FF, ram), Ok(()));
    assert_eq!(bus.read(&units, 0x0000), 3);
    assert_eq!(bus.read(&units, 0x02FF), 3);
    assert_eq!(bus.read(&units, 0x0300), 0);
}

#[test]
fn try_insert_refuses_an_overlap() {
    let mut units = Units::new();
    let first = UnitWrapper::new(&mut units, Ram::holding(vec![1; 0x100]));
    let second = UnitWrapper::new(&mut units, Ram::holding(vec![2; 0x1000]));
    let mut bus = Bus::new();
    assert_eq!(bus.try_insert(0x1000..=0x10FF, first), Ok(()));
    assert_eq!(bus.try_insert(0x10FF..=0x1200, second), Err(MountError::Overlap));
    assert_eq!(bus.try_insert(0x0F00..=0x1000, second), Err(MountError::Overlap));
    assert_eq!(bus.try_insert(0x1010..=0x1020, second), Err(MountError::Overlap));
    assert_eq!(bus.try_insert(0x0000..=0xFFFF, second), Err(MountError::Overlap));
    assert_eq!(bus.try_insert(0x1000..=0x10FF, first), Err(MountError::Overlap));
    assert_eq!(bus.read(&units, 0x1000), 1);
    assert_eq!(bus.read(&units, 0x10FF), 1);
    assert_eq!(bus.read(&units, 0x1100), 0);
    assert_eq!(bus.read(&units, 0x0FFF), 0);
    assert_eq!(bus.try_insert(0x1100..=0x1200, second), Ok(()));
    assert_eq!(bus.read(&units, 0x1100), 2);
}

#[test]
fn try_insert_refuses_a_range_without_addresses() {
    let mut units = Units::new();
    let ram = UnitWrapper::new(&mut units, Ram::holding(vec![1; 0x100]));
    let mut bus = Bus::new();
    let (start, end) = (0x2000u16, 0x1000u16);
    assert_eq!(bus.try_insert(start..=end, ram), Err(MountError::Empty));
    assert_eq!(bus.read(&units, 0x1000), 0);
    assert_eq!(bus.read(&units, 0x1800), 0);
    assert_eq!(bus.read(&units, 0x2000), 0);
    let mut spent = 0x3000u16..=0x3001;
    assert_eq!(spent.by_ref().count(), 2);
    assert_eq!(bus.try_insert(spent, ram), Err(MountError::Empty));
    assert_eq!(bus.read(&units, 0x3000), 0);
    assert_eq!(bus.read(&units, 0x3001), 0);
}

#[test]
fn handle_reads_back_what_was_written() {
    let mut units = Units::new();
    let ram = UnitWrapper::new(&mut units, Ram::new(16));
    ram.write(&mut units, 3, 7);
    assert_eq!(ram.read(&units, 3), 7);
    assert_eq!(ram.read(&units, 4), 0);
    let copy = ram.clone();
    copy.write(&mut units, 4, 8);
    assert_eq!(ram.read(&units, 4), 8);
}

#[test]
fn handles_name_their_own_devices() {
    let mut units = Units::new();
    assert_eq!(units.len(), 0);
    let first = UnitWrapper::new(&mut units, Ram::holding(vec![1; 4]));
    let second = UnitWrapper::new(&mut units, Ram::holding(vec![2; 4]));
    assert_eq!(units.len(), 2);
    assert_eq!(first.read(&units, 0), 1);
    assert_eq!(second.read(&units, 0), 2);
}

#[test]
fn offset_unit_subtracts_its_offset() {
    let mut units = Units::new();
    let ram = UnitWrapper::new(&mut units, Ram::new(0x1_0000));
    let adapter = OffsetUnit::new(0x2000, ram);
    adapter.write(&mut units, 0x2005, 0x66);
    assert_eq!(ram.read(&units, 0x0005), 0x66);
    assert_eq!(adapter.read(&units, 0x2005), 0x66);
    assert_eq!(ram.read(&units, 0x2005), 0);
}

#[test]
fn offset_unit_wraps_below_its_offset() {
    let mut units = Units::new();
    let ram = UnitWrapper::new(&mut units, Ram::new(0x1_0000));
    let adapter = OffsetUnit::new(0x0010, ram);
    adapter.write(&mut units, 0x0005, 0x77);
    assert_eq!(ram.read(&units, 0xFFF5), 0x77);
    assert_eq!(adapter.read(&units, 0x0005), 0x77);
    let zero = OffsetUnit::new(0, ram);
    assert_eq!(zero.read(&units, 0xFFF5), 0x77);
}

#[test]
fn device_model_agrees_with_device() {
    let mut ram = Ram::holding(counting(0x20));
    for address in [0u16, 1, 0x1F, 0x20, 0xFFFF] {
        assert_eq!(ram.read(address), Ram::peek(ram.state(), address));
    }
    let expected = Ram::poke(ram.state(), 0x21, 0xC3);
    ram.write(0x21, 0xC3);
    assert_eq!(ram.state(), expected);
    assert_eq!(ram.read(1), 0xC3);
}

#[test]
fn slot_without_a_device_reads_zero_and_drops_writes() {
    let mut units = Units::new();
    let first = UnitWrapper::new(&mut units, Ram::holding(vec![9; 4]));
    let second = UnitWrapper::new(&mut units, Ram::holding(vec![8; 4]));
    let mut fewer = Units::new();
    let only = UnitWrapper::new(&mut fewer, Ram::holding(vec![7; 4]));
    assert_eq!(first.read(&fewer, 0), 7);
    assert_eq!(only.read(&units, 0), 9);
    assert_eq!(second.read(&fewer, 0), 0);
    second.write(&mut fewer, 0, 0x33);
    assert_eq!(only.read(&fewer, 0), 7);
    assert_eq!(fewer.len(), 1);
    let mut bus = Bus::new();
    bus.insert(0x0000..=0x0003, second);
    assert_eq!(bus.read(&units, 0x0000), 8);
    assert_eq!(bus.read(&fewer, 0x0000), 0);
    bus.write(&mut fewer, 0x0000, 0x44);
    assert_eq!(only.read(&fewer, 0), 7);
    assert_eq!(bus.read_u16(&fewer, 0x0000), 0);
}
