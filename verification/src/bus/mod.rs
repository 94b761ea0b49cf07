use std::cmp::Ordering;
use std::ops::RangeInclusive;
use vstd::prelude::*;
use vstd::std_specs::range::RangeInclusiveView;

pub mod laws;
pub mod memory_range;
pub mod offset_unit;
pub mod unit;
pub mod unit_wrapper;

use crate::bus::memory_range::MemoryRange;
use crate::bus::offset_unit::{local_address, OffsetUnit};
use crate::bus::unit::{read_at, written_at, RefUnit, Unit};
use crate::bus::unit_wrapper::{UnitWrapper, Units};

verus! {

/// `RangeInclusive::start` gives the lower bound of a range, as long as the
/// range has not been iterated to its end.
pub assume_specification<Idx>[ RangeInclusive::<Idx>::start ](range: &RangeInclusive<Idx>) -> (start:
    &Idx)
    ensures
        !range@.exhausted ==> *start == range@.start,
;

/// `RangeInclusive::end` gives the upper bound of a range, as long as the
/// range has not been iterated to its end.
pub assume_specification<Idx>[ RangeInclusive::<Idx>::end ](range: &RangeInclusive<Idx>) -> (end:
    &Idx)
    ensures
        !range@.exhausted ==> *end == range@.end,
;

/// Where a bus address leads: to the device in `slot`, which begins at the
/// bus address `offset`.
pub struct Route {
    pub slot: nat,
    pub offset: u16,
}

/// The routes of one mount: every address from `start` to `end` leads to the
/// device in `slot`, which begins at `start`.
pub open spec fn mounted(start: u16, end: u16, slot: nat) -> Map<u16, Route> {
    Map::new(|address: u16| start <= address <= end, |address: u16| Route { slot, offset: start })
}

/// Whether some address from `start` to `end` has a route.
pub open spec fn taken(routes: Map<u16, Route>, start: u16, end: u16) -> bool {
    exists|address: u16| start <= address <= end && #[trigger] routes.contains_key(address)
}

/// Why a range cannot be mounted.
#[derive(Clone, Copy, Debug, PartialEq, Eq, Structural)]
pub enum MountError {
    /// The range holds no address.
    Empty,
    /// The range holds an address that is mounted already.
    Overlap,
}

/// Whether `range` can be mounted on a bus with these routes: it must hold
/// an address, and none that has a route.
pub open spec fn admission(routes: Map<u16, Route>, range: RangeInclusiveView<u16>) -> Result<
    (),
    MountError,
> {
    if range.exhausted || range.start > range.end {
        Err(MountError::Empty)
    } else if taken(routes, range.start, range.end) {
        Err(MountError::Overlap)
    } else {
        Ok(())
    }
}

/// `RangeInclusive::is_empty` tells whether a range holds no item: it has
/// been iterated to its end, or its lower bound lies above its upper bound.
#[verifier::external_body]
fn holds_nothing(range: &RangeInclusive<u16>) -> (empty: bool)
    ensures
        empty == (range@.exhausted || range@.start > range@.end),
{
    range.is_empty()
}

/// Whether every route leads to one of the first `count` slots, so that on
/// devices of that number every routed address leads to a device.
pub open spec fn wired(routes: Map<u16, Route>, count: nat) -> bool {
    forall|address: u16| #[trigger]
        routes.contains_key(address) ==> routes[address].slot < count
}

/// The byte read at `address`: what the device that the address leads to
/// answers with at its local address, and 0 where the address leads nowhere.
pub open spec fn read_through<U: Unit>(
    routes: Map<u16, Route>,
    units: Seq<U::State>,
    address: u16,
) -> u8 {
    if routes.contains_key(address) {
        read_at::<U>(units, routes[address].slot, local_address(address, routes[address].offset))
    } else {
        0
    }
}

/// The devices after `byte` was written at `address`: the device that the
/// address leads to has taken the byte at its local address; where the
/// address leads nowhere, nothing has changed.
pub open spec fn written_through<U: Unit>(
    routes: Map<u16, Route>,
    units: Seq<U::State>,
    address: u16,
    byte: u8,
) -> Seq<U::State> {
    if routes.contains_key(address) {
        written_at::<U>(
            units,
            routes[address].slot,
            local_address(address, routes[address].offset),
            byte,
        )
    } else {
        units
    }
}

/// The address after `address`; the one after 0xFFFF is 0.
pub open spec fn next_address(address: u16) -> u16 {
    if address == 0xFFFF {
        0
    } else {
        (address + 1) as u16
    }
}

/// The more significant byte of `word`.
pub open spec fn high_byte(word: u16) -> u8 {
    (word / 256) as u8
}

/// The less significant byte of `word`.
pub open spec fn low_byte(word: u16) -> u8 {
    (word % 256) as u8
}

/// The word whose more significant byte is `high` and whose less significant byte is `low`.
pub open spec fn word_of(high: u8, low: u8) -> u16 {
    (256 * high + low) as u16
}

/// One mount: a range of addresses and the device that answers for it.
struct Mount {
    range: MemoryRange,
    unit: OffsetUnit,
}

impl Mount {
    spec fn route(&self) -> Route {
        Route { slot: self.unit.slot(), offset: self.unit.offset() }
    }
}

/// The address bus: a set of mounts, no two of which share an address.
pub struct Bus {
    mounts: Vec<Mount>,
}

impl View for Bus {
    type V = Map<u16, Route>;

    /// The route of each address that some mount covers.
    closed spec fn view(&self) -> Map<u16, Route> {
        routes(self.mounts@)
    }
}

/// The route of each address that some mount covers.
spec fn routes(mounts: Seq<Mount>) -> Map<u16, Route> {
    Map::new(
        |address: u16| exists|i: int| covers(mounts, i, address),
        |address: u16| mounts[index_of(mounts, address)].route(),
    )
}

/// Whether the mount at `i` covers `address`.
spec fn covers(mounts: Seq<Mount>, i: int, address: u16) -> bool {
    0 <= i < mounts.len() && mounts[i].range.contains(address)
}

/// The index of a mount that covers `address`, where there is one.
spec fn index_of(mounts: Seq<Mount>, address: u16) -> int {
    choose|i: int| covers(mounts, i, address)
}

/// The mounts are in order of their addresses and do not touch; each holds
/// an address, and its device begins where its range begins.
spec fn ordered(mounts: Seq<Mount>) -> bool {
    &&& forall|i: int|
        0 <= i < mounts.len() ==> (#[trigger] mounts[i]).range.inhabited() && mounts[i].unit.offset()
            == mounts[i].range.start()
    &&& forall|i: int, j: int|
        0 <= i < j < mounts.len() ==> (#[trigger] mounts[i]).range.before(
            &(#[trigger] mounts[j]).range,
        )
}

/// Whether the mount at `i` overlaps `probe`.
spec fn hit(mounts: Seq<Mount>, probe: &MemoryRange, i: usize) -> bool {
    i < mounts.len() && probe.overlaps(&mounts[i as int].range)
}

/// Whether `probe` fits between the mounts before `i` and those from `i` on.
spec fn gap(mounts: Seq<Mount>, probe: &MemoryRange, i: usize) -> bool {
    &&& i <= mounts.len()
    &&& forall|j: int| 0 <= j < i ==> (#[trigger] mounts[j]).range.before(probe)
    &&& forall|j: int| i <= j < mounts.len() ==> probe.before(&(#[trigger] mounts[j]).range)
}

/// In ordered mounts an address is covered by one mount at most.
proof fn lemma_one_cover(mounts: Seq<Mount>, i: int, j: int, address: u16)
    requires
        ordered(mounts),
        covers(mounts, i, address),
        covers(mounts, j, address),
    ensures
        i == j,
{
    if i < j {
        assert(mounts[i].range.before(&mounts[j].range));
    } else if j < i {
        assert(mounts[j].range.before(&mounts[i].range));
    }
}

/// The route of an address is that of the mount that covers it.
proof fn lemma_routes_at(mounts: Seq<Mount>, i: int, address: u16)
    requires
        ordered(mounts),
        covers(mounts, i, address),
    ensures
        routes(mounts).contains_key(address),
        routes(mounts)[address] == mounts[i].route(),
{
    lemma_one_cover(mounts, i, index_of(mounts, address), address);
}

impl Bus {
    #[verifier::type_invariant]
    spec fn well_formed(&self) -> bool {
        ordered(self.mounts@)
    }

    /// The route of an address is that of the mount that covers it.
    proof fn lemma_route(&self, i: int, address: u16)
        requires
            ordered(self.mounts@),
            covers(self.mounts@, i, address),
        ensures
            self@.contains_key(address),
            self@[address] == self.mounts@[i].route(),
    {
        lemma_routes_at(self.mounts@, i, address);
    }

    /// An address that no mount covers has no route.
    proof fn lemma_no_route(&self, address: u16)
        requires
            forall|i: int| !covers(self.mounts@, i, address),
        ensures
            !self@.contains_key(address),
    {
    }

    /// A mount that overlaps `probe` has a route at one of the addresses of `probe`.
    proof fn lemma_hit_is_taken(&self, probe: &MemoryRange, i: usize)
        requires
            ordered(self.mounts@),
            probe.inhabited(),
            hit(self.mounts@, probe, i),
        ensures
            taken(self@, probe.start(), probe.end()),
    {
        let mount = self.mounts@[i as int];
        let shared = if mount.range.start() >= probe.start() {
            mount.range.start()
        } else {
            probe.start()
        };
        self.lemma_route(i as int, shared);
        assert(probe.start() <= shared <= probe.end() && self@.contains_key(shared));
    }

    /// Where `probe` fits between the mounts, none of its addresses has a route.
    proof fn lemma_gap_is_free(&self, probe: &MemoryRange, i: usize)
        requires
            ordered(self.mounts@),
            gap(self.mounts@, probe, i),
        ensures
            !taken(self@, probe.start(), probe.end()),
    {
        assert forall|address: u16| probe.start() <= address <= probe.end() implies !self@.contains_key(
            address,
        ) by {
            if self@.contains_key(address) {
                let k = index_of(self.mounts@, address);
                assert(covers(self.mounts@, k, address));
                if k < i {
                    assert(self.mounts@[k].range.before(probe));
                } else {
                    assert(probe.before(&self.mounts@[k].range));
                }
            }
        }
    }

    pub fn new() -> (bus: Self)
        ensures
            bus@ == Map::<u16, Route>::empty(),
    {
        let bus = Self { mounts: Vec::new() };
        assert(bus@ =~= Map::<u16, Route>::empty());
        bus
    }

    /// Looks for a mount that overlaps `probe`: `Ok` with its index, or `Err`
    /// with the index at which a mount for `probe` would stand.
    fn search(&self, probe: &MemoryRange) -> (found: Result<usize, usize>)
        requires
            probe.inhabited(),
        ensures
            match found {
                Ok(i) => hit(self.mounts@, probe, i),
                Err(i) => gap(self.mounts@, probe, i),
            },
    {
        proof {
            use_type_invariant(self);
        }
        let mut low: usize = 0;
        let mut high: usize = self.mounts.len();
        while low < high
            invariant
                low <= high <= self.mounts@.len(),
                probe.inhabited(),
                ordered(self.mounts@),
                forall|j: int| 0 <= j < low ==> (#[trigger] self.mounts@[j]).range.before(probe),
                forall|j: int|
                    high <= j < self.mounts@.len() ==> probe.before(
                        &(#[trigger] self.mounts@[j]).range,
                    ),
            decreases high - low,
        {
            let middle: usize = low + (high - low) / 2;
            let mount = &self.mounts[middle];
            match probe.cmp(&mount.range) {
                Ordering::Less => {
                    high = middle;
                },
                Ordering::Greater => {
                    low = middle + 1;
                },
                Ordering::Equal => {
                    return Ok(middle);
                },
            }
        }
        Err(low)
    }

    /// Puts a mount for `key` at index `i`, between the mounts that lie
    /// before `key` and those that lie after it.
    fn place(&mut self, i: usize, key: MemoryRange, start: u16, unit: UnitWrapper)
        requires
            key.inhabited(),
            key.start() == start,
            gap(old(self).mounts@, &key, i),
        ensures
            final(self)@ == old(self)@.union_prefer_right(
                mounted(key.start(), key.end(), unit.index()),
            ),
    {
        proof {
            use_type_invariant(&*self);
        }
        let mut before = Bus { mounts: Vec::new() };
        std::mem::swap(self, &mut before);
        let ghost old_mounts = before.mounts@;
        let ghost end = key.end();
        let mut mounts = before.mounts;
        let mount = Mount { unit: OffsetUnit::new(start, unit), range: key };
        let ghost new_mount = mount;
        mounts.insert(i, mount);
        proof {
            lemma_insert_routes(
                old_mounts,
                mounts@,
                new_mount,
                i as int,
                start,
                end,
                unit.index(),
            );
        }
        *self = Bus { mounts };
    }

    /// Mounts the device behind `unit` at the addresses of `range`; the
    /// device begins at the first of them.
    ///
    /// The range must hold an address, and none that is mounted already.
    pub fn insert(&mut self, range: RangeInclusive<u16>, unit: UnitWrapper)
        requires
            admission(old(self)@, range@) is Ok,
        ensures
            final(self)@ == old(self)@.union_prefer_right(
                mounted(range@.start, range@.end, unit.index()),
            ),
    {
        proof {
            use_type_invariant(&*self);
        }
        let start = *range.start();
        let key = MemoryRange::new(start, *range.end());
        match self.search(&key) {
            Ok(i) => {
                proof {
                    self.lemma_hit_is_taken(&key, i);
                }
            },
            Err(i) => {
                self.place(i, key, start, unit);
            },
        }
    }

    /// Mounts the device behind `unit` at the addresses of `range`, as
    /// `insert` does, unless the range holds no address or holds one that is
    /// mounted already: the bus is then left as it was.
    pub fn try_insert(&mut self, range: RangeInclusive<u16>, unit: UnitWrapper) -> (result: Result<
        (),
        MountError,
    >)
        ensures
            result == admission(old(self)@, range@),
            result is Ok ==> final(self)@ == old(self)@.union_prefer_right(
                mounted(range@.start, range@.end, unit.index()),
            ),
            result is Err ==> final(self)@ == old(self)@,
    {
        proof {
            use_type_invariant(&*self);
        }
        if holds_nothing(&range) {
            return Err(MountError::Empty);
        }
        let start = *range.start();
        let key = MemoryRange::new(start, *range.end());
        match self.search(&key) {
            Ok(i) => {
                proof {
                    self.lemma_hit_is_taken(&key, i);
                }
                Err(MountError::Overlap)
            },
            Err(i) => {
                proof {
                    self.lemma_gap_is_free(&key, i);
                }
                self.place(i, key, start, unit);
                Ok(())
            },
        }
    }

    /// Reads the byte at `address` from the device that the address leads
    /// to; 0 where it leads nowhere.
    pub fn read<U: Unit>(&self, units: &Units<U>, address: u16) -> (byte: u8)
        ensures
            byte == read_through::<U>(self@, units@, address),
    {
        proof {
            use_type_invariant(self);
        }
        let probe = MemoryRange::from_address(address);
        match self.search(&probe) {
            Ok(i) => {
                proof {
                    self.lemma_route(i as int, address);
                }
                self.mounts[i].unit.read(units, address)
            },
            Err(i) => {
                proof {
                    self.lemma_no_route(address);
                }
                0
            },
        }
    }

    /// Writes `byte` at `address` to the device that the address leads to;
    /// where it leads nowhere, the byte is dropped.
    pub fn write<U: Unit>(&self, units: &mut Units<U>, address: u16, byte: u8)
        ensures
            final(units)@ == written_through::<U>(self@, old(units)@, address, byte),
    {
        proof {
            use_type_invariant(self);
        }
        let probe = MemoryRange::from_address(address);
        match self.search(&probe) {
            Ok(i) => {
                proof {
                    self.lemma_route(i as int, address);
                }
                self.mounts[i].unit.write(units, address, byte)
            },
            Err(i) => {
                proof {
                    self.lemma_no_route(address);
                }
            },
        }
    }

    /// Reads the word whose more significant byte is at `address` and whose
    /// less significant byte is at the address after it.
    pub fn read_u16<U: Unit>(&self, units: &Units<U>, address: u16) -> (word: u16)
        ensures
            word == word_of(
                read_through::<U>(self@, units@, address),
                read_through::<U>(self@, units@, next_address(address)),
            ),
    {
        let high = self.read(units, address);
        let low = self.read(units, address.wrapping_add(1));
        high as u16 * 256 + low as u16
    }

    /// Writes the more significant byte of `word` at `address`, then the less
    /// significant one at the address after it.
    pub fn write_u16<U: Unit>(&self, units: &mut Units<U>, address: u16, word: u16)
        ensures
            final(units)@ == written_through::<U>(
                self@,
                written_through::<U>(self@, old(units)@, address, high_byte(word)),
                next_address(address),
                low_byte(word),
            ),
    {
        self.write(units, address, (word / 256) as u8);
        self.write(units, address.wrapping_add(1), (word % 256) as u8)
    }
}

/// What a new mount at index `i` does to the routes of a bus.
proof fn lemma_insert_routes(
    old_mounts: Seq<Mount>,
    new_mounts: Seq<Mount>,
    mount: Mount,
    i: int,
    start: u16,
    end: u16,
    slot: nat,
)
    requires
        ordered(old_mounts),
        0 <= i <= old_mounts.len(),
        start <= end,
        forall|j: int| 0 <= j < i ==> (#[trigger] old_mounts[j]).range.end() < start,
        forall|j: int| i <= j < old_mounts.len() ==> end < (#[trigger] old_mounts[j]).range.start(),
        new_mounts == old_mounts.insert(i, mount),
        mount.range.start() == start,
        mount.range.end() == end,
        mount.unit.offset() == start,
        mount.unit.slot() == slot,
    ensures
        ordered(new_mounts),
        routes(new_mounts) == routes(old_mounts).union_prefer_right(mounted(start, end, slot)),
{
    assert(ordered(new_mounts)) by {
        assert forall|a: int, b: int| 0 <= a < b < new_mounts.len() implies (
        #[trigger] new_mounts[a]).range.before(&(#[trigger] new_mounts[b]).range) by {
            let x = if a < i { a } else { a - 1 };
            let y = if b < i { b } else { b - 1 };
            if a != i && b != i {
                assert(old_mounts[x].range.before(&old_mounts[y].range));
            } else if a == i {
                assert(end < old_mounts[y].range.start());
            } else {
                assert(old_mounts[x].range.end() < start);
            }
        }
        assert forall|a: int| 0 <= a < new_mounts.len() implies (
        #[trigger] new_mounts[a]).range.inhabited() && new_mounts[a].unit.offset()
            == new_mounts[a].range.start() by {
            let x = if a < i { a } else { a - 1 };
            if a != i {
                assert(old_mounts[x].range.inhabited());
            }
        }
    }
    let expected = routes(old_mounts).union_prefer_right(mounted(start, end, slot));
    assert forall|address: u16|
        (#[trigger] routes(new_mounts).dom().contains(address)) == expected.dom().contains(address)
            && (routes(new_mounts).dom().contains(address) ==> routes(new_mounts)[address]
            == expected[address]) by {
        if start <= address <= end {
            assert(covers(new_mounts, i, address));
            lemma_routes_at(new_mounts, i, address);
        } else if routes(old_mounts).contains_key(address) {
            let k = index_of(old_mounts, address);
            assert(covers(old_mounts, k, address));
            let moved = if k < i { k } else { k + 1 };
            assert(new_mounts[moved] == old_mounts[k]);
            assert(covers(new_mounts, moved, address));
            lemma_routes_at(new_mounts, moved, address);
            lemma_routes_at(old_mounts, k, address);
        } else if routes(new_mounts).contains_key(address) {
            let k = index_of(new_mounts, address);
            assert(covers(new_mounts, k, address));
            let origin = if k < i { k } else { k - 1 };
            assert(new_mounts[k] == old_mounts[origin]);
            assert(covers(old_mounts, origin, address));
            assert(false);
        }
    }
    assert(routes(new_mounts) =~= expected);
}

} // verus!
