use vstd::prelude::*;
use crate::bus::offset_unit::local_address;
use crate::bus::unit::{read_at, Unit};
use crate::bus::{
    high_byte, low_byte, mounted, next_address, read_through, wired, word_of, written_through,
    Route,
};

verus! {

/// Whether a device in `state` keeps `byte` when it is written at `address`:
/// a read at `address` right after the write answers with `byte`.
pub open spec fn keeps<U: Unit>(state: U::State, address: u16, byte: u8) -> bool {
    U::peek(U::poke(state, address, byte), address) == byte
}

/// Whether a write of `byte` at `address` to a device in `state` leaves what
/// the device answers with at `other` as it was.
pub open spec fn spares<U: Unit>(state: U::State, address: u16, byte: u8, other: u16) -> bool {
    U::peek(U::poke(state, address, byte), other) == U::peek(state, other)
}

/// Whether `address` has a route, and the route leads to one of the first
/// `count` slots: on devices of that number the address leads to a device.
pub open spec fn driven(routes: Map<u16, Route>, count: nat, address: u16) -> bool {
    routes.contains_key(address) && routes[address].slot < count
}

/// The slot and the local address that a routed `address` leads to.
pub open spec fn cell(routes: Map<u16, Route>, address: u16) -> (nat, u16) {
    (routes[address].slot, local_address(address, routes[address].offset))
}

/// An address that leads to a device is driven, where every route leads to a device.
pub proof fn lemma_wired_is_driven(routes: Map<u16, Route>, count: nat, address: u16)
    requires
        wired(routes, count),
        routes.contains_key(address),
    ensures
        driven(routes, count, address),
{
}

/// A read at an address that has no route gives 0, whatever the devices hold.
pub proof fn lemma_unmapped_reads_zero<U: Unit>(
    routes: Map<u16, Route>,
    units: Seq<U::State>,
    address: u16,
)
    requires
        !routes.contains_key(address),
    ensures
        read_through::<U>(routes, units, address) == 0,
{
}

/// A write at an address that has no route changes no device.
pub proof fn lemma_unmapped_write_is_dropped<U: Unit>(
    routes: Map<u16, Route>,
    units: Seq<U::State>,
    address: u16,
    byte: u8,
)
    requires
        !routes.contains_key(address),
    ensures
        written_through::<U>(routes, units, address, byte) == units,
{
}

/// On a bus on which nothing was mounted, every read gives 0.
pub proof fn lemma_empty_bus_reads_zero<U: Unit>(units: Seq<U::State>, address: u16)
    ensures
        read_through::<U>(Map::<u16, Route>::empty(), units, address) == 0,
{
}

/// After a device was mounted from `start` to `end`, exactly the addresses
/// from `start` to `end`, both included, and those that had a route before
/// have one.
pub proof fn lemma_mount_covers_its_range(
    routes: Map<u16, Route>,
    start: u16,
    end: u16,
    slot: nat,
    address: u16,
)
    ensures
        routes.union_prefer_right(mounted(start, end, slot)).contains_key(address) <==> (start
            <= address <= end || routes.contains_key(address)),
{
}

/// After a device was mounted from `start` to `end`, a read at an address
/// from `start` to `end` gives what the device answers with at the distance
/// of the address from `start`.
pub proof fn lemma_read_after_insert<U: Unit>(
    routes: Map<u16, Route>,
    units: Seq<U::State>,
    start: u16,
    end: u16,
    slot: nat,
    address: u16,
)
    requires
        start <= address <= end,
    ensures
        read_through::<U>(routes.union_prefer_right(mounted(start, end, slot)), units, address)
            == read_at::<U>(units, slot, (address - start) as u16),
{
}

/// A mount leaves the routes of the addresses outside its range as they were.
pub proof fn lemma_insert_keeps_other_routes<U: Unit>(
    routes: Map<u16, Route>,
    units: Seq<U::State>,
    start: u16,
    end: u16,
    slot: nat,
    address: u16,
)
    requires
        !(start <= address <= end),
    ensures
        read_through::<U>(routes.union_prefer_right(mounted(start, end, slot)), units, address)
            == read_through::<U>(routes, units, address),
{
}

/// Routes that lead to the first `count` slots still do so after a mount of
/// one of these slots, and when more devices are added.
pub proof fn lemma_wired_is_kept(
    routes: Map<u16, Route>,
    count: nat,
    start: u16,
    end: u16,
    slot: nat,
    more: nat,
)
    requires
        wired(routes, count),
        slot < count,
        count <= more,
    ensures
        wired(routes.union_prefer_right(mounted(start, end, slot)), count),
        wired(routes, more),
{
    let after = routes.union_prefer_right(mounted(start, end, slot));
    assert forall|address: u16| #[trigger] after.contains_key(address) implies after[address].slot
        < count by {
        if !(start <= address <= end) {
            assert(routes.contains_key(address));
        }
    }
    assert forall|address: u16| #[trigger] routes.contains_key(address) implies routes[address].slot
        < more by {}
}

/// A write changes the state of no more than one device, and never their number.
pub proof fn lemma_write_keeps_count<U: Unit>(
    routes: Map<u16, Route>,
    units: Seq<U::State>,
    address: u16,
    byte: u8,
)
    ensures
        written_through::<U>(routes, units, address, byte).len() == units.len(),
        forall|slot: int|
            0 <= slot < units.len() && !(routes.contains_key(address) && routes[address].slot
                == slot) ==> written_through::<U>(routes, units, address, byte)[slot]
                == units[slot],
{
}

/// A byte written at a routed address is read back at that address, where
/// the device keeps the byte.
pub proof fn lemma_write_then_read<U: Unit>(
    routes: Map<u16, Route>,
    units: Seq<U::State>,
    address: u16,
    byte: u8,
)
    requires
        driven(routes, units.len(), address),
        keeps::<U>(units[cell(routes, address).0 as int], cell(routes, address).1, byte),
    ensures
        read_through::<U>(
            routes,
            written_through::<U>(routes, units, address, byte),
            address,
        ) == byte,
{
}

/// A byte written through one address is read back through every address
/// that leads to the same device at the same local address, where the device
/// keeps the byte.
pub proof fn lemma_shared_device<U: Unit>(
    routes: Map<u16, Route>,
    units: Seq<U::State>,
    written: u16,
    read: u16,
    byte: u8,
)
    requires
        driven(routes, units.len(), written),
        routes.contains_key(read),
        cell(routes, written) == cell(routes, read),
        keeps::<U>(units[cell(routes, written).0 as int], cell(routes, written).1, byte),
    ensures
        read_through::<U>(routes, written_through::<U>(routes, units, written, byte), read)
            == byte,
{
}

/// The same holds of two buses that share the devices: a byte written
/// through an address of one bus is read back through every address of the
/// other that leads to the same device at the same local address.
pub proof fn lemma_shared_across_buses<U: Unit>(
    writer: Map<u16, Route>,
    reader: Map<u16, Route>,
    units: Seq<U::State>,
    written: u16,
    read: u16,
    byte: u8,
)
    requires
        driven(writer, units.len(), written),
        reader.contains_key(read),
        cell(writer, written) == cell(reader, read),
        keeps::<U>(units[cell(writer, written).0 as int], cell(writer, written).1, byte),
    ensures
        read_through::<U>(reader, written_through::<U>(writer, units, written, byte), read)
            == byte,
{
}

/// A word is made of its two bytes, the more significant one first.
pub proof fn lemma_word_of_bytes(word: u16)
    ensures
        word_of(high_byte(word), low_byte(word)) == word,
{
}

/// The two bytes of a word made of `high` and `low` are `high` and `low`.
pub proof fn lemma_bytes_of_word(high: u8, low: u8)
    ensures
        high_byte(word_of(high, low)) == high,
        low_byte(word_of(high, low)) == low,
{
}

/// After a word was written at `address`, its more significant byte is read
/// at `address`, its less significant byte at the address after it, and the
/// word itself is read at `address`.
///
/// This holds where both addresses have a route and lead to two different
/// cells, each device keeps the byte it is handed, and the second write
/// leaves the first cell as it was.
pub proof fn lemma_write_word_then_read<U: Unit>(
    routes: Map<u16, Route>,
    units: Seq<U::State>,
    address: u16,
    word: u16,
)
    requires
        driven(routes, units.len(), address),
        driven(routes, units.len(), next_address(address)),
        cell(routes, address) != cell(routes, next_address(address)),
        keeps::<U>(
            units[cell(routes, address).0 as int],
            cell(routes, address).1,
            high_byte(word),
        ),
        keeps::<U>(
            written_through::<U>(routes, units, address, high_byte(word))[cell(
                routes,
                next_address(address),
            ).0 as int],
            cell(routes, next_address(address)).1,
            low_byte(word),
        ),
        cell(routes, address).0 == cell(routes, next_address(address)).0 ==> spares::<U>(
            written_through::<U>(routes, units, address, high_byte(word))[cell(
                routes,
                address,
            ).0 as int],
            cell(routes, next_address(address)).1,
            low_byte(word),
            cell(routes, address).1,
        ),
    ensures
        ({
            let after = written_through::<U>(
                routes,
                written_through::<U>(routes, units, address, high_byte(word)),
                next_address(address),
                low_byte(word),
            );
            &&& read_through::<U>(routes, after, address) == high_byte(word)
            &&& read_through::<U>(routes, after, next_address(address)) == low_byte(word)
            &&& word_of(
                read_through::<U>(routes, after, address),
                read_through::<U>(routes, after, next_address(address)),
            ) == word
        }),
{
}

} // verus!
