use std::cmp::Ordering;
use vstd::prelude::*;

verus! {

/// An inclusive interval of bus addresses, from `start` to `end`.
///
/// Two ranges are ordered by position: one is less than another when it lies
/// wholly before it, greater when it lies wholly after it, and equal to it
/// when the two share an address. A range of one address therefore compares
/// equal to exactly the ranges that contain that address.
pub struct MemoryRange {
    start: u16,
    end: u16,
}

impl MemoryRange {
    /// The first address of the range.
    pub closed spec fn start(&self) -> u16 {
        self.start
    }

    /// The last address of the range.
    pub closed spec fn end(&self) -> u16 {
        self.end
    }

    /// Whether `address` lies between the two ends of the range.
    pub open spec fn contains(&self, address: u16) -> bool {
        self.start() <= address <= self.end()
    }

    /// Whether the range holds at least one address.
    pub open spec fn inhabited(&self) -> bool {
        self.start() <= self.end()
    }

    /// Whether the range lies wholly before `other`.
    pub open spec fn before(&self, other: &MemoryRange) -> bool {
        self.end() < other.start()
    }

    /// Whether the range lies wholly after `other`.
    pub open spec fn after(&self, other: &MemoryRange) -> bool {
        self.start() > other.end()
    }

    /// Whether the range neither lies wholly before `other` nor wholly after it.
    pub open spec fn overlaps(&self, other: &MemoryRange) -> bool {
        !self.before(other) && !self.after(other)
    }

    /// The three-way comparison by position.
    pub open spec fn order(&self, other: &MemoryRange) -> Ordering {
        if self.before(other) {
            Ordering::Less
        } else if self.after(other) {
            Ordering::Greater
        } else {
            Ordering::Equal
        }
    }

    pub fn new(start: u16, end: u16) -> (range: Self)
        ensures
            range.start() == start,
            range.end() == end,
    {
        Self { start, end }
    }

    pub fn from_address(address: u16) -> (range: Self)
        ensures
            range.start() == address,
            range.end() == address,
    {
        Self { start: address, end: address }
    }

    pub fn cmp(&self, other: &Self) -> (ordering: Ordering)
        ensures
            ordering == self.order(other),
    {
        if self.end < other.start {
            Ordering::Less
        } else if self.start > other.end {
            Ordering::Greater
        } else {
            Ordering::Equal
        }
    }

    /// Two inhabited ranges compare equal exactly when some address lies in both.
    pub proof fn lemma_equal_iff_overlap(a: MemoryRange, b: MemoryRange)
        requires
            a.inhabited(),
            b.inhabited(),
        ensures
            a.order(&b) == Ordering::Equal <==> exists|address: u16|
                a.contains(address) && b.contains(address),
    {
        if a.order(&b) == Ordering::Equal {
            let witness = if a.start() >= b.start() {
                a.start()
            } else {
                b.start()
            };
            assert(a.contains(witness) && b.contains(witness));
        }
    }

    /// A range of one address compares equal to exactly the inhabited ranges
    /// that contain the address.
    pub proof fn lemma_probe_equal_iff_contains(address: u16, probe: MemoryRange, range: MemoryRange)
        requires
            probe.start() == address,
            probe.end() == address,
        ensures
            probe.order(&range) == Ordering::Equal <==> range.contains(address),
    {
    }

    /// Comparing in the other direction gives the mirrored answer, for inhabited ranges.
    pub proof fn lemma_order_mirrored(a: MemoryRange, b: MemoryRange)
        requires
            a.inhabited(),
            b.inhabited(),
        ensures
            a.order(&b) == Ordering::Less <==> b.order(&a) == Ordering::Greater,
            a.order(&b) == Ordering::Equal <==> b.order(&a) == Ordering::Equal,
    {
    }
}

/// `==` on ranges: whether the two share an address.
impl PartialEq for MemoryRange {
    fn eq(&self, other: &Self) -> (equal: bool) {
        match self.cmp(other) {
            Ordering::Equal => true,
            _ => false,
        }
    }
}

impl vstd::std_specs::cmp::PartialEqSpecImpl for MemoryRange {
    open spec fn obeys_eq_spec() -> bool {
        true
    }

    open spec fn eq_spec(&self, other: &Self) -> bool {
        self.overlaps(other)
    }
}

impl Eq for MemoryRange {

}

/// `<` and `>` on ranges: whether one lies wholly before or wholly after the other.
impl PartialOrd for MemoryRange {
    fn partial_cmp(&self, other: &Self) -> (ordering: Option<Ordering>) {
        Some(self.cmp(other))
    }
}

impl vstd::std_specs::cmp::PartialOrdSpecImpl for MemoryRange {
    open spec fn obeys_partial_cmp_spec() -> bool {
        true
    }

    open spec fn partial_cmp_spec(&self, other: &Self) -> Option<Ordering> {
        Some(self.order(other))
    }
}

} // verus!
