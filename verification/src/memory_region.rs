//! Guest memory regions and their permission flags.

use std::ops::Range;
use vstd::prelude::*;

verus! {

/// Whether bit number `i` is set in `bits`.
pub open spec fn bit_is_set(bits: u32, i: u32) -> bool {
    (bits >> i) & 1 == 1
}

/// The positions of the bits that are set in `bits`.
pub open spec fn bit_positions(bits: u32) -> Set<u32> {
    Set::new(|i: u32| i < 32 && bit_is_set(bits, i))
}

/// The low `k` bits of a word all set.
spec fn low_mask(k: u32) -> u64 {
    ((1u64 << k) - 1) as u64
}

proof fn lemma_low_bits_equal(a: u32, b: u32, k: u32)
    requires
        k <= 32,
        forall|i: u32| i < 32 ==> (#[trigger] bit_is_set(a, i) <==> bit_is_set(b, i)),
    ensures
        (a as u64) & low_mask(k) == (b as u64) & low_mask(k),
    decreases k,
{
    if k == 0 {
        assert((a as u64) & (((1u64 << k) - 1) as u64) == (b as u64) & (((1u64 << k) - 1) as u64))
            by (bit_vector)
            requires
                k == 0,
        ;
    } else {
        let j: u32 = (k - 1) as u32;
        lemma_low_bits_equal(a, b, j);
        assert(bit_is_set(a, j) <==> bit_is_set(b, j));
        assert((a as u64) & (((1u64 << k) - 1) as u64) == (b as u64) & (((1u64 << k) - 1) as u64))
            by (bit_vector)
            requires
                1 <= k <= 32,
                j == k - 1,
                (a as u64) & (((1u64 << j) - 1) as u64) == (b as u64) & (((1u64 << j) - 1) as u64),
                ((a >> j) & 1 == 1) <==> ((b >> j) & 1 == 1),
        ;
    }
}

/// Two words with the same bits set are the same word.
pub proof fn lemma_bits_extensional(a: u32, b: u32)
    requires
        forall|i: u32| i < 32 ==> (#[trigger] bit_is_set(a, i) <==> bit_is_set(b, i)),
    ensures
        a == b,
{
    lemma_low_bits_equal(a, b, 32);
    assert(a == b) by (bit_vector)
        requires
            (a as u64) & (((1u64 << 32u32) - 1) as u64) == (b as u64) & (((1u64 << 32u32)
                - 1) as u64),
    ;
}

proof fn lemma_bits_of_and(a: u32, b: u32)
    ensures
        forall|i: u32|
            i < 32 ==> (#[trigger] bit_is_set(a & b, i) <==> bit_is_set(a, i) && bit_is_set(b, i)),
{
    assert(forall|i: u32|
        i < 32 ==> ((((a & b) >> i) & 1 == 1) <==> ((a >> i) & 1 == 1) && ((b >> i) & 1 == 1)))
        by (bit_vector);
}

proof fn lemma_bits_of_or(a: u32, b: u32)
    ensures
        forall|i: u32|
            i < 32 ==> (#[trigger] bit_is_set(a | b, i) <==> bit_is_set(a, i) || bit_is_set(b, i)),
{
    assert(forall|i: u32|
        i < 32 ==> ((((a | b) >> i) & 1 == 1) <==> ((a >> i) & 1 == 1) || ((b >> i) & 1 == 1)))
        by (bit_vector);
}

proof fn lemma_bits_of_zero()
    ensures
        forall|i: u32| i < 32 ==> !#[trigger] bit_is_set(0, i),
{
    assert(forall|i: u32| i < 32 ==> !((0u32 >> i) & 1 == 1)) by (bit_vector);
}

/// A set of permission flags, one bit per flag.
#[derive(Clone, Copy, Debug, PartialEq, Eq, Structural)]
pub struct MemoryRegionFlags {
    pub bits: u32,
}

impl View for MemoryRegionFlags {
    type V = Set<u32>;

    /// The flags that are set, each named by the position of its bit.
    open spec fn view(&self) -> Set<u32> {
        bit_positions(self.bits)
    }
}

impl MemoryRegionFlags {
    /// No permission at all.
    pub open spec fn spec_none() -> MemoryRegionFlags {
        MemoryRegionFlags { bits: 0 }
    }

    /// The region may be read.
    pub open spec fn spec_read() -> MemoryRegionFlags {
        MemoryRegionFlags { bits: 1 }
    }

    /// The region may be written.
    pub open spec fn spec_write() -> MemoryRegionFlags {
        MemoryRegionFlags { bits: 2 }
    }

    /// The region may be executed.
    pub open spec fn spec_execute() -> MemoryRegionFlags {
        MemoryRegionFlags { bits: 4 }
    }

    /// The region is a stack guard: mapped, but never to be touched.
    pub open spec fn spec_stack_guard() -> MemoryRegionFlags {
        MemoryRegionFlags { bits: 8 }
    }

    /// No permission at all.
    #[verifier::when_used_as_spec(spec_none)]
    pub fn none() -> (flags: MemoryRegionFlags)
        ensures
            flags == Self::spec_none(),
    {
        MemoryRegionFlags { bits: 0 }
    }

    /// The region may be read.
    #[verifier::when_used_as_spec(spec_read)]
    pub fn read() -> (flags: MemoryRegionFlags)
        ensures
            flags == Self::spec_read(),
    {
        MemoryRegionFlags { bits: 1 }
    }

    /// The region may be written.
    #[verifier::when_used_as_spec(spec_write)]
    pub fn write() -> (flags: MemoryRegionFlags)
        ensures
            flags == Self::spec_write(),
    {
        MemoryRegionFlags { bits: 2 }
    }

    /// The region may be executed.
    #[verifier::when_used_as_spec(spec_execute)]
    pub fn execute() -> (flags: MemoryRegionFlags)
        ensures
            flags == Self::spec_execute(),
    {
        MemoryRegionFlags { bits: 4 }
    }

    /// The region is a stack guard: mapped, but never to be touched.
    #[verifier::when_used_as_spec(spec_stack_guard)]
    pub fn stack_guard() -> (flags: MemoryRegionFlags)
        ensures
            flags == Self::spec_stack_guard(),
    {
        MemoryRegionFlags { bits: 8 }
    }

    /// The flags whose bits are set in `bits`.
    pub fn from_bits(bits: u32) -> (flags: MemoryRegionFlags)
        ensures
            flags.bits == bits,
            flags@ == bit_positions(bits),
    {
        MemoryRegionFlags { bits }
    }

    /// The flags as one word.
    pub fn bits(&self) -> (bits: u32)
        ensures
            bits == self.bits,
            bit_positions(bits) == self@,
    {
        self.bits
    }

    /// Whether every flag of `other` is among these flags.
    pub fn contains(&self, other: MemoryRegionFlags) -> (all: bool)
        ensures
            all == other@.subset_of(self@),
    {
        proof {
            lemma_contains_is_subset(*self, other);
        }
        self.bits & other.bits == other.bits
    }

    /// Whether these flags and `other` have a flag in common.
    pub fn intersects(&self, other: MemoryRegionFlags) -> (some: bool)
        ensures
            some == !self@.disjoint(other@),
    {
        proof {
            lemma_intersects_is_overlap(*self, other);
        }
        self.bits & other.bits != 0
    }

    /// These flags together with those of `other`.
    pub fn union(self, other: MemoryRegionFlags) -> (both: MemoryRegionFlags)
        ensures
            both@ == self@.union(other@),
            both.bits == self.bits | other.bits,
    {
        proof {
            lemma_bits_of_or(self.bits, other.bits);
        }
        MemoryRegionFlags { bits: self.bits | other.bits }
    }
}

/// Masking with `other` leaves `other` unchanged exactly when `other` is a
/// subset of `flags`.
pub proof fn lemma_contains_is_subset(flags: MemoryRegionFlags, other: MemoryRegionFlags)
    ensures
        (flags.bits & other.bits == other.bits) <==> other@.subset_of(flags@),
{
    let a = flags.bits;
    let b = other.bits;
    lemma_bits_of_and(a, b);
    if a & b == b {
        assert forall|i: u32| other@.contains(i) implies flags@.contains(i) by {
            assert(bit_is_set(a & b, i));
        }
    }
    if other@.subset_of(flags@) {
        assert forall|i: u32| i < 32 implies (#[trigger] bit_is_set(a & b, i) <==> bit_is_set(
            b,
            i,
        )) by {
            if bit_is_set(b, i) {
                assert(other@.contains(i));
                assert(flags@.contains(i));
            }
        }
        lemma_bits_extensional(a & b, b);
    }
}

/// The mask of two flag sets is non-zero exactly when they share a flag.
pub proof fn lemma_intersects_is_overlap(flags: MemoryRegionFlags, other: MemoryRegionFlags)
    ensures
        (flags.bits & other.bits != 0) <==> !flags@.disjoint(other@),
{
    let a = flags.bits;
    let b = other.bits;
    lemma_bits_of_and(a, b);
    lemma_bits_of_zero();
    if flags@.disjoint(other@) {
        assert forall|i: u32| i < 32 implies (#[trigger] bit_is_set(a & b, i) <==> bit_is_set(
            0,
            i,
        )) by {
            if bit_is_set(a, i) && bit_is_set(b, i) {
                assert(flags@.contains(i) && other@.contains(i));
            }
        }
        lemma_bits_extensional(a & b, 0);
    } else {
        let i = choose|i: u32| flags@.contains(i) && other@.contains(i);
        assert(bit_is_set(a & b, i));
    }
}

/// What the named flags are: one bit each, at positions 0 to 3.
pub proof fn lemma_named_flags()
    ensures
        MemoryRegionFlags::none()@ == Set::<u32>::empty(),
        MemoryRegionFlags::read()@ == set![0u32],
        MemoryRegionFlags::write()@ == set![1u32],
        MemoryRegionFlags::execute()@ == set![2u32],
        MemoryRegionFlags::stack_guard()@ == set![3u32],
{
    assert(forall|i: u32| i < 32 ==> !((0u32 >> i) & 1 == 1)) by (bit_vector);
    assert(forall|i: u32| i < 32 ==> (((1u32 >> i) & 1 == 1) <==> i == 0)) by (bit_vector);
    assert(forall|i: u32| i < 32 ==> (((2u32 >> i) & 1 == 1) <==> i == 1)) by (bit_vector);
    assert(forall|i: u32| i < 32 ==> (((4u32 >> i) & 1 == 1) <==> i == 2)) by (bit_vector);
    assert(forall|i: u32| i < 32 ==> (((8u32 >> i) & 1 == 1) <==> i == 3)) by (bit_vector);
    assert(MemoryRegionFlags::none()@ =~= Set::<u32>::empty());
    assert(MemoryRegionFlags::read()@ =~= set![0u32]);
    assert(MemoryRegionFlags::write()@ =~= set![1u32]);
    assert(MemoryRegionFlags::execute()@ =~= set![2u32]);
    assert(MemoryRegionFlags::stack_guard()@ =~= set![3u32]);
}

/// A contiguous range of guest physical addresses with uniform permissions.
#[derive(Debug)]
pub struct MemoryRegion {
    /// The guest physical addresses of the region: `start` is inside, `end`
    /// is the first address past it.
    pub guest_region: Range<usize>,
    /// What the guest may do inside the region.
    pub flags: MemoryRegionFlags,
}

impl Clone for MemoryRegion {
    fn clone(&self) -> (copy: MemoryRegion)
        ensures
            copy == *self,
    {
        MemoryRegion {
            guest_region: self.guest_region.start..self.guest_region.end,
            flags: self.flags,
        }
    }
}

impl MemoryRegion {
    /// Whether `gpa` lies in the half-open range of the region.
    pub open spec fn covers(&self, gpa: usize) -> bool {
        self.guest_region.start <= gpa < self.guest_region.end
    }

    /// A region over `start..end` with the permissions `flags`.
    pub fn new(start: usize, end: usize, flags: MemoryRegionFlags) -> (region: MemoryRegion)
        ensures
            region.guest_region.start == start,
            region.guest_region.end == end,
            region.flags == flags,
    {
        MemoryRegion { guest_region: start..end, flags }
    }

    /// Whether the region holds the guest physical address `gpa`.
    pub fn contains(&self, gpa: usize) -> (inside: bool)
        ensures
            inside == self.covers(gpa),
    {
        self.guest_region.start <= gpa && gpa < self.guest_region.end
    }
}

} // verus!
