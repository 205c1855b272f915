use vstd::prelude::*;

verus! {

/// An element of the Cairo field, held as four 64-bit limbs, least
/// significant first.
#[derive(Clone, Copy, Debug, PartialEq, Eq, Structural)]
pub struct Felt252 {
    limbs0: u64,
    limbs1: u64,
    limbs2: u64,
    limbs3: u64,
}

impl Felt252 {
    /// The integer the limbs stand for.
    pub closed spec fn value(self) -> int {
        self.limbs0 + self.limbs1 * 0x1_0000_0000_0000_0000 + self.limbs2 * 0x1_0000_0000_0000_0000_0000_0000_0000_0000
            + self.limbs3 * 0x1_0000_0000_0000_0000_0000_0000_0000_0000_0000_0000_0000_0000
    }

    /// The field element of a 64-bit integer.
    pub fn from_u64(v: u64) -> (f: Felt252)
        ensures
            f.value() == v,
    {
        Felt252 { limbs0: v, limbs1: 0, limbs2: 0, limbs3: 0 }
    }

    /// The field's zero.
    pub fn zero() -> (f: Felt252)
        ensures
            f.value() == 0,
    {
        Felt252 { limbs0: 0, limbs1: 0, limbs2: 0, limbs3: 0 }
    }
}

/// An address in the VM's memory: a segment and an offset within it.
#[derive(Clone, Copy, Debug, PartialEq, Eq, Structural)]
pub struct Relocatable {
    pub segment_index: isize,
    pub offset: usize,
}

impl Relocatable {
    /// The address at the given segment and offset.
    pub fn new(segment_index: isize, offset: usize) -> (r: Relocatable)
        ensures
            r.segment_index == segment_index,
            r.offset == offset,
    {
        Relocatable { segment_index, offset }
    }
}

/// A value of the VM's memory: a field element or an address.
#[derive(Clone, Copy, Debug, PartialEq, Eq, Structural)]
pub enum MaybeRelocatable {
    RelocatableValue(Relocatable),
    Int(Felt252),
}

impl MaybeRelocatable {
    /// The memory value of an address given as a segment and an offset.
    pub fn from_segment_offset(segment_index: isize, offset: usize) -> (m: MaybeRelocatable)
        ensures
            m == MaybeRelocatable::RelocatableValue(Relocatable { segment_index, offset }),
    {
        MaybeRelocatable::RelocatableValue(Relocatable { segment_index, offset })
    }

    /// The memory value of a 64-bit integer.
    pub fn from_u64(v: u64) -> (m: MaybeRelocatable)
        ensures
            m matches MaybeRelocatable::Int(f) && f.value() == v,
    {
        MaybeRelocatable::Int(Felt252::from_u64(v))
    }
}

} // verus!
