//! Specialization constants of a shader stage.
//!
//! Constant `i` of an array of constants of one type is read at `i` times the size of the
//! type.

use vstd::prelude::*;

verus! {

/// Where one constant is read from (`VkSpecializationMapEntry`)
#[derive(Debug, Clone, Copy, PartialEq, Eq, Structural)]
pub struct SpecializationMapEntry {
    pub constant_id: u32,
    pub offset: u32,
    pub size: usize,
}

/// Specialization information handed to a stage (`VkSpecializationInfo`): the number of
/// map entries, the data size, and whether the entries and the data are pointed to
#[derive(Debug, Clone, Copy, PartialEq, Eq, Structural)]
pub struct SpecializationInfo {
    pub map_entry_count: u32,
    pub data_size: usize,
    pub points_to_data: bool,
}

/// Map entry of constant `i` of constants of `elem_size` bytes; the offset is truncated to
/// 32 bits.
pub open spec fn spec_map_entry(i: int, elem_size: usize) -> SpecializationMapEntry {
    SpecializationMapEntry { constant_id: i as u32, offset: (i * elem_size) as u32, size: elem_size }
}

/// Specialization constants made of an array of constants
#[derive(Debug)]
pub struct SpecializationConstant {
    i_map: Vec<SpecializationMapEntry>,
    i_info: SpecializationInfo,
}

impl SpecializationConstant {
    pub closed spec fn spec_map(&self) -> Seq<SpecializationMapEntry> { self.i_map@ }
    pub closed spec fn spec_info(&self) -> SpecializationInfo { self.i_info }

    /// Constants of an array of `count` values of `elem_size` bytes each. The information
    /// handed to the stage counts no entry and no data either way; only for an empty array
    /// does it point to the (empty) entries and data.
    pub fn new(count: usize, elem_size: usize) -> (r: SpecializationConstant)
        requires
            count * elem_size <= usize::MAX,
        ensures
            r.spec_map() == Seq::new(count as nat, |i: int| spec_map_entry(i, elem_size)),
            r.spec_info() == (SpecializationInfo { map_entry_count: 0, data_size: 0, points_to_data: count == 0 }),
    {
        let mut map_entry: Vec<SpecializationMapEntry> = Vec::new();
        let mut i: usize = 0;
        while i < count
            invariant
                count * elem_size <= usize::MAX,
                0 <= i <= count,
                map_entry@ == Seq::new(i as nat, |k: int| spec_map_entry(k, elem_size)),
            decreases count - i,
        {
            assert(i * elem_size <= count * elem_size) by (nonlinear_arith)
                requires i <= count;
            map_entry.push(SpecializationMapEntry {
                constant_id: i as u32,
                offset: (i * elem_size) as u32,
                size: elem_size,
            });
            i = i + 1;
            assert(map_entry@ =~= Seq::new(i as nat, |k: int| spec_map_entry(k, elem_size)));
        }
        let info = if count == 0 {
            SpecializationInfo { map_entry_count: map_entry.len() as u32, data_size: elem_size * count, points_to_data: true }
        } else {
            SpecializationInfo { map_entry_count: 0, data_size: 0, points_to_data: false }
        };
        SpecializationConstant { i_map: map_entry, i_info: info }
    }

    /// Map entries, one per constant
    pub fn map(&self) -> (r: &[SpecializationMapEntry])
        ensures
            r@ == self.spec_map(),
    {
        self.i_map.as_slice()
    }

    /// Specialization information
    pub fn info(&self) -> (r: SpecializationInfo)
        ensures
            r == self.spec_info(),
    {
        self.i_info
    }
}

} // verus!
