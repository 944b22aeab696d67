//! Memory type range registers (MTRRs): which memory type the processor
//! assigns to each physical address.
//!
//! The registers are read by the caller. [`Mtrr::new`] turns them into a list
//! of disjoint intervals, each with one memory type, and [`Mtrr::find`]
//! answers for a range of addresses that lies within one of them.
use vstd::prelude::*;
use core::ops::Range;
use crate::bits::bit;

verus! {

/// The end of the physical address space as far as this module looks at it.
/// The last interval ends here, and no range of addresses reaches further.
pub const ADDRESS_SPACE_END: u64 = u64::MAX;

/// Bits 51:12, which hold the page number in `IA32_MTRR_PHYSBASEn` and
/// `IA32_MTRR_PHYSMASKn`.
pub const PHYSICAL_PAGE_MASK: u64 = 0x000f_ffff_ffff_f000;

/// Bit 11 of `IA32_MTRR_PHYSMASKn`: the pair of registers is in use.
pub const PHYSMASK_VALID: u64 = 0x800;

/// Bit 11 of `IA32_MTRR_DEF_TYPE`: MTRRs are enabled.
pub const DEF_TYPE_ENABLE: u64 = 0x800;

/// Bit 10 of `IA32_MTRR_DEF_TYPE`: the fixed-range MTRRs are enabled.
pub const DEF_TYPE_FIXED_ENABLE: u64 = 0x400;

/// The number of ranges that the fixed-range MTRRs describe.
pub const FIXED_RANGE_COUNT: usize = 88;

/// The memory types that an MTRR can name.
#[derive(Clone, Copy, Debug, PartialEq, Eq, Structural)]
pub enum MemoryType {
    Uncacheable,
    WriteCombining,
    WriteThrough,
    WriteProtected,
    WriteBack,
}

impl MemoryType {
    /// The encoding of the memory type.
    pub open spec fn spec_value(self) -> u64 {
        match self {
            MemoryType::Uncacheable => 0,
            MemoryType::WriteCombining => 1,
            MemoryType::WriteThrough => 4,
            MemoryType::WriteProtected => 5,
            MemoryType::WriteBack => 6,
        }
    }

    /// The encoding of the memory type.
    #[verifier::when_used_as_spec(spec_value)]
    pub fn value(self) -> (value: u64)
        ensures
            value == self.spec_value(),
    {
        match self {
            MemoryType::Uncacheable => 0,
            MemoryType::WriteCombining => 1,
            MemoryType::WriteThrough => 4,
            MemoryType::WriteProtected => 5,
            MemoryType::WriteBack => 6,
        }
    }

    /// The memory type that `raw` encodes, if it encodes one.
    pub open spec fn spec_from_raw(raw: u8) -> Option<MemoryType> {
        if raw == 0 {
            Some(MemoryType::Uncacheable)
        } else if raw == 1 {
            Some(MemoryType::WriteCombining)
        } else if raw == 4 {
            Some(MemoryType::WriteThrough)
        } else if raw == 5 {
            Some(MemoryType::WriteProtected)
        } else if raw == 6 {
            Some(MemoryType::WriteBack)
        } else {
            None
        }
    }

    /// The memory type that `raw` encodes, if it encodes one.
    #[verifier::when_used_as_spec(spec_from_raw)]
    pub fn from_raw(raw: u8) -> (memory_type: Option<MemoryType>)
        ensures
            memory_type == Self::spec_from_raw(raw),
    {
        if raw == 0 {
            Some(MemoryType::Uncacheable)
        } else if raw == 1 {
            Some(MemoryType::WriteCombining)
        } else if raw == 4 {
            Some(MemoryType::WriteThrough)
        } else if raw == 5 {
            Some(MemoryType::WriteProtected)
        } else if raw == 6 {
            Some(MemoryType::WriteBack)
        } else {
            None
        }
    }
}

/// The MTRRs as read from the processor.
#[derive(Debug)]
pub struct RawMtrrs {
    /// `IA32_MTRR_DEF_TYPE`.
    pub default_type: u64,
    /// The fixed-range registers, from `IA32_MTRR_FIX64K_00000` to
    /// `IA32_MTRR_FIX4K_F8000`.
    pub fixed: [u64; 11],
    /// The variable-range registers: each `IA32_MTRR_PHYSBASEn` with its
    /// `IA32_MTRR_PHYSMASKn`.
    pub variable: Vec<(u64, u64)>,
}

/// What one register says: the addresses from `base` up to, not including,
/// `end` have the memory type that `memory_type` encodes. A register that is
/// not in use yields an empty range.
#[derive(Clone, Copy, Debug, PartialEq, Eq, Structural)]
pub struct MtrrRange {
    pub base: u64,
    pub end: u64,
    pub memory_type: u8,
    /// Whether the range comes from a fixed-range register.
    pub fixed: bool,
}

impl MtrrRange {
    /// Whether the range holds the address.
    pub open spec fn contains(self, address: u64) -> bool {
        self.base <= address < self.end
    }
}

/// The lowest byte of `value`.
pub open spec fn spec_low_byte(value: u64) -> u8 {
    (value % 0x100) as u8
}

/// The lowest byte of `value`.
#[verifier::when_used_as_spec(spec_low_byte)]
pub fn low_byte(value: u64) -> (byte: u8)
    ensures
        byte == spec_low_byte(value),
{
    assert(value & 0xff == value % 0x100) by (bit_vector);
    (value & 0xff) as u8
}

/// Byte `index` of `value`.
pub open spec fn spec_byte_of(value: u64, index: u64) -> u8 {
    ((value >> (8 * index)) & 0xff) as u8
}

/// Byte `index` of `value`.
#[verifier::when_used_as_spec(spec_byte_of)]
pub fn byte_of(value: u64, index: u64) -> (byte: u8)
    requires
        index < 8,
    ensures
        byte == spec_byte_of(value, index),
{
    let shift: u64 = 8 * index;
    assert((value >> shift) & 0xff <= 0xff) by (bit_vector);
    ((value >> shift) & 0xff) as u8
}

/// The `k`-th range of the fixed-range registers: eight of 64 KiB from
/// address zero, sixteen of 16 KiB from 0x80000, sixty-four of 4 KiB from
/// 0xC0000. Its type is byte `k % 8` of register `k / 8`.
pub open spec fn spec_fixed_range(fixed: Seq<u64>, k: int) -> MtrrRange {
    let memory_type = spec_byte_of(fixed[k / 8], (k % 8) as u64);
    if k < 8 {
        MtrrRange {
            base: (k * 0x10000) as u64,
            end: (k * 0x10000 + 0x10000) as u64,
            memory_type,
            fixed: true,
        }
    } else if k < 24 {
        MtrrRange {
            base: (0x80000 + (k - 8) * 0x4000) as u64,
            end: (0x80000 + (k - 8) * 0x4000 + 0x4000) as u64,
            memory_type,
            fixed: true,
        }
    } else {
        MtrrRange {
            base: (0xC0000 + (k - 24) * 0x1000) as u64,
            end: (0xC0000 + (k - 24) * 0x1000 + 0x1000) as u64,
            memory_type,
            fixed: true,
        }
    }
}

/// The `k`-th range of the fixed-range registers.
pub fn fixed_range(fixed: &[u64; 11], k: usize) -> (range: MtrrRange)
    requires
        k < FIXED_RANGE_COUNT,
    ensures
        range == spec_fixed_range(fixed@, k as int),
{
    let memory_type = byte_of(fixed[k / 8], (k % 8) as u64);
    let k64: u64 = k as u64;
    if k < 8 {
        MtrrRange { base: k64 * 0x10000, end: k64 * 0x10000 + 0x10000, memory_type, fixed: true }
    } else if k < 24 {
        MtrrRange {
            base: 0x80000 + (k64 - 8) * 0x4000,
            end: 0x80000 + (k64 - 8) * 0x4000 + 0x4000,
            memory_type,
            fixed: true,
        }
    } else {
        MtrrRange {
            base: 0xC0000 + (k64 - 24) * 0x1000,
            end: 0xC0000 + (k64 - 24) * 0x1000 + 0x1000,
            memory_type,
            fixed: true,
        }
    }
}

/// The size of the range that a mask selects: its lowest bit that is set.
pub open spec fn spec_mask_size(mask: u64) -> u64 {
    (((mask ^ ((mask - 1) as u64)) >> 1) + 1) as u64
}

/// The range of a pair of variable-range registers. An address belongs to
/// it where it agrees with the base in the bits of the mask; with a mask of
/// contiguous high bits these are the addresses from the base, cleared below
/// the mask, over the size of the lowest bit of the mask. An empty mask
/// selects every address.
pub open spec fn spec_variable_range(physbase: u64, physmask: u64) -> MtrrRange {
    let memory_type = spec_low_byte(physbase);
    let mask = physmask & PHYSICAL_PAGE_MASK;
    if !bit(physmask, PHYSMASK_VALID) {
        MtrrRange { base: 0, end: 0, memory_type, fixed: false }
    } else if mask == 0 {
        MtrrRange { base: 0, end: ADDRESS_SPACE_END, memory_type, fixed: false }
    } else {
        MtrrRange {
            base: physbase & mask,
            end: ((physbase & mask) + spec_mask_size(mask)) as u64,
            memory_type,
            fixed: false,
        }
    }
}

/// The range of a pair of variable-range registers.
pub fn variable_range(physbase: u64, physmask: u64) -> (range: MtrrRange)
    ensures
        range == spec_variable_range(physbase, physmask),
        range.base <= range.end,
{
    let memory_type = low_byte(physbase);
    let mask = physmask & PHYSICAL_PAGE_MASK;
    if !bit(physmask, PHYSMASK_VALID) {
        MtrrRange { base: 0, end: 0, memory_type, fixed: false }
    } else if mask == 0 {
        MtrrRange { base: 0, end: ADDRESS_SPACE_END, memory_type, fixed: false }
    } else {
        let below: u64 = mask - 1;
        assert(((mask ^ below) >> 1) <= 0x0007_ffff_ffff_ffff && (physbase & mask)
            <= 0x000f_ffff_ffff_f000) by (bit_vector)
            requires
                mask == physmask & 0x000f_ffff_ffff_f000,
                mask != 0,
                below == (mask - 1) as u64,
        ;
        let size: u64 = ((mask ^ below) >> 1) + 1;
        let base: u64 = physbase & mask;
        MtrrRange { base, end: base + size, memory_type, fixed: false }
    }
}

impl RawMtrrs {
    /// Whether MTRRs are enabled at all.
    pub open spec fn enabled(&self) -> bool {
        bit(self.default_type, DEF_TYPE_ENABLE)
    }

    /// Whether the fixed-range registers are in force.
    pub open spec fn fixed_enabled(&self) -> bool {
        self.enabled() && bit(self.default_type, DEF_TYPE_FIXED_ENABLE)
    }

    /// The encoding of the memory type of addresses that no register names.
    pub open spec fn default_memory_type(&self) -> u8 {
        spec_low_byte(self.default_type)
    }

    /// The ranges of the fixed-range registers, if they are in force.
    pub open spec fn fixed_ranges(&self) -> Seq<MtrrRange> {
        if self.fixed_enabled() {
            Seq::new(FIXED_RANGE_COUNT as nat, |k: int| spec_fixed_range(self.fixed@, k))
        } else {
            Seq::empty()
        }
    }

    /// The ranges of the variable-range registers.
    pub open spec fn variable_ranges(&self) -> Seq<MtrrRange> {
        Seq::new(
            self.variable@.len(),
            |i: int| spec_variable_range(self.variable@[i].0, self.variable@[i].1),
        )
    }

    /// The ranges of all registers: those of the fixed-range registers, then
    /// those of the variable-range registers.
    pub open spec fn ranges(&self) -> Seq<MtrrRange> {
        self.fixed_ranges() + self.variable_ranges()
    }
}

/// Which registers name an address: the type of the fixed range that holds
/// it, if one does, and which memory types the variable ranges that hold it
/// have.
#[derive(Clone, Copy, Debug, PartialEq, Eq, Structural)]
pub struct Overlap {
    pub fixed: Option<u8>,
    pub matched: bool,
    pub reserved: bool,
    pub uncacheable: bool,
    pub write_combining: bool,
    pub write_through: bool,
    pub write_protected: bool,
    pub write_back: bool,
}

impl Overlap {
    /// The overlap of an address that no register names.
    pub open spec fn none() -> Overlap {
        Overlap {
            fixed: None,
            matched: false,
            reserved: false,
            uncacheable: false,
            write_combining: false,
            write_through: false,
            write_protected: false,
            write_back: false,
        }
    }

    /// The overlap with one more range that holds the address.
    pub open spec fn spec_with(self, range: MtrrRange) -> Overlap {
        if range.fixed {
            Overlap { fixed: Some(range.memory_type), ..self }
        } else {
            match MemoryType::from_raw(range.memory_type) {
                None => Overlap { matched: true, reserved: true, ..self },
                Some(MemoryType::Uncacheable) => Overlap {
                    matched: true,
                    uncacheable: true,
                    ..self
                },
                Some(MemoryType::WriteCombining) => Overlap {
                    matched: true,
                    write_combining: true,
                    ..self
                },
                Some(MemoryType::WriteThrough) => Overlap {
                    matched: true,
                    write_through: true,
                    ..self
                },
                Some(MemoryType::WriteProtected) => Overlap {
                    matched: true,
                    write_protected: true,
                    ..self
                },
                Some(MemoryType::WriteBack) => Overlap { matched: true, write_back: true, ..self },
            }
        }
    }

    /// The overlap with one more range that holds the address.
    #[verifier::when_used_as_spec(spec_with)]
    pub fn with(self, range: MtrrRange) -> (overlap: Overlap)
        ensures
            overlap == self.spec_with(range),
    {
        let mut overlap = self;
        if range.fixed {
            overlap.fixed = Some(range.memory_type);
        } else {
            overlap.matched = true;
            match MemoryType::from_raw(range.memory_type) {
                None => {
                    overlap.reserved = true;
                },
                Some(MemoryType::Uncacheable) => {
                    overlap.uncacheable = true;
                },
                Some(MemoryType::WriteCombining) => {
                    overlap.write_combining = true;
                },
                Some(MemoryType::WriteThrough) => {
                    overlap.write_through = true;
                },
                Some(MemoryType::WriteProtected) => {
                    overlap.write_protected = true;
                },
                Some(MemoryType::WriteBack) => {
                    overlap.write_back = true;
                },
            }
        }
        overlap
    }

    /// The memory type of an address with this overlap. A fixed range
    /// decides. Without one, no variable range leaves the default type; among
    /// variable ranges "uncacheable" wins, equal types agree, and "write
    /// through" wins over "write back". Any other mixture, and any encoding
    /// that names no memory type, leaves the address without a type.
    pub open spec fn spec_resolve(self, default_memory_type: u8) -> Option<MemoryType> {
        if self.fixed is Some {
            MemoryType::from_raw(self.fixed->0)
        } else if !self.matched {
            MemoryType::from_raw(default_memory_type)
        } else if self.reserved {
            None
        } else if self.uncacheable {
            Some(MemoryType::Uncacheable)
        } else if self.write_combining {
            if self.write_through || self.write_protected || self.write_back {
                None
            } else {
                Some(MemoryType::WriteCombining)
            }
        } else if self.write_protected {
            if self.write_through || self.write_back {
                None
            } else {
                Some(MemoryType::WriteProtected)
            }
        } else if self.write_through {
            Some(MemoryType::WriteThrough)
        } else if self.write_back {
            Some(MemoryType::WriteBack)
        } else {
            None
        }
    }

    /// The memory type of an address with this overlap.
    #[verifier::when_used_as_spec(spec_resolve)]
    pub fn resolve(self, default_memory_type: u8) -> (memory_type: Option<MemoryType>)
        ensures
            memory_type == self.spec_resolve(default_memory_type),
    {
        match self.fixed {
            Some(fixed) => {
                return MemoryType::from_raw(fixed);
            },
            None => {},
        }
        if !self.matched {
            MemoryType::from_raw(default_memory_type)
        } else if self.reserved {
            None
        } else if self.uncacheable {
            Some(MemoryType::Uncacheable)
        } else if self.write_combining {
            if self.write_through || self.write_protected || self.write_back {
                None
            } else {
                Some(MemoryType::WriteCombining)
            }
        } else if self.write_protected {
            if self.write_through || self.write_back {
                None
            } else {
                Some(MemoryType::WriteProtected)
            }
        } else if self.write_through {
            Some(MemoryType::WriteThrough)
        } else if self.write_back {
            Some(MemoryType::WriteBack)
        } else {
            None
        }
    }
}

/// Which of `ranges` name `address`.
pub open spec fn overlap_at(ranges: Seq<MtrrRange>, address: u64) -> Overlap
    decreases ranges.len(),
{
    if ranges.len() == 0 {
        Overlap::none()
    } else if ranges.last().contains(address) {
        overlap_at(ranges.drop_last(), address).with(ranges.last())
    } else {
        overlap_at(ranges.drop_last(), address)
    }
}

/// The memory type that the registers give to `address`: "uncacheable"
/// while MTRRs are disabled.
pub open spec fn memory_type_at(
    enabled: bool,
    default_memory_type: u8,
    ranges: Seq<MtrrRange>,
    address: u64,
) -> Option<MemoryType> {
    if enabled {
        overlap_at(ranges, address).resolve(default_memory_type)
    } else {
        Some(MemoryType::Uncacheable)
    }
}

/// Two addresses that the same ranges hold have the same overlap.
pub proof fn lemma_overlap_same(ranges: Seq<MtrrRange>, a: u64, b: u64)
    requires
        forall|k: int| 0 <= k < ranges.len() ==> (#[trigger] ranges[k]).contains(a) == ranges[k].contains(b),
    ensures
        overlap_at(ranges, a) == overlap_at(ranges, b),
    decreases ranges.len(),
{
    if ranges.len() > 0 {
        assert(ranges.last() == ranges[ranges.len() - 1]);
        assert forall|k: int| 0 <= k < ranges.drop_last().len() implies (
        #[trigger] ranges.drop_last()[k]).contains(a) == ranges.drop_last()[k].contains(b) by {
            assert(ranges.drop_last()[k] == ranges[k]);
        }
        lemma_overlap_same(ranges.drop_last(), a, b);
    }
}

/// One of the disjoint intervals: the addresses from `base` up to, not
/// including, `end` share `memory_type`, or are without a type.
#[derive(Clone, Copy, Debug, PartialEq, Eq, Structural)]
pub struct MtrrInterval {
    pub base: u64,
    pub end: u64,
    pub memory_type: Option<MemoryType>,
}

impl MtrrInterval {
    /// Whether the interval holds the address.
    pub open spec fn contains(self, address: u64) -> bool {
        self.base <= address < self.end
    }

    /// Whether the interval holds the start of the range and the range does
    /// not leave it.
    pub open spec fn covers(self, range: Range<u64>) -> bool {
        self.contains(range.start) && range.end <= self.end
    }
}

/// No bound of a range lies strictly between `low` and `high`.
pub open spec fn no_bound_between(range: MtrrRange, low: u64, high: u64) -> bool {
    &&& range.base <= low || high <= range.base
    &&& range.end <= low || high <= range.end
}

/// The smallest bound of any range above `address`, or the end of the
/// address space if there is none.
fn next_boundary(ranges: &Vec<MtrrRange>, address: u64) -> (next: u64)
    requires
        address < ADDRESS_SPACE_END,
    ensures
        address < next <= ADDRESS_SPACE_END,
        forall|k: int| 0 <= k < ranges@.len() ==> no_bound_between(#[trigger] ranges@[k], address, next),
        next == ADDRESS_SPACE_END || exists|k: int|
            0 <= k < ranges@.len() && ((#[trigger] ranges@[k]).base == next || ranges@[k].end
                == next),
{
    let mut next = ADDRESS_SPACE_END;
    let mut i: usize = 0;
    while i < ranges.len()
        invariant
            i <= ranges@.len(),
            address < next <= ADDRESS_SPACE_END,
            forall|k: int| 0 <= k < i ==> no_bound_between(#[trigger] ranges@[k], address, next),
            next == ADDRESS_SPACE_END || exists|k: int|
                0 <= k < i && ((#[trigger] ranges@[k]).base == next || ranges@[k].end == next),
        decreases ranges@.len() - i,
    {
        let range = ranges[i];
        if address < range.base && range.base < next {
            next = range.base;
        }
        if address < range.end && range.end < next {
            next = range.end;
        }
        i += 1;
    }
    next
}

/// The MTRRs as disjoint intervals.
#[derive(Debug)]
pub struct Mtrr {
    enabled: bool,
    default_memory_type: u8,
    ranges: Vec<MtrrRange>,
    intervals: Vec<MtrrInterval>,
}

impl Mtrr {
    /// Whether MTRRs are enabled.
    pub closed spec fn spec_enabled(&self) -> bool {
        self.enabled
    }

    /// The encoding of the default memory type.
    pub closed spec fn spec_default_memory_type(&self) -> u8 {
        self.default_memory_type
    }

    /// The ranges of the registers.
    pub closed spec fn spec_ranges(&self) -> Seq<MtrrRange> {
        self.ranges@
    }

    /// The disjoint intervals, from address zero upwards.
    pub closed spec fn spec_intervals(&self) -> Seq<MtrrInterval> {
        self.intervals@
    }

    /// The memory type that the registers give to `address`.
    pub open spec fn type_at(&self, address: u64) -> Option<MemoryType> {
        memory_type_at(
            self.spec_enabled(),
            self.spec_default_memory_type(),
            self.spec_ranges(),
            address,
        )
    }

    /// The intervals are those of the registers: they follow one another from
    /// address zero to the end of the address space, each ends where a range
    /// begins or ends and holds no such bound within, and each has the memory
    /// type of its first address.
    #[verifier::opaque]
    pub open spec fn wf(&self) -> bool {
        let intervals = self.spec_intervals();
        let ranges = self.spec_ranges();
        &&& intervals.len() > 0
        &&& intervals[0].base == 0
        &&& intervals.last().end == ADDRESS_SPACE_END
        &&& forall|i: int| 0 <= i < intervals.len() ==> (#[trigger] intervals[i]).base < intervals[i].end
        &&& forall|i: int|
            0 <= i < intervals.len() - 1 ==> (#[trigger] intervals[i]).end == intervals[i + 1].base
        &&& forall|i: int, j: int|
            0 <= i < j < intervals.len() ==> (#[trigger] intervals[i]).end <= (
            #[trigger] intervals[j]).base
        &&& forall|i: int|
            0 <= i < intervals.len() ==> (#[trigger] intervals[i]).memory_type == self.type_at(
                intervals[i].base,
            )
        &&& forall|i: int, k: int|
            0 <= i < intervals.len() && 0 <= k < ranges.len() ==> no_bound_between(
                #[trigger] ranges[k],
                (#[trigger] intervals[i]).base,
                intervals[i].end,
            )
        &&& forall|i: int|
            0 <= i < intervals.len() - 1 ==> exists|k: int|
                0 <= k < ranges.len() && ((#[trigger] ranges[k]).base == (
                #[trigger] intervals[i]).end || ranges[k].end == intervals[i].end)
    }

    /// The memory type of a range of addresses: that of the interval which
    /// holds all of it, and none where the range leaves the interval in which
    /// it starts.
    #[verifier::opaque]
    pub open spec fn spec_find(&self, range: Range<u64>) -> Option<MemoryType> {
        let intervals = self.spec_intervals();
        if exists|i: int| 0 <= i < intervals.len() && (#[trigger] intervals[i]).covers(range) {
            let i = choose|i: int| 0 <= i < intervals.len() && (#[trigger] intervals[i]).covers(range);
            intervals[i].memory_type
        } else {
            None
        }
    }

    /// Which of the ranges name `address`.
    fn overlap(ranges: &Vec<MtrrRange>, address: u64) -> (overlap: Overlap)
        ensures
            overlap == overlap_at(ranges@, address),
    {
        let mut overlap = Overlap {
            fixed: None,
            matched: false,
            reserved: false,
            uncacheable: false,
            write_combining: false,
            write_through: false,
            write_protected: false,
            write_back: false,
        };
        let mut i: usize = 0;
        while i < ranges.len()
            invariant
                i <= ranges@.len(),
                overlap == overlap_at(ranges@.subrange(0, i as int), address),
            decreases ranges@.len() - i,
        {
            let range = ranges[i];
            proof {
                let next = ranges@.subrange(0, i + 1);
                assert(next.drop_last() =~= ranges@.subrange(0, i as int));
                assert(next.last() == ranges@[i as int]);
            }
            if range.base <= address && address < range.end {
                overlap = overlap.with(range);
            }
            i += 1;
        }
        assert(ranges@.subrange(0, i as int) =~= ranges@);
        overlap
    }

    /// Reads the registers into a list of disjoint intervals.
    pub fn new(raw: &RawMtrrs) -> (mtrr: Self)
        ensures
            mtrr.wf(),
            mtrr.spec_enabled() == raw.enabled(),
            mtrr.spec_default_memory_type() == raw.default_memory_type(),
            mtrr.spec_ranges() == raw.ranges(),
    {
        let enabled = bit(raw.default_type, DEF_TYPE_ENABLE);
        let fixed_enabled = enabled && bit(raw.default_type, DEF_TYPE_FIXED_ENABLE);
        let default_memory_type = low_byte(raw.default_type);

        let mut ranges: Vec<MtrrRange> = Vec::new();
        if fixed_enabled {
            let mut k: usize = 0;
            while k < FIXED_RANGE_COUNT
                invariant
                    k <= FIXED_RANGE_COUNT,
                    ranges@ =~= Seq::new(k as nat, |i: int| spec_fixed_range(raw.fixed@, i)),
                decreases FIXED_RANGE_COUNT - k,
            {
                ranges.push(fixed_range(&raw.fixed, k));
                k += 1;
            }
        }
        assert(ranges@ =~= raw.fixed_ranges());
        let mut v: usize = 0;
        while v < raw.variable.len()
            invariant
                v <= raw.variable@.len(),
                ranges@ =~= raw.fixed_ranges() + Seq::new(
                    v as nat,
                    |i: int| spec_variable_range(raw.variable@[i].0, raw.variable@[i].1),
                ),
            decreases raw.variable@.len() - v,
        {
            let (physbase, physmask) = raw.variable[v];
            ranges.push(variable_range(physbase, physmask));
            v += 1;
        }
        assert(ranges@ =~= raw.ranges());

        let mut intervals: Vec<MtrrInterval> = Vec::new();
        let mut base: u64 = 0;
        while base < ADDRESS_SPACE_END
            invariant
                base <= ADDRESS_SPACE_END,
                ranges@ == raw.ranges(),
                intervals@.len() == 0 <==> base == 0,
                intervals@.len() > 0 ==> intervals@[0].base == 0 && intervals@.last().end == base,
                forall|i: int|
                    0 <= i < intervals@.len() ==> (#[trigger] intervals@[i]).base
                        < intervals@[i].end <= base,
                forall|i: int|
                    0 <= i < intervals@.len() - 1 ==> (#[trigger] intervals@[i]).end == intervals@[i
                        + 1].base,
                forall|i: int, j: int|
                    0 <= i < j < intervals@.len() ==> (#[trigger] intervals@[i]).end <= (
                    #[trigger] intervals@[j]).base,
                forall|i: int|
                    0 <= i < intervals@.len() ==> (#[trigger] intervals@[i]).memory_type
                        == memory_type_at(
                        enabled,
                        default_memory_type,
                        ranges@,
                        intervals@[i].base,
                    ),
                forall|i: int, k: int|
                    0 <= i < intervals@.len() && 0 <= k < ranges@.len() ==> no_bound_between(
                        #[trigger] ranges@[k],
                        (#[trigger] intervals@[i]).base,
                        intervals@[i].end,
                    ),
                forall|i: int|
                    0 <= i < intervals@.len() - 1 ==> exists|k: int|
                        0 <= k < ranges@.len() && ((#[trigger] ranges@[k]).base == (
                        #[trigger] intervals@[i]).end || ranges@[k].end == intervals@[i].end),
                base == 0 || base == ADDRESS_SPACE_END || exists|k: int|
                    0 <= k < ranges@.len() && ((#[trigger] ranges@[k]).base == base || ranges@[k].end
                        == base),
            decreases ADDRESS_SPACE_END - base,
        {
            let end = next_boundary(&ranges, base);
            let memory_type = if enabled {
                Self::overlap(&ranges, base).resolve(default_memory_type)
            } else {
                Some(MemoryType::Uncacheable)
            };
            let ghost before = intervals@;
            intervals.push(MtrrInterval { base, end, memory_type });
            proof {
                assert forall|i: int| 0 <= i < intervals@.len() - 1 implies (
                #[trigger] intervals@[i]).end == intervals@[i + 1].base by {
                    if i < before.len() - 1 {
                        assert(intervals@[i] == before[i]);
                        assert(intervals@[i + 1] == before[i + 1]);
                    }
                }
                assert forall|i: int| 0 <= i < intervals@.len() - 1 implies exists|k: int|
                    0 <= k < ranges@.len() && ((#[trigger] ranges@[k]).base == (
                    #[trigger] intervals@[i]).end || ranges@[k].end == intervals@[i].end) by {
                    assert(intervals@[i] == before[i]);
                    if i == before.len() - 1 {
                        assert(before[i].end == base);
                    }
                }
            }
            base = end;
        }
        let mtrr = Mtrr { enabled, default_memory_type, ranges, intervals };
        proof {
            reveal(Mtrr::wf);
        }
        mtrr
    }

    /// Returns the memory type of `range`, if all of it lies within one
    /// interval and that interval has a memory type.
    pub fn find(&self, range: Range<u64>) -> (memory_type: Option<MemoryType>)
        requires
            self.wf(),
        ensures
            memory_type == self.spec_find(range),
    {
        let mut i: usize = 0;
        while i < self.intervals.len()
            invariant
                self.wf(),
                i <= self.intervals@.len(),
                forall|k: int| 0 <= k < i ==> !(#[trigger] self.intervals@[k]).contains(range.start),
            decreases self.intervals@.len() - i,
        {
            let interval = self.intervals[i];
            if interval.base <= range.start && range.start < interval.end {
                proof {
                    reveal(Mtrr::wf);
                    reveal(Mtrr::spec_find);
                    assert forall|k: int|
                        0 <= k < self.intervals@.len() && k != i implies !(
                    #[trigger] self.intervals@[k]).contains(range.start) by {
                        if k > i {
                            assert(self.intervals@[i as int].end <= self.intervals@[k].base);
                        }
                    }
                }
                if range.end <= interval.end {
                    assert(self.intervals@[i as int].covers(range));
                    return interval.memory_type;
                }
                return None;
            }
            i += 1;
        }
        proof {
            reveal(Mtrr::spec_find);
        }
        None
    }

    /// The intervals as a list, from address zero upwards.
    pub fn intervals(&self) -> (intervals: Vec<MtrrInterval>)
        ensures
            intervals@ == self.spec_intervals(),
    {
        let mut intervals: Vec<MtrrInterval> = Vec::new();
        let mut i: usize = 0;
        while i < self.intervals.len()
            invariant
                i <= self.intervals@.len(),
                intervals@ =~= self.intervals@.subrange(0, i as int),
            decreases self.intervals@.len() - i,
        {
            intervals.push(self.intervals[i]);
            i += 1;
        }
        assert(self.intervals@.subrange(0, i as int) =~= self.intervals@);
        intervals
    }

    /// The number of intervals.
    pub fn len(&self) -> (n: usize)
        ensures
            n == self.spec_intervals().len(),
    {
        self.intervals.len()
    }

    /// The `index`-th interval, counted from address zero.
    pub fn interval(&self, index: usize) -> (interval: MtrrInterval)
        requires
            index < self.spec_intervals().len(),
        ensures
            interval == self.spec_intervals()[index as int],
    {
        self.intervals[index]
    }
}

/// Within one interval every address has the memory type of the interval.
pub proof fn lemma_interval_is_uniform(mtrr: Mtrr, i: int, address: u64)
    requires
        mtrr.wf(),
        0 <= i < mtrr.spec_intervals().len(),
        mtrr.spec_intervals()[i].contains(address),
    ensures
        mtrr.type_at(address) == mtrr.spec_intervals()[i].memory_type,
{
    reveal(Mtrr::wf);
    reveal(Mtrr::spec_find);
    let interval = mtrr.spec_intervals()[i];
    let ranges = mtrr.spec_ranges();
    assert forall|k: int| 0 <= k < ranges.len() implies (#[trigger] ranges[k]).contains(address)
        == ranges[k].contains(interval.base) by {
        assert(no_bound_between(ranges[k], interval.base, interval.end));
    }
    lemma_overlap_same(ranges, address, interval.base);
}

/// A range of addresses for which a memory type is found has that type at
/// every address.
pub proof fn lemma_found_type_holds_throughout(mtrr: Mtrr, range: Range<u64>, address: u64)
    requires
        mtrr.wf(),
        mtrr.spec_find(range) is Some,
        range.start <= address < range.end,
    ensures
        mtrr.type_at(address) == mtrr.spec_find(range),
{
    reveal(Mtrr::wf);
    reveal(Mtrr::spec_find);
    let intervals = mtrr.spec_intervals();
    let i = choose|i: int| 0 <= i < intervals.len() && (#[trigger] intervals[i]).covers(range);
    lemma_interval_is_uniform(mtrr, i, address);
}

/// The intervals are in the order of their bases and no two of them share
/// an address.
pub proof fn lemma_intervals_are_ordered(mtrr: Mtrr, i: int, j: int)
    requires
        mtrr.wf(),
        0 <= i < j < mtrr.spec_intervals().len(),
    ensures
        mtrr.spec_intervals()[i].base < mtrr.spec_intervals()[j].base,
        forall|address: u64|
            !(mtrr.spec_intervals()[i].contains(address) && mtrr.spec_intervals()[j].contains(
                address,
            )),
{
    reveal(Mtrr::wf);
    reveal(Mtrr::spec_find);
    assert(mtrr.spec_intervals()[i].end <= mtrr.spec_intervals()[j].base);
}

/// Every address below the end of the address space lies in an interval,
/// from the `from`-th on if it is not below that one.
pub proof fn lemma_address_has_interval(mtrr: Mtrr, address: u64, from: int) -> (i: int)
    requires
        mtrr.wf(),
        0 <= from < mtrr.spec_intervals().len(),
        mtrr.spec_intervals()[from].base <= address < ADDRESS_SPACE_END,
    ensures
        from <= i < mtrr.spec_intervals().len(),
        mtrr.spec_intervals()[i].contains(address),
    decreases mtrr.spec_intervals().len() - from,
{
    reveal(Mtrr::wf);
    reveal(Mtrr::spec_find);
    let intervals = mtrr.spec_intervals();
    if address < intervals[from].end {
        from
    } else {
        assert(from < intervals.len() - 1) by {
            if from == intervals.len() - 1 {
                assert(intervals[from] == intervals.last());
            }
        }
        assert(intervals[from].end == intervals[from + 1].base);
        lemma_address_has_interval(mtrr, address, from + 1)
    }
}

/// A memory type is found for a range exactly if the interval in which the
/// range starts holds all of it and has a memory type.
pub proof fn lemma_find_fails_only_across_bounds(mtrr: Mtrr, range: Range<u64>, i: int)
    requires
        mtrr.wf(),
        0 <= i < mtrr.spec_intervals().len(),
        mtrr.spec_intervals()[i].contains(range.start),
    ensures
        mtrr.spec_find(range) == if range.end <= mtrr.spec_intervals()[i].end {
            mtrr.spec_intervals()[i].memory_type
        } else {
            None
        },
{
    reveal(Mtrr::wf);
    reveal(Mtrr::spec_find);
    let intervals = mtrr.spec_intervals();
    assert forall|k: int| 0 <= k < intervals.len() && k != i implies !(
    #[trigger] intervals[k]).contains(range.start) by {
        if k < i {
            assert(intervals[k].end <= intervals[i].base);
        } else {
            assert(intervals[i].end <= intervals[k].base);
        }
    }
    if range.end <= intervals[i].end {
        assert(intervals[i].covers(range));
    }
}

} // verus!
