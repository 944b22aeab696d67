//! Segment descriptors as they lie in a global descriptor table.
use vstd::prelude::*;
use crate::bits::{bit, low32};

verus! {

/// Bit 2 of a selector: the selector refers to the local descriptor table.
pub const SELECTOR_TI_LDT: u16 = 0x4;

/// Bit 44 of a descriptor: the descriptor is one of a code or data segment
/// and takes 8 bytes. A system descriptor takes 16.
pub const DESCRIPTOR_TYPE_FLAG: u64 = 0x1000_0000_0000;

/// Why a selector names no descriptor of a global descriptor table.
#[derive(Clone, Copy, Debug, PartialEq, Eq, Structural)]
pub enum SegmentError {
    /// The selector refers to the local descriptor table.
    LdtAccess,
    /// The selector is a null selector.
    NullDescriptor,
    /// The selector refers beyond the table.
    OutOfGdtAccess,
}

/// A descriptor of a segment: the 8 bytes that every descriptor has and, for
/// a system descriptor, bits 63:32 of the base from the 8 bytes after them.
#[derive(Clone, Copy, Debug, PartialEq, Eq, Structural)]
pub struct SegmentDescriptor {
    pub low64: u64,
    pub upper_base: Option<u32>,
}

/// The index of the descriptor that a selector names: bits 15:3.
pub open spec fn spec_selector_index(selector: u16) -> u16 {
    selector / 8
}

/// Whether the selector refers to the local descriptor table: bit 2.
pub open spec fn spec_refers_to_ldt(selector: u16) -> bool {
    (selector / SELECTOR_TI_LDT) % 2 == 1
}

/// Bits 31:0 of the base of a segment, which lie in bits 39:16 and 63:56 of
/// its descriptor.
pub open spec fn spec_low_base(low64: u64) -> u64 {
    ((low64 / 0x1_0000) % 0x100_0000 + ((low64 / 0x100_0000_0000_0000) % 0x100) * 0x100_0000) as u64
}

/// Whether the descriptor takes 16 bytes.
pub open spec fn spec_is_16byte(low64: u64) -> bool {
    !bit(low64, DESCRIPTOR_TYPE_FLAG)
}

/// The descriptor that `selector` names in the table `gdt`, or why it names
/// none.
pub open spec fn descriptor_of(gdt: Seq<u64>, selector: u16) -> Result<
    SegmentDescriptor,
    SegmentError,
> {
    let index = spec_selector_index(selector) as int;
    if spec_refers_to_ldt(selector) {
        Err(SegmentError::LdtAccess)
    } else if index == 0 {
        Err(SegmentError::NullDescriptor)
    } else if index >= gdt.len() {
        Err(SegmentError::OutOfGdtAccess)
    } else if !spec_is_16byte(gdt[index]) {
        Ok(SegmentDescriptor { low64: gdt[index], upper_base: None })
    } else if index + 1 >= gdt.len() {
        Err(SegmentError::OutOfGdtAccess)
    } else {
        Ok(
            SegmentDescriptor {
                low64: gdt[index],
                upper_base: Some(low32(gdt[index + 1])),
            },
        )
    }
}

impl SegmentDescriptor {
    /// The base of the segment.
    pub open spec fn spec_base(&self) -> u64 {
        match self.upper_base {
            Some(upper_base) => (spec_low_base(self.low64) + upper_base * 0x1_0000_0000) as u64,
            None => spec_low_base(self.low64),
        }
    }

    /// Reads the descriptor that `selector` names from the global descriptor
    /// table `gdt`, given as its 8-byte entries.
    pub fn try_from_gdtr(gdt: &Vec<u64>, selector: u16) -> (descriptor: Result<Self, SegmentError>)
        ensures
            descriptor == descriptor_of(gdt@, selector),
    {
        assert((selector & 0x4 != 0) == ((selector / 0x4) % 2 == 1) && selector >> 3 == selector
            / 8) by (bit_vector);
        if selector & SELECTOR_TI_LDT != 0 {
            return Err(SegmentError::LdtAccess);
        }
        let index = (selector >> 3) as usize;
        if index == 0 {
            return Err(SegmentError::NullDescriptor);
        }
        if index >= gdt.len() {
            return Err(SegmentError::OutOfGdtAccess);
        }
        let low64 = gdt[index];
        if bit(low64, DESCRIPTOR_TYPE_FLAG) {
            return Ok(SegmentDescriptor { low64, upper_base: None });
        }
        if index + 1 >= gdt.len() {
            return Err(SegmentError::OutOfGdtAccess);
        }
        Ok(SegmentDescriptor { low64, upper_base: Some(low32(gdt[index + 1])) })
    }

    /// The base of the segment.
    #[verifier::when_used_as_spec(spec_base)]
    pub fn base(&self) -> (base: u64)
        ensures
            base == self.spec_base(),
    {
        let low64 = self.low64;
        let low_base = ((low64 >> 16) & 0xff_ffff) | (((low64 >> 56) & 0xff) << 24);
        assert(low_base == (low64 / 0x1_0000) % 0x100_0000 + ((low64 / 0x100_0000_0000_0000)
            % 0x100) * 0x100_0000) by (bit_vector)
            requires
                low_base == ((low64 >> 16) & 0xff_ffff) | (((low64 >> 56) & 0xff) << 24),
        ;
        match self.upper_base {
            Some(upper_base) => {
                let upper = upper_base as u64;
                assert(low_base | (upper << 32) == low_base + upper * 0x1_0000_0000)
                    by (bit_vector)
                    requires
                        low_base <= 0xffff_ffff,
                        upper <= 0xffff_ffff,
                ;
                low_base | (upper << 32)
            },
            None => low_base,
        }
    }
}

/// The base of a segment is made of the three parts of its descriptor, each
/// in its place: bits 23:0, bits 31:24 and, for a system descriptor, bits
/// 63:32.
pub proof fn lemma_base_parts(low64: u64, upper_base: u32)
    ensures
        spec_low_base(low64) == ((low64 >> 16) & 0xff_ffff) | (((low64 >> 56) & 0xff) << 24),
        (SegmentDescriptor { low64, upper_base: Some(upper_base) }).spec_base() == spec_low_base(
            low64,
        ) | ((upper_base as u64) << 32),
        (SegmentDescriptor { low64, upper_base: Some(upper_base) }).spec_base() >> 32
            == upper_base,
        (SegmentDescriptor { low64, upper_base: Some(upper_base) }).spec_base() & 0xffff_ffff
            == spec_low_base(low64),
{
    let low_base = ((low64 >> 16) & 0xff_ffff) | (((low64 >> 56) & 0xff) << 24);
    let upper = upper_base as u64;
    assert(low_base == (low64 / 0x1_0000) % 0x100_0000 + ((low64 / 0x100_0000_0000_0000) % 0x100)
        * 0x100_0000 && low_base <= 0xffff_ffff) by (bit_vector)
        requires
            low_base == ((low64 >> 16) & 0xff_ffff) | (((low64 >> 56) & 0xff) << 24),
    ;
    assert(low_base | (upper << 32) == low_base + upper * 0x1_0000_0000 && (low_base | (upper
        << 32)) >> 32 == upper && (low_base | (upper << 32)) & 0xffff_ffff == low_base)
        by (bit_vector)
        requires
            low_base <= 0xffff_ffff,
            upper <= 0xffff_ffff,
    ;
}

} // verus!
