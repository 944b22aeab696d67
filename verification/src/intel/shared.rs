//! What every guest of the hypervisor shares: the MSR bitmaps and the
//! extended page tables. Both are made once, before the first guest runs,
//! and only read after that.
use vstd::prelude::*;
use crate::intel::epts::{identity_map_resolves, Epts};
use crate::intel::mtrr::Mtrr;
use crate::paging::TableAddresses;

verus! {

/// The size of the MSR bitmaps: one page.
pub const MSR_BITMAPS_SIZE: usize = 4096;

/// The last MSR of the low range that the bitmaps describe.
pub const LOW_MSR_END: u32 = 0x1fff;

/// The first MSR of the high range that the bitmaps describe.
pub const HIGH_MSR_START: u32 = 0xc000_0000;

/// The last MSR of the high range that the bitmaps describe.
pub const HIGH_MSR_END: u32 = 0xc000_1fff;

/// Whether the bitmaps describe the MSR at all. An access to any other MSR
/// causes a VM exit whatever the bitmaps hold.
pub open spec fn is_described(msr: u32) -> bool {
    msr <= LOW_MSR_END || HIGH_MSR_START <= msr <= HIGH_MSR_END
}

/// The index of the bit that stands for an access to `msr`: the bitmaps for
/// reads come before those for writes, and each time the low range before the
/// high range, with 1 KiB for each of the four.
pub open spec fn bit_index(msr: u32, write: bool) -> int {
    let within = if msr <= LOW_MSR_END {
        msr as int
    } else {
        0x2000 + (msr - HIGH_MSR_START)
    };
    if write {
        0x4000 + within
    } else {
        within
    }
}

/// Whether an access to `msr` causes a VM exit under the bitmaps.
pub open spec fn causes_exit(bitmaps: Seq<u8>, msr: u32, write: bool) -> bool {
    !is_described(msr) || (bitmaps[bit_index(msr, write) / 8] as int / vstd::arithmetic::power2::pow2(
        (bit_index(msr, write) % 8) as nat,
    ) as int) % 2 == 1
}

/// The MSR bitmaps of the hypervisor, which intercept as little as can be.
#[derive(Debug)]
pub struct MsrBitmaps {
    bytes: Vec<u8>,
}

impl MsrBitmaps {
    /// The page of the bitmaps.
    pub closed spec fn view(&self) -> Seq<u8> {
        self.bytes@
    }

    /// Bitmaps of which every bit is clear.
    pub fn new() -> (bitmaps: Self)
        ensures
            bitmaps@.len() == MSR_BITMAPS_SIZE,
            forall|i: int| 0 <= i < MSR_BITMAPS_SIZE ==> #[trigger] bitmaps@[i] == 0,
    {
        let mut bytes: Vec<u8> = Vec::new();
        let mut i: usize = 0;
        while i < MSR_BITMAPS_SIZE
            invariant
                i <= MSR_BITMAPS_SIZE,
                bytes@.len() == i,
                forall|k: int| 0 <= k < i ==> #[trigger] bytes@[k] == 0,
            decreases MSR_BITMAPS_SIZE - i,
        {
            bytes.push(0);
            i += 1;
        }
        MsrBitmaps { bytes }
    }

    /// The byte of the page at `index`.
    pub fn byte(&self, index: usize) -> (byte: u8)
        requires
            index < self@.len(),
        ensures
            byte == self@[index as int],
    {
        self.bytes[index]
    }
}

/// Under bitmaps of which every bit is clear, an access causes a VM exit
/// exactly if the bitmaps do not describe the MSR.
pub proof fn lemma_clear_bitmaps_intercept_nothing(bitmaps: Seq<u8>, msr: u32, write: bool)
    requires
        bitmaps.len() == MSR_BITMAPS_SIZE,
        forall|i: int| 0 <= i < MSR_BITMAPS_SIZE ==> #[trigger] bitmaps[i] == 0,
    ensures
        causes_exit(bitmaps, msr, write) <==> !is_described(msr),
        is_described(msr) ==> 0 <= bit_index(msr, write) / 8 < MSR_BITMAPS_SIZE,
{
    if is_described(msr) {
        let index = bit_index(msr, write);
        assert(0 <= index < 0x8000);
        assert(bitmaps[index / 8] == 0);
        vstd::arithmetic::power2::lemma_pow2_pos((index % 8) as nat);
        assert(0int / vstd::arithmetic::power2::pow2((index % 8) as nat) as int == 0);
    }
}

/// The data that every guest shares.
#[derive(Debug)]
pub struct SharedGuestData {
    msr_bitmaps: MsrBitmaps,
    epts: Epts,
}

impl SharedGuestData {
    /// The MSR bitmaps.
    pub closed spec fn spec_msr_bitmaps(&self) -> MsrBitmaps {
        self.msr_bitmaps
    }

    /// The extended page tables.
    pub closed spec fn spec_epts(&self) -> Epts {
        self.epts
    }

    /// Makes the shared data: clear MSR bitmaps, and extended page tables
    /// with the identity map built over tables that were zero. Where the
    /// MTRRs give no memory type to a page of the map, returns the address of
    /// the first such page.
    pub fn new(mtrr: &Mtrr, addresses: &TableAddresses) -> (shared: Result<Self, u64>)
        requires
            mtrr.wf(),
            addresses.wf(),
        ensures
            shared is Ok <==> identity_map_resolves(*mtrr),
            shared matches Ok(data) ==> {
                &&& data.spec_msr_bitmaps()@.len() == MSR_BITMAPS_SIZE
                &&& forall|i: int|
                    0 <= i < MSR_BITMAPS_SIZE ==> #[trigger] data.spec_msr_bitmaps()@[i] == 0
                &&& data.spec_epts().is_fresh_identity_map(*mtrr, *addresses)
            },
            shared matches Err(pa) ==> Epts::unresolved_page_spec(*mtrr, pa),
    {
        let mut epts = Epts::new();
        let ghost zeroed = epts;
        match epts.try_build_identity(mtrr, addresses) {
            Ok(_) => {
                assert(epts.is_identity_map_over(zeroed, *mtrr, *addresses));
                assert(epts.is_fresh_identity_map(*mtrr, *addresses));
                Ok(SharedGuestData { msr_bitmaps: MsrBitmaps::new(), epts })
            },
            Err(pa) => Err(pa),
        }
    }

    /// The MSR bitmaps.
    pub fn msr_bitmaps(&self) -> (bitmaps: &MsrBitmaps)
        ensures
            *bitmaps == self.spec_msr_bitmaps(),
    {
        &self.msr_bitmaps
    }

    /// The extended page tables.
    pub fn epts(&self) -> (epts: &Epts)
        ensures
            *epts == self.spec_epts(),
    {
        &self.epts
    }
}

} // verus!
