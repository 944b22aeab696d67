//! The registry of processors: which index the hypervisor gave to the
//! processor with a given local APIC ID.
use vstd::prelude::*;
use std::collections::BTreeMap;

verus! {

/// The local APIC ID of a processor.
pub type ApicId = u8;

/// The index that the hypervisor gives to a processor: zero for the first
/// that was registered, one for the second, and so on.
pub type ProcessorId = usize;

/// EBX as CPUID returns it for leaf 1 on the processor that executes the
/// call, through `cpuid_count` of the `x86` crate. Nothing is claimed of the
/// value, which differs from one processor to the next.
#[verifier::external_body]
fn cpuid_leaf1_ebx() -> (ebx: u32) {
    x86::cpuid::native_cpuid::cpuid_count(1, 0).ebx
}

/// Gets the APIC ID of the processor that executes the call: bits 31:24 of
/// what CPUID returns in EBX for leaf 1.
pub(crate) fn get() -> (apic_id: ApicId) {
    local_apic_id(cpuid_leaf1_ebx())
}

/// The initial local APIC ID in what CPUID returns in EBX for leaf 1: bits
/// 31:24.
pub open spec fn spec_local_apic_id(ebx: u32) -> ApicId {
    (ebx / 0x100_0000) as u8
}

/// The registry.
#[derive(Debug)]
pub struct ApicIdMap {
    map: BTreeMap<ApicId, ProcessorId>,
    processor_count: usize,
}

impl ApicIdMap {
    /// The processors that are registered, each with its index.
    pub closed spec fn view(&self) -> Map<ApicId, ProcessorId> {
        self.map@
    }

    /// The number of processors that are registered.
    pub closed spec fn spec_processor_count(&self) -> usize {
        self.processor_count
    }

    /// A registry without processors.
    pub fn new() -> (registry: Self)
        ensures
            registry@ == Map::<ApicId, ProcessorId>::empty(),
            registry.spec_processor_count() == 0,
    {
        ApicIdMap { map: BTreeMap::new(), processor_count: 0 }
    }

    /// The number of processors that are registered.
    #[verifier::when_used_as_spec(spec_processor_count)]
    pub fn processor_count(&self) -> (count: usize)
        ensures
            count == self.spec_processor_count(),
    {
        self.processor_count
    }

    /// Registers the processor with the APIC ID `apic_id` under the next
    /// index and returns `None`; a processor that is registered already
    /// keeps its index, which is returned.
    pub fn insert(&mut self, apic_id: ApicId) -> (previous: Option<ProcessorId>)
        requires
            old(self).spec_processor_count() < usize::MAX,
        ensures
            previous == if old(self)@.contains_key(apic_id) {
                Some(old(self)@[apic_id])
            } else {
                None
            },
            final(self)@ == if old(self)@.contains_key(apic_id) {
                old(self)@
            } else {
                old(self)@.insert(apic_id, old(self).spec_processor_count())
            },
            final(self).spec_processor_count() == if old(self)@.contains_key(apic_id) {
                old(self).spec_processor_count() as int
            } else {
                old(self).spec_processor_count() + 1
            },
    {
        match self.map.get(&apic_id) {
            Some(processor_id) => Some(*processor_id),
            None => {
                self.map.insert(apic_id, self.processor_count);
                self.processor_count = self.processor_count + 1;
                None
            },
        }
    }

    /// The index of the processor with the APIC ID `apic_id`, if it is
    /// registered.
    pub fn get(&self, apic_id: ApicId) -> (processor_id: Option<ProcessorId>)
        ensures
            processor_id == if self@.contains_key(apic_id) {
                Some(self@[apic_id])
            } else {
                None
            },
    {
        match self.map.get(&apic_id) {
            Some(processor_id) => Some(*processor_id),
            None => None,
        }
    }
}

impl ApicIdMap {
    /// Registers the processor that executes the call, as [`Self::insert`]
    /// does with its APIC ID.
    pub fn insert_current(&mut self) -> (previous: Option<ProcessorId>)
        requires
            old(self).spec_processor_count() < usize::MAX,
        ensures
            exists|apic_id: ApicId|
                #[trigger] final(self).is_insertion(*old(self), apic_id, previous),
    {
        let apic_id = get();
        let previous = self.insert(apic_id);
        assert(self.is_insertion(*old(self), apic_id, previous));
        previous
    }

    /// Whether `self` and `previous` are what registering the processor with
    /// the APIC ID `apic_id` in `before` gives: a processor that was
    /// registered keeps its index, which is `previous`, and nothing changes;
    /// a new one gets the next index, the count grows by one, and `previous`
    /// is none.
    pub open spec fn is_insertion(
        &self,
        before: ApicIdMap,
        apic_id: ApicId,
        previous: Option<ProcessorId>,
    ) -> bool {
        if before@.contains_key(apic_id) {
            &&& previous == Some(before@[apic_id])
            &&& self@ == before@
            &&& self.spec_processor_count() == before.spec_processor_count()
        } else {
            &&& previous is None
            &&& self@ == before@.insert(apic_id, before.spec_processor_count())
            &&& self.spec_processor_count() == before.spec_processor_count() + 1
        }
    }
}

/// The initial local APIC ID in what CPUID returns in EBX for leaf 1.
#[verifier::when_used_as_spec(spec_local_apic_id)]
pub fn local_apic_id(ebx: u32) -> (apic_id: ApicId)
    ensures
        apic_id == spec_local_apic_id(ebx),
{
    let id: u32 = ebx >> 24;
    assert(id == ebx / 0x100_0000 && id <= 0xff) by (bit_vector)
        requires
            id == ebx >> 24,
    ;
    id as u8
}

/// No APIC ID occurs twice.
pub open spec fn distinct(apic_ids: Seq<ApicId>) -> bool {
    forall|i: int, j: int| 0 <= i < j < apic_ids.len() ==> apic_ids[i] != apic_ids[j]
}

/// The registry after the processors with the given APIC IDs were registered
/// one after another, and the number of processors in it.
pub open spec fn registered(apic_ids: Seq<ApicId>) -> (Map<ApicId, ProcessorId>, nat)
    decreases apic_ids.len(),
{
    if apic_ids.len() == 0 {
        (Map::empty(), 0)
    } else {
        let (map, count) = registered(apic_ids.drop_last());
        if map.contains_key(apic_ids.last()) {
            (map, count)
        } else {
            (map.insert(apic_ids.last(), count as usize), count + 1)
        }
    }
}

/// Where no APIC ID occurs twice, every processor is new to the registry
/// when its turn comes, and is registered under its place in the order.
pub proof fn lemma_distinct_ids_are_new(apic_ids: Seq<ApicId>)
    requires
        distinct(apic_ids),
        apic_ids.len() <= usize::MAX,
    ensures
        registered(apic_ids).1 == apic_ids.len(),
        forall|i: int|
            0 <= i < apic_ids.len() ==> !(#[trigger] registered(apic_ids.take(i))).0.contains_key(
                apic_ids[i],
            ),
        forall|i: int|
            0 <= i < apic_ids.len() ==> registered(apic_ids).0.contains_key(
                #[trigger] apic_ids[i],
            ) && registered(apic_ids).0[apic_ids[i]] == i,
        forall|apic_id: ApicId|
            registered(apic_ids).0.contains_key(apic_id) ==> exists|i: int|
                0 <= i < apic_ids.len() && #[trigger] apic_ids[i] == apic_id,
    decreases apic_ids.len(),
{
    if apic_ids.len() > 0 {
        let front = apic_ids.drop_last();
        let last = apic_ids.last();
        assert forall|i: int, j: int| 0 <= i < j < front.len() implies front[i] != front[j] by {
            assert(front[i] == apic_ids[i]);
            assert(front[j] == apic_ids[j]);
        }
        lemma_distinct_ids_are_new(front);
        assert(!registered(front).0.contains_key(last)) by {
            if registered(front).0.contains_key(last) {
                let i = choose|i: int| 0 <= i < front.len() && #[trigger] front[i] == last;
                assert(front[i] == apic_ids[i]);
                assert(apic_ids[i] != apic_ids[apic_ids.len() - 1]);
            }
        }
        assert forall|i: int| 0 <= i < apic_ids.len() implies !(#[trigger] registered(
            apic_ids.take(i),
        )).0.contains_key(apic_ids[i]) by {
            if i < front.len() {
                assert(apic_ids.take(i) =~= front.take(i));
                assert(front[i] == apic_ids[i]);
            } else {
                assert(apic_ids.take(i) =~= front);
            }
        }
        assert forall|i: int| 0 <= i < apic_ids.len() implies registered(apic_ids).0.contains_key(
            #[trigger] apic_ids[i],
        ) && registered(apic_ids).0[apic_ids[i]] == i by {
            if i < front.len() {
                assert(front[i] == apic_ids[i]);
                assert(apic_ids[i] != apic_ids[apic_ids.len() - 1]);
            }
        }
        assert forall|apic_id: ApicId| registered(apic_ids).0.contains_key(apic_id) implies exists|
            i: int,
        |
            0 <= i < apic_ids.len() && #[trigger] apic_ids[i] == apic_id by {
            if apic_id == last {
                assert(apic_ids[apic_ids.len() - 1] == apic_id);
            } else {
                let i = choose|i: int| 0 <= i < front.len() && #[trigger] front[i] == apic_id;
                assert(apic_ids[i] == apic_id);
            }
        }
    } else {
        assert forall|i: int| 0 <= i < apic_ids.len() implies !(#[trigger] registered(
            apic_ids.take(i),
        )).0.contains_key(apic_ids[i]) by {}
    }
}

/// Builds the registry of the processors whose APIC IDs are given in the
/// order in which the processors ran: the first gets index zero.
pub fn init(apic_ids: &Vec<ApicId>) -> (registry: ApicIdMap)
    requires
        distinct(apic_ids@),
    ensures
        registry@ == registered(apic_ids@).0,
        registry.spec_processor_count() == apic_ids@.len(),
        forall|i: int|
            0 <= i < apic_ids@.len() ==> registry@.contains_key(#[trigger] apic_ids@[i])
                && registry@[apic_ids@[i]] == i,
{
    let mut registry = ApicIdMap::new();
    let count = apic_ids.len();
    let mut i: usize = 0;
    proof {
        lemma_distinct_ids_are_new(apic_ids@);
        assert(apic_ids@.take(0) =~= Seq::<ApicId>::empty());
    }
    while i < count
        invariant
            count == apic_ids@.len(),
            i <= apic_ids@.len(),
            distinct(apic_ids@),
            registry@ == registered(apic_ids@.take(i as int)).0,
            registry.spec_processor_count() == registered(apic_ids@.take(i as int)).1,
            registry.spec_processor_count() == i,
            forall|k: int|
                0 <= k < apic_ids@.len() ==> !(#[trigger] registered(
                    apic_ids@.take(k),
                )).0.contains_key(apic_ids@[k]),
        decreases apic_ids@.len() - i,
    {
        proof {
            let next = apic_ids@.take(i + 1);
            assert(next.drop_last() =~= apic_ids@.take(i as int));
            assert(next.last() == apic_ids@[i as int]);
        }
        let previous = registry.insert(apic_ids[i]);
        assert(previous is None);
        i += 1;
    }
    proof {
        assert(apic_ids@.take(i as int) =~= apic_ids@);
    }
    registry
}

/// The processors of a registry are those that were registered.
pub proof fn lemma_registered_are_listed(apic_ids: Seq<ApicId>, apic_id: ApicId)
    ensures
        registered(apic_ids).0.contains_key(apic_id) <==> exists|i: int|
            0 <= i < apic_ids.len() && #[trigger] apic_ids[i] == apic_id,
    decreases apic_ids.len(),
{
    if apic_ids.len() > 0 {
        let front = apic_ids.drop_last();
        lemma_registered_are_listed(front, apic_id);
        if registered(apic_ids).0.contains_key(apic_id) {
            if apic_id == apic_ids.last() {
                assert(apic_ids[apic_ids.len() - 1] == apic_id);
            } else {
                let i = choose|i: int| 0 <= i < front.len() && #[trigger] front[i] == apic_id;
                assert(apic_ids[i] == apic_id);
            }
        }
        if exists|i: int| 0 <= i < apic_ids.len() && #[trigger] apic_ids[i] == apic_id {
            let i = choose|i: int| 0 <= i < apic_ids.len() && #[trigger] apic_ids[i] == apic_id;
            if i < front.len() {
                assert(front[i] == apic_id);
            } else {
                assert(apic_ids.last() == apic_id);
            }
        }
    }
}

/// Builds the registry as [`init`] does, where no APIC ID occurs twice, and
/// none otherwise.
pub fn try_init(apic_ids: &Vec<ApicId>) -> (registry: Option<ApicIdMap>)
    ensures
        registry is Some <==> distinct(apic_ids@),
        registry matches Some(registry) ==> {
            &&& registry@ == registered(apic_ids@).0
            &&& registry.spec_processor_count() == apic_ids@.len()
            &&& forall|i: int|
                0 <= i < apic_ids@.len() ==> registry@.contains_key(#[trigger] apic_ids@[i])
                    && registry@[apic_ids@[i]] == i
        },
{
    let mut registry = ApicIdMap::new();
    let count = apic_ids.len();
    let mut i: usize = 0;
    proof {
        assert(apic_ids@.take(0) =~= Seq::<ApicId>::empty());
    }
    while i < count
        invariant
            count == apic_ids@.len(),
            i <= count,
            distinct(apic_ids@.take(i as int)),
            registry@ == registered(apic_ids@.take(i as int)).0,
            registry.spec_processor_count() == i,
        decreases count - i,
    {
        let ghost front = apic_ids@.take(i as int);
        let ghost next = apic_ids@.take(i + 1);
        proof {
            assert(next.drop_last() =~= front);
            assert(next.last() == apic_ids@[i as int]);
            lemma_registered_are_listed(front, apic_ids@[i as int]);
            lemma_distinct_ids_are_new(front);
        }
        if registry.insert(apic_ids[i]).is_some() {
            proof {
                let j = choose|j: int| 0 <= j < front.len() && #[trigger] front[j] == apic_ids@[i as int];
                assert(apic_ids@[j] == apic_ids@[i as int]);
            }
            return None;
        }
        proof {
            assert forall|a: int, b: int| 0 <= a < b < next.len() implies next[a] != next[b] by {
                if b < i {
                    assert(front[a] == next[a]);
                    assert(front[b] == next[b]);
                } else {
                    assert(front[a] == next[a]);
                }
            }
        }
        i += 1;
    }
    proof {
        assert(apic_ids@.take(i as int) =~= apic_ids@);
        lemma_distinct_ids_are_new(apic_ids@);
    }
    Some(registry)
}

/// The index of the processor with the APIC ID `apic_id`, if it is
/// registered.
pub fn processor_id_from(registry: &ApicIdMap, apic_id: ApicId) -> (processor_id: Option<
    ProcessorId,
>)
    ensures
        processor_id == if registry@.contains_key(apic_id) {
            Some(registry@[apic_id])
        } else {
            None
        },
{
    registry.get(apic_id)
}

} // verus!
