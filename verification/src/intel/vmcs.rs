//! The virtual-machine control structure (VMCS) as the hypervisor sees it.
//!
//! The processor keeps the real structure; [`Vmcs`] is its shadow. Every field
//! starts out as zero, as in a region that was zeroed and cleared, and holds
//! the value last written to it. Each write is kept as pending, in its order,
//! until the caller takes the pending writes to carry them out with VMWRITE.
use vstd::prelude::*;
use crate::bits::low32;

pub mod control;
pub mod guest;
pub mod host;
pub mod ro;

verus! {

/// The value that the sequence of recorded fields holds for `encoding`, zero
/// if it records none.
pub open spec fn field_value(fields: Seq<(u32, u64)>, encoding: u32) -> u64
    decreases fields.len(),
{
    if fields.len() == 0 {
        0
    } else if fields.last().0 == encoding {
        fields.last().1
    } else {
        field_value(fields.drop_last(), encoding)
    }
}

/// No two recorded fields share an encoding.
pub open spec fn distinct_encodings(fields: Seq<(u32, u64)>) -> bool {
    forall|i: int, j: int|
        0 <= i < j < fields.len() ==> (#[trigger] fields[i]).0 != (#[trigger] fields[j]).0
}

/// A field that is recorded at position `i` has the value recorded there.
pub proof fn lemma_field_value_at(fields: Seq<(u32, u64)>, i: int)
    requires
        distinct_encodings(fields),
        0 <= i < fields.len(),
    ensures
        field_value(fields, fields[i].0) == fields[i].1,
    decreases fields.len(),
{
    if i < fields.len() - 1 {
        assert(fields.last() == fields[fields.len() - 1]);
        assert(fields.drop_last()[i] == fields[i]);
        lemma_field_value_at(fields.drop_last(), i);
    }
}

/// A field that is recorded nowhere reads as zero.
pub proof fn lemma_field_value_absent(fields: Seq<(u32, u64)>, encoding: u32)
    requires
        forall|i: int| 0 <= i < fields.len() ==> (#[trigger] fields[i]).0 != encoding,
    ensures
        field_value(fields, encoding) == 0,
    decreases fields.len(),
{
    if fields.len() > 0 {
        assert(fields.last() == fields[fields.len() - 1]);
        assert forall|i: int| 0 <= i < fields.drop_last().len() implies (
        #[trigger] fields.drop_last()[i]).0 != encoding by {
            assert(fields.drop_last()[i] == fields[i]);
        }
        lemma_field_value_absent(fields.drop_last(), encoding);
    }
}

/// Replacing the value at position `i` changes that field and no other.
pub proof fn lemma_field_value_update(fields: Seq<(u32, u64)>, i: int, value: u64, encoding: u32)
    requires
        distinct_encodings(fields),
        0 <= i < fields.len(),
    ensures
        field_value(fields.update(i, (fields[i].0, value)), encoding) == if encoding
            == fields[i].0 {
            value
        } else {
            field_value(fields, encoding)
        },
    decreases fields.len(),
{
    let updated = fields.update(i, (fields[i].0, value));
    assert(distinct_encodings(updated)) by {
        assert forall|a: int, b: int| 0 <= a < b < updated.len() implies (#[trigger] updated[a]).0
            != (#[trigger] updated[b]).0 by {
            assert(updated[a].0 == fields[a].0);
            assert(updated[b].0 == fields[b].0);
        }
    }
    if encoding == fields[i].0 {
        lemma_field_value_at(updated, i);
    } else if i == fields.len() - 1 {
        assert(updated.drop_last() =~= fields.drop_last());
    } else {
        assert(updated.drop_last() =~= fields.drop_last().update(i, (fields[i].0, value)));
        assert(fields.drop_last()[i] == fields[i]);
        assert(distinct_encodings(fields.drop_last())) by {
            assert forall|a: int, b: int| 0 <= a < b < fields.drop_last().len() implies (
            #[trigger] fields.drop_last()[a]).0 != (#[trigger] fields.drop_last()[b]).0 by {
                assert(fields.drop_last()[a] == fields[a]);
                assert(fields.drop_last()[b] == fields[b]);
            }
        }
        lemma_field_value_update(fields.drop_last(), i, value, encoding);
    }
}

/// The value of a field after a group of writes: what was written to it, or
/// what it held before.
pub open spec fn written_or(written: Option<u64>, before: u64) -> u64 {
    match written {
        Some(value) => value,
        None => before,
    }
}

/// The shadow of one VMCS region.
pub struct Vmcs {
    revision_id: u32,
    current: bool,
    fields: Vec<(u32, u64)>,
    pending: Vec<(u32, u64)>,
}

impl Vmcs {
    /// The structure is well formed: it records each field once.
    pub closed spec fn wf(&self) -> bool {
        distinct_encodings(self.fields@)
    }

    /// The content of the structure: the value of every field, by encoding.
    pub closed spec fn view(&self) -> Map<u32, u64> {
        Map::total(|encoding: u32| field_value(self.fields@, encoding))
    }

    /// The revision identifier stored in the first 32 bits of the region.
    pub closed spec fn spec_revision_id(&self) -> u32 {
        self.revision_id
    }

    /// Whether the structure has been made active and current on its processor.
    pub closed spec fn spec_is_current(&self) -> bool {
        self.current
    }

    /// The number of fields that have been written at least once.
    pub closed spec fn spec_len(&self) -> nat {
        self.fields@.len()
    }

    /// The fields that have been written, in the order of their first write.
    pub closed spec fn written(&self) -> Seq<(u32, u64)> {
        self.fields@
    }

    /// The writes that were made to the shadow and that the processor has
    /// yet to be told of, in the order in which they were made.
    pub closed spec fn pending(&self) -> Seq<(u32, u64)> {
        self.pending@
    }

    /// A cleared structure for a processor whose `IA32_VMX_BASIC` reads
    /// `vmx_basic`: it carries the revision identifier, every field is zero and
    /// it is not yet current.
    pub fn new(vmx_basic: u64) -> (vmcs: Self)
        ensures
            vmcs.wf(),
            vmcs.spec_revision_id() == low32(vmx_basic),
            !vmcs.spec_is_current(),
            vmcs.spec_len() == 0,
            vmcs.pending().len() == 0,
            forall|encoding: u32| #[trigger] vmcs@[encoding] == 0,
            vmcs@.dom() == Set::<u32>::full(),
    {
        let revision_id: u32 = low32(vmx_basic);
        let vmcs = Vmcs { revision_id, current: false, fields: Vec::new(), pending: Vec::new() };
        assert(vmcs@.dom() =~= Set::<u32>::full());
        vmcs
    }

    #[verifier::when_used_as_spec(spec_revision_id)]
    pub fn revision_id(&self) -> (id: u32)
        ensures
            id == self.spec_revision_id(),
    {
        self.revision_id
    }

    #[verifier::when_used_as_spec(spec_is_current)]
    pub fn is_current(&self) -> (current: bool)
        ensures
            current == self.spec_is_current(),
    {
        self.current
    }

    /// Records that the structure was loaded as the current one.
    pub fn load(&mut self)
        requires
            old(self).wf(),
        ensures
            final(self).wf(),
            final(self).spec_is_current(),
            final(self)@ == old(self)@,
            final(self).written() == old(self).written(),
            final(self).pending() == old(self).pending(),
            final(self).spec_revision_id() == old(self).spec_revision_id(),
    {
        self.current = true;
    }

    /// Reads a field.
    pub fn read(&self, encoding: u32) -> (value: u64)
        requires
            self.wf(),
        ensures
            value == self@[encoding],
    {
        let mut i: usize = 0;
        while i < self.fields.len()
            invariant
                i <= self.fields@.len(),
                forall|k: int| 0 <= k < i ==> (#[trigger] self.fields@[k]).0 != encoding,
                distinct_encodings(self.fields@),
            decreases self.fields@.len() - i,
        {
            if self.fields[i].0 == encoding {
                proof {
                    lemma_field_value_at(self.fields@, i as int);
                }
                return self.fields[i].1;
            }
            i += 1;
        }
        proof {
            lemma_field_value_absent(self.fields@, encoding);
        }
        0
    }

    /// Writes a field; every other field keeps its value. The write is added
    /// to those that are pending.
    pub fn write(&mut self, encoding: u32, value: u64)
        requires
            old(self).wf(),
        ensures
            final(self).wf(),
            final(self)@ == old(self)@.insert(encoding, value),
            final(self).pending() == old(self).pending().push((encoding, value)),
            final(self).spec_is_current() == old(self).spec_is_current(),
            final(self).spec_revision_id() == old(self).spec_revision_id(),
    {
        self.record(encoding, value);
        self.pending.push((encoding, value));
    }

    /// Notes the value that the processor itself stored in a field; every
    /// other field keeps its value. Nothing is added to the pending writes.
    pub fn record(&mut self, encoding: u32, value: u64)
        requires
            old(self).wf(),
        ensures
            final(self).wf(),
            final(self)@ == old(self)@.insert(encoding, value),
            final(self).pending() == old(self).pending(),
            final(self).spec_is_current() == old(self).spec_is_current(),
            final(self).spec_revision_id() == old(self).spec_revision_id(),
    {
        let mut i: usize = 0;
        while i < self.fields.len()
            invariant
                *self == *old(self),
                i <= self.fields@.len(),
                forall|k: int| 0 <= k < i ==> (#[trigger] self.fields@[k]).0 != encoding,
                distinct_encodings(self.fields@),
            decreases self.fields@.len() - i,
        {
            if self.fields[i].0 == encoding {
                proof {
                    assert forall|e: u32|
                        field_value(self.fields@.update(i as int, (encoding, value)), e) == if e
                            == encoding {
                            value
                        } else {
                            field_value(self.fields@, e)
                        } by {
                        lemma_field_value_update(self.fields@, i as int, value, e);
                    }
                    let updated = self.fields@.update(i as int, (encoding, value));
                    assert forall|a: int, b: int| 0 <= a < b < updated.len() implies (
                    #[trigger] updated[a]).0 != (#[trigger] updated[b]).0 by {
                        assert(updated[a].0 == self.fields@[a].0);
                        assert(updated[b].0 == self.fields@[b].0);
                    }
                }
                self.fields[i] = (encoding, value);
                assert(self@ =~= old(self)@.insert(encoding, value));
                return ;
            }
            i += 1;
        }
        proof {
            let pushed = self.fields@.push((encoding, value));
            assert(pushed.drop_last() =~= self.fields@);
            assert forall|a: int, b: int| 0 <= a < b < pushed.len() implies (#[trigger] pushed[a]).0
                != (#[trigger] pushed[b]).0 by {
                if b < self.fields@.len() {
                    assert(pushed[a] == self.fields@[a]);
                    assert(pushed[b] == self.fields@[b]);
                }
            }
        }
        self.fields.push((encoding, value));
        assert(self@ =~= old(self)@.insert(encoding, value));
    }

    /// Hands over the pending writes, in their order, for the caller to
    /// carry out with VMWRITE. None is pending after that; the fields keep
    /// their values.
    pub fn take_pending(&mut self) -> (writes: Vec<(u32, u64)>)
        requires
            old(self).wf(),
        ensures
            final(self).wf(),
            writes@ == old(self).pending(),
            final(self).pending().len() == 0,
            final(self)@ == old(self)@,
            final(self).written() == old(self).written(),
            final(self).spec_is_current() == old(self).spec_is_current(),
            final(self).spec_revision_id() == old(self).spec_revision_id(),
    {
        let mut writes: Vec<(u32, u64)> = Vec::new();
        core::mem::swap(&mut self.pending, &mut writes);
        writes
    }

    /// The number of fields that have been written at least once.
    pub fn len(&self) -> (n: usize)
        ensures
            n == self.spec_len(),
    {
        self.fields.len()
    }

    /// The `index`-th written field with its present value.
    pub fn entry(&self, index: usize) -> (field: (u32, u64))
        requires
            self.wf(),
            index < self.spec_len(),
        ensures
            field == self.written()[index as int],
            self@[field.0] == field.1,
    {
        proof {
            lemma_field_value_at(self.fields@, index as int);
        }
        self.fields[index]
    }
}

} // verus!
