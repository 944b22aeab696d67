//! The state of the processor from which a guest and its host start.
use vstd::prelude::*;
use crate::intel::controls::spec_access_rights;
use crate::intel::vmcs::{guest, host};
use crate::registers::Registers;

verus! {

/// A segment register as the processor reports it: the selector, the limit
/// that LSL returns and the access rights that LAR returns.
#[derive(Clone, Copy, Debug)]
pub struct Segment {
    pub selector: u16,
    pub limit: u32,
    pub access_rights: u32,
}

/// The state of the processor that becomes the initial state of the guest
/// and, where nothing overrides it, the state of the host.
#[derive(Clone, Copy, Debug)]
pub struct ProcessorState {
    pub es: Segment,
    pub cs: Segment,
    pub ss: Segment,
    pub ds: Segment,
    pub fs: Segment,
    pub gs: Segment,
    pub tr: Segment,
    pub ldtr: Segment,
    pub fs_base: u64,
    pub gs_base: u64,
    /// The base of the task state segment, from the descriptor that TR selects.
    pub tr_base: u64,
    pub gdtr_base: u64,
    pub gdtr_limit: u16,
    pub idtr_base: u64,
    pub idtr_limit: u16,
    pub sysenter_cs: u64,
    pub sysenter_eip: u64,
    pub sysenter_esp: u64,
    pub cr0: u64,
    pub cr3: u64,
    pub cr4: u64,
}

/// A descriptor table and a task state segment that the host uses on one
/// processor in place of those of the running system.
#[derive(Clone, Copy, Debug)]
pub struct HostGdtAndTss {
    pub gdt_base: u64,
    pub tr: Option<u16>,
    pub tss_base: Option<u64>,
}

/// What the host uses in place of the state of the running system. Whatever
/// is absent is taken from the running system.
#[derive(Debug)]
pub struct SharedHostData {
    /// The root of the host's page tables.
    pub pt: Option<u64>,
    /// One descriptor table and task state segment for each processor.
    pub gdts: Option<Vec<HostGdtAndTss>>,
    /// The base of the host's interrupt descriptor table.
    pub idt: Option<u64>,
}

impl SharedHostData {
    /// The data serves the processor with index `id`: where it overrides the
    /// descriptor table, it holds one for that processor, complete with task
    /// register and task state segment.
    pub open spec fn spec_serves(&self, id: usize) -> bool {
        match self.gdts {
            Some(gdts) => id < gdts@.len() && gdts@[id as int].tr is Some && gdts@[id as int].tss_base
                is Some,
            None => true,
        }
    }

    /// Tells whether the data serves the processor with index `id`.
    #[verifier::when_used_as_spec(spec_serves)]
    pub fn serves(&self, id: usize) -> (serves: bool)
        ensures
            serves == self.spec_serves(id),
    {
        match &self.gdts {
            Some(gdts) => id < gdts.len() && gdts[id].tr.is_some() && gdts[id].tss_base.is_some(),
            None => true,
        }
    }

    /// CR3 of the host.
    pub open spec fn host_cr3(&self, state: ProcessorState) -> u64 {
        match self.pt {
            Some(pt) => pt,
            None => state.cr3,
        }
    }

    /// The base of the host's global descriptor table on processor `id`.
    pub open spec fn host_gdt_base(&self, state: ProcessorState, id: usize) -> u64 {
        match self.gdts {
            Some(gdts) => gdts@[id as int].gdt_base,
            None => state.gdtr_base,
        }
    }

    /// The selector in the host's task register on processor `id`.
    pub open spec fn host_tr(&self, state: ProcessorState, id: usize) -> u16 {
        match self.gdts {
            Some(gdts) => gdts@[id as int].tr->0,
            None => state.tr.selector,
        }
    }

    /// The base of the host's task state segment on processor `id`.
    pub open spec fn host_tss_base(&self, state: ProcessorState, id: usize) -> u64 {
        match self.gdts {
            Some(gdts) => gdts@[id as int].tss_base->0,
            None => state.tr_base,
        }
    }

    /// The base of the host's interrupt descriptor table.
    pub open spec fn host_idt_base(&self, state: ProcessorState) -> u64 {
        match self.idt {
            Some(idt) => idt,
            None => state.idtr_base,
        }
    }
}

/// A selector as a host-state field holds it: the requested privilege level
/// and the table indicator, bits 2:0, are zero.
pub open spec fn spec_host_selector(selector: u16) -> u64 {
    ((selector / 8) * 8) as u64
}

/// A selector as a host-state field holds it.
#[verifier::when_used_as_spec(spec_host_selector)]
pub fn host_selector(selector: u16) -> (field: u64)
    ensures
        field == spec_host_selector(selector),
        field & 0b111 == 0,
{
    let masked: u16 = selector & 0xfff8;
    let field: u64 = masked as u64;
    assert(field & 0b111 == 0 && field == (selector / 8) * 8) by (bit_vector)
        requires
            field == (selector & 0xfff8) as u64,
    ;
    field
}

/// The selectors and limits among the guest-state fields: what initializing
/// the guest state writes to `encoding` if it is one of them.
pub open spec fn guest_segment_field(state: ProcessorState, encoding: u32) -> Option<u64> {
    if encoding == guest::ES_SELECTOR {
        Some(state.es.selector as u64)
    } else if encoding == guest::CS_SELECTOR {
        Some(state.cs.selector as u64)
    } else if encoding == guest::SS_SELECTOR {
        Some(state.ss.selector as u64)
    } else if encoding == guest::DS_SELECTOR {
        Some(state.ds.selector as u64)
    } else if encoding == guest::FS_SELECTOR {
        Some(state.fs.selector as u64)
    } else if encoding == guest::GS_SELECTOR {
        Some(state.gs.selector as u64)
    } else if encoding == guest::TR_SELECTOR {
        Some(state.tr.selector as u64)
    } else if encoding == guest::LDTR_SELECTOR {
        Some(state.ldtr.selector as u64)
    } else if encoding == guest::ES_LIMIT {
        Some(state.es.limit as u64)
    } else if encoding == guest::CS_LIMIT {
        Some(state.cs.limit as u64)
    } else if encoding == guest::SS_LIMIT {
        Some(state.ss.limit as u64)
    } else if encoding == guest::DS_LIMIT {
        Some(state.ds.limit as u64)
    } else if encoding == guest::FS_LIMIT {
        Some(state.fs.limit as u64)
    } else if encoding == guest::GS_LIMIT {
        Some(state.gs.limit as u64)
    } else if encoding == guest::TR_LIMIT {
        Some(state.tr.limit as u64)
    } else if encoding == guest::LDTR_LIMIT {
        Some(state.ldtr.limit as u64)
    } else {
        None
    }
}

/// The access rights and bases among the guest-state fields: what
/// initializing the guest state writes to `encoding` if it is one of them.
/// The bases of ES, CS, SS and DS are zero.
pub open spec fn guest_segment_attribute_field(state: ProcessorState, encoding: u32) -> Option<
    u64,
> {
    if encoding == guest::ES_ACCESS_RIGHTS {
        Some(spec_access_rights(state.es.access_rights) as u64)
    } else if encoding == guest::CS_ACCESS_RIGHTS {
        Some(spec_access_rights(state.cs.access_rights) as u64)
    } else if encoding == guest::SS_ACCESS_RIGHTS {
        Some(spec_access_rights(state.ss.access_rights) as u64)
    } else if encoding == guest::DS_ACCESS_RIGHTS {
        Some(spec_access_rights(state.ds.access_rights) as u64)
    } else if encoding == guest::FS_ACCESS_RIGHTS {
        Some(spec_access_rights(state.fs.access_rights) as u64)
    } else if encoding == guest::GS_ACCESS_RIGHTS {
        Some(spec_access_rights(state.gs.access_rights) as u64)
    } else if encoding == guest::TR_ACCESS_RIGHTS {
        Some(spec_access_rights(state.tr.access_rights) as u64)
    } else if encoding == guest::LDTR_ACCESS_RIGHTS {
        Some(spec_access_rights(state.ldtr.access_rights) as u64)
    } else if encoding == guest::ES_BASE || encoding == guest::CS_BASE || encoding
        == guest::SS_BASE || encoding == guest::DS_BASE {
        Some(0)
    } else if encoding == guest::FS_BASE {
        Some(state.fs_base)
    } else if encoding == guest::GS_BASE {
        Some(state.gs_base)
    } else if encoding == guest::TR_BASE {
        Some(state.tr_base)
    } else {
        None
    }
}

/// The guest-state fields that hold no part of a segment register: what
/// initializing the guest state writes to `encoding` if it is one of them.
/// The VMCS link pointer is all ones.
pub open spec fn guest_register_field(
    state: ProcessorState,
    registers: Registers,
    encoding: u32,
) -> Option<u64> {
    if encoding == guest::GDTR_BASE {
        Some(state.gdtr_base)
    } else if encoding == guest::GDTR_LIMIT {
        Some(state.gdtr_limit as u64)
    } else if encoding == guest::IDTR_BASE {
        Some(state.idtr_base)
    } else if encoding == guest::IDTR_LIMIT {
        Some(state.idtr_limit as u64)
    } else if encoding == guest::IA32_SYSENTER_CS {
        Some(state.sysenter_cs)
    } else if encoding == guest::IA32_SYSENTER_EIP {
        Some(state.sysenter_eip)
    } else if encoding == guest::IA32_SYSENTER_ESP {
        Some(state.sysenter_esp)
    } else if encoding == guest::LINK_PTR_FULL {
        Some(u64::MAX)
    } else if encoding == guest::CR0 {
        Some(state.cr0)
    } else if encoding == guest::CR3 {
        Some(state.cr3)
    } else if encoding == guest::CR4 {
        Some(state.cr4)
    } else if encoding == guest::RSP {
        Some(registers.rsp)
    } else if encoding == guest::RIP {
        Some(registers.rip)
    } else if encoding == guest::RFLAGS {
        Some(registers.rflags)
    } else {
        None
    }
}

/// What initializing the guest state writes to `encoding`, if anything.
pub open spec fn guest_state_field(state: ProcessorState, registers: Registers, encoding: u32) -> Option<
    u64,
> {
    if guest_segment_field(state, encoding) is Some {
        guest_segment_field(state, encoding)
    } else if guest_segment_attribute_field(state, encoding) is Some {
        guest_segment_attribute_field(state, encoding)
    } else {
        guest_register_field(state, registers, encoding)
    }
}

/// What initializing the host state writes to `encoding`, if anything.
pub open spec fn host_state_field(
    state: ProcessorState,
    shared_host: SharedHostData,
    id: usize,
    encoding: u32,
) -> Option<u64> {
    if encoding == host::ES_SELECTOR {
        Some(spec_host_selector(state.es.selector))
    } else if encoding == host::CS_SELECTOR {
        Some(spec_host_selector(state.cs.selector))
    } else if encoding == host::SS_SELECTOR {
        Some(spec_host_selector(state.ss.selector))
    } else if encoding == host::DS_SELECTOR {
        Some(spec_host_selector(state.ds.selector))
    } else if encoding == host::FS_SELECTOR {
        Some(spec_host_selector(state.fs.selector))
    } else if encoding == host::GS_SELECTOR {
        Some(spec_host_selector(state.gs.selector))
    } else if encoding == host::TR_SELECTOR {
        Some(spec_host_selector(shared_host.host_tr(state, id)))
    } else if encoding == host::CR0 {
        Some(state.cr0)
    } else if encoding == host::CR3 {
        Some(shared_host.host_cr3(state))
    } else if encoding == host::CR4 {
        Some(state.cr4)
    } else if encoding == host::FS_BASE {
        Some(state.fs_base)
    } else if encoding == host::GS_BASE {
        Some(state.gs_base)
    } else if encoding == host::TR_BASE {
        Some(shared_host.host_tss_base(state, id))
    } else if encoding == host::GDTR_BASE {
        Some(shared_host.host_gdt_base(state, id))
    } else if encoding == host::IDTR_BASE {
        Some(shared_host.host_idt_base(state))
    } else {
        None
    }
}

/// The writes that initialize the selectors and limits of the guest's
/// segment registers, in their order.
pub open spec fn guest_segment_writes(state: ProcessorState) -> Seq<(u32, u64)> {
    seq![
        (guest::ES_SELECTOR, state.es.selector as u64),
        (guest::CS_SELECTOR, state.cs.selector as u64),
        (guest::SS_SELECTOR, state.ss.selector as u64),
        (guest::DS_SELECTOR, state.ds.selector as u64),
        (guest::FS_SELECTOR, state.fs.selector as u64),
        (guest::GS_SELECTOR, state.gs.selector as u64),
        (guest::TR_SELECTOR, state.tr.selector as u64),
        (guest::LDTR_SELECTOR, state.ldtr.selector as u64),
        (guest::ES_LIMIT, state.es.limit as u64),
        (guest::CS_LIMIT, state.cs.limit as u64),
        (guest::SS_LIMIT, state.ss.limit as u64),
        (guest::DS_LIMIT, state.ds.limit as u64),
        (guest::FS_LIMIT, state.fs.limit as u64),
        (guest::GS_LIMIT, state.gs.limit as u64),
        (guest::TR_LIMIT, state.tr.limit as u64),
        (guest::LDTR_LIMIT, state.ldtr.limit as u64),
    ]
}

/// The writes that initialize the access rights and bases of the guest's
/// segment registers, in their order.
pub open spec fn guest_segment_attribute_writes(state: ProcessorState) -> Seq<(u32, u64)> {
    seq![
        (guest::ES_ACCESS_RIGHTS, spec_access_rights(state.es.access_rights) as u64),
        (guest::CS_ACCESS_RIGHTS, spec_access_rights(state.cs.access_rights) as u64),
        (guest::SS_ACCESS_RIGHTS, spec_access_rights(state.ss.access_rights) as u64),
        (guest::DS_ACCESS_RIGHTS, spec_access_rights(state.ds.access_rights) as u64),
        (guest::FS_ACCESS_RIGHTS, spec_access_rights(state.fs.access_rights) as u64),
        (guest::GS_ACCESS_RIGHTS, spec_access_rights(state.gs.access_rights) as u64),
        (guest::TR_ACCESS_RIGHTS, spec_access_rights(state.tr.access_rights) as u64),
        (guest::LDTR_ACCESS_RIGHTS, spec_access_rights(state.ldtr.access_rights) as u64),
        (guest::ES_BASE, 0u64),
        (guest::CS_BASE, 0u64),
        (guest::SS_BASE, 0u64),
        (guest::DS_BASE, 0u64),
        (guest::FS_BASE, state.fs_base),
        (guest::GS_BASE, state.gs_base),
        (guest::TR_BASE, state.tr_base),
    ]
}

/// The writes that initialize the guest-state fields which hold no part of a
/// segment register, in their order.
pub open spec fn guest_register_writes(state: ProcessorState, registers: Registers) -> Seq<
    (u32, u64),
> {
    seq![
        (guest::GDTR_BASE, state.gdtr_base),
        (guest::GDTR_LIMIT, state.gdtr_limit as u64),
        (guest::IDTR_BASE, state.idtr_base),
        (guest::IDTR_LIMIT, state.idtr_limit as u64),
        (guest::IA32_SYSENTER_CS, state.sysenter_cs),
        (guest::IA32_SYSENTER_EIP, state.sysenter_eip),
        (guest::IA32_SYSENTER_ESP, state.sysenter_esp),
        (guest::LINK_PTR_FULL, u64::MAX),
        (guest::CR0, state.cr0),
        (guest::CR3, state.cr3),
        (guest::CR4, state.cr4),
        (guest::RSP, registers.rsp),
        (guest::RIP, registers.rip),
        (guest::RFLAGS, registers.rflags),
    ]
}

/// The writes that initialize the guest state, in their order: selectors
/// and limits, then access rights and bases, then the rest.
pub open spec fn guest_state_writes(state: ProcessorState, registers: Registers) -> Seq<
    (u32, u64),
> {
    guest_segment_writes(state) + guest_segment_attribute_writes(state) + guest_register_writes(
        state,
        registers,
    )
}

/// The writes that initialize the host state, in their order.
pub open spec fn host_state_writes(
    state: ProcessorState,
    shared_host: SharedHostData,
    id: usize,
) -> Seq<(u32, u64)> {
    seq![
        (host::ES_SELECTOR, spec_host_selector(state.es.selector)),
        (host::CS_SELECTOR, spec_host_selector(state.cs.selector)),
        (host::SS_SELECTOR, spec_host_selector(state.ss.selector)),
        (host::DS_SELECTOR, spec_host_selector(state.ds.selector)),
        (host::FS_SELECTOR, spec_host_selector(state.fs.selector)),
        (host::GS_SELECTOR, spec_host_selector(state.gs.selector)),
        (host::TR_SELECTOR, spec_host_selector(shared_host.host_tr(state, id))),
        (host::CR0, state.cr0),
        (host::CR3, shared_host.host_cr3(state)),
        (host::CR4, state.cr4),
        (host::FS_BASE, state.fs_base),
        (host::GS_BASE, state.gs_base),
        (host::TR_BASE, shared_host.host_tss_base(state, id)),
        (host::GDTR_BASE, shared_host.host_gdt_base(state, id)),
        (host::IDTR_BASE, shared_host.host_idt_base(state)),
    ]
}

/// Whether `encoding` names the selector field of a host segment register.
pub open spec fn is_host_selector_field(encoding: u32) -> bool {
    ||| encoding == host::ES_SELECTOR
    ||| encoding == host::CS_SELECTOR
    ||| encoding == host::SS_SELECTOR
    ||| encoding == host::DS_SELECTOR
    ||| encoding == host::FS_SELECTOR
    ||| encoding == host::GS_SELECTOR
    ||| encoding == host::TR_SELECTOR
}

/// Whatever the processor state and the overrides are, a selector of the
/// host has its low three bits clear.
pub proof fn lemma_host_selectors_are_aligned(
    state: ProcessorState,
    shared_host: SharedHostData,
    id: usize,
    encoding: u32,
)
    requires
        is_host_selector_field(encoding),
    ensures
        host_state_field(state, shared_host, id, encoding) is Some,
        host_state_field(state, shared_host, id, encoding)->0 & 0b111 == 0,
{
    assert forall|selector: u16| #[trigger] spec_host_selector(selector) & 0b111 == 0 by {
        let field = spec_host_selector(selector);
        assert(field & 0b111 == 0) by (bit_vector)
            requires
                field == ((selector / 8) * 8) as u64,
        ;
    }
}

} // verus!
