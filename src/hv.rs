//! The per-processor control block (VCPU), its setup from a captured context,
//! and the bookkeeping of the virtualize / devirtualize sequence.

use crate::segments::{access_right_of, segment_access_right};
use crate::structs::{
    is_zero_trap_frame, guest_regs, guest_regs_layout, trap_frame_layout, KERNEL_STACK_SIZE, KTRAP_FRAME,
    KTRAP_FRAME_SIZE, STACK_CONTENTS_SIZE,
};
use crate::vmexit::ExitAction;
use crate::utils::{disable_svm, svm_disabled};
use crate::vmcb::{
    control_area, is_zero_bytes, is_zero_control_area, is_zero_vmcb, offset_of, state_save, vmcb, total, PAGE_SIZE, SVM_INTERCEPT_MISC2_VMMCALL,
    SVM_INTERCEPT_MISC2_VMRUN,
};
use vstd::prelude::*;

verus! {

/// Guest address-space identifier; zero is reserved for the host.
pub const GUEST_ASID: u32 = 1;

/// The memory of the host stack of a processor while it runs as hypervisor
/// host: raw stack bytes, a trap frame, and the slots the trampoline reads.
pub struct host_stack_layout {
    pub stack_contents: [u8; STACK_CONTENTS_SIZE],
    pub trap_frame: KTRAP_FRAME,
    pub guest_vmcb_pa: u64,
    pub host_vmcb_pa: u64,
    /// Address of the VCPU that owns this stack.
    pub self_data: u64,
    /// Reserved for data shared by all processors.
    pub shared_data: u64,
    pub padding_1: u64,
    pub reserved_1: u64,
}

/// The control block of one logical processor.
pub struct vcpu {
    pub host_stack_layout: host_stack_layout,
    pub guest_vmcb: vmcb,
    pub host_vmcb: vmcb,
    pub host_state_area: [u8; PAGE_SIZE],
    pub prev_vmexit: u64,
    pub unload: bool,
    /// Pads the block to a whole number of pages.
    pub reserved: [u8; 4087],
}

/// The parts of a thread's captured register context that become the guest's
/// resumption state.
#[derive(Clone, Copy, Debug, Default, PartialEq, Eq)]
pub struct captured_context {
    pub seg_cs: u16,
    pub seg_ds: u16,
    pub seg_es: u16,
    pub seg_ss: u16,
    pub eflags: u32,
    pub rsp: u64,
    pub rip: u64,
}

/// State read from the live processor for the guest VMCB: descriptor tables,
/// the segment limits and GDT descriptors of the captured selectors, control
/// registers and MSRs, and the physical addresses of the VCPU's two VMCBs.
#[derive(Clone, Copy, Debug, Default, PartialEq, Eq)]
pub struct processor_state {
    pub gdtr_base: u64,
    pub gdtr_limit: u16,
    pub idtr_base: u64,
    pub idtr_limit: u16,
    pub cs_limit: u32,
    pub ds_limit: u32,
    pub es_limit: u32,
    pub ss_limit: u32,
    pub cs_descriptor: u64,
    pub ds_descriptor: u64,
    pub es_descriptor: u64,
    pub ss_descriptor: u64,
    pub efer: u64,
    pub pat: u64,
    pub cr0: u64,
    pub cr2: u64,
    pub cr3: u64,
    pub cr4: u64,
    pub guest_vmcb_pa: u64,
    pub host_vmcb_pa: u64,
}

/// Whether `v` is a freshly zeroed VCPU: every byte zero but the two marker
/// slots of the host stack, which hold all ones.
pub open spec fn is_zeroed_vcpu(v: vcpu) -> bool {
    &&& is_zero_bytes(v.host_stack_layout.stack_contents@)
    &&& is_zero_trap_frame(v.host_stack_layout.trap_frame)
    &&& v.host_stack_layout.guest_vmcb_pa == 0
    &&& v.host_stack_layout.host_vmcb_pa == 0
    &&& v.host_stack_layout.self_data == 0
    &&& v.host_stack_layout.shared_data == 0
    &&& v.host_stack_layout.padding_1 == u64::MAX
    &&& v.host_stack_layout.reserved_1 == u64::MAX
    &&& is_zero_vmcb(v.guest_vmcb)
    &&& is_zero_vmcb(v.host_vmcb)
    &&& is_zero_bytes(v.host_state_area@)
    &&& v.prev_vmexit == 0
    &&& !v.unload
    &&& is_zero_bytes(v.reserved@)
}

/// Whether a control area intercepts VMRUN and VMMCALL and nothing else, with
/// ASID 1 and every other field zero.
pub open spec fn only_setup_intercepts(c: control_area) -> bool {
    &&& c.intercept_misc2 == SVM_INTERCEPT_MISC2_VMRUN | SVM_INTERCEPT_MISC2_VMMCALL
    &&& c.guest_asid == GUEST_ASID
    &&& is_zero_control_area(control_area { intercept_misc2: 0, guest_asid: 0, ..c })
}

/// The guest control area after setup: VMRUN and VMMCALL intercepted, ASID 1.
pub open spec fn control_after_setup(c: control_area) -> control_area {
    control_area {
        intercept_misc2: c.intercept_misc2 | SVM_INTERCEPT_MISC2_VMRUN | SVM_INTERCEPT_MISC2_VMMCALL,
        guest_asid: GUEST_ASID,
        ..c
    }
}

/// The guest state save area after setup: segment state of CS, DS, ES and SS,
/// descriptor tables, control registers and MSRs from the processor, and
/// RFLAGS, RSP and RIP from the captured context.
pub open spec fn state_after_setup(
    s: state_save,
    context: captured_context,
    cpu: processor_state,
) -> state_save {
    state_save {
        gdtr_base: cpu.gdtr_base,
        gdtr_limit: cpu.gdtr_limit as u32,
        idtr_base: cpu.idtr_base,
        idtr_limit: cpu.idtr_limit as u32,
        cs_limit: cpu.cs_limit,
        ds_limit: cpu.ds_limit,
        es_limit: cpu.es_limit,
        ss_limit: cpu.ss_limit,
        cs_selector: context.seg_cs,
        ds_selector: context.seg_ds,
        es_selector: context.seg_es,
        ss_selector: context.seg_ss,
        cs_attrib: access_right_of(cpu.cs_descriptor),
        ds_attrib: access_right_of(cpu.ds_descriptor),
        es_attrib: access_right_of(cpu.es_descriptor),
        ss_attrib: access_right_of(cpu.ss_descriptor),
        efer: cpu.efer,
        gpat: cpu.pat,
        cr0: cpu.cr0,
        cr2: cpu.cr2,
        cr3: cpu.cr3,
        cr4: cpu.cr4,
        rflags: context.eflags as u64,
        rsp: context.rsp,
        rip: context.rip,
        ..s
    }
}

/// The VCPU after setup from `context` and `cpu`, `address` being its own address.
pub open spec fn vcpu_after_setup(
    v: vcpu,
    context: captured_context,
    cpu: processor_state,
    address: u64,
) -> vcpu {
    vcpu {
        host_stack_layout: host_stack_layout {
            guest_vmcb_pa: cpu.guest_vmcb_pa,
            host_vmcb_pa: cpu.host_vmcb_pa,
            self_data: address,
            ..v.host_stack_layout
        },
        guest_vmcb: vmcb {
            control_area: control_after_setup(v.guest_vmcb.control_area),
            state_save_area: state_after_setup(v.guest_vmcb.state_save_area, context, cpu),
            ..v.guest_vmcb
        },
        ..v
    }
}

impl vcpu {
    /// A VCPU with all memory zero but the two marker slots of the host stack,
    /// which hold all ones (`is_zeroed_vcpu`).
    pub fn zeroed() -> (r: vcpu)
        ensures
            is_zeroed_vcpu(r),
    {
        vcpu {
            host_stack_layout: host_stack_layout {
                stack_contents: [0u8; STACK_CONTENTS_SIZE],
                trap_frame: KTRAP_FRAME::zeroed(),
                guest_vmcb_pa: 0,
                host_vmcb_pa: 0,
                self_data: 0,
                shared_data: 0,
                padding_1: u64::MAX,
                reserved_1: u64::MAX,
            },
            guest_vmcb: vmcb::zeroed(),
            host_vmcb: vmcb::zeroed(),
            host_state_area: [0u8; PAGE_SIZE],
            prev_vmexit: 0,
            unload: false,
            reserved: [0u8; 4087],
        }
    }

    /// Populates the guest VMCB from the captured context and the processor's
    /// state, intercepting only VMRUN and VMMCALL, and records the VMCBs'
    /// physical addresses and the VCPU's own address on the host stack.
    pub fn setup_vmcb(&mut self, context: &captured_context, cpu: &processor_state, address: u64)
        ensures
            *final(self) == vcpu_after_setup(*old(self), *context, *cpu, address),
    {
        self.host_stack_layout.guest_vmcb_pa = cpu.guest_vmcb_pa;
        self.host_stack_layout.host_vmcb_pa = cpu.host_vmcb_pa;
        self.host_stack_layout.self_data = address;

        self.guest_vmcb.control_area.intercept_misc2 = self.guest_vmcb.control_area.intercept_misc2
            | SVM_INTERCEPT_MISC2_VMRUN;
        self.guest_vmcb.control_area.intercept_misc2 = self.guest_vmcb.control_area.intercept_misc2
            | SVM_INTERCEPT_MISC2_VMMCALL;
        self.guest_vmcb.control_area.guest_asid = GUEST_ASID;

        self.guest_vmcb.state_save_area.gdtr_base = cpu.gdtr_base;
        self.guest_vmcb.state_save_area.gdtr_limit = cpu.gdtr_limit as u32;
        self.guest_vmcb.state_save_area.idtr_base = cpu.idtr_base;
        self.guest_vmcb.state_save_area.idtr_limit = cpu.idtr_limit as u32;

        self.guest_vmcb.state_save_area.cs_limit = cpu.cs_limit;
        self.guest_vmcb.state_save_area.ds_limit = cpu.ds_limit;
        self.guest_vmcb.state_save_area.es_limit = cpu.es_limit;
        self.guest_vmcb.state_save_area.ss_limit = cpu.ss_limit;

        self.guest_vmcb.state_save_area.cs_selector = context.seg_cs;
        self.guest_vmcb.state_save_area.ds_selector = context.seg_ds;
        self.guest_vmcb.state_save_area.es_selector = context.seg_es;
        self.guest_vmcb.state_save_area.ss_selector = context.seg_ss;

        self.guest_vmcb.state_save_area.cs_attrib = segment_access_right(cpu.cs_descriptor);
        self.guest_vmcb.state_save_area.ds_attrib = segment_access_right(cpu.ds_descriptor);
        self.guest_vmcb.state_save_area.es_attrib = segment_access_right(cpu.es_descriptor);
        self.guest_vmcb.state_save_area.ss_attrib = segment_access_right(cpu.ss_descriptor);

        self.guest_vmcb.state_save_area.efer = cpu.efer;
        self.guest_vmcb.state_save_area.gpat = cpu.pat;
        self.guest_vmcb.state_save_area.cr0 = cpu.cr0;
        self.guest_vmcb.state_save_area.cr2 = cpu.cr2;
        self.guest_vmcb.state_save_area.cr3 = cpu.cr3;
        self.guest_vmcb.state_save_area.cr4 = cpu.cr4;

        self.guest_vmcb.state_save_area.rflags = context.eflags as u64;
        self.guest_vmcb.state_save_area.rsp = context.rsp;
        self.guest_vmcb.state_save_area.rip = context.rip;
    }

    /// A fresh VCPU, zeroed and then set up from `context` and `cpu`, placed at
    /// `address`: its stack bytes and trap frame are zero, only VMRUN and
    /// VMMCALL are intercepted, and the host VMCB and host save area are zero.
    pub fn new(context: &captured_context, cpu: &processor_state, address: u64) -> (r: Box<vcpu>)
        ensures
            exists|z: vcpu| #[trigger]
                is_zeroed_vcpu(z) && *r == vcpu_after_setup(z, *context, *cpu, address),
            is_zero_bytes(r.host_stack_layout.stack_contents@),
            is_zero_trap_frame(r.host_stack_layout.trap_frame),
            r.host_stack_layout.guest_vmcb_pa == cpu.guest_vmcb_pa,
            r.host_stack_layout.host_vmcb_pa == cpu.host_vmcb_pa,
            r.host_stack_layout.self_data == address,
            r.host_stack_layout.shared_data == 0,
            r.host_stack_layout.padding_1 == u64::MAX,
            r.host_stack_layout.reserved_1 == u64::MAX,
            only_setup_intercepts(r.guest_vmcb.control_area),
            r.guest_vmcb.state_save_area == state_after_setup(
                r.guest_vmcb.state_save_area,
                *context,
                *cpu,
            ),
            r.guest_vmcb.state_save_area.rax == 0,
            is_zero_vmcb(r.host_vmcb),
            is_zero_bytes(r.host_state_area@),
            r.prev_vmexit == 0,
            !r.unload,
    {
        let mut instance = Box::new(vcpu::zeroed());
        let ghost z = *instance;
        instance.setup_vmcb(context, cpu, address);
        assert(is_zeroed_vcpu(z) && *instance == vcpu_after_setup(z, *context, *cpu, address));
        assert((0u32 | 1u32) | 2u32 == 1u32 | 2u32) by (bit_vector);
        instance
    }
}

/// The registers handed to the devirtualized code: the VCPU's address split
/// into its low half in RAX and its high half in RDX, the guest's next RIP in
/// RBX and its RSP in RCX.
pub open spec fn devirtualized_regs(v: vcpu, address: u64, regs: guest_regs) -> guest_regs {
    guest_regs {
        rax: address & 0xffff_ffff,
        rdx: address >> 32u64,
        rbx: v.guest_vmcb.control_area.n_rip,
        rcx: v.guest_vmcb.state_save_area.rsp,
        ..regs
    }
}

/// The way out of virtualization: EFER without the SVM-enable bit, and the
/// guest's RFLAGS.
pub open spec fn devirtualize_action(v: vcpu, efer: u64) -> ExitAction {
    ExitAction::Devirtualize { efer: svm_disabled(efer), rflags: v.guest_vmcb.state_save_area.rflags }
}

/// Prepares the registers and processor state with which the code that
/// triggered the exit resumes outside virtualization.
pub fn devirtualize_cpu(
    vcpu_ctx: &vcpu,
    vcpu_address: u64,
    efer: u64,
    guest_regs: &mut guest_regs,
) -> (r: ExitAction)
    ensures
        *final(guest_regs) == devirtualized_regs(*vcpu_ctx, vcpu_address, *old(guest_regs)),
        r == devirtualize_action(*vcpu_ctx, efer),
{
    guest_regs.rax = vcpu_address & 0xffff_ffff;
    guest_regs.rdx = vcpu_address >> 32u64;
    guest_regs.rbx = vcpu_ctx.guest_vmcb.control_area.n_rip;
    guest_regs.rcx = vcpu_ctx.guest_vmcb.state_save_area.rsp;
    ExitAction::Devirtualize {
        efer: disable_svm(efer),
        rflags: vcpu_ctx.guest_vmcb.state_save_area.rflags,
    }
}


/// Largest number of logical processors that the bitset can track.
pub const MAX_PROCESSORS: u32 = 64;

/// Whether bit `p` of `bits` is set.
pub open spec fn has_bit(bits: u64, p: u32) -> bool {
    (bits >> (p as u64)) & 1u64 == 1u64
}

/// `bits` with bit `p` set.
pub open spec fn with_bit(bits: u64, p: u32) -> u64 {
    bits | (1u64 << (p as u64))
}

/// `bits` with bit `p` clear.
pub open spec fn without_bit(bits: u64, p: u32) -> u64 {
    bits & !(1u64 << (p as u64))
}

proof fn lemma_bit_ops(b: u64, p: u32, q: u32)
    requires
        p < 64,
        q < 64,
    ensures
        has_bit(with_bit(b, p), q) == (p == q || has_bit(b, q)),
        has_bit(without_bit(b, p), q) == (p != q && has_bit(b, q)),
        !has_bit(0, q),
{
    let pp = p as u64;
    let qq = q as u64;
    assert(((b | (1u64 << pp)) >> qq) & 1u64 == 1u64 <==> (pp == qq || (b >> qq) & 1u64 == 1u64))
        by (bit_vector)
        requires
            pp < 64,
            qq < 64,
    ;
    assert(((b & !(1u64 << pp)) >> qq) & 1u64 == 1u64 <==> (pp != qq && (b >> qq) & 1u64 == 1u64))
        by (bit_vector)
        requires
            pp < 64,
            qq < 64,
    ;
    assert((0u64 >> qq) & 1u64 != 1u64) by (bit_vector);
}

proof fn lemma_with_set_bit(b: u64, p: u32)
    requires
        p < 64,
        has_bit(b, p),
    ensures
        with_bit(b, p) == b,
{
    let pp = p as u64;
    assert((b >> pp) & 1u64 == 1u64 ==> b | (1u64 << pp) == b) by (bit_vector)
        requires
            pp < 64,
    ;
}

/// One bit per logical processor: bit `p` set once processor `p` has been
/// set up for virtualization.
pub struct VirtualizationBitset {
    pub bits: u64,
}

impl VirtualizationBitset {
    /// A bitset with no processor marked.
    pub fn new() -> (r: VirtualizationBitset)
        ensures
            r.bits == 0,
    {
        VirtualizationBitset { bits: 0 }
    }

    /// Whether processor `processor` is marked.
    pub fn is_virtualized(&self, processor: u32) -> (r: bool)
        requires
            processor < MAX_PROCESSORS,
        ensures
            r == has_bit(self.bits, processor),
    {
        (self.bits >> (processor as u64)) & 1u64 == 1u64
    }

    /// Marks processor `processor`.
    pub fn set_virtualized(&mut self, processor: u32)
        requires
            processor < MAX_PROCESSORS,
        ensures
            final(self).bits == with_bit(old(self).bits, processor),
    {
        self.bits = self.bits | (1u64 << (processor as u64));
    }

    /// Unmarks processor `processor`.
    pub fn clear_virtualized(&mut self, processor: u32)
        requires
            processor < MAX_PROCESSORS,
        ensures
            final(self).bits == without_bit(old(self).bits, processor),
    {
        self.bits = self.bits & !(1u64 << (processor as u64));
    }
}

/// Process-wide state of the virtualize / devirtualize sequence.
pub struct Hypervisor {
    /// Processors whose setup has completed.
    pub virtualized: VirtualizationBitset,
    /// Processors on which SVM was turned on and not yet turned off.
    pub svm_on: VirtualizationBitset,
    /// Number of slots of the VCPU pool, while it is allocated.
    pub pool: Option<u32>,
}

/// The state after the decision for processor `p` in a virtualize pass: the
/// processor is marked, and SVM is turned on where it was not marked before.
pub open spec fn virtualize_step(h: Hypervisor, p: u32) -> Hypervisor {
    Hypervisor {
        virtualized: VirtualizationBitset { bits: with_bit(h.virtualized.bits, p) },
        svm_on: VirtualizationBitset {
            bits: if has_bit(h.virtualized.bits, p) {
                h.svm_on.bits
            } else {
                with_bit(h.svm_on.bits, p)
            },
        },
        ..h
    }
}

/// The state after a virtualize pass over processors `0..n`.
pub open spec fn virtualize_all(h: Hypervisor, n: nat) -> Hypervisor
    decreases n,
{
    if n == 0 {
        h
    } else {
        virtualize_step(virtualize_all(h, (n - 1) as nat), (n - 1) as u32)
    }
}

/// Whether a virtualize pass that starts in `h` launches processor `p`.
pub open spec fn launches_at(h: Hypervisor, p: u32) -> bool {
    !has_bit(virtualize_all(h, p as nat).virtualized.bits, p)
}

/// The state after processor `p` has left virtualization.
pub open spec fn devirtualize_step(h: Hypervisor, p: u32) -> Hypervisor {
    Hypervisor { svm_on: VirtualizationBitset { bits: without_bit(h.svm_on.bits, p) }, ..h }
}

/// The state after a devirtualize pass over processors `0..n`.
pub open spec fn devirtualize_all(h: Hypervisor, n: nat) -> Hypervisor
    decreases n,
{
    if n == 0 {
        h
    } else {
        devirtualize_step(devirtualize_all(h, (n - 1) as nat), (n - 1) as u32)
    }
}

/// State and freed pool of a teardown: the pool is freed, and the bitsets
/// reset, only once no processor has SVM on.
pub open spec fn release_outcome(h: Hypervisor) -> (Hypervisor, Option<u32>) {
    if h.svm_on.bits == 0 {
        (Hypervisor { virtualized: VirtualizationBitset { bits: 0 }, pool: None, ..h }, h.pool)
    } else {
        (h, None)
    }
}

impl Hypervisor {
    /// The state before any virtualization: no pool, no processor marked.
    pub fn new() -> (r: Hypervisor)
        ensures
            r.virtualized.bits == 0,
            r.svm_on.bits == 0,
            r.pool is None,
    {
        Hypervisor {
            virtualized: VirtualizationBitset::new(),
            svm_on: VirtualizationBitset::new(),
            pool: None,
        }
    }

    /// Records the allocation of a VCPU pool for `processor_count` processors.
    /// Refused (`false`, nothing changed) where a pool is already allocated or
    /// the count exceeds what the bitset tracks.
    pub fn allocate_pool(&mut self, processor_count: u32) -> (r: bool)
        ensures
            r == (old(self).pool is None && processor_count <= MAX_PROCESSORS),
            r ==> *final(self) == (Hypervisor { pool: Some(processor_count), ..*old(self) }),
            !r ==> *final(self) == *old(self),
    {
        if self.pool.is_some() || processor_count > MAX_PROCESSORS {
            return false;
        }
        self.pool = Some(processor_count);
        true
    }

    /// The decision for processor `processor` in a virtualize pass, taken on
    /// that processor after its context was captured: `true` where it is not
    /// yet marked, and SVM is to be turned on, its VCPU set up and the guest
    /// launched; `false` where the guest already runs.
    pub fn virtualize_cpu(&mut self, processor: u32) -> (r: bool)
        requires
            processor < MAX_PROCESSORS,
        ensures
            r == !has_bit(old(self).virtualized.bits, processor),
            *final(self) == virtualize_step(*old(self), processor),
    {
        if self.virtualized.is_virtualized(processor) {
            proof {
                lemma_with_set_bit(self.virtualized.bits, processor);
            }
            return false;
        }
        self.virtualized.set_virtualized(processor);
        self.svm_on.set_virtualized(processor);
        true
    }

    /// Records that processor `processor` has left virtualization, with the
    /// SVM-enable bit of its EFER clear. Its bit in `virtualized` stays set
    /// until the pool is released, so the pass cannot set it up again before.
    pub fn devirtualized_cpu(&mut self, processor: u32)
        requires
            processor < MAX_PROCESSORS,
        ensures
            *final(self) == devirtualize_step(*old(self), processor),
    {
        self.svm_on.clear_virtualized(processor);
    }

    /// Frees the VCPU pool once no processor has SVM on: returns the freed
    /// pool's slot count, or `None` where there is none or some processor is
    /// still virtualized.
    pub fn release_pool(&mut self) -> (r: Option<u32>)
        ensures
            (*final(self), r) == release_outcome(*old(self)),
    {
        if self.svm_on.bits != 0 {
            return None;
        }
        self.virtualized = VirtualizationBitset::new();
        let freed = self.pool;
        self.pool = None;
        freed
    }
}


proof fn lemma_virtualize_all_bits(h: Hypervisor, n: nat, q: u32)
    requires
        n <= 64,
        q < 64,
    ensures
        has_bit(virtualize_all(h, n).virtualized.bits, q) == (q < n || has_bit(
            h.virtualized.bits,
            q,
        )),
        virtualize_all(h, n).pool == h.pool,
    decreases n,
{
    if n > 0 {
        let prev = virtualize_all(h, (n - 1) as nat);
        lemma_virtualize_all_bits(h, (n - 1) as nat, q);
        lemma_bit_ops(prev.virtualized.bits, (n - 1) as u32, q);
    }
}

/// The bits of processors `0..n`.
pub open spec fn low_bits(n: nat) -> u64
    decreases n,
{
    if n == 0 {
        0
    } else {
        low_bits((n - 1) as nat) | (1u64 << ((n - 1) as u64))
    }
}

proof fn lemma_virtualize_all_svm(h: Hypervisor, n: nat)
    requires
        n <= 64,
        h.svm_on.bits == 0,
    ensures
        virtualize_all(h, n).svm_on.bits & !low_bits(n) == 0,
        virtualize_all(h, n).pool == h.pool,
    decreases n,
{
    if n == 0 {
        assert(0u64 & !0u64 == 0) by (bit_vector);
    } else {
        let s = virtualize_all(h, (n - 1) as nat).svm_on.bits;
        let m = low_bits((n - 1) as nat);
        let k = (n - 1) as u64;
        lemma_virtualize_all_svm(h, (n - 1) as nat);
        assert(((n - 1) as u32) as u64 == k);
        assert(s & !m == 0 ==> (s | (1u64 << k)) & !(m | (1u64 << k)) == 0 && s & !(m | (1u64
            << k)) == 0) by (bit_vector)
            requires
                k < 64,
        ;
    }
}

proof fn lemma_devirtualize_all_svm(h: Hypervisor, n: nat)
    requires
        n <= 64,
    ensures
        devirtualize_all(h, n).svm_on.bits == h.svm_on.bits & !low_bits(n),
        devirtualize_all(h, n).pool == h.pool,
    decreases n,
{
    let b = h.svm_on.bits;
    if n == 0 {
        assert(b & !0u64 == b) by (bit_vector);
    } else {
        let m = low_bits((n - 1) as nat);
        let k = (n - 1) as u64;
        lemma_devirtualize_all_svm(h, (n - 1) as nat);
        assert(((n - 1) as u32) as u64 == k);
        assert((b & !m) & !(1u64 << k) == b & !(m | (1u64 << k))) by (bit_vector)
            requires
                k < 64,
        ;
    }
}

/// After a virtualize pass over processors `0..n` every one of them is
/// marked, and a second pass launches none of them.
pub proof fn lemma_virtualize_idempotent(h: Hypervisor, n: nat)
    requires
        n <= MAX_PROCESSORS,
    ensures
        forall|p: u32| p < n ==> has_bit(virtualize_all(h, n).virtualized.bits, p),
        forall|p: u32| p < n ==> !launches_at(virtualize_all(h, n), p),
{
    assert forall|p: u32| p < n implies has_bit(virtualize_all(h, n).virtualized.bits, p) by {
        lemma_virtualize_all_bits(h, n, p);
    }
    assert forall|p: u32| p < n implies !launches_at(virtualize_all(h, n), p) by {
        lemma_virtualize_all_bits(h, n, p);
        lemma_virtualize_all_bits(virtualize_all(h, n), p as nat, p);
    }
}

/// The state before virtualization with a VCPU pool for `n` processors.
pub open spec fn with_pool(n: u32) -> Hypervisor {
    Hypervisor {
        virtualized: VirtualizationBitset { bits: 0 },
        svm_on: VirtualizationBitset { bits: 0 },
        pool: Some(n),
    }
}

/// Virtualizing processors `0..n` and then devirtualizing them leaves no
/// processor with SVM on, and the teardown frees the pool exactly once: the
/// first release returns it, a second one returns nothing.
pub proof fn lemma_teardown_frees_pool_once(n: u32)
    requires
        n <= MAX_PROCESSORS,
    ensures
        forall|q: u32|
            q < MAX_PROCESSORS ==> !has_bit(
                devirtualize_all(virtualize_all(with_pool(n), n as nat), n as nat).svm_on.bits,
                q,
            ),
        release_outcome(devirtualize_all(virtualize_all(with_pool(n), n as nat), n as nat)).1
            == Some(n),
        release_outcome(
            release_outcome(devirtualize_all(virtualize_all(with_pool(n), n as nat), n as nat)).0,
        ).1 is None,
{
    let h1 = virtualize_all(with_pool(n), n as nat);
    let h2 = devirtualize_all(h1, n as nat);
    lemma_virtualize_all_svm(with_pool(n), n as nat);
    lemma_devirtualize_all_svm(h1, n as nat);
    assert forall|q: u32| q < MAX_PROCESSORS implies !has_bit(h2.svm_on.bits, q) by {
        lemma_bit_ops(0, 0, q);
    }
}

/// Byte size of each field of `host_stack_layout`, in order.
pub open spec fn host_stack_layout_sizes() -> Seq<int> {
    seq![STACK_CONTENTS_SIZE as int, total(trap_frame_layout()), 8, 8, 8, 8, 8, 8]
}

/// Byte size of each field of `vcpu`, in order.
pub open spec fn vcpu_layout() -> Seq<int> {
    seq![total(host_stack_layout_sizes()), PAGE_SIZE as int, PAGE_SIZE as int, PAGE_SIZE as int, 8, 1, 4087]
}

/// Over the hand-written field-size lists: the host stack's sizes sum to one
/// kernel stack, the VCPU's to a kernel stack and four pages (its two VMCBs,
/// the host save area, and the page holding the rest), and the register
/// block's to sixteen 8-byte registers. As with the VMCB, the lists are not
/// derived from the structs; the compile-time size checks of the memory the
/// processor uses stand on the `repr(C)` copies in the driver crate.
pub proof fn lemma_vcpu_layout()
    ensures
        total(trap_frame_layout()) == KTRAP_FRAME_SIZE,
        total(host_stack_layout_sizes()) == KERNEL_STACK_SIZE,
        total(vcpu_layout()) == KERNEL_STACK_SIZE + 4 * PAGE_SIZE,
        total(guest_regs_layout()) == 128,
{
    reveal_with_fuel(offset_of, 60);
    assert(total(trap_frame_layout()) == 400);
    assert(host_stack_layout_sizes() =~= seq![24128int, 400, 8, 8, 8, 8, 8, 8]);
    assert(total(host_stack_layout_sizes()) == 0x6000);
    assert(vcpu_layout() =~= seq![0x6000int, 4096, 4096, 4096, 8, 1, 4087]);
}

} // verus!
