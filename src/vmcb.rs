//! Layout of the Virtual Machine Control Block (VMCB): a 1024-byte control area
//! followed by the 664-byte state save area, padded to one 4096-byte page.

use vstd::prelude::*;

verus! {

/// Bit of `intercept_misc2` that intercepts VMRUN.
pub const SVM_INTERCEPT_MISC2_VMRUN: u32 = 1;
/// Bit of `intercept_misc2` that intercepts VMMCALL.
pub const SVM_INTERCEPT_MISC2_VMMCALL: u32 = 2;
/// Bit of `intercept_misc1` that intercepts CPUID (not enabled by this hypervisor).
pub const SVM_INTERCEPT_MISC1_CPUID: u32 = 0x40000;
/// MSR holding the physical address of the host save area.
pub const SVM_MSR_VM_HSAVE_PA: u32 = 0xc001_0117;
/// SVM-enable bit of EFER.
pub const EFER_SVME: u64 = 0x1000;
/// Exit code of an intercepted VMMCALL.
pub const VMEXIT_VMMCALL: u64 = 0x81;
/// Exit code of an intercepted CPUID.
pub const VMEXIT_CPUID: u64 = 0x0072;
/// Exit code of an intercepted VMRUN.
pub const VMEXIT_VMRUN: u64 = 0x0080;
/// Size of a page, and of a VMCB.
pub const PAGE_SIZE: usize = 0x1000;
/// Size of the control area.
pub const CONTROL_AREA_SIZE: usize = 0x400;
/// Size of the state save area.
pub const STATE_SAVE_SIZE: usize = 0x298;

/// Whether every byte of `s` is zero.
pub open spec fn is_zero_bytes(s: Seq<u8>) -> bool {
    forall|i: int| 0 <= i < s.len() ==> s[i] == 0
}

/// Whether every field of the control area is zero.
pub open spec fn is_zero_control_area(c: control_area) -> bool {
    c.intercept_cr_read == 0
        && c.intercept_cr_write == 0
        && c.intercept_dr_read == 0
        && c.intercept_dr_write == 0
        && c.intercept_exception == 0
        && c.intercept_misc1 == 0
        && c.intercept_misc2 == 0
        && is_zero_bytes(c.reserved1@)
        && c.pause_filter_threshold == 0
        && c.pause_filter_count == 0
        && c.iopm_base_pa == 0
        && c.msrpm_base_pa == 0
        && c.tsc_offset == 0
        && c.guest_asid == 0
        && c.tlb_control == 0
        && c.vintr == 0
        && c.interrupt_shadow == 0
        && c.exit_code == 0
        && c.exit_info1 == 0
        && c.exit_info2 == 0
        && c.exit_int_info == 0
        && c.np_enable == 0
        && c.avic_apic_bar == 0
        && c.guest_pa_of_ghcb == 0
        && c.event_inj == 0
        && c.n_cr3 == 0
        && c.lbr_virtualization_enable == 0
        && c.vmcb_clean == 0
        && c.n_rip == 0
        && c.num_of_bytes_fetched == 0
        && is_zero_bytes(c.guest_instruction_bytes@)
        && c.avic_apic_backing_page_pointer == 0
        && c.reserved2 == 0
        && c.avic_logical_table_pointer == 0
        && c.avic_physical_table_pointer == 0
        && c.reserved3 == 0
        && c.vmcb_save_state_pointer == 0
        && is_zero_bytes(c.reserved4@)
}

/// Whether every field of the state save area is zero.
pub open spec fn is_zero_state_save(s: state_save) -> bool {
    s.es_selector == 0
        && s.es_attrib == 0
        && s.es_limit == 0
        && s.es_base == 0
        && s.cs_selector == 0
        && s.cs_attrib == 0
        && s.cs_limit == 0
        && s.cs_base == 0
        && s.ss_selector == 0
        && s.ss_attrib == 0
        && s.ss_limit == 0
        && s.ss_base == 0
        && s.ds_selector == 0
        && s.ds_attrib == 0
        && s.ds_limit == 0
        && s.ds_base == 0
        && s.fs_selector == 0
        && s.fs_attrib == 0
        && s.fs_limit == 0
        && s.fs_base == 0
        && s.gs_selector == 0
        && s.gs_attrib == 0
        && s.gs_limit == 0
        && s.gs_base == 0
        && s.gdtr_selector == 0
        && s.gdtr_attrib == 0
        && s.gdtr_limit == 0
        && s.gdtr_base == 0
        && s.ldtr_selector == 0
        && s.ldtr_attrib == 0
        && s.ldtr_limit == 0
        && s.ldtr_base == 0
        && s.idtr_selector == 0
        && s.idtr_attrib == 0
        && s.idtr_limit == 0
        && s.idtr_base == 0
        && s.tr_selector == 0
        && s.tr_attrib == 0
        && s.tr_limit == 0
        && s.tr_base == 0
        && is_zero_bytes(s.reserved1@)
        && s.cpl == 0
        && s.reserved2 == 0
        && s.efer == 0
        && is_zero_bytes(s.reserved3@)
        && s.cr4 == 0
        && s.cr3 == 0
        && s.cr0 == 0
        && s.dr7 == 0
        && s.dr6 == 0
        && s.rflags == 0
        && s.rip == 0
        && is_zero_bytes(s.reserved4@)
        && s.rsp == 0
        && is_zero_bytes(s.reserved5@)
        && s.rax == 0
        && s.star == 0
        && s.lstar == 0
        && s.cstar == 0
        && s.sf_mask == 0
        && s.kernel_gs_base == 0
        && s.sysenter_cs == 0
        && s.sysenter_esp == 0
        && s.sysenter_eip == 0
        && s.cr2 == 0
        && is_zero_bytes(s.reserved6@)
        && s.gpat == 0
        && s.dbg_ctl == 0
        && s.br_from == 0
        && s.br_to == 0
        && s.last_excep_from == 0
        && s.last_excep_to == 0
}

/// Whether the whole VMCB page is zero.
pub open spec fn is_zero_vmcb(v: vmcb) -> bool {
    is_zero_control_area(v.control_area) && is_zero_state_save(v.state_save_area) && is_zero_bytes(
        v.reserved@,
    )
}

/// Control area of a VMCB; the offsets of the hardware layout are noted per field.
pub struct control_area {
    pub intercept_cr_read: u16,  // +0x000
    pub intercept_cr_write: u16,  // +0x002
    pub intercept_dr_read: u16,  // +0x004
    pub intercept_dr_write: u16,  // +0x006
    pub intercept_exception: u32,  // +0x008
    pub intercept_misc1: u32,  // +0x00c
    pub intercept_misc2: u32,  // +0x010
    pub reserved1: [u8; 40],  // +0x014
    pub pause_filter_threshold: u16,  // +0x03c
    pub pause_filter_count: u16,  // +0x03e
    pub iopm_base_pa: u64,  // +0x040
    pub msrpm_base_pa: u64,  // +0x048
    pub tsc_offset: u64,  // +0x050
    pub guest_asid: u32,  // +0x058
    pub tlb_control: u32,  // +0x05c
    pub vintr: u64,  // +0x060
    pub interrupt_shadow: u64,  // +0x068
    pub exit_code: u64,  // +0x070
    pub exit_info1: u64,  // +0x078
    pub exit_info2: u64,  // +0x080
    pub exit_int_info: u64,  // +0x088
    pub np_enable: u64,  // +0x090
    pub avic_apic_bar: u64,  // +0x098
    pub guest_pa_of_ghcb: u64,  // +0x0a0
    pub event_inj: u64,  // +0x0a8
    pub n_cr3: u64,  // +0x0b0
    pub lbr_virtualization_enable: u64,  // +0x0b8
    pub vmcb_clean: u64,  // +0x0c0
    pub n_rip: u64,  // +0x0c8
    pub num_of_bytes_fetched: u8,  // +0x0d0
    pub guest_instruction_bytes: [u8; 15],  // +0x0d1
    pub avic_apic_backing_page_pointer: u64,  // +0x0e0
    pub reserved2: u64,  // +0x0e8
    pub avic_logical_table_pointer: u64,  // +0x0f0
    pub avic_physical_table_pointer: u64,  // +0x0f8
    pub reserved3: u64,  // +0x100
    pub vmcb_save_state_pointer: u64,  // +0x108
    pub reserved4: [u8; 752],  // +0x110
}


impl control_area {
    /// An all-zero control area.
    pub fn zeroed() -> (r: control_area)
        ensures
            is_zero_control_area(r),
    {
        control_area {
            intercept_cr_read: 0,
            intercept_cr_write: 0,
            intercept_dr_read: 0,
            intercept_dr_write: 0,
            intercept_exception: 0,
            intercept_misc1: 0,
            intercept_misc2: 0,
            reserved1: [0u8; 40],
            pause_filter_threshold: 0,
            pause_filter_count: 0,
            iopm_base_pa: 0,
            msrpm_base_pa: 0,
            tsc_offset: 0,
            guest_asid: 0,
            tlb_control: 0,
            vintr: 0,
            interrupt_shadow: 0,
            exit_code: 0,
            exit_info1: 0,
            exit_info2: 0,
            exit_int_info: 0,
            np_enable: 0,
            avic_apic_bar: 0,
            guest_pa_of_ghcb: 0,
            event_inj: 0,
            n_cr3: 0,
            lbr_virtualization_enable: 0,
            vmcb_clean: 0,
            n_rip: 0,
            num_of_bytes_fetched: 0,
            guest_instruction_bytes: [0u8; 15],
            avic_apic_backing_page_pointer: 0,
            reserved2: 0,
            avic_logical_table_pointer: 0,
            avic_physical_table_pointer: 0,
            reserved3: 0,
            vmcb_save_state_pointer: 0,
            reserved4: [0u8; 752],
        }
    }
}

/// State save area of a VMCB: the guest's segment, control-register and MSR state.
pub struct state_save {
    pub es_selector: u16,  // +0x000
    pub es_attrib: u16,  // +0x002
    pub es_limit: u32,  // +0x004
    pub es_base: u64,  // +0x008
    pub cs_selector: u16,  // +0x010
    pub cs_attrib: u16,  // +0x012
    pub cs_limit: u32,  // +0x014
    pub cs_base: u64,  // +0x018
    pub ss_selector: u16,  // +0x020
    pub ss_attrib: u16,  // +0x022
    pub ss_limit: u32,  // +0x024
    pub ss_base: u64,  // +0x028
    pub ds_selector: u16,  // +0x030
    pub ds_attrib: u16,  // +0x032
    pub ds_limit: u32,  // +0x034
    pub ds_base: u64,  // +0x038
    pub fs_selector: u16,  // +0x040
    pub fs_attrib: u16,  // +0x042
    pub fs_limit: u32,  // +0x044
    pub fs_base: u64,  // +0x048
    pub gs_selector: u16,  // +0x050
    pub gs_attrib: u16,  // +0x052
    pub gs_limit: u32,  // +0x054
    pub gs_base: u64,  // +0x058
    pub gdtr_selector: u16,  // +0x060
    pub gdtr_attrib: u16,  // +0x062
    pub gdtr_limit: u32,  // +0x064
    pub gdtr_base: u64,  // +0x068
    pub ldtr_selector: u16,  // +0x070
    pub ldtr_attrib: u16,  // +0x072
    pub ldtr_limit: u32,  // +0x074
    pub ldtr_base: u64,  // +0x078
    pub idtr_selector: u16,  // +0x080
    pub idtr_attrib: u16,  // +0x082
    pub idtr_limit: u32,  // +0x084
    pub idtr_base: u64,  // +0x088
    pub tr_selector: u16,  // +0x090
    pub tr_attrib: u16,  // +0x092
    pub tr_limit: u32,  // +0x094
    pub tr_base: u64,  // +0x098
    pub reserved1: [u8; 43],  // +0x0a0
    pub cpl: u8,  // +0x0cb
    pub reserved2: u32,  // +0x0cc
    pub efer: u64,  // +0x0d0
    pub reserved3: [u8; 112],  // +0x0d8
    pub cr4: u64,  // +0x148
    pub cr3: u64,  // +0x150
    pub cr0: u64,  // +0x158
    pub dr7: u64,  // +0x160
    pub dr6: u64,  // +0x168
    pub rflags: u64,  // +0x170
    pub rip: u64,  // +0x178
    pub reserved4: [u8; 88],  // +0x180
    pub rsp: u64,  // +0x1d8
    pub reserved5: [u8; 24],  // +0x1e0
    pub rax: u64,  // +0x1f8
    pub star: u64,  // +0x200
    pub lstar: u64,  // +0x208
    pub cstar: u64,  // +0x210
    pub sf_mask: u64,  // +0x218
    pub kernel_gs_base: u64,  // +0x220
    pub sysenter_cs: u64,  // +0x228
    pub sysenter_esp: u64,  // +0x230
    pub sysenter_eip: u64,  // +0x238
    pub cr2: u64,  // +0x240
    pub reserved6: [u8; 32],  // +0x248
    pub gpat: u64,  // +0x268
    pub dbg_ctl: u64,  // +0x270
    pub br_from: u64,  // +0x278
    pub br_to: u64,  // +0x280
    pub last_excep_from: u64,  // +0x288
    pub last_excep_to: u64,  // +0x290
}

impl state_save {
    /// An all-zero state save area.
    pub fn zeroed() -> (r: state_save)
        ensures
            is_zero_state_save(r),
    {
        state_save {
            es_selector: 0,
            es_attrib: 0,
            es_limit: 0,
            es_base: 0,
            cs_selector: 0,
            cs_attrib: 0,
            cs_limit: 0,
            cs_base: 0,
            ss_selector: 0,
            ss_attrib: 0,
            ss_limit: 0,
            ss_base: 0,
            ds_selector: 0,
            ds_attrib: 0,
            ds_limit: 0,
            ds_base: 0,
            fs_selector: 0,
            fs_attrib: 0,
            fs_limit: 0,
            fs_base: 0,
            gs_selector: 0,
            gs_attrib: 0,
            gs_limit: 0,
            gs_base: 0,
            gdtr_selector: 0,
            gdtr_attrib: 0,
            gdtr_limit: 0,
            gdtr_base: 0,
            ldtr_selector: 0,
            ldtr_attrib: 0,
            ldtr_limit: 0,
            ldtr_base: 0,
            idtr_selector: 0,
            idtr_attrib: 0,
            idtr_limit: 0,
            idtr_base: 0,
            tr_selector: 0,
            tr_attrib: 0,
            tr_limit: 0,
            tr_base: 0,
            reserved1: [0u8; 43],
            cpl: 0,
            reserved2: 0,
            efer: 0,
            reserved3: [0u8; 112],
            cr4: 0,
            cr3: 0,
            cr0: 0,
            dr7: 0,
            dr6: 0,
            rflags: 0,
            rip: 0,
            reserved4: [0u8; 88],
            rsp: 0,
            reserved5: [0u8; 24],
            rax: 0,
            star: 0,
            lstar: 0,
            cstar: 0,
            sf_mask: 0,
            kernel_gs_base: 0,
            sysenter_cs: 0,
            sysenter_esp: 0,
            sysenter_eip: 0,
            cr2: 0,
            reserved6: [0u8; 32],
            gpat: 0,
            dbg_ctl: 0,
            br_from: 0,
            br_to: 0,
            last_excep_from: 0,
            last_excep_to: 0,
        }
    }
}

/// A VMCB: one page holding the control area, the state save area and the rest
/// of the page, which the hardware reserves.
pub struct vmcb {
    pub control_area: control_area,
    pub state_save_area: state_save,
    pub reserved: [u8; 2408],
}

impl vmcb {
    /// An all-zero VMCB.
    pub fn zeroed() -> (r: vmcb)
        ensures
            is_zero_vmcb(r),
    {
        vmcb {
            control_area: control_area::zeroed(),
            state_save_area: state_save::zeroed(),
            reserved: [0u8; 2408],
        }
    }
}

/// Byte offset of field `k` in a structure whose field sizes are `s`: the sum
/// of the sizes of the fields before it.
pub open spec fn offset_of(s: Seq<int>, k: nat) -> int
    decreases k,
{
    if k == 0 {
        0
    } else {
        offset_of(s, (k - 1) as nat) + s[k - 1]
    }
}

/// The sum of a sequence of byte counts.
pub open spec fn total(s: Seq<int>) -> int {
    offset_of(s, s.len())
}

/// Byte size of each field of `control_area`, in the hardware's order, as
/// listed by hand from the field declarations.
pub open spec fn control_area_layout() -> Seq<int> {
    seq![2, 2, 2, 2, 4, 4, 4, 40, 2, 2, 8, 8, 8, 4, 4, 8, 8, 8, 8, 8, 8, 8, 8, 8, 8, 8, 8, 8, 8, 1, 15, 8, 8, 8, 8, 8, 8, 752]
}

/// Byte size of each field of `state_save`, in the hardware's order, as
/// listed by hand from the field declarations.
pub open spec fn state_save_layout() -> Seq<int> {
    seq![2, 2, 4, 8, 2, 2, 4, 8, 2, 2, 4, 8, 2, 2, 4, 8, 2, 2, 4, 8, 2, 2, 4, 8, 2, 2, 4, 8, 2, 2, 4, 8, 2, 2, 4, 8, 2, 2, 4, 8, 43, 1, 4, 8, 112, 8, 8, 8, 8, 8, 8, 8, 88, 8, 24, 8, 8, 8, 8, 8, 8, 8, 8, 8, 8, 32, 8, 8, 8, 8, 8, 8]
}

/// Byte size of each part of a `vmcb`.
pub open spec fn vmcb_layout() -> Seq<int> {
    seq![total(control_area_layout()), total(state_save_layout()), 2408]
}

/// Over the field-size lists above, which are written by hand from the
/// hardware's table and not derived from the structs: the control area's sizes
/// sum to 1024 bytes, the state save area's to 664, the VMCB's parts to one
/// page, and the fields that the dispatcher uses start at their architectural
/// offsets. Nothing here fixes how Rust lays out these structs; the layout
/// that the processor reads is the `repr(C)` copy of each type in the driver
/// crate, whose sizes are checked at compile time there.
pub proof fn lemma_vmcb_layout()
    ensures
        control_area_layout().len() == 38,
        total(control_area_layout()) == CONTROL_AREA_SIZE,
        total(state_save_layout()) == STATE_SAVE_SIZE,
        total(vmcb_layout()) == PAGE_SIZE,
        offset_of(control_area_layout(), 5) == 0x00c,
        offset_of(control_area_layout(), 6) == 0x010,
        offset_of(control_area_layout(), 13) == 0x058,
        offset_of(control_area_layout(), 17) == 0x070,
        offset_of(control_area_layout(), 24) == 0x0a8,
        offset_of(control_area_layout(), 28) == 0x0c8,
        offset_of(state_save_layout(), 43) == 0x0d0,
        offset_of(state_save_layout(), 50) == 0x170,
        offset_of(state_save_layout(), 51) == 0x178,
        offset_of(state_save_layout(), 53) == 0x1d8,
        offset_of(state_save_layout(), 55) == 0x1f8,
        offset_of(state_save_layout(), 66) == 0x268,
{
    reveal_with_fuel(offset_of, 80);
    let c = control_area_layout();
    let s = state_save_layout();
    assert(offset_of(c, 5) == 0x00c && offset_of(c, 6) == 0x010 && offset_of(c, 13) == 0x058);
    assert(offset_of(c, 17) == 0x070 && offset_of(c, 24) == 0x0a8 && offset_of(c, 28) == 0x0c8);
    assert(offset_of(s, 43) == 0x0d0 && offset_of(s, 50) == 0x170 && offset_of(s, 51) == 0x178);
    assert(offset_of(s, 53) == 0x1d8 && offset_of(s, 55) == 0x1f8 && offset_of(s, 66) == 0x268);
    assert(total(control_area_layout()) == 1024);
    assert(total(state_save_layout()) == 664);
    assert(vmcb_layout() =~= seq![1024int, 664, 2408]);
}

} // verus!
