//! Register blocks exchanged with the VM-exit trampoline, and the trap frame
//! kept at the top of each host stack.

use crate::vmcb::is_zero_bytes;
use vstd::prelude::*;

verus! {

/// Size of a kernel stack; the host stack of each processor has exactly this size.
pub const KERNEL_STACK_SIZE: usize = 0x6000;
/// Size of `KTRAP_FRAME`.
pub const KTRAP_FRAME_SIZE: usize = 400;
/// Size of the raw stack region of a host stack: the kernel stack less the trap
/// frame and the six 8-byte slots that follow it.
pub const STACK_CONTENTS_SIZE: usize = KERNEL_STACK_SIZE - 48 - KTRAP_FRAME_SIZE;

/// General-purpose registers of the guest, saved by the trampoline on a VM-exit
/// (16 registers of 8 bytes; RAX is copied in from the VMCB by the dispatcher).
#[derive(Clone, Copy, Debug, Default, PartialEq, Eq)]
pub struct guest_regs {
    pub r15: u64,
    pub r14: u64,
    pub r13: u64,
    pub r12: u64,
    pub r11: u64,
    pub r10: u64,
    pub r9: u64,
    pub r8: u64,
    pub rdi: u64,
    pub rsi: u64,
    pub rbp: u64,
    pub rsp: u64,
    pub rbx: u64,
    pub rdx: u64,
    pub rcx: u64,
    pub rax: u64,
}

impl guest_regs {
    /// A register block with every register zero.
    pub fn zeroed() -> (r: guest_regs)
        ensures
            r.r15 == 0,
            r.r14 == 0,
            r.r13 == 0,
            r.r12 == 0,
            r.r11 == 0,
            r.r10 == 0,
            r.r9 == 0,
            r.r8 == 0,
            r.rdi == 0,
            r.rsi == 0,
            r.rbp == 0,
            r.rsp == 0,
            r.rbx == 0,
            r.rdx == 0,
            r.rcx == 0,
            r.rax == 0,
    {
        guest_regs {
            r15: 0,
            r14: 0,
            r13: 0,
            r12: 0,
            r11: 0,
            r10: 0,
            r9: 0,
            r8: 0,
            rdi: 0,
            rsi: 0,
            rbp: 0,
            rsp: 0,
            rbx: 0,
            rdx: 0,
            rcx: 0,
            rax: 0,
        }
    }
}

/// Whether every field of the trap frame is zero.
pub open spec fn is_zero_trap_frame(t: KTRAP_FRAME) -> bool {
    t.p1_home == 0
        && t.p2_home == 0
        && t.p3_home == 0
        && t.p4_home == 0
        && t.p5 == 0
        && t.previous_mode == 0
        && t.previous_irql == 0
        && t.fault_indicator == 0
        && t.exception_active == 0
        && t.mx_csr == 0
        && t.rax == 0
        && t.rcx == 0
        && t.rdx == 0
        && t.r8 == 0
        && t.r9 == 0
        && t.r10 == 0
        && t.r11 == 0
        && t.gs_base == 0
        && t.xmm0 == 0
        && t.xmm1 == 0
        && t.xmm2 == 0
        && t.xmm3 == 0
        && t.xmm4 == 0
        && t.xmm5 == 0
        && t.fault_address == 0
        && t.dr0 == 0
        && t.dr1 == 0
        && t.dr2 == 0
        && t.dr3 == 0
        && t.dr6 == 0
        && t.dr7 == 0
        && t.debug_control == 0
        && t.last_branch_to_rip == 0
        && t.last_branch_from_rip == 0
        && t.last_exception_to_rip == 0
        && t.last_exception_from_rip == 0
        && t.seg_ds == 0
        && t.seg_es == 0
        && t.seg_fs == 0
        && t.seg_gs == 0
        && t.trap_frame == 0
        && t.rbx == 0
        && t.rdi == 0
        && t.rsi == 0
        && t.rbp == 0
        && t.error_code == 0
        && t.rip == 0
        && t.seg_cs == 0
        && t.fill_0 == 0
        && t.logging == 0
        && (forall|i: int| 0 <= i < 2 ==> t.fill_1@[i] == 0)
        && t.e_flags == 0
        && t.fill_2 == 0
        && t.rsp == 0
        && t.seg_ss == 0
        && t.fill_3 == 0
        && t.fill_4 == 0
}

/// The host's native trap frame layout; the dispatcher records the guest's RSP
/// and next RIP in it.
pub struct KTRAP_FRAME {
    pub p1_home: u64,
    pub p2_home: u64,
    pub p3_home: u64,
    pub p4_home: u64,
    pub p5: u64,
    pub previous_mode: i8,
    pub previous_irql: u8,
    pub fault_indicator: u8,
    pub exception_active: u8,
    pub mx_csr: u32,
    pub rax: u64,
    pub rcx: u64,
    pub rdx: u64,
    pub r8: u64,
    pub r9: u64,
    pub r10: u64,
    pub r11: u64,
    pub gs_base: u64,
    pub xmm0: u128,
    pub xmm1: u128,
    pub xmm2: u128,
    pub xmm3: u128,
    pub xmm4: u128,
    pub xmm5: u128,
    pub fault_address: u64,
    pub dr0: u64,
    pub dr1: u64,
    pub dr2: u64,
    pub dr3: u64,
    pub dr6: u64,
    pub dr7: u64,
    pub debug_control: u64,
    pub last_branch_to_rip: u64,
    pub last_branch_from_rip: u64,
    pub last_exception_to_rip: u64,
    pub last_exception_from_rip: u64,
    pub seg_ds: u16,
    pub seg_es: u16,
    pub seg_fs: u16,
    pub seg_gs: u16,
    pub trap_frame: u64,
    pub rbx: u64,
    pub rdi: u64,
    pub rsi: u64,
    pub rbp: u64,
    pub error_code: u64,
    pub rip: u64,
    pub seg_cs: u16,
    pub fill_0: u8,
    pub logging: u8,
    pub fill_1: [u16; 2],
    pub e_flags: u32,
    pub fill_2: u32,
    pub rsp: u64,
    pub seg_ss: u16,
    pub fill_3: u16,
    pub fill_4: u32,
}

impl KTRAP_FRAME {
    /// An all-zero trap frame.
    pub fn zeroed() -> (r: KTRAP_FRAME)
        ensures
            is_zero_trap_frame(r),
    {
        KTRAP_FRAME {
            p1_home: 0,
            p2_home: 0,
            p3_home: 0,
            p4_home: 0,
            p5: 0,
            previous_mode: 0,
            previous_irql: 0,
            fault_indicator: 0,
            exception_active: 0,
            mx_csr: 0,
            rax: 0,
            rcx: 0,
            rdx: 0,
            r8: 0,
            r9: 0,
            r10: 0,
            r11: 0,
            gs_base: 0,
            xmm0: 0,
            xmm1: 0,
            xmm2: 0,
            xmm3: 0,
            xmm4: 0,
            xmm5: 0,
            fault_address: 0,
            dr0: 0,
            dr1: 0,
            dr2: 0,
            dr3: 0,
            dr6: 0,
            dr7: 0,
            debug_control: 0,
            last_branch_to_rip: 0,
            last_branch_from_rip: 0,
            last_exception_to_rip: 0,
            last_exception_from_rip: 0,
            seg_ds: 0,
            seg_es: 0,
            seg_fs: 0,
            seg_gs: 0,
            trap_frame: 0,
            rbx: 0,
            rdi: 0,
            rsi: 0,
            rbp: 0,
            error_code: 0,
            rip: 0,
            seg_cs: 0,
            fill_0: 0,
            logging: 0,
            fill_1: [0u16; 2],
            e_flags: 0,
            fill_2: 0,
            rsp: 0,
            seg_ss: 0,
            fill_3: 0,
            fill_4: 0,
        }
    }
}

/// Byte size of each field of `KTRAP_FRAME`, in order.
pub open spec fn trap_frame_layout() -> Seq<int> {
    seq![8, 8, 8, 8, 8, 1, 1, 1, 1, 4, 8, 8, 8, 8, 8, 8, 8, 8, 16, 16, 16, 16, 16, 16, 8, 8, 8, 8, 8, 8, 8, 8, 8, 8, 8, 8, 2, 2, 2, 2, 8, 8, 8, 8, 8, 8, 8, 2, 1, 1, 4, 4, 4, 8, 2, 2, 4]
}

/// Byte size of each register of `guest_regs`, in order.
pub open spec fn guest_regs_layout() -> Seq<int> {
    seq![8, 8, 8, 8, 8, 8, 8, 8, 8, 8, 8, 8, 8, 8, 8, 8]
}

} // verus!
