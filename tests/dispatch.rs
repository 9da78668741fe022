use svm_hv::hv::{captured_context, devirtualize_cpu, processor_state, vcpu};
use svm_hv::structs::guest_regs;
use svm_hv::vmcb::{VMEXIT_CPUID, VMEXIT_VMMCALL, VMEXIT_VMRUN};
use svm_hv::vmexit::{vmexit_handler, ExitAction, HvFault, EVENT_INJ_GP};
use svm_hv::vmmcall::{vmmcall_handler, VMMCALL_MAGIC, VMMCALL_UNLOAD};

fn exited_vcpu(exit_code: u64) -> Box<vcpu> {
    let mut v = Box::new(vcpu::zeroed());
    v.guest_vmcb.control_area.exit_code = exit_code;
    v.guest_vmcb.control_area.n_rip = 0xfffff801_0000_1003;
    v.guest_vmcb.state_save_area.rip = 0xfffff801_0000_1000;
    v.guest_vmcb.state_save_area.rsp = 0xffffa000_0000_8f00;
    v.guest_vmcb.state_save_area.rax = 0x55;
    v.guest_vmcb.state_save_area.rflags = 0x246;
    v
}

#[test]
fn vmmcall_magic_returns_handshake() {
    let mut v = exited_vcpu(VMEXIT_VMMCALL);
    let mut regs = guest_regs::zeroed();
    regs.rcx = VMMCALL_MAGIC;
    regs.rbx = 7;
    assert_eq!(vmmcall_handler(&mut v, &mut regs), Ok(()));
    assert_eq!(regs.rax, 0x1337);
    assert_eq!(regs.rbx, 7);
    assert!(!v.unload);
    assert_eq!(v.guest_vmcb.state_save_area.rip, 0xfffff801_0000_1000);
}

#[test]
fn vmmcall_unload_sets_flag() {
    let mut v = exited_vcpu(VMEXIT_VMMCALL);
    let mut regs = guest_regs::zeroed();
    regs.rcx = VMMCALL_UNLOAD;
    regs.rax = 9;
    assert_eq!(vmmcall_handler(&mut v, &mut regs), Ok(()));
    assert!(v.unload);
    assert_eq!(regs.rax, 9);
}

#[test]
fn vmmcall_unknown_command_faults() {
    let mut v = exited_vcpu(VMEXIT_VMMCALL);
    let mut regs = guest_regs::zeroed();
    regs.rcx = 5;
    assert_eq!(vmmcall_handler(&mut v, &mut regs), Err(HvFault::UnknownVmmcall(5)));
    assert!(!v.unload);
    assert_eq!(regs.rax, 0);
}

#[test]
fn exit_on_vmrun_injects_gp_and_resumes() {
    let mut v = exited_vcpu(VMEXIT_VMRUN);
    let mut regs = guest_regs::zeroed();
    let r = vmexit_handler(&mut v, 0x1000, 0x1d01, &mut regs);
    assert_eq!(r, Ok(ExitAction::Resume));
    assert_eq!(v.guest_vmcb.control_area.event_inj, EVENT_INJ_GP);
    assert_eq!(EVENT_INJ_GP, 2147486477);
    assert_eq!(v.guest_vmcb.state_save_area.rip, 0xfffff801_0000_1003);
    assert_eq!(v.guest_vmcb.state_save_area.rax, 0x55);
    assert_eq!(regs.rax, 0x55);
    assert_eq!(v.host_stack_layout.trap_frame.rsp, 0xffffa000_0000_8f00);
    assert_eq!(v.host_stack_layout.trap_frame.rip, 0xfffff801_0000_1003);
}

#[test]
fn exit_on_handshake_resumes_with_value() {
    let mut v = exited_vcpu(VMEXIT_VMMCALL);
    let mut regs = guest_regs::zeroed();
    regs.rcx = VMMCALL_MAGIC;
    let r = vmexit_handler(&mut v, 0x1000, 0x1d01, &mut regs);
    assert_eq!(r, Ok(ExitAction::Resume));
    assert_eq!(regs.rax, 0x1337);
    assert_eq!(v.guest_vmcb.state_save_area.rax, 0x1337);
    assert_eq!(v.guest_vmcb.state_save_area.rip, 0xfffff801_0000_1003);
    assert_eq!(v.guest_vmcb.control_area.event_inj, 0);
    assert!(!v.unload);
}

#[test]
fn exit_on_unload_devirtualizes() {
    let mut v = exited_vcpu(VMEXIT_VMMCALL);
    let mut regs = guest_regs::zeroed();
    regs.rcx = VMMCALL_UNLOAD;
    let address: u64 = 0xffff_c001_2345_6000;
    let r = vmexit_handler(&mut v, address, 0x1d01, &mut regs);
    assert_eq!(r, Ok(ExitAction::Devirtualize { efer: 0x0d01, rflags: 0x246 }));
    assert!(v.unload);
    assert_eq!(regs.rax, 0x2345_6000);
    assert_eq!(regs.rdx, 0xffff_c001);
    assert_eq!(regs.rbx, 0xfffff801_0000_1003);
    assert_eq!(regs.rcx, 0xffffa000_0000_8f00);
    // the guest is not resumed: its RIP stays at the call
    assert_eq!(v.guest_vmcb.state_save_area.rip, 0xfffff801_0000_1000);
}

#[test]
fn exit_for_other_reason_faults_without_resuming() {
    let mut v = exited_vcpu(VMEXIT_CPUID);
    let mut regs = guest_regs::zeroed();
    let r = vmexit_handler(&mut v, 0x1000, 0x1d01, &mut regs);
    assert_eq!(r, Err(HvFault::UnexpectedExit(0x72)));
    assert_eq!(v.guest_vmcb.state_save_area.rip, 0xfffff801_0000_1000);
    assert_eq!(v.guest_vmcb.state_save_area.rax, 0x55);
    assert!(!v.unload);
}

#[test]
fn exit_with_unknown_vmmcall_faults() {
    let mut v = exited_vcpu(VMEXIT_VMMCALL);
    let mut regs = guest_regs::zeroed();
    regs.rcx = 0x11;
    let r = vmexit_handler(&mut v, 0x1000, 0x1d01, &mut regs);
    assert_eq!(r, Err(HvFault::UnknownVmmcall(0x11)));
    assert_eq!(v.guest_vmcb.state_save_area.rip, 0xfffff801_0000_1000);
}

#[test]
fn devirtualize_cpu_splits_address() {
    let v = exited_vcpu(VMEXIT_VMMCALL);
    let mut regs = guest_regs::zeroed();
    regs.r8 = 4;
    let r = devirtualize_cpu(&v, 0x0000_0001_ffff_fff0, 0x1500, &mut regs);
    assert_eq!(r, ExitAction::Devirtualize { efer: 0x0500, rflags: 0x246 });
    assert_eq!(regs.rax, 0xffff_fff0);
    assert_eq!(regs.rdx, 1);
    assert_eq!(regs.r8, 4);
}

#[test]
fn setup_copies_context_and_processor_state() {
    let context = captured_context {
        seg_cs: 0x10,
        seg_ds: 0x2b,
        seg_es: 0x2b,
        seg_ss: 0x18,
        eflags: 0x286,
        rsp: 0xffffa000_0000_7000,
        rip: 0xfffff801_0000_2000,
    };
    let cpu = processor_state {
        gdtr_base: 0xfffff801_1000_0000,
        gdtr_limit: 0x57,
        idtr_base: 0xfffff801_2000_0000,
        idtr_limit: 0xfff,
        cs_limit: 0,
        ds_limit: 0xffff_ffff,
        es_limit: 0xffff_ffff,
        ss_limit: 0,
        cs_descriptor: 0x0020_9b00_0000_0000,
        ds_descriptor: 0x00cf_f300_0000_ffff,
        es_descriptor: 0x00cf_f300_0000_ffff,
        ss_descriptor: 0x0040_9300_0000_0000,
        efer: 0x1d01,
        pat: 0x0007_0106_0007_0106,
        cr0: 0x8005_0033,
        cr2: 0x1234,
        cr3: 0x1ad000,
        cr4: 0x3506f8,
        guest_vmcb_pa: 0x7000_1000,
        host_vmcb_pa: 0x7000_2000,
    };
    let v = vcpu::new(&context, &cpu, 0xffff_c000_0000_0000);
    let c = &v.guest_vmcb.control_area;
    assert_eq!(c.intercept_misc2, 3);
    assert_eq!(c.intercept_misc1, 0);
    assert_eq!(c.intercept_exception, 0);
    assert_eq!((c.intercept_cr_read, c.intercept_cr_write), (0, 0));
    assert_eq!((c.intercept_dr_read, c.intercept_dr_write), (0, 0));
    assert!(v.host_stack_layout.stack_contents.iter().all(|b| *b == 0));
    assert_eq!(v.host_stack_layout.trap_frame.rip, 0);
    assert_eq!(v.host_vmcb.control_area.intercept_misc2, 0);
    assert_eq!(c.guest_asid, 1);
    let s = &v.guest_vmcb.state_save_area;
    assert_eq!((s.gdtr_base, s.gdtr_limit), (0xfffff801_1000_0000, 0x57));
    assert_eq!((s.idtr_base, s.idtr_limit), (0xfffff801_2000_0000, 0xfff));
    assert_eq!((s.cs_selector, s.cs_attrib, s.cs_limit), (0x10, 0x029b, 0));
    assert_eq!((s.ds_selector, s.ds_attrib, s.ds_limit), (0x2b, 0x0cf3, 0xffff_ffff));
    assert_eq!((s.es_selector, s.es_attrib), (0x2b, 0x0cf3));
    assert_eq!((s.ss_selector, s.ss_attrib), (0x18, 0x0493));
    assert_eq!((s.efer, s.gpat), (0x1d01, 0x0007_0106_0007_0106));
    assert_eq!((s.cr0, s.cr2, s.cr3, s.cr4), (0x8005_0033, 0x1234, 0x1ad000, 0x3506f8));
    assert_eq!((s.rflags, s.rsp, s.rip), (0x286, 0xffffa000_0000_7000, 0xfffff801_0000_2000));
    assert_eq!(s.fs_selector, 0);
    let h = &v.host_stack_layout;
    assert_eq!((h.guest_vmcb_pa, h.host_vmcb_pa), (0x7000_1000, 0x7000_2000));
    assert_eq!(h.self_data, 0xffff_c000_0000_0000);
    assert_eq!((h.padding_1, h.reserved_1), (u64::MAX, u64::MAX));
    assert!(!v.unload);
    assert_eq!(v.prev_vmexit, 0);
}
