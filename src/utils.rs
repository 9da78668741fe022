//! Processor configuration decisions: EFER's SVM-enable bit, whether SVM can
//! be used, and the affinity mask that pins a thread to one processor.

use crate::hv::MAX_PROCESSORS;
use crate::vmcb::EFER_SVME;
use vstd::prelude::*;

verus! {

/// The VM_CR MSR.
pub const SVM_MSR_VM_CR: u32 = 0xc001_0114;
/// SVMDIS bit of VM_CR: SVM disabled by firmware.
pub const SVM_VM_CR_SVMDIS: u64 = 0x10;

/// EFER with the SVM-enable bit set.
pub open spec fn svm_enabled(efer: u64) -> u64 {
    efer | EFER_SVME
}

/// EFER with the SVM-enable bit clear.
pub open spec fn svm_disabled(efer: u64) -> u64 {
    efer & !EFER_SVME
}

/// The EFER value that turns SVM on: `efer` with its SVM-enable bit set.
pub fn enable_svm(efer: u64) -> (r: u64)
    ensures
        r == svm_enabled(efer),
        r & EFER_SVME != 0,
        r & !EFER_SVME == efer & !EFER_SVME,
{
    proof {
        lemma_svm_bits(efer);
    }
    efer | EFER_SVME
}

/// The EFER value that turns SVM off: `efer` with its SVM-enable bit clear.
pub fn disable_svm(efer: u64) -> (r: u64)
    ensures
        r == svm_disabled(efer),
        r & EFER_SVME == 0,
        r | EFER_SVME == efer | EFER_SVME,
{
    proof {
        lemma_svm_bits(efer);
    }
    efer & !EFER_SVME
}

/// Setting the SVM-enable bit leaves it set, clearing it leaves it clear, and
/// neither touches any other bit of EFER.
pub proof fn lemma_svm_bits(efer: u64)
    ensures
        svm_enabled(efer) & EFER_SVME != 0,
        svm_disabled(efer) & EFER_SVME == 0,
        svm_enabled(efer) & !EFER_SVME == efer & !EFER_SVME,
        svm_disabled(efer) | EFER_SVME == efer | EFER_SVME,
{
    assert((efer | 0x1000u64) & 0x1000u64 != 0 && (efer & !0x1000u64) & 0x1000u64 == 0 && (efer
        | 0x1000u64) & !0x1000u64 == efer & !0x1000u64 && (efer & !0x1000u64) | 0x1000u64 == efer
        | 0x1000u64) by (bit_vector);
}

/// Whether SVM can be turned on: the processor reports SVM
/// (CPUID Fn8000_0001 ECX) and firmware has not disabled it (VM_CR.SVMDIS clear).
pub fn is_svm_supported(has_svm: bool, vm_cr: u64) -> (r: bool)
    ensures
        r == (has_svm && vm_cr & SVM_VM_CR_SVMDIS == 0),
{
    has_svm && vm_cr & SVM_VM_CR_SVMDIS == 0
}

/// The affinity mask that pins a thread to processor `processor` of
/// `processor_count`: only that processor's bit; `None` for an index out of range.
pub fn affinity_mask(processor: u32, processor_count: u32) -> (r: Option<u64>)
    ensures
        (processor < processor_count && processor < MAX_PROCESSORS) ==> r == Some(
            1u64 << (processor as u64),
        ),
        !(processor < processor_count && processor < MAX_PROCESSORS) ==> r is None,
{
    if processor >= processor_count || processor >= MAX_PROCESSORS {
        return None;
    }
    Some(1u64 << (processor as u64))
}

} // verus!
