//! Which virtualization extension the processor offers.

use vstd::prelude::*;
use vstd::string::StringExecFns;

use crate::error::HypervisorError;

verus! {

/// The vendor identification of Intel processors.
pub const INTEL: &'static str = "GenuineIntel";

/// The vendor identification of AMD processors.
pub const AMD: &'static str = "AuthenticAMD";

/// Hardware extension that accelerates a virtual machine.
#[derive(Debug, Clone, Copy, PartialEq, Eq, Structural)]
pub enum HypervisorExtension {
    /// Support for Intel VT-x (VMX) is available.
    Vmx,
    /// Support for AMD-V (SVM) is available.
    Svm,
}

/// The vendor identification of the processor, by `CpuId::get_vendor_info` and
/// `VendorInfo::as_str` of `raw_cpuid`; `None` where the processor does not report
/// one. It depends on the machine, so nothing is said of it.
#[verifier::external_body]
fn processor_vendor() -> (vendor: Option<String>) {
    match raw_cpuid::CpuId::new().get_vendor_info() {
        Some(info) => Some(String::from(info.as_str())),
        None => None,
    }
}

/// Whether the processor reports VMX, by `CpuId::get_feature_info` and
/// `FeatureInfo::has_vmx` of `raw_cpuid`; `None` where it does not report features.
/// It depends on the machine, so nothing is said of it.
#[verifier::external_body]
fn processor_vmx() -> (vmx: Option<bool>) {
    match raw_cpuid::CpuId::new().get_feature_info() {
        Some(info) => Some(info.has_vmx()),
        None => None,
    }
}

/// Whether the processor reports memory type range registers, by
/// `CpuId::get_feature_info` and `FeatureInfo::has_mtrr` of `raw_cpuid`; `None` where
/// it does not report features. It depends on the machine, so nothing is said of it.
#[verifier::external_body]
fn processor_mtrr() -> (mtrr: Option<bool>) {
    match raw_cpuid::CpuId::new().get_feature_info() {
        Some(info) => Some(info.has_mtrr()),
        None => None,
    }
}

/// Whether the processor reports SVM, by
/// `CpuId::get_extended_processor_and_feature_identifiers` and
/// `ExtendedProcessorFeatureIdentifiers::has_svm` of `raw_cpuid`; `None` where it does
/// not report extended features. It depends on the machine, so nothing is said of it.
#[verifier::external_body]
fn processor_svm() -> (svm: Option<bool>) {
    match raw_cpuid::CpuId::new().get_extended_processor_and_feature_identifiers() {
        Some(info) => Some(info.has_svm()),
        None => None,
    }
}

/// Whether a vendor identification was reported and is `expected`.
pub open spec fn is_vendor(vendor: Option<String>, expected: &str) -> bool {
    vendor matches Some(v) && v@ == expected@
}

/// The extension of a processor that reports the given vendor and features: VT-x for
/// Intel with VMX, AMD-V for AMD with SVM, and none for any other.
pub open spec fn extension_of(
    vendor: Option<String>,
    vmx: Option<bool>,
    svm: Option<bool>,
) -> Option<HypervisorExtension> {
    if is_vendor(vendor, INTEL) && vmx == Some(true) {
        Some(HypervisorExtension::Vmx)
    } else if is_vendor(vendor, AMD) && svm == Some(true) {
        Some(HypervisorExtension::Svm)
    } else {
        None
    }
}

/// Compares a reported vendor identification.
fn vendor_is(vendor: &Option<String>, expected: &str) -> (same: bool)
    ensures
        same == is_vendor(*vendor, expected),
{
    match vendor {
        Some(vendor) => *vendor == String::from_str(expected),
        None => false,
    }
}

/// Selects the extension to use from what the processor reports.
///
/// Returns the extension, or `Err(HypervisorError::VmUnsupported)` if there is none.
pub fn select_extension(
    vendor: Option<String>,
    vmx: Option<bool>,
    svm: Option<bool>,
) -> (extension: Result<HypervisorExtension, HypervisorError>)
    ensures
        extension == (match extension_of(vendor, vmx, svm) {
            Some(found) => Ok::<HypervisorExtension, HypervisorError>(found),
            None => Err(HypervisorError::VmUnsupported),
        }),
{
    if vendor_is(&vendor, INTEL) && vmx == Some(true) {
        Ok(HypervisorExtension::Vmx)
    } else if vendor_is(&vendor, AMD) && svm == Some(true) {
        Ok(HypervisorExtension::Svm)
    } else {
        Err(HypervisorError::VmUnsupported)
    }
}

/// Checks whether the CPU supports a hardware virtualization extension.
///
/// Detects Intel VT-x (`GenuineIntel` with the VMX feature bit) and AMD-V
/// (`AuthenticAMD` with the SVM feature bit, CPUID `8000_0001h:ECX[2]`), as
/// [`select_extension`] does from what the processor reports.
///
/// # Returns
///
/// Returns `Ok(HypervisorExtension)` indicating the supported extension, or
/// `Err(HypervisorError::VmUnsupported)` if neither is available.
pub fn check_supported_cpu() -> (extension: Result<HypervisorExtension, HypervisorError>)
    ensures
        extension matches Err(error) ==> error == HypervisorError::VmUnsupported,
        exists|vendor: Option<String>, vmx: Option<bool>, svm: Option<bool>|
            extension == (match #[trigger] extension_of(vendor, vmx, svm) {
                Some(found) => Ok::<HypervisorExtension, HypervisorError>(found),
                None => Err(HypervisorError::VmUnsupported),
            }),
{
    let vendor = processor_vendor();
    let vmx = processor_vmx();
    let svm = processor_svm();
    select_extension(vendor, vmx, svm)
}

/// The backend to use after [`check_supported_cpu`]: AMD-V where that was found, else
/// VT-x.
pub fn backend_for(found: Result<HypervisorExtension, HypervisorError>) -> (extension:
    HypervisorExtension)
    ensures
        extension == (if found == Ok::<HypervisorExtension, HypervisorError>(
            HypervisorExtension::Svm,
        ) {
            HypervisorExtension::Svm
        } else {
            HypervisorExtension::Vmx
        }),
{
    match found {
        Ok(HypervisorExtension::Svm) => HypervisorExtension::Svm,
        _ => HypervisorExtension::Vmx,
    }
}

/// Whether an Intel processor with the given features can run the VT-x backend.
pub open spec fn vmx_support(
    vendor: Option<String>,
    vmx: Option<bool>,
    mtrr: Option<bool>,
) -> Result<(), HypervisorError> {
    if !is_vendor(vendor, INTEL) {
        Err(HypervisorError::CPUUnsupported)
    } else if vmx != Some(true) {
        Err(HypervisorError::VMXUnsupported)
    } else if mtrr != Some(true) {
        Err(HypervisorError::VmUnsupported)
    } else {
        Ok(())
    }
}

/// Decides from what the processor reports whether it can run the VT-x backend: it
/// has to be from Intel, with VMX and with memory type range registers.
pub fn select_vmx(vendor: Option<String>, vmx: Option<bool>, mtrr: Option<bool>) -> (supported:
    Result<(), HypervisorError>)
    ensures
        supported == vmx_support(vendor, vmx, mtrr),
{
    if !vendor_is(&vendor, INTEL) {
        Err(HypervisorError::CPUUnsupported)
    } else if vmx != Some(true) {
        Err(HypervisorError::VMXUnsupported)
    } else if mtrr != Some(true) {
        Err(HypervisorError::VmUnsupported)
    } else {
        Ok(())
    }
}

/// Checks whether the CPU supports the VT-x backend, as [`select_vmx`] decides from
/// what the processor reports.
pub(crate) fn check_vmx() -> (supported: Result<(), HypervisorError>)
    ensures
        exists|vendor: Option<String>, vmx: Option<bool>, mtrr: Option<bool>|
            supported == #[trigger] vmx_support(vendor, vmx, mtrr),
{
    let vendor = processor_vendor();
    let vmx = processor_vmx();
    let mtrr = processor_mtrr();
    select_vmx(vendor, vmx, mtrr)
}

/// A processor that the VT-x backend supports is one the VT-x extension is selected
/// for.
pub proof fn law_vmx_support_agrees_with_selection(
    vendor: Option<String>,
    vmx: Option<bool>,
    svm: Option<bool>,
    mtrr: Option<bool>,
)
    ensures
        vmx_support(vendor, vmx, mtrr) is Ok <==> extension_of(vendor, vmx, svm) == Some(
            HypervisorExtension::Vmx,
        ) && mtrr == Some(true),
        extension_of(vendor, vmx, svm) == Some(HypervisorExtension::Svm) ==> vmx_support(
            vendor,
            vmx,
            mtrr,
        ) is Err,
{
    reveal_strlit("GenuineIntel");
    reveal_strlit("AuthenticAMD");
    assert(INTEL@[0] != AMD@[0]);
}

/// VT-x is selected exactly for a processor that calls itself "GenuineIntel" and reports
/// VMX, AMD-V exactly for one that calls itself "AuthenticAMD" and reports SVM. The VT-x
/// backend supports the former if it reports memory type range registers; otherwise the
/// error is that of the first condition, in this order, that is not met.
pub proof fn law_selection(
    vendor: Option<String>,
    vmx: Option<bool>,
    svm: Option<bool>,
    mtrr: Option<bool>,
)
    ensures
        ({
            let intel = vendor is Some && vendor->0@ == seq![
                'G', 'e', 'n', 'u', 'i', 'n', 'e', 'I', 'n', 't', 'e', 'l',
            ];
            let amd = vendor is Some && vendor->0@ == seq![
                'A', 'u', 't', 'h', 'e', 'n', 't', 'i', 'c', 'A', 'M', 'D',
            ];
            &&& extension_of(vendor, vmx, svm) == Some(HypervisorExtension::Vmx) <==> intel && vmx
                == Some(true)
            &&& extension_of(vendor, vmx, svm) == Some(HypervisorExtension::Svm) <==> amd && svm
                == Some(true)
            &&& !intel ==> vmx_support(vendor, vmx, mtrr) == Err::<(), HypervisorError>(
                HypervisorError::CPUUnsupported,
            )
            &&& intel && vmx != Some(true) ==> vmx_support(vendor, vmx, mtrr) == Err::<
                (),
                HypervisorError,
            >(HypervisorError::VMXUnsupported)
            &&& intel && vmx == Some(true) && mtrr != Some(true) ==> vmx_support(vendor, vmx, mtrr)
                == Err::<(), HypervisorError>(HypervisorError::VmUnsupported)
            &&& intel && vmx == Some(true) && mtrr == Some(true) ==> vmx_support(vendor, vmx, mtrr)
                == Ok::<(), HypervisorError>(())
        }),
{
    let intel = seq!['G', 'e', 'n', 'u', 'i', 'n', 'e', 'I', 'n', 't', 'e', 'l'];
    let amd = seq!['A', 'u', 't', 'h', 'e', 'n', 't', 'i', 'c', 'A', 'M', 'D'];
    reveal_strlit("GenuineIntel");
    reveal_strlit("AuthenticAMD");
    assert(INTEL@ =~= intel);
    assert(AMD@ =~= amd);
    assert(intel[0] != amd[0]);
}

} // verus!
