//! The error type shared by all parts of the hypervisor.

use vstd::prelude::*;
use vstd::string::StringExecFns;

use crate::text::render;

verus! {

broadcast use vstd::string::group_string_axioms;

/// What can go wrong while preparing or running a guest.
#[derive(Debug, Clone, Copy, PartialEq, Eq, Structural)]
pub enum HypervisorError {
    /// A host I/O operation failed; carries the error number.
    IoError(i32),
    /// The guest image is not a loadable ELF file.
    ParseError,
    /// The processor is not from Intel.
    CPUUnsupported,
    /// The processor lacks VMX.
    VMXUnsupported,
    /// `VMCLEAR` (or `VMXON` / `VMPTRLD`) reported a failure.
    VMCLEARFailed,
    /// `VMREAD` reported a failure.
    VMREADFailed,
    /// `VMWRITE` reported a failure.
    VMWRITEFailed,
    /// The guest could not be entered; carries the VM-instruction error.
    VMEntryFailed(u64),
    /// Memory could not be allocated or has no host-physical address.
    AllocationFailed,
    /// A required hardware feature is missing.
    VmUnsupported,
    /// The guest was left for a reason that is not handled.
    UnknownVMExitReason,
}

impl HypervisorError {
    /// The text of [`HypervisorError::message`].
    pub open spec fn message_text(self) -> Seq<char> {
        match self {
            HypervisorError::IoError(_) => "IO error"@,
            HypervisorError::ParseError => "Unable to parse ELF file"@,
            HypervisorError::CPUUnsupported => "Intel CPU not found"@,
            HypervisorError::VMXUnsupported => "VMX is not supported"@,
            HypervisorError::VMCLEARFailed => "Failed to execute VMCLEAR"@,
            HypervisorError::VMREADFailed => "Failed to execute VMREAD"@,
            HypervisorError::VMWRITEFailed => "Failed to execute VMWRITE"@,
            HypervisorError::VMEntryFailed(code) => {
                "Failed to execute VMLAUNCH/VMRESUME (VM-instruction error "@
                    + crate::text::digits(code as nat, 10) + ")"@
            },
            HypervisorError::AllocationFailed => "Failed to allocate memory"@,
            HypervisorError::VmUnsupported => "Hardware support is missing"@,
            HypervisorError::UnknownVMExitReason => "Unknown VM exit basic reason"@,
        }
    }

    /// A description of the error for the user.
    pub fn message(&self) -> (text: String)
        ensures
            text@ == self.message_text(),
    {
        match self {
            HypervisorError::IoError(_) => String::from_str("IO error"),
            HypervisorError::ParseError => String::from_str("Unable to parse ELF file"),
            HypervisorError::CPUUnsupported => String::from_str("Intel CPU not found"),
            HypervisorError::VMXUnsupported => String::from_str("VMX is not supported"),
            HypervisorError::VMCLEARFailed => String::from_str("Failed to execute VMCLEAR"),
            HypervisorError::VMREADFailed => String::from_str("Failed to execute VMREAD"),
            HypervisorError::VMWRITEFailed => String::from_str("Failed to execute VMWRITE"),
            HypervisorError::VMEntryFailed(code) => {
                let mut text = String::from_str(
                    "Failed to execute VMLAUNCH/VMRESUME (VM-instruction error ",
                );
                let number = render(*code, 10);
                text.append(number.as_str());
                text.append(")");
                text
            },
            HypervisorError::AllocationFailed => String::from_str("Failed to allocate memory"),
            HypervisorError::VmUnsupported => String::from_str("Hardware support is missing"),
            HypervisorError::UnknownVMExitReason => {
                String::from_str("Unknown VM exit basic reason")
            },
        }
    }
}

/// What the user is told of an error. The description of a failed entry gives the
/// VM-instruction error in decimal.
pub proof fn law_messages(number: i32, code: u64)
    ensures
        HypervisorError::IoError(number).message_text() == "IO error"@,
        HypervisorError::ParseError.message_text() == "Unable to parse ELF file"@,
        HypervisorError::CPUUnsupported.message_text() == "Intel CPU not found"@,
        HypervisorError::VMXUnsupported.message_text() == "VMX is not supported"@,
        HypervisorError::VMCLEARFailed.message_text() == "Failed to execute VMCLEAR"@,
        HypervisorError::VMREADFailed.message_text() == "Failed to execute VMREAD"@,
        HypervisorError::VMWRITEFailed.message_text() == "Failed to execute VMWRITE"@,
        HypervisorError::VMEntryFailed(code).message_text()
            == "Failed to execute VMLAUNCH/VMRESUME (VM-instruction error "@ + crate::text::digits(
            code as nat,
            10,
        ) + ")"@,
        HypervisorError::AllocationFailed.message_text() == "Failed to allocate memory"@,
        HypervisorError::VmUnsupported.message_text() == "Hardware support is missing"@,
        HypervisorError::UnknownVMExitReason.message_text() == "Unknown VM exit basic reason"@,
{
}

} // verus!
