//! The contract between the hypervisor and its virtualization backends.

use vstd::prelude::*;

verus! {

/// Reason a vCPU returned control to the hypervisor, independent of the
/// underlying virtualization extension.
#[derive(Debug, Clone, Copy, PartialEq, Eq, Structural)]
pub enum ExitReason {
    /// The backend has already handled the exit.
    Success,
    /// An I/O port was accessed; carries the exit qualification.
    IoInstruction(u64),
    /// The guest asked for, or forced, a shutdown.
    Shutdown,
}

/// A swappable per-vCPU virtualization backend.
///
/// Entering the guest itself is the business of the embedder, which drives each
/// backend's own entry and exit steps; what every backend shares is the guest
/// register state the steps leave behind. `T` is the register type.
pub trait VcpuBackend<T> {
    /// The guest register state captured at the last VM-exit.
    spec fn captured(&self) -> T;

    /// Returns the guest register state captured at the last VM-exit.
    fn guest_registers(&self) -> (registers: &T)
        ensures
            *registers == self.captured(),
    ;

    /// Returns the guest register state captured at the last VM-exit for
    /// modification.
    fn guest_registers_mut(&mut self) -> (registers: &mut T)
        ensures
            *registers == old(self).captured(),
            final(self).captured() == *final(registers),
    ;
}

} // verus!
