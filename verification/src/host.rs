//! Host memory services.
//!
//! The backends need the host-physical address of memory they only know by its
//! host-virtual address. How that translation is done depends on the environment
//! the hypervisor runs in, so the embedder supplies it: it implements
//! [`HostMemory`], registers the implementation once with [`set_host_memory`],
//! and every other part of the library asks [`virtual_to_physical`].

use vstd::prelude::*;

use crate::error::HypervisorError;

verus! {

/// Host memory services the hypervisor needs but cannot provide itself.
pub trait HostMemory: Sync {
    /// The translation of a host-virtual address, `None` where it is not mapped.
    spec fn translation(&self, vaddr: u64) -> Option<u64>;

    /// Translates a host-virtual address to a host-physical address, or returns
    /// `None` if the address is not mapped.
    fn virtual_to_physical(&self, vaddr: u64) -> (paddr: Option<u64>)
        ensures
            paddr == self.translation(vaddr),
    ;
}

/// The place the embedder's [`HostMemory`] is registered in.
pub struct HostMemoryCell<H> {
    host: Option<H>,
}

impl<H> HostMemoryCell<H> {
    /// The registered implementation, if there is one.
    pub closed spec fn registered(&self) -> Option<H> {
        self.host
    }

    /// A cell in which nothing is registered yet.
    pub fn new() -> (cell: Self)
        ensures
            cell.registered() is None,
    {
        HostMemoryCell { host: None }
    }

    /// Tells whether an implementation has been registered.
    pub fn is_registered(&self) -> (set: bool)
        ensures
            set == self.registered() is Some,
    {
        self.host.is_some()
    }
}

impl<H: HostMemory> HostMemoryCell<H> {
    /// The translation of a host-virtual address by the registered implementation.
    pub open spec fn translates(&self, vaddr: u64) -> Option<u64> {
        self.registered()->0.translation(vaddr)
    }
}

/// Registers the [`HostMemory`] implementation. Must be called once before any
/// virtual machine is created; further calls have no effect.
pub fn set_host_memory<H: HostMemory>(cell: &mut HostMemoryCell<H>, host: H)
    ensures
        old(cell).registered() is None ==> final(cell).registered() == Some(host),
        old(cell).registered() is Some ==> *final(cell) == *old(cell),
{
    if cell.host.is_none() {
        cell.host = Some(host);
    }
}

/// Translates a host-virtual to a host-physical address via the registered
/// [`HostMemory`].
pub fn virtual_to_physical<H: HostMemory>(cell: &HostMemoryCell<H>, vaddr: u64) -> (paddr: Option<
    u64,
>)
    requires
        cell.registered() is Some,
    ensures
        paddr == cell.translates(vaddr),
{
    match &cell.host {
        Some(host) => host.virtual_to_physical(vaddr),
        None => None,
    }
}

/// Resolves the host-physical address behind a host-virtual one; an unmapped
/// address counts as a failed allocation.
pub fn host_physical<H: HostMemory>(cell: &HostMemoryCell<H>, vaddr: u64) -> (paddr: Result<
    u64,
    HypervisorError,
>)
    requires
        cell.registered() is Some,
    ensures
        paddr == (match cell.translates(vaddr) {
            Some(address) => Ok::<u64, HypervisorError>(address),
            None => Err(HypervisorError::AllocationFailed),
        }),
{
    match virtual_to_physical(cell, vaddr) {
        Some(address) => Ok(address),
        None => Err(HypervisorError::AllocationFailed),
    }
}

} // verus!
