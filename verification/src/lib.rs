//! rhyve: the verified core of a bare-metal hypervisor.

pub mod apic;
pub mod backend;
pub mod boot;
pub mod bytes;
pub mod cpu;
pub mod error;
pub mod fdt;
pub mod fpu;
pub mod host;
pub mod hypercall;
pub mod image;
pub mod intel;
pub mod launch;
pub mod paging;
pub mod svm;
pub mod text;
pub mod translation;
pub mod uart;
pub mod vcpu;
pub mod vm;
pub mod vmx;
