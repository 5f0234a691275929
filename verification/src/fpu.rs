//! The extended FP register file (x87/SSE/AVX/...) across a guest run.
//!
//! Neither `VMRUN` nor `VMLAUNCH`/`VMRESUME` preserves the FP register file, and a
//! guest kernel may switch its threads' FP state lazily: the live FP registers then
//! belong to whichever guest thread last touched them and stay live across a
//! VM-exit. The embedder saves the guest's FP state right after each exit and
//! restores it just before the next entry, doing the same for the host's own FP
//! state around that window so neither side corrupts the other. This module holds
//! the save areas; the `XSAVE` and `XRSTOR` instructions are the embedder's.

use vstd::prelude::*;

use crate::bytes;

verus! {

/// Offset of the `MXCSR` field in the legacy region of an `XSAVE` area.
pub const MXCSR_OFFSET: usize = 24;

/// The value of `MXCSR` after reset.
pub const MXCSR_RESET: u32 = 0x1F80;

/// Offset of the `XSTATE_BV` field in the header of an `XSAVE` area.
pub const XSTATE_BV_OFFSET: usize = 512;

/// Size of a save area in bytes.
pub const FPU_STATE_SIZE: usize = 4096;

/// An `XSAVE` area. 4 KiB comfortably covers every XCR0 component a guest is likely
/// to enable (x87, SSE, AVX, and well beyond).
pub struct FpuState {
    data: [u8; 4096],
}

impl View for FpuState {
    type V = Seq<u8>;

    closed spec fn view(&self) -> Seq<u8> {
        self.data@
    }
}

/// The FP state a guest starts with: zero but for `MXCSR`.
pub open spec fn initial_state() -> Seq<u8> {
    bytes::overlay(
        Seq::new(FPU_STATE_SIZE as nat, |i: int| 0u8),
        MXCSR_OFFSET as int,
        bytes::le_bytes(MXCSR_RESET as nat, 4),
    )
}

impl FpuState {
    /// A scratch area for capturing whatever state is currently live.
    pub fn scratch() -> (state: Self)
        ensures
            state@ == Seq::new(FPU_STATE_SIZE as nat, |i: int| 0u8),
    {
        let state = FpuState { data: [0u8; 4096] };
        assert(state@ =~= Seq::new(FPU_STATE_SIZE as nat, |i: int| 0u8));
        state
    }

    /// A clean initial guest FP state. An all-zero `XSAVE` header makes `XRSTOR` set
    /// every state component to its init value; the legacy `MXCSR` field is seeded
    /// with its reset value so `XRSTOR` does not fault on its reserved-bit check.
    pub fn init_guest() -> (state: Self)
        ensures
            state@ == initial_state(),
            bytes::field(state@, MXCSR_OFFSET as int, 4) == MXCSR_RESET,
            bytes::field(state@, XSTATE_BV_OFFSET as int, 8) == 0,
    {
        let mut state = FpuState::scratch();
        let ghost before = state@;
        proof {
            bytes::lemma_spans();
        }
        bytes::write_le(&mut state.data, MXCSR_OFFSET, 4, MXCSR_RESET as u64);
        proof {
            bytes::lemma_le_round_trip(MXCSR_RESET as nat, 4);
            bytes::lemma_field_beside_overlay(
                before,
                MXCSR_OFFSET as int,
                bytes::le_bytes(MXCSR_RESET as nat, 4),
                XSTATE_BV_OFFSET as int,
                8,
            );
            bytes::lemma_zero_field(before, XSTATE_BV_OFFSET as int, 8);
        }
        state
    }

    /// The area, for copying it to where `XRSTOR` reads it.
    pub fn area(&self) -> (area: [u8; 4096])
        ensures
            area@ == self@,
    {
        self.data
    }

    /// Replaces the area by what `XSAVE` has stored.
    pub fn load(&mut self, area: [u8; 4096])
        ensures
            final(self)@ == area@,
    {
        self.data = area;
    }
}

/// A guest starts with an `XSAVE` area of 4096 bytes, all of them zero but for the two of
/// `MXCSR`, at offset 24, that hold 0x1F80.
pub proof fn law_initial_state(i: int)
    requires
        0 <= i < 4096,
    ensures
        initial_state().len() == 4096,
        initial_state()[i] == (if i == 24 {
            0x80
        } else if i == 25 {
            0x1F
        } else {
            0int
        }),
{
    bytes::law_representations(0x1F80, 4, 0);
    bytes::law_representations(0x1F80, 4, 1);
    bytes::law_representations(0x1F80, 4, 2);
    bytes::law_representations(0x1F80, 4, 3);
}

} // verus!
