//! The guest's local-APIC timer, programmed through x2APIC MSRs.

use vstd::prelude::*;

verus! {

// x2APIC timer registers, accessed by the guest via RDMSR/WRMSR. The MSR
// permission map intercepts every access in this range, so the local-APIC timer
// is emulated entirely in the WRMSR handler.

/// The TSC value at which a timer in TSC-deadline mode fires.
pub const IA32_TSC_DEADLINE: u32 = 0x6e0;

/// The timer's entry in the local vector table.
pub const IA32_X2APIC_LVT_TIMER: u32 = 0x832;

/// The initial count of a timer in one-shot or periodic mode.
pub const IA32_X2APIC_INIT_COUNT: u32 = 0x838;

/// LVT timer-mode field (bits 18:17): one-shot, periodic or TSC-deadline.
pub const LVT_TIMER_MODE_MASK: u64 = 0x6_0000;

pub const LVT_TIMER_MODE_PERIODIC: u64 = 0x2_0000;

pub const LVT_TIMER_MODE_TSC_DEADLINE: u64 = 0x4_0000;

/// LVT mask bit (bit 16): when set, the timer interrupt is suppressed.
pub const LVT_MASKED: u64 = 0x1_0000;

/// Emulated state of the guest's local-APIC timer (programmed via x2APIC MSRs).
///
/// APIC virtualization does not model the local-APIC timer, so the guest's writes to
/// the timer registers are captured here and turned into a host deadline.
#[derive(Debug, Clone, Copy, PartialEq, Eq)]
pub struct ApicTimer {
    /// Interrupt vector to inject, taken from the LVT timer register.
    pub vector: u8,
    /// Whether the timer interrupt is currently masked (LVT bit 16).
    pub masked: bool,
    /// Whether the LVT timer is in TSC-deadline mode.
    pub tsc_deadline_mode: bool,
    /// Whether the LVT timer is in periodic mode (re-arm after each expiry).
    pub periodic: bool,
    /// Absolute host-TSC value at which the timer should next fire, if armed.
    pub deadline: Option<u64>,
    /// Period in TSC ticks, used to re-arm a periodic timer after it expires.
    pub period: Option<u64>,
}

/// The timer of a processor out of reset: unmasked, one-shot, not armed.
pub open spec fn idle_timer() -> ApicTimer {
    ApicTimer {
        vector: 0,
        masked: false,
        tsc_deadline_mode: false,
        periodic: false,
        deadline: None,
        period: None,
    }
}

impl Default for ApicTimer {
    fn default() -> (timer: Self)
        ensures
            timer == idle_timer(),
    {
        ApicTimer {
            vector: 0,
            masked: false,
            tsc_deadline_mode: false,
            periodic: false,
            deadline: None,
            period: None,
        }
    }
}

impl ApicTimer {
    /// What holds of every timer: a masked one is not armed, one with a period is, and
    /// it is in one mode at a time.
    pub open spec fn wf(self) -> bool {
        &&& self.masked ==> self.deadline is None && self.period is None
        &&& self.period is Some ==> self.deadline is Some
        &&& !(self.periodic && self.tsc_deadline_mode)
    }

    /// The timer after it has been disarmed.
    pub open spec fn disarmed(self) -> ApicTimer {
        ApicTimer { deadline: None, period: None, ..self }
    }

    /// The timer after a write of `value` to its vector-table entry: the vector, the
    /// mask and the mode follow the value, and masking disarms.
    pub open spec fn after_lvt(self, value: u64) -> ApicTimer {
        let set = ApicTimer {
            vector: (value & 0xff) as u8,
            masked: value & LVT_MASKED != 0,
            tsc_deadline_mode: value & LVT_TIMER_MODE_MASK == LVT_TIMER_MODE_TSC_DEADLINE,
            periodic: value & LVT_TIMER_MODE_MASK == LVT_TIMER_MODE_PERIODIC,
            ..self
        };
        if set.masked {
            set.disarmed()
        } else {
            set
        }
    }

    /// The timer after a write of an absolute deadline. Zero disarms, and so does
    /// any value while the timer is masked; TSC-deadline mode is one-shot.
    pub open spec fn after_deadline(self, value: u64) -> ApicTimer {
        ApicTimer {
            deadline: if value != 0 && !self.masked {
                Some(value)
            } else {
                None
            },
            period: None,
            ..self
        }
    }

    /// The timer after a write of an initial count at time `tsc`. One count is taken
    /// as one tick of the (wrapping) time-stamp counter. Zero disarms, as does any
    /// count while the timer is masked or in TSC-deadline mode.
    pub open spec fn after_count(self, value: u64, tsc: u64) -> ApicTimer {
        if value == 0 || self.masked || self.tsc_deadline_mode {
            self.disarmed()
        } else {
            ApicTimer {
                deadline: Some(((tsc + value) % 0x1_0000_0000_0000_0000) as u64),
                period: if self.periodic {
                    Some(value)
                } else {
                    None
                },
                ..self
            }
        }
    }

    /// The timer after the guest has written `value` to the register `msr` at time
    /// `tsc`. A register that is not the timer's leaves it alone.
    pub open spec fn after_write(self, msr: u32, value: u64, tsc: u64) -> ApicTimer {
        if msr == IA32_X2APIC_LVT_TIMER {
            self.after_lvt(value)
        } else if msr == IA32_TSC_DEADLINE {
            self.after_deadline(value)
        } else if msr == IA32_X2APIC_INIT_COUNT {
            self.after_count(value, tsc)
        } else {
            self
        }
    }

    /// Whether the timer is armed and its deadline has been reached at time `tsc`.
    pub open spec fn due(self, tsc: u64) -> bool {
        self.deadline matches Some(deadline) && deadline <= tsc
    }

    /// A due timer after it has fired: a periodic one is armed for one period after
    /// the deadline that passed, any other is not armed any more.
    pub open spec fn fired(self) -> ApicTimer {
        ApicTimer {
            deadline: match self.period {
                Some(period) => Some(
                    if self.deadline->0 + period > u64::MAX {
                        u64::MAX
                    } else {
                        (self.deadline->0 + period) as u64
                    },
                ),
                None => None,
            },
            ..self
        }
    }
}

/// A timer out of reset is well-formed, and neither a register write nor an expiry
/// makes it otherwise: a masked timer is never armed, so its interrupt is never
/// delivered; a timer with a period stays armed; and it is never periodic and in
/// TSC-deadline mode at once.
pub proof fn law_timer_is_well_formed(timer: ApicTimer, msr: u32, value: u64, tsc: u64)
    ensures
        idle_timer().wf(),
        timer.wf() ==> timer.after_write(msr, value, tsc).wf(),
        timer.wf() && timer.due(tsc) ==> timer.fired().wf() && !timer.masked,
{
}

/// Every expiry of a periodic timer arms it again for one period after the deadline
/// that passed, whenever that was noticed, until its registers are written or the
/// counter saturates.
pub proof fn law_periodic_timer_keeps_its_beat(timer: ApicTimer, count: u64, tsc: u64)
    requires
        timer.periodic,
        !timer.masked,
        !timer.tsc_deadline_mode,
        count != 0,
        tsc + 2 * count <= u64::MAX,
    ensures
        ({
            let armed = timer.after_count(count, tsc);
            &&& armed.deadline == Some((tsc + count) as u64)
            &&& armed.fired().deadline == Some((tsc + 2 * count) as u64)
            &&& armed.fired() == (ApicTimer { deadline: armed.fired().deadline, ..armed })
        }),
{
}

/// A write to the vector-table entry (register 0x832) takes the vector from the low byte,
/// the mask from bit 16 and the mode from bits 18:17 (1 is periodic, 2 TSC-deadline), and
/// no other bit has a say. An armed timer stays armed unless it is masked.
pub proof fn law_vector_table_write(timer: ApicTimer, value: u64, tsc: u64)
    ensures
        ({
            let after = timer.after_write(0x832, value, tsc);
            &&& after.vector == value % 0x100
            &&& after.masked <==> value / 0x1_0000 % 2 == 1
            &&& after.periodic <==> value / 0x2_0000 % 4 == 1
            &&& after.tsc_deadline_mode <==> value / 0x2_0000 % 4 == 2
            &&& value / 0x1_0000 % 2 == 1 ==> after.deadline is None && after.period is None
            &&& value / 0x1_0000 % 2 == 0 ==> after.deadline == timer.deadline && after.period
                == timer.period
        }),
{
    crate::bytes::lemma_bits(value);
}

/// A write to the deadline register (0x6e0) arms an unmasked timer for exactly the
/// absolute time that is written; zero, or any value while masked, disarms it. It is
/// one-shot, and nothing else of the timer changes.
pub proof fn law_deadline_write(timer: ApicTimer, value: u64, tsc: u64)
    ensures
        ({
            let after = timer.after_write(0x6e0, value, tsc);
            &&& value > 0 && !timer.masked ==> after.deadline == Some(value)
            &&& value == 0 || timer.masked ==> after.deadline is None
            &&& after.period is None
            &&& after.vector == timer.vector && after.masked == timer.masked && after.periodic
                == timer.periodic && after.tsc_deadline_mode == timer.tsc_deadline_mode
        }),
{
}

/// A write to the initial-count register (0x838) arms an unmasked timer in one-shot or
/// periodic mode for that many ticks from now (the counter wraps), again and again only
/// in periodic mode; it disarms any other. Nothing else of the timer changes.
pub proof fn law_count_write(timer: ApicTimer, value: u64, tsc: u64)
    ensures
        ({
            let after = timer.after_write(0x838, value, tsc);
            let armed = value > 0 && !timer.masked && !timer.tsc_deadline_mode;
            &&& armed && tsc + value <= u64::MAX ==> after.deadline == Some((tsc + value) as u64)
            &&& armed && tsc + value > u64::MAX ==> after.deadline == Some(
                (tsc + value - u64::MAX - 1) as u64,
            )
            &&& armed && timer.periodic ==> after.period == Some(value)
            &&& !armed || !timer.periodic ==> after.period is None
            &&& !armed ==> after.deadline is None
            &&& after.vector == timer.vector && after.masked == timer.masked && after.periodic
                == timer.periodic && after.tsc_deadline_mode == timer.tsc_deadline_mode
        }),
{
}

/// No other register is the timer's.
pub proof fn law_other_registers_leave_the_timer_alone(
    timer: ApicTimer,
    msr: u32,
    value: u64,
    tsc: u64,
)
    requires
        msr != 0x832,
        msr != 0x6e0,
        msr != 0x838,
    ensures
        timer.after_write(msr, value, tsc) == timer,
{
}

/// A timer is due from its deadline on and at no time before. When it has fired, it is
/// armed again exactly if it has a period, for one period after the deadline (or the end
/// of time), and is otherwise what it was.
pub proof fn law_expiry(timer: ApicTimer, tsc: u64)
    ensures
        timer.deadline is None ==> !timer.due(tsc),
        timer.deadline is Some ==> (timer.due(tsc) <==> tsc >= timer.deadline->0),
        timer.deadline is Some ==> {
            let after = timer.fired();
            &&& timer.period is None ==> after.deadline is None
            &&& timer.period is Some && timer.deadline->0 + timer.period->0 <= u64::MAX
                ==> after.deadline is Some && after.deadline->0 - timer.deadline->0
                == timer.period->0
            &&& timer.period is Some && timer.deadline->0 + timer.period->0 > u64::MAX
                ==> after.deadline == Some(u64::MAX)
            &&& after.period == timer.period && after.vector == timer.vector && after.masked
                == timer.masked && after.periodic == timer.periodic && after.tsc_deadline_mode
                == timer.tsc_deadline_mode
        },
{
}

/// Out of reset, no timer is armed, none is masked, the mode is one-shot and the vector
/// zero: it is not due at any time.
pub proof fn law_idle_timer(tsc: u64)
    ensures
        ({
            let timer = idle_timer();
            &&& timer.vector == 0 && !timer.masked && !timer.tsc_deadline_mode && !timer.periodic
            &&& timer.deadline is None && timer.period is None
            &&& !timer.due(tsc)
        }),
{
}

} // verus!
