//! What the CPU asks of the picture unit.
use vstd::prelude::*;

verus! {

/// A point in the picture unit's timeline.
#[derive(Copy, Clone, Debug, PartialEq, Eq, Structural)]
pub struct PpuTime {
    pub scanline: i16,
    pub cycle: u16,
    pub frame: u128,
}

/// The picture unit as the CPU polls it: whether it asks for a
/// non-maskable interrupt, its acknowledgement, and the current time. Each
/// implementation says in its spec functions what its answers are.
pub trait PpuState: Sized {
    /// Whether the picture unit asks for an NMI.
    spec fn nmi_requested(&self) -> bool;

    /// The picture unit's current time.
    spec fn time(&self) -> PpuTime;

    fn is_nmi_pending(&mut self) -> (r: bool)
        ensures
            r == old(self).nmi_requested(),
            *final(self) == *old(self),
    ;

    /// Acknowledges the NMI: the request is withdrawn, the time stays.
    fn clear_nmi_pending(&mut self)
        ensures
            !final(self).nmi_requested(),
            final(self).time() == old(self).time(),
    ;

    fn get_time(&self) -> (r: PpuTime)
        ensures
            r == self.time(),
    ;
}

/// The picture unit's state as the CPU sees it: its NMI request and its time.
#[derive(Copy, Clone, Debug, PartialEq, Eq, Structural)]
pub struct PpuStatus {
    pub nmi_pending: bool,
    pub time: PpuTime,
}

impl PpuState for PpuStatus {
    open spec fn nmi_requested(&self) -> bool {
        self.nmi_pending
    }

    open spec fn time(&self) -> PpuTime {
        self.time
    }

    fn is_nmi_pending(&mut self) -> (r: bool) {
        self.nmi_pending
    }

    fn clear_nmi_pending(&mut self)
        ensures
            *final(self) == (PpuStatus { nmi_pending: false, ..*old(self) }),
    {
        self.nmi_pending = false;
    }

    fn get_time(&self) -> (r: PpuTime) {
        self.time
    }
}

} // verus!
