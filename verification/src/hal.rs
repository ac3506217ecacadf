//! Hardware abstraction: the direction, event and fault vocabulary, and the
//! two capabilities the actuation engine consumes — a stepper driver and a
//! pacing timer. Both are supplied by the embedding platform; software
//! stand-ins for testing live in [`crate::sim`].

use vstd::prelude::*;

verus! {

/// Direction of one stepper pulse: `Close` drives the valve toward fully
/// closed, `Open` toward fully open, `Hold` means the motor is stationary.
#[derive(Eq, PartialEq, Copy, Clone, Debug, Structural)]
pub enum MovementDirection {
    Close,
    Hold,
    Open,
}

/// A fault reported by the stepper driver for a single pulse or for a
/// release: an unspecified hardware failure, an over-travel condition the
/// driver itself detected, or a missing pulse acknowledgement.
#[derive(Eq, PartialEq, Copy, Clone, Debug, Structural)]
pub enum ActuationError {
    Generic,
    ExceededRange,
    TimedOut,
}

/// One interaction with a stepper driver: a pulse physically issued, a pulse
/// call that faulted instead (no pulse takes effect), a completed release of
/// the motor, or a release call that faulted.
#[derive(Eq, PartialEq, Copy, Clone, Debug, Structural)]
pub enum StepperEvent {
    Pulse(MovementDirection),
    PulseFault(ActuationError),
    Released,
    ReleaseFault(ActuationError),
}

/// A stepper driver that issues one physical pulse at a time. The driver
/// keeps no position bookkeeping — that lives in the engine — but its
/// specification carries the log of everything it was asked to do and what
/// came of it, so that the engine's contracts can account for every pulse,
/// fault and release exactly.
///
/// `may_fault` says whether the driver can ever report a fault: a hardware
/// driver answers `true`; a scripted software driver may answer `false`,
/// and a caller then knows every call of it succeeds.
pub trait Stepper {
    /// Everything this driver has done so far, in order.
    spec fn history(&self) -> Seq<StepperEvent>;

    /// Whether any call on this driver can report a fault. Fixed for the
    /// driver's lifetime.
    spec fn may_fault(&self) -> bool;

    /// Issue exactly one pulse in `direction`. On a fault no pulse takes
    /// effect; either way the outcome is appended to the log.
    fn actuate(&mut self, direction: &MovementDirection) -> (r: Result<(), ActuationError>)
        ensures
            final(self).may_fault() == old(self).may_fault(),
            r is Ok ==> final(self).history() == old(self).history().push(
                StepperEvent::Pulse(*direction),
            ),
            r matches Err(e) ==> old(self).may_fault() && final(self).history()
                == old(self).history().push(StepperEvent::PulseFault(e)),
    ;

    /// De-energize the motor once motion stops. Issues no pulse; the
    /// outcome is appended to the log.
    fn release(&mut self) -> (r: Result<(), ActuationError>)
        ensures
            final(self).may_fault() == old(self).may_fault(),
            r is Ok ==> final(self).history() == old(self).history().push(
                StepperEvent::Released,
            ),
            r matches Err(e) ==> old(self).may_fault() && final(self).history()
                == old(self).history().push(StepperEvent::ReleaseFault(e)),
    ;
}

/// A pacing timer: suspends the calling context for at least the requested
/// number of milliseconds before returning. Its specification carries the
/// log of requested delays, so that the engine's contracts can account for
/// the pacing of every pulse.
pub trait Delay {
    /// The delays requested so far, in milliseconds, in order.
    spec fn requested(&self) -> Seq<u32>;

    fn delay_ms(&mut self, duration_ms: u32)
        ensures
            final(self).requested() == old(self).requested().push(duration_ms),
    ;
}

} // verus!
