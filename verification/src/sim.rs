//! Software implementations of the hardware capabilities: a stepper driver
//! that logs the calls made on it and can be scripted to fault at a chosen
//! pulse or at release, and a pacing timer that only records the delays it
//! is asked for. They stand in for the real hardware in tests and demos.

use vstd::prelude::*;

use crate::hal::{ActuationError, Delay, MovementDirection, Stepper, StepperEvent};

verus! {

/// How many pulses were physically issued in an event log.
pub open spec fn pulse_count_of(events: Seq<StepperEvent>) -> int
    decreases events.len(),
{
    if events.len() == 0 {
        0
    } else {
        pulse_count_of(events.drop_last()) + if events.last() is Pulse {
            1int
        } else {
            0int
        }
    }
}

/// How many releases completed in an event log.
pub open spec fn release_count_of(events: Seq<StepperEvent>) -> int
    decreases events.len(),
{
    if events.len() == 0 {
        0
    } else {
        release_count_of(events.drop_last()) + if events.last() is Released {
            1int
        } else {
            0int
        }
    }
}

/// An event log holds no more pulses or releases than events.
proof fn lemma_counts_bounded(events: Seq<StepperEvent>)
    ensures
        0 <= pulse_count_of(events) <= events.len(),
        0 <= release_count_of(events) <= events.len(),
    decreases events.len(),
{
    if events.len() > 0 {
        lemma_counts_bounded(events.drop_last());
    }
}

/// Counting one event more extends each tally by that event's kind.
proof fn lemma_counts_step(events: Seq<StepperEvent>, i: int)
    requires
        0 <= i < events.len(),
    ensures
        pulse_count_of(events.take(i + 1)) == pulse_count_of(events.take(i)) + if events[i]
            is Pulse {
            1int
        } else {
            0int
        },
        release_count_of(events.take(i + 1)) == release_count_of(events.take(i)) + if events[i]
            is Released {
            1int
        } else {
            0int
        },
{
    assert(events.take(i + 1).drop_last() =~= events.take(i));
    assert(events.take(i + 1).last() == events[i]);
}

/// Count the issued pulses and the completed releases in an event log.
fn tally(events: &Vec<StepperEvent>) -> (r: (usize, usize))
    ensures
        r.0 == pulse_count_of(events@),
        r.1 == release_count_of(events@),
{
    let mut pulses: usize = 0;
    let mut releases: usize = 0;
    let mut i: usize = 0;
    proof {
        assert(events@.take(0) =~= Seq::<StepperEvent>::empty());
    }
    while i < events.len()
        invariant
            0 <= i <= events@.len(),
            pulses == pulse_count_of(events@.take(i as int)),
            releases == release_count_of(events@.take(i as int)),
        decreases events@.len() - i,
    {
        proof {
            lemma_counts_step(events@, i as int);
            lemma_counts_bounded(events@.take(i as int));
        }
        match events[i] {
            StepperEvent::Pulse(_) => {
                pulses = pulses + 1;
            }
            StepperEvent::Released => {
                releases = releases + 1;
            }
            _ => {}
        }
        i = i + 1;
    }
    proof {
        assert(events@.take(events@.len() as int) =~= events@);
    }
    (pulses, releases)
}

/// A stepper driver in software: every call is logged instead of moving a
/// motor, and a fault can be scripted for one pulse call or for release.
pub struct RecordingStepper {
    events: Vec<StepperEvent>,
    fail_pulse_at: Option<usize>,
    pulse_fault: ActuationError,
    fail_release: bool,
    release_fault: ActuationError,
}

impl RecordingStepper {
    /// The scripted pulse fault, at specification level: the pulse call
    /// made when that many pulses have been issued reports that fault.
    pub closed spec fn spec_pulse_fault(&self) -> Option<(usize, ActuationError)> {
        match self.fail_pulse_at {
            Some(index) => Some((index, self.pulse_fault)),
            None => None,
        }
    }

    /// The scripted release fault, at specification level.
    pub closed spec fn spec_release_fault(&self) -> Option<ActuationError> {
        if self.fail_release {
            Some(self.release_fault)
        } else {
            None
        }
    }

    /// A driver that never faults: callers may rely on every call
    /// succeeding.
    pub fn new() -> (r: RecordingStepper)
        ensures
            r.history() == Seq::<StepperEvent>::empty(),
            !r.may_fault(),
            r.spec_pulse_fault() is None,
            r.spec_release_fault() is None,
    {
        RecordingStepper {
            events: Vec::new(),
            fail_pulse_at: None,
            pulse_fault: ActuationError::Generic,
            fail_release: false,
            release_fault: ActuationError::Generic,
        }
    }

    /// A driver whose pulse call number `index` (counting issued pulses
    /// from zero) reports `fault` instead of issuing a pulse.
    pub fn with_pulse_fault(index: usize, fault: ActuationError) -> (r: RecordingStepper)
        ensures
            r.history() == Seq::<StepperEvent>::empty(),
            r.spec_pulse_fault() == Some((index, fault)),
            r.spec_release_fault() is None,
    {
        RecordingStepper {
            events: Vec::new(),
            fail_pulse_at: Some(index),
            pulse_fault: fault,
            fail_release: false,
            release_fault: ActuationError::Generic,
        }
    }

    /// A driver whose pulses all succeed but whose release reports `fault`.
    pub fn with_release_fault(fault: ActuationError) -> (r: RecordingStepper)
        ensures
            r.history() == Seq::<StepperEvent>::empty(),
            r.spec_pulse_fault() is None,
            r.spec_release_fault() == Some(fault),
    {
        RecordingStepper {
            events: Vec::new(),
            fail_pulse_at: None,
            pulse_fault: ActuationError::Generic,
            fail_release: true,
            release_fault: fault,
        }
    }

    /// The full log of calls, in order.
    pub fn event_log(&self) -> (r: &Vec<StepperEvent>)
        ensures
            r@ == self.history(),
    {
        &self.events
    }

    /// How many pulses have been issued.
    pub fn pulse_count(&self) -> (r: usize)
        ensures
            r == pulse_count_of(self.history()),
    {
        tally(&self.events).0
    }

    /// How many times the motor has been released.
    pub fn release_count(&self) -> (r: usize)
        ensures
            r == release_count_of(self.history()),
    {
        tally(&self.events).1
    }
}

impl Stepper for RecordingStepper {
    closed spec fn history(&self) -> Seq<StepperEvent> {
        self.events@
    }

    closed spec fn may_fault(&self) -> bool {
        self.fail_pulse_at is Some || self.fail_release
    }

    fn actuate(&mut self, direction: &MovementDirection) -> (r: Result<(), ActuationError>)
        ensures
            final(self).spec_pulse_fault() == old(self).spec_pulse_fault(),
            final(self).spec_release_fault() == old(self).spec_release_fault(),
            (match old(self).spec_pulse_fault() {
                Some((index, fault)) => if index == pulse_count_of(old(self).history()) {
                    r == Err::<(), ActuationError>(fault)
                } else {
                    r is Ok
                },
                None => r is Ok,
            }),
    {
        let issued: usize = tally(&self.events).0;
        let due = match self.fail_pulse_at {
            Some(index) => index == issued,
            None => false,
        };
        if due {
            let fault = self.pulse_fault;
            self.events.push(StepperEvent::PulseFault(fault));
            Err(fault)
        } else {
            self.events.push(StepperEvent::Pulse(*direction));
            Ok(())
        }
    }

    fn release(&mut self) -> (r: Result<(), ActuationError>)
        ensures
            final(self).spec_pulse_fault() == old(self).spec_pulse_fault(),
            final(self).spec_release_fault() == old(self).spec_release_fault(),
            (match old(self).spec_release_fault() {
                Some(fault) => r == Err::<(), ActuationError>(fault),
                None => r is Ok,
            }),
    {
        if self.fail_release {
            let fault = self.release_fault;
            self.events.push(StepperEvent::ReleaseFault(fault));
            Err(fault)
        } else {
            self.events.push(StepperEvent::Released);
            Ok(())
        }
    }
}

/// A pacing timer in software: it does not wait, it only records what it
/// was asked for.
pub struct CountingDelay {
    requests: Vec<u32>,
    total_ms: u64,
}

impl CountingDelay {
    /// The total of the requested delays, at specification level.
    pub closed spec fn spec_total_ms(&self) -> u64 {
        self.total_ms
    }

    pub fn new() -> (r: CountingDelay)
        ensures
            r.requested() == Seq::<u32>::empty(),
            r.spec_total_ms() == 0,
    {
        CountingDelay { requests: Vec::new(), total_ms: 0 }
    }

    /// How many delays were requested.
    pub fn call_count(&self) -> (r: usize)
        ensures
            r == self.requested().len(),
    {
        self.requests.len()
    }

    /// The sum of all requested delays, in milliseconds.
    pub fn total_requested_ms(&self) -> (r: u64)
        ensures
            r == self.spec_total_ms(),
    {
        self.total_ms
    }
}

impl Delay for CountingDelay {
    closed spec fn requested(&self) -> Seq<u32> {
        self.requests@
    }

    fn delay_ms(&mut self, duration_ms: u32) {
        self.requests.push(duration_ms);
        if self.total_ms <= u64::MAX - duration_ms as u64 {
            self.total_ms = self.total_ms + duration_ms as u64;
        }
    }
}

} // verus!
