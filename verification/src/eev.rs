//! The actuation engine: position tracking, direction determination, the
//! step-by-step pulsing loop with inter-step pacing, homing, and propagation
//! of hardware faults.

use vstd::prelude::*;

use core::time::Duration;
use crate::hal::{ActuationError, Delay, MovementDirection, Stepper, StepperEvent};
use crate::percent::{
    lemma_pulses_le_max, percent_of_pulses, pulses_of_percent, to_percent, to_pulses, Percent,
};

verus! {

/// `n` stepper pulses, all in one direction.
pub open spec fn pulse_train(direction: MovementDirection, n: int) -> Seq<StepperEvent> {
    Seq::new(n as nat, |i: int| StepperEvent::Pulse(direction))
}

/// `n` pacing delays, all of one interval.
pub open spec fn delay_train(duration_ms: u32, n: int) -> Seq<u32> {
    Seq::new(n as nat, |i: int| duration_ms)
}

/// The specification-level image of an engine: its fixed configuration, its
/// bookkeeping state, the log of its stepper driver, the delays requested of
/// its pacing timer, and whether the driver can fault at all.
pub ghost struct EevView {
    pub max_pulses: u16,
    pub overdrive: u16,
    pub position: Option<u16>,
    pub direction: Option<MovementDirection>,
    pub events: Seq<StepperEvent>,
    pub delays: Seq<u32>,
    pub fallible: bool,
}

impl EevView {
    /// Well-formedness: the travel range is non-empty, the homing start
    /// point `max_pulses + overdrive` fits the position type, and a known
    /// position never exceeds that start point.
    pub open spec fn wf(self) -> bool {
        &&& 1 <= self.max_pulses
        &&& self.max_pulses + self.overdrive <= u16::MAX
        &&& (self.position matches Some(p) ==> p <= self.max_pulses + self.overdrive)
    }
}

/// Controller for a stepper-actuated electronic expansion valve (EEV).
///
/// The engine is configured with a movement range expressed in stepper
/// pulses, plus an `overdrive` pulse count past the nominal zero endpoint,
/// driven only during homing so that the true mechanical stop is reached
/// despite unknown starting slack. `initialize` homes the valve to the
/// fully-closed position; afterwards `actuate` seeks any percentage-open
/// target, pacing each pulse by the given interval.
///
/// The engine owns the stepper driver and mutates position state only
/// through `&mut self`, so two callers can never interleave their pulse
/// trains: Rust's exclusive borrows serialize whole actuations.
pub struct Eev<TStepper: Stepper, TDelay: Delay> {
    max_pulses: u16,
    overdrive: u16,
    current_position: Option<u16>,
    current_direction: Option<MovementDirection>,
    stepper: TStepper,
    delay_generator: TDelay,
}

impl<TStepper: Stepper, TDelay: Delay> View for Eev<TStepper, TDelay> {
    type V = EevView;

    closed spec fn view(&self) -> EevView {
        EevView {
            max_pulses: self.max_pulses,
            overdrive: self.overdrive,
            position: self.current_position,
            direction: self.current_direction,
            events: self.stepper.history(),
            delays: self.delay_generator.requested(),
            fallible: self.stepper.may_fault(),
        }
    }
}

/// The value `Duration::as_millis` returns: the whole milliseconds of the
/// interval, a function of the duration alone.
pub uninterp spec fn duration_millis(d: Duration) -> u128;

/// Relies on `core::time::Duration::as_millis`: the total whole milliseconds
/// of the interval, determined by the duration alone.
pub assume_specification[ core::time::Duration::as_millis ](d: &Duration) -> (r: u128)
    ensures
        r == duration_millis(*d),
;

/// Relies on `core::time::Duration::from_millis`: the made interval holds
/// exactly the given number of whole milliseconds.
pub assume_specification[ core::time::Duration::from_millis ](millis: u64) -> (r: Duration)
    ensures
        duration_millis(r) == millis,
;

impl<TStepper: Stepper, TDelay: Delay> Eev<TStepper, TDelay> {
    /// Construct an engine around a stepper driver and a pacing timer. The
    /// position is unknown until `initialize` has completed.
    pub fn new(
        stepper_driver: TStepper,
        max_pulses: u16,
        overdrive: u16,
        delay_generator: TDelay,
    ) -> (r: Self)
        requires
            1 <= max_pulses,
            max_pulses + overdrive <= u16::MAX,
        ensures
            r@.wf(),
            r@.max_pulses == max_pulses,
            r@.overdrive == overdrive,
            r@.position is None,
            r@.direction is None,
            r@.events == stepper_driver.history(),
            r@.delays == delay_generator.requested(),
            r@.fallible == stepper_driver.may_fault(),
    {
        Eev {
            max_pulses,
            overdrive,
            current_position: None,
            current_direction: None,
            stepper: stepper_driver,
            delay_generator,
        }
    }

    /// The latest committed position as a percentage-open value, `None`
    /// until the engine has been initialized. The position must lie within
    /// the nominal range: during the homing descent through the overdrive
    /// excess it momentarily does not, and no percentage stands for it.
    pub fn current_position(&self) -> (r: Option<Percent>)
        requires
            self@.wf(),
            self@.position matches Some(p) ==> p <= self@.max_pulses,
        ensures
            match self@.position {
                None => r is None,
                Some(p) => r matches Some(pct)
                    && pct@ == percent_of_pulses(p as int, self@.max_pulses as int),
            },
    {
        match self.current_position {
            None => None,
            Some(p) => {
                let pct: u16 = to_percent(p, self.max_pulses);
                Some(Percent::new(pct as u8))
            }
        }
    }

    /// Borrow the stepper driver — to inspect a recording driver in tests,
    /// or to reconfigure a hardware one between actuations.
    pub fn stepper_driver(&self) -> (r: &TStepper)
        ensures
            r.history() == self@.events,
            r.may_fault() == self@.fallible,
    {
        &self.stepper
    }

    /// Borrow the pacing timer — to inspect a counting timer in tests.
    pub fn delay_generator(&self) -> (r: &TDelay)
        ensures
            r.requested() == self@.delays,
    {
        &self.delay_generator
    }

    /// The last commanded direction: `None` until the first actuation,
    /// `Hold` after every completed actuation.
    pub fn current_direction(&self) -> (r: Option<MovementDirection>)
        ensures
            r == self@.direction,
    {
        self.current_direction
    }

    /// Whether the valve is known to stand at the fully-closed stop.
    pub fn is_fully_closed(&self) -> (r: bool)
        ensures
            r <==> self@.position == Some(0u16),
    {
        match self.current_position {
            Some(p) => p == 0,
            None => false,
        }
    }

    /// Whether the valve is known to stand at the fully-open stop.
    pub fn is_fully_opened(&self) -> (r: bool)
        ensures
            r <==> self@.position == Some(self@.max_pulses),
    {
        match self.current_position {
            Some(p) => p == self.max_pulses,
            None => false,
        }
    }

    /// Home the valve: authoritatively assume it starts at or beyond the
    /// true closed stop, `max_pulses + overdrive` pulses out, then drive it
    /// to the 0% position. Only `Close` pulses are issued — at most
    /// `max_pulses + overdrive` of them, exactly that many when no call
    /// faults — and on success the valve rests at the fully-closed stop,
    /// released, with direction `Hold`.
    pub fn initialize(&mut self, step_interval: Duration) -> (r: Result<
        Percent,
        ActuationError,
    >)
        requires
            old(self)@.wf(),
        ensures
            final(self)@.wf(),
            final(self)@.max_pulses == old(self)@.max_pulses,
            final(self)@.overdrive == old(self)@.overdrive,
            final(self)@.fallible == old(self)@.fallible,
            final(self)@.position is Some,
            // a driver that cannot fault is owed success
            !old(self)@.fallible ==> r is Ok,
            ({
                let top = old(self)@.max_pulses + old(self)@.overdrive;
                let q = final(self)@.position->0;
                let ms = duration_millis(step_interval) as u32;
                &&& q <= top
                &&& (r matches Ok(p) ==> {
                    &&& q == 0
                    &&& final(self)@.direction == Some(MovementDirection::Hold)
                    &&& p@ == 0
                    &&& final(self)@.events == old(self)@.events + pulse_train(
                        MovementDirection::Close,
                        top as int,
                    ) + seq![StepperEvent::Released]
                })
                &&& (r matches Err(e) ==> {
                    &&& final(self)@.direction == Some(MovementDirection::Close)
                    &&& (q != 0 ==> final(self)@.events == old(self)@.events + pulse_train(
                        MovementDirection::Close,
                        top - q,
                    ) + seq![StepperEvent::PulseFault(e)])
                    &&& (q == 0 ==> final(self)@.events == old(self)@.events + pulse_train(
                        MovementDirection::Close,
                        top as int,
                    ) + seq![StepperEvent::ReleaseFault(e)])
                })
                // every pulse is paced, except the last one, which lands on
                // the mechanical stop and ends the loop at once
                &&& final(self)@.delays == old(self)@.delays + delay_train(
                    ms,
                    (top - q) - (if q == 0 {
                        1int
                    } else {
                        0int
                    }),
                )
            }),
    {
        proof {
            lemma_pulses_le_max(0, self.max_pulses as int);
        }
        self.current_position = Some(self.max_pulses + self.overdrive);
        self.actuate(Percent::new(0), step_interval)
    }

    /// Drive the valve to `target_position`, one pulse at a time, pacing
    /// each pulse by `step_interval`, then release the motor. A no-op when
    /// the target converts to the current pulse count. Any fault from a
    /// pulse or from the release aborts the call and is returned unmodified;
    /// the position then reflects the pulses actually executed — partial
    /// motion is never rolled back.
    pub fn actuate(&mut self, target_position: Percent, step_interval: Duration) -> (r: Result<
        Percent,
        ActuationError,
    >)
        requires
            old(self)@.wf(),
            old(self)@.position is Some,
        ensures
            final(self)@.wf(),
            final(self)@.max_pulses == old(self)@.max_pulses,
            final(self)@.overdrive == old(self)@.overdrive,
            final(self)@.fallible == old(self)@.fallible,
            final(self)@.position is Some,
            // a driver that cannot fault is owed success
            !old(self)@.fallible ==> r is Ok,
            // range safety: motion never drives the position above the
            // travel range, except that it may stay below where it started
            // (the homing descent through the overdrive excess)
            final(self)@.position->0 <= old(self)@.max_pulses || final(self)@.position->0
                <= old(self)@.position->0,
            ({
                let max = old(self)@.max_pulses as int;
                let cur = old(self)@.position->0 as int;
                let tgt = pulses_of_percent(target_position@, max);
                let dir = if tgt < cur {
                    MovementDirection::Close
                } else {
                    MovementDirection::Open
                };
                let q = final(self)@.position->0 as int;
                let n = if q <= cur {
                    cur - q
                } else {
                    q - cur
                };
                let ms = duration_millis(step_interval) as u32;
                let at_stop = (tgt < cur && tgt == 0) || (tgt > cur && tgt == max);
                // a call already at the target is an idempotent no-op: no
                // pulse, no release, no delay, nothing changed
                &&& (tgt == cur ==> r == Ok::<Percent, ActuationError>(target_position)
                    && final(self)@ == old(self)@)
                &&& (tgt != cur ==> {
                    // the position only ever moves from the start toward
                    // the target, and the stepper gets exactly one pulse,
                    // in the chosen direction, for each step moved
                    &&& (tgt < cur ==> tgt <= q <= cur)
                    &&& (tgt > cur ==> cur <= q <= tgt)
                    // success means the target pulse count was reached, the
                    // motor was released exactly once, and the result
                    // re-reads the reached position
                    &&& (r matches Ok(p) ==> {
                        &&& q == tgt
                        &&& final(self)@.direction == Some(MovementDirection::Hold)
                        &&& p@ == percent_of_pulses(tgt, max)
                        &&& final(self)@.events == old(self)@.events + pulse_train(dir, n)
                            + seq![StepperEvent::Released]
                    })
                    // a fault is returned unmodified and ends the log: a
                    // pulse fault before the target, with the motion it
                    // interrupted kept; or a release fault at the target
                    &&& (r matches Err(e) ==> {
                        &&& final(self)@.direction == Some(dir)
                        &&& (q != tgt ==> final(self)@.events == old(self)@.events + pulse_train(
                            dir,
                            n,
                        ) + seq![StepperEvent::PulseFault(e)])
                        &&& (q == tgt ==> final(self)@.events == old(self)@.events + pulse_train(
                            dir,
                            n,
                        ) + seq![StepperEvent::ReleaseFault(e)])
                    })
                    // one pacing delay of the converted interval per issued
                    // pulse, except after a final pulse that lands on a
                    // mechanical stop and ends the loop at once
                    &&& final(self)@.delays == old(self)@.delays + delay_train(
                        ms,
                        if q == tgt && at_stop {
                            n - 1
                        } else {
                            n
                        },
                    )
                })
            }),
    {
        let target_pulsed_position: u16 = to_pulses(target_position, self.max_pulses);
        let mut current_pulsed_position: u16 = self.current_position.unwrap();
        if target_pulsed_position == current_pulsed_position {
            return Ok(target_position);
        }

        let direction = if target_pulsed_position < current_pulsed_position {
            MovementDirection::Close
        } else {
            MovementDirection::Open
        };
        self.current_direction = Some(direction);

        let opening = direction == MovementDirection::Open;
        let closing = direction == MovementDirection::Close;
        let interval_ms: u32 = step_interval.as_millis() as u32;

        let ghost start_position: u16 = current_pulsed_position;
        let ghost at_stop_target: bool = (closing && target_pulsed_position == 0) || (opening
            && target_pulsed_position == self.max_pulses);
        let ghost mut delays_made: int = 0;

        proof {
            assert(old(self)@.events + pulse_train(direction, 0) =~= old(self)@.events);
            assert(old(self)@.delays + delay_train(interval_ms, 0) =~= old(self)@.delays);
        }

        while (closing && current_pulsed_position > target_pulsed_position) || (opening
            && current_pulsed_position < target_pulsed_position)
            invariant_except_break
                delays_made == (if current_pulsed_position <= start_position {
                    start_position - current_pulsed_position
                } else {
                    current_pulsed_position - start_position
                }),
                at_stop_target ==> ((closing && current_pulsed_position > target_pulsed_position)
                    || (opening && current_pulsed_position < target_pulsed_position)),
            invariant
                old(self)@.wf(),
                old(self)@.position == Some(start_position),
                self.max_pulses == old(self)@.max_pulses,
                self.overdrive == old(self)@.overdrive,
                self.current_direction == Some(direction),
                self.current_position == Some(current_pulsed_position),
                self.stepper.may_fault() == old(self)@.fallible,
                direction == MovementDirection::Close || direction == MovementDirection::Open,
                closing <==> direction == MovementDirection::Close,
                opening <==> direction == MovementDirection::Open,
                closing <==> target_pulsed_position < start_position,
                target_pulsed_position == pulses_of_percent(
                    target_position@,
                    self.max_pulses as int,
                ),
                target_pulsed_position <= self.max_pulses,
                interval_ms == duration_millis(step_interval) as u32,
                at_stop_target == ((closing && target_pulsed_position == 0) || (opening
                    && target_pulsed_position == self.max_pulses)),
                closing ==> target_pulsed_position <= current_pulsed_position <= start_position,
                opening ==> start_position <= current_pulsed_position <= target_pulsed_position,
                self.stepper.history() == old(self)@.events + pulse_train(
                    direction,
                    if current_pulsed_position <= start_position {
                        start_position - current_pulsed_position
                    } else {
                        current_pulsed_position - start_position
                    },
                ),
                0 <= delays_made,
                self.delay_generator.requested() == old(self)@.delays + delay_train(
                    interval_ms,
                    delays_made,
                ),
            ensures
                current_pulsed_position == target_pulsed_position,
                delays_made == (if closing {
                    start_position - target_pulsed_position
                } else {
                    target_pulsed_position - start_position
                }) - (if at_stop_target {
                    1int
                } else {
                    0int
                }),
            decreases
                    (if closing {
                        current_pulsed_position - target_pulsed_position
                    } else {
                        target_pulsed_position - current_pulsed_position
                    }),
        {
            let ghost pulses_made: int = if current_pulsed_position <= start_position {
                start_position - current_pulsed_position
            } else {
                current_pulsed_position - start_position
            };
            match self.stepper.actuate(&direction) {
                Ok(_) => {}
                Err(fault) => {
                    proof {
                        lemma_train_then_event(
                            old(self)@.events,
                            pulse_train(direction, pulses_made),
                            StepperEvent::PulseFault(fault),
                        );
                    }
                    return Err(fault);
                }
            }

            proof {
                lemma_pulse_train_step(old(self)@.events, direction, pulses_made);
            }
            current_pulsed_position = if closing {
                current_pulsed_position - 1
            } else {
                current_pulsed_position + 1
            };
            self.current_position = Some(current_pulsed_position);

            // explicit termination at the extreme edges of the motion
            // range: the physical limit always wins over the nominal target
            if (closing && current_pulsed_position == 0) || (opening && current_pulsed_position
                >= self.max_pulses) {
                break;
            }

            proof {
                lemma_delay_train_step(old(self)@.delays, interval_ms, delays_made);
                delays_made = delays_made + 1;
            }
            self.delay_generator.delay_ms(interval_ms);
        }

        let ghost total_pulses: int = if closing {
            start_position - target_pulsed_position
        } else {
            target_pulsed_position - start_position
        };
        match self.stepper.release() {
            Ok(_) => {}
            Err(fault) => {
                proof {
                    lemma_train_then_event(
                        old(self)@.events,
                        pulse_train(direction, total_pulses),
                        StepperEvent::ReleaseFault(fault),
                    );
                }
                return Err(fault);
            }
        }
        proof {
            lemma_train_then_event(
                old(self)@.events,
                pulse_train(direction, total_pulses),
                StepperEvent::Released,
            );
        }
        self.current_direction = Some(MovementDirection::Hold);

        let pct: u16 = to_percent(current_pulsed_position, self.max_pulses);
        Ok(Percent::new(pct as u8))
    }
}

/// Extending a one-direction pulse train by one more pulse in the same
/// direction is the train one longer.
proof fn lemma_pulse_train_step(h: Seq<StepperEvent>, d: MovementDirection, n: int)
    requires
        0 <= n,
    ensures
        (h + pulse_train(d, n)).push(StepperEvent::Pulse(d)) == h + pulse_train(d, n + 1),
{
    assert((h + pulse_train(d, n)).push(StepperEvent::Pulse(d)) =~= h + pulse_train(d, n + 1));
}

/// Extending a uniform delay train by one more delay of the same interval
/// is the train one longer.
proof fn lemma_delay_train_step(h: Seq<u32>, ms: u32, n: int)
    requires
        0 <= n,
    ensures
        (h + delay_train(ms, n)).push(ms) == h + delay_train(ms, n + 1),
{
    assert((h + delay_train(ms, n)).push(ms) =~= h + delay_train(ms, n + 1));
}

/// Appending one event after a train is the train followed by that event.
proof fn lemma_train_then_event(h: Seq<StepperEvent>, t: Seq<StepperEvent>, e: StepperEvent)
    ensures
        (h + t).push(e) == h + t + seq![e],
{
    assert((h + t).push(e) =~= h + t + seq![e]);
}

} // verus!
