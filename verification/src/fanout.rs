//! Backpressured fan-out of readings to independent consumers.
//!
//! Each consumer owns a single-slot handoff: a one-element mailbox holding at
//! most one unconsumed sample.  A producer that finds the slot occupied must
//! suspend and try again, so no sample is ever dropped or duplicated, at the
//! cost of coupling the producer's pace to the slowest consumer.  The slot is
//! single-writer/single-reader; the surrounding cooperative scheduler retries
//! a refused publish after yielding.
//!
//! Samples travel as canonical centimeter values in hundredths
//! (see [`crate::distance::Unit`]).

use vstd::prelude::*;

use crate::distance::MAX_RANGE_CM_X100;

verus! {

/// A single-element mailbox between one producer and one consumer.
#[derive(Clone, Copy, PartialEq, Eq, Structural, Debug)]
pub struct HandoffSlot {
    /// The unconsumed sample, if one is pending; at most one at any time.
    pub value: Option<u64>,
}

/// What a publish does to a slot: it fills an empty slot and reports success;
/// it leaves an occupied slot exactly as it was and reports refusal.
pub open spec fn spec_try_publish(slot: Option<u64>, sample: u64) -> (Option<u64>, bool) {
    match slot {
        Option::None => (Option::Some(sample), true),
        Option::Some(_) => (slot, false),
    }
}

/// What a consume does to a slot: it takes the pending sample out, if any,
/// and leaves the slot empty.
pub open spec fn spec_try_consume(slot: Option<u64>) -> (Option<u64>, Option<u64>) {
    (Option::None, slot)
}

impl HandoffSlot {
    /// A fresh, empty slot.
    pub fn new() -> (s: HandoffSlot)
        ensures
            s.value is None,
    {
        HandoffSlot { value: Option::None }
    }

    /// Attempts to publish a sample.  Refusal means the previous sample is
    /// still unconsumed: the producer must suspend and retry; nothing is
    /// overwritten.
    pub fn try_publish(&mut self, sample: u64) -> (ok: bool)
        ensures
            (final(self).value, ok) == spec_try_publish(old(self).value, sample),
            ok == (old(self).value is None),
            ok ==> final(self).value == Option::Some(sample),
            !ok ==> final(self).value == old(self).value,
    {
        match self.value {
            Option::None => {
                self.value = Option::Some(sample);
                true
            },
            Option::Some(_) => false,
        }
    }

    /// Takes the pending sample out of the slot, if one is there, freeing the
    /// slot for the next publish.
    pub fn try_consume(&mut self) -> (r: Option<u64>)
        ensures
            (final(self).value, r) == spec_try_consume(old(self).value),
            r == old(self).value,
            final(self).value is None,
    {
        let taken = self.value;
        self.value = Option::None;
        taken
    }
}

/// Law: publishing a second sample before the first is consumed does not go
/// through — the producer is told to suspend — and no sample is dropped or
/// duplicated: the first sample sits untouched until the consumer takes
/// exactly it, and only then does the second publish fill the slot.
pub proof fn lemma_handoff_no_drop_no_duplicate(first: u64, second: u64)
    ensures
        ({
            let empty = Option::<u64>::None;
            let p1 = spec_try_publish(empty, first);
            let p2 = spec_try_publish(p1.0, second);
            let c = spec_try_consume(p2.0);
            let p3 = spec_try_publish(c.0, second);
            &&& p1.1
            &&& !p2.1
            &&& p2.0 == Option::Some(first)
            &&& c.1 == Option::Some(first)
            &&& p3.1
            &&& p3.0 == Option::Some(second)
        }),
{
}

/// Whether a measured sample is actionable: sentinel samples at or beyond
/// the 400 cm range stand for "no object detected" and are discarded rather
/// than fanned out.
pub fn should_publish(cm_x100: u64) -> (r: bool)
    ensures
        r == (cm_x100 < MAX_RANGE_CM_X100),
{
    cm_x100 < MAX_RANGE_CM_X100
}

/// Where the sensor task stands while fanning one sample out.
#[derive(Clone, Copy, PartialEq, Eq, Structural, Debug)]
pub enum PublishPhase {
    /// The sample still has to go into the telemetry slot.
    NeedTelemetry,
    /// The sample sits in the telemetry slot and still has to go into the
    /// alarm slot.
    NeedAlarm,
    /// The sample has been fanned out (or was discarded).
    Done,
}

/// The two handoff slots the sensor task publishes into, in a fixed order:
/// the telemetry slot first, then the alarm slot.
#[derive(Clone, Copy, PartialEq, Eq, Structural, Debug)]
pub struct Fanout {
    /// Slot drained by the telemetry responder.
    pub telemetry: HandoffSlot,
    /// Slot drained by the alarm controller.
    pub alarm: HandoffSlot,
}

impl Fanout {
    /// A fresh fan-out with both slots empty.
    pub fn new() -> (f: Fanout)
        ensures
            f.telemetry.value is None,
            f.alarm.value is None,
    {
        Fanout { telemetry: HandoffSlot::new(), alarm: HandoffSlot::new() }
    }

    /// Decides whether a fresh sample enters the fan-out at all: actionable
    /// samples start with the telemetry slot; sentinel samples are discarded
    /// without publication.
    pub fn begin_publish(&self, cm_x100: u64) -> (phase: PublishPhase)
        ensures
            cm_x100 < MAX_RANGE_CM_X100 ==> phase == PublishPhase::NeedTelemetry,
            cm_x100 >= MAX_RANGE_CM_X100 ==> phase == PublishPhase::Done,
    {
        if cm_x100 < MAX_RANGE_CM_X100 {
            PublishPhase::NeedTelemetry
        } else {
            PublishPhase::Done
        }
    }

    /// One attempt of the fan-out: publishes the sample into the slot the
    /// phase owes.  A refused publish leaves everything unchanged — the
    /// caller suspends and retries the same phase — so the fixed order
    /// (telemetry first, then alarm) and the handoff discipline both hold.
    pub fn publish_step(&mut self, phase: PublishPhase, cm_x100: u64) -> (next: PublishPhase)
        ensures
            phase == PublishPhase::NeedTelemetry && old(self).telemetry.value is None ==> {
                &&& next == PublishPhase::NeedAlarm
                &&& final(self).telemetry.value == Option::Some(cm_x100)
                &&& final(self).alarm == old(self).alarm
            },
            phase == PublishPhase::NeedTelemetry && old(self).telemetry.value is Some ==> {
                &&& next == PublishPhase::NeedTelemetry
                &&& *final(self) == *old(self)
            },
            phase == PublishPhase::NeedAlarm && old(self).alarm.value is None ==> {
                &&& next == PublishPhase::Done
                &&& final(self).alarm.value == Option::Some(cm_x100)
                &&& final(self).telemetry == old(self).telemetry
            },
            phase == PublishPhase::NeedAlarm && old(self).alarm.value is Some ==> {
                &&& next == PublishPhase::NeedAlarm
                &&& *final(self) == *old(self)
            },
            phase == PublishPhase::Done ==> next == PublishPhase::Done && *final(self) == *old(
                self,
            ),
    {
        match phase {
            PublishPhase::NeedTelemetry => {
                if self.telemetry.try_publish(cm_x100) {
                    PublishPhase::NeedAlarm
                } else {
                    PublishPhase::NeedTelemetry
                }
            },
            PublishPhase::NeedAlarm => {
                if self.alarm.try_publish(cm_x100) {
                    PublishPhase::Done
                } else {
                    PublishPhase::NeedAlarm
                }
            },
            PublishPhase::Done => PublishPhase::Done,
        }
    }
}

} // verus!
