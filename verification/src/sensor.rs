//! The ranging driver's measurement protocol, as a state machine.
//!
//! One measurement is strictly ordered: wait a 10 ms quiet period, pulse the
//! trigger output high for exactly 10 us, suspend until the echo input rises,
//! then suspend until it falls; the echo width is the elapsed time between
//! the two edges.  The driver here decides the next step; an unverified loop
//! around it owns the pins and the clock, performs each command, and hands
//! the measured echo width back to [`HCSR04::measure`].

use vstd::prelude::*;

use crate::distance::spec_classify_echo;
use crate::distance::spec_unit_of_outcome;
use crate::distance::Unit;
use crate::distance::calculate_speed;

verus! {

/// Quiet period before a trigger pulse, so a measurement does not interfere
/// with the echo of the previous one: 10 ms, in microseconds.
pub const SETTLE_DELAY_US: u64 = 10000;

/// Width of the trigger pulse, in microseconds.
pub const TRIGGER_PULSE_US: u64 = 10;

/// Where the driver stands within one measurement.
#[derive(Clone, Copy, PartialEq, Eq, Structural, Debug)]
pub enum SensorPhase {
    /// No measurement in progress.
    Idle,
    /// The quiet period has been waited out.
    Settled,
    /// The trigger pulse has been sent.
    Pulsed,
    /// The echo input has risen; its fall is awaited.
    EchoRise,
    /// Both echo edges have passed; the echo width is known to the caller.
    EchoDone,
}

/// One step the surrounding loop must perform on the hardware.
#[derive(Clone, Copy, PartialEq, Eq, Structural, Debug)]
pub enum SensorCommand {
    /// Suspend for the given number of microseconds.
    SettleDelayUs(u64),
    /// Raise the trigger output, hold it high for the given number of
    /// microseconds, then lower it.
    TriggerPulseUs(u64),
    /// Suspend until the echo input transitions high, and note the instant.
    WaitEchoRise,
    /// Suspend until the echo input transitions low; the elapsed time since
    /// the rise is the echo width.
    WaitEchoFall,
}

/// The command owed in each phase of a measurement.
pub open spec fn spec_next_command(phase: SensorPhase) -> SensorCommand {
    match phase {
        SensorPhase::Idle => SensorCommand::SettleDelayUs(SETTLE_DELAY_US),
        SensorPhase::Settled => SensorCommand::TriggerPulseUs(TRIGGER_PULSE_US),
        SensorPhase::Pulsed => SensorCommand::WaitEchoRise,
        SensorPhase::EchoRise => SensorCommand::WaitEchoFall,
        SensorPhase::EchoDone => SensorCommand::WaitEchoFall,
    }
}

/// The phase that follows each phase of a measurement.
pub open spec fn spec_next_phase(phase: SensorPhase) -> SensorPhase {
    match phase {
        SensorPhase::Idle => SensorPhase::Settled,
        SensorPhase::Settled => SensorPhase::Pulsed,
        SensorPhase::Pulsed => SensorPhase::EchoRise,
        SensorPhase::EchoRise => SensorPhase::EchoDone,
        SensorPhase::EchoDone => SensorPhase::EchoDone,
    }
}

/// The ultrasonic ranging driver.  It owes the surrounding loop one command
/// per phase and turns the resulting echo width into a distance sample.
pub struct HCSR04 {
    /// Where the driver stands within the current measurement.
    pub phase: SensorPhase,
}

impl HCSR04 {
    /// A fresh driver, with no measurement in progress.
    pub fn new() -> (s: HCSR04)
        ensures
            s.phase == SensorPhase::Idle,
    {
        HCSR04 { phase: SensorPhase::Idle }
    }

    /// Hands out the next step of the measurement protocol and advances the
    /// phase.  Steps come in the strict order: quiet period, trigger pulse,
    /// echo rise, echo fall.
    pub fn advance(&mut self) -> (cmd: SensorCommand)
        requires
            old(self).phase != SensorPhase::EchoDone,
        ensures
            cmd == spec_next_command(old(self).phase),
            final(self).phase == spec_next_phase(old(self).phase),
    {
        match self.phase {
            SensorPhase::Idle => {
                self.phase = SensorPhase::Settled;
                SensorCommand::SettleDelayUs(SETTLE_DELAY_US)
            },
            SensorPhase::Settled => {
                self.phase = SensorPhase::Pulsed;
                SensorCommand::TriggerPulseUs(TRIGGER_PULSE_US)
            },
            SensorPhase::Pulsed => {
                self.phase = SensorPhase::EchoRise;
                SensorCommand::WaitEchoRise
            },
            SensorPhase::EchoRise | SensorPhase::EchoDone => {
                self.phase = SensorPhase::EchoDone;
                SensorCommand::WaitEchoFall
            },
        }
    }

    /// Completes a measurement: turns the echo width the loop observed into
    /// a sentinel-encoded distance sample and returns the driver to idle.
    /// Abnormal echoes come back as sentinel samples, never as an error.
    pub fn measure(&mut self, echo_us: u64) -> (u: Unit)
        requires
            old(self).phase == SensorPhase::EchoDone,
        ensures
            u == spec_unit_of_outcome(spec_classify_echo(echo_us)),
            u.well_formed(),
            final(self).phase == SensorPhase::Idle,
    {
        self.phase = SensorPhase::Idle;
        calculate_speed(echo_us)
    }
}

/// Law: one measurement performs exactly the four protocol steps, in order —
/// quiet period, trigger pulse, wait for the echo rise, wait for the echo
/// fall — and no others, before the echo width is read off.
pub proof fn lemma_measurement_protocol_order()
    ensures
        spec_next_command(SensorPhase::Idle) == SensorCommand::SettleDelayUs(SETTLE_DELAY_US),
        spec_next_phase(SensorPhase::Idle) == SensorPhase::Settled,
        spec_next_command(SensorPhase::Settled) == SensorCommand::TriggerPulseUs(
            TRIGGER_PULSE_US,
        ),
        spec_next_phase(SensorPhase::Settled) == SensorPhase::Pulsed,
        spec_next_command(SensorPhase::Pulsed) == SensorCommand::WaitEchoRise,
        spec_next_phase(SensorPhase::Pulsed) == SensorPhase::EchoRise,
        spec_next_command(SensorPhase::EchoRise) == SensorCommand::WaitEchoFall,
        spec_next_phase(SensorPhase::EchoRise) == SensorPhase::EchoDone,
{
}

} // verus!
