//! Threshold-driven alarm: alert levels, buzzer tone plans, LED colors.
//!
//! The controller recomputes its state every cycle from the newest consumed
//! sample alone — no hysteresis, no memory of prior samples.  On an alert it
//! owes a fixed three-repetition, two-tone buzzer pattern and a bicolor LED
//! color; when idle it silences the buzzer and shows the idle color.  An
//! unverified loop performs the PWM writes and the holds.

use vstd::prelude::*;

use crate::distance::MAX_RANGE_CM_X100;

verus! {

/// Wrap value of the buzzer's PWM counter.
pub const BUZZER_TOP: u16 = 0xFFFF;

/// Wrap value of the LED PWM counters.
pub const LED_TOP: u16 = 0x8000;

/// Tone control value of the high tone of the alert pattern.
pub const HIGH_TONE: u16 = 2000;

/// Tone control value of the low tone of the alert pattern.
pub const LOW_TONE: u16 = 5;

/// How often the two-tone pair repeats within one alert pattern.
pub const PATTERN_REPEATS: u64 = 3;

/// How long the buzzer stays silenced between idle cycles, in milliseconds.
pub const IDLE_SILENCE_MS: u64 = 75;

/// Danger threshold: at or under 10 cm, in hundredths of a centimeter.
pub const DANGER_CM_X100: u64 = 1000;

/// Caution threshold: at or under 30 cm, in hundredths of a centimeter.
pub const CAUTION_CM_X100: u64 = 3000;

/// Discrete alert level, a pure function of the latest sample only.
#[derive(Clone, Copy, PartialEq, Eq, Structural, Debug)]
pub enum AlertLevel {
    /// No alert: the sample is zero (too close to resolve) or at 30 cm and
    /// beyond.
    Off,
    /// The object is within (10 cm, 30 cm].
    Caution,
    /// The object is within (0, 10 cm].
    Danger,
}

/// The alert level owed for a sample, in hundredths of a centimeter:
/// (0, 10 cm] is Danger, (10 cm, 30 cm] is Caution, zero and everything at
/// 30 cm or beyond is Off.
pub open spec fn spec_alert_level(cm_x100: u64) -> AlertLevel {
    if 0 < cm_x100 && cm_x100 <= DANGER_CM_X100 {
        AlertLevel::Danger
    } else if DANGER_CM_X100 < cm_x100 && cm_x100 <= CAUTION_CM_X100 {
        AlertLevel::Caution
    } else {
        AlertLevel::Off
    }
}

/// Derives the alert level from the latest sample.
pub fn alert_level(cm_x100: u64) -> (level: AlertLevel)
    ensures
        level == spec_alert_level(cm_x100),
{
    if 0 < cm_x100 && cm_x100 <= DANGER_CM_X100 {
        AlertLevel::Danger
    } else if 0 < cm_x100 && cm_x100 <= CAUTION_CM_X100 {
        AlertLevel::Caution
    } else {
        AlertLevel::Off
    }
}

/// How long each tone of the alert pattern is held, in milliseconds:
/// 50 plus twice the sample's whole centimeters (floored).
pub fn tone_hold_ms(cm_x100: u64) -> (ms: u64)
    requires
        cm_x100 <= MAX_RANGE_CM_X100,
    ensures
        ms == 50 + 2 * (cm_x100 / 100),
{
    50 + 2 * (cm_x100 / 100)
}

/// The PWM compare value that sounds a tone: the counter wrap divided by the
/// tone control value (the duty divisor).
pub fn tone_compare(top: u16, tone: u16) -> (compare: u16)
    requires
        tone > 0,
    ensures
        compare == top / tone,
{
    top / tone
}

/// One step of the buzzer pattern: a compare value to program and how long
/// to hold it.
#[derive(Clone, Copy, PartialEq, Eq, Structural, Debug)]
pub struct ToneStep {
    /// PWM compare value for the buzzer channel.
    pub compare: u16,
    /// How long the tone is held, in milliseconds.
    pub hold_ms: u64,
}

/// The tone steps owed for an alerting sample: three repetitions of the
/// high tone followed by the low tone, every step held for the same
/// sample-dependent time.
pub open spec fn spec_buzzer_pattern(cm_x100: u64) -> Seq<ToneStep> {
    let hold = (50 + 2 * (cm_x100 / 100)) as u64;
    let high = ToneStep { compare: BUZZER_TOP / HIGH_TONE, hold_ms: hold };
    let low = ToneStep { compare: BUZZER_TOP / LOW_TONE, hold_ms: hold };
    seq![high, low, high, low, high, low]
}

/// Builds the buzzer pattern for an alerting sample.
pub fn buzzer_pattern(cm_x100: u64) -> (steps: Vec<ToneStep>)
    requires
        cm_x100 <= MAX_RANGE_CM_X100,
    ensures
        steps@ == spec_buzzer_pattern(cm_x100),
        steps@.len() == 2 * PATTERN_REPEATS,
{
    let hold = tone_hold_ms(cm_x100);
    let high = ToneStep { compare: tone_compare(BUZZER_TOP, HIGH_TONE), hold_ms: hold };
    let low = ToneStep { compare: tone_compare(BUZZER_TOP, LOW_TONE), hold_ms: hold };
    let mut steps: Vec<ToneStep> = Vec::new();
    steps.push(high);
    steps.push(low);
    steps.push(high);
    steps.push(low);
    steps.push(high);
    steps.push(low);
    proof {
        assert(steps@ =~= spec_buzzer_pattern(cm_x100));
    }
    steps
}

/// Duty values for the bicolor LED's three PWM channels.
#[derive(Clone, Copy, PartialEq, Eq, Structural, Debug)]
pub struct LedSettings {
    /// Compare value of the red channel.
    pub red: u16,
    /// Compare value of the green channel.
    pub green: u16,
    /// Compare value of the blue channel.
    pub blue: u16,
}

/// The LED color owed for each alert level: Danger shows solid red, Caution
/// mixes red with blue, Off shows the idle color, blue only.
pub open spec fn spec_led_settings(level: AlertLevel) -> LedSettings {
    match level {
        AlertLevel::Danger => LedSettings { red: LED_TOP, green: 0, blue: 0 },
        AlertLevel::Caution => LedSettings { red: LED_TOP, green: 0, blue: LED_TOP },
        AlertLevel::Off => LedSettings { red: 0, green: 0, blue: LED_TOP },
    }
}

/// Picks the LED color for an alert level.
pub fn led_settings(level: AlertLevel) -> (led: LedSettings)
    ensures
        led == spec_led_settings(level),
{
    match level {
        AlertLevel::Danger => LedSettings { red: LED_TOP, green: 0, blue: 0 },
        AlertLevel::Caution => LedSettings { red: LED_TOP, green: 0, blue: LED_TOP },
        AlertLevel::Off => LedSettings { red: 0, green: 0, blue: LED_TOP },
    }
}

/// Everything one alarm cycle owes the actuators for the newest sample: the
/// derived level, the tone steps to sound (empty when the level is Off, in
/// which case the buzzer is silenced instead), and the LED color.
pub struct AlarmCycle {
    /// Alert level derived from the sample.
    pub level: AlertLevel,
    /// Tone steps to sound, in order; empty when the level is Off.
    pub tones: Vec<ToneStep>,
    /// Color to drive on the bicolor LED.
    pub led: LedSettings,
}

/// Recomputes the full actuator configuration from the newest sample.  This
/// happens every cycle — boundary oscillation re-triggers the full pattern.
pub fn alarm_cycle(cm_x100: u64) -> (cycle: AlarmCycle)
    requires
        cm_x100 <= MAX_RANGE_CM_X100,
    ensures
        cycle.level == spec_alert_level(cm_x100),
        cycle.level is Off ==> cycle.tones@ =~= Seq::<ToneStep>::empty(),
        cycle.level is Caution || cycle.level is Danger ==> cycle.tones@ == spec_buzzer_pattern(
            cm_x100,
        ),
        cycle.led == spec_led_settings(spec_alert_level(cm_x100)),
{
    let level = alert_level(cm_x100);
    let tones: Vec<ToneStep> = match level {
        AlertLevel::Off => Vec::new(),
        _ => buzzer_pattern(cm_x100),
    };
    let led = led_settings(level);
    AlarmCycle { level, tones, led }
}

} // verus!
