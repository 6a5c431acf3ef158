//! Distance samples and their derivation from an echo pulse width.
//!
//! A sample is one reading of the ultrasonic ranger, held in fixed point at a
//! hundredth of a unit so that every value the node computes, compares and
//! prints is exact integer arithmetic.  Sound travels 343 micrometers per
//! microsecond, so an echo of `d` microseconds puts the object at
//! `343 * d / 2` micrometers, which is `343 * d / 200` hundredths of a
//! centimeter (floor division at the last digit).
//!
//! Abnormal echoes are not errors: they are encoded as sentinel samples.  An
//! echo outside the accepted window means "no object detected" and yields the
//! max-range sentinel; a distance below the sensor's valid minimum yields the
//! zero sentinel.

use vstd::prelude::*;

verus! {

/// Greatest representable distance: 400 cm, in hundredths of a centimeter.
pub const MAX_RANGE_CM_X100: u64 = 40000;

/// Least distance the sensor resolves: 2 cm, in hundredths of a centimeter.
pub const MIN_RANGE_CM_X100: u64 = 200;

/// Shortest echo pulse that counts as a detection, in microseconds.
pub const MIN_ECHO_US: u64 = 100;

/// Longest echo pulse that counts as a detection: 18 ms, in microseconds.
pub const MAX_ECHO_US: u64 = 18000;

/// One distance sample with its derived unit views.  Each field is fixed
/// point at a hundredth of its unit (two decimal places).  The canonical
/// value is `centimeters_x100`; the other three are pure conversions of it,
/// never separately stored state.
#[derive(Clone, Copy, PartialEq, Eq, Structural, Debug)]
pub struct Unit {
    pub millimeters_x100: u64,
    pub centimeters_x100: u64,
    pub decimeters_x100: u64,
    pub meters_x100: u64,
}

impl Unit {
    /// The unit views agree with the canonical centimeter value and the
    /// sample lies within the sensor's range.
    pub open spec fn well_formed(self) -> bool {
        &&& self.centimeters_x100 <= MAX_RANGE_CM_X100
        &&& self.millimeters_x100 == self.centimeters_x100 * 10
        &&& self.decimeters_x100 == self.centimeters_x100 / 10
        &&& self.meters_x100 == self.centimeters_x100 / 100
    }

    /// The sample whose canonical value is `cm_x100`.
    pub open spec fn spec_from_cm_x100(cm_x100: u64) -> Unit {
        Unit {
            millimeters_x100: (cm_x100 * 10) as u64,
            centimeters_x100: cm_x100,
            decimeters_x100: cm_x100 / 10,
            meters_x100: cm_x100 / 100,
        }
    }

    /// Builds the sample for a canonical centimeter value, deriving the
    /// millimeter, decimeter and meter views from it.
    pub fn from_cm_x100(cm_x100: u64) -> (u: Unit)
        requires
            cm_x100 <= MAX_RANGE_CM_X100,
        ensures
            u == Unit::spec_from_cm_x100(cm_x100),
            u.well_formed(),
    {
        Unit {
            millimeters_x100: cm_x100 * 10,
            centimeters_x100: cm_x100,
            decimeters_x100: cm_x100 / 10,
            meters_x100: cm_x100 / 100,
        }
    }

    /// The max-range sentinel: 400 cm / 4000 mm / 40 dm / 4 m.  Stands for
    /// "no object detected" as well as for a reading beyond the range.
    pub fn max_range() -> (u: Unit)
        ensures
            u == Unit::spec_from_cm_x100(MAX_RANGE_CM_X100),
            u.well_formed(),
    {
        Unit::from_cm_x100(MAX_RANGE_CM_X100)
    }

    /// The zero sentinel: every unit view is zero.  Stands for an object
    /// below the sensor's valid minimum of 2 cm.
    pub fn zero() -> (u: Unit)
        ensures
            u == Unit::spec_from_cm_x100(0),
            u.well_formed(),
    {
        Unit::from_cm_x100(0)
    }
}

/// The raw distance for an echo of `echo_us` microseconds, in hundredths of
/// a centimeter: `0.0343 cm/us * echo_us / 2`, floored at the last digit.
pub open spec fn raw_cm_x100(echo_us: int) -> int {
    343 * echo_us / 200
}

/// The outcome of one ranging attempt, as a tagged value rather than a magic
/// number, so that downstream code pattern-matches instead of comparing
/// against sentinels.
#[derive(Clone, Copy, PartialEq, Eq, Structural, Debug)]
pub enum RangeOutcome {
    /// The echo fell outside the accepted window, or the raw distance came
    /// out beyond the 400 cm range: no object detected.
    NoEcho,
    /// The raw distance fell below the sensor's valid minimum of 2 cm.
    TooClose,
    /// A valid reading, in hundredths of a centimeter.
    Reading(u64),
}

impl RangeOutcome {
    /// A reading carries a value within the sensor's valid span.
    pub open spec fn well_formed(self) -> bool {
        match self {
            RangeOutcome::Reading(cm_x100) => MIN_RANGE_CM_X100 <= cm_x100
                <= MAX_RANGE_CM_X100,
            _ => true,
        }
    }
}

/// The outcome owed for an echo of `echo_us` microseconds, by the ordered
/// rules of the ranging driver: reject echoes outside [100 us, 18 ms]; then
/// derive the raw distance; reject readings under 2 cm; clamp readings over
/// 400 cm into the no-detection sentinel.
pub open spec fn spec_classify_echo(echo_us: u64) -> RangeOutcome {
    if echo_us < MIN_ECHO_US || echo_us > MAX_ECHO_US {
        RangeOutcome::NoEcho
    } else if raw_cm_x100(echo_us as int) < MIN_RANGE_CM_X100 {
        RangeOutcome::TooClose
    } else if raw_cm_x100(echo_us as int) > MAX_RANGE_CM_X100 {
        RangeOutcome::NoEcho
    } else {
        RangeOutcome::Reading(raw_cm_x100(echo_us as int) as u64)
    }
}

/// Classifies one echo pulse width into a ranging outcome.
pub fn classify_echo(echo_us: u64) -> (r: RangeOutcome)
    ensures
        r == spec_classify_echo(echo_us),
        r.well_formed(),
{
    if echo_us < MIN_ECHO_US || echo_us > MAX_ECHO_US {
        return RangeOutcome::NoEcho;
    }
    let raw: u64 = 343 * echo_us / 200;
    if raw < MIN_RANGE_CM_X100 {
        RangeOutcome::TooClose
    } else if raw > MAX_RANGE_CM_X100 {
        RangeOutcome::NoEcho
    } else {
        RangeOutcome::Reading(raw)
    }
}

/// The sentinel-encoded sample that stands for an outcome: no detection and
/// beyond-range readings collapse into the max-range sentinel, too-close
/// readings into the zero sentinel.
pub open spec fn spec_unit_of_outcome(o: RangeOutcome) -> Unit {
    match o {
        RangeOutcome::NoEcho => Unit::spec_from_cm_x100(MAX_RANGE_CM_X100),
        RangeOutcome::TooClose => Unit::spec_from_cm_x100(0),
        RangeOutcome::Reading(cm_x100) => Unit::spec_from_cm_x100(cm_x100),
    }
}

/// Encodes an outcome as a sentinel-valued sample, the node's compatibility
/// form for downstream threshold logic.
pub fn unit_of_outcome(o: RangeOutcome) -> (u: Unit)
    requires
        o.well_formed(),
    ensures
        u == spec_unit_of_outcome(o),
        u.well_formed(),
{
    match o {
        RangeOutcome::NoEcho => Unit::max_range(),
        RangeOutcome::TooClose => Unit::zero(),
        RangeOutcome::Reading(cm_x100) => Unit::from_cm_x100(cm_x100),
    }
}

/// Derives the sample owed for an echo of `echo_us` microseconds.
///
/// Ordered rules: an echo under 100 us or over 18 ms yields the max-range
/// sentinel (no object detected); otherwise the raw distance is
/// `343 * echo_us / 200` hundredths of a centimeter; under 2 cm it yields the
/// zero sentinel; over 400 cm it clamps to the max-range sentinel; otherwise
/// the raw value is returned with its derived unit views.
pub fn calculate_speed(echo_us: u64) -> (u: Unit)
    ensures
        u == spec_unit_of_outcome(spec_classify_echo(echo_us)),
        u.well_formed(),
        echo_us < MIN_ECHO_US || echo_us > MAX_ECHO_US ==> u.centimeters_x100
            == MAX_RANGE_CM_X100,
        MIN_ECHO_US <= echo_us <= MAX_ECHO_US && raw_cm_x100(echo_us as int)
            < MIN_RANGE_CM_X100 ==> u.centimeters_x100 == 0,
        MIN_ECHO_US <= echo_us <= MAX_ECHO_US && raw_cm_x100(echo_us as int)
            > MAX_RANGE_CM_X100 ==> u.centimeters_x100 == MAX_RANGE_CM_X100,
        MIN_ECHO_US <= echo_us <= MAX_ECHO_US && MIN_RANGE_CM_X100 <= raw_cm_x100(
            echo_us as int,
        ) <= MAX_RANGE_CM_X100 ==> u == Unit::spec_from_cm_x100(
            raw_cm_x100(echo_us as int) as u64,
        ),
{
    unit_of_outcome(classify_echo(echo_us))
}

} // verus!
