//! Constants and pure kinematics shared by the transition table, the detectors and the state laws.
use vstd::prelude::*;

use crate::time::Duration;

verus! {

/// Engine speed of an idling engine.
pub const RPM_IDLE: u16 = 800;

/// Above this RPM the wheels move the vehicle; an idle vehicle revving above it is driving.
pub const RPM_DRIVING_THRESHOLD: u16 = 800;

/// Above this RPM (together with a high speed) the powertrain is under extreme load.
pub const RPM_EXTREME_OPERATION_THRESHOLD: u16 = 5500;

/// Redline of the engine.
pub const RPM_REDLINE_THRESHOLD: u16 = 6500;

/// How long the warning state must last before a rolling vehicle may leave it, in seconds.
pub const RPM_STRESS_DURATION_THRESHOLD_SECS: u64 = 5;

/// Road speed above which the speed warning fires.
pub const SPEED_EXTREME_OPERATION_THRESHOLD_KPH: u16 = 160;

/// Upper bound of the green speed band.
pub const SPEED_BAND_GREEN_MAX_KPH: u16 = 100;

/// Upper bound of the yellow speed band.
pub const SPEED_BAND_YELLOW_MAX_KPH: u16 = 160;

/// Ambient light at or below which the front headlamp must be on.
pub const LUX_ON_THRESHOLD: u16 = 50;

/// Ambient light above which a lit front headlamp is switched off again.
pub const LUX_OFF_THRESHOLD: u16 = 100;

/// Revolutions per minute above the driving threshold that yield one km/h.
pub const RPM_PER_KPH: u16 = 17;

/// How long the headlamp zone waits for an ON acknowledgement, in milliseconds.
pub const FRONT_HEADLAMP_ON_ACK_WAIT_MILLIS: u64 = 2000;

/// How long the headlamp zone waits for an OFF acknowledgement, in milliseconds.
pub const FRONT_HEADLAMP_OFF_ACK_WAIT_MILLIS: u64 = 2000;

/// Warning text logged when the speed threshold is exceeded.
pub const SPEED_THRESHOLD_WARNING_MESSAGE: &'static str = "speed above 160 km/h";

/// Warning text logged when speed and RPM are both above their extreme thresholds.
pub const EXTREME_OPERATION_WARNING_MESSAGE: &'static str = "extreme operation: speed above 160 km/h and RPM above 5500";

/// How long the headlamp zone waits for an ON acknowledgement.
pub fn front_headlamp_on_ack_wait() -> (d: Duration)
    ensures
        d@ == FRONT_HEADLAMP_ON_ACK_WAIT_MILLIS * 1_000_000,
{
    Duration::from_millis(FRONT_HEADLAMP_ON_ACK_WAIT_MILLIS)
}

/// How long the headlamp zone waits for an OFF acknowledgement.
pub fn front_headlamp_off_ack_wait() -> (d: Duration)
    ensures
        d@ == FRONT_HEADLAMP_OFF_ACK_WAIT_MILLIS * 1_000_000,
{
    Duration::from_millis(FRONT_HEADLAMP_OFF_ACK_WAIT_MILLIS)
}

/// Road speed derived from wheel RPM: zero up to the driving threshold, then one km/h per
/// [`RPM_PER_KPH`] revolutions above it.
pub open spec fn speed_from_rpm(rpm: u16) -> u16 {
    if rpm <= RPM_DRIVING_THRESHOLD {
        0
    } else {
        ((rpm - RPM_DRIVING_THRESHOLD) / (RPM_PER_KPH as int)) as u16
    }
}

/// Road speed in km/h for a wheel turning at `rpm`.
pub fn calculate_speed_from_rpm(rpm: u16) -> (kph: u16)
    ensures
        kph == speed_from_rpm(rpm),
        kph > 0 ==> rpm > RPM_DRIVING_THRESHOLD,
{
    if rpm <= RPM_DRIVING_THRESHOLD {
        0
    } else {
        (rpm - RPM_DRIVING_THRESHOLD) / RPM_PER_KPH
    }
}

/// The speed warning: road speed above [`SPEED_EXTREME_OPERATION_THRESHOLD_KPH`].
pub open spec fn spec_speed_threshold_exceeded(speed_kph: u16) -> bool {
    speed_kph > SPEED_EXTREME_OPERATION_THRESHOLD_KPH
}

/// Whether `speed_kph` is above the speed warning threshold.
pub fn speed_threshold_exceeded(speed_kph: u16) -> (b: bool)
    ensures
        b == spec_speed_threshold_exceeded(speed_kph),
{
    speed_kph > SPEED_EXTREME_OPERATION_THRESHOLD_KPH
}

/// Extreme operation: fast and high-revving at once.
pub open spec fn spec_extreme_operation_active(rpm: u16, speed_kph: u16) -> bool {
    speed_kph > SPEED_EXTREME_OPERATION_THRESHOLD_KPH && rpm > RPM_EXTREME_OPERATION_THRESHOLD
}

/// Whether speed and RPM are both above their extreme thresholds.
pub fn extreme_operation_active(rpm: u16, speed_kph: u16) -> (b: bool)
    ensures
        b == spec_extreme_operation_active(rpm, speed_kph),
{
    speed_kph > SPEED_EXTREME_OPERATION_THRESHOLD_KPH && rpm > RPM_EXTREME_OPERATION_THRESHOLD
}

/// The operational warning: the speed warning or extreme operation.
pub open spec fn spec_operational_warning_active(rpm: u16, speed_kph: u16) -> bool {
    spec_speed_threshold_exceeded(speed_kph) || spec_extreme_operation_active(rpm, speed_kph)
}

/// Whether the operational warning is raised for this RPM and speed.
pub fn operational_warning_active(rpm: u16, speed_kph: u16) -> (b: bool)
    ensures
        b == spec_operational_warning_active(rpm, speed_kph),
{
    speed_threshold_exceeded(speed_kph) || extreme_operation_active(rpm, speed_kph)
}

/// Speed band of a road speed, for dashboards.
#[derive(Debug, Clone, Copy, PartialEq, Eq)]
pub enum SpeedBand {
    Green,
    Yellow,
    Red,
}

/// The band a speed falls into.
pub open spec fn spec_speed_band(speed_kph: u16) -> SpeedBand {
    if speed_kph <= SPEED_BAND_GREEN_MAX_KPH {
        SpeedBand::Green
    } else if speed_kph <= SPEED_BAND_YELLOW_MAX_KPH {
        SpeedBand::Yellow
    } else {
        SpeedBand::Red
    }
}

/// Classify a road speed into its dashboard band.
pub fn speed_band(speed_kph: u16) -> (band: SpeedBand)
    ensures
        band == spec_speed_band(speed_kph),
{
    if speed_kph <= SPEED_BAND_GREEN_MAX_KPH {
        SpeedBand::Green
    } else if speed_kph <= SPEED_BAND_YELLOW_MAX_KPH {
        SpeedBand::Yellow
    } else {
        SpeedBand::Red
    }
}

} // verus!
