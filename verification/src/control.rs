//! The per-cycle decision: parse the sensor text, compare against the
//! threshold, and pick the line value and the sleep interval.
//!
//! The controller is memoryless: each cycle is decided from the fresh reading
//! alone, with no state carried over from earlier cycles.

use vstd::prelude::*;
use crate::error::FanError;
use crate::settings::{Settings, SettingsV};
use crate::text::{is_uint, parse_uint, trim, trim_spec, uint_val};

verus! {

/// The two decision states of one polling cycle.
#[derive(Clone, Copy, Debug, PartialEq, Eq, Structural)]
pub enum FanState {
    /// Reading above threshold: fan on, short sleep.
    Hot,
    /// Reading at or below threshold: fan off, long sleep.
    Cool,
}

/// What one cycle asks of the driver: a line value to write, then a sleep.
#[derive(Clone, Copy, Debug, PartialEq, Eq, Structural)]
pub struct CycleAction {
    /// Value for the GPIO line: 1 (fan on) or 0 (fan off).
    pub line_value: u8,
    /// Seconds to sleep before the next cycle.
    pub sleep_secs: u64,
}

/// A reading of `temp` millidegrees is hot against a threshold of `temp_max`
/// whole degrees exactly when `temp` exceeds `temp_max * 1000`; a reading
/// exactly at the boundary is cool.
pub open spec fn is_hot(temp: u32, temp_max: u32) -> bool {
    temp > temp_max * 1000
}

/// The state chosen for one reading.
pub open spec fn decide_spec(temp: u32, temp_max: u32) -> FanState {
    if is_hot(temp, temp_max) {
        FanState::Hot
    } else {
        FanState::Cool
    }
}

/// The temperature denoted by the sensor text: surrounding whitespace is
/// trimmed and the rest read as a decimal integer in millidegrees; `None`
/// when the text is not a non-negative integer that fits the reading type.
pub open spec fn temp_of(line: Seq<u8>) -> Option<u32> {
    let t = trim_spec(line);
    if is_uint(t) && uint_val(t) <= u32::MAX {
        Some(uint_val(t) as u32)
    } else {
        None
    }
}

/// The action for one reading under configuration `s`: hot sets the line to 1
/// and sleeps the hot interval, cool sets it to 0 and sleeps the cool one.
pub open spec fn action_spec(temp: u32, s: SettingsV) -> CycleAction {
    if is_hot(temp, s.temp_max) {
        CycleAction { line_value: 1, sleep_secs: s.retry_interval_hot }
    } else {
        CycleAction { line_value: 0, sleep_secs: s.retry_interval_cool }
    }
}

/// The outcome of one whole cycle on sensor text `line`: the action for the
/// parsed reading, or a parse error when the text is not a valid reading.
pub open spec fn cycle_spec(line: Seq<u8>, s: SettingsV) -> Result<CycleAction, FanError> {
    match temp_of(line) {
        Some(t) => Ok(action_spec(t, s)),
        None => Err(FanError::ParseError),
    }
}

/// Parses one line of sensor text as a millidegree reading.
///
/// Returns `Ok` exactly when the trimmed text is a non-empty digit string
/// whose value fits in `u32`; everything else is a `ParseError`, which the
/// caller treats as fatal.
pub fn parse_temp(line: &[u8]) -> (r: Result<u32, FanError>)
    ensures
        match r {
            Ok(t) => temp_of(line@) == Some(t),
            Err(e) => temp_of(line@) is None && e == FanError::ParseError,
        },
{
    let t = trim(line);
    match parse_uint(t) {
        Some(v) => if v <= 0xFFFF_FFFFu64 {
            Ok(v as u32)
        } else {
            Err(FanError::ParseError)
        },
        None => Err(FanError::ParseError),
    }
}

/// Decides the state for one reading: hot exactly when the millidegree
/// reading exceeds the threshold in whole degrees times 1000, so a reading
/// exactly at the boundary is cool.
pub fn decide(temp: u32, temp_max: u32) -> (r: FanState)
    ensures
        r == decide_spec(temp, temp_max),
        r is Hot <==> temp > temp_max * 1000,
{
    if (temp as u64) > (temp_max as u64) * 1000 {
        FanState::Hot
    } else {
        FanState::Cool
    }
}

impl FanState {
    /// The value written to the GPIO line in this state: 1 is fan on.
    pub fn line_value(&self) -> (v: u8)
        ensures
            v == (if self is Hot { 1u8 } else { 0u8 }),
    {
        match self {
            FanState::Hot => 1,
            FanState::Cool => 0,
        }
    }

    /// Seconds to sleep after acting on this state: hot polls again sooner.
    pub fn sleep_secs(&self, s: &Settings) -> (n: u64)
        ensures
            n == (if self is Hot { s@.retry_interval_hot } else { s@.retry_interval_cool }),
    {
        match self {
            FanState::Hot => s.retry_interval_hot,
            FanState::Cool => s.retry_interval_cool,
        }
    }
}

/// One whole control cycle on sensor text `line`: parse the reading, decide,
/// and return the line value and sleep interval; a text that is not a valid
/// reading yields `ParseError` and no action.
pub fn cycle(line: &[u8], s: &Settings) -> (r: Result<CycleAction, FanError>)
    ensures
        r == cycle_spec(line@, s@),
{
    let temp = match parse_temp(line) {
        Ok(t) => t,
        Err(e) => {
            return Err(e);
        },
    };
    let state = decide(temp, s.temp_max);
    Ok(CycleAction { line_value: state.line_value(), sleep_secs: state.sleep_secs(s) })
}

/// The line is driven high exactly when the millidegree reading exceeds the
/// threshold in whole degrees times 1000, and driven low otherwise — in
/// particular a reading exactly at the boundary drives it low — and each
/// line value comes with its interval: 1 sleeps the hot one, 0 the cool one.
pub proof fn lemma_action_iff_hot(temp: u32, s: SettingsV)
    ensures
        action_spec(temp, s).line_value == 1 <==> temp > s.temp_max * 1000,
        action_spec(temp, s).line_value == 0 <==> temp <= s.temp_max * 1000,
        action_spec(temp, s).line_value == 1 ==> action_spec(temp, s).sleep_secs
            == s.retry_interval_hot,
        action_spec(temp, s).line_value == 0 ==> action_spec(temp, s).sleep_secs
            == s.retry_interval_cool,
{
}

/// The decision is a function of the reading and configuration alone: two
/// cycles on identical sensor text under the same configuration produce the
/// identical action — there is no internal state to drift.
pub proof fn lemma_cycle_idempotent(line1: Seq<u8>, line2: Seq<u8>, s: SettingsV)
    requires
        line1 == line2,
    ensures
        cycle_spec(line1, s) == cycle_spec(line2, s),
{
}

} // verus!
