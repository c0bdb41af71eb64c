use vstd::prelude::*;

use crate::config::{error_code_of, error_kind_of, LaserCanError};
use crate::measurement::{budget_millis, Measurement, RangingMode, Roi, TimingBudget};

verus! {

/// The layer a failure is reported by, as the host surfaces tag it.
#[derive(Clone, Copy, Debug, PartialEq, Eq, Structural)]
pub enum ErrorLayer {
    NoError,
    Transport,
    Device,
}

/// A classified failure: its layer and its one-byte code.
#[derive(Clone, Copy, Debug, PartialEq, Eq, Structural)]
pub struct ErrorInfo {
    pub layer: ErrorLayer,
    pub code: u8,
}

/// The classification of `e` for a host surface.
pub open spec fn error_info_of(e: LaserCanError) -> ErrorInfo {
    ErrorInfo {
        layer: if e is Transport {
            ErrorLayer::Transport
        } else {
            ErrorLayer::Device
        },
        code: error_code_of(error_kind_of(e)),
    }
}

/// Classifies a failed configuration call.
pub fn error_info(e: &LaserCanError) -> (r: ErrorInfo)
    ensures
        r == error_info_of(*e),
{
    let layer = if e.is_transport() {
        ErrorLayer::Transport
    } else {
        ErrorLayer::Device
    };
    ErrorInfo { layer, code: e.kind().code() }
}

/// Outcome of a configuration call in C: a success flag, and on failure the
/// classified error. On success the error is `NoError` with code zero.
#[derive(Clone, Copy, Debug, PartialEq, Eq, Structural)]
pub struct UnitCGrappleResult {
    pub is_ok: bool,
    pub error: ErrorInfo,
}

/// Tags the outcome of a configuration call for the C surface.
pub fn to_c_result(r: &Result<(), LaserCanError>) -> (c: UnitCGrappleResult)
    ensures
        c.is_ok <==> *r is Ok,
        *r is Ok ==> c.error == (ErrorInfo { layer: ErrorLayer::NoError, code: 0 }),
        *r matches Err(e) ==> c.error == error_info_of(e),
{
    match r {
        Ok(()) => UnitCGrappleResult { is_ok: true, error: ErrorInfo { layer: ErrorLayer::NoError, code: 0 } },
        Err(e) => UnitCGrappleResult { is_ok: false, error: error_info(e) },
    }
}

/// The measurement a C caller finds under an absent flag.
pub open spec fn blank_measurement() -> Measurement {
    Measurement {
        status: 0,
        distance_mm: 0,
        ambient: 0,
        mode: RangingMode::Short,
        budget: TimingBudget::TB20ms,
        roi: Roi { x: 0, y: 0, w: 0, h: 0 },
    }
}

/// A measurement in C: a presence flag and the payload.
#[derive(Clone, Copy, Debug, PartialEq, Eq, Structural)]
pub struct MaybeMeasurement {
    pub present: bool,
    pub value: Measurement,
}

/// Tags the result of a status poll for the C surface.
pub fn to_maybe_measurement(m: Option<Measurement>) -> (c: MaybeMeasurement)
    ensures
        c.present <==> m is Some,
        m matches Some(v) ==> c.value == v,
        m is None ==> c.value == blank_measurement(),
{
    match m {
        Some(v) => MaybeMeasurement { present: true, value: v },
        None => MaybeMeasurement {
            present: false,
            value: Measurement {
                status: 0,
                distance_mm: 0,
                ambient: 0,
                mode: RangingMode::Short,
                budget: TimingBudget::TB20ms,
                roi: Roi { x: 0, y: 0, w: 0, h: 0 },
            },
        },
    }
}

/// The fields of a measurement object on the Java side, in constructor order.
#[derive(Clone, Copy, Debug, PartialEq, Eq, Structural)]
pub struct JniMeasurement {
    pub status: i32,
    pub distance_mm: i32,
    pub ambient: i32,
    pub is_long: bool,
    pub budget_ms: i32,
    pub roi_x: i32,
    pub roi_y: i32,
    pub roi_w: i32,
    pub roi_h: i32,
}

/// Marshals a measurement into the Java side's fields: the ranging mode
/// becomes a long-range flag, the timing budget its number of milliseconds.
pub fn to_jni_measurement(m: &Measurement) -> (j: JniMeasurement)
    ensures
        j.status == m.status as i32,
        j.distance_mm == m.distance_mm as i32,
        j.ambient == m.ambient as i32,
        j.is_long <==> m.mode == RangingMode::Long,
        j.budget_ms as int == budget_millis(m.budget),
        j.roi_x == m.roi.x as i32,
        j.roi_y == m.roi.y as i32,
        j.roi_w == m.roi.w as i32,
        j.roi_h == m.roi.h as i32,
{
    JniMeasurement {
        status: m.status as i32,
        distance_mm: m.distance_mm as i32,
        ambient: m.ambient as i32,
        is_long: m.mode.is_long(),
        budget_ms: m.budget.millis() as i32,
        roi_x: m.roi.x as i32,
        roi_y: m.roi.y as i32,
        roi_w: m.roi.w as i32,
        roi_h: m.roi.h as i32,
    }
}

/// The timing budget a Java caller asked for, if `budget_ms` names one.
/// Any other number is the caller's error, which the surface aborts on.
pub fn jni_timing_budget(budget_ms: i32) -> (r: Option<TimingBudget>)
    ensures
        r is Some <==> (budget_ms == 20 || budget_ms == 33 || budget_ms == 50 || budget_ms == 100),
        r matches Some(b) ==> budget_millis(b) == budget_ms as int,
{
    TimingBudget::from_millis(budget_ms)
}

/// The region of interest a Java caller asked for: each field keeps its low byte.
pub fn jni_roi(x: i32, y: i32, w: i32, h: i32) -> (r: Roi)
    ensures
        r.x == x as u8,
        r.y == y as u8,
        r.w == w as u8,
        r.h == h as u8,
{
    Roi { x: x as u8, y: y as u8, w: w as u8, h: h as u8 }
}

/// The failure a Java caller sees for the outcome of a configuration call:
/// none on success, else a thrown exception carrying the classified error.
pub fn to_jni_throw(r: &Result<(), LaserCanError>) -> (t: Option<ErrorInfo>)
    ensures
        t is None <==> *r is Ok,
        *r matches Err(e) ==> t == Some(error_info_of(e)),
{
    match r {
        Ok(()) => None,
        Err(e) => Some(error_info(e)),
    }
}

} // verus!
