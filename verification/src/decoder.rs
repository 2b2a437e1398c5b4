//! The external pulse decoder as an injectable capability.
//!
//! The low-level classifier that turns raw pulse timing into a pulse type,
//! and the angle decoder behind it, are an opaque external collaborator with
//! hidden, non-reentrant internal state. The engine talks to it through this
//! trait, so an engine can be driven by the real decoder or by a
//! deterministic double; callers sharing one decoder handle across threads
//! must serialize access to it themselves.
//!
//! Nothing is assumed about the decoder's answers: every engine contract
//! states what happens for whatever classification and measurement come back.

use vstd::prelude::*;

verus! {

/// The classification the external decoder assigns to one timed pulse: the
/// only vocabulary the engine receives about a pulse.
#[derive(Clone, Copy, Debug, PartialEq, Eq, Structural)]
pub enum PulseType {
    /// The pulse could not be classified; it carries no usable information.
    Unknown,
    /// A sync pulse marking a sweep cycle boundary; no angle information.
    Sync,
    /// A sweep pulse whose timing yields a horizontal/vertical angle pair.
    Sweep,
}

/// A decoded sweep: the angle pair in radians, together with the sine and
/// cosine of each angle, all as single-precision bit patterns.
///
/// The trigonometric values travel with the angles because the verified
/// engine performs only the IEEE rounding operations; evaluating sine and
/// cosine is the decoder side's work, done once per sweep at the boundary.
#[derive(Clone, Copy, Debug, PartialEq, Eq, Structural)]
pub struct SweepMeasurement {
    /// Horizontal angle, radians.
    pub angle_h: u32,
    /// Vertical angle, radians.
    pub angle_v: u32,
    /// Sine of the horizontal angle.
    pub sin_h: u32,
    /// Cosine of the horizontal angle.
    pub cos_h: u32,
    /// Sine of the vertical angle.
    pub sin_v: u32,
    /// Cosine of the vertical angle.
    pub cos_v: u32,
}

/// The external decoder capability: classification and angle decode over
/// hidden internal state.
pub trait PulseDecoder {
    /// Clears the decoder's internal state; invoked exactly once, when an
    /// engine is constructed.
    fn reset(&mut self);

    /// Maps one timed pulse to a raw classification code:
    /// 0 is unknown, 1 is sync, 2 is sweep (any other code reads as unknown).
    fn classify(&mut self, sensor_id: u8, pulse_start_us: u64, pulse_duration_us: u64) -> u64;

    /// Returns the most recently decoded angle pair with its trigonometric
    /// values. Valid only directly after `classify` returned the sweep code;
    /// not buffered and not reentrant.
    fn decode_angles(&mut self) -> SweepMeasurement;
}

/// The pulse type a raw classification code stands for.
pub open spec fn spec_classification_of_code(code: u64) -> PulseType {
    if code == 1 {
        PulseType::Sync
    } else if code == 2 {
        PulseType::Sweep
    } else {
        PulseType::Unknown
    }
}

/// Maps the decoder's raw classification code to a pulse type: 1 is sync,
/// 2 is sweep, everything else is unknown.
pub fn classification_of_code(code: u64) -> (r: PulseType)
    ensures
        r == spec_classification_of_code(code),
{
    if code == 1 {
        PulseType::Sync
    } else if code == 2 {
        PulseType::Sweep
    } else {
        PulseType::Unknown
    }
}

} // verus!
