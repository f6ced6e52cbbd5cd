//! The gain sent to the mixer, and the fixed points of the volume curve.

use vstd::prelude::*;
use crate::volume::{VolumeState, VolumeView, UNIT, INFINITE};

verus! {

/// Bit pattern of negative zero; every pattern above it carries the sign bit.
pub const SIGN: u32 = 0x8000_0000;

/// Bit pattern of -60.0 dB, the floor of the gain range.
pub const FLOOR: u32 = 0xC270_0000;

/// Bit pattern of 0.0 dB, the top of the gain range.
pub const UNITY: u32 = 0;

/// Whether `bits` is the stored pattern of a gain in `[-60.0, 0.0]` dB:
/// zero itself, or a negative value no lower than the floor.
pub open spec fn is_gain(bits: u32) -> bool {
    bits == UNITY || SIGN < bits <= FLOOR
}

/// The gain that `raw` is stored as: positive values and both zeroes become
/// 0.0 dB, values under the floor become the floor, and so does a pattern
/// that is not a number.
pub open spec fn clamp_gain(raw: u32) -> u32 {
    if raw <= INFINITE || raw == SIGN {
        UNITY
    } else if raw < SIGN || raw > FLOOR {
        FLOOR
    } else {
        raw
    }
}

/// How far a stored gain lies under 0.0 dB, as a count of representable
/// steps: zero for 0.0 dB and largest at the floor. A quieter gain has a
/// larger depth.
pub open spec fn depth(bits: u32) -> nat {
    if bits <= SIGN {
        0
    } else {
        (bits - SIGN) as nat
    }
}

/// The gain for a state, given `eased`, the pattern of the eased decibel value
/// that the host computed for the state's volume.
///
/// A muted state is at the floor whatever its volume. Otherwise volume zero is
/// at the floor, full volume is at exactly 0.0 dB, and between them the eased
/// value is taken, clamped into the gain range.
pub open spec fn curve_bits(state: VolumeView, eased: u32) -> u32 {
    if state.muted || state.level == 0 {
        FLOOR
    } else if state.level >= UNIT {
        UNITY
    } else {
        clamp_gain(eased)
    }
}

/// A decibel gain in `[-60.0, 0.0]`, held as its bit pattern.
#[derive(Clone, Copy, Debug, PartialEq, Eq, Structural)]
pub struct GainValue {
    bits: u32,
}

impl View for GainValue {
    type V = u32;

    closed spec fn view(&self) -> u32 {
        self.bits
    }
}

impl GainValue {
    #[verifier::type_invariant]
    spec fn stored_in_range(self) -> bool {
        is_gain(self.bits)
    }

    /// The gain whose pattern is `bits`, for use in specifications.
    pub closed spec fn of(bits: u32) -> GainValue {
        GainValue { bits }
    }

    /// -60.0 dB.
    pub fn floor() -> (gain: Self)
        ensures
            gain@ == FLOOR,
    {
        GainValue { bits: FLOOR }
    }

    /// 0.0 dB.
    pub fn unity() -> (gain: Self)
        ensures
            gain@ == UNITY,
    {
        GainValue { bits: UNITY }
    }

    /// The gain whose bit pattern is `raw`, clamped into `[-60.0, 0.0]`.
    pub fn from_bits(raw: u32) -> (gain: Self)
        ensures
            gain@ == clamp_gain(raw),
    {
        if raw <= INFINITE || raw == SIGN {
            GainValue { bits: UNITY }
        } else if raw < SIGN || raw > FLOOR {
            GainValue { bits: FLOOR }
        } else {
            GainValue { bits: raw }
        }
    }

    /// Bit pattern of the gain.
    pub fn bits(&self) -> (bits: u32)
        ensures
            bits == self@,
            is_gain(bits),
    {
        proof {
            use_type_invariant(self);
        }
        self.bits
    }
}

/// The gain to write for `state`; see [`curve_bits`].
pub fn curve(state: VolumeState, eased: u32) -> (gain: GainValue)
    ensures
        gain@ == curve_bits(state@, eased),
        gain == GainValue::of(curve_bits(state@, eased)),
{
    if state.is_muted() || state.volume() == 0 {
        GainValue::floor()
    } else if state.volume() >= UNIT {
        GainValue::unity()
    } else {
        GainValue::from_bits(eased)
    }
}

/// A gain is determined by its pattern.
pub proof fn lemma_gain_by_view(a: GainValue, b: GainValue)
    ensures
        a@ == b@ ==> a == b,
        GainValue::of(a@) == a,
        forall|bits: u32| (#[trigger] GainValue::of(bits))@ == bits,
{
}

/// Clamping always lands in the gain range and leaves the range as it is.
pub proof fn law_gain_is_clamped(raw: u32)
    ensures
        is_gain(clamp_gain(raw)),
        is_gain(raw) ==> clamp_gain(raw) == raw,
        depth(clamp_gain(raw)) <= depth(FLOOR),
{
}

/// The curve stays inside `[-60.0, 0.0]` dB whatever the host computed, is at
/// the floor for every muted state and for volume zero, and is at 0.0 dB for
/// an unmuted state at full volume.
pub proof fn law_curve_fixed_points(state: VolumeView, eased: u32)
    ensures
        is_gain(curve_bits(state, eased)),
        depth(curve_bits(state, eased)) <= depth(FLOOR),
        state.muted ==> curve_bits(state, eased) == FLOOR,
        !state.muted && state.level == 0 ==> curve_bits(state, eased) == FLOOR,
        !state.muted && state.level == UNIT ==> curve_bits(state, eased) == UNITY,
{
}

/// The curve keeps the order of the eased values between its ends: of two
/// unmuted states, the louder one gets a gain that is no quieter, as long as
/// the eased value for the louder state is no quieter than the one for the
/// quieter state. With the mute floor and the two ends this makes the curve
/// monotonic wherever the eased values are.
pub proof fn law_curve_keeps_order(
    quiet: VolumeView,
    loud: VolumeView,
    eased_quiet: u32,
    eased_loud: u32,
)
    requires
        !quiet.muted,
        !loud.muted,
        quiet.level <= loud.level <= UNIT,
        depth(clamp_gain(eased_loud)) <= depth(clamp_gain(eased_quiet)),
    ensures
        depth(curve_bits(loud, eased_loud)) <= depth(curve_bits(quiet, eased_quiet)),
{
    law_gain_is_clamped(eased_quiet);
    law_gain_is_clamped(eased_loud);
}

} // verus!
