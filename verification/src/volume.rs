//! The snapshot of an audio endpoint: its volume and its mute flag.

use vstd::prelude::*;

verus! {

/// Bit pattern of 1.0, the top of the unit interval. Patterns from 0 up to
/// this one are exactly the values of `[0.0, 1.0]`, in the same order.
pub const UNIT: u32 = 0x3F80_0000;

/// Bit pattern of positive infinity. Patterns above it are either not
/// numbers or carry the sign bit.
pub const INFINITE: u32 = 0x7F80_0000;

/// The pattern that `raw` is stored as: itself inside the unit interval, the
/// top of the interval for larger values and for positive infinity, and zero
/// for negative values, negative zero and patterns that are not numbers.
pub open spec fn clamp_unit(raw: u32) -> u32 {
    if raw <= UNIT {
        raw
    } else if raw <= INFINITE {
        UNIT
    } else {
        0
    }
}

/// What a [`VolumeState`] holds.
pub struct VolumeView {
    pub muted: bool,
    /// Bit pattern of the volume; at most [`UNIT`] in every stored state.
    pub level: u32,
}

/// An update about the state of the device: muted or not, and how loud.
///
/// The volume is clamped into `[0.0, 1.0]` when the state is made, so two
/// states are equal exactly when they describe the same mute flag and the
/// same volume.
#[derive(Clone, Copy, Debug, PartialEq, Eq, Structural)]
pub struct VolumeState {
    is_muted: bool,
    volume: u32,
}

impl View for VolumeState {
    type V = VolumeView;

    closed spec fn view(&self) -> VolumeView {
        VolumeView { muted: self.is_muted, level: self.volume }
    }
}

impl VolumeState {
    #[verifier::type_invariant]
    spec fn stored_in_unit(self) -> bool {
        self.volume <= UNIT
    }

    /// The state with the given mute flag and the volume whose bit pattern is
    /// `raw`, clamped into the unit interval.
    pub fn new(is_muted: bool, raw: u32) -> (state: Self)
        ensures
            state@.muted == is_muted,
            state@.level == clamp_unit(raw),
    {
        let volume: u32 = if raw <= UNIT {
            raw
        } else if raw <= INFINITE {
            UNIT
        } else {
            0
        };
        VolumeState { is_muted, volume }
    }

    /// Whether the endpoint is muted.
    pub fn is_muted(&self) -> (muted: bool)
        ensures
            muted == self@.muted,
    {
        self.is_muted
    }

    /// Bit pattern of the volume, inside the unit interval.
    pub fn volume(&self) -> (level: u32)
        ensures
            level == self@.level,
            level <= UNIT,
    {
        proof {
            use_type_invariant(self);
        }
        self.volume
    }
}

/// Two states that hold the same mute flag and level are the same state.
pub proof fn law_states_compare_by_value(a: VolumeState, b: VolumeState)
    requires
        a@ == b@,
    ensures
        a == b,
{
}

/// Clamping keeps every pattern inside the unit interval and leaves the
/// patterns of the interval as they are.
pub proof fn law_volume_is_clamped(raw: u32)
    ensures
        clamp_unit(raw) <= UNIT,
        raw <= UNIT ==> clamp_unit(raw) == raw,
        clamp_unit(clamp_unit(raw)) == clamp_unit(raw),
{
}

} // verus!
