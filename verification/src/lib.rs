//! Keeps the gain of a channel in an audio mixer in step with the volume of
//! an output endpoint.
//!
//! The crate holds the decisions of that bridge and proves them with Verus:
//! the deduplicating latest-value cell that turns volume notifications into a
//! stream of distinct states, the bookkeeping of the link to the mixer, the
//! gain curve's fixed points, and the loop that composes them as a machine
//! from events to actions. Waiting, threads and the calls into the operating
//! system and the mixer belong to the host program, which performs each
//! action and reports back what happened.
//!
//! Volumes and gains are held as IEEE 754 binary32 bit patterns, so that
//! equal values are equal integers and every comparison is exact.

pub mod volume;
pub mod curve;
pub mod observer;
pub mod link;
pub mod bridge;

pub use bridge::{Action, Bridge, Event, Observation, Phase, StopReason};
pub use curve::{curve, GainValue};
pub use link::{
    ConnectionState, InitializationError, Link, LinkCreationError, NoVirtualTarget,
    SetParameterError, Strip, TargetHandle, TopologyFingerprint, WaitStep,
};
pub use observer::{ObserverError, VolumeObserver, VolumeReader};
pub use volume::VolumeState;
