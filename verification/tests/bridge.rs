use lerp::Lerp;
use volume_bridge::{
    Action, Bridge, Event, GainValue, Link, Observation, Phase, SetParameterError, StopReason,
    TargetHandle, TopologyFingerprint, VolumeObserver, VolumeState,
};

const BANANA: TopologyFingerprint = TopologyFingerprint { code: 2 };
const POTATO: TopologyFingerprint = TopologyFingerprint { code: 3 };

/// The eased decibel value for a volume, as a host computes it.
fn eased(volume: f32) -> u32 {
    let response = if volume == 1.0 { 1.0 } else { 1.0 - libm::powf(2.0, -5.0 * volume) };
    (-60.0f32).lerp(0.0, response).to_bits()
}

fn observation(is_muted: bool, volume: f32) -> Observation {
    Observation { state: VolumeState::new(is_muted, volume.to_bits()), eased: eased(volume) }
}

fn bridge(retry_millis: u64) -> Bridge {
    Bridge::new(Link::new(Ok(())).expect("the login succeeded"), retry_millis)
}

fn db(gain: GainValue) -> f32 {
    f32::from_bits(gain.bits())
}

/// A mixer double: answers each action as scripted and keeps a record.
struct Mixer {
    /// Results of the probes to come; once used up, the mixer answers.
    probes: Vec<bool>,
    topology: TopologyFingerprint,
    listing: Vec<bool>,
    /// Results of the writes to come; once used up, writes succeed.
    writes: Vec<bool>,
    probed: usize,
    slept: Vec<(u64, bool)>,
    /// How many listings were started.
    listed: usize,
    /// Every position that was asked for.
    read: Vec<usize>,
    written: Vec<(TargetHandle, f32)>,
}

impl Mixer {
    fn new(topology: TopologyFingerprint, listing: Vec<bool>) -> Mixer {
        Mixer {
            probes: Vec::new(),
            topology,
            listing,
            writes: Vec::new(),
            probed: 0,
            slept: Vec::new(),
            listed: 0,
            read: Vec::new(),
            written: Vec::new(),
        }
    }

    /// Hands `observed` to an idle bridge and performs its actions until it
    /// awaits the next volume or stops. Returns the action it ended on.
    fn turn(&mut self, bridge: &mut Bridge, observed: Observation) -> Action {
        assert_eq!(bridge.pending(), Action::AwaitVolume);
        let mut action = bridge.step(Event::Observed(observed));
        loop {
            let event = match action {
                Action::AwaitVolume | Action::Stop(_) => return action,
                Action::Probe => {
                    self.probed += 1;
                    let alive = if self.probes.is_empty() { true } else { self.probes.remove(0) };
                    Event::Probed(alive)
                }
                Action::Sleep { millis, announce } => {
                    self.slept.push((millis, announce));
                    Event::RetryElapsed
                }
                Action::ReadTopology { .. } => Event::Topology(self.topology),
                Action::ReadChannel { index } => {
                    if index == 0 {
                        self.listed += 1;
                    }
                    self.read.push(index);
                    Event::Channel(self.listing.get(index).copied())
                }
                Action::Write { target, gain } => {
                    self.written.push((target, db(gain)));
                    let delivered = if self.writes.is_empty() { true } else { self.writes.remove(0) };
                    Event::Written(if delivered { Ok(()) } else { Err(SetParameterError) })
                }
            };
            action = bridge.step(event);
        }
    }
}

#[test]
fn a_new_bridge_awaits_a_volume() {
    let bridge = bridge(5_000);
    assert_eq!(bridge.pending(), Action::AwaitVolume);
    assert_eq!(bridge.phase(), Phase::Idle);
    assert_eq!(bridge.retry_millis(), 5_000);
    assert!(!bridge.is_stopped());
    assert!(!bridge.link().is_currently_connected());
}

#[test]
fn three_failed_probes_take_three_intervals_and_four_probes() {
    let mut bridge = bridge(15_000);
    let observed = observation(false, 0.5);
    let mut trace = vec![bridge.step(Event::Observed(observed))];
    for alive in [false, false, false] {
        trace.push(bridge.step(Event::Probed(alive)));
        trace.push(bridge.step(Event::RetryElapsed));
    }
    assert!(!bridge.link().is_currently_connected());
    trace.push(bridge.step(Event::Probed(true)));
    assert_eq!(
        trace,
        vec![
            Action::Probe,
            Action::Sleep { millis: 15_000, announce: true },
            Action::Probe,
            Action::Sleep { millis: 15_000, announce: false },
            Action::Probe,
            Action::Sleep { millis: 15_000, announce: false },
            Action::Probe,
            Action::ReadTopology { reconnected: true },
        ]
    );
    assert_eq!(trace.iter().filter(|action| **action == Action::Probe).count(), 4);
    assert_eq!(trace.iter().filter(|action| matches!(action, Action::Sleep { .. })).count(), 3);
    assert!(bridge.link().is_currently_connected());
}

#[test]
fn the_wait_ends_only_when_the_interval_is_over() {
    let mut bridge = bridge(5_000);
    bridge.step(Event::Observed(observation(false, 0.5)));
    let sleep = bridge.step(Event::Probed(false));
    assert_eq!(sleep, Action::Sleep { millis: 5_000, announce: true });
    assert_eq!(bridge.step(Event::Probed(true)), sleep);
    assert_eq!(bridge.step(Event::Topology(BANANA)), sleep);
    assert_eq!(bridge.step(Event::Observed(observation(false, 0.9))), sleep);
    assert!(!bridge.link().is_currently_connected());
    assert_eq!(bridge.step(Event::RetryElapsed), Action::Probe);
}

#[test]
fn a_reachable_mixer_is_probed_once_per_volume() {
    let mut bridge = bridge(5_000);
    let mut mixer = Mixer::new(BANANA, vec![false, false, false, true, true]);
    for step in 1..=5u32 {
        mixer.turn(&mut bridge, observation(false, step as f32 / 10.0));
    }
    assert_eq!(mixer.probed, 5);
    assert!(mixer.slept.is_empty());
    assert_eq!(mixer.written.len(), 5);
}

#[test]
fn an_unchanged_topology_is_resolved_once() {
    let mut bridge = bridge(5_000);
    let mut mixer = Mixer::new(BANANA, vec![false, false, false, true, true]);
    for step in 0..20u32 {
        let ended = mixer.turn(&mut bridge, observation(false, step as f32 / 20.0));
        assert_eq!(ended, Action::AwaitVolume);
    }
    assert_eq!(mixer.listed, 1);
    assert_eq!(mixer.read, vec![0, 1, 2, 3, 4, 5]);
    assert_eq!(mixer.written.len(), 20);
    let target = TargetHandle { index: 3, topology: BANANA };
    assert!(mixer.written.iter().all(|(written, _)| *written == target));
}

#[test]
fn a_changed_topology_is_resolved_once_more_before_the_next_write() {
    let mut bridge = bridge(5_000);
    let mut mixer = Mixer::new(BANANA, vec![false, false, false, true, true]);
    mixer.turn(&mut bridge, observation(false, 0.1));
    assert_eq!(mixer.listed, 1);

    mixer.topology = POTATO;
    mixer.listing = vec![false, false, false, false, false, true, true, true];
    bridge.step(Event::Observed(observation(false, 0.2)));
    bridge.step(Event::Probed(true));
    assert_eq!(bridge.step(Event::Topology(POTATO)), Action::ReadChannel { index: 0 });
    assert_eq!(bridge.link().target(), None);
    for (position, is_virtual) in mixer.listing.iter().enumerate() {
        assert_eq!(
            bridge.step(Event::Channel(Some(*is_virtual))),
            Action::ReadChannel { index: position + 1 }
        );
    }
    let write = bridge.step(Event::Channel(None));
    let target = TargetHandle { index: 5, topology: POTATO };
    assert!(matches!(write, Action::Write { target: written, .. } if written == target));
    assert_eq!(bridge.step(Event::Written(Ok(()))), Action::AwaitVolume);

    mixer.turn(&mut bridge, observation(false, 0.3));
    mixer.turn(&mut bridge, observation(false, 0.4));
    assert_eq!(mixer.listed, 1);
    assert_eq!(mixer.written.len(), 3);
    assert!(mixer.written[1..].iter().all(|(written, _)| *written == target));
}

#[test]
fn observed_states_are_written_in_order() {
    let mut bridge = bridge(5_000);
    let mut mixer = Mixer::new(BANANA, vec![false, false, false, true, true]);
    for observed in [observation(false, 0.0), observation(false, 0.25), observation(true, 0.25)] {
        assert_eq!(mixer.turn(&mut bridge, observed), Action::AwaitVolume);
    }
    let gains: Vec<f32> = mixer.written.iter().map(|(_, gain)| *gain).collect();
    assert_eq!(gains, vec![-60.0, f32::from_bits(eased(0.25)), -60.0]);
    assert!((gains[1] - (-25.226892)).abs() < 1e-3);
    assert_eq!(mixer.written.len(), 3);
    assert_eq!(mixer.listed, 1);
}

#[test]
fn the_source_feeds_the_bridge_distinct_states_only() {
    let mut cell = VolumeObserver::new(VolumeState::new(false, 0.0f32.to_bits()));
    let mut reader = cell.subscribe();
    let mut bridge = bridge(5_000);
    let mut mixer = Mixer::new(BANANA, vec![false, true]);
    let notified = [(false, 0.0f32), (false, 0.25), (false, 0.25), (true, 0.25), (true, 0.25)];
    for (is_muted, volume) in notified {
        cell.publish(VolumeState::new(is_muted, volume.to_bits()));
        if let Some(state) = reader.next_changed(&cell) {
            let observed = Observation { state, eased: eased(f32::from_bits(state.volume())) };
            mixer.turn(&mut bridge, observed);
        }
    }
    let gains: Vec<f32> = mixer.written.iter().map(|(_, gain)| *gain).collect();
    assert_eq!(gains, vec![-60.0, f32::from_bits(eased(0.25)), -60.0]);
}

#[test]
fn the_bridge_recovers_from_an_absent_mixer_and_a_refused_write() {
    let mut bridge = bridge(5_000);
    let mut mixer = Mixer::new(BANANA, vec![false, false, false, true, true]);
    mixer.probes = vec![false, false, true];
    mixer.writes = vec![true, false];

    assert_eq!(mixer.turn(&mut bridge, observation(false, 0.2)), Action::AwaitVolume);
    assert_eq!(mixer.probed, 3);
    assert_eq!(mixer.slept, vec![(5_000, true), (5_000, false)]);
    assert_eq!(mixer.listed, 1);
    assert_eq!(mixer.written.len(), 1);
    assert!(bridge.link().is_currently_connected());

    assert_eq!(mixer.turn(&mut bridge, observation(false, 0.4)), Action::AwaitVolume);
    assert_eq!(mixer.written.len(), 2);
    assert!(!bridge.link().is_currently_connected());
    assert!(!bridge.is_stopped());

    assert_eq!(mixer.turn(&mut bridge, observation(false, 0.6)), Action::AwaitVolume);
    assert_eq!(mixer.turn(&mut bridge, observation(true, 0.6)), Action::AwaitVolume);
    let gains: Vec<f32> = mixer.written.iter().map(|(_, gain)| *gain).collect();
    assert_eq!(
        gains,
        vec![
            f32::from_bits(eased(0.2)),
            f32::from_bits(eased(0.4)),
            f32::from_bits(eased(0.6)),
            -60.0,
        ]
    );
    assert_eq!(mixer.listed, 1);
    assert_eq!(mixer.probed, 6);
    assert!(bridge.link().is_currently_connected());
}

#[test]
fn a_refused_write_is_not_retried() {
    let mut bridge = bridge(5_000);
    let mut mixer = Mixer::new(BANANA, vec![true]);
    mixer.writes = vec![false];
    assert_eq!(mixer.turn(&mut bridge, observation(false, 0.7)), Action::AwaitVolume);
    assert_eq!(mixer.written.len(), 1);
    assert_eq!(bridge.phase(), Phase::Idle);
    assert_eq!(bridge.link().target(), Some(TargetHandle { index: 0, topology: BANANA }));
}

#[test]
fn a_mixer_without_virtual_input_stops_the_bridge() {
    let mut bridge = bridge(5_000);
    let mut mixer = Mixer::new(TopologyFingerprint { code: 255 }, Vec::new());
    let ended = mixer.turn(&mut bridge, observation(false, 0.5));
    assert_eq!(ended, Action::Stop(StopReason::NoVirtualTarget));
    assert!(bridge.is_stopped());
    assert!(mixer.written.is_empty());
    assert_eq!(bridge.step(Event::Observed(observation(false, 0.1))), ended);
    assert_eq!(bridge.step(Event::Cancelled), ended);

    let mut physical_only = Mixer::new(BANANA, vec![false, false]);
    let mut second = self::bridge(5_000);
    assert_eq!(
        physical_only.turn(&mut second, observation(false, 0.5)),
        Action::Stop(StopReason::NoVirtualTarget)
    );
}

#[test]
fn the_end_of_the_source_stops_the_bridge() {
    let mut bridge = bridge(5_000);
    assert_eq!(bridge.step(Event::SourceClosed), Action::Stop(StopReason::SourceClosed));
    assert_eq!(bridge.phase(), Phase::Stopped(StopReason::SourceClosed));
    assert_eq!(bridge.step(Event::Probed(true)), Action::Stop(StopReason::SourceClosed));
}

#[test]
fn cancellation_stops_the_bridge_in_every_phase() {
    let script: Vec<fn() -> Event> = vec![
        || Event::Observed(observation(false, 0.5)),
        || Event::Probed(false),
        || Event::RetryElapsed,
        || Event::Probed(true),
        || Event::Topology(BANANA),
        || Event::Channel(Some(false)),
        || Event::Channel(Some(true)),
        || Event::Channel(None),
        || Event::Written(Ok(())),
    ];
    for done in 0..=script.len() {
        let mut bridge = bridge(5_000);
        for event in &script[..done] {
            assert!(!matches!(bridge.step(event()), Action::Stop(_)));
        }
        assert_eq!(bridge.step(Event::Cancelled), Action::Stop(StopReason::Cancelled));
        assert!(bridge.is_stopped());
        assert_eq!(bridge.step(Event::RetryElapsed), Action::Stop(StopReason::Cancelled));
    }
}

#[test]
fn events_that_were_not_asked_for_change_nothing() {
    let mut bridge = bridge(5_000);
    for event in [
        Event::Probed(true),
        Event::RetryElapsed,
        Event::Topology(BANANA),
        Event::Channel(Some(true)),
        Event::Channel(None),
        Event::Written(Ok(())),
    ] {
        assert_eq!(bridge.step(event), Action::AwaitVolume);
        assert_eq!(bridge.phase(), Phase::Idle);
    }
    let first = observation(false, 0.3);
    assert_eq!(bridge.step(Event::Observed(first)), Action::Probe);
    assert_eq!(bridge.step(Event::Observed(observation(false, 0.8))), Action::Probe);
    assert_eq!(bridge.step(Event::SourceClosed), Action::Probe);
    assert_eq!(bridge.phase(), Phase::Probing { observed: first });
}

#[test]
fn a_mute_during_the_wait_does_not_overtake() {
    let mut bridge = bridge(5_000);
    let mut mixer = Mixer::new(BANANA, vec![true]);
    mixer.probes = vec![false, true];
    let first = observation(false, 0.9);
    assert_eq!(mixer.turn(&mut bridge, first), Action::AwaitVolume);
    assert_eq!(mixer.turn(&mut bridge, observation(true, 0.9)), Action::AwaitVolume);
    let gains: Vec<f32> = mixer.written.iter().map(|(_, gain)| *gain).collect();
    assert_eq!(gains, vec![f32::from_bits(eased(0.9)), -60.0]);
}

#[test]
fn channels_are_listed_by_position_until_the_first_gap() {
    let mut bridge = bridge(5_000);
    let mut mixer = Mixer::new(BANANA, vec![false, false, true]);
    assert_eq!(mixer.turn(&mut bridge, observation(false, 0.5)), Action::AwaitVolume);
    assert_eq!(mixer.read, vec![0, 1, 2, 3]);
    assert_eq!(bridge.link().strips().len(), 3);
    assert_eq!(bridge.link().virtual_inputs().len(), 1);
    assert_eq!(mixer.written[0].0, TargetHandle { index: 2, topology: BANANA });
}
