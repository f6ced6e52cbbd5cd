//! The bridge: the loop that carries each observed volume to the mixer,
//! written as a machine from events to actions.
//!
//! The host performs the pending action, then hands the outcome to
//! [`Bridge::step`] as an event and gets the next action back. One turn of
//! the loop runs: await a volume, probe the mixer until it answers, read its
//! layout, resolve the target again if the layout changed, write the gain.

use vstd::prelude::*;
use crate::curve::{
    curve, curve_bits, is_gain, law_curve_fixed_points, lemma_gain_by_view, GainValue, FLOOR,
    UNITY,
};
use crate::link::{
    ConnectionState, Link, LinkView, SetParameterError, TargetHandle, TopologyFingerprint,
    WaitStep, is_first_virtual, law_listing_is_what_was_listed, lemma_first_virtual, no_virtual,
};
use crate::volume::{VolumeState, UNIT};

verus! {

/// One distinct state of the endpoint, as the source handed it out, with the
/// eased decibel value that the host computed for its volume.
#[derive(Clone, Copy, Debug, PartialEq, Eq, Structural)]
pub struct Observation {
    pub state: VolumeState,
    /// Bit pattern of the eased gain for `state`'s volume.
    pub eased: u32,
}

/// What the host reports back.
#[derive(Clone, Copy, Debug, PartialEq, Eq)]
pub enum Event {
    /// The source handed out its next distinct state.
    Observed(Observation),
    /// The source ended for good.
    SourceClosed,
    /// The liveness probe came back.
    Probed(bool),
    /// The retry interval is over.
    RetryElapsed,
    /// The mixer reported its layout.
    Topology(TopologyFingerprint),
    /// The mixer answered for one position: `Some` with the virtual-input
    /// flag of the channel there, or `None` where the channels end.
    Channel(Option<bool>),
    /// The write came back.
    Written(Result<(), SetParameterError>),
    /// Shutdown was asked for.
    Cancelled,
}

/// Why the bridge stopped.
#[derive(Clone, Copy, Debug, PartialEq, Eq, Structural)]
pub enum StopReason {
    Cancelled,
    SourceClosed,
    NoVirtualTarget,
}

/// What the host is to do next.
#[derive(Clone, Copy, Debug, PartialEq, Eq, Structural)]
pub enum Action {
    /// Wait for the next distinct state of the endpoint.
    AwaitVolume,
    /// Probe the mixer.
    Probe,
    /// Wait for the retry interval. `announce` asks to report, once per wait,
    /// that the mixer is not reachable.
    Sleep { millis: u64, announce: bool },
    /// Read the mixer's layout. `reconnected` tells that the mixer answered
    /// after a wait.
    ReadTopology { reconnected: bool },
    /// Ask the mixer for the channel at position `index`.
    ReadChannel { index: usize },
    /// Write `gain` to `target`.
    Write { target: TargetHandle, gain: GainValue },
    /// Leave the loop and release everything.
    Stop(StopReason),
}

/// Where in its turn the bridge stands.
#[derive(Clone, Copy, Debug, PartialEq, Eq, Structural)]
pub enum Phase {
    Idle,
    Probing { observed: Observation },
    Sleeping { observed: Observation, announce: bool },
    ReadingTopology { observed: Observation, reconnected: bool },
    Resolving { observed: Observation, topology: TopologyFingerprint },
    Writing { observed: Observation, target: TargetHandle },
    Stopped(StopReason),
}

impl Phase {
    /// The observation that the bridge works on, if it is in a turn.
    pub open spec fn in_hand(self) -> Option<Observation> {
        match self {
            Phase::Idle => None,
            Phase::Probing { observed } => Some(observed),
            Phase::Sleeping { observed, .. } => Some(observed),
            Phase::ReadingTopology { observed, .. } => Some(observed),
            Phase::Resolving { observed, .. } => Some(observed),
            Phase::Writing { observed, .. } => Some(observed),
            Phase::Stopped(_) => None,
        }
    }

    /// How far the turn has come: waiting for the mixer, reading its layout,
    /// listing its channels, writing.
    pub open spec fn progress(self) -> nat {
        match self {
            Phase::Idle => 0,
            Phase::Probing { .. } => 1,
            Phase::Sleeping { .. } => 1,
            Phase::ReadingTopology { .. } => 2,
            Phase::Resolving { .. } => 3,
            Phase::Writing { .. } => 4,
            Phase::Stopped(_) => 5,
        }
    }
}

/// The gain that is written for an observation.
pub open spec fn gain_of(observed: Observation) -> GainValue {
    GainValue::of(curve_bits(observed.state@, observed.eased))
}

/// What a [`Bridge`] holds.
pub struct BridgeView {
    pub link: LinkView,
    pub phase: Phase,
    /// The retry interval of the connectivity wait, in milliseconds.
    pub retry_millis: u64,
}

impl BridgeView {
    /// The link is consistent; the bridge sleeps only inside an announced
    /// wait; it reads, resolves and writes only while the mixer answers; and
    /// it writes only to the target that the link holds.
    pub open spec fn wf(self) -> bool {
        &&& self.link.wf()
        &&& match self.phase {
            Phase::Sleeping { .. } => self.link.announced,
            Phase::ReadingTopology { .. } => self.link.state == ConnectionState::Connected,
            Phase::Resolving { .. } => self.link.state == ConnectionState::Connected,
            Phase::Writing { target, .. } => {
                &&& self.link.state == ConnectionState::Connected
                &&& self.link.target == Some(target)
            },
            _ => true,
        }
    }

    /// The bridge as it starts, around a link.
    pub open spec fn initial(link: LinkView, retry_millis: u64) -> BridgeView {
        BridgeView { link, phase: Phase::Idle, retry_millis }
    }

    /// The action that the bridge waits for.
    pub open spec fn pending(self) -> Action {
        match self.phase {
            Phase::Idle => Action::AwaitVolume,
            Phase::Probing { .. } => Action::Probe,
            Phase::Sleeping { announce, .. } => Action::Sleep {
                millis: self.retry_millis,
                announce,
            },
            Phase::ReadingTopology { reconnected, .. } => Action::ReadTopology { reconnected },
            Phase::Resolving { .. } => Action::ReadChannel {
                index: self.link.listing.len() as usize,
            },
            Phase::Writing { observed, target } => Action::Write {
                target,
                gain: gain_of(observed),
            },
            Phase::Stopped(reason) => Action::Stop(reason),
        }
    }

    /// Whether the bridge has left the loop.
    pub open spec fn stopped(self) -> bool {
        self.phase is Stopped
    }

    /// The bridge after a probe came back while it was probing for
    /// `observed`.
    pub open spec fn probed(self, observed: Observation, alive: bool) -> BridgeView {
        BridgeView {
            link: self.link.probed(alive),
            phase: match self.link.wait_step(alive) {
                WaitStep::Ready { reconnected } => Phase::ReadingTopology { observed, reconnected },
                WaitStep::Retry { announce } => Phase::Sleeping { observed, announce },
            },
            ..self
        }
    }

    /// The bridge after the mixer reported its layout: it writes at once if
    /// the cached target was resolved under that layout, and starts a listing
    /// of the channels if not.
    pub open spec fn topology_read(
        self,
        observed: Observation,
        topology: TopologyFingerprint,
    ) -> BridgeView {
        let link = self.link.topology_seen(topology);
        match link.target {
            Some(target) => BridgeView { link, phase: Phase::Writing { observed, target }, ..self },
            None => BridgeView {
                link: link.listing_begun(),
                phase: Phase::Resolving { observed, topology },
                ..self
            },
        }
    }

    /// The bridge after the mixer answered for one position: it asks for the
    /// next position while there are channels, and at their end it writes to
    /// the first virtual input that was listed, or stops if there is none.
    pub open spec fn channel_read(
        self,
        observed: Observation,
        topology: TopologyFingerprint,
        answer: Option<bool>,
    ) -> BridgeView {
        match answer {
            Some(is_virtual) => BridgeView { link: self.link.listed(is_virtual), ..self },
            None => {
                let link = self.link.resolved(topology);
                BridgeView {
                    link,
                    phase: match link.target {
                        Some(target) => Phase::Writing { observed, target },
                        None => Phase::Stopped(StopReason::NoVirtualTarget),
                    },
                    ..self
                }
            },
        }
    }

    /// The bridge after one event. An event that the pending action does not
    /// ask for changes nothing, a cancellation stops the bridge wherever it
    /// stands, and a stopped bridge stays as it is.
    pub open spec fn next(self, event: Event) -> BridgeView {
        match (self.phase, event) {
            (Phase::Stopped(_), _) => self,
            (_, Event::Cancelled) => BridgeView {
                phase: Phase::Stopped(StopReason::Cancelled),
                ..self
            },
            (Phase::Idle, Event::Observed(observed)) => BridgeView {
                phase: Phase::Probing { observed },
                ..self
            },
            (Phase::Idle, Event::SourceClosed) => BridgeView {
                phase: Phase::Stopped(StopReason::SourceClosed),
                ..self
            },
            (Phase::Probing { observed }, Event::Probed(alive)) => self.probed(observed, alive),
            (Phase::Sleeping { observed, .. }, Event::RetryElapsed) => BridgeView {
                phase: Phase::Probing { observed },
                ..self
            },
            (Phase::ReadingTopology { observed, .. }, Event::Topology(topology)) => {
                self.topology_read(observed, topology)
            },
            (Phase::Resolving { observed, topology }, Event::Channel(answer)) => {
                self.channel_read(observed, topology, answer)
            },
            (Phase::Writing { .. }, Event::Written(outcome)) => BridgeView {
                link: self.link.called(outcome is Ok),
                phase: Phase::Idle,
                ..self
            },
            _ => self,
        }
    }

    /// The bridge after a run of events, in order.
    pub open spec fn after(self, events: Seq<Event>) -> BridgeView
        decreases events.len(),
    {
        if events.len() == 0 {
            self
        } else {
            self.after(events.drop_last()).next(events.last())
        }
    }

    /// The writes that came back during a run of events, in order: each is
    /// the write that was pending when its outcome arrived.
    pub open spec fn writes(self, events: Seq<Event>) -> Seq<Action>
        decreases events.len(),
    {
        if events.len() == 0 {
            Seq::empty()
        } else {
            let before = self.after(events.drop_last());
            let earlier = self.writes(events.drop_last());
            if before.phase is Writing && events.last() is Written {
                earlier.push(before.pending())
            } else {
                earlier
            }
        }
    }
}

/// One observation and whether the write for it will be accepted.
pub struct Turn {
    pub observed: Observation,
    pub accepted: bool,
}

/// The events of one turn with a mixer that answers and keeps its layout.
pub open spec fn steady_turn(turn: Turn, topology: TopologyFingerprint) -> Seq<Event> {
    seq![
        Event::Observed(turn.observed),
        Event::Probed(true),
        Event::Topology(topology),
        Event::Written(if turn.accepted { Ok(()) } else { Err(SetParameterError) }),
    ]
}

/// The events of a run of such turns, in order.
pub open spec fn steady_turns(turns: Seq<Turn>, topology: TopologyFingerprint) -> Seq<Event>
    decreases turns.len(),
{
    if turns.len() == 0 {
        Seq::empty()
    } else {
        steady_turns(turns.drop_last(), topology) + steady_turn(turns.last(), topology)
    }
}

/// The orchestration loop between the observed volume and the mixer.
#[derive(Debug)]
pub struct Bridge {
    link: Link,
    phase: Phase,
    retry_millis: u64,
}

impl View for Bridge {
    type V = BridgeView;

    closed spec fn view(&self) -> BridgeView {
        BridgeView { link: self.link@, phase: self.phase, retry_millis: self.retry_millis }
    }
}

impl Bridge {
    /// A bridge around `link`, which waits `retry_millis` between two probes
    /// of an unreachable mixer. Its first action is to await a volume.
    pub fn new(link: Link, retry_millis: u64) -> (bridge: Self)
        ensures
            bridge@ == BridgeView::initial(link@, retry_millis),
            link@.wf() ==> bridge@.wf(),
    {
        Bridge { link, phase: Phase::Idle, retry_millis }
    }

    /// The link, to read its state.
    pub fn link(&self) -> (link: &Link)
        ensures
            link@ == self@.link,
    {
        &self.link
    }

    /// Where in its turn the bridge stands.
    pub fn phase(&self) -> (phase: Phase)
        ensures
            phase == self@.phase,
    {
        self.phase
    }

    /// The retry interval, in milliseconds.
    pub fn retry_millis(&self) -> (millis: u64)
        ensures
            millis == self@.retry_millis,
    {
        self.retry_millis
    }

    /// Whether the bridge has left the loop.
    pub fn is_stopped(&self) -> (stopped: bool)
        ensures
            stopped == self@.stopped(),
    {
        match self.phase {
            Phase::Stopped(_) => true,
            _ => false,
        }
    }

    /// The action that the bridge waits for the host to perform.
    pub fn pending(&self) -> (action: Action)
        ensures
            action == self@.pending(),
    {
        match self.phase {
            Phase::Idle => Action::AwaitVolume,
            Phase::Probing { .. } => Action::Probe,
            Phase::Sleeping { announce, .. } => Action::Sleep {
                millis: self.retry_millis,
                announce,
            },
            Phase::ReadingTopology { reconnected, .. } => Action::ReadTopology { reconnected },
            Phase::Resolving { .. } => Action::ReadChannel { index: self.link.listed() },
            Phase::Writing { observed, target } => Action::Write {
                target,
                gain: curve(observed.state, observed.eased),
            },
            Phase::Stopped(reason) => Action::Stop(reason),
        }
    }

    /// Takes the outcome of the pending action and returns the next one.
    pub fn step(&mut self, event: Event) -> (action: Action)
        ensures
            final(self)@ == old(self)@.next(event),
            action == final(self)@.pending(),
            old(self)@.wf() ==> final(self)@.wf(),
    {
        let phase = self.phase;
        match (phase, event) {
            (Phase::Stopped(_), _) => {},
            (_, Event::Cancelled) => {
                self.phase = Phase::Stopped(StopReason::Cancelled);
            },
            (Phase::Idle, Event::Observed(observed)) => {
                self.phase = Phase::Probing { observed };
            },
            (Phase::Idle, Event::SourceClosed) => {
                self.phase = Phase::Stopped(StopReason::SourceClosed);
            },
            (Phase::Probing { observed }, Event::Probed(alive)) => {
                match self.link.wait_for_connection(alive) {
                    WaitStep::Ready { reconnected } => {
                        self.phase = Phase::ReadingTopology { observed, reconnected };
                    },
                    WaitStep::Retry { announce } => {
                        self.phase = Phase::Sleeping { observed, announce };
                    },
                }
            },
            (Phase::Sleeping { observed, .. }, Event::RetryElapsed) => {
                self.phase = Phase::Probing { observed };
            },
            (Phase::ReadingTopology { observed, .. }, Event::Topology(topology)) => {
                match self.link.current_topology(topology) {
                    Some(target) => {
                        self.phase = Phase::Writing { observed, target };
                    },
                    None => {
                        self.link.begin_listing();
                        self.phase = Phase::Resolving { observed, topology };
                    },
                }
            },
            (Phase::Resolving { .. }, Event::Channel(Some(is_virtual))) => {
                self.link.list_channel(is_virtual);
            },
            (Phase::Resolving { observed, topology }, Event::Channel(None)) => {
                match self.link.resolve_first_virtual_target(topology) {
                    Ok(target) => {
                        self.phase = Phase::Writing { observed, target };
                    },
                    Err(_) => {
                        self.phase = Phase::Stopped(StopReason::NoVirtualTarget);
                    },
                }
            },
            (Phase::Writing { .. }, Event::Written(outcome)) => {
                self.link.set(outcome);
                self.phase = Phase::Idle;
            },
            _ => {},
        }
        self.pending()
    }
}

/// The run of events of `failures` probes in a row that found nobody, each
/// followed by the end of its retry interval.
pub open spec fn retries(failures: nat) -> Seq<Event>
    decreases failures,
{
    if failures == 0 {
        Seq::empty()
    } else {
        retries((failures - 1) as nat).push(Event::Probed(false)).push(Event::RetryElapsed)
    }
}

/// A run that ends with `event` is the run before it, then `event`.
pub proof fn lemma_after_push(bridge: BridgeView, events: Seq<Event>, event: Event)
    ensures
        bridge.after(events.push(event)) == bridge.after(events).next(event),
        bridge.after(Seq::empty()) == bridge,
{
    assert(events.push(event).drop_last() =~= events);
}

/// The run of events of a listing: one answer for each channel of `flags`,
/// in order.
pub open spec fn answers(flags: Seq<bool>) -> Seq<Event> {
    Seq::new(flags.len(), |at: int| Event::Channel(Some(flags[at])))
}

/// The bridge's invariant holds at the start and after every event, as long
/// as the listing fits the machine.
pub proof fn law_bridge_stays_consistent(bridge: BridgeView, event: Event)
    requires
        bridge.wf(),
        bridge.link.listing.len() < usize::MAX,
    ensures
        bridge.next(event).wf(),
        BridgeView::initial(bridge.link, bridge.retry_millis).wf(),
{
    lemma_first_virtual(bridge.link.listing);
}

/// Cancellation wins wherever the bridge stands, and a stopped bridge stays
/// stopped, with the reason it stopped for.
pub proof fn law_stop_is_final(bridge: BridgeView, event: Event)
    ensures
        bridge.stopped() ==> bridge.next(event) == bridge,
        !bridge.stopped() ==> bridge.next(Event::Cancelled).pending() == Action::Stop(
            StopReason::Cancelled,
        ),
        bridge.next(Event::Cancelled).link == bridge.link,
        bridge.phase is Idle ==> bridge.next(Event::SourceClosed).pending() == Action::Stop(
            StopReason::SourceClosed,
        ),
{
}

/// One write at most per observation, in the order of the observations. The
/// bridge takes a state only while it is idle and then works on that state
/// and on no other until its turn is over; within a turn it only moves
/// forward, from the wait over the layout to the write; what it writes is the
/// gain of the state in hand; and it leaves the write only to be idle again
/// or to stop.
pub proof fn law_one_turn_per_observation(bridge: BridgeView, event: Event)
    ensures
        match bridge.next(event).phase.in_hand() {
            Some(after) => {
                ||| bridge.phase.in_hand() == Some(after) && bridge.phase.progress()
                    <= bridge.next(event).phase.progress()
                ||| bridge.phase is Idle && event == Event::Observed(after)
            },
            None => true,
        },
        match bridge.pending() {
            Action::Write { gain, .. } => bridge.phase.in_hand() matches Some(observed) && gain
                == gain_of(observed),
            Action::AwaitVolume => bridge.phase is Idle,
            _ => true,
        },
        bridge.phase is Writing ==> {
            ||| bridge.next(event) == bridge
            ||| bridge.next(event).phase is Idle
            ||| bridge.next(event).phase is Stopped
        },
{
}

/// A run of events in two parts is the first part, then the second from
/// where the first ended; so are the writes of the run.
pub proof fn lemma_after_concat(bridge: BridgeView, first: Seq<Event>, second: Seq<Event>)
    ensures
        bridge.after(first + second) == bridge.after(first).after(second),
        bridge.writes(first + second) == bridge.writes(first) + bridge.after(first).writes(second),
    decreases second.len(),
{
    if second.len() == 0 {
        assert(first + second =~= first);
        assert(bridge.writes(first) + Seq::<Action>::empty() =~= bridge.writes(first));
    } else {
        lemma_after_concat(bridge, first, second.drop_last());
        assert((first + second).drop_last() =~= first + second.drop_last());
        assert((first + second).last() == second.last());
        let middle = bridge.after(first);
        assert(bridge.writes(first) + middle.writes(second.drop_last()).push(
            middle.after(second.drop_last()).pending(),
        ) =~= (bridge.writes(first) + middle.writes(second.drop_last())).push(
            middle.after(second.drop_last()).pending(),
        ));
    }
}

/// One turn with a mixer that answers and keeps its layout: the bridge
/// probes once, reads the layout, lists nothing, and writes the gain of the
/// observed state to the cached target. Whatever the write's outcome, the
/// bridge is idle afterwards and holds the same target.
pub proof fn law_steady_turn(bridge: BridgeView, turn: Turn, topology: TopologyFingerprint)
    requires
        bridge.phase is Idle,
        bridge.link.resolved_under(topology),
    ensures
        bridge.next(Event::Observed(turn.observed)).pending() == Action::Probe,
        bridge.after(steady_turn(turn, topology).take(2)).pending() == (Action::ReadTopology {
            reconnected: bridge.link.announced,
        }),
        bridge.after(steady_turn(turn, topology).take(3)).pending() == (Action::Write {
            target: bridge.link.target->0,
            gain: gain_of(turn.observed),
        }),
        bridge.after(steady_turn(turn, topology)).phase is Idle,
        bridge.after(steady_turn(turn, topology)).link.target == bridge.link.target,
        bridge.after(steady_turn(turn, topology)).link.listing == bridge.link.listing,
        bridge.after(steady_turn(turn, topology)).retry_millis == bridge.retry_millis,
        bridge.after(steady_turn(turn, topology)).link.state == if turn.accepted {
            ConnectionState::Connected
        } else {
            ConnectionState::Disconnected
        },
        bridge.writes(steady_turn(turn, topology)) == seq![
            Action::Write { target: bridge.link.target->0, gain: gain_of(turn.observed) },
        ],
{
    let events = steady_turn(turn, topology);
    let one = events.take(1);
    let two = events.take(2);
    let three = events.take(3);
    assert(events.drop_last() =~= three);
    assert(three.drop_last() =~= two);
    assert(two.drop_last() =~= one);
    assert(one.drop_last() =~= Seq::<Event>::empty());
    assert(events.take(4) =~= events);
    reveal_with_fuel(BridgeView::after, 5);
    reveal_with_fuel(BridgeView::writes, 5);
    let b0 = bridge;
    let b1 = b0.next(events[0]);
    let b2 = b1.next(events[1]);
    let b3 = b2.next(events[2]);
    let b4 = b3.next(events[3]);
    assert(bridge.after(one) == b1);
    assert(bridge.after(two) == b2);
    assert(bridge.after(three) == b3);
    assert(bridge.after(events) == b4);
    assert(bridge.writes(one) =~= Seq::<Action>::empty());
    assert(bridge.writes(two) =~= Seq::<Action>::empty());
    assert(bridge.writes(three) =~= Seq::<Action>::empty());
    assert(bridge.writes(events) =~= seq![b3.pending()]);
}

/// Writes follow the observations: over any run of turns with a mixer that
/// answers and keeps its layout, the bridge writes once per observed state,
/// in the order of the states, each time the gain of that state to the same
/// target. A refused write changes nothing for the states after it.
pub proof fn law_writes_follow_observations(
    bridge: BridgeView,
    turns: Seq<Turn>,
    topology: TopologyFingerprint,
)
    requires
        bridge.phase is Idle,
        bridge.link.resolved_under(topology),
    ensures
        bridge.after(steady_turns(turns, topology)).phase is Idle,
        bridge.after(steady_turns(turns, topology)).link.target == bridge.link.target,
        bridge.after(steady_turns(turns, topology)).link.listing == bridge.link.listing,
        bridge.writes(steady_turns(turns, topology)) == Seq::new(
            turns.len(),
            |at: int|
                Action::Write { target: bridge.link.target->0, gain: gain_of(turns[at].observed) },
        ),
    decreases turns.len(),
{
    let expected = Seq::new(
        turns.len(),
        |at: int| Action::Write { target: bridge.link.target->0, gain: gain_of(turns[at].observed) },
    );
    if turns.len() == 0 {
        assert(bridge.writes(steady_turns(turns, topology)) =~= expected);
    } else {
        let earlier = turns.drop_last();
        let run = steady_turns(earlier, topology);
        law_writes_follow_observations(bridge, earlier, topology);
        let middle = bridge.after(run);
        law_steady_turn(middle, turns.last(), topology);
        lemma_after_concat(bridge, run, steady_turn(turns.last(), topology));
        assert(bridge.writes(steady_turns(turns, topology)) =~= expected);
    }
}

/// A refused write is dropped, not retried: whatever the write's outcome, the
/// bridge awaits the next state and keeps its target, and only a refused
/// write leaves the link disconnected.
pub proof fn law_failed_write_is_dropped(bridge: BridgeView, outcome: Result<(), SetParameterError>)
    requires
        bridge.phase is Writing,
    ensures
        bridge.next(Event::Written(outcome)).pending() == Action::AwaitVolume,
        bridge.next(Event::Written(outcome)).link.target == bridge.link.target,
        bridge.next(Event::Written(outcome)).link.listing == bridge.link.listing,
        outcome is Ok ==> bridge.next(Event::Written(outcome)).link == bridge.link,
        outcome is Err ==> bridge.next(Event::Written(outcome)).link.state
            == ConnectionState::Disconnected,
{
}

/// Waiting for the mixer: while probes fail the bridge sleeps one retry
/// interval after each and probes again, it announces the wait at the first
/// failure only, and the first probe that succeeds ends the wait. A wait of
/// `failures` failed probes therefore takes `failures` intervals and
/// `failures + 1` probes.
pub proof fn law_wait_retries_until_alive(bridge: BridgeView, observed: Observation, failures: nat)
    requires
        bridge.phase == (Phase::Probing { observed }),
    ensures
        bridge.after(retries(failures)).phase == (Phase::Probing { observed }),
        bridge.after(retries(failures)).pending() == Action::Probe,
        bridge.after(retries(failures)).link == bridge.link.after_failures(failures),
        bridge.after(retries(failures)).retry_millis == bridge.retry_millis,
        bridge.after(retries(failures).push(Event::Probed(false))).pending() == (Action::Sleep {
            millis: bridge.retry_millis,
            announce: failures == 0 && !bridge.link.announced,
        }),
        bridge.after(retries(failures).push(Event::Probed(true))).pending()
            == (Action::ReadTopology { reconnected: failures > 0 || bridge.link.announced }),
        bridge.after(retries(failures).push(Event::Probed(true))).link.state
            == ConnectionState::Connected,
    decreases failures,
{
    let run = retries(failures);
    lemma_after_push(bridge, run, Event::Probed(false));
    lemma_after_push(bridge, run, Event::Probed(true));
    if failures == 0 {
        assert(bridge.after(run) == bridge);
        assert(bridge.link.after_failures(0) == bridge.link);
    } else {
        let fewer = (failures - 1) as nat;
        law_wait_retries_until_alive(bridge, observed, fewer);
        let failed = retries(fewer).push(Event::Probed(false));
        lemma_after_push(bridge, retries(fewer), Event::Probed(false));
        lemma_after_push(bridge, failed, Event::RetryElapsed);
        assert(bridge.link.after_failures(failures) == bridge.link.after_failures(fewer).probed(
            false,
        ));
    }
}

/// The target is resolved again exactly when the layout changed. If the
/// mixer reports the layout under which the cached target was resolved, the
/// bridge writes to that target at once and lists nothing. If it reports
/// another layout, or no target is cached yet, the bridge forgets the target
/// and starts one listing at position zero.
pub proof fn law_resolves_on_topology_change(
    bridge: BridgeView,
    observed: Observation,
    topology: TopologyFingerprint,
)
    requires
        bridge.phase matches Phase::ReadingTopology { observed: held, .. } && held == observed,
    ensures
        bridge.link.resolved_under(topology) ==> {
            &&& bridge.next(Event::Topology(topology)).link == bridge.link
            &&& bridge.next(Event::Topology(topology)).pending() == (Action::Write {
                target: bridge.link.target->0,
                gain: gain_of(observed),
            })
        },
        !bridge.link.resolved_under(topology) ==> {
            &&& bridge.next(Event::Topology(topology)).pending() == (Action::ReadChannel {
                index: 0,
            })
            &&& bridge.next(Event::Topology(topology)).phase == (Phase::Resolving {
                observed,
                topology,
            })
            &&& bridge.next(Event::Topology(topology)).link == bridge.link.topology_seen(
                topology,
            ).listing_begun()
        },
{
}

/// A listing walks the channels by position until the first position without
/// a channel: after the answers for the channels of `flags` the bridge asks
/// for position `flags.len()`, and when the mixer then answers that no
/// channel is there, the bridge writes to the first virtual input of `flags`,
/// resolved under the layout of the listing, or stops if `flags` holds none.
pub proof fn law_listing_resolves_first_virtual_input(
    bridge: BridgeView,
    observed: Observation,
    topology: TopologyFingerprint,
    flags: Seq<bool>,
)
    requires
        bridge.phase == (Phase::Resolving { observed, topology }),
        bridge.link.listing.len() == 0,
        flags.len() <= usize::MAX,
    ensures
        bridge.after(answers(flags)).phase == bridge.phase,
        bridge.after(answers(flags)).link == bridge.link.listed_all(flags),
        bridge.after(answers(flags)).link.listing == flags,
        bridge.after(answers(flags)).pending() == (Action::ReadChannel {
            index: flags.len() as usize,
        }),
        bridge.after(answers(flags).push(Event::Channel(None))).link.listing == flags,
        forall|at: int| #[trigger]
            is_first_virtual(flags, at) ==> {
                let target = TargetHandle { index: at as usize, topology };
                &&& bridge.after(answers(flags).push(Event::Channel(None))).pending()
                    == (Action::Write { target, gain: gain_of(observed) })
                &&& bridge.after(answers(flags).push(Event::Channel(None))).link.target == Some(
                    target,
                )
            },
        no_virtual(flags) ==> bridge.after(answers(flags).push(Event::Channel(None))).pending()
            == Action::Stop(StopReason::NoVirtualTarget),
    decreases flags.len(),
{
    let run = answers(flags);
    lemma_after_push(bridge, run, Event::Channel(None));
    lemma_first_virtual(flags);
    assert(bridge.link.listing + flags =~= flags);
    if flags.len() == 0 {
        assert(bridge.after(run) == bridge);
        assert(flags =~= Seq::<bool>::empty());
    } else {
        let fewer = flags.drop_last();
        law_listing_resolves_first_virtual_input(bridge, observed, topology, fewer);
        assert(run =~= answers(fewer).push(Event::Channel(Some(flags.last()))));
        lemma_after_push(bridge, answers(fewer), Event::Channel(Some(flags.last())));
        law_listing_is_what_was_listed(bridge.link, fewer, flags.last());
        assert(fewer.push(flags.last()) =~= flags);
    }
}

/// What is written is a gain of the curve: inside `[-60.0, 0.0]` dB for every
/// observation, at the floor for every muted state and for volume zero, and
/// at 0.0 dB for an unmuted state at full volume.
pub proof fn law_written_gain_is_on_the_curve(observed: Observation)
    ensures
        gain_of(observed)@ == curve_bits(observed.state@, observed.eased),
        is_gain(gain_of(observed)@),
        observed.state@.muted ==> gain_of(observed)@ == FLOOR,
        !observed.state@.muted && observed.state@.level == 0 ==> gain_of(observed)@ == FLOOR,
        !observed.state@.muted && observed.state@.level == UNIT ==> gain_of(observed)@ == UNITY,
{
    lemma_gain_by_view(gain_of(observed), gain_of(observed));
    law_curve_fixed_points(observed.state@, observed.eased);
}

} // verus!
