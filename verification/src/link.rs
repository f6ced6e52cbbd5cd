//! The link to the mixer: whether it is reachable, which channels it listed
//! last, and the target that was resolved from that listing.

use vstd::prelude::*;

verus! {

/// Identifies the channel layout that the mixer runs with. The value is
/// opaque: two fingerprints tell the same layout exactly when they are equal.
#[derive(Clone, Copy, Debug, PartialEq, Eq, Structural)]
pub struct TopologyFingerprint {
    pub code: u32,
}

/// One channel of the mixer, as the last listing showed it.
#[derive(Clone, Copy, Debug, PartialEq, Eq, Structural)]
pub struct Strip {
    /// Position of the channel in the listing, counted from zero.
    pub index: usize,
    /// Whether the channel is a virtual input.
    pub is_virtual: bool,
}

/// The gain parameter of one channel, valid for the layout it was resolved
/// under.
#[derive(Clone, Copy, Debug, PartialEq, Eq, Structural)]
pub struct TargetHandle {
    /// Position of the channel.
    pub index: usize,
    /// The layout under which the channel was found.
    pub topology: TopologyFingerprint,
}

/// Whether the mixer answered the last call.
#[derive(Clone, Copy, Debug, PartialEq, Eq, Structural)]
pub enum ConnectionState {
    Disconnected,
    Connected,
}

/// Why the mixer's client could not be initialised.
#[derive(Clone, Copy, Debug, PartialEq, Eq, Structural)]
pub enum InitializationError {
    /// The client library could not be loaded.
    LoadError,
    /// The login was refused.
    LoginError,
    /// The application has logged out before and cannot log in again.
    AlreadyLoggedOut,
    /// The kind of the running mixer could not be read.
    InformationError,
    /// A cause that this library has no name for.
    Unknown,
}

/// Error that can arise when creating a [`Link`].
#[derive(Clone, Copy, Debug, PartialEq, Eq, Structural)]
pub enum LinkCreationError {
    RemoteInit(InitializationError),
}

/// The listing holds no virtual input, so there is nothing to drive.
#[derive(Clone, Copy, Debug, PartialEq, Eq, Structural)]
pub struct NoVirtualTarget;

/// A write to the target was refused.
#[derive(Clone, Copy, Debug, PartialEq, Eq, Structural)]
pub struct SetParameterError;

/// What to do after one liveness probe.
#[derive(Clone, Copy, Debug, PartialEq, Eq, Structural)]
pub enum WaitStep {
    /// The mixer answered. `reconnected` tells that at least one probe of this
    /// wait had failed before.
    Ready { reconnected: bool },
    /// The mixer did not answer: probe again after the retry interval.
    /// `announce` is true for the first failure of a wait only.
    Retry { announce: bool },
}

/// Whether `at` is the position of the first virtual input of `listing`.
pub open spec fn is_first_virtual(listing: Seq<bool>, at: int) -> bool {
    &&& 0 <= at < listing.len()
    &&& listing[at]
    &&& forall|before: int| 0 <= before < at ==> !listing[before]
}

/// Whether `listing` holds no virtual input.
pub open spec fn no_virtual(listing: Seq<bool>) -> bool {
    forall|at: int| 0 <= at < listing.len() ==> !listing[at]
}

/// The position of the first virtual input of `listing`, if it has one.
pub open spec fn first_virtual(listing: Seq<bool>) -> Option<int> {
    if exists|at: int| is_first_virtual(listing, at) {
        Some(choose|at: int| is_first_virtual(listing, at))
    } else {
        None
    }
}

/// The channels of a listing, each with its position.
pub open spec fn strips_of(listing: Seq<bool>) -> Seq<Strip> {
    Seq::new(listing.len(), |at: int| Strip { index: at as usize, is_virtual: listing[at] })
}

/// The virtual inputs among the channels of a listing, in listing order.
pub open spec fn virtual_inputs_of(listing: Seq<bool>) -> Seq<Strip> {
    strips_of(listing).filter(|strip: Strip| strip.is_virtual)
}

/// What a [`Link`] holds.
pub struct LinkView {
    pub state: ConnectionState,
    /// Whether the current wait has announced itself already.
    pub announced: bool,
    /// The virtual-input flag of each channel of the last listing.
    pub listing: Seq<bool>,
    /// The resolved target, if one is cached.
    pub target: Option<TargetHandle>,
}

impl LinkView {
    /// A cached target is the first virtual input of the listing it came
    /// from, and only a disconnected link is in the middle of a wait.
    pub open spec fn wf(self) -> bool {
        &&& self.announced ==> self.state == ConnectionState::Disconnected
        &&& self.listing.len() <= usize::MAX
        &&& self.target matches Some(target) ==> is_first_virtual(
            self.listing,
            target.index as int,
        )
    }

    /// The link as it starts: disconnected, nothing listed, nothing resolved.
    pub open spec fn initial() -> LinkView {
        LinkView {
            state: ConnectionState::Disconnected,
            announced: false,
            listing: Seq::empty(),
            target: None,
        }
    }

    /// The link after a probe that came back with `alive`.
    pub open spec fn probed(self, alive: bool) -> LinkView {
        LinkView {
            state: if alive {
                ConnectionState::Connected
            } else {
                ConnectionState::Disconnected
            },
            announced: !alive,
            ..self
        }
    }

    /// What follows a probe that came back with `alive`.
    pub open spec fn wait_step(self, alive: bool) -> WaitStep {
        if alive {
            WaitStep::Ready { reconnected: self.announced }
        } else {
            WaitStep::Retry { announce: !self.announced }
        }
    }

    /// Whether the cached target was resolved under `topology`.
    pub open spec fn resolved_under(self, topology: TopologyFingerprint) -> bool {
        self.target matches Some(target) && target.topology == topology
    }

    /// The link after the mixer reported `topology`: a target that was
    /// resolved under another layout is forgotten.
    pub open spec fn topology_seen(self, topology: TopologyFingerprint) -> LinkView {
        if self.resolved_under(topology) {
            self
        } else {
            LinkView { target: None, ..self }
        }
    }

    /// The target that a listing under `topology` resolves to.
    pub open spec fn resolution(topology: TopologyFingerprint, listing: Seq<bool>) -> Option<
        TargetHandle,
    > {
        match first_virtual(listing) {
            Some(at) => Some(TargetHandle { index: at as usize, topology }),
            None => None,
        }
    }

    /// The link at the start of a listing: nothing listed, nothing resolved.
    pub open spec fn listing_begun(self) -> LinkView {
        LinkView { listing: Seq::empty(), target: None, ..self }
    }

    /// The link after the mixer answered for the next position with a
    /// channel that is a virtual input or not.
    pub open spec fn listed(self, is_virtual: bool) -> LinkView {
        LinkView { listing: self.listing.push(is_virtual), ..self }
    }

    /// The link after the channels of `flags` were listed, in order.
    pub open spec fn listed_all(self, flags: Seq<bool>) -> LinkView {
        LinkView { listing: self.listing + flags, ..self }
    }

    /// The link after the listing under `topology` came to its end: the
    /// target is the first virtual input that was listed.
    pub open spec fn resolved(self, topology: TopologyFingerprint) -> LinkView {
        LinkView { target: Self::resolution(topology, self.listing), ..self }
    }

    /// The link after a call into the mixer that succeeded or failed: a
    /// failure leaves it disconnected.
    pub open spec fn called(self, succeeded: bool) -> LinkView {
        if succeeded {
            self
        } else {
            LinkView { state: ConnectionState::Disconnected, announced: false, ..self }
        }
    }

    /// The link after `failures` probes in a row that found nobody.
    pub open spec fn after_failures(self, failures: nat) -> LinkView
        decreases failures,
    {
        if failures == 0 {
            self
        } else {
            self.after_failures((failures - 1) as nat).probed(false)
        }
    }
}

/// The link between the bridge and the mixer. It is made once, after the
/// login, and records what every later call into the mixer brought back.
///
/// A link starts consistent ([`LinkView::wf`]) and every method keeps it so.
#[derive(Debug)]
pub struct Link {
    state: ConnectionState,
    announced: bool,
    listing: Vec<bool>,
    target: Option<TargetHandle>,
}

impl View for Link {
    type V = LinkView;

    closed spec fn view(&self) -> LinkView {
        LinkView {
            state: self.state,
            announced: self.announced,
            listing: self.listing@,
            target: self.target,
        }
    }
}

impl Link {
    /// The link for a login that went as `login` tells: a link in its initial
    /// state after a successful login, and the login's error otherwise.
    pub fn new(login: Result<(), InitializationError>) -> (made: Result<Self, LinkCreationError>)
        ensures
            match login {
                Ok(_) => made matches Ok(link) && link@ == LinkView::initial() && link@.wf(),
                Err(error) => made matches Err(LinkCreationError::RemoteInit(cause)) && cause
                    == error,
            },
    {
        match login {
            Ok(_) => {
                let link = Link {
                    state: ConnectionState::Disconnected,
                    announced: false,
                    listing: Vec::new(),
                    target: None,
                };
                assert(link@.listing =~= Seq::<bool>::empty());
                Ok(link)
            },
            Err(error) => Err(LinkCreationError::RemoteInit(error)),
        }
    }

    /// Every channel of the last listing, in order.
    pub fn strips(&self) -> (strips: Vec<Strip>)
        ensures
            strips@ == strips_of(self@.listing),
    {
        let mut strips: Vec<Strip> = Vec::new();
        let mut at: usize = 0;
        while at < self.listing.len()
            invariant
                at <= self.listing.len(),
                strips@ == strips_of(self@.listing.take(at as int)),
            decreases self.listing.len() - at,
        {
            strips.push(Strip { index: at, is_virtual: self.listing[at] });
            proof {
                assert(strips@ =~= strips_of(self@.listing.take(at + 1)));
            }
            at += 1;
        }
        proof {
            assert(self@.listing.take(at as int) =~= self@.listing);
        }
        strips
    }

    /// The virtual inputs of the last listing, in order.
    pub fn virtual_inputs(&self) -> (inputs: Vec<Strip>)
        ensures
            inputs@ == virtual_inputs_of(self@.listing),
    {
        let all = self.strips();
        let ghost keep = |strip: Strip| strip.is_virtual;
        let mut inputs: Vec<Strip> = Vec::new();
        let mut at: usize = 0;
        proof {
            reveal(Seq::filter);
            assert(all@.take(0).filter(keep) =~= Seq::<Strip>::empty());
        }
        while at < all.len()
            invariant
                at <= all.len(),
                keep == |strip: Strip| strip.is_virtual,
                inputs@ == all@.take(at as int).filter(keep),
            decreases all.len() - at,
        {
            proof {
                reveal(Seq::filter);
                assert(all@.take(at + 1).drop_last() =~= all@.take(at as int));
            }
            if all[at].is_virtual {
                inputs.push(all[at]);
            }
            at += 1;
        }
        proof {
            assert(all@.take(at as int) =~= all@);
        }
        inputs
    }

    /// Whether the mixer answered the last call.
    pub fn is_currently_connected(&self) -> (connected: bool)
        ensures
            connected == (self@.state == ConnectionState::Connected),
    {
        self.state == ConnectionState::Connected
    }

    /// The connection state.
    pub fn connection(&self) -> (state: ConnectionState)
        ensures
            state == self@.state,
    {
        self.state
    }

    /// The cached target, if one is resolved.
    pub fn target(&self) -> (target: Option<TargetHandle>)
        ensures
            target == self@.target,
    {
        self.target
    }

    /// One step of waiting for the mixer: takes the result of a liveness
    /// probe and says whether the wait is over or the probe is to be repeated
    /// after the retry interval. A wait announces itself once, at its first
    /// failure.
    pub fn wait_for_connection(&mut self, alive: bool) -> (step: WaitStep)
        ensures
            final(self)@ == old(self)@.probed(alive),
            step == old(self)@.wait_step(alive),
            old(self)@.wf() ==> final(self)@.wf(),
    {
        let step = if alive {
            WaitStep::Ready { reconnected: self.announced }
        } else {
            WaitStep::Retry { announce: !self.announced }
        };
        if alive {
            self.announced = false;
            self.state = ConnectionState::Connected;
        } else {
            self.state = ConnectionState::Disconnected;
            self.announced = true;
        }
        step
    }

    /// Takes the layout that the mixer reports now. The cached target is
    /// returned if it was resolved under that layout; otherwise it is
    /// forgotten and `None` tells that the target has to be resolved again.
    pub fn current_topology(&mut self, reported: TopologyFingerprint) -> (valid: Option<
        TargetHandle,
    >)
        ensures
            final(self)@ == old(self)@.topology_seen(reported),
            valid == final(self)@.target,
            valid is Some <==> old(self)@.resolved_under(reported),
            old(self)@.wf() ==> final(self)@.wf(),
    {
        let keep = match self.target {
            Some(target) => target.topology == reported,
            None => false,
        };
        if !keep {
            self.target = None;
        }
        self.target
    }

    /// Starts a listing of the mixer's channels: what was listed and resolved
    /// before is forgotten. The first position to ask the mixer for is zero.
    pub fn begin_listing(&mut self)
        ensures
            final(self)@ == old(self)@.listing_begun(),
            old(self)@.wf() ==> final(self)@.wf(),
    {
        self.target = None;
        self.listing = Vec::new();
        proof {
            assert(self@.listing =~= Seq::<bool>::empty());
        }
    }

    /// Takes the mixer's answer for the next position: there is a channel,
    /// and it is a virtual input or not. Returns the position to ask for
    /// next. The listing ends at the first position without a channel, which
    /// [`Link::resolve_first_virtual_target`] takes.
    pub fn list_channel(&mut self, is_virtual: bool) -> (next: usize)
        ensures
            final(self)@ == old(self)@.listed(is_virtual),
            next == final(self)@.listing.len(),
            old(self)@.wf() ==> final(self)@.wf(),
    {
        self.listing.push(is_virtual);
        self.listing.len()
    }

    /// The position that the listing has reached: the next to ask for.
    pub fn listed(&self) -> (count: usize)
        ensures
            count == self@.listing.len(),
    {
        self.listing.len()
    }

    /// Ends the listing made under `topology` and resolves the target: the
    /// first virtual input among the listed channels, which the link then
    /// holds. That the listing ended is no error; a listing without a virtual
    /// input is, and leaves the link without a target.
    pub fn resolve_first_virtual_target(&mut self, topology: TopologyFingerprint) -> (resolved:
        Result<TargetHandle, NoVirtualTarget>)
        ensures
            final(self)@ == old(self)@.resolved(topology),
            match resolved {
                Ok(target) => {
                    &&& is_first_virtual(old(self)@.listing, target.index as int)
                    &&& target.topology == topology
                    &&& final(self)@.target == Some(target)
                },
                Err(_) => no_virtual(old(self)@.listing) && final(self)@.target is None,
            },
            old(self)@.wf() ==> final(self)@.wf(),
    {
        let mut at: usize = 0;
        let mut found: Option<TargetHandle> = None;
        while at < self.listing.len()
            invariant_except_break
                found is None,
            invariant
                at <= self.listing.len(),
                forall|before: int| 0 <= before < at ==> !self.listing@[before],
            ensures
                match found {
                    Some(target) => is_first_virtual(self.listing@, target.index as int)
                        && target.topology == topology,
                    None => no_virtual(self.listing@),
                },
            decreases self.listing.len() - at,
        {
            if self.listing[at] {
                found = Some(TargetHandle { index: at, topology });
                break ;
            }
            at += 1;
        }
        proof {
            lemma_first_virtual(self.listing@);
        }
        self.target = found;
        match found {
            Some(target) => Ok(target),
            None => Err(NoVirtualTarget),
        }
    }

    /// Takes the outcome of a write to the target. A refused write leaves the
    /// link disconnected; the target stays cached.
    pub fn set(&mut self, outcome: Result<(), SetParameterError>) -> (delivered: bool)
        ensures
            delivered == outcome is Ok,
            final(self)@ == old(self)@.called(outcome is Ok),
            old(self)@.wf() ==> final(self)@.wf(),
    {
        match outcome {
            Ok(_) => true,
            Err(_) => {
                self.state = ConnectionState::Disconnected;
                self.announced = false;
                false
            },
        }
    }
}

/// A listing has at most one first virtual input, and `first_virtual` names
/// it; a listing without one holds no virtual input at all.
pub proof fn lemma_first_virtual(listing: Seq<bool>)
    ensures
        forall|at: int| is_first_virtual(listing, at) ==> first_virtual(listing) == Some(at),
        first_virtual(listing) is None <==> no_virtual(listing),
        first_virtual(listing) matches Some(at) ==> is_first_virtual(listing, at),
{
    assert forall|at: int| is_first_virtual(listing, at) implies first_virtual(listing) == Some(
        at,
    ) by {
        let chosen = choose|other: int| is_first_virtual(listing, other);
        assert(is_first_virtual(listing, chosen));
        if chosen < at {
            assert(!listing[chosen]);
        }
        if at < chosen {
            assert(!listing[at]);
        }
    }
    if !no_virtual(listing) {
        lemma_some_first_virtual(listing, listing.len() as int);
    }
}

/// Among the first `upto` channels, either none is virtual or one of them is
/// the first virtual input.
proof fn lemma_some_first_virtual(listing: Seq<bool>, upto: int)
    requires
        0 <= upto <= listing.len(),
    ensures
        (forall|at: int| 0 <= at < upto ==> !listing[at]) || (exists|at: int|
            is_first_virtual(listing, at)),
    decreases upto,
{
    if upto > 0 {
        lemma_some_first_virtual(listing, upto - 1);
        if forall|at: int| 0 <= at < upto - 1 ==> !listing[at] {
            if listing[upto - 1] {
                assert(is_first_virtual(listing, upto - 1));
            }
        }
    }
}

/// Resolution picks the first of the virtual inputs: the resolved target is
/// the head of the list of virtual inputs, and there is none exactly when
/// that list is empty.
pub proof fn law_resolution_is_first_virtual_input(
    topology: TopologyFingerprint,
    listing: Seq<bool>,
)
    requires
        listing.len() <= usize::MAX,
    ensures
        match LinkView::resolution(topology, listing) {
            Some(target) => {
                &&& virtual_inputs_of(listing).len() > 0
                &&& virtual_inputs_of(listing)[0].index == target.index
                &&& target.topology == topology
            },
            None => virtual_inputs_of(listing).len() == 0,
        },
{
    lemma_first_virtual(listing);
    lemma_virtual_inputs_head(listing, listing.len() as int);
    assert(listing.take(listing.len() as int) =~= listing);
}

/// The virtual inputs among the first `upto` channels are none while no
/// virtual input was met, and begin with the first virtual input after it.
proof fn lemma_virtual_inputs_head(listing: Seq<bool>, upto: int)
    requires
        0 <= upto <= listing.len() <= usize::MAX,
    ensures
        (forall|at: int| 0 <= at < upto ==> !listing[at]) ==> virtual_inputs_of(
            listing.take(upto),
        ).len() == 0,
        forall|at: int|
            is_first_virtual(listing, at) && at < upto ==> virtual_inputs_of(
                listing.take(upto),
            ).len() > 0 && virtual_inputs_of(listing.take(upto))[0].index == at,
    decreases upto,
{
    reveal(Seq::filter);
    let keep = |strip: Strip| strip.is_virtual;
    if upto > 0 {
        lemma_virtual_inputs_head(listing, upto - 1);
        let shorter = strips_of(listing.take(upto - 1));
        let longer = strips_of(listing.take(upto));
        assert(longer.drop_last() =~= shorter);
        assert(longer.last() == Strip { index: (upto - 1) as usize, is_virtual: listing[upto - 1] });
        assert forall|at: int| is_first_virtual(listing, at) && at < upto implies virtual_inputs_of(
            listing.take(upto),
        ).len() > 0 && virtual_inputs_of(listing.take(upto))[0].index == at by {
            if at < upto - 1 {
                assert(shorter.filter(keep).len() > 0);
            } else {
                assert(forall|before: int| 0 <= before < upto - 1 ==> !listing[before]);
                assert(shorter.filter(keep).len() == 0);
            }
        }
    }
}

/// A wait announces itself once: after any number of failed probes in a row
/// the link is disconnected and has announced the wait, so a further failure
/// asks for a silent retry and a success reports the reconnection.
pub proof fn law_wait_announces_once(link: LinkView, failures: nat)
    requires
        failures > 0,
    ensures
        link.after_failures(failures).state == ConnectionState::Disconnected,
        link.after_failures(failures).announced,
        link.after_failures(failures).wait_step(false) == (WaitStep::Retry { announce: false }),
        link.after_failures(failures).wait_step(true) == (WaitStep::Ready { reconnected: true }),
        link.after_failures(failures).probed(true).state == ConnectionState::Connected,
        link.after_failures(failures).target == link.target,
        link.after_failures(failures).listing == link.listing,
    decreases failures,
{
    if failures > 1 {
        law_wait_announces_once(link, (failures - 1) as nat);
    } else {
        assert(link.after_failures(0) == link);
    }
}

/// The link's invariant holds at the start and after every step.
pub proof fn law_link_stays_consistent(
    link: LinkView,
    alive: bool,
    topology: TopologyFingerprint,
    is_virtual: bool,
    succeeded: bool,
)
    requires
        link.wf(),
    ensures
        LinkView::initial().wf(),
        link.probed(alive).wf(),
        link.topology_seen(topology).wf(),
        link.listing_begun().wf(),
        link.listing.len() < usize::MAX ==> link.listed(is_virtual).wf(),
        link.resolved(topology).wf(),
        link.called(succeeded).wf(),
{
    lemma_first_virtual(link.listing);
}

/// Listing channel after channel gives the whole listing: after a fresh
/// start and the channels of `flags`, the link holds exactly `flags`.
pub proof fn law_listing_is_what_was_listed(link: LinkView, flags: Seq<bool>, more: bool)
    ensures
        link.listing_begun().listed_all(flags).listing == flags,
        link.listed_all(Seq::empty()) == link,
        link.listed_all(flags).listed(more) == link.listed_all(flags.push(more)),
{
    assert(Seq::<bool>::empty() + flags =~= flags);
    assert(link.listing + Seq::<bool>::empty() =~= link.listing);
    assert((link.listing + flags).push(more) =~= link.listing + flags.push(more));
}

/// A target is re-resolved only when the layout changed: seeing the layout
/// under which the target was resolved keeps the target, and seeing any other
/// layout leaves none.
pub proof fn law_target_follows_topology(link: LinkView, topology: TopologyFingerprint)
    ensures
        link.resolved_under(topology) ==> link.topology_seen(topology) == link,
        !link.resolved_under(topology) ==> link.topology_seen(topology).target is None,
        link.topology_seen(topology).target matches Some(target) ==> target.topology == topology,
{
}

} // verus!
