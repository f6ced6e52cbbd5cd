//! The observed volume source: a deduplicating latest-value cell, the readers
//! that follow it, and the choice of the endpoint to observe.

use vstd::prelude::*;
use crate::volume::VolumeState;

verus! {

/// Why an observer could not be set up.
#[derive(Clone, Copy, Debug, PartialEq, Eq, Structural)]
pub enum ObserverError {
    /// No active output endpoint carries the wanted name.
    DeviceNotFound,
    /// The endpoint's volume control could not be activated.
    ActivationFailed,
    /// The change notification could not be registered.
    RegistrationFailed,
}

/// Whether `needle` stands in `hay` at position `at`.
pub open spec fn occurs_at(hay: Seq<char>, needle: Seq<char>, at: int) -> bool {
    &&& 0 <= at
    &&& at + needle.len() <= hay.len()
    &&& hay.subrange(at, at + needle.len()) == needle
}

/// Whether `needle` is a contiguous part of `hay`.
pub open spec fn is_substring(needle: Seq<char>, hay: Seq<char>) -> bool {
    exists|at: int| occurs_at(hay, needle, at)
}

/// The lowercase form of a text, as `str::to_lowercase` gives it.
pub uninterp spec fn lowercase_of(text: Seq<char>) -> Seq<char>;

/// Whether a description, already in lowercase, carries `name`. An endpoint
/// without a readable description never matches.
pub open spec fn carries(lowered: Option<String>, name: Seq<char>) -> bool {
    lowered matches Some(text) && is_substring(name, text@)
}

/// Whether a description carries `name` when case is ignored: the lowercase
/// form of the name is a contiguous part of the lowercase form of the
/// description.
pub open spec fn matches_name(description: Option<String>, name: Seq<char>) -> bool {
    description matches Some(text) && is_substring(lowercase_of(name), lowercase_of(text@))
}

/// Whether `found` is the position of the first description, among ones
/// already in lowercase, that carries `name`: `None` when none does.
pub open spec fn is_first_carrier(
    lowered: Seq<Option<String>>,
    name: Seq<char>,
    found: Option<usize>,
) -> bool {
    match found {
        Some(at) => {
            &&& at < lowered.len()
            &&& carries(lowered[at as int], name)
            &&& forall|before: int| 0 <= before < at ==> !carries(#[trigger] lowered[before], name)
        },
        None => forall|at: int| 0 <= at < lowered.len() ==> !carries(#[trigger] lowered[at], name),
    }
}

/// Whether `found` is the position of the first description that carries
/// `name` when case is ignored: `None` when none does.
pub open spec fn is_first_match(
    descriptions: Seq<Option<String>>,
    name: Seq<char>,
    found: Option<usize>,
) -> bool {
    match found {
        Some(at) => {
            &&& at < descriptions.len()
            &&& matches_name(descriptions[at as int], name)
            &&& forall|before: int|
                0 <= before < at ==> !matches_name(#[trigger] descriptions[before], name)
        },
        None => forall|at: int|
            0 <= at < descriptions.len() ==> !matches_name(#[trigger] descriptions[at], name),
    }
}

/// `str::to_lowercase`: the result is the lowercase form of the whole text,
/// which depends on the text alone.
#[verifier::external_body]
fn lowercase(text: &str) -> (lowered: String)
    ensures
        lowered@ == lowercase_of(text@),
{
    text.to_lowercase()
}

/// `str::contains` with a string pattern: true exactly when the pattern
/// equals some contiguous part of the text.
#[verifier::external_body]
fn has_substring(hay: &str, needle: &str) -> (found: bool)
    ensures
        found == is_substring(needle@, hay@),
{
    hay.contains(needle)
}

/// The position of the first description that carries `name`, among
/// descriptions that are already in lowercase.
pub fn first_carrying(lowered: &Vec<Option<String>>, name: &str) -> (found: Option<usize>)
    ensures
        is_first_carrier(lowered@, name@, found),
{
    let mut at: usize = 0;
    while at < lowered.len()
        invariant
            at <= lowered.len(),
            forall|before: int| 0 <= before < at ==> !carries(#[trigger] lowered[before], name@),
        decreases lowered.len() - at,
    {
        let hit = match &lowered[at] {
            Some(text) => has_substring(text.as_str(), name),
            None => false,
        };
        if hit {
            return Some(at);
        }
        at += 1;
    }
    None
}

/// The lowercase forms of the descriptions, place by place.
pub fn lowered_descriptions(descriptions: &Vec<Option<String>>) -> (lowered: Vec<Option<String>>)
    ensures
        lowered.len() == descriptions.len(),
        forall|at: int| 0 <= at < descriptions.len() ==> match descriptions[at] {
            Some(text) => (#[trigger] lowered[at]) matches Some(low) && low@ == lowercase_of(text@),
            None => lowered[at] is None,
        },
{
    let mut lowered: Vec<Option<String>> = Vec::new();
    let mut at: usize = 0;
    while at < descriptions.len()
        invariant
            at <= descriptions.len(),
            lowered.len() == at,
            forall|before: int| 0 <= before < at ==> match descriptions[before] {
                Some(text) => (#[trigger] lowered[before]) matches Some(low) && low@ == lowercase_of(text@),
                None => lowered[before] is None,
            },
        decreases descriptions.len() - at,
    {
        let entry = match &descriptions[at] {
            Some(text) => Some(lowercase(text.as_str())),
            None => None,
        };
        lowered.push(entry);
        at += 1;
    }
    lowered
}

/// What a [`VolumeObserver`] holds.
pub struct ObserverView {
    /// The latest published state.
    pub current: VolumeState,
}

/// What a [`VolumeReader`] holds.
pub struct ReaderView {
    /// The state that the reader returned last, if it has returned any.
    pub last: Option<VolumeState>,
}

impl ObserverView {
    /// The cell after a notification of `state`: it holds `state`.
    pub open spec fn published(self, state: VolumeState) -> ObserverView {
        ObserverView { current: state }
    }

    /// Whether a notification of `state` wakes the readers: only when it
    /// differs from what the cell holds.
    pub open spec fn wakes(self, state: VolumeState) -> bool {
        self.current != state
    }

    /// The cell after the notifications of `states`, in order.
    pub open spec fn published_all(self, states: Seq<VolumeState>) -> ObserverView
        decreases states.len(),
    {
        if states.len() == 0 {
            self
        } else {
            self.published_all(states.drop_last()).published(states.last())
        }
    }

    /// How many of the notifications of `states`, in order, wake the readers.
    pub open spec fn wakeups(self, states: Seq<VolumeState>) -> nat
        decreases states.len(),
    {
        if states.len() == 0 {
            0
        } else {
            let before = self.published_all(states.drop_last());
            let woke: nat = if before.wakes(states.last()) { 1 } else { 0 };
            self.wakeups(states.drop_last()) + woke
        }
    }
}

impl ReaderView {
    /// What the reader's next read returns from a cell: the cell's state, if
    /// the reader has returned nothing yet or returned another state last.
    pub open spec fn reads(self, cell: ObserverView) -> Option<VolumeState> {
        if self.last == Some(cell.current) {
            None
        } else {
            Some(cell.current)
        }
    }

    /// The reader after that read: it remembers the cell's state.
    pub open spec fn after_read(self, cell: ObserverView) -> ReaderView {
        ReaderView { last: Some(cell.current) }
    }
}

/// The latest-value cell of one endpoint: a single slot that each
/// notification overwrites, and that tells a notification which changes the
/// state from one which repeats it.
#[derive(Debug)]
pub struct VolumeObserver {
    current: VolumeState,
}

/// One consumer of a [`VolumeObserver`], which remembers what it saw last.
#[derive(Clone, Copy, Debug)]
pub struct VolumeReader {
    last: Option<VolumeState>,
}

impl View for VolumeObserver {
    type V = ObserverView;

    closed spec fn view(&self) -> ObserverView {
        ObserverView { current: self.current }
    }
}

impl View for VolumeReader {
    type V = ReaderView;

    closed spec fn view(&self) -> ReaderView {
        ReaderView { last: self.last }
    }
}

impl VolumeObserver {
    /// A cell that holds the endpoint's state as it was read at start.
    pub fn new(initial: VolumeState) -> (observer: Self)
        ensures
            observer@.current == initial,
    {
        VolumeObserver { current: initial }
    }

    /// The position of the first endpoint whose description contains `name`,
    /// case ignored on both sides; `None` when no description does. Endpoints
    /// without a readable description are passed over.
    pub fn find_system_device_by_name(name: &str, descriptions: &Vec<Option<String>>) -> (found:
        Option<usize>)
        ensures
            is_first_match(descriptions@, name@, found),
    {
        let lowered = lowered_descriptions(descriptions);
        let folded = lowercase(name);
        let found = first_carrying(&lowered, folded.as_str());
        proof {
            assert forall|at: int| 0 <= at < descriptions.len() implies carries(
                lowered[at],
                folded@,
            ) == matches_name(#[trigger] descriptions[at], name@) by {
                assert(lowered[at] is Some <==> descriptions[at] is Some);
            }
        }
        found
    }

    /// The endpoint to observe for `name`, matched with case ignored, or
    /// `DeviceNotFound` when no description matches.
    pub fn select_device(name: &str, descriptions: &Vec<Option<String>>) -> (chosen: Result<
        usize,
        ObserverError,
    >)
        ensures
            match chosen {
                Ok(at) => is_first_match(descriptions@, name@, Some(at)),
                Err(error) => error == ObserverError::DeviceNotFound && is_first_match(
                    descriptions@,
                    name@,
                    None,
                ),
            },
    {
        match Self::find_system_device_by_name(name, descriptions) {
            Some(at) => Ok(at),
            None => Err(ObserverError::DeviceNotFound),
        }
    }

    /// The latest published state.
    pub fn current(&self) -> (state: VolumeState)
        ensures
            state == self@.current,
    {
        self.current
    }

    /// Takes one notification: stores `state` and says whether the readers
    /// are to be woken, which is so only when `state` differs from the state
    /// held before. A notification that repeats the held state changes
    /// nothing.
    pub fn publish(&mut self, state: VolumeState) -> (woke: bool)
        ensures
            final(self)@ == old(self)@.published(state),
            woke == old(self)@.wakes(state),
    {
        if self.current != state {
            self.current = state;
            true
        } else {
            false
        }
    }

    /// A new reader, which has seen nothing yet: its first read returns the
    /// current state without waiting for a change.
    pub fn subscribe(&self) -> (reader: VolumeReader)
        ensures
            reader@.last is None,
    {
        VolumeReader { last: None }
    }
}

impl VolumeReader {
    /// The state that the reader returned last.
    pub fn last_seen(&self) -> (last: Option<VolumeState>)
        ensures
            last == self@.last,
    {
        self.last
    }

    /// One read of the cell: `Some` with the cell's state when it differs from
    /// the state this reader returned last, or when the reader has returned
    /// none yet; `None` when there is nothing new, in which case the caller
    /// waits for the next wake-up.
    pub fn next_changed(&mut self, source: &VolumeObserver) -> (seen: Option<VolumeState>)
        ensures
            seen == old(self)@.reads(source@),
            final(self)@ == old(self)@.after_read(source@),
    {
        let current = source.current();
        let fresh = match self.last {
            Some(last) => last != current,
            None => true,
        };
        self.last = Some(current);
        if fresh {
            Some(current)
        } else {
            None
        }
    }
}

/// Deduplication: a notification that repeats the state just published wakes
/// nobody and leaves the cell as it is.
pub proof fn law_repeat_is_silent(cell: ObserverView, state: VolumeState)
    ensures
        !cell.published(state).wakes(state),
        cell.published(state).published(state) == cell.published(state),
        !cell.wakes(state) ==> cell.published(state) == cell,
{
}

/// Latest value wins: after any run of notifications the cell holds the last
/// of them, whatever came before, and the run woke the readers at most once
/// per notification.
pub proof fn law_latest_wins(cell: ObserverView, states: Seq<VolumeState>)
    ensures
        states.len() > 0 ==> cell.published_all(states).current == states.last(),
        states.len() == 0 ==> cell.published_all(states) == cell,
        cell.wakeups(states) <= states.len(),
    decreases states.len(),
{
    if states.len() > 0 {
        law_latest_wins(cell, states.drop_last());
    }
}

/// A run of notifications that all repeat the held state wakes nobody.
pub proof fn law_burst_is_silent(cell: ObserverView, states: Seq<VolumeState>)
    requires
        forall|at: int| 0 <= at < states.len() ==> states[at] == cell.current,
    ensures
        cell.wakeups(states) == 0,
        cell.published_all(states) == cell,
    decreases states.len(),
{
    if states.len() > 0 {
        law_burst_is_silent(cell, states.drop_last());
    }
}

/// A reader that has returned nothing yet gets the current state at once, and
/// a second read of an unchanged cell gets nothing.
pub proof fn law_first_read_is_current(reader: ReaderView, cell: ObserverView)
    ensures
        reader.last is None ==> reader.reads(cell) == Some(cell.current),
        reader.after_read(cell).reads(cell) is None,
{
}

/// Intermediate states are dropped: after any run of notifications a read
/// returns only the last of them, and only if the reader did not return that
/// very state last.
pub proof fn law_reader_sees_latest(
    reader: ReaderView,
    cell: ObserverView,
    states: Seq<VolumeState>,
)
    requires
        states.len() > 0,
    ensures
        reader.reads(cell.published_all(states)) == if reader.last == Some(states.last()) {
            None
        } else {
            Some(states.last())
        },
{
    law_latest_wins(cell, states);
}

} // verus!
