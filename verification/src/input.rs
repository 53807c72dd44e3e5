use vstd::prelude::*;
use crate::config::{InputConfig, Interval};
use crate::error::Error;
use crate::outputs::{
    spec_all_dated, spec_delivers, Delivery, Entry, Output, RawEntry, Timestamp,
};

verus! {

/// Seconds between two polls of a feed that configures no interval.
pub const DEFAULT_INTERVAL: u64 = 1800;

/// Most entries that the first poll hands out when the watcher was built
/// to notify on its first poll.
pub const FIRST_POLL_ENTRIES: usize = 3;

/// Where a watcher stands in its cycle.
#[derive(Clone, Copy, Debug, PartialEq, Eq, Structural)]
pub enum Phase {
    /// Waiting for the next tick or for shutdown.
    Idle,
    /// A fetch is under way.
    Fetching,
    /// New entries are being delivered to the sinks.
    Dispatching,
    /// The watcher has ended, cleanly or with an error.
    Stopped,
}

/// What happened outside the watcher.
#[derive(Debug, PartialEq, Eq)]
pub enum Event {
    /// Shutdown was requested.
    Shutdown,
    /// The poll interval elapsed.
    Tick,
    /// The feed was fetched; its items come newest first.
    Fetched(Vec<RawEntry>),
    /// The fetch failed.
    FetchFailed(Error),
    /// Every sink took the new entries.
    Delivered,
    /// A sink refused the new entries.
    DeliveryFailed(Error),
}

/// What the watcher wants done next.
#[derive(Debug, PartialEq, Eq)]
pub enum Action {
    /// Wait for the next tick or for shutdown.
    Wait,
    /// Fetch the feed.
    Fetch,
    /// Deliver these items, newest first, to every sink. There is at least
    /// one, and each carries a publish timestamp.
    Dispatch(Vec<RawEntry>),
    /// End the watcher: it was shut down.
    Finish,
    /// End the watcher with this error.
    Fail(Error),
    /// Nothing: the event does not belong to the current phase.
    Ignore,
}

/// An [`Action`] as mathematical values.
pub enum Outcome {
    Wait,
    Fetch,
    Dispatch(Seq<RawEntry>),
    Finish,
    Fail(Error),
    Ignore,
}

impl View for Action {
    type V = Outcome;

    open spec fn view(&self) -> Outcome {
        match self {
            Action::Wait => Outcome::Wait,
            Action::Fetch => Outcome::Fetch,
            Action::Dispatch(items) => Outcome::Dispatch(items@),
            Action::Finish => Outcome::Finish,
            Action::Fail(error) => Outcome::Fail(*error),
            Action::Ignore => Outcome::Ignore,
        }
    }
}

/// The state of one watcher.
pub struct WatcherState {
    pub phase: Phase,
    /// Transient failures tolerated in a row.
    pub retry_limit: usize,
    /// How many of them are still tolerated.
    pub retries_left: usize,
    /// Publish timestamp of the newest entry seen so far.
    pub last_date: Option<Timestamp>,
    /// Timestamp that becomes the last seen once the delivery under way
    /// has succeeded.
    pub pending: Option<Timestamp>,
    /// Whether a first poll hands out entries instead of only recording
    /// the newest timestamp.
    pub notify_first_poll: bool,
}

/// Whether an item published at `published` is newer than `last`. An item
/// without a timestamp never is.
pub open spec fn is_newer(published: Option<Timestamp>, last: Timestamp) -> bool {
    match published {
        Some(time) => time.is_after(last),
        None => false,
    }
}

/// Whether the first `n` items are newer than `last` and the one after
/// them, if there is one, is not.
pub open spec fn is_new_prefix(items: Seq<RawEntry>, last: Timestamp, n: int) -> bool {
    &&& 0 <= n <= items.len()
    &&& forall|i: int| 0 <= i < n ==> is_newer((#[trigger] items[i]).published, last)
    &&& n < items.len() ==> !is_newer(items[n].published, last)
}

/// Length of the longest prefix of the first `k` items in which every item
/// is newer than `last`.
pub open spec fn spec_new_count_upto(items: Seq<RawEntry>, last: Timestamp, k: nat) -> nat
    decreases k,
{
    if k == 0 || k > items.len() {
        0
    } else {
        let before = spec_new_count_upto(items, last, (k - 1) as nat);
        if before == k - 1 && is_newer(items[k - 1].published, last) {
            k
        } else {
            before
        }
    }
}

/// Number of new items: the length of the longest prefix of `items` in
/// which every item is newer than `last`.
pub open spec fn spec_new_count(items: Seq<RawEntry>, last: Timestamp) -> nat {
    spec_new_count_upto(items, last, items.len())
}

/// The items that carry a publish timestamp, in their order.
pub open spec fn spec_dated(items: Seq<RawEntry>) -> Seq<RawEntry>
    decreases items.len(),
{
    if items.len() == 0 {
        Seq::empty()
    } else if items[0].published is Some {
        seq![items[0]] + spec_dated(items.drop_first())
    } else {
        spec_dated(items.drop_first())
    }
}

/// The items of a fetched list that are handed out for delivery. With a
/// last-seen timestamp these are the new items. Without one, none are,
/// unless the watcher notifies on its first poll: then those of the first
/// three items that carry a publish timestamp are.
pub open spec fn spec_handed_out(state: WatcherState, items: Seq<RawEntry>) -> Seq<RawEntry> {
    match state.last_date {
        Some(last) => items.take(spec_new_count(items, last) as int),
        None => if state.notify_first_poll {
            spec_dated(
                items.take(
                    if items.len() < 3 {
                        items.len() as int
                    } else {
                        3
                    },
                ),
            )
        } else {
            Seq::empty()
        },
    }
}

/// The state after an event.
pub open spec fn spec_step(state: WatcherState, event: Event) -> WatcherState {
    match (state.phase, event) {
        (Phase::Idle, Event::Shutdown) => WatcherState { phase: Phase::Stopped, ..state },
        (Phase::Idle, Event::Tick) => WatcherState { phase: Phase::Fetching, ..state },
        (Phase::Fetching, Event::Fetched(items)) => {
            if items@.len() == 0 {
                WatcherState { phase: Phase::Idle, ..state }
            } else if spec_handed_out(state, items@).len() > 0 {
                WatcherState {
                    phase: Phase::Dispatching,
                    pending: spec_handed_out(state, items@)[0].published,
                    retries_left: state.retry_limit,
                    ..state
                }
            } else if state.last_date is None {
                WatcherState {
                    phase: Phase::Idle,
                    last_date: items@[0].published,
                    retries_left: state.retry_limit,
                    ..state
                }
            } else {
                WatcherState { phase: Phase::Idle, retries_left: state.retry_limit, ..state }
            }
        },
        (Phase::Fetching, Event::FetchFailed(error)) => {
            if error.spec_is_transient() && state.retries_left > 0 {
                WatcherState {
                    phase: Phase::Idle,
                    retries_left: (state.retries_left - 1) as usize,
                    ..state
                }
            } else {
                WatcherState { phase: Phase::Stopped, ..state }
            }
        },
        (Phase::Dispatching, Event::Delivered) => WatcherState {
            phase: Phase::Idle,
            last_date: state.pending,
            retries_left: state.retry_limit,
            ..state
        },
        (Phase::Dispatching, Event::DeliveryFailed(_)) => WatcherState {
            phase: Phase::Stopped,
            ..state
        },
        _ => state,
    }
}

/// What the watcher asks for after an event.
pub open spec fn spec_action(state: WatcherState, event: Event) -> Outcome {
    match (state.phase, event) {
        (Phase::Idle, Event::Shutdown) => Outcome::Finish,
        (Phase::Idle, Event::Tick) => Outcome::Fetch,
        (Phase::Fetching, Event::Fetched(items)) => {
            if spec_handed_out(state, items@).len() > 0 {
                Outcome::Dispatch(spec_handed_out(state, items@))
            } else {
                Outcome::Wait
            }
        },
        (Phase::Fetching, Event::FetchFailed(error)) => {
            if error.spec_is_transient() && state.retries_left > 0 {
                Outcome::Wait
            } else {
                Outcome::Fail(error)
            }
        },
        (Phase::Dispatching, Event::Delivered) => Outcome::Wait,
        (Phase::Dispatching, Event::DeliveryFailed(error)) => Outcome::Fail(error),
        _ => Outcome::Ignore,
    }
}

/// The prefix counted by [`spec_new_count_upto`] is a prefix of new items
/// that cannot be extended within the first `k` items.
pub proof fn lemma_new_count_upto(items: Seq<RawEntry>, last: Timestamp, k: nat)
    requires
        k <= items.len(),
    ensures
        spec_new_count_upto(items, last, k) <= k,
        forall|i: int|
            0 <= i < spec_new_count_upto(items, last, k) ==> is_newer(
                (#[trigger] items[i]).published,
                last,
            ),
        spec_new_count_upto(items, last, k) < k ==> !is_newer(
            items[spec_new_count_upto(items, last, k) as int].published,
            last,
        ),
    decreases k,
{
    if k > 0 {
        lemma_new_count_upto(items, last, (k - 1) as nat);
    }
}

/// Whether a failed fetch is worth another attempt: only a request that
/// timed out or could not connect is.
pub fn is_retriable(err: &Error) -> (r: bool)
    ensures
        r == err.spec_is_transient(),
{
    match err {
        Error::Request { timeout, connect, .. } => *timeout || *connect,
        _ => false,
    }
}

/// Counts the new items of a fetched list.
pub fn count_new(items: &Vec<RawEntry>, last: Timestamp) -> (r: usize)
    ensures
        r == spec_new_count(items@, last),
        is_new_prefix(items@, last, r as int),
{
    let mut n: usize = 0;
    let mut scanning = true;
    while scanning && n < items.len()
        invariant
            n <= items@.len(),
            forall|i: int| 0 <= i < n ==> is_newer((#[trigger] items@[i]).published, last),
            !scanning ==> n < items@.len() && !is_newer(items@[n as int].published, last),
        decreases items@.len() - n + (if scanning { 1int } else { 0int }),
    {
        let newer = match items[n].published {
            Some(time) => time.gt(&last),
            None => false,
        };
        if newer {
            n = n + 1;
        } else {
            scanning = false;
        }
    }
    proof {
        lemma_new_count_upto(items@, last, items@.len());
    }
    n
}

/// Every item that [`spec_dated`] keeps carries a publish timestamp, and a
/// list in which every item does is kept whole.
pub proof fn lemma_dated(items: Seq<RawEntry>)
    ensures
        spec_dated(items).len() <= items.len(),
        forall|i: int|
            0 <= i < spec_dated(items).len() ==> (#[trigger] spec_dated(items)[i]).published is Some,
        (forall|i: int| 0 <= i < items.len() ==> (#[trigger] items[i]).published is Some)
            ==> spec_dated(items) == items,
    decreases items.len(),
{
    if items.len() > 0 {
        lemma_dated(items.drop_first());
    }
}

/// Drops the items that carry no publish timestamp and keeps the others in
/// their order.
pub fn keep_dated(items: &mut Vec<RawEntry>)
    ensures
        final(items)@ == spec_dated(old(items)@),
{
    let mut i: usize = 0;
    assert(items@.take(0) + spec_dated(items@.skip(0)) == spec_dated(items@)) by {
        assert(items@.skip(0) == items@);
    }
    while i < items.len()
        invariant
            i <= items@.len(),
            spec_dated(old(items)@) == items@.take(i as int) + spec_dated(items@.skip(i as int)),
        decreases items@.len() - i,
    {
        let ghost before = items@;
        assert(before.skip(i as int).drop_first() == before.skip(i + 1));
        if items[i].published.is_some() {
            assert(before.take(i as int) + (seq![before[i as int]] + spec_dated(
                before.skip(i + 1),
            )) == before.take(i + 1) + spec_dated(before.skip(i + 1)));
            i = i + 1;
        } else {
            let _ = items.remove(i);
            assert(items@.skip(i as int) == before.skip(i + 1));
        }
    }
}

/// Which event a wake-up stands for. Shutdown wins over a tick that is
/// ready at the same time.
pub fn wake(shutdown: bool, tick: bool) -> (r: Option<Event>)
    ensures
        shutdown ==> r == Some(Event::Shutdown),
        !shutdown && tick ==> r == Some(Event::Tick),
        !shutdown && !tick ==> r.is_none(),
{
    if shutdown {
        Some(Event::Shutdown)
    } else if tick {
        Some(Event::Tick)
    } else {
        None
    }
}

/// The watcher of one feed.
#[derive(Debug, PartialEq, Eq)]
pub struct Input {
    name: String,
    url: String,
    interval: Interval,
    retry_limit: usize,
    retries_left: usize,
    last_date: Option<Timestamp>,
    pending: Option<Timestamp>,
    phase: Phase,
    notify_first_poll: bool,
    outputs: Vec<Output>,
}

impl View for Input {
    type V = WatcherState;

    closed spec fn view(&self) -> WatcherState {
        WatcherState {
            phase: self.phase,
            retry_limit: self.retry_limit,
            retries_left: self.retries_left,
            last_date: self.last_date,
            pending: self.pending,
            notify_first_poll: self.notify_first_poll,
        }
    }
}

impl Input {
    /// The feed's name.
    pub closed spec fn spec_name(&self) -> String {
        self.name
    }

    /// The feed's address.
    pub closed spec fn spec_url(&self) -> String {
        self.url
    }

    /// Seconds between two polls.
    pub closed spec fn spec_interval(&self) -> Interval {
        self.interval
    }

    /// The sinks of this feed, in the order in which they are notified.
    pub closed spec fn spec_outputs(&self) -> Seq<Output> {
        self.outputs@
    }

    /// A watcher that has not polled yet: idle, with its whole retry budget
    /// and no last-seen timestamp. It only records the newest timestamp on
    /// its first poll.
    pub fn new(name: String, config: InputConfig, outputs: Vec<Output>) -> (r: Self)
        ensures
            r.spec_name() == name,
            r.spec_url() == config.url,
            r.spec_interval() == match config.interval {
                Some(interval) => interval,
                None => (Interval { secs: DEFAULT_INTERVAL, nanos: 0 }),
            },
            r.spec_outputs() == outputs@,
            r@ == (WatcherState {
                phase: Phase::Idle,
                retry_limit: config.retry_limit,
                retries_left: config.retry_limit,
                last_date: None,
                pending: None,
                notify_first_poll: false,
            }),
    {
        let interval = match config.interval {
            Some(interval) => interval,
            None => Interval { secs: DEFAULT_INTERVAL, nanos: 0 },
        };
        Self {
            name,
            url: config.url,
            interval,
            retry_limit: config.retry_limit,
            retries_left: config.retry_limit,
            last_date: None,
            pending: None,
            phase: Phase::Idle,
            notify_first_poll: false,
            outputs,
        }
    }

    /// Chooses whether the first poll hands out those of the newest three
    /// entries that carry a publish timestamp, instead of only recording the
    /// newest timestamp.
    pub fn with_first_poll_notification(self, enabled: bool) -> (r: Self)
        ensures
            r.spec_name() == self.spec_name(),
            r.spec_url() == self.spec_url(),
            r.spec_interval() == self.spec_interval(),
            r.spec_outputs() == self.spec_outputs(),
            r@ == (WatcherState { notify_first_poll: enabled, ..self@ }),
    {
        let mut watcher = self;
        watcher.notify_first_poll = enabled;
        watcher
    }

    pub fn name(&self) -> (r: &String)
        ensures
            *r == self.spec_name(),
    {
        &self.name
    }

    pub fn url(&self) -> (r: &String)
        ensures
            *r == self.spec_url(),
    {
        &self.url
    }

    pub fn interval(&self) -> (r: Interval)
        ensures
            r == self.spec_interval(),
    {
        self.interval
    }

    pub fn outputs(&self) -> (r: &Vec<Output>)
        ensures
            r@ == self.spec_outputs(),
    {
        &self.outputs
    }

    pub fn phase(&self) -> (r: Phase)
        ensures
            r == self@.phase,
    {
        self.phase
    }

    pub fn retries_left(&self) -> (r: usize)
        ensures
            r == self@.retries_left,
    {
        self.retries_left
    }

    pub fn retry_limit(&self) -> (r: usize)
        ensures
            r == self@.retry_limit,
    {
        self.retry_limit
    }

    pub fn last_date(&self) -> (r: Option<Timestamp>)
        ensures
            r == self@.last_date,
    {
        self.last_date
    }

    /// Takes one event and says what to do next.
    ///
    /// An idle watcher stops on shutdown and starts a fetch on a tick. A
    /// fetched list that is not empty restores the whole retry budget. It is
    /// compared with the last-seen timestamp: its new items are handed out
    /// for delivery, each with a publish timestamp, and the newest of their
    /// timestamps is recorded once they are delivered. A transient fetch
    /// failure costs one retry while any is left; every other failure, of a
    /// fetch or of a delivery, ends the watcher. An event that does not
    /// belong to the current phase changes nothing.
    pub fn watch(&mut self, event: Event) -> (action: Action)
        ensures
            final(self)@ == spec_step(old(self)@, event),
            action@ == spec_action(old(self)@, event),
            match action {
                Action::Dispatch(items) => items@.len() > 0 && spec_all_dated(items@),
                _ => true,
            },
            final(self).spec_name() == old(self).spec_name(),
            final(self).spec_url() == old(self).spec_url(),
            final(self).spec_interval() == old(self).spec_interval(),
            final(self).spec_outputs() == old(self).spec_outputs(),
    {
        match self.phase {
            Phase::Idle => match event {
                Event::Shutdown => {
                    self.phase = Phase::Stopped;
                    Action::Finish
                },
                Event::Tick => {
                    self.phase = Phase::Fetching;
                    Action::Fetch
                },
                _ => Action::Ignore,
            },
            Phase::Fetching => match event {
                Event::Fetched(items) => self.on_fetched(items),
                Event::FetchFailed(error) => {
                    if is_retriable(&error) && self.retries_left > 0 {
                        self.retries_left = self.retries_left - 1;
                        self.phase = Phase::Idle;
                        Action::Wait
                    } else {
                        self.phase = Phase::Stopped;
                        Action::Fail(error)
                    }
                },
                _ => Action::Ignore,
            },
            Phase::Dispatching => match event {
                Event::Delivered => {
                    self.last_date = self.pending;
                    self.retries_left = self.retry_limit;
                    self.phase = Phase::Idle;
                    Action::Wait
                },
                Event::DeliveryFailed(error) => {
                    self.phase = Phase::Stopped;
                    Action::Fail(error)
                },
                _ => Action::Ignore,
            },
            Phase::Stopped => Action::Ignore,
        }
    }

    fn on_fetched(&mut self, items: Vec<RawEntry>) -> (action: Action)
        requires
            old(self)@.phase == Phase::Fetching,
        ensures
            final(self)@ == spec_step(old(self)@, Event::Fetched(items)),
            action@ == spec_action(old(self)@, Event::Fetched(items)),
            match action {
                Action::Dispatch(items) => items@.len() > 0 && spec_all_dated(items@),
                _ => true,
            },
            final(self).spec_name() == old(self).spec_name(),
            final(self).spec_url() == old(self).spec_url(),
            final(self).spec_interval() == old(self).spec_interval(),
            final(self).spec_outputs() == old(self).spec_outputs(),
    {
        let mut items = items;
        if items.len() == 0 {
            self.phase = Phase::Idle;
            return Action::Wait;
        }
        let newest = items[0].published;
        let ghost fetched = items@;
        match self.last_date {
            Some(last) => {
                let fresh = count_new(&items, last);
                items.truncate(fresh);
            },
            None => {
                if self.notify_first_poll {
                    items.truncate(FIRST_POLL_ENTRIES);
                    assert(fetched.len() < 3 ==> fetched.take(fetched.len() as int) == fetched);
                    keep_dated(&mut items);
                } else {
                    items.truncate(0);
                }
            },
        }
        proof {
            law_handed_out_items_carry_timestamps(old(self)@, fetched);
        }
        self.retries_left = self.retry_limit;
        if items.len() > 0 {
            self.pending = items[0].published;
            self.phase = Phase::Dispatching;
            Action::Dispatch(items)
        } else {
            if self.last_date.is_none() {
                self.last_date = newest;
            }
            self.phase = Phase::Idle;
            Action::Wait
        }
    }

    /// Plans the delivery of `entries` to every sink of this feed, in the
    /// order of the sinks; each sink gets all the entries.
    pub fn push(&self, entries: &[Entry]) -> (r: Vec<Delivery>)
        ensures
            r@.len() == self.spec_outputs().len(),
            forall|j: int|
                0 <= j < r@.len() ==> spec_delivers(
                    self.spec_outputs()[j].output,
                    entries@,
                    #[trigger] r@[j],
                ),
    {
        let mut out: Vec<Delivery> = Vec::new();
        let mut j: usize = 0;
        while j < self.outputs.len()
            invariant
                j <= self.outputs@.len(),
                out@.len() == j,
                forall|k: int|
                    0 <= k < j ==> spec_delivers(self.outputs@[k].output, entries@, #[trigger] out@[k]),
            decreases self.outputs@.len() - j,
        {
            out.push(self.outputs[j].push(self.name.as_str(), entries));
            j = j + 1;
        }
        out
    }
}

/// Whether the items all carry a timestamp and none is later than one
/// before it.
pub open spec fn is_newest_first(items: Seq<RawEntry>) -> bool {
    forall|i: int, j: int|
        0 <= i <= j < items.len() ==> (#[trigger] items[i]).published is Some && (
        #[trigger] items[j]).published is Some && !items[j].published->Some_0.is_after(
            items[i].published->Some_0,
        )
}

/// The new items of a list are exactly its longest prefix of items newer
/// than the last-seen timestamp: the count is such a prefix that cannot be
/// extended, and no other length is.
pub proof fn law_new_items_are_longest_newer_prefix(items: Seq<RawEntry>, last: Timestamp, n: int)
    ensures
        is_new_prefix(items, last, spec_new_count(items, last) as int),
        is_new_prefix(items, last, n) ==> n == spec_new_count(items, last),
{
    lemma_new_count_upto(items, last, items.len());
}

/// In a list that comes newest first, the new items are all the items
/// newer than the last-seen timestamp, and no others.
pub proof fn law_newest_first_list_selects_every_newer_item(
    items: Seq<RawEntry>,
    last: Timestamp,
    i: int,
)
    requires
        is_newest_first(items),
        0 <= i < items.len(),
    ensures
        i < spec_new_count(items, last) <==> is_newer(items[i].published, last),
{
    lemma_new_count_upto(items, last, items.len());
}

/// Without a last-seen timestamp nothing is handed out, unless the watcher
/// notifies on its first poll: then no item beyond the third is handed
/// out, and of the first three exactly those that carry a publish
/// timestamp, all three where each of them does.
pub proof fn law_first_poll_selection(state: WatcherState, items: Seq<RawEntry>)
    requires
        state.last_date is None,
    ensures
        !state.notify_first_poll ==> spec_handed_out(state, items).len() == 0,
        state.notify_first_poll ==> spec_handed_out(state, items) == spec_dated(
            items.take(
                if items.len() < 3 {
                    items.len() as int
                } else {
                    3
                },
            ),
        ),
        spec_handed_out(state, items).len() <= 3,
        state.notify_first_poll && items.len() >= 3 && items[0].published is Some
            && items[1].published is Some && items[2].published is Some ==> spec_handed_out(
            state,
            items,
        ) == items.take(3),
{
    let first = items.take(
        if items.len() < 3 {
            items.len() as int
        } else {
            3
        },
    );
    lemma_dated(first);
}

/// Every item that is handed out for delivery carries a publish timestamp,
/// so each of them has an entry to deliver.
pub proof fn law_handed_out_items_carry_timestamps(state: WatcherState, items: Seq<RawEntry>)
    ensures
        forall|i: int|
            0 <= i < spec_handed_out(state, items).len() ==> (#[trigger] spec_handed_out(
                state,
                items,
            )[i]).published is Some,
{
    match state.last_date {
        Some(last) => {
            lemma_new_count_upto(items, last, items.len());
        },
        None => {
            lemma_dated(
                items.take(
                    if items.len() < 3 {
                        items.len() as int
                    } else {
                        3
                    },
                ),
            );
        },
    }
}

/// The state after one whole poll that fetches `items` and, where there
/// are new ones, delivers them.
pub open spec fn spec_poll(state: WatcherState, items: Vec<RawEntry>) -> WatcherState {
    let fetched = spec_step(spec_step(state, Event::Tick), Event::Fetched(items));
    if fetched.phase == Phase::Dispatching {
        spec_step(fetched, Event::Delivered)
    } else {
        fetched
    }
}

/// A poll that finds nothing new notifies no sink and keeps the last-seen
/// timestamp. It changes nothing at all where the list is empty or the
/// retry budget is whole; after a non-empty list the budget is whole.
pub proof fn law_poll_without_news_changes_nothing(state: WatcherState, items: Vec<RawEntry>)
    requires
        state.phase == Phase::Idle,
        state.last_date is Some,
        spec_new_count(items@, state.last_date->Some_0) == 0,
    ensures
        spec_action(spec_step(state, Event::Tick), Event::Fetched(items)) == Outcome::Wait,
        items@.len() == 0 || state.retries_left == state.retry_limit ==> spec_step(
            spec_step(state, Event::Tick),
            Event::Fetched(items),
        ) == state,
        items@.len() > 0 ==> spec_step(spec_step(state, Event::Tick), Event::Fetched(items)) == (
        WatcherState { retries_left: state.retry_limit, ..state }),
{
}

/// Polling an unchanged feed again changes nothing and notifies no sink:
/// once a poll of `items` is complete, a second poll of the same items
/// leaves the state as it is and only waits.
pub proof fn law_polling_unchanged_feed_is_idempotent(state: WatcherState, items: Vec<RawEntry>)
    requires
        state.phase == Phase::Idle,
    ensures
        spec_poll(spec_poll(state, items), items) == spec_poll(state, items),
        spec_action(spec_step(spec_poll(state, items), Event::Tick), Event::Fetched(items))
            == Outcome::Wait,
{
    if items@.len() > 0 {
        law_handed_out_items_carry_timestamps(spec_step(state, Event::Tick), items@);
        let after = spec_poll(state, items);
        if after.last_date is Some {
            lemma_new_count_upto(items@, after.last_date->Some_0, items@.len());
        }
        if state.last_date is Some {
            lemma_new_count_upto(items@, state.last_date->Some_0, items@.len());
        }
    }
}

/// A transient fetch failure never raises the retry budget. While any
/// retry is left it costs exactly one, keeps the last-seen timestamp and
/// lets the watcher wait for its next tick. With none left it ends the
/// watcher with that error.
pub proof fn law_transient_failure_consumes_budget(state: WatcherState, error: Error)
    requires
        state.phase == Phase::Fetching,
        error.spec_is_transient(),
    ensures
        spec_step(state, Event::FetchFailed(error)).retries_left <= state.retries_left,
        spec_step(state, Event::FetchFailed(error)).retry_limit == state.retry_limit,
        spec_step(state, Event::FetchFailed(error)).last_date == state.last_date,
        state.retries_left > 0 ==> {
            &&& spec_step(state, Event::FetchFailed(error)).retries_left == state.retries_left - 1
            &&& spec_step(state, Event::FetchFailed(error)).phase == Phase::Idle
            &&& spec_action(state, Event::FetchFailed(error)) == Outcome::Wait
        },
        state.retries_left == 0 ==> {
            &&& spec_step(state, Event::FetchFailed(error)).phase == Phase::Stopped
            &&& spec_action(state, Event::FetchFailed(error)) == Outcome::Fail(error)
        },
{
}

/// A failure that is not transient ends the watcher at once, whatever is
/// left of the retry budget.
pub proof fn law_other_failure_is_fatal(state: WatcherState, error: Error)
    requires
        state.phase == Phase::Fetching || state.phase == Phase::Dispatching,
        !error.spec_is_transient(),
    ensures
        state.phase == Phase::Fetching ==> spec_step(state, Event::FetchFailed(error)).phase
            == Phase::Stopped && spec_action(state, Event::FetchFailed(error)) == Outcome::Fail(
            error,
        ),
        state.phase == Phase::Dispatching ==> spec_step(
            state,
            Event::DeliveryFailed(error),
        ).phase == Phase::Stopped && spec_action(state, Event::DeliveryFailed(error))
            == Outcome::Fail(error),
{
}

/// The state after `k` polls in a row that each fail with `error`.
pub open spec fn spec_failed_polls(state: WatcherState, error: Error, k: nat) -> WatcherState
    decreases k,
{
    if k == 0 {
        state
    } else {
        spec_step(
            spec_step(spec_failed_polls(state, error, (k - 1) as nat), Event::Tick),
            Event::FetchFailed(error),
        )
    }
}

/// Polls that fail transiently in a row each cost one retry: after `k` of
/// them, with `k` within the budget, the watcher is idle again with `k`
/// retries fewer and the same last-seen timestamp. One more failure than the
/// budget allows stops it.
pub proof fn law_consecutive_transient_failures(state: WatcherState, error: Error, k: nat)
    requires
        state.phase == Phase::Idle,
        error.spec_is_transient(),
        k <= state.retries_left + 1,
    ensures
        k <= state.retries_left ==> spec_failed_polls(state, error, k) == (WatcherState {
            retries_left: (state.retries_left - k) as usize,
            ..state
        }),
        k == state.retries_left + 1 ==> spec_failed_polls(state, error, k).phase == Phase::Stopped,
    decreases k,
{
    if k > 0 {
        law_consecutive_transient_failures(state, error, (k - 1) as nat);
    }
}

/// A delivered batch restores the whole retry budget and records the
/// timestamp of the newest delivered item.
pub proof fn law_delivery_restores_budget(state: WatcherState)
    requires
        state.phase == Phase::Dispatching,
    ensures
        spec_step(state, Event::Delivered).retries_left == state.retry_limit,
        spec_step(state, Event::Delivered).last_date == state.pending,
        spec_step(state, Event::Delivered).phase == Phase::Idle,
{
}

/// A fetch that returns any items restores the whole retry budget at
/// once, whatever was left of it and whether or not an item is new.
pub proof fn law_successful_fetch_restores_budget(state: WatcherState, items: Vec<RawEntry>)
    requires
        state.phase == Phase::Fetching,
        items@.len() > 0,
    ensures
        spec_step(state, Event::Fetched(items)).retries_left == state.retry_limit,
{
}

/// A poll that finds items ends idle with the whole retry budget. Where
/// items were handed out, the timestamp of the first of them is the last
/// seen from then on.
pub proof fn law_successful_poll_restores_budget(state: WatcherState, items: Vec<RawEntry>)
    requires
        state.phase == Phase::Idle,
        items@.len() > 0,
    ensures
        spec_poll(state, items).retries_left == state.retry_limit,
        spec_poll(state, items).phase == Phase::Idle,
        spec_handed_out(state, items@).len() > 0 ==> spec_poll(state, items).last_date
            == spec_handed_out(state, items@)[0].published,
        state.last_date is Some && spec_handed_out(state, items@).len() > 0 ==> spec_poll(
            state,
            items,
        ).last_date == items@[0].published,
{
    if state.last_date is Some {
        lemma_new_count_upto(items@, state.last_date->Some_0, items@.len());
    }
}

/// Shutdown is seen only between polls. An idle watcher stops on it
/// without another fetch. While a fetch or a delivery is under way it
/// changes nothing, so a delivery is completed first. A stopped watcher
/// asks for nothing any more.
pub proof fn law_shutdown_between_polls(state: WatcherState, event: Event)
    ensures
        state.phase == Phase::Idle ==> spec_step(state, Event::Shutdown).phase == Phase::Stopped
            && spec_action(state, Event::Shutdown) == Outcome::Finish,
        state.phase == Phase::Fetching || state.phase == Phase::Dispatching ==> spec_step(
            state,
            Event::Shutdown,
        ) == state && spec_action(state, Event::Shutdown) == Outcome::Ignore,
        state.phase == Phase::Dispatching ==> spec_step(
            spec_step(spec_step(state, Event::Shutdown), Event::Delivered),
            Event::Shutdown,
        ) == (WatcherState {
            phase: Phase::Stopped,
            last_date: state.pending,
            retries_left: state.retry_limit,
            ..state
        }),
        state.phase == Phase::Stopped ==> spec_step(state, event) == state && spec_action(
            state,
            event,
        ) == Outcome::Ignore,
{
}

/// The states of several watchers after the watcher at `at` took `event`:
/// every watcher owns its state, so only that one moves.
pub open spec fn spec_step_one(watchers: Seq<WatcherState>, at: int, event: Event) -> Seq<
    WatcherState,
> {
    watchers.update(at, spec_step(watchers[at], event))
}

/// A watcher that ends, be it on a transient failure with no retry left or
/// on any other failure, ends alone: every other watcher keeps its state,
/// and one that was running is still running.
pub proof fn law_failed_watcher_ends_alone(
    watchers: Seq<WatcherState>,
    at: int,
    error: Error,
    other: int,
)
    requires
        0 <= at < watchers.len(),
        0 <= other < watchers.len(),
        other != at,
        watchers[at].phase == Phase::Fetching,
        !error.spec_is_transient() || watchers[at].retries_left == 0,
    ensures
        spec_step_one(watchers, at, Event::FetchFailed(error)).len() == watchers.len(),
        spec_step_one(watchers, at, Event::FetchFailed(error))[at].phase == Phase::Stopped,
        spec_step_one(watchers, at, Event::FetchFailed(error))[other] == watchers[other],
{
}

} // verus!
