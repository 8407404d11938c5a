//! The rate engine: from the cumulative counters of each poll to smoothed
//! rates, with what it remembers of every interface between polls.

use crate::network::address::{get_ipv4, primary_ipv4};
use crate::network::rate::{
    counter_delta, counter_rate, mean_rx, mean_tx, rate_per_second, rx_rates, slide, total,
    tx_rates, RateSample, RateWindow, MIN_POLL_NANOS, WINDOW_CAPACITY,
};
use vstd::prelude::*;

verus! {

/// What the counter source reports of one interface at one poll.
pub struct InterfaceReading {
    pub name: String,
    pub mac_address: String,
    /// The interface's addresses in their text form, in the order reported.
    pub addresses: Vec<String>,
    pub total_received: u64,
    pub total_transmitted: u64,
}

/// An `InterfaceReading` as plain values.
pub struct ReadingView {
    pub name: Seq<char>,
    pub mac_address: Seq<char>,
    pub addresses: Seq<Seq<char>>,
    pub total_received: u64,
    pub total_transmitted: u64,
}

impl DeepView for InterfaceReading {
    type V = ReadingView;

    open spec fn deep_view(&self) -> ReadingView {
        ReadingView {
            name: self.name@,
            mac_address: self.mac_address@,
            addresses: self.addresses.deep_view(),
            total_received: self.total_received,
            total_transmitted: self.total_transmitted,
        }
    }
}

/// One interface as it is shown after a poll: its totals and smoothed rates.
pub struct NetworkData {
    pub interface: String,
    pub mac_address: String,
    pub ip_network: String,
    pub total_received: u64,
    pub total_transmitted: u64,
    /// Smoothed receive rate, in bytes per second.
    pub rx_rate: u128,
    /// Smoothed transmit rate, in bytes per second.
    pub tx_rate: u128,
}

/// A `NetworkData` as plain values.
pub struct SnapshotView {
    pub interface: Seq<char>,
    pub mac_address: Seq<char>,
    pub ip_network: Seq<char>,
    pub total_received: u64,
    pub total_transmitted: u64,
    pub rx_rate: u128,
    pub tx_rate: u128,
}

impl DeepView for NetworkData {
    type V = SnapshotView;

    open spec fn deep_view(&self) -> SnapshotView {
        SnapshotView {
            interface: self.interface@,
            mac_address: self.mac_address@,
            ip_network: self.ip_network@,
            total_received: self.total_received,
            total_transmitted: self.total_transmitted,
            rx_rate: self.rx_rate,
            tx_rate: self.tx_rate,
        }
    }
}

/// What the engine remembers of one interface: the counters of the last poll
/// that saw it, and its recent rates, oldest first.
pub struct HistoryView {
    pub last_received: u64,
    pub last_transmitted: u64,
    pub samples: Seq<RateSample>,
}

/// The rates that a poll derives for an interface: nothing on first sight,
/// else the growth of each counter since the last poll, per second.
pub open spec fn observed_sample(
    prior: Option<HistoryView>,
    received: u64,
    transmitted: u64,
    elapsed_nanos: nat,
) -> RateSample
    recommends
        elapsed_nanos > 0,
{
    match prior {
        Some(h) => RateSample {
            rx: rate_per_second(counter_delta(received, h.last_received), elapsed_nanos) as u128,
            tx: rate_per_second(
                counter_delta(transmitted, h.last_transmitted),
                elapsed_nanos,
            ) as u128,
        },
        None => RateSample { rx: 0, tx: 0 },
    }
}

/// The history of an interface after a poll that saw it.
pub open spec fn advance(
    prior: Option<HistoryView>,
    received: u64,
    transmitted: u64,
    elapsed_nanos: nat,
) -> HistoryView
    recommends
        elapsed_nanos > 0,
{
    let window = match prior {
        Some(h) => h.samples,
        None => Seq::empty(),
    };
    HistoryView {
        last_received: received,
        last_transmitted: transmitted,
        samples: slide(window, observed_sample(prior, received, transmitted, elapsed_nanos)),
    }
}

/// What is shown of an interface given its reading and its history after
/// the poll.
pub open spec fn snapshot(reading: ReadingView, history: HistoryView) -> SnapshotView {
    SnapshotView {
        interface: reading.name,
        mac_address: reading.mac_address,
        ip_network: primary_ipv4(reading.addresses),
        total_received: reading.total_received,
        total_transmitted: reading.total_transmitted,
        rx_rate: mean_rx(history.samples) as u128,
        tx_rate: mean_tx(history.samples) as u128,
    }
}

/// The history kept under `name`, if any.
pub open spec fn lookup(histories: Map<Seq<char>, HistoryView>, name: Seq<char>) -> Option<
    HistoryView,
> {
    if histories.contains_key(name) {
        Some(histories[name])
    } else {
        None
    }
}

/// One reading taken in: the histories afterwards, and what is shown.
pub open spec fn observe(
    histories: Map<Seq<char>, HistoryView>,
    reading: ReadingView,
    elapsed_nanos: nat,
) -> (Map<Seq<char>, HistoryView>, SnapshotView) {
    let history = advance(
        lookup(histories, reading.name),
        reading.total_received,
        reading.total_transmitted,
        elapsed_nanos,
    );
    (histories.insert(reading.name, history), snapshot(reading, history))
}

/// The readings of one poll taken in, in order.
pub open spec fn observe_all(
    histories: Map<Seq<char>, HistoryView>,
    readings: Seq<ReadingView>,
    elapsed_nanos: nat,
) -> (Map<Seq<char>, HistoryView>, Seq<SnapshotView>)
    decreases readings.len(),
{
    if readings.len() == 0 {
        (histories, Seq::empty())
    } else {
        let (before, shown) = observe_all(histories, readings.drop_last(), elapsed_nanos);
        let (after, last) = observe(before, readings.last(), elapsed_nanos);
        (after, shown.push(last))
    }
}

/// No two readings are of one interface.
pub open spec fn distinct_names(readings: Seq<ReadingView>) -> bool {
    forall|i: int, j: int|
        0 <= i < j < readings.len() ==> (#[trigger] readings[i]).name != (
        #[trigger] readings[j]).name
}

/// Every history holds between one sample and the window's capacity.
pub open spec fn windows_bounded(histories: Map<Seq<char>, HistoryView>) -> bool {
    forall|name: Seq<char>| #[trigger]
        histories.contains_key(name) ==> 1 <= histories[name].samples.len() <= WINDOW_CAPACITY
}

/// The state of the engine between polls.
pub struct EngineView {
    /// When the last poll that counted took place, in nanoseconds.
    pub last_poll_nanos: u128,
    /// The history of every interface ever seen, by name.
    pub histories: Map<Seq<char>, HistoryView>,
}

/// The time from `last` to `now`; none if `now` is not later.
pub open spec fn elapsed_between(last: u128, now: u128) -> nat {
    if now >= last {
        (now - last) as nat
    } else {
        0
    }
}

/// One poll: the state afterwards and what is shown. A poll that comes less
/// than `MIN_POLL_NANOS` after the last one that counted shows nothing and
/// leaves the state as it was.
pub open spec fn poll_spec(state: EngineView, now_nanos: u128, readings: Seq<ReadingView>) -> (
    EngineView,
    Seq<SnapshotView>,
) {
    let elapsed = elapsed_between(state.last_poll_nanos, now_nanos);
    if elapsed < MIN_POLL_NANOS {
        (state, Seq::empty())
    } else {
        let (histories, shown) = observe_all(state.histories, readings, elapsed);
        (EngineView { last_poll_nanos: now_nanos, histories }, shown)
    }
}

/// What the engine keeps for one interface.
struct InterfaceHistory {
    name: String,
    last_received: u64,
    last_transmitted: u64,
    window: RateWindow,
}

impl View for InterfaceHistory {
    type V = HistoryView;

    closed spec fn view(&self) -> HistoryView {
        HistoryView {
            last_received: self.last_received,
            last_transmitted: self.last_transmitted,
            samples: self.window@,
        }
    }
}

impl InterfaceHistory {
    /// The name of the interface that this history belongs to.
    closed spec fn key(&self) -> Seq<char> {
        self.name@
    }

    /// The window is within bounds and holds at least one sample.
    closed spec fn wf(&self) -> bool {
        self.window.bounded() && self.window@.len() > 0
    }

    /// Takes in the counters of a poll that came `elapsed_nanos` after the
    /// last one, and returns the smoothed rates.
    fn record(&mut self, received: u64, transmitted: u64, elapsed_nanos: u128) -> (mean: RateSample)
        requires
            old(self).wf(),
            elapsed_nanos >= MIN_POLL_NANOS,
        ensures
            final(self).wf(),
            final(self).key() == old(self).key(),
            final(self)@ == advance(Some(old(self)@), received, transmitted, elapsed_nanos as nat),
            mean.rx == mean_rx(final(self)@.samples),
            mean.tx == mean_tx(final(self)@.samples),
    {
        let sample = RateSample {
            rx: counter_rate(received, self.last_received, elapsed_nanos),
            tx: counter_rate(transmitted, self.last_transmitted, elapsed_nanos),
        };
        self.window.record(sample);
        self.last_received = received;
        self.last_transmitted = transmitted;
        self.window.smoothed()
    }

    /// The history of an interface that a poll sees for the first time.
    fn first_seen(name: String, received: u64, transmitted: u64) -> (history: InterfaceHistory)
        ensures
            history.wf(),
            history.key() == name@,
            forall|elapsed: nat| history@ == advance(None, received, transmitted, elapsed),
            mean_rx(history@.samples) == 0,
            mean_tx(history@.samples) == 0,
    {
        let mut window = RateWindow::new();
        window.record(RateSample { rx: 0, tx: 0 });
        let history = InterfaceHistory {
            name,
            last_received: received,
            last_transmitted: transmitted,
            window,
        };
        proof {
            reveal_with_fuel(total, 2);
        }
        history
    }
}

/// Whether some entry of `entries` belongs to the interface `name`.
spec fn has_entry(entries: Seq<InterfaceHistory>, name: Seq<char>) -> bool {
    exists|i: int| 0 <= i < entries.len() && #[trigger] entries[i].key() == name
}

/// The position of an entry of `entries` that belongs to `name`.
spec fn entry_index(entries: Seq<InterfaceHistory>, name: Seq<char>) -> int {
    choose|i: int| 0 <= i < entries.len() && #[trigger] entries[i].key() == name
}

/// No two entries belong to one interface, and each entry is in order.
spec fn entries_wf(entries: Seq<InterfaceHistory>) -> bool {
    &&& forall|i: int| 0 <= i < entries.len() ==> (#[trigger] entries[i]).wf()
    &&& forall|i: int, j: int|
        0 <= i < j < entries.len() ==> (#[trigger] entries[i]).key() != (#[trigger] entries[j]).key()
}

/// The entries as a map from interface name to history.
spec fn histories_of(entries: Seq<InterfaceHistory>) -> Map<Seq<char>, HistoryView> {
    Map::new(
        |name: Seq<char>| has_entry(entries, name),
        |name: Seq<char>| entries[entry_index(entries, name)]@,
    )
}

proof fn lemma_entry_index(entries: Seq<InterfaceHistory>, i: int)
    requires
        entries_wf(entries),
        0 <= i < entries.len(),
    ensures
        has_entry(entries, entries[i].key()),
        entry_index(entries, entries[i].key()) == i,
{
    let j = entry_index(entries, entries[i].key());
    assert(0 <= j < entries.len() && entries[j].key() == entries[i].key());
}

/// Replacing the entry of an interface by a newer one of the same interface
/// is an insertion under that interface's name.
proof fn lemma_histories_update(entries: Seq<InterfaceHistory>, i: int, entry: InterfaceHistory)
    requires
        entries_wf(entries),
        0 <= i < entries.len(),
        entry.wf(),
        entry.key() == entries[i].key(),
    ensures
        entries_wf(entries.update(i, entry)),
        histories_of(entries.update(i, entry)) == histories_of(entries).insert(
            entry.key(),
            entry@,
        ),
{
    let after = entries.update(i, entry);
    assert forall|k: int| 0 <= k < after.len() implies (#[trigger] after[k]).key()
        == entries[k].key() by {}
    let left = histories_of(after);
    let right = histories_of(entries).insert(entry.key(), entry@);
    assert forall|name: Seq<char>| left.contains_key(name) == right.contains_key(name) by {
        if has_entry(entries, name) {
            assert(after[entry_index(entries, name)].key() == name);
        }
    }
    assert forall|name: Seq<char>| left.contains_key(name) implies left[name] == right[name] by {
        let k = entry_index(after, name);
        lemma_entry_index(after, k);
        if name == entry.key() {
            lemma_entry_index(after, i);
        } else {
            lemma_entry_index(entries, k);
        }
    }
}

/// Adding an entry for an interface that had none is an insertion under that
/// interface's name.
proof fn lemma_histories_push(entries: Seq<InterfaceHistory>, entry: InterfaceHistory)
    requires
        entries_wf(entries),
        entry.wf(),
        !has_entry(entries, entry.key()),
    ensures
        entries_wf(entries.push(entry)),
        histories_of(entries.push(entry)) == histories_of(entries).insert(entry.key(), entry@),
{
    let after = entries.push(entry);
    let left = histories_of(after);
    let right = histories_of(entries).insert(entry.key(), entry@);
    assert forall|name: Seq<char>| left.contains_key(name) == right.contains_key(name) by {
        if has_entry(entries, name) {
            assert(after[entry_index(entries, name)].key() == name);
        }
        assert(after[entries.len() as int].key() == entry.key());
    }
    assert forall|name: Seq<char>| left.contains_key(name) implies left[name] == right[name] by {
        let k = entry_index(after, name);
        lemma_entry_index(after, k);
        if name == entry.key() {
            lemma_entry_index(after, entries.len() as int);
        } else {
            lemma_entry_index(entries, k);
        }
    }
}

/// The histories of all interfaces seen, one entry each.
struct HistoryTable {
    entries: Vec<InterfaceHistory>,
}

impl View for HistoryTable {
    type V = Map<Seq<char>, HistoryView>;

    closed spec fn view(&self) -> Map<Seq<char>, HistoryView> {
        histories_of(self.entries@)
    }
}

impl HistoryTable {
    /// One history per interface, each with a window within bounds.
    closed spec fn wf(&self) -> bool {
        entries_wf(self.entries@)
    }

    proof fn lemma_windows_bounded(&self)
        requires
            self.wf(),
        ensures
            windows_bounded(self@),
    {
        assert forall|name: Seq<char>| #[trigger] self@.contains_key(name) implies 1
            <= self@[name].samples.len() <= WINDOW_CAPACITY by {
            assert(self.entries@[entry_index(self.entries@, name)].wf());
        }
    }

    fn new() -> (table: HistoryTable)
        ensures
            table.wf(),
            table@ == Map::<Seq<char>, HistoryView>::empty(),
    {
        HistoryTable { entries: Vec::new() }
    }

    /// The position of the history kept for `name`, if there is one.
    fn find(&self, name: &String) -> (found: Option<usize>)
        ensures
            match found {
                Some(i) => i < self.entries@.len() && self.entries@[i as int].key() == name@,
                None => !has_entry(self.entries@, name@),
            },
    {
        let mut i: usize = 0;
        while i < self.entries.len()
            invariant
                i <= self.entries@.len(),
                forall|k: int| 0 <= k < i ==> (#[trigger] self.entries@[k]).key() != name@,
            decreases self.entries@.len() - i,
        {
            if self.entries[i].name == *name {
                return Some(i);
            }
            i = i + 1;
        }
        None
    }

    /// The history kept for `name`, if there is one.
    fn get(&self, name: &str) -> (found: Option<&InterfaceHistory>)
        requires
            self.wf(),
        ensures
            match found {
                Some(entry) => lookup(self@, name@) == Some(entry@),
                None => lookup(self@, name@) is None,
            },
    {
        let wanted: String = name.to_owned();
        match self.find(&wanted) {
            Some(i) => {
                proof {
                    lemma_entry_index(self.entries@, i as int);
                }
                Some(&self.entries[i])
            },
            None => None,
        }
    }

    /// Takes in one reading of a poll that counts, and returns what is shown
    /// of the interface.
    fn observe(&mut self, reading: &InterfaceReading, elapsed_nanos: u128) -> (shown: NetworkData)
        requires
            old(self).wf(),
            elapsed_nanos >= MIN_POLL_NANOS,
        ensures
            final(self).wf(),
            (final(self)@, shown.deep_view()) == observe(
                old(self)@,
                reading.deep_view(),
                elapsed_nanos as nat,
            ),
    {
        let ghost before = self.entries@;
        let mean = match self.find(&reading.name) {
            Some(i) => {
                proof {
                    lemma_entry_index(before, i as int);
                }
                let entry = &mut self.entries[i];
                let mean = entry.record(
                    reading.total_received,
                    reading.total_transmitted,
                    elapsed_nanos,
                );
                proof {
                    lemma_histories_update(before, i as int, self.entries@[i as int]);
                }
                mean
            },
            None => {
                let entry = InterfaceHistory::first_seen(
                    reading.name.clone(),
                    reading.total_received,
                    reading.total_transmitted,
                );
                proof {
                    lemma_histories_push(before, entry);
                }
                self.entries.push(entry);
                RateSample { rx: 0, tx: 0 }
            },
        };
        NetworkData {
            interface: reading.name.clone(),
            mac_address: reading.mac_address.clone(),
            ip_network: get_ipv4(&reading.addresses),
            total_received: reading.total_received,
            total_transmitted: reading.total_transmitted,
            rx_rate: mean.rx,
            tx_rate: mean.tx,
        }
    }
}

/// The network rate engine. It owns the time of the last poll that counted
/// and the history of every interface it has seen.
pub struct RateEngine {
    last_poll_nanos: u128,
    table: HistoryTable,
}

impl View for RateEngine {
    type V = EngineView;

    closed spec fn view(&self) -> EngineView {
        EngineView { last_poll_nanos: self.last_poll_nanos, histories: self.table@ }
    }
}

impl RateEngine {
    /// One history per interface, each with a window of one to three
    /// samples.
    #[verifier::type_invariant]
    closed spec fn wf(&self) -> bool {
        self.table.wf()
    }

    /// An engine that has seen no interface, created at `start_nanos`.
    pub fn new(start_nanos: u128) -> (engine: RateEngine)
        ensures
            engine@ == (EngineView { last_poll_nanos: start_nanos, histories: Map::empty() }),
    {
        RateEngine { last_poll_nanos: start_nanos, table: HistoryTable::new() }
    }

    /// When the last poll that counted took place.
    pub fn last_poll_nanos(&self) -> (nanos: u128)
        ensures
            nanos == self@.last_poll_nanos,
    {
        self.last_poll_nanos
    }

    /// Whether a poll at `now_nanos` would count: at least a tenth of a
    /// second has passed since the last one that did.
    pub fn is_due(&self, now_nanos: u128) -> (due: bool)
        ensures
            due == (elapsed_between(self@.last_poll_nanos, now_nanos) >= MIN_POLL_NANOS),
    {
        now_nanos.saturating_sub(self.last_poll_nanos) >= MIN_POLL_NANOS
    }

    /// The counters of the interface `name` at the last poll that saw it:
    /// received, then transmitted.
    pub fn baseline(&self, name: &str) -> (counters: Option<(u64, u64)>)
        ensures
            counters == match lookup(self@.histories, name@) {
                Some(history) => Some((history.last_received, history.last_transmitted)),
                None => None,
            },
    {
        proof {
            use_type_invariant(self);
        }
        match self.table.get(name) {
            Some(entry) => Some((entry.last_received, entry.last_transmitted)),
            None => None,
        }
    }

    /// The recent rates of the interface `name`, oldest first.
    pub fn window(&self, name: &str) -> (samples: Option<Vec<RateSample>>)
        ensures
            match samples {
                Some(held) => lookup(self@.histories, name@) matches Some(history)
                    && held@ == history.samples,
                None => lookup(self@.histories, name@) is None,
            },
    {
        proof {
            use_type_invariant(self);
        }
        match self.table.get(name) {
            Some(entry) => Some(entry.window.to_vec()),
            None => None,
        }
    }

    /// One poll at time `now_nanos` with the readings of every interface
    /// that the counter source reports.
    ///
    /// A poll that comes less than a tenth of a second after the last one
    /// that counted returns nothing and changes nothing. Otherwise each
    /// reading, in order, yields one entry of the result, the history of its
    /// interface moves on, and the poll becomes the last one that counted.
    /// Every window holds between one and three samples afterwards.
    pub fn poll(&mut self, now_nanos: u128, readings: &Vec<InterfaceReading>) -> (shown: Vec<
        NetworkData,
    >)
        ensures
            (final(self)@, shown.deep_view()) == poll_spec(
                old(self)@,
                now_nanos,
                readings.deep_view(),
            ),
            elapsed_between(old(self)@.last_poll_nanos, now_nanos) < MIN_POLL_NANOS ==> *final(self)
                == *old(self),
            windows_bounded(old(self)@.histories),
            windows_bounded(final(self)@.histories),
    {
        proof {
            use_type_invariant(&*self);
            self.table.lemma_windows_bounded();
        }
        let mut shown: Vec<NetworkData> = Vec::new();
        let elapsed: u128 = now_nanos.saturating_sub(self.last_poll_nanos);
        if elapsed < MIN_POLL_NANOS {
            return shown;
        }
        let ghost all = readings.deep_view();
        let ghost start = self@.histories;
        let mut table = HistoryTable::new();
        core::mem::swap(&mut self.table, &mut table);
        let mut i: usize = 0;
        while i < readings.len()
            invariant
                i <= readings.len(),
                all == readings.deep_view(),
                table.wf(),
                elapsed >= MIN_POLL_NANOS,
                (table@, shown.deep_view()) == observe_all(
                    start,
                    all.take(i as int),
                    elapsed as nat,
                ),
            decreases readings.len() - i,
        {
            let one = table.observe(&readings[i], elapsed);
            shown.push(one);
            assert(all.take(i + 1).drop_last() =~= all.take(i as int));
            i = i + 1;
        }
        assert(all.take(i as int) =~= all);
        proof {
            table.lemma_windows_bounded();
        }
        self.table = table;
        self.last_poll_nanos = now_nanos;
        shown
    }
}

} // verus!
