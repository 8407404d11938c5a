//! What holds of the rate engine over all states and polls.

use crate::network::engine::{
    advance, distinct_names, elapsed_between, lookup, observe, observe_all, observed_sample,
    poll_spec, snapshot, windows_bounded, EngineView, HistoryView, ReadingView, SnapshotView,
};
use crate::network::rate::{
    counter_delta, lemma_mean_bound, lemma_rate_bound, mean_rx, mean_tx, rate_per_second,
    rx_rates, slide, tx_rates, RateSample, MIN_POLL_NANOS, NANOS_PER_SECOND, WINDOW_CAPACITY,
};
use vstd::prelude::*;

verus! {

/// The derived rates are exactly the growth of each counter per second:
/// nothing is lost in storing them.
pub proof fn lemma_observed_sample_exact(
    prior: HistoryView,
    received: u64,
    transmitted: u64,
    elapsed_nanos: nat,
)
    requires
        elapsed_nanos > 0,
    ensures
        observed_sample(Some(prior), received, transmitted, elapsed_nanos).rx == rate_per_second(
            counter_delta(received, prior.last_received),
            elapsed_nanos,
        ),
        observed_sample(Some(prior), received, transmitted, elapsed_nanos).tx == rate_per_second(
            counter_delta(transmitted, prior.last_transmitted),
            elapsed_nanos,
        ),
{
    let rx = counter_delta(received, prior.last_received);
    let tx = counter_delta(transmitted, prior.last_transmitted);
    lemma_rate_bound(rx, elapsed_nanos);
    lemma_rate_bound(tx, elapsed_nanos);
    assert(rx * NANOS_PER_SECOND <= u128::MAX && tx * NANOS_PER_SECOND <= u128::MAX)
        by (nonlinear_arith)
        requires
            rx <= u64::MAX,
            tx <= u64::MAX,
            NANOS_PER_SECOND == 1_000_000_000,
    ;
}

/// A counter that grew between two polls of a known interface yields, as
/// the newest sample of the window, its growth divided by the time between
/// the polls: `(current - last) * 10^9 / elapsed_nanos` bytes per second.
pub proof fn lemma_growing_counter_rate(
    prior: HistoryView,
    received: u64,
    transmitted: u64,
    elapsed_nanos: nat,
)
    requires
        elapsed_nanos > 0,
    ensures
        received > prior.last_received ==> advance(
            Some(prior),
            received,
            transmitted,
            elapsed_nanos,
        ).samples.last().rx == (received - prior.last_received) * NANOS_PER_SECOND
            / elapsed_nanos as int,
        transmitted > prior.last_transmitted ==> advance(
            Some(prior),
            received,
            transmitted,
            elapsed_nanos,
        ).samples.last().tx == (transmitted - prior.last_transmitted) * NANOS_PER_SECOND
            / elapsed_nanos as int,
{
    lemma_observed_sample_exact(prior, received, transmitted, elapsed_nanos);
}

/// A counter that went backwards between two polls yields the rate zero for
/// that interval.
pub proof fn lemma_regressed_counter_rate(
    prior: HistoryView,
    received: u64,
    transmitted: u64,
    elapsed_nanos: nat,
)
    requires
        elapsed_nanos > 0,
    ensures
        received < prior.last_received ==> advance(
            Some(prior),
            received,
            transmitted,
            elapsed_nanos,
        ).samples.last().rx == 0,
        transmitted < prior.last_transmitted ==> advance(
            Some(prior),
            received,
            transmitted,
            elapsed_nanos,
        ).samples.last().tx == 0,
{
    assert(0 * (NANOS_PER_SECOND as nat) / elapsed_nanos == 0) by (nonlinear_arith)
        requires
            elapsed_nanos > 0,
    ;
}

/// An interface seen for the first time gets the rate zero, whatever its
/// counters read, and its window then holds that one sample.
pub proof fn lemma_first_sight(received: u64, transmitted: u64, elapsed_nanos: nat)
    ensures
        advance(None, received, transmitted, elapsed_nanos).samples == seq![
            RateSample { rx: 0, tx: 0 },
        ],
        advance(None, received, transmitted, elapsed_nanos).last_received == received,
        advance(None, received, transmitted, elapsed_nanos).last_transmitted == transmitted,
{
    assert(advance(None, received, transmitted, elapsed_nanos).samples =~= seq![
        RateSample { rx: 0, tx: 0 },
    ]);
}

/// Sliding a sample into a window of at most three leaves a window of one to
/// three samples whose newest is that sample; the others are the newest of
/// the old window, in their old order.
pub proof fn lemma_slide(window: Seq<RateSample>, sample: RateSample)
    requires
        window.len() <= WINDOW_CAPACITY,
    ensures
        1 <= slide(window, sample).len() <= WINDOW_CAPACITY,
        slide(window, sample).last() == sample,
        window.len() < WINDOW_CAPACITY ==> slide(window, sample) == window.push(sample),
        window.len() == WINDOW_CAPACITY ==> slide(window, sample) == window.drop_first().push(
            sample,
        ),
{
}

/// The smoothed rates that a poll shows are exactly the means of the window
/// after the poll: nothing is lost in storing them.
pub proof fn lemma_snapshot_rates_exact(reading: ReadingView, history: HistoryView)
    requires
        history.samples.len() > 0,
    ensures
        snapshot(reading, history).rx_rate == mean_rx(history.samples),
        snapshot(reading, history).tx_rate == mean_tx(history.samples),
{
    lemma_mean_bound(rx_rates(history.samples), u128::MAX as nat);
    lemma_mean_bound(tx_rates(history.samples), u128::MAX as nat);
}

/// One reading taken in keeps every window within bounds, and shows the
/// means of the window of its interface as that stands afterwards.
pub proof fn lemma_observe_keeps_bounds(
    histories: Map<Seq<char>, HistoryView>,
    reading: ReadingView,
    elapsed_nanos: nat,
)
    requires
        windows_bounded(histories),
    ensures
        windows_bounded(observe(histories, reading, elapsed_nanos).0),
        observe(histories, reading, elapsed_nanos).1.rx_rate == mean_rx(
            observe(histories, reading, elapsed_nanos).0[reading.name].samples,
        ),
        observe(histories, reading, elapsed_nanos).1.tx_rate == mean_tx(
            observe(histories, reading, elapsed_nanos).0[reading.name].samples,
        ),
{
    let prior = lookup(histories, reading.name);
    let sample = observed_sample(
        prior,
        reading.total_received,
        reading.total_transmitted,
        elapsed_nanos,
    );
    let old_window = match prior {
        Some(h) => h.samples,
        None => Seq::empty(),
    };
    lemma_slide(old_window, sample);
    let after = observe(histories, reading, elapsed_nanos).0;
    lemma_snapshot_rates_exact(reading, after[reading.name]);
}

/// A poll shows one entry for each reading, in the order of the readings,
/// under the reading's name and with its totals.
pub proof fn lemma_observe_all_shape(
    histories: Map<Seq<char>, HistoryView>,
    readings: Seq<ReadingView>,
    elapsed_nanos: nat,
)
    ensures
        observe_all(histories, readings, elapsed_nanos).1.len() == readings.len(),
        forall|i: int|
            0 <= i < readings.len() ==> {
                let shown = #[trigger] observe_all(histories, readings, elapsed_nanos).1[i];
                &&& shown.interface == readings[i].name
                &&& shown.mac_address == readings[i].mac_address
                &&& shown.total_received == readings[i].total_received
                &&& shown.total_transmitted == readings[i].total_transmitted
            },
    decreases readings.len(),
{
    if readings.len() > 0 {
        lemma_observe_all_shape(histories, readings.drop_last(), elapsed_nanos);
    }
}

/// A poll keeps every window within one to three samples.
pub proof fn lemma_observe_all_keeps_bounds(
    histories: Map<Seq<char>, HistoryView>,
    readings: Seq<ReadingView>,
    elapsed_nanos: nat,
)
    requires
        windows_bounded(histories),
    ensures
        windows_bounded(observe_all(histories, readings, elapsed_nanos).0),
    decreases readings.len(),
{
    if readings.len() > 0 {
        lemma_observe_all_keeps_bounds(histories, readings.drop_last(), elapsed_nanos);
        let before = observe_all(histories, readings.drop_last(), elapsed_nanos).0;
        lemma_observe_keeps_bounds(before, readings.last(), elapsed_nanos);
    }
}

/// A poll forgets no interface: what had a history before has one after.
pub proof fn lemma_histories_never_shrink(
    histories: Map<Seq<char>, HistoryView>,
    readings: Seq<ReadingView>,
    elapsed_nanos: nat,
    name: Seq<char>,
)
    requires
        histories.contains_key(name),
    ensures
        observe_all(histories, readings, elapsed_nanos).0.contains_key(name),
    decreases readings.len(),
{
    if readings.len() > 0 {
        lemma_histories_never_shrink(histories, readings.drop_last(), elapsed_nanos, name);
    }
}

/// A poll leaves alone what it keeps of an interface that it has no reading
/// of: its history stays as it was, and no history appears for it.
pub proof fn lemma_unseen_interface_untouched(
    histories: Map<Seq<char>, HistoryView>,
    readings: Seq<ReadingView>,
    elapsed_nanos: nat,
    name: Seq<char>,
)
    requires
        forall|i: int| 0 <= i < readings.len() ==> (#[trigger] readings[i]).name != name,
    ensures
        lookup(observe_all(histories, readings, elapsed_nanos).0, name) == lookup(
            histories,
            name,
        ),
    decreases readings.len(),
{
    if readings.len() > 0 {
        let rest = readings.drop_last();
        assert forall|i: int| 0 <= i < rest.len() implies (#[trigger] rest[i]).name != name by {
            assert(rest[i] == readings[i]);
        }
        lemma_unseen_interface_untouched(histories, rest, elapsed_nanos, name);
    }
}

/// Where no two readings are of one interface, a poll treats each interface
/// by itself: its history moves on from what was kept before the poll, and
/// what is shown of it is drawn from that history. The smoothed rates shown
/// are the means of the window as it stands after the poll.
pub proof fn lemma_poll_by_interface(
    histories: Map<Seq<char>, HistoryView>,
    readings: Seq<ReadingView>,
    elapsed_nanos: nat,
    i: int,
)
    requires
        distinct_names(readings),
        0 <= i < readings.len(),
    ensures
        ({
            let (after, shown) = observe_all(histories, readings, elapsed_nanos);
            let reading = readings[i];
            let history = advance(
                lookup(histories, reading.name),
                reading.total_received,
                reading.total_transmitted,
                elapsed_nanos,
            );
            &&& after.contains_key(reading.name)
            &&& after[reading.name] == history
            &&& shown[i] == snapshot(reading, history)
        }),
    decreases readings.len(),
{
    let rest = readings.drop_last();
    let last = readings.last();
    lemma_observe_all_shape(histories, rest, elapsed_nanos);
    assert forall|k: int| 0 <= k < rest.len() implies #[trigger] rest[k] == readings[k] by {}
    if i == readings.len() - 1 {
        lemma_unseen_interface_untouched(histories, rest, elapsed_nanos, last.name);
    } else {
        lemma_poll_by_interface(histories, rest, elapsed_nanos, i);
    }
}

/// A poll that comes too soon after the last one that counted shows nothing
/// and leaves no trace: the next poll finds the state, and with it every
/// baseline, as the poll before found it.
pub proof fn lemma_early_poll_leaves_no_trace(
    state: EngineView,
    early_nanos: u128,
    early_readings: Seq<ReadingView>,
    now_nanos: u128,
    readings: Seq<ReadingView>,
)
    requires
        elapsed_between(state.last_poll_nanos, early_nanos) < MIN_POLL_NANOS,
    ensures
        poll_spec(state, early_nanos, early_readings) == (state, Seq::<SnapshotView>::empty()),
        poll_spec(poll_spec(state, early_nanos, early_readings).0, now_nanos, readings)
            == poll_spec(state, now_nanos, readings),
{
}

/// A poll keeps every window within one to three samples, and shows one
/// entry for each reading where it counts.
pub proof fn lemma_poll_keeps_bounds(
    state: EngineView,
    now_nanos: u128,
    readings: Seq<ReadingView>,
)
    requires
        windows_bounded(state.histories),
    ensures
        windows_bounded(poll_spec(state, now_nanos, readings).0.histories),
        elapsed_between(state.last_poll_nanos, now_nanos) >= MIN_POLL_NANOS ==> poll_spec(
            state,
            now_nanos,
            readings,
        ).1.len() == readings.len(),
{
    let elapsed = elapsed_between(state.last_poll_nanos, now_nanos);
    lemma_observe_all_keeps_bounds(state.histories, readings, elapsed);
    lemma_observe_all_shape(state.histories, readings, elapsed);
}

/// What a poll that counts derives for an interface that it knew, where no
/// two readings are of one interface: the newest sample of its window is the
/// growth of each counter since the last poll divided by the time between
/// the polls, `(current - last) * 10^9 / elapsed` bytes per second, and zero
/// for a counter that did not grow or went backwards. The counters read
/// become the baseline of the next poll.
pub proof fn lemma_poll_derives_rates(
    state: EngineView,
    now_nanos: u128,
    readings: Seq<ReadingView>,
    i: int,
)
    requires
        elapsed_between(state.last_poll_nanos, now_nanos) >= MIN_POLL_NANOS,
        distinct_names(readings),
        0 <= i < readings.len(),
        state.histories.contains_key(readings[i].name),
    ensures
        ({
            let elapsed = elapsed_between(state.last_poll_nanos, now_nanos);
            let reading = readings[i];
            let before = state.histories[reading.name];
            let after = poll_spec(state, now_nanos, readings).0.histories[reading.name];
            let newest = after.samples.last();
            &&& poll_spec(state, now_nanos, readings).0.histories.contains_key(reading.name)
            &&& after.last_received == reading.total_received
            &&& after.last_transmitted == reading.total_transmitted
            &&& after.samples == slide(before.samples, newest)
            &&& reading.total_received > before.last_received ==> newest.rx == (
            reading.total_received - before.last_received) * NANOS_PER_SECOND / elapsed as int
            &&& reading.total_received <= before.last_received ==> newest.rx == 0
            &&& reading.total_transmitted > before.last_transmitted ==> newest.tx == (
            reading.total_transmitted - before.last_transmitted) * NANOS_PER_SECOND
                / elapsed as int
            &&& reading.total_transmitted <= before.last_transmitted ==> newest.tx == 0
        }),
{
    let elapsed = elapsed_between(state.last_poll_nanos, now_nanos);
    let reading = readings[i];
    let before = state.histories[reading.name];
    lemma_poll_by_interface(state.histories, readings, elapsed, i);
    lemma_observed_sample_exact(
        before,
        reading.total_received,
        reading.total_transmitted,
        elapsed,
    );
    assert(0 * (NANOS_PER_SECOND as nat) / elapsed == 0) by (nonlinear_arith)
        requires
            elapsed > 0,
    ;
}

/// What a poll that counts shows of each interface, where no two readings
/// are of one interface: the means, rounded down, of the receive and of the
/// transmit rates in its window as the poll leaves it.
pub proof fn lemma_poll_shows_window_means(
    state: EngineView,
    now_nanos: u128,
    readings: Seq<ReadingView>,
    i: int,
)
    requires
        windows_bounded(state.histories),
        elapsed_between(state.last_poll_nanos, now_nanos) >= MIN_POLL_NANOS,
        distinct_names(readings),
        0 <= i < readings.len(),
    ensures
        ({
            let (after, shown) = poll_spec(state, now_nanos, readings);
            let window = after.histories[readings[i].name].samples;
            &&& after.histories.contains_key(readings[i].name)
            &&& 1 <= window.len() <= WINDOW_CAPACITY
            &&& shown[i].rx_rate == mean_rx(window)
            &&& shown[i].tx_rate == mean_tx(window)
        }),
{
    let elapsed = elapsed_between(state.last_poll_nanos, now_nanos);
    lemma_poll_by_interface(state.histories, readings, elapsed, i);
    lemma_observe_all_keeps_bounds(state.histories, readings, elapsed);
    let after = observe_all(state.histories, readings, elapsed).0;
    lemma_snapshot_rates_exact(readings[i], after[readings[i].name]);
}

} // verus!
