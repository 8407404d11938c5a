//! Transfer rates in whole bytes per second, and the short window of recent
//! rates that smooths them.

use vstd::prelude::*;

verus! {

/// Nanoseconds in one second.
pub const NANOS_PER_SECOND: u128 = 1_000_000_000;

/// The shortest interval, in nanoseconds, over which a rate is derived
/// (a tenth of a second).
pub const MIN_POLL_NANOS: u128 = 100_000_000;

/// The number of samples that the smoothing window holds at most.
pub const WINDOW_CAPACITY: usize = 3;

/// One pair of instantaneous rates, in bytes per second.
#[derive(Clone, Copy, Debug, PartialEq, Eq, Structural)]
pub struct RateSample {
    pub rx: u128,
    pub tx: u128,
}

/// How far a cumulative counter moved forward; a counter that went backwards
/// (a reset) counts as not having moved.
pub open spec fn counter_delta(current: u64, last: u64) -> nat {
    if current >= last {
        (current - last) as nat
    } else {
        0
    }
}

/// `delta` bytes over `elapsed_nanos` nanoseconds, as whole bytes per second
/// (rounded down).
pub open spec fn rate_per_second(delta: nat, elapsed_nanos: nat) -> nat
    recommends
        elapsed_nanos > 0,
{
    delta * (NANOS_PER_SECOND as nat) / elapsed_nanos
}

/// The rate at which a counter grew from `last` to `current` in
/// `elapsed_nanos` nanoseconds.
pub fn counter_rate(current: u64, last: u64, elapsed_nanos: u128) -> (rate: u128)
    requires
        elapsed_nanos > 0,
    ensures
        rate == rate_per_second(counter_delta(current, last), elapsed_nanos as nat),
{
    let delta: u64 = current.saturating_sub(last);
    let scaled: u128 = (delta as u128) * NANOS_PER_SECOND;
    scaled / elapsed_nanos
}

/// A rate over any interval is at most the growth of the counter times the
/// nanoseconds of a second; over at least a tenth of a second it is at most
/// ten times the growth.
pub proof fn lemma_rate_bound(delta: nat, elapsed_nanos: nat)
    requires
        elapsed_nanos > 0,
    ensures
        rate_per_second(delta, elapsed_nanos) <= delta * NANOS_PER_SECOND,
        elapsed_nanos >= MIN_POLL_NANOS ==> rate_per_second(delta, elapsed_nanos) <= 10 * delta,
{
    let scaled = delta * (NANOS_PER_SECOND as nat);
    assert(scaled / elapsed_nanos <= scaled) by (nonlinear_arith)
        requires
            elapsed_nanos > 0,
    ;
    if elapsed_nanos >= MIN_POLL_NANOS {
        assert(scaled == (10 * delta) * (MIN_POLL_NANOS as nat)) by (nonlinear_arith)
            requires
                scaled == delta * 1_000_000_000,
                MIN_POLL_NANOS == 100_000_000,
        ;
        assert(scaled / elapsed_nanos <= 10 * delta) by (nonlinear_arith)
            requires
                scaled == (10 * delta) * 100_000_000,
                elapsed_nanos >= 100_000_000,
        ;
    }
}

/// The window after `sample` arrived: it is appended, and the oldest sample
/// leaves if the window then holds more than its capacity.
pub open spec fn slide(window: Seq<RateSample>, sample: RateSample) -> Seq<RateSample> {
    let grown = window.push(sample);
    if grown.len() > WINDOW_CAPACITY {
        grown.drop_first()
    } else {
        grown
    }
}

/// The sum of `values`.
pub open spec fn total(values: Seq<nat>) -> nat
    decreases values.len(),
{
    if values.len() == 0 {
        0
    } else {
        total(values.drop_last()) + values.last()
    }
}

/// The arithmetic mean of `values`, rounded down.
pub open spec fn mean(values: Seq<nat>) -> nat
    recommends
        values.len() > 0,
{
    total(values) / values.len()
}

/// The receive rates of `window`, oldest first.
pub open spec fn rx_rates(window: Seq<RateSample>) -> Seq<nat> {
    Seq::new(window.len(), |i: int| window[i].rx as nat)
}

/// The transmit rates of `window`, oldest first.
pub open spec fn tx_rates(window: Seq<RateSample>) -> Seq<nat> {
    Seq::new(window.len(), |i: int| window[i].tx as nat)
}

/// The arithmetic mean of the receive rates of `window`, rounded down.
pub open spec fn mean_rx(window: Seq<RateSample>) -> nat
    recommends
        window.len() > 0,
{
    mean(rx_rates(window))
}

/// The arithmetic mean of the transmit rates of `window`, rounded down.
pub open spec fn mean_tx(window: Seq<RateSample>) -> nat
    recommends
        window.len() > 0,
{
    mean(tx_rates(window))
}

/// `values` as natural numbers.
pub open spec fn as_nats(values: Seq<u128>) -> Seq<nat> {
    Seq::new(values.len(), |i: int| values[i] as nat)
}

/// The sum of the whole quotients of `values` by `n`.
spec fn quotients(values: Seq<nat>, n: nat) -> nat
    decreases values.len(),
{
    if values.len() == 0 {
        0
    } else {
        quotients(values.drop_last(), n) + values.last() / n
    }
}

/// The sum of the remainders of `values` by `n`.
spec fn remainders(values: Seq<nat>, n: nat) -> nat
    decreases values.len(),
{
    if values.len() == 0 {
        0
    } else {
        remainders(values.drop_last(), n) + values.last() % n
    }
}

/// A sum splits into its quotients and remainders by `n`.
proof fn lemma_total_split(values: Seq<nat>, n: nat)
    requires
        n > 0,
    ensures
        total(values) == n * quotients(values, n) + remainders(values, n),
        remainders(values, n) <= values.len() * (n - 1),
    decreases values.len(),
{
    if values.len() == 0 {
        assert(n * 0 == 0);
    } else {
        let rest = values.drop_last();
        let last = values.last();
        lemma_total_split(rest, n);
        vstd::arithmetic::div_mod::lemma_fundamental_div_mod(last as int, n as int);
        vstd::arithmetic::div_mod::lemma_mod_pos_bound(last as int, n as int);
        let q = quotients(rest, n);
        let d = last / n;
        assert(n * (q + d) == n * q + n * d) by (nonlinear_arith);
        assert(values.len() * (n - 1) == rest.len() * (n - 1) + (n - 1)) by (nonlinear_arith)
            requires
                values.len() == rest.len() + 1,
        ;
    }
}

/// The mean is the sum of the quotients by the count, plus what the
/// remainders add up to.
proof fn lemma_mean_split(values: Seq<nat>)
    requires
        values.len() > 0,
    ensures
        mean(values) == quotients(values, values.len()) + remainders(values, values.len())
            / values.len(),
{
    let n = values.len();
    let q = quotients(values, n);
    let r = remainders(values, n);
    lemma_total_split(values, n);
    vstd::arithmetic::div_mod::lemma_fundamental_div_mod(r as int, n as int);
    let rq = r / n;
    let rr = r % n;
    assert(n * q + r == (q + rq) * n + rr) by (nonlinear_arith)
        requires
            r == n * rq + rr,
    ;
    vstd::arithmetic::div_mod::lemma_fundamental_div_mod_converse(
        (n * q + r) as int,
        n as int,
        (q + rq) as int,
        rr as int,
    );
}

/// The mean of values lies within what the values fit in: it is no larger
/// than any bound on all of them.
pub proof fn lemma_mean_bound(values: Seq<nat>, bound: nat)
    requires
        values.len() > 0,
        forall|i: int| 0 <= i < values.len() ==> #[trigger] values[i] <= bound,
    ensures
        mean(values) <= bound,
{
    lemma_total_bound(values, bound);
    let n = values.len();
    let t = total(values);
    assert(t / n <= bound) by (nonlinear_arith)
        requires
            n > 0,
            t <= n * bound,
    ;
}

proof fn lemma_total_bound(values: Seq<nat>, bound: nat)
    requires
        forall|i: int| 0 <= i < values.len() ==> #[trigger] values[i] <= bound,
    ensures
        total(values) <= values.len() * bound,
    decreases values.len(),
{
    if values.len() > 0 {
        let rest = values.drop_last();
        assert forall|i: int| 0 <= i < rest.len() implies #[trigger] rest[i] <= bound by {
            assert(rest[i] == values[i]);
        }
        lemma_total_bound(rest, bound);
        assert(values.len() * bound == rest.len() * bound + bound) by (nonlinear_arith)
            requires
                values.len() == rest.len() + 1,
        ;
    }
}

/// The arithmetic mean of `values`, rounded down. No intermediate sum
/// leaves the range of the values.
pub fn mean_of(values: &Vec<u128>) -> (m: u128)
    requires
        values.len() > 0,
    ensures
        m == mean(as_nats(values@)),
{
    let ghost all = as_nats(values@);
    let count: usize = values.len();
    let n: u128 = count as u128;
    let mut whole: u128 = 0;
    let mut rest: u128 = 0;
    let mut i: usize = 0;
    while i < count
        invariant
            count == values.len(),
            n == count,
            n > 0,
            i <= count,
            all == as_nats(values@),
            whole == quotients(all.take(i as int), n as nat),
            rest == remainders(all.take(i as int), n as nat),
            whole <= i * (u128::MAX / n),
            rest <= i * (n - 1),
        decreases count - i,
    {
        let v: u128 = values[i];
        proof {
            assert(all.take(i + 1).drop_last() =~= all.take(i as int));
            assert(v / n <= u128::MAX / n) by (nonlinear_arith)
                requires
                    v <= u128::MAX,
                    n > 0,
            ;
            assert((i + 1) * (u128::MAX / n) == i * (u128::MAX / n) + u128::MAX / n)
                by (nonlinear_arith);
            assert((i + 1) * (u128::MAX / n) <= u128::MAX) by (nonlinear_arith)
                requires
                    i + 1 <= n,
                    n > 0,
            ;
            assert((i + 1) * (n - 1) == i * (n - 1) + (n - 1)) by (nonlinear_arith);
            assert((i + 1) * (n - 1) <= usize::MAX * usize::MAX) by (nonlinear_arith)
                requires
                    i + 1 <= n,
                    n <= usize::MAX,
            ;
        }
        whole = whole + v / n;
        rest = rest + v % n;
        i = i + 1;
    }
    proof {
        assert(all.take(count as int) =~= all);
        lemma_mean_split(all);
        assert forall|k: int| 0 <= k < all.len() implies #[trigger] all[k] <= u128::MAX by {}
        lemma_mean_bound(all, u128::MAX as nat);
    }
    whole + rest / n
}

/// The most recent rate samples of one interface, oldest first.
pub struct RateWindow {
    samples: Vec<RateSample>,
}

impl View for RateWindow {
    type V = Seq<RateSample>;

    closed spec fn view(&self) -> Seq<RateSample> {
        self.samples@
    }
}

impl RateWindow {
    /// The window holds no more than its capacity.
    #[verifier::type_invariant]
    pub open spec fn bounded(&self) -> bool {
        self@.len() <= WINDOW_CAPACITY
    }

    /// An empty window.
    pub fn new() -> (window: RateWindow)
        ensures
            window@ == Seq::<RateSample>::empty(),
    {
        RateWindow { samples: Vec::new() }
    }

    /// The number of samples held.
    pub fn len(&self) -> (n: usize)
        ensures
            n == self@.len(),
            n <= WINDOW_CAPACITY,
    {
        proof {
            use_type_invariant(self);
        }
        self.samples.len()
    }

    /// The sample at position `i`, counted from the oldest.
    pub fn get(&self, i: usize) -> (sample: RateSample)
        requires
            i < self@.len(),
        ensures
            sample == self@[i as int],
    {
        self.samples[i]
    }

    /// The samples held, oldest first.
    pub fn to_vec(&self) -> (samples: Vec<RateSample>)
        ensures
            samples@ == self@,
    {
        let mut samples: Vec<RateSample> = Vec::new();
        let mut i: usize = 0;
        while i < self.samples.len()
            invariant
                i <= self.samples@.len(),
                samples@ == self.samples@.take(i as int),
            decreases self.samples@.len() - i,
        {
            samples.push(self.samples[i]);
            assert(self.samples@.take(i + 1) =~= self.samples@.take(i as int).push(
                self.samples@[i as int],
            ));
            i = i + 1;
        }
        samples
    }

    /// Appends `sample`, evicting the oldest sample if the window was full.
    pub fn record(&mut self, sample: RateSample)
        ensures
            final(self)@ == slide(old(self)@, sample),
            1 <= final(self)@.len() <= WINDOW_CAPACITY,
            final(self)@.last() == sample,
    {
        proof {
            use_type_invariant(&*self);
        }
        let mut samples: Vec<RateSample> = Vec::new();
        core::mem::swap(&mut self.samples, &mut samples);
        samples.push(sample);
        if samples.len() > WINDOW_CAPACITY {
            let _ = samples.remove(0);
        }
        self.samples = samples;
    }

    /// The smoothed rates: the mean of the samples held, each rounded down.
    pub fn smoothed(&self) -> (mean: RateSample)
        requires
            self@.len() > 0,
        ensures
            mean.rx == mean_rx(self@),
            mean.tx == mean_tx(self@),
    {
        let mut rx: Vec<u128> = Vec::new();
        let mut tx: Vec<u128> = Vec::new();
        let mut i: usize = 0;
        while i < self.samples.len()
            invariant
                i <= self.samples@.len(),
                rx@.len() == i,
                tx@.len() == i,
                forall|k: int| 0 <= k < i ==> #[trigger] rx@[k] == self.samples@[k].rx,
                forall|k: int| 0 <= k < i ==> #[trigger] tx@[k] == self.samples@[k].tx,
            decreases self.samples@.len() - i,
        {
            rx.push(self.samples[i].rx);
            tx.push(self.samples[i].tx);
            i = i + 1;
        }
        assert(as_nats(rx@) =~= rx_rates(self@));
        assert(as_nats(tx@) =~= tx_rates(self@));
        RateSample { rx: mean_of(&rx), tx: mean_of(&tx) }
    }
}

} // verus!
