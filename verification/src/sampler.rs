//! The pulse-counting sampler: turns a stream of edge timestamps into a
//! periodic pulse-rate estimate over a rolling window of at least one
//! second, and keeps a bounded history of past samples, newest first.
//!
//! The surrounding application owns the hardware: it parks a dedicated
//! thread on the edge interrupt and hands each qualifying edge's timestamp
//! to [`PulseCounter::on_edge`]. Every state change is decided here, so the
//! window arithmetic, the history ring and the read-flag discipline are all
//! verified.

use vstd::prelude::*;
use vstd::arithmetic::div_mod::lemma_div_nonincreasing;

verus! {

/// Number of rate samples the history ring retains.
pub const HISTORY_CAPACITY: usize = 200;

/// Length of one sampling window, in microseconds.
pub const WINDOW_US: u64 = 1_000_000;

/// Scale that turns a pulse count over an elapsed time in microseconds
/// into a rate in milli-pulses per second: `count * RATE_SCALE / elapsed_us`.
pub const RATE_SCALE: u64 = 1_000_000_000;

/// Rates at or above this ceiling (in milli-pulses per second) are treated
/// as a disconnected or saturated line by the activity check.
pub const ACTIVE_RATE_CEILING_MILLI: u64 = 28_000;

/// Mathematical model of the sampler state.
pub ghost struct SamplerModel {
    /// Pulses seen since the last window closed.
    pub edge_count: u32,
    /// Milli-pulses per second computed at the last window close.
    pub rate_milli: u64,
    /// Past rates, newest first, at most `HISTORY_CAPACITY` entries.
    pub history: Seq<u64>,
    /// Timestamp (microseconds) of the most recent edge.
    pub last_edge_us: u64,
    /// Timestamp (microseconds) at which the current window opened.
    pub window_start_us: u64,
    /// True from a window close until the consumer next reads the rate.
    pub has_unread_sample: bool,
}

impl SamplerModel {
    /// The history ring never outgrows its capacity.
    pub open spec fn wf(self) -> bool {
        self.history.len() <= 200
    }
}

/// The rate, in milli-pulses per second, of a window that closes with
/// `count` pulses after `elapsed_us` microseconds.
pub open spec fn spec_rate_milli(count: int, elapsed_us: int) -> int
    recommends
        elapsed_us > 0,
{
    count * 1_000_000_000 / elapsed_us
}

/// A window close prepends the new rate and evicts the oldest entry once
/// the ring is full.
pub open spec fn spec_push_sample(history: Seq<u64>, rate: u64) -> Seq<u64> {
    if history.len() < 200 {
        seq![rate] + history
    } else {
        seq![rate] + history.take(199)
    }
}

/// The state after one qualifying edge at time `now_us`: the edge is
/// counted and stamped; if the window is at least one second old it closes,
/// producing a new rate sample.
pub open spec fn spec_on_edge(s: SamplerModel, now_us: u64) -> SamplerModel
    recommends
        s.edge_count < u32::MAX,
        now_us >= s.window_start_us,
{
    let count = (s.edge_count + 1) as u32;
    let elapsed = now_us - s.window_start_us;
    if elapsed < 1_000_000 {
        SamplerModel { edge_count: count, last_edge_us: now_us, ..s }
    } else {
        let rate = spec_rate_milli(count as int, elapsed) as u64;
        SamplerModel {
            edge_count: 0,
            rate_milli: rate,
            history: spec_push_sample(s.history, rate),
            last_edge_us: now_us,
            window_start_us: now_us,
            has_unread_sample: true,
        }
    }
}

/// Reading the current rate returns it and clears the unread-sample flag.
pub open spec fn spec_read_rate(s: SamplerModel) -> (u64, SamplerModel) {
    (s.rate_milli, SamplerModel { has_unread_sample: false, ..s })
}

/// A counter is active when an edge arrived within the last second and the
/// rate sits strictly inside the sanity band.
pub open spec fn spec_is_active(s: SamplerModel, now_us: u64) -> bool
    recommends
        now_us >= s.last_edge_us,
{
    now_us - s.last_edge_us < 1_000_000 && 0 < s.rate_milli < 28_000
}

/// The sampler state after delivering edges at the given times, in order.
pub open spec fn spec_run_edges(s: SamplerModel, times: Seq<u64>) -> SamplerModel
    decreases times.len(),
{
    if times.len() == 0 {
        s
    } else {
        spec_run_edges(spec_on_edge(s, times[0]), times.drop_first())
    }
}

/// The history after a run of window closes with the given rates, oldest
/// close first.
pub open spec fn spec_close_windows(history: Seq<u64>, rates: Seq<u64>) -> Seq<u64>
    decreases rates.len(),
{
    if rates.len() == 0 {
        history
    } else {
        spec_close_windows(spec_push_sample(history, rates[0]), rates.drop_first())
    }
}

/// Generalisation of [`lemma_window_rate`] to a window that already holds
/// some pulses when the run of edges begins.
proof fn lemma_window_rate_rec(s: SamplerModel, times: Seq<u64>)
    requires
        1 <= times.len(),
        s.edge_count + times.len() <= u32::MAX,
        forall|i: int| 0 <= i < times.len() ==> times[i] >= s.window_start_us,
        forall|i: int| 0 <= i < times.len() - 1 ==> times[i] - s.window_start_us < 1_000_000,
        times[times.len() - 1] - s.window_start_us >= 1_000_000,
    ensures
        spec_run_edges(s, times).rate_milli == spec_rate_milli(
            s.edge_count + times.len(),
            times[times.len() - 1] - s.window_start_us,
        ),
        spec_run_edges(s, times).has_unread_sample,
        spec_run_edges(s, times).edge_count == 0,
        spec_run_edges(s, times).window_start_us == times[times.len() - 1],
        spec_run_edges(s, times).history == spec_push_sample(
            s.history,
            spec_run_edges(s, times).rate_milli,
        ),
    decreases times.len(),
{
    let count = s.edge_count + times.len();
    let elapsed = times[times.len() - 1] - s.window_start_us;
    assert(elapsed >= 1_000_000);
    lemma_div_nonincreasing(count * 1_000_000_000, elapsed);
    if times.len() == 1 {
        let s1 = spec_on_edge(s, times[0]);
        assert(times.drop_first().len() == 0);
        assert(spec_run_edges(s1, times.drop_first()) == s1);
        assert(spec_run_edges(s, times) == s1);
    } else {
        let s1 = spec_on_edge(s, times[0]);
        assert(s1.edge_count == s.edge_count + 1);
        assert(s1.window_start_us == s.window_start_us);
        assert(s1.history == s.history);
        let rest = times.drop_first();
        assert(rest[rest.len() - 1] == times[times.len() - 1]);
        assert(forall|i: int| 0 <= i < rest.len() ==> rest[i] == times[i + 1]);
        lemma_window_rate_rec(s1, rest);
        assert(spec_run_edges(s, times) == spec_run_edges(s1, rest));
    }
}

/// For any run of edges delivered within one window where only the last
/// edge reaches the window length, the rate after the close is the number
/// of edges scaled by `RATE_SCALE` and divided by the actual span of the
/// window — pulse count over elapsed wall-clock time.
pub proof fn lemma_window_rate(s: SamplerModel, times: Seq<u64>)
    requires
        s.edge_count == 0,
        1 <= times.len() <= u32::MAX,
        forall|i: int| 0 <= i < times.len() ==> times[i] >= s.window_start_us,
        forall|i: int| 0 <= i < times.len() - 1 ==> times[i] - s.window_start_us < 1_000_000,
        times[times.len() - 1] - s.window_start_us >= 1_000_000,
    ensures
        spec_run_edges(s, times).rate_milli == spec_rate_milli(
            times.len() as int,
            times[times.len() - 1] - s.window_start_us,
        ),
        spec_run_edges(s, times).has_unread_sample,
        spec_run_edges(s, times).history == spec_push_sample(
            s.history,
            spec_run_edges(s, times).rate_milli,
        ),
{
    lemma_window_rate_rec(s, times);
}

/// The history ring keeps at most its capacity of entries, newest first:
/// after a run of closes, entry `i` is the rate of the `(i+1)`-th most
/// recent close, and whatever the ring cannot hold of the older starting
/// entries is gone.
pub proof fn lemma_history_newest_first(history: Seq<u64>, rates: Seq<u64>)
    requires
        history.len() <= 200,
    ensures
        spec_close_windows(history, rates).len() == if history.len() + rates.len() <= 200 {
            history.len() + rates.len()
        } else {
            200nat
        },
        forall|i: int|
            0 <= i < rates.len() && i < 200 ==> spec_close_windows(history, rates)[i] == rates[rates.len()
                - 1 - i],
        forall|i: int|
            rates.len() <= i < spec_close_windows(history, rates).len() ==> spec_close_windows(
                history,
                rates,
            )[i] == history[i - rates.len()],
    decreases rates.len(),
{
    if rates.len() == 0 {
    } else {
        let h1 = spec_push_sample(history, rates[0]);
        let rest = rates.drop_first();
        assert(h1[0] == rates[0]);
        assert(forall|j: int| 0 < j < h1.len() ==> h1[j] == history[j - 1]);
        lemma_history_newest_first(h1, rest);
        let out = spec_close_windows(history, rates);
        assert(out == spec_close_windows(h1, rest));
        assert forall|i: int| 0 <= i < rates.len() && i < 200 implies out[i] == rates[rates.len() - 1
            - i] by {
            if i < rest.len() {
                assert(out[i] == rest[rest.len() - 1 - i]);
                assert(rest[rest.len() - 1 - i] == rates[rates.len() - 1 - i]);
            } else {
                assert(i == rest.len());
                assert(out[i] == h1[0]);
            }
        }
        assert forall|i: int| rates.len() <= i < out.len() implies out[i] == history[i
            - rates.len()] by {
            assert(out[i] == h1[i - rest.len()]);
            assert(h1[i - rest.len()] == history[i - rest.len() - 1]);
        }
    }
}

/// Once more windows have closed than the ring holds, the ring is full and
/// every retained entry comes from the most recent 200 closes: the entries
/// of the earliest closes are absent.
pub proof fn lemma_history_evicts_oldest(rates: Seq<u64>)
    requires
        rates.len() > 200,
    ensures
        spec_close_windows(Seq::<u64>::empty(), rates).len() == 200,
        forall|i: int|
            0 <= i < 200 ==> spec_close_windows(Seq::<u64>::empty(), rates)[i] == rates[rates.len()
                - 1 - i],
{
    lemma_history_newest_first(Seq::<u64>::empty(), rates);
}

/// Reading the rate is idempotent while no window closes: a second read
/// returns the same value and leaves the state where the first read left
/// it, and each read leaves the unread-sample flag false.
pub proof fn lemma_read_rate_idempotent(s: SamplerModel)
    ensures
        spec_read_rate(spec_read_rate(s).1).0 == spec_read_rate(s).0,
        spec_read_rate(spec_read_rate(s).1).1 == spec_read_rate(s).1,
        !spec_read_rate(s).1.has_unread_sample,
{
}

/// A counter whose last edge is at least one window old is inactive, even
/// when the rate stored from a stale window is nonzero.
pub proof fn lemma_stale_counter_inactive(s: SamplerModel, now_us: u64)
    requires
        now_us - s.last_edge_us >= 1_000_000,
    ensures
        !spec_is_active(s, now_us),
{
}

/// Interrupt-driven edge-count state for one sensor input pin.
#[derive(Debug)]
pub struct PulseCounter {
    /// Pulses seen since the last window closed.
    pub edge_count: u32,
    /// Milli-pulses per second computed at the last window close.
    pub rate_milli: u64,
    /// Past rates, newest first, at most `HISTORY_CAPACITY` entries.
    pub history: Vec<u64>,
    /// Timestamp (microseconds) of the most recent edge.
    pub last_edge_us: u64,
    /// Timestamp (microseconds) at which the current window opened.
    pub window_start_us: u64,
    /// True from a window close until the consumer next reads the rate.
    pub has_unread_sample: bool,
}

impl View for PulseCounter {
    type V = SamplerModel;

    open spec fn view(&self) -> SamplerModel {
        SamplerModel {
            edge_count: self.edge_count,
            rate_milli: self.rate_milli,
            history: self.history@,
            last_edge_us: self.last_edge_us,
            window_start_us: self.window_start_us,
            has_unread_sample: self.has_unread_sample,
        }
    }
}

/// The rate of a closing window, in milli-pulses per second.
fn compute_rate_milli(count: u32, elapsed_us: u64) -> (r: u64)
    requires
        elapsed_us >= WINDOW_US,
    ensures
        r == spec_rate_milli(count as int, elapsed_us as int),
{
    let pulses: u64 = count as u64;
    (pulses * RATE_SCALE) / elapsed_us
}

impl PulseCounter {
    /// The history ring never outgrows its capacity.
    pub open spec fn wf(&self) -> bool {
        self@.wf()
    }

    /// A fresh counter: no pulses yet, rate zero, empty history, both
    /// clocks anchored at `now_us`.
    pub fn new(now_us: u64) -> (r: PulseCounter)
        ensures
            r@ == (SamplerModel {
                edge_count: 0,
                rate_milli: 0,
                history: Seq::<u64>::empty(),
                last_edge_us: now_us,
                window_start_us: now_us,
                has_unread_sample: false,
            }),
            r.wf(),
    {
        PulseCounter {
            edge_count: 0,
            rate_milli: 0,
            history: Vec::new(),
            last_edge_us: now_us,
            window_start_us: now_us,
            has_unread_sample: false,
        }
    }

    /// Records one qualifying edge seen at time `now_us` (monotonic,
    /// microseconds): counts it, stamps it, and closes the window once it
    /// is at least one second old.
    pub fn on_edge(&mut self, now_us: u64)
        requires
            old(self).wf(),
            old(self).edge_count < u32::MAX,
            now_us >= old(self).window_start_us,
        ensures
            final(self)@ == spec_on_edge(old(self)@, now_us),
            final(self).wf(),
    {
        self.edge_count = self.edge_count + 1;
        self.last_edge_us = now_us;
        let elapsed_us: u64 = now_us - self.window_start_us;
        if elapsed_us >= WINDOW_US {
            let rate: u64 = compute_rate_milli(self.edge_count, elapsed_us);
            proof {
                lemma_div_nonincreasing(
                    self.edge_count * 1_000_000_000,
                    elapsed_us as int,
                );
            }
            self.rate_milli = rate;
            self.history.insert(0, rate);
            self.history.truncate(HISTORY_CAPACITY);
            self.edge_count = 0;
            self.window_start_us = now_us;
            self.has_unread_sample = true;
            proof {
                assert(final(self)@.history =~= spec_on_edge(old(self)@, now_us).history);
            }
        }
    }

    /// Returns the rate computed at the last window close, in milli-pulses
    /// per second, and marks it as read.
    pub fn current_rate(&mut self) -> (r: u64)
        ensures
            r == spec_read_rate(old(self)@).0,
            final(self)@ == spec_read_rate(old(self)@).1,
    {
        self.has_unread_sample = false;
        self.rate_milli
    }

    /// True when an edge arrived within the last second and the rate sits
    /// strictly inside the sanity band.
    pub fn is_active(&self, now_us: u64) -> (r: bool)
        requires
            now_us >= self.last_edge_us,
        ensures
            r == spec_is_active(self@, now_us),
    {
        now_us - self.last_edge_us < WINDOW_US && self.rate_milli > 0
            && self.rate_milli < ACTIVE_RATE_CEILING_MILLI
    }

    /// Non-destructive peek at the unread-sample flag.
    pub fn has_new_sample(&self) -> (r: bool)
        ensures
            r == self.has_unread_sample,
    {
        self.has_unread_sample
    }

    /// A snapshot copy of the stored rates, newest first.
    pub fn history_snapshot(&self) -> (r: Vec<u64>)
        ensures
            r@ == self.history@,
    {
        let mut out: Vec<u64> = Vec::new();
        let mut i: usize = 0;
        while i < self.history.len()
            invariant
                i <= self.history.len(),
                out@ == self.history@.take(i as int),
            decreases self.history.len() - i,
        {
            out.push(self.history[i]);
            i = i + 1;
        }
        proof {
            assert(out@ =~= self.history@);
        }
        out
    }
}

} // verus!
