//! The aggregator: the single consumer of the event bus. It folds byte-count
//! events into the current window and, on each report tick, hands out the
//! rate sample of the window and opens a new one.
//!
//! Times are microseconds on a monotonic clock. A tick that finds no time
//! elapsed since the window opened yields no sample: the window, with its
//! bytes, carries on into the next tick. Ticks are never coalesced: each one
//! that arrives is processed on its own.

use vstd::prelude::*;
use crate::rate::{format_rate, rate_text, scale_factor, scaled_tenths};
use crate::text::{decimal, digit_chars};

verus! {

/// What the producers put on the bus.
#[derive(Clone, Copy, Debug, PartialEq, Eq, Structural)]
pub enum Event {
    /// This many bytes were just received.
    ByteCount(u64),
    /// A reporting boundary was reached.
    ReportTick,
}

/// The bytes of one window and the time it lasted.
#[derive(Clone, Copy, Debug, PartialEq, Eq, Structural)]
pub struct RateSample {
    pub bytes: u64,
    pub elapsed_micros: u64,
}

impl RateSample {
    pub open spec fn wf(&self) -> bool {
        self.elapsed_micros > 0
    }

    /// The text that `render` returns.
    pub open spec fn render_spec(&self) -> Seq<char> {
        rate_text(self.bytes as nat, self.elapsed_micros as nat)
    }

    /// The sample's rate rendered with a scaled unit.
    pub fn render(&self) -> (r: String)
        requires
            self.wf(),
        ensures
            r@ == self.render_spec(),
    {
        format_rate(self.bytes, self.elapsed_micros)
    }
}

/// The state of the current window: the bytes seen since it opened and the
/// time it opened.
#[derive(Clone, Copy, Debug, PartialEq, Eq, Structural)]
pub struct Aggregator {
    pub accumulated_bytes: u64,
    pub window_start: u64,
}

/// `a + b`, capped at `u64::MAX`.
pub open spec fn capped_sum(a: nat, b: nat) -> u64 {
    if a + b > u64::MAX {
        u64::MAX
    } else {
        (a + b) as u64
    }
}

impl Aggregator {
    /// The window state and the sample, if any, after one event at time `now`.
    pub open spec fn step(self, ev: Event, now: u64) -> (Aggregator, Option<RateSample>) {
        match ev {
            Event::ByteCount(n) => (
                Aggregator {
                    accumulated_bytes: capped_sum(self.accumulated_bytes as nat, n as nat),
                    window_start: self.window_start,
                },
                None,
            ),
            Event::ReportTick => {
                if now > self.window_start {
                    (
                        Aggregator { accumulated_bytes: 0, window_start: now },
                        Some(
                            RateSample {
                                bytes: self.accumulated_bytes,
                                elapsed_micros: (now - self.window_start) as u64,
                            },
                        ),
                    )
                } else {
                    (self, None)
                }
            },
        }
    }

    /// The window state and the samples, in order, after a timed sequence of
    /// events.
    pub open spec fn run(self, evs: Seq<(Event, u64)>) -> (Aggregator, Seq<RateSample>)
        decreases evs.len(),
    {
        if evs.len() == 0 {
            (self, Seq::empty())
        } else {
            let (w, out) = self.run(evs.drop_last());
            let (w2, s) = w.step(evs.last().0, evs.last().1);
            match s {
                Some(sample) => (w2, out.push(sample)),
                None => (w2, out),
            }
        }
    }

    /// An empty window opened at `now`.
    pub fn new(now: u64) -> (r: Aggregator)
        ensures
            r.accumulated_bytes == 0,
            r.window_start == now,
    {
        Aggregator { accumulated_bytes: 0, window_start: now }
    }

    /// Processes one event received at time `now`, returning the sample that
    /// a tick completes.
    pub fn on_event(&mut self, ev: Event, now: u64) -> (r: Option<RateSample>)
        ensures
            (*final(self), r) == old(self).step(ev, now),
    {
        match ev {
            Event::ByteCount(n) => {
                if n > u64::MAX - self.accumulated_bytes {
                    self.accumulated_bytes = u64::MAX;
                } else {
                    self.accumulated_bytes = self.accumulated_bytes + n;
                }
                None
            },
            Event::ReportTick => {
                if now > self.window_start {
                    let sample = RateSample {
                        bytes: self.accumulated_bytes,
                        elapsed_micros: now - self.window_start,
                    };
                    self.accumulated_bytes = 0;
                    self.window_start = now;
                    Some(sample)
                } else {
                    None
                }
            },
        }
    }

    /// The sample of the window still open when the bus closes at time
    /// `now`, if any time has elapsed in it.
    pub fn finish(&self, now: u64) -> (r: Option<RateSample>)
        ensures
            r == self.step(Event::ReportTick, now).1,
    {
        if now > self.window_start {
            Some(RateSample { bytes: self.accumulated_bytes, elapsed_micros: now - self.window_start })
        } else {
            None
        }
    }
}


/// The sum of the byte counts in a timed sequence of events.
pub open spec fn byte_total(evs: Seq<(Event, u64)>) -> nat
    decreases evs.len(),
{
    if evs.len() == 0 {
        0
    } else {
        byte_total(evs.drop_last()) + match evs.last().0 {
            Event::ByteCount(n) => n as nat,
            Event::ReportTick => 0,
        }
    }
}

/// Whether every event of the sequence is a byte count.
pub open spec fn all_byte_counts(evs: Seq<(Event, u64)>) -> bool {
    forall|i: int| 0 <= i < evs.len() ==> (#[trigger] evs[i]).0 is ByteCount
}

proof fn lemma_counts_accumulate(w: Aggregator, evs: Seq<(Event, u64)>)
    requires
        all_byte_counts(evs),
    ensures
        w.run(evs).0 == (Aggregator {
            accumulated_bytes: capped_sum(w.accumulated_bytes as nat, byte_total(evs)),
            window_start: w.window_start,
        }),
        w.run(evs).1.len() == 0,
    decreases evs.len(),
{
    if evs.len() > 0 {
        let init = evs.drop_last();
        assert forall|i: int| 0 <= i < init.len() implies (#[trigger] init[i]).0 is ByteCount by {
            assert(init[i] == evs[i]);
        }
        assert(evs.last() == evs[evs.len() - 1]);
        lemma_counts_accumulate(w, init);
    }
}

/// Whatever times the byte counts between two ticks arrive at, the sample
/// that the second tick hands out holds the sum of those counts, added to
/// what the window held (capped at `u64::MAX`), over the time elapsed since
/// the window opened; and its text is that rate.
pub proof fn lemma_window_rate(w: Aggregator, evs: Seq<(Event, u64)>, tick_at: u64)
    requires
        all_byte_counts(evs),
        tick_at > w.window_start,
    ensures
        w.run(evs).1.len() == 0,
        w.run(evs).0.step(Event::ReportTick, tick_at).1 == Some(
            RateSample {
                bytes: capped_sum(w.accumulated_bytes as nat, byte_total(evs)),
                elapsed_micros: (tick_at - w.window_start) as u64,
            },
        ),
        w.accumulated_bytes + byte_total(evs) <= u64::MAX ==> capped_sum(
            w.accumulated_bytes as nat,
            byte_total(evs),
        ) == w.accumulated_bytes + byte_total(evs),
        w.run(evs.push((Event::ReportTick, tick_at))).1 == seq![
            RateSample {
                bytes: capped_sum(w.accumulated_bytes as nat, byte_total(evs)),
                elapsed_micros: (tick_at - w.window_start) as u64,
            },
        ],
        w.run(evs.push((Event::ReportTick, tick_at))).1[0].render_spec() == rate_text(
            capped_sum(w.accumulated_bytes as nat, byte_total(evs)) as nat,
            (tick_at - w.window_start) as nat,
        ),
{
    lemma_counts_accumulate(w, evs);
    let all = evs.push((Event::ReportTick, tick_at));
    assert(all.drop_last() =~= evs);
    assert(w.run(all).1 =~= seq![
        RateSample {
            bytes: capped_sum(w.accumulated_bytes as nat, byte_total(evs)),
            elapsed_micros: (tick_at - w.window_start) as u64,
        },
    ]);
}

/// Two windows opened alike, fed byte counts with the same sum in any order
/// and at any times, end at the same tick with the same sample.
pub proof fn lemma_order_irrelevant(
    w: Aggregator,
    a: Seq<(Event, u64)>,
    b: Seq<(Event, u64)>,
    tick_at: u64,
)
    requires
        all_byte_counts(a),
        all_byte_counts(b),
        byte_total(a) == byte_total(b),
    ensures
        w.run(a.push((Event::ReportTick, tick_at))) == w.run(b.push((Event::ReportTick, tick_at))),
{
    lemma_counts_accumulate(w, a);
    lemma_counts_accumulate(w, b);
    assert(a.push((Event::ReportTick, tick_at)).drop_last() =~= a);
    assert(b.push((Event::ReportTick, tick_at)).drop_last() =~= b);
    assert(w.run(a).1 =~= w.run(b).1);
}

/// Running two sequences one after the other is running their
/// concatenation.
proof fn lemma_run_concat(w: Aggregator, x: Seq<(Event, u64)>, y: Seq<(Event, u64)>)
    ensures
        w.run(x + y) == (w.run(x).0.run(y).0, w.run(x).1 + w.run(x).0.run(y).1),
    decreases y.len(),
{
    if y.len() == 0 {
        assert(x + y =~= x);
        assert(w.run(x).1 + w.run(x).0.run(y).1 =~= w.run(x).1);
    } else {
        lemma_run_concat(w, x, y.drop_last());
        assert((x + y).drop_last() =~= x + y.drop_last());
        assert((x + y).last() == y.last());
        let mid = w.run(x).0;
        let (_, s) = mid.run(y.drop_last()).0.step(y.last().0, y.last().1);
        match s {
            Some(sample) => {
                assert(w.run(x).1 + mid.run(y).1 =~= (w.run(x).1 + mid.run(y.drop_last()).1).push(
                    sample,
                ));
            },
            None => {},
        }
    }
}

/// The byte total of a concatenation is the sum of the totals.
proof fn lemma_total_concat(x: Seq<(Event, u64)>, y: Seq<(Event, u64)>)
    ensures
        byte_total(x + y) == byte_total(x) + byte_total(y),
    decreases y.len(),
{
    if y.len() == 0 {
        assert(x + y =~= x);
    } else {
        lemma_total_concat(x, y.drop_last());
        assert((x + y).drop_last() =~= x + y.drop_last());
        assert((x + y).last() == y.last());
    }
}

/// A stream whose chunks are split by two ticks into a run `first` and a
/// run `second`, with time elapsed in each window, gives exactly two
/// samples: the first holds the bytes of `first` over the first window's
/// time, the second those of `second` over the time between the ticks.
/// When no count is capped, the two hold all the bytes of the stream.
pub proof fn lemma_two_windows(
    w: Aggregator,
    first: Seq<(Event, u64)>,
    t1: u64,
    second: Seq<(Event, u64)>,
    t2: u64,
)
    requires
        w.accumulated_bytes == 0,
        all_byte_counts(first),
        all_byte_counts(second),
        w.window_start < t1 < t2,
    ensures
        w.run(first.push((Event::ReportTick, t1)) + second.push((Event::ReportTick, t2))).1 == seq![
            RateSample {
                bytes: capped_sum(0, byte_total(first)),
                elapsed_micros: (t1 - w.window_start) as u64,
            },
            RateSample { bytes: capped_sum(0, byte_total(second)), elapsed_micros: (t2 - t1) as u64 },
        ],
        byte_total(first + second) <= u64::MAX ==> capped_sum(0, byte_total(first)) + capped_sum(
            0,
            byte_total(second),
        ) == byte_total(first + second),
{
    let x = first.push((Event::ReportTick, t1));
    let y = second.push((Event::ReportTick, t2));
    lemma_window_rate(w, first, t1);
    lemma_counts_accumulate(w, first);
    let mid = w.run(x).0;
    assert(x.drop_last() =~= first);
    assert(mid == Aggregator { accumulated_bytes: 0, window_start: t1 });
    lemma_window_rate(mid, second, t2);
    lemma_run_concat(w, x, y);
    lemma_total_concat(first, second);
    assert(w.run(x + y).1 =~= w.run(x).1 + mid.run(y).1);
}

/// A tick that ends a window empties it: a second tick with no byte count in
/// between reports zero bytes over the time between the two ticks, or
/// nothing when no time has elapsed.
pub proof fn lemma_tick_resets(w: Aggregator, first: u64, second: u64)
    requires
        first > w.window_start,
    ensures
        w.step(Event::ReportTick, first).0.accumulated_bytes == 0,
        second > first ==> w.step(Event::ReportTick, first).0.step(Event::ReportTick, second).1
            == Some(RateSample { bytes: 0, elapsed_micros: (second - first) as u64 }),
        second > first ==> rate_text(0, (second - first) as nat) == seq!['0', '.', '0', ' ', 'B', '/', 's'],
        second <= first ==> w.step(Event::ReportTick, first).0.step(
            Event::ReportTick,
            second,
        ).1 is None,
{
    if second > first {
        let m = (second - first) as nat;
        assert(scale_factor(0, m) == 1);
        assert((m as int) / (2 * m as int) == 0) by (nonlinear_arith)
            requires m > 0;
        assert(scaled_tenths(0, m) == 0);
        assert(decimal(0) == seq![digit_chars()[0]]);
        assert(rate_text(0, m) =~= seq!['0', '.', '0', ' ', 'B', '/', 's']);
    }
}

} // verus!
