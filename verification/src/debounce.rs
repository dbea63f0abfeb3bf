//! The debounce operator: suppress bursts of events, keeping only the most
//! recent one after a quiescence period.
//!
//! The operator is an explicit state machine with two fields — the buffered
//! item and its deadline — driven by whoever owns the event source: report
//! each arriving item with `on_item`, poll `check_deadline` when time has
//! passed, and call `on_complete` when the source ends.  A zero wait
//! disables buffering entirely.

use vstd::prelude::*;

verus! {

/// Debounce state: at most one buffered item, due at `deadline`.
#[derive(Debug)]
pub struct Debounce<T> {
    /// Quiescence period in milliseconds; zero disables debouncing.
    pub wait: u64,
    /// The most recent item, not yet emitted.  Arriving items replace it.
    pub buffered: Option<T>,
    /// Absolute time (milliseconds) at which the buffered item is due;
    /// meaningful only while `buffered` is `Some`.
    pub deadline: u64,
}

impl<T> Debounce<T> {
    /// An empty debouncer with quiescence period `wait`.
    pub fn new(wait: u64) -> (s: Self)
        ensures
            s.wait == wait,
            s.buffered is None,
    {
        Debounce { wait, buffered: None, deadline: 0 }
    }

    /// An item arrives at time `now`: with a zero wait it is emitted
    /// immediately; otherwise it replaces any buffered item and re-arms
    /// the deadline `wait` from now.
    pub fn on_item(&mut self, item: T, now: u64) -> (emit: Option<T>)
        requires
            now + old(self).wait <= u64::MAX,
        ensures
            final(self).wait == old(self).wait,
            old(self).wait == 0 ==> emit == Some(item)
                && final(self).buffered == old(self).buffered
                && final(self).deadline == old(self).deadline,
            old(self).wait > 0 ==> emit is None
                && final(self).buffered == Some(item)
                && final(self).deadline == now + old(self).wait,
    {
        if self.wait == 0 {
            Some(item)
        } else {
            self.buffered = Some(item);
            self.deadline = now + self.wait;
            None
        }
    }

    /// The clock has reached `now`: if an item is buffered and its
    /// deadline has elapsed, it is emitted and the buffer cleared.
    pub fn check_deadline(&mut self, now: u64) -> (emit: Option<T>)
        ensures
            final(self).wait == old(self).wait,
            final(self).deadline == old(self).deadline,
            (old(self).buffered is Some && now >= old(self).deadline) ==> emit == old(self).buffered
                && final(self).buffered is None,
            !(old(self).buffered is Some && now >= old(self).deadline) ==> emit is None
                && final(self).buffered == old(self).buffered,
    {
        if now >= self.deadline {
            self.buffered.take()
        } else {
            None
        }
    }

    /// The source has completed: a buffered item is emitted once more,
    /// then the buffer stays empty.  An item already flushed is never
    /// re-emitted, since flushing cleared the buffer.
    pub fn on_complete(&mut self) -> (emit: Option<T>)
        ensures
            final(self).wait == old(self).wait,
            final(self).deadline == old(self).deadline,
            emit == old(self).buffered,
            final(self).buffered is None,
    {
        self.buffered.take()
    }
}

/// The output of a debounced run over timed arrivals `(time, item)`,
/// starting with buffer state `buf` (item and its absolute deadline).
///
/// Before each arrival is buffered, a previously buffered item whose
/// deadline has passed is emitted; when the source ends, a buffered item
/// is emitted once more.  A zero wait emits every item immediately.
pub open spec fn run_debounce_from<T>(
    wait: nat,
    arrivals: Seq<(u64, T)>,
    buf: Option<(T, int)>,
) -> Seq<T>
    decreases arrivals.len(),
{
    if arrivals.len() == 0 {
        match buf {
            None => Seq::empty(),
            Some(p) => seq![p.0],
        }
    } else {
        let t = arrivals[0].0;
        let x = arrivals[0].1;
        if wait == 0 {
            seq![x] + run_debounce_from(wait, arrivals.drop_first(), buf)
        } else {
            match buf {
                Some(p) => if p.1 <= t {
                    seq![p.0] + run_debounce_from(wait, arrivals.drop_first(), Some((x, t + wait)))
                } else {
                    run_debounce_from(wait, arrivals.drop_first(), Some((x, t + wait)))
                },
                None => run_debounce_from(wait, arrivals.drop_first(), Some((x, t + wait))),
            }
        }
    }
}

/// The output of debouncing the timed arrivals with quiescence `wait`.
pub open spec fn spec_debounce<T>(wait: nat, arrivals: Seq<(u64, T)>) -> Seq<T> {
    run_debounce_from(wait, arrivals, None)
}

/// Debounce a finite source whose items arrive at the given times, and
/// collect everything that comes out, including the trailing flush when
/// the source completes.
pub fn debounce_all<T: Copy>(wait: u64, arrivals: &Vec<(u64, T)>) -> (out: Vec<T>)
    requires
        forall|k: int|
            0 <= k < arrivals@.len() ==> (#[trigger] arrivals@[k]).0 + wait <= u64::MAX,
    ensures
        out@ == spec_debounce(wait as nat, arrivals@),
{
    let ghost all = arrivals@;
    let mut d = Debounce::<T>::new(wait);
    let mut out: Vec<T> = Vec::new();
    proof {
        assert(all.skip(0) =~= all);
        assert(out@ + run_debounce_from(wait as nat, all, None::<(T, int)>) =~= run_debounce_from(
            wait as nat,
            all,
            None::<(T, int)>,
        ));
    }
    let n = arrivals.len();
    let mut k: usize = 0;
    while k < n
        invariant
            n == all.len(),
            arrivals@ == all,
            k <= n,
            d.wait == wait,
            forall|j: int| 0 <= j < all.len() ==> (#[trigger] all[j]).0 + wait <= u64::MAX,
            wait == 0 ==> d.buffered is None,
            spec_debounce(wait as nat, all) == out@ + run_debounce_from(
                wait as nat,
                all.skip(k as int),
                match d.buffered {
                    None => None,
                    Some(x) => Some((x, d.deadline as int)),
                },
            ),
        decreases n - k,
    {
        proof {
            assert(all.skip(k as int)[0] == all[k as int]);
            assert(all.skip(k as int).drop_first() =~= all.skip(k + 1));
        }
        let ghost out0 = out@;
        let ghost buf0 = match d.buffered {
            None => None,
            Some(x) => Some((x, d.deadline as int)),
        };
        let t = arrivals[k].0;
        let x = arrivals[k].1;
        match d.check_deadline(t) {
            Some(y) => out.push(y),
            None => {},
        }
        match d.on_item(x, t) {
            Some(y) => out.push(y),
            None => {},
        }
        proof {
            let rest = all.skip(k as int).drop_first();
            let buf1 = match d.buffered {
                None => None,
                Some(x) => Some((x, d.deadline as int)),
            };
            assert(out0 + run_debounce_from(wait as nat, all.skip(k as int), buf0) =~= out@
                + run_debounce_from(wait as nat, all.skip(k + 1), buf1));
        }
        k = k + 1;
    }
    proof {
        assert(all.skip(n as int) =~= Seq::<(u64, T)>::empty());
    }
    match d.on_complete() {
        Some(y) => out.push(y),
        None => {},
    }
    out
}

/// With a zero wait, every item is emitted immediately, in arrival order.
pub proof fn lemma_debounce_zero_wait<T>(arrivals: Seq<(u64, T)>)
    ensures
        spec_debounce(0, arrivals) == arrivals.map_values(|p: (u64, T)| p.1),
    decreases arrivals.len(),
{
    if arrivals.len() == 0 {
        assert(spec_debounce(0, arrivals) =~= arrivals.map_values(|p: (u64, T)| p.1));
    } else {
        lemma_debounce_zero_wait(arrivals.drop_first());
        assert(arrivals.map_values(|p: (u64, T)| p.1) =~= seq![arrivals[0].1]
            + arrivals.drop_first().map_values(|p: (u64, T)| p.1));
    }
}

/// Helper for the burst law: while the buffered deadline lies beyond the
/// next arrival and every gap is shorter than `wait`, nothing is emitted
/// until the trailing flush of the newest item.
proof fn lemma_debounce_burst_from<T>(wait: nat, arrivals: Seq<(u64, T)>, y: T, d: int)
    requires
        wait >= 1,
        forall|k: int|
            0 <= k < arrivals.len() - 1 ==> (#[trigger] arrivals[k + 1]).0 < arrivals[k].0 + wait,
        arrivals.len() >= 1 ==> d > arrivals[0].0,
    ensures
        run_debounce_from(wait, arrivals, Some((y, d))) == if arrivals.len() == 0 {
            seq![y]
        } else {
            seq![arrivals.last().1]
        },
    decreases arrivals.len(),
{
    if arrivals.len() == 0 {
    } else {
        let t = arrivals[0].0;
        let x = arrivals[0].1;
        let rest = arrivals.drop_first();
        assert forall|k: int| 0 <= k < rest.len() - 1 implies (#[trigger] rest[k + 1]).0
            < rest[k].0 + wait by {
            assert(rest[k + 1] == arrivals[k + 2]);
            assert(rest[k] == arrivals[k + 1]);
        }
        if rest.len() >= 1 {
            assert(rest[0] == arrivals[1]);
            assert(arrivals[1].0 < t + wait);
        }
        lemma_debounce_burst_from(wait, rest, x, t + wait);
        if rest.len() >= 1 {
            assert(rest.last() == arrivals.last());
        }
    }
}

/// Burst law: when every arrival comes less than `wait` after the one
/// before it and `wait` is positive, exactly the newest item comes out,
/// at the trailing deadline.
pub proof fn lemma_debounce_burst<T>(wait: nat, arrivals: Seq<(u64, T)>)
    requires
        wait >= 1,
        arrivals.len() >= 1,
        forall|k: int|
            0 <= k < arrivals.len() - 1 ==> (#[trigger] arrivals[k + 1]).0 < arrivals[k].0 + wait,
    ensures
        spec_debounce(wait, arrivals) == seq![arrivals.last().1],
{
    let t = arrivals[0].0;
    let x = arrivals[0].1;
    let rest = arrivals.drop_first();
    assert forall|k: int| 0 <= k < rest.len() - 1 implies (#[trigger] rest[k + 1]).0 < rest[k].0
        + wait by {
        assert(rest[k + 1] == arrivals[k + 2]);
        assert(rest[k] == arrivals[k + 1]);
    }
    if rest.len() >= 1 {
        assert(rest[0] == arrivals[1]);
        assert(arrivals[1].0 < t + wait);
    }
    lemma_debounce_burst_from(wait, rest, x, t + wait);
    if rest.len() >= 1 {
        assert(rest.last() == arrivals.last());
    }
}

/// Trailing-flush law: a source that emits one item and then completes
/// yields exactly that item.
pub proof fn lemma_debounce_trailing_flush<T>(wait: nat, t: u64, x: T)
    ensures
        spec_debounce(wait, seq![(t, x)]) == seq![x],
{
    let arrivals = seq![(t, x)];
    assert(arrivals.drop_first() =~= Seq::<(u64, T)>::empty());
    if wait == 0 {
        assert(run_debounce_from(wait, arrivals.drop_first(), None::<(T, int)>)
            =~= Seq::<T>::empty());
        assert(spec_debounce(wait, arrivals) =~= seq![x]);
    } else {
        assert(run_debounce_from(wait, arrivals.drop_first(), Some((x, t + wait))) == seq![x]);
    }
}

} // verus!
