//! What was measured, and when.

use std::collections::VecDeque;
use vstd::prelude::*;

use crate::clock::{elapsed, time_since};

verus! {

/// What is older than this is forgotten.
pub const HISTORY_WINDOW: u64 = 60_000_000_000;

/// The time over which a rolling average is taken.
pub const ROLLING_WINDOW: u64 = 3_000_000_000;

/// The least time that the samples of a rolling average have to cover.
pub const ROLLING_WINDOW_LEAST: u64 = 2_990_000_000;

#[derive(Clone, Copy, Debug)]
pub struct Sample<T> {
    pub at: u64,
    pub value: T,
}

#[derive(Debug)]
pub struct History<T> {
    pub samples: VecDeque<Sample<T>>,
}

impl<T> View for History<T> {
    type V = Seq<Sample<T>>;

    open spec fn view(&self) -> Seq<Sample<T>> {
        self.samples@
    }
}

/// How many samples at the start are too old.
pub open spec fn stale<T>(s: Seq<Sample<T>>, now: u64) -> nat
    decreases s.len(),
{
    if s.len() > 0 && elapsed(s[0].at, now) > HISTORY_WINDOW {
        1 + stale(s.skip(1), now)
    } else {
        0
    }
}

/// The last `n` values, the newest first.
pub open spec fn newest_values<T>(s: Seq<Sample<T>>, n: nat) -> Seq<T> {
    Seq::new(
        if n < s.len() {
            n
        } else {
            s.len()
        },
        |i: int| s[s.len() - 1 - i].value,
    )
}

/// Where the window of a rolling average begins that does not reach back before `since`.
pub open spec fn window_start<T>(s: Seq<Sample<T>>, since: u64) -> int {
    let from = s.last().at - ROLLING_WINDOW;
    if from > since {
        from
    } else {
        since as int
    }
}

/// How many samples at the end lie in the window.
pub open spec fn in_window<T>(s: Seq<Sample<T>>, start: int) -> nat
    decreases s.len(),
{
    if s.len() > 0 && s.last().at >= start {
        1 + in_window(s.drop_last(), start)
    } else {
        0
    }
}

/// The values of which the rolling average since a moment is taken, the newest first;
/// `None` while they cover too little time.
pub open spec fn rolling_values<T>(s: Seq<Sample<T>>, since: u64) -> Option<Seq<T>> {
    if s.len() == 0 || s.last().at - window_start(s, since) < ROLLING_WINDOW_LEAST {
        None
    } else {
        Some(newest_values(s, in_window(s, window_start(s, since))))
    }
}

proof fn lemma_in_window<T>(s: Seq<Sample<T>>, start: int, n: nat)
    requires
        n <= s.len(),
        forall|i: int| s.len() - n <= i < s.len() ==> (#[trigger] s[i]).at >= start,
        n == s.len() || s[s.len() - 1 - n].at < start,
    ensures
        in_window(s, start) == n,
    decreases s.len(),
{
    if n > 0 {
        let d = s.drop_last();
        assert(s.last().at >= start);
        assert forall|i: int| d.len() - (n - 1) <= i < d.len() implies (#[trigger] d[i]).at >= start by {
            assert(d[i] == s[i]);
        }
        lemma_in_window(d, start, (n - 1) as nat);
    }
}

impl<T: Copy> History<T> {
    pub fn new() -> (r: Self)
        ensures
            r@ == Seq::<Sample<T>>::empty(),
    {
        let r = History { samples: VecDeque::new() };
        assert(r@ =~= Seq::<Sample<T>>::empty());
        r
    }

    pub fn push(&mut self, at: u64, value: T)
        ensures
            final(self)@ == old(self)@.push(Sample { at, value }),
    {
        self.samples.push_back(Sample { at, value });
    }

    pub fn clear(&mut self)
        ensures
            final(self)@ == Seq::<Sample<T>>::empty(),
    {
        self.samples.clear();
        assert(self@ =~= Seq::<Sample<T>>::empty());
    }

    /// Forgets what is too old.
    pub fn trim_stale_history(&mut self, now: u64)
        ensures
            final(self)@ == old(self)@.skip(stale(old(self)@, now) as int),
    {
        let ghost all = self@;
        let ghost mut gone: nat = 0;
        assert(all.skip(0) =~= all);
        while self.samples.len() > 0 && time_since(self.samples[0].at, now) > HISTORY_WINDOW
            invariant
                gone <= all.len(),
                self@ == all.skip(gone as int),
                stale(all, now) == gone + stale(self@, now),
            decreases self@.len(),
        {
            let ghost before = self@;
            self.samples.pop_front();
            proof {
                assert(self@ =~= before.skip(1));
                assert(before.skip(1) =~= all.skip(gone as int + 1));
                gone = gone + 1;
            }
        }
    }

    /// The moment of the newest sample.
    pub fn newest_at(&self) -> (r: Option<u64>)
        ensures
            r == (if self@.len() > 0 { Some(self@.last().at) } else { None }),
    {
        let n: usize = self.samples.len();
        if n == 0 {
            None
        } else {
            Some(self.samples[n - 1].at)
        }
    }

    /// The last `n` values, the newest first.
    pub fn newest(&self, n: usize) -> (r: Vec<T>)
        ensures
            r@ == newest_values(self@, n as nat),
    {
        let len: usize = self.samples.len();
        let k: usize = if n < len { n } else { len };
        let mut r: Vec<T> = Vec::new();
        let mut i: usize = 0;
        while i < k
            invariant
                i <= k <= len == self@.len(),
                r@ == newest_values(self@, i as nat),
            decreases k - i,
        {
            r.push(self.samples[len - 1 - i].value);
            i = i + 1;
            assert(r@ =~= newest_values(self@, i as nat));
        }
        assert(r@ =~= newest_values(self@, n as nat));
        r
    }

    /// The values of the rolling average since a moment, the newest first.
    pub fn rolling_since(&self, since: u64) -> (r: Option<Vec<T>>)
        ensures
            match r {
                Some(v) => rolling_values(self@, since) == Some(v@) && v@.len() > 0,
                None => rolling_values(self@, since) is None,
            },
    {
        let len: usize = self.samples.len();
        if len == 0 {
            return None;
        }
        let now: u64 = self.samples[len - 1].at;
        let start: u64 = if now > ROLLING_WINDOW && now - ROLLING_WINDOW > since {
            now - ROLLING_WINDOW
        } else {
            since
        };
        assert(start == window_start(self@, since));
        if start > now || now - start < ROLLING_WINDOW_LEAST {
            return None;
        }
        let mut n: usize = 0;
        while n < len && self.samples[len - 1 - n].at >= start
            invariant
                n <= len == self@.len(),
                forall|i: int| len - n <= i < len ==> (#[trigger] self@[i]).at >= start,
            decreases len - n,
        {
            n = n + 1;
        }
        proof {
            lemma_in_window(self@, start as int, n as nat);
            assert(n > 0);
        }
        Some(self.newest(n))
    }
}

/// A trim forgets just the samples that are too old, where they are in the order of time.
pub proof fn law_a_trim_forgets_what_is_old<T>(s: Seq<Sample<T>>, now: u64)
    requires
        forall|i: int, j: int| 0 <= i <= j < s.len() ==> s[i].at <= s[j].at,
    ensures
        stale(s, now) <= s.len(),
        forall|i: int|
            0 <= i < s.len() ==> (i < stale(s, now) <==> elapsed((#[trigger] s[i]).at, now)
                > HISTORY_WINDOW),
    decreases s.len(),
{
    if s.len() > 0 && elapsed(s[0].at, now) > HISTORY_WINDOW {
        let rest = s.skip(1);
        law_a_trim_forgets_what_is_old(rest, now);
        assert forall|i: int| 0 <= i < s.len() implies (i < stale(s, now) <==> elapsed(
            (#[trigger] s[i]).at,
            now,
        ) > HISTORY_WINDOW) by {
            if i > 0 {
                assert(rest[i - 1] == s[i]);
            }
        }
    } else if s.len() > 0 {
        assert forall|i: int| 0 <= i < s.len() implies !(elapsed((#[trigger] s[i]).at, now)
            > HISTORY_WINDOW) by {
            assert(s[0].at <= s[i].at);
        }
    }
}

/// What is older than a minute is too old.
pub proof fn law_a_history_covers_a_minute<T>(s: Seq<Sample<T>>, now: u64)
    requires
        s.len() > 0,
        s[0].at <= now,
    ensures
        stale(s, now) > 0 <==> now - s[0].at > 60_000_000_000,
{
}

/// The newest values are the last ones, the very last first, as many as are wanted and there
/// are.
pub proof fn law_the_newest_values_are_the_last<T>(s: Seq<Sample<T>>, n: nat, i: int)
    ensures
        newest_values(s, n).len() <= n,
        newest_values(s, n).len() <= s.len(),
        newest_values(s, n).len() == n || newest_values(s, n).len() == s.len(),
        0 <= i < newest_values(s, n).len() ==> newest_values(s, n)[i] == s[s.len() - 1 - i].value,
{
}

/// A rolling average is taken of the samples of the last three seconds, of none from before
/// the moment since when, and of no sample twice; and only where the time since that moment
/// is covered but for a hundredth of a second.
pub proof fn law_a_rolling_average_covers_its_window<T>(s: Seq<Sample<T>>, since: u64, i: int)
    requires
        s.len() > 0,
        forall|i: int, j: int| 0 <= i <= j < s.len() ==> s[i].at <= s[j].at,
    ensures
        ({
            let newest = s.last().at;
            let start = if newest - 3_000_000_000 > since {
                newest - 3_000_000_000
            } else {
                since as int
            };
            &&& rolling_values(s, since) is None <==> newest - since < 2_990_000_000
            &&& rolling_values(s, since) matches Some(v) ==> v.len() <= s.len() && (0 <= i < s.len()
                ==> (s[i].at >= start <==> i >= s.len() - v.len())) && (0 <= i < v.len() ==> v[i]
                == s[s.len() - 1 - i].value)
        }),
{
    let start = window_start(s, since);
    lemma_window_holds(s, start, i);
}

proof fn lemma_window_holds<T>(s: Seq<Sample<T>>, start: int, i: int)
    requires
        forall|i: int, j: int| 0 <= i <= j < s.len() ==> s[i].at <= s[j].at,
    ensures
        in_window(s, start) <= s.len(),
        0 <= i < s.len() ==> (s[i].at >= start <==> i >= s.len() - in_window(s, start)),
    decreases s.len(),
{
    if s.len() > 0 {
        let d = s.drop_last();
        assert forall|i: int, j: int| 0 <= i <= j < d.len() implies d[i].at <= d[j].at by {
            assert(s[i].at <= s[j].at);
        }
        lemma_window_holds(d, start, i);
        if 0 <= i < s.len() {
            assert(s[i].at <= s[s.len() - 1].at);
            if i < d.len() {
                assert(d[i] == s[i]);
            }
        }
    }
}

} // verus!
