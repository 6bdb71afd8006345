//! The queue of timed input sequences that waits to be applied.
//!
//! A sequence starts when it arrives, or when the previous one ends if that is
//! later, so its holds keep their emulated length however late it was sent.
use crate::host::HostInput;
use crate::time::{ms_to_clocks, CLOCKS_PER_MS};
use crate::timed::{Timed, TimedInputs};
use std::collections::VecDeque;
use vstd::prelude::*;

verus! {

/// Queued sequences. `D` is what a sequence hands back when it has ended.
pub struct InputTimeline<D> {
    /// Queued events at absolute emulated ms, in order.
    pub events: VecDeque<(u64, HostInput)>,
    /// The end of each queued sequence with what it hands back, in order.
    pub ends: VecDeque<(u64, D)>,
    /// End of the last queued sequence.
    pub end_ms: u64,
}

/// Queued sequences.
#[verifier::ext_equal]
#[verifier::reject_recursive_types(D)]
pub struct Queue<D> {
    pub events: Seq<(nat, HostInput)>,
    pub ends: Seq<(nat, D)>,
    pub end: nat,
}

/// Things with their times.
pub open spec fn at_times<T>(s: Seq<(u64, T)>) -> Seq<(nat, T)> {
    s.map_values(|e: (u64, T)| (e.0 as nat, e.1))
}

/// Times do not decrease.
pub open spec fn in_order<T>(s: Seq<(nat, T)>) -> bool {
    forall|i: int, j: int|
        0 <= i <= j < s.len() ==> (#[trigger] s[i]).0 <= (#[trigger] s[j]).0
}

/// How many things at the front are due at `now`.
pub open spec fn due<T>(s: Seq<(nat, T)>, now: nat) -> nat
    decreases s.len(),
{
    if s.len() == 0 || s[0].0 > now {
        0
    } else {
        1 + due(s.skip(1), now)
    }
}

/// Things without their times.
pub open spec fn things<T>(s: Seq<(nat, T)>) -> Seq<T> {
    s.map_values(|e: (nat, T)| e.1)
}

/// Things, later by `t`.
pub open spec fn later<T>(s: Seq<(nat, T)>, t: nat) -> Seq<(nat, T)> {
    s.map_values(|e: (nat, T)| (e.0 + t, e.1))
}

impl<D> View for InputTimeline<D> {
    type V = Queue<D>;

    open spec fn view(&self) -> Queue<D> {
        Queue {
            events: at_times(self.events@),
            ends: at_times(self.ends@),
            end: self.end_ms as nat,
        }
    }
}

impl<D> Queue<D> {
    /// When a sequence that arrives at `now` starts.
    pub open spec fn start(self, now: nat) -> nat {
        if self.end > now {
            self.end
        } else {
            now
        }
    }

    /// With a sequence behind that arrives at `now`.
    pub open spec fn pushed(self, seq: Timed, done: D, now: nat) -> Queue<D> {
        let end = self.start(now) + seq.len;
        Queue {
            events: self.events + later(seq.events, self.start(now)),
            ends: self.ends.push((end, done)),
            end,
        }
    }

    /// Without what is due at `now`.
    pub open spec fn advanced(self, now: nat) -> Queue<D> {
        Queue {
            events: self.events.skip(due(self.events, now) as int),
            ends: self.ends.skip(due(self.ends, now) as int),
            end: self.end,
        }
    }

    /// The events due at `now`.
    pub open spec fn due_events(self, now: nat) -> Seq<HostInput> {
        things(self.events.take(due(self.events, now) as int))
    }

    /// What the sequences ended at `now` hand back.
    pub open spec fn due_ends(self, now: nat) -> Seq<D> {
        things(self.ends.take(due(self.ends, now) as int))
    }

    /// When something is due next, if anything is queued.
    pub open spec fn next(self) -> Option<nat> {
        if self.events.len() == 0 && self.ends.len() == 0 {
            None
        } else if self.ends.len() == 0 || (self.events.len() > 0 && self.events[0].0
            <= self.ends[0].0) {
            Some(self.events[0].0)
        } else {
            Some(self.ends[0].0)
        }
    }

    /// Events and ends are in order, and nothing is due after the last end.
    pub open spec fn valid(self) -> bool {
        &&& in_order(self.events)
        &&& in_order(self.ends)
        &&& forall|i: int|
            0 <= i < self.events.len() ==> (#[trigger] self.events[i]).0 <= self.end
        &&& forall|i: int| 0 <= i < self.ends.len() ==> (#[trigger] self.ends[i]).0 <= self.end
    }
}

/// The clock count at `ms`, at most `u64::MAX`.
pub open spec fn clocks_at(ms: nat) -> nat {
    if ms * CLOCKS_PER_MS <= u64::MAX {
        (ms * CLOCKS_PER_MS) as nat
    } else {
        u64::MAX as nat
    }
}

/// Instructions of `each` clocks that it takes to reach `target`, rounded up,
/// between 1 and `max`.
pub open spec fn insns_to(now: nat, target: nat, each: nat, max: nat) -> nat {
    let each = if each == 0 {
        1
    } else {
        each
    };
    let left = if target > now {
        (target - now) as nat
    } else {
        0
    };
    let n = (left + each - 1) as nat / each;
    if n < 1 {
        1
    } else if n > max {
        max
    } else {
        n
    }
}

/// What is due is a prefix.
pub proof fn due_is_a_prefix<T>(s: Seq<(nat, T)>, now: nat)
    ensures
        due(s, now) <= s.len(),
        forall|i: int| 0 <= i < due(s, now) ==> (#[trigger] s[i]).0 <= now,
        due(s, now) < s.len() ==> s[due(s, now) as int].0 > now,
    decreases s.len(),
{
    if s.len() > 0 && s[0].0 <= now {
        due_is_a_prefix(s.skip(1), now);
        assert forall|i: int| 0 <= i < due(s, now) implies (#[trigger] s[i]).0 <= now by {
            if i > 0 {
                assert(s.skip(1)[i - 1] == s[i]);
            }
        }
    }
}

fn div_up(a: u64, b: u64) -> (q: u64)
    requires
        b > 0,
    ensures
        q as int == (a + b - 1) / b as int,
{
    if a == 0 {
        assert((a + b - 1) / b as int == 0) by (nonlinear_arith)
            requires
                a == 0,
                b > 0,
        ;
        0
    } else {
        assert((a + b - 1) / b as int == (a - 1) / b as int + 1) by (nonlinear_arith)
            requires
                a > 0,
                b > 0,
        ;
        assert((a - 1) / b as int + 1 <= a) by (nonlinear_arith)
            requires
                a > 0,
                b > 0,
        ;
        (a - 1) / b + 1
    }
}

impl<D> InputTimeline<D> {
    /// Nothing queued.
    pub fn new() -> (t: InputTimeline<D>)
        ensures
            t@ == (Queue::<D> { events: Seq::empty(), ends: Seq::empty(), end: 0 }),
    {
        let t = InputTimeline { events: VecDeque::new(), ends: VecDeque::new(), end_ms: 0 };
        assert(t@.events =~= Seq::empty());
        assert(t@.ends =~= Seq::empty());
        t
    }

    /// Whether a sequence that arrives at `now_ms` stays within the range of the
    /// clock.
    pub fn fits(&self, seq: &TimedInputs, now_ms: u64) -> (b: bool)
        ensures
            b == seq@.within(self@.start(now_ms as nat)),
    {
        let start: u64 = if self.end_ms > now_ms {
            self.end_ms
        } else {
            now_ms
        };
        let mut i: usize = 0;
        while i < seq.events.len()
            invariant
                i <= seq.events@.len(),
                start == self@.start(now_ms as nat),
                forall|k: int|
                    0 <= k < i ==> start + (#[trigger] seq@.events[k]).0 <= u64::MAX,
            decreases seq.events@.len() - i,
        {
            assert(seq@.events[i as int].0 == seq.events@[i as int].0);
            if start.checked_add(seq.events[i].0).is_none() {
                return false;
            }
            i = i + 1;
        }
        start.checked_add(seq.len_ms).is_some()
    }

    /// Queue `seq`, arriving at `now_ms`; `done` is handed back when it ends.
    pub fn push(&mut self, seq: TimedInputs, done: D, now_ms: u64)
        requires
            seq@.within(old(self)@.start(now_ms as nat)),
        ensures
            final(self)@ == old(self)@.pushed(seq@, done, now_ms as nat),
    {
        let ghost q = self@;
        let start: u64 = if self.end_ms > now_ms {
            self.end_ms
        } else {
            now_ms
        };
        let n: usize = seq.events.len();
        let mut i: usize = 0;
        assert(self@.events =~= q.events + later(seq@.events.take(0), start as nat));
        while i < n
            invariant
                i <= n == seq.events@.len(),
                seq@.within(start as nat),
                self@ == (Queue {
                    events: q.events + later(seq@.events.take(i as int), start as nat),
                    ..q
                }),
            decreases n - i,
        {
            let (at, ev) = seq.events[i];
            assert(seq@.events[i as int] == (at as nat, ev));
            let ghost before = self@.events;
            self.events.push_back((start + at, ev));
            assert(self@.events =~= before.push(((start + at) as nat, ev)));
            assert(self@.events =~= q.events + later(seq@.events.take(i + 1), start as nat));
            i = i + 1;
        }
        assert(seq@.events.take(n as int) =~= seq@.events);
        self.end_ms = start + seq.len_ms;
        let ghost before = self@.ends;
        self.ends.push_back((self.end_ms, done));
        assert(self@.ends =~= before.push((self.end_ms as nat, done)));
    }

    /// The events due at `now_ms` in order, and what the sequences ended by then
    /// hand back.
    pub fn advance(&mut self, now_ms: u64) -> (r: (Vec<HostInput>, Vec<D>))
        ensures
            final(self)@ == old(self)@.advanced(now_ms as nat),
            r.0@ == old(self)@.due_events(now_ms as nat),
            r.1@ == old(self)@.due_ends(now_ms as nat),
    {
        let ghost q = self@;
        let events = take_due(&mut self.events, now_ms);
        let ends = take_due(&mut self.ends, now_ms);
        assert(self@ =~= q.advanced(now_ms as nat));
        (events, ends)
    }

    /// Instructions to run from `now_clocks` so that they end at the next queued
    /// event or end, between 1 and `max`; `max` if nothing is queued.
    pub fn slice_insns(&self, now_clocks: u64, clocks_per_insn: u64, max: u64) -> (n: u64)
        requires
            self@.next() is Some ==> max >= 1,
        ensures
            n == match self@.next() {
                None => max as nat,
                Some(ms) => insns_to(
                    now_clocks as nat,
                    clocks_at(ms),
                    clocks_per_insn as nat,
                    max as nat,
                ),
            },
    {
        let e: usize = self.events.len();
        let f: usize = self.ends.len();
        if e == 0 && f == 0 {
            return max;
        }
        let next: u64 = if f == 0 {
            assert(self@.events[0].0 == self.events@[0].0);
            self.events[0].0
        } else if e == 0 {
            assert(self@.ends[0].0 == self.ends@[0].0);
            self.ends[0].0
        } else {
            assert(self@.events[0].0 == self.events@[0].0);
            assert(self@.ends[0].0 == self.ends@[0].0);
            if self.events[0].0 <= self.ends[0].0 {
                self.events[0].0
            } else {
                self.ends[0].0
            }
        };
        let target: u64 = ms_to_clocks(next);
        let left: u64 = if target > now_clocks {
            target - now_clocks
        } else {
            0
        };
        let each: u64 = if clocks_per_insn == 0 {
            1
        } else {
            clocks_per_insn
        };
        let n: u64 = div_up(left, each);
        if n < 1 {
            1
        } else if n > max {
            max
        } else {
            n
        }
    }
}

/// Take what is due at `now` from the front.
fn take_due<T>(q: &mut VecDeque<(u64, T)>, now: u64) -> (r: Vec<T>)
    ensures
        r@ == things(at_times(old(q)@).take(due(at_times(old(q)@), now as nat) as int)),
        at_times(final(q)@) == at_times(old(q)@).skip(due(at_times(old(q)@), now as nat) as int),
{
    let ghost all = at_times(q@);
    let ghost n = due(all, now as nat);
    proof {
        due_is_a_prefix(all, now as nat);
    }
    let mut r: Vec<T> = Vec::new();
    let ghost mut i: int = 0;
    assert(all.skip(0) =~= all);
    assert(r@ =~= things(all.take(0)));
    let mut left: usize = q.len();
    while left > 0 && q[0].0 <= now
        invariant
            left == q@.len(),
            0 <= i <= n <= all.len(),
            n == due(all, now as nat),
            n < all.len() ==> all[n as int].0 > now,
            forall|k: int| 0 <= k < n ==> (#[trigger] all[k]).0 <= now,
            at_times(q@) == all.skip(i),
            r@ == things(all.take(i)),
        decreases left,
    {
        assert(at_times(q@).len() == q@.len());
        assert(at_times(q@)[0] == all[i]);
        let ghost before = q@;
        match q.pop_front() {
            Some(e) => {
                assert(e == before[0]);
                r.push(e.1);
                proof {
                    assert(at_times(q@) =~= at_times(before).skip(1));
                    assert(all.skip(i).skip(1) =~= all.skip(i + 1));
                    assert(r@ =~= things(all.take(i + 1)));
                    i = i + 1;
                }
            },
            None => {},
        }
        left = left - 1;
    }
    proof {
        if i < n {
            assert(at_times(q@)[0] == all[i]);
            assert(q@.len() > 0);
        }
    }
    r
}

} // verus!
