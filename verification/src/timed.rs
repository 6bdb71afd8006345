//! Timed input sequences, and the timeline that applies them at exact emulated
//! times.
//!
//! Neither the host's speed nor its scheduling can stretch a hold into key repeat
//! or shorten it below a keyboard scan.
use crate::host::HostInput;
use crate::keymap::{MatrixKey, LSHIFT_COL, LSHIFT_ROW};
use vstd::prelude::*;

verus! {

/// Gap after a release: the firmware takes the same key again only after a scan
/// that saw no key.
pub const RELEASE_MS: u64 = 40;

/// SHIFT leads a shifted key by one scan: a scan that saw the key without SHIFT
/// would queue the unshifted character.
pub const SHIFT_LEAD_MS: u64 = 20;

/// A timed input sequence.
#[derive(Debug, Default, PartialEq, Eq)]
pub struct TimedInputs {
    /// Events with their offsets in ms from the start, offsets not decreasing.
    pub events: Vec<(u64, HostInput)>,
    /// The sequence ends this many ms after its start, not before its last event.
    pub len_ms: u64,
}

/// A timed input sequence.
#[verifier::ext_equal]
pub struct Timed {
    pub events: Seq<(nat, HostInput)>,
    pub len: nat,
}

/// Events with their times.
pub open spec fn at_times(events: Seq<(u64, HostInput)>) -> Seq<(nat, HostInput)> {
    events.map_values(|e: (u64, HostInput)| (e.0 as nat, e.1))
}

impl View for TimedInputs {
    type V = Timed;

    open spec fn view(&self) -> Timed {
        Timed { events: at_times(self.events@), len: self.len_ms as nat }
    }
}

/// The event of a key.
pub open spec fn key_event(k: MatrixKey, down: bool) -> HostInput {
    HostInput::Key { row: k.row, col: k.col, down }
}

/// The event of the left SHIFT key.
pub open spec fn shift_event(down: bool) -> HostInput {
    HostInput::Key { row: LSHIFT_ROW, col: LSHIFT_COL, down }
}

/// The same events, all at time `t`.
pub open spec fn all_at(events: Seq<HostInput>, t: nat) -> Seq<(nat, HostInput)> {
    events.map_values(|e: HostInput| (t, e))
}

/// The press of a key, after the SHIFT that it needs.
pub open spec fn press(k: MatrixKey) -> Seq<HostInput> {
    if k.shift {
        seq![shift_event(true), key_event(k, true)]
    } else {
        seq![key_event(k, true)]
    }
}

/// The presses of keys in order.
pub open spec fn presses(keys: Seq<MatrixKey>) -> Seq<HostInput>
    decreases keys.len(),
{
    if keys.len() == 0 {
        Seq::empty()
    } else {
        presses(keys.drop_last()) + press(keys.last())
    }
}

/// The release that belongs to a press.
pub open spec fn let_go(e: HostInput) -> HostInput {
    match e {
        HostInput::Key { row, col, .. } => HostInput::Key { row, col, down: false },
        other => other,
    }
}

/// The releases of keys: of each press, in reverse order.
pub open spec fn releases(keys: Seq<MatrixKey>) -> Seq<HostInput> {
    presses(keys).reverse().map_values(|e: HostInput| let_go(e))
}

impl Timed {
    /// Nothing, taking no time.
    pub open spec fn nothing() -> Timed {
        Timed { events: Seq::empty(), len: 0 }
    }

    /// Offsets do not decrease, and the sequence ends with or after its last event.
    pub open spec fn ordered(self) -> bool {
        &&& forall|i: int, j: int|
            0 <= i <= j < self.events.len() ==> (#[trigger] self.events[i]).0 <= (
            #[trigger] self.events[j]).0
        &&& forall|i: int|
            0 <= i < self.events.len() ==> (#[trigger] self.events[i]).0 <= self.len
    }

    /// Started at `t`, it stays within the range of the clock.
    pub open spec fn within(self, t: nat) -> bool {
        &&& t + self.len <= u64::MAX
        &&& forall|i: int|
            0 <= i < self.events.len() ==> t + (#[trigger] self.events[i]).0 <= u64::MAX
    }

    /// With a tap of `k` behind: SHIFT first if it needs one, hold `ms`, release,
    /// then the release gap.
    pub open spec fn tapped(self, k: MatrixKey, ms: nat) -> Timed {
        let down = self.len + lead(k);
        let up = down + ms;
        let with_shift = if k.shift {
            self.events.push((self.len, shift_event(true)))
        } else {
            self.events
        };
        let held = with_shift.push((down, key_event(k, true))).push((up, key_event(k, false)));
        Timed {
            events: if k.shift {
                held.push((up, shift_event(false)))
            } else {
                held
            },
            len: up + RELEASE_MS as nat,
        }
    }

    /// With a tap of each key behind.
    pub open spec fn all_tapped(self, keys: Seq<MatrixKey>, ms: nat) -> Timed
        decreases keys.len(),
    {
        if keys.len() == 0 {
            self
        } else {
            self.all_tapped(keys.drop_last(), ms).tapped(keys.last(), ms)
        }
    }

    /// With a chord behind: the keys pressed in order, a scan apart, held `ms`
    /// together, released at once in reverse order, then the release gap.
    pub open spec fn chorded(self, keys: Seq<MatrixKey>, ms: nat) -> Timed {
        let up = self.len + spread(keys.len()) + ms;
        Timed {
            events: self.events + rolled(keys, self.len) + all_at(releases(keys), up),
            len: up + RELEASE_MS as nat,
        }
    }
}

/// How long SHIFT leads the key.
pub open spec fn lead(k: MatrixKey) -> nat {
    if k.shift {
        SHIFT_LEAD_MS as nat
    } else {
        0
    }
}

/// The time from the first to the last of `n` presses, a scan apart.
pub open spec fn spread(n: nat) -> nat {
    if n == 0 {
        0
    } else {
        (SHIFT_LEAD_MS * (n - 1)) as nat
    }
}

/// The presses of a chord that starts at `t`.
pub open spec fn rolled(keys: Seq<MatrixKey>, t: nat) -> Seq<(nat, HostInput)>
    decreases keys.len(),
{
    if keys.len() == 0 {
        Seq::empty()
    } else {
        rolled(keys.drop_last(), t) + all_at(press(keys.last()), t + spread(keys.len()))
    }
}

/// How long a tap takes.
pub open spec fn tap_len(k: MatrixKey, ms: nat) -> nat {
    lead(k) + ms + RELEASE_MS as nat
}

/// How long taps take.
pub open spec fn taps_len(keys: Seq<MatrixKey>, ms: nat) -> nat
    decreases keys.len(),
{
    if keys.len() == 0 {
        0
    } else {
        taps_len(keys.drop_last(), ms) + tap_len(keys.last(), ms)
    }
}

/// How long a chord takes.
pub open spec fn chord_len(n: nat, ms: nat) -> nat {
    spread(n) + ms + RELEASE_MS as nat
}

/// The length that taps add.
pub proof fn taps_add_up(s: Timed, keys: Seq<MatrixKey>, ms: nat)
    ensures
        s.all_tapped(keys, ms).len == s.len + taps_len(keys, ms),
    decreases keys.len(),
{
    if keys.len() > 0 {
        taps_add_up(s, keys.drop_last(), ms);
    }
}

/// Fewer taps take less time.
pub proof fn taps_grow(keys: Seq<MatrixKey>, i: int, ms: nat)
    requires
        0 <= i <= keys.len(),
    ensures
        taps_len(keys.take(i), ms) <= taps_len(keys, ms),
    decreases keys.len() - i,
{
    if i < keys.len() {
        assert(keys.take(i + 1).drop_last() =~= keys.take(i));
        taps_grow(keys, i + 1, ms);
    } else {
        assert(keys.take(i) =~= keys);
    }
}

impl TimedInputs {
    /// Nothing, taking no time.
    pub fn new() -> (s: TimedInputs)
        ensures
            s@ == Timed::nothing(),
    {
        let s = TimedInputs { events: Vec::new(), len_ms: 0 };
        assert(s@.events =~= Seq::empty());
        s
    }

    fn put(&mut self, at: u64, ev: HostInput)
        ensures
            final(self)@ == (Timed { events: old(self)@.events.push((at as nat, ev)), ..old(self)@ }),
    {
        self.events.push((at, ev));
        assert(self@.events =~= old(self)@.events.push((at as nat, ev)));
    }

    /// Append a tap of `key`: SHIFT first when it needs one, hold `ms`, release,
    /// then the release gap.
    pub fn tap(&mut self, key: MatrixKey, ms: u64)
        requires
            old(self)@.len + tap_len(key, ms as nat) <= u64::MAX,
        ensures
            final(self)@ == old(self)@.tapped(key, ms as nat),
    {
        let mut at: u64 = self.len_ms;
        if key.shift {
            self.put(at, HostInput::Key { row: LSHIFT_ROW, col: LSHIFT_COL, down: true });
            at = at + SHIFT_LEAD_MS;
        }
        self.put(at, HostInput::Key { row: key.row, col: key.col, down: true });
        at = at + ms;
        self.put(at, HostInput::Key { row: key.row, col: key.col, down: false });
        if key.shift {
            self.put(at, HostInput::Key { row: LSHIFT_ROW, col: LSHIFT_COL, down: false });
        }
        self.len_ms = at + RELEASE_MS;
    }

    /// Append a tap of each key.
    pub fn tap_all(&mut self, keys: &[MatrixKey], ms: u64)
        requires
            old(self)@.len + taps_len(keys@, ms as nat) <= u64::MAX,
        ensures
            final(self)@ == old(self)@.all_tapped(keys@, ms as nat),
    {
        let mut i: usize = 0;
        let ghost s = self@;
        assert(keys@.take(0) =~= Seq::empty());
        while i < keys.len()
            invariant
                i <= keys@.len(),
                s.len + taps_len(keys@, ms as nat) <= u64::MAX,
                self@ == s.all_tapped(keys@.take(i as int), ms as nat),
            decreases keys@.len() - i,
        {
            assert(keys@.take(i + 1).drop_last() =~= keys@.take(i as int));
            proof {
                taps_add_up(s, keys@.take(i as int), ms as nat);
                taps_grow(keys@, i + 1, ms as nat);
            }
            self.tap(keys[i], ms);
            i = i + 1;
        }
        assert(keys@.take(keys@.len() as int) =~= keys@);
    }

    fn put_all(&mut self, at: u64, events: &Vec<HostInput>)
        ensures
            final(self)@ == (Timed {
                events: old(self)@.events + all_at(events@, at as nat),
                ..old(self)@
            }),
    {
        let ghost s = self@;
        let mut i: usize = 0;
        assert(s.events + all_at(events@.take(0), at as nat) =~= s.events);
        while i < events.len()
            invariant
                i <= events@.len(),
                self@ == (Timed {
                    events: s.events + all_at(events@.take(i as int), at as nat),
                    ..s
                }),
            decreases events@.len() - i,
        {
            self.put(at, events[i]);
            assert(s.events + all_at(events@.take(i + 1), at as nat) =~= (s.events + all_at(
                events@.take(i as int),
                at as nat,
            )).push((at as nat, events@[i as int])));
            i = i + 1;
        }
        assert(events@.take(events@.len() as int) =~= events@);
    }

    /// Append a chord: the keys pressed in order, a scan apart (modifiers first as
    /// written), held `ms` together, released at once in reverse order, then the
    /// release gap.
    pub fn chord(&mut self, keys: &[MatrixKey], ms: u64)
        requires
            old(self)@.len + chord_len(keys@.len(), ms as nat) <= u64::MAX,
        ensures
            final(self)@ == old(self)@.chorded(keys@, ms as nat),
    {
        let ghost s = self@;
        let mut at: u64 = self.len_ms;
        let mut i: usize = 0;
        let n: usize = keys.len();
        assert(s.events + rolled(keys@.take(0), s.len) =~= s.events);
        while i < n
            invariant
                i <= n == keys@.len(),
                s.len + chord_len(keys@.len(), ms as nat) <= u64::MAX,
                at == s.len + spread(i as nat),
                self@ == (Timed { events: s.events + rolled(keys@.take(i as int), s.len), ..s }),
            decreases n - i,
        {
            assert(keys@.take(i + 1).drop_last() =~= keys@.take(i as int));
            if i > 0 {
                at = at + SHIFT_LEAD_MS;
            }
            let down = pressed(keys[i]);
            self.put_all(at, &down);
            assert(s.events + rolled(keys@.take(i + 1), s.len) =~= s.events + rolled(
                keys@.take(i as int),
                s.len,
            ) + all_at(press(keys@[i as int]), at as nat));
            i = i + 1;
        }
        assert(keys@.take(n as int) =~= keys@);
        at = at + ms;
        let up = released(keys);
        self.put_all(at, &up);
        self.len_ms = at + RELEASE_MS;
    }
}

fn pressed(k: MatrixKey) -> (v: Vec<HostInput>)
    ensures
        v@ == press(k),
{
    let mut v: Vec<HostInput> = Vec::new();
    if k.shift {
        v.push(HostInput::Key { row: LSHIFT_ROW, col: LSHIFT_COL, down: true });
    }
    v.push(HostInput::Key { row: k.row, col: k.col, down: true });
    assert(v@ =~= press(k));
    v
}

fn all_pressed(keys: &[MatrixKey]) -> (v: Vec<HostInput>)
    ensures
        v@ == presses(keys@),
{
    let mut v: Vec<HostInput> = Vec::new();
    let mut i: usize = 0;
    assert(keys@.take(0) =~= Seq::empty());
    while i < keys.len()
        invariant
            i <= keys@.len(),
            v@ == presses(keys@.take(i as int)),
        decreases keys@.len() - i,
    {
        assert(keys@.take(i + 1).drop_last() =~= keys@.take(i as int));
        let mut one = pressed(keys[i]);
        v.append(&mut one);
        i = i + 1;
    }
    assert(keys@.take(keys@.len() as int) =~= keys@);
    v
}

fn released(keys: &[MatrixKey]) -> (v: Vec<HostInput>)
    ensures
        v@ == releases(keys@),
{
    let down = all_pressed(keys);
    let n: usize = down.len();
    let mut v: Vec<HostInput> = Vec::new();
    let mut i: usize = 0;
    while i < n
        invariant
            i <= n == down@.len(),
            down@ == presses(keys@),
            v@ == releases(keys@).take(i as int),
        decreases n - i,
    {
        let e = match down[n - 1 - i] {
            HostInput::Key { row, col, .. } => HostInput::Key { row, col, down: false },
            other => other,
        };
        v.push(e);
        assert(v@ =~= releases(keys@).take(i + 1));
        i = i + 1;
    }
    assert(v@ =~= releases(keys@));
    v
}

/// The presses of keys in order, each with the SHIFT that it needs first, or their
/// releases in reverse order: at no delay.
pub fn key_events(keys: &[MatrixKey], down: bool) -> (v: Vec<(u64, HostInput)>)
    ensures
        at_times(v@) == all_at(
            if down {
                presses(keys@)
            } else {
                releases(keys@)
            },
            0,
        ),
{
    let events = if down {
        all_pressed(keys)
    } else {
        released(keys)
    };
    let mut s = TimedInputs::new();
    s.put_all(0, &events);
    assert(s@.events =~= all_at(events@, 0));
    s.events
}

} // verus!
