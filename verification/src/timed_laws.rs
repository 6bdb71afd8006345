//! What holds of timed inputs as a whole.
use crate::host::HostInput;
use crate::keymap::{MatrixKey, LSHIFT_COL, LSHIFT_ROW};
use crate::timed::{Timed, RELEASE_MS};
use crate::timeline::Queue;
use vstd::prelude::*;

verus! {

/// A tap keeps a sequence in order.
pub proof fn a_tap_keeps_the_order(s: Timed, k: MatrixKey, ms: nat)
    requires
        s.ordered(),
    ensures
        s.tapped(k, ms).ordered(),
{
    let t = s.tapped(k, ms);
    assert forall|i: int, j: int| 0 <= i <= j < t.events.len() implies (#[trigger] t.events[i]).0
        <= (#[trigger] t.events[j]).0 by {
        if j < s.events.len() {
            assert(t.events[i] == s.events[i] && t.events[j] == s.events[j]);
        } else if i < s.events.len() {
            assert(t.events[i] == s.events[i]);
        }
    }
    assert forall|i: int| 0 <= i < t.events.len() implies (#[trigger] t.events[i]).0 <= t.len by {
        if i < s.events.len() {
            assert(t.events[i] == s.events[i]);
        }
    }
}

/// Taps keep a sequence in order.
pub proof fn taps_keep_the_order(s: Timed, keys: Seq<MatrixKey>, ms: nat)
    requires
        s.ordered(),
    ensures
        s.all_tapped(keys, ms).ordered(),
    decreases keys.len(),
{
    if keys.len() > 0 {
        taps_keep_the_order(s, keys.drop_last(), ms);
        a_tap_keeps_the_order(s.all_tapped(keys.drop_last(), ms), keys.last(), ms);
    }
}

/// A chord's presses are in order and end a scan per key later.
proof fn rolling_keeps_the_order(keys: Seq<MatrixKey>, t: nat)
    ensures
        crate::timeline::in_order(crate::timed::rolled(keys, t)),
        forall|i: int|
            0 <= i < crate::timed::rolled(keys, t).len() ==> t <= (
            #[trigger] crate::timed::rolled(keys, t)[i]).0 <= t + crate::timed::spread(keys.len()),
    decreases keys.len(),
{
    if keys.len() > 0 {
        let front = crate::timed::rolled(keys.drop_last(), t);
        let all = crate::timed::rolled(keys, t);
        rolling_keeps_the_order(keys.drop_last(), t);
        assert forall|i: int| 0 <= i < all.len() implies t <= (#[trigger] all[i]).0 <= t
            + crate::timed::spread(keys.len()) by {
            if i < front.len() {
                assert(all[i] == front[i]);
            }
        }
        assert forall|i: int, j: int| 0 <= i <= j < all.len() implies (#[trigger] all[i]).0 <= (
        #[trigger] all[j]).0 by {
            if i < front.len() {
                assert(all[i] == front[i]);
                if j < front.len() {
                    assert(all[j] == front[j]);
                }
            }
        }
    }
}

/// A chord keeps a sequence in order.
pub proof fn a_chord_keeps_the_order(s: Timed, keys: Seq<MatrixKey>, ms: nat)
    requires
        s.ordered(),
    ensures
        s.chorded(keys, ms).ordered(),
{
    let t = s.chorded(keys, ms);
    let roll = crate::timed::rolled(keys, s.len);
    rolling_keeps_the_order(keys, s.len);
    let n = s.events.len();
    let m = n + roll.len();
    assert forall|i: int, j: int| 0 <= i <= j < t.events.len() implies (#[trigger] t.events[i]).0
        <= (#[trigger] t.events[j]).0 by {
        if i < n {
            assert(t.events[i] == s.events[i]);
            if j < n {
                assert(t.events[j] == s.events[j]);
            } else if j < m {
                assert(t.events[j] == roll[j - n]);
            }
        } else if i < m {
            assert(t.events[i] == roll[i - n]);
            if j < m {
                assert(t.events[j] == roll[j - n]);
            }
        }
    }
    assert forall|i: int| 0 <= i < t.events.len() implies (#[trigger] t.events[i]).0 <= t.len by {
        if i < n {
            assert(t.events[i] == s.events[i]);
        } else if i < m {
            assert(t.events[i] == roll[i - n]);
        }
    }
}

/// A tap holds its key for exactly the time asked, and the sequence goes on for
/// the release gap after that.
pub proof fn a_tap_holds_its_time(s: Timed, k: MatrixKey, ms: nat)
    ensures
        ({
            let t = s.tapped(k, ms);
            let i = s.events.len() + if k.shift {
                1int
            } else {
                0int
            };
            &&& t.events[i].1 == crate::timed::key_event(k, true)
            &&& t.events[i + 1] == (t.events[i].0 + ms, crate::timed::key_event(k, false))
            &&& t.len == t.events[i].0 + ms + RELEASE_MS
        }),
{
    let t = s.tapped(k, ms);
    let i: int = if k.shift {
        s.events.len() as int + 1
    } else {
        s.events.len() as int
    };
    assert(t.events[i] == (s.len + crate::timed::lead(k), crate::timed::key_event(k, true)));
    assert(t.events[i + 1] == (
        s.len + crate::timed::lead(k) + ms,
        crate::timed::key_event(k, false),
    ));
}

/// The keys held after events, if `held` are held before.
pub open spec fn held_after(held: Set<(u8, u8)>, events: Seq<HostInput>) -> Set<(u8, u8)>
    decreases events.len(),
{
    if events.len() == 0 {
        held
    } else {
        let before = held_after(held, events.drop_last());
        match events.last() {
            HostInput::Key { row, col, down } => if down {
                before.insert((row, col))
            } else {
                before.remove((row, col))
            },
            _ => before,
        }
    }
}

/// The key that an event is about.
pub open spec fn is_about(e: HostInput, key: (u8, u8)) -> bool {
    e matches HostInput::Key { row, col, .. } && (row, col) == key
}

/// Some event is about this key.
pub open spec fn touches(events: Seq<HostInput>, key: (u8, u8)) -> bool {
    exists|i: int| 0 <= i < events.len() && is_about(#[trigger] events[i], key)
}

/// Every event is a key going down, or every event is a key going up.
pub open spec fn all_keys(events: Seq<HostInput>, way: bool) -> bool {
    forall|i: int|
        0 <= i < events.len() ==> (#[trigger] events[i] matches HostInput::Key { down, .. } && down
            == way)
}

/// One list of events after another.
pub proof fn held_after_both(held: Set<(u8, u8)>, a: Seq<HostInput>, b: Seq<HostInput>)
    ensures
        held_after(held, a + b) == held_after(held_after(held, a), b),
    decreases b.len(),
{
    if b.len() == 0 {
        assert(a + b =~= a);
    } else {
        assert((a + b).drop_last() =~= a + b.drop_last());
        held_after_both(held, a, b.drop_last());
    }
}

/// Keys going down join those held; keys going up leave them.
proof fn one_way(held: Set<(u8, u8)>, events: Seq<HostInput>, way: bool, key: (u8, u8))
    requires
        all_keys(events, way),
    ensures
        held_after(held, events).contains(key) == if touches(events, key) {
            way
        } else {
            held.contains(key)
        },
    decreases events.len(),
{
    if events.len() > 0 {
        let front = events.drop_last();
        assert forall|i: int| 0 <= i < front.len() implies (
        #[trigger] front[i] matches HostInput::Key { down, .. } && down == way) by {
            assert(front[i] == events[i]);
        }
        one_way(held, front, way, key);
        assert(events[events.len() - 1] == events.last());
        if touches(front, key) {
            let i = choose|i: int| 0 <= i < front.len() && is_about(#[trigger] front[i], key);
            assert(is_about(events[i], key));
        }
        if is_about(events.last(), key) {
            assert(is_about(events[events.len() - 1], key));
        } else if touches(events, key) {
            let i = choose|i: int| 0 <= i < events.len() && is_about(#[trigger] events[i], key);
            assert(is_about(front[i], key));
        }
    }
}

/// Presses are keys going down.
proof fn presses_go_down(keys: Seq<MatrixKey>)
    ensures
        all_keys(crate::timed::presses(keys), true),
    decreases keys.len(),
{
    if keys.len() > 0 {
        presses_go_down(keys.drop_last());
    }
}

/// Releases are the keys of the presses, going up.
proof fn releases_go_up(keys: Seq<MatrixKey>, key: (u8, u8))
    ensures
        all_keys(crate::timed::releases(keys), false),
        touches(crate::timed::releases(keys), key) == touches(crate::timed::presses(keys), key),
{
    presses_go_down(keys);
    let p = crate::timed::presses(keys);
    let r = crate::timed::releases(keys);
    let n = p.len();
    assert(r.len() == n);
    assert forall|i: int| 0 <= i < n implies #[trigger] r[i] == crate::timed::let_go(
        p[n - 1 - i],
    ) by {}
    if touches(p, key) {
        let i = choose|i: int| 0 <= i < p.len() && is_about(#[trigger] p[i], key);
        assert(is_about(r[n - 1 - i], key));
    }
    if touches(r, key) {
        let i = choose|i: int| 0 <= i < r.len() && is_about(#[trigger] r[i], key);
        assert(is_about(p[n - 1 - i], key));
    }
}

/// Releasing keys undoes holding them: none of them is held then, and every other
/// key is as it was.
pub proof fn release_undoes_hold(held: Set<(u8, u8)>, keys: Seq<MatrixKey>, key: (u8, u8))
    ensures
        held_after(
            held,
            crate::timed::presses(keys) + crate::timed::releases(keys),
        ).contains(key) == (held.contains(key) && !touches(crate::timed::presses(keys), key)),
{
    let p = crate::timed::presses(keys);
    let r = crate::timed::releases(keys);
    held_after_both(held, p, r);
    presses_go_down(keys);
    releases_go_up(keys, key);
    one_way(held, p, true, key);
    one_way(held_after(held, p), r, false, key);
}

/// Holding keys holds each of them, and the SHIFT that it needs.
pub proof fn hold_holds(held: Set<(u8, u8)>, keys: Seq<MatrixKey>, i: int)
    requires
        0 <= i < keys.len(),
    ensures
        held_after(held, crate::timed::presses(keys)).contains((keys[i].row, keys[i].col)),
        keys[i].shift ==> held_after(held, crate::timed::presses(keys)).contains(
            (LSHIFT_ROW, LSHIFT_COL),
        ),
    decreases keys.len(),
{
    let p = crate::timed::presses(keys);
    presses_go_down(keys);
    presses_touch(keys, i);
    one_way(held, p, true, (keys[i].row, keys[i].col));
    one_way(held, p, true, (LSHIFT_ROW, LSHIFT_COL));
}

/// The presses of keys touch each of them.
proof fn presses_touch(keys: Seq<MatrixKey>, i: int)
    requires
        0 <= i < keys.len(),
    ensures
        touches(crate::timed::presses(keys), (keys[i].row, keys[i].col)),
        keys[i].shift ==> touches(crate::timed::presses(keys), (LSHIFT_ROW, LSHIFT_COL)),
    decreases keys.len(),
{
    let front = crate::timed::presses(keys.drop_last());
    let last = crate::timed::press(keys.last());
    let all = crate::timed::presses(keys);
    if i < keys.len() - 1 {
        presses_touch(keys.drop_last(), i);
        let k = choose|k: int|
            0 <= k < front.len() && is_about(#[trigger] front[k], (keys[i].row, keys[i].col));
        assert(all[k] == front[k]);
        if keys[i].shift {
            let l = choose|l: int|
                0 <= l < front.len() && is_about(#[trigger] front[l], (LSHIFT_ROW, LSHIFT_COL));
            assert(all[l] == front[l]);
        }
    } else {
        assert(all[all.len() - 1] == last[last.len() - 1]);
        assert(is_about(all[all.len() - 1], (keys[i].row, keys[i].col)));
        if keys[i].shift {
            assert(all[front.len() as int] == last[0]);
            assert(is_about(all[front.len() as int], (LSHIFT_ROW, LSHIFT_COL)));
        }
    }
}

/// A tap leaves its key and the SHIFT that it needs released, and every other key
/// as it was.
pub proof fn a_tap_lets_go(held: Set<(u8, u8)>, s: Timed, k: MatrixKey, ms: nat, key: (u8, u8))
    ensures
        held_after(held, crate::timeline::things(s.tapped(k, ms).events)).contains(key) == (
        held_after(held, crate::timeline::things(s.events)).contains(key) && key != (k.row, k.col)
            && !(k.shift && key == (LSHIFT_ROW, LSHIFT_COL))),
{
    let before = crate::timeline::things(s.events);
    let t = crate::timeline::things(s.tapped(k, ms).events);
    let tap = crate::timed::press(k) + if k.shift {
        seq![crate::timed::key_event(k, false), crate::timed::shift_event(false)]
    } else {
        seq![crate::timed::key_event(k, false)]
    };
    assert(t =~= before + tap);
    held_after_both(held, before, tap);
    reveal_with_fuel(held_after, 5);
    if k.shift {
        assert(tap.drop_last().drop_last().drop_last().drop_last() =~= Seq::empty());
        assert(tap[0] == crate::timed::shift_event(true));
        assert(tap[1] == crate::timed::key_event(k, true));
        assert(tap[2] == crate::timed::key_event(k, false));
        assert(tap[3] == crate::timed::shift_event(false));
    } else {
        assert(tap.drop_last().drop_last() =~= Seq::empty());
        assert(tap[0] == crate::timed::key_event(k, true));
        assert(tap[1] == crate::timed::key_event(k, false));
    }
}

/// A chord's presses, without their times.
proof fn rolled_are_presses(keys: Seq<MatrixKey>, t: nat)
    ensures
        crate::timeline::things(crate::timed::rolled(keys, t)) == crate::timed::presses(keys),
    decreases keys.len(),
{
    if keys.len() > 0 {
        rolled_are_presses(keys.drop_last(), t);
        let front = crate::timed::rolled(keys.drop_last(), t);
        let last = crate::timed::all_at(
            crate::timed::press(keys.last()),
            t + crate::timed::spread(keys.len()),
        );
        assert(crate::timeline::things(front + last) =~= crate::timeline::things(front)
            + crate::timed::press(keys.last()));
    } else {
        assert(crate::timeline::things(crate::timed::rolled(keys, t)) =~= Seq::empty());
    }
}

/// A chord leaves its keys and the SHIFT that they need released, and every other
/// key as it was.
pub proof fn a_chord_lets_go(
    held: Set<(u8, u8)>,
    s: Timed,
    keys: Seq<MatrixKey>,
    ms: nat,
    key: (u8, u8),
)
    ensures
        held_after(held, crate::timeline::things(s.chorded(keys, ms).events)).contains(key) == (
        held_after(held, crate::timeline::things(s.events)).contains(key) && !touches(
            crate::timed::presses(keys),
            key,
        )),
{
    let before = crate::timeline::things(s.events);
    let roll = crate::timed::rolled(keys, s.len);
    let t = crate::timeline::things(s.chorded(keys, ms).events);
    let chord = crate::timed::presses(keys) + crate::timed::releases(keys);
    rolled_are_presses(keys, s.len);
    assert(t =~= before + (crate::timeline::things(roll) + crate::timed::releases(keys)));
    held_after_both(held, before, chord);
    release_undoes_hold(held_after(held, before), keys, key);
}

/// On a queue that is in order, exactly what lies at or before `now` is due.
proof fn due_is_all<T>(s: Seq<(nat, T)>, now: nat)
    requires
        crate::timeline::in_order(s),
    ensures
        crate::timeline::due(s, now) <= s.len(),
        forall|i: int|
            0 <= i < s.len() ==> ((#[trigger] s[i]).0 <= now <==> i < crate::timeline::due(s, now)),
{
    crate::timeline::due_is_a_prefix(s, now);
}

/// Nothing comes early and nothing is left over: an advance hands out exactly the
/// events at or before `now`, and exactly the sequences ended by then.
pub proof fn advance_is_exact<D>(q: Queue<D>, now: nat)
    requires
        q.valid(),
    ensures
        q.advanced(now).valid(),
        forall|i: int|
            0 <= i < q.events.len() ==> ((#[trigger] q.events[i]).0 <= now <==> i < q.due_events(
                now,
            ).len()),
        forall|i: int| 0 <= i < q.due_events(now).len() ==> #[trigger] q.due_events(now)[i]
            == q.events[i].1,
        forall|i: int|
            0 <= i < q.ends.len() ==> ((#[trigger] q.ends[i]).0 <= now <==> i < q.due_ends(
                now,
            ).len()),
{
    due_is_all(q.events, now);
    due_is_all(q.ends, now);
    let n = crate::timeline::due(q.events, now) as int;
    let m = crate::timeline::due(q.ends, now) as int;
    let a = q.advanced(now);
    assert forall|i: int| 0 <= i < a.events.len() implies #[trigger] a.events[i] == q.events[i
        + n] by {}
    assert forall|i: int| 0 <= i < a.ends.len() implies #[trigger] a.ends[i] == q.ends[i + m] by {}
}

/// What is due in two steps is due in one.
proof fn due_adds_up<T>(s: Seq<(nat, T)>, now: nat, later: nat)
    requires
        now <= later,
    ensures
        crate::timeline::due(s, later) == crate::timeline::due(s, now) + crate::timeline::due(
            s.skip(crate::timeline::due(s, now) as int),
            later,
        ),
    decreases s.len(),
{
    if s.len() == 0 || s[0].0 > now {
        assert(s.skip(0) =~= s);
    } else {
        let n = crate::timeline::due(s.skip(1), now);
        due_adds_up(s.skip(1), now, later);
        crate::timeline::due_is_a_prefix(s.skip(1), now);
        assert(s.skip(1).skip(n as int) =~= s.skip(n as int + 1));
    }
}

/// Advancing twice hands out what advancing once to the later time does, and
/// leaves the same queue.
pub proof fn advances_add_up<D>(q: Queue<D>, now: nat, later: nat)
    requires
        now <= later,
    ensures
        q.due_events(now) + q.advanced(now).due_events(later) == q.due_events(later),
        q.due_ends(now) + q.advanced(now).due_ends(later) == q.due_ends(later),
        q.advanced(now).advanced(later) == q.advanced(later),
{
    due_adds_up(q.events, now, later);
    due_adds_up(q.ends, now, later);
    crate::timeline::due_is_a_prefix(q.events, now);
    crate::timeline::due_is_a_prefix(q.ends, now);
    crate::timeline::due_is_a_prefix(q.events, later);
    crate::timeline::due_is_a_prefix(q.ends, later);
    assert(q.due_events(now) + q.advanced(now).due_events(later) =~= q.due_events(later));
    assert(q.due_ends(now) + q.advanced(now).due_ends(later) =~= q.due_ends(later));
    assert(q.advanced(now).advanced(later) =~= q.advanced(later));
}

/// Queueing a sequence keeps the queue in order. Sequences run back to back: the
/// new one starts at its arrival or at the end of the one before, whichever is
/// later, and each of its events keeps its distance from that start.
pub proof fn sequences_run_back_to_back<D>(q: Queue<D>, s: Timed, done: D, now: nat)
    requires
        q.valid(),
        s.ordered(),
    ensures
        q.pushed(s, done, now).valid(),
        q.start(now) >= now,
        q.start(now) >= q.end,
        q.start(now) == now || q.start(now) == q.end,
        q.pushed(s, done, now).events.len() == q.events.len() + s.events.len(),
        forall|i: int| 0 <= i < q.events.len() ==> #[trigger] q.pushed(s, done, now).events[i]
            == q.events[i],
        forall|i: int|
            0 <= i < s.events.len() ==> q.pushed(s, done, now).events[q.events.len() + i] == (
                q.start(now) + (#[trigger] s.events[i]).0,
                s.events[i].1,
            ),
        q.pushed(s, done, now).end == q.start(now) + s.len,
{
    let p = q.pushed(s, done, now);
    let n = q.events.len() as int;
    let t = q.start(now);
    assert forall|i: int| 0 <= i < p.events.len() implies #[trigger] p.events[i] == if i < n {
        q.events[i]
    } else {
        (t + s.events[i - n].0, s.events[i - n].1)
    } by {}
    assert forall|i: int| 0 <= i < s.events.len() implies p.events[n + i] == (
        t + (#[trigger] s.events[i]).0,
        s.events[i].1,
    ) by {
        assert(p.events[n + i] == (t + s.events[n + i - n].0, s.events[n + i - n].1));
    }
    assert forall|i: int, j: int| 0 <= i <= j < p.events.len() implies (#[trigger] p.events[i]).0
        <= (#[trigger] p.events[j]).0 by {
        if i < n {
            if j < n {
                assert(q.events[i].0 <= q.events[j].0);
            } else {
                assert(q.events[i].0 <= q.end);
            }
        } else {
            assert(s.events[i - n].0 <= s.events[j - n].0);
        }
    }
    assert forall|i: int| 0 <= i < p.events.len() implies (#[trigger] p.events[i]).0 <= p.end by {
        if i < n {
            assert(q.events[i].0 <= q.end);
        } else {
            assert(s.events[i - n].0 <= s.len);
        }
    }
}

/// A slice ends at the next event: with one instruction less it would end before
/// it, and unless it was cut short it reaches it.
pub proof fn slices_end_at_the_next_event(now: nat, target: nat, each: nat, max: nat)
    requires
        now < target,
        each > 0,
        max > 0,
    ensures
        now + (crate::timeline::insns_to(now, target, each, max) - 1) * each < target,
        crate::timeline::insns_to(now, target, each, max) < max ==> now
            + crate::timeline::insns_to(now, target, each, max) * each >= target,
{
    let left = (target - now) as nat;
    let n = (left + each - 1) as nat / each;
    assert(n >= 1 && (n - 1) * each < left && n * each >= left) by (nonlinear_arith)
        requires
            n == (left + each - 1) as nat / each,
            left > 0,
            each > 0,
    ;
    let k = crate::timeline::insns_to(now, target, each, max);
    assert((k - 1) * each <= (n - 1) * each) by (nonlinear_arith)
        requires
            k <= n,
            each > 0,
    ;
}

} // verus!
