//! Keeping emulated time in step with the wall clock, and what the emulation thread
//! does after each slice.
use vstd::prelude::*;

verus! {

/// Instructions per slice.
pub const SLICE_INSNS: u64 = 100_000;

/// Emulated time between two published displays.
pub const DISPLAY_PERIOD_MS: u64 = 20;

/// Emulated time may lead wall time by this much.
pub const PACE_SLACK_MS: u64 = 2;

/// A larger backlog is dropped instead of caught up with.
pub const PACE_MAX_LAG_MS: u64 = 100;

/// How fast to run.
#[derive(Clone, Copy, Debug, PartialEq, Eq, Structural)]
pub enum Speed {
    Realtime,
    Max,
}

/// Keeps emulated time at most [`PACE_SLACK_MS`] ahead of the wall clock since an
/// anchor.
#[derive(Clone, Copy, Debug, PartialEq, Eq, Structural)]
pub struct Pacer {
    /// Emulated time at the anchor.
    pub anchor_emu_ms: u64,
}

impl Pacer {
    /// How long to sleep.
    pub open spec fn nap(self, emu_ms: u64, wall_ms: u64) -> Option<u64> {
        let emu = emu_ms - self.anchor_emu_ms;
        if emu > wall_ms + PACE_SLACK_MS {
            Some((emu - wall_ms) as u64)
        } else {
            None
        }
    }

    /// Emulation lags by more than is caught up with.
    pub open spec fn behind(self, emu_ms: u64, wall_ms: u64) -> bool {
        wall_ms > emu_ms - self.anchor_emu_ms + PACE_MAX_LAG_MS
    }

    /// The anchor after that.
    pub open spec fn moved(self, emu_ms: u64, wall_ms: u64) -> Pacer {
        if self.behind(emu_ms, wall_ms) {
            Pacer { anchor_emu_ms: emu_ms }
        } else {
            self
        }
    }

    /// Anchored at emulated time `emu_ms`.
    pub fn new(emu_ms: u64) -> (p: Pacer)
        ensures
            p.anchor_emu_ms == emu_ms,
    {
        Pacer { anchor_emu_ms: emu_ms }
    }

    /// Whether emulation lags by more than [`PACE_MAX_LAG_MS`].
    pub fn lags(&self, emu_ms: u64, wall_ms: u64) -> (b: bool)
        requires
            emu_ms >= self.anchor_emu_ms,
            emu_ms - self.anchor_emu_ms + PACE_MAX_LAG_MS <= u64::MAX,
        ensures
            b == self.behind(emu_ms, wall_ms),
    {
        wall_ms > emu_ms - self.anchor_emu_ms + PACE_MAX_LAG_MS
    }

    /// How many milliseconds to sleep now that emulation reached `emu_ms`, `wall_ms`
    /// after the anchor. If emulation lags by more than [`PACE_MAX_LAG_MS`] the anchor
    /// moves here: the wall clock counts from now on as well.
    pub fn delay_at(&mut self, emu_ms: u64, wall_ms: u64) -> (sleep: Option<u64>)
        requires
            emu_ms >= old(self).anchor_emu_ms,
            wall_ms + PACE_SLACK_MS <= u64::MAX,
            emu_ms - old(self).anchor_emu_ms + PACE_MAX_LAG_MS <= u64::MAX,
        ensures
            sleep == old(self).nap(emu_ms, wall_ms),
            *final(self) == old(self).moved(emu_ms, wall_ms),
    {
        let emu: u64 = emu_ms - self.anchor_emu_ms;
        if emu > wall_ms + PACE_SLACK_MS {
            return Some(emu - wall_ms);
        }
        if wall_ms > emu + PACE_MAX_LAG_MS {
            self.anchor_emu_ms = emu_ms;
        }
        None
    }
}

/// What the emulation thread keeps between slices.
#[derive(Clone, Copy, Debug, PartialEq, Eq)]
pub struct Shift {
    /// Emulated time of the next display.
    pub next_display_ms: u64,
    /// Emulated time of the request to quit.
    pub quit_at: Option<u64>,
}

/// How the emulation thread goes on.
#[derive(Clone, Copy, Debug, PartialEq, Eq)]
pub enum Course {
    /// The firmware halted.
    Halt,
    /// Write everything back and stop.
    Finish,
    /// Run on, because the guest is still writing; `first` if that is new.
    Linger { first: bool },
    Run,
}

impl Shift {
    /// A display at once, and nobody wants to quit.
    pub fn new() -> (s: Shift)
        ensures
            s == (Shift { next_display_ms: 0, quit_at: None }),
    {
        Shift { next_display_ms: 0, quit_at: None }
    }

    /// Whether a display is due at `now`; if so the next one is scheduled.
    pub fn display_due(&mut self, now: u64) -> (b: bool)
        requires
            now + DISPLAY_PERIOD_MS <= u64::MAX,
        ensures
            b == (now >= old(self).next_display_ms),
            *final(self) == (Shift {
                next_display_ms: if b {
                    (now + DISPLAY_PERIOD_MS) as u64
                } else {
                    old(self).next_display_ms
                },
                ..*old(self)
            }),
    {
        if now >= self.next_display_ms {
            self.next_display_ms = now + DISPLAY_PERIOD_MS;
            true
        } else {
            false
        }
    }

    /// How to go on after a slice that ended at `now`. A halt comes first. A request to
    /// quit is remembered; it takes effect once the guest has stopped writing to the
    /// host's directories, or `patience` ms after it was made.
    pub fn course(&mut self, now: u64, halted: bool, quit: bool, writing: bool, patience: u64) -> (c:
        Course)
        requires
            now + patience <= u64::MAX,
            old(self).quit_at matches Some(t) ==> t + patience <= u64::MAX,
        ensures
            ({
                let since = match old(self).quit_at {
                    Some(t) => t,
                    None => now,
                };
                let quitting = quit || old(self).quit_at is Some;
                &&& c == if halted {
                    Course::Halt
                } else if !quitting {
                    Course::Run
                } else if !writing || now >= since + patience {
                    Course::Finish
                } else {
                    Course::Linger { first: since == now }
                }
                &&& *final(self) == if quitting && !halted {
                    Shift { quit_at: Some(since), ..*old(self) }
                } else {
                    *old(self)
                }
            }),
    {
        if halted {
            return Course::Halt;
        }
        let since: u64 = match self.quit_at {
            Some(t) => t,
            None => {
                if !quit {
                    return Course::Run;
                }
                now
            },
        };
        self.quit_at = Some(since);
        if !writing || now >= since + patience {
            Course::Finish
        } else {
            Course::Linger { first: since == now }
        }
    }
}

/// If there is nothing to sleep and nothing is dropped, emulated time is at most
/// [`PACE_SLACK_MS`] ahead of the wall clock and at most [`PACE_MAX_LAG_MS`] behind;
/// a sleep makes up the whole lead.
pub proof fn pacing_keeps_step(p: Pacer, emu_ms: u64, wall_ms: u64)
    requires
        emu_ms >= p.anchor_emu_ms,
    ensures
        p.nap(emu_ms, wall_ms) is None && !p.behind(emu_ms, wall_ms) ==> -(PACE_MAX_LAG_MS as int)
            <= emu_ms - p.anchor_emu_ms - wall_ms <= PACE_SLACK_MS,
        p.nap(emu_ms, wall_ms) matches Some(ms) ==> wall_ms + ms == emu_ms - p.anchor_emu_ms,
        p.nap(emu_ms, wall_ms) is Some ==> p.moved(emu_ms, wall_ms) == p,
{
}

} // verus!
