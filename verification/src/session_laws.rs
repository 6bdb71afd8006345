//! What holds of a session: how long things are held, when something is expected, what
//! is printed, and how a machine's run is counted.
use crate::command::{Cmd, ControlCmd};
use crate::execute::{Act, Answer, CartAct, Flow, Standing, UsbAction, UsbRequest, Watch};
use crate::hooks::{CoreState, Exit};
use crate::host::HostInput;
use crate::keymap::MatrixKey;
use crate::machine::{Machine, Progress};
use crate::pacing::Pacer;
use crate::timed::Timed;
use vstd::prelude::*;

verus! {

/// What a command asks for first: that these inputs are applied.
pub open spec fn asks_for(c: ControlCmd, events: Seq<(nat, HostInput)>, len: nat) -> bool {
    crate::execute::begun(c) == (Standing::Acting, Act::Inputs(Timed { events, len }))
}

/// The menu button is down for the time asked; a joystick and a USB key are, and rest for
/// 40 ms after it.
pub proof fn buttons_are_held(ms: u64, port: u8, lines: u8, usage: u8)
    ensures
        asks_for(
            ControlCmd::Button(ms),
            seq![
                (0nat, HostInput::MenuButton(true)),
                (ms as nat, HostInput::MenuButton(false)),
            ],
            ms as nat,
        ),
        asks_for(
            ControlCmd::Joy(port, lines, ms),
            seq![
                (0nat, HostInput::JoystickPort { port, lines }),
                (ms as nat, HostInput::JoystickPort { port, lines: 0xFF }),
            ],
            (ms + 40) as nat,
        ),
        asks_for(
            ControlCmd::UsbKey(usage, ms),
            seq![
                (0nat, HostInput::UsbKey { usage, down: true }),
                (ms as nat, HostInput::UsbKey { usage, down: false }),
            ],
            (ms + 40) as nat,
        ),
{
}

/// What stays as it is set is set at once.
pub proof fn settings_take_no_time(
    port: u8,
    lines: u8,
    codes: [u8; 4],
    fire: u8,
    dx: i32,
    dy: i32,
    buttons: u8,
)
    ensures
        asks_for(
            ControlCmd::JoySet(port, lines),
            seq![(0nat, HostInput::JoystickPort { port, lines })],
            0,
        ),
        asks_for(
            ControlCmd::WasdToJoy(port, codes, fire),
            seq![(0nat, HostInput::WasdToJoy { port, codes, fire })],
            0,
        ),
        asks_for(
            ControlCmd::UsbMouse(dx, dy, buttons),
            seq![(0nat, HostInput::UsbMouse { dx, dy, wheel: 0, buttons })],
            0,
        ),
{
}

/// A tapped key goes down at once, or 20 ms after the left SHIFT that it needs, is held
/// for the time asked, and nothing comes for 40 ms after it went up.
pub proof fn taps_in_detail(s: Timed, k: MatrixKey, ms: nat)
    ensures
        ({
            let t = s.tapped(k, ms);
            let (row, col) = (k.row, k.col);
            &&& !k.shift ==> t.events == s.events + seq![
                (s.len, HostInput::Key { row, col, down: true }),
                (s.len + ms, HostInput::Key { row, col, down: false }),
            ] && t.len == s.len + ms + 40
            &&& k.shift ==> t.events == s.events + seq![
                (s.len, HostInput::Key { row: 1, col: 7, down: true }),
                (s.len + 20, HostInput::Key { row, col, down: true }),
                (s.len + 20 + ms, HostInput::Key { row, col, down: false }),
                (s.len + 20 + ms, HostInput::Key { row: 1, col: 7, down: false }),
            ] && t.len == s.len + 20 + ms + 40
        }),
{
}

proof fn plain_presses(keys: Seq<MatrixKey>, t: nat, i: int)
    requires
        0 <= i < keys.len(),
        forall|k: int| 0 <= k < keys.len() ==> !(#[trigger] keys[k]).shift,
    ensures
        crate::timed::presses(keys).len() == keys.len(),
        crate::timed::presses(keys)[i] == (HostInput::Key {
            row: keys[i].row,
            col: keys[i].col,
            down: true,
        }),
        crate::timed::rolled(keys, t).len() == keys.len(),
        crate::timed::rolled(keys, t)[i] == (
            (t + 20 * i) as nat,
            HostInput::Key { row: keys[i].row, col: keys[i].col, down: true },
        ),
    decreases keys.len(),
{
    let rest = keys.drop_last();
    assert(!keys[keys.len() - 1].shift);
    if rest.len() > 0 {
        assert forall|k: int| 0 <= k < rest.len() implies !(#[trigger] rest[k]).shift by {
            assert(rest[k] == keys[k]);
        }
        plain_presses(
            rest,
            t,
            if i < rest.len() {
                i
            } else {
                0
            },
        );
    } else {
        assert(rest =~= Seq::empty());
        assert(crate::timed::presses(rest) =~= Seq::empty());
        assert(crate::timed::rolled(rest, t) =~= Seq::empty());
    }
}

/// Keys of a chord go down in order, 20 ms apart, are held for the time asked after the
/// last, go up at once in reverse order, and nothing comes for 40 ms after that.
pub proof fn chords_in_detail(s: Timed, keys: Seq<MatrixKey>, ms: nat, i: int)
    requires
        0 <= i < keys.len(),
        forall|k: int| 0 <= k < keys.len() ==> !(#[trigger] keys[k]).shift,
    ensures
        ({
            let t = s.chorded(keys, ms);
            let n = s.events.len() as int;
            let m = keys.len() as int;
            let up = s.len + 20 * (m - 1) + ms;
            &&& t.events.len() == n + 2 * m
            &&& s.events.is_prefix_of(t.events)
            &&& t.events[n + i] == (
                (s.len + 20 * i) as nat,
                HostInput::Key { row: keys[i].row, col: keys[i].col, down: true },
            )
            &&& t.events[n + 2 * m - 1 - i] == (
                up as nat,
                HostInput::Key { row: keys[i].row, col: keys[i].col, down: false },
            )
            &&& t.len == up + 40
        }),
{
    plain_presses(keys, s.len, i);
    let t = s.chorded(keys, ms);
    let m = keys.len() as int;
    let n = s.events.len() as int;
    let r = crate::timed::releases(keys);
    assert(r.len() == m);
    assert(r[m - 1 - i] == crate::timed::let_go(crate::timed::presses(keys)[i]));
    assert(t.events[n + m + (m - 1 - i)] == crate::timed::all_at(
        r,
        (s.len + crate::timed::spread(keys.len()) + ms) as nat,
    )[m - 1 - i]);
}

/// What other commands ask for first.
pub proof fn other_commands(c: ControlCmd)
    ensures
        c matches ControlCmd::Wait(ms) ==> crate::execute::begun(c) == (
            Standing::Acting,
            Act::Wait(ms),
        ),
        c is Screen ==> crate::execute::begun(c).1 == Act::Show(Watch::Screen),
        c is C64Screen ==> crate::execute::begun(c).1 == Act::Show(Watch::C64),
        c matches ControlCmd::Png(p) ==> crate::execute::begun(c).1 == Act::Png(p@),
        c matches ControlCmd::UsbSync { port, force } ==> crate::execute::begun(c).1 == Act::Usb(
            UsbRequest { action: UsbAction::Sync { force }, port },
        ),
        c matches ControlCmd::UsbReplug { port, discard } ==> crate::execute::begun(c).1 == Act::Usb(
            UsbRequest { action: UsbAction::Replug { discard }, port },
        ),
        c matches ControlCmd::UsbPlug { port, device } ==> crate::execute::begun(c).1
            == Act::UsbPlug(port, crate::execute::plugged(device)),
        c matches ControlCmd::Monitor(l) ==> crate::execute::begun(c).1 == Act::Monitor(l@),
        c is CartInfo ==> crate::execute::begun(c).1 == Act::Cart(CartAct::Info),
        c matches ControlCmd::CartSave(p) ==> crate::execute::begun(c).1 == Act::Cart(
            CartAct::Save(p@),
        ),
        c is Quit ==> crate::execute::begun(c).1 is Quit,
        c matches ControlCmd::Key(k, ms) ==> crate::execute::begun(c).1 == Act::Inputs(
            Timed::nothing().tapped(k, ms as nat),
        ),
        c matches ControlCmd::Chord(keys, ms) ==> crate::execute::begun(c).1 == Act::Inputs(
            Timed::nothing().chorded(keys@, ms as nat),
        ),
        c matches ControlCmd::Type(keys) ==> crate::execute::begun(c).1 == Act::Inputs(
            Timed::nothing().all_tapped(keys@, 80),
        ),
{
}

/// An expectation looks where it says, for what it says, until its time is up: the
/// deadline lies its timeout after the time at which it began.
pub proof fn expectations_look(c: ControlCmd, now: u64)
    ensures
        ({
            let first = crate::execute::begun(c);
            let next = crate::execute::step(c, Standing::Timing, Answer::Time(now));
            let end = |ms: u64|
                if now + ms <= u64::MAX {
                    (now + ms) as u64
                } else {
                    u64::MAX
                };
            &&& c matches ControlCmd::Expect(t, ms) ==> first == (Standing::Timing, Act::Clock)
                && next == (Standing::Looking(end(ms)), Act::Look(Watch::Screen, t@))
            &&& c matches ControlCmd::ExpectNot(t, ms) ==> first == (Standing::Timing, Act::Clock)
                && next == (Standing::Looking(end(ms)), Act::Look(Watch::Screen, t@))
            &&& c matches ControlCmd::ExpectConsole(t, ms) ==> first == (
                Standing::Timing,
                Act::Clock,
            ) && next == (Standing::Looking(end(ms)), Act::Look(Watch::Console, t@))
            &&& c matches ControlCmd::ExpectC64(t, ms) ==> first == (Standing::Timing, Act::Clock)
                && next == (Standing::Looking(end(ms)), Act::Look(Watch::C64, t@))
        }),
{
}

/// An expectation is met by a screen that shows the text somewhere, an expectation of
/// absence by one that shows it nowhere, one of the console by a match.
pub proof fn expectations_are_met(
    c: ControlCmd,
    deadline: u64,
    now: u64,
    seen: Seq<char>,
    found: bool,
)
    ensures
        ({
            let ends = Act::End(Ok::<Flow, Seq<char>>(Flow::Continue));
            let look = crate::execute::step(c, Standing::Looking(deadline), Answer::Seen(now, seen)).1;
            let heard = crate::execute::step(
                c,
                Standing::Looking(deadline),
                Answer::Matched(now, found),
            ).1;
            let shows = |t: Seq<char>|
                exists|i: int|
                    0 <= i <= seen.len() - t.len() && #[trigger] seen.subrange(i, i + t.len()) == t;
            &&& c matches ControlCmd::Expect(t, _) ==> (look == ends) == shows(t@)
            &&& c matches ControlCmd::ExpectC64(t, _) ==> (look == ends) == shows(t@)
            &&& c matches ControlCmd::ExpectNot(t, _) ==> (look == ends) == !shows(t@)
            &&& c is ExpectConsole ==> (heard == ends) == found
        }),
{
    let shows = |t: Seq<char>|
        exists|i: int|
            0 <= i <= seen.len() - t.len() && #[trigger] seen.subrange(i, i + t.len()) == t;
    assert forall|t: Seq<char>| #[trigger] shows(t) == crate::text::holds(seen, t) by {
        if shows(t) {
            let i = choose|i: int|
                0 <= i <= seen.len() - t.len() && #[trigger] seen.subrange(i, i + t.len()) == t;
            assert(crate::text::occurs_at(seen, t, i));
        }
        if crate::text::holds(seen, t) {
            let i = choose|i: int| #[trigger] crate::text::occurs_at(seen, t, i);
            assert(seen.subrange(i, i + t.len()) == t);
        }
    }
}

/// Result lines are printed in order, each with a line feed behind.
pub proof fn lines_are_printed(lines: Seq<Seq<char>>, line: Seq<char>)
    ensures
        crate::execute::joined(Seq::empty()) == Seq::<char>::empty(),
        crate::execute::joined(lines.push(line)) == crate::execute::joined(lines) + line + seq!['\n'],
{
    reveal_strlit("\n");
    assert("\n"@ =~= seq!['\n']);
    assert(lines.push(line).drop_last() =~= lines);
}

/// A screen is printed between two equal lines that name it.
pub proof fn screens_are_framed(name: Seq<char>, text: Seq<char>)
    ensures
        crate::execute::block(name, text) == seq!['-', '-', '-', ' '] + name + seq![
            ' ',
            '-',
            '-',
            '-',
            '\n',
        ] + crate::execute::joined(crate::text::lines(text)) + seq!['-', '-', '-', ' '] + name + seq![
            ' ',
            '-',
            '-',
            '-',
            '\n',
        ],
{
    reveal_strlit("--- ");
    reveal_strlit(" ---\n");
    assert("--- "@ =~= seq!['-', '-', '-', ' ']);
    assert(" ---\n"@ =~= seq![' ', '-', '-', '-', '\n']);
    assert(crate::execute::block(name, text) =~= seq!['-', '-', '-', ' '] + name + seq![
        ' ',
        '-',
        '-',
        '-',
        '\n',
    ] + crate::execute::joined(crate::text::lines(text)) + seq!['-', '-', '-', ' '] + name + seq![
        ' ',
        '-',
        '-',
        '-',
        '\n',
    ]);
}

/// The lines of a text are what stands between its line feeds, without the carriage
/// return that may stand before one; a line feed at the very end ends the last line.
pub proof fn lines_stand_between_line_feeds(parts: Seq<Seq<char>>, i: int)
    requires
        parts.len() > 0,
        forall|k: int| 0 <= k < parts.len() ==> !(#[trigger] parts[k]).contains('\n'),
        0 <= i < parts.len(),
    ensures
        ({
            let ended = crate::text::lines(crate::command_laws::joined(parts, '\n') + seq!['\n']);
            let p = parts[i];
            &&& ended.len() == parts.len()
            &&& ended[i] == if p.len() > 0 && p[p.len() - 1] == '\r' {
                p.drop_last()
            } else {
                p
            }
            &&& parts.last().len() > 0 ==> {
                let open = crate::text::lines(crate::command_laws::joined(parts, '\n'));
                open.len() == parts.len() && open[i] == if i == parts.len() - 1 {
                    p
                } else {
                    ended[i]
                }
            }
        }),
{
    let none = Seq::<char>::empty();
    let more = parts.push(none);
    assert forall|k: int| 0 <= k < more.len() implies !(#[trigger] more[k]).contains('\n') by {
        if k < parts.len() {
            assert(more[k] == parts[k]);
        }
    }
    crate::command_laws::splitting_undoes_joining(parts, '\n');
    crate::command_laws::splitting_undoes_joining(more, '\n');
    assert(more.drop_last() =~= parts);
    assert(crate::command_laws::joined(more, '\n') =~= crate::command_laws::joined(parts, '\n')
        + seq!['\n']);
}

/// Emulated time that leads by more than 2 ms is slept off in full; a lag of more than
/// 100 ms is dropped, and a smaller one is caught up with.
pub proof fn pace(p: Pacer, emu: u64, wall: u64)
    requires
        emu >= p.anchor_emu_ms,
    ensures
        ({
            let lead = emu - p.anchor_emu_ms - wall;
            &&& lead > 2 ==> p.nap(emu, wall) == Some(lead as u64)
            &&& lead <= 2 ==> p.nap(emu, wall) is None
            &&& lead < -100 ==> p.moved(emu, wall) == (Pacer { anchor_emu_ms: emu })
            &&& lead >= -100 ==> p.moved(emu, wall) == p
        }),
        crate::pacing::SLICE_INSNS == 100_000,
        crate::pacing::DISPLAY_PERIOD_MS == 20,
        crate::console::CONSOLE_KEEP == 1024 * 1024,
        crate::trace::TRACE_LEN == 256,
{
}

/// A run executes as many instructions as it was given, each counted once, and then ends.
pub proof fn runs_are_counted(m: Machine, p: Progress, ram: Seq<u8>, core: CoreState)
    ensures
        ({
            let (e, q) = p.before(m, ram, core);
            &&& p.run.left == 0 ==> e == Some(Exit::Budget) && q == p
            &&& e is None ==> q.run.left == p.run.left - 1 && p.run.left > 0
            &&& e is Some ==> q.run == p.run && q.trace == p.trace
            &&& e is None && m.cfg.trace ==> q.trace == p.trace.pushed(core.pc)
            &&& e is None && !m.cfg.trace ==> q.trace == p.trace
            &&& q.clock.now == p.clock.now
        }),
        Progress::begun(p.clock, p.trace, p.run.left).run.left == p.run.left,
        Progress::begun(p.clock, p.trace, p.run.left).run.resume == p.clock.resume_pc,
{
}

/// Something is due next exactly if something is queued, and it is the earliest of all
/// that is.
pub proof fn the_next_is_the_earliest<D>(q: crate::timeline::Queue<D>, i: int)
    requires
        q.valid(),
    ensures
        q.next() is None <==> q.events.len() == 0 && q.ends.len() == 0,
        q.next() matches Some(t) ==> {
            &&& 0 <= i < q.events.len() ==> t <= q.events[i].0
            &&& 0 <= i < q.ends.len() ==> t <= q.ends[i].0
            &&& (q.events.len() > 0 && t == q.events[0].0) || (q.ends.len() > 0 && t == q.ends[0].0)
        },
{
    if 0 <= i < q.events.len() {
        assert(q.events[0].0 <= q.events[i].0);
    }
    if 0 <= i < q.ends.len() {
        assert(q.ends[0].0 <= q.ends[i].0);
    }
}

/// Every line of a good script that holds a command gives that command, with its number.
pub proof fn every_command_is_kept(lines: Seq<Seq<char>>, j: int)
    requires
        0 <= j < lines.len(),
        crate::parse::script_of(lines) is Ok,
    ensures
        crate::parse::parsed(lines[j]) is Ok,
        crate::parse::parsed(lines[j])->Ok_0 matches Some(c) ==> exists|k: int|
            0 <= k < crate::parse::script_of(lines)->Ok_0.len() && #[trigger] crate::parse::script_of(
                lines,
            )->Ok_0[k] == ((j + 1) as nat, c),
    decreases lines.len(),
{
    let rest = lines.drop_last();
    let cmds = crate::parse::script_of(lines)->Ok_0;
    let before = crate::parse::script_of(rest)->Ok_0;
    if j < rest.len() {
        every_command_is_kept(rest, j);
        assert(rest[j] == lines[j]);
        if let Some(c) = crate::parse::parsed(lines[j])->Ok_0 {
            let k = choose|k: int|
                0 <= k < before.len() && #[trigger] before[k] == ((j + 1) as nat, c);
            assert(cmds[k] == before[k]);
        }
    } else {
        assert(lines[j] == lines.last());
        if let Some(c) = crate::parse::parsed(lines[j])->Ok_0 {
            assert(cmds[before.len() as int] == ((j + 1) as nat, c));
        }
    }
}

/// Complaints name the line, counted from 1.
pub proof fn complaints_name_the_line(line: nat, message: Seq<char>)
    ensures
        crate::parse::at_line(line, message) == seq!['l', 'i', 'n', 'e', ' ']
            + crate::numbers::decimal(line) + seq![':', ' '] + message,
{
    reveal_strlit("line ");
    reveal_strlit(": ");
    assert("line "@ =~= seq!['l', 'i', 'n', 'e', ' ']);
    assert(": "@ =~= seq![':', ' ']);
}

/// Commands follow each other: one that ended well is followed by the next, from its
/// start, and the last one ends the script.
pub proof fn commands_follow_each_other(
    cmds: Seq<(usize, ControlCmd)>,
    at: int,
    stage: Standing,
    answer: Answer,
)
    requires
        0 <= at < cmds.len(),
    ensures
        ({
            let (next, act) = crate::execute::step(cmds[at].1, stage, answer);
            let s = crate::script::script_step(cmds, at, stage, answer);
            &&& act == Act::End(Ok(Flow::Continue)) && at + 1 < cmds.len() ==> s == (
                at + 1,
                crate::execute::begun(cmds[at + 1].1).0,
                crate::execute::begun(cmds[at + 1].1).1,
            )
            &&& act == Act::End(Ok(Flow::Continue)) && at + 1 == cmds.len() ==> s == (
                at,
                Standing::Ended,
                act,
            )
            &&& !(act is End) ==> s == (at, next, act)
        }),
{
}

/// What was answered is printed: lines as they are, a monitor's text line by line, the
/// result of plugging as one line. A USB request that failed fails after its lines.
pub proof fn answers_are_printed(
    c: ControlCmd,
    lines: Seq<Seq<char>>,
    text: Seq<char>,
    error: Option<Seq<char>>,
)
    ensures
        crate::execute::step(c, Standing::Answering, Answer::Lines(lines)) == (
            Standing::Printing(None),
            Act::Print(crate::execute::joined(lines)),
        ),
        crate::execute::step(c, Standing::Answering, Answer::Usb(lines, error)) == (
            Standing::Printing(error),
            Act::Print(crate::execute::joined(lines)),
        ),
        c is Monitor ==> crate::execute::step(c, Standing::Answering, Answer::Text(text)).1
            == Act::Print(crate::execute::joined(crate::text::lines(text))),
        c is UsbPlug ==> crate::execute::step(c, Standing::Answering, Answer::Text(text)).1
            == Act::Print(text + seq!['\n']),
        error matches Some(e) ==> crate::execute::step(c, Standing::Printing(error), Answer::Done).1
            == Act::End(Err::<Flow, Seq<char>>(e)),
        error is None ==> crate::execute::step(c, Standing::Printing(error), Answer::Done).1
            == Act::End(Ok::<Flow, Seq<char>>(Flow::Continue)),
{
    lines_are_printed(Seq::empty(), text);
    assert(Seq::<Seq<char>>::empty().push(text) =~= seq![text]);
    assert(Seq::<char>::empty() + text + seq!['\n'] =~= text + seq!['\n']);
}

/// A screen that was asked for is printed under its own name: `c64` for the C64's, and
/// `screen` for the overlay's.
pub proof fn screens_are_printed(c: ControlCmd, text: Seq<char>)
    ensures
        c is Screen ==> crate::execute::step(c, Standing::Showing(false), Answer::Text(text)) == (
            Standing::Printing(None),
            Act::Print(crate::execute::block("screen"@, text)),
        ),
        c is C64Screen ==> crate::execute::step(c, Standing::Showing(false), Answer::Text(text)) == (
            Standing::Printing(None),
            Act::Print(crate::execute::block("c64"@, text)),
        ),
        c is Expect || c is ExpectNot || c is ExpectConsole ==> crate::execute::step(
            c,
            Standing::Showing(true),
            Answer::Text(text),
        ).1 == Act::Print(crate::execute::block("screen"@, text)),
        c is ExpectC64 ==> crate::execute::step(c, Standing::Showing(true), Answer::Text(text)).1
            == Act::Print(crate::execute::block("c64"@, text)),
        c is Expect || c is ExpectNot || c is ExpectConsole ==> crate::execute::shown(c)
            == Watch::Screen,
        c is ExpectC64 ==> crate::execute::shown(c) == Watch::C64,
{
}

/// What a command says is what it asks for: its keys, its lines, its movement, its times,
/// each in its place.
pub proof fn commands_do_what_they_say(c: ControlCmd)
    ensures
        ({
            let act = crate::execute::begun(c).1;
            let one = |e: HostInput| Act::Inputs(Timed { events: seq![(0nat, e)], len: 0 });
            let two = |a: HostInput, ms: u64, b: HostInput, gap: nat|
                Act::Inputs(Timed { events: seq![(0nat, a), (ms as nat, b)], len: ms as nat + gap });
            &&& c@ matches Cmd::Wait(ms) ==> act == Act::Wait(ms)
            &&& c@ matches Cmd::Button(ms) ==> act == two(
                HostInput::MenuButton(true),
                ms,
                HostInput::MenuButton(false),
                0,
            )
            &&& c@ matches Cmd::Key(k, ms) ==> act == Act::Inputs(
                Timed::nothing().tapped(k, ms as nat),
            )
            &&& c@ matches Cmd::Chord(k, ms) ==> act == Act::Inputs(
                Timed::nothing().chorded(k, ms as nat),
            )
            &&& c@ matches Cmd::Hold(k) ==> act == Act::Inputs(
                Timed { events: crate::timed::all_at(crate::timed::presses(k), 0), len: 0 },
            )
            &&& c@ matches Cmd::Release(k) ==> act == Act::Inputs(
                Timed { events: crate::timed::all_at(crate::timed::releases(k), 0), len: 0 },
            )
            &&& c@ matches Cmd::Type(k) ==> act == Act::Inputs(Timed::nothing().all_tapped(k, 80))
            &&& c@ matches Cmd::UsbKey(u, ms) ==> act == two(
                HostInput::UsbKey { usage: u, down: true },
                ms,
                HostInput::UsbKey { usage: u, down: false },
                40,
            )
            &&& c@ matches Cmd::Joy(p, l, ms) ==> act == two(
                HostInput::JoystickPort { port: p, lines: l },
                ms,
                HostInput::JoystickPort { port: p, lines: 0xFF },
                40,
            )
            &&& c@ matches Cmd::JoySet(p, l) ==> act == one(
                HostInput::JoystickPort { port: p, lines: l },
            )
            &&& c matches ControlCmd::WasdToJoy(p, codes, f) ==> c@ == Cmd::WasdToJoy(p, codes@, f)
                && act == one(HostInput::WasdToJoy { port: p, codes, fire: f })
            &&& c@ matches Cmd::UsbMouse(x, y, b) ==> act == one(
                HostInput::UsbMouse { dx: x as i32, dy: y as i32, wheel: 0, buttons: b },
            )
            &&& c@ is Screen ==> act == Act::Show(Watch::Screen)
            &&& c@ is C64Screen ==> act == Act::Show(Watch::C64)
            &&& c@ matches Cmd::Png(p) ==> act == Act::Png(p)
            &&& c@ matches Cmd::UsbSync(port, force) ==> act == Act::Usb(
                UsbRequest { action: UsbAction::Sync { force }, port },
            )
            &&& c@ matches Cmd::UsbReplug(port, discard) ==> act == Act::Usb(
                UsbRequest { action: UsbAction::Replug { discard }, port },
            )
            &&& c@ matches Cmd::UsbPlug(port, d) ==> act == Act::UsbPlug(port, d)
            &&& c@ matches Cmd::Monitor(t) ==> act == Act::Monitor(t)
            &&& c@ is CartInfo ==> act == Act::Cart(CartAct::Info)
            &&& c@ matches Cmd::CartSave(p) ==> act == Act::Cart(CartAct::Save(p))
            &&& c@ is Quit ==> act is Quit
            &&& c@ matches Cmd::Expect(t, ms) ==> crate::execute::expectation(c) == Some(
                (Watch::Screen, t, true, ms),
            )
            &&& c@ matches Cmd::ExpectNot(t, ms) ==> crate::execute::expectation(c) == Some(
                (Watch::Screen, t, false, ms),
            )
            &&& c@ matches Cmd::ExpectConsole(t, ms) ==> crate::execute::expectation(c) == Some(
                (Watch::Console, t, true, ms),
            )
            &&& c@ matches Cmd::ExpectC64(t, ms) ==> crate::execute::expectation(c) == Some(
                (Watch::C64, t, true, ms),
            )
        }),
{
}

/// The commands of a parsed script are those of its lines, in order.
pub proof fn scripts_hold_their_commands(cmds: Seq<(usize, ControlCmd)>, i: int)
    requires
        0 <= i < cmds.len(),
    ensures
        crate::parse::numbered(cmds).len() == cmds.len(),
        crate::parse::numbered(cmds)[i] == (cmds[i].0 as nat, cmds[i].1@),
{
}

/// A key that needs SHIFT goes down after the left SHIFT and comes up before it; keys that
/// are held go down in the order given and come up in reverse.
pub proof fn shift_goes_around(keys: Seq<MatrixKey>, k: MatrixKey)
    ensures
        ({
            let (row, col) = (k.row, k.col);
            let down = HostInput::Key { row, col, down: true };
            let up = HostInput::Key { row, col, down: false };
            let shift = HostInput::Key { row: 1, col: 7, down: true };
            let unshift = HostInput::Key { row: 1, col: 7, down: false };
            &&& crate::timed::presses(keys.push(k)) == crate::timed::presses(keys) + (if k.shift {
                seq![shift, down]
            } else {
                seq![down]
            })
            &&& crate::timed::releases(keys.push(k)) == (if k.shift {
                seq![up, unshift]
            } else {
                seq![up]
            }) + crate::timed::releases(keys)
            &&& crate::timed::presses(Seq::empty()).len() == 0
            &&& crate::timed::releases(Seq::empty()).len() == 0
        }),
{
    let (row, col) = (k.row, k.col);
    let up = HostInput::Key { row, col, down: false };
    let unshift = HostInput::Key { row: 1, col: 7, down: false };
    assert(keys.push(k).drop_last() =~= keys);
    let a = crate::timed::presses(keys);
    let b = crate::timed::press(k);
    let r = crate::timed::releases(keys.push(k));
    let tail = if k.shift {
        seq![up, unshift]
    } else {
        seq![up]
    };
    assert(crate::timed::presses(keys.push(k)) == a + b);
    assert(b.len() == tail.len());
    assert forall|i: int| 0 <= i < r.len() implies #[trigger] r[i] == (tail
        + crate::timed::releases(keys))[i] by {
        let n = (a + b).len() as int;
        assert(r[i] == crate::timed::let_go((a + b)[n - 1 - i]));
        if i >= b.len() {
            assert((a + b)[n - 1 - i] == a[a.len() - 1 - (i - b.len())]);
            assert(crate::timed::releases(keys)[i - b.len()] == crate::timed::let_go(
                a[a.len() - 1 - (i - b.len())],
            ));
        }
    }
    assert(r =~= tail + crate::timed::releases(keys));
}

/// Typed keys are tapped one after another, each when the one before has come to its end.
pub proof fn typed_keys_follow_each_other(s: Timed, keys: Seq<MatrixKey>, k: MatrixKey, ms: nat)
    ensures
        s.all_tapped(keys.push(k), ms) == s.all_tapped(keys, ms).tapped(k, ms),
        s.all_tapped(Seq::empty(), ms) == s,
{
    assert(keys.push(k).drop_last() =~= keys);
}

} // verus!
