//! What a control command does, step by step.
//!
//! A command is carried out against a running emulator that only the caller can
//! reach. [`execute`] decides: from where the command stands and what the emulator
//! answered it says what to ask next, until the command ends.
use crate::command::{ControlCmd, Plugged, KEY_MS};
use crate::host::HostInput;
use crate::numbers::push_decimal;
use crate::text::{chars_of, contains, debug_str, split_lines, string_of};
use crate::timed::{key_events, Timed, TimedInputs, RELEASE_MS};
use crate::usb::UsbDevice;
use vstd::prelude::*;

verus! {

/// Whether a session goes on after a command.
#[derive(Clone, Copy, Debug, PartialEq, Eq, Structural)]
pub enum Flow {
    Continue,
    Quit,
}

/// What a USB stick request does.
#[allow(inconsistent_fields)]
#[derive(Clone, Copy, Debug, PartialEq, Eq, Structural)]
pub enum UsbAction {
    /// Write the guest's changes back to the host.
    Sync { force: bool },
    /// Unplug, then plug in again.
    Replug { discard: bool },
}

/// A request about the USB sticks, or about one hub port.
#[derive(Clone, Copy, Debug, PartialEq, Eq)]
pub struct UsbRequest {
    pub action: UsbAction,
    pub port: Option<u8>,
}

/// A request about the cartridge in the expansion port.
#[derive(Debug, PartialEq, Eq)]
pub enum CartRequest {
    Info,
    Save(String),
}

/// What can be watched.
#[derive(Clone, Copy, Debug, PartialEq, Eq, Structural)]
pub enum Watch {
    /// The text of the overlay's screen.
    Screen,
    /// The C64's text screen.
    C64,
    /// The console output.
    Console,
}

/// What to ask of the emulator next, or how the command ended.
#[derive(Debug, PartialEq, Eq)]
pub enum Action {
    /// Apply a timed input sequence and wait for its end.
    Inputs(TimedInputs),
    /// Let this many emulated milliseconds pass.
    Wait(u64),
    /// Tell the emulated time.
    Clock,
    /// Tell the emulated time, then what is on the screen, or whether the console
    /// output after the last match holds the text.
    Look(Watch, String),
    /// Let the emulator run a moment.
    Poll,
    /// Tell what is on the screen.
    Show(Watch),
    /// Write the display to a PNG file.
    Png(String),
    Usb(UsbRequest),
    UsbPlug(u8, Option<UsbDevice>),
    Monitor(String),
    Cart(CartRequest),
    /// Stop the emulator.
    Quit,
    /// Hand these lines to the client, in one piece.
    Print(String),
    /// The command has ended.
    End(Result<Flow, String>),
}

/// What the emulator answered.
#[derive(Debug, PartialEq, Eq)]
pub enum Reply {
    /// Nothing was asked yet.
    Start,
    /// What was asked is done.
    Done,
    Time(u64),
    /// The time before the look, and the text seen.
    Seen(u64, String),
    /// The time before the look, and whether the console output matched.
    Matched(u64, bool),
    Text(String),
    Lines(Vec<String>),
    /// Result lines of a USB request, and the error of one that failed.
    Usb(Vec<String>, Option<String>),
    /// What was asked could not be done.
    Failed(String),
}

/// Where a command stands.
#[derive(Debug, PartialEq, Eq)]
pub enum Stage {
    Start,
    /// Its one deed was asked for.
    Acting,
    /// The time was asked for.
    Timing,
    /// A look was asked for; the deadline.
    Looking(u64),
    /// A moment was asked for; the deadline.
    Polling(u64),
    /// A screen to print was asked for; whether the command fails then.
    Showing(bool),
    /// An answer to print was asked for.
    Answering,
    /// Lines are printed; the error with which the command ends then.
    Printing(Option<String>),
    Ended,
}

/// A cartridge request.
pub enum CartAct {
    Info,
    Save(Seq<char>),
}

/// What to ask of the emulator.
#[verifier::ext_equal]
pub enum Act {
    Inputs(Timed),
    Wait(u64),
    Clock,
    Look(Watch, Seq<char>),
    Poll,
    Show(Watch),
    Png(Seq<char>),
    Usb(UsbRequest),
    UsbPlug(u8, Option<Plugged>),
    Monitor(Seq<char>),
    Cart(CartAct),
    Quit,
    Print(Seq<char>),
    End(Result<Flow, Seq<char>>),
}

/// What the emulator answered.
pub enum Answer {
    Start,
    Done,
    Time(u64),
    Seen(u64, Seq<char>),
    Matched(u64, bool),
    Text(Seq<char>),
    Lines(Seq<Seq<char>>),
    Usb(Seq<Seq<char>>, Option<Seq<char>>),
    Failed(Seq<char>),
}

/// Where a command stands.
pub enum Standing {
    Start,
    Acting,
    Timing,
    Looking(u64),
    Polling(u64),
    Showing(bool),
    Answering,
    Printing(Option<Seq<char>>),
    Ended,
}

/// The texts of strings.
pub open spec fn texts(v: Seq<String>) -> Seq<Seq<char>> {
    Seq::new(v.len(), |i: int| v[i]@)
}

/// The text of an optional string.
pub open spec fn text_of(o: Option<String>) -> Option<Seq<char>> {
    match o {
        Some(s) => Some(s@),
        None => None,
    }
}

impl View for CartRequest {
    type V = CartAct;

    open spec fn view(&self) -> CartAct {
        match self {
            CartRequest::Info => CartAct::Info,
            CartRequest::Save(p) => CartAct::Save(p@),
        }
    }
}

impl View for Action {
    type V = Act;

    open spec fn view(&self) -> Act {
        match self {
            Action::Inputs(s) => Act::Inputs(s@),
            Action::Wait(ms) => Act::Wait(*ms),
            Action::Clock => Act::Clock,
            Action::Look(w, t) => Act::Look(*w, t@),
            Action::Poll => Act::Poll,
            Action::Show(w) => Act::Show(*w),
            Action::Png(p) => Act::Png(p@),
            Action::Usb(r) => Act::Usb(*r),
            Action::UsbPlug(p, d) => Act::UsbPlug(*p, plugged(*d)),
            Action::Monitor(l) => Act::Monitor(l@),
            Action::Cart(r) => Act::Cart(r@),
            Action::Quit => Act::Quit,
            Action::Print(t) => Act::Print(t@),
            Action::End(r) => Act::End(crate::command::said(*r)),
        }
    }
}

impl View for Reply {
    type V = Answer;

    open spec fn view(&self) -> Answer {
        match self {
            Reply::Start => Answer::Start,
            Reply::Done => Answer::Done,
            Reply::Time(t) => Answer::Time(*t),
            Reply::Seen(t, s) => Answer::Seen(*t, s@),
            Reply::Matched(t, b) => Answer::Matched(*t, *b),
            Reply::Text(s) => Answer::Text(s@),
            Reply::Lines(v) => Answer::Lines(texts(v@)),
            Reply::Usb(v, e) => Answer::Usb(texts(v@), text_of(*e)),
            Reply::Failed(e) => Answer::Failed(e@),
        }
    }
}

impl View for Stage {
    type V = Standing;

    open spec fn view(&self) -> Standing {
        match self {
            Stage::Start => Standing::Start,
            Stage::Acting => Standing::Acting,
            Stage::Timing => Standing::Timing,
            Stage::Looking(d) => Standing::Looking(*d),
            Stage::Polling(d) => Standing::Polling(*d),
            Stage::Showing(f) => Standing::Showing(*f),
            Stage::Answering => Standing::Answering,
            Stage::Printing(e) => Standing::Printing(text_of(*e)),
            Stage::Ended => Standing::Ended,
        }
    }
}

/// A device, or none.
pub open spec fn plugged(d: Option<UsbDevice>) -> Option<Plugged> {
    match d {
        Some(d) => Some(d@),
        None => None,
    }
}

/// Lines, each with a newline behind.
pub open spec fn joined(lines: Seq<Seq<char>>) -> Seq<char>
    decreases lines.len(),
{
    if lines.len() == 0 {
        Seq::empty()
    } else {
        joined(lines.drop_last()) + lines.last() + "\n"@
    }
}

/// A text's lines between `--- marker ---` lines.
pub open spec fn block(marker: Seq<char>, text: Seq<char>) -> Seq<char> {
    let rule = "--- "@ + marker + " ---\n"@;
    rule + joined(crate::text::lines(text)) + rule
}

/// The marker around a printed screen.
pub open spec fn marker(w: Watch) -> Seq<char> {
    if w == Watch::C64 {
        "c64"@
    } else {
        "screen"@
    }
}

/// A single event at once.
pub open spec fn at_once(e: HostInput) -> Timed {
    Timed { events: seq![(0nat, e)], len: 0 }
}

/// Something held for `ms`, then let go, then a gap.
pub open spec fn held(down: HostInput, up: HostInput, ms: nat, gap: nat) -> Timed {
    Timed { events: seq![(0nat, down), (ms, up)], len: ms + gap }
}

/// The inputs of a command that has some.
pub open spec fn inputs(cmd: ControlCmd) -> Option<Timed> {
    match cmd {
        ControlCmd::Button(ms) => Some(
            held(HostInput::MenuButton(true), HostInput::MenuButton(false), ms as nat, 0),
        ),
        ControlCmd::Key(k, ms) => Some(Timed::nothing().tapped(k, ms as nat)),
        ControlCmd::Chord(keys, ms) => Some(Timed::nothing().chorded(keys@, ms as nat)),
        ControlCmd::Hold(keys) => Some(
            Timed { events: crate::timed::all_at(crate::timed::presses(keys@), 0), len: 0 },
        ),
        ControlCmd::Release(keys) => Some(
            Timed { events: crate::timed::all_at(crate::timed::releases(keys@), 0), len: 0 },
        ),
        ControlCmd::Type(keys) => Some(Timed::nothing().all_tapped(keys@, KEY_MS as nat)),
        ControlCmd::Joy(port, lines, ms) => Some(
            held(
                HostInput::JoystickPort { port, lines },
                HostInput::JoystickPort { port, lines: 0xFF },
                ms as nat,
                RELEASE_MS as nat,
            ),
        ),
        ControlCmd::JoySet(port, lines) => Some(at_once(HostInput::JoystickPort { port, lines })),
        ControlCmd::WasdToJoy(port, codes, fire) => Some(
            at_once(HostInput::WasdToJoy { port, codes, fire }),
        ),
        ControlCmd::UsbMouse(dx, dy, buttons) => Some(
            at_once(HostInput::UsbMouse { dx, dy, wheel: 0, buttons }),
        ),
        ControlCmd::UsbKey(usage, ms) => Some(
            held(
                HostInput::UsbKey { usage, down: true },
                HostInput::UsbKey { usage, down: false },
                ms as nat,
                RELEASE_MS as nat,
            ),
        ),
        _ => None,
    }
}

/// The command's inputs end within the range of the clock.
pub open spec fn fits(cmd: ControlCmd) -> bool {
    match inputs(cmd) {
        Some(s) => s.len <= u64::MAX,
        None => true,
    }
}

/// What an expectation watches, the text, whether it is to be there, the timeout.
pub open spec fn expectation(cmd: ControlCmd) -> Option<(Watch, Seq<char>, bool, u64)> {
    match cmd {
        ControlCmd::Expect(t, ms) => Some((Watch::Screen, t@, true, ms)),
        ControlCmd::ExpectNot(t, ms) => Some((Watch::Screen, t@, false, ms)),
        ControlCmd::ExpectConsole(t, ms) => Some((Watch::Console, t@, true, ms)),
        ControlCmd::ExpectC64(t, ms) => Some((Watch::C64, t@, true, ms)),
        _ => None,
    }
}

/// Why an expectation failed, with its text as `shown`.
pub open spec fn complaint(cmd: ControlCmd, shown: Seq<char>) -> Seq<char> {
    match cmd {
        ControlCmd::Expect(_, ms) => "expect "@ + shown + ": not on the screen within "@
            + crate::numbers::decimal(ms as nat) + " ms emulated"@,
        ControlCmd::ExpectNot(_, ms) => "expect-not "@ + shown + ": still on the screen after "@
            + crate::numbers::decimal(ms as nat) + " ms emulated"@,
        ControlCmd::ExpectConsole(_, ms) => "expect-console "@ + shown
            + ": not in the console output within "@ + crate::numbers::decimal(ms as nat)
            + " ms emulated"@,
        ControlCmd::ExpectC64(_, ms) => "expect-c64 "@ + shown
            + ": not on the C64 screen within "@ + crate::numbers::decimal(ms as nat)
            + " ms emulated"@,
        _ => Seq::empty(),
    }
}

/// The screen that is printed: the C64's for commands about it.
pub open spec fn shown(cmd: ControlCmd) -> Watch {
    match cmd {
        ControlCmd::C64Screen => Watch::C64,
        ControlCmd::ExpectC64(_, _) => Watch::C64,
        _ => Watch::Screen,
    }
}

/// How a command begins.
pub open spec fn begun(cmd: ControlCmd) -> (Standing, Act) {
    match cmd {
        ControlCmd::Wait(ms) => (Standing::Acting, Act::Wait(ms)),
        ControlCmd::Screen => (Standing::Showing(false), Act::Show(Watch::Screen)),
        ControlCmd::C64Screen => (Standing::Showing(false), Act::Show(Watch::C64)),
        ControlCmd::Png(p) => (Standing::Acting, Act::Png(p@)),
        ControlCmd::UsbSync { port, force } => (
            Standing::Answering,
            Act::Usb(UsbRequest { action: UsbAction::Sync { force }, port }),
        ),
        ControlCmd::UsbReplug { port, discard } => (
            Standing::Answering,
            Act::Usb(UsbRequest { action: UsbAction::Replug { discard }, port }),
        ),
        ControlCmd::UsbPlug { port, device } => (
            Standing::Answering,
            Act::UsbPlug(port, plugged(device)),
        ),
        ControlCmd::Monitor(l) => (Standing::Answering, Act::Monitor(l@)),
        ControlCmd::CartInfo => (Standing::Answering, Act::Cart(CartAct::Info)),
        ControlCmd::CartSave(p) => (Standing::Answering, Act::Cart(CartAct::Save(p@))),
        ControlCmd::Quit => (Standing::Acting, Act::Quit),
        _ => match inputs(cmd) {
            Some(s) => (Standing::Acting, Act::Inputs(s)),
            None => (Standing::Timing, Act::Clock),
        },
    }
}

/// Asking for a look.
pub open spec fn look(cmd: ControlCmd, deadline: u64) -> (Standing, Act) {
    match expectation(cmd) {
        Some((w, t, _, _)) => (Standing::Looking(deadline), Act::Look(w, t)),
        None => (Standing::Ended, Act::End(Ok(Flow::Continue))),
    }
}

/// After a look at time `now` that found the expectation met or not.
pub open spec fn looked(cmd: ControlCmd, deadline: u64, now: u64, met: bool) -> (Standing, Act) {
    if met {
        (Standing::Ended, Act::End(Ok(Flow::Continue)))
    } else if now >= deadline {
        (Standing::Showing(true), Act::Show(shown(cmd)))
    } else {
        (Standing::Polling(deadline), Act::Poll)
    }
}

/// The answer suits what was asked.
pub open spec fn suits(cmd: ControlCmd, stage: Standing, answer: Answer) -> bool {
    match stage {
        Standing::Start => answer is Start,
        Standing::Ended => false,
        Standing::Acting => answer is Done || answer is Failed,
        Standing::Timing => (answer is Time || answer is Failed) && expectation(cmd) is Some,
        Standing::Looking(_) => match expectation(cmd) {
            Some((Watch::Console, _, _, _)) => answer is Matched || answer is Failed,
            Some(_) => answer is Seen || answer is Failed,
            None => false,
        },
        Standing::Polling(_) => (answer is Done || answer is Failed) && expectation(cmd) is Some,
        Standing::Showing(failing) => (answer is Text || answer is Failed) && (failing
            ==> expectation(cmd) is Some),
        Standing::Answering => answer is Failed || (match cmd {
            ControlCmd::UsbSync { .. } => answer is Usb,
            ControlCmd::UsbReplug { .. } => answer is Usb,
            ControlCmd::UsbPlug { .. } => answer is Text,
            ControlCmd::Monitor(_) => answer is Text,
            _ => answer is Lines,
        }),
        Standing::Printing(_) => answer is Done || answer is Failed,
    }
}

/// The step of a command.
pub open spec fn step(cmd: ControlCmd, stage: Standing, answer: Answer) -> (Standing, Act) {
    match answer {
        Answer::Failed(e) => (Standing::Ended, Act::End(Err(e))),
        Answer::Start => begun(cmd),
        Answer::Time(now) => {
            let ms = expectation(cmd)->Some_0.3;
            let end = now + ms;
            look(
                cmd,
                if end <= u64::MAX {
                    end as u64
                } else {
                    u64::MAX
                },
            )
        },
        Answer::Seen(now, text) => {
            let (_, t, there, _) = expectation(cmd)->Some_0;
            looked(cmd, stage->Looking_0, now, crate::text::holds(text, t) == there)
        },
        Answer::Matched(now, found) => looked(cmd, stage->Looking_0, now, found),
        Answer::Text(t) => match stage {
            Standing::Showing(failing) => (
                Standing::Printing(
                    if failing {
                        Some(
                            complaint(cmd, crate::text::debug_text(expectation(cmd)->Some_0.1)),
                        )
                    } else {
                        None
                    },
                ),
                Act::Print(block(marker(shown(cmd)), t)),
            ),
            _ => (
                Standing::Printing(None),
                Act::Print(
                    joined(
                        if cmd is Monitor {
                            crate::text::lines(t)
                        } else {
                            seq![t]
                        },
                    ),
                ),
            ),
        },
        Answer::Lines(lines) => (Standing::Printing(None), Act::Print(joined(lines))),
        Answer::Usb(lines, error) => (Standing::Printing(error), Act::Print(joined(lines))),
        Answer::Done => match stage {
            Standing::Polling(deadline) => look(cmd, deadline),
            Standing::Printing(Some(e)) => (Standing::Ended, Act::End(Err(e))),
            Standing::Printing(None) => (Standing::Ended, Act::End(Ok(Flow::Continue))),
            _ => (
                Standing::Ended,
                Act::End(
                    Ok(
                        if cmd is Quit {
                            Flow::Quit
                        } else {
                            Flow::Continue
                        },
                    ),
                ),
            ),
        },
    }
}

fn joined_chars(lines: &Vec<Vec<char>>) -> (s: String)
    ensures
        s@ == joined(crate::text::deep(lines@)),
{
    let ghost all = crate::text::deep(lines@);
    let mut s = String::from_str("");
    let mut i: usize = 0;
    proof {
        reveal_strlit("");
    }
    assert(all.take(0) =~= Seq::empty());
    while i < lines.len()
        invariant
            i <= lines@.len(),
            all == crate::text::deep(lines@),
            s@ == joined(all.take(i as int)),
        decreases lines@.len() - i,
    {
        assert(all.take(i + 1).drop_last() =~= all.take(i as int));
        assert(all.take(i + 1).last() == lines@[i as int]@);
        s.append(string_of(&lines[i]).as_str());
        s.append("\n");
        i = i + 1;
    }
    assert(all.take(lines@.len() as int) =~= all);
    s
}

/// Result lines in one piece.
pub fn print_lines(lines: &Vec<String>) -> (s: String)
    ensures
        s@ == joined(texts(lines@)),
{
    let ghost all = texts(lines@);
    let mut s = String::from_str("");
    let mut i: usize = 0;
    proof {
        reveal_strlit("");
    }
    assert(all.take(0) =~= Seq::empty());
    while i < lines.len()
        invariant
            i <= lines@.len(),
            all == texts(lines@),
            s@ == joined(all.take(i as int)),
        decreases lines@.len() - i,
    {
        assert(all.take(i + 1).drop_last() =~= all.take(i as int));
        assert(all.take(i + 1).last() == lines@[i as int]@);
        s.append(lines[i].as_str());
        s.append("\n");
        i = i + 1;
    }
    assert(all.take(lines@.len() as int) =~= all);
    s
}

/// `text` between `--- marker ---` lines, in one piece.
pub fn print_block(name: &str, text: &str) -> (s: String)
    ensures
        s@ == block(name@, text@),
{
    let mut s = String::from_str("--- ");
    s.append(name);
    s.append(" ---\n");
    let ghost rule = s@;
    s.append(joined_chars(&split_lines(&chars_of(text))).as_str());
    let mut end = String::from_str("--- ");
    end.append(name);
    end.append(" ---\n");
    s.append(end.as_str());
    s
}

/// Why an expectation failed, with its text as `shown`.
pub fn complain(cmd: &ControlCmd, shown: &str) -> (m: String)
    ensures
        m@ == complaint(*cmd, shown@),
{
    let (word, what, ms): (&str, &str, u64) = match cmd {
        ControlCmd::Expect(_, ms) => ("expect ", ": not on the screen within ", *ms),
        ControlCmd::ExpectNot(_, ms) => ("expect-not ", ": still on the screen after ", *ms),
        ControlCmd::ExpectConsole(_, ms) => {
            ("expect-console ", ": not in the console output within ", *ms)
        },
        ControlCmd::ExpectC64(_, ms) => ("expect-c64 ", ": not on the C64 screen within ", *ms),
        _ => {
            let m = String::from_str("");
            proof {
                reveal_strlit("");
            }
            assert(m@ =~= Seq::empty());
            return m;
        },
    };
    let mut m = String::from_str(word);
    m.append(shown);
    m.append(what);
    push_decimal(&mut m, ms);
    m.append(" ms emulated");
    m
}

fn hold(down: HostInput, up: HostInput, ms: u64, gap: u64) -> (s: TimedInputs)
    requires
        ms + gap <= u64::MAX,
    ensures
        s@ == held(down, up, ms as nat, gap as nat),
{
    let mut events: Vec<(u64, HostInput)> = Vec::new();
    events.push((0, down));
    events.push((ms, up));
    let s = TimedInputs { events, len_ms: ms + gap };
    assert(s@.events =~= seq![(0nat, down), (ms as nat, up)]);
    s
}

fn once(e: HostInput) -> (s: TimedInputs)
    ensures
        s@ == at_once(e),
{
    let mut events: Vec<(u64, HostInput)> = Vec::new();
    events.push((0, e));
    let s = TimedInputs { events, len_ms: 0 };
    assert(s@.events =~= seq![(0nat, e)]);
    s
}

fn inputs_of(cmd: &ControlCmd) -> (r: Option<TimedInputs>)
    requires
        fits(*cmd),
    ensures
        inputs(*cmd) == (match r {
            Some(s) => Some(s@),
            None => None,
        }),
{
    match cmd {
        ControlCmd::Button(ms) => Some(
            hold(HostInput::MenuButton(true), HostInput::MenuButton(false), *ms, 0),
        ),
        ControlCmd::Key(k, ms) => {
            let mut s = TimedInputs::new();
            s.tap(*k, *ms);
            Some(s)
        },
        ControlCmd::Chord(keys, ms) => {
            let mut s = TimedInputs::new();
            s.chord(keys.as_slice(), *ms);
            Some(s)
        },
        ControlCmd::Hold(keys) => Some(
            TimedInputs { events: key_events(keys.as_slice(), true), len_ms: 0 },
        ),
        ControlCmd::Release(keys) => Some(
            TimedInputs { events: key_events(keys.as_slice(), false), len_ms: 0 },
        ),
        ControlCmd::Type(keys) => {
            let mut s = TimedInputs::new();
            proof {
                crate::timed::taps_add_up(Timed::nothing(), keys@, KEY_MS as nat);
            }
            s.tap_all(keys.as_slice(), KEY_MS);
            Some(s)
        },
        ControlCmd::Joy(port, lines, ms) => {
            let down = HostInput::JoystickPort { port: *port, lines: *lines };
            let up = HostInput::JoystickPort { port: *port, lines: 0xFF };
            Some(hold(down, up, *ms, RELEASE_MS))
        },
        ControlCmd::JoySet(port, lines) => Some(
            once(HostInput::JoystickPort { port: *port, lines: *lines }),
        ),
        ControlCmd::WasdToJoy(port, codes, fire) => Some(
            once(HostInput::WasdToJoy { port: *port, codes: *codes, fire: *fire }),
        ),
        ControlCmd::UsbMouse(dx, dy, buttons) => Some(
            once(HostInput::UsbMouse { dx: *dx, dy: *dy, wheel: 0, buttons: *buttons }),
        ),
        ControlCmd::UsbKey(usage, ms) => {
            let down = HostInput::UsbKey { usage: *usage, down: true };
            let up = HostInput::UsbKey { usage: *usage, down: false };
            Some(hold(down, up, *ms, RELEASE_MS))
        },
        _ => None,
    }
}

fn same_device(d: &Option<UsbDevice>) -> (r: Option<UsbDevice>)
    ensures
        plugged(r) == plugged(*d),
{
    match d {
        Some(UsbDevice::Keyboard) => Some(UsbDevice::Keyboard),
        Some(UsbDevice::Mouse) => Some(UsbDevice::Mouse),
        Some(UsbDevice::Image(p)) => Some(UsbDevice::Image(p.clone())),
        None => None,
    }
}

fn begin(cmd: &ControlCmd) -> (r: (Stage, Action))
    requires
        fits(*cmd),
    ensures
        (r.0@, r.1@) == begun(*cmd),
{
    match cmd {
        ControlCmd::Wait(ms) => (Stage::Acting, Action::Wait(*ms)),
        ControlCmd::Screen => (Stage::Showing(false), Action::Show(Watch::Screen)),
        ControlCmd::C64Screen => (Stage::Showing(false), Action::Show(Watch::C64)),
        ControlCmd::Png(p) => (Stage::Acting, Action::Png(p.clone())),
        ControlCmd::UsbSync { port, force } => {
            let action = UsbAction::Sync { force: *force };
            (Stage::Answering, Action::Usb(UsbRequest { action, port: *port }))
        },
        ControlCmd::UsbReplug { port, discard } => {
            let action = UsbAction::Replug { discard: *discard };
            (Stage::Answering, Action::Usb(UsbRequest { action, port: *port }))
        },
        ControlCmd::UsbPlug { port, device } => {
            (Stage::Answering, Action::UsbPlug(*port, same_device(device)))
        },
        ControlCmd::Monitor(l) => (Stage::Answering, Action::Monitor(l.clone())),
        ControlCmd::CartInfo => (Stage::Answering, Action::Cart(CartRequest::Info)),
        ControlCmd::CartSave(p) => {
            (Stage::Answering, Action::Cart(CartRequest::Save(p.clone())))
        },
        ControlCmd::Quit => (Stage::Acting, Action::Quit),
        _ => match inputs_of(cmd) {
            Some(s) => (Stage::Acting, Action::Inputs(s)),
            None => (Stage::Timing, Action::Clock),
        },
    }
}

fn expected(cmd: &ControlCmd) -> (r: Option<(Watch, &String, bool, u64)>)
    ensures
        expectation(*cmd) == (match r {
            Some((w, t, b, ms)) => Some((w, t@, b, ms)),
            None => None,
        }),
{
    match cmd {
        ControlCmd::Expect(t, ms) => Some((Watch::Screen, t, true, *ms)),
        ControlCmd::ExpectNot(t, ms) => Some((Watch::Screen, t, false, *ms)),
        ControlCmd::ExpectConsole(t, ms) => Some((Watch::Console, t, true, *ms)),
        ControlCmd::ExpectC64(t, ms) => Some((Watch::C64, t, true, *ms)),
        _ => None,
    }
}

fn ask_look(cmd: &ControlCmd, deadline: u64) -> (r: (Stage, Action))
    ensures
        (r.0@, r.1@) == look(*cmd, deadline),
{
    match expected(cmd) {
        Some((w, t, _, _)) => (Stage::Looking(deadline), Action::Look(w, t.clone())),
        None => (Stage::Ended, Action::End(Ok(Flow::Continue))),
    }
}

fn screen_of(cmd: &ControlCmd) -> (w: Watch)
    ensures
        w == shown(*cmd),
{
    match cmd {
        ControlCmd::C64Screen => Watch::C64,
        ControlCmd::ExpectC64(_, _) => Watch::C64,
        _ => Watch::Screen,
    }
}

/// Check until the expectation is met or its time is up. A check that fails at or
/// after the deadline is the last one.
fn judge(cmd: &ControlCmd, deadline: u64, now: u64, met: bool) -> (r: (Stage, Action))
    ensures
        (r.0@, r.1@) == looked(*cmd, deadline, now, met),
{
    if met {
        (Stage::Ended, Action::End(Ok(Flow::Continue)))
    } else if now >= deadline {
        (Stage::Showing(true), Action::Show(screen_of(cmd)))
    } else {
        (Stage::Polling(deadline), Action::Poll)
    }
}

fn print_text(cmd: &ControlCmd, stage: &Stage, t: &String) -> (r: (Stage, Action))
    requires
        stage@ matches Standing::Showing(failing) && failing ==> expectation(*cmd) is Some,
    ensures
        (r.0@, r.1@) == step(*cmd, stage@, Answer::Text(t@)),
{
    match stage {
        Stage::Showing(failing) => {
            let error = if *failing {
                match expected(cmd) {
                    Some((_, text, _, _)) => Some(
                        complain(cmd, debug_str(text.as_str()).as_str()),
                    ),
                    None => None,
                }
            } else {
                None
            };
            let name = match screen_of(cmd) {
                Watch::C64 => "c64",
                _ => "screen",
            };
            (Stage::Printing(error), Action::Print(print_block(name, t.as_str())))
        },
        _ => {
            let text = match cmd {
                ControlCmd::Monitor(_) => joined_chars(&split_lines(&chars_of(t.as_str()))),
                _ => {
                    let mut line: Vec<String> = Vec::new();
                    line.push(t.clone());
                    assert(texts(line@) =~= seq![t@]);
                    print_lines(&line)
                },
            };
            (Stage::Printing(None), Action::Print(text))
        },
    }
}

/// One step of a command: what to ask next, from where it stands and what was
/// answered.
pub fn execute(cmd: &ControlCmd, stage: Stage, reply: Reply) -> (r: (Stage, Action))
    requires
        fits(*cmd),
        suits(*cmd, stage@, reply@),
    ensures
        (r.0@, r.1@) == step(*cmd, stage@, reply@),
{
    match reply {
        Reply::Failed(e) => (Stage::Ended, Action::End(Err(e))),
        Reply::Start => begin(cmd),
        Reply::Time(now) => {
            let ms: u64 = match expected(cmd) {
                Some((_, _, _, ms)) => ms,
                None => 0,
            };
            let deadline: u64 = match now.checked_add(ms) {
                Some(d) => d,
                None => u64::MAX,
            };
            ask_look(cmd, deadline)
        },
        Reply::Seen(now, text) => match (expected(cmd), &stage) {
            (Some((_, t, there, _)), Stage::Looking(deadline)) => {
                let found = contains(&chars_of(text.as_str()), &chars_of(t.as_str()));
                judge(cmd, *deadline, now, found == there)
            },
            _ => (Stage::Ended, Action::End(Ok(Flow::Continue))),
        },
        Reply::Matched(now, found) => match &stage {
            Stage::Looking(deadline) => judge(cmd, *deadline, now, found),
            _ => (Stage::Ended, Action::End(Ok(Flow::Continue))),
        },
        Reply::Text(t) => print_text(cmd, &stage, &t),
        Reply::Lines(lines) => (Stage::Printing(None), Action::Print(print_lines(&lines))),
        Reply::Usb(lines, error) => {
            (Stage::Printing(error), Action::Print(print_lines(&lines)))
        },
        Reply::Done => match stage {
            Stage::Polling(deadline) => ask_look(cmd, deadline),
            Stage::Printing(Some(e)) => (Stage::Ended, Action::End(Err(e))),
            Stage::Printing(None) => (Stage::Ended, Action::End(Ok(Flow::Continue))),
            _ => {
                let flow = match cmd {
                    ControlCmd::Quit => Flow::Quit,
                    _ => Flow::Continue,
                };
                (Stage::Ended, Action::End(Ok(flow)))
            },
        },
    }
}

} // verus!
