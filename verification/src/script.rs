//! Running a script, and answering a client line by line.
use crate::command::{ControlCmd, KEY_MS};
use crate::execute::{execute, Act, Action, Answer, Flow, Reply, Stage, Standing, Watch};
use crate::keymap::MatrixKey;
use crate::numbers::push_decimal;
use crate::parse::{name_line, parse_script};
use crate::timed::{RELEASE_MS, SHIFT_LEAD_MS};
use vstd::prelude::*;

verus! {

/// Whether taps of these keys end within the range of the clock.
fn taps_fit(keys: &Vec<MatrixKey>, ms: u64) -> (b: bool)
    requires
        ms <= 1000,
    ensures
        b == (crate::timed::taps_len(keys@, ms as nat) <= u64::MAX),
{
    let mut len: u64 = 0;
    let mut i: usize = 0;
    assert(keys@.take(0) =~= Seq::empty());
    while i < keys.len()
        invariant
            i <= keys@.len(),
            ms <= 1000,
            len == crate::timed::taps_len(keys@.take(i as int), ms as nat),
        decreases keys@.len() - i,
    {
        assert(keys@.take(i + 1).drop_last() =~= keys@.take(i as int));
        let one: u64 = if keys[i].shift {
            SHIFT_LEAD_MS + ms + RELEASE_MS
        } else {
            ms + RELEASE_MS
        };
        match len.checked_add(one) {
            Some(l) => {
                len = l;
            },
            None => {
                proof {
                    crate::timed::taps_grow(keys@, i + 1, ms as nat);
                }
                return false;
            },
        }
        i = i + 1;
    }
    assert(keys@.take(keys@.len() as int) =~= keys@);
    true
}

/// Whether a command's inputs end within the range of the clock. A hold of some
/// half a billion years does not.
pub fn runs(cmd: &ControlCmd) -> (b: bool)
    ensures
        b == crate::execute::fits(*cmd),
{
    match cmd {
        ControlCmd::Key(k, ms) => {
            let gap: u64 = if k.shift {
                SHIFT_LEAD_MS + RELEASE_MS
            } else {
                RELEASE_MS
            };
            ms.checked_add(gap).is_some()
        },
        ControlCmd::Chord(keys, ms) => {
            let n: u64 = keys.len() as u64;
            let steps: u64 = if n == 0 {
                0
            } else {
                n - 1
            };
            match steps.checked_mul(SHIFT_LEAD_MS) {
                Some(t) => match t.checked_add(RELEASE_MS) {
                    Some(t) => ms.checked_add(t).is_some(),
                    None => false,
                },
                None => false,
            }
        },
        ControlCmd::Type(keys) => {
            proof {
                crate::timed::taps_add_up(crate::timed::Timed::nothing(), keys@, KEY_MS as nat);
            }
            taps_fit(keys, KEY_MS)
        },
        ControlCmd::Joy(_, _, ms) => ms.checked_add(RELEASE_MS).is_some(),
        ControlCmd::UsbKey(_, ms) => ms.checked_add(RELEASE_MS).is_some(),
        _ => true,
    }
}

fn expects(cmd: &ControlCmd) -> (w: Option<Watch>)
    ensures
        w == (match crate::execute::expectation(*cmd) {
            Some((w, _, _, _)) => Some(w),
            None => None,
        }),
{
    match cmd {
        ControlCmd::Expect(_, _) => Some(Watch::Screen),
        ControlCmd::ExpectNot(_, _) => Some(Watch::Screen),
        ControlCmd::ExpectConsole(_, _) => Some(Watch::Console),
        ControlCmd::ExpectC64(_, _) => Some(Watch::C64),
        _ => None,
    }
}

/// Whether a reply suits what was asked.
pub fn answers(cmd: &ControlCmd, stage: &Stage, reply: &Reply) -> (b: bool)
    ensures
        b == crate::execute::suits(*cmd, stage@, reply@),
{
    let done = match reply {
        Reply::Done => true,
        _ => false,
    };
    let failed = match reply {
        Reply::Failed(_) => true,
        _ => false,
    };
    match stage {
        Stage::Start => match reply {
            Reply::Start => true,
            _ => false,
        },
        Stage::Ended => false,
        Stage::Acting => done || failed,
        Stage::Timing => match reply {
            Reply::Time(_) => expects(cmd).is_some(),
            _ => failed && expects(cmd).is_some(),
        },
        Stage::Looking(_) => match expects(cmd) {
            Some(Watch::Console) => match reply {
                Reply::Matched(_, _) => true,
                _ => failed,
            },
            Some(_) => match reply {
                Reply::Seen(_, _) => true,
                _ => failed,
            },
            None => false,
        },
        Stage::Polling(_) => (done || failed) && expects(cmd).is_some(),
        Stage::Showing(failing) => {
            let text = match reply {
                Reply::Text(_) => true,
                _ => failed,
            };
            text && (!*failing || expects(cmd).is_some())
        },
        Stage::Answering => failed || match (cmd, reply) {
            (ControlCmd::UsbSync { .. }, Reply::Usb(_, _)) => true,
            (ControlCmd::UsbReplug { .. }, Reply::Usb(_, _)) => true,
            (ControlCmd::UsbSync { .. }, _) => false,
            (ControlCmd::UsbReplug { .. }, _) => false,
            (ControlCmd::UsbPlug { .. }, Reply::Text(_)) => true,
            (ControlCmd::UsbPlug { .. }, _) => false,
            (ControlCmd::Monitor(_), Reply::Text(_)) => true,
            (ControlCmd::Monitor(_), _) => false,
            (_, Reply::Lines(_)) => true,
            _ => false,
        },
        Stage::Printing(_) => done || failed,
    }
}

/// A script on its way.
#[derive(Debug)]
pub struct Script {
    /// The commands with the numbers of their lines.
    pub cmds: Vec<(usize, ControlCmd)>,
    /// The command at work.
    pub at: usize,
    pub stage: Stage,
}

/// The step of a script: the command at work, where it stands, what to ask.
pub open spec fn script_step(
    cmds: Seq<(usize, ControlCmd)>,
    at: int,
    stage: Standing,
    answer: Answer,
) -> (int, Standing, Act) {
    if at >= cmds.len() {
        (at, Standing::Ended, Act::End(Ok(Flow::Continue)))
    } else {
        let (next, act) = crate::execute::step(cmds[at].1, stage, answer);
        match act {
            Act::End(Err(e)) => (
                at,
                Standing::Ended,
                Act::End(Err(crate::parse::at_line(cmds[at].0 as nat, e))),
            ),
            Act::End(Ok(Flow::Continue)) => if at + 1 < cmds.len() {
                let (first, act) = crate::execute::begun(cmds[at + 1].1);
                (at + 1, first, act)
            } else {
                (at, Standing::Ended, act)
            },
            _ => (at, next, act),
        }
    }
}

/// Every command's inputs end within the range of the clock.
pub open spec fn all_fit(cmds: Seq<(usize, ControlCmd)>) -> bool {
    forall|i: int| 0 <= i < cmds.len() ==> crate::execute::fits((#[trigger] cmds[i]).1)
}

impl Script {
    /// Parse a script completely, before anything runs.
    pub fn load(text: &str) -> (r: Result<Script, String>)
        ensures
            match r {
                Ok(s) => {
                    &&& crate::parse::script_of(crate::text::lines(text@)) == Ok::<
                        Seq<(nat, crate::command::Cmd)>,
                        Seq<char>,
                    >(crate::parse::numbered(s.cmds@))
                    &&& s.at == 0
                    &&& s.stage@ == Standing::Start
                },
                Err(e) => crate::parse::script_of(crate::text::lines(text@)) == Err::<
                    Seq<(nat, crate::command::Cmd)>,
                    Seq<char>,
                >(e@),
            },
    {
        match parse_script(text) {
            Ok(cmds) => Ok(Script { cmds, at: 0, stage: Stage::Start }),
            Err(e) => Err(e),
        }
    }

    /// Whether every command's inputs end within the range of the clock.
    pub fn runs(&self) -> (b: bool)
        ensures
            b == all_fit(self.cmds@),
    {
        let mut i: usize = 0;
        while i < self.cmds.len()
            invariant
                i <= self.cmds@.len(),
                forall|k: int| 0 <= k < i ==> crate::execute::fits((#[trigger] self.cmds@[k]).1),
            decreases self.cmds@.len() - i,
        {
            if !runs(&self.cmds[i].1) {
                return false;
            }
            i = i + 1;
        }
        true
    }

    /// One step: the next command begins when one has ended; a command that fails
    /// ends the script with its line's number, and so does one that quits.
    pub fn step(&mut self, reply: Reply) -> (a: Action)
        requires
            all_fit(old(self).cmds@),
            old(self).at < old(self).cmds@.len() ==> crate::execute::suits(
                old(self).cmds@[old(self).at as int].1,
                old(self).stage@,
                reply@,
            ),
        ensures
            final(self).cmds@ == old(self).cmds@,
            (final(self).at as int, final(self).stage@, a@) == script_step(
                old(self).cmds@,
                old(self).at as int,
                old(self).stage@,
                reply@,
            ),
    {
        let n: usize = self.cmds.len();
        if self.at >= n {
            self.stage = Stage::Ended;
            return Action::End(Ok(Flow::Continue));
        }
        let mut stage = Stage::Ended;
        std::mem::swap(&mut stage, &mut self.stage);
        let (next, action) = execute(&self.cmds[self.at].1, stage, reply);
        match action {
            Action::End(Err(e)) => {
                let m = name_line(self.cmds[self.at].0, e.as_str());
                self.stage = Stage::Ended;
                Action::End(Err(m))
            },
            Action::End(Ok(Flow::Continue)) => if n - self.at > 1 {
                self.at = self.at + 1;
                let (first, action) = execute(
                    &self.cmds[self.at].1,
                    Stage::Start,
                    Reply::Start,
                );
                self.stage = first;
                action
            } else {
                self.stage = Stage::Ended;
                Action::End(Ok(Flow::Continue))
            },
            other => {
                self.stage = next;
                other
            },
        }
    }
}

/// What a client is told after line `n` of its connection, in text.
pub open spec fn told(n: nat, r: Result<Flow, Seq<char>>) -> Seq<char> {
    match r {
        Ok(_) => "ok\n"@,
        Err(e) => "error line "@ + crate::numbers::decimal(n) + ": "@ + e + "\n"@,
    }
}

/// What a client is told after line `n` of its connection.
pub fn answer(n: u64, result: &Result<Flow, String>) -> (s: String)
    ensures
        s@ == told(n as nat, crate::command::said(*result)),
{
    match result {
        Ok(_) => String::from_str("ok\n"),
        Err(e) => {
            let mut s = String::from_str("error line ");
            push_decimal(&mut s, n);
            s.append(": ");
            s.append(e.as_str());
            s.append("\n");
            s
        },
    }
}

/// A failed command ends the script, with its line's number: nothing after it
/// runs.
pub proof fn a_failed_line_ends_the_script(
    cmds: Seq<(usize, ControlCmd)>,
    at: int,
    stage: Standing,
    error: Seq<char>,
)
    requires
        0 <= at < cmds.len(),
    ensures
        script_step(cmds, at, stage, Answer::Failed(error)) == (
            at,
            Standing::Ended,
            Act::End(Err(crate::parse::at_line(cmds[at].0 as nat, error))),
        ),
{
}

/// A command that quits ends the script: nothing after it runs.
pub proof fn quit_ends_the_script(cmds: Seq<(usize, ControlCmd)>, at: int)
    requires
        0 <= at < cmds.len(),
        cmds[at].1 is Quit,
    ensures
        crate::execute::begun(cmds[at].1) == (Standing::Acting, Act::Quit),
        script_step(cmds, at, Standing::Acting, Answer::Done) == (
            at,
            Standing::Ended,
            Act::End(Ok(Flow::Quit)),
        ),
{
}

/// An expectation keeps its deadline: it ends well at the first look that finds it
/// met; a look that does not, and whose time was at or past the deadline, is the
/// last one, and the screen is shown; any other look is followed by another.
pub proof fn an_expectation_keeps_its_deadline(
    cmd: ControlCmd,
    deadline: u64,
    now: u64,
    text: Seq<char>,
)
    requires
        crate::execute::expectation(cmd) is Some,
    ensures
        ({
            let (watch, wanted, there, _) = crate::execute::expectation(cmd)->Some_0;
            let met = crate::text::holds(text, wanted) == there;
            let looked = crate::execute::step(
                cmd,
                Standing::Looking(deadline),
                Answer::Seen(now, text),
            );
            &&& met ==> looked == (Standing::Ended, Act::End(Ok(Flow::Continue)))
            &&& !met && now >= deadline ==> looked == (
                Standing::Showing(true),
                Act::Show(crate::execute::shown(cmd)),
            )
            &&& !met && now < deadline ==> looked == (Standing::Polling(deadline), Act::Poll)
            &&& crate::execute::step(cmd, Standing::Polling(deadline), Answer::Done) == (
                Standing::Looking(deadline),
                Act::Look(watch, wanted),
            )
        }),
{
}

/// An expectation that failed prints the screen, then fails.
pub proof fn a_failed_expectation_prints_the_screen(cmd: ControlCmd, text: Seq<char>)
    requires
        crate::execute::expectation(cmd) is Some,
    ensures
        ({
            let (printing, act) = crate::execute::step(
                cmd,
                Standing::Showing(true),
                Answer::Text(text),
            );
            &&& act == Act::Print(
                crate::execute::block(crate::execute::marker(crate::execute::shown(cmd)), text),
            )
            &&& crate::execute::step(cmd, printing, Answer::Done).1 matches Act::End(Err(_))
        }),
{
}

/// Whatever is asked, a suitable answer leads to a stage that the next action's
/// suitable answers suit: a command never gets stuck.
pub proof fn stages_stay_suitable(cmd: ControlCmd, stage: Standing, answer: Answer)
    requires
        crate::execute::suits(cmd, stage, answer),
        stage is Showing ==> crate::execute::begun(cmd).0 is Showing
            || crate::execute::expectation(cmd) is Some,
        stage is Answering ==> crate::execute::begun(cmd).0 is Answering,
    ensures
        ({
            let (next, act) = crate::execute::step(cmd, stage, answer);
            &&& next is Ended <==> act is End
            &&& !(next is Ended) ==> crate::execute::suits(
                cmd,
                next,
                Answer::Failed(Seq::empty()),
            )
        }),
{
}

} // verus!
