//! The control protocol's commands, and how a line is read as one.
//!
//! One command per line. Lines whose first non-blank character is `#` are
//! comments; blank lines are ignored; trailing white space is never significant.
//! [`crate::parse`] says what every line means.
use crate::keymap::{key_for_char, key_named, MatrixKey};
use crate::numbers::{decimal_string, parse_unsigned};
use crate::text::{
    chars_of, debug_char, first_space, is, lowered, slice, split, string_of, trimmed_start,
};
use crate::usb::{UsbDevice, HUB_PORTS};
use vstd::prelude::*;

verus! {

/// Default hold of the menu button: at least one poll of the menu, well below the
/// second that swaps disks.
pub const BUTTON_MS: u64 = 100;

/// Default hold of a key: four scans, below the first repeat.
pub const KEY_MS: u64 = 80;

/// Default timeout of an expectation.
pub const EXPECT_MS: u64 = 5000;

/// One parsed control command.
#[allow(inconsistent_fields)]
#[derive(Debug, PartialEq, Eq)]
pub enum ControlCmd {
    Wait(u64),
    Button(u64),
    Key(MatrixKey, u64),
    /// Keys pressed in order, held together, released in reverse order.
    Chord(Vec<MatrixKey>, u64),
    /// Keys pressed with no timed release.
    Hold(Vec<MatrixKey>),
    /// Keys let go.
    Release(Vec<MatrixKey>),
    Type(Vec<MatrixKey>),
    /// USB usage ID and hold time.
    UsbKey(u8, u64),
    /// Control port, active-low lines, hold time.
    Joy(u8, u8, u64),
    /// Control port and its lines until the next change.
    JoySet(u8, u8),
    /// Control port, key codes of up, down, left and right, key code of fire.
    WasdToJoy(u8, [u8; 4], u8),
    /// Movement and buttons (bit 0 left, 1 right, 2 middle).
    UsbMouse(i32, i32, u8),
    Screen,
    C64Screen,
    Png(String),
    /// Text that must appear on the screen within the timeout.
    Expect(String, u64),
    /// Text that must be gone from the screen within the timeout.
    ExpectNot(String, u64),
    /// Text that must appear in the console output, after the previous match.
    ExpectConsole(String, u64),
    /// Text that must appear on the C64's text screen.
    ExpectC64(String, u64),
    UsbSync { port: Option<u8>, force: bool },
    UsbReplug { port: Option<u8>, discard: bool },
    /// Plug a device into a hub port, or unplug it.
    UsbPlug { port: u8, device: Option<UsbDevice> },
    /// One line for the monitor.
    Monitor(String),
    CartInfo,
    CartSave(String),
    Quit,
}

/// A device, with its path as text.
pub enum Plugged {
    Keyboard,
    Mouse,
    Image(Seq<char>),
}

/// What a command says.
#[verifier::ext_equal]
pub enum Cmd {
    Wait(u64),
    Button(u64),
    Key(MatrixKey, u64),
    Chord(Seq<MatrixKey>, u64),
    Hold(Seq<MatrixKey>),
    Release(Seq<MatrixKey>),
    Type(Seq<MatrixKey>),
    UsbKey(u8, u64),
    Joy(u8, u8, u64),
    JoySet(u8, u8),
    WasdToJoy(u8, Seq<u8>, u8),
    UsbMouse(int, int, u8),
    Screen,
    C64Screen,
    Png(Seq<char>),
    Expect(Seq<char>, u64),
    ExpectNot(Seq<char>, u64),
    ExpectConsole(Seq<char>, u64),
    ExpectC64(Seq<char>, u64),
    UsbSync(Option<u8>, bool),
    UsbReplug(Option<u8>, bool),
    UsbPlug(u8, Option<Plugged>),
    Monitor(Seq<char>),
    CartInfo,
    CartSave(Seq<char>),
    Quit,
}

impl View for UsbDevice {
    type V = Plugged;

    open spec fn view(&self) -> Plugged {
        match self {
            UsbDevice::Keyboard => Plugged::Keyboard,
            UsbDevice::Mouse => Plugged::Mouse,
            UsbDevice::Image(p) => Plugged::Image(p@),
        }
    }
}

impl View for ControlCmd {
    type V = Cmd;

    open spec fn view(&self) -> Cmd {
        match self {
            ControlCmd::Wait(ms) => Cmd::Wait(*ms),
            ControlCmd::Button(ms) => Cmd::Button(*ms),
            ControlCmd::Key(k, ms) => Cmd::Key(*k, *ms),
            ControlCmd::Chord(k, ms) => Cmd::Chord(k@, *ms),
            ControlCmd::Hold(k) => Cmd::Hold(k@),
            ControlCmd::Release(k) => Cmd::Release(k@),
            ControlCmd::Type(k) => Cmd::Type(k@),
            ControlCmd::UsbKey(u, ms) => Cmd::UsbKey(*u, *ms),
            ControlCmd::Joy(p, l, ms) => Cmd::Joy(*p, *l, *ms),
            ControlCmd::JoySet(p, l) => Cmd::JoySet(*p, *l),
            ControlCmd::WasdToJoy(p, c, f) => Cmd::WasdToJoy(*p, c@, *f),
            ControlCmd::UsbMouse(x, y, b) => Cmd::UsbMouse(*x as int, *y as int, *b),
            ControlCmd::Screen => Cmd::Screen,
            ControlCmd::C64Screen => Cmd::C64Screen,
            ControlCmd::Png(p) => Cmd::Png(p@),
            ControlCmd::Expect(t, ms) => Cmd::Expect(t@, *ms),
            ControlCmd::ExpectNot(t, ms) => Cmd::ExpectNot(t@, *ms),
            ControlCmd::ExpectConsole(t, ms) => Cmd::ExpectConsole(t@, *ms),
            ControlCmd::ExpectC64(t, ms) => Cmd::ExpectC64(t@, *ms),
            ControlCmd::UsbSync { port, force } => Cmd::UsbSync(*port, *force),
            ControlCmd::UsbReplug { port, discard } => Cmd::UsbReplug(*port, *discard),
            ControlCmd::UsbPlug { port, device } => Cmd::UsbPlug(
                *port,
                match device {
                    Some(d) => Some(d@),
                    None => None,
                },
            ),
            ControlCmd::Monitor(t) => Cmd::Monitor(t@),
            ControlCmd::CartInfo => Cmd::CartInfo,
            ControlCmd::CartSave(p) => Cmd::CartSave(p@),
            ControlCmd::Quit => Cmd::Quit,
        }
    }
}

/// `s` between quotes, with `after` behind.
pub open spec fn quote(s: Seq<char>, after: Seq<char>) -> Seq<char> {
    "'"@ + s + after
}

pub(crate) fn quoted_message(s: &Vec<char>, after: &str) -> (m: String)
    ensures
        m@ == quote(s@, after@),
{
    let mut m = String::from_str("'");
    m.append(string_of(s).as_str());
    m.append(after);
    m
}

/// The complaint about a wrong number of arguments, if it is wrong.
pub open spec fn arity_error(word: Seq<char>, got: nat, min: nat, max: nat) -> Option<Seq<char>> {
    if min <= got <= max {
        None
    } else {
        let want = if min == max {
            crate::numbers::decimal(min)
        } else {
            crate::numbers::decimal(min) + "-"@ + crate::numbers::decimal(max)
        };
        Some(quote(word, "' takes "@) + want + " argument(s), got "@ + crate::numbers::decimal(got))
    }
}

pub(crate) fn arity(word: &Vec<char>, got: usize, min: usize, max: usize) -> (e: Option<String>)
    ensures
        arity_error(word@, got as nat, min as nat, max as nat) == (match e {
            Some(e) => Some(e@),
            None => None,
        }),
{
    if min <= got && got <= max {
        return None;
    }
    let mut m = quoted_message(word, "' takes ");
    let mut want = decimal_string(min as u64);
    if min != max {
        want.append("-");
        want.append(decimal_string(max as u64).as_str());
    }
    m.append(want.as_str());
    m.append(" argument(s), got ");
    m.append(decimal_string(got as u64).as_str());
    Some(m)
}

/// Argument `i` as milliseconds, or the default if there is none.
pub open spec fn ms_at(args: Seq<Seq<char>>, i: int, default: u64) -> Result<u64, Seq<char>> {
    if i < args.len() {
        match crate::numbers::unsigned(args[i], u64::MAX as nat) {
            Some(n) => Ok(n as u64),
            None => Err(quote(args[i], "' is not a number of milliseconds"@)),
        }
    } else {
        Ok(default)
    }
}

/// The view of a result whose error is a text.
pub open spec fn said<T>(r: Result<T, String>) -> Result<T, Seq<char>> {
    match r {
        Ok(v) => Ok(v),
        Err(e) => Err(e@),
    }
}

/// The view of a parsed command.
pub open spec fn said_cmd(r: Result<ControlCmd, String>) -> Result<Cmd, Seq<char>> {
    match r {
        Ok(c) => Ok(c@),
        Err(e) => Err(e@),
    }
}

pub(crate) fn ms(args: &Vec<Vec<char>>, i: usize, default: u64) -> (r: Result<u64, String>)
    ensures
        said(r) == ms_at(crate::text::deep(args@), i as int, default),
{
    if i < args.len() {
        assert(crate::text::deep(args@)[i as int] == args@[i as int]@);
        match parse_unsigned(&args[i], u64::MAX) {
            Some(n) => Ok(n),
            None => Err(quoted_message(&args[i], "' is not a number of milliseconds")),
        }
    } else {
        Ok(default)
    }
}

/// The keys with these names; the first unknown name is the error.
pub open spec fn keys_of(names: Seq<Seq<char>>) -> Result<Seq<MatrixKey>, Seq<char>>
    decreases names.len(),
{
    if names.len() == 0 {
        Ok(Seq::empty())
    } else {
        match keys_of(names.drop_last()) {
            Err(e) => Err(e),
            Ok(keys) => match crate::keymap::named_key(names.last()) {
                Some(k) => Ok(keys.push(k)),
                None => Err("unknown key '"@ + names.last() + "'"@),
            },
        }
    }
}

/// Keys named `a+b+c`, or one name, a lone plus included.
pub open spec fn keys_named(names: Seq<char>) -> Result<Seq<MatrixKey>, Seq<char>> {
    if names.len() > 1 && names.contains('+') {
        keys_of(crate::text::split_at(names, '+'))
    } else {
        keys_of(seq![names])
    }
}

/// Once a name is unknown, further names do not matter.
proof fn first_unknown_key_wins(names: Seq<Seq<char>>, i: int)
    requires
        0 <= i <= names.len(),
        keys_of(names.take(i)) is Err,
    ensures
        keys_of(names) == keys_of(names.take(i)),
    decreases names.len() - i,
{
    if i < names.len() {
        assert(names.take(i + 1).drop_last() =~= names.take(i));
        first_unknown_key_wins(names, i + 1);
    } else {
        assert(names.take(i) =~= names);
    }
}

/// The view of a list of keys.
pub open spec fn said_keys(r: Result<Vec<MatrixKey>, String>) -> Result<
    Seq<MatrixKey>,
    Seq<char>,
> {
    match r {
        Ok(v) => Ok(v@),
        Err(e) => Err(e@),
    }
}

pub(crate) fn unknown_key(name: &Vec<char>) -> (m: String)
    ensures
        m@ == "unknown key '"@ + name@ + "'"@,
{
    let mut m = String::from_str("unknown key '");
    m.append(string_of(name).as_str());
    m.append("'");
    m
}

fn find_keys(names: &Vec<Vec<char>>) -> (r: Result<Vec<MatrixKey>, String>)
    ensures
        said_keys(r) == keys_of(crate::text::deep(names@)),
        r matches Ok(v) ==> v@.len() == names@.len(),
{
    let ghost all = crate::text::deep(names@);
    let mut keys: Vec<MatrixKey> = Vec::new();
    let mut i: usize = 0;
    assert(all.take(0) =~= Seq::empty());
    while i < names.len()
        invariant
            i <= names@.len(),
            all == crate::text::deep(names@),
            keys@.len() == i,
            keys_of(all.take(i as int)) == Ok::<Seq<MatrixKey>, Seq<char>>(keys@),
        decreases names@.len() - i,
    {
        assert(all.take(i + 1).drop_last() =~= all.take(i as int));
        assert(all.take(i + 1).last() == names@[i as int]@);
        match key_named(&names[i]) {
            Some(k) => {
                keys.push(k);
            },
            None => {
                let m = unknown_key(&names[i]);
                proof {
                    first_unknown_key_wins(all, i + 1);
                }
                return Err(m);
            },
        }
        i = i + 1;
    }
    assert(all.take(all.len() as int) =~= all);
    Ok(keys)
}

fn has_plus(v: &Vec<char>) -> (b: bool)
    ensures
        b == v@.contains('+'),
{
    let mut i: usize = 0;
    while i < v.len()
        invariant
            i <= v@.len(),
            forall|j: int| 0 <= j < i ==> v@[j] != '+',
        decreases v@.len() - i,
    {
        if v[i] == '+' {
            assert(v@[i as int] == '+');
            return true;
        }
        i = i + 1;
    }
    false
}

pub(crate) fn named_keys(names: &Vec<char>) -> (r: Result<Vec<MatrixKey>, String>)
    ensures
        said_keys(r) == keys_named(names@),
        r matches Ok(v) ==> v@.len() > 0,
{
    if names.len() > 1 && has_plus(names) {
        find_keys(&split(names, '+'))
    } else {
        let mut one: Vec<Vec<char>> = Vec::new();
        let name = slice(names, 0, names.len());
        assert(name@ =~= names@);
        one.push(name);
        assert(crate::text::deep(one@) =~= seq![names@]);
        find_keys(&one)
    }
}

/// Keys named `a+b+c`, or one name, a lone plus included.
pub fn keys_by_names(names: &str) -> (r: Result<Vec<MatrixKey>, String>)
    ensures
        said_keys(r) == keys_named(names@),
{
    named_keys(&chars_of(names))
}

/// The joystick line of a direction, in whatever case.
pub open spec fn direction(name: Seq<char>) -> Option<u8> {
    let low = crate::text::lower(name);
    if low == "up"@ {
        Some(0u8)
    } else if low == "down"@ {
        Some(1u8)
    } else if low == "left"@ {
        Some(2u8)
    } else if low == "right"@ {
        Some(3u8)
    } else if low == "fire"@ {
        Some(4u8)
    } else {
        None
    }
}

/// The active-low lines of these directions; the first unknown name is the error.
pub open spec fn lines_of(names: Seq<Seq<char>>) -> Result<u8, Seq<char>>
    decreases names.len(),
{
    if names.len() == 0 {
        Ok(0xFF)
    } else {
        match lines_of(names.drop_last()) {
            Err(e) => Err(e),
            Ok(lines) => match direction(names.last()) {
                Some(bit) => Ok(lines & !(1u8 << bit)),
                None => Err(
                    "unknown joystick direction '"@ + names.last()
                        + "' (up, down, left, right, fire, none)"@,
                ),
            },
        }
    }
}

/// Directions named `up+fire` as active-low lines; `none` is all high.
pub open spec fn lines_named(names: Seq<char>) -> Result<u8, Seq<char>> {
    if names == "none"@ {
        Ok(0xFF)
    } else {
        lines_of(crate::text::split_at(names, '+'))
    }
}

proof fn first_unknown_direction_wins(names: Seq<Seq<char>>, i: int)
    requires
        0 <= i <= names.len(),
        lines_of(names.take(i)) is Err,
    ensures
        lines_of(names) == lines_of(names.take(i)),
    decreases names.len() - i,
{
    if i < names.len() {
        assert(names.take(i + 1).drop_last() =~= names.take(i));
        first_unknown_direction_wins(names, i + 1);
    } else {
        assert(names.take(i) =~= names);
    }
}

fn find_direction(name: &Vec<char>) -> (b: Option<u8>)
    ensures
        b == direction(name@),
        b matches Some(b) ==> b < 8,
{
    let low = lowered(name);
    if is(&low, "up") {
        Some(0)
    } else if is(&low, "down") {
        Some(1)
    } else if is(&low, "left") {
        Some(2)
    } else if is(&low, "right") {
        Some(3)
    } else if is(&low, "fire") {
        Some(4)
    } else {
        None
    }
}

pub(crate) fn joy_lines(names: &Vec<char>) -> (r: Result<u8, String>)
    ensures
        said(r) == lines_named(names@),
{
    if is(names, "none") {
        return Ok(0xFF);
    }
    let parts = split(names, '+');
    let ghost all = crate::text::deep(parts@);
    let mut lines: u8 = 0xFF;
    let mut i: usize = 0;
    assert(all.take(0) =~= Seq::empty());
    while i < parts.len()
        invariant
            i <= parts@.len(),
            all == crate::text::deep(parts@),
            all == crate::text::split_at(names@, '+'),
            names@ != "none"@,
            lines_of(all.take(i as int)) == Ok::<u8, Seq<char>>(lines),
        decreases parts@.len() - i,
    {
        assert(all.take(i + 1).drop_last() =~= all.take(i as int));
        assert(all.take(i + 1).last() == parts@[i as int]@);
        match find_direction(&parts[i]) {
            Some(bit) => {
                lines = lines & !(1u8 << bit);
            },
            None => {
                let mut m = String::from_str("unknown joystick direction '");
                m.append(string_of(&parts[i]).as_str());
                m.append("' (up, down, left, right, fire, none)");
                proof {
                    first_unknown_direction_wins(all, i + 1);
                }
                return Err(m);
            },
        }
        i = i + 1;
    }
    assert(all.take(all.len() as int) =~= all);
    Ok(lines)
}

/// Directions named `up+fire` as active-low lines (bit 0 up, 1 down, 2 left, 3
/// right, 4 fire); `none` is all high.
pub fn joy_lines_by_names(names: &str) -> (r: Result<u8, String>)
    ensures
        said(r) == lines_named(names@),
{
    joy_lines(&chars_of(names))
}

/// A control port number, 1 or 2.
pub open spec fn control_port(arg: Seq<char>) -> Result<u8, Seq<char>> {
    match crate::numbers::unsigned(arg, 255) {
        Some(n) if 1 <= n <= 2 => Ok(n as u8),
        _ => Err(quote(arg, "' is not a control port (1 or 2)"@)),
    }
}

pub(crate) fn joy_port(arg: &Vec<char>) -> (r: Result<u8, String>)
    ensures
        said(r) == control_port(arg@),
{
    match parse_unsigned(arg, 255) {
        Some(n) if 1 <= n && n <= 2 => Ok(n as u8),
        _ => Err(quoted_message(arg, "' is not a control port (1 or 2)")),
    }
}

/// A hub port number.
pub open spec fn hub_port(arg: Seq<char>) -> Result<u8, Seq<char>> {
    match crate::numbers::unsigned(arg, 255) {
        Some(n) if 1 <= n <= HUB_PORTS => Ok(n as u8),
        _ => Err(quote(arg, "' is not a USB hub port (1-3)"@)),
    }
}

pub(crate) fn find_hub_port(arg: &Vec<char>) -> (r: Result<u8, String>)
    ensures
        said(r) == hub_port(arg@),
{
    match parse_unsigned(arg, 255) {
        Some(n) if 1 <= n && n <= HUB_PORTS as u64 => Ok(n as u8),
        _ => Err(quoted_message(arg, "' is not a USB hub port (1-3)")),
    }
}

/// The key code of a key, or "no key" for `none`, in whatever case.
pub open spec fn key_code(arg: Seq<char>) -> Result<u8, Seq<char>> {
    if crate::text::lower(arg) == "none"@ {
        Ok(0xFF)
    } else {
        match crate::keymap::named_key(arg) {
            Some(k) => Ok((k.row * 8 + k.col) as u8),
            None => Err("unknown key '"@ + arg + "'"@),
        }
    }
}

pub(crate) fn find_key_code(arg: &Vec<char>) -> (r: Result<u8, String>)
    ensures
        said(r) == key_code(arg@),
{
    if is(&lowered(arg), "none") {
        return Ok(0xFF);
    }
    match key_named(arg) {
        Some(k) => Ok(k.row * 8 + k.col),
        None => Err(unknown_key(arg)),
    }
}

/// The keys that type `s`; the first character without a key is the error.
pub open spec fn typed(s: Seq<char>) -> Result<Seq<MatrixKey>, Seq<char>>
    decreases s.len(),
{
    if s.len() == 0 {
        Ok(Seq::empty())
    } else {
        match typed(s.drop_last()) {
            Err(e) => Err(e),
            Ok(keys) => match crate::keymap::char_key(s.last()) {
                Some(k) => Ok(keys.push(k)),
                None => Err("cannot type "@ + crate::text::debug_char_text(s.last())),
            },
        }
    }
}

proof fn first_untypable_wins(s: Seq<char>, i: int)
    requires
        0 <= i <= s.len(),
        typed(s.take(i)) is Err,
    ensures
        typed(s) == typed(s.take(i)),
    decreases s.len() - i,
{
    if i < s.len() {
        assert(s.take(i + 1).drop_last() =~= s.take(i));
        first_untypable_wins(s, i + 1);
    } else {
        assert(s.take(i) =~= s);
    }
}

pub(crate) fn type_keys(v: &Vec<char>) -> (r: Result<Vec<MatrixKey>, String>)
    ensures
        said_keys(r) == typed(v@),
{
    let mut keys: Vec<MatrixKey> = Vec::new();
    let mut i: usize = 0;
    assert(v@.take(0) =~= Seq::empty());
    while i < v.len()
        invariant
            i <= v@.len(),
            typed(v@.take(i as int)) == Ok::<Seq<MatrixKey>, Seq<char>>(keys@),
        decreases v@.len() - i,
    {
        assert(v@.take(i + 1).drop_last() =~= v@.take(i as int));
        match key_for_char(v[i]) {
            Some(k) => {
                keys.push(k);
            },
            None => {
                let mut m = String::from_str("cannot type ");
                m.append(debug_char(v[i]).as_str());
                proof {
                    first_untypable_wins(v@, i + 1);
                }
                return Err(m);
            },
        }
        i = i + 1;
    }
    assert(v@.take(v@.len() as int) =~= v@);
    Ok(keys)
}

/// What follows an opening quote: the text up to the closing quote, with `\"` and
/// `\\` for a quote and a backslash, and what stands behind it. `text` is what was
/// read so far.
pub open spec fn unquoted(s: Seq<char>, text: Seq<char>) -> Result<
    (Seq<char>, Seq<char>),
    Seq<char>,
>
    decreases s.len(),
{
    if s.len() == 0 {
        Err("unterminated quoted text"@)
    } else if s[0] == '"' {
        Ok((text, s.skip(1)))
    } else if s[0] == '\\' {
        if s.len() > 1 && (s[1] == '"' || s[1] == '\\') {
            unquoted(s.skip(2), text.push(s[1]))
        } else {
            Err("only \\\" and \\\\ escapes are allowed in quoted text"@)
        }
    } else {
        unquoted(s.skip(1), text.push(s[0]))
    }
}

/// A text argument, one word or a quoted string, and what follows it.
pub open spec fn text_argument(rest: Seq<char>) -> Result<(Seq<char>, Seq<char>), Seq<char>> {
    let r = crate::text::trim_start(rest);
    if r.len() > 0 && r[0] == '"' {
        unquoted(r.skip(1), Seq::empty())
    } else {
        let n = crate::text::word_len(r) as int;
        Ok((r.take(n), r.skip(n)))
    }
}

/// `text` with a backslash before every quote and every backslash.
pub open spec fn escaped(text: Seq<char>) -> Seq<char>
    decreases text.len(),
{
    if text.len() == 0 {
        Seq::empty()
    } else if text[0] == '"' || text[0] == '\\' {
        seq!['\\', text[0]] + escaped(text.skip(1))
    } else {
        seq![text[0]] + escaped(text.skip(1))
    }
}

/// `text` in quotes.
pub open spec fn quoted(text: Seq<char>) -> Seq<char> {
    seq!['"'] + escaped(text) + seq!['"']
}

proof fn escapes_are_read_back(text: Seq<char>, rest: Seq<char>, read: Seq<char>)
    ensures
        unquoted(escaped(text) + seq!['"'] + rest, read) == Ok::<
            (Seq<char>, Seq<char>),
            Seq<char>,
        >((read + text, rest)),
    decreases text.len(),
{
    let s = escaped(text) + seq!['"'] + rest;
    if text.len() == 0 {
        assert(s[0] == '"');
        assert(s.skip(1) =~= rest);
        assert(read + text =~= read);
    } else {
        let tail = escaped(text.skip(1)) + seq!['"'] + rest;
        escapes_are_read_back(text.skip(1), rest, read.push(text[0]));
        assert(read.push(text[0]) + text.skip(1) =~= read + text);
        if text[0] == '"' || text[0] == '\\' {
            assert(s[0] == '\\' && s[1] == text[0]);
            assert(s.skip(2) =~= tail);
        } else {
            assert(s[0] == text[0]);
            assert(s.skip(1) =~= tail);
        }
    }
}

/// Unquoting undoes quoting: any text, in quotes and behind any white space, is read
/// back as it is, with what follows the closing quote left over.
pub proof fn quoted_text_is_read_back(before: Seq<char>, text: Seq<char>, rest: Seq<char>)
    requires
        crate::text::is_blank(before),
    ensures
        text_argument(before + quoted(text) + rest) == Ok::<(Seq<char>, Seq<char>), Seq<char>>(
            (text, rest),
        ),
{
    let s = quoted(text) + rest;
    assert(before + quoted(text) + rest =~= before + s);
    crate::text::outer_blanks_are_trimmed(before, s, Seq::empty());
    assert(s[0] == '"');
    assert(crate::text::trim_start(s) == s);
    assert(s.skip(1) =~= escaped(text) + seq!['"'] + rest);
    escapes_are_read_back(text, rest, Seq::empty());
    assert(Seq::<char>::empty() + text =~= text);
}

/// The view of a text argument.
pub open spec fn said_pair(r: Result<(Vec<char>, Vec<char>), String>) -> Result<
    (Seq<char>, Seq<char>),
    Seq<char>,
> {
    match r {
        Ok((a, b)) => Ok((a@, b@)),
        Err(e) => Err(e@),
    }
}

pub(crate) fn split_text(rest: &Vec<char>) -> (res: Result<(Vec<char>, Vec<char>), String>)
    ensures
        said_pair(res) == text_argument(rest@),
{
    let r = trimmed_start(rest);
    if r.len() == 0 || r[0] != '"' {
        let n: usize = first_space(&r);
        let text = slice(&r, 0, n);
        let after = slice(&r, n, r.len());
        assert(text@ =~= r@.take(n as int));
        assert(after@ =~= r@.skip(n as int));
        return Ok((text, after));
    }
    let mut text: Vec<char> = Vec::new();
    let mut i: usize = 1;
    let ghost whole = unquoted(r@.skip(1), Seq::empty());
    while i < r.len()
        invariant
            1 <= i <= r@.len(),
            whole == unquoted(r@.skip(i as int), text@),
            whole == text_argument(rest@),
        decreases r@.len() - i,
    {
        let c = r[i];
        assert(r@.skip(i as int)[0] == c);
        if c == '"' {
            let after = slice(&r, i + 1, r.len());
            assert(after@ =~= r@.skip(i as int).skip(1));
            return Ok((text, after));
        } else if c == '\\' {
            if i + 1 < r.len() && (r[i + 1] == '"' || r[i + 1] == '\\') {
                assert(r@.skip(i as int)[1] == r@[i + 1]);
                assert(r@.skip(i as int).skip(2) =~= r@.skip(i + 2));
                text.push(r[i + 1]);
                i = i + 2;
            } else {
                proof {
                    if r@.skip(i as int).len() > 1 {
                        assert(r@.skip(i as int)[1] == r@[i + 1]);
                    }
                }
                return Err(
                    String::from_str("only \\\" and \\\\ escapes are allowed in quoted text"),
                );
            }
        } else {
            assert(r@.skip(i as int).skip(1) =~= r@.skip(i + 1));
            text.push(c);
            i = i + 1;
        }
    }
    Err(String::from_str("unterminated quoted text"))
}

/// `[flag] [port]` in any order: the port and whether the flag was there.
pub open spec fn flag_and_port(args: Seq<Seq<char>>, word: Seq<char>, flag: Seq<char>) -> Result<
    (Option<u8>, bool),
    Seq<char>,
>
    decreases args.len(),
{
    if args.len() == 0 {
        Ok((None, false))
    } else {
        match flag_and_port(args.drop_last(), word, flag) {
            Err(e) => Err(e),
            Ok((port, flagged)) => {
                let arg = args.last();
                if arg == flag && !flagged {
                    Ok((port, true))
                } else if port is None && !(arg.len() > 0 && arg[0] == '-') {
                    match hub_port(arg) {
                        Ok(p) => Ok((Some(p), flagged)),
                        Err(e) => Err(e),
                    }
                } else {
                    Err(quote(word, "' takes ["@) + flag + "] [port]"@)
                }
            },
        }
    }
}

proof fn first_bad_flag_wins(args: Seq<Seq<char>>, word: Seq<char>, flag: Seq<char>, i: int)
    requires
        0 <= i <= args.len(),
        flag_and_port(args.take(i), word, flag) is Err,
    ensures
        flag_and_port(args, word, flag) == flag_and_port(args.take(i), word, flag),
    decreases args.len() - i,
{
    if i < args.len() {
        assert(args.take(i + 1).drop_last() =~= args.take(i));
        first_bad_flag_wins(args, word, flag, i + 1);
    } else {
        assert(args.take(i) =~= args);
    }
}

pub(crate) fn parse_flag_and_port(args: &Vec<Vec<char>>, word: &Vec<char>, flag: &str) -> (r: Result<
    (Option<u8>, bool),
    String,
>)
    ensures
        said(r) == flag_and_port(crate::text::deep(args@), word@, flag@),
{
    let ghost all = crate::text::deep(args@);
    let mut port: Option<u8> = None;
    let mut flagged = false;
    let mut i: usize = 0;
    assert(all.take(0) =~= Seq::empty());
    while i < args.len()
        invariant
            i <= args@.len(),
            all == crate::text::deep(args@),
            flag_and_port(all.take(i as int), word@, flag@) == Ok::<(Option<u8>, bool), Seq<char>>(
                (port, flagged),
            ),
        decreases args@.len() - i,
    {
        let arg = &args[i];
        assert(all.take(i + 1).drop_last() =~= all.take(i as int));
        assert(all.take(i + 1).last() == arg@);
        if is(arg, flag) && !flagged {
            flagged = true;
        } else if port.is_none() && !(arg.len() > 0 && arg[0] == '-') {
            match find_hub_port(arg) {
                Ok(p) => {
                    port = Some(p);
                },
                Err(e) => {
                    proof {
                        first_bad_flag_wins(all, word@, flag@, i + 1);
                    }
                    return Err(e);
                },
            }
        } else {
            let mut m = quoted_message(word, "' takes [");
            m.append(flag);
            m.append("] [port]");
            proof {
                first_bad_flag_wins(all, word@, flag@, i + 1);
            }
            return Err(m);
        }
        i = i + 1;
    }
    assert(all.take(all.len() as int) =~= all);
    Ok((port, flagged))
}

} // verus!
