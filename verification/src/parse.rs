//! Reading a line of the control protocol, or a whole script.
//!
//! [`parsed`] says what every line means.
use crate::command::{
    arity, find_hub_port, find_key_code, joy_lines, joy_port, ms, named_keys, parse_flag_and_port,
    quoted_message, split_text, type_keys, Cmd, ControlCmd, Plugged, BUTTON_MS, EXPECT_MS, KEY_MS,
};
use crate::numbers::{decimal_string, parse_i32, parse_unsigned};
use crate::text::{
    chars_of, first_space, is, slice, split_lines, split_words, string_of, trimmed,
};
use crate::usb::{usage_by_name, UsbDevice};
use vstd::prelude::*;

verus! {

/// `wait`, `button`: a time alone.
pub open spec fn timed_meaning(word: Seq<char>, args: Seq<Seq<char>>) -> Result<Cmd, Seq<char>> {
    let (min, default) = if word == "wait"@ {
        (1nat, 0u64)
    } else {
        (0nat, BUTTON_MS)
    };
    match crate::command::arity_error(word, args.len(), min, 1) {
        Some(e) => Err(e),
        None => match crate::command::ms_at(args, 0, default) {
            Err(e) => Err(e),
            Ok(ms) => if word == "wait"@ {
                Ok(Cmd::Wait(ms))
            } else {
                Ok(Cmd::Button(ms))
            },
        },
    }
}

fn parse_timed(word: &Vec<char>, args: &Vec<Vec<char>>) -> (r: Result<ControlCmd, String>)
    ensures
        crate::command::said_cmd(r) == timed_meaning(word@, crate::text::deep(args@)),
{
    let wait = is(word, "wait");
    let min: usize = if wait {
        1
    } else {
        0
    };
    if let Some(e) = arity(word, args.len(), min, 1) {
        return Err(e);
    }
    let default: u64 = if wait {
        0
    } else {
        BUTTON_MS
    };
    match ms(args, 0, default) {
        Err(e) => Err(e),
        Ok(t) => if wait {
            Ok(ControlCmd::Wait(t))
        } else {
            Ok(ControlCmd::Button(t))
        },
    }
}

/// `key`: keys, and a time.
pub open spec fn key_meaning(word: Seq<char>, args: Seq<Seq<char>>) -> Result<Cmd, Seq<char>> {
    match crate::command::arity_error(word, args.len(), 1, 2) {
        Some(e) => Err(e),
        None => match crate::command::keys_named(args[0]) {
            Err(e) => Err(e),
            Ok(keys) => match crate::command::ms_at(args, 1, KEY_MS) {
                Err(e) => Err(e),
                Ok(ms) => if keys.len() == 1 {
                    Ok(Cmd::Key(keys[0], ms))
                } else {
                    Ok(Cmd::Chord(keys, ms))
                },
            },
        },
    }
}

fn parse_key(word: &Vec<char>, args: &Vec<Vec<char>>) -> (r: Result<ControlCmd, String>)
    ensures
        crate::command::said_cmd(r) == key_meaning(word@, crate::text::deep(args@)),
{
    if let Some(e) = arity(word, args.len(), 1, 2) {
        return Err(e);
    }
    assert(crate::text::deep(args@)[0] == args@[0]@);
    match named_keys(&args[0]) {
        Err(e) => Err(e),
        Ok(keys) => match ms(args, 1, KEY_MS) {
            Err(e) => Err(e),
            Ok(t) => if keys.len() == 1 {
                Ok(ControlCmd::Key(keys[0], t))
            } else {
                Ok(ControlCmd::Chord(keys, t))
            },
        },
    }
}

/// `hold`, `release`: keys.
pub open spec fn hold_meaning(word: Seq<char>, args: Seq<Seq<char>>) -> Result<Cmd, Seq<char>> {
    match crate::command::arity_error(word, args.len(), 1, 1) {
        Some(e) => Err(e),
        None => match crate::command::keys_named(args[0]) {
            Err(e) => Err(e),
            Ok(keys) => if word == "hold"@ {
                Ok(Cmd::Hold(keys))
            } else {
                Ok(Cmd::Release(keys))
            },
        },
    }
}

fn parse_hold(word: &Vec<char>, args: &Vec<Vec<char>>) -> (r: Result<ControlCmd, String>)
    ensures
        crate::command::said_cmd(r) == hold_meaning(word@, crate::text::deep(args@)),
{
    if let Some(e) = arity(word, args.len(), 1, 1) {
        return Err(e);
    }
    assert(crate::text::deep(args@)[0] == args@[0]@);
    match named_keys(&args[0]) {
        Err(e) => Err(e),
        Ok(keys) => if is(word, "hold") {
            Ok(ControlCmd::Hold(keys))
        } else {
            Ok(ControlCmd::Release(keys))
        },
    }
}

/// `type`: the text after the separating space, verbatim.
pub open spec fn type_meaning(rest: Seq<char>) -> Result<Cmd, Seq<char>> {
    if rest.len() == 0 {
        Err("'type' needs text"@)
    } else {
        match crate::command::typed(rest) {
            Err(e) => Err(e),
            Ok(keys) => Ok(Cmd::Type(keys)),
        }
    }
}

fn parse_type(rest: &Vec<char>) -> (r: Result<ControlCmd, String>)
    ensures
        crate::command::said_cmd(r) == type_meaning(rest@),
{
    if rest.len() == 0 {
        return Err(String::from_str("'type' needs text"));
    }
    match type_keys(rest) {
        Err(e) => Err(e),
        Ok(keys) => Ok(ControlCmd::Type(keys)),
    }
}

/// `usbkey`: a key of the USB keyboard, and a time.
pub open spec fn usbkey_meaning(word: Seq<char>, args: Seq<Seq<char>>) -> Result<Cmd, Seq<char>> {
    match crate::command::arity_error(word, args.len(), 1, 2) {
        Some(e) => Err(e),
        None => match crate::usb::named_usage(args[0]) {
            None => Err("unknown USB key '"@ + args[0] + "'"@),
            Some(u) => match crate::command::ms_at(args, 1, KEY_MS) {
                Err(e) => Err(e),
                Ok(ms) => Ok(Cmd::UsbKey(u, ms)),
            },
        },
    }
}

fn parse_usbkey(word: &Vec<char>, args: &Vec<Vec<char>>) -> (r: Result<ControlCmd, String>)
    ensures
        crate::command::said_cmd(r) == usbkey_meaning(word@, crate::text::deep(args@)),
{
    if let Some(e) = arity(word, args.len(), 1, 2) {
        return Err(e);
    }
    assert(crate::text::deep(args@)[0] == args@[0]@);
    match usage_by_name(&args[0]) {
        None => {
            let mut m = String::from_str("unknown USB key '");
            m.append(string_of(&args[0]).as_str());
            m.append("'");
            Err(m)
        },
        Some(u) => match ms(args, 1, KEY_MS) {
            Err(e) => Err(e),
            Ok(t) => Ok(ControlCmd::UsbKey(u, t)),
        },
    }
}

/// `joy`: a port, directions, and a time unless the directions are `none`.
pub open spec fn joy_meaning(word: Seq<char>, args: Seq<Seq<char>>) -> Result<Cmd, Seq<char>> {
    match crate::command::arity_error(word, args.len(), 2, 3) {
        Some(e) => Err(e),
        None => match crate::command::control_port(args[0]) {
            Err(e) => Err(e),
            Ok(port) => match crate::command::lines_named(args[1]) {
                Err(e) => Err(e),
                Ok(lines) => if lines == 0xFF {
                    if args.len() == 2 {
                        Ok(Cmd::JoySet(port, lines))
                    } else {
                        Err("'joy <port> none' takes no hold time"@)
                    }
                } else {
                    match crate::command::ms_at(args, 2, KEY_MS) {
                        Err(e) => Err(e),
                        Ok(ms) => Ok(Cmd::Joy(port, lines, ms)),
                    }
                },
            },
        },
    }
}

fn parse_joy(word: &Vec<char>, args: &Vec<Vec<char>>) -> (r: Result<ControlCmd, String>)
    ensures
        crate::command::said_cmd(r) == joy_meaning(word@, crate::text::deep(args@)),
{
    if let Some(e) = arity(word, args.len(), 2, 3) {
        return Err(e);
    }
    assert(crate::text::deep(args@)[0] == args@[0]@);
    assert(crate::text::deep(args@)[1] == args@[1]@);
    match joy_port(&args[0]) {
        Err(e) => Err(e),
        Ok(port) => match joy_lines(&args[1]) {
            Err(e) => Err(e),
            Ok(lines) => if lines == 0xFF {
                if args.len() == 2 {
                    Ok(ControlCmd::JoySet(port, lines))
                } else {
                    Err(String::from_str("'joy <port> none' takes no hold time"))
                }
            } else {
                match ms(args, 2, KEY_MS) {
                    Err(e) => Err(e),
                    Ok(t) => Ok(ControlCmd::Joy(port, lines, t)),
                }
            },
        },
    }
}

/// `joy-hold`: a port and directions. `joy-release`: a port.
pub open spec fn joyset_meaning(word: Seq<char>, args: Seq<Seq<char>>) -> Result<Cmd, Seq<char>> {
    let n = if word == "joy-hold"@ {
        2nat
    } else {
        1nat
    };
    match crate::command::arity_error(word, args.len(), n, n) {
        Some(e) => Err(e),
        None => match crate::command::control_port(args[0]) {
            Err(e) => Err(e),
            Ok(port) => if word == "joy-hold"@ {
                match crate::command::lines_named(args[1]) {
                    Err(e) => Err(e),
                    Ok(lines) => Ok(Cmd::JoySet(port, lines)),
                }
            } else {
                Ok(Cmd::JoySet(port, 0xFF))
            },
        },
    }
}

fn parse_joyset(word: &Vec<char>, args: &Vec<Vec<char>>) -> (r: Result<ControlCmd, String>)
    ensures
        crate::command::said_cmd(r) == joyset_meaning(word@, crate::text::deep(args@)),
{
    let hold = is(word, "joy-hold");
    let n: usize = if hold {
        2
    } else {
        1
    };
    if let Some(e) = arity(word, args.len(), n, n) {
        return Err(e);
    }
    assert(crate::text::deep(args@)[0] == args@[0]@);
    match joy_port(&args[0]) {
        Err(e) => Err(e),
        Ok(port) => if hold {
            assert(crate::text::deep(args@)[1] == args@[1]@);
            match joy_lines(&args[1]) {
                Err(e) => Err(e),
                Ok(lines) => Ok(ControlCmd::JoySet(port, lines)),
            }
        } else {
            Ok(ControlCmd::JoySet(port, 0xFF))
        },
    }
}

/// The key codes of arguments 1 to `n`; the first unknown key is the error.
pub open spec fn codes_of(args: Seq<Seq<char>>, n: nat) -> Result<Seq<u8>, Seq<char>>
    decreases n,
{
    if n == 0 {
        Ok(Seq::empty())
    } else {
        match codes_of(args, (n - 1) as nat) {
            Err(e) => Err(e),
            Ok(codes) => match crate::command::key_code(args[n as int]) {
                Err(e) => Err(e),
                Ok(c) => Ok(codes.push(c)),
            },
        }
    }
}

/// `wasd-joy`: a port, four keys, and a fire key or none.
pub open spec fn wasd_meaning(word: Seq<char>, args: Seq<Seq<char>>) -> Result<Cmd, Seq<char>> {
    match crate::command::arity_error(word, args.len(), 5, 6) {
        Some(e) => Err(e),
        None => match crate::command::control_port(args[0]) {
            Err(e) => Err(e),
            Ok(port) => match codes_of(args, 4) {
                Err(e) => Err(e),
                Ok(codes) => if args.len() == 5 {
                    Ok(Cmd::WasdToJoy(port, codes, 0xFF))
                } else {
                    match crate::command::key_code(args[5]) {
                        Err(e) => Err(e),
                        Ok(fire) => Ok(Cmd::WasdToJoy(port, codes, fire)),
                    }
                },
            },
        },
    }
}

fn parse_wasd(word: &Vec<char>, args: &Vec<Vec<char>>) -> (r: Result<ControlCmd, String>)
    ensures
        crate::command::said_cmd(r) == wasd_meaning(word@, crate::text::deep(args@)),
{
    let ghost all = crate::text::deep(args@);
    if let Some(e) = arity(word, args.len(), 5, 6) {
        return Err(e);
    }
    assert(all[0] == args@[0]@ && all[1] == args@[1]@ && all[2] == args@[2]@ && all[3]
        == args@[3]@ && all[4] == args@[4]@);
    proof {
        reveal_with_fuel(codes_of, 5);
    }
    let port: u8 = match joy_port(&args[0]) {
        Err(e) => {
            return Err(e);
        },
        Ok(p) => p,
    };
    let up: u8 = match find_key_code(&args[1]) {
        Err(e) => {
            return Err(e);
        },
        Ok(c) => c,
    };
    let down: u8 = match find_key_code(&args[2]) {
        Err(e) => {
            return Err(e);
        },
        Ok(c) => c,
    };
    let left: u8 = match find_key_code(&args[3]) {
        Err(e) => {
            return Err(e);
        },
        Ok(c) => c,
    };
    let right: u8 = match find_key_code(&args[4]) {
        Err(e) => {
            return Err(e);
        },
        Ok(c) => c,
    };
    let codes = [up, down, left, right];
    assert(codes@ =~= Seq::empty().push(up).push(down).push(left).push(right));
    if args.len() == 5 {
        return Ok(ControlCmd::WasdToJoy(port, codes, 0xFF));
    }
    assert(all[5] == args@[5]@);
    match find_key_code(&args[5]) {
        Err(e) => Err(e),
        Ok(fire) => Ok(ControlCmd::WasdToJoy(port, codes, fire)),
    }
}

/// A number, for the mouse.
pub open spec fn mouse_number(arg: Seq<char>) -> Result<int, Seq<char>> {
    match crate::numbers::signed(arg) {
        Some(n) => Ok(n),
        None => Err(crate::command::quote(arg, "' is not a number"@)),
    }
}

/// `usbmouse`: a movement, and buttons or none. The buttons are read first.
pub open spec fn mouse_meaning(word: Seq<char>, args: Seq<Seq<char>>) -> Result<Cmd, Seq<char>> {
    match crate::command::arity_error(word, args.len(), 2, 3) {
        Some(e) => Err(e),
        None => {
            let buttons: Result<u8, Seq<char>> = if args.len() == 3 {
                match crate::numbers::unsigned(args[2], 255) {
                    Some(b) => Ok(b as u8),
                    None => Err(crate::command::quote(args[2], "' is not a button mask"@)),
                }
            } else {
                Ok(0)
            };
            match buttons {
                Err(e) => Err(e),
                Ok(b) => match mouse_number(args[0]) {
                    Err(e) => Err(e),
                    Ok(x) => match mouse_number(args[1]) {
                        Err(e) => Err(e),
                        Ok(y) => Ok(Cmd::UsbMouse(x, y, b & 7)),
                    },
                },
            }
        },
    }
}

fn parse_mouse(word: &Vec<char>, args: &Vec<Vec<char>>) -> (r: Result<ControlCmd, String>)
    ensures
        crate::command::said_cmd(r) == mouse_meaning(word@, crate::text::deep(args@)),
{
    let ghost all = crate::text::deep(args@);
    if let Some(e) = arity(word, args.len(), 2, 3) {
        return Err(e);
    }
    assert(all[0] == args@[0]@ && all[1] == args@[1]@);
    let buttons: u8 = if args.len() == 3 {
        assert(all[2] == args@[2]@);
        match parse_unsigned(&args[2], 255) {
            Some(b) => b as u8,
            None => {
                return Err(quoted_message(&args[2], "' is not a button mask"));
            },
        }
    } else {
        0
    };
    let x: i32 = match parse_i32(&args[0]) {
        Some(x) => x,
        None => {
            return Err(quoted_message(&args[0], "' is not a number"));
        },
    };
    match parse_i32(&args[1]) {
        Some(y) => Ok(ControlCmd::UsbMouse(x, y, buttons & 7)),
        None => Err(quoted_message(&args[1], "' is not a number")),
    }
}

/// Commands that stand alone.
pub open spec fn plain_meaning(word: Seq<char>, args: Seq<Seq<char>>, cmd: Cmd) -> Result<
    Cmd,
    Seq<char>,
> {
    match crate::command::arity_error(word, args.len(), 0, 0) {
        Some(e) => Err(e),
        None => Ok(cmd),
    }
}

/// Commands with one argument that runs to the end of the line.
pub open spec fn path_meaning(word: Seq<char>, rest: Seq<char>) -> Result<Cmd, Seq<char>> {
    let path = crate::text::trim(rest);
    if word == "png"@ {
        if path.len() == 0 {
            Err("'png' needs a path"@)
        } else {
            Ok(Cmd::Png(path))
        }
    } else if word == "monitor"@ {
        if path.len() == 0 {
            Err("'monitor' needs a command"@)
        } else {
            Ok(Cmd::Monitor(path))
        }
    } else {
        if path.len() == 0 {
            Err("'cart-save' needs a path"@)
        } else {
            Ok(Cmd::CartSave(path))
        }
    }
}

fn parse_path(word: &Vec<char>, rest: &Vec<char>) -> (r: Result<ControlCmd, String>)
    ensures
        crate::command::said_cmd(r) == path_meaning(word@, rest@),
{
    let path = trimmed(rest);
    if is(word, "png") {
        if path.len() == 0 {
            Err(String::from_str("'png' needs a path"))
        } else {
            Ok(ControlCmd::Png(string_of(&path)))
        }
    } else if is(word, "monitor") {
        if path.len() == 0 {
            Err(String::from_str("'monitor' needs a command"))
        } else {
            Ok(ControlCmd::Monitor(string_of(&path)))
        }
    } else {
        if path.len() == 0 {
            Err(String::from_str("'cart-save' needs a path"))
        } else {
            Ok(ControlCmd::CartSave(string_of(&path)))
        }
    }
}

/// The timeout that follows the text of an expectation.
pub open spec fn timeout(word: Seq<char>, after: Seq<Seq<char>>) -> Result<u64, Seq<char>> {
    if after.len() == 0 {
        Ok(EXPECT_MS)
    } else if after.len() == 1 {
        match crate::numbers::unsigned(after[0], u64::MAX as nat) {
            Some(n) => Ok(n as u64),
            None => Err(
                crate::command::quote(
                    after[0],
                    "' is not a number of milliseconds (quote text that contains spaces)"@,
                ),
            ),
        }
    } else {
        Err(
            crate::command::quote(
                word,
                "' takes a text and an optional timeout; quote text with spaces"@,
            ),
        )
    }
}

/// `expect` and its kin: a text, and a timeout.
pub open spec fn expect_meaning(word: Seq<char>, rest: Seq<char>) -> Result<Cmd, Seq<char>> {
    match crate::command::text_argument(rest) {
        Err(e) => Err(e),
        Ok((text, after)) => if text.len() == 0 {
            Err(crate::command::quote(word, "' needs text"@))
        } else {
            match timeout(word, crate::text::words(after)) {
                Err(e) => Err(e),
                Ok(ms) => if word == "expect"@ {
                    Ok(Cmd::Expect(text, ms))
                } else if word == "expect-not"@ {
                    Ok(Cmd::ExpectNot(text, ms))
                } else if word == "expect-c64"@ {
                    Ok(Cmd::ExpectC64(text, ms))
                } else {
                    Ok(Cmd::ExpectConsole(text, ms))
                },
            }
        },
    }
}

fn parse_expect(word: &Vec<char>, rest: &Vec<char>) -> (r: Result<ControlCmd, String>)
    ensures
        crate::command::said_cmd(r) == expect_meaning(word@, rest@),
{
    let (text, after) = match split_text(rest) {
        Err(e) => {
            return Err(e);
        },
        Ok(p) => p,
    };
    if text.len() == 0 {
        return Err(quoted_message(word, "' needs text"));
    }
    let args = split_words(&after);
    let limit: u64 = if args.len() == 0 {
        EXPECT_MS
    } else if args.len() == 1 {
        assert(crate::text::deep(args@)[0] == args@[0]@);
        match parse_unsigned(&args[0], u64::MAX) {
            Some(n) => n,
            None => {
                return Err(
                    quoted_message(
                        &args[0],
                        "' is not a number of milliseconds (quote text that contains spaces)",
                    ),
                );
            },
        }
    } else {
        return Err(
            quoted_message(word, "' takes a text and an optional timeout; quote text with spaces"),
        );
    };
    let text = string_of(&text);
    if is(word, "expect") {
        Ok(ControlCmd::Expect(text, limit))
    } else if is(word, "expect-not") {
        Ok(ControlCmd::ExpectNot(text, limit))
    } else if is(word, "expect-c64") {
        Ok(ControlCmd::ExpectC64(text, limit))
    } else {
        Ok(ControlCmd::ExpectConsole(text, limit))
    }
}

/// `usb-sync`, `usb-replug`: a flag and a port, both optional.
pub open spec fn stick_meaning(word: Seq<char>, args: Seq<Seq<char>>) -> Result<Cmd, Seq<char>> {
    if word == "usb-sync"@ {
        match crate::command::flag_and_port(args, word, "--force"@) {
            Err(e) => Err(e),
            Ok((port, force)) => Ok(Cmd::UsbSync(port, force)),
        }
    } else {
        match crate::command::flag_and_port(args, word, "--discard"@) {
            Err(e) => Err(e),
            Ok((port, discard)) => Ok(Cmd::UsbReplug(port, discard)),
        }
    }
}

fn parse_stick(word: &Vec<char>, args: &Vec<Vec<char>>) -> (r: Result<ControlCmd, String>)
    ensures
        crate::command::said_cmd(r) == stick_meaning(word@, crate::text::deep(args@)),
{
    if is(word, "usb-sync") {
        match parse_flag_and_port(args, word, "--force") {
            Err(e) => Err(e),
            Ok((port, force)) => Ok(ControlCmd::UsbSync { port, force }),
        }
    } else {
        match parse_flag_and_port(args, word, "--discard") {
            Err(e) => Err(e),
            Ok((port, discard)) => Ok(ControlCmd::UsbReplug { port, discard }),
        }
    }
}

/// `usb-plug`: a port and a device. `usb-unplug`: a port.
pub open spec fn plug_meaning(word: Seq<char>, args: Seq<Seq<char>>) -> Result<Cmd, Seq<char>> {
    if args.len() == 0 {
        Err(crate::command::quote(word, "' needs a hub port"@))
    } else {
        match crate::command::hub_port(args[0]) {
            Err(e) => Err(e),
            Ok(port) => if word == "usb-unplug"@ {
                if args.len() == 1 {
                    Ok(Cmd::UsbPlug(port, None))
                } else {
                    Err("'usb-unplug' takes <port>"@)
                }
            } else if args.len() == 2 && args[1] == "keyboard"@ {
                Ok(Cmd::UsbPlug(port, Some(Plugged::Keyboard)))
            } else if args.len() == 2 && args[1] == "mouse"@ {
                Ok(Cmd::UsbPlug(port, Some(Plugged::Mouse)))
            } else if args.len() == 3 && args[1] == "image"@ {
                Ok(Cmd::UsbPlug(port, Some(Plugged::Image(args[2]))))
            } else {
                Err("'usb-plug' takes <port> image <path> | keyboard | mouse"@)
            },
        }
    }
}

fn parse_plug(word: &Vec<char>, args: &Vec<Vec<char>>) -> (r: Result<ControlCmd, String>)
    ensures
        crate::command::said_cmd(r) == plug_meaning(word@, crate::text::deep(args@)),
{
    let ghost all = crate::text::deep(args@);
    let n: usize = args.len();
    if n == 0 {
        return Err(quoted_message(word, "' needs a hub port"));
    }
    assert(all[0] == args@[0]@);
    let port: u8 = match find_hub_port(&args[0]) {
        Err(e) => {
            return Err(e);
        },
        Ok(p) => p,
    };
    if is(word, "usb-unplug") {
        return if n == 1 {
            Ok(ControlCmd::UsbPlug { port, device: None })
        } else {
            Err(String::from_str("'usb-unplug' takes <port>"))
        };
    }
    if n >= 2 {
        assert(all[1] == args@[1]@);
        if n == 2 && is(&args[1], "keyboard") {
            return Ok(ControlCmd::UsbPlug { port, device: Some(UsbDevice::Keyboard) });
        }
        if n == 2 && is(&args[1], "mouse") {
            return Ok(ControlCmd::UsbPlug { port, device: Some(UsbDevice::Mouse) });
        }
        if n == 3 && is(&args[1], "image") {
            assert(all[2] == args@[2]@);
            let path = string_of(&args[2]);
            return Ok(ControlCmd::UsbPlug { port, device: Some(UsbDevice::Image(path)) });
        }
    }
    Err(String::from_str("'usb-plug' takes <port> image <path> | keyboard | mouse"))
}

/// What the command `word` means with `rest` behind it.
#[verifier::opaque]
pub open spec fn meaning(word: Seq<char>, rest: Seq<char>) -> Result<Cmd, Seq<char>> {
    let args = crate::text::words(rest);
    if word == "wait"@ || word == "button"@ {
        timed_meaning(word, args)
    } else if word == "key"@ {
        key_meaning(word, args)
    } else if word == "hold"@ || word == "release"@ {
        hold_meaning(word, args)
    } else if word == "type"@ {
        type_meaning(rest)
    } else if word == "usbkey"@ {
        usbkey_meaning(word, args)
    } else if word == "joy"@ {
        joy_meaning(word, args)
    } else if word == "joy-hold"@ || word == "joy-release"@ {
        joyset_meaning(word, args)
    } else if word == "wasd-joy"@ {
        wasd_meaning(word, args)
    } else if word == "usbmouse"@ {
        mouse_meaning(word, args)
    } else if word == "screen"@ {
        plain_meaning(word, args, Cmd::Screen)
    } else if word == "c64screen"@ {
        plain_meaning(word, args, Cmd::C64Screen)
    } else if word == "png"@ || word == "monitor"@ || word == "cart-save"@ {
        path_meaning(word, rest)
    } else if word == "expect"@ || word == "expect-not"@ || word == "expect-console"@ || word
        == "expect-c64"@ {
        expect_meaning(word, rest)
    } else if word == "usb-sync"@ || word == "usb-replug"@ {
        stick_meaning(word, args)
    } else if word == "usb-plug"@ || word == "usb-unplug"@ {
        plug_meaning(word, args)
    } else if word == "cart-info"@ {
        plain_meaning(word, args, Cmd::CartInfo)
    } else if word == "quit"@ {
        plain_meaning(word, args, Cmd::Quit)
    } else {
        Err("unknown command '"@ + word + "'"@)
    }
}

fn parse_command(word: &Vec<char>, rest: &Vec<char>) -> (r: Result<ControlCmd, String>)
    ensures
        crate::command::said_cmd(r) == meaning(word@, rest@),
{
    proof {
        reveal(meaning);
    }
    let args = split_words(rest);
    if is(word, "wait") || is(word, "button") {
        return parse_timed(word, &args);
    }
    if is(word, "key") {
        return parse_key(word, &args);
    }
    if is(word, "hold") || is(word, "release") {
        return parse_hold(word, &args);
    }
    if is(word, "type") {
        return parse_type(rest);
    }
    if is(word, "usbkey") {
        return parse_usbkey(word, &args);
    }
    if is(word, "joy") {
        return parse_joy(word, &args);
    }
    if is(word, "joy-hold") || is(word, "joy-release") {
        return parse_joyset(word, &args);
    }
    if is(word, "wasd-joy") {
        return parse_wasd(word, &args);
    }
    if is(word, "usbmouse") {
        return parse_mouse(word, &args);
    }
    if is(word, "png") || is(word, "monitor") || is(word, "cart-save") {
        proof {
            plain_words_differ();
        }
        return parse_path(word, rest);
    }
    if is(word, "expect") || is(word, "expect-not") || is(word, "expect-console") || is(
        word,
        "expect-c64",
    ) {
        proof {
            plain_words_differ();
        }
        return parse_expect(word, rest);
    }
    if is(word, "usb-sync") || is(word, "usb-replug") {
        proof {
            plain_words_differ();
        }
        return parse_stick(word, &args);
    }
    if is(word, "usb-plug") || is(word, "usb-unplug") {
        proof {
            plain_words_differ();
        }
        return parse_plug(word, &args);
    }
    let cmd = if is(word, "screen") {
        ControlCmd::Screen
    } else if is(word, "c64screen") {
        ControlCmd::C64Screen
    } else if is(word, "cart-info") {
        ControlCmd::CartInfo
    } else if is(word, "quit") {
        ControlCmd::Quit
    } else {
        let mut m = String::from_str("unknown command '");
        m.append(string_of(word).as_str());
        m.append("'");
        return Err(m);
    };
    match arity(word, args.len(), 0, 0) {
        Some(e) => Err(e),
        None => Ok(cmd),
    }
}

/// Commands that stand alone are called otherwise than those with arguments.
proof fn plain_words_differ()
    ensures
        "screen"@.len() == 6,
        "c64screen"@.len() == 9 && "c64screen"@[0] == 'c',
        "png"@.len() == 3,
        "monitor"@.len() == 7,
        "cart-save"@.len() == 9 && "cart-save"@[1] == 'a' && "c64screen"@[1] == '6',
        "expect"@.len() == 6 && "expect"@[0] == 'e' && "screen"@[0] == 's',
        "expect-not"@.len() == 10,
        "expect-console"@.len() == 14,
        "expect-c64"@.len() == 10,
        "usb-sync"@.len() == 8,
        "usb-replug"@.len() == 10,
        "usb-plug"@.len() == 8,
        "usb-unplug"@.len() == 10,
{
    reveal_strlit("screen");
    reveal_strlit("c64screen");
    reveal_strlit("png");
    reveal_strlit("monitor");
    reveal_strlit("cart-save");
    reveal_strlit("expect");
    reveal_strlit("expect-not");
    reveal_strlit("expect-console");
    reveal_strlit("expect-c64");
    reveal_strlit("usb-sync");
    reveal_strlit("usb-replug");
    reveal_strlit("usb-plug");
    reveal_strlit("usb-unplug");
}

/// What a line means: nothing if it is blank or a comment, else a command or an
/// error.
pub open spec fn parsed(line: Seq<char>) -> Result<Option<Cmd>, Seq<char>> {
    let body = crate::text::trim(line);
    if body.len() == 0 || body[0] == '#' {
        Ok(None)
    } else {
        let n = crate::text::word_len(body) as int;
        let rest = if n < body.len() {
            body.skip(n + 1)
        } else {
            Seq::empty()
        };
        match meaning(body.take(n), rest) {
            Ok(c) => Ok(Some(c)),
            Err(e) => Err(e),
        }
    }
}

/// The view of a parsed line.
pub open spec fn said_line(r: Result<Option<ControlCmd>, String>) -> Result<
    Option<Cmd>,
    Seq<char>,
> {
    match r {
        Ok(Some(c)) => Ok(Some(c@)),
        Ok(None) => Ok(None),
        Err(e) => Err(e@),
    }
}

fn parse_chars(line: &Vec<char>) -> (r: Result<Option<ControlCmd>, String>)
    ensures
        said_line(r) == parsed(line@),
{
    let body = trimmed(line);
    if body.len() == 0 || body[0] == '#' {
        return Ok(None);
    }
    let n: usize = first_space(&body);
    let word = slice(&body, 0, n);
    let rest = if n < body.len() {
        slice(&body, n + 1, body.len())
    } else {
        Vec::new()
    };
    assert(word@ =~= body@.take(n as int));
    assert(rest@ =~= if n < body@.len() {
        body@.skip(n + 1)
    } else {
        Seq::empty()
    });
    match parse_command(&word, &rest) {
        Ok(c) => Ok(Some(c)),
        Err(e) => Err(e),
    }
}

/// Parse one line. `Ok(None)` for blank and comment lines.
pub fn parse_line(line: &str) -> (r: Result<Option<ControlCmd>, String>)
    ensures
        said_line(r) == parsed(line@),
{
    parse_chars(&chars_of(line))
}

/// A script's commands with the numbers of their lines, counted from 1, or what
/// is wrong with the first bad line.
pub open spec fn script_of(lines: Seq<Seq<char>>) -> Result<Seq<(nat, Cmd)>, Seq<char>>
    decreases lines.len(),
{
    if lines.len() == 0 {
        Ok(Seq::empty())
    } else {
        match script_of(lines.drop_last()) {
            Err(e) => Err(e),
            Ok(cmds) => match parsed(lines.last()) {
                Err(e) => Err(at_line(lines.len(), e)),
                Ok(None) => Ok(cmds),
                Ok(Some(c)) => Ok(cmds.push((lines.len(), c))),
            },
        }
    }
}

/// `message`, with the line it is about.
pub open spec fn at_line(line: nat, message: Seq<char>) -> Seq<char> {
    "line "@ + crate::numbers::decimal(line) + ": "@ + message
}

pub(crate) fn name_line(line: usize, message: &str) -> (m: String)
    ensures
        m@ == at_line(line as nat, message@),
{
    let mut m = String::from_str("line ");
    m.append(decimal_string(line as u64).as_str());
    m.append(": ");
    m.append(message);
    m
}

/// Numbered commands.
pub open spec fn numbered(cmds: Seq<(usize, ControlCmd)>) -> Seq<(nat, Cmd)> {
    Seq::new(cmds.len(), |i: int| (cmds[i].0 as nat, cmds[i].1@))
}

/// The view of a parsed script.
pub open spec fn said_script(r: Result<Vec<(usize, ControlCmd)>, String>) -> Result<
    Seq<(nat, Cmd)>,
    Seq<char>,
> {
    match r {
        Ok(v) => Ok(numbered(v@)),
        Err(e) => Err(e@),
    }
}

/// Once a line is bad, further lines do not matter.
proof fn first_bad_line_wins(lines: Seq<Seq<char>>, i: int)
    requires
        0 <= i <= lines.len(),
        script_of(lines.take(i)) is Err,
    ensures
        script_of(lines) == script_of(lines.take(i)),
    decreases lines.len() - i,
{
    if i < lines.len() {
        assert(lines.take(i + 1).drop_last() =~= lines.take(i));
        first_bad_line_wins(lines, i + 1);
    } else {
        assert(lines.take(i) =~= lines);
    }
}

/// Parse a whole script, keeping line numbers.
pub fn parse_script(text: &str) -> (r: Result<Vec<(usize, ControlCmd)>, String>)
    ensures
        said_script(r) == script_of(crate::text::lines(text@)),
{
    let lines = split_lines(&chars_of(text));
    let ghost all = crate::text::deep(lines@);
    let mut cmds: Vec<(usize, ControlCmd)> = Vec::new();
    let mut i: usize = 0;
    let n: usize = lines.len();
    assert(all.take(0) =~= Seq::empty());
    assert(numbered(cmds@) =~= Seq::empty());
    while i < n
        invariant
            i <= n == lines@.len(),
            all == crate::text::deep(lines@),
            all == crate::text::lines(text@),
            script_of(all.take(i as int)) == Ok::<Seq<(nat, Cmd)>, Seq<char>>(numbered(cmds@)),
        decreases n - i,
    {
        let ghost before = numbered(cmds@);
        assert(all.take(i + 1).drop_last() =~= all.take(i as int));
        assert(all.take(i + 1).last() == lines@[i as int]@);
        match parse_chars(&lines[i]) {
            Ok(Some(cmd)) => {
                cmds.push((i + 1, cmd));
                assert(numbered(cmds@) =~= before.push(((i + 1) as nat, cmd@)));
            },
            Ok(None) => {},
            Err(e) => {
                proof {
                    first_bad_line_wins(all, i + 1);
                }
                return Err(name_line(i + 1, e.as_str()));
            },
        }
        i = i + 1;
    }
    assert(all.take(n as int) =~= all);
    Ok(cmds)
}

/// A line is no command exactly if it is blank or its first non-blank character
/// is `#`.
pub proof fn blanks_and_comments(line: Seq<char>)
    ensures
        (parsed(line) matches Ok(None)) == (crate::text::trim(line).len() == 0
            || crate::text::trim(line)[0] == '#'),
{
}

/// White space at either end of a line, however much, is never significant.
pub proof fn outer_space_is_ignored(before: Seq<char>, line: Seq<char>, after: Seq<char>)
    requires
        crate::text::is_blank(before),
        crate::text::is_blank(after),
    ensures
        parsed(before + line + after) == parsed(line),
{
    crate::text::outer_blanks_are_trimmed(before, line, after);
}

/// A script with a bad line gives no command at all: it fails and names the first
/// such line.
pub proof fn a_bad_line_fails_the_script(lines: Seq<Seq<char>>, i: int)
    requires
        0 <= i < lines.len(),
        parsed(lines[i]) is Err,
        forall|j: int| 0 <= j < i ==> parsed(#[trigger] lines[j]) is Ok,
    ensures
        script_of(lines) == Err::<Seq<(nat, Cmd)>, Seq<char>>(
            at_line((i + 1) as nat, parsed(lines[i])->Err_0),
        ),
{
    good_lines_parse(lines.take(i));
    assert(lines.take(i + 1).drop_last() =~= lines.take(i));
    first_bad_line_wins(lines, i + 1);
}

/// A script without bad lines parses. Its commands stand in the order of their
/// lines, each with its own line's number.
pub proof fn good_lines_parse(lines: Seq<Seq<char>>)
    requires
        forall|j: int| 0 <= j < lines.len() ==> parsed(#[trigger] lines[j]) is Ok,
    ensures
        script_of(lines) matches Ok(cmds) && (forall|k: int|
            #![trigger cmds[k]]
            0 <= k < cmds.len() ==> 1 <= cmds[k].0 <= lines.len() && parsed(
                lines[cmds[k].0 - 1],
            ) == Ok::<Option<Cmd>, Seq<char>>(Some(cmds[k].1))) && (forall|k: int, l: int|
            0 <= k < l < cmds.len() ==> #[trigger] cmds[k].0 < #[trigger] cmds[l].0),
    decreases lines.len(),
{
    if lines.len() > 0 {
        let rest = lines.drop_last();
        assert forall|j: int| 0 <= j < rest.len() implies parsed(#[trigger] rest[j]) is Ok by {
            assert(rest[j] == lines[j]);
        }
        good_lines_parse(rest);
        let before = script_of(rest)->Ok_0;
        let cmds = script_of(lines)->Ok_0;
        assert(parsed(lines[lines.len() - 1]) is Ok);
        assert forall|k: int| #![trigger cmds[k]] 0 <= k < cmds.len() implies 1 <= cmds[k].0
            <= lines.len() && parsed(lines[cmds[k].0 - 1]) == Ok::<Option<Cmd>, Seq<char>>(
            Some(cmds[k].1),
        ) by {
            if k < before.len() {
                assert(cmds[k] == before[k]);
                assert(rest[before[k].0 - 1] == lines[before[k].0 - 1]);
            }
        }
        assert forall|k: int, l: int| 0 <= k < l < cmds.len() implies #[trigger] cmds[k].0
            < #[trigger] cmds[l].0 by {
            assert(cmds[k] == before[k]);
            if l < before.len() {
                assert(cmds[l] == before[l]);
            }
        }
    }
}

} // verus!
