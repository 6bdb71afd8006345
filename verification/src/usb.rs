//! The keys of a USB keyboard by name.
use crate::text::{is, lowered};
use vstd::prelude::*;

verus! {

/// Ports of the USB hub.
pub const HUB_PORTS: u8 = 3;

/// A device that can be plugged into the hub.
#[derive(Debug, PartialEq, Eq)]
pub enum UsbDevice {
    Keyboard,
    Mouse,
    /// A stick with this disk image.
    Image(String),
}

/// The usage ID of a key with a name of its own.
pub open spec fn special_usage(name: Seq<char>) -> Option<u8> {
    if name == "return"@ {
        Some(0x28u8)
    } else if name == "esc"@ {
        Some(0x29u8)
    } else if name == "backspace"@ {
        Some(0x2Au8)
    } else if name == "tab"@ {
        Some(0x2Bu8)
    } else if name == "space"@ {
        Some(0x2Cu8)
    } else if name == "f1"@ {
        Some(0x3Au8)
    } else if name == "f2"@ {
        Some(0x3Bu8)
    } else if name == "f3"@ {
        Some(0x3Cu8)
    } else if name == "f4"@ {
        Some(0x3Du8)
    } else if name == "f5"@ {
        Some(0x3Eu8)
    } else if name == "f6"@ {
        Some(0x3Fu8)
    } else if name == "f7"@ {
        Some(0x40u8)
    } else if name == "f8"@ {
        Some(0x41u8)
    } else if name == "f9"@ {
        Some(0x42u8)
    } else if name == "f10"@ {
        Some(0x43u8)
    } else if name == "f11"@ {
        Some(0x44u8)
    } else if name == "f12"@ {
        Some(0x45u8)
    } else if name == "right"@ {
        Some(0x4Fu8)
    } else if name == "left"@ {
        Some(0x50u8)
    } else if name == "down"@ {
        Some(0x51u8)
    } else if name == "up"@ {
        Some(0x52u8)
    } else {
        None
    }
}

fn special(name: &Vec<char>) -> (u: Option<u8>)
    ensures
        u == special_usage(name@),
{
    if is(name, "return") {
        Some(0x28)
    } else if is(name, "esc") {
        Some(0x29)
    } else if is(name, "backspace") {
        Some(0x2A)
    } else if is(name, "tab") {
        Some(0x2B)
    } else if is(name, "space") {
        Some(0x2C)
    } else if is(name, "f1") {
        Some(0x3A)
    } else if is(name, "f2") {
        Some(0x3B)
    } else if is(name, "f3") {
        Some(0x3C)
    } else if is(name, "f4") {
        Some(0x3D)
    } else if is(name, "f5") {
        Some(0x3E)
    } else if is(name, "f6") {
        Some(0x3F)
    } else if is(name, "f7") {
        Some(0x40)
    } else if is(name, "f8") {
        Some(0x41)
    } else if is(name, "f9") {
        Some(0x42)
    } else if is(name, "f10") {
        Some(0x43)
    } else if is(name, "f11") {
        Some(0x44)
    } else if is(name, "f12") {
        Some(0x45)
    } else if is(name, "right") {
        Some(0x4F)
    } else if is(name, "left") {
        Some(0x50)
    } else if is(name, "down") {
        Some(0x51)
    } else if is(name, "up") {
        Some(0x52)
    } else {
        None
    }
}

/// The usage ID of the key that a letter or digit is on: letters from 4 on, then
/// 1 to 9 and 0.
pub open spec fn char_usage(c: char) -> Option<u8> {
    if 'a' <= c && c <= 'z' {
        Some((c as u32 - 'a' as u32 + 4) as u8)
    } else if '1' <= c && c <= '9' {
        Some((c as u32 - '1' as u32 + 0x1E) as u8)
    } else if c == '0' {
        Some(0x27u8)
    } else {
        None
    }
}

fn usage_of_char(c: char) -> (u: Option<u8>)
    ensures
        u == char_usage(c),
{
    if 'a' <= c && c <= 'z' {
        Some((c as u32 - 'a' as u32 + 4) as u8)
    } else if '1' <= c && c <= '9' {
        Some((c as u32 - '1' as u32 + 0x1E) as u8)
    } else if c == '0' {
        Some(0x27)
    } else {
        None
    }
}

/// The usage ID of the key called `name`, in whatever case.
pub open spec fn named_usage(name: Seq<char>) -> Option<u8> {
    let low = crate::text::lower(name);
    match special_usage(low) {
        Some(u) => Some(u),
        None => if low.len() == 1 {
            char_usage(low[0])
        } else {
            None
        },
    }
}

/// The usage ID of the key called `name`.
pub fn usage_by_name(name: &Vec<char>) -> (u: Option<u8>)
    ensures
        u == named_usage(name@),
{
    let low = lowered(name);
    match special(&low) {
        Some(u) => Some(u),
        None => if low.len() == 1 {
            usage_of_char(low[0])
        } else {
            None
        },
    }
}

} // verus!
