//! The C64's keyboard matrix by name and by character.
use crate::text::{chars_of, is, lowered};
use vstd::prelude::*;

verus! {

/// A key of the C64's keyboard matrix, and whether SHIFT goes with it.
#[derive(Clone, Copy, Debug, PartialEq, Eq, Structural)]
pub struct MatrixKey {
    pub row: u8,
    pub col: u8,
    pub shift: bool,
}

/// The left SHIFT key's place.
pub const LSHIFT_ROW: u8 = 1;

pub const LSHIFT_COL: u8 = 7;

/// The key that types `c`. Capitals and the symbols on the digits need SHIFT.
pub open spec fn char_key(c: char) -> Option<MatrixKey> {
    match c {
        'a' => Some(MatrixKey { row: 1, col: 2, shift: false }),
        'b' => Some(MatrixKey { row: 3, col: 4, shift: false }),
        'c' => Some(MatrixKey { row: 2, col: 4, shift: false }),
        'd' => Some(MatrixKey { row: 2, col: 2, shift: false }),
        'e' => Some(MatrixKey { row: 1, col: 6, shift: false }),
        'f' => Some(MatrixKey { row: 2, col: 5, shift: false }),
        'g' => Some(MatrixKey { row: 3, col: 2, shift: false }),
        'h' => Some(MatrixKey { row: 3, col: 5, shift: false }),
        'i' => Some(MatrixKey { row: 4, col: 1, shift: false }),
        'j' => Some(MatrixKey { row: 4, col: 2, shift: false }),
        'k' => Some(MatrixKey { row: 4, col: 5, shift: false }),
        'l' => Some(MatrixKey { row: 5, col: 2, shift: false }),
        'm' => Some(MatrixKey { row: 4, col: 4, shift: false }),
        'n' => Some(MatrixKey { row: 4, col: 7, shift: false }),
        'o' => Some(MatrixKey { row: 4, col: 6, shift: false }),
        'p' => Some(MatrixKey { row: 5, col: 1, shift: false }),
        'q' => Some(MatrixKey { row: 7, col: 6, shift: false }),
        'r' => Some(MatrixKey { row: 2, col: 1, shift: false }),
        's' => Some(MatrixKey { row: 1, col: 5, shift: false }),
        't' => Some(MatrixKey { row: 2, col: 6, shift: false }),
        'u' => Some(MatrixKey { row: 3, col: 6, shift: false }),
        'v' => Some(MatrixKey { row: 3, col: 7, shift: false }),
        'w' => Some(MatrixKey { row: 1, col: 1, shift: false }),
        'x' => Some(MatrixKey { row: 2, col: 7, shift: false }),
        'y' => Some(MatrixKey { row: 3, col: 1, shift: false }),
        'z' => Some(MatrixKey { row: 1, col: 4, shift: false }),
        'A' => Some(MatrixKey { row: 1, col: 2, shift: true }),
        'B' => Some(MatrixKey { row: 3, col: 4, shift: true }),
        'C' => Some(MatrixKey { row: 2, col: 4, shift: true }),
        'D' => Some(MatrixKey { row: 2, col: 2, shift: true }),
        'E' => Some(MatrixKey { row: 1, col: 6, shift: true }),
        'F' => Some(MatrixKey { row: 2, col: 5, shift: true }),
        'G' => Some(MatrixKey { row: 3, col: 2, shift: true }),
        'H' => Some(MatrixKey { row: 3, col: 5, shift: true }),
        'I' => Some(MatrixKey { row: 4, col: 1, shift: true }),
        'J' => Some(MatrixKey { row: 4, col: 2, shift: true }),
        'K' => Some(MatrixKey { row: 4, col: 5, shift: true }),
        'L' => Some(MatrixKey { row: 5, col: 2, shift: true }),
        'M' => Some(MatrixKey { row: 4, col: 4, shift: true }),
        'N' => Some(MatrixKey { row: 4, col: 7, shift: true }),
        'O' => Some(MatrixKey { row: 4, col: 6, shift: true }),
        'P' => Some(MatrixKey { row: 5, col: 1, shift: true }),
        'Q' => Some(MatrixKey { row: 7, col: 6, shift: true }),
        'R' => Some(MatrixKey { row: 2, col: 1, shift: true }),
        'S' => Some(MatrixKey { row: 1, col: 5, shift: true }),
        'T' => Some(MatrixKey { row: 2, col: 6, shift: true }),
        'U' => Some(MatrixKey { row: 3, col: 6, shift: true }),
        'V' => Some(MatrixKey { row: 3, col: 7, shift: true }),
        'W' => Some(MatrixKey { row: 1, col: 1, shift: true }),
        'X' => Some(MatrixKey { row: 2, col: 7, shift: true }),
        'Y' => Some(MatrixKey { row: 3, col: 1, shift: true }),
        'Z' => Some(MatrixKey { row: 1, col: 4, shift: true }),
        '0' => Some(MatrixKey { row: 4, col: 3, shift: false }),
        '1' => Some(MatrixKey { row: 7, col: 0, shift: false }),
        '2' => Some(MatrixKey { row: 7, col: 3, shift: false }),
        '3' => Some(MatrixKey { row: 1, col: 0, shift: false }),
        '4' => Some(MatrixKey { row: 1, col: 3, shift: false }),
        '5' => Some(MatrixKey { row: 2, col: 0, shift: false }),
        '6' => Some(MatrixKey { row: 2, col: 3, shift: false }),
        '7' => Some(MatrixKey { row: 3, col: 0, shift: false }),
        '8' => Some(MatrixKey { row: 3, col: 3, shift: false }),
        '9' => Some(MatrixKey { row: 4, col: 0, shift: false }),
        ' ' => Some(MatrixKey { row: 7, col: 4, shift: false }),
        '+' => Some(MatrixKey { row: 5, col: 0, shift: false }),
        '-' => Some(MatrixKey { row: 5, col: 3, shift: false }),
        '*' => Some(MatrixKey { row: 6, col: 1, shift: false }),
        '/' => Some(MatrixKey { row: 6, col: 7, shift: false }),
        '=' => Some(MatrixKey { row: 6, col: 5, shift: false }),
        ':' => Some(MatrixKey { row: 5, col: 5, shift: false }),
        ';' => Some(MatrixKey { row: 6, col: 2, shift: false }),
        ',' => Some(MatrixKey { row: 5, col: 7, shift: false }),
        '.' => Some(MatrixKey { row: 5, col: 4, shift: false }),
        '@' => Some(MatrixKey { row: 5, col: 6, shift: false }),
        '^' => Some(MatrixKey { row: 6, col: 6, shift: false }),
        '!' => Some(MatrixKey { row: 7, col: 0, shift: true }),
        '"' => Some(MatrixKey { row: 7, col: 3, shift: true }),
        '#' => Some(MatrixKey { row: 1, col: 0, shift: true }),
        '$' => Some(MatrixKey { row: 1, col: 3, shift: true }),
        '%' => Some(MatrixKey { row: 2, col: 0, shift: true }),
        '&' => Some(MatrixKey { row: 2, col: 3, shift: true }),
        '\'' => Some(MatrixKey { row: 3, col: 0, shift: true }),
        '(' => Some(MatrixKey { row: 3, col: 3, shift: true }),
        ')' => Some(MatrixKey { row: 4, col: 0, shift: true }),
        '<' => Some(MatrixKey { row: 5, col: 7, shift: true }),
        '>' => Some(MatrixKey { row: 5, col: 4, shift: true }),
        '?' => Some(MatrixKey { row: 6, col: 7, shift: true }),
        '[' => Some(MatrixKey { row: 5, col: 5, shift: true }),
        ']' => Some(MatrixKey { row: 6, col: 2, shift: true }),
        _ => None,
    }
}

/// The key that types `c`.
pub fn key_for_char(c: char) -> (k: Option<MatrixKey>)
    ensures
        k == char_key(c),
        k matches Some(k) ==> k.row < 8 && k.col < 8,
{
    match c {
        'a' => Some(MatrixKey { row: 1, col: 2, shift: false }),
        'b' => Some(MatrixKey { row: 3, col: 4, shift: false }),
        'c' => Some(MatrixKey { row: 2, col: 4, shift: false }),
        'd' => Some(MatrixKey { row: 2, col: 2, shift: false }),
        'e' => Some(MatrixKey { row: 1, col: 6, shift: false }),
        'f' => Some(MatrixKey { row: 2, col: 5, shift: false }),
        'g' => Some(MatrixKey { row: 3, col: 2, shift: false }),
        'h' => Some(MatrixKey { row: 3, col: 5, shift: false }),
        'i' => Some(MatrixKey { row: 4, col: 1, shift: false }),
        'j' => Some(MatrixKey { row: 4, col: 2, shift: false }),
        'k' => Some(MatrixKey { row: 4, col: 5, shift: false }),
        'l' => Some(MatrixKey { row: 5, col: 2, shift: false }),
        'm' => Some(MatrixKey { row: 4, col: 4, shift: false }),
        'n' => Some(MatrixKey { row: 4, col: 7, shift: false }),
        'o' => Some(MatrixKey { row: 4, col: 6, shift: false }),
        'p' => Some(MatrixKey { row: 5, col: 1, shift: false }),
        'q' => Some(MatrixKey { row: 7, col: 6, shift: false }),
        'r' => Some(MatrixKey { row: 2, col: 1, shift: false }),
        's' => Some(MatrixKey { row: 1, col: 5, shift: false }),
        't' => Some(MatrixKey { row: 2, col: 6, shift: false }),
        'u' => Some(MatrixKey { row: 3, col: 6, shift: false }),
        'v' => Some(MatrixKey { row: 3, col: 7, shift: false }),
        'w' => Some(MatrixKey { row: 1, col: 1, shift: false }),
        'x' => Some(MatrixKey { row: 2, col: 7, shift: false }),
        'y' => Some(MatrixKey { row: 3, col: 1, shift: false }),
        'z' => Some(MatrixKey { row: 1, col: 4, shift: false }),
        'A' => Some(MatrixKey { row: 1, col: 2, shift: true }),
        'B' => Some(MatrixKey { row: 3, col: 4, shift: true }),
        'C' => Some(MatrixKey { row: 2, col: 4, shift: true }),
        'D' => Some(MatrixKey { row: 2, col: 2, shift: true }),
        'E' => Some(MatrixKey { row: 1, col: 6, shift: true }),
        'F' => Some(MatrixKey { row: 2, col: 5, shift: true }),
        'G' => Some(MatrixKey { row: 3, col: 2, shift: true }),
        'H' => Some(MatrixKey { row: 3, col: 5, shift: true }),
        'I' => Some(MatrixKey { row: 4, col: 1, shift: true }),
        'J' => Some(MatrixKey { row: 4, col: 2, shift: true }),
        'K' => Some(MatrixKey { row: 4, col: 5, shift: true }),
        'L' => Some(MatrixKey { row: 5, col: 2, shift: true }),
        'M' => Some(MatrixKey { row: 4, col: 4, shift: true }),
        'N' => Some(MatrixKey { row: 4, col: 7, shift: true }),
        'O' => Some(MatrixKey { row: 4, col: 6, shift: true }),
        'P' => Some(MatrixKey { row: 5, col: 1, shift: true }),
        'Q' => Some(MatrixKey { row: 7, col: 6, shift: true }),
        'R' => Some(MatrixKey { row: 2, col: 1, shift: true }),
        'S' => Some(MatrixKey { row: 1, col: 5, shift: true }),
        'T' => Some(MatrixKey { row: 2, col: 6, shift: true }),
        'U' => Some(MatrixKey { row: 3, col: 6, shift: true }),
        'V' => Some(MatrixKey { row: 3, col: 7, shift: true }),
        'W' => Some(MatrixKey { row: 1, col: 1, shift: true }),
        'X' => Some(MatrixKey { row: 2, col: 7, shift: true }),
        'Y' => Some(MatrixKey { row: 3, col: 1, shift: true }),
        'Z' => Some(MatrixKey { row: 1, col: 4, shift: true }),
        '0' => Some(MatrixKey { row: 4, col: 3, shift: false }),
        '1' => Some(MatrixKey { row: 7, col: 0, shift: false }),
        '2' => Some(MatrixKey { row: 7, col: 3, shift: false }),
        '3' => Some(MatrixKey { row: 1, col: 0, shift: false }),
        '4' => Some(MatrixKey { row: 1, col: 3, shift: false }),
        '5' => Some(MatrixKey { row: 2, col: 0, shift: false }),
        '6' => Some(MatrixKey { row: 2, col: 3, shift: false }),
        '7' => Some(MatrixKey { row: 3, col: 0, shift: false }),
        '8' => Some(MatrixKey { row: 3, col: 3, shift: false }),
        '9' => Some(MatrixKey { row: 4, col: 0, shift: false }),
        ' ' => Some(MatrixKey { row: 7, col: 4, shift: false }),
        '+' => Some(MatrixKey { row: 5, col: 0, shift: false }),
        '-' => Some(MatrixKey { row: 5, col: 3, shift: false }),
        '*' => Some(MatrixKey { row: 6, col: 1, shift: false }),
        '/' => Some(MatrixKey { row: 6, col: 7, shift: false }),
        '=' => Some(MatrixKey { row: 6, col: 5, shift: false }),
        ':' => Some(MatrixKey { row: 5, col: 5, shift: false }),
        ';' => Some(MatrixKey { row: 6, col: 2, shift: false }),
        ',' => Some(MatrixKey { row: 5, col: 7, shift: false }),
        '.' => Some(MatrixKey { row: 5, col: 4, shift: false }),
        '@' => Some(MatrixKey { row: 5, col: 6, shift: false }),
        '^' => Some(MatrixKey { row: 6, col: 6, shift: false }),
        '!' => Some(MatrixKey { row: 7, col: 0, shift: true }),
        '"' => Some(MatrixKey { row: 7, col: 3, shift: true }),
        '#' => Some(MatrixKey { row: 1, col: 0, shift: true }),
        '$' => Some(MatrixKey { row: 1, col: 3, shift: true }),
        '%' => Some(MatrixKey { row: 2, col: 0, shift: true }),
        '&' => Some(MatrixKey { row: 2, col: 3, shift: true }),
        '\'' => Some(MatrixKey { row: 3, col: 0, shift: true }),
        '(' => Some(MatrixKey { row: 3, col: 3, shift: true }),
        ')' => Some(MatrixKey { row: 4, col: 0, shift: true }),
        '<' => Some(MatrixKey { row: 5, col: 7, shift: true }),
        '>' => Some(MatrixKey { row: 5, col: 4, shift: true }),
        '?' => Some(MatrixKey { row: 6, col: 7, shift: true }),
        '[' => Some(MatrixKey { row: 5, col: 5, shift: true }),
        ']' => Some(MatrixKey { row: 6, col: 2, shift: true }),
        _ => None,
    }
}

/// The keys that have a name of their own; `name` is in small letters.
pub open spec fn special_key(name: Seq<char>) -> Option<MatrixKey> {
    if name == "return"@ {
        Some(MatrixKey { row: 0, col: 1, shift: false })
    } else if name == "space"@ {
        Some(MatrixKey { row: 7, col: 4, shift: false })
    } else if name == "del"@ {
        Some(MatrixKey { row: 0, col: 0, shift: false })
    } else if name == "inst"@ {
        Some(MatrixKey { row: 0, col: 0, shift: true })
    } else if name == "home"@ {
        Some(MatrixKey { row: 6, col: 3, shift: false })
    } else if name == "clr"@ {
        Some(MatrixKey { row: 6, col: 3, shift: true })
    } else if name == "down"@ {
        Some(MatrixKey { row: 0, col: 7, shift: false })
    } else if name == "up"@ {
        Some(MatrixKey { row: 0, col: 7, shift: true })
    } else if name == "right"@ {
        Some(MatrixKey { row: 0, col: 2, shift: false })
    } else if name == "left"@ {
        Some(MatrixKey { row: 0, col: 2, shift: true })
    } else if name == "f1"@ {
        Some(MatrixKey { row: 0, col: 4, shift: false })
    } else if name == "f2"@ {
        Some(MatrixKey { row: 0, col: 4, shift: true })
    } else if name == "f3"@ {
        Some(MatrixKey { row: 0, col: 5, shift: false })
    } else if name == "f4"@ {
        Some(MatrixKey { row: 0, col: 5, shift: true })
    } else if name == "f5"@ {
        Some(MatrixKey { row: 0, col: 6, shift: false })
    } else if name == "f6"@ {
        Some(MatrixKey { row: 0, col: 6, shift: true })
    } else if name == "f7"@ {
        Some(MatrixKey { row: 0, col: 3, shift: false })
    } else if name == "f8"@ {
        Some(MatrixKey { row: 0, col: 3, shift: true })
    } else if name == "ctrl"@ {
        Some(MatrixKey { row: 7, col: 2, shift: false })
    } else if name == "cbm"@ {
        Some(MatrixKey { row: 7, col: 5, shift: false })
    } else if name == "lshift"@ {
        Some(MatrixKey { row: 1, col: 7, shift: false })
    } else if name == "rshift"@ {
        Some(MatrixKey { row: 6, col: 4, shift: false })
    } else if name == "stop"@ {
        Some(MatrixKey { row: 7, col: 7, shift: false })
    } else if name == "run"@ {
        Some(MatrixKey { row: 7, col: 7, shift: true })
    } else {
        None
    }
}

fn special(name: &Vec<char>) -> (k: Option<MatrixKey>)
    ensures
        k == special_key(name@),
        k matches Some(k) ==> k.row < 8 && k.col < 8,
{
    if is(name, "return") {
        Some(MatrixKey { row: 0, col: 1, shift: false })
    } else if is(name, "space") {
        Some(MatrixKey { row: 7, col: 4, shift: false })
    } else if is(name, "del") {
        Some(MatrixKey { row: 0, col: 0, shift: false })
    } else if is(name, "inst") {
        Some(MatrixKey { row: 0, col: 0, shift: true })
    } else if is(name, "home") {
        Some(MatrixKey { row: 6, col: 3, shift: false })
    } else if is(name, "clr") {
        Some(MatrixKey { row: 6, col: 3, shift: true })
    } else if is(name, "down") {
        Some(MatrixKey { row: 0, col: 7, shift: false })
    } else if is(name, "up") {
        Some(MatrixKey { row: 0, col: 7, shift: true })
    } else if is(name, "right") {
        Some(MatrixKey { row: 0, col: 2, shift: false })
    } else if is(name, "left") {
        Some(MatrixKey { row: 0, col: 2, shift: true })
    } else if is(name, "f1") {
        Some(MatrixKey { row: 0, col: 4, shift: false })
    } else if is(name, "f2") {
        Some(MatrixKey { row: 0, col: 4, shift: true })
    } else if is(name, "f3") {
        Some(MatrixKey { row: 0, col: 5, shift: false })
    } else if is(name, "f4") {
        Some(MatrixKey { row: 0, col: 5, shift: true })
    } else if is(name, "f5") {
        Some(MatrixKey { row: 0, col: 6, shift: false })
    } else if is(name, "f6") {
        Some(MatrixKey { row: 0, col: 6, shift: true })
    } else if is(name, "f7") {
        Some(MatrixKey { row: 0, col: 3, shift: false })
    } else if is(name, "f8") {
        Some(MatrixKey { row: 0, col: 3, shift: true })
    } else if is(name, "ctrl") {
        Some(MatrixKey { row: 7, col: 2, shift: false })
    } else if is(name, "cbm") {
        Some(MatrixKey { row: 7, col: 5, shift: false })
    } else if is(name, "lshift") {
        Some(MatrixKey { row: 1, col: 7, shift: false })
    } else if is(name, "rshift") {
        Some(MatrixKey { row: 6, col: 4, shift: false })
    } else if is(name, "stop") {
        Some(MatrixKey { row: 7, col: 7, shift: false })
    } else if is(name, "run") {
        Some(MatrixKey { row: 7, col: 7, shift: true })
    } else {
        None
    }
}

/// The key called `name`: one with a name of its own, in whatever case, or the
/// key that types the one character.
pub open spec fn named_key(name: Seq<char>) -> Option<MatrixKey> {
    match special_key(crate::text::lower(name)) {
        Some(k) => Some(k),
        None => if name.len() == 1 {
            char_key(name[0])
        } else {
            None
        },
    }
}

/// Every key with a name stands in the matrix.
pub proof fn keys_are_in_the_matrix(name: Seq<char>)
    ensures
        named_key(name) matches Some(k) ==> k.row < 8 && k.col < 8,
{
}

/// The key called `name`.
pub fn key_named(name: &Vec<char>) -> (k: Option<MatrixKey>)
    ensures
        k == named_key(name@),
        k matches Some(k) ==> k.row < 8 && k.col < 8,
{
    match special(&lowered(name)) {
        Some(k) => Some(k),
        None => if name.len() == 1 {
            key_for_char(name[0])
        } else {
            None
        },
    }
}

/// The key called `name`.
pub fn key_by_name(name: &str) -> (k: Option<MatrixKey>)
    ensures
        k == named_key(name@),
        k matches Some(k) ==> k.row < 8 && k.col < 8,
{
    key_named(&chars_of(name))
}

} // verus!
