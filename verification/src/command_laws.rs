//! What holds of the words of the control language: keys stand where the C64 and USB
//! keyboards have them, directions are their own lines, numbers mean themselves.
use crate::command::Cmd;
use crate::keymap::MatrixKey;
use vstd::prelude::*;

verus! {

/// The C64's keyboard matrix, row by row: what each key types, or a blank.
pub open spec fn plain_matrix() -> Seq<char> {
    seq![
        '_', '_', '_', '_', '_', '_', '_', '_',
        '3', 'w', 'a', '4', 'z', 's', 'e', '_',
        '5', 'r', 'd', '6', 'c', 'f', 't', 'x',
        '7', 'y', 'g', '8', 'b', 'h', 'u', 'v',
        '9', 'i', 'j', '0', 'm', 'k', 'o', 'n',
        '+', 'p', 'l', '-', '.', ':', '@', ',',
        '_', '*', ';', '_', '_', '=', '^', '/',
        '1', '_', '_', '2', ' ', '_', 'q', '_',
    ]
}

/// The same with SHIFT.
pub open spec fn shifted_matrix() -> Seq<char> {
    seq![
        '_', '_', '_', '_', '_', '_', '_', '_',
        '#', 'W', 'A', '$', 'Z', 'S', 'E', '_',
        '%', 'R', 'D', '&', 'C', 'F', 'T', 'X',
        '\'', 'Y', 'G', '(', 'B', 'H', 'U', 'V',
        ')', 'I', 'J', '_', 'M', 'K', 'O', 'N',
        '_', 'P', 'L', '_', '>', '[', '_', '<',
        '_', '_', ']', '_', '_', '_', '_', '?',
        '!', '_', '_', '"', '_', '_', 'Q', '_',
    ]
}

/// The key for a character is the one that types it, with SHIFT or without.
pub proof fn keys_type_their_character(c: char)
    ensures
        crate::keymap::char_key(c) matches Some(k) ==> {
            &&& k.row < 8 && k.col < 8
            &&& !k.shift ==> plain_matrix()[k.row * 8 + k.col] == c
            &&& k.shift ==> shifted_matrix()[k.row * 8 + k.col] == c
        },
{
}

/// Every letter, every digit and these signs can be typed, and nothing else.
pub proof fn what_can_be_typed(c: char)
    ensures
        crate::keymap::char_key(c) is Some == ('a' <= c && c <= 'z' || 'A' <= c && c <= 'Z' || '0'
            <= c && c <= '9' || c == ' ' || ('!' <= c && c <= '/') || (':' <= c && c <= '@') || c
            == '[' || c == ']' || c == '^'),
{
}

/// The keys that type nothing, by their place in the matrix.
pub open spec fn key_title(row: u8, col: u8, shift: bool) -> Seq<char> {
    if row == 0 {
        if col == 0 {
            if shift {
                "inst"@
            } else {
                "del"@
            }
        } else if col == 1 {
            "return"@
        } else if col == 2 {
            if shift {
                "left"@
            } else {
                "right"@
            }
        } else if col == 3 {
            if shift {
                "f8"@
            } else {
                "f7"@
            }
        } else if col == 4 {
            if shift {
                "f2"@
            } else {
                "f1"@
            }
        } else if col == 5 {
            if shift {
                "f4"@
            } else {
                "f3"@
            }
        } else if col == 6 {
            if shift {
                "f6"@
            } else {
                "f5"@
            }
        } else {
            if shift {
                "up"@
            } else {
                "down"@
            }
        }
    } else if row == 1 {
        "lshift"@
    } else if row == 6 {
        if col == 4 {
            "rshift"@
        } else if shift {
            "clr"@
        } else {
            "home"@
        }
    } else if col == 2 {
        "ctrl"@
    } else if col == 4 {
        "space"@
    } else if col == 5 {
        "cbm"@
    } else if shift {
        "run"@
    } else {
        "stop"@
    }
}

/// A key with a name of its own is the one at that place of the matrix.
pub proof fn named_keys_stand_in_their_place(name: Seq<char>)
    ensures
        crate::keymap::special_key(name) matches Some(k) ==> name == key_title(
            k.row,
            k.col,
            k.shift,
        ) && (k.row == 0 || (k.row == 1 && k.col == 7) || (k.row == 6 && (k.col == 3 || k.col == 4))
            || (k.row == 7 && (k.col == 2 || k.col == 4 || k.col == 5 || k.col == 7))),
{
}

/// A USB key's usage numbers run on: letters from 4, digits from 30 with zero last,
/// function keys from 58.
pub proof fn usb_usages_run_on(c: char)
    ensures
        'a' <= c && c <= 'z' ==> crate::usb::char_usage(c) == Some((4 + (c as u32 - 97)) as u8),
        '1' <= c && c <= '9' ==> crate::usb::char_usage(c) == Some((30 + (c as u32 - 49)) as u8),
        crate::usb::char_usage('0') == Some(39u8),
        crate::usb::char_usage(c) is Some ==> 'a' <= c && c <= 'z' || '0' <= c && c <= '9',
{
}

/// The name of a usage number.
pub open spec fn usage_title(u: u8) -> Seq<char> {
    if u == 40 {
        "return"@
    } else if u == 41 {
        "esc"@
    } else if u == 42 {
        "backspace"@
    } else if u == 43 {
        "tab"@
    } else if u == 44 {
        "space"@
    } else if 58 <= u <= 69 {
        seq!['f'] + crate::numbers::decimal((u - 57) as nat)
    } else if u == 79 {
        "right"@
    } else if u == 80 {
        "left"@
    } else if u == 81 {
        "down"@
    } else {
        "up"@
    }
}

/// A USB key with a name of its own has that usage number.
pub proof fn usb_names_have_their_usage(name: Seq<char>)
    ensures
        crate::usb::special_usage(name) matches Some(u) ==> name == usage_title(u) && (40 <= u <= 44
            || 58 <= u <= 69 || 79 <= u <= 82),
{
    reveal_strlit("f1");
    reveal_strlit("f2");
    reveal_strlit("f3");
    reveal_strlit("f4");
    reveal_strlit("f5");
    reveal_strlit("f6");
    reveal_strlit("f7");
    reveal_strlit("f8");
    reveal_strlit("f9");
    reveal_strlit("f10");
    reveal_strlit("f11");
    reveal_strlit("f12");
    reveal_with_fuel(crate::numbers::decimal, 3);
    let f = |n: nat| seq!['f'] + crate::numbers::decimal(n);
    assert(f(1) =~= "f1"@);
    assert(f(2) =~= "f2"@);
    assert(f(3) =~= "f3"@);
    assert(f(4) =~= "f4"@);
    assert(f(5) =~= "f5"@);
    assert(f(6) =~= "f6"@);
    assert(f(7) =~= "f7"@);
    assert(f(8) =~= "f8"@);
    assert(f(9) =~= "f9"@);
    assert(f(10) =~= "f10"@);
    assert(f(11) =~= "f11"@);
    assert(f(12) =~= "f12"@);
}

/// The keys that type a text, one for each character in order.
pub proof fn typing_is_key_by_key(s: Seq<char>, i: int)
    requires
        0 <= i < s.len(),
    ensures
        crate::command::typed(s) matches Ok(keys) ==> keys.len() == s.len()
            && crate::keymap::char_key(s[i]) == Some(keys[i]),
        crate::command::typed(s) is Ok ==> crate::keymap::char_key(s[i]) is Some,
    decreases s.len(),
{
    if s.len() > 1 {
        if i < s.len() - 1 {
            typing_is_key_by_key(s.drop_last(), i);
        } else {
            typing_is_key_by_key(s.drop_last(), 0);
        }
    } else {
        assert(s.drop_last() =~= Seq::empty());
        assert(crate::command::typed(Seq::empty()) == Ok::<Seq<MatrixKey>, Seq<char>>(
            Seq::empty(),
        ));
    }
}

/// A text is typed exactly if every character can be.
pub proof fn typing_needs_every_character(s: Seq<char>)
    requires
        forall|i: int| 0 <= i < s.len() ==> crate::keymap::char_key(#[trigger] s[i]) is Some,
    ensures
        crate::command::typed(s) is Ok,
    decreases s.len(),
{
    if s.len() > 0 {
        assert(crate::keymap::char_key(s[s.len() - 1]) is Some);
        typing_needs_every_character(s.drop_last());
    }
}

/// One of the names is `word`, in whatever case.
pub open spec fn mentions(names: Seq<Seq<char>>, word: Seq<char>) -> bool {
    exists|i: int| 0 <= i < names.len() && crate::text::lower(#[trigger] names[i]) == word
}

/// Of named directions exactly those lines are low: up is bit 0, down bit 1, left bit 2,
/// right bit 3, fire bit 4, and the bits above stay high.
pub proof fn named_directions_are_their_lines(names: Seq<Seq<char>>)
    ensures
        crate::command::lines_of(names) matches Ok(l) ==> {
            &&& (l % 2 == 0) == mentions(names, "up"@)
            &&& (l / 2 % 2 == 0) == mentions(names, "down"@)
            &&& (l / 4 % 2 == 0) == mentions(names, "left"@)
            &&& (l / 8 % 2 == 0) == mentions(names, "right"@)
            &&& (l / 16 % 2 == 0) == mentions(names, "fire"@)
            &&& l / 32 == 7
        },
    decreases names.len(),
{
    if names.len() > 0 {
        named_directions_are_their_lines(names.drop_last());
        one_more_name(names, "up"@);
        one_more_name(names, "down"@);
        one_more_name(names, "left"@);
        one_more_name(names, "right"@);
        one_more_name(names, "fire"@);
        direction_words();
        if let Ok(l) = crate::command::lines_of(names.drop_last()) {
            if let Some(bit) = crate::command::direction(names.last()) {
                a_line_goes_low(l, bit);
            }
        }
    } else {
        assert(0xFFu8 / 2 % 2 == 1 && 0xFFu8 / 4 % 2 == 1 && 0xFFu8 / 8 % 2 == 1 && 0xFFu8 / 16 % 2
            == 1);
    }
}

/// What the last name adds.
proof fn one_more_name(names: Seq<Seq<char>>, word: Seq<char>)
    requires
        names.len() > 0,
    ensures
        mentions(names, word) == (mentions(names.drop_last(), word) || crate::text::lower(
            names.last(),
        ) == word),
{
    let rest = names.drop_last();
    if mentions(rest, word) {
        let i = choose|i: int|
            0 <= i < rest.len() && crate::text::lower(#[trigger] rest[i]) == word;
        assert(names[i] == rest[i]);
    }
    if mentions(names, word) {
        let i = choose|i: int|
            0 <= i < names.len() && crate::text::lower(#[trigger] names[i]) == word;
        if i < rest.len() {
            assert(rest[i] == names[i]);
        }
    }
    assert(names[names.len() - 1] == names.last());
}

/// The five words differ.
proof fn direction_words()
    ensures
        "up"@ != "down"@ && "up"@ != "left"@ && "up"@ != "right"@ && "up"@ != "fire"@,
        "down"@ != "left"@ && "down"@ != "right"@ && "down"@ != "fire"@,
        "left"@ != "right"@ && "left"@ != "fire"@,
        "right"@ != "fire"@,
{
    reveal_strlit("up");
    reveal_strlit("down");
    reveal_strlit("left");
    reveal_strlit("right");
    reveal_strlit("fire");
    assert("up"@.len() == 2 && "down"@.len() == 4 && "left"@.len() == 4 && "right"@.len() == 5
        && "fire"@.len() == 4);
    assert("down"@[0] == 'd' && "left"@[0] == 'l' && "fire"@[0] == 'f');
}

/// Pulling one of the eight lines low leaves the others.
proof fn a_line_goes_low(l: u8, bit: u8)
    by (bit_vector)
    requires
        bit < 5,
    ensures
        (l & !(1u8 << bit)) % 2 == (if bit == 0 { 0u8 } else { l % 2 }),
        (l & !(1u8 << bit)) / 2 % 2 == (if bit == 1 { 0u8 } else { l / 2 % 2 }),
        (l & !(1u8 << bit)) / 4 % 2 == (if bit == 2 { 0u8 } else { l / 4 % 2 }),
        (l & !(1u8 << bit)) / 8 % 2 == (if bit == 3 { 0u8 } else { l / 8 % 2 }),
        (l & !(1u8 << bit)) / 16 % 2 == (if bit == 4 { 0u8 } else { l / 16 % 2 }),
        (l & !(1u8 << bit)) / 32 == l / 32,
{
}

/// Parts joined by a separator.
pub open spec fn joined(parts: Seq<Seq<char>>, sep: char) -> Seq<char>
    decreases parts.len(),
{
    if parts.len() == 0 {
        Seq::empty()
    } else if parts.len() == 1 {
        parts[0]
    } else {
        joined(parts.drop_last(), sep) + seq![sep] + parts.last()
    }
}

proof fn a_part_is_appended(s: Seq<char>, part: Seq<char>, sep: char)
    requires
        !part.contains(sep),
    ensures
        ({
            let t = crate::text::split_at(s, sep);
            crate::text::split_at(s + part, sep) == t.drop_last().push(t.last() + part)
        }),
    decreases part.len(),
{
    let t = crate::text::split_at(s, sep);
    crate::text::split_has_parts(s, sep);
    if part.len() == 0 {
        assert(s + part =~= s);
        assert(t.last() + part =~= t.last());
        assert(t.drop_last().push(t.last()) =~= t);
    } else {
        let p = part.drop_last();
        assert(!p.contains(sep)) by {
            if p.contains(sep) {
                let i = choose|i: int| 0 <= i < p.len() && p[i] == sep;
                assert(part[i] == sep);
            }
        }
        a_part_is_appended(s, p, sep);
        assert((s + part).drop_last() =~= s + p);
        assert(part[part.len() - 1] == part.last());
        let u = crate::text::split_at(s + p, sep);
        assert(u.drop_last() =~= t.drop_last());
        assert(u.last().push(part.last()) =~= t.last() + part);
    }
}

/// Splitting undoes joining: the names between plus signs are the names that were put
/// there.
pub proof fn splitting_undoes_joining(parts: Seq<Seq<char>>, sep: char)
    requires
        parts.len() > 0,
        forall|i: int| 0 <= i < parts.len() ==> !(#[trigger] parts[i]).contains(sep),
    ensures
        crate::text::split_at(joined(parts, sep), sep) == parts,
    decreases parts.len(),
{
    if parts.len() == 1 {
        a_part_is_appended(Seq::empty(), parts[0], sep);
        assert(Seq::<char>::empty() + parts[0] =~= parts[0]);
        let t = crate::text::split_at(Seq::empty(), sep);
        assert(t.last() + parts[0] =~= parts[0]);
        assert(t.drop_last().push(parts[0]) =~= parts);
    } else {
        let p = parts.drop_last();
        assert forall|i: int| 0 <= i < p.len() implies !(#[trigger] p[i]).contains(sep) by {
            assert(p[i] == parts[i]);
        }
        splitting_undoes_joining(p, sep);
        let s = joined(p, sep) + seq![sep];
        assert(s.drop_last() =~= joined(p, sep));
        let t = crate::text::split_at(s, sep);
        assert(t == p.push(Seq::empty()));
        assert(!parts[parts.len() - 1].contains(sep));
        a_part_is_appended(s, parts.last(), sep);
        assert(t.drop_last() =~= p);
        assert(Seq::<char>::empty() + parts.last() =~= parts.last());
        assert(p.push(parts.last()) =~= parts);
    }
}

/// The keys of a chord, one for each name in order.
pub proof fn chords_are_key_by_key(names: Seq<Seq<char>>, i: int)
    requires
        0 <= i < names.len(),
    ensures
        crate::command::keys_of(names) matches Ok(keys) ==> keys.len() == names.len()
            && crate::keymap::named_key(names[i]) == Some(keys[i]),
    decreases names.len(),
{
    if names.len() > 1 {
        if i < names.len() - 1 {
            chords_are_key_by_key(names.drop_last(), i);
        } else {
            chords_are_key_by_key(names.drop_last(), 0);
        }
    } else {
        assert(names.drop_last() =~= Seq::empty());
        assert(crate::command::keys_of(Seq::empty()) == Ok::<Seq<MatrixKey>, Seq<char>>(
            Seq::empty(),
        ));
    }
}

/// A number that is written out means itself, with a plus sign or without, up to the
/// limit; beyond it, it means nothing.
pub proof fn numbers_mean_themselves(n: nat, max: nat)
    ensures
        crate::numbers::unsigned(crate::numbers::decimal(n), max) == if n <= max {
            Some(n)
        } else {
            None
        },
        crate::numbers::unsigned(seq!['+'] + crate::numbers::decimal(n), max) == if n <= max {
            Some(n)
        } else {
            None
        },
{
    let d = crate::numbers::decimal(n);
    crate::numbers::decimal_reads_back(n);
    assert(crate::numbers::is_digit(d[0]));
    assert((seq!['+'] + d).skip(1) =~= d);
}

/// A signed number means itself within 32 bits.
pub proof fn signed_numbers_mean_themselves(n: nat)
    ensures
        crate::numbers::signed(crate::numbers::decimal(n)) == if n < 0x8000_0000 {
            Some(n as int)
        } else {
            None
        },
        crate::numbers::signed(seq!['-'] + crate::numbers::decimal(n)) == if n <= 0x8000_0000 {
            Some(-(n as int))
        } else {
            None
        },
{
    let d = crate::numbers::decimal(n);
    crate::numbers::decimal_reads_back(n);
    assert(crate::numbers::is_digit(d[0]));
    assert((seq!['-'] + d).skip(1) =~= d);
}

/// A hub port is 1, 2 or 3; a control port is 1 or 2.
pub proof fn ports_are_few(n: nat)
    ensures
        crate::command::hub_port(crate::numbers::decimal(n)) is Ok == (1 <= n <= 3),
        crate::command::control_port(crate::numbers::decimal(n)) is Ok == (1 <= n <= 2),
        1 <= n <= 3 ==> crate::command::hub_port(crate::numbers::decimal(n)) == Ok::<u8, Seq<char>>(
            n as u8,
        ),
        1 <= n <= 2 ==> crate::command::control_port(crate::numbers::decimal(n)) == Ok::<
            u8,
            Seq<char>,
        >(n as u8),
{
    numbers_mean_themselves(n, 255);
}

/// Default times: a key 80 ms, a button 100 ms, an expectation five seconds.
pub proof fn default_times()
    ensures
        crate::command::KEY_MS == 80,
        crate::command::BUTTON_MS == 100,
        crate::command::EXPECT_MS == 5000,
        crate::parse::timeout("expect"@, Seq::empty()) == Ok::<u64, Seq<char>>(5000),
{
}

/// A text without quotes is one word, and what follows it is left over.
pub proof fn plain_texts_are_words(before: Seq<char>, word: Seq<char>, rest: Seq<char>)
    requires
        crate::text::is_blank(before),
        crate::parse_laws::is_word(word),
        word[0] != '"',
        rest.len() > 0 ==> crate::text::is_space(rest[0]),
    ensures
        crate::command::text_argument(before + word + rest) == Ok::<
            (Seq<char>, Seq<char>),
            Seq<char>,
        >((word, rest)),
{
    let s = word + rest;
    assert(before + word + rest =~= before + s);
    crate::text::outer_blanks_are_trimmed(before, s, Seq::empty());
    assert(s[0] == word[0]);
    assert(crate::text::trim_start(s) == s);
    crate::parse_laws::a_word_is_as_long_as_itself(word, rest);
    assert(s.take(word.len() as int) =~= word);
    assert(s.skip(word.len() as int) =~= rest);
}

/// A quoted text that does not end is refused, and so is a backslash before anything but
/// a quote or a backslash.
pub proof fn bad_quotes_are_refused(s: Seq<char>, text: Seq<char>, c: char)
    requires
        forall|i: int| 0 <= i < s.len() ==> #[trigger] s[i] != '"' && s[i] != '\\',
        c != '"' && c != '\\',
    ensures
        crate::command::unquoted(s, text) is Err,
        crate::command::unquoted(s + seq!['\\', c], text) is Err,
        crate::command::unquoted(s + seq!['\\'], text) is Err,
    decreases s.len(),
{
    let t = s + seq!['\\', c];
    let u = s + seq!['\\'];
    if s.len() > 0 {
        let tail = s.skip(1);
        assert forall|i: int| 0 <= i < tail.len() implies #[trigger] tail[i] != '"' && tail[i]
            != '\\' by {
            assert(tail[i] == s[i + 1]);
        }
        bad_quotes_are_refused(tail, text.push(s[0]), c);
        assert(s[0] != '"' && s[0] != '\\');
        assert(t[0] == s[0] && u[0] == s[0]);
        assert(t.skip(1) =~= tail + seq!['\\', c]);
        assert(u.skip(1) =~= tail + seq!['\\']);
    } else {
        assert(t[0] == '\\' && t[1] == c && t.len() == 2);
        assert(u[0] == '\\' && u.len() == 1);
    }
}

/// The keys that have names of their own are these, on the C64 and on USB.
pub proof fn keys_with_names(name: Seq<char>)
    ensures
        crate::keymap::special_key(name) is Some == (name == "return"@ || name == "space"@ || name == "del"@ || name == "inst"@ || name == "home"@ || name == "clr"@ || name == "down"@ || name == "up"@ || name == "right"@ || name == "left"@ || name == "f1"@ || name == "f2"@ || name == "f3"@ || name == "f4"@ || name == "f5"@ || name == "f6"@ || name == "f7"@ || name == "f8"@ || name == "ctrl"@ || name == "cbm"@ || name == "lshift"@ || name == "rshift"@ || name == "stop"@ || name == "run"@),
        crate::usb::special_usage(name) is Some == (name == "return"@ || name == "esc"@ || name == "backspace"@ || name == "tab"@ || name == "space"@ || name == "f1"@ || name == "f2"@ || name == "f3"@ || name == "f4"@ || name == "f5"@ || name == "f6"@ || name == "f7"@ || name == "f8"@ || name == "f9"@ || name == "f10"@ || name == "f11"@ || name == "f12"@ || name == "right"@ || name == "left"@ || name == "down"@ || name == "up"@),
{
}

/// A single character names the key that types it; USB keys have no capitals.
pub proof fn characters_name_their_keys(c: char)
    ensures
        crate::keymap::named_key(seq![c]) == crate::keymap::char_key(c),
        crate::usb::named_usage(seq![c]) == crate::usb::char_usage(crate::text::lower_char(c)),
{
    let low = crate::text::lower(seq![c]);
    assert(low.len() == 1 && low[0] == crate::text::lower_char(c));
    keys_with_names(low);
    reveal_strlit("backspace");
    reveal_strlit("cbm");
    reveal_strlit("clr");
    reveal_strlit("ctrl");
    reveal_strlit("del");
    reveal_strlit("down");
    reveal_strlit("esc");
    reveal_strlit("f1");
    reveal_strlit("f10");
    reveal_strlit("f11");
    reveal_strlit("f12");
    reveal_strlit("f2");
    reveal_strlit("f3");
    reveal_strlit("f4");
    reveal_strlit("f5");
    reveal_strlit("f6");
    reveal_strlit("f7");
    reveal_strlit("f8");
    reveal_strlit("f9");
    reveal_strlit("home");
    reveal_strlit("inst");
    reveal_strlit("left");
    reveal_strlit("lshift");
    reveal_strlit("return");
    reveal_strlit("right");
    reveal_strlit("rshift");
    reveal_strlit("run");
    reveal_strlit("space");
    reveal_strlit("stop");
    reveal_strlit("tab");
    reveal_strlit("up");
    assert("backspace"@.len() == 9 && "cbm"@.len() == 3 && "clr"@.len() == 3 && "ctrl"@.len() == 4 && "del"@.len() == 3 && "down"@.len() == 4 && "esc"@.len() == 3 && "f1"@.len() == 2 && "f10"@.len() == 3 && "f11"@.len() == 3 && "f12"@.len() == 3 && "f2"@.len() == 2 && "f3"@.len() == 2 && "f4"@.len() == 2 && "f5"@.len() == 2 && "f6"@.len() == 2 && "f7"@.len() == 2 && "f8"@.len() == 2 && "f9"@.len() == 2 && "home"@.len() == 4 && "inst"@.len() == 4 && "left"@.len() == 4 && "lshift"@.len() == 6 && "return"@.len() == 6 && "right"@.len() == 5 && "rshift"@.len() == 6 && "run"@.len() == 3 && "space"@.len() == 5 && "stop"@.len() == 4 && "tab"@.len() == 3 && "up"@.len() == 2);
}

/// A name of its own stands for its key in whatever case.
pub proof fn names_in_any_case(name: Seq<char>)
    ensures
        crate::keymap::special_key(crate::text::lower(name)) is Some ==> crate::keymap::named_key(name)
            == crate::keymap::special_key(crate::text::lower(name)),
        crate::usb::special_usage(crate::text::lower(name)) is Some ==> crate::usb::named_usage(name)
            == crate::usb::special_usage(crate::text::lower(name)),
{
}

/// Names with plus signs between them are a chord of those keys, in that order; a plus
/// sign alone is the plus key.
pub proof fn plus_signs_join_keys(parts: Seq<Seq<char>>)
    requires
        parts.len() > 1,
        forall|i: int| 0 <= i < parts.len() ==> !(#[trigger] parts[i]).contains('+'),
        parts.last().len() > 0,
    ensures
        crate::command::keys_named(joined(parts, '+')) == crate::command::keys_of(parts),
        crate::command::keys_named(seq!['+']) == crate::command::keys_of(seq![seq!['+']]),
        crate::keymap::named_key(seq!['+']) == crate::keymap::char_key('+'),
{
    splitting_undoes_joining(parts, '+');
    let all = joined(parts, '+');
    let n = joined(parts.drop_last(), '+').len() as int;
    assert(all[n] == '+');
    assert(all.len() > 1);
    characters_name_their_keys('+');
}

/// Directions with plus signs between them are pulled together; `none` is a stick at rest.
pub proof fn plus_signs_join_directions(parts: Seq<Seq<char>>)
    requires
        parts.len() > 0,
        forall|i: int| 0 <= i < parts.len() ==> !(#[trigger] parts[i]).contains('+'),
        joined(parts, '+') != "none"@,
    ensures
        crate::command::lines_named(joined(parts, '+')) == crate::command::lines_of(parts),
        crate::command::lines_named("none"@) == Ok::<u8, Seq<char>>(0xFF),
{
    splitting_undoes_joining(parts, '+');
}

/// A direction that is not known is refused, whatever else is named.
pub proof fn unknown_directions_are_refused(names: Seq<Seq<char>>, i: int)
    requires
        0 <= i < names.len(),
        crate::command::lines_of(names) is Ok,
    ensures
        ({
            let low = crate::text::lower(names[i]);
            low == "up"@ || low == "down"@ || low == "left"@ || low == "right"@ || low == "fire"@
        }),
    decreases names.len(),
{
    if i < names.len() - 1 {
        unknown_directions_are_refused(names.drop_last(), i);
        assert(names.drop_last()[i] == names[i]);
    }
}

/// Known directions are not refused.
pub proof fn known_directions_are_taken(names: Seq<Seq<char>>)
    requires
        forall|i: int|
            0 <= i < names.len() ==> crate::text::lower(#[trigger] names[i]) == "up"@
                || crate::text::lower(names[i]) == "down"@ || crate::text::lower(names[i]) == "left"@
                || crate::text::lower(names[i]) == "right"@ || crate::text::lower(names[i])
                == "fire"@,
    ensures
        crate::command::lines_of(names) is Ok,
    decreases names.len(),
{
    if names.len() > 0 {
        let rest = names.drop_last();
        assert forall|i: int| 0 <= i < rest.len() implies crate::text::lower(#[trigger] rest[i])
            == "up"@ || crate::text::lower(rest[i]) == "down"@ || crate::text::lower(rest[i])
            == "left"@ || crate::text::lower(rest[i]) == "right"@ || crate::text::lower(rest[i])
            == "fire"@ by {
            assert(rest[i] == names[i]);
        }
        known_directions_are_taken(rest);
        assert(names[names.len() - 1] == names.last());
    }
}

} // verus!
