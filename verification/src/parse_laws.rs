//! What holds of lines that are made of words.
use crate::command::Cmd;
use vstd::prelude::*;

verus! {

/// A word: not empty, and without white space.
pub open spec fn is_word(w: Seq<char>) -> bool {
    w.len() > 0 && forall|i: int| 0 <= i < w.len() ==> !crate::text::is_space(#[trigger] w[i])
}

/// The words in order, with one space between each two.
pub open spec fn spaced(ws: Seq<Seq<char>>) -> Seq<char>
    decreases ws.len(),
{
    if ws.len() == 0 {
        Seq::empty()
    } else if ws.len() == 1 {
        ws[0]
    } else {
        (ws[0].push(' ')) + spaced(ws.skip(1))
    }
}

/// The first word of a text ends where white space follows it or the text ends.
pub proof fn a_word_is_as_long_as_itself(w: Seq<char>, rest: Seq<char>)
    requires
        forall|i: int| 0 <= i < w.len() ==> !crate::text::is_space(#[trigger] w[i]),
        rest.len() > 0 ==> crate::text::is_space(rest[0]),
    ensures
        crate::text::word_len(w + rest) == w.len(),
    decreases w.len(),
{
    if w.len() == 0 {
        assert(w + rest =~= rest);
    } else {
        assert((w + rest).skip(1) =~= w.skip(1) + rest);
        assert((w + rest)[0] == w[0]);
        a_word_is_as_long_as_itself(w.skip(1), rest);
    }
}

/// The words of a text that starts with a word.
proof fn the_first_word_comes_first(w: Seq<char>, rest: Seq<char>)
    requires
        is_word(w),
        rest.len() > 0 ==> crate::text::is_space(rest[0]),
    ensures
        crate::text::words(w + rest) == seq![w] + crate::text::words(rest),
{
    let s = w + rest;
    assert(s[0] == w[0]);
    assert(crate::text::trim_start(s) == s);
    a_word_is_as_long_as_itself(w, rest);
    assert(s.take(w.len() as int) =~= w);
    assert(s.skip(w.len() as int) =~= rest);
}

/// A text of spaced words has those words, and neither starts nor ends in white
/// space.
pub proof fn spaced_words_are_found(ws: Seq<Seq<char>>)
    requires
        forall|i: int| 0 <= i < ws.len() ==> is_word(#[trigger] ws[i]),
    ensures
        crate::text::words(spaced(ws)) == ws,
        ws.len() > 0 ==> spaced(ws).len() >= ws[0].len() && crate::text::trim(spaced(ws)) == spaced(
            ws,
        ),
    decreases ws.len(),
{
    if ws.len() > 0 {
        let w = ws[0];
        let rest = if ws.len() == 1 {
            Seq::empty()
        } else {
            seq![' '] + spaced(ws.skip(1))
        };
        assert(spaced(ws) =~= w + rest);
        the_first_word_comes_first(w, rest);
        if ws.len() == 1 {
            assert(ws =~= seq![w] + crate::text::words(rest));
            assert(spaced(ws).last() == w.last());
        } else {
            let tail = ws.skip(1);
            assert forall|i: int| 0 <= i < tail.len() implies is_word(#[trigger] tail[i]) by {
                assert(tail[i] == ws[i + 1]);
            }
            spaced_words_are_found(tail);
            assert(rest.skip(1) =~= spaced(tail));
            assert(crate::text::trim_start(rest) == crate::text::trim_start(spaced(tail)));
            crate::text::trim_of_trimmed(rest);
            crate::text::trim_of_trimmed(spaced(tail));
            assert(ws =~= seq![w] + tail);
            ends_in_a_word(tail);
            assert(spaced(ws).last() == spaced(tail).last());
        }
        assert(spaced(ws)[0] == w[0]);
        assert(crate::text::trim_end(spaced(ws)) == spaced(ws));
    } else {
        assert(ws =~= Seq::empty());
    }
}

proof fn ends_in_a_word(ws: Seq<Seq<char>>)
    requires
        ws.len() > 0,
        forall|i: int| 0 <= i < ws.len() ==> is_word(#[trigger] ws[i]),
    ensures
        spaced(ws).len() > 0,
        !crate::text::is_space(spaced(ws).last()),
    decreases ws.len(),
{
    let w = ws[0];
    if ws.len() > 1 {
        let tail = ws.skip(1);
        assert forall|i: int| 0 <= i < tail.len() implies is_word(#[trigger] tail[i]) by {
            assert(tail[i] == ws[i + 1]);
        }
        ends_in_a_word(tail);
    }
}

/// A line of spaced words is its first word's command with the other words as
/// arguments.
pub proof fn a_line_is_a_command_and_arguments(ws: Seq<Seq<char>>)
    requires
        ws.len() > 0,
        forall|i: int| 0 <= i < ws.len() ==> is_word(#[trigger] ws[i]),
        ws[0][0] != '#',
    ensures
        crate::text::words(spaced(ws.skip(1))) == ws.skip(1),
        crate::parse::parsed(spaced(ws)) == (match crate::parse::meaning(
            ws[0],
            spaced(ws.skip(1)),
        ) {
            Ok(c) => Ok::<Option<Cmd>, Seq<char>>(Some(c)),
            Err(e) => Err(e),
        }),
{
    let w = ws[0];
    let tail = ws.skip(1);
    let body = spaced(ws);
    assert forall|i: int| 0 <= i < tail.len() implies is_word(#[trigger] tail[i]) by {
        assert(tail[i] == ws[i + 1]);
    }
    spaced_words_are_found(ws);
    spaced_words_are_found(tail);
    let rest = if ws.len() == 1 {
        Seq::empty()
    } else {
        seq![' '] + spaced(tail)
    };
    assert(body =~= w + rest);
    a_word_is_as_long_as_itself(w, rest);
    assert(body[0] == w[0]);
    let n = w.len() as int;
    assert(body.take(n) =~= w);
    if ws.len() == 1 {
        assert(tail =~= Seq::empty());
        assert(spaced(tail) =~= Seq::empty());
    } else {
        assert(body.skip(n + 1) =~= spaced(tail));
    }
}

/// `wasd-joy` is no other command.
proof fn wasd_joy_means_wasd_joy(rest: Seq<char>)
    ensures
        is_word("wasd-joy"@),
        "wasd-joy"@[0] != '#',
        crate::parse::meaning("wasd-joy"@, rest) == crate::parse::wasd_meaning(
            "wasd-joy"@,
            crate::text::words(rest),
        ),
{
    reveal(crate::parse::meaning);
    reveal_strlit("wasd-joy");
    reveal_strlit("wait");
    reveal_strlit("button");
    reveal_strlit("key");
    reveal_strlit("hold");
    reveal_strlit("release");
    reveal_strlit("type");
    reveal_strlit("usbkey");
    reveal_strlit("joy");
    reveal_strlit("joy-hold");
    reveal_strlit("joy-release");
    assert("wasd-joy"@[0] == 'w' && "joy-hold"@[0] == 'j');
}

/// The code that a word for a key gives: "no key" for `none` in whatever case,
/// else the place of the named key in the matrix.
pub open spec fn codes_to(word: Seq<char>, code: u8) -> bool {
    if crate::text::lower(word) == "none"@ {
        code == 0xFF
    } else {
        crate::keymap::named_key(word) matches Some(k) && code == k.row * 8 + k.col
    }
}

proof fn a_code_is_a_key(word: Seq<char>)
    ensures
        crate::command::key_code(word) matches Ok(c) ==> codes_to(word, c),
{
    crate::keymap::keys_are_in_the_matrix(word);
}

/// What the arguments of `wasd-joy` mean, with and without a fire key `none`.
proof fn the_arguments_mean_the_same(word: Seq<char>, five: Seq<Seq<char>>, none: Seq<char>)
    requires
        five.len() == 5,
        crate::command::key_code(none) == Ok::<u8, Seq<char>>(0xFF),
    ensures
        ({
            let short = crate::parse::wasd_meaning(word, five);
            &&& crate::parse::wasd_meaning(word, five.push(none)) == short
            &&& short is Ok <==> crate::command::control_port(five[0]) is Ok
                && crate::command::key_code(five[1]) is Ok && crate::command::key_code(
                five[2],
            ) is Ok && crate::command::key_code(five[3]) is Ok && crate::command::key_code(
                five[4],
            ) is Ok
            &&& short matches Ok(c) ==> {
                &&& c matches Cmd::WasdToJoy(p, codes, fire)
                &&& (p == 1 || p == 2)
                &&& codes.len() == 4
                &&& crate::command::key_code(five[1]) == Ok::<u8, Seq<char>>(codes[0])
                &&& crate::command::key_code(five[2]) == Ok::<u8, Seq<char>>(codes[1])
                &&& crate::command::key_code(five[3]) == Ok::<u8, Seq<char>>(codes[2])
                &&& crate::command::key_code(five[4]) == Ok::<u8, Seq<char>>(codes[3])
                &&& fire == 0xFF
            }
        }),
{
    let six = five.push(none);
    assert(six[0] == five[0] && six[1] == five[1] && six[2] == five[2] && six[3] == five[3]
        && six[4] == five[4] && six[5] == none);
    reveal_with_fuel(crate::parse::codes_of, 5);
}

/// A joystick assignment without a fire key means the same as one with the fire
/// key `none`. It is understood exactly if the port is 1 or 2 and every key is
/// known or `none`, and then it assigns no fire key.
pub proof fn no_fire_key_is_none(
    port: Seq<char>,
    up: Seq<char>,
    down: Seq<char>,
    left: Seq<char>,
    right: Seq<char>,
)
    requires
        is_word(port),
        is_word(up),
        is_word(down),
        is_word(left),
        is_word(right),
    ensures
        ({
            let short = crate::parse::parsed(
                spaced(seq!["wasd-joy"@, port, up, down, left, right]),
            );
            let long = crate::parse::parsed(
                spaced(seq!["wasd-joy"@, port, up, down, left, right, "none"@]),
            );
            &&& short == long
            &&& short is Ok <==> crate::command::control_port(port) is Ok
                && crate::command::key_code(up) is Ok && crate::command::key_code(down) is Ok
                && crate::command::key_code(left) is Ok && crate::command::key_code(right) is Ok
            &&& short matches Ok(c) ==> {
                &&& c matches Some(Cmd::WasdToJoy(p, codes, fire))
                &&& (p == 1 || p == 2)
                &&& codes.len() == 4
                &&& codes_to(up, codes[0])
                &&& codes_to(down, codes[1])
                &&& codes_to(left, codes[2])
                &&& codes_to(right, codes[3])
                &&& fire == 0xFF
            }
        }),
{
    let none = "none"@;
    let five = seq![port, up, down, left, right];
    let six = seq![port, up, down, left, right, none];
    let short = seq!["wasd-joy"@, port, up, down, left, right];
    let long = seq!["wasd-joy"@, port, up, down, left, right, none];
    assert(crate::command::key_code(none) == Ok::<u8, Seq<char>>(0xFF) && is_word(none)) by {
        reveal_strlit("none");
        assert(crate::text::lower(none) =~= none);
    }
    wasd_joy_means_wasd_joy(spaced(five));
    wasd_joy_means_wasd_joy(spaced(six));
    assert(short.skip(1) =~= five);
    assert(long.skip(1) =~= six);
    assert(five.push(none) =~= six);
    a_line_is_a_command_and_arguments(short);
    a_line_is_a_command_and_arguments(long);
    the_arguments_mean_the_same("wasd-joy"@, five, none);
    a_code_is_a_key(up);
    a_code_is_a_key(down);
    a_code_is_a_key(left);
    a_code_is_a_key(right);
}

} // verus!
