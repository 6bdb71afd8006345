//! What holds of whole lines of the control language: the words on a line, in order, say
//! what is done, for how long and where.
use crate::command::{Cmd, Plugged};
use vstd::prelude::*;

verus! {

/// What tells the command words apart.
proof fn command_words()
    ensures
        "wait"@.len() == 4 && "wait"@[0] == 'w',
        "button"@.len() == 6 && "button"@[0] == 'b',
        "key"@.len() == 3 && "key"@[0] == 'k',
        "hold"@.len() == 4 && "hold"@[0] == 'h',
        "release"@.len() == 7 && "release"@[0] == 'r',
        "type"@.len() == 4 && "type"@[0] == 't',
        "usbkey"@.len() == 6 && "usbkey"@[0] == 'u',
        "joy"@.len() == 3 && "joy"@[0] == 'j',
        "joy-hold"@.len() == 8 && "joy-hold"@[0] == 'j',
        "joy-release"@.len() == 11 && "joy-release"@[0] == 'j',
        "wasd-joy"@.len() == 8 && "wasd-joy"@[0] == 'w',
        "usbmouse"@.len() == 8 && "usbmouse"@[0] == 'u' && "usbmouse"@[3] == 'm',
        "screen"@.len() == 6 && "screen"@[0] == 's',
        "c64screen"@.len() == 9 && "c64screen"@[0] == 'c' && "c64screen"@[1] == '6',
        "png"@.len() == 3 && "png"@[0] == 'p',
        "monitor"@.len() == 7 && "monitor"@[0] == 'm',
        "cart-save"@.len() == 9 && "cart-save"@[0] == 'c' && "cart-save"@[1] == 'a' && "cart-save"@[5] == 's',
        "expect"@.len() == 6 && "expect"@[0] == 'e',
        "expect-not"@.len() == 10 && "expect-not"@[0] == 'e' && "expect-not"@[7] == 'n',
        "expect-console"@.len() == 14 && "expect-console"@[0] == 'e',
        "expect-c64"@.len() == 10 && "expect-c64"@[0] == 'e' && "expect-c64"@[7] == 'c',
        "usb-sync"@.len() == 8 && "usb-sync"@[0] == 'u' && "usb-sync"@[3] == '-' && "usb-sync"@[4] == 's',
        "usb-replug"@.len() == 10 && "usb-replug"@[0] == 'u' && "usb-replug"@[4] == 'r',
        "usb-plug"@.len() == 8 && "usb-plug"@[0] == 'u' && "usb-plug"@[3] == '-' && "usb-plug"@[4] == 'p',
        "usb-unplug"@.len() == 10 && "usb-unplug"@[0] == 'u' && "usb-unplug"@[4] == 'u',
        "cart-info"@.len() == 9 && "cart-info"@[0] == 'c' && "cart-info"@[1] == 'a' && "cart-info"@[5] == 'i',
        "quit"@.len() == 4 && "quit"@[0] == 'q',
{
    reveal_strlit("wait");
    reveal_strlit("button");
    reveal_strlit("key");
    reveal_strlit("hold");
    reveal_strlit("release");
    reveal_strlit("type");
    reveal_strlit("usbkey");
    reveal_strlit("joy");
    reveal_strlit("joy-hold");
    reveal_strlit("joy-release");
    reveal_strlit("wasd-joy");
    reveal_strlit("usbmouse");
    reveal_strlit("screen");
    reveal_strlit("c64screen");
    reveal_strlit("png");
    reveal_strlit("monitor");
    reveal_strlit("cart-save");
    reveal_strlit("expect");
    reveal_strlit("expect-not");
    reveal_strlit("expect-console");
    reveal_strlit("expect-c64");
    reveal_strlit("usb-sync");
    reveal_strlit("usb-replug");
    reveal_strlit("usb-plug");
    reveal_strlit("usb-unplug");
    reveal_strlit("cart-info");
    reveal_strlit("quit");
}

proof fn wait_is_read(rest: Seq<char>)
    ensures
        crate::parse::meaning("wait"@, rest) == crate::parse::timed_meaning("wait"@, crate::text::words(rest)),
{
    reveal(crate::parse::meaning);
    command_words();
}

proof fn button_is_read(rest: Seq<char>)
    ensures
        crate::parse::meaning("button"@, rest) == crate::parse::timed_meaning("button"@, crate::text::words(rest)),
{
    reveal(crate::parse::meaning);
    command_words();
}

proof fn key_is_read(rest: Seq<char>)
    ensures
        crate::parse::meaning("key"@, rest) == crate::parse::key_meaning("key"@, crate::text::words(rest)),
{
    reveal(crate::parse::meaning);
    command_words();
}

proof fn hold_is_read(rest: Seq<char>)
    ensures
        crate::parse::meaning("hold"@, rest) == crate::parse::hold_meaning("hold"@, crate::text::words(rest)),
{
    reveal(crate::parse::meaning);
    command_words();
}

proof fn release_is_read(rest: Seq<char>)
    ensures
        crate::parse::meaning("release"@, rest) == crate::parse::hold_meaning("release"@, crate::text::words(rest)),
{
    reveal(crate::parse::meaning);
    command_words();
}

proof fn type_is_read(rest: Seq<char>)
    ensures
        crate::parse::meaning("type"@, rest) == crate::parse::type_meaning(rest),
{
    reveal(crate::parse::meaning);
    command_words();
}

proof fn usbkey_is_read(rest: Seq<char>)
    ensures
        crate::parse::meaning("usbkey"@, rest) == crate::parse::usbkey_meaning("usbkey"@, crate::text::words(rest)),
{
    reveal(crate::parse::meaning);
    command_words();
}

proof fn joy_is_read(rest: Seq<char>)
    ensures
        crate::parse::meaning("joy"@, rest) == crate::parse::joy_meaning("joy"@, crate::text::words(rest)),
{
    reveal(crate::parse::meaning);
    command_words();
}

proof fn joy_hold_is_read(rest: Seq<char>)
    ensures
        crate::parse::meaning("joy-hold"@, rest) == crate::parse::joyset_meaning("joy-hold"@, crate::text::words(rest)),
{
    reveal(crate::parse::meaning);
    command_words();
}

proof fn joy_release_is_read(rest: Seq<char>)
    ensures
        crate::parse::meaning("joy-release"@, rest) == crate::parse::joyset_meaning("joy-release"@, crate::text::words(rest)),
{
    reveal(crate::parse::meaning);
    command_words();
}

proof fn usbmouse_is_read(rest: Seq<char>)
    ensures
        crate::parse::meaning("usbmouse"@, rest) == crate::parse::mouse_meaning("usbmouse"@, crate::text::words(rest)),
{
    reveal(crate::parse::meaning);
    command_words();
}

proof fn screen_is_read(rest: Seq<char>)
    ensures
        crate::parse::meaning("screen"@, rest) == crate::parse::plain_meaning("screen"@, crate::text::words(rest), Cmd::Screen),
{
    reveal(crate::parse::meaning);
    command_words();
}

proof fn c64screen_is_read(rest: Seq<char>)
    ensures
        crate::parse::meaning("c64screen"@, rest) == crate::parse::plain_meaning("c64screen"@, crate::text::words(rest), Cmd::C64Screen),
{
    reveal(crate::parse::meaning);
    command_words();
}

proof fn png_is_read(rest: Seq<char>)
    ensures
        crate::parse::meaning("png"@, rest) == crate::parse::path_meaning("png"@, rest),
{
    reveal(crate::parse::meaning);
    command_words();
}

proof fn monitor_is_read(rest: Seq<char>)
    ensures
        crate::parse::meaning("monitor"@, rest) == crate::parse::path_meaning("monitor"@, rest),
{
    reveal(crate::parse::meaning);
    command_words();
}

proof fn cart_save_is_read(rest: Seq<char>)
    ensures
        crate::parse::meaning("cart-save"@, rest) == crate::parse::path_meaning("cart-save"@, rest),
{
    reveal(crate::parse::meaning);
    command_words();
}

proof fn expect_is_read(rest: Seq<char>)
    ensures
        crate::parse::meaning("expect"@, rest) == crate::parse::expect_meaning("expect"@, rest),
{
    reveal(crate::parse::meaning);
    command_words();
}

proof fn expect_not_is_read(rest: Seq<char>)
    ensures
        crate::parse::meaning("expect-not"@, rest) == crate::parse::expect_meaning("expect-not"@, rest),
{
    reveal(crate::parse::meaning);
    command_words();
}

proof fn expect_console_is_read(rest: Seq<char>)
    ensures
        crate::parse::meaning("expect-console"@, rest) == crate::parse::expect_meaning("expect-console"@, rest),
{
    reveal(crate::parse::meaning);
    command_words();
}

proof fn expect_c64_is_read(rest: Seq<char>)
    ensures
        crate::parse::meaning("expect-c64"@, rest) == crate::parse::expect_meaning("expect-c64"@, rest),
{
    reveal(crate::parse::meaning);
    command_words();
}

proof fn usb_sync_is_read(rest: Seq<char>)
    ensures
        crate::parse::meaning("usb-sync"@, rest) == crate::parse::stick_meaning("usb-sync"@, crate::text::words(rest)),
{
    reveal(crate::parse::meaning);
    command_words();
}

proof fn usb_replug_is_read(rest: Seq<char>)
    ensures
        crate::parse::meaning("usb-replug"@, rest) == crate::parse::stick_meaning("usb-replug"@, crate::text::words(rest)),
{
    reveal(crate::parse::meaning);
    command_words();
}

proof fn usb_plug_is_read(rest: Seq<char>)
    ensures
        crate::parse::meaning("usb-plug"@, rest) == crate::parse::plug_meaning("usb-plug"@, crate::text::words(rest)),
{
    reveal(crate::parse::meaning);
    command_words();
}

proof fn usb_unplug_is_read(rest: Seq<char>)
    ensures
        crate::parse::meaning("usb-unplug"@, rest) == crate::parse::plug_meaning("usb-unplug"@, crate::text::words(rest)),
{
    reveal(crate::parse::meaning);
    command_words();
}

proof fn cart_info_is_read(rest: Seq<char>)
    ensures
        crate::parse::meaning("cart-info"@, rest) == crate::parse::plain_meaning("cart-info"@, crate::text::words(rest), Cmd::CartInfo),
{
    reveal(crate::parse::meaning);
    command_words();
}

proof fn quit_is_read(rest: Seq<char>)
    ensures
        crate::parse::meaning("quit"@, rest) == crate::parse::plain_meaning("quit"@, crate::text::words(rest), Cmd::Quit),
{
    reveal(crate::parse::meaning);
    command_words();
}

/// A written-out number is one word.
proof fn a_number_is_a_word(n: nat)
    ensures
        crate::parse_laws::is_word(crate::numbers::decimal(n)),
{
    crate::numbers::decimal_reads_back(n);
    let d = crate::numbers::decimal(n);
    assert forall|i: int| 0 <= i < d.len() implies !crate::text::is_space(#[trigger] d[i]) by {
        assert(crate::numbers::is_digit(d[i]));
    }
}

/// The line of these words says the command `c`.
pub open spec fn says(ws: Seq<Seq<char>>, c: Cmd) -> bool {
    crate::parse::parsed(crate::parse_laws::spaced(ws)) == Ok::<Option<Cmd>, Seq<char>>(Some(c))
}

/// A command that was read, or the complaint.
spec fn outcome(m: Result<Cmd, Seq<char>>) -> Result<Option<Cmd>, Seq<char>> {
    match m {
        Ok(c) => Ok(Some(c)),
        Err(e) => Err(e),
    }
}

/// Lines of one, two, three and four words.
proof fn lines_have_words(w: Seq<char>, a: Seq<char>, b: Seq<char>, c: Seq<char>)
    requires
        crate::parse_laws::is_word(w),
        w[0] != '#',
        crate::parse_laws::is_word(a),
        crate::parse_laws::is_word(b),
        crate::parse_laws::is_word(c),
    ensures
        crate::text::words(crate::parse_laws::spaced(Seq::empty())) == Seq::<Seq<char>>::empty(),
        crate::text::words(crate::parse_laws::spaced(seq![a])) == seq![a],
        crate::text::words(crate::parse_laws::spaced(seq![a, b])) == seq![a, b],
        crate::text::words(crate::parse_laws::spaced(seq![a, b, c])) == seq![a, b, c],
        crate::parse::parsed(crate::parse_laws::spaced(seq![w])) == outcome(
            crate::parse::meaning(w, crate::parse_laws::spaced(Seq::empty())),
        ),
        crate::parse::parsed(crate::parse_laws::spaced(seq![w, a])) == outcome(
            crate::parse::meaning(w, crate::parse_laws::spaced(seq![a])),
        ),
        crate::parse::parsed(crate::parse_laws::spaced(seq![w, a, b])) == outcome(
            crate::parse::meaning(w, crate::parse_laws::spaced(seq![a, b])),
        ),
        crate::parse::parsed(crate::parse_laws::spaced(seq![w, a, b, c])) == outcome(
            crate::parse::meaning(w, crate::parse_laws::spaced(seq![a, b, c])),
        ),
{
    assert(seq![w].skip(1) =~= Seq::empty());
    assert(seq![w, a].skip(1) =~= seq![a]);
    assert(seq![w, a, b].skip(1) =~= seq![a, b]);
    assert(seq![w, a, b, c].skip(1) =~= seq![a, b, c]);
    crate::parse_laws::a_line_is_a_command_and_arguments(seq![w]);
    crate::parse_laws::a_line_is_a_command_and_arguments(seq![w, a]);
    crate::parse_laws::a_line_is_a_command_and_arguments(seq![w, a, b]);
    crate::parse_laws::a_line_is_a_command_and_arguments(seq![w, a, b, c]);
}

/// `wait` and `button` with a time mean that time; a button without one is held for a
/// tenth of a second, and a wait needs one.
pub proof fn waits_and_buttons(ms: u64)
    ensures
        says(seq!["wait"@, crate::numbers::decimal(ms as nat)], Cmd::Wait(ms)),
        says(seq!["button"@, crate::numbers::decimal(ms as nat)], Cmd::Button(ms)),
        says(seq!["button"@], Cmd::Button(100)),
{
    let d = crate::numbers::decimal(ms as nat);
    command_words();
    plain_words();
    a_number_is_a_word(ms as nat);
    crate::command_laws::numbers_mean_themselves(ms as nat, u64::MAX as nat);
    lines_have_words("wait"@, d, d, d);
    lines_have_words("button"@, d, d, d);
    wait_is_read(crate::parse_laws::spaced(seq![d]));
    button_is_read(crate::parse_laws::spaced(seq![d]));
    button_is_read(crate::parse_laws::spaced(Seq::empty()));
}

/// The words of the commands hold no white space.
proof fn plain_words()
    ensures
        crate::parse_laws::is_word("wait"@),
        crate::parse_laws::is_word("button"@),
        crate::parse_laws::is_word("key"@),
        crate::parse_laws::is_word("hold"@),
        crate::parse_laws::is_word("release"@),
        crate::parse_laws::is_word("type"@),
        crate::parse_laws::is_word("usbkey"@),
        crate::parse_laws::is_word("joy"@),
        crate::parse_laws::is_word("joy-hold"@),
        crate::parse_laws::is_word("joy-release"@),
        crate::parse_laws::is_word("usbmouse"@),
        crate::parse_laws::is_word("screen"@),
        crate::parse_laws::is_word("c64screen"@),
        crate::parse_laws::is_word("png"@),
        crate::parse_laws::is_word("monitor"@),
        crate::parse_laws::is_word("cart-save"@),
        crate::parse_laws::is_word("expect"@),
        crate::parse_laws::is_word("expect-not"@),
        crate::parse_laws::is_word("expect-console"@),
        crate::parse_laws::is_word("expect-c64"@),
        crate::parse_laws::is_word("usb-sync"@),
        crate::parse_laws::is_word("usb-replug"@),
        crate::parse_laws::is_word("usb-plug"@),
        crate::parse_laws::is_word("usb-unplug"@),
        crate::parse_laws::is_word("cart-info"@),
        crate::parse_laws::is_word("quit"@),
{
    reveal_strlit("wait");
    reveal_strlit("button");
    reveal_strlit("key");
    reveal_strlit("hold");
    reveal_strlit("release");
    reveal_strlit("type");
    reveal_strlit("usbkey");
    reveal_strlit("joy");
    reveal_strlit("joy-hold");
    reveal_strlit("joy-release");
    reveal_strlit("usbmouse");
    reveal_strlit("screen");
    reveal_strlit("c64screen");
    reveal_strlit("png");
    reveal_strlit("monitor");
    reveal_strlit("cart-save");
    reveal_strlit("expect");
    reveal_strlit("expect-not");
    reveal_strlit("expect-console");
    reveal_strlit("expect-c64");
    reveal_strlit("usb-sync");
    reveal_strlit("usb-replug");
    reveal_strlit("usb-plug");
    reveal_strlit("usb-unplug");
    reveal_strlit("cart-info");
    reveal_strlit("quit");
}

/// A key that is pressed, for the given time or 80 ms, and keys that are held and let go.
pub proof fn keys_are_pressed(name: Seq<char>, ms: u64)
    requires
        crate::parse_laws::is_word(name),
        !name.contains('+'),
        crate::keymap::named_key(name) is Some,
    ensures
        ({
            let k = crate::keymap::named_key(name)->0;
            &&& says(seq!["key"@, name, crate::numbers::decimal(ms as nat)], Cmd::Key(k, ms))
            &&& says(seq!["key"@, name], Cmd::Key(k, 80))
            &&& says(seq!["hold"@, name], Cmd::Hold(seq![k]))
            &&& says(seq!["release"@, name], Cmd::Release(seq![k]))
        }),
{
    let d = crate::numbers::decimal(ms as nat);
    let k = crate::keymap::named_key(name)->0;
    command_words();
    plain_words();
    a_number_is_a_word(ms as nat);
    crate::command_laws::numbers_mean_themselves(ms as nat, u64::MAX as nat);
    crate::command_laws::chords_are_key_by_key(seq![name], 0);
    one_key(name);
    lines_have_words("key"@, name, d, d);
    lines_have_words("hold"@, name, d, d);
    lines_have_words("release"@, name, d, d);
    key_is_read(crate::parse_laws::spaced(seq![name, d]));
    key_is_read(crate::parse_laws::spaced(seq![name]));
    hold_is_read(crate::parse_laws::spaced(seq![name]));
    release_is_read(crate::parse_laws::spaced(seq![name]));
}

proof fn one_key(name: Seq<char>)
    requires
        !name.contains('+'),
        crate::keymap::named_key(name) is Some,
    ensures
        crate::command::keys_named(name) == Ok::<Seq<crate::keymap::MatrixKey>, Seq<char>>(
            seq![crate::keymap::named_key(name)->0],
        ),
{
    assert(seq![name].drop_last() =~= Seq::empty());
    assert(crate::command::keys_of(Seq::empty()) == Ok::<
        Seq<crate::keymap::MatrixKey>,
        Seq<char>,
    >(Seq::empty()));
    assert(Seq::empty().push(crate::keymap::named_key(name)->0)
        =~= seq![crate::keymap::named_key(name)->0]);
}

/// A key of the USB keyboard, for the given time or 80 ms.
pub proof fn usb_keys_are_pressed(name: Seq<char>, ms: u64)
    requires
        crate::parse_laws::is_word(name),
        crate::usb::named_usage(name) is Some,
    ensures
        ({
            let u = crate::usb::named_usage(name)->0;
            &&& says(seq!["usbkey"@, name, crate::numbers::decimal(ms as nat)], Cmd::UsbKey(u, ms))
            &&& says(seq!["usbkey"@, name], Cmd::UsbKey(u, 80))
        }),
{
    let d = crate::numbers::decimal(ms as nat);
    command_words();
    plain_words();
    a_number_is_a_word(ms as nat);
    crate::command_laws::numbers_mean_themselves(ms as nat, u64::MAX as nat);
    lines_have_words("usbkey"@, name, d, d);
    usbkey_is_read(crate::parse_laws::spaced(seq![name, d]));
    usbkey_is_read(crate::parse_laws::spaced(seq![name]));
}

/// Joystick lines are pulled on the named control port, for the given time, for 80 ms, or
/// until they are let go.
pub proof fn joysticks_are_moved(port: u8, names: Seq<char>, ms: u64)
    requires
        1 <= port <= 2,
        crate::parse_laws::is_word(names),
        crate::command::lines_named(names) is Ok,
    ensures
        ({
            let p = crate::numbers::decimal(port as nat);
            let l = crate::command::lines_named(names)->Ok_0;
            &&& l != 0xFF ==> says(
                seq!["joy"@, p, names, crate::numbers::decimal(ms as nat)],
                Cmd::Joy(port, l, ms),
            )
            &&& l != 0xFF ==> says(seq!["joy"@, p, names], Cmd::Joy(port, l, 80))
            &&& l == 0xFF ==> says(seq!["joy"@, p, names], Cmd::JoySet(port, 0xFF))
            &&& says(seq!["joy-hold"@, p, names], Cmd::JoySet(port, l))
            &&& says(seq!["joy-release"@, p], Cmd::JoySet(port, 0xFF))
        }),
{
    let d = crate::numbers::decimal(ms as nat);
    let p = crate::numbers::decimal(port as nat);
    command_words();
    plain_words();
    a_number_is_a_word(ms as nat);
    a_number_is_a_word(port as nat);
    crate::command_laws::numbers_mean_themselves(ms as nat, u64::MAX as nat);
    crate::command_laws::ports_are_few(port as nat);
    lines_have_words("joy"@, p, names, d);
    lines_have_words("joy-hold"@, p, names, d);
    lines_have_words("joy-release"@, p, names, d);
    joy_is_read(crate::parse_laws::spaced(seq![p, names, d]));
    joy_is_read(crate::parse_laws::spaced(seq![p, names]));
    joy_hold_is_read(crate::parse_laws::spaced(seq![p, names]));
    joy_release_is_read(crate::parse_laws::spaced(seq![p]));
}

/// The mouse moves by the two numbers, right and then down, with the low three bits of
/// its buttons, or with none.
pub proof fn the_mouse_moves(x: nat, y: nat, b: u8)
    requires
        x < 0x8000_0000,
        y < 0x8000_0000,
    ensures
        ({
            let dx = crate::numbers::decimal(x);
            let dy = crate::numbers::decimal(y);
            &&& says(
                seq!["usbmouse"@, dx, dy, crate::numbers::decimal(b as nat)],
                Cmd::UsbMouse(x as int, y as int, (b % 8) as u8),
            )
            &&& says(seq!["usbmouse"@, dx, dy], Cmd::UsbMouse(x as int, y as int, 0))
            &&& says(
                seq!["usbmouse"@, seq!['-'] + dx, seq!['-'] + dy],
                Cmd::UsbMouse(-(x as int), -(y as int), 0),
            )
        }),
{
    let dx = crate::numbers::decimal(x);
    let dy = crate::numbers::decimal(y);
    let d = crate::numbers::decimal(b as nat);
    let nx = seq!['-'] + dx;
    let ny = seq!['-'] + dy;
    command_words();
    plain_words();
    a_number_is_a_word(x);
    a_number_is_a_word(y);
    a_number_is_a_word(b as nat);
    crate::command_laws::signed_numbers_mean_themselves(x);
    crate::command_laws::signed_numbers_mean_themselves(y);
    crate::command_laws::numbers_mean_themselves(b as nat, 255);
    assert(b & 7 == b % 8 && 0u8 & 7u8 == 0) by (bit_vector);
    assert forall|i: int| 0 <= i < nx.len() implies !crate::text::is_space(#[trigger] nx[i]) by {
        assert(i > 0 ==> nx[i] == dx[i - 1]);
    }
    assert forall|i: int| 0 <= i < ny.len() implies !crate::text::is_space(#[trigger] ny[i]) by {
        assert(i > 0 ==> ny[i] == dy[i - 1]);
    }
    lines_have_words("usbmouse"@, dx, dy, d);
    assert(crate::parse_laws::is_word(nx) && crate::parse_laws::is_word(ny));
    lines_have_words("usbmouse"@, nx, ny, d);
    usbmouse_is_read(crate::parse_laws::spaced(seq![dx, dy, d]));
    usbmouse_is_read(crate::parse_laws::spaced(seq![dx, dy]));
    usbmouse_is_read(crate::parse_laws::spaced(seq![nx, ny]));
    assert(says(seq!["usbmouse"@, dx, dy, d], Cmd::UsbMouse(x as int, y as int, (b % 8) as u8)));
    assert(says(seq!["usbmouse"@, dx, dy], Cmd::UsbMouse(x as int, y as int, 0u8 & 7u8)));
    assert(says(seq!["usbmouse"@, nx, ny], Cmd::UsbMouse(-(x as int), -(y as int), 0u8 & 7u8)));
}

/// The commands of one word.
pub proof fn single_words()
    ensures
        says(seq!["screen"@], Cmd::Screen),
        says(seq!["c64screen"@], Cmd::C64Screen),
        says(seq!["cart-info"@], Cmd::CartInfo),
        says(seq!["quit"@], Cmd::Quit),
{
    let none = Seq::<Seq<char>>::empty();
    command_words();
    plain_words();
    a_number_is_a_word(0);
    let d = crate::numbers::decimal(0);
    lines_have_words("screen"@, d, d, d);
    lines_have_words("c64screen"@, d, d, d);
    lines_have_words("cart-info"@, d, d, d);
    lines_have_words("quit"@, d, d, d);
    screen_is_read(crate::parse_laws::spaced(none));
    c64screen_is_read(crate::parse_laws::spaced(none));
    cart_info_is_read(crate::parse_laws::spaced(none));
    quit_is_read(crate::parse_laws::spaced(none));
}

/// A device is plugged in at a hub port, or what is there is pulled.
pub proof fn devices_are_plugged(port: u8, path: Seq<char>)
    requires
        1 <= port <= 3,
        crate::parse_laws::is_word(path),
    ensures
        ({
            let p = crate::numbers::decimal(port as nat);
            &&& says(
                seq!["usb-plug"@, p, "image"@, path],
                Cmd::UsbPlug(port, Some(Plugged::Image(path))),
            )
            &&& says(
                seq!["usb-plug"@, p, "keyboard"@],
                Cmd::UsbPlug(port, Some(Plugged::Keyboard)),
            )
            &&& says(seq!["usb-plug"@, p, "mouse"@], Cmd::UsbPlug(port, Some(Plugged::Mouse)))
            &&& says(seq!["usb-unplug"@, p], Cmd::UsbPlug(port, None))
        }),
{
    let p = crate::numbers::decimal(port as nat);
    command_words();
    plain_words();
    a_number_is_a_word(port as nat);
    crate::command_laws::ports_are_few(port as nat);
    reveal_strlit("image");
    reveal_strlit("keyboard");
    reveal_strlit("mouse");
    assert("keyboard"@.len() == 8 && "mouse"@.len() == 5);
    lines_have_words("usb-plug"@, p, "image"@, path);
    lines_have_words("usb-plug"@, p, "keyboard"@, path);
    lines_have_words("usb-plug"@, p, "mouse"@, path);
    lines_have_words("usb-unplug"@, p, path, path);
    usb_plug_is_read(crate::parse_laws::spaced(seq![p, "image"@, path]));
    usb_plug_is_read(crate::parse_laws::spaced(seq![p, "keyboard"@]));
    usb_plug_is_read(crate::parse_laws::spaced(seq![p, "mouse"@]));
    usb_unplug_is_read(crate::parse_laws::spaced(seq![p]));
}

/// A text is expected on the screen, not on the screen, on the console or on the C64's
/// screen, for five seconds or the given time.
pub proof fn texts_are_expected(rest: Seq<char>, ms: u64)
    requires
        crate::command::text_argument(rest) is Ok,
        crate::command::text_argument(rest)->Ok_0.0.len() > 0,
    ensures
        ({
            let (text, after) = crate::command::text_argument(rest)->Ok_0;
            let more = crate::text::words(after);
            let t = if more.len() == 0 {
                5000u64
            } else {
                ms
            };
            more.len() == 0 || more == seq![crate::numbers::decimal(ms as nat)] ==> {
                &&& crate::parse::meaning("expect"@, rest) == Ok::<Cmd, Seq<char>>(
                    Cmd::Expect(text, t),
                )
                &&& crate::parse::meaning("expect-not"@, rest) == Ok::<Cmd, Seq<char>>(
                    Cmd::ExpectNot(text, t),
                )
                &&& crate::parse::meaning("expect-console"@, rest) == Ok::<Cmd, Seq<char>>(
                    Cmd::ExpectConsole(text, t),
                )
                &&& crate::parse::meaning("expect-c64"@, rest) == Ok::<Cmd, Seq<char>>(
                    Cmd::ExpectC64(text, t),
                )
            }
        }),
{
    command_words();
    expect_is_read(rest);
    expect_not_is_read(rest);
    expect_console_is_read(rest);
    expect_c64_is_read(rest);
    crate::command_laws::numbers_mean_themselves(ms as nat, u64::MAX as nat);
}

/// A path or a monitor command runs to the end of the line; what is typed is all of it.
pub proof fn the_rest_of_the_line(rest: Seq<char>)
    requires
        crate::text::trim(rest).len() > 0,
    ensures
        crate::parse::meaning("png"@, rest) == Ok::<Cmd, Seq<char>>(
            Cmd::Png(crate::text::trim(rest)),
        ),
        crate::parse::meaning("monitor"@, rest) == Ok::<Cmd, Seq<char>>(
            Cmd::Monitor(crate::text::trim(rest)),
        ),
        crate::parse::meaning("cart-save"@, rest) == Ok::<Cmd, Seq<char>>(
            Cmd::CartSave(crate::text::trim(rest)),
        ),
        crate::command::typed(rest) matches Ok(keys) ==> crate::parse::meaning("type"@, rest)
            == Ok::<Cmd, Seq<char>>(Cmd::Type(keys)),
{
    command_words();
    png_is_read(rest);
    monitor_is_read(rest);
    cart_save_is_read(rest);
    type_is_read(rest);
    assert(rest.len() > 0) by {
        if rest.len() == 0 {
            assert(rest =~= Seq::empty());
            assert(crate::text::trim_start(rest).len() == 0);
        }
    }
}

/// A stick is saved or swapped at the named port or at the only one, with the flag
/// before the port or behind it.
pub proof fn sticks_are_saved_and_swapped(port: u8)
    requires
        1 <= port <= 3,
    ensures
        ({
            let p = crate::numbers::decimal(port as nat);
            &&& says(seq!["usb-sync"@], Cmd::UsbSync(None, false))
            &&& says(seq!["usb-sync"@, p], Cmd::UsbSync(Some(port), false))
            &&& says(seq!["usb-sync"@, "--force"@], Cmd::UsbSync(None, true))
            &&& says(seq!["usb-sync"@, p, "--force"@], Cmd::UsbSync(Some(port), true))
            &&& says(seq!["usb-sync"@, "--force"@, p], Cmd::UsbSync(Some(port), true))
            &&& says(seq!["usb-replug"@], Cmd::UsbReplug(None, false))
            &&& says(seq!["usb-replug"@, p], Cmd::UsbReplug(Some(port), false))
            &&& says(seq!["usb-replug"@, "--discard"@], Cmd::UsbReplug(None, true))
            &&& says(seq!["usb-replug"@, p, "--discard"@], Cmd::UsbReplug(Some(port), true))
            &&& says(seq!["usb-replug"@, "--discard"@, p], Cmd::UsbReplug(Some(port), true))
        }),
{
    let none = Seq::<Seq<char>>::empty();
    let p = crate::numbers::decimal(port as nat);
    let f = "--force"@;
    let g = "--discard"@;
    command_words();
    plain_words();
    reveal_strlit("--force");
    reveal_strlit("--discard");
    a_number_is_a_word(port as nat);
    crate::numbers::decimal_reads_back(port as nat);
    assert(crate::numbers::is_digit(p[0]));
    crate::command_laws::ports_are_few(port as nat);
    lines_have_words("usb-sync"@, p, f, f);
    lines_have_words("usb-sync"@, f, p, f);
    lines_have_words("usb-replug"@, p, g, g);
    lines_have_words("usb-replug"@, g, p, g);
    flags_and_ports("usb-sync"@, f, port);
    flags_and_ports("usb-replug"@, g, port);
    usb_sync_is_read(crate::parse_laws::spaced(none));
    usb_sync_is_read(crate::parse_laws::spaced(seq![p]));
    usb_sync_is_read(crate::parse_laws::spaced(seq![f]));
    usb_sync_is_read(crate::parse_laws::spaced(seq![p, f]));
    usb_sync_is_read(crate::parse_laws::spaced(seq![f, p]));
    usb_replug_is_read(crate::parse_laws::spaced(none));
    usb_replug_is_read(crate::parse_laws::spaced(seq![p]));
    usb_replug_is_read(crate::parse_laws::spaced(seq![g]));
    usb_replug_is_read(crate::parse_laws::spaced(seq![p, g]));
    usb_replug_is_read(crate::parse_laws::spaced(seq![g, p]));
}

/// The flag and the port, in either order.
proof fn flags_and_ports(word: Seq<char>, flag: Seq<char>, port: u8)
    requires
        1 <= port <= 3,
        flag.len() > 0,
        flag[0] == '-',
    ensures
        ({
            let p = crate::numbers::decimal(port as nat);
            let read = |args: Seq<Seq<char>>| crate::command::flag_and_port(args, word, flag);
            &&& read(Seq::empty()) == Ok::<(Option<u8>, bool), Seq<char>>((None, false))
            &&& read(seq![p]) == Ok::<(Option<u8>, bool), Seq<char>>((Some(port), false))
            &&& read(seq![flag]) == Ok::<(Option<u8>, bool), Seq<char>>((None, true))
            &&& read(seq![p, flag]) == Ok::<(Option<u8>, bool), Seq<char>>((Some(port), true))
            &&& read(seq![flag, p]) == Ok::<(Option<u8>, bool), Seq<char>>((Some(port), true))
        }),
{
    let p = crate::numbers::decimal(port as nat);
    crate::numbers::decimal_reads_back(port as nat);
    assert(crate::numbers::is_digit(p[0]));
    crate::command_laws::ports_are_few(port as nat);
    reveal_with_fuel(crate::command::flag_and_port, 3);
    assert(seq![p].drop_last() =~= Seq::empty());
    assert(seq![flag].drop_last() =~= Seq::empty());
    assert(seq![p, flag].drop_last() =~= seq![p]);
    assert(seq![flag, p].drop_last() =~= seq![flag]);
}

/// A command with too few or too many words behind it is refused.
pub proof fn miscounted_words_are_refused(rest: Seq<char>)
    ensures
        ({
            let n = crate::text::words(rest).len();
            let bad = |word: Seq<char>| crate::parse::meaning(word, rest) is Err;
            &&& n != 1 ==> bad("wait"@) && bad("hold"@) && bad("release"@) && bad("joy-release"@)
                && bad("usb-unplug"@)
            &&& n > 1 ==> bad("button"@)
            &&& n == 0 || n > 2 ==> bad("key"@) && bad("usbkey"@)
            &&& n < 2 || n > 3 ==> bad("joy"@) && bad("usbmouse"@) && bad("usb-plug"@)
            &&& n != 2 ==> bad("joy-hold"@)
            &&& n != 0 ==> bad("screen"@) && bad("c64screen"@) && bad("cart-info"@) && bad("quit"@)
            &&& rest.len() == 0 ==> bad("type"@)
            &&& crate::text::trim(rest).len() == 0 ==> bad("png"@) && bad("monitor"@) && bad(
                "cart-save"@,
            )
        }),
{
    command_words();
    wait_is_read(rest);
    button_is_read(rest);
    key_is_read(rest);
    hold_is_read(rest);
    release_is_read(rest);
    type_is_read(rest);
    usbkey_is_read(rest);
    joy_is_read(rest);
    joy_hold_is_read(rest);
    joy_release_is_read(rest);
    usbmouse_is_read(rest);
    usb_plug_is_read(rest);
    usb_unplug_is_read(rest);
    screen_is_read(rest);
    c64screen_is_read(rest);
    cart_info_is_read(rest);
    quit_is_read(rest);
    png_is_read(rest);
    monitor_is_read(rest);
    cart_save_is_read(rest);
}

/// What is wrong in one word is refused as well: a time that is no number, a key or a
/// direction that is not known, a port that is not there.
pub proof fn bad_words_are_refused(rest: Seq<char>)
    ensures
        ({
            let args = crate::text::words(rest);
            let bad = |word: Seq<char>| crate::parse::meaning(word, rest) is Err;
            let number = |i: int| crate::numbers::unsigned(args[i], u64::MAX as nat) is Some;
            &&& args.len() == 1 && !number(0) ==> bad("wait"@) && bad("button"@)
            &&& args.len() == 2 && !number(1) ==> bad("key"@) && bad("usbkey"@)
            &&& args.len() == 3 && !number(2) ==> bad("joy"@)
            &&& args.len() > 0 && crate::command::keys_named(args[0]) is Err ==> bad("key"@) && bad(
                "hold"@,
            ) && bad("release"@)
            &&& args.len() > 0 && crate::usb::named_usage(args[0]) is None ==> bad("usbkey"@)
            &&& args.len() > 0 && crate::command::control_port(args[0]) is Err ==> bad("joy"@) && bad(
                "joy-hold"@,
            ) && bad("joy-release"@)
            &&& args.len() > 1 && crate::command::lines_named(args[1]) is Err ==> bad("joy"@) && bad(
                "joy-hold"@,
            )
            &&& args.len() > 0 && crate::command::hub_port(args[0]) is Err ==> bad("usb-plug"@)
                && bad("usb-unplug"@)
            &&& args.len() > 0 && crate::numbers::signed(args[0]) is None ==> bad("usbmouse"@)
            &&& args.len() > 1 && crate::numbers::signed(args[1]) is None ==> bad("usbmouse"@)
            &&& args.len() == 3 && crate::numbers::unsigned(args[2], 255) is None ==> bad(
                "usbmouse"@,
            )
        }),
{
    command_words();
    wait_is_read(rest);
    button_is_read(rest);
    key_is_read(rest);
    hold_is_read(rest);
    release_is_read(rest);
    usbkey_is_read(rest);
    joy_is_read(rest);
    joy_hold_is_read(rest);
    joy_release_is_read(rest);
    usbmouse_is_read(rest);
    usb_plug_is_read(rest);
    usb_unplug_is_read(rest);
}

/// A word that is no command is refused, whatever follows it.
pub proof fn unknown_commands_are_refused(word: Seq<char>, rest: Seq<char>)
    ensures
        crate::parse::meaning(word, rest) is Ok ==> word == "wait"@ || word == "button"@ || word == "key"@ || word == "hold"@ || word == "release"@ || word == "type"@ || word == "usbkey"@ || word == "joy"@ || word == "joy-hold"@ || word == "joy-release"@ || word == "wasd-joy"@ || word == "usbmouse"@ || word == "screen"@ || word == "c64screen"@ || word == "png"@ || word == "monitor"@ || word == "cart-save"@ || word == "expect"@ || word == "expect-not"@ || word == "expect-console"@ || word == "expect-c64"@ || word == "usb-sync"@ || word == "usb-replug"@ || word == "usb-plug"@ || word == "usb-unplug"@ || word == "cart-info"@ || word == "quit"@,
{
    reveal(crate::parse::meaning);
}

/// A stick that rests takes no time, a device is one of three, a text that is expected is
/// not empty and has at most a time behind it.
pub proof fn odd_words_are_refused(rest: Seq<char>)
    ensures
        ({
            let args = crate::text::words(rest);
            let bad = |word: Seq<char>| crate::parse::meaning(word, rest) is Err;
            &&& args.len() == 3 && crate::command::lines_named(args[1]) == Ok::<u8, Seq<char>>(0xFF)
                ==> bad("joy"@)
            &&& args.len() == 2 && args[1] != "keyboard"@ && args[1] != "mouse"@ ==> bad("usb-plug"@)
            &&& args.len() == 3 && args[1] != "image"@ ==> bad("usb-plug"@)
            &&& crate::command::text_argument(rest) is Err ==> bad("expect"@) && bad("expect-not"@)
                && bad("expect-console"@) && bad("expect-c64"@)
            &&& crate::command::text_argument(rest) matches Ok((text, after)) ==> {
                let more = crate::text::words(after);
                text.len() == 0 || more.len() > 1 || (more.len() == 1 && crate::numbers::unsigned(
                    more[0],
                    u64::MAX as nat,
                ) is None) ==> bad("expect"@) && bad("expect-not"@) && bad("expect-console"@) && bad(
                    "expect-c64"@,
                )
            }
        }),
{
    command_words();
    joy_is_read(rest);
    usb_plug_is_read(rest);
    expect_is_read(rest);
    expect_not_is_read(rest);
    expect_console_is_read(rest);
    expect_c64_is_read(rest);
}

/// Of a flag and a port each may be given once, and nothing else.
pub proof fn flags_and_ports_once(args: Seq<Seq<char>>, word: Seq<char>, flag: Seq<char>)
    requires
        flag.len() > 0,
        flag[0] == '-',
    ensures
        args.len() > 2 ==> crate::command::flag_and_port(args, word, flag) is Err,
        args.len() == 2 && args[0] == flag && args[1] == flag ==> crate::command::flag_and_port(
            args,
            word,
            flag,
        ) is Err,
        crate::command::flag_and_port(args, word, flag) matches Ok((port, flagged)) ==> {
            &&& flagged == args.contains(flag)
            &&& args.len() == (if port is Some {
                1int
            } else {
                0
            }) + (if flagged {
                1int
            } else {
                0
            })
            &&& port matches Some(p) ==> exists|i: int|
                0 <= i < args.len() && #[trigger] crate::command::hub_port(args[i]) == Ok::<
                    u8,
                    Seq<char>,
                >(p)
        },
    decreases args.len(),
{
    if args.len() > 0 {
        let rest = args.drop_last();
        flags_and_ports_once(rest, word, flag);
        assert(args =~= rest.push(args.last()));
        if let Ok((port, flagged)) = crate::command::flag_and_port(args, word, flag) {
            let (before, was) = crate::command::flag_and_port(rest, word, flag)->Ok_0;
            if rest.contains(flag) {
                let k = choose|k: int| 0 <= k < rest.len() && rest[k] == flag;
                assert(args[k] == flag);
            }
            if args.contains(flag) && args.last() != flag {
                let k = choose|k: int| 0 <= k < args.len() && args[k] == flag;
                assert(rest[k] == flag);
            }
            if args.last() == flag {
                assert(args[args.len() - 1] == flag);
            }
            if before is Some {
                let i = choose|i: int|
                    0 <= i < rest.len() && #[trigger] crate::command::hub_port(rest[i]) == Ok::<
                        u8,
                        Seq<char>,
                    >(before->0);
                assert(crate::command::hub_port(args[i]) == Ok::<u8, Seq<char>>(before->0));
            } else if port is Some {
                assert(crate::command::hub_port(args[args.len() - 1]) == Ok::<u8, Seq<char>>(
                    port->0,
                ));
            }
        }
    } else {
        assert(!args.contains(flag));
    }
}

} // verus!
