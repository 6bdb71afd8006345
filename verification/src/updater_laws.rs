//! What holds of the updater's dialogue as a whole: a popup that is drawn is read back,
//! and an answer that is typed is the button that was meant.
use crate::c64_state::PortState;
use crate::c64host::{C64Backend, Peek};
use crate::cart_bits::byte_bits;
use crate::install::{Answers, Chosen};
use crate::updater::{Button, Question};
use vstd::prelude::*;

verus! {

/// The text screen is read row by row from `$0400`, forty codes a row, each without its
/// reverse bit.
pub proof fn the_screen_is_read_in_order<B: C64Backend>(p: PortState<B::State>, y: int, x: int)
    requires
        0 <= y < 25,
        0 <= x < 40,
        p.c64 is Some,
    ensures
        crate::updater::code_at::<B>(p, y, x) == B::byte(
            p.c64->0,
            Peek::Dma((0x0400 + 40 * y + x) as u16),
        ) % 128,
{
    reveal(crate::c64_state::peeked);
    byte_bits(B::byte(p.c64->0, Peek::Dma((0x0400 + 40 * y + x) as u16)));
}

/// The codes of a button's label.
pub open spec fn label_codes(b: Button) -> Seq<u8> {
    match b {
        Button::Okay => seq![0x4Fu8, 0x6Bu8],
        Button::Yes => seq![0x59u8, 0x65u8, 0x73u8],
        Button::No => seq![0x4Eu8, 0x6Fu8],
        Button::All => seq![0x41u8, 0x6Cu8, 0x6Cu8],
        Button::Cancel => seq![0x43u8, 0x61u8, 0x6Eu8, 0x63u8, 0x65u8, 0x6Cu8],
    }
}

/// A row of buttons as it is drawn: each label with a space on either side.
pub open spec fn drawn(buttons: Seq<Button>) -> Seq<u8>
    decreases buttons.len(),
{
    if buttons.len() == 0 {
        Seq::empty()
    } else {
        seq![0x20u8] + label_codes(buttons[0]) + seq![0x20u8] + drawn(buttons.skip(1))
    }
}

proof fn a_label_runs_to_its_end(word: Seq<u8>, rest: Seq<u8>)
    requires
        forall|i: int| 0 <= i < word.len() ==> #[trigger] word[i] != 0x20,
        rest.len() > 0,
        rest[0] == 0x20,
    ensures
        crate::updater::run(word + rest) == word.len(),
    decreases word.len(),
{
    if word.len() == 0 {
        assert(word + rest =~= rest);
    } else {
        assert((word + rest).skip(1) =~= word.skip(1) + rest);
        assert((word + rest)[0] == word[0]);
        a_label_runs_to_its_end(word.skip(1), rest);
    }
}

proof fn a_label_is_read(b: Button)
    ensures
        crate::updater::labelled(crate::updater::letters(label_codes(b))) == Some(b),
        forall|i: int| 0 <= i < label_codes(b).len() ==> #[trigger] label_codes(b)[i] != 0x20,
        label_codes(b).len() > 0,
{
    reveal_strlit("Ok");
    reveal_strlit("Yes");
    reveal_strlit("No");
    reveal_strlit("All");
    reveal_strlit("Cancel");
    let l = crate::updater::letters(label_codes(b));
    assert(l.len() == label_codes(b).len());
    match b {
        Button::Okay => {
            assert(l =~= "Ok"@);
        },
        Button::Yes => {
            assert(l =~= "Yes"@);
        },
        Button::No => {
            assert(l =~= "No"@);
            assert(l[0] != "Ok"@[0]);
        },
        Button::All => {
            assert(l =~= "All"@);
            assert(l[0] != "Yes"@[0]);
        },
        Button::Cancel => {
            assert(l =~= "Cancel"@);
        },
    }
}

/// A row of buttons that is drawn is read back, button for button.
pub proof fn drawn_buttons_are_read(buttons: Seq<Button>)
    ensures
        crate::updater::labels(drawn(buttons)) == Some(buttons),
    decreases buttons.len(),
{
    let s = drawn(buttons);
    if buttons.len() == 0 {
        assert(buttons =~= Seq::empty());
    } else {
        let b = buttons[0];
        let rest = seq![0x20u8] + drawn(buttons.skip(1));
        a_label_is_read(b);
        assert(s.skip(1) =~= label_codes(b) + rest);
        let t = label_codes(b) + rest;
        a_label_runs_to_its_end(label_codes(b), rest);
        assert(t[0] == label_codes(b)[0]);
        assert(t.take(label_codes(b).len() as int) =~= label_codes(b));
        assert(t.skip(label_codes(b).len() as int) =~= rest);
        assert(rest.skip(1) =~= drawn(buttons.skip(1)));
        drawn_buttons_are_read(buttons.skip(1));
        assert(seq![b] + buttons.skip(1) =~= buttons);
        assert(crate::updater::labels(rest) == Some(buttons.skip(1)));
        assert(crate::updater::labels(t) == Some(buttons));
        assert(s[0] == 0x20);
    }
}

/// A window drawn on the screen, of sides `x1` and `x2`, with its top edge in row `top`,
/// its message in the rows below, a blank row and the buttons in row `y`.
pub open spec fn window_drawn(
    rows: Seq<Seq<u8>>,
    border: u8,
    x1: int,
    x2: int,
    top: int,
    y: int,
    buttons: Seq<Button>,
) -> bool {
    &&& 0 <= top < y - 2
    &&& y < rows.len()
    &&& 0 <= x1 < x2 < 40
    &&& forall|i: int| 0 <= i < rows.len() ==> (#[trigger] rows[i]).len() == 40
    &&& border != 0x20
    &&& forall|i: int| top < i <= y ==> (#[trigger] rows[i])[x1] == border && rows[i][x2] == border
    &&& rows[top][x1] != border
    &&& rows[top][x1] != 0x20
    &&& buttons.len() > 0
    &&& rows[y].subrange(x1 + 1, x2) == drawn(buttons)
    &&& forall|x: int| x1 < x < x2 ==> (#[trigger] rows[y][x]) != border
    &&& forall|x: int| x1 < x < x2 ==> (#[trigger] rows[y - 1][x]) == 0x20
}

proof fn the_other_side_is_found(row: Seq<u8>, b: u8, x: int, x2: int)
    requires
        0 <= x <= x2 < row.len(),
        row[x2] == b,
        forall|i: int| x <= i < x2 ==> #[trigger] row[i] != b,
    ensures
        crate::updater::first_of(row, b, x) == Some(x2),
    decreases x2 - x,
{
    if x < x2 {
        the_other_side_is_found(row, b, x + 1, x2);
    }
}

proof fn the_top_is_found(rows: Seq<Seq<u8>>, b: u8, x1: int, x2: int, top: int, y: int)
    requires
        0 <= top <= y,
        rows[top][x1] != b,
        forall|i: int| top < i <= y ==> (#[trigger] rows[i])[x1] == b && rows[i][x2] == b,
    ensures
        crate::updater::top_of(rows, b, x1, x2, y) == Some(top),
    decreases y - top,
{
    if top < y {
        assert(rows[y][x1] == b);
        the_top_is_found(rows, b, x1, x2, top, y - 1);
    }
}

/// A window that is drawn is found: its buttons are the ones drawn, and its message is
/// what stands in its message rows, one line for each from the top down.
pub proof fn drawn_windows_are_found(
    rows: Seq<Seq<u8>>,
    border: u8,
    x1: int,
    x2: int,
    top: int,
    y: int,
    buttons: Seq<Button>,
)
    requires
        window_drawn(rows, border, x1, x2, top, y, buttons),
    ensures
        crate::updater::popup_in(rows, y, x1) matches Some(q) && {
            &&& q.buttons == buttons
            &&& top == y - 3 ==> q.message == crate::updater::inner(rows[y - 2], x1, x2)
            &&& top == y - 4 ==> q.message == crate::updater::inner(rows[y - 3], x1, x2) + seq!['\n']
                + crate::updater::inner(rows[y - 2], x1, x2)
        },
{
    assert(rows[y].len() == 40 && rows[y - 1].len() == 40);
    assert(rows[y][x1] == border && rows[y][x2] == border);
    assert(rows[y - 1][x1] == border && rows[y - 1][x2] == border);
    the_other_side_is_found(rows[y], border, x1 + 1, x2);
    drawn_buttons_are_read(buttons);
    let blank = crate::updater::row_text(rows[y - 1].subrange(x1 + 1, x2));
    assert(crate::text::is_blank(blank)) by {
        assert forall|i: int| 0 <= i < blank.len() implies crate::text::is_space(#[trigger] blank[i]) by {
            assert(rows[y - 1][x1 + 1 + i] == 0x20);
        }
    }
    crate::text::outer_blanks_are_trimmed(blank, Seq::empty(), Seq::empty());
    assert(blank + Seq::empty() + Seq::empty() =~= blank);
    assert(crate::updater::inner(rows[y - 1], x1, x2).len() == 0);
    the_top_is_found(rows, border, x1, x2, top, y - 2);
    reveal_strlit("\n");
    assert("\n"@ =~= seq!['\n']);
    reveal_with_fuel(crate::updater::message, 3);
}

/// What a row shows inside the sides: printable codes as they are, others as `#`,
/// without the space around it.
pub proof fn a_message_row_is_its_text(row: Seq<u8>, x1: int, x2: int, i: int)
    requires
        0 <= x1 < x2 < row.len(),
        x1 < i < x2,
    ensures
        ({
            let t = crate::updater::row_text(row.subrange(x1 + 1, x2));
            &&& t.len() == x2 - x1 - 1
            &&& 0x20 <= row[i] < 0x7F ==> t[i - x1 - 1] as u32 == row[i]
            &&& !(0x20 <= row[i] < 0x7F) ==> t[i - x1 - 1] == '#'
            &&& crate::updater::inner(row, x1, x2) == crate::text::trim(t)
        }),
{
}

/// The popup whose buttons stand highest answers, and in one row the leftmost.
pub proof fn the_highest_popup_answers(rows: Seq<Seq<u8>>, y: int, x: int)
    requires
        2 <= y < rows.len(),
        0 <= x < 40,
        crate::updater::popup_in(rows, y, x) is Some,
        forall|v: int, u: int|
            (2 <= v < y && 0 <= u < 40) || (v == y && 0 <= u < x)
                ==> #[trigger] crate::updater::popup_in(rows, v, u) is None,
    ensures
        crate::updater::popup_below(rows, 2) == crate::updater::popup_in(rows, y, x),
{
    leftmost(rows, y, 0, x);
    highest(rows, 2, y);
}

proof fn none_in_a_row(rows: Seq<Seq<u8>>, y: int, x: int)
    requires
        0 <= x <= 40,
        forall|u: int| x <= u < 40 ==> #[trigger] crate::updater::popup_in(rows, y, u) is None,
    ensures
        crate::updater::popup_from(rows, y, x) is None,
    decreases 40 - x,
{
    if x < 40 {
        none_in_a_row(rows, y, x + 1);
    }
}

proof fn leftmost(rows: Seq<Seq<u8>>, y: int, from: int, x: int)
    requires
        0 <= from <= x < 40,
        crate::updater::popup_in(rows, y, x) is Some,
        forall|u: int| from <= u < x ==> #[trigger] crate::updater::popup_in(rows, y, u) is None,
    ensures
        crate::updater::popup_from(rows, y, from) == crate::updater::popup_in(rows, y, x),
    decreases x - from,
{
    if from < x {
        leftmost(rows, y, from + 1, x);
    }
}

proof fn highest(rows: Seq<Seq<u8>>, from: int, y: int)
    requires
        0 <= from <= y < rows.len(),
        crate::updater::popup_from(rows, y, 0) is Some,
        forall|v: int, u: int|
            from <= v < y && 0 <= u < 40 ==> #[trigger] crate::updater::popup_in(rows, v, u) is None,
    ensures
        crate::updater::popup_below(rows, from) == crate::updater::popup_from(rows, y, 0),
    decreases y - from,
{
    if from < y {
        none_in_a_row(rows, from, 0);
        highest(rows, from + 1, y);
    }
}

/// The screen as text: a row adds its text without the space at its end, and a newline.
pub proof fn rows_are_lines(rows: Seq<Seq<u8>>, row: Seq<u8>)
    ensures
        crate::updater::text_of(rows.push(row)) == crate::updater::text_of(rows)
            + crate::text::trim_end(crate::updater::row_text(row)) + seq!['\n'],
        crate::updater::text_of(Seq::empty()).len() == 0,
{
    reveal_strlit("\n");
    assert("\n"@ =~= seq!['\n']);
    assert(rows.push(row).drop_last() =~= rows);
}

/// A question that offers yes and no is said yes to exactly if its own flag says so, for
/// reformatting and for resetting, and if questions are answered at all, for the others;
/// no is pressed only for the first two, and nothing is pressed without a flag.
pub proof fn yes_needs_its_flag(q: Question, answers: Answers)
    requires
        q.buttons.len() > 1,
        q.buttons.contains(Button::Yes),
        q.buttons.contains(Button::No),
    ensures
        ({
            let format = crate::text::holds(q.message, "Reformat Flash"@);
            let reset = !format && crate::text::holds(q.message, "Reset Configuration"@);
            let flag = if format {
                answers.reformat_flash
            } else if reset {
                answers.reset_config
            } else {
                answers.yes
            };
            &&& (crate::install::chosen(q, answers) == Chosen::Press(Button::Yes)) == flag
            &&& (crate::install::chosen(q, answers) == Chosen::Press(Button::No)) == ((format || reset)
                && !flag && answers.yes)
            &&& (crate::install::chosen(q, answers) == Chosen::Ask) == (!flag && !answers.yes)
        }),
{
}

/// A popup with one button gets that button, whatever it asks.
pub proof fn one_button_is_pressed(q: Question, answers: Answers)
    requires
        q.buttons.len() == 1,
    ensures
        crate::install::chosen(q, answers) == Chosen::Press(q.buttons[0]),
{
}

/// The letters of the buttons are their labels' first letters, made small, and no two
/// buttons share one.
pub proof fn letters_tell_buttons_apart(a: Button, b: Button)
    ensures
        a.label().len() > 1,
        a.letter() == crate::text::lower_char(a.label()[0]),
        a.letter() == b.letter() ==> a == b,
{
    reveal_strlit("Ok");
    reveal_strlit("Yes");
    reveal_strlit("No");
    reveal_strlit("All");
    reveal_strlit("Cancel");
}

/// A letter typed on the terminal, large or small and with white space around it, is the
/// button with that letter, if it is there.
pub proof fn a_typed_letter_is_its_button(
    buttons: Seq<Button>,
    b: Button,
    before: Seq<char>,
    c: char,
    after: Seq<char>,
)
    requires
        buttons.contains(b),
        crate::text::lower_char(c) == b.letter(),
        crate::text::is_blank(before),
        crate::text::is_blank(after),
    ensures
        crate::install::first_named(buttons, before + seq![c] + after, 0) == Some(b),
{
    let text = before + seq![c] + after;
    crate::text::outer_blanks_are_trimmed(before, seq![c], after);
    assert(!crate::text::is_space(c));
    assert(crate::text::trim_end(seq![c]) == seq![c]);
    assert(crate::text::trim(seq![c]) == seq![c]);
    assert(crate::text::lower(seq![c]) =~= seq![b.letter()]);
    assert forall|d: Button| #[trigger] crate::install::names(text, d) implies d == b by {
        letters_tell_buttons_apart(d, b);
        assert(crate::text::lower(d.label()).len() == d.label().len());
        assert(seq![d.letter()][0] == d.letter());
        assert(seq![b.letter()][0] == b.letter());
    }
    assert(crate::install::names(text, b));
    let i = choose|i: int| 0 <= i < buttons.len() && buttons[i] == b;
    named_from(buttons, text, b, 0, i);
}

proof fn named_from(buttons: Seq<Button>, text: Seq<char>, b: Button, from: int, i: int)
    requires
        0 <= from <= i < buttons.len(),
        buttons[i] == b,
        crate::install::names(text, b),
        forall|d: Button| #[trigger] crate::install::names(text, d) ==> d == b,
    ensures
        crate::install::first_named(buttons, text, from) == Some(b),
    decreases i - from,
{
    if !crate::install::names(text, buttons[from]) {
        named_from(buttons, text, b, from + 1, i);
    }
}

/// The times and sizes of an installation: a look every tenth of a second, a second try
/// after two seconds, pages of 256 bytes, the sync word within 4 KiB.
pub proof fn installation_numbers()
    ensures
        crate::install::SCAN_MS == 100,
        crate::install::RETRY_MS == 2000,
        crate::install::FLASH_PAGE == 256,
        crate::install::SYNC_RANGE == 4096,
        crate::install::sync_word() == seq![0xAAu8, 0x99u8, 0x55u8, 0x66u8],
{
}

/// Stripping the returns leaves every other byte, in order.
pub proof fn only_returns_are_stripped(s: Seq<u8>, b: u8)
    ensures
        crate::install::without_returns(s.push(b)) == if b == 13 {
            crate::install::without_returns(s)
        } else {
            crate::install::without_returns(s).push(b)
        },
        crate::install::without_returns(Seq::empty()).len() == 0,
{
    assert(s.push(b).drop_last() =~= s);
}

proof fn where_the_other_side_is(row: Seq<u8>, b: u8, x: int)
    requires
        0 <= x,
    ensures
        match crate::updater::first_of(row, b, x) {
            Some(x2) => x <= x2 < row.len() && row[x2] == b && forall|i: int|
                x <= i < x2 ==> #[trigger] row[i] != b,
            None => forall|i: int| x <= i < row.len() ==> #[trigger] row[i] != b,
        },
    decreases row.len() - x,
{
    if x < row.len() && row[x] != b {
        where_the_other_side_is(row, b, x + 1);
    }
}

proof fn where_the_top_is(rows: Seq<Seq<u8>>, b: u8, x1: int, x2: int, y: int)
    ensures
        match crate::updater::top_of(rows, b, x1, x2, y) {
            Some(top) => 0 <= top <= y && !(rows[top][x1] == b && rows[top][x2] == b) && forall|i: int|
                top < i <= y ==> (#[trigger] rows[i])[x1] == b && rows[i][x2] == b,
            None => true,
        },
    decreases y + 1,
{
    if y >= 0 && crate::updater::bordered(rows[y], b, x1, x2) {
        where_the_top_is(rows, b, x1, x2, y - 1);
    }
}

/// The sides of a window, from its top edge in row `top` to its buttons in row `y`.
pub open spec fn framed(rows: Seq<Seq<u8>>, x1: int, x2: int, top: int, y: int) -> bool {
    let border = rows[y][x1];
    &&& border != 0x20
    &&& x1 < x2 < rows[y].len()
    &&& forall|x: int| x1 < x < x2 ==> #[trigger] rows[y][x] != border
    &&& 0 <= top < y - 2
    &&& forall|i: int| top < i <= y ==> (#[trigger] rows[i])[x1] == border && rows[i][x2] == border
    &&& !(rows[top][x1] == border && rows[top][x2] == border)
    &&& rows[top][x1] != 0x20
    &&& crate::updater::inner(rows[y - 1], x1, x2).len() == 0
}

/// Only windows are found: a popup has both sides from its buttons up to a top edge that
/// is not blank at the corner, at least one row of message, a blank row, and nothing but
/// buttons between its sides in the last row.
pub proof fn only_windows_are_found(rows: Seq<Seq<u8>>, y: int, x1: int)
    requires
        2 <= y < rows.len(),
        0 <= x1,
    ensures
        crate::updater::popup_in(rows, y, x1) matches Some(q) ==> q.buttons.len() > 0 && exists|
            x2: int,
            top: int,
        | #[trigger]
            framed(rows, x1, x2, top, y) && crate::updater::labels(rows[y].subrange(x1 + 1, x2))
                == Some(q.buttons) && q.message == crate::updater::message(
                rows,
                x1,
                x2,
                top + 1,
                y - 1,
            ),
{
    let border = rows[y][x1];
    where_the_other_side_is(rows[y], border, x1 + 1);
    if let Some((buttons, x2)) = crate::updater::buttons_at(rows[y], x1) {
        where_the_top_is(rows, border, x1, x2, y - 2);
        if let Some(top) = crate::updater::top_of(rows, border, x1, x2, y - 2) {
            if crate::updater::popup_in(rows, y, x1) is Some {
                assert(framed(rows, x1, x2, top, y));
            }
        }
    }
}

/// A word that is no label leaves no buttons, and only its own label names a button.
pub proof fn only_labels_are_buttons(s: Seq<u8>, word: Seq<char>)
    ensures
        s.len() > 0 && s[0] != 0x20 && crate::updater::labelled(
            crate::updater::letters(s.take(crate::updater::run(s) as int)),
        ) is None ==> crate::updater::labels(s) is None,
        crate::updater::labelled(word) matches Some(b) ==> word == b.label(),
{
}

/// Each further row of a message is a further line.
pub proof fn messages_are_lines(rows: Seq<Seq<u8>>, x1: int, x2: int, from: int, to: int)
    requires
        0 <= from < to,
    ensures
        crate::updater::message(rows, x1, x2, from, from + 1) == crate::updater::inner(
            rows[from],
            x1,
            x2,
        ),
        crate::updater::message(rows, x1, x2, from, to + 1) == crate::updater::message(
            rows,
            x1,
            x2,
            from,
            to,
        ) + seq!['\n'] + crate::updater::inner(rows[to], x1, x2),
{
    reveal_strlit("\n");
    assert("\n"@ =~= seq!['\n']);
}

proof fn the_first_that_is_named(buttons: Seq<Button>, text: Seq<char>, from: int)
    requires
        0 <= from,
    ensures
        match crate::install::first_named(buttons, text, from) {
            Some(b) => crate::install::names(text, b) && exists|i: int|
                from <= i < buttons.len() && #[trigger] buttons[i] == b,
            None => forall|i: int|
                from <= i < buttons.len() ==> !crate::install::names(text, #[trigger] buttons[i]),
        },
    decreases buttons.len() - from,
{
    if from < buttons.len() {
        if crate::install::names(text, buttons[from]) {
            assert(buttons[from] == buttons[from]);
        } else {
            the_first_that_is_named(buttons, text, from + 1);
        }
    }
}

/// What is typed on the terminal names a button by its letter or by its whole label, in
/// whatever case and with white space around it, and names no button otherwise.
pub proof fn typed_answers(buttons: Seq<Button>, text: Seq<char>, i: int)
    requires
        0 <= i < buttons.len(),
    ensures
        ({
            let t = crate::text::lower(crate::text::trim(text));
            let says = |b: Button| t == seq![b.letter()] || t == crate::text::lower(b.label());
            match crate::install::first_named(buttons, text, 0) {
                Some(b) => says(b) && buttons.contains(b),
                None => !says(buttons[i]),
            }
        }),
{
    the_first_that_is_named(buttons, text, 0);
}

} // verus!
