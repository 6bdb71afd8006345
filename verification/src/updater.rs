//! The updater's popups: how they are found on the C64's text screen, and how its
//! questions are answered.
use crate::c64::C64Port;
use crate::c64_state::{PortState, DMA};
use crate::c64host::C64Backend;
use crate::text::{is, string_of, trimmed};
use vstd::prelude::*;

verus! {

/// Columns of the text screen.
pub const COLS: usize = 40;

/// Rows of the text screen.
pub const ROWS: usize = 25;

/// A popup's buttons.
#[derive(Clone, Copy, Debug, PartialEq, Eq, Structural)]
pub enum Button {
    Okay,
    Yes,
    No,
    All,
    Cancel,
}

impl Button {
    /// What stands on the button.
    pub open spec fn label(self) -> Seq<char> {
        match self {
            Button::Okay => "Ok"@,
            Button::Yes => "Yes"@,
            Button::No => "No"@,
            Button::All => "All"@,
            Button::Cancel => "Cancel"@,
        }
    }

    /// The character whose key presses the button.
    pub open spec fn letter(self) -> char {
        match self {
            Button::Okay => 'o',
            Button::Yes => 'y',
            Button::No => 'n',
            Button::All => 'a',
            Button::Cancel => 'c',
        }
    }

    pub fn name(self) -> (s: &'static str)
        ensures
            s@ == self.label(),
    {
        match self {
            Button::Okay => "Ok",
            Button::Yes => "Yes",
            Button::No => "No",
            Button::All => "All",
            Button::Cancel => "Cancel",
        }
    }

    pub fn key(self) -> (c: char)
        ensures
            c == self.letter(),
    {
        match self {
            Button::Okay => 'o',
            Button::Yes => 'y',
            Button::No => 'n',
            Button::All => 'a',
            Button::Cancel => 'c',
        }
    }
}

/// The button with this label.
pub open spec fn labelled(s: Seq<char>) -> Option<Button> {
    if s == "Ok"@ {
        Some(Button::Okay)
    } else if s == "Yes"@ {
        Some(Button::Yes)
    } else if s == "No"@ {
        Some(Button::No)
    } else if s == "All"@ {
        Some(Button::All)
    } else if s == "Cancel"@ {
        Some(Button::Cancel)
    } else {
        None
    }
}

fn find_label(s: &Vec<char>) -> (b: Option<Button>)
    ensures
        b == labelled(s@),
{
    if is(s, "Ok") {
        Some(Button::Okay)
    } else if is(s, "Yes") {
        Some(Button::Yes)
    } else if is(s, "No") {
        Some(Button::No)
    } else if is(s, "All") {
        Some(Button::All)
    } else if is(s, "Cancel") {
        Some(Button::Cancel)
    } else {
        None
    }
}

/// A popup read from the screen.
#[derive(Debug, PartialEq, Eq)]
pub struct Popup {
    /// Message rows, joined with newlines.
    pub message: String,
    pub buttons: Vec<Button>,
}

/// A popup.
#[verifier::ext_equal]
pub struct Question {
    pub message: Seq<char>,
    pub buttons: Seq<Button>,
}

impl View for Popup {
    type V = Question;

    open spec fn view(&self) -> Question {
        Question { message: self.message@, buttons: self.buttons@ }
    }
}

/// The view of an optional popup.
pub open spec fn asked(p: Option<Popup>) -> Option<Question> {
    match p {
        Some(p) => Some(p@),
        None => None,
    }
}

/// A screen: a row of character codes per line.
pub open spec fn codes(screen: Seq<[u8; 40]>) -> Seq<Seq<u8>> {
    Seq::new(screen.len(), |i: int| screen[i]@)
}

/// Printable ASCII as it is, other codes as `#`.
pub open spec fn shown(b: u8) -> char {
    if 0x20 <= b < 0x7F {
        b as char
    } else {
        '#'
    }
}

/// A row as text.
pub open spec fn row_text(row: Seq<u8>) -> Seq<char> {
    row.map_values(|b: u8| shown(b))
}

/// A screen as text: each row without the space at its end, and a newline.
pub open spec fn text_of(rows: Seq<Seq<u8>>) -> Seq<char>
    decreases rows.len(),
{
    if rows.len() == 0 {
        Seq::empty()
    } else {
        text_of(rows.drop_last()) + crate::text::trim_end(row_text(rows.last())) + "\n"@
    }
}

/// The first `b` in `row` from `x` on.
pub open spec fn first_of(row: Seq<u8>, b: u8, x: int) -> Option<int>
    decreases row.len() - x,
{
    if x < 0 || x >= row.len() {
        None
    } else if row[x] == b {
        Some(x)
    } else {
        first_of(row, b, x + 1)
    }
}

/// Codes up to the first space.
pub open spec fn run(s: Seq<u8>) -> nat
    decreases s.len(),
{
    if s.len() == 0 || s[0] == 0x20 {
        0
    } else {
        1 + run(s.skip(1))
    }
}

/// A run is not longer than what it is in.
pub proof fn run_fits(s: Seq<u8>)
    ensures
        run(s) <= s.len(),
        s.len() > 0 && s[0] != 0x20 ==> run(s) > 0,
    decreases s.len(),
{
    if s.len() > 0 && s[0] != 0x20 {
        run_fits(s.skip(1));
    }
}

/// Codes as characters.
pub open spec fn letters(s: Seq<u8>) -> Seq<char> {
    s.map_values(|b: u8| b as char)
}

/// The buttons whose labels stand in `s`, separated by spaces; nothing if anything
/// else stands there.
pub open spec fn labels(s: Seq<u8>) -> Option<Seq<Button>>
    decreases s.len(),
    via labels_decreases
{
    if s.len() == 0 {
        Some(Seq::empty())
    } else if s[0] == 0x20 {
        labels(s.skip(1))
    } else {
        match labelled(letters(s.take(run(s) as int))) {
            None => None,
            Some(b) => match labels(s.skip(run(s) as int)) {
                None => None,
                Some(rest) => Some(seq![b] + rest),
            },
        }
    }
}

#[via_fn]
proof fn labels_decreases(s: Seq<u8>) {
    run_fits(s);
}

/// The buttons between the border code at `x1` and its next copy, and where that
/// stands. A border is no space.
pub open spec fn buttons_at(row: Seq<u8>, x1: int) -> Option<(Seq<Button>, int)> {
    if row[x1] == 0x20 {
        None
    } else {
        match first_of(row, row[x1], x1 + 1) {
            None => None,
            Some(x2) => match labels(row.subrange(x1 + 1, x2)) {
                None => None,
                Some(b) => if b.len() > 0 {
                    Some((b, x2))
                } else {
                    None
                },
            },
        }
    }
}

/// The row has the border code at both sides.
pub open spec fn bordered(row: Seq<u8>, border: u8, x1: int, x2: int) -> bool {
    row[x1] == border && row[x2] == border
}

/// What stands between the sides, without space around it.
pub open spec fn inner(row: Seq<u8>, x1: int, x2: int) -> Seq<char> {
    crate::text::trim(row_text(row.subrange(x1 + 1, x2)))
}

/// The lowest row up to `y` that lacks the sides, if there is one.
pub open spec fn top_of(rows: Seq<Seq<u8>>, border: u8, x1: int, x2: int, y: int) -> Option<int>
    decreases y + 1,
{
    if y < 0 {
        None
    } else if !bordered(rows[y], border, x1, x2) {
        Some(y)
    } else {
        top_of(rows, border, x1, x2, y - 1)
    }
}

/// The rows from `from` up to `to`, joined with newlines.
pub open spec fn message(rows: Seq<Seq<u8>>, x1: int, x2: int, from: int, to: int) -> Seq<char>
    decreases to - from,
{
    if from + 1 >= to {
        inner(rows[from], x1, x2)
    } else {
        message(rows, x1, x2, from, to - 1) + "\n"@ + inner(rows[to - 1], x1, x2)
    }
}

/// The popup with its left side at column `x1` and its buttons in row `y`: a blank
/// row inside the sides above the buttons, and above that the message rows up to a
/// row without the sides, which is not blank at the corner.
pub open spec fn popup_in(rows: Seq<Seq<u8>>, y: int, x1: int) -> Option<Question> {
    match buttons_at(rows[y], x1) {
        None => None,
        Some((buttons, x2)) => {
            let border = rows[y][x1];
            if !bordered(rows[y - 1], border, x1, x2) || inner(rows[y - 1], x1, x2).len() > 0 {
                None
            } else {
                match top_of(rows, border, x1, x2, y - 2) {
                    None => None,
                    Some(top) => if top == y - 2 || rows[top][x1] == 0x20 {
                        None
                    } else {
                        Some(
                            Question {
                                message: message(rows, x1, x2, top + 1, y - 1),
                                buttons,
                            },
                        )
                    },
                }
            }
        },
    }
}

/// The first popup with its buttons in row `y`, from column `x` on.
pub open spec fn popup_from(rows: Seq<Seq<u8>>, y: int, x: int) -> Option<Question>
    decreases COLS - x,
{
    if x < 0 || x >= COLS {
        None
    } else {
        match popup_in(rows, y, x) {
            Some(p) => Some(p),
            None => popup_from(rows, y, x + 1),
        }
    }
}

/// The first popup on the screen with its buttons in row `y` or below.
pub open spec fn popup_below(rows: Seq<Seq<u8>>, y: int) -> Option<Question>
    decreases rows.len() - y,
{
    if y >= rows.len() {
        None
    } else {
        match popup_from(rows, y, 0) {
            Some(p) => Some(p),
            None => popup_below(rows, y + 1),
        }
    }
}

/// The text of the screen, for a person.
pub fn screen_text(screen: &[[u8; 40]]) -> (s: String)
    ensures
        s@ == text_of(codes(screen@)),
{
    let ghost rows = codes(screen@);
    let mut s = String::new();
    let mut y: usize = 0;
    assert(rows.take(0) =~= Seq::empty());
    assert(s@ =~= Seq::empty());
    while y < screen.len()
        invariant
            y <= screen@.len(),
            rows == codes(screen@),
            s@ == text_of(rows.take(y as int)),
        decreases screen@.len() - y,
    {
        assert(rows.take(y + 1).drop_last() =~= rows.take(y as int));
        assert(rows.take(y + 1).last() == screen@[y as int]@);
        let line = part(&screen[y], 0, COLS);
        assert(screen@[y as int]@.subrange(0, 40) =~= screen@[y as int]@);
        s.append(string_of(&crate::text::trimmed_end(&line)).as_str());
        s.append("\n");
        y = y + 1;
    }
    assert(rows.take(screen@.len() as int) =~= rows);
    s
}

/// The text of a part of a row.
fn part(row: &[u8; 40], from: usize, to: usize) -> (v: Vec<char>)
    requires
        from <= to <= 40,
    ensures
        v@ == row_text(row@.subrange(from as int, to as int)),
{
    let mut v: Vec<char> = Vec::new();
    let mut x: usize = from;
    let ghost all = row@.subrange(from as int, to as int);
    assert(v@ =~= row_text(all.take(0)));
    while x < to
        invariant
            from <= x <= to <= 40,
            all == row@.subrange(from as int, to as int),
            v@ == row_text(all.take(x - from)),
        decreases to - x,
    {
        let b = row[x];
        v.push(
            if 0x20 <= b && b < 0x7F {
                b as char
            } else {
                '#'
            },
        );
        assert(row_text(all.take(x - from + 1)) =~= row_text(all.take(x - from)).push(shown(b)));
        x = x + 1;
    }
    assert(all.take(to - from) =~= all);
    v
}

fn word_codes(row: &[u8; 40], from: usize, to: usize) -> (v: Vec<char>)
    requires
        from <= to <= 40,
    ensures
        v@ == letters(row@.subrange(from as int, to as int)),
{
    let mut v: Vec<char> = Vec::new();
    let mut x: usize = from;
    let ghost all = row@.subrange(from as int, to as int);
    assert(v@ =~= letters(all.take(0)));
    while x < to
        invariant
            from <= x <= to <= 40,
            all == row@.subrange(from as int, to as int),
            v@ == letters(all.take(x - from)),
        decreases to - x,
    {
        v.push(row[x] as char);
        assert(letters(all.take(x - from + 1)) =~= letters(all.take(x - from)).push(
            row@[x as int] as char,
        ));
        x = x + 1;
    }
    assert(all.take(to - from) =~= all);
    v
}

fn run_end(row: &[u8; 40], from: usize, to: usize) -> (x: usize)
    requires
        from <= to <= 40,
    ensures
        x == from + run(row@.subrange(from as int, to as int)),
        from <= x <= to,
{
    let mut x: usize = from;
    while x < to && row[x] != 0x20
        invariant
            from <= x <= to <= 40,
            from + run(row@.subrange(from as int, to as int)) == x + run(
                row@.subrange(x as int, to as int),
            ),
        decreases to - x,
    {
        assert(row@.subrange(x as int, to as int).skip(1) =~= row@.subrange(x + 1, to as int));
        x = x + 1;
    }
    x
}

/// The buttons between `from` and `to`.
fn read_labels(row: &[u8; 40], from: usize, to: usize) -> (r: Option<Vec<Button>>)
    requires
        from <= to <= 40,
    ensures
        labels(row@.subrange(from as int, to as int)) == (match r {
            Some(v) => Some(v@),
            None => None,
        }),
{
    let mut v: Vec<Button> = Vec::new();
    let mut x: usize = from;
    let ghost whole = labels(row@.subrange(from as int, to as int));
    assert(match labels(row@.subrange(x as int, to as int)) {
        Some(rest) => whole == Some(v@ + rest),
        None => whole is None,
    }) by {
        if whole is Some {
            assert(Seq::empty() + whole->Some_0 =~= whole->Some_0);
        }
    }
    while x < to
        invariant
            from <= x <= to <= 40,
            whole == labels(row@.subrange(from as int, to as int)),
            match labels(row@.subrange(x as int, to as int)) {
                Some(rest) => whole == Some(v@ + rest),
                None => whole is None,
            },
        decreases to - x,
    {
        let ghost s = row@.subrange(x as int, to as int);
        proof {
            run_fits(s);
        }
        if row[x] == 0x20 {
            assert(s.skip(1) =~= row@.subrange(x + 1, to as int));
            x = x + 1;
        } else {
            let end: usize = run_end(row, x, to);
            assert(s.take(end - x) =~= row@.subrange(x as int, end as int));
            assert(s.skip(end - x) =~= row@.subrange(end as int, to as int));
            match find_label(&word_codes(row, x, end)) {
                None => {
                    return None;
                },
                Some(b) => {
                    let ghost before = v@;
                    v.push(b);
                    proof {
                        let rest = labels(row@.subrange(end as int, to as int));
                        if rest is Some {
                            assert(before + (seq![b] + rest->Some_0) =~= before.push(b)
                                + rest->Some_0);
                        }
                    }
                },
            }
            x = end;
        }
    }
    assert(row@.subrange(to as int, to as int) =~= Seq::empty());
    assert(v@ + Seq::empty() =~= v@);
    Some(v)
}

/// Button names between the border code at `x1` and its next copy, and where that
/// stands.
pub fn button_row(row: &[u8; 40], x1: usize) -> (r: Option<(Vec<Button>, usize)>)
    requires
        x1 < 40,
    ensures
        buttons_at(row@, x1 as int) == (match r {
            Some((v, x2)) => Some((v@, x2 as int)),
            None => None,
        }),
        r matches Some((_, x2)) ==> x1 < x2 < 40,
{
    let border = row[x1];
    if border == 0x20 {
        return None;
    }
    let mut x2: usize = x1 + 1;
    while x2 < COLS && row[x2] != border
        invariant
            x1 < x2 <= 40,
            border == row@[x1 as int],
            first_of(row@, border, x1 + 1) == first_of(row@, border, x2 as int),
        decreases 40 - x2,
    {
        x2 = x2 + 1;
    }
    if x2 >= COLS {
        return None;
    }
    match read_labels(row, x1 + 1, x2) {
        None => None,
        Some(v) => if v.len() > 0 {
            Some((v, x2))
        } else {
            None
        },
    }
}

fn has_sides(row: &[u8; 40], border: u8, x1: usize, x2: usize) -> (b: bool)
    requires
        x1 < 40,
        x2 < 40,
    ensures
        b == bordered(row@, border, x1 as int, x2 as int),
{
    row[x1] == border && row[x2] == border
}

fn inside(row: &[u8; 40], x1: usize, x2: usize) -> (v: Vec<char>)
    requires
        x1 < x2 < 40,
    ensures
        v@ == inner(row@, x1 as int, x2 as int),
{
    trimmed(&part(row, x1 + 1, x2))
}

fn join_message(screen: &[[u8; 40]], x1: usize, x2: usize, from: usize, to: usize) -> (s: String)
    requires
        x1 < x2 < 40,
        from < to <= screen@.len(),
    ensures
        s@ == message(codes(screen@), x1 as int, x2 as int, from as int, to as int),
{
    let ghost rows = codes(screen@);
    assert(rows[from as int] == screen@[from as int]@);
    let mut s = string_of(&inside(&screen[from], x1, x2));
    let mut y: usize = from + 1;
    while y < to
        invariant
            x1 < x2 < 40,
            from < y <= to <= screen@.len(),
            rows == codes(screen@),
            s@ == message(rows, x1 as int, x2 as int, from as int, y as int),
        decreases to - y,
    {
        assert(rows[y as int] == screen@[y as int]@);
        s.append("\n");
        s.append(string_of(&inside(&screen[y], x1, x2)).as_str());
        y = y + 1;
    }
    s
}

fn popup_here(screen: &[[u8; 40]], y: usize, x1: usize) -> (p: Option<Popup>)
    requires
        2 <= y < screen@.len(),
        x1 < 40,
    ensures
        asked(p) == popup_in(codes(screen@), y as int, x1 as int),
{
    let ghost rows = codes(screen@);
    assert(rows[y as int] == screen@[y as int]@);
    assert(rows[y - 1] == screen@[y - 1]@);
    let (buttons, x2) = match button_row(&screen[y], x1) {
        Some(r) => r,
        None => {
            return None;
        },
    };
    let border = screen[y][x1];
    if !has_sides(&screen[y - 1], border, x1, x2) || inside(&screen[y - 1], x1, x2).len() > 0 {
        return None;
    }
    let mut top: usize = y - 2;
    assert(rows[top as int] == screen@[top as int]@);
    while has_sides(&screen[top], border, x1, x2)
        invariant
            2 <= y < screen@.len(),
            x1 < x2 < 40,
            top <= y - 2,
            rows == codes(screen@),
            rows[top as int] == screen@[top as int]@,
            top_of(rows, border, x1 as int, x2 as int, y - 2) == top_of(
                rows,
                border,
                x1 as int,
                x2 as int,
                top as int,
            ),
            buttons_at(rows[y as int], x1 as int) == Some((buttons@, x2 as int)),
            border == rows[y as int][x1 as int],
            bordered(rows[y - 1], border, x1 as int, x2 as int),
            inner(rows[y - 1], x1 as int, x2 as int).len() == 0,
        decreases top,
    {
        if top == 0 {
            assert(top_of(rows, border, x1 as int, x2 as int, -1) is None);
            return None;
        }
        top = top - 1;
        assert(rows[top as int] == screen@[top as int]@);
    }
    if top == y - 2 || screen[top][x1] == 0x20 {
        return None;
    }
    Some(Popup { message: join_message(screen, x1, x2, top + 1, y - 1), buttons })
}

/// The popup whose buttons stand in row `y`. Text left of the window may touch its
/// side, so every column is tried.
pub fn popup_at(screen: &[[u8; 40]], y: usize) -> (p: Option<Popup>)
    requires
        2 <= y < screen@.len(),
    ensures
        asked(p) == popup_from(codes(screen@), y as int, 0),
{
    let mut x: usize = 0;
    while x < COLS
        invariant
            2 <= y < screen@.len(),
            x <= 40,
            popup_from(codes(screen@), y as int, 0) == popup_from(
                codes(screen@),
                y as int,
                x as int,
            ),
        decreases 40 - x,
    {
        match popup_here(screen, y, x) {
            Some(p) => {
                return Some(p);
            },
            None => {},
        }
        x = x + 1;
    }
    None
}

/// The popup on the screen, found by its layout.
pub fn find_popup(screen: &[[u8; 40]]) -> (p: Option<Popup>)
    ensures
        asked(p) == popup_below(codes(screen@), 2),
{
    let mut y: usize = 2;
    while y < screen.len()
        invariant
            2 <= y,
            popup_below(codes(screen@), 2) == popup_below(codes(screen@), y as int),
        decreases screen@.len() - y,
    {
        match popup_at(screen, y) {
            Some(p) => {
                return Some(p);
            },
            None => {},
        }
        y = y + 1;
    }
    None
}

/// Where the text screen stands in the C64's memory.
pub const SCREEN: u16 = 0x0400;

/// The code at a place of the text screen, without reverse video.
pub open spec fn code_at<B: C64Backend>(p: PortState<B::State>, y: int, x: int) -> u8 {
    crate::c64_state::peeked::<B>(p, (DMA + SCREEN + y * COLS + x) as u32) & 0x7F
}

/// The C64's text screen, without reverse video.
pub fn c64_screen<B: C64Backend>(port: &C64Port<B>) -> (screen: Vec<[u8; 40]>)
    requires
        port@.valid(),
    ensures
        screen@.len() == ROWS,
        forall|y: int, x: int|
            0 <= y < ROWS && 0 <= x < COLS ==> (#[trigger] screen@[y]@[x]) == code_at::<B>(
                port@,
                y,
                x,
            ),
        forall|y: int, x: int|
            0 <= y < 25 && 0 <= x < 40 ==> (#[trigger] screen@[y]@[x]) == crate::c64_state::peeked::<
                B,
            >(port@, (0x5_0000 + 0x0400 + 40 * y + x) as u32) & 0x7F,
{
    let mut screen: Vec<[u8; 40]> = Vec::new();
    let mut y: u16 = 0;
    while y < 25
        invariant
            y <= 25,
            port@.valid(),
            screen@.len() == y,
            forall|v: int, x: int|
                0 <= v < y && 0 <= x < COLS ==> (#[trigger] screen@[v]@[x]) == code_at::<B>(
                    port@,
                    v,
                    x,
                ),
        decreases 25 - y,
    {
        let mut row: [u8; 40] = [0; 40];
        let mut x: u16 = 0;
        while x < 40
            invariant
                x <= 40,
                y < 25,
                port@.valid(),
                forall|u: int| 0 <= u < x ==> (#[trigger] row@[u]) == code_at::<B>(port@, y as int, u),
            decreases 40 - x,
        {
            let b = port.dma_peek(SCREEN + y * 40 + x) & 0x7F;
            row[x as usize] = b;
            x = x + 1;
        }
        screen.push(row);
        y = y + 1;
    }
    screen
}

} // verus!
