//! Installing an update: which buttons to press, when to look, and whether the
//! flash holds what it should.
use crate::keymap::{key_for_char, MatrixKey};
use crate::text::{chars_of, contains, debug_str, is, lowered, trimmed};
use crate::updater::{find_popup, Button, Popup, Question};
use vstd::prelude::*;

verus! {

/// Emulated time between two looks at the screen.
pub const SCAN_MS: u64 = 100;

/// A popup that is still there so long after its answer gets the key again.
pub const RETRY_MS: u64 = 2000;

/// Images are programmed from a page boundary.
pub const FLASH_PAGE: usize = 0x100;

/// The part of the flash in which the FPGA image's sync word must stand.
pub const SYNC_RANGE: usize = 0x1000;

/// How to answer the updater's questions.
#[derive(Clone, Copy, Debug, Default, PartialEq, Eq, Structural)]
pub struct Answers {
    /// Yes, unless it would destroy something.
    pub yes: bool,
    /// Yes to reformatting the flash disk.
    pub reformat_flash: bool,
    /// Yes to resetting the configuration.
    pub reset_config: bool,
}

/// The flag of a destructive question, if it is one.
pub open spec fn destructive(message: Seq<char>, answers: Answers) -> Option<bool> {
    if crate::text::holds(message, "Reformat Flash"@) {
        Some(answers.reformat_flash)
    } else if crate::text::holds(message, "Reset Configuration"@) {
        Some(answers.reset_config)
    } else {
        None
    }
}

/// The answer to a destructive question: yes only with its own flag, no if questions
/// are answered at all, and only a button that is there.
pub open spec fn policy(q: Question, answers: Answers) -> Option<Button> {
    match destructive(q.message, answers) {
        None => None,
        Some(flag) => {
            let want = if flag {
                Some(Button::Yes)
            } else if answers.yes {
                Some(Button::No)
            } else {
                None
            };
            match want {
                Some(b) => if q.buttons.contains(b) {
                    Some(b)
                } else {
                    None
                },
                None => None,
            }
        },
    }
}

/// What to do about a popup.
#[derive(Debug, PartialEq, Eq)]
pub enum Choice {
    Press(Button),
    /// Ask on the terminal.
    Ask,
    /// Give up.
    Refuse(String),
}

/// What to do about a popup.
pub enum Chosen {
    Press(Button),
    Ask,
    Refuse(Seq<char>),
}

impl View for Choice {
    type V = Chosen;

    open spec fn view(&self) -> Chosen {
        match self {
            Choice::Press(b) => Chosen::Press(*b),
            Choice::Ask => Chosen::Ask,
            Choice::Refuse(m) => Chosen::Refuse(m@),
        }
    }
}

/// Why a popup cannot be answered, with its message as `shown`.
pub open spec fn no_yes(shown: Seq<char>) -> Seq<char> {
    "--yes cannot answer "@ + shown + ": it has no Yes button"@
}

/// The button to press: the only one, what the policy says of destructive questions,
/// yes if questions are answered, else the one typed on the terminal.
pub open spec fn chosen(q: Question, answers: Answers) -> Chosen {
    if q.buttons.len() == 1 {
        Chosen::Press(q.buttons[0])
    } else {
        match policy(q, answers) {
            Some(b) => Chosen::Press(b),
            None => if answers.yes {
                if q.buttons.contains(Button::Yes) {
                    Chosen::Press(Button::Yes)
                } else {
                    Chosen::Refuse(no_yes(crate::text::debug_text(q.message)))
                }
            } else {
                Chosen::Ask
            },
        }
    }
}

fn has(buttons: &Vec<Button>, b: Button) -> (r: bool)
    ensures
        r == buttons@.contains(b),
{
    let mut i: usize = 0;
    while i < buttons.len()
        invariant
            i <= buttons@.len(),
            forall|k: int| 0 <= k < i ==> buttons@[k] != b,
        decreases buttons@.len() - i,
    {
        if buttons[i] == b {
            assert(buttons@[i as int] == b);
            return true;
        }
        i = i + 1;
    }
    false
}

/// The answer to a destructive question, if it is one and there is an answer.
pub fn destructive_answer(popup: &Popup, answers: Answers) -> (b: Option<Button>)
    ensures
        b == policy(popup@, answers),
{
    let message = chars_of(popup.message.as_str());
    let flag = if contains(&message, &chars_of("Reformat Flash")) {
        answers.reformat_flash
    } else if contains(&message, &chars_of("Reset Configuration")) {
        answers.reset_config
    } else {
        return None;
    };
    let want = if flag {
        Button::Yes
    } else if answers.yes {
        Button::No
    } else {
        return None;
    };
    if has(&popup.buttons, want) {
        Some(want)
    } else {
        None
    }
}

/// What to do about a popup.
pub fn choose_button(popup: &Popup, answers: Answers) -> (c: Choice)
    ensures
        c@ == chosen(popup@, answers),
{
    if popup.buttons.len() == 1 {
        return Choice::Press(popup.buttons[0]);
    }
    match destructive_answer(popup, answers) {
        Some(b) => Choice::Press(b),
        None => if answers.yes {
            if has(&popup.buttons, Button::Yes) {
                Choice::Press(Button::Yes)
            } else {
                Choice::Refuse(refusal(debug_str(popup.message.as_str()).as_str()))
            }
        } else {
            Choice::Ask
        },
    }
}

/// Why a popup cannot be answered, with its message as `shown`.
pub fn refusal(shown: &str) -> (m: String)
    ensures
        m@ == no_yes(shown@),
{
    let mut m = String::from_str("--yes cannot answer ");
    m.append(shown);
    m.append(": it has no Yes button");
    m
}

/// The keys of the buttons, separated by slashes.
pub open spec fn keys_shown(buttons: Seq<Button>) -> Seq<char>
    decreases buttons.len(),
{
    if buttons.len() == 0 {
        Seq::empty()
    } else if buttons.len() == 1 {
        seq![buttons[0].letter()]
    } else {
        keys_shown(buttons.drop_last()) + "/"@ + seq![buttons.last().letter()]
    }
}

/// The question on the terminal.
pub fn question(popup: &Popup) -> (s: String)
    ensures
        s@ == "updater asks "@ + crate::text::debug_text(popup@.message) + " ["@ + keys_shown(
            popup@.buttons,
        ) + "] "@,
{
    let mut s = String::from_str("updater asks ");
    s.append(debug_str(popup.message.as_str()).as_str());
    s.append(" [");
    let ghost head = s@;
    let mut i: usize = 0;
    assert(popup.buttons@.take(0) =~= Seq::empty());
    assert(head + keys_shown(popup.buttons@.take(0)) =~= head);
    while i < popup.buttons.len()
        invariant
            i <= popup.buttons@.len(),
            s@ == head + keys_shown(popup.buttons@.take(i as int)),
        decreases popup.buttons@.len() - i,
    {
        let ghost here = popup.buttons@.take(i + 1);
        assert(here.drop_last() =~= popup.buttons@.take(i as int));
        if i > 0 {
            s.append("/");
        }
        s.push(popup.buttons[i].key());
        assert(s@ =~= head + keys_shown(here));
        i = i + 1;
    }
    assert(popup.buttons@.take(popup.buttons@.len() as int) =~= popup.buttons@);
    s.append("] ");
    s
}

/// Why a question stays unanswered when nobody can type an answer.
pub fn unheard(popup: &Popup) -> (m: String)
    ensures
        m@ == "stdin closed while the updater asks "@ + crate::text::debug_text(popup@.message)
            + " (--yes answers Yes)"@,
{
    let mut m = String::from_str("stdin closed while the updater asks ");
    m.append(debug_str(popup.message.as_str()).as_str());
    m.append(" (--yes answers Yes)");
    m
}

/// The line about an answer.
pub fn answer_line(popup: &Popup, b: Button) -> (m: String)
    ensures
        m@ == "install: updater asks "@ + crate::text::debug_text(popup@.message) + " -> "@
            + b.label(),
{
    let mut m = String::from_str("install: updater asks ");
    m.append(debug_str(popup.message.as_str()).as_str());
    m.append(" -> ");
    m.append(b.name());
    m
}

/// The typed text names the button: by its key or by its label, in any case.
pub open spec fn names(text: Seq<char>, b: Button) -> bool {
    let t = crate::text::lower(crate::text::trim(text));
    t == seq![b.letter()] || t == crate::text::lower(b.label())
}

/// The first button that the typed text names.
pub open spec fn first_named(buttons: Seq<Button>, text: Seq<char>, from: int) -> Option<Button>
    decreases buttons.len() - from,
{
    if from < 0 || from >= buttons.len() {
        None
    } else if names(text, buttons[from]) {
        Some(buttons[from])
    } else {
        first_named(buttons, text, from + 1)
    }
}

/// The button that a line typed on the terminal names, if it names one.
pub fn typed_answer(popup: &Popup, line: &str) -> (b: Option<Button>)
    ensures
        b == first_named(popup@.buttons, line@, 0),
{
    let text = lowered(&trimmed(&chars_of(line)));
    let mut i: usize = 0;
    while i < popup.buttons.len()
        invariant
            i <= popup.buttons@.len(),
            text@ == crate::text::lower(crate::text::trim(line@)),
            first_named(popup@.buttons, line@, 0) == first_named(popup@.buttons, line@, i as int),
        decreases popup.buttons@.len() - i,
    {
        let b = popup.buttons[i];
        let letter = text.len() == 1 && text[0] == b.key();
        assert(letter == (text@ == seq![b.letter()])) by {
            if letter {
                assert(text@ =~= seq![b.letter()]);
            }
        }
        let label = lowered(&chars_of(b.name()));
        if letter || crate::text::same(&text, &label) {
            return Some(b);
        }
        i = i + 1;
    }
    None
}

/// The key that presses a button.
pub fn button_key(b: Button) -> (k: Option<MatrixKey>)
    ensures
        k == crate::keymap::char_key(b.letter()),
{
    key_for_char(b.key())
}

/// The updater's session: the popup answered last and when, and the time of the next
/// look.
#[derive(Debug)]
pub struct Session {
    pub answered: Option<(Popup, u64)>,
    pub next_scan: u64,
}

/// The updater's session.
#[verifier::ext_equal]
pub struct Sitting {
    pub answered: Option<(Question, u64)>,
    pub next_scan: u64,
}

impl View for Session {
    type V = Sitting;

    open spec fn view(&self) -> Sitting {
        Sitting {
            answered: match self.answered {
                Some((p, at)) => Some((p@, at)),
                None => None,
            },
            next_scan: self.next_scan,
        }
    }
}

/// What comes next after the machine has run for a while.
#[derive(Debug, PartialEq, Eq)]
pub enum Turn {
    /// The updater switched the machine off.
    Off,
    /// It did not, in all the time it was given.
    TimedOut(String),
    /// Go on.
    Run,
    /// Look at the screen.
    Scan,
}

/// What comes next.
pub enum Next {
    Off,
    TimedOut(Seq<char>),
    Run,
    Scan,
}

impl View for Turn {
    type V = Next;

    open spec fn view(&self) -> Next {
        match self {
            Turn::Off => Next::Off,
            Turn::TimedOut(m) => Next::TimedOut(m@),
            Turn::Run => Next::Run,
            Turn::Scan => Next::Scan,
        }
    }
}

/// The complaint about an updater that does not end.
pub open spec fn never_off(timeout_ms: u64) -> Seq<char> {
    "no power request from the updater within "@ + crate::numbers::decimal(
        (timeout_ms / 1000) as nat,
    ) + " s emulated"@
}

fn same_popup(a: &Popup, b: &Popup) -> (r: bool)
    ensures
        r == (a@ == b@),
{
    if !crate::text::same(&chars_of(a.message.as_str()), &chars_of(b.message.as_str())) {
        return false;
    }
    let n: usize = a.buttons.len();
    if n != b.buttons.len() {
        return false;
    }
    let mut i: usize = 0;
    while i < n
        invariant
            i <= n,
            n == a.buttons@.len() == b.buttons@.len(),
            forall|k: int| 0 <= k < i ==> a.buttons@[k] == b.buttons@[k],
        decreases n - i,
    {
        if a.buttons[i] != b.buttons[i] {
            return false;
        }
        i = i + 1;
    }
    assert(a.buttons@ =~= b.buttons@);
    true
}

impl Session {
    /// Nothing answered, and a look at once.
    pub fn new() -> (s: Session)
        ensures
            s@ == (Sitting { answered: None, next_scan: 0 }),
    {
        Session { answered: None, next_scan: 0 }
    }

    /// After the machine has run up to `now`: `off` says that the updater switched it
    /// off.
    pub fn turn(&mut self, off: bool, now: u64, timeout_ms: u64) -> (t: Turn)
        requires
            now + SCAN_MS <= u64::MAX,
        ensures
            t@ == (if off {
                Next::Off
            } else if now >= timeout_ms {
                Next::TimedOut(never_off(timeout_ms))
            } else if now < old(self)@.next_scan {
                Next::Run
            } else {
                Next::Scan
            }),
            final(self)@ == (if t@ is Scan {
                Sitting { next_scan: (now + SCAN_MS) as u64, ..old(self)@ }
            } else {
                old(self)@
            }),
    {
        if off {
            return Turn::Off;
        }
        if now >= timeout_ms {
            let mut m = String::from_str("no power request from the updater within ");
            crate::numbers::push_decimal(&mut m, timeout_ms / 1000);
            m.append(" s emulated");
            return Turn::TimedOut(m);
        }
        if now < self.next_scan {
            return Turn::Run;
        }
        self.next_scan = now + SCAN_MS;
        Turn::Scan
    }

    /// The popup on the screen that wants an answer at `now`, if there is one: not the
    /// one answered a moment ago. A screen without a popup ends the wait for it.
    pub fn look(&mut self, screen: &[[u8; 40]], now: u64) -> (p: Option<Popup>)
        requires
            old(self)@.answered matches Some((_, at)) ==> at + RETRY_MS <= u64::MAX,
        ensures
            ({
                let seen = crate::updater::popup_below(crate::updater::codes(screen@), 2);
                let again = match (seen, old(self)@.answered) {
                    (Some(q), Some((a, at))) => q == a && now < at + RETRY_MS,
                    _ => false,
                };
                &&& crate::updater::asked(p) == if again {
                    None
                } else {
                    seen
                }
                &&& final(self)@ == if seen is None {
                    Sitting { answered: None, ..old(self)@ }
                } else {
                    old(self)@
                }
            }),
    {
        match find_popup(screen) {
            None => {
                self.answered = None;
                None
            },
            Some(p) => {
                let again = match &self.answered {
                    Some((a, at)) => same_popup(&p, a) && now < *at + RETRY_MS,
                    None => false,
                };
                if again {
                    None
                } else {
                    Some(p)
                }
            },
        }
    }

    /// The popup was answered, at `now`.
    pub fn answer(&mut self, popup: Popup, now: u64)
        ensures
            final(self)@ == (Sitting { answered: Some((popup@, now)), ..old(self)@ }),
    {
        self.answered = Some((popup, now));
    }
}

/// Bytes without carriage returns: the firmware sends two characters per line end,
/// the host's terminal wants one.
pub open spec fn without_returns(s: Seq<u8>) -> Seq<u8>
    decreases s.len(),
{
    if s.len() == 0 {
        Seq::empty()
    } else if s.last() == 13 {
        without_returns(s.drop_last())
    } else {
        without_returns(s.drop_last()).push(s.last())
    }
}

/// The console's bytes for the host's terminal.
pub fn strip_returns(bytes: &Vec<u8>) -> (v: Vec<u8>)
    ensures
        v@ == without_returns(bytes@),
{
    let mut v: Vec<u8> = Vec::new();
    let mut i: usize = 0;
    assert(bytes@.take(0) =~= Seq::empty());
    while i < bytes.len()
        invariant
            i <= bytes@.len(),
            v@ == without_returns(bytes@.take(i as int)),
        decreases bytes@.len() - i,
    {
        assert(bytes@.take(i + 1).drop_last() =~= bytes@.take(i as int));
        if bytes[i] != 13 {
            v.push(bytes[i]);
        }
        i = i + 1;
    }
    assert(bytes@.take(bytes@.len() as int) =~= bytes@);
    v
}

/// The first page of the image from page `page` on that starts `app`.
pub open spec fn first_page(image: Seq<u8>, app: Seq<u8>, page: int) -> Option<int>
    decreases image.len() + FLASH_PAGE - page * FLASH_PAGE,
{
    if page < 0 || page * FLASH_PAGE >= image.len() || page * FLASH_PAGE + app.len()
        > image.len() {
        None
    } else if crate::text::occurs_at(image, app, page * FLASH_PAGE) {
        Some(page * FLASH_PAGE)
    } else {
        first_page(image, app, page + 1)
    }
}

fn bytes_at(image: &Vec<u8>, part: &[u8], at: usize) -> (b: bool)
    requires
        at + part@.len() <= image@.len(),
    ensures
        b == crate::text::occurs_at(image@, part@, at as int),
{
    let n: usize = image.len();
    let mut j: usize = 0;
    while j < part.len()
        invariant
            j <= part@.len(),
            at + part@.len() <= image@.len() == n,
            forall|k: int| 0 <= k < j ==> image@[at + k] == part@[k],
        decreases part@.len() - j,
    {
        if image[at + j] != part[j] {
            assert(image@.subrange(at as int, at + part@.len())[j as int] != part@[j as int]);
            return false;
        }
        j = j + 1;
    }
    assert(image@.subrange(at as int, at + part@.len()) =~= part@);
    true
}

/// The flash page that starts the application, if there is one.
pub fn find_app(image: &Vec<u8>, app: &Vec<u8>) -> (at: Option<usize>)
    ensures
        first_page(image@, app@, 0) == (match at {
            Some(at) => Some(at as int),
            None => None,
        }),
{
    let n: usize = image.len();
    let len: usize = app.len();
    if len > n {
        return None;
    }
    let end: usize = n - len;
    let mut at: usize = 0;
    let ghost mut page: int = 0;
    while at < n && at <= end
        invariant
            n == image@.len(),
            len == app@.len(),
            end == n - len,
            at == page * FLASH_PAGE,
            page >= 0,
            first_page(image@, app@, 0) == first_page(image@, app@, page),
        decreases n - at,
    {
        if bytes_at(image, app.as_slice(), at) {
            return Some(at);
        }
        proof {
            page = page + 1;
        }
        if end - at < FLASH_PAGE {
            return None;
        }
        at = at + FLASH_PAGE;
    }
    None
}

/// What the search finds from page `page` on, by position.
proof fn pages_are_tried_in_order(image: Seq<u8>, app: Seq<u8>, page: int)
    requires
        app.len() > 0,
        page >= 0,
    ensures
        match first_page(image, app, page) {
            Some(at) => {
                &&& at >= page * FLASH_PAGE
                &&& at % FLASH_PAGE as int == 0
                &&& crate::text::occurs_at(image, app, at)
                &&& forall|k: int|
                    page * FLASH_PAGE <= k < at && k % FLASH_PAGE as int == 0
                        ==> !#[trigger] crate::text::occurs_at(image, app, k)
            },
            None => forall|k: int|
                page * FLASH_PAGE <= k && k % FLASH_PAGE as int == 0
                    ==> !#[trigger] crate::text::occurs_at(image, app, k),
        },
    decreases image.len() + FLASH_PAGE - page * FLASH_PAGE,
{
    if page * FLASH_PAGE + app.len() <= image.len() && !crate::text::occurs_at(
        image,
        app,
        page * FLASH_PAGE,
    ) {
        pages_are_tried_in_order(image, app, page + 1);
    }
}

/// The search finds the first page that starts the application and holds it whole,
/// the last page among them, and finds nothing exactly if there is none.
pub proof fn the_first_such_page_is_found(image: Seq<u8>, app: Seq<u8>)
    requires
        app.len() > 0,
    ensures
        match first_page(image, app, 0) {
            Some(at) => {
                &&& 0 <= at && at + app.len() <= image.len()
                &&& at % FLASH_PAGE as int == 0
                &&& crate::text::occurs_at(image, app, at)
                &&& forall|k: int|
                    0 <= k < at && k % FLASH_PAGE as int == 0 ==> !#[trigger] crate::text::occurs_at(
                        image,
                        app,
                        k,
                    )
            },
            None => forall|k: int|
                0 <= k && k % FLASH_PAGE as int == 0 ==> !#[trigger] crate::text::occurs_at(
                    image,
                    app,
                    k,
                ),
        },
{
    pages_are_tried_in_order(image, app, 0);
}

/// The FPGA image's sync word.
pub open spec fn sync_word() -> Seq<u8> {
    seq![0xAAu8, 0x99u8, 0x55u8, 0x66u8]
}

/// Where the sync word stands in the first part of the flash, if it does.
pub fn find_sync(image: &Vec<u8>) -> (at: Option<usize>)
    requires
        image@.len() >= SYNC_RANGE,
    ensures
        crate::console::first_at(image@.take(SYNC_RANGE as int), sync_word(), 0) == (match at {
            Some(at) => Some(at as int),
            None => None,
        }),
{
    let word: [u8; 4] = [0xAA, 0x99, 0x55, 0x66];
    assert(word@ =~= sync_word());
    let ghost part = image@.take(SYNC_RANGE as int);
    let mut i: usize = 0;
    while i <= SYNC_RANGE - 4
        invariant
            i <= SYNC_RANGE - 3,
            image@.len() >= SYNC_RANGE,
            word@ == sync_word(),
            sync_word().len() == 4,
            part == image@.take(SYNC_RANGE as int),
            crate::console::first_at(part, sync_word(), 0) == crate::console::first_at(
                part,
                sync_word(),
                i as int,
            ),
        decreases SYNC_RANGE - i,
    {
        let here = image[i] == 0xAA && image[i + 1] == 0x99 && image[i + 2] == 0x55 && image[i + 3]
            == 0x66;
        let ghost four = part.subrange(i as int, i + 4);
        assert(four[0] == image@[i as int] && four[1] == image@[i + 1] && four[2] == image@[i + 2]
            && four[3] == image@[i + 3]);
        assert(here == crate::text::occurs_at(part, sync_word(), i as int)) by {
            if here {
                assert(four =~= sync_word());
            } else {
                assert(sync_word()[0] == 0xAA && sync_word()[1] == 0x99 && sync_word()[2] == 0x55
                    && sync_word()[3] == 0x66);
            }
        }
        if here {
            return Some(i);
        }
        i = i + 1;
    }
    None
}

/// With questions answered by yes alone, nothing destructive is said yes to, unless
/// yes is the only button there is.
pub proof fn yes_alone_destroys_nothing(q: Question, answers: Answers)
    requires
        destructive(q.message, answers) == Some(false),
        answers.yes,
        q.buttons.len() != 1,
        q.buttons.contains(Button::No),
    ensures
        chosen(q, answers) == Chosen::Press(Button::No),
{
}

/// A destructive question is said yes to with its own flag, with or without the
/// general one.
pub proof fn flags_speak_for_themselves(q: Question, answers: Answers)
    requires
        destructive(q.message, answers) == Some(true),
        q.buttons.len() != 1,
        q.buttons.contains(Button::Yes),
    ensures
        chosen(q, answers) == Chosen::Press(Button::Yes),
{
}

/// A button that is pressed is one that is there.
pub proof fn only_buttons_are_pressed(q: Question, answers: Answers)
    ensures
        chosen(q, answers) matches Chosen::Press(b) ==> q.buttons.contains(b),
{
    if q.buttons.len() == 1 {
        assert(q.buttons.contains(q.buttons[0]));
    }
}

/// Every button has a key, and none needs SHIFT.
pub proof fn every_button_has_a_key(b: Button)
    ensures
        crate::keymap::char_key(b.letter()) matches Some(k) && !k.shift,
{
}

} // verus!
