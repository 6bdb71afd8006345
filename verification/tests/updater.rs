//! The updater's popups and how they are answered.
use ue2emu::c64::C64Port;
use ue2emu::install::{
    answer_line, button_key, choose_button, destructive_answer, find_app, find_sync, question, refusal, strip_returns, typed_answer,
    unheard, Answers, Choice, Session, Turn, FLASH_PAGE, RETRY_MS, SCAN_MS, SYNC_RANGE,
};
use ue2emu::keymap;
use ue2emu::mock::Mock;
use ue2emu::updater::{button_row, c64_screen, find_popup, popup_at, screen_text, Button, Popup, COLS, ROWS};

/// Stand-ins for the charset's line-drawing codes.
const VERTICAL: u8 = 0x1D;
const HORIZONTAL: u8 = 0x1E;
const CORNER: u8 = 0x1F;

const BUTTONS: [Button; 5] = [Button::Okay, Button::Yes, Button::No, Button::All, Button::Cancel];

fn blank() -> Vec<[u8; COLS]> {
    vec![[b' '; COLS]; ROWS]
}

fn put(screen: &mut [[u8; COLS]], x: usize, y: usize, text: &[u8]) {
    screen[y][x..x + text.len()].copy_from_slice(text);
}

/// Draw a popup as the firmware does.
fn draw(screen: &mut [[u8; COLS]], message: &str, buttons: &[Button]) {
    let lines: Vec<&str> = message.split('\n').collect();
    let names: String = buttons.iter().map(|b| format!(" {} ", b.name())).collect();
    let width = lines.iter().map(|l| l.len()).max().unwrap().max(names.len());
    let height = lines.len() + 4;
    let (x1, y1) = ((COLS - width) / 2, (ROWS - height) / 2);
    for row in &mut screen[y1..y1 + height] {
        row[x1..x1 + width + 2].fill(b' ');
        row[x1] = VERTICAL;
        row[x1 + width + 1] = VERTICAL;
    }
    for y in [y1, y1 + height - 1] {
        screen[y][x1 + 1..x1 + width + 1].fill(HORIZONTAL);
        (screen[y][x1], screen[y][x1 + width + 1]) = (CORNER, CORNER);
    }
    for (row, line) in lines.iter().enumerate() {
        put(screen, x1 + 1 + (width - line.len()) / 2, y1 + 1 + row, line.as_bytes());
    }
    put(screen, x1 + 1 + (width - names.len()) / 2, y1 + 1 + lines.len() + 1, names.as_bytes());
}

#[test]
fn finds_popups_by_border_and_buttons() {
    let mut screen = blank();
    put(&mut screen, 0, 11, b"Yes  No are just words here");
    put(&mut screen, 0, 13, b"Writing 1541.rom to /flash: No error");
    assert_eq!(find_popup(&screen), None, "unbordered text is no popup");

    draw(&mut screen, "About to update. Continue?", &[Button::Yes, Button::No]);
    let popup = Popup { message: "About to update. Continue?".into(), buttons: vec![Button::Yes, Button::No] };
    assert_eq!(find_popup(&screen), Some(popup));

    let mut screen = blank();
    put(&mut screen, 0, 12, b"Background left and right of the window");
    draw(&mut screen, "Flashing ESP32\nSuccess!", &[Button::Okay]);
    let popup = Popup { message: "Flashing ESP32\nSuccess!".into(), buttons: vec![Button::Okay] };
    assert_eq!(find_popup(&screen), Some(popup));

    let mut screen = blank();
    draw(&mut screen, "Go?", &[Button::Yes, Button::No, Button::Cancel]);
    assert_eq!(find_popup(&screen).map(|p| (p.message, p.buttons.len())), Some(("Go?".into(), 3)));
}

#[test]
fn screen_text_shows_ascii_and_marks_other_codes() {
    let mut screen = blank();
    put(&mut screen, 0, 0, b"OK!");
    screen[1][0] = VERTICAL;
    let text = screen_text(&screen[..2]);
    assert_eq!(text, "OK!\n#\n");
}

/// The button that is pressed without asking.
fn pressed(popup: &Popup, answers: Answers) -> Result<Button, String> {
    match choose_button(popup, answers) {
        Choice::Press(b) => Ok(b),
        Choice::Ask => Err("ask".into()),
        Choice::Refuse(m) => Err(m),
    }
}

#[test]
fn choose_takes_the_only_button_and_yes_with_yes() {
    let yes = Answers { yes: true, ..Answers::default() };
    let ok = Popup { message: "Flashing ESP32 Failed!".into(), buttons: vec![Button::Okay] };
    assert_eq!(pressed(&ok, Answers::default()).unwrap(), Button::Okay);
    let update = Popup { message: "About to update. Continue?".into(), buttons: vec![Button::Yes, Button::No] };
    assert_eq!(pressed(&update, yes).unwrap(), Button::Yes);
    let odd = Popup { message: "Pick".into(), buttons: vec![Button::All, Button::Cancel] };
    assert!(pressed(&odd, yes).is_err());
    let reset = Popup { message: "Reset Configuration? (Recommended)".into(), buttons: vec![Button::Yes, Button::No] };
    let reformat = Popup { message: "Reformat Flash Disk?".into(), buttons: vec![Button::Yes, Button::No] };
    assert_eq!(pressed(&reset, yes).unwrap(), Button::No, "--yes keeps the settings");
    assert_eq!(pressed(&reformat, yes).unwrap(), Button::No, "--yes keeps /flash");
    let destroy = Answers { yes: true, reformat_flash: true, reset_config: true };
    assert_eq!(pressed(&reset, destroy).unwrap(), Button::Yes);
    assert_eq!(pressed(&reformat, destroy).unwrap(), Button::Yes);
    let only_reformat = Answers { reformat_flash: true, ..Answers::default() };
    assert_eq!(pressed(&reformat, only_reformat).unwrap(), Button::Yes, "flag answers without --yes");
    for button in BUTTONS {
        assert!(keymap::key_for_char(button.key()).is_some_and(|key| !key.shift), "{button:?}");
    }
}

#[test]
fn questions_without_flags_are_asked() {
    let update = Popup { message: "About to update. Continue?".into(), buttons: vec![Button::Yes, Button::No] };
    assert!(matches!(choose_button(&update, Answers::default()), Choice::Ask));
    let odd = Popup { message: "Pick".into(), buttons: vec![Button::All, Button::Cancel] };
    let yes = Answers { yes: true, ..Answers::default() };
    assert!(matches!(choose_button(&odd, yes), Choice::Refuse(m) if m.contains("Pick")));
    assert_eq!(destructive_answer(&update, yes), None);
    assert!(refusal("the screen").contains("the screen"));
}

#[test]
fn typed_lines_name_a_button() {
    let update = Popup { message: "Continue?".into(), buttons: vec![Button::Yes, Button::No] };
    assert_eq!(typed_answer(&update, "y\n"), Some(Button::Yes));
    assert_eq!(typed_answer(&update, "NO\n"), Some(Button::No));
    assert_eq!(typed_answer(&update, "o\n"), None, "no such button there");
    assert_eq!(typed_answer(&update, "\n"), None);
}

#[test]
fn each_button_has_its_key() {
    let keys: Vec<char> = BUTTONS.iter().map(|b| b.key()).collect();
    assert_eq!(keys, ['o', 'y', 'n', 'a', 'c']);
    for b in BUTTONS {
        assert_eq!(button_key(b), keymap::key_for_char(b.key()));
    }
}

#[test]
fn a_button_row_lies_between_borders() {
    let mut screen = blank();
    draw(&mut screen, "Go?", &[Button::Yes, Button::No]);
    let y = (0..ROWS).find(|&y| popup_at(&screen, y).is_some()).unwrap();
    let x1 = screen[y].iter().position(|&c| c == VERTICAL).unwrap();
    let (buttons, x2) = button_row(&screen[y], x1).unwrap();
    assert_eq!((buttons, screen[y][x2]), (vec![Button::Yes, Button::No], VERTICAL));
    assert_eq!(button_row(&screen[0], 0), None);
}

#[test]
fn a_session_scans_answers_and_gives_up() {
    let mut s = Session::new();
    assert!(matches!(s.turn(false, 0, 10_000), Turn::Scan));
    assert!(matches!(s.turn(false, SCAN_MS - 1, 10_000), Turn::Run));
    assert!(matches!(s.turn(false, SCAN_MS, 10_000), Turn::Scan));
    let mut screen = blank();
    assert_eq!(s.look(&screen, SCAN_MS), None);
    draw(&mut screen, "Go?", &[Button::Yes, Button::No]);
    let popup = s.look(&screen, 200).unwrap();
    assert_eq!(popup.message, "Go?");
    s.answer(popup, 200);
    assert_eq!(s.look(&screen, 300), None, "answered just now");
    assert!(s.look(&screen, 200 + RETRY_MS).is_some(), "it is still there");
    assert!(matches!(s.turn(true, 400, 10_000), Turn::Off));
    assert!(matches!(s.turn(false, 10_000, 10_000), Turn::TimedOut(_)));
}

#[test]
fn an_application_may_end_the_flash_image() {
    let app: Vec<u8> = (0..=255).collect();
    assert_eq!(find_app(&app, &app), Some(0), "the image is the application");
    let mut image = vec![0xFFu8; 4 * FLASH_PAGE];
    image[3 * FLASH_PAGE..].copy_from_slice(&app);
    assert_eq!(find_app(&image, &app), Some(3 * FLASH_PAGE));
    image.truncate(4 * FLASH_PAGE - 1);
    assert_eq!(find_app(&image, &app), None, "cut short");
    assert_eq!(find_app(&vec![], &app), None);
}

#[test]
fn flash_images_are_searched() {
    let mut image = vec![0xFFu8; 0x2000];
    let app = vec![1u8, 2, 3, 4];
    assert_eq!(find_app(&image, &app), None);
    image[3 * FLASH_PAGE..3 * FLASH_PAGE + 4].copy_from_slice(&app);
    assert_eq!(find_app(&image, &app), Some(3 * FLASH_PAGE));
    assert_eq!(find_app(&image, &vec![2u8, 3, 4]), None, "not at the start of a page");
    assert_eq!(find_sync(&image), None);
    image[0x55..0x59].copy_from_slice(&[0xAA, 0x99, 0x55, 0x66]);
    assert_eq!(find_sync(&image), Some(0x55));
    let mut late = vec![0u8; 0x2000];
    late[SYNC_RANGE..SYNC_RANGE + 4].copy_from_slice(&[0xAA, 0x99, 0x55, 0x66]);
    assert_eq!(find_sync(&late), None, "too far in");
}

#[test]
fn console_output_loses_its_returns() {
    assert_eq!(strip_returns(&b"a\r\nb\r".to_vec()), b"a\nb");
}

#[test]
fn without_a_c64_its_screen_is_empty() {
    let port: C64Port<Mock> = C64Port::new();
    let screen = c64_screen(&port);
    assert_eq!((screen.len(), find_popup(&screen)), (ROWS, None));
}

#[test]
fn the_terminal_sees_question_and_answer() {
    let popup = Popup { message: "Go \"on\"?".into(), buttons: vec![Button::Yes, Button::No, Button::Cancel] };
    assert_eq!(question(&popup), "updater asks \"Go \\\"on\\\"?\" [y/n/c] ");
    assert_eq!(unheard(&popup), "stdin closed while the updater asks \"Go \\\"on\\\"?\" (--yes answers Yes)");
    assert_eq!(answer_line(&popup, Button::No), "install: updater asks \"Go \\\"on\\\"?\" -> No");
}
