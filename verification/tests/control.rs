//! Control scripts: the commands, what they do to an emulator, the console and the
//! input timeline.
use std::sync::mpsc::{self, TryRecvError};
use ue2emu::command::ControlCmd::{
    self, Button, C64Screen, Chord, Expect, ExpectC64, ExpectConsole, ExpectNot, Hold, Joy, JoySet, Key, Monitor, Png,
    Quit, Release, Screen, Type, UsbMouse, UsbPlug, Wait, WasdToJoy,
};
use ue2emu::command::{joy_lines_by_names, keys_by_names, KEY_MS};
use ue2emu::console::{ConsoleLog, CONSOLE_KEEP};
use ue2emu::execute::{print_block, Action, CartRequest, Flow, Reply, UsbAction, UsbRequest, Watch};
use ue2emu::host::HostInput;
use ue2emu::keymap::{key_by_name, key_for_char, MatrixKey, LSHIFT_COL, LSHIFT_ROW};
use ue2emu::parse::{parse_line, parse_script};
use ue2emu::picture::{encode_png, PictureError};
use ue2emu::script::{answer, Script};
use ue2emu::time;
use ue2emu::timed::{TimedInputs, RELEASE_MS};
use ue2emu::timeline::InputTimeline;
use ue2emu::usb::UsbDevice;

/// Emulated time one `Fake::poll` advances.
const FAKE_POLL_MS: u64 = 10;

fn k(name: &str) -> MatrixKey {
    key_by_name(name).unwrap()
}

fn key_ev(key: MatrixKey, down: bool) -> HostInput {
    HostInput::Key { row: key.row, col: key.col, down }
}

fn lshift() -> MatrixKey {
    MatrixKey { row: LSHIFT_ROW, col: LSHIFT_COL, shift: false }
}

/// Emulator stand-in: emulated time only moves through inputs, waits and polls.
#[derive(Default)]
struct Fake {
    now: u64,
    log: Vec<(u64, HostInput)>,
    quit: bool,
    screen: String,
    /// `(at_ms, text)` that replaces `screen` once `now` reaches `at_ms`.
    later_screen: Option<(u64, String)>,
    console: ConsoleLog,
    /// `(at_ms, bytes)` appended to `console` once `now` reaches `at_ms`.
    later_console: Option<(u64, Vec<u8>)>,
    console_mark: u64,
    c64: String,
    /// Emulated time at which the emulator "stops".
    stop_at: Option<u64>,
    /// USB requests received; port 3 fails.
    usb: Vec<UsbRequest>,
    /// Cartridge requests received; a save to `fail.crt` fails.
    cart: Vec<CartRequest>,
    monitor: Vec<String>,
    /// Pictures written.
    files: Vec<(String, Vec<u8>)>,
}

impl Fake {
    fn stopped(&self) -> bool {
        self.stop_at.is_some_and(|t| self.now >= t)
    }

    /// Move emulated time on and deliver the `later_*` changes that came due.
    fn advance(&mut self, ms: u64) -> Reply {
        self.now += ms;
        if self.later_screen.as_ref().is_some_and(|(at, _)| *at <= self.now) {
            self.screen = self.later_screen.take().unwrap().1;
        }
        if self.later_console.as_ref().is_some_and(|(at, _)| *at <= self.now) {
            let (_, bytes) = self.later_console.take().unwrap();
            self.console.push(&bytes);
        }
        if self.stopped() {
            return Reply::Failed("emulator stopped".into());
        }
        Reply::Done
    }

    fn shown(&self, watch: Watch) -> String {
        match watch {
            Watch::C64 => self.c64.clone(),
            _ => self.screen.clone(),
        }
    }

    fn act(&mut self, action: Action, out: &mut String) -> Reply {
        match action {
            Action::Inputs(seq) => {
                if self.stopped() {
                    return Reply::Failed("emulator stopped".into());
                }
                let now = self.now;
                self.log.extend(seq.events.into_iter().map(|(at, ev)| (now + at, ev)));
                self.advance(seq.len_ms)
            }
            Action::Wait(ms) => self.advance(ms),
            Action::Clock => Reply::Time(self.now),
            Action::Poll => self.advance(FAKE_POLL_MS),
            Action::Look(Watch::Console, text) => {
                let found = self.console.find_after(&text, &mut self.console_mark);
                Reply::Matched(self.now, found)
            }
            Action::Look(watch, _) => Reply::Seen(self.now, self.shown(watch)),
            Action::Show(watch) => Reply::Text(self.shown(watch)),
            Action::Png(path) => {
                let pixels = [0x00FF_0000, 0x0000_FF00, 0x0000_00FF, 0x00FF_FFFF];
                match encode_png(&pixels, 2, 2) {
                    Ok(file) => {
                        self.files.push((path, file));
                        Reply::Done
                    }
                    Err(e) => Reply::Failed(format!("{e:?}")),
                }
            }
            Action::Usb(req) => {
                self.usb.push(req);
                let error = if req.port == Some(3) { Some("port 3: refused".to_string()) } else { None };
                Reply::Usb(vec![format!("port {:?}: done", req.port)], error)
            }
            Action::UsbPlug(port, device) => Reply::Text(format!("port {port}: {device:?}")),
            Action::Monitor(line) => {
                self.monitor.push(line.clone());
                match line.as_str() {
                    "r" => Reply::Text("  ADDR A  X  Y\n  3000 00 00 00".into()),
                    _ => Reply::Failed(format!("unknown monitor command '{line}'")),
                }
            }
            Action::Cart(req) => {
                let reply = match &req {
                    CartRequest::Save(path) if path == "fail.crt" => Reply::Failed("cart-save: refused".into()),
                    CartRequest::Save(path) => Reply::Lines(vec![format!("saved: {path}")]),
                    CartRequest::Info => Reply::Lines(vec!["type: EasyFlash".into(), "dirty: no".into()]),
                };
                self.cart.push(req);
                reply
            }
            Action::Quit => {
                self.quit = true;
                Reply::Done
            }
            Action::Print(text) => {
                out.push_str(&text);
                Reply::Done
            }
            Action::End(_) => unreachable!(),
        }
    }
}

/// Run a script to its end.
fn run(fake: &mut Fake, text: &str) -> (Result<(), String>, String) {
    let mut out = String::new();
    let mut script = match Script::load(text) {
        Ok(script) => script,
        Err(e) => return (Err(e), out),
    };
    assert!(script.runs());
    let mut reply = Reply::Start;
    loop {
        match script.step(reply) {
            Action::End(result) => return (result.map(|_| ()), out),
            action => reply = fake.act(action, &mut out),
        }
    }
}

#[test]
fn parses_every_command() {
    let ok = |l: &str| parse_line(l).unwrap();
    assert_eq!(ok("wait 4000"), Some(Wait(4000)));
    assert_eq!(ok("button"), Some(Button(100)));
    assert_eq!(ok("button 50"), Some(Button(50)));
    assert_eq!(ok("key down"), Some(Key(k("down"), 80)));
    assert_eq!(ok("key RETURN 30"), Some(Key(k("return"), 30)));
    assert_eq!(ok("key A"), Some(Key(MatrixKey { row: 1, col: 2, shift: true }, 80)));
    assert_eq!(ok("key cbm+z 50"), Some(Chord(vec![k("cbm"), k("z")], 50)));
    assert_eq!(ok("key +"), Some(Key(k("+"), 80)), "a lone + is the key");
    assert_eq!(ok("hold cbm"), Some(Hold(vec![k("cbm")])));
    assert_eq!(ok("usbmouse 10 -5"), Some(UsbMouse(10, -5, 0)));
    assert_eq!(ok("usb-unplug 2"), Some(UsbPlug { port: 2, device: None }));
    assert_eq!(ok("usb-plug 3 mouse"), Some(UsbPlug { port: 3, device: Some(UsbDevice::Mouse) }));
    assert_eq!(
        ok("usb-plug 1 image run/stick.img"),
        Some(UsbPlug { port: 1, device: Some(UsbDevice::Image("run/stick.img".into())) })
    );
    assert!(parse_line("usb-plug 1 printer").is_err());
    assert!(parse_line("usb-unplug 9").is_err());
    assert_eq!(ok("usbmouse 0 0 1"), Some(UsbMouse(0, 0, 1)));
    assert_eq!(ok("release ctrl+c"), Some(Release(vec![k("ctrl"), k("c")])));
    assert!(parse_line("key cbm+nope").is_err());
    assert_eq!(ok("type Hi 1"), Some(Type(vec![k("H"), k("i"), k("space"), k("1")])));
    assert_eq!(ok("type  x"), Some(Type(vec![k("space"), k("x")])), "one separator, rest verbatim");
    assert_eq!(ok("type #1"), Some(Type(vec![k("#"), k("1")])));
    assert_eq!(ok("screen"), Some(Screen));
    assert_eq!(ok("c64screen"), Some(C64Screen));
    assert_eq!(ok("png run/menu.png"), Some(Png("run/menu.png".into())));
    assert_eq!(ok("png my shots/a.png "), Some(Png("my shots/a.png".into())));
    assert_eq!(ok("expect Ready"), Some(Expect("Ready".into(), 5000)));
    assert_eq!(ok("expect  Ready  250 "), Some(Expect("Ready".into(), 250)));
    assert_eq!(ok(r#"expect "SD      SD Card  Ready" 3000"#), Some(Expect("SD      SD Card  Ready".into(), 3000)));
    assert_eq!(ok(r#"expect-not "a \"q\" \\ b""#), Some(ExpectNot(r#"a "q" \ b"#.into(), 5000)));
    assert_eq!(ok(r#"expect-console "Page: 0 done." 800"#), Some(ExpectConsole("Page: 0 done.".into(), 800)));
    assert_eq!(ok(r#"expect-c64 "UCI OK" 2000"#), Some(ExpectC64("UCI OK".into(), 2000)));
    assert_eq!(ok("monitor m c000 c00f"), Some(Monitor("m c000 c00f".into())));
    assert_eq!(ok(r##"expect "#1""##), Some(Expect("#1".into(), 5000)));
    assert_eq!(ok("quit\r"), Some(Quit));
    assert_eq!(ok("  \twait 1  "), Some(Wait(1)));
    for blank in ["", "   ", "# comment", "  # indented comment", "#wait 5"] {
        assert_eq!(ok(blank), None, "{blank:?}");
    }
}

#[test]
fn rejects_bad_input() {
    let cases = [
        ("bogus", "unknown command 'bogus'"),
        ("WAIT 5", "unknown command 'WAIT'"),
        ("wait", "'wait' takes 1 argument(s), got 0"),
        ("wait 1 2", "'wait' takes 1 argument(s), got 2"),
        ("wait -5", "'-5' is not a number"),
        ("wait 1.5", "'1.5' is not a number"),
        ("button x", "'x' is not a number"),
        ("button 1 2", "'button' takes 0-1 argument(s)"),
        ("key", "'key' takes 1-2 argument(s), got 0"),
        ("key nope", "unknown key 'nope'"),
        ("key a b", "'b' is not a number"),
        ("key a 1 2", "'key' takes 1-2 argument(s), got 3"),
        ("type", "'type' needs text"),
        ("type ok\u{e4}", "cannot type 'ä'"),
        ("screen now", "'screen' takes 0 argument(s)"),
        ("c64screen 1", "'c64screen' takes 0 argument(s)"),
        ("png", "'png' needs a path"),
        ("monitor", "'monitor' needs a command"),
        ("expect", "'expect' needs text"),
        (r#"expect-not """#, "'expect-not' needs text"),
        (r#"expect "open"#, "unterminated quoted text"),
        (r#"expect "a\n""#, r#"only \" and \\ escapes"#),
        ("expect SD Card", "'Card' is not a number of milliseconds (quote text that contains spaces)"),
        ("expect-console a 1 2", "'expect-console' takes a text and an optional timeout"),
        ("cart-info now", "'cart-info' takes 0 argument(s)"),
        ("cart-save  ", "'cart-save' needs a path"),
        ("quit now", "'quit' takes 0 argument(s)"),
    ];
    for (line, want) in cases {
        let err = parse_line(line).expect_err(line);
        assert!(err.contains(want), "{line:?}: got {err:?}, want {want:?}");
    }
}

#[test]
fn usbkey_holds_a_usb_keyboard_key() {
    assert_eq!(parse_line("usbkey F10 30"), Ok(Some(ControlCmd::UsbKey(0x43, 30))));
    assert_eq!(parse_line("usbkey down"), Ok(Some(ControlCmd::UsbKey(0x51, KEY_MS))));
    assert!(parse_line("usbkey nope").unwrap_err().contains("unknown USB key 'nope'"));
    assert!(parse_line("usbkey").unwrap_err().contains("'usbkey' takes 1-2 argument(s), got 0"));
    let mut fake = Fake::default();
    let (r, _) = run(&mut fake, "usbkey return 30\nwait 5");
    r.unwrap();
    let ev = |down| HostInput::UsbKey { usage: 0x28, down };
    assert_eq!(fake.log, vec![(0, ev(true)), (30, ev(false))]);
    assert_eq!(fake.now, 30 + RELEASE_MS + 5);
}

#[test]
fn usb_sync_and_replug_reach_the_target() {
    let sync = |port, force| Some(ControlCmd::UsbSync { port, force });
    assert_eq!(parse_line("usb-sync"), Ok(sync(None, false)));
    assert_eq!(parse_line("usb-sync --force 2"), Ok(sync(Some(2), true)));
    assert_eq!(parse_line("usb-sync 1 --force"), Ok(sync(Some(1), true)));
    assert_eq!(parse_line("usb-replug --discard"), Ok(Some(ControlCmd::UsbReplug { port: None, discard: true })));
    assert!(parse_line("usb-sync 4").unwrap_err().contains("'4' is not a USB hub port (1-3)"));
    assert!(parse_line("usb-replug --force").unwrap_err().contains("'usb-replug' takes [--discard] [port]"));
    assert!(parse_line("usb-sync 1 2").unwrap_err().contains("'usb-sync' takes [--force] [port]"));

    let mut fake = Fake::default();
    let (r, out) = run(&mut fake, "usb-sync --force 1\nusb-replug\nusb-replug 3\nwait 1\n");
    assert_eq!(format!("{:#}", r.unwrap_err()), "line 3: port 3: refused");
    assert_eq!(out, "port Some(1): done\nport None: done\nport Some(3): done\n", "lines print before the error");
    let replug = |port| UsbRequest { action: UsbAction::Replug { discard: false }, port };
    assert_eq!(fake.usb, [UsbRequest { action: UsbAction::Sync { force: true }, port: Some(1) }, replug(None), replug(Some(3))]);
    assert_eq!(fake.now, 0, "the failed line stops the script");
}

#[test]
fn monitor_lines_reach_the_target() {
    let mut fake = Fake::default();
    let (r, out) = run(&mut fake, "monitor r\n");
    r.unwrap();
    assert_eq!(out, "  ADDR A  X  Y\n  3000 00 00 00\n");
    let (r, _) = run(&mut fake, "monitor nope\n");
    assert_eq!(format!("{:#}", r.unwrap_err()), "line 1: unknown monitor command 'nope'");
    assert_eq!(fake.monitor, ["r", "nope"]);
}

#[test]
fn cart_info_and_cart_save_reach_the_target() {
    assert_eq!(parse_line("cart-info"), Ok(Some(ControlCmd::CartInfo)));
    assert_eq!(parse_line("cart-save run/my cart.crt "), Ok(Some(ControlCmd::CartSave("run/my cart.crt".into()))));
    let mut fake = Fake::default();
    let (r, out) = run(&mut fake, "cart-info\ncart-save out.crt\ncart-save fail.crt\nwait 1\n");
    assert_eq!(format!("{:#}", r.unwrap_err()), "line 3: cart-save: refused");
    assert_eq!(out, "type: EasyFlash\ndirty: no\nsaved: out.crt\n");
    assert_eq!(fake.cart, [CartRequest::Info, CartRequest::Save("out.crt".into()), CartRequest::Save("fail.crt".into())]);
}

#[test]
fn script_parse_error_names_line_and_runs_nothing() {
    let mut fake = Fake::default();
    let (r, _) = run(&mut fake, "wait 10\n# comment\n\nkey nope\nwait 5\n");
    let msg = format!("{:#}", r.unwrap_err());
    assert_eq!(msg, "line 4: unknown key 'nope'");
    assert_eq!((fake.now, fake.log.len()), (0, 0));
}

#[test]
fn script_runtime_error_names_line() {
    let mut fake = Fake { stop_at: Some(50), ..Fake::default() };
    let (r, _) = run(&mut fake, "wait 10\n\nwait 100\nwait 1\n");
    assert_eq!(format!("{:#}", r.unwrap_err()), "line 3: emulator stopped");
}

#[test]
fn wait_and_button_use_emulated_time() {
    let mut fake = Fake::default();
    let (r, out) = run(&mut fake, "wait 4000\nbutton\nbutton 30\n");
    r.unwrap();
    assert_eq!(out, "");
    assert_eq!(
        fake.log,
        vec![
            (4000, HostInput::MenuButton(true)),
            (4100, HostInput::MenuButton(false)),
            (4100, HostInput::MenuButton(true)),
            (4130, HostInput::MenuButton(false)),
        ]
    );
    assert_eq!(fake.now, 4130);
}

#[test]
fn key_holds_then_releases() {
    let mut fake = Fake::default();
    run(&mut fake, "key down\nkey return 200").0.unwrap();
    let (down, ret) = (k("down"), k("return"));
    assert_eq!(
        fake.log,
        vec![
            (0, key_ev(down, true)),
            (80, key_ev(down, false)),
            (120, key_ev(ret, true)),
            (320, key_ev(ret, false)),
        ]
    );
    assert_eq!(fake.now, 360);
}

#[test]
fn joy_parses_ports_and_directions() {
    let ok = |l: &str| parse_line(l).unwrap();
    assert_eq!(ok("joy 2 up+fire 50"), Some(Joy(2, 0xEE, 50)));
    assert_eq!(ok("joy 1 down"), Some(Joy(1, 0xFD, KEY_MS)));
    assert_eq!(ok("joy 1 Left+RIGHT+left"), Some(Joy(1, 0xF3, KEY_MS)));
    assert_eq!(ok("joy 2 none"), Some(JoySet(2, 0xFF)));
    assert_eq!(ok("joy-hold 2 fire"), Some(JoySet(2, 0xEF)));
    assert_eq!(ok("joy-hold 1 none"), Some(JoySet(1, 0xFF)));
    assert_eq!(ok("joy-release 1"), Some(JoySet(1, 0xFF)));
    let cases = [
        ("joy 3 up", "'3' is not a control port (1 or 2)"),
        ("joy 0 up", "'0' is not a control port"),
        ("joy 2", "'joy' takes 2-3 argument(s), got 1"),
        ("joy 2 jump", "unknown joystick direction 'jump'"),
        ("joy 2 up+", "unknown joystick direction ''"),
        ("joy 2 up x", "'x' is not a number"),
        ("joy 2 none 50", "'joy <port> none' takes no hold time"),
        ("joy-hold 2", "'joy-hold' takes 2 argument(s), got 1"),
        ("joy-release", "'joy-release' takes 1 argument(s), got 0"),
        ("joy-release 2 up", "'joy-release' takes 1 argument(s), got 2"),
    ];
    for (line, want) in cases {
        let err = parse_line(line).expect_err(line);
        assert!(err.contains(want), "{line:?}: got {err:?}, want {want:?}");
    }
}

#[test]
fn wasd_joy_parses_keys_and_none() {
    let ok = |l: &str| parse_line(l).unwrap();
    let code = |name: &str| { let mk = k(name); mk.row * 8 + mk.col };
    let dirs = [code("w"), code("s"), code("a"), code("d")];
    assert_eq!(ok("wasd-joy 1 w s a d"), Some(WasdToJoy(1, dirs, 0xFF)), "no fire argument: 0xFF");
    assert_eq!(ok("wasd-joy 2 none none none none"), Some(WasdToJoy(2, [0xFF; 4], 0xFF)));
    assert_eq!(ok("wasd-joy 1 w s a none"), Some(WasdToJoy(1, [dirs[0], dirs[1], dirs[2], 0xFF], 0xFF)));
    assert_eq!(ok("wasd-joy 1 w s a d return"), Some(WasdToJoy(1, dirs, code("return"))), "6th arg is fire");
    assert_eq!(ok("wasd-joy 1 w s a d none"), Some(WasdToJoy(1, dirs, 0xFF)), "explicit 'none' fire, same as omitted");
    let cases = [
        ("wasd-joy 3 w s a d", "'3' is not a control port (1 or 2)"),
        ("wasd-joy 1 w s a", "'wasd-joy' takes 5-6 argument(s), got 4"),
        ("wasd-joy 1 w s a jump", "unknown key 'jump'"),
        ("wasd-joy 1 w s a d return space", "'wasd-joy' takes 5-6 argument(s), got 7"),
        ("wasd-joy 1 w s a d jump", "unknown key 'jump'"),
    ];
    for (line, want) in cases {
        let err = parse_line(line).expect_err(line);
        assert!(err.contains(want), "{line:?}: got {err:?}, want {want:?}");
    }
}

#[test]
fn joy_holds_and_releases_on_time() {
    let mut fake = Fake::default();
    run(&mut fake, "joy 2 down
joy 1 up+fire 30
joy-hold 2 right
wait 5
joy-release 2").0.unwrap();
    let ev = |port, lines| HostInput::JoystickPort { port, lines };
    assert_eq!(
        fake.log,
        vec![
            (0, ev(2, 0xFD)),
            (80, ev(2, 0xFF)),
            (120, ev(1, 0xEE)),
            (150, ev(1, 0xFF)),
            (190, ev(2, 0xF7)),
            (195, ev(2, 0xFF)),
        ]
    );
    assert_eq!(fake.now, 195);
}

#[test]
fn a_chord_holds_its_keys_together() {
    let mut fake = Fake::default();
    run(&mut fake, "key cbm+z 100\nhold cbm\nrelease cbm").0.unwrap();
    let (cbm, z) = (k("cbm"), k("z"));
    assert_eq!(
        fake.log,
        vec![
            (0, key_ev(cbm, true)),
            (20, key_ev(z, true)),
            (120, key_ev(z, false)),
            (120, key_ev(cbm, false)),
            (160, key_ev(cbm, true)),
            (160, key_ev(cbm, false)),
        ]
    );
}

#[test]
fn shifted_key_leads_with_shift() {
    let mut fake = Fake::default();
    run(&mut fake, "key up").0.unwrap();
    let crsr = MatrixKey { row: 0, col: 7, shift: false };
    assert_eq!(
        fake.log,
        vec![
            (0, key_ev(lshift(), true)),
            (20, key_ev(crsr, true)),
            (100, key_ev(crsr, false)),
            (100, key_ev(lshift(), false)),
        ]
    );
    assert_eq!(fake.now, 140);
}

#[test]
fn type_taps_each_character() {
    let mut fake = Fake::default();
    run(&mut fake, "type aB").0.unwrap();
    let (a, b) = (k("a"), MatrixKey { row: 3, col: 4, shift: false });
    assert_eq!(
        fake.log,
        vec![
            (0, key_ev(a, true)),
            (80, key_ev(a, false)),
            (120, key_ev(lshift(), true)),
            (140, key_ev(b, true)),
            (220, key_ev(b, false)),
            (220, key_ev(lshift(), false)),
        ]
    );
    assert_eq!(fake.now, 260);
}

#[test]
fn screen_prints_between_markers() {
    let mut fake = Fake { screen: "HELLO\n  MENU\n".into(), c64: "\n READY.\n".into(), ..Fake::default() };
    let (r, out) = run(&mut fake, "screen\nc64screen");
    r.unwrap();
    assert_eq!(out, "--- screen ---\nHELLO\n  MENU\n--- screen ---\n--- c64 ---\n\n READY.\n--- c64 ---\n");
}

#[test]
fn expect_waits_for_the_text_to_come_and_go() {
    let later = (300, "MENU\nSD      SD Card  Ready\n".to_string());
    let mut fake = Fake { screen: "BOOT\n".into(), later_screen: Some(later), ..Fake::default() };
    let (r, out) = run(&mut fake, "expect \"SD Card  Ready\" 1000\nexpect-not BOOT 0\nexpect MENU 0\n");
    r.unwrap();
    assert_eq!((out.as_str(), fake.now), ("", 300), "passes on the first check that sees the text");

    fake.later_screen = Some((450, "BYE\n".into()));
    run(&mut fake, "expect-not MENU 200\n").0.unwrap();
    assert_eq!(fake.now, 450);
}

#[test]
fn expect_timeout_prints_the_screen_and_names_the_line() {
    let mut fake = Fake { screen: "MENU\n".into(), ..Fake::default() };
    let (r, out) = run(&mut fake, "wait 10\nexpect Ready 500\nquit\n");
    assert_eq!(format!("{:#}", r.unwrap_err()), "line 2: expect \"Ready\": not on the screen within 500 ms emulated");
    assert_eq!(out, "--- screen ---\nMENU\n--- screen ---\n");
    assert!((510..510 + FAKE_POLL_MS).contains(&fake.now), "gave up at the deadline: {}", fake.now);
    assert!(!fake.quit, "nothing after the failed line runs");

    let (r, out) = run(&mut fake, "expect-not MENU 20");
    assert_eq!(format!("{:#}", r.unwrap_err()), "line 1: expect-not \"MENU\": still on the screen after 20 ms emulated");
    assert_eq!(out, "--- screen ---\nMENU\n--- screen ---\n");
}

#[test]
fn expect_c64_reads_the_c64_screen() {
    let mut fake = Fake { screen: "MENU\n".into(), c64: "\n READY.\n".into(), ..Fake::default() };
    run(&mut fake, "expect-c64 READY. 0\n").0.unwrap();
    let (r, out) = run(&mut fake, "expect-c64 MENU 50\n");
    let msg = format!("{:#}", r.unwrap_err());
    assert_eq!(msg, "line 1: expect-c64 \"MENU\": not on the C64 screen within 50 ms emulated");
    assert_eq!(out, "--- c64 ---\n\n READY.\n--- c64 ---\n", "the C64 screen, not the menu");
}

#[test]
fn expect_console_matches_in_order() {
    let mut fake = Fake::default();
    fake.console.push(b"Page: 1 done.\nWriting config store 'User Interface Settings' to flash..");
    fake.later_console = Some((700, b"Page: 0 done.\n".to_vec()));
    let script = "expect-console \"Writing config store 'User Interface Settings'\"\nexpect-console \"Page: 0 done.\" 1000\n";
    run(&mut fake, script).0.unwrap();
    assert_eq!(fake.now, 700);

    let (r, out) = run(&mut fake, "expect-console \"Page: 1 done.\" 50\n");
    let msg = format!("{:#}", r.unwrap_err());
    assert_eq!(msg, "line 1: expect-console \"Page: 1 done.\": not in the console output within 50 ms emulated");
    assert_eq!(out, "--- screen ---\n--- screen ---\n", "an earlier occurrence does not count");
}

#[test]
fn console_log_finds_across_pushes_and_trimming() {
    let mut log = ConsoleLog::default();
    let mut mark = 0;
    log.push(b"abc Pa");
    assert!(!log.find_after("Page", &mut mark));
    log.push(b"ge xyz Page");
    assert!(log.find_after("Page", &mut mark));
    assert_eq!(mark, 8);
    assert!(log.find_after("Page", &mut mark));
    assert_eq!(mark, 17);
    assert!(!log.find_after("Page", &mut mark));

    log.push(&vec![b'.'; 2 * CONSOLE_KEEP]);
    assert_eq!(log.bytes.len(), CONSOLE_KEEP, "trimmed back to CONSOLE_KEEP");
    log.push(b"END");
    assert!(!log.find_after("abc", &mut mark), "dropped bytes are gone");
    assert!(log.find_after("END", &mut mark));
    assert_eq!(mark, 17 + 2 * CONSOLE_KEEP as u64 + 3);
}

#[test]
fn the_console_log_ends_the_output() {
    let mut log = ConsoleLog::default();
    assert_eq!((log.dropped, log.bytes.len()), (0, 0));
    let all: Vec<u8> = (0..3 * CONSOLE_KEEP).map(|i| (i % 251) as u8).collect();
    log.push(&all[..2 * CONSOLE_KEEP]);
    assert_eq!((log.dropped, log.bytes.len()), (0, 2 * CONSOLE_KEEP), "nothing is dropped yet");
    log.push(&all[2 * CONSOLE_KEEP..2 * CONSOLE_KEEP + 1]);
    assert_eq!((log.dropped, log.bytes.len()), (CONSOLE_KEEP as u64 + 1, CONSOLE_KEEP));
    log.push(&all[2 * CONSOLE_KEEP + 1..]);
    assert_eq!(log.dropped as usize + log.bytes.len(), all.len());
    assert_eq!(log.bytes[..], all[log.dropped as usize..]);
}

#[test]
fn outer_space_is_ignored() {
    for line in ["wait 5", "", "# x", "expect \"a b\" 10", "nonsense"] {
        assert_eq!(parse_line(&format!("\t \u{a0}{line} \r\n\u{3000}")), parse_line(line), "{line}");
    }
}

#[test]
fn quoted_text_is_read_back() {
    assert_eq!(parse_line("expect \"\" 10"), Err("'expect' needs text".into()));
    for text in ["a b", "\"", "\\", "say \"hi\" \\ bye", " lead"] {
        let quoted = text.replace('\\', "\\\\").replace('"', "\\\"");
        let cmd = parse_line(&format!("expect   \"{quoted}\" 10")).unwrap().unwrap();
        assert_eq!(cmd, ControlCmd::Expect(text.into(), 10), "{text:?}");
    }
}

#[test]
fn no_fire_key_is_the_fire_key_none() {
    for args in ["1 w s a d", "2 None NONE a d", "3 w s a d", "1 w s a jump"] {
        assert_eq!(parse_line(&format!("wasd-joy {args}")), parse_line(&format!("wasd-joy {args} none")), "{args}");
    }
}

#[test]
fn quit_ends_the_script() {
    let mut fake = Fake::default();
    run(&mut fake, "quit\nwait 100\n").0.unwrap();
    assert!(fake.quit);
    assert_eq!(fake.now, 0);
}

#[test]
fn timeline_runs_sequences_back_to_back_at_exact_times() {
    let mut timeline = InputTimeline::new();
    let (done, ended) = mpsc::channel();
    let mut tap = TimedInputs::new();
    tap.tap(k("down"), 80);
    let press = TimedInputs {
        events: vec![(0, HostInput::MenuButton(true)), (100, HostInput::MenuButton(false))],
        len_ms: 100,
    };
    assert!(timeline.fits(&tap, 1000));
    timeline.push(tap, done.clone(), 1000);
    // Arrives while the tap still runs: starts at its end (1000 + 80 + 40).
    timeline.push(press, done, 1010);

    let (mut applied, mut ends) = (Vec::new(), Vec::new());
    for now in 1000..1400 {
        let (events, over) = timeline.advance(now);
        applied.extend(events.into_iter().map(|ev| (now, ev)));
        for done in over {
            done.send(()).unwrap();
        }
        ends.extend(ended.try_iter().map(|()| now));
    }
    let down = k("down");
    assert_eq!(
        applied,
        vec![
            (1000, key_ev(down, true)),
            (1080, key_ev(down, false)),
            (1120, HostInput::MenuButton(true)),
            (1220, HostInput::MenuButton(false)),
        ]
    );
    assert_eq!(ends, vec![1120, 1220]);

    // Idle again: the next sequence starts on arrival, and dropping the timeline disconnects its waiter.
    let (done, ended) = mpsc::channel();
    timeline.push(TimedInputs { events: vec![], len_ms: 10 }, done, 5000);
    let (events, over) = timeline.advance(5009);
    assert!(events.is_empty() && over.is_empty());
    drop(timeline);
    assert_eq!(ended.try_recv(), Err(TryRecvError::Disconnected));
}

#[test]
fn timeline_slices_end_at_the_next_event() {
    let mut timeline: InputTimeline<()> = InputTimeline::new();
    assert_eq!(timeline.slice_insns(0, 4, 100_000), 100_000, "idle: full slice");
    timeline.push(TimedInputs { events: vec![(1, HostInput::MenuButton(true))], len_ms: 900 }, (), 0);
    assert!(timeline.advance(0).0.is_empty());
    let clocks_1ms = time::ms_to_clocks(1);
    assert_eq!(timeline.slice_insns(1, 4, 100_000), (clocks_1ms - 1).div_ceil(4), "stops at the event");
    assert_eq!(timeline.slice_insns(0, 0, 1_000_000), clocks_1ms, "0 clocks per instruction counts as 1");
    timeline.advance(1);
    assert_eq!(timeline.slice_insns(clocks_1ms, 4, 100_000), 100_000, "the end at 900 ms is further off");
    assert_eq!(timeline.slice_insns(time::ms_to_clocks(900), 4, 100_000), 1, "due now: at least one");
}

#[test]
fn png_writes_rgb_image() {
    let mut fake = Fake::default();
    run(&mut fake, "png nested/shot.png").0.unwrap();
    let (path, file) = &fake.files[0];
    assert_eq!(path, "nested/shot.png");

    let reader = png::Decoder::new(&file[..]);
    let mut reader = reader.read_info().unwrap();
    let mut buf = vec![0; reader.output_buffer_size()];
    let info = reader.next_frame(&mut buf).unwrap();
    assert_eq!((info.width, info.height, info.color_type), (2, 2, png::ColorType::Rgb));
    assert_eq!(&buf[..info.buffer_size()], &[255, 0, 0, 0, 255, 0, 0, 0, 255, 255, 255, 255]);

    assert!(encode_png(&[], 0, 0).is_err());
}

#[test]
fn pictures_of_no_size_are_refused() {
    assert!(matches!(encode_png(&[], 0, 0), Err(PictureError::NoFrame(_))));
    assert!(matches!(encode_png(&[0; 3], 2, 2), Err(PictureError::NoFrame(_))));
    assert!(encode_png(&[0xFFFF_FFFF], 1, 1).is_ok());
}

#[test]
fn scripts_keep_their_line_numbers() {
    let cmds = parse_script("# first\nwait 5\n\n  button\n").unwrap();
    assert_eq!(cmds, vec![(2, Wait(5)), (4, Button(100))]);
    assert_eq!(parse_script("wait 1\nbogus").unwrap_err(), "line 2: unknown command 'bogus'");
    assert_eq!(parse_script("").unwrap(), vec![]);
}

#[test]
fn names_make_keys_and_lines() {
    assert_eq!(keys_by_names("cbm+z").unwrap(), vec![k("cbm"), k("z")]);
    assert_eq!(joy_lines_by_names("none"), Ok(0xFF));
    assert_eq!(joy_lines_by_names("up+down+left+right+fire"), Ok(0xE0));
    assert_eq!(key_for_char('A'), Some(MatrixKey { row: 1, col: 2, shift: true }));
    assert_eq!(key_for_char('\u{e4}'), None);
}

#[test]
fn interactive_lines_are_answered() {
    assert_eq!(answer(1, &Ok(Flow::Continue)), "ok\n");
    assert_eq!(answer(3, &Err("unknown command 'bogus'".into())), "error line 3: unknown command 'bogus'\n");
    assert_eq!(print_block("screen", "A\n"), "--- screen ---\nA\n--- screen ---\n");
}

#[test]
fn usb_plugs_and_mice_reach_the_target() {
    let mut fake = Fake::default();
    let (r, out) = run(&mut fake, "usb-plug 1 keyboard\nusb-unplug 2\nusbmouse 3 -4 1\n");
    r.unwrap();
    assert_eq!(out, "port 1: Some(Keyboard)\nport 2: None\n");
    let ev = HostInput::UsbMouse { dx: 3, dy: -4, wheel: 0, buttons: 1 };
    assert_eq!(fake.log.first(), Some(&(0, ev)));
}

#[test]
fn quoted_names_appear_as_rust_writes_them() {
    assert_eq!(parse_line("type \u{1}x").unwrap_err(), "cannot type '\\u{1}'");
    let mut fake = Fake::default();
    let (r, _) = run(&mut fake, r#"expect "a \"b\"" 0"#);
    assert_eq!(r.unwrap_err(), r#"line 1: expect "a \"b\"": not on the screen within 0 ms emulated"#);
}
