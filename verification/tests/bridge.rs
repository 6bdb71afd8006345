//! The C64 behind the port: its lines, its cartridge and its ROMs.
use ue2emu::bridge::{
    dma_peek_from, dma_read_from, joystick, nmi_due, Advance, Bridge, Edges, Plan, Roms, Source, DELAYS_INTERRUPT,
};
use ue2emu::c64host::C64Rom;
use ue2emu::cart::CartLogic;
use ue2emu::cart_state::{EPYX_CYCLES, ROM_BASE};

const NONE: Edges = Edges { nmi: None, irq: None };

/// A C64 in reset with a cartridge whose bank `b` is filled with `0x40 + b` for ROML
/// and `0x80 + b` for ROMH.
fn bridge(type_variant: u8, patch: impl Fn(&mut Vec<u8>)) -> Bridge {
    let mut ddr = vec![0u8; 0x0400_0000];
    for bank in 0..64 {
        let base = ROM_BASE + bank * 0x4000;
        ddr[base..base + 0x2000].fill(0x40 + bank as u8);
        ddr[base + 0x2000..base + 0x4000].fill(0x80 + bank as u8);
    }
    patch(&mut ddr);
    let mut cart = CartLogic::new();
    cart.set_ddr(Some(ddr));
    let mut b = Bridge::new(cart);
    b.hold_reset();
    b.set_cart(type_variant, 0);
    b
}

#[test]
fn joysticks_reach_the_c64() {
    let mut b = Bridge::new(CartLogic::new());
    b.set_joystick(2, 0xEF);
    let (joy1, joy2) = b.set_joystick(1, 0xFE).unwrap();
    assert_eq!(b.set_joystick(3, 0x00), None);
    assert_eq!((joy2, joy1), (joystick(0xEF), joystick(0xFE)));
    assert!(joy2.fire && !joy2.up && joy1.up);
}

#[test]
fn roms_read_back_what_is_written() {
    let mut roms = Roms { basic: vec![0; 0x2000], kernal: vec![0; 0x2000], chars: vec![0; 0x1000] };
    roms.rom_write(C64Rom::Char, 0xFFF, 0xAB);
    assert_eq!((roms.rom_read(C64Rom::Char, 0xFFF), roms.chars[0xFFF]), (0xAB, 0xAB));
    assert!(roms.seed(C64Rom::Basic, vec![7; 0x2000]));
    assert!(!roms.seed(C64Rom::Kernal, vec![7; 0x1000]), "the wrong size");
    assert_eq!((roms.rom_read(C64Rom::Basic, 0), roms.rom_read(C64Rom::Kernal, 0)), (7, 0));
}

#[test]
fn a_cart_is_configured_killed_and_forced() {
    let mut b = bridge(0x41, |_| {});
    assert!(b.cart_active());
    b.kill_cart();
    assert!(!b.cart_active());
    let (unsupported, _) = b.set_cart(0x13, 0);
    assert!(!b.cart_active(), "unused codes attach nothing");
    assert_eq!(unsupported, Some(0x13));
    assert_eq!(b.set_cart(0x13, 0).0, None, "told once");
    b.set_cart(0x41, 0);
    b.release_reset();
    b.set_cart(0x41, 0);
    assert!(!b.cart_active(), "without reset: forced off");
}

#[test]
fn an_empty_slot_is_not_used() {
    let mut b = Bridge::new(CartLogic::new());
    assert!(!b.slot_used());
    b.set_ultimax(true);
    assert!(b.slot_used(), "forced decode");
    b.set_ultimax(false);
    assert!(!b.slot_used());
    b.set_cart(0x41, 0);
    assert!(b.slot_used());
    b.kill_cart();
    assert!(b.slot_used() && !b.cart_active(), "off, but selected");
    b.set_cart(0x13, 0);
    assert!(!b.cart_active() && !b.slot_used(), "unused codes attach nothing");
    b.set_cart(0x41, 0);
    b.set_cart(0x00, 0);
    assert!(!b.slot_used());
}

#[test]
fn the_6510_runs_unless_it_is_held() {
    let mut b = Bridge::new(CartLogic::new());
    assert_eq!(b.advance_to(5, 10, 10), Advance::Nothing);
    assert_eq!(b.advance_to(6, 10, 11), Advance::Cpu);
    b.set_stopped(true);
    assert_eq!(b.advance_to(7, 11, 12), Advance::Chips);
    b.set_stopped(false);
    b.hold_reset();
    assert_eq!(b.advance_to(8, 12, 13), Advance::Chips);
    b.release_reset();
    assert_eq!((b.advance_to(9, 13, 14), b.lines.now), (Advance::Cpu, 9));
}

#[test]
fn runs_end_where_the_cart_can_change() {
    let mut plain = bridge(0x41, |_| {});
    plain.release_reset();
    assert_eq!(plain.run_cpu(0, 1000, false), (Plan::Plain { cycles: 1000 }, NONE));
    assert_eq!(plain.run_cpu(1000, 1000, false), (Plan::Done, NONE));
    let mut kcs = bridge(0x1C, |_| {});
    kcs.release_reset();
    let all = Plan::Watched { cycles: 1000, insns: u64::MAX, watch_io: true };
    assert_eq!(kcs.run_cpu(0, 1000, false), (all, NONE));
    let mut epyx = bridge(0x02, |_| {});
    epyx.release_reset();
    match epyx.run_cpu(0, 1000, false) {
        (Plan::Watched { cycles, .. }, _) => assert_eq!(cycles, EPYX_CYCLES),
        (plan, _) => panic!("{plan:?}"),
    }
}

#[test]
fn a_freeze_enters_through_the_cart_vector() {
    let romh = ROM_BASE + 0x2000;
    let mut b = bridge(0x19, |ddr| ddr[romh + 0x1FFA..romh + 0x1FFC].copy_from_slice(&[0x10, 0xE0]));
    b.release_reset();
    b.slot.cart.bus_write(0xDFFF, 0xC0, 0, false);
    assert!(!b.cart_active());
    assert_eq!(b.set_freeze_button(true).nmi, Some(true), "the button pulls NMI");
    assert_eq!(b.run_cpu(0, 100, false).0, Plan::Watched { cycles: 100, insns: 1, watch_io: false });
    let (pc, _) = b.after_run(Some(0xFFFA), 7);
    assert_eq!((pc, b.cart_active()), (Some(0xE010), true));
}

#[test]
fn interrupt_inputs_move_once() {
    let mut b = Bridge::new(CartLogic::new());
    assert_eq!(b.set_nmi(true).nmi, Some(true));
    assert_eq!(b.set_nmi(true), NONE);
    assert_eq!(b.apply_interrupts(), NONE);
    assert_eq!(b.set_nmi(false).nmi, Some(false));
}

#[test]
fn an_nmi_waits_for_its_delay() {
    assert!(!nmi_due(false, 0xEA, 100, 2), "none pending");
    assert!(!nmi_due(true, 0, 100, 2), "no opcode yet");
    assert!(nmi_due(true, 0xEA, 2, 2));
    assert!(!nmi_due(true, 0xEA, 1, 2));
    assert!(!nmi_due(true, 0xEA | DELAYS_INTERRUPT, 2, 2), "a delayed one takes a cycle more");
    assert!(nmi_due(true, 0xEA | DELAYS_INTERRUPT, 3, 2));
}

#[test]
fn dma_reads_find_the_sids() {
    assert_eq!(dma_read_from(0xD400, true, true, true, Some(1)), Source::Ram);
    assert_eq!(dma_read_from(0xD400, false, true, true, Some(1)), Source::Value(1));
    assert_eq!(dma_read_from(0xD400, false, true, true, None), Source::Value(0), "no SID decodes it");
    assert_eq!(dma_read_from(0xD400, false, false, true, Some(1)), Source::Bus, "I/O banked out");
    assert_eq!(dma_read_from(0xDE00, false, true, true, None), Source::Bus);
    assert_eq!(dma_peek_from(0xD41C, true, Some(9)), Source::Value(9));
    assert_eq!(dma_peek_from(0xD41C, true, None), Source::Value(0));
    assert_eq!(dma_peek_from(0x8000, true, None), Source::Bus);
}

#[test]
fn held_chips_keep_the_timed_line() {
    let mut epyx = bridge(0x02, |_| {});
    assert!(!epyx.run_chips(10), "no CIAs in reset");
    epyx.release_reset();
    epyx.set_stopped(true);
    assert!(epyx.run_chips(100));
    assert_eq!(epyx.slot.cart.run_hints().deadline, Some(110 + EPYX_CYCLES));
}
