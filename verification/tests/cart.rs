//! The cartridge logic and the slot in front of it.
use ue2emu::cart::CartLogic;
use ue2emu::cart_state::{
    freezer, modelled, Freeze, Layout, EPYX_CYCLES, GEORAM_BASE, RAM_BASE, ROM_BASE,
};
use ue2emu::proxy::{CartProxy, MapperType};
use ue2emu::uci::UciShared;

/// Guest memory with bank `b` of the cart ROM filled with `0x40 + b` for ROML and
/// `0x80 + b` for ROMH, and cart RAM zero.
fn ddr() -> Vec<u8> {
    let mut ddr = vec![0u8; 0x0400_0000];
    for bank in 0..64 {
        let base = ROM_BASE + bank * 0x4000;
        ddr[base..base + 0x2000].fill(0x40 + bank as u8);
        ddr[base + 0x2000..base + 0x4000].fill(0x80 + bank as u8);
    }
    ddr
}

fn logic(type_variant: u8, ddr: Vec<u8>) -> CartLogic {
    let mut c = CartLogic::new();
    c.set_ddr(Some(ddr));
    c.configure(type_variant, true, 0);
    c
}

/// The memory back from a cartridge.
fn back(mut c: CartLogic) -> Vec<u8> {
    c.set_ddr(None).unwrap()
}

fn lines(c: &CartLogic) -> (u8, u8) {
    let l = c.lines();
    (l.exrom, l.game)
}

#[test]
fn normal_variants_kill_and_force() {
    let mut c = logic(0x41, ddr());
    assert_eq!((lines(&c), c.bus_read(0x8000, 0), c.bus_read(0xA000, 0)), ((0, 1), Some(0x40), Some(0x80)));
    let memory = c.set_ddr(None).unwrap();
    let sixteen = logic(0x01, memory);
    assert_eq!(lines(&sixteen), (0, 0), "16K");
    let ultimax = logic(0xA1, back(sixteen));
    assert_eq!(lines(&ultimax), (1, 0), "ULTIMAX serving the VIC");
    let off = logic(0x61, back(ultimax));
    assert_eq!(lines(&off), (1, 1), "off");
    c.set_ddr(Some(back(off)));
    c.bus_write(0xDFFF, 0xC0, 0, false);
    assert!(c.active(), "bits 7:6 must be 01");
    assert!(!c.bus_write(0x8000, 0x12, 0, false), "8K: the write lands in RAM");
    assert!(c.bus_write(0xDFFF, 0x40, 0, false));
    assert_eq!((c.active(), lines(&c), c.bus_read(0x8000, 0)), (false, (1, 1), None));
    c.reset_line();
    assert!(c.active(), "the reset line enables it again");
    c.configure(0x41, false, 0);
    assert!(!c.active(), "a force without reset leaves the cart off");
    c.configure(0x00, true, 0);
    assert!(!c.active() && !c.present(), "type 0");
    c.set_ddr(None);
    c.configure(0x41, true, 0);
    assert_eq!(c.bus_read(0x8000, 0), None, "no DDR lent");
}

#[test]
fn ocean_magic_desk_and_gmod2_bank_in_8k() {
    let mut c = logic(0x08, ddr());
    assert!(c.bus_write(0xDE00, 0x85, 0, false));
    assert_eq!((c.bus_read(0x8123, 0), lines(&c), c.active()), (Some(0x45), (0, 1), true), "bank 5, bit 7 ignored");
    let mut md = logic(0x28, back(c));
    md.bus_write(0xDE00, 0x03, 0, false);
    assert_eq!(md.bus_read(0x9FFF, 0), Some(0x43));
    md.bus_write(0xDE00, 0x80, 0, false);
    assert_eq!((lines(&md), md.active()), ((1, 1), false), "Magic Desk bit 7 switches it off");
    md.kill();
    md.bus_write(0xDE00, 0x01, 0, false);
    assert_eq!((md.active(), md.bus_read(0x8000, 0)), (true, Some(0x41)));
    let mut g = logic(0x48, back(md));
    g.bus_write(0xDE00, 0x07, 0, false);
    assert_eq!(g.bus_read(0x8000, 0), Some(0x47));
    assert_eq!(g.bus_read(0xDE00, 0), Some(0x80), "EEPROM DO idles high in bit 7");
    g.bus_write(0xDE00, 0x40, 0, false);
    assert_eq!(lines(&g), (1, 1), "CS high disables the ROM");
}

#[test]
fn easyflash_modes_ram_and_ultimax_writes_land_in_ddr() {
    let mut c = logic(0x11, ddr());
    assert_eq!((lines(&c), c.bus_read(0xE000, 0)), ((1, 0), Some(0x80)), "boots ULTIMAX, bank 0 ROMH at $E000");
    c.bus_write(0xDE00, 0x02, 0, false);
    c.bus_write(0xDE02, 0x07, 0, false);
    assert_eq!((lines(&c), c.bus_read(0x8000, 0), c.bus_read(0xA000, 0)), ((0, 0), Some(0x42), Some(0x82)));
    c.bus_write(0xDE02, 0x06, 0, false);
    assert_eq!(lines(&c), (0, 1), "8K");
    c.bus_write(0xDE02, 0x04, 0, false);
    assert_eq!(lines(&c), (1, 1), "off");
    assert!(c.bus_write(0xDF10, 0x5A, 0, false));
    assert_eq!((c.bus_read(0xDF10, 0), c.peek(0xDE00)), (Some(0x5A), None), "IO2 RAM; IO1 is write-only");
    c.bus_write(0xDE02, 0x05, 0, false);
    c.bus_write(0xDE09, 0x65, 0, false);
    assert!(c.bus_write(0x8123, 0xA5, 0, false), "ULTIMAX write: no C64 RAM");
    assert!(c.bus_write(0xF000, 0x3C, 0, false));
    c.bus_write(0xDE02, 0x07, 0, false);
    assert_eq!((c.bus_read(0x8123, 0), c.bus_read(0xB000, 0)), (Some(0xA5), Some(0x3C)), "written to bank 2");
    c.bus_write(0xDE02, 0x05, 0, false);
    c.bus_write(0x8124, 0x11, 0, false);
    let ddr = c.set_ddr(None).unwrap();
    assert_eq!(
        [ddr[ROM_BASE + 2 * 0x4000 + 0x123], ddr[ROM_BASE + 2 * 0x4000 + 0x3000], ddr[ROM_BASE + 2 * 0x4000 + 0x124]],
        [0xA5, 0x3C, 0x42],
        "a $DE02 write clears the write key"
    );
    assert_eq!(ddr[RAM_BASE + 0x1F10], 0x5A);
}

#[test]
fn action_replay_retro_replay_and_fc3() {
    let mut ar = logic(0x1B, ddr());
    assert_eq!((lines(&ar), ar.bus_read(0x8000, 0)), ((0, 1), Some(0x40)), "8K bank 0");
    ar.bus_write(0xDE00, 0x08 | 0x20, 0, false);
    assert_eq!(ar.bus_read(0x8000, 0), Some(0), "RAM mode reads cart RAM");
    assert!(!ar.bus_write(0x8001, 0x77, 0, false), "8K RAM write also reaches C64 RAM");
    ar.bus_write(0xDE00, 0x08, 0, false);
    assert_eq!(ar.bus_read(0x8001, 0), Some(0x41), "bank 1 ROM again");
    ar.bus_write(0xDE00, 0x04, 0, false);
    assert!(!ar.active(), "bit 2 disables");
    let mut rr = logic(0x3B, back(ar));
    rr.bus_write(0xDE01, 0x02, 0, false);
    rr.bus_write(0xDE00, 0x98 | 0x20, 0, false);
    rr.bus_write(0x8000, 0x99, 0, false);
    assert_eq!(rr.bus_read(0x8000, 0), Some(0x99));
    let ddr = rr.set_ddr(None).unwrap();
    assert_eq!(ddr[RAM_BASE + (0b111 << 13)], 0x99, "RR allow_bank: RAM bank 7");
    let mut fc3 = logic(0x19, ddr);
    assert_eq!((lines(&fc3), fc3.bus_read(0xA000, 0), fc3.nmi()), ((0, 0), Some(0x80), false));
    fc3.bus_write(0xDFFF, 0x03 | 0x40 | 0x10, 0, false);
    assert_eq!((lines(&fc3), fc3.bus_read(0x8000, 0)), ((1, 0), Some(0x43)), "EXROM high: ULTIMAX, bank 3");
    fc3.bus_write(0xDFFF, 0x00, 0, false);
    assert!(fc3.nmi(), "bit 6 low holds NMI");
    fc3.bus_write(0xDFFF, 0x80 | 0x40, 0, false);
    assert!(!fc3.active());
}

#[test]
fn freeze_button_arms_enters_and_unfreezes() {
    let mut fc3 = logic(0x19, ddr());
    fc3.bus_write(0xDFFF, 0x80 | 0x40, 0, false);
    fc3.set_button(true);
    assert!(fc3.nmi() && fc3.run_hints().freeze_pending);
    fc3.enter_freeze();
    assert_eq!((fc3.active(), lines(&fc3), fc3.bus_read(0xFFFA, 0)), (true, (1, 0), Some(0x80)));
    fc3.bus_write(0xDFFF, 0x40, 0, false);
    assert_eq!((lines(&fc3), fc3.nmi(), fc3.freeze()), ((0, 0), false, Freeze::Button));
    fc3.set_button(false);
    assert_eq!(fc3.freeze(), Freeze::Idle);
    let mut normal = logic(0x41, back(fc3));
    normal.set_button(true);
    assert!(!normal.run_hints().freeze_pending, "no freezer");
}

#[test]
fn every_freeze_is_ultimax() {
    for logic_type in (0..0x20).filter(|&t| freezer(t)) {
        let mut c = logic(logic_type, vec![0; 16]);
        c.set_button(true);
        assert!(c.nmi() && c.run_hints().freeze_pending, "{logic_type:#04x}");
        c.enter_freeze();
        assert_eq!((c.freeze(), lines(&c)), (Freeze::Active, (1, 0)), "{logic_type:#04x}");
        c.configure(0x41, true, 0);
        assert_eq!(c.freeze(), Freeze::Idle, "another type has no freezer");
    }
}

#[test]
fn a_peek_returns_what_a_read_returns() {
    for logic_type in (0..0x20).filter(|&t| modelled(t)) {
        let mut c = logic(logic_type, ddr());
        for addr in [0x8000, 0x9FFF, 0xA123, 0xDE00, 0xDE80, 0xDF80, 0xE000, 0xFFFC] {
            let seen = c.peek(addr);
            assert_eq!(c.peek(addr), seen, "{logic_type:#04x} {addr:#06x}");
            assert_eq!(c.bus_read(addr, 1000), seen, "{logic_type:#04x} {addr:#06x}");
        }
    }
}

#[test]
fn read_triggered_and_timed_lines() {
    let mut kcs = logic(0x1C, ddr());
    assert!(kcs.run_hints().watch_io);
    assert_eq!(lines(&kcs), (0, 0));
    kcs.bus_read(0xDE02, 0);
    assert_eq!(lines(&kcs), (1, 1), "read with bit 1: off");
    kcs.bus_read(0xDE00, 0);
    assert_eq!(lines(&kcs), (0, 1), "8K");
    let mut epyx = logic(0x02, back(kcs));
    assert_eq!((lines(&epyx), epyx.run_hints().deadline), ((0, 1), Some(EPYX_CYCLES)));
    epyx.bus_read(0x8000, 300);
    epyx.set_clk(811);
    assert_eq!(lines(&epyx), (0, 1), "ROML read discharged at 300");
    epyx.set_clk(812);
    assert_eq!((lines(&epyx), epyx.run_hints().deadline), ((1, 1), None));
    assert_eq!((lines(&epyx), epyx.bus_read(0xDF00, 900)), ((1, 1), Some(0x40)), "IO2 ROM stays visible");
    epyx.bus_read(0xDE00, 1000);
    assert_eq!(lines(&epyx), (0, 1), "IO1 read switches it on");
}

#[test]
fn proxy_forced_ultimax_and_georam() {
    let mut cart = CartLogic::new();
    cart.set_ddr(Some(ddr()));
    cart.configure(0x41, true, 0);
    let mut uci = UciShared::default();
    let mut lens = CartProxy::new(cart, true);
    assert_eq!((lens.get_lines().exrom, lens.get_lines().game, lens.mapper_type()), (1, 0, MapperType::Ultimax));
    assert!(lens.write(&mut uci, 0x8000, 1, 0), "forced ULTIMAX: no C64 RAM");
    assert!(lens.write(&mut uci, 0xDFFF, 0x40, 0));
    assert_eq!((lens.cart.active(), lens.read(&mut uci, 0x8000, 0)), (false, None));
    lens.reset();
    lens.forced_ultimax = false;
    assert_eq!(lens.mapper_type(), MapperType::Normal8k);
    lens.forced_ultimax = true;
    lens.cart.configure(0x1F, true, 0);
    assert!(lens.write(&mut uci, 0xDFFE, 0x05, 0) && lens.write(&mut uci, 0xDFFF, 0x02, 0));
    assert!(lens.write(&mut uci, 0xDE10, 0xEE, 0));
    assert_eq!(lens.read(&mut uci, 0xDE10, 0), Some(0xEE));
    let ddr = lens.cart.set_ddr(None).unwrap();
    assert_eq!(ddr[GEORAM_BASE + (0x85 << 8) + 0x10], 0xEE, "GeoRAM page 0x85");
}

#[test]
fn the_command_interface_comes_before_the_cartridge() {
    let mut cart = CartLogic::new();
    cart.set_ddr(Some(ddr()));
    cart.configure(0x11, true, 0);
    let mut uci = UciShared::default();
    let mut slot = CartProxy::new(cart, false);
    assert!(slot.write(&mut uci, 0xDF18, 0x77, 0));
    assert_eq!(slot.read(&mut uci, 0xDF18, 0), Some(0x77), "disabled: the cartridge's RAM");
    uci.fw_write(0x01, 0x01);
    let base = (0xDE00..=0xDFFFu16).find(|&a| uci.c64_claims(a).is_some()).unwrap();
    assert!(slot.write(&mut uci, base + 5, 0x12, 0), "a claimed write does not land in RAM");
    uci.c64_write(4, 1);
    assert_eq!(uci.fw_read(0x0E), 1, "it was a command byte");
    assert_eq!(slot.read(&mut uci, base + 5, 0), Some(0xC9), "the identification, its interrupt masked");
    uci.fw_write(0x05, 0x07);
    assert_eq!(slot.read(&mut uci, base + 5, 0), Some(0x49), "its interrupt up");
}

#[test]
fn peeking_is_reading_without_side_effects() {
    let mut c = logic(0x1C, ddr());
    assert_eq!(c.peek(0x8000), Some(0x40));
    let before = lines(&c);
    c.peek(0xDE02);
    assert_eq!(lines(&c), before, "a peek switches nothing");
    assert_eq!(c.bus_read(0x8000, 0), Some(0x40));
    c.bus_read(0xDE02, 0);
    assert_ne!(lines(&c), before, "a read does");
}

#[test]
fn unused_types_are_not_modelled() {
    let all: Vec<u8> = (0..0x20).filter(|&t| !modelled(t)).collect();
    assert_eq!(all, [0x03, 0x12, 0x13, 0x14, 0x15, 0x16, 0x17, 0x1D, 0x1E]);
    let freezers: Vec<u8> = (0..0x20).filter(|&t| freezer(t)).collect();
    assert_eq!(freezers, [0x18, 0x19, 0x1A, 0x1B, 0x1C]);
}

#[test]
fn a_layout_of_its_own_moves_the_regions() {
    let layout = Layout::own();
    let mut memory = vec![0u8; 0x0180_0000];
    memory[layout.rom] = 0x5A;
    let mut c = CartLogic::with_layout(layout);
    c.set_ddr(Some(memory));
    c.configure(0x41, true, 0);
    assert_eq!(c.bus_read(0x8000, 0), Some(0x5A));
}

#[test]
fn gmod2_drives_and_reads_its_eeprom() {
    let mut g = logic(0x48, ddr());
    g.bus_write(0xDE00, 0x60, 0, false);
    let pins = g.eeprom_pins();
    assert_eq!((pins.cs, pins.clk, pins.di), (true, true, false));
    g.set_eeprom_out(false);
    assert_eq!(g.bus_read(0xDE00, 0), Some(0));
}
