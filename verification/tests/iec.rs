//! The IEC, ACIA and tape windows, and the command interface.
use ue2emu::iec::install;
use ue2emu::io::IoCtx;
use ue2emu::iomap::IoMap;
use ue2emu::machine::MachineConfig;
use ue2emu::mock::Mock;
use ue2emu::uci::{
    UciShared, RAM_WINDOW, RESP_ADDR, SLOT_COMMAND, SLOT_CONTROL, SLOT_RESPONSE, SLOT_STATUS,
    STATUS_ADDR,
};

/// Resolves through the map; reads 0 where nothing is mapped.
struct Rig {
    map: IoMap<Mock>,
    ctx: IoCtx,
}

impl Rig {
    fn new() -> Self {
        let mut map = IoMap::new();
        install(&mut map, &MachineConfig::new(String::new(), String::new()));
        Rig { map, ctx: IoCtx::new(vec![0; 16]) }
    }

    fn r8(&mut self, addr: u32) -> u8 {
        let Some((dev, off)) = self.map.resolve(addr) else { return 0 };
        self.map.devices[dev].read8(off, &mut self.ctx)
    }

    fn w8(&mut self, addr: u32, val: u8) {
        let Some((dev, off)) = self.map.resolve(addr) else { return };
        self.map.devices[dev].write8(off, val, &mut self.ctx);
    }

    fn r32(&mut self, addr: u32) -> u32 {
        (0..4).fold(0, |acc, i| acc | u32::from(self.r8(addr + i)) << (8 * i))
    }

    fn w32(&mut self, addr: u32, val: u32) {
        for i in 0..4 {
            self.w8(addr + i, (val >> (8 * i)) as u8);
        }
    }
}

#[test]
fn c22_iec_registers() {
    let mut rig = Rig::new();
    assert_eq!([0, 1, 2].map(|o| rig.r8(0x1002_8000 + o)), [0x25, 0x01, 0x01]);
    rig.w8(0x1002_8003, 0x00);
    for i in 0..0x768 {
        rig.w8(0x1002_8800 + i, i as u8);
    }
    rig.w8(0x1002_8844, 0x3F);
    rig.w8(0x1002_8828, 0x5F);
    rig.w8(0x1002_87FF, 0x3F);
    rig.w8(0x1002_87FF, 0x5F);
    assert_eq!(rig.r8(0x1002_87FF), 0);
    assert_eq!((rig.r8(0x1002_8844), rig.r8(0x1002_8828), rig.r8(0x1002_8F67)), (0x3F, 0x5F, 0x67));
    assert_eq!([1, 2].map(|o| rig.r8(0x1002_8000 + o)), [0x01, 0x01], "still idle");
}

#[test]
fn iec_a5_uci_buffer_bases() {
    let mut rig = Rig::new();
    rig.w8(0x1004_4000, 0x47);
    rig.w8(0x1004_4002, 0x87);
    assert_eq!(
        [4, 5, 6, 7, 8, 9].map(|o| rig.r8(0x1004_4000 + o)),
        [0x00, 0x6F, 0x70, 0xDF, 0xE0, 0xFF]
    );
    assert_eq!((rig.r8(0x1004_4002), rig.r8(0x1004_4003)), (0, 0), "control and state read 0");
    assert_eq!(rig.r8(0x1004_4000), 0x46);
    assert_eq!(rig.r8(0x1004_400B), 0x07);
    rig.w8(0x1004_4005, 0x07);
    assert_eq!(rig.r8(0x1004_400B), 0x00);
    rig.w8(0x1004_4004, 0x05);
    assert_eq!(rig.r8(0x1004_400B), 0x05);
    assert_eq!(rig.r8(0x1004_4004), 0x00);
    rig.w8(0x1004_4001, 0x8B);
    assert_eq!(rig.r8(0x1004_4001), 0);
    rig.w8(0x1004_4001, 0x01);
    assert_eq!(rig.r8(0x1004_4001), 1);
    rig.w32(0x1004_4B80, 0x1234_5678);
    assert_eq!(rig.r32(0x1004_4B80), 0x1234_5678);
}

/// A command and its response through both faces of the interface, with the C64 and
/// the firmware played by the test.
#[test]
fn uci_c64_round_trip() {
    let mut s = UciShared::default();
    s.fw_write(0x01, 0x01);
    assert_eq!(s.fw_read(0x01), 1);

    s.c64_write(SLOT_COMMAND, 0x01);
    s.c64_write(SLOT_CONTROL, 0x01);
    assert_eq!(s.fw_read(0x03) & 0x01, 0x01, "new-command flag visible to firmware");
    assert_eq!(s.fw_read(0x0E), 1, "command length");
    assert_eq!(s.window_read(RAM_WINDOW), 0x01, "command byte landed in the shared RAM");

    s.window_write(RAM_WINDOW + u32::from(RESP_ADDR), b'O');
    s.window_write(RAM_WINDOW + u32::from(RESP_ADDR) + 1, b'K');
    s.fw_write(0x0C, 2);
    s.fw_write(0x0D, 0);
    s.fw_write(0x02, 0x01);
    s.fw_write(0x02, 0x10);
    assert_eq!((s.fw_read(0x02) >> 4) & 0x03, 0b10, "state now data-last");

    assert_eq!(s.c64_read(SLOT_CONTROL) & 0x80, 0x80, "response-available flag");
    assert_eq!(s.c64_read(SLOT_RESPONSE), b'O');
    assert_eq!(s.c64_read(SLOT_RESPONSE), b'K');
    assert_eq!(s.c64_read(SLOT_RESPONSE), 0x00, "past response_length reads 0");

    s.c64_write(SLOT_CONTROL, 0x02);
    assert_eq!((s.fw_read(0x02) >> 4) & 0x03, 0b00, "back to idle");
}

#[test]
fn a6_acia_idle() {
    let mut rig = Rig::new();
    rig.w8(0x1004_A00A, 0x00);
    rig.w8(0x1004_A007, 0x00);
    assert_eq!(rig.r8(0x1004_A009), 0, "irq_source");
    assert_eq!(rig.r8(0x1004_A008), 0x40);
    rig.w8(0x1004_A007, 0x07);
    rig.w8(0x1004_A003, 0x10);
    rig.w8(0x1004_AA00, 0x41);
    assert_eq!((rig.r8(0x1004_A007), rig.r8(0x1004_A003), rig.r8(0x1004_AA00)), (0x07, 0x10, 0x41));
    assert_eq!((rig.r8(0x1004_A002), rig.r8(0x1004_A00A)), (0, 0));
}

#[test]
fn c26_tape_idle() {
    let mut rig = Rig::new();
    rig.w8(0x100A_0000, 0x06);
    rig.w8(0x100A_0000, 0x00);
    rig.w8(0x100C_0000, 0x00);
    rig.w8(0x100C_0000, 0x06);
    assert_eq!(rig.r8(0x100A_0000), 0x80);
    assert_eq!(rig.r8(0x100A_0800), 0x80);
    assert_eq!(rig.r8(0x100C_0000), 0x00);
    assert_eq!(rig.r32(0x100C_0800), 0);
}

#[test]
fn a_disabled_interface_claims_nothing() {
    let mut s = UciShared::default();
    assert_eq!(s.c64_claims(0xDF18), None);
    assert_eq!(s.c64_read(SLOT_CONTROL), 0xFF);
    s.fw_write(0x01, 0x01);
    let claimed: Vec<u16> = (0xDE00..=0xDFFF).filter(|&a| s.c64_claims(a).is_some()).collect();
    assert_eq!(claimed.len(), 8, "eight bytes of the I/O page");
    assert_eq!(s.c64_claims(claimed[0]), Some(0));
    assert_eq!(s.c64_claims(claimed[7]), Some(7));
}

#[test]
fn a_status_reads_back_and_ends() {
    let mut s = UciShared::default();
    s.fw_write(0x01, 0x01);
    s.c64_write(SLOT_COMMAND, 0x10);
    s.c64_write(SLOT_CONTROL, 0x01);
    s.window_write(RAM_WINDOW + u32::from(STATUS_ADDR), b'0');
    s.window_write(RAM_WINDOW + u32::from(STATUS_ADDR) + 1, b'1');
    s.fw_write(0x0A, 2);
    s.fw_write(0x02, 0x01);
    s.fw_write(0x02, 0x10);
    let first = s.c64_read(SLOT_STATUS);
    let second = s.c64_read(SLOT_STATUS);
    assert_eq!((first, second, s.c64_read(SLOT_STATUS)), (b'0', b'1', 0));
}

#[test]
fn a_masked_interface_is_silent() {
    let mut s = UciShared::default();
    s.fw_write(0x01, 0x01);
    s.fw_write(0x04, 0x07);
    s.c64_write(SLOT_COMMAND, 0x01);
    s.c64_write(SLOT_CONTROL, 0x01);
    assert!(!s.irq_line(), "all masked");
    s.fw_write(0x05, 0x07);
    assert!(s.irq_line(), "a new command waits");
    s.fw_write(0x02, 0x01);
    assert!(!s.irq_line(), "acknowledged");
}
