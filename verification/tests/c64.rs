//! The C64's port.
use ue2emu::c64::{reu_size_kb, C64Port};
use ue2emu::c64_install::{install, windows};
use ue2emu::c64_state::{
    CART_ROM_SIZE, DMA, EEPROM, MATRIX_FREEZE, SAMPLER, SYNC_PERIOD, UCI, WASD_NONE,
};
use ue2emu::c64_tables::{CORE_VERSION, JOY1_SWOUT, JOY2_SWOUT};
use ue2emu::c64host::{C64Rom, CartRom, UciEvents};
use ue2emu::dmastub::RASTER_LINES;
use ue2emu::io::IoCtx;
use ue2emu::iomap::{Device, IoMap, IO_BASE};
use ue2emu::machine::MachineConfig;
use ue2emu::mock::{Call, Mock, MockSampler, MockUci};
use ue2emu::time::DMA_BYTE_CLOCKS;

const MODE_ADDR: u32 = 0x1004_0000;
const STOP_ADDR: u32 = 0x1004_0001;
const STOP_MODE: u32 = 0x1004_0002;
const CLOCK_DETECT_ADDR: u32 = 0x1004_0003;
const TYPE_ADDR: u32 = 0x1004_0005;
const KILL_ADDR: u32 = 0x1004_0006;
const DMA_ADDR: u32 = 0x1005_0000;
const REU_ENABLE_ADDR: u32 = 0x1004_0008;
const REU_SIZE_ADDR: u32 = 0x1004_0009;
const MATRIX_ADDR: u32 = 0x1010_0300;
const CORE_ADDR: u32 = 0x1018_0000;
const UCI_ADDR: u32 = 0x1004_4000;

/// Guest memory.
const RAM_SIZE: usize = 0x0400_0000;

fn cfg() -> MachineConfig {
    MachineConfig::new(String::new(), String::new())
}

/// The windows without a C64. Resolves through the map; reads 0 where nothing is
/// mapped.
struct Rig {
    map: IoMap<Mock>,
    ctx: IoCtx,
}

impl Rig {
    fn new() -> Self {
        let mut map = IoMap::new();
        install(&mut map, &cfg());
        Rig { map, ctx: IoCtx::new(vec![0; 16]) }
    }

    fn r8(&mut self, addr: u32) -> u8 {
        let Some((dev, off)) = self.map.resolve(addr) else { return 0 };
        self.map.devices[dev].read8(off, &mut self.ctx)
    }

    fn w8(&mut self, addr: u32, val: u8) {
        let Some((dev, off)) = self.map.resolve(addr) else { return };
        self.map.devices[dev].write8(off, val, &mut self.ctx);
    }

    fn r32(&mut self, addr: u32) -> u32 {
        (0..4).fold(0, |acc, i| acc | u32::from(self.r8(addr + i)) << (8 * i))
    }

    fn w32(&mut self, addr: u32, val: u32) {
        for i in 0..4 {
            self.w8(addr + i, (val >> (8 * i)) as u8);
        }
    }

    fn port(&mut self) -> &mut C64Port<Mock> {
        let i = self.map.find_port().unwrap();
        match &mut self.map.devices[i] {
            Device::C64(p) => p,
            _ => unreachable!(),
        }
    }
}

#[test]
fn c64_a5_uci_buffer_bases() {
    let mut rig = Rig::new();
    rig.w8(UCI_ADDR, 0x47);
    rig.w8(UCI_ADDR + 2, 0x87);
    assert_eq!([4, 5, 6, 7, 8, 9].map(|o| rig.r8(UCI_ADDR + o)), [0x00, 0x6F, 0x70, 0xDF, 0xE0, 0xFF]);
    assert_eq!((rig.r8(UCI_ADDR + 2), rig.r8(UCI_ADDR + 3)), (0, 0), "control and state read 0");
    assert_eq!(rig.r8(UCI_ADDR), 0x46);
    assert_eq!(rig.r8(UCI_ADDR + 0x0B), 0x07);
    rig.w8(UCI_ADDR + 0x05, 0x07);
    assert_eq!(rig.r8(UCI_ADDR + 0x0B), 0x00);
    rig.w8(UCI_ADDR + 0x04, 0x05);
    assert_eq!(rig.r8(UCI_ADDR + 0x0B), 0x05);
    assert_eq!(rig.r8(UCI_ADDR + 0x04), 0x00);
    rig.w8(UCI_ADDR + 0x01, 0x8B);
    assert_eq!(rig.r8(UCI_ADDR + 0x01), 0);
    rig.w8(UCI_ADDR + 0x01, 0x01);
    assert_eq!(rig.r8(UCI_ADDR + 0x01), 1);
    rig.w32(UCI_ADDR + 0xB80, 0x1234_5678);
    assert_eq!(rig.r32(UCI_ADDR + 0xB80), 0x1234_5678);
}

#[test]
fn c12_stop_ack_immediate() {
    let mut rig = Rig::new();
    rig.w8(STOP_MODE, 2);
    rig.w8(MODE_ADDR, 0);
    assert_eq!(rig.r8(STOP_ADDR) & 0x02, 0);
    rig.w8(STOP_ADDR, 1);
    assert_eq!(rig.r8(STOP_ADDR), 0x03);
    assert_eq!(rig.r8(STOP_MODE), 2);
    rig.w8(STOP_ADDR, 0);
    assert_eq!(rig.r8(STOP_ADDR), 0);
    rig.w8(0x1004_0011, 1);
    assert_eq!(rig.r8(STOP_ADDR), 0x03);
}

#[test]
fn c14_clock_detect() {
    let mut rig = Rig::new();
    rig.w8(MODE_ADDR, 0x08);
    assert_eq!(rig.r8(CLOCK_DETECT_ADDR), 0x01);
    assert_eq!(rig.r8(CLOCK_DETECT_ADDR) & 0x10, 0);
    rig.w8(CLOCK_DETECT_ADDR, 0xFF);
    assert_eq!(rig.r8(CLOCK_DETECT_ADDR), 0x01);
}

#[test]
fn c30_cart_latches() {
    let mut rig = Rig::new();
    rig.w8(MODE_ADDR, 0x04);
    assert_eq!(rig.r8(MODE_ADDR), 0x04);
    rig.w8(MODE_ADDR, 0x02);
    assert_eq!(rig.r8(MODE_ADDR), 0x06, "ULTIMAX set while reset is held");
    rig.w8(MODE_ADDR, 0x08);
    assert_eq!(rig.r8(MODE_ADDR), 0x02);
    rig.w8(MODE_ADDR, 0x10);
    assert_eq!(rig.r8(MODE_ADDR), 0x10);
    rig.w8(MODE_ADDR, 0x00);
    assert_eq!(rig.r8(MODE_ADDR), 0x00);
    assert_eq!(rig.r8(0x1004_0009), 0x07, "REU_SIZE reset");
    assert_eq!(rig.r8(0x1004_000C), 0x01, "PHI2_EDGE_RECOVER reset");
    rig.w8(TYPE_ADDR, 0x41);
    rig.w8(KILL_ADDR, 0x02);
    rig.w8(0x1004_000A, 0xFF);
    rig.w8(0x1004_000D, 0x03);
    assert_eq!(rig.r8(TYPE_ADDR), 0x41);
    assert_eq!(rig.r8(KILL_ADDR), 0, "CARTRIDGE_ACTIVE");
    assert_eq!(rig.r8(0x1004_000A), 0);
    assert_eq!(rig.r8(0x1004_000D), 0x01);
}

#[test]
fn reu_size_is_the_firmware_table() {
    assert_eq!([0, 1, 2, 3, 4, 5, 6, 7].map(reu_size_kb), [128, 256, 512, 1024, 2048, 4096, 8192, 16384]);
    assert_eq!(reu_size_kb(0xFF), 16384, "the register is three bits (CART_REGS latches it with mask 0x07)");
}

#[test]
fn reu_enable_and_size_reach_the_backend() {
    let mut b = Bench::new();
    assert_eq!(b.r8(REU_SIZE_ADDR), 0x07, "C64_REU_SIZE resets to 16 MB");
    assert_eq!(b.r8(REU_ENABLE_ADDR), 0x00, "and the REU is off");
    assert!(!b.mock().reu().is_some());

    b.w8(REU_ENABLE_ADDR, 0);
    b.w8(REU_SIZE_ADDR, 2);
    b.w8(REU_ENABLE_ADDR, 1);
    assert_eq!(b.mock().take(), [Call::Reu(false), Call::ReuSize(512), Call::Reu(true)]);
    assert_eq!(b.mock().reu(), Some(512), "a 512 KB REU is on the port");
    assert_eq!((b.r8(REU_SIZE_ADDR), b.r8(REU_ENABLE_ADDR)), (2, 1), "read-back is the latch");

    b.w8(REU_SIZE_ADDR, 7);
    assert_eq!(b.mock().take(), [Call::ReuSize(16384)]);
    assert_eq!(b.mock().reu(), Some(16384), "still attached, now 16 MB");

    b.w8(REU_SIZE_ADDR, 0xF8);
    assert_eq!((b.r8(REU_SIZE_ADDR), b.mock().take()), (0, vec![Call::ReuSize(128)]));
    b.w8(REU_ENABLE_ADDR, 0xFE);
    assert_eq!((b.r8(REU_ENABLE_ADDR), b.mock().take()), (0, vec![Call::Reu(false)]));
    assert!(!b.mock().reu().is_some(), "off the port again");
}

#[test]
fn c16_d012_reaches_ff() {
    let mut rig = Rig::new();
    let reads = (1..=u32::from(RASTER_LINES)).find(|_| rig.r8(DMA_ADDR + 0xD012) == 0xFF);
    assert_eq!(reads, Some(255));
    assert_eq!(rig.r8(DMA_ADDR + 0xD011) & 0x80, 0);
    assert!((0..RASTER_LINES).map(|_| rig.r8(DMA_ADDR + 0xD012)).any(|v| v == 0xFF), "wraps and comes back");
    let port = rig.port();
    assert_eq!(port.peek8(DMA + 0xD012), port.peek8(DMA + 0xD012), "peek does not advance");
    rig.w8(DMA_ADDR + 0xD011, 0x1B);
    while rig.r8(DMA_ADDR + 0xD012) != 0x00 {}
    assert_eq!(rig.r8(DMA_ADDR + 0xD011), 0x9B);
    assert_eq!(rig.r8(DMA_ADDR + 0xD019), 0);
}

#[test]
fn c18_dc01_stable() {
    let mut rig = Rig::new();
    rig.w8(DMA_ADDR + 0xDC02, 0xFF);
    rig.w8(DMA_ADDR + 0xDC03, 0x00);
    rig.w8(DMA_ADDR + 0xDC00, 0x00);
    assert_eq!(rig.r8(DMA_ADDR + 0xDC01), 0xFF);
    assert_eq!(rig.r8(DMA_ADDR + 0xDC01), rig.r8(DMA_ADDR + 0xDC01));
    rig.w8(DMA_ADDR + 0xDC00, 0xFF);
    assert_eq!(rig.r8(DMA_ADDR + 0xDC00), 0xFF);
    rig.w8(DMA_ADDR + 0xD41D, b'S');
    assert_eq!([0xD400, 0xD401, 0xD41B, 0xD41C, 0xD51B].map(|a| rig.r8(DMA_ADDR + a)), [0; 5]);
    rig.w32(DMA_ADDR + 0x0800, 0xDEAD_BEEF);
    assert_eq!(rig.r32(DMA_ADDR + 0x0800), 0xDEAD_BEEF);
}

#[test]
fn c19_matrix_wasd_32bit_store() {
    let mut rig = Rig::new();
    rig.w32(0x1010_030B, 0x0403_0201);
    assert_eq!([0x30B, 0x30C, 0x30D, 0x30E].map(|o| rig.r8(0x1010_0000 + o)), [1, 2, 3, 4]);
}

#[test]
fn s37_wasd_to_joy_folds_into_the_keys_port() {
    let mut b = Bench::new();
    for (i, code) in [5u8, 6, 7, 8].into_iter().enumerate() {
        b.w8(MATRIX_ADDR + 0x0B + i as u32, code);
    }
    b.mock().take();

    b.port().set_key(0, 5, true);
    assert_eq!(b.mock().take(), [Call::Joystick(1, 0xFF), Call::Joystick(2, 0xFE), Call::Key(0, 5, true)]);

    b.port().set_key(0, 6, true);
    assert_eq!(b.mock().take(), [Call::Joystick(1, 0xFF), Call::Joystick(2, 0xFC), Call::Key(0, 6, true)]);

    b.port().set_key(0, 5, false);
    assert_eq!(b.mock().take(), [Call::Joystick(1, 0xFF), Call::Joystick(2, 0xFD), Call::Key(0, 5, false)]);

    b.port().set_key(1, 1, true);
    assert_eq!(b.mock().take(), [Call::Key(1, 1, true)], "no joystick call for an unassigned key");

    b.port().set_joystick(1, 0xF7);
    assert_eq!(b.mock().take(), [Call::Joystick(1, 0xF7), Call::Joystick(2, 0xFD)]);
}

#[test]
fn s37_wasd_fire_folds_into_bit_4() {
    let mut b = Bench::new();
    for (i, code) in [5u8, 6, 7, 8].into_iter().enumerate() {
        b.w8(MATRIX_ADDR + 0x0B + i as u32, code);
    }
    b.port().set_wasd_fire(9);
    b.mock().take();

    b.port().set_key(1, 1, true);
    assert_eq!(b.mock().take(), [Call::Joystick(1, 0xFF), Call::Joystick(2, 0xEF), Call::Key(1, 1, true)]);

    b.port().set_key(0, 5, true);
    assert_eq!(b.mock().take(), [Call::Joystick(1, 0xFF), Call::Joystick(2, 0xEE), Call::Key(0, 5, true)]);

    b.port().set_key(1, 1, false);
    assert_eq!(b.mock().take(), [Call::Joystick(1, 0xFF), Call::Joystick(2, 0xFE), Call::Key(1, 1, false)]);

    b.port().set_wasd_fire(WASD_NONE);
    assert_eq!(b.mock().take(), []);
    b.port().set_key(1, 1, true);
    assert_eq!(b.mock().take(), [Call::Key(1, 1, true)]);
}

#[test]
fn a_released_key_lets_its_line_go_whatever_was_assigned() {
    let mut p: C64Port<Mock> = C64Port::new();
    p.set_wasd_fire(9);
    p.set_key(1, 1, true);
    assert_eq!(p.joy_lines(), [0xFF, 0xEF]);
    p.set_wasd_fire(0xFF);
    assert_eq!(p.joy_lines(), [0xFF, 0xEF], "folded until its own key is released");
    p.set_key(1, 1, false);
    assert_eq!(p.joy_lines(), [0xFF, 0xFF]);
    p.set_key(1, 1, true);
    assert_eq!(p.joy_lines(), [0xFF, 0xFF], "the next press no longer matches");

    p.set_wasd_to_joy([5, 6, 7, 8]);
    p.set_key(0, 5, true);
    p.set_wasd_to_joy([6, 5, 7, 8]);
    assert_eq!(p.joy_lines(), [0xFF, 0xFE], "up, as when it was pressed");
    p.set_key(0, 6, true);
    p.set_key(0, 6, false);
    assert_eq!(p.joy_lines(), [0xFF, 0xFE], "the first key still holds the line");
    p.set_key(0, 5, false);
    assert_eq!(p.joy_lines(), [0xFF, 0xFF]);
}

#[test]
fn a_register_takes_no_line_from_a_held_key() {
    let mut b = Bench::new();
    for (i, code) in [5u8, 6, 7, 8].into_iter().enumerate() {
        b.w8(MATRIX_ADDR + 0x0B + i as u32, code);
    }
    b.port().set_key(0, 7, true);
    b.w8(MATRIX_ADDR + 0x0D, 0x20);
    b.mock().take();
    b.port().set_key(0, 7, false);
    assert_eq!(b.mock().take(), [Call::Joystick(1, 0xFF), Call::Joystick(2, 0xFF), Call::Key(0, 7, false)]);
}

/// Only a write that hands the cartridge over needs memory as far as its ROM.
#[test]
fn other_cartridge_registers_need_no_rom() {
    let mut p: C64Port<Mock> = C64Port::new();
    p.attach(Mock::new(), 0);
    let mut ctx = IoCtx::new(vec![0; 16]);
    for (addr, val) in [
        (MODE_ADDR, 0x02),
        (MODE_ADDR, 0x04),
        (STOP_ADDR, 0x01),
        (KILL_ADDR, 0x01),
        (REU_ENABLE_ADDR, 0x01),
    ] {
        p.write8(addr - IO_BASE, val, &mut ctx);
    }
    let calls = p.backend_mut().unwrap().take();
    for call in [Call::Ultimax(true), Call::Reset(true), Call::Stopped(true), Call::Kill, Call::Reu(true)] {
        assert!(calls.contains(&call), "{call:?}");
    }
}

#[test]
fn s37_wasd_to_joy_port_is_settable() {
    let mut b = Bench::new();
    for (i, code) in [5u8, 6, 7, 8].into_iter().enumerate() {
        b.w8(MATRIX_ADDR + 0x0B + i as u32, code);
    }
    b.mock().take();

    b.port().set_wasd_to_joy_port(1);
    assert_eq!(b.mock().take(), [Call::Joystick(1, 0xFF), Call::Joystick(2, 0xFF)]);

    b.port().set_key(0, 7, true);
    assert_eq!(b.mock().take(), [Call::Joystick(1, 0xFB), Call::Joystick(2, 0xFF), Call::Key(0, 7, true)]);

    b.port().set_wasd_to_joy_port(2);
    assert_eq!(b.mock().take(), [Call::Joystick(1, 0xFF), Call::Joystick(2, 0xFB)], "the held key follows the port");
}

#[test]
fn h10_cia1_port_b_scans_the_keyboard() {
    let mut rig = Rig::new();
    rig.w8(DMA_ADDR + 0xDC00, 0x00);
    assert_eq!(rig.r8(DMA_ADDR + 0xDC01), 0xFF, "no key");
    rig.port().set_key(3, 1, true);
    assert_eq!(rig.r8(DMA_ADDR + 0xDC01), 0xFD, "all rows selected");
    rig.w8(DMA_ADDR + 0xDC00, 0xF7);
    assert_eq!((rig.r8(DMA_ADDR + 0xDC01), rig.r8(DMA_ADDR + 0xDC01)), (0xFD, 0xFD), "row 3, stable");
    assert_eq!(rig.port().dma_peek(0xDC01), 0xFD, "dma_peek sees the same");
    rig.w8(DMA_ADDR + 0xDC00, 0xFE);
    assert_eq!(rig.r8(DMA_ADDR + 0xDC01), 0xFF, "row 0");
    assert_eq!(rig.r8(DMA_ADDR + 0xDC00), 0xFF, "port A still reads no joystick (H11)");
    rig.port().reset();
    rig.w8(DMA_ADDR + 0xDC00, 0x00);
    assert_eq!(rig.r8(DMA_ADDR + 0xDC01), 0xFD, "a held key survives a reset");
    rig.port().set_key(3, 1, false);
    rig.port().set_key(8, 0, true);
    assert_eq!(rig.r8(DMA_ADDR + 0xDC01), 0xFF, "released; positions outside the matrix are ignored");
}

#[test]
fn m8_rom_window_readback() {
    let mut rig = Rig::new();
    for (base, len) in [(0x1018_8000, 0x2000), (0x1018_A000, 0x2000), (0x1018_C000, 0x1000)] {
        rig.w32(base, 0x0403_0201);
        rig.w8(base + len - 1, 0xA5);
        assert_eq!(rig.r32(base), 0x0403_0201);
        assert_eq!(rig.r8(base + len - 1), 0xA5);
    }
}

#[test]
fn c30_core_config_latches() {
    let mut rig = Rig::new();
    assert_eq!(rig.r8(0x1018_0010), CORE_VERSION);
    rig.w8(0x1018_0010, 0x77);
    assert_eq!(rig.r8(0x1018_0010), CORE_VERSION);
    for off in [0x01, 0x03, 0x2B] {
        rig.w8(0x1018_0000 + off, 0x2B);
        assert_eq!(rig.r8(0x1018_0000 + off), 0x2B);
    }
    rig.w8(0x1018_0080, 0x33);
    assert_eq!(rig.r8(0x1018_0080), 0, "VOICE_ADSR");
    rig.w8(0x1018_1010, 0x5A);
    assert_eq!(rig.r8(0x1018_1010), 0x5A, "PLD");
    rig.w8(0x1018_0800, 0x5A);
    assert_eq!(rig.r8(0x1018_0800), 0, "palette is write-only");
}

#[test]
fn sampler_window_follows_the_backend() {
    const SAMPLER_ADDR: u32 = 0x1004_8000;
    let mut b = Bench::new();
    b.w8(SAMPLER_ADDR, 0xFF);
    assert_eq!(b.r8(SAMPLER_ADDR), 0, "no block: the window swallows writes and reads 0");
    assert_eq!(b.r8(SAMPLER_ADDR + 1), 0, "not even a version byte");
    assert_eq!(b.mock().take(), [], "and nothing reaches the backend");

    b.mock().sampler = Some(MockSampler::new());
    b.w8(SAMPLER_ADDR + 0x0E, 0x01);
    b.w8(SAMPLER_ADDR + 0x0F, 0x18);
    assert_eq!(b.mock().take(), [Call::Sampler(0x0E, 0x01), Call::Sampler(0x0F, 0x18)]);
    assert_eq!(b.mock().sampler.as_ref().unwrap().regs[0x0E], 0x01, "the rate's high byte, MSB first");

    b.mock().sampler.as_mut().unwrap().status = 0x05;
    assert_eq!(b.r8(SAMPLER_ADDR), 0x05);
    assert_eq!(b.r8(SAMPLER_ADDR + 0xE0), 0x05, "every even offset is the same vector");
    assert_eq!(b.r8(SAMPLER_ADDR + 1), 0x10, "every odd one the version");
    assert_eq!(b.r8(SAMPLER_ADDR + 0x0D), 0x10);
    assert_eq!(b.port().peek8(SAMPLER + 0x0D), 0x10);
    assert_eq!(b.port().peek8(SAMPLER + 0x0C), 0x05);
    assert_eq!(b.r8(SAMPLER_ADDR + 0x1FFF), 0x10);
}

#[test]
fn mixer_writes_reach_the_backend() {
    const MIXER_ADDR: u32 = 0x1010_0500;
    let mut b = Bench::new();
    b.mock().take();
    b.w8(MIXER_ADDR, 0x5A);
    b.w8(MIXER_ADDR + 0x13, 0x04);
    b.w8(MIXER_ADDR + 0x14, 0x77);
    b.w8(MIXER_ADDR + 0x40, 0x55);
    let calls = [Call::Mixer(0x00, 0x5A), Call::Mixer(0x13, 0x04)];
    assert_eq!(b.mock().take(), calls, "no sync, and the speaker mixer stays a sink");
    for off in [0x00, 0x13, 0x14, 0x40, 0xFF] {
        assert_eq!(b.r8(MIXER_ADDR + off), 0, "write-only: {off:#x}");
    }
    assert_eq!(b.mock().take(), [], "a read reaches nothing");
}

#[test]
fn the_sampler_enable_latch_reaches_the_backend() {
    const SAMPLER_ENABLE_ADDR: u32 = 0x1004_000E;
    let mut b = Bench::new();
    assert_eq!(b.r8(SAMPLER_ENABLE_ADDR), 0, "cleared at the start of set_emulation_flags");
    b.mock().take();
    b.w8(SAMPLER_ENABLE_ADDR, 0x01);
    assert_eq!(b.r8(SAMPLER_ENABLE_ADDR), 0x01, "the read-back the firmware prints");
    assert_eq!(b.mock().take(), [Call::SamplerEnable(true)]);
    b.w8(SAMPLER_ENABLE_ADDR, 0xFE);
    assert_eq!(b.r8(SAMPLER_ENABLE_ADDR), 0, "one bit wide");
    assert_eq!(b.mock().take(), [Call::SamplerEnable(false)]);
}

#[test]
fn install_maps_one_port_with_absolute_offsets() {
    let mut map: IoMap<Mock> = IoMap::new();
    install(&mut map, &cfg());
    let port = map.resolve(0x1004_0000).unwrap().0;
    for (off, size) in windows() {
        assert_eq!(map.resolve(IO_BASE + off), Some((port, off)));
        assert_eq!(map.resolve(IO_BASE + off + size - 1), Some((port, off + size - 1)));
    }
    assert_eq!(map.devices[port].name(), "c64");
    assert_ne!(map.resolve(0x1018_1000).unwrap().0, port, "PLD stays a table");
}

struct Bench {
    map: IoMap<Mock>,
    ctx: IoCtx,
}

impl Bench {
    fn new() -> Self {
        let mut map = IoMap::new();
        install(&mut map, &cfg());
        let mut b = Bench { map, ctx: IoCtx::new(vec![0; RAM_SIZE]) };
        b.port().attach(Mock::new(), 0);
        assert_eq!(
            b.mock().take(),
            [Call::CartRom(CartRom::large()), Call::Advance(0)],
            "attach anchors the clock"
        );
        b
    }

    fn r8(&mut self, addr: u32) -> u8 {
        let (dev, off) = self.map.resolve(addr).expect("mapped");
        self.map.devices[dev].read8(off, &mut self.ctx)
    }

    fn w8(&mut self, addr: u32, val: u8) {
        let (dev, off) = self.map.resolve(addr).expect("mapped");
        self.map.devices[dev].write8(off, val, &mut self.ctx);
    }

    fn port(&mut self) -> &mut C64Port<Mock> {
        let i = self.map.find_port().unwrap();
        match &mut self.map.devices[i] {
            Device::C64(p) => p,
            _ => unreachable!(),
        }
    }

    fn mock(&mut self) -> &mut Mock {
        self.port().backend_mut().unwrap()
    }

    fn tick(&mut self) {
        let i = self.map.find_port().unwrap();
        match &mut self.map.devices[i] {
            Device::C64(p) => p.tick(&mut self.ctx),
            _ => unreachable!(),
        }
    }

    fn stall_of(&mut self, addr: u32, write: bool) -> u64 {
        self.ctx.stall = 0;
        if write {
            self.w8(addr, 0);
        } else {
            self.r8(addr);
        }
        self.ctx.stall
    }
}

#[test]
fn the_dma_window_charges_what_a_bus_cycle_costs() {
    let mut b = Bench::new();
    assert_eq!(b.stall_of(DMA_ADDR + 0x0400, false), DMA_BYTE_CLOCKS, "a DMA read waits");
    assert_eq!(b.stall_of(DMA_ADDR + 0x0400, true), DMA_BYTE_CLOCKS, "and so does a DMA write");
    assert_eq!(b.stall_of(STOP_ADDR, false), 0, "a register of the port itself does not");
    assert_eq!(b.stall_of(CORE_ADDR + 0x03, true), 0);
}

#[test]
fn backend_syncs_to_the_access_clock_first() {
    let mut b = Bench::new();
    assert_eq!(b.port().next_event(), Some(SYNC_PERIOD));
    b.ctx.now = 250;
    assert_eq!(b.r8(STOP_ADDR), 0);
    b.w8(DMA_ADDR + 0xD020, 0x0E);
    assert_eq!(b.mock().take(), [Call::Advance(250), Call::DmaWrite(0xD020, 0x0E, false)], "one sync per clock");
    b.w8(CORE_ADDR + 0x03, 1);
    b.ctx.now = 300;
    assert_eq!(b.r8(DMA_ADDR + 0x0801), !0x01);
    b.w8(STOP_ADDR, 1);
    b.w8(MATRIX_ADDR + 0x20, 0);
    assert_eq!(b.mock().take(), [Call::Advance(300), Call::DmaRead(0x0801, true), Call::Stopped(true)]);
    b.ctx.now = 400;
    b.w8(MATRIX_ADDR + 0x20, 0);
    assert_eq!(b.r8(STOP_ADDR), 0x03, "HAS_STOPPED at once");
    assert_eq!(b.port().peek8(DMA + 0xD012), !0x12, "peek reaches the backend");
    assert_eq!(b.mock().take(), [Call::Advance(400)]);
    assert_eq!(b.port().next_event(), Some(400 + SYNC_PERIOD));
    b.ctx.now = 400 + SYNC_PERIOD;
    b.tick();
    assert_eq!(b.mock().take(), [Call::Advance(400 + SYNC_PERIOD)]);
    b.w8(CORE_ADDR + 0x03, 0);
    b.w8(0x1018_8001, 0xA9);
    assert_eq!(b.r8(0x1018_A123), 0x23, "ROM windows read the backend");
    assert_eq!(b.mock().take(), [Call::RomWrite(C64Rom::Basic, 1, 0xA9)], "no sync for core config and ROMs");
}

#[test]
fn core_config_writes_reach_the_backend() {
    let mut b = Bench::new();
    b.w8(CORE_ADDR + 0x08, 0x40);
    b.w8(CORE_ADDR + 0x11, 1);
    assert_eq!(b.mock().core, [(0x08, 0x40), (0x11, 1)]);
    assert_eq!(b.r8(CORE_ADDR + 0x08), 0x40, "still a latch");
    assert!(b.mock().take().is_empty(), "no sync");
}

#[test]
fn mode_edges_drive_reset_ultimax_and_nmi() {
    let mut b = Bench::new();
    b.w8(TYPE_ADDR, 0x41);
    (b.ctx.ram[CartRom::large().base], b.ctx.ram[CartRom::large().base + CART_ROM_SIZE - 1]) = (0x09, 0xC3);
    b.w8(MODE_ADDR, 0x04);
    assert_eq!(b.r8(CLOCK_DETECT_ADDR), 0x11, "RESET sense while held");
    b.w8(MODE_ADDR, 0x04);
    b.w8(MODE_ADDR, 0x02);
    assert_eq!(b.mock().take(), [Call::Reset(true), Call::Ultimax(true)]);
    b.w8(MODE_ADDR, 0x08);
    assert_eq!(b.r8(CLOCK_DETECT_ADDR), 0x01);
    assert_eq!(b.mock().take(), [Call::Cart(0x41, 0x09, 0xC3, CART_ROM_SIZE), Call::Reset(false)]);
    b.w8(MODE_ADDR, 0x10);
    b.w8(MODE_ADDR, 0x00);
    assert_eq!(b.mock().take(), [Call::Ultimax(false), Call::Nmi(true), Call::Nmi(false)]);
    b.w8(MATRIX_ADDR + 9, 1);
    b.port().set_restore(true);
    b.w8(MATRIX_ADDR + 9, 0);
    b.port().set_restore(false);
    assert_eq!(b.mock().take(), [Call::Nmi(true), Call::Nmi(true), Call::Nmi(true), Call::Nmi(false)]);
}

#[test]
fn a_type_written_under_reset_reaches_the_cart_logic() {
    let mut b = Bench::new();
    (b.ctx.ram[CartRom::large().base], b.ctx.ram[CartRom::large().base + CART_ROM_SIZE - 1]) = (0x09, 0xC3);
    b.w8(TYPE_ADDR, 0x1B);
    assert!(b.mock().take().is_empty(), "no reset held: the type waits for the release");
    b.w8(MODE_ADDR, 0x04);
    b.w8(TYPE_ADDR, 0x00);
    b.w8(TYPE_ADDR, 0x1C);
    b.w8(MODE_ADDR, 0x08);
    assert_eq!(
        b.mock().take(),
        [
            Call::Reset(true),
            Call::Cart(0x00, 0x09, 0xC3, CART_ROM_SIZE),
            Call::Cart(0x1C, 0x09, 0xC3, CART_ROM_SIZE),
            Call::Cart(0x1C, 0x09, 0xC3, CART_ROM_SIZE),
            Call::Reset(false),
        ]
    );
}

#[test]
fn kill_strobes_and_active() {
    let mut b = Bench::new();
    b.ctx.ram[CartRom::large().base] = 0x55;
    b.w8(TYPE_ADDR, 0x01);
    b.w8(KILL_ADDR, 0x02);
    b.w8(KILL_ADDR, 0x01);
    assert_eq!(b.mock().take(), [Call::Cart(0x01, 0x55, 0x00, CART_ROM_SIZE), Call::Kill]);
    assert_eq!(b.r8(KILL_ADDR), 0);
    b.mock().active = true;
    assert_eq!(b.r8(KILL_ADDR), 1, "CARTRIDGE_ACTIVE from the backend");
    assert_eq!(b.r8(TYPE_ADDR), 0x01);
}

#[test]
fn the_cart_rom_is_read_where_this_firmware_puts_it() {
    let mut b = Bench::new();
    b.port().set_cart_rom(CartRom::small());
    (b.ctx.ram[CartRom::small().base], b.ctx.ram[CartRom::small().base + CART_ROM_SIZE - 1]) = (0x09, 0xC3);
    b.w8(TYPE_ADDR, 0x41);
    b.w8(KILL_ADDR, 0x02);
    assert_eq!(b.mock().take(), [Call::CartRom(CartRom::small()), Call::Cart(0x41, 0x09, 0xC3, CART_ROM_SIZE)]);
}

#[test]
fn ddr_is_lent_per_access_and_eeprom_and_freeze_reach_the_backend() {
    let mut b = Bench::new();
    b.w8(TYPE_ADDR, 0x48);
    b.w8(MODE_ADDR, 0x04);
    b.w8(DMA_ADDR + 0x8000, 1);
    assert_eq!(b.r8(DMA_ADDR + 0x8000), 0xFF);
    b.w8(MATRIX_ADDR + MATRIX_FREEZE, 1);
    b.ctx.now = SYNC_PERIOD;
    b.tick();
    b.w8(0x1004_C800, 0x12);
    assert_eq!((b.r8(0x1004_C801), b.r8(0x1004_CFFF)), (0x01 ^ 0xA5, 0xFF ^ 0xA5), "offsets from 0x1004C000");
    assert_eq!(
        b.mock().take(),
        [
            Call::Reset(true),
            Call::DmaWrite(0x8000, 1, false),
            Call::DmaRead(0x8000, false),
            Call::Freeze(true),
            Call::Advance(SYNC_PERIOD),
            Call::Eeprom(0x800, 0x12),
        ]
    );
    let lent = Some(RAM_SIZE);
    assert_eq!(b.mock().leases[2..], [lent, lent, lent, lent, lent, None], "EEPROM needs no DDR");
    assert_eq!(C64Port::<Mock>::new().peek8(EEPROM), 0, "T0: not dirty");
}

#[test]
fn uci_window_and_itu_bits_follow_the_backend() {
    let mut b = Bench::new();
    assert_eq!(b.r8(UCI_ADDR + 0x06), 0x70, "no block: the T0 table still answers");
    b.mock().uci = Some(MockUci::new());

    b.w8(UCI_ADDR + 0x01, 0x47);
    b.w8(UCI_ADDR + 0x800, 0x5A);
    assert_eq!((b.r8(UCI_ADDR + 0x01), b.r8(UCI_ADDR + 0x800)), (0x47, 0x5A));
    assert_eq!(b.port().peek8(UCI + 0x800), 0x5A);
    assert_eq!(b.r8(UCI_ADDR + 0x06), 0, "the T0 table is out of the way");
    assert_eq!(b.mock().take(), [Call::Uci(0x01, 0x47), Call::Uci(0x800, 0x5A)]);

    b.ctx.irq.mask = 0x90;
    b.mock().uci.as_mut().unwrap().irq = true;
    b.r8(UCI_ADDR + 0x03);
    assert_eq!(b.ctx.irq.active() & 0x10, 0x10);
    b.mock().uci.as_mut().unwrap().irq = false;
    b.r8(UCI_ADDR + 0x03);
    assert_eq!(b.ctx.irq.active() & 0x10, 0, "a level source follows its line");

    b.mock().uci.as_mut().unwrap().events = UciEvents { c64_reset: true, unlock: true };
    b.ctx.now = SYNC_PERIOD;
    b.tick();
    assert_eq!(b.ctx.irq.active() & 0x80, 0x80, "low bit 7 latched by the C64 reset edge");
    assert_eq!(b.ctx.irq.high_src & 1 << 6, 1 << 6, "high IRQ 6 on the unlock");
    assert_eq!(b.mock().take(), [Call::Advance(SYNC_PERIOD)]);
    b.w8(DMA_ADDR + 0xD038, 0);
    assert_eq!(b.ctx.irq.high_src & 1 << 6, 0);
    b.ctx.irq.clear(0x80);
    assert_eq!(b.ctx.irq.active(), 0, "one edge per reset");

    b.mock().uci = None;
    b.r8(UCI_ADDR + 0x03);
    assert_eq!(b.r8(UCI_ADDR + 0x06), 0x70);
}

#[test]
fn palette_matrix_keys_and_joysticks_reach_the_backend() {
    let mut b = Bench::new();
    b.w8(0x1018_0805, 0xEF);
    b.w8(0x1018_0C05, 0x12);
    b.w8(MATRIX_ADDR + 3, 0x10);
    for (i, byte) in 0x0403_0201u32.to_le_bytes().into_iter().enumerate() {
        b.w8(MATRIX_ADDR + 0x0B + i as u32, byte);
    }
    b.port().set_key(7, 7, true);
    b.port().set_joystick(2, 0xEF);
    b.w8(CORE_ADDR + JOY2_SWOUT, 0xFE);
    b.w8(CORE_ADDR + JOY1_SWOUT, 0xE0 | 0x0B);
    b.port().set_joystick(1, 0xF7);
    b.port().set_joystick(3, 0x00);
    let mut rows = [0; 8];
    rows[3] = 0x10;
    assert_eq!(
        b.mock().take(),
        [
            Call::Palette(5, 0xEF),
            Call::Matrix(rows),
            Call::Key(7, 7, true),
            Call::Joystick(1, 0xFF),
            Call::Joystick(2, 0xEF),
            Call::Joystick(1, 0xFF),
            Call::Joystick(2, 0xEE),
            Call::Joystick(1, 0xEB),
            Call::Joystick(2, 0xEE),
            Call::Joystick(1, 0xE3),
            Call::Joystick(2, 0xEE),
        ],
        "port 3 ignored"
    );
    let lines = b.port().joy_lines();
    assert_eq!(lines, [0xE3, 0xEE], "the wired AND, shared");
    assert_eq!(b.port().frame().map(|f| f.indices), Some(vec![1, 2]));
    assert_eq!(C64Port::<Mock>::new().frame(), None);
}
