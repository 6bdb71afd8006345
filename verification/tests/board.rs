//! The board's windows.
use ue2emu::board::install;
use ue2emu::c64_install;
use ue2emu::devices::install_all;
use ue2emu::iec;
use ue2emu::io::IoCtx;
use ue2emu::iomap::{add_table, Device, IoMap, Window, IO_GRAIN};
use ue2emu::machine::MachineConfig;
use ue2emu::mock::{Call, Mock};
use ue2emu::regtable::{at, Reg, RegTable};

fn cfg() -> MachineConfig {
    MachineConfig::new(String::new(), String::new())
}

/// Resolves through the map; reads 0 where nothing is mapped.
struct Rig {
    map: IoMap<Mock>,
    ctx: IoCtx,
}

impl Rig {
    fn new(install: fn(&mut IoMap<Mock>, &MachineConfig)) -> Self {
        let mut map = IoMap::new();
        install(&mut map, &cfg());
        Rig { map, ctx: IoCtx::new(vec![0; 16]) }
    }

    fn r8(&mut self, addr: u32) -> u8 {
        let Some((dev, off)) = self.map.resolve(addr) else { return 0 };
        self.map.devices[dev].read8(off, &mut self.ctx)
    }

    fn w8(&mut self, addr: u32, val: u8) {
        let Some((dev, off)) = self.map.resolve(addr) else { return };
        self.map.devices[dev].write8(off, val, &mut self.ctx);
    }
}

#[test]
fn m1_boardrev_independent() {
    let mut rig = Rig::new(install);
    assert_eq!(rig.r8(0x1010_000C), 0xB8);
    rig.w8(0x1010_000C, 0xFF);
    assert_eq!(rig.r8(0x1010_000C), 0xB8);
    assert_eq!(rig.r8(0x1010_000C) >> 3, 0x17);
    assert_eq!(rig.r8(0x1010_0006), 1, "GET_MDIO: line released, no PHY frame in progress");
}

#[test]
fn b5_usb_reset_latches() {
    let mut rig = Rig::new(install);
    rig.w8(0x1010_000D, 1);
    assert!((0..50).all(|_| rig.r8(0x1010_000D) == 1));
    rig.w8(0x1010_000D, 0);
    assert_eq!(rig.r8(0x1010_000D), 0);
    rig.w8(0x1010_000F, 0x80);
    assert_eq!(rig.r8(0x1010_000F), 0);
    rig.w8(0x1010_000F, 0x01);
    assert_eq!(rig.r8(0x1010_000F), 1);
}

#[test]
fn write_only_sinks_read_zero() {
    let mut rig = Rig::new(install);
    rig.w8(0x1010_0500, 0x55);
    rig.w8(0x1020_00FF, 0xB3);
    assert_eq!(rig.r8(0x1010_0500), 0);
    assert_eq!(rig.r8(0x1020_00FF), 0);
    assert_eq!(rig.r8(0x1010_0802), 0, "Blingboard not installed");
}

#[test]
fn reg_table_ops() {
    let spans = vec![
        at(0, Reg::Const(0x5A)),
        at(1, Reg::Latch { mask: 0x0F, init: 0x03 }),
        at(2, Reg::Gated { mask: 0x01, veto: 0x80 }),
        at(3, Reg::SetBits { cell: 1, mask: 0x0F, read: Some(0x11) }),
        at(4, Reg::ClearBits { cell: 1, mask: 0x0F, read: None }),
    ];
    let mut t = RegTable::new("t", spans);
    t.set(0, 0);
    assert_eq!(t.get(0), 0x5A);
    assert_eq!(t.get(1), 0x03);
    t.set(1, 0xF4);
    assert_eq!(t.get(1), 0x04);
    t.set(2, 0x81);
    assert_eq!(t.get(2), 0);
    t.set(2, 0x01);
    assert_eq!(t.get(2), 1);
    t.set(3, 0xF1);
    assert_eq!((t.get(3), t.get(1)), (0x11, 0x05));
    t.set(4, 0x04);
    assert_eq!(t.get(4), 0x01);
    assert_eq!(t.get(99), 0, "unlisted offsets are RAZ");
    t.reset();
    assert_eq!((t.get(1), t.get(2)), (0x03, 0));
}

/// Windows of the interrupt controller, the network, the flash, the overlay and the
/// SD card.
const FOREIGN: &[(u32, u32)] = &[
    (0x1000_0000, 0x100),
    (0x1006_0000, 0x100),
    (0x1006_0200, 0x100),
    (0x1006_0900, 0x100),
    (0x1010_0400, 0x100),
    (0x1014_0000, 0x1_0000),
];

#[test]
fn s04_leaves_foreign_windows_free() {
    let mut map: IoMap<Mock> = IoMap::new();
    let installs: [fn(&mut IoMap<Mock>, &MachineConfig); 3] =
        [install, c64_install::install, iec::install];
    for install in installs {
        install(&mut map, &cfg());
    }
    for &(base, size) in FOREIGN {
        for addr in (base..base + size).step_by(IO_GRAIN as usize) {
            assert!(map.resolve(addr).is_none(), "{addr:#010x} is mapped");
        }
    }
}

#[test]
fn install_all_maps_every_device() {
    let mut map: IoMap<Mock> = IoMap::new();
    install_all(&mut map, &cfg());
    for addr in [0x1002_1806, 0x1002_8000, 0x1004_0001, 0x1005_D012, 0x1010_000C, 0x1018_A000] {
        assert!(map.resolve(addr).is_some(), "{addr:#010x} unmapped");
    }
    assert_eq!(map.resolve(0x0FFF_FFFF), None);
}

/// Two windows that share an address, of different devices.
fn overlap(map: &IoMap<Mock>) -> Option<(u32, u32)> {
    let end = |w: &Window| u64::from(w.base) + u64::from(w.size);
    for (i, a) in map.windows.iter().enumerate() {
        for b in &map.windows[..i] {
            if a.dev != b.dev && u64::from(a.base) < end(b) && u64::from(b.base) < end(a) {
                return Some((a.base, b.base));
            }
        }
    }
    None
}

/// The windows of the whole machine: those of `install_all`, and those that other
/// owners of devices add. None of the latter is taken.
#[test]
fn install_all_no_overlap() {
    let mut map: IoMap<Mock> = IoMap::new();
    install_all(&mut map, &cfg());
    for base in [0x1006_0400, 0x1006_0820, 0x1008_07F0, 0x1010_0700] {
        for addr in base..base + 0x10 {
            assert_eq!(map.resolve(addr), None, "{addr:#010x} is taken");
        }
        add_table(&mut map, base, 0x10, "other", Vec::new());
    }
    for addr in [
        0x1002_1806, 0x1002_8000, 0x1004_0001, 0x1005_D012, 0x1006_0400, 0x1006_082F, 0x1008_07F2, 0x1010_000C,
        0x1010_0701, 0x1018_A000,
    ] {
        assert!(map.resolve(addr).is_some(), "{addr:#010x} unmapped");
    }
    assert_eq!(overlap(&map), None);
}

#[test]
fn every_address_has_one_owner() {
    let mut map: IoMap<Mock> = IoMap::new();
    install_all(&mut map, &cfg());
    assert_eq!(overlap(&map), None);
    for (addr, name, off) in [
        (0x1002_8000, "c64", 0x2_8000),
        (0x1010_0500, "c64", 0x10_0500),
        (0x1004_4000, "uci", 0),
        (0x1004_4FFF, "uci", 0xFFF),
        (0x1004_8000, "c64", 0x4_8000),
    ] {
        let (dev, at) = map.resolve(addr).unwrap();
        assert_eq!((map.devices[dev].name(), at), (name, off), "{addr:#010x}");
    }
    for window in map.windows.clone() {
        for addr in [window.base, window.base + window.size - 1] {
            assert_eq!(map.resolve(addr), Some((window.dev, addr - window.origin)), "{addr:#010x}");
        }
    }
}

#[test]
fn mixer_writes_reach_the_c64() {
    let mut map: IoMap<Mock> = IoMap::new();
    install_all(&mut map, &cfg());
    map.attach_c64(Mock::new(), 0, None);
    let mut ctx = IoCtx::new(vec![0; 16]);
    let (dev, off) = map.resolve(0x1010_0503).unwrap();
    map.devices[dev].write8(off, 0x5A, &mut ctx);
    match &mut map.devices[dev] {
        Device::C64(p) => assert!(p.backend_mut().unwrap().take().contains(&Call::Mixer(3, 0x5A))),
        _ => unreachable!(),
    }
}

#[test]
fn each_install_alone_maps_its_own_windows() {
    for (install, addr, name) in [
        (install as fn(&mut IoMap<Mock>, &MachineConfig), 0x1010_0500, "audio-mixer"),
        (c64_install::install, 0x1004_4000, "c64"),
        (iec::install, 0x1002_8000, "iec"),
    ] {
        let mut map: IoMap<Mock> = IoMap::new();
        install(&mut map, &cfg());
        assert_eq!(overlap(&map), None);
        let (dev, _) = map.resolve(addr).unwrap();
        assert_eq!(map.devices[dev].name(), name, "{addr:#010x}");
    }
}

#[test]
fn devices_carry_their_names() {
    let mut map: IoMap<Mock> = IoMap::new();
    install_all(&mut map, &cfg());
    add_table(&mut map, 0x1010_0700, 0x10, "other", Vec::new());
    for (addr, name) in [(0x1010_000C, "u2pio"), (0x1004_0001, "c64"), (0x1010_0701, "other")] {
        let (dev, _) = map.resolve(addr).unwrap();
        assert_eq!(map.devices[dev].name(), name, "{addr:#010x}");
    }
}

#[test]
fn the_window_mapped_last_answers() {
    let mut map: IoMap<Mock> = IoMap::new();
    install(&mut map, &cfg());
    let (first, off) = map.resolve(0x1010_0010).unwrap();
    assert_eq!((first, off), (0, 0x10));
    map.map_origin(0x1010_0000, 0x20, 3, 0x1010_0000);
    assert_eq!(map.resolve(0x1010_0010), Some((3, 0x10)));
    assert_eq!(map.resolve(0x1010_0020), Some((0, 0x20)), "past the new window");
}
