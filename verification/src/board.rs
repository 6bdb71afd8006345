//! The board's GPIO page and the windows around it that only swallow writes.
use crate::c64host::C64Backend;
use crate::iomap::{add_table, Device, DeviceState, IoMap, MapState};
use crate::machine::MachineConfig;
use crate::regtable::{at, Reg, RegTable, Span, TableState};
use vstd::prelude::*;

verus! {

/// Board revision 0x17 in bits 7:3.
pub const BOARDREV: u8 = 0xB8;

/// The bit-banged pins of the Ethernet PHY.
pub const GET_MDIO: u32 = 0x06;

pub const SET_MDC: u32 = 0x0A;

pub const SET_MDIO: u32 = 0x0B;

/// The PHY's management pins.
#[derive(Clone, Copy, Debug, PartialEq, Eq, Structural)]
pub struct MdioPins {
    /// The clock that the firmware drives.
    pub mdc: bool,
    /// The data level that the firmware drives.
    pub mdio: bool,
    /// The data line as the PHY leaves it: high while no frame is in progress.
    pub line: bool,
}

/// The GPIO page without the PHY's pins. The revision is a constant, though the
/// firmware writes the speaker enable to its address; the two reset lines latch
/// bit 0.
pub open spec fn u2pio_spans() -> Seq<Span> {
    seq![
        at(0x0C, Reg::Const(BOARDREV)),
        at(0x0D, Reg::Latch { mask: 0x01, init: 0 }),
        at(0x0F, Reg::Latch { mask: 0x01, init: 0 }),
    ]
}

fn u2pio_table() -> (v: Vec<Span>)
    ensures
        v@ == u2pio_spans(),
        crate::c64_tables::all_valid(v@),
{
    let v = vec![
        at(0x0C, Reg::Const(BOARDREV)),
        at(0x0D, Reg::Latch { mask: 0x01, init: 0 }),
        at(0x0F, Reg::Latch { mask: 0x01, init: 0 }),
    ];
    assert(v@ =~= u2pio_spans());
    v
}

/// What the GPIO page holds.
#[verifier::ext_equal]
pub struct U2pioState {
    pub table: TableState,
    pub phy: MdioPins,
}

impl U2pioState {
    pub open spec fn initial() -> U2pioState {
        U2pioState {
            table: TableState::initial("u2pio"@, u2pio_spans()),
            phy: MdioPins { mdc: false, mdio: true, line: true },
        }
    }

    pub open spec fn at(self, off: u32) -> u8 {
        if off == GET_MDIO {
            crate::uci::flag(self.phy.line) as u8
        } else {
            self.table.at(off)
        }
    }

    pub open spec fn put(self, off: u32, val: u8) -> U2pioState {
        if off == SET_MDC {
            U2pioState { phy: MdioPins { mdc: val & 1 != 0, ..self.phy }, ..self }
        } else if off == SET_MDIO {
            U2pioState { phy: MdioPins { mdio: val & 1 != 0, ..self.phy }, ..self }
        } else {
            U2pioState { table: self.table.put(off, val), ..self }
        }
    }
}

/// The GPIO page. The PHY's pins share it with the rest, so the PHY has no window
/// of its own.
pub struct U2pio {
    table: RegTable,
    pub phy: MdioPins,
}

impl View for U2pio {
    type V = U2pioState;

    closed spec fn view(&self) -> U2pioState {
        U2pioState { table: self.table@, phy: self.phy }
    }
}

impl U2pio {
    pub fn new() -> (u: U2pio)
        ensures
            u@ == U2pioState::initial(),
            u@.table.valid(),
    {
        U2pio {
            table: RegTable::new("u2pio", u2pio_table()),
            phy: MdioPins { mdc: false, mdio: true, line: true },
        }
    }

    /// What a read shows. The firmware tests the data line for "not 0".
    pub fn peek8(&self, off: u32) -> (v: u8)
        requires
            self@.table.valid(),
        ensures
            v == self@.at(off),
    {
        if off == GET_MDIO {
            if self.phy.line {
                1
            } else {
                0
            }
        } else {
            self.table.get(off)
        }
    }

    /// A write; bit 0 is the level of a pin.
    pub fn write8(&mut self, off: u32, val: u8)
        requires
            old(self)@.table.valid(),
        ensures
            final(self)@ == old(self)@.put(off, val),
            final(self)@.table.valid(),
    {
        match off {
            SET_MDC => {
                self.phy.mdc = val & 1 != 0;
            },
            SET_MDIO => {
                self.phy.mdio = val & 1 != 0;
            },
            _ => self.table.set(off, val),
        }
    }

    /// Power-on state.
    pub fn reset(&mut self)
        requires
            old(self)@.table.valid(),
        ensures
            final(self)@ == (U2pioState {
                table: old(self)@.table.reset(),
                phy: MdioPins { mdc: false, mdio: true, line: true },
            }),
            final(self)@.table.valid(),
    {
        self.table.reset();
        self.phy = MdioPins { mdc: false, mdio: true, line: true };
    }
}

/// A window that reads 0 and swallows writes.
pub open spec fn sink<S>(name: Seq<char>) -> DeviceState<S> {
    DeviceState::Table(TableState::initial(name, Seq::empty()))
}

/// The map with the GPIO page and the windows below the mixer's.
pub open spec fn pins_installed<S>(m: MapState<S>) -> MapState<S> {
    m.added(0x1010_0000, 0x100, DeviceState::U2pio(U2pioState::initial())).added(
        0x1010_0100,
        0x100,
        sink("ddr2-phy"@),
    ).added(0x1010_0200, 0x100, sink("clockmeas"@))
}

/// The map with the board's lights and its clock generator.
pub open spec fn lights_installed<S>(m: MapState<S>) -> MapState<S> {
    m.added(0x1010_0600, 0x100, sink("led-strip"@)).added(
        0x1010_0800,
        0x100,
        sink("blingboard"@),
    ).added(0x1010_0900, 0x100, sink("blingboard-leds"@)).added(0x1020_0000, 0x100, sink("mmcm"@))
}

/// The map with the windows of a board by itself, whose mixer swallows writes.
pub open spec fn installed<S>(m: MapState<S>) -> MapState<S> {
    lights_installed(pins_installed(m).added(0x1010_0500, 0x100, sink("audio-mixer"@)))
}

/// The map with the windows of a board whose mixer another device owns.
pub open spec fn installed_without_mixer<S>(m: MapState<S>) -> MapState<S> {
    lights_installed(pins_installed(m))
}

fn install_pins<B: C64Backend>(map: &mut IoMap<B>)
    requires
        old(map)@.valid(),
    ensures
        final(map)@ == pins_installed(old(map)@),
        final(map)@.valid(),
{
    map.add(0x1010_0000, 0x100, Device::U2pio(U2pio::new()));
    // The memory PHY is the boot ROM's alone.
    add_table(map, 0x1010_0100, 0x100, "ddr2-phy", Vec::new());
    add_table(map, 0x1010_0200, 0x100, "clockmeas", Vec::new());
}

fn install_lights<B: C64Backend>(map: &mut IoMap<B>)
    requires
        old(map)@.valid(),
    ensures
        final(map)@ == lights_installed(old(map)@),
        final(map)@.valid(),
{
    add_table(map, 0x1010_0600, 0x100, "led-strip", Vec::new());
    // Its flags read 0: not installed.
    add_table(map, 0x1010_0800, 0x100, "blingboard", Vec::new());
    add_table(map, 0x1010_0900, 0x100, "blingboard-leds", Vec::new());
    add_table(map, 0x1020_0000, 0x100, "mmcm", Vec::new());
}

/// Map the windows of a board by itself.
pub fn install<B: C64Backend>(map: &mut IoMap<B>, _cfg: &MachineConfig)
    requires
        old(map)@.valid(),
    ensures
        final(map)@ == installed(old(map)@),
        final(map)@.valid(),
{
    install_pins(map);
    add_table(map, 0x1010_0500, 0x100, "audio-mixer", Vec::new());
    install_lights(map);
}

/// Map the windows of a board whose mixer another device owns.
pub(crate) fn install_without_mixer<B: C64Backend>(map: &mut IoMap<B>)
    requires
        old(map)@.valid(),
    ensures
        final(map)@ == installed_without_mixer(old(map)@),
        final(map)@.valid(),
{
    install_pins(map);
    install_lights(map);
}

} // verus!
