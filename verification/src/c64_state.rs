//! The model of the C64 port: what its registers hold, which calls an access
//! makes on the backend, and what the firmware reads.
use crate::c64_tables::{JOY1_SWOUT, JOY2_SWOUT};
use crate::c64host::{C64Backend, C64Rom, C64Call, CartRom, Line, Peek, UciEvents};
use crate::dmastub::StubState;
use crate::irq::IrqState;
use crate::keyjoy::Pulls;
use crate::regtable::TableState;
use crate::time::DMA_BYTE_CLOCKS;
use vstd::prelude::*;

verus! {

/// The port's windows, as offsets in I/O space.
pub const DRIVE_A: u32 = 0x2_0000;

pub const DRIVE_WINDOW: u32 = 0x4000;

pub const DRIVES_END: u32 = 0x2_7FFF;

pub const IEC: u32 = 0x2_8000;

pub const IEC_END: u32 = 0x2_8FFF;

pub const CART: u32 = 0x4_0000;

pub const CART_END: u32 = 0x4_00FF;

pub const UCI: u32 = 0x4_4000;

pub const UCI_END: u32 = 0x4_4FFF;

pub const SAMPLER: u32 = 0x4_8000;

pub const SAMPLER_END: u32 = 0x4_9FFF;

pub const EEPROM: u32 = 0x4_C000;

pub const EEPROM_END: u32 = 0x4_CFFF;

pub const DMA: u32 = 0x5_0000;

pub const DMA_END: u32 = 0x5_FFFF;

pub const MATRIX: u32 = 0x10_0300;

pub const MATRIX_END: u32 = 0x10_03FF;

pub const MIXER: u32 = 0x10_0500;

pub const MIXER_END: u32 = 0x10_05FF;

/// Mixer bytes that reach the backend; the rest of the page swallows writes.
pub const MIXER_BYTES: u32 = 20;

pub const CORE: u32 = 0x18_0000;

pub const CORE_END: u32 = 0x18_00FF;

pub const PALETTE: u32 = 0x18_0800;

pub const PALETTE_END: u32 = 0x18_0FFF;

/// Palette bytes that reach the backend: red, green, blue and padding of sixteen
/// colours.
pub const PALETTE_RGB_SIZE: u32 = 0x40;

pub const BASIC: u32 = 0x18_8000;

pub const KERNAL: u32 = 0x18_A000;

pub const CHAR: u32 = 0x18_C000;

pub const CHAR_END: u32 = 0x18_CFFF;

/// Interrupt of drive A's disk controller; drive B's is the next.
pub const WD_IRQ_HIGH_BIT: u8 = 1;

/// The command interface's interrupt, a level.
pub const UCI_IRQ_BIT: u8 = 4;

/// The C64's reset, an edge.
pub const C64_RESET_IRQ_BIT: u8 = 7;

/// The unlock interrupt: a level whose handler drops it by a DMA write.
pub const UNLOCK_IRQ_HIGH_BIT: u8 = 6;

pub const UNLOCK_ACK_ADDR: u16 = 0xD038;

/// Clocks between periodic syncs: one millisecond.
pub const SYNC_PERIOD: u64 = 100_000;

/// Cartridge registers.
pub const MODE: u32 = 0x00;

pub const STOP: u32 = 0x01;

pub const CLOCK_DETECT: u32 = 0x03;

pub const CARTRIDGE_TYPE: u32 = 0x05;

pub const CARTRIDGE_KILL: u32 = 0x06;

pub const REU_ENABLE: u32 = 0x08;

pub const REU_SIZE: u32 = 0x09;

pub const SAMPLER_ENABLE: u32 = 0x0E;

/// What `set_cart` hands over: the ROM of an ordinary cartridge.
pub const CART_ROM_SIZE: usize = 0x4000;

/// Core config: DMA reaches memory only.
pub const DMA_MEMONLY: u32 = 0x03;

pub const MATRIX_RESTORE: u32 = 9;

pub const MATRIX_FREEZE: u32 = 10;

/// Four key codes, for up, down, left and right.
pub const MATRIX_WASD_TO_JOY: u32 = 11;

/// No key assigned.
pub const WASD_NONE: u8 = 0xFF;

/// The plain registers of the port.
#[derive(Clone, Copy, Debug, PartialEq, Eq, Structural)]
pub struct PortRegs {
    /// Clock that the backend was last advanced to.
    pub synced: u64,
    /// C64_MODE.
    pub ultimax: bool,
    pub reset: bool,
    pub nmi: bool,
    /// C64_STOP, the stop request.
    pub stop: bool,
    /// Host RESTORE key held.
    pub restore: bool,
    /// Physical joystick lines of control ports 1 and 2, active low.
    pub joy1: u8,
    pub joy2: u8,
    /// Keys-as-joystick: the key codes (`row * 8 + col`) of the four directions,
    /// and of fire, or [`WASD_NONE`].
    pub up: u8,
    pub down: u8,
    pub left: u8,
    pub right: u8,
    pub fire: u8,
    /// The held keys that pull the lines, each from its press to its release.
    pub pulls: Pulls,
    /// The control port that they are on, 1 or 2.
    pub keys_port: u8,
    /// What the C64 sees on ports 1 and 2.
    pub lines1: u8,
    pub lines2: u8,
    /// The lines of the physical cartridge, once somebody asked for them.
    pub cart_detect: Option<u8>,
    /// Where this firmware keeps the cartridge ROM.
    pub cart_rom: CartRom,
}

impl PortRegs {
    pub open spec fn initial() -> PortRegs {
        PortRegs {
            synced: 0,
            ultimax: false,
            reset: false,
            nmi: false,
            stop: false,
            restore: false,
            joy1: 0xFF,
            joy2: 0xFF,
            up: WASD_NONE,
            down: WASD_NONE,
            left: WASD_NONE,
            right: WASD_NONE,
            fire: WASD_NONE,
            pulls: Pulls::idle(),
            keys_port: 2,
            lines1: 0xFF,
            lines2: 0xFF,
            cart_detect: None,
            cart_rom: CartRom::large(),
        }
    }

    /// What C64_MODE reads.
    pub open spec fn mode_value(self) -> u8 {
        (crate::uci::flag(self.ultimax) * 2 + crate::uci::flag(self.reset) * 4 + crate::uci::flag(
            self.nmi,
        ) * 16) as u8
    }

    /// C64_MODE written: bit 2 asserts reset, else bit 3 releases it, else bits 1
    /// and 4 set ULTIMAX and NMI.
    pub open spec fn mode_written(self, val: u8) -> PortRegs {
        if val & 4 != 0 {
            PortRegs { reset: true, ..self }
        } else if val & 8 != 0 {
            PortRegs { reset: false, ..self }
        } else {
            PortRegs { ultimax: val & 2 != 0, nmi: val & 0x10 != 0, ..self }
        }
    }

    /// Whether a write to cartridge register `reg` hands the cartridge over: a mode
    /// that releases the reset, a forced cartridge, or a type while the reset is
    /// held.
    pub open spec fn hands_over(self, reg: u32, val: u8) -> bool {
        if reg == MODE {
            self.reset && !self.mode_written(val).reset
        } else if reg == CARTRIDGE_KILL {
            val & 2 != 0
        } else {
            reg == CARTRIDGE_TYPE && self.reset
        }
    }

    /// The joystick line of the key at `code`, if one is assigned: 0 up, 1 down, 2
    /// left, 3 right, 4 fire.
    pub open spec fn line_of(self, code: u8) -> Option<u8> {
        if code == self.fire {
            Some(4)
        } else if code == self.up {
            Some(0)
        } else if code == self.down {
            Some(1)
        } else if code == self.left {
            Some(2)
        } else if code == self.right {
            Some(3)
        } else {
            None
        }
    }

    /// The wired AND of the physical stick, the firmware's output and, on their
    /// port, the keys.
    pub open spec fn combined(self, swout1: u8, swout2: u8) -> PortRegs {
        PortRegs {
            lines1: if self.keys_port == 1 {
                (swout1 & self.joy1) & self.pulls.lines()
            } else {
                swout1 & self.joy1
            },
            lines2: if self.keys_port == 2 {
                (swout2 & self.joy2) & self.pulls.lines()
            } else {
                swout2 & self.joy2
            },
            ..self
        }
    }

    /// A key code assigned to the slot at matrix register `reg`.
    pub open spec fn assigned(self, reg: u32, val: u8) -> PortRegs {
        if reg == 11 {
            PortRegs { up: val, ..self }
        } else if reg == 12 {
            PortRegs { down: val, ..self }
        } else if reg == 13 {
            PortRegs { left: val, ..self }
        } else if reg == 14 {
            PortRegs { right: val, ..self }
        } else {
            self
        }
    }
}

/// The port's register windows.
#[verifier::ext_equal]
pub struct TablesState {
    pub cart: TableState,
    pub matrix: TableState,
    pub core: TableState,
    pub basic: TableState,
    pub kernal: TableState,
    pub chars: TableState,
    pub uci: TableState,
    pub iec: TableState,
}

impl TablesState {
    pub open spec fn initial() -> TablesState {
        TablesState {
            cart: TableState::initial("c64-cartregs"@, crate::c64_tables::cart_spans()),
            matrix: TableState::initial("matrix-keyb"@, crate::c64_tables::memory_spans(0x100)),
            core: TableState::initial("c64-core-config"@, crate::c64_tables::core_spans()),
            basic: TableState::initial("basic-rom"@, crate::c64_tables::memory_spans(0x2000)),
            kernal: TableState::initial("kernal-rom"@, crate::c64_tables::memory_spans(0x2000)),
            chars: TableState::initial("char-rom"@, crate::c64_tables::memory_spans(0x1000)),
            uci: TableState::initial("uci"@, crate::c64_tables::uci_spans()),
            iec: TableState::initial("iec"@, crate::c64_tables::iec_spans()),
        }
    }

    pub open spec fn valid(self) -> bool {
        &&& self.cart.valid()
        &&& self.matrix.valid()
        &&& self.core.valid()
        &&& self.basic.valid()
        &&& self.kernal.valid()
        &&& self.chars.valid()
        &&& self.uci.valid()
        &&& self.iec.valid()
    }

    pub open spec fn rom(self, rom: C64Rom) -> TableState {
        match rom {
            C64Rom::Basic => self.basic,
            C64Rom::Kernal => self.kernal,
            C64Rom::Char => self.chars,
        }
    }

    pub open spec fn rom_put(self, rom: C64Rom, off: u32, val: u8) -> TablesState {
        match rom {
            C64Rom::Basic => TablesState { basic: self.basic.put(off, val), ..self },
            C64Rom::Kernal => TablesState { kernal: self.kernal.put(off, val), ..self },
            C64Rom::Char => TablesState { chars: self.chars.put(off, val), ..self },
        }
    }

    /// The firmware's keyboard matrix, a byte per row.
    pub open spec fn matrix_rows(self) -> Seq<u8> {
        Seq::new(8, |i: int| self.matrix.at(i as u32))
    }
}

/// The port: its registers, the stand-in for the C64's bus, and the C64's state
/// if one is attached.
#[verifier::ext_equal]
pub struct PortState<S> {
    pub regs: PortRegs,
    pub tables: TablesState,
    pub stub: StubState,
    pub c64: Option<S>,
}

impl<S> PortState<S> {
    pub open spec fn valid(self) -> bool {
        &&& self.tables.valid()
        &&& self.stub.valid()
        &&& self.regs.keys_port == 1 || self.regs.keys_port == 2
    }

    /// The registers with the joystick lines as they now are.
    pub open spec fn joined(self) -> PortRegs {
        self.regs.combined(self.tables.core.at(JOY1_SWOUT), self.tables.core.at(JOY2_SWOUT))
    }

    /// The NMI line: the firmware's, its RESTORE register, or the host's key.
    pub open spec fn nmi_level(self) -> bool {
        self.regs.nmi || self.tables.matrix.at(MATRIX_RESTORE) != 0 || self.regs.restore
    }

    pub open spec fn mem_only(self) -> bool {
        self.tables.core.at(DMA_MEMONLY) & 1 != 0
    }
}

/// The port together with what an access can change around it: guest memory,
/// the interrupt controller and the wait states charged.
#[verifier::ext_equal]
pub struct World<S> {
    pub port: PortState<S>,
    pub ddr: Seq<u8>,
    pub irq: IrqState,
    pub stall: u64,
}

/// The window offset of a ROM byte.
pub open spec fn rom_of(off: u32) -> (C64Rom, u32) {
    if off < KERNAL {
        (C64Rom::Basic, (off - BASIC) as u32)
    } else if off < CHAR {
        (C64Rom::Kernal, (off - KERNAL) as u32)
    } else {
        (C64Rom::Char, (off - CHAR) as u32)
    }
}

/// C64_REU_SIZE as KiB: 128 for 0, twice as much for each step.
pub open spec fn reu_kb(reg: u8) -> u32 {
    128u32 << (reg & 7)
}

/// A call on the C64, if one is attached.
pub open spec fn called<B: C64Backend>(w: World<B::State>, call: C64Call) -> World<B::State> {
    match w.port.c64 {
        Some(s) => if call.has_ddr() {
            World {
                port: PortState { c64: Some(B::after(s, call, w.ddr)), ..w.port },
                ddr: B::ddr_after(s, call, w.ddr),
                ..w
            }
        } else {
            World {
                port: PortState { c64: Some(B::after(s, call, Seq::empty())), ..w.port },
                ..w
            }
        },
        None => w,
    }
}

/// The C64 runs up to clock `now`, unless it is there already.
#[verifier::opaque]
pub open spec fn synced<B: C64Backend>(w: World<B::State>, now: u64) -> World<B::State> {
    if w.port.c64 is Some && now > w.port.regs.synced {
        let v = called::<B>(w, C64Call::Advance(now));
        World { port: PortState { regs: PortRegs { synced: now, ..v.port.regs }, ..v.port }, ..v }
    } else {
        w
    }
}

/// The physical cartridge's lines are taken.
pub open spec fn detected<B: C64Backend>(w: World<B::State>) -> World<B::State> {
    match (w.port.regs.cart_detect, w.port.c64) {
        (Some(_), Some(s)) => World {
            port: PortState {
                regs: PortRegs {
                    cart_detect: Some(B::byte(s, Peek::CartDetect)),
                    ..w.port.regs
                },
                ..w.port
            },
            ..w
        },
        _ => w,
    }
}

/// Whether the attached C64 has a block.
pub open spec fn has<B: C64Backend>(p: PortState<B::State>, line: Line) -> bool {
    match p.c64 {
        Some(s) => B::line(s, line),
        None => false,
    }
}

/// The drives' interrupt lines are taken.
pub open spec fn drives_taken<B: C64Backend>(w: World<B::State>) -> World<B::State> {
    World {
        irq: w.irq.with_high(1, has::<B>(w.port, Line::DriveIrq(0))).with_high(
            2,
            has::<B>(w.port, Line::DriveIrq(1)),
        ),
        ..w
    }
}

/// The interrupt controller after the command interface reported `events`.
pub open spec fn events_taken(irq: IrqState, events: UciEvents) -> IrqState {
    let a = if events.c64_reset {
        irq.pulsed(C64_RESET_IRQ_BIT)
    } else {
        irq
    };
    if events.unlock {
        a.with_high(UNLOCK_IRQ_HIGH_BIT, true)
    } else {
        a
    }
}

/// The lines into the interrupt controller are taken: the drives', and those of
/// the command interface if the C64 has one.
#[verifier::opaque]
pub open spec fn lines_taken<B: C64Backend>(w: World<B::State>) -> World<B::State> {
    let v = drives_taken::<B>(w);
    match v.port.c64 {
        Some(s) if B::line(s, Line::HasUci) => {
            let u = called::<B>(v, C64Call::TakeEvents);
            World {
                irq: events_taken(
                    v.irq.with_level(UCI_IRQ_BIT, B::line(s, Line::UciIrq)),
                    B::events(s),
                ),
                ..u
            }
        },
        _ => v,
    }
}

/// What the port does after every access that may have run the C64.
pub open spec fn finished<B: C64Backend>(w: World<B::State>) -> World<B::State> {
    lines_taken::<B>(detected::<B>(w))
}

/// The joystick lines reach the C64.
pub open spec fn joysticks_applied<B: C64Backend>(w: World<B::State>) -> World<B::State> {
    let r = w.port.joined();
    let v = World { port: PortState { regs: r, ..w.port }, ..w };
    called::<B>(
        called::<B>(v, C64Call::Joystick { port: 1, lines: r.lines1 }),
        C64Call::Joystick { port: 2, lines: r.lines2 },
    )
}

/// The NMI line reaches the C64.
pub open spec fn nmi_applied<B: C64Backend>(w: World<B::State>) -> World<B::State> {
    called::<B>(w, C64Call::Nmi(w.port.nmi_level()))
}

/// The call that hands the C64 the cartridge `cart_type`.
pub open spec fn cart_call<S>(w: World<S>, cart_type: u8) -> C64Call {
    let base = w.port.regs.cart_rom.base as int;
    C64Call::SetCart { cart_type, image: w.ddr.subrange(base, base + CART_ROM_SIZE) }
}

/// C64_MODE written.
#[verifier::opaque]
pub open spec fn mode_applied<B: C64Backend>(w: World<B::State>, val: u8) -> World<B::State> {
    let before = w.port.regs;
    let r = before.mode_written(val);
    let w0 = World { port: PortState { regs: r, ..w.port }, ..w };
    let w1 = if r.reset == before.reset {
        w0
    } else if r.reset {
        called::<B>(w0, C64Call::Reset(true))
    } else {
        // A release takes the cartridge from memory, then resets the C64.
        called::<B>(
            called::<B>(w0, cart_call(w0, w0.port.tables.cart.at(CARTRIDGE_TYPE))),
            C64Call::Reset(false),
        )
    };
    let w2 = if r.ultimax == before.ultimax {
        w1
    } else {
        called::<B>(w1, C64Call::Ultimax(r.ultimax))
    };
    if r.nmi == before.nmi {
        w2
    } else {
        nmi_applied::<B>(w2)
    }
}

/// A cartridge register latched.
pub open spec fn cart_latched<S>(w: World<S>, reg: u32, val: u8) -> World<S> {
    World {
        port: PortState {
            tables: TablesState { cart: w.port.tables.cart.put(reg, val), ..w.port.tables },
            ..w.port
        },
        ..w
    }
}

/// Cartridge register `reg` (0 to 15) written.
#[verifier::opaque]
pub open spec fn cart_written<B: C64Backend>(w: World<B::State>, reg: u32, val: u8) -> World<
    B::State,
> {
    let v = cart_latched(w, reg, val);
    let cart = v.port.tables.cart;
    if reg == MODE {
        mode_applied::<B>(w, val)
    } else if reg == STOP {
        called::<B>(
            World {
                port: PortState {
                    regs: PortRegs { stop: val & 1 != 0, ..w.port.regs },
                    ..w.port
                },
                ..w
            },
            C64Call::Stopped(val & 1 != 0),
        )
    } else if reg == CARTRIDGE_KILL {
        let w1 = if val & 1 != 0 {
            called::<B>(w, C64Call::Kill)
        } else {
            w
        };
        if val & 2 != 0 {
            called::<B>(w1, cart_call(w1, w1.port.tables.cart.at(CARTRIDGE_TYPE)))
        } else {
            w1
        }
    } else if reg == CARTRIDGE_TYPE {
        // While the reset is held the C64 takes every type that is written.
        if w.port.regs.reset {
            called::<B>(v, cart_call(v, val))
        } else {
            v
        }
    } else if reg == REU_SIZE {
        called::<B>(v, C64Call::ReuSizeKb(reu_kb(cart.at(REU_SIZE))))
    } else if reg == REU_ENABLE {
        called::<B>(v, C64Call::ReuEnabled(cart.at(REU_ENABLE) & 1 != 0))
    } else if reg == SAMPLER_ENABLE {
        called::<B>(v, C64Call::SamplerEnabled(cart.at(SAMPLER_ENABLE) & 1 != 0))
    } else {
        v
    }
}

/// Keyboard matrix register `reg` written.
#[verifier::opaque]
pub open spec fn matrix_written<B: C64Backend>(w: World<B::State>, reg: u32, val: u8) -> World<
    B::State,
> {
    let v = World {
        port: PortState {
            tables: TablesState { matrix: w.port.tables.matrix.put(reg, val), ..w.port.tables },
            ..w.port
        },
        ..w
    };
    if reg < 8 {
        called::<B>(v, C64Call::MatrixKeyb(v.port.tables.matrix_rows()))
    } else if reg == MATRIX_RESTORE {
        nmi_applied::<B>(v)
    } else if reg == MATRIX_FREEZE {
        called::<B>(v, C64Call::FreezeButton(val != 0))
    } else {
        World { port: PortState { regs: v.port.regs.assigned(reg, val), ..v.port }, ..v }
    }
}

/// Core config register `reg` written.
pub open spec fn core_written<B: C64Backend>(w: World<B::State>, reg: u32, val: u8) -> World<
    B::State,
> {
    let v = World {
        port: PortState {
            tables: TablesState { core: w.port.tables.core.put(reg, val), ..w.port.tables },
            ..w.port
        },
        ..w
    };
    let u = called::<B>(v, C64Call::CoreConfig { reg: reg as u8, val });
    if reg == JOY1_SWOUT || reg == JOY2_SWOUT {
        joysticks_applied::<B>(u)
    } else {
        u
    }
}

/// What a key does to the held keys that pull joystick lines, if it does anything: a
/// press pulls the line that the key is assigned to, a release lets go of every line
/// that the key pulls, whatever is assigned by then.
pub open spec fn folded(r: PortRegs, code: u8, down: bool) -> Option<Pulls> {
    match r.line_of(code) {
        Some(bit) if down => Some(r.pulls.pressed(bit, code)),
        Some(_) => Some(r.pulls.released(code)),
        None => if !down && r.pulls.has(code) {
            Some(r.pulls.released(code))
        } else {
            None
        },
    }
}

/// A host key moved: folded into the joystick lines if it moves one, and passed on to
/// the C64's keyboard in any case.
pub open spec fn keyed<B: C64Backend>(w: World<B::State>, row: u8, col: u8, down: bool) -> World<
    B::State,
> {
    let r = w.port.regs;
    let v = if row < 8 && col < 8 {
        match folded(r, (row * 8 + col) as u8, down) {
            Some(pulls) => joysticks_applied::<B>(
                World { port: PortState { regs: PortRegs { pulls, ..r }, ..w.port }, ..w },
            ),
            None => w,
        }
    } else {
        w
    };
    match v.port.c64 {
        Some(_) => called::<B>(v, C64Call::Key { row, col, down }),
        None => World {
            port: PortState { stub: v.port.stub.keyed(row, col, down), ..v.port },
            ..v
        },
    }
}

/// What cartridge register `off` reads.
pub open spec fn cart_value<B: C64Backend>(p: PortState<B::State>, off: u32) -> u8 {
    let reg = off % 16;
    if reg == MODE {
        p.regs.mode_value()
    } else if reg == STOP {
        // The C64 stops at once, so "has stopped" follows the request.
        if p.regs.stop {
            3
        } else {
            0
        }
    } else if reg == CLOCK_DETECT && p.c64 is Some && p.regs.reset {
        // Clock there, reset sensed.
        0x11
    } else if reg == CARTRIDGE_KILL && p.c64 is Some {
        crate::uci::flag(has::<B>(p, Line::CartActive)) as u8
    } else {
        p.tables.cart.at(reg)
    }
}

/// What a read at `off` shows without side effects.
#[verifier::opaque]
pub open spec fn peeked<B: C64Backend>(p: PortState<B::State>, off: u32) -> u8 {
    if CART <= off <= CART_END {
        cart_value::<B>(p, off)
    } else if DMA <= off <= DMA_END {
        match p.c64 {
            Some(s) => B::byte(s, Peek::Dma((off - DMA) as u16)),
            None => p.stub.peeked((off - DMA) as u16),
        }
    } else if MATRIX <= off <= MATRIX_END {
        p.tables.matrix.at((off - MATRIX) as u32)
    } else if CORE <= off <= CORE_END {
        p.tables.core.at((off - CORE) as u32)
    } else if EEPROM <= off <= EEPROM_END {
        match p.c64 {
            Some(s) => B::byte(s, Peek::Eeprom((off - EEPROM) as u16)),
            None => 0,
        }
    } else if UCI <= off <= UCI_END {
        match p.c64 {
            Some(s) if B::line(s, Line::HasUci) => B::byte(s, Peek::Uci((off - UCI) as u16)),
            _ => p.tables.uci.at((off - UCI) as u32),
        }
    } else if IEC <= off <= IEC_END {
        match p.c64 {
            Some(s) if B::line(s, Line::HasIec) => B::byte(s, Peek::Iec((off - IEC) as u16)),
            _ => p.tables.iec.at((off - IEC) as u32),
        }
    } else if SAMPLER <= off <= SAMPLER_END {
        match p.c64 {
            Some(s) if B::line(s, Line::HasSampler) => B::byte(
                s,
                Peek::Sampler((off - SAMPLER) as u16),
            ),
            _ => 0,
        }
    } else if BASIC <= off <= CHAR_END {
        let (rom, rel) = rom_of(off);
        match p.c64 {
            Some(s) => B::byte(s, Peek::Rom(rom, rel as u16)),
            None => p.tables.rom(rom).at(rel),
        }
    } else if DRIVE_A <= off <= DRIVES_END {
        match p.c64 {
            Some(s) => B::byte(
                s,
                Peek::Drive(
                    ((off - DRIVE_A) / (DRIVE_WINDOW as int)) as u8,
                    ((off - DRIVE_A) % (DRIVE_WINDOW as int)) as u16,
                ),
            ),
            None => 0,
        }
    } else {
        // The palette and the mixers are write-only.
        0
    }
}

/// Whether an access at `off` runs the C64 up to its clock first.
pub open spec fn syncs<B: C64Backend>(p: PortState<B::State>, off: u32) -> bool {
    ||| CART <= off <= CART_END
    ||| MATRIX <= off <= MATRIX_END
    ||| DMA <= off <= DMA_END
    ||| DRIVE_A <= off <= DRIVES_END
    ||| UCI <= off <= UCI_END && has::<B>(p, Line::HasUci)
    ||| IEC <= off <= IEC_END && has::<B>(p, Line::HasIec)
    ||| SAMPLER <= off <= SAMPLER_END && has::<B>(p, Line::HasSampler)
}

/// The wait states of a byte over the C64's bus.
pub open spec fn charged<S>(w: World<S>) -> World<S> {
    World { stall: (w.stall + DMA_BYTE_CLOCKS) as u64, ..w }
}

/// The drive and the offset in its window that `off` belongs to.
pub open spec fn drive_of(off: u32) -> (u8, u16) {
    (
        ((off - DRIVE_A) / (DRIVE_WINDOW as int)) as u8,
        ((off - DRIVE_A) % (DRIVE_WINDOW as int)) as u16,
    )
}

/// A firmware read at `off`: the byte, and the world after it.
pub open spec fn read<B: C64Backend>(w: World<B::State>, off: u32, now: u64) -> (
    u8,
    World<B::State>,
) {
    let v = synced::<B>(w, now);
    if DMA <= off <= DMA_END {
        let addr = (off - DMA) as u16;
        match v.port.c64 {
            Some(s) => {
                let call = C64Call::DmaRead { addr, mem_only: v.port.mem_only() };
                let u = charged(detected::<B>(called::<B>(v, call)));
                (B::reply(s, call, v.ddr), lines_taken::<B>(u))
            },
            None => {
                let stub = v.port.stub.after_read(addr);
                let u = charged(detected::<B>(World { port: PortState { stub, ..v.port }, ..v }));
                (stub.peeked(addr), lines_taken::<B>(u))
            },
        }
    } else if CART <= off <= CART_END || MATRIX <= off <= MATRIX_END {
        (peeked::<B>(v.port, off), finished::<B>(v))
    } else if UCI <= off <= UCI_END && has::<B>(w.port, Line::HasUci) {
        (
            match v.port.c64 {
                Some(s) => B::byte(s, Peek::Uci((off - UCI) as u16)),
                None => 0,
            },
            finished::<B>(v),
        )
    } else if IEC <= off <= IEC_END && has::<B>(w.port, Line::HasIec) {
        // Reading the FIFO takes the entry.
        let call = C64Call::IecRead { off: (off - IEC) as u16 };
        (
            match v.port.c64 {
                Some(s) => B::reply(s, call, Seq::empty()),
                None => 0,
            },
            detected::<B>(called::<B>(v, call)),
        )
    } else if SAMPLER <= off <= SAMPLER_END && has::<B>(w.port, Line::HasSampler) {
        (
            match v.port.c64 {
                Some(s) => B::byte(s, Peek::Sampler((off - SAMPLER) as u16)),
                None => 0,
            },
            finished::<B>(v),
        )
    } else if DRIVE_A <= off <= DRIVES_END {
        let u = finished::<B>(v);
        let (unit, rel) = drive_of(off);
        let call = C64Call::DriveRead { unit, off: rel };
        (
            match u.port.c64 {
                Some(s) => B::reply(s, call, u.ddr),
                None => 0,
            },
            called::<B>(u, call),
        )
    } else {
        (peeked::<B>(w.port, off), w)
    }
}

/// A firmware write of `val` at `off`.
pub open spec fn written<B: C64Backend>(w: World<B::State>, off: u32, val: u8, now: u64) -> World<
    B::State,
> {
    let v = synced::<B>(w, now);
    if CART <= off <= CART_END {
        finished::<B>(cart_written::<B>(v, (off % 16) as u32, val))
    } else if DMA <= off <= DMA_END {
        let addr = (off - DMA) as u16;
        let u = detected::<B>(
            match v.port.c64 {
                Some(_) => called::<B>(
                    v,
                    C64Call::DmaWrite { addr, val, mem_only: v.port.mem_only() },
                ),
                None => World {
                    port: PortState { stub: v.port.stub.after_write(addr, val), ..v.port },
                    ..v
                },
            },
        );
        // The write that acknowledges the unlock interrupt.
        let t = if addr == UNLOCK_ACK_ADDR && val == 0 && has::<B>(u.port, Line::HasUci) {
            World { irq: u.irq.with_high(UNLOCK_IRQ_HIGH_BIT, false), ..u }
        } else {
            u
        };
        lines_taken::<B>(charged(t))
    } else if UCI <= off <= UCI_END {
        if has::<B>(w.port, Line::HasUci) {
            finished::<B>(called::<B>(v, C64Call::UciWrite { off: (off - UCI) as u16, val }))
        } else {
            World {
                port: PortState {
                    tables: TablesState {
                        uci: w.port.tables.uci.put((off - UCI) as u32, val),
                        ..w.port.tables
                    },
                    ..w.port
                },
                ..w
            }
        }
    } else if IEC <= off <= IEC_END {
        if has::<B>(w.port, Line::HasIec) {
            detected::<B>(called::<B>(v, C64Call::IecWrite { off: (off - IEC) as u16, val }))
        } else {
            World {
                port: PortState {
                    tables: TablesState {
                        iec: w.port.tables.iec.put((off - IEC) as u32, val),
                        ..w.port.tables
                    },
                    ..w.port
                },
                ..w
            }
        }
    } else if SAMPLER <= off <= SAMPLER_END && has::<B>(w.port, Line::HasSampler) {
        finished::<B>(called::<B>(v, C64Call::SamplerWrite { off: (off - SAMPLER) as u16, val }))
    } else if MATRIX <= off <= MATRIX_END {
        finished::<B>(matrix_written::<B>(v, (off - MATRIX) as u32, val))
    } else if EEPROM <= off <= EEPROM_END {
        called::<B>(w, C64Call::EepromWrite { off: (off - EEPROM) as u16, val })
    } else if MIXER <= off < MIXER + MIXER_BYTES {
        called::<B>(w, C64Call::Mixer { reg: (off - MIXER) as u8, val })
    } else if CORE <= off <= CORE_END {
        core_written::<B>(w, (off - CORE) as u32, val)
    } else if PALETTE <= off < PALETTE + PALETTE_RGB_SIZE {
        called::<B>(w, C64Call::PaletteByte { reg: (off - PALETTE) as u8, val })
    } else if BASIC <= off <= CHAR_END {
        let (rom, rel) = rom_of(off);
        match w.port.c64 {
            Some(_) => called::<B>(w, C64Call::RomWrite { rom, off: rel as u16, val }),
            None => World {
                port: PortState { tables: w.port.tables.rom_put(rom, rel, val), ..w.port },
                ..w
            },
        }
    } else if DRIVE_A <= off <= DRIVES_END {
        let (unit, rel) = drive_of(off);
        drives_taken::<B>(
            called::<B>(finished::<B>(v), C64Call::DriveWrite { unit, off: rel, val }),
        )
    } else {
        w
    }
}

/// The periodic sync.
pub open spec fn ticked<B: C64Backend>(w: World<B::State>, now: u64) -> World<B::State> {
    let v = finished::<B>(synced::<B>(w, now));
    called::<B>(called::<B>(v, C64Call::DriveTick { unit: 0 }), C64Call::DriveTick { unit: 1 })
}

} // verus!
