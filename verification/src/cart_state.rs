//! The model of the cartridge logic: its registers, and what each bus access
//! does to them.
//!
//! A type code selects one of some thirty kinds of cartridge. [`CartState`]
//! holds what the registers hold; its functions say which lines the logic
//! drives, which memory an address resolves to, and how reads and writes change
//! the registers. A register changes on the bus access that writes (or reads)
//! it, and the outputs follow at once.
use vstd::prelude::*;

verus! {

/// C64_CARTRIDGE_TYPE bits 4:0 select the logic, bits 7:5 the variant.
pub const TYPE_MASK: u8 = 0x1F;

pub const CART_TYPE_NONE: u8 = 0x00;

pub const CART_TYPE_NORMAL: u8 = 0x01;

pub const EPYX: u8 = 0x02;

pub const C128: u8 = 0x03;

pub const WESTERMANN: u8 = 0x04;

pub const SBASIC: u8 = 0x05;

pub const BBASIC: u8 = 0x06;

pub const BLACKBOX_V3: u8 = 0x07;

pub const OCEAN_8K: u8 = 0x08;

pub const OCEAN_16K: u8 = 0x09;

pub const SYSTEM3: u8 = 0x0A;

pub const SUPERGAMES: u8 = 0x0B;

pub const BLACKBOX_V8: u8 = 0x0C;

pub const ZAXXON: u8 = 0x0D;

pub const BLACKBOX_V9: u8 = 0x0E;

pub const MEGABYTER: u8 = 0x0F;

pub const PAGEFOX: u8 = 0x10;

pub const EASY_FLASH: u8 = 0x11;

pub const FC: u8 = 0x18;

pub const FC3: u8 = 0x19;

pub const SS5: u8 = 0x1A;

pub const ACTION: u8 = 0x1B;

pub const KCS: u8 = 0x1C;

pub const GEORAM: u8 = 0x1F;

/// Capability bit for the GMOD2 EEPROM. Without it the firmware refuses GMOD2
/// cartridges.
pub const CAPAB_EEPROM: u32 = 0x0040_0000;

/// Where the firmware's loader puts the internal cartridge's ROM in guest DDR.
pub const ROM_BASE: usize = 0x03C0_0000;

/// Cartridge RAM in guest DDR.
pub const RAM_BASE: usize = 0x00EF_0000;

/// GeoRAM in guest DDR.
pub const GEORAM_BASE: usize = 0x0100_0000;

/// ROM that the 22 cartridge address bits reach.
pub const ROM_SIZE: usize = 0x40_0000;

/// Cartridge RAM.
pub const RAM_SIZE: usize = 0x1_0000;

/// GeoRAM that the two page registers reach.
pub const GEORAM_SIZE: usize = 0x100_0000;

/// Epyx FastLoad's capacitor: EXROM goes high this many C64 cycles after the
/// last IO1 or ROML access.
pub const EPYX_CYCLES: u64 = 512;

/// Whether a type code selects logic that is modelled here. C128 cartridges
/// serve a C128 only; the unused codes select nothing.
pub open spec fn is_modelled(logic: u8) -> bool {
    !(logic == C128 || 0x12 <= logic <= 0x17 || logic == 0x1D || logic == 0x1E)
}

/// The logic this module models.
pub fn modelled(logic: u8) -> (r: bool)
    ensures
        r == is_modelled(logic),
{
    !(logic == C128 || (0x12 <= logic && logic <= 0x17) || logic == 0x1D || logic == 0x1E)
}

/// The types that have a freezer.
pub open spec fn is_freezer(logic: u8) -> bool {
    logic == FC || logic == FC3 || logic == SS5 || logic == ACTION || logic == KCS
}

pub fn freezer(logic: u8) -> (r: bool)
    ensures
        r == is_freezer(logic),
{
    logic == FC || logic == FC3 || logic == SS5 || logic == ACTION || logic == KCS
}

/// Where the logic finds its ROM, cartridge RAM and GeoRAM in the memory it is
/// given ([`CartLogic::set_ddr`]).
#[derive(Clone, Copy, Debug, PartialEq, Eq, Structural)]
pub struct Layout {
    pub rom: usize,
    pub ram: usize,
    pub geo: usize,
}

impl Layout {
    /// Guest DDR, where the firmware's loader puts the internal cartridge.
    pub open spec fn guest_spec() -> Layout {
        Layout { rom: ROM_BASE, ram: RAM_BASE, geo: GEORAM_BASE }
    }

    /// A cartridge's own memory: ROM from 0, cartridge RAM after it, no GeoRAM.
    pub open spec fn own_spec() -> Layout {
        Layout { rom: 0, ram: ROM_SIZE, geo: (ROM_SIZE + RAM_SIZE) as usize }
    }

    /// Guest DDR, where the firmware's loader puts the internal cartridge.
    pub fn guest() -> (l: Layout)
        ensures
            l == Layout::guest_spec(),
            l.fits(),
    {
        Layout { rom: ROM_BASE, ram: RAM_BASE, geo: GEORAM_BASE }
    }

    /// A cartridge's own memory: ROM from 0, cartridge RAM after it, no GeoRAM.
    pub fn own() -> (l: Layout)
        ensures
            l == Layout::own_spec(),
            l.fits(),
    {
        Layout { rom: 0, ram: ROM_SIZE, geo: ROM_SIZE + RAM_SIZE }
    }

    /// Every address that the logic forms fits in a `usize`.
    pub open spec fn fits(self) -> bool {
        &&& self.rom + ROM_SIZE <= usize::MAX
        &&& self.ram + RAM_SIZE <= usize::MAX
        &&& self.geo + GEORAM_SIZE <= usize::MAX
    }
}

/// The freezer.
#[derive(Clone, Copy, Debug, PartialEq, Eq, Structural)]
pub enum Freeze {
    Idle,
    /// Button pushed: the cartridge pulls NMI (and IRQ) and waits for the
    /// 6510's interrupt pushes.
    Triggered,
    /// The cartridge is switched in for its freezer code.
    Active,
    /// Unfrozen; waiting for the button to be released.
    Button,
}

impl Freeze {
    /// The freezer leaves its active phase.
    pub open spec fn left(self) -> Freeze {
        if self == Freeze::Active {
            Freeze::Button
        } else {
            self
        }
    }

    pub fn leave(self) -> (f: Freeze)
        ensures
            f == self.left(),
    {
        if self == Freeze::Active {
            Freeze::Button
        } else {
            self
        }
    }
}

/// What an access resolves to.
#[derive(Clone, Copy, Debug, PartialEq, Eq, Structural)]
pub enum Memory {
    Rom,
    Ram,
    Geo,
}

/// The cartridge's mode register, bit by bit.
#[derive(Clone, Copy, Debug, PartialEq, Eq, Structural)]
pub struct Mode {
    pub b2: bool,
    pub b1: bool,
    pub b0: bool,
}

/// The combinational outputs of the logic for one bus address.
#[derive(Clone, Copy, Debug, PartialEq, Eq, Structural)]
pub struct Out {
    pub game_n: bool,
    pub exrom_n: bool,
    /// ROML and ROMH are served.
    pub rom: bool,
    pub io1: bool,
    pub io2: bool,
    pub irq_n: bool,
    pub nmi_n: bool,
    /// ROM address bit 13 comes from the bus instead of the bank register.
    pub a13: bool,
    /// ROM address bit 14 comes from the bus instead of the bank register.
    pub a14: bool,
}

/// The EEPROM pins that a GMOD2 cartridge drives.
#[derive(Clone, Copy, Debug, PartialEq, Eq, Structural)]
pub struct EepromPins {
    pub cs: bool,
    pub clk: bool,
    pub di: bool,
}

/// EXROM and GAME as the cartridge port sees them (1 is high).
#[derive(Clone, Copy, Debug, PartialEq, Eq, Structural)]
pub struct CartLines {
    pub exrom: u8,
    pub game: u8,
}

/// How the backend has to run the 6510 for this cartridge
/// ([`CartLogic::run_hints`]).
#[derive(Clone, Copy, Debug, PartialEq, Eq, Structural)]
pub struct RunHints {
    /// Reads of `$DE00-$DFFF` can change EXROM/GAME: stop at the instruction
    /// boundary after one that did.
    pub watch_io: bool,
    /// The lines change by themselves at this C64 cycle (Epyx timeout).
    pub deadline: Option<u64>,
    /// The freeze button is pushed: step instruction by instruction until the
    /// 6510 takes the interrupt.
    pub freeze_pending: bool,
}

/// What the registers of the logic hold.
#[derive(Clone, Copy, Debug, PartialEq, Eq, Structural)]
pub struct CartRegs {
    pub layout: Layout,
    pub logic: u8,
    pub variant: u8,
    pub mode: Mode,
    /// The 16 K ROM bank.
    pub bank: u8,
    /// The 8 K cartridge RAM bank.
    pub ram_bank: u8,
    /// GeoRAM's two page registers, at even and odd addresses.
    pub geo_even: u8,
    pub geo_odd: u8,
    pub ef_write: bool,
    pub cart_en: bool,
    pub do_io2: bool,
    pub allow_bank: bool,
    pub hold_nmi: bool,
    pub eeprom_pins: EepromPins,
    /// The level of the EEPROM's data output.
    pub eeprom_out: bool,
    pub freeze: Freeze,
    pub button: bool,
    /// C64 cycle of the last access that discharged the Epyx capacitor.
    pub epyx_armed: u64,
    /// C64 cycle of the last access.
    pub clk: u64,
}

/// The registers and the memory that the logic serves from.
#[verifier::ext_equal]
pub struct CartState {
    pub regs: CartRegs,
    pub ddr: Option<Seq<u8>>,
}

impl Out {
    pub open spec fn idle_spec() -> Out {
        Out {
            game_n: true,
            exrom_n: true,
            rom: false,
            io1: false,
            io2: false,
            irq_n: true,
            nmi_n: true,
            a13: true,
            a14: false,
        }
    }

    pub fn idle() -> (o: Out)
        ensures
            o == Out::idle_spec(),
    {
        Out {
            game_n: true,
            exrom_n: true,
            rom: false,
            io1: false,
            io2: false,
            irq_n: true,
            nmi_n: true,
            a13: true,
            a14: false,
        }
    }
}

impl CartRegs {
    /// The validity that every operation keeps: the registers are in range, and
    /// only a type with a freezer is out of the idle phase.
    pub open spec fn valid(self) -> bool {
        &&& self.in_range()
        &&& self.freeze != Freeze::Idle ==> is_freezer(self.logic)
    }

    pub open spec fn in_range(self) -> bool {
        &&& self.layout.fits()
        &&& self.ram_bank < 8
        &&& self.epyx_armed + EPYX_CYCLES <= u64::MAX
    }

    /// No cartridge, with memory at `layout`.
    pub open spec fn empty(layout: Layout) -> CartRegs {
        CartRegs {
            layout,
            logic: CART_TYPE_NONE,
            variant: 0,
            mode: Mode { b2: false, b1: false, b0: false },
            bank: 0,
            ram_bank: 0,
            geo_even: 0,
            geo_odd: 0,
            ef_write: false,
            cart_en: false,
            do_io2: true,
            allow_bank: false,
            hold_nmi: false,
            eeprom_pins: EepromPins { cs: false, clk: false, di: false },
            eeprom_out: true,
            freeze: Freeze::Idle,
            button: false,
            epyx_armed: 0,
            clk: 0,
        }
    }

    pub open spec fn epyx_timed_out(self) -> bool {
        self.clk >= self.epyx_armed + EPYX_CYCLES
    }

    pub open spec fn trig(self) -> bool {
        self.freeze == Freeze::Triggered
    }

    pub open spec fn act(self) -> bool {
        self.freeze == Freeze::Active
    }

    /// What the logic assigns on every clock from the registered state.
    pub open spec fn settled(self) -> CartRegs {
        let s = match self.logic {
            CART_TYPE_NONE => CartRegs { cart_en: false, ..self },
            OCEAN_8K => CartRegs { cart_en: !self.mode.b0, ..self },
            SUPERGAMES if self.mode.b1 && self.mode.b0 => CartRegs { cart_en: false, ..self },
            ACTION => CartRegs {
                ram_bank: if self.allow_bank {
                    self.bank % 8
                } else {
                    0
                },
                ..self
            },
            KCS if self.act() => CartRegs { mode: Mode { b2: false, b1: true, b0: false }, ..self },
            _ => self,
        };
        if !is_freezer(s.logic) || (s.freeze == Freeze::Button && !s.button) {
            CartRegs { freeze: Freeze::Idle, ..s }
        } else {
            s
        }
    }

    /// The registers after the reset line or a force has taken a type.
    pub open spec fn taken(self, logic: u8, variant: u8, reset: bool, clk: u64) -> CartRegs {
        (CartRegs {
            logic,
            variant,
            mode: Mode { b2: false, b1: false, b0: false },
            bank: if logic == BLACKBOX_V9 {
                1
            } else {
                0
            },
            ram_bank: 0,
            geo_even: 0,
            geo_odd: 0,
            ef_write: false,
            cart_en: reset,
            do_io2: true,
            allow_bank: false,
            hold_nmi: false,
            eeprom_pins: EepromPins { cs: false, clk: false, di: false },
            epyx_armed: clk,
            clk,
            ..self
        }).settled()
    }

    /// The outputs for a bus cycle at `addr`.
    pub open spec fn outputs(self, addr: u16, write: bool) -> Out {
        let m = self.mode;
        let v0 = self.variant & 1 != 0;
        let v1 = self.variant & 2 != 0;
        let frozen = self.trig() || self.act();
        let idle = Out::idle_spec();
        match self.logic {
            CART_TYPE_NORMAL => Out { game_n: v1, exrom_n: v0, rom: true, ..idle },
            EPYX => Out { exrom_n: self.epyx_timed_out(), rom: true, io2: true, ..idle },
            WESTERMANN => Out { game_n: m.b0, exrom_n: !v1 && m.b0, rom: true, ..idle },
            SBASIC => Out { game_n: !m.b0, exrom_n: false, rom: true, ..idle },
            BBASIC => {
                let o = Out { rom: true, io1: true, a14: true, ..idle };
                if m.b0 {
                    Out { game_n: false, exrom_n: false, ..o }
                } else if addr >= 0x8000 && !(0xC000 <= addr < 0xE000) {
                    Out { game_n: false, ..o }
                } else {
                    o
                }
            },
            BLACKBOX_V3 => Out { exrom_n: m.b0, rom: true, ..idle },
            OCEAN_8K | SYSTEM3 => Out { exrom_n: m.b0, rom: true, a13: false, ..idle },
            OCEAN_16K | ZAXXON => Out { game_n: false, exrom_n: false, rom: true, ..idle },
            MEGABYTER => if v0 {
                Out { exrom_n: m.b1, rom: true, game_n: m.b0, ..idle }
            } else {
                Out { exrom_n: m.b1, rom: true, game_n: !m.b0, a13: false, ..idle }
            },
            SUPERGAMES => Out { game_n: m.b0, exrom_n: m.b0, rom: true, ..idle },
            BLACKBOX_V8 => Out { game_n: m.b1, exrom_n: m.b0, rom: true, ..idle },
            BLACKBOX_V9 => Out { game_n: m.b1, exrom_n: !m.b0, rom: true, io1: true, ..idle },
            PAGEFOX => Out { game_n: m.b2, exrom_n: m.b2, rom: true, ..idle },
            EASY_FLASH => Out {
                game_n: !m.b0 && m.b2,
                exrom_n: !m.b1,
                rom: true,
                io2: true,
                ..idle
            },
            FC3 => Out {
                game_n: !self.act() && m.b0,
                exrom_n: self.act() || m.b1,
                rom: true,
                io1: true,
                io2: true,
                nmi_n: !(frozen || self.hold_nmi),
                ..idle
            },
            ACTION => {
                let o = Out { irq_n: !frozen, nmi_n: !frozen, a13: false, ..idle };
                if self.act() {
                    Out { game_n: false, exrom_n: true, rom: true, ..o }
                } else {
                    // Modes 001 and 011 serve no I/O, mode 010 no ROM.
                    let io = m.b2 || !m.b0;
                    let o = Out {
                        io1: io,
                        io2: io && self.do_io2,
                        rom: m.b2 || !m.b1 || m.b0,
                        ..o
                    };
                    if m.b2 && m.b1 && !m.b0 && v1 {
                        Out { game_n: false, exrom_n: write && 0xA000 <= addr < 0xC000, ..o }
                    } else {
                        Out { game_n: !m.b0, exrom_n: m.b1, ..o }
                    }
                }
            },
            SS5 => Out {
                game_n: m.b0,
                exrom_n: !m.b1,
                io1: self.cart_en,
                rom: self.cart_en,
                irq_n: !frozen,
                nmi_n: !frozen,
                ..idle
            },
            KCS => Out {
                game_n: m.b0,
                exrom_n: m.b1,
                io1: true,
                io2: true,
                rom: true,
                nmi_n: !frozen,
                ..idle
            },
            FC => Out {
                game_n: !self.act() && m.b0,
                exrom_n: self.act() || m.b0,
                io1: true,
                io2: true,
                rom: true,
                nmi_n: !frozen,
                ..idle
            },
            GEORAM => Out { io1: true, ..idle },
            _ => idle,
        }
    }

    /// EXROM and GAME, high while the cartridge is off.
    pub open spec fn lines(self) -> CartLines {
        let o = self.outputs(0, false);
        CartLines {
            exrom: if !self.cart_en || o.exrom_n {
                1
            } else {
                0
            },
            game: if !self.cart_en || o.game_n {
                1
            } else {
                0
            },
        }
    }

    /// Which memory `addr` resolves to, and whether a write reaches it.
    pub open spec fn decoded(self, addr: u16) -> (Memory, bool) {
        let m = self.mode;
        let v0 = self.variant & 1 != 0;
        let v1 = self.variant & 2 != 0;
        let page = addr / 0x100;
        match self.logic {
            ACTION if m.b2 => {
                if m.b1 && !m.b0 && v1 && 0x8000 <= addr < 0xA000 {
                    (Memory::Rom, false)
                } else if m.b1 && !m.b0 && v1 && 0xA000 <= addr < 0xC000 {
                    (Memory::Ram, true)
                } else {
                    (
                        if addr & 0x2000 == 0 {
                            Memory::Ram
                        } else {
                            Memory::Rom
                        },
                        0x8000 <= addr < 0xA000 || (0xDE02 <= addr <= 0xDEFF && v0) || (page == 0xDF
                            && self.do_io2),
                    )
                }
            },
            EASY_FLASH if page == 0xDF => (Memory::Ram, true),
            EASY_FLASH => (
                Memory::Rom,
                self.ef_write && m == (Mode { b2: true, b1: false, b0: true }) && (addr >= 0xE000
                    || 0x8000 <= addr < 0xA000),
            ),
            SS5 if !m.b1 && !m.b0 && 0x8000 <= addr < 0xA000 => (Memory::Ram, true),
            KCS if page == 0xDF => (Memory::Ram, true),
            GEORAM if page == 0xDE => (Memory::Geo, true),
            PAGEFOX if m.b1 && !m.b0 => (Memory::Ram, 0x8000 <= addr < 0xC000),
            _ => (Memory::Rom, false),
        }
    }

    /// The offset in the lent memory of `addr`, with ROM address bits 13 and 14
    /// from the bus or from the bank register as `o` says.
    pub open spec fn offset(self, addr: u16, memory: Memory, o: Out) -> int {
        let a13 = (addr / 0x2000) % 2;
        let a14 = (addr / 0x4000) % 2;
        match memory {
            Memory::Rom => {
                let bank = if o.a14 {
                    self.bank - self.bank % 2 + a14
                } else {
                    self.bank as int
                };
                let half = if o.a13 {
                    a13 as int
                } else {
                    0
                };
                self.layout.rom + bank * 0x4000 + half * 0x2000 + addr % 0x2000
            },
            Memory::Ram => {
                let bank = if self.logic == PAGEFOX {
                    self.ram_bank - self.ram_bank % 2 + a13
                } else {
                    self.ram_bank as int
                };
                let a7 = if self.logic == KCS && (addr / 0x80) % 2 == 1 {
                    0x80int
                } else {
                    0
                };
                self.layout.ram + bank * 0x2000 + addr % 0x2000 - a7
            },
            Memory::Geo => self.layout.geo + self.geo_page() * 0x100 + addr % 0x100,
        }
    }

    /// GeoRAM's page: the even register holds bits 15:14 and 5:0, the odd one
    /// bits 13:6.
    pub open spec fn geo_page(self) -> int {
        (self.geo_even / 64) * 0x4000 + self.geo_odd * 64 + self.geo_even % 64
    }

    /// The registers after a read of `$DE00-$DFFF`.
    pub open spec fn io_read_regs(self, addr: u16) -> CartRegs {
        let m = self.mode;
        let io = addr & 0x1FF;
        let io1 = io & 0x100 == 0;
        match self.logic {
            EPYX if io1 => CartRegs { epyx_armed: self.clk, ..self },
            WESTERMANN => if !io1 {
                CartRegs { mode: Mode { b0: true, ..m }, ..self }
            } else if self.variant & 1 != 0 {
                CartRegs { mode: Mode { b0: false, ..m }, ..self }
            } else {
                self
            },
            SBASIC if io1 => CartRegs { mode: Mode { b0: false, ..m }, ..self },
            BBASIC if io1 => CartRegs { mode: Mode { b0: true, ..m }, ..self },
            SYSTEM3 if io1 => CartRegs { bank: 0, mode: Mode { b0: false, ..m }, ..self },
            BLACKBOX_V9 if io1 => CartRegs {
                bank: (self.bank & 0xFE) | if io & 0x80 != 0 {
                    1u8
                } else {
                    0u8
                },
                mode: Mode { b1: io & 1 != 0, b0: io & 0x40 == 0, ..m },
                ..self
            },
            KCS if io1 => CartRegs {
                mode: Mode { b2: false, b1: io & 2 != 0, b0: true },
                ..self
            },
            KCS if io & 0x180 == 0x180 => CartRegs { freeze: self.freeze.left(), ..self },
            FC => CartRegs { mode: Mode { b0: io1, ..m }, freeze: self.freeze.left(), ..self },
            _ => self,
        }
    }

    /// The registers of a freezer after a write of `v` to `$DE00-$DFFF`.
    pub open spec fn freezer_write_regs(self, addr: u16, v: u8) -> CartRegs {
        let m = self.mode;
        let io = addr & 0x1FF;
        let io1 = io & 0x100 == 0;
        match self.logic {
            FC3 if io == 0x1FF && self.cart_en => {
                let low = (self.bank & 0xFC) | (v & 3);
                CartRegs {
                    bank: if self.variant & 1 != 0 {
                        (low & 0xF3) | (v & 0x0C)
                    } else {
                        low
                    },
                    mode: Mode { b2: false, b1: v & 0x10 != 0, b0: v & 0x20 != 0 },
                    cart_en: v & 0x80 == 0,
                    hold_nmi: v & 0x40 == 0,
                    freeze: self.freeze.left(),
                    ..self
                }
            },
            ACTION if io1 && self.cart_en && (io & 0x1FE == 0 || self.variant & 1 == 0) => {
                if io & 1 == 0 || self.variant & 1 == 0 {
                    CartRegs {
                        bank: (self.bank & 0xF8) | ((v >> 7) << 2) | ((v >> 3) & 3),
                        mode: Mode { b2: v & 0x20 != 0, b1: v & 2 != 0, b0: v & 1 != 0 },
                        cart_en: v & 4 == 0,
                        freeze: if v & 0x40 != 0 {
                            self.freeze.left()
                        } else {
                            self.freeze
                        },
                        ..self
                    }
                } else {
                    // Retro Replay's second register at $DE01.
                    CartRegs {
                        do_io2: self.do_io2 && v & 0x40 == 0,
                        allow_bank: self.allow_bank || v & 2 != 0,
                        ..self
                    }
                }
            },
            SS5 if io1 && self.cart_en => {
                let low = (self.bank & 0xFC) | (((v >> 4) & 1) << 1) | ((v >> 2) & 1);
                CartRegs {
                    bank: if self.variant & 1 != 0 {
                        (low & 0xFB) | (((v >> 5) & 1) << 2)
                    } else {
                        low
                    },
                    mode: Mode { b2: v & 8 != 0, b1: v & 2 != 0, b0: v & 1 != 0 },
                    cart_en: v & 8 == 0,
                    freeze: if v & 1 == 0 {
                        self.freeze.left()
                    } else {
                        self.freeze
                    },
                    ..self
                }
            },
            KCS if io & 0x180 == 0x080 => CartRegs {
                mode: Mode { b2: false, b1: false, b0: false },
                ..self
            },
            KCS if io & 0x180 == 0x000 => if m == (Mode { b2: false, b1: false, b0: false }) {
                CartRegs { mode: Mode { b2: true, b1: true, b0: false }, ..self }
            } else if m == (Mode { b2: false, b1: true, b0: false }) || m == (Mode {
                b2: true,
                b1: true,
                b0: true,
            }) {
                CartRegs { mode: Mode { b2: false, b1: false, b0: io & 2 != 0 }, ..self }
            } else {
                self
            },
            FC => CartRegs { mode: Mode { b0: io1, ..m }, freeze: self.freeze.left(), ..self },
            _ => self,
        }
    }

    /// The registers of a cartridge without a freezer after a write of `v` to
    /// `$DE00-$DFFF`.
    pub open spec fn bank_write_regs(self, addr: u16, v: u8) -> CartRegs {
        let m = self.mode;
        let io = addr & 0x1FF;
        let io1 = io & 0x100 == 0;
        match self.logic {
            CART_TYPE_NORMAL if io == 0x1FF && self.cart_en && v & 0xC0 == 0x40 => CartRegs {
                cart_en: false,
                ..self
            },
            SBASIC if io1 => CartRegs { mode: Mode { b0: true, ..m }, ..self },
            BBASIC if io1 => CartRegs { mode: Mode { b0: false, ..m }, ..self },
            BLACKBOX_V3 => CartRegs { mode: Mode { b0: io1, ..m }, ..self },
            OCEAN_8K if io1 => {
                let s = CartRegs { bank: v & 0x3F, ..self };
                if self.variant & 3 == 1 {
                    CartRegs { mode: Mode { b0: v & 0x80 != 0, ..m }, ..s }
                } else if self.variant & 3 == 2 {
                    CartRegs {
                        mode: Mode { b1: v & 0x80 != 0, b0: v & 0x40 != 0, ..m },
                        eeprom_pins: EepromPins {
                            cs: v & 0x40 != 0,
                            clk: v & 0x20 != 0,
                            di: v & 0x10 != 0,
                        },
                        ..s
                    }
                } else {
                    s
                }
            },
            OCEAN_16K if io1 => CartRegs { bank: v, ..self },
            SYSTEM3 if io1 => CartRegs { bank: v, mode: Mode { b0: false, ..m }, ..self },
            MEGABYTER if io1 => if io & 2 == 0 {
                CartRegs { bank: v, ..self }
            } else {
                CartRegs { mode: Mode { b1: v & 2 != 0, b0: v & 1 != 0, ..m }, ..self }
            },
            SUPERGAMES if !io1 && !m.b1 => CartRegs {
                bank: (self.bank & 0xFC) | (v & 3),
                mode: Mode { b1: v & 8 != 0, b0: v & 4 != 0, ..m },
                ..self
            },
            BLACKBOX_V8 if !io1 => CartRegs {
                bank: (self.bank & 0xFC) | ((v >> 2) & 3),
                mode: Mode { b1: v & 2 != 0, b0: v & 1 != 0, ..m },
                ..self
            },
            BLACKBOX_V9 if io1 => CartRegs {
                bank: (self.bank & 0xFE) | if io & 0x80 != 0 {
                    0u8
                } else {
                    1u8
                },
                mode: Mode { b1: io & 1 != 0, b0: io & 0x40 == 0, ..m },
                ..self
            },
            PAGEFOX if io & 0x180 == 0x080 => CartRegs {
                mode: Mode { b2: v & 0x10 != 0, b1: v & 8 != 0, b0: v & 4 != 0 },
                bank: (self.bank & 0xFC) | ((v >> 1) & 3),
                ram_bank: (self.ram_bank / 4 * 4 + self.ram_bank % 2 + if v & 2 != 0 {
                    2int
                } else {
                    0
                }) as u8,
                ..self
            },
            EASY_FLASH if io1 && self.cart_en => {
                let s = CartRegs { ef_write: false, ..self };
                let reg = io & 0xF;
                if reg == 0 {
                    CartRegs { bank: v, ..s }
                } else if reg == 2 {
                    CartRegs {
                        mode: Mode { b2: v & 4 != 0, b1: v & 2 != 0, b0: v & 1 != 0 },
                        ..s
                    }
                } else if reg == 9 {
                    CartRegs { ef_write: v == 0x65, ..s }
                } else {
                    s
                }
            },
            GEORAM if io & 0x180 == 0x180 => if io & 1 == 0 {
                CartRegs { geo_even: v, ..self }
            } else {
                CartRegs { geo_odd: v, ..self }
            },
            _ => self,
        }
    }

    /// The registers after a write of `v` to `$DE00-$DFFF`.
    pub open spec fn io_write_regs(self, addr: u16, v: u8) -> CartRegs {
        if is_freezer(self.logic) {
            self.freezer_write_regs(addr, v)
        } else {
            self.bank_write_regs(addr, v)
        }
    }

    /// Atomic Power's mode 110 pulls EXROM high for writes to `$A000-$BFFF` only.
    pub open spec fn atomic_write(self, addr: u16) -> bool {
        &&& self.logic == ACTION
        &&& self.variant & 2 != 0
        &&& self.mode == (Mode { b2: true, b1: true, b0: false })
        &&& !self.act()
        &&& self.cart_en
        &&& 0xA000 <= addr < 0xC000
    }

    /// Whether the C64 RAM under a write stays unwritten: always for I/O, for
    /// ROM windows only in ULTIMAX, where no RAM is selected there.
    pub open spec fn consumes(self, addr: u16, forced_ultimax: bool) -> bool {
        ||| 0xDE00 <= addr < 0xE000
        ||| forced_ultimax
        ||| self.lines() == (CartLines { exrom: 1, game: 0 })
        ||| self.atomic_write(addr)
    }

    /// Reads of `$DE00-$DFFF` can change the lines.
    pub open spec fn watches_io(self) -> bool {
        ||| self.logic == EPYX
        ||| self.cart_en && (self.logic == WESTERMANN || self.logic == SBASIC || self.logic == BBASIC
            || self.logic == BLACKBOX_V9 || self.logic == KCS || self.logic == FC)
    }

    pub open spec fn hints(self) -> RunHints {
        RunHints {
            watch_io: self.watches_io(),
            deadline: if self.logic == EPYX && !self.epyx_timed_out() {
                Some((self.epyx_armed + EPYX_CYCLES) as u64)
            } else {
                None
            },
            freeze_pending: self.trig(),
        }
    }

    /// The state after the freeze button moved.
    pub open spec fn button_set(self, down: bool) -> CartRegs {
        (CartRegs {
            freeze: if down && !self.button && self.freeze == Freeze::Idle && is_freezer(
                self.logic,
            ) {
                Freeze::Triggered
            } else {
                self.freeze
            },
            button: down,
            ..self
        }).settled()
    }

    /// The state once the 6510 has taken the interrupt that the trigger pulled.
    pub open spec fn freeze_entered(self) -> CartRegs {
        if !self.trig() {
            self
        } else {
            (CartRegs {
                freeze: Freeze::Active,
                bank: 0,
                ram_bank: 0,
                mode: Mode { b2: false, b1: false, b0: false },
                cart_en: true,
                hold_nmi: true,
                ..self
            }).settled()
        }
    }

    /// The state after C64_CARTRIDGE_KILL.
    pub open spec fn killed(self) -> CartRegs {
        (CartRegs {
            cart_en: false,
            hold_nmi: false,
            freeze: self.freeze.left(),
            ..self
        }).settled()
    }


    /// The registers after a 6510 read at `addr`.
    pub open spec fn after_read(self, addr: u16) -> CartRegs {
        if 0xDE00 <= addr < 0xE000 {
            self.io_read_regs(addr).settled()
        } else if 0x8000 <= addr < 0xA000 && self.logic == ZAXXON {
            CartRegs {
                bank: (self.bank & 0xFE) | if addr & 0x1000 != 0 {
                    1u8
                } else {
                    0u8
                },
                ..self
            }
        } else if 0x8000 <= addr < 0xA000 && self.logic == EPYX {
            CartRegs { epyx_armed: self.clk, ..self }
        } else {
            self
        }
    }

    /// The registers after a 6510 write at `addr`.
    pub open spec fn after_write(self, addr: u16, val: u8) -> CartRegs {
        if 0xDE00 <= addr < 0xE000 {
            self.io_write_regs(addr, val).settled()
        } else {
            self
        }
    }
}

impl CartState {
    /// The registers at C64 cycle `clk`.
    pub open spec fn at(self, clk: u64) -> CartState {
        CartState { regs: CartRegs { clk, ..self.regs }, ..self }
    }

    pub open spec fn memory_at(self, off: int) -> Option<u8> {
        match self.ddr {
            Some(d) if 0 <= off < d.len() => Some(d[off]),
            _ => None,
        }
    }

    pub open spec fn memory_set(self, off: int, val: u8) -> CartState {
        match self.ddr {
            Some(d) if 0 <= off < d.len() => CartState { ddr: Some(d.update(off, val)), ..self },
            _ => self,
        }
    }

    /// The memory byte that `addr` resolves to.
    pub open spec fn served(self, addr: u16) -> Option<u8> {
        let r = self.regs;
        self.memory_at(r.offset(addr, r.decoded(addr).0, r.outputs(addr, false)))
    }

    /// ROML or ROMH data.
    pub open spec fn rom_data(self, addr: u16) -> Option<u8> {
        if self.regs.cart_en && self.regs.outputs(addr, false).rom {
            self.served(addr)
        } else {
            None
        }
    }

    /// IO1 or IO2 data: a register, served memory, or open bus.
    pub open spec fn io_data(self, addr: u16) -> Option<u8> {
        let r = self.regs;
        let o = r.outputs(addr, false);
        if r.logic == ACTION && r.variant & 2 != 0 && addr & 0x1FE == 0 {
            Some(
                (0x40 + (r.bank / 4) % 2 * 0x80 + r.bank % 4 * 8 + if r.allow_bank {
                    2int
                } else {
                    0
                }) as u8,
            )
        } else if r.logic == OCEAN_8K && r.variant & 3 == 2 && addr & 0x100 == 0 {
            Some(
                if r.eeprom_out {
                    0x80
                } else {
                    0
                },
            )
        } else if r.cart_en && (if addr & 0x100 == 0 {
            o.io1
        } else {
            o.io2
        }) {
            self.served(addr)
        } else {
            None
        }
    }

    /// What a read returns.
    pub open spec fn peeked(self, addr: u16) -> Option<u8> {
        if 0xDE00 <= addr < 0xE000 {
            self.io_data(addr)
        } else {
            self.rom_data(addr)
        }
    }

    /// The state after a 6510 read at `addr`: reads leave the memory alone.
    pub open spec fn after_read(self, addr: u16) -> CartState {
        CartState { regs: self.regs.after_read(addr), ..self }
    }

    /// The memory after a write at `addr`: changed where the decoder lets the
    /// write through.
    pub open spec fn written_through(self, addr: u16, val: u8) -> CartState {
        let r = self.regs;
        let (memory, allowed) = r.decoded(addr);
        if allowed {
            self.memory_set(r.offset(addr, memory, r.outputs(addr, true)), val)
        } else {
            self
        }
    }

    /// The state after a 6510 write at `addr`.
    pub open spec fn after_write(self, addr: u16, val: u8) -> CartState {
        CartState {
            regs: self.regs.after_write(addr, val),
            ..self.written_through(addr, val)
        }
    }
}

} // verus!
