//! The cartridge logic behind C64_CARTRIDGE_TYPE.
//!
//! [`CartLogic`] reads and writes ROM banks, cartridge RAM and GeoRAM in memory
//! that is lent to it for the access in progress ([`CartLogic::set_ddr`]). Its
//! contracts are stated over [`CartState`].
use crate::cart_state::{
    freezer, CartLines, CartRegs, CartState, EepromPins, Freeze, Layout, Memory, Mode, Out, RunHints, ACTION,
    BBASIC, BLACKBOX_V3, BLACKBOX_V8, BLACKBOX_V9, CART_TYPE_NONE, CART_TYPE_NORMAL, EASY_FLASH,
    EPYX, EPYX_CYCLES, FC, FC3, GEORAM, KCS, MEGABYTER, OCEAN_16K, OCEAN_8K, PAGEFOX, SBASIC, SS5,
    SUPERGAMES, SYSTEM3, TYPE_MASK, WESTERMANN, ZAXXON,
};
use vstd::prelude::*;

verus! {

/// The registers of the logic and the memory that is lent to it.
pub struct CartLogic {
    regs: CartRegs,
    ddr: Option<Vec<u8>>,
}

impl View for CartLogic {
    type V = CartState;

    closed spec fn view(&self) -> CartState {
        CartState {
            regs: self.regs,
            ddr: match self.ddr {
                Some(d) => Some(d@),
                None => None,
            },
        }
    }
}

impl Default for CartLogic {
    fn default() -> (c: CartLogic)
        ensures
            c@ == (CartState { regs: CartRegs::empty(Layout::guest_spec()), ddr: None }),
            c@.regs.valid(),
    {
        CartLogic::new()
    }
}

impl CartLogic {
    /// No cartridge (type 0), serving from guest DDR.
    pub fn new() -> (c: CartLogic)
        ensures
            c@ == (CartState { regs: CartRegs::empty(Layout::guest_spec()), ddr: None }),
            c@.regs.valid(),
    {
        CartLogic::with_layout(Layout::guest())
    }

    /// No cartridge (type 0), with ROM, cartridge RAM and GeoRAM at `layout` in
    /// the memory given to [`CartLogic::set_ddr`].
    pub fn with_layout(layout: Layout) -> (c: CartLogic)
        requires
            layout.fits(),
        ensures
            c@ == (CartState { regs: CartRegs::empty(layout), ddr: None }),
            c@.regs.valid(),
    {
        let regs = CartRegs {
            layout,
            logic: CART_TYPE_NONE,
            variant: 0,
            mode: Mode { b2: false, b1: false, b0: false },
            bank: 0,
            ram_bank: 0,
            geo_even: 0,
            geo_odd: 0,
            ef_write: false,
            cart_en: false,
            do_io2: true,
            allow_bank: false,
            hold_nmi: false,
            eeprom_pins: EepromPins { cs: false, clk: false, di: false },
            eeprom_out: true,
            freeze: Freeze::Idle,
            button: false,
            epyx_armed: 0,
            clk: 0,
        };
        CartLogic { regs, ddr: None }
    }

    /// Memory for the accesses that follow (`None`: taken back). Gives back the
    /// memory that was lent before. Without it ROM and RAM windows read as not
    /// served.
    pub fn set_ddr(&mut self, ddr: Option<Vec<u8>>) -> (before: Option<Vec<u8>>)
        ensures
            final(self)@ == (CartState {
                ddr: match ddr {
                    Some(d) => Some(d@),
                    None => None,
                },
                ..old(self)@
            }),
            old(self)@.ddr == (match before {
                Some(d) => Some(d@),
                None => None,
            }),
    {
        let before = self.ddr.take();
        self.ddr = ddr;
        before
    }

    /// A logic other than none is selected (it may still be disabled).
    pub fn present(&self) -> (r: bool)
        ensures
            r == (self@.regs.logic != CART_TYPE_NONE),
    {
        self.regs.logic != CART_TYPE_NONE
    }

    /// C64_CARTRIDGE_TYPE taken by the reset line (`reset`: the cartridge is on)
    /// or by a force (off until a freeze). `clk` is the C64 cycle.
    pub fn configure(&mut self, type_variant: u8, reset: bool, clk: u64)
        requires
            old(self)@.regs.valid(),
            clk + EPYX_CYCLES <= u64::MAX,
        ensures
            final(self)@.regs == old(self)@.regs.taken(
                type_variant & TYPE_MASK,
                type_variant >> 5,
                reset,
                clk,
            ),
            final(self)@.regs.logic == type_variant % 32,
            final(self)@.regs.variant == type_variant / 32,
            final(self)@.ddr == old(self)@.ddr,
            final(self)@.regs.valid(),
    {
        proof {
            crate::cart_bits::type_bits(type_variant);
        }
        self.regs = self.regs.take_type(type_variant & TYPE_MASK, type_variant >> 5, reset, clk);
    }

    /// The expansion port's reset line: as at reset, with the type already taken.
    pub fn reset_line(&mut self)
        requires
            old(self)@.regs.valid(),
        ensures
            final(self)@.regs == old(self)@.regs.taken(
                old(self)@.regs.logic,
                old(self)@.regs.variant,
                true,
                0,
            ),
            final(self)@.ddr == old(self)@.ddr,
            final(self)@.regs.valid(),
    {
        self.regs = self.regs.take_type(self.regs.logic, self.regs.variant, true, 0);
    }

    /// C64_CARTRIDGE_KILL bit 0. Types that drive their enable on every clock
    /// (Ocean) come back.
    pub fn kill(&mut self)
        requires
            old(self)@.regs.valid(),
        ensures
            final(self)@.regs == old(self)@.regs.killed(),
            final(self)@.ddr == old(self)@.ddr,
            final(self)@.regs.valid(),
    {
        let off = CartRegs {
            cart_en: false,
            hold_nmi: false,
            freeze: self.regs.freeze.leave(),
            ..self.regs
        };
        self.regs = off.settle();
    }

    /// C64_CARTRIDGE_ACTIVE.
    pub fn active(&self) -> (r: bool)
        ensures
            r == self@.regs.cart_en,
    {
        self.regs.cart_en
    }

    /// EXROM/GAME as the cartridge port sees them. Lines that depend on the
    /// address (Business Basic's dynamic mode, the Atomic Power write trick) are
    /// taken for a read at $0000.
    pub fn lines(&self) -> (l: CartLines)
        requires
            self@.regs.valid(),
        ensures
            l == self@.regs.lines(),
    {
        let o = self.regs.out(0, false);
        CartLines {
            exrom: if !self.regs.cart_en || o.exrom_n {
                1
            } else {
                0
            },
            game: if !self.regs.cart_en || o.game_n {
                1
            } else {
                0
            },
        }
    }

    /// NMI asserted by the cartridge.
    pub fn nmi(&self) -> (r: bool)
        requires
            self@.regs.valid(),
        ensures
            r == !self@.regs.outputs(0, false).nmi_n,
    {
        !self.regs.out(0, false).nmi_n
    }

    /// IRQ asserted by the cartridge.
    pub fn irq(&self) -> (r: bool)
        requires
            self@.regs.valid(),
        ensures
            r == !self@.regs.outputs(0, false).irq_n,
    {
        !self.regs.out(0, false).irq_n
    }

    /// How the 6510 has to be run.
    pub fn run_hints(&self) -> (h: RunHints)
        requires
            self@.regs.valid(),
        ensures
            h == self@.regs.hints(),
    {
        let r = self.regs;
        let watch_io = r.logic == EPYX || r.cart_en && (r.logic == WESTERMANN || r.logic == SBASIC
            || r.logic == BBASIC || r.logic == BLACKBOX_V9 || r.logic == KCS || r.logic == FC);
        let deadline = if r.logic == EPYX && !r.timed_out() {
            Some(r.epyx_armed + EPYX_CYCLES)
        } else {
            None
        };
        RunHints { watch_io, deadline, freeze_pending: r.freeze == Freeze::Triggered }
    }

    /// Advance the logic's notion of time (the backend, after running the 6510).
    pub fn set_clk(&mut self, clk: u64)
        ensures
            final(self)@ == old(self)@.at(clk),
    {
        self.regs.clk = clk;
    }

    /// The 6510 was held for `cycles`: the Epyx capacitor does not discharge
    /// meanwhile.
    pub fn hold_time(&mut self, cycles: u64)
        requires
            old(self)@.regs.valid(),
            old(self)@.regs.logic == EPYX ==> old(self)@.regs.epyx_armed + cycles + EPYX_CYCLES
                <= u64::MAX,
        ensures
            final(self)@.regs == (CartRegs {
                epyx_armed: if old(self)@.regs.logic == EPYX {
                    (old(self)@.regs.epyx_armed + cycles) as u64
                } else {
                    old(self)@.regs.epyx_armed
                },
                ..old(self)@.regs
            }),
            final(self)@.ddr == old(self)@.ddr,
            final(self)@.regs.valid(),
    {
        if self.regs.logic == EPYX {
            self.regs.epyx_armed = self.regs.epyx_armed + cycles;
        }
    }

    /// The freeze button: a push arms a freezer cartridge.
    pub fn set_button(&mut self, down: bool)
        requires
            old(self)@.regs.valid(),
        ensures
            final(self)@.regs == old(self)@.regs.button_set(down),
            final(self)@.ddr == old(self)@.ddr,
            final(self)@.regs.valid(),
    {
        let mut r = self.regs;
        if down && !r.button && r.freeze == Freeze::Idle && freezer(r.logic) {
            r.freeze = Freeze::Triggered;
        }
        r.button = down;
        self.regs = r.settle();
    }

    /// The 6510 is taking the interrupt that the trigger pulled: the cartridge is
    /// switched in.
    pub fn enter_freeze(&mut self)
        requires
            old(self)@.regs.valid(),
        ensures
            final(self)@.regs == old(self)@.regs.freeze_entered(),
            final(self)@.ddr == old(self)@.ddr,
            final(self)@.regs.valid(),
    {
        if self.regs.freeze != Freeze::Triggered {
            return;
        }
        let r = CartRegs {
            freeze: Freeze::Active,
            bank: 0,
            ram_bank: 0,
            mode: Mode { b2: false, b1: false, b0: false },
            cart_en: true,
            hold_nmi: true,
            ..self.regs
        };
        self.regs = r.settle();
    }

    /// Where the freezer is.
    pub fn freeze(&self) -> (f: Freeze)
        ensures
            f == self@.regs.freeze,
    {
        self.regs.freeze
    }

    /// The levels that the cartridge drives on its EEPROM.
    pub fn eeprom_pins(&self) -> (p: EepromPins)
        ensures
            p == self@.regs.eeprom_pins,
    {
        self.regs.eeprom_pins
    }

    /// The level of the EEPROM's data output, which idles high.
    pub fn set_eeprom_out(&mut self, level: bool)
        ensures
            final(self)@ == (CartState {
                regs: CartRegs { eeprom_out: level, ..old(self)@.regs },
                ..old(self)@
            }),
    {
        self.regs.eeprom_out = level;
    }

    /// A 6510 read in a ROM window or `$DE00-$DFFF`, with side effects. It returns
    /// what a peek returns just before.
    pub fn bus_read(&mut self, addr: u16, clk: u64) -> (data: Option<u8>)
        requires
            old(self)@.regs.valid(),
            clk + EPYX_CYCLES <= u64::MAX,
        ensures
            data == old(self)@.peeked(addr),
            data == old(self)@.at(clk).peeked(addr),
            final(self)@ == old(self)@.at(clk).after_read(addr),
            final(self)@.regs.valid(),
    {
        proof {
            crate::cart_laws::peek_is_read(self@, addr, clk);
        }
        self.regs.clk = clk;
        let data = self.peek(addr);
        let r = self.regs;
        if 0xDE00 <= addr && addr < 0xE000 {
            self.regs = r.read_io(addr).settle();
        } else if 0x8000 <= addr && addr < 0xA000 {
            match r.logic {
                // A read of $8000-$8FFF selects bank 0 of ROMH, $9000-$9FFF bank 1.
                ZAXXON => {
                    self.regs.bank = (r.bank & 0xFE) | if addr & 0x1000 != 0 {
                        1u8
                    } else {
                        0u8
                    };
                },
                EPYX => {
                    self.regs.epyx_armed = clk;
                },
                _ => {},
            }
        }
        data
    }

    /// A 6510 write in a ROM window or `$DE00-$DFFF`. Returns whether the C64 RAM
    /// underneath stays unwritten: always for I/O, for ROM windows only in
    /// ULTIMAX.
    pub fn bus_write(&mut self, addr: u16, val: u8, clk: u64, forced_ultimax: bool) -> (consumed:
        bool)
        requires
            old(self)@.regs.valid(),
        ensures
            consumed == old(self)@.at(clk).regs.consumes(addr, forced_ultimax),
            final(self)@ == old(self)@.at(clk).after_write(addr, val),
            final(self)@.regs.valid(),
    {
        self.regs.clk = clk;
        self.write_through(addr, val);
        let r = self.regs;
        if 0xDE00 <= addr && addr < 0xE000 {
            self.regs = r.write_io(addr, val).settle();
            return true;
        }
        let atomic = r.logic == ACTION && r.variant & 2 != 0 && r.mode.b2 && r.mode.b1 && !r.mode.b0
            && r.freeze != Freeze::Active && r.cart_en && 0xA000 <= addr && addr < 0xC000;
        let l = self.lines();
        forced_ultimax || (l.exrom == 1 && l.game == 0) || atomic
    }

    /// What a read would return, without side effects.
    pub fn peek(&self, addr: u16) -> (data: Option<u8>)
        requires
            self@.regs.valid(),
        ensures
            data == self@.peeked(addr),
    {
        if 0xDE00 <= addr && addr < 0xE000 {
            self.io_data(addr)
        } else {
            self.rom_data(addr)
        }
    }

    fn ddr_read(&self, off: usize) -> (r: Option<u8>)
        ensures
            r == self@.memory_at(off as int),
    {
        match &self.ddr {
            Some(d) => if off < d.len() {
                Some(d[off])
            } else {
                None
            },
            None => None,
        }
    }

    fn ddr_write(&mut self, off: usize, val: u8)
        ensures
            final(self)@ == old(self)@.memory_set(off as int, val),
    {
        match &mut self.ddr {
            Some(d) => {
                if off < d.len() {
                    d[off] = val;
                }
            },
            None => {},
        }
    }

    fn rom_data(&self, addr: u16) -> (r: Option<u8>)
        requires
            self@.regs.valid(),
        ensures
            r == self@.rom_data(addr),
    {
        let o = self.regs.out(addr, false);
        if !(self.regs.cart_en && o.rom) {
            return None;
        }
        let (memory, _) = self.regs.map(addr);
        self.ddr_read(self.regs.address(addr, memory, o))
    }

    fn io_data(&self, addr: u16) -> (r: Option<u8>)
        requires
            self@.regs.valid(),
        ensures
            r == self@.io_data(addr),
    {
        let r = self.regs;
        if r.logic == ACTION && r.variant & 2 != 0 && addr & 0x1FE == 0 {
            let allow: u8 = if r.allow_bank {
                2
            } else {
                0
            };
            return Some(0x40 + (r.bank / 4) % 2 * 0x80 + r.bank % 4 * 8 + allow);
        }
        let io1 = addr & 0x100 == 0;
        if r.logic == OCEAN_8K && r.variant & 3 == 2 && io1 {
            return Some(
                if r.eeprom_out {
                    0x80
                } else {
                    0
                },
            );
        }
        let o = r.out(addr, false);
        let serve = if io1 {
            o.io1
        } else {
            o.io2
        };
        if !(r.cart_en && serve) {
            return None;
        }
        let (memory, _) = r.map(addr);
        self.ddr_read(r.address(addr, memory, o))
    }

    fn write_through(&mut self, addr: u16, val: u8)
        requires
            old(self)@.regs.valid(),
        ensures
            final(self)@ == old(self)@.written_through(addr, val),
            final(self)@.regs == old(self)@.regs,
    {
        let (memory, allowed) = self.regs.map(addr);
        if allowed {
            let o = self.regs.out(addr, true);
            let off: usize = self.regs.address(addr, memory, o);
            self.ddr_write(off, val);
        }
    }
}

impl CartRegs {
    fn timed_out(self) -> (r: bool)
        requires
            self.valid(),
        ensures
            r == self.epyx_timed_out(),
    {
        self.clk >= self.epyx_armed + EPYX_CYCLES
    }

    fn settle(self) -> (r: CartRegs)
        ensures
            r == self.settled(),
            self.in_range() ==> r.valid(),
    {
        let s = match self.logic {
            CART_TYPE_NONE => CartRegs { cart_en: false, ..self },
            OCEAN_8K => CartRegs { cart_en: !self.mode.b0, ..self },
            SUPERGAMES if self.mode.b1 && self.mode.b0 => CartRegs { cart_en: false, ..self },
            ACTION => CartRegs {
                ram_bank: if self.allow_bank {
                    self.bank % 8
                } else {
                    0
                },
                ..self
            },
            KCS if self.freeze == Freeze::Active => CartRegs {
                mode: Mode { b2: false, b1: true, b0: false },
                ..self
            },
            _ => self,
        };
        if !freezer(s.logic) || (s.freeze == Freeze::Button && !s.button) {
            CartRegs { freeze: Freeze::Idle, ..s }
        } else {
            s
        }
    }

    /// The registers after the reset line or a force has taken a type.
    fn take_type(self, logic: u8, variant: u8, reset: bool, clk: u64) -> (r: CartRegs)
        requires
            self.valid(),
            clk + EPYX_CYCLES <= u64::MAX,
        ensures
            r == self.taken(logic, variant, reset, clk),
            r.valid(),
    {
        let r = CartRegs {
            logic,
            variant,
            mode: Mode { b2: false, b1: false, b0: false },
            bank: if logic == BLACKBOX_V9 {
                1
            } else {
                0
            },
            ram_bank: 0,
            geo_even: 0,
            geo_odd: 0,
            ef_write: false,
            cart_en: reset,
            do_io2: true,
            allow_bank: false,
            hold_nmi: false,
            eeprom_pins: EepromPins { cs: false, clk: false, di: false },
            epyx_armed: clk,
            clk,
            ..self
        };
        r.settle()
    }

    /// The outputs for a bus cycle at `addr`.
    pub fn out(self, addr: u16, write: bool) -> (o: Out)
        requires
            self.valid(),
        ensures
            o == self.outputs(addr, write),
    {
        let m = self.mode;
        let v0 = self.variant & 1 != 0;
        let v1 = self.variant & 2 != 0;
        let act = self.freeze == Freeze::Active;
        let frozen = act || self.freeze == Freeze::Triggered;
        let mut o = Out::idle();
        match self.logic {
            CART_TYPE_NORMAL => {
                o.game_n = v1;
                o.exrom_n = v0;
                o.rom = true;
            },
            EPYX => {
                o.exrom_n = self.timed_out();
                o.rom = true;
                o.io2 = true;
            },
            WESTERMANN => {
                o.game_n = m.b0;
                o.exrom_n = !v1 && m.b0;
                o.rom = true;
            },
            SBASIC => {
                o.game_n = !m.b0;
                o.exrom_n = false;
                o.rom = true;
            },
            BBASIC => {
                if m.b0 {
                    o.game_n = false;
                    o.exrom_n = false;
                } else if addr >= 0x8000 && !(0xC000 <= addr && addr < 0xE000) {
                    o.game_n = false;
                }
                o.rom = true;
                o.io1 = true;
                o.a14 = true;
            },
            BLACKBOX_V3 => {
                o.exrom_n = m.b0;
                o.rom = true;
            },
            OCEAN_8K | SYSTEM3 => {
                o.exrom_n = m.b0;
                o.rom = true;
                o.a13 = false;
            },
            OCEAN_16K | ZAXXON => {
                o.game_n = false;
                o.exrom_n = false;
                o.rom = true;
            },
            MEGABYTER => {
                o.exrom_n = m.b1;
                o.rom = true;
                if v0 {
                    o.game_n = m.b0;
                } else {
                    o.game_n = !m.b0;
                    o.a13 = false;
                }
            },
            SUPERGAMES => {
                o.game_n = m.b0;
                o.exrom_n = m.b0;
                o.rom = true;
            },
            BLACKBOX_V8 => {
                o.game_n = m.b1;
                o.exrom_n = m.b0;
                o.rom = true;
            },
            BLACKBOX_V9 => {
                o.game_n = m.b1;
                o.exrom_n = !m.b0;
                o.rom = true;
                o.io1 = true;
            },
            PAGEFOX => {
                o.game_n = m.b2;
                o.exrom_n = m.b2;
                o.rom = true;
            },
            EASY_FLASH => {
                o.game_n = !m.b0 && m.b2;
                o.exrom_n = !m.b1;
                o.rom = true;
                o.io2 = true;
            },
            FC3 => {
                o.game_n = !act && m.b0;
                o.exrom_n = act || m.b1;
                o.rom = true;
                o.io1 = true;
                o.io2 = true;
                o.nmi_n = !(frozen || self.hold_nmi);
            },
            ACTION => {
                if act {
                    o.game_n = false;
                    o.rom = true;
                } else {
                    o.io1 = m.b2 || !m.b0;
                    o.io2 = o.io1 && self.do_io2;
                    o.rom = m.b2 || !m.b1 || m.b0;
                    if m.b2 && m.b1 && !m.b0 && v1 {
                        o.game_n = false;
                        o.exrom_n = write && 0xA000 <= addr && addr < 0xC000;
                    } else {
                        o.game_n = !m.b0;
                        o.exrom_n = m.b1;
                    }
                }
                o.irq_n = !frozen;
                o.nmi_n = !frozen;
                o.a13 = false;
            },
            SS5 => {
                o.game_n = m.b0;
                o.exrom_n = !m.b1;
                o.io1 = self.cart_en;
                o.rom = self.cart_en;
                o.irq_n = !frozen;
                o.nmi_n = !frozen;
            },
            KCS => {
                o.game_n = m.b0;
                o.exrom_n = m.b1;
                o.io1 = true;
                o.io2 = true;
                o.rom = true;
                o.nmi_n = !frozen;
            },
            FC => {
                o.game_n = !act && m.b0;
                o.exrom_n = act || m.b0;
                o.io1 = true;
                o.io2 = true;
                o.rom = true;
                o.nmi_n = !frozen;
            },
            GEORAM => {
                o.io1 = true;
            },
            _ => {},
        }
        o
    }

    /// Which memory `addr` resolves to, and whether a write reaches it.
    fn map(self, addr: u16) -> (r: (Memory, bool))
        ensures
            r == self.decoded(addr),
    {
        let m = self.mode;
        let v0 = self.variant & 1 != 0;
        let v1 = self.variant & 2 != 0;
        let page: u16 = addr / 0x100;
        match self.logic {
            ACTION if m.b2 => {
                let roml = 0x8000 <= addr && addr < 0xA000;
                let atomic = m.b1 && !m.b0 && v1;
                if atomic && roml {
                    (Memory::Rom, false)
                } else if atomic && 0xA000 <= addr && addr < 0xC000 {
                    (Memory::Ram, true)
                } else {
                    let memory = if addr & 0x2000 == 0 {
                        Memory::Ram
                    } else {
                        Memory::Rom
                    };
                    let write = roml || (0xDE02 <= addr && addr <= 0xDEFF && v0) || (page == 0xDF
                        && self.do_io2);
                    (memory, write)
                }
            },
            EASY_FLASH if page == 0xDF => (Memory::Ram, true),
            // Flash writes go through register 9 in ULTIMAX mode 101.
            EASY_FLASH => (
                Memory::Rom,
                self.ef_write && m.b2 && !m.b1 && m.b0 && (addr >= 0xE000 || (0x8000 <= addr && addr
                    < 0xA000)),
            ),
            SS5 if !m.b1 && !m.b0 && 0x8000 <= addr && addr < 0xA000 => (Memory::Ram, true),
            KCS if page == 0xDF => (Memory::Ram, true),
            GEORAM if page == 0xDE => (Memory::Geo, true),
            PAGEFOX if m.b1 && !m.b0 => (Memory::Ram, 0x8000 <= addr && addr < 0xC000),
            _ => (Memory::Rom, false),
        }
    }

    /// The offset of `addr` in the lent memory.
    fn address(self, addr: u16, memory: Memory, o: Out) -> (off: usize)
        requires
            self.valid(),
        ensures
            off == self.offset(addr, memory, o),
    {
        let a13: usize = (addr as usize / 0x2000) % 2;
        let a14: usize = (addr as usize / 0x4000) % 2;
        let low: usize = addr as usize % 0x2000;
        match memory {
            Memory::Rom => {
                let full: usize = self.bank as usize;
                let bank: usize = if o.a14 {
                    full - full % 2 + a14
                } else {
                    full
                };
                let half: usize = if o.a13 {
                    a13
                } else {
                    0
                };
                self.layout.rom + bank * 0x4000 + half * 0x2000 + low
            },
            Memory::Ram => {
                let full: usize = self.ram_bank as usize;
                let bank: usize = if self.logic == PAGEFOX {
                    full - full % 2 + a13
                } else {
                    full
                };
                let a7: usize = if self.logic == KCS && (addr as usize / 0x80) % 2 == 1 {
                    0x80
                } else {
                    0
                };
                self.layout.ram + bank * 0x2000 + low - a7
            },
            Memory::Geo => {
                let even: usize = self.geo_even as usize;
                let page: usize = (even / 64) * 0x4000 + self.geo_odd as usize * 64 + even % 64;
                self.layout.geo + page * 0x100 + addr as usize % 0x100
            },
        }
    }

    /// The registers after a read of `$DE00-$DFFF`, before they settle.
    fn read_io(self, addr: u16) -> (r: CartRegs)
        requires
            self.valid(),
            self.clk + EPYX_CYCLES <= u64::MAX,
        ensures
            r == self.io_read_regs(addr),
            r.valid(),
    {
        let m = self.mode;
        let io: u16 = addr & 0x1FF;
        let io1 = io & 0x100 == 0;
        match self.logic {
            EPYX if io1 => CartRegs { epyx_armed: self.clk, ..self },
            WESTERMANN => if !io1 {
                CartRegs { mode: Mode { b0: true, ..m }, ..self }
            } else if self.variant & 1 != 0 {
                CartRegs { mode: Mode { b0: false, ..m }, ..self }
            } else {
                self
            },
            SBASIC if io1 => CartRegs { mode: Mode { b0: false, ..m }, ..self },
            BBASIC if io1 => CartRegs { mode: Mode { b0: true, ..m }, ..self },
            // Nothing drives IO1 for this type, so the read selects bank 0.
            SYSTEM3 if io1 => CartRegs { bank: 0, mode: Mode { b0: false, ..m }, ..self },
            BLACKBOX_V9 if io1 => CartRegs {
                bank: (self.bank & 0xFE) | if io & 0x80 != 0 {
                    1u8
                } else {
                    0u8
                },
                mode: Mode { b1: io & 1 != 0, b0: io & 0x40 == 0, ..m },
                ..self
            },
            KCS if io1 => CartRegs {
                mode: Mode { b2: false, b1: io & 2 != 0, b0: true },
                ..self
            },
            KCS if io & 0x180 == 0x180 => CartRegs { freeze: self.freeze.leave(), ..self },
            FC => CartRegs { mode: Mode { b0: io1, ..m }, freeze: self.freeze.leave(), ..self },
            _ => self,
        }
    }

    fn write_freezer(self, addr: u16, v: u8) -> (r: CartRegs)
        requires
            self.valid(),
        ensures
            r == self.freezer_write_regs(addr, v),
            r.valid(),
    {
        let m = self.mode;
        let io: u16 = addr & 0x1FF;
        let io1 = io & 0x100 == 0;
        match self.logic {
            FC3 if io == 0x1FF && self.cart_en => {
                let low: u8 = (self.bank & 0xFC) | (v & 3);
                CartRegs {
                    bank: if self.variant & 1 != 0 {
                        (low & 0xF3) | (v & 0x0C)
                    } else {
                        low
                    },
                    mode: Mode { b2: false, b1: v & 0x10 != 0, b0: v & 0x20 != 0 },
                    cart_en: v & 0x80 == 0,
                    hold_nmi: v & 0x40 == 0,
                    freeze: self.freeze.leave(),
                    ..self
                }
            },
            ACTION if io1 && self.cart_en && (io & 0x1FE == 0 || self.variant & 1 == 0) => {
                if io & 1 == 0 || self.variant & 1 == 0 {
                    CartRegs {
                        bank: (self.bank & 0xF8) | ((v >> 7) << 2) | ((v >> 3) & 3),
                        mode: Mode { b2: v & 0x20 != 0, b1: v & 2 != 0, b0: v & 1 != 0 },
                        cart_en: v & 4 == 0,
                        freeze: if v & 0x40 != 0 {
                            self.freeze.leave()
                        } else {
                            self.freeze
                        },
                        ..self
                    }
                } else {
                    // Retro Replay's second register at $DE01.
                    CartRegs {
                        do_io2: self.do_io2 && v & 0x40 == 0,
                        allow_bank: self.allow_bank || v & 2 != 0,
                        ..self
                    }
                }
            },
            SS5 if io1 && self.cart_en => {
                let low: u8 = (self.bank & 0xFC) | (((v >> 4) & 1) << 1) | ((v >> 2) & 1);
                CartRegs {
                    bank: if self.variant & 1 != 0 {
                        (low & 0xFB) | (((v >> 5) & 1) << 2)
                    } else {
                        low
                    },
                    mode: Mode { b2: v & 8 != 0, b1: v & 2 != 0, b0: v & 1 != 0 },
                    cart_en: v & 8 == 0,
                    freeze: if v & 1 == 0 {
                        self.freeze.leave()
                    } else {
                        self.freeze
                    },
                    ..self
                }
            },
            KCS if io & 0x180 == 0x080 => CartRegs {
                mode: Mode { b2: false, b1: false, b0: false },
                ..self
            },
            KCS if io & 0x180 == 0x000 => if m == (Mode { b2: false, b1: false, b0: false }) {
                CartRegs { mode: Mode { b2: true, b1: true, b0: false }, ..self }
            } else if m == (Mode { b2: false, b1: true, b0: false }) || m == (Mode {
                b2: true,
                b1: true,
                b0: true,
            }) {
                CartRegs { mode: Mode { b2: false, b1: false, b0: io & 2 != 0 }, ..self }
            } else {
                self
            },
            FC => CartRegs { mode: Mode { b0: io1, ..m }, freeze: self.freeze.leave(), ..self },
            _ => self,
        }
    }

    fn write_bank(self, addr: u16, v: u8) -> (r: CartRegs)
        requires
            self.valid(),
        ensures
            r == self.bank_write_regs(addr, v),
            r.valid(),
    {
        let m = self.mode;
        let io: u16 = addr & 0x1FF;
        let io1 = io & 0x100 == 0;
        match self.logic {
            CART_TYPE_NORMAL if io == 0x1FF && self.cart_en && v & 0xC0 == 0x40 => CartRegs {
                cart_en: false,
                ..self
            },
            SBASIC if io1 => CartRegs { mode: Mode { b0: true, ..m }, ..self },
            BBASIC if io1 => CartRegs { mode: Mode { b0: false, ..m }, ..self },
            BLACKBOX_V3 => CartRegs { mode: Mode { b0: io1, ..m }, ..self },
            OCEAN_8K if io1 => {
                let s = CartRegs { bank: v & 0x3F, ..self };
                if self.variant & 3 == 1 {
                    CartRegs { mode: Mode { b0: v & 0x80 != 0, ..m }, ..s }
                } else if self.variant & 3 == 2 {
                    CartRegs {
                        mode: Mode { b1: v & 0x80 != 0, b0: v & 0x40 != 0, ..m },
                        eeprom_pins: EepromPins {
                            cs: v & 0x40 != 0,
                            clk: v & 0x20 != 0,
                            di: v & 0x10 != 0,
                        },
                        ..s
                    }
                } else {
                    s
                }
            },
            OCEAN_16K if io1 => CartRegs { bank: v, ..self },
            SYSTEM3 if io1 => CartRegs { bank: v, mode: Mode { b0: false, ..m }, ..self },
            MEGABYTER if io1 => if io & 2 == 0 {
                CartRegs { bank: v, ..self }
            } else {
                CartRegs { mode: Mode { b1: v & 2 != 0, b0: v & 1 != 0, ..m }, ..self }
            },
            SUPERGAMES if !io1 && !m.b1 => CartRegs {
                bank: (self.bank & 0xFC) | (v & 3),
                mode: Mode { b1: v & 8 != 0, b0: v & 4 != 0, ..m },
                ..self
            },
            BLACKBOX_V8 if !io1 => CartRegs {
                bank: (self.bank & 0xFC) | ((v >> 2) & 3),
                mode: Mode { b1: v & 2 != 0, b0: v & 1 != 0, ..m },
                ..self
            },
            BLACKBOX_V9 if io1 => CartRegs {
                bank: (self.bank & 0xFE) | if io & 0x80 != 0 {
                    0u8
                } else {
                    1u8
                },
                mode: Mode { b1: io & 1 != 0, b0: io & 0x40 == 0, ..m },
                ..self
            },
            PAGEFOX if io & 0x180 == 0x080 => CartRegs {
                mode: Mode { b2: v & 0x10 != 0, b1: v & 8 != 0, b0: v & 4 != 0 },
                bank: (self.bank & 0xFC) | ((v >> 1) & 3),
                ram_bank: self.ram_bank / 4 * 4 + self.ram_bank % 2 + if v & 2 != 0 {
                    2
                } else {
                    0
                },
                ..self
            },
            EASY_FLASH if io1 && self.cart_en => {
                let s = CartRegs { ef_write: false, ..self };
                let reg: u16 = io & 0xF;
                if reg == 0 {
                    CartRegs { bank: v, ..s }
                } else if reg == 2 {
                    CartRegs {
                        mode: Mode { b2: v & 4 != 0, b1: v & 2 != 0, b0: v & 1 != 0 },
                        ..s
                    }
                } else if reg == 9 {
                    CartRegs { ef_write: v == 0x65, ..s }
                } else {
                    s
                }
            },
            GEORAM if io & 0x180 == 0x180 => if io & 1 == 0 {
                CartRegs { geo_even: v, ..self }
            } else {
                CartRegs { geo_odd: v, ..self }
            },
            _ => self,
        }
    }

    /// The registers after a write of `v` to `$DE00-$DFFF`, before they settle.
    fn write_io(self, addr: u16, v: u8) -> (r: CartRegs)
        requires
            self.valid(),
        ensures
            r == self.io_write_regs(addr, v),
            r.valid(),
    {
        if freezer(self.logic) {
            self.write_freezer(addr, v)
        } else {
            self.write_bank(addr, v)
        }
    }
}

} // verus!
