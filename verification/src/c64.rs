//! The firmware's view of the C64: cartridge and machine control, the DMA
//! window, the keyboard matrix, core config, palette and ROM windows.
//!
//! Without a backend [`C64Port`] answers from register tables and a stand-in for
//! the C64's bus. With one attached the same windows drive a C64: every access
//! that can reach it first runs it up to the accessing instruction's clock, and
//! in between a tick runs it every [`SYNC_PERIOD`].
//!
//! The contracts speak of [`World`]: the port and what an access can change
//! around it.
use crate::c64_state::{
    PortRegs, PortState, TablesState, World, BASIC, C64_RESET_IRQ_BIT, CART, CARTRIDGE_KILL,
    CARTRIDGE_TYPE, CART_END, CART_ROM_SIZE, CHAR, CHAR_END, CLOCK_DETECT, CORE, CORE_END, DMA,
    DMA_END, DMA_MEMONLY, DRIVES_END, DRIVE_A, DRIVE_WINDOW, EEPROM, EEPROM_END, IEC, IEC_END,
    KERNAL, MATRIX, MATRIX_END, MATRIX_FREEZE, MATRIX_RESTORE, MIXER, MIXER_BYTES, MODE, PALETTE,
    PALETTE_RGB_SIZE, REU_ENABLE, REU_SIZE, SAMPLER, SAMPLER_ENABLE, SAMPLER_END, STOP,
    SYNC_PERIOD, UCI, UCI_END, UCI_IRQ_BIT, UNLOCK_ACK_ADDR, UNLOCK_IRQ_HIGH_BIT, WASD_NONE,
    WD_IRQ_HIGH_BIT,
};
use crate::c64_tables::{
    cart_table, core_table, iec_table, memory_table, uci_table, JOY1_SWOUT, JOY2_SWOUT,
};
use crate::c64host::{C64Backend, C64Frame, C64Rom, CartRom};
use crate::dmastub::DmaStub;
use crate::io::IoCtx;
use crate::keyjoy::Pulls;
use crate::regtable::RegTable;
use crate::time::DMA_BYTE_CLOCKS;
use vstd::prelude::*;
use vstd::slice::slice_subrange;

verus! {

/// The register windows of the port.
struct Tables {
    cart: RegTable,
    matrix: RegTable,
    core: RegTable,
    basic: RegTable,
    kernal: RegTable,
    chars: RegTable,
    uci: RegTable,
    iec: RegTable,
}

impl View for Tables {
    type V = TablesState;

    closed spec fn view(&self) -> TablesState {
        TablesState {
            cart: self.cart@,
            matrix: self.matrix@,
            core: self.core@,
            basic: self.basic@,
            kernal: self.kernal@,
            chars: self.chars@,
            uci: self.uci@,
            iec: self.iec@,
        }
    }
}

impl Tables {
    fn new() -> (t: Tables)
        ensures
            t@ == TablesState::initial(),
            t@.valid(),
    {
        Tables {
            cart: RegTable::new("c64-cartregs", cart_table()),
            matrix: RegTable::new("matrix-keyb", memory_table(0x100)),
            core: RegTable::new("c64-core-config", core_table()),
            basic: RegTable::new("basic-rom", memory_table(0x2000)),
            kernal: RegTable::new("kernal-rom", memory_table(0x2000)),
            chars: RegTable::new("char-rom", memory_table(0x1000)),
            uci: RegTable::new("uci", uci_table()),
            iec: RegTable::new("iec", iec_table()),
        }
    }

    fn rom_get(&self, rom: C64Rom, off: u32) -> (v: u8)
        requires
            self@.valid(),
        ensures
            v == self@.rom(rom).at(off),
    {
        match rom {
            C64Rom::Basic => self.basic.get(off),
            C64Rom::Kernal => self.kernal.get(off),
            C64Rom::Char => self.chars.get(off),
        }
    }

    fn rom_set(&mut self, rom: C64Rom, off: u32, val: u8)
        requires
            old(self)@.valid(),
        ensures
            final(self)@ == old(self)@.rom_put(rom, off, val),
            final(self)@.valid(),
    {
        match rom {
            C64Rom::Basic => self.basic.set(off, val),
            C64Rom::Kernal => self.kernal.set(off, val),
            C64Rom::Char => self.chars.set(off, val),
        }
    }

    fn rows(&self) -> (rows: [u8; 8])
        requires
            self@.valid(),
        ensures
            rows@ == self@.matrix_rows(),
    {
        let m = &self.matrix;
        let rows = [
            m.get(0),
            m.get(1),
            m.get(2),
            m.get(3),
            m.get(4),
            m.get(5),
            m.get(6),
            m.get(7),
        ];
        assert(rows@ =~= self@.matrix_rows());
        rows
    }
}

/// The C64 port, with a C64 attached or not.
pub struct C64Port<B: C64Backend> {
    backend: Option<B>,
    regs: PortRegs,
    tables: Tables,
    stub: DmaStub,
}

impl<B: C64Backend> View for C64Port<B> {
    type V = PortState<B::State>;

    closed spec fn view(&self) -> PortState<B::State> {
        PortState {
            regs: self.regs,
            tables: self.tables@,
            stub: self.stub@,
            c64: match self.backend {
                Some(b) => Some(b.state()),
                None => None,
            },
        }
    }
}

/// The port and the machine around it.
pub open spec fn world<B: C64Backend>(port: C64Port<B>, ctx: IoCtx) -> World<B::State> {
    World { port: port@, ddr: ctx.ram@, irq: ctx.irq, stall: ctx.stall }
}

/// The port alone: for what happens outside an access.
pub open spec fn alone<S>(port: PortState<S>) -> World<S> {
    World { port, ddr: Seq::empty(), irq: crate::irq::IrqState::initial(), stall: 0 }
}

/// C64_REU_SIZE as KiB.
pub fn reu_size_kb(reg: u8) -> (kb: u32)
    ensures
        kb == crate::c64_state::reu_kb(reg),
{
    assert(reg & 7 < 32) by (bit_vector);
    128u32 << (reg & 7)
}

impl<B: C64Backend> C64Port<B> {
    /// The port as it powers on, with no C64.
    pub fn new() -> (p: C64Port<B>)
        ensures
            p@ == (PortState {
                regs: PortRegs::initial(),
                tables: TablesState::initial(),
                stub: crate::dmastub::StubState::initial(),
                c64: None::<B::State>,
            }),
            p@.valid(),
    {
        C64Port {
            backend: None,
            regs: PortRegs {
                synced: 0,
                ultimax: false,
                reset: false,
                nmi: false,
                stop: false,
                restore: false,
                joy1: 0xFF,
                joy2: 0xFF,
                up: WASD_NONE,
                down: WASD_NONE,
                left: WASD_NONE,
                right: WASD_NONE,
                fire: WASD_NONE,
                pulls: Pulls::none(),
                keys_port: 2,
                lines1: 0xFF,
                lines2: 0xFF,
                cart_detect: None,
                cart_rom: CartRom::large(),
            },
            tables: Tables::new(),
            stub: DmaStub::new(),
        }
    }

    /// The C64 runs up to the access's clock, unless it is there already.
    fn sync(&mut self, ctx: &mut IoCtx)
        ensures
            world(*final(self), *final(ctx)) == crate::c64_state::synced::<B>(
                world(*old(self), *old(ctx)),
                old(ctx).now,
            ),
            final(ctx).stall == old(ctx).stall,
            (final(self)@.c64 is Some) == (old(self)@.c64 is Some),
            final(self)@.regs.cart_rom == old(self)@.regs.cart_rom,
            final(self)@.regs.reset == old(self)@.regs.reset,
            final(ctx).same_rest(*old(ctx)),
            old(self)@.valid() ==> final(self)@.valid(),
    {
        proof {
            reveal(crate::c64_state::synced);
        }
        let now = ctx.now;
        match &mut self.backend {
            Some(b) => {
                if now > self.regs.synced {
                    b.advance_to(now, ctx.ram.as_mut_slice());
                    self.regs.synced = now;
                }
            },
            None => {},
        }
    }

    /// Take the physical cartridge's lines.
    fn refresh_cart_detect(&mut self)
        ensures
            final(self)@ == crate::c64_state::detected::<B>(alone(old(self)@)).port,
            old(self)@.valid() ==> final(self)@.valid(),
    {
        match &self.backend {
            Some(b) => {
                if self.regs.cart_detect.is_some() {
                    self.regs.cart_detect = Some(b.cart_detect());
                }
            },
            None => {},
        }
    }

    /// Attach a C64 at clock `now`, which anchors its clock.
    pub fn attach(&mut self, backend: B, now: u64)
        ensures
            final(self)@ == crate::c64_state::detected::<B>(
                alone(
                    PortState {
                        regs: PortRegs { synced: now, ..old(self)@.regs },
                        c64: Some(
                            B::after(
                                B::after(
                                    backend.state(),
                                    crate::c64host::C64Call::SetCartRom(old(self)@.regs.cart_rom),
                                    Seq::empty(),
                                ),
                                crate::c64host::C64Call::Advance(now),
                                Seq::empty(),
                            ),
                        ),
                        ..old(self)@
                    },
                ),
            ).port,
            old(self)@.valid() ==> final(self)@.valid(),
    {
        let mut b = backend;
        b.set_cart_rom(self.regs.cart_rom);
        let mut none: Vec<u8> = Vec::new();
        b.advance_to(now, none.as_mut_slice());
        self.regs.synced = now;
        self.backend = Some(b);
        self.refresh_cart_detect();
    }

    /// The attached C64.
    pub fn backend_mut(&mut self) -> (b: Option<&mut B>)
        ensures
            (b is Some) == (old(self)@.c64 is Some),
            match b {
                Some(b) => old(self)@.c64 == Some(b.state()) && final(self)@ == (PortState {
                    c64: Some(final(b).state()),
                    ..old(self)@
                }),
                None => final(self)@ == old(self)@,
            },
    {
        self.backend.as_mut()
    }

    /// Where this firmware keeps the cartridge ROM.
    pub fn cart_rom(&self) -> (rom: CartRom)
        ensures
            rom == self@.regs.cart_rom,
    {
        self.regs.cart_rom
    }

    /// Where this firmware keeps the cartridge ROM; passed on to the C64 now and
    /// on every attach.
    pub fn set_cart_rom(&mut self, rom: CartRom)
        ensures
            final(self)@ == crate::c64_state::called::<B>(
                alone(
                    PortState {
                        regs: PortRegs { cart_rom: rom, ..old(self)@.regs },
                        ..old(self)@
                    },
                ),
                crate::c64host::C64Call::SetCartRom(rom),
            ).port,
            old(self)@.valid() ==> final(self)@.valid(),
    {
        self.regs.cart_rom = rom;
        match &mut self.backend {
            Some(b) => b.set_cart_rom(rom),
            None => {},
        }
    }

    /// Start following the physical cartridge's lines, `value` until the C64 shows
    /// them.
    pub fn set_cart_detect(&mut self, value: u8)
        ensures
            final(self)@ == crate::c64_state::detected::<B>(
                alone(
                    PortState {
                        regs: PortRegs { cart_detect: Some(value), ..old(self)@.regs },
                        ..old(self)@
                    },
                ),
            ).port,
            old(self)@.valid() ==> final(self)@.valid(),
    {
        self.regs.cart_detect = Some(value);
        self.refresh_cart_detect();
    }

    /// The physical cartridge's lines as of the last access that could reach the
    /// C64, if somebody asked for them.
    pub fn cart_detect(&self) -> (v: Option<u8>)
        ensures
            v == self@.regs.cart_detect,
    {
        self.regs.cart_detect
    }

    /// A host key at its matrix position: the C64's keyboard, or the stand-in's. A
    /// key that is assigned to a joystick line moves that line as well.
    pub fn set_key(&mut self, row: u8, col: u8, down: bool)
        requires
            old(self)@.valid(),
        ensures
            final(self)@ == crate::c64_state::keyed::<B>(
                alone(old(self)@),
                row,
                col,
                down,
            ).port,
            final(self)@.valid(),
    {
        self.apply_wasd_to_joy(row, col, down);
        match &mut self.backend {
            Some(b) => b.set_key(row, col, down),
            None => self.stub.set_key(row, col, down),
        }
    }

    /// Fold a key into the joystick lines. A press pulls the line that the key is
    /// assigned to; a release lets go of every line that the key pulls. Positions
    /// outside the matrix and keys that do neither do nothing.
    fn apply_wasd_to_joy(&mut self, row: u8, col: u8, down: bool)
        requires
            old(self)@.valid(),
        ensures
            final(self)@ == (match crate::c64_state::folded(
                old(self)@.regs,
                (row * 8 + col) as u8,
                down,
            ) {
                Some(pulls) if row < 8 && col < 8 => crate::c64_state::joysticks_applied::<B>(
                    alone(
                        PortState {
                            regs: PortRegs { pulls, ..old(self)@.regs },
                            ..old(self)@
                        },
                    ),
                ).port,
                _ => old(self)@,
            }),
            final(self)@.valid(),
    {
        if row >= 8 || col >= 8 {
            return;
        }
        let code: u8 = row * 8 + col;
        let r = self.regs;
        let line: Option<u8> = if code == r.fire {
            Some(4)
        } else if code == r.up {
            Some(0)
        } else if code == r.down {
            Some(1)
        } else if code == r.left {
            Some(2)
        } else if code == r.right {
            Some(3)
        } else {
            None
        };
        match line {
            Some(bit) => {
                self.regs.pulls = if down {
                    r.pulls.press(bit, code)
                } else {
                    r.pulls.release(code)
                };
            },
            None => {
                if down || !r.pulls.pulls(code) {
                    return;
                }
                self.regs.pulls = r.pulls.release(code);
            },
        }
        self.apply_joysticks();
    }

    /// What a DMA read of C64 address `addr` returns, without side effects.
    pub fn dma_peek(&self, addr: u16) -> (v: u8)
        requires
            self@.valid(),
        ensures
            v == crate::c64_state::peeked::<B>(self@, (DMA + addr) as u32),
    {
        self.peek8(DMA + addr as u32)
    }

    /// The physical joystick on control port 1 or 2, active low. Other ports are
    /// ignored.
    pub fn set_joystick(&mut self, port: u8, lines: u8)
        requires
            old(self)@.valid(),
        ensures
            final(self)@ == (if port == 1 {
                crate::c64_state::joysticks_applied::<B>(
                    alone(
                        PortState {
                            regs: PortRegs { joy1: lines, ..old(self)@.regs },
                            ..old(self)@
                        },
                    ),
                ).port
            } else if port == 2 {
                crate::c64_state::joysticks_applied::<B>(
                    alone(
                        PortState {
                            regs: PortRegs { joy2: lines, ..old(self)@.regs },
                            ..old(self)@
                        },
                    ),
                ).port
            } else {
                old(self)@
            }),
            final(self)@.valid(),
    {
        if port == 1 {
            self.regs.joy1 = lines;
            self.apply_joysticks();
        } else if port == 2 {
            self.regs.joy2 = lines;
            self.apply_joysticks();
        }
    }

    /// The lines that the C64 sees on ports 1 and 2.
    pub fn joy_lines(&self) -> (lines: [u8; 2])
        ensures
            lines@ == seq![self@.regs.lines1, self@.regs.lines2],
    {
        let lines = [self.regs.lines1, self.regs.lines2];
        assert(lines@ =~= seq![self@.regs.lines1, self@.regs.lines2]);
        lines
    }

    /// Assign the key codes of up, down, left and right, past the matrix registers.
    pub fn set_wasd_to_joy(&mut self, codes: [u8; 4])
        ensures
            final(self)@ == (PortState {
                regs: PortRegs {
                    up: codes@[0],
                    down: codes@[1],
                    left: codes@[2],
                    right: codes@[3],
                    ..old(self)@.regs
                },
                ..old(self)@
            }),
    {
        self.regs.up = codes[0];
        self.regs.down = codes[1];
        self.regs.left = codes[2];
        self.regs.right = codes[3];
    }

    /// Assign the key code of fire, which has no register.
    pub fn set_wasd_fire(&mut self, code: u8)
        ensures
            final(self)@ == (PortState {
                regs: PortRegs { fire: code, ..old(self)@.regs },
                ..old(self)@
            }),
    {
        self.regs.fire = code;
    }

    /// The control port (1 or 2) that keys-as-joystick drives. Other ports are
    /// ignored. A held key follows at once.
    pub fn set_wasd_to_joy_port(&mut self, port: u8)
        requires
            old(self)@.valid(),
        ensures
            final(self)@ == (if port == 1 || port == 2 {
                crate::c64_state::joysticks_applied::<B>(
                    alone(
                        PortState {
                            regs: PortRegs { keys_port: port, ..old(self)@.regs },
                            ..old(self)@
                        },
                    ),
                ).port
            } else {
                old(self)@
            }),
            final(self)@.valid(),
    {
        if port == 1 || port == 2 {
            self.regs.keys_port = port;
            self.apply_joysticks();
        }
    }

    /// The host's RESTORE key, ORed into the NMI line.
    pub fn set_restore(&mut self, held: bool)
        requires
            old(self)@.valid(),
        ensures
            final(self)@ == crate::c64_state::nmi_applied::<B>(
                alone(
                    PortState {
                        regs: PortRegs { restore: held, ..old(self)@.regs },
                        ..old(self)@
                    },
                ),
            ).port,
            final(self)@.valid(),
    {
        self.regs.restore = held;
        self.apply_nmi();
    }

    /// The C64's picture, `None` without a C64.
    pub fn frame(&self) -> (f: Option<C64Frame>)
        ensures
            match f {
                Some(f) => self@.c64 is Some && f@ == B::picture(self@.c64->0),
                None => self@.c64 is None,
            },
    {
        match &self.backend {
            Some(b) => Some(b.frame()),
            None => None,
        }
    }

    /// The C64's frame counter, 0 without a C64.
    pub fn frame_counter(&self) -> (n: u64)
        ensures
            n == (match self@.c64 {
                Some(s) => B::frames(s),
                None => 0,
            }),
    {
        match &self.backend {
            Some(b) => b.frame_counter(),
            None => 0,
        }
    }

    /// Turn the C64's audio stream on or off.
    pub fn set_stream_audio(&mut self, on: bool)
        ensures
            final(self)@ == crate::c64_state::called::<B>(
                alone(old(self)@),
                crate::c64host::C64Call::StreamAudio(on),
            ).port,
    {
        match &mut self.backend {
            Some(b) => b.set_stream_audio(on),
            None => {},
        }
    }

    /// The samples that the C64 collected for the audio stream.
    pub fn take_stream_audio(&mut self) -> (samples: Vec<i16>)
        ensures
            samples@ == (match old(self)@.c64 {
                Some(s) => B::audio(s),
                None => Seq::empty(),
            }),
            final(self)@ == crate::c64_state::called::<B>(
                alone(old(self)@),
                crate::c64host::C64Call::TakeAudio,
            ).port,
    {
        match &mut self.backend {
            Some(b) => b.take_stream_audio(),
            None => Vec::new(),
        }
    }

    fn apply_joysticks(&mut self)
        requires
            old(self)@.valid(),
        ensures
            final(self)@ == crate::c64_state::joysticks_applied::<B>(alone(old(self)@)).port,
            final(self)@.valid(),
    {
        let r = self.regs;
        let keys: u8 = r.pulls.joystick();
        let out1: u8 = self.tables.core.get(JOY1_SWOUT);
        let out2: u8 = self.tables.core.get(JOY2_SWOUT);
        let lines1: u8 = if r.keys_port == 1 {
            (out1 & r.joy1) & keys
        } else {
            out1 & r.joy1
        };
        let lines2: u8 = if r.keys_port == 2 {
            (out2 & r.joy2) & keys
        } else {
            out2 & r.joy2
        };
        self.regs = PortRegs { lines1, lines2, ..r };
        match &mut self.backend {
            Some(b) => {
                b.set_joystick(1, lines1);
                b.set_joystick(2, lines2);
            },
            None => {},
        }
    }

    fn apply_nmi(&mut self)
        requires
            old(self)@.valid(),
        ensures
            final(self)@ == crate::c64_state::nmi_applied::<B>(alone(old(self)@)).port,
            final(self)@.valid(),
    {
        let level = self.regs.nmi || self.tables.matrix.get(MATRIX_RESTORE) != 0
            || self.regs.restore;
        match &mut self.backend {
            Some(b) => b.set_nmi(level),
            None => {},
        }
    }

    fn mem_only(&self) -> (b: bool)
        requires
            self@.valid(),
        ensures
            b == self@.mem_only(),
    {
        self.tables.core.get(DMA_MEMONLY) & 1 != 0
    }

    fn has_uci(&self) -> (b: bool)
        ensures
            b == crate::c64_state::has::<B>(self@, crate::c64host::Line::HasUci),
    {
        match &self.backend {
            Some(b) => b.has_uci(),
            None => false,
        }
    }

    fn has_iec(&self) -> (b: bool)
        ensures
            b == crate::c64_state::has::<B>(self@, crate::c64host::Line::HasIec),
    {
        match &self.backend {
            Some(b) => b.has_iec(),
            None => false,
        }
    }

    fn has_sampler(&self) -> (b: bool)
        ensures
            b == crate::c64_state::has::<B>(self@, crate::c64host::Line::HasSampler),
    {
        match &self.backend {
            Some(b) => b.has_sampler(),
            None => false,
        }
    }

    fn cart_get(&self, off: u32) -> (v: u8)
        requires
            self@.valid(),
        ensures
            v == crate::c64_state::cart_value::<B>(self@, off),
    {
        let reg: u32 = off % 16;
        let r = self.regs;
        if reg == MODE {
            let u: u8 = if r.ultimax {
                2
            } else {
                0
            };
            let v: u8 = if r.reset {
                4
            } else {
                0
            };
            let n: u8 = if r.nmi {
                16
            } else {
                0
            };
            return u + v + n;
        }
        if reg == STOP {
            return if r.stop {
                3
            } else {
                0
            };
        }
        match &self.backend {
            Some(b) => {
                if reg == CLOCK_DETECT && r.reset {
                    return 0x11;
                }
                if reg == CARTRIDGE_KILL {
                    return if b.cart_active() {
                        1
                    } else {
                        0
                    };
                }
            },
            None => {},
        }
        self.tables.cart.get(reg)
    }

    fn rom_window(off: u32) -> (r: (C64Rom, u32))
        requires
            BASIC <= off,
        ensures
            r == crate::c64_state::rom_of(off),
    {
        if off < KERNAL {
            (C64Rom::Basic, off - BASIC)
        } else if off < CHAR {
            (C64Rom::Kernal, off - KERNAL)
        } else {
            (C64Rom::Char, off - CHAR)
        }
    }

    fn drive_window_of(off: u32) -> (r: (u8, u16))
        requires
            DRIVE_A <= off <= DRIVES_END,
        ensures
            r == crate::c64_state::drive_of(off),
    {
        let rel: u32 = off - DRIVE_A;
        ((rel / DRIVE_WINDOW) as u8, (rel % DRIVE_WINDOW) as u16)
    }

    /// What a read at `off` shows, without side effects.
    pub fn peek8(&self, off: u32) -> (v: u8)
        requires
            self@.valid(),
        ensures
            v == crate::c64_state::peeked::<B>(self@, off),
    {
        proof {
            reveal(crate::c64_state::peeked);
        }
        if CART <= off && off <= CART_END {
            self.cart_get(off)
        } else if DMA <= off && off <= DMA_END {
            let addr: u16 = (off - DMA) as u16;
            match &self.backend {
                Some(b) => b.dma_peek(addr),
                None => self.stub.peek(addr),
            }
        } else if MATRIX <= off && off <= MATRIX_END {
            self.tables.matrix.get(off - MATRIX)
        } else if CORE <= off && off <= CORE_END {
            self.tables.core.get(off - CORE)
        } else if EEPROM <= off && off <= EEPROM_END {
            match &self.backend {
                Some(b) => b.eeprom_read((off - EEPROM) as u16),
                None => 0,
            }
        } else if UCI <= off && off <= UCI_END {
            match &self.backend {
                Some(b) if b.has_uci() => b.uci_read((off - UCI) as u16),
                _ => self.tables.uci.get(off - UCI),
            }
        } else if IEC <= off && off <= IEC_END {
            match &self.backend {
                Some(b) if b.has_iec() => b.iec_peek((off - IEC) as u16),
                _ => self.tables.iec.get(off - IEC),
            }
        } else if SAMPLER <= off && off <= SAMPLER_END {
            match &self.backend {
                Some(b) if b.has_sampler() => b.sampler_read((off - SAMPLER) as u16),
                _ => 0,
            }
        } else if BASIC <= off && off <= CHAR_END {
            let (rom, rel) = Self::rom_window(off);
            match &self.backend {
                Some(b) => b.rom_read(rom, rel as u16),
                None => self.tables.rom_get(rom, rel),
            }
        } else if DRIVE_A <= off && off <= DRIVES_END {
            let (unit, rel) = Self::drive_window_of(off);
            match &self.backend {
                Some(b) => b.drive_peek(unit, rel),
                None => 0,
            }
        } else {
            0
        }
    }

    /// The drives' interrupt lines, taken after everything that may have run them.
    fn update_wd_irqs(&mut self, ctx: &mut IoCtx)
        ensures
            world(*final(self), *final(ctx)) == crate::c64_state::drives_taken::<B>(
                world(*old(self), *old(ctx)),
            ),
            final(ctx).same_rest(*old(ctx)),
            final(self)@ == old(self)@,
    {
        let (a, b) = match &self.backend {
            Some(b) => (b.drive_irq(0), b.drive_irq(1)),
            None => (false, false),
        };
        ctx.irq.set_high(WD_IRQ_HIGH_BIT, a);
        ctx.irq.set_high(WD_IRQ_HIGH_BIT + 1, b);
    }

    /// The lines into the interrupt controller, after anything that may have run
    /// the C64. Without a command interface only the drives' are driven.
    fn update_uci(&mut self, ctx: &mut IoCtx)
        ensures
            world(*final(self), *final(ctx)) == crate::c64_state::lines_taken::<B>(
                world(*old(self), *old(ctx)),
            ),
            final(ctx).same_rest(*old(ctx)),
            old(self)@.valid() ==> final(self)@.valid(),
    {
        proof {
            reveal(crate::c64_state::lines_taken);
        }
        self.update_wd_irqs(ctx);
        match &mut self.backend {
            Some(b) => {
                if b.has_uci() {
                    let irq = b.uci_irq();
                    let events = b.uci_take_events();
                    ctx.irq.set_level(UCI_IRQ_BIT, irq);
                    if events.c64_reset {
                        ctx.irq.pulse(C64_RESET_IRQ_BIT);
                    }
                    if events.unlock {
                        ctx.irq.set_high(UNLOCK_IRQ_HIGH_BIT, true);
                    }
                }
            },
            None => {},
        }
    }

    /// After an access that may have run the C64 or reached its cartridges.
    fn finish(&mut self, ctx: &mut IoCtx)
        ensures
            world(*final(self), *final(ctx)) == crate::c64_state::finished::<B>(
                world(*old(self), *old(ctx)),
            ),
            final(ctx).same_rest(*old(ctx)),
            old(self)@.valid() ==> final(self)@.valid(),
    {
        self.refresh_cart_detect();
        self.update_uci(ctx);
    }

    /// Hand the C64 the cartridge `cart_type` with the start of its ROM.
    fn set_cart(&mut self, cart_type: u8, ctx: &mut IoCtx)
        requires
            old(self)@.c64 is Some ==> old(self)@.regs.cart_rom.base + CART_ROM_SIZE
                <= old(ctx).ram@.len(),
        ensures
            world(*final(self), *final(ctx)) == crate::c64_state::called::<B>(
                world(*old(self), *old(ctx)),
                crate::c64_state::cart_call(world(*old(self), *old(ctx)), cart_type),
            ),
            final(ctx).same_rest(*old(ctx)),
            old(self)@.valid() ==> final(self)@.valid(),
    {
        let base: usize = self.regs.cart_rom.base;
        let ram = ctx.ram.as_slice();
        assert(ram.len() <= usize::MAX);
        match &mut self.backend {
            Some(b) => b.set_cart(cart_type, slice_subrange(ram, base, base + CART_ROM_SIZE)),
            None => {},
        }
    }

    fn set_reset(&mut self, held: bool, ctx: &mut IoCtx)
        ensures
            world(*final(self), *final(ctx)) == crate::c64_state::called::<B>(
                world(*old(self), *old(ctx)),
                crate::c64host::C64Call::Reset(held),
            ),
            final(ctx).same_rest(*old(ctx)),
            old(self)@.valid() ==> final(self)@.valid(),
    {
        match &mut self.backend {
            Some(b) => b.set_reset(held, ctx.ram.as_mut_slice()),
            None => {},
        }
    }

    fn mode_write(&mut self, val: u8, ctx: &mut IoCtx)
        requires
            old(self)@.valid(),
            old(self)@.c64 is Some && old(self)@.regs.hands_over(MODE, val) ==> old(
                self,
            )@.regs.cart_rom.base + CART_ROM_SIZE <= old(ctx).ram@.len(),
        ensures
            world(*final(self), *final(ctx)) == crate::c64_state::mode_applied::<B>(
                world(*old(self), *old(ctx)),
                val,
            ),
            final(ctx).same_rest(*old(ctx)),
            final(self)@.valid(),
    {
        proof {
            reveal(crate::c64_state::mode_applied);
        }
        let before = self.regs;
        self.regs = if val & 4 != 0 {
            PortRegs { reset: true, ..before }
        } else if val & 8 != 0 {
            PortRegs { reset: false, ..before }
        } else {
            PortRegs { ultimax: val & 2 != 0, nmi: val & 0x10 != 0, ..before }
        };
        let r = self.regs;
        if r.reset != before.reset {
            if !r.reset {
                let cart_type: u8 = self.tables.cart.get(CARTRIDGE_TYPE);
                self.set_cart(cart_type, ctx);
            }
            self.set_reset(r.reset, ctx);
        }
        if r.ultimax != before.ultimax {
            match &mut self.backend {
                Some(b) => b.set_ultimax(r.ultimax),
                None => {},
            }
        }
        if r.nmi != before.nmi {
            self.apply_nmi();
        }
    }

    fn cart_write(&mut self, reg: u32, val: u8, ctx: &mut IoCtx)
        requires
            old(self)@.valid(),
            old(self)@.c64 is Some && old(self)@.regs.hands_over(reg, val) ==> old(
                self,
            )@.regs.cart_rom.base + CART_ROM_SIZE <= old(ctx).ram@.len(),
        ensures
            world(*final(self), *final(ctx)) == crate::c64_state::cart_written::<B>(
                world(*old(self), *old(ctx)),
                reg,
                val,
            ),
            final(ctx).same_rest(*old(ctx)),
            final(self)@.valid(),
    {
        proof {
            reveal(crate::c64_state::cart_written);
        }
        match reg {
            MODE => self.mode_write(val, ctx),
            STOP => {
                let stop = val & 1 != 0;
                self.regs.stop = stop;
                match &mut self.backend {
                    Some(b) => b.set_stopped(stop),
                    None => {},
                }
            },
            CARTRIDGE_KILL => {
                if val & 1 != 0 {
                    match &mut self.backend {
                        Some(b) => b.kill_cart(),
                        None => {},
                    }
                }
                if val & 2 != 0 {
                    let cart_type: u8 = self.tables.cart.get(CARTRIDGE_TYPE);
                    self.set_cart(cart_type, ctx);
                }
            },
            // While the reset is held the C64 takes every type that is written, so
            // that type 0 can idle a freezer before the next cartridge comes up.
            CARTRIDGE_TYPE => {
                self.tables.cart.set(reg, val);
                if self.regs.reset {
                    self.set_cart(val, ctx);
                }
            },
            REU_SIZE => {
                self.tables.cart.set(reg, val);
                let kb: u32 = reu_size_kb(self.tables.cart.get(REU_SIZE));
                match &mut self.backend {
                    Some(b) => b.set_reu_size_kb(kb),
                    None => {},
                }
            },
            REU_ENABLE => {
                self.tables.cart.set(reg, val);
                let on = self.tables.cart.get(REU_ENABLE) & 1 != 0;
                match &mut self.backend {
                    Some(b) => b.set_reu_enabled(on),
                    None => {},
                }
            },
            SAMPLER_ENABLE => {
                self.tables.cart.set(reg, val);
                let on = self.tables.cart.get(SAMPLER_ENABLE) & 1 != 0;
                match &mut self.backend {
                    Some(b) => b.set_sampler_enabled(on),
                    None => {},
                }
            },
            _ => self.tables.cart.set(reg, val),
        }
    }

    fn matrix_write(&mut self, reg: u32, val: u8, ctx: &mut IoCtx)
        requires
            old(self)@.valid(),
        ensures
            world(*final(self), *final(ctx)) == crate::c64_state::matrix_written::<B>(
                world(*old(self), *old(ctx)),
                reg,
                val,
            ),
            final(ctx).same_rest(*old(ctx)),
            final(self)@.valid(),
    {
        proof {
            reveal(crate::c64_state::matrix_written);
        }
        self.tables.matrix.set(reg, val);
        if reg < 8 {
            let rows = self.tables.rows();
            match &mut self.backend {
                Some(b) => b.set_matrix_keyb(rows),
                None => {},
            }
        } else if reg == MATRIX_RESTORE {
            self.apply_nmi();
        } else if reg == MATRIX_FREEZE {
            match &mut self.backend {
                Some(b) => b.set_freeze_button(val != 0, ctx.ram.as_mut_slice()),
                None => {},
            }
        } else {
            // A held key keeps driving its line until it is released; the key of the
            // new code starts with its next press.
            match reg {
                11 => self.regs.up = val,
                12 => self.regs.down = val,
                13 => self.regs.left = val,
                14 => self.regs.right = val,
                _ => {},
            }
        }
    }

    fn core_write(&mut self, reg: u32, val: u8)
        requires
            old(self)@.valid(),
        ensures
            final(self)@ == crate::c64_state::core_written::<B>(
                alone(old(self)@),
                reg,
                val,
            ).port,
            final(self)@.valid(),
    {
        self.tables.core.set(reg, val);
        match &mut self.backend {
            Some(b) => b.core_config_write(reg as u8, val),
            None => {},
        }
        if reg == JOY1_SWOUT || reg == JOY2_SWOUT {
            self.apply_joysticks();
        }
    }

    /// A firmware read.
    pub fn read8(&mut self, off: u32, ctx: &mut IoCtx) -> (v: u8)
        requires
            old(self)@.valid(),
            DMA <= off <= DMA_END ==> old(ctx).stall + DMA_BYTE_CLOCKS <= u64::MAX,
        ensures
            (v, world(*final(self), *final(ctx))) == crate::c64_state::read::<B>(
                world(*old(self), *old(ctx)),
                off,
                old(ctx).now,
            ),
            final(ctx).same_rest(*old(ctx)),
            final(self)@.valid(),
    {
        if (CART <= off && off <= CART_END) || (MATRIX <= off && off <= MATRIX_END) {
            self.sync(ctx);
            let v: u8 = self.peek8(off);
            self.finish(ctx);
            v
        } else if DMA <= off && off <= DMA_END {
            self.sync(ctx);
            let addr: u16 = (off - DMA) as u16;
            let mem_only = self.mem_only();
            let v: u8 = match &mut self.backend {
                Some(b) => b.dma_read(addr, mem_only, ctx.ram.as_mut_slice()),
                None => self.stub.read(addr),
            };
            self.refresh_cart_detect();
            ctx.stall = ctx.stall + DMA_BYTE_CLOCKS;
            self.update_uci(ctx);
            v
        } else if UCI <= off && off <= UCI_END && self.has_uci() {
            self.sync(ctx);
            let v: u8 = match &self.backend {
                Some(b) => b.uci_read((off - UCI) as u16),
                None => 0,
            };
            self.finish(ctx);
            v
        } else if IEC <= off && off <= IEC_END && self.has_iec() {
            self.sync(ctx);
            let v: u8 = match &mut self.backend {
                Some(b) => b.iec_read((off - IEC) as u16),
                None => 0,
            };
            self.refresh_cart_detect();
            v
        } else if SAMPLER <= off && off <= SAMPLER_END && self.has_sampler() {
            self.sync(ctx);
            let v: u8 = match &self.backend {
                Some(b) => b.sampler_read((off - SAMPLER) as u16),
                None => 0,
            };
            self.finish(ctx);
            v
        } else if DRIVE_A <= off && off <= DRIVES_END {
            self.sync(ctx);
            self.finish(ctx);
            let (unit, rel) = Self::drive_window_of(off);
            match &mut self.backend {
                Some(b) => b.drive_read(unit, rel, ctx.ram.as_mut_slice()),
                None => 0,
            }
        } else {
            self.peek8(off)
        }
    }

    /// A firmware write to the DMA window.
    fn dma_write(&mut self, addr: u16, val: u8, ctx: &mut IoCtx)
        requires
            old(self)@.valid(),
            old(ctx).stall + DMA_BYTE_CLOCKS <= u64::MAX,
        ensures
            world(*final(self), *final(ctx)) == crate::c64_state::written::<B>(
                world(*old(self), *old(ctx)),
                (DMA + addr) as u32,
                val,
                old(ctx).now,
            ),
            final(ctx).same_rest(*old(ctx)),
            final(self)@.valid(),
    {
        self.sync(ctx);
        let mem_only = self.mem_only();
        match &mut self.backend {
            Some(b) => b.dma_write(addr, val, mem_only, ctx.ram.as_mut_slice()),
            None => self.stub.write(addr, val),
        }
        self.refresh_cart_detect();
        // This write is the only thing that drops the unlock interrupt.
        if addr == UNLOCK_ACK_ADDR && val == 0 && self.has_uci() {
            ctx.irq.set_high(UNLOCK_IRQ_HIGH_BIT, false);
        }
        ctx.stall = ctx.stall + DMA_BYTE_CLOCKS;
        self.update_uci(ctx);
    }

    /// A firmware write. One that hands the cartridge over needs guest memory that
    /// reaches to the end of the cartridge's ROM.
    pub fn write8(&mut self, off: u32, val: u8, ctx: &mut IoCtx)
        requires
            old(self)@.valid(),
            DMA <= off <= DMA_END ==> old(ctx).stall + DMA_BYTE_CLOCKS <= u64::MAX,
            CART <= off <= CART_END && old(self)@.c64 is Some && old(self)@.regs.hands_over(
                off % 16,
                val,
            ) ==> old(self)@.regs.cart_rom.base + CART_ROM_SIZE <= old(ctx).ram@.len(),
        ensures
            world(*final(self), *final(ctx)) == crate::c64_state::written::<B>(
                world(*old(self), *old(ctx)),
                off,
                val,
                old(ctx).now,
            ),
            final(ctx).same_rest(*old(ctx)),
            final(self)@.valid(),
    {
        if CART <= off && off <= CART_END {
            self.sync(ctx);
            self.cart_write(off % 16, val, ctx);
            self.finish(ctx);
        } else if DMA <= off && off <= DMA_END {
            self.dma_write((off - DMA) as u16, val, ctx);
        } else if UCI <= off && off <= UCI_END {
            if self.has_uci() {
                self.sync(ctx);
                match &mut self.backend {
                    Some(b) => b.uci_write((off - UCI) as u16, val),
                    None => {},
                }
                self.finish(ctx);
            } else {
                self.tables.uci.set(off - UCI, val);
            }
        } else if IEC <= off && off <= IEC_END {
            if self.has_iec() {
                self.sync(ctx);
                match &mut self.backend {
                    Some(b) => b.iec_write((off - IEC) as u16, val),
                    None => {},
                }
                self.refresh_cart_detect();
            } else {
                self.tables.iec.set(off - IEC, val);
            }
        } else if SAMPLER <= off && off <= SAMPLER_END && self.has_sampler() {
            self.sync(ctx);
            match &mut self.backend {
                Some(b) => b.sampler_write((off - SAMPLER) as u16, val, ctx.ram.as_mut_slice()),
                None => {},
            }
            self.finish(ctx);
        } else if MATRIX <= off && off <= MATRIX_END {
            self.sync(ctx);
            self.matrix_write(off - MATRIX, val, ctx);
            self.finish(ctx);
        } else {
            self.plain_write(off, val, ctx);
        }
    }

    /// The windows that need no sync, and the drives'.
    fn plain_write(&mut self, off: u32, val: u8, ctx: &mut IoCtx)
        requires
            old(self)@.valid(),
            !(CART <= off <= CART_END),
            !(DMA <= off <= DMA_END),
            !(UCI <= off <= UCI_END),
            !(IEC <= off <= IEC_END),
            !(MATRIX <= off <= MATRIX_END),
            SAMPLER <= off <= SAMPLER_END ==> !crate::c64_state::has::<B>(
                old(self)@,
                crate::c64host::Line::HasSampler,
            ),
        ensures
            world(*final(self), *final(ctx)) == crate::c64_state::written::<B>(
                world(*old(self), *old(ctx)),
                off,
                val,
                old(ctx).now,
            ),
            final(ctx).same_rest(*old(ctx)),
            final(self)@.valid(),
    {
        if EEPROM <= off && off <= EEPROM_END {
            match &mut self.backend {
                Some(b) => b.eeprom_write((off - EEPROM) as u16, val),
                None => {},
            }
        } else if MIXER <= off && off < MIXER + MIXER_BYTES {
            match &mut self.backend {
                Some(b) => b.mixer_write((off - MIXER) as u8, val),
                None => {},
            }
        } else if CORE <= off && off <= CORE_END {
            self.core_write(off - CORE, val);
        } else if PALETTE <= off && off < PALETTE + PALETTE_RGB_SIZE {
            match &mut self.backend {
                Some(b) => b.set_palette_byte((off - PALETTE) as u8, val),
                None => {},
            }
        } else if BASIC <= off && off <= CHAR_END {
            let (rom, rel) = Self::rom_window(off);
            match &mut self.backend {
                Some(b) => b.rom_write(rom, rel as u16, val),
                None => self.tables.rom_set(rom, rel, val),
            }
        } else if DRIVE_A <= off && off <= DRIVES_END {
            self.sync(ctx);
            self.finish(ctx);
            let (unit, rel) = Self::drive_window_of(off);
            match &mut self.backend {
                Some(b) => b.drive_write(unit, rel, val, ctx.ram.as_mut_slice()),
                None => {},
            }
            self.update_wd_irqs(ctx);
        }
    }

    /// Whether the next tick lies within the range of the clock.
    pub fn on_time(&self) -> (b: bool)
        ensures
            b == (self@.c64 is Some ==> self@.regs.synced + SYNC_PERIOD <= u64::MAX),
    {
        self.backend.is_none() || self.regs.synced <= u64::MAX - SYNC_PERIOD
    }

    /// When the port next wants a tick.
    pub fn next_event(&self) -> (due: Option<u64>)
        requires
            self@.c64 is Some ==> self@.regs.synced + SYNC_PERIOD <= u64::MAX,
        ensures
            due == (if self@.c64 is Some {
                Some((self@.regs.synced + SYNC_PERIOD) as u64)
            } else {
                None
            }),
    {
        match &self.backend {
            Some(_) => Some(self.regs.synced + SYNC_PERIOD),
            None => None,
        }
    }

    /// The periodic sync; the drives' writes are carried into guest memory.
    pub fn tick(&mut self, ctx: &mut IoCtx)
        requires
            old(self)@.valid(),
        ensures
            world(*final(self), *final(ctx)) == crate::c64_state::ticked::<B>(
                world(*old(self), *old(ctx)),
                old(ctx).now,
            ),
            final(ctx).same_rest(*old(ctx)),
            final(self)@.valid(),
    {
        self.sync(ctx);
        self.finish(ctx);
        match &mut self.backend {
            Some(b) => {
                b.drive_tick(0, ctx.ram.as_mut_slice());
                b.drive_tick(1, ctx.ram.as_mut_slice());
            },
            None => {},
        }
    }

    /// Power-on register state. An attached C64 stays attached and in time, and
    /// keys held on the keyboard stay held.
    pub fn reset(&mut self)
        ensures
            final(self)@ == (PortState {
                regs: PortRegs {
                    synced: old(self)@.regs.synced,
                    cart_detect: old(self)@.regs.cart_detect,
                    ..PortRegs::initial()
                },
                tables: TablesState::initial(),
                stub: crate::dmastub::StubState {
                    keys: old(self)@.stub.keys,
                    ..crate::dmastub::StubState::initial()
                },
                c64: old(self)@.c64,
            }),
            old(self)@.valid() ==> final(self)@.valid(),
    {
        let fresh = C64Port::<B>::new();
        let regs = PortRegs {
            synced: self.regs.synced,
            cart_detect: self.regs.cart_detect,
            ..fresh.regs
        };
        let mut stub = DmaStub::new();
        stub.keep_keys(&self.stub);
        self.regs = regs;
        self.tables = Tables::new();
        self.stub = stub;
    }
}

} // verus!
