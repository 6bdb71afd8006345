//! A C64 that records what it is asked to do.
use crate::c64host::{
    C64Backend, C64Call, C64Frame, C64Rom, CartRom, FrameState, Line, Peek, UciEvents,
};
use vstd::prelude::*;

verus! {

/// What a [`Mock`] was asked to do.
#[derive(Clone, Copy, Debug, PartialEq, Eq)]
pub enum Call {
    Advance(u64),
    CartRom(CartRom),
    Key(u8, u8, bool),
    Joystick(u8, u8),
    Nmi(bool),
    Reset(bool),
    Ultimax(bool),
    Stopped(bool),
    Kill,
    /// Type, first and last byte of the ROM, and its length.
    Cart(u8, u8, u8, usize),
    ReuSize(u32),
    Reu(bool),
    SamplerEnable(bool),
    Matrix([u8; 8]),
    Freeze(bool),
    Mixer(u8, u8),
    Palette(u8, u8),
    RomWrite(C64Rom, u16, u8),
    Eeprom(u16, u8),
    Uci(u16, u8),
    Sampler(u16, u8),
    DmaWrite(u16, u8, bool),
    DmaRead(u16, bool),
}

/// A command interface that is all memory.
pub struct MockUci {
    pub regs: Vec<u8>,
    pub irq: bool,
    pub events: UciEvents,
}

impl MockUci {
    pub fn new() -> (u: MockUci)
        ensures
            u.regs@ == Seq::new(0x1000, |i: int| 0u8),
            !u.irq,
            u.events == (UciEvents { c64_reset: false, unlock: false }),
    {
        let mut regs: Vec<u8> = Vec::new();
        regs.resize(0x1000, 0);
        assert(regs@ =~= Seq::new(0x1000, |i: int| 0u8));
        MockUci { regs, irq: false, events: UciEvents { c64_reset: false, unlock: false } }
    }
}

/// A sampler: 256 bytes that are written, a status that is read.
pub struct MockSampler {
    pub regs: Vec<u8>,
    pub status: u8,
}

impl MockSampler {
    pub fn new() -> (s: MockSampler)
        ensures
            s.regs@ == Seq::new(0x100, |i: int| 0u8),
            s.status == 0,
    {
        let mut regs: Vec<u8> = Vec::new();
        regs.resize(0x100, 0);
        assert(regs@ =~= Seq::new(0x100, |i: int| 0u8));
        MockSampler { regs, status: 0 }
    }
}

/// A C64 that records what it is asked to do, and answers from its address lines.
pub struct Mock {
    pub calls: Vec<Call>,
    /// The length of the guest memory that came with each call.
    pub leases: Vec<Option<usize>>,
    /// Core config writes.
    pub core: Vec<(u8, u8)>,
    pub active: bool,
    pub detect: u8,
    pub reu_kb: u32,
    pub reu_on: bool,
    pub uci: Option<MockUci>,
    pub sampler: Option<MockSampler>,
}

/// What a [`Mock`] holds.
#[verifier::ext_equal]
pub struct MockState {
    pub calls: Seq<Call>,
    pub leases: Seq<Option<usize>>,
    pub core: Seq<(u8, u8)>,
    pub active: bool,
    pub detect: u8,
    pub reu_kb: u32,
    pub reu_on: bool,
    pub uci: Option<(Seq<u8>, bool, UciEvents)>,
    pub sampler: Option<(Seq<u8>, u8)>,
}

impl MockState {
    pub open spec fn logged(self, call: Call, lease: Option<usize>) -> MockState {
        MockState { calls: self.calls.push(call), leases: self.leases.push(lease), ..self }
    }

    /// The state after a call.
    pub open spec fn after(self, call: C64Call, ddr: Seq<u8>) -> MockState {
        let lent = Some(ddr.len() as usize);
        match call {
            C64Call::Advance(now) => self.logged(Call::Advance(now), lent),
            C64Call::SetCartRom(rom) => self.logged(Call::CartRom(rom), None),
            C64Call::Key { row, col, down } => self.logged(Call::Key(row, col, down), None),
            C64Call::Joystick { port, lines } => self.logged(Call::Joystick(port, lines), None),
            C64Call::Nmi(level) => self.logged(Call::Nmi(level), None),
            C64Call::Reset(held) => self.logged(Call::Reset(held), lent),
            C64Call::Ultimax(on) => self.logged(Call::Ultimax(on), None),
            C64Call::Stopped(on) => self.logged(Call::Stopped(on), None),
            C64Call::Kill => self.logged(Call::Kill, None),
            C64Call::SetCart { cart_type, image } => if image.len() == 0 {
                self.logged(Call::Cart(cart_type, 0, 0, 0), None)
            } else {
                self.logged(
                    Call::Cart(cart_type, image.first(), image.last(), image.len() as usize),
                    None,
                )
            },
            C64Call::ReuSizeKb(kb) => (MockState { reu_kb: kb, ..self }).logged(
                Call::ReuSize(kb),
                None,
            ),
            C64Call::ReuEnabled(on) => (MockState { reu_on: on, ..self }).logged(
                Call::Reu(on),
                None,
            ),
            C64Call::SamplerEnabled(on) => self.logged(Call::SamplerEnable(on), None),
            C64Call::MatrixKeyb(rows) => self.logged(Call::Matrix(rows_of(rows)), None),
            C64Call::FreezeButton(down) => self.logged(Call::Freeze(down), lent),
            C64Call::CoreConfig { reg, val } => MockState {
                core: self.core.push((reg, val)),
                ..self
            },
            C64Call::Mixer { reg, val } => self.logged(Call::Mixer(reg, val), None),
            C64Call::PaletteByte { reg, val } => self.logged(Call::Palette(reg, val), None),
            C64Call::RomWrite { rom, off, val } => self.logged(Call::RomWrite(rom, off, val), None),
            C64Call::EepromWrite { off, val } => self.logged(Call::Eeprom(off, val), None),
            C64Call::UciWrite { off, val } => (MockState {
                uci: match self.uci {
                    Some((regs, irq, events)) => Some(
                        (
                            if off < regs.len() {
                                regs.update(off as int, val)
                            } else {
                                regs
                            },
                            irq,
                            events,
                        ),
                    ),
                    None => None,
                },
                ..self
            }).logged(Call::Uci(off, val), None),
            C64Call::SamplerWrite { off, val } => (MockState {
                sampler: match self.sampler {
                    Some((regs, status)) => Some(
                        (
                            if off % 256 < regs.len() {
                                regs.update((off % 256) as int, val)
                            } else {
                                regs
                            },
                            status,
                        ),
                    ),
                    None => None,
                },
                ..self
            }).logged(Call::Sampler(off, val), lent),
            C64Call::DmaWrite { addr, val, mem_only } => self.logged(
                Call::DmaWrite(addr, val, mem_only),
                lent,
            ),
            C64Call::DmaRead { addr, mem_only } => self.logged(
                Call::DmaRead(addr, mem_only),
                lent,
            ),
            C64Call::TakeEvents => MockState {
                uci: match self.uci {
                    Some((regs, irq, _)) => Some(
                        (regs, irq, UciEvents { c64_reset: false, unlock: false }),
                    ),
                    None => None,
                },
                ..self
            },
            _ => self,
        }
    }
}

/// The array with these eight bytes.
pub open spec fn rows_of(rows: Seq<u8>) -> [u8; 8] {
    choose|a: [u8; 8]| a@ == rows
}

impl Mock {
    pub fn new() -> (m: Mock)
        ensures
            m.state() == (MockState {
                calls: Seq::empty(),
                leases: Seq::empty(),
                core: Seq::empty(),
                active: false,
                detect: 3,
                reu_kb: 16384,
                reu_on: false,
                uci: None,
                sampler: None,
            }),
    {
        Mock {
            calls: Vec::new(),
            leases: Vec::new(),
            core: Vec::new(),
            active: false,
            detect: 3,
            reu_kb: 16384,
            reu_on: false,
            uci: None,
            sampler: None,
        }
    }

    fn log(&mut self, call: Call, lease: Option<usize>)
        ensures
            final(self).state() == old(self).state().logged(call, lease),
    {
        self.calls.push(call);
        self.leases.push(lease);
    }

    /// The calls since the last time, oldest first.
    pub fn take(&mut self) -> (calls: Vec<Call>)
        ensures
            calls@ == old(self).state().calls,
            final(self).state() == (MockState { calls: Seq::empty(), ..old(self).state() }),
    {
        let mut calls: Vec<Call> = Vec::new();
        std::mem::swap(&mut calls, &mut self.calls);
        calls
    }

    /// The size of the REU on the port, if there is one.
    pub fn reu(&self) -> (kb: Option<u32>)
        ensures
            kb == (if self.state().reu_on {
                Some(self.state().reu_kb)
            } else {
                None
            }),
    {
        if self.reu_on {
            Some(self.reu_kb)
        } else {
            None
        }
    }
}

impl C64Backend for Mock {
    type State = MockState;

    open spec fn state(&self) -> MockState {
        MockState {
            calls: self.calls@,
            leases: self.leases@,
            core: self.core@,
            active: self.active,
            detect: self.detect,
            reu_kb: self.reu_kb,
            reu_on: self.reu_on,
            uci: match self.uci {
                Some(u) => Some((u.regs@, u.irq, u.events)),
                None => None,
            },
            sampler: match self.sampler {
                Some(s) => Some((s.regs@, s.status)),
                None => None,
            },
        }
    }

    open spec fn after(s: MockState, call: C64Call, ddr: Seq<u8>) -> MockState {
        s.after(call, ddr)
    }

    open spec fn ddr_after(s: MockState, call: C64Call, ddr: Seq<u8>) -> Seq<u8> {
        ddr
    }

    open spec fn reply(s: MockState, call: C64Call, ddr: Seq<u8>) -> u8 {
        match call {
            C64Call::DmaRead { addr, .. } => (255 - addr % 256) as u8,
            _ => 0,
        }
    }

    open spec fn byte(s: MockState, peek: Peek) -> u8 {
        match peek {
            Peek::Dma(addr) => (255 - addr % 256) as u8,
            Peek::Rom(_, off) => (off % 256) as u8,
            Peek::Eeprom(off) => ((off % 256) as u8) ^ 0xA5,
            Peek::Uci(off) => match s.uci {
                Some((regs, _, _)) if off < regs.len() => regs[off as int],
                _ => 0,
            },
            Peek::Sampler(off) => match s.sampler {
                Some((_, status)) if off % 2 == 0 => status,
                Some(_) => 0x10,
                None => 0,
            },
            Peek::CartDetect => s.detect,
            _ => 0,
        }
    }

    open spec fn line(s: MockState, line: Line) -> bool {
        match line {
            Line::CartActive => s.active,
            Line::HasUci => s.uci is Some,
            Line::HasSampler => s.sampler is Some,
            Line::UciIrq => match s.uci {
                Some((_, irq, _)) => irq,
                None => false,
            },
            _ => false,
        }
    }

    open spec fn events(s: MockState) -> UciEvents {
        match s.uci {
            Some((_, _, events)) => events,
            None => UciEvents { c64_reset: false, unlock: false },
        }
    }

    open spec fn picture(s: MockState) -> FrameState {
        FrameState {
            width: 2,
            height: 1,
            indices: seq![1u8, 2u8],
            palette: Seq::empty(),
            screen: Seq::empty(),
        }
    }

    open spec fn frames(s: MockState) -> u64 {
        0
    }

    open spec fn audio(s: MockState) -> Seq<i16> {
        Seq::empty()
    }

    fn advance_to(&mut self, now: u64, ddr: &mut [u8]) {
        let n: usize = ddr.len();
        self.log(Call::Advance(now), Some(n));
    }

    fn set_cart_rom(&mut self, rom: CartRom) {
        self.log(Call::CartRom(rom), None);
    }

    fn set_key(&mut self, row: u8, col: u8, down: bool) {
        self.log(Call::Key(row, col, down), None);
    }

    fn set_joystick(&mut self, port: u8, lines: u8) {
        self.log(Call::Joystick(port, lines), None);
    }

    fn set_nmi(&mut self, level: bool) {
        self.log(Call::Nmi(level), None);
    }

    fn set_reset(&mut self, held: bool, ddr: &mut [u8]) {
        let n: usize = ddr.len();
        self.log(Call::Reset(held), Some(n));
    }

    fn set_ultimax(&mut self, on: bool) {
        self.log(Call::Ultimax(on), None);
    }

    fn set_stopped(&mut self, stopped: bool) {
        self.log(Call::Stopped(stopped), None);
    }

    fn kill_cart(&mut self) {
        self.log(Call::Kill, None);
    }

    fn set_cart(&mut self, cart_type: u8, rom: &[u8]) {
        let n: usize = rom.len();
        if n == 0 {
            self.log(Call::Cart(cart_type, 0, 0, 0), None);
        } else {
            self.log(Call::Cart(cart_type, rom[0], rom[n - 1], n), None);
        }
    }

    fn set_reu_size_kb(&mut self, kb: u32) {
        self.reu_kb = kb;
        self.log(Call::ReuSize(kb), None);
    }

    fn set_reu_enabled(&mut self, on: bool) {
        self.reu_on = on;
        self.log(Call::Reu(on), None);
    }

    fn set_sampler_enabled(&mut self, on: bool) {
        self.log(Call::SamplerEnable(on), None);
    }

    fn set_matrix_keyb(&mut self, rows: [u8; 8]) {
        assert(rows_of(rows@) == rows) by {
            let a = rows_of(rows@);
            assert(a@ == rows@);
            assert(a =~= rows);
        }
        self.log(Call::Matrix(rows), None);
    }

    fn set_freeze_button(&mut self, down: bool, ddr: &mut [u8]) {
        let n: usize = ddr.len();
        self.log(Call::Freeze(down), Some(n));
    }

    fn core_config_write(&mut self, reg: u8, val: u8) {
        self.core.push((reg, val));
    }

    fn mixer_write(&mut self, reg: u8, val: u8) {
        self.log(Call::Mixer(reg, val), None);
    }

    fn set_palette_byte(&mut self, reg: u8, val: u8) {
        self.log(Call::Palette(reg, val), None);
    }

    fn rom_write(&mut self, rom: C64Rom, off: u16, val: u8) {
        self.log(Call::RomWrite(rom, off, val), None);
    }

    fn eeprom_write(&mut self, off: u16, val: u8) {
        self.log(Call::Eeprom(off, val), None);
    }

    fn uci_write(&mut self, off: u16, val: u8) {
        match &mut self.uci {
            Some(u) => {
                if (off as usize) < u.regs.len() {
                    u.regs[off as usize] = val;
                }
            },
            None => {},
        }
        self.log(Call::Uci(off, val), None);
    }

    fn iec_write(&mut self, off: u16, val: u8) {
    }

    fn iec_read(&mut self, off: u16) -> (val: u8) {
        0
    }

    fn sampler_write(&mut self, off: u16, val: u8, ddr: &mut [u8]) {
        let n: usize = ddr.len();
        match &mut self.sampler {
            Some(s) => {
                let i: usize = (off % 256) as usize;
                if i < s.regs.len() {
                    s.regs[i] = val;
                }
            },
            None => {},
        }
        self.log(Call::Sampler(off, val), Some(n));
    }

    fn dma_write(&mut self, addr: u16, val: u8, mem_only: bool, ddr: &mut [u8]) {
        let n: usize = ddr.len();
        self.log(Call::DmaWrite(addr, val, mem_only), Some(n));
    }

    fn dma_read(&mut self, addr: u16, mem_only: bool, ddr: &mut [u8]) -> (val: u8) {
        let n: usize = ddr.len();
        self.log(Call::DmaRead(addr, mem_only), Some(n));
        255 - (addr % 256) as u8
    }

    fn drive_write(&mut self, unit: u8, off: u16, val: u8, ddr: &mut [u8]) {
    }

    fn drive_read(&mut self, unit: u8, off: u16, ddr: &mut [u8]) -> (val: u8) {
        0
    }

    fn drive_tick(&mut self, unit: u8, ddr: &mut [u8]) {
    }

    fn uci_take_events(&mut self) -> (e: UciEvents) {
        match &mut self.uci {
            Some(u) => {
                let e = u.events;
                u.events = UciEvents { c64_reset: false, unlock: false };
                e
            },
            None => UciEvents { c64_reset: false, unlock: false },
        }
    }

    fn set_stream_audio(&mut self, on: bool) {
    }

    fn take_stream_audio(&mut self) -> (samples: Vec<i16>) {
        Vec::new()
    }

    fn cart_active(&self) -> (b: bool) {
        self.active
    }

    fn has_uci(&self) -> (b: bool) {
        self.uci.is_some()
    }

    fn has_iec(&self) -> (b: bool) {
        false
    }

    fn has_sampler(&self) -> (b: bool) {
        self.sampler.is_some()
    }

    fn uci_irq(&self) -> (b: bool) {
        match &self.uci {
            Some(u) => u.irq,
            None => false,
        }
    }

    fn drive_irq(&self, unit: u8) -> (b: bool) {
        false
    }

    fn cart_detect(&self) -> (v: u8) {
        self.detect
    }

    fn dma_peek(&self, addr: u16) -> (v: u8) {
        255 - (addr % 256) as u8
    }

    fn rom_read(&self, rom: C64Rom, off: u16) -> (v: u8) {
        (off % 256) as u8
    }

    fn eeprom_read(&self, off: u16) -> (v: u8) {
        ((off % 256) as u8) ^ 0xA5
    }

    fn uci_read(&self, off: u16) -> (v: u8) {
        match &self.uci {
            Some(u) => if (off as usize) < u.regs.len() {
                u.regs[off as usize]
            } else {
                0
            },
            None => 0,
        }
    }

    fn iec_peek(&self, off: u16) -> (v: u8) {
        0
    }

    fn sampler_read(&self, off: u16) -> (v: u8) {
        match &self.sampler {
            Some(s) => if off % 2 == 0 {
                s.status
            } else {
                0x10
            },
            None => 0,
        }
    }

    fn drive_peek(&self, unit: u8, off: u16) -> (v: u8) {
        0
    }

    fn frame(&self) -> (f: C64Frame) {
        let f = C64Frame {
            width: 2,
            height: 1,
            indices: vec![1, 2],
            palette: Vec::new(),
            screen: Vec::new(),
        };
        assert(f@.indices =~= seq![1u8, 2u8]);
        f
    }

    fn frame_counter(&self) -> (n: u64) {
        0
    }
}

} // verus!
