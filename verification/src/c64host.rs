//! The C64 behind the cartridge port, as the port sees it.
//!
//! [`C64Backend`] is implemented by whatever runs a C64. A backend is a state
//! machine: a [`C64Call`] takes it from one state to the next and may change the
//! guest memory that it is handed, and what it answers depends on its state (and
//! that memory) alone.
use vstd::prelude::*;

verus! {

/// Where a firmware keeps the cartridge ROM in DDR.
#[derive(Clone, Copy, Debug, PartialEq, Eq, Structural)]
pub struct CartRom {
    pub base: usize,
}

impl CartRom {
    pub open spec fn large_spec() -> CartRom {
        CartRom { base: 0x03C0_0000 }
    }

    pub open spec fn small_spec() -> CartRom {
        CartRom { base: 0x00F0_0000 }
    }

    /// Current firmware.
    #[verifier::when_used_as_spec(large_spec)]
    pub fn large() -> (r: CartRom)
        ensures
            r == CartRom::large_spec(),
    {
        CartRom { base: 0x03C0_0000 }
    }

    /// Firmware before 3.15.
    #[verifier::when_used_as_spec(small_spec)]
    pub fn small() -> (r: CartRom)
        ensures
            r == CartRom::small_spec(),
    {
        CartRom { base: 0x00F0_0000 }
    }
}

/// The C64's ROMs.
#[derive(Clone, Copy, Debug, PartialEq, Eq, Structural)]
pub enum C64Rom {
    Basic,
    Kernal,
    Char,
}

/// What the command interface wants the interrupt controller to know.
#[derive(Clone, Copy, Debug, PartialEq, Eq, Structural)]
pub struct UciEvents {
    /// The C64 was reset.
    pub c64_reset: bool,
    /// The unlock interrupt.
    pub unlock: bool,
}

/// A picture of the C64's screen.
#[derive(Debug, PartialEq, Eq)]
pub struct C64Frame {
    pub width: u32,
    pub height: u32,
    /// A palette index per pixel.
    pub indices: Vec<u8>,
    /// 0x00RRGGBB per index.
    pub palette: Vec<u32>,
    /// The screen codes under the picture, 40 per row.
    pub screen: Vec<u8>,
}

/// A picture of the C64's screen.
#[verifier::ext_equal]
pub struct FrameState {
    pub width: u32,
    pub height: u32,
    pub indices: Seq<u8>,
    pub palette: Seq<u32>,
    pub screen: Seq<u8>,
}

impl View for C64Frame {
    type V = FrameState;

    open spec fn view(&self) -> FrameState {
        FrameState {
            width: self.width,
            height: self.height,
            indices: self.indices@,
            palette: self.palette@,
            screen: self.screen@,
        }
    }
}

/// What a backend can be asked to do.
pub enum C64Call {
    /// Run the C64 up to this clock of the application core.
    Advance(u64),
    SetCartRom(CartRom),
    /// A key of the C64's keyboard matrix.
    Key { row: u8, col: u8, down: bool },
    Joystick { port: u8, lines: u8 },
    Nmi(bool),
    Reset(bool),
    Ultimax(bool),
    Stopped(bool),
    /// Drop the cartridge off the bus.
    Kill,
    /// Take a cartridge type, with the first bytes of its ROM.
    SetCart { cart_type: u8, image: Seq<u8> },
    ReuSizeKb(u32),
    ReuEnabled(bool),
    SamplerEnabled(bool),
    /// The firmware's keyboard matrix, a byte per row.
    MatrixKeyb(Seq<u8>),
    FreezeButton(bool),
    CoreConfig { reg: u8, val: u8 },
    Mixer { reg: u8, val: u8 },
    PaletteByte { reg: u8, val: u8 },
    RomWrite { rom: C64Rom, off: u16, val: u8 },
    EepromWrite { off: u16, val: u8 },
    UciWrite { off: u16, val: u8 },
    IecWrite { off: u16, val: u8 },
    IecRead { off: u16 },
    SamplerWrite { off: u16, val: u8 },
    DmaWrite { addr: u16, val: u8, mem_only: bool },
    DmaRead { addr: u16, mem_only: bool },
    DriveWrite { unit: u8, off: u16, val: u8 },
    DriveRead { unit: u8, off: u16 },
    DriveTick { unit: u8 },
    TakeEvents,
    StreamAudio(bool),
    TakeAudio,
}

impl C64Call {
    /// The calls that are handed the guest memory: those that may run the C64 or
    /// reach its cartridge, its drives or its sampler.
    pub open spec fn has_ddr(self) -> bool {
        match self {
            C64Call::Advance(_) => true,
            C64Call::Reset(_) => true,
            C64Call::FreezeButton(_) => true,
            C64Call::SamplerWrite { .. } => true,
            C64Call::DmaWrite { .. } => true,
            C64Call::DmaRead { .. } => true,
            C64Call::DriveWrite { .. } => true,
            C64Call::DriveRead { .. } => true,
            C64Call::DriveTick { .. } => true,
            _ => false,
        }
    }
}

/// A byte that a backend shows without any side effect.
pub enum Peek {
    Dma(u16),
    Rom(C64Rom, u16),
    Eeprom(u16),
    Uci(u16),
    Iec(u16),
    Sampler(u16),
    Drive(u8, u16),
    /// GAME and EXROM of the cartridge in the physical expansion port.
    CartDetect,
}

/// A line that a backend shows without any side effect.
pub enum Line {
    CartActive,
    HasUci,
    HasIec,
    HasSampler,
    UciIrq,
    /// The command FIFO of a drive's disk controller.
    DriveIrq(u8),
}

/// Something that runs a C64.
pub trait C64Backend: Sized {
    /// What the backend's behaviour depends on.
    type State;

    /// The backend's model: what its methods do is stated over this state. A backend
    /// outside the verified code gives none.
    closed spec fn state(&self) -> Self::State {
        arbitrary()
    }

    /// The state after `call`, with guest memory `ddr`.
    closed spec fn after(s: Self::State, call: C64Call, ddr: Seq<u8>) -> Self::State {
        arbitrary()
    }

    /// Guest memory after `call`.
    closed spec fn ddr_after(s: Self::State, call: C64Call, ddr: Seq<u8>) -> Seq<u8> {
        arbitrary()
    }

    /// The byte that a reading `call` returns.
    closed spec fn reply(s: Self::State, call: C64Call, ddr: Seq<u8>) -> u8 {
        arbitrary()
    }

    closed spec fn byte(s: Self::State, peek: Peek) -> u8 {
        arbitrary()
    }

    closed spec fn line(s: Self::State, line: Line) -> bool {
        arbitrary()
    }

    closed spec fn events(s: Self::State) -> UciEvents {
        arbitrary()
    }

    closed spec fn picture(s: Self::State) -> FrameState {
        arbitrary()
    }

    closed spec fn frames(s: Self::State) -> u64 {
        arbitrary()
    }

    closed spec fn audio(s: Self::State) -> Seq<i16> {
        arbitrary()
    }

    fn advance_to(&mut self, now: u64, ddr: &mut [u8])
        ensures
            final(self).state() == Self::after(old(self).state(), C64Call::Advance(now), old(ddr)@),
            final(ddr)@ == Self::ddr_after(old(self).state(), C64Call::Advance(now), old(ddr)@),
            final(ddr)@.len() == old(ddr)@.len(),
    ;

    fn set_cart_rom(&mut self, rom: CartRom)
        ensures
            final(self).state() == Self::after(
                old(self).state(),
                C64Call::SetCartRom(rom),
                Seq::empty(),
            ),
    ;

    fn set_key(&mut self, row: u8, col: u8, down: bool)
        ensures
            final(self).state() == Self::after(
                old(self).state(),
                C64Call::Key { row, col, down },
                Seq::empty(),
            ),
    ;

    fn set_joystick(&mut self, port: u8, lines: u8)
        ensures
            final(self).state() == Self::after(
                old(self).state(),
                C64Call::Joystick { port, lines },
                Seq::empty(),
            ),
    ;

    fn set_nmi(&mut self, level: bool)
        ensures
            final(self).state() == Self::after(old(self).state(), C64Call::Nmi(level), Seq::empty()),
    ;

    fn set_reset(&mut self, held: bool, ddr: &mut [u8])
        ensures
            final(self).state() == Self::after(old(self).state(), C64Call::Reset(held), old(ddr)@),
            final(ddr)@ == Self::ddr_after(old(self).state(), C64Call::Reset(held), old(ddr)@),
            final(ddr)@.len() == old(ddr)@.len(),
    ;

    fn set_ultimax(&mut self, on: bool)
        ensures
            final(self).state() == Self::after(old(self).state(), C64Call::Ultimax(on), Seq::empty()),
    ;

    fn set_stopped(&mut self, stopped: bool)
        ensures
            final(self).state() == Self::after(
                old(self).state(),
                C64Call::Stopped(stopped),
                Seq::empty(),
            ),
    ;

    fn kill_cart(&mut self)
        ensures
            final(self).state() == Self::after(old(self).state(), C64Call::Kill, Seq::empty()),
    ;

    fn set_cart(&mut self, cart_type: u8, rom: &[u8])
        ensures
            final(self).state() == Self::after(
                old(self).state(),
                C64Call::SetCart { cart_type, image: rom@ },
                Seq::empty(),
            ),
    ;

    fn set_reu_size_kb(&mut self, kb: u32)
        ensures
            final(self).state() == Self::after(old(self).state(), C64Call::ReuSizeKb(kb), Seq::empty()),
    ;

    fn set_reu_enabled(&mut self, on: bool)
        ensures
            final(self).state() == Self::after(old(self).state(), C64Call::ReuEnabled(on), Seq::empty()),
    ;

    fn set_sampler_enabled(&mut self, on: bool)
        ensures
            final(self).state() == Self::after(
                old(self).state(),
                C64Call::SamplerEnabled(on),
                Seq::empty(),
            ),
    ;

    fn set_matrix_keyb(&mut self, rows: [u8; 8])
        ensures
            final(self).state() == Self::after(
                old(self).state(),
                C64Call::MatrixKeyb(rows@),
                Seq::empty(),
            ),
    ;

    fn set_freeze_button(&mut self, down: bool, ddr: &mut [u8])
        ensures
            final(self).state() == Self::after(old(self).state(), C64Call::FreezeButton(down), old(ddr)@),
            final(ddr)@ == Self::ddr_after(old(self).state(), C64Call::FreezeButton(down), old(ddr)@),
            final(ddr)@.len() == old(ddr)@.len(),
    ;

    fn core_config_write(&mut self, reg: u8, val: u8)
        ensures
            final(self).state() == Self::after(
                old(self).state(),
                C64Call::CoreConfig { reg, val },
                Seq::empty(),
            ),
    ;

    fn mixer_write(&mut self, reg: u8, val: u8)
        ensures
            final(self).state() == Self::after(
                old(self).state(),
                C64Call::Mixer { reg, val },
                Seq::empty(),
            ),
    ;

    fn set_palette_byte(&mut self, reg: u8, val: u8)
        ensures
            final(self).state() == Self::after(
                old(self).state(),
                C64Call::PaletteByte { reg, val },
                Seq::empty(),
            ),
    ;

    fn rom_write(&mut self, rom: C64Rom, off: u16, val: u8)
        ensures
            final(self).state() == Self::after(
                old(self).state(),
                C64Call::RomWrite { rom, off, val },
                Seq::empty(),
            ),
    ;

    fn eeprom_write(&mut self, off: u16, val: u8)
        ensures
            final(self).state() == Self::after(
                old(self).state(),
                C64Call::EepromWrite { off, val },
                Seq::empty(),
            ),
    ;

    fn uci_write(&mut self, off: u16, val: u8)
        ensures
            final(self).state() == Self::after(
                old(self).state(),
                C64Call::UciWrite { off, val },
                Seq::empty(),
            ),
    ;

    fn iec_write(&mut self, off: u16, val: u8)
        ensures
            final(self).state() == Self::after(
                old(self).state(),
                C64Call::IecWrite { off, val },
                Seq::empty(),
            ),
    ;

    fn iec_read(&mut self, off: u16) -> (val: u8)
        ensures
            val == Self::reply(old(self).state(), C64Call::IecRead { off }, Seq::empty()),
            final(self).state() == Self::after(
                old(self).state(),
                C64Call::IecRead { off },
                Seq::empty(),
            ),
    ;

    fn sampler_write(&mut self, off: u16, val: u8, ddr: &mut [u8])
        ensures
            final(self).state() == Self::after(
                old(self).state(),
                C64Call::SamplerWrite { off, val },
                old(ddr)@,
            ),
            final(ddr)@ == Self::ddr_after(
                old(self).state(),
                C64Call::SamplerWrite { off, val },
                old(ddr)@,
            ),
            final(ddr)@.len() == old(ddr)@.len(),
    ;

    fn dma_write(&mut self, addr: u16, val: u8, mem_only: bool, ddr: &mut [u8])
        ensures
            final(self).state() == Self::after(
                old(self).state(),
                C64Call::DmaWrite { addr, val, mem_only },
                old(ddr)@,
            ),
            final(ddr)@ == Self::ddr_after(
                old(self).state(),
                C64Call::DmaWrite { addr, val, mem_only },
                old(ddr)@,
            ),
            final(ddr)@.len() == old(ddr)@.len(),
    ;

    fn dma_read(&mut self, addr: u16, mem_only: bool, ddr: &mut [u8]) -> (val: u8)
        ensures
            val == Self::reply(old(self).state(), C64Call::DmaRead { addr, mem_only }, old(ddr)@),
            final(self).state() == Self::after(
                old(self).state(),
                C64Call::DmaRead { addr, mem_only },
                old(ddr)@,
            ),
            final(ddr)@ == Self::ddr_after(
                old(self).state(),
                C64Call::DmaRead { addr, mem_only },
                old(ddr)@,
            ),
            final(ddr)@.len() == old(ddr)@.len(),
    ;

    fn drive_write(&mut self, unit: u8, off: u16, val: u8, ddr: &mut [u8])
        ensures
            final(self).state() == Self::after(
                old(self).state(),
                C64Call::DriveWrite { unit, off, val },
                old(ddr)@,
            ),
            final(ddr)@ == Self::ddr_after(
                old(self).state(),
                C64Call::DriveWrite { unit, off, val },
                old(ddr)@,
            ),
            final(ddr)@.len() == old(ddr)@.len(),
    ;

    fn drive_read(&mut self, unit: u8, off: u16, ddr: &mut [u8]) -> (val: u8)
        ensures
            val == Self::reply(old(self).state(), C64Call::DriveRead { unit, off }, old(ddr)@),
            final(self).state() == Self::after(
                old(self).state(),
                C64Call::DriveRead { unit, off },
                old(ddr)@,
            ),
            final(ddr)@ == Self::ddr_after(
                old(self).state(),
                C64Call::DriveRead { unit, off },
                old(ddr)@,
            ),
            final(ddr)@.len() == old(ddr)@.len(),
    ;

    /// Carry the drive's writes into guest memory.
    fn drive_tick(&mut self, unit: u8, ddr: &mut [u8])
        ensures
            final(self).state() == Self::after(
                old(self).state(),
                C64Call::DriveTick { unit },
                old(ddr)@,
            ),
            final(ddr)@ == Self::ddr_after(old(self).state(), C64Call::DriveTick { unit }, old(ddr)@),
            final(ddr)@.len() == old(ddr)@.len(),
    ;

    fn uci_take_events(&mut self) -> (e: UciEvents)
        ensures
            e == Self::events(old(self).state()),
            final(self).state() == Self::after(old(self).state(), C64Call::TakeEvents, Seq::empty()),
    ;

    fn set_stream_audio(&mut self, on: bool)
        ensures
            final(self).state() == Self::after(
                old(self).state(),
                C64Call::StreamAudio(on),
                Seq::empty(),
            ),
    ;

    fn take_stream_audio(&mut self) -> (samples: Vec<i16>)
        ensures
            samples@ == Self::audio(old(self).state()),
            final(self).state() == Self::after(old(self).state(), C64Call::TakeAudio, Seq::empty()),
    ;

    fn cart_active(&self) -> (b: bool)
        ensures
            b == Self::line(self.state(), Line::CartActive),
    ;

    fn has_uci(&self) -> (b: bool)
        ensures
            b == Self::line(self.state(), Line::HasUci),
    ;

    fn has_iec(&self) -> (b: bool)
        ensures
            b == Self::line(self.state(), Line::HasIec),
    ;

    fn has_sampler(&self) -> (b: bool)
        ensures
            b == Self::line(self.state(), Line::HasSampler),
    ;

    fn uci_irq(&self) -> (b: bool)
        ensures
            b == Self::line(self.state(), Line::UciIrq),
    ;

    fn drive_irq(&self, unit: u8) -> (b: bool)
        ensures
            b == Self::line(self.state(), Line::DriveIrq(unit)),
    ;

    fn cart_detect(&self) -> (v: u8)
        ensures
            v == Self::byte(self.state(), Peek::CartDetect),
    ;

    fn dma_peek(&self, addr: u16) -> (v: u8)
        ensures
            v == Self::byte(self.state(), Peek::Dma(addr)),
    ;

    fn rom_read(&self, rom: C64Rom, off: u16) -> (v: u8)
        ensures
            v == Self::byte(self.state(), Peek::Rom(rom, off)),
    ;

    fn eeprom_read(&self, off: u16) -> (v: u8)
        ensures
            v == Self::byte(self.state(), Peek::Eeprom(off)),
    ;

    fn uci_read(&self, off: u16) -> (v: u8)
        ensures
            v == Self::byte(self.state(), Peek::Uci(off)),
    ;

    fn iec_peek(&self, off: u16) -> (v: u8)
        ensures
            v == Self::byte(self.state(), Peek::Iec(off)),
    ;

    fn sampler_read(&self, off: u16) -> (v: u8)
        ensures
            v == Self::byte(self.state(), Peek::Sampler(off)),
    ;

    fn drive_peek(&self, unit: u8, off: u16) -> (v: u8)
        ensures
            v == Self::byte(self.state(), Peek::Drive(unit, off)),
    ;

    fn frame(&self) -> (f: C64Frame)
        ensures
            f@ == Self::picture(self.state()),
    ;

    fn frame_counter(&self) -> (n: u64)
        ensures
            n == Self::frames(self.state()),
    ;
}

} // verus!
