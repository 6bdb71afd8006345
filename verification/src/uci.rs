//! The UltiCommand interface: a mailbox between a C64 program and the firmware.
//!
//! Both sides work on one block RAM: the command buffer at 0x000-0x37F, the
//! response buffer at 0x380-0x6FF and the status buffer at 0x700-0x7FF. The C64
//! sees a window of eight bytes, the firmware a register page and the RAM.
use vstd::prelude::*;

verus! {

pub const CMD_ADDR: u16 = 0x000;

pub const CMD_END: u16 = 0x37F;

pub const RESP_ADDR: u16 = 0x380;

pub const RESP_END: u16 = 0x6FF;

pub const STATUS_ADDR: u16 = 0x700;

pub const STATUS_END: u16 = 0x7FF;

/// Offsets in the C64's window; 0, 1 and 2 are unused.
pub const SLOT_BUS_ID: u32 = 3;

pub const SLOT_CONTROL: u32 = 4;

pub const SLOT_COMMAND: u32 = 5;

pub const SLOT_RESPONSE: u32 = 6;

pub const SLOT_STATUS: u32 = 7;

/// Where the firmware's window maps the RAM.
pub const RAM_WINDOW: u32 = 0x800;

/// The registers of the interface.
#[derive(Clone, Copy, Debug, PartialEq, Eq, Structural)]
pub struct UciRegs {
    pub enabled: bool,
    /// The eight-byte window in `$DE00-$DFFF` that the interface answers in.
    pub slot_base: u8,
    pub bus_id: u8,
    pub irq_mask: u8,
    /// Handshake flags that the C64 raises and the firmware clears.
    pub new_command: bool,
    pub accepted: bool,
    pub abort: bool,
    /// The protocol state: `data` with `more` is "more data", `data` alone "last
    /// data", `more` alone "processing", neither "idle".
    pub data: bool,
    pub more: bool,
    pub error_busy: bool,
    pub freeze: bool,
    pub trigger: bool,
    pub cmd_irq_en: bool,
    pub command_pointer: u16,
    pub response_pointer: u16,
    pub status_pointer: u16,
    pub response_length: u16,
    pub status_length: u16,
}

/// The registers and the RAM.
#[verifier::ext_equal]
pub struct UciState {
    pub regs: UciRegs,
    pub ram: Seq<u8>,
}

/// 1 for `true`.
pub open spec fn flag(b: bool) -> int {
    if b {
        1
    } else {
        0
    }
}

fn one(b: bool) -> (r: u8)
    ensures
        r == flag(b),
{
    if b {
        1
    } else {
        0
    }
}

impl UciRegs {
    /// Power-on: disabled, all interrupts masked, idle.
    pub open spec fn initial() -> UciRegs {
        UciRegs {
            enabled: false,
            slot_base: 0,
            bus_id: 0,
            irq_mask: 7,
            new_command: false,
            accepted: false,
            abort: false,
            data: false,
            more: false,
            error_busy: false,
            freeze: false,
            trigger: false,
            cmd_irq_en: false,
            command_pointer: CMD_ADDR,
            response_pointer: RESP_ADDR,
            status_pointer: STATUS_ADDR,
            response_length: 0,
            status_length: 0,
        }
    }

    /// Every pointer stays in its buffer, every field in its width.
    pub open spec fn valid(self) -> bool {
        &&& CMD_ADDR <= self.command_pointer <= CMD_END
        &&& RESP_ADDR <= self.response_pointer <= RESP_END
        &&& STATUS_ADDR <= self.status_pointer <= STATUS_END
        &&& self.response_length <= 0x7FF
        &&& self.status_length <= 0xFF
        &&& self.slot_base < 64
        &&& self.bus_id < 32
        &&& self.irq_mask < 8
    }

    /// Response bytes are waiting for the C64.
    pub open spec fn response_ready(self) -> bool {
        self.data && !self.abort && self.response_pointer - RESP_ADDR < self.response_length
    }

    /// Status bytes are waiting for the C64.
    pub open spec fn status_ready(self) -> bool {
        self.data && !self.abort && self.status_pointer - STATUS_ADDR < self.status_length
    }

    /// The firmware's interrupt: an unmasked handshake flag.
    pub open spec fn irq(self) -> bool {
        ||| self.new_command && self.irq_mask & 1 == 0
        ||| self.accepted && self.irq_mask & 2 == 0
        ||| self.abort && self.irq_mask & 4 == 0
    }

    /// The protocol state in bits 5:4.
    pub open spec fn state_bits(self) -> int {
        flag(self.data) * 0x20 + flag(self.more) * 0x10
    }

    /// The byte that both sides read as status.
    pub open spec fn status(self) -> int {
        flag(self.response_ready()) * 0x80 + flag(self.status_ready()) * 0x40 + self.state_bits()
            + flag(self.error_busy) * 8 + flag(self.abort) * 4 + flag(self.accepted) * 2 + flag(
            self.new_command,
        )
    }

    /// The offset in the C64's window that `addr` hits, if the interface is
    /// enabled and its window holds `addr`.
    pub open spec fn claimed(self, addr: u16) -> Option<u32> {
        if self.enabled && 0xDE00 <= addr <= 0xDFFF && (addr - 0xDE00) / 8 == self.slot_base {
            Some(((addr - 0xDE00) % 8) as u32)
        } else {
            None
        }
    }

    /// The registers after the C64 wrote `val` to its control register.
    pub open spec fn controlled(self, val: u8) -> UciRegs {
        let start = val & 1 != 0;
        let idle = !self.data && !self.more;
        let s = UciRegs {
            error_busy: (self.error_busy && val & 8 == 0) || (start && !idle),
            freeze: if start {
                val & 0x80 != 0
            } else {
                self.freeze
            },
            trigger: if start {
                val & 0x40 != 0
            } else {
                self.trigger
            },
            more: self.more || start && idle,
            new_command: self.new_command || start && idle,
            cmd_irq_en: if start {
                val & 0x20 != 0
            } else {
                self.cmd_irq_en
            },
            abort: self.abort || val & 4 != 0,
            ..self
        };
        if val & 2 != 0 && self.data {
            // Data accepted: only the firmware clears the flag again.
            UciRegs { accepted: s.accepted || s.more, data: false, cmd_irq_en: false, ..s }
        } else {
            s
        }
    }

    /// The registers after the firmware wrote `val` to its handshake register.
    pub open spec fn handshaken(self, val: u8) -> UciRegs {
        let validate = val & 0x10 != 0;
        let reset = val & 0x80 != 0;
        let ends = validate || reset;
        UciRegs {
            new_command: self.new_command && val & 1 == 0,
            command_pointer: if val & 1 != 0 {
                CMD_ADDR
            } else {
                self.command_pointer
            },
            accepted: self.accepted && val & 2 == 0,
            abort: self.abort && val & 4 == 0,
            trigger: self.trigger && !ends,
            freeze: self.freeze && !ends,
            data: !reset && (validate || self.data),
            more: !reset && (if validate {
                val & 0x20 != 0
            } else {
                self.more
            }),
            response_pointer: if ends {
                RESP_ADDR
            } else {
                self.response_pointer
            },
            status_pointer: if ends {
                STATUS_ADDR
            } else {
                self.status_pointer
            },
            ..self
        }
    }

    /// The registers after the firmware wrote `val` at offset `off` of its page.
    pub open spec fn fw_written(self, off: u32, val: u8) -> UciRegs {
        if off == 0 {
            UciRegs { slot_base: (val / 2) % 64, ..self }
        } else if off == 1 {
            if val & 0x80 == 0 {
                UciRegs { enabled: val & 1 != 0, ..self }
            } else {
                UciRegs { bus_id: val % 32, ..self }
            }
        } else if off == 2 {
            self.handshaken(val)
        } else if off == 4 {
            UciRegs { irq_mask: self.irq_mask | (val & 7), ..self }
        } else if off == 5 {
            UciRegs { irq_mask: self.irq_mask & !(val & 7), ..self }
        } else if off == 0x0A {
            UciRegs { status_pointer: STATUS_ADDR, status_length: val as u16, ..self }
        } else if off == 0x0B {
            UciRegs { irq_mask: val & 7, ..self }
        } else if off == 0x0C {
            UciRegs {
                response_pointer: RESP_ADDR,
                response_length: (self.response_length / 256 * 256 + val) as u16,
                ..self
            }
        } else if off == 0x0D {
            UciRegs {
                response_length: (self.response_length % 256 + (val % 8) * 256) as u16,
                ..self
            }
        } else {
            self
        }
    }

    /// What the firmware reads at offset `off` of its page.
    pub open spec fn fw_value(self, off: u32) -> int {
        if off == 0 {
            self.slot_base * 2
        } else if off == 1 {
            flag(self.enabled)
        } else if off == 2 {
            flag(self.freeze) * 0x80 + flag(self.trigger) * 0x40 + self.state_bits()
        } else if off == 3 {
            self.status()
        } else if off == 4 {
            // The buffers' starts and ends, in units of eight bytes.
            0x00
        } else if off == 5 {
            0x6F
        } else if off == 6 {
            0x70
        } else if off == 7 {
            0xDF
        } else if off == 8 {
            0xE0
        } else if off == 9 {
            0xFF
        } else if off == 0x0A {
            self.status_pointer as int % 256
        } else if off == 0x0B {
            self.irq_mask as int
        } else if off == 0x0C {
            self.response_pointer as int % 256
        } else if off == 0x0D {
            self.response_pointer as int / 256
        } else if off == 0x0E {
            self.command_pointer as int % 256
        } else if off == 0x0F {
            self.command_pointer as int / 256
        } else {
            0
        }
    }
}

impl UciState {
    pub open spec fn initial() -> UciState {
        UciState { regs: UciRegs::initial(), ram: Seq::new(0x800, |i: int| 0u8) }
    }

    pub open spec fn valid(self) -> bool {
        self.regs.valid() && self.ram.len() == 0x800
    }

    /// What the C64 reads at offset `off` of its window.
    pub open spec fn c64_value(self, off: u32) -> int {
        let r = self.regs;
        if !r.enabled {
            0xFF
        } else if off == SLOT_CONTROL {
            r.status()
        } else if off == SLOT_COMMAND {
            // The identification byte; bit 7 is the interrupt line, low when up.
            if r.irq() {
                0x49
            } else {
                0xC9
            }
        } else if off == SLOT_RESPONSE {
            if r.response_ready() {
                self.ram[r.response_pointer as int] as int
            } else {
                0
            }
        } else if off == SLOT_STATUS {
            if r.status_ready() {
                self.ram[r.status_pointer as int] as int
            } else {
                0
            }
        } else if off == SLOT_BUS_ID {
            r.bus_id as int
        } else {
            0xFF
        }
    }

    /// The state after that read: the response and status pointers step to the
    /// end of their buffers and stay there.
    pub open spec fn after_c64_read(self, off: u32) -> UciState {
        let r = self.regs;
        if r.enabled && off == SLOT_RESPONSE {
            UciState {
                regs: UciRegs {
                    cmd_irq_en: false,
                    response_pointer: if r.response_pointer < RESP_END {
                        (r.response_pointer + 1) as u16
                    } else {
                        r.response_pointer
                    },
                    ..r
                },
                ..self
            }
        } else if r.enabled && off == SLOT_STATUS {
            UciState {
                regs: UciRegs {
                    cmd_irq_en: false,
                    status_pointer: if r.status_pointer < STATUS_END {
                        (r.status_pointer + 1) as u16
                    } else {
                        r.status_pointer
                    },
                    ..r
                },
                ..self
            }
        } else {
            self
        }
    }

    /// The state after the C64 wrote `val` at offset `off` of its window.
    pub open spec fn after_c64_write(self, off: u32, val: u8) -> UciState {
        let r = self.regs;
        if r.enabled && off == SLOT_COMMAND {
            UciState {
                regs: UciRegs {
                    command_pointer: if r.command_pointer < CMD_END {
                        (r.command_pointer + 1) as u16
                    } else {
                        r.command_pointer
                    },
                    ..r
                },
                ram: self.ram.update(r.command_pointer as int, val),
            }
        } else if r.enabled && off == SLOT_CONTROL {
            UciState { regs: r.controlled(val), ..self }
        } else {
            self
        }
    }

    /// What the firmware reads at offset `off` of its window.
    pub open spec fn window_value(self, off: u32) -> int {
        if RAM_WINDOW <= off <= 0xFFF {
            self.ram[off - RAM_WINDOW] as int
        } else {
            self.regs.fw_value(off)
        }
    }

    /// The state after the firmware wrote `val` at offset `off` of its window.
    pub open spec fn after_window_write(self, off: u32, val: u8) -> UciState {
        if RAM_WINDOW <= off <= 0xFFF {
            UciState { ram: self.ram.update(off - RAM_WINDOW, val), ..self }
        } else {
            UciState { regs: self.regs.fw_written(off, val), ..self }
        }
    }
}

/// Everything that both sides of the interface touch.
pub struct UciShared {
    regs: UciRegs,
    ram: [u8; 0x800],
}

impl View for UciShared {
    type V = UciState;

    closed spec fn view(&self) -> UciState {
        UciState { regs: self.regs, ram: self.ram@ }
    }
}

impl Default for UciShared {
    fn default() -> (u: UciShared)
        ensures
            u@ == UciState::initial(),
            u@.valid(),
    {
        UciShared {
            regs: UciRegs {
                enabled: false,
                slot_base: 0,
                bus_id: 0,
                irq_mask: 7,
                new_command: false,
                accepted: false,
                abort: false,
                data: false,
                more: false,
                error_busy: false,
                freeze: false,
                trigger: false,
                cmd_irq_en: false,
                command_pointer: CMD_ADDR,
                response_pointer: RESP_ADDR,
                status_pointer: STATUS_ADDR,
                response_length: 0,
                status_length: 0,
            },
            ram: [0;0x800],
        }
    }
}

impl UciShared {
    /// Whether the interface claims C64 address `addr`, and the offset within its
    /// eight-byte window if so.
    pub fn c64_claims(&self, addr: u16) -> (off: Option<u32>)
        ensures
            off == self@.regs.claimed(addr),
    {
        if !self.regs.enabled || addr < 0xDE00 || addr > 0xDFFF {
            return None;
        }
        let rel: u16 = addr - 0xDE00;
        if rel / 8 == self.regs.slot_base as u16 {
            Some((rel % 8) as u32)
        } else {
            None
        }
    }

    fn response_valid(&self) -> (b: bool)
        requires
            self@.valid(),
        ensures
            b == self@.regs.response_ready(),
    {
        self.regs.data && !self.regs.abort && self.regs.response_pointer - RESP_ADDR
            < self.regs.response_length
    }

    fn status_valid(&self) -> (b: bool)
        requires
            self@.valid(),
        ensures
            b == self@.regs.status_ready(),
    {
        self.regs.data && !self.regs.abort && self.regs.status_pointer - STATUS_ADDR
            < self.regs.status_length
    }

    /// The firmware's interrupt line.
    pub fn irq_line(&self) -> (b: bool)
        ensures
            b == self@.regs.irq(),
    {
        let r = self.regs;
        (r.new_command && r.irq_mask & 1 == 0) || (r.accepted && r.irq_mask & 2 == 0) || (r.abort
            && r.irq_mask & 4 == 0)
    }

    fn status_byte(&self) -> (b: u8)
        requires
            self@.valid(),
        ensures
            b == self@.regs.status(),
    {
        let r = self.regs;
        one(self.response_valid()) * 0x80 + one(self.status_valid()) * 0x40 + one(r.data) * 0x20
            + one(r.more) * 0x10 + one(r.error_busy) * 8 + one(r.abort) * 4 + one(r.accepted) * 2
            + one(r.new_command)
    }

    /// A C64 read at offset `off` of its window.
    pub fn c64_read(&mut self, off: u32) -> (v: u8)
        requires
            old(self)@.valid(),
        ensures
            v == old(self)@.c64_value(off),
            final(self)@ == old(self)@.after_c64_read(off),
            final(self)@.valid(),
    {
        if !self.regs.enabled {
            return 0xFF;
        }
        match off {
            SLOT_CONTROL => self.status_byte(),
            SLOT_COMMAND => if self.irq_line() {
                0x49
            } else {
                0xC9
            },
            SLOT_RESPONSE => {
                let v: u8 = if self.response_valid() {
                    self.ram[self.regs.response_pointer as usize]
                } else {
                    0
                };
                self.regs.cmd_irq_en = false;
                if self.regs.response_pointer != RESP_END {
                    self.regs.response_pointer = self.regs.response_pointer + 1;
                }
                v
            },
            SLOT_STATUS => {
                let v: u8 = if self.status_valid() {
                    self.ram[self.regs.status_pointer as usize]
                } else {
                    0
                };
                self.regs.cmd_irq_en = false;
                if self.regs.status_pointer != STATUS_END {
                    self.regs.status_pointer = self.regs.status_pointer + 1;
                }
                v
            },
            SLOT_BUS_ID => self.regs.bus_id,
            _ => 0xFF,
        }
    }

    /// A C64 write at offset `off` of its window. Returns the freeze line, which a
    /// command can raise as the menu button does.
    pub fn c64_write(&mut self, off: u32, val: u8) -> (freeze: bool)
        requires
            old(self)@.valid(),
        ensures
            final(self)@ == old(self)@.after_c64_write(off, val),
            freeze == final(self)@.regs.freeze,
            final(self)@.valid(),
    {
        if self.regs.enabled {
            match off {
                SLOT_COMMAND => {
                    self.ram[self.regs.command_pointer as usize] = val;
                    if self.regs.command_pointer != CMD_END {
                        self.regs.command_pointer = self.regs.command_pointer + 1;
                    }
                },
                SLOT_CONTROL => {
                    self.regs = self.regs.control(val);
                },
                _ => {},
            }
        }
        self.regs.freeze
    }

    /// A firmware read of its register page.
    pub fn fw_read(&self, off: u32) -> (v: u8)
        requires
            self@.valid(),
        ensures
            v == self@.regs.fw_value(off),
    {
        let r = self.regs;
        match off {
            0x00 => r.slot_base * 2,
            0x01 => one(r.enabled),
            0x02 => one(r.freeze) * 0x80 + one(r.trigger) * 0x40 + one(r.data) * 0x20 + one(r.more)
                * 0x10,
            0x03 => self.status_byte(),
            0x04 => 0x00,
            0x05 => 0x6F,
            0x06 => 0x70,
            0x07 => 0xDF,
            0x08 => 0xE0,
            0x09 => 0xFF,
            0x0A => (r.status_pointer % 256) as u8,
            0x0B => r.irq_mask,
            0x0C => (r.response_pointer % 256) as u8,
            0x0D => (r.response_pointer / 256) as u8,
            0x0E => (r.command_pointer % 256) as u8,
            0x0F => (r.command_pointer / 256) as u8,
            _ => 0,
        }
    }

    /// A firmware write to its register page.
    pub fn fw_write(&mut self, off: u32, val: u8)
        requires
            old(self)@.valid(),
        ensures
            final(self)@.regs == old(self)@.regs.fw_written(off, val),
            final(self)@.ram == old(self)@.ram,
            final(self)@.valid(),
    {
        self.regs = self.regs.fw_set(off, val);
    }

    /// A firmware read of its window: the register page, or the RAM from 0x800 on.
    pub fn window_read(&self, off: u32) -> (v: u8)
        requires
            self@.valid(),
        ensures
            v == self@.window_value(off),
    {
        if RAM_WINDOW <= off && off <= 0xFFF {
            self.ram[(off - RAM_WINDOW) as usize]
        } else {
            self.fw_read(off)
        }
    }

    /// A firmware write to its window.
    pub fn window_write(&mut self, off: u32, val: u8)
        requires
            old(self)@.valid(),
        ensures
            final(self)@ == old(self)@.after_window_write(off, val),
            final(self)@.valid(),
    {
        if RAM_WINDOW <= off && off <= 0xFFF {
            self.ram[(off - RAM_WINDOW) as usize] = val;
        } else {
            self.fw_write(off, val);
        }
    }

    /// Power-on state.
    pub fn reset(&mut self)
        ensures
            final(self)@ == UciState::initial(),
            final(self)@.valid(),
    {
        *self = UciShared::default();
    }
}

impl UciRegs {
    fn control(self, val: u8) -> (r: UciRegs)
        ensures
            r == self.controlled(val),
            self.valid() ==> r.valid(),
    {
        let start = val & 1 != 0;
        let idle = !self.data && !self.more;
        let s = UciRegs {
            error_busy: (self.error_busy && val & 8 == 0) || (start && !idle),
            freeze: if start {
                val & 0x80 != 0
            } else {
                self.freeze
            },
            trigger: if start {
                val & 0x40 != 0
            } else {
                self.trigger
            },
            more: self.more || start && idle,
            new_command: self.new_command || start && idle,
            cmd_irq_en: if start {
                val & 0x20 != 0
            } else {
                self.cmd_irq_en
            },
            abort: self.abort || val & 4 != 0,
            ..self
        };
        if val & 2 != 0 && self.data {
            UciRegs { accepted: s.accepted || s.more, data: false, cmd_irq_en: false, ..s }
        } else {
            s
        }
    }

    fn handshake(self, val: u8) -> (r: UciRegs)
        ensures
            r == self.handshaken(val),
            self.valid() ==> r.valid(),
    {
        let validate = val & 0x10 != 0;
        let reset = val & 0x80 != 0;
        let ends = validate || reset;
        UciRegs {
            new_command: self.new_command && val & 1 == 0,
            command_pointer: if val & 1 != 0 {
                CMD_ADDR
            } else {
                self.command_pointer
            },
            accepted: self.accepted && val & 2 == 0,
            abort: self.abort && val & 4 == 0,
            trigger: self.trigger && !ends,
            freeze: self.freeze && !ends,
            data: !reset && (validate || self.data),
            more: !reset && (if validate {
                val & 0x20 != 0
            } else {
                self.more
            }),
            response_pointer: if ends {
                RESP_ADDR
            } else {
                self.response_pointer
            },
            status_pointer: if ends {
                STATUS_ADDR
            } else {
                self.status_pointer
            },
            ..self
        }
    }

    fn fw_set(self, off: u32, val: u8) -> (r: UciRegs)
        requires
            self.valid(),
        ensures
            r == self.fw_written(off, val),
            r.valid(),
    {
        let mask: u8 = self.irq_mask;
        assert((mask | (val & 7)) < 8 && (mask & !(val & 7)) < 8 && (val & 7) < 8) by (bit_vector)
            requires
                mask < 8,
        ;
        match off {
            0x00 => UciRegs { slot_base: (val / 2) % 64, ..self },
            0x01 => if val & 0x80 == 0 {
                UciRegs { enabled: val & 1 != 0, ..self }
            } else {
                UciRegs { bus_id: val % 32, ..self }
            },
            0x02 => self.handshake(val),
            // Mask set and clear share their offsets with the buffer bounds.
            0x04 => UciRegs { irq_mask: mask | (val & 7), ..self },
            0x05 => UciRegs { irq_mask: mask & !(val & 7), ..self },
            0x0A => UciRegs { status_pointer: STATUS_ADDR, status_length: val as u16, ..self },
            0x0B => UciRegs { irq_mask: val & 7, ..self },
            0x0C => UciRegs {
                response_pointer: RESP_ADDR,
                response_length: self.response_length / 256 * 256 + val as u16,
                ..self
            },
            0x0D => UciRegs {
                response_length: self.response_length % 256 + (val % 8) as u16 * 256,
                ..self
            },
            _ => self,
        }
    }
}

} // verus!
