//! The UltiCommand interface register by register, as its two users see it: the
//! firmware's page by offset, the C64's window by its eight addresses.
use crate::cart_bits::byte_bits;
use crate::uci::{UciRegs, UciState};
use crate::uci_laws::after_responses;
use vstd::prelude::*;

verus! {

/// The state after the C64 read its status register `n` times.
pub open spec fn after_statuses(s: UciState, n: nat) -> UciState
    decreases n,
{
    if n == 0 {
        s
    } else {
        after_statuses(s, (n - 1) as nat).after_c64_read(7)
    }
}

/// The firmware announces a response's length in two registers, low byte at 0x0C and
/// three high bits at 0x0D, in either order; the low byte rewinds the response. The
/// status has one length register, at 0x0A, which rewinds it.
pub proof fn lengths_are_announced(s: UciState, lo: u8, hi: u8, n: u8)
    requires
        s.valid(),
    ensures
        ({
            let t = s.after_window_write(0x0C, lo).after_window_write(0x0D, hi);
            let u = s.after_window_write(0x0D, hi).after_window_write(0x0C, lo);
            &&& t.regs.response_length == lo + 256 * (hi % 8)
            &&& u == t
            &&& t.regs.response_pointer == 0x380
            &&& t == (UciState {
                regs: UciRegs {
                    response_length: (lo + 256 * (hi % 8)) as u16,
                    response_pointer: 0x380,
                    ..s.regs
                },
                ..s
            })
            &&& s.after_window_write(0x0A, n) == (UciState {
                regs: UciRegs { status_length: n as u16, status_pointer: 0x700, ..s.regs },
                ..s
            })
        }),
{
}

/// The C64 reads exactly the response that the firmware put into the RAM from 0x380 on
/// and announced, byte for byte in order, sees bit 7 of its control register until the
/// last one, and zeros after it.
pub proof fn a_response_is_read_whole(s: UciState, lo: u8, hi: u8, i: nat)
    requires
        s.valid(),
        s.regs.enabled,
        !s.regs.abort,
        lo + 256 * (hi % 8) <= 0x37F,
        i <= 0x37F,
    ensures
        ({
            let t = s.after_window_write(0x0C, lo).after_window_write(0x0D, hi).after_window_write(
                2,
                0x10,
            );
            let n = lo + 256 * (hi % 8);
            let u = after_responses(t, i);
            &&& t.ram == s.ram
            &&& i < n ==> u.c64_value(6) == s.window_value((0x800 + 0x380 + i) as u32)
            &&& i >= n ==> u.c64_value(6) == 0
            &&& (u.c64_value(4) >= 128) == (i < n)
        }),
{
    byte_bits(0x10);
    let t = s.after_window_write(0x0C, lo).after_window_write(0x0D, hi).after_window_write(2, 0x10);
    lengths_are_announced(s, lo, hi, 0);
    crate::uci_laws::responses_arrive(t, i);
}

/// The same of a status: from 0x700 on, announced at 0x0A, shown by bit 6.
pub proof fn a_status_is_read_whole(s: UciState, n: u8, i: nat)
    requires
        s.valid(),
        s.regs.enabled,
        !s.regs.abort,
        i <= 0xFF,
    ensures
        ({
            let t = s.after_window_write(0x0A, n).after_window_write(2, 0x10);
            let u = after_statuses(t, i);
            &&& u.regs == (UciRegs {
                status_pointer: (0x700 + i) as u16,
                cmd_irq_en: u.regs.cmd_irq_en,
                ..t.regs
            })
            &&& u.ram == s.ram
            &&& i < n ==> u.c64_value(7) == s.window_value((0x800 + 0x700 + i) as u32)
            &&& i >= n ==> u.c64_value(7) == 0
            &&& (u.c64_value(4) % 128 >= 64) == (i < n)
        }),
    decreases i,
{
    byte_bits(0x10);
    if i > 0 {
        a_status_is_read_whole(s, n, (i - 1) as nat);
    }
}

/// What the C64's control register shows: bit 7 a response, bit 6 a status, bits 5:4 the
/// state, bit 3 the busy error, bits 2 to 0 abort, accepted and new command. The
/// firmware reads the same at offset 3.
pub proof fn control_register_reads(s: UciState)
    requires
        s.valid(),
        s.regs.enabled,
    ensures
        ({
            let v = s.c64_value(4);
            let r = s.regs;
            &&& 0 <= v < 256
            &&& (v / 128 == 1) == (r.data && !r.abort && r.response_pointer < 0x380
                + r.response_length)
            &&& (v / 64 % 2 == 1) == (r.data && !r.abort && r.status_pointer < 0x700
                + r.status_length)
            &&& (v / 32 % 2 == 1) == r.data
            &&& (v / 16 % 2 == 1) == r.more
            &&& (v / 8 % 2 == 1) == r.error_busy
            &&& (v / 4 % 2 == 1) == r.abort
            &&& (v / 2 % 2 == 1) == r.accepted
            &&& (v % 2 == 1) == r.new_command
            &&& s.window_value(3) == v
        }),
{
}

/// What the C64's other registers show: the bus number, the identification `$49` with
/// bit 7 set while no interrupt is up, and `$FF` below.
pub proof fn other_c64_registers(s: UciState, off: u32)
    requires
        s.valid(),
        s.regs.enabled,
    ensures
        off < 3 ==> s.c64_value(off) == 0xFF,
        s.c64_value(3) == s.regs.bus_id,
        s.c64_value(5) == (if s.regs.irq() {
            0x49int
        } else {
            0xC9int
        }),
        off != 6 && off != 7 ==> s.after_c64_read(off) == s,
        off != 4 && off != 5 ==> s.after_c64_write(off, 0) == s,
{
}

/// What a write to the C64's control register does: bit 0 starts a command from idle and
/// is an error otherwise, with bits 7 to 5 as freeze, trigger and interrupt enable; bit 1
/// accepts data, bit 2 aborts, bit 3 clears the error.
pub proof fn control_register_writes(s: UciState, val: u8)
    requires
        s.valid(),
        s.regs.enabled,
    ensures
        ({
            let t = s.after_c64_write(4, val);
            let (a, b) = (s.regs, t.regs);
            let start = val % 2 == 1;
            let idle = !a.data && !a.more;
            let accept = val / 2 % 2 == 1 && a.data;
            &&& b.new_command == (a.new_command || (start && idle))
            &&& b.error_busy == ((a.error_busy && val / 8 % 2 == 0) || (start && !idle))
            &&& b.more == (a.more || (start && idle))
            &&& b.data == (a.data && !accept)
            &&& b.accepted == (a.accepted || (accept && a.more))
            &&& b.abort == (a.abort || val / 4 % 2 == 1)
            &&& start ==> b.freeze == (val / 128 == 1) && b.trigger == (val / 64 % 2 == 1)
            &&& !start ==> b.freeze == a.freeze && b.trigger == a.trigger
            &&& b.cmd_irq_en == (!accept && (if start {
                val / 32 % 2 == 1
            } else {
                a.cmd_irq_en
            }))
            &&& t.ram == s.ram
            &&& b == (UciRegs {
                new_command: b.new_command,
                error_busy: b.error_busy,
                more: b.more,
                data: b.data,
                accepted: b.accepted,
                abort: b.abort,
                freeze: b.freeze,
                trigger: b.trigger,
                cmd_irq_en: b.cmd_irq_en,
                ..a
            })
        }),
{
    byte_bits(val);
}

/// What the firmware's handshake register at offset 2 does: bits 0 to 2 take the new
/// command, the acceptance and the abort back, bit 4 hands data over (more of it with
/// bit 5), and bit 7 makes the interface idle. Both of the last rewind the buffers and
/// end a freeze; taking a command rewinds the command.
pub proof fn handshake_register(s: UciState, val: u8)
    requires
        s.valid(),
    ensures
        ({
            let t = s.after_window_write(2, val);
            let (a, b) = (s.regs, t.regs);
            let (hand, idle) = (val / 16 % 2 == 1, val / 128 == 1);
            &&& b.new_command == (a.new_command && val % 2 == 0)
            &&& b.accepted == (a.accepted && val / 2 % 2 == 0)
            &&& b.abort == (a.abort && val / 4 % 2 == 0)
            &&& idle ==> !b.data && !b.more
            &&& !idle && hand ==> b.data && b.more == (val / 32 % 2 == 1)
            &&& !idle && !hand ==> b.data == a.data && b.more == a.more
            &&& hand || idle ==> b.response_pointer == 0x380 && b.status_pointer == 0x700
                && !b.freeze && !b.trigger
            &&& !hand && !idle ==> b.response_pointer == a.response_pointer && b.status_pointer
                == a.status_pointer && b.freeze == a.freeze && b.trigger == a.trigger
            &&& b.command_pointer == if val % 2 == 1 {
                0
            } else {
                a.command_pointer
            }
            &&& (b.response_length, b.status_length, b.enabled, b.slot_base, b.bus_id, b.irq_mask)
                == (a.response_length, a.status_length, a.enabled, a.slot_base, a.bus_id, a.irq_mask)
            &&& b.error_busy == a.error_busy && b.cmd_irq_en == a.cmd_irq_en
            &&& t.ram == s.ram
        }),
{
    byte_bits(val);
}

/// The firmware places the C64's window with the byte at offset 0: eight addresses from
/// `$DE00` plus four times that byte without bits 7 and 0. Offset 1 enables the
/// interface by bit 0, or takes the bus number with bit 7.
pub proof fn placing_and_enabling(s: UciState, val: u8, addr: u16)
    requires
        s.valid(),
        s.regs.enabled,
    ensures
        ({
            let t = s.after_window_write(0, val);
            let base = 0xDE00 + val / 2 % 64 * 8;
            &&& t.regs.claimed(addr) is Some <==> base <= addr < base + 8
            &&& t.regs.claimed(addr) matches Some(off) ==> off == addr - base
            &&& t.window_value(0) == val / 2 % 64 * 2
        }),
        val < 128 ==> s.after_window_write(1, val).regs == (UciRegs {
            enabled: val % 2 == 1,
            ..s.regs
        }),
        val >= 128 ==> s.after_window_write(1, val).regs == (UciRegs {
            bus_id: (val % 32) as u8,
            ..s.regs
        }),
        s.window_value(1) == 1,
{
    byte_bits(val);
}

/// The interrupt mask: set by offset 4, cleared by offset 5, written by offset 0x0B, bit
/// by bit, and read at 0x0B.
pub proof fn interrupt_mask(s: UciState, val: u8)
    requires
        s.valid(),
    ensures
        ({
            let m = s.regs.irq_mask;
            let (set, clear, put) = (
                s.after_window_write(4, val).regs.irq_mask,
                s.after_window_write(5, val).regs.irq_mask,
                s.after_window_write(0x0B, val).regs.irq_mask,
            );
            &&& put == val % 8
            &&& (set % 2 == 1) == (m % 2 == 1 || val % 2 == 1)
            &&& (set / 2 % 2 == 1) == (m / 2 % 2 == 1 || val / 2 % 2 == 1)
            &&& (set / 4 == 1) == (m / 4 == 1 || val / 4 % 2 == 1)
            &&& set < 8 && clear < 8
            &&& (clear % 2 == 1) == (m % 2 == 1 && val % 2 == 0)
            &&& (clear / 2 % 2 == 1) == (m / 2 % 2 == 1 && val / 2 % 2 == 0)
            &&& (clear / 4 == 1) == (m / 4 == 1 && val / 4 % 2 == 0)
            &&& s.window_value(0x0B) == m
        }),
{
    mask_bits(s.regs.irq_mask, val);
}

proof fn mask_bits(m: u8, val: u8)
    by (bit_vector)
    requires
        m < 8,
    ensures
        val & 7 == val % 8,
        m | (val & 7) < 8,
        m & !(val & 7) < 8,
        ((m | (val & 7)) % 2 == 1) == (m % 2 == 1 || val % 2 == 1),
        ((m | (val & 7)) / 2 % 2 == 1) == (m / 2 % 2 == 1 || val / 2 % 2 == 1),
        ((m | (val & 7)) / 4 == 1) == (m / 4 == 1 || val / 4 % 2 == 1),
        ((m & !(val & 7)) % 2 == 1) == (m % 2 == 1 && val % 2 == 0),
        ((m & !(val & 7)) / 2 % 2 == 1) == (m / 2 % 2 == 1 && val / 2 % 2 == 0),
        ((m & !(val & 7)) / 4 == 1) == (m / 4 == 1 && val / 4 % 2 == 0),
{
}

/// The firmware's interrupt is up while a new command, an acceptance or an abort waits
/// whose bit 0, 1 or 2 of the mask is clear.
pub proof fn the_interrupt_follows_the_flags(r: UciRegs)
    requires
        r.valid(),
    ensures
        r.irq() == (r.new_command && r.irq_mask % 2 == 0 || r.accepted && r.irq_mask / 2 % 2 == 0
            || r.abort && r.irq_mask / 4 == 0),
{
    byte_bits(r.irq_mask);
    let m = r.irq_mask;
    assert(m < 8 ==> ((m & 2 == 0) == (m / 2 % 2 == 0) && (m & 4 == 0) == (m / 4 == 0)))
        by (bit_vector);
}

/// The firmware reads the handshake at offset 2, the buffers' bounds in eighths at 4 to
/// 9, and three pointers: status at 0x0A, response at 0x0C and 0x0D, command at 0x0E and
/// 0x0F, low byte first.
pub proof fn firmware_reads(s: UciState)
    requires
        s.valid(),
    ensures
        ({
            let r = s.regs;
            &&& (s.window_value(2) / 128 == 1) == r.freeze
            &&& (s.window_value(2) / 64 % 2 == 1) == r.trigger
            &&& (s.window_value(2) / 32 % 2 == 1) == r.data
            &&& (s.window_value(2) / 16 % 2 == 1) == r.more
            &&& s.window_value(2) % 16 == 0
            &&& (s.window_value(4) * 8, s.window_value(5) * 8 + 7) == (0x000int, 0x37Fint)
            &&& (s.window_value(6) * 8, s.window_value(7) * 8 + 7) == (0x380int, 0x6FFint)
            &&& (s.window_value(8) * 8, s.window_value(9) * 8 + 7) == (0x700int, 0x7FFint)
            &&& 0x700 + s.window_value(0x0A) == r.status_pointer
            &&& s.window_value(0x0C) + 256 * s.window_value(0x0D) == r.response_pointer
            &&& s.window_value(0x0E) + 256 * s.window_value(0x0F) == r.command_pointer
        }),
{
}

/// The firmware's window shows the RAM from 0x800 on, and writes it.
pub proof fn firmware_ram(s: UciState, k: u32, j: u32, val: u8)
    requires
        s.valid(),
        k < 0x800,
        j < 0x800,
    ensures
        s.window_value((0x800 + k) as u32) == s.ram[k as int],
        s.after_window_write((0x800 + k) as u32, val).window_value((0x800 + j) as u32) == if j == k {
            val as int
        } else {
            s.window_value((0x800 + j) as u32)
        },
        s.after_window_write((0x800 + k) as u32, val).regs == s.regs,
{
}

/// A command byte lands where the command pointer stands, and the last place takes all
/// that do not fit.
pub proof fn command_bytes_land_in_order(s: UciState, val: u8)
    requires
        s.valid(),
        s.regs.enabled,
    ensures
        ({
            let t = s.after_c64_write(5, val);
            let p = s.regs.command_pointer;
            &&& t.ram == s.ram.update(p as int, val)
            &&& t.regs == (UciRegs {
                command_pointer: if p < 0x37F {
                    (p + 1) as u16
                } else {
                    0x37F
                },
                ..s.regs
            })
        }),
{
}

} // verus!
