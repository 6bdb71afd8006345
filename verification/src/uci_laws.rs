//! What holds of the UltiCommand interface as a whole.
use crate::uci::{
    UciRegs, UciState, CMD_ADDR, CMD_END, RAM_WINDOW, RESP_ADDR, SLOT_COMMAND, SLOT_CONTROL,
    SLOT_RESPONSE,
};
use vstd::prelude::*;

verus! {

/// The state after the C64 wrote `bytes` to its command register one by one.
pub open spec fn after_command(s: UciState, bytes: Seq<u8>) -> UciState
    decreases bytes.len(),
{
    if bytes.len() == 0 {
        s
    } else {
        after_command(s, bytes.drop_last()).after_c64_write(SLOT_COMMAND, bytes.last())
    }
}

/// The state after the C64 read its response register `n` times.
pub open spec fn after_responses(s: UciState, n: nat) -> UciState
    decreases n,
{
    if n == 0 {
        s
    } else {
        after_responses(s, (n - 1) as nat).after_c64_read(SLOT_RESPONSE)
    }
}

/// A command reaches the firmware byte for byte, and its length registers count
/// it.
pub proof fn commands_arrive(s: UciState, bytes: Seq<u8>)
    requires
        s.valid(),
        s.regs.enabled,
        s.regs.command_pointer == CMD_ADDR,
        bytes.len() <= CMD_END,
    ensures
        ({
            let t = after_command(s, bytes);
            &&& t.valid()
            &&& t.regs == (UciRegs { command_pointer: bytes.len() as u16, ..s.regs })
            &&& t.ram.subrange(0, bytes.len() as int) == bytes
            &&& t.ram.subrange(bytes.len() as int, 0x800) == s.ram.subrange(
                bytes.len() as int,
                0x800,
            )
            &&& t.window_value(0x0E) + 256 * t.window_value(0x0F) == bytes.len()
            &&& forall|i: int|
                0 <= i < bytes.len() ==> t.window_value((RAM_WINDOW + i) as u32) == bytes[i]
        }),
    decreases bytes.len(),
{
    let t = after_command(s, bytes);
    if bytes.len() > 0 {
        let p = bytes.drop_last();
        commands_arrive(s, p);
        let u = after_command(s, p);
        assert forall|i: int| 0 <= i < 0x800 implies t.ram[i] == if i < bytes.len() {
            bytes[i]
        } else {
            s.ram[i]
        } by {
            if i < p.len() {
                assert(u.ram.subrange(0, p.len() as int)[i] == p[i]);
            } else if i >= bytes.len() {
                assert(u.ram.subrange(p.len() as int, 0x800)[i - p.len()] == s.ram.subrange(
                    p.len() as int,
                    0x800,
                )[i - p.len()]);
            }
        }
    }
    assert(t.ram.subrange(0, bytes.len() as int) =~= bytes);
    assert(t.ram.subrange(bytes.len() as int, 0x800) =~= s.ram.subrange(
        bytes.len() as int,
        0x800,
    ));
    assert forall|i: int| 0 <= i < bytes.len() implies t.window_value((RAM_WINDOW + i) as u32)
        == bytes[i] by {
        assert(t.ram.subrange(0, bytes.len() as int)[i] == bytes[i]);
    }
}

/// The C64 reads back exactly the response that the firmware left: its bytes in
/// order, then zeros.
pub proof fn responses_arrive(s: UciState, n: nat)
    requires
        s.valid(),
        s.regs.enabled,
        s.regs.data,
        !s.regs.abort,
        s.regs.response_pointer == RESP_ADDR,
        s.regs.response_length <= 0x37F,
        n <= 0x37F,
    ensures
        ({
            let t = after_responses(s, n);
            &&& t.valid()
            &&& t.ram == s.ram
            &&& t.regs.response_pointer == RESP_ADDR + n
            &&& t.c64_value(SLOT_RESPONSE) == if n < s.regs.response_length {
                s.ram[RESP_ADDR + n] as int
            } else {
                0
            }
            &&& t.regs.response_ready() == (n < s.regs.response_length)
            &&& t.regs.enabled && t.regs.data && !t.regs.abort
            &&& t.regs.response_length == s.regs.response_length
        }),
    decreases n,
{
    if n > 0 {
        responses_arrive(s, (n - 1) as nat);
    }
}

/// A whole exchange from idle: the C64 starts a command, the firmware sees it,
/// takes it, and validates its last data; the C64 sees the data and accepts it,
/// and the interface is idle again.
pub proof fn an_exchange_ends_idle(s: UciState)
    requires
        s.valid(),
        s.regs.enabled,
        !s.regs.data && !s.regs.more && !s.regs.abort,
    ensures
        ({
            let started = s.after_c64_write(SLOT_CONTROL, 0x01);
            let taken = started.after_window_write(2, 0x01);
            let answered = taken.after_window_write(2, 0x10);
            let done = answered.after_c64_write(SLOT_CONTROL, 0x02);
            &&& started.regs.new_command && started.regs.more && !started.regs.data
            &&& !taken.regs.new_command && taken.regs.command_pointer == CMD_ADDR
            &&& answered.regs.data && !answered.regs.more
            &&& answered.regs.response_pointer == RESP_ADDR
            &&& answered.regs.response_ready() == (s.regs.response_length > 0)
            &&& !done.regs.data && !done.regs.more
            &&& done.regs.accepted == s.regs.accepted
        }),
{
    assert(0x01u8 & 1 != 0 && 0x01u8 & 2 == 0 && 0x01u8 & 4 == 0 && 0x01u8 & 8 == 0 && 0x01u8 & 0x10
        == 0 && 0x01u8 & 0x80 == 0 && 0x10u8 & 1 == 0 && 0x10u8 & 2 == 0 && 0x10u8 & 4 == 0
        && 0x10u8 & 0x10 != 0 && 0x10u8 & 0x20 == 0 && 0x10u8 & 0x80 == 0 && 0x02u8 & 1 == 0
        && 0x02u8 & 2 != 0 && 0x02u8 & 4 == 0) by (bit_vector);
}

/// While a command is in progress the C64 cannot start another: it only gets the
/// busy error.
pub proof fn busy_refuses_a_command(s: UciState, val: u8)
    requires
        s.regs.enabled,
        s.regs.data || s.regs.more,
        val & 1 != 0,
        val & 2 == 0,
    ensures
        ({
            let t = s.after_c64_write(SLOT_CONTROL, val);
            &&& t.regs.error_busy
            &&& t.regs.new_command == s.regs.new_command
            &&& t.regs.data == s.regs.data && t.regs.more == s.regs.more
        }),
{
}

/// A disabled interface claims no address and ignores the C64.
pub proof fn disabled_is_absent(s: UciState, addr: u16, off: u32, val: u8)
    requires
        !s.regs.enabled,
    ensures
        s.regs.claimed(addr) is None,
        s.c64_value(off) == 0xFF,
        s.after_c64_read(off) == s,
        s.after_c64_write(off, val) == s,
{
}

/// An enabled interface claims exactly eight addresses of `$DE00-$DFFF`.
pub proof fn window_is_eight_bytes(r: UciRegs, addr: u16)
    requires
        r.valid(),
        r.enabled,
    ensures
        r.claimed(addr) is Some <==> 0xDE00 + r.slot_base * 8 <= addr < 0xDE00 + r.slot_base * 8 + 8,
        r.claimed(addr) matches Some(off) ==> off == addr - 0xDE00 - r.slot_base * 8,
{
}

/// With every flag masked the firmware gets no interrupt.
pub proof fn masked_is_silent(r: UciRegs)
    requires
        r.irq_mask == 7,
    ensures
        !r.irq(),
{
    assert(7u8 & 1 != 0 && 7u8 & 2 != 0 && 7u8 & 4 != 0) by (bit_vector);
}

} // verus!
