//! What holds of the C64 port as a whole.
use crate::c64_state::{PortRegs, PortState, World, CART, CART_END, DMA, DMA_END, STOP};
use crate::c64host::{C64Backend, C64Call, Line};
use crate::irq::IrqState;
use vstd::prelude::*;

verus! {

/// A call leaves the port's own registers, the interrupt controller and the wait
/// states alone, and without a C64 nothing happens at all.
pub proof fn calls_reach_the_c64_only<B: C64Backend>(w: World<B::State>, call: C64Call)
    ensures
        ({
            let v = crate::c64_state::called::<B>(w, call);
            &&& v.port.regs == w.port.regs
            &&& v.port.tables == w.port.tables
            &&& v.port.stub == w.port.stub
            &&& v.irq == w.irq
            &&& v.stall == w.stall
            &&& (v.port.c64 is Some) == (w.port.c64 is Some)
            &&& !call.has_ddr() ==> v.ddr == w.ddr
            &&& w.port.c64 is None ==> v == w
        }),
{
}

/// What an access does at its end moves only the interrupt controller and the
/// port's copy of the cartridge lines.
pub proof fn finishing_keeps_registers<B: C64Backend>(w: World<B::State>)
    ensures
        ({
            let v = crate::c64_state::finished::<B>(w);
            &&& v.port.regs == (PortRegs { cart_detect: v.port.regs.cart_detect, ..w.port.regs })
            &&& v.port.tables == w.port.tables
            &&& v.port.stub == w.port.stub
            &&& v.ddr == w.ddr
            &&& v.stall == w.stall
            &&& (v.port.c64 is Some) == (w.port.c64 is Some)
        }),
{
    reveal(crate::c64_state::lines_taken);
}

/// A tick neither brings nor loses a C64.
pub proof fn nothing_loses_the_c64<B: C64Backend>(w: World<B::State>, now: u64)
    ensures
        (crate::c64_state::synced::<B>(w, now).port.c64 is Some) == (w.port.c64 is Some),
        (crate::c64_state::ticked::<B>(w, now).port.c64 is Some) == (w.port.c64 is Some),
{
    reveal(crate::c64_state::synced);
    reveal(crate::c64_state::lines_taken);
}

/// The C64 is advanced at most once per clock, and never back.
pub proof fn one_sync_per_clock<B: C64Backend>(w: World<B::State>, now: u64)
    ensures
        ({
            let v = crate::c64_state::synced::<B>(w, now);
            &&& crate::c64_state::synced::<B>(v, now) == v
            &&& w.port.c64 is Some ==> v.port.regs.synced == if now > w.port.regs.synced {
                now
            } else {
                w.port.regs.synced
            }
            &&& now <= w.port.regs.synced || w.port.c64 is None ==> v == w
            &&& v.port.regs == (PortRegs { synced: v.port.regs.synced, ..w.port.regs })
            &&& v.port.tables == w.port.tables
            &&& v.port.stub == w.port.stub
        }),
{
    reveal(crate::c64_state::synced);
}

/// Without a C64 no access reaches guest memory, and no access runs anything.
pub proof fn nothing_runs_without_a_c64<B: C64Backend>(
    w: World<B::State>,
    off: u32,
    val: u8,
    now: u64,
)
    requires
        w.port.c64 is None,
    ensures
        crate::c64_state::written::<B>(w, off, val, now).ddr == w.ddr,
        crate::c64_state::written::<B>(w, off, val, now).port.c64 is None,
        crate::c64_state::written::<B>(w, off, val, now).port.regs.synced == w.port.regs.synced,
        crate::c64_state::read::<B>(w, off, now).1.ddr == w.ddr,
        crate::c64_state::read::<B>(w, off, now).1.port.c64 is None,
{
    reveal(crate::c64_state::synced);
    reveal(crate::c64_state::lines_taken);
    reveal(crate::c64_state::mode_applied);
    reveal(crate::c64_state::cart_written);
    reveal(crate::c64_state::matrix_written);
}

/// A stop request is acknowledged at once: the stop register reads 3 from the
/// write that asked for it until the write that takes it back.
pub proof fn stop_is_acknowledged<B: C64Backend>(w: World<B::State>, val: u8, now: u64)
    ensures
        ({
            let off = (CART + STOP) as u32;
            let v = crate::c64_state::written::<B>(w, off, val, now);
            crate::c64_state::peeked::<B>(v.port, off) == if val & 1 != 0 {
                3u8
            } else {
                0u8
            }
        }),
{
    let u = crate::c64_state::synced::<B>(w, now);
    let c = crate::c64_state::cart_written::<B>(u, STOP, val);
    reveal(crate::c64_state::cart_written);
    reveal(crate::c64_state::peeked);
    finishing_keeps_registers::<B>(c);
}

/// Sixteen cartridge registers repeat over their page.
pub proof fn cart_registers_repeat<B: C64Backend>(p: PortState<B::State>, off: u32, other: u32)
    requires
        CART <= off <= CART_END,
        CART <= other <= CART_END,
        off % 16 == other % 16,
    ensures
        crate::c64_state::peeked::<B>(p, off) == crate::c64_state::peeked::<B>(p, other),
{
    reveal(crate::c64_state::peeked);
}

/// Running the C64 up to a clock charges no wait states.
proof fn syncing_waits_not<B: C64Backend>(w: World<B::State>, now: u64)
    ensures
        crate::c64_state::synced::<B>(w, now).stall == w.stall,
{
    reveal(crate::c64_state::synced);
}

/// Taking the lines at the end of an access charges no wait states.
proof fn taking_lines_waits_not<B: C64Backend>(w: World<B::State>)
    ensures
        crate::c64_state::lines_taken::<B>(w).stall == w.stall,
{
    reveal(crate::c64_state::lines_taken);
}

/// The cartridge registers charge no wait states.
proof fn cart_registers_wait_not<B: C64Backend>(w: World<B::State>, reg: u32, val: u8)
    ensures
        crate::c64_state::cart_written::<B>(w, reg, val).stall == w.stall,
{
    reveal(crate::c64_state::mode_applied);
    reveal(crate::c64_state::cart_written);
}

/// The keyboard matrix charges no wait states.
proof fn the_matrix_waits_not<B: C64Backend>(w: World<B::State>, reg: u32, val: u8)
    ensures
        crate::c64_state::matrix_written::<B>(w, reg, val).stall == w.stall,
{
    reveal(crate::c64_state::matrix_written);
}

/// What a read costs.
proof fn reads_wait<B: C64Backend>(w: World<B::State>, off: u32, now: u64)
    requires
        w.stall + crate::time::DMA_BYTE_CLOCKS <= u64::MAX,
    ensures
        crate::c64_state::read::<B>(w, off, now).1.stall == w.stall + if DMA <= off <= DMA_END {
            crate::time::DMA_BYTE_CLOCKS as int
        } else {
            0
        },
{
    syncing_waits_not::<B>(w, now);
    assert forall|v: World<B::State>| #[trigger]
        crate::c64_state::lines_taken::<B>(v).stall == v.stall by {
        taking_lines_waits_not::<B>(v);
    }
}

/// What a write costs.
proof fn writes_wait<B: C64Backend>(w: World<B::State>, off: u32, val: u8, now: u64)
    requires
        w.stall + crate::time::DMA_BYTE_CLOCKS <= u64::MAX,
    ensures
        crate::c64_state::written::<B>(w, off, val, now).stall == w.stall + if DMA <= off
            <= DMA_END {
            crate::time::DMA_BYTE_CLOCKS as int
        } else {
            0
        },
{
    let v = crate::c64_state::synced::<B>(w, now);
    syncing_waits_not::<B>(w, now);
    cart_registers_wait_not::<B>(v, (off % 16) as u32, val);
    the_matrix_waits_not::<B>(v, (off - crate::c64_state::MATRIX) as u32, val);
    assert forall|u: World<B::State>| #[trigger]
        crate::c64_state::lines_taken::<B>(u).stall == u.stall by {
        taking_lines_waits_not::<B>(u);
    }
}

/// A byte over the C64's bus costs its wait states, read or written; no other
/// access costs any.
pub proof fn only_dma_waits<B: C64Backend>(w: World<B::State>, off: u32, val: u8, now: u64)
    requires
        w.stall + crate::time::DMA_BYTE_CLOCKS <= u64::MAX,
    ensures
        ({
            let cost = if DMA <= off <= DMA_END {
                crate::time::DMA_BYTE_CLOCKS as int
            } else {
                0
            };
            &&& crate::c64_state::read::<B>(w, off, now).1.stall == w.stall + cost
            &&& crate::c64_state::written::<B>(w, off, val, now).stall == w.stall + cost
        }),
{
    reads_wait::<B>(w, off, now);
    writes_wait::<B>(w, off, val, now);
}

/// A bit of a conjunction.
proof fn wired_and(x: u8, y: u8, z: u8, bit: u8)
    by (bit_vector)
    requires
        bit < 8,
    ensures
        ((x & y) & (1u8 << bit) != 0) == (x & (1u8 << bit) != 0 && y & (1u8 << bit) != 0),
        (((x & y) & z) & (1u8 << bit) != 0) == (x & (1u8 << bit) != 0 && y & (1u8 << bit) != 0 && z
            & (1u8 << bit) != 0),
{
}

/// The joystick lines are a wired AND: a line is high only where the stick, the
/// firmware and, on their port, the keys leave it high.
pub proof fn joystick_lines_are_wired(r: PortRegs, swout1: u8, swout2: u8, bit: u8)
    requires
        bit < 8,
        r.keys_port == 1 || r.keys_port == 2,
    ensures
        ({
            let c = r.combined(swout1, swout2);
            let b = 1u8 << bit;
            &&& (c.lines1 & b != 0) == (swout1 & b != 0 && r.joy1 & b != 0 && (r.keys_port == 1
                ==> r.pulls.on(bit) == 0))
            &&& (c.lines2 & b != 0) == (swout2 & b != 0 && r.joy2 & b != 0 && (r.keys_port == 2
                ==> r.pulls.on(bit) == 0))
        }),
{
    wired_and(swout1, r.joy1, r.pulls.lines(), bit);
    wired_and(swout2, r.joy2, r.pulls.lines(), bit);
    crate::keyjoy::lines_follow_the_keys(r.pulls, bit);
}

/// With nothing assigned no press moves a joystick line.
pub proof fn unassigned_keys_are_keys_only(r: PortRegs, row: u8, col: u8)
    requires
        row < 8,
        col < 8,
        r.up == 0xFF && r.down == 0xFF && r.left == 0xFF && r.right == 0xFF && r.fire == 0xFF,
    ensures
        crate::c64_state::folded(r, (row * 8 + col) as u8, true) is None,
{
}

/// A press of an assigned key pulls its line low, and the release of that key lets go
/// of it whatever was assigned in between, by the registers or past them: what the
/// keys pull is then what it was before the press.
pub proof fn press_and_release_restore<B: C64Backend>(
    w: World<B::State>,
    between: World<B::State>,
    row: u8,
    col: u8,
)
    requires
        row < 8,
        col < 8,
        w.port.regs.line_of((row * 8 + col) as u8) is Some,
        !w.port.regs.pulls.has((row * 8 + col) as u8),
        between.port.regs.pulls == crate::c64_state::keyed::<B>(w, row, col, true).port.regs.pulls,
    ensures
        ({
            let bit = w.port.regs.line_of((row * 8 + col) as u8)->0;
            let pressed = crate::c64_state::keyed::<B>(w, row, col, true);
            let released = crate::c64_state::keyed::<B>(between, row, col, false);
            &&& pressed.port.regs.pulls.lines() & (1u8 << bit) == 0
            &&& released.port.regs.pulls == w.port.regs.pulls
            &&& released.port.regs.lines1 == released.port.joined().lines1
            &&& released.port.regs.lines2 == released.port.joined().lines2
        }),
{
    let code = (row * 8 + col) as u8;
    let bit = w.port.regs.line_of(code)->0;
    crate::keyjoy::a_release_undoes_a_press(w.port.regs.pulls, bit, code);
}

/// Assigning other keys, by a matrix register or past the registers, leaves every held
/// key pulling the line that it pulls.
pub proof fn assigning_keeps_held_keys<B: C64Backend>(
    w: World<B::State>,
    reg: u32,
    val: u8,
    port: u8,
    codes: Seq<u8>,
    fire: u8,
)
    ensures
        crate::c64_state::matrix_written::<B>(w, reg, val).port.regs.pulls == w.port.regs.pulls,
        crate::routing::keys_assigned::<B>(w.port, port, codes, fire).regs.pulls
            == w.port.regs.pulls,
{
    reveal(crate::c64_state::matrix_written);
}

/// A key always reaches the C64's keyboard, also if it moves a joystick line; one
/// that moves none changes nothing else.
pub proof fn every_key_reaches_the_c64<B: C64Backend>(
    w: World<B::State>,
    row: u8,
    col: u8,
    down: bool,
)
    ensures
        ({
            let v = crate::c64_state::keyed::<B>(w, row, col, down);
            let key = C64Call::Key { row, col, down };
            let joy1 = C64Call::Joystick { port: 1, lines: v.port.regs.lines1 };
            let joy2 = C64Call::Joystick { port: 2, lines: v.port.regs.lines2 };
            let none = Seq::<u8>::empty();
            let moves = row < 8 && col < 8 && crate::c64_state::folded(
                w.port.regs,
                (row * 8 + col) as u8,
                down,
            ) is Some;
            &&& !moves ==> v.port.regs == w.port.regs
            &&& match w.port.c64 {
                Some(s) => v.port.stub == w.port.stub && v.port.c64 == Some(
                    if moves {
                        B::after(B::after(B::after(s, joy1, none), joy2, none), key, none)
                    } else {
                        B::after(s, key, none)
                    },
                ),
                None => v.port.c64 is None && v.port.stub == w.port.stub.keyed(row, col, down),
            }
        }),
{
}

/// A key that is assigned to fire and to a direction is fire.
pub proof fn fire_comes_first(r: PortRegs)
    ensures
        r.line_of(r.fire) == Some(4u8),
{
}

/// While the reset is held every type that is written reaches the cartridge logic
/// at once; otherwise it waits for the release.
pub proof fn types_wait_for_the_reset<B: C64Backend>(w: World<B::State>, val: u8)
    ensures
        ({
            let reg = crate::c64_state::CARTRIDGE_TYPE;
            let v = crate::c64_state::cart_written::<B>(w, reg, val);
            v.port.c64 == match w.port.c64 {
                Some(s) if w.port.regs.reset => Some(
                    B::after(s, crate::c64_state::cart_call(w, val), Seq::empty()),
                ),
                _ => w.port.c64,
            }
        }),
{
    reveal(crate::c64_state::cart_written);
}

/// The firmware cannot set and release the reset in one write, and a mode write
/// that does neither leaves it as it is.
pub proof fn mode_keeps_a_held_reset(r: PortRegs, val: u8)
    ensures
        val & 4 == 0 && val & 8 == 0 ==> r.mode_written(val).reset == r.reset,
        val & 4 != 0 ==> r.mode_written(val).reset && r.mode_written(val).nmi == r.nmi
            && r.mode_written(val).ultimax == r.ultimax,
        r.mode_written(val).mode_value() & 4 != 0 <==> r.mode_written(val).reset,
{
    let m = r.mode_written(val);
    let v = m.mode_value();
    assert(0u8 & 4 == 0 && 2u8 & 4 == 0 && 4u8 & 4 != 0 && 6u8 & 4 != 0 && 16u8 & 4 == 0 && 18u8 & 4
        == 0 && 20u8 & 4 != 0 && 22u8 & 4 != 0) by (bit_vector);
}

/// Without a command interface the port drives only the drives' lines into the
/// interrupt controller.
pub proof fn no_uci_no_lines<B: C64Backend>(w: World<B::State>)
    requires
        !crate::c64_state::has::<B>(w.port, Line::HasUci),
    ensures
        ({
            let v = crate::c64_state::lines_taken::<B>(w);
            v.irq == (IrqState { high_src: v.irq.high_src, ..w.irq }) && v.port == w.port
        }),
{
    reveal(crate::c64_state::lines_taken);
}

} // verus!
