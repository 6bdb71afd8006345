//! What each window of the C64 port is for, at the addresses that the firmware uses:
//! offsets count from the start of I/O space.
use crate::c64_state::{PortRegs, PortState, TablesState, World};
use crate::c64host::{C64Backend, C64Call, C64Rom, Line, Peek};
use crate::cart_bits::byte_bits;
use crate::irq::IrqState;
use crate::regtable::{Reg, Span, TableState};
use vstd::prelude::*;

verus! {

/// The world after a call that takes no guest memory, and nothing else.
pub open spec fn told<B: C64Backend>(w: World<B::State>, call: C64Call) -> World<B::State> {
    World {
        port: PortState { c64: Some(B::after(w.port.c64->0, call, Seq::empty())), ..w.port },
        ..w
    }
}

/// The world after a call that is lent the guest memory, and nothing else.
pub open spec fn lent<B: C64Backend>(w: World<B::State>, call: C64Call) -> World<B::State> {
    World {
        port: PortState { c64: Some(B::after(w.port.c64->0, call, w.ddr)), ..w.port },
        ddr: B::ddr_after(w.port.c64->0, call, w.ddr),
        ..w
    }
}

/// `n` bytes of memory from offset 0.
pub open spec fn is_memory(t: TableState, n: u32) -> bool {
    t.valid() && t.spans == seq![
        Span { start: 0, end: n, reg: Reg::Latch { mask: 0xFF, init: 0 } },
    ]
}

/// Memory gives back what was written, byte for byte.
pub proof fn memory_is_memory(t: TableState, n: u32, k: u32, j: u32, val: u8)
    requires
        is_memory(t, n),
        k < n,
    ensures
        t.put(k, val).at(j) == if j == k {
            val
        } else {
            t.at(j)
        },
        is_memory(t.put(k, val), n),
{
    assert(val & 0xFF == val) by (bit_vector);
    reveal_with_fuel(crate::regtable::storage, 2);
    reveal_with_fuel(crate::regtable::first_reg, 2);
}

/// The ROM and keyboard tables are memory from power-on.
pub proof fn tables_start_as_memory()
    ensures
        is_memory(TablesState::initial().basic, 0x2000),
        is_memory(TablesState::initial().kernal, 0x2000),
        is_memory(TablesState::initial().chars, 0x1000),
        is_memory(TablesState::initial().matrix, 0x100),
{
    reveal_with_fuel(crate::regtable::storage, 2);
}

/// BASIC stands at `0x188000`, the KERNAL at `0x18A000`, the character set at
/// `0x18C000`. With a C64 a write there reaches that ROM of the C64 and nothing else,
/// at once, and a read shows that ROM.
pub proof fn rom_windows_reach_their_rom<B: C64Backend>(
    w: World<B::State>,
    k: u16,
    val: u8,
    now: u64,
)
    requires
        w.port.c64 is Some,
        k < 0x2000,
    ensures
        crate::c64_state::written::<B>(w, (0x18_8000 + k) as u32, val, now) == told::<B>(
            w,
            C64Call::RomWrite { rom: C64Rom::Basic, off: k, val },
        ),
        crate::c64_state::written::<B>(w, (0x18_A000 + k) as u32, val, now) == told::<B>(
            w,
            C64Call::RomWrite { rom: C64Rom::Kernal, off: k, val },
        ),
        k < 0x1000 ==> crate::c64_state::written::<B>(w, (0x18_C000 + k) as u32, val, now) == told::<
            B,
        >(w, C64Call::RomWrite { rom: C64Rom::Char, off: k, val }),
        crate::c64_state::read::<B>(w, (0x18_8000 + k) as u32, now) == (
            B::byte(w.port.c64->0, Peek::Rom(C64Rom::Basic, k)),
            w,
        ),
        crate::c64_state::read::<B>(w, (0x18_A000 + k) as u32, now) == (
            B::byte(w.port.c64->0, Peek::Rom(C64Rom::Kernal, k)),
            w,
        ),
        k < 0x1000 ==> crate::c64_state::read::<B>(w, (0x18_C000 + k) as u32, now) == (
            B::byte(w.port.c64->0, Peek::Rom(C64Rom::Char, k)),
            w,
        ),
{
    reveal(crate::c64_state::peeked);
}

/// What the ROM windows show.
pub open spec fn rom_view<B: C64Backend>(p: PortState<B::State>, off: int) -> u8 {
    crate::c64_state::peeked::<B>(p, off as u32)
}

/// Without a C64 the ROM windows are memory: a byte written in one is read there, and
/// every other byte of all three stays.
pub proof fn rom_windows_are_memory<B: C64Backend>(
    w: World<B::State>,
    k: u32,
    j: u32,
    val: u8,
    now: u64,
)
    requires
        w.port.c64 is None,
        is_memory(w.port.tables.basic, 0x2000),
        is_memory(w.port.tables.kernal, 0x2000),
        is_memory(w.port.tables.chars, 0x1000),
        k < 0x5000,
        j < 0x5000,
    ensures
        rom_view::<B>(
            crate::c64_state::written::<B>(w, (0x18_8000 + k) as u32, val, now).port,
            0x18_8000 + j,
        ) == if j == k {
            val
        } else {
            rom_view::<B>(w.port, 0x18_8000 + j)
        },
{
    reveal(crate::c64_state::peeked);
    let t = w.port.tables;
    if k < 0x2000 {
        memory_is_memory(t.basic, 0x2000, k, j, val);
    } else if k < 0x4000 {
        memory_is_memory(t.kernal, 0x2000, (k - 0x2000) as u32, (j - 0x2000) as u32, val);
    } else {
        memory_is_memory(t.chars, 0x1000, (k - 0x4000) as u32, (j - 0x4000) as u32, val);
    }
}

/// The EEPROM at `0x4C000`, twenty mixer bytes at `0x100500` and 64 palette bytes at
/// `0x180800` reach the C64 at once; the rest of the mixer and palette pages goes
/// nowhere.
pub proof fn plain_windows_reach_the_c64<B: C64Backend>(
    w: World<B::State>,
    k: u16,
    val: u8,
    now: u64,
)
    requires
        w.port.c64 is Some,
    ensures
        k < 0x1000 ==> crate::c64_state::written::<B>(w, (0x4_C000 + k) as u32, val, now) == told::<
            B,
        >(w, C64Call::EepromWrite { off: k, val }),
        k < 0x1000 ==> crate::c64_state::read::<B>(w, (0x4_C000 + k) as u32, now) == (
            B::byte(w.port.c64->0, Peek::Eeprom(k)),
            w,
        ),
        k < 20 ==> crate::c64_state::written::<B>(w, (0x10_0500 + k) as u32, val, now) == told::<B>(
            w,
            C64Call::Mixer { reg: k as u8, val },
        ),
        20 <= k < 0x100 ==> crate::c64_state::written::<B>(w, (0x10_0500 + k) as u32, val, now)
            == w,
        k < 0x100 ==> crate::c64_state::read::<B>(w, (0x10_0500 + k) as u32, now) == (0u8, w),
        k < 0x40 ==> crate::c64_state::written::<B>(w, (0x18_0800 + k) as u32, val, now) == told::<
            B,
        >(w, C64Call::PaletteByte { reg: k as u8, val }),
        0x40 <= k < 0x800 ==> crate::c64_state::written::<B>(w, (0x18_0800 + k) as u32, val, now)
            == w,
        k < 0x800 ==> crate::c64_state::read::<B>(w, (0x18_0800 + k) as u32, now) == (0u8, w),
{
    reveal(crate::c64_state::peeked);
}

/// Before an access over the bus the C64 has run up to the clock, and no further, with
/// the guest memory lent to it.
pub proof fn the_c64_catches_up<B: C64Backend>(w: World<B::State>, now: u64)
    requires
        w.port.c64 is Some,
        now > w.port.regs.synced,
    ensures
        ({
            let v = lent::<B>(w, C64Call::Advance(now));
            crate::c64_state::synced::<B>(w, now) == (World {
                port: PortState { regs: PortRegs { synced: now, ..w.port.regs }, ..v.port },
                ..v
            })
        }),
{
    reveal(crate::c64_state::synced);
}

/// A bus access at `0x50000 + addr` is one at `addr` of the C64, past its I/O and ROM
/// if bit 0 of core register 3 is set, and costs its wait states.
pub proof fn dma_accesses_reach_the_bus<B: C64Backend>(
    w: World<B::State>,
    addr: u16,
    val: u8,
    now: u64,
)
    requires
        w.port.c64 is Some,
        now <= w.port.regs.synced,
        !B::line(w.port.c64->0, Line::HasUci),
    ensures
        ({
            let off = (0x5_0000 + addr) as u32;
            let mem_only = w.port.tables.core.at(3) % 2 == 1;
            let r = C64Call::DmaRead { addr, mem_only };
            let d = C64Call::DmaWrite { addr, val, mem_only };
            let a = crate::c64_state::read::<B>(w, off, now);
            &&& a.0 == B::reply(w.port.c64->0, r, w.ddr)
            &&& a.1.ddr == B::ddr_after(w.port.c64->0, r, w.ddr)
            &&& !B::line(B::after(w.port.c64->0, r, w.ddr), Line::HasUci) ==> a.1.port.c64 == Some(
                B::after(w.port.c64->0, r, w.ddr),
            )
            &&& crate::c64_state::written::<B>(w, off, val, now).ddr == B::ddr_after(
                w.port.c64->0,
                d,
                w.ddr,
            )
            &&& !B::line(B::after(w.port.c64->0, d, w.ddr), Line::HasUci)
                ==> crate::c64_state::written::<B>(w, off, val, now).port.c64 == Some(
                B::after(w.port.c64->0, d, w.ddr),
            )
            &&& crate::c64_state::peeked::<B>(w.port, off) == B::byte(
                w.port.c64->0,
                Peek::Dma(addr),
            )
        }),
{
    reveal(crate::c64_state::synced);
    reveal(crate::c64_state::lines_taken);
    reveal(crate::c64_state::peeked);
    byte_bits(w.port.tables.core.at(3));
}

/// Core register `k` at `0x180000` is kept and passed on; 0x30 and 0x31 are the
/// firmware's joystick lines of ports 1 and 2.
pub proof fn core_registers_reach_the_c64<B: C64Backend>(
    w: World<B::State>,
    k: u8,
    val: u8,
    now: u64,
)
    requires
        w.port.c64 is Some,
    ensures
        ({
            let v = crate::c64_state::written::<B>(w, (0x18_0000 + k) as u32, val, now);
            let kept = World {
                port: PortState {
                    tables: TablesState {
                        core: w.port.tables.core.put(k as u32, val),
                        ..w.port.tables
                    },
                    ..w.port
                },
                ..w
            };
            let u = told::<B>(kept, C64Call::CoreConfig { reg: k, val });
            &&& k != 0x30 && k != 0x31 ==> v == u
            &&& k == 0x30 || k == 0x31 ==> {
                let (a, b) = (v.port.regs.lines1, v.port.regs.lines2);
                let regs = PortRegs { lines1: a, lines2: b, ..w.port.regs };
                &&& v == told::<B>(
                    told::<B>(
                        World { port: PortState { regs, ..u.port }, ..u },
                        C64Call::Joystick { port: 1, lines: a },
                    ),
                    C64Call::Joystick { port: 2, lines: b },
                )
                &&& w.port.regs.keys_port != 1 ==> a == u.port.tables.core.at(0x30)
                    & w.port.regs.joy1
                &&& w.port.regs.keys_port != 2 ==> b == u.port.tables.core.at(0x31)
                    & w.port.regs.joy2
            }
            &&& crate::c64_state::read::<B>(w, (0x18_0000 + k) as u32, now) == (
                w.port.tables.core.at(k as u32),
                w,
            )
        }),
{
    reveal(crate::c64_state::peeked);
}

/// The cartridge registers at `0x40000`, sixteen of them over and over: each does what
/// it does once the C64 has caught up, and the lines are taken at the end.
pub proof fn cartridge_registers_repeat<B: C64Backend>(
    w: World<B::State>,
    k: u8,
    val: u8,
    now: u64,
)
    ensures
        crate::c64_state::written::<B>(w, (0x4_0000 + k) as u32, val, now)
            == crate::c64_state::finished::<B>(
            crate::c64_state::cart_written::<B>(
                crate::c64_state::synced::<B>(w, now),
                (k % 16) as u32,
                val,
            ),
        ),
{
}

/// Register 0, the mode: bit 2 holds the reset, or else bit 3 releases it, or else bit 1
/// is ULTIMAX and bit 4 is NMI. The C64 hears of what changed, and of nothing else.
pub proof fn mode_register<B: C64Backend>(w: World<B::State>, val: u8)
    requires
        w.port.c64 is Some,
    ensures
        ({
            let v = crate::c64_state::cart_written::<B>(w, 0, val);
            let r = w.port.regs;
            &&& v.port.regs.reset == (val / 4 % 2 == 1 || (r.reset && val / 8 % 2 == 0))
            &&& val / 4 % 4 != 0 ==> v.port.regs == (PortRegs {
                reset: val / 4 % 2 == 1,
                ..r
            })
            &&& val / 4 % 4 == 0 ==> v.port.regs == (PortRegs {
                ultimax: val / 2 % 2 == 1,
                nmi: val / 16 % 2 == 1,
                ..r
            })
            &&& val / 4 % 2 == 1 && !r.reset ==> v == lent::<B>(
                World { port: PortState { regs: v.port.regs, ..w.port }, ..w },
                C64Call::Reset(true),
            )
            &&& val / 4 % 2 == 1 && r.reset ==> v == w
            &&& val / 4 % 4 == 2 && !r.reset ==> v == w
        }),
{
    reveal(crate::c64_state::cart_written);
    reveal(crate::c64_state::mode_applied);
    byte_bits(val);
}

/// What the mode register reads: bit 1 for ULTIMAX, bit 2 for the reset, bit 4 for NMI.
pub proof fn mode_reads_back<B: C64Backend>(p: PortState<B::State>)
    ensures
        crate::c64_state::peeked::<B>(p, 0x4_0000) == (if p.regs.ultimax {
            2int
        } else {
            0
        }) + (if p.regs.reset {
            4int
        } else {
            0
        }) + (if p.regs.nmi {
            16int
        } else {
            0
        }),
{
    reveal(crate::c64_state::peeked);
}

/// The cartridge that a handover gives: the type, with the 16 K of guest memory where
/// this firmware keeps the cartridge ROM.
pub open spec fn cartridge(ddr: Seq<u8>, base: int, cart_type: u8) -> C64Call {
    C64Call::SetCart { cart_type, image: ddr.subrange(base, base + 0x4000) }
}

/// A release of the reset hands the type register's cartridge over first and then
/// resets the C64.
pub proof fn a_release_hands_the_cartridge_over<B: C64Backend>(w: World<B::State>)
    requires
        w.port.c64 is Some,
        w.port.regs.reset,
    ensures
        ({
            let v = crate::c64_state::cart_written::<B>(w, 0, 8);
            let u = World {
                port: PortState { regs: PortRegs { reset: false, ..w.port.regs }, ..w.port },
                ..w
            };
            let cart = cartridge(
                w.ddr,
                w.port.regs.cart_rom.base as int,
                w.port.tables.cart.at(5),
            );
            v == lent::<B>(told::<B>(u, cart), C64Call::Reset(false))
        }),
{
    reveal(crate::c64_state::cart_written);
    reveal(crate::c64_state::mode_applied);
    byte_bits(8);
}

/// Register 1 stops the C64 by bit 0. Register 6 drops the cartridge by bit 0 and then
/// forces the type register's by bit 1.
pub proof fn stop_and_kill_registers<B: C64Backend>(w: World<B::State>, val: u8)
    requires
        w.port.c64 is Some,
    ensures
        crate::c64_state::cart_written::<B>(w, 1, val) == told::<B>(
            World {
                port: PortState { regs: PortRegs { stop: val % 2 == 1, ..w.port.regs }, ..w.port },
                ..w
            },
            C64Call::Stopped(val % 2 == 1),
        ),
        ({
            let dropped = if val % 2 == 1 {
                told::<B>(w, C64Call::Kill)
            } else {
                w
            };
            crate::c64_state::cart_written::<B>(w, 6, val) == if val / 2 % 2 == 1 {
                told::<B>(
                    dropped,
                    cartridge(
                        w.ddr,
                        w.port.regs.cart_rom.base as int,
                        w.port.tables.cart.at(5),
                    ),
                )
            } else {
                dropped
            }
        }),
{
    reveal(crate::c64_state::cart_written);
    byte_bits(val);
}

/// Registers 5, 8, 9 and 14 are kept; 5 is the type and reaches a C64 in reset, 8
/// enables the REU, 9 is its size (128 KiB doubled so often), 14 enables the sampler.
pub proof fn kept_cartridge_registers<B: C64Backend>(w: World<B::State>, reg: u32, val: u8)
    requires
        w.port.c64 is Some,
        2 <= reg < 16,
        reg != 6,
    ensures
        ({
            let v = crate::c64_state::cart_written::<B>(w, reg, val);
            let cart = w.port.tables.cart.put(reg, val);
            let kept = World {
                port: PortState { tables: TablesState { cart, ..w.port.tables }, ..w.port },
                ..w
            };
            &&& reg == 5 && w.port.regs.reset ==> v == told::<B>(
                kept,
                cartridge(w.ddr, w.port.regs.cart_rom.base as int, val),
            )
            &&& reg == 5 && !w.port.regs.reset ==> v == kept
            &&& reg == 8 ==> v == told::<B>(kept, C64Call::ReuEnabled(cart.at(8) % 2 == 1))
            &&& reg == 9 ==> v == told::<B>(
                kept,
                C64Call::ReuSizeKb(doubled((cart.at(9) % 8) as nat) as u32),
            )
            &&& reg == 14 ==> v == told::<B>(kept, C64Call::SamplerEnabled(cart.at(14) % 2 == 1))
            &&& reg != 5 && reg != 8 && reg != 9 && reg != 14 ==> v == kept
        }),
{
    reveal(crate::c64_state::cart_written);
    let cart = w.port.tables.cart.put(reg, val);
    byte_bits(cart.at(8));
    byte_bits(cart.at(14));
    reu_sizes_double(cart.at(9));
}

/// 128, doubled `n` times.
pub open spec fn doubled(n: nat) -> nat
    decreases n,
{
    if n == 0 {
        128
    } else {
        2 * doubled((n - 1) as nat)
    }
}

/// The REU's size doubles with each step of its three bits, from 128 KiB.
pub proof fn reu_sizes_double(reg: u8)
    ensures
        crate::c64_state::reu_kb(reg) == doubled((reg % 8) as nat),
{
    assert(reg & 7 == reg % 8 && 128u32 << 0u8 == 128 && 128u32 << 1u8 == 256 && 128u32 << 2u8
        == 512 && 128u32 << 3u8 == 1024 && 128u32 << 4u8 == 2048 && 128u32 << 5u8 == 4096 && 128u32
        << 6u8 == 8192 && 128u32 << 7u8 == 16384) by (bit_vector);
    reveal_with_fuel(doubled, 8);
}

/// Matrix registers 0 to 7 at `0x100300` are the firmware's keyboard, handed on whole;
/// 9 pulls RESTORE, 10 the freeze button, 11 to 14 name the keys for up, down, left and
/// right.
pub proof fn matrix_registers<B: C64Backend>(w: World<B::State>, reg: u32, val: u8)
    requires
        w.port.c64 is Some,
        is_memory(w.port.tables.matrix, 0x100),
        reg < 0x100,
    ensures
        ({
            let v = crate::c64_state::matrix_written::<B>(w, reg, val);
            let matrix = w.port.tables.matrix.put(reg, val);
            let kept = World {
                port: PortState { tables: TablesState { matrix, ..w.port.tables }, ..w.port },
                ..w
            };
            let r = w.port.regs;
            &&& reg < 8 ==> v == told::<B>(
                kept,
                C64Call::MatrixKeyb(
                    Seq::new(
                        8,
                        |i: int|
                            if i == reg {
                                val
                            } else {
                                w.port.tables.matrix.at(i as u32)
                            },
                    ),
                ),
            )
            &&& reg == 9 ==> v == told::<B>(kept, C64Call::Nmi(r.nmi || val != 0 || r.restore))
            &&& reg == 10 ==> v == lent::<B>(kept, C64Call::FreezeButton(val != 0))
            &&& reg == 11 ==> v.port.regs == (PortRegs { up: val, ..r })
            &&& reg == 12 ==> v.port.regs == (PortRegs { down: val, ..r })
            &&& reg == 13 ==> v.port.regs == (PortRegs { left: val, ..r })
            &&& reg == 14 ==> v.port.regs == (PortRegs { right: val, ..r })
            &&& reg == 8 || reg > 14 ==> v == kept
            &&& 11 <= reg <= 14 ==> v.port.c64 == w.port.c64 && v.port.tables == kept.port.tables
        }),
{
    reveal(crate::c64_state::matrix_written);
    let t = w.port.tables.matrix;
    memory_is_memory(t, 0x100, reg, reg, val);
    let v = crate::c64_state::matrix_written::<B>(w, reg, val);
    if reg < 8 {
        assert forall|i: int| 0 <= i < 8 implies #[trigger] t.put(reg, val).at(i as u32) == (if i == reg {
            val
        } else {
            t.at(i as u32)
        }) by {
            memory_is_memory(t, 0x100, reg, i as u32, val);
        }
        let kept = TablesState { matrix: t.put(reg, val), ..w.port.tables };
        assert(kept.matrix_rows() =~= Seq::new(
            8,
            |i: int|
                if i == reg {
                    val
                } else {
                    t.at(i as u32)
                },
        ));
    }
}

/// The firmware reaches the matrix at `0x100300` once the C64 has caught up.
pub proof fn matrix_window<B: C64Backend>(w: World<B::State>, k: u8, val: u8, now: u64)
    ensures
        crate::c64_state::written::<B>(w, (0x10_0300 + k) as u32, val, now)
            == crate::c64_state::finished::<B>(
            crate::c64_state::matrix_written::<B>(
                crate::c64_state::synced::<B>(w, now),
                k as u32,
                val,
            ),
        ),
        crate::c64_state::read::<B>(w, (0x10_0300 + k) as u32, now).0
            == crate::c64_state::synced::<B>(w, now).port.tables.matrix.at(k as u32),
{
    reveal(crate::c64_state::peeked);
}

/// The command interface at `0x44000`, the IEC processor at `0x28000` and the sampler at
/// `0x48000` belong to the C64's own block where it has one.
pub proof fn blocks_answer_themselves<B: C64Backend>(
    w: World<B::State>,
    k: u16,
    val: u8,
    now: u64,
)
    requires
        w.port.c64 is Some,
        now <= w.port.regs.synced,
        k < 0x1000,
    ensures
        ({
            let s = w.port.c64->0;
            &&& B::line(s, Line::HasUci) ==> {
                &&& crate::c64_state::written::<B>(w, (0x4_4000 + k) as u32, val, now)
                    == crate::c64_state::finished::<B>(
                    told::<B>(w, C64Call::UciWrite { off: k, val }),
                )
                &&& crate::c64_state::read::<B>(w, (0x4_4000 + k) as u32, now) == (
                    B::byte(s, Peek::Uci(k)),
                    crate::c64_state::finished::<B>(w),
                )
            }
            &&& B::line(s, Line::HasIec) ==> {
                &&& crate::c64_state::written::<B>(w, (0x2_8000 + k) as u32, val, now)
                    == crate::c64_state::detected::<B>(
                    told::<B>(w, C64Call::IecWrite { off: k, val }),
                )
                &&& crate::c64_state::read::<B>(w, (0x2_8000 + k) as u32, now) == (
                    B::reply(s, C64Call::IecRead { off: k }, Seq::empty()),
                    crate::c64_state::detected::<B>(told::<B>(w, C64Call::IecRead { off: k })),
                )
            }
            &&& B::line(s, Line::HasSampler) ==> {
                &&& crate::c64_state::written::<B>(w, (0x4_8000 + k) as u32, val, now)
                    == crate::c64_state::finished::<B>(
                    lent::<B>(w, C64Call::SamplerWrite { off: k, val }),
                )
                &&& crate::c64_state::written::<B>(w, (0x4_9000 + k) as u32, val, now)
                    == crate::c64_state::finished::<B>(
                    lent::<B>(w, C64Call::SamplerWrite { off: (0x1000 + k) as u16, val }),
                )
                &&& crate::c64_state::read::<B>(w, (0x4_8000 + k) as u32, now).0 == B::byte(
                    s,
                    Peek::Sampler(k),
                )
            }
            &&& !B::line(s, Line::HasSampler) ==> {
                &&& crate::c64_state::written::<B>(w, (0x4_8000 + k) as u32, val, now) == w
                &&& crate::c64_state::read::<B>(w, (0x4_8000 + k) as u32, now) == (0u8, w)
            }
            &&& !B::line(s, Line::HasUci) ==> {
                &&& crate::c64_state::written::<B>(
                    w,
                    (0x4_4000 + k) as u32,
                    val,
                    now,
                ).port.tables.uci == w.port.tables.uci.put(k as u32, val)
                &&& crate::c64_state::read::<B>(w, (0x4_4000 + k) as u32, now) == (
                    w.port.tables.uci.at(k as u32),
                    w,
                )
            }
            &&& !B::line(s, Line::HasIec) ==> {
                &&& crate::c64_state::written::<B>(
                    w,
                    (0x2_8000 + k) as u32,
                    val,
                    now,
                ).port.tables.iec == w.port.tables.iec.put(k as u32, val)
                &&& crate::c64_state::read::<B>(w, (0x2_8000 + k) as u32, now) == (
                    w.port.tables.iec.at(k as u32),
                    w,
                )
            }
        }),
{
    reveal(crate::c64_state::synced);
    reveal(crate::c64_state::peeked);
}

/// Drive A stands at `0x20000` and drive B at `0x24000`, 16 K each.
pub proof fn drives_answer_at_their_windows<B: C64Backend>(
    w: World<B::State>,
    unit: u8,
    k: u16,
    val: u8,
    now: u64,
)
    requires
        w.port.c64 is Some,
        now <= w.port.regs.synced,
        unit < 2,
        k < 0x4000,
    ensures
        ({
            let off = (0x2_0000 + unit * 0x4000 + k) as u32;
            let u = crate::c64_state::finished::<B>(w);
            let a = crate::c64_state::read::<B>(w, off, now);
            let wr = C64Call::DriveWrite { unit, off: k, val };
            let rd = C64Call::DriveRead { unit, off: k };
            &&& a == (B::reply(u.port.c64->0, rd, u.ddr), lent::<B>(u, rd))
            &&& crate::c64_state::written::<B>(w, off, val, now)
                == crate::c64_state::drives_taken::<B>(lent::<B>(u, wr))
            &&& crate::c64_state::peeked::<B>(w.port, off) == B::byte(
                w.port.c64->0,
                Peek::Drive(unit, k),
            )
        }),
{
    reveal(crate::c64_state::synced);
    reveal(crate::c64_state::peeked);
    crate::c64_laws::finishing_keeps_registers::<B>(w);
}

/// The drives' lines are high sources 1 and 2 of the interrupt controller.
pub proof fn drive_lines<B: C64Backend>(w: World<B::State>)
    requires
        w.port.c64 is Some,
    ensures
        ({
            let v = crate::c64_state::drives_taken::<B>(w);
            let s = w.port.c64->0;
            &&& (v.irq.high_src / 2 % 2 == 1) == B::line(s, Line::DriveIrq(0))
            &&& (v.irq.high_src / 4 % 2 == 1) == B::line(s, Line::DriveIrq(1))
            &&& v.irq.high_src % 2 == w.irq.high_src % 2
            &&& v.irq.high_src / 8 == w.irq.high_src / 8
            &&& v.irq == (IrqState { high_src: v.irq.high_src, ..w.irq })
            &&& v.port == w.port
        }),
{
    bits_one_and_two(w.irq.high_src);
}

proof fn bits_one_and_two(h: u8)
    by (bit_vector)
    ensures
        (h | (1u8 << 1u8)) / 2 % 2 == 1,
        (h & !(1u8 << 1u8)) / 2 % 2 == 0,
        (h | (1u8 << 1u8)) % 2 == h % 2,
        (h & !(1u8 << 1u8)) % 2 == h % 2,
        ((h | (1u8 << 1u8)) | (1u8 << 2u8)) == h / 8 * 8 + 6 + h % 2,
        ((h & !(1u8 << 1u8)) | (1u8 << 2u8)) == h / 8 * 8 + 4 + h % 2,
        ((h | (1u8 << 1u8)) & !(1u8 << 2u8)) == h / 8 * 8 + 2 + h % 2,
        ((h & !(1u8 << 1u8)) & !(1u8 << 2u8)) == h / 8 * 8 + h % 2,
{
}

/// A command interface's level is low source 4; a reset of the C64 is an edge on its
/// source, and an unlock raises its high source, which only the acknowledging write
/// takes back.
pub proof fn command_interface_lines<B: C64Backend>(w: World<B::State>)
    requires
        w.port.c64 is Some,
        B::line(w.port.c64->0, Line::HasUci),
    ensures
        ({
            let s = w.port.c64->0;
            let v = crate::c64_state::lines_taken::<B>(w);
            let e = B::events(s);
            &&& v.port.c64 == Some(B::after(s, C64Call::TakeEvents, Seq::empty()))
            &&& (v.irq.level / 16 % 2 == 1) == B::line(s, Line::UciIrq)
            &&& v.irq.level % 16 == w.irq.level % 16
            &&& v.irq.level / 32 == w.irq.level / 32
            &&& !e.c64_reset ==> v.irq.latched == w.irq.latched
            &&& v.irq.mask == w.irq.mask && v.irq.high_en == w.irq.high_en && v.irq.global_en
                == w.irq.global_en
        }),
{
    reveal(crate::c64_state::lines_taken);
    bit_four(w.irq.level);
}

proof fn bit_four(h: u8)
    by (bit_vector)
    ensures
        (h | (1u8 << 4u8)) / 16 % 2 == 1,
        (h & !(1u8 << 4u8)) / 16 % 2 == 0,
        (h | (1u8 << 4u8)) % 16 == h % 16,
        (h & !(1u8 << 4u8)) % 16 == h % 16,
        (h | (1u8 << 4u8)) / 32 == h / 32,
        (h & !(1u8 << 4u8)) / 32 == h / 32,
{
}

/// The line that a slot of the assignment pulls, as a byte: 0 up, 1 down, 2 left, 3
/// right, 4 fire.
pub open spec fn only(slot: int) -> int {
    if slot == 0 {
        0xFE
    } else if slot == 1 {
        0xFD
    } else if slot == 2 {
        0xFB
    } else if slot == 3 {
        0xF7
    } else {
        0xEF
    }
}

/// The key codes for up, down, left, right and fire.
pub open spec fn slots(r: PortRegs) -> Seq<u8> {
    seq![r.up, r.down, r.left, r.right, r.fire]
}

/// A press of the key in one slot alone, with no key held and the stick and the firmware
/// idle, pulls exactly that slot's line on the keys' port: up is bit 0, down bit 1, left
/// bit 2, right bit 3 and fire bit 4. The other port stays idle.
pub proof fn directions_are_their_own_lines<B: C64Backend>(
    w: World<B::State>,
    slot: int,
    row: u8,
    col: u8,
)
    requires
        0 <= slot < 5,
        row < 8,
        col < 8,
        slots(w.port.regs)[slot] == row * 8 + col,
        forall|i: int| 0 <= i < 5 && i != slot ==> #[trigger] slots(w.port.regs)[i] != row * 8 + col,
        w.port.regs.pulls == crate::keyjoy::Pulls::idle(),
        w.port.regs.joy1 == 0xFF,
        w.port.regs.joy2 == 0xFF,
        w.port.tables.core.at(0x30) == 0xFF,
        w.port.tables.core.at(0x31) == 0xFF,
        w.port.regs.keys_port == 1 || w.port.regs.keys_port == 2,
    ensures
        ({
            let r = crate::c64_state::keyed::<B>(w, row, col, true).port.regs;
            let (keys, other) = if w.port.regs.keys_port == 1 {
                (r.lines1, r.lines2)
            } else {
                (r.lines2, r.lines1)
            };
            keys == only(slot) && other == 0xFF
        }),
{
    let code = (row * 8 + col) as u8;
    let s = slots(w.port.regs);
    assert(s[0] == w.port.regs.up && s[1] == w.port.regs.down && s[2] == w.port.regs.left && s[3]
        == w.port.regs.right && s[4] == w.port.regs.fire);
    assert(code < 64 ==> 0u64 | (1u64 << (code as u64)) != 0) by (bit_vector);
    assert(0xFFu8 & 0xFF == 0xFF && (0xFFu8 & 0xFF) & 0xFE == 0xFE && (0xFFu8 & 0xFF) & 0xFD == 0xFD
        && (0xFFu8 & 0xFF) & 0xFB == 0xFB && (0xFFu8 & 0xFF) & 0xF7 == 0xF7 && (0xFFu8 & 0xFF)
        & 0xEF == 0xEF) by (bit_vector);
    let bit = if slot == 0 {
        0u8
    } else if slot == 1 {
        1u8
    } else if slot == 2 {
        2u8
    } else if slot == 3 {
        3u8
    } else {
        4u8
    };
    assert(w.port.regs.line_of(code) == Some(bit));
    let p = w.port.regs.pulls.pressed(bit, code);
    assert(p.lines() == only(slot));
}

} // verus!
