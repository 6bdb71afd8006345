//! What holds of I/O space and of time: where every window lies and what it is called,
//! when a device wants a tick, and what reaches the C64's NMI.
use crate::c64_state::{PortRegs, PortState, World};
use crate::c64host::{C64Backend, C64Call, Line};
use crate::cart_state::{CartLines, CartRegs, CartState};
use crate::iomap::{DeviceState, MapState, Window};
use crate::proxy::{MapperType, ProxyState};
use crate::schedule::BusState;
use crate::uci::UciState;
use vstd::prelude::*;

verus! {

/// A window of one device, counted from its own start.
pub open spec fn own(base: u32, size: u32, dev: nat) -> Window {
    Window { base, size, dev: dev as usize, origin: base }
}

/// A window of one device, counted from the start of I/O space.
pub open spec fn port(base: u32, size: u32, dev: nat) -> Window {
    Window { base, size, dev: dev as usize, origin: 0x1000_0000 }
}

/// The names of devices.
pub open spec fn names<S>(devices: Seq<DeviceState<S>>) -> Seq<Seq<char>> {
    devices.map_values(|d: DeviceState<S>| d.name())
}

/// A board by itself: its GPIO page, and seven pages that swallow writes.
pub proof fn board_windows<S>(m: MapState<S>)
    ensures
        ({
            let d = m.devices.len();
            let b = crate::board::installed(m);
            &&& b.windows == m.windows + seq![
                own(0x1010_0000, 0x100, d),
                own(0x1010_0100, 0x100, d + 1),
                own(0x1010_0200, 0x100, d + 2),
                own(0x1010_0500, 0x100, d + 3),
                own(0x1010_0600, 0x100, d + 4),
                own(0x1010_0800, 0x100, d + 5),
                own(0x1010_0900, 0x100, d + 6),
                own(0x1020_0000, 0x100, d + 7),
            ]
            &&& names(b.devices) == names(m.devices) + seq![
                "u2pio"@,
                "ddr2-phy"@,
                "clockmeas"@,
                "audio-mixer"@,
                "led-strip"@,
                "blingboard"@,
                "blingboard-leds"@,
                "mmcm"@,
            ]
        }),
{
    let d = m.devices.len();
    let b = crate::board::installed(m);
    assert(b.windows =~= m.windows + seq![
        own(0x1010_0000, 0x100, d),
        own(0x1010_0100, 0x100, d + 1),
        own(0x1010_0200, 0x100, d + 2),
        own(0x1010_0500, 0x100, d + 3),
        own(0x1010_0600, 0x100, d + 4),
        own(0x1010_0800, 0x100, d + 5),
        own(0x1010_0900, 0x100, d + 6),
        own(0x1020_0000, 0x100, d + 7),
    ]);
    assert(names(b.devices) =~= names(m.devices) + seq![
        "u2pio"@,
        "ddr2-phy"@,
        "clockmeas"@,
        "audio-mixer"@,
        "led-strip"@,
        "blingboard"@,
        "blingboard-leds"@,
        "mmcm"@,
    ]);
}

/// The IEC processor, the command interface, the ACIA and the tape, 4 K each.
pub proof fn serial_windows<S>(m: MapState<S>)
    ensures
        ({
            let d = m.devices.len();
            let b = crate::iec::installed(m);
            &&& b.windows == m.windows + seq![
                own(0x1002_8000, 0x1000, d),
                own(0x1004_4000, 0x1000, d + 1),
                own(0x1004_A000, 0x1000, d + 2),
                own(0x100A_0000, 0x1000, d + 3),
                own(0x100C_0000, 0x1000, d + 4),
            ]
            &&& names(b.devices) == names(m.devices) + seq![
                "iec"@,
                "uci"@,
                "acia"@,
                "tape-play"@,
                "tape-record"@,
            ]
        }),
{
    let d = m.devices.len();
    let b = crate::iec::installed(m);
    assert(b.windows =~= m.windows + seq![
        own(0x1002_8000, 0x1000, d),
        own(0x1004_4000, 0x1000, d + 1),
        own(0x1004_A000, 0x1000, d + 2),
        own(0x100A_0000, 0x1000, d + 3),
        own(0x100C_0000, 0x1000, d + 4),
    ]);
    assert(names(b.devices) =~= names(m.devices) + seq![
        "iec"@,
        "uci"@,
        "acia"@,
        "tape-play"@,
        "tape-record"@,
    ]);
}

/// The C64 port's fourteen windows, and six tables beside it.
pub proof fn c64_windows<S>(m: MapState<S>)
    ensures
        ({
            let d = m.devices.len();
            let b = crate::c64_install::installed(m);
            &&& b.windows == m.windows + seq![
                port(0x1002_0000, 0x8000, d),
                port(0x1002_8000, 0x1000, d),
                port(0x1004_0000, 0x100, d),
                port(0x1005_0000, 0x1_0000, d),
                port(0x1010_0300, 0x100, d),
                port(0x1018_0000, 0x100, d),
                port(0x1018_0800, 0x800, d),
                port(0x1018_8000, 0x2000, d),
                port(0x1018_A000, 0x2000, d),
                port(0x1018_C000, 0x1000, d),
                port(0x1004_C000, 0x1000, d),
                port(0x1004_4000, 0x1000, d),
                port(0x1004_8000, 0x2000, d),
                port(0x1010_0500, 0x100, d),
            ] + seq![
                own(0x1004_2000, 0x1000, d + 1),
                own(0x1004_6000, 0x800, d + 2),
                own(0x1018_1000, 0x100, d + 3),
                own(0x1018_1800, 0x100, d + 4),
                own(0x1018_2000, 0x200, d + 5),
                own(0x1018_4000, 0x2000, d + 6),
            ]
            &&& names(b.devices) == names(m.devices) + seq![
                "c64"@,
                "legacy-sid"@,
                "cart-timing"@,
                "c64-pld"@,
                "u64-debug"@,
                "c64-glyph"@,
                "ultisid"@,
            ]
            &&& b.devices[d as int + 3] matches DeviceState::Table(t) && crate::port_laws::is_memory(
                t,
                0x100,
            )
            &&& b.devices[d as int + 4] matches DeviceState::Table(t) && crate::port_laws::is_memory(
                t,
                0x100,
            )
        }),
{
    let d = m.devices.len();
    let b = crate::c64_install::installed(m);
    reveal_with_fuel(crate::c64_install::mapped_first, 15);
    reveal_with_fuel(crate::regtable::storage, 2);
    assert(crate::c64_install::windows_spec().len() == 14);
    assert(b.windows =~= m.windows + seq![
        port(0x1002_0000, 0x8000, d),
        port(0x1002_8000, 0x1000, d),
        port(0x1004_0000, 0x100, d),
        port(0x1005_0000, 0x1_0000, d),
        port(0x1010_0300, 0x100, d),
        port(0x1018_0000, 0x100, d),
        port(0x1018_0800, 0x800, d),
        port(0x1018_8000, 0x2000, d),
        port(0x1018_A000, 0x2000, d),
        port(0x1018_C000, 0x1000, d),
        port(0x1004_C000, 0x1000, d),
        port(0x1004_4000, 0x1000, d),
        port(0x1004_8000, 0x2000, d),
        port(0x1010_0500, 0x100, d),
    ] + seq![
        own(0x1004_2000, 0x1000, d + 1),
        own(0x1004_6000, 0x800, d + 2),
        own(0x1018_1000, 0x100, d + 3),
        own(0x1018_1800, 0x100, d + 4),
        own(0x1018_2000, 0x200, d + 5),
        own(0x1018_4000, 0x2000, d + 6),
    ]);
    assert(names(b.devices) =~= names(m.devices) + seq![
        "c64"@,
        "legacy-sid"@,
        "cart-timing"@,
        "c64-pld"@,
        "u64-debug"@,
        "c64-glyph"@,
        "ultisid"@,
    ]);
}

/// A window holds its bytes and no others, and the offset counts from its origin.
pub proof fn windows_hold_their_bytes(w: Window, addr: u32)
    ensures
        w.holds(addr) == (w.base <= addr && addr - w.base < w.size),
        crate::iomap::lookup(seq![w], addr, 1) == if w.base <= addr && addr - w.base < w.size {
            Some((w.dev, (addr - w.origin) as u32))
        } else {
            None
        },
{
    reveal_with_fuel(crate::iomap::lookup, 2);
}

/// A C64 wants a tick 100,000 clocks after it last caught up; nothing else wants one.
pub proof fn only_the_c64_ticks<S>(d: DeviceState<S>)
    ensures
        crate::schedule::event(d) == (match d {
            DeviceState::C64(p) if p.c64 is Some => Some(p.regs.synced + 100_000),
            _ => None,
        }),
{
}

/// The deadline is the earliest tick that any device wants.
pub proof fn the_deadline_is_the_earliest<S>(devices: Seq<DeviceState<S>>, n: nat)
    requires
        n <= devices.len(),
    ensures
        ({
            let t = crate::schedule::earliest(devices, n);
            &&& t <= u64::MAX
            &&& forall|i: int|
                0 <= i < n ==> (crate::schedule::event(#[trigger] devices[i]) matches Some(e) ==> t
                    <= e)
            &&& t == u64::MAX || exists|i: int|
                0 <= i < n && crate::schedule::event(#[trigger] devices[i]) == Some(t)
        }),
    decreases n,
{
    if n > 0 {
        the_deadline_is_the_earliest(devices, (n - 1) as nat);
        let t = crate::schedule::earliest(devices, (n - 1) as nat);
        if t != u64::MAX {
            let i = choose|i: int|
                0 <= i < n - 1 && crate::schedule::event(#[trigger] devices[i]) == Some(t);
            assert(crate::schedule::event(devices[i]) == Some(t));
        }
        assert(devices[n - 1] == devices[n - 1]);
    }
}

/// A device that is not due is left as it is.
pub proof fn what_is_not_due_stays<B: C64Backend>(s: BusState<B::State>, now: u64, n: nat, i: int)
    requires
        n <= s.devices.len(),
        0 <= i < s.devices.len(),
        crate::schedule::event(s.devices[i]) matches Some(t) ==> t > now,
    ensures
        crate::schedule::ticked_first::<B>(s, now, n).devices[i] == s.devices[i],
        crate::schedule::ticked_first::<B>(s, now, n).devices.len() == s.devices.len(),
    decreases n,
{
    if n > 0 {
        what_is_not_due_stays::<B>(s, now, (n - 1) as nat, i);
    }
}

/// A device that is due ticks, if nothing before it is.
pub proof fn what_is_due_ticks<B: C64Backend>(s: BusState<B::State>, now: u64, n: nat)
    requires
        0 < n <= s.devices.len(),
        crate::schedule::event(s.devices[n - 1]) matches Some(t) && t <= now,
        forall|i: int|
            0 <= i < n - 1 ==> (crate::schedule::event(#[trigger] s.devices[i]) matches Some(t) ==> t
                > now),
    ensures
        ({
            let w = World {
                port: s.devices[n - 1]->C64_0,
                ddr: s.ddr,
                irq: s.irq,
                stall: s.stall,
            };
            let t = crate::c64_state::ticked::<B>(w, now);
            crate::schedule::ticked_first::<B>(s, now, n) == (BusState {
                devices: s.devices.update(n - 1, DeviceState::C64(t.port)),
                ddr: t.ddr,
                irq: t.irq,
                stall: t.stall,
            })
        }),
{
    nothing_is_due_before::<B>(s, now, (n - 1) as nat);
}

proof fn nothing_is_due_before<B: C64Backend>(s: BusState<B::State>, now: u64, n: nat)
    requires
        n <= s.devices.len(),
        forall|i: int|
            0 <= i < n ==> (crate::schedule::event(#[trigger] s.devices[i]) matches Some(t) ==> t
                > now),
    ensures
        crate::schedule::ticked_first::<B>(s, now, n) == s,
    decreases n,
{
    if n > 0 {
        nothing_is_due_before::<B>(s, now, (n - 1) as nat);
        assert(s.devices[n - 1] == s.devices[n - 1]);
    }
}

/// A tick brings the C64 up to the clock and then ticks both drives, A first.
pub proof fn a_tick_reaches_both_drives<B: C64Backend>(w: World<B::State>, now: u64)
    requires
        w.port.c64 is Some,
    ensures
        ({
            let v = crate::c64_state::finished::<B>(crate::c64_state::synced::<B>(w, now));
            crate::c64_state::ticked::<B>(w, now) == crate::port_laws::lent::<B>(
                crate::port_laws::lent::<B>(v, C64Call::DriveTick { unit: 0 }),
                C64Call::DriveTick { unit: 1 },
            )
        }),
{
    crate::c64_laws::nothing_loses_the_c64::<B>(w, now);
}

/// The C64's NMI is down while the firmware's mode, the firmware's RESTORE at register 9
/// of the matrix, or the host's RESTORE key pulls it.
pub proof fn three_pull_the_nmi<B: C64Backend>(w: World<B::State>)
    requires
        w.port.c64 is Some,
    ensures
        crate::c64_state::nmi_applied::<B>(w) == crate::port_laws::told::<B>(
            w,
            C64Call::Nmi(w.port.regs.nmi || w.port.tables.matrix.at(9) != 0 || w.port.regs.restore),
        ),
{
}

/// A zero written to `$D038` of the C64 takes an unlock back: high source 6 falls, and no
/// other write over the bus moves it.
pub proof fn unlocks_are_acknowledged<B: C64Backend>(
    w: World<B::State>,
    addr: u16,
    val: u8,
    now: u64,
)
    requires
        w.port.c64 is Some,
    ensures
        ({
            let v = crate::c64_state::synced::<B>(w, now);
            let call = C64Call::DmaWrite { addr, val, mem_only: v.port.mem_only() };
            let u = crate::c64_state::detected::<B>(crate::c64_state::called::<B>(v, call));
            let acked = addr == 0xD038 && val == 0 && crate::c64_state::has::<B>(
                u.port,
                Line::HasUci,
            );
            let irq = if acked {
                u.irq.with_high(6, false)
            } else {
                u.irq
            };
            crate::c64_state::written::<B>(w, (0x5_0000 + addr) as u32, val, now)
                == crate::c64_state::lines_taken::<B>(
                World { irq, stall: (u.stall + 326) as u64, ..u },
            )
        }),
{
    crate::c64_laws::nothing_loses_the_c64::<B>(w, now);
}

/// What the cartridge registers tell: both bits of a stop that was asked for, and the
/// C64's clock with the reset that is sensed.
pub proof fn cartridge_registers_tell<B: C64Backend>(p: PortState<B::State>, n: u32)
    requires
        n < 16,
    ensures
        crate::c64_state::cart_value::<B>(p, (0x4_0001 + 16 * n) as u32) == (if p.regs.stop {
            3u8
        } else {
            0
        }),
        p.c64 is Some && p.regs.reset ==> crate::c64_state::cart_value::<B>(
            p,
            (0x4_0003 + 16 * n) as u32,
        ) == 0x11,
        !(p.c64 is Some && p.regs.reset) ==> crate::c64_state::cart_value::<B>(
            p,
            (0x4_0003 + 16 * n) as u32,
        ) == p.tables.cart.at(3),
        p.c64 matches Some(s) ==> crate::c64_state::cart_value::<B>(p, (0x4_0006 + 16 * n) as u32)
            == (if B::line(s, Line::CartActive) {
            1u8
        } else {
            0
        }),
{
}

/// EXROM and GAME select the decode: both low 16 K, GAME alone Ultimax, else 8 K.
pub proof fn lines_select_the_decode(l: CartLines)
    requires
        l.exrom <= 1,
        l.game <= 1,
    ensures
        (crate::proxy::decode(l) == MapperType::Normal16k) == (2 * l.exrom + l.game == 0),
        (crate::proxy::decode(l) == MapperType::Ultimax) == (2 * l.exrom + l.game == 2),
        (crate::proxy::decode(l) == MapperType::Normal8k) == (l.game == 1),
{
}

/// An attached C64 gets the cartridge's ROM first and then runs up to the clock.
pub proof fn attaching_brings_a_c64_up<B: C64Backend>(
    p: PortState<B::State>,
    state: B::State,
    now: u64,
    detect: Option<u8>,
)
    ensures
        ({
            let q = crate::schedule::attached::<B>(p, state, now, detect);
            &&& q.c64 == Some(
                B::after(
                    B::after(state, C64Call::SetCartRom(p.regs.cart_rom), Seq::empty()),
                    C64Call::Advance(now),
                    Seq::empty(),
                ),
            )
            &&& q.regs.synced == now
            &&& q.tables == p.tables && q.stub == p.stub
            &&& q.regs.joy1 == p.regs.joy1 && q.regs.joy2 == p.regs.joy2 && q.regs.reset
                == p.regs.reset
            &&& detect is Some ==> q.regs.cart_detect == Some(
                B::byte(q.c64->0, crate::c64host::Peek::CartDetect),
            )
        }),
{
}

/// A millisecond is a hundred thousand clocks, up to the end of the clock.
pub proof fn milliseconds_are_clocks(ms: nat)
    ensures
        crate::timeline::clocks_at(ms) == if ms * 100_000 < 0x1_0000_0000_0000_0000 {
            ms * 100_000
        } else {
            0xFFFF_FFFF_FFFF_FFFF
        },
{
}

/// Without a C64 the stand-in answers on the bus and has the keyboard; the blocks of a C64
/// read 0 and take nothing.
pub proof fn the_stand_in_answers<B: C64Backend>(
    w: World<B::State>,
    addr: u16,
    val: u8,
    row: u8,
    col: u8,
    now: u64,
)
    requires
        w.port.c64 is None,
    ensures
        ({
            let at = (0x5_0000 + addr) as u32;
            &&& crate::c64_state::written::<B>(w, at, val, now).port.stub
                == w.port.stub.after_write(addr, val)
            &&& crate::c64_state::written::<B>(w, at, val, now).stall == (w.stall + 326) as u64
            &&& crate::c64_state::read::<B>(w, at, now).0 == w.port.stub.after_read(addr).peeked(addr)
            &&& crate::c64_state::read::<B>(w, at, now).1.port.stub == w.port.stub.after_read(addr)
            &&& crate::c64_state::read::<B>(w, at, now).1.stall == (w.stall + 326) as u64
            &&& crate::c64_state::keyed::<B>(w, row, col, true).port.stub == w.port.stub.keyed(
                row,
                col,
                true,
            )
            &&& crate::c64_state::peeked::<B>(w.port, at) == w.port.stub.peeked(addr)
            &&& addr < 0x1000 ==> crate::c64_state::peeked::<B>(w.port, (0x4_C000 + addr) as u32) == 0
                && crate::c64_state::written::<B>(w, (0x4_C000 + addr) as u32, val, now) == w
            &&& addr < 0x2000 ==> crate::c64_state::peeked::<B>(w.port, (0x4_8000 + addr) as u32) == 0
                && crate::c64_state::written::<B>(w, (0x4_8000 + addr) as u32, val, now) == w
            &&& addr < 0x8000 ==> crate::c64_state::peeked::<B>(w.port, (0x2_0000 + addr) as u32) == 0
        }),
{
    reveal(crate::c64_state::synced);
    reveal(crate::c64_state::lines_taken);
    reveal(crate::c64_state::peeked);
}

/// A write hands the cartridge over exactly if it releases the reset, forces the
/// cartridge, or writes a type while the reset is held.
pub proof fn writes_that_hand_over(r: PortRegs, reg: u32, v: u8)
    ensures
        r.hands_over(reg, v) == (reg == 0 && r.reset && v / 4 % 2 == 0 && v / 8 % 2 == 1 || reg == 6
            && v / 2 % 2 == 1 || reg == 5 && r.reset),
{
    crate::cart_bits::byte_bits(v);
}

/// The slot asks the command interface first: at its eight addresses it answers and takes
/// the write, and the cartridge hears of neither. Elsewhere the cartridge answers.
pub proof fn the_slot_asks_the_interface_first(
    p: ProxyState,
    uci: UciState,
    off: u32,
    addr: u16,
    val: u8,
    clk: u64,
)
    requires
        uci.valid(),
        uci.regs.enabled,
        off < 8,
    ensures
        ({
            let at = (0xDE00 + 8 * uci.regs.slot_base + off) as u16;
            &&& p.read(uci, at, clk) == Some(uci.c64_value(off) as u8)
            &&& crate::proxy::uci_after_read(uci, at) == uci.after_c64_read(off)
            &&& crate::proxy::uci_after_write(uci, at, val) == uci.after_c64_write(off, val)
            &&& p.after_write(uci, at, val, clk) == p
            &&& p.consumes(uci, at, clk)
        }),
        uci.regs.claimed(addr) is None ==> {
            let c = CartState { regs: CartRegs { clk, ..p.cart.regs }, ..p.cart };
            &&& p.read(uci, addr, clk) == c.peeked(addr)
            &&& p.after_read(uci, addr, clk).cart == c.after_read(addr)
            &&& p.after_write(uci, addr, val, clk).cart == c.after_write(addr, val)
            &&& p.after_write(uci, addr, val, clk).forced == p.forced
            &&& p.consumes(uci, addr, clk) == c.regs.consumes(addr, p.forced)
        },
{
}

/// A forced decode is GAME low with EXROM high; without it the cartridge drives the lines.
pub proof fn a_forced_decode_is_ultimax(p: ProxyState)
    ensures
        p.forced ==> p.lines() == (CartLines { exrom: 1, game: 0 }),
        !p.forced ==> p.lines() == p.cart.regs.lines(),
{
}

/// A cartridge-detect register that is there shows the physical cartridge's lines as of
/// the last look; nothing else moves.
pub proof fn detection_follows_the_cartridge<B: C64Backend>(w: World<B::State>)
    ensures
        ({
            let v = crate::c64_state::detected::<B>(w);
            &&& w.port.regs.cart_detect is Some && w.port.c64 is Some ==> v == (World {
                port: PortState {
                    regs: PortRegs {
                        cart_detect: Some(B::byte(w.port.c64->0, crate::c64host::Peek::CartDetect)),
                        ..w.port.regs
                    },
                    ..w.port
                },
                ..w
            })
            &&& w.port.regs.cart_detect is None || w.port.c64 is None ==> v == w
        }),
{
}

/// An access to the cartridge, the bus, the matrix or a drive, or to a block that the C64
/// has, finds the C64 caught up: it is the access that comes after the C64 has run to the
/// clock.
pub proof fn accesses_catch_up_first<B: C64Backend>(w: World<B::State>, off: u32, val: u8, now: u64)
    requires
        ({
            let v = crate::c64_state::synced::<B>(w, now);
            let both = |l: Line|
                crate::c64_state::has::<B>(w.port, l) && crate::c64_state::has::<B>(v.port, l);
            ||| 0x4_0000 <= off < 0x4_0100
            ||| 0x5_0000 <= off < 0x6_0000
            ||| 0x10_0300 <= off < 0x10_0400
            ||| 0x2_0000 <= off < 0x2_8000
            ||| 0x4_4000 <= off < 0x4_5000 && both(Line::HasUci)
            ||| 0x2_8000 <= off < 0x2_9000 && both(Line::HasIec)
            ||| 0x4_8000 <= off < 0x4_A000 && both(Line::HasSampler)
        }),
    ensures
        crate::c64_state::written::<B>(w, off, val, now) == crate::c64_state::written::<B>(
            crate::c64_state::synced::<B>(w, now),
            off,
            val,
            now,
        ),
        crate::c64_state::read::<B>(w, off, now) == crate::c64_state::read::<B>(
            crate::c64_state::synced::<B>(w, now),
            off,
            now,
        ),
        w.port.c64 is Some && now > w.port.regs.synced ==> crate::c64_state::synced::<B>(
            w,
            now,
        ).port.c64 == Some(B::after(w.port.c64->0, C64Call::Advance(now), w.ddr)),
{
    let v = crate::c64_state::synced::<B>(w, now);
    assert(crate::c64_state::synced::<B>(v, now) == v) by {
        reveal(crate::c64_state::synced);
    }
    assert(w.port.c64 is Some && now > w.port.regs.synced ==> v.port.c64 == Some(
        B::after(w.port.c64->0, C64Call::Advance(now), w.ddr),
    )) by {
        reveal(crate::c64_state::synced);
    }
}

/// After an access the detect register is current, and the interrupt lines are those of
/// the C64 as it is then.
pub proof fn accesses_end_with_the_lines<B: C64Backend>(w: World<B::State>)
    requires
        w.port.c64 is Some,
    ensures
        ({
            let v = crate::c64_state::finished::<B>(w);
            let s = w.port.c64->0;
            let drives = w.irq.with_high(1, B::line(s, Line::DriveIrq(0))).with_high(
                2,
                B::line(s, Line::DriveIrq(1)),
            );
            &&& w.port.regs.cart_detect is Some ==> v.port.regs.cart_detect == Some(
                B::byte(s, crate::c64host::Peek::CartDetect),
            )
            &&& w.port.regs.cart_detect is None ==> v.port.regs.cart_detect is None
            &&& !B::line(s, Line::HasUci) ==> v.irq == drives && v.port.c64 == w.port.c64
            &&& B::line(s, Line::HasUci) ==> v.irq == crate::c64_state::events_taken(
                drives.with_level(4, B::line(s, Line::UciIrq)),
                B::events(s),
            )
            &&& v.ddr == w.ddr && v.stall == w.stall
        }),
{
    reveal(crate::c64_state::lines_taken);
}

} // verus!
