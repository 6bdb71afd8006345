//! What holds of the cartridge logic as a whole.
use crate::cart_state::{
    CartLines, CartRegs, CartState, Freeze, Memory, Mode, Out, ACTION, BBASIC, CART_TYPE_NONE,
    EASY_FLASH, EPYX, GEORAM, GEORAM_SIZE, OCEAN_8K, RAM_SIZE, ROM_SIZE,
};
use vstd::prelude::*;

verus! {

/// A cartridge that is off drives neither EXROM nor GAME, and serves nothing in
/// the ROM windows.
pub proof fn off_means_off(s: CartState, addr: u16)
    requires
        !s.regs.cart_en,
    ensures
        s.regs.lines() == (CartLines { exrom: 1, game: 1 }),
        !(0xDE00 <= addr < 0xE000) ==> s.peeked(addr) is None,
{
}

/// The cycle count decides nothing but Epyx FastLoad's EXROM.
pub proof fn time_moves_exrom_only(r: CartRegs, addr: u16, write: bool, clk: u64)
    ensures
        ({
            let t = CartRegs { clk, ..r };
            let o = r.outputs(addr, write);
            &&& t.outputs(addr, write) == (Out { exrom_n: t.outputs(addr, write).exrom_n, ..o })
            &&& r.logic != EPYX ==> t.outputs(addr, write) == o
            &&& t.decoded(addr) == r.decoded(addr)
        }),
{
}

/// EXROM, GAME, NMI and IRQ do not depend on the bus, neither on its address nor
/// on whether it writes, but in Business Basic's dynamic mode and for the writes
/// of Atomic Power's mode 110 to `$A000-$BFFF`.
pub proof fn lines_ignore_the_bus(r: CartRegs, addr: u16, write: bool)
    requires
        !(r.logic == BBASIC && !r.mode.b0),
        !(r.logic == ACTION && r.variant & 2 != 0 && r.mode == (Mode {
            b2: true,
            b1: true,
            b0: false,
        }) && !r.act() && write && 0xA000 <= addr < 0xC000),
    ensures
        ({
            let (o, q) = (r.outputs(addr, write), r.outputs(0, false));
            (o.game_n, o.exrom_n, o.nmi_n, o.irq_n) == (q.game_n, q.exrom_n, q.nmi_n, q.irq_n)
        }),
{
}

/// A peek returns what the next read returns, at whatever cycle it comes and
/// however many peeks come before it, and a read changes no memory.
pub proof fn peek_is_read(s: CartState, addr: u16, clk: u64)
    ensures
        s.at(clk).peeked(addr) == s.peeked(addr),
        s.at(clk).after_read(addr).ddr == s.ddr,
{
    time_moves_exrom_only(s.regs, addr, false, clk);
    assert(s.at(clk).served(addr) == s.served(addr));
}

/// Without lent memory no ROM window is served.
pub proof fn no_memory_no_data(s: CartState, addr: u16)
    requires
        s.ddr is None,
        !(0xDE00 <= addr < 0xE000),
    ensures
        s.peeked(addr) is None,
{
}

/// Settling twice changes no more than settling once.
pub proof fn settling_settles(r: CartRegs)
    ensures
        r.settled().settled() == r.settled(),
{
}

/// The reset line switches every cartridge on but type 0, and takes a type
/// afresh: what the registers held before does not matter, but for the freezer
/// and the EEPROM.
pub proof fn reset_enables(r: CartRegs, q: CartRegs, logic: u8, variant: u8, clk: u64)
    ensures
        r.taken(logic, variant, true, clk).cart_en == (logic != CART_TYPE_NONE),
        r.taken(logic, variant, true, clk).taken(logic, variant, true, clk) == r.taken(
            logic,
            variant,
            true,
            clk,
        ),
        (q.layout, q.eeprom_out, q.freeze, q.button) == (r.layout, r.eeprom_out, r.freeze, r.button)
            ==> q.taken(logic, variant, true, clk) == r.taken(logic, variant, true, clk),
{
}

/// A force leaves a cartridge off, and so does a kill, but for the type that
/// drives its enable on every clock.
pub proof fn force_and_kill_disable(r: CartRegs, logic: u8, variant: u8, clk: u64)
    ensures
        logic != OCEAN_8K ==> !r.taken(logic, variant, false, clk).cart_en,
        r.logic != OCEAN_8K ==> !r.killed().cart_en,
        r.logic == OCEAN_8K ==> r.killed().cart_en == !r.mode.b0,
        !r.killed().hold_nmi,
        !r.killed().act(),
{
}

/// Only a type with a freezer ever leaves the idle phase.
pub proof fn only_freezers_freeze(r: CartRegs, down: bool)
    requires
        !crate::cart_state::is_freezer(r.logic),
    ensures
        r.settled().freeze == Freeze::Idle,
        r.button_set(down).freeze == Freeze::Idle,
        !r.button_set(down).hints().freeze_pending,
{
}

/// A push of the button pulls NMI on a freezer; once the 6510 has taken it the
/// cartridge is on, in its first bank, and pulls NMI still.
pub proof fn a_push_freezes(r: CartRegs)
    requires
        r.valid(),
        crate::cart_state::is_freezer(r.logic),
        r.freeze == Freeze::Idle,
        !r.button,
    ensures
        r.button_set(true).hints().freeze_pending,
        !r.button_set(true).outputs(0, false).nmi_n,
        r.button_set(true).freeze_entered().act(),
        r.button_set(true).freeze_entered().cart_en,
        r.button_set(true).freeze_entered().bank == 0,
        !r.button_set(true).freeze_entered().outputs(0, false).nmi_n,
        !r.button_set(true).freeze_entered().hints().freeze_pending,
{
}

/// Once the 6510 has taken the interrupt of a triggered freeze, every freezer is
/// in ULTIMAX: EXROM high and GAME low.
pub proof fn a_freeze_is_ultimax(r: CartRegs)
    requires
        r.valid(),
        r.trig(),
    ensures
        r.freeze_entered().act(),
        r.freeze_entered().lines() == (CartLines { exrom: 1, game: 0 }),
{
}

/// A freezer that was left waits for the button and is idle once it is up.
pub proof fn release_ends_the_freeze(r: CartRegs)
    requires
        r.freeze == Freeze::Button,
    ensures
        r.button_set(false).freeze == Freeze::Idle,
        crate::cart_state::is_freezer(r.logic) ==> r.button_set(true).freeze == Freeze::Button,
{
}

/// Every address resolves into its own region of the lent memory.
pub proof fn addresses_stay_in_their_region(r: CartRegs, addr: u16, write: bool)
    requires
        r.valid(),
    ensures
        ({
            let o = r.outputs(addr, write);
            &&& r.layout.rom <= r.offset(addr, Memory::Rom, o) < r.layout.rom + ROM_SIZE
            &&& r.layout.ram <= r.offset(addr, Memory::Ram, o) < r.layout.ram + RAM_SIZE
            &&& r.layout.geo <= r.offset(addr, Memory::Geo, o) < r.layout.geo + GEORAM_SIZE
        }),
{
    assert(0 <= r.geo_page() < 0x1_0000);
}

/// What a write stored in cartridge memory, a read at the same address gives
/// back: wherever the decoder lets the write through, the window is served, and
/// the write is no register write as well.
pub proof fn writes_read_back(s: CartState, addr: u16, val: u8)
    requires
        s.regs.decoded(addr).1,
        s.peeked(addr) is Some,
        s.regs.after_write(addr, val) == s.regs,
    ensures
        s.after_write(addr, val).peeked(addr) == Some(val),
{
    let r = s.regs;
    let a = r.outputs(addr, false);
    let b = r.outputs(addr, true);
    assert(a.a13 == b.a13 && a.a14 == b.a14);
    assert(r.offset(addr, r.decoded(addr).0, a) == r.offset(addr, r.decoded(addr).0, b));
    if 0xDE00 <= addr < 0xE000 {
        if r.logic == ACTION && addr & 0x1FE == 0 {
            assert(addr & 0x1FE == 0 && 0xDE00 <= addr < 0xE000 ==> addr < 0xDE02) by (bit_vector);
        }
    }
    assert(s.served(addr) is Some);
    assert(s.after_write(addr, val).served(addr) == Some(val));
}

/// An access at one address leaves every other byte of the lent memory alone.
pub proof fn writes_touch_one_byte(s: CartState, addr: u16, val: u8)
    ensures
        s.ddr is None ==> s.after_write(addr, val).ddr is None,
        s.ddr matches Some(d) ==> (s.after_write(addr, val).ddr matches Some(e) && e.len() == d.len()
            && forall|i: int|
            0 <= i < d.len() && i != s.regs.offset(
                addr,
                s.regs.decoded(addr).0,
                s.regs.outputs(addr, true),
            ) ==> e[i] == d[i]),
{
}

/// Ocean cartridges bank 8 K of ROM: after bank `b` is written to IO1, ROML
/// reads the first half of that 16 K bank.
pub proof fn ocean_banks(s: CartState, io: u16, b: u8, k: u16)
    requires
        s.regs.valid(),
        s.regs.logic == OCEAN_8K,
        s.regs.variant & 3 == 0,
        !s.regs.mode.b0,
        0xDE00 <= io < 0xDF00,
        k < 0x2000,
        s.ddr matches Some(d) && s.regs.layout.rom + ROM_SIZE <= d.len(),
    ensures
        s.after_write(io, b).peeked((0x8000 + k) as u16) == Some(
            s.ddr->0[s.regs.layout.rom + (b % 64) * 0x4000 + k],
        ),
{
    let addr = (0x8000 + k) as u16;
    assert(io & 0x1FF & 0x100 == 0) by (bit_vector)
        requires
            0xDE00 <= io < 0xDF00,
    ;
    assert(b & 0x3F == b % 64) by (bit_vector);
    assert(s.regs.variant & 3 != 1);
    let t = s.after_write(io, b);
    assert(t.regs.bank == b % 64);
    assert(t.regs.cart_en);
}

/// GeoRAM and EasyFlash RAM give back what was written to them.
pub proof fn ram_windows_read_back(s: CartState, addr: u16, val: u8)
    requires
        s.regs.valid(),
        s.regs.cart_en,
        s.regs.freeze == Freeze::Idle,
        s.regs.logic == GEORAM && 0xDE00 <= addr < 0xDF00 || s.regs.logic == EASY_FLASH && 0xDF00
            <= addr < 0xE000,
        s.ddr matches Some(d) && s.regs.layout.geo + GEORAM_SIZE <= d.len() && s.regs.layout.ram
            + RAM_SIZE <= d.len(),
    ensures
        s.after_write(addr, val).peeked(addr) == Some(val),
{
    addresses_stay_in_their_region(s.regs, addr, false);
    assert(0xDE00 <= addr < 0xDF00 ==> (addr & 0x1FF & 0x180 != 0x180 && addr & 0x100 == 0)) by (bit_vector);
    assert(0xDF00 <= addr < 0xE000 ==> (addr & 0x1FF & 0x100 != 0 && addr & 0x100 != 0)) by (bit_vector);
    writes_read_back(s, addr, val);
}

/// Epyx FastLoad is off the bus from the announced cycle on, and on it before.
pub proof fn epyx_deadline(r: CartRegs, clk: u64)
    requires
        r.valid(),
        r.logic == EPYX,
        r.cart_en,
    ensures
        ({
            let t = CartRegs { clk, ..r };
            (r.hints().deadline matches Some(d) ==> (t.lines().exrom == 1 <==> clk >= d))
        }),
{
}

} // verus!
