//! What each cartridge type is for: which bytes of its ROM and RAM the C64 sees
//! after which accesses, and which mode it is in.
use crate::cart_bits::{bank_bits, byte_bits, io_bits, rom_bits};
use crate::cart_state::{CartLines, CartRegs, CartState, Freeze};
use vstd::prelude::*;

verus! {

/// A cartridge of type `logic` that is on, with all its memory lent to it.
pub open spec fn running(s: CartState, logic: u8) -> bool {
    &&& s.regs.valid()
    &&& s.regs.logic == logic
    &&& s.regs.cart_en
    &&& s.ddr is Some
    &&& s.regs.layout.rom + 0x40_0000 <= s.ddr->0.len()
    &&& s.regs.layout.ram + 0x1_0000 <= s.ddr->0.len()
    &&& s.regs.layout.geo + 0x100_0000 <= s.ddr->0.len()
}

/// Byte `i` of the 16 K ROM bank `bank`, ROML in its first half, ROMH in its second.
pub open spec fn rom_byte(s: CartState, bank: int, i: int) -> Option<u8> {
    Some(s.ddr->0[s.regs.layout.rom + bank * 0x4000 + i])
}

/// Byte `i` of the 8 K RAM bank `bank`.
pub open spec fn ram_byte(s: CartState, bank: int, i: int) -> Option<u8> {
    Some(s.ddr->0[s.regs.layout.ram + bank * 0x2000 + i])
}

/// EXROM and GAME, 1 for high.
pub open spec fn drives(r: CartRegs, exrom: int, game: int) -> bool {
    r.lines() == (CartLines { exrom: exrom as u8, game: game as u8 })
}

/// The C64 sees 16 K of bank `bank`: ROML at `$8000`, ROMH at `$A000` and `$E000`.
#[verifier::opaque]
pub open spec fn shows_16k(s: CartState, bank: int) -> bool {
    forall|k: u16|
        k < 0x2000 ==> {
            &&& #[trigger] s.peeked((0x8000 + k) as u16) == rom_byte(s, bank, k as int)
            &&& s.peeked((0xA000 + k) as u16) == rom_byte(s, bank, 0x2000 + k)
            &&& s.peeked((0xE000 + k) as u16) == rom_byte(s, bank, 0x2000 + k)
        }
}

/// The C64 sees 8 K of bank `bank`, in every ROM window.
#[verifier::opaque]
pub open spec fn shows_8k(s: CartState, bank: int) -> bool {
    forall|k: u16|
        k < 0x2000 ==> {
            &&& #[trigger] s.peeked((0x8000 + k) as u16) == rom_byte(s, bank, k as int)
            &&& s.peeked((0xA000 + k) as u16) == rom_byte(s, bank, k as int)
            &&& s.peeked((0xE000 + k) as u16) == rom_byte(s, bank, k as int)
        }
}

/// A cartridge that is on with its ROM lent to it, and shows that ROM.
spec fn has_rom(s: CartState) -> bool {
    &&& s.regs.valid()
    &&& s.regs.cart_en
    &&& s.ddr is Some
    &&& s.regs.layout.rom + 0x40_0000 <= s.ddr->0.len()
}

/// Types whose windows show both halves of the bank.
proof fn whole_banks(s: CartState)
    requires
        has_rom(s),
        ({
            let l = s.regs.logic;
            ||| l == 0x01
            ||| l == 0x02
            ||| l == 0x04
            ||| l == 0x05
            ||| l == 0x07
            ||| l == 0x09
            ||| 0x0B <= l <= 0x0E
            ||| l == 0x0F && s.regs.variant & 1 != 0
            ||| l == 0x10 && !(s.regs.mode.b1 && !s.regs.mode.b0)
            ||| l == 0x11
            ||| l == 0x18
            ||| l == 0x19
            ||| l == 0x1C
        }),
    ensures
        shows_16k(s, s.regs.bank as int),
{
    reveal(shows_16k);
}

/// Types whose windows show the first half of the bank alone.
proof fn half_banks(s: CartState)
    requires
        has_rom(s),
        s.regs.logic == 0x08 || s.regs.logic == 0x0A || (s.regs.logic == 0x0F && s.regs.variant & 1
            == 0),
    ensures
        shows_8k(s, s.regs.bank as int),
{
    reveal(shows_8k);
}

/// A normal cartridge: the variant's two bits are EXROM and GAME, the whole first
/// bank is seen, and only a write of `01` in bits 7:6 to `$DFFF` switches it off.
pub proof fn normal_cartridge(s: CartState, io: u16, v: u8)
    requires
        running(s, 0x01),
        0xDE00 <= io < 0xE000,
    ensures
        drives(s.regs, (s.regs.variant % 2) as int, (s.regs.variant / 2 % 2) as int),
        shows_16k(s, s.regs.bank as int),
        s.after_write(io, v).regs.cart_en == !(io == 0xDFFF && v / 64 == 1),
        s.after_write(io, v).regs.bank == s.regs.bank,
        s.after_write(io, v).ddr == s.ddr,
        !s.after_write(io, v).regs.cart_en ==> drives(s.after_write(io, v).regs, 1, 1),
{
    whole_banks(s);
    byte_bits(s.regs.variant);
    byte_bits(v);
    io_bits(io);
}

/// EasyFlash: `$DE00` takes the bank, all eight bits of it.
pub proof fn easyflash_banks(s: CartState, io: u16, b: u8)
    requires
        running(s, 0x11),
        0xDE00 <= io < 0xDF00,
        io % 16 == 0,
    ensures
        shows_16k(s.after_write(io, b), b as int),
        s.after_write(io, b).regs.lines() == s.regs.lines(),
        s.after_write(io, b).ddr == s.ddr,
{
    whole_banks(s.after_write(io, b));
    io_bits(io);
}

/// EasyFlash: `$DE02` takes the mode. EXROM is low with bit 1, GAME is low with bit 0
/// or without bit 2; the bank stays.
pub proof fn easyflash_modes(s: CartState, io: u16, v: u8)
    requires
        running(s, 0x11),
        0xDE00 <= io < 0xDF00,
        io % 16 == 2,
    ensures
        drives(
            s.after_write(io, v).regs,
            1 - v / 2 % 2,
            if v % 2 == 0 && v / 4 % 2 == 1 {
                1
            } else {
                0
            },
        ),
        shows_16k(s.after_write(io, v), s.regs.bank as int),
{
    whole_banks(s.after_write(io, v));
    io_bits(io);
    byte_bits(v);
}

/// EasyFlash: only after `$65` to `$DE09`, and before any other register write, a
/// write in mode 5 to ROML or to ROMH at `$E000` lands in the bank, at the place
/// where it is read. No other write to a ROM window changes anything.
pub proof fn easyflash_flash_writes(s: CartState, addr: u16, val: u8)
    requires
        running(s, 0x11),
        0x8000 <= addr < 0xA000 || 0xA000 <= addr < 0xC000 || addr >= 0xE000,
    ensures
        ({
            let open = s.regs.ef_write && s.regs.mode.b2 && !s.regs.mode.b1 && s.regs.mode.b0;
            let at = s.regs.layout.rom + s.regs.bank * 0x4000 + (if addr >= 0xA000 {
                0x2000int
            } else {
                0
            }) + addr % 0x2000;
            let t = s.after_write(addr, val);
            &&& t.regs == s.regs
            &&& open && !(0xA000 <= addr < 0xC000) ==> t.ddr == Some(s.ddr->0.update(at, val))
                && t.peeked(addr) == Some(val)
            &&& !open || 0xA000 <= addr < 0xC000 ==> t == s
        }),
{
}

/// EasyFlash: the flash key is `$65` at `$DE09`; every other register write takes it
/// away.
pub proof fn easyflash_key(s: CartState, io: u16, v: u8)
    requires
        running(s, 0x11),
        0xDE00 <= io < 0xDF00,
    ensures
        s.after_write(io, v).regs.ef_write == (io % 16 == 9 && v == 0x65),
        io % 16 != 0 ==> s.after_write(io, v).regs.bank == s.regs.bank,
        io % 16 != 2 ==> s.after_write(io, v).regs.lines() == s.regs.lines(),
        s.after_write(io, v).regs.cart_en,
        s.after_write(io, v).ddr == s.ddr,
{
    io_bits(io);
}

/// EasyFlash: `$DF00-$DFFF` is the last page of the first RAM bank.
pub proof fn easyflash_ram(s: CartState, k: u16, val: u8)
    requires
        running(s, 0x11),
        k < 0x100,
    ensures
        s.peeked((0xDF00 + k) as u16) == ram_byte(s, s.regs.ram_bank as int, 0x1F00 + k),
        s.after_write((0xDF00 + k) as u16, val) == (CartState {
            ddr: Some(
                s.ddr->0.update(
                    s.regs.layout.ram + s.regs.ram_bank * 0x2000 + 0x1F00 + k,
                    val,
                ),
            ),
            ..s
        }),
{
    io_bits((0xDF00 + k) as u16);
}

/// Ocean 8 K, Magic Desk and GMOD2 take the bank from the low six bits. Bit 7 of a
/// Magic Desk and bit 6 of a GMOD2 switch the cartridge off.
pub proof fn ocean_registers(s: CartState, io: u16, v: u8)
    requires
        s.regs.valid(),
        s.regs.logic == 0x08,
        s.ddr is Some,
        s.regs.layout.rom + 0x40_0000 <= s.ddr->0.len(),
        0xDE00 <= io < 0xDF00,
        s.regs.variant % 4 == 0 ==> !s.regs.mode.b0,
    ensures
        ({
            let t = s.after_write(io, v);
            let off = s.regs.variant % 4 == 1 && v / 128 == 1 || s.regs.variant % 4 == 2 && v / 64
                % 2 == 1;
            &&& s.regs.variant % 4 < 3 ==> t.regs.cart_en == !off
            &&& s.regs.variant % 4 < 3 && !off ==> shows_8k(t, (v % 64) as int) && drives(
                t.regs,
                0,
                1,
            )
            &&& s.regs.variant % 4 < 3 && off ==> drives(t.regs, 1, 1)
            &&& s.regs.variant % 4 == 2 ==> t.regs.eeprom_pins.cs == (v / 64 % 2 == 1)
                && t.regs.eeprom_pins.clk == (v / 32 % 2 == 1) && t.regs.eeprom_pins.di == (v / 16
                % 2 == 1)
            &&& t.ddr == s.ddr
        }),
{
    if s.after_write(io, v).regs.cart_en {
        half_banks(s.after_write(io, v));
    }
    io_bits(io);
    byte_bits(v);
    byte_bits(s.regs.variant);
}

/// Ocean 16 K: the bank is the byte written, and both halves of it are seen.
pub proof fn ocean_16k_banks(s: CartState, io: u16, v: u8)
    requires
        running(s, 0x09),
        0xDE00 <= io < 0xDF00,
    ensures
        shows_16k(s.after_write(io, v), v as int),
        drives(s.after_write(io, v).regs, 0, 0),
        s.after_write(io, v).ddr == s.ddr,
{
    whole_banks(s.after_write(io, v));
    io_bits(io);
}

/// System 3: a write to IO1 selects the bank, a read of IO1 the first.
pub proof fn system3_banks(s: CartState, io: u16, v: u8)
    requires
        running(s, 0x0A),
        0xDE00 <= io < 0xDF00,
    ensures
        shows_8k(s.after_write(io, v), v as int),
        drives(s.after_write(io, v).regs, 0, 1),
        shows_8k(s.after_read(io), 0),
        drives(s.after_read(io).regs, 0, 1),
{
    half_banks(s.after_write(io, v));
    half_banks(s.after_read(io));
    io_bits(io);
}

/// Megabyter: `$DE00` takes the bank and `$DE02` the mode. Bit 1 of the mode is
/// EXROM, bit 0 is GAME, the other way round without the variant.
pub proof fn megabyter_registers(s: CartState, io: u16, v: u8)
    requires
        running(s, 0x0F),
        0xDE00 <= io < 0xDF00,
    ensures
        ({
            let t = s.after_write(io, v);
            let whole = s.regs.variant % 2 == 1;
            &&& io / 2 % 2 == 0 ==> t.regs.lines() == s.regs.lines() && (if whole {
                shows_16k(t, v as int)
            } else {
                shows_8k(t, v as int)
            })
            &&& io / 2 % 2 == 1 ==> t.regs.bank == s.regs.bank && drives(
                t.regs,
                (v / 2 % 2) as int,
                if whole {
                    (v % 2) as int
                } else {
                    1 - v % 2
                },
            )
            &&& t.ddr == s.ddr
        }),
{
    if s.regs.variant & 1 != 0 {
        whole_banks(s.after_write(io, v));
    } else {
        half_banks(s.after_write(io, v));
    }
    io_bits(io);
    byte_bits(v);
    byte_bits(s.regs.variant);
}

/// Super Games: a write to IO2 selects one of four banks, with bit 2 for both lines;
/// bits 2 and 3 together switch the cartridge off, and bit 3 locks the register.
#[verifier::rlimit(60)]
pub proof fn supergames_registers(s: CartState, io: u16, v: u8)
    requires
        running(s, 0x0B),
        0xDF00 <= io < 0xE000,
        !(s.regs.mode.b0 && s.regs.mode.b1),
    ensures
        ({
            let t = s.after_write(io, v);
            &&& s.regs.mode.b1 ==> t == s
            &&& !s.regs.mode.b1 ==> {
                &&& t.regs.cart_en == (v / 4 % 4 != 3)
                &&& t.regs.mode.b1 == (v / 8 % 2 == 1)
                &&& v / 4 % 4 != 3 ==> shows_16k(t, s.regs.bank - s.regs.bank % 4 + v % 4)
                    && drives(t.regs, (v / 4 % 2) as int, (v / 4 % 2) as int)
            }
        }),
{
    io_bits(io);
    byte_bits(v);
    bank_bits(s.regs.bank, v);
    if s.after_write(io, v).regs.cart_en {
        whole_banks(s.after_write(io, v));
    }
}

/// Black Box 8: a write to IO2 selects one of four banks by bits 3:2, with bit 1 for
/// GAME and bit 0 for EXROM.
pub proof fn blackbox8_registers(s: CartState, io: u16, v: u8)
    requires
        running(s, 0x0C),
        0xDF00 <= io < 0xE000,
    ensures
        shows_16k(s.after_write(io, v), s.regs.bank - s.regs.bank % 4 + v / 4 % 4),
        drives(s.after_write(io, v).regs, (v % 2) as int, (v / 2 % 2) as int),
{
    whole_banks(s.after_write(io, v));
    io_bits(io);
    byte_bits(v);
    bank_bits(s.regs.bank, v);
}

/// Zaxxon: a read of ROML selects the bank by the half that it hits, from the next
/// read on.
pub proof fn zaxxon_banks(s: CartState, k: u16)
    requires
        running(s, 0x0D),
        k < 0x2000,
    ensures
        s.peeked((0x8000 + k) as u16) == rom_byte(s, s.regs.bank as int, k as int),
        shows_16k(
            s.after_read((0x8000 + k) as u16),
            s.regs.bank - s.regs.bank % 2 + k / 0x1000,
        ),
        drives(s.after_read((0x8000 + k) as u16).regs, 0, 0),
{
    whole_banks(s.after_read((0x8000 + k) as u16));
    rom_bits((0x8000 + k) as u16);
    bank_bits(s.regs.bank, 0);
}

/// Black Box 9: the address of an IO1 access is the register. Bit 7 is the bank,
/// inverted on a write; bit 6 is EXROM, bit 0 is GAME.
pub proof fn blackbox9_registers(s: CartState, io: u16, v: u8)
    requires
        running(s, 0x0E),
        0xDE00 <= io < 0xDF00,
    ensures
        shows_16k(s.after_write(io, v), s.regs.bank - s.regs.bank % 2 + 1 - io / 128 % 2),
        shows_16k(s.after_read(io), s.regs.bank - s.regs.bank % 2 + io / 128 % 2),
        drives(s.after_write(io, v).regs, (io / 64 % 2) as int, (io % 2) as int),
        drives(s.after_read(io).regs, (io / 64 % 2) as int, (io % 2) as int),
{
    whole_banks(s.after_write(io, v));
    whole_banks(s.after_read(io));
    io_bits(io);
    bank_bits(s.regs.bank, v);
}

/// Pagefox: a write to `$DE80-$DEFF` selects one of four banks by bits 2:1, both
/// lines by bit 4, and with bits 3:2 equal to `10` the RAM instead of the ROM.
#[verifier::rlimit(60)]
pub proof fn pagefox_registers(s: CartState, io: u16, v: u8, k: u16, val: u8)
    requires
        running(s, 0x10),
        0xDE80 <= io < 0xDF00,
        k < 0x4000,
    ensures
        ({
            let t = s.after_write(io, v);
            let addr = (0x8000 + k) as u16;
            let ram = v / 4 % 4 == 2;
            let at = (s.regs.ram_bank / 4 * 4 + v / 2 % 2 * 2) as int;
            &&& drives(t.regs, (v / 16 % 2) as int, (v / 16 % 2) as int)
            &&& !ram ==> shows_16k(t, s.regs.bank - s.regs.bank % 4 + v / 2 % 4)
            &&& ram ==> t.peeked(addr) == ram_byte(t, at, k as int)
            &&& ram ==> t.after_write(addr, val) == (CartState {
                ddr: Some(t.ddr->0.update(s.regs.layout.ram + at * 0x2000 + k, val)),
                ..t
            })
            &&& !ram ==> t.after_write(addr, val) == t
            &&& t.ddr == s.ddr
        }),
{
    io_bits(io);
    byte_bits(v);
    bank_bits(s.regs.bank, v);
    if !(v / 4 % 4 == 2) {
        whole_banks(s.after_write(io, v));
    }
    let t = s.after_write(io, v);
    let addr = (0x8000 + k) as u16;
    assert(t.regs.ram_bank == s.regs.ram_bank / 4 * 4 + s.regs.ram_bank % 2 + v / 2 % 2 * 2);
    assert(t.regs.ram_bank - t.regs.ram_bank % 2 == s.regs.ram_bank / 4 * 4 + v / 2 % 2 * 2);
    assert(t.regs.mode.b1 == (v / 8 % 2 == 1) && t.regs.mode.b0 == (v / 4 % 2 == 1));
}

/// GeoRAM: two registers select a page of 256 bytes, which is read and written in
/// IO1. The even one holds bits 15:14 and 5:0 of the page, the odd one bits 13:6.
pub proof fn georam_pages(s: CartState, even: u16, odd: u16, e: u8, o: u8, k: u16, val: u8)
    requires
        running(s, 0x1F),
        0xDF80 <= even < 0xE000,
        even % 2 == 0,
        0xDF80 <= odd < 0xE000,
        odd % 2 == 1,
        k < 0x100,
    ensures
        ({
            let t = s.after_write(even, e).after_write(odd, o);
            let addr = (0xDE00 + k) as u16;
            let at = s.regs.layout.geo + (e / 64 * 0x4000 + o * 64 + e % 64) * 0x100 + k;
            &&& t == s.after_write(odd, o).after_write(even, e)
            &&& t.peeked(addr) == Some(s.ddr->0[at])
            &&& t.after_write(addr, val) == (CartState { ddr: Some(s.ddr->0.update(at, val)), ..t })
            &&& drives(t.regs, 1, 1)
        }),
{
    io_bits(even);
    io_bits(odd);
    io_bits((0xDE00 + k) as u16);
}

/// Epyx FastLoad: for 512 cycles from a read of IO1 or ROML its ROM is in at `$8000`,
/// then it is off the bus; its last page stays in IO2.
pub proof fn epyx_timer(s: CartState, addr: u16, then: u64, k: u16)
    requires
        running(s, 0x02),
        0xDE00 <= addr < 0xDF00 || 0x8000 <= addr < 0xA000,
        s.regs.clk + 512 <= u64::MAX,
        k < 0x100,
    ensures
        ({
            let t = s.after_read(addr).at(then);
            &&& shows_16k(t, s.regs.bank as int)
            &&& then < s.regs.clk + 512 ==> drives(t.regs, 0, 1)
            &&& then >= s.regs.clk + 512 ==> drives(t.regs, 1, 1)
            &&& t.peeked((0xDF00 + k) as u16) == rom_byte(s, s.regs.bank as int, 0x1F00 + k)
            &&& t.peeked((0xDE00 + k) as u16) is None
            &&& t.ddr == s.ddr
        }),
{
    if addr >= 0xDE00 {
        io_bits(addr);
    }
    io_bits((0xDF00 + k) as u16);
    io_bits((0xDE00 + k) as u16);
    whole_banks(s.after_read(addr).at(then));
}

/// Westermann: a read of IO2 takes ROMH away, and all of the ROM without variant bit 1;
/// with variant bit 0 a read of IO1 brings it back.
pub proof fn westermann_reads(s: CartState, io: u16)
    requires
        running(s, 0x04),
        0xDE00 <= io < 0xE000,
    ensures
        ({
            let t = s.after_read(io);
            &&& shows_16k(t, s.regs.bank as int)
            &&& io >= 0xDF00 ==> drives(t.regs, 1 - s.regs.variant / 2 % 2, 1)
            &&& io < 0xDF00 && s.regs.variant % 2 == 1 ==> drives(t.regs, 0, 0)
            &&& io < 0xDF00 && s.regs.variant % 2 == 0 ==> t == s
        }),
{
    io_bits(io);
    byte_bits(s.regs.variant);
    whole_banks(s.after_read(io));
}

/// Simons' Basic: a write to IO1 brings ROMH in, a read takes it out.
pub proof fn simons_basic_switches(s: CartState, io: u16, v: u8)
    requires
        running(s, 0x05),
        0xDE00 <= io < 0xDF00,
    ensures
        drives(s.after_write(io, v).regs, 0, 0),
        drives(s.after_read(io).regs, 0, 1),
        shows_16k(s.after_write(io, v), s.regs.bank as int),
        shows_16k(s.after_read(io), s.regs.bank as int),
{
    io_bits(io);
    whole_banks(s.after_write(io, v));
    whole_banks(s.after_read(io));
}

/// Business Basic: a read of IO1 brings 16 K in; a write makes GAME follow the bus, low
/// for `$8000-$BFFF` and `$E000-$FFFF` only.
pub proof fn business_basic_switches(s: CartState, io: u16, v: u8, addr: u16, write: bool)
    requires
        running(s, 0x06),
        0xDE00 <= io < 0xDF00,
    ensures
        ({
            let (w, r) = (s.after_write(io, v).regs, s.after_read(io).regs);
            &&& drives(r, 0, 0)
            &&& drives(w, 1, 1)
            &&& w.outputs(addr, write).exrom_n
            &&& w.outputs(addr, write).game_n == !(0x8000 <= addr < 0xC000 || addr >= 0xE000)
        }),
{
    io_bits(io);
}

/// Business Basic: of a pair of banks the first lies at `$8000`, the second at `$C000`,
/// with the I/O area in it.
pub proof fn business_basic_banks(s: CartState, io: u16, k: u16)
    requires
        running(s, 0x06),
        0xDE00 <= io < 0xDF00,
        k < 0x2000,
    ensures
        ({
            let first = s.regs.bank - s.regs.bank % 2;
            &&& s.peeked((0x8000 + k) as u16) == rom_byte(s, first, k as int)
            &&& s.peeked((0xA000 + k) as u16) == rom_byte(s, first, 0x2000 + k)
            &&& s.peeked((0xE000 + k) as u16) == rom_byte(s, first + 1, 0x2000 + k)
            &&& s.peeked(io) == rom_byte(s, first + 1, io - 0xC000)
        }),
{
    io_bits(io);
}

/// Black Box 3: an IO1 write switches the ROM out, an IO2 write switches it in.
pub proof fn blackbox3_switches(s: CartState, io: u16, v: u8)
    requires
        running(s, 0x07),
        0xDE00 <= io < 0xE000,
    ensures
        io < 0xDF00 ==> drives(s.after_write(io, v).regs, 1, 1),
        io >= 0xDF00 ==> drives(s.after_write(io, v).regs, 0, 1),
        shows_16k(s.after_write(io, v), s.regs.bank as int),
{
    io_bits(io);
    whole_banks(s.after_write(io, v));
}

/// Final Cartridge: any access to IO1 switches it out, any access to IO2 switches it
/// in, and both leave a freeze.
pub proof fn final_cartridge_switches(s: CartState, io: u16, v: u8)
    requires
        running(s, 0x18),
        0xDE00 <= io < 0xE000,
    ensures
        ({
            let off = if io < 0xDF00 {
                1int
            } else {
                0
            };
            &&& drives(s.after_write(io, v).regs, off, off)
            &&& drives(s.after_read(io).regs, off, off)
            &&& !s.after_write(io, v).regs.act()
            &&& !s.after_read(io).regs.act()
            &&& shows_16k(s, s.regs.bank as int)
            &&& s.peeked(io) == rom_byte(s, s.regs.bank as int, io - 0xC000)
        }),
{
    io_bits(io);
    whole_banks(s);
}

/// Final Cartridge III: while it is on, `$DFFF` takes the bank from bits 1:0 (from 3:0
/// with the variant), EXROM from bit 4 and GAME from bit 5. Bit 6 low holds NMI, bit 7
/// switches the cartridge off, and a freeze ends.
pub proof fn final_cartridge_3_register(s: CartState, v: u8)
    requires
        running(s, 0x19),
        !s.regs.trig(),
    ensures
        ({
            let t = s.after_write(0xDFFF, v);
            let n: u8 = if s.regs.variant % 2 == 1 {
                16
            } else {
                4
            };
            &&& t.regs.cart_en == (v / 128 == 0)
            &&& !t.regs.act()
            &&& (!t.regs.outputs(0, false).nmi_n) == (v / 64 % 2 == 0)
            &&& t.regs.outputs(0, false).irq_n
            &&& v / 128 == 0 ==> drives(t.regs, (v / 16 % 2) as int, (v / 32 % 2) as int)
            &&& v / 128 == 0 ==> shows_16k(t, s.regs.bank - s.regs.bank % n + v % n)
            &&& v / 128 == 1 ==> drives(t.regs, 1, 1)
        }),
{
    io_bits(0xDFFF);
    byte_bits(v);
    byte_bits(s.regs.variant);
    bank_bits(s.regs.bank, v);
    if s.after_write(0xDFFF, v).regs.cart_en {
        whole_banks(s.after_write(0xDFFF, v));
    }
}

/// Final Cartridge III: its ROM stands in IO1 and IO2, no other address is a register,
/// and a cartridge that is off hears nothing.
pub proof fn final_cartridge_3_io(s: CartState, io: u16, v: u8)
    requires
        running(s, 0x19),
        0xDE00 <= io < 0xE000,
    ensures
        s.peeked(io) == rom_byte(s, s.regs.bank as int, io - 0xC000),
        io != 0xDFFF && !(s.regs.freeze == Freeze::Button && !s.regs.button) ==> s.after_write(
            io,
            v,
        ) == s,
        s.after_read(io).ddr == s.ddr,
        ({
            let off = CartState { regs: CartRegs { cart_en: false, ..s.regs }, ..s };
            off.after_write(0xDFFF, v).regs.cart_en == false
        }),
{
    io_bits(io);
    io_bits(0xDFFF);
}

/// Action Replay: while it is on, an IO1 write takes the bank from bits 7 and 4:3, GAME
/// low from bit 0 and EXROM from bit 1; bit 2 switches it off, bit 6 ends a freeze, and
/// bit 5 brings the RAM in.
#[verifier::spinoff_prover]
#[verifier::rlimit(40)]
pub proof fn action_replay_register(s: CartState, io: u16, v: u8)
    requires
        running(s, 0x1B),
        s.regs.variant % 4 == 0,
        !s.regs.act(),
        0xDE00 <= io < 0xDF00,
    ensures
        ({
            let t = s.after_write(io, v);
            &&& t.regs.bank == s.regs.bank - s.regs.bank % 8 + v / 128 * 4 + v / 8 % 4
            &&& t.regs.mode.b2 == (v / 32 % 2 == 1)
            &&& t.regs.cart_en == (v / 4 % 2 == 0)
            &&& v / 4 % 2 == 1 ==> drives(t.regs, 1, 1)
            &&& v / 4 % 2 == 0 ==> drives(t.regs, (v / 2 % 2) as int, 1 - v % 2)
            &&& t.ddr == s.ddr
        }),
{
    io_bits(io);
    byte_bits(v);
    byte_bits(s.regs.variant);
    bank_bits(s.regs.bank, v);
}

/// Action Replay: bit 6 of an IO1 write ends a freeze, and nothing else does.
pub proof fn action_replay_leaves_a_freeze(s: CartState, io: u16, v: u8)
    requires
        running(s, 0x1B),
        s.regs.variant % 4 == 0,
        s.regs.act(),
        0xDE00 <= io < 0xE000,
    ensures
        s.after_write(io, v).regs.act() == !(io < 0xDF00 && v / 64 % 2 == 1),
        s.after_read(io).regs.act(),
{
    io_bits(io);
    byte_bits(v);
    byte_bits(s.regs.variant);
}

/// Action Replay: the ROM windows show 8 K of the bank, but in mode 2, which shows
/// none. While the RAM is in it stands at `$8000`, and is written there.
#[verifier::spinoff_prover]
#[verifier::rlimit(40)]
pub proof fn action_replay_windows(s: CartState, k: u16, val: u8)
    requires
        running(s, 0x1B),
        s.regs.variant % 4 == 0,
        !s.regs.act(),
        k < 0x2000,
    ensures
        ({
            let addr = (0x8000 + k) as u16;
            let bank = s.regs.bank as int;
            let m = s.regs.mode;
            &&& m.b2 || !m.b1 || m.b0 ==> s.peeked((0xA000 + k) as u16) == rom_byte(
                s,
                bank,
                k as int,
            )
            &&& !m.b2 && m.b1 && !m.b0 ==> s.peeked(addr) is None && s.peeked(
                (0xA000 + k) as u16,
            ) is None
            &&& !m.b2 && (!m.b1 || m.b0) ==> s.peeked(addr) == rom_byte(s, bank, k as int)
            &&& !m.b2 ==> s.after_write(addr, val) == s
            &&& m.b2 ==> s.peeked(addr) == ram_byte(s, s.regs.ram_bank as int, k as int)
                && s.after_write(addr, val).ddr == Some(
                s.ddr->0.update(s.regs.layout.ram + s.regs.ram_bank * 0x2000 + k, val),
            )
            &&& s.after_write((0xA000 + k) as u16, val) == s
        }),
{
    byte_bits(s.regs.variant);
    rom_bits((0x8000 + k) as u16);
    rom_bits((0xA000 + k) as u16);
}

/// Super Snapshot 5: while it is on, an IO1 write takes the bank from bits 4 and 2 (and
/// 5 with the variant), GAME from bit 0 and EXROM low from bit 1; bit 3 switches it off,
/// and bit 0 low ends a freeze.
pub proof fn super_snapshot_register(s: CartState, io: u16, v: u8)
    requires
        running(s, 0x1A),
        0xDE00 <= io < 0xDF00,
    ensures
        ({
            let t = s.after_write(io, v);
            let low = v / 16 % 2 * 2 + v / 4 % 2;
            &&& t.regs.bank == if s.regs.variant % 2 == 1 {
                s.regs.bank - s.regs.bank % 8 + v / 32 % 2 * 4 + low
            } else {
                s.regs.bank - s.regs.bank % 4 + low
            }
            &&& t.regs.cart_en == (v / 8 % 2 == 0)
            &&& v % 2 == 0 ==> !t.regs.act()
            &&& v / 8 % 2 == 1 ==> drives(t.regs, 1, 1)
            &&& v / 8 % 2 == 0 ==> drives(t.regs, 1 - v / 2 % 2, (v % 2) as int)
            &&& t.ddr == s.ddr
        }),
{
    io_bits(io);
    byte_bits(v);
    byte_bits(s.regs.variant);
    bank_bits(s.regs.bank, v);
}

/// Super Snapshot 5: ROMH and IO1 show the bank, and so does ROML, except that it is
/// RAM in ULTIMAX.
pub proof fn super_snapshot_windows(s: CartState, io: u16, k: u16, val: u8)
    requires
        running(s, 0x1A),
        0xDE00 <= io < 0xDF00,
        k < 0x2000,
    ensures
        ({
            let addr = (0x8000 + k) as u16;
            let bank = s.regs.bank as int;
            &&& s.peeked((0xA000 + k) as u16) == rom_byte(s, bank, 0x2000 + k)
            &&& s.peeked((0xE000 + k) as u16) == rom_byte(s, bank, 0x2000 + k)
            &&& s.peeked(io) == rom_byte(s, bank, io - 0xC000)
            &&& !drives(s.regs, 1, 0) ==> s.peeked(addr) == rom_byte(s, bank, k as int)
                && s.after_write(addr, val) == s
            &&& drives(s.regs, 1, 0) ==> s.peeked(addr) == ram_byte(
                s,
                s.regs.ram_bank as int,
                k as int,
            ) && s.after_write(addr, val).ddr == Some(
                s.ddr->0.update(s.regs.layout.ram + s.regs.ram_bank * 0x2000 + k, val),
            )
        }),
{
    io_bits(io);
}

/// Retro Replay: `$DE01` keeps bit 6 as "no IO2" and bit 1 as "RAM banks", until the
/// next reset.
pub proof fn retro_replay_extra_register(s: CartState, v: u8)
    requires
        running(s, 0x1B),
        s.regs.variant % 2 == 1,
    ensures
        s.after_write(0xDE01, v).regs.do_io2 == (s.regs.do_io2 && v / 64 % 2 == 0),
        s.after_write(0xDE01, v).regs.allow_bank == (s.regs.allow_bank || v / 2 % 2 == 1),
        s.after_write(0xDE01, v).regs.lines() == s.regs.lines(),
        s.after_write(0xDE01, v).regs.bank == s.regs.bank,
        s.after_write(0xDE01, v).regs.ram_bank == if s.after_write(0xDE01, v).regs.allow_bank {
            s.regs.bank % 8
        } else {
            0
        },
{
    io_bits(0xDE01);
    byte_bits(v);
    byte_bits(s.regs.variant);
}

/// Retro Replay: `$DE00` works as on an Action Replay, other IO1 addresses do nothing,
/// and with RAM banks the RAM bank is the ROM bank.
#[verifier::spinoff_prover]
#[verifier::rlimit(60)]
pub proof fn retro_replay_register(s: CartState, io: u16, v: u8)
    requires
        running(s, 0x1B),
        s.regs.variant % 4 == 1,
        !s.regs.act(),
        0xDE00 <= io < 0xDF00,
        io != 0xDE01,
        s.regs.freeze != Freeze::Button || s.regs.button,
    ensures
        ({
            let t = s.after_write(io, v);
            &&& io == 0xDE00 ==> {
                &&& t.regs.bank == s.regs.bank - s.regs.bank % 8 + v / 128 * 4 + v / 8 % 4
                &&& t.regs.cart_en == (v / 4 % 2 == 0)
                &&& v / 4 % 2 == 0 ==> drives(t.regs, (v / 2 % 2) as int, 1 - v % 2)
                &&& s.regs.allow_bank ==> t.regs.ram_bank == v / 128 * 4 + v / 8 % 4
                &&& !s.regs.allow_bank ==> t.regs.ram_bank == 0
            }
            &&& io != 0xDE00 ==> t.regs.bank == s.regs.bank && t.regs.lines() == s.regs.lines()
                && t.regs.cart_en
        }),
{
    io_bits(io);
    byte_bits(v);
    byte_bits(s.regs.variant);
    bank_bits(s.regs.bank, v);
}

/// Atomic Power: in mode 6 it is a 16 K cartridge with ROM at `$8000` and RAM at
/// `$A000`, and `$DE00` reads back its bank.
pub proof fn atomic_power_mode(s: CartState, k: u16, val: u8)
    requires
        running(s, 0x1B),
        s.regs.variant / 2 % 2 == 1,
        s.regs.mode.b2,
        s.regs.mode.b1,
        !s.regs.mode.b0,
        !s.regs.act(),
        k < 0x2000,
    ensures
        drives(s.regs, 0, 0),
        s.peeked((0x8000 + k) as u16) == rom_byte(s, s.regs.bank as int, k as int),
        s.peeked((0xA000 + k) as u16) == ram_byte(s, s.regs.ram_bank as int, k as int),
        s.after_write((0x8000 + k) as u16, val) == s,
        s.after_write((0xA000 + k) as u16, val).ddr == Some(
            s.ddr->0.update(s.regs.layout.ram + s.regs.ram_bank * 0x2000 + k, val),
        ),
        s.regs.consumes((0xA000 + k) as u16, false),
        !s.regs.consumes((0x8000 + k) as u16, false),
        s.peeked(0xDE00) == Some(
            (0x40 + s.regs.bank / 4 % 2 * 128 + s.regs.bank % 4 * 8 + if s.regs.allow_bank {
                2int
            } else {
                0
            }) as u8,
        ),
        s.peeked(0xDE01) == s.peeked(0xDE00),
{
    io_bits(0xDE00);
    io_bits(0xDE01);
    byte_bits(s.regs.variant);
}

/// Action Replay: IO1 and IO2 show the last page but one and the last page of the bank,
/// or of the RAM while it is in.
pub proof fn action_replay_io(s: CartState, io: u16, val: u8)
    requires
        running(s, 0x1B),
        s.regs.variant % 4 == 0,
        !s.regs.act(),
        0xDE00 <= io < 0xE000,
        s.regs.do_io2,
    ensures
        ({
            let served = s.regs.mode.b2 || !s.regs.mode.b0;
            &&& !served ==> s.peeked(io) is None
            &&& served && !s.regs.mode.b2 ==> s.peeked(io) == rom_byte(
                s,
                s.regs.bank as int,
                io - 0xC000,
            )
            &&& s.regs.mode.b2 ==> s.peeked(io) == ram_byte(
                s,
                s.regs.ram_bank as int,
                io - 0xC000,
            )
            &&& s.regs.mode.b2 && io >= 0xDF00 ==> s.after_write(io, val).ddr == Some(
                s.ddr->0.update(
                    s.regs.layout.ram + s.regs.ram_bank * 0x2000 + (io - 0xC000),
                    val,
                ),
            )
            &&& !(s.regs.mode.b2 && io >= 0xDF00) ==> s.after_write(io, val).ddr == s.ddr
        }),
{
    io_bits(io);
    byte_bits(s.regs.variant);
}

/// Whether the C64's own RAM is spared under a write: always in the I/O area and in
/// ULTIMAX, never in the ROM windows otherwise, but for Atomic Power's RAM.
pub proof fn writes_under_the_cartridge(r: CartRegs, addr: u16, forced: bool)
    requires
        !(0xDE00 <= addr < 0xE000),
        r.logic != 0x1B,
    ensures
        r.consumes(addr, forced) == (forced || drives(r, 1, 0)),
        r.consumes(0xDE00, forced),
        r.consumes(0xDFFF, forced),
{
}

/// KCS Power: a read of IO1 leaves 8 K, or nothing with address bit 1; the RAM's last
/// page stands twice over in IO2, where a read in the upper half ends a freeze.
pub proof fn kcs_reads(s: CartState, io: u16, val: u8)
    requires
        running(s, 0x1C),
        0xDE00 <= io < 0xE000,
    ensures
        shows_16k(s, s.regs.bank as int),
        io < 0xDF00 && !s.regs.act() ==> drives(s.after_read(io).regs, (io / 2 % 2) as int, 1),
        io < 0xDF00 ==> s.peeked(io) == rom_byte(s, s.regs.bank as int, io - 0xC000),
        io >= 0xDF00 ==> s.peeked(io) == ram_byte(
            s,
            s.regs.ram_bank as int,
            0x1F00 + io % 128,
        ),
        io >= 0xDF80 ==> !s.after_read(io).regs.act(),
        io >= 0xDF00 ==> s.after_write(io, val).ddr == Some(
            s.ddr->0.update(
                s.regs.layout.ram + s.regs.ram_bank * 0x2000 + 0x1F00 + io % 128,
                val,
            ),
        ),
{
    io_bits(io);
    whole_banks(s);
}

/// KCS Power: a write to `$DE80-$DEFF` brings 16 K in; one to `$DE00-$DE7F` then leaves
/// ULTIMAX.
pub proof fn kcs_writes(s: CartState, io: u16, v: u8)
    requires
        running(s, 0x1C),
        !s.regs.act(),
        0xDE00 <= io < 0xDF00,
    ensures
        io >= 0xDE80 ==> drives(s.after_write(io, v).regs, 0, 0),
        io < 0xDE80 && drives(s.regs, 0, 0) && !s.regs.mode.b2 ==> drives(
            s.after_write(io, v).regs,
            1,
            0,
        ),
        s.after_write(io, v).regs.bank == s.regs.bank,
        s.after_write(io, v).regs.cart_en,
{
    io_bits(io);
}

/// EXROM and GAME as the reset line leaves a type.
pub open spec fn power_on_lines(logic: u8, variant: u8) -> (int, int) {
    if logic == 0x01 {
        ((variant % 2) as int, (variant / 2 % 2) as int)
    } else if logic == 0x02 || logic == 0x05 || logic == 0x07 || logic == 0x08 || logic == 0x0A
        || logic == 0x1B {
        (0, 1)
    } else if logic == 0x0F {
        (0, 1 - variant % 2)
    } else if logic == 0x0E || logic == 0x11 || logic == 0x1A {
        (1, 0)
    } else if logic == 0x04 || logic == 0x09 || 0x0B <= logic <= 0x0D || logic == 0x10 || logic
        == 0x18 || logic == 0x19 || logic == 0x1C {
        (0, 0)
    } else {
        (1, 1)
    }
}

/// The reset line brings every type up in its first mode and its first bank, whatever
/// it did before, and pulls no interrupt.
pub proof fn reset_brings_a_type_up(s: CartState, logic: u8, variant: u8, clk: u64, k: u16)
    requires
        s.regs.valid(),
        s.regs.freeze == Freeze::Idle,
        clk + 512 <= u64::MAX,
        s.ddr is Some,
        s.regs.layout.rom + 0x40_0000 <= s.ddr->0.len(),
        k < 0x2000,
    ensures
        ({
            let t = CartState { regs: s.regs.taken(logic, variant, true, clk), ..s };
            let lines = power_on_lines(logic, variant);
            &&& drives(t.regs, lines.0, lines.1)
            &&& t.regs.outputs(0, false).nmi_n
            &&& t.regs.outputs(0, false).irq_n
            &&& t.regs.logic == logic
            &&& t.regs.variant == variant
            &&& (1 <= logic <= 0x02 || 0x04 <= logic <= 0x11 || 0x18 <= logic <= 0x1C) && logic
                != 0x0E && logic != 0x1A ==> t.peeked((0x8000 + k) as u16) == rom_byte(
                s,
                0,
                k as int,
            )
            &&& logic == 0x1A ==> t.peeked((0xA000 + k) as u16) == rom_byte(s, 0, 0x2000 + k)
            &&& logic == 0x0E ==> t.peeked((0x8000 + k) as u16) == rom_byte(s, 1, k as int)
        }),
{
    byte_bits(variant);
    rom_bits((0x8000 + k) as u16);
}

/// A freeze brings the first ROM bank in under the interrupt vectors, and pulls NMI
/// until it is left; Action Replay and Super Snapshot pull IRQ as well.
pub proof fn a_freeze_shows_the_first_bank(s: CartState, k: u16)
    requires
        s.regs.valid(),
        s.regs.trig(),
        s.ddr is Some,
        s.regs.layout.rom + 0x40_0000 <= s.ddr->0.len(),
        k < 0x2000,
    ensures
        ({
            let t = CartState { regs: s.regs.freeze_entered(), ..s };
            let both = s.regs.logic == 0x1A || s.regs.logic == 0x1B;
            &&& t.peeked((0xE000 + k) as u16) == rom_byte(
                s,
                0,
                if s.regs.logic == 0x1B {
                    k as int
                } else {
                    0x2000 + k
                },
            )
            &&& !t.regs.outputs(0, false).nmi_n
            &&& t.regs.outputs(0, false).irq_n == !both
            &&& s.regs.outputs(0, false).irq_n == !both
            &&& !s.regs.outputs(0, false).nmi_n
        }),
{
    rom_bits((0xE000 + k) as u16);
}

/// A read of the I/O area that changes EXROM or GAME is announced beforehand.
pub proof fn line_changes_are_announced(s: CartState, io: u16)
    requires
        s.regs.valid(),
        s.regs.settled() == s.regs,
        s.regs.clk + 512 <= u64::MAX,
        0xDE00 <= io < 0xE000,
        s.regs.logic == 0x0A ==> !s.regs.mode.b0,
    ensures
        s.after_read(io).regs.lines() != s.regs.lines() ==> s.regs.hints().watch_io,
{
}

} // verus!
