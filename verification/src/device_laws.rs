//! What holds of the small devices: the interrupt controller's sources, the register
//! windows by their offsets, and the stand-in for the C64's bus.
use crate::board::U2pioState;
use crate::dmastub::StubState;
use crate::irq::IrqState;
use crate::regtable::TableState;
use vstd::prelude::*;

verus! {

/// Bit `b` of `v` is set.
pub open spec fn bit_on(v: u8, b: u8) -> bool {
    (v >> b) & 1 == 1
}

/// Source `b` is up and let through.
pub open spec fn heard(i: IrqState, b: u8) -> bool {
    (bit_on(i.latched, b) || bit_on(i.level, b)) && bit_on(i.mask, b) || bit_on(i.high_src, b)
        && bit_on(i.high_en, b)
}

proof fn any_common_bit(a: u8, m: u8)
    by (bit_vector)
    ensures
        (a & m != 0) == (((a >> 0u8) & 1 == 1 && (m >> 0u8) & 1 == 1) || ((a >> 1u8) & 1 == 1 && (m
            >> 1u8) & 1 == 1) || ((a >> 2u8) & 1 == 1 && (m >> 2u8) & 1 == 1) || ((a >> 3u8) & 1 == 1
            && (m >> 3u8) & 1 == 1) || ((a >> 4u8) & 1 == 1 && (m >> 4u8) & 1 == 1) || ((a >> 5u8)
            & 1 == 1 && (m >> 5u8) & 1 == 1) || ((a >> 6u8) & 1 == 1 && (m >> 6u8) & 1 == 1) || ((a
            >> 7u8) & 1 == 1 && (m >> 7u8) & 1 == 1)),
{
}

proof fn bits_of_or(a: u8, b: u8, n: u8)
    by (bit_vector)
    requires
        n < 8,
    ensures
        ((a | b) >> n) & 1 == 1 <==> (a >> n) & 1 == 1 || (b >> n) & 1 == 1,
        ((a & b) >> n) & 1 == 1 <==> (a >> n) & 1 == 1 && (b >> n) & 1 == 1,
        ((a & !b) >> n) & 1 == 1 <==> (a >> n) & 1 == 1 && (b >> n) & 1 != 1,
        (a >> n) & 1 == 1 && (b >> n) & 1 == 1 ==> a & b != 0,
{
}

proof fn bit_is_its_own(bit: u8, n: u8)
    by (bit_vector)
    requires
        bit < 8,
        n < 8,
    ensures
        ((1u8 << bit) >> n) & 1 == 1 <==> n == bit,
{
}

/// The core's interrupt line is up exactly if interrupts are on and a source is up that
/// is let through.
pub proof fn the_line_is_any_open_source(i: IrqState)
    ensures
        i.up() == (i.global_en && exists|b: u8| b < 8 && #[trigger] heard(i, b)),
{
    let low = i.latched | i.level;
    any_common_bit(low, i.mask);
    any_common_bit(i.high_src, i.high_en);
    bits_of_or(i.latched, i.level, 0);
    bits_of_or(i.latched, i.level, 1);
    bits_of_or(i.latched, i.level, 2);
    bits_of_or(i.latched, i.level, 3);
    bits_of_or(i.latched, i.level, 4);
    bits_of_or(i.latched, i.level, 5);
    bits_of_or(i.latched, i.level, 6);
    bits_of_or(i.latched, i.level, 7);
    assert(heard(i, 0) || heard(i, 1) || heard(i, 2) || heard(i, 3) || heard(i, 4) || heard(i, 5)
        || heard(i, 6) || heard(i, 7) <==> i.active_low() != 0 || i.active_high() != 0);
    if exists|b: u8| b < 8 && #[trigger] heard(i, b) {
        let b = choose|b: u8| b < 8 && #[trigger] heard(i, b);
        bits_of_or(i.latched, i.level, b);
        bits_of_or(low, i.mask, b);
        bits_of_or(i.high_src, i.high_en, b);
    }
}

/// An edge sets its own latch, a level its own bit, and an acknowledgement clears the
/// latches that it names.
pub proof fn sources_have_their_own_bit(i: IrqState, bit: u8, on: bool, n: u8)
    requires
        bit < 8,
        n < 8,
    ensures
        bit_on(i.pulsed(bit).latched, n) == (n == bit || bit_on(i.latched, n)),
        bit_on(i.with_level(bit, on).level, n) == if n == bit {
            on
        } else {
            bit_on(i.level, n)
        },
        bit_on(i.with_high(bit, on).high_src, n) == if n == bit {
            on
        } else {
            bit_on(i.high_src, n)
        },
{
    bit_is_its_own(bit, n);
    bits_of_or(i.latched, 1u8 << bit, n);
    bits_of_or(i.level, 1u8 << bit, n);
    bits_of_or(i.high_src, 1u8 << bit, n);
}

proof fn masks(v: u8)
    by (bit_vector)
    ensures
        v & 0xFF == v,
        v & 0x01 == v % 2,
        v & 0x03 == v % 4,
        v & 0x07 == v % 8,
        v & 0x1F == v % 32,
        v & 0x05 == v % 2 + 4 * (v / 4 % 2),
        v & 0x75 == v % 2 + 4 * (v / 4 % 2) + 16 * (v / 16 % 8),
        v & 0x7E == 2 * (v / 2 % 64),
        (v & 0x80 == 0) == (v < 0x80),
{
}

/// A write of `v` at `off` reads back there as `shows`.
pub open spec fn latches(t: TableState, off: u32, v: u8, shows: int) -> bool {
    t.put(off, v).at(off) == shows
}

/// The core's configuration: a version at `0x10`, eight bytes that read 0 at `0x80`, and
/// memory else. The joystick outputs start high.
pub proof fn core_page(t: TableState, k: u32, v: u8)
    requires
        t.spans == crate::c64_tables::core_spans(),
        t.valid(),
        k < 0x100,
    ensures
        t.at(0x10) == 1,
        0x80 <= k < 0x88 ==> t.at(k) == 0,
        k != 0x10 && !(0x80 <= k < 0x88) ==> latches(t, k, v, v as int),
        TableState::initial("core"@, crate::c64_tables::core_spans()).at(k) == if k == 0x30 || k
            == 0x31 {
            0xFFu8
        } else if k == 0x10 {
            1
        } else {
            0
        },
{
    let spans = crate::c64_tables::core_spans();
    reveal_with_fuel(crate::regtable::first_reg, 7);
    reveal_with_fuel(crate::regtable::power_on, 7);
    crate::regtable::cells_are_stored(t, k);
    masks(v);
    assert(spans.drop_last() =~= seq![spans[0], spans[1], spans[2], spans[3]]);
    assert(spans.drop_last().drop_last() =~= seq![spans[0], spans[1], spans[2]]);
    assert(spans.drop_last().drop_last().drop_last() =~= seq![spans[0], spans[1]]);
    assert(spans.drop_last().drop_last().drop_last().drop_last() =~= seq![spans[0]]);
    assert(seq![spans[0]].drop_last() =~= Seq::empty());
    crate::regtable::storage_covers(spans, 4);
}

/// The cartridge's registers: each keeps the bits that it has, and reads them back.
pub proof fn cartridge_page(t: TableState, v: u8)
    requires
        t.spans == crate::c64_tables::cart_spans(),
        t.valid(),
    ensures
        latches(t, 0x02, v, (v % 4) as int),
        t.at(0x03) == 1,
        latches(t, 0x05, v, v as int),
        latches(t, 0x07, v, (v % 2) as int),
        latches(t, 0x08, v, (v % 2) as int),
        latches(t, 0x09, v, (v % 8) as int),
        latches(t, 0x0C, v, v % 2 + 4 * (v / 4 % 2)),
        latches(t, 0x0D, v, (v % 2) as int),
        latches(t, 0x0E, v, (v % 2) as int),
        t.at(0x04) == 0 && t.at(0x0A) == 0 && t.at(0x0B) == 0 && t.at(0x0F) == 0,
{
    reveal_with_fuel(crate::regtable::first_reg, 11);
    crate::regtable::cells_are_stored(t, 0x02);
    crate::regtable::cells_are_stored(t, 0x05);
    crate::regtable::cells_are_stored(t, 0x07);
    crate::regtable::cells_are_stored(t, 0x08);
    crate::regtable::cells_are_stored(t, 0x09);
    crate::regtable::cells_are_stored(t, 0x0C);
    crate::regtable::cells_are_stored(t, 0x0D);
    crate::regtable::cells_are_stored(t, 0x0E);
    masks(v);
}

/// The IEC processor's window without one: a version, idle FIFOs, and code memory in the
/// upper half.
pub proof fn iec_page(t: TableState, k: u32, v: u8)
    requires
        t.spans == crate::c64_tables::iec_spans(),
        t.valid(),
        k < 0x1000,
    ensures
        t.at(0) == 0x25,
        t.at(1) == 1,
        t.at(2) == 1,
        3 <= k < 0x800 ==> t.at(k) == 0,
        k >= 0x800 ==> latches(t, k, v, v as int),
{
    reveal_with_fuel(crate::regtable::first_reg, 6);
    crate::regtable::cells_are_stored(t, k);
    masks(v);
}

/// The command interface's window without one: base and enable latch, the interrupt
/// mask is set and cleared by its two registers, the buffers lie at fixed places, and the
/// upper half is memory.
pub proof fn interface_page(t: TableState, k: u32, v: u8)
    requires
        t.spans == crate::c64_tables::uci_spans(),
        t.valid(),
        k < 0x1000,
    ensures
        latches(t, 0x00, v, 2 * (v / 2 % 64)),
        v < 0x80 ==> latches(t, 0x01, v, (v % 2) as int),
        v >= 0x80 ==> t.put(0x01, v) == t,
        t.at(0x04) == 0,
        t.at(0x05) == 0x6F,
        t.at(0x06) == 0x70,
        t.at(0x07) == 0xDF,
        t.at(0x08) == 0xE0,
        t.at(0x09) == 0xFF,
        latches(t, 0x0B, v, (v % 8) as int),
        t.at(0x0C) == 0x80,
        t.at(0x0D) == 0x03,
        k >= 0x800 ==> latches(t, k, v, v as int),
{
    reveal_with_fuel(crate::regtable::first_reg, 14);
    crate::regtable::cells_are_stored(t, 0x00);
    crate::regtable::cells_are_stored(t, 0x01);
    crate::regtable::cells_are_stored(t, 0x0B);
    crate::regtable::cells_are_stored(t, k);
    masks(v);
}

/// Setting and clearing move the mask's three bits and no others.
pub proof fn interface_mask(t: TableState, v: u8, n: u8)
    requires
        t.spans == crate::c64_tables::uci_spans(),
        t.valid(),
        n < 8,
    ensures
        bit_on(t.put(0x04, v).at(0x0B), n) == (bit_on(t.at(0x0B), n) || n < 3 && bit_on(v, n)),
        bit_on(t.put(0x05, v).at(0x0B), n) == (bit_on(t.at(0x0B), n) && !(n < 3 && bit_on(v, n))),
{
    reveal_with_fuel(crate::regtable::first_reg, 14);
    crate::regtable::cells_are_stored(t, 0x0B);
    let m = t.at(0x0B);
    assert((((m | (v & 7)) >> n) & 1 == 1) == ((m >> n) & 1 == 1 || n < 3 && (v >> n) & 1 == 1)
        && (((m & !(v & 7)) >> n) & 1 == 1) == ((m >> n) & 1 == 1 && !(n < 3 && (v >> n) & 1 == 1)))
        by (bit_vector)
        requires
            n < 8,
    ;
}

/// The ACIA's window: ring indices and rings are memory, the rest stays as it is.
pub proof fn acia_page(t: TableState, k: u32, v: u8)
    requires
        t.spans == crate::iec::acia_spans(),
        t.valid(),
        k < 0x1000,
    ensures
        k == 0 || k == 3 || 0x800 <= k < 0x900 || 0xA00 <= k < 0xB00 ==> latches(t, k, v, v as int),
        t.at(5) == 2,
        latches(t, 7, v, (v % 32) as int),
        latches(t, 8, v, v % 2 + 4 * (v / 4 % 2) + 16 * (v / 16 % 8)),
        k == 1 || k == 2 || k == 4 || k == 6 || 9 <= k < 0x800 || 0x900 <= k < 0xA00 || k >= 0xB00
            ==> t.at(k) == 0,
{
    reveal_with_fuel(crate::regtable::first_reg, 9);
    crate::regtable::cells_are_stored(t, k);
    crate::regtable::cells_are_stored(t, 7);
    crate::regtable::cells_are_stored(t, 8);
    masks(v);
}

/// Everywhere in the tape's window reads say that its FIFO is empty.
pub proof fn tape_page(t: TableState, k: u32, v: u8)
    requires
        t.spans == crate::iec::tape_spans(),
        k < 0x1000,
    ensures
        t.at(k) == 0x80,
        t.put(k, v) == t,
{
    reveal_with_fuel(crate::regtable::first_reg, 2);
}

/// The board's page: revision 23 in the upper five bits, two reset lines, and the PHY's
/// pins, of which bit 0 counts.
pub proof fn board_page(u: U2pioState, v: u8)
    requires
        u.table.spans == crate::board::u2pio_spans(),
        u.table.valid(),
    ensures
        u.at(0x0C) / 8 == 23,
        u.at(0x0C) % 8 == 0,
        u.put(0x0C, v) == u,
        u.put(0x0D, v).at(0x0D) == v % 2,
        u.put(0x0F, v).at(0x0F) == v % 2,
        u.at(0x06) == (if u.phy.line {
            1u8
        } else {
            0
        }),
        u.put(0x0A, v).phy.mdc == (v % 2 == 1),
        u.put(0x0A, v).phy.mdio == u.phy.mdio,
        u.put(0x0B, v).phy.mdio == (v % 2 == 1),
        u.put(0x0B, v).phy.mdc == u.phy.mdc,
        u.put(0x0A, v).table == u.table && u.put(0x0B, v).table == u.table,
        U2pioState::initial().at(0x06) == 1,
{
    reveal_with_fuel(crate::regtable::first_reg, 5);
    crate::regtable::cells_are_stored(u.table, 0x0D);
    crate::regtable::cells_are_stored(u.table, 0x0F);
    masks(v);
}

/// The raster line is nine bits: eight at `$D012`, one on top of `$D011`, and no line is
/// beyond the 312th.
pub proof fn the_raster_is_shown(s: StubState)
    requires
        s.valid(),
    ensures
        s.peeked(0xD012) + 256 * (s.peeked(0xD011) / 128) == s.raster,
        s.peeked(0xD011) % 128 == s.mem[0xD011] % 128,
        s.raster < 312,
        s.after_read(0xD012).raster == (if s.raster == 311 {
            0
        } else {
            s.raster + 1
        }),
{
}

/// Without a C64 there is no SID, no VIC interrupt and no joystick; everything else that
/// is not the raster or the keyboard is memory.
pub proof fn the_stand_in_is_memory(s: StubState, addr: u16, val: u8, other: u16)
    requires
        s.valid(),
    ensures
        0xD400 <= addr < 0xD800 ==> s.peeked(addr) == 0,
        s.peeked(0xD019) == 0,
        s.peeked(0xDC00) == 0xFF,
        !(0xD400 <= addr < 0xD800) && addr != 0xD011 && addr != 0xD012 && addr != 0xD019 && addr
            != 0xDC00 && addr != 0xDC01 ==> s.after_write(addr, val).peeked(addr) == val,
        other != addr && addr != 0xDC00 ==> s.after_write(addr, val).peeked(other) == s.peeked(
            other,
        ),
        addr != 0xD012 ==> s.after_read(addr) == s,
{
}

/// A column reads low exactly if a key is down in it in a row that is selected.
pub proof fn columns_show_selected_keys(keys: Seq<u8>, select: u8, n: nat, col: u8)
    requires
        keys.len() == 8,
        n <= 8,
        col < 8,
    ensures
        !bit_on(crate::dmastub::scanned(keys, select, n), col) <==> exists|row: u8|
            row < n && !#[trigger] bit_on(select, row) && bit_on(keys[row as int], col),
    decreases n,
{
    if n == 0 {
        assert((0xFFu8 >> col) & 1 == 1) by (bit_vector)
            requires
                col < 8,
        ;
    } else {
        let r = (n - 1) as u8;
        columns_show_selected_keys(keys, select, (n - 1) as nat, col);
        let above = crate::dmastub::scanned(keys, select, (n - 1) as nat);
        bits_of_or(above, keys[r as int], col);
        assert((select & (1u8 << r) == 0) == ((select >> r) & 1 != 1)) by (bit_vector)
            requires
                r < 8,
        ;
        if exists|row: u8|
            row < n && !#[trigger] bit_on(select, row) && bit_on(keys[row as int], col) {
            let row = choose|row: u8|
                row < n && !#[trigger] bit_on(select, row) && bit_on(keys[row as int], col);
            assert(row == r || row < n - 1);
            assert(!bit_on(select, row));
        }
        let low = !bit_on(select, r) && bit_on(keys[r as int], col);
        assert(!bit_on(crate::dmastub::scanned(keys, select, n), col) == (!bit_on(above, col) || low));
    }
}

/// A key that moves moves its own bit of its own row.
pub proof fn keys_have_their_place(s: StubState, row: u8, col: u8, down: bool, r: u8, c: u8)
    requires
        s.valid(),
        row < 8,
        col < 8,
        r < 8,
        c < 8,
    ensures
        bit_on(s.keyed(row, col, down).keys[r as int], c) == if r == row && c == col {
            down
        } else {
            bit_on(s.keys[r as int], c)
        },
{
    bit_is_its_own(col, c);
    bits_of_or(s.keys[row as int], 1u8 << col, c);
}

/// Time: a second is a hundred million clocks and a thousand milliseconds; a byte over
/// the C64's bus waits 326 clocks, and an attached C64 catches up every millisecond.
pub proof fn clocks()
    ensures
        crate::time::CLOCK_HZ == 100_000_000,
        crate::time::CLOCKS_PER_MS * 1000 == crate::time::CLOCK_HZ,
        crate::time::DEFAULT_CLOCKS_PER_INSN == 4,
        crate::time::DMA_BYTE_CLOCKS == 326,
        crate::c64_state::SYNC_PERIOD == crate::time::CLOCKS_PER_MS,
{
}

} // verus!
