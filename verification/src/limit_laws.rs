//! What holds at the edges: how things are at power-on, what counts as a number, a space
//! or a letter, and what is where in memory.
use crate::bridge::BridgeState;
use crate::c64_state::{PortRegs, TablesState};
use crate::cart_state::{CartState, Layout};
use crate::c64host::CartRom;
use crate::hooks::FaultHooks;
use crate::iomap::{DeviceState, MapState};
use crate::uci::{UciRegs, UciState};
use crate::updater::Button;
use vstd::prelude::*;

verus! {

/// A number is digits, at least one, with a plus sign in front or not, and a signed one
/// may have a minus sign instead.
pub proof fn only_digits_are_numbers(s: Seq<char>, max: nat, i: int)
    requires
        1 <= i < s.len(),
    ensures
        crate::numbers::unsigned(s, max) is Some || crate::numbers::signed(s) is Some ==> '0' <= s[i]
            && s[i] <= '9',
        crate::numbers::unsigned(s, max) is Some ==> s[0] == '+' || '0' <= s[0] && s[0] <= '9',
        crate::numbers::signed(s) is Some ==> s[0] == '+' || s[0] == '-' || '0' <= s[0] && s[0]
            <= '9',
        crate::numbers::unsigned(s, max) matches Some(n) ==> n <= max,
        crate::numbers::signed(s) matches Some(n) ==> -0x8000_0000 <= n < 0x8000_0000,
        crate::numbers::unsigned(Seq::empty(), max) is None,
        crate::numbers::signed(Seq::empty()) is None,
{
    let t = s.skip(1);
    assert(t[i - 1] == s[i]);
    if crate::numbers::all_digits(t) {
        assert(crate::numbers::is_digit(t[i - 1]));
    }
    if crate::numbers::all_digits(s) {
        assert(crate::numbers::is_digit(s[i]));
        assert(crate::numbers::is_digit(s[0]));
    }
}

/// White space is the twenty-five characters that Unicode calls so.
pub proof fn white_space(c: char)
    ensures
        crate::text::is_space(c) == seq![
            0x09u32,
            0x0A,
            0x0B,
            0x0C,
            0x0D,
            0x20,
            0x85,
            0xA0,
            0x1680,
            0x2000,
            0x2001,
            0x2002,
            0x2003,
            0x2004,
            0x2005,
            0x2006,
            0x2007,
            0x2008,
            0x2009,
            0x200A,
            0x2028,
            0x2029,
            0x202F,
            0x205F,
            0x3000,
        ].contains(c as u32),
{
    let all = seq![
        0x09u32,
        0x0A,
        0x0B,
        0x0C,
        0x0D,
        0x20,
        0x85,
        0xA0,
        0x1680,
        0x2000,
        0x2001,
        0x2002,
        0x2003,
        0x2004,
        0x2005,
        0x2006,
        0x2007,
        0x2008,
        0x2009,
        0x200A,
        0x2028,
        0x2029,
        0x202F,
        0x205F,
        0x3000,
    ];
    let n = c as u32;
    if crate::text::is_space(c) {
        assert(all[0] == 0x09 && all[1] == 0x0A && all[2] == 0x0B && all[3] == 0x0C && all[4] == 0x0D
            && all[5] == 0x20 && all[6] == 0x85 && all[7] == 0xA0 && all[8] == 0x1680);
        assert(all[9] == 0x2000 && all[10] == 0x2001 && all[11] == 0x2002 && all[12] == 0x2003
            && all[13] == 0x2004 && all[14] == 0x2005 && all[15] == 0x2006 && all[16] == 0x2007);
        assert(all[17] == 0x2008 && all[18] == 0x2009 && all[19] == 0x200A && all[20] == 0x2028
            && all[21] == 0x2029 && all[22] == 0x202F && all[23] == 0x205F && all[24] == 0x3000);
    }
}

/// Capitals become small letters, 32 further on; everything else stays.
pub proof fn capitals_become_small(s: Seq<char>, i: int)
    requires
        0 <= i < s.len(),
    ensures
        crate::text::lower(s).len() == s.len(),
        crate::text::lower(s)[i] as u32 == (if 65 <= s[i] as u32 <= 90 {
            (s[i] as u32 + 32) as u32
        } else {
            s[i] as u32
        }),
{
}

/// The port as it powers on: nothing held, the sticks idle, no keys assigned, keys to
/// port 2, the cartridge's ROM 60 M into the guest's memory.
pub proof fn ports_power_on_idle()
    ensures
        ({
            let r = PortRegs::initial();
            &&& !r.ultimax && !r.reset && !r.nmi && !r.stop && !r.restore
            &&& r.joy1 == 0xFF && r.joy2 == 0xFF && r.lines1 == 0xFF && r.lines2 == 0xFF
            &&& r.up == 0xFF && r.down == 0xFF && r.left == 0xFF && r.right == 0xFF && r.fire == 0xFF
            &&& r.pulls.up == 0 && r.pulls.down == 0 && r.pulls.left == 0 && r.pulls.right == 0
                && r.pulls.fire == 0
            &&& r.keys_port == 2 && r.synced == 0 && r.cart_detect is None
            &&& r.cart_rom.base == 60 * 1024 * 1024
        }),
        CartRom::large().base == 60 * 1024 * 1024,
        CartRom::small().base == 15 * 1024 * 1024,
{
}

/// The port's tables are those of its pages.
pub proof fn ports_have_their_tables()
    ensures
        TablesState::initial().cart.spans == crate::c64_tables::cart_spans(),
        TablesState::initial().core.spans == crate::c64_tables::core_spans(),
        TablesState::initial().uci.spans == crate::c64_tables::uci_spans(),
        TablesState::initial().iec.spans == crate::c64_tables::iec_spans(),
{
}

/// A cartridge in guest memory: 4 M of ROM at 60 M, 64 K of RAM below 15 M, 16 M of
/// GeoRAM from 16 M. One with memory of its own: its RAM follows its ROM.
pub proof fn cartridges_have_their_memory()
    ensures
        Layout::guest_spec().rom == 0x03C0_0000,
        Layout::guest_spec().ram == 0x00EF_0000,
        Layout::guest_spec().geo == 0x0100_0000,
        Layout::own_spec().rom == 0,
        Layout::own_spec().ram == 0x40_0000,
        Layout::own_spec().geo == 0x41_0000,
        crate::cart_state::ROM_SIZE == 0x40_0000,
        crate::cart_state::RAM_SIZE == 0x1_0000,
        crate::cart_state::GEORAM_SIZE == 0x100_0000,
        crate::cart_state::EPYX_CYCLES == 512,
{
}

/// Types that select nothing: the C128's, and eight codes that are not used. Five types
/// can freeze.
pub proof fn types_that_are_there(t: u8)
    requires
        t < 32,
    ensures
        crate::cart_state::is_modelled(t) == !(t == 3 || t == 18 || t == 19 || t == 20 || t == 21 || t
            == 22 || t == 23 || t == 29 || t == 30),
        crate::cart_state::is_freezer(t) == (24 <= t <= 28),
{
}

/// The command interface as it powers on: disabled and idle, every interrupt masked, the
/// buffers at their starts and empty.
pub proof fn interfaces_power_on_idle()
    ensures
        ({
            let s = UciState::initial();
            let r = s.regs;
            &&& !r.enabled && !r.new_command && !r.accepted && !r.abort && !r.data && !r.more
                && !r.error_busy && !r.freeze && !r.trigger && !r.cmd_irq_en
            &&& r.irq_mask == 7 && r.slot_base == 0 && r.bus_id == 0
            &&& r.command_pointer == 0 && r.response_pointer == 0x380 && r.status_pointer == 0x700
            &&& r.response_length == 0 && r.status_length == 0
            &&& s.ram.len() == 0x800
            &&& forall|i: int| 0 <= i < 0x800 ==> s.ram[i] == 0
        }),
{
}

/// A read of a response or a status byte moves on by one, as far as the buffer goes, and
/// takes the command's interrupt enable back.
pub proof fn reads_move_on(s: UciState)
    requires
        s.valid(),
        s.regs.enabled,
    ensures
        s.after_c64_read(6) == (UciState {
            regs: UciRegs {
                cmd_irq_en: false,
                response_pointer: if s.regs.response_pointer == 0x6FF {
                    0x6FF
                } else {
                    (s.regs.response_pointer + 1) as u16
                },
                ..s.regs
            },
            ..s
        }),
        s.after_c64_read(7) == (UciState {
            regs: UciRegs {
                cmd_irq_en: false,
                status_pointer: if s.regs.status_pointer == 0x7FF {
                    0x7FF
                } else {
                    (s.regs.status_pointer + 1) as u16
                },
                ..s.regs
            },
            ..s
        }),
{
}

/// A window that swallows writes reads 0 everywhere.
pub proof fn sinks_swallow<S>(name: Seq<char>, off: u32, val: u8)
    ensures
        crate::board::sink::<S>(name) matches DeviceState::Table(t) && t.name == name && t.at(off) == 0
            && t.put(off, val) == t,
{
}

proof fn the_first_port_is_first<S>(devices: Seq<DeviceState<S>>, from: int)
    requires
        0 <= from,
    ensures
        match crate::routing::first_port(devices, from) {
            Some(i) => from <= i < devices.len() && devices[i] is C64 && forall|k: int|
                from <= k < i ==> !(#[trigger] devices[k] is C64),
            None => forall|k: int| from <= k < devices.len() ==> !(#[trigger] devices[k] is C64),
        },
    decreases devices.len() - from,
{
    if from < devices.len() && !(devices[from] is C64) {
        the_first_port_is_first(devices, from + 1);
    }
}

/// The C64's port is the first among the devices; a change of it changes no other.
pub proof fn the_port_is_the_first<S>(m: MapState<S>, p: crate::c64_state::PortState<S>, k: int)
    requires
        0 <= k < m.devices.len(),
    ensures
        match m.port() {
            Some(i) => {
                &&& 0 <= i < m.devices.len()
                &&& m.devices[i] is C64
                &&& k < i ==> !(m.devices[k] is C64)
                &&& m.with_port(i, p).devices[k] == (if k == i {
                    DeviceState::C64(p)
                } else {
                    m.devices[k]
                })
                &&& m.with_port(i, p).windows == m.windows
            },
            None => !(m.devices[k] is C64),
        },
{
    the_first_port_is_first(m.devices, 0);
}

/// A function's instructions are the words from its start to its end, the last one
/// counted even if it is cut short.
pub proof fn functions_are_words(addr: u32, size: u32)
    requires
        addr + size <= u32::MAX,
    ensures
        size <= 4 * crate::hooks::insn_count(addr, size) < size + 4,
{
}

/// A text argument in I/O space is told by its address alone.
pub proof fn io_texts_are_addresses(ram: Seq<u8>, addr: u32)
    ensures
        addr / 0x1000_0000 % 2 == 1 ==> crate::hooks::c_text(ram, addr) == crate::symbols::hex8(addr),
        addr / 0x1000_0000 % 2 == 0 ==> crate::hooks::c_text(ram, addr) == crate::hooks::lossy_text(
            crate::hooks::string_at(ram, addr, 128),
        ),
{
    crate::host_laws::io_space(addr);
}

/// Hooks that are absent stop nothing: no instruction stands at their address.
pub proof fn absent_hooks_stop_nothing(pc: u32)
    requires
        pc % 4 == 0,
    ensures
        !FaultHooks::absent().at(pc),
        !FaultHooks::absent().any(),
{
}

/// A freeze switches the cartridge in and leaves everything else as it is.
pub proof fn a_freeze_is_the_cartridges(b: BridgeState, c: CartState)
    ensures
        b.with_cart(c).slot.cart == c,
        b.with_cart(c).slot.forced == b.slot.forced,
        b.with_cart(c).lines == b.lines,
        b.with_cart(c).unsupported == b.unsupported,
        b.frozen().slot.cart.regs == b.slot.cart.regs.freeze_entered(),
        b.frozen().slot.cart.ddr == b.slot.cart.ddr,
        b.frozen().lines == b.lines,
{
}

/// The keys on offer are the buttons' letters in order, a slash between each two.
pub proof fn keys_on_offer(buttons: Seq<Button>, i: int)
    requires
        0 <= i < buttons.len(),
    ensures
        crate::install::keys_shown(buttons).len() == 2 * buttons.len() - 1,
        crate::install::keys_shown(buttons)[2 * i] == buttons[i].letter(),
        i > 0 ==> crate::install::keys_shown(buttons)[2 * i - 1] == '/',
    decreases buttons.len(),
{
    reveal_strlit("/");
    if buttons.len() > 1 {
        keys_on_offer(
            buttons.drop_last(),
            if i < buttons.len() - 1 {
                i
            } else {
                0
            },
        );
    }
}

/// Places and masks that the host and the firmware agree on.
pub proof fn agreed_numbers()
    ensures
        crate::bridge::SID_FIRST == 0xD400,
        crate::bridge::SID_LAST == 0xD7FF,
        crate::bridge::DELAYS_INTERRUPT == 0x100,
        crate::iomap::IO_BASE == 0x1000_0000,
        crate::iomap::IO_GRAIN == 0x100,
        crate::cart_state::CAPAB_EEPROM == 0x0040_0000,
        crate::cart_state::TYPE_MASK == 0x1F,
        crate::hooks::JUMP_TO_SELF == 0x6F,
        crate::hooks::NO_HOOK == 0xFFFF_FFFF,
        crate::timed::RELEASE_MS == 40,
        crate::timed::SHIFT_LEAD_MS == 20,
        crate::dmastub::RASTER_LINES == 312,
        crate::c64_state::CART_ROM_SIZE == 0x4000,
        crate::updater::COLS == 40,
        crate::updater::ROWS == 25,
        crate::updater::SCREEN == 0x0400,
{
}

/// A number in decimal starts with no zero unless it is zero, and takes as few digits as
/// it can.
pub proof fn decimals_start_with_no_zero(n: nat)
    ensures
        crate::numbers::decimal(n).len() > 0,
        n > 0 ==> crate::numbers::decimal(n)[0] != '0',
        n == 0 ==> crate::numbers::decimal(n) == seq!['0'],
    decreases n,
{
    if n >= 10 {
        decimals_start_with_no_zero(n / 10);
        let d = crate::numbers::decimal(n / 10);
        assert(crate::numbers::decimal(n)[0] == d[0]);
    }
}

} // verus!
