//! What holds of the host's view of the firmware and of the C64: names and numbers in
//! reports, fault hooks, interrupts, pictures, and where input goes.
use crate::bridge::{BridgeState, Plan};
use crate::c64_state::PortState;
use crate::c64host::{C64Backend, UciEvents};
use crate::cart_state::{CartState, RunHints};
use crate::hooks::{CoreState, Exit, FaultHooks};
use crate::host::HostInput;
use crate::irq::IrqState;
use crate::routing::DeviceInput;
use crate::symbols::{Symbol, Symbols};
use vstd::prelude::*;

verus! {

/// The value of a hexadecimal digit.
pub open spec fn hex_value(c: char) -> int {
    if '0' <= c && c <= '9' {
        c as int - 48
    } else if 'a' <= c && c <= 'f' {
        c as int - 87
    } else {
        -1
    }
}

/// The number that hexadecimal digits are.
pub open spec fn hex_number(s: Seq<char>) -> int
    decreases s.len(),
{
    if s.len() == 0 {
        0
    } else {
        hex_number(s.drop_last()) * 16 + hex_value(s.last())
    }
}

proof fn a_digit_is_its_value(n: nat)
    requires
        n < 16,
    ensures
        hex_value(crate::numbers::digit(n)) == n,
{
}

/// Sixteen to the power of `width`.
pub open spec fn sixteens(width: nat) -> nat
    decreases width,
{
    if width == 0 {
        1
    } else {
        16 * sixteens((width - 1) as nat)
    }
}

/// A padded number has its width, and reads back if it fits.
pub proof fn padded_numbers_read_back(n: nat, width: nat)
    ensures
        crate::numbers::hex_padded(n, width).len() == width,
        n < sixteens(width) ==> hex_number(crate::numbers::hex_padded(n, width)) == n,
    decreases width,
{
    if width > 0 {
        let d = crate::numbers::hex_padded(n / 16, (width - 1) as nat);
        padded_numbers_read_back(n / 16, (width - 1) as nat);
        a_digit_is_its_value(n % 16);
        assert(d.push(crate::numbers::digit(n % 16)).drop_last() =~= d);
        assert(n < 16 * sixteens((width - 1) as nat) ==> n / 16 < sixteens((width - 1) as nat));
    }
}

/// A number without padding reads back, and starts with no zero unless it is zero.
pub proof fn hexadecimal_numbers_read_back(n: nat)
    ensures
        hex_number(crate::numbers::hexadecimal(n)) == n,
        crate::numbers::hexadecimal(n).len() > 0,
        n > 0 ==> crate::numbers::hexadecimal(n)[0] != '0',
    decreases n,
{
    if n < 16 {
        a_digit_is_its_value(n);
        let s = seq![crate::numbers::digit(n)];
        assert(s.drop_last() =~= Seq::empty());
        reveal_with_fuel(hex_number, 2);
    } else {
        let d = crate::numbers::hexadecimal(n / 16);
        hexadecimal_numbers_read_back(n / 16);
        a_digit_is_its_value(n % 16);
        assert(d.push(crate::numbers::digit(n % 16)).drop_last() =~= d);
    }
}

/// Addresses are written with eight digits and bytes with two, behind `0x`.
pub proof fn addresses_read_back(a: u32, b: u8)
    ensures
        crate::symbols::hex8(a).len() == 10,
        crate::symbols::hex8(a)[0] == '0' && crate::symbols::hex8(a)[1] == 'x',
        hex_number(crate::symbols::hex8(a).skip(2)) == a,
        crate::symbols::hex2(b).len() == 4,
        crate::symbols::hex2(b)[0] == '0' && crate::symbols::hex2(b)[1] == 'x',
        hex_number(crate::symbols::hex2(b).skip(2)) == b,
        hex_number(crate::symbols::hex(a).skip(2)) == a,
        crate::symbols::hex(a)[0] == '0' && crate::symbols::hex(a)[1] == 'x',
{
    reveal_strlit("0x");
    reveal_with_fuel(sixteens, 9);
    padded_numbers_read_back(a as nat, 8);
    padded_numbers_read_back(b as nat, 2);
    hexadecimal_numbers_read_back(a as nat);
    assert(crate::symbols::hex8(a).skip(2) =~= crate::numbers::hex_padded(a as nat, 8));
    assert(crate::symbols::hex2(b).skip(2) =~= crate::numbers::hex_padded(b as nat, 2));
    assert(crate::symbols::hex(a).skip(2) =~= crate::numbers::hexadecimal(a as nat));
}

/// A column of numbers: spaces in front, up to the width.
pub proof fn padding_is_in_front(s: Seq<char>, width: nat, i: int)
    ensures
        crate::numbers::padded(s, width).len() == if s.len() > width {
            s.len()
        } else {
            width
        },
        s.is_suffix_of(crate::numbers::padded(s, width)),
        0 <= i < width - s.len() ==> crate::numbers::padded(s, width)[i] == ' ',
{
    let p = crate::numbers::padded(s, width);
    assert(s =~= p.subrange(p.len() - s.len(), p.len() as int));
}

proof fn the_first_covers(syms: Seq<Symbol>, addr: u32, from: int)
    requires
        0 <= from,
    ensures
        match crate::symbols::first_covering(syms, addr, from) {
            Some(i) => from <= i < syms.len() && syms[i].covers(addr) && forall|k: int|
                from <= k < i ==> !(#[trigger] syms[k]).covers(addr),
            None => forall|k: int| from <= k < syms.len() ==> !(#[trigger] syms[k]).covers(addr),
        },
    decreases syms.len() - from,
{
    if from < syms.len() && !syms[from].covers(addr) {
        the_first_covers(syms, addr, from + 1);
    }
}

proof fn the_first_is_named(syms: Seq<Symbol>, name: Seq<char>, from: int)
    requires
        0 <= from,
    ensures
        match crate::symbols::first_named(syms, name, from) {
            Some(i) => from <= i < syms.len() && syms[i].name@ == name && forall|k: int|
                from <= k < i ==> (#[trigger] syms[k]).name@ != name,
            None => forall|k: int| from <= k < syms.len() ==> (#[trigger] syms[k]).name@ != name,
        },
        match crate::symbols::first_mangled(syms, name, from) {
            Some(i) => from <= i < syms.len() && syms[i].mangled@ == name && forall|k: int|
                from <= k < i ==> (#[trigger] syms[k]).mangled@ != name,
            None => forall|k: int| from <= k < syms.len() ==> (#[trigger] syms[k]).mangled@ != name,
        },
    decreases syms.len() - from,
{
    if from < syms.len() {
        the_first_is_named(syms, name, from + 1);
    }
}

/// The symbol holds the address: within its bytes, or at its very start.
pub open spec fn spans(s: Symbol, addr: u32) -> bool {
    addr == s.addr || s.addr < addr < s.addr + s.size
}

/// An address is told by the first symbol that holds it, with the distance from its
/// start; without one it is bare.
pub proof fn addresses_are_told_by_the_first_symbol(s: Symbols, addr: u32)
    ensures
        match s.found(addr) {
            Some((name, off)) => exists|i: int|
                0 <= i < s.syms@.len() && name == s.syms@[i].name@ && s.syms@[i].addr + off == addr
                    && #[trigger] spans(s.syms@[i], addr) && forall|k: int|
                    0 <= k < i ==> !#[trigger] spans(s.syms@[k], addr),
            None => forall|k: int| 0 <= k < s.syms@.len() ==> !#[trigger] spans(s.syms@[k], addr),
        },
        s.found(addr) is None ==> s.text(addr) == crate::symbols::hex8(addr),
        s.found(addr) matches Some((name, off)) ==> s.text(addr) == if off == 0 {
            name
        } else {
            name + seq!['+'] + crate::symbols::hex(off)
        },
{
    reveal_strlit("+");
    assert("+"@ =~= seq!['+']);
    the_first_covers(s.syms@, addr, 0);
    assert forall|k: int| 0 <= k < s.syms@.len() implies #[trigger] spans(s.syms@[k], addr)
        == s.syms@[k].covers(addr) by {}
    if let Some(i) = crate::symbols::first_covering(s.syms@, addr, 0) {
        assert(spans(s.syms@[i], addr));
    }
}

/// A name stands for the address of the first symbol that has it.
pub proof fn names_stand_for_the_first_symbol(s: Symbols, name: Seq<char>)
    ensures
        match s.address(name) {
            Some(a) => exists|i: int|
                0 <= i < s.syms@.len() && (#[trigger] s.syms@[i]).name@ == name && s.syms@[i].addr
                    == a && forall|k: int| 0 <= k < i ==> (#[trigger] s.syms@[k]).name@ != name,
            None => forall|k: int| 0 <= k < s.syms@.len() ==> (#[trigger] s.syms@[k]).name@ != name,
        },
{
    the_first_is_named(s.syms@, name, 0);
    if let Some(i) = crate::symbols::first_named(s.syms@, name, 0) {
        assert(s.syms@[i].name@ == name);
    }
}

/// Words are little-endian.
pub proof fn words_are_little_endian(a: u8, b: u8, c: u8, d: u8)
    ensures
        ({
            let w = crate::hooks::word(a, b, c, d);
            w % 256 == a && w / 256 % 256 == b && w / 65536 % 256 == c && w / 16777216 == d
        }),
{
}

/// A store of the return address to the stack: a word store with the stack pointer as
/// base and the return address as source.
pub proof fn stores_of_the_return_address(insn: u32)
    ensures
        crate::hooks::saves_ra(insn) == (insn % 128 == 0x23 && insn / 4096 % 8 == 2 && insn / 32768
            % 32 == 2 && insn / 1048576 % 32 == 1),
{
    assert((insn & 0x01FF_F07F == 0x0011_2023) == (insn % 128 == 0x23 && insn / 4096 % 8 == 2 && insn
        / 32768 % 32 == 2 && insn / 1048576 % 32 == 1)) by (bit_vector);
}

/// A store's offset counts from -2048 to 2047, in two pieces of the word.
pub proof fn offsets_are_signed(insn: u32, sp: u32)
    ensures
        ({
            let imm = insn / 0x200_0000 * 32 + insn / 128 % 32;
            let off = if imm >= 2048 {
                imm - 4096
            } else {
                imm
            };
            crate::hooks::plus(sp, crate::hooks::store_offset(insn)) == (sp + off)
                % 0x1_0000_0000
        }),
{
    let imm = insn / 0x200_0000 * 32 + insn / 128 % 32;
    assert(insn / 0x200_0000 < 128);
    assert(imm < 4096);
}

/// The loop on which an allocation hangs is the function's last jump to itself, and the
/// slot of the return address is that of its first store.
pub proof fn loops_and_slots(ram: Seq<u8>, addr: u32, n: nat)
    requires
        addr + 4 * n <= u32::MAX + 4,
    ensures
        match crate::hooks::last_loop(ram, addr, n) {
            Some(a) => exists|i: int|
                0 <= i < n && a == addr + 4 * i && #[trigger] crate::hooks::insn(ram, addr, i) == 0x6F
                    && forall|k: int|
                    i < k < n ==> #[trigger] crate::hooks::insn(ram, addr, k) != 0x6F,
            None => forall|k: int| 0 <= k < n ==> #[trigger] crate::hooks::insn(ram, addr, k) != 0x6F,
        },
        match crate::hooks::first_slot(ram, addr, n) {
            Some(s) => exists|i: int|
                0 <= i < n && crate::hooks::saves_ra(#[trigger] crate::hooks::insn(ram, addr, i)) && s
                    == crate::hooks::store_offset(crate::hooks::insn(ram, addr, i)) && forall|k: int|
                    0 <= k < i ==> !crate::hooks::saves_ra(
                        #[trigger] crate::hooks::insn(ram, addr, k),
                    ),
            None => forall|k: int|
                0 <= k < n ==> !crate::hooks::saves_ra(#[trigger] crate::hooks::insn(ram, addr, k)),
        },
    decreases n,
{
    if n > 0 {
        loops_and_slots(ram, addr, (n - 1) as nat);
        let last = crate::hooks::insn(ram, addr, n - 1);
        if last == 0x6F {
            assert(crate::hooks::insn(ram, addr, n - 1) == 0x6F);
        }
    }
}

/// A text in guest memory runs to its first zero byte, or to 128 bytes.
pub proof fn texts_end_at_a_zero(ram: Seq<u8>, addr: u32, n: nat, i: int)
    requires
        0 <= i,
    ensures
        ({
            let s = crate::hooks::string_at(ram, addr, n);
            &&& s.len() <= n
            &&& i < s.len() ==> s[i] != 0 && s[i] == ram[((addr + i) % 0x1_0000_0000)
                % ram.len() as int]
            &&& s.len() < n ==> ram[((addr + s.len()) % 0x1_0000_0000) % ram.len() as int] == 0
        }),
        crate::hooks::STRING_LEN == 128,
    decreases n,
{
    if n > 0 && crate::hooks::byte_at(ram, addr) != 0 {
        let next = crate::hooks::plus(addr, 1);
        let s = crate::hooks::string_at(ram, next, (n - 1) as nat);
        texts_end_at_a_zero(
            ram,
            next,
            (n - 1) as nat,
            if i > 0 {
                i - 1
            } else {
                0
            },
        );
        assert((next + s.len()) % 0x1_0000_0000 == (addr + s.len() + 1) % 0x1_0000_0000);
        assert(i > 0 ==> (next + i - 1) % 0x1_0000_0000 == (addr + i) % 0x1_0000_0000);
    }
}

/// I/O space is where bit 28 of an address is set.
pub proof fn io_space(addr: u32)
    ensures
        crate::hooks::in_io(addr) == (addr / 0x1000_0000 % 2 == 1),
{
    assert((addr & 0x1000_0000 != 0) == (addr / 0x1000_0000 % 2 == 1)) by (bit_vector);
}

/// A halt comes at a hook, a breakpoint elsewhere, and nothing where there is neither.
pub proof fn hooks_halt_and_breakpoints_stop(
    h: FaultHooks,
    breakpoints: Seq<u32>,
    symbols: Symbols,
    ram: Seq<u8>,
    c: CoreState,
)
    ensures
        ({
            let s = crate::hooks::stop(h, breakpoints, symbols, ram, c);
            let hooked = c.pc == h.panic_loop || c.pc == h.assert_called || c.pc == h.exception || c.pc
                == h.early_trap;
            &&& hooked == (s matches Some(e) && e is Halted)
            &&& hooked == h.at(c.pc)
            &&& !hooked && breakpoints.contains(c.pc) ==> s == Some(Exit::Breakpoint(c.pc))
            &&& !hooked && !breakpoints.contains(c.pc) ==> s is None
        }),
{
}

/// The hooks are where the firmware's own names say.
pub proof fn hooks_are_named(s: Symbols, ram: Seq<u8>)
    ensures
        ({
            let h = FaultHooks::of(s, ram);
            &&& s.address("vAssertCalled"@) matches Some(a) ==> h.assert_called == a
            &&& s.address("C_exception_handler"@) matches Some(a) ==> h.exception == a
            &&& s.address("__crt0_dummy_trap_handler"@) matches Some(a) ==> h.early_trap == a
            &&& s.address("vAssertCalled"@) is None ==> h.assert_called == 0xFFFF_FFFF
            &&& s.address("C_exception_handler"@) is None ==> h.exception == 0xFFFF_FFFF
            &&& s.address("__crt0_dummy_trap_handler"@) is None ==> h.early_trap == 0xFFFF_FFFF
            &&& crate::hooks::panic_loop(s, ram) matches Some((l, r)) ==> h.panic_loop == l
                && h.panic_ra_slot == r
            &&& crate::hooks::panic_loop(s, ram) is None ==> h.panic_loop == 0xFFFF_FFFF
        }),
{
}

/// A joystick's directions are its lines' low bits, in this order, active low.
pub proof fn sticks_are_lines(lines: u8)
    ensures
        crate::bridge::stick(lines).up == (lines % 2 == 0),
        crate::bridge::stick(lines).down == (lines / 2 % 2 == 0),
        crate::bridge::stick(lines).left == (lines / 4 % 2 == 0),
        crate::bridge::stick(lines).right == (lines / 8 % 2 == 0),
        crate::bridge::stick(lines).fire == (lines / 16 % 2 == 0),
{
    assert((lines & 1 == 0) == (lines % 2 == 0) && (lines & 2 == 0) == (lines / 2 % 2 == 0) && (lines
        & 4 == 0) == (lines / 4 % 2 == 0) && (lines & 8 == 0) == (lines / 8 % 2 == 0) && (lines & 16
        == 0) == (lines / 16 % 2 == 0)) by (bit_vector);
}

/// The C64's NMI is the port's or the cartridge's, its IRQ the cartridge's; an input that
/// moves is told with its new level, and one that does not is not told.
pub proof fn interrupts_reach_the_c64(b: BridgeState)
    ensures
        ({
            let a = b.applied();
            let e = b.edges();
            let out = b.slot.cart.regs.outputs(0, false);
            &&& a.lines.nmi_line == (b.lines.nmi || !out.nmi_n)
            &&& a.lines.irq_line == !out.irq_n
            &&& e.nmi == (if a.lines.nmi_line == b.lines.nmi_line {
                None::<bool>
            } else {
                Some(a.lines.nmi_line)
            })
            &&& e.irq == (if a.lines.irq_line == b.lines.irq_line {
                None::<bool>
            } else {
                Some(a.lines.irq_line)
            })
            &&& a.slot == b.slot && a.lines.nmi == b.lines.nmi && a.lines.joy1 == b.lines.joy1
                && a.lines.joy2 == b.lines.joy2 && a.lines.stopped == b.lines.stopped
                && a.lines.reset_held == b.lines.reset_held
        }),
{
}

/// A run goes to its target, or to the timed change if that comes first; one that is past
/// due takes a cycle. While a freeze waits it is one instruction long.
pub proof fn runs_end_where_they_should(h: RunHints, clk: u64, target: u64)
    requires
        clk < target,
    ensures
        match crate::bridge::planned(h, clk, target) {
            Plan::Done => false,
            Plan::Plain { cycles } => clk + cycles == target && !h.watch_io && !h.freeze_pending
                && h.deadline is None,
            Plan::Watched { cycles, insns, watch_io } => {
                &&& h.watch_io || h.freeze_pending || h.deadline is Some
                &&& watch_io == h.watch_io
                &&& insns == (if h.freeze_pending {
                    1u64
                } else {
                    u64::MAX
                })
                &&& h.deadline is None ==> clk + cycles == target
                &&& h.deadline matches Some(d) ==> {
                    &&& d <= clk ==> cycles == 1
                    &&& clk < d <= target ==> clk + cycles == d
                    &&& d > target ==> clk + cycles == target
                }
            },
        },
{
}

/// A vector is two bytes, the low one first, and wraps around.
pub proof fn vectors_are_little_endian(cart: CartState, vector: u16)
    ensures
        match crate::bridge::vector_at(cart, vector) {
            Some(a) => cart.peeked(vector) == Some((a % 256) as u8) && cart.peeked(
                ((vector + 1) % 0x10000) as u16,
            ) == Some((a / 256) as u8),
            None => cart.peeked(vector) is None || cart.peeked(
                ((vector + 1) % 0x10000) as u16,
            ) is None,
        },
{
}

/// A picture's samples are red, green and blue of each pixel in turn.
pub proof fn samples_are_red_green_blue(pixels: Seq<u32>, i: int)
    requires
        0 <= i < pixels.len(),
    ensures
        crate::picture::samples(pixels).len() == 3 * pixels.len(),
        65536 * crate::picture::samples(pixels)[3 * i] + 256 * crate::picture::samples(pixels)[3 * i
            + 1] + crate::picture::samples(pixels)[3 * i + 2] == pixels[i] % 0x100_0000,
{
    assert((3 * i) / 3 == i && (3 * i + 1) / 3 == i && (3 * i + 2) / 3 == i);
    assert((3 * i) % 3 == 0 && (3 * i + 1) % 3 == 1 && (3 * i + 2) % 3 == 2);
    let p = pixels[i];
    let s = crate::picture::samples(pixels);
    assert(s[3 * i] == crate::picture::sample(p, 0));
    assert(s[3 * i + 1] == crate::picture::sample(p, 1));
    assert(s[3 * i + 2] == crate::picture::sample(p, 2));
}

/// Input goes to the devices that have a use for it, as it came.
pub proof fn input_reaches_its_devices(row: u8, col: u8, down: bool, port: u8, lines: u8)
    ensures
        crate::routing::elsewhere(HostInput::Key { row, col, down }) == Some(
            DeviceInput::OverlayKey { row, col, down },
        ),
        crate::routing::elsewhere(HostInput::Joystick(lines)) == Some(
            DeviceInput::OverlayJoystick { port: 2, lines },
        ),
        1 <= port <= 2 ==> crate::routing::elsewhere(HostInput::JoystickPort { port, lines }) == Some(
            DeviceInput::OverlayJoystick { port, lines },
        ),
        port == 0 || port > 2 ==> crate::routing::elsewhere(
            HostInput::JoystickPort { port, lines },
        ) is None,
        crate::routing::elsewhere(HostInput::MenuButton(down)) == Some(
            DeviceInput::MenuButton(down),
        ),
        crate::routing::elsewhere(HostInput::UsbKey { usage: row, down }) == Some(
            DeviceInput::UsbKey { usage: row, down },
        ),
        crate::routing::elsewhere(HostInput::UsbPlug { port, connected: down }) == Some(
            DeviceInput::UsbPlug { port, connected: down },
        ),
        crate::routing::elsewhere(HostInput::Restore(down)) is None,
{
}

/// A mouse's movement goes on as it came.
pub proof fn mice_reach_the_hub(dx: i32, dy: i32, wheel: i32, buttons: u8)
    ensures
        crate::routing::elsewhere(HostInput::UsbMouse { dx, dy, wheel, buttons }) == Some(
            DeviceInput::UsbMouse { dx, dy, wheel, buttons },
        ),
{
}

/// A joystick moves the lines of its own control port, the restore key its level, and
/// other keys are assigned in the order up, down, left, right.
pub proof fn input_reaches_the_port<B: C64Backend>(
    p: PortState<B::State>,
    port: u8,
    lines: u8,
    codes: [u8; 4],
    fire: u8,
    held: bool,
    owned: bool,
)
    ensures
        ({
            let one = crate::routing::port_after::<B>(
                p,
                HostInput::JoystickPort { port: 1, lines },
                owned,
            ).regs;
            let two = crate::routing::port_after::<B>(
                p,
                HostInput::JoystickPort { port: 2, lines },
                owned,
            ).regs;
            let key = crate::routing::port_after::<B>(p, HostInput::Restore(held), owned).regs;
            let keys = crate::routing::port_after::<B>(
                p,
                HostInput::WasdToJoy { port, codes, fire },
                owned,
            ).regs;
            &&& one.joy1 == lines && one.joy2 == p.regs.joy2
            &&& two.joy2 == lines && two.joy1 == p.regs.joy1
            &&& key.restore == held && key.joy1 == p.regs.joy1 && key.joy2 == p.regs.joy2
            &&& keys.up == codes@[0] && keys.down == codes@[1] && keys.left == codes@[2] && keys.right
                == codes@[3] && keys.fire == fire
            &&& keys.keys_port == (if 1 <= port <= 2 {
                port
            } else {
                p.regs.keys_port
            })
        }),
        crate::routing::port_after::<B>(p, HostInput::Joystick(lines), owned)
            == crate::routing::port_after::<B>(
            p,
            HostInput::JoystickPort { port: 2, lines },
            owned,
        ),
        port == 0 || port > 2 ==> crate::routing::port_after::<B>(
            p,
            HostInput::JoystickPort { port, lines },
            owned,
        ) == p,
{
}

/// No key goes down in the C64 while the overlay owns the keyboard, and every release
/// arrives as it would without.
pub proof fn the_overlay_keeps_presses<B: C64Backend>(p: PortState<B::State>, row: u8, col: u8)
    ensures
        crate::routing::port_after::<B>(p, HostInput::Key { row, col, down: true }, true) == p,
        crate::routing::port_after::<B>(p, HostInput::Key { row, col, down: false }, true)
            == crate::routing::port_after::<B>(p, HostInput::Key { row, col, down: false }, false),
{
}

/// A reset of the C64 is latched as source 7, an unlock raises high source 6.
pub proof fn events_have_their_sources(irq: IrqState, e: UciEvents)
    ensures
        crate::c64_state::events_taken(irq, e) == ({
            let a = if e.c64_reset {
                irq.pulsed(7)
            } else {
                irq
            };
            if e.unlock {
                a.with_high(6, true)
            } else {
                a
            }
        }),
{
}

/// What a halt says: who called, from the return address or from the stack; an
/// assertion's file and line, an exception's cause, place and value, a trap's cause and
/// place.
pub proof fn halts_say_why(
    h: FaultHooks,
    breakpoints: Seq<u32>,
    symbols: Symbols,
    ram: Seq<u8>,
    c: CoreState,
)
    ensures
        ({
            let s = crate::hooks::stop(h, breakpoints, symbols, ram, c);
            let at = |k: int| ram[((c.sp + h.panic_ra_slot + k) % 0x1_0000_0000) % ram.len() as int];
            let caller = (at(0) + 256 * at(1) + 65536 * at(2) + 16777216 * at(3)) as u32;
            let memory = c.pc == h.panic_loop;
            let assertion = !memory && c.pc == h.assert_called;
            let exception = !memory && !assertion && c.pc == h.exception;
            let trap = !memory && !assertion && !exception && c.pc == h.early_trap;
            &&& memory ==> s == Some(
                Exit::Halted(
                    "get_mem PANIC: pvPortMalloc returned NULL, get_mem called from "@
                        + symbols.text(caller),
                ),
            )
            &&& assertion ==> s == Some(
                Exit::Halted(
                    "vAssertCalled called from "@ + symbols.text(c.ra) + " ("@ + crate::hooks::c_text(
                        ram,
                        c.a0,
                    ) + ":"@ + crate::numbers::decimal((c.a1 % 65536) as nat) + ")"@,
                ),
            )
            &&& exception ==> s == Some(
                Exit::Halted(
                    "C_exception_handler called from "@ + symbols.text(c.ra) + ": cause "@
                        + crate::symbols::hex8(c.a0) + " at "@ + symbols.text(c.a1) + " value "@
                        + crate::symbols::hex8(c.a3),
                ),
            )
            &&& trap ==> s == Some(
                Exit::Halted(
                    "__crt0_dummy_trap_handler entered: mcause "@ + crate::symbols::hex8(c.mcause)
                        + " mepc "@ + symbols.text(c.mepc),
                ),
            )
        }),
{
    let slot = crate::hooks::plus(c.sp, h.panic_ra_slot);
    assert(slot == (c.sp + h.panic_ra_slot) % 0x1_0000_0000);
    assert(crate::hooks::plus(slot, 1) == (c.sp + h.panic_ra_slot + 1) % 0x1_0000_0000);
    assert(crate::hooks::plus(slot, 2) == (c.sp + h.panic_ra_slot + 2) % 0x1_0000_0000);
    assert(crate::hooks::plus(slot, 3) == (c.sp + h.panic_ra_slot + 3) % 0x1_0000_0000);
}

} // verus!
