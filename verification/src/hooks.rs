//! Fault hooks: firmware addresses at which the machine halts, and what it says
//! then.
use crate::iomap::IO_BASE;
use crate::numbers::push_decimal;
use crate::symbols::{push_hex8, Symbols};
use vstd::prelude::*;

verus! {

/// Address of an absent hook. It never equals a program counter: every jump target
/// is a multiple of four.
pub const NO_HOOK: u32 = 0xFFFF_FFFF;

/// The instruction `j .`.
pub const JUMP_TO_SELF: u32 = 0x0000_006F;

/// Longest text read from guest memory.
pub const STRING_LEN: u32 = 128;

/// How a run ended.
#[derive(Debug, PartialEq, Eq)]
pub enum RunExit {
    /// The instruction budget is used up.
    Budget,
    /// The program counter reached a breakpoint; its instruction has not run.
    Breakpoint(u32),
    /// A fault hook fired, or an instruction was illegal.
    Halted(String),
}

/// How a run ended.
pub enum Exit {
    Budget,
    Breakpoint(u32),
    Halted(Seq<char>),
}

impl View for RunExit {
    type V = Exit;

    open spec fn view(&self) -> Exit {
        match self {
            RunExit::Budget => Exit::Budget,
            RunExit::Breakpoint(pc) => Exit::Breakpoint(*pc),
            RunExit::Halted(m) => Exit::Halted(m@),
        }
    }
}

/// The view of an optional exit.
pub open spec fn exit_of(e: Option<RunExit>) -> Option<Exit> {
    match e {
        Some(e) => Some(e@),
        None => None,
    }
}

/// What the halt messages read of the core.
#[derive(Clone, Copy, Debug, PartialEq, Eq, Structural)]
pub struct CoreState {
    pub pc: u32,
    /// Return address, x1.
    pub ra: u32,
    /// Stack pointer, x2.
    pub sp: u32,
    /// Arguments, x10, x11 and x13.
    pub a0: u32,
    pub a1: u32,
    pub a3: u32,
    /// Cause and address of the last trap.
    pub mcause: u32,
    pub mepc: u32,
}

/// Hook addresses.
#[derive(Clone, Copy, Debug, PartialEq, Eq, Structural)]
pub struct FaultHooks {
    /// `vAssertCalled(fileName, lineNo)`: prints and loops forever.
    pub assert_called: u32,
    /// `C_exception_handler(cause, addr, status, value)`: loops forever.
    pub exception: u32,
    /// The trap vector that is active until the scheduler installs its own.
    pub early_trap: u32,
    /// The `j .` on which `get_mem` spins when memory has run out.
    pub panic_loop: u32,
    /// Offset from the stack pointer of the return address that `get_mem` saved.
    pub panic_ra_slot: u32,
}

/// The byte of guest memory at an address, which wraps at the memory's end.
pub open spec fn byte_at(ram: Seq<u8>, addr: u32) -> u8 {
    ram[addr as int % ram.len() as int]
}

/// A little-endian word.
pub open spec fn word(a: u8, b: u8, c: u8, d: u8) -> u32 {
    (a + 256 * b + 65536 * c + 16777216 * d) as u32
}

/// The little-endian word at a position in guest memory.
pub open spec fn word_at(ram: Seq<u8>, at: int) -> u32 {
    word(ram[at], ram[at + 1], ram[at + 2], ram[at + 3])
}

/// The word at an address, byte by byte.
pub open spec fn loose_word(ram: Seq<u8>, addr: u32) -> u32 {
    word(
        byte_at(ram, addr),
        byte_at(ram, plus(addr, 1)),
        byte_at(ram, plus(addr, 2)),
        byte_at(ram, plus(addr, 3)),
    )
}

/// Addresses wrap.
pub open spec fn plus(addr: u32, n: u32) -> u32 {
    ((addr + n) % 0x1_0000_0000) as u32
}

/// The address of instruction `i` of a function at `addr`.
pub open spec fn insn_addr(addr: u32, i: int) -> int {
    addr + 4 * i
}

/// Instructions of a function.
pub open spec fn insn_count(addr: u32, size: u32) -> nat {
    let end = if addr + size > u32::MAX {
        u32::MAX as int
    } else {
        addr + size
    };
    ((end - addr + 3) / 4) as nat
}

/// Every instruction of the first `n` lies in guest memory as a whole.
pub open spec fn readable(ram: Seq<u8>, addr: u32, n: nat) -> bool {
    forall|i: int|
        0 <= i < n ==> #[trigger] insn_addr(addr, i) % ram.len() as int + 4 <= ram.len()
}

/// Instruction `i`.
pub open spec fn insn(ram: Seq<u8>, addr: u32, i: int) -> u32 {
    word_at(ram, insn_addr(addr, i) % ram.len() as int)
}

/// `sw ra, off(sp)`.
pub open spec fn saves_ra(insn: u32) -> bool {
    insn & 0x01FF_F07F == 0x0011_2023
}

/// The offset of a store: the sign-extended immediate.
pub open spec fn store_offset(insn: u32) -> u32 {
    let imm = insn / 0x200_0000 * 32 + insn / 128 % 32;
    if imm < 2048 {
        imm as u32
    } else {
        (imm + 0xFFFF_F000) as u32
    }
}

/// The last `j .` among the first `n` instructions.
pub open spec fn last_loop(ram: Seq<u8>, addr: u32, n: nat) -> Option<u32>
    decreases n,
{
    if n == 0 {
        None
    } else if insn(ram, addr, n - 1) == JUMP_TO_SELF {
        Some(insn_addr(addr, n - 1) as u32)
    } else {
        last_loop(ram, addr, (n - 1) as nat)
    }
}

/// The slot of the first saved return address among the first `n` instructions.
pub open spec fn first_slot(ram: Seq<u8>, addr: u32, n: nat) -> Option<u32>
    decreases n,
{
    if n == 0 {
        None
    } else {
        match first_slot(ram, addr, (n - 1) as nat) {
            Some(s) => Some(s),
            None => if saves_ra(insn(ram, addr, n - 1)) {
                Some(store_offset(insn(ram, addr, n - 1)))
            } else {
                None
            },
        }
    }
}

/// Loop and slot of `get_mem`, unless one of them or part of the code is missing.
pub open spec fn panic_loop(symbols: Symbols, ram: Seq<u8>) -> Option<(u32, u32)> {
    match crate::symbols::first_mangled(symbols.syms@, "_Z7get_memj"@, 0) {
        None => None,
        Some(k) => {
            let addr = symbols.syms@[k].addr;
            let n = insn_count(addr, symbols.syms@[k].size);
            if !readable(ram, addr, n) {
                None
            } else {
                match (last_loop(ram, addr, n), first_slot(ram, addr, n)) {
                    (Some(l), Some(s)) => Some((l, s)),
                    _ => None,
                }
            }
        },
    }
}

fn read_word(ram: &[u8], at: usize) -> (w: u32)
    requires
        at + 4 <= ram@.len(),
    ensures
        w == word_at(ram@, at as int),
{
    ram[at] as u32 + 256 * ram[at + 1] as u32 + 65536 * ram[at + 2] as u32 + 16777216 * ram[at
        + 3] as u32
}

/// The loop of `get_mem` and the slot of its saved return address, found by
/// scanning the function's code. None unless both are there.
pub fn get_mem_panic_loop(symbols: &Symbols, ram: &[u8]) -> (r: Option<(u32, u32)>)
    requires
        ram@.len() > 0,
        ram@.len() <= 0x1_0000_0000,
    ensures
        r == panic_loop(*symbols, ram@),
{
    let k = match symbols.find_mangled("_Z7get_memj") {
        Some(k) => k,
        None => {
            return None;
        },
    };
    let addr: u32 = symbols.syms[k].addr;
    let size: u32 = symbols.syms[k].size;
    let end: u64 = if addr as u64 + size as u64 > u32::MAX as u64 {
        u32::MAX as u64
    } else {
        addr as u64 + size as u64
    };
    let n: u64 = (end - addr as u64 + 3) / 4;
    let len: u64 = ram.len() as u64;
    let mut found: Option<u32> = None;
    let mut slot: Option<u32> = None;
    let mut i: u64 = 0;
    while i < n
        invariant
            i <= n,
            n == insn_count(addr, size),
            crate::symbols::first_mangled(symbols.syms@, "_Z7get_memj"@, 0) == Some(k as int),
            addr == symbols.syms@[k as int].addr,
            size == symbols.syms@[k as int].size,
            addr + 4 * n <= u32::MAX as int + 4,
            len == ram@.len(),
            0 < len <= 0x1_0000_0000,
            readable(ram@, addr, i as nat),
            found == last_loop(ram@, addr, i as nat),
            slot == first_slot(ram@, addr, i as nat),
        decreases n - i,
    {
        let pc: u64 = addr as u64 + 4 * i;
        let at: u64 = pc % len;
        assert(insn_addr(addr, i as int) % ram@.len() as int == at);
        if at + 4 > len {
            assert(!readable(ram@, addr, n as nat));
            return None;
        }
        let w: u32 = read_word(ram, at as usize);
        assert(w == insn(ram@, addr, i as int));
        if w == JUMP_TO_SELF {
            found = Some(pc as u32);
        }
        if w & 0x01FF_F07F == 0x0011_2023 && slot.is_none() {
            let imm: u32 = w / 0x200_0000 * 32 + w / 128 % 32;
            slot =
            Some(
                if imm < 2048 {
                    imm
                } else {
                    imm + 0xFFFF_F000
                },
            );
        }
        i = i + 1;
    }
    match (found, slot) {
        (Some(l), Some(s)) => Some((l, s)),
        _ => None,
    }
}

impl FaultHooks {
    /// No hook at all.
    pub open spec fn absent() -> FaultHooks {
        FaultHooks {
            assert_called: NO_HOOK,
            exception: NO_HOOK,
            early_trap: NO_HOOK,
            panic_loop: NO_HOOK,
            panic_ra_slot: 0,
        }
    }

    /// The address of a named hook.
    pub open spec fn named(symbols: Symbols, name: Seq<char>) -> u32 {
        match symbols.address(name) {
            Some(a) => a,
            None => NO_HOOK,
        }
    }

    /// The hooks of a firmware image.
    pub open spec fn of(symbols: Symbols, ram: Seq<u8>) -> FaultHooks {
        FaultHooks {
            assert_called: Self::named(symbols, "vAssertCalled"@),
            exception: Self::named(symbols, "C_exception_handler"@),
            early_trap: Self::named(symbols, "__crt0_dummy_trap_handler"@),
            panic_loop: match panic_loop(symbols, ram) {
                Some((l, _)) => l,
                None => NO_HOOK,
            },
            panic_ra_slot: match panic_loop(symbols, ram) {
                Some((_, s)) => s,
                None => 0,
            },
        }
    }

    /// Some hook is there.
    pub open spec fn any(self) -> bool {
        self.assert_called != NO_HOOK || self.exception != NO_HOOK || self.early_trap != NO_HOOK
            || self.panic_loop != NO_HOOK
    }

    /// `pc` is a hook's address.
    pub open spec fn at(self, pc: u32) -> bool {
        pc == self.assert_called || pc == self.exception || pc == self.early_trap || pc
            == self.panic_loop
    }

    /// No hook at all.
    pub fn none() -> (h: FaultHooks)
        ensures
            h == FaultHooks::absent(),
    {
        FaultHooks {
            assert_called: NO_HOOK,
            exception: NO_HOOK,
            early_trap: NO_HOOK,
            panic_loop: NO_HOOK,
            panic_ra_slot: 0,
        }
    }

    fn address(symbols: &Symbols, name: &str) -> (a: u32)
        ensures
            a == Self::named(*symbols, name@),
    {
        match symbols.addr_of(name) {
            Some(a) => a,
            None => NO_HOOK,
        }
    }

    /// Hook addresses from the symbols; the loop of `get_mem` is located in the
    /// code in guest memory.
    pub fn resolve(symbols: &Symbols, ram: &[u8]) -> (h: FaultHooks)
        requires
            ram@.len() > 0,
            ram@.len() <= 0x1_0000_0000,
        ensures
            h == FaultHooks::of(*symbols, ram@),
    {
        let (panic_loop, panic_ra_slot) = match get_mem_panic_loop(symbols, ram) {
            Some(p) => p,
            None => (NO_HOOK, 0),
        };
        FaultHooks {
            assert_called: Self::address(symbols, "vAssertCalled"),
            exception: Self::address(symbols, "C_exception_handler"),
            early_trap: Self::address(symbols, "__crt0_dummy_trap_handler"),
            panic_loop,
            panic_ra_slot,
        }
    }

    /// Whether some hook is there.
    pub fn armed(&self) -> (b: bool)
        ensures
            b == self.any(),
    {
        self.assert_called != NO_HOOK || self.exception != NO_HOOK || self.early_trap != NO_HOOK
            || self.panic_loop != NO_HOOK
    }

    /// Whether `pc` is a hook's address.
    pub fn hit(&self, pc: u32) -> (b: bool)
        ensures
            b == self.at(pc),
    {
        pc == self.assert_called || pc == self.exception || pc == self.early_trap || pc
            == self.panic_loop
    }
}

/// Bytes up to a zero, at most `n` of them.
pub open spec fn string_at(ram: Seq<u8>, addr: u32, n: nat) -> Seq<u8>
    decreases n,
{
    if n == 0 || byte_at(ram, addr) == 0 {
        Seq::empty()
    } else {
        seq![byte_at(ram, addr)] + string_at(ram, plus(addr, 1), (n - 1) as nat)
    }
}

/// The address lies in I/O space.
pub open spec fn in_io(addr: u32) -> bool {
    addr & IO_BASE != 0
}

/// Bytes as text, with what is no UTF-8 replaced.
pub uninterp spec fn lossy_text(bytes: Seq<u8>) -> Seq<char>;

/// `String::from_utf8_lossy`. The result is named, not described: how many
/// replacement characters stand for a broken sequence takes long to say.
#[verifier::external_body]
fn from_utf8_lossy(bytes: &Vec<u8>) -> (s: String)
    ensures
        s@ == lossy_text(bytes@),
{
    String::from_utf8_lossy(bytes).into_owned()
}

/// A text argument: what stands in guest memory, or the bare address if reading it
/// would have side effects.
pub open spec fn c_text(ram: Seq<u8>, addr: u32) -> Seq<char> {
    if in_io(addr) {
        crate::symbols::hex8(addr)
    } else {
        lossy_text(string_at(ram, addr, STRING_LEN as nat))
    }
}

fn guest_byte(ram: &[u8], addr: u32) -> (b: u8)
    requires
        ram@.len() > 0,
    ensures
        b == byte_at(ram@, addr),
{
    let at: u64 = addr as u64 % ram.len() as u64;
    ram[at as usize]
}

fn next_addr(addr: u32) -> (r: u32)
    ensures
        r == plus(addr, 1),
{
    if addr == 0xFFFF_FFFF {
        0
    } else {
        addr + 1
    }
}

/// The bytes of a NUL-terminated string, at most [`STRING_LEN`] of them.
pub fn string_bytes(ram: &[u8], addr: u32) -> (v: Vec<u8>)
    requires
        ram@.len() > 0,
    ensures
        v@ == string_at(ram@, addr, STRING_LEN as nat),
{
    let mut v: Vec<u8> = Vec::new();
    let mut at: u32 = addr;
    let mut left: u32 = STRING_LEN;
    assert(v@ + string_at(ram@, at, left as nat) =~= string_at(ram@, addr, STRING_LEN as nat));
    while left > 0
        invariant
            ram@.len() > 0,
            v@ + string_at(ram@, at, left as nat) == string_at(ram@, addr, STRING_LEN as nat),
        decreases left,
    {
        let b = guest_byte(ram, at);
        if b == 0 {
            assert(v@ =~= v@ + string_at(ram@, at, left as nat));
            return v;
        }
        let ghost before = v@;
        v.push(b);
        let ghost rest = string_at(ram@, plus(at, 1), (left - 1) as nat);
        assert(before + (seq![b] + rest) =~= before.push(b) + rest);
        at = next_addr(at);
        left = left - 1;
    }
    assert(v@ =~= v@ + string_at(ram@, at, 0));
    v
}

/// A text argument.
pub fn c_string(ram: &[u8], addr: u32) -> (s: String)
    requires
        ram@.len() > 0,
    ensures
        s@ == c_text(ram@, addr),
{
    if addr & IO_BASE != 0 {
        let mut s = String::new();
        push_hex8(&mut s, addr);
        assert(s@ =~= crate::symbols::hex8(addr));
        s
    } else {
        from_utf8_lossy(&string_bytes(ram, addr))
    }
}

/// `get_mem` found no memory.
pub open spec fn panic_message(caller: Seq<char>) -> Seq<char> {
    "get_mem PANIC: pvPortMalloc returned NULL, get_mem called from "@ + caller
}

/// An assertion of the firmware failed.
pub open spec fn assert_message(caller: Seq<char>, file: Seq<char>, line: u32) -> Seq<char> {
    "vAssertCalled called from "@ + caller + " ("@ + file + ":"@ + crate::numbers::decimal(
        (line % 65536) as nat,
    ) + ")"@
}

/// The firmware's exception handler was called.
pub open spec fn exception_message(
    caller: Seq<char>,
    cause: u32,
    place: Seq<char>,
    value: u32,
) -> Seq<char> {
    "C_exception_handler called from "@ + caller + ": cause "@ + crate::symbols::hex8(cause)
        + " at "@ + place + " value "@ + crate::symbols::hex8(value)
}

/// A trap came before the scheduler.
pub open spec fn trap_message(cause: u32, place: Seq<char>) -> Seq<char> {
    "__crt0_dummy_trap_handler entered: mcause "@ + crate::symbols::hex8(cause) + " mepc "@ + place
}

/// An instruction was illegal.
pub open spec fn illegal_message(insn: u32, place: Seq<char>) -> Seq<char> {
    "illegal instruction "@ + crate::symbols::hex8(insn) + " at "@ + place
}

/// Whether the machine stops before the instruction at the core's address, and with
/// what.
pub open spec fn stop(
    hooks: FaultHooks,
    breakpoints: Seq<u32>,
    symbols: Symbols,
    ram: Seq<u8>,
    core: CoreState,
) -> Option<Exit> {
    if core.pc == hooks.panic_loop {
        let slot = plus(core.sp, hooks.panic_ra_slot);
        Some(Exit::Halted(panic_message(symbols.text(loose_word(ram, slot)))))
    } else if core.pc == hooks.assert_called {
        Some(
            Exit::Halted(assert_message(symbols.text(core.ra), c_text(ram, core.a0), core.a1)),
        )
    } else if core.pc == hooks.exception {
        Some(
            Exit::Halted(
                exception_message(
                    symbols.text(core.ra),
                    core.a0,
                    symbols.text(core.a1),
                    core.a3,
                ),
            ),
        )
    } else if core.pc == hooks.early_trap {
        Some(Exit::Halted(trap_message(core.mcause, symbols.text(core.mepc))))
    } else if breakpoints.contains(core.pc) {
        Some(Exit::Breakpoint(core.pc))
    } else {
        None
    }
}

/// What the machine says when an assertion of the firmware failed.
pub fn assert_text(caller: &str, file: &str, line: u32) -> (m: String)
    ensures
        m@ == assert_message(caller@, file@, line),
{
    let mut m = String::from_str("vAssertCalled called from ");
    m.append(caller);
    m.append(" (");
    m.append(file);
    m.append(":");
    push_decimal(&mut m, (line % 65536) as u64);
    m.append(")");
    m
}

fn among(v: &Vec<u32>, pc: u32) -> (b: bool)
    ensures
        b == v@.contains(pc),
{
    let mut i: usize = 0;
    while i < v.len()
        invariant
            i <= v@.len(),
            forall|k: int| 0 <= k < i ==> v@[k] != pc,
        decreases v@.len() - i,
    {
        if v[i] == pc {
            assert(v@[i as int] == pc);
            return true;
        }
        i = i + 1;
    }
    false
}

fn wrapping(a: u32, b: u32) -> (r: u32)
    ensures
        r == plus(a, b),
{
    ((a as u64 + b as u64) % 0x1_0000_0000) as u32
}

/// Breakpoint or fault hook at the core's address, checked before the instruction
/// runs.
pub fn stop_at(
    hooks: &FaultHooks,
    breakpoints: &Vec<u32>,
    symbols: &Symbols,
    ram: &[u8],
    core: CoreState,
) -> (e: Option<RunExit>)
    requires
        ram@.len() > 0,
    ensures
        exit_of(e) == stop(*hooks, breakpoints@, *symbols, ram@, core),
{
    if core.pc == hooks.panic_loop {
        let slot: u32 = wrapping(core.sp, hooks.panic_ra_slot);
        let ra: u32 = guest_byte(ram, slot) as u32 + 256 * guest_byte(ram, wrapping(slot, 1)) as u32
            + 65536 * guest_byte(ram, wrapping(slot, 2)) as u32 + 16777216 * guest_byte(
            ram,
            wrapping(slot, 3),
        ) as u32;
        let mut m = String::from_str(
            "get_mem PANIC: pvPortMalloc returned NULL, get_mem called from ",
        );
        symbols.push_place(&mut m, ra);
        return Some(RunExit::Halted(m));
    }
    if core.pc == hooks.assert_called {
        let caller = symbols.format(core.ra);
        let file = c_string(ram, core.a0);
        return Some(RunExit::Halted(assert_text(caller.as_str(), file.as_str(), core.a1)));
    }
    if core.pc == hooks.exception {
        let mut m = String::from_str("C_exception_handler called from ");
        symbols.push_place(&mut m, core.ra);
        m.append(": cause ");
        push_hex8(&mut m, core.a0);
        m.append(" at ");
        symbols.push_place(&mut m, core.a1);
        m.append(" value ");
        push_hex8(&mut m, core.a3);
        return Some(RunExit::Halted(m));
    }
    if core.pc == hooks.early_trap {
        let mut m = String::from_str("__crt0_dummy_trap_handler entered: mcause ");
        push_hex8(&mut m, core.mcause);
        m.append(" mepc ");
        symbols.push_place(&mut m, core.mepc);
        return Some(RunExit::Halted(m));
    }
    if among(breakpoints, core.pc) {
        Some(RunExit::Breakpoint(core.pc))
    } else {
        None
    }
}

} // verus!
