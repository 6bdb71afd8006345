//! The cartridge as the C64's slot sees it: the command interface in front of the
//! cartridge logic, under a forced decode if the firmware asks for it.
use crate::cart::CartLogic;
use crate::cart_state::{CartLines, CartState, EPYX_CYCLES};
use crate::uci::{UciShared, UciState};
use vstd::prelude::*;

verus! {

/// How the C64 decodes the slot.
#[derive(Clone, Copy, Debug, PartialEq, Eq, Structural)]
pub enum MapperType {
    Normal8k,
    Normal16k,
    Ultimax,
}

/// The decode that lines select.
pub open spec fn decode(l: CartLines) -> MapperType {
    if l.exrom == 0 && l.game == 0 {
        MapperType::Normal16k
    } else if l.exrom == 1 && l.game == 0 {
        MapperType::Ultimax
    } else {
        MapperType::Normal8k
    }
}

/// The cartridge in the C64's slot.
pub struct CartProxy {
    pub cart: CartLogic,
    /// The firmware forces the Ultimax decode.
    pub forced_ultimax: bool,
}

/// What the slot holds.
#[verifier::ext_equal]
pub struct ProxyState {
    pub cart: CartState,
    pub forced: bool,
}

impl View for CartProxy {
    type V = ProxyState;

    open spec fn view(&self) -> ProxyState {
        ProxyState { cart: self.cart@, forced: self.forced_ultimax }
    }
}

impl ProxyState {
    /// EXROM and GAME: the forced decode pulls GAME low with EXROM high whatever the
    /// cartridge drives.
    pub open spec fn lines(self) -> CartLines {
        if self.forced {
            CartLines { exrom: 1, game: 0 }
        } else {
            self.cart.regs.lines()
        }
    }

    /// What a read returns: from the command interface where it claims the address,
    /// else from the cartridge, if that answers.
    pub open spec fn read(self, uci: UciState, addr: u16, clk: u64) -> Option<u8> {
        match uci.regs.claimed(addr) {
            Some(off) => Some(uci.c64_value(off) as u8),
            None => self.cart.at(clk).peeked(addr),
        }
    }

    /// The slot after a read.
    pub open spec fn after_read(self, uci: UciState, addr: u16, clk: u64) -> ProxyState {
        match uci.regs.claimed(addr) {
            Some(_) => self,
            None => ProxyState { cart: self.cart.at(clk).after_read(addr), ..self },
        }
    }

    /// The slot after a write.
    pub open spec fn after_write(self, uci: UciState, addr: u16, val: u8, clk: u64) -> ProxyState {
        match uci.regs.claimed(addr) {
            Some(_) => self,
            None => ProxyState { cart: self.cart.at(clk).after_write(addr, val), ..self },
        }
    }

    /// A write stays in the slot and does not land in RAM.
    pub open spec fn consumes(self, uci: UciState, addr: u16, clk: u64) -> bool {
        uci.regs.claimed(addr) is Some || self.cart.at(clk).regs.consumes(addr, self.forced)
    }
}

/// The command interface after a read.
pub open spec fn uci_after_read(uci: UciState, addr: u16) -> UciState {
    match uci.regs.claimed(addr) {
        Some(off) => uci.after_c64_read(off),
        None => uci,
    }
}

/// The command interface after a write.
pub open spec fn uci_after_write(uci: UciState, addr: u16, val: u8) -> UciState {
    match uci.regs.claimed(addr) {
        Some(off) => uci.after_c64_write(off, val),
        None => uci,
    }
}

impl CartProxy {
    /// The cartridge logic alone: there is nothing in the expansion port.
    pub fn new(cart: CartLogic, forced_ultimax: bool) -> (p: CartProxy)
        ensures
            p@ == (ProxyState { cart: cart@, forced: forced_ultimax }),
    {
        CartProxy { cart, forced_ultimax }
    }

    /// EXROM and GAME.
    pub fn get_lines(&self) -> (l: CartLines)
        requires
            self@.cart.regs.valid(),
        ensures
            l == self@.lines(),
    {
        if self.forced_ultimax {
            CartLines { exrom: 1, game: 0 }
        } else {
            self.cart.lines()
        }
    }

    /// How the C64 decodes the slot.
    pub fn mapper_type(&self) -> (t: MapperType)
        requires
            self@.cart.regs.valid(),
        ensures
            t == decode(self@.lines()),
    {
        let l = self.get_lines();
        if l.exrom == 0 && l.game == 0 {
            MapperType::Normal16k
        } else if l.exrom == 1 && l.game == 0 {
            MapperType::Ultimax
        } else {
            MapperType::Normal8k
        }
    }

    /// A 6510 read of the slot, with side effects.
    pub fn read(&mut self, uci: &mut UciShared, addr: u16, clk: u64) -> (v: Option<u8>)
        requires
            old(self)@.cart.regs.valid(),
            old(uci)@.valid(),
            clk + EPYX_CYCLES <= u64::MAX,
        ensures
            v == old(self)@.read(old(uci)@, addr, clk),
            final(self)@ == old(self)@.after_read(old(uci)@, addr, clk),
            final(uci)@ == uci_after_read(old(uci)@, addr),
            final(self)@.cart.regs.valid(),
            final(uci)@.valid(),
    {
        match uci.c64_claims(addr) {
            Some(off) => Some(uci.c64_read(off)),
            None => self.cart.bus_read(addr, clk),
        }
    }

    /// What the cartridge would return, without side effects. The command interface
    /// is not asked.
    pub fn peek(&self, addr: u16) -> (v: Option<u8>)
        requires
            self@.cart.regs.valid(),
        ensures
            v == self@.cart.peeked(addr),
    {
        self.cart.peek(addr)
    }

    /// A 6510 write to the slot; whether it stays there.
    pub fn write(&mut self, uci: &mut UciShared, addr: u16, val: u8, clk: u64) -> (consumed: bool)
        requires
            old(self)@.cart.regs.valid(),
            old(uci)@.valid(),
        ensures
            consumed == old(self)@.consumes(old(uci)@, addr, clk),
            final(self)@ == old(self)@.after_write(old(uci)@, addr, val, clk),
            final(uci)@ == uci_after_write(old(uci)@, addr, val),
            final(self)@.cart.regs.valid(),
            final(uci)@.valid(),
    {
        match uci.c64_claims(addr) {
            Some(off) => {
                let _freeze = uci.c64_write(off, val);
                true
            },
            None => self.cart.bus_write(addr, val, clk, self.forced_ultimax),
        }
    }

    /// The C64's reset line.
    pub fn reset(&mut self)
        requires
            old(self)@.cart.regs.valid(),
        ensures
            final(self)@.forced == old(self)@.forced,
            final(self)@.cart.ddr == old(self)@.cart.ddr,
            final(self)@.cart.regs == old(self)@.cart.regs.taken(
                old(self)@.cart.regs.logic,
                old(self)@.cart.regs.variant,
                true,
                0,
            ),
            final(self)@.cart.regs.valid(),
    {
        self.cart.reset_line();
    }
}

/// The command interface comes first: what it claims never reaches the cartridge,
/// and what it does not claim never reaches it.
pub proof fn the_interface_comes_first(p: ProxyState, uci: UciState, addr: u16, val: u8, clk: u64)
    ensures
        uci.regs.claimed(addr) is Some ==> p.after_write(uci, addr, val, clk) == p && p.after_read(
            uci,
            addr,
            clk,
        ) == p && p.consumes(uci, addr, clk) && p.read(uci, addr, clk) is Some,
        uci.regs.claimed(addr) is None ==> uci_after_write(uci, addr, val) == uci && uci_after_read(
            uci,
            addr,
        ) == uci,
{
}

/// While the command interface is disabled the slot is the cartridge alone.
pub proof fn a_disabled_interface_is_not_there(
    p: ProxyState,
    uci: UciState,
    addr: u16,
    val: u8,
    clk: u64,
)
    requires
        !uci.regs.enabled,
    ensures
        p.read(uci, addr, clk) == p.cart.at(clk).peeked(addr),
        p.after_write(uci, addr, val, clk).cart == p.cart.at(clk).after_write(addr, val),
        p.consumes(uci, addr, clk) == p.cart.at(clk).regs.consumes(addr, p.forced),
{
}

} // verus!
