//! Firmware symbols: names for addresses.
use crate::numbers::{push_hex, push_hex_padded};
use crate::text::{chars_of, is};
use vstd::prelude::*;

verus! {

/// A function or label.
#[derive(Debug)]
pub struct Symbol {
    pub addr: u32,
    /// Bytes; a label has none and names its own address alone.
    pub size: u32,
    pub name: String,
    pub mangled: String,
}

impl Symbol {
    /// The symbol names this address.
    pub open spec fn covers(self, addr: u32) -> bool {
        self.addr <= addr && (addr < self.addr + self.size || addr == self.addr)
    }
}

/// The symbols of a firmware image.
#[derive(Debug)]
pub struct Symbols {
    pub syms: Vec<Symbol>,
}

/// `0x` and eight hexadecimal digits.
pub open spec fn hex8(n: u32) -> Seq<char> {
    "0x"@ + crate::numbers::hex_padded(n as nat, 8)
}

/// `0x` and two hexadecimal digits.
pub open spec fn hex2(n: u8) -> Seq<char> {
    "0x"@ + crate::numbers::hex_padded(n as nat, 2)
}

/// `0x` and as many hexadecimal digits as it takes.
pub open spec fn hex(n: u32) -> Seq<char> {
    "0x"@ + crate::numbers::hexadecimal(n as nat)
}

/// An address, with the name and offset found for it.
pub open spec fn place(addr: u32, found: Option<(Seq<char>, u32)>) -> Seq<char> {
    match found {
        Some((name, off)) => if off == 0 {
            name
        } else {
            name + "+"@ + hex(off)
        },
        None => hex8(addr),
    }
}

/// Append `0x` and eight hexadecimal digits.
pub fn push_hex8(out: &mut String, n: u32)
    ensures
        final(out)@ == old(out)@ + hex8(n),
{
    let ghost start = out@;
    out.append("0x");
    push_hex_padded(out, n, 8);
    assert(out@ =~= start + hex8(n));
}

/// Append `0x` and two hexadecimal digits.
pub fn push_hex2(out: &mut String, n: u8)
    ensures
        final(out)@ == old(out)@ + hex2(n),
{
    let ghost start = out@;
    out.append("0x");
    push_hex_padded(out, n as u32, 2);
    assert(out@ =~= start + hex2(n));
}

/// Append `0x` and the hexadecimal digits of `n`.
pub fn push_hex0(out: &mut String, n: u32)
    ensures
        final(out)@ == old(out)@ + hex(n),
{
    let ghost start = out@;
    out.append("0x");
    push_hex(out, n);
    assert(out@ =~= start + hex(n));
}

/// The number of the first symbol from `from` on that names `addr`.
pub open spec fn first_covering(syms: Seq<Symbol>, addr: u32, from: int) -> Option<int>
    decreases syms.len() - from,
{
    if from < 0 || from >= syms.len() {
        None
    } else if syms[from].covers(addr) {
        Some(from)
    } else {
        first_covering(syms, addr, from + 1)
    }
}

/// The first of the symbols with this name.
pub open spec fn first_named(syms: Seq<Symbol>, name: Seq<char>, from: int) -> Option<int>
    decreases syms.len() - from,
{
    if from < 0 || from >= syms.len() {
        None
    } else if syms[from].name@ == name {
        Some(from)
    } else {
        first_named(syms, name, from + 1)
    }
}

/// The first of the symbols with this mangled name.
pub open spec fn first_mangled(syms: Seq<Symbol>, name: Seq<char>, from: int) -> Option<int>
    decreases syms.len() - from,
{
    if from < 0 || from >= syms.len() {
        None
    } else if syms[from].mangled@ == name {
        Some(from)
    } else {
        first_mangled(syms, name, from + 1)
    }
}

impl Symbols {
    /// The name and offset of an address.
    pub open spec fn found(self, addr: u32) -> Option<(Seq<char>, u32)> {
        match first_covering(self.syms@, addr, 0) {
            Some(i) => Some((self.syms@[i].name@, (addr - self.syms@[i].addr) as u32)),
            None => None,
        }
    }

    /// The text of an address.
    pub open spec fn text(self, addr: u32) -> Seq<char> {
        place(addr, self.found(addr))
    }

    /// The address of a name.
    pub open spec fn address(self, name: Seq<char>) -> Option<u32> {
        match first_named(self.syms@, name, 0) {
            Some(i) => Some(self.syms@[i].addr),
            None => None,
        }
    }

    /// No symbols.
    pub fn empty() -> (s: Symbols)
        ensures
            s.syms@.len() == 0,
    {
        Symbols { syms: Vec::new() }
    }

    pub fn from_symbols(syms: Vec<Symbol>) -> (s: Symbols)
        ensures
            s.syms == syms,
    {
        Symbols { syms }
    }

    /// The address of the first symbol with this name.
    pub fn addr_of(&self, name: &str) -> (r: Option<u32>)
        ensures
            r == self.address(name@),
    {
        let mut i: usize = 0;
        while i < self.syms.len()
            invariant
                i <= self.syms@.len(),
                first_named(self.syms@, name@, 0) == first_named(self.syms@, name@, i as int),
            decreases self.syms@.len() - i,
        {
            if is(&chars_of(self.syms[i].name.as_str()), name) {
                return Some(self.syms[i].addr);
            }
            i = i + 1;
        }
        None
    }

    /// The number of the first symbol with this mangled name.
    pub fn find_mangled(&self, name: &str) -> (r: Option<usize>)
        ensures
            match r {
                Some(i) => first_mangled(self.syms@, name@, 0) == Some(i as int) && i
                    < self.syms@.len(),
                None => first_mangled(self.syms@, name@, 0) is None,
            },
    {
        let mut i: usize = 0;
        while i < self.syms.len()
            invariant
                i <= self.syms@.len(),
                first_mangled(self.syms@, name@, 0) == first_mangled(self.syms@, name@, i as int),
            decreases self.syms@.len() - i,
        {
            if is(&chars_of(self.syms[i].mangled.as_str()), name) {
                return Some(i);
            }
            i = i + 1;
        }
        None
    }

    /// The number of the first symbol that names `addr`, and the offset in it.
    pub fn lookup(&self, addr: u32) -> (r: Option<(usize, u32)>)
        ensures
            match r {
                Some((i, off)) => {
                    &&& i < self.syms@.len()
                    &&& first_covering(self.syms@, addr, 0) == Some(i as int)
                    &&& off == addr - self.syms@[i as int].addr
                },
                None => first_covering(self.syms@, addr, 0) is None,
            },
    {
        let mut i: usize = 0;
        while i < self.syms.len()
            invariant
                i <= self.syms@.len(),
                first_covering(self.syms@, addr, 0) == first_covering(self.syms@, addr, i as int),
            decreases self.syms@.len() - i,
        {
            let s = &self.syms[i];
            if s.addr <= addr && (addr - s.addr < s.size || addr == s.addr) {
                return Some((i, addr - s.addr));
            }
            i = i + 1;
        }
        None
    }

    /// Append the text of an address: a name, a name and an offset, or the bare
    /// address.
    pub fn push_place(&self, out: &mut String, addr: u32)
        ensures
            final(out)@ == old(out)@ + self.text(addr),
    {
        let ghost start = out@;
        match self.lookup(addr) {
            Some((i, off)) => {
                out.append(self.syms[i].name.as_str());
                if off != 0 {
                    out.append("+");
                    push_hex0(out, off);
                }
            },
            None => push_hex8(out, addr),
        }
        assert(out@ =~= start + self.text(addr));
    }

    /// The text of an address.
    pub fn format(&self, addr: u32) -> (s: String)
        ensures
            s@ == self.text(addr),
    {
        let mut s = String::new();
        self.push_place(&mut s, addr);
        assert(s@ =~= self.text(addr));
        s
    }
}

} // verus!
