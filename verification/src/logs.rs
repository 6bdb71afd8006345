//! Lines about bus accesses.
use crate::c64host::C64Backend;
use crate::iomap::IoMap;
use crate::numbers::{push_decimal, push_decimal_padded};
use crate::symbols::{push_hex0, push_hex2, push_hex8, Symbols};
use vstd::prelude::*;

verus! {

/// A recorded access.
#[derive(Clone, Copy, Debug, PartialEq, Eq, Structural)]
pub struct Access {
    /// Address of the instruction.
    pub pc: u32,
    pub addr: u32,
    pub val: u8,
    pub write: bool,
    /// Accesses to devices are traced.
    pub trace: bool,
    /// No device answered, and that is logged.
    pub unmapped: bool,
}

/// How often an address without a device was read and written.
#[derive(Clone, Copy, Debug, PartialEq, Eq, Structural)]
pub struct Unmapped {
    pub addr: u32,
    pub reads: u64,
    pub writes: u64,
}

/// `W` for a write, `R` for a read.
pub open spec fn rw(write: bool) -> Seq<char> {
    if write {
        "W"@
    } else {
        "R"@
    }
}

/// The device and offset that an address belongs to.
pub open spec fn target<B: C64Backend>(io: IoMap<B>, addr: u32) -> Seq<char> {
    match io@.resolved(addr) {
        Some((dev, off)) => io@.devices[dev as int].name() + "+"@ + crate::symbols::hex(off),
        None => "unmapped"@,
    }
}

/// `io R/W addr val device+off @pc place`.
pub open spec fn io_line(a: Access, target: Seq<char>, place: Seq<char>) -> Seq<char> {
    "io "@ + rw(a.write) + " "@ + crate::symbols::hex8(a.addr) + " "@ + crate::symbols::hex2(a.val)
        + " "@ + target + " @"@ + crate::symbols::hex8(a.pc) + " "@ + place
}

/// `unmapped R/W addr [val] @pc place`.
pub open spec fn unmapped_line(a: Access, place: Seq<char>) -> Seq<char> {
    let head = "unmapped "@ + rw(a.write) + " "@ + crate::symbols::hex8(a.addr);
    let with_value = if a.write {
        head + " "@ + crate::symbols::hex2(a.val)
    } else {
        head
    };
    with_value + " @"@ + crate::symbols::hex8(a.pc) + " "@ + place
}

/// The lines about accesses, in order: the traced ones, and those that no device
/// answered.
pub open spec fn lines_about<B: C64Backend>(
    io: IoMap<B>,
    symbols: Symbols,
    accesses: Seq<Access>,
) -> Seq<Seq<char>>
    decreases accesses.len(),
{
    if accesses.len() == 0 {
        Seq::empty()
    } else {
        let a = accesses.last();
        let before = lines_about(io, symbols, accesses.drop_last());
        let traced = if a.trace {
            before.push(io_line(a, target(io, a.addr), symbols.text(a.pc)))
        } else {
            before
        };
        if a.unmapped {
            traced.push(unmapped_line(a, symbols.text(a.pc)))
        } else {
            traced
        }
    }
}

fn push_rw(out: &mut String, write: bool)
    ensures
        final(out)@ == old(out)@ + rw(write),
{
    if write {
        out.append("W");
    } else {
        out.append("R");
    }
}

/// `io R/W addr val device+off @pc place`.
pub fn format_io<B: C64Backend>(io: &IoMap<B>, symbols: &Symbols, a: &Access) -> (s: String)
    requires
        io@.valid(),
    ensures
        s@ == io_line(*a, target(*io, a.addr), symbols.text(a.pc)),
{
    let mut s = String::from_str("io ");
    push_rw(&mut s, a.write);
    s.append(" ");
    push_hex8(&mut s, a.addr);
    s.append(" ");
    push_hex2(&mut s, a.val);
    s.append(" ");
    let ghost head = s@;
    match io.resolve(a.addr) {
        Some((dev, off)) => {
            s.append(io.devices[dev].name());
            s.append("+");
            push_hex0(&mut s, off);
        },
        None => s.append("unmapped"),
    }
    assert(s@ =~= head + target(*io, a.addr));
    s.append(" @");
    push_hex8(&mut s, a.pc);
    s.append(" ");
    symbols.push_place(&mut s, a.pc);
    s
}

/// `unmapped R/W addr [val] @pc place`.
pub fn format_unmapped(symbols: &Symbols, a: &Access) -> (s: String)
    ensures
        s@ == unmapped_line(*a, symbols.text(a.pc)),
{
    let mut s = String::from_str("unmapped ");
    push_rw(&mut s, a.write);
    s.append(" ");
    push_hex8(&mut s, a.addr);
    if a.write {
        s.append(" ");
        push_hex2(&mut s, a.val);
    }
    s.append(" @");
    push_hex8(&mut s, a.pc);
    s.append(" ");
    symbols.push_place(&mut s, a.pc);
    s
}

/// The lines about the accesses of an instruction.
pub fn access_lines<B: C64Backend>(io: &IoMap<B>, symbols: &Symbols, accesses: &Vec<Access>) -> (v:
    Vec<String>)
    requires
        io@.valid(),
    ensures
        crate::execute::texts(v@) == lines_about(*io, *symbols, accesses@),
{
    let mut v: Vec<String> = Vec::new();
    let mut i: usize = 0;
    assert(accesses@.take(0) =~= Seq::empty());
    assert(crate::execute::texts(v@) =~= Seq::empty());
    while i < accesses.len()
        invariant
            i <= accesses@.len(),
            io@.valid(),
            crate::execute::texts(v@) == lines_about(*io, *symbols, accesses@.take(i as int)),
        decreases accesses@.len() - i,
    {
        assert(accesses@.take(i + 1).drop_last() =~= accesses@.take(i as int));
        let a = accesses[i];
        if a.trace {
            let ghost before = crate::execute::texts(v@);
            let line = format_io(io, symbols, &a);
            v.push(line);
            assert(crate::execute::texts(v@) =~= before.push(line@));
        }
        if a.unmapped {
            let ghost before = crate::execute::texts(v@);
            let line = format_unmapped(symbols, &a);
            v.push(line);
            assert(crate::execute::texts(v@) =~= before.push(line@));
        }
        i = i + 1;
    }
    assert(accesses@.take(accesses@.len() as int) =~= accesses@);
    v
}

/// A row of the table of unmapped accesses.
pub open spec fn row(u: Unmapped) -> Seq<char> {
    "  "@ + crate::symbols::hex8(u.addr) + " "@ + crate::numbers::padded(
        crate::numbers::decimal(u.reads as nat),
        9,
    ) + " "@ + crate::numbers::padded(crate::numbers::decimal(u.writes as nat), 9) + "\n"@
}

/// The rows of the table.
pub open spec fn rows(counts: Seq<Unmapped>) -> Seq<char>
    decreases counts.len(),
{
    if counts.len() == 0 {
        Seq::empty()
    } else {
        rows(counts.drop_last()) + row(counts.last())
    }
}

/// The table of unmapped accesses.
pub open spec fn table(counts: Seq<Unmapped>) -> Seq<char> {
    let head = "unmapped summary: "@ + crate::numbers::decimal(counts.len()) + " addresses\n"@;
    if counts.len() == 0 {
        head
    } else {
        head + "  address        reads    writes\n"@ + rows(counts)
    }
}

fn push_row(out: &mut String, u: &Unmapped)
    ensures
        final(out)@ == old(out)@ + row(*u),
{
    let ghost start = out@;
    out.append("  ");
    push_hex8(out, u.addr);
    out.append(" ");
    push_decimal_padded(out, u.reads, 9);
    out.append(" ");
    push_decimal_padded(out, u.writes, 9);
    out.append("\n");
    assert(out@ =~= start + row(*u));
}

/// Table of unmapped accesses for the end of a run; None unless they are logged.
pub fn unmapped_summary(logged: bool, counts: &Vec<Unmapped>) -> (r: Option<String>)
    ensures
        !logged ==> r is None,
        logged ==> (r matches Some(s) && s@ == table(counts@)),
{
    if !logged {
        return None;
    }
    let n: usize = counts.len();
    let mut s = String::from_str("unmapped summary: ");
    push_decimal(&mut s, n as u64);
    s.append(" addresses\n");
    if n > 0 {
        s.append("  address        reads    writes\n");
        let ghost head = s@;
        let mut i: usize = 0;
        assert(counts@.take(0) =~= Seq::empty());
        assert(s@ =~= head + rows(counts@.take(0)));
        while i < n
            invariant
                i <= n == counts@.len(),
                s@ == head + rows(counts@.take(i as int)),
            decreases n - i,
        {
            assert(counts@.take(i + 1).drop_last() =~= counts@.take(i as int));
            push_row(&mut s, &counts[i]);
            assert(s@ =~= head + rows(counts@.take(i + 1)));
            i = i + 1;
        }
        assert(counts@.take(n as int) =~= counts@);
    }
    Some(s)
}

} // verus!
