//! What holds of the lines that a run leaves behind: which accesses are told, and what a
//! line says of one.
use crate::c64host::C64Backend;
use crate::iomap::IoMap;
use crate::logs::{Access, Unmapped};
use crate::symbols::Symbols;
use crate::trace::Trace;
use vstd::prelude::*;

verus! {

/// Each access adds the line of a traced one and then the line of one that no device
/// answered, and no other.
pub proof fn accesses_are_told_in_order<B: C64Backend>(
    io: IoMap<B>,
    symbols: Symbols,
    accesses: Seq<Access>,
    a: Access,
)
    ensures
        ({
            let before = crate::logs::lines_about(io, symbols, accesses);
            let traced = crate::logs::io_line(
                a,
                crate::logs::target(io, a.addr),
                symbols.text(a.pc),
            );
            let missed = crate::logs::unmapped_line(a, symbols.text(a.pc));
            crate::logs::lines_about(io, symbols, accesses.push(a)) == before + (if a.trace {
                seq![traced]
            } else {
                Seq::empty()
            }) + (if a.unmapped {
                seq![missed]
            } else {
                Seq::empty()
            })
        }),
        crate::logs::lines_about(io, symbols, Seq::empty()).len() == 0,
{
    assert(accesses.push(a).drop_last() =~= accesses);
    let before = crate::logs::lines_about(io, symbols, accesses);
    let traced = crate::logs::io_line(a, crate::logs::target(io, a.addr), symbols.text(a.pc));
    let missed = crate::logs::unmapped_line(a, symbols.text(a.pc));
    assert(crate::logs::lines_about(io, symbols, accesses.push(a)) =~= before + (if a.trace {
        seq![traced]
    } else {
        Seq::empty()
    }) + (if a.unmapped {
        seq![missed]
    } else {
        Seq::empty()
    }));
}

/// A traced access is told with its direction, address and value, who answered, and
/// where the firmware was.
pub proof fn a_traced_access_is_told_whole(a: Access, who: Seq<char>, place: Seq<char>)
    ensures
        crate::logs::io_line(a, who, place) == seq![
            'i',
            'o',
            ' ',
            if a.write {
                'W'
            } else {
                'R'
            },
            ' ',
        ] + crate::symbols::hex8(a.addr) + seq![' '] + crate::symbols::hex2(a.val) + seq![' '] + who
            + seq![' ', '@'] + crate::symbols::hex8(a.pc) + seq![' '] + place,
{
    reveal_strlit("io ");
    reveal_strlit("W");
    reveal_strlit("R");
    reveal_strlit(" ");
    reveal_strlit(" @");
    let head = seq![
        'i',
        'o',
        ' ',
        if a.write {
            'W'
        } else {
            'R'
        },
        ' ',
    ];
    assert("io "@ + crate::logs::rw(a.write) + " "@ =~= head);
    assert(" "@ =~= seq![' ']);
    assert(" @"@ =~= seq![' ', '@']);
}

/// An access that no device answered is told with its direction and address, with the
/// value if it was a write, and where the firmware was.
pub proof fn a_missed_access_is_told(a: Access, place: Seq<char>)
    ensures
        ({
            let head = seq!['u', 'n', 'm', 'a', 'p', 'p', 'e', 'd', ' '] + seq![
                if a.write {
                    'W'
                } else {
                    'R'
                },
                ' ',
            ] + crate::symbols::hex8(a.addr);
            let told = if a.write {
                head + seq![' '] + crate::symbols::hex2(a.val)
            } else {
                head
            };
            crate::logs::unmapped_line(a, place) == told + seq![' ', '@'] + crate::symbols::hex8(a.pc)
                + seq![' '] + place
        }),
{
    reveal_strlit("unmapped ");
    reveal_strlit("W");
    reveal_strlit("R");
    reveal_strlit(" ");
    reveal_strlit(" @");
    assert(" "@ =~= seq![' ']);
    assert(" @"@ =~= seq![' ', '@']);
    let w = seq!['u', 'n', 'm', 'a', 'p', 'p', 'e', 'd', ' '];
    assert("unmapped "@ =~= w);
    assert("unmapped "@ + crate::logs::rw(a.write) + " "@ =~= w + seq![
        if a.write {
            'W'
        } else {
            'R'
        },
        ' ',
    ]);
}

/// The table of accesses that no device answered: how many addresses, then a row of
/// address, reads and writes for each, in order.
pub proof fn missed_accesses_are_counted(counts: Seq<Unmapped>, u: Unmapped)
    ensures
        crate::logs::rows(counts.push(u)) == crate::logs::rows(counts) + (seq![' ', ' ']
            + crate::symbols::hex8(u.addr) + seq![' '] + crate::numbers::padded(
            crate::numbers::decimal(u.reads as nat),
            9,
        ) + seq![' '] + crate::numbers::padded(crate::numbers::decimal(u.writes as nat), 9) + seq![
            '\n',
        ]),
        crate::logs::rows(Seq::empty()).len() == 0,
{
    reveal_strlit("  ");
    reveal_strlit(" ");
    reveal_strlit("\n");
    assert("  "@ =~= seq![' ', ' ']);
    assert(" "@ =~= seq![' ']);
    assert("\n"@ =~= seq!['\n']);
    assert(counts.push(u).drop_last() =~= counts);
}

/// A line of the trace: the address, and behind it its name and distance if it has one.
pub proof fn traced_addresses_are_named(symbols: Symbols, pcs: Seq<u32>, pc: u32)
    ensures
        crate::trace::report_lines(symbols, pcs.push(pc)) == crate::trace::report_lines(symbols, pcs)
            + (seq![' ', ' '] + crate::symbols::hex8(pc) + (match symbols.found(pc) {
            Some(_) => seq![' '] + symbols.text(pc),
            None => Seq::empty(),
        }) + seq!['\n']),
        crate::trace::report_lines(symbols, Seq::empty()).len() == 0,
{
    reveal_strlit("  ");
    reveal_strlit(" ");
    reveal_strlit("\n");
    assert("  "@ =~= seq![' ', ' ']);
    assert(" "@ =~= seq![' ']);
    assert("\n"@ =~= seq!['\n']);
    assert(pcs.push(pc).drop_last() =~= pcs);
    if let Some((name, off)) = symbols.found(pc) {
        assert(seq![' '] + (name + "+"@ + crate::symbols::hex(off)) =~= seq![' '] + name + "+"@
            + crate::symbols::hex(off));
    }
    let line = seq![' ', ' '] + crate::symbols::hex8(pc) + (match symbols.found(pc) {
        Some(_) => seq![' '] + symbols.text(pc),
        None => Seq::empty(),
    }) + seq!['\n'];
    assert(crate::trace::report_line(symbols, pc) =~= line);
}

/// A recorded trace is reported with how many steps are shown of how many there were.
pub proof fn traces_tell_how_much(t: Trace, symbols: Symbols)
    ensures
        crate::trace::report(true, t, symbols) == "trace: last "@ + crate::numbers::decimal(
            if t.count < 256 {
                t.count
            } else {
                256
            },
        ) + " of "@ + crate::numbers::decimal(t.count) + " steps, oldest first\n"@
            + crate::trace::report_lines(symbols, t.pcs),
{
}

} // verus!
