//! The IEC processor, the command interface's window, the ACIA and the tape.
use crate::c64host::C64Backend;
use crate::iomap::{add_table, Device, DeviceState, IoMap, MapState, UciDevice};
use crate::machine::MachineConfig;
use crate::regtable::{at, ram, span, Reg, Span, TableState};
use vstd::prelude::*;

verus! {

/// The ACIA without a C64: ring indices and rings are memory, the rest stays at
/// reset, and its interrupt is never raised.
pub open spec fn acia_spans() -> Seq<Span> {
    seq![
        at(0x00, ram()),
        at(0x03, ram()),
        at(0x05, Reg::Const(0x02)),
        at(0x07, Reg::Latch { mask: 0x1F, init: 0 }),
        at(0x08, Reg::Latch { mask: 0x75, init: 0x40 }),
        span(0x800, 0x900, ram()),
        span(0xA00, 0xB00, ram()),
    ]
}

fn acia_table() -> (v: Vec<Span>)
    ensures
        v@ == acia_spans(),
        crate::c64_tables::all_valid(v@),
{
    let v = vec![
        at(0x00, ram()),
        at(0x03, ram()),
        at(0x05, Reg::Const(0x02)),
        at(0x07, Reg::Latch { mask: 0x1F, init: 0 }),
        at(0x08, Reg::Latch { mask: 0x75, init: 0x40 }),
        span(0x800, 0x900, ram()),
        span(0xA00, 0xB00, ram()),
    ];
    assert(v@ =~= acia_spans());
    v
}

/// Tape playback: every read is the status, which says that the FIFO is empty.
pub open spec fn tape_spans() -> Seq<Span> {
    seq![span(0x000, 0x1000, Reg::Const(0x80))]
}

fn tape_table() -> (v: Vec<Span>)
    ensures
        v@ == tape_spans(),
        crate::c64_tables::all_valid(v@),
{
    let v = vec![span(0x000, 0x1000, Reg::Const(0x80))];
    assert(v@ =~= tape_spans());
    v
}

/// The map with the command interface, the ACIA and the tape.
pub open spec fn installed_without_iec<S>(m: MapState<S>) -> MapState<S> {
    m.added(0x1004_4000, 0x1000, DeviceState::Uci).added(
        0x1004_A000,
        0x1000,
        DeviceState::Table(TableState::initial("acia"@, acia_spans())),
    ).added(
        0x100A_0000,
        0x1000,
        DeviceState::Table(TableState::initial("tape-play"@, tape_spans())),
    ).added(
        0x100C_0000,
        0x1000,
        crate::board::sink("tape-record"@),
    )
}

/// The map with these and an IEC processor that is a table.
pub open spec fn installed<S>(m: MapState<S>) -> MapState<S> {
    installed_without_iec(
        m.added(
            0x1002_8000,
            0x1000,
            DeviceState::Table(TableState::initial("iec"@, crate::c64_tables::iec_spans())),
        ),
    )
}

/// Map the windows, with an IEC processor that is a table.
pub fn install<B: C64Backend>(map: &mut IoMap<B>, _cfg: &MachineConfig)
    requires
        old(map)@.valid(),
    ensures
        final(map)@ == installed(old(map)@),
        final(map)@.valid(),
{
    add_table(map, 0x1002_8000, 0x1000, "iec", crate::c64_tables::iec_table());
    install_without_iec(map);
}

/// Map the windows, where another device owns the IEC processor.
pub(crate) fn install_without_iec<B: C64Backend>(map: &mut IoMap<B>)
    requires
        old(map)@.valid(),
    ensures
        final(map)@ == installed_without_iec(old(map)@),
        final(map)@.valid(),
{
    map.add(0x1004_4000, 0x1000, Device::Uci(UciDevice {  }));
    add_table(map, 0x1004_A000, 0x1000, "acia", acia_table());
    add_table(map, 0x100A_0000, 0x1000, "tape-play", tape_table());
    // Recording: status and FIFO read 0.
    add_table(map, 0x100C_0000, 0x1000, "tape-record", Vec::new());
}

} // verus!
