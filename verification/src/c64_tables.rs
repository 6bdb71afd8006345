//! The register tables of the C64 port.
use crate::regtable::{at, ram, span, Reg, Span};
use vstd::prelude::*;

verus! {

/// C64_CORE_VERSION: display only, so any fixed non-zero value serves.
pub const CORE_VERSION: u8 = 0x01;

/// Core config: the firmware's joystick outputs for ports 1 and 2.
pub const JOY1_SWOUT: u32 = 0x30;

pub const JOY2_SWOUT: u32 = 0x31;

pub open spec fn all_valid(spans: Seq<Span>) -> bool {
    forall|i: int| 0 <= i < spans.len() ==> (#[trigger] spans[i]).valid()
}

/// The IEC processor without a backend that has one: version, idle FIFOs, code
/// RAM.
pub open spec fn iec_spans() -> Seq<Span> {
    seq![
        at(0x00, Reg::Const(0x25)),
        at(0x01, Reg::Const(0x01)),
        at(0x02, Reg::Const(0x01)),
        span(0x800, 0x1000, ram()),
    ]
}

pub fn iec_table() -> (v: Vec<Span>)
    ensures
        v@ == iec_spans(),
        all_valid(v@),
{
    let v = vec![
        at(0x00, Reg::Const(0x25)),
        at(0x01, Reg::Const(0x01)),
        at(0x02, Reg::Const(0x01)),
        span(0x800, 0x1000, ram()),
    ];
    assert(v@ =~= iec_spans());
    v
}

/// The command interface without a backend that has it. No C64 command ever
/// arrives; the firmware still reads the buffer bases and its interrupt mask.
pub open spec fn uci_spans() -> Seq<Span> {
    seq![
        at(0x00, Reg::Latch { mask: 0x7E, init: 0 }),
        at(0x01, Reg::Gated { mask: 0x01, veto: 0x80 }),
        at(0x04, Reg::SetBits { cell: 0x0B, mask: 0x07, read: Some(0x00) }),
        at(0x05, Reg::ClearBits { cell: 0x0B, mask: 0x07, read: Some(0x6F) }),
        at(0x06, Reg::Const(0x70)),
        at(0x07, Reg::Const(0xDF)),
        at(0x08, Reg::Const(0xE0)),
        at(0x09, Reg::Const(0xFF)),
        at(0x0B, Reg::Latch { mask: 0x07, init: 0x07 }),
        at(0x0C, Reg::Const(0x80)),
        at(0x0D, Reg::Const(0x03)),
        span(0x800, 0x1000, ram()),
    ]
}

pub fn uci_table() -> (v: Vec<Span>)
    ensures
        v@ == uci_spans(),
        all_valid(v@),
{
    let v = vec![
        at(0x00, Reg::Latch { mask: 0x7E, init: 0 }),
        // Bit 7 set writes the bus ID instead of the enable.
        at(0x01, Reg::Gated { mask: 0x01, veto: 0x80 }),
        at(0x04, Reg::SetBits { cell: 0x0B, mask: 0x07, read: Some(0x00) }),
        at(0x05, Reg::ClearBits { cell: 0x0B, mask: 0x07, read: Some(0x6F) }),
        at(0x06, Reg::Const(0x70)),
        at(0x07, Reg::Const(0xDF)),
        at(0x08, Reg::Const(0xE0)),
        at(0x09, Reg::Const(0xFF)),
        at(0x0B, Reg::Latch { mask: 0x07, init: 0x07 }),
        at(0x0C, Reg::Const(0x80)),
        at(0x0D, Reg::Const(0x03)),
        span(0x800, 0x1000, ram()),
    ];
    assert(v@ =~= uci_spans());
    v
}

/// Cartridge registers other than mode, stop and kill: the firmware reads back
/// what it wrote.
pub open spec fn cart_spans() -> Seq<Span> {
    seq![
        at(0x02, Reg::Latch { mask: 0x03, init: 0 }),
        at(0x03, Reg::Const(0x01)),
        at(0x05, ram()),
        at(0x07, Reg::Latch { mask: 0x01, init: 0 }),
        at(0x08, Reg::Latch { mask: 0x01, init: 0 }),
        at(0x09, Reg::Latch { mask: 0x07, init: 0x07 }),
        at(0x0C, Reg::Latch { mask: 0x05, init: 0x01 }),
        at(0x0D, Reg::Latch { mask: 0x01, init: 0 }),
        at(0x0E, Reg::Latch { mask: 0x01, init: 0 }),
    ]
}

pub fn cart_table() -> (v: Vec<Span>)
    ensures
        v@ == cart_spans(),
        all_valid(v@),
{
    let v = vec![
        // Stop mode.
        at(0x02, Reg::Latch { mask: 0x03, init: 0 }),
        // Clock detect: the C64's clock is there, its reset is not sensed.
        at(0x03, Reg::Const(0x01)),
        // Cartridge type.
        at(0x05, ram()),
        at(0x07, Reg::Latch { mask: 0x01, init: 0 }),
        // REU enable and size.
        at(0x08, Reg::Latch { mask: 0x01, init: 0 }),
        at(0x09, Reg::Latch { mask: 0x07, init: 0x07 }),
        at(0x0C, Reg::Latch { mask: 0x05, init: 0x01 }),
        at(0x0D, Reg::Latch { mask: 0x01, init: 0 }),
        // Sampler enable.
        at(0x0E, Reg::Latch { mask: 0x01, init: 0 }),
    ];
    assert(v@ =~= cart_spans());
    v
}

/// Core config: latches, with a constant version. The joystick outputs idle
/// high.
pub open spec fn core_spans() -> Seq<Span> {
    seq![
        at(0x10, Reg::Const(CORE_VERSION)),
        span(0x80, 0x88, Reg::Raz),
        span(JOY1_SWOUT, 0x32, Reg::Latch { mask: 0xFF, init: 0xFF }),
        span(0x00, JOY1_SWOUT, ram()),
        span(0x32, 0x100, ram()),
    ]
}

pub fn core_table() -> (v: Vec<Span>)
    ensures
        v@ == core_spans(),
        all_valid(v@),
{
    let v = vec![
        at(0x10, Reg::Const(CORE_VERSION)),
        // SID envelope levels: no SID runs.
        span(0x80, 0x88, Reg::Raz),
        span(JOY1_SWOUT, 0x32, Reg::Latch { mask: 0xFF, init: 0xFF }),
        span(0x00, JOY1_SWOUT, ram()),
        span(0x32, 0x100, ram()),
    ];
    assert(v@ =~= core_spans());
    v
}

/// `len` bytes of read/write memory.
pub open spec fn memory_spans(len: u32) -> Seq<Span> {
    seq![span(0, len, ram())]
}

pub fn memory_table(len: u32) -> (v: Vec<Span>)
    ensures
        v@ == memory_spans(len),
        all_valid(v@),
{
    let v = vec![span(0, len, ram())];
    assert(v@ =~= memory_spans(len));
    v
}

} // verus!
