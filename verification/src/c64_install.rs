//! Putting the C64 port into I/O space.
use crate::c64::C64Port;
use crate::c64_state::{
    PortRegs, PortState, TablesState, BASIC, CART, CHAR, CORE, DMA, DRIVE_A, EEPROM, IEC, KERNAL,
    MATRIX, MIXER, PALETTE, SAMPLER, UCI,
};
use crate::c64_tables::memory_table;
use crate::c64host::C64Backend;
use crate::dmastub::StubState;
use crate::iomap::{add_table, Device, DeviceState, IoMap, MapState, IO_BASE};
use crate::machine::MachineConfig;
use crate::regtable::TableState;
use vstd::prelude::*;

verus! {

/// Offset in I/O space and size of every window of the C64 port.
pub open spec fn windows_spec() -> Seq<(u32, u32)> {
    seq![
        (DRIVE_A, 0x8000u32),
        (IEC, 0x1000u32),
        (CART, 0x100u32),
        (DMA, 0x1_0000u32),
        (MATRIX, 0x100u32),
        (CORE, 0x100u32),
        (PALETTE, 0x800u32),
        (BASIC, 0x2000u32),
        (KERNAL, 0x2000u32),
        (CHAR, 0x1000u32),
        (EEPROM, 0x1000u32),
        (UCI, 0x1000u32),
        (SAMPLER, 0x2000u32),
        (MIXER, 0x100u32),
    ]
}

/// Offset in I/O space and size of every window of the C64 port.
pub fn windows() -> (w: Vec<(u32, u32)>)
    ensures
        w@ == windows_spec(),
{
    let w: Vec<(u32, u32)> = vec![
        (DRIVE_A, 0x8000),
        (IEC, 0x1000),
        (CART, 0x100),
        (DMA, 0x1_0000),
        (MATRIX, 0x100),
        (CORE, 0x100),
        (PALETTE, 0x800),
        (BASIC, 0x2000),
        (KERNAL, 0x2000),
        (CHAR, 0x1000),
        (EEPROM, 0x1000),
        (UCI, 0x1000),
        (SAMPLER, 0x2000),
        (MIXER, 0x100),
    ];
    assert(w@ =~= windows_spec());
    w
}

/// Where the command interface stands among the windows.
pub const UCI_WINDOW: usize = 11;

/// The windows of a C64 port beside which another device owns the command
/// interface's.
pub open spec fn windows_without_uci() -> Seq<(u32, u32)> {
    windows_spec().remove(UCI_WINDOW as int)
}

/// The map with the first `n` of `windows`, which belong to device `dev`.
pub open spec fn mapped_first<S>(
    m: MapState<S>,
    windows: Seq<(u32, u32)>,
    dev: usize,
    n: nat,
) -> MapState<S>
    decreases n,
{
    if n == 0 || n > windows.len() {
        m
    } else {
        let (off, size) = windows[n - 1];
        mapped_first(m, windows, dev, (n - 1) as nat).mapped(
            (IO_BASE + off) as u32,
            size,
            dev,
            IO_BASE,
        )
    }
}

/// The C64 port as it powers on.
pub open spec fn fresh_port<S>() -> PortState<S> {
    PortState {
        regs: PortRegs::initial(),
        tables: TablesState::initial(),
        stub: StubState::initial(),
        c64: None,
    }
}

/// A window of read/write memory.
pub open spec fn memory<S>(name: Seq<char>, len: u32) -> DeviceState<S> {
    DeviceState::Table(TableState::initial(name, crate::c64_tables::memory_spans(len)))
}

/// The map with a C64 port behind `windows` and the C64-side windows that stay
/// tables.
pub open spec fn port_installed<S>(m: MapState<S>, windows: Seq<(u32, u32)>) -> MapState<S> {
    mapped_first(
        m.with_device(DeviceState::C64(fresh_port())),
        windows,
        m.devices.len() as usize,
        windows.len(),
    ).added(0x1004_2000, 0x1000, crate::board::sink("legacy-sid"@)).added(
        0x1004_6000,
        0x800,
        crate::board::sink("cart-timing"@),
    ).added(0x1018_1000, 0x100, memory("c64-pld"@, 0x100)).added(
        0x1018_1800,
        0x100,
        memory("u64-debug"@, 0x100),
    ).added(0x1018_2000, 0x200, crate::board::sink("c64-glyph"@)).added(
        0x1018_4000,
        0x2000,
        crate::board::sink("ultisid"@),
    )
}

/// The map with the C64 port behind all its windows.
pub open spec fn installed<S>(m: MapState<S>) -> MapState<S> {
    port_installed(m, windows_spec())
}

/// The map with the C64 port, where another device owns the command interface.
pub open spec fn installed_without_uci<S>(m: MapState<S>) -> MapState<S> {
    port_installed(m, windows_without_uci())
}

fn install_port<B: C64Backend>(map: &mut IoMap<B>, windows: &Vec<(u32, u32)>)
    requires
        old(map)@.valid(),
        forall|i: int| 0 <= i < windows@.len() ==> (#[trigger] windows@[i]).0 <= 0x18_C000,
    ensures
        final(map)@ == port_installed(old(map)@, windows@),
        final(map)@.valid(),
{
    let port: usize = map.push(Device::C64(C64Port::new()));
    let ghost m1 = map@;
    let mut i: usize = 0;
    while i < windows.len()
        invariant
            i <= windows@.len(),
            forall|i: int| 0 <= i < windows@.len() ==> (#[trigger] windows@[i]).0 <= 0x18_C000,
            map@ == mapped_first(m1, windows@, port, i as nat),
            map@.valid(),
            port < map@.devices.len(),
        decreases windows@.len() - i,
    {
        let (off, size) = windows[i];
        assert(windows@[i as int].0 <= 0x18_C000);
        map.map_origin(IO_BASE + off, size, port, IO_BASE);
        i = i + 1;
    }
    add_table(map, 0x1004_2000, 0x1000, "legacy-sid", Vec::new());
    add_table(map, 0x1004_6000, 0x800, "cart-timing", Vec::new());
    add_table(map, 0x1018_1000, 0x100, "c64-pld", memory_table(0x100));
    add_table(map, 0x1018_1800, 0x100, "u64-debug", memory_table(0x100));
    add_table(map, 0x1018_2000, 0x200, "c64-glyph", Vec::new());
    add_table(map, 0x1018_4000, 0x2000, "ultisid", Vec::new());
}

/// Map the C64 port, which counts its offsets from the start of I/O space, and
/// the C64-side windows that stay tables.
pub fn install<B: C64Backend>(map: &mut IoMap<B>, _cfg: &MachineConfig)
    requires
        old(map)@.valid(),
    ensures
        final(map)@ == installed(old(map)@),
        final(map)@.valid(),
{
    let windows = self::windows();
    install_port(map, &windows);
}

/// Map the same, where another device owns the command interface.
pub(crate) fn install_without_uci<B: C64Backend>(map: &mut IoMap<B>)
    requires
        old(map)@.valid(),
    ensures
        final(map)@ == installed_without_uci(old(map)@),
        final(map)@.valid(),
{
    let mut windows = self::windows();
    windows.remove(UCI_WINDOW);
    install_port(map, &windows);
}

} // verus!
