//! Which device answers at an I/O address.
use crate::board::{U2pio, U2pioState};
use crate::c64::C64Port;
use crate::c64_state::{PortState, CART, CART_END, CART_ROM_SIZE, SYNC_PERIOD};
use crate::c64host::C64Backend;
use crate::io::IoCtx;
use crate::regtable::{RegTable, Span, TableState};
use crate::time::DMA_BYTE_CLOCKS;
use vstd::prelude::*;

verus! {

/// Where I/O space starts.
pub const IO_BASE: u32 = 0x1000_0000;

/// Windows are multiples of this.
pub const IO_GRAIN: u32 = 0x100;

/// The firmware's window of the command interface.
pub struct UciDevice {}

/// A device in I/O space.
pub enum Device<B: C64Backend> {
    Table(RegTable),
    U2pio(U2pio),
    C64(C64Port<B>),
    Uci(UciDevice),
}

/// What a device holds.
pub enum DeviceState<S> {
    Table(TableState),
    U2pio(U2pioState),
    C64(PortState<S>),
    Uci,
}

impl<S> DeviceState<S> {
    pub open spec fn valid(self) -> bool {
        match self {
            DeviceState::Table(t) => t.valid(),
            DeviceState::U2pio(u) => u.table.valid(),
            DeviceState::C64(p) => p.valid(),
            DeviceState::Uci => true,
        }
    }

    /// The device's name.
    pub open spec fn name(self) -> Seq<char> {
        match self {
            DeviceState::Table(t) => t.name,
            DeviceState::U2pio(_) => "u2pio"@,
            DeviceState::C64(_) => "c64"@,
            DeviceState::Uci => "uci"@,
        }
    }
}

impl<B: C64Backend> View for Device<B> {
    type V = DeviceState<B::State>;

    open spec fn view(&self) -> DeviceState<B::State> {
        match self {
            Device::Table(t) => DeviceState::Table(t@),
            Device::U2pio(u) => DeviceState::U2pio(u@),
            Device::C64(p) => DeviceState::C64(p@),
            Device::Uci(_) => DeviceState::Uci,
        }
    }
}

impl UciDevice {
    /// What a read shows; reads have no side effects.
    pub fn peek8(&self, off: u32, ctx: &IoCtx) -> (v: u8)
        requires
            ctx.uci@.valid(),
        ensures
            v == ctx.uci@.window_value(off),
    {
        ctx.uci.window_read(off)
    }

    /// A firmware write; the interrupt line follows.
    pub fn write8(&mut self, off: u32, val: u8, ctx: &mut IoCtx)
        requires
            old(ctx).uci@.valid(),
        ensures
            final(ctx).uci@ == old(ctx).uci@.after_window_write(off, val),
            final(ctx).uci@.valid(),
            final(ctx).irq == old(ctx).irq.with_level(4, final(ctx).uci@.regs.irq()),
            final(ctx).now == old(ctx).now,
            final(ctx).pc == old(ctx).pc,
            final(ctx).stall == old(ctx).stall,
            final(ctx).ram@ == old(ctx).ram@,
            final(ctx).console@ == old(ctx).console@,
    {
        ctx.uci.window_write(off, val);
        let irq = ctx.uci.irq_line();
        ctx.irq.set_level(4, irq);
    }
}

impl<B: C64Backend> Device<B> {
    /// The device's name.
    pub fn name(&self) -> (n: &'static str)
        ensures
            n@ == self@.name(),
    {
        match self {
            Device::Table(t) => t.name(),
            Device::U2pio(_) => "u2pio",
            Device::C64(_) => "c64",
            Device::Uci(_) => "uci",
        }
    }

    /// A firmware read at window offset `off`.
    pub fn read8(&mut self, off: u32, ctx: &mut IoCtx) -> (v: u8)
        requires
            old(self)@.valid(),
            old(ctx).uci@.valid(),
            old(ctx).stall + DMA_BYTE_CLOCKS <= u64::MAX,
        ensures
            final(self)@.valid(),
            final(ctx).uci@ == old(ctx).uci@,
            match old(self)@ {
                DeviceState::Table(t) => v == t.at(off) && final(self)@ == old(self)@
                    && *final(ctx) == *old(ctx),
                DeviceState::U2pio(u) => v == u.at(off) && final(self)@ == old(self)@ && *final(ctx)
                    == *old(ctx),
                DeviceState::C64(p) => {
                    &&& *old(self) matches Device::C64(before)
                    &&& *final(self) matches Device::C64(after)
                    &&& (v, crate::c64::world(after, *final(ctx))) == crate::c64_state::read::<B>(
                        crate::c64::world(before, *old(ctx)),
                        off,
                        old(ctx).now,
                    )
                    &&& final(ctx).same_rest(*old(ctx))
                },
                DeviceState::Uci => v == old(ctx).uci@.window_value(off) && final(self)@ == old(
                    self,
                )@ && *final(ctx) == *old(ctx),
            },
    {
        match self {
            Device::Table(t) => t.get(off),
            Device::U2pio(u) => u.peek8(off),
            Device::C64(p) => p.read8(off, ctx),
            Device::Uci(u) => u.peek8(off, ctx),
        }
    }

    /// A firmware write at window offset `off`.
    pub fn write8(&mut self, off: u32, val: u8, ctx: &mut IoCtx)
        requires
            old(self)@.valid(),
            old(ctx).uci@.valid(),
            old(ctx).stall + DMA_BYTE_CLOCKS <= u64::MAX,
            old(self)@ matches DeviceState::C64(p) ==> (CART <= off <= CART_END && p.c64 is Some
                && p.regs.hands_over(off % 16, val) ==> p.regs.cart_rom.base + CART_ROM_SIZE <= old(
                ctx,
            ).ram@.len()),
        ensures
            final(self)@.valid(),
            final(ctx).uci@.valid(),
            match old(self)@ {
                DeviceState::Table(t) => final(self)@ == DeviceState::<B::State>::Table(
                    t.put(off, val),
                ) && *final(ctx) == *old(ctx),
                DeviceState::U2pio(u) => final(self)@ == DeviceState::<B::State>::U2pio(
                    u.put(off, val),
                ) && *final(ctx) == *old(ctx),
                DeviceState::C64(p) => {
                    &&& *old(self) matches Device::C64(before)
                    &&& *final(self) matches Device::C64(after)
                    &&& crate::c64::world(after, *final(ctx)) == crate::c64_state::written::<B>(
                        crate::c64::world(before, *old(ctx)),
                        off,
                        val,
                        old(ctx).now,
                    )
                    &&& final(ctx).same_rest(*old(ctx))
                },
                DeviceState::Uci => {
                    &&& final(self)@ == old(self)@
                    &&& final(ctx).uci@ == old(ctx).uci@.after_window_write(off, val)
                    &&& final(ctx).irq == old(ctx).irq.with_level(4, final(ctx).uci@.regs.irq())
                    &&& final(ctx).ram@ == old(ctx).ram@
                    &&& final(ctx).stall == old(ctx).stall
                },
            },
    {
        match self {
            Device::Table(t) => t.set(off, val),
            Device::U2pio(u) => u.write8(off, val),
            Device::C64(p) => p.write8(off, val, ctx),
            Device::Uci(u) => u.write8(off, val, ctx),
        }
    }

    /// When the device next wants a tick.
    pub fn next_event(&self) -> (due: Option<u64>)
        requires
            self@ matches DeviceState::C64(p) ==> (p.c64 is Some ==> p.regs.synced + SYNC_PERIOD
                <= u64::MAX),
        ensures
            due == (match self@ {
                DeviceState::C64(p) => if p.c64 is Some {
                    Some((p.regs.synced + SYNC_PERIOD) as u64)
                } else {
                    None
                },
                _ => None,
            }),
    {
        match self {
            Device::C64(p) => p.next_event(),
            _ => None,
        }
    }
}

/// A window: the addresses `base .. base + size` belong to device `dev`, which
/// counts its offsets from `origin`.
#[derive(Clone, Copy, Debug, PartialEq, Eq, Structural)]
pub struct Window {
    pub base: u32,
    pub size: u32,
    pub dev: usize,
    pub origin: u32,
}

impl Window {
    pub open spec fn holds(self, addr: u32) -> bool {
        self.base <= addr < self.base + self.size
    }
}

/// The device and offset of `addr` among the first `n` windows: those of the last
/// window that holds it.
pub open spec fn lookup(windows: Seq<Window>, addr: u32, n: nat) -> Option<(usize, u32)>
    decreases n,
{
    if n == 0 || n > windows.len() {
        None
    } else if windows[n - 1].holds(addr) {
        Some((windows[n - 1].dev, (addr - windows[n - 1].origin) as u32))
    } else {
        lookup(windows, addr, (n - 1) as nat)
    }
}

/// The windows and the devices.
#[verifier::ext_equal]
pub struct MapState<S> {
    pub windows: Seq<Window>,
    pub devices: Seq<DeviceState<S>>,
}

impl<S> MapState<S> {
    pub open spec fn valid(self) -> bool {
        &&& forall|i: int|
            0 <= i < self.windows.len() ==> (#[trigger] self.windows[i]).dev < self.devices.len()
                && self.windows[i].origin <= self.windows[i].base
        &&& forall|i: int| 0 <= i < self.devices.len() ==> (#[trigger] self.devices[i]).valid()
    }

    /// The map with one more device and no window for it.
    pub open spec fn with_device(self, dev: DeviceState<S>) -> MapState<S> {
        MapState { devices: self.devices.push(dev), ..self }
    }

    /// The map with one more window.
    pub open spec fn mapped(self, base: u32, size: u32, dev: usize, origin: u32) -> MapState<S> {
        MapState { windows: self.windows.push(Window { base, size, dev, origin }), ..self }
    }

    /// The map with a device in a window of its own.
    pub open spec fn added(self, base: u32, size: u32, dev: DeviceState<S>) -> MapState<S> {
        self.with_device(dev).mapped(base, size, self.devices.len() as usize, base)
    }

    pub open spec fn resolved(self, addr: u32) -> Option<(usize, u32)> {
        lookup(self.windows, addr, self.windows.len())
    }
}

/// The I/O space of a machine. Where windows overlap the one mapped last answers.
pub struct IoMap<B: C64Backend> {
    pub windows: Vec<Window>,
    pub devices: Vec<Device<B>>,
}

impl<B: C64Backend> View for IoMap<B> {
    type V = MapState<B::State>;

    open spec fn view(&self) -> MapState<B::State> {
        MapState {
            windows: self.windows@,
            devices: Seq::new(self.devices@.len(), |i: int| self.devices@[i]@),
        }
    }
}

impl<B: C64Backend> IoMap<B> {
    /// Nothing mapped.
    pub fn new() -> (m: IoMap<B>)
        ensures
            m@ == (MapState::<B::State> { windows: Seq::empty(), devices: Seq::empty() }),
            m@.valid(),
            m.devices@.len() == 0,
    {
        let m = IoMap { windows: Vec::new(), devices: Vec::new() };
        assert(m@.devices =~= Seq::empty());
        m
    }

    /// One more device, with no window yet. Returns its number.
    pub fn push(&mut self, dev: Device<B>) -> (i: usize)
        requires
            old(self)@.valid(),
            dev@.valid(),
        ensures
            i == old(self)@.devices.len(),
            final(self)@ == old(self)@.with_device(dev@),
            final(self)@.valid(),
    {
        let i: usize = self.devices.len();
        self.devices.push(dev);
        assert(self@.devices =~= old(self)@.devices.push(dev@));
        i
    }

    /// Map `base .. base + size` to device `dev`, whose offsets count from
    /// `origin`.
    pub fn map_origin(&mut self, base: u32, size: u32, dev: usize, origin: u32)
        requires
            old(self)@.valid(),
            dev < old(self)@.devices.len(),
            origin <= base,
        ensures
            final(self)@ == old(self)@.mapped(base, size, dev, origin),
            final(self)@.valid(),
    {
        self.windows.push(Window { base, size, dev, origin });
        assert(self@.devices =~= old(self)@.devices);
        assert forall|i: int| 0 <= i < self@.windows.len() implies (#[trigger] self@.windows[i]).dev
            < self@.devices.len() && self@.windows[i].origin <= self@.windows[i].base by {
            if i < old(self)@.windows.len() {
                assert(self@.windows[i] == old(self)@.windows[i]);
            }
        }
    }

    /// A device in a window of its own.
    pub fn add(&mut self, base: u32, size: u32, dev: Device<B>)
        requires
            old(self)@.valid(),
            dev@.valid(),
        ensures
            final(self)@ == old(self)@.added(base, size, dev@),
            final(self)@.valid(),
    {
        let i: usize = self.push(dev);
        self.map_origin(base, size, i, base);
    }

    /// The device that answers at `addr`, and the offset it sees.
    pub fn resolve(&self, addr: u32) -> (r: Option<(usize, u32)>)
        requires
            self@.valid(),
        ensures
            r == self@.resolved(addr),
            r matches Some((dev, _)) ==> dev < self.devices@.len(),
    {
        let mut n: usize = self.windows.len();
        while n > 0
            invariant
                n <= self.windows@.len(),
                self@.valid(),
                self@.resolved(addr) == lookup(self.windows@, addr, n as nat),
            decreases n,
        {
            let w = self.windows[n - 1];
            assert(self@.windows[n - 1].dev < self@.devices.len());
            if w.base <= addr && addr - w.base < w.size {
                return Some((w.dev, addr - w.origin));
            }
            n = n - 1;
        }
        None
    }
}

/// Map a table of `spans` over `size` bytes at `base`.
pub fn add_table<B: C64Backend>(
    map: &mut IoMap<B>,
    base: u32,
    size: u32,
    name: &'static str,
    spans: Vec<Span>,
)
    requires
        old(map)@.valid(),
        crate::c64_tables::all_valid(spans@),
    ensures
        final(map)@ == old(map)@.added(
            base,
            size,
            DeviceState::Table(TableState::initial(name@, spans@)),
        ),
        final(map)@.valid(),
{
    map.add(base, size, Device::Table(RegTable::new(name, spans)));
}

/// A window mapped last answers at every address that it holds, and changes
/// nothing elsewhere.
pub proof fn last_window_answers<S>(
    m: MapState<S>,
    base: u32,
    size: u32,
    dev: usize,
    origin: u32,
    addr: u32,
)
    ensures
        m.mapped(base, size, dev, origin).resolved(addr) == if base <= addr < base + size {
            Some((dev, (addr - origin) as u32))
        } else {
            m.resolved(addr)
        },
{
    let t = m.mapped(base, size, dev, origin);
    lookup_ignores_later(m.windows, t.windows, addr, m.windows.len());
}

/// The last of the first `n` windows that holds an address answers there.
pub proof fn the_last_holder_answers(windows: Seq<Window>, addr: u32, n: nat, i: int)
    requires
        0 <= i < n <= windows.len(),
        windows[i].holds(addr),
        forall|j: int| i < j < n ==> !(#[trigger] windows[j]).holds(addr),
    ensures
        lookup(windows, addr, n) == Some((windows[i].dev, (addr - windows[i].origin) as u32)),
    decreases n,
{
    if i < n - 1 {
        the_last_holder_answers(windows, addr, (n - 1) as nat, i);
    }
}

/// No address belongs to two devices.
pub open spec fn one_owner<S>(m: MapState<S>) -> bool {
    forall|i: int, j: int, a: u32|
        0 <= i < m.windows.len() && 0 <= j < m.windows.len() && #[trigger] m.windows[i].holds(a)
            && #[trigger] m.windows[j].holds(a) ==> m.windows[i].dev == m.windows[j].dev
}

/// Among the first `n` windows the one that answers is one that holds the address.
proof fn a_holder_answers(windows: Seq<Window>, addr: u32, n: nat, i: int)
    requires
        0 <= i < n <= windows.len(),
        windows[i].holds(addr),
    ensures
        lookup(windows, addr, n) matches Some((dev, _)) && exists|j: int|
            0 <= j < n && (#[trigger] windows[j]).holds(addr) && windows[j].dev == dev,
    decreases n,
{
    if !windows[n - 1].holds(addr) {
        a_holder_answers(windows, addr, (n - 1) as nat, i);
    }
}

/// Where no address belongs to two devices, the owner of a window answers
/// throughout it, in whatever order the windows were mapped.
pub proof fn the_owner_answers<S>(m: MapState<S>, i: int, addr: u32)
    requires
        one_owner(m),
        0 <= i < m.windows.len(),
        m.windows[i].holds(addr),
    ensures
        m.resolved(addr) matches Some((dev, _)) && dev == m.windows[i].dev,
{
    a_holder_answers(m.windows, addr, m.windows.len(), i);
}

/// Looking among the first `n` windows, later ones do not matter.
pub proof fn lookup_ignores_later(a: Seq<Window>, b: Seq<Window>, addr: u32, n: nat)
    requires
        n <= a.len(),
        n <= b.len(),
        forall|i: int| 0 <= i < n ==> a[i] == b[i],
    ensures
        lookup(a, addr, n) == lookup(b, addr, n),
    decreases n,
{
    if n > 0 {
        lookup_ignores_later(a, b, addr, (n - 1) as nat);
    }
}

} // verus!
