//! Which devices are due, attaching a C64, and the display.
use crate::c64_state::{PortRegs, PortState, World, SYNC_PERIOD};
use crate::c64host::{C64Backend, C64Call};
use crate::host::DisplaySnapshot;
use crate::io::IoCtx;
use crate::iomap::{Device, DeviceState, IoMap};
use crate::irq::IrqState;
use vstd::prelude::*;

verus! {

/// When a device next wants a tick.
pub open spec fn event<S>(d: DeviceState<S>) -> Option<int> {
    match d {
        DeviceState::C64(p) => if p.c64 is Some {
            Some(p.regs.synced + SYNC_PERIOD)
        } else {
            None
        },
        _ => None,
    }
}

/// Every tick lies within the range of the clock.
pub open spec fn timely<S>(devices: Seq<DeviceState<S>>) -> bool {
    forall|i: int|
        0 <= i < devices.len() ==> (event(#[trigger] devices[i]) matches Some(t) ==> t <= u64::MAX)
}

/// The earliest tick that the first `n` devices want, at most `u64::MAX`.
pub open spec fn earliest<S>(devices: Seq<DeviceState<S>>, n: nat) -> int
    decreases n,
{
    if n == 0 {
        u64::MAX as int
    } else {
        let before = earliest(devices, (n - 1) as nat);
        match event(devices[n - 1]) {
            Some(t) => if t < before {
                t
            } else {
                before
            },
            None => before,
        }
    }
}

/// The devices and what they share.
#[verifier::ext_equal]
pub struct BusState<S> {
    pub devices: Seq<DeviceState<S>>,
    pub ddr: Seq<u8>,
    pub irq: IrqState,
    pub stall: u64,
}

/// The devices of a map in their surroundings.
pub open spec fn bus<B: C64Backend>(map: IoMap<B>, ctx: IoCtx) -> BusState<B::State> {
    BusState { devices: map@.devices, ddr: ctx.ram@, irq: ctx.irq, stall: ctx.stall }
}

/// Those of the first `n` devices that are due at `now` have ticked, in the order
/// of their installation.
pub open spec fn ticked_first<B: C64Backend>(s: BusState<B::State>, now: u64, n: nat) -> BusState<
    B::State,
>
    decreases n,
{
    if n == 0 {
        s
    } else {
        let t = ticked_first::<B>(s, now, (n - 1) as nat);
        match event(t.devices[n - 1]) {
            Some(due) => if due <= now {
                let w = crate::c64_state::ticked::<B>(
                    World {
                        port: t.devices[n - 1]->C64_0,
                        ddr: t.ddr,
                        irq: t.irq,
                        stall: t.stall,
                    },
                    now,
                );
                BusState {
                    devices: t.devices.update(n - 1, DeviceState::C64(w.port)),
                    ddr: w.ddr,
                    irq: w.irq,
                    stall: w.stall,
                }
            } else {
                t
            },
            None => t,
        }
    }
}

/// Ticking some devices leaves the others alone and adds none.
pub proof fn ticks_keep_the_others<B: C64Backend>(s: BusState<B::State>, now: u64, n: nat)
    requires
        n <= s.devices.len(),
    ensures
        ticked_first::<B>(s, now, n).devices.len() == s.devices.len(),
        forall|i: int|
            n <= i < s.devices.len() ==> #[trigger] ticked_first::<B>(s, now, n).devices[i]
                == s.devices[i],
    decreases n,
{
    if n > 0 {
        ticks_keep_the_others::<B>(s, now, (n - 1) as nat);
    }
}

/// A tick brings a device up to the clock: nothing that ticked is due again, and
/// its next tick is a whole period off.
pub proof fn a_tick_is_a_period_off<B: C64Backend>(w: World<B::State>, now: u64)
    requires
        w.port.c64 is Some,
        w.port.regs.synced + SYNC_PERIOD <= now,
    ensures
        event(DeviceState::C64(crate::c64_state::ticked::<B>(w, now).port)) == Some(
            now + SYNC_PERIOD,
        ),
{
    crate::c64_laws::one_sync_per_clock::<B>(w, now);
    crate::c64_laws::nothing_loses_the_c64::<B>(w, now);
    crate::c64_laws::finishing_keeps_registers::<B>(crate::c64_state::synced::<B>(w, now));
}

impl<B: C64Backend> IoMap<B> {
    /// Whether every tick lies within the range of the clock.
    pub fn on_time(&self) -> (b: bool)
        ensures
            b == timely(self@.devices),
    {
        let mut i: usize = 0;
        while i < self.devices.len()
            invariant
                i <= self.devices@.len(),
                forall|k: int|
                    0 <= k < i ==> (event(#[trigger] self@.devices[k]) matches Some(t) ==> t
                        <= u64::MAX),
            decreases self.devices@.len() - i,
        {
            assert(self@.devices[i as int] == self.devices@[i as int]@);
            match &self.devices[i] {
                Device::C64(p) => {
                    if !p.on_time() {
                        return false;
                    }
                },
                _ => {},
            }
            i = i + 1;
        }
        true
    }

    /// The earliest tick that a device wants, `u64::MAX` if none does.
    pub fn next_deadline(&self) -> (t: u64)
        requires
            timely(self@.devices),
        ensures
            t == earliest(self@.devices, self@.devices.len()),
    {
        let mut t: u64 = u64::MAX;
        let mut i: usize = 0;
        while i < self.devices.len()
            invariant
                i <= self.devices@.len(),
                timely(self@.devices),
                t == earliest(self@.devices, i as nat),
            decreases self.devices@.len() - i,
        {
            assert(self@.devices[i as int] == self.devices@[i as int]@);
            match self.devices[i].next_event() {
                Some(due) => {
                    if due < t {
                        t = due;
                    }
                },
                None => {},
            }
            i = i + 1;
        }
        t
    }

    /// Tick every device that is due, in the order of installation.
    pub fn tick_due(&mut self, ctx: &mut IoCtx)
        requires
            old(self)@.valid(),
            timely(old(self)@.devices),
        ensures
            bus(*final(self), *final(ctx)) == ticked_first::<B>(
                bus(*old(self), *old(ctx)),
                old(ctx).now,
                old(self)@.devices.len(),
            ),
            final(self)@.windows == old(self)@.windows,
            final(self)@.valid(),
            final(ctx).same_rest(*old(ctx)),
    {
        let ghost s = bus(*self, *ctx);
        let ghost map = self@;
        let now: u64 = ctx.now;
        let n: usize = self.devices.len();
        let mut i: usize = 0;
        while i < n
            invariant
                i <= n == self.devices@.len(),
                n == s.devices.len(),
                s.devices == map.devices,
                self@.windows == map.windows,
                map.valid(),
                timely(s.devices),
                now == ctx.now == old(ctx).now,
                ctx.same_rest(*old(ctx)),
                bus(*self, *ctx) == ticked_first::<B>(s, now, i as nat),
                self@.valid(),
            decreases n - i,
        {
            let ghost before = self@;
            proof {
                ticks_keep_the_others::<B>(s, now, i as nat);
            }
            assert(self@.devices[i as int] == s.devices[i as int]);
            assert(self@.devices[i as int] == self.devices@[i as int]@);
            let due = match self.devices[i].next_event() {
                Some(t) => t <= now,
                None => false,
            };
            if due {
                let ghost w = World {
                    port: self@.devices[i as int]->C64_0,
                    ddr: ctx.ram@,
                    irq: ctx.irq,
                    stall: ctx.stall,
                };
                assert(self@.devices[i as int].valid());
                match &mut self.devices[i] {
                    Device::C64(p) => p.tick(ctx),
                    _ => {},
                }
                assert(self@.devices =~= before.devices.update(
                    i as int,
                    DeviceState::C64(crate::c64_state::ticked::<B>(w, now).port),
                ));
            }
            i = i + 1;
        }
    }

    /// Attach a C64 behind the cartridge and DMA registers. Without a port the C64
    /// is dropped. `detect` is what the cartridge-detect register shows, if there
    /// is one; it follows the C64's physical cartridge from now on.
    pub fn attach_c64(&mut self, backend: B, now: u64, detect: Option<u8>)
        requires
            old(self)@.valid(),
        ensures
            final(self)@ == (match old(self)@.port() {
                Some(i) => old(self)@.with_port(
                    i,
                    attached::<B>(old(self)@.devices[i]->C64_0, backend.state(), now, detect),
                ),
                None => old(self)@,
            }),
            final(self)@.valid(),
    {
        match self.find_port() {
            Some(i) => {
                let ghost before = self@;
                assert(self@.devices[i as int] == self.devices@[i as int]@);
                assert(self@.devices[i as int].valid());
                match &mut self.devices[i] {
                    Device::C64(p) => {
                        p.attach(backend, now);
                        match detect {
                            Some(v) => p.set_cart_detect(v),
                            None => {},
                        }
                    },
                    _ => {},
                }
                assert(self@.devices =~= before.with_port(
                    i as int,
                    attached::<B>(before.devices[i as int]->C64_0, backend.state(), now, detect),
                ).devices);
            },
            None => {},
        }
    }
}

/// The port with a C64 attached.
pub open spec fn attached<B: C64Backend>(
    p: PortState<B::State>,
    state: B::State,
    now: u64,
    detect: Option<u8>,
) -> PortState<B::State> {
    let up = B::after(
        B::after(state, C64Call::SetCartRom(p.regs.cart_rom), Seq::empty()),
        C64Call::Advance(now),
        Seq::empty(),
    );
    let q = crate::c64_state::detected::<B>(
        crate::c64::alone(
            PortState { regs: PortRegs { synced: now, ..p.regs }, c64: Some(up), ..p },
        ),
    ).port;
    match detect {
        Some(v) => crate::c64_state::detected::<B>(
            crate::c64::alone(
                PortState { regs: PortRegs { cart_detect: Some(v), ..q.regs }, ..q },
            ),
        ).port,
        None => q,
    }
}

fn zeros(n: usize) -> (v: Vec<u8>)
    ensures
        v@ == Seq::new(n as nat, |i: int| 0u8),
{
    let mut v: Vec<u8> = Vec::new();
    let mut i: usize = 0;
    while i < n
        invariant
            i <= n,
            v@ == Seq::new(i as nat, |i: int| 0u8),
        decreases n - i,
    {
        v.push(0);
        assert(v@ =~= Seq::new((i + 1) as nat, |i: int| 0u8));
        i = i + 1;
    }
    assert(v@ =~= Seq::new(n as nat, |i: int| 0u8));
    v
}

/// The display: the overlay's, or blank buffers without an overlay, and the picture
/// of an attached C64.
pub fn display<B: C64Backend>(io: &IoMap<B>, overlay: Option<DisplaySnapshot>, now_ms: u64) -> (d:
    DisplaySnapshot)
    ensures
        overlay matches Some(o) ==> d.regs == o.regs && d.screen == o.screen && d.color == o.color
            && d.palette == o.palette && d.hdmi == o.hdmi && d.cropper == o.cropper && d.now_ms
            == o.now_ms,
        overlay is None ==> {
            &&& d.regs@ == Seq::new(16, |i: int| 0u8)
            &&& d.screen@ == Seq::new(4096, |i: int| 0u8)
            &&& d.color@ == Seq::new(4096, |i: int| 0u8)
            &&& d.palette@ == Seq::new(64, |i: int| 0u8)
            &&& d.hdmi@ == Seq::new(30, |i: int| 0u8)
            &&& d.cropper@ == Seq::new(4, |i: int| 0u8)
            &&& d.now_ms == now_ms
        },
        match io@.port() {
            Some(i) => match io@.devices[i]->C64_0.c64 {
                Some(s) => d.c64 matches Some(f) && f@ == B::picture(s),
                None => d.c64 is None,
            },
            None => d.c64 is None,
        },
{
    let frame = io.frame();
    match overlay {
        Some(o) => DisplaySnapshot { c64: frame, ..o },
        None => {
            let d = DisplaySnapshot {
                regs: [0; 16],
                screen: zeros(4096),
                color: zeros(4096),
                palette: zeros(64),
                hdmi: [0; 30],
                cropper: [0; 4],
                now_ms,
                c64: frame,
            };
            assert(d.regs@ =~= Seq::new(16, |i: int| 0u8));
            assert(d.hdmi@ =~= Seq::new(30, |i: int| 0u8));
            assert(d.cropper@ =~= Seq::new(4, |i: int| 0u8));
            d
        },
    }
}

} // verus!
