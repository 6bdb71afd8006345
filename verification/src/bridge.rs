//! What the host of a C64 decides: when the 6510 runs and for how long, which
//! interrupts move, and what the DMA port and the ROM images show.
//!
//! The C64 itself is run by its owner.
use crate::cart::CartLogic;
use crate::cart_state::{
    CartRegs, CartState, RunHints, CART_TYPE_NONE, EPYX, EPYX_CYCLES, TYPE_MASK,
};
use crate::c64host::C64Rom;
use crate::proxy::{CartProxy, ProxyState};
use vstd::prelude::*;

verus! {

/// An opcode that delays interrupts by a cycle.
pub const DELAYS_INTERRUPT: u32 = 0x100;

/// DMA reads here that no SID answers return 0 while I/O is mapped.
pub const SID_FIRST: u16 = 0xD400;

pub const SID_LAST: u16 = 0xD7FF;

/// A joystick.
#[derive(Clone, Copy, Debug, PartialEq, Eq, Structural)]
pub struct JoystickState {
    pub up: bool,
    pub down: bool,
    pub left: bool,
    pub right: bool,
    pub fire: bool,
}

/// Active-low lines (bit 0 up, 1 down, 2 left, 3 right, 4 fire) as a joystick.
pub open spec fn stick(lines: u8) -> JoystickState {
    JoystickState {
        up: lines & 1 == 0,
        down: lines & 2 == 0,
        left: lines & 4 == 0,
        right: lines & 8 == 0,
        fire: lines & 16 == 0,
    }
}

/// Active-low lines as a joystick.
pub fn joystick(lines: u8) -> (s: JoystickState)
    ensures
        s == stick(lines),
{
    JoystickState {
        up: lines & 1 == 0,
        down: lines & 2 == 0,
        left: lines & 4 == 0,
        right: lines & 8 == 0,
        fire: lines & 16 == 0,
    }
}

/// Whether the 6510 takes an NMI at the start of its next instruction: one is
/// pending, an opcode was executed, and the delay has passed, which some opcodes
/// lengthen by a cycle.
pub fn nmi_due(pending: bool, opinfo: u32, waited: u64, delay: u64) -> (b: bool)
    requires
        delay < u64::MAX,
    ensures
        b == (pending && opinfo & 0xFF != 0 && waited >= delay + if opinfo & DELAYS_INTERRUPT != 0 {
            1int
        } else {
            0int
        }),
{
    let delay: u64 = if opinfo & DELAYS_INTERRUPT != 0 {
        delay + 1
    } else {
        delay
    };
    pending && opinfo & 0xFF != 0 && waited >= delay
}

/// What runs up to the target cycle.
#[derive(Clone, Copy, Debug, PartialEq, Eq, Structural)]
pub enum Advance {
    /// The C64 is there already.
    Nothing,
    /// The chips, with the 6510 held.
    Chips,
    /// The 6510.
    Cpu,
}

/// How the 6510 is run next.
#[derive(Clone, Copy, Debug, PartialEq, Eq)]
pub enum Plan {
    /// The target is reached.
    Done,
    /// Up to the target, whole instructions.
    Plain { cycles: u64 },
    /// At most so many cycles and instructions, ending after an I/O access that
    /// changed the cartridge's lines if those are watched.
    Watched { cycles: u64, insns: u64, watch_io: bool },
}

/// A line of the C64's interrupt inputs that moves.
#[derive(Clone, Copy, Debug, PartialEq, Eq)]
pub struct Edges {
    pub nmi: Option<bool>,
    pub irq: Option<bool>,
}

/// What the host keeps of a C64.
#[derive(Clone, Copy, Debug, PartialEq, Eq, Structural)]
pub struct HostLines {
    /// Clock of the application core at the last advance.
    pub now: u64,
    pub stopped: bool,
    pub reset_held: bool,
    /// The NMI level from the port.
    pub nmi: bool,
    /// NMI and IRQ levels last given to the C64: the port's NMI or the cartridge's.
    pub nmi_line: bool,
    pub irq_line: bool,
    /// Joystick lines, active low.
    pub joy1: u8,
    pub joy2: u8,
}

impl HostLines {
    /// A C64 that was just powered on.
    pub open spec fn initial() -> HostLines {
        HostLines {
            now: 0,
            stopped: false,
            reset_held: false,
            nmi: false,
            nmi_line: false,
            irq_line: false,
            joy1: 0xFF,
            joy2: 0xFF,
        }
    }

    /// The levels of the interrupt inputs.
    pub open spec fn levels(self, cart_nmi: bool, cart_irq: bool) -> (bool, bool) {
        (self.nmi || cart_nmi, cart_irq)
    }

    /// The inputs that move when the levels are applied.
    pub open spec fn edges(self, cart_nmi: bool, cart_irq: bool) -> Edges {
        let (nmi, irq) = self.levels(cart_nmi, cart_irq);
        Edges {
            nmi: if nmi != self.nmi_line {
                Some(nmi)
            } else {
                None
            },
            irq: if irq != self.irq_line {
                Some(irq)
            } else {
                None
            },
        }
    }

    /// With the levels applied.
    pub open spec fn applied(self, cart_nmi: bool, cart_irq: bool) -> HostLines {
        let (nmi, irq) = self.levels(cart_nmi, cart_irq);
        HostLines { nmi_line: nmi, irq_line: irq, ..self }
    }
}

/// The host's side of a C64.
pub struct Bridge {
    pub lines: HostLines,
    pub slot: CartProxy,
    /// Cartridge types already reported as not modelled.
    pub unsupported: Vec<u8>,
}

/// The host's side of a C64.
#[verifier::ext_equal]
pub struct BridgeState {
    pub lines: HostLines,
    pub slot: ProxyState,
    pub unsupported: Seq<u8>,
}

impl View for Bridge {
    type V = BridgeState;

    open spec fn view(&self) -> BridgeState {
        BridgeState { lines: self.lines, slot: self.slot@, unsupported: self.unsupported@ }
    }
}

impl BridgeState {
    pub open spec fn valid(self) -> bool {
        self.slot.cart.regs.valid()
    }

    /// The cartridge pulls NMI.
    pub open spec fn cart_nmi(self) -> bool {
        !self.slot.cart.regs.outputs(0, false).nmi_n
    }

    /// The cartridge pulls IRQ.
    pub open spec fn cart_irq(self) -> bool {
        !self.slot.cart.regs.outputs(0, false).irq_n
    }

    pub open spec fn with_cart(self, cart: CartState) -> BridgeState {
        BridgeState { slot: ProxyState { cart, ..self.slot }, ..self }
    }

    /// The inputs that move when the interrupts are applied.
    pub open spec fn edges(self) -> Edges {
        self.lines.edges(self.cart_nmi(), self.cart_irq())
    }

    /// With the interrupts applied.
    pub open spec fn applied(self) -> BridgeState {
        BridgeState { lines: self.lines.applied(self.cart_nmi(), self.cart_irq()), ..self }
    }

    /// With the cartridge switched in by a freeze.
    pub open spec fn frozen(self) -> BridgeState {
        self.with_cart(
            CartState { regs: self.slot.cart.regs.freeze_entered(), ..self.slot.cart },
        )
    }
}

/// Nothing to mind while the 6510 runs.
pub open spec fn no_hints() -> RunHints {
    RunHints { watch_io: false, deadline: None, freeze_pending: false }
}

/// The plan for the next run.
pub open spec fn planned(hints: RunHints, clk: u64, target: u64) -> Plan {
    if clk >= target {
        Plan::Done
    } else if hints == no_hints() {
        Plan::Plain { cycles: (target - clk) as u64 }
    } else {
        let end = match hints.deadline {
            Some(d) => if d < target {
                d
            } else {
                target
            },
            None => target,
        };
        Plan::Watched {
            cycles: if end > clk {
                (end - clk) as u64
            } else {
                1
            },
            insns: if hints.freeze_pending {
                1
            } else {
                u64::MAX
            },
            watch_io: hints.watch_io,
        }
    }
}

impl Bridge {
    /// A C64 that was just powered on, without a cartridge.
    pub fn new(cart: CartLogic) -> (b: Bridge)
        requires
            cart@.regs.valid(),
        ensures
            b@ == (BridgeState {
                lines: HostLines::initial(),
                slot: ProxyState { cart: cart@, forced: false },
                unsupported: Seq::empty(),
            }),
            b@.valid(),
    {
        Bridge {
            lines: HostLines {
                now: 0,
                stopped: false,
                reset_held: false,
                nmi: false,
                nmi_line: false,
                irq_line: false,
                joy1: 0xFF,
                joy2: 0xFF,
            },
            slot: CartProxy::new(cart, false),
            unsupported: Vec::new(),
        }
    }

    /// What runs from cycle `clk` up to cycle `target`, where clock `now` of the
    /// application core lies.
    pub fn advance_to(&mut self, now: u64, clk: u64, target: u64) -> (a: Advance)
        ensures
            final(self)@ == (BridgeState {
                lines: HostLines { now, ..old(self)@.lines },
                ..old(self)@
            }),
            a == if target <= clk {
                Advance::Nothing
            } else if old(self)@.lines.stopped || old(self)@.lines.reset_held {
                Advance::Chips
            } else {
                Advance::Cpu
            },
    {
        self.lines.now = now;
        if target <= clk {
            Advance::Nothing
        } else if self.lines.stopped || self.lines.reset_held {
            Advance::Chips
        } else {
            Advance::Cpu
        }
    }

    /// The chips were clocked for `cycles` with the 6510 held. The VIC always runs;
    /// whether the CIAs and the SID do is returned: not while the reset is held. The
    /// cartridge's timed change waits as long.
    pub fn run_chips(&mut self, cycles: u64) -> (cias: bool)
        requires
            old(self)@.valid(),
            old(self)@.slot.cart.regs.logic == EPYX ==> old(self)@.slot.cart.regs.epyx_armed + cycles
                + EPYX_CYCLES <= u64::MAX,
        ensures
            cias == !old(self)@.lines.reset_held,
            final(self)@ == old(self)@.with_cart(
                CartState {
                    regs: CartRegs {
                        epyx_armed: if old(self)@.slot.cart.regs.logic == EPYX {
                            (old(self)@.slot.cart.regs.epyx_armed + cycles) as u64
                        } else {
                            old(self)@.slot.cart.regs.epyx_armed
                        },
                        ..old(self)@.slot.cart.regs
                    },
                    ..old(self)@.slot.cart
                },
            ),
            final(self)@.valid(),
    {
        self.slot.cart.hold_time(cycles);
        !self.lines.reset_held
    }

    /// The next run of the 6510 towards cycle `target`. A run ends where the
    /// cartridge's lines can change behind the C64's back: after an I/O access that
    /// changed them, at a timed change, and instruction by instruction while a
    /// freeze waits for the interrupt. If the 6510 is about to take that interrupt
    /// the cartridge is switched in now. The interrupt inputs that move are told.
    pub fn run_cpu(&mut self, clk: u64, target: u64, nmi_due: bool) -> (r: (Plan, Edges))
        requires
            old(self)@.valid(),
        ensures
            r.0 == planned(old(self)@.slot.cart.regs.hints(), clk, target),
            ({
                let frozen = old(self)@.frozen();
                if clk < target && old(self)@.slot.cart.regs.hints().freeze_pending && nmi_due {
                    r.1 == frozen.edges() && final(self)@ == frozen.applied()
                } else {
                    r.1 == (Edges { nmi: None, irq: None }) && final(self)@ == old(self)@
                }
            }),
            final(self)@.valid(),
    {
        let none = Edges { nmi: None, irq: None };
        if clk >= target {
            return (Plan::Done, none);
        }
        let hints = self.slot.cart.run_hints();
        if !hints.watch_io && hints.deadline.is_none() && !hints.freeze_pending {
            return (Plan::Plain { cycles: target - clk }, none);
        }
        let mut edges = none;
        if hints.freeze_pending && nmi_due {
            self.slot.cart.enter_freeze();
            edges = self.apply_interrupts();
        }
        let end: u64 = match hints.deadline {
            Some(d) => if d < target {
                d
            } else {
                target
            },
            None => target,
        };
        let plan = Plan::Watched {
            cycles: if end > clk {
                end - clk
            } else {
                1
            },
            insns: if hints.freeze_pending {
                1
            } else {
                u64::MAX
            },
            watch_io: hints.watch_io,
        };
        (plan, edges)
    }

    /// After a watched run that ended at cycle `clk`. If the 6510 took an interrupt
    /// through `vector` before the freeze could switch the cartridge in, it is
    /// switched in now and the 6510 goes on at the cartridge's own vector, which is
    /// returned if the cartridge has one. The interrupt inputs that move are told.
    pub fn after_run(&mut self, vector: Option<u16>, clk: u64) -> (r: (Option<u16>, Edges))
        requires
            old(self)@.valid(),
        ensures
            ({
                let late = vector is Some && old(self)@.slot.cart.regs.hints().freeze_pending;
                let b = if late {
                    old(self)@.frozen()
                } else {
                    old(self)@
                };
                let c = b.with_cart(b.slot.cart.at(clk));
                &&& final(self)@ == c.applied()
                &&& r.1 == c.edges()
                &&& r.0 == if late {
                    vector_at(b.slot.cart, vector->Some_0)
                } else {
                    None
                }
            }),
            final(self)@.valid(),
    {
        let mut pc: Option<u16> = None;
        if let Some(v) = vector {
            if self.slot.cart.run_hints().freeze_pending {
                self.slot.cart.enter_freeze();
                let next: u16 = if v == 0xFFFF {
                    0
                } else {
                    v + 1
                };
                pc =
                match (self.slot.cart.peek(v), self.slot.cart.peek(next)) {
                    (Some(lo), Some(hi)) => Some(lo as u16 + 256 * hi as u16),
                    _ => None,
                };
            }
        }
        self.slot.cart.set_clk(clk);
        (pc, self.apply_interrupts())
    }

    /// The port's NMI or the cartridge's, and the cartridge's IRQ: which inputs of
    /// the C64 move.
    pub fn apply_interrupts(&mut self) -> (e: Edges)
        requires
            old(self)@.valid(),
        ensures
            e == old(self)@.edges(),
            final(self)@ == old(self)@.applied(),
    {
        let nmi = self.lines.nmi || self.slot.cart.nmi();
        let irq = self.slot.cart.irq();
        let e = Edges {
            nmi: if nmi != self.lines.nmi_line {
                Some(nmi)
            } else {
                None
            },
            irq: if irq != self.lines.irq_line {
                Some(irq)
            } else {
                None
            },
        };
        self.lines.nmi_line = nmi;
        self.lines.irq_line = irq;
        e
    }

    /// The reset line goes down.
    pub fn hold_reset(&mut self)
        ensures
            final(self)@ == (BridgeState {
                lines: HostLines { reset_held: true, ..old(self)@.lines },
                ..old(self)@
            }),
    {
        self.lines.reset_held = true;
    }

    /// The reset line is released and the C64 has forgotten its inputs. A held NMI is
    /// not given again, because the 6510 takes new edges only; an IRQ is a level and
    /// is.
    pub fn release_reset(&mut self) -> (e: Edges)
        requires
            old(self)@.valid(),
        ensures
            e == (Edges {
                nmi: None,
                irq: if old(self)@.cart_irq() {
                    Some(true)
                } else {
                    None
                },
            }),
            final(self)@.lines == (HostLines {
                reset_held: false,
                nmi_line: old(self)@.lines.nmi || old(self)@.cart_nmi(),
                irq_line: old(self)@.cart_irq(),
                ..old(self)@.lines
            }),
            final(self)@.slot == old(self)@.slot,
            final(self)@.unsupported == old(self)@.unsupported,
    {
        self.lines.reset_held = false;
        self.lines.nmi_line = self.lines.nmi || self.slot.cart.nmi();
        self.lines.irq_line = false;
        self.apply_interrupts()
    }

    /// Hold the 6510, or let it run.
    pub fn set_stopped(&mut self, stopped: bool)
        ensures
            final(self)@ == (BridgeState {
                lines: HostLines { stopped, ..old(self)@.lines },
                ..old(self)@
            }),
    {
        self.lines.stopped = stopped;
    }

    /// Force the Ultimax decode, or not.
    pub fn set_ultimax(&mut self, on: bool)
        ensures
            final(self)@ == (BridgeState {
                slot: ProxyState { forced: on, ..old(self)@.slot },
                ..old(self)@
            }),
    {
        self.slot.forced_ultimax = on;
    }

    /// The NMI level from the port.
    pub fn set_nmi(&mut self, level: bool) -> (e: Edges)
        requires
            old(self)@.valid(),
        ensures
            ({
                let b = BridgeState {
                    lines: HostLines { nmi: level, ..old(self)@.lines },
                    ..old(self)@
                };
                e == b.edges() && final(self)@ == b.applied()
            }),
    {
        self.lines.nmi = level;
        self.apply_interrupts()
    }

    /// Take a cartridge type: as a reset takes it while the reset line is held, as a
    /// force otherwise. A type that is not modelled is taken as none and told the
    /// first time.
    pub fn set_cart(&mut self, type_variant: u8, clk: u64) -> (r: (Option<u8>, Edges))
        requires
            old(self)@.valid(),
            clk + EPYX_CYCLES <= u64::MAX,
        ensures
            ({
                let known = crate::cart_state::is_modelled(type_variant & TYPE_MASK);
                let fresh = !known && !old(self)@.unsupported.contains(type_variant);
                let t = if known {
                    type_variant
                } else {
                    CART_TYPE_NONE
                };
                let b = BridgeState {
                    unsupported: if fresh {
                        old(self)@.unsupported.push(type_variant)
                    } else {
                        old(self)@.unsupported
                    },
                    ..old(self)@.with_cart(
                        CartState {
                            regs: old(self)@.slot.cart.regs.taken(
                                t & TYPE_MASK,
                                t >> 5,
                                old(self)@.lines.reset_held,
                                clk,
                            ),
                            ..old(self)@.slot.cart
                        },
                    )
                };
                &&& r.0 == if fresh {
                    Some(type_variant)
                } else {
                    None
                }
                &&& r.1 == b.edges()
                &&& final(self)@ == b.applied()
            }),
            crate::cart_state::is_modelled((type_variant % 32) as u8)
                ==> final(self)@.slot.cart.regs.logic == type_variant % 32
                && final(self)@.slot.cart.regs.variant == type_variant / 32 && r.0 is None,
            !crate::cart_state::is_modelled((type_variant % 32) as u8)
                ==> final(self)@.slot.cart.regs.logic == 0
                && final(self)@.slot.cart.regs.variant == 0,
            final(self)@.valid(),
    {
        proof {
            crate::cart_bits::type_bits(type_variant);
            crate::cart_bits::type_bits(0);
        }
        let known = crate::cart_state::modelled(type_variant & TYPE_MASK);
        let mut told: Option<u8> = None;
        let ghost before = self@;
        let t: u8 = if known {
            type_variant
        } else {
            if !listed(&self.unsupported, type_variant) {
                self.unsupported.push(type_variant);
                told = Some(type_variant);
            }
            CART_TYPE_NONE
        };
        let reset = self.lines.reset_held;
        self.slot.cart.configure(t, reset, clk);
        (told, self.apply_interrupts())
    }

    /// Switch the cartridge off.
    pub fn kill_cart(&mut self) -> (e: Edges)
        requires
            old(self)@.valid(),
        ensures
            ({
                let b = old(self)@.with_cart(
                    CartState {
                        regs: old(self)@.slot.cart.regs.killed(),
                        ..old(self)@.slot.cart
                    },
                );
                e == b.edges() && final(self)@ == b.applied()
            }),
            final(self)@.valid(),
    {
        self.slot.cart.kill();
        self.apply_interrupts()
    }

    /// Whether the expansion port answers at all: a cartridge type is selected or
    /// ULTIMAX is forced. Otherwise the C64 runs without any cartridge call.
    pub fn slot_used(&self) -> (b: bool)
        ensures
            b == (self@.slot.cart.regs.logic != CART_TYPE_NONE || self@.slot.forced),
    {
        self.slot.cart.present() || self.slot.forced_ultimax
    }

    /// Whether the cartridge is on.
    pub fn cart_active(&self) -> (r: bool)
        ensures
            r == self@.slot.cart.regs.cart_en,
    {
        self.slot.cart.active()
    }

    /// The freeze button.
    pub fn set_freeze_button(&mut self, down: bool) -> (e: Edges)
        requires
            old(self)@.valid(),
        ensures
            ({
                let b = old(self)@.with_cart(
                    CartState {
                        regs: old(self)@.slot.cart.regs.button_set(down),
                        ..old(self)@.slot.cart
                    },
                );
                e == b.edges() && final(self)@ == b.applied()
            }),
            final(self)@.valid(),
    {
        self.slot.cart.set_button(down);
        self.apply_interrupts()
    }

    /// A joystick's lines; both joysticks as the C64 takes them. Other ports are
    /// dropped.
    pub fn set_joystick(&mut self, port: u8, lines: u8) -> (r: Option<(JoystickState, JoystickState)>)
        ensures
            final(self)@ == (BridgeState {
                lines: HostLines {
                    joy1: if port == 1 {
                        lines
                    } else {
                        old(self)@.lines.joy1
                    },
                    joy2: if port == 2 {
                        lines
                    } else {
                        old(self)@.lines.joy2
                    },
                    ..old(self)@.lines
                },
                ..old(self)@
            }),
            r == if port == 1 || port == 2 {
                Some((stick(final(self)@.lines.joy1), stick(final(self)@.lines.joy2)))
            } else {
                None
            },
    {
        if port == 1 {
            self.lines.joy1 = lines;
        } else if port == 2 {
            self.lines.joy2 = lines;
        } else {
            return None;
        }
        Some((joystick(self.lines.joy1), joystick(self.lines.joy2)))
    }
}

/// The address that a cartridge's vector holds, if it serves both bytes.
pub open spec fn vector_at(cart: CartState, vector: u16) -> Option<u16> {
    let next = if vector == 0xFFFF {
        0u16
    } else {
        (vector + 1) as u16
    };
    match (cart.peeked(vector), cart.peeked(next)) {
        (Some(lo), Some(hi)) => Some((lo + 256 * hi) as u16),
        _ => None,
    }
}

fn listed(v: &Vec<u8>, x: u8) -> (b: bool)
    ensures
        b == v@.contains(x),
{
    let mut i: usize = 0;
    while i < v.len()
        invariant
            i <= v@.len(),
            forall|k: int| 0 <= k < i ==> v@[k] != x,
        decreases v@.len() - i,
    {
        if v[i] == x {
            assert(v@[i as int] == x);
            return true;
        }
        i = i + 1;
    }
    false
}

/// Where a DMA access gets its byte.
#[derive(Clone, Copy, Debug, PartialEq, Eq, Structural)]
pub enum Source {
    /// From RAM alone.
    Ram,
    /// This value.
    Value(u8),
    /// From the C64's bus, whatever it decodes there.
    Bus,
}

/// Where a DMA read gets its byte. `window` says that SIDs can be mapped there, `sid`
/// what a SID answers.
pub fn dma_read_from(addr: u16, mem_only: bool, io: bool, window: bool, sid: Option<u8>) -> (s:
    Source)
    ensures
        s == if mem_only {
            Source::Ram
        } else if io && window && sid is Some {
            Source::Value(sid->Some_0)
        } else if io && window && SID_FIRST <= addr <= SID_LAST {
            Source::Value(0)
        } else {
            Source::Bus
        },
{
    if mem_only {
        Source::Ram
    } else if io && window {
        match sid {
            Some(v) => Source::Value(v),
            None => if SID_FIRST <= addr && addr <= SID_LAST {
                Source::Value(0)
            } else {
                Source::Bus
            },
        }
    } else {
        Source::Bus
    }
}

/// Where a DMA peek gets its byte.
pub fn dma_peek_from(addr: u16, io: bool, sid: Option<u8>) -> (s: Source)
    ensures
        s == if io && sid is Some {
            Source::Value(sid->Some_0)
        } else if io && SID_FIRST <= addr <= SID_LAST {
            Source::Value(0)
        } else {
            Source::Bus
        },
{
    match sid {
        Some(v) if io => Source::Value(v),
        _ => if io && SID_FIRST <= addr && addr <= SID_LAST {
            Source::Value(0)
        } else {
            Source::Bus
        },
    }
}

/// The C64's ROM images.
#[derive(Debug)]
pub struct Roms {
    pub basic: Vec<u8>,
    pub kernal: Vec<u8>,
    pub chars: Vec<u8>,
}

impl Roms {
    /// An image.
    pub open spec fn image(self, rom: C64Rom) -> Seq<u8> {
        match rom {
            C64Rom::Basic => self.basic@,
            C64Rom::Kernal => self.kernal@,
            C64Rom::Char => self.chars@,
        }
    }

    fn bytes(&self, rom: C64Rom) -> (v: &Vec<u8>)
        ensures
            v@ == self.image(rom),
    {
        match rom {
            C64Rom::Basic => &self.basic,
            C64Rom::Kernal => &self.kernal,
            C64Rom::Char => &self.chars,
        }
    }

    /// A byte of an image, 0 past its end.
    pub fn rom_read(&self, rom: C64Rom, off: u16) -> (v: u8)
        ensures
            v == if off < self.image(rom).len() {
                self.image(rom)[off as int]
            } else {
                0
            },
    {
        let image = self.bytes(rom);
        if (off as usize) < image.len() {
            image[off as usize]
        } else {
            0
        }
    }

    /// Write a byte of an image; past its end nothing happens.
    pub fn rom_write(&mut self, rom: C64Rom, off: u16, val: u8)
        ensures
            forall|r: C64Rom|
                #![auto]
                final(self).image(r) == if r == rom && off < old(self).image(r).len() {
                    old(self).image(r).update(off as int, val)
                } else {
                    old(self).image(r)
                },
    {
        let at: usize = off as usize;
        match rom {
            C64Rom::Basic => {
                if at < self.basic.len() {
                    self.basic.set(at, val);
                }
            },
            C64Rom::Kernal => {
                if at < self.kernal.len() {
                    self.kernal.set(at, val);
                }
            },
            C64Rom::Char => {
                if at < self.chars.len() {
                    self.chars.set(at, val);
                }
            },
        }
    }

    /// Seed an image from a file's bytes; a file of another size is not taken.
    pub fn seed(&mut self, rom: C64Rom, file: Vec<u8>) -> (taken: bool)
        ensures
            taken == (file@.len() == old(self).image(rom).len()),
            forall|r: C64Rom|
                #![auto]
                final(self).image(r) == if r == rom && taken {
                    file@
                } else {
                    old(self).image(r)
                },
    {
        if file.len() != self.bytes(rom).len() {
            return false;
        }
        match rom {
            C64Rom::Basic => {
                self.basic = file;
            },
            C64Rom::Kernal => {
                self.kernal = file;
            },
            C64Rom::Char => {
                self.chars = file;
            },
        }
        true
    }
}

/// A run always makes progress and never asks for more than is left, and a watched
/// run never passes a timed change.
pub proof fn plans_make_progress(hints: RunHints, clk: u64, target: u64)
    ensures
        match planned(hints, clk, target) {
            Plan::Done => clk >= target,
            Plan::Plain { cycles } => cycles > 0 && clk + cycles == target,
            Plan::Watched { cycles, insns, .. } => {
                &&& cycles > 0 && insns > 0
                &&& clk + cycles <= target
                &&& hints.deadline matches Some(d) ==> (d > clk ==> clk + cycles <= d)
            },
        },
{
}

/// Applying the interrupts twice moves nothing the second time.
pub proof fn levels_settle(b: BridgeState)
    ensures
        b.applied().edges() == (Edges { nmi: None, irq: None }),
        b.applied().applied() == b.applied(),
{
}

} // verus!
