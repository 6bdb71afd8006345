//! The machine around the core: its configuration, and what happens before and
//! after every instruction.
//!
//! The idle task spins, so emulated time advances per executed instruction, and the
//! core's interrupt input follows the controller's line before every one of them.
use crate::hooks::{stop_at, CoreState, Exit, FaultHooks, RunExit};
use crate::irq::IrqState;
use crate::numbers::push_decimal;
use crate::symbols::{push_hex2, push_hex8, Symbols};
use crate::time::{clocks_to_ms, CLOCKS_PER_MS, DEFAULT_CLOCKS_PER_INSN};
use crate::trace::{Trace, TraceRing};
use vstd::prelude::*;

verus! {

/// What to log.
#[derive(Clone, Copy, Debug, PartialEq, Eq, Structural)]
pub struct LogFlags {
    pub unmapped: bool,
    pub io: bool,
    pub irq: bool,
}

/// Devices on the USB hub's ports.
#[derive(Debug)]
pub struct UsbConfig {
    /// Disk images, a stick each.
    pub images: Vec<String>,
}

/// How a machine is put together.
#[derive(Debug)]
pub struct MachineConfig {
    /// Firmware image.
    pub elf: String,
    /// Firmware ROM directory.
    pub rom_dir: String,
    /// Capability word.
    pub capabilities: u32,
    /// Clocks per executed instruction.
    pub clocks_per_insn: u64,
    /// Persistent flash image. None: volatile flash.
    pub flash_image: Option<String>,
    /// SD card image. None: no card.
    pub sd_image: Option<String>,
    pub usb: UsbConfig,
    /// Prefer the overlay UI where the flash config is blank.
    pub overlay_ui: bool,
    /// Halt on a firmware fault or an illegal instruction.
    pub halt_on_fault: bool,
    /// Record the trace ring.
    pub trace: bool,
    pub log: LogFlags,
}

impl MachineConfig {
    /// The defaults for firmware `elf`.
    pub fn new(elf: String, rom_dir: String) -> (c: MachineConfig)
        ensures
            c.elf == elf,
            c.rom_dir == rom_dir,
            c.capabilities == 0x3400_0222,
            c.clocks_per_insn == DEFAULT_CLOCKS_PER_INSN,
            c.flash_image is None,
            c.sd_image is None,
            c.usb.images@.len() == 0,
            c.overlay_ui,
            c.halt_on_fault,
            !c.trace,
            c.log == (LogFlags { unmapped: false, io: false, irq: false }),
    {
        MachineConfig {
            elf,
            rom_dir,
            capabilities: 0x3400_0222,
            clocks_per_insn: DEFAULT_CLOCKS_PER_INSN,
            flash_image: None,
            sd_image: None,
            usb: UsbConfig { images: Vec::new() },
            overlay_ui: true,
            halt_on_fault: true,
            trace: false,
            log: LogFlags { unmapped: false, io: false, irq: false },
        }
    }
}

/// What the core says of an instruction.
#[derive(Clone, Copy, Debug, PartialEq, Eq, Structural)]
pub enum CoreExit {
    Stepped,
    Wfi,
    Ebreak,
    /// An interrupt was taken instead.
    Interrupt,
    /// The word is no instruction.
    Illegal(u32),
}

/// What the machine keeps between instructions.
#[derive(Clone, Copy, Debug, PartialEq, Eq)]
pub struct Clockwork {
    /// The clock.
    pub now: u64,
    /// Earliest tick that a device wants.
    pub next_deadline: u64,
    /// Interrupts taken.
    pub irqs: u64,
    /// The core's interrupt input.
    pub meip: bool,
    /// Address of the instruction at work.
    pub pc: u32,
    /// Address of the last stop. The next run executes that instruction instead of
    /// stopping again.
    pub resume_pc: Option<u32>,
}

/// A machine, without its core and its devices.
#[derive(Debug)]
pub struct Machine {
    pub symbols: Symbols,
    pub cfg: MachineConfig,
    pub breakpoints: Vec<u32>,
    pub trace: TraceRing,
    pub hooks: FaultHooks,
    pub clock: Clockwork,
}

/// A run on its way.
#[derive(Clone, Copy, Debug, PartialEq, Eq)]
pub struct Run {
    /// Instructions left.
    pub left: u64,
    /// The stop that is being resumed.
    pub resume: Option<u32>,
}

impl MachineConfig {
    /// Whether a machine can be made: with no clocks per instruction emulated time
    /// would stand still.
    pub fn check(&self) -> (r: Result<(), String>)
        ensures
            r is Ok <==> self.clocks_per_insn > 0,
            r matches Err(e) ==> e@
                == "clocks_per_insn must be at least 1, or emulated time stands still"@,
    {
        if self.clocks_per_insn > 0 {
            Ok(())
        } else {
            Err(
                String::from_str(
                    "clocks_per_insn must be at least 1, or emulated time stands still",
                ),
            )
        }
    }
}

/// The stop before the next instruction, if there is one: at a hook, or while there
/// are breakpoints, but not at the stop that is being resumed.
pub open spec fn stop_before(m: Machine, resume: Option<u32>, ram: Seq<u8>, core: CoreState)
    -> Option<Exit> {
    if (m.breakpoints@.len() > 0 || (m.hooks.any() && m.hooks.at(core.pc))) && resume != Some(
        core.pc,
    ) {
        crate::hooks::stop(m.hooks, m.breakpoints@, m.symbols, ram, core)
    } else {
        None
    }
}

/// Where a run stands: the clockwork, what is left of the run, and the trace.
#[verifier::ext_equal]
pub struct Progress {
    pub clock: Clockwork,
    pub run: Run,
    pub trace: Trace,
}

impl Progress {
    /// A run of at most `max_insns` instructions begins.
    pub open spec fn begun(clock: Clockwork, trace: Trace, max_insns: u64) -> Progress {
        Progress {
            clock: Clockwork { resume_pc: None, ..clock },
            run: Run { left: max_insns, resume: clock.resume_pc },
            trace,
        }
    }

    /// Before an instruction of machine `m`: the run ends, or the instruction is
    /// counted and recorded.
    pub open spec fn before(self, m: Machine, ram: Seq<u8>, core: CoreState) -> (
        Option<Exit>,
        Progress,
    ) {
        let stop = stop_before(m, self.run.resume, ram, core);
        if self.run.left == 0 {
            (Some(Exit::Budget), self)
        } else if stop is Some {
            (
                stop,
                Progress {
                    clock: Clockwork { resume_pc: Some(core.pc), ..self.clock },
                    ..self
                },
            )
        } else {
            (
                None,
                Progress {
                    run: Run {
                        left: (self.run.left - 1) as u64,
                        resume: if m.breakpoints@.len() > 0 || m.hooks.any() {
                            None
                        } else {
                            self.run.resume
                        },
                    },
                    trace: if m.cfg.trace {
                        self.trace.pushed(core.pc)
                    } else {
                        self.trace
                    },
                    ..self
                },
            )
        }
    }
}

/// A line about the interrupt input.
pub open spec fn edge_line(line: bool, place: Seq<char>, irq: IrqState) -> Seq<char> {
    "irq: line "@ + flag(line) + " at "@ + place + " (global "@ + flag(irq.global_en)
        + ", active "@ + crate::symbols::hex2(irq.active_low()) + ", high "@ + crate::symbols::hex2(
        irq.active_high(),
    ) + ")"@
}

/// A line about an interrupt taken.
pub open spec fn taken_line(place: Seq<char>, irq: IrqState) -> Seq<char> {
    "irq: taken at "@ + place + " (active "@ + crate::symbols::hex2(irq.active_low()) + ", high "@
        + crate::symbols::hex2(irq.active_high()) + ")"@
}

/// A flag as a digit.
pub open spec fn flag(b: bool) -> Seq<char> {
    if b {
        "1"@
    } else {
        "0"@
    }
}

fn push_flag(out: &mut String, b: bool)
    ensures
        final(out)@ == old(out)@ + flag(b),
{
    if b {
        out.append("1");
    } else {
        out.append("0");
    }
}

/// The view of an optional line.
pub open spec fn line_of(l: Option<String>) -> Option<Seq<char>> {
    match l {
        Some(l) => Some(l@),
        None => None,
    }
}

impl Machine {
    /// A machine around loaded firmware. Its hooks are resolved from the symbols
    /// unless faults are not to halt it.
    pub fn from_parts(
        cfg: MachineConfig,
        symbols: Symbols,
        ram: &[u8],
        entry: u32,
        next_deadline: u64,
    ) -> (m: Machine)
        requires
            ram@.len() > 0,
            ram@.len() <= 0x1_0000_0000,
        ensures
            m.cfg == cfg,
            m.symbols == symbols,
            m.breakpoints@.len() == 0,
            m.trace.valid(),
            m.trace@ == Trace::initial(),
            m.hooks == if cfg.halt_on_fault {
                FaultHooks::of(symbols, ram@)
            } else {
                FaultHooks::absent()
            },
            m.clock == (Clockwork {
                now: 0,
                next_deadline,
                irqs: 0,
                meip: false,
                pc: entry,
                resume_pc: None,
            }),
    {
        let hooks = if cfg.halt_on_fault {
            FaultHooks::resolve(&symbols, ram)
        } else {
            FaultHooks::none()
        };
        Machine {
            symbols,
            cfg,
            breakpoints: Vec::new(),
            trace: TraceRing::new(),
            hooks,
            clock: Clockwork {
                now: 0,
                next_deadline,
                irqs: 0,
                meip: false,
                pc: entry,
                resume_pc: None,
            },
        }
    }

    /// Everything but the clockwork and the trace is as it was in `before`.
    pub open spec fn same_rest(self, before: Machine) -> bool {
        &&& self.symbols == before.symbols
        &&& self.cfg == before.cfg
        &&& self.breakpoints == before.breakpoints
        &&& self.hooks == before.hooks
    }

    /// Where the run `run` stands.
    pub open spec fn progress(self, run: Run) -> Progress {
        Progress { clock: self.clock, run, trace: self.trace@ }
    }

    /// Start a run of at most `max_insns` instructions. An interrupt that is taken
    /// counts as one.
    pub fn start(&mut self, max_insns: u64) -> (r: Run)
        ensures
            final(self).progress(r) == Progress::begun(
                old(self).clock,
                old(self).trace@,
                max_insns,
            ),
            final(self).trace == old(self).trace,
            final(self).same_rest(*old(self)),
    {
        let resume = self.clock.resume_pc;
        self.clock.resume_pc = None;
        Run { left: max_insns, resume }
    }

    /// Before an instruction: whether the run ends here. If it does not, the
    /// instruction is counted and recorded.
    pub fn before(&mut self, run: &mut Run, ram: &[u8], core: CoreState) -> (e: Option<RunExit>)
        requires
            ram@.len() > 0,
            old(self).trace.valid(),
            old(self).trace@.count < u64::MAX,
        ensures
            final(self).same_rest(*old(self)),
            final(self).trace.valid(),
            (crate::hooks::exit_of(e), final(self).progress(*final(run))) == old(self).progress(
                *old(run),
            ).before(*old(self), ram@, core),
    {
        if run.left == 0 {
            return Some(RunExit::Budget);
        }
        let breakpoints = self.breakpoints.len() > 0;
        let armed = self.hooks.armed();
        if breakpoints || armed {
            let resumed = match run.resume {
                Some(pc) => pc == core.pc,
                None => false,
            };
            if (breakpoints || self.hooks.hit(core.pc)) && !resumed {
                match stop_at(&self.hooks, &self.breakpoints, &self.symbols, ram, core) {
                    Some(e) => {
                        self.clock.resume_pc = Some(core.pc);
                        return Some(e);
                    },
                    None => {},
                }
            }
            run.resume = None;
        }
        if self.cfg.trace {
            self.trace.push(core.pc);
        }
        run.left = run.left - 1;
        None
    }

    /// Whether a device is due before the next instruction.
    pub fn due(&self) -> (b: bool)
        ensures
            b == (self.clock.now >= self.clock.next_deadline),
    {
        self.clock.now >= self.clock.next_deadline
    }

    /// The devices' earliest tick after some have ticked, or after host input.
    pub fn reschedule(&mut self, next_deadline: u64)
        ensures
            final(self).clock == (Clockwork { next_deadline, ..old(self).clock }),
            final(self).trace == old(self).trace,
            final(self).same_rest(*old(self)),
    {
        self.clock.next_deadline = next_deadline;
    }

    /// The core's interrupt input follows the controller's line, after the ticks, so
    /// that an edge that a tick raised is taken by this very instruction. Returns a
    /// line to log if the input changes and interrupts are logged.
    pub fn drive(&mut self, irq: &IrqState, pc: u32) -> (l: Option<String>)
        ensures
            final(self).clock == (Clockwork { meip: irq.up(), pc, ..old(self).clock }),
            final(self).trace == old(self).trace,
            final(self).same_rest(*old(self)),
            line_of(l) == if irq.up() != old(self).clock.meip && old(self).cfg.log.irq {
                Some(edge_line(irq.up(), old(self).symbols.text(pc), *irq))
            } else {
                None
            },
    {
        let line = irq.line();
        let logged = if line != self.clock.meip && self.cfg.log.irq {
            let mut m = String::from_str("irq: line ");
            push_flag(&mut m, line);
            m.append(" at ");
            self.symbols.push_place(&mut m, pc);
            m.append(" (global ");
            push_flag(&mut m, irq.global_en);
            m.append(", active ");
            push_hex2(&mut m, irq.active());
            m.append(", high ");
            push_hex2(&mut m, irq.high_active());
            m.append(")");
            Some(m)
        } else {
            None
        };
        self.clock.meip = line;
        self.clock.pc = pc;
        logged
    }

    /// After an instruction: time advances. `touched` is the devices' earliest tick
    /// if the instruction reached one of them. Returns how the run ends, if it does,
    /// and a line to log.
    pub fn after(&mut self, exit: CoreExit, touched: Option<u64>, irq: &IrqState, mepc: u32) -> (r: (
        Option<RunExit>,
        Option<String>,
    ))
        requires
            old(self).clock.now + old(self).cfg.clocks_per_insn <= u64::MAX,
            old(self).clock.irqs < u64::MAX,
        ensures
            final(self).clock == (Clockwork {
                now: (old(self).clock.now + old(self).cfg.clocks_per_insn) as u64,
                next_deadline: match touched {
                    Some(t) => t,
                    None => old(self).clock.next_deadline,
                },
                irqs: if exit is Interrupt {
                    (old(self).clock.irqs + 1) as u64
                } else {
                    old(self).clock.irqs
                },
                ..old(self).clock
            }),
            final(self).trace == old(self).trace,
            final(self).same_rest(*old(self)),
            crate::hooks::exit_of(r.0) == (match exit {
                CoreExit::Illegal(insn) if old(self).cfg.halt_on_fault => Some(
                    Exit::Halted(
                        crate::hooks::illegal_message(
                            insn,
                            old(self).symbols.text(old(self).clock.pc),
                        ),
                    ),
                ),
                _ => None,
            }),
            line_of(r.1) == if exit is Interrupt && old(self).cfg.log.irq {
                Some(taken_line(old(self).symbols.text(mepc), *irq))
            } else {
                None
            },
    {
        self.clock.now = self.clock.now + self.cfg.clocks_per_insn;
        match touched {
            Some(t) => {
                self.clock.next_deadline = t;
            },
            None => {},
        }
        match exit {
            CoreExit::Interrupt => {
                self.clock.irqs = self.clock.irqs + 1;
                if self.cfg.log.irq {
                    let mut m = String::from_str("irq: taken at ");
                    self.symbols.push_place(&mut m, mepc);
                    m.append(" (active ");
                    push_hex2(&mut m, irq.active());
                    m.append(", high ");
                    push_hex2(&mut m, irq.high_active());
                    m.append(")");
                    return (None, Some(m));
                }
                (None, None)
            },
            CoreExit::Illegal(insn) => {
                if self.cfg.halt_on_fault {
                    let mut m = String::from_str("illegal instruction ");
                    push_hex8(&mut m, insn);
                    m.append(" at ");
                    self.symbols.push_place(&mut m, self.clock.pc);
                    return (Some(RunExit::Halted(m)), None);
                }
                (None, None)
            },
            _ => (None, None),
        }
    }

    /// Emulated milliseconds since power-on.
    pub fn now_ms(&self) -> (ms: u64)
        ensures
            ms as int == self.clock.now as int / CLOCKS_PER_MS as int,
    {
        clocks_to_ms(self.clock.now)
    }

    /// One line of statistics. `seconds` is the emulated time in seconds, as text.
    pub fn stats(&self, insns: u64, seconds: &str, pc: u32) -> (s: String)
        ensures
            s@ == crate::numbers::decimal(insns as nat) + " instructions, "@ + seconds@
                + " s emulated, "@ + crate::numbers::decimal(self.clock.irqs as nat)
                + " IRQs taken, pc "@ + self.symbols.text(pc),
    {
        let mut s = crate::numbers::decimal_string(insns);
        s.append(" instructions, ");
        s.append(seconds);
        s.append(" s emulated, ");
        push_decimal(&mut s, self.clock.irqs);
        s.append(" IRQs taken, pc ");
        self.symbols.push_place(&mut s, pc);
        s
    }
}

/// The run that follows a stop executes the instruction at which it came, even if
/// that is a hook or a breakpoint.
pub proof fn a_stop_is_resumed(m: Machine, ram: Seq<u8>, core: CoreState)
    ensures
        stop_before(m, Some(core.pc), ram, core) is None,
{
}

/// A run at a breakpoint ends there before the instruction: no time has passed and
/// nothing is recorded. The run that follows executes the instruction instead of
/// stopping there again.
pub proof fn a_breakpoint_stops_once(
    m: Machine,
    first: u64,
    second: u64,
    ram: Seq<u8>,
    core: CoreState,
)
    requires
        first >= 1,
        second >= 1,
        m.breakpoints@.contains(core.pc),
        !m.hooks.at(core.pc),
        m.clock.resume_pc != Some(core.pc),
    ensures
        ({
            let (e, p) = Progress::begun(m.clock, m.trace@, first).before(m, ram, core);
            let (f, q) = Progress::begun(p.clock, p.trace, second).before(m, ram, core);
            &&& e == Some(Exit::Breakpoint(core.pc))
            &&& p.clock == (Clockwork { resume_pc: Some(core.pc), ..m.clock })
            &&& p.trace == m.trace@
            &&& p.run.left == first
            &&& f is None
            &&& q.clock == (Clockwork { resume_pc: None, ..m.clock })
            &&& q.run == (Run { left: (second - 1) as u64, resume: None })
            &&& q.trace == if m.cfg.trace {
                m.trace@.pushed(core.pc)
            } else {
                m.trace@
            }
        }),
{
    breakpoints_stop(m, m.clock.resume_pc, ram, core);
}

/// Without breakpoints and hooks nothing stops a run before its budget is used up.
pub proof fn nothing_stops_without_reason(
    m: Machine,
    resume: Option<u32>,
    ram: Seq<u8>,
    core: CoreState,
)
    requires
        m.breakpoints@.len() == 0,
        !(m.hooks.any() && m.hooks.at(core.pc)),
    ensures
        stop_before(m, resume, ram, core) is None,
{
}

/// Every breakpoint stops a run before its instruction, unless that stop is being
/// resumed.
pub proof fn breakpoints_stop(m: Machine, resume: Option<u32>, ram: Seq<u8>, core: CoreState)
    requires
        m.breakpoints@.contains(core.pc),
        resume != Some(core.pc),
    ensures
        stop_before(m, resume, ram, core) is Some,
        !m.hooks.at(core.pc) ==> stop_before(m, resume, ram, core) == Some(
            Exit::Breakpoint(core.pc),
        ),
{
}

} // verus!
