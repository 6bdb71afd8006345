//! The run loop's bookkeeping, with timers and a tiny core around it.
use ue2emu::c64::C64Port;
use ue2emu::c64_state::SYNC_PERIOD;
use ue2emu::c64host::CartRom;
use ue2emu::devices::install_all;
use ue2emu::hooks::{c_string, CoreState, RunExit, JUMP_TO_SELF};
use ue2emu::host::{DisplaySnapshot, HostInput};
use ue2emu::io::IoCtx;
use ue2emu::iomap::{Device, IoMap, IO_BASE};
use ue2emu::irq::IrqState;
use ue2emu::logs::{access_lines, format_io, format_unmapped, unmapped_summary, Access, Unmapped};
use ue2emu::machine::{CoreExit, Machine, MachineConfig};
use ue2emu::mock::{Call, Mock};
use ue2emu::regtable::{Reg, RegTable, Span};
use ue2emu::routing::DeviceInput;
use ue2emu::schedule::display;
use ue2emu::symbols::{Symbol, Symbols};
use ue2emu::time::CLOCK_HZ;
use ue2emu::trace::trace_report;

/// A periodic source: a write of `n` arms it `n` clocks after the access; a tick
/// records its clock, pushes `id` to the console, pulses interrupt 0 and re-arms.
struct Timer {
    id: u8,
    period: u64,
    due: Option<u64>,
    ticks: Vec<u64>,
}

fn timer(id: u8, period: u64, due: Option<u64>) -> Timer {
    Timer { id, period, due, ticks: Vec::new() }
}

fn sym(addr: u32, size: u32, name: &str) -> Symbol {
    Symbol { addr, size, name: name.to_owned(), mangled: name.to_owned() }
}

fn cfg() -> MachineConfig {
    MachineConfig::new(String::new(), String::new())
}

/// A machine with timers, and a core that knows `addi` and `jal`.
struct Rig {
    m: Machine,
    timers: Vec<Timer>,
    irq: IrqState,
    ram: Vec<u8>,
    console: Vec<u8>,
    x: [u32; 32],
    mcause: u32,
    mepc: u32,
    pc: u32,
}

impl Rig {
    fn new(config: MachineConfig, timers: Vec<Timer>, symbols: Symbols) -> Rig {
        Rig::at(config, timers, symbols, vec![0; 0x10_0000], 0x30000)
    }

    fn at(config: MachineConfig, timers: Vec<Timer>, symbols: Symbols, ram: Vec<u8>, entry: u32) -> Rig {
        let due = timers.iter().filter_map(|t| t.due).min().unwrap_or(u64::MAX);
        let m = Machine::from_parts(config, symbols, &ram, entry, due);
        Rig { m, timers, irq: IrqState::new(), ram, console: Vec::new(), x: [0; 32], mcause: 0, mepc: 0, pc: entry }
    }

    fn next_due(&self) -> u64 {
        self.timers.iter().filter_map(|t| t.due).min().unwrap_or(u64::MAX)
    }

    fn core_state(&self) -> CoreState {
        CoreState {
            pc: self.pc,
            ra: self.x[1],
            sp: self.x[2],
            a0: self.x[10],
            a1: self.x[11],
            a3: self.x[13],
            mcause: self.mcause,
            mepc: self.mepc,
        }
    }

    fn pre_step(&mut self) -> Option<String> {
        if self.m.due() {
            let now = self.m.clock.now;
            for t in &mut self.timers {
                if t.due.is_some_and(|due| due <= now) {
                    t.ticks.push(now);
                    self.console.push(t.id);
                    self.irq.pulse(0);
                    t.due = Some(now + t.period);
                }
            }
            let due = self.next_due();
            self.m.reschedule(due);
        }
        self.m.drive(&self.irq, self.pc)
    }

    fn post_step(&mut self, exit: CoreExit, touched: bool) -> (Option<RunExit>, Option<String>) {
        let due = if touched { Some(self.next_due()) } else { None };
        self.m.after(exit, due, &self.irq, self.mepc)
    }

    /// The bookkeeping around one instruction, with the write to timer `.0` that the
    /// instruction performs.
    fn step(&mut self, write: Option<(usize, u8)>) {
        self.pre_step();
        if let Some((i, val)) = write {
            self.timers[i].due = Some(self.m.clock.now + u64::from(val));
        }
        self.post_step(CoreExit::Stepped, write.is_some());
    }

    fn insn(&mut self) -> CoreExit {
        let at = self.pc as usize;
        let word = u32::from_le_bytes(self.ram[at..at + 4].try_into().unwrap());
        match word & 0x7F {
            0x13 => {
                let imm = (word as i32 >> 20) as u32;
                let (rd, rs) = ((word >> 7 & 31) as usize, (word >> 15 & 31) as usize);
                if rd != 0 {
                    self.x[rd] = self.x[rs].wrapping_add(imm);
                }
                self.pc += 4;
                CoreExit::Stepped
            }
            0x6F => {
                let imm = (word as i32 >> 31) as u32 & 0xFFF0_0000
                    | word & 0xFF000
                    | word >> 9 & 0x800
                    | word >> 20 & 0x7FE;
                self.pc = self.pc.wrapping_add(imm);
                CoreExit::Stepped
            }
            _ => CoreExit::Illegal(word),
        }
    }

    fn run(&mut self, max: u64) -> RunExit {
        let mut run = self.m.start(max);
        loop {
            let state = self.core_state();
            if let Some(exit) = self.m.before(&mut run, &self.ram, state) {
                return exit;
            }
            self.pre_step();
            let exit = self.insn();
            if let (Some(exit), _) = self.post_step(exit, false) {
                return exit;
            }
        }
    }

    fn report(&self) -> String {
        trace_report(self.m.cfg.trace, &self.m.trace, &self.m.symbols)
    }
}

#[test]
fn io_access_recomputes_deadline_and_tick_precedes_meip() {
    let mut m = Rig::new(cfg(), vec![timer(1, 20, None)], Symbols::empty());
    m.irq.global_en = true;
    m.irq.mask = 0x01;
    assert_eq!(m.m.clock.next_deadline, u64::MAX);

    m.step(Some((0, 12)));
    assert_eq!((m.m.clock.now, m.m.clock.next_deadline), (4, 12));
    m.step(None);
    m.step(None);
    assert!(m.timers[0].ticks.is_empty() && !m.m.clock.meip);

    m.pre_step();
    assert_eq!(m.timers[0].ticks, [12]);
    assert!(m.m.clock.meip, "the tick's edge reaches meip before the same step");
    assert_eq!(m.m.clock.next_deadline, 32);
    m.post_step(CoreExit::Stepped, false);
    assert_eq!(m.m.clock.now, 16);
}

#[test]
fn due_devices_tick_in_install_order_and_time_uses_clocks_per_insn() {
    let mut config = cfg();
    config.clocks_per_insn = 10;
    let timers = vec![timer(1, 30, Some(10)), timer(2, 5, None), timer(3, 50, Some(10))];
    let mut m = Rig::new(config, timers, Symbols::empty());
    assert_eq!(m.m.clock.next_deadline, 10);
    m.step(None);
    assert!(m.console.is_empty());
    m.step(None);
    assert_eq!(m.console, [1, 3]);
    assert_eq!((m.m.clock.now, m.m.clock.next_deadline), (20, 40));
    m.step(Some((1, 5)));
    assert_eq!(m.m.clock.next_deadline, 25);
    m.step(None);
    assert_eq!(m.console, [1, 3, 2]);
    assert_eq!(m.timers[1].ticks, [30]);
}

#[test]
fn meip_follows_irq_line() {
    let mut m = Rig::new(cfg(), Vec::new(), Symbols::empty());
    m.pc = 0x1234;
    m.irq.pulse(0);
    m.pre_step();
    assert!(!m.m.clock.meip, "global enable off");
    assert_eq!(m.m.clock.pc, 0x1234);
    m.irq.global_en = true;
    m.pre_step();
    assert!(!m.m.clock.meip, "masked");
    m.irq.mask = 0x01;
    m.pre_step();
    assert!(m.m.clock.meip);
    m.irq.clear(0x01);
    m.pre_step();
    assert!(!m.m.clock.meip);
    m.irq.high_en = 0x08;
    m.irq.set_high(3, true);
    m.pre_step();
    assert!(m.m.clock.meip);
    m.irq.set_high(3, false);
    m.pre_step();
    assert!(!m.m.clock.meip);
}

#[test]
fn breakpoint_stops_before_the_instruction() {
    let mut m = Rig::new(cfg(), Vec::new(), Symbols::empty());
    m.m.breakpoints.push(0x30000);
    assert_eq!(m.run(10), RunExit::Breakpoint(0x30000));
    assert_eq!((m.m.clock.now, m.m.clock.resume_pc, m.m.trace.count()), (0, Some(0x30000), 0));
    assert_eq!(m.run(0), RunExit::Budget);
}

#[test]
fn the_run_after_a_breakpoint_executes_its_instruction() {
    let mut config = cfg();
    config.trace = true;
    let mut m = Rig::new(config, Vec::new(), Symbols::empty());
    // 0x30000: addi x5,x5,1; 0x30004: j 0x30000
    for (addr, word) in [(0x30000, 0x0012_8293u32), (0x30004, 0xFFDF_F06F)] {
        m.ram[addr..addr + 4].copy_from_slice(&word.to_le_bytes());
    }
    m.m.breakpoints.push(0x30000);
    assert_eq!(m.run(10), RunExit::Breakpoint(0x30000));
    assert_eq!((m.m.clock.now, m.m.trace.count(), m.x[5]), (0, 0, 0), "before the instruction");
    assert_eq!(m.run(1), RunExit::Budget);
    assert_eq!((m.m.trace.count(), m.x[5]), (1, 1), "the instruction has run");
    assert_eq!(m.run(10), RunExit::Breakpoint(0x30000), "once round the loop");
    assert_eq!((m.m.trace.count(), m.x[5]), (2, 1));
}

#[test]
fn run_traces_each_step_and_the_report_is_symbolized() {
    // 0x30000: addi x5,x5,1; 0x30004: addi x6,x6,2; 0x30008: j 0x30000
    let program = |m: &mut Rig| {
        for (addr, word) in [(0x30000, 0x0012_8293u32), (0x30004, 0x0023_0313), (0x30008, 0xFF9F_F06F)] {
            m.ram[addr..addr + 4].copy_from_slice(&word.to_le_bytes());
        }
    };
    let mut untraced = Rig::new(cfg(), Vec::new(), Symbols::empty());
    program(&mut untraced);
    assert_eq!(untraced.run(4), RunExit::Budget);
    assert_eq!((untraced.x[6], untraced.m.trace.count()), (2, 0));
    assert_eq!(untraced.report(), "trace: not recorded (--trace or --gdb record the last 256 PCs)\n");

    let mut config = cfg();
    config.trace = true;
    let mut m = Rig::new(config, Vec::new(), Symbols::from_symbols(vec![sym(0x30000, 4, "top")]));
    program(&mut m);
    assert_eq!(m.m.trace.iter().len(), 0);
    assert_eq!(m.run(4), RunExit::Budget);
    assert_eq!(
        m.report(),
        "trace: last 4 of 4 steps, oldest first\n  0x00030000 top\n  0x00030004\n  0x00030008\n  0x00030000 top\n"
    );
    m.m.symbols = Symbols::from_symbols(vec![sym(0x30000, 12, "top")]);
    assert!(m.report().ends_with("  0x00030008 top+0x8\n  0x00030000 top\n"));

    // 301 steps in total: the ring holds steps 45..=300, oldest first, across several run slices.
    m.m.breakpoints.push(0x30004);
    assert_eq!(m.run(1000), RunExit::Breakpoint(0x30004), "a stop is not recorded");
    assert_eq!(m.m.trace.count(), 4);
    m.m.breakpoints.clear();
    assert_eq!(m.run(297), RunExit::Budget);
    let pcs: Vec<u32> = m.m.trace.iter();
    let want: Vec<u32> = (45..301).map(|step| 0x30000 + step % 3 * 4).collect();
    assert_eq!((m.m.trace.count(), pcs), (301, want));
}

#[test]
fn fault_hooks_halt_with_symbolized_context() {
    let symbols = || {
        Symbols::from_symbols(vec![
            sym(0x33D8C, 52, "vAssertCalled"),
            sym(0x3E00C, 32, "C_exception_handler"),
            sym(0x30178, 0, "__crt0_dummy_trap_handler"),
            sym(0x3DFC4, 0x40, "vPortSetupTimerInterrupt"),
        ])
    };
    let mut m = Rig::new(cfg(), Vec::new(), symbols());
    m.ram[0x2000..0x2007].copy_from_slice(b"port.c\0");
    m.pc = 0x33D8C;
    m.x[1] = 0x3DFD4;
    m.x[10] = 0x2000;
    m.x[11] = 161;
    assert_eq!(
        m.run(1),
        RunExit::Halted("vAssertCalled called from vPortSetupTimerInterrupt+0x10 (port.c:161)".into())
    );

    m.pc = 0x3E00C;
    (m.x[10], m.x[11], m.x[13]) = (2, 0x3DFC8, 0xDEAD);
    assert_eq!(
        m.run(1),
        RunExit::Halted(
            "C_exception_handler called from vPortSetupTimerInterrupt+0x10: cause 0x00000002 at \
             vPortSetupTimerInterrupt+0x4 value 0x0000dead"
                .into()
        )
    );

    m.pc = 0x30178;
    (m.mcause, m.mepc) = (11, 0x3DFC4);
    assert_eq!(
        m.run(1),
        RunExit::Halted("__crt0_dummy_trap_handler entered: mcause 0x0000000b mepc vPortSetupTimerInterrupt".into())
    );

    let mut quiet = cfg();
    quiet.halt_on_fault = false;
    assert!(!Rig::new(quiet, Vec::new(), symbols()).m.hooks.armed());
}

#[test]
fn get_mem_panic_loop_halts_with_the_caller() {
    let symbols = || {
        Symbols::from_symbols(vec![
            sym(0x40000, 0x40, "_Z7get_memj"),
            sym(0x3DFC4, 0x40, "vPortSetupTimerInterrupt"),
        ])
    };
    let load = |words: &[(usize, u32)]| {
        let mut ram = vec![0u8; 0x10_0000];
        for &(addr, word) in words {
            ram[addr..addr + 4].copy_from_slice(&word.to_le_bytes());
        }
        ram
    };
    // addi sp,sp,-32; sw ra,28(sp); ...; j . at +0x30.
    let prologue: [(usize, u32); 2] = [(0x40000, 0xFE01_0113), (0x40004, 0x0011_2E23)];
    let mut ram = load(&[prologue[0], prologue[1], (0x40030, JUMP_TO_SELF)]);
    ram[0x201C..0x2020].copy_from_slice(&0x3DFD4u32.to_le_bytes());
    let mut m = Rig::at(cfg(), Vec::new(), symbols(), ram, 0x40030);
    assert_eq!((m.m.hooks.panic_loop, m.m.hooks.panic_ra_slot), (0x40030, 28));
    m.x[2] = 0x2000;
    assert_eq!(
        m.run(10),
        RunExit::Halted(
            "get_mem PANIC: pvPortMalloc returned NULL, get_mem called from vPortSetupTimerInterrupt+0x10".into()
        )
    );
    assert_eq!(m.m.clock.now, 0, "halted before the loop executes");

    let no_loop = Rig::at(cfg(), Vec::new(), symbols(), load(&prologue), 0x30000);
    assert!(!no_loop.m.hooks.armed(), "no `j .` in get_mem, no hook");
}

#[test]
fn new_rejects_zero_clocks_per_insn() {
    let mut config = cfg();
    config.clocks_per_insn = 0;
    let err = config.check().err().expect("rejected before loading");
    assert!(err.to_string().contains("clocks_per_insn must be at least 1"), "{err}");
    config.clocks_per_insn = 1;
    assert_eq!(config.check(), Ok(()));
}

#[test]
fn unmapped_log_lines_and_summary() {
    let symbols = Symbols::from_symbols(vec![sym(0x1000, 0x100, "poll")]);
    assert_eq!(unmapped_summary(true, &Vec::new()).unwrap(), "unmapped summary: 0 addresses\n");
    let read = Access { pc: 0x1010, addr: 0x10FF_0000, val: 0, write: false, trace: false, unmapped: true };
    let write = Access { pc: 0x1010, addr: 0x10FF_0000, val: 0x5A, write: true, trace: false, unmapped: true };
    assert_eq!(format_unmapped(&symbols, &read), "unmapped R 0x10ff0000 @0x00001010 poll+0x10");
    assert_eq!(format_unmapped(&symbols, &write), "unmapped W 0x10ff0000 0x5a @0x00001010 poll+0x10");
    let io: IoMap<Mock> = IoMap::new();
    assert_eq!(
        access_lines(&io, &symbols, &vec![read, write]),
        [
            "unmapped R 0x10ff0000 @0x00001010 poll+0x10",
            "unmapped W 0x10ff0000 0x5a @0x00001010 poll+0x10",
        ]
    );
    assert_eq!(
        unmapped_summary(true, &vec![Unmapped { addr: 0x10FF_0000, reads: 1, writes: 1 }]).unwrap(),
        "unmapped summary: 1 addresses\n  address        reads    writes\n  0x10ff0000         1         1\n"
    );
    assert_eq!(unmapped_summary(false, &Vec::new()), None);
}

#[test]
fn io_trace_line_names_the_device() {
    let mut io: IoMap<Mock> = IoMap::new();
    io.add(IO_BASE, 0x100, Device::Table(RegTable::new("timer", vec![Span { start: 0, end: 0x100, reg: Reg::Raz }])));
    let a = Access { pc: 0x40, addr: IO_BASE + 7, val: 3, write: true, trace: true, unmapped: false };
    assert_eq!(format_io(&io, &Symbols::empty(), &a), "io W 0x10000007 0x03 timer+0x7 @0x00000040 0x00000040");
    let symbols = Symbols::empty();
    assert_eq!(
        access_lines(&io, &symbols, &vec![a]),
        ["io W 0x10000007 0x03 timer+0x7 @0x00000040 0x00000040"]
    );
}

#[test]
fn stats_and_default_display() {
    let mut m = Rig::new(cfg(), Vec::new(), Symbols::empty());
    m.m.clock.now = 3 * CLOCK_HZ / 2;
    m.m.clock.irqs = 2;
    let seconds = format!("{:.3}", m.m.clock.now as f64 / CLOCK_HZ as f64);
    assert_eq!(
        m.m.stats(0, &seconds, m.pc),
        "0 instructions, 1.500 s emulated, 2 IRQs taken, pc 0x00030000"
    );
    let mut io: IoMap<Mock> = IoMap::new();
    assert_eq!(io.input(&HostInput::MenuButton(true), false), Some(DeviceInput::MenuButton(true)));
    let snap = display(&io, None, m.m.now_ms());
    assert_eq!((snap.screen.len(), snap.color.len(), snap.palette.len(), snap.now_ms), (4096, 4096, 64, 1500));
}

fn port(io: &mut IoMap<Mock>) -> &mut C64Port<Mock> {
    let i = io.find_port().unwrap();
    match &mut io.devices[i] {
        Device::C64(p) => p,
        _ => unreachable!(),
    }
}

#[test]
fn c64_input_routing_and_frame() {
    let mut io: IoMap<Mock> = IoMap::new();
    install_all(&mut io, &cfg());
    let mut ctx = IoCtx::new(vec![0; 0x0400_0000]);
    assert_eq!(display(&io, None, 0).c64, None, "no C64 attached");
    ctx.now = 1234;
    let mut mock = Mock::new();
    mock.detect = 0x03;
    io.attach_c64(mock, ctx.now, Some(0x03));
    assert_eq!(io.next_deadline(), 1234 + 100_000, "the C64 sync is scheduled");
    assert_eq!(port(&mut io).backend_mut().unwrap().calls.remove(0), Call::CartRom(CartRom::large()));

    let key = HostInput::Key { row: 1, col: 2, down: true };
    assert_eq!(io.input(&key, false), Some(DeviceInput::OverlayKey { row: 1, col: 2, down: true }));
    assert_eq!(
        io.input(&HostInput::Key { row: 7, col: 7, down: true }, true),
        Some(DeviceInput::OverlayKey { row: 7, col: 7, down: true }),
        "the overlay still sees the key"
    );
    io.input(&HostInput::Key { row: 1, col: 2, down: false }, true);
    io.input(&HostInput::Joystick(0xEF), true);
    assert_eq!(io.input(&HostInput::Restore(true), true), None);
    assert_eq!(
        port(&mut io).backend_mut().unwrap().take(),
        [
            Call::Advance(1234),
            Call::Key(1, 2, true),
            Call::Key(1, 2, false),
            Call::Joystick(1, 0xFF),
            Call::Joystick(2, 0xEF),
            Call::Nmi(true),
        ],
        "key-down dropped while the overlay owns the keyboard"
    );
    assert_eq!(port(&mut io).cart_detect(), Some(0x03), "empty expansion port");
    port(&mut io).backend_mut().unwrap().detect = 0x02;
    io.input(&HostInput::Restore(false), false);
    assert_eq!(port(&mut io).cart_detect(), Some(0x03), "no C64 access yet");
    ctx.now += SYNC_PERIOD;
    io.tick_due(&mut ctx);
    assert_eq!(port(&mut io).cart_detect(), Some(0x02), "the 1 ms sync refreshed it");
    port(&mut io).backend_mut().unwrap().take();
    assert_eq!(display(&io, None, 0).c64.map(|f| f.width), Some(2));
}

#[test]
fn the_overlay_supplies_the_display() {
    let io: IoMap<Mock> = IoMap::new();
    let mut overlay = DisplaySnapshot::default();
    overlay.now_ms = 7;
    overlay.screen = vec![1, 2, 3];
    let snap = display(&io, Some(overlay), 9);
    assert_eq!((snap.screen, snap.now_ms), (vec![1, 2, 3], 7));
}

#[test]
fn a_resumed_breakpoint_runs_its_instruction() {
    let mut m = Rig::new(cfg(), Vec::new(), Symbols::empty());
    m.ram[0x30000..0x30004].copy_from_slice(&0x0012_8293u32.to_le_bytes());
    m.m.breakpoints.push(0x30000);
    assert_eq!(m.run(10), RunExit::Breakpoint(0x30000));
    assert_eq!(m.run(1), RunExit::Budget);
    assert_eq!((m.x[5], m.pc), (1, 0x30004));
}

#[test]
fn an_illegal_instruction_halts_only_on_request() {
    let symbols = Symbols::from_symbols(vec![sym(0x30000, 8, "main")]);
    let mut m = Rig::new(cfg(), Vec::new(), symbols);
    assert_eq!(m.run(1), RunExit::Halted("illegal instruction 0x00000000 at main".into()));
    let mut config = cfg();
    config.halt_on_fault = false;
    let mut m = Rig::new(config, Vec::new(), Symbols::empty());
    assert_eq!(m.run(3), RunExit::Budget);
    assert_eq!(m.m.clock.now, 12);
}

#[test]
fn interrupts_are_counted_and_logged() {
    let mut config = cfg();
    config.log.irq = true;
    let mut m = Rig::new(config, Vec::new(), Symbols::empty());
    assert_eq!(m.pre_step(), None);
    m.irq.global_en = true;
    m.irq.mask = 0x01;
    m.irq.pulse(0);
    assert_eq!(m.pre_step().unwrap(), "irq: line 1 at 0x00030000 (global 1, active 0x01, high 0x00)");
    assert_eq!(m.pre_step(), None, "no change");
    m.mepc = 0x30000;
    let (exit, line) = m.post_step(CoreExit::Interrupt, false);
    assert_eq!((exit, line.unwrap()), (None, "irq: taken at 0x00030000 (active 0x01, high 0x00)".into()));
    assert_eq!(m.m.clock.irqs, 1);
}

#[test]
fn guest_text_may_be_broken() {
    let mut ram = vec![b'x'; 0x100];
    ram[0x10..0x14].copy_from_slice(&[b'a', 0xFF, b'b', 0]);
    assert_eq!(c_string(&ram, 0x10), "a\u{FFFD}b");
    assert_eq!(c_string(&ram, 0x20).len(), 128, "no end in sight");
}

#[test]
fn the_console_is_drained_once() {
    let mut ctx = IoCtx::new(vec![0; 16]);
    ctx.console.extend(b"hi");
    assert_eq!(ctx.drain_console(), b"hi");
    assert_eq!(ctx.drain_console(), b"");
}
