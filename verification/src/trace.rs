//! The trace ring: the address of each of the last steps.
use crate::numbers::push_decimal;
use crate::symbols::{push_hex0, push_hex8, Symbols};
use vstd::prelude::*;

verus! {

/// Addresses kept.
pub const TRACE_LEN: usize = 256;

/// The addresses of the last [`TRACE_LEN`] steps. A step that takes an interrupt
/// records the interrupted address.
#[derive(Debug)]
pub struct TraceRing {
    pcs: Vec<u32>,
    /// Steps recorded since power-on; its low byte indexes the next slot.
    count: u64,
}

/// What was recorded.
#[verifier::ext_equal]
pub struct Trace {
    /// Steps since power-on.
    pub count: nat,
    /// The addresses that are kept, oldest first.
    pub pcs: Seq<u32>,
}

impl Trace {
    pub open spec fn initial() -> Trace {
        Trace { count: 0, pcs: Seq::empty() }
    }

    /// With one more step.
    pub open spec fn pushed(self, pc: u32) -> Trace {
        let all = self.pcs.push(pc);
        Trace {
            count: self.count + 1,
            pcs: if all.len() > TRACE_LEN {
                all.skip(1)
            } else {
                all
            },
        }
    }
}

impl View for TraceRing {
    type V = Trace;

    closed spec fn view(&self) -> Trace {
        let len = if self.count < TRACE_LEN {
            self.count as nat
        } else {
            TRACE_LEN as nat
        };
        Trace {
            count: self.count as nat,
            pcs: Seq::new(len, |i: int| self.pcs@[(self.count - len + i) % 256]),
        }
    }
}

impl TraceRing {
    /// The ring has its slots.
    pub closed spec fn valid(self) -> bool {
        self.pcs@.len() == TRACE_LEN
    }

    /// Nothing recorded.
    pub fn new() -> (t: TraceRing)
        ensures
            t@ == Trace::initial(),
            t.valid(),
    {
        let mut pcs: Vec<u32> = Vec::new();
        let mut i: usize = 0;
        while i < TRACE_LEN
            invariant
                i <= TRACE_LEN,
                pcs@.len() == i,
            decreases TRACE_LEN - i,
        {
            pcs.push(0);
            i = i + 1;
        }
        let t = TraceRing { pcs, count: 0 };
        assert(t@.pcs =~= Seq::empty());
        t
    }

    /// Record a step.
    pub fn push(&mut self, pc: u32)
        requires
            old(self).valid(),
            old(self)@.count < u64::MAX,
        ensures
            final(self).valid(),
            final(self)@ == old(self)@.pushed(pc),
    {
        let slot: usize = (self.count % 256) as usize;
        self.pcs.set(slot, pc);
        self.count = self.count + 1;
        let ghost a = old(self)@;
        let ghost b = self@;
        assert forall|i: int| 0 <= i < b.pcs.len() implies #[trigger] b.pcs[i] == a.pushed(
            pc,
        ).pcs[i] by {
            let n = b.pcs.len();
            let k = self.count - n + i;
            assert(b.pcs[i] == self.pcs@[k % 256]);
            if i == n - 1 {
                assert(k == old(self).count);
            } else {
                assert(k % 256 != slot) by {
                    assert(k < old(self).count && old(self).count - k < 256);
                }
                assert(self.pcs@[k % 256] == old(self).pcs@[k % 256]);
            }
        }
        assert(b.pcs =~= a.pushed(pc).pcs);
    }

    /// Steps recorded since power-on, including those already overwritten.
    pub fn count(&self) -> (n: u64)
        ensures
            n == self@.count,
    {
        self.count
    }

    /// The recorded addresses, oldest first.
    pub fn iter(&self) -> (v: Vec<u32>)
        requires
            self.valid(),
        ensures
            v@ == self@.pcs,
    {
        let len: u64 = if self.count < TRACE_LEN as u64 {
            self.count
        } else {
            TRACE_LEN as u64
        };
        let mut v: Vec<u32> = Vec::new();
        let mut i: u64 = 0;
        while i < len
            invariant
                i <= len <= self.count,
                len == self@.pcs.len(),
                self.valid(),
                v@ == self@.pcs.take(i as int),
            decreases len - i,
        {
            let slot: usize = ((self.count - len + i) % 256) as usize;
            v.push(self.pcs[slot]);
            assert(v@ =~= self@.pcs.take(i + 1));
            i = i + 1;
        }
        assert(v@ =~= self@.pcs);
        v
    }
}

/// A line of the report.
pub open spec fn report_line(symbols: Symbols, pc: u32) -> Seq<char> {
    "  "@ + crate::symbols::hex8(pc) + (match symbols.found(pc) {
        Some((name, off)) => if off == 0 {
            " "@ + name
        } else {
            " "@ + name + "+"@ + crate::symbols::hex(off)
        },
        None => Seq::empty(),
    }) + "\n"@
}

/// The lines of the report.
pub open spec fn report_lines(symbols: Symbols, pcs: Seq<u32>) -> Seq<char>
    decreases pcs.len(),
{
    if pcs.len() == 0 {
        Seq::empty()
    } else {
        report_lines(symbols, pcs.drop_last()) + report_line(symbols, pcs.last())
    }
}

/// The trace, oldest first, one address per line.
pub open spec fn report(recorded: bool, trace: Trace, symbols: Symbols) -> Seq<char> {
    if !recorded {
        "trace: not recorded (--trace or --gdb record the last 256 PCs)\n"@
    } else {
        let kept = if trace.count < TRACE_LEN {
            trace.count
        } else {
            TRACE_LEN as nat
        };
        "trace: last "@ + crate::numbers::decimal(kept) + " of "@ + crate::numbers::decimal(
            trace.count,
        ) + " steps, oldest first\n"@ + report_lines(symbols, trace.pcs)
    }
}

fn push_line(out: &mut String, symbols: &Symbols, pc: u32)
    ensures
        final(out)@ == old(out)@ + report_line(*symbols, pc),
{
    let ghost start = out@;
    out.append("  ");
    push_hex8(out, pc);
    match symbols.lookup(pc) {
        Some((i, off)) => {
            out.append(" ");
            out.append(symbols.syms[i].name.as_str());
            if off != 0 {
                out.append("+");
                push_hex0(out, off);
            }
        },
        None => {},
    }
    out.append("\n");
    assert(out@ =~= start + report_line(*symbols, pc));
}

/// The trace, oldest first, one address with its name per line.
pub fn trace_report(recorded: bool, trace: &TraceRing, symbols: &Symbols) -> (s: String)
    requires
        trace.valid(),
    ensures
        s@ == report(recorded, trace@, *symbols),
{
    if !recorded {
        return String::from_str("trace: not recorded (--trace or --gdb record the last 256 PCs)\n");
    }
    let total: u64 = trace.count();
    let mut s = String::from_str("trace: last ");
    let kept: u64 = if total < TRACE_LEN as u64 {
        total
    } else {
        TRACE_LEN as u64
    };
    push_decimal(&mut s, kept);
    s.append(" of ");
    push_decimal(&mut s, total);
    s.append(" steps, oldest first\n");
    let ghost head = s@;
    let pcs = trace.iter();
    let mut i: usize = 0;
    assert(pcs@.take(0) =~= Seq::empty());
    assert(s@ =~= head + report_lines(*symbols, pcs@.take(0)));
    while i < pcs.len()
        invariant
            i <= pcs@.len(),
            s@ == head + report_lines(*symbols, pcs@.take(i as int)),
        decreases pcs@.len() - i,
    {
        assert(pcs@.take(i + 1).drop_last() =~= pcs@.take(i as int));
        let ghost before = s@;
        push_line(&mut s, symbols, pcs[i]);
        assert(s@ =~= head + report_lines(*symbols, pcs@.take(i + 1)));
        i = i + 1;
    }
    assert(pcs@.take(pcs@.len() as int) =~= pcs@);
    s
}

/// The ring keeps the last [`TRACE_LEN`] of all steps, in order.
pub open spec fn after_steps(steps: Seq<u32>) -> Trace
    decreases steps.len(),
{
    if steps.len() == 0 {
        Trace::initial()
    } else {
        after_steps(steps.drop_last()).pushed(steps.last())
    }
}

/// After any number of steps the ring holds the last [`TRACE_LEN`] of them, oldest
/// first, and has counted them all.
pub proof fn the_last_steps_are_kept(steps: Seq<u32>)
    ensures
        after_steps(steps).count == steps.len(),
        after_steps(steps).pcs == if steps.len() > TRACE_LEN {
            steps.skip(steps.len() - TRACE_LEN)
        } else {
            steps
        },
    decreases steps.len(),
{
    if steps.len() > 0 {
        the_last_steps_are_kept(steps.drop_last());
        let a = after_steps(steps.drop_last());
        assert(after_steps(steps).pcs =~= if steps.len() > TRACE_LEN {
            steps.skip(steps.len() - TRACE_LEN)
        } else {
            steps
        });
    }
}

} // verus!
