//! A register window described by a table of spans.
use vstd::prelude::*;

verus! {

/// Behaviour of one byte offset of a [`RegTable`] window.
#[derive(Clone, Copy, Debug, PartialEq, Eq, Structural)]
pub enum Reg {
    /// Read 0, writes ignored.
    Raz,
    /// Constant read, writes ignored.
    Const(u8),
    /// Read-back latch holding `val & mask`; `init` after reset.
    Latch { mask: u8, init: u8 },
    /// Latch (reset 0) that ignores writes with any `veto` bit set; those writes
    /// address another function.
    Gated { mask: u8, veto: u8 },
    /// Write ORs `val & mask` into the latch at offset `cell`. Reads return
    /// `read`, or that latch if `None`.
    SetBits { cell: u32, mask: u8, read: Option<u8> },
    /// Write clears `val & mask` in the latch at offset `cell`. Reads as for
    /// `SetBits`.
    ClearBits { cell: u32, mask: u8, read: Option<u8> },
}

/// Plain read/write memory.
pub open spec fn ram_spec() -> Reg {
    Reg::Latch { mask: 0xFF, init: 0 }
}

/// Plain read/write memory.
#[verifier::when_used_as_spec(ram_spec)]
pub fn ram() -> (r: Reg)
    ensures
        r == ram_spec(),
{
    Reg::Latch { mask: 0xFF, init: 0 }
}

/// `reg` applies to window offsets `start..end`. The first matching span wins;
/// other offsets read 0 and ignore writes.
#[derive(Clone, Copy, Debug, PartialEq, Eq, Structural)]
pub struct Span {
    pub start: u32,
    pub end: u32,
    pub reg: Reg,
}

impl Span {
    pub open spec fn holds(self, off: int) -> bool {
        self.start <= off < self.end
    }

    /// Bytes of storage that the span needs.
    pub open spec fn needs(self) -> int {
        match self.reg {
            Reg::SetBits { cell, .. } | Reg::ClearBits { cell, .. } => if self.end > cell + 1 {
                self.end as int
            } else {
                cell + 1
            },
            _ => self.end as int,
        }
    }

    /// The span's offsets are in order, and its cell has a successor.
    pub open spec fn valid(self) -> bool {
        self.start <= self.end && match self.reg {
            Reg::SetBits { cell, .. } | Reg::ClearBits { cell, .. } => cell < u32::MAX,
            _ => true,
        }
    }
}

/// A single offset.
pub open spec fn at_spec(off: u32, reg: Reg) -> Span {
    Span { start: off, end: (off + 1) as u32, reg }
}

/// Offsets `start..end`.
pub open spec fn span_spec(start: u32, end: u32, reg: Reg) -> Span {
    Span { start, end, reg }
}

/// A single offset.
#[verifier::when_used_as_spec(at_spec)]
pub fn at(off: u32, reg: Reg) -> (s: Span)
    requires
        off < u32::MAX,
    ensures
        s == at_spec(off, reg),
{
    Span { start: off, end: off + 1, reg }
}

/// Offsets `start..end`.
#[verifier::when_used_as_spec(span_spec)]
pub fn span(start: u32, end: u32, reg: Reg) -> (s: Span)
    ensures
        s == span_spec(start, end, reg),
{
    Span { start, end, reg }
}

/// A window's name, its registers and what its latches hold.
#[verifier::ext_equal]
pub struct TableState {
    pub name: Seq<char>,
    pub spans: Seq<Span>,
    pub mem: Seq<u8>,
}

/// The most storage that a span of `spans` needs.
pub open spec fn storage(spans: Seq<Span>) -> int
    decreases spans.len(),
{
    if spans.len() == 0 {
        0
    } else {
        let rest = storage(spans.drop_last());
        if spans.last().needs() > rest {
            spans.last().needs()
        } else {
            rest
        }
    }
}

/// What the byte at `off` holds after power-on: the last latch span that covers
/// it says so.
pub open spec fn power_on(spans: Seq<Span>, off: int) -> u8
    decreases spans.len(),
{
    if spans.len() == 0 {
        0
    } else {
        match spans.last().reg {
            Reg::Latch { init, .. } if spans.last().holds(off) => init,
            _ => power_on(spans.drop_last(), off),
        }
    }
}

/// The behaviour of offset `off`: that of the first span from `i` on that holds
/// it.
pub open spec fn first_reg(spans: Seq<Span>, off: int, i: int) -> Reg
    decreases spans.len() - i,
{
    if i < 0 || i >= spans.len() {
        Reg::Raz
    } else if spans[i].holds(off) {
        spans[i].reg
    } else {
        first_reg(spans, off, i + 1)
    }
}

impl TableState {
    /// A window after power-on.
    pub open spec fn initial(name: Seq<char>, spans: Seq<Span>) -> TableState {
        TableState {
            name,
            spans,
            mem: Seq::new(storage(spans) as nat, |i: int| power_on(spans, i)),
        }
    }

    pub open spec fn valid(self) -> bool {
        &&& self.mem.len() == storage(self.spans)
        &&& forall|i: int| 0 <= i < self.spans.len() ==> (#[trigger] self.spans[i]).valid()
    }

    pub open spec fn reg(self, off: u32) -> Reg {
        first_reg(self.spans, off as int, 0)
    }

    /// What a read of `off` returns.
    pub open spec fn at(self, off: u32) -> u8 {
        match self.reg(off) {
            Reg::Raz => 0,
            Reg::Const(v) => v,
            Reg::Latch { .. } | Reg::Gated { .. } => self.mem[off as int],
            Reg::SetBits { cell, read, .. } | Reg::ClearBits { cell, read, .. } => match read {
                Some(v) => v,
                None => self.mem[cell as int],
            },
        }
    }

    /// The window after a write of `val` to `off`.
    pub open spec fn put(self, off: u32, val: u8) -> TableState {
        match self.reg(off) {
            Reg::Raz | Reg::Const(_) => self,
            Reg::Latch { mask, .. } => TableState {
                mem: self.mem.update(off as int, val & mask),
                ..self
            },
            Reg::Gated { mask, veto } => if val & veto == 0 {
                TableState { mem: self.mem.update(off as int, val & mask), ..self }
            } else {
                self
            },
            Reg::SetBits { cell, mask, .. } => TableState {
                mem: self.mem.update(cell as int, self.mem[cell as int] | (val & mask)),
                ..self
            },
            Reg::ClearBits { cell, mask, .. } => TableState {
                mem: self.mem.update(cell as int, self.mem[cell as int] & !(val & mask)),
                ..self
            },
        }
    }

    /// The window after a reset.
    pub open spec fn reset(self) -> TableState {
        TableState::initial(self.name, self.spans)
    }
}

/// Every span's storage is within the table's.
pub proof fn storage_covers(spans: Seq<Span>, i: int)
    requires
        0 <= i < spans.len(),
    ensures
        spans[i].needs() <= storage(spans),
    decreases spans.len(),
{
    if i < spans.len() - 1 {
        assert(spans.drop_last()[i] == spans[i]);
        storage_covers(spans.drop_last(), i);
    }
}

/// The offset's register comes from a span that holds it, or reads as 0.
pub proof fn reg_comes_from_a_span(spans: Seq<Span>, off: int, i: int)
    requires
        0 <= i,
    ensures
        first_reg(spans, off, i) == Reg::Raz || exists|j: int|
            i <= j < spans.len() && #[trigger] spans[j].holds(off) && spans[j].reg == first_reg(
                spans,
                off,
                i,
            ),
    decreases spans.len() - i,
{
    if i < spans.len() && !spans[i].holds(off) {
        reg_comes_from_a_span(spans, off, i + 1);
    }
}

/// Every latch that an access reaches is inside the table's storage.
pub proof fn cells_are_stored(t: TableState, off: u32)
    requires
        t.valid(),
    ensures
        match t.reg(off) {
            Reg::Latch { .. } | Reg::Gated { .. } => off < t.mem.len(),
            Reg::SetBits { cell, .. } | Reg::ClearBits { cell, .. } => cell < t.mem.len(),
            _ => true,
        },
{
    reg_comes_from_a_span(t.spans, off as int, 0);
    if t.reg(off) != Reg::Raz {
        let j = choose|j: int|
            0 <= j < t.spans.len() && #[trigger] t.spans[j].holds(off as int) && t.spans[j].reg
                == t.reg(off);
        storage_covers(t.spans, j);
    }
}

/// A register window. Reads have no side effects.
pub struct RegTable {
    name: &'static str,
    spans: Vec<Span>,
    /// Storage for latches, indexed by window offset; only as long as the highest
    /// latch needs.
    mem: Vec<u8>,
}

impl View for RegTable {
    type V = TableState;

    closed spec fn view(&self) -> TableState {
        TableState { name: self.name@, spans: self.spans@, mem: self.mem@ }
    }
}

impl RegTable {
    /// A window with `spans`, as it powers on.
    pub fn new(name: &'static str, spans: Vec<Span>) -> (t: RegTable)
        requires
            forall|i: int| 0 <= i < spans@.len() ==> (#[trigger] spans@[i]).valid(),
        ensures
            t@ == TableState::initial(name@, spans@),
            t@.valid(),
    {
        let mut len: u32 = 0;
        let mut i: usize = 0;
        while i < spans.len()
            invariant
                i <= spans@.len(),
                len == storage(spans@.take(i as int)),
                forall|j: int| 0 <= j < spans@.len() ==> (#[trigger] spans@[j]).valid(),
            decreases spans@.len() - i,
        {
            let s = spans[i];
            assert(spans@.take(i + 1).drop_last() =~= spans@.take(i as int));
            let needs: u32 = match s.reg {
                Reg::SetBits { cell, .. } | Reg::ClearBits { cell, .. } => if s.end > cell + 1 {
                    s.end
                } else {
                    cell + 1
                },
                _ => s.end,
            };
            assert(spans@[i as int].valid());
            if needs > len {
                len = needs;
            }
            i = i + 1;
        }
        assert(spans@.take(spans@.len() as int) =~= spans@);
        let mut table = RegTable { name, spans, mem: Vec::new() };
        table.mem.resize(len as usize, 0);
        table.reset();
        table
    }

    /// The window's name.
    pub fn name(&self) -> (n: &'static str)
        ensures
            n@ == self@.name,
    {
        self.name
    }

    fn reg(&self, off: u32) -> (r: Reg)
        ensures
            r == self@.reg(off),
    {
        let mut i: usize = 0;
        while i < self.spans.len()
            invariant
                i <= self.spans@.len(),
                self@.reg(off) == first_reg(self.spans@, off as int, i as int),
            decreases self.spans@.len() - i,
        {
            let s = self.spans[i];
            if s.start <= off && off < s.end {
                return s.reg;
            }
            i = i + 1;
        }
        Reg::Raz
    }

    /// What a read of `off` returns.
    pub fn get(&self, off: u32) -> (v: u8)
        requires
            self@.valid(),
        ensures
            v == self@.at(off),
    {
        proof {
            cells_are_stored(self@, off);
        }
        match self.reg(off) {
            Reg::Raz => 0,
            Reg::Const(v) => v,
            Reg::Latch { .. } | Reg::Gated { .. } => self.mem[off as usize],
            Reg::SetBits { cell, read, .. } | Reg::ClearBits { cell, read, .. } => match read {
                Some(v) => v,
                None => self.mem[cell as usize],
            },
        }
    }

    /// Write `val` to `off`.
    pub fn set(&mut self, off: u32, val: u8)
        requires
            old(self)@.valid(),
        ensures
            final(self)@ == old(self)@.put(off, val),
            final(self)@.valid(),
    {
        proof {
            cells_are_stored(self@, off);
        }
        match self.reg(off) {
            Reg::Raz | Reg::Const(_) => {},
            Reg::Latch { mask, .. } => {
                self.mem[off as usize] = val & mask;
            },
            Reg::Gated { mask, veto } => {
                if val & veto == 0 {
                    self.mem[off as usize] = val & mask;
                }
            },
            Reg::SetBits { cell, mask, .. } => {
                let v: u8 = self.mem[cell as usize];
                self.mem[cell as usize] = v | (val & mask);
            },
            Reg::ClearBits { cell, mask, .. } => {
                let v: u8 = self.mem[cell as usize];
                self.mem[cell as usize] = v & !(val & mask);
            },
        }
    }

    /// Power-on state: latches back to their `init` values, memory cleared.
    pub fn reset(&mut self)
        requires
            old(self)@.valid(),
        ensures
            final(self)@ == old(self)@.reset(),
            final(self)@.valid(),
    {
        let ghost spans = self.spans@;
        let ghost title = self@.name;
        let n: usize = self.mem.len();
        let mut k: usize = 0;
        while k < n
            invariant
                k <= n == self.mem@.len(),
                self.spans@ == spans,
                self@.name == title,
                forall|j: int| 0 <= j < k ==> self.mem@[j] == 0,
            decreases n - k,
        {
            self.mem[k] = 0;
            k = k + 1;
        }
        let mut i: usize = 0;
        while i < self.spans.len()
            invariant
                i <= self.spans@.len(),
                self.spans@ == spans,
                self@.name == title,
                n == self.mem@.len() == storage(spans),
                forall|j: int| 0 <= j < spans.len() ==> (#[trigger] spans[j]).valid(),
                forall|j: int| 0 <= j < n ==> self.mem@[j] == power_on(spans.take(i as int), j),
            decreases self.spans@.len() - i,
        {
            let s = self.spans[i];
            proof {
                storage_covers(spans, i as int);
                assert(spans.take(i + 1).drop_last() =~= spans.take(i as int));
                assert(spans[i as int].valid());
            }
            if let Reg::Latch { init, .. } = s.reg {
                let mut p: u32 = s.start;
                while p < s.end
                    invariant
                        s.start <= p <= s.end,
                        s.end <= n == self.mem@.len(),
                        self.spans@ == spans,
                        self@.name == title,
                        forall|j: int|
                            0 <= j < n ==> self.mem@[j] == if s.start <= j < p {
                                init
                            } else {
                                power_on(spans.take(i as int), j)
                            },
                    decreases s.end - p,
                {
                    self.mem[p as usize] = init;
                    p = p + 1;
                }
            }
            i = i + 1;
        }
        assert(spans.take(spans.len() as int) =~= spans);
    }
}

/// A latch reads back what was written to it, as far as its mask reaches; every
/// other offset that is a latch of its own keeps its value.
pub proof fn latches_read_back(t: TableState, off: u32, val: u8, other: u32)
    requires
        t.valid(),
        t.reg(off) is Latch,
    ensures
        t.put(off, val).at(off) == val & t.reg(off)->Latch_mask,
        other != off && !(t.reg(other) is SetBits || t.reg(other) is ClearBits) ==> t.put(off, val).at(other)
            == t.at(other),
{
    cells_are_stored(t, off);
    cells_are_stored(t, other);
}

/// Constants and unlisted offsets cannot be written.
pub proof fn constants_stay(t: TableState, off: u32, val: u8)
    requires
        t.reg(off) is Const || t.reg(off) is Raz,
    ensures
        t.put(off, val) == t,
{
}

/// Set and clear registers move exactly the masked bits of their latch.
pub proof fn set_and_clear_move_masked_bits(t: TableState, off: u32, val: u8)
    requires
        t.valid(),
    ensures
        t.reg(off) matches Reg::SetBits { cell, mask, .. } ==> {
            &&& t.put(off, val).mem[cell as int] & (val & mask) == val & mask
            &&& t.put(off, val).mem[cell as int] & !(val & mask) == t.mem[cell as int] & !(val
                & mask)
        },
        t.reg(off) matches Reg::ClearBits { cell, mask, .. } ==> {
            &&& t.put(off, val).mem[cell as int] & (val & mask) == 0
            &&& t.put(off, val).mem[cell as int] & !(val & mask) == t.mem[cell as int] & !(val
                & mask)
        },
{
    cells_are_stored(t, off);
    match t.reg(off) {
        Reg::SetBits { cell, mask, .. } | Reg::ClearBits { cell, mask, .. } => {
            let m = t.mem[cell as int];
            assert((m | (val & mask)) & (val & mask) == val & mask && (m | (val & mask)) & !(val
                & mask) == m & !(val & mask) && (m & !(val & mask)) & (val & mask) == 0 && (m & !(val
                & mask)) & !(val & mask) == m & !(val & mask)) by (bit_vector);
        },
        _ => {},
    }
}

/// A reset undoes every write.
pub proof fn reset_undoes_writes(t: TableState, off: u32, val: u8)
    ensures
        t.put(off, val).reset() == t.reset(),
        t.reset().reset() == t.reset(),
{
}

} // verus!
