//! A stand-in for the C64's bus while no C64 is attached: 64 K of memory with a
//! minimal I/O overlay.
use crate::irq::put_bit;
use vstd::prelude::*;

verus! {

/// PAL raster lines; the per-read counter wraps here.
pub const RASTER_LINES: u16 = 312;

/// What the stand-in holds.
#[verifier::ext_equal]
pub struct StubState {
    pub mem: Seq<u8>,
    /// Raster line 0..311, advanced by each `$D012` read.
    pub raster: u16,
    /// Pressed keys: bit `col` of `keys[row]`.
    pub keys: Seq<u8>,
}

/// The columns of the pressed keys in the rows below `row` that `select` drives
/// low, pulled low in turn.
pub open spec fn scanned(keys: Seq<u8>, select: u8, row: nat) -> u8
    decreases row,
{
    if row == 0 {
        0xFF
    } else {
        let above = scanned(keys, select, (row - 1) as nat);
        if select & (1u8 << ((row - 1) as u8)) == 0 {
            above & !keys[row - 1]
        } else {
            above
        }
    }
}

impl StubState {
    pub open spec fn initial() -> StubState {
        StubState {
            mem: Seq::new(0x1_0000, |i: int| 0u8),
            raster: 0,
            keys: Seq::new(8, |i: int| 0u8),
        }
    }

    pub open spec fn valid(self) -> bool {
        self.mem.len() == 0x1_0000 && self.raster < RASTER_LINES && self.keys.len() == 8
    }

    /// A key at matrix position (`row`, `col`) moved. Positions outside the matrix
    /// are ignored.
    pub open spec fn keyed(self, row: u8, col: u8, down: bool) -> StubState {
        if row >= 8 || col >= 8 {
            self
        } else {
            StubState {
                keys: self.keys.update(
                    row as int,
                    crate::irq::with_bit(self.keys[row as int], col, down),
                ),
                ..self
            }
        }
    }

    /// What a read returns without side effects.
    pub open spec fn peeked(self, addr: u16) -> u8 {
        if addr == 0xD011 {
            // Bit 7 is bit 8 of the raster line; the rest is what was written.
            (self.mem[0xD011] % 128 + (self.raster / 256) * 128) as u8
        } else if addr == 0xD012 {
            (self.raster % 256) as u8
        } else if addr == 0xD019 {
            // No VIC interrupt ever latches.
            0
        } else if addr == 0xDC00 {
            // No joystick.
            0xFF
        } else if addr == 0xDC01 {
            // The keys of the rows that the last write to $DC00 drives low.
            scanned(self.keys, self.mem[0xDC00], 8)
        } else if 0xD400 <= addr <= 0xD7FF {
            // No SID.
            0
        } else {
            self.mem[addr as int]
        }
    }

    /// The stand-in after a read: the raster moves on.
    pub open spec fn after_read(self, addr: u16) -> StubState {
        if addr == 0xD012 {
            StubState { raster: ((self.raster + 1) % (RASTER_LINES as int)) as u16, ..self }
        } else {
            self
        }
    }

    pub open spec fn after_write(self, addr: u16, val: u8) -> StubState {
        StubState { mem: self.mem.update(addr as int, val), ..self }
    }
}

pub struct DmaStub {
    mem: Vec<u8>,
    raster: u16,
    keys: [u8; 8],
}

impl View for DmaStub {
    type V = StubState;

    closed spec fn view(&self) -> StubState {
        StubState { mem: self.mem@, raster: self.raster, keys: self.keys@ }
    }
}

impl DmaStub {
    pub fn new() -> (d: DmaStub)
        ensures
            d@ == StubState::initial(),
            d@.valid(),
    {
        let mut mem: Vec<u8> = Vec::new();
        mem.resize(0x1_0000, 0);
        DmaStub { mem, raster: 0, keys: [0;8] }
    }

    /// A key moved. A firmware UI on the C64 screen scans it through $DC00/$DC01.
    pub fn set_key(&mut self, row: u8, col: u8, down: bool)
        requires
            old(self)@.valid(),
        ensures
            final(self)@ == old(self)@.keyed(row, col, down),
            final(self)@.valid(),
    {
        if row >= 8 || col >= 8 {
            return;
        }
        let v: u8 = put_bit(self.keys[row as usize], col, down);
        self.keys[row as usize] = v;
    }

    /// Take over the keys that `other` holds.
    pub fn keep_keys(&mut self, other: &DmaStub)
        ensures
            final(self)@ == (StubState { keys: other@.keys, ..old(self)@ }),
    {
        self.keys = other.keys;
    }

    /// A read: the firmware waits for raster line 0xFF with interrupts off, so
    /// reads alone must reach it.
    pub fn read(&mut self, addr: u16) -> (v: u8)
        requires
            old(self)@.valid(),
        ensures
            final(self)@ == old(self)@.after_read(addr),
            v == final(self)@.peeked(addr),
            final(self)@.valid(),
    {
        if addr == 0xD012 {
            self.raster = (self.raster + 1) % RASTER_LINES;
        }
        self.peek(addr)
    }

    pub fn write(&mut self, addr: u16, val: u8)
        requires
            old(self)@.valid(),
        ensures
            final(self)@ == old(self)@.after_write(addr, val),
            final(self)@.valid(),
    {
        self.mem[addr as usize] = val;
    }

    fn scan(&self) -> (v: u8)
        requires
            self@.valid(),
        ensures
            v == scanned(self@.keys, self@.mem[0xDC00], 8),
    {
        let select: u8 = self.mem[0xDC00];
        let mut v: u8 = 0xFF;
        let mut row: u8 = 0;
        while row < 8
            invariant
                row <= 8,
                self@.valid(),
                select == self@.mem[0xDC00],
                v == scanned(self@.keys, select, row as nat),
            decreases 8 - row,
        {
            if select & (1u8 << row) == 0 {
                v = v & !self.keys[row as usize];
            }
            row = row + 1;
        }
        v
    }

    pub fn peek(&self, addr: u16) -> (v: u8)
        requires
            self@.valid(),
        ensures
            v == self@.peeked(addr),
    {
        match addr {
            0xD011 => self.mem[0xD011] % 128 + (self.raster / 256) as u8 * 128,
            0xD012 => (self.raster % 256) as u8,
            0xD019 => 0,
            0xDC00 => 0xFF,
            0xDC01 => self.scan(),
            _ => if 0xD400 <= addr && addr <= 0xD7FF {
                0
            } else {
                self.mem[addr as usize]
            },
        }
    }
}

/// The stand-in after `n` reads of `$D012`.
pub open spec fn after_raster_reads(s: StubState, n: nat) -> StubState
    decreases n,
{
    if n == 0 {
        s
    } else {
        after_raster_reads(s, (n - 1) as nat).after_read(0xD012)
    }
}

/// `n` reads move the raster on by `n` lines.
pub proof fn raster_counts_reads(s: StubState, n: nat)
    requires
        s.raster < RASTER_LINES,
    ensures
        after_raster_reads(s, n) == (StubState {
            raster: ((s.raster + n) % (RASTER_LINES as int)) as u16,
            ..s
        }),
    decreases n,
{
    if n > 0 {
        raster_counts_reads(s, (n - 1) as nat);
        assert((((s.raster + n - 1) % 312) + 1) % 312 == (s.raster + n) % 312) by (nonlinear_arith);
    }
}

/// Wherever the raster stands, reading `$D012` often enough shows 0xFF: a wait
/// for that line ends.
pub proof fn raster_reaches_ff(s: StubState) -> (n: nat)
    requires
        s.raster < RASTER_LINES,
    ensures
        n < RASTER_LINES,
        after_raster_reads(s, n).peeked(0xD012) == 0xFF,
{
    let n = ((255 + 312 - s.raster) % 312) as nat;
    raster_counts_reads(s, n);
    n
}

/// The keyboard scan depends on the last row selection and the held keys alone,
/// so reading it twice gives the same answer; with no key down it reads 0xFF.
pub proof fn scan_without_keys(s: StubState, n: nat)
    requires
        s.keys == Seq::new(8, |i: int| 0u8),
        n <= 8,
    ensures
        scanned(s.keys, s.mem[0xDC00], n) == 0xFF,
        s.after_read(0xDC01) == s,
    decreases n,
{
    if n > 0 {
        scan_without_keys(s, (n - 1) as nat);
        assert(0xFFu8 & !0u8 == 0xFF) by (bit_vector);
    }
}

/// A pressed key pulls its column low in every scan that selects its row.
pub proof fn pressed_keys_scan(s: StubState, row: u8, col: u8, n: nat)
    requires
        s.valid(),
        row < n <= 8,
        col < 8,
        s.mem[0xDC00] & (1u8 << row) == 0,
    ensures
        scanned(s.keyed(row, col, true).keys, s.mem[0xDC00], n) & (1u8 << col) == 0,
    decreases n,
{
    let keys = s.keyed(row, col, true).keys;
    let select = s.mem[0xDC00];
    let above = scanned(keys, select, (n - 1) as nat);
    if row < n - 1 {
        pressed_keys_scan(s, row, col, (n - 1) as nat);
        let k = keys[n - 1];
        assert(above & (1u8 << col) == 0 ==> (above & !k) & (1u8 << col) == 0) by (bit_vector);
    } else {
        let k = s.keys[row as int];
        assert((above & !(k | (1u8 << col))) & (1u8 << col) == 0) by (bit_vector);
    }
}

} // verus!
