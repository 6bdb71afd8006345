//! The emulated clock.
use vstd::prelude::*;

verus! {

/// The application core's clock, in Hz.
pub const CLOCK_HZ: u64 = 100_000_000;

/// Clocks in a millisecond of emulated time.
pub const CLOCKS_PER_MS: u64 = 100_000;

/// Clocks that one instruction takes unless the configuration says otherwise.
pub const DEFAULT_CLOCKS_PER_INSN: u64 = 4;

/// Clocks that the core stalls per byte that it moves over the C64's bus.
pub const DMA_BYTE_CLOCKS: u64 = 326;

/// Whole milliseconds in `clocks`.
pub fn clocks_to_ms(clocks: u64) -> (ms: u64)
    ensures
        ms as int == clocks as int / CLOCKS_PER_MS as int,
{
    clocks / CLOCKS_PER_MS
}

/// The clock count of `ms` milliseconds, at most `u64::MAX`.
pub fn ms_to_clocks(ms: u64) -> (clocks: u64)
    ensures
        clocks as int == if ms * CLOCKS_PER_MS <= u64::MAX { ms * CLOCKS_PER_MS } else {
            u64::MAX as int
        },
{
    match ms.checked_mul(CLOCKS_PER_MS) {
        Some(c) => c,
        None => u64::MAX,
    }
}

} // verus!
