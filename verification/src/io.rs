//! What a device sees of the machine around it.
use crate::irq::IrqState;
use crate::uci::UciShared;
use vstd::prelude::*;

verus! {

/// The machine around a device during an access.
pub struct IoCtx {
    /// Clock of the accessing instruction.
    pub now: u64,
    /// Its address.
    pub pc: u32,
    /// Wait states that the access costs on top of the instruction.
    pub stall: u64,
    /// Guest memory.
    pub ram: Vec<u8>,
    pub irq: IrqState,
    /// What the firmware printed.
    pub console: Vec<u8>,
    /// The command interface, which the firmware and the C64 share.
    pub uci: UciShared,
}

impl IoCtx {
    /// A machine at clock 0 with `ram`.
    pub fn new(ram: Vec<u8>) -> (ctx: IoCtx)
        ensures
            ctx.ram@ == ram@,
            ctx.now == 0,
            ctx.pc == 0,
            ctx.stall == 0,
            ctx.irq == IrqState::initial(),
            ctx.console@ == Seq::<u8>::empty(),
            ctx.uci@ == crate::uci::UciState::initial(),
            ctx.uci@.valid(),
    {
        IoCtx {
            now: 0,
            pc: 0,
            stall: 0,
            ram,
            irq: IrqState::new(),
            console: Vec::new(),
            uci: UciShared::default(),
        }
    }

    /// What the firmware printed since the last call.
    pub fn drain_console(&mut self) -> (bytes: Vec<u8>)
        ensures
            bytes@ == old(self).console@,
            final(self).console@ == Seq::<u8>::empty(),
            final(self).now == old(self).now,
            final(self).pc == old(self).pc,
            final(self).stall == old(self).stall,
            final(self).ram == old(self).ram,
            final(self).irq == old(self).irq,
            final(self).uci == old(self).uci,
    {
        let mut bytes: Vec<u8> = Vec::new();
        std::mem::swap(&mut bytes, &mut self.console);
        bytes
    }

    /// The parts that the C64 port never touches are as they were in `before`.
    pub open spec fn same_rest(self, before: IoCtx) -> bool {
        &&& self.now == before.now
        &&& self.pc == before.pc
        &&& self.console@ == before.console@
        &&& self.uci@ == before.uci@
        &&& self.ram@.len() == before.ram@.len()
    }
}

} // verus!
