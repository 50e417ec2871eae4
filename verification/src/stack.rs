use vstd::prelude::*;

use crate::emulator::{err_at, MachineView, TamEmulator};
use crate::errors::{TamError, TamErrorKind, TamResult};
use crate::{CP, HT, ST};

verus! {

/// A push is possible: the next stack slot is still outside the heap.
pub open spec fn can_push(m: MachineView) -> bool {
    m.st() < m.ht()
}

/// A pop is possible: the stack is not empty.
pub open spec fn can_pop(m: MachineView) -> bool {
    m.st() > 0
}

/// The state after pushing `v`: `v` stands at the old stack top and `ST` has
/// advanced by one.
pub open spec fn push_model(m: MachineView, v: i16) -> MachineView {
    MachineView {
        data: m.data.update(m.st() as int, v),
        regs: m.regs.update(ST as int, (m.st() + 1) as u16),
        ..m
    }
}

/// The state after popping: `ST` has moved down by one; the data store keeps
/// its contents.
pub open spec fn pop_model(m: MachineView) -> MachineView {
    MachineView { regs: m.regs.update(ST as int, (m.st() - 1) as u16), ..m }
}

/// The value a pop returns: the word just below the stack top.
pub open spec fn pop_value(m: MachineView) -> i16 {
    m.data[m.st() - 1]
}

/// Pushing a value and at once popping returns that same value and restores
/// `ST`; nothing changes but the word at the old stack top.
pub proof fn lemma_push_pop_identity(m: MachineView, v: i16)
    requires
        m.wf(),
        can_push(m),
    ensures
        can_pop(push_model(m, v)),
        pop_value(push_model(m, v)) == v,
        pop_model(push_model(m, v)).regs == m.regs,
        pop_model(push_model(m, v)).data == m.data.update(m.st() as int, v),
        pop_model(push_model(m, v)).code == m.code,
        pop_model(push_model(m, v)).st() == m.st(),
{
    let pushed = push_model(m, v);
    assert(pushed.st() == m.st() + 1);
    assert(pop_model(pushed).regs =~= m.regs);
}

impl TamEmulator {
    /// Pushes a value onto the stack top and advances `ST`; fails with a stack
    /// overflow, and changes nothing, when the push would enter the heap.
    pub fn push_data(&mut self, data: i16) -> (r: TamResult<()>)
        requires
            old(self).wf(),
        ensures
            final(self).wf(),
            !can_push(old(self)@) ==> r == Err::<(), TamError>(
                err_at(TamErrorKind::StackOverflow, old(self)@.cp()),
            ) && *final(self) == *old(self),
            can_push(old(self)@) ==> r == Ok::<(), TamError>(()) && final(self)@ == push_model(
                old(self)@,
                data,
            ),
    {
        if self.registers[ST] >= self.registers[HT] {
            return Err(
                TamError {
                    kind: TamErrorKind::StackOverflow,
                    address: Some(self.registers[CP]),
                    message: None,
                },
            );
        }
        let addr = self.registers[ST] as usize;
        self.data_store.set(addr, data);
        let st = self.registers[ST];
        self.registers.set(ST, st + 1);
        Ok(())
    }

    /// Removes the stack-top value and moves `ST` down; fails with a stack
    /// underflow, and changes nothing, when the stack is empty.
    pub fn pop_data(&mut self) -> (r: TamResult<i16>)
        requires
            old(self).wf(),
        ensures
            final(self).wf(),
            !can_pop(old(self)@) ==> r == Err::<i16, TamError>(
                err_at(TamErrorKind::StackUnderflow, old(self)@.cp()),
            ) && *final(self) == *old(self),
            can_pop(old(self)@) ==> r == Ok::<i16, TamError>(pop_value(old(self)@))
                && final(self)@ == pop_model(old(self)@),
    {
        if self.registers[ST] == 0 {
            return Err(
                TamError {
                    kind: TamErrorKind::StackUnderflow,
                    address: Some(self.registers[CP]),
                    message: None,
                },
            );
        }
        let st = self.registers[ST];
        self.registers.set(ST, st - 1);
        let addr = (st - 1) as usize;
        Ok(self.data_store[addr])
    }
}

} // verus!
