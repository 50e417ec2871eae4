use vstd::prelude::*;

use crate::emulator::{err_at, MachineView, TamEmulator};
use crate::errors::{TamError, TamErrorKind, TamResult};
use crate::instructions::{to_i16, to_u16, TamInstruction};
use crate::stack::{can_pop, can_push, pop_model, pop_value, push_model};
use crate::{CP, CT, HT, MEMORY_SIZE, ST};

verus! {

/// The 16-bit wraparound of an unbounded value.
pub open spec fn wrap16(x: int) -> u16 {
    (x % 0x10000) as u16
}

/// The state with the code pointer advanced past the current instruction.
pub open spec fn bump_cp(m: MachineView) -> MachineView {
    MachineView { regs: m.regs.update(CP as int, wrap16(m.cp() + 1)), ..m }
}

/// `data` with the run starting at `at` overwritten by `vals`.
pub open spec fn splice(data: Seq<i16>, at: int, vals: Seq<i16>) -> Seq<i16> {
    Seq::new(data.len(), |i: int| if at <= i < at + vals.len() { vals[i - at] } else { data[i] })
}

/// The state with `ST` set to `st`, everything else unchanged.
pub open spec fn with_st(m: MachineView, st: u16) -> MachineView {
    MachineView { regs: m.regs.update(ST as int, st), ..m }
}

/// The state with `CP` set to `cp`, everything else unchanged.
pub open spec fn with_cp(m: MachineView, cp: u16) -> MachineView {
    MachineView { regs: m.regs.update(CP as int, cp), ..m }
}

/// The candidate effective address `registers[r] + d`, or an access violation
/// when the checked signed addition leaves the 16-bit address space.
pub open spec fn spec_calc_address(m: MachineView, instr: TamInstruction) -> TamResult<u16> {
    let sum = m.reg(instr.r as int) + instr.d;
    if 0 <= sum <= 0xffff {
        Ok(sum as u16)
    } else {
        Err(err_at(TamErrorKind::AccessViolation, m.cp()))
    }
}

/// The result and post-state of `LOAD(n) d[r]`: resolve the address, validate
/// the whole source run against the collision gap, check for stack room, then
/// push the `n` words in ascending address order. A failed instruction
/// changes nothing.
pub open spec fn load_model(pre: MachineView, instr: TamInstruction) -> (TamResult<()>, MachineView) {
    let n = instr.n as int;
    match spec_calc_address(pre, instr) {
        Err(e) => (Err(e), pre),
        Ok(a) => if !pre.run_valid(a as int, n) {
            (Err(err_at(TamErrorKind::AccessViolation, pre.cp())), pre)
        } else if pre.st() + n > pre.ht() {
            (Err(err_at(TamErrorKind::StackOverflow, pre.cp())), pre)
        } else {
            (
                Ok(()),
                MachineView {
                    data: splice(pre.data, pre.st() as int, pre.data.subrange(a as int, a + n)),
                    regs: pre.regs.update(ST as int, (pre.st() + n) as u16),
                    ..pre
                },
            )
        },
    }
}

/// The result and post-state of `LOADA d[r]`: push the resolved address
/// itself, without dereferencing it.
pub open spec fn loada_model(pre: MachineView, instr: TamInstruction) -> (
    TamResult<()>,
    MachineView,
) {
    match spec_calc_address(pre, instr) {
        Err(e) => (Err(e), pre),
        Ok(a) => if !can_push(pre) {
            (Err(err_at(TamErrorKind::StackOverflow, pre.cp())), pre)
        } else {
            (Ok(()), push_model(pre, to_i16(a)))
        },
    }
}

/// The result and post-state of `LOADI(n)`: pop a base address, validate the
/// source run against the post-pop collision gap, then push the `n` words at
/// that address. A failure after the pop keeps the pop.
pub open spec fn loadi_model(pre: MachineView, instr: TamInstruction) -> (
    TamResult<()>,
    MachineView,
) {
    let n = instr.n as int;
    if !can_pop(pre) {
        (Err(err_at(TamErrorKind::StackUnderflow, pre.cp())), pre)
    } else {
        let m1 = pop_model(pre);
        let a = to_u16(pop_value(pre)) as int;
        if !m1.run_valid(a, n) {
            (Err(err_at(TamErrorKind::AccessViolation, pre.cp())), m1)
        } else if m1.st() + n > m1.ht() {
            (Err(err_at(TamErrorKind::StackOverflow, pre.cp())), m1)
        } else {
            (
                Ok(()),
                MachineView {
                    data: splice(m1.data, m1.st() as int, m1.data.subrange(a, a + n)),
                    regs: m1.regs.update(ST as int, (m1.st() + n) as u16),
                    ..m1
                },
            )
        }
    }
}

/// The result and post-state of `LOADL d`: push the literal displacement.
pub open spec fn loadl_model(pre: MachineView, instr: TamInstruction) -> (
    TamResult<()>,
    MachineView,
) {
    if !can_push(pre) {
        (Err(err_at(TamErrorKind::StackOverflow, pre.cp())), pre)
    } else {
        (Ok(()), push_model(pre, instr.d))
    }
}

/// The result and post-state of `STORE(n) d[r]`: resolve the destination,
/// pop the top `n` words and write them there in their original stack order.
/// The whole destination run is validated against the post-pop collision gap
/// before anything is written; a failed instruction changes nothing.
pub open spec fn store_model(pre: MachineView, instr: TamInstruction) -> (
    TamResult<()>,
    MachineView,
) {
    let n = instr.n as int;
    let st = pre.st() as int;
    match spec_calc_address(pre, instr) {
        Err(e) => (Err(e), pre),
        Ok(a) => if st < n {
            (Err(err_at(TamErrorKind::StackUnderflow, pre.cp())), pre)
        } else if !with_st(pre, (st - n) as u16).run_valid(a as int, n) {
            (Err(err_at(TamErrorKind::AccessViolation, pre.cp())), pre)
        } else {
            (
                Ok(()),
                MachineView {
                    data: splice(pre.data, a as int, pre.data.subrange(st - n, st)),
                    regs: pre.regs.update(ST as int, (st - n) as u16),
                    ..pre
                },
            )
        },
    }
}

/// The result and post-state of `STOREI(n)`: pop the top `n` words, pop the
/// destination base address pushed below them, validate the destination run
/// against the post-pop collision gap, and write the words in their original
/// stack order. A failed instruction changes nothing.
pub open spec fn storei_model(pre: MachineView, instr: TamInstruction) -> (
    TamResult<()>,
    MachineView,
) {
    let n = instr.n as int;
    let st = pre.st() as int;
    if st < n + 1 {
        (Err(err_at(TamErrorKind::StackUnderflow, pre.cp())), pre)
    } else {
        let a = to_u16(pre.data[st - n - 1]) as int;
        if !with_st(pre, (st - n - 1) as u16).run_valid(a, n) {
            (Err(err_at(TamErrorKind::AccessViolation, pre.cp())), pre)
        } else {
            (
                Ok(()),
                MachineView {
                    data: splice(pre.data, a, pre.data.subrange(st - n, st)),
                    regs: pre.regs.update(ST as int, (st - n - 1) as u16),
                    ..pre
                },
            )
        }
    }
}

/// The result and post-state of `PUSH d`: advance `ST` by `d` uninitialized
/// words, validating against the heap top; a negative `d` releases words and
/// must not move `ST` below the stack base.
pub open spec fn push_instr_model(pre: MachineView, instr: TamInstruction) -> (
    TamResult<()>,
    MachineView,
) {
    let nst = pre.st() + instr.d;
    if nst < 0 {
        (Err(err_at(TamErrorKind::StackUnderflow, pre.cp())), pre)
    } else if nst > pre.ht() {
        (Err(err_at(TamErrorKind::StackOverflow, pre.cp())), pre)
    } else {
        (Ok(()), with_st(pre, nst as u16))
    }
}

/// The result and post-state of `POP(n) d`: remove `d` words from the stack
/// while preserving the top `n` words, which move down by `d`.
pub open spec fn pop_instr_model(pre: MachineView, instr: TamInstruction) -> (
    TamResult<()>,
    MachineView,
) {
    let n = instr.n as int;
    let st = pre.st() as int;
    if instr.d < 0 || st < n + instr.d {
        (Err(err_at(TamErrorKind::StackUnderflow, pre.cp())), pre)
    } else {
        (
            Ok(()),
            MachineView {
                data: splice(pre.data, st - instr.d - n, pre.data.subrange(st - n, st)),
                regs: pre.regs.update(ST as int, (st - instr.d) as u16),
                ..pre
            },
        )
    }
}

/// The result and post-state of `JUMP d[r]`: transfer control to the resolved
/// address, which must be a loaded code address.
pub open spec fn jump_model(pre: MachineView, instr: TamInstruction) -> (
    TamResult<()>,
    MachineView,
) {
    match spec_calc_address(pre, instr) {
        Err(e) => (Err(e), pre),
        Ok(t) => if t >= pre.reg(CT as int) {
            (Err(err_at(TamErrorKind::AccessViolation, pre.cp())), pre)
        } else {
            (Ok(()), with_cp(pre, t))
        },
    }
}

/// The result and post-state of `JUMPI`: pop the target address, then jump as
/// `JUMP` does. A failure after the pop keeps the pop.
pub open spec fn jumpi_model(pre: MachineView) -> (TamResult<()>, MachineView) {
    if !can_pop(pre) {
        (Err(err_at(TamErrorKind::StackUnderflow, pre.cp())), pre)
    } else {
        let m1 = pop_model(pre);
        let t = to_u16(pop_value(pre));
        if t >= pre.reg(CT as int) {
            (Err(err_at(TamErrorKind::AccessViolation, pre.cp())), m1)
        } else {
            (Ok(()), with_cp(m1, t))
        }
    }
}

/// The result and post-state of `JUMPIF(n) d[r]`: pop one value; when it
/// equals `n`, jump to the resolved address as `JUMP` does, otherwise fall
/// through to the next instruction. A failure after the pop keeps the pop.
pub open spec fn jumpif_model(pre: MachineView, instr: TamInstruction) -> (
    TamResult<()>,
    MachineView,
) {
    if !can_pop(pre) {
        (Err(err_at(TamErrorKind::StackUnderflow, pre.cp())), pre)
    } else {
        let m1 = pop_model(pre);
        if pop_value(pre) == instr.n as i16 {
            match spec_calc_address(m1, instr) {
                Err(e) => (Err(e), m1),
                Ok(t) => if t >= pre.reg(CT as int) {
                    (Err(err_at(TamErrorKind::AccessViolation, pre.cp())), m1)
                } else {
                    (Ok(()), with_cp(m1, t))
                },
            }
        } else {
            (Ok(()), bump_cp(m1))
        }
    }
}

/// Any load whose resolved run touches an address `a` in the collision gap
/// `ST <= a <= HT` fails with an access violation and leaves the machine
/// unchanged: no instruction may read between stack and heap.
pub proof fn lemma_gap_load_rejected(m: MachineView, instr: TamInstruction, i: int)
    requires
        m.wf(),
        spec_calc_address(m, instr) matches Ok(a) && m.in_gap(a + i),
        0 <= i < instr.n,
    ensures
        load_model(m, instr) == (
            Err::<(), TamError>(err_at(TamErrorKind::AccessViolation, m.cp())),
            m,
        ),
{
    let a = spec_calc_address(m, instr)->Ok_0;
    assert(!m.run_valid(a as int, instr.n as int));
}

/// Any store whose destination run touches an address in the collision gap
/// that holds once its operands are popped fails with an access violation and
/// leaves the machine unchanged: no instruction may write between stack and
/// heap.
pub proof fn lemma_gap_store_rejected(m: MachineView, instr: TamInstruction, i: int)
    requires
        m.wf(),
        instr.n <= m.st(),
        spec_calc_address(m, instr) matches Ok(a) && with_st(
            m,
            (m.st() - instr.n) as u16,
        ).in_gap(a + i),
        0 <= i < instr.n,
    ensures
        store_model(m, instr) == (
            Err::<(), TamError>(err_at(TamErrorKind::AccessViolation, m.cp())),
            m,
        ),
{
    let a = spec_calc_address(m, instr)->Ok_0;
    assert(!with_st(m, (m.st() - instr.n) as u16).run_valid(a as int, instr.n as int));
}

impl TamEmulator {
    /// An error of the given kind at the current code pointer.
    pub(crate) fn err_here(&self, kind: TamErrorKind) -> (e: TamError)
        requires
            self.wf(),
        ensures
            e == err_at(kind, self@.cp()),
    {
        TamError { kind, address: Some(self.registers[CP]), message: None }
    }

    /// Calculates the absolute address `registers[r] + d` for an instruction,
    /// or an access violation when the sum leaves the 16-bit address space.
    pub fn calc_address(&self, instr: TamInstruction) -> (r: TamResult<u16>)
        requires
            self.wf(),
            instr.r < 16,
        ensures
            r == spec_calc_address(self@, instr),
    {
        match u16::checked_add_signed(self.registers[instr.r as usize], instr.d) {
            None => Err(self.err_here(TamErrorKind::AccessViolation)),
            Some(addr) => Ok(addr),
        }
    }

    /// True when every address of the `n`-word run starting at `a` is inside
    /// the data store and outside the collision gap.
    fn run_clear(&self, a: u16, n: u8) -> (ok: bool)
        requires
            self.wf(),
        ensures
            ok == self@.run_valid(a as int, n as int),
    {
        if (a as usize) + (n as usize) > MEMORY_SIZE {
            return false;
        }
        let st = self.registers[ST];
        let ht = self.registers[HT];
        let mut i: usize = 0;
        while i < n as usize
            invariant
                self.wf(),
                i <= n as usize,
                a + n <= MEMORY_SIZE,
                st == self@.st(),
                ht == self@.ht(),
                forall|j: int| 0 <= j < i ==> !(#[trigger] self@.in_gap(a + j)),
            decreases n as usize - i,
        {
            let addr = a + (i as u16);
            if addr >= st && addr <= ht {
                proof {
                    assert(self@.in_gap(a + i));
                }
                return false;
            }
            i += 1;
        }
        true
    }

    /// Copies the `n`-word run at `from` in the data store onto the stack by
    /// repeated pushes, in ascending address order.
    fn bulk_push(&mut self, from: u16, n: u8)
        requires
            old(self).wf(),
            old(self)@.run_valid(from as int, n as int),
            old(self)@.st() + n <= old(self)@.ht(),
        ensures
            final(self).wf(),
            final(self)@ == (MachineView {
                data: splice(
                    old(self)@.data,
                    old(self)@.st() as int,
                    old(self)@.data.subrange(from as int, from + n),
                ),
                regs: old(self)@.regs.update(ST as int, (old(self)@.st() + n) as u16),
                ..old(self)@
            }),
    {
        let ghost pre = self@;
        let mut i: usize = 0;
        while i < n as usize
            invariant
                self.wf(),
                i <= n as usize,
                pre.wf(),
                pre.run_valid(from as int, n as int),
                pre.st() + n <= pre.ht(),
                self@.code == pre.code,
                self@.trace == pre.trace,
                self@.regs.len() == 16,
                self@.st() == pre.st() + i,
                forall|k: int| 0 <= k < 16 && k != ST ==> self@.regs[k] == pre.regs[k],
                forall|j: int|
                    0 <= j < i ==> #[trigger] self@.data[pre.st() + j] == pre.data[from + j],
                forall|j: int|
                    0 <= j < MEMORY_SIZE && !(pre.st() <= j < pre.st() + i) ==> self@.data[j]
                        == pre.data[j],
            decreases n as usize - i,
        {
            proof {
                assert(!pre.in_gap(from + i));
                assert(can_push(self@));
            }
            let v = self.data_store[(from + (i as u16)) as usize];
            let res = self.push_data(v);
            proof {
                assert(res is Ok);
            }
            i += 1;
        }
        proof {
            let target = MachineView {
                data: splice(pre.data, pre.st() as int, pre.data.subrange(from as int, from + n)),
                regs: pre.regs.update(ST as int, (pre.st() + n) as u16),
                ..pre
            };
            assert forall|k: int| 0 <= k < MEMORY_SIZE implies self@.data[k] == target.data[k] by {
                if pre.st() <= k < pre.st() + n {
                    assert(self@.data[pre.st() + (k - pre.st())] == pre.data[from + (k
                        - pre.st())]);
                } else {
                    assert(self@.data[k] == pre.data[k]);
                }
            }
            assert(self@.data =~= target.data);
            assert(self@.regs =~= target.regs);
        }
    }

    /// Executes `LOAD(n) d[r]` per [`load_model`].
    pub fn exec_load(&mut self, instr: TamInstruction) -> (r: TamResult<()>)
        requires
            old(self).wf(),
            instr.r < 16,
        ensures
            final(self).wf(),
            (r, final(self)@) == load_model(old(self)@, instr),
    {
        let a = match self.calc_address(instr) {
            Err(e) => {
                return Err(e);
            },
            Ok(a) => a,
        };
        if !self.run_clear(a, instr.n) {
            return Err(self.err_here(TamErrorKind::AccessViolation));
        }
        if (self.registers[ST] as usize) + (instr.n as usize) > self.registers[HT] as usize {
            return Err(self.err_here(TamErrorKind::StackOverflow));
        }
        self.bulk_push(a, instr.n);
        Ok(())
    }

    /// Executes `LOADA d[r]` per [`loada_model`].
    pub fn exec_loada(&mut self, instr: TamInstruction) -> (r: TamResult<()>)
        requires
            old(self).wf(),
            instr.r < 16,
        ensures
            final(self).wf(),
            (r, final(self)@) == loada_model(old(self)@, instr),
    {
        let a = match self.calc_address(instr) {
            Err(e) => {
                return Err(e);
            },
            Ok(a) => a,
        };
        self.push_data(TamInstruction::bits_to_word(a))
    }

    /// Executes `LOADI(n)` per [`loadi_model`].
    pub fn exec_loadi(&mut self, instr: TamInstruction) -> (r: TamResult<()>)
        requires
            old(self).wf(),
        ensures
            final(self).wf(),
            (r, final(self)@) == loadi_model(old(self)@, instr),
    {
        let base = match self.pop_data() {
            Err(e) => {
                return Err(e);
            },
            Ok(v) => TamInstruction::word_to_bits(v),
        };
        if !self.run_clear(base, instr.n) {
            return Err(self.err_here(TamErrorKind::AccessViolation));
        }
        if (self.registers[ST] as usize) + (instr.n as usize) > self.registers[HT] as usize {
            return Err(self.err_here(TamErrorKind::StackOverflow));
        }
        self.bulk_push(base, instr.n);
        Ok(())
    }

    /// Executes `LOADL d` per [`loadl_model`].
    pub fn exec_loadl(&mut self, instr: TamInstruction) -> (r: TamResult<()>)
        requires
            old(self).wf(),
        ensures
            final(self).wf(),
            (r, final(self)@) == loadl_model(old(self)@, instr),
    {
        self.push_data(instr.d)
    }

    /// Copies the `n`-word run ending at the stack top to `dest`, preserving
    /// order, then drops the stack top to `new_st`. The words are read out
    /// before anything is written, so the destination may overlap the source.
    pub(crate) fn bulk_store(&mut self, dest: u16, n: u8, new_st: u16)
        requires
            old(self).wf(),
            n <= old(self)@.st(),
            dest + n <= MEMORY_SIZE,
        ensures
            final(self).wf(),
            final(self)@ == (MachineView {
                data: splice(
                    old(self)@.data,
                    dest as int,
                    old(self)@.data.subrange(
                        old(self)@.st() - n,
                        old(self)@.st() as int,
                    ),
                ),
                regs: old(self)@.regs.update(ST as int, new_st),
                ..old(self)@
            }),
    {
        let ghost pre = self@;
        let st = self.registers[ST];
        let mut buf: Vec<i16> = Vec::new();
        let mut i: usize = 0;
        while i < n as usize
            invariant
                self.wf(),
                *self == *old(self),
                i <= n as usize,
                st == self@.st(),
                n <= self@.st(),
                buf@.len() == i,
                forall|j: int| 0 <= j < i ==> buf@[j] == self@.data[self@.st() - n + j],
            decreases n as usize - i,
        {
            buf.push(self.data_store[(st - (n as u16) + (i as u16)) as usize]);
            i += 1;
        }
        let mut j: usize = 0;
        while j < n as usize
            invariant
                self.wf(),
                j <= n as usize,
                pre.wf(),
                n <= pre.st(),
                dest + n <= MEMORY_SIZE,
                buf@.len() == n as usize,
                forall|k: int| 0 <= k < n ==> buf@[k] == pre.data[pre.st() - n + k],
                self@.code == pre.code,
                self@.trace == pre.trace,
                self@.regs == pre.regs,
                forall|k: int|
                    0 <= k < j ==> #[trigger] self@.data[dest + k] == pre.data[pre.st() - n + k],
                forall|k: int|
                    0 <= k < MEMORY_SIZE && !(dest <= k < dest + j)
                        ==> self@.data[k] == pre.data[k],
            decreases n as usize - j,
        {
            self.data_store.set((dest + (j as u16)) as usize, buf[j]);
            j += 1;
        }
        self.registers.set(ST, new_st);
        proof {
            let target = MachineView {
                data: splice(pre.data, dest as int, pre.data.subrange(pre.st() - n, pre.st() as int)),
                regs: pre.regs.update(ST as int, new_st),
                ..pre
            };
            assert forall|k: int| 0 <= k < MEMORY_SIZE implies self@.data[k] == target.data[k] by {
                if dest <= k < dest + n {
                    assert(self@.data[dest + (k - dest)] == pre.data[pre.st() - n + (k - dest)]);
                } else {
                    assert(self@.data[k] == pre.data[k]);
                }
            }
            assert(self@.data =~= target.data);
            assert(self@.regs =~= target.regs);
        }
    }

    /// Executes `STORE(n) d[r]` per [`store_model`].
    pub fn exec_store(&mut self, instr: TamInstruction) -> (r: TamResult<()>)
        requires
            old(self).wf(),
            instr.r < 16,
        ensures
            final(self).wf(),
            (r, final(self)@) == store_model(old(self)@, instr),
    {
        let a = match self.calc_address(instr) {
            Err(e) => {
                return Err(e);
            },
            Ok(a) => a,
        };
        let st = self.registers[ST];
        if st < instr.n as u16 {
            return Err(self.err_here(TamErrorKind::StackUnderflow));
        }
        let new_st = st - instr.n as u16;
        if !self.store_run_clear(a, instr.n, new_st) {
            return Err(self.err_here(TamErrorKind::AccessViolation));
        }
        self.bulk_store(a, instr.n, new_st);
        Ok(())
    }

    /// Executes `STOREI(n)` per [`storei_model`].
    pub fn exec_storei(&mut self, instr: TamInstruction) -> (r: TamResult<()>)
        requires
            old(self).wf(),
        ensures
            final(self).wf(),
            (r, final(self)@) == storei_model(old(self)@, instr),
    {
        let st = self.registers[ST];
        if st < instr.n as u16 || st - (instr.n as u16) < 1 {
            return Err(self.err_here(TamErrorKind::StackUnderflow));
        }
        let a = TamInstruction::word_to_bits(
            self.data_store[(st - (instr.n as u16) - 1) as usize],
        );
        let new_st = st - (instr.n as u16) - 1;
        if !self.store_run_clear(a, instr.n, new_st) {
            return Err(self.err_here(TamErrorKind::AccessViolation));
        }
        self.bulk_store(a, instr.n, new_st);
        Ok(())
    }

    /// True when every address of the `n`-word destination run starting at
    /// `a` is inside the data store and outside the collision gap that will
    /// hold once the stack top drops to `new_st`.
    fn store_run_clear(&self, a: u16, n: u8, new_st: u16) -> (ok: bool)
        requires
            self.wf(),
        ensures
            ok == with_st(self@, new_st).run_valid(a as int, n as int),
    {
        if (a as usize) + (n as usize) > MEMORY_SIZE {
            return false;
        }
        let ht = self.registers[HT];
        let ghost shifted = with_st(self@, new_st);
        let mut i: usize = 0;
        while i < n as usize
            invariant
                self.wf(),
                i <= n as usize,
                a + n <= MEMORY_SIZE,
                new_st == shifted.st(),
                ht == shifted.ht(),
                shifted == with_st(self@, new_st),
                forall|j: int| 0 <= j < i ==> !(#[trigger] shifted.in_gap(a + j)),
            decreases n as usize - i,
        {
            let addr = a + (i as u16);
            if addr >= new_st && addr <= ht {
                proof {
                    assert(shifted.in_gap(a + i));
                }
                return false;
            }
            i += 1;
        }
        true
    }

    /// Executes `PUSH d` per [`push_instr_model`].
    pub fn exec_push(&mut self, instr: TamInstruction) -> (r: TamResult<()>)
        requires
            old(self).wf(),
        ensures
            final(self).wf(),
            (r, final(self)@) == push_instr_model(old(self)@, instr),
    {
        let st = self.registers[ST];
        match u16::checked_add_signed(st, instr.d) {
            None => {
                if instr.d < 0 {
                    Err(self.err_here(TamErrorKind::StackUnderflow))
                } else {
                    Err(self.err_here(TamErrorKind::StackOverflow))
                }
            },
            Some(nst) => {
                if nst > self.registers[HT] {
                    Err(self.err_here(TamErrorKind::StackOverflow))
                } else {
                    self.registers.set(ST, nst);
                    Ok(())
                }
            },
        }
    }

    /// Executes `POP(n) d` per [`pop_instr_model`].
    pub fn exec_pop(&mut self, instr: TamInstruction) -> (r: TamResult<()>)
        requires
            old(self).wf(),
        ensures
            final(self).wf(),
            (r, final(self)@) == pop_instr_model(old(self)@, instr),
    {
        let st = self.registers[ST];
        if instr.d < 0 || (st as usize) < (instr.n as usize) + (instr.d as usize) {
            return Err(self.err_here(TamErrorKind::StackUnderflow));
        }
        let new_st = st - (instr.d as u16);
        let dest = st - (instr.n as u16) - (instr.d as u16);
        self.bulk_store(dest, instr.n, new_st);
        Ok(())
    }

    /// Executes `JUMP d[r]` per [`jump_model`].
    pub fn exec_jump(&mut self, instr: TamInstruction) -> (r: TamResult<()>)
        requires
            old(self).wf(),
            instr.r < 16,
        ensures
            final(self).wf(),
            (r, final(self)@) == jump_model(old(self)@, instr),
    {
        let t = match self.calc_address(instr) {
            Err(e) => {
                return Err(e);
            },
            Ok(t) => t,
        };
        if t >= self.registers[CT] {
            return Err(self.err_here(TamErrorKind::AccessViolation));
        }
        self.registers.set(CP, t);
        Ok(())
    }

    /// Executes `JUMPI` per [`jumpi_model`].
    pub fn exec_jumpi(&mut self) -> (r: TamResult<()>)
        requires
            old(self).wf(),
        ensures
            final(self).wf(),
            (r, final(self)@) == jumpi_model(old(self)@),
    {
        let t = match self.pop_data() {
            Err(e) => {
                return Err(e);
            },
            Ok(v) => TamInstruction::word_to_bits(v),
        };
        if t >= self.registers[CT] {
            return Err(self.err_here(TamErrorKind::AccessViolation));
        }
        self.registers.set(CP, t);
        Ok(())
    }

    /// Executes `JUMPIF(n) d[r]` per [`jumpif_model`].
    pub fn exec_jumpif(&mut self, instr: TamInstruction) -> (r: TamResult<()>)
        requires
            old(self).wf(),
            instr.r < 16,
        ensures
            final(self).wf(),
            (r, final(self)@) == jumpif_model(old(self)@, instr),
    {
        let v = match self.pop_data() {
            Err(e) => {
                return Err(e);
            },
            Ok(v) => v,
        };
        if v == instr.n as i16 {
            let t = match self.calc_address(instr) {
                Err(e) => {
                    return Err(e);
                },
                Ok(t) => t,
            };
            if t >= self.registers[CT] {
                return Err(self.err_here(TamErrorKind::AccessViolation));
            }
            self.registers.set(CP, t);
            Ok(())
        } else {
            let cp = self.registers[CP];
            self.registers.set(CP, cp.wrapping_add(1));
            proof {
                assert(self@.regs =~= bump_cp(pop_model(old(self)@)).regs);
            }
            Ok(())
        }
    }
}

/// Forgets the payload of a successful step result.
pub open spec fn result_unit(r: TamResult<bool>) -> TamResult<()> {
    match r {
        Ok(_) => Ok(()),
        Err(e) => Err(e),
    }
}

/// A deterministic instruction's step: on success the code pointer advances
/// past the instruction.
pub open spec fn pure_step(
    m: (TamResult<()>, MachineView),
    post: MachineView,
    r: TamResult<bool>,
) -> bool {
    match m.0 {
        Ok(_) => r == Ok::<bool, TamError>(true) && post == bump_cp(m.1),
        Err(e) => r == Err::<bool, TamError>(e) && post == m.1,
    }
}

/// A control-transfer instruction's step: the model itself places the code
/// pointer.
pub open spec fn transfer_step(
    m: (TamResult<()>, MachineView),
    post: MachineView,
    r: TamResult<bool>,
) -> bool {
    match m.0 {
        Ok(_) => r == Ok::<bool, TamError>(true) && post == m.1,
        Err(e) => r == Err::<bool, TamError>(e) && post == m.1,
    }
}

/// The full effect of dispatching one instruction: each defined opcode acts
/// per its model, a successful non-halting step reports that execution should
/// continue, `HALT` reports that it should stop, and an opcode without
/// semantics fails without effect, carrying its own code.
pub open spec fn step_post(
    pre: MachineView,
    instr: TamInstruction,
    post: MachineView,
    r: TamResult<bool>,
) -> bool {
    if instr.op == 0 {
        pure_step(load_model(pre, instr), post, r)
    } else if instr.op == 1 {
        pure_step(loada_model(pre, instr), post, r)
    } else if instr.op == 2 {
        pure_step(loadi_model(pre, instr), post, r)
    } else if instr.op == 3 {
        pure_step(loadl_model(pre, instr), post, r)
    } else if instr.op == 4 {
        pure_step(store_model(pre, instr), post, r)
    } else if instr.op == 5 {
        pure_step(storei_model(pre, instr), post, r)
    } else if instr.op == 6 {
        crate::control::call_post(pre, instr, post, result_unit(r)) && (r matches Ok(b) ==> b)
    } else if instr.op == 7 {
        crate::control::calli_post(pre, instr, post, result_unit(r)) && (r matches Ok(b) ==> b)
    } else if instr.op == 8 {
        transfer_step(crate::control::return_model(pre, instr), post, r)
    } else if instr.op == 10 {
        pure_step(push_instr_model(pre, instr), post, r)
    } else if instr.op == 11 {
        pure_step(pop_instr_model(pre, instr), post, r)
    } else if instr.op == 12 {
        transfer_step(jump_model(pre, instr), post, r)
    } else if instr.op == 13 {
        transfer_step(jumpi_model(pre), post, r)
    } else if instr.op == 14 {
        transfer_step(jumpif_model(pre, instr), post, r)
    } else if instr.op == 15 {
        r == Ok::<bool, TamError>(false) && post == pre
    } else {
        r == Err::<bool, TamError>(err_at(TamErrorKind::UnknownOpcode(instr.op), pre.cp())) && post
            == pre
    }
}

/// No instruction mutates the segment registers: whatever one dispatched step
/// does, `CB`, `CT`, `PB` and `PT` keep their values, so the code segment and
/// the primitive block stand still while a program runs.
#[verifier::rlimit(60)]
pub proof fn lemma_step_preserves_segment_registers(
    pre: MachineView,
    instr: TamInstruction,
    post: MachineView,
    r: TamResult<bool>,
)
    requires
        pre.wf(),
        step_post(pre, instr, post, r),
    ensures
        post.regs.len() == 16,
        post.regs[crate::CB as int] == pre.regs[crate::CB as int],
        post.regs[CT as int] == pre.regs[CT as int],
        post.regs[crate::PB as int] == pre.regs[crate::PB as int],
        post.regs[crate::PT as int] == pre.regs[crate::PT as int],
{
    if instr.op == 6 {
        match spec_calc_address(pre, instr) {
            Err(_) => {},
            Ok(t) => crate::control::lemma_call_preserves_segment_registers(
                pre,
                t,
                instr,
                post,
                result_unit(r),
            ),
        }
    } else if instr.op == 7 {
        if can_pop(pre) {
            crate::control::lemma_call_preserves_segment_registers(
                pop_model(pre),
                to_u16(pop_value(pre)),
                instr,
                post,
                result_unit(r),
            );
        }
    }
}

impl TamEmulator {
    /// Executes one decoded instruction per [`step_post`], returning whether
    /// the run loop should continue (`HALT` alone stops it). When tracing is
    /// enabled, the instruction's mnemonic line goes to the output stream
    /// first, and a failure to write it aborts the instruction with an
    /// input/output error and no other effect. Primitive calls read and write
    /// through the given host streams.
    pub fn execute<R: std::io::BufRead, W: std::io::Write>(
        &mut self,
        instr: TamInstruction,
        reader: &mut R,
        writer: &mut W,
    ) -> (r: TamResult<bool>)
        requires
            old(self).wf(),
            instr.r < 16,
        ensures
            final(self).wf(),
            !old(self)@.trace ==> step_post(old(self)@, instr, final(self)@, r),
            old(self)@.trace ==> step_post(old(self)@, instr, final(self)@, r) || (r matches Err(e)
                && e.kind == TamErrorKind::IOError && e.address == Some(old(self)@.cp())
                && e.message is Some && *final(self) == *old(self)),
    {
        if self.trace {
            let mut line = instr.mnemonic();
            line.push(0x0a);
            match crate::hostio::write_bytes(writer, line.as_slice()) {
                Err(m) => {
                    return Err(self.io_err(m));
                },
                Ok(_) => {},
            }
        }
        if instr.op == 15 {
            return Ok(false);
        }
        if instr.op == 9 || instr.op > 15 {
            return Err(self.err_here(TamErrorKind::UnknownOpcode(instr.op)));
        }
        let bump_after = instr.op <= 5 || instr.op == 10 || instr.op == 11;
        let res = if instr.op == 0 {
            self.exec_load(instr)
        } else if instr.op == 1 {
            self.exec_loada(instr)
        } else if instr.op == 2 {
            self.exec_loadi(instr)
        } else if instr.op == 3 {
            self.exec_loadl(instr)
        } else if instr.op == 4 {
            self.exec_store(instr)
        } else if instr.op == 5 {
            self.exec_storei(instr)
        } else if instr.op == 6 {
            self.exec_call(instr, reader, writer)
        } else if instr.op == 7 {
            self.exec_calli(instr, reader, writer)
        } else if instr.op == 8 {
            self.exec_return(instr)
        } else if instr.op == 10 {
            self.exec_push(instr)
        } else if instr.op == 11 {
            self.exec_pop(instr)
        } else if instr.op == 12 {
            self.exec_jump(instr)
        } else if instr.op == 13 {
            self.exec_jumpi()
        } else {
            self.exec_jumpif(instr)
        };
        match res {
            Err(e) => Err(e),
            Ok(_) => {
                if bump_after {
                    self.bump();
                }
                Ok(true)
            },
        }
    }
}

} // verus!
