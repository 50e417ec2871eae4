use vstd::prelude::*;

use crate::emulator::{err_at, MachineView, TamEmulator};
use crate::errors::{TamError, TamErrorKind, TamResult};
use crate::execute::{spec_calc_address, splice, wrap16};
use crate::instructions::{to_i16, to_u16, TamInstruction};
use crate::primitives::prim_post;
use crate::stack::{can_pop, pop_model, pop_value};
use crate::{CP, CT, HT, LB, PB, ST};

verus! {

/// The state after pushing a call frame for a routine at code address `t`:
/// the static link taken from register `nreg`, the dynamic link (the old
/// `LB`), and the return address (the instruction after the call) stand at
/// the old stack top; `LB` marks the new frame and control moves to `t`.
pub open spec fn call_frame_model(pre: MachineView, nreg: int, t: u16) -> MachineView {
    let st = pre.st() as int;
    MachineView {
        data: pre.data.update(st, to_i16(pre.reg(nreg))).update(
            st + 1,
            to_i16(pre.reg(LB as int)),
        ).update(st + 2, to_i16(wrap16(pre.cp() + 1))),
        regs: pre.regs.update(ST as int, (st + 3) as u16).update(LB as int, st as u16).update(
            CP as int,
            t,
        ),
        ..pre
    }
}

/// The result and post-state of a call whose target address `t` is already
/// resolved: a target inside the primitive block `(PB, PT]` invokes the
/// primitive routine at displacement `t - PB` without a frame; any other
/// target must name a register for the static link and a loaded code address,
/// and needs room for the three frame words.
pub open spec fn call_target_post(
    pre: MachineView,
    t: u16,
    instr: TamInstruction,
    post: MachineView,
    r: TamResult<()>,
) -> bool {
    if t > pre.reg(PB as int) {
        prim_post(pre, (t - pre.reg(PB as int)) as u16, post, r)
    } else if instr.n >= 16 {
        post == pre && r == Err::<(), TamError>(err_at(TamErrorKind::AccessViolation, pre.cp()))
    } else if t >= pre.reg(CT as int) {
        post == pre && r == Err::<(), TamError>(err_at(TamErrorKind::AccessViolation, pre.cp()))
    } else if pre.st() + 3 > pre.ht() {
        post == pre && r == Err::<(), TamError>(err_at(TamErrorKind::StackOverflow, pre.cp()))
    } else {
        post == call_frame_model(pre, instr.n as int, t) && r == Ok::<(), TamError>(())
    }
}

/// The result and post-state of `CALL(n) d[r]`: resolve the target address,
/// then call it per [`call_target_post`].
pub open spec fn call_post(
    pre: MachineView,
    instr: TamInstruction,
    post: MachineView,
    r: TamResult<()>,
) -> bool {
    match spec_calc_address(pre, instr) {
        Err(e) => post == pre && r == Err::<(), TamError>(e),
        Ok(t) => call_target_post(pre, t, instr, post, r),
    }
}

/// The result and post-state of `CALLI`: pop the target address, then call it
/// per [`call_target_post`]. A failure after the pop keeps the pop.
pub open spec fn calli_post(
    pre: MachineView,
    instr: TamInstruction,
    post: MachineView,
    r: TamResult<()>,
) -> bool {
    if !can_pop(pre) {
        post == pre && r == Err::<(), TamError>(err_at(TamErrorKind::StackUnderflow, pre.cp()))
    } else {
        call_target_post(pop_model(pre), to_u16(pop_value(pre)), instr, post, r)
    }
}

/// The result and post-state of `RETURN(n) d`: the current frame at `LB`
/// holds the static link, the dynamic link and the return address; the `n`
/// result words at the stack top move down over the `d` argument words below
/// the frame, `LB` returns to the caller's frame and control moves to the
/// return address. A failed instruction changes nothing.
pub open spec fn return_model(pre: MachineView, instr: TamInstruction) -> (
    TamResult<()>,
    MachineView,
) {
    let n = instr.n as int;
    let d = instr.d as int;
    let lb = pre.reg(LB as int) as int;
    let st = pre.st() as int;
    if d < 0 || lb + 3 > st - n || d > lb {
        (Err(err_at(TamErrorKind::StackUnderflow, pre.cp())), pre)
    } else {
        let ret = to_u16(pre.data[lb + 2]);
        let dl = to_u16(pre.data[lb + 1]);
        (
            Ok(()),
            MachineView {
                data: splice(pre.data, lb - d, pre.data.subrange(st - n, st)),
                regs: pre.regs.update(ST as int, (lb - d + n) as u16).update(LB as int, dl).update(
                    CP as int,
                    ret,
                ),
                ..pre
            },
        )
    }
}

/// No call, primitive or ordinary, mutates the segment registers `CB`, `CT`,
/// `PB`, `PT`.
pub proof fn lemma_call_preserves_segment_registers(
    pre: MachineView,
    t: u16,
    instr: TamInstruction,
    post: MachineView,
    r: TamResult<()>,
)
    requires
        pre.wf(),
        call_target_post(pre, t, instr, post, r),
    ensures
        post.regs.len() == 16,
        post.regs[crate::CB as int] == pre.regs[crate::CB as int],
        post.regs[CT as int] == pre.regs[CT as int],
        post.regs[PB as int] == pre.regs[PB as int],
        post.regs[crate::PT as int] == pre.regs[crate::PT as int],
{
    if t > pre.reg(PB as int) {
        crate::primitives::lemma_prim_preserves_segment_registers(
            pre,
            (t - pre.reg(PB as int)) as u16,
            post,
            r,
        );
    }
}

impl TamEmulator {
    /// Calls the resolved target address `t` per [`call_target_post`]: either
    /// a primitive-routine invocation or an ordinary call that pushes a frame.
    fn call_target<R: std::io::BufRead, W: std::io::Write>(
        &mut self,
        t: u16,
        instr: TamInstruction,
        reader: &mut R,
        writer: &mut W,
    ) -> (r: TamResult<()>)
        requires
            old(self).wf(),
        ensures
            final(self).wf(),
            call_target_post(old(self)@, t, instr, final(self)@, r),
    {
        if t > self.registers[PB] {
            let id = t - self.registers[PB];
            return self.exec_primitive(id, reader, writer);
        }
        if instr.n >= 16 {
            return Err(self.err_here(TamErrorKind::AccessViolation));
        }
        if t >= self.registers[CT] {
            return Err(self.err_here(TamErrorKind::AccessViolation));
        }
        let st = self.registers[ST];
        let ht = self.registers[HT];
        if (st as usize) + 3 > ht as usize {
            return Err(self.err_here(TamErrorKind::StackOverflow));
        }
        let ghost pre = self@;
        let sl = TamInstruction::bits_to_word(self.registers[instr.n as usize]);
        let dl = TamInstruction::bits_to_word(self.registers[LB]);
        let cp = self.registers[CP];
        let ra = TamInstruction::bits_to_word(cp.wrapping_add(1));
        proof {
            if cp == 0xffff {
                assert(wrap16(cp + 1) == 0);
            } else {
                assert(wrap16(cp + 1) == cp + 1);
            }
        }
        self.data_store.set(st as usize, sl);
        self.data_store.set((st + 1) as usize, dl);
        self.data_store.set((st + 2) as usize, ra);
        self.registers.set(ST, st + 3);
        self.registers.set(LB, st);
        self.registers.set(CP, t);
        proof {
            let target = call_frame_model(pre, instr.n as int, t);
            assert(self@.data =~= target.data);
            assert(self@.regs =~= target.regs);
        }
        Ok(())
    }

    /// Executes `CALL(n) d[r]` per [`call_post`].
    pub fn exec_call<R: std::io::BufRead, W: std::io::Write>(
        &mut self,
        instr: TamInstruction,
        reader: &mut R,
        writer: &mut W,
    ) -> (r: TamResult<()>)
        requires
            old(self).wf(),
            instr.r < 16,
        ensures
            final(self).wf(),
            call_post(old(self)@, instr, final(self)@, r),
    {
        let t = match self.calc_address(instr) {
            Err(e) => {
                return Err(e);
            },
            Ok(t) => t,
        };
        self.call_target(t, instr, reader, writer)
    }

    /// Executes `CALLI` per [`calli_post`].
    pub fn exec_calli<R: std::io::BufRead, W: std::io::Write>(
        &mut self,
        instr: TamInstruction,
        reader: &mut R,
        writer: &mut W,
    ) -> (r: TamResult<()>)
        requires
            old(self).wf(),
        ensures
            final(self).wf(),
            calli_post(old(self)@, instr, final(self)@, r),
    {
        let t = match self.pop_data() {
            Err(e) => {
                return Err(e);
            },
            Ok(v) => TamInstruction::word_to_bits(v),
        };
        self.call_target(t, instr, reader, writer)
    }

    /// Executes `RETURN(n) d` per [`return_model`].
    pub fn exec_return(&mut self, instr: TamInstruction) -> (r: TamResult<()>)
        requires
            old(self).wf(),
        ensures
            final(self).wf(),
            (r, final(self)@) == return_model(old(self)@, instr),
    {
        let lb = self.registers[LB];
        let st = self.registers[ST];
        if instr.d < 0 {
            return Err(self.err_here(TamErrorKind::StackUnderflow));
        }
        if (lb as usize) + 3 + (instr.n as usize) > st as usize || (instr.d as u16) > lb {
            return Err(self.err_here(TamErrorKind::StackUnderflow));
        }
        let ret = TamInstruction::word_to_bits(self.data_store[(lb + 2) as usize]);
        let dl = TamInstruction::word_to_bits(self.data_store[(lb + 1) as usize]);
        let dest = lb - (instr.d as u16);
        let new_st = dest + (instr.n as u16);
        self.bulk_store(dest, instr.n, new_st);
        self.registers.set(LB, dl);
        self.registers.set(CP, ret);
        proof {
            let target = return_model(old(self)@, instr).1;
            assert(self@.data =~= target.data);
            assert(self@.regs =~= target.regs);
        }
        Ok(())
    }
}

} // verus!
