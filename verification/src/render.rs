use vstd::prelude::*;

use crate::instructions::TamInstruction;
use crate::textio::{dec_digits, dec_i16, push_dec_digits};

verus! {

/// The ASCII text `(n)` for an instruction's count field.
pub open spec fn paren_n(instr: TamInstruction) -> Seq<u8> {
    seq![0x28u8] + dec_digits(instr.n as nat) + seq![0x29u8]
}

/// The ASCII text `d[r]` for an instruction's displacement and register.
pub open spec fn dr_suffix(instr: TamInstruction) -> Seq<u8> {
    dec_i16(instr.d) + seq![0x5bu8] + dec_digits(instr.r as nat) + seq![0x5du8]
}

/// The mnemonic line for an instruction, as ASCII bytes: one fixed shape per
/// defined opcode, the empty text for an opcode without semantics, so that
/// tracing never aborts execution.
pub open spec fn mnemonic_spec(instr: TamInstruction) -> Seq<u8> {
    if instr.op == 0 {
        seq![0x4cu8, 0x4fu8, 0x41u8, 0x44u8] + paren_n(instr) + seq![0x20u8] + dr_suffix(instr)
    } else if instr.op == 1 {
        seq![0x4cu8, 0x4fu8, 0x41u8, 0x44u8, 0x41u8, 0x20u8] + dr_suffix(instr)
    } else if instr.op == 2 {
        seq![0x4cu8, 0x4fu8, 0x41u8, 0x44u8, 0x49u8, 0x20u8] + paren_n(instr)
    } else if instr.op == 3 {
        seq![0x4cu8, 0x4fu8, 0x41u8, 0x44u8, 0x4cu8, 0x20u8] + dec_i16(instr.d)
    } else if instr.op == 4 {
        seq![0x53u8, 0x54u8, 0x4fu8, 0x52u8, 0x45u8] + paren_n(instr) + seq![0x20u8] + dr_suffix(
            instr,
        )
    } else if instr.op == 5 {
        seq![0x53u8, 0x54u8, 0x4fu8, 0x52u8, 0x45u8, 0x49u8] + paren_n(instr)
    } else if instr.op == 6 {
        seq![0x43u8, 0x41u8, 0x4cu8, 0x4cu8] + paren_n(instr) + seq![0x20u8] + dr_suffix(instr)
    } else if instr.op == 7 {
        seq![0x43u8, 0x41u8, 0x4cu8, 0x4cu8, 0x49u8]
    } else if instr.op == 8 {
        seq![0x52u8, 0x45u8, 0x54u8, 0x55u8, 0x52u8, 0x4eu8] + paren_n(instr) + seq![0x20u8]
            + dec_i16(instr.d)
    } else if instr.op == 10 {
        seq![0x50u8, 0x55u8, 0x53u8, 0x48u8, 0x20u8] + dec_i16(instr.d)
    } else if instr.op == 11 {
        seq![0x50u8, 0x4fu8, 0x50u8] + paren_n(instr) + seq![0x20u8] + dec_i16(instr.d)
    } else if instr.op == 12 {
        seq![0x4au8, 0x55u8, 0x4du8, 0x50u8, 0x20u8] + dr_suffix(instr)
    } else if instr.op == 13 {
        seq![0x4au8, 0x55u8, 0x4du8, 0x50u8, 0x49u8]
    } else if instr.op == 14 {
        seq![0x4au8, 0x55u8, 0x4du8, 0x50u8, 0x49u8, 0x46u8] + paren_n(instr) + seq![0x20u8]
            + dr_suffix(instr)
    } else if instr.op == 15 {
        seq![0x48u8, 0x41u8, 0x4cu8, 0x54u8]
    } else {
        Seq::<u8>::empty()
    }
}

/// Appends the decimal text of a signed machine word.
fn push_dec_i16(out: &mut Vec<u8>, v: i16)
    ensures
        final(out)@ == old(out)@ + dec_i16(v),
{
    if v < 0 {
        out.push(0x2d);
        let mag = (-(v as i32)) as u32;
        push_dec_digits(out, mag);
        proof {
            assert(out@ =~= old(out)@ + dec_i16(v));
        }
    } else {
        push_dec_digits(out, v as u32);
    }
}

/// Appends the `(n)` text for an instruction.
fn push_paren_n(out: &mut Vec<u8>, instr: TamInstruction)
    ensures
        final(out)@ == old(out)@ + paren_n(instr),
{
    out.push(0x28);
    push_dec_digits(out, instr.n as u32);
    out.push(0x29);
    proof {
        assert(out@ =~= old(out)@ + paren_n(instr));
    }
}

/// Appends the `d[r]` text for an instruction.
fn push_dr(out: &mut Vec<u8>, instr: TamInstruction)
    ensures
        final(out)@ == old(out)@ + dr_suffix(instr),
{
    push_dec_i16(out, instr.d);
    out.push(0x5b);
    push_dec_digits(out, instr.r as u32);
    out.push(0x5d);
    proof {
        assert(out@ =~= old(out)@ + dr_suffix(instr));
    }
}

impl TamInstruction {
    /// Renders this instruction's mnemonic line as ASCII text bytes, per
    /// [`mnemonic_spec`]. Opcodes without a defined mnemonic render as the
    /// empty text rather than failing.
    pub fn mnemonic(&self) -> (out: Vec<u8>)
        ensures
            out@ == mnemonic_spec(*self),
    {
        let mut out: Vec<u8> = Vec::new();
        if self.op == 0 {
            out.push(0x4c);
            out.push(0x4f);
            out.push(0x41);
            out.push(0x44);
            push_paren_n(&mut out, *self);
            out.push(0x20);
            push_dr(&mut out, *self);
        } else if self.op == 1 {
            out.push(0x4c);
            out.push(0x4f);
            out.push(0x41);
            out.push(0x44);
            out.push(0x41);
            out.push(0x20);
            push_dr(&mut out, *self);
        } else if self.op == 2 {
            out.push(0x4c);
            out.push(0x4f);
            out.push(0x41);
            out.push(0x44);
            out.push(0x49);
            out.push(0x20);
            push_paren_n(&mut out, *self);
        } else if self.op == 3 {
            out.push(0x4c);
            out.push(0x4f);
            out.push(0x41);
            out.push(0x44);
            out.push(0x4c);
            out.push(0x20);
            push_dec_i16(&mut out, self.d);
        } else if self.op == 4 {
            out.push(0x53);
            out.push(0x54);
            out.push(0x4f);
            out.push(0x52);
            out.push(0x45);
            push_paren_n(&mut out, *self);
            out.push(0x20);
            push_dr(&mut out, *self);
        } else if self.op == 5 {
            out.push(0x53);
            out.push(0x54);
            out.push(0x4f);
            out.push(0x52);
            out.push(0x45);
            out.push(0x49);
            push_paren_n(&mut out, *self);
        } else if self.op == 6 {
            out.push(0x43);
            out.push(0x41);
            out.push(0x4c);
            out.push(0x4c);
            push_paren_n(&mut out, *self);
            out.push(0x20);
            push_dr(&mut out, *self);
        } else if self.op == 7 {
            out.push(0x43);
            out.push(0x41);
            out.push(0x4c);
            out.push(0x4c);
            out.push(0x49);
        } else if self.op == 8 {
            out.push(0x52);
            out.push(0x45);
            out.push(0x54);
            out.push(0x55);
            out.push(0x52);
            out.push(0x4e);
            push_paren_n(&mut out, *self);
            out.push(0x20);
            push_dec_i16(&mut out, self.d);
        } else if self.op == 10 {
            out.push(0x50);
            out.push(0x55);
            out.push(0x53);
            out.push(0x48);
            out.push(0x20);
            push_dec_i16(&mut out, self.d);
        } else if self.op == 11 {
            out.push(0x50);
            out.push(0x4f);
            out.push(0x50);
            push_paren_n(&mut out, *self);
            out.push(0x20);
            push_dec_i16(&mut out, self.d);
        } else if self.op == 12 {
            out.push(0x4a);
            out.push(0x55);
            out.push(0x4d);
            out.push(0x50);
            out.push(0x20);
            push_dr(&mut out, *self);
        } else if self.op == 13 {
            out.push(0x4a);
            out.push(0x55);
            out.push(0x4d);
            out.push(0x50);
            out.push(0x49);
        } else if self.op == 14 {
            out.push(0x4a);
            out.push(0x55);
            out.push(0x4d);
            out.push(0x50);
            out.push(0x49);
            out.push(0x46);
            push_paren_n(&mut out, *self);
            out.push(0x20);
            push_dr(&mut out, *self);
        } else if self.op == 15 {
            out.push(0x48);
            out.push(0x41);
            out.push(0x4c);
            out.push(0x54);
        }
        proof {
            assert(out@ =~= mnemonic_spec(*self));
        }
        out
    }
}

} // verus!
