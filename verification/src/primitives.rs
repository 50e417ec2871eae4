use vstd::prelude::*;

use crate::emulator::{err_at, MachineView, TamEmulator};
use crate::errors::{TamError, TamErrorKind, TamResult};
use crate::execute::{bump_cp, wrap16};
use crate::hostio::{peek_byte, read_byte, write_bytes};
use crate::instructions::{to_i16, to_u16, TamInstruction};
use crate::stack::{can_pop, can_push, pop_model, pop_value, push_model};
use crate::textio::{eof_flag, eol_flag, is_digit_byte, is_whitespace_byte, line_end_reached, parse_int, render_i16, render_line_break, word_low_byte, ParseFault};
use crate::{CP, HT, ST};
use vstd::wrapping::i16_specs;

verus! {

/// The stack-top word.
pub open spec fn top(m: MachineView) -> i16 {
    m.data[m.st() - 1]
}

/// The word just below the stack top.
pub open spec fn under(m: MachineView) -> i16 {
    m.data[m.st() - 2]
}

/// The machine word for a truth value.
pub open spec fn bool_word(b: bool) -> i16 {
    if b {
        1
    } else {
        0
    }
}

/// The state with the heap top moved to `ht`.
pub open spec fn with_ht(m: MachineView, ht: u16) -> MachineView {
    MachineView { regs: m.regs.update(HT as int, ht), ..m }
}

/// A primitive that consumes one operand and pushes `v` in its place: the
/// result and post-state, with the code pointer advanced on success.
pub open spec fn prim_pop1_push1(
    pre: MachineView,
    post: MachineView,
    r: TamResult<()>,
    v: i16,
) -> bool {
    if !can_pop(pre) {
        post == pre && r == Err::<(), TamError>(err_at(TamErrorKind::StackUnderflow, pre.cp()))
    } else {
        let m1 = pop_model(pre);
        if !can_push(m1) {
            post == m1 && r == Err::<(), TamError>(err_at(TamErrorKind::StackOverflow, pre.cp()))
        } else {
            post == bump_cp(push_model(m1, v)) && r == Ok::<(), TamError>(())
        }
    }
}

/// A primitive that consumes two operands and pushes `v` in their place: the
/// result and post-state, with the code pointer advanced on success.
pub open spec fn prim_pop2_push1(
    pre: MachineView,
    post: MachineView,
    r: TamResult<()>,
    v: i16,
) -> bool {
    if !can_pop(pre) {
        post == pre && r == Err::<(), TamError>(err_at(TamErrorKind::StackUnderflow, pre.cp()))
    } else if !can_pop(pop_model(pre)) {
        post == pop_model(pre) && r == Err::<(), TamError>(
            err_at(TamErrorKind::StackUnderflow, pre.cp()),
        )
    } else {
        let m2 = pop_model(pop_model(pre));
        if !can_push(m2) {
            post == m2 && r == Err::<(), TamError>(err_at(TamErrorKind::StackOverflow, pre.cp()))
        } else {
            post == bump_cp(push_model(m2, v)) && r == Ok::<(), TamError>(())
        }
    }
}

/// A division-like primitive: consumes two operands and pushes the checked
/// result `q`; a `None` result (zero divisor or overflowing quotient) fails
/// without a more precise kind.
pub open spec fn prim_divmod(
    pre: MachineView,
    post: MachineView,
    r: TamResult<()>,
    q: Option<i16>,
) -> bool {
    if !can_pop(pre) {
        post == pre && r == Err::<(), TamError>(err_at(TamErrorKind::StackUnderflow, pre.cp()))
    } else if !can_pop(pop_model(pre)) {
        post == pop_model(pre) && r == Err::<(), TamError>(
            err_at(TamErrorKind::StackUnderflow, pre.cp()),
        )
    } else {
        let m2 = pop_model(pop_model(pre));
        match q {
            None => post == m2 && r == Err::<(), TamError>(
                err_at(TamErrorKind::UnknownError, pre.cp()),
            ),
            Some(v) => if !can_push(m2) {
                post == m2 && r == Err::<(), TamError>(
                    err_at(TamErrorKind::StackOverflow, pre.cp()),
                )
            } else {
                post == bump_cp(push_model(m2, v)) && r == Ok::<(), TamError>(())
            },
        }
    }
}

/// A primitive that consumes one operand and writes to the output stream:
/// a host stream failure is an input/output error at the current instruction.
pub open spec fn prim_write1(pre: MachineView, post: MachineView, r: TamResult<()>) -> bool {
    if !can_pop(pre) {
        post == pre && r == Err::<(), TamError>(err_at(TamErrorKind::StackUnderflow, pre.cp()))
    } else {
        match r {
            Ok(_) => post == bump_cp(pop_model(pre)),
            Err(e) => e.kind == TamErrorKind::IOError && e.address == Some(pre.cp())
                && e.message is Some && post == pop_model(pre),
        }
    }
}

/// A primitive that touches only the streams: the machine state is unchanged
/// but for the advancing code pointer.
pub open spec fn prim_stream_only(pre: MachineView, post: MachineView, r: TamResult<()>) -> bool {
    match r {
        Ok(_) => post == bump_cp(pre),
        Err(e) => e.kind == TamErrorKind::IOError && e.address == Some(pre.cp())
            && e.message is Some && post == pre,
    }
}

/// A primitive that pushes a truth word about the input stream.
pub open spec fn prim_push_flag(pre: MachineView, post: MachineView, r: TamResult<()>) -> bool {
    if !can_push(pre) {
        post == pre && r == Err::<(), TamError>(err_at(TamErrorKind::StackOverflow, pre.cp()))
    } else {
        match r {
            Ok(_) => (post.data[pre.st() as int] == 0 || post.data[pre.st() as int] == 1) && post
                == bump_cp(push_model(pre, post.data[pre.st() as int])),
            Err(e) => e.kind == TamErrorKind::IOError && e.address == Some(pre.cp())
                && e.message is Some && post == pre,
        }
    }
}

/// A primitive that pops a destination address, validates it against the
/// collision gap, and stores one value read from the input stream there; the
/// value lies in `[lo, hi]`.
pub open spec fn prim_read_store(
    pre: MachineView,
    post: MachineView,
    r: TamResult<()>,
    lo: int,
    hi: int,
) -> bool {
    if !can_pop(pre) {
        post == pre && r == Err::<(), TamError>(err_at(TamErrorKind::StackUnderflow, pre.cp()))
    } else {
        let m1 = pop_model(pre);
        let a = to_u16(pop_value(pre)) as int;
        if m1.in_gap(a) {
            post == m1 && r == Err::<(), TamError>(err_at(TamErrorKind::AccessViolation, pre.cp()))
        } else {
            match r {
                Ok(_) => lo <= post.data[a] <= hi && post == bump_cp(
                    MachineView { data: m1.data.update(a, post.data[a]), ..m1 },
                ),
                Err(e) => e.kind == TamErrorKind::IOError && e.address == Some(pre.cp())
                    && e.message is Some && post == m1,
            }
        }
    }
}

/// The heap-allocation primitive: pops a block size, moves the heap top down
/// by it, and pushes the address of the lowest allocated word.
pub open spec fn prim_new(pre: MachineView, post: MachineView, r: TamResult<()>) -> bool {
    if !can_pop(pre) {
        post == pre && r == Err::<(), TamError>(err_at(TamErrorKind::StackUnderflow, pre.cp()))
    } else {
        let m1 = pop_model(pre);
        let s = pop_value(pre);
        if s < 0 {
            post == m1 && r == Err::<(), TamError>(err_at(TamErrorKind::AccessViolation, pre.cp()))
        } else {
            let nht = m1.ht() - s;
            if m1.st() >= nht {
                post == m1 && r == Err::<(), TamError>(
                    err_at(TamErrorKind::StackOverflow, pre.cp()),
                )
            } else {
                post == bump_cp(push_model(with_ht(m1, nht as u16), to_i16(wrap16(nht + 1)))) && r
                    == Ok::<(), TamError>(())
            }
        }
    }
}

/// The heap-release primitive: pops a block size and moves the heap top up by
/// it, staying inside the address space.
pub open spec fn prim_dispose(pre: MachineView, post: MachineView, r: TamResult<()>) -> bool {
    if !can_pop(pre) {
        post == pre && r == Err::<(), TamError>(err_at(TamErrorKind::StackUnderflow, pre.cp()))
    } else {
        let m1 = pop_model(pre);
        let s = pop_value(pre);
        if s < 0 {
            post == m1 && r == Err::<(), TamError>(err_at(TamErrorKind::AccessViolation, pre.cp()))
        } else {
            let nht = m1.ht() + s;
            if nht > 0xffff {
                post == m1 && r == Err::<(), TamError>(
                    err_at(TamErrorKind::AccessViolation, pre.cp()),
                )
            } else {
                post == bump_cp(with_ht(m1, nht as u16)) && r == Ok::<(), TamError>(())
            }
        }
    }
}

/// The effect of the primitive routine at displacement `id` in the primitive
/// block. The numbering is the pinned convention with the compiler that emits
/// the bytecode; a displacement with no routine is an access violation.
pub open spec fn prim_post(
    pre: MachineView,
    id: u16,
    post: MachineView,
    r: TamResult<()>,
) -> bool {
    if id == 1 {
        post == bump_cp(pre) && r == Ok::<(), TamError>(())
    } else if id == 2 {
        prim_pop1_push1(pre, post, r, bool_word(top(pre) == 0))
    } else if id == 3 {
        prim_pop2_push1(pre, post, r, bool_word(top(pre) != 0 && under(pre) != 0))
    } else if id == 4 {
        prim_pop2_push1(pre, post, r, bool_word(top(pre) != 0 || under(pre) != 0))
    } else if id == 5 {
        prim_pop1_push1(pre, post, r, i16_specs::wrapping_add(top(pre), 1))
    } else if id == 6 {
        prim_pop1_push1(pre, post, r, i16_specs::wrapping_sub(top(pre), 1))
    } else if id == 7 {
        prim_pop1_push1(pre, post, r, i16_specs::wrapping_sub(0, top(pre)))
    } else if id == 8 {
        prim_pop2_push1(pre, post, r, i16_specs::wrapping_add(top(pre), under(pre)))
    } else if id == 9 {
        prim_pop2_push1(pre, post, r, i16_specs::wrapping_sub(top(pre), under(pre)))
    } else if id == 10 {
        prim_pop2_push1(pre, post, r, i16_specs::wrapping_mul(top(pre), under(pre)))
    } else if id == 11 {
        prim_divmod(pre, post, r, top(pre).checked_div(under(pre)))
    } else if id == 12 {
        prim_divmod(pre, post, r, top(pre).checked_rem(under(pre)))
    } else if id == 13 {
        prim_pop2_push1(pre, post, r, bool_word(top(pre) < under(pre)))
    } else if id == 14 {
        prim_pop2_push1(pre, post, r, bool_word(top(pre) <= under(pre)))
    } else if id == 15 {
        prim_pop2_push1(pre, post, r, bool_word(top(pre) >= under(pre)))
    } else if id == 16 {
        prim_pop2_push1(pre, post, r, bool_word(top(pre) > under(pre)))
    } else if id == 17 {
        prim_pop2_push1(pre, post, r, bool_word(top(pre) == under(pre)))
    } else if id == 18 {
        prim_pop2_push1(pre, post, r, bool_word(top(pre) != under(pre)))
    } else if id == 19 || id == 20 {
        prim_push_flag(pre, post, r)
    } else if id == 21 {
        prim_read_store(pre, post, r, 0, 255)
    } else if id == 22 {
        prim_write1(pre, post, r)
    } else if id == 23 {
        prim_stream_only(pre, post, r)
    } else if id == 24 {
        prim_stream_only(pre, post, r)
    } else if id == 25 {
        prim_read_store(pre, post, r, i16::MIN as int, i16::MAX as int)
    } else if id == 26 {
        prim_write1(pre, post, r)
    } else if id == 27 {
        prim_new(pre, post, r)
    } else if id == 28 {
        prim_dispose(pre, post, r)
    } else {
        post == pre && r == Err::<(), TamError>(err_at(TamErrorKind::AccessViolation, pre.cp()))
    }
}

/// No primitive routine mutates the segment registers `CB`, `CT`, `PB`, `PT`:
/// primitives move only the stack top, the heap top, the code pointer and the
/// data store.
pub proof fn lemma_prim_preserves_segment_registers(
    pre: MachineView,
    id: u16,
    post: MachineView,
    r: TamResult<()>,
)
    requires
        pre.wf(),
        prim_post(pre, id, post, r),
    ensures
        post.regs.len() == 16,
        post.regs[crate::CB as int] == pre.regs[crate::CB as int],
        post.regs[crate::CT as int] == pre.regs[crate::CT as int],
        post.regs[crate::PB as int] == pre.regs[crate::PB as int],
        post.regs[crate::PT as int] == pre.regs[crate::PT as int],
{
    if id == 1 {
    } else if 2 <= id <= 18 {
    } else if 19 <= id <= 26 {
    } else if id == 27 {
    } else if id == 28 {
    } else {
    }
}

impl TamEmulator {
    /// Advances the code pointer past the current instruction.
    pub(crate) fn bump(&mut self)
        requires
            old(self).wf(),
        ensures
            final(self).wf(),
            final(self)@ == bump_cp(old(self)@),
    {
        let cp = self.registers[CP];
        self.registers.set(CP, cp.wrapping_add(1));
        proof {
            if cp == 0xffff {
                assert(wrap16(cp + 1) == 0);
            } else {
                assert(wrap16(cp + 1) == cp + 1);
            }
            assert(self@.regs =~= bump_cp(old(self)@).regs);
        }
    }

    /// Pushes a primitive's result and advances the code pointer.
    fn finish_push(&mut self, v: i16) -> (r: TamResult<()>)
        requires
            old(self).wf(),
        ensures
            final(self).wf(),
            !can_push(old(self)@) ==> r == Err::<(), TamError>(
                err_at(TamErrorKind::StackOverflow, old(self)@.cp()),
            ) && *final(self) == *old(self),
            can_push(old(self)@) ==> r == Ok::<(), TamError>(()) && final(self)@ == bump_cp(
                push_model(old(self)@, v),
            ),
    {
        match self.push_data(v) {
            Err(e) => Err(e),
            Ok(_) => {
                self.bump();
                Ok(())
            },
        }
    }

    /// An input/output error at the current instruction, carrying the host
    /// error's text.
    pub(crate) fn io_err(&self, message: String) -> (e: TamError)
        requires
            self.wf(),
        ensures
            e.kind == TamErrorKind::IOError,
            e.address == Some(self@.cp()),
            e.message == Some(message),
    {
        TamError { kind: TamErrorKind::IOError, address: Some(self.registers[CP]), message: Some(message) }
    }

    /// Invokes the built-in primitive routine at displacement `id` in the
    /// primitive block, per [`prim_post`]. Operands come off the stack top;
    /// input and output primitives use the given host streams.
    pub fn exec_primitive<R: std::io::BufRead, W: std::io::Write>(
        &mut self,
        id: u16,
        reader: &mut R,
        writer: &mut W,
    ) -> (r: TamResult<()>)
        requires
            old(self).wf(),
        ensures
            final(self).wf(),
            prim_post(old(self)@, id, final(self)@, r),
    {
        if id == 1 {
            self.bump();
            Ok(())
        } else if id == 2 {
            let x = self.pop_data()?;
            self.finish_push(if x == 0 { 1 } else { 0 })
        } else if id >= 3 && id <= 4 {
            let x = self.pop_data()?;
            let y = self.pop_data()?;
            let v = if id == 3 {
                if x != 0 && y != 0 { 1i16 } else { 0i16 }
            } else {
                if x != 0 || y != 0 { 1i16 } else { 0i16 }
            };
            self.finish_push(v)
        } else if id == 5 {
            let x = self.pop_data()?;
            self.finish_push(x.wrapping_add(1))
        } else if id == 6 {
            let x = self.pop_data()?;
            self.finish_push(x.wrapping_sub(1))
        } else if id == 7 {
            let x = self.pop_data()?;
            self.finish_push(0i16.wrapping_sub(x))
        } else if id == 8 {
            let x = self.pop_data()?;
            let y = self.pop_data()?;
            self.finish_push(x.wrapping_add(y))
        } else if id == 9 {
            let x = self.pop_data()?;
            let y = self.pop_data()?;
            self.finish_push(x.wrapping_sub(y))
        } else if id == 10 {
            let x = self.pop_data()?;
            let y = self.pop_data()?;
            self.finish_push(x.wrapping_mul(y))
        } else if id >= 11 && id <= 12 {
            let x = self.pop_data()?;
            let y = self.pop_data()?;
            let q = if id == 11 {
                x.checked_div(y)
            } else {
                x.checked_rem(y)
            };
            match q {
                None => Err(self.err_here(TamErrorKind::UnknownError)),
                Some(v) => self.finish_push(v),
            }
        } else if id >= 13 && id <= 18 {
            let x = self.pop_data()?;
            let y = self.pop_data()?;
            let b = if id == 13 {
                x < y
            } else if id == 14 {
                x <= y
            } else if id == 15 {
                x >= y
            } else if id == 16 {
                x > y
            } else if id == 17 {
                x == y
            } else {
                x != y
            };
            self.finish_push(if b { 1 } else { 0 })
        } else if id >= 19 && id <= 20 {
            if self.registers[ST] >= self.registers[HT] {
                return Err(self.err_here(TamErrorKind::StackOverflow));
            }
            match peek_byte(reader) {
                Err(m) => Err(self.io_err(m)),
                Ok(b) => {
                    let flag: i16 = if id == 19 {
                        eol_flag(b)
                    } else {
                        eof_flag(b)
                    };
                    match self.push_data(flag) {
                        Err(e) => Err(e),
                        Ok(_) => {
                            self.bump();
                            Ok(())
                        },
                    }
                },
            }
        } else if id == 21 {
            let a = TamInstruction::word_to_bits(self.pop_data()?);
            if a >= self.registers[ST] && a <= self.registers[HT] {
                return Err(self.err_here(TamErrorKind::AccessViolation));
            }
            match read_byte(reader) {
                Err(m) => Err(self.io_err(m)),
                Ok((count, b)) => {
                    if count == 0 {
                        return Err(self.io_err("unexpected end of input".to_owned()));
                    }
                    self.data_store.set(a as usize, b as i16);
                    self.bump();
                    Ok(())
                },
            }
        } else if id == 22 {
            let x = self.pop_data()?;
            let mut buf: Vec<u8> = Vec::new();
            buf.push(word_low_byte(x));
            match write_bytes(writer, buf.as_slice()) {
                Err(m) => Err(self.io_err(m)),
                Ok(_) => {
                    self.bump();
                    Ok(())
                },
            }
        } else if id == 23 {
            match Self::skip_line(reader) {
                Err(m) => Err(self.io_err(m)),
                Ok(_) => {
                    self.bump();
                    Ok(())
                },
            }
        } else if id == 24 {
            let buf = render_line_break();
            match write_bytes(writer, buf.as_slice()) {
                Err(m) => Err(self.io_err(m)),
                Ok(_) => {
                    self.bump();
                    Ok(())
                },
            }
        } else if id == 25 {
            let a = TamInstruction::word_to_bits(self.pop_data()?);
            if a >= self.registers[ST] && a <= self.registers[HT] {
                return Err(self.err_here(TamErrorKind::AccessViolation));
            }
            match Self::read_token(reader) {
                Err(m) => Err(self.io_err(m)),
                Ok(tok) => match parse_int(tok.as_slice()) {
                    Err(ParseFault::Malformed) => Err(
                        self.io_err("malformed integer".to_owned()),
                    ),
                    Err(ParseFault::OutOfRange) => Err(
                        self.io_err("integer out of range".to_owned()),
                    ),
                    Ok(v) => {
                        self.data_store.set(a as usize, v);
                        self.bump();
                        Ok(())
                    },
                },
            }
        } else if id == 26 {
            let x = self.pop_data()?;
            let bytes = render_i16(x);
            match write_bytes(writer, bytes.as_slice()) {
                Err(m) => Err(self.io_err(m)),
                Ok(_) => {
                    self.bump();
                    Ok(())
                },
            }
        } else if id == 27 {
            let s = self.pop_data()?;
            if s < 0 {
                return Err(self.err_here(TamErrorKind::AccessViolation));
            }
            let ht = self.registers[HT];
            let st = self.registers[ST];
            if (ht as i32) - (s as i32) <= st as i32 {
                return Err(self.err_here(TamErrorKind::StackOverflow));
            }
            let nht = ht - (s as u16);
            self.registers.set(HT, nht);
            let addr_bits = nht.wrapping_add(1);
            proof {
                if nht == 0xffff {
                    assert(wrap16(nht + 1) == 0);
                } else {
                    assert(wrap16(nht + 1) == nht + 1);
                }
            }
            match self.push_data(TamInstruction::bits_to_word(addr_bits)) {
                Err(e) => Err(e),
                Ok(_) => {
                    self.bump();
                    Ok(())
                },
            }
        } else if id == 28 {
            let s = self.pop_data()?;
            if s < 0 {
                return Err(self.err_here(TamErrorKind::AccessViolation));
            }
            let ht = self.registers[HT];
            if (ht as u32) + (s as u32) > 0xffff {
                return Err(self.err_here(TamErrorKind::AccessViolation));
            }
            self.registers.set(HT, ht + (s as u16));
            self.bump();
            Ok(())
        } else {
            Err(self.err_here(TamErrorKind::AccessViolation))
        }
    }

    /// Consumes input up to and including the next line break, stopping per
    /// [`crate::textio::line_ended`]; input at end is already at a break. A
    /// line longer than the address space is malformed.
    fn skip_line<R: std::io::BufRead>(reader: &mut R) -> (r: Result<(), String>) {
        let mut budget: usize = 65536;
        while budget > 0
            invariant
                budget <= 65536,
            decreases budget,
        {
            match read_byte(reader) {
                Err(m) => {
                    return Err(m);
                },
                Ok((count, b)) => {
                    if line_end_reached(count, b) {
                        return Ok(());
                    }
                },
            }
            budget -= 1;
        }
        Err("line too long".to_owned())
    }

    /// Reads one whitespace-delimited token from the input stream: leading
    /// whitespace is consumed, then an optional minus sign and the digits
    /// after it are collected, stopping before the first byte past them.
    /// What the token means is decided by [`parse_int`] alone. Input at end
    /// where a token is owed, a host stream failure, and a token longer than
    /// the address space are errors of the reader's own.
    fn read_token<R: std::io::BufRead>(reader: &mut R) -> (r: Result<Vec<u8>, String>) {
        let mut budget: usize = 65536;
        while budget > 0
            invariant
                budget <= 65536,
            decreases budget,
        {
            match peek_byte(reader) {
                Err(m) => {
                    return Err(m);
                },
                Ok(None) => {
                    return Err("unexpected end of input".to_owned());
                },
                Ok(Some(b)) => {
                    if is_whitespace_byte(b) {
                        match read_byte(reader) {
                            Err(m) => {
                                return Err(m);
                            },
                            Ok(_) => {},
                        }
                    } else {
                        break ;
                    }
                },
            }
            budget -= 1;
        }
        if budget == 0 {
            return Err("input token too long".to_owned());
        }
        let mut tok: Vec<u8> = Vec::new();
        match peek_byte(reader) {
            Err(m) => {
                return Err(m);
            },
            Ok(None) => {
                return Err("unexpected end of input".to_owned());
            },
            Ok(Some(b)) => {
                if b == 0x2d {
                    tok.push(b);
                    match read_byte(reader) {
                        Err(m) => {
                            return Err(m);
                        },
                        Ok(_) => {},
                    }
                }
            },
        }
        while budget > 0
            invariant
                budget <= 65536,
            decreases budget,
        {
            match peek_byte(reader) {
                Err(m) => {
                    return Err(m);
                },
                Ok(None) => {
                    break ;
                },
                Ok(Some(b)) => {
                    if is_digit_byte(b) {
                        tok.push(b);
                        match read_byte(reader) {
                            Err(m) => {
                                return Err(m);
                            },
                            Ok(_) => {},
                        }
                    } else {
                        break ;
                    }
                },
            }
            budget -= 1;
        }
        if budget == 0 {
            return Err("input token too long".to_owned());
        }
        Ok(tok)
    }
}

} // verus!
