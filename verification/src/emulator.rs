use vstd::prelude::*;

use crate::errors::{TamError, TamErrorKind, TamResult};
use crate::instructions::{spec_decode, TamInstruction};
use crate::{CP, CT, HB, HT, MAX_ADDR, MEMORY_SIZE, PB, PRIMITIVE_BLOCK_SIZE, PT, ST};

verus! {

/// The mathematical state of a machine: both stores, the register file, and
/// whether tracing is enabled.
pub ghost struct MachineView {
    pub code: Seq<u32>,
    pub data: Seq<i16>,
    pub regs: Seq<u16>,
    pub trace: bool,
}

impl MachineView {
    /// Both stores span the full address space and there are 16 registers.
    pub open spec fn wf(self) -> bool {
        &&& self.code.len() == MEMORY_SIZE
        &&& self.data.len() == MEMORY_SIZE
        &&& self.regs.len() == 16
    }

    /// The value of register `r`.
    pub open spec fn reg(self, r: int) -> u16 {
        self.regs[r]
    }

    /// The current stack top: one past the last occupied stack slot.
    pub open spec fn st(self) -> u16 {
        self.regs[ST as int]
    }

    /// The current heap top: the heap occupies the addresses above it.
    pub open spec fn ht(self) -> u16 {
        self.regs[HT as int]
    }

    /// The current code pointer.
    pub open spec fn cp(self) -> u16 {
        self.regs[CP as int]
    }

    /// Address `a` lies in the collision gap `[ST, HT]` separating stack and
    /// heap; such an address is not a valid target for any load or store.
    pub open spec fn in_gap(self, a: int) -> bool {
        self.st() <= a <= self.ht()
    }

    /// Every address of the `n`-word run starting at `a` is inside the data
    /// store and outside the collision gap.
    pub open spec fn run_valid(self, a: int, n: int) -> bool {
        &&& a + n <= MEMORY_SIZE
        &&& forall|i: int| 0 <= i < n ==> !(#[trigger] self.in_gap(a + i))
    }
}

/// An error of the given kind carrying the code pointer of the faulting
/// instruction.
pub open spec fn err_at(kind: TamErrorKind, cp: u16) -> TamError {
    TamError { kind, address: Some(cp), message: None }
}

/// An execution engine for the machine: a code store of encoded instructions,
/// a data store of machine words shared by stack and heap, and 16 registers.
pub struct TamEmulator {
    /// The code store: one 32-bit encoded instruction per address.
    pub code_store: Vec<u32>,
    /// The data store: one 16-bit signed machine word per address.
    pub data_store: Vec<i16>,
    /// The 16 machine registers, indexed by the `CB` .. `CP` constants.
    pub registers: Vec<u16>,
    /// Whether each executed instruction is rendered to the output stream.
    pub trace: bool,
}

impl View for TamEmulator {
    type V = MachineView;

    open spec fn view(&self) -> MachineView {
        MachineView {
            code: self.code_store@,
            data: self.data_store@,
            regs: self.registers@,
            trace: self.trace,
        }
    }
}

/// A vector of `len` copies of `value`.
fn filled<T: Copy>(len: usize, value: T) -> (v: Vec<T>)
    ensures
        v@.len() == len,
        forall|i: int| 0 <= i < len ==> v@[i] == value,
{
    let mut v: Vec<T> = Vec::new();
    while v.len() < len
        invariant
            v@.len() <= len,
            forall|i: int| 0 <= i < v@.len() ==> v@[i] == value,
        decreases len - v@.len(),
    {
        v.push(value);
    }
    v
}

impl TamEmulator {
    /// The machine is well formed: full-size stores and a full register file.
    pub open spec fn wf(&self) -> bool {
        self@.wf()
    }

    /// Creates a machine with zeroed stores and default registers: `HB`, `HT`
    /// and `PT` at the top of the address space, `PB` one primitive block
    /// below `PT`, and every other register zero.
    pub fn new(trace: bool) -> (emu: TamEmulator)
        ensures
            emu.wf(),
            emu@.trace == trace,
            forall|i: int| 0 <= i < MEMORY_SIZE ==> emu@.code[i] == 0 && emu@.data[i] == 0,
            emu@.reg(PT as int) == MAX_ADDR,
            emu@.reg(PB as int) == MAX_ADDR - PRIMITIVE_BLOCK_SIZE,
            emu@.reg(HB as int) == MAX_ADDR,
            emu@.reg(HT as int) == MAX_ADDR,
            forall|i: int|
                0 <= i < 16 && i != PT && i != PB && i != HB && i != HT ==> emu@.reg(i) == 0,
    {
        let mut emu = TamEmulator {
            code_store: filled(MEMORY_SIZE, 0u32),
            data_store: filled(MEMORY_SIZE, 0i16),
            registers: filled(16, 0u16),
            trace,
        };
        emu.reset_registers();
        emu
    }

    /// Resets the execution registers to their defaults: `HB`, `HT` and `PT`
    /// to the top of the address space, `PB` to `PT - 28`, and `CP` to zero.
    /// `CT` and the stores are untouched, so loaded code survives a reset.
    pub fn reset_registers(&mut self)
        requires
            old(self).wf(),
        ensures
            final(self).wf(),
            final(self)@.code == old(self)@.code,
            final(self)@.data == old(self)@.data,
            final(self)@.trace == old(self)@.trace,
            final(self)@.reg(PT as int) == MAX_ADDR,
            final(self)@.reg(PB as int) == MAX_ADDR - PRIMITIVE_BLOCK_SIZE,
            final(self)@.reg(HB as int) == MAX_ADDR,
            final(self)@.reg(HT as int) == MAX_ADDR,
            final(self)@.reg(CP as int) == 0,
            forall|i: int|
                0 <= i < 16 && i != PT && i != PB && i != HB && i != HT && i != CP
                    ==> final(self)@.reg(i) == old(self)@.reg(i),
    {
        self.registers.set(PT, MAX_ADDR);
        self.registers.set(PB, MAX_ADDR - PRIMITIVE_BLOCK_SIZE);
        self.registers.set(HB, MAX_ADDR);
        self.registers.set(HT, MAX_ADDR);
        self.registers.set(CP, 0);
    }

    /// Installs a program image as the whole code segment: clears the code
    /// store, copies the image to addresses `0 .. code.len()`, and records the
    /// instruction count in `CT`. Rejects an image longer than `PB` words,
    /// since code and the primitive block must not overlap.
    pub fn set_code(&mut self, code: &[u32]) -> (r: TamResult<()>)
        requires
            old(self).wf(),
        ensures
            final(self).wf(),
            code@.len() > old(self)@.reg(PB as int) ==> {
                &&& r matches Err(e)
                &&& e.kind == TamErrorKind::IOError
                &&& e.address is None
                &&& e.message is Some
                &&& *final(self) == *old(self)
            },
            code@.len() <= old(self)@.reg(PB as int) ==> {
                &&& r is Ok
                &&& forall|i: int| 0 <= i < code@.len() ==> final(self)@.code[i] == code@[i]
                &&& forall|i: int|
                    code@.len() <= i < MEMORY_SIZE ==> final(self)@.code[i] == 0
                &&& final(self)@.regs == old(self)@.regs.update(
                    CT as int,
                    code@.len() as u16,
                )
                &&& final(self)@.data == old(self)@.data
                &&& final(self)@.trace == old(self)@.trace
            },
    {
        if code.len() > self.registers[PB] as usize {
            return Err(
                TamError {
                    kind: TamErrorKind::IOError,
                    address: None,
                    message: Some("Provided code was too large for memory".to_owned()),
                },
            );
        }
        self.code_store = filled(MEMORY_SIZE, 0u32);
        let mut i: usize = 0;
        while i < code.len()
            invariant
                self@.data == old(self)@.data,
                self@.regs == old(self)@.regs,
                self@.trace == old(self)@.trace,
                self@.code.len() == MEMORY_SIZE,
                i <= code@.len() <= MEMORY_SIZE,
                forall|j: int| 0 <= j < i ==> self@.code[j] == code@[j],
                forall|j: int| i <= j < MEMORY_SIZE ==> self@.code[j] == 0,
            decreases code@.len() - i,
        {
            self.code_store.set(i, code[i]);
            i += 1;
        }
        self.registers.set(CT, code.len() as u16);
        Ok(())
    }

    /// Retrieves and decodes the instruction `CP` points at, without moving
    /// `CP`. Fails with an access violation carrying the `CP` value whenever
    /// `CP` points at or beyond the end of the loaded code, whatever the code
    /// store holds there.
    pub fn fetch_decode(&mut self) -> (r: TamResult<TamInstruction>)
        requires
            old(self).wf(),
        ensures
            *final(self) == *old(self),
            old(self)@.cp() >= old(self)@.reg(CT as int) ==> r == Err::<TamInstruction, TamError>(
                err_at(TamErrorKind::AccessViolation, old(self)@.cp()),
            ),
            old(self)@.cp() < old(self)@.reg(CT as int) ==> r == Ok::<TamInstruction, TamError>(
                spec_decode(old(self)@.code[old(self)@.cp() as int]),
            ),
    {
        if self.registers[CP] >= self.registers[CT] {
            return Err(
                TamError {
                    kind: TamErrorKind::AccessViolation,
                    address: Some(self.registers[CP]),
                    message: None,
                },
            );
        }
        let word = self.code_store[self.registers[CP] as usize];
        Ok(TamInstruction::decode(word))
    }
}

} // verus!
