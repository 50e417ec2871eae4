use vstd::prelude::*;

verus! {

/// The value of the 16-bit pattern `x` read as a two's-complement signed word.
pub open spec fn to_i16(x: u16) -> i16 {
    if x < 0x8000 {
        x as i16
    } else {
        (x - 0x10000) as i16
    }
}

/// The 16-bit two's-complement pattern of the signed word `x`.
pub open spec fn to_u16(x: i16) -> u16 {
    if x >= 0 {
        x as u16
    } else {
        (x + 0x10000) as u16
    }
}

/// Reading a pattern as a signed word and writing it back is the identity.
pub proof fn lemma_to_u16_to_i16(x: u16)
    ensures
        to_u16(to_i16(x)) == x,
{
}

/// Writing a signed word and reading it back is the identity.
pub proof fn lemma_to_i16_to_u16(x: i16)
    ensures
        to_i16(to_u16(x)) == x,
{
}

/// A single decoded instruction: the four fields of a 32-bit instruction word.
#[derive(Copy, Clone, Debug, PartialEq, Eq, Structural)]
pub struct TamInstruction {
    /// Opcode, from bits 31-28 of the instruction word.
    pub op: u8,
    /// Register selector, from bits 27-24.
    pub r: u8,
    /// Count/variant field, from bits 23-16.
    pub n: u8,
    /// Signed displacement, from bits 15-0, read as two's complement.
    pub d: i16,
}

/// The four fields extracted from an instruction word by fixed masks and shifts.
pub open spec fn spec_decode(word: u32) -> TamInstruction {
    TamInstruction {
        op: ((word >> 28) & 0xf) as u8,
        r: ((word >> 24) & 0xf) as u8,
        n: ((word >> 16) & 0xff) as u8,
        d: to_i16((word & 0xffff) as u16),
    }
}

/// The instruction word whose fields are those of `instr`; the opcode and
/// register fields contribute only their low four bits.
pub open spec fn spec_encode(instr: TamInstruction) -> u32 {
    (((instr.op & 0xf) as u32) << 28) | (((instr.r & 0xf) as u32) << 24) | ((instr.n as u32) << 16)
        | (to_u16(instr.d) as u32)
}

/// An instruction whose opcode and register fields fit their four-bit encoding.
pub open spec fn fields_fit(instr: TamInstruction) -> bool {
    instr.op < 16 && instr.r < 16
}

/// Decoding an instruction word and re-encoding its four fields reproduces the
/// original word: decoding loses nothing.
pub proof fn lemma_encode_decode(word: u32)
    ensures
        spec_encode(spec_decode(word)) == word,
{
    let d16 = (word & 0xffff) as u16;
    lemma_to_u16_to_i16(d16);
    assert(((((word >> 28) & 0xf) as u8 & 0xf) as u32) << 28 | ((((word >> 24) & 0xf) as u8
        & 0xf) as u32) << 24 | ((((word >> 16) & 0xff) as u8) as u32) << 16 | (((word
        & 0xffff) as u16) as u32) == word) by (bit_vector);
}

/// Encoding an instruction whose fields fit and decoding the word yields the
/// same four fields: the codec is a bijection between words and fitting fields.
pub proof fn lemma_decode_encode(instr: TamInstruction)
    requires
        fields_fit(instr),
    ensures
        spec_decode(spec_encode(instr)) == instr,
{
    let op = instr.op;
    let r = instr.r;
    let n = instr.n;
    let du = to_u16(instr.d);
    lemma_to_i16_to_u16(instr.d);
    let word = (((op & 0xf) as u32) << 28) | (((r & 0xf) as u32) << 24) | ((n as u32) << 16) | (
    du as u32);
    assert(op < 16 && r < 16 ==> ((word >> 28) & 0xf) as u8 == op && ((word >> 24) & 0xf) as u8 == r
        && ((word >> 16) & 0xff) as u8 == n && (word & 0xffff) as u16 == du) by (bit_vector)
        requires
            word == (((op & 0xf) as u32) << 28) | (((r & 0xf) as u32) << 24) | ((n as u32) << 16)
                | (du as u32),
    ;
}

impl TamInstruction {
    /// Builds an instruction directly from its four fields.
    pub fn make(op: u8, r: u8, n: u8, d: i16) -> (instr: TamInstruction)
        ensures
            instr == (TamInstruction { op, r, n, d }),
    {
        TamInstruction { op, r, n, d }
    }

    /// Extracts the four instruction fields from a 32-bit instruction word.
    /// Total and infallible: every word decodes to some instruction.
    pub fn decode(word: u32) -> (instr: TamInstruction)
        ensures
            instr == spec_decode(word),
    {
        assert((word >> 28) & 0xf <= 0xf && (word >> 24) & 0xf <= 0xf && (word >> 16) & 0xff
            <= 0xff && word & 0xffff <= 0xffff) by (bit_vector);
        let op = ((word >> 28) & 0xf) as u8;
        let r = ((word >> 24) & 0xf) as u8;
        let n = ((word >> 16) & 0xff) as u8;
        let dbits = (word & 0xffff) as u16;
        let d = Self::bits_to_word(dbits);
        TamInstruction { op, r, n, d }
    }

    /// Packs the four fields back into a 32-bit instruction word.
    pub fn encode(&self) -> (word: u32)
        ensures
            word == spec_encode(*self),
    {
        (((self.op & 0xf) as u32) << 28) | (((self.r & 0xf) as u32) << 24) | ((self.n as u32) << 16)
            | (Self::word_to_bits(self.d) as u32)
    }

    /// Reads a 16-bit pattern as a signed machine word.
    pub fn bits_to_word(bits: u16) -> (w: i16)
        ensures
            w == to_i16(bits),
    {
        let w = #[verifier::truncate] (bits as i16);
        proof {
            assert(bits as i16 == to_i16(bits)) by (bit_vector);
        }
        w
    }

    /// Writes a signed machine word as its 16-bit pattern.
    pub fn word_to_bits(w: i16) -> (bits: u16)
        ensures
            bits == to_u16(w),
    {
        let bits = #[verifier::truncate] (w as u16);
        proof {
            assert(w as u16 == to_u16(w)) by (bit_vector);
        }
        bits
    }
}

impl From<u32> for TamInstruction {
    /// Decodes an instruction word; the same codec as [`TamInstruction::decode`].
    fn from(value: u32) -> (instr: Self) {
        TamInstruction::decode(value)
    }
}

impl vstd::std_specs::convert::FromSpecImpl<u32> for TamInstruction {
    open spec fn obeys_from_spec() -> bool {
        true
    }

    open spec fn from_spec(value: u32) -> Self {
        spec_decode(value)
    }
}

} // verus!
