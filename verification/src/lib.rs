use vstd::prelude::*;

pub mod control;
pub mod emulator;
pub mod errors;
pub mod execute;
pub mod hostio;
pub mod image;
pub mod instructions;
pub mod primitives;
pub mod render;
pub mod stack;
pub mod textio;

pub use emulator::TamEmulator;

verus! {

/// Number of words in each of the two stores: the full 16-bit address range.
pub const MEMORY_SIZE: usize = 65536;

/// Index of the highest addressable word.
pub const MAX_ADDR: u16 = 65535;

/// Number of words reserved for the primitive-routine block below `PT`.
pub const PRIMITIVE_BLOCK_SIZE: u16 = 28;

/// Code base register: index of the first word of the code segment.
pub const CB: usize = 0;

/// Code top register: count of loaded instructions.
pub const CT: usize = 1;

/// Primitive base register: the primitive block occupies `(PB, PT]`.
pub const PB: usize = 2;

/// Primitive top register.
pub const PT: usize = 3;

/// Stack base register: fixed at 0 in the data store.
pub const SB: usize = 4;

/// Stack top register: one past the last occupied stack slot.
pub const ST: usize = 5;

/// Heap base register.
pub const HB: usize = 6;

/// Heap top register: the heap occupies addresses above `HT`.
pub const HT: usize = 7;

/// Local base register: start of the active call frame.
pub const LB: usize = 8;

/// First static-link register; `L1` through `L6` follow consecutively.
pub const L1: usize = 9;

/// Second static-link register.
pub const L2: usize = 10;

/// Third static-link register.
pub const L3: usize = 11;

/// Fourth static-link register.
pub const L4: usize = 12;

/// Fifth static-link register.
pub const L5: usize = 13;

/// Sixth static-link register.
pub const L6: usize = 14;

/// Code pointer register: index of the instruction being executed.
pub const CP: usize = 15;

} // verus!
