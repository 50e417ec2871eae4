use vstd::prelude::*;

verus! {

/// The closed set of failure kinds a running machine can report.
#[derive(Copy, Clone, Debug, PartialEq, Eq, Structural)]
pub enum TamErrorKind {
    /// A host stream failed, or a loaded image or an input token was malformed.
    IOError,
    /// An address fell outside the valid, non-collision address space.
    AccessViolation,
    /// A pop was attempted on an empty stack.
    StackUnderflow,
    /// A push would have expanded the stack into the heap.
    StackOverflow,
    /// The decoded opcode has no defined semantics.
    UnknownOpcode(u8),
    /// No more precise kind applies.
    UnknownError,
}

/// An error value: a failure kind, the code pointer of the faulting
/// instruction when it is known, and an optional free-text detail.
#[derive(Clone, Debug, PartialEq, Eq)]
pub struct TamError {
    pub kind: TamErrorKind,
    pub address: Option<u16>,
    pub message: Option<String>,
}

impl Default for TamError {
    fn default() -> (r: Self)
        ensures
            r.kind == TamErrorKind::UnknownError,
            r.address.is_none(),
            r.message.is_none(),
    {
        TamError { kind: TamErrorKind::UnknownError, address: None, message: None }
    }
}

/// Shorthand for a result whose error type is [`TamError`].
pub type TamResult<T> = Result<T, TamError>;

} // verus!
