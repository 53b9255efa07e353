use vstd::prelude::*;

verus! {

/// A slot address in a CSpace.
pub type CPtr = usize;

/// Why a kernel operation, or the broker's own bookkeeping, refused a request.
#[derive(Clone, Copy, Debug, PartialEq, Eq, Structural)]
pub enum SyscallError {
    /// An argument was out of range or malformed.
    InvalidArgument,
    /// A capability was missing, of the wrong kind, or unknown to the broker.
    InvalidCapability,
    /// The operation is not permitted (missing rights, policy refusal).
    IllegalOperation,
    /// A value lay outside the permitted range.
    RangeError,
    /// A value was not suitably aligned.
    AlignmentError,
    /// A CSpace lookup failed.
    FailedLookup,
    /// The message was shorter than the operation needs.
    TruncatedMessage,
    /// The destination slot is occupied.
    DeleteFirst,
    /// The object still has derived capabilities.
    RevokeFirst,
    /// No room left (in the kernel, or in the broker's grant table).
    NotEnoughMemory,
}

} // verus!
