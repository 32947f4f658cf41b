use vstd::prelude::*;

verus! {

/// The fatal conditions a run can hit. Each is detected synchronously at the
/// point of violation and ends the current run; none is recoverable.
#[derive(Clone, Copy, Debug, PartialEq, Eq, Structural)]
pub enum VmError {
    /// The top 4 bits of a fetched word match no defined instruction tag;
    /// carries the offending tag.
    InvalidOpcode(u8),
    /// A push was attempted on a stack already holding its maximum number of
    /// elements.
    StackOverflow,
    /// A pop or peek was attempted on an empty stack.
    StackUnderflow,
}

} // verus!
