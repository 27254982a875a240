//! Operations that take more than one call into the system.
use vstd::prelude::*;

verus! {

/// What an operation does next.
///
/// The library decides, the caller carries out: as long as an operation asks, the caller makes
/// the call that the question names and hands what it returned to the operation's next step.
#[derive(Debug)]
pub enum Next<S, T> {
    /// A call is to be made.
    Ask(S),
    /// The operation is over.
    Done(T),
}

} // verus!
