//! The ways in which evaluation can stop without a result.

use crate::ir::Effect;
use vstd::prelude::*;

verus! {

/// A violated assumption about the program. None of these is an error of the
/// program's author: each one shows a defect in an earlier pass, or a program
/// whose compile-time applications do not come to an end.
#[derive(Clone, Copy, Debug, PartialEq, Eq)]
pub enum EvalError {
    /// An effect operation was left in the program.
    EffectNotRemoved(Effect),
    /// A handler of this effect was left in the program.
    HandleNotRemoved(Effect),
    /// A closure that is applied at compile time has `expected` parameters and
    /// was given `found` arguments.
    ArityMismatch { expected: usize, found: usize },
    /// Applications at compile time were nested deeper than the given limit.
    DepthExceeded,
}

} // verus!
