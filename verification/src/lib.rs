//! Compile-time partial evaluation of a functional mid-level intermediate
//! representation.
//!
//! The pass removes every function application that has to run at compile
//! time: it substitutes the arguments for the parameters of the called closure
//! and reduces the result once more in the scope of the caller.

pub mod depth_laws;
pub mod duplicate;
pub mod effect_laws;
pub mod error;
pub mod evaluate;
pub mod ir;
pub mod laws;
pub mod model;
pub mod reduced;
pub mod reduced_laws;
pub mod semantics;
pub mod sequences;
pub mod subst;
pub mod substitution;
pub mod substitution_laws;
