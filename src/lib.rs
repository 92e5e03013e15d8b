//! Composition of plain callables into pipelines.
//!
//! A stage takes its whole parameter list as one tuple (the argument bundle)
//! and produces an output. Callables of arity 0 to 16 are stages through the
//! adapters in `adapters`; two stages whose types line up compose into a
//! `Pipe`; tuples of 2 to 8 stages fold into one left-nested `Pipe`;
//! `wrap` chains three stages, handing each output on as one opaque value.
use vstd::prelude::*;

use core::marker::PhantomData;

use crate::pipe::compose;

pub mod func;
pub mod adapters;
pub mod pipe;
pub mod wrap;
pub mod laws;

pub use func::Func;
pub use pipe::{Handler, Pipe};
pub use wrap::{wrap, Wrapped};

verus! {

/// Builds the composite of `f` followed by `f2`.
pub fn map<F, F2, Args>(f: F, f2: F2) -> (r: Pipe<F, F2, Args>) where
    F: Func<Args>,
    F2: Func<F::Output>,
    ensures
        r == compose::<F, F2, Args>(f, f2),
{
    Pipe { first: f, second: f2, marker: PhantomData }
}

} // verus!
