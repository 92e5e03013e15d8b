use vstd::prelude::*;

verus! {

/// A stage: something that can be invoked with an argument bundle `I`.
///
/// `pre(args)` says when the stage may be invoked on `args`; `post(args, out)`
/// says which outputs an invocation on `args` may produce. A stage may be
/// nondeterministic, so `post` is a relation rather than a function.
///
/// For a closure or a function, `pre` and `post` are its own `requires` and
/// `ensures` on the bundle's elements; the adapter laws in `laws` state this
/// for each arity, and a proof about a composite of callables starts from them.
pub trait Func<I> {
    type Output;

    spec fn pre(&self, args: I) -> bool;

    spec fn post(&self, args: I, out: Self::Output) -> bool;

    fn call(&self, args: I) -> (out: Self::Output)
        requires
            self.pre(args),
        ensures
            self.post(args, out),
    ;
}

} // verus!
