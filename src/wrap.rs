use vstd::prelude::*;

use core::marker::PhantomData;

use crate::func::Func;

verus! {

/// Three stages in sequence where each hand-off is wrapped in a one-element
/// bundle: `second` takes the whole output of `first` as its one parameter,
/// and `third` the whole output of `second`, whatever their shape.
pub struct Wrapped<A, B, C, Args> where
    A: Func<Args>,
    B: Func<(A::Output,)>,
    C: Func<(B::Output,)>,
 {
    pub first: A,
    pub second: B,
    pub third: C,
    pub marker: PhantomData<Args>,
}

impl<A, B, C, Args> Func<Args> for Wrapped<A, B, C, Args> where
    A: Func<Args>,
    B: Func<(A::Output,)>,
    C: Func<(B::Output,)>,
 {
    type Output = C::Output;

    /// Each stage accepts every bundle that the stages before it may hand on.
    open spec fn pre(&self, args: Args) -> bool {
        &&& self.first.pre(args)
        &&& forall|m1: A::Output| #[trigger]
            self.first.post(args, m1) ==> {
                &&& self.second.pre((m1,))
                &&& forall|m2: B::Output| #[trigger]
                    self.second.post((m1,), m2) ==> self.third.pre((m2,))
            }
    }

    /// Outputs `m1` of `first` and `m2` of `second`, each wrapped, led to `out`.
    open spec fn post(&self, args: Args, out: C::Output) -> bool {
        exists|m1: A::Output, m2: B::Output|
            #![trigger self.first.post(args, m1), self.second.post((m1,), m2)]
            self.first.post(args, m1) && self.second.post((m1,), m2) && self.third.post(
                (m2,),
                out,
            )
    }

    fn call(&self, args: Args) -> (out: C::Output) {
        let m1 = self.first.call(args);
        let m2 = self.second.call((m1,));
        self.third.call((m2,))
    }
}

/// Builds the wrapped composite of exactly three stages.
pub fn wrap<A, B, C, Args>(stages: (A, B, C)) -> (r: Wrapped<A, B, C, Args>) where
    A: Func<Args>,
    B: Func<(A::Output,)>,
    C: Func<(B::Output,)>,
    ensures
        r.first == stages.0,
        r.second == stages.1,
        r.third == stages.2,
{
    Wrapped { first: stages.0, second: stages.1, third: stages.2, marker: PhantomData }
}

} // verus!
