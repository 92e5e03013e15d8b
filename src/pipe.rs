use vstd::prelude::*;

use core::marker::PhantomData;

use crate::func::Func;

verus! {

/// Two stages in sequence: `first` is invoked on the input bundle, and its
/// output is the input bundle of `second`. A `Pipe` is itself a stage, so
/// pipes nest.
pub struct Pipe<A, B, Args> where A: Func<Args>, B: Func<A::Output> {
    pub first: A,
    pub second: B,
    pub marker: PhantomData<Args>,
}

/// The composite of `a` followed by `b`.
pub open spec fn compose<A, B, Args>(a: A, b: B) -> Pipe<A, B, Args> where
    A: Func<Args>,
    B: Func<A::Output>,
 {
    Pipe { first: a, second: b, marker: PhantomData }
}

impl<A, B, Args> Func<Args> for Pipe<A, B, Args> where A: Func<Args>, B: Func<A::Output> {
    type Output = B::Output;

    /// `first` accepts the input, and `second` accepts whatever `first` may produce.
    open spec fn pre(&self, args: Args) -> bool {
        &&& self.first.pre(args)
        &&& forall|mid: A::Output| #[trigger] self.first.post(args, mid) ==> self.second.pre(mid)
    }

    /// Some output of `first` on the input led `second` to produce `out`.
    open spec fn post(&self, args: Args, out: B::Output) -> bool {
        exists|mid: A::Output| #[trigger] self.first.post(args, mid) && self.second.post(mid, out)
    }

    fn call(&self, args: Args) -> (out: B::Output) {
        let mid = self.first.call(args);
        self.second.call(mid)
    }
}

/// A group of stages that folds, left to right, into one `Pipe`.
pub trait Handler<A, B, Args> where A: Func<Args>, B: Func<A::Output> {
    /// The input bundle of the first stage.
    type Input;

    /// The output of the last stage.
    type Output;

    /// The pipe that `pipe` builds from this group.
    spec fn folded(self) -> Pipe<A, B, Args>;

    fn pipe(self) -> (r: Pipe<A, B, Args>)
        ensures
            r == self.folded(),
    ;
}

impl<A, B, Args> Handler<A, B, Args> for (A, B) where A: Func<Args>, B: Func<A::Output> {
    type Input = Args;

    type Output = B::Output;

    open spec fn folded(self) -> Pipe<A, B, Args> {
        compose(self.0, self.1)
    }

    fn pipe(self) -> (r: Pipe<A, B, Args>) {
        crate::map(self.0, self.1)
    }
}

impl<A, B, C, Args> Handler<Pipe<A, B, Args>, C, Args> for (A, B, C) where
    A: Func<Args>,
    B: Func<A::Output>,
    C: Func<B::Output>,
 {
    type Input = Args;

    type Output = C::Output;

    open spec fn folded(self) -> Pipe<Pipe<A, B, Args>, C, Args> {
        compose(compose(self.0, self.1), self.2)
    }

    fn pipe(self) -> (r: Pipe<Pipe<A, B, Args>, C, Args>) {
        let m = (self.0, self.1).pipe();
        (m, self.2).pipe()
    }
}

impl<A, B, C, D, Args> Handler<Pipe<Pipe<A, B, Args>, C, Args>, D, Args> for (A, B, C, D) where
    A: Func<Args>,
    B: Func<A::Output>,
    C: Func<B::Output>,
    D: Func<C::Output>,
 {
    type Input = Args;

    type Output = D::Output;

    open spec fn folded(self) -> Pipe<Pipe<Pipe<A, B, Args>, C, Args>, D, Args> {
        compose(compose(compose(self.0, self.1), self.2), self.3)
    }

    fn pipe(self) -> (r: Pipe<Pipe<Pipe<A, B, Args>, C, Args>, D, Args>) {
        let m = (self.0, self.1).pipe();
        let m = (m, self.2).pipe();
        (m, self.3).pipe()
    }
}

impl<A, B, C, D, E, Args> Handler<Pipe<Pipe<Pipe<A, B, Args>, C, Args>, D, Args>, E, Args> for (A, B, C, D, E) where
    A: Func<Args>,
    B: Func<A::Output>,
    C: Func<B::Output>,
    D: Func<C::Output>,
    E: Func<D::Output>,
 {
    type Input = Args;

    type Output = E::Output;

    open spec fn folded(self) -> Pipe<Pipe<Pipe<Pipe<A, B, Args>, C, Args>, D, Args>, E, Args> {
        compose(compose(compose(compose(self.0, self.1), self.2), self.3), self.4)
    }

    fn pipe(self) -> (r: Pipe<Pipe<Pipe<Pipe<A, B, Args>, C, Args>, D, Args>, E, Args>) {
        let m = (self.0, self.1).pipe();
        let m = (m, self.2).pipe();
        let m = (m, self.3).pipe();
        (m, self.4).pipe()
    }
}

impl<A, B, C, D, E, F, Args> Handler<Pipe<Pipe<Pipe<Pipe<A, B, Args>, C, Args>, D, Args>, E, Args>, F, Args> for (A, B, C, D, E, F) where
    A: Func<Args>,
    B: Func<A::Output>,
    C: Func<B::Output>,
    D: Func<C::Output>,
    E: Func<D::Output>,
    F: Func<E::Output>,
 {
    type Input = Args;

    type Output = F::Output;

    open spec fn folded(self) -> Pipe<Pipe<Pipe<Pipe<Pipe<A, B, Args>, C, Args>, D, Args>, E, Args>, F, Args> {
        compose(compose(compose(compose(compose(self.0, self.1), self.2), self.3), self.4), self.5)
    }

    fn pipe(self) -> (r: Pipe<Pipe<Pipe<Pipe<Pipe<A, B, Args>, C, Args>, D, Args>, E, Args>, F, Args>) {
        let m = (self.0, self.1).pipe();
        let m = (m, self.2).pipe();
        let m = (m, self.3).pipe();
        let m = (m, self.4).pipe();
        (m, self.5).pipe()
    }
}

impl<A, B, C, D, E, F, G, Args> Handler<Pipe<Pipe<Pipe<Pipe<Pipe<A, B, Args>, C, Args>, D, Args>, E, Args>, F, Args>, G, Args> for (A, B, C, D, E, F, G) where
    A: Func<Args>,
    B: Func<A::Output>,
    C: Func<B::Output>,
    D: Func<C::Output>,
    E: Func<D::Output>,
    F: Func<E::Output>,
    G: Func<F::Output>,
 {
    type Input = Args;

    type Output = G::Output;

    open spec fn folded(self) -> Pipe<Pipe<Pipe<Pipe<Pipe<Pipe<A, B, Args>, C, Args>, D, Args>, E, Args>, F, Args>, G, Args> {
        compose(compose(compose(compose(compose(compose(self.0, self.1), self.2), self.3), self.4), self.5), self.6)
    }

    fn pipe(self) -> (r: Pipe<Pipe<Pipe<Pipe<Pipe<Pipe<A, B, Args>, C, Args>, D, Args>, E, Args>, F, Args>, G, Args>) {
        let m = (self.0, self.1).pipe();
        let m = (m, self.2).pipe();
        let m = (m, self.3).pipe();
        let m = (m, self.4).pipe();
        let m = (m, self.5).pipe();
        (m, self.6).pipe()
    }
}

impl<A, B, C, D, E, F, G, H, Args> Handler<Pipe<Pipe<Pipe<Pipe<Pipe<Pipe<A, B, Args>, C, Args>, D, Args>, E, Args>, F, Args>, G, Args>, H, Args> for (A, B, C, D, E, F, G, H) where
    A: Func<Args>,
    B: Func<A::Output>,
    C: Func<B::Output>,
    D: Func<C::Output>,
    E: Func<D::Output>,
    F: Func<E::Output>,
    G: Func<F::Output>,
    H: Func<G::Output>,
 {
    type Input = Args;

    type Output = H::Output;

    open spec fn folded(self) -> Pipe<Pipe<Pipe<Pipe<Pipe<Pipe<Pipe<A, B, Args>, C, Args>, D, Args>, E, Args>, F, Args>, G, Args>, H, Args> {
        compose(compose(compose(compose(compose(compose(compose(self.0, self.1), self.2), self.3), self.4), self.5), self.6), self.7)
    }

    fn pipe(self) -> (r: Pipe<Pipe<Pipe<Pipe<Pipe<Pipe<Pipe<A, B, Args>, C, Args>, D, Args>, E, Args>, F, Args>, G, Args>, H, Args>) {
        let m = (self.0, self.1).pipe();
        let m = (m, self.2).pipe();
        let m = (m, self.3).pipe();
        let m = (m, self.4).pipe();
        let m = (m, self.5).pipe();
        let m = (m, self.6).pipe();
        (m, self.7).pipe()
    }
}

} // verus!
