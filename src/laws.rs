use vstd::prelude::*;

use crate::func::Func;
use crate::pipe::{compose, Handler, Pipe};

verus! {

/// A callable without parameters, invoked with `()`, produces exactly what
/// the callable itself produces: no wrapping.
pub proof fn nullary_adapter_is_identity<F, R>(f: F) where F: Fn() -> R
    ensures
        <F as Func<()>>::pre(&f, ()) == f.requires(()),
        forall|out: R| #[trigger] <F as Func<()>>::post(&f, (), out) == f.ensures((), out),
{
}

/// A callable of one parameter, invoked with `(t,)`, produces `(r,)` exactly
/// when the callable on `t` produces `r`.
pub proof fn unary_adapter_wraps<F, T, R>(f: F) where F: Fn(T) -> R
    ensures
        forall|args: (T,)| #[trigger] <F as Func<(T,)>>::pre(&f, args) == f.requires(args),
        forall|args: (T,), out: (R,)| #[trigger]
            <F as Func<(T,)>>::post(&f, args, out) == f.ensures(args, out.0),
{
}

/// Composing `a` with `b` and then with `c` behaves as composing `a` with the
/// composite of `b` and `c`: both accept the same inputs and produce the same
/// outputs.
pub proof fn compose_associative<A, B, C, Args>(a: A, b: B, c: C, args: Args, out: C::Output) where
    A: Func<Args>,
    B: Func<A::Output>,
    C: Func<B::Output>,
    ensures
        compose::<Pipe<A, B, Args>, C, Args>(compose(a, b), c).pre(args) == compose::<
            A,
            Pipe<B, C, A::Output>,
            Args,
        >(a, compose(b, c)).pre(args),
        compose::<Pipe<A, B, Args>, C, Args>(compose(a, b), c).post(args, out) == compose::<
            A,
            Pipe<B, C, A::Output>,
            Args,
        >(a, compose(b, c)).post(args, out),
{
    let ab = compose::<A, B, Args>(a, b);
    let bc = compose::<B, C, A::Output>(b, c);
    let left = compose::<Pipe<A, B, Args>, C, Args>(ab, c);
    let right = compose::<A, Pipe<B, C, A::Output>, Args>(a, bc);
    if left.pre(args) {
        assert forall|m1: A::Output| #[trigger] a.post(args, m1) implies bc.pre(m1) by {
            assert forall|m2: B::Output| #[trigger] b.post(m1, m2) implies c.pre(m2) by {
                assert(ab.post(args, m2));
            }
        }
    }
    if right.pre(args) {
        assert forall|m2: B::Output| #[trigger] ab.post(args, m2) implies c.pre(m2) by {
            let m1 = choose|m1: A::Output| a.post(args, m1) && b.post(m1, m2);
            assert(bc.pre(m1));
        }
    }
    if left.post(args, out) {
        let m2 = choose|m2: B::Output| ab.post(args, m2) && c.post(m2, out);
        let m1 = choose|m1: A::Output| a.post(args, m1) && b.post(m1, m2);
        assert(bc.first.post(m1, m2) && bc.second.post(m2, out));
        assert(bc.post(m1, out));
    }
    if right.post(args, out) {
        let m1 = choose|m1: A::Output| a.post(args, m1) && bc.post(m1, out);
        let m2 = choose|m2: B::Output| b.post(m1, m2) && c.post(m2, out);
        assert(ab.post(args, m2));
    }
}


/// A callable of `n >= 2` parameters, invoked with the bundle of its `n`
/// arguments, produces exactly what the callable produces on them, unwrapped,
/// even when that result is itself a tuple. Stated here for two parameters;
/// the laws below state it for three to sixteen.
pub proof fn adapter_spreads_2<F, R, T1, T2>(f: F) where F: Fn(T1, T2) -> R
    ensures
        forall|args: (T1, T2)| #[trigger] <F as Func<(T1, T2)>>::pre(&f, args) == f.requires(args),
        forall|args: (T1, T2), out: R| #[trigger]
            <F as Func<(T1, T2)>>::post(&f, args, out) == f.ensures(args, out),
{
}

/// The spreading law for callables of 3 parameters.
pub proof fn adapter_spreads_3<F, R, T1, T2, T3>(f: F) where F: Fn(T1, T2, T3) -> R
    ensures
        forall|args: (T1, T2, T3)| #[trigger] <F as Func<(T1, T2, T3)>>::pre(&f, args) == f.requires(args),
        forall|args: (T1, T2, T3), out: R| #[trigger]
            <F as Func<(T1, T2, T3)>>::post(&f, args, out) == f.ensures(args, out),
{
}

/// The spreading law for callables of 4 parameters.
pub proof fn adapter_spreads_4<F, R, T1, T2, T3, T4>(f: F) where F: Fn(T1, T2, T3, T4) -> R
    ensures
        forall|args: (T1, T2, T3, T4)| #[trigger] <F as Func<(T1, T2, T3, T4)>>::pre(&f, args) == f.requires(args),
        forall|args: (T1, T2, T3, T4), out: R| #[trigger]
            <F as Func<(T1, T2, T3, T4)>>::post(&f, args, out) == f.ensures(args, out),
{
}

/// The spreading law for callables of 5 parameters.
pub proof fn adapter_spreads_5<F, R, T1, T2, T3, T4, T5>(f: F) where F: Fn(T1, T2, T3, T4, T5) -> R
    ensures
        forall|args: (T1, T2, T3, T4, T5)| #[trigger] <F as Func<(T1, T2, T3, T4, T5)>>::pre(&f, args) == f.requires(args),
        forall|args: (T1, T2, T3, T4, T5), out: R| #[trigger]
            <F as Func<(T1, T2, T3, T4, T5)>>::post(&f, args, out) == f.ensures(args, out),
{
}

/// The spreading law for callables of 6 parameters.
pub proof fn adapter_spreads_6<F, R, T1, T2, T3, T4, T5, T6>(f: F) where F: Fn(T1, T2, T3, T4, T5, T6) -> R
    ensures
        forall|args: (T1, T2, T3, T4, T5, T6)| #[trigger] <F as Func<(T1, T2, T3, T4, T5, T6)>>::pre(&f, args) == f.requires(args),
        forall|args: (T1, T2, T3, T4, T5, T6), out: R| #[trigger]
            <F as Func<(T1, T2, T3, T4, T5, T6)>>::post(&f, args, out) == f.ensures(args, out),
{
}

/// The spreading law for callables of 7 parameters.
pub proof fn adapter_spreads_7<F, R, T1, T2, T3, T4, T5, T6, T7>(f: F) where F: Fn(T1, T2, T3, T4, T5, T6, T7) -> R
    ensures
        forall|args: (T1, T2, T3, T4, T5, T6, T7)| #[trigger] <F as Func<(T1, T2, T3, T4, T5, T6, T7)>>::pre(&f, args) == f.requires(args),
        forall|args: (T1, T2, T3, T4, T5, T6, T7), out: R| #[trigger]
            <F as Func<(T1, T2, T3, T4, T5, T6, T7)>>::post(&f, args, out) == f.ensures(args, out),
{
}

/// The spreading law for callables of 8 parameters.
pub proof fn adapter_spreads_8<F, R, T1, T2, T3, T4, T5, T6, T7, T8>(f: F) where F: Fn(T1, T2, T3, T4, T5, T6, T7, T8) -> R
    ensures
        forall|args: (T1, T2, T3, T4, T5, T6, T7, T8)| #[trigger] <F as Func<(T1, T2, T3, T4, T5, T6, T7, T8)>>::pre(&f, args) == f.requires(args),
        forall|args: (T1, T2, T3, T4, T5, T6, T7, T8), out: R| #[trigger]
            <F as Func<(T1, T2, T3, T4, T5, T6, T7, T8)>>::post(&f, args, out) == f.ensures(args, out),
{
}

/// The spreading law for callables of 9 parameters.
pub proof fn adapter_spreads_9<F, R, T1, T2, T3, T4, T5, T6, T7, T8, T9>(f: F) where F: Fn(T1, T2, T3, T4, T5, T6, T7, T8, T9) -> R
    ensures
        forall|args: (T1, T2, T3, T4, T5, T6, T7, T8, T9)| #[trigger] <F as Func<(T1, T2, T3, T4, T5, T6, T7, T8, T9)>>::pre(&f, args) == f.requires(args),
        forall|args: (T1, T2, T3, T4, T5, T6, T7, T8, T9), out: R| #[trigger]
            <F as Func<(T1, T2, T3, T4, T5, T6, T7, T8, T9)>>::post(&f, args, out) == f.ensures(args, out),
{
}

/// The spreading law for callables of 10 parameters.
pub proof fn adapter_spreads_10<F, R, T1, T2, T3, T4, T5, T6, T7, T8, T9, T10>(f: F) where F: Fn(T1, T2, T3, T4, T5, T6, T7, T8, T9, T10) -> R
    ensures
        forall|args: (T1, T2, T3, T4, T5, T6, T7, T8, T9, T10)| #[trigger] <F as Func<(T1, T2, T3, T4, T5, T6, T7, T8, T9, T10)>>::pre(&f, args) == f.requires(args),
        forall|args: (T1, T2, T3, T4, T5, T6, T7, T8, T9, T10), out: R| #[trigger]
            <F as Func<(T1, T2, T3, T4, T5, T6, T7, T8, T9, T10)>>::post(&f, args, out) == f.ensures(args, out),
{
}

/// The spreading law for callables of 11 parameters.
pub proof fn adapter_spreads_11<F, R, T1, T2, T3, T4, T5, T6, T7, T8, T9, T10, T11>(f: F) where F: Fn(T1, T2, T3, T4, T5, T6, T7, T8, T9, T10, T11) -> R
    ensures
        forall|args: (T1, T2, T3, T4, T5, T6, T7, T8, T9, T10, T11)| #[trigger] <F as Func<(T1, T2, T3, T4, T5, T6, T7, T8, T9, T10, T11)>>::pre(&f, args) == f.requires(args),
        forall|args: (T1, T2, T3, T4, T5, T6, T7, T8, T9, T10, T11), out: R| #[trigger]
            <F as Func<(T1, T2, T3, T4, T5, T6, T7, T8, T9, T10, T11)>>::post(&f, args, out) == f.ensures(args, out),
{
}

/// The spreading law for callables of 12 parameters.
pub proof fn adapter_spreads_12<F, R, T1, T2, T3, T4, T5, T6, T7, T8, T9, T10, T11, T12>(f: F) where F: Fn(T1, T2, T3, T4, T5, T6, T7, T8, T9, T10, T11, T12) -> R
    ensures
        forall|args: (T1, T2, T3, T4, T5, T6, T7, T8, T9, T10, T11, T12)| #[trigger] <F as Func<(T1, T2, T3, T4, T5, T6, T7, T8, T9, T10, T11, T12)>>::pre(&f, args) == f.requires(args),
        forall|args: (T1, T2, T3, T4, T5, T6, T7, T8, T9, T10, T11, T12), out: R| #[trigger]
            <F as Func<(T1, T2, T3, T4, T5, T6, T7, T8, T9, T10, T11, T12)>>::post(&f, args, out) == f.ensures(args, out),
{
}

/// The spreading law for callables of 13 parameters.
pub proof fn adapter_spreads_13<F, R, T1, T2, T3, T4, T5, T6, T7, T8, T9, T10, T11, T12, T13>(f: F) where F: Fn(T1, T2, T3, T4, T5, T6, T7, T8, T9, T10, T11, T12, T13) -> R
    ensures
        forall|args: (T1, T2, T3, T4, T5, T6, T7, T8, T9, T10, T11, T12, T13)| #[trigger] <F as Func<(T1, T2, T3, T4, T5, T6, T7, T8, T9, T10, T11, T12, T13)>>::pre(&f, args) == f.requires(args),
        forall|args: (T1, T2, T3, T4, T5, T6, T7, T8, T9, T10, T11, T12, T13), out: R| #[trigger]
            <F as Func<(T1, T2, T3, T4, T5, T6, T7, T8, T9, T10, T11, T12, T13)>>::post(&f, args, out) == f.ensures(args, out),
{
}

/// The spreading law for callables of 14 parameters.
pub proof fn adapter_spreads_14<F, R, T1, T2, T3, T4, T5, T6, T7, T8, T9, T10, T11, T12, T13, T14>(f: F) where F: Fn(T1, T2, T3, T4, T5, T6, T7, T8, T9, T10, T11, T12, T13, T14) -> R
    ensures
        forall|args: (T1, T2, T3, T4, T5, T6, T7, T8, T9, T10, T11, T12, T13, T14)| #[trigger] <F as Func<(T1, T2, T3, T4, T5, T6, T7, T8, T9, T10, T11, T12, T13, T14)>>::pre(&f, args) == f.requires(args),
        forall|args: (T1, T2, T3, T4, T5, T6, T7, T8, T9, T10, T11, T12, T13, T14), out: R| #[trigger]
            <F as Func<(T1, T2, T3, T4, T5, T6, T7, T8, T9, T10, T11, T12, T13, T14)>>::post(&f, args, out) == f.ensures(args, out),
{
}

/// The spreading law for callables of 15 parameters.
pub proof fn adapter_spreads_15<F, R, T1, T2, T3, T4, T5, T6, T7, T8, T9, T10, T11, T12, T13, T14, T15>(f: F) where F: Fn(T1, T2, T3, T4, T5, T6, T7, T8, T9, T10, T11, T12, T13, T14, T15) -> R
    ensures
        forall|args: (T1, T2, T3, T4, T5, T6, T7, T8, T9, T10, T11, T12, T13, T14, T15)| #[trigger] <F as Func<(T1, T2, T3, T4, T5, T6, T7, T8, T9, T10, T11, T12, T13, T14, T15)>>::pre(&f, args) == f.requires(args),
        forall|args: (T1, T2, T3, T4, T5, T6, T7, T8, T9, T10, T11, T12, T13, T14, T15), out: R| #[trigger]
            <F as Func<(T1, T2, T3, T4, T5, T6, T7, T8, T9, T10, T11, T12, T13, T14, T15)>>::post(&f, args, out) == f.ensures(args, out),
{
}

/// The spreading law for callables of 16 parameters.
pub proof fn adapter_spreads_16<F, R, T1, T2, T3, T4, T5, T6, T7, T8, T9, T10, T11, T12, T13, T14, T15, T16>(f: F) where F: Fn(T1, T2, T3, T4, T5, T6, T7, T8, T9, T10, T11, T12, T13, T14, T15, T16) -> R
    ensures
        forall|args: (T1, T2, T3, T4, T5, T6, T7, T8, T9, T10, T11, T12, T13, T14, T15, T16)| #[trigger] <F as Func<(T1, T2, T3, T4, T5, T6, T7, T8, T9, T10, T11, T12, T13, T14, T15, T16)>>::pre(&f, args) == f.requires(args),
        forall|args: (T1, T2, T3, T4, T5, T6, T7, T8, T9, T10, T11, T12, T13, T14, T15, T16), out: R| #[trigger]
            <F as Func<(T1, T2, T3, T4, T5, T6, T7, T8, T9, T10, T11, T12, T13, T14, T15, T16)>>::post(&f, args, out) == f.ensures(args, out),
{
}

/// Appending the one-parameter identity to a two-stage chain whose output is a
/// one-element bundle changes nothing: both chains accept the same inputs and
/// produce the same outputs.
pub proof fn identity_stage_changes_nothing<A, B, I, T, Args>(
    stages: (A, B),
    id: I,
    args: Args,
    out: (T,),
) where A: Func<Args>, B: Func<A::Output, Output = (T,)>, I: Fn(T) -> T
    requires
        forall|t: T| #[trigger] id.requires((t,)),
        forall|t: T, r: T| #[trigger] id.ensures((t,), r) <==> r == t,
    ensures
        <(A, B, I) as Handler<Pipe<A, B, Args>, I, Args>>::folded((stages.0, stages.1, id)).pre(
            args,
        ) == <(A, B) as Handler<A, B, Args>>::folded(stages).pre(args),
        <(A, B, I) as Handler<Pipe<A, B, Args>, I, Args>>::folded((stages.0, stages.1, id)).post(
            args,
            out,
        ) == <(A, B) as Handler<A, B, Args>>::folded(stages).post(args, out),
{
    let short = compose::<A, B, Args>(stages.0, stages.1);
    let long = compose::<Pipe<A, B, Args>, I, Args>(short, id);
    if short.pre(args) {
        assert forall|m: (T,)| #[trigger] short.post(args, m) implies <I as Func<(T,)>>::pre(
            &id,
            m,
        ) by {
            assert(id.requires((m.0,)));
        }
    }
    if long.post(args, out) {
        let m = choose|m: (T,)| short.post(args, m) && <I as Func<(T,)>>::post(&id, m, out);
        assert(id.ensures((m.0,), out.0));
        assert(m == out);
    }
    if short.post(args, out) {
        assert(id.ensures((out.0,), out.0));
        assert(long.first.post(args, out) && long.second.post(out, out));
    }
}

/// A chain built from stages `s1, ..., sk` produces `out` exactly when `s1`
/// on the input, then each next stage on the output of the one before it,
/// produces `out`: every stage runs once, left to right. Stated here for two
/// stages; the laws below state it for three to eight.
pub proof fn chain_2_runs_in_order<A, B, Args>(stages: (A, B), args: Args, out: B::Output) where
    A: Func<Args>,
    B: Func<A::Output>,
    ensures
        <(A, B) as Handler<A, B, Args>>::folded(stages).post(args, out)
            <==> exists|m1: A::Output|
                #![trigger stages.0.post(args, m1)]
                stages.0.post(args, m1)
                    && stages.1.post(m1, out),
{
    let p1 = compose::<A, B, Args>(stages.0, stages.1);
    if p1.post(args, out) {
        let m1 = choose|m: A::Output| stages.0.post(args, m) && stages.1.post(m, out);
        assert(stages.0.post(args, m1) && stages.1.post(m1, out));
    }
    if exists|m1: A::Output| stages.0.post(args, m1) && stages.1.post(m1, out) {
        let m1 = choose|m1: A::Output| stages.0.post(args, m1) && stages.1.post(m1, out);
        assert(p1.first.post(args, m1) && p1.second.post(m1, out));
        assert(p1.post(args, out));
    }
}

/// The in-order law for chains of 3 stages.
pub proof fn chain_3_runs_in_order<A, B, C, Args>(stages: (A, B, C), args: Args, out: C::Output) where
    A: Func<Args>,
    B: Func<A::Output>,
    C: Func<B::Output>,
    ensures
        <(A, B, C) as Handler<Pipe<A, B, Args>, C, Args>>::folded(stages).post(args, out)
            <==> exists|m1: A::Output, m2: B::Output|
                #![trigger stages.0.post(args, m1), stages.1.post(m1, m2)]
                stages.0.post(args, m1)
                    && stages.1.post(m1, m2)
                    && stages.2.post(m2, out),
{
    let p1 = compose::<A, B, Args>(stages.0, stages.1);
    let p2 = compose::<Pipe<A, B, Args>, C, Args>(p1, stages.2);
    if p2.post(args, out) {
        let m2 = choose|m: B::Output| p1.post(args, m) && stages.2.post(m, out);
        let m1 = choose|m: A::Output| stages.0.post(args, m) && stages.1.post(m, m2);
        assert(stages.0.post(args, m1) && stages.1.post(m1, m2) && stages.2.post(m2, out));
    }
    if exists|m1: A::Output, m2: B::Output| stages.0.post(args, m1) && stages.1.post(m1, m2) && stages.2.post(m2, out) {
        let (m1, m2) = choose|m1: A::Output, m2: B::Output| stages.0.post(args, m1) && stages.1.post(m1, m2) && stages.2.post(m2, out);
        assert(p1.first.post(args, m1) && p1.second.post(m1, m2));
        assert(p1.post(args, m2));
        assert(p2.first.post(args, m2) && p2.second.post(m2, out));
        assert(p2.post(args, out));
    }
}

/// The in-order law for chains of 4 stages.
pub proof fn chain_4_runs_in_order<A, B, C, D, Args>(stages: (A, B, C, D), args: Args, out: D::Output) where
    A: Func<Args>,
    B: Func<A::Output>,
    C: Func<B::Output>,
    D: Func<C::Output>,
    ensures
        <(A, B, C, D) as Handler<Pipe<Pipe<A, B, Args>, C, Args>, D, Args>>::folded(stages).post(args, out)
            <==> exists|m1: A::Output, m2: B::Output, m3: C::Output|
                #![trigger stages.0.post(args, m1), stages.1.post(m1, m2), stages.2.post(m2, m3)]
                stages.0.post(args, m1)
                    && stages.1.post(m1, m2)
                    && stages.2.post(m2, m3)
                    && stages.3.post(m3, out),
{
    let p1 = compose::<A, B, Args>(stages.0, stages.1);
    let p2 = compose::<Pipe<A, B, Args>, C, Args>(p1, stages.2);
    let p3 = compose::<Pipe<Pipe<A, B, Args>, C, Args>, D, Args>(p2, stages.3);
    if p3.post(args, out) {
        let m3 = choose|m: C::Output| p2.post(args, m) && stages.3.post(m, out);
        let m2 = choose|m: B::Output| p1.post(args, m) && stages.2.post(m, m3);
        let m1 = choose|m: A::Output| stages.0.post(args, m) && stages.1.post(m, m2);
        assert(stages.0.post(args, m1) && stages.1.post(m1, m2) && stages.2.post(m2, m3) && stages.3.post(m3, out));
    }
    if exists|m1: A::Output, m2: B::Output, m3: C::Output| stages.0.post(args, m1) && stages.1.post(m1, m2) && stages.2.post(m2, m3) && stages.3.post(m3, out) {
        let (m1, m2, m3) = choose|m1: A::Output, m2: B::Output, m3: C::Output| stages.0.post(args, m1) && stages.1.post(m1, m2) && stages.2.post(m2, m3) && stages.3.post(m3, out);
        assert(p1.first.post(args, m1) && p1.second.post(m1, m2));
        assert(p1.post(args, m2));
        assert(p2.first.post(args, m2) && p2.second.post(m2, m3));
        assert(p2.post(args, m3));
        assert(p3.first.post(args, m3) && p3.second.post(m3, out));
        assert(p3.post(args, out));
    }
}

/// The in-order law for chains of 5 stages.
pub proof fn chain_5_runs_in_order<A, B, C, D, E, Args>(stages: (A, B, C, D, E), args: Args, out: E::Output) where
    A: Func<Args>,
    B: Func<A::Output>,
    C: Func<B::Output>,
    D: Func<C::Output>,
    E: Func<D::Output>,
    ensures
        <(A, B, C, D, E) as Handler<Pipe<Pipe<Pipe<A, B, Args>, C, Args>, D, Args>, E, Args>>::folded(stages).post(args, out)
            <==> exists|m1: A::Output, m2: B::Output, m3: C::Output, m4: D::Output|
                #![trigger stages.0.post(args, m1), stages.1.post(m1, m2), stages.2.post(m2, m3), stages.3.post(m3, m4)]
                stages.0.post(args, m1)
                    && stages.1.post(m1, m2)
                    && stages.2.post(m2, m3)
                    && stages.3.post(m3, m4)
                    && stages.4.post(m4, out),
{
    let p1 = compose::<A, B, Args>(stages.0, stages.1);
    let p2 = compose::<Pipe<A, B, Args>, C, Args>(p1, stages.2);
    let p3 = compose::<Pipe<Pipe<A, B, Args>, C, Args>, D, Args>(p2, stages.3);
    let p4 = compose::<Pipe<Pipe<Pipe<A, B, Args>, C, Args>, D, Args>, E, Args>(p3, stages.4);
    if p4.post(args, out) {
        let m4 = choose|m: D::Output| p3.post(args, m) && stages.4.post(m, out);
        let m3 = choose|m: C::Output| p2.post(args, m) && stages.3.post(m, m4);
        let m2 = choose|m: B::Output| p1.post(args, m) && stages.2.post(m, m3);
        let m1 = choose|m: A::Output| stages.0.post(args, m) && stages.1.post(m, m2);
        assert(stages.0.post(args, m1) && stages.1.post(m1, m2) && stages.2.post(m2, m3) && stages.3.post(m3, m4) && stages.4.post(m4, out));
    }
    if exists|m1: A::Output, m2: B::Output, m3: C::Output, m4: D::Output| stages.0.post(args, m1) && stages.1.post(m1, m2) && stages.2.post(m2, m3) && stages.3.post(m3, m4) && stages.4.post(m4, out) {
        let (m1, m2, m3, m4) = choose|m1: A::Output, m2: B::Output, m3: C::Output, m4: D::Output| stages.0.post(args, m1) && stages.1.post(m1, m2) && stages.2.post(m2, m3) && stages.3.post(m3, m4) && stages.4.post(m4, out);
        assert(p1.first.post(args, m1) && p1.second.post(m1, m2));
        assert(p1.post(args, m2));
        assert(p2.first.post(args, m2) && p2.second.post(m2, m3));
        assert(p2.post(args, m3));
        assert(p3.first.post(args, m3) && p3.second.post(m3, m4));
        assert(p3.post(args, m4));
        assert(p4.first.post(args, m4) && p4.second.post(m4, out));
        assert(p4.post(args, out));
    }
}

/// The in-order law for chains of 6 stages.
pub proof fn chain_6_runs_in_order<A, B, C, D, E, F, Args>(stages: (A, B, C, D, E, F), args: Args, out: F::Output) where
    A: Func<Args>,
    B: Func<A::Output>,
    C: Func<B::Output>,
    D: Func<C::Output>,
    E: Func<D::Output>,
    F: Func<E::Output>,
    ensures
        <(A, B, C, D, E, F) as Handler<Pipe<Pipe<Pipe<Pipe<A, B, Args>, C, Args>, D, Args>, E, Args>, F, Args>>::folded(stages).post(args, out)
            <==> exists|m1: A::Output, m2: B::Output, m3: C::Output, m4: D::Output, m5: E::Output|
                #![trigger stages.0.post(args, m1), stages.1.post(m1, m2), stages.2.post(m2, m3), stages.3.post(m3, m4), stages.4.post(m4, m5)]
                stages.0.post(args, m1)
                    && stages.1.post(m1, m2)
                    && stages.2.post(m2, m3)
                    && stages.3.post(m3, m4)
                    && stages.4.post(m4, m5)
                    && stages.5.post(m5, out),
{
    let p1 = compose::<A, B, Args>(stages.0, stages.1);
    let p2 = compose::<Pipe<A, B, Args>, C, Args>(p1, stages.2);
    let p3 = compose::<Pipe<Pipe<A, B, Args>, C, Args>, D, Args>(p2, stages.3);
    let p4 = compose::<Pipe<Pipe<Pipe<A, B, Args>, C, Args>, D, Args>, E, Args>(p3, stages.4);
    let p5 = compose::<Pipe<Pipe<Pipe<Pipe<A, B, Args>, C, Args>, D, Args>, E, Args>, F, Args>(p4, stages.5);
    if p5.post(args, out) {
        let m5 = choose|m: E::Output| p4.post(args, m) && stages.5.post(m, out);
        let m4 = choose|m: D::Output| p3.post(args, m) && stages.4.post(m, m5);
        let m3 = choose|m: C::Output| p2.post(args, m) && stages.3.post(m, m4);
        let m2 = choose|m: B::Output| p1.post(args, m) && stages.2.post(m, m3);
        let m1 = choose|m: A::Output| stages.0.post(args, m) && stages.1.post(m, m2);
        assert(stages.0.post(args, m1) && stages.1.post(m1, m2) && stages.2.post(m2, m3) && stages.3.post(m3, m4) && stages.4.post(m4, m5) && stages.5.post(m5, out));
    }
    if exists|m1: A::Output, m2: B::Output, m3: C::Output, m4: D::Output, m5: E::Output| stages.0.post(args, m1) && stages.1.post(m1, m2) && stages.2.post(m2, m3) && stages.3.post(m3, m4) && stages.4.post(m4, m5) && stages.5.post(m5, out) {
        let (m1, m2, m3, m4, m5) = choose|m1: A::Output, m2: B::Output, m3: C::Output, m4: D::Output, m5: E::Output| stages.0.post(args, m1) && stages.1.post(m1, m2) && stages.2.post(m2, m3) && stages.3.post(m3, m4) && stages.4.post(m4, m5) && stages.5.post(m5, out);
        assert(p1.first.post(args, m1) && p1.second.post(m1, m2));
        assert(p1.post(args, m2));
        assert(p2.first.post(args, m2) && p2.second.post(m2, m3));
        assert(p2.post(args, m3));
        assert(p3.first.post(args, m3) && p3.second.post(m3, m4));
        assert(p3.post(args, m4));
        assert(p4.first.post(args, m4) && p4.second.post(m4, m5));
        assert(p4.post(args, m5));
        assert(p5.first.post(args, m5) && p5.second.post(m5, out));
        assert(p5.post(args, out));
    }
}

/// The in-order law for chains of 7 stages.
pub proof fn chain_7_runs_in_order<A, B, C, D, E, F, G, Args>(stages: (A, B, C, D, E, F, G), args: Args, out: G::Output) where
    A: Func<Args>,
    B: Func<A::Output>,
    C: Func<B::Output>,
    D: Func<C::Output>,
    E: Func<D::Output>,
    F: Func<E::Output>,
    G: Func<F::Output>,
    ensures
        <(A, B, C, D, E, F, G) as Handler<Pipe<Pipe<Pipe<Pipe<Pipe<A, B, Args>, C, Args>, D, Args>, E, Args>, F, Args>, G, Args>>::folded(stages).post(args, out)
            <==> exists|m1: A::Output, m2: B::Output, m3: C::Output, m4: D::Output, m5: E::Output, m6: F::Output|
                #![trigger stages.0.post(args, m1), stages.1.post(m1, m2), stages.2.post(m2, m3), stages.3.post(m3, m4), stages.4.post(m4, m5), stages.5.post(m5, m6)]
                stages.0.post(args, m1)
                    && stages.1.post(m1, m2)
                    && stages.2.post(m2, m3)
                    && stages.3.post(m3, m4)
                    && stages.4.post(m4, m5)
                    && stages.5.post(m5, m6)
                    && stages.6.post(m6, out),
{
    let p1 = compose::<A, B, Args>(stages.0, stages.1);
    let p2 = compose::<Pipe<A, B, Args>, C, Args>(p1, stages.2);
    let p3 = compose::<Pipe<Pipe<A, B, Args>, C, Args>, D, Args>(p2, stages.3);
    let p4 = compose::<Pipe<Pipe<Pipe<A, B, Args>, C, Args>, D, Args>, E, Args>(p3, stages.4);
    let p5 = compose::<Pipe<Pipe<Pipe<Pipe<A, B, Args>, C, Args>, D, Args>, E, Args>, F, Args>(p4, stages.5);
    let p6 = compose::<Pipe<Pipe<Pipe<Pipe<Pipe<A, B, Args>, C, Args>, D, Args>, E, Args>, F, Args>, G, Args>(p5, stages.6);
    if p6.post(args, out) {
        let m6 = choose|m: F::Output| p5.post(args, m) && stages.6.post(m, out);
        let m5 = choose|m: E::Output| p4.post(args, m) && stages.5.post(m, m6);
        let m4 = choose|m: D::Output| p3.post(args, m) && stages.4.post(m, m5);
        let m3 = choose|m: C::Output| p2.post(args, m) && stages.3.post(m, m4);
        let m2 = choose|m: B::Output| p1.post(args, m) && stages.2.post(m, m3);
        let m1 = choose|m: A::Output| stages.0.post(args, m) && stages.1.post(m, m2);
        assert(stages.0.post(args, m1) && stages.1.post(m1, m2) && stages.2.post(m2, m3) && stages.3.post(m3, m4) && stages.4.post(m4, m5) && stages.5.post(m5, m6) && stages.6.post(m6, out));
    }
    if exists|m1: A::Output, m2: B::Output, m3: C::Output, m4: D::Output, m5: E::Output, m6: F::Output| stages.0.post(args, m1) && stages.1.post(m1, m2) && stages.2.post(m2, m3) && stages.3.post(m3, m4) && stages.4.post(m4, m5) && stages.5.post(m5, m6) && stages.6.post(m6, out) {
        let (m1, m2, m3, m4, m5, m6) = choose|m1: A::Output, m2: B::Output, m3: C::Output, m4: D::Output, m5: E::Output, m6: F::Output| stages.0.post(args, m1) && stages.1.post(m1, m2) && stages.2.post(m2, m3) && stages.3.post(m3, m4) && stages.4.post(m4, m5) && stages.5.post(m5, m6) && stages.6.post(m6, out);
        assert(p1.first.post(args, m1) && p1.second.post(m1, m2));
        assert(p1.post(args, m2));
        assert(p2.first.post(args, m2) && p2.second.post(m2, m3));
        assert(p2.post(args, m3));
        assert(p3.first.post(args, m3) && p3.second.post(m3, m4));
        assert(p3.post(args, m4));
        assert(p4.first.post(args, m4) && p4.second.post(m4, m5));
        assert(p4.post(args, m5));
        assert(p5.first.post(args, m5) && p5.second.post(m5, m6));
        assert(p5.post(args, m6));
        assert(p6.first.post(args, m6) && p6.second.post(m6, out));
        assert(p6.post(args, out));
    }
}

/// The in-order law for chains of 8 stages.
pub proof fn chain_8_runs_in_order<A, B, C, D, E, F, G, H, Args>(stages: (A, B, C, D, E, F, G, H), args: Args, out: H::Output) where
    A: Func<Args>,
    B: Func<A::Output>,
    C: Func<B::Output>,
    D: Func<C::Output>,
    E: Func<D::Output>,
    F: Func<E::Output>,
    G: Func<F::Output>,
    H: Func<G::Output>,
    ensures
        <(A, B, C, D, E, F, G, H) as Handler<Pipe<Pipe<Pipe<Pipe<Pipe<Pipe<A, B, Args>, C, Args>, D, Args>, E, Args>, F, Args>, G, Args>, H, Args>>::folded(stages).post(args, out)
            <==> exists|m1: A::Output, m2: B::Output, m3: C::Output, m4: D::Output, m5: E::Output, m6: F::Output, m7: G::Output|
                #![trigger stages.0.post(args, m1), stages.1.post(m1, m2), stages.2.post(m2, m3), stages.3.post(m3, m4), stages.4.post(m4, m5), stages.5.post(m5, m6), stages.6.post(m6, m7)]
                stages.0.post(args, m1)
                    && stages.1.post(m1, m2)
                    && stages.2.post(m2, m3)
                    && stages.3.post(m3, m4)
                    && stages.4.post(m4, m5)
                    && stages.5.post(m5, m6)
                    && stages.6.post(m6, m7)
                    && stages.7.post(m7, out),
{
    let p1 = compose::<A, B, Args>(stages.0, stages.1);
    let p2 = compose::<Pipe<A, B, Args>, C, Args>(p1, stages.2);
    let p3 = compose::<Pipe<Pipe<A, B, Args>, C, Args>, D, Args>(p2, stages.3);
    let p4 = compose::<Pipe<Pipe<Pipe<A, B, Args>, C, Args>, D, Args>, E, Args>(p3, stages.4);
    let p5 = compose::<Pipe<Pipe<Pipe<Pipe<A, B, Args>, C, Args>, D, Args>, E, Args>, F, Args>(p4, stages.5);
    let p6 = compose::<Pipe<Pipe<Pipe<Pipe<Pipe<A, B, Args>, C, Args>, D, Args>, E, Args>, F, Args>, G, Args>(p5, stages.6);
    let p7 = compose::<Pipe<Pipe<Pipe<Pipe<Pipe<Pipe<A, B, Args>, C, Args>, D, Args>, E, Args>, F, Args>, G, Args>, H, Args>(p6, stages.7);
    if p7.post(args, out) {
        let m7 = choose|m: G::Output| p6.post(args, m) && stages.7.post(m, out);
        let m6 = choose|m: F::Output| p5.post(args, m) && stages.6.post(m, m7);
        let m5 = choose|m: E::Output| p4.post(args, m) && stages.5.post(m, m6);
        let m4 = choose|m: D::Output| p3.post(args, m) && stages.4.post(m, m5);
        let m3 = choose|m: C::Output| p2.post(args, m) && stages.3.post(m, m4);
        let m2 = choose|m: B::Output| p1.post(args, m) && stages.2.post(m, m3);
        let m1 = choose|m: A::Output| stages.0.post(args, m) && stages.1.post(m, m2);
        assert(stages.0.post(args, m1) && stages.1.post(m1, m2) && stages.2.post(m2, m3) && stages.3.post(m3, m4) && stages.4.post(m4, m5) && stages.5.post(m5, m6) && stages.6.post(m6, m7) && stages.7.post(m7, out));
    }
    if exists|m1: A::Output, m2: B::Output, m3: C::Output, m4: D::Output, m5: E::Output, m6: F::Output, m7: G::Output| stages.0.post(args, m1) && stages.1.post(m1, m2) && stages.2.post(m2, m3) && stages.3.post(m3, m4) && stages.4.post(m4, m5) && stages.5.post(m5, m6) && stages.6.post(m6, m7) && stages.7.post(m7, out) {
        let (m1, m2, m3, m4, m5, m6, m7) = choose|m1: A::Output, m2: B::Output, m3: C::Output, m4: D::Output, m5: E::Output, m6: F::Output, m7: G::Output| stages.0.post(args, m1) && stages.1.post(m1, m2) && stages.2.post(m2, m3) && stages.3.post(m3, m4) && stages.4.post(m4, m5) && stages.5.post(m5, m6) && stages.6.post(m6, m7) && stages.7.post(m7, out);
        assert(p1.first.post(args, m1) && p1.second.post(m1, m2));
        assert(p1.post(args, m2));
        assert(p2.first.post(args, m2) && p2.second.post(m2, m3));
        assert(p2.post(args, m3));
        assert(p3.first.post(args, m3) && p3.second.post(m3, m4));
        assert(p3.post(args, m4));
        assert(p4.first.post(args, m4) && p4.second.post(m4, m5));
        assert(p4.post(args, m5));
        assert(p5.first.post(args, m5) && p5.second.post(m5, m6));
        assert(p5.post(args, m6));
        assert(p6.first.post(args, m6) && p6.second.post(m6, m7));
        assert(p6.post(args, m7));
        assert(p7.first.post(args, m7) && p7.second.post(m7, out));
        assert(p7.post(args, out));
    }
}

} // verus!
