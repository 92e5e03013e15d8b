use vstd::prelude::*;

use crate::func::Func;

verus! {

/// A callable without parameters: invoked with `()`, its result comes back as is.
impl<F, R> Func<()> for F where F: Fn() -> R {
    type Output = R;

    open spec fn pre(&self, args: ()) -> bool {
        self.requires(())
    }

    open spec fn post(&self, args: (), out: R) -> bool {
        self.ensures((), out)
    }

    fn call(&self, args: ()) -> (out: R) {
        (*self)()
    }
}

/// A callable of one parameter: its result comes back wrapped in a one-element bundle.
impl<F, R, T1> Func<(T1,)> for F where F: Fn(T1) -> R {
    type Output = (R,);

    open spec fn pre(&self, args: (T1,)) -> bool {
        self.requires((args.0,))
    }

    open spec fn post(&self, args: (T1,), out: (R,)) -> bool {
        self.ensures((args.0,), out.0)
    }

    fn call(&self, args: (T1,)) -> (out: (R,)) {
        ((*self)(args.0),)
    }
}

/// Callables of two to sixteen parameters: the bundle is spread over the
/// parameters, and the result comes back as is, even when it is itself a tuple.
impl<F, R, T1, T2> Func<(T1, T2)> for F where F: Fn(T1, T2) -> R {
    type Output = R;

    open spec fn pre(&self, args: (T1, T2)) -> bool {
        self.requires(args)
    }

    open spec fn post(&self, args: (T1, T2), out: R) -> bool {
        self.ensures(args, out)
    }

    fn call(&self, args: (T1, T2)) -> (out: R) {
        let (t1, t2) = args;
        (*self)(t1, t2)
    }
}

impl<F, R, T1, T2, T3> Func<(T1, T2, T3)> for F where F: Fn(T1, T2, T3) -> R {
    type Output = R;

    open spec fn pre(&self, args: (T1, T2, T3)) -> bool {
        self.requires(args)
    }

    open spec fn post(&self, args: (T1, T2, T3), out: R) -> bool {
        self.ensures(args, out)
    }

    fn call(&self, args: (T1, T2, T3)) -> (out: R) {
        let (t1, t2, t3) = args;
        (*self)(t1, t2, t3)
    }
}

impl<F, R, T1, T2, T3, T4> Func<(T1, T2, T3, T4)> for F where F: Fn(T1, T2, T3, T4) -> R {
    type Output = R;

    open spec fn pre(&self, args: (T1, T2, T3, T4)) -> bool {
        self.requires(args)
    }

    open spec fn post(&self, args: (T1, T2, T3, T4), out: R) -> bool {
        self.ensures(args, out)
    }

    fn call(&self, args: (T1, T2, T3, T4)) -> (out: R) {
        let (t1, t2, t3, t4) = args;
        (*self)(t1, t2, t3, t4)
    }
}

impl<F, R, T1, T2, T3, T4, T5> Func<(T1, T2, T3, T4, T5)> for F where F: Fn(T1, T2, T3, T4, T5) -> R {
    type Output = R;

    open spec fn pre(&self, args: (T1, T2, T3, T4, T5)) -> bool {
        self.requires(args)
    }

    open spec fn post(&self, args: (T1, T2, T3, T4, T5), out: R) -> bool {
        self.ensures(args, out)
    }

    fn call(&self, args: (T1, T2, T3, T4, T5)) -> (out: R) {
        let (t1, t2, t3, t4, t5) = args;
        (*self)(t1, t2, t3, t4, t5)
    }
}

impl<F, R, T1, T2, T3, T4, T5, T6> Func<(T1, T2, T3, T4, T5, T6)> for F where F: Fn(T1, T2, T3, T4, T5, T6) -> R {
    type Output = R;

    open spec fn pre(&self, args: (T1, T2, T3, T4, T5, T6)) -> bool {
        self.requires(args)
    }

    open spec fn post(&self, args: (T1, T2, T3, T4, T5, T6), out: R) -> bool {
        self.ensures(args, out)
    }

    fn call(&self, args: (T1, T2, T3, T4, T5, T6)) -> (out: R) {
        let (t1, t2, t3, t4, t5, t6) = args;
        (*self)(t1, t2, t3, t4, t5, t6)
    }
}

impl<F, R, T1, T2, T3, T4, T5, T6, T7> Func<(T1, T2, T3, T4, T5, T6, T7)> for F where F: Fn(T1, T2, T3, T4, T5, T6, T7) -> R {
    type Output = R;

    open spec fn pre(&self, args: (T1, T2, T3, T4, T5, T6, T7)) -> bool {
        self.requires(args)
    }

    open spec fn post(&self, args: (T1, T2, T3, T4, T5, T6, T7), out: R) -> bool {
        self.ensures(args, out)
    }

    fn call(&self, args: (T1, T2, T3, T4, T5, T6, T7)) -> (out: R) {
        let (t1, t2, t3, t4, t5, t6, t7) = args;
        (*self)(t1, t2, t3, t4, t5, t6, t7)
    }
}

impl<F, R, T1, T2, T3, T4, T5, T6, T7, T8> Func<(T1, T2, T3, T4, T5, T6, T7, T8)> for F where F: Fn(T1, T2, T3, T4, T5, T6, T7, T8) -> R {
    type Output = R;

    open spec fn pre(&self, args: (T1, T2, T3, T4, T5, T6, T7, T8)) -> bool {
        self.requires(args)
    }

    open spec fn post(&self, args: (T1, T2, T3, T4, T5, T6, T7, T8), out: R) -> bool {
        self.ensures(args, out)
    }

    fn call(&self, args: (T1, T2, T3, T4, T5, T6, T7, T8)) -> (out: R) {
        let (t1, t2, t3, t4, t5, t6, t7, t8) = args;
        (*self)(t1, t2, t3, t4, t5, t6, t7, t8)
    }
}

impl<F, R, T1, T2, T3, T4, T5, T6, T7, T8, T9> Func<(T1, T2, T3, T4, T5, T6, T7, T8, T9)> for F where F: Fn(T1, T2, T3, T4, T5, T6, T7, T8, T9) -> R {
    type Output = R;

    open spec fn pre(&self, args: (T1, T2, T3, T4, T5, T6, T7, T8, T9)) -> bool {
        self.requires(args)
    }

    open spec fn post(&self, args: (T1, T2, T3, T4, T5, T6, T7, T8, T9), out: R) -> bool {
        self.ensures(args, out)
    }

    fn call(&self, args: (T1, T2, T3, T4, T5, T6, T7, T8, T9)) -> (out: R) {
        let (t1, t2, t3, t4, t5, t6, t7, t8, t9) = args;
        (*self)(t1, t2, t3, t4, t5, t6, t7, t8, t9)
    }
}

impl<F, R, T1, T2, T3, T4, T5, T6, T7, T8, T9, T10> Func<(T1, T2, T3, T4, T5, T6, T7, T8, T9, T10)> for F where F: Fn(T1, T2, T3, T4, T5, T6, T7, T8, T9, T10) -> R {
    type Output = R;

    open spec fn pre(&self, args: (T1, T2, T3, T4, T5, T6, T7, T8, T9, T10)) -> bool {
        self.requires(args)
    }

    open spec fn post(&self, args: (T1, T2, T3, T4, T5, T6, T7, T8, T9, T10), out: R) -> bool {
        self.ensures(args, out)
    }

    fn call(&self, args: (T1, T2, T3, T4, T5, T6, T7, T8, T9, T10)) -> (out: R) {
        let (t1, t2, t3, t4, t5, t6, t7, t8, t9, t10) = args;
        (*self)(t1, t2, t3, t4, t5, t6, t7, t8, t9, t10)
    }
}

impl<F, R, T1, T2, T3, T4, T5, T6, T7, T8, T9, T10, T11> Func<(T1, T2, T3, T4, T5, T6, T7, T8, T9, T10, T11)> for F where F: Fn(T1, T2, T3, T4, T5, T6, T7, T8, T9, T10, T11) -> R {
    type Output = R;

    open spec fn pre(&self, args: (T1, T2, T3, T4, T5, T6, T7, T8, T9, T10, T11)) -> bool {
        self.requires(args)
    }

    open spec fn post(&self, args: (T1, T2, T3, T4, T5, T6, T7, T8, T9, T10, T11), out: R) -> bool {
        self.ensures(args, out)
    }

    fn call(&self, args: (T1, T2, T3, T4, T5, T6, T7, T8, T9, T10, T11)) -> (out: R) {
        let (t1, t2, t3, t4, t5, t6, t7, t8, t9, t10, t11) = args;
        (*self)(t1, t2, t3, t4, t5, t6, t7, t8, t9, t10, t11)
    }
}

impl<F, R, T1, T2, T3, T4, T5, T6, T7, T8, T9, T10, T11, T12> Func<(T1, T2, T3, T4, T5, T6, T7, T8, T9, T10, T11, T12)> for F where F: Fn(T1, T2, T3, T4, T5, T6, T7, T8, T9, T10, T11, T12) -> R {
    type Output = R;

    open spec fn pre(&self, args: (T1, T2, T3, T4, T5, T6, T7, T8, T9, T10, T11, T12)) -> bool {
        self.requires(args)
    }

    open spec fn post(&self, args: (T1, T2, T3, T4, T5, T6, T7, T8, T9, T10, T11, T12), out: R) -> bool {
        self.ensures(args, out)
    }

    fn call(&self, args: (T1, T2, T3, T4, T5, T6, T7, T8, T9, T10, T11, T12)) -> (out: R) {
        let (t1, t2, t3, t4, t5, t6, t7, t8, t9, t10, t11, t12) = args;
        (*self)(t1, t2, t3, t4, t5, t6, t7, t8, t9, t10, t11, t12)
    }
}

impl<F, R, T1, T2, T3, T4, T5, T6, T7, T8, T9, T10, T11, T12, T13> Func<(T1, T2, T3, T4, T5, T6, T7, T8, T9, T10, T11, T12, T13)> for F where F: Fn(T1, T2, T3, T4, T5, T6, T7, T8, T9, T10, T11, T12, T13) -> R {
    type Output = R;

    open spec fn pre(&self, args: (T1, T2, T3, T4, T5, T6, T7, T8, T9, T10, T11, T12, T13)) -> bool {
        self.requires(args)
    }

    open spec fn post(&self, args: (T1, T2, T3, T4, T5, T6, T7, T8, T9, T10, T11, T12, T13), out: R) -> bool {
        self.ensures(args, out)
    }

    fn call(&self, args: (T1, T2, T3, T4, T5, T6, T7, T8, T9, T10, T11, T12, T13)) -> (out: R) {
        let (t1, t2, t3, t4, t5, t6, t7, t8, t9, t10, t11, t12, t13) = args;
        (*self)(t1, t2, t3, t4, t5, t6, t7, t8, t9, t10, t11, t12, t13)
    }
}

impl<F, R, T1, T2, T3, T4, T5, T6, T7, T8, T9, T10, T11, T12, T13, T14> Func<(T1, T2, T3, T4, T5, T6, T7, T8, T9, T10, T11, T12, T13, T14)> for F where F: Fn(T1, T2, T3, T4, T5, T6, T7, T8, T9, T10, T11, T12, T13, T14) -> R {
    type Output = R;

    open spec fn pre(&self, args: (T1, T2, T3, T4, T5, T6, T7, T8, T9, T10, T11, T12, T13, T14)) -> bool {
        self.requires(args)
    }

    open spec fn post(&self, args: (T1, T2, T3, T4, T5, T6, T7, T8, T9, T10, T11, T12, T13, T14), out: R) -> bool {
        self.ensures(args, out)
    }

    fn call(&self, args: (T1, T2, T3, T4, T5, T6, T7, T8, T9, T10, T11, T12, T13, T14)) -> (out: R) {
        let (t1, t2, t3, t4, t5, t6, t7, t8, t9, t10, t11, t12, t13, t14) = args;
        (*self)(t1, t2, t3, t4, t5, t6, t7, t8, t9, t10, t11, t12, t13, t14)
    }
}

impl<F, R, T1, T2, T3, T4, T5, T6, T7, T8, T9, T10, T11, T12, T13, T14, T15> Func<(T1, T2, T3, T4, T5, T6, T7, T8, T9, T10, T11, T12, T13, T14, T15)> for F where F: Fn(T1, T2, T3, T4, T5, T6, T7, T8, T9, T10, T11, T12, T13, T14, T15) -> R {
    type Output = R;

    open spec fn pre(&self, args: (T1, T2, T3, T4, T5, T6, T7, T8, T9, T10, T11, T12, T13, T14, T15)) -> bool {
        self.requires(args)
    }

    open spec fn post(&self, args: (T1, T2, T3, T4, T5, T6, T7, T8, T9, T10, T11, T12, T13, T14, T15), out: R) -> bool {
        self.ensures(args, out)
    }

    fn call(&self, args: (T1, T2, T3, T4, T5, T6, T7, T8, T9, T10, T11, T12, T13, T14, T15)) -> (out: R) {
        let (t1, t2, t3, t4, t5, t6, t7, t8, t9, t10, t11, t12, t13, t14, t15) = args;
        (*self)(t1, t2, t3, t4, t5, t6, t7, t8, t9, t10, t11, t12, t13, t14, t15)
    }
}

impl<F, R, T1, T2, T3, T4, T5, T6, T7, T8, T9, T10, T11, T12, T13, T14, T15, T16> Func<(T1, T2, T3, T4, T5, T6, T7, T8, T9, T10, T11, T12, T13, T14, T15, T16)> for F where F: Fn(T1, T2, T3, T4, T5, T6, T7, T8, T9, T10, T11, T12, T13, T14, T15, T16) -> R {
    type Output = R;

    open spec fn pre(&self, args: (T1, T2, T3, T4, T5, T6, T7, T8, T9, T10, T11, T12, T13, T14, T15, T16)) -> bool {
        self.requires(args)
    }

    open spec fn post(&self, args: (T1, T2, T3, T4, T5, T6, T7, T8, T9, T10, T11, T12, T13, T14, T15, T16), out: R) -> bool {
        self.ensures(args, out)
    }

    fn call(&self, args: (T1, T2, T3, T4, T5, T6, T7, T8, T9, T10, T11, T12, T13, T14, T15, T16)) -> (out: R) {
        let (t1, t2, t3, t4, t5, t6, t7, t8, t9, t10, t11, t12, t13, t14, t15, t16) = args;
        (*self)(t1, t2, t3, t4, t5, t6, t7, t8, t9, t10, t11, t12, t13, t14, t15, t16)
    }
}

} // verus!
