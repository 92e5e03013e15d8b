use std::cell::RefCell;

use sidemount::wrap;
use sidemount::Func;
use sidemount::Handler;

fn test() {}

fn input(a: i32) {
    println!("{}", a);
}

fn test2(_: ()) {}

fn add(a: i32, b: i32) -> i32 {
    a + b
}

fn log_adder(a: i32, b: i32) -> (i32, i32) {
    println!("{a} {b}");
    (a, b)
}

fn multiply(c: i32) -> i32 {
    c * 4
}

fn stringer<T: std::fmt::Display>(v: T) -> String {
    format!("{}", v)
}

fn log_multiply(c: i32) -> i32 {
    println!("{c}");
    c
}

fn foo() -> i32 {
    3
}

fn multi() -> (i32, i32) {
    (4, 8)
}

fn single(a: i32) -> (i32, i32) {
    (a * 2, a * 4)
}

fn outer(a: i32, b: i32) -> (i32, i32) {
    (a + 1, b + 1)
}

fn tuple_add((a, b): (i32, i32)) -> i32 {
    a + b
}

fn plus(a: i32) -> i32 {
    a + 1
}

fn keep(a: i32) -> i32 {
    a
}

fn unwrap_one((a,): (i32,)) -> i32 {
    a
}

fn assert_impl_handler<Args>(_f: impl Func<Args>) {}

fn assert_impl<A, B, Args>(_f: impl Handler<A, B, Args>)
where
    A: Func<Args>,
    B: Func<A::Output>,
{
}

fn assert_spec_i32<A, B, Args>(_f: impl Handler<A, B, Args, Input = (i32,), Output = (i32,)>)
where
    A: Func<Args>,
    B: Func<A::Output>,
{
}

fn assert_constraint<Args, F, A, B>(f: F) -> impl Func<Args>
where
    F: Handler<A, B, Args>,
    A: Func<Args>,
    B: Func<A::Output>,
{
    f.pipe()
}

#[test]
fn test_chain() {
    sidemount::map(plus, sidemount::map(multiply, stringer));
    sidemount::map(plus, multiply);
}

#[test]
fn test_map() {
    sidemount::map(test, sidemount::map(multi, add));
}

#[test]
fn test_long_tuple() {
    assert_impl((test, multi, add));
    assert_impl((multiply, multiply, multiply, multiply));
    assert_impl((log_multiply, multiply, multiply, multiply));
    assert_impl((plus, multiply, plus, input));
    assert_impl((plus, multiply, single, tuple_add));
    assert_impl((multi, outer, log_adder, add));
}

#[test]
fn test_effects() {
    assert_impl((log_adder, add));
    assert_impl((log_adder, add));
    assert_impl((log_multiply, multiply));
}

#[test]
fn test_constraints() {
    assert_spec_i32((plus, plus));
    assert_constraint((plus, plus));
}

#[test]
fn test_tuple_unwrapping() {
    assert_impl((plus, input));
    assert_impl((test, (multi, add).pipe()));
    assert_impl((test, foo));
    assert_impl((multi, add));
    sidemount::map(test, sidemount::map(multi, add));
    assert_impl(((test, multi).pipe(), add));
}

#[test]
fn test_handlers() {
    assert_impl_handler(test);
    assert_impl_handler(add);
    assert_impl_handler(multiply);
    assert_impl_handler(plus);
    assert_impl_handler(foo);
    assert_impl_handler(multi);
    assert_impl_handler(outer);
    assert_impl((outer, outer));
    let _ = sidemount::map(outer, sidemount::map(outer, add)).call((4, 5));
    sidemount::map(plus, single);
    assert_impl((plus, plus));
    sidemount::map(plus, sidemount::map(plus, plus));
    sidemount::map(test, test);
    assert_impl((test, foo));
    assert_impl((test, multi));
    assert_impl(((multiply, multiply).pipe(), multiply));
    assert_impl((single, tuple_add));
    assert_impl((multiply, single));

    (multi, add).pipe().call(());
}

#[test]
fn test_empty_seq() {
    sidemount::map(test, test);
    sidemount::map(test, foo);
    sidemount::map(input, test2);
    assert_impl((test, test));
    assert_impl((test, foo));
    assert_impl((input, test2));
}

#[test]
fn nullary_adapter_returns_result_unwrapped() {
    assert_eq!(foo.call(()), 3);
    assert_eq!(multi.call(()), (4, 8));
}

#[test]
fn unary_adapter_wraps_result() {
    assert_eq!(plus.call((1,)), (2,));
    assert_eq!(single.call((3,)), ((6, 12),));
    assert_eq!(tuple_add.call(((2, 5),)), (7,));
}

#[test]
fn multi_parameter_adapter_spreads_and_returns_unwrapped() {
    assert_eq!(add.call((2, 3)), 5);
    assert_eq!(outer.call((1, 2)), (2, 3));
    let sum3 = |a: i32, b: i32, c: i32| a * 100 + b * 10 + c;
    assert_eq!(sum3.call((1, 2, 3)), 123);
    let sixteen = |a: u8, b: u8, c: u8, d: u8, e: u8, f: u8, g: u8, h: u8,
                   i: u8, j: u8, k: u8, l: u8, m: u8, n: u8, o: u8, p: u8| {
        [a, b, c, d, e, f, g, h, i, j, k, l, m, n, o, p]
            .iter()
            .map(|x| *x as u32)
            .sum::<u32>()
    };
    assert_eq!(
        sixteen.call((1, 2, 3, 4, 5, 6, 7, 8, 9, 10, 11, 12, 13, 14, 15, 16)),
        136
    );
}

#[test]
fn pair_output_spreads_into_two_parameters() {
    assert_eq!((multi, add).pipe().call(()), 12);
    assert_eq!(sidemount::map(multi, add).call(()), 12);
    assert_eq!((outer, add).pipe().call((1, 2)), 5);
}

#[test]
fn increment_then_keep() {
    assert_eq!((plus, keep).pipe().call((3,)), (4,));
}

#[test]
fn composite_invokes_first_then_second() {
    let p = sidemount::map(plus, multiply);
    assert_eq!(p.call((2,)), (12,));
    let nested = sidemount::map(outer, sidemount::map(outer, add));
    assert_eq!(nested.call((4, 5)), 13);
    assert_eq!(sidemount::map(plus, sidemount::map(multiply, stringer)).call((2,)), ("12".to_string(),));
}

#[test]
fn composition_is_associative_on_values() {
    for x in [-3, 0, 1, 7] {
        let left = sidemount::map(sidemount::map(plus, multiply), single);
        let right = sidemount::map(plus, sidemount::map(multiply, single));
        assert_eq!(left.call((x,)), right.call((x,)));
    }
    assert_eq!(
        sidemount::map(sidemount::map(plus, multiply), single).call((1,)),
        ((16, 32),)
    );
}

#[test]
fn chain_runs_each_stage_once_in_order() {
    let log: RefCell<Vec<u32>> = RefCell::new(Vec::new());
    let s1 = |a: i32| {
        log.borrow_mut().push(1);
        a + 1
    };
    let s2 = |a: i32| {
        log.borrow_mut().push(2);
        a * 2
    };
    let s3 = |a: i32| {
        log.borrow_mut().push(3);
        (a, a + 1)
    };
    let s4 = |(a, b): (i32, i32)| {
        log.borrow_mut().push(4);
        a * b
    };
    let chain = (s1, s2, s3, s4).pipe();
    assert_eq!(chain.call((2,)), (42,));
    assert_eq!(*log.borrow(), vec![1, 2, 3, 4]);
    assert_eq!(chain.call((0,)), (6,));
    assert_eq!(*log.borrow(), vec![1, 2, 3, 4, 1, 2, 3, 4]);
}

#[test]
fn eight_stage_chain() {
    let chain = (plus, plus, plus, plus, plus, plus, plus, multiply).pipe();
    assert_eq!(chain.call((0,)), (28,));
    let chain = (multi, outer, log_adder, add).pipe();
    assert_eq!(chain.call(()), 14);
}

#[test]
fn identity_stage_changes_nothing_on_values() {
    let id = |a: i32| a;
    for x in [-5, 0, 3, 100] {
        let short = (plus, multiply).pipe();
        let long = (plus, multiply, id).pipe();
        assert_eq!(short.call((x,)), long.call((x,)));
    }
    assert_eq!((plus, multiply, id).pipe().call((3,)), (16,));
}

#[test]
fn empty_bundles_chain() {
    assert_eq!((test, foo).pipe().call(()), 3);
    assert_eq!((input, test2).pipe().call((5,)), ((),));
}

#[test]
fn wrap_hands_each_output_on_whole() {
    let w = wrap((outer, tuple_add, unwrap_one));
    assert_eq!(w.call((1, 2)), (5,));
    let w = wrap((multi, tuple_add, unwrap_one));
    assert_eq!(w.call(()), (12,));
}
