use wasm_symbolicate::fibonacci::{detour, fib};

#[test]
fn fib_small_values() {
    assert_eq!(fib(0), 0);
    assert_eq!(fib(1), 1);
    assert_eq!(fib(2), 1);
    assert_eq!(fib(3), 2);
    assert_eq!(fib(4), 3);
    assert_eq!(fib(5), 5);
    assert_eq!(fib(6), 8);
}

#[test]
fn fib_of_negative_is_itself() {
    assert_eq!(fib(-3), -3);
    assert_eq!(fib(-4), -4);
}

#[test]
fn detour_returns_closure_value() {
    assert_eq!(detour(|| 41 + 1), 42);
}
