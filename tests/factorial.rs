use hello_axum::decimal::{decimal_string, push_decimal};
use hello_axum::factorial::{factorial, factorial_step};

#[test]
fn factorial_of_five() {
    assert_eq!(factorial(5), "120");
}

#[test]
fn factorial_of_zero_is_one() {
    assert_eq!(factorial(0), "1");
}

#[test]
fn factorial_of_one() {
    assert_eq!(factorial(1), "1");
}

#[test]
fn factorial_of_twenty_wraps() {
    let r = factorial(20);
    assert_ne!(r, "2432902008176640000");
    assert_eq!(r, "2192834560");
}

#[test]
fn factorial_exact_up_to_twelve() {
    let mut exact: u64 = 1;
    for n in 0..=12u32 {
        if n > 0 {
            exact *= n as u64;
        }
        assert_eq!(factorial(n), exact.to_string());
    }
    assert_eq!(factorial(12), "479001600");
}

#[test]
fn factorial_of_thirteen_wraps() {
    assert_eq!(factorial(13), "1932053504");
    assert_ne!(factorial(13), "6227020800");
}

#[test]
fn factorial_wraps_modulo_word_size() {
    let mut exact: u128 = 1;
    for n in 1..=30u32 {
        exact *= n as u128;
        assert_eq!(factorial(n), (exact % (1u128 << 32)).to_string());
    }
    assert_eq!(factorial(33), "2147483648");
    assert_eq!(factorial(34), "0");
    assert_eq!(factorial(1000), "0");
}

#[test]
fn step_multiplies_down_to_one() {
    let mut total: u32 = 1;
    let mut multiplier: u32 = 5;
    factorial_step(&mut total, &mut multiplier);
    assert_eq!(total, 120);
    assert_eq!(multiplier, 0);
}

#[test]
fn step_keeps_starting_total_as_factor() {
    let mut total: u32 = 3;
    let mut multiplier: u32 = 4;
    factorial_step(&mut total, &mut multiplier);
    assert_eq!(total, 72);
    assert_eq!(multiplier, 0);
}

#[test]
fn step_with_zero_multiplier_leaves_total() {
    let mut total: u32 = 7;
    let mut multiplier: u32 = 0;
    factorial_step(&mut total, &mut multiplier);
    assert_eq!(total, 7);
    assert_eq!(multiplier, 0);
}

#[test]
fn decimal_of_zero_and_extremes() {
    assert_eq!(decimal_string(0), "0");
    assert_eq!(decimal_string(9), "9");
    assert_eq!(decimal_string(10), "10");
    assert_eq!(decimal_string(u32::MAX), "4294967295");
}

#[test]
fn push_decimal_appends() {
    let mut s = String::from("n=");
    push_decimal(407, &mut s);
    assert_eq!(s, "n=407");
}
