use rust_tour::error_handling::{divide, CustomError};
use rust_tour::functions::{
    add, add2, binary_search, calculate_factorial, fibonacci, find_min_max, five, greet_person,
    multiply, plus_one, subtract,
};
use rust_tour::text::{decimal_string, digit_str, truth_str};

#[test]
fn arithmetic_on_small_numbers() {
    assert_eq!(add(5, 3), 8);
    assert_eq!(add2(add2(10, 20), add2(5, 50)), 85);
    assert_eq!(add(add(10, 20), add(5, 50)), 85);
    assert_eq!(multiply(4, 7), 28);
    assert_eq!(subtract(10, 5), 5);
    assert_eq!(subtract(5, 10), -5);
    assert_eq!(five(), 5);
    assert_eq!(plus_one(5), 6);
    assert_eq!(plus_one(-1), 0);
}

#[test]
fn arithmetic_at_the_limits() {
    assert_eq!(add(i32::MAX, 0), i32::MAX);
    assert_eq!(add(i32::MIN, i32::MAX), -1);
    assert_eq!(subtract(i32::MIN, 0), i32::MIN);
    assert_eq!(multiply(i32::MIN, 1), i32::MIN);
    assert_eq!(multiply(46340, 46340), 2147395600);
    assert_eq!(plus_one(i32::MAX - 1), i32::MAX);
}

#[test]
fn greeting_names_the_person() {
    assert_eq!(greet_person("Alice"), "Hello, Alice!");
    assert_eq!(greet_person(""), "Hello, !");
    assert_eq!(greet_person("Rust"), "Hello, Rust!");
}

#[test]
fn min_and_max_of_a_slice() {
    assert_eq!(find_min_max(&[1, 5, 3, 9, 2]), (1, 9));
    assert_eq!(find_min_max(&[7]), (7, 7));
    assert_eq!(find_min_max(&[-3, -3, -3]), (-3, -3));
    assert_eq!(find_min_max(&[i32::MAX, i32::MIN, 0]), (i32::MIN, i32::MAX));
    assert_eq!(find_min_max(&[9, 8, 7, 6]), (6, 9));
}

#[test]
fn factorials() {
    assert_eq!(calculate_factorial(0), 1);
    assert_eq!(calculate_factorial(1), 1);
    assert_eq!(calculate_factorial(5), 120);
    assert_eq!(calculate_factorial(10), 3628800);
    assert_eq!(calculate_factorial(12), 479001600);
}

#[test]
fn fibonacci_numbers() {
    let expected: [u32; 10] = [0, 1, 1, 2, 3, 5, 8, 13, 21, 34];
    for (i, want) in expected.iter().enumerate() {
        assert_eq!(fibonacci(i as u32), *want);
    }
    assert_eq!(fibonacci(20), 6765);
    assert_eq!(fibonacci(30), 832040);
}

#[test]
fn binary_search_finds_what_is_there() {
    let arr = [1, 3, 5, 7, 9, 11, 13, 15];
    assert_eq!(binary_search(&arr, 7, 0, arr.len() - 1), Some(3));
    for (i, value) in arr.iter().enumerate() {
        assert_eq!(binary_search(&arr, *value, 0, arr.len() - 1), Some(i));
    }
}

#[test]
fn binary_search_misses_what_is_absent() {
    let arr = [1, 3, 5, 7, 9, 11, 13, 15];
    assert_eq!(binary_search(&arr, 0, 0, arr.len() - 1), None);
    assert_eq!(binary_search(&arr, 8, 0, arr.len() - 1), None);
    assert_eq!(binary_search(&arr, 16, 0, arr.len() - 1), None);
}

#[test]
fn binary_search_keeps_to_its_range() {
    let arr = [1, 3, 5, 7, 9, 11, 13, 15];
    assert_eq!(binary_search(&arr, 1, 1, 7), None);
    assert_eq!(binary_search(&arr, 15, 0, 6), None);
    assert_eq!(binary_search(&arr, 9, 4, 4), Some(4));
    assert_eq!(binary_search(&arr, 9, 5, 4), None);
    assert_eq!(binary_search(&[], 9, 1, 0), None);
}

#[test]
fn binary_search_on_unsorted_input_follows_the_halving() {
    let arr = [9, 1, 5, 7, 3];
    assert_eq!(binary_search(&arr, 5, 0, 4), Some(2));
    assert_eq!(binary_search(&arr, 9, 0, 4), None);
    assert_eq!(binary_search(&arr, 1, 0, 4), None);
    assert_eq!(binary_search(&arr, 7, 0, 4), Some(3));
}

#[test]
fn divide_checks_the_divisor_first() {
    assert_eq!(divide(10, 2), Ok(5));
    assert_eq!(divide(10, 0), Err(CustomError::DivisionByZero));
    assert_eq!(divide(-10, 2), Err(CustomError::NegativeNumber));
    assert_eq!(divide(-10, 0), Err(CustomError::DivisionByZero));
    assert_eq!(divide(0, 5), Ok(0));
    assert_eq!(divide(7, 2), Ok(3));
    assert_eq!(divide(7, -2), Ok(-3));
    assert_eq!(divide(i32::MAX, -1), Ok(-i32::MAX));
    assert_eq!(divide(3, i32::MIN), Ok(0));
}

#[test]
fn division_error_messages() {
    assert_eq!(CustomError::DivisionByZero.message(), "除零错误");
    assert_eq!(CustomError::NegativeNumber.message(), "负数错误");
    assert_eq!(CustomError::Overflow.message(), "溢出错误");
}

#[test]
fn numbers_and_truth_values_as_text() {
    assert_eq!(decimal_string(0), "0");
    assert_eq!(decimal_string(7), "7");
    assert_eq!(decimal_string(10), "10");
    assert_eq!(decimal_string(1234567890), "1234567890");
    assert_eq!(decimal_string(u64::MAX), "18446744073709551615");
    assert_eq!(digit_str(0), "0");
    assert_eq!(digit_str(9), "9");
    assert_eq!(truth_str(true), "true");
    assert_eq!(truth_str(false), "false");
}
