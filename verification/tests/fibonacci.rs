use task_scheduler::fibonacci;

#[test]
fn fibonacci_first_numbers() {
    let expected = [1, 1, 2, 3, 5, 8, 13, 21, 34, 55];
    for (i, e) in expected.iter().enumerate() {
        assert_eq!(fibonacci(i as i32 + 1), *e);
    }
}

#[test]
fn fibonacci_of_35_is_the_benchmark_value() {
    assert_eq!(fibonacci(35), 9227465);
}

#[test]
fn fibonacci_recurrence_holds() {
    for n in 3..25 {
        assert_eq!(fibonacci(n), fibonacci(n - 1) + fibonacci(n - 2));
    }
}

#[test]
fn fibonacci_largest_in_i32() {
    assert_eq!(fibonacci(46), 1836311903);
}
