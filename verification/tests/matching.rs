use demo_runner::module::ienum::{match_option, match_result, test_type_and_value_match};

#[test]
fn result_with_one_takes_the_exact_arm() {
    assert_eq!(match_result(Ok(1)), "result match 1");
}

#[test]
fn result_with_another_value_takes_the_generic_arm() {
    assert_eq!(match_result(Ok(0)), "result match t");
    assert_eq!(match_result(Ok(2)), "result match t");
    assert_eq!(match_result(Ok(-1)), "result match t");
    assert_eq!(match_result(Ok(i32::MAX)), "result match t");
    assert_eq!(match_result(Ok(i32::MIN)), "result match t");
}

#[test]
fn result_failure_takes_the_last_arm() {
    assert_eq!(match_result(Err(1)), "result match none");
    assert_eq!(match_result(Err(0)), "result match none");
}

#[test]
fn option_with_one_takes_the_exact_arm() {
    assert_eq!(match_option(Some(1)), "option match 1");
}

#[test]
fn option_with_another_value_takes_the_generic_arm() {
    assert_eq!(match_option(Some(0)), "option match t");
    assert_eq!(match_option(Some(2)), "option match t");
    assert_eq!(match_option(Some(-1)), "option match t");
    assert_eq!(match_option(Some(i32::MIN)), "option match t");
}

#[test]
fn option_none_takes_the_last_arm() {
    assert_eq!(match_option(None), "option match none");
}

#[test]
fn matching_demo_takes_both_exact_arms() {
    assert_eq!(
        test_type_and_value_match(),
        vec![String::from("result match 1"), String::from("option match 1")]
    );
}
