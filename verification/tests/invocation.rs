use timed_exec::invocation::Invocation;
use timed_exec::outcome::Failure;

#[test]
fn empty_argument_list_is_usage_error() {
    assert_eq!(Invocation::from_arg_list(vec![]), Err(Failure::Usage));
}

#[test]
fn single_token_is_the_program() {
    let inv = Invocation::from_arg_list(vec![String::from("true")]).unwrap();
    assert_eq!(inv.program, "true");
    assert!(inv.args.is_empty());
}

#[test]
fn remaining_tokens_pass_through_in_order() {
    let argv = vec![
        String::from("sleep"),
        String::from("1"),
        String::from("--verbose"),
    ];
    let inv = Invocation::from_arg_list(argv).unwrap();
    assert_eq!(inv.program, "sleep");
    assert_eq!(inv.args, vec![String::from("1"), String::from("--verbose")]);
}
