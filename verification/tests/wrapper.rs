use faux::{MaybeQuack, MethodIdentity, MockError};
use std::any::Any;
use std::cell::Cell;
use std::rc::Rc;

type Answer = Box<dyn FnOnce(i32) -> i32>;

fn id(token: u64) -> MethodIdentity {
    MethodIdentity { token }
}

fn apply(answer: Answer, input: i32) -> i32 {
    answer(input)
}

fn wrapped_value(value: &i32, _input: i32) -> i32 {
    *value
}

#[test]
fn standin_answers_once_then_reports_no_answer() {
    let a = id(1);
    let mut standin: MaybeQuack<i32, Answer> = MaybeQuack::quack();
    standin.mock_once(a, Box::new(|x| x + 7));
    assert_eq!(standin.dispatch(a, 3, wrapped_value, apply), Ok(10));
    assert_eq!(
        standin.dispatch(a, 3, wrapped_value, apply),
        Err(MockError::NoAnswerRegistered)
    );
}

#[test]
fn real_instance_returns_wrapped_value() {
    let mut real: MaybeQuack<i32, Answer> = MaybeQuack::from_real(5);
    assert!(real.is_real());
    assert_eq!(real.dispatch(id(1), 0, wrapped_value, apply), Ok(5));
    assert_eq!(real.dispatch(id(1), 0, wrapped_value, apply), Ok(5));
    assert!(real.is_real());
}

#[test]
fn real_instance_applies_real_logic_to_input() {
    let mut real: MaybeQuack<i32, Answer> = MaybeQuack::from_real(5);
    let outcome = real.dispatch(id(2), 4, |value: &i32, input: i32| *value * input, apply);
    assert_eq!(outcome, Ok(20));
}

#[test]
fn real_dispatch_ignores_answers_of_other_instances() {
    let a = id(1);
    let mut standin: MaybeQuack<i32, Answer> = MaybeQuack::quack();
    standin.mock_once(a, Box::new(|x| x + 7));

    let answer_ran = Rc::new(Cell::new(false));
    let ran = answer_ran.clone();
    let mut real: MaybeQuack<i32, Answer> = MaybeQuack::from_real(5);
    let outcome = real.dispatch(a, 3, wrapped_value, move |answer: Answer, input: i32| {
        ran.set(true);
        answer(input)
    });
    assert_eq!(outcome, Ok(5));
    assert!(!answer_ran.get());

    assert_eq!(standin.dispatch(a, 3, wrapped_value, apply), Ok(10));
}

#[test]
fn standin_never_runs_real_logic() {
    let real_ran = Rc::new(Cell::new(false));
    let a = id(1);
    let mut standin: MaybeQuack<i32, Answer> = MaybeQuack::quack();
    standin.mock_once(a, Box::new(|x| x * 2));

    let ran = real_ran.clone();
    let outcome = standin.dispatch(
        a,
        21,
        move |value: &i32, _input: i32| {
            ran.set(true);
            *value
        },
        apply,
    );
    assert_eq!(outcome, Ok(42));

    let ran = real_ran.clone();
    let outcome = standin.dispatch(
        a,
        21,
        move |value: &i32, _input: i32| {
            ran.set(true);
            *value
        },
        apply,
    );
    assert_eq!(outcome, Err(MockError::NoAnswerRegistered));
    assert!(!real_ran.get());
}

#[test]
fn fresh_standin_has_no_answers() {
    let mut standin: MaybeQuack<i32, Answer> = MaybeQuack::quack();
    assert!(!standin.is_real());
    assert_eq!(
        standin.dispatch(id(0), 1, wrapped_value, apply),
        Err(MockError::NoAnswerRegistered)
    );
    assert!(!standin.is_real());
}

#[test]
fn standin_last_install_wins() {
    let a = id(1);
    let first_ran = Rc::new(Cell::new(false));
    let ran = first_ran.clone();
    let mut standin: MaybeQuack<i32, Answer> = MaybeQuack::quack();
    standin.mock_once(
        a,
        Box::new(move |x| {
            ran.set(true);
            x + 1
        }),
    );
    standin.mock_once(a, Box::new(|x| x + 2));
    assert_eq!(standin.dispatch(a, 0, wrapped_value, apply), Ok(2));
    assert_eq!(
        standin.dispatch(a, 0, wrapped_value, apply),
        Err(MockError::NoAnswerRegistered)
    );
    assert!(!first_ran.get());
}

#[test]
fn standin_identities_do_not_interfere() {
    let a = id(1);
    let b = id(2);
    let mut standin: MaybeQuack<i32, Answer> = MaybeQuack::quack();
    standin.mock_once(a, Box::new(|x| x + 7));
    standin.mock_once(b, Box::new(|x| x * 100));
    standin.mock_once(a, Box::new(|x| x + 8));
    assert_eq!(standin.dispatch(b, 3, wrapped_value, apply), Ok(300));
    assert_eq!(
        standin.dispatch(b, 3, wrapped_value, apply),
        Err(MockError::NoAnswerRegistered)
    );
    assert_eq!(standin.dispatch(a, 3, wrapped_value, apply), Ok(11));
}

#[test]
fn failed_dispatch_keeps_other_answers() {
    let a = id(1);
    let b = id(2);
    let mut standin: MaybeQuack<i32, Answer> = MaybeQuack::quack();
    standin.mock_once(a, Box::new(|x| x - 1));
    assert_eq!(
        standin.dispatch(b, 3, wrapped_value, apply),
        Err(MockError::NoAnswerRegistered)
    );
    assert_eq!(standin.dispatch(a, 3, wrapped_value, apply), Ok(2));
}

#[test]
fn standin_answers_again_after_a_new_install() {
    let a = id(1);
    let mut standin: MaybeQuack<i32, Answer> = MaybeQuack::quack();
    standin.mock_once(a, Box::new(|x| x + 1));
    assert_eq!(standin.dispatch(a, 1, wrapped_value, apply), Ok(2));
    standin.mock_once(a, Box::new(|x| x + 2));
    assert_eq!(standin.dispatch(a, 1, wrapped_value, apply), Ok(3));
}

#[test]
fn erased_answers_of_different_shapes_share_one_registry() {
    let length_of = id(10);
    let negate = id(11);
    let mut standin: MaybeQuack<(), Box<dyn Any>> = MaybeQuack::quack();

    let first: Box<dyn FnOnce(String) -> usize> = Box::new(|text| text.len());
    let second: Box<dyn FnOnce(bool) -> bool> = Box::new(|flag| !flag);
    standin.mock_once(length_of, Box::new(first));
    standin.mock_once(negate, Box::new(second));

    let outcome = standin.dispatch(
        negate,
        true,
        |_: &(), flag: bool| flag,
        |answer: Box<dyn Any>, flag: bool| match answer.downcast::<Box<dyn FnOnce(bool) -> bool>>() {
            Ok(answer) => answer(flag),
            Err(_) => unreachable!(),
        },
    );
    assert_eq!(outcome, Ok(false));

    let outcome = standin.dispatch(
        length_of,
        String::from("quack"),
        |_: &(), _text: String| 0usize,
        |answer: Box<dyn Any>, text: String| match answer
            .downcast::<Box<dyn FnOnce(String) -> usize>>()
        {
            Ok(answer) => answer(text),
            Err(_) => unreachable!(),
        },
    );
    assert_eq!(outcome, Ok(5));
}
