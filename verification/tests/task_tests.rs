use std::cell::Cell;
use std::rc::Rc;

use scene_core::loading::{Environment, Task};

#[derive(Debug, PartialEq)]
struct Boom(&'static str);

#[test]
fn new_and_execute_run_the_computation_once() {
    let task = Task::new(|env: u64| -> Result<u64, Boom> { Ok(env + 1) });
    assert_eq!(task.execute(41).unwrap(), 42);
}

#[test]
fn execute_propagates_the_computation_error() {
    let task = Task::new(|_env: u64| -> Result<u64, Boom> { Err(Boom("bad")) });
    assert_eq!(task.execute(0).unwrap_err(), Boom("bad"));
}

#[test]
fn join_combines_two_successes() {
    let a = Task::new(|env: u64| -> Result<u64, Boom> { Ok(env * 2) });
    let b = Task::new(|env: u64| -> Result<u64, Boom> { Ok(env + 1) });
    let joined = a.join(b, |(x, y)| x + y);
    assert_eq!(joined.execute(10).unwrap(), 31);
}

#[test]
fn join_returns_the_first_error_and_never_runs_the_second_task() {
    let second_ran = Rc::new(Cell::new(false));
    let combined_ran = Rc::new(Cell::new(false));
    let second_flag = Rc::clone(&second_ran);
    let combine_flag = Rc::clone(&combined_ran);

    let a = Task::new(|_env: u64| -> Result<u64, Boom> { Err(Boom("first")) });
    let b = Task::new(move |env: u64| -> Result<u64, Boom> {
        second_flag.set(true);
        Ok(env)
    });
    let joined = a.join(b, move |(x, y)| {
        combine_flag.set(true);
        x + y
    });

    assert_eq!(joined.execute(7).unwrap_err(), Boom("first"));
    assert!(!second_ran.get(), "the second task must not run after the first failed");
    assert!(!combined_ran.get(), "the combining step must not run after a failure");
}

#[test]
fn join_returns_the_second_error_after_the_first_succeeded() {
    let combined_ran = Rc::new(Cell::new(false));
    let combine_flag = Rc::clone(&combined_ran);

    let a = Task::new(|env: u64| -> Result<u64, Boom> { Ok(env) });
    let b = Task::new(|_env: u64| -> Result<u64, Boom> { Err(Boom("second")) });
    let joined = a.join(b, move |(x, y): (u64, u64)| {
        combine_flag.set(true);
        x + y
    });

    assert_eq!(joined.execute(7).unwrap_err(), Boom("second"));
    assert!(!combined_ran.get(), "the combining step must not run after a failure");
}

#[test]
fn join_hands_both_tasks_the_same_environment() {
    let a = Task::new(|env: u64| -> Result<u64, Boom> { Ok(env) });
    let b = Task::new(|env: u64| -> Result<u64, Boom> { Ok(env) });
    let joined = a.join(b, |(x, y)| (x, y));
    assert_eq!(joined.execute(99).unwrap(), (99, 99));
}

#[test]
fn sequence_discards_the_first_result() {
    let ran_first = Rc::new(Cell::new(false));
    let first_flag = Rc::clone(&ran_first);
    let a = Task::new(move |_env: u64| -> Result<&'static str, Boom> {
        first_flag.set(true);
        Ok("ignored")
    });
    let b = Task::new(|env: u64| -> Result<u64, Boom> { Ok(env + 5) });
    assert_eq!(a.sequence(b).execute(1).unwrap(), 6);
    assert!(ran_first.get());
}

#[test]
fn sequence_stops_at_the_first_error() {
    let second_ran = Rc::new(Cell::new(false));
    let second_flag = Rc::clone(&second_ran);
    let a = Task::new(|_env: u64| -> Result<u64, Boom> { Err(Boom("early")) });
    let b = Task::new(move |env: u64| -> Result<u64, Boom> {
        second_flag.set(true);
        Ok(env)
    });
    assert_eq!(a.sequence(b).execute(1).unwrap_err(), Boom("early"));
    assert!(!second_ran.get());
}

#[test]
fn serialize_feeds_the_first_result_into_the_second_task() {
    let a = Task::new(|env: u64| -> Result<u64, Boom> { Ok(env * 3) });
    let b = Task::new(|(x, env): (u64, u64)| -> Result<u64, Boom> { Ok(x + env) });
    assert_eq!(a.serialize(b).execute(4).unwrap(), 16);
}

#[test]
fn map_postprocesses_success_with_the_environment() {
    let a = Task::new(|env: u64| -> Result<u64, Boom> { Ok(env + 1) });
    let mapped = a.map(|x, env| -> Result<u64, Boom> { Ok(x * env) });
    assert_eq!(mapped.execute(5).unwrap(), 30);
}

#[test]
fn map_propagates_failure_without_postprocessing() {
    let mapper_ran = Rc::new(Cell::new(false));
    let mapper_flag = Rc::clone(&mapper_ran);
    let a = Task::new(|_env: u64| -> Result<u64, Boom> { Err(Boom("no")) });
    let mapped = a.map(move |x, _env| -> Result<u64, Boom> {
        mapper_flag.set(true);
        Ok(x)
    });
    assert_eq!(mapped.execute(5).unwrap_err(), Boom("no"));
    assert!(!mapper_ran.get());
}

#[test]
fn duplicate_yields_an_equal_environment() {
    let env: u64 = 12345;
    assert_eq!(env.duplicate(), 12345);
}
