use nixpkgs_check::exchange::{Output, Reply};
use nixpkgs_check::failure::Failure;
use nixpkgs_check::runner::{
    Action, Channel, Child, Event, Runner, Stage, GRACE_MILLIS, POLL_MILLIS,
};

fn fresh(capture_stdout: bool) -> Runner {
    Runner::new("nix build hello".to_string(), capture_stdout)
}

fn listening(capture_stdout: bool) -> Runner {
    let mut runner = fresh(capture_stdout);
    runner.run(Event::Start).unwrap();
    assert_eq!(runner.run(Event::Spawned), Ok(Action::Poll));
    assert_eq!(runner.run(Event::Running), Ok(Action::Listen { millis: 50 }));
    runner
}

#[test]
fn runner_the_intervals() {
    assert_eq!(POLL_MILLIS, 50);
    assert_eq!(GRACE_MILLIS, 200);
}

#[test]
fn runner_standard_error_is_always_shown() {
    let mut shown = fresh(false);
    assert_eq!(
        shown.run(Event::Start),
        Ok(Action::Spawn { stdout: Channel::Shown, stderr: Channel::Shown })
    );
    let mut captured = fresh(true);
    assert_eq!(
        captured.run(Event::Start),
        Ok(Action::Spawn { stdout: Channel::Captured, stderr: Channel::Shown })
    );
}

#[test]
fn runner_a_command_that_ends_by_itself() {
    let mut runner = fresh(true);
    assert_eq!(runner.child, Child::Unborn);
    runner.run(Event::Start).unwrap();
    assert_eq!(runner.run(Event::Spawned), Ok(Action::Poll));
    assert_eq!(runner.child, Child::Live);
    assert_eq!(runner.run(Event::Running), Ok(Action::Listen { millis: 50 }));
    assert_eq!(runner.run(Event::Quiet), Ok(Action::Poll));
    assert_eq!(runner.run(Event::Running), Ok(Action::Listen { millis: 50 }));
    assert_eq!(runner.run(Event::Quiet), Ok(Action::Poll));
    assert_eq!(runner.run(Event::Exited), Ok(Action::Collect));
    assert_eq!(runner.child, Child::Gone);
    assert!(!runner.is_done());
    let output = Output { success: false, stdout: b"out".to_vec() };
    assert_eq!(
        runner.run(Event::Collected(output.clone())),
        Ok(Action::Return(Reply::Ran(Some(output))))
    );
    assert!(runner.is_done());
    assert_eq!(runner.child, Child::Gone);
}

#[test]
fn runner_a_command_that_ends_at_once_is_never_listened_for() {
    let mut runner = fresh(false);
    runner.run(Event::Start).unwrap();
    runner.run(Event::Spawned).unwrap();
    assert_eq!(runner.run(Event::Exited), Ok(Action::Collect));
}

#[test]
fn runner_a_cancelled_command_is_told_to_end_given_time_killed_and_waited_for() {
    let mut runner = listening(false);
    assert_eq!(runner.run(Event::Cancelled), Ok(Action::Terminate));
    assert_eq!(runner.stage, Stage::Terminating);
    assert_eq!(runner.run(Event::Terminated), Ok(Action::Sleep { millis: 200 }));
    assert_eq!(runner.stage, Stage::Grace);
    assert_eq!(runner.run(Event::Slept), Ok(Action::Kill));
    assert_eq!(runner.run(Event::Killed), Ok(Action::Reap));
    assert_eq!(runner.child, Child::Live);
    assert_eq!(runner.run(Event::Reaped), Ok(Action::Return(Reply::Ran(None))));
    assert!(runner.is_done());
    assert_eq!(runner.child, Child::Gone);
}

#[test]
fn runner_nothing_turns_a_cancellation_into_a_failure() {
    let events = [
        Event::Start,
        Event::Exited,
        Event::Quiet,
        Event::Cancelled,
        Event::Terminated,
        Event::Killed,
        Event::Collected(Output { success: true, stdout: Vec::new() }),
        Event::Failed(Failure::because("no such process")),
    ];
    for first in &events {
        for second in &events {
            let mut runner = listening(true);
            assert_eq!(runner.run(Event::Cancelled), Ok(Action::Terminate));
            assert_eq!(runner.run(first.clone()), Ok(Action::Sleep { millis: 200 }));
            assert_eq!(runner.run(second.clone()), Ok(Action::Kill));
            assert_eq!(runner.run(first.clone()), Ok(Action::Reap));
            assert_eq!(runner.run(second.clone()), Ok(Action::Return(Reply::Ran(None))));
            assert!(runner.is_done());
            assert_eq!(runner.child, Child::Gone);
        }
    }
}

#[test]
fn runner_a_second_cancellation_changes_nothing() {
    let mut runner = listening(false);
    runner.run(Event::Cancelled).unwrap();
    assert_eq!(runner.run(Event::Cancelled), Ok(Action::Sleep { millis: 200 }));
    assert_eq!(runner.run(Event::Cancelled), Ok(Action::Kill));
    assert_eq!(runner.run(Event::Cancelled), Ok(Action::Reap));
    assert_eq!(runner.run(Event::Cancelled), Ok(Action::Return(Reply::Ran(None))));
}

#[test]
fn runner_a_cancellation_is_heard_only_while_listening() {
    let refusal = Err(Failure::because("the reply does not answer the request that was made"));
    let mut runner = fresh(false);
    assert_eq!(runner.run(Event::Cancelled), refusal);
    runner.run(Event::Start).unwrap();
    assert_eq!(runner.run(Event::Cancelled), refusal);
    runner.run(Event::Spawned).unwrap();
    assert_eq!(runner.run(Event::Cancelled), refusal);
    assert_eq!(runner.stage, Stage::Polling);
    assert_eq!(runner.run(Event::Exited), Ok(Action::Collect));
    assert_eq!(runner.run(Event::Cancelled), refusal);
}

#[test]
fn runner_a_command_that_cannot_be_started_fails_under_its_name() {
    let mut runner = Runner::new("/tmp/outs/to-check/bin/hello --version".to_string(), false);
    runner.run(Event::Start).unwrap();
    assert_eq!(
        runner.run(Event::Failed(Failure::because("No such file or directory (os error 2)"))),
        Ok(Action::Return(Reply::Failed(Failure {
            cause: "No such file or directory (os error 2)".to_string(),
            contexts: vec![
                "spawning the command /tmp/outs/to-check/bin/hello --version".to_string()
            ],
        })))
    );
    assert!(runner.is_done());
    assert_eq!(runner.child, Child::Unborn);
}

#[test]
fn runner_a_child_that_cannot_be_looked_at() {
    let mut runner = fresh(false);
    runner.run(Event::Start).unwrap();
    runner.run(Event::Spawned).unwrap();
    assert_eq!(
        runner.run(Event::Failed(Failure::because("interrupted system call"))),
        Ok(Action::Return(Reply::Failed(Failure {
            cause: "interrupted system call".to_string(),
            contexts: vec!["waiting for the command nix build hello".to_string()],
        })))
    );
    assert!(runner.is_done());
}

#[test]
fn runner_an_output_that_cannot_be_gathered() {
    let mut runner = fresh(true);
    runner.run(Event::Start).unwrap();
    runner.run(Event::Spawned).unwrap();
    runner.run(Event::Exited).unwrap();
    assert_eq!(
        runner.run(Event::Failed(Failure::because("broken pipe"))),
        Ok(Action::Return(Reply::Failed(Failure {
            cause: "broken pipe".to_string(),
            contexts: vec!["retrieving the output of the command nix build hello".to_string()],
        })))
    );
}

#[test]
fn runner_events_out_of_turn_change_nothing() {
    let refusal = Err(Failure::because("the reply does not answer the request that was made"));
    let mut runner = fresh(false);
    assert_eq!(runner.run(Event::Spawned), refusal);
    assert_eq!(runner, fresh(false));
    let mut runner = listening(false);
    let before = runner.clone();
    assert_eq!(runner.run(Event::Exited), refusal);
    assert_eq!(runner.run(Event::Failed(Failure::because("x"))), refusal);
    assert_eq!(runner, before);
    let mut done = listening(false);
    done.run(Event::Cancelled).unwrap();
    done.run(Event::Terminated).unwrap();
    done.run(Event::Slept).unwrap();
    done.run(Event::Killed).unwrap();
    done.run(Event::Reaped).unwrap();
    assert_eq!(done.run(Event::Start), refusal);
    assert!(done.is_done());
}

#[test]
fn runner_listening_hears_a_cancellation_that_is_there() {
    let (sender, killer) = crossbeam_channel::bounded::<()>(1);
    sender.send(()).unwrap();
    let mut runner = listening(false);
    assert_eq!(runner.listen(&killer), Ok(Action::Terminate));
    assert_eq!(runner.stage, Stage::Terminating);
}

#[test]
fn runner_listening_goes_back_to_the_child_when_nothing_is_heard() {
    let (_sender, killer) = crossbeam_channel::bounded::<()>(1);
    let mut runner = listening(false);
    assert_eq!(runner.listen(&killer), Ok(Action::Poll));
    assert_eq!(runner.stage, Stage::Polling);
}

#[test]
fn runner_a_cancellation_is_left_alone_while_the_run_does_not_listen() {
    let (sender, killer) = crossbeam_channel::bounded::<()>(1);
    sender.send(()).unwrap();
    let mut runner = fresh(false);
    runner.run(Event::Start).unwrap();
    runner.run(Event::Spawned).unwrap();
    assert_eq!(
        runner.listen(&killer),
        Err(Failure::because("the reply does not answer the request that was made"))
    );
    assert_eq!(runner.stage, Stage::Polling);
    assert_eq!(killer.try_recv(), Ok(()));
}
