//! Running one external command so that the operator can cancel it.
//!
//! The runner does not touch processes itself. It says what is to be done with the child
//! process next, and is told what came of it. While the child runs, it is looked at and the
//! cancellation is listened for in turn, neither for long, so that a cancellation is noticed
//! promptly. A cancelled child is given a grace period and then killed; that is no error,
//! but a run without outcome.
//!
//! Cancellations arrive on a channel of `crossbeam_channel`. The runner listens on it only
//! between two looks at a child that is running: a cancellation that is sent while no
//! command listens is meant for none, and it is for the sender not to leave it waiting.

use crate::exchange::{out_of_turn, out_of_turn_text, Output, OutputView, Reply, ReplyView};
use crate::failure::{Failure, FailureView};
use vstd::prelude::*;
use vstd::string::StringExecFns;

verus! {

/// `crossbeam_channel::Receiver`, of which nothing is known here but that it can be handed
/// on.
#[verifier::external_type_specification]
#[verifier::external_body]
#[verifier::reject_recursive_types(T)]
pub struct ExReceiver<T>(crossbeam_channel::Receiver<T>);

/// Calls `crossbeam_channel::Receiver::recv_timeout` and says whether anything was
/// received. Nothing is claimed of the answer: whether the operator cancels within the time
/// given is up to the operator.
#[verifier::external_body]
fn heard(killer: &crossbeam_channel::Receiver<()>, millis: u64) -> (cancelled: bool) {
    killer.recv_timeout(std::time::Duration::from_millis(millis)).is_ok()
}

/// For how long the cancellation is listened for between two looks at the child, in
/// milliseconds.
pub const POLL_MILLIS: u64 = 50;

/// For how long a cancelled child is left alone before it is killed, in milliseconds.
pub const GRACE_MILLIS: u64 = 200;

/// Where an output stream of the child goes.
#[derive(Clone, Copy, PartialEq, Eq, Structural, Debug)]
pub enum Channel {
    /// To the operator.
    Shown,
    /// To the caller.
    Captured,
}

/// What is known of the child process.
#[derive(Clone, Copy, PartialEq, Eq, Structural, Debug)]
pub enum Child {
    /// There is none yet.
    Unborn,
    /// It was started, and is not known to have ended.
    Live,
    /// It ended by itself, or it was killed.
    Gone,
}

/// Where the run stands.
#[derive(Clone, Copy, PartialEq, Eq, Structural, Debug)]
pub enum Stage {
    /// Nothing was done yet.
    Fresh,
    /// The child is being started.
    Spawning,
    /// It is being looked at whether the child has ended.
    Polling,
    /// The cancellation is being listened for.
    Listening,
    /// The operator cancelled, and the child is being told to end.
    Terminating,
    /// The child is given time to end by itself.
    Grace,
    /// The child is being killed, in case it is still alive.
    Killing,
    /// The child is being waited for, so that nothing is left of it.
    Reaping,
    /// The child ended by itself, and its output is being gathered.
    Collecting,
    /// The run is over.
    Done,
}

/// What is to be done with the child next.
#[derive(Clone, Debug, PartialEq, Eq)]
pub enum Action {
    /// Start the child. Its standard output goes where `stdout` says, its standard error
    /// where `stderr` says.
    Spawn { stdout: Channel, stderr: Channel },
    /// Look, without waiting, whether the child has ended.
    Poll,
    /// Listen for the cancellation, for `millis` milliseconds at most; see
    /// [`Runner::listen`].
    Listen { millis: u64 },
    /// Let `millis` milliseconds pass.
    Sleep { millis: u64 },
    /// Tell the child to end, with the signal for termination.
    Terminate,
    /// Kill the child if it is still alive.
    Kill,
    /// Wait for the child, which was killed, so that nothing is left of it.
    Reap,
    /// Gather what the child, which has ended, put out.
    Collect,
    /// Nothing more: the run ended as the reply says.
    Return(Reply),
}

/// An action, as a mathematical value.
pub enum ActionView {
    Spawn { stdout: Channel, stderr: Channel },
    Poll,
    Listen { millis: u64 },
    Sleep { millis: u64 },
    Terminate,
    Kill,
    Reap,
    Collect,
    Return(ReplyView),
}

impl View for Action {
    type V = ActionView;

    open spec fn view(&self) -> ActionView {
        match self {
            Action::Spawn { stdout, stderr } => ActionView::Spawn {
                stdout: *stdout,
                stderr: *stderr,
            },
            Action::Poll => ActionView::Poll,
            Action::Listen { millis } => ActionView::Listen { millis: *millis },
            Action::Sleep { millis } => ActionView::Sleep { millis: *millis },
            Action::Terminate => ActionView::Terminate,
            Action::Kill => ActionView::Kill,
            Action::Reap => ActionView::Reap,
            Action::Collect => ActionView::Collect,
            Action::Return(reply) => ActionView::Return(reply@),
        }
    }
}

/// What came of the last action.
#[derive(Clone, Debug, PartialEq, Eq)]
pub enum Event {
    /// Nothing yet: the run begins.
    Start,
    /// The child was started.
    Spawned,
    /// The child has not ended yet.
    Running,
    /// The child has ended.
    Exited,
    /// Nothing was heard in the time given.
    Quiet,
    /// The operator cancelled.
    Cancelled,
    /// The child was told to end, or could not be told any more.
    Terminated,
    /// The time has passed.
    Slept,
    /// The child was killed, or could not be killed any more.
    Killed,
    /// The child was waited for.
    Reaped,
    /// What the child put out.
    Collected(Output),
    /// The action could not be carried out.
    Failed(Failure),
}

/// An event, as a mathematical value.
pub enum EventView {
    Start,
    Spawned,
    Running,
    Exited,
    Quiet,
    Cancelled,
    Terminated,
    Slept,
    Killed,
    Reaped,
    Collected(OutputView),
    Failed(FailureView),
}

impl View for Event {
    type V = EventView;

    open spec fn view(&self) -> EventView {
        match self {
            Event::Start => EventView::Start,
            Event::Spawned => EventView::Spawned,
            Event::Running => EventView::Running,
            Event::Exited => EventView::Exited,
            Event::Quiet => EventView::Quiet,
            Event::Cancelled => EventView::Cancelled,
            Event::Terminated => EventView::Terminated,
            Event::Slept => EventView::Slept,
            Event::Killed => EventView::Killed,
            Event::Reaped => EventView::Reaped,
            Event::Collected(output) => EventView::Collected(output@),
            Event::Failed(failure) => EventView::Failed(failure@),
        }
    }
}

/// What the runner answers an event with: the next action, or the refusal of the event.
pub type Outcome = Result<Action, Failure>;

/// An answer of the runner, as a mathematical value.
pub type OutcomeView = Result<ActionView, FailureView>;

/// The model of an answer of the runner.
pub open spec fn outcome_view(outcome: Outcome) -> OutcomeView {
    match outcome {
        Ok(action) => Ok(action@),
        Err(failure) => Err(failure@),
    }
}

/// The state of a run.
#[derive(Clone, Debug, PartialEq, Eq)]
pub struct Runner {
    /// The command that is run, as it is to be named when it fails.
    pub command: String,
    pub capture_stdout: bool,
    pub stage: Stage,
    pub child: Child,
}

/// The state of a run, as a mathematical value.
pub struct RunnerView {
    pub command: Seq<char>,
    pub capture_stdout: bool,
    pub stage: Stage,
    pub child: Child,
}

impl View for Runner {
    type V = RunnerView;

    open spec fn view(&self) -> RunnerView {
        RunnerView {
            command: self.command@,
            capture_stdout: self.capture_stdout,
            stage: self.stage,
            child: self.child,
        }
    }
}

impl RunnerView {
    /// A run of `command` that is about to begin.
    pub open spec fn fresh(command: Seq<char>, capture_stdout: bool) -> RunnerView {
        RunnerView { command, capture_stdout, stage: Stage::Fresh, child: Child::Unborn }
    }

    /// What was under way when the command could not be started.
    pub open spec fn spawning_context(self) -> Seq<char> {
        "spawning the command "@ + self.command
    }

    /// What was under way when the child could not be looked at.
    pub open spec fn waiting_context(self) -> Seq<char> {
        "waiting for the command "@ + self.command
    }

    /// What was under way when the output of the child could not be gathered.
    pub open spec fn collecting_context(self) -> Seq<char> {
        "retrieving the output of the command "@ + self.command
    }

    /// The event does not answer the action that was asked for: nothing changes.
    pub open spec fn refused(self) -> (RunnerView, OutcomeView) {
        (self, Err(FailureView::bare(out_of_turn_text())))
    }

    /// The end of the run, with `reply` for result.
    pub open spec fn ended(self, child: Child, reply: ReplyView) -> (RunnerView, OutcomeView) {
        (RunnerView { stage: Stage::Done, child, ..self }, Ok(ActionView::Return(reply)))
    }

    /// The run once `event` is taken note of, and the answer to it. An event that does not
    /// answer the action asked for changes nothing and is refused. But once the operator
    /// has cancelled, whatever comes is taken for the end of the action under way: the
    /// child is told to end, left alone for the grace period, killed if it is still alive
    /// and waited for, and nothing stands between the cancellation and the end of the
    /// child. A failure names the command.
    pub open spec fn step(self, event: EventView) -> (RunnerView, OutcomeView) {
        match (self.stage, event) {
            (Stage::Fresh, EventView::Start) => (
                RunnerView { stage: Stage::Spawning, ..self },
                Ok(
                    ActionView::Spawn {
                        stdout: if self.capture_stdout {
                            Channel::Captured
                        } else {
                            Channel::Shown
                        },
                        stderr: Channel::Shown,
                    },
                ),
            ),
            (Stage::Spawning, EventView::Spawned) => (
                RunnerView { stage: Stage::Polling, child: Child::Live, ..self },
                Ok(ActionView::Poll),
            ),
            (Stage::Spawning, EventView::Failed(failure)) => self.ended(
                self.child,
                ReplyView::Failed(failure.within(self.spawning_context())),
            ),
            (Stage::Polling, EventView::Running) => (
                RunnerView { stage: Stage::Listening, ..self },
                Ok(ActionView::Listen { millis: POLL_MILLIS }),
            ),
            (Stage::Polling, EventView::Exited) => (
                RunnerView { stage: Stage::Collecting, child: Child::Gone, ..self },
                Ok(ActionView::Collect),
            ),
            (Stage::Polling, EventView::Failed(failure)) => self.ended(
                self.child,
                ReplyView::Failed(failure.within(self.waiting_context())),
            ),
            (Stage::Listening, EventView::Quiet) => (
                RunnerView { stage: Stage::Polling, ..self },
                Ok(ActionView::Poll),
            ),
            (Stage::Listening, EventView::Cancelled) => (
                RunnerView { stage: Stage::Terminating, ..self },
                Ok(ActionView::Terminate),
            ),
            (Stage::Terminating, _) => (
                RunnerView { stage: Stage::Grace, ..self },
                Ok(ActionView::Sleep { millis: GRACE_MILLIS }),
            ),
            (Stage::Grace, _) => (
                RunnerView { stage: Stage::Killing, ..self },
                Ok(ActionView::Kill),
            ),
            (Stage::Killing, _) => (
                RunnerView { stage: Stage::Reaping, ..self },
                Ok(ActionView::Reap),
            ),
            (Stage::Reaping, _) => self.ended(Child::Gone, ReplyView::Ran(None)),
            (Stage::Collecting, EventView::Collected(output)) => self.ended(
                self.child,
                ReplyView::Ran(Some(output)),
            ),
            (Stage::Collecting, EventView::Failed(failure)) => self.ended(
                self.child,
                ReplyView::Failed(failure.within(self.collecting_context())),
            ),
            _ => self.refused(),
        }
    }
}

impl Runner {
    /// A run of `command` that is about to begin. The command is not run from its name:
    /// the name only serves to say which command it was that failed.
    pub fn new(command: String, capture_stdout: bool) -> (runner: Runner)
        ensures
            runner@ == RunnerView::fresh(command@, capture_stdout),
    {
        Runner { command, capture_stdout, stage: Stage::Fresh, child: Child::Unborn }
    }

    /// Whether the run is over.
    pub fn is_done(&self) -> (yes: bool)
        ensures
            yes == (self@.stage == Stage::Done),
    {
        self.stage == Stage::Done
    }

    fn end(&mut self, child: Child, reply: Reply) -> (outcome: Outcome)
        ensures
            final(self)@ == old(self)@.ended(child, reply@).0,
            outcome_view(outcome) == old(self)@.ended(child, reply@).1,
    {
        self.stage = Stage::Done;
        self.child = child;
        Ok(Action::Return(reply))
    }

    fn fail(&mut self, failure: Failure, doing: &str) -> (outcome: Outcome)
        ensures
            final(self)@ == old(self)@.ended(
                old(self)@.child,
                ReplyView::Failed(failure@.within(doing@ + old(self)@.command)),
            ).0,
            outcome_view(outcome) == old(self)@.ended(
                old(self)@.child,
                ReplyView::Failed(failure@.within(doing@ + old(self)@.command)),
            ).1,
    {
        let context = crate::text::cat2(doing, self.command.as_str());
        let child = self.child;
        self.end(child, Reply::Failed(failure.context(context)))
    }

    /// Carries out `Action::Listen` on the channel on which cancellations arrive, and takes
    /// note of what was heard. The channel is listened on only while the run asks for it,
    /// so that a cancellation meant for no command is never taken for one meant for this
    /// command.
    pub fn listen(&mut self, killer: &crossbeam_channel::Receiver<()>) -> (outcome: Outcome)
        ensures
            ({
                let cancelled = old(self)@.step(EventView::Cancelled);
                let quiet = old(self)@.step(EventView::Quiet);
                let after = (final(self)@, outcome_view(outcome));
                if old(self)@.stage == Stage::Listening {
                    after == cancelled || after == quiet
                } else {
                    after == old(self)@.refused()
                }
            }),
    {
        if self.stage != Stage::Listening {
            Err(out_of_turn())
        } else if heard(killer, POLL_MILLIS) {
            self.run(Event::Cancelled)
        } else {
            self.run(Event::Quiet)
        }
    }

    /// Runs the command as far as `event` allows: takes note of the event and says what is
    /// to be done next. The run is over when the answer is `Action::Return`.
    pub fn run(&mut self, event: Event) -> (outcome: Outcome)
        ensures
            final(self)@ == old(self)@.step(event@).0,
            outcome_view(outcome) == old(self)@.step(event@).1,
            old(self)@.stage == Stage::Listening && event is Cancelled ==> (outcome matches Ok(
                Action::Terminate,
            )),
            old(self)@.stage == Stage::Terminating ==> (outcome matches Ok(Action::Sleep { .. })),
            old(self)@.stage == Stage::Grace ==> (outcome matches Ok(Action::Kill)),
            old(self)@.stage == Stage::Killing ==> (outcome matches Ok(Action::Reap)),
            old(self)@.stage == Stage::Reaping ==> (outcome matches Ok(
                Action::Return(Reply::Ran(None)),
            )) && final(self)@.child == Child::Gone && final(self)@.stage == Stage::Done,
    {
        match (self.stage, event) {
            (Stage::Fresh, Event::Start) => {
                self.stage = Stage::Spawning;
                Ok(
                    Action::Spawn {
                        stdout: if self.capture_stdout {
                            Channel::Captured
                        } else {
                            Channel::Shown
                        },
                        stderr: Channel::Shown,
                    },
                )
            },
            (Stage::Spawning, Event::Spawned) => {
                self.stage = Stage::Polling;
                self.child = Child::Live;
                Ok(Action::Poll)
            },
            (Stage::Spawning, Event::Failed(failure)) => self.fail(
                failure,
                "spawning the command ",
            ),
            (Stage::Polling, Event::Running) => {
                self.stage = Stage::Listening;
                Ok(Action::Listen { millis: POLL_MILLIS })
            },
            (Stage::Polling, Event::Exited) => {
                self.stage = Stage::Collecting;
                self.child = Child::Gone;
                Ok(Action::Collect)
            },
            (Stage::Polling, Event::Failed(failure)) => self.fail(
                failure,
                "waiting for the command ",
            ),
            (Stage::Listening, Event::Quiet) => {
                self.stage = Stage::Polling;
                Ok(Action::Poll)
            },
            (Stage::Listening, Event::Cancelled) => {
                self.stage = Stage::Terminating;
                Ok(Action::Terminate)
            },
            (Stage::Terminating, _) => {
                self.stage = Stage::Grace;
                Ok(Action::Sleep { millis: GRACE_MILLIS })
            },
            (Stage::Grace, _) => {
                self.stage = Stage::Killing;
                Ok(Action::Kill)
            },
            (Stage::Killing, _) => {
                self.stage = Stage::Reaping;
                Ok(Action::Reap)
            },
            (Stage::Reaping, _) => self.end(Child::Gone, Reply::Ran(None)),
            (Stage::Collecting, Event::Collected(output)) => {
                let child = self.child;
                self.end(child, Reply::Ran(Some(output)))
            },
            (Stage::Collecting, Event::Failed(failure)) => self.fail(
                failure,
                "retrieving the output of the command ",
            ),
            _ => Err(out_of_turn()),
        }
    }
}

/// Cancelling a command that is under way always ends in a run without outcome, never in a
/// failure, and with the child gone: whatever is reported after the cancellation, be it
/// a failure or a second cancellation, the child is told to end, left alone for the grace
/// period, killed if it is still alive, and waited for; then the run ends.
pub proof fn lemma_cancellation_ends_without_outcome(
    runner: RunnerView,
    after_signal: EventView,
    after_grace: EventView,
    after_kill: EventView,
    after_wait: EventView,
)
    requires
        runner.stage == Stage::Listening,
    ensures
        ({
            let cancelled = runner.step(EventView::Cancelled);
            let signalled = cancelled.0.step(after_signal);
            let waited = signalled.0.step(after_grace);
            let killed = waited.0.step(after_kill);
            let reaped = killed.0.step(after_wait);
            &&& cancelled.1 == Ok::<ActionView, FailureView>(ActionView::Terminate)
            &&& signalled.1 == Ok::<ActionView, FailureView>(
                ActionView::Sleep { millis: GRACE_MILLIS },
            )
            &&& waited.1 == Ok::<ActionView, FailureView>(ActionView::Kill)
            &&& killed.1 == Ok::<ActionView, FailureView>(ActionView::Reap)
            &&& reaped.1 == Ok::<ActionView, FailureView>(ActionView::Return(ReplyView::Ran(None)))
            &&& reaped.0.stage == Stage::Done
            &&& reaped.0.child == Child::Gone
        }),
{
}

/// A cancellation is taken once: after it the run never listens again, and goes on to
/// its end whatever is reported.
pub proof fn lemma_cancellation_is_taken_once(runner: RunnerView, event: EventView)
    requires
        runner.stage == Stage::Terminating || runner.stage == Stage::Grace || runner.stage
            == Stage::Killing || runner.stage == Stage::Reaping,
    ensures
        runner.step(event).1 is Ok,
        !(runner.step(event).1 matches Ok(ActionView::Listen { .. })),
        runner.step(event).0.stage == Stage::Grace || runner.step(event).0.stage
            == Stage::Killing || runner.step(event).0.stage == Stage::Reaping || runner.step(
            event,
        ).0.stage == Stage::Done,
{
}

/// A child is live only while the run is under way and the child was not seen to end: a
/// run that is over after the child ended or was cancelled leaves no child behind.
pub open spec fn tidy(runner: RunnerView) -> bool {
    &&& (runner.stage == Stage::Fresh || runner.stage == Stage::Spawning) ==> runner.child
        == Child::Unborn
    &&& (runner.stage == Stage::Polling || runner.stage == Stage::Listening || runner.stage
        == Stage::Terminating || runner.stage == Stage::Grace || runner.stage == Stage::Killing
        || runner.stage == Stage::Reaping) ==> runner.child == Child::Live
    &&& runner.stage == Stage::Collecting ==> runner.child == Child::Gone
}

/// Every step keeps the run tidy, and a run can only end with a live child by a failure to
/// look at it.
pub proof fn lemma_step_keeps_tidy(runner: RunnerView, event: EventView)
    requires
        tidy(runner),
    ensures
        tidy(runner.step(event).0),
        runner.step(event).0.stage == Stage::Done && runner.step(event).0.child == Child::Live
            ==> runner.stage == Stage::Polling && event is Failed || runner.stage
            == Stage::Done,
{
}

/// A command that cannot be started fails under its name, with no child, and without the
/// cancellation having been listened for.
pub proof fn lemma_spawn_failure_names_the_command(runner: RunnerView, failure: FailureView)
    requires
        runner.stage == Stage::Spawning,
        tidy(runner),
    ensures
        runner.step(EventView::Failed(failure)).1 == Ok::<ActionView, FailureView>(
            ActionView::Return(
                ReplyView::Failed(failure.within("spawning the command "@ + runner.command)),
            ),
        ),
        runner.step(EventView::Failed(failure)).0.child == Child::Unborn,
        runner.step(EventView::Failed(failure)).0.stage == Stage::Done,
{
}

} // verus!
